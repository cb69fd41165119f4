//! The serial transport's write policy. Serial-attached receipt printers
//! often have small input buffers and no flow control, so a payload is never
//! written in one burst: it is split into fixed-size chunks, and the writer
//! pauses between chunks. The exact chunk size and pacing delay matter for
//! hardware compatibility and are fixed here.

use vstd::prelude::*;

use crate::errors::{OpenFailure, TransportError, WriteFailure};

verus! {

/// Number of bytes in one serial chunk: every chunk but the last holds
/// exactly this many bytes.
pub const SERIAL_CHUNK_SIZE: usize = 512;

/// Milliseconds to pause after writing each chunk.
pub const SERIAL_PACING_MS: u64 = 20;

/// Seconds the serial device is given for each open and write operation.
pub const SERIAL_TIMEOUT_SECS: u64 = 3;

/// The view of a chunk list: each chunk as a byte sequence.
pub open spec fn chunks_view(r: Seq<Vec<u8>>) -> Seq<Seq<u8>> {
    r.map_values(|c: Vec<u8>| c@)
}

/// Splits a payload into the chunks the serial writer sends, in order:
/// every chunk but the last holds exactly [`SERIAL_CHUNK_SIZE`] bytes, the
/// last holds the nonempty remainder, and the chunks concatenate back to
/// the payload, so every payload byte is sent exactly once.
pub fn plan_chunks(data: &Vec<u8>) -> (r: Vec<Vec<u8>>)
    ensures
        chunks_view(r@).flatten() == data@,
        forall|i: int|
            0 <= i < r@.len() - 1 ==> #[trigger] r@[i]@.len() == SERIAL_CHUNK_SIZE as int,
        r@.len() > 0 ==> 1 <= r@.last()@.len() <= SERIAL_CHUNK_SIZE as int,
        r@.len() == 0 <==> data@.len() == 0,
{
    let mut out: Vec<Vec<u8>> = Vec::new();
    let mut pos: usize = 0;
    proof {
        assert(chunks_view(out@) =~= Seq::<Seq<u8>>::empty());
        assert(data@.take(0) =~= Seq::<u8>::empty());
    }
    while pos < data.len()
        invariant
            pos <= data@.len(),
            pos == 0 <==> out@.len() == 0,
            pos < data@.len() && out@.len() > 0 ==> out@.last()@.len()
                == SERIAL_CHUNK_SIZE as int,
            forall|i: int|
                0 <= i < out@.len() - 1 ==> #[trigger] out@[i]@.len() == SERIAL_CHUNK_SIZE as int,
            out@.len() > 0 ==> 1 <= out@.last()@.len() <= SERIAL_CHUNK_SIZE as int,
            chunks_view(out@).flatten_alt() == data@.take(pos as int),
        decreases data@.len() - pos,
    {
        let remaining = data.len() - pos;
        let step = if remaining < SERIAL_CHUNK_SIZE {
            remaining
        } else {
            SERIAL_CHUNK_SIZE
        };
        let end = pos + step;
        let chunk = vstd::slice::slice_to_vec(
            vstd::slice::slice_subrange(data.as_slice(), pos, end),
        );
        proof {
            let old_view = chunks_view(out@);
            let new_view = chunks_view(out@.push(chunk));
            assert(new_view =~= old_view.push(chunk@));
            assert(new_view.drop_last() =~= old_view);
            assert(new_view.flatten_alt() == old_view.flatten_alt() + chunk@);
            assert(data@.take(end as int) =~= data@.take(pos as int) + chunk@);
        }
        out.push(chunk);
        pos = end;
    }
    proof {
        assert(data@.take(pos as int) =~= data@);
        chunks_view(out@).lemma_flatten_and_flatten_alt_are_equivalent();
    }
    out
}


/// The total number of bytes across a list of chunks.
pub open spec fn total_len(cs: Seq<Seq<u8>>) -> int
    decreases cs.len(),
{
    if cs.len() == 0 {
        0
    } else {
        cs.first().len() + total_len(cs.drop_first())
    }
}

/// A concatenation is as long as its pieces together.
pub proof fn lemma_flatten_len(cs: Seq<Seq<u8>>)
    ensures
        cs.flatten().len() == total_len(cs),
    decreases cs.len(),
{
    if cs.len() > 0 {
        lemma_flatten_len(cs.drop_first());
    }
}

/// The chunk plan sends every payload byte exactly once: because the chunks
/// concatenate back to the payload, the total of their lengths is exactly
/// the payload's length.
pub proof fn lemma_chunks_carry_whole_payload(chunks: Seq<Vec<u8>>, data: Seq<u8>)
    requires
        chunks_view(chunks).flatten() == data,
    ensures
        total_len(chunks_view(chunks)) == data.len(),
{
    lemma_flatten_len(chunks_view(chunks));
}

/// Where one serial job stands.
#[derive(Debug, Clone, Copy, PartialEq, Eq, Structural)]
pub enum SerialState {
    /// The named device is being opened at the requested baud rate.
    Opening,
    /// The device is open; chunk `next` of the plan is being written.
    Writing { next: usize },
    /// Every chunk is written; the final flush is running.
    Flushing,
    /// The job is over and the device is closed.
    Done,
}

/// The outcome of the one device call the surrounding process just made.
#[derive(Debug)]
pub enum SerialEvent {
    /// The device could not be opened, with the reported cause.
    OpenFailed(String),
    /// The device is open.
    Opened,
    /// Writing the current chunk failed, with the cause. A partial chunk
    /// write is a failure: there is no partial success.
    ChunkFailed(String),
    /// The current chunk was written in full.
    ChunkWritten,
    /// The final flush failed, with the cause.
    FlushFailed(String),
    /// The final flush succeeded.
    Flushed,
}

/// The next device call, or the final outcome.
#[derive(Debug)]
pub enum SerialAction {
    /// Write chunk `i` of the plan in full, then pause for
    /// [`SERIAL_PACING_MS`] milliseconds.
    WriteChunk(usize),
    /// Flush the device.
    Flush,
    /// The job is over; close the device and report this outcome.
    Finish(Result<(), TransportError>),
}

/// Whether the event reports the call that the state is waiting on, for a
/// plan of `n_chunks` chunks.
pub open spec fn serial_event_fits(n_chunks: usize, s: SerialState, e: SerialEvent) -> bool {
    match (s, e) {
        (SerialState::Opening, SerialEvent::OpenFailed(_)) => true,
        (SerialState::Opening, SerialEvent::Opened) => true,
        (SerialState::Writing { next }, SerialEvent::ChunkFailed(_)) => next < n_chunks,
        (SerialState::Writing { next }, SerialEvent::ChunkWritten) => next < n_chunks,
        (SerialState::Flushing, SerialEvent::FlushFailed(_)) => true,
        (SerialState::Flushing, SerialEvent::Flushed) => true,
        _ => false,
    }
}

/// The transition table of one serial job over a plan of `n_chunks`
/// chunks: open, write the chunks one by one in order, flush. Every
/// failure is terminal and carries the device name; the flush failure is a
/// hard error, unlike the TCP transport's.
pub open spec fn spec_serial_step(
    port: String,
    n_chunks: usize,
    s: SerialState,
    e: SerialEvent,
) -> (SerialState, SerialAction) {
    match (s, e) {
        (SerialState::Opening, SerialEvent::OpenFailed(cause)) => (
            SerialState::Done,
            SerialAction::Finish(
                Err(TransportError::OpenError(OpenFailure::Serial { port, cause })),
            ),
        ),
        (SerialState::Opening, SerialEvent::Opened) => if n_chunks == 0 {
            (SerialState::Flushing, SerialAction::Flush)
        } else {
            (SerialState::Writing { next: 0 }, SerialAction::WriteChunk(0))
        },
        (SerialState::Writing { next: _ }, SerialEvent::ChunkFailed(cause)) => (
            SerialState::Done,
            SerialAction::Finish(
                Err(TransportError::WriteError(WriteFailure::Serial { port, cause })),
            ),
        ),
        (SerialState::Writing { next }, SerialEvent::ChunkWritten) => if next + 1
            < n_chunks {
            (
                SerialState::Writing { next: (next + 1) as usize },
                SerialAction::WriteChunk((next + 1) as usize),
            )
        } else {
            (SerialState::Flushing, SerialAction::Flush)
        },
        (SerialState::Flushing, SerialEvent::FlushFailed(cause)) => (
            SerialState::Done,
            SerialAction::Finish(Err(TransportError::FlushError { port, cause })),
        ),
        (SerialState::Flushing, SerialEvent::Flushed) => (
            SerialState::Done,
            SerialAction::Finish(Ok(())),
        ),
        _ => (SerialState::Done, SerialAction::Finish(Err(TransportError::ValidationError))),
    }
}

/// Advances one serial job by one device call.
pub fn serial_step(
    port: &String,
    n_chunks: usize,
    state: SerialState,
    event: SerialEvent,
) -> (r: (SerialState, SerialAction))
    requires
        serial_event_fits(n_chunks, state, event),
    ensures
        r == spec_serial_step(*port, n_chunks, state, event),
{
    match (state, event) {
        (SerialState::Opening, SerialEvent::OpenFailed(cause)) => (
            SerialState::Done,
            SerialAction::Finish(
                Err(
                    TransportError::OpenError(
                        OpenFailure::Serial { port: port.clone(), cause },
                    ),
                ),
            ),
        ),
        (SerialState::Opening, SerialEvent::Opened) => if n_chunks == 0 {
            (SerialState::Flushing, SerialAction::Flush)
        } else {
            (SerialState::Writing { next: 0 }, SerialAction::WriteChunk(0))
        },
        (SerialState::Writing { next: _ }, SerialEvent::ChunkFailed(cause)) => (
            SerialState::Done,
            SerialAction::Finish(
                Err(
                    TransportError::WriteError(
                        WriteFailure::Serial { port: port.clone(), cause },
                    ),
                ),
            ),
        ),
        (SerialState::Writing { next }, SerialEvent::ChunkWritten) => if next + 1 < n_chunks {
            (SerialState::Writing { next: next + 1 }, SerialAction::WriteChunk(next + 1))
        } else {
            (SerialState::Flushing, SerialAction::Flush)
        },
        (SerialState::Flushing, SerialEvent::FlushFailed(cause)) => (
            SerialState::Done,
            SerialAction::Finish(
                Err(TransportError::FlushError { port: port.clone(), cause }),
            ),
        ),
        (SerialState::Flushing, SerialEvent::Flushed) => (
            SerialState::Done,
            SerialAction::Finish(Ok(())),
        ),
        _ => (SerialState::Done, SerialAction::Finish(Err(TransportError::ValidationError))),
    }
}

/// Chunks go out one by one, in order, each exactly once: the first write
/// is chunk zero, each successful chunk is followed by the next one, and
/// the flush runs only once the last chunk is written. Success is reported
/// only by a successful flush after that.
pub proof fn lemma_serial_chunks_in_order(
    port: String,
    n_chunks: usize,
    s: SerialState,
    e: SerialEvent,
)
    requires
        serial_event_fits(n_chunks, s, e),
    ensures
        spec_serial_step(port, n_chunks, s, e).1 matches SerialAction::WriteChunk(i) ==> ({
            &&& i < n_chunks
            &&& (s is Opening ==> i == 0)
            &&& (s matches SerialState::Writing { next } ==> i == next + 1)
        }),
        spec_serial_step(port, n_chunks, s, e).1 is Flush ==> ((s is Opening && n_chunks == 0)
            || (s matches SerialState::Writing { next } && next + 1 == n_chunks
            && e is ChunkWritten)),
        spec_serial_step(port, n_chunks, s, e).1 matches SerialAction::Finish(o) ==> (o is Ok
            ==> (s is Flushing && e is Flushed)),
{
}

} // verus!
