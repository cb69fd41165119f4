//! The TCP transport: one connection per job, resolve then connect then
//! write then best-effort flush. The decisions — which failure maps to
//! which error, and that a flush failure is swallowed once the write is
//! accepted — live here; the surrounding process performs the socket calls
//! and reports their outcomes.

use vstd::prelude::*;

use crate::errors::{TransportError, WriteFailure};

verus! {

/// Seconds the connection attempt is given before it fails.
pub const TCP_CONNECT_TIMEOUT_SECS: u64 = 3;

/// Seconds each write is given before it fails.
pub const TCP_WRITE_TIMEOUT_SECS: u64 = 3;

/// Where one TCP job stands.
#[derive(Debug, Clone, Copy, PartialEq, Eq, Structural)]
pub enum TcpState {
    /// The host and port are being resolved to a concrete address.
    Resolving,
    /// An address is known; the timed connection is being opened.
    Connecting,
    /// The connection is open; the whole payload is being written.
    Writing,
    /// The payload is written; the best-effort flush is running.
    Flushing,
    /// The job is over and the connection is closed.
    Done,
}

/// The outcome of the one socket step the surrounding process just made.
#[derive(Debug)]
pub enum TcpEvent {
    /// The resolver itself failed, with its reported cause.
    ResolveFailed(String),
    /// Resolution succeeded but yielded no address.
    ResolvedNone,
    /// Resolution yielded a concrete address.
    ResolvedSome,
    /// The connection timed out or was refused, with the cause.
    ConnectFailed(String),
    /// The connection is open.
    Connected,
    /// A write did not complete before the timeout or the peer reset.
    WriteFailed(String),
    /// Every payload byte was accepted.
    Wrote,
    /// The flush finished; whether it succeeded does not matter.
    Flushed(bool),
}

/// The next socket step, or the final outcome.
#[derive(Debug)]
pub enum TcpAction {
    /// Open the timed connection to the resolved address.
    Connect,
    /// Write the whole payload.
    Write,
    /// Flush, best effort.
    Flush,
    /// The job is over; close the connection and report this outcome.
    Finish(Result<(), TransportError>),
}

/// Whether the event reports the step that the state is waiting on.
pub open spec fn tcp_event_fits(s: TcpState, e: TcpEvent) -> bool {
    match (s, e) {
        (TcpState::Resolving, TcpEvent::ResolveFailed(_)) => true,
        (TcpState::Resolving, TcpEvent::ResolvedNone) => true,
        (TcpState::Resolving, TcpEvent::ResolvedSome) => true,
        (TcpState::Connecting, TcpEvent::ConnectFailed(_)) => true,
        (TcpState::Connecting, TcpEvent::Connected) => true,
        (TcpState::Writing, TcpEvent::WriteFailed(_)) => true,
        (TcpState::Writing, TcpEvent::Wrote) => true,
        (TcpState::Flushing, TcpEvent::Flushed(_)) => true,
        _ => false,
    }
}

/// The transition table of one TCP job. Each failure is terminal and maps
/// to its own error; a flush outcome is terminal success either way,
/// because the write contract is already satisfied.
pub open spec fn spec_tcp_step(s: TcpState, e: TcpEvent) -> (TcpState, TcpAction) {
    match (s, e) {
        (TcpState::Resolving, TcpEvent::ResolveFailed(cause)) => (
            TcpState::Done,
            TcpAction::Finish(Err(TransportError::ResolutionError { cause: Some(cause) })),
        ),
        (TcpState::Resolving, TcpEvent::ResolvedNone) => (
            TcpState::Done,
            TcpAction::Finish(Err(TransportError::ResolutionError { cause: None })),
        ),
        (TcpState::Resolving, TcpEvent::ResolvedSome) => (TcpState::Connecting, TcpAction::Connect),
        (TcpState::Connecting, TcpEvent::ConnectFailed(cause)) => (
            TcpState::Done,
            TcpAction::Finish(Err(TransportError::ConnectError { cause })),
        ),
        (TcpState::Connecting, TcpEvent::Connected) => (TcpState::Writing, TcpAction::Write),
        (TcpState::Writing, TcpEvent::WriteFailed(cause)) => (
            TcpState::Done,
            TcpAction::Finish(Err(TransportError::WriteError(WriteFailure::Tcp { cause }))),
        ),
        (TcpState::Writing, TcpEvent::Wrote) => (TcpState::Flushing, TcpAction::Flush),
        (TcpState::Flushing, TcpEvent::Flushed(_)) => (
            TcpState::Done,
            TcpAction::Finish(Ok(())),
        ),
        _ => (TcpState::Done, TcpAction::Finish(Err(TransportError::ValidationError))),
    }
}

/// Advances one TCP job by one socket step.
pub fn tcp_step(state: TcpState, event: TcpEvent) -> (r: (TcpState, TcpAction))
    requires
        tcp_event_fits(state, event),
    ensures
        r == spec_tcp_step(state, event),
{
    match (state, event) {
        (TcpState::Resolving, TcpEvent::ResolveFailed(cause)) => (
            TcpState::Done,
            TcpAction::Finish(Err(TransportError::ResolutionError { cause: Some(cause) })),
        ),
        (TcpState::Resolving, TcpEvent::ResolvedNone) => (
            TcpState::Done,
            TcpAction::Finish(Err(TransportError::ResolutionError { cause: None })),
        ),
        (TcpState::Resolving, TcpEvent::ResolvedSome) => (TcpState::Connecting, TcpAction::Connect),
        (TcpState::Connecting, TcpEvent::ConnectFailed(cause)) => (
            TcpState::Done,
            TcpAction::Finish(Err(TransportError::ConnectError { cause })),
        ),
        (TcpState::Connecting, TcpEvent::Connected) => (TcpState::Writing, TcpAction::Write),
        (TcpState::Writing, TcpEvent::WriteFailed(cause)) => (
            TcpState::Done,
            TcpAction::Finish(Err(TransportError::WriteError(WriteFailure::Tcp { cause }))),
        ),
        (TcpState::Writing, TcpEvent::Wrote) => (TcpState::Flushing, TcpAction::Flush),
        (TcpState::Flushing, TcpEvent::Flushed(_)) => (
            TcpState::Done,
            TcpAction::Finish(Ok(())),
        ),
        _ => (TcpState::Done, TcpAction::Finish(Err(TransportError::ValidationError))),
    }
}

/// A TCP job succeeds only when every step before the flush succeeded: the
/// write action is issued only on an open connection, and the successful
/// outcome is reported only once every payload byte was accepted — whatever
/// the best-effort flush then did.
pub proof fn lemma_tcp_success_needs_full_write(s: TcpState, e: TcpEvent)
    requires
        tcp_event_fits(s, e),
    ensures
        spec_tcp_step(s, e).1 matches TcpAction::Finish(o) ==> (o is Ok ==> s is Flushing),
        (spec_tcp_step(s, e).1 is Write) ==> (s is Connecting && e is Connected),
        (spec_tcp_step(s, e).0 is Flushing) ==> (s is Writing && e is Wrote),
{
}

/// The flush after a complete write is best effort: its outcome, success or
/// failure, never changes the reported result.
pub proof fn lemma_tcp_flush_best_effort(ok: bool)
    ensures
        spec_tcp_step(TcpState::Flushing, TcpEvent::Flushed(ok)) == (
            TcpState::Done,
            TcpAction::Finish(Ok::<(), TransportError>(())),
        ),
{
}

} // verus!
