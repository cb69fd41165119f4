//! The spooler transport: printer-queue enumeration hygiene, printer-name
//! validation, and the lifecycle of one raw print job.
//!
//! The job lifecycle is the one place in the gateway where an OS handle
//! lives across several calls, and the one invariant the gateway must never
//! break is that the handle is released on every exit path. The lifecycle is
//! therefore a state machine: the surrounding process performs one spooler
//! call per step and reports its outcome, and the machine decides what
//! happens next. The machine never finishes while the handle is open.

use vstd::prelude::*;

use crate::errors::{OpenFailure, TransportError, WriteFailure};
use crate::sorting::{
    lemma_same_multiset_same_names, name_views, names_distinct, names_sorted, sort_names,
};
use crate::text::{
    is_blank, lemma_lex_le_antisymmetric, lemma_lex_le_transitive, lex_le, str_is_blank,
};

verus! {

/// Keeps only the names that are not blank, in their original order.
fn drop_blank_names(names: &Vec<String>) -> (r: Vec<String>)
    ensures
        forall|i: int| 0 <= i < r@.len() ==> !is_blank(#[trigger] r@[i]@),
        forall|s: Seq<char>|
            name_views(r@).contains(s) <==> (name_views(names@).contains(s) && !is_blank(s)),
{
    broadcast use vstd::seq_lib::group_seq_properties;

    let mut out: Vec<String> = Vec::new();
    let mut idx: usize = 0;
    proof {
        assert(name_views(out@) =~= Seq::<Seq<char>>::empty());
        assert(name_views(names@.take(0)) =~= Seq::<Seq<char>>::empty());
    }
    while idx < names.len()
        invariant
            idx <= names@.len(),
            forall|i: int| 0 <= i < out@.len() ==> !is_blank(#[trigger] out@[i]@),
            forall|s: Seq<char>|
                name_views(out@).contains(s) <==> (name_views(names@.take(idx as int)).contains(s)
                    && !is_blank(s)),
        decreases names@.len() - idx,
    {
        broadcast use vstd::seq_lib::group_seq_properties;

        let ghost prev = out@;
        let ghost taken = names@.take(idx as int);
        let x = names[idx].clone();
        let blank = str_is_blank(x.as_str());
        if !blank {
            out.push(x);
        }
        proof {
            assert(names@.take(idx + 1) =~= taken.push(names@[idx as int]));
            assert(name_views(names@.take(idx + 1)) =~= name_views(taken).push(
                names@[idx as int]@,
            ));
            if !blank {
                assert(name_views(out@) =~= name_views(prev).push(x@));
            }
        }
        idx = idx + 1;
    }
    proof {
        assert(names@.take(idx as int) =~= names@);
    }
    out
}

/// Removes exact repetitions from an ascending listing, keeping one copy of
/// each name.
fn dedup_sorted_names(v: &Vec<String>) -> (r: Vec<String>)
    requires
        names_sorted(v@),
    ensures
        names_sorted(r@),
        names_distinct(r@),
        forall|s: Seq<char>| name_views(r@).contains(s) <==> name_views(v@).contains(s),
{
    broadcast use vstd::seq_lib::group_seq_properties;

    let mut out: Vec<String> = Vec::new();
    let mut idx: usize = 0;
    proof {
        assert(name_views(out@) =~= Seq::<Seq<char>>::empty());
        assert(name_views(v@.take(0)) =~= Seq::<Seq<char>>::empty());
    }
    while idx < v.len()
        invariant
            idx <= v@.len(),
            names_sorted(v@),
            names_sorted(out@),
            names_distinct(out@),
            out@.len() == 0 ==> idx == 0,
            out@.len() > 0 ==> idx > 0 && out@.last()@ == v@[idx - 1]@,
            forall|s: Seq<char>|
                name_views(out@).contains(s) <==> name_views(v@.take(idx as int)).contains(s),
        decreases v@.len() - idx,
    {
        broadcast use vstd::seq_lib::group_seq_properties;

        let ghost prev = out@;
        let ghost taken = v@.take(idx as int);
        let x = v[idx].clone();
        let keep = if out.len() == 0 {
            true
        } else {
            let last = out.len() - 1;
            !(out[last] == x)
        };
        if keep {
            proof {
                if prev.len() > 0 {
                    assert(lex_le(v@[idx - 1]@, v@[idx as int]@));
                    assert forall|t: int| 0 <= t < prev.len() implies lex_le(prev[t]@, x@)
                        && prev[t]@ != x@ by {
                        if t < prev.len() - 1 {
                            lemma_lex_le_transitive(prev[t]@, prev.last()@, x@);
                        }
                        if prev[t]@ == x@ {
                            lemma_lex_le_antisymmetric(prev.last()@, x@);
                        }
                    }
                }
            }
            out.push(x);
        }
        proof {
            assert(v@.take(idx + 1) =~= taken.push(v@[idx as int]));
            assert(name_views(v@.take(idx + 1)) =~= name_views(taken).push(v@[idx as int]@));
            if keep {
                assert(name_views(out@) =~= name_views(prev).push(x@));
            } else {
                assert(name_views(prev)[prev.len() - 1] == v@[idx as int]@);
                assert(name_views(prev).contains(v@[idx as int]@));
            }
        }
        idx = idx + 1;
    }
    proof {
        assert(v@.take(idx as int) =~= v@);
    }
    out
}

/// Cleans up an enumerated list of printer names the way the enumeration
/// command reports it: blank and whitespace-only names are dropped, the rest
/// are sorted ascending, and exact duplicates are removed. A name is listed
/// if and only if it was enumerated and is not blank, and it is listed once.
pub fn sanitize_printer_names(names: Vec<String>) -> (r: Vec<String>)
    ensures
        names_sorted(r@),
        names_distinct(r@),
        forall|i: int| 0 <= i < r@.len() ==> !is_blank(#[trigger] r@[i]@),
        forall|s: Seq<char>|
            name_views(r@).contains(s) <==> (name_views(names@).contains(s) && !is_blank(s)),
{
    let kept = drop_blank_names(&names);
    let sorted = sort_names(&kept);
    proof {
        lemma_same_multiset_same_names(sorted@, kept@);
    }
    let r = dedup_sorted_names(&sorted);
    proof {
        broadcast use vstd::seq_lib::group_seq_properties;

        assert forall|i: int| 0 <= i < r@.len() implies !is_blank(#[trigger] r@[i]@) by {
            assert(name_views(r@)[i] == r@[i]@);
            assert(name_views(r@).contains(r@[i]@));
        }
    }
    r
}

/// The fixed document name every raw job is started under.
pub fn spool_doc_name() -> (r: String)
    ensures
        r@ == "BinanceXI Receipt"@,
{
    String::from_str("BinanceXI Receipt")
}

/// The data-type marker that tells the spooler to forward the bytes to the
/// printer driver unmodified instead of interpreting them as a document.
pub fn spool_raw_data_type() -> (r: String)
    ensures
        r@ == "RAW"@,
{
    String::from_str("RAW")
}

/// Where one raw print job stands. The states record exactly which spooler
/// calls are still owed, so releasing the handle can never be skipped.
#[derive(Debug, Clone, Copy, PartialEq, Eq, Structural)]
pub enum SpoolerState {
    /// The printer is being opened; no handle exists yet.
    Opening,
    /// The handle is open; the raw document is being started.
    StartingDoc,
    /// The document started; the page is being started.
    StartingPage,
    /// The page started; the payload is being written.
    Writing,
    /// The write came back; the page is being ended whatever the outcome.
    EndingPage { write_ok: bool, written: u32 },
    /// The page is ended; the document is being ended.
    EndingDoc { write_ok: bool, written: u32, page_ok: bool },
    /// The document is ended; the handle is being closed.
    Closing { write_ok: bool, written: u32, page_ok: bool, doc_ok: bool },
    /// The document could not be started; the handle is being closed.
    ClosingAfterDocRefused,
    /// The page could not be started; the document is being ended first.
    EndingDocAfterPageRefused,
    /// The page could not be started and the document is ended; the handle
    /// is being closed.
    ClosingAfterPageRefused,
    /// The job is over and the handle is released.
    Done,
}

/// The outcome of the one spooler call the surrounding process just made.
#[derive(Debug, Clone, Copy, PartialEq, Eq, Structural)]
pub enum SpoolerEvent {
    /// Whether the printer opened with a usable handle.
    Opened(bool),
    /// The job identifier the spooler assigned, zero when it refused.
    DocStarted(u32),
    /// Whether the page started.
    PageStarted(bool),
    /// Whether the write call succeeded, and how many bytes the spooler
    /// reports it accepted.
    Written { ok: bool, written: u32 },
    /// Whether ending the page succeeded.
    PageEnded(bool),
    /// Whether ending the document succeeded.
    DocEnded(bool),
    /// The handle is closed.
    Closed,
}

/// The next spooler call the surrounding process must make, or the final
/// outcome of the job.
#[derive(Debug)]
pub enum SpoolerAction {
    /// Start the raw document.
    StartDoc,
    /// Start the page.
    StartPage,
    /// Write the whole payload in one call.
    Write,
    /// End the page.
    EndPage,
    /// End the document.
    EndDoc,
    /// Close the handle.
    Close,
    /// The job is over; report this outcome.
    Finish(Result<(), TransportError>),
}

/// Whether the printer handle is open in the given state.
pub open spec fn handle_open(s: SpoolerState) -> bool {
    !(s is Opening || s is Done)
}

/// Whether the event reports the call that the state is waiting on.
pub open spec fn event_fits(s: SpoolerState, e: SpoolerEvent) -> bool {
    match (s, e) {
        (SpoolerState::Opening, SpoolerEvent::Opened(_)) => true,
        (SpoolerState::StartingDoc, SpoolerEvent::DocStarted(_)) => true,
        (SpoolerState::StartingPage, SpoolerEvent::PageStarted(_)) => true,
        (SpoolerState::Writing, SpoolerEvent::Written { .. }) => true,
        (SpoolerState::EndingPage { .. }, SpoolerEvent::PageEnded(_)) => true,
        (SpoolerState::EndingDoc { .. }, SpoolerEvent::DocEnded(_)) => true,
        (SpoolerState::Closing { .. }, SpoolerEvent::Closed) => true,
        (SpoolerState::ClosingAfterDocRefused, SpoolerEvent::Closed) => true,
        (SpoolerState::EndingDocAfterPageRefused, SpoolerEvent::DocEnded(_)) => true,
        (SpoolerState::ClosingAfterPageRefused, SpoolerEvent::Closed) => true,
        _ => false,
    }
}

/// The transition table of one raw print job: from the current state and
/// the reported outcome to the next state and the next call. `name` is the
/// printer name (for the open-failure error) and `data_len` the payload
/// length the written byte count must reach.
pub open spec fn spec_step(
    name: String,
    data_len: u32,
    s: SpoolerState,
    e: SpoolerEvent,
) -> (SpoolerState, SpoolerAction) {
    match (s, e) {
        (SpoolerState::Opening, SpoolerEvent::Opened(ok)) => if ok {
            (SpoolerState::StartingDoc, SpoolerAction::StartDoc)
        } else {
            (
                SpoolerState::Done,
                SpoolerAction::Finish(
                    Err(TransportError::OpenError(OpenFailure::Printer { name })),
                ),
            )
        },
        (SpoolerState::StartingDoc, SpoolerEvent::DocStarted(job)) => if job != 0 {
            (SpoolerState::StartingPage, SpoolerAction::StartPage)
        } else {
            (SpoolerState::ClosingAfterDocRefused, SpoolerAction::Close)
        },
        (SpoolerState::StartingPage, SpoolerEvent::PageStarted(ok)) => if ok {
            (SpoolerState::Writing, SpoolerAction::Write)
        } else {
            (SpoolerState::EndingDocAfterPageRefused, SpoolerAction::EndDoc)
        },
        (SpoolerState::Writing, SpoolerEvent::Written { ok, written }) => (
            SpoolerState::EndingPage { write_ok: ok, written },
            SpoolerAction::EndPage,
        ),
        (
            SpoolerState::EndingPage { write_ok, written },
            SpoolerEvent::PageEnded(page_ok),
        ) => (
            SpoolerState::EndingDoc { write_ok, written, page_ok },
            SpoolerAction::EndDoc,
        ),
        (
            SpoolerState::EndingDoc { write_ok, written, page_ok },
            SpoolerEvent::DocEnded(doc_ok),
        ) => (
            SpoolerState::Closing { write_ok, written, page_ok, doc_ok },
            SpoolerAction::Close,
        ),
        (
            SpoolerState::Closing { write_ok, written, page_ok, doc_ok },
            SpoolerEvent::Closed,
        ) => (
            SpoolerState::Done,
            SpoolerAction::Finish(
                if !write_ok || written != data_len {
                    Err(
                        TransportError::WriteError(
                            WriteFailure::Spooler { written, expected: data_len },
                        ),
                    )
                } else if !page_ok || !doc_ok {
                    Err(TransportError::FinalizeError)
                } else {
                    Ok(())
                },
            ),
        ),
        (SpoolerState::ClosingAfterDocRefused, SpoolerEvent::Closed) => (
            SpoolerState::Done,
            SpoolerAction::Finish(Err(TransportError::JobStartError)),
        ),
        (SpoolerState::EndingDocAfterPageRefused, SpoolerEvent::DocEnded(_)) => (
            SpoolerState::ClosingAfterPageRefused,
            SpoolerAction::Close,
        ),
        (SpoolerState::ClosingAfterPageRefused, SpoolerEvent::Closed) => (
            SpoolerState::Done,
            SpoolerAction::Finish(Err(TransportError::PageStartError)),
        ),
        _ => (
            SpoolerState::Done,
            SpoolerAction::Finish(Err(TransportError::ValidationError)),
        ),
    }
}

/// Validates the printer name before anything is opened: a blank name is
/// rejected outright, so no handle is ever opened for it. A usable name
/// yields the job's starting state.
pub fn spooler_begin(printer_name: &str) -> (r: Result<SpoolerState, TransportError>)
    ensures
        is_blank(printer_name@) ==> r == Err::<SpoolerState, TransportError>(
            TransportError::ValidationError,
        ),
        !is_blank(printer_name@) ==> r == Ok::<SpoolerState, TransportError>(
            SpoolerState::Opening,
        ),
{
    if str_is_blank(printer_name) {
        Err(TransportError::ValidationError)
    } else {
        Ok(SpoolerState::Opening)
    }
}

/// Advances one raw print job by one spooler call.
pub fn spooler_step(
    name: &String,
    data_len: u32,
    state: SpoolerState,
    event: SpoolerEvent,
) -> (r: (SpoolerState, SpoolerAction))
    requires
        event_fits(state, event),
    ensures
        r == spec_step(*name, data_len, state, event),
{
    match (state, event) {
        (SpoolerState::Opening, SpoolerEvent::Opened(ok)) => if ok {
            (SpoolerState::StartingDoc, SpoolerAction::StartDoc)
        } else {
            (
                SpoolerState::Done,
                SpoolerAction::Finish(
                    Err(TransportError::OpenError(OpenFailure::Printer { name: name.clone() })),
                ),
            )
        },
        (SpoolerState::StartingDoc, SpoolerEvent::DocStarted(job)) => if job != 0 {
            (SpoolerState::StartingPage, SpoolerAction::StartPage)
        } else {
            (SpoolerState::ClosingAfterDocRefused, SpoolerAction::Close)
        },
        (SpoolerState::StartingPage, SpoolerEvent::PageStarted(ok)) => if ok {
            (SpoolerState::Writing, SpoolerAction::Write)
        } else {
            (SpoolerState::EndingDocAfterPageRefused, SpoolerAction::EndDoc)
        },
        (SpoolerState::Writing, SpoolerEvent::Written { ok, written }) => (
            SpoolerState::EndingPage { write_ok: ok, written },
            SpoolerAction::EndPage,
        ),
        (
            SpoolerState::EndingPage { write_ok, written },
            SpoolerEvent::PageEnded(page_ok),
        ) => (
            SpoolerState::EndingDoc { write_ok, written, page_ok },
            SpoolerAction::EndDoc,
        ),
        (
            SpoolerState::EndingDoc { write_ok, written, page_ok },
            SpoolerEvent::DocEnded(doc_ok),
        ) => (
            SpoolerState::Closing { write_ok, written, page_ok, doc_ok },
            SpoolerAction::Close,
        ),
        (
            SpoolerState::Closing { write_ok, written, page_ok, doc_ok },
            SpoolerEvent::Closed,
        ) => (
            SpoolerState::Done,
            SpoolerAction::Finish(
                if !write_ok || written != data_len {
                    Err(
                        TransportError::WriteError(
                            WriteFailure::Spooler { written, expected: data_len },
                        ),
                    )
                } else if !page_ok || !doc_ok {
                    Err(TransportError::FinalizeError)
                } else {
                    Ok(())
                },
            ),
        ),
        (SpoolerState::ClosingAfterDocRefused, SpoolerEvent::Closed) => (
            SpoolerState::Done,
            SpoolerAction::Finish(Err(TransportError::JobStartError)),
        ),
        (SpoolerState::EndingDocAfterPageRefused, SpoolerEvent::DocEnded(_)) => (
            SpoolerState::ClosingAfterPageRefused,
            SpoolerAction::Close,
        ),
        (SpoolerState::ClosingAfterPageRefused, SpoolerEvent::Closed) => (
            SpoolerState::Done,
            SpoolerAction::Finish(Err(TransportError::PageStartError)),
        ),
        _ => (
            SpoolerState::Done,
            SpoolerAction::Finish(Err(TransportError::ValidationError)),
        ),
    }
}

/// The job only ever finishes with the handle released: a `Finish` action
/// is issued exactly in the `Done` state, and the handle is closed there.
/// Together with the table itself this is the no-handle-leak guarantee: on
/// every path, success or failure, the close step precedes the outcome.
pub proof fn lemma_finish_only_with_handle_released(
    name: String,
    data_len: u32,
    s: SpoolerState,
    e: SpoolerEvent,
)
    requires
        event_fits(s, e),
    ensures
        (spec_step(name, data_len, s, e).1 is Finish) ==> !handle_open(
            spec_step(name, data_len, s, e).0,
        ),
        (spec_step(name, data_len, s, e).1 is Finish) <==> (spec_step(
            name,
            data_len,
            s,
            e,
        ).0 is Done),
{
}

/// The handle opens only by a successful open call, and once open it closes
/// only by the close step reporting back.
pub proof fn lemma_handle_lifecycle(name: String, data_len: u32, s: SpoolerState, e: SpoolerEvent)
    requires
        event_fits(s, e),
    ensures
        handle_open(spec_step(name, data_len, s, e).0) ==> (handle_open(s) || (s is Opening
            && e == SpoolerEvent::Opened(true))),
        handle_open(s) && !handle_open(spec_step(name, data_len, s, e).0) ==> e is Closed,
{
}

/// A write the spooler reports short is a write failure naming both byte
/// counts, surfaced only after the handle is closed.
pub proof fn lemma_short_write_reported(
    name: String,
    data_len: u32,
    written: u32,
    page_ok: bool,
    doc_ok: bool,
)
    requires
        written != data_len,
    ensures
        spec_step(
            name,
            data_len,
            SpoolerState::Closing { write_ok: true, written, page_ok, doc_ok },
            SpoolerEvent::Closed,
        ) == (
            SpoolerState::Done,
            SpoolerAction::Finish(
                Err::<(), TransportError>(
                    TransportError::WriteError(
                        WriteFailure::Spooler { written, expected: data_len },
                    ),
                ),
            ),
        ),
{
}

/// Printer enumeration on a platform without a native spooler: an empty
/// listing, which is a valid state and not an error.
pub fn list_windows_printers() -> (r: Result<Vec<String>, TransportError>)
    ensures
        r matches Ok(v) && v@.len() == 0,
{
    Ok(Vec::new())
}

/// Raw spooler printing on a platform without a native spooler: always
/// refused, whatever the name and payload.
pub fn spooler_print_raw(_printer_name: String, _data: Vec<u8>) -> (r: Result<
    (),
    TransportError,
>)
    ensures
        r == Err::<(), TransportError>(TransportError::UnsupportedPlatformError),
{
    Err(TransportError::UnsupportedPlatformError)
}


} // verus!
