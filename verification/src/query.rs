//! The query as a state machine.
//!
//! A query never touches the terminal. It hands its caller one [`Request`] at
//! a time, the caller carries the request out and reports the [`Response`],
//! and the query decides from that what comes next: another request, or the
//! query's result. The caller's loop is
//!
//! ```text
//! let mut step = query_foreground_color(polling);
//! loop {
//!     match step {
//!         Step::Done(result) => return result,
//!         Step::Next(query) => {
//!             let response = perform(query.request());
//!             step = query.step(response);
//!         }
//!     }
//! }
//! ```
//!
//! Raw mode belongs to the whole process. A query that finds it disabled
//! enables it, and then disables it again before it hands out its result,
//! whatever that result is; a query that finds it enabled never asks for it
//! to be changed. Queries on one terminal must not overlap: the caller sees
//! to that.
//!
//! An interruption, of a poll or of a read, is never the query's result: the
//! query polls again. Every poll is given the full timeout. No deadline spans
//! the polls of one query, so a terminal that keeps interrupting, or keeps
//! sending events that are not the answer, can keep a query waiting without
//! end.

use vstd::prelude::*;

use crate::color::Color;
use crate::error::{QueryError, QueryKind};
use crate::event::{InternalEvent, OscColorFilter};
use crate::sequence::{encode_query, query_sequence};

verus! {

/// How long one poll waits for the terminal's answer, in milliseconds.
pub const POLL_TIMEOUT_MS: u64 = 2000;

/// What a query ends with: the colour, `None` where the terminal answered
/// with something that is no colour, or the reason there is no answer.
pub type QueryResult<E> = Result<Option<Color>, QueryError<E>>;

/// One operation on the terminal, for the caller to carry out.
#[derive(Debug, PartialEq, Eq)]
pub enum Request {
    /// Find out whether raw mode is enabled. Nothing is changed.
    RawModeStatus,
    /// Enable raw mode.
    EnableRawMode,
    /// Open the controlling terminal's device, write these bytes to it and
    /// flush, past any buffer that standard output may have.
    WriteTerminal(Vec<u8>),
    /// Write these bytes to standard output and flush.
    WriteStdout(Vec<u8>),
    /// Wait up to `timeout_ms` milliseconds for an event that `filter`
    /// accepts. Events that it does not accept stay in the stream for its
    /// other readers.
    Poll { timeout_ms: u64, filter: OscColorFilter },
    /// Take the next event that `filter` accepts out of the stream.
    Read { filter: OscColorFilter },
    /// Disable raw mode.
    DisableRawMode,
}

/// A [`Request`] as contracts see it: the same, with its bytes as a sequence.
pub enum RequestView {
    RawModeStatus,
    EnableRawMode,
    WriteTerminal(Seq<u8>),
    WriteStdout(Seq<u8>),
    Poll { timeout_ms: u64, filter: OscColorFilter },
    Read { filter: OscColorFilter },
    DisableRawMode,
}

impl View for Request {
    type V = RequestView;

    open spec fn view(&self) -> RequestView {
        match *self {
            Request::RawModeStatus => RequestView::RawModeStatus,
            Request::EnableRawMode => RequestView::EnableRawMode,
            Request::WriteTerminal(bytes) => RequestView::WriteTerminal(bytes@),
            Request::WriteStdout(bytes) => RequestView::WriteStdout(bytes@),
            Request::Poll { timeout_ms, filter } => RequestView::Poll { timeout_ms, filter },
            Request::Read { filter } => RequestView::Read { filter },
            Request::DisableRawMode => RequestView::DisableRawMode,
        }
    }
}

/// How a poll of the event stream ended.
#[derive(Debug, PartialEq, Eq)]
pub enum PollOutcome<E> {
    /// An event that the filter accepts is ready to be read.
    Ready,
    /// The timeout passed and no such event came.
    TimedOut,
    /// The wait was interrupted before either happened.
    Interrupted,
    /// The poll failed in any other way.
    Failed(E),
}

/// How a read of the event stream ended.
#[derive(Debug, PartialEq, Eq)]
pub enum ReadOutcome<E> {
    /// The stream gave this event.
    Event(InternalEvent),
    /// The read was interrupted before it gave an event.
    Interrupted,
    /// The read failed in any other way.
    Failed(E),
}

/// What came of a [`Request`]. Each response bears the name of the request
/// that it answers.
#[derive(Debug, PartialEq, Eq)]
pub enum Response<E> {
    RawModeStatus(bool),
    EnableRawMode(Result<(), E>),
    WriteTerminal(Result<(), E>),
    WriteStdout(Result<(), E>),
    Poll(PollOutcome<E>),
    Read(ReadOutcome<E>),
    DisableRawMode(Result<(), E>),
}

/// Where a query stands: the request that is out, and what the query has to
/// remember meanwhile. `restore` says that this query enabled raw mode and
/// owes the terminal a disable.
#[derive(Debug, PartialEq, Eq)]
pub enum Phase<E> {
    CheckingRawMode,
    EnablingRawMode,
    WritingTerminal { restore: bool },
    WritingStdout { restore: bool },
    Polling { restore: bool },
    Reading { restore: bool },
    /// The exchange is over and `result` is kept until raw mode is disabled.
    DisablingRawMode { result: QueryResult<E> },
}

/// A query under way for the colour in `slot`.
#[derive(Debug, PartialEq, Eq)]
pub struct Query<E> {
    pub slot: u8,
    pub phase: Phase<E>,
}

/// What a query comes to after a response.
#[derive(Debug, PartialEq, Eq)]
pub enum Step<E> {
    /// The query goes on: its next request is to be carried out.
    Next(Query<E>),
    /// The query is over, with this result.
    Done(QueryResult<E>),
}

/// How an exchange that has its `result` ends: at once where raw mode was
/// found enabled, and by way of a disable where this query enabled it.
pub open spec fn conclude<E>(slot: u8, restore: bool, result: QueryResult<E>) -> Step<E> {
    if restore {
        Step::Next(Query { slot, phase: Phase::DisablingRawMode { result } })
    } else {
        Step::Done(result)
    }
}

/// A query for `slot` that has yet to learn whether raw mode is enabled.
pub open spec fn begun<E>(slot: u8) -> Step<E> {
    Step::Next(Query { slot, phase: Phase::CheckingRawMode })
}

/// A query for `slot` on a terminal in raw mode, about to send its sequence.
pub open spec fn begun_raw<E>(slot: u8, restore: bool) -> Step<E> {
    Step::Next(Query { slot, phase: Phase::WritingTerminal { restore } })
}

/// A query for the colour of `kind`: begun where the terminal can be polled,
/// and over before anything is asked of the terminal where it cannot.
pub open spec fn begun_kind<E>(kind: QueryKind, polling: bool) -> Step<E> {
    if polling {
        begun(kind.slot_of())
    } else {
        Step::Done(Err(QueryError::Unsupported(kind)))
    }
}

impl<E> Query<E> {
    /// The filter for this query's answers.
    pub open spec fn filter(self) -> OscColorFilter {
        OscColorFilter { slot: self.slot }
    }

    /// The request that is out in this state.
    pub open spec fn pending(self) -> RequestView {
        match self.phase {
            Phase::CheckingRawMode => RequestView::RawModeStatus,
            Phase::EnablingRawMode => RequestView::EnableRawMode,
            Phase::WritingTerminal { .. } => RequestView::WriteTerminal(query_sequence(self.slot)),
            Phase::WritingStdout { .. } => RequestView::WriteStdout(query_sequence(self.slot)),
            Phase::Polling { .. } => RequestView::Poll {
                timeout_ms: POLL_TIMEOUT_MS,
                filter: self.filter(),
            },
            Phase::Reading { .. } => RequestView::Read { filter: self.filter() },
            Phase::DisablingRawMode { .. } => RequestView::DisableRawMode,
        }
    }

    /// Whether `response` is an answer to the request that is out.
    pub open spec fn awaits(self, response: Response<E>) -> bool {
        match (self.phase, response) {
            (Phase::CheckingRawMode, Response::RawModeStatus(_)) => true,
            (Phase::EnablingRawMode, Response::EnableRawMode(_)) => true,
            (Phase::WritingTerminal { .. }, Response::WriteTerminal(_)) => true,
            (Phase::WritingStdout { .. }, Response::WriteStdout(_)) => true,
            (Phase::Polling { .. }, Response::Poll(_)) => true,
            (Phase::Reading { .. }, Response::Read(_)) => true,
            (Phase::DisablingRawMode { .. }, Response::DisableRawMode(_)) => true,
            _ => false,
        }
    }

    /// The transition function: what this query comes to after `response`.
    ///
    /// - Raw mode found enabled: the sequence is sent, and raw mode is left
    ///   alone from then on. Found disabled: it is enabled first, and a
    ///   failure to enable it ends the query with that failure.
    /// - The sequence goes to the terminal's device. If that fails, for
    ///   whatever reason, it goes to standard output instead, and only a
    ///   failure there is an error.
    /// - A poll that finds an answer is followed by a read; one that times
    ///   out ends the exchange with `Timeout`; one that was interrupted is
    ///   repeated with the full timeout; one that fails otherwise ends the
    ///   exchange with that failure.
    /// - A read that yields an answer for this slot ends the exchange with
    ///   its colour, or with `None` for a payload that is no colour. Any
    ///   other event, which the filter should have kept back, sends the
    ///   query back to polling, again with the full timeout, and so does a
    ///   read that was interrupted. A read that fails otherwise ends the
    ///   exchange with that failure.
    /// - Where this query enabled raw mode, the end of the exchange is
    ///   followed by a disable. If the disable fails, its failure is the
    ///   query's result, in place of whatever the exchange had come to, a
    ///   colour included. If it succeeds, the result of the exchange stands.
    /// - A response that does not answer the request that is out changes
    ///   nothing: the same request is still out.
    pub open spec fn next(self, response: Response<E>) -> Step<E> {
        let slot = self.slot;
        match (self.phase, response) {
            (Phase::CheckingRawMode, Response::RawModeStatus(enabled)) => {
                if enabled {
                    begun_raw(slot, false)
                } else {
                    Step::Next(Query { slot, phase: Phase::EnablingRawMode })
                }
            },
            (Phase::EnablingRawMode, Response::EnableRawMode(Ok(_))) => begun_raw(slot, true),
            (Phase::EnablingRawMode, Response::EnableRawMode(Err(e))) => {
                Step::Done(Err(QueryError::Io(e)))
            },
            (Phase::WritingTerminal { restore }, Response::WriteTerminal(Ok(_))) => {
                Step::Next(Query { slot, phase: Phase::Polling { restore } })
            },
            (Phase::WritingTerminal { restore }, Response::WriteTerminal(Err(_))) => {
                Step::Next(Query { slot, phase: Phase::WritingStdout { restore } })
            },
            (Phase::WritingStdout { restore }, Response::WriteStdout(Ok(_))) => {
                Step::Next(Query { slot, phase: Phase::Polling { restore } })
            },
            (Phase::WritingStdout { restore }, Response::WriteStdout(Err(e))) => {
                conclude(slot, restore, Err(QueryError::Io(e)))
            },
            (Phase::Polling { restore }, Response::Poll(PollOutcome::Ready)) => {
                Step::Next(Query { slot, phase: Phase::Reading { restore } })
            },
            (Phase::Polling { restore }, Response::Poll(PollOutcome::TimedOut)) => {
                conclude(slot, restore, Err(QueryError::Timeout { slot }))
            },
            (Phase::Polling { .. }, Response::Poll(PollOutcome::Interrupted)) => {
                Step::Next(self)
            },
            (Phase::Polling { restore }, Response::Poll(PollOutcome::Failed(e))) => {
                conclude(slot, restore, Err(QueryError::Io(e)))
            },
            (Phase::Reading { restore }, Response::Read(ReadOutcome::Event(event))) => {
                if self.filter().accepts(event) {
                    conclude(slot, restore, Ok(event->payload.color()))
                } else {
                    Step::Next(Query { slot, phase: Phase::Polling { restore } })
                }
            },
            (Phase::Reading { restore }, Response::Read(ReadOutcome::Interrupted)) => {
                Step::Next(Query { slot, phase: Phase::Polling { restore } })
            },
            (Phase::Reading { restore }, Response::Read(ReadOutcome::Failed(e))) => {
                conclude(slot, restore, Err(QueryError::Io(e)))
            },
            (Phase::DisablingRawMode { result }, Response::DisableRawMode(Ok(_))) => {
                Step::Done(result)
            },
            (Phase::DisablingRawMode { result }, Response::DisableRawMode(Err(e))) => {
                Step::Done(Err(QueryError::Io(e)))
            },
            _ => Step::Next(self),
        }
    }

    /// The request to carry out in this state.
    pub fn request(&self) -> (request: Request)
        ensures
            request@ == self.pending(),
    {
        match &self.phase {
            Phase::CheckingRawMode => Request::RawModeStatus,
            Phase::EnablingRawMode => Request::EnableRawMode,
            Phase::WritingTerminal { .. } => Request::WriteTerminal(encode_query(self.slot)),
            Phase::WritingStdout { .. } => Request::WriteStdout(encode_query(self.slot)),
            Phase::Polling { .. } => Request::Poll {
                timeout_ms: POLL_TIMEOUT_MS,
                filter: OscColorFilter { slot: self.slot },
            },
            Phase::Reading { .. } => Request::Read { filter: OscColorFilter { slot: self.slot } },
            Phase::DisablingRawMode { .. } => Request::DisableRawMode,
        }
    }

    /// Takes the response to the request that was out and moves the query on.
    pub fn step(self, response: Response<E>) -> (step: Step<E>)
        ensures
            step == self.next(response),
    {
        let Query { slot, phase } = self;
        match phase {
            Phase::CheckingRawMode => match response {
                Response::RawModeStatus(enabled) => {
                    if enabled {
                        query_color_slot_raw(slot, false)
                    } else {
                        Step::Next(Query { slot, phase: Phase::EnablingRawMode })
                    }
                },
                _ => Step::Next(Query { slot, phase: Phase::CheckingRawMode }),
            },
            Phase::EnablingRawMode => match response {
                Response::EnableRawMode(Ok(_)) => query_color_slot_raw(slot, true),
                Response::EnableRawMode(Err(e)) => Step::Done(Err(QueryError::Io(e))),
                _ => Step::Next(Query { slot, phase: Phase::EnablingRawMode }),
            },
            Phase::WritingTerminal { restore } => match response {
                Response::WriteTerminal(Ok(_)) => Step::Next(
                    Query { slot, phase: Phase::Polling { restore } },
                ),
                Response::WriteTerminal(Err(_)) => Step::Next(
                    Query { slot, phase: Phase::WritingStdout { restore } },
                ),
                _ => Step::Next(Query { slot, phase: Phase::WritingTerminal { restore } }),
            },
            Phase::WritingStdout { restore } => match response {
                Response::WriteStdout(Ok(_)) => Step::Next(
                    Query { slot, phase: Phase::Polling { restore } },
                ),
                Response::WriteStdout(Err(e)) => finish(slot, restore, Err(QueryError::Io(e))),
                _ => Step::Next(Query { slot, phase: Phase::WritingStdout { restore } }),
            },
            Phase::Polling { restore } => match response {
                Response::Poll(PollOutcome::Ready) => Step::Next(
                    Query { slot, phase: Phase::Reading { restore } },
                ),
                Response::Poll(PollOutcome::TimedOut) => finish(
                    slot,
                    restore,
                    Err(QueryError::Timeout { slot }),
                ),
                Response::Poll(PollOutcome::Failed(e)) => finish(
                    slot,
                    restore,
                    Err(QueryError::Io(e)),
                ),
                _ => Step::Next(Query { slot, phase: Phase::Polling { restore } }),
            },
            Phase::Reading { restore } => match response {
                Response::Read(ReadOutcome::Event(event)) => {
                    let answered = OscColorFilter { slot }.eval(&event);
                    match event {
                        InternalEvent::OscColor { payload, .. } if answered => finish(
                            slot,
                            restore,
                            Ok(payload.decode()),
                        ),
                        _ => Step::Next(Query { slot, phase: Phase::Polling { restore } }),
                    }
                },
                Response::Read(ReadOutcome::Interrupted) => Step::Next(
                    Query { slot, phase: Phase::Polling { restore } },
                ),
                Response::Read(ReadOutcome::Failed(e)) => finish(
                    slot,
                    restore,
                    Err(QueryError::Io(e)),
                ),
                _ => Step::Next(Query { slot, phase: Phase::Reading { restore } }),
            },
            Phase::DisablingRawMode { result } => match response {
                Response::DisableRawMode(Ok(_)) => Step::Done(result),
                Response::DisableRawMode(Err(e)) => Step::Done(Err(QueryError::Io(e))),
                _ => Step::Next(Query { slot, phase: Phase::DisablingRawMode { result } }),
            },
        }
    }
}

/// Ends the exchange with `result`: the query is over where it did not
/// enable raw mode, and goes on to disable it where it did.
fn finish<E>(slot: u8, restore: bool, result: QueryResult<E>) -> (step: Step<E>)
    ensures
        step == conclude(slot, restore, result),
{
    if restore {
        Step::Next(Query { slot, phase: Phase::DisablingRawMode { result } })
    } else {
        Step::Done(result)
    }
}

/// Begins the exchange on a terminal that is in raw mode: the sequence for
/// `slot` is the first thing to go out. `restore` says whether raw mode was
/// enabled for this query and is to be disabled once the exchange is over.
pub fn query_color_slot_raw<E>(slot: u8, restore: bool) -> (step: Step<E>)
    ensures
        step == begun_raw::<E>(slot, restore),
{
    Step::Next(Query { slot, phase: Phase::WritingTerminal { restore } })
}

/// Begins a query for the colour in `slot`. Its first request asks whether
/// raw mode is enabled.
pub fn query_color_slot<E>(slot: u8) -> (step: Step<E>)
    ensures
        step == begun::<E>(slot),
{
    Step::Next(Query { slot, phase: Phase::CheckingRawMode })
}

/// Begins a query for the colour of `kind`. `polling` says whether this build
/// on this platform can poll the terminal for events. Where it cannot, the
/// query is over at once with `Unsupported`, and nothing is asked of the
/// terminal.
fn query_kind<E>(kind: QueryKind, polling: bool) -> (step: Step<E>)
    ensures
        step == begun_kind::<E>(kind, polling),
{
    if polling {
        query_color_slot(kind.slot())
    } else {
        Step::Done(Err(QueryError::Unsupported(kind)))
    }
}

/// Begins a query for the terminal's current foreground colour, slot 10.
/// `polling` says whether this build on this platform can poll the terminal
/// for events. Where it cannot, the query is over at once with `Unsupported`,
/// and nothing is asked of the terminal.
pub fn query_foreground_color<E>(polling: bool) -> (step: Step<E>)
    ensures
        step == begun_kind::<E>(QueryKind::Foreground, polling),
{
    query_kind(QueryKind::Foreground, polling)
}

/// Begins a query for the terminal's current background colour, slot 11.
/// `polling` says whether this build on this platform can poll the terminal
/// for events. Where it cannot, the query is over at once with `Unsupported`,
/// and nothing is asked of the terminal.
pub fn query_background_color<E>(polling: bool) -> (step: Step<E>)
    ensures
        step == begun_kind::<E>(QueryKind::Background, polling),
{
    query_kind(QueryKind::Background, polling)
}

} // verus!
