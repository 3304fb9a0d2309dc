//! The ways a colour query fails.

use vstd::prelude::*;
use vstd::string::*;

use crate::decimal::{append_decimal, decimal_text};

verus! {

/// Which of the two colours a query asks for.
#[derive(Clone, Copy, Debug, PartialEq, Eq, Structural)]
pub enum QueryKind {
    Foreground,
    Background,
}

/// Why a query produced no answer. `E` is the caller's own error type: what
/// an operation on the terminal failed with.
#[derive(Debug, PartialEq, Eq)]
pub enum QueryError<E> {
    /// The build or the platform cannot poll the terminal for events, so the
    /// query was not even begun.
    Unsupported(QueryKind),
    /// The terminal did not answer the query for `slot` in time.
    Timeout { slot: u8 },
    /// An operation on the terminal failed; the error is the one it failed
    /// with, untouched.
    Io(E),
}

impl QueryKind {
    /// The slot in which a terminal keeps this colour.
    pub open spec fn slot_of(self) -> u8 {
        match self {
            QueryKind::Foreground => 10,
            QueryKind::Background => 11,
        }
    }

    /// The name of the operation that asks for this colour.
    pub open spec fn name_of(self) -> Seq<char> {
        match self {
            QueryKind::Foreground => "query_foreground_color"@,
            QueryKind::Background => "query_background_color"@,
        }
    }

    /// The slot in which a terminal keeps this colour: 10 or 11.
    pub fn slot(&self) -> (slot: u8)
        ensures
            slot == self.slot_of(),
    {
        match self {
            QueryKind::Foreground => 10,
            QueryKind::Background => 11,
        }
    }

    /// The name of the operation that asks for this colour.
    pub fn name(&self) -> (name: &'static str)
        ensures
            name@ == self.name_of(),
    {
        match self {
            QueryKind::Foreground => "query_foreground_color",
            QueryKind::Background => "query_background_color",
        }
    }
}

/// The words of a timeout: they name the slot and say that the terminal
/// stayed silent.
pub open spec fn timeout_text(slot: u8) -> Seq<char> {
    "The terminal did not report OSC color "@ + decimal_text(slot as nat)
        + " within a normal duration"@
}

/// The words of a missing capability: they name the operation and what it
/// needs.
pub open spec fn unsupported_text(kind: QueryKind) -> Seq<char> {
    kind.name_of() + " requires the \"events\" feature on Unix platforms"@
}

impl<E> QueryError<E> {
    /// The message of an error that this library raised itself. An error that
    /// came from the terminal has its own words, and none here.
    pub open spec fn text(self) -> Option<Seq<char>> {
        match self {
            QueryError::Unsupported(kind) => Some(unsupported_text(kind)),
            QueryError::Timeout { slot } => Some(timeout_text(slot)),
            QueryError::Io(_) => None,
        }
    }

    /// The message of this error, or `None` for an error that came from the
    /// terminal.
    pub fn message(&self) -> (message: Option<String>)
        ensures
            match message {
                Some(m) => self.text() == Some(m@),
                None => self.text() is None,
            },
    {
        match self {
            QueryError::Unsupported(kind) => {
                let mut m = String::from_str(kind.name());
                m.append(" requires the \"events\" feature on Unix platforms");
                Some(m)
            },
            QueryError::Timeout { slot } => {
                let mut m = String::from_str("The terminal did not report OSC color ");
                append_decimal(&mut m, *slot);
                m.append(" within a normal duration");
                Some(m)
            },
            QueryError::Io(_) => None,
        }
    }
}

} // verus!
