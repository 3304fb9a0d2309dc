//! Querying a terminal for its foreground or background colour.
//!
//! The terminal is asked with an Operating System Command escape sequence and
//! answers, some time later, through its stream of input events. This crate
//! holds every decision of that exchange and performs none of its input or
//! output: a caller carries out each request the query hands it and reports
//! what happened.

pub mod color;
pub mod decimal;
pub mod error;
pub mod event;
pub mod query;
pub mod run;
pub mod sequence;

pub use color::Color;
pub use error::{QueryError, QueryKind};
pub use event::{InternalEvent, OscColorFilter, OscColorPayload};
pub use query::{
    query_background_color, query_color_slot, query_color_slot_raw, query_foreground_color,
    Phase, PollOutcome, Query, QueryResult, ReadOutcome, Request, Response, Step,
    POLL_TIMEOUT_MS,
};
pub use sequence::encode_query;
