//! Terminal events, and the filter that picks the answer to a colour query
//! out of them.

use vstd::prelude::*;

use crate::color::Color;

verus! {

/// What a terminal sent in answer to a colour query.
#[derive(Debug, PartialEq, Eq)]
pub enum OscColorPayload {
    /// A colour, one value for each channel.
    Rgb { r: u8, g: u8, b: u8 },
    /// Something that is no colour; the bytes are kept as they came and are
    /// never looked into.
    Unrecognized(Vec<u8>),
}

/// An event from the terminal's input stream.
#[derive(Debug, PartialEq, Eq)]
pub enum InternalEvent {
    /// The answer to a colour query for `slot`.
    OscColor { slot: u8, payload: OscColorPayload },
    /// Any other event: a key, a resize, the answer to another query.
    Other,
}

/// Accepts the answers to a colour query for one slot and nothing else.
#[derive(Clone, Copy, Debug, PartialEq, Eq, Structural)]
pub struct OscColorFilter {
    pub slot: u8,
}

impl OscColorPayload {
    /// The colour this payload stands for, if it is one.
    pub open spec fn color(self) -> Option<Color> {
        match self {
            OscColorPayload::Rgb { r, g, b } => Some(Color::Rgb { r, g, b }),
            OscColorPayload::Unrecognized(_) => None,
        }
    }

    /// Decodes the payload: a colour, or `None` for what is no colour.
    pub fn decode(&self) -> (color: Option<Color>)
        ensures
            color == self.color(),
    {
        match self {
            OscColorPayload::Rgb { r, g, b } => Some(Color::Rgb { r: *r, g: *g, b: *b }),
            OscColorPayload::Unrecognized(_) => None,
        }
    }
}

impl OscColorFilter {
    /// Whether `event` answers a colour query for this filter's slot.
    pub open spec fn accepts(self, event: InternalEvent) -> bool {
        event matches InternalEvent::OscColor { slot, .. } && slot == self.slot
    }

    /// Classifies `event`; the event itself is left as it is, for whoever
    /// else reads the stream.
    pub fn eval(&self, event: &InternalEvent) -> (accepted: bool)
        ensures
            accepted == self.accepts(*event),
    {
        match event {
            InternalEvent::OscColor { slot, .. } => *slot == self.slot,
            InternalEvent::Other => false,
        }
    }
}

} // verus!
