//! The colour a terminal reports.

use vstd::prelude::*;

verus! {

/// A colour as a terminal reports it: one value for each of the red, green
/// and blue channels.
#[derive(Clone, Copy, Debug, PartialEq, Eq, Structural)]
pub enum Color {
    Rgb { r: u8, g: u8, b: u8 },
}

} // verus!
