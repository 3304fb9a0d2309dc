//! The escape sequence that asks a terminal for one of its colours.

use vstd::prelude::*;

use crate::decimal::{decimal_bytes, push_decimal};

verus! {

/// The escape character that opens the sequence and its terminator.
pub const ESC: u8 = 0x1B;

/// The bytes that ask for the colour in `slot`: `ESC ]`, the slot in decimal,
/// `; ?`, and the string terminator `ESC \`. Nothing comes before or after
/// them, and no newline ends them.
pub open spec fn query_sequence(slot: u8) -> Seq<u8> {
    seq![0x1Bu8, 0x5Du8] + decimal_bytes(slot as nat) + seq![0x3Bu8, 0x3Fu8, 0x1Bu8, 0x5Cu8]
}

/// Builds the sequence that asks for the colour in `slot`.
pub fn encode_query(slot: u8) -> (bytes: Vec<u8>)
    ensures
        bytes@ == query_sequence(slot),
{
    let mut bytes: Vec<u8> = Vec::new();
    bytes.push(ESC);
    bytes.push(0x5D);
    push_decimal(&mut bytes, slot);
    bytes.push(0x3B);
    bytes.push(0x3F);
    bytes.push(ESC);
    bytes.push(0x5C);
    assert(bytes@ =~= query_sequence(slot));
    bytes
}

/// The sequences for the two colours, byte by byte: `ESC ] 1 0 ; ? ESC \`
/// asks for the foreground and `ESC ] 1 1 ; ? ESC \` for the background.
pub proof fn lemma_color_sequences()
    ensures
        query_sequence(10) == seq![0x1Bu8, 0x5D, 0x31, 0x30, 0x3B, 0x3F, 0x1B, 0x5C],
        query_sequence(11) == seq![0x1Bu8, 0x5D, 0x31, 0x31, 0x3B, 0x3F, 0x1B, 0x5C],
{
    reveal_with_fuel(decimal_bytes, 2);
    assert(query_sequence(10) =~= seq![0x1Bu8, 0x5D, 0x31, 0x30, 0x3B, 0x3F, 0x1B, 0x5C]);
    assert(query_sequence(11) =~= seq![0x1Bu8, 0x5D, 0x31, 0x31, 0x3B, 0x3F, 0x1B, 0x5C]);
}

} // verus!
