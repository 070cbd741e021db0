//! Decoding of register replies.
//!
//! Every scalar register replies with two bytes holding an unsigned 16-bit
//! value, least significant byte first. The temperature register's unit is
//! deci-Kelvin; `convert_temperature_centi` turns it into hundredths of a
//! degree Celsius, exactly.

use vstd::prelude::*;

verus! {

/// The unsigned 16-bit value that a two-byte little-endian reply encodes.
pub open spec fn le_word(b: Seq<u8>) -> u16
    recommends
        b.len() == 2,
{
    (b[0] + 256 * b[1]) as u16
}

/// Decode a two-byte little-endian reply into the word it encodes.
pub fn decode_word(b0: u8, b1: u8) -> (r: u16)
    ensures
        r == le_word(seq![b0, b1]),
{
    b0 as u16 + 256 * (b1 as u16)
}

/// Distinct two-byte replies decode to distinct words: a decoded value
/// determines, and is determined by, the reply bytes of its own transaction,
/// so no read can echo another read's bytes unnoticed.
pub proof fn lemma_le_word_injective(b1: Seq<u8>, b2: Seq<u8>)
    requires
        b1.len() == 2,
        b2.len() == 2,
        b1 != b2,
    ensures
        le_word(b1) != le_word(b2),
{
    if b1[0] == b2[0] && b1[1] == b2[1] {
        assert(b1 =~= b2);
    }
}

/// Deci-Kelvin to hundredths of a degree Celsius, exactly: the value
/// `raw / 10 - 273.15` in degrees Celsius, scaled by 100 so that no
/// fractional part is lost.
pub fn convert_temperature_centi(raw: u16) -> (t: i32)
    ensures
        t == 10 * raw - 27315,
{
    10 * (raw as i32) - 27315
}

} // verus!
