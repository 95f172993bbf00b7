//! From the two bytes of a register read to a physical quantity.
//!
//! Quantities are exact integers in a unit small enough that the gauge's step
//! is a whole number of it, so that no reading is rounded.

use vstd::prelude::*;

verus! {

/// Microvolts in one step of the pack voltage register (1.25 mV).
pub const MICROVOLTS_PER_STEP: u32 = 1250;

/// Nanoamperes in one step of the current register (156.25 uA).
pub const NANOAMPS_PER_STEP: i64 = 156_250;

/// Steps of the state-of-charge register in one percent.
pub const STEPS_PER_PERCENT: u16 = 256;

/// The word that the bytes `raw` stand for on the wire: `raw[0]` is the less
/// significant byte.
pub open spec fn spec_word(raw: [u8; 2]) -> u16 {
    (raw[0] + 0x100 * raw[1]) as u16
}

/// Assemble the two bytes of a register read, least significant first, into
/// the register's word.
#[verifier::when_used_as_spec(spec_word)]
pub fn word(raw: [u8; 2]) -> (w: u16)
    ensures
        w == spec_word(raw),
        w == raw[0] + 0x100 * raw[1],
        w == (raw[1] as u16) << 8 | (raw[0] as u16),
        w % 0x100 == raw[0],
        w / 0x100 == raw[1],
{
    let low: u8 = raw[0];
    let high: u8 = raw[1];
    assert(((high as u16) << 8 | (low as u16)) == low + 0x100 * high) by (bit_vector);
    ((high as u16) << 8) | (low as u16)
}

/// The value of `word` read as a 16-bit two's-complement number: words from
/// 0x8000 on stand for the negative numbers.
pub open spec fn spec_signed(word: u16) -> i16 {
    if word >= 0x8000 {
        (word - 0x1_0000) as i16
    } else {
        word as i16
    }
}

/// Reinterpret `word` as a 16-bit two's-complement number.
#[verifier::when_used_as_spec(spec_signed)]
pub fn signed(word: u16) -> (s: i16)
    ensures
        s == spec_signed(word),
        word < 0x8000 ==> s == word,
        word >= 0x8000 ==> s == word - 0x1_0000,
        s as u16 == word,
{
    assert(word < 0x8000 ==> (word as i16) == word) by (bit_vector);
    assert(word >= 0x8000 ==> (word as i16) == word - 0x1_0000) by (bit_vector);
    assert((word as i16) as u16 == word) by (bit_vector);
    word as i16
}

/// Pack voltage in microvolts that `word` of the pack voltage register stands
/// for.
pub open spec fn spec_microvolts(word: u16) -> u32 {
    (word * MICROVOLTS_PER_STEP) as u32
}

/// Convert a word of the pack voltage register to microvolts.
#[verifier::when_used_as_spec(spec_microvolts)]
pub fn microvolts(word: u16) -> (uv: u32)
    ensures
        uv == spec_microvolts(word),
        uv == word * 1250,
        uv <= 81_918_750,
{
    (word as u32) * MICROVOLTS_PER_STEP
}

/// Current in nanoamperes that `word` of the current register stands for. The
/// register is signed.
pub open spec fn spec_nanoamps(word: u16) -> i64 {
    (spec_signed(word) * NANOAMPS_PER_STEP) as i64
}

/// Convert a word of the current register to nanoamperes.
#[verifier::when_used_as_spec(spec_nanoamps)]
pub fn nanoamps(word: u16) -> (na: i64)
    ensures
        na == spec_nanoamps(word),
        na == spec_signed(word) * 156_250,
        -5_120_000_000 <= na <= 5_119_843_750,
        na < 0 <==> word >= 0x8000,
{
    (signed(word) as i64) * NANOAMPS_PER_STEP
}

} // verus!
