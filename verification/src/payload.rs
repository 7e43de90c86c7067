//! Bit-packed fields of a window event's primary parameter.
//!
//! The windowing system hands every event a pointer-sized primary parameter.
//! Pointer and wheel events pack two 16-bit fields into its low 32 bits, and
//! character events carry the character in its low bits. The functions here
//! take those fields apart; their contracts are stated over plain integers so
//! that they read the same on 32-bit and 64-bit hosts.

use vstd::prelude::*;

verus! {

/// Bits 16 to 31 of `value`, read as an unsigned number.
pub open spec fn high_word(value: int) -> int {
    (value / 0x1_0000) % 0x1_0000
}

/// The low 32 bits of `value`.
pub open spec fn low_dword_of(value: int) -> int {
    value % 0x1_0000_0000
}

/// A 16-bit pattern read as a two's-complement number.
pub open spec fn signed_word(word: int) -> int {
    if word >= 0x8000 {
        word - 0x1_0000
    } else {
        word
    }
}

/// The signed wheel movement that a wheel event's primary parameter carries:
/// its high word, read as a two's-complement number.
pub open spec fn wheel_delta_of(wparam: int) -> int {
    signed_word(high_word(wparam))
}

/// The character that a character event's primary parameter carries: its
/// low byte, read as a code point.
pub open spec fn character_code_of(wparam: int) -> int {
    wparam % 0x100
}

/// The high-order word of a 32-bit value.
pub fn hiword(l: u32) -> (word: u16)
    ensures
        word as int == high_word(l as int),
{
    assert((l >> 16) & 0xffff == l / 0x1_0000) by (bit_vector);
    ((l >> 16) & 0xffff) as u16
}

/// The wheel field of a wheel event's primary parameter, still unsigned.
pub fn get_wheel_delta_wparam(wparam: u32) -> (word: u16)
    ensures
        word as int == high_word(wparam as int),
{
    hiword(wparam)
}

/// The low 32 bits of a pointer-sized parameter.
pub fn low_dword(wparam: usize) -> (low: u32)
    ensures
        low as int == low_dword_of(wparam as int),
{
    let masked: usize = wparam & 0xffff_ffff;
    assert(masked as int == wparam as int % 0x1_0000_0000) by {
        lemma_mask_is_remainder(wparam);
    }
    masked as u32
}

/// Keeping the low 32 bits of a pointer-sized value is taking its remainder
/// by 2^32.
proof fn lemma_mask_is_remainder(wparam: usize)
    ensures
        (wparam & 0xffff_ffff) as int == wparam as int % 0x1_0000_0000,
{
    let wide: u64 = wparam as u64;
    assert(wide & 0xffff_ffff == wide % 0x1_0000_0000) by (bit_vector);
    assert((wparam & 0xffff_ffff) as u64 == wide & 0xffff_ffff) by (bit_vector)
        requires
            wide == wparam as u64,
    ;
}

/// The signed movement carried by a wheel event.
pub fn wheel_delta(wparam: usize) -> (delta: i16)
    ensures
        delta as int == wheel_delta_of(wparam as int),
{
    let word: u16 = get_wheel_delta_wparam(low_dword(wparam));
    if word >= 0x8000 {
        let shifted: i32 = word as i32 - 0x1_0000;
        shifted as i16
    } else {
        word as i16
    }
}

/// The character carried by a character event.
pub fn input_character(wparam: usize) -> (character: char)
    ensures
        character as int == character_code_of(wparam as int),
{
    assert((wparam & 0xff) == wparam % 0x100) by (bit_vector);
    let byte: u8 = (wparam & 0xff) as u8;
    byte as char
}

} // verus!
