//! Arithmetic on machine words.
//!
//! A word is stored in a `u16`. Values `0..=32767` are plain numbers, and all
//! arithmetic results are reduced into that range.

use vstd::prelude::*;

verus! {

/// Number of cells in the address space, and the modulus of all arithmetic.
pub const MAX_SIZE: usize = 32768;

/// Number of registers.
pub const REGISTER_COUNT: usize = 8;

/// Largest raw word that still denotes an operand: the selector of the last register.
pub const LAST_REGISTER_WORD: u16 = 32775;

/// Sum of two words, reduced modulo 32768.
pub open spec fn wrapping_sum(a: u16, b: u16) -> u16 {
    ((a + b) % 32768) as u16
}

/// Product of two words, reduced modulo 32768.
pub open spec fn wrapping_product(a: u16, b: u16) -> u16 {
    ((a * b) % 32768) as u16
}

/// Bitwise complement of a word, keeping the low 15 bits only.
pub open spec fn complement(a: u16) -> u16 {
    (!a) % 32768
}

/// `1` for true and `0` for false, the way comparison results are stored.
pub open spec fn truth(b: bool) -> u16 {
    if b {
        1
    } else {
        0
    }
}

/// The character that a word is printed as: the word's low eight bits.
pub open spec fn printed_code(a: u16) -> u8 {
    (a % 256) as u8
}

/// The word that a typed character is queued as: the low sixteen bits of its
/// code point.
pub open spec fn code_unit(c: char) -> u16 {
    ((c as u32) % 65536) as u16
}

/// The words that a piece of text is queued as, one per character.
pub open spec fn code_units(text: Seq<char>) -> Seq<u16> {
    Seq::new(text.len(), |i: int| code_unit(text[i]))
}

/// The word made of two bytes, least significant byte first.
pub open spec fn le_word(low: u8, high: u8) -> u16 {
    (low + 256 * high) as u16
}

/// Number of complete words in an image of `len` bytes.
pub open spec fn image_words(len: nat) -> nat {
    len / 2
}

/// The complement of a 15-bit value is the value subtracted from 32767.
pub proof fn lemma_complement_is_subtraction(a: u16)
    requires
        a < 32768,
    ensures
        complement(a) == 32767 - a,
{
    assert((!a) % 32768 == 32767 - a) by (bit_vector)
        requires
            a < 32768,
    ;
}

/// Every arithmetic result is a 15-bit value.
pub proof fn lemma_results_fit(a: u16, b: u16)
    ensures
        wrapping_sum(a, b) < 32768,
        wrapping_product(a, b) < 32768,
        complement(a) < 32768,
        truth(a == b) < 32768,
{
    assert(0 <= (a * b) % 32768 < 32768);
}

} // verus!
