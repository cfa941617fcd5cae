//! Bytes, words and nibbles: how the console packs its values.
use vstd::prelude::*;

verus! {

/// The unsigned value of the bit pattern of a byte.
pub open spec fn unsigned8(b: i8) -> int {
    if b < 0 {
        b + 256
    } else {
        b as int
    }
}

/// The unsigned value of the bit pattern of a word.
pub open spec fn unsigned16(w: i16) -> int {
    if w < 0 {
        w + 65536
    } else {
        w as int
    }
}

/// The signed word whose bit pattern is the unsigned value `u` (taken modulo 2^16).
pub open spec fn signed16(u: int) -> int {
    let m = u % 65536;
    if m >= 32768 {
        m - 65536
    } else {
        m
    }
}

/// The word made of a low byte and a high byte.
pub open spec fn word_of(ll: i8, hh: i8) -> i16 {
    signed16(unsigned8(hh) * 256 + unsigned8(ll)) as i16
}

/// Combines a low and a high byte into a word, little-endian style.
pub fn join_bytes(ll: i8, hh: i8) -> (r: i16)
    ensures
        r == word_of(ll, hh),
        unsigned16(r) == unsigned8(hh) * 256 + unsigned8(ll),
{
    let h: i32 = if hh < 0 {
        hh as i32 + 256
    } else {
        hh as i32
    };
    let l: i32 = if ll < 0 {
        ll as i32 + 256
    } else {
        ll as i32
    };
    let u: i32 = h * 256 + l;
    if u >= 32768 {
        (u - 65536) as i16
    } else {
        u as i16
    }
}

/// Splits a word into its high byte and its low byte, in that order.
pub fn separate_word(word: i16) -> (r: (i8, i8))
    ensures
        unsigned8(r.0) == unsigned16(word) / 256,
        unsigned8(r.1) == unsigned16(word) % 256,
        word_of(r.1, r.0) == word,
{
    let u: i32 = if word < 0 {
        word as i32 + 65536
    } else {
        word as i32
    };
    let h: i32 = u / 256;
    let l: i32 = u % 256;
    let hh: i8 = if h >= 128 {
        (h - 256) as i8
    } else {
        h as i8
    };
    let ll: i8 = if l >= 128 {
        (l - 256) as i8
    } else {
        l as i8
    };
    (hh, ll)
}

/// Splits a byte into its high nibble and its low nibble, in that order.
pub fn separate_byte(byte: i8) -> (r: (i8, i8))
    ensures
        r.0 == unsigned8(byte) / 16,
        r.1 == unsigned8(byte) % 16,
{
    let u: i32 = if byte < 0 {
        byte as i32 + 256
    } else {
        byte as i32
    };
    ((u / 16) as i8, (u % 16) as i8)
}

} // verus!
