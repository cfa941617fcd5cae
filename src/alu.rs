//! 16-bit arithmetic of the console, with the flags each operation reports.
use vstd::prelude::*;
use crate::bytes::{signed16, unsigned16};

verus! {

/// The word that two's complement arithmetic leaves for the exact result `x`.
pub open spec fn wrap16(x: int) -> i16 {
    signed16(x) as i16
}

/// Carry of an addition: the unsigned sum does not fit in 16 bits.
pub open spec fn add_carry(a: i16, b: i16) -> bool {
    unsigned16(a) + unsigned16(b) > 0xFFFF
}

/// Overflow of an addition: the signed sum does not fit in 16 bits.
pub open spec fn add_overflow(a: i16, b: i16) -> bool {
    !(i16::MIN <= a + b <= i16::MAX)
}

/// Carry of a subtraction: the unsigned difference borrows.
pub open spec fn sub_carry(a: i16, b: i16) -> bool {
    unsigned16(a) < unsigned16(b)
}

/// Overflow of a subtraction: the signed difference does not fit in 16 bits.
pub open spec fn sub_overflow(a: i16, b: i16) -> bool {
    !(i16::MIN <= a - b <= i16::MAX)
}

/// Carry of a multiplication: the unsigned product does not fit in 16 bits.
pub open spec fn mul_carry(a: i16, b: i16) -> bool {
    unsigned16(a) * unsigned16(b) > 0xFFFF
}

pub open spec fn abs(a: int) -> int {
    if a < 0 {
        -a
    } else {
        a
    }
}

/// Quotient rounded toward zero.
pub open spec fn trunc_div(a: int, b: int) -> int {
    if (a < 0) == (b < 0) {
        abs(a) / abs(b)
    } else {
        -(abs(a) / abs(b))
    }
}

/// Remainder of the division rounded toward zero: it takes the sign of the dividend.
pub open spec fn trunc_rem(a: int, b: int) -> int {
    if a < 0 {
        -(abs(a) % abs(b))
    } else {
        abs(a) % abs(b)
    }
}

/// Euclidean modulo: always in `[0, |b|)`.
pub open spec fn euclid_mod(a: int, b: int) -> int {
    a % abs(b)
}

/// Carry of a division: the quotient times the divisor misses the dividend.
pub open spec fn div_carry(a: i16, b: i16) -> bool {
    trunc_div(a as int, b as int) * b != a
}

/// Sign of a number: 1, -1 or 0.
pub fn sign(number: i16) -> (r: i8)
    ensures
        r == (if number > 0 {
            1int
        } else if number < 0 {
            -1int
        } else {
            0int
        }),
{
    if number > 0 {
        1
    } else if number < 0 {
        -1
    } else {
        0
    }
}

/// The unsigned value of a word's bit pattern, widened.
pub fn unsigned_word(w: i16) -> (r: u32)
    ensures
        r == unsigned16(w),
{
    if w < 0 {
        (w as i32 + 65536) as u32
    } else {
        w as u32
    }
}

/// The word whose bit pattern is `u`.
pub fn word_from_unsigned(u: u32) -> (r: i16)
    requires
        u < 65536,
    ensures
        r == signed16(u as int),
{
    if u >= 32768 {
        (u as i32 - 65536) as i16
    } else {
        u as i16
    }
}

/// Wrapping 16-bit sum.
pub fn add16(a: i16, b: i16) -> (r: i16)
    ensures
        r == wrap16(a + b),
{
    a.wrapping_add(b)
}

/// Wrapping 16-bit difference.
pub fn sub16(a: i16, b: i16) -> (r: i16)
    ensures
        r == wrap16(a - b),
{
    a.wrapping_sub(b)
}

/// Wrapping 16-bit product.
pub fn mul16(a: i16, b: i16) -> (r: i16)
    ensures
        r == wrap16(a * b),
{
    assert(-0x40000000 <= a * b <= 0x40000000) by (nonlinear_arith)
        requires
            -32768 <= a <= 32767,
            -32768 <= b <= 32767,
    ;
    let p: i64 = a as i64 * b as i64;
    let u: u32 = ((p + 0x40000000) % 65536) as u32;
    proof {
        vstd::arithmetic::div_mod::lemma_mod_multiples_vanish(16384, p as int, 65536);
        vstd::arithmetic::div_mod::lemma_small_mod(u as nat, 65536);
    }
    word_from_unsigned(u)
}

/// Wrapping 16-bit negation.
pub fn neg16(a: i16) -> (r: i16)
    ensures
        r == wrap16(-a),
{
    if a == i16::MIN {
        a
    } else {
        -a
    }
}

/// The quotient rounded toward zero, wrapped to 16 bits, and whether it is inexact.
pub fn div16(a: i16, b: i16) -> (r: (i16, bool))
    requires
        b != 0,
    ensures
        r.0 == wrap16(trunc_div(a as int, b as int)),
        r.1 == div_carry(a, b),
{
    let ua: u32 = if a < 0 {
        (-(a as i32)) as u32
    } else {
        a as u32
    };
    let ub: u32 = if b < 0 {
        (-(b as i32)) as u32
    } else {
        b as u32
    };
    let q: u32 = ua / ub;
    let rem: u32 = ua % ub;
    proof {
        vstd::arithmetic::div_mod::lemma_fundamental_div_mod(ua as int, ub as int);
        vstd::arithmetic::div_mod::lemma_div_pos_is_pos(ua as int, ub as int);
        vstd::arithmetic::div_mod::lemma_div_is_ordered_by_denominator(ua as int, 1, ub as int);
        vstd::arithmetic::div_mod::lemma_div_basics(ua as int);
    }
    let exact: i32 = if (a < 0) == (b < 0) {
        q as i32
    } else {
        -(q as i32)
    };
    let quotient = word_from_unsigned(((exact + 65536) % 65536) as u32);
    assert(signed16(exact as int) == signed16((exact + 65536) % 65536));
    assert(-0x40000000 <= exact * b <= 0x40000000) by (nonlinear_arith)
        requires
            -32768 <= exact <= 32768,
            -32768 <= b <= 32767,
    ;
    let inexact = exact * (b as i32) != a as i32;
    (quotient, inexact)
}

/// The remainder with the sign of the dividend.
pub fn rem16(a: i16, b: i16) -> (r: i16)
    requires
        b != 0,
    ensures
        r == trunc_rem(a as int, b as int),
{
    let ua: u32 = if a < 0 {
        (-(a as i32)) as u32
    } else {
        a as u32
    };
    let ub: u32 = if b < 0 {
        (-(b as i32)) as u32
    } else {
        b as u32
    };
    let m: u32 = ua % ub;
    if a < 0 {
        -(m as i32) as i16
    } else {
        m as i16
    }
}

/// The Euclidean modulo, never negative.
pub fn mod16(a: i16, b: i16) -> (r: i16)
    requires
        b != 0,
    ensures
        r == euclid_mod(a as int, b as int),
        0 <= r < abs(b as int),
{
    let t = rem16(a, b);
    let ub: i32 = if b < 0 {
        -(b as i32)
    } else {
        b as i32
    };
    let r: i32 = if t < 0 {
        t as i32 + ub
    } else {
        t as i32
    };
    proof {
        lemma_euclid_from_trunc(a as int, b as int);
    }
    r as i16
}

/// The Euclidean modulo is the truncating remainder, moved up by `|b|` when negative.
pub proof fn lemma_euclid_from_trunc(a: int, b: int)
    requires
        b != 0,
    ensures
        euclid_mod(a, b) == (if trunc_rem(a, b) < 0 {
            trunc_rem(a, b) + abs(b)
        } else {
            trunc_rem(a, b)
        }),
        0 <= euclid_mod(a, b) < abs(b),
{
    let m = abs(b);
    let r = abs(a) % m;
    let q = abs(a) / m;
    vstd::arithmetic::div_mod::lemma_fundamental_div_mod(abs(a), m);
    vstd::arithmetic::div_mod::lemma_mod_bound(abs(a), m);
    vstd::arithmetic::div_mod::lemma_mod_bound(a, m);
    if a < 0 {
        if r == 0 {
            assert(a == (-q) * m + 0) by (nonlinear_arith)
                requires
                    -a == m * q + r,
                    r == 0,
            ;
            vstd::arithmetic::div_mod::lemma_fundamental_div_mod_converse(a, m, -q, 0);
        } else {
            assert(a == (-q - 1) * m + (m - r)) by (nonlinear_arith)
                requires
                    -a == m * q + r,
            ;
            vstd::arithmetic::div_mod::lemma_fundamental_div_mod_converse(a, m, -q - 1, m - r);
        }
    } else {
        assert(a % m == r);
    }
}

} // verus!
