//! Laws that relate several operations of the console.
use vstd::prelude::*;
use crate::alu::{abs, euclid_mod, trunc_rem};
use crate::bytes::unsigned16;
use crate::cpu::{Cpu, Flags};
use crate::graphics::{cell, on_screen, sprite_nibble, sprite_pixel};

verus! {

/// Pushing a word and popping right after gives that word back, with the
/// stack pointer, registers and flags as they were.
pub proof fn lemma_push_pop_round_trip(s0: Cpu, s1: Cpu, s2: Cpu, w: i16, r: i16)
    requires
        s0.pushes(s1, w),
        s1.pops(s2, r),
    ensures
        r == w,
        s2.sp == s0.sp,
        s2.rx == s0.rx,
        s2.flags == s0.flags,
        s2.pc == s0.pc,
{
}

/// Pushing all registers and popping them all right after restores every
/// register and the stack pointer.
pub proof fn lemma_pushall_popall_identity(s0: Cpu, s1: Cpu, s2: Cpu)
    requires
        s0.pushes_all(s1),
        s1.pops_all(s2),
    ensures
        s2.rx@ == s0.rx@,
        s2.sp == s0.sp,
        s2.flags == s0.flags,
        s2.pc == s0.pc,
{
    assert forall|i: int| 0 <= i < 16 implies s2.rx@[i] == s0.rx@[i] by {
        assert(s2.reg(i) == s1.memory.word_at(s1.sp - 32 + 2 * i));
        assert(s1.memory.word_at(s0.sp + 2 * i) == s0.reg(i));
    }
    assert(s2.rx@ =~= s0.rx@);
}

/// The Euclidean modulo is never negative and stays below the divisor's
/// magnitude; the truncating remainder takes the dividend's sign and is the
/// same for a divisor of either sign.
pub proof fn lemma_mod_rem_signs(a: i16, b: i16)
    requires
        b != 0,
    ensures
        0 <= euclid_mod(a as int, b as int) < abs(b as int),
        trunc_rem(a as int, b as int) == trunc_rem(a as int, -b),
        a >= 0 ==> trunc_rem(a as int, b as int) >= 0,
        a < 0 ==> trunc_rem(a as int, b as int) <= 0,
        abs(trunc_rem(a as int, b as int)) < abs(b as int),
{
    crate::alu::lemma_euclid_from_trunc(a as int, b as int);
    vstd::arithmetic::div_mod::lemma_mod_bound(abs(a as int), abs(b as int));
}

/// Drawing a fully opaque sprite on a blank screen reports no hit; drawing it
/// again at the same place reports a hit, since it lands on itself.
pub proof fn lemma_draw_twice_hits(s0: Cpu, s1: Cpu, s2: Cpu, x: i16, y: i16, addr: i16)
    requires
        s0.draws(s1, x, y, addr),
        s1.draws(s2, x, y, addr),
        forall|i: int| 0 <= i < 76800 ==> s0.graphics.screen@[i] == 0,
        forall|dx: int, dy: int|
            0 <= dx < 2 * s0.graphics.state.spritew && 0 <= dy < s0.graphics.state.spriteh
                ==> #[trigger] sprite_nibble(s0.graphics.state, s0.memory@, addr, dx, dy) != 0,
        s0.graphics.state.spritew > 0,
        s0.graphics.state.spriteh > 0,
        on_screen(x as int, y as int),
    ensures
        !s1.flags.carry,
        s2.flags.carry,
{
    assert forall|px: int, py: int| on_screen(px, py) implies #[trigger] cell(s0.graphics.screen@, px, py)
        == 0 by {
        assert(0 <= py * 320 + px < 76800);
    }
    assert(sprite_nibble(s0.graphics.state, s0.memory@, addr, 0, 0) != 0);
    assert(sprite_pixel(s1.graphics.state, s1.memory@, x, y, addr, x as int, y as int) != 0);
    assert(cell(s1.graphics.screen@, x as int, y as int) != 0);
}

/// Pushing the flags and popping them right after restores all four flags.
pub proof fn lemma_pushf_popf_round_trip(s0: Cpu, s1: Cpu, f: Flags)
    requires
        s0.pushes(s1, s0.flags.bits() as i16),
        f == Flags::from_bits(unsigned16(s1.memory.word_at(s1.sp - 2))),
    ensures
        f == s0.flags,
{
    let b = s0.flags.bits();
    assert(0 <= b <= 198);
    assert(unsigned16(b as i16) == b);
}

} // verus!
