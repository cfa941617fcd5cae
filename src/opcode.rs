//! The instruction set: opcodes, their byte encoding, and how each one acts on the console.
use rand::Rng;
use vstd::prelude::*;
use crate::alu::{
    abs, add16, add_carry, add_overflow, div16, div_carry, euclid_mod, mod16, mul16, mul_carry,
    neg16, rem16, sign, sub16, sub_carry, sub_overflow, trunc_div, trunc_rem, unsigned_word,
    word_from_unsigned, wrap16,
};
use crate::bytes::{join_bytes, separate_byte, signed16, unsigned16, unsigned8, word_of};
use crate::cpu::{
    address_of, reg_index, reg_index_of, unsigned_byte, Chip16Error, Cpu, Flags,
};
use crate::graphics::StateRegister;
use vstd::arithmetic::power2::{lemma2_to64, lemma_pow2_strictly_increases, lemma_pow2_unfold, pow2};

verus! {

/// The operation of an instruction, named after its mnemonic.
#[derive(Clone, Copy, Debug, PartialEq, Eq, Structural)]
pub enum Opcode {
    Nop,
    Cls,
    Vblnk,
    Bgc,
    Spr,
    Drw,
    Drw2,
    Rnd,
    Flip,
    Snd0,
    Snd1,
    Snd2,
    Snd3,
    Snp,
    Sng,
    Jmp,
    Jmc,
    Jx,
    Jme,
    Call,
    Ret,
    Jmp2,
    Cx,
    Call2,
    Ldi,
    Ldi2,
    Ldm,
    Ldm2,
    Mov,
    Stm,
    Stm2,
    Addi,
    Add,
    Add2,
    Subi,
    Sub,
    Sub2,
    Cmpi,
    Cmp,
    Andi,
    And,
    And2,
    Tsti,
    Tst,
    Ori,
    Or,
    Or2,
    Xori,
    Xor,
    Xor2,
    Muli,
    Mul,
    Mul2,
    Divi,
    Div,
    Div2,
    Modi,
    Mod,
    Mod2,
    Remi,
    Rem,
    Rem2,
    Shl,
    Shr,
    Sar,
    Shl2,
    Shr2,
    Sar2,
    Push,
    Pop,
    Pushall,
    Popall,
    Pushf,
    Popf,
    Pal,
    Pal2,
    Noti,
    Not,
    Not2,
    Negi,
    Neg,
    Neg2,
}

/// The byte that encodes an opcode.
pub open spec fn opcode_byte(op: Opcode) -> u8 {
    match op {
        Opcode::Nop => 0x00,
        Opcode::Cls => 0x01,
        Opcode::Vblnk => 0x02,
        Opcode::Bgc => 0x03,
        Opcode::Spr => 0x04,
        Opcode::Drw => 0x05,
        Opcode::Drw2 => 0x06,
        Opcode::Rnd => 0x07,
        Opcode::Flip => 0x08,
        Opcode::Snd0 => 0x09,
        Opcode::Snd1 => 0x0A,
        Opcode::Snd2 => 0x0B,
        Opcode::Snd3 => 0x0C,
        Opcode::Snp => 0x0D,
        Opcode::Sng => 0x0E,
        Opcode::Jmp => 0x10,
        Opcode::Jmc => 0x11,
        Opcode::Jx => 0x12,
        Opcode::Jme => 0x13,
        Opcode::Call => 0x14,
        Opcode::Ret => 0x15,
        Opcode::Jmp2 => 0x16,
        Opcode::Cx => 0x17,
        Opcode::Call2 => 0x18,
        Opcode::Ldi => 0x20,
        Opcode::Ldi2 => 0x21,
        Opcode::Ldm => 0x22,
        Opcode::Ldm2 => 0x23,
        Opcode::Mov => 0x24,
        Opcode::Stm => 0x30,
        Opcode::Stm2 => 0x31,
        Opcode::Addi => 0x40,
        Opcode::Add => 0x41,
        Opcode::Add2 => 0x42,
        Opcode::Subi => 0x50,
        Opcode::Sub => 0x51,
        Opcode::Sub2 => 0x52,
        Opcode::Cmpi => 0x53,
        Opcode::Cmp => 0x54,
        Opcode::Andi => 0x60,
        Opcode::And => 0x61,
        Opcode::And2 => 0x62,
        Opcode::Tsti => 0x63,
        Opcode::Tst => 0x64,
        Opcode::Ori => 0x70,
        Opcode::Or => 0x71,
        Opcode::Or2 => 0x72,
        Opcode::Xori => 0x80,
        Opcode::Xor => 0x81,
        Opcode::Xor2 => 0x82,
        Opcode::Muli => 0x90,
        Opcode::Mul => 0x91,
        Opcode::Mul2 => 0x92,
        Opcode::Divi => 0xA0,
        Opcode::Div => 0xA1,
        Opcode::Div2 => 0xA2,
        Opcode::Modi => 0xA3,
        Opcode::Mod => 0xA4,
        Opcode::Mod2 => 0xA5,
        Opcode::Remi => 0xA6,
        Opcode::Rem => 0xA7,
        Opcode::Rem2 => 0xA8,
        Opcode::Shl => 0xB0,
        Opcode::Shr => 0xB1,
        Opcode::Sar => 0xB2,
        Opcode::Shl2 => 0xB3,
        Opcode::Shr2 => 0xB4,
        Opcode::Sar2 => 0xB5,
        Opcode::Push => 0xC0,
        Opcode::Pop => 0xC1,
        Opcode::Pushall => 0xC2,
        Opcode::Popall => 0xC3,
        Opcode::Pushf => 0xC4,
        Opcode::Popf => 0xC5,
        Opcode::Pal => 0xD0,
        Opcode::Pal2 => 0xD1,
        Opcode::Noti => 0xE0,
        Opcode::Not => 0xE1,
        Opcode::Not2 => 0xE2,
        Opcode::Negi => 0xE3,
        Opcode::Neg => 0xE4,
        Opcode::Neg2 => 0xE5,
    }
}

/// The high nibble of an operand byte: the first of a register pair.
pub open spec fn hi(b: i8) -> int {
    unsigned8(b) / 16
}

/// The low nibble of an operand byte: the second of a register pair.
pub open spec fn lo(b: i8) -> int {
    unsigned8(b) % 16
}

/// The immediate word of an instruction: low byte first.
pub open spec fn imm(b2: i8, b3: i8) -> i16 {
    word_of(b2, b3)
}

/// Shift counts use the low four bits.
pub open spec fn shift_count(v: int) -> nat {
    (v % 16) as nat
}

/// Logical left shift of the 16-bit pattern.
pub open spec fn shl16(a: i16, n: nat) -> i16 {
    wrap16(unsigned16(a) * pow2(n))
}

/// Logical right shift of the 16-bit pattern.
pub open spec fn shr16(a: i16, n: nat) -> i16 {
    wrap16(unsigned16(a) / pow2(n) as int)
}

/// Arithmetic right shift: division rounded toward minus infinity.
pub open spec fn sar16(a: i16, n: nat) -> i16 {
    (a as int / pow2(n) as int) as i16
}

/// Flags after an addition.
pub open spec fn add_flags(a: i16, b: i16) -> Flags {
    Flags {
        carry: add_carry(a, b),
        zero: wrap16(a + b) == 0,
        overflow: add_overflow(a, b),
        negative: wrap16(a + b) < 0,
    }
}

/// Flags after a subtraction or comparison.
pub open spec fn sub_flags(a: i16, b: i16) -> Flags {
    Flags {
        carry: sub_carry(a, b),
        zero: wrap16(a - b) == 0,
        overflow: sub_overflow(a, b),
        negative: wrap16(a - b) < 0,
    }
}

/// Flags after an operation that reports only Zero and Negative.
pub open spec fn zn_flags(f: Flags, v: i16) -> Flags {
    Flags { carry: f.carry, zero: v == 0, overflow: f.overflow, negative: v < 0 }
}

/// Flags after a multiplication.
pub open spec fn mul_flags(f: Flags, a: i16, b: i16) -> Flags {
    Flags {
        carry: mul_carry(a, b),
        zero: wrap16(a * b) == 0,
        overflow: f.overflow,
        negative: wrap16(a * b) < 0,
    }
}

/// Flags after a division.
pub open spec fn div_flags(f: Flags, a: i16, b: i16) -> Flags {
    Flags {
        carry: div_carry(a, b),
        zero: wrap16(trunc_div(a as int, b as int)) == 0,
        overflow: f.overflow,
        negative: wrap16(trunc_div(a as int, b as int)) < 0,
    }
}

/// `t` is `s` with register `d`, if any, set to `v` and the flags set to `f`.
pub open spec fn writes(s: Cpu, t: Cpu, d: Option<int>, v: i16, f: Flags) -> bool {
    &&& t.same_but_regs_flags(s)
    &&& t.flags == f
    &&& t.rx@ == match d {
        Some(i) => s.rx@.update(i, v),
        None => s.rx@,
    }
}

/// `t` is `s` with nothing but the program counter changed.
pub open spec fn same_but_pc(s: Cpu, t: Cpu) -> bool {
    &&& t.sp == s.sp
    &&& t.rx == s.rx
    &&& t.flags == s.flags
    &&& t.vblank == s.vblank
    &&& t.graphics == s.graphics
    &&& t.memory == s.memory
}

/// A jump to `addr` when `cond` holds.
pub open spec fn jumps(s: Cpu, t: Cpu, cond: bool, addr: i16) -> bool {
    &&& same_but_pc(s, t)
    &&& t.pc == if cond {
        unsigned16(addr) as u16
    } else {
        s.pc
    }
}

/// A call: the program counter is pushed, then replaced by `addr`.
pub open spec fn calls(s: Cpu, t: Cpu, addr: i16) -> bool {
    &&& s.pushes(Cpu { pc: s.pc, ..t }, signed16(s.pc as int) as i16)
    &&& t.pc == unsigned16(addr) as u16
}

/// A return: the program counter is popped.
pub open spec fn returns_from_call(s: Cpu, t: Cpu) -> bool {
    &&& s.pops(Cpu { pc: s.pc, ..t }, s.memory.word_at(s.sp - 2))
    &&& t.pc == unsigned16(s.memory.word_at(s.sp - 2)) as u16
}

/// A store of `v` to memory at `a`.
pub open spec fn stores(s: Cpu, t: Cpu, a: int, v: i16) -> bool {
    &&& t.memory.word_at(a) == v
    &&& t.memory@ == s.memory@.update(a, t.memory@[a]).update(a + 1, t.memory@[a + 1])
    &&& t.pc == s.pc
    &&& t.sp == s.sp
    &&& t.rx == s.rx
    &&& t.flags == s.flags
    &&& t.vblank == s.vblank
    &&& t.graphics == s.graphics
}

/// `t` is `s` with the draw state replaced by `st`.
pub open spec fn sets_draw_state(s: Cpu, t: Cpu, st: StateRegister) -> bool {
    &&& t.graphics.state == st
    &&& t.same_but_draw_state(s)
}

/// A word access at `a` must stay inside memory.
pub open spec fn word_fault(a: int) -> Option<Chip16Error> {
    if a + 1 >= 65536 {
        Some(Chip16Error::AddressOutOfRange(a as u16))
    } else {
        None
    }
}

/// The sixteen palette colours read from `a` must stay inside memory.
pub open spec fn palette_fault(a: int) -> Option<Chip16Error> {
    if a + 48 > 65536 {
        Some(Chip16Error::AddressOutOfRange(a as u16))
    } else {
        None
    }
}

pub open spec fn divisor_fault(b: i16) -> Option<Chip16Error> {
    if b == 0 {
        Some(Chip16Error::DivisionByZero)
    } else {
        None
    }
}

pub open spec fn condition_fault(b1: i8) -> Option<Chip16Error> {
    if !(0 <= b1 <= 14) {
        Some(Chip16Error::InvalidCondition(b1))
    } else {
        None
    }
}

pub open spec fn push_fault(s: Cpu, words: int) -> Option<Chip16Error> {
    if s.sp + 2 * words > 0xFFFF {
        Some(Chip16Error::StackOverflow)
    } else {
        None
    }
}

pub open spec fn pop_fault(s: Cpu, words: int) -> Option<Chip16Error> {
    if s.sp < 2 * words {
        Some(Chip16Error::StackUnderflow)
    } else {
        None
    }
}

/// The fatal error, if any, that instruction `op b1 b2 b3` meets on `s`.
pub open spec fn fault(op: Opcode, b1: i8, b2: i8, b3: i8, s: Cpu) -> Option<Chip16Error> {
    let k = imm(b2, b3);
    match op {
        Opcode::Rnd => if unsigned16(k) == 0 {
            Some(Chip16Error::EmptyRandomRange)
        } else {
            None
        },
        Opcode::Jx => condition_fault(b1),
        Opcode::Cx => if condition_fault(b1) is Some {
            condition_fault(b1)
        } else if s.flags.condition(b1 as int) {
            push_fault(s, 1)
        } else {
            None
        },
        Opcode::Call | Opcode::Call2 | Opcode::Push | Opcode::Pushf => push_fault(s, 1),
        Opcode::Pushall => push_fault(s, 16),
        Opcode::Ret | Opcode::Pop | Opcode::Popf => pop_fault(s, 1),
        Opcode::Popall => pop_fault(s, 16),
        Opcode::Ldm | Opcode::Stm => word_fault(unsigned16(k)),
        Opcode::Ldm2 | Opcode::Stm2 => word_fault(unsigned16(s.reg(hi(b1)))),
        Opcode::Pal => palette_fault(unsigned16(k)),
        Opcode::Pal2 => palette_fault(unsigned16(s.reg(reg_index(b1)))),
        Opcode::Divi | Opcode::Modi | Opcode::Remi => divisor_fault(k),
        Opcode::Div | Opcode::Div2 | Opcode::Mod | Opcode::Mod2 | Opcode::Rem | Opcode::Rem2 => divisor_fault(
            s.reg(hi(b1)),
        ),
        _ => None,
    }
}

/// What instruction `op b1 b2 b3` does to `s` when it meets no fatal error.
///
/// Register operands: `b1` names one register, or a pair `(hi, lo)` where the
/// result goes to `lo` unless `b2` names a third register (the `*2` forms).
/// `b2 b3` form the immediate word.
pub open spec fn acts(op: Opcode, b1: i8, b2: i8, b3: i8, s: Cpu, t: Cpu) -> bool {
    let k = imm(b2, b3);
    let d = reg_index(b1);
    let x = lo(b1);
    let y = hi(b1);
    let z = reg_index(b2);
    let st = s.graphics.state;
    match op {
        Opcode::Nop | Opcode::Snd0 | Opcode::Snd1 | Opcode::Snd2 | Opcode::Snd3 | Opcode::Snp
        | Opcode::Sng => t == s,
        Opcode::Cls => s.clears(t),
        Opcode::Vblnk => same_but_pc(s, t) && t.pc == if s.vblank {
            s.pc
        } else {
            ((s.pc + 65532) % 65536) as u16
        },
        Opcode::Bgc => sets_draw_state(s, t, StateRegister { bg: unsigned8(b2) as u8, ..st }),
        Opcode::Spr => sets_draw_state(
            s,
            t,
            StateRegister { spritew: unsigned8(b2) as u8, spriteh: unsigned8(b3) as u8, ..st },
        ),
        Opcode::Drw => s.draws(t, s.reg(x), s.reg(y), k),
        Opcode::Drw2 => s.draws(t, s.reg(x), s.reg(y), s.reg(z)),
        Opcode::Rnd => t.same_but_regs_flags(s) && t.flags == s.flags && t.rx@ == s.rx@.update(
            d,
            t.reg(d),
        ) && unsigned16(t.reg(d)) < unsigned16(k),
        Opcode::Flip => sets_draw_state(
            s,
            t,
            StateRegister { hflip: b3 > 1, vflip: unsigned8(b3) % 2 == 1, ..st },
        ),
        Opcode::Jmp => jumps(s, t, true, k),
        Opcode::Jmc => jumps(s, t, s.flags.carry, k),
        Opcode::Jx => jumps(s, t, s.flags.condition(b1 as int), k),
        Opcode::Jme => jumps(s, t, s.reg(x) == s.reg(y), k),
        Opcode::Call => calls(s, t, k),
        Opcode::Ret => returns_from_call(s, t),
        Opcode::Jmp2 => jumps(s, t, true, s.reg(d)),
        Opcode::Cx => if s.flags.condition(b1 as int) {
            calls(s, t, k)
        } else {
            t == s
        },
        Opcode::Call2 => calls(s, t, s.reg(d)),
        Opcode::Ldi => writes(s, t, Some(d), k, s.flags),
        Opcode::Ldi2 => t == Cpu { sp: unsigned16(k) as u16, ..s },
        Opcode::Ldm => writes(s, t, Some(d), s.memory.word_at(unsigned16(k)), s.flags),
        Opcode::Ldm2 => writes(s, t, Some(x), s.memory.word_at(unsigned16(s.reg(y))), s.flags),
        Opcode::Mov => writes(s, t, Some(x), s.reg(y), s.flags),
        Opcode::Stm => stores(s, t, unsigned16(k), s.reg(d)),
        Opcode::Stm2 => stores(s, t, unsigned16(s.reg(y)), s.reg(x)),
        Opcode::Addi => writes(s, t, Some(d), wrap16(s.reg(d) + k), add_flags(s.reg(d), k)),
        Opcode::Add => writes(s, t, Some(x), wrap16(s.reg(x) + s.reg(y)), add_flags(s.reg(x), s.reg(y))),
        Opcode::Add2 => writes(s, t, Some(z), wrap16(s.reg(x) + s.reg(y)), add_flags(s.reg(x), s.reg(y))),
        Opcode::Subi => writes(s, t, Some(d), wrap16(s.reg(d) - k), sub_flags(s.reg(d), k)),
        Opcode::Sub => writes(s, t, Some(x), wrap16(s.reg(x) - s.reg(y)), sub_flags(s.reg(x), s.reg(y))),
        Opcode::Sub2 => writes(s, t, Some(z), wrap16(s.reg(x) - s.reg(y)), sub_flags(s.reg(x), s.reg(y))),
        Opcode::Cmpi => writes(s, t, None, 0, sub_flags(s.reg(d), k)),
        Opcode::Cmp => writes(s, t, None, 0, sub_flags(s.reg(x), s.reg(y))),
        Opcode::Andi => writes(s, t, Some(d), s.reg(d) & k, zn_flags(s.flags, s.reg(d) & k)),
        Opcode::And => writes(s, t, Some(x), s.reg(x) & s.reg(y), zn_flags(s.flags, s.reg(x) & s.reg(y))),
        Opcode::And2 => writes(s, t, Some(z), s.reg(x) & s.reg(y), zn_flags(s.flags, s.reg(x) & s.reg(y))),
        Opcode::Tsti => writes(s, t, None, 0, zn_flags(s.flags, s.reg(d) & k)),
        Opcode::Tst => writes(s, t, None, 0, zn_flags(s.flags, s.reg(x) & s.reg(y))),
        Opcode::Ori => writes(s, t, Some(d), s.reg(d) | k, zn_flags(s.flags, s.reg(d) | k)),
        Opcode::Or => writes(s, t, Some(x), s.reg(x) | s.reg(y), zn_flags(s.flags, s.reg(x) | s.reg(y))),
        Opcode::Or2 => writes(s, t, Some(z), s.reg(x) | s.reg(y), zn_flags(s.flags, s.reg(x) | s.reg(y))),
        Opcode::Xori => writes(s, t, Some(d), s.reg(d) ^ k, zn_flags(s.flags, s.reg(d) ^ k)),
        Opcode::Xor => writes(s, t, Some(x), s.reg(x) ^ s.reg(y), zn_flags(s.flags, s.reg(x) ^ s.reg(y))),
        Opcode::Xor2 => writes(s, t, Some(z), s.reg(x) ^ s.reg(y), zn_flags(s.flags, s.reg(x) ^ s.reg(y))),
        Opcode::Muli => writes(s, t, Some(d), wrap16(s.reg(d) * k), mul_flags(s.flags, s.reg(d), k)),
        Opcode::Mul => writes(s, t, Some(x), wrap16(s.reg(x) * s.reg(y)), mul_flags(s.flags, s.reg(x), s.reg(y))),
        Opcode::Mul2 => writes(s, t, Some(z), wrap16(s.reg(x) * s.reg(y)), mul_flags(s.flags, s.reg(x), s.reg(y))),
        Opcode::Divi => writes(s, t, Some(d), wrap16(trunc_div(s.reg(d) as int, k as int)), div_flags(s.flags, s.reg(d), k)),
        Opcode::Div => writes(s, t, Some(x), wrap16(trunc_div(s.reg(x) as int, s.reg(y) as int)), div_flags(s.flags, s.reg(x), s.reg(y))),
        Opcode::Div2 => writes(s, t, Some(z), wrap16(trunc_div(s.reg(x) as int, s.reg(y) as int)), div_flags(s.flags, s.reg(x), s.reg(y))),
        Opcode::Modi => writes(s, t, Some(d), euclid_mod(s.reg(d) as int, k as int) as i16, zn_flags(s.flags, euclid_mod(s.reg(d) as int, k as int) as i16)),
        Opcode::Mod => writes(s, t, Some(x), euclid_mod(s.reg(x) as int, s.reg(y) as int) as i16, zn_flags(s.flags, euclid_mod(s.reg(x) as int, s.reg(y) as int) as i16)),
        Opcode::Mod2 => writes(s, t, Some(z), euclid_mod(s.reg(x) as int, s.reg(y) as int) as i16, zn_flags(s.flags, euclid_mod(s.reg(x) as int, s.reg(y) as int) as i16)),
        Opcode::Remi => writes(s, t, Some(d), trunc_rem(s.reg(d) as int, k as int) as i16, zn_flags(s.flags, trunc_rem(s.reg(d) as int, k as int) as i16)),
        Opcode::Rem => writes(s, t, Some(x), trunc_rem(s.reg(x) as int, s.reg(y) as int) as i16, zn_flags(s.flags, trunc_rem(s.reg(x) as int, s.reg(y) as int) as i16)),
        Opcode::Rem2 => writes(s, t, Some(z), trunc_rem(s.reg(x) as int, s.reg(y) as int) as i16, zn_flags(s.flags, trunc_rem(s.reg(x) as int, s.reg(y) as int) as i16)),
        Opcode::Shl => writes(s, t, Some(d), shl16(s.reg(d), shift_count(unsigned8(b2))), zn_flags(s.flags, shl16(s.reg(d), shift_count(unsigned8(b2))))),
        Opcode::Shr => writes(s, t, Some(d), shr16(s.reg(d), shift_count(unsigned8(b2))), zn_flags(s.flags, shr16(s.reg(d), shift_count(unsigned8(b2))))),
        Opcode::Sar => writes(s, t, Some(d), sar16(s.reg(d), shift_count(unsigned8(b2))), zn_flags(s.flags, sar16(s.reg(d), shift_count(unsigned8(b2))))),
        Opcode::Shl2 => writes(s, t, Some(x), shl16(s.reg(x), shift_count(unsigned16(s.reg(y)))), zn_flags(s.flags, shl16(s.reg(x), shift_count(unsigned16(s.reg(y)))))),
        Opcode::Shr2 => writes(s, t, Some(x), shr16(s.reg(x), shift_count(unsigned16(s.reg(y)))), zn_flags(s.flags, shr16(s.reg(x), shift_count(unsigned16(s.reg(y)))))),
        Opcode::Sar2 => writes(s, t, Some(x), sar16(s.reg(x), shift_count(unsigned16(s.reg(y)))), zn_flags(s.flags, sar16(s.reg(x), shift_count(unsigned16(s.reg(y)))))),
        Opcode::Push => s.pushes(t, s.reg(d)),
        Opcode::Pop => s.pops(Cpu { rx: s.rx, ..t }, s.memory.word_at(s.sp - 2)) && t.rx@ == s.rx@.update(
            d,
            s.memory.word_at(s.sp - 2),
        ),
        Opcode::Pushall => s.pushes_all(t),
        Opcode::Popall => s.pops_all(t),
        Opcode::Pushf => s.pushes(t, s.flags.bits() as i16),
        Opcode::Popf => s.pops(Cpu { flags: s.flags, ..t }, s.memory.word_at(s.sp - 2)) && t.flags
            == Flags::from_bits(unsigned16(s.memory.word_at(s.sp - 2))),
        Opcode::Pal => s.loads_palette(t, k),
        Opcode::Pal2 => s.loads_palette(t, s.reg(d)),
        Opcode::Noti => writes(s, t, Some(d), (-1 - k) as i16, zn_flags(s.flags, (-1 - k) as i16)),
        Opcode::Not => writes(s, t, Some(d), (-1 - s.reg(d)) as i16, zn_flags(s.flags, (-1 - s.reg(d)) as i16)),
        Opcode::Not2 => writes(s, t, Some(x), (-1 - s.reg(y)) as i16, zn_flags(s.flags, (-1 - s.reg(y)) as i16)),
        Opcode::Negi => writes(s, t, Some(d), wrap16(-k), zn_flags(s.flags, wrap16(-k))),
        Opcode::Neg => writes(s, t, Some(d), wrap16(-s.reg(d)), zn_flags(s.flags, wrap16(-s.reg(d)))),
        Opcode::Neg2 => writes(s, t, Some(x), wrap16(-s.reg(y)), zn_flags(s.flags, wrap16(-s.reg(y)))),
    }
}

/// Executing `op b1 b2 b3` on `s` gives `t` and `r`: the fatal error, with the
/// console untouched, or success and the instruction's effect.
pub open spec fn executes(op: Opcode, b1: i8, b2: i8, b3: i8, s: Cpu, t: Cpu, r: Result<(), Chip16Error>) -> bool {
    match fault(op, b1, b2, b3, s) {
        Some(e) => r == Err::<(), Chip16Error>(e) && t == s,
        None => r is Ok && acts(op, b1, b2, b3, s, t),
    }
}

/// A register index, if the result is kept.
pub open spec fn kept(dst: Option<usize>) -> Option<int> {
    match dst {
        Some(i) => Some(i as int),
        None => None,
    }
}

/// Relies on `rand::Rng::gen_range` over `0..max` with the thread-local
/// generator of `rand::thread_rng`: the number drawn lies in the range. The
/// range must not be empty, where `gen_range` panics.
#[verifier::external_body]
fn random_below(max: u16) -> (r: u16)
    requires
        max > 0,
    ensures
        r < max,
{
    rand::thread_rng().gen_range(0..max)
}

/// Keeps `v` in register `dst`, if any, and sets the flags to `f`.
fn write_back(cpu: &mut Cpu, dst: Option<usize>, v: i16, f: Flags)
    requires
        match dst {
            Some(i) => i < 16,
            None => true,
        },
    ensures
        writes(*old(cpu), *final(cpu), kept(dst), v, f),
{
    if let Some(i) = dst {
        cpu.rx[i] = v;
    }
    cpu.flags = f;
}

/// Sets the four flags of an addition whose wrapped sum is `result`.
pub fn change_flags_add(cpu: &mut Cpu, lhs: i16, rhs: i16, result: i16)
    requires
        result == wrap16(lhs + rhs),
    ensures
        final(cpu).flags == add_flags(lhs, rhs),
        final(cpu).same_but_regs_flags(*old(cpu)),
        final(cpu).rx == old(cpu).rx,
{
    cpu.put_carry(unsigned_word(lhs) + unsigned_word(rhs) > 0xFFFF);
    cpu.put_zero(result == 0);
    cpu.put_overflow(sign(lhs) == sign(rhs) && sign(result) != sign(lhs));
    cpu.put_negative(result < 0);
}

/// Sets the four flags of a subtraction whose wrapped difference is `result`.
fn change_flags_sub(cpu: &mut Cpu, lhs: i16, rhs: i16, result: i16)
    requires
        result == wrap16(lhs - rhs),
    ensures
        final(cpu).flags == sub_flags(lhs, rhs),
        final(cpu).same_but_regs_flags(*old(cpu)),
        final(cpu).rx == old(cpu).rx,
{
    let exact: i32 = lhs as i32 - rhs as i32;
    cpu.put_carry(unsigned_word(lhs) < unsigned_word(rhs));
    cpu.put_zero(result == 0);
    cpu.put_overflow(exact < -32768 || exact > 32767);
    cpu.put_negative(result < 0);
}

/// Sets Zero and Negative from `result`; Carry and Overflow stay.
fn change_flags_bitwise(cpu: &mut Cpu, result: i16)
    ensures
        final(cpu).flags == zn_flags(old(cpu).flags, result),
        final(cpu).same_but_regs_flags(*old(cpu)),
        final(cpu).rx == old(cpu).rx,
{
    cpu.put_zero(result == 0);
    cpu.put_negative(result < 0);
}

fn add_into(cpu: &mut Cpu, a: i16, b: i16, dst: usize)
    requires
        dst < 16,
    ensures
        writes(*old(cpu), *final(cpu), Some(dst as int), wrap16(a + b), add_flags(a, b)),
{
    let result = add16(a, b);
    change_flags_add(cpu, a, b, result);
    cpu.rx[dst] = result;
}

/// Subtracts `b` from `a`; the difference is kept in `dst`, if any (a comparison keeps none).
fn sub_into(cpu: &mut Cpu, a: i16, b: i16, dst: Option<usize>)
    requires
        match dst {
            Some(i) => i < 16,
            None => true,
        },
    ensures
        writes(*old(cpu), *final(cpu), kept(dst), wrap16(a - b), sub_flags(a, b)),
{
    let result = sub16(a, b);
    change_flags_sub(cpu, a, b, result);
    let f = cpu.flags;
    write_back(cpu, dst, result, f);
}

/// Keeps the result of a logic operation in `dst`, if any (a test keeps none).
fn logic(cpu: &mut Cpu, result: i16, dst: Option<usize>)
    requires
        match dst {
            Some(i) => i < 16,
            None => true,
        },
    ensures
        writes(*old(cpu), *final(cpu), kept(dst), result, zn_flags(old(cpu).flags, result)),
{
    change_flags_bitwise(cpu, result);
    let f = cpu.flags;
    write_back(cpu, dst, result, f);
}

fn mul_into(cpu: &mut Cpu, a: i16, b: i16, dst: usize)
    requires
        dst < 16,
    ensures
        writes(*old(cpu), *final(cpu), Some(dst as int), wrap16(a * b), mul_flags(old(cpu).flags, a, b)),
{
    let result = mul16(a, b);
    let ua = unsigned_word(a) as u64;
    let ub = unsigned_word(b) as u64;
    assert(ua * ub <= 0xFFFF * 0xFFFF) by (nonlinear_arith)
        requires
            ua <= 0xFFFF,
            ub <= 0xFFFF,
    ;
    cpu.put_carry(ua * ub > 0xFFFF);
    change_flags_bitwise(cpu, result);
    cpu.rx[dst] = result;
}

fn div_into(cpu: &mut Cpu, a: i16, b: i16, dst: usize)
    requires
        dst < 16,
        b != 0,
    ensures
        writes(
            *old(cpu),
            *final(cpu),
            Some(dst as int),
            wrap16(trunc_div(a as int, b as int)),
            div_flags(old(cpu).flags, a, b),
        ),
{
    let (result, inexact) = div16(a, b);
    cpu.put_carry(inexact);
    change_flags_bitwise(cpu, result);
    cpu.rx[dst] = result;
}

/// Euclidean modulo, kept in `dst`.
fn mod_into(cpu: &mut Cpu, a: i16, b: i16, dst: usize)
    requires
        dst < 16,
        b != 0,
    ensures
        writes(
            *old(cpu),
            *final(cpu),
            Some(dst as int),
            euclid_mod(a as int, b as int) as i16,
            zn_flags(old(cpu).flags, euclid_mod(a as int, b as int) as i16),
        ),
{
    let result = mod16(a, b);
    logic(cpu, result, Some(dst));
}

/// Remainder with the sign of the dividend, kept in `dst`.
fn rem_into(cpu: &mut Cpu, a: i16, b: i16, dst: usize)
    requires
        dst < 16,
        b != 0,
    ensures
        writes(
            *old(cpu),
            *final(cpu),
            Some(dst as int),
            trunc_rem(a as int, b as int) as i16,
            zn_flags(old(cpu).flags, trunc_rem(a as int, b as int) as i16),
        ),
{
    let result = rem16(a, b);
    logic(cpu, result, Some(dst));
}

/// Two to the power `n`.
fn pow2_of(n: u32) -> (r: u32)
    requires
        n < 16,
    ensures
        r == pow2(n as nat),
        1 <= r <= 32768,
{
    proof {
        lemma2_to64();
    }
    let mut p: u32 = 1;
    let mut i: u32 = 0;
    while i < n
        invariant
            i <= n < 16,
            p == pow2(i as nat),
            pow2(15) == 32768,
            pow2(0) == 1,
        decreases n - i,
    {
        proof {
            lemma_pow2_unfold((i + 1) as nat);
            lemma_pow2_strictly_increases(i as nat, 15);
        }
        p = p * 2;
        i = i + 1;
    }
    proof {
        if n < 15 {
            lemma_pow2_strictly_increases(n as nat, 15);
        }
        if n > 0 {
            lemma_pow2_strictly_increases(0, n as nat);
        }
    }
    p
}

fn shl_value(a: i16, n: u32) -> (r: i16)
    requires
        n < 16,
    ensures
        r == shl16(a, n as nat),
{
    let p = pow2_of(n) as u64;
    let u = unsigned_word(a) as u64;
    assert(u * p <= 0xFFFF * 32768) by (nonlinear_arith)
        requires
            u <= 0xFFFF,
            p <= 32768,
    ;
    let m = (u * p) % 65536;
    proof {
        vstd::arithmetic::div_mod::lemma_small_mod(m as nat, 65536);
    }
    word_from_unsigned(m as u32)
}

fn shr_value(a: i16, n: u32) -> (r: i16)
    requires
        n < 16,
    ensures
        r == shr16(a, n as nat),
{
    let p = pow2_of(n);
    let u = unsigned_word(a);
    proof {
        vstd::arithmetic::div_mod::lemma_div_is_ordered_by_denominator(u as int, 1, p as int);
        vstd::arithmetic::div_mod::lemma_div_basics(u as int);
        vstd::arithmetic::div_mod::lemma_small_mod((u / p) as nat, 65536);
    }
    word_from_unsigned(u / p)
}

fn sar_value(a: i16, n: u32) -> (r: i16)
    requires
        n < 16,
    ensures
        r == sar16(a, n as nat),
{
    let p = pow2_of(n);
    if a >= 0 {
        let q = a as u32 / p;
        proof {
            vstd::arithmetic::div_mod::lemma_div_is_ordered_by_denominator(a as int, 1, p as int);
            vstd::arithmetic::div_mod::lemma_div_basics(a as int);
        }
        q as i16
    } else {
        let m: u32 = (-(a as i32)) as u32;
        let q: u32 = m / p;
        let r: u32 = m % p;
        proof {
            vstd::arithmetic::div_mod::lemma_fundamental_div_mod(m as int, p as int);
            vstd::arithmetic::div_mod::lemma_div_is_ordered_by_denominator(m as int, 1, p as int);
            vstd::arithmetic::div_mod::lemma_div_basics(m as int);
            if r == 0 {
                assert(a == (-(q as int)) * p + 0) by (nonlinear_arith)
                    requires
                        -a == p * q + r,
                        r == 0,
                ;
                vstd::arithmetic::div_mod::lemma_fundamental_div_mod_converse(a as int, p as int, -(q as int), 0);
            } else {
                assert(a == (-(q as int) - 1) * p + (p - r)) by (nonlinear_arith)
                    requires
                        -a == p * q + r,
                ;
                vstd::arithmetic::div_mod::lemma_fundamental_div_mod_converse(
                    a as int,
                    p as int,
                    -(q as int) - 1,
                    (p - r) as int,
                );
            }
        }
        if r == 0 {
            -(q as i32) as i16
        } else {
            (-(q as i32) - 1) as i16
        }
    }
}

/// Pushes the program counter and jumps to `addr`.
fn call(cpu: &mut Cpu, addr: i16)
    requires
        old(cpu).sp <= 0xFFFD,
    ensures
        calls(*old(cpu), *final(cpu), addr),
{
    let pc = cpu.pc;
    cpu.push_stack(word_from_unsigned(pc as u32));
    cpu.pc = address_of(addr) as u16;
}

impl Opcode {
    /// Executes this instruction with operand bytes `byte1 byte2 byte3` on `cpu`.
    #[verifier::rlimit(50)]
    pub fn execute(&self, cpu: &mut Cpu, byte1: i8, byte2: i8, byte3: i8) -> (r: Result<(), Chip16Error>)
        ensures
            executes(*self, byte1, byte2, byte3, *old(cpu), *final(cpu), r),
    {
        let k = join_bytes(byte2, byte3);
        let d = reg_index_of(byte1);
        let z = reg_index_of(byte2);
        let (yb, xb) = separate_byte(byte1);
        let x = xb as usize;
        let y = yb as usize;
        let xv = cpu.rx[x];
        let yv = cpu.rx[y];
        let dv = cpu.rx[d];
        match *self {
            Opcode::Nop | Opcode::Snd0 | Opcode::Snd1 | Opcode::Snd2 | Opcode::Snd3 | Opcode::Snp
            | Opcode::Sng => {},
            Opcode::Cls => cpu.clear_fg_bg(),
            Opcode::Vblnk => {
                if !cpu.vblank {
                    cpu.pc = ((cpu.pc as u32 + 65532) % 65536) as u16;
                }
            },
            Opcode::Bgc => cpu.set_bg(unsigned_byte(byte2) as u8),
            Opcode::Spr => cpu.set_spr_wh(unsigned_byte(byte2) as u8, unsigned_byte(byte3) as u8),
            Opcode::Drw => cpu.drw(xv, yv, k),
            Opcode::Drw2 => {
                let zv = cpu.rx[z];
                cpu.drw(xv, yv, zv);
            },
            Opcode::Rnd => {
                let max = address_of(k) as u16;
                if max == 0 {
                    return Err(Chip16Error::EmptyRandomRange);
                }
                let v = random_below(max);
                cpu.rx[d] = word_from_unsigned(v as u32);
            },
            Opcode::Flip => cpu.flip(byte3 > 1, unsigned_byte(byte3) as u8 % 2 == 1),
            Opcode::Jmp => cpu.pc = address_of(k) as u16,
            Opcode::Jmc => {
                if cpu.has_carry() {
                    cpu.pc = address_of(k) as u16;
                }
            },
            Opcode::Jx => {
                if !(0 <= byte1 && byte1 <= 14) {
                    return Err(Chip16Error::InvalidCondition(byte1));
                }
                if cpu.check_flags(byte1) {
                    cpu.pc = address_of(k) as u16;
                }
            },
            Opcode::Jme => {
                if xv == yv {
                    cpu.pc = address_of(k) as u16;
                }
            },
            Opcode::Call => {
                if cpu.sp > 0xFFFD {
                    return Err(Chip16Error::StackOverflow);
                }
                call(cpu, k);
            },
            Opcode::Ret => {
                if cpu.sp < 2 {
                    return Err(Chip16Error::StackUnderflow);
                }
                let w = cpu.pop_stack();
                cpu.pc = address_of(w) as u16;
            },
            Opcode::Jmp2 => cpu.pc = address_of(dv) as u16,
            Opcode::Cx => {
                if !(0 <= byte1 && byte1 <= 14) {
                    return Err(Chip16Error::InvalidCondition(byte1));
                }
                if cpu.check_flags(byte1) {
                    if cpu.sp > 0xFFFD {
                        return Err(Chip16Error::StackOverflow);
                    }
                    call(cpu, k);
                }
            },
            Opcode::Call2 => {
                if cpu.sp > 0xFFFD {
                    return Err(Chip16Error::StackOverflow);
                }
                call(cpu, dv);
            },
            Opcode::Ldi => cpu.rx[d] = k,
            Opcode::Ldi2 => cpu.sp = address_of(k) as u16,
            Opcode::Ldm => {
                let a = address_of(k);
                if a + 1 >= 65536 {
                    return Err(Chip16Error::AddressOutOfRange(a as u16));
                }
                let v = cpu.memory.read_word(a);
                cpu.rx[d] = v;
            },
            Opcode::Ldm2 => {
                let a = address_of(yv);
                if a + 1 >= 65536 {
                    return Err(Chip16Error::AddressOutOfRange(a as u16));
                }
                let v = cpu.memory.read_word(a);
                cpu.rx[x] = v;
            },
            Opcode::Mov => cpu.rx[x] = yv,
            Opcode::Stm => {
                let a = address_of(k);
                if a + 1 >= 65536 {
                    return Err(Chip16Error::AddressOutOfRange(a as u16));
                }
                cpu.memory.write_word(a, dv);
            },
            Opcode::Stm2 => {
                let a = address_of(yv);
                if a + 1 >= 65536 {
                    return Err(Chip16Error::AddressOutOfRange(a as u16));
                }
                cpu.memory.write_word(a, xv);
            },
            Opcode::Addi => add_into(cpu, dv, k, d),
            Opcode::Add => add_into(cpu, xv, yv, x),
            Opcode::Add2 => add_into(cpu, xv, yv, z),
            Opcode::Subi => sub_into(cpu, dv, k, Some(d)),
            Opcode::Sub => sub_into(cpu, xv, yv, Some(x)),
            Opcode::Sub2 => sub_into(cpu, xv, yv, Some(z)),
            Opcode::Cmpi => sub_into(cpu, dv, k, None),
            Opcode::Cmp => sub_into(cpu, xv, yv, None),
            Opcode::Andi => logic(cpu, dv & k, Some(d)),
            Opcode::And => logic(cpu, xv & yv, Some(x)),
            Opcode::And2 => logic(cpu, xv & yv, Some(z)),
            Opcode::Tsti => logic(cpu, dv & k, None),
            Opcode::Tst => logic(cpu, xv & yv, None),
            Opcode::Ori => logic(cpu, dv | k, Some(d)),
            Opcode::Or => logic(cpu, xv | yv, Some(x)),
            Opcode::Or2 => logic(cpu, xv | yv, Some(z)),
            Opcode::Xori => logic(cpu, dv ^ k, Some(d)),
            Opcode::Xor => logic(cpu, xv ^ yv, Some(x)),
            Opcode::Xor2 => logic(cpu, xv ^ yv, Some(z)),
            Opcode::Muli => mul_into(cpu, dv, k, d),
            Opcode::Mul => mul_into(cpu, xv, yv, x),
            Opcode::Mul2 => mul_into(cpu, xv, yv, z),
            Opcode::Divi | Opcode::Modi | Opcode::Remi => {
                if k == 0 {
                    return Err(Chip16Error::DivisionByZero);
                }
                match *self {
                    Opcode::Divi => div_into(cpu, dv, k, d),
                    Opcode::Modi => mod_into(cpu, dv, k, d),
                    _ => rem_into(cpu, dv, k, d),
                }
            },
            Opcode::Div | Opcode::Div2 | Opcode::Mod | Opcode::Mod2 | Opcode::Rem | Opcode::Rem2 => {
                if yv == 0 {
                    return Err(Chip16Error::DivisionByZero);
                }
                match *self {
                    Opcode::Div => div_into(cpu, xv, yv, x),
                    Opcode::Div2 => div_into(cpu, xv, yv, z),
                    Opcode::Mod => mod_into(cpu, xv, yv, x),
                    Opcode::Mod2 => mod_into(cpu, xv, yv, z),
                    Opcode::Rem => rem_into(cpu, xv, yv, x),
                    _ => rem_into(cpu, xv, yv, z),
                }
            },
            Opcode::Shl => logic(cpu, shl_value(dv, unsigned_byte(byte2) % 16), Some(d)),
            Opcode::Shr => logic(cpu, shr_value(dv, unsigned_byte(byte2) % 16), Some(d)),
            Opcode::Sar => logic(cpu, sar_value(dv, unsigned_byte(byte2) % 16), Some(d)),
            Opcode::Shl2 => logic(cpu, shl_value(xv, unsigned_word(yv) % 16), Some(x)),
            Opcode::Shr2 => logic(cpu, shr_value(xv, unsigned_word(yv) % 16), Some(x)),
            Opcode::Sar2 => logic(cpu, sar_value(xv, unsigned_word(yv) % 16), Some(x)),
            Opcode::Push => {
                if cpu.sp > 0xFFFD {
                    return Err(Chip16Error::StackOverflow);
                }
                cpu.push_stack(dv);
            },
            Opcode::Pop => {
                if cpu.sp < 2 {
                    return Err(Chip16Error::StackUnderflow);
                }
                let v = cpu.pop_stack();
                cpu.rx[d] = v;
            },
            Opcode::Pushall => {
                if cpu.sp > 0xFFDF {
                    return Err(Chip16Error::StackOverflow);
                }
                cpu.pushall();
            },
            Opcode::Popall => {
                if cpu.sp < 32 {
                    return Err(Chip16Error::StackUnderflow);
                }
                cpu.popall();
            },
            Opcode::Pushf => {
                if cpu.sp > 0xFFFD {
                    return Err(Chip16Error::StackOverflow);
                }
                cpu.pushf();
            },
            Opcode::Popf => {
                if cpu.sp < 2 {
                    return Err(Chip16Error::StackUnderflow);
                }
                cpu.popf();
            },
            Opcode::Pal => {
                let a = address_of(k);
                if a + 48 > 65536 {
                    return Err(Chip16Error::AddressOutOfRange(a as u16));
                }
                cpu.load_pal(k);
            },
            Opcode::Pal2 => {
                let a = address_of(dv);
                if a + 48 > 65536 {
                    return Err(Chip16Error::AddressOutOfRange(a as u16));
                }
                cpu.load_pal(dv);
            },
            Opcode::Noti => logic(cpu, -1 - k, Some(d)),
            Opcode::Not => logic(cpu, -1 - dv, Some(d)),
            Opcode::Not2 => logic(cpu, -1 - yv, Some(x)),
            Opcode::Negi => logic(cpu, neg16(k), Some(d)),
            Opcode::Neg => logic(cpu, neg16(dv), Some(d)),
            Opcode::Neg2 => logic(cpu, neg16(yv), Some(x)),
        }
        Ok(())
    }

    /// The byte that encodes this opcode.
    pub fn to_byte(&self) -> (r: u8)
        ensures
            r == opcode_byte(*self),
    {
        match *self {
            Opcode::Nop => 0x00,
            Opcode::Cls => 0x01,
            Opcode::Vblnk => 0x02,
            Opcode::Bgc => 0x03,
            Opcode::Spr => 0x04,
            Opcode::Drw => 0x05,
            Opcode::Drw2 => 0x06,
            Opcode::Rnd => 0x07,
            Opcode::Flip => 0x08,
            Opcode::Snd0 => 0x09,
            Opcode::Snd1 => 0x0A,
            Opcode::Snd2 => 0x0B,
            Opcode::Snd3 => 0x0C,
            Opcode::Snp => 0x0D,
            Opcode::Sng => 0x0E,
            Opcode::Jmp => 0x10,
            Opcode::Jmc => 0x11,
            Opcode::Jx => 0x12,
            Opcode::Jme => 0x13,
            Opcode::Call => 0x14,
            Opcode::Ret => 0x15,
            Opcode::Jmp2 => 0x16,
            Opcode::Cx => 0x17,
            Opcode::Call2 => 0x18,
            Opcode::Ldi => 0x20,
            Opcode::Ldi2 => 0x21,
            Opcode::Ldm => 0x22,
            Opcode::Ldm2 => 0x23,
            Opcode::Mov => 0x24,
            Opcode::Stm => 0x30,
            Opcode::Stm2 => 0x31,
            Opcode::Addi => 0x40,
            Opcode::Add => 0x41,
            Opcode::Add2 => 0x42,
            Opcode::Subi => 0x50,
            Opcode::Sub => 0x51,
            Opcode::Sub2 => 0x52,
            Opcode::Cmpi => 0x53,
            Opcode::Cmp => 0x54,
            Opcode::Andi => 0x60,
            Opcode::And => 0x61,
            Opcode::And2 => 0x62,
            Opcode::Tsti => 0x63,
            Opcode::Tst => 0x64,
            Opcode::Ori => 0x70,
            Opcode::Or => 0x71,
            Opcode::Or2 => 0x72,
            Opcode::Xori => 0x80,
            Opcode::Xor => 0x81,
            Opcode::Xor2 => 0x82,
            Opcode::Muli => 0x90,
            Opcode::Mul => 0x91,
            Opcode::Mul2 => 0x92,
            Opcode::Divi => 0xA0,
            Opcode::Div => 0xA1,
            Opcode::Div2 => 0xA2,
            Opcode::Modi => 0xA3,
            Opcode::Mod => 0xA4,
            Opcode::Mod2 => 0xA5,
            Opcode::Remi => 0xA6,
            Opcode::Rem => 0xA7,
            Opcode::Rem2 => 0xA8,
            Opcode::Shl => 0xB0,
            Opcode::Shr => 0xB1,
            Opcode::Sar => 0xB2,
            Opcode::Shl2 => 0xB3,
            Opcode::Shr2 => 0xB4,
            Opcode::Sar2 => 0xB5,
            Opcode::Push => 0xC0,
            Opcode::Pop => 0xC1,
            Opcode::Pushall => 0xC2,
            Opcode::Popall => 0xC3,
            Opcode::Pushf => 0xC4,
            Opcode::Popf => 0xC5,
            Opcode::Pal => 0xD0,
            Opcode::Pal2 => 0xD1,
            Opcode::Noti => 0xE0,
            Opcode::Not => 0xE1,
            Opcode::Not2 => 0xE2,
            Opcode::Negi => 0xE3,
            Opcode::Neg => 0xE4,
            Opcode::Neg2 => 0xE5,
        }
    }
}

/// Decodes an opcode byte; `None` for a byte that encodes no opcode.
pub fn to_opcode(v: i8) -> (r: Option<Opcode>)
    ensures
        match r {
            Some(op) => opcode_byte(op) == crate::bytes::unsigned8(v),
            None => forall|op: Opcode| opcode_byte(op) != crate::bytes::unsigned8(v),
        },
{
    let u: u8 = if v < 0 {
        (v as i16 + 256) as u8
    } else {
        v as u8
    };
    match u {
        0x00 => Some(Opcode::Nop),
        0x01 => Some(Opcode::Cls),
        0x02 => Some(Opcode::Vblnk),
        0x03 => Some(Opcode::Bgc),
        0x04 => Some(Opcode::Spr),
        0x05 => Some(Opcode::Drw),
        0x06 => Some(Opcode::Drw2),
        0x07 => Some(Opcode::Rnd),
        0x08 => Some(Opcode::Flip),
        0x09 => Some(Opcode::Snd0),
        0x0A => Some(Opcode::Snd1),
        0x0B => Some(Opcode::Snd2),
        0x0C => Some(Opcode::Snd3),
        0x0D => Some(Opcode::Snp),
        0x0E => Some(Opcode::Sng),
        0x10 => Some(Opcode::Jmp),
        0x11 => Some(Opcode::Jmc),
        0x12 => Some(Opcode::Jx),
        0x13 => Some(Opcode::Jme),
        0x14 => Some(Opcode::Call),
        0x15 => Some(Opcode::Ret),
        0x16 => Some(Opcode::Jmp2),
        0x17 => Some(Opcode::Cx),
        0x18 => Some(Opcode::Call2),
        0x20 => Some(Opcode::Ldi),
        0x21 => Some(Opcode::Ldi2),
        0x22 => Some(Opcode::Ldm),
        0x23 => Some(Opcode::Ldm2),
        0x24 => Some(Opcode::Mov),
        0x30 => Some(Opcode::Stm),
        0x31 => Some(Opcode::Stm2),
        0x40 => Some(Opcode::Addi),
        0x41 => Some(Opcode::Add),
        0x42 => Some(Opcode::Add2),
        0x50 => Some(Opcode::Subi),
        0x51 => Some(Opcode::Sub),
        0x52 => Some(Opcode::Sub2),
        0x53 => Some(Opcode::Cmpi),
        0x54 => Some(Opcode::Cmp),
        0x60 => Some(Opcode::Andi),
        0x61 => Some(Opcode::And),
        0x62 => Some(Opcode::And2),
        0x63 => Some(Opcode::Tsti),
        0x64 => Some(Opcode::Tst),
        0x70 => Some(Opcode::Ori),
        0x71 => Some(Opcode::Or),
        0x72 => Some(Opcode::Or2),
        0x80 => Some(Opcode::Xori),
        0x81 => Some(Opcode::Xor),
        0x82 => Some(Opcode::Xor2),
        0x90 => Some(Opcode::Muli),
        0x91 => Some(Opcode::Mul),
        0x92 => Some(Opcode::Mul2),
        0xA0 => Some(Opcode::Divi),
        0xA1 => Some(Opcode::Div),
        0xA2 => Some(Opcode::Div2),
        0xA3 => Some(Opcode::Modi),
        0xA4 => Some(Opcode::Mod),
        0xA5 => Some(Opcode::Mod2),
        0xA6 => Some(Opcode::Remi),
        0xA7 => Some(Opcode::Rem),
        0xA8 => Some(Opcode::Rem2),
        0xB0 => Some(Opcode::Shl),
        0xB1 => Some(Opcode::Shr),
        0xB2 => Some(Opcode::Sar),
        0xB3 => Some(Opcode::Shl2),
        0xB4 => Some(Opcode::Shr2),
        0xB5 => Some(Opcode::Sar2),
        0xC0 => Some(Opcode::Push),
        0xC1 => Some(Opcode::Pop),
        0xC2 => Some(Opcode::Pushall),
        0xC3 => Some(Opcode::Popall),
        0xC4 => Some(Opcode::Pushf),
        0xC5 => Some(Opcode::Popf),
        0xD0 => Some(Opcode::Pal),
        0xD1 => Some(Opcode::Pal2),
        0xE0 => Some(Opcode::Noti),
        0xE1 => Some(Opcode::Not),
        0xE2 => Some(Opcode::Not2),
        0xE3 => Some(Opcode::Negi),
        0xE4 => Some(Opcode::Neg),
        0xE5 => Some(Opcode::Neg2),
        _ => None,
    }
}

} // verus!
