//! The console state: registers, flags, stack, memory and graphics.
use vstd::prelude::*;
use crate::bytes::{unsigned16, unsigned8};
use crate::graphics::{blend, cell, on_screen, sprite_pixel, Chip16Graphics};
use crate::memory::Memory;
use crate::opcode::{executes, opcode_byte, to_opcode, Opcode};

verus! {

/// First address of the stack; code lives below it.
pub const STACK_BASE: u16 = 0xFDF0;

/// Address of the first controller's button mask.
pub const CONTROLLER1: usize = 0xFFF0;

/// Address of the second controller's button mask.
pub const CONTROLLER2: usize = 0xFFF2;

/// The register index that a byte operand names: its low four bits.
pub open spec fn reg_index(b: i8) -> int {
    unsigned8(b) % 16
}

/// What stops the console: a fatal condition met while executing.
#[derive(Clone, Copy, Debug, PartialEq, Eq, Structural)]
pub enum Chip16Error {
    /// The byte at the program counter encodes no opcode.
    InvalidOpcode(u8),
    /// The program counter reached the stack region or the end of memory.
    PcOutOfRange(u16),
    /// A conditional jump or call named no condition of the table.
    InvalidCondition(i8),
    /// A push would write past the end of memory.
    StackOverflow,
    /// A pop would read below address zero.
    StackUnderflow,
    /// A word or palette access would reach past the end of memory.
    AddressOutOfRange(u16),
    /// A division, modulo or remainder by zero.
    DivisionByZero,
    /// A random number was asked for below a bound of zero.
    EmptyRandomRange,
}

/// The four condition flags.
#[derive(Clone, Copy)]
pub struct Flags {
    pub carry: bool,
    pub zero: bool,
    pub overflow: bool,
    pub negative: bool,
}

impl Flags {
    /// The flag byte: Carry in bit 1, Zero in bit 2, Overflow in bit 6, Negative in bit 7.
    pub open spec fn bits(self) -> int {
        (if self.carry { 2int } else { 0 }) + (if self.zero { 4int } else { 0 }) + (if self.overflow {
            64int
        } else {
            0
        }) + (if self.negative { 128int } else { 0 })
    }

    /// The flags held by the low byte of a word's bit pattern.
    pub open spec fn from_bits(u: int) -> Flags {
        let b = u % 256;
        Flags {
            carry: (b / 2) % 2 == 1,
            zero: (b / 4) % 2 == 1,
            overflow: (b / 64) % 2 == 1,
            negative: (b / 128) % 2 == 1,
        }
    }

    /// The outcome of the fifteen branch conditions, by index.
    pub open spec fn condition(self, index: int) -> bool {
        let c = self.carry;
        let z = self.zero;
        let o = self.overflow;
        let n = self.negative;
        if index == 0 {
            z
        } else if index == 1 {
            !z
        } else if index == 2 {
            n
        } else if index == 3 {
            !n
        } else if index == 4 {
            !n && !z
        } else if index == 5 {
            o
        } else if index == 6 {
            !o
        } else if index == 7 {
            !c && !z
        } else if index == 8 {
            !c
        } else if index == 9 {
            c
        } else if index == 10 {
            c || z
        } else if index == 11 {
            o == n && !z
        } else if index == 12 {
            o == n
        } else if index == 13 {
            o != n
        } else {
            (o != n) || z
        }
    }
}

/// The whole console.
pub struct Cpu {
    pub pc: u16,
    pub sp: u16,
    pub rx: [i16; 16],
    pub flags: Flags,
    pub vblank: bool,
    pub graphics: Chip16Graphics,
    pub memory: Memory,
}

impl Cpu {
    /// The value of register `i`.
    pub open spec fn reg(self, i: int) -> i16 {
        self.rx@[i]
    }

    /// Everything but the registers and the flags is as in `s`.
    pub open spec fn same_but_regs_flags(self, s: Cpu) -> bool {
        &&& self.pc == s.pc
        &&& self.sp == s.sp
        &&& self.vblank == s.vblank
        &&& self.graphics == s.graphics
        &&& self.memory == s.memory
    }

    /// `self` is `s` with register `i` set to `v`.
    pub open spec fn sets_reg(self, s: Cpu, i: int, v: i16) -> bool {
        &&& self.same_but_regs_flags(s)
        &&& self.rx@ == s.rx@.update(i, v)
        &&& self.flags == s.flags
    }

    /// Pushing `word` onto the stack of `self` gives `next`.
    pub open spec fn pushes(self, next: Cpu, word: i16) -> bool {
        &&& next.sp == self.sp + 2
        &&& next.memory.word_at(self.sp as int) == word
        &&& next.memory@ == self.memory@.update(self.sp as int, next.memory@[self.sp as int]).update(
            self.sp + 1,
            next.memory@[self.sp + 1],
        )
        &&& next.pc == self.pc
        &&& next.rx == self.rx
        &&& next.flags == self.flags
        &&& next.vblank == self.vblank
        &&& next.graphics == self.graphics
    }

    /// Popping `word` off the stack of `self` gives `next`.
    pub open spec fn pops(self, next: Cpu, word: i16) -> bool {
        &&& next.sp == self.sp - 2
        &&& word == self.memory.word_at(self.sp - 2)
        &&& next.memory == self.memory
        &&& next.pc == self.pc
        &&& next.rx == self.rx
        &&& next.flags == self.flags
        &&& next.vblank == self.vblank
        &&& next.graphics == self.graphics
    }

    /// Pushing all sixteen registers, R0 first, onto the stack of `self` gives `next`.
    pub open spec fn pushes_all(self, next: Cpu) -> bool {
        &&& next.sp == self.sp + 32
        &&& forall|i: int| 0 <= i < 16 ==> #[trigger] next.memory.word_at(self.sp + 2 * i) == self.reg(i)
        &&& forall|a: int|
            0 <= a < 65536 && !(self.sp <= a < self.sp + 32) ==> #[trigger] next.memory@[a]
                == self.memory@[a]
        &&& next.pc == self.pc
        &&& next.rx == self.rx
        &&& next.flags == self.flags
        &&& next.vblank == self.vblank
        &&& next.graphics == self.graphics
    }

    /// Popping sixteen words off the stack of `self` into R15 down to R0 gives `next`.
    pub open spec fn pops_all(self, next: Cpu) -> bool {
        &&& next.sp == self.sp - 32
        &&& forall|i: int|
            0 <= i < 16 ==> #[trigger] next.reg(i) == self.memory.word_at(self.sp - 32 + 2 * i)
        &&& next.memory == self.memory
        &&& next.pc == self.pc
        &&& next.flags == self.flags
        &&& next.vblank == self.vblank
        &&& next.graphics == self.graphics
    }

    /// The palette colour whose three big-endian bytes start at `a`.
    pub open spec fn colour_at(self, a: int) -> u32 {
        (unsigned8(self.memory@[a]) * 65536 + unsigned8(self.memory@[a + 1]) * 256 + unsigned8(
            self.memory@[a + 2],
        )) as u32
    }

    /// Everything but the graphics draw state is as in `s`.
    pub open spec fn same_but_draw_state(self, s: Cpu) -> bool {
        &&& self.pc == s.pc
        &&& self.sp == s.sp
        &&& self.rx == s.rx
        &&& self.flags == s.flags
        &&& self.vblank == s.vblank
        &&& self.memory == s.memory
        &&& self.graphics.palette == s.graphics.palette
        &&& self.graphics.screen == s.graphics.screen
        &&& self.graphics.size == s.graphics.size
    }

    /// Drawing the current sprite at `(x, y)` from `addr` takes `self` to `next`:
    /// the screen takes the sprite's opaque pixels and Carry tells whether any
    /// of them landed on a cell that was not background.
    pub open spec fn draws(self, next: Cpu, sprite_x: i16, sprite_y: i16, sprite_address: i16) -> bool {
        &&& forall|px: int, py: int|
            on_screen(px, py) ==> #[trigger] cell(next.graphics.screen@, px, py) == blend(
                cell(self.graphics.screen@, px, py),
                sprite_pixel(
                    self.graphics.state,
                    self.memory@,
                    sprite_x,
                    sprite_y,
                    sprite_address,
                    px,
                    py,
                ),
            )
        &&& next.flags.carry == exists|px: int, py: int|
            on_screen(px, py) && sprite_pixel(
                self.graphics.state,
                self.memory@,
                sprite_x,
                sprite_y,
                sprite_address,
                px,
                py,
            ) != 0 && #[trigger] cell(self.graphics.screen@, px, py) != 0
        &&& next.flags.zero == self.flags.zero
        &&& next.flags.overflow == self.flags.overflow
        &&& next.flags.negative == self.flags.negative
        &&& next.graphics.state == self.graphics.state
        &&& next.graphics.palette == self.graphics.palette
        &&& next.graphics.size == self.graphics.size
        &&& next.pc == self.pc
        &&& next.sp == self.sp
        &&& next.rx == self.rx
        &&& next.vblank == self.vblank
        &&& next.memory == self.memory
    }

    /// Clearing takes `self` to `next`: background colour and framebuffer are
    /// zero, the rest of the draw state and the palette stay.
    pub open spec fn clears(self, next: Cpu) -> bool {
        &&& next.graphics.state.bg == 0
        &&& next.graphics.state.spritew == self.graphics.state.spritew
        &&& next.graphics.state.spriteh == self.graphics.state.spriteh
        &&& next.graphics.state.hflip == self.graphics.state.hflip
        &&& next.graphics.state.vflip == self.graphics.state.vflip
        &&& forall|i: int| 0 <= i < 76800 ==> next.graphics.screen@[i] == 0
        &&& next.graphics.palette == self.graphics.palette
        &&& next.graphics.size == self.graphics.size
        &&& next.pc == self.pc
        &&& next.sp == self.sp
        &&& next.rx == self.rx
        &&& next.flags == self.flags
        &&& next.vblank == self.vblank
        &&& next.memory == self.memory
    }

    /// Loading the palette from memory at `dir` takes `self` to `next`.
    pub open spec fn loads_palette(self, next: Cpu, dir: i16) -> bool {
        &&& forall|i: int|
            0 <= i < 16 ==> #[trigger] next.graphics.palette@[i] == self.colour_at(
                unsigned16(dir) + 3 * i,
            )
        &&& next.graphics.state == self.graphics.state
        &&& next.pc == self.pc
        &&& next.sp == self.sp
        &&& next.rx == self.rx
        &&& next.flags == self.flags
        &&& next.vblank == self.vblank
        &&& next.memory == self.memory
        &&& next.graphics.screen == self.graphics.screen
        &&& next.graphics.size == self.graphics.size
    }

    /// One fetch-decode-execute step takes `self` to `next` with result `r`.
    ///
    /// The program counter must lie below the stack; the byte there must encode
    /// an opcode. The counter moves past the four instruction bytes before the
    /// instruction acts.
    pub open spec fn steps(self, next: Cpu, r: Result<(), Chip16Error>) -> bool {
        let pc = self.pc as int;
        if self.pc >= STACK_BASE {
            r == Err::<(), Chip16Error>(Chip16Error::PcOutOfRange(self.pc)) && next == self
        } else if forall|op: Opcode| opcode_byte(op) != unsigned8(self.memory@[pc]) {
            r == Err::<(), Chip16Error>(Chip16Error::InvalidOpcode(unsigned8(self.memory@[pc]) as u8))
                && next == self
        } else {
            exists|op: Opcode|
                #[trigger] opcode_byte(op) == unsigned8(self.memory@[pc]) && executes(
                    op,
                    self.memory@[pc + 1],
                    self.memory@[pc + 2],
                    self.memory@[pc + 3],
                    Cpu { pc: (self.pc + 4) as u16, ..self },
                    next,
                    r,
                )
        }
    }

    /// A console at power-on with empty memory and native-size graphics.
    pub fn new_test() -> (r: Cpu)
        ensures
            r.pc == 0,
            r.sp == STACK_BASE,
            forall|i: int| 0 <= i < 16 ==> r.reg(i) == 0,
            r.flags.bits() == 0,
            !r.vblank,
            r.graphics.is_blank(),
            r.graphics.size == 1,
            forall|i: int| 0 <= i < 65536 ==> r.memory@[i] == 0,
    {
        Cpu {
            pc: 0,
            sp: STACK_BASE,
            rx: [0; 16],
            flags: Flags { carry: false, zero: false, overflow: false, negative: false },
            vblank: false,
            graphics: Chip16Graphics::new_test(),
            memory: Memory::new(),
        }
    }

    pub fn get_rx(&self, rx: i8) -> (r: i16)
        ensures
            r == self.reg(reg_index(rx)),
    {
        self.rx[reg_index_of(rx)]
    }

    pub fn set_rx(&mut self, rx: i8, value: i16)
        ensures
            final(self).sets_reg(*old(self), reg_index(rx), value),
    {
        let i = reg_index_of(rx);
        self.rx[i] = value;
    }

    /// Writes `word` at the stack pointer and moves it up by two.
    pub fn push_stack(&mut self, word: i16)
        requires
            old(self).sp <= 0xFFFD,
        ensures
            old(self).pushes(*final(self), word),
    {
        self.memory.write_word(self.sp as usize, word);
        self.sp = self.sp + 2;
    }

    /// Moves the stack pointer down by two and reads the word there.
    pub fn pop_stack(&mut self) -> (r: i16)
        requires
            old(self).sp >= 2,
        ensures
            old(self).pops(*final(self), r),
    {
        self.sp = self.sp - 2;
        self.memory.read_word(self.sp as usize)
    }

    /// Pushes R0 to R15, in that order.
    pub fn pushall(&mut self)
        requires
            old(self).sp <= 0xFFDF,
        ensures
            old(self).pushes_all(*final(self)),
    {
        let ghost s0 = *self;
        let regs = self.rx;
        let mut i: usize = 0;
        while i < 16
            invariant
                i <= 16,
                regs == s0.rx,
                s0.sp <= 0xFFDF,
                self.sp == s0.sp + 2 * i,
                forall|j: int| 0 <= j < i ==> #[trigger] self.memory.word_at(s0.sp + 2 * j) == s0.reg(j),
                forall|a: int|
                    0 <= a < 65536 && !(s0.sp <= a < s0.sp + 2 * i) ==> #[trigger] self.memory@[a]
                        == s0.memory@[a],
                self.pc == s0.pc,
                self.rx == s0.rx,
                self.flags == s0.flags,
                self.vblank == s0.vblank,
                self.graphics == s0.graphics,
            decreases 16 - i,
        {
            let ghost before = self.memory;
            self.push_stack(regs[i]);
            assert forall|j: int| 0 <= j < i + 1 implies #[trigger] self.memory.word_at(s0.sp + 2 * j)
                == s0.reg(j) by {
                if j < i {
                    assert(before.word_at(s0.sp + 2 * j) == s0.reg(j));
                }
            }
            i = i + 1;
        }
    }

    /// Pops sixteen words into R15 down to R0, undoing `pushall`.
    pub fn popall(&mut self)
        requires
            old(self).sp >= 32,
        ensures
            old(self).pops_all(*final(self)),
    {
        let ghost s0 = *self;
        let mut i: i8 = 0;
        while i < 16
            invariant
                0 <= i <= 16,
                s0.sp >= 32,
                self.sp == s0.sp - 2 * i,
                forall|k: int|
                    16 - i <= k < 16 ==> #[trigger] self.reg(k) == s0.memory.word_at(s0.sp - 32 + 2 * k),
                self.memory == s0.memory,
                self.pc == s0.pc,
                self.flags == s0.flags,
                self.vblank == s0.vblank,
                self.graphics == s0.graphics,
            decreases 16 - i,
        {
            let ghost before = *self;
            let val = self.pop_stack();
            self.set_rx(15 - i, val);
            assert(reg_index((15 - i) as i8) == 15 - i);
            assert forall|k: int| 16 - (i + 1) <= k < 16 implies #[trigger] self.reg(k)
                == s0.memory.word_at(s0.sp - 32 + 2 * k) by {
                if k != 15 - i {
                    assert(before.reg(k) == s0.memory.word_at(s0.sp - 32 + 2 * k));
                }
            }
            i = i + 1;
        }
    }

    /// Pushes the flag byte as a zero-extended word.
    pub fn pushf(&mut self)
        requires
            old(self).sp <= 0xFFFD,
        ensures
            old(self).pushes(*final(self), old(self).flags.bits() as i16),
    {
        let f = self.flags;
        let mut value: i16 = 0;
        if f.carry {
            value = value + 2;
        }
        if f.zero {
            value = value + 4;
        }
        if f.overflow {
            value = value + 64;
        }
        if f.negative {
            value = value + 128;
        }
        self.push_stack(value);
    }

    /// Pops a word and takes the flags from its low byte.
    pub fn popf(&mut self)
        requires
            old(self).sp >= 2,
        ensures
            final(self).sp == old(self).sp - 2,
            final(self).flags == Flags::from_bits(
                unsigned16(old(self).memory.word_at(old(self).sp - 2)),
            ),
            final(self).memory == old(self).memory,
            final(self).pc == old(self).pc,
            final(self).rx == old(self).rx,
            final(self).vblank == old(self).vblank,
            final(self).graphics == old(self).graphics,
    {
        let value = self.pop_stack();
        let u: i32 = if value < 0 {
            value as i32 + 65536
        } else {
            value as i32
        };
        let b = u % 256;
        self.flags = Flags {
            carry: (b / 2) % 2 == 1,
            zero: (b / 4) % 2 == 1,
            overflow: (b / 64) % 2 == 1,
            negative: (b / 128) % 2 == 1,
        };
    }

    /// Reads the sixteen palette colours, three big-endian bytes each, from memory at `dir`.
    pub fn load_pal(&mut self, dir: i16)
        requires
            unsigned16(dir) + 48 <= 65536,
        ensures
            old(self).loads_palette(*final(self), dir),
    {
        let base: usize = if dir < 0 {
            (dir as i32 + 65536) as usize
        } else {
            dir as usize
        };
        let mut i: usize = 0;
        while i < 16
            invariant
                i <= 16,
                base == unsigned16(dir),
                base + 48 <= 65536,
                forall|j: int|
                    0 <= j < i ==> #[trigger] self.graphics.palette@[j] == old(self).colour_at(
                        base + 3 * j,
                    ),
                self.graphics.state == old(self).graphics.state,
                self.pc == old(self).pc,
                self.sp == old(self).sp,
                self.rx == old(self).rx,
                self.flags == old(self).flags,
                self.vblank == old(self).vblank,
                self.memory == old(self).memory,
                self.graphics.screen == old(self).graphics.screen,
                self.graphics.size == old(self).graphics.size,
            decreases 16 - i,
        {
            let hi = unsigned_byte(self.memory.read_byte(base + i * 3));
            let mid = unsigned_byte(self.memory.read_byte(base + i * 3 + 1));
            let lo = unsigned_byte(self.memory.read_byte(base + i * 3 + 2));
            self.graphics.palette[i] = hi * 65536 + mid * 256 + lo;
            i = i + 1;
        }
    }

    /// Draws the current sprite and sets Carry to whether it hit a drawn pixel.
    pub fn drw(&mut self, sprite_x: i16, sprite_y: i16, sprite_address: i16)
        ensures
            old(self).draws(*final(self), sprite_x, sprite_y, sprite_address),
    {
        let carry = self.graphics.drw(&self.memory, sprite_x, sprite_y, sprite_address);
        self.flags.carry = carry;
    }

    /// Clears the background colour and the framebuffer.
    pub fn clear_fg_bg(&mut self)
        ensures
            old(self).clears(*final(self)),
    {
        self.graphics.clear()
    }

    pub fn set_bg(&mut self, byte: u8)
        ensures
            final(self).graphics.state.bg == byte,
            final(self).graphics.state.spritew == old(self).graphics.state.spritew,
            final(self).graphics.state.spriteh == old(self).graphics.state.spriteh,
            final(self).graphics.state.hflip == old(self).graphics.state.hflip,
            final(self).graphics.state.vflip == old(self).graphics.state.vflip,
            final(self).same_but_draw_state(*old(self)),
    {
        self.graphics.set_bg(byte);
    }

    /// Sets the sprite width (in bytes) and height (in rows).
    pub fn set_spr_wh(&mut self, ll: u8, hh: u8)
        ensures
            final(self).graphics.state.spritew == ll,
            final(self).graphics.state.spriteh == hh,
            final(self).graphics.state.bg == old(self).graphics.state.bg,
            final(self).graphics.state.hflip == old(self).graphics.state.hflip,
            final(self).graphics.state.vflip == old(self).graphics.state.vflip,
            final(self).same_but_draw_state(*old(self)),
    {
        self.graphics.state.spritew = ll;
        self.graphics.state.spriteh = hh;
    }

    pub fn flip(&mut self, hor: bool, ver: bool)
        ensures
            final(self).graphics.state.hflip == hor,
            final(self).graphics.state.vflip == ver,
            final(self).graphics.state.bg == old(self).graphics.state.bg,
            final(self).graphics.state.spritew == old(self).graphics.state.spritew,
            final(self).graphics.state.spriteh == old(self).graphics.state.spriteh,
            final(self).same_but_draw_state(*old(self)),
    {
        self.graphics.state.hflip = hor;
        self.graphics.state.vflip = ver;
    }

    /// Fetches the instruction at the program counter, moves the counter past
    /// it and executes it.
    pub fn step(&mut self) -> (r: Result<(), Chip16Error>)
        ensures
            old(self).steps(*final(self), r),
    {
        if self.pc >= STACK_BASE {
            return Err(Chip16Error::PcOutOfRange(self.pc));
        }
        let pc = self.pc as usize;
        let byte = self.memory.read_byte(pc);
        let op = match to_opcode(byte) {
            Some(op) => op,
            None => {
                return Err(Chip16Error::InvalidOpcode(unsigned_byte(byte) as u8));
            },
        };
        let byte1 = self.memory.read_byte(pc + 1);
        let byte2 = self.memory.read_byte(pc + 2);
        let byte3 = self.memory.read_byte(pc + 3);
        self.pc = self.pc + 4;
        let ghost fetched = *self;
        let r = op.execute(self, byte1, byte2, byte3);
        assert(executes(op, byte1, byte2, byte3, fetched, *self, r));
        r
    }

    /// Writes an instruction at the program counter and moves the counter past it.
    pub fn add_opcode(&mut self, op: Opcode, byte1: i8, byte2: i8, byte3: i8)
        requires
            old(self).pc <= 0xFFFB,
        ensures
            final(self).memory@ == old(self).memory@.update(
                old(self).pc as int,
                final(self).memory@[old(self).pc as int],
            ).update(old(self).pc + 1, byte1).update(old(self).pc + 2, byte2).update(
                old(self).pc + 3,
                byte3,
            ),
            unsigned8(final(self).memory@[old(self).pc as int]) == opcode_byte(op),
            final(self).pc == old(self).pc + 4,
            final(self).sp == old(self).sp,
            final(self).rx == old(self).rx,
            final(self).flags == old(self).flags,
            final(self).vblank == old(self).vblank,
            final(self).graphics == old(self).graphics,
    {
        let pc = self.pc as usize;
        let b = op.to_byte();
        let code: i8 = if b >= 128 {
            (b as i16 - 256) as i8
        } else {
            b as i8
        };
        self.memory.write_byte(pc, code);
        self.memory.write_byte(pc + 1, byte1);
        self.memory.write_byte(pc + 2, byte2);
        self.memory.write_byte(pc + 3, byte3);
        self.pc = pc as u16 + 4;
    }

    /// Restarts at address 0 and runs `instructions_to_execute` steps, stopping
    /// at the first error.
    pub fn start_test(&mut self, instructions_to_execute: i8) -> (r: Result<(), Chip16Error>)
        ensures
            r is Ok ==> exists|trace: Seq<Cpu>|
                #[trigger] steps_through(trace) && trace.len() == (if instructions_to_execute > 0 {
                    instructions_to_execute as int
                } else {
                    0
                }) + 1 && trace[0] == (Cpu { pc: 0, ..*old(self) }) && trace.last() == *final(self),
            r is Err ==> exists|trace: Seq<Cpu>|
                #[trigger] steps_through(trace) && 1 <= trace.len() <= instructions_to_execute
                    && trace[0] == (Cpu { pc: 0, ..*old(self) }) && trace.last().steps(*final(self), r),
    {
        self.pc = 0;
        let ghost mut trace: Seq<Cpu> = seq![*self];
        let mut i: i8 = 0;
        while i < instructions_to_execute
            invariant
                0 <= i,
                instructions_to_execute > 0 ==> i <= instructions_to_execute,
                instructions_to_execute <= 0 ==> i == 0,
                trace.len() == i + 1,
                trace[0] == (Cpu { pc: 0, ..*old(self) }),
                trace.last() == *self,
                steps_through(trace),
            decreases instructions_to_execute - i,
        {
            let ghost before = *self;
            let r = self.step();
            if r.is_err() {
                return r;
            }
            proof {
                let next = trace.push(*self);
                assert forall|j: int| 0 <= j < next.len() - 1 implies #[trigger] next[j].steps(
                    next[j + 1],
                    Ok(()),
                ) by {
                    if j < trace.len() - 1 {
                        assert(trace[j].steps(trace[j + 1], Ok(())));
                    }
                }
                trace = next;
            }
            i = i + 1;
        }
        Ok(())
    }

    pub fn has_carry(&self) -> (r: bool)
        ensures
            r == self.flags.carry,
    {
        self.flags.carry
    }

    pub fn has_zero(&self) -> (r: bool)
        ensures
            r == self.flags.zero,
    {
        self.flags.zero
    }

    pub fn has_overflow(&self) -> (r: bool)
        ensures
            r == self.flags.overflow,
    {
        self.flags.overflow
    }

    pub fn has_negative(&self) -> (r: bool)
        ensures
            r == self.flags.negative,
    {
        self.flags.negative
    }

    pub fn put_carry(&mut self, new_state: bool)
        ensures
            final(self).flags.carry == new_state,
            final(self).flags.zero == old(self).flags.zero,
            final(self).flags.overflow == old(self).flags.overflow,
            final(self).flags.negative == old(self).flags.negative,
            final(self).same_but_regs_flags(*old(self)),
            final(self).rx == old(self).rx,
    {
        self.flags.carry = new_state;
    }

    pub fn put_zero(&mut self, new_state: bool)
        ensures
            final(self).flags.zero == new_state,
            final(self).flags.carry == old(self).flags.carry,
            final(self).flags.overflow == old(self).flags.overflow,
            final(self).flags.negative == old(self).flags.negative,
            final(self).same_but_regs_flags(*old(self)),
            final(self).rx == old(self).rx,
    {
        self.flags.zero = new_state;
    }

    pub fn put_overflow(&mut self, new_state: bool)
        ensures
            final(self).flags.overflow == new_state,
            final(self).flags.carry == old(self).flags.carry,
            final(self).flags.zero == old(self).flags.zero,
            final(self).flags.negative == old(self).flags.negative,
            final(self).same_but_regs_flags(*old(self)),
            final(self).rx == old(self).rx,
    {
        self.flags.overflow = new_state;
    }

    pub fn put_negative(&mut self, new_state: bool)
        ensures
            final(self).flags.negative == new_state,
            final(self).flags.carry == old(self).flags.carry,
            final(self).flags.zero == old(self).flags.zero,
            final(self).flags.overflow == old(self).flags.overflow,
            final(self).same_but_regs_flags(*old(self)),
            final(self).rx == old(self).rx,
    {
        self.flags.negative = new_state;
    }

    /// Evaluates branch condition `index`, one of the fifteen of the condition table.
    pub fn check_flags(&self, index: i8) -> (r: bool)
        requires
            0 <= index <= 14,
        ensures
            r == self.flags.condition(index as int),
    {
        let c = self.has_carry();
        let z = self.has_zero();
        let o = self.has_overflow();
        let n = self.has_negative();
        match index {
            0 => z,
            1 => !z,
            2 => n,
            3 => !n,
            4 => !n && !z,
            5 => o,
            6 => !o,
            7 => !c && !z,
            8 => !c,
            9 => c,
            0xA => c || z,
            0xB => (o == n) && !z,
            0xC => o == n,
            0xD => o != n,
            _ => (o != n) || z,
        }
    }
}

/// Each state of `trace` is one successful step after the state before it.
pub open spec fn steps_through(trace: Seq<Cpu>) -> bool {
    forall|j: int| 0 <= j < trace.len() - 1 ==> #[trigger] trace[j].steps(trace[j + 1], Ok(()))
}

/// The unsigned value of a byte, widened.
pub fn unsigned_byte(b: i8) -> (r: u32)
    ensures
        r == unsigned8(b),
{
    if b < 0 {
        (b as i32 + 256) as u32
    } else {
        b as u32
    }
}

/// The memory address that a word names.
pub fn address_of(w: i16) -> (r: usize)
    ensures
        r == unsigned16(w),
        r < 65536,
{
    if w < 0 {
        (w as i32 + 65536) as usize
    } else {
        w as usize
    }
}

/// The register index that a byte operand names.
pub fn reg_index_of(b: i8) -> (r: usize)
    ensures
        r == reg_index(b),
        r < 16,
{
    let u: i32 = if b < 0 {
        b as i32 + 256
    } else {
        b as i32
    };
    (u % 16) as usize
}

} // verus!
