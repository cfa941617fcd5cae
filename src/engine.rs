//! Frame pacing: one step per microsecond of emulated time, a vertical blank
//! every 1/60 s, and the controllers read once per frame.
use vstd::prelude::*;
use crate::bytes::signed16;
use crate::cpu::{Chip16Error, Cpu, CONTROLLER1, CONTROLLER2};

verus! {

/// Microseconds in one frame at 60 Hz.
pub const FRAME_MICROS: u64 = 16666;

/// Time accumulated toward the next frame.
pub struct FrameClock {
    pub vblank_dt: u64,
}

impl FrameClock {
    pub fn new() -> (r: FrameClock)
        ensures
            r.vblank_dt == 0,
    {
        FrameClock { vblank_dt: 0 }
    }
}

/// A button of a controller.
#[derive(Clone, Copy, Debug, PartialEq, Eq, Structural)]
pub enum Pad {
    Up,
    Down,
    Left,
    Right,
    Select,
    Start,
    A,
    B,
}

/// The bit of a button in a controller's mask.
pub open spec fn pad_mask(p: Pad) -> u16 {
    match p {
        Pad::Up => 1,
        Pad::Down => 2,
        Pad::Left => 4,
        Pad::Right => 8,
        Pad::Select => 16,
        Pad::Start => 32,
        Pad::A => 64,
        Pad::B => 128,
    }
}

impl Pad {
    pub fn mask(&self) -> (r: u16)
        ensures
            r == pad_mask(*self),
    {
        match *self {
            Pad::Up => 1,
            Pad::Down => 2,
            Pad::Left => 4,
            Pad::Right => 8,
            Pad::Select => 16,
            Pad::Start => 32,
            Pad::A => 64,
            Pad::B => 128,
        }
    }

    /// The controller mask with this button held down.
    pub fn press(&self, state: u16) -> (r: u16)
        ensures
            r == state | pad_mask(*self),
    {
        state | self.mask()
    }

    /// The controller mask with this button let go.
    pub fn release(&self, state: u16) -> (r: u16)
        ensures
            r == state & !pad_mask(*self),
    {
        state & !self.mask()
    }
}

/// One tick of emulated time takes `s` to `t`: a step that went well, then the
/// vertical-blank flag cleared.
pub open spec fn ticks(s: Cpu, t: Cpu) -> bool {
    exists|mid: Cpu| #[trigger] s.steps(mid, Ok(())) && t == (Cpu { vblank: false, ..mid })
}

/// Each state of `trace` is one tick after the state before it.
pub open spec fn ticks_through(trace: Seq<Cpu>) -> bool {
    forall|j: int| 0 <= j < trace.len() - 1 ==> #[trigger] ticks(trace[j], trace[j + 1])
}

impl Cpu {
    /// Emulated time advanced by `micros` microseconds. Unless a frame is
    /// already due, runs one step per microsecond, clearing the vertical-blank
    /// flag after each, and adds the time to the clock; it stops at the first
    /// error, leaving the clock as it was.
    pub fn update(&mut self, clock: &mut FrameClock, micros: u64) -> (r: Result<(), Chip16Error>)
        ensures
            old(clock).vblank_dt >= FRAME_MICROS ==> r is Ok && *final(self) == *old(self)
                && final(clock).vblank_dt == old(clock).vblank_dt,
            old(clock).vblank_dt < FRAME_MICROS && r is Ok ==> {
                &&& final(clock).vblank_dt == if old(clock).vblank_dt + micros > u64::MAX {
                    u64::MAX as int
                } else {
                    old(clock).vblank_dt + micros
                }
                &&& exists|trace: Seq<Cpu>|
                    #[trigger] ticks_through(trace) && trace.len() == micros + 1 && trace[0]
                        == *old(self) && trace.last() == *final(self)
            },
            old(clock).vblank_dt < FRAME_MICROS && r is Err ==> exists|trace: Seq<Cpu>|
                #[trigger] ticks_through(trace) && 1 <= trace.len() <= micros && trace[0] == *old(self)
                    && trace.last().steps(*final(self), r),
            r is Err ==> final(clock).vblank_dt == old(clock).vblank_dt,
    {
        if clock.vblank_dt >= FRAME_MICROS {
            return Ok(());
        }
        let ghost mut trace: Seq<Cpu> = seq![*self];
        let mut i: u64 = 0;
        while i < micros
            invariant
                i <= micros,
                clock.vblank_dt == old(clock).vblank_dt,
                clock.vblank_dt < FRAME_MICROS,
                trace.len() == i + 1,
                trace[0] == *old(self),
                trace.last() == *self,
                ticks_through(trace),
            decreases micros - i,
        {
            let ghost before = *self;
            let r = self.step();
            if r.is_err() {
                return r;
            }
            let ghost mid = *self;
            self.vblank = false;
            proof {
                assert(ticks(before, *self)) by {
                    assert(before.steps(mid, Ok(())));
                }
                let next = trace.push(*self);
                assert forall|j: int| 0 <= j < next.len() - 1 implies #[trigger] ticks(next[j], next[j + 1]) by {
                    if j < trace.len() - 1 {
                        assert(ticks(trace[j], trace[j + 1]));
                    }
                }
                trace = next;
            }
            i = i + 1;
        }
        clock.vblank_dt = clock.vblank_dt.saturating_add(micros);
        Ok(())
    }

    /// Ends a frame if one is due: raises the vertical-blank flag, takes one
    /// frame off the clock and stores the two controller masks; tells whether
    /// the screen is to be presented.
    pub fn end_frame(&mut self, clock: &mut FrameClock, controller1: u16, controller2: u16) -> (r: bool)
        ensures
            r == (old(clock).vblank_dt >= FRAME_MICROS),
            !r ==> *final(self) == *old(self) && final(clock).vblank_dt == old(clock).vblank_dt,
            r ==> {
                &&& final(self).vblank
                &&& final(clock).vblank_dt == old(clock).vblank_dt - FRAME_MICROS
                &&& final(self).memory.word_at(CONTROLLER1 as int) == signed16(controller1 as int)
                &&& final(self).memory.word_at(CONTROLLER2 as int) == signed16(controller2 as int)
                &&& forall|a: int|
                    0 <= a < 65536 && !(CONTROLLER1 <= a < CONTROLLER2 + 2) ==> #[trigger] final(self).memory@[a]
                        == old(self).memory@[a]
                &&& final(self).pc == old(self).pc
                &&& final(self).sp == old(self).sp
                &&& final(self).rx == old(self).rx
                &&& final(self).flags == old(self).flags
                &&& final(self).graphics == old(self).graphics
            },
    {
        if clock.vblank_dt < FRAME_MICROS {
            return false;
        }
        self.vblank = true;
        clock.vblank_dt = clock.vblank_dt - FRAME_MICROS;
        self.memory.write_word(CONTROLLER1, crate::alu::word_from_unsigned(controller1 as u32));
        self.memory.write_word(CONTROLLER2, crate::alu::word_from_unsigned(controller2 as u32));
        true
    }
}

} // verus!
