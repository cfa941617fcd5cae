//! Palette, draw state, the 320x240 framebuffer and the sprite blitter.
use vstd::prelude::*;
use crate::bytes::{unsigned16, unsigned8};
use crate::memory::Memory;

verus! {

/// Width of the screen in pixels.
pub const SCREEN_WIDTH: u32 = 320;

/// Height of the screen in pixels.
pub const SCREEN_HEIGHT: u32 = 240;

/// Number of cells of the framebuffer.
pub const SCREEN_CELLS: usize = 76800;

/// The draw state: background colour, sprite size and flips.
pub struct StateRegister {
    pub bg: u8,
    /// Width of a sprite in bytes; each byte covers two screen pixels.
    pub spritew: u8,
    /// Height of a sprite in rows.
    pub spriteh: u8,
    pub hflip: bool,
    pub vflip: bool,
}

impl StateRegister {
    pub fn new() -> (r: StateRegister)
        ensures
            r.bg == 0 && r.spritew == 0 && r.spriteh == 0 && !r.hflip && !r.vflip,
    {
        StateRegister { bg: 0, spritew: 0, spriteh: 0, hflip: false, vflip: false }
    }

    /// Resets the background colour.
    pub fn clear(&mut self)
        ensures
            final(self).bg == 0,
            final(self).spritew == old(self).spritew,
            final(self).spriteh == old(self).spriteh,
            final(self).hflip == old(self).hflip,
            final(self).vflip == old(self).vflip,
    {
        self.bg = 0;
    }
}

/// The colour cell of the screen at column `px` and row `py`.
pub open spec fn cell(screen: Seq<u8>, px: int, py: int) -> u8 {
    screen[py * 320 + px]
}

/// Whether `(px, py)` lies on the screen.
pub open spec fn on_screen(px: int, py: int) -> bool {
    0 <= px < 320 && 0 <= py < 240
}

/// The palette index that a sprite puts at offset `(dx, dy)` from its top-left
/// corner, 0 where it is transparent or does not reach.
///
/// Each sprite byte covers two screen pixels, high nibble on the left. A
/// horizontal flip mirrors the columns and swaps the two nibbles of a byte; a
/// vertical flip mirrors the rows. Source bytes are read at 16-bit addresses.
pub open spec fn sprite_nibble(state: StateRegister, mem: Seq<i8>, addr: i16, dx: int, dy: int) -> u8 {
    let w = state.spritew as int;
    let h = state.spriteh as int;
    if 0 <= dx < 2 * w && 0 <= dy < h {
        let col = dx / 2;
        let c = if state.hflip {
            w - 1 - col
        } else {
            col
        };
        let r = if state.vflip {
            h - 1 - dy
        } else {
            dy
        };
        let b = unsigned8(mem[(unsigned16(addr) + r * w + c) % 65536]);
        if (dx % 2 == 0) != state.hflip {
            (b / 16) as u8
        } else {
            (b % 16) as u8
        }
    } else {
        0
    }
}

/// The palette index that a sprite drawn at `(x, y)` puts at screen position `(px, py)`.
pub open spec fn sprite_pixel(
    state: StateRegister,
    mem: Seq<i8>,
    x: i16,
    y: i16,
    addr: i16,
    px: int,
    py: int,
) -> u8 {
    sprite_nibble(state, mem, addr, px - x, py - y)
}

/// A cell after a draw: opaque sprite pixels replace it, transparent ones leave it.
pub open spec fn blend(old: u8, p: u8) -> u8 {
    if p != 0 {
        p
    } else {
        old
    }
}

/// The colour shown for framebuffer cell `i`: the background colour for
/// index 0, else the palette entry of the index.
pub open spec fn shown_colour(g: Chip16Graphics, i: int) -> u32 {
    if g.screen@[i] == 0 {
        g.palette@[g.state.bg as int % 16]
    } else {
        g.palette@[g.screen@[i] as int % 16]
    }
}

/// Byte `k` of the frame as RGBA: red, green, blue and an opaque alpha for each cell.
pub open spec fn rgba_byte(g: Chip16Graphics, k: int) -> u8 {
    let c = shown_colour(g, k / 4);
    let ch = k % 4;
    if ch == 0 {
        ((c / 0x10000) % 256) as u8
    } else if ch == 1 {
        ((c / 0x100) % 256) as u8
    } else if ch == 2 {
        (c % 256) as u8
    } else {
        255
    }
}

/// The console's graphics: draw state, 16-entry RGB palette and framebuffer.
pub struct Chip16Graphics {
    pub state: StateRegister,
    pub palette: [u32; 16],
    /// 320x240 palette indices, row by row; index 0 is the background.
    pub screen: [u8; 76800],
    /// Scale factor of the presented picture.
    pub size: u32,
}

/// The palette at power-on.
pub open spec fn default_palette() -> Seq<u32> {
    seq![
        0x000000u32, 0x000000, 0x888888, 0xBF3932, 0xDE7AAE, 0x4C3D21, 0x905F25, 0xE49452,
        0xEAD979, 0x537A3B, 0xABD54A, 0x252E38, 0x00467F, 0x68ABCC, 0xBCDEE4, 0xFFFFFF,
    ]
}

impl Chip16Graphics {
    pub open spec fn is_blank(self) -> bool {
        &&& self.state.bg == 0
        &&& self.state.spritew == 0
        &&& self.state.spriteh == 0
        &&& !self.state.hflip
        &&& !self.state.vflip
        &&& self.palette@ == default_palette()
        &&& forall|i: int| 0 <= i < 76800 ==> self.screen@[i] == 0
    }

    /// Graphics at power-on, presented at `multiplier` times the native size.
    pub fn new(multiplier: u32) -> (r: Chip16Graphics)
        ensures
            r.is_blank(),
            r.size == multiplier,
    {
        let palette: [u32; 16] = [
            0x000000, 0x000000, 0x888888, 0xBF3932, 0xDE7AAE, 0x4C3D21, 0x905F25, 0xE49452,
            0xEAD979, 0x537A3B, 0xABD54A, 0x252E38, 0x00467F, 0x68ABCC, 0xBCDEE4, 0xFFFFFF,
        ];
        let r = Chip16Graphics {
            state: StateRegister::new(),
            palette,
            screen: [0; 76800],
            size: multiplier,
        };
        assert(r.palette@ =~= default_palette());
        r
    }

    /// Graphics at power-on at native size.
    pub fn new_test() -> (r: Chip16Graphics)
        ensures
            r.is_blank(),
            r.size == 1,
    {
        Chip16Graphics::new(1)
    }

    /// Resets the background colour and blanks the framebuffer; the palette stays.
    pub fn clear(&mut self)
        ensures
            final(self).state.bg == 0,
            final(self).state.spritew == old(self).state.spritew,
            final(self).state.spriteh == old(self).state.spriteh,
            final(self).state.hflip == old(self).state.hflip,
            final(self).state.vflip == old(self).state.vflip,
            final(self).palette == old(self).palette,
            final(self).size == old(self).size,
            forall|i: int| 0 <= i < 76800 ==> final(self).screen@[i] == 0,
    {
        self.state.clear();
        let mut i: usize = 0;
        while i < 76800
            invariant
                i <= 76800,
                self.state.bg == 0,
                self.state.spritew == old(self).state.spritew,
                self.state.spriteh == old(self).state.spriteh,
                self.state.hflip == old(self).state.hflip,
                self.state.vflip == old(self).state.vflip,
                self.palette == old(self).palette,
                self.size == old(self).size,
                forall|j: int| 0 <= j < i ==> self.screen@[j] == 0,
            decreases 76800 - i,
        {
            self.screen[i] = 0;
            i = i + 1;
        }
    }

    /// Whether a sprite drawn at `(x, y)` has pixel `(px, py)` drawn after
    /// `rows` full rows and `cols` columns of the next row.
    pub open spec fn drawn_so_far(x: i16, y: i16, rows: int, cols: int, px: int, py: int) -> bool {
        let dx = px - x;
        let dy = py - y;
        0 <= dy < rows || (dy == rows && dx < cols)
    }

    /// The palette index at offset `(dx, dy)` of the current sprite at `addr`.
    fn nibble_at(&self, mem: &Memory, addr: i16, dx: u32, dy: u32) -> (r: u8)
        requires
            dx < 2 * self.state.spritew,
            dy < self.state.spriteh,
        ensures
            r == sprite_nibble(self.state, mem@, addr, dx as int, dy as int),
    {
        let w = self.state.spritew as u32;
        let h = self.state.spriteh as u32;
        let col = dx / 2;
        let c = if self.state.hflip {
            w - 1 - col
        } else {
            col
        };
        let r = if self.state.vflip {
            h - 1 - dy
        } else {
            dy
        };
        assert(r * w <= 255 * 255) by (nonlinear_arith)
            requires
                r < h <= 255,
                w <= 255,
        ;
        let base: u32 = if addr < 0 {
            (addr as i32 + 65536) as u32
        } else {
            addr as u32
        };
        let index = ((base + r * w + c) % 65536) as usize;
        let byte = mem.read_byte(index);
        let b: u32 = if byte < 0 {
            (byte as i32 + 256) as u32
        } else {
            byte as u32
        };
        if (dx % 2 == 0) != self.state.hflip {
            (b / 16) as u8
        } else {
            (b % 16) as u8
        }
    }

    /// Whether pixel `(px, py)` is among the first `rows` rows and `cols`
    /// columns drawn, is opaque, and lands on a cell that was not background.
    pub open spec fn hits_so_far(
        state: StateRegister,
        mem: Seq<i8>,
        x: i16,
        y: i16,
        addr: i16,
        screen: Seq<u8>,
        rows: int,
        cols: int,
        px: int,
        py: int,
    ) -> bool {
        &&& on_screen(px, py)
        &&& Self::drawn_so_far(x, y, rows, cols, px, py)
        &&& sprite_pixel(state, mem, x, y, addr, px, py) != 0
        &&& cell(screen, px, py) != 0
    }

    /// Draws the current sprite from memory at `spr_address` with its top-left
    /// corner at `(spr_x, spr_y)`, and tells whether it hit a drawn pixel.
    ///
    /// Opaque sprite pixels that fall on the screen replace what was there;
    /// transparent ones and those off the screen are skipped. The result is
    /// true exactly when some replaced cell was not background before.
    pub fn drw(&mut self, mem: &Memory, spr_x: i16, spr_y: i16, spr_address: i16) -> (hit: bool)
        ensures
            forall|px: int, py: int|
                on_screen(px, py) ==> #[trigger] cell(final(self).screen@, px, py) == blend(
                    cell(old(self).screen@, px, py),
                    sprite_pixel(old(self).state, mem@, spr_x, spr_y, spr_address, px, py),
                ),
            hit == exists|px: int, py: int|
                on_screen(px, py) && sprite_pixel(
                    old(self).state,
                    mem@,
                    spr_x,
                    spr_y,
                    spr_address,
                    px,
                    py,
                ) != 0 && #[trigger] cell(old(self).screen@, px, py) != 0,
            final(self).state == old(self).state,
            final(self).palette == old(self).palette,
            final(self).size == old(self).size,
    {
        let spritew = self.state.spritew as i32;
        let spriteh = self.state.spriteh as i32;
        let x0 = spr_x as i32;
        let y0 = spr_y as i32;
        if x0 > 319 || y0 > 239 || spritew == 0 || spriteh == 0 || x0 + spritew * 2 < 0 || y0
            + spriteh < 0 {
            assert forall|px: int, py: int| on_screen(px, py) implies sprite_pixel(
                self.state,
                mem@,
                spr_x,
                spr_y,
                spr_address,
                px,
                py,
            ) == 0 by {}
            return false;
        }
        let ghost old_screen = self.screen@;
        let ghost state = self.state;
        let mut hit = false;
        let mut row: i32 = 0;
        while row < spriteh
            invariant
                0 <= row <= spriteh,
                spritew == state.spritew,
                spriteh == state.spriteh,
                x0 == spr_x,
                y0 == spr_y,
                state == old(self).state,
                self.state == state,
                self.palette == old(self).palette,
                self.size == old(self).size,
                old_screen == old(self).screen@,
                forall|px: int, py: int|
                    on_screen(px, py) ==> #[trigger] cell(self.screen@, px, py) == if Self::drawn_so_far(
                        spr_x,
                        spr_y,
                        row as int,
                        0,
                        px,
                        py,
                    ) {
                        blend(
                            cell(old_screen, px, py),
                            sprite_pixel(state, mem@, spr_x, spr_y, spr_address, px, py),
                        )
                    } else {
                        cell(old_screen, px, py)
                    },
                hit == exists|px: int, py: int|
                    #[trigger] Self::hits_so_far(
                        state,
                        mem@,
                        spr_x,
                        spr_y,
                        spr_address,
                        old_screen,
                        row as int,
                        0,
                        px,
                        py,
                    ),
            decreases spriteh - row,
        {
            let mut col: i32 = 0;
            while col < 2 * spritew
                invariant
                    0 <= row < spriteh,
                    0 <= col <= 2 * spritew,
                    spritew == state.spritew,
                    spriteh == state.spriteh,
                    x0 == spr_x,
                    y0 == spr_y,
                    state == old(self).state,
                    self.state == state,
                    self.palette == old(self).palette,
                    self.size == old(self).size,
                    old_screen == old(self).screen@,
                    forall|px: int, py: int|
                        on_screen(px, py) ==> #[trigger] cell(self.screen@, px, py)
                            == if Self::drawn_so_far(
                            spr_x,
                            spr_y,
                            row as int,
                            col as int,
                            px,
                            py,
                        ) {
                            blend(
                                cell(old_screen, px, py),
                                sprite_pixel(state, mem@, spr_x, spr_y, spr_address, px, py),
                            )
                        } else {
                            cell(old_screen, px, py)
                        },
                    hit == exists|px: int, py: int|
                        #[trigger] Self::hits_so_far(
                            state,
                            mem@,
                            spr_x,
                            spr_y,
                            spr_address,
                            old_screen,
                            row as int,
                            col as int,
                            px,
                            py,
                        ),
                decreases 2 * spritew - col,
            {
                let px = x0 + col;
                let py = y0 + row;
                proof {
                    Self::lemma_extend_hits(
                        state,
                        mem@,
                        spr_x,
                        spr_y,
                        spr_address,
                        old_screen,
                        row as int,
                        col as int,
                    );
                }
                if 0 <= px && px < 320 && 0 <= py && py < 240 {
                    let p = self.nibble_at(mem, spr_address, col as u32, row as u32);
                    assert(p == sprite_pixel(state, mem@, spr_x, spr_y, spr_address, px as int, py as int));
                    assert(self.screen@[py * 320 + px] == cell(self.screen@, px as int, py as int));
                    if p != 0 {
                        let idx = (py * 320 + px) as usize;
                        if self.screen[idx] != 0 {
                            hit = true;
                        }
                        let ghost before = self.screen@;
                        self.screen[idx] = p;
                        proof {
                            Self::lemma_one_cell(before, self.screen@, px as int, py as int);
                        }
                    }
                }
                col = col + 1;
            }
            proof {
                assert forall|px: int, py: int|
                    #![trigger Self::hits_so_far(state, mem@, spr_x, spr_y, spr_address, old_screen, row + 1, 0, px, py)]
                    #![trigger Self::drawn_so_far(spr_x, spr_y, row + 1, 0, px, py)]
                    on_screen(px, py) implies (Self::hits_so_far(
                        state,
                        mem@,
                        spr_x,
                        spr_y,
                        spr_address,
                        old_screen,
                        row + 1,
                        0,
                        px,
                        py,
                    ) == Self::hits_so_far(
                        state,
                        mem@,
                        spr_x,
                        spr_y,
                        spr_address,
                        old_screen,
                        row as int,
                        col as int,
                        px,
                        py,
                    )) && (Self::drawn_so_far(spr_x, spr_y, row + 1, 0, px, py)
                        != Self::drawn_so_far(spr_x, spr_y, row as int, col as int, px, py)
                        ==> sprite_pixel(state, mem@, spr_x, spr_y, spr_address, px, py) == 0) by {}
                if hit {
                    let (qx, qy) = choose|px: int, py: int|
                        #[trigger] Self::hits_so_far(state, mem@, spr_x, spr_y, spr_address, old_screen, row as int, col as int, px, py);
                    assert(Self::hits_so_far(state, mem@, spr_x, spr_y, spr_address, old_screen, row + 1, 0, qx, qy));
                }
                if exists|px: int, py: int|
                    #[trigger] Self::hits_so_far(state, mem@, spr_x, spr_y, spr_address, old_screen, row + 1, 0, px, py) {
                    let (qx, qy) = choose|px: int, py: int|
                        #[trigger] Self::hits_so_far(state, mem@, spr_x, spr_y, spr_address, old_screen, row + 1, 0, px, py);
                    assert(Self::hits_so_far(state, mem@, spr_x, spr_y, spr_address, old_screen, row as int, col as int, qx, qy));
                }
            }
            row = row + 1;
        }
        proof {
            if hit {
                let (qx, qy) = choose|px: int, py: int|
                    #[trigger] Self::hits_so_far(state, mem@, spr_x, spr_y, spr_address, old_screen, row as int, 0, px, py);
                assert(cell(old_screen, qx, qy) != 0);
            }
            if exists|px: int, py: int|
                on_screen(px, py) && sprite_pixel(state, mem@, spr_x, spr_y, spr_address, px, py) != 0
                    && #[trigger] cell(old_screen, px, py) != 0 {
                let (qx, qy) = choose|px: int, py: int|
                    on_screen(px, py) && sprite_pixel(state, mem@, spr_x, spr_y, spr_address, px, py) != 0
                        && #[trigger] cell(old_screen, px, py) != 0;
                assert(Self::hits_so_far(state, mem@, spr_x, spr_y, spr_address, old_screen, row as int, 0, qx, qy));
            }
        }
        hit
    }

    /// Drawing one more pixel, at column `cols` of row `rows`, adds at most
    /// that pixel to the hits.
    proof fn lemma_extend_hits(
        state: StateRegister,
        mem: Seq<i8>,
        x: i16,
        y: i16,
        addr: i16,
        screen: Seq<u8>,
        rows: int,
        cols: int,
    )
        ensures
            (exists|px: int, py: int|
                #[trigger] Self::hits_so_far(state, mem, x, y, addr, screen, rows, cols + 1, px, py))
                == ((exists|px: int, py: int|
                #[trigger] Self::hits_so_far(state, mem, x, y, addr, screen, rows, cols, px, py))
                || Self::hits_so_far(state, mem, x, y, addr, screen, rows, cols + 1, x + cols, y + rows)),
    {
        if exists|px: int, py: int|
            #[trigger] Self::hits_so_far(state, mem, x, y, addr, screen, rows, cols + 1, px, py) {
            let (qx, qy) = choose|px: int, py: int|
                #[trigger] Self::hits_so_far(state, mem, x, y, addr, screen, rows, cols + 1, px, py);
            if qx != x + cols || qy != y + rows {
                assert(Self::hits_so_far(state, mem, x, y, addr, screen, rows, cols, qx, qy));
            }
        }
        if exists|px: int, py: int|
            #[trigger] Self::hits_so_far(state, mem, x, y, addr, screen, rows, cols, px, py) {
            let (qx, qy) = choose|px: int, py: int|
                #[trigger] Self::hits_so_far(state, mem, x, y, addr, screen, rows, cols, px, py);
            assert(Self::hits_so_far(state, mem, x, y, addr, screen, rows, cols + 1, qx, qy));
        }
    }

    proof fn lemma_one_cell(before: Seq<u8>, after: Seq<u8>, px: int, py: int)
        requires
            on_screen(px, py),
            before.len() == 76800,
            after == before.update(py * 320 + px, after[py * 320 + px]),
        ensures
            forall|qx: int, qy: int|
                on_screen(qx, qy) && (qx != px || qy != py) ==> #[trigger] cell(after, qx, qy)
                    == cell(before, qx, qy),
    {
        assert forall|qx: int, qy: int|
            on_screen(qx, qy) && (qx != px || qy != py) implies #[trigger] cell(after, qx, qy)
                == cell(before, qx, qy) by {
            assert(qy * 320 + qx != py * 320 + px) by (nonlinear_arith)
                requires
                    0 <= qx < 320,
                    0 <= px < 320,
                    qx != px || qy != py,
            ;
        }
    }

    /// The frame as RGBA bytes, row by row, four per cell.
    pub fn frame_rgba(&self) -> (r: Vec<u8>)
        ensures
            r@.len() == 4 * 76800,
            forall|k: int| 0 <= k < 4 * 76800 ==> #[trigger] r@[k] == rgba_byte(*self, k),
    {
        let mut out: Vec<u8> = Vec::new();
        let mut i: usize = 0;
        while i < 76800
            invariant
                i <= 76800,
                out@.len() == 4 * i,
                forall|k: int| 0 <= k < 4 * i ==> #[trigger] out@[k] == rgba_byte(*self, k),
            decreases 76800 - i,
        {
            let idx = self.screen[i];
            let c = if idx == 0 {
                self.palette[(self.state.bg % 16) as usize]
            } else {
                self.palette[(idx % 16) as usize]
            };
            assert(c == shown_colour(*self, i as int));
            out.push(((c / 0x10000) % 256) as u8);
            out.push(((c / 0x100) % 256) as u8);
            out.push((c % 256) as u8);
            out.push(255);
            assert forall|k: int| 4 * i <= k < 4 * (i + 1) implies #[trigger] out@[k] == rgba_byte(*self, k) by {
                assert(k / 4 == i);
            }
            i = i + 1;
        }
        out
    }

    pub fn set_bg(&mut self, byte: u8)
        ensures
            final(self).state.bg == byte,
            final(self).state.spritew == old(self).state.spritew,
            final(self).state.spriteh == old(self).state.spriteh,
            final(self).state.hflip == old(self).state.hflip,
            final(self).state.vflip == old(self).state.vflip,
            final(self).palette == old(self).palette,
            final(self).screen == old(self).screen,
            final(self).size == old(self).size,
    {
        self.state.bg = byte;
    }
}

} // verus!
