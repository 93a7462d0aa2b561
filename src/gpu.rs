use vstd::prelude::*;

use crate::alu::signed;
use crate::mmu::{Bus, BGP, IF, LCDC, LY, LYC, MMU, OBP0, OBP1, SCX, SCY, STAT, WX, WY};

verus! {

pub const SCREEN_WIDTH: usize = 160;
pub const SCREEN_HEIGHT: usize = 144;
pub const SCREEN_PIXELS: usize = SCREEN_WIDTH * SCREEN_HEIGHT;

/// M-cycles per scanline, and scanlines per frame (144 visible, 10 of VBlank).
pub const LINE_CYCLES: u16 = 114;
pub const FRAME_LINES: u8 = 154;
pub const FRAME_CYCLES: u32 = 17556;
/// Mode 2 (OAM search) lasts this long, then mode 3 (pixel transfer) until `TRANSFER_END`.
pub const OAM_SEARCH_END: u16 = 20;
pub const TRANSFER_END: u16 = 63;

/// Sprites that one scanline can show.
pub const MAX_LINE_SPRITES: usize = 10;

/// Bit `k` (0 = least significant) of `b`.
pub open spec fn bit_at(b: u8, k: u8) -> u8 {
    (b >> k) & 1
}

/// 0x00RRGGBB of the shade that `palette` gives colour index `colour`.
pub open spec fn shade(palette: u8, colour: u8) -> u32 {
    let s = (palette >> (2 * colour) as u8) & 3;
    if s == 0 {
        0xFFFFFF
    } else if s == 1 {
        0xCCCCCC
    } else if s == 2 {
        0x777777
    } else {
        0x000000
    }
}

/// Colour index of pixel `col` (0 = leftmost) of the tile row whose two bytes are at `row_addr`.
pub open spec fn tile_pixel(bus: Bus, row_addr: int, col: int) -> u8 {
    let lo = bus.read(row_addr as u16);
    let hi = bus.read((row_addr + 1) as u16);
    let k = (7 - col) as u8;
    (bit_at(hi, k) * 2 + bit_at(lo, k)) as u8
}

/// Address of the first byte of tile `index`, in the addressing mode that LCDC bit 4 selects.
pub open spec fn tile_base(lcdc: u8, index: u8) -> int {
    if lcdc & 0x10 != 0 {
        0x8000 + index * 16
    } else {
        0x9000 + signed(index) * 16
    }
}

/// Whether the window covers screen pixel (`x`, `ly`).
pub open spec fn in_window(bus: Bus, ly: u8, x: int) -> bool {
    bus.memory[LCDC as int] & 0x20 != 0 && bus.memory[WY as int] <= ly && x + 7 >= bus.memory[WX as int]
}

/// Background or window colour index of screen pixel (`x`, `ly`); 0 with the background off.
pub open spec fn bg_index(bus: Bus, ly: u8, x: int) -> u8 {
    let lcdc = bus.memory[LCDC as int];
    if lcdc & 1 == 0 {
        0
    } else {
        let win = in_window(bus, ly, x);
        let map: int = if (win && lcdc & 0x40 != 0) || (!win && lcdc & 0x08 != 0) {
            0x9C00
        } else {
            0x9800
        };
        let px: int = if win {
            x + 7 - bus.memory[WX as int]
        } else {
            (x + bus.memory[SCX as int]) % 256
        };
        let py: int = if win {
            ly - bus.memory[WY as int]
        } else {
            (ly + bus.memory[SCY as int]) % 256
        };
        let index = bus.read((map + (py / 8) * 32 + px / 8) as u16);
        tile_pixel(bus, tile_base(lcdc, index) + (py % 8) * 2, px % 8)
    }
}

/// Height of sprites: 16 with LCDC bit 2, else 8.
pub open spec fn sprite_height(bus: Bus) -> int {
    if bus.memory[LCDC as int] & 0x04 != 0 {
        16
    } else {
        8
    }
}

pub open spec fn oam_byte(bus: Bus, sprite: int, k: int) -> u8 {
    bus.read((0xFE00 + sprite * 4 + k) as u16)
}

/// Whether sprite `i`'s vertical extent holds line `ly`.
pub open spec fn on_line(bus: Bus, ly: u8, i: int) -> bool {
    let top = oam_byte(bus, i, 0) - 16;
    top <= ly < top + sprite_height(bus)
}

/// The sprites among the first `n` OAM entries that line `ly` shows, in OAM order, at most ten.
pub open spec fn line_sprites(bus: Bus, ly: u8, n: int) -> Seq<int>
    decreases n,
{
    if n <= 0 {
        Seq::empty()
    } else {
        let prev = line_sprites(bus, ly, n - 1);
        if on_line(bus, ly, n - 1) && prev.len() < 10 {
            prev.push(n - 1)
        } else {
            prev
        }
    }
}

/// Colour index of sprite `i` at screen column `x` on line `ly`, honouring both flips; 0 where
/// the sprite does not cover `x`. An 8x16 sprite ignores bit 0 of its tile number: its upper
/// half is the even tile and its lower half the odd one that follows.
pub open spec fn sprite_index(bus: Bus, ly: u8, i: int, x: int) -> u8 {
    let left = oam_byte(bus, i, 1) - 8;
    let attrs = oam_byte(bus, i, 3);
    let h = sprite_height(bus);
    if left <= x < left + 8 {
        let r = ly - (oam_byte(bus, i, 0) - 16);
        let row = if attrs & 0x40 != 0 {
            h - 1 - r
        } else {
            r
        };
        let col = if attrs & 0x20 != 0 {
            7 - (x - left)
        } else {
            x - left
        };
        let tile = if h == 16 {
            oam_byte(bus, i, 2) & 0xFE
        } else {
            oam_byte(bus, i, 2)
        };
        tile_pixel(bus, 0x8000 + tile * 16 + row * 2, col)
    } else {
        0
    }
}

/// Whether sprite `i` shows at `x` over a background of colour index `bg`: it is opaque there,
/// and not behind a non-zero background.
pub open spec fn sprite_shows(bus: Bus, ly: u8, i: int, x: int, bg: u8) -> bool {
    sprite_index(bus, ly, i, x) != 0 && !(oam_byte(bus, i, 3) & 0x80 != 0 && bg != 0)
}

pub open spec fn sprite_shade(bus: Bus, ly: u8, i: int, x: int) -> u32 {
    let palette = if oam_byte(bus, i, 3) & 0x10 != 0 {
        bus.memory[OBP1 as int]
    } else {
        bus.memory[OBP0 as int]
    };
    shade(palette, sprite_index(bus, ly, i, x))
}

/// The first of `sprites[k..]` that shows at `x`: lower OAM index wins.
pub open spec fn first_shown(bus: Bus, ly: u8, sprites: Seq<int>, k: int, x: int, bg: u8) -> Option<
    int,
>
    decreases sprites.len() - k,
{
    if k >= sprites.len() || k < 0 {
        None
    } else if sprite_shows(bus, ly, sprites[k], x, bg) {
        Some(sprites[k])
    } else {
        first_shown(bus, ly, sprites, k + 1, x, bg)
    }
}

/// The pixel of line `ly`, column `x`, once background, window and sprites are drawn.
pub open spec fn line_pixel(bus: Bus, ly: u8, x: int) -> u32 {
    let bg = bg_index(bus, ly, x);
    let sprites = line_sprites(bus, ly, 40);
    let top = first_shown(bus, ly, sprites, 0, x, bg);
    if bus.memory[LCDC as int] & 0x02 != 0 && top is Some {
        sprite_shade(bus, ly, top->0, x)
    } else {
        shade(bus.memory[BGP as int], bg)
    }
}

/// STAT mode at a point of the frame: 1 in VBlank, else 2, 3, 0 along the line.
pub open spec fn mode_at(ly: int, counter: int) -> u8 {
    if ly >= 144 {
        1
    } else if counter < OAM_SEARCH_END {
        2
    } else if counter < TRANSFER_END {
        3
    } else {
        0
    }
}

/// M-cycles since the start of the frame.
pub open spec fn frame_position(ly: int, counter: int) -> int {
    ly * LINE_CYCLES + counter
}

/// STAT with mode `mode` in bits 1-0 and the LY=LYC coincidence in bit 2.
pub open spec fn stat_with(stat: u8, mode: u8, coincidence: bool) -> u8 {
    (stat & 0xF8) | (if coincidence { 4u8 } else { 0u8 }) | mode
}

/// Whether the LCD STAT interrupt is owed: a mode change into a mode whose source bit is set
/// (HBlank bit 3, VBlank bit 4, OAM bit 5), or coincidence becoming true with bit 6 set.
pub open spec fn stat_interrupt(stat: u8, mode: u8, coincidence: bool) -> bool {
    let source: u8 = if mode == 0 {
        0x08
    } else if mode == 1 {
        0x10
    } else if mode == 2 {
        0x20
    } else {
        0
    };
    (mode != stat & 3 && stat & source != 0) || (coincidence && stat & 4 == 0 && stat & 0x40 != 0)
}

/// The line after `ly`, wrapping after line 153.
pub open spec fn next_line(ly: u8) -> u8 {
    if ly >= 153 {
        0
    } else {
        (ly + 1) as u8
    }
}

/// What advancing the LCD by `cycles` M-cycles does, from line clock `c0`, frame buffer `scr0`
/// and bus `b0` to `c1`, `scr1` and `b1`.
pub open spec fn graphics_advanced(
    c0: u16,
    scr0: Seq<u32>,
    b0: Bus,
    cycles: u16,
    c1: u16,
    scr1: Seq<u32>,
    b1: Bus,
) -> bool {
    let m0 = b0.memory;
    let m1 = b1.memory;
    let ly0 = m0[LY as int];
    let ly1 = m1[LY as int];
    let pos = frame_position(ly0 as int, c0 as int) + cycles;
    let next = next_line(ly0);
    let mode = mode_at(ly1 as int, c1 as int);
    let coincidence = ly1 == m0[LYC as int];
    &&& b1.joypad == b0.joypad
    &&& b1.timer == b0.timer
    &&& ly1 < FRAME_LINES
    &&& m0[LCDC as int] & 0x80 == 0 ==> c1 == 0 && scr1 == scr0 && m1 == m0.update(LY as int, 0).update(
        STAT as int,
        (m0[STAT as int] & 0xFC) | 1,
    )
    &&& m0[LCDC as int] & 0x80 != 0 ==> {
        // LY and the line clock advance together through the frame.
        &&& frame_position(ly1 as int, c1 as int) == pos % FRAME_CYCLES as int
        // Only LY, STAT and IF change.
        &&& forall|i: int|
            0 <= i < 0x10000 && i != LY && i != STAT && i != IF ==> #[trigger] m1[i] == m0[i]
        &&& m1[STAT as int] == stat_with(m0[STAT as int], mode, coincidence)
        &&& stat_interrupt(m0[STAT as int], mode, coincidence) ==> m1[IF as int] & 2 == 2
        // VBlank is requested when line 144 is entered, and its bit is left alone otherwise.
        &&& (ly0 < 144 && pos >= 144 * LINE_CYCLES && pos < FRAME_CYCLES) ==> m1[IF as int] & 1 == 1
        &&& (pos < FRAME_CYCLES && !(ly0 < 144 && pos >= 144 * LINE_CYCLES)) ==> m1[IF as int] & 1
            == m0[IF as int] & 1
        // Within a line nothing is drawn; on entering a visible line that line is drawn.
        &&& c0 + cycles < LINE_CYCLES ==> scr1 == scr0
        &&& (c0 + cycles >= LINE_CYCLES && c0 + cycles < 2 * LINE_CYCLES && next < 144) ==> {
            &&& forall|x: int|
                0 <= x < SCREEN_WIDTH ==> #[trigger] scr1[next * 160 + x] == line_pixel(
                    Bus { memory: m0.update(LY as int, next), joypad: b0.joypad, timer: b0.timer },
                    next,
                    x,
                )
            &&& forall|i: int|
                0 <= i < SCREEN_PIXELS && !(next * 160 <= i < next * 160 + 160) ==> #[trigger] scr1[i]
                    == scr0[i]
        }
    }
}

/// The pixel-processing unit: the scanline clock and the frame buffer.
pub struct GPU {
    /// M-cycles into the current scanline.
    pub scanline_counter: u16,
    /// 160 x 144 pixels, 0x00RRGGBB, row by row.
    pub screen_data: Vec<u32>,
}

impl GPU {
    pub open spec fn wf(&self) -> bool {
        self.screen_data@.len() == SCREEN_PIXELS && self.scanline_counter < LINE_CYCLES
    }

    pub fn new() -> (r: GPU)
        ensures
            r.wf(),
            r.scanline_counter == 0,
            forall|i: int| 0 <= i < SCREEN_PIXELS ==> r.screen_data@[i] == 0,
    {
        let mut screen_data: Vec<u32> = Vec::new();
        let mut i: usize = 0;
        while i < SCREEN_PIXELS
            invariant
                i <= SCREEN_PIXELS,
                screen_data@.len() == i,
                forall|j: int| 0 <= j < i ==> screen_data@[j] == 0,
            decreases SCREEN_PIXELS - i,
        {
            screen_data.push(0);
            i = i + 1;
        }
        GPU { scanline_counter: 0, screen_data }
    }

    fn is_lcd_enabled(mmu: &MMU) -> (r: bool)
        requires
            mmu.wf(),
        ensures
            r == (mmu@.memory[LCDC as int] & 0x80 != 0),
    {
        mmu.memory[LCDC as usize] & 0x80 != 0
    }

    fn get_bit(byte: u8, k: u8) -> (r: u8)
        requires
            k < 8,
        ensures
            r == bit_at(byte, k),
            r < 2,
    {
        let r = (byte >> k) & 1;
        assert((byte >> k) & 1 < 2) by (bit_vector);
        r
    }

    fn get_colour(palette: u8, colour: u8) -> (r: u32)
        requires
            colour < 4,
        ensures
            r == shade(palette, colour),
    {
        let s = (palette >> (2 * colour)) & 3;
        if s == 0 {
            0xFFFFFF
        } else if s == 1 {
            0xCCCCCC
        } else if s == 2 {
            0x777777
        } else {
            0x000000
        }
    }

    fn tile_pixel_at(mmu: &MMU, row_addr: u16, col: u8) -> (r: u8)
        requires
            mmu.wf(),
            row_addr < 0xFFFF,
            col < 8,
        ensures
            r == tile_pixel(mmu@, row_addr as int, col as int),
            r < 4,
    {
        let lo = mmu.rb(row_addr);
        let hi = mmu.rb(row_addr + 1);
        GPU::get_bit(hi, 7 - col) * 2 + GPU::get_bit(lo, 7 - col)
    }

    fn bg_index_at(mmu: &MMU, ly: u8, x: u8) -> (r: u8)
        requires
            mmu.wf(),
            ly < 144,
            x < 160,
        ensures
            r == bg_index(mmu@, ly, x as int),
            r < 4,
    {
        let lcdc = mmu.memory[LCDC as usize];
        if lcdc & 1 == 0 {
            return 0;
        }
        let wx = mmu.memory[WX as usize];
        let wy = mmu.memory[WY as usize];
        let win = lcdc & 0x20 != 0 && wy <= ly && x as u16 + 7 >= wx as u16;
        let map: u16 = if (win && lcdc & 0x40 != 0) || (!win && lcdc & 0x08 != 0) {
            0x9C00
        } else {
            0x9800
        };
        let px: u16 = if win {
            x as u16 + 7 - wx as u16
        } else {
            (x as u16 + mmu.memory[SCX as usize] as u16) % 256
        };
        let py: u16 = if win {
            (ly - wy) as u16
        } else {
            (ly as u16 + mmu.memory[SCY as usize] as u16) % 256
        };
        let index = mmu.rb(map + (py / 8) * 32 + px / 8);
        let base: u16 = if lcdc & 0x10 != 0 {
            0x8000 + index as u16 * 16
        } else if index < 128 {
            0x9000 + index as u16 * 16
        } else {
            0x9000 - (256 - index as u16) * 16
        };
        GPU::tile_pixel_at(mmu, base + (py % 8) * 2, (px % 8) as u8)
    }

    /// Draws background and window on line `ly`; returns their colour indices, which decide
    /// where sprites behind the background show.
    fn render_tiles(&mut self, mmu: &MMU, ly: u8) -> (bg: Vec<u8>)
        requires
            old(self).wf(),
            mmu.wf(),
            ly < 144,
        ensures
            final(self).wf(),
            final(self).scanline_counter == old(self).scanline_counter,
            bg@.len() == SCREEN_WIDTH,
            forall|x: int| 0 <= x < SCREEN_WIDTH ==> bg@[x] == bg_index(mmu@, ly, x) && bg@[x] < 4,
            forall|x: int|
                0 <= x < SCREEN_WIDTH ==> final(self).screen_data@[ly * 160 + x] == shade(
                    mmu@.memory[BGP as int],
                    bg_index(mmu@, ly, x),
                ),
            forall|i: int|
                0 <= i < SCREEN_PIXELS && !(ly * 160 <= i < ly * 160 + 160) ==> final(self).screen_data@[i] == old(self).screen_data@[i],
    {
        let palette = mmu.memory[BGP as usize];
        let row: usize = ly as usize * SCREEN_WIDTH;
        let mut bg: Vec<u8> = Vec::new();
        let mut x: u8 = 0;
        while x < 160
            invariant
                self.wf(),
                mmu.wf(),
                ly < 144,
                x <= 160,
                row == ly * 160,
                self.scanline_counter == old(self).scanline_counter,
                palette == mmu@.memory[BGP as int],
                bg@.len() == x,
                forall|k: int| 0 <= k < x ==> bg@[k] == bg_index(mmu@, ly, k) && bg@[k] < 4,
                forall|k: int|
                    0 <= k < x ==> self.screen_data@[ly * 160 + k] == shade(
                        palette,
                        bg_index(mmu@, ly, k),
                    ),
                forall|i: int|
                    0 <= i < SCREEN_PIXELS && !(ly * 160 <= i < ly * 160 + x) ==> self.screen_data@[i]
                        == old(self).screen_data@[i],
            decreases 160 - x,
        {
            let c = GPU::bg_index_at(mmu, ly, x);
            bg.push(c);
            self.screen_data.set(row + x as usize, GPU::get_colour(palette, c));
            x = x + 1;
        }
        bg
    }

    fn oam_at(mmu: &MMU, sprite: u8, k: u8) -> (r: u8)
        requires
            mmu.wf(),
            sprite < 40,
            k < 4,
        ensures
            r == oam_byte(mmu@, sprite as int, k as int),
    {
        mmu.rb(0xFE00 + sprite as u16 * 4 + k as u16)
    }

    fn sprite_height_of(mmu: &MMU) -> (r: u16)
        requires
            mmu.wf(),
        ensures
            r == sprite_height(mmu@),
    {
        if mmu.memory[LCDC as usize] & 0x04 != 0 {
            16
        } else {
            8
        }
    }

    /// The OAM indices of the sprites that line `ly` shows.
    fn select_sprites(mmu: &MMU, ly: u8) -> (r: Vec<u8>)
        requires
            mmu.wf(),
        ensures
            r@.len() == line_sprites(mmu@, ly, 40).len(),
            forall|k: int| 0 <= k < r@.len() ==> r@[k] as int == line_sprites(mmu@, ly, 40)[k],
            forall|k: int| 0 <= k < r@.len() ==> r@[k] < 40,
    {
        let h = GPU::sprite_height_of(mmu);
        let mut r: Vec<u8> = Vec::new();
        let mut i: u8 = 0;
        while i < 40
            invariant
                mmu.wf(),
                i <= 40,
                h == sprite_height(mmu@),
                r@.len() == line_sprites(mmu@, ly, i as int).len(),
                r@.len() <= 10,
                forall|k: int| 0 <= k < r@.len() ==> r@[k] as int == line_sprites(mmu@, ly, i as int)[k],
                forall|k: int| 0 <= k < r@.len() ==> r@[k] < 40,
            decreases 40 - i,
        {
            let y = GPU::oam_at(mmu, i, 0) as i32 - 16;
            if y <= ly as i32 && (ly as i32) < y + h as i32 && r.len() < MAX_LINE_SPRITES {
                r.push(i);
            }
            i = i + 1;
        }
        r
    }

    /// Colour index of sprite `i` at column `x` of line `ly`.
    fn sprite_index_at(mmu: &MMU, ly: u8, i: u8, x: u8) -> (r: u8)
        requires
            mmu.wf(),
            i < 40,
            on_line(mmu@, ly, i as int),
        ensures
            r == sprite_index(mmu@, ly, i as int, x as int),
            r < 4,
    {
        let left = GPU::oam_at(mmu, i, 1) as i32 - 8;
        let attrs = GPU::oam_at(mmu, i, 3);
        let h = GPU::sprite_height_of(mmu) as i32;
        if left <= x as i32 && (x as i32) < left + 8 {
            let r = ly as i32 - (GPU::oam_at(mmu, i, 0) as i32 - 16);
            let row = if attrs & 0x40 != 0 {
                h - 1 - r
            } else {
                r
            };
            let col = if attrs & 0x20 != 0 {
                7 - (x as i32 - left)
            } else {
                x as i32 - left
            };
            let t = GPU::oam_at(mmu, i, 2);
            let tile = if h == 16 {
                t & 0xFE
            } else {
                t
            };
            GPU::tile_pixel_at(mmu, (0x8000 + tile as i32 * 16 + row * 2) as u16, col as u8)
        } else {
            0
        }
    }

    /// Draws the sprites of line `ly` over the background whose colour indices are `bg`.
    pub fn render_sprites(&mut self, mmu: &MMU, ly: u8, bg: &Vec<u8>)
        requires
            old(self).wf(),
            mmu.wf(),
            ly < 144,
            bg@.len() == SCREEN_WIDTH,
        ensures
            final(self).wf(),
            final(self).scanline_counter == old(self).scanline_counter,
            forall|x: int|
                0 <= x < SCREEN_WIDTH ==> final(self).screen_data@[ly * 160 + x] == ({
                    let top = first_shown(mmu@, ly, line_sprites(mmu@, ly, 40), 0, x, #[trigger] bg@[x]);
                    if top is Some {
                        sprite_shade(mmu@, ly, top->0, x)
                    } else {
                        old(self).screen_data@[ly * 160 + x]
                    }
                }),
            forall|i: int|
                0 <= i < SCREEN_PIXELS && !(ly * 160 <= i < ly * 160 + 160) ==> final(self).screen_data@[i] == old(self).screen_data@[i],
    {
        let sprites = GPU::select_sprites(mmu, ly);
        let ghost sel = line_sprites(mmu@, ly, 40);
        let obp0 = mmu.memory[OBP0 as usize];
        let obp1 = mmu.memory[OBP1 as usize];
        let row: usize = ly as usize * SCREEN_WIDTH;
        let mut x: u8 = 0;
        while x < 160
            invariant
                self.wf(),
                mmu.wf(),
                ly < 144,
                x <= 160,
                row == ly * 160,
                bg@.len() == SCREEN_WIDTH,
                self.scanline_counter == old(self).scanline_counter,
                obp0 == mmu@.memory[OBP0 as int],
                obp1 == mmu@.memory[OBP1 as int],
                sel == line_sprites(mmu@, ly, 40),
                sprites@.len() == sel.len(),
                forall|k: int| 0 <= k < sprites@.len() ==> sprites@[k] as int == sel[k],
                forall|k: int| 0 <= k < sprites@.len() ==> sprites@[k] < 40,
                forall|k: int| 0 <= k < x ==> self.screen_data@[ly * 160 + k] == ({
                    let top = first_shown(mmu@, ly, sel, 0, k, #[trigger] bg@[k]);
                    if top is Some {
                        sprite_shade(mmu@, ly, top->0, k)
                    } else {
                        old(self).screen_data@[ly * 160 + k]
                    }
                }),
                forall|i: int|
                    0 <= i < SCREEN_PIXELS && !(ly * 160 <= i < ly * 160 + x) ==> self.screen_data@[i]
                        == old(self).screen_data@[i],
            decreases 160 - x,
        {
            let b = bg[x as usize];
            let mut k: usize = 0;
            let mut found = false;
            let mut colour: u32 = 0;
            while k < sprites.len() && !found
                invariant
                    mmu.wf(),
                    k <= sprites@.len(),
                    sel == line_sprites(mmu@, ly, 40),
                    sprites@.len() == sel.len(),
                    forall|j: int| 0 <= j < sprites@.len() ==> sprites@[j] as int == sel[j],
                    forall|j: int| 0 <= j < sprites@.len() ==> sprites@[j] < 40,
                    obp0 == mmu@.memory[OBP0 as int],
                    obp1 == mmu@.memory[OBP1 as int],
                    !found ==> first_shown(mmu@, ly, sel, 0, x as int, b) == first_shown(
                        mmu@,
                        ly,
                        sel,
                        k as int,
                        x as int,
                        b,
                    ),
                    found ==> ({
                        let top = first_shown(mmu@, ly, sel, 0, x as int, b);
                        top is Some && colour == sprite_shade(mmu@, ly, top->0, x as int)
                    }),
                decreases sprites@.len() - k + (if found { 0int } else { 1int }),
            {
                let i = sprites[k];
                proof {
                    lemma_line_sprites_on_line(mmu@, ly, 40, k as int);
                }
                let c = GPU::sprite_index_at(mmu, ly, i, x);
                let attrs = GPU::oam_at(mmu, i, 3);
                if c != 0 && !(attrs & 0x80 != 0 && b != 0) {
                    found = true;
                    let palette = if attrs & 0x10 != 0 {
                        obp1
                    } else {
                        obp0
                    };
                    colour = GPU::get_colour(palette, c);
                } else {
                    k = k + 1;
                }
            }
            if found {
                self.screen_data.set(row + x as usize, colour);
            }
            x = x + 1;
        }
    }

    /// Writes the mode and the coincidence bit into STAT and requests the LCD STAT interrupt
    /// when one of its enabled sources turns on.
    fn set_lcd_status(&self, mmu: &mut MMU)
        requires
            old(mmu).wf(),
        ensures
            final(mmu).wf(),
            final(mmu).joypad_state == old(mmu).joypad_state,
            final(mmu).timer == old(mmu).timer,
            ({
                let m = old(mmu).memory@;
                let mode = mode_at(m[LY as int] as int, self.scanline_counter as int);
                let coincidence = m[LY as int] == m[LYC as int];
                let stat = stat_with(m[STAT as int], mode, coincidence);
                &&& final(mmu).memory@ == (if stat_interrupt(m[STAT as int], mode, coincidence) {
                    old(mmu)@.with_interrupt(1).memory.update(STAT as int, stat)
                } else {
                    m.update(STAT as int, stat)
                })
                &&& stat & 3 == mode
            }),
    {
        let stat = mmu.memory[STAT as usize];
        let ly = mmu.memory[LY as usize];
        let mode: u8 = if ly >= 144 {
            1
        } else if self.scanline_counter < OAM_SEARCH_END {
            2
        } else if self.scanline_counter < TRANSFER_END {
            3
        } else {
            0
        };
        let coincidence = ly == mmu.memory[LYC as usize];
        let source: u8 = if mode == 0 {
            0x08
        } else if mode == 1 {
            0x10
        } else if mode == 2 {
            0x20
        } else {
            0
        };
        let c: u8 = if coincidence {
            4
        } else {
            0
        };
        let new_stat = (stat & 0xF8) | c | mode;
        assert(((stat & 0xF8) | c | mode) & 3 == mode) by (bit_vector)
            requires
                mode < 4,
                c == 0 || c == 4,
        ;
        if (mode != stat & 3 && stat & source != 0) || (coincidence && stat & 4 == 0 && stat & 0x40
            != 0) {
            mmu.request_interrupt(1);
        }
        mmu.set_io(STAT, new_stat);
    }

    /// Advances the LCD by `cycles` M-cycles: each completed scanline moves LY on (wrapping
    /// after line 153), entering line 144 requests VBlank, and entering a visible line renders
    /// it. With the LCD off, LY and the line clock are held at zero and STAT reads mode 1.
    pub fn update_graphics(&mut self, mmu: &mut MMU, cycles: u16)
        requires
            old(self).wf(),
            old(mmu).wf(),
        ensures
            final(self).wf(),
            final(mmu).wf(),
            graphics_advanced(
                old(self).scanline_counter,
                old(self).screen_data@,
                old(mmu)@,
                cycles,
                final(self).scanline_counter,
                final(self).screen_data@,
                final(mmu)@,
            ),
    {
        if !GPU::is_lcd_enabled(mmu) {
            self.scanline_counter = 0;
            mmu.set_io(LY, 0);
            let stat = (mmu.memory[STAT as usize] & 0xFC) | 1;
            mmu.set_io(STAT, stat);
            return;
        }
        let ghost start = frame_position(
            old(mmu).memory@[LY as int] as int,
            old(self).scanline_counter as int,
        ) + cycles;
        let ghost ly0 = old(mmu).memory@[LY as int];
        let ghost if0 = old(mmu).memory@[IF as int];
        let mut counter: u32 = self.scanline_counter as u32 + cycles as u32;
        let mut ly: u8 = mmu.memory[LY as usize];
        let ghost mut lines: int = 0;
        while counter >= LINE_CYCLES as u32
            invariant
                ly0 == old(mmu).memory@[LY as int],
                ly0 < FRAME_LINES,
                if0 == old(mmu).memory@[IF as int],
                start == frame_position(ly0 as int, old(self).scanline_counter as int) + cycles,
                lines >= 0,
                counter == old(self).scanline_counter + cycles - lines * LINE_CYCLES,
                lines == 0 ==> self.screen_data@ == old(self).screen_data@ && mmu.memory@ == old(mmu).memory@,
                (lines == 1 && next_line(ly0) < 144) ==> ly == next_line(ly0),
                (lines == 1 && next_line(ly0) < 144) ==> forall|x: int|
                    0 <= x < SCREEN_WIDTH ==> #[trigger] self.screen_data@[ly * 160 + x] == line_pixel(
                        Bus {
                            memory: old(mmu).memory@.update(LY as int, ly),
                            joypad: old(mmu).joypad_state,
                            timer: old(mmu).timer,
                        },
                        ly,
                        x,
                    ),
                (lines == 1 && next_line(ly0) < 144) ==> forall|i: int|
                    0 <= i < SCREEN_PIXELS && !(ly * 160 <= i < ly * 160 + 160)
                        ==> #[trigger] self.screen_data@[i] == old(self).screen_data@[i],
                self.wf(),
                mmu.wf(),
                mmu.joypad_state == old(mmu).joypad_state,
                mmu.timer == old(mmu).timer,
                forall|i: int|
                    0 <= i < 0x10000 && i != LY && i != IF ==> #[trigger] mmu.memory@[i] == old(mmu).memory@[i],
                ly == mmu.memory@[LY as int],
                ly < FRAME_LINES && (frame_position(ly as int, counter as int) % FRAME_CYCLES as int)
                    == start % FRAME_CYCLES as int,
                start < FRAME_CYCLES ==> frame_position(ly as int, counter as int) == start && ly
                    == ly0 + lines,
                (ly0 < 144 && start < FRAME_CYCLES) ==> (ly >= 144 ==> mmu.memory@[IF as int] & 1
                    == 1),
                (start < FRAME_CYCLES && !(ly0 < 144 && start >= 144 * LINE_CYCLES))
                    ==> mmu.memory@[IF as int] & 1 == if0 & 1,
            decreases counter,
        {
            counter = counter - LINE_CYCLES as u32;
            proof {
                if ly == 153 {
                    let p = frame_position(ly as int, counter as int) + LINE_CYCLES;
                    assert(p == frame_position(0, counter as int) + 17556);
                    assert((frame_position(0, counter as int) + 17556) % 17556 == frame_position(
                        0,
                        counter as int,
                    ) % 17556) by (nonlinear_arith);
                }
            }
            ly = if ly >= FRAME_LINES - 1 {
                0
            } else {
                ly + 1
            };
            mmu.set_io(LY, ly);
            if ly == 144 {
                let ghost flags = mmu.memory@[IF as int];
                mmu.request_interrupt(0);
                proof {
                    lemma_interrupt_bits(flags);
                }
            }
            if ly < 144 {
                let ghost bus = Bus {
                    memory: old(mmu).memory@.update(LY as int, ly),
                    joypad: old(mmu).joypad_state,
                    timer: old(mmu).timer,
                };
                let ghost first = lines == 0;
                proof {
                    if first {
                        assert(mmu@ == bus);
                    }
                }
                self.draw_scanline(mmu, ly);
                proof {
                    if first {
                        assert forall|x: int| 0 <= x < SCREEN_WIDTH implies #[trigger] self.screen_data@[ly
                            * 160 + x] == line_pixel(bus, ly, x) by {}
                    }
                }
            }
            proof {
                lines = lines + 1;
            }
        }
        self.scanline_counter = counter as u16;
        proof {
            lemma_interrupt_bits(mmu.memory@[IF as int]);
        }
        self.set_lcd_status(mmu);
    }

    /// Renders line `ly`: background and window, then sprites when LCDC bit 1 is set.
    fn draw_scanline(&mut self, mmu: &MMU, ly: u8)
        requires
            old(self).wf(),
            mmu.wf(),
            ly < 144,
        ensures
            final(self).wf(),
            final(self).scanline_counter == old(self).scanline_counter,
            forall|x: int|
                0 <= x < SCREEN_WIDTH ==> final(self).screen_data@[ly * 160 + x] == line_pixel(
                    mmu@,
                    ly,
                    x,
                ),
            forall|i: int|
                0 <= i < SCREEN_PIXELS && !(ly * 160 <= i < ly * 160 + 160) ==> final(self).screen_data@[i] == old(self).screen_data@[i],
    {
        let bg = self.render_tiles(mmu, ly);
        let ghost tiles = self.screen_data@;
        if mmu.memory[LCDC as usize] & 0x02 != 0 {
            self.render_sprites(mmu, ly, &bg);
        }
        assert forall|x: int| 0 <= x < SCREEN_WIDTH implies self.screen_data@[ly * 160 + x]
            == line_pixel(mmu@, ly, x) by {
            assert(bg@[x] == bg_index(mmu@, ly, x));
            assert(tiles[ly * 160 + x] == shade(mmu@.memory[BGP as int], bg_index(mmu@, ly, x)));
        }
    }
}

/// Requesting interrupt 0 sets bit 0 of IF, and requesting another keeps it.
pub proof fn lemma_interrupt_bits(x: u8)
    ensures
        (x | (1u8 << 0u8)) & 1 == 1,
        (x | (1u8 << 1u8)) & 1 == x & 1,
        (x | (1u8 << 1u8)) & 2 == 2,
{
    assert((x | (1u8 << 0u8)) & 1 == 1 && (x | (1u8 << 1u8)) & 1 == x & 1 && (x | (1u8 << 1u8)) & 2
        == 2) by (bit_vector);
}

/// Every sprite that a line shows is one of the forty and lies on that line.
pub proof fn lemma_line_sprites_on_line(bus: Bus, ly: u8, n: int, k: int)
    requires
        0 <= n <= 40,
        0 <= k < line_sprites(bus, ly, n).len(),
    ensures
        0 <= line_sprites(bus, ly, n)[k] < n,
        on_line(bus, ly, line_sprites(bus, ly, n)[k]),
    decreases n,
{
    if n > 0 {
        let prev = line_sprites(bus, ly, n - 1);
        if k < prev.len() {
            lemma_line_sprites_on_line(bus, ly, n - 1, k);
        }
    }
}

} // verus!
