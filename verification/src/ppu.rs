//! The picture processing unit: the scanline state machine (OAM scan, drawing,
//! H-Blank, V-Blank), the LCD status and LY registers with their interrupts,
//! and the rendering of the background, the window and the sprites into a
//! framebuffer of color indices.
use vstd::prelude::*;

use crate::cpu::{IF_ADDRESS, signed};
use crate::memory::{BusView, MemoryBus, lemma_plain_write_frame, lemma_plain_write_read};

verus! {

pub const SCREEN_WIDTH: usize = 160;

pub const SCREEN_HEIGHT: usize = 144;

pub const SCREEN_SIZE: usize = 23040;

/// A full screen of color indices 0-3.
pub open spec fn color_indices(fb: Seq<u8>) -> bool {
    &&& fb.len() == SCREEN_SIZE
    &&& forall|i: int| 0 <= i < SCREEN_SIZE ==> #[trigger] fb[i] <= 3
}

/// The abstract state of the PPU.
pub struct PpuView {
    pub mode: u8,
    pub cycles: u32,
    pub framebuffer: Seq<u8>,
    pub ly: u8,
    pub frame_ready: bool,
    pub w_counter: u8,
}

impl PpuView {
    /// The invariant of the PPU: a valid mode with the scanline range it
    /// belongs to, the cycle counter below the longest mode, a window line
    /// counter that advances at most once per drawn line, and color indices
    /// 0-3 in the framebuffer.
    pub open spec fn wf(self) -> bool {
        &&& color_indices(self.framebuffer)
        &&& self.mode <= 3
        &&& (self.mode == 2 || self.mode == 3) ==> self.ly < 144 && self.w_counter <= self.ly
        &&& self.mode == 0 ==> self.ly < 144 && self.w_counter <= self.ly + 1
        &&& self.mode == 1 ==> 144 <= self.ly <= 153 && self.w_counter <= 144
    }
}

// ----------------------------------------------------------------------------
// Registers and interrupts
// ----------------------------------------------------------------------------

/// Whether entering `mode` raises the LCD STAT interrupt under the STAT
/// enable bits (bit 3: H-Blank, bit 4: V-Blank, bit 5: OAM scan).
pub open spec fn stat_interrupt_enabled(stat: u8, mode: u8) -> bool {
    (mode == 0 && stat & 0x8 != 0) || (mode == 1 && stat & 0x10 != 0) || (mode == 2 && stat & 0x20
        != 0)
}

/// The bus after the mode bits of STAT are set to `new_mode`, with the STAT
/// interrupt requested when its enable bit for that mode is set.
pub open spec fn enter_mode(bus: BusView, new_mode: u8) -> BusView {
    let lcd_stat = bus.read_at(0xFF41);
    let b1 = bus.write_at(0xFF41, (lcd_stat & 0xFC) | new_mode);
    if stat_interrupt_enabled(lcd_stat, new_mode) {
        b1.write_at(IF_ADDRESS, b1.read_at(IF_ADDRESS) | 0x2)
    } else {
        b1
    }
}

/// The bus after the LY=LYC comparison for scanline `ly`: on a match the
/// coincidence bit (STAT bit 2) is set and the STAT interrupt requested if
/// enabled by bit 6; otherwise the coincidence bit is cleared. The other bits
/// of STAT are kept.
pub open spec fn compare_lyc(bus: BusView, ly: u8) -> BusView {
    let lyc = bus.read_at(0xFF45);
    let lcd_stat = bus.read_at(0xFF41);
    if ly == lyc {
        let b1 = bus.write_at(0xFF41, lcd_stat | 0x04);
        if lcd_stat & 0x40 != 0 {
            b1.write_at(IF_ADDRESS, b1.read_at(IF_ADDRESS) | 0x2)
        } else {
            b1
        }
    } else {
        bus.write_at(0xFF41, lcd_stat & !0x04u8)
    }
}

/// The bus after LY (0xFF44) is set to `ly` and compared with LYC.
pub open spec fn new_line(bus: BusView, ly: u8) -> BusView {
    compare_lyc(bus.write_at(0xFF44, ly), ly)
}

// ----------------------------------------------------------------------------
// Rendering
// ----------------------------------------------------------------------------

/// The 2-bit color number of pixel `p` (0 = leftmost) of a tile row given by
/// its low and high bit planes.
pub open spec fn tile_pixel(low: u8, high: u8, p: u8) -> u8 {
    (high >> (7 - p) as u8 & 1) << 1u8 | (low >> (7 - p) as u8 & 1)
}

/// A color number mapped through a palette register.
pub open spec fn palette_color(palette: u8, color: u8) -> u8 {
    (palette >> (color * 2) as u8) & 0x03
}

/// The address of row-byte `row2` (twice the row) of tile `tile_id` in the
/// tile data area selected by LCDC bit 4 (0x8000 unsigned, or 0x9000 signed).
pub open spec fn tile_data_address(lcdc: u8, tile_id: u8, row2: int) -> u16 {
    if lcdc & 0x10 != 0 {
        (0x8000 + tile_id * 16 + row2) as u16
    } else {
        (0x9000 + signed(tile_id) * 16 + row2) as u16
    }
}

/// The color number of background pixel `col` on scanline `ly`: the
/// background is a 256x256 map of tiles that wraps around, and SCX/SCY place
/// the screen's top-left corner on it, pixel by pixel.
pub open spec fn background_index(bus: BusView, ly: u8, lcdc: u8, col: int) -> u8 {
    let scy = bus.read_at(0xFF42);
    let scx = bus.read_at(0xFF43);
    let line = (ly + scy) % 256;
    let x = (col + scx) % 256;
    let tile_map_index = (line / 8 % 32) * 32 + x / 8;
    let map_base: int = if lcdc & 0x08 != 0 {
        0x9C00
    } else {
        0x9800
    };
    let tile_id = bus.read_at((map_base + tile_map_index) as u16);
    let address = tile_data_address(lcdc, tile_id, line % 8 * 2);
    let low = bus.read_at(address);
    let high = bus.read_at((address + 1) as u16);
    tile_pixel(low, high, (x % 8) as u8)
}

/// The shade of background pixel `col` on scanline `ly`: its color number
/// mapped through BGP.
pub open spec fn background_pixel(bus: BusView, ly: u8, lcdc: u8, col: int) -> u8 {
    palette_color(bus.read_at(0xFF47), background_index(bus, ly, lcdc, col))
}

/// The framebuffer after the background of scanline `ly` is drawn.
pub open spec fn draw_background(fb: Seq<u8>, bus: BusView, ly: u8, lcdc: u8) -> Seq<u8> {
    Seq::new(
        fb.len(),
        |i: int|
            if ly * 160 <= i < ly * 160 + 160 {
                background_pixel(bus, ly, lcdc, i - ly * 160)
            } else {
                fb[i]
            },
    )
}

/// Whether screen column `x` of scanline `ly` shows the window (WX, WY).
pub open spec fn in_window(bus: BusView, ly: u8, x: int) -> bool {
    x + 7 >= bus.read_at(0xFF4B) && ly >= bus.read_at(0xFF4A)
}

/// The color number of window pixel `x` on the current window line
/// `w_counter` (the window is not mapped through a palette).
pub open spec fn window_pixel(bus: BusView, w_counter: u8, lcdc: u8, x: int) -> u8 {
    let wx = bus.read_at(0xFF4B);
    let offset = (x - (wx - 7) % 256) % 256;
    let tile_x = offset / 8;
    let tile_y = w_counter / 8;
    let tile_map_index = (tile_y % 32) * 32 + tile_x % 32;
    let map_base: int = if lcdc & 0x40 != 0 {
        0x9C00
    } else {
        0x9800
    };
    let tile_id = bus.read_at((map_base + tile_map_index) as u16);
    let address = tile_data_address(lcdc, tile_id, w_counter % 8 * 2);
    let low = bus.read_at(address);
    let high = bus.read_at((address + 1) as u16);
    tile_pixel(low, high, (offset % 8) as u8)
}

/// The framebuffer after the window part of scanline `ly` is drawn.
pub open spec fn draw_window(fb: Seq<u8>, bus: BusView, ly: u8, w_counter: u8, lcdc: u8) -> Seq<
    u8,
> {
    Seq::new(
        fb.len(),
        |i: int|
            if ly * 160 <= i < ly * 160 + 160 && in_window(bus, ly, i - ly * 160) {
                window_pixel(bus, w_counter, lcdc, i - ly * 160)
            } else {
                fb[i]
            },
    )
}

/// The window line counter after scanline `ly`: it advances when the window
/// showed on the line.
pub open spec fn window_counter_after(bus: BusView, ly: u8, w_counter: u8) -> u8 {
    if ly >= bus.read_at(0xFF4A) && bus.read_at(0xFF4B) <= 166 {
        (w_counter + 1) as u8
    } else {
        w_counter
    }
}

/// Sprite height selected by LCDC bit 2.
pub open spec fn sprite_height(lcdc: u8) -> u8 {
    if lcdc & 0x04 != 0 {
        16
    } else {
        8
    }
}

/// The OAM entry byte `k` (Y, X, tile, attributes) of sprite `i`.
pub open spec fn oam(bus: BusView, i: u16, k: int) -> u8 {
    bus.read_at((0xFE00 + i * 4 + k) as u16)
}

/// Whether sprite `i` covers scanline `ly` (OAM Y is offset by 16).
pub open spec fn on_line(bus: BusView, ly: u8, height: u8, i: u16) -> bool {
    let y = oam(bus, i, 0);
    y <= ly + 16 && ly + 16 < y + height
}

/// The sprites drawn on scanline `ly`, among the first `n` OAM entries: those
/// covering the line, in OAM order, at most ten.
pub open spec fn selected_sprites(bus: BusView, ly: u8, height: u8, n: nat) -> Seq<u16>
    decreases n,
{
    if n == 0 {
        Seq::empty()
    } else {
        let prev = selected_sprites(bus, ly, height, (n - 1) as nat);
        if prev.len() < 10 && on_line(bus, ly, height, (n - 1) as u16) {
            prev.push((n - 1) as u16)
        } else {
            prev
        }
    }
}

/// `sorted` (ordered by OAM X) with sprite `i` inserted after every sprite
/// whose X is not greater.
pub open spec fn insert_by_x(bus: BusView, sorted: Seq<u16>, i: u16) -> Seq<u16>
    decreases sorted.len(),
{
    if sorted.len() == 0 {
        seq![i]
    } else if oam(bus, sorted.last(), 1) <= oam(bus, i, 1) {
        sorted.push(i)
    } else {
        insert_by_x(bus, sorted.drop_last(), i).push(sorted.last())
    }
}

/// The sprites ordered by OAM X, keeping OAM order among equal X (a stable
/// sort).
pub open spec fn sort_by_x(bus: BusView, s: Seq<u16>) -> Seq<u16>
    decreases s.len(),
{
    if s.len() == 0 {
        Seq::empty()
    } else {
        insert_by_x(bus, sort_by_x(bus, s.drop_last()), s.last())
    }
}

/// The tile address of the row of sprite `i` that scanline `ly` crosses,
/// with vertical flip (attribute bit 6) and 8x16 tiles.
pub open spec fn sprite_row_address(bus: BusView, ly: u8, height: u8, i: u16) -> u16 {
    let tile_id = oam(bus, i, 2);
    let attributes = oam(bus, i, 3);
    let row0 = (ly + 16 - oam(bus, i, 0)) % (height as int);
    let row1 = if attributes & 0x40 != 0 {
        height - 1 - row0
    } else {
        row0
    };
    let tile: int = if height == 16 {
        if row1 < 8 {
            (tile_id & 0xFE) as int
        } else {
            (tile_id | 0x01) as int
        }
    } else {
        tile_id as int
    };
    let row: int = if height == 16 && row1 >= 8 {
        row1 - 8
    } else {
        row1
    };
    (0x8000 + tile * 16 + row * 2) as u16
}

/// The color number of pixel `p` of sprite `i` on scanline `ly`, with
/// horizontal flip (attribute bit 5).
pub open spec fn sprite_number(bus: BusView, ly: u8, height: u8, i: u16, p: u8) -> u8 {
    let attributes = oam(bus, i, 3);
    let address = sprite_row_address(bus, ly, height, i);
    let low = bus.read_at(address);
    let high = bus.read_at((address + 1) as u16);
    if attributes & 0x20 != 0 {
        (high >> p & 1) << 1u8 | (low >> p & 1)
    } else {
        tile_pixel(low, high, p)
    }
}

/// The shade of pixel `p` of sprite `i` on scanline `ly`: its color number
/// mapped through OBP0 or OBP1 (attribute bit 4).
pub open spec fn sprite_color(bus: BusView, ly: u8, height: u8, i: u16, p: u8) -> u8 {
    let palette = if oam(bus, i, 3) & 0x10 != 0 {
        bus.read_at(0xFF49)
    } else {
        bus.read_at(0xFF48)
    };
    palette_color(palette, sprite_number(bus, ly, height, i, p))
}

/// The screen column of pixel `p` of a sprite at OAM X `x` (OAM X is offset
/// by 8, so a sprite can stand partly off either edge).
pub open spec fn sprite_column(x: u8, p: u8) -> int {
    x + p - 8
}

/// The framebuffer after pixels 0..`n` of sprite `i` are drawn. Color number
/// 0 is transparent; a sprite behind the background (attribute bit 7) only
/// covers pixels that hold shade 0; pixels off the left or right edge of the
/// screen are clipped.
pub open spec fn draw_sprite_pixels(fb: Seq<u8>, bus: BusView, ly: u8, height: u8, i: u16, n: nat) -> Seq<
    u8,
>
    decreases n,
{
    if n == 0 {
        fb
    } else {
        let before = draw_sprite_pixels(fb, bus, ly, height, i, (n - 1) as nat);
        let p = (n - 1) as u8;
        let column = sprite_column(oam(bus, i, 1), p);
        if sprite_number(bus, ly, height, i, p) != 0 && 0 <= column < 160 && (oam(bus, i, 3) & 0x80
            == 0 || before[ly * 160 + column] == 0) {
            before.update(ly * 160 + column, sprite_color(bus, ly, height, i, p))
        } else {
            before
        }
    }
}

/// The framebuffer after the sprites of `order` are drawn, last one first.
pub open spec fn draw_sprite_list(fb: Seq<u8>, bus: BusView, ly: u8, height: u8, order: Seq<u16>) -> Seq<
    u8,
>
    decreases order.len(),
{
    if order.len() == 0 {
        fb
    } else {
        draw_sprite_list(
            draw_sprite_pixels(fb, bus, ly, height, order.last(), 8),
            bus,
            ly,
            height,
            order.drop_last(),
        )
    }
}

/// The framebuffer after the sprites of scanline `ly` are drawn: those with
/// a smaller X are drawn later and so end up on top.
pub open spec fn draw_sprites(fb: Seq<u8>, bus: BusView, ly: u8, lcdc: u8) -> Seq<u8> {
    let height = sprite_height(lcdc);
    draw_sprite_list(fb, bus, ly, height, sort_by_x(bus, selected_sprites(bus, ly, height, 40)))
}

/// The framebuffer and window line counter after scanline `ly` is rendered
/// under the LCDC enable bits (bit 0 background, bit 5 window, bit 1
/// sprites).
pub open spec fn draw_line(fb: Seq<u8>, w_counter: u8, bus: BusView, ly: u8) -> (Seq<u8>, u8) {
    let lcdc = bus.read_at(0xFF40);
    let fb1 = if lcdc & 0x01 != 0 {
        draw_background(fb, bus, ly, lcdc)
    } else {
        fb
    };
    let fb2 = if lcdc & 0x20 != 0 {
        draw_window(fb1, bus, ly, w_counter, lcdc)
    } else {
        fb1
    };
    let w2 = if lcdc & 0x20 != 0 {
        window_counter_after(bus, ly, w_counter)
    } else {
        w_counter
    };
    let fb3 = if lcdc & 0x02 != 0 {
        draw_sprites(fb2, bus, ly, lcdc)
    } else {
        fb2
    };
    (fb3, w2)
}

// ----------------------------------------------------------------------------
// The state machine
// ----------------------------------------------------------------------------

/// The length in clock cycles of PPU mode `mode`: OAM scan (2) 80, drawing
/// (3) 172, H-Blank (0) 204, and one V-Blank line (1) 456.
pub open spec fn mode_length(mode: u8) -> u32 {
    if mode == 2 {
        80
    } else if mode == 3 {
        172
    } else if mode == 0 {
        204
    } else {
        456
    }
}

/// The PPU and bus after `cycles` clock cycles. Each visible line goes
/// through OAM scan (mode 2), drawing (mode 3) and H-Blank (mode 0), 456
/// cycles in all; lines 144-153 are V-Blank (mode 1, 456 cycles each), so a
/// frame takes 154 * 456 = 70224 cycles. A mode ends once its counter reaches
/// its length, and the cycles beyond it count toward the next mode.
pub open spec fn ppu_step(p: PpuView, bus: BusView, cycles: u32) -> (PpuView, BusView) {
    let c = (p.cycles + cycles) as u32;
    let lcdc = bus.read_at(0xFF40);
    if c < mode_length(p.mode) {
        (PpuView { cycles: c, ..p }, bus)
    } else {
        let rest = (c - mode_length(p.mode)) as u32;
        if p.mode == 2 {
            (PpuView { mode: 3, cycles: rest, ..p }, enter_mode(bus, 3))
        } else if p.mode == 3 {
            let drawn = if lcdc & 0x80 != 0 {
                draw_line(p.framebuffer, p.w_counter, bus, p.ly)
            } else {
                (p.framebuffer, p.w_counter)
            };
            (
                PpuView { mode: 0, cycles: rest, framebuffer: drawn.0, w_counter: drawn.1, ..p },
                enter_mode(bus, 0),
            )
        } else if p.mode == 0 {
            let ly = (p.ly + 1) as u8;
            let b1 = new_line(bus, ly);
            if ly < 144 {
                (PpuView { mode: 2, cycles: rest, ly: ly, ..p }, enter_mode(b1, 2))
            } else {
                // V-Blank interrupt
                let b2 = enter_mode(b1, 1);
                (
                    PpuView { mode: 1, cycles: rest, ly: ly, ..p },
                    b2.write_at(IF_ADDRESS, b2.read_at(IF_ADDRESS) | 0x01),
                )
            }
        } else if p.ly == 153 {
            let b1 = new_line(bus, 0);
            (
                PpuView { mode: 2, cycles: rest, ly: 0, w_counter: 0, frame_ready: true, ..p },
                enter_mode(b1, 2),
            )
        } else {
            let ly = (p.ly + 1) as u8;
            (PpuView { cycles: rest, ly: ly, ..p }, new_line(bus, ly))
        }
    }
}

/// Bit `k` (0 = least significant) of byte `b`, as 0 or 1.
pub open spec fn byte_bit(b: u8, k: u8) -> u8 {
    if k == 0 {
        b % 2
    } else if k == 1 {
        b / 2 % 2
    } else if k == 2 {
        b / 4 % 2
    } else if k == 3 {
        b / 8 % 2
    } else if k == 4 {
        b / 16 % 2
    } else if k == 5 {
        b / 32 % 2
    } else if k == 6 {
        b / 64 % 2
    } else {
        b / 128 % 2
    }
}

/// The two-bit pixel taken from bit `k` of two bit planes.
proof fn lemma_plane_bits(low: u8, high: u8, k: u8)
    requires
        k < 8,
    ensures
        (high >> k & 1) << 1u8 | (low >> k & 1) == 2 * byte_bit(high, k) + byte_bit(low, k),
{
    assert((high >> k & 1) << 1u8 | (low >> k & 1) == 2 * byte_bit(high, k) + byte_bit(low, k))
        by (bit_vector)
        requires
            k < 8,
    ;
}

/// Tile rows read left to right from bit 7: pixel `p` of a row has bit 7 - p
/// of the high plane as its color's high bit and of the low plane as its low
/// bit.
pub proof fn lemma_tile_pixel_bits(low: u8, high: u8, p: u8)
    requires
        p < 8,
    ensures
        tile_pixel(low, high, p) == 2 * byte_bit(high, (7 - p) as u8) + byte_bit(low, (7 - p) as u8),
{
    lemma_plane_bits(low, high, (7 - p) as u8);
}

/// Horizontal flip: pixel `p` of a sprite row with attribute bit 5 set takes
/// bit `p` of the row's bit planes, so it shows what pixel 7 - p shows without
/// the flip; without the flip, pixel `p` takes bit 7 - p.
pub proof fn lemma_sprite_flip(bus: BusView, ly: u8, height: u8, i: u16, p: u8)
    requires
        p < 8,
    ensures
        ({
            let address = sprite_row_address(bus, ly, height, i);
            let low = bus.read_at(address);
            let high = bus.read_at((address + 1) as u16);
            &&& oam(bus, i, 3) & 0x20 != 0 ==> sprite_number(bus, ly, height, i, p) == 2 * byte_bit(
                high,
                p,
            ) + byte_bit(low, p)
            &&& oam(bus, i, 3) & 0x20 == 0 ==> sprite_number(bus, ly, height, i, p) == 2
                * byte_bit(high, (7 - p) as u8) + byte_bit(low, (7 - p) as u8)
        }),
{
    let address = sprite_row_address(bus, ly, height, i);
    let low = bus.read_at(address);
    let high = bus.read_at((address + 1) as u16);
    lemma_plane_bits(low, high, p);
    lemma_plane_bits(low, high, (7 - p) as u8);
}

/// The frame schedule: the three modes of a visible line take 456 cycles,
/// as does each V-Blank line, so the 144 visible and 10 V-Blank lines of a
/// frame take 70224 cycles.
pub proof fn lemma_frame_schedule()
    ensures
        mode_length(2) + mode_length(3) + mode_length(0) == 456,
        mode_length(1) == 456,
        144 * (mode_length(2) + mode_length(3) + mode_length(0)) + 10 * mode_length(1) == 70224,
{
}

/// A frame is announced only as V-Blank ends: a step that raises
/// `frame_ready` is the one that leaves line 153 for line 0 of the next frame,
/// in OAM scan; and once raised, the PPU never lowers it.
pub proof fn lemma_frame_ready(p: PpuView, bus: BusView, cycles: u32)
    requires
        p.wf(),
    ensures
        !p.frame_ready && ppu_step(p, bus, cycles).0.frame_ready ==> p.mode == 1 && p.ly == 153
            && ppu_step(p, bus, cycles).0.ly == 0 && ppu_step(p, bus, cycles).0.mode == 2,
        p.frame_ready ==> ppu_step(p, bus, cycles).0.frame_ready,
{
}

/// Entering a mode touches only STAT and IF: LY reads as before.
proof fn lemma_enter_mode_keeps_ly(bus: BusView, mode: u8)
    requires
        bus.wf(),
    ensures
        enter_mode(bus, mode).read_at(0xFF44) == bus.read_at(0xFF44),
        enter_mode(bus, mode).wf(),
{
    let stat = bus.read_at(0xFF41);
    let b1 = bus.write_at(0xFF41, (stat & 0xFC) | mode);
    lemma_plain_write_frame(bus, 0xFF41, (stat & 0xFC) | mode, 0xFF44);
    lemma_plain_write_frame(b1, IF_ADDRESS, b1.read_at(IF_ADDRESS) | 0x2, 0xFF44);
}

/// Entering a mode sets the mode bits of STAT and requests the LCD STAT
/// interrupt (IF bit 1) exactly when STAT enables it for that mode: bit 3 for
/// H-Blank (mode 0), bit 4 for V-Blank (mode 1), bit 5 for OAM scan (mode 2);
/// drawing (mode 3) requests nothing.
pub proof fn lemma_enter_mode_stat(bus: BusView, mode: u8)
    requires
        bus.wf(),
        mode <= 3,
    ensures
        ({
            let stat = bus.read_at(0xFF41);
            let iflag = bus.read_at(0xFF0F);
            let b = enter_mode(bus, mode);
            &&& b.read_at(0xFF41) == (stat & 0xFC) | mode
            &&& mode == 0 ==> b.read_at(0xFF0F) == (if stat & 0x08 != 0 {
                iflag | 0x02
            } else {
                iflag
            })
            &&& mode == 1 ==> b.read_at(0xFF0F) == (if stat & 0x10 != 0 {
                iflag | 0x02
            } else {
                iflag
            })
            &&& mode == 2 ==> b.read_at(0xFF0F) == (if stat & 0x20 != 0 {
                iflag | 0x02
            } else {
                iflag
            })
            &&& mode == 3 ==> b.read_at(0xFF0F) == iflag
            &&& b.wf()
        }),
{
    let stat = bus.read_at(0xFF41);
    let v = (stat & 0xFC) | mode;
    let b1 = bus.write_at(0xFF41, v);
    lemma_plain_write_read(bus, 0xFF41, v);
    lemma_plain_write_frame(bus, 0xFF41, v, 0xFF0F);
    let w = b1.read_at(IF_ADDRESS) | 0x2;
    lemma_plain_write_read(b1, IF_ADDRESS, w);
    lemma_plain_write_frame(b1, IF_ADDRESS, w, 0xFF41);
}

/// The LY=LYC comparison touches only STAT and IF: LY reads as before.
proof fn lemma_compare_lyc_keeps_ly(bus: BusView, ly: u8)
    requires
        bus.wf(),
    ensures
        compare_lyc(bus, ly).read_at(0xFF44) == bus.read_at(0xFF44),
        compare_lyc(bus, ly).wf(),
{
    let stat = bus.read_at(0xFF41);
    let b1 = bus.write_at(0xFF41, stat | 0x04);
    lemma_plain_write_frame(bus, 0xFF41, stat | 0x04, 0xFF44);
    lemma_plain_write_frame(b1, IF_ADDRESS, b1.read_at(IF_ADDRESS) | 0x2, 0xFF44);
    lemma_plain_write_frame(bus, 0xFF41, stat & !0x04u8, 0xFF44);
}

/// A new line writes LY.
proof fn lemma_new_line_sets_ly(bus: BusView, ly: u8)
    requires
        bus.wf(),
    ensures
        new_line(bus, ly).read_at(0xFF44) == ly,
        new_line(bus, ly).wf(),
{
    lemma_plain_write_read(bus, 0xFF44, ly);
    lemma_plain_write_frame(bus, 0xFF44, ly, 0xFF41);
    lemma_compare_lyc_keeps_ly(bus.write_at(0xFF44, ly), ly);
}

/// The LY register (0xFF44) mirrors the PPU's line: if it does before a
/// step, it does after it.
pub proof fn lemma_ly_register(p: PpuView, bus: BusView, cycles: u32)
    requires
        p.wf(),
        bus.wf(),
        bus.read_at(0xFF44) == p.ly,
    ensures
        ppu_step(p, bus, cycles).1.read_at(0xFF44) == ppu_step(p, bus, cycles).0.ly,
{
    let c = (p.cycles + cycles) as u32;
    if c >= mode_length(p.mode) {
        if p.mode == 2 {
            lemma_enter_mode_keeps_ly(bus, 3);
        } else if p.mode == 3 {
            lemma_enter_mode_keeps_ly(bus, 0);
        } else if p.mode == 0 {
            let ly = (p.ly + 1) as u8;
            lemma_new_line_sets_ly(bus, ly);
            let b1 = new_line(bus, ly);
            if ly < 144 {
                lemma_enter_mode_keeps_ly(b1, 2);
            } else {
                lemma_enter_mode_keeps_ly(b1, 1);
                let b2 = enter_mode(b1, 1);
                lemma_plain_write_frame(b2, IF_ADDRESS, b2.read_at(IF_ADDRESS) | 0x01, 0xFF44);
            }
        } else if p.ly == 153 {
            lemma_new_line_sets_ly(bus, 0);
            lemma_enter_mode_keeps_ly(new_line(bus, 0), 2);
        } else {
            lemma_new_line_sets_ly(bus, (p.ly + 1) as u8);
        }
    }
}

/// With the LCD off (LCDC bit 7 clear) nothing is drawn: the framebuffer is
/// left as it was.
pub proof fn lemma_lcd_off(p: PpuView, bus: BusView, cycles: u32)
    requires
        bus.read_at(0xFF40) & 0x80 == 0,
    ensures
        ppu_step(p, bus, cycles).0.framebuffer == p.framebuffer,
{
}

pub struct PPU {
    pub mode: u8,  // The PPU cycles through 4 modes each scanline (see step())
    pub cycles: u32,
    // Each pixel is stored as a color index 0-3 (2 bits per pixel = "2bpp").
    // The actual color (green shades) is resolved later when rendering to screen.
    pub framebuffer: [u8; SCREEN_SIZE],
    pub ly: u8,  // Current scanline being drawn (0-153)
    pub frame_ready: bool,
    pub w_counter: u8,
}

impl View for PPU {
    type V = PpuView;

    open spec fn view(&self) -> PpuView {
        PpuView {
            mode: self.mode,
            cycles: self.cycles,
            framebuffer: self.framebuffer@,
            ly: self.ly,
            frame_ready: self.frame_ready,
            w_counter: self.w_counter,
        }
    }
}


impl PPU {
    pub open spec fn initial() -> PpuView {
        PpuView {
            mode: 2,
            cycles: 0,
            framebuffer: Seq::new(SCREEN_SIZE as nat, |i: int| 0u8),
            ly: 0,
            frame_ready: false,
            w_counter: 0,
        }
    }

    /// A PPU at the start of a frame, in OAM scan, with a blank framebuffer.
    pub fn new() -> (ppu: PPU)
        ensures
            ppu@ == PPU::initial(),
            ppu@.wf(),
    {
        let ppu = PPU {
            mode: 2,  // Start in OAM scan
            cycles: 0,
            framebuffer: [0; SCREEN_SIZE],
            ly: 0,
            frame_ready: false,
            w_counter: 0,
        };
        assert(ppu@.framebuffer =~= PPU::initial().framebuffer);
        ppu
    }

    // The PPU is driven by the same clock as the CPU.
    // `cycles` is how many t-states the last CPU instruction consumed.
    // The PPU uses that to know how much time has passed and advance its state machine.
    pub fn step(&mut self, memory_bus: &mut MemoryBus, cycles: u32)
        requires
            old(self)@.wf(),
            old(memory_bus)@.wf(),
            old(self).cycles + cycles <= u32::MAX,
        ensures
            (final(self)@, final(memory_bus)@) == ppu_step(old(self)@, old(memory_bus)@, cycles),
            final(self)@.wf(),
            final(memory_bus)@.wf(),
    {
        self.cycles = self.cycles + cycles;
        // LCDC (0xFF40) is the main LCD control register
        //   bit 7: LCD on/off,  if 0, PPU does nothing
        //   bit 6: window tile map select (0=0x9800, 1=0x9C00)
        //   bit 5: window enable
        //   bit 4: tile data addressing mode (0=0x9000 signed, 1=0x8000 unsigned)
        //   bit 3: background tile map select (0=0x9800, 1=0x9C00)
        //   bit 2: sprite size (0=8x8, 1=8x16)
        //   bit 1: sprites enable
        //   bit 0: background enable
        let lcdc = memory_bus.read(0xFF40);
        if self.mode == 2 {
            // OAM scan — sprite selection happens here in hardware,
            // but we do it directly in draw_sprites() for simplicity
            if self.cycles >= 80 {
                self.mode = 3;
                self.update_stat_mode(memory_bus, 3);
                self.cycles = self.cycles - 80;
            }
        } else if self.mode == 3 {
            if self.cycles >= 172 {
                if lcdc & 0x80 != 0 {
                    self.draw_line(memory_bus);
                }
                self.mode = 0;
                self.update_stat_mode(memory_bus, 0);
                self.cycles = self.cycles - 172;
            }
        } else if self.mode == 0 {
            if self.cycles >= 204 {
                self.cycles = self.cycles - 204;
                self.ly = self.ly + 1;
                // LY (0xFF44) is a read-only register the game reads to know
                // which line is currently being drawn
                memory_bus.write(0xFF44, self.ly);
                self.check_lyc(memory_bus);
                if self.ly < 144 {
                    self.mode = 2;
                    self.update_stat_mode(memory_bus, 2);
                } else {
                    self.mode = 1;
                    self.update_stat_mode(memory_bus, 1);
                    // Request V-Blank interrupt so the game knows the frame is done.
                    // Games use this moment to update graphics, input, game logic, etc.
                    let if_flag = memory_bus.read(IF_ADDRESS);
                    memory_bus.write(IF_ADDRESS, if_flag | 0x01);
                }
            }
        } else {
            if self.cycles >= 456 {
                self.cycles = self.cycles - 456;
                if self.ly == 153 {
                    // the last V-Blank line is over: a new frame starts
                    self.ly = 0;
                    memory_bus.write(0xFF44, self.ly);
                    self.check_lyc(memory_bus);
                    self.w_counter = 0;
                    self.mode = 2;
                    self.update_stat_mode(memory_bus, 2);
                    self.frame_ready = true;
                } else {
                    self.ly = self.ly + 1;
                    memory_bus.write(0xFF44, self.ly);
                    self.check_lyc(memory_bus);
                }
            }
        }
    }

    fn update_stat_mode(&mut self, memory_bus: &mut MemoryBus, new_mode: u8)
        requires
            old(memory_bus)@.wf(),
        ensures
            final(memory_bus)@ == enter_mode(old(memory_bus)@, new_mode),
            final(memory_bus)@.wf(),
            *final(self) == *old(self),
    {
        let lcd_stat = memory_bus.read(0xFF41);
        let new_stat = (lcd_stat & 0xFC) | new_mode;
        memory_bus.write(0xFF41, new_stat);
        let interrupt_flag = memory_bus.read(IF_ADDRESS);
        if new_mode == 0 {
            if lcd_stat & 0x8 != 0 {
                memory_bus.write(IF_ADDRESS, interrupt_flag | 0x2);
            }
        } else if new_mode == 1 {
            if lcd_stat & 0x10 != 0 {
                memory_bus.write(IF_ADDRESS, interrupt_flag | 0x2);
            }
        } else if new_mode == 2 {
            if lcd_stat & 0x20 != 0 {
                memory_bus.write(IF_ADDRESS, interrupt_flag | 0x2);
            }
        }
    }

    fn check_lyc(&mut self, memory_bus: &mut MemoryBus)
        requires
            old(memory_bus)@.wf(),
        ensures
            final(memory_bus)@ == compare_lyc(old(memory_bus)@, old(self).ly),
            final(memory_bus)@.wf(),
            *final(self) == *old(self),
    {
        let lyc = memory_bus.read(0xFF45);
        let lcd_stat = memory_bus.read(0xFF41);
        if self.ly == lyc {
            memory_bus.write(0xFF41, lcd_stat | 0x04);
            if lcd_stat & 0x40 != 0 {
                let interrupt_flag = memory_bus.read(IF_ADDRESS);
                memory_bus.write(IF_ADDRESS, interrupt_flag | 0x2);
            }
        } else {
            memory_bus.write(0xFF41, lcd_stat & !0x04u8);
        }
    }

    fn draw_line(&mut self, memory_bus: &MemoryBus)
        requires
            color_indices(old(self)@.framebuffer),
            old(self).ly < 144,
            old(self).w_counter <= old(self).ly,
        ensures
            (final(self)@.framebuffer, final(self).w_counter) == draw_line(
                old(self)@.framebuffer,
                old(self).w_counter,
                memory_bus@,
                old(self).ly,
            ),
            final(self)@ == (PpuView {
                framebuffer: final(self)@.framebuffer,
                w_counter: final(self).w_counter,
                ..old(self)@
            }),
            forall|i: int| 0 <= i < SCREEN_SIZE ==> #[trigger] final(self)@.framebuffer[i] <= 3,
    {
        //updated lcdc value needed per line
        let lcdc = memory_bus.read(0xFF40);
        if lcdc & 0x01 != 0 {
            self.draw_background(memory_bus, lcdc);
        }
        if lcdc & 0x20 != 0 {
            self.draw_window(memory_bus, lcdc);
        }
        if lcdc & 0x02 != 0 {
            self.draw_sprites(memory_bus, lcdc);
        }
    }
}


/// The tile data address computed in machine arithmetic.
fn tile_address(lcdc: u8, tile_id: u8, row2: u16) -> (address: u16)
    requires
        row2 <= 14,
    ensures
        address == tile_data_address(lcdc, tile_id, row2 as int),
{
    // bit4=1 → 0x8000 base, tile_id is unsigned (0-255)
    // bit4=0 → 0x9000 base, tile_id is signed (-128 to 127)
    if lcdc & 0x10 != 0 {
        0x8000 + tile_id as u16 * 16 + row2
    } else if tile_id < 128 {
        0x9000 + tile_id as u16 * 16 + row2
    } else {
        0x9000 - (256 - tile_id as u16) * 16 + row2
    }
}

/// The color number of background pixel `col` on scanline `ly`.
fn background_number(memory_bus: &MemoryBus, ly: u8, lcdc: u8, col: u8) -> (number: u8)
    ensures
        number == background_index(memory_bus@, ly, lcdc, col as int),
        number <= 3,
{
    // SCY/SCX (0xFF42/0xFF43): scroll offsets. The background is a 256x256 pixel map
    // that wraps around. SCX/SCY shift the viewport into that map.
    let scy = memory_bus.read(0xFF42);
    let scx = memory_bus.read(0xFF43);
    // Which row of the map does this scanline fall in, and which column does
    // this pixel show?
    let line = ly.wrapping_add(scy);
    let map_x = col.wrapping_add(scx);
    proof {
        crate::cpu::lemma_wrapping8(ly, scy);
        crate::cpu::lemma_wrapping8(col, scx);
    }
    // The tile map is a 32x32 grid of tile IDs stored in VRAM.
    let tile_map_index = (line as u16 / 8 % 32) * 32 + map_x as u16 / 8;
    // LCDC bit 3: selects which tile map to read IDs from.
    let tile_id: u8 = if lcdc & 0x08 != 0 {
        memory_bus.read(0x9C00 + tile_map_index)
    } else {
        memory_bus.read(0x9800 + tile_map_index)
    };
    // LCDC bit 4: selects the tile data addressing mode.
    let tile_data_address = tile_address(lcdc, tile_id, line as u16 % 8 * 2);
    let low = memory_bus.read(tile_data_address);
    let high = memory_bus.read(tile_data_address + 1);
    // Each pixel is encoded across 2 bytes using 2bpp format:
    // bit N of `low` is the LSB of pixel N's color, bit N of `high` is the MSB.
    // Pixel 0 is the leftmost, stored in bit 7.
    let pixel = map_x % 8;
    proof {
        crate::bits::lemma_two_bit_values(high >> (7 - pixel), low >> (7 - pixel));
    }
    (high >> (7 - pixel) & 1) << 1u8 | (low >> (7 - pixel) & 1)
}

/// The color number of window pixel `x` on window line `w_counter`.
fn window_number(memory_bus: &MemoryBus, w_counter: u8, lcdc: u8, x: u8) -> (number: u8)
    ensures
        number == window_pixel(memory_bus@, w_counter, lcdc, x as int),
        number <= 3,
{
    let wx = memory_bus.read(0xFF4B);
    proof {
        crate::cpu::lemma_wrapping8(wx, 7);
        crate::cpu::lemma_wrapping8(x, wx.wrapping_sub(7));
    }
    let offset = x.wrapping_sub(wx.wrapping_sub(7));
    let tile_x = offset / 8;
    let tile_y = w_counter / 8;
    let tile_map_index = (tile_y as u16 % 32) * 32 + (tile_x as u16 % 32);
    let tile_id: u8 = if lcdc & 0x40 != 0 {
        memory_bus.read(0x9C00 + tile_map_index)
    } else {
        memory_bus.read(0x9800 + tile_map_index)
    };
    let tile_data_address = tile_address(lcdc, tile_id, w_counter as u16 % 8 * 2);
    let low = memory_bus.read(tile_data_address);
    let high = memory_bus.read(tile_data_address + 1);
    let pixel = offset % 8;
    proof {
        crate::bits::lemma_two_bit_values(high >> (7 - pixel), low >> (7 - pixel));
    }
    (high >> (7 - pixel) & 1) << 1u8 | (low >> (7 - pixel) & 1)
}

/// The OAM X position of sprite `i`.
fn sprite_x_position(memory_bus: &MemoryBus, i: u16) -> (x: u8)
    requires
        i < 40,
    ensures
        x == oam(memory_bus@, i, 1),
{
    memory_bus.read(0xFE00 + i * 4 + 1)
}

/// The sprites of `sprites` in the order of `sort_by_x`: a stable insertion
/// sort by OAM X.
fn sort_sprites_by_x(memory_bus: &MemoryBus, sprites: &Vec<u16>) -> (sorted: Vec<u16>)
    requires
        forall|k: int| 0 <= k < sprites@.len() ==> #[trigger] sprites@[k] < 40,
    ensures
        sorted@ == sort_by_x(memory_bus@, sprites@),
{
    let ghost bus = memory_bus@;
    let mut sorted: Vec<u16> = Vec::new();
    let mut i: usize = 0;
    while i < sprites.len()
        invariant
            0 <= i <= sprites@.len(),
            forall|k: int| 0 <= k < sprites@.len() ==> #[trigger] sprites@[k] < 40,
            sorted@ == sort_by_x(bus, sprites@.take(i as int)),
            bus == memory_bus@,
        decreases sprites@.len() - i,
    {
        proof {
            assert(sprites@.take(i + 1).drop_last() =~= sprites@.take(i as int));
            lemma_sort_by_x_members(bus, sprites@.take(i as int));
        }
        let sprite = sprites[i];
        let key = sprite_x_position(memory_bus, sprite);
        let mut j: usize = sorted.len();
        proof {
            assert(sorted@.take(j as int) =~= sorted@);
            assert(sorted@.skip(j as int) =~= Seq::<u16>::empty());
        }
        while j > 0 && sprite_x_position(memory_bus, sorted[j - 1]) > key
            invariant
                0 <= j <= sorted@.len(),
                forall|k: int| 0 <= k < sorted@.len() ==> #[trigger] sorted@[k] < 40,
                key == oam(bus, sprite, 1),
                bus == memory_bus@,
                insert_by_x(bus, sorted@, sprite) == insert_by_x(bus, sorted@.take(j as int), sprite)
                    + sorted@.skip(j as int),
            decreases j,
        {
            proof {
                let t = sorted@.take(j as int);
                assert(t.drop_last() =~= sorted@.take(j - 1));
                assert(seq![sorted@[j - 1]] + sorted@.skip(j as int) =~= sorted@.skip(j - 1));
                assert(insert_by_x(bus, t.drop_last(), sprite).push(t.last()) + sorted@.skip(j as int)
                    =~= insert_by_x(bus, t.drop_last(), sprite) + sorted@.skip(j - 1));
            }
            j = j - 1;
        }
        proof {
            let t = sorted@.take(j as int);
            if j == 0 {
                assert(t =~= Seq::<u16>::empty());
            }
            assert(insert_by_x(bus, t, sprite) + sorted@.skip(j as int) =~= sorted@.insert(
                j as int,
                sprite,
            ));
        }
        sorted.insert(j, sprite);
        i = i + 1;
    }
    proof {
        assert(sprites@.take(sprites@.len() as int) =~= sprites@);
    }
    sorted
}

/// Every sprite placed by `insert_by_x` is `i` or comes from `sorted`.
proof fn lemma_insert_by_x_members(bus: BusView, sorted: Seq<u16>, i: u16)
    ensures
        insert_by_x(bus, sorted, i).len() == sorted.len() + 1,
        forall|k: int|
            0 <= k < insert_by_x(bus, sorted, i).len() ==> #[trigger] insert_by_x(bus, sorted, i)[k]
                == i || sorted.contains(insert_by_x(bus, sorted, i)[k]),
    decreases sorted.len(),
{
    if sorted.len() > 0 && !(oam(bus, sorted.last(), 1) <= oam(bus, i, 1)) {
        lemma_insert_by_x_members(bus, sorted.drop_last(), i);
        let r = insert_by_x(bus, sorted.drop_last(), i);
        assert forall|k: int| 0 <= k < r.len() && r[k] != i implies sorted.contains(r[k]) by {
            let w = choose|w: int| 0 <= w < sorted.drop_last().len() && sorted.drop_last()[w] == r[k];
            assert(sorted[w] == r[k]);
        }
        assert(sorted[sorted.len() - 1] == sorted.last());
    } else if sorted.len() > 0 {
        assert forall|k: int| 0 <= k < sorted.len() implies sorted.contains(#[trigger] sorted.push(i)[k]) by {
            assert(sorted.push(i)[k] == sorted[k]);
        }
    }
}

/// Sorting keeps the length and takes every sprite from the input.
proof fn lemma_sort_by_x_members(bus: BusView, s: Seq<u16>)
    ensures
        sort_by_x(bus, s).len() == s.len(),
        forall|k: int| 0 <= k < sort_by_x(bus, s).len() ==> s.contains(#[trigger] sort_by_x(bus, s)[k]),
    decreases s.len(),
{
    if s.len() > 0 {
        lemma_sort_by_x_members(bus, s.drop_last());
        let prev = sort_by_x(bus, s.drop_last());
        lemma_insert_by_x_members(bus, prev, s.last());
        assert forall|k: int| 0 <= k < sort_by_x(bus, s).len() implies s.contains(#[trigger] sort_by_x(bus, s)[k]) by {
            let v = sort_by_x(bus, s)[k];
            if v == s.last() {
                assert(s[s.len() - 1] == v);
            } else {
                assert(prev.contains(v));
                let w = choose|w: int| 0 <= w < prev.len() && prev[w] == v;
                assert(s.drop_last().contains(v));
                let u = choose|u: int| 0 <= u < s.drop_last().len() && s.drop_last()[u] == v;
                assert(s[u] == v);
            }
        }
    }
}

/// The selected sprites are OAM indices below `n` that cover the line, at
/// most ten of them.
proof fn lemma_selected_sprites(bus: BusView, ly: u8, height: u8, n: nat)
    ensures
        selected_sprites(bus, ly, height, n).len() <= 10,
        forall|k: int|
            0 <= k < selected_sprites(bus, ly, height, n).len() ==> #[trigger] selected_sprites(
                bus,
                ly,
                height,
                n,
            )[k] < n && on_line(bus, ly, height, selected_sprites(bus, ly, height, n)[k]),
    decreases n,
{
    if n > 0 {
        lemma_selected_sprites(bus, ly, height, (n - 1) as nat);
    }
}

impl PPU {
    fn draw_window(&mut self, memory_bus: &MemoryBus, lcdc: u8)
        requires
            color_indices(old(self)@.framebuffer),
            old(self).ly < 144,
            old(self).w_counter <= old(self).ly,
        ensures
            final(self)@ == (PpuView {
                framebuffer: draw_window(
                    old(self)@.framebuffer,
                    memory_bus@,
                    old(self).ly,
                    old(self).w_counter,
                    lcdc,
                ),
                w_counter: window_counter_after(memory_bus@, old(self).ly, old(self).w_counter),
                ..old(self)@
            }),
            forall|i: int| 0 <= i < SCREEN_SIZE ==> #[trigger] final(self)@.framebuffer[i] <= 3,
    {
        let ghost bus = memory_bus@;
        let ghost fb0 = self.framebuffer@;
        let wx = memory_bus.read(0xFF4B);
        let wy = memory_bus.read(0xFF4A);
        let ly = self.ly;
        let w_counter = self.w_counter;
        let mut window_drawn = false;
        let mut x: u8 = 0;
        while x < 160
            invariant
                0 <= x <= 160,
                ly < 144,
                bus == memory_bus@,
                wx == bus.read_at(0xFF4B),
                wy == bus.read_at(0xFF4A),
                self@ == (PpuView { framebuffer: self@.framebuffer, ..old(self)@ }),
                ly == old(self).ly,
                w_counter == old(self).w_counter,
                fb0 == old(self)@.framebuffer,
                self@.framebuffer.len() == SCREEN_SIZE,
                window_drawn == (ly >= wy && x > 0 && wx <= x + 6),
                forall|i: int| 0 <= i < SCREEN_SIZE ==> #[trigger] self@.framebuffer[i] <= 3,
                forall|i: int|
                    0 <= i < SCREEN_SIZE ==> #[trigger] self@.framebuffer[i] == if ly * 160 <= i
                        < ly * 160 + x && in_window(bus, ly, i - ly * 160) {
                        window_pixel(bus, w_counter, lcdc, i - ly * 160)
                    } else {
                        fb0[i]
                    },
            decreases 160 - x,
        {
            if x + 7 >= wx && ly >= wy {
                let color = window_number(memory_bus, w_counter, lcdc, x);
                self.framebuffer[ly as usize * 160 + x as usize] = color;
                window_drawn = true;
            }
            x = x + 1;
        }
        if ly >= wy && window_drawn {
            self.w_counter = self.w_counter + 1;
        }
        proof {
            assert(self@.framebuffer =~= draw_window(fb0, bus, ly, w_counter, lcdc));
        }
    }

    fn draw_background(&mut self, memory_bus: &MemoryBus, lcdc: u8)
        requires
            color_indices(old(self)@.framebuffer),
            old(self).ly < 144,
        ensures
            final(self)@ == (PpuView {
                framebuffer: draw_background(old(self)@.framebuffer, memory_bus@, old(self).ly, lcdc),
                ..old(self)@
            }),
            forall|i: int| 0 <= i < SCREEN_SIZE ==> #[trigger] final(self)@.framebuffer[i] <= 3,
    {
        let ghost bus = memory_bus@;
        let ghost fb0 = self.framebuffer@;
        let ly = self.ly;
        // BGP (0xFF47) maps the background's color numbers to shades.
        let bgp = memory_bus.read(0xFF47);
        let mut col: u8 = 0;
        while col < 160
            invariant
                0 <= col <= 160,
                ly < 144,
                bus == memory_bus@,
                bgp == bus.read_at(0xFF47),
                self@ == (PpuView { framebuffer: self@.framebuffer, ..old(self)@ }),
                ly == old(self).ly,
                fb0 == old(self)@.framebuffer,
                self@.framebuffer.len() == SCREEN_SIZE,
                forall|i: int| 0 <= i < SCREEN_SIZE ==> #[trigger] self@.framebuffer[i] <= 3,
                forall|i: int|
                    0 <= i < SCREEN_SIZE ==> #[trigger] self@.framebuffer[i] == if ly * 160 <= i
                        < ly * 160 + col {
                        background_pixel(bus, ly, lcdc, i - ly * 160)
                    } else {
                        fb0[i]
                    },
            decreases 160 - col,
        {
            let pixel_color = background_number(memory_bus, ly, lcdc, col);
            let color = (bgp >> (pixel_color * 2)) & 0x03;
            proof {
                crate::bits::lemma_two_bit_values(bgp >> (pixel_color * 2), 0);
            }
            self.framebuffer[ly as usize * 160 + col as usize] = color;
            col = col + 1;
        }
        proof {
            assert(self@.framebuffer =~= draw_background(fb0, bus, ly, lcdc));
        }
    }

    /// The sprites covering the current line, in OAM order, at most ten.
    fn select_sprites(&self, memory_bus: &MemoryBus, height: u8) -> (sprites: Vec<u16>)
        ensures
            sprites@ == selected_sprites(memory_bus@, self.ly, height, 40),
    {
        let mut sprites: Vec<u16> = Vec::new();
        let ly = self.ly;
        let mut sprite_index: u16 = 0;
        while sprite_index < 40
            invariant
                0 <= sprite_index <= 40,
                ly == self.ly,
                sprites@ == selected_sprites(memory_bus@, ly, height, sprite_index as nat),
            decreases 40 - sprite_index,
        {
            // Hardware limitation: only 10 sprites can appear on the same scanline.
            // If more than 10 intersect, the ones with higher OAM index are dropped.
            let base = 0xFE00 + sprite_index * 4;
            let sprite_y = memory_bus.read(base);
            // Check if this sprite overlaps the current scanline.
            // With the Y offset, the sprite covers screen rows (sprite_y - 16) to (sprite_y - 9).
            if sprites.len() < 10 && (sprite_y as u16) <= ly as u16 + 16 && (ly as u16 + 16)
                < sprite_y as u16 + height as u16 {
                sprites.push(sprite_index);
            }
            sprite_index = sprite_index + 1;
        }
        sprites
    }

    fn draw_sprites(&mut self, memory_bus: &MemoryBus, lcdc: u8)
        requires
            color_indices(old(self)@.framebuffer),
            old(self).ly < 144,
        ensures
            final(self)@ == (PpuView {
                framebuffer: draw_sprites(old(self)@.framebuffer, memory_bus@, old(self).ly, lcdc),
                ..old(self)@
            }),
            forall|i: int| 0 <= i < SCREEN_SIZE ==> #[trigger] final(self)@.framebuffer[i] <= 3,
    {
        // OAM (Object Attribute Memory) at 0xFE00–0xFE9F stores data for up to 40 sprites.
        // Each sprite is 4 bytes: [Y position, X position, tile index, attributes]
        //
        // Y and X are offset by 16 and 8 respectively:
        //   OAM Y=16 → screen Y=0,  OAM Y=0 → sprite is 16px above the screen (hidden)
        //   OAM X=8  → screen X=0,  OAM X=0 → sprite is 8px left of the screen (hidden)
        // This allows sprites to enter the screen partially from any edge.
        let ghost bus = memory_bus@;
        let ghost fb0 = self.framebuffer@;
        let height: u8 = if lcdc & 0x04 != 0 {
            16
        } else {
            8
        };
        let sprites = self.select_sprites(memory_bus, height);
        proof {
            lemma_selected_sprites(bus, self.ly, height, 40);
        }
        let sorted = sort_sprites_by_x(memory_bus, &sprites);
        proof {
            lemma_sort_by_x_members(bus, sprites@);
            assert forall|k: int| 0 <= k < sorted@.len() implies #[trigger] sorted@[k] < 40 && on_line(
                bus,
                self.ly,
                height,
                sorted@[k],
            ) by {
                assert(sprites@.contains(sorted@[k]));
            }
            assert(sorted@.take(sorted@.len() as int) =~= sorted@);
        }
        let mut k: usize = sorted.len();
        while k > 0
            invariant
                0 <= k <= sorted@.len(),
                bus == memory_bus@,
                old(self).ly < 144,
                self@ == (PpuView { framebuffer: self@.framebuffer, ..old(self)@ }),
                self@.framebuffer.len() == SCREEN_SIZE,
                forall|i: int| 0 <= i < SCREEN_SIZE ==> #[trigger] self@.framebuffer[i] <= 3,
                forall|j: int|
                    0 <= j < sorted@.len() ==> #[trigger] sorted@[j] < 40 && on_line(
                        bus,
                        old(self).ly,
                        height,
                        sorted@[j],
                    ),
                draw_sprite_list(self@.framebuffer, bus, old(self).ly, height, sorted@.take(k as int))
                    == draw_sprite_list(fb0, bus, old(self).ly, height, sorted@),
                fb0 == old(self)@.framebuffer,
                height == sprite_height(lcdc),
            decreases k,
        {
            proof {
                assert(sorted@.take(k as int).drop_last() =~= sorted@.take(k - 1));
                assert(sorted@.take(k as int).last() == sorted@[k - 1]);
            }
            self.draw_sprite(memory_bus, height, sorted[k - 1]);
            k = k - 1;
        }
        proof {
            assert(sorted@.take(0) =~= Seq::<u16>::empty());
        }
    }

    /// Draws the eight pixels of sprite `sprite` on the current line.
    fn draw_sprite(&mut self, memory_bus: &MemoryBus, height: u8, sprite: u16)
        requires
            old(self).ly < 144,
            old(self)@.framebuffer.len() == SCREEN_SIZE,
            forall|i: int| 0 <= i < SCREEN_SIZE ==> #[trigger] old(self)@.framebuffer[i] <= 3,
            height == 8 || height == 16,
            sprite < 40,
            on_line(memory_bus@, old(self).ly, height, sprite),
        ensures
            final(self)@ == (PpuView {
                framebuffer: draw_sprite_pixels(
                    old(self)@.framebuffer,
                    memory_bus@,
                    old(self).ly,
                    height,
                    sprite,
                    8,
                ),
                ..old(self)@
            }),
            forall|i: int| 0 <= i < SCREEN_SIZE ==> #[trigger] final(self)@.framebuffer[i] <= 3,
    {
        let ghost bus = memory_bus@;
        let ghost fb0 = self.framebuffer@;
        let ly = self.ly;
        let base = 0xFE00 + sprite * 4;
        let sprite_y = memory_bus.read(base);
        let sprite_x = memory_bus.read(base + 1);
        let tile_id = memory_bus.read(base + 2);
        let attributes = memory_bus.read(base + 3);
        let obp = if attributes & 0x10 != 0 {
            //obp1
            memory_bus.read(0xFF49)
        } else {
            //obp0
            memory_bus.read(0xFF48)
        };
        let mut effective_tile_id = tile_id;
        // Which row within the tile are we drawing?
        // (ly + 16 - sprite_y) gives the offset from the top of the sprite.
        let mut row = (ly + 16 - sprite_y) % height;
        if attributes & 0x40 != 0 {
            //y flip
            row = height - 1 - row;
        }
        if height == 16 {
            if row < 8 {
                effective_tile_id = tile_id & 0xFE;
            } else {
                effective_tile_id = tile_id | 0x01;
                row = row - 8;
            }
        }
        let tile_data_address = 0x8000 + effective_tile_id as u16 * 16 + row as u16 * 2;
        assert(tile_data_address == sprite_row_address(bus, ly, height, sprite));
        let low = memory_bus.read(tile_data_address);
        let high = memory_bus.read(tile_data_address + 1);
        let mut pixel: u8 = 0;
        while pixel < 8
            invariant
                0 <= pixel <= 8,
                ly < 144,
                ly == old(self).ly,
                bus == memory_bus@,
                sprite < 40,
                sprite_x == oam(bus, sprite, 1),
                attributes == oam(bus, sprite, 3),
                obp == (if attributes & 0x10 != 0 {
                    bus.read_at(0xFF49)
                } else {
                    bus.read_at(0xFF48)
                }),
                tile_data_address == sprite_row_address(bus, ly, height, sprite),
                low == bus.read_at(tile_data_address),
                high == bus.read_at((tile_data_address + 1) as u16),
                self@ == (PpuView { framebuffer: self@.framebuffer, ..old(self)@ }),
                self@.framebuffer.len() == SCREEN_SIZE,
                forall|i: int| 0 <= i < SCREEN_SIZE ==> #[trigger] self@.framebuffer[i] <= 3,
                self@.framebuffer == draw_sprite_pixels(fb0, bus, ly, height, sprite, pixel as nat),
            decreases 8 - pixel,
        {
            let pixel_color = if attributes & 0x20 != 0 {
                (high >> pixel & 1) << 1u8 | (low >> pixel & 1)
            } else {
                (high >> (7 - pixel) & 1) << 1u8 | (low >> (7 - pixel) & 1)
            };
            proof {
                crate::bits::lemma_two_bit_values(high >> pixel, low >> pixel);
                crate::bits::lemma_two_bit_values(high >> (7 - pixel), low >> (7 - pixel));
            }
            let color = (obp >> (pixel_color * 2)) & 0x03;
            proof {
                crate::bits::lemma_two_bit_values(obp >> (pixel_color * 2), 0);
            }
            // Color number 0 is always transparent for sprites (unlike the
            // background, where it is a real color)
            if pixel_color != 0 {
                // OAM X is offset by 8; columns off either edge are clipped
                let column = sprite_x as u16 + pixel as u16;
                if column >= 8 && column < 168 {
                    let screen_x = (column - 8) as u8;
                    let framebuffer_index = ly as usize * 160 + screen_x as usize;
                    if attributes & 0x80 != 0 {
                        // behind the background: only over pixels of shade 0
                        if self.framebuffer[framebuffer_index] == 0 {
                            self.framebuffer[framebuffer_index] = color;
                        }
                    } else {
                        self.framebuffer[framebuffer_index] = color;
                    }
                }
            }
            pixel = pixel + 1;
        }
    }
}

} // verus!
