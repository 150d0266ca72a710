//! What a scanline looks like: tile decoding, the background and window
//! layers, sprite selection and ordering, and the colour of every pixel.

use vstd::prelude::*;
use crate::bits::{lemma_bit_masks, lemma_bit_pair, lemma_palette_bits, test_bit};
use crate::memory::Memory;

verus! {

pub const LCDC_ADDR: u16 = 0xFF40;

pub const STAT_ADDR: u16 = 0xFF41;

pub const SCY_ADDR: u16 = 0xFF42;

pub const SCX_ADDR: u16 = 0xFF43;

pub const LY_ADDR: u16 = 0xFF44;

pub const LYC_ADDR: u16 = 0xFF45;

pub const BGP_ADDR: u16 = 0xFF47;

pub const OBP0_ADDR: u16 = 0xFF48;

pub const OBP1_ADDR: u16 = 0xFF49;

pub const WY_ADDR: u16 = 0xFF4A;

pub const WX_ADDR: u16 = 0xFF4B;

pub const OAM_ADDR: u16 = 0xFE00;

/// Pixels in a scanline.
pub const SCREEN_WIDTH: usize = 160;

/// Visible scanlines.
pub const SCREEN_HEIGHT: usize = 144;

/// Pixels in a frame.
pub const FRAME_PIXELS: usize = 23040;

/// The ARGB value of a shade: 0 is white, 3 is black.
pub open spec fn shade_argb(shade: u8) -> u32 {
    if shade == 0 {
        0xFFFFFFFF
    } else if shade == 1 {
        0xFFAAAAAA
    } else if shade == 2 {
        0xFF555555
    } else {
        0xFF000000
    }
}

/// The ARGB value that `palette` gives to the 2-bit colour `color`: the
/// palette holds one 2-bit shade per colour, colour 0 in its lowest bits.
pub open spec fn shade(palette: u8, color: u8) -> u32 {
    if color == 0 {
        shade_argb((palette % 4) as u8)
    } else if color == 1 {
        shade_argb(((palette / 4) % 4) as u8)
    } else if color == 2 {
        shade_argb(((palette / 16) % 4) as u8)
    } else {
        shade_argb((palette / 64) as u8)
    }
}

/// The 2-bit colour that bit `bit` of the two bit planes of a tile row
/// encodes: `hi` gives the upper bit, `lo` the lower.
pub open spec fn pixel_color(lo: u8, hi: u8, bit: u8) -> u8 {
    ((if test_bit(hi, bit) { 2int } else { 0 }) + (if test_bit(lo, bit) { 1int } else { 0 })) as u8
}

/// Where the 16 bytes of background or window tile `tile` start. With LCDC
/// bit 4 set the index is unsigned from 0x8000; otherwise it is signed, with
/// tile 0 at 0x9000.
pub open spec fn tile_data_addr(lcdc: u8, tile: u8) -> int {
    if test_bit(lcdc, 4) {
        0x8000 + tile * 16
    } else if tile < 128 {
        0x9000 + tile * 16
    } else {
        0x8800 + (tile - 128) * 16
    }
}

/// The colour of the tile that entry `entry` of the tile map at `map` names,
/// at column `col` (0 is leftmost) of its row `row`.
pub open spec fn map_color(m: Seq<u8>, map: int, entry: int, row: int, col: int) -> u8 {
    let data = tile_data_addr(m[LCDC_ADDR as int], m[map + entry]) + row * 2;
    pixel_color(m[data], m[data + 1], (7 - col) as u8)
}

/// The background colour at pixel `x` of scanline `line`: the background
/// plane is 256 by 256 pixels, scrolled by SCX and SCY and wrapping.
pub open spec fn bg_color(m: Seq<u8>, line: u8, x: int) -> u8 {
    let px = (m[SCX_ADDR as int] + x) % 256;
    let py = (m[SCY_ADDR as int] + line) % 256;
    let map = if test_bit(m[LCDC_ADDR as int], 3) {
        0x9C00int
    } else {
        0x9800int
    };
    map_color(m, map, (py / 8) * 32 + px / 8, py % 8, px % 8)
}

/// Whether the window is shown on scanline `line`: it is enabled and the
/// line has reached WY.
pub open spec fn window_on_line(m: Seq<u8>, line: u8) -> bool {
    test_bit(m[LCDC_ADDR as int], 5) && line >= m[WY_ADDR as int]
}

/// Whether the window covers pixel `x` of scanline `line`: its left edge is
/// at WX - 7.
pub open spec fn window_covers(m: Seq<u8>, line: u8, x: int) -> bool {
    window_on_line(m, line) && x + 7 >= m[WX_ADDR as int]
}

/// Whether the window covers any pixel of scanline `line`.
pub open spec fn window_drawn(m: Seq<u8>, line: u8) -> bool {
    window_on_line(m, line) && m[WX_ADDR as int] <= 166
}

/// The window colour at pixel `x`, where `wline` counts the scanlines on
/// which the window was drawn before this one.
pub open spec fn window_color(m: Seq<u8>, wline: u8, x: int) -> u8 {
    let col = x + 7 - m[WX_ADDR as int];
    let map = if test_bit(m[LCDC_ADDR as int], 6) {
        0x9C00int
    } else {
        0x9800int
    };
    map_color(m, map, (wline / 8) * 32 + col / 8, (wline % 8) as int, col % 8)
}

/// The colour index under the sprites at pixel `x`: the window's where it
/// covers the pixel, else the background's if that is enabled, else 0.
pub open spec fn layer_color(m: Seq<u8>, line: u8, wline: u8, x: int) -> u8 {
    if window_covers(m, line, x) {
        window_color(m, wline, x)
    } else if test_bit(m[LCDC_ADDR as int], 0) {
        bg_color(m, line, x)
    } else {
        0
    }
}

/// The pixel that background and window leave at `x`: the layer colour
/// through BGP, or `under` where neither layer is drawn.
pub open spec fn layer_pixel(m: Seq<u8>, line: u8, wline: u8, x: int, under: u32) -> u32 {
    if window_covers(m, line, x) || test_bit(m[LCDC_ADDR as int], 0) {
        shade(m[BGP_ADDR as int], layer_color(m, line, wline, x))
    } else {
        under
    }
}

/// One entry of the sprite attribute table, in screen coordinates.
#[derive(Clone, Copy, PartialEq, Eq, Structural, Debug)]
pub struct Sprite {
    /// Column of the left edge: the stored byte minus 8.
    pub x: i16,
    /// Scanline of the top edge: the stored byte minus 16.
    pub y: i16,
    pub tile: u8,
    pub attributes: u8,
    /// Position in the attribute table, 0 to 39.
    pub index: u8,
}

/// Entry `i` of the sprite attribute table.
pub open spec fn oam_sprite(m: Seq<u8>, i: int) -> Sprite {
    Sprite {
        y: (m[OAM_ADDR + 4 * i] - 16) as i16,
        x: (m[OAM_ADDR + 4 * i + 1] - 8) as i16,
        tile: m[OAM_ADDR + 4 * i + 2],
        attributes: m[OAM_ADDR + 4 * i + 3],
        index: i as u8,
    }
}

/// Sprite height in scanlines: 16 with LCDC bit 2, else 8.
pub open spec fn sprite_height(m: Seq<u8>) -> int {
    if test_bit(m[LCDC_ADDR as int], 2) {
        16
    } else {
        8
    }
}

/// Whether a sprite of the given height crosses scanline `line`.
pub open spec fn sprite_on_line(s: Sprite, line: u8, height: int) -> bool {
    s.y <= line < s.y + height
}

/// The sprites among the first `n` table entries that cross `line`, in table
/// order, cut off after the tenth.
pub open spec fn line_sprites(m: Seq<u8>, line: u8, n: int) -> Seq<Sprite>
    decreases n,
{
    if n <= 0 {
        Seq::empty()
    } else {
        let before = line_sprites(m, line, n - 1);
        let s = oam_sprite(m, n - 1);
        if before.len() < 10 && sprite_on_line(s, line, sprite_height(m)) {
            before.push(s)
        } else {
            before
        }
    }
}

/// Drawing order: by column, and by table position within a column.
pub open spec fn sprite_before(a: Sprite, b: Sprite) -> bool {
    a.x < b.x || (a.x == b.x && a.index < b.index)
}

/// `s` with `e` put in front of the trailing run of elements that come
/// after `e` in drawing order.
pub open spec fn insert_sprite(s: Seq<Sprite>, e: Sprite) -> Seq<Sprite>
    decreases s.len(),
{
    if s.len() == 0 {
        seq![e]
    } else if sprite_before(e, s.last()) {
        insert_sprite(s.drop_last(), e).push(s.last())
    } else {
        s.push(e)
    }
}

/// The sprites of `s` in drawing order.
pub open spec fn sorted_sprites(s: Seq<Sprite>) -> Seq<Sprite>
    decreases s.len(),
{
    if s.len() == 0 {
        s
    } else {
        insert_sprite(sorted_sprites(s.drop_last()), s.last())
    }
}

/// Whether every sprite of `s` comes before the next one in drawing order.
pub open spec fn sprites_ordered(s: Seq<Sprite>) -> bool {
    forall|i: int, j: int| 0 <= i < j < s.len() ==> sprite_before(#[trigger] s[i], #[trigger] s[j])
}

/// The colour index of sprite `s` at pixel `x` of scanline `line`, for `x`
/// within the sprite's eight columns. Attribute bit 5 mirrors the columns,
/// bit 6 the rows; a 16-line sprite ignores the lowest bit of its tile index.
pub open spec fn sprite_color(m: Seq<u8>, s: Sprite, line: u8, x: int) -> u8 {
    let height = sprite_height(m);
    let row = if test_bit(s.attributes, 6) {
        height - 1 - (line - s.y)
    } else {
        line - s.y
    };
    let tile = if height == 16 {
        (s.tile / 2) * 2
    } else {
        s.tile as int
    };
    let data = 0x8000 + tile * 16 + row * 2;
    let col = x - s.x;
    let bit = if test_bit(s.attributes, 5) {
        col
    } else {
        7 - col
    };
    pixel_color(m[data], m[data + 1], bit as u8)
}

/// Whether sprite `s` puts a pixel at `x`: the pixel is within its columns,
/// its colour is not the transparent 0, and, with attribute bit 7, the layer
/// under it has colour 0.
pub open spec fn sprite_shows(m: Seq<u8>, s: Sprite, line: u8, wline: u8, x: int) -> bool {
    &&& s.x <= x < s.x + 8
    &&& sprite_color(m, s, line, x) != 0
    &&& test_bit(s.attributes, 7) ==> layer_color(m, line, wline, x) == 0
}

/// The pixel at `x` once sprite `s` is drawn over `under`. Attribute bit 4
/// selects OBP1 over OBP0.
pub open spec fn sprite_overlay(m: Seq<u8>, s: Sprite, line: u8, wline: u8, x: int, under: u32) -> u32 {
    if sprite_shows(m, s, line, wline, x) {
        let palette = if test_bit(s.attributes, 4) {
            m[OBP1_ADDR as int]
        } else {
            m[OBP0_ADDR as int]
        };
        shade(palette, sprite_color(m, s, line, x))
    } else {
        under
    }
}

/// The pixel at `x` once the sprites of `sprites` are drawn over `under`,
/// first to last.
pub open spec fn sprites_pixel(
    m: Seq<u8>,
    sprites: Seq<Sprite>,
    line: u8,
    wline: u8,
    x: int,
    under: u32,
) -> u32
    decreases sprites.len(),
{
    if sprites.len() == 0 {
        under
    } else {
        sprite_overlay(
            m,
            sprites.last(),
            line,
            wline,
            x,
            sprites_pixel(m, sprites.drop_last(), line, wline, x, under),
        )
    }
}

/// The pixel at `x` of scanline `line` after rendering, where `under` is
/// what the frame held there: background and window first (LCDC bits 0 and
/// 5), then, with LCDC bit 1, the line's sprites in drawing order.
pub open spec fn scanline_pixel(m: Seq<u8>, line: u8, wline: u8, x: int, under: u32) -> u32 {
    let base = layer_pixel(m, line, wline, x, under);
    if test_bit(m[LCDC_ADDR as int], 1) {
        sprites_pixel(m, sorted_sprites(line_sprites(m, line, 40)), line, wline, x, base)
    } else {
        base
    }
}

/// The frame after scanline `line` is rendered into `frame`.
pub open spec fn render_line(m: Seq<u8>, line: u8, wline: u8, frame: Seq<u32>) -> Seq<u32> {
    Seq::new(
        FRAME_PIXELS as nat,
        |i: int|
            if line * 160 <= i < line * 160 + 160 {
                scanline_pixel(m, line, wline, i - line * 160, frame[i])
            } else {
                frame[i]
            },
    )
}

/// The ARGB value that `palette` gives to colour `color_num`.
pub fn get_color(color_num: u8, palette: u8) -> (argb: u32)
    requires
        color_num <= 3,
    ensures
        argb == shade(palette, color_num),
{
    proof {
        lemma_palette_bits(palette);
    }
    let shade = if color_num == 0 {
        palette & 0x03
    } else if color_num == 1 {
        (palette >> 2) & 0x03
    } else if color_num == 2 {
        (palette >> 4) & 0x03
    } else {
        (palette >> 6) & 0x03
    };
    if shade == 0 {
        0xFFFFFFFF
    } else if shade == 1 {
        0xFFAAAAAA
    } else if shade == 2 {
        0xFF555555
    } else {
        0xFF000000
    }
}

/// The colour that bit `bit` of a tile row's two bit planes encodes.
pub fn tile_pixel(lo: u8, hi: u8, bit: u8) -> (c: u8)
    requires
        bit < 8,
    ensures
        c == pixel_color(lo, hi, bit),
        c <= 3,
{
    proof {
        lemma_bit_pair(lo, hi, bit);
        lemma_bit_masks(lo);
        lemma_bit_masks(hi);
    }
    (((hi >> bit) & 1) << 1) | ((lo >> bit) & 1)
}

/// Looks a map entry up and decodes one pixel of the tile it names.
pub fn tile_map_color(memory: &Memory, map: u16, entry: u16, row: u8, col: u8) -> (c: u8)
    requires
        map == 0x9800 || map == 0x9C00,
        entry < 1024,
        row < 8,
        col < 8,
    ensures
        c == map_color(memory@, map as int, entry as int, row as int, col as int),
        c <= 3,
{
    let lcdc = memory.read_byte(LCDC_ADDR);
    let tile = memory.read_byte(map + entry);
    proof {
        lemma_bit_masks(lcdc);
    }
    let base: u16 = if lcdc & 0x10 != 0 {
        0x8000 + (tile as u16) * 16
    } else if tile < 128 {
        0x9000 + (tile as u16) * 16
    } else {
        0x8800 + (tile as u16 - 128) * 16
    };
    let data = base + (row as u16) * 2;
    let lo = memory.read_byte(data);
    let hi = memory.read_byte(data + 1);
    tile_pixel(lo, hi, 7 - col)
}

/// The background colour at pixel `x` of scanline `line`.
pub fn background_color(memory: &Memory, line: u8, x: u8) -> (c: u8)
    ensures
        c == bg_color(memory@, line, x as int),
        c <= 3,
{
    let lcdc = memory.read_byte(LCDC_ADDR);
    let x_pos = memory.read_byte(SCX_ADDR).wrapping_add(x);
    let y_pos = memory.read_byte(SCY_ADDR).wrapping_add(line);
    proof {
        lemma_bit_masks(lcdc);
    }
    let map: u16 = if lcdc & 0x08 != 0 {
        0x9C00
    } else {
        0x9800
    };
    tile_map_color(memory, map, (y_pos as u16 / 8) * 32 + (x_pos as u16 / 8), y_pos % 8, x_pos % 8)
}

/// Whether the window covers pixel `x` of scanline `line`.
pub fn window_covers_pixel(memory: &Memory, line: u8, x: u8) -> (covers: bool)
    ensures
        covers == window_covers(memory@, line, x as int),
{
    let lcdc = memory.read_byte(LCDC_ADDR);
    let wy = memory.read_byte(WY_ADDR);
    let wx = memory.read_byte(WX_ADDR);
    proof {
        lemma_bit_masks(lcdc);
    }
    lcdc & 0x20 != 0 && line >= wy && x as u16 + 7 >= wx as u16
}

/// The window colour at pixel `x`, on the window's own line `wline`.
pub fn window_pixel_color(memory: &Memory, wline: u8, x: u8) -> (c: u8)
    requires
        x < 160,
        x + 7 >= memory@[WX_ADDR as int],
    ensures
        c == window_color(memory@, wline, x as int),
        c <= 3,
{
    let lcdc = memory.read_byte(LCDC_ADDR);
    let wx = memory.read_byte(WX_ADDR);
    let col: u16 = x as u16 + 7 - wx as u16;
    proof {
        lemma_bit_masks(lcdc);
    }
    let map: u16 = if lcdc & 0x40 != 0 {
        0x9C00
    } else {
        0x9800
    };
    tile_map_color(memory, map, (wline as u16 / 8) * 32 + col / 8, wline % 8, (col % 8) as u8)
}

/// The colour index under the sprites at pixel `x`.
pub fn layer_color_at(memory: &Memory, line: u8, wline: u8, x: u8) -> (c: u8)
    requires
        x < 160,
    ensures
        c == layer_color(memory@, line, wline, x as int),
        c <= 3,
{
    let lcdc = memory.read_byte(LCDC_ADDR);
    proof {
        lemma_bit_masks(lcdc);
    }
    if window_covers_pixel(memory, line, x) {
        window_pixel_color(memory, wline, x)
    } else if lcdc & 0x01 != 0 {
        background_color(memory, line, x)
    } else {
        0
    }
}

} // verus!
