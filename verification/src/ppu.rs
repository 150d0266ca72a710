//! The pixel-processing unit: a four-phase state machine per scanline that
//! renders into a 160 by 144 frame, keeps LY and STAT current and raises the
//! VBlank and STAT interrupts.

use vstd::prelude::*;
use crate::bits::{lemma_bit_masks, lemma_set_clear_bit, lemma_stat_bits, set_bit, test_bit};
use crate::memory::{bus_write, Memory, IF_ADDR};
use crate::video::{
    background_color, bg_color, get_color, insert_sprite, layer_color_at, line_sprites,
    oam_sprite, render_line, shade, sorted_sprites, sprite_before, sprite_color, sprite_height,
    sprite_on_line, sprite_overlay, sprites_ordered, sprites_pixel, tile_pixel, window_color,
    window_covers, window_covers_pixel, window_drawn, window_pixel_color, Sprite, BGP_ADDR,
    FRAME_PIXELS, LCDC_ADDR, LYC_ADDR, LY_ADDR, OAM_ADDR, OBP0_ADDR, OBP1_ADDR, STAT_ADDR,
    WX_ADDR, WY_ADDR,
};

verus! {

/// Phase 0: horizontal blank.
pub const MODE_HBLANK: u8 = 0;

/// Phase 1: vertical blank.
pub const MODE_VBLANK: u8 = 1;

/// Phase 2: sprite-table scan.
pub const MODE_OAM_SCAN: u8 = 2;

/// Phase 3: drawing.
pub const MODE_DRAWING: u8 = 3;

/// What the unit holds, as plain mathematical values.
pub struct PpuState {
    pub mode: u8,
    pub mode_clock: int,
    pub line: u8,
    pub window_line: u8,
    pub framebuffer: Seq<u32>,
    pub frame_ready: bool,
}

impl PpuState {
    /// The unit at the start of the scan of line 0, with a blank frame.
    pub open spec fn reset() -> PpuState {
        PpuState {
            mode: MODE_OAM_SCAN,
            mode_clock: 0,
            line: 0,
            window_line: 0,
            framebuffer: Seq::new(FRAME_PIXELS as nat, |i: int| 0u32),
            frame_ready: false,
        }
    }

    /// The phase is one of the four, the scanline fits it (144 to 153 in
    /// vertical blank, 0 to 143 otherwise), and the window's line counter
    /// has not run ahead of the scanline.
    pub open spec fn wf(self) -> bool {
        &&& self.framebuffer.len() == FRAME_PIXELS
        &&& self.mode <= 3
        &&& self.mode_clock >= 0
        &&& if self.mode == MODE_VBLANK {
            144 <= self.line <= 153 && self.window_line <= 144
        } else if self.mode == MODE_HBLANK {
            self.line <= 143 && self.window_line <= self.line + 1
        } else {
            self.line <= 143 && self.window_line <= self.line
        }
    }
}

/// How many clock ticks a phase lasts; in vertical blank, one scanline.
pub open spec fn mode_duration(mode: u8) -> int {
    if mode == MODE_OAM_SCAN {
        80
    } else if mode == MODE_DRAWING {
        172
    } else if mode == MODE_HBLANK {
        204
    } else {
        456
    }
}

/// The bus image after interrupt `bit` is requested in IF.
pub open spec fn raise_interrupt(m: Seq<u8>, bit: u8) -> Seq<u8> {
    bus_write(m, IF_ADDR, set_bit(m[IF_ADDR as int], bit))
}

/// The bus image after STAT is brought up to date: its low two bits take the
/// phase and bit 2 tells whether the scanline equals LYC. Where that bit goes
/// from clear to set while bit 6 is set, the STAT interrupt is requested.
pub open spec fn stat_refresh(p: PpuState, m: Seq<u8>) -> Seq<u8> {
    let stat = m[STAT_ADDR as int];
    let coincide = p.line == m[LYC_ADDR as int];
    let requested = if coincide && test_bit(stat, 6) && !test_bit(stat, 2) {
        raise_interrupt(m, 1)
    } else {
        m
    };
    bus_write(
        requested,
        STAT_ADDR,
        ((stat / 8) * 8 + (if coincide { 4int } else { 0 }) + p.mode) as u8,
    )
}

/// The unit and the bus after the current phase ends.
///
/// The scan is followed by drawing and drawing by horizontal blank, at whose
/// start the scanline is rendered. Leaving horizontal blank moves to the next
/// scanline: after line 143 vertical blank begins, the frame is ready and the
/// VBlank interrupt is requested. In vertical blank each quantum moves one
/// line on; after line 153 the scan of line 0 begins.
pub open spec fn ppu_advance(p: PpuState, m: Seq<u8>) -> (PpuState, Seq<u8>) {
    if p.mode == MODE_OAM_SCAN {
        (PpuState { mode: MODE_DRAWING, ..p }, m)
    } else if p.mode == MODE_DRAWING {
        (
            PpuState {
                mode: MODE_HBLANK,
                framebuffer: render_line(m, p.line, p.window_line, p.framebuffer),
                window_line: if window_drawn(m, p.line) {
                    (p.window_line + 1) as u8
                } else {
                    p.window_line
                },
                ..p
            },
            m,
        )
    } else if p.mode == MODE_HBLANK {
        let line = (p.line + 1) as u8;
        let m1 = bus_write(m, LY_ADDR, line);
        if line == 144 {
            (PpuState { mode: MODE_VBLANK, line: line, frame_ready: true, ..p }, raise_interrupt(m1, 0))
        } else {
            (PpuState { mode: MODE_OAM_SCAN, line: line, ..p }, m1)
        }
    } else {
        if p.line >= 153 {
            (PpuState { mode: MODE_OAM_SCAN, line: 0, window_line: 0, ..p }, bus_write(m, LY_ADDR, 0))
        } else {
            let line = (p.line + 1) as u8;
            (PpuState { line: line, ..p }, bus_write(m, LY_ADDR, line))
        }
    }
}

/// The unit and the bus once `clock` ticks have been spent from the start of
/// the current phase: each phase that the ticks complete ends, and STAT is
/// refreshed after every change and at the end.
pub open spec fn ppu_run(p: PpuState, m: Seq<u8>, clock: int) -> (PpuState, Seq<u8>)
    decreases clock,
{
    if clock >= mode_duration(p.mode) {
        let (p1, m1) = ppu_advance(p, m);
        ppu_run(p1, stat_refresh(p1, m1), clock - mode_duration(p.mode))
    } else {
        (PpuState { mode_clock: clock, ..p }, stat_refresh(p, m))
    }
}

/// The unit and the bus after `cycles` more ticks.
pub open spec fn ppu_step(p: PpuState, m: Seq<u8>, cycles: u32) -> (PpuState, Seq<u8>) {
    ppu_run(p, m, p.mode_clock + cycles)
}

/// The frame after the background is drawn on scanline `line`.
pub open spec fn background_pass(m: Seq<u8>, line: u8, frame: Seq<u32>) -> Seq<u32> {
    Seq::new(
        FRAME_PIXELS as nat,
        |i: int|
            if line * 160 <= i < line * 160 + 160 {
                shade(m[BGP_ADDR as int], bg_color(m, line, i - line * 160))
            } else {
                frame[i]
            },
    )
}

/// The frame after the window is drawn on scanline `line`.
pub open spec fn window_pass(m: Seq<u8>, line: u8, wline: u8, frame: Seq<u32>) -> Seq<u32> {
    Seq::new(
        FRAME_PIXELS as nat,
        |i: int|
            if line * 160 <= i < line * 160 + 160 && window_covers(m, line, i - line * 160) {
                shade(m[BGP_ADDR as int], window_color(m, wline, i - line * 160))
            } else {
                frame[i]
            },
    )
}

/// The frame after the given sprites are drawn, first to last, on scanline
/// `line`.
pub open spec fn sprite_pass(
    m: Seq<u8>,
    sprites: Seq<Sprite>,
    line: u8,
    wline: u8,
    frame: Seq<u32>,
) -> Seq<u32> {
    Seq::new(
        FRAME_PIXELS as nat,
        |i: int|
            if line * 160 <= i < line * 160 + 160 {
                sprites_pixel(m, sprites, line, wline, i - line * 160, frame[i])
            } else {
                frame[i]
            },
    )
}

/// What holds of a sprite read from the attribute table.
pub open spec fn sprite_wf(s: Sprite) -> bool {
    -8 <= s.x <= 247 && -16 <= s.y <= 239 && s.index < 40
}

/// Every sprite selected for a line is a table entry that crosses the line,
/// and at most ten are selected.
pub proof fn lemma_line_sprites(m: Seq<u8>, line: u8, n: int)
    requires
        0 <= n <= 40,
    ensures
        line_sprites(m, line, n).len() <= 10,
        line_sprites(m, line, n).len() <= n,
        forall|k: int|
            0 <= k < line_sprites(m, line, n).len() ==> {
                let s = #[trigger] line_sprites(m, line, n)[k];
                sprite_wf(s) && sprite_on_line(s, line, sprite_height(m)) && s.index < n && s
                    == oam_sprite(m, s.index as int)
            },
        forall|j: int, k: int|
            0 <= j < k < line_sprites(m, line, n).len() ==> (#[trigger] line_sprites(
                m,
                line,
                n,
            )[j]).index < (#[trigger] line_sprites(m, line, n)[k]).index,
    decreases n,
{
    if n > 0 {
        lemma_line_sprites(m, line, n - 1);
    }
}

/// Inserting keeps the elements: the result holds `e` and what `s` held.
pub proof fn lemma_insert_sprite_elements(s: Seq<Sprite>, e: Sprite)
    ensures
        insert_sprite(s, e).len() == s.len() + 1,
        insert_sprite(s, e).to_multiset() == s.to_multiset().insert(e),
    decreases s.len(),
{
    broadcast use vstd::seq_lib::group_to_multiset_ensures;

    if s.len() == 0 {
        assert(s =~= Seq::empty());
        assert(insert_sprite(s, e) =~= Seq::<Sprite>::empty().push(e));
    } else if sprite_before(e, s.last()) {
        lemma_insert_sprite_elements(s.drop_last(), e);
        assert(s.drop_last().push(s.last()) =~= s);
        assert(insert_sprite(s, e).to_multiset() =~= s.to_multiset().insert(e));
    } else {
    }
}

/// Sorting rearranges: the result holds exactly the sprites of `s`.
pub proof fn lemma_sorted_sprites_elements(s: Seq<Sprite>)
    ensures
        sorted_sprites(s).len() == s.len(),
        sorted_sprites(s).to_multiset() == s.to_multiset(),
    decreases s.len(),
{
    broadcast use vstd::seq_lib::group_to_multiset_ensures;

    if s.len() > 0 {
        lemma_sorted_sprites_elements(s.drop_last());
        lemma_insert_sprite_elements(sorted_sprites(s.drop_last()), s.last());
        assert(s.drop_last().push(s.last()) =~= s);
    }
}

/// Every sprite of the sorted sequence is a sprite of the given one.
pub proof fn lemma_sorted_sprites_from(s: Seq<Sprite>, k: int)
    requires
        0 <= k < sorted_sprites(s).len(),
    ensures
        s.contains(sorted_sprites(s)[k]),
{
    broadcast use vstd::seq_lib::group_to_multiset_ensures;

    lemma_sorted_sprites_elements(s);
    let e = sorted_sprites(s)[k];
    assert(sorted_sprites(s).contains(e));
    assert(sorted_sprites(s).to_multiset().count(e) > 0);
}

/// Putting `e` at `pos` is the insertion in drawing order, when `pos` is
/// where the trailing run of sprites that come after `e` begins.
pub proof fn lemma_insert_sprite_at(s: Seq<Sprite>, e: Sprite, pos: int)
    requires
        0 <= pos <= s.len(),
        forall|j: int| pos <= j < s.len() ==> sprite_before(e, #[trigger] s[j]),
        pos > 0 ==> !sprite_before(e, s[pos - 1]),
    ensures
        insert_sprite(s, e) == s.insert(pos, e),
    decreases s.len(),
{
    if s.len() == 0 {
        assert(s.insert(pos, e) =~= seq![e]);
    } else if pos == s.len() {
        assert(s.insert(pos, e) =~= s.push(e));
    } else {
        lemma_insert_sprite_at(s.drop_last(), e, pos);
        assert(s.insert(pos, e) =~= s.drop_last().insert(pos, e).push(s.last()));
    }
}

/// Where `e` goes into `s`: the start of the trailing run of sprites that
/// come after `e` in drawing order.
pub open spec fn insert_position(s: Seq<Sprite>, e: Sprite) -> int
    decreases s.len(),
{
    if s.len() == 0 {
        0
    } else if sprite_before(e, s.last()) {
        insert_position(s.drop_last(), e)
    } else {
        s.len() as int
    }
}

/// Insertion puts `e` at its position, and in an ordered sequence that is
/// after every sprite that does not come after `e`.
pub proof fn lemma_insert_position(s: Seq<Sprite>, e: Sprite)
    ensures
        0 <= insert_position(s, e) <= s.len(),
        insert_sprite(s, e) == s.insert(insert_position(s, e), e),
        forall|j: int| insert_position(s, e) <= j < s.len() ==> sprite_before(e, #[trigger] s[j]),
        insert_position(s, e) > 0 ==> !sprite_before(e, s[insert_position(s, e) - 1]),
        sprites_ordered(s) ==> forall|j: int|
            0 <= j < insert_position(s, e) ==> !sprite_before(e, #[trigger] s[j]),
    decreases s.len(),
{
    if s.len() > 0 && sprite_before(e, s.last()) {
        lemma_insert_position(s.drop_last(), e);
        let pos = insert_position(s, e);
        if pos > 0 {
            assert(s.drop_last()[pos - 1] == s[pos - 1]);
        }
        assert forall|j: int| pos <= j < s.len() implies sprite_before(e, #[trigger] s[j]) by {
            if j < s.len() - 1 {
                assert(s.drop_last()[j] == s[j]);
            }
        }
        if sprites_ordered(s) {
            assert(sprites_ordered(s.drop_last())) by {
                assert forall|i: int, j: int| 0 <= i < j < s.drop_last().len() implies sprite_before(
                    #[trigger] s.drop_last()[i],
                    #[trigger] s.drop_last()[j],
                ) by {
                    assert(s.drop_last()[i] == s[i] && s.drop_last()[j] == s[j]);
                }
            }
            assert forall|j: int| 0 <= j < pos implies !sprite_before(e, #[trigger] s[j]) by {
                assert(s.drop_last()[j] == s[j]);
            }
        }
    } else if s.len() > 0 {
        if sprites_ordered(s) {
            assert forall|j: int| 0 <= j < s.len() implies !sprite_before(e, #[trigger] s[j]) by {
                if j < s.len() - 1 {
                    assert(sprite_before(s[j], s[s.len() - 1]));
                }
            }
        }
    }
    lemma_insert_sprite_at(s, e, insert_position(s, e));
}

/// Sorting sprites that stand in table order puts them in drawing order:
/// by column, and by table position within a column.
pub proof fn lemma_sorted_sprites_ordered(s: Seq<Sprite>)
    requires
        forall|i: int, j: int| 0 <= i < j < s.len() ==> (#[trigger] s[i]).index < (#[trigger] s[j]).index,
    ensures
        sprites_ordered(sorted_sprites(s)),
        sorted_sprites(s).to_multiset() == s.to_multiset(),
    decreases s.len(),
{
    lemma_sorted_sprites_elements(s);
    if s.len() > 0 {
        let init = s.drop_last();
        let e = s.last();
        assert forall|i: int, j: int| 0 <= i < j < init.len() implies (#[trigger] init[i]).index < (
        #[trigger] init[j]).index by {
            assert(init[i] == s[i] && init[j] == s[j]);
        }
        lemma_sorted_sprites_ordered(init);
        let sorted = sorted_sprites(init);
        lemma_insert_position(sorted, e);
        let pos = insert_position(sorted, e);
        let result = sorted.insert(pos, e);
        assert(result == sorted_sprites(s));
        assert forall|k: int| 0 <= k < sorted.len() implies (#[trigger] sorted[k]).index
            < e.index by {
            lemma_sorted_sprites_from(init, k);
            let j = choose|j: int| 0 <= j < init.len() && init[j] == sorted[k];
            assert(init[j] == s[j]);
        }
        assert forall|i: int, j: int| 0 <= i < j < result.len() implies sprite_before(
            #[trigger] result[i],
            #[trigger] result[j],
        ) by {
            if j < pos {
                assert(result[i] == sorted[i] && result[j] == sorted[j]);
            } else if j == pos {
                assert(result[i] == sorted[i]);
                assert(!sprite_before(e, sorted[i]));
                assert(sorted[i].index < e.index);
            } else if i < pos {
                assert(result[i] == sorted[i] && result[j] == sorted[j - 1]);
            } else if i == pos {
                assert(result[j] == sorted[j - 1]);
            } else {
                assert(result[i] == sorted[i - 1] && result[j] == sorted[j - 1]);
            }
        }
    }
}

/// Where the unit stands in the frame, in ticks from the start of line 0,
/// at the start of its current phase.
pub open spec fn phase_start(p: PpuState) -> int {
    p.line * 456 + (if p.mode == MODE_DRAWING {
        80int
    } else if p.mode == MODE_HBLANK {
        252int
    } else {
        0int
    })
}

/// The phases follow one another as scan, drawing, horizontal blank within a
/// scanline; the scanline changes only when horizontal blank ends or within
/// vertical blank; and a well-formed unit stays well formed.
pub proof fn lemma_phase_cadence(p: PpuState, m: Seq<u8>)
    requires
        p.wf(),
    ensures
        ppu_advance(p, m).0.wf(),
        p.mode == MODE_OAM_SCAN ==> ppu_advance(p, m).0.mode == MODE_DRAWING,
        p.mode == MODE_DRAWING ==> ppu_advance(p, m).0.mode == MODE_HBLANK,
        p.mode == MODE_HBLANK ==> ppu_advance(p, m).0.mode == (if p.line == 143 {
            MODE_VBLANK
        } else {
            MODE_OAM_SCAN
        }),
        p.mode == MODE_VBLANK ==> ppu_advance(p, m).0.mode == (if p.line == 153 {
            MODE_OAM_SCAN
        } else {
            MODE_VBLANK
        }),
        p.mode == MODE_OAM_SCAN || p.mode == MODE_DRAWING ==> ppu_advance(p, m).0.line == p.line,
        p.mode == MODE_HBLANK ==> ppu_advance(p, m).0.line == p.line + 1,
        p.mode == MODE_VBLANK ==> ppu_advance(p, m).0.line == (if p.line == 153 {
            0
        } else {
            p.line + 1
        }),
        ppu_advance(p, m).0.frame_ready == (p.frame_ready || (p.mode == MODE_HBLANK && p.line
            == 143)),
{
    assert(render_line(m, p.line, p.window_line, p.framebuffer).len() == FRAME_PIXELS);
}

/// Running the unit keeps it well formed and leaves it within its phase;
/// the unit ends where the ticks take it, counted modulo the 70224 ticks of
/// a frame.
pub proof fn lemma_ppu_run_position(p: PpuState, m: Seq<u8>, clock: int)
    requires
        p.wf(),
        clock >= 0,
    ensures
        ppu_run(p, m, clock).0.wf(),
        ppu_run(p, m, clock).0.mode_clock < mode_duration(ppu_run(p, m, clock).0.mode),
        (phase_start(ppu_run(p, m, clock).0) + ppu_run(p, m, clock).0.mode_clock) % 70224 == (
        phase_start(p) + clock) % 70224,
    decreases clock,
{
    if clock >= mode_duration(p.mode) {
        lemma_phase_cadence(p, m);
        let next = ppu_advance(p, m);
        let rest = clock - mode_duration(p.mode);
        lemma_ppu_run_position(next.0, stat_refresh(next.0, next.1), rest);
        if p.mode == MODE_VBLANK && p.line == 153 {
            assert(phase_start(next.0) + rest + 70224 == phase_start(p) + clock);
            assert((phase_start(next.0) + rest) % 70224 == (phase_start(next.0) + rest + 70224)
                % 70224);
        } else {
            assert(phase_start(next.0) + rest == phase_start(p) + clock);
        }
    }
}

/// The unit stores to three addresses only: IF, STAT and LY.
pub proof fn lemma_ppu_run_stores(p: PpuState, m: Seq<u8>, clock: int, a: int)
    requires
        m.len() == 0x10000,
        0 <= a < 0x10000,
        a != IF_ADDR,
        a != STAT_ADDR,
        a != LY_ADDR,
    ensures
        ppu_run(p, m, clock).1.len() == 0x10000,
        ppu_run(p, m, clock).1[a] == m[a],
    decreases clock,
{
    if clock >= mode_duration(p.mode) {
        let next = ppu_advance(p, m);
        lemma_ppu_run_stores(
            next.0,
            stat_refresh(next.0, next.1),
            clock - mode_duration(p.mode),
            a,
        );
    }
}

/// The pixel-processing unit.
pub struct PPU {
    /// Current phase: 0 horizontal blank, 1 vertical blank, 2 scan, 3 drawing.
    pub mode: u8,
    /// Ticks spent in the current phase.
    pub mode_clock: u32,
    /// Current scanline, 0 to 153.
    pub line: u8,
    /// Scanlines of this frame on which the window was drawn.
    pub window_line: u8,
    /// The frame, row by row: pixel (x, y) is at `y * 160 + x`.
    pub framebuffer: [u32; 23040],
    /// Set when a frame is complete; the presenter clears it.
    pub frame_ready: bool,
}

impl View for PPU {
    type V = PpuState;

    open spec fn view(&self) -> PpuState {
        PpuState {
            mode: self.mode,
            mode_clock: self.mode_clock as int,
            line: self.line,
            window_line: self.window_line,
            framebuffer: self.framebuffer@,
            frame_ready: self.frame_ready,
        }
    }
}

/// Reads entry `i` of the sprite attribute table.
pub fn read_sprite(memory: &Memory, i: u8) -> (s: Sprite)
    requires
        i < 40,
    ensures
        s == oam_sprite(memory@, i as int),
        sprite_wf(s),
{
    let addr: u16 = OAM_ADDR + (i as u16) * 4;
    Sprite {
        y: memory.read_byte(addr) as i16 - 16,
        x: memory.read_byte(addr + 1) as i16 - 8,
        tile: memory.read_byte(addr + 2),
        attributes: memory.read_byte(addr + 3),
        index: i,
    }
}

/// Sprite height in scanlines.
pub fn read_sprite_height(memory: &Memory) -> (h: u8)
    ensures
        h == sprite_height(memory@),
{
    let lcdc = memory.read_byte(LCDC_ADDR);
    proof {
        lemma_bit_masks(lcdc);
    }
    if lcdc & 0x04 != 0 {
        16
    } else {
        8
    }
}

/// Scans the attribute table for the sprites that cross `line`, keeping the
/// first ten.
pub fn collect_sprites(memory: &Memory, line: u8) -> (sprites: Vec<Sprite>)
    ensures
        sprites@ == line_sprites(memory@, line, 40),
{
    let height = read_sprite_height(memory) as i16;
    let mut sprites: Vec<Sprite> = Vec::new();
    let mut i: u8 = 0;
    while i < 40
        invariant
            i <= 40,
            height == sprite_height(memory@),
            sprites@ == line_sprites(memory@, line, i as int),
        decreases 40 - i,
    {
        let s = read_sprite(memory, i);
        if sprites.len() < 10 && line as i16 >= s.y && (line as i16) < s.y + height {
            sprites.push(s);
        }
        i += 1;
    }
    sprites
}

/// Whether `a` is drawn before `b`.
pub fn draws_before(a: &Sprite, b: &Sprite) -> (r: bool)
    ensures
        r == sprite_before(*a, *b),
{
    a.x < b.x || (a.x == b.x && a.index < b.index)
}

/// Puts the sprites in drawing order.
pub fn sort_sprites(sprites: &Vec<Sprite>) -> (sorted: Vec<Sprite>)
    ensures
        sorted@ == sorted_sprites(sprites@),
{
    let mut sorted: Vec<Sprite> = Vec::new();
    let mut i: usize = 0;
    while i < sprites.len()
        invariant
            i <= sprites.len(),
            sorted@ == sorted_sprites(sprites@.take(i as int)),
            sorted.len() == i,
        decreases sprites.len() - i,
    {
        let e = sprites[i];
        let mut pos: usize = sorted.len();
        while pos > 0 && draws_before(&e, &sorted[pos - 1])
            invariant
                pos <= sorted.len(),
                forall|j: int| pos <= j < sorted.len() ==> sprite_before(e, #[trigger] sorted@[j]),
            decreases pos,
        {
            pos -= 1;
        }
        proof {
            lemma_insert_sprite_at(sorted@, e, pos as int);
            assert(sprites@.take(i + 1).drop_last() =~= sprites@.take(i as int));
            assert(sprites@.take(i + 1).last() == e);
        }
        sorted.insert(pos, e);
        i += 1;
    }
    proof {
        assert(sprites@.take(sprites.len() as int) =~= sprites@);
    }
    sorted
}

/// The colour index of sprite `s` at pixel `x` of scanline `line`.
pub fn sprite_color_at(memory: &Memory, s: &Sprite, line: u8, x: u8) -> (c: u8)
    requires
        sprite_wf(*s),
        sprite_on_line(*s, line, sprite_height(memory@)),
        s.x <= x < s.x + 8,
    ensures
        c == sprite_color(memory@, *s, line, x as int),
        c <= 3,
{
    let height = read_sprite_height(memory);
    let offset: u8 = (line as i16 - s.y) as u8;
    proof {
        lemma_bit_masks(s.attributes);
    }
    let row: u8 = if s.attributes & 0x40 != 0 {
        height - 1 - offset
    } else {
        offset
    };
    let tile: u8 = if height == 16 {
        (s.tile / 2) * 2
    } else {
        s.tile
    };
    let data: u16 = 0x8000 + (tile as u16) * 16 + (row as u16) * 2;
    let col: u8 = (x as i16 - s.x) as u8;
    let bit: u8 = if s.attributes & 0x20 != 0 {
        col
    } else {
        7 - col
    };
    let lo = memory.read_byte(data);
    let hi = memory.read_byte(data + 1);
    tile_pixel(lo, hi, bit)
}

impl PPU {
    /// The unit is in a state that `PpuState::wf` accepts.
    pub open spec fn wf(&self) -> bool {
        self@.wf()
    }

    /// Tells whether the unit is well formed.
    pub fn is_wf(&self) -> (ok: bool)
        ensures
            ok == self.wf(),
    {
        if self.mode == MODE_VBLANK {
            144 <= self.line && self.line <= 153 && self.window_line <= 144
        } else if self.mode == MODE_HBLANK {
            self.line <= 143 && self.window_line as u16 <= self.line as u16 + 1
        } else if self.mode <= 3 {
            self.line <= 143 && self.window_line <= self.line
        } else {
            false
        }
    }

    /// A unit at the start of the scan of line 0, with a blank frame.
    pub fn new() -> (p: PPU)
        ensures
            p@ == PpuState::reset(),
            p.wf(),
    {
        let p = PPU {
            mode: MODE_OAM_SCAN,
            mode_clock: 0,
            line: 0,
            window_line: 0,
            framebuffer: [0u32;23040],
            frame_ready: false,
        };
        assert(p.framebuffer@ =~= Seq::new(FRAME_PIXELS as nat, |i: int| 0u32));
        p
    }

    /// How many ticks the phase `mode` lasts.
    pub fn duration(mode: u8) -> (d: u32)
        ensures
            d == mode_duration(mode),
    {
        if mode == MODE_OAM_SCAN {
            80
        } else if mode == MODE_DRAWING {
            172
        } else if mode == MODE_HBLANK {
            204
        } else {
            456
        }
    }

    /// Requests interrupt `interrupt_bit` by setting its bit in IF.
    pub fn add_interrupt(memory: &mut Memory, interrupt_bit: u8)
        requires
            interrupt_bit < 8,
        ensures
            final(memory)@ == raise_interrupt(old(memory)@, interrupt_bit),
    {
        let interrupt_flags = memory.read_byte(IF_ADDR);
        proof {
            lemma_set_clear_bit(interrupt_flags, interrupt_bit);
        }
        memory.write_byte(IF_ADDR, interrupt_flags | (1u8 << interrupt_bit));
    }

    /// Brings STAT up to date and requests the STAT interrupt where the
    /// scanline has just come to equal LYC.
    pub fn update_stat(&self, memory: &mut Memory)
        requires
            self.mode <= 3,
        ensures
            final(memory)@ == stat_refresh(self@, old(memory)@),
    {
        let stat = memory.read_byte(STAT_ADDR);
        let lyc = memory.read_byte(LYC_ADDR);
        proof {
            lemma_stat_bits(stat, self.mode);
            lemma_bit_masks(stat);
        }
        let mut value = (stat & 0xF8) | (self.mode & 0x03);
        if self.line == lyc {
            value = value | 0x04;
            if stat & 0x40 != 0 && stat & 0x04 == 0 {
                Self::add_interrupt(memory, 1);
            }
        }
        memory.write_byte(STAT_ADDR, value);
    }

    /// Draws the background on scanline `line` of `frame`.
    pub fn render_background(frame: &mut [u32; 23040], memory: &Memory, line: u8)
        requires
            line < 144,
        ensures
            final(frame)@ == background_pass(memory@, line, old(frame)@),
    {
        let bgp = memory.read_byte(BGP_ADDR);
        let mut x: u8 = 0;
        while x < 160
            invariant
                x <= 160,
                line < 144,
                bgp == memory@[BGP_ADDR as int],
                forall|i: int|
                    0 <= i < FRAME_PIXELS ==> #[trigger] frame@[i] == (if line * 160 <= i < line
                        * 160 + x {
                        shade(bgp, bg_color(memory@, line, i - line * 160))
                    } else {
                        old(frame)@[i]
                    }),
            decreases 160 - x,
        {
            let color = background_color(memory, line, x);
            let index = line as usize * 160 + x as usize;
            frame[index] = get_color(color, bgp);
            x += 1;
        }
        assert(frame@ =~= background_pass(memory@, line, old(frame)@));
    }

    /// Draws the window on scanline `line` of `frame`, from the window's own
    /// line `wline`.
    pub fn render_window(frame: &mut [u32; 23040], memory: &Memory, line: u8, wline: u8)
        requires
            line < 144,
        ensures
            final(frame)@ == window_pass(memory@, line, wline, old(frame)@),
    {
        let bgp = memory.read_byte(BGP_ADDR);
        let mut x: u8 = 0;
        while x < 160
            invariant
                x <= 160,
                line < 144,
                bgp == memory@[BGP_ADDR as int],
                forall|i: int|
                    0 <= i < FRAME_PIXELS ==> #[trigger] frame@[i] == (if line * 160 <= i < line
                        * 160 + x && window_covers(memory@, line, i - line * 160) {
                        shade(bgp, window_color(memory@, wline, i - line * 160))
                    } else {
                        old(frame)@[i]
                    }),
            decreases 160 - x,
        {
            if window_covers_pixel(memory, line, x) {
                let color = window_pixel_color(memory, wline, x);
                let index = line as usize * 160 + x as usize;
                frame[index] = get_color(color, bgp);
            }
            x += 1;
        }
        assert(frame@ =~= window_pass(memory@, line, wline, old(frame)@));
    }

    /// Draws one sprite on scanline `line` of `frame`.
    pub fn render_sprite(frame: &mut [u32; 23040], memory: &Memory, s: &Sprite, line: u8, wline: u8)
        requires
            line < 144,
            sprite_wf(*s),
            sprite_on_line(*s, line, sprite_height(memory@)),
        ensures
            forall|i: int|
                0 <= i < FRAME_PIXELS ==> #[trigger] final(frame)@[i] == (if line * 160 <= i < line
                    * 160 + 160 {
                    sprite_overlay(memory@, *s, line, wline, i - line * 160, old(frame)@[i])
                } else {
                    old(frame)@[i]
                }),
    {
        proof {
            lemma_bit_masks(s.attributes);
        }
        let palette = if s.attributes & 0x10 != 0 {
            memory.read_byte(OBP1_ADDR)
        } else {
            memory.read_byte(OBP0_ADDR)
        };
        let priority = s.attributes & 0x80 != 0;
        let mut pixel: i16 = 0;
        while pixel < 8
            invariant
                0 <= pixel <= 8,
                line < 144,
                sprite_wf(*s),
                sprite_on_line(*s, line, sprite_height(memory@)),
                priority == test_bit(s.attributes, 7),
                palette == (if test_bit(s.attributes, 4) {
                    memory@[OBP1_ADDR as int]
                } else {
                    memory@[OBP0_ADDR as int]
                }),
                forall|i: int|
                    0 <= i < FRAME_PIXELS ==> #[trigger] frame@[i] == (if line * 160 <= i < line
                        * 160 + 160 && i - line * 160 < s.x + pixel {
                        sprite_overlay(memory@, *s, line, wline, i - line * 160, old(frame)@[i])
                    } else {
                        old(frame)@[i]
                    }),
            decreases 8 - pixel,
        {
            let x_pos = s.x + pixel;
            if x_pos >= 0 && x_pos < 160 {
                let x = x_pos as u8;
                let color = sprite_color_at(memory, s, line, x);
                if color != 0 && !(priority && layer_color_at(memory, line, wline, x) != 0) {
                    let index = line as usize * 160 + x as usize;
                    frame[index] = get_color(color, palette);
                }
            }
            pixel += 1;
        }
    }

    /// Draws the sprites of scanline `line` on `frame`, in drawing order.
    pub fn render_sprites(frame: &mut [u32; 23040], memory: &Memory, line: u8, wline: u8)
        requires
            line < 144,
        ensures
            final(frame)@ == sprite_pass(
                memory@,
                sorted_sprites(line_sprites(memory@, line, 40)),
                line,
                wline,
                old(frame)@,
            ),
    {
        let found = collect_sprites(memory, line);
        let sprites = sort_sprites(&found);
        proof {
            lemma_sorted_sprites_elements(found@);
        }
        let mut k: usize = 0;
        while k < sprites.len()
            invariant
                k <= sprites.len(),
                line < 144,
                found@ == line_sprites(memory@, line, 40),
                sprites@ == sorted_sprites(found@),
                frame@ == sprite_pass(memory@, sprites@.take(k as int), line, wline, old(frame)@),
            decreases sprites.len() - k,
        {
            let s = sprites[k];
            proof {
                lemma_sorted_sprites_from(found@, k as int);
                lemma_line_sprites(memory@, line, 40);
                assert(sprites@.take(k + 1).drop_last() =~= sprites@.take(k as int));
                assert(sprites@.take(k + 1).last() == s);
            }
            Self::render_sprite(frame, memory, &s, line, wline);
            assert(frame@ =~= sprite_pass(
                memory@,
                sprites@.take(k + 1),
                line,
                wline,
                old(frame)@,
            ));
            k += 1;
        }
        proof {
            assert(sprites@.take(sprites.len() as int) =~= sprites@);
        }
    }

    /// Renders the current scanline into the frame, layer by layer as LCDC
    /// enables them.
    pub fn render_scanline(&mut self, memory: &Memory)
        requires
            old(self).line < 144,
        ensures
            final(self)@ == (PpuState {
                framebuffer: render_line(
                    memory@,
                    old(self).line,
                    old(self).window_line,
                    old(self)@.framebuffer,
                ),
                ..old(self)@
            }),
    {
        let lcdc = memory.read_byte(LCDC_ADDR);
        proof {
            lemma_bit_masks(lcdc);
        }
        if lcdc & 0x01 != 0 {
            Self::render_background(&mut self.framebuffer, memory, self.line);
        }
        if lcdc & 0x20 != 0 {
            Self::render_window(&mut self.framebuffer, memory, self.line, self.window_line);
        }
        if lcdc & 0x02 != 0 {
            Self::render_sprites(&mut self.framebuffer, memory, self.line, self.window_line);
        }
        assert(self.framebuffer@ =~= render_line(
            memory@,
            old(self).line,
            old(self).window_line,
            old(self)@.framebuffer,
        ));
    }

    /// Whether the window covers any pixel of the current scanline.
    pub fn window_is_drawn(&self, memory: &Memory) -> (drawn: bool)
        ensures
            drawn == window_drawn(memory@, self.line),
    {
        let lcdc = memory.read_byte(LCDC_ADDR);
        proof {
            lemma_bit_masks(lcdc);
        }
        lcdc & 0x20 != 0 && self.line >= memory.read_byte(WY_ADDR) && memory.read_byte(WX_ADDR)
            <= 166
    }

    /// Ends the current phase and enters the next.
    pub fn advance(&mut self, memory: &mut Memory)
        requires
            old(self).wf(),
        ensures
            final(self).wf(),
            (final(self)@, final(memory)@) == ppu_advance(old(self)@, old(memory)@),
    {
        if self.mode == MODE_OAM_SCAN {
            self.mode = MODE_DRAWING;
        } else if self.mode == MODE_DRAWING {
            self.render_scanline(memory);
            if self.window_is_drawn(memory) {
                self.window_line += 1;
            }
            self.mode = MODE_HBLANK;
        } else if self.mode == MODE_HBLANK {
            self.line += 1;
            memory.write_byte(LY_ADDR, self.line);
            if self.line == 144 {
                self.mode = MODE_VBLANK;
                self.frame_ready = true;
                Self::add_interrupt(memory, 0);
            } else {
                self.mode = MODE_OAM_SCAN;
            }
        } else {
            if self.line >= 153 {
                self.line = 0;
                self.window_line = 0;
                self.mode = MODE_OAM_SCAN;
            } else {
                self.line += 1;
            }
            memory.write_byte(LY_ADDR, self.line);
        }
    }

    /// Advances the unit by `cycles` clock ticks.
    pub fn step(&mut self, memory: &mut Memory, cycles: u32)
        requires
            old(self).wf(),
        ensures
            final(self).wf(),
            (final(self)@, final(memory)@) == ppu_step(old(self)@, old(memory)@, cycles),
            final(self).mode_clock < mode_duration(final(self).mode),
    {
        let mut clock: u64 = self.mode_clock as u64 + cycles as u64;
        while clock >= Self::duration(self.mode) as u64
            invariant
                self.wf(),
                ppu_run(self@, memory@, clock as int) == ppu_step(
                    old(self)@,
                    old(memory)@,
                    cycles,
                ),
            decreases clock,
        {
            clock -= Self::duration(self.mode) as u64;
            self.advance(memory);
            self.update_stat(memory);
        }
        self.mode_clock = clock as u32;
        self.update_stat(memory);
    }
}

} // verus!
