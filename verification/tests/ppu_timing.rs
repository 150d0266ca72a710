use gameboy::memory::Memory;
use gameboy::ppu::PPU;

#[test]
fn starts_in_scan_of_line_zero() {
    let ppu = PPU::new();
    assert_eq!(ppu.mode, 2);
    assert_eq!(ppu.mode_clock, 0);
    assert_eq!(ppu.line, 0);
    assert!(!ppu.frame_ready);
    assert_eq!(ppu.framebuffer.len(), 160 * 144);
    assert!(ppu.framebuffer.iter().all(|p| *p == 0));
}

#[test]
fn phase_durations() {
    assert_eq!(PPU::duration(2), 80);
    assert_eq!(PPU::duration(3), 172);
    assert_eq!(PPU::duration(0), 204);
    assert_eq!(PPU::duration(1), 456);
    assert_eq!(80 + 172 + 204, 456);
}

#[test]
fn scan_lasts_eighty_ticks() {
    let mut memory = Memory::new();
    let mut ppu = PPU::new();
    ppu.step(&mut memory, 79);
    assert_eq!(ppu.mode, 2);
    assert_eq!(ppu.mode_clock, 79);
    ppu.step(&mut memory, 1);
    assert_eq!(ppu.mode, 3);
    assert_eq!(ppu.mode_clock, 0);
    assert_eq!(ppu.line, 0);
}

#[test]
fn scanline_goes_scan_draw_blank() {
    let mut memory = Memory::new();
    let mut ppu = PPU::new();
    ppu.step(&mut memory, 80);
    assert_eq!((ppu.mode, ppu.line), (3, 0));
    ppu.step(&mut memory, 172);
    assert_eq!((ppu.mode, ppu.line), (0, 0));
    ppu.step(&mut memory, 204);
    assert_eq!((ppu.mode, ppu.line), (2, 1));
    assert_eq!(memory.read_byte(0xFF44), 1);
}

#[test]
fn one_step_can_cross_several_phases() {
    let mut memory = Memory::new();
    let mut ppu = PPU::new();
    ppu.step(&mut memory, 456 + 90);
    assert_eq!(ppu.line, 1);
    assert_eq!(ppu.mode, 3);
    assert_eq!(ppu.mode_clock, 10);
    assert_eq!(memory.read_byte(0xFF44), 1);
}

#[test]
fn leftover_ticks_carry_over() {
    let mut memory = Memory::new();
    let mut ppu = PPU::new();
    ppu.step(&mut memory, 100);
    assert_eq!(ppu.mode, 3);
    assert_eq!(ppu.mode_clock, 20);
}

#[test]
fn vblank_entry_from_line_143() {
    let mut memory = Memory::new();
    let mut ppu = PPU::new();
    ppu.line = 143;
    ppu.mode = 0;
    ppu.step(&mut memory, 204);
    assert_eq!(ppu.line, 144);
    assert_eq!(ppu.mode, 1);
    assert!(ppu.frame_ready);
    assert_eq!(memory.read_byte(0xFF0F) & 0x01, 0x01);
    assert_eq!(memory.read_byte(0xFF44), 144);
}

#[test]
fn vblank_counts_ten_lines() {
    let mut memory = Memory::new();
    let mut ppu = PPU::new();
    ppu.line = 144;
    ppu.mode = 1;
    for expected in 145..=153u8 {
        ppu.step(&mut memory, 456);
        assert_eq!(ppu.mode, 1);
        assert_eq!(ppu.line, expected);
        assert_eq!(memory.read_byte(0xFF44), expected);
    }
    ppu.step(&mut memory, 456);
    assert_eq!(ppu.mode, 2);
    assert_eq!(ppu.line, 0);
    assert_eq!(memory.read_byte(0xFF44), 0);
}

#[test]
fn a_frame_is_70224_ticks() {
    let mut memory = Memory::new();
    let mut ppu = PPU::new();
    ppu.step(&mut memory, 70223);
    assert_eq!((ppu.mode, ppu.line, ppu.mode_clock), (1, 153, 455));
    assert!(ppu.frame_ready);
    ppu.step(&mut memory, 1);
    assert_eq!((ppu.mode, ppu.line, ppu.mode_clock), (2, 0, 0));
    assert_eq!(memory.read_byte(0xFF0F) & 0x01, 0x01);
}

#[test]
fn line_and_mode_stay_in_range_over_two_frames() {
    let mut memory = Memory::new();
    let mut ppu = PPU::new();
    let mut last = (ppu.mode, ppu.line);
    for _ in 0..(2 * 70224 / 4) {
        ppu.step(&mut memory, 4);
        assert!(ppu.mode <= 3);
        assert!(ppu.line <= 153);
        assert_eq!(ppu.mode == 1, ppu.line >= 144);
        let now = (ppu.mode, ppu.line);
        if now != last {
            let allowed = match last.0 {
                2 => now == (3, last.1),
                3 => now == (0, last.1),
                0 => now == (if last.1 == 143 { 1 } else { 2 }, last.1 + 1),
                _ => now == (1, last.1 + 1) || (last.1 == 153 && now == (2, 0)),
            };
            assert!(allowed);
            last = now;
        }
    }
    assert_eq!((ppu.mode, ppu.line, ppu.mode_clock), (2, 0, 0));
}

#[test]
fn stat_shows_mode_and_coincidence() {
    let mut memory = Memory::new();
    let mut ppu = PPU::new();
    memory.write_byte(0xFF41, 0xA8);
    memory.write_byte(0xFF45, 0x01);
    ppu.step(&mut memory, 4);
    assert_eq!(memory.read_byte(0xFF41), 0xAA);
    ppu.step(&mut memory, 80);
    assert_eq!(memory.read_byte(0xFF41), 0xAB);
    ppu.step(&mut memory, 172);
    assert_eq!(memory.read_byte(0xFF41), 0xA8);
    ppu.step(&mut memory, 204);
    assert_eq!(memory.read_byte(0xFF41), 0xAE);
    assert_eq!(memory.read_byte(0xFF0F), 0x00);
    ppu.step(&mut memory, 456);
    assert_eq!(memory.read_byte(0xFF41), 0xAA);
}

#[test]
fn stat_interrupt_fires_once_when_line_reaches_lyc() {
    let mut memory = Memory::new();
    let mut ppu = PPU::new();
    memory.write_byte(0xFF41, 0x40);
    memory.write_byte(0xFF45, 0x02);
    ppu.step(&mut memory, 456);
    assert_eq!(memory.read_byte(0xFF0F), 0x00);
    ppu.step(&mut memory, 456);
    assert_eq!(ppu.line, 2);
    assert_eq!(memory.read_byte(0xFF0F), 0x02);
    assert_eq!(memory.read_byte(0xFF41), 0x46);
    memory.write_byte(0xFF0F, 0x00);
    ppu.step(&mut memory, 4);
    ppu.step(&mut memory, 100);
    assert_eq!(ppu.line, 2);
    assert_eq!(memory.read_byte(0xFF0F), 0x00);
    ppu.step(&mut memory, 456);
    assert_eq!(ppu.line, 3);
    assert_eq!(memory.read_byte(0xFF41) & 0x04, 0x00);
    assert_eq!(memory.read_byte(0xFF0F), 0x00);
}

#[test]
fn stat_interrupt_needs_its_enable_bit() {
    let mut memory = Memory::new();
    let mut ppu = PPU::new();
    memory.write_byte(0xFF45, 0x01);
    ppu.step(&mut memory, 456);
    assert_eq!(ppu.line, 1);
    assert_eq!(memory.read_byte(0xFF41) & 0x04, 0x04);
    assert_eq!(memory.read_byte(0xFF0F), 0x00);
}

#[test]
fn add_interrupt_sets_one_bit() {
    let mut memory = Memory::new();
    memory.write_byte(0xFF0F, 0x10);
    PPU::add_interrupt(&mut memory, 0);
    assert_eq!(memory.read_byte(0xFF0F), 0x11);
    PPU::add_interrupt(&mut memory, 1);
    assert_eq!(memory.read_byte(0xFF0F), 0x13);
    PPU::add_interrupt(&mut memory, 1);
    assert_eq!(memory.read_byte(0xFF0F), 0x13);
}

#[test]
fn huge_step_terminates_in_phase() {
    let mut memory = Memory::new();
    let mut ppu = PPU::new();
    ppu.step(&mut memory, 70224 * 3 + 81);
    assert_eq!((ppu.mode, ppu.line, ppu.mode_clock), (3, 0, 1));
}
