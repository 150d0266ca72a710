use gameboy::memory::Memory;

#[test]
fn fresh_bus_reads_zero() {
    let m = Memory::new();
    for addr in [0x0000u16, 0x7FFF, 0x8000, 0xA000, 0xC000, 0xE000, 0xFE00, 0xFF00, 0xFF80, 0xFFFF] {
        assert_eq!(m.read_byte(addr), 0x00);
    }
}

#[test]
fn every_region_stores_and_returns() {
    let mut m = Memory::new();
    let cells = [
        (0x0000u16, 0x11u8),
        (0x7FFF, 0x12),
        (0x8000, 0x21),
        (0x9FFF, 0x22),
        (0xA000, 0x31),
        (0xBFFF, 0x32),
        (0xC000, 0x41),
        (0xDFFF, 0x42),
        (0xFE00, 0x51),
        (0xFE9F, 0x52),
        (0xFF00, 0x61),
        (0xFF7F, 0x62),
        (0xFF80, 0x71),
        (0xFFFE, 0x72),
        (0xFFFF, 0x81),
    ];
    for (addr, value) in cells {
        m.write_byte(addr, value);
    }
    for (addr, value) in cells {
        assert_eq!(m.read_byte(addr), value);
    }
}

#[test]
fn regions_do_not_overlap() {
    let mut m = Memory::new();
    m.write_byte(0x7FFF, 0xAA);
    m.write_byte(0x8000, 0xBB);
    assert_eq!(m.rom[0x7FFF], 0xAA);
    assert_eq!(m.vram[0], 0xBB);
    m.write_byte(0xFFFE, 0xCC);
    m.write_byte(0xFFFF, 0xDD);
    assert_eq!(m.hram[0x7E], 0xCC);
    assert_eq!(m.interrupt_enable, 0xDD);
}

#[test]
fn echo_reads_work_ram() {
    let mut m = Memory::new();
    m.write_byte(0xC000, 0x5A);
    m.write_byte(0xDDFF, 0xA5);
    assert_eq!(m.read_byte(0xE000), 0x5A);
    assert_eq!(m.read_byte(0xFDFF), 0xA5);
}

#[test]
fn echo_writes_reach_work_ram() {
    let mut m = Memory::new();
    m.write_byte(0xE123, 0x77);
    assert_eq!(m.read_byte(0xC123), 0x77);
    assert_eq!(m.read_byte(0xE123), 0x77);
    assert_eq!(m.wram[0x123], 0x77);
}

#[test]
fn top_of_work_ram_has_no_echo() {
    let mut m = Memory::new();
    m.write_byte(0xDE00, 0x99);
    assert_eq!(m.read_byte(0xDE00), 0x99);
    assert_eq!(m.read_byte(0xFE00), 0x00);
}

#[test]
fn reserved_hole_reads_ff() {
    let m = Memory::new();
    assert_eq!(m.read_byte(0xFEA0), 0xFF);
    assert_eq!(m.read_byte(0xFEC8), 0xFF);
    assert_eq!(m.read_byte(0xFEFF), 0xFF);
}

#[test]
fn reserved_hole_drops_writes() {
    let mut m = Memory::new();
    m.write_byte(0xFEA0, 0x12);
    m.write_byte(0xFEFF, 0x34);
    assert_eq!(m.read_byte(0xFEA0), 0xFF);
    assert_eq!(m.read_byte(0xFEFF), 0xFF);
    assert_eq!(m.read_byte(0xFE9F), 0x00);
    assert_eq!(m.read_byte(0xFF00), 0x00);
}
