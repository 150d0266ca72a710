use gameboy::cpu::CPU;
use gameboy::memory::Memory;
use gameboy::ppu::PPU;

fn irq_machine(program: &[u8]) -> CPU {
    let mut cpu = CPU::new(Memory::new(), PPU::new());
    for (i, byte) in program.iter().enumerate() {
        cpu.write_byte(0x0150 + i as u16, *byte);
    }
    cpu.registers.pc = 0x0150;
    cpu.registers.sp = 0xD000;
    cpu
}

#[test]
fn nothing_happens_with_master_enable_clear() {
    let mut cpu = irq_machine(&[]);
    cpu.write_byte(0xFFFF, 0x1F);
    cpu.write_byte(0xFF0F, 0x1F);
    cpu.ime = false;
    cpu.handle_interrupt();
    assert_eq!(cpu.registers.pc, 0x0150);
    assert_eq!(cpu.registers.sp, 0xD000);
    assert_eq!(cpu.read_byte(0xFF0F), 0x1F);
    assert_eq!(cpu.cycle, 0);
}

#[test]
fn nothing_happens_without_a_request() {
    let mut cpu = irq_machine(&[]);
    cpu.write_byte(0xFFFF, 0x1F);
    cpu.write_byte(0xFF0F, 0x00);
    cpu.ime = true;
    cpu.handle_interrupt();
    assert_eq!(cpu.registers.pc, 0x0150);
    assert!(cpu.ime);
    assert_eq!(cpu.cycle, 0);
}

#[test]
fn disabled_request_is_not_served() {
    let mut cpu = irq_machine(&[]);
    cpu.write_byte(0xFFFF, 0x02);
    cpu.write_byte(0xFF0F, 0x01);
    cpu.ime = true;
    cpu.handle_interrupt();
    assert_eq!(cpu.registers.pc, 0x0150);
    assert_eq!(cpu.read_byte(0xFF0F), 0x01);
    assert!(cpu.ime);
}

#[test]
fn vblank_is_served_at_0x40() {
    let mut cpu = irq_machine(&[]);
    cpu.write_byte(0xFFFF, 0x01);
    cpu.write_byte(0xFF0F, 0x01);
    cpu.ime = true;
    cpu.handle_interrupt();
    assert_eq!(cpu.registers.pc, 0x0040);
    assert_eq!(cpu.read_byte(0xFF0F), 0x00);
    assert!(!cpu.ime);
    assert_eq!(cpu.registers.sp, 0xCFFE);
    assert_eq!(cpu.read_byte(0xCFFF), 0x01);
    assert_eq!(cpu.read_byte(0xCFFE), 0x50);
    assert_eq!(cpu.cycle, 20);
}

#[test]
fn each_source_has_its_vector() {
    for (bit, vector) in [(0u8, 0x0040u16), (1, 0x0048), (2, 0x0050), (3, 0x0058), (4, 0x0060)] {
        let mut cpu = irq_machine(&[]);
        cpu.write_byte(0xFFFF, 0xFF);
        cpu.write_byte(0xFF0F, 1 << bit);
        cpu.write_byte(0xFF45, 0x90);
        cpu.ime = true;
        cpu.handle_interrupt();
        assert_eq!(cpu.registers.pc, vector);
        assert_eq!(cpu.read_byte(0xFF0F), 0x00);
        assert!(!cpu.ime);
    }
}

#[test]
fn lowest_pending_bit_wins() {
    let mut cpu = irq_machine(&[]);
    cpu.write_byte(0xFFFF, 0x1F);
    cpu.write_byte(0xFF0F, 0x1A);
    cpu.write_byte(0xFF45, 0x90);
    cpu.ime = true;
    cpu.handle_interrupt();
    assert_eq!(cpu.registers.pc, 0x0048);
    assert_eq!(cpu.read_byte(0xFF0F), 0x18);
}

#[test]
fn bits_above_the_five_sources_wake_but_are_not_served() {
    let mut cpu = irq_machine(&[]);
    cpu.write_byte(0xFFFF, 0xE0);
    cpu.write_byte(0xFF0F, 0x20);
    cpu.ime = true;
    cpu.halted = true;
    cpu.handle_interrupt();
    assert!(!cpu.halted);
    assert!(cpu.ime);
    assert_eq!(cpu.registers.pc, 0x0150);
    assert_eq!(cpu.read_byte(0xFF0F), 0x20);
    assert_eq!(cpu.cycle, 0);
}

#[test]
fn service_wakes_a_halted_processor() {
    let mut cpu = irq_machine(&[]);
    cpu.write_byte(0x0040, 0x3C);
    cpu.write_byte(0xFFFF, 0x01);
    cpu.write_byte(0xFF0F, 0x01);
    cpu.ime = true;
    cpu.halted = true;
    cpu.registers.a = 0x10;
    cpu.step();
    assert!(!cpu.halted);
    assert_eq!(cpu.registers.a, 0x11);
    assert_eq!(cpu.registers.pc, 0x0041);
    assert_eq!(cpu.cycle, 24);
}

#[test]
fn halted_processor_only_passes_time() {
    let mut cpu = irq_machine(&[0x3C]);
    cpu.halted = true;
    cpu.registers.a = 0x10;
    cpu.step();
    cpu.step();
    cpu.step();
    assert!(cpu.halted);
    assert_eq!(cpu.registers.a, 0x10);
    assert_eq!(cpu.registers.pc, 0x0150);
    assert_eq!(cpu.cycle, 12);
}

#[test]
fn pending_interrupt_wakes_without_master_enable() {
    let mut cpu = irq_machine(&[0x3C]);
    cpu.write_byte(0xFFFF, 0x04);
    cpu.write_byte(0xFF0F, 0x04);
    cpu.ime = false;
    cpu.halted = true;
    cpu.registers.a = 0x10;
    cpu.step();
    assert!(!cpu.halted);
    assert_eq!(cpu.registers.a, 0x11);
    assert_eq!(cpu.registers.pc, 0x0151);
    assert_eq!(cpu.read_byte(0xFF0F), 0x04);
    assert_eq!(cpu.registers.sp, 0xD000);
    assert_eq!(cpu.cycle, 4);
}

#[test]
fn stopped_processor_sleeps_like_a_halted_one() {
    let mut cpu = irq_machine(&[0x10, 0x3C]);
    cpu.registers.a = 0x10;
    cpu.step();
    assert!(cpu.stopped);
    cpu.step();
    assert_eq!(cpu.registers.a, 0x10);
    assert_eq!(cpu.registers.pc, 0x0151);
    assert_eq!(cpu.cycle, 8);
    cpu.write_byte(0xFFFF, 0x10);
    cpu.write_byte(0xFF0F, 0x10);
    cpu.step();
    assert!(!cpu.stopped);
    assert_eq!(cpu.registers.a, 0x11);
}

#[test]
fn halt_then_vblank_resumes_after_handler() {
    let mut cpu = irq_machine(&[0xFB, 0x76, 0x3C]);
    cpu.write_byte(0x0040, 0xD9);
    cpu.write_byte(0xFFFF, 0x01);
    cpu.registers.a = 0x10;
    cpu.step();
    cpu.step();
    assert!(cpu.halted);
    cpu.step();
    assert!(cpu.halted);
    cpu.write_byte(0xFF0F, 0x01);
    cpu.step();
    assert!(!cpu.halted);
    assert_eq!(cpu.registers.pc, 0x0152);
    assert!(cpu.ime);
    assert_eq!(cpu.registers.sp, 0xD000);
    cpu.step();
    assert_eq!(cpu.registers.a, 0x11);
}

#[test]
fn step_runs_one_instruction() {
    let mut cpu = irq_machine(&[0x3E, 0x42, 0x47]);
    cpu.step();
    assert_eq!(cpu.registers.a, 0x42);
    assert_eq!(cpu.cycle, 8);
    cpu.step();
    assert_eq!(cpu.registers.b, 0x42);
    assert_eq!(cpu.cycle, 12);
}
