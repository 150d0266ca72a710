use gameboy::cpu::CPU;
use gameboy::memory::Memory;
use gameboy::ppu::PPU;
use gameboy::registers::{Register, Registers};

fn flow_machine(origin: u16, program: &[u8]) -> CPU {
    let mut cpu = CPU::new(Memory::new(), PPU::new());
    for (i, byte) in program.iter().enumerate() {
        cpu.write_byte(origin.wrapping_add(i as u16), *byte);
    }
    cpu.registers.pc = origin;
    cpu
}

fn flow_step(cpu: &mut CPU) {
    let opcode = cpu.fetch_opcode();
    cpu.execute_opcode(opcode);
}

#[test]
fn nop_after_reset_only_moves_pc_and_clock() {
    let mut cpu = CPU::new(Memory::new(), PPU::new());
    let before: Registers = cpu.registers;
    assert_eq!(cpu.registers.pc, 0x0100);
    flow_step(&mut cpu);
    assert_eq!(cpu.registers.pc, 0x0101);
    assert_eq!(cpu.cycle, 4);
    let mut expected = before;
    expected.pc = 0x0101;
    assert_eq!(cpu.registers, expected);
    assert!(!cpu.halted);
    assert!(!cpu.stopped);
    assert!(!cpu.ime);
}

#[test]
fn ld_bc_immediate_word() {
    let mut cpu = flow_machine(0x0100, &[0x01, 0x34, 0x12]);
    flow_step(&mut cpu);
    assert_eq!(cpu.registers.b, 0x12);
    assert_eq!(cpu.registers.c, 0x34);
    assert_eq!(cpu.registers.pc, 0x0103);
    assert_eq!(cpu.cycle, 12);
}

#[test]
fn jr_nz_taken_when_z_clear() {
    let mut cpu = flow_machine(0x0150, &[0x20, 0x02]);
    cpu.registers.set_z_flag(false);
    flow_step(&mut cpu);
    assert_eq!(cpu.registers.pc, 0x0154);
    assert_eq!(cpu.cycle, 12);
}

#[test]
fn jr_nz_not_taken_when_z_set() {
    let mut cpu = flow_machine(0x0150, &[0x20, 0x02]);
    cpu.registers.set_z_flag(true);
    flow_step(&mut cpu);
    assert_eq!(cpu.registers.pc, 0x0152);
    assert_eq!(cpu.cycle, 8);
}

#[test]
fn jr_backwards() {
    let mut cpu = flow_machine(0x0150, &[0x18, 0xFE]);
    flow_step(&mut cpu);
    assert_eq!(cpu.registers.pc, 0x0150);
    assert_eq!(cpu.cycle, 12);
}

#[test]
fn jr_conditions() {
    for (opcode, flags, taken) in [
        (0x20u8, 0x00u8, true),
        (0x20, 0x80, false),
        (0x28, 0x80, true),
        (0x28, 0x00, false),
        (0x30, 0x00, true),
        (0x30, 0x10, false),
        (0x38, 0x10, true),
        (0x38, 0x00, false),
    ] {
        let mut cpu = flow_machine(0x0200, &[opcode, 0x10]);
        cpu.registers.set_register8(Register::F, flags);
        flow_step(&mut cpu);
        if taken {
            assert_eq!(cpu.registers.pc, 0x0212);
            assert_eq!(cpu.cycle, 12);
        } else {
            assert_eq!(cpu.registers.pc, 0x0202);
            assert_eq!(cpu.cycle, 8);
        }
    }
}

#[test]
fn jp_absolute() {
    let mut cpu = flow_machine(0x0100, &[0xC3, 0x50, 0x01]);
    flow_step(&mut cpu);
    assert_eq!(cpu.registers.pc, 0x0150);
    assert_eq!(cpu.cycle, 16);
}

#[test]
fn jp_conditions() {
    for (opcode, flags, taken) in [
        (0xC2u8, 0x00u8, true),
        (0xC2, 0x80, false),
        (0xCA, 0x80, true),
        (0xCA, 0x00, false),
        (0xD2, 0x00, true),
        (0xD2, 0x10, false),
        (0xDA, 0x10, true),
        (0xDA, 0x00, false),
    ] {
        let mut cpu = flow_machine(0x0200, &[opcode, 0x34, 0x12]);
        cpu.registers.set_register8(Register::F, flags);
        flow_step(&mut cpu);
        if taken {
            assert_eq!(cpu.registers.pc, 0x1234);
            assert_eq!(cpu.cycle, 16);
        } else {
            assert_eq!(cpu.registers.pc, 0x0203);
            assert_eq!(cpu.cycle, 12);
        }
    }
}

#[test]
fn jp_hl() {
    let mut cpu = flow_machine(0x0100, &[0xE9]);
    cpu.registers.set_hl(0x4321);
    flow_step(&mut cpu);
    assert_eq!(cpu.registers.pc, 0x4321);
    assert_eq!(cpu.cycle, 4);
}

#[test]
fn call_pushes_return_address_high_first() {
    let mut cpu = flow_machine(0x0200, &[0xCD, 0x34, 0x12]);
    cpu.registers.sp = 0xFFFE;
    flow_step(&mut cpu);
    assert_eq!(cpu.read_byte(0xFFFD), 0x02);
    assert_eq!(cpu.read_byte(0xFFFC), 0x03);
    assert_eq!(cpu.registers.sp, 0xFFFC);
    assert_eq!(cpu.registers.pc, 0x1234);
    assert_eq!(cpu.cycle, 24);
}

#[test]
fn call_conditions() {
    for (opcode, flags, taken) in [
        (0xC4u8, 0x00u8, true),
        (0xC4, 0x80, false),
        (0xCC, 0x80, true),
        (0xCC, 0x00, false),
        (0xD4, 0x00, true),
        (0xD4, 0x10, false),
        (0xDC, 0x10, true),
        (0xDC, 0x00, false),
    ] {
        let mut cpu = flow_machine(0x0200, &[opcode, 0x34, 0x12]);
        cpu.registers.set_register8(Register::F, flags);
        cpu.registers.sp = 0xD000;
        flow_step(&mut cpu);
        if taken {
            assert_eq!(cpu.registers.pc, 0x1234);
            assert_eq!(cpu.registers.sp, 0xCFFE);
            assert_eq!(cpu.read_byte(0xCFFF), 0x02);
            assert_eq!(cpu.read_byte(0xCFFE), 0x03);
            assert_eq!(cpu.cycle, 24);
        } else {
            assert_eq!(cpu.registers.pc, 0x0203);
            assert_eq!(cpu.registers.sp, 0xD000);
            assert_eq!(cpu.cycle, 12);
        }
    }
}

#[test]
fn call_then_ret_comes_back() {
    let mut cpu = flow_machine(0x0200, &[0xCD, 0x00, 0x03]);
    cpu.write_byte(0x0300, 0xC9);
    cpu.registers.sp = 0xD000;
    flow_step(&mut cpu);
    flow_step(&mut cpu);
    assert_eq!(cpu.registers.pc, 0x0203);
    assert_eq!(cpu.registers.sp, 0xD000);
    assert_eq!(cpu.cycle, 40);
}

#[test]
fn ret_conditions() {
    for (opcode, flags, taken) in [
        (0xC0u8, 0x00u8, true),
        (0xC0, 0x80, false),
        (0xC8, 0x80, true),
        (0xC8, 0x00, false),
        (0xD0, 0x00, true),
        (0xD0, 0x10, false),
        (0xD8, 0x10, true),
        (0xD8, 0x00, false),
    ] {
        let mut cpu = flow_machine(0x0200, &[opcode]);
        cpu.registers.set_register8(Register::F, flags);
        cpu.registers.sp = 0xD000;
        cpu.write_byte(0xD000, 0x78);
        cpu.write_byte(0xD001, 0x56);
        flow_step(&mut cpu);
        if taken {
            assert_eq!(cpu.registers.pc, 0x5678);
            assert_eq!(cpu.registers.sp, 0xD002);
            assert_eq!(cpu.cycle, 20);
        } else {
            assert_eq!(cpu.registers.pc, 0x0201);
            assert_eq!(cpu.registers.sp, 0xD000);
            assert_eq!(cpu.cycle, 8);
        }
    }
}

#[test]
fn reti_returns_and_enables_interrupts() {
    let mut cpu = flow_machine(0x0040, &[0xD9]);
    cpu.registers.sp = 0xD000;
    cpu.write_byte(0xD000, 0x50);
    cpu.write_byte(0xD001, 0x01);
    flow_step(&mut cpu);
    assert_eq!(cpu.registers.pc, 0x0150);
    assert_eq!(cpu.registers.sp, 0xD002);
    assert!(cpu.ime);
    assert_eq!(cpu.cycle, 16);
}

#[test]
fn rst_enters_fixed_vectors() {
    for (opcode, target) in [
        (0xC7u8, 0x00u16),
        (0xCF, 0x08),
        (0xD7, 0x10),
        (0xDF, 0x18),
        (0xE7, 0x20),
        (0xEF, 0x28),
        (0xF7, 0x30),
        (0xFF, 0x38),
    ] {
        let mut cpu = flow_machine(0x0234, &[opcode]);
        cpu.registers.sp = 0xD000;
        flow_step(&mut cpu);
        assert_eq!(cpu.registers.pc, target);
        assert_eq!(cpu.registers.sp, 0xCFFE);
        assert_eq!(cpu.read_byte(0xCFFF), 0x02);
        assert_eq!(cpu.read_byte(0xCFFE), 0x35);
        assert_eq!(cpu.cycle, 16);
    }
}

#[test]
fn push_stores_high_then_low() {
    let mut cpu = flow_machine(0x0100, &[0xC5]);
    cpu.registers.set_bc(0x1234);
    cpu.registers.sp = 0xFFFE;
    flow_step(&mut cpu);
    assert_eq!(cpu.registers.sp, 0xFFFC);
    assert_eq!(cpu.read_byte(0xFFFD), 0x12);
    assert_eq!(cpu.read_byte(0xFFFC), 0x34);
    assert_eq!(cpu.cycle, 16);
}

#[test]
fn pop_reads_low_then_high() {
    let mut cpu = flow_machine(0x0100, &[0xD1]);
    cpu.registers.sp = 0xD000;
    cpu.write_byte(0xD000, 0xCD);
    cpu.write_byte(0xD001, 0xAB);
    flow_step(&mut cpu);
    assert_eq!(cpu.registers.get_de(), 0xABCD);
    assert_eq!(cpu.registers.sp, 0xD002);
    assert_eq!(cpu.cycle, 12);
}

#[test]
fn push_then_pop_restores_each_pair() {
    for (push, pop, name) in [
        (0xC5u8, 0xC1u8, Register::BC),
        (0xD5, 0xD1, Register::DE),
        (0xE5, 0xE1, Register::HL),
        (0xF5, 0xF1, Register::AF),
    ] {
        let mut cpu = flow_machine(0x0100, &[push, 0x00, pop]);
        cpu.registers.set_register16(name, 0xBEE0);
        cpu.registers.sp = 0xD000;
        flow_step(&mut cpu);
        cpu.registers.set_register16(name, 0x0000);
        flow_step(&mut cpu);
        flow_step(&mut cpu);
        assert_eq!(cpu.registers.get_register16(name), 0xBEE0);
        assert_eq!(cpu.registers.sp, 0xD000);
    }
}

#[test]
fn pop_af_masks_low_nibble() {
    let mut cpu = flow_machine(0x0100, &[0xF1]);
    cpu.registers.sp = 0xD000;
    cpu.write_byte(0xD000, 0xFF);
    cpu.write_byte(0xD001, 0x12);
    flow_step(&mut cpu);
    assert_eq!(cpu.registers.a, 0x12);
    assert_eq!(cpu.registers.f, 0xF0);
}

#[test]
fn stack_helpers_round_trip() {
    let mut cpu = flow_machine(0x0100, &[]);
    cpu.registers.sp = 0xD000;
    cpu.push_stack(0xA1B2);
    assert_eq!(cpu.registers.sp, 0xCFFE);
    assert_eq!(cpu.read_byte(0xCFFF), 0xA1);
    assert_eq!(cpu.read_byte(0xCFFE), 0xB2);
    assert_eq!(cpu.pop_stack(), 0xA1B2);
    assert_eq!(cpu.registers.sp, 0xD000);
}

#[test]
fn stack_pointer_wraps_at_both_ends() {
    let mut cpu = flow_machine(0x0100, &[]);
    cpu.registers.sp = 0x0001;
    cpu.push_stack(0x1234);
    assert_eq!(cpu.registers.sp, 0xFFFF);
    assert_eq!(cpu.read_byte(0x0000), 0x12);
    assert_eq!(cpu.read_byte(0xFFFF), 0x34);
    assert_eq!(cpu.pop_stack(), 0x1234);
    assert_eq!(cpu.registers.sp, 0x0001);
}

#[test]
fn stack_in_reserved_hole_loses_the_value() {
    let mut cpu = flow_machine(0x0100, &[]);
    cpu.registers.sp = 0xFF00;
    cpu.push_stack(0x1234);
    assert_eq!(cpu.registers.sp, 0xFEFE);
    assert_eq!(cpu.pop_stack(), 0xFFFF);
}

#[test]
fn program_counter_wraps() {
    let mut cpu = flow_machine(0xFFFF, &[0x00]);
    flow_step(&mut cpu);
    assert_eq!(cpu.registers.pc, 0x0000);
    let mut cpu = flow_machine(0xFFFF, &[0x3E, 0x77]);
    flow_step(&mut cpu);
    assert_eq!(cpu.registers.a, 0x77);
    assert_eq!(cpu.registers.pc, 0x0001);
}

#[test]
fn fetch_reads_and_advances() {
    let mut cpu = flow_machine(0x0100, &[0xAB, 0xCD, 0xEF]);
    assert_eq!(cpu.fetch_opcode(), 0xAB);
    assert_eq!(cpu.registers.pc, 0x0101);
    assert_eq!(cpu.fetch_word(), 0xEFCD);
    assert_eq!(cpu.registers.pc, 0x0103);
    assert_eq!(cpu.cycle, 0);
}

#[test]
fn register_to_register_loads() {
    let mut cpu = flow_machine(0x0100, &[0x41, 0x78, 0x6C]);
    cpu.registers.c = 0x99;
    cpu.registers.h = 0x42;
    flow_step(&mut cpu);
    assert_eq!(cpu.registers.b, 0x99);
    flow_step(&mut cpu);
    assert_eq!(cpu.registers.a, 0x99);
    flow_step(&mut cpu);
    assert_eq!(cpu.registers.l, 0x42);
    assert_eq!(cpu.cycle, 12);
}

#[test]
fn immediate_byte_loads() {
    let mut cpu = flow_machine(0x0100, &[0x06, 0x11, 0x3E, 0x22, 0x36, 0x33]);
    cpu.registers.set_hl(0xC000);
    flow_step(&mut cpu);
    flow_step(&mut cpu);
    flow_step(&mut cpu);
    assert_eq!(cpu.registers.b, 0x11);
    assert_eq!(cpu.registers.a, 0x22);
    assert_eq!(cpu.read_byte(0xC000), 0x33);
    assert_eq!(cpu.registers.pc, 0x0106);
    assert_eq!(cpu.cycle, 8 + 8 + 12);
}

#[test]
fn loads_through_pairs() {
    let mut cpu = flow_machine(0x0100, &[0x02, 0x1A, 0x70, 0x5E]);
    cpu.registers.a = 0x5A;
    cpu.registers.set_bc(0xC000);
    cpu.registers.set_de(0xC000);
    cpu.registers.set_hl(0xC100);
    cpu.registers.b = 0xC0;
    flow_step(&mut cpu);
    assert_eq!(cpu.read_byte(0xC000), 0x5A);
    cpu.registers.a = 0x00;
    flow_step(&mut cpu);
    assert_eq!(cpu.registers.a, 0x5A);
    flow_step(&mut cpu);
    assert_eq!(cpu.read_byte(0xC100), 0xC0);
    flow_step(&mut cpu);
    assert_eq!(cpu.registers.e, 0xC0);
    assert_eq!(cpu.cycle, 32);
}

#[test]
fn loads_with_increment_and_decrement() {
    let mut cpu = flow_machine(0x0100, &[0x22, 0x32, 0x2A, 0x3A]);
    cpu.registers.a = 0x77;
    cpu.registers.set_hl(0xC0FF);
    flow_step(&mut cpu);
    assert_eq!(cpu.read_byte(0xC0FF), 0x77);
    assert_eq!(cpu.registers.get_hl(), 0xC100);
    cpu.registers.a = 0x88;
    flow_step(&mut cpu);
    assert_eq!(cpu.read_byte(0xC100), 0x88);
    assert_eq!(cpu.registers.get_hl(), 0xC0FF);
    flow_step(&mut cpu);
    assert_eq!(cpu.registers.a, 0x77);
    assert_eq!(cpu.registers.get_hl(), 0xC100);
    flow_step(&mut cpu);
    assert_eq!(cpu.registers.a, 0x88);
    assert_eq!(cpu.registers.get_hl(), 0xC0FF);
    assert_eq!(cpu.cycle, 32);
}

#[test]
fn store_stack_pointer_low_byte_first() {
    let mut cpu = flow_machine(0x0100, &[0x08, 0x00, 0xC0]);
    cpu.registers.sp = 0xFFF8;
    flow_step(&mut cpu);
    assert_eq!(cpu.read_byte(0xC000), 0xF8);
    assert_eq!(cpu.read_byte(0xC001), 0xFF);
    assert_eq!(cpu.registers.pc, 0x0103);
    assert_eq!(cpu.cycle, 20);
}

#[test]
fn high_page_loads() {
    let mut cpu = flow_machine(0x0100, &[0xE0, 0x80, 0xF0, 0x80, 0xE2, 0xF2]);
    cpu.registers.a = 0x3C;
    flow_step(&mut cpu);
    assert_eq!(cpu.read_byte(0xFF80), 0x3C);
    cpu.registers.a = 0;
    flow_step(&mut cpu);
    assert_eq!(cpu.registers.a, 0x3C);
    cpu.registers.c = 0x90;
    flow_step(&mut cpu);
    assert_eq!(cpu.read_byte(0xFF90), 0x3C);
    cpu.registers.a = 0;
    flow_step(&mut cpu);
    assert_eq!(cpu.registers.a, 0x3C);
    assert_eq!(cpu.cycle, 12 + 12 + 8 + 8);
}

#[test]
fn absolute_loads() {
    let mut cpu = flow_machine(0x0100, &[0xEA, 0x34, 0xC2, 0xFA, 0x34, 0xC2]);
    cpu.registers.a = 0x6D;
    flow_step(&mut cpu);
    assert_eq!(cpu.read_byte(0xC234), 0x6D);
    cpu.registers.a = 0;
    flow_step(&mut cpu);
    assert_eq!(cpu.registers.a, 0x6D);
    assert_eq!(cpu.registers.pc, 0x0106);
    assert_eq!(cpu.cycle, 32);
}

#[test]
fn ld_sp_hl() {
    let mut cpu = flow_machine(0x0100, &[0xF9]);
    cpu.registers.set_hl(0xCFFF);
    flow_step(&mut cpu);
    assert_eq!(cpu.registers.sp, 0xCFFF);
    assert_eq!(cpu.cycle, 8);
}

#[test]
fn pair_immediate_loads() {
    let mut cpu = flow_machine(0x0100, &[0x11, 0x01, 0x02, 0x21, 0x03, 0x04, 0x31, 0x05, 0x06]);
    flow_step(&mut cpu);
    flow_step(&mut cpu);
    flow_step(&mut cpu);
    assert_eq!(cpu.registers.get_de(), 0x0201);
    assert_eq!(cpu.registers.get_hl(), 0x0403);
    assert_eq!(cpu.registers.sp, 0x0605);
}

#[test]
fn undefined_opcodes_do_nothing() {
    for opcode in [0xD3u8, 0xDB, 0xDD, 0xE3, 0xE4, 0xEB, 0xEC, 0xED, 0xF4, 0xFC, 0xFD] {
        let mut cpu = flow_machine(0x0100, &[opcode, 0x12, 0x34]);
        cpu.write_byte(0xFF41, 0x5A);
        let registers = cpu.registers;
        let bus: Vec<u8> = (0..=0xFFFFu16).map(|addr| cpu.read_byte(addr)).collect();
        cpu.execute_opcode(opcode);
        assert_eq!(cpu.registers, registers);
        assert_eq!(cpu.cycle, 0);
        assert!(!cpu.halted && !cpu.stopped && !cpu.ime);
        assert_eq!((cpu.ppu.mode, cpu.ppu.mode_clock, cpu.ppu.line), (2, 0, 0));
        assert!(!cpu.ppu.frame_ready);
        for addr in 0..=0xFFFFu16 {
            assert_eq!(cpu.read_byte(addr), bus[addr as usize]);
        }
    }
}

#[test]
fn step_over_an_undefined_opcode_only_moves_pc() {
    for opcode in [0xD3u8, 0xDB, 0xDD, 0xE3, 0xE4, 0xEB, 0xEC, 0xED, 0xF4, 0xFC, 0xFD] {
        let mut cpu = flow_machine(0x0100, &[opcode, 0x00]);
        let mut expected = cpu.registers;
        expected.pc = 0x0101;
        cpu.step();
        assert_eq!(cpu.registers, expected);
        assert_eq!(cpu.cycle, 0);
        assert_eq!(cpu.ppu.mode_clock, 0);
        assert_eq!(cpu.read_byte(0xFF41), 0x00);
        cpu.step();
        assert_eq!(cpu.registers.pc, 0x0102);
        assert_eq!(cpu.cycle, 4);
    }
}

#[test]
fn a_run_of_undefined_opcodes_ends_at_the_reserved_hole() {
    let mut cpu = flow_machine(0x0100, &[]);
    for addr in 0..=0xFFFFu16 {
        cpu.write_byte(addr, 0xED);
    }
    cpu.registers.sp = 0xD000;
    let mut steps: u32 = 0;
    while cpu.cycle == 0 {
        assert!(steps < 0x10000);
        assert_eq!(cpu.registers.pc, 0x0100u16.wrapping_add(steps as u16));
        cpu.step();
        steps += 1;
    }
    assert_eq!(steps, 0xFEA0 - 0x0100 + 1);
    assert_eq!(cpu.cycle, 16);
    assert_eq!(cpu.registers.pc, 0x0038);
    assert_eq!(cpu.registers.sp, 0xCFFE);
    assert_eq!(cpu.read_byte(0xCFFF), 0xFE);
    assert_eq!(cpu.read_byte(0xCFFE), 0xA1);
}

#[test]
fn a_run_of_undefined_opcodes_wraps_past_the_top() {
    let mut cpu = flow_machine(0xFFFE, &[0xD3, 0xD3, 0xD3, 0x3C]);
    cpu.registers.a = 0x10;
    cpu.step();
    cpu.step();
    cpu.step();
    assert_eq!(cpu.registers.pc, 0x0001);
    assert_eq!(cpu.cycle, 0);
    cpu.step();
    assert_eq!(cpu.registers.a, 0x11);
    assert_eq!(cpu.registers.pc, 0x0002);
    assert_eq!(cpu.cycle, 4);
}

#[test]
fn di_and_ei_switch_at_once() {
    let mut cpu = flow_machine(0x0100, &[0xFB, 0xF3]);
    flow_step(&mut cpu);
    assert!(cpu.ime);
    flow_step(&mut cpu);
    assert!(!cpu.ime);
    assert_eq!(cpu.cycle, 8);
}

#[test]
fn halt_and_stop_set_their_flags() {
    let mut cpu = flow_machine(0x0100, &[0x76]);
    flow_step(&mut cpu);
    assert!(cpu.halted);
    assert_eq!(cpu.cycle, 4);
    let mut cpu = flow_machine(0x0100, &[0x10]);
    flow_step(&mut cpu);
    assert!(cpu.stopped);
    assert_eq!(cpu.cycle, 4);
}
