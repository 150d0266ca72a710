use gameboy::cpu::CPU;
use gameboy::memory::Memory;
use gameboy::ppu::PPU;
use gameboy::registers::Register;

fn cb_machine(program: &[u8]) -> CPU {
    let mut cpu = CPU::new(Memory::new(), PPU::new());
    for (i, byte) in program.iter().enumerate() {
        cpu.write_byte(0x0100 + i as u16, *byte);
    }
    cpu.registers.set_register8(Register::F, 0x00);
    cpu
}

fn cb_step(cpu: &mut CPU) {
    let opcode = cpu.fetch_opcode();
    cpu.execute_opcode(opcode);
}

#[test]
fn rlc_register() {
    let mut cpu = cb_machine(&[0xCB, 0x00]);
    cpu.registers.b = 0x85;
    cb_step(&mut cpu);
    assert_eq!(cpu.registers.b, 0x0B);
    assert_eq!(cpu.registers.f, 0x10);
    assert_eq!(cpu.registers.pc, 0x0102);
    assert_eq!(cpu.cycle, 8);
}

#[test]
fn rlc_of_zero_sets_z() {
    let mut cpu = cb_machine(&[0xCB, 0x07]);
    cpu.registers.a = 0x00;
    cb_step(&mut cpu);
    assert_eq!(cpu.registers.a, 0x00);
    assert_eq!(cpu.registers.f, 0x80);
}

#[test]
fn rrc_register() {
    let mut cpu = cb_machine(&[0xCB, 0x09]);
    cpu.registers.c = 0x01;
    cb_step(&mut cpu);
    assert_eq!(cpu.registers.c, 0x80);
    assert_eq!(cpu.registers.f, 0x10);
}

#[test]
fn rl_goes_through_carry() {
    let mut cpu = cb_machine(&[0xCB, 0x17, 0xCB, 0x17]);
    cpu.registers.a = 0x80;
    cb_step(&mut cpu);
    assert_eq!(cpu.registers.a, 0x00);
    assert_eq!(cpu.registers.f, 0x90);
    cb_step(&mut cpu);
    assert_eq!(cpu.registers.a, 0x01);
    assert_eq!(cpu.registers.f, 0x00);
}

#[test]
fn rr_goes_through_carry() {
    let mut cpu = cb_machine(&[0xCB, 0x1F, 0xCB, 0x1F]);
    cpu.registers.a = 0x01;
    cb_step(&mut cpu);
    assert_eq!(cpu.registers.a, 0x00);
    assert_eq!(cpu.registers.f, 0x90);
    cb_step(&mut cpu);
    assert_eq!(cpu.registers.a, 0x80);
    assert_eq!(cpu.registers.f, 0x00);
}

#[test]
fn sla_shifts_out_bit_7() {
    let mut cpu = cb_machine(&[0xCB, 0x27, 0xCB, 0x27]);
    cpu.registers.a = 0x80;
    cb_step(&mut cpu);
    assert_eq!(cpu.registers.a, 0x00);
    assert_eq!(cpu.registers.f, 0x90);
    cpu.registers.a = 0x41;
    cb_step(&mut cpu);
    assert_eq!(cpu.registers.a, 0x82);
    assert_eq!(cpu.registers.f, 0x00);
}

#[test]
fn sra_keeps_sign_and_shifts_out_bit_0() {
    let mut cpu = cb_machine(&[0xCB, 0x2F, 0xCB, 0x2F, 0xCB, 0x2F]);
    cpu.registers.a = 0x8A;
    cb_step(&mut cpu);
    assert_eq!(cpu.registers.a, 0xC5);
    assert_eq!(cpu.registers.f, 0x00);
    cpu.registers.a = 0x01;
    cb_step(&mut cpu);
    assert_eq!(cpu.registers.a, 0x00);
    assert_eq!(cpu.registers.f, 0x90);
    cpu.registers.a = 0x81;
    cb_step(&mut cpu);
    assert_eq!(cpu.registers.a, 0xC0);
    assert_eq!(cpu.registers.f, 0x10);
}

#[test]
fn srl_shifts_in_zero() {
    let mut cpu = cb_machine(&[0xCB, 0x3F, 0xCB, 0x3F]);
    cpu.registers.a = 0x01;
    cb_step(&mut cpu);
    assert_eq!(cpu.registers.a, 0x00);
    assert_eq!(cpu.registers.f, 0x90);
    assert_eq!(cpu.cycle, 8);
    cpu.registers.a = 0xFF;
    cb_step(&mut cpu);
    assert_eq!(cpu.registers.a, 0x7F);
    assert_eq!(cpu.registers.f, 0x10);
}

#[test]
fn swap_exchanges_nibbles() {
    let mut cpu = cb_machine(&[0xCB, 0x37, 0xCB, 0x37]);
    cpu.registers.a = 0xF1;
    cpu.registers.set_register8(Register::F, 0xF0);
    cb_step(&mut cpu);
    assert_eq!(cpu.registers.a, 0x1F);
    assert_eq!(cpu.registers.f, 0x00);
    cpu.registers.a = 0x00;
    cb_step(&mut cpu);
    assert_eq!(cpu.registers.a, 0x00);
    assert_eq!(cpu.registers.f, 0x80);
}

#[test]
fn swap_twice_is_identity_for_every_byte() {
    for value in 0..=255u8 {
        let mut cpu = cb_machine(&[0xCB, 0x30, 0xCB, 0x30]);
        cpu.registers.b = value;
        cb_step(&mut cpu);
        assert_eq!(cpu.registers.b, value.rotate_left(4));
        cb_step(&mut cpu);
        assert_eq!(cpu.registers.b, value);
    }
}

#[test]
fn rlc_then_rrc_is_identity_for_every_byte() {
    for value in 0..=255u8 {
        let mut cpu = cb_machine(&[0xCB, 0x02, 0xCB, 0x0A]);
        cpu.registers.d = value;
        cb_step(&mut cpu);
        assert_eq!(cpu.registers.d, value.rotate_left(1));
        assert_eq!(cpu.registers.get_c_flag(), value & 0x80 != 0);
        cb_step(&mut cpu);
        assert_eq!(cpu.registers.d, value);
        assert_eq!(cpu.registers.get_c_flag(), value & 0x80 != 0);
    }
}

#[test]
fn shifts_at_hl_go_through_memory() {
    let mut cpu = cb_machine(&[0xCB, 0x06, 0xCB, 0x36, 0xCB, 0x3E]);
    cpu.registers.set_hl(0xC000);
    cpu.write_byte(0xC000, 0x85);
    cb_step(&mut cpu);
    assert_eq!(cpu.read_byte(0xC000), 0x0B);
    assert_eq!(cpu.registers.f, 0x10);
    assert_eq!(cpu.cycle, 16);
    cb_step(&mut cpu);
    assert_eq!(cpu.read_byte(0xC000), 0xB0);
    assert_eq!(cpu.registers.f, 0x00);
    cb_step(&mut cpu);
    assert_eq!(cpu.read_byte(0xC000), 0x58);
    assert_eq!(cpu.registers.f, 0x00);
    assert_eq!(cpu.cycle, 48);
}

#[test]
fn bit_sets_z_for_a_clear_bit() {
    let mut cpu = cb_machine(&[0xCB, 0x7C, 0xCB, 0x74]);
    cpu.registers.h = 0x80;
    cpu.registers.set_register8(Register::F, 0x50);
    cb_step(&mut cpu);
    assert_eq!(cpu.registers.f, 0x30);
    assert_eq!(cpu.cycle, 8);
    cb_step(&mut cpu);
    assert_eq!(cpu.registers.f, 0xB0);
    assert_eq!(cpu.registers.h, 0x80);
}

#[test]
fn bit_at_hl_costs_twelve() {
    let mut cpu = cb_machine(&[0xCB, 0x46]);
    cpu.registers.set_hl(0xC000);
    cpu.write_byte(0xC000, 0x01);
    cb_step(&mut cpu);
    assert_eq!(cpu.registers.f, 0x20);
    assert_eq!(cpu.cycle, 12);
}

#[test]
fn res_and_set_change_one_bit() {
    let mut cpu = cb_machine(&[0xCB, 0x87, 0xCB, 0xFF, 0xCB, 0x98]);
    cpu.registers.a = 0xFF;
    cpu.registers.b = 0x08;
    cpu.registers.set_register8(Register::F, 0xF0);
    cb_step(&mut cpu);
    assert_eq!(cpu.registers.a, 0xFE);
    cb_step(&mut cpu);
    assert_eq!(cpu.registers.a, 0xFE);
    cpu.registers.a = 0x00;
    cpu.registers.pc = 0x0102;
    cb_step(&mut cpu);
    assert_eq!(cpu.registers.a, 0x80);
    cb_step(&mut cpu);
    assert_eq!(cpu.registers.b, 0x00);
    assert_eq!(cpu.registers.f, 0xF0);
    assert_eq!(cpu.cycle, 32);
}

#[test]
fn res_and_set_at_hl() {
    let mut cpu = cb_machine(&[0xCB, 0xFE, 0xCB, 0x86]);
    cpu.registers.set_hl(0xC000);
    cpu.write_byte(0xC000, 0x01);
    cb_step(&mut cpu);
    assert_eq!(cpu.read_byte(0xC000), 0x81);
    assert_eq!(cpu.cycle, 16);
    cb_step(&mut cpu);
    assert_eq!(cpu.read_byte(0xC000), 0x80);
    assert_eq!(cpu.registers.f, 0x00);
    assert_eq!(cpu.cycle, 32);
}

#[test]
fn every_bit_of_every_operand_decodes() {
    let names = [
        Register::B,
        Register::C,
        Register::D,
        Register::E,
        Register::H,
        Register::L,
        Register::HL,
        Register::A,
    ];
    for bit in 0..8u8 {
        for (z, name) in names.iter().enumerate() {
            if z == 6 {
                continue;
            }
            let set = 0xC0 | (bit << 3) | z as u8;
            let test = 0x40 | (bit << 3) | z as u8;
            let res = 0x80 | (bit << 3) | z as u8;
            let mut cpu = cb_machine(&[0xCB, set, 0xCB, test, 0xCB, res]);
            cpu.registers.set_register8(*name, 0x00);
            cb_step(&mut cpu);
            assert_eq!(cpu.registers.get_register8(*name), 1 << bit);
            cb_step(&mut cpu);
            assert!(!cpu.registers.get_z_flag());
            cb_step(&mut cpu);
            assert_eq!(cpu.registers.get_register8(*name), 0x00);
        }
    }
}
