use gameboy::registers::{Register, Registers};

#[test]
fn reset_values() {
    let r = Registers::new();
    assert_eq!(r.a, 0x01);
    assert_eq!(r.f, 0xB0);
    assert_eq!(r.b, 0x00);
    assert_eq!(r.c, 0x13);
    assert_eq!(r.d, 0x00);
    assert_eq!(r.e, 0xD8);
    assert_eq!(r.h, 0x01);
    assert_eq!(r.l, 0x4D);
    assert_eq!(r.sp, 0xFFFE);
    assert_eq!(r.pc, 0x0100);
}

#[test]
fn reset_flags_are_z_h_c() {
    let r = Registers::new();
    assert!(r.get_z_flag());
    assert!(!r.get_s_flag());
    assert!(r.get_h_flag());
    assert!(r.get_c_flag());
}

#[test]
fn pairs_compose_high_and_low() {
    let r = Registers::new();
    assert_eq!(r.get_af(), 0x01B0);
    assert_eq!(r.get_bc(), 0x0013);
    assert_eq!(r.get_de(), 0x00D8);
    assert_eq!(r.get_hl(), 0x014D);
    assert_eq!(r.get_register16(Register::AF), 0x01B0);
    assert_eq!(r.get_register16(Register::BC), 0x0013);
    assert_eq!(r.get_register16(Register::DE), 0x00D8);
    assert_eq!(r.get_register16(Register::HL), 0x014D);
    assert_eq!(r.get_register16(Register::SP), 0xFFFE);
    assert_eq!(r.get_register16(Register::PC), 0x0100);
}

#[test]
fn pair_writes_split_high_and_low() {
    let mut r = Registers::new();
    r.set_bc(0x1234);
    r.set_de(0x5678);
    r.set_hl(0x9ABC);
    assert_eq!((r.b, r.c), (0x12, 0x34));
    assert_eq!((r.d, r.e), (0x56, 0x78));
    assert_eq!((r.h, r.l), (0x9A, 0xBC));
    r.set_register16(Register::SP, 0xC000);
    r.set_register16(Register::PC, 0x4000);
    assert_eq!(r.sp, 0xC000);
    assert_eq!(r.pc, 0x4000);
}

#[test]
fn writing_af_clears_low_nibble_of_f() {
    let mut r = Registers::new();
    r.set_af(0x12FF);
    assert_eq!(r.a, 0x12);
    assert_eq!(r.f, 0xF0);
    assert_eq!(r.get_af(), 0x12F0);
    r.set_register16(Register::AF, 0xAB0F);
    assert_eq!(r.a, 0xAB);
    assert_eq!(r.f, 0x00);
}

#[test]
fn writing_f_clears_low_nibble() {
    let mut r = Registers::new();
    r.set_register8(Register::F, 0x5F);
    assert_eq!(r.f, 0x50);
    assert_eq!(r.get_register8(Register::F), 0x50);
}

#[test]
fn byte_registers_read_back() {
    let mut r = Registers::new();
    let names = [
        Register::A,
        Register::B,
        Register::C,
        Register::D,
        Register::E,
        Register::H,
        Register::L,
    ];
    for (i, name) in names.iter().enumerate() {
        r.set_register8(*name, 0x20 + i as u8);
    }
    for (i, name) in names.iter().enumerate() {
        assert_eq!(r.get_register8(*name), 0x20 + i as u8);
    }
}

#[test]
fn wrong_width_reads_zero_and_writes_nothing() {
    let mut r = Registers::new();
    assert_eq!(r.get_register8(Register::HL), 0);
    assert_eq!(r.get_register16(Register::A), 0);
    let before = r;
    r.set_register8(Register::BC, 0x77);
    r.set_register16(Register::B, 0x7777);
    assert_eq!(r, before);
}

#[test]
fn each_flag_has_its_bit() {
    let mut r = Registers::new();
    r.set_register8(Register::F, 0x00);
    r.set_z_flag(true);
    assert_eq!(r.f, 0x80);
    r.set_s_flag(true);
    assert_eq!(r.f, 0xC0);
    r.set_h_flag(true);
    assert_eq!(r.f, 0xE0);
    r.set_c_flag(true);
    assert_eq!(r.f, 0xF0);
    r.set_z_flag(false);
    assert_eq!(r.f, 0x70);
    r.set_s_flag(false);
    assert_eq!(r.f, 0x30);
    r.set_h_flag(false);
    assert_eq!(r.f, 0x10);
    r.set_c_flag(false);
    assert_eq!(r.f, 0x00);
}

#[test]
fn flag_writes_keep_low_nibble_zero() {
    let mut r = Registers::new();
    for round in 0..16u8 {
        r.set_z_flag(round & 1 != 0);
        r.set_s_flag(round & 2 != 0);
        r.set_h_flag(round & 4 != 0);
        r.set_c_flag(round & 8 != 0);
        assert_eq!(r.f & 0x0F, 0);
        assert_eq!(r.get_z_flag(), round & 1 != 0);
        assert_eq!(r.get_s_flag(), round & 2 != 0);
        assert_eq!(r.get_h_flag(), round & 4 != 0);
        assert_eq!(r.get_c_flag(), round & 8 != 0);
    }
}
