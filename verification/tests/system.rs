use gameboy::cpu::{CYCLES_PER_FRAME, MAX_STEP_CYCLES};
use gameboy::device::Device;
use gameboy::display::scale_framebuffer;

#[test]
fn fresh_device() {
    let device = Device::new();
    assert_eq!(device.cpu.registers.pc, 0x0100);
    assert_eq!(device.cpu.registers.sp, 0xFFFE);
    assert_eq!(device.cpu.registers.get_af(), 0x01B0);
    assert_eq!(device.cpu.cycle, 0);
    assert!(!device.cpu.halted && !device.cpu.stopped && !device.cpu.ime);
    assert_eq!(device.cpu.ppu.mode, 2);
    assert_eq!(device.cpu.ppu.line, 0);
    assert!(!device.cpu.ppu.frame_ready);
    assert_eq!(device.cpu.read_byte(0x0100), 0x00);
    assert_eq!(device.cpu.read_byte(0xFEA0), 0xFF);
}

#[test]
fn image_is_loaded_from_address_zero() {
    let mut device = Device::new();
    device.load_instructions(&[0x3E, 0x42, 0x76]);
    assert_eq!(device.cpu.read_byte(0x0000), 0x3E);
    assert_eq!(device.cpu.read_byte(0x0001), 0x42);
    assert_eq!(device.cpu.read_byte(0x0002), 0x76);
    assert_eq!(device.cpu.read_byte(0x0003), 0x00);
    assert_eq!(device.cpu.registers.pc, 0x0100);
}

#[test]
fn empty_image_changes_nothing() {
    let mut device = Device::new();
    device.load_instructions(&[]);
    assert_eq!(device.cpu.read_byte(0x0000), 0x00);
    assert_eq!(device.cpu.cycle, 0);
}

#[test]
fn full_rom_image() {
    let mut image = vec![0u8; 0x8000];
    image[0x0100] = 0xC3;
    image[0x7FFF] = 0x5A;
    let mut device = Device::new();
    device.load_instructions(&image);
    assert_eq!(device.cpu.read_byte(0x0100), 0xC3);
    assert_eq!(device.cpu.read_byte(0x7FFF), 0x5A);
    assert_eq!(device.cpu.read_byte(0x8000), 0x00);
}

#[test]
fn longer_image_goes_on_through_the_bus() {
    let mut image = vec![0u8; 0x10002];
    image[0x0000] = 0x11;
    image[0x8000] = 0x22;
    image[0xC005] = 0x33;
    image[0xFEA0] = 0x44;
    image[0x10001] = 0x55;
    let mut device = Device::new();
    device.load_instructions(&image);
    assert_eq!(device.cpu.read_byte(0x0000), 0x00);
    assert_eq!(device.cpu.read_byte(0x0001), 0x55);
    assert_eq!(device.cpu.read_byte(0x8000), 0x22);
    assert_eq!(device.cpu.read_byte(0xC005), 0x00);
    assert_eq!(device.cpu.read_byte(0xFEA0), 0xFF);
}

#[test]
fn a_frame_of_nops() {
    let mut device = Device::new();
    device.cpu.cycle();
    assert_eq!(device.cpu.cycle, 0);
    assert_eq!(device.cpu.registers.pc, 0x0100u16.wrapping_add((CYCLES_PER_FRAME / 4) as u16));
    assert!(device.cpu.ppu.frame_ready);
    assert_eq!(device.cpu.ppu.mode, 2);
    assert_eq!(device.cpu.ppu.line, 0);
    assert_eq!(device.cpu.ppu.mode_clock, 0);
    assert_eq!(device.cpu.read_byte(0xFF0F) & 0x01, 0x01);
    assert_eq!(device.cpu.registers.f & 0x0F, 0);
}

#[test]
fn frame_overshoot_is_carried_over() {
    let mut device = Device::new();
    let mut image = vec![0u8; 0x0200];
    image[0x0100] = 0x08;
    image[0x0101] = 0x00;
    image[0x0102] = 0xC0;
    image[0x0103] = 0x18;
    image[0x0104] = 0xFB;
    device.load_instructions(&image);
    device.cpu.cycle();
    assert_eq!(device.cpu.cycle, 4);
    assert_eq!(device.cpu.registers.pc, 0x0103);
    assert_eq!((device.cpu.ppu.line, device.cpu.ppu.mode, device.cpu.ppu.mode_clock), (0, 2, 4));
    device.cpu.cycle();
    assert_eq!(device.cpu.cycle, 0);
    assert_eq!(device.cpu.registers.pc, 0x0100);
    assert_eq!((device.cpu.ppu.line, device.cpu.ppu.mode, device.cpu.ppu.mode_clock), (0, 2, 0));
    for _ in 0..5 {
        device.cpu.cycle();
        assert!(device.cpu.cycle < MAX_STEP_CYCLES);
        let place = device.cpu.ppu.line as u32 * 456
            + match device.cpu.ppu.mode {
                3 => 80,
                0 => 252,
                _ => 0,
            }
            + device.cpu.ppu.mode_clock;
        assert_eq!(place, device.cpu.cycle);
    }
}

#[test]
fn frame_with_interrupt_handler() {
    let mut device = Device::new();
    let mut image = vec![0u8; 0x0200];
    image[0x0040] = 0x3C;
    image[0x0041] = 0xD9;
    image[0x0100] = 0x3E;
    image[0x0101] = 0x01;
    image[0x0102] = 0xE0;
    image[0x0103] = 0xFF;
    image[0x0104] = 0xAF;
    image[0x0105] = 0xFB;
    image[0x0106] = 0x76;
    image[0x0107] = 0x18;
    image[0x0108] = 0xFD;
    device.load_instructions(&image);
    device.cpu.cycle();
    assert_eq!(device.cpu.registers.a, 1);
    assert!(device.cpu.ppu.frame_ready);
    device.cpu.ppu.frame_ready = false;
    device.cpu.cycle();
    assert_eq!(device.cpu.registers.a, 2);
    assert!(device.cpu.ppu.frame_ready);
    assert_eq!(device.cpu.registers.sp, 0xFFFE);
}

#[test]
fn frame_that_starts_late_only_takes_the_frame_off() {
    let mut device = Device::new();
    device.cpu.cycle = CYCLES_PER_FRAME + 100;
    device.cpu.cycle();
    assert_eq!(device.cpu.cycle, 100);
    assert_eq!(device.cpu.registers.pc, 0x0100);
}

#[test]
fn scaling_repeats_each_pixel() {
    let scaled = scale_framebuffer(&[1, 2, 3, 4], 2, 2, 2);
    assert_eq!(scaled, vec![1, 1, 2, 2, 1, 1, 2, 2, 3, 3, 4, 4, 3, 3, 4, 4]);
}

#[test]
fn scaling_by_one_copies() {
    let scaled = scale_framebuffer(&[9, 8, 7, 6, 5, 4], 3, 2, 1);
    assert_eq!(scaled, vec![9, 8, 7, 6, 5, 4]);
}

#[test]
fn scaling_by_three() {
    let scaled = scale_framebuffer(&[7, 9], 2, 1, 3);
    assert_eq!(scaled, vec![7, 7, 7, 9, 9, 9, 7, 7, 7, 9, 9, 9, 7, 7, 7, 9, 9, 9]);
}

#[test]
fn scaling_by_zero_or_of_nothing_is_empty() {
    assert!(scale_framebuffer(&[1, 2, 3, 4], 2, 2, 0).is_empty());
    assert!(scale_framebuffer(&[], 0, 0, 4).is_empty());
    assert!(scale_framebuffer(&[1, 2], 2, 0, 4).is_empty());
}

#[test]
fn scaling_ignores_what_lies_beyond_the_frame() {
    let scaled = scale_framebuffer(&[1, 2, 3, 4, 5, 6], 2, 2, 1);
    assert_eq!(scaled, vec![1, 2, 3, 4]);
}

#[test]
fn scaling_a_whole_frame() {
    let mut device = Device::new();
    device.cpu.ppu.framebuffer[0] = 0xFF000000;
    device.cpu.ppu.framebuffer[159] = 0xFF555555;
    device.cpu.ppu.framebuffer[160 * 143] = 0xFFAAAAAA;
    let scaled = scale_framebuffer(&device.cpu.ppu.framebuffer, 160, 144, 4);
    assert_eq!(scaled.len(), 640 * 576);
    assert_eq!(scaled[0], 0xFF000000);
    assert_eq!(scaled[3 * 640 + 3], 0xFF000000);
    assert_eq!(scaled[4], 0);
    assert_eq!(scaled[4 * 640], 0);
    assert_eq!(scaled[639], 0xFF555555);
    assert_eq!(scaled[636], 0xFF555555);
    assert_eq!(scaled[635], 0);
    assert_eq!(scaled[572 * 640], 0xFFAAAAAA);
    assert_eq!(scaled[575 * 640 + 3], 0xFFAAAAAA);
}

#[test]
fn frame_ends_over_undefined_opcodes() {
    let mut device = Device::new();
    let mut image = vec![0xD3u8; 0x0200];
    image[0x01FE] = 0x18;
    image[0x01FF] = 0x00;
    image[0x0008] = 0xC3;
    image[0x0009] = 0x00;
    image[0x000A] = 0x01;
    device.load_instructions(&image);
    device.cpu.write_byte(0x0200, 0xCF);
    device.cpu.registers.sp = 0xD000;
    device.cpu.cycle();
    assert!(device.cpu.cycle < MAX_STEP_CYCLES);
    assert!(device.cpu.ppu.frame_ready);
    assert!(device.cpu.is_wf());
}

#[test]
fn well_formedness_is_told() {
    let mut device = Device::new();
    assert!(device.cpu.is_wf());
    assert!(device.cpu.ppu.is_wf());
    device.cpu.registers.f = 0xB1;
    assert!(!device.cpu.is_wf());
    device.cpu.registers.f = 0xB0;
    device.cpu.ppu.mode = 4;
    assert!(!device.cpu.ppu.is_wf());
    assert!(!device.cpu.is_wf());
    device.cpu.ppu.mode = 1;
    assert!(!device.cpu.ppu.is_wf());
    device.cpu.ppu.line = 144;
    assert!(device.cpu.ppu.is_wf());
    device.cpu.ppu.line = 154;
    assert!(!device.cpu.ppu.is_wf());
    device.cpu.ppu.mode = 0;
    device.cpu.ppu.line = 143;
    device.cpu.ppu.window_line = 144;
    assert!(device.cpu.ppu.is_wf());
    device.cpu.ppu.mode = 3;
    assert!(!device.cpu.ppu.is_wf());
    device.cpu.ppu.window_line = 143;
    assert!(device.cpu.ppu.is_wf());
    assert!(device.cpu.is_wf());
}
