//! The register file: eight 8-bit registers, the stack pointer and the
//! program counter, with the four flags packed into the high nibble of F.

use vstd::prelude::*;
use crate::bits::{flag_byte, high_byte, lemma_flag_masks, lemma_word_bits, low_byte, word};

verus! {

/// Names of the 8-bit registers, the two 16-bit registers and the four pairs.
#[derive(Clone, Copy, PartialEq, Eq, Structural, Debug)]
pub enum Register {
    A,
    F,
    B,
    C,
    D,
    E,
    H,
    L,
    SP,
    PC,
    AF,
    BC,
    DE,
    HL,
}

/// The register file.
#[derive(Clone, Copy, PartialEq, Eq, Structural, Debug)]
pub struct Registers {
    pub a: u8,
    /// Z, N, H, C in bits 7 to 4; the low nibble is kept at zero.
    pub f: u8,
    pub b: u8,
    pub c: u8,
    pub d: u8,
    pub e: u8,
    pub h: u8,
    pub l: u8,
    pub sp: u16,
    pub pc: u16,
}

impl Registers {
    /// The low nibble of F is zero.
    pub open spec fn wf(&self) -> bool {
        self.f % 16 == 0
    }

    /// The zero flag.
    pub open spec fn z_flag(&self) -> bool {
        self.f >= 128
    }

    /// The subtraction flag (N).
    pub open spec fn n_flag(&self) -> bool {
        (self.f / 64) % 2 == 1
    }

    /// The half-carry flag.
    pub open spec fn h_flag(&self) -> bool {
        (self.f / 32) % 2 == 1
    }

    /// The carry flag.
    pub open spec fn c_flag(&self) -> bool {
        (self.f / 16) % 2 == 1
    }

    /// The four flags have the given values and the low nibble of F is zero.
    pub open spec fn flags_are(&self, z: bool, n: bool, h: bool, c: bool) -> bool {
        &&& self.z_flag() == z
        &&& self.n_flag() == n
        &&& self.h_flag() == h
        &&& self.c_flag() == c
        &&& self.wf()
    }

    /// The value read under an 8-bit name; a 16-bit name reads as zero.
    pub open spec fn get8(&self, reg: Register) -> u8 {
        match reg {
            Register::A => self.a,
            Register::F => self.f,
            Register::B => self.b,
            Register::C => self.c,
            Register::D => self.d,
            Register::E => self.e,
            Register::H => self.h,
            Register::L => self.l,
            _ => 0,
        }
    }

    /// The value read under a 16-bit name; an 8-bit name reads as zero.
    /// AF exposes F with its low nibble masked.
    pub open spec fn get16(&self, reg: Register) -> u16 {
        match reg {
            Register::SP => self.sp,
            Register::PC => self.pc,
            Register::AF => word(self.a, ((self.f / 16) * 16) as u8),
            Register::BC => word(self.b, self.c),
            Register::DE => word(self.d, self.e),
            Register::HL => word(self.h, self.l),
            _ => 0,
        }
    }

    /// The file after a write under an 8-bit name. A write to F drops the
    /// low nibble; a write under a 16-bit name changes nothing.
    pub open spec fn with8(self, reg: Register, value: u8) -> Registers {
        match reg {
            Register::A => Registers { a: value, ..self },
            Register::F => Registers { f: ((value / 16) * 16) as u8, ..self },
            Register::B => Registers { b: value, ..self },
            Register::C => Registers { c: value, ..self },
            Register::D => Registers { d: value, ..self },
            Register::E => Registers { e: value, ..self },
            Register::H => Registers { h: value, ..self },
            Register::L => Registers { l: value, ..self },
            _ => self,
        }
    }

    /// The file after a write under a 16-bit name. A write to AF drops the
    /// low nibble of F; a write under an 8-bit name changes nothing.
    pub open spec fn with16(self, reg: Register, value: u16) -> Registers {
        match reg {
            Register::SP => Registers { sp: value, ..self },
            Register::PC => Registers { pc: value, ..self },
            Register::AF => Registers {
                a: high_byte(value),
                f: ((low_byte(value) / 16) * 16) as u8,
                ..self
            },
            Register::BC => Registers { b: high_byte(value), c: low_byte(value), ..self },
            Register::DE => Registers { d: high_byte(value), e: low_byte(value), ..self },
            Register::HL => Registers { h: high_byte(value), l: low_byte(value), ..self },
            _ => self,
        }
    }

    /// The file with F replaced by the four given flags.
    pub open spec fn with_flags(self, z: bool, n: bool, h: bool, c: bool) -> Registers {
        Registers { f: flag_byte(z, n, h, c), ..self }
    }

    /// The register values at the hand-off from the boot sequence.
    pub open spec fn reset() -> Registers {
        Registers {
            a: 0x01,
            f: 0xB0,
            b: 0x00,
            c: 0x13,
            d: 0x00,
            e: 0xD8,
            h: 0x01,
            l: 0x4D,
            sp: 0xFFFE,
            pc: 0x0100,
        }
    }

    /// The register file at the hand-off from the boot sequence.
    pub fn new() -> (r: Registers)
        ensures
            r == Registers::reset(),
            r.wf(),
    {
        Registers {
            a: 0x01,
            f: 0xB0,
            b: 0x00,
            c: 0x13,
            d: 0x00,
            e: 0xD8,
            h: 0x01,
            l: 0x4D,
            sp: 0xFFFE,
            pc: 0x0100,
        }
    }

    pub fn get_register8(&self, reg: Register) -> (v: u8)
        ensures
            v == self.get8(reg),
    {
        match reg {
            Register::A => self.a,
            Register::F => self.f,
            Register::B => self.b,
            Register::C => self.c,
            Register::D => self.d,
            Register::E => self.e,
            Register::H => self.h,
            Register::L => self.l,
            _ => 0,
        }
    }

    pub fn get_register16(&self, reg: Register) -> (v: u16)
        ensures
            v == self.get16(reg),
    {
        match reg {
            Register::SP => self.sp,
            Register::PC => self.pc,
            Register::AF => self.get_af(),
            Register::BC => self.get_bc(),
            Register::DE => self.get_de(),
            Register::HL => self.get_hl(),
            _ => 0,
        }
    }

    pub fn set_register8(&mut self, reg: Register, value: u8)
        ensures
            *final(self) == old(self).with8(reg, value),
            old(self).wf() ==> final(self).wf(),
    {
        match reg {
            Register::A => self.a = value,
            Register::F => {
                proof {
                    lemma_flag_masks(value);
                }
                self.f = value & 0xF0;
            },
            Register::B => self.b = value,
            Register::C => self.c = value,
            Register::D => self.d = value,
            Register::E => self.e = value,
            Register::H => self.h = value,
            Register::L => self.l = value,
            _ => (),
        }
    }

    pub fn set_register16(&mut self, reg: Register, value: u16)
        ensures
            *final(self) == old(self).with16(reg, value),
            old(self).wf() ==> final(self).wf(),
    {
        match reg {
            Register::SP => self.sp = value,
            Register::PC => self.pc = value,
            Register::AF => self.set_af(value),
            Register::BC => self.set_bc(value),
            Register::DE => self.set_de(value),
            Register::HL => self.set_hl(value),
            _ => (),
        }
    }

    pub fn get_af(&self) -> (v: u16)
        ensures
            v == self.get16(Register::AF),
    {
        proof {
            lemma_flag_masks(self.f);
            lemma_word_bits(self.a, self.f & 0xF0, 0);
        }
        ((self.a as u16) << 8) | ((self.f & 0xF0) as u16)
    }

    pub fn set_af(&mut self, value: u16)
        ensures
            *final(self) == old(self).with16(Register::AF, value),
            final(self).wf(),
    {
        proof {
            lemma_word_bits(0, 0, value);
            lemma_flag_masks((value & 0xFF) as u8);
        }
        self.a = (value >> 8) as u8;
        self.f = ((value & 0xFF) as u8) & 0xF0;
    }

    pub fn get_bc(&self) -> (v: u16)
        ensures
            v == word(self.b, self.c),
    {
        proof {
            lemma_word_bits(self.b, self.c, 0);
        }
        ((self.b as u16) << 8) | (self.c as u16)
    }

    pub fn set_bc(&mut self, value: u16)
        ensures
            *final(self) == old(self).with16(Register::BC, value),
    {
        proof {
            lemma_word_bits(0, 0, value);
        }
        self.b = (value >> 8) as u8;
        self.c = (value & 0xFF) as u8;
    }

    pub fn get_de(&self) -> (v: u16)
        ensures
            v == word(self.d, self.e),
    {
        proof {
            lemma_word_bits(self.d, self.e, 0);
        }
        ((self.d as u16) << 8) | (self.e as u16)
    }

    pub fn set_de(&mut self, value: u16)
        ensures
            *final(self) == old(self).with16(Register::DE, value),
    {
        proof {
            lemma_word_bits(0, 0, value);
        }
        self.d = (value >> 8) as u8;
        self.e = (value & 0xFF) as u8;
    }

    pub fn get_hl(&self) -> (v: u16)
        ensures
            v == word(self.h, self.l),
    {
        proof {
            lemma_word_bits(self.h, self.l, 0);
        }
        ((self.h as u16) << 8) | (self.l as u16)
    }

    pub fn set_hl(&mut self, value: u16)
        ensures
            *final(self) == old(self).with16(Register::HL, value),
    {
        proof {
            lemma_word_bits(0, 0, value);
        }
        self.h = (value >> 8) as u8;
        self.l = (value & 0xFF) as u8;
    }

    pub fn set_z_flag(&mut self, set: bool)
        ensures
            *final(self) == old(self).with_flags(
                set,
                old(self).n_flag(),
                old(self).h_flag(),
                old(self).c_flag(),
            ),
            final(self).flags_are(set, old(self).n_flag(), old(self).h_flag(), old(self).c_flag()),
    {
        proof {
            lemma_flag_masks(self.f);
        }
        if set {
            self.f = (self.f | 0x80) & 0xF0;
        } else {
            self.f = self.f & 0x70;
        }
    }

    pub fn set_s_flag(&mut self, set: bool)
        ensures
            *final(self) == old(self).with_flags(
                old(self).z_flag(),
                set,
                old(self).h_flag(),
                old(self).c_flag(),
            ),
            final(self).flags_are(old(self).z_flag(), set, old(self).h_flag(), old(self).c_flag()),
    {
        proof {
            lemma_flag_masks(self.f);
        }
        if set {
            self.f = (self.f | 0x40) & 0xF0;
        } else {
            self.f = self.f & 0xB0;
        }
    }

    pub fn set_h_flag(&mut self, set: bool)
        ensures
            *final(self) == old(self).with_flags(
                old(self).z_flag(),
                old(self).n_flag(),
                set,
                old(self).c_flag(),
            ),
            final(self).flags_are(old(self).z_flag(), old(self).n_flag(), set, old(self).c_flag()),
    {
        proof {
            lemma_flag_masks(self.f);
        }
        if set {
            self.f = (self.f | 0x20) & 0xF0;
        } else {
            self.f = self.f & 0xD0;
        }
    }

    pub fn set_c_flag(&mut self, set: bool)
        ensures
            *final(self) == old(self).with_flags(
                old(self).z_flag(),
                old(self).n_flag(),
                old(self).h_flag(),
                set,
            ),
            final(self).flags_are(old(self).z_flag(), old(self).n_flag(), old(self).h_flag(), set),
    {
        proof {
            lemma_flag_masks(self.f);
        }
        if set {
            self.f = (self.f | 0x10) & 0xF0;
        } else {
            self.f = self.f & 0xE0;
        }
    }

    pub fn get_z_flag(&self) -> (set: bool)
        ensures
            set == self.z_flag(),
    {
        proof {
            lemma_flag_masks(self.f);
        }
        (self.f & 0x80) != 0
    }

    pub fn get_s_flag(&self) -> (set: bool)
        ensures
            set == self.n_flag(),
    {
        proof {
            lemma_flag_masks(self.f);
        }
        (self.f & 0x40) != 0
    }

    pub fn get_h_flag(&self) -> (set: bool)
        ensures
            set == self.h_flag(),
    {
        proof {
            lemma_flag_masks(self.f);
        }
        (self.f & 0x20) != 0
    }

    pub fn get_c_flag(&self) -> (set: bool)
        ensures
            set == self.c_flag(),
    {
        proof {
            lemma_flag_masks(self.f);
        }
        (self.f & 0x10) != 0
    }
}

} // verus!
