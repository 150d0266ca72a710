//! The instructions behind the 0xCB prefix: rotates and shifts, bit tests,
//! and setting and clearing single bits. The costs here leave out the four
//! ticks of the prefix.

use vstd::prelude::*;
use crate::alu::{shift8, ShiftOp};
use crate::bits::{
    clear_bit, lemma_bit_masks, lemma_left_shift_bits, lemma_right_shift_bits, lemma_set_clear_bit,
    set_bit, test_bit,
};
use crate::cpu::{CpuState, CPU};
use crate::registers::Register;

verus! {

impl CpuState {
    /// A rotate or shift of a register: 4 ticks.
    #[verifier::opaque]
    pub open spec fn shift_8(self, op: ShiftOp, reg: Register) -> CpuState {
        let r = shift8(op, self.reg8(reg), self.registers.c_flag());
        self.set_flags_of(r).set8(reg, r.value).tick(4)
    }

    /// A rotate or shift of the byte at (HL): 12 ticks.
    #[verifier::opaque]
    pub open spec fn shift_mem16(self, op: ShiftOp, reg: Register) -> CpuState {
        let addr = self.reg16(reg);
        let r = shift8(op, self.read(addr), self.registers.c_flag());
        self.set_flags_of(r).write(addr, r.value).tick(12)
    }

    /// The state after bit `bit` of `value` is tested: Z is set when the bit
    /// is clear, N is cleared, H set, and C kept.
    pub open spec fn bit_tested(self, bit: u8, value: u8) -> CpuState {
        self.set_flags(!test_bit(value, bit), false, true, self.registers.c_flag())
    }

    /// BIT n, r: 4 ticks.
    #[verifier::opaque]
    pub open spec fn bit_8(self, bit: u8, reg: Register) -> CpuState {
        self.bit_tested(bit, self.reg8(reg)).tick(4)
    }

    /// BIT n, (HL): 8 ticks.
    #[verifier::opaque]
    pub open spec fn bit_mem16(self, bit: u8, reg: Register) -> CpuState {
        self.bit_tested(bit, self.read(self.reg16(reg))).tick(8)
    }

    /// RES n, r: no flags. 4 ticks.
    #[verifier::opaque]
    pub open spec fn res_8(self, bit: u8, reg: Register) -> CpuState {
        self.set8(reg, clear_bit(self.reg8(reg), bit)).tick(4)
    }

    /// RES n, (HL): no flags. 12 ticks.
    #[verifier::opaque]
    pub open spec fn res_mem16(self, bit: u8, reg: Register) -> CpuState {
        let addr = self.reg16(reg);
        self.write(addr, clear_bit(self.read(addr), bit)).tick(12)
    }

    /// SET n, r: no flags. 4 ticks.
    #[verifier::opaque]
    pub open spec fn set_8(self, reg: Register, bit: u8) -> CpuState {
        self.set8(reg, set_bit(self.reg8(reg), bit)).tick(4)
    }

    /// SET n, (HL): no flags. 12 ticks.
    #[verifier::opaque]
    pub open spec fn set_mem16(self, reg: Register, bit: u8) -> CpuState {
        let addr = self.reg16(reg);
        self.write(addr, set_bit(self.read(addr), bit)).tick(12)
    }
}

impl CPU {
    /// Rotates or shifts `value` and sets the flags of the result.
    pub fn shift(&mut self, op: ShiftOp, value: u8) -> (result: u8)
        ensures
            result == shift8(op, value, old(self).registers.c_flag()).value,
            final(self)@ == old(self)@.set_flags_of(
                shift8(op, value, old(self).registers.c_flag()),
            ),
            old(self).wf() ==> final(self).wf(),
    {
        let carry: u8 = if self.registers.get_c_flag() {
            1
        } else {
            0
        };
        proof {
            lemma_left_shift_bits(value, carry);
            lemma_right_shift_bits(value, carry);
            lemma_bit_masks(value);
        }
        let top = value & 0x80 != 0;
        let bottom = value & 0x01 != 0;
        let (result, out): (u8, bool) = match op {
            ShiftOp::Rlc => ((value << 1) | (value >> 7), top),
            ShiftOp::Rrc => ((value >> 1) | (value << 7), bottom),
            ShiftOp::Rl => ((value << 1) | carry, top),
            ShiftOp::Rr => ((value >> 1) | (carry << 7), bottom),
            ShiftOp::Sla => (value << 1, top),
            ShiftOp::Sra => ((value >> 1) | (value & 0x80), bottom),
            ShiftOp::Swap => ((value >> 4) | (value << 4), false),
            ShiftOp::Srl => (value >> 1, bottom),
        };
        self.update_z_flag(result);
        self.registers.set_s_flag(false);
        self.registers.set_h_flag(false);
        self.registers.set_c_flag(out);
        result
    }

    /// Tests bit `bit` of `value`: Z is set when it is clear.
    pub fn test(&mut self, bit: u8, value: u8)
        requires
            bit < 8,
        ensures
            final(self)@ == old(self)@.bit_tested(bit, value),
            old(self).wf() ==> final(self).wf(),
    {
        let bit_set = CPU::get_bit_at_position(value, bit);
        self.update_z_flag(bit_set);
        self.registers.set_s_flag(false);
        self.registers.set_h_flag(true);
    }

    /// RLC r.
    pub fn rlc_8(&mut self, reg: Register)
        requires
            old(self).wf(),
            old(self).can_charge(4),
        ensures
            final(self).wf(),
            final(self)@.lead() == old(self)@.lead(),
            final(self)@ == old(self)@.shift_8(ShiftOp::Rlc, reg),
            final(self).cycle == old(self).cycle + 4,
    {
        proof {
            reveal(CpuState::shift_8);
        }
        let value = self.registers.get_register8(reg);
        let result = self.shift(ShiftOp::Rlc, value);
        self.registers.set_register8(reg, result);
        self.handle_cycles(4);
    }

    /// RL r.
    pub fn rl_8(&mut self, reg: Register)
        requires
            old(self).wf(),
            old(self).can_charge(4),
        ensures
            final(self).wf(),
            final(self)@.lead() == old(self)@.lead(),
            final(self)@ == old(self)@.shift_8(ShiftOp::Rl, reg),
            final(self).cycle == old(self).cycle + 4,
    {
        proof {
            reveal(CpuState::shift_8);
        }
        let value = self.registers.get_register8(reg);
        let result = self.shift(ShiftOp::Rl, value);
        self.registers.set_register8(reg, result);
        self.handle_cycles(4);
    }

    /// RLC (HL).
    pub fn rlc_mem16(&mut self, reg: Register)
        requires
            old(self).wf(),
            old(self).can_charge(12),
        ensures
            final(self).wf(),
            final(self)@.lead() == old(self)@.lead(),
            final(self)@ == old(self)@.shift_mem16(ShiftOp::Rlc, reg),
            final(self).cycle == old(self).cycle + 12,
    {
        proof {
            reveal(CpuState::shift_mem16);
        }
        let addr = self.registers.get_register16(reg);
        let value = self.read_byte(addr);
        let result = self.shift(ShiftOp::Rlc, value);
        self.write_byte(addr, result);
        self.handle_cycles(12);
    }

    /// RL (HL).
    pub fn rl_mem16(&mut self, reg: Register)
        requires
            old(self).wf(),
            old(self).can_charge(12),
        ensures
            final(self).wf(),
            final(self)@.lead() == old(self)@.lead(),
            final(self)@ == old(self)@.shift_mem16(ShiftOp::Rl, reg),
            final(self).cycle == old(self).cycle + 12,
    {
        proof {
            reveal(CpuState::shift_mem16);
        }
        let addr = self.registers.get_register16(reg);
        let value = self.read_byte(addr);
        let result = self.shift(ShiftOp::Rl, value);
        self.write_byte(addr, result);
        self.handle_cycles(12);
    }

    /// RRC r.
    pub fn rrc_8(&mut self, reg: Register)
        requires
            old(self).wf(),
            old(self).can_charge(4),
        ensures
            final(self).wf(),
            final(self)@.lead() == old(self)@.lead(),
            final(self)@ == old(self)@.shift_8(ShiftOp::Rrc, reg),
            final(self).cycle == old(self).cycle + 4,
    {
        proof {
            reveal(CpuState::shift_8);
        }
        let value = self.registers.get_register8(reg);
        let result = self.shift(ShiftOp::Rrc, value);
        self.registers.set_register8(reg, result);
        self.handle_cycles(4);
    }

    /// RR r.
    pub fn rr_8(&mut self, reg: Register)
        requires
            old(self).wf(),
            old(self).can_charge(4),
        ensures
            final(self).wf(),
            final(self)@.lead() == old(self)@.lead(),
            final(self)@ == old(self)@.shift_8(ShiftOp::Rr, reg),
            final(self).cycle == old(self).cycle + 4,
    {
        proof {
            reveal(CpuState::shift_8);
        }
        let value = self.registers.get_register8(reg);
        let result = self.shift(ShiftOp::Rr, value);
        self.registers.set_register8(reg, result);
        self.handle_cycles(4);
    }

    /// RRC (HL).
    pub fn rrc_mem16(&mut self, reg: Register)
        requires
            old(self).wf(),
            old(self).can_charge(12),
        ensures
            final(self).wf(),
            final(self)@.lead() == old(self)@.lead(),
            final(self)@ == old(self)@.shift_mem16(ShiftOp::Rrc, reg),
            final(self).cycle == old(self).cycle + 12,
    {
        proof {
            reveal(CpuState::shift_mem16);
        }
        let addr = self.registers.get_register16(reg);
        let value = self.read_byte(addr);
        let result = self.shift(ShiftOp::Rrc, value);
        self.write_byte(addr, result);
        self.handle_cycles(12);
    }

    /// RR (HL).
    pub fn rr_mem16(&mut self, reg: Register)
        requires
            old(self).wf(),
            old(self).can_charge(12),
        ensures
            final(self).wf(),
            final(self)@.lead() == old(self)@.lead(),
            final(self)@ == old(self)@.shift_mem16(ShiftOp::Rr, reg),
            final(self).cycle == old(self).cycle + 12,
    {
        proof {
            reveal(CpuState::shift_mem16);
        }
        let addr = self.registers.get_register16(reg);
        let value = self.read_byte(addr);
        let result = self.shift(ShiftOp::Rr, value);
        self.write_byte(addr, result);
        self.handle_cycles(12);
    }

    /// SLA r.
    pub fn sla_8(&mut self, reg: Register)
        requires
            old(self).wf(),
            old(self).can_charge(4),
        ensures
            final(self).wf(),
            final(self)@.lead() == old(self)@.lead(),
            final(self)@ == old(self)@.shift_8(ShiftOp::Sla, reg),
            final(self).cycle == old(self).cycle + 4,
    {
        proof {
            reveal(CpuState::shift_8);
        }
        let value = self.registers.get_register8(reg);
        let result = self.shift(ShiftOp::Sla, value);
        self.registers.set_register8(reg, result);
        self.handle_cycles(4);
    }

    /// SLA (HL).
    pub fn sla_mem16(&mut self, reg: Register)
        requires
            old(self).wf(),
            old(self).can_charge(12),
        ensures
            final(self).wf(),
            final(self)@.lead() == old(self)@.lead(),
            final(self)@ == old(self)@.shift_mem16(ShiftOp::Sla, reg),
            final(self).cycle == old(self).cycle + 12,
    {
        proof {
            reveal(CpuState::shift_mem16);
        }
        let addr = self.registers.get_register16(reg);
        let value = self.read_byte(addr);
        let result = self.shift(ShiftOp::Sla, value);
        self.write_byte(addr, result);
        self.handle_cycles(12);
    }

    /// SRA r.
    pub fn sra_8(&mut self, reg: Register)
        requires
            old(self).wf(),
            old(self).can_charge(4),
        ensures
            final(self).wf(),
            final(self)@.lead() == old(self)@.lead(),
            final(self)@ == old(self)@.shift_8(ShiftOp::Sra, reg),
            final(self).cycle == old(self).cycle + 4,
    {
        proof {
            reveal(CpuState::shift_8);
        }
        let value = self.registers.get_register8(reg);
        let result = self.shift(ShiftOp::Sra, value);
        self.registers.set_register8(reg, result);
        self.handle_cycles(4);
    }

    /// SRA (HL).
    pub fn sra_mem16(&mut self, reg: Register)
        requires
            old(self).wf(),
            old(self).can_charge(12),
        ensures
            final(self).wf(),
            final(self)@.lead() == old(self)@.lead(),
            final(self)@ == old(self)@.shift_mem16(ShiftOp::Sra, reg),
            final(self).cycle == old(self).cycle + 12,
    {
        proof {
            reveal(CpuState::shift_mem16);
        }
        let addr = self.registers.get_register16(reg);
        let value = self.read_byte(addr);
        let result = self.shift(ShiftOp::Sra, value);
        self.write_byte(addr, result);
        self.handle_cycles(12);
    }

    /// SWAP r.
    pub fn swap_8(&mut self, reg: Register)
        requires
            old(self).wf(),
            old(self).can_charge(4),
        ensures
            final(self).wf(),
            final(self)@.lead() == old(self)@.lead(),
            final(self)@ == old(self)@.shift_8(ShiftOp::Swap, reg),
            final(self).cycle == old(self).cycle + 4,
    {
        proof {
            reveal(CpuState::shift_8);
        }
        let value = self.registers.get_register8(reg);
        let result = self.shift(ShiftOp::Swap, value);
        self.registers.set_register8(reg, result);
        self.handle_cycles(4);
    }

    /// SWAP (HL).
    pub fn swap_mem16(&mut self, reg: Register)
        requires
            old(self).wf(),
            old(self).can_charge(12),
        ensures
            final(self).wf(),
            final(self)@.lead() == old(self)@.lead(),
            final(self)@ == old(self)@.shift_mem16(ShiftOp::Swap, reg),
            final(self).cycle == old(self).cycle + 12,
    {
        proof {
            reveal(CpuState::shift_mem16);
        }
        let addr = self.registers.get_register16(reg);
        let value = self.read_byte(addr);
        let result = self.shift(ShiftOp::Swap, value);
        self.write_byte(addr, result);
        self.handle_cycles(12);
    }

    /// SRL r.
    pub fn srl_8(&mut self, reg: Register)
        requires
            old(self).wf(),
            old(self).can_charge(4),
        ensures
            final(self).wf(),
            final(self)@.lead() == old(self)@.lead(),
            final(self)@ == old(self)@.shift_8(ShiftOp::Srl, reg),
            final(self).cycle == old(self).cycle + 4,
    {
        proof {
            reveal(CpuState::shift_8);
        }
        let value = self.registers.get_register8(reg);
        let result = self.shift(ShiftOp::Srl, value);
        self.registers.set_register8(reg, result);
        self.handle_cycles(4);
    }

    /// SRL (HL).
    pub fn srl_mem16(&mut self, reg: Register)
        requires
            old(self).wf(),
            old(self).can_charge(12),
        ensures
            final(self).wf(),
            final(self)@.lead() == old(self)@.lead(),
            final(self)@ == old(self)@.shift_mem16(ShiftOp::Srl, reg),
            final(self).cycle == old(self).cycle + 12,
    {
        proof {
            reveal(CpuState::shift_mem16);
        }
        let addr = self.registers.get_register16(reg);
        let value = self.read_byte(addr);
        let result = self.shift(ShiftOp::Srl, value);
        self.write_byte(addr, result);
        self.handle_cycles(12);
    }

    /// BIT n, r.
    pub fn bit_8(&mut self, bit: u8, reg: Register)
        requires
            old(self).wf(),
            old(self).can_charge(4),
            bit < 8,
        ensures
            final(self).wf(),
            final(self)@.lead() == old(self)@.lead(),
            final(self)@ == old(self)@.bit_8(bit, reg),
            final(self).cycle == old(self).cycle + 4,
    {
        proof {
            reveal(CpuState::bit_8);
        }
        let value = self.registers.get_register8(reg);
        self.test(bit, value);
        self.handle_cycles(4);
    }

    /// BIT n, (HL).
    pub fn bit_mem16(&mut self, bit: u8, reg: Register)
        requires
            old(self).wf(),
            old(self).can_charge(8),
            bit < 8,
        ensures
            final(self).wf(),
            final(self)@.lead() == old(self)@.lead(),
            final(self)@ == old(self)@.bit_mem16(bit, reg),
            final(self).cycle == old(self).cycle + 8,
    {
        proof {
            reveal(CpuState::bit_mem16);
        }
        let addr = self.registers.get_register16(reg);
        let value = self.read_byte(addr);
        self.test(bit, value);
        self.handle_cycles(8);
    }

    /// RES n, r.
    pub fn res_8(&mut self, bit: u8, reg: Register)
        requires
            old(self).wf(),
            old(self).can_charge(4),
            bit < 8,
        ensures
            final(self).wf(),
            final(self)@.lead() == old(self)@.lead(),
            final(self)@ == old(self)@.res_8(bit, reg),
            final(self).cycle == old(self).cycle + 4,
    {
        proof {
            reveal(CpuState::res_8);
        }
        let value = self.registers.get_register8(reg);
        proof {
            lemma_set_clear_bit(value, bit);
        }
        let result = value & !(1u8 << bit);
        self.registers.set_register8(reg, result);
        self.handle_cycles(4);
    }

    /// RES n, (HL).
    pub fn res_mem16(&mut self, bit: u8, reg: Register)
        requires
            old(self).wf(),
            old(self).can_charge(12),
            bit < 8,
        ensures
            final(self).wf(),
            final(self)@.lead() == old(self)@.lead(),
            final(self)@ == old(self)@.res_mem16(bit, reg),
            final(self).cycle == old(self).cycle + 12,
    {
        proof {
            reveal(CpuState::res_mem16);
        }
        let addr = self.registers.get_register16(reg);
        let value = self.read_byte(addr);
        proof {
            lemma_set_clear_bit(value, bit);
        }
        let result = value & !(1u8 << bit);
        self.write_byte(addr, result);
        self.handle_cycles(12);
    }

    /// SET n, r.
    pub fn set_8(&mut self, reg: Register, bit: u8)
        requires
            old(self).wf(),
            old(self).can_charge(4),
            bit < 8,
        ensures
            final(self).wf(),
            final(self)@.lead() == old(self)@.lead(),
            final(self)@ == old(self)@.set_8(reg, bit),
            final(self).cycle == old(self).cycle + 4,
    {
        proof {
            reveal(CpuState::set_8);
        }
        let value = self.registers.get_register8(reg);
        proof {
            lemma_set_clear_bit(value, bit);
        }
        let result = value | (1u8 << bit);
        self.registers.set_register8(reg, result);
        self.handle_cycles(4);
    }

    /// SET n, (HL).
    pub fn set_mem16(&mut self, reg: Register, bit: u8)
        requires
            old(self).wf(),
            old(self).can_charge(12),
            bit < 8,
        ensures
            final(self).wf(),
            final(self)@.lead() == old(self)@.lead(),
            final(self)@ == old(self)@.set_mem16(reg, bit),
            final(self).cycle == old(self).cycle + 12,
    {
        proof {
            reveal(CpuState::set_mem16);
        }
        let addr = self.registers.get_register16(reg);
        let value = self.read_byte(addr);
        proof {
            lemma_set_clear_bit(value, bit);
        }
        let result = value | (1u8 << bit);
        self.write_byte(addr, result);
        self.handle_cycles(12);
    }
}

} // verus!
