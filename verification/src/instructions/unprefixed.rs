//! The unprefixed instructions: loads, arithmetic, jumps, calls and returns,
//! the stack, and processor control. Each charges its cost in clock ticks
//! once its effect is in place.

use vstd::prelude::*;
use crate::alu::{
    add16, add_signed16, alu8, daa8, dec8, inc8, rotate_a, signed8, wrap16, AluOp, ShiftOp,
};
use crate::bits::{high_byte, lemma_nibble_bits, lemma_word_bits, low_byte};
use crate::cpu::{CpuState, CPU};
use crate::registers::Register;

verus! {

/// `base` plus the signed byte `e`, wrapping.
pub fn add_signed(base: u16, e: u8) -> (r: u16)
    ensures
        r == wrap16(base + signed8(e)),
{
    if e < 128 {
        base.wrapping_add(e as u16)
    } else {
        base.wrapping_sub(256 - e as u16)
    }
}

impl CpuState {
    /// NOP: 4 ticks.
    #[verifier::opaque]
    pub open spec fn nop(self) -> CpuState {
        self.tick(4)
    }

    /// STOP: sets `stopped`. 4 ticks.
    #[verifier::opaque]
    pub open spec fn stop(self) -> CpuState {
        CpuState { stopped: true, ..self }.tick(4)
    }

    /// HALT: sets `halted`. 4 ticks.
    #[verifier::opaque]
    pub open spec fn halt(self) -> CpuState {
        CpuState { halted: true, ..self }.tick(4)
    }

    /// DI: clears the interrupt master enable. 4 ticks.
    #[verifier::opaque]
    pub open spec fn di(self) -> CpuState {
        CpuState { ime: false, ..self }.tick(4)
    }

    /// EI: sets the interrupt master enable at once. 4 ticks.
    #[verifier::opaque]
    pub open spec fn ei(self) -> CpuState {
        CpuState { ime: true, ..self }.tick(4)
    }

    /// LD r, r': 4 ticks.
    #[verifier::opaque]
    pub open spec fn ld_8_8(self, dest: Register, src: Register) -> CpuState {
        self.set8(dest, self.reg8(src)).tick(4)
    }

    /// LD r, n: 8 ticks.
    #[verifier::opaque]
    pub open spec fn ld_8_imm1(self, dest: Register) -> CpuState {
        self.skip(1).set8(dest, self.imm8()).tick(8)
    }

    /// LD rr, nn: 12 ticks.
    #[verifier::opaque]
    pub open spec fn ld_16_imm2(self, dest: Register) -> CpuState {
        self.skip(2).set16(dest, self.imm16()).tick(12)
    }

    /// LD (rr), r: 8 ticks.
    #[verifier::opaque]
    pub open spec fn ld_mem16_8(self, reg16: Register, src: Register) -> CpuState {
        self.write(self.reg16(reg16), self.reg8(src)).tick(8)
    }

    /// LD r, (rr): 8 ticks.
    #[verifier::opaque]
    pub open spec fn ld_8_mem16(self, dest: Register, reg16: Register) -> CpuState {
        self.set8(dest, self.read(self.reg16(reg16))).tick(8)
    }

    /// The state with `reg16` one higher or one lower, wrapping.
    pub open spec fn bump16(self, reg16: Register, increment: bool) -> CpuState {
        self.set16(
            reg16,
            wrap16(
                if increment {
                    self.reg16(reg16) + 1
                } else {
                    self.reg16(reg16) - 1
                },
            ),
        )
    }

    /// LD (HL+), A and LD (HL-), A: the store, then the pair moves. 8 ticks.
    #[verifier::opaque]
    pub open spec fn ld_mem16_8_inc_dec(self, reg16: Register, src: Register, increment: bool) -> CpuState {
        self.write(self.reg16(reg16), self.reg8(src)).bump16(reg16, increment).tick(8)
    }

    /// LD A, (HL+) and LD A, (HL-): the load, then the pair moves. 8 ticks.
    #[verifier::opaque]
    pub open spec fn ld_8_mem16_inc_dec(self, dest: Register, reg16: Register, increment: bool) -> CpuState {
        self.set8(dest, self.read(self.reg16(reg16))).bump16(reg16, increment).tick(8)
    }

    /// LD (nn), SP: the stack pointer goes to memory, low byte first.
    /// 20 ticks.
    #[verifier::opaque]
    pub open spec fn ld_memimm2_sp(self) -> CpuState {
        let addr = self.imm16();
        let sp = self.registers.sp;
        self.skip(2).write(addr, low_byte(sp)).write(wrap16(addr + 1), high_byte(sp)).tick(20)
    }

    /// An address in the page at 0xFF00.
    pub open spec fn high_page(offset: u8) -> u16 {
        (0xFF00 + offset) as u16
    }

    /// LD (C), A: a store into the page at 0xFF00. 8 ticks.
    #[verifier::opaque]
    pub open spec fn ld_mem8_8(self, reg8: Register, src: Register) -> CpuState {
        self.write(Self::high_page(self.reg8(reg8)), self.reg8(src)).tick(8)
    }

    /// LD A, (C): a load from the page at 0xFF00. 8 ticks.
    #[verifier::opaque]
    pub open spec fn ld_8_mem8(self, dest: Register, reg8: Register) -> CpuState {
        self.set8(dest, self.read(Self::high_page(self.reg8(reg8)))).tick(8)
    }

    /// LD (nn), A: 16 ticks.
    #[verifier::opaque]
    pub open spec fn ld_memimm2_8(self, src: Register) -> CpuState {
        self.skip(2).write(self.imm16(), self.reg8(src)).tick(16)
    }

    /// LD A, (nn): 16 ticks.
    #[verifier::opaque]
    pub open spec fn ld_8_memimm2(self, dest: Register) -> CpuState {
        self.skip(2).set8(dest, self.read(self.imm16())).tick(16)
    }

    /// LD SP, HL: 8 ticks.
    #[verifier::opaque]
    pub open spec fn ld_16_16(self, dest: Register, src: Register) -> CpuState {
        self.set16(dest, self.reg16(src)).tick(8)
    }

    /// LD HL, SP+e: HL takes SP plus the signed immediate; Z and N are
    /// cleared, H and C come from the low byte. 12 ticks.
    #[verifier::opaque]
    pub open spec fn ld_hl_sp_r8(self) -> CpuState {
        let r = add_signed16(self.registers.sp, self.imm8());
        self.skip(1).set16(Register::HL, r.value).set_flags(false, false, r.h, r.c).tick(12)
    }

    /// LDH (n), A: 12 ticks.
    #[verifier::opaque]
    pub open spec fn ldh_memimm1_8(self, src: Register) -> CpuState {
        self.skip(1).write(Self::high_page(self.imm8()), self.reg8(src)).tick(12)
    }

    /// LDH A, (n): 12 ticks.
    #[verifier::opaque]
    pub open spec fn ldh_8_memimm1(self, dest: Register) -> CpuState {
        self.skip(1).set8(dest, self.read(Self::high_page(self.imm8()))).tick(12)
    }

    /// LD (HL), n: 12 ticks.
    #[verifier::opaque]
    pub open spec fn ld_mem16_imm1(self, reg16: Register) -> CpuState {
        let s = self.skip(1);
        s.write(s.reg16(reg16), self.imm8()).tick(12)
    }

    /// INC rr: no flags. 8 ticks.
    #[verifier::opaque]
    pub open spec fn inc_16(self, reg16: Register) -> CpuState {
        self.bump16(reg16, true).tick(8)
    }

    /// DEC rr: no flags. 8 ticks.
    #[verifier::opaque]
    pub open spec fn dec_16(self, reg16: Register) -> CpuState {
        self.bump16(reg16, false).tick(8)
    }

    /// INC r: C is kept. 4 ticks.
    #[verifier::opaque]
    pub open spec fn inc_8(self, reg8: Register) -> CpuState {
        let r = inc8(self.reg8(reg8), self.registers.c_flag());
        self.set_flags_of(r).set8(reg8, r.value).tick(4)
    }

    /// DEC r: C is kept. 4 ticks.
    #[verifier::opaque]
    pub open spec fn dec_8(self, reg8: Register) -> CpuState {
        let r = dec8(self.reg8(reg8), self.registers.c_flag());
        self.set_flags_of(r).set8(reg8, r.value).tick(4)
    }

    /// INC (HL): C is kept. 12 ticks.
    #[verifier::opaque]
    pub open spec fn inc_mem16(self, reg16: Register) -> CpuState {
        let addr = self.reg16(reg16);
        let r = inc8(self.read(addr), self.registers.c_flag());
        self.set_flags_of(r).write(addr, r.value).tick(12)
    }

    /// DEC (HL): C is kept. 12 ticks.
    #[verifier::opaque]
    pub open spec fn dec_mem16(self, reg16: Register) -> CpuState {
        let addr = self.reg16(reg16);
        let r = dec8(self.read(addr), self.registers.c_flag());
        self.set_flags_of(r).write(addr, r.value).tick(12)
    }

    /// RLCA, RRCA, RLA, RRA: the accumulator rotates and Z is cleared.
    /// 4 ticks.
    #[verifier::opaque]
    pub open spec fn rotate_accumulator(self, op: ShiftOp) -> CpuState {
        let r = rotate_a(op, self.registers.a, self.registers.c_flag());
        self.set_flags_of(r).set8(Register::A, r.value).tick(4)
    }

    /// JR e and JR cc, e: when taken, the signed immediate is added to the
    /// address after it, 12 ticks; otherwise the immediate is skipped,
    /// 8 ticks.
    #[verifier::opaque]
    pub open spec fn jr_if(self, taken: bool) -> CpuState {
        if taken {
            self.jump(wrap16(self.registers.pc + 1 + signed8(self.imm8()))).tick(12)
        } else {
            self.skip(1).tick(8)
        }
    }

    /// DAA: decimal adjustment of the accumulator. 4 ticks.
    #[verifier::opaque]
    pub open spec fn daa(self) -> CpuState {
        let r = daa8(
            self.registers.a,
            self.registers.n_flag(),
            self.registers.h_flag(),
            self.registers.c_flag(),
        );
        self.set_flags_of(r).set8(Register::A, r.value).tick(4)
    }

    /// SCF: C is set, N and H cleared. 4 ticks.
    #[verifier::opaque]
    pub open spec fn scf(self) -> CpuState {
        self.set_flags(self.registers.z_flag(), false, false, true).tick(4)
    }

    /// CCF: C is inverted, N and H cleared. 4 ticks.
    #[verifier::opaque]
    pub open spec fn ccf(self) -> CpuState {
        self.set_flags(self.registers.z_flag(), false, false, !self.registers.c_flag()).tick(4)
    }

    /// CPL: the accumulator is complemented, N and H set. 4 ticks.
    #[verifier::opaque]
    pub open spec fn cpl(self) -> CpuState {
        self.set8(Register::A, (255 - self.registers.a) as u8).set_flags(
            self.registers.z_flag(),
            true,
            true,
            self.registers.c_flag(),
        ).tick(4)
    }

    /// ADD HL, rr: Z is kept, N cleared, H and C are the carries out of
    /// bits 11 and 15. 8 ticks.
    #[verifier::opaque]
    pub open spec fn add_16_16(self, dest: Register, src: Register) -> CpuState {
        let r = add16(self.reg16(dest), self.reg16(src));
        self.set_flags(self.registers.z_flag(), false, r.h, r.c).set16(dest, r.value).tick(8)
    }

    /// The state after operation `op` on `dest` and the operand `y`: the
    /// flags are set and, but for a comparison, `dest` takes the result.
    pub open spec fn accumulate(self, op: AluOp, dest: Register, y: u8) -> CpuState {
        let r = alu8(op, self.reg8(dest), y, self.registers.c_flag());
        if op == AluOp::Cp {
            self.set_flags_of(r)
        } else {
            self.set_flags_of(r).set8(dest, r.value)
        }
    }

    /// An accumulator operation on a register: 4 ticks.
    #[verifier::opaque]
    pub open spec fn alu_8_8(self, op: AluOp, dest: Register, src: Register) -> CpuState {
        self.accumulate(op, dest, self.reg8(src)).tick(4)
    }

    /// An accumulator operation on the byte at (HL): 8 ticks.
    #[verifier::opaque]
    pub open spec fn alu_8_mem16(self, op: AluOp, dest: Register, reg16: Register) -> CpuState {
        self.accumulate(op, dest, self.read(self.reg16(reg16))).tick(8)
    }

    /// An accumulator operation on the immediate byte: 8 ticks.
    #[verifier::opaque]
    pub open spec fn alu_8_imm1(self, op: AluOp, dest: Register) -> CpuState {
        self.skip(1).accumulate(op, dest, self.imm8()).tick(8)
    }

    /// ADD SP, e: the signed immediate is added; Z and N are cleared, H and
    /// C come from the low byte. 16 ticks.
    #[verifier::opaque]
    pub open spec fn add_16_imm1(self, dest: Register) -> CpuState {
        let r = add_signed16(self.reg16(dest), self.imm8());
        self.skip(1).set_flags(false, false, r.h, r.c).set16(dest, r.value).tick(16)
    }

    /// The state after the program counter is popped from the stack.
    pub open spec fn return_to_caller(self) -> CpuState {
        self.drop_top().jump(self.top())
    }

    /// RET cc: 20 ticks when taken, 8 otherwise.
    #[verifier::opaque]
    pub open spec fn ret_if(self, taken: bool) -> CpuState {
        if taken {
            self.return_to_caller().tick(20)
        } else {
            self.tick(8)
        }
    }

    /// RET: 16 ticks.
    #[verifier::opaque]
    pub open spec fn ret(self) -> CpuState {
        self.return_to_caller().tick(16)
    }

    /// RETI: a return that sets the interrupt master enable. 16 ticks.
    #[verifier::opaque]
    pub open spec fn reti(self) -> CpuState {
        CpuState { ime: true, ..self.return_to_caller() }.tick(16)
    }

    /// POP rr: 12 ticks. Popping AF masks the low nibble of F.
    #[verifier::opaque]
    pub open spec fn pop_16(self, reg16: Register) -> CpuState {
        self.drop_top().set16(reg16, self.top()).tick(12)
    }

    /// PUSH rr: 16 ticks.
    #[verifier::opaque]
    pub open spec fn push_16(self, reg16: Register) -> CpuState {
        self.push(self.reg16(reg16)).tick(16)
    }

    /// JP nn and JP cc, nn: 16 ticks when taken, 12 otherwise.
    #[verifier::opaque]
    pub open spec fn jp_if(self, taken: bool) -> CpuState {
        if taken {
            self.jump(self.imm16()).tick(16)
        } else {
            self.skip(2).tick(12)
        }
    }

    /// JP HL: 4 ticks.
    #[verifier::opaque]
    pub open spec fn jp_mem16(self, dest: Register) -> CpuState {
        self.jump(self.reg16(dest)).tick(4)
    }

    /// CALL nn and CALL cc, nn: when taken, the address after the
    /// instruction is pushed and the jump is made, 24 ticks; 12 otherwise.
    #[verifier::opaque]
    pub open spec fn call_if(self, taken: bool) -> CpuState {
        if taken {
            self.skip(2).push(wrap16(self.registers.pc + 2)).jump(self.imm16()).tick(24)
        } else {
            self.skip(2).tick(12)
        }
    }

    /// RST n: the program counter is pushed and `target` entered. 16 ticks.
    #[verifier::opaque]
    pub open spec fn rst(self, target: u16) -> CpuState {
        self.push(self.registers.pc).jump(target).tick(16)
    }

    /// The 0xCB prefix: the next byte is run as a prefixed instruction, and
    /// 4 ticks are charged for the prefix.
    #[verifier::opaque]
    pub open spec fn prefix_cb(self) -> CpuState {
        self.skip(1).execute_cb(self.imm8()).tick(4)
    }
}

impl CPU {
    /// NOP.
    pub fn nop(&mut self)
        requires
            old(self).wf(),
            old(self).can_charge(4),
        ensures
            final(self).wf(),
            final(self)@.lead() == old(self)@.lead(),
            final(self)@ == old(self)@.nop(),
            final(self).cycle == old(self).cycle + 4,
    {
        proof {
            reveal(CpuState::nop);
        }
        self.handle_cycles(4);
    }

    /// STOP.
    pub fn stop(&mut self)
        requires
            old(self).wf(),
            old(self).can_charge(4),
        ensures
            final(self).wf(),
            final(self)@.lead() == old(self)@.lead(),
            final(self)@ == old(self)@.stop(),
            final(self).cycle == old(self).cycle + 4,
    {
        proof {
            reveal(CpuState::stop);
        }
        self.stopped = true;
        self.handle_cycles(4);
    }

    /// LD r, r'.
    pub fn ld_8_8(&mut self, dest: Register, src: Register)
        requires
            old(self).wf(),
            old(self).can_charge(4),
        ensures
            final(self).wf(),
            final(self)@.lead() == old(self)@.lead(),
            final(self)@ == old(self)@.ld_8_8(dest, src),
            final(self).cycle == old(self).cycle + 4,
    {
        proof {
            reveal(CpuState::ld_8_8);
        }
        let value = self.registers.get_register8(src);
        self.registers.set_register8(dest, value);
        self.handle_cycles(4);
    }

    /// LD r, n.
    pub fn ld_8_imm1(&mut self, dest: Register)
        requires
            old(self).wf(),
            old(self).can_charge(8),
        ensures
            final(self).wf(),
            final(self)@.lead() == old(self)@.lead(),
            final(self)@ == old(self)@.ld_8_imm1(dest),
            final(self).cycle == old(self).cycle + 8,
    {
        proof {
            reveal(CpuState::ld_8_imm1);
        }
        let next_byte = self.fetch_opcode();
        self.registers.set_register8(dest, next_byte);
        self.handle_cycles(8);
    }

    /// LD rr, nn.
    pub fn ld_16_imm2(&mut self, dest: Register)
        requires
            old(self).wf(),
            old(self).can_charge(12),
        ensures
            final(self).wf(),
            final(self)@.lead() == old(self)@.lead(),
            final(self)@ == old(self)@.ld_16_imm2(dest),
            final(self).cycle == old(self).cycle + 12,
    {
        proof {
            reveal(CpuState::ld_16_imm2);
        }
        let word = self.fetch_word();
        self.registers.set_register16(dest, word);
        self.handle_cycles(12);
    }

    /// LD (rr), r.
    pub fn ld_mem16_8(&mut self, reg16: Register, src: Register)
        requires
            old(self).wf(),
            old(self).can_charge(8),
        ensures
            final(self).wf(),
            final(self)@.lead() == old(self)@.lead(),
            final(self)@ == old(self)@.ld_mem16_8(reg16, src),
            final(self).cycle == old(self).cycle + 8,
    {
        proof {
            reveal(CpuState::ld_mem16_8);
        }
        let addr = self.registers.get_register16(reg16);
        let value = self.registers.get_register8(src);
        self.write_byte(addr, value);
        self.handle_cycles(8);
    }

    /// LD r, (rr).
    pub fn ld_8_mem16(&mut self, dest: Register, reg16: Register)
        requires
            old(self).wf(),
            old(self).can_charge(8),
        ensures
            final(self).wf(),
            final(self)@.lead() == old(self)@.lead(),
            final(self)@ == old(self)@.ld_8_mem16(dest, reg16),
            final(self).cycle == old(self).cycle + 8,
    {
        proof {
            reveal(CpuState::ld_8_mem16);
        }
        let addr = self.registers.get_register16(reg16);
        let byte = self.read_byte(addr);
        self.registers.set_register8(dest, byte);
        self.handle_cycles(8);
    }

    /// Moves `reg16` one up or one down, wrapping.
    pub fn bump_register16(&mut self, reg16: Register, increment: bool)
        ensures
            final(self)@ == old(self)@.bump16(reg16, increment),
            old(self).wf() ==> final(self).wf(),
    {
        let value = self.registers.get_register16(reg16);
        if increment {
            self.registers.set_register16(reg16, value.wrapping_add(1));
        } else {
            self.registers.set_register16(reg16, value.wrapping_sub(1));
        }
    }

    /// LD (HL+), A and LD (HL-), A.
    pub fn ld_mem16_8_inc_dec(&mut self, reg16: Register, src: Register, increment: bool)
        requires
            old(self).wf(),
            old(self).can_charge(8),
        ensures
            final(self).wf(),
            final(self)@.lead() == old(self)@.lead(),
            final(self)@ == old(self)@.ld_mem16_8_inc_dec(reg16, src, increment),
            final(self).cycle == old(self).cycle + 8,
    {
        proof {
            reveal(CpuState::ld_mem16_8_inc_dec);
        }
        let addr = self.registers.get_register16(reg16);
        let value = self.registers.get_register8(src);
        self.write_byte(addr, value);
        self.bump_register16(reg16, increment);
        self.handle_cycles(8);
    }

    /// LD A, (HL+) and LD A, (HL-).
    pub fn ld_8_mem16_inc_dec(&mut self, dest: Register, reg16: Register, increment: bool)
        requires
            old(self).wf(),
            old(self).can_charge(8),
        ensures
            final(self).wf(),
            final(self)@.lead() == old(self)@.lead(),
            final(self)@ == old(self)@.ld_8_mem16_inc_dec(dest, reg16, increment),
            final(self).cycle == old(self).cycle + 8,
    {
        proof {
            reveal(CpuState::ld_8_mem16_inc_dec);
        }
        let addr = self.registers.get_register16(reg16);
        let byte = self.read_byte(addr);
        self.registers.set_register8(dest, byte);
        self.bump_register16(reg16, increment);
        self.handle_cycles(8);
    }

    /// LD (nn), SP.
    pub fn ld_memimm2_sp(&mut self)
        requires
            old(self).wf(),
            old(self).can_charge(20),
        ensures
            final(self).wf(),
            final(self)@.lead() == old(self)@.lead(),
            final(self)@ == old(self)@.ld_memimm2_sp(),
            final(self).cycle == old(self).cycle + 20,
    {
        proof {
            reveal(CpuState::ld_memimm2_sp);
        }
        let word = self.fetch_word();
        let sp = self.registers.sp;
        proof {
            lemma_word_bits(0, 0, sp);
        }
        self.write_byte(word, (sp & 0x00FF) as u8);
        self.write_byte(word.wrapping_add(1), (sp >> 8) as u8);
        self.handle_cycles(20);
    }

    /// LD (C), A.
    pub fn ld_mem8_8(&mut self, reg8: Register, src: Register)
        requires
            old(self).wf(),
            old(self).can_charge(8),
        ensures
            final(self).wf(),
            final(self)@.lead() == old(self)@.lead(),
            final(self)@ == old(self)@.ld_mem8_8(reg8, src),
            final(self).cycle == old(self).cycle + 8,
    {
        proof {
            reveal(CpuState::ld_mem8_8);
        }
        let offset = self.registers.get_register8(reg8) as u16;
        let addr = 0xFF00 + offset;
        let value = self.registers.get_register8(src);
        self.write_byte(addr, value);
        self.handle_cycles(8);
    }

    /// LD A, (C).
    pub fn ld_8_mem8(&mut self, dest: Register, reg8: Register)
        requires
            old(self).wf(),
            old(self).can_charge(8),
        ensures
            final(self).wf(),
            final(self)@.lead() == old(self)@.lead(),
            final(self)@ == old(self)@.ld_8_mem8(dest, reg8),
            final(self).cycle == old(self).cycle + 8,
    {
        proof {
            reveal(CpuState::ld_8_mem8);
        }
        let offset = self.registers.get_register8(reg8) as u16;
        let addr = 0xFF00 + offset;
        let value = self.read_byte(addr);
        self.registers.set_register8(dest, value);
        self.handle_cycles(8);
    }

    /// LD (nn), A.
    pub fn ld_memimm2_8(&mut self, src: Register)
        requires
            old(self).wf(),
            old(self).can_charge(16),
        ensures
            final(self).wf(),
            final(self)@.lead() == old(self)@.lead(),
            final(self)@ == old(self)@.ld_memimm2_8(src),
            final(self).cycle == old(self).cycle + 16,
    {
        proof {
            reveal(CpuState::ld_memimm2_8);
        }
        let addr = self.fetch_word();
        let value = self.registers.get_register8(src);
        self.write_byte(addr, value);
        self.handle_cycles(16);
    }

    /// LD A, (nn).
    pub fn ld_8_memimm2(&mut self, dest: Register)
        requires
            old(self).wf(),
            old(self).can_charge(16),
        ensures
            final(self).wf(),
            final(self)@.lead() == old(self)@.lead(),
            final(self)@ == old(self)@.ld_8_memimm2(dest),
            final(self).cycle == old(self).cycle + 16,
    {
        proof {
            reveal(CpuState::ld_8_memimm2);
        }
        let addr = self.fetch_word();
        let value = self.read_byte(addr);
        self.registers.set_register8(dest, value);
        self.handle_cycles(16);
    }

    /// LD SP, HL.
    pub fn ld_16_16(&mut self, dest: Register, src: Register)
        requires
            old(self).wf(),
            old(self).can_charge(8),
        ensures
            final(self).wf(),
            final(self)@.lead() == old(self)@.lead(),
            final(self)@ == old(self)@.ld_16_16(dest, src),
            final(self).cycle == old(self).cycle + 8,
    {
        proof {
            reveal(CpuState::ld_16_16);
        }
        let value = self.registers.get_register16(src);
        self.registers.set_register16(dest, value);
        self.handle_cycles(8);
    }

    /// Clears Z and N and sets H and C as adding the byte `e` to the low
    /// byte of `base` does.
    pub fn update_flags_low_byte(&mut self, base: u16, e: u8)
        ensures
            final(self)@ == old(self)@.set_flags(
                false,
                false,
                add_signed16(base, e).h,
                add_signed16(base, e).c,
            ),
            old(self).wf() ==> final(self).wf(),
    {
        proof {
            lemma_word_bits(0, 0, base);
        }
        let low = (base & 0xFF) as u8;
        self.registers.set_z_flag(false);
        self.registers.set_s_flag(false);
        self.update_h_flag8(low, e, false);
        self.update_c_flag8(low, e, false);
    }

    /// LD HL, SP+e.
    pub fn ld_hl_sp_r8(&mut self)
        requires
            old(self).wf(),
            old(self).can_charge(12),
        ensures
            final(self).wf(),
            final(self)@.lead() == old(self)@.lead(),
            final(self)@ == old(self)@.ld_hl_sp_r8(),
            final(self).cycle == old(self).cycle + 12,
    {
        proof {
            reveal(CpuState::ld_hl_sp_r8);
        }
        let r8 = self.fetch_opcode();
        let sp = self.registers.sp;
        let result = add_signed(sp, r8);
        self.registers.set_hl(result);
        self.update_flags_low_byte(sp, r8);
        self.handle_cycles(12);
    }

    /// LDH (n), A.
    pub fn ldh_memimm1_8(&mut self, src: Register)
        requires
            old(self).wf(),
            old(self).can_charge(12),
        ensures
            final(self).wf(),
            final(self)@.lead() == old(self)@.lead(),
            final(self)@ == old(self)@.ldh_memimm1_8(src),
            final(self).cycle == old(self).cycle + 12,
    {
        proof {
            reveal(CpuState::ldh_memimm1_8);
        }
        let next_byte = self.fetch_opcode();
        let addr = 0xFF00 + next_byte as u16;
        let value = self.registers.get_register8(src);
        self.write_byte(addr, value);
        self.handle_cycles(12);
    }

    /// LDH A, (n).
    pub fn ldh_8_memimm1(&mut self, dest: Register)
        requires
            old(self).wf(),
            old(self).can_charge(12),
        ensures
            final(self).wf(),
            final(self)@.lead() == old(self)@.lead(),
            final(self)@ == old(self)@.ldh_8_memimm1(dest),
            final(self).cycle == old(self).cycle + 12,
    {
        proof {
            reveal(CpuState::ldh_8_memimm1);
        }
        let next_byte = self.fetch_opcode();
        let addr = 0xFF00 + next_byte as u16;
        let value = self.read_byte(addr);
        self.registers.set_register8(dest, value);
        self.handle_cycles(12);
    }

    /// LD (HL), n.
    pub fn ld_mem16_imm1(&mut self, reg16: Register)
        requires
            old(self).wf(),
            old(self).can_charge(12),
        ensures
            final(self).wf(),
            final(self)@.lead() == old(self)@.lead(),
            final(self)@ == old(self)@.ld_mem16_imm1(reg16),
            final(self).cycle == old(self).cycle + 12,
    {
        proof {
            reveal(CpuState::ld_mem16_imm1);
        }
        let next_byte = self.fetch_opcode();
        let addr = self.registers.get_register16(reg16);
        self.write_byte(addr, next_byte);
        self.handle_cycles(12);
    }

    /// INC rr.
    pub fn inc_16(&mut self, reg16: Register)
        requires
            old(self).wf(),
            old(self).can_charge(8),
        ensures
            final(self).wf(),
            final(self)@.lead() == old(self)@.lead(),
            final(self)@ == old(self)@.inc_16(reg16),
            final(self).cycle == old(self).cycle + 8,
    {
        proof {
            reveal(CpuState::inc_16);
        }
        self.bump_register16(reg16, true);
        self.handle_cycles(8);
    }

    /// Adds one to `value` and sets Z, N and H; C is kept.
    pub fn increment(&mut self, value: u8) -> (result: u8)
        ensures
            result == inc8(value, old(self).registers.c_flag()).value,
            final(self)@ == old(self)@.set_flags_of(inc8(value, old(self).registers.c_flag())),
            old(self).wf() ==> final(self).wf(),
    {
        let result = value.wrapping_add(1);
        self.update_z_flag(result);
        self.registers.set_s_flag(false);
        self.update_h_flag8(value, 1, false);
        result
    }

    /// Takes one from `value` and sets Z, N and H; C is kept.
    pub fn decrement(&mut self, value: u8) -> (result: u8)
        ensures
            result == dec8(value, old(self).registers.c_flag()).value,
            final(self)@ == old(self)@.set_flags_of(dec8(value, old(self).registers.c_flag())),
            old(self).wf() ==> final(self).wf(),
    {
        let result = value.wrapping_sub(1);
        self.update_z_flag(result);
        self.registers.set_s_flag(true);
        self.update_h_flag8(value, 1, true);
        result
    }

    /// INC r.
    pub fn inc_8(&mut self, reg8: Register)
        requires
            old(self).wf(),
            old(self).can_charge(4),
        ensures
            final(self).wf(),
            final(self)@.lead() == old(self)@.lead(),
            final(self)@ == old(self)@.inc_8(reg8),
            final(self).cycle == old(self).cycle + 4,
    {
        proof {
            reveal(CpuState::inc_8);
        }
        let reg8_value = self.registers.get_register8(reg8);
        let result = self.increment(reg8_value);
        self.registers.set_register8(reg8, result);
        self.handle_cycles(4);
    }

    /// INC (HL).
    pub fn inc_mem16(&mut self, reg16: Register)
        requires
            old(self).wf(),
            old(self).can_charge(12),
        ensures
            final(self).wf(),
            final(self)@.lead() == old(self)@.lead(),
            final(self)@ == old(self)@.inc_mem16(reg16),
            final(self).cycle == old(self).cycle + 12,
    {
        proof {
            reveal(CpuState::inc_mem16);
        }
        let addr = self.registers.get_register16(reg16);
        let value = self.read_byte(addr);
        let result = self.increment(value);
        self.write_byte(addr, result);
        self.handle_cycles(12);
    }

    /// DEC rr.
    pub fn dec_16(&mut self, reg16: Register)
        requires
            old(self).wf(),
            old(self).can_charge(8),
        ensures
            final(self).wf(),
            final(self)@.lead() == old(self)@.lead(),
            final(self)@ == old(self)@.dec_16(reg16),
            final(self).cycle == old(self).cycle + 8,
    {
        proof {
            reveal(CpuState::dec_16);
        }
        self.bump_register16(reg16, false);
        self.handle_cycles(8);
    }

    /// DEC r.
    pub fn dec_8(&mut self, reg8: Register)
        requires
            old(self).wf(),
            old(self).can_charge(4),
        ensures
            final(self).wf(),
            final(self)@.lead() == old(self)@.lead(),
            final(self)@ == old(self)@.dec_8(reg8),
            final(self).cycle == old(self).cycle + 4,
    {
        proof {
            reveal(CpuState::dec_8);
        }
        let reg8_value = self.registers.get_register8(reg8);
        let result = self.decrement(reg8_value);
        self.registers.set_register8(reg8, result);
        self.handle_cycles(4);
    }

    /// DEC (HL).
    pub fn dec_mem16(&mut self, reg16: Register)
        requires
            old(self).wf(),
            old(self).can_charge(12),
        ensures
            final(self).wf(),
            final(self)@.lead() == old(self)@.lead(),
            final(self)@ == old(self)@.dec_mem16(reg16),
            final(self).cycle == old(self).cycle + 12,
    {
        proof {
            reveal(CpuState::dec_mem16);
        }
        let addr = self.registers.get_register16(reg16);
        let value = self.read_byte(addr);
        let result = self.decrement(value);
        self.write_byte(addr, result);
        self.handle_cycles(12);
    }

    /// RLCA.
    pub fn rlca(&mut self)
        requires
            old(self).wf(),
            old(self).can_charge(4),
        ensures
            final(self).wf(),
            final(self)@.lead() == old(self)@.lead(),
            final(self)@ == old(self)@.rotate_accumulator(ShiftOp::Rlc),
            final(self).cycle == old(self).cycle + 4,
    {
        proof {
            reveal(CpuState::rotate_accumulator);
        }
        let a = self.registers.a;
        let result = self.shift(ShiftOp::Rlc, a);
        self.registers.set_z_flag(false);
        self.registers.a = result;
        self.handle_cycles(4);
    }

    /// RRCA.
    pub fn rrca(&mut self)
        requires
            old(self).wf(),
            old(self).can_charge(4),
        ensures
            final(self).wf(),
            final(self)@.lead() == old(self)@.lead(),
            final(self)@ == old(self)@.rotate_accumulator(ShiftOp::Rrc),
            final(self).cycle == old(self).cycle + 4,
    {
        proof {
            reveal(CpuState::rotate_accumulator);
        }
        let a = self.registers.a;
        let result = self.shift(ShiftOp::Rrc, a);
        self.registers.set_z_flag(false);
        self.registers.a = result;
        self.handle_cycles(4);
    }

    /// RLA.
    pub fn rla(&mut self)
        requires
            old(self).wf(),
            old(self).can_charge(4),
        ensures
            final(self).wf(),
            final(self)@.lead() == old(self)@.lead(),
            final(self)@ == old(self)@.rotate_accumulator(ShiftOp::Rl),
            final(self).cycle == old(self).cycle + 4,
    {
        proof {
            reveal(CpuState::rotate_accumulator);
        }
        let a = self.registers.a;
        let result = self.shift(ShiftOp::Rl, a);
        self.registers.set_z_flag(false);
        self.registers.a = result;
        self.handle_cycles(4);
    }

    /// RRA.
    pub fn rra(&mut self)
        requires
            old(self).wf(),
            old(self).can_charge(4),
        ensures
            final(self).wf(),
            final(self)@.lead() == old(self)@.lead(),
            final(self)@ == old(self)@.rotate_accumulator(ShiftOp::Rr),
            final(self).cycle == old(self).cycle + 4,
    {
        proof {
            reveal(CpuState::rotate_accumulator);
        }
        let a = self.registers.a;
        let result = self.shift(ShiftOp::Rr, a);
        self.registers.set_z_flag(false);
        self.registers.a = result;
        self.handle_cycles(4);
    }

    /// JR NZ, e.
    pub fn jr_nz_imm1(&mut self)
        requires
            old(self).wf(),
            old(self).can_charge(12),
        ensures
            final(self).wf(),
            final(self)@.lead() == old(self)@.lead(),
            final(self)@ == old(self)@.jr_if(!old(self).registers.z_flag()),
            old(self).cycle + 8 <= final(self).cycle <= old(self).cycle + 12,
    {
        proof {
            reveal(CpuState::jr_if);
        }
        if !self.registers.get_z_flag() {
            self.jr_imm1();
        } else {
            self.fetch_opcode();
            self.handle_cycles(8);
        }
    }

    /// JR NC, e.
    pub fn jr_nc_imm1(&mut self)
        requires
            old(self).wf(),
            old(self).can_charge(12),
        ensures
            final(self).wf(),
            final(self)@.lead() == old(self)@.lead(),
            final(self)@ == old(self)@.jr_if(!old(self).registers.c_flag()),
            old(self).cycle + 8 <= final(self).cycle <= old(self).cycle + 12,
    {
        proof {
            reveal(CpuState::jr_if);
        }
        if !self.registers.get_c_flag() {
            self.jr_imm1();
        } else {
            self.fetch_opcode();
            self.handle_cycles(8);
        }
    }

    /// JR Z, e.
    pub fn jr_z_imm1(&mut self)
        requires
            old(self).wf(),
            old(self).can_charge(12),
        ensures
            final(self).wf(),
            final(self)@.lead() == old(self)@.lead(),
            final(self)@ == old(self)@.jr_if(old(self).registers.z_flag()),
            old(self).cycle + 8 <= final(self).cycle <= old(self).cycle + 12,
    {
        proof {
            reveal(CpuState::jr_if);
        }
        if self.registers.get_z_flag() {
            self.jr_imm1();
        } else {
            self.fetch_opcode();
            self.handle_cycles(8);
        }
    }

    /// JR C, e.
    pub fn jr_c_imm1(&mut self)
        requires
            old(self).wf(),
            old(self).can_charge(12),
        ensures
            final(self).wf(),
            final(self)@.lead() == old(self)@.lead(),
            final(self)@ == old(self)@.jr_if(old(self).registers.c_flag()),
            old(self).cycle + 8 <= final(self).cycle <= old(self).cycle + 12,
    {
        proof {
            reveal(CpuState::jr_if);
        }
        if self.registers.get_c_flag() {
            self.jr_imm1();
        } else {
            self.fetch_opcode();
            self.handle_cycles(8);
        }
    }

    /// JR e.
    pub fn jr_imm1(&mut self)
        requires
            old(self).wf(),
            old(self).can_charge(12),
        ensures
            final(self).wf(),
            final(self)@.lead() == old(self)@.lead(),
            final(self)@ == old(self)@.jr_if(true),
            final(self).cycle == old(self).cycle + 12,
    {
        proof {
            reveal(CpuState::jr_if);
        }
        let offset = self.fetch_opcode();
        self.registers.pc = add_signed(self.registers.pc, offset);
        self.handle_cycles(12);
    }

    /// The decimal adjustment of `a` and the carry that it leaves.
    pub fn decimal_adjust(a: u8, subtraction: bool, half: bool, carry: bool) -> (r: (u8, bool))
        ensures
            r.0 == daa8(a, subtraction, half, carry).value,
            r.1 == daa8(a, subtraction, half, carry).c,
    {
        proof {
            lemma_nibble_bits(a);
        }
        let mut adjust: u8 = 0;
        if !subtraction {
            let high = carry || a > 0x99;
            if half || (a & 0x0F) > 0x09 {
                adjust = adjust + 0x06;
            }
            if high {
                adjust = adjust + 0x60;
            }
            (a.wrapping_add(adjust), high)
        } else {
            if half {
                adjust = adjust + 0x06;
            }
            if carry {
                adjust = adjust + 0x60;
            }
            (a.wrapping_sub(adjust), carry)
        }
    }

    /// DAA.
    pub fn daa(&mut self)
        requires
            old(self).wf(),
            old(self).can_charge(4),
        ensures
            final(self).wf(),
            final(self)@.lead() == old(self)@.lead(),
            final(self)@ == old(self)@.daa(),
            final(self).cycle == old(self).cycle + 4,
    {
        proof {
            reveal(CpuState::daa);
        }
        let subtraction = self.registers.get_s_flag();
        let half = self.registers.get_h_flag();
        let carry = self.registers.get_c_flag();
        let (result, carry_out) = Self::decimal_adjust(self.registers.a, subtraction, half, carry);
        self.update_z_flag(result);
        self.registers.set_h_flag(false);
        self.registers.set_c_flag(carry_out);
        self.registers.a = result;
        self.handle_cycles(4);
    }

    /// SCF.
    pub fn scf(&mut self)
        requires
            old(self).wf(),
            old(self).can_charge(4),
        ensures
            final(self).wf(),
            final(self)@.lead() == old(self)@.lead(),
            final(self)@ == old(self)@.scf(),
            final(self).cycle == old(self).cycle + 4,
    {
        proof {
            reveal(CpuState::scf);
        }
        self.registers.set_c_flag(true);
        self.registers.set_s_flag(false);
        self.registers.set_h_flag(false);
        self.handle_cycles(4);
    }

    /// HALT.
    pub fn halt(&mut self)
        requires
            old(self).wf(),
            old(self).can_charge(4),
        ensures
            final(self).wf(),
            final(self)@.lead() == old(self)@.lead(),
            final(self)@ == old(self)@.halt(),
            final(self).cycle == old(self).cycle + 4,
    {
        proof {
            reveal(CpuState::halt);
        }
        self.halted = true;
        self.handle_cycles(4);
    }

    /// CPL.
    pub fn cpl(&mut self)
        requires
            old(self).wf(),
            old(self).can_charge(4),
        ensures
            final(self).wf(),
            final(self)@.lead() == old(self)@.lead(),
            final(self)@ == old(self)@.cpl(),
            final(self).cycle == old(self).cycle + 4,
    {
        proof {
            reveal(CpuState::cpl);
        }
        proof {
            lemma_nibble_bits(self.registers.a);
        }
        self.registers.a = !self.registers.a;
        self.registers.set_s_flag(true);
        self.registers.set_h_flag(true);
        self.handle_cycles(4);
    }

    /// CCF.
    pub fn ccf(&mut self)
        requires
            old(self).wf(),
            old(self).can_charge(4),
        ensures
            final(self).wf(),
            final(self)@.lead() == old(self)@.lead(),
            final(self)@ == old(self)@.ccf(),
            final(self).cycle == old(self).cycle + 4,
    {
        proof {
            reveal(CpuState::ccf);
        }
        let carry = self.registers.get_c_flag();
        self.registers.set_c_flag(!carry);
        self.registers.set_s_flag(false);
        self.registers.set_h_flag(false);
        self.handle_cycles(4);
    }

    /// Adds two words and sets N, H and C; Z is kept.
    pub fn add_words(&mut self, x: u16, y: u16) -> (result: u16)
        ensures
            result == add16(x, y).value,
            final(self)@ == old(self)@.set_flags(
                old(self).registers.z_flag(),
                false,
                add16(x, y).h,
                add16(x, y).c,
            ),
            old(self).wf() ==> final(self).wf(),
    {
        let result = x.wrapping_add(y);
        self.registers.set_s_flag(false);
        self.update_c_flag16(x, y, false);
        self.update_h_flag16(x, y, false);
        result
    }

    /// ADD HL, rr.
    pub fn add_16_16(&mut self, dest: Register, src: Register)
        requires
            old(self).wf(),
            old(self).can_charge(8),
        ensures
            final(self).wf(),
            final(self)@.lead() == old(self)@.lead(),
            final(self)@ == old(self)@.add_16_16(dest, src),
            final(self).cycle == old(self).cycle + 8,
    {
        proof {
            reveal(CpuState::add_16_16);
        }
        let reg1 = self.registers.get_register16(dest);
        let reg2 = self.registers.get_register16(src);
        let result = self.add_words(reg1, reg2);
        self.registers.set_register16(dest, result);
        self.handle_cycles(8);
    }

    /// ADD A, r.
    pub fn add_8_8(&mut self, dest: Register, src: Register)
        requires
            old(self).wf(),
            old(self).can_charge(4),
        ensures
            final(self).wf(),
            final(self)@.lead() == old(self)@.lead(),
            final(self)@ == old(self)@.alu_8_8(AluOp::Add, dest, src),
            final(self).cycle == old(self).cycle + 4,
    {
        proof {
            reveal(CpuState::alu_8_8);
        }
        let reg = self.registers.get_register8(dest);
        let operand = self.registers.get_register8(src);
        let result = self.add(reg, operand);
        self.registers.set_register8(dest, result);
        self.handle_cycles(4);
    }

    /// SUB A, r.
    pub fn sub_8_8(&mut self, dest: Register, src: Register)
        requires
            old(self).wf(),
            old(self).can_charge(4),
        ensures
            final(self).wf(),
            final(self)@.lead() == old(self)@.lead(),
            final(self)@ == old(self)@.alu_8_8(AluOp::Sub, dest, src),
            final(self).cycle == old(self).cycle + 4,
    {
        proof {
            reveal(CpuState::alu_8_8);
        }
        let reg = self.registers.get_register8(dest);
        let operand = self.registers.get_register8(src);
        let result = self.sub(reg, operand);
        self.registers.set_register8(dest, result);
        self.handle_cycles(4);
    }

    /// AND A, r.
    pub fn and_8_8(&mut self, dest: Register, src: Register)
        requires
            old(self).wf(),
            old(self).can_charge(4),
        ensures
            final(self).wf(),
            final(self)@.lead() == old(self)@.lead(),
            final(self)@ == old(self)@.alu_8_8(AluOp::And, dest, src),
            final(self).cycle == old(self).cycle + 4,
    {
        proof {
            reveal(CpuState::alu_8_8);
        }
        let reg = self.registers.get_register8(dest);
        let operand = self.registers.get_register8(src);
        let result = self.and(reg, operand);
        self.registers.set_register8(dest, result);
        self.handle_cycles(4);
    }

    /// OR A, r.
    pub fn or_8_8(&mut self, dest: Register, src: Register)
        requires
            old(self).wf(),
            old(self).can_charge(4),
        ensures
            final(self).wf(),
            final(self)@.lead() == old(self)@.lead(),
            final(self)@ == old(self)@.alu_8_8(AluOp::Or, dest, src),
            final(self).cycle == old(self).cycle + 4,
    {
        proof {
            reveal(CpuState::alu_8_8);
        }
        let reg = self.registers.get_register8(dest);
        let operand = self.registers.get_register8(src);
        let result = self.or(reg, operand);
        self.registers.set_register8(dest, result);
        self.handle_cycles(4);
    }

    /// ADD A, (HL).
    pub fn add_8_mem16(&mut self, dest: Register, reg16: Register)
        requires
            old(self).wf(),
            old(self).can_charge(8),
        ensures
            final(self).wf(),
            final(self)@.lead() == old(self)@.lead(),
            final(self)@ == old(self)@.alu_8_mem16(AluOp::Add, dest, reg16),
            final(self).cycle == old(self).cycle + 8,
    {
        proof {
            reveal(CpuState::alu_8_mem16);
        }
        let reg = self.registers.get_register8(dest);
        let addr = self.registers.get_register16(reg16);
        let operand = self.read_byte(addr);
        let result = self.add(reg, operand);
        self.registers.set_register8(dest, result);
        self.handle_cycles(8);
    }

    /// SUB A, (HL).
    pub fn sub_8_mem16(&mut self, dest: Register, reg16: Register)
        requires
            old(self).wf(),
            old(self).can_charge(8),
        ensures
            final(self).wf(),
            final(self)@.lead() == old(self)@.lead(),
            final(self)@ == old(self)@.alu_8_mem16(AluOp::Sub, dest, reg16),
            final(self).cycle == old(self).cycle + 8,
    {
        proof {
            reveal(CpuState::alu_8_mem16);
        }
        let reg = self.registers.get_register8(dest);
        let addr = self.registers.get_register16(reg16);
        let operand = self.read_byte(addr);
        let result = self.sub(reg, operand);
        self.registers.set_register8(dest, result);
        self.handle_cycles(8);
    }

    /// AND A, (HL).
    pub fn and_8_mem16(&mut self, dest: Register, reg16: Register)
        requires
            old(self).wf(),
            old(self).can_charge(8),
        ensures
            final(self).wf(),
            final(self)@.lead() == old(self)@.lead(),
            final(self)@ == old(self)@.alu_8_mem16(AluOp::And, dest, reg16),
            final(self).cycle == old(self).cycle + 8,
    {
        proof {
            reveal(CpuState::alu_8_mem16);
        }
        let reg = self.registers.get_register8(dest);
        let addr = self.registers.get_register16(reg16);
        let operand = self.read_byte(addr);
        let result = self.and(reg, operand);
        self.registers.set_register8(dest, result);
        self.handle_cycles(8);
    }

    /// OR A, (HL).
    pub fn or_8_mem16(&mut self, dest: Register, reg16: Register)
        requires
            old(self).wf(),
            old(self).can_charge(8),
        ensures
            final(self).wf(),
            final(self)@.lead() == old(self)@.lead(),
            final(self)@ == old(self)@.alu_8_mem16(AluOp::Or, dest, reg16),
            final(self).cycle == old(self).cycle + 8,
    {
        proof {
            reveal(CpuState::alu_8_mem16);
        }
        let reg = self.registers.get_register8(dest);
        let addr = self.registers.get_register16(reg16);
        let operand = self.read_byte(addr);
        let result = self.or(reg, operand);
        self.registers.set_register8(dest, result);
        self.handle_cycles(8);
    }

    /// ADD A, n.
    pub fn add_8_imm1(&mut self, dest: Register)
        requires
            old(self).wf(),
            old(self).can_charge(8),
        ensures
            final(self).wf(),
            final(self)@.lead() == old(self)@.lead(),
            final(self)@ == old(self)@.alu_8_imm1(AluOp::Add, dest),
            final(self).cycle == old(self).cycle + 8,
    {
        proof {
            reveal(CpuState::alu_8_imm1);
        }
        let reg = self.registers.get_register8(dest);
        let operand = self.fetch_opcode();
        let result = self.add(reg, operand);
        self.registers.set_register8(dest, result);
        self.handle_cycles(8);
    }

    /// SUB A, n.
    pub fn sub_8_imm1(&mut self, dest: Register)
        requires
            old(self).wf(),
            old(self).can_charge(8),
        ensures
            final(self).wf(),
            final(self)@.lead() == old(self)@.lead(),
            final(self)@ == old(self)@.alu_8_imm1(AluOp::Sub, dest),
            final(self).cycle == old(self).cycle + 8,
    {
        proof {
            reveal(CpuState::alu_8_imm1);
        }
        let reg = self.registers.get_register8(dest);
        let operand = self.fetch_opcode();
        let result = self.sub(reg, operand);
        self.registers.set_register8(dest, result);
        self.handle_cycles(8);
    }

    /// AND A, n.
    pub fn and_8_imm1(&mut self, dest: Register)
        requires
            old(self).wf(),
            old(self).can_charge(8),
        ensures
            final(self).wf(),
            final(self)@.lead() == old(self)@.lead(),
            final(self)@ == old(self)@.alu_8_imm1(AluOp::And, dest),
            final(self).cycle == old(self).cycle + 8,
    {
        proof {
            reveal(CpuState::alu_8_imm1);
        }
        let reg = self.registers.get_register8(dest);
        let operand = self.fetch_opcode();
        let result = self.and(reg, operand);
        self.registers.set_register8(dest, result);
        self.handle_cycles(8);
    }

    /// OR A, n.
    pub fn or_8_imm1(&mut self, dest: Register)
        requires
            old(self).wf(),
            old(self).can_charge(8),
        ensures
            final(self).wf(),
            final(self)@.lead() == old(self)@.lead(),
            final(self)@ == old(self)@.alu_8_imm1(AluOp::Or, dest),
            final(self).cycle == old(self).cycle + 8,
    {
        proof {
            reveal(CpuState::alu_8_imm1);
        }
        let reg = self.registers.get_register8(dest);
        let operand = self.fetch_opcode();
        let result = self.or(reg, operand);
        self.registers.set_register8(dest, result);
        self.handle_cycles(8);
    }

    /// ADC A, r.
    pub fn adc_8_8(&mut self, dest: Register, src: Register)
        requires
            old(self).wf(),
            old(self).can_charge(4),
        ensures
            final(self).wf(),
            final(self)@.lead() == old(self)@.lead(),
            final(self)@ == old(self)@.alu_8_8(AluOp::Adc, dest, src),
            final(self).cycle == old(self).cycle + 4,
    {
        proof {
            reveal(CpuState::alu_8_8);
        }
        let reg = self.registers.get_register8(dest);
        let operand = self.registers.get_register8(src);
        let result = self.adc(reg, operand);
        self.registers.set_register8(dest, result);
        self.handle_cycles(4);
    }

    /// SBC A, r.
    pub fn sbc_8_8(&mut self, dest: Register, src: Register)
        requires
            old(self).wf(),
            old(self).can_charge(4),
        ensures
            final(self).wf(),
            final(self)@.lead() == old(self)@.lead(),
            final(self)@ == old(self)@.alu_8_8(AluOp::Sbc, dest, src),
            final(self).cycle == old(self).cycle + 4,
    {
        proof {
            reveal(CpuState::alu_8_8);
        }
        let reg = self.registers.get_register8(dest);
        let operand = self.registers.get_register8(src);
        let result = self.sbc(reg, operand);
        self.registers.set_register8(dest, result);
        self.handle_cycles(4);
    }

    /// XOR A, r.
    pub fn xor_8_8(&mut self, dest: Register, src: Register)
        requires
            old(self).wf(),
            old(self).can_charge(4),
        ensures
            final(self).wf(),
            final(self)@.lead() == old(self)@.lead(),
            final(self)@ == old(self)@.alu_8_8(AluOp::Xor, dest, src),
            final(self).cycle == old(self).cycle + 4,
    {
        proof {
            reveal(CpuState::alu_8_8);
        }
        let reg = self.registers.get_register8(dest);
        let operand = self.registers.get_register8(src);
        let result = self.xor(reg, operand);
        self.registers.set_register8(dest, result);
        self.handle_cycles(4);
    }

    /// CP A, r.
    pub fn cp_8_8(&mut self, dest: Register, src: Register)
        requires
            old(self).wf(),
            old(self).can_charge(4),
        ensures
            final(self).wf(),
            final(self)@.lead() == old(self)@.lead(),
            final(self)@ == old(self)@.alu_8_8(AluOp::Cp, dest, src),
            final(self).cycle == old(self).cycle + 4,
    {
        proof {
            reveal(CpuState::alu_8_8);
        }
        let reg = self.registers.get_register8(dest);
        let operand = self.registers.get_register8(src);
        self.cp(reg, operand);
        self.handle_cycles(4);
    }

    /// ADC A, (HL).
    pub fn adc_8_mem16(&mut self, dest: Register, reg16: Register)
        requires
            old(self).wf(),
            old(self).can_charge(8),
        ensures
            final(self).wf(),
            final(self)@.lead() == old(self)@.lead(),
            final(self)@ == old(self)@.alu_8_mem16(AluOp::Adc, dest, reg16),
            final(self).cycle == old(self).cycle + 8,
    {
        proof {
            reveal(CpuState::alu_8_mem16);
        }
        let reg = self.registers.get_register8(dest);
        let addr = self.registers.get_register16(reg16);
        let operand = self.read_byte(addr);
        let result = self.adc(reg, operand);
        self.registers.set_register8(dest, result);
        self.handle_cycles(8);
    }

    /// SBC A, (HL).
    pub fn sbc_8_mem16(&mut self, dest: Register, reg16: Register)
        requires
            old(self).wf(),
            old(self).can_charge(8),
        ensures
            final(self).wf(),
            final(self)@.lead() == old(self)@.lead(),
            final(self)@ == old(self)@.alu_8_mem16(AluOp::Sbc, dest, reg16),
            final(self).cycle == old(self).cycle + 8,
    {
        proof {
            reveal(CpuState::alu_8_mem16);
        }
        let reg = self.registers.get_register8(dest);
        let addr = self.registers.get_register16(reg16);
        let operand = self.read_byte(addr);
        let result = self.sbc(reg, operand);
        self.registers.set_register8(dest, result);
        self.handle_cycles(8);
    }

    /// XOR A, (HL).
    pub fn xor_8_mem16(&mut self, dest: Register, reg16: Register)
        requires
            old(self).wf(),
            old(self).can_charge(8),
        ensures
            final(self).wf(),
            final(self)@.lead() == old(self)@.lead(),
            final(self)@ == old(self)@.alu_8_mem16(AluOp::Xor, dest, reg16),
            final(self).cycle == old(self).cycle + 8,
    {
        proof {
            reveal(CpuState::alu_8_mem16);
        }
        let reg = self.registers.get_register8(dest);
        let addr = self.registers.get_register16(reg16);
        let operand = self.read_byte(addr);
        let result = self.xor(reg, operand);
        self.registers.set_register8(dest, result);
        self.handle_cycles(8);
    }

    /// CP A, (HL).
    pub fn cp_8_mem16(&mut self, dest: Register, reg16: Register)
        requires
            old(self).wf(),
            old(self).can_charge(8),
        ensures
            final(self).wf(),
            final(self)@.lead() == old(self)@.lead(),
            final(self)@ == old(self)@.alu_8_mem16(AluOp::Cp, dest, reg16),
            final(self).cycle == old(self).cycle + 8,
    {
        proof {
            reveal(CpuState::alu_8_mem16);
        }
        let reg = self.registers.get_register8(dest);
        let addr = self.registers.get_register16(reg16);
        let operand = self.read_byte(addr);
        self.cp(reg, operand);
        self.handle_cycles(8);
    }

    /// ADC A, n.
    pub fn adc_8_imm1(&mut self, dest: Register)
        requires
            old(self).wf(),
            old(self).can_charge(8),
        ensures
            final(self).wf(),
            final(self)@.lead() == old(self)@.lead(),
            final(self)@ == old(self)@.alu_8_imm1(AluOp::Adc, dest),
            final(self).cycle == old(self).cycle + 8,
    {
        proof {
            reveal(CpuState::alu_8_imm1);
        }
        let reg = self.registers.get_register8(dest);
        let operand = self.fetch_opcode();
        let result = self.adc(reg, operand);
        self.registers.set_register8(dest, result);
        self.handle_cycles(8);
    }

    /// SBC A, n.
    pub fn sbc_8_imm1(&mut self, dest: Register)
        requires
            old(self).wf(),
            old(self).can_charge(8),
        ensures
            final(self).wf(),
            final(self)@.lead() == old(self)@.lead(),
            final(self)@ == old(self)@.alu_8_imm1(AluOp::Sbc, dest),
            final(self).cycle == old(self).cycle + 8,
    {
        proof {
            reveal(CpuState::alu_8_imm1);
        }
        let reg = self.registers.get_register8(dest);
        let operand = self.fetch_opcode();
        let result = self.sbc(reg, operand);
        self.registers.set_register8(dest, result);
        self.handle_cycles(8);
    }

    /// XOR A, n.
    pub fn xor_8_imm1(&mut self, dest: Register)
        requires
            old(self).wf(),
            old(self).can_charge(8),
        ensures
            final(self).wf(),
            final(self)@.lead() == old(self)@.lead(),
            final(self)@ == old(self)@.alu_8_imm1(AluOp::Xor, dest),
            final(self).cycle == old(self).cycle + 8,
    {
        proof {
            reveal(CpuState::alu_8_imm1);
        }
        let reg = self.registers.get_register8(dest);
        let operand = self.fetch_opcode();
        let result = self.xor(reg, operand);
        self.registers.set_register8(dest, result);
        self.handle_cycles(8);
    }

    /// CP A, n.
    pub fn cp_8_imm1(&mut self, dest: Register)
        requires
            old(self).wf(),
            old(self).can_charge(8),
        ensures
            final(self).wf(),
            final(self)@.lead() == old(self)@.lead(),
            final(self)@ == old(self)@.alu_8_imm1(AluOp::Cp, dest),
            final(self).cycle == old(self).cycle + 8,
    {
        proof {
            reveal(CpuState::alu_8_imm1);
        }
        let reg = self.registers.get_register8(dest);
        let operand = self.fetch_opcode();
        self.cp(reg, operand);
        self.handle_cycles(8);
    }

    /// ADD SP, e.
    pub fn add_16_imm1(&mut self, dest: Register)
        requires
            old(self).wf(),
            old(self).can_charge(16),
        ensures
            final(self).wf(),
            final(self)@.lead() == old(self)@.lead(),
            final(self)@ == old(self)@.add_16_imm1(dest),
            final(self).cycle == old(self).cycle + 16,
    {
        proof {
            reveal(CpuState::add_16_imm1);
        }
        let reg = self.registers.get_register16(dest);
        let next_byte = self.fetch_opcode();
        let result = add_signed(reg, next_byte);
        self.update_flags_low_byte(reg, next_byte);
        self.registers.set_register16(dest, result);
        self.handle_cycles(16);
    }

    /// Pops the program counter from the stack.
    pub fn pop_pc(&mut self)
        ensures
            final(self)@ == old(self)@.return_to_caller(),
            old(self).wf() ==> final(self).wf(),
    {
        let addr = self.pop_stack();
        self.registers.pc = addr;
    }

    /// RET NZ.
    pub fn ret_nz(&mut self)
        requires
            old(self).wf(),
            old(self).can_charge(20),
        ensures
            final(self).wf(),
            final(self)@.lead() == old(self)@.lead(),
            final(self)@ == old(self)@.ret_if(!old(self).registers.z_flag()),
            old(self).cycle + 8 <= final(self).cycle <= old(self).cycle + 20,
    {
        proof {
            reveal(CpuState::ret_if);
        }
        if !self.registers.get_z_flag() {
            self.pop_pc();
            self.handle_cycles(20);
        } else {
            self.handle_cycles(8);
        }
    }

    /// RET NC.
    pub fn ret_nc(&mut self)
        requires
            old(self).wf(),
            old(self).can_charge(20),
        ensures
            final(self).wf(),
            final(self)@.lead() == old(self)@.lead(),
            final(self)@ == old(self)@.ret_if(!old(self).registers.c_flag()),
            old(self).cycle + 8 <= final(self).cycle <= old(self).cycle + 20,
    {
        proof {
            reveal(CpuState::ret_if);
        }
        if !self.registers.get_c_flag() {
            self.pop_pc();
            self.handle_cycles(20);
        } else {
            self.handle_cycles(8);
        }
    }

    /// RET Z.
    pub fn ret_z(&mut self)
        requires
            old(self).wf(),
            old(self).can_charge(20),
        ensures
            final(self).wf(),
            final(self)@.lead() == old(self)@.lead(),
            final(self)@ == old(self)@.ret_if(old(self).registers.z_flag()),
            old(self).cycle + 8 <= final(self).cycle <= old(self).cycle + 20,
    {
        proof {
            reveal(CpuState::ret_if);
        }
        if self.registers.get_z_flag() {
            self.pop_pc();
            self.handle_cycles(20);
        } else {
            self.handle_cycles(8);
        }
    }

    /// RET C.
    pub fn ret_c(&mut self)
        requires
            old(self).wf(),
            old(self).can_charge(20),
        ensures
            final(self).wf(),
            final(self)@.lead() == old(self)@.lead(),
            final(self)@ == old(self)@.ret_if(old(self).registers.c_flag()),
            old(self).cycle + 8 <= final(self).cycle <= old(self).cycle + 20,
    {
        proof {
            reveal(CpuState::ret_if);
        }
        if self.registers.get_c_flag() {
            self.pop_pc();
            self.handle_cycles(20);
        } else {
            self.handle_cycles(8);
        }
    }

    /// RET.
    pub fn ret(&mut self)
        requires
            old(self).wf(),
            old(self).can_charge(16),
        ensures
            final(self).wf(),
            final(self)@.lead() == old(self)@.lead(),
            final(self)@ == old(self)@.ret(),
            final(self).cycle == old(self).cycle + 16,
    {
        proof {
            reveal(CpuState::ret);
        }
        self.pop_pc();
        self.handle_cycles(16);
    }

    /// POP rr.
    pub fn pop_16(&mut self, reg16: Register)
        requires
            old(self).wf(),
            old(self).can_charge(12),
        ensures
            final(self).wf(),
            final(self)@.lead() == old(self)@.lead(),
            final(self)@ == old(self)@.pop_16(reg16),
            final(self).cycle == old(self).cycle + 12,
    {
        proof {
            reveal(CpuState::pop_16);
        }
        let word = self.pop_stack();
        self.registers.set_register16(reg16, word);
        self.handle_cycles(12);
    }

    /// PUSH rr.
    pub fn push_16(&mut self, reg16: Register)
        requires
            old(self).wf(),
            old(self).can_charge(16),
        ensures
            final(self).wf(),
            final(self)@.lead() == old(self)@.lead(),
            final(self)@ == old(self)@.push_16(reg16),
            final(self).cycle == old(self).cycle + 16,
    {
        proof {
            reveal(CpuState::push_16);
        }
        let value = self.registers.get_register16(reg16);
        self.push_stack(value);
        self.handle_cycles(16);
    }

    /// JP NZ, nn.
    pub fn jp_nz_imm2(&mut self)
        requires
            old(self).wf(),
            old(self).can_charge(16),
        ensures
            final(self).wf(),
            final(self)@.lead() == old(self)@.lead(),
            final(self)@ == old(self)@.jp_if(!old(self).registers.z_flag()),
            old(self).cycle + 12 <= final(self).cycle <= old(self).cycle + 16,
    {
        proof {
            reveal(CpuState::jp_if);
        }
        if !self.registers.get_z_flag() {
            self.jp_imm2();
        } else {
            self.fetch_word();
            self.handle_cycles(12);
        }
    }

    /// JP NC, nn.
    pub fn jp_nc_imm2(&mut self)
        requires
            old(self).wf(),
            old(self).can_charge(16),
        ensures
            final(self).wf(),
            final(self)@.lead() == old(self)@.lead(),
            final(self)@ == old(self)@.jp_if(!old(self).registers.c_flag()),
            old(self).cycle + 12 <= final(self).cycle <= old(self).cycle + 16,
    {
        proof {
            reveal(CpuState::jp_if);
        }
        if !self.registers.get_c_flag() {
            self.jp_imm2();
        } else {
            self.fetch_word();
            self.handle_cycles(12);
        }
    }

    /// JP Z, nn.
    pub fn jp_z_imm2(&mut self)
        requires
            old(self).wf(),
            old(self).can_charge(16),
        ensures
            final(self).wf(),
            final(self)@.lead() == old(self)@.lead(),
            final(self)@ == old(self)@.jp_if(old(self).registers.z_flag()),
            old(self).cycle + 12 <= final(self).cycle <= old(self).cycle + 16,
    {
        proof {
            reveal(CpuState::jp_if);
        }
        if self.registers.get_z_flag() {
            self.jp_imm2();
        } else {
            self.fetch_word();
            self.handle_cycles(12);
        }
    }

    /// JP C, nn.
    pub fn jp_c_imm2(&mut self)
        requires
            old(self).wf(),
            old(self).can_charge(16),
        ensures
            final(self).wf(),
            final(self)@.lead() == old(self)@.lead(),
            final(self)@ == old(self)@.jp_if(old(self).registers.c_flag()),
            old(self).cycle + 12 <= final(self).cycle <= old(self).cycle + 16,
    {
        proof {
            reveal(CpuState::jp_if);
        }
        if self.registers.get_c_flag() {
            self.jp_imm2();
        } else {
            self.fetch_word();
            self.handle_cycles(12);
        }
    }

    /// JP nn.
    pub fn jp_imm2(&mut self)
        requires
            old(self).wf(),
            old(self).can_charge(16),
        ensures
            final(self).wf(),
            final(self)@.lead() == old(self)@.lead(),
            final(self)@ == old(self)@.jp_if(true),
            final(self).cycle == old(self).cycle + 16,
    {
        proof {
            reveal(CpuState::jp_if);
        }
        let addr = self.fetch_word();
        self.registers.pc = addr;
        self.handle_cycles(16);
    }

    /// JP HL.
    pub fn jp_mem16(&mut self, dest: Register)
        requires
            old(self).wf(),
            old(self).can_charge(4),
        ensures
            final(self).wf(),
            final(self)@.lead() == old(self)@.lead(),
            final(self)@ == old(self)@.jp_mem16(dest),
            final(self).cycle == old(self).cycle + 4,
    {
        proof {
            reveal(CpuState::jp_mem16);
        }
        let addr = self.registers.get_register16(dest);
        self.registers.pc = addr;
        self.handle_cycles(4);
    }

    /// CALL NZ, nn.
    pub fn call_nz_imm2(&mut self)
        requires
            old(self).wf(),
            old(self).can_charge(24),
        ensures
            final(self).wf(),
            final(self)@.lead() == old(self)@.lead(),
            final(self)@ == old(self)@.call_if(!old(self).registers.z_flag()),
            old(self).cycle + 12 <= final(self).cycle <= old(self).cycle + 24,
    {
        proof {
            reveal(CpuState::call_if);
        }
        if !self.registers.get_z_flag() {
            self.call_imm2();
        } else {
            self.fetch_word();
            self.handle_cycles(12);
        }
    }

    /// CALL NC, nn.
    pub fn call_nc_imm2(&mut self)
        requires
            old(self).wf(),
            old(self).can_charge(24),
        ensures
            final(self).wf(),
            final(self)@.lead() == old(self)@.lead(),
            final(self)@ == old(self)@.call_if(!old(self).registers.c_flag()),
            old(self).cycle + 12 <= final(self).cycle <= old(self).cycle + 24,
    {
        proof {
            reveal(CpuState::call_if);
        }
        if !self.registers.get_c_flag() {
            self.call_imm2();
        } else {
            self.fetch_word();
            self.handle_cycles(12);
        }
    }

    /// CALL Z, nn.
    pub fn call_z_imm2(&mut self)
        requires
            old(self).wf(),
            old(self).can_charge(24),
        ensures
            final(self).wf(),
            final(self)@.lead() == old(self)@.lead(),
            final(self)@ == old(self)@.call_if(old(self).registers.z_flag()),
            old(self).cycle + 12 <= final(self).cycle <= old(self).cycle + 24,
    {
        proof {
            reveal(CpuState::call_if);
        }
        if self.registers.get_z_flag() {
            self.call_imm2();
        } else {
            self.fetch_word();
            self.handle_cycles(12);
        }
    }

    /// CALL C, nn.
    pub fn call_c_imm2(&mut self)
        requires
            old(self).wf(),
            old(self).can_charge(24),
        ensures
            final(self).wf(),
            final(self)@.lead() == old(self)@.lead(),
            final(self)@ == old(self)@.call_if(old(self).registers.c_flag()),
            old(self).cycle + 12 <= final(self).cycle <= old(self).cycle + 24,
    {
        proof {
            reveal(CpuState::call_if);
        }
        if self.registers.get_c_flag() {
            self.call_imm2();
        } else {
            self.fetch_word();
            self.handle_cycles(12);
        }
    }

    /// CALL nn.
    pub fn call_imm2(&mut self)
        requires
            old(self).wf(),
            old(self).can_charge(24),
        ensures
            final(self).wf(),
            final(self)@.lead() == old(self)@.lead(),
            final(self)@ == old(self)@.call_if(true),
            final(self).cycle == old(self).cycle + 24,
    {
        proof {
            reveal(CpuState::call_if);
        }
        let addr = self.fetch_word();
        let pc = self.registers.pc;
        self.push_stack(pc);
        self.registers.pc = addr;
        self.handle_cycles(24);
    }

    /// RETI.
    pub fn reti(&mut self)
        requires
            old(self).wf(),
            old(self).can_charge(16),
        ensures
            final(self).wf(),
            final(self)@.lead() == old(self)@.lead(),
            final(self)@ == old(self)@.reti(),
            final(self).cycle == old(self).cycle + 16,
    {
        proof {
            reveal(CpuState::reti);
        }
        self.pop_pc();
        self.ime = true;
        self.handle_cycles(16);
    }

    /// RST n.
    pub fn rst(&mut self, target: u16)
        requires
            old(self).wf(),
            old(self).can_charge(16),
        ensures
            final(self).wf(),
            final(self)@.lead() == old(self)@.lead(),
            final(self)@ == old(self)@.rst(target),
            final(self).cycle == old(self).cycle + 16,
    {
        proof {
            reveal(CpuState::rst);
        }
        let pc = self.registers.pc;
        self.push_stack(pc);
        self.registers.pc = target;
        self.handle_cycles(16);
    }

    /// DI.
    pub fn di(&mut self)
        requires
            old(self).wf(),
            old(self).can_charge(4),
        ensures
            final(self).wf(),
            final(self)@.lead() == old(self)@.lead(),
            final(self)@ == old(self)@.di(),
            final(self).cycle == old(self).cycle + 4,
    {
        proof {
            reveal(CpuState::di);
        }
        self.ime = false;
        self.handle_cycles(4);
    }

    /// EI. The interrupt master enable is set at once, not after the next
    /// instruction.
    pub fn ei(&mut self)
        requires
            old(self).wf(),
            old(self).can_charge(4),
        ensures
            final(self).wf(),
            final(self)@.lead() == old(self)@.lead(),
            final(self)@ == old(self)@.ei(),
            final(self).cycle == old(self).cycle + 4,
    {
        proof {
            reveal(CpuState::ei);
        }
        self.ime = true;
        self.handle_cycles(4);
    }

    /// The 0xCB prefix.
    pub fn prefix_cb(&mut self)
        requires
            old(self).wf(),
            old(self).can_charge(16),
        ensures
            final(self).wf(),
            final(self)@.lead() == old(self)@.lead(),
            final(self)@ == old(self)@.prefix_cb(),
            old(self).cycle + 8 <= final(self).cycle <= old(self).cycle + 16,
    {
        proof {
            reveal(CpuState::prefix_cb);
        }
        let opcode = self.fetch_opcode();
        self.execute_cb_opcode(opcode);
        self.handle_cycles(4);
    }
}

} // verus!
