//! Pairs of instructions that undo each other.

use vstd::prelude::*;
use crate::alu::{
    inc8, lemma_inc_dec_identity, lemma_rlc_rrc_identity, lemma_swap_twice, shift8, wrap16,
    ShiftOp,
};
use crate::cpu::CpuState;
use crate::memory::{bus_reserved, IF_ADDR};
use crate::ppu::lemma_ppu_run_stores;
use crate::registers::Register;
use crate::video::{LY_ADDR, STAT_ADDR};

verus! {

/// One of the seven 8-bit registers that instructions name: all but F.
pub open spec fn is_byte_register(reg: Register) -> bool {
    reg == Register::A || reg == Register::B || reg == Register::C || reg == Register::D || reg
        == Register::E || reg == Register::H || reg == Register::L
}

/// One of the pairs and 16-bit registers that PUSH and POP can name.
pub open spec fn is_stack_register(reg: Register) -> bool {
    reg == Register::AF || reg == Register::BC || reg == Register::DE || reg == Register::HL
}

/// An address at which a pushed byte stays until it is popped: it is not in
/// the reserved hole, which drops stores, and it is none of IF, STAT and LY,
/// to which the pixel unit stores.
pub open spec fn holds_stack(addr: u16) -> bool {
    !bus_reserved(addr as int) && addr != IF_ADDR && addr != STAT_ADDR && addr != LY_ADDR
}

/// Charging clock ticks changes neither the registers nor any byte on the
/// bus other than IF, STAT and LY.
pub proof fn lemma_tick_keeps_stack(t: CpuState, cycles: u32)
    requires
        t.bus.len() == 0x10000,
    ensures
        t.tick(cycles).registers == t.registers,
        t.tick(cycles).bus.len() == 0x10000,
        forall|a: u16|
            a != IF_ADDR && a != STAT_ADDR && a != LY_ADDR ==> #[trigger] t.tick(cycles).read(a)
                == t.read(a),
{
    assert forall|a: u16| a != IF_ADDR && a != STAT_ADDR && a != LY_ADDR implies #[trigger] t.tick(
        cycles,
    ).read(a) == t.read(a) by {
        lemma_ppu_run_stores(t.ppu, t.bus, t.ppu.mode_clock + cycles, a as int);
    }
    lemma_ppu_run_stores(t.ppu, t.bus, t.ppu.mode_clock + cycles, 0);
}

/// PUSH rr followed by POP rr gives the pair its value back and leaves the
/// stack pointer where it was; for AF, the value comes back with the low
/// nibble of F at zero. This holds wherever the two bytes below the stack
/// pointer can hold the stack.
pub proof fn lemma_push_pop_restores(s: CpuState, reg: Register)
    requires
        s.bus.len() == 0x10000,
        is_stack_register(reg),
        holds_stack(wrap16(s.registers.sp - 1)),
        holds_stack(wrap16(s.registers.sp - 2)),
    ensures
        s.push_16(reg).pop_16(reg).reg16(reg) == s.reg16(reg),
        s.push_16(reg).pop_16(reg).registers == s.registers.with16(reg, s.reg16(reg)),
        s.registers.wf() ==> s.push_16(reg).pop_16(reg).registers == s.registers,
{
    reveal(CpuState::push_16);
    reveal(CpuState::pop_16);
    let pushed = s.push(s.reg16(reg));
    lemma_tick_keeps_stack(pushed, 16);
    let mid = pushed.tick(16);
    assert(mid == s.push_16(reg));
    let high_at = wrap16(s.registers.sp - 1);
    let low_at = wrap16(s.registers.sp - 2);
    assert(mid.read(low_at) == pushed.read(low_at));
    assert(mid.read(high_at) == pushed.read(high_at));
    assert(mid.registers.sp == low_at);
    assert(wrap16(low_at + 1) == high_at);
    assert(wrap16(low_at + 2) == s.registers.sp);
    assert(mid.top() == s.reg16(reg));
    let popped = mid.drop_top().set16(reg, mid.top());
    lemma_tick_keeps_stack(popped, 12);
    assert(popped.tick(12) == s.push_16(reg).pop_16(reg));
}

/// INC r followed by DEC r gives the register its value back. Z, N and H
/// then describe that value, and C is untouched by both.
pub proof fn lemma_inc_dec_restores(s: CpuState, reg: Register)
    requires
        is_byte_register(reg),
    ensures
        s.inc_8(reg).dec_8(reg).reg8(reg) == s.reg8(reg),
        s.inc_8(reg).registers.c_flag() == s.registers.c_flag(),
        s.inc_8(reg).dec_8(reg).registers.c_flag() == s.registers.c_flag(),
        s.inc_8(reg).dec_8(reg).registers.z_flag() <==> s.reg8(reg) == 0,
        s.inc_8(reg).dec_8(reg).registers.n_flag(),
        s.inc_8(reg).dec_8(reg).registers.h_flag() <==> s.reg8(reg) % 16 == 15,
{
    reveal(CpuState::inc_8);
    reveal(CpuState::dec_8);
    let x = s.reg8(reg);
    let carry = s.registers.c_flag();
    lemma_inc_dec_identity(x, carry);
    let up = inc8(x, carry);
    let mid = s.set_flags_of(up).set8(reg, up.value).tick(4);
    assert(mid == s.inc_8(reg));
    assert(mid.reg8(reg) == up.value);
    assert(mid.registers.c_flag() == carry);
}

/// CPL twice gives the accumulator back; each CPL sets N and H and leaves
/// Z and C alone.
pub proof fn lemma_cpl_twice(s: CpuState)
    ensures
        s.cpl().cpl().registers.a == s.registers.a,
        s.cpl().registers.a == 255 - s.registers.a,
        s.cpl().registers.n_flag() && s.cpl().registers.h_flag(),
        s.cpl().cpl().registers.n_flag() && s.cpl().cpl().registers.h_flag(),
        s.cpl().registers.z_flag() == s.registers.z_flag(),
        s.cpl().registers.c_flag() == s.registers.c_flag(),
{
    reveal(CpuState::cpl);
}

/// SWAP r twice gives the register its value back.
pub proof fn lemma_swap_twice_restores(s: CpuState, reg: Register)
    requires
        is_byte_register(reg),
    ensures
        s.shift_8(ShiftOp::Swap, reg).shift_8(ShiftOp::Swap, reg).reg8(reg) == s.reg8(reg),
{
    reveal(CpuState::shift_8);
    let x = s.reg8(reg);
    let first = shift8(ShiftOp::Swap, x, s.registers.c_flag());
    let mid = s.shift_8(ShiftOp::Swap, reg);
    assert(mid.reg8(reg) == first.value);
    lemma_swap_twice(x, s.registers.c_flag(), mid.registers.c_flag());
}

/// RLC r followed by RRC r gives the register its value back.
pub proof fn lemma_rlc_rrc_restores(s: CpuState, reg: Register)
    requires
        is_byte_register(reg),
    ensures
        s.shift_8(ShiftOp::Rlc, reg).shift_8(ShiftOp::Rrc, reg).reg8(reg) == s.reg8(reg),
{
    reveal(CpuState::shift_8);
    let x = s.reg8(reg);
    let first = shift8(ShiftOp::Rlc, x, s.registers.c_flag());
    let mid = s.shift_8(ShiftOp::Rlc, reg);
    assert(mid.reg8(reg) == first.value);
    lemma_rlc_rrc_identity(x, s.registers.c_flag(), mid.registers.c_flag());
}

} // verus!
