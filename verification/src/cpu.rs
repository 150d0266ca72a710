//! The processor: its state, the primitives that instructions are built
//! from, instruction dispatch, interrupt servicing and the frame loop.

use vstd::prelude::*;
use crate::alu::{add8, and8, cp8, or8, sub8, wrap16, xor8, AluOp, AluResult, ShiftOp};
use crate::bits::{
    clear_bit, high_byte, lemma_bit_masks, lemma_nibble_bits, lemma_set_clear_bit, lemma_word_bits,
    lemma_word_nibble_bits, low_byte, test_bit, word,
};
use crate::memory::{bus_reserved, bus_write, Memory, IE_ADDR, IF_ADDR};
use crate::ppu::{lemma_ppu_run_position, mode_duration, phase_start, ppu_step, PpuState, PPU};
use crate::registers::{Register, Registers};

verus! {

/// What the processor, the bus and the pixel unit hold, as plain
/// mathematical values.
pub struct CpuState {
    pub registers: Registers,
    pub bus: Seq<u8>,
    pub ppu: PpuState,
    pub stopped: bool,
    pub cycle: int,
    pub halted: bool,
    pub ime: bool,
}

impl CpuState {
    /// The processor after the boot sequence, on the given bus and pixel
    /// unit: not stopped, not halted, interrupts disabled, no cycles charged.
    pub open spec fn reset(bus: Seq<u8>, ppu: PpuState) -> CpuState {
        CpuState {
            registers: Registers::reset(),
            bus: bus,
            ppu: ppu,
            stopped: false,
            cycle: 0,
            halted: false,
            ime: false,
        }
    }

    /// The low nibble of F is zero and the pixel unit is well formed.
    pub open spec fn wf(self) -> bool {
        self.registers.wf() && self.ppu.wf() && self.cycle >= 0
    }

    /// The byte at `addr`.
    pub open spec fn read(self, addr: u16) -> u8 {
        self.bus[addr as int]
    }

    /// The state after `value` is stored at `addr`.
    pub open spec fn write(self, addr: u16, value: u8) -> CpuState {
        CpuState { bus: bus_write(self.bus, addr, value), ..self }
    }

    /// The value of an 8-bit register.
    pub open spec fn reg8(self, reg: Register) -> u8 {
        self.registers.get8(reg)
    }

    /// The value of a 16-bit register or pair.
    pub open spec fn reg16(self, reg: Register) -> u16 {
        self.registers.get16(reg)
    }

    /// The state after an 8-bit register is written.
    pub open spec fn set8(self, reg: Register, value: u8) -> CpuState {
        CpuState { registers: self.registers.with8(reg, value), ..self }
    }

    /// The state after a 16-bit register or pair is written.
    pub open spec fn set16(self, reg: Register, value: u16) -> CpuState {
        CpuState { registers: self.registers.with16(reg, value), ..self }
    }

    /// The state with the four flags replaced.
    pub open spec fn set_flags(self, z: bool, n: bool, h: bool, c: bool) -> CpuState {
        CpuState { registers: self.registers.with_flags(z, n, h, c), ..self }
    }

    /// The state with the flags of an arithmetic result.
    pub open spec fn set_flags_of(self, r: AluResult) -> CpuState {
        self.set_flags(r.z, r.n, r.h, r.c)
    }

    /// The state with the program counter at `pc`.
    pub open spec fn jump(self, pc: u16) -> CpuState {
        CpuState { registers: Registers { pc: pc, ..self.registers }, ..self }
    }

    /// The state with the program counter moved on by `n`, wrapping.
    pub open spec fn skip(self, n: int) -> CpuState {
        self.jump(wrap16(self.registers.pc + n))
    }

    /// The byte at the program counter.
    pub open spec fn imm8(self) -> u8 {
        self.read(self.registers.pc)
    }

    /// The little-endian word at the program counter.
    pub open spec fn imm16(self) -> u16 {
        word(self.read(wrap16(self.registers.pc + 1)), self.read(self.registers.pc))
    }

    /// The state after `value` is pushed: the stack pointer drops by one and
    /// takes the high byte, drops by one more and takes the low byte.
    pub open spec fn push(self, value: u16) -> CpuState {
        let high_at = wrap16(self.registers.sp - 1);
        let low_at = wrap16(self.registers.sp - 2);
        CpuState {
            registers: Registers { sp: low_at, ..self.registers },
            bus: bus_write(bus_write(self.bus, high_at, high_byte(value)), low_at, low_byte(value)),
            ..self
        }
    }

    /// The word on top of the stack: low byte at the stack pointer, high
    /// byte above it.
    pub open spec fn top(self) -> u16 {
        word(self.read(wrap16(self.registers.sp + 1)), self.read(self.registers.sp))
    }

    /// The state after the top word is dropped from the stack.
    pub open spec fn drop_top(self) -> CpuState {
        CpuState {
            registers: Registers { sp: wrap16(self.registers.sp + 2), ..self.registers },
            ..self
        }
    }

    /// How far the pixel unit's place in the frame is ahead of the cycle
    /// counter, modulo the ticks of a frame.
    pub open spec fn lead(self) -> int {
        (phase_start(self.ppu) + self.ppu.mode_clock - self.cycle) % (CYCLES_PER_FRAME as int)
    }

    /// The state after `cycles` clock ticks are charged: the cycle counter
    /// grows by them and the pixel unit runs for them.
    pub open spec fn tick(self, cycles: u32) -> CpuState {
        let r = ppu_step(self.ppu, self.bus, cycles);
        CpuState { cycle: self.cycle + cycles, ppu: r.0, bus: r.1, ..self }
    }
}

/// Charging clock ticks keeps the state well formed and keeps the pixel
/// unit in step with the cycle counter: it runs for exactly the ticks
/// charged.
pub proof fn lemma_tick_in_step(s: CpuState, cycles: u32)
    requires
        s.wf(),
    ensures
        s.tick(cycles).wf(),
        s.tick(cycles).lead() == s.lead(),
        s.tick(cycles).cycle == s.cycle + cycles,
        s.tick(cycles).ppu.mode_clock < mode_duration(s.tick(cycles).ppu.mode),
{
    lemma_ppu_run_position(s.ppu, s.bus, s.ppu.mode_clock + cycles);
    let after = s.tick(cycles);
    let place = phase_start(after.ppu) + after.ppu.mode_clock;
    let target = phase_start(s.ppu) + s.ppu.mode_clock + cycles;
    assert(place % 70224 == target % 70224);
    assert((place - (s.cycle + cycles)) % 70224 == (target - (s.cycle + cycles)) % 70224) by {
        lemma_congruent_difference(place, target, s.cycle + cycles);
    }
}

/// Two numbers that agree modulo a frame still agree once the same number
/// is taken from both.
pub proof fn lemma_congruent_difference(a: int, b: int, c: int)
    requires
        a % 70224 == b % 70224,
    ensures
        (a - c) % 70224 == (b - c) % 70224,
{
    assert(a == 70224 * (a / 70224) + a % 70224);
    assert(b == 70224 * (b / 70224) + b % 70224);
    let k = a / 70224 - b / 70224;
    assert(a - c == (b - c) + 70224 * k);
    vstd::arithmetic::div_mod::lemma_mod_multiples_vanish(k, b - c, 70224);
}

/// An opcode that names no instruction does nothing: registers, flags,
/// bus, pixel unit and cycle counter are as they were.
pub proof fn lemma_undefined_opcodes_do_nothing(s: CpuState, opcode: u8)
    requires
        is_undefined_opcode(opcode),
    ensures
        s.execute(opcode) == s,
{
}

/// Clock ticks in a frame: 154 scanlines of 456 ticks.
pub const CYCLES_PER_FRAME: u32 = 70224;

/// How many ticks are left of a frame once `cycle` have been charged.
pub open spec fn frame_remaining(cycle: int) -> nat {
    if cycle < CYCLES_PER_FRAME {
        (CYCLES_PER_FRAME - cycle) as nat
    } else {
        0
    }
}

/// Whether `opcode` is one of the eleven that name no instruction.
pub open spec fn is_undefined_opcode(opcode: u8) -> bool {
    opcode == 0xD3 || opcode == 0xDB || opcode == 0xDD || opcode == 0xE3 || opcode == 0xE4
        || opcode == 0xEB || opcode == 0xEC || opcode == 0xED || opcode == 0xF4 || opcode == 0xFC
        || opcode == 0xFD
}

/// How many addresses lie between `pc` and the start of the reserved hole
/// at 0xFEA0, counting upwards and wrapping at the top of the address space.
pub open spec fn hole_distance(pc: u16) -> nat {
    if pc <= 0xFEA0 {
        (0xFEA0 - pc) as nat
    } else {
        (0x10000 - pc + 0xFEA0) as nat
    }
}

/// The most ticks that one step can charge: an interrupt entry and a call.
pub const MAX_STEP_CYCLES: u32 = 44;

/// The index of the lowest set bit of `v`, or 8 for zero.
pub open spec fn lowest_bit(v: u8) -> u8 {
    if test_bit(v, 0) {
        0
    } else if test_bit(v, 1) {
        1
    } else if test_bit(v, 2) {
        2
    } else if test_bit(v, 3) {
        3
    } else if test_bit(v, 4) {
        4
    } else if test_bit(v, 5) {
        5
    } else if test_bit(v, 6) {
        6
    } else if test_bit(v, 7) {
        7
    } else {
        8
    }
}

/// Where the handler of interrupt `bit` starts: 0x40 for VBlank, then STAT,
/// timer, serial and joypad at steps of 8.
pub open spec fn interrupt_vector(bit: u8) -> u16 {
    (0x40 + 8 * bit) as u16
}

/// The index of the lowest set bit of `v`, or 8 for zero.
pub fn lowest_set_bit(v: u8) -> (bit: u8)
    ensures
        bit == lowest_bit(v),
        bit == 8 <==> v == 0,
{
    proof {
        lemma_bit_masks(v);
    }
    if v & 0x01 != 0 {
        0
    } else if v & 0x02 != 0 {
        1
    } else if v & 0x04 != 0 {
        2
    } else if v & 0x08 != 0 {
        3
    } else if v & 0x10 != 0 {
        4
    } else if v & 0x20 != 0 {
        5
    } else if v & 0x40 != 0 {
        6
    } else if v & 0x80 != 0 {
        7
    } else {
        8
    }
}

/// The 8-bit operand that field `i` of an opcode names: B, C, D, E, H, L,
/// the byte at (HL), A.
pub open spec fn operand_register(i: int) -> Register {
    if i == 0 {
        Register::B
    } else if i == 1 {
        Register::C
    } else if i == 2 {
        Register::D
    } else if i == 3 {
        Register::E
    } else if i == 4 {
        Register::H
    } else if i == 5 {
        Register::L
    } else if i == 6 {
        Register::HL
    } else {
        Register::A
    }
}

/// The pair that field `i` of an opcode names among BC, DE, HL and `last`,
/// which is SP for most instructions and AF for PUSH and POP.
pub open spec fn operand_pair(i: int, last: Register) -> Register {
    if i == 0 {
        Register::BC
    } else if i == 1 {
        Register::DE
    } else if i == 2 {
        Register::HL
    } else {
        last
    }
}

/// The accumulator operation that field `i` of an opcode names.
pub open spec fn operand_alu(i: int) -> AluOp {
    if i == 0 {
        AluOp::Add
    } else if i == 1 {
        AluOp::Adc
    } else if i == 2 {
        AluOp::Sub
    } else if i == 3 {
        AluOp::Sbc
    } else if i == 4 {
        AluOp::And
    } else if i == 5 {
        AluOp::Xor
    } else if i == 6 {
        AluOp::Or
    } else {
        AluOp::Cp
    }
}

/// The rotate or shift that field `i` of a prefixed opcode names.
pub open spec fn operand_shift(i: int) -> ShiftOp {
    if i == 0 {
        ShiftOp::Rlc
    } else if i == 1 {
        ShiftOp::Rrc
    } else if i == 2 {
        ShiftOp::Rl
    } else if i == 3 {
        ShiftOp::Rr
    } else if i == 4 {
        ShiftOp::Sla
    } else if i == 5 {
        ShiftOp::Sra
    } else if i == 6 {
        ShiftOp::Swap
    } else {
        ShiftOp::Srl
    }
}

impl CpuState {
    /// Whether the condition that field `i` of an opcode names holds: NZ, Z,
    /// NC, C.
    pub open spec fn condition(self, i: int) -> bool {
        if i == 0 {
            !self.registers.z_flag()
        } else if i == 1 {
            self.registers.z_flag()
        } else if i == 2 {
            !self.registers.c_flag()
        } else {
            self.registers.c_flag()
        }
    }

    /// The state after an opcode that names no instruction: the state as it
    /// was. No ticks are charged and the pixel unit does not run.
    pub open spec fn undefined(self) -> CpuState {
        self
    }

    /// Opcodes 0x00 to 0x3F, by their fields `y` (bits 5 to 3) and `z`
    /// (bits 2 to 0): relative jumps, 16-bit loads and arithmetic, indirect
    /// loads through BC, DE and HL, increments and decrements, immediate
    /// loads, and the operations on the accumulator and the flags.
    pub open spec fn execute_misc(self, y: int, z: int) -> CpuState {
        let pair = operand_pair(y / 2, Register::SP);
        let reg = operand_register(y);
        if z == 0 {
            if y == 0 {
                self.nop()
            } else if y == 1 {
                self.ld_memimm2_sp()
            } else if y == 2 {
                self.stop()
            } else if y == 3 {
                self.jr_if(true)
            } else {
                self.jr_if(self.condition(y - 4))
            }
        } else if z == 1 {
            if y % 2 == 0 {
                self.ld_16_imm2(pair)
            } else {
                self.add_16_16(Register::HL, pair)
            }
        } else if z == 2 {
            if y == 0 {
                self.ld_mem16_8(Register::BC, Register::A)
            } else if y == 1 {
                self.ld_8_mem16(Register::A, Register::BC)
            } else if y == 2 {
                self.ld_mem16_8(Register::DE, Register::A)
            } else if y == 3 {
                self.ld_8_mem16(Register::A, Register::DE)
            } else if y == 4 {
                self.ld_mem16_8_inc_dec(Register::HL, Register::A, true)
            } else if y == 5 {
                self.ld_8_mem16_inc_dec(Register::A, Register::HL, true)
            } else if y == 6 {
                self.ld_mem16_8_inc_dec(Register::HL, Register::A, false)
            } else {
                self.ld_8_mem16_inc_dec(Register::A, Register::HL, false)
            }
        } else if z == 3 {
            if y % 2 == 0 {
                self.inc_16(pair)
            } else {
                self.dec_16(pair)
            }
        } else if z == 4 {
            if y == 6 {
                self.inc_mem16(Register::HL)
            } else {
                self.inc_8(reg)
            }
        } else if z == 5 {
            if y == 6 {
                self.dec_mem16(Register::HL)
            } else {
                self.dec_8(reg)
            }
        } else if z == 6 {
            if y == 6 {
                self.ld_mem16_imm1(Register::HL)
            } else {
                self.ld_8_imm1(reg)
            }
        } else {
            if y == 0 {
                self.rotate_accumulator(ShiftOp::Rlc)
            } else if y == 1 {
                self.rotate_accumulator(ShiftOp::Rrc)
            } else if y == 2 {
                self.rotate_accumulator(ShiftOp::Rl)
            } else if y == 3 {
                self.rotate_accumulator(ShiftOp::Rr)
            } else if y == 4 {
                self.daa()
            } else if y == 5 {
                self.cpl()
            } else if y == 6 {
                self.scf()
            } else {
                self.ccf()
            }
        }
    }

    /// Opcodes 0x40 to 0x7F: loads between the operands that `y` and `z`
    /// name, with HALT in the place of a load from (HL) to (HL).
    pub open spec fn execute_load(self, y: int, z: int) -> CpuState {
        if y == 6 && z == 6 {
            self.halt()
        } else if z == 6 {
            self.ld_8_mem16(operand_register(y), Register::HL)
        } else if y == 6 {
            self.ld_mem16_8(Register::HL, operand_register(z))
        } else {
            self.ld_8_8(operand_register(y), operand_register(z))
        }
    }

    /// Opcodes 0x80 to 0xBF: the accumulator operation that `y` names, on
    /// the operand that `z` names.
    pub open spec fn execute_alu(self, y: int, z: int) -> CpuState {
        if z == 6 {
            self.alu_8_mem16(operand_alu(y), Register::A, Register::HL)
        } else {
            self.alu_8_8(operand_alu(y), Register::A, operand_register(z))
        }
    }

    /// Opcodes 0xC0 to 0xFF: returns, jumps and calls, the stack, loads
    /// through the page at 0xFF00 and through absolute addresses, the
    /// accumulator operations on an immediate, restarts, and the interrupt
    /// switch. Eleven opcodes here name no instruction.
    pub open spec fn execute_control(self, y: int, z: int) -> CpuState {
        let pair = operand_pair(y / 2, Register::AF);
        if z == 0 {
            if y < 4 {
                self.ret_if(self.condition(y))
            } else if y == 4 {
                self.ldh_memimm1_8(Register::A)
            } else if y == 5 {
                self.add_16_imm1(Register::SP)
            } else if y == 6 {
                self.ldh_8_memimm1(Register::A)
            } else {
                self.ld_hl_sp_r8()
            }
        } else if z == 1 {
            if y % 2 == 0 {
                self.pop_16(pair)
            } else if y == 1 {
                self.ret()
            } else if y == 3 {
                self.reti()
            } else if y == 5 {
                self.jp_mem16(Register::HL)
            } else {
                self.ld_16_16(Register::SP, Register::HL)
            }
        } else if z == 2 {
            if y < 4 {
                self.jp_if(self.condition(y))
            } else if y == 4 {
                self.ld_mem8_8(Register::C, Register::A)
            } else if y == 5 {
                self.ld_memimm2_8(Register::A)
            } else if y == 6 {
                self.ld_8_mem8(Register::A, Register::C)
            } else {
                self.ld_8_memimm2(Register::A)
            }
        } else if z == 3 {
            if y == 0 {
                self.jp_if(true)
            } else if y == 1 {
                self.prefix_cb()
            } else if y == 6 {
                self.di()
            } else if y == 7 {
                self.ei()
            } else {
                self.undefined()
            }
        } else if z == 4 {
            if y < 4 {
                self.call_if(self.condition(y))
            } else {
                self.undefined()
            }
        } else if z == 5 {
            if y % 2 == 0 {
                self.push_16(pair)
            } else if y == 1 {
                self.call_if(true)
            } else {
                self.undefined()
            }
        } else if z == 6 {
            self.alu_8_imm1(operand_alu(y), Register::A)
        } else {
            self.rst((y * 8) as u16)
        }
    }

    /// The state after the instruction `opcode`, whose byte has been
    /// fetched, read by its fields: bits 7 and 6 select the block, bits 5 to
    /// 3 and bits 2 to 0 the operation and its operands.
    pub open spec fn execute(self, opcode: u8) -> CpuState {
        let x = opcode / 64;
        let y = ((opcode / 8) % 8) as int;
        let z = (opcode % 8) as int;
        if x == 0 {
            self.execute_misc(y, z)
        } else if x == 1 {
            self.execute_load(y, z)
        } else if x == 2 {
            self.execute_alu(y, z)
        } else {
            self.execute_control(y, z)
        }
    }

    /// The interrupts that are both enabled in IE and requested in IF.
    pub open spec fn pending(self) -> u8 {
        self.bus[IE_ADDR as int] & self.bus[IF_ADDR as int]
    }

    /// The state after interrupts are polled, as they are before every
    /// instruction.
    ///
    /// With the master enable set and an interrupt pending, the processor
    /// wakes. The lowest pending bit is served if it is one of the five
    /// interrupt sources: its request is cleared, the master enable drops,
    /// the program counter is pushed and the source's vector entered, for
    /// 20 ticks.
    #[verifier::opaque]
    pub open spec fn handle_interrupt(self) -> CpuState {
        let requested = self.pending();
        if self.ime && requested != 0 {
            let bit = lowest_bit(requested);
            let woken = CpuState { halted: false, stopped: false, ..self };
            if bit < 5 {
                CpuState { ime: false, ..woken }.write(
                    IF_ADDR,
                    clear_bit(self.bus[IF_ADDR as int], bit),
                ).push(self.registers.pc).jump(interrupt_vector(bit)).tick(20)
            } else {
                woken
            }
        } else {
            self
        }
    }

    /// The state after the next opcode is fetched and run.
    pub open spec fn fetch_execute(self) -> CpuState {
        self.skip(1).execute(self.imm8())
    }

    /// The state after one step: interrupts are polled, then comes either an
    /// instruction or, while the processor sleeps after HALT or STOP with
    /// no interrupt pending, four idle ticks. A pending interrupt wakes the
    /// processor whether or not the master enable is set.
    pub open spec fn step(self) -> CpuState {
        let s = self.handle_interrupt();
        if s.halted || s.stopped {
            if s.pending() != 0 {
                CpuState { halted: false, stopped: false, ..s }.fetch_execute()
            } else {
                s.tick(4)
            }
        } else {
            s.fetch_execute()
        }
    }

    /// Whether the step from `self` to `next` brings the end of the frame
    /// nearer: it charged ticks, or it charged none and moved the program
    /// counter towards the reserved hole.
    pub open spec fn nearer_frame_end(self, next: CpuState) -> bool {
        next.cycle > self.cycle || (next.cycle == self.cycle && hole_distance(next.registers.pc)
            < hole_distance(self.registers.pc))
    }

    /// The state after a frame: steps are taken until the cycle counter
    /// reaches a frame's worth, which is then taken off the counter.
    ///
    /// Only an opcode that names no instruction makes a step without
    /// ticks. A run of them ends at the reserved hole at the latest, whose
    /// bytes read as RST 38h, so every step of a processor on a bus brings
    /// the end of the frame nearer.
    pub open spec fn run_frame(self) -> CpuState
        decreases frame_remaining(self.cycle), hole_distance(self.registers.pc),
    {
        if self.cycle < CYCLES_PER_FRAME {
            let next = self.step();
            if self.nearer_frame_end(next) {
                next.run_frame()
            } else {
                next
            }
        } else {
            CpuState { cycle: self.cycle - CYCLES_PER_FRAME, ..self }
        }
    }

    /// The state after the prefixed instruction `opcode`, read by its
    /// fields: bits 7 and 6 select rotate or shift, BIT, RES or SET; bits 5
    /// to 3 the operation or the bit; bits 2 to 0 the operand.
    pub open spec fn execute_cb(self, opcode: u8) -> CpuState {
        let x = opcode / 64;
        let y = (opcode / 8) % 8;
        let z = opcode % 8;
        let reg = operand_register(z as int);
        if x == 0 {
            if z == 6 {
                self.shift_mem16(operand_shift(y as int), reg)
            } else {
                self.shift_8(operand_shift(y as int), reg)
            }
        } else if x == 1 {
            if z == 6 {
                self.bit_mem16(y as u8, reg)
            } else {
                self.bit_8(y as u8, reg)
            }
        } else if x == 2 {
            if z == 6 {
                self.res_mem16(y as u8, reg)
            } else {
                self.res_8(y as u8, reg)
            }
        } else {
            if z == 6 {
                self.set_mem16(reg, y as u8)
            } else {
                self.set_8(reg, y as u8)
            }
        }
    }
}

/// The processor, with the bus and the pixel unit that it drives.
pub struct CPU {
    pub registers: Registers,
    pub memory: Memory,
    pub ppu: PPU,
    pub stopped: bool,
    /// Clock ticks charged since the last frame boundary.
    pub cycle: u32,
    pub halted: bool,
    /// Interrupt master enable.
    pub ime: bool,
}

impl View for CPU {
    type V = CpuState;

    open spec fn view(&self) -> CpuState {
        CpuState {
            registers: self.registers,
            bus: self.memory@,
            ppu: self.ppu@,
            stopped: self.stopped,
            cycle: self.cycle as int,
            halted: self.halted,
            ime: self.ime,
        }
    }
}

impl CPU {
    /// The state is one that `CpuState::wf` accepts.
    pub open spec fn wf(&self) -> bool {
        self@.wf()
    }

    /// Whether `cycles` more ticks fit in the cycle counter.
    pub open spec fn can_charge(&self, cycles: int) -> bool {
        self.cycle + cycles <= u32::MAX
    }

    /// Tells whether the processor and its pixel unit are well formed.
    pub fn is_wf(&self) -> (ok: bool)
        ensures
            ok == self.wf(),
    {
        proof {
            lemma_nibble_bits(self.registers.f);
        }
        self.registers.f & 0x0F == 0 && self.ppu.is_wf()
    }

    /// A processor in its state after the boot sequence, on the given bus
    /// and pixel unit.
    pub fn new(memory: Memory, ppu: PPU) -> (cpu: CPU)
        requires
            ppu.wf(),
        ensures
            cpu.wf(),
            cpu@ == CpuState::reset(memory@, ppu@),
    {
        CPU {
            registers: Registers::new(),
            memory,
            ppu,
            stopped: false,
            cycle: 0,
            halted: false,
            ime: false,
        }
    }

    /// Reads the byte at the program counter and moves the counter on by
    /// one, wrapping.
    pub fn fetch_opcode(&mut self) -> (opcode: u8)
        ensures
            opcode == old(self)@.imm8(),
            final(self)@ == old(self)@.skip(1),
    {
        let pc = self.registers.pc;
        let opcode = self.read_byte(pc);
        self.registers.pc = self.registers.pc.wrapping_add(1);
        opcode
    }

    /// Reads the little-endian word at the program counter and moves the
    /// counter on by two, wrapping.
    pub fn fetch_word(&mut self) -> (value: u16)
        ensures
            value == old(self)@.imm16(),
            final(self)@ == old(self)@.skip(2),
    {
        let low = self.fetch_opcode();
        let high = self.fetch_opcode();
        proof {
            lemma_word_bits(high, low, 0);
        }
        ((high as u16) << 8) | (low as u16)
    }

    /// Opcodes 0x00 to 0x3F.
    #[verifier::rlimit(50)]
    pub fn execute_misc(&mut self, opcode: u8)
        requires
            old(self).wf(),
            old(self).can_charge(24),
            0x00 <= opcode <= 0x3F,
        ensures
            final(self).wf(),
            final(self)@.lead() == old(self)@.lead(),
            final(self)@ == old(self)@.execute(opcode),
            old(self).cycle + 4 <= final(self).cycle <= old(self).cycle + 24,
    {
        match opcode {
            0x00 => self.nop(),
            0x01 => self.ld_16_imm2(Register::BC),
            0x02 => self.ld_mem16_8(Register::BC, Register::A),
            0x03 => self.inc_16(Register::BC),
            0x04 => self.inc_8(Register::B),
            0x05 => self.dec_8(Register::B),
            0x06 => self.ld_8_imm1(Register::B),
            0x07 => self.rlca(),
            0x08 => self.ld_memimm2_sp(),
            0x09 => self.add_16_16(Register::HL, Register::BC),
            0x0A => self.ld_8_mem16(Register::A, Register::BC),
            0x0B => self.dec_16(Register::BC),
            0x0C => self.inc_8(Register::C),
            0x0D => self.dec_8(Register::C),
            0x0E => self.ld_8_imm1(Register::C),
            0x0F => self.rrca(),

            0x10 => self.stop(),
            0x11 => self.ld_16_imm2(Register::DE),
            0x12 => self.ld_mem16_8(Register::DE, Register::A),
            0x13 => self.inc_16(Register::DE),
            0x14 => self.inc_8(Register::D),
            0x15 => self.dec_8(Register::D),
            0x16 => self.ld_8_imm1(Register::D),
            0x17 => self.rla(),
            0x18 => self.jr_imm1(),
            0x19 => self.add_16_16(Register::HL, Register::DE),
            0x1A => self.ld_8_mem16(Register::A, Register::DE),
            0x1B => self.dec_16(Register::DE),
            0x1C => self.inc_8(Register::E),
            0x1D => self.dec_8(Register::E),
            0x1E => self.ld_8_imm1(Register::E),
            0x1F => self.rra(),

            0x20 => self.jr_nz_imm1(),
            0x21 => self.ld_16_imm2(Register::HL),
            0x22 => self.ld_mem16_8_inc_dec(Register::HL, Register::A, true),
            0x23 => self.inc_16(Register::HL),
            0x24 => self.inc_8(Register::H),
            0x25 => self.dec_8(Register::H),
            0x26 => self.ld_8_imm1(Register::H),
            0x27 => self.daa(),
            0x28 => self.jr_z_imm1(),
            0x29 => self.add_16_16(Register::HL, Register::HL),
            0x2A => self.ld_8_mem16_inc_dec(Register::A, Register::HL, true),
            0x2B => self.dec_16(Register::HL),
            0x2C => self.inc_8(Register::L),
            0x2D => self.dec_8(Register::L),
            0x2E => self.ld_8_imm1(Register::L),
            0x2F => self.cpl(),

            0x30 => self.jr_nc_imm1(),
            0x31 => self.ld_16_imm2(Register::SP),
            0x32 => self.ld_mem16_8_inc_dec(Register::HL, Register::A, false),
            0x33 => self.inc_16(Register::SP),
            0x34 => self.inc_mem16(Register::HL),
            0x35 => self.dec_mem16(Register::HL),
            0x36 => self.ld_mem16_imm1(Register::HL),
            0x37 => self.scf(),
            0x38 => self.jr_c_imm1(),
            0x39 => self.add_16_16(Register::HL, Register::SP),
            0x3A => self.ld_8_mem16_inc_dec(Register::A, Register::HL, false),
            0x3B => self.dec_16(Register::SP),
            0x3C => self.inc_8(Register::A),
            0x3D => self.dec_8(Register::A),
            0x3E => self.ld_8_imm1(Register::A),
            0x3F => self.ccf(),
            _ => (),
        }
    }

    /// Opcodes 0x40 to 0x7F.
    #[verifier::rlimit(50)]
    pub fn execute_load(&mut self, opcode: u8)
        requires
            old(self).wf(),
            old(self).can_charge(24),
            0x40 <= opcode <= 0x7F,
        ensures
            final(self).wf(),
            final(self)@.lead() == old(self)@.lead(),
            final(self)@ == old(self)@.execute(opcode),
            old(self).cycle + 4 <= final(self).cycle <= old(self).cycle + 24,
    {
        match opcode {
            0x40 => self.ld_8_8(Register::B, Register::B),
            0x41 => self.ld_8_8(Register::B, Register::C),
            0x42 => self.ld_8_8(Register::B, Register::D),
            0x43 => self.ld_8_8(Register::B, Register::E),
            0x44 => self.ld_8_8(Register::B, Register::H),
            0x45 => self.ld_8_8(Register::B, Register::L),
            0x46 => self.ld_8_mem16(Register::B, Register::HL),
            0x47 => self.ld_8_8(Register::B, Register::A),
            0x48 => self.ld_8_8(Register::C, Register::B),
            0x49 => self.ld_8_8(Register::C, Register::C),
            0x4A => self.ld_8_8(Register::C, Register::D),
            0x4B => self.ld_8_8(Register::C, Register::E),
            0x4C => self.ld_8_8(Register::C, Register::H),
            0x4D => self.ld_8_8(Register::C, Register::L),
            0x4E => self.ld_8_mem16(Register::C, Register::HL),
            0x4F => self.ld_8_8(Register::C, Register::A),

            0x50 => self.ld_8_8(Register::D, Register::B),
            0x51 => self.ld_8_8(Register::D, Register::C),
            0x52 => self.ld_8_8(Register::D, Register::D),
            0x53 => self.ld_8_8(Register::D, Register::E),
            0x54 => self.ld_8_8(Register::D, Register::H),
            0x55 => self.ld_8_8(Register::D, Register::L),
            0x56 => self.ld_8_mem16(Register::D, Register::HL),
            0x57 => self.ld_8_8(Register::D, Register::A),
            0x58 => self.ld_8_8(Register::E, Register::B),
            0x59 => self.ld_8_8(Register::E, Register::C),
            0x5A => self.ld_8_8(Register::E, Register::D),
            0x5B => self.ld_8_8(Register::E, Register::E),
            0x5C => self.ld_8_8(Register::E, Register::H),
            0x5D => self.ld_8_8(Register::E, Register::L),
            0x5E => self.ld_8_mem16(Register::E, Register::HL),
            0x5F => self.ld_8_8(Register::E, Register::A),

            0x60 => self.ld_8_8(Register::H, Register::B),
            0x61 => self.ld_8_8(Register::H, Register::C),
            0x62 => self.ld_8_8(Register::H, Register::D),
            0x63 => self.ld_8_8(Register::H, Register::E),
            0x64 => self.ld_8_8(Register::H, Register::H),
            0x65 => self.ld_8_8(Register::H, Register::L),
            0x66 => self.ld_8_mem16(Register::H, Register::HL),
            0x67 => self.ld_8_8(Register::H, Register::A),
            0x68 => self.ld_8_8(Register::L, Register::B),
            0x69 => self.ld_8_8(Register::L, Register::C),
            0x6A => self.ld_8_8(Register::L, Register::D),
            0x6B => self.ld_8_8(Register::L, Register::E),
            0x6C => self.ld_8_8(Register::L, Register::H),
            0x6D => self.ld_8_8(Register::L, Register::L),
            0x6E => self.ld_8_mem16(Register::L, Register::HL),
            0x6F => self.ld_8_8(Register::L, Register::A),

            0x70 => self.ld_mem16_8(Register::HL, Register::B),
            0x71 => self.ld_mem16_8(Register::HL, Register::C),
            0x72 => self.ld_mem16_8(Register::HL, Register::D),
            0x73 => self.ld_mem16_8(Register::HL, Register::E),
            0x74 => self.ld_mem16_8(Register::HL, Register::H),
            0x75 => self.ld_mem16_8(Register::HL, Register::L),
            0x76 => self.halt(),
            0x77 => self.ld_mem16_8(Register::HL, Register::A),
            0x78 => self.ld_8_8(Register::A, Register::B),
            0x79 => self.ld_8_8(Register::A, Register::C),
            0x7A => self.ld_8_8(Register::A, Register::D),
            0x7B => self.ld_8_8(Register::A, Register::E),
            0x7C => self.ld_8_8(Register::A, Register::H),
            0x7D => self.ld_8_8(Register::A, Register::L),
            0x7E => self.ld_8_mem16(Register::A, Register::HL),
            0x7F => self.ld_8_8(Register::A, Register::A),
            _ => (),
        }
    }

    /// Opcodes 0x80 to 0xBF.
    #[verifier::rlimit(50)]
    pub fn execute_alu(&mut self, opcode: u8)
        requires
            old(self).wf(),
            old(self).can_charge(24),
            0x80 <= opcode <= 0xBF,
        ensures
            final(self).wf(),
            final(self)@.lead() == old(self)@.lead(),
            final(self)@ == old(self)@.execute(opcode),
            old(self).cycle + 4 <= final(self).cycle <= old(self).cycle + 24,
    {
        match opcode {
            0x80 => self.add_8_8(Register::A, Register::B),
            0x81 => self.add_8_8(Register::A, Register::C),
            0x82 => self.add_8_8(Register::A, Register::D),
            0x83 => self.add_8_8(Register::A, Register::E),
            0x84 => self.add_8_8(Register::A, Register::H),
            0x85 => self.add_8_8(Register::A, Register::L),
            0x86 => self.add_8_mem16(Register::A, Register::HL),
            0x87 => self.add_8_8(Register::A, Register::A),
            0x88 => self.adc_8_8(Register::A, Register::B),
            0x89 => self.adc_8_8(Register::A, Register::C),
            0x8A => self.adc_8_8(Register::A, Register::D),
            0x8B => self.adc_8_8(Register::A, Register::E),
            0x8C => self.adc_8_8(Register::A, Register::H),
            0x8D => self.adc_8_8(Register::A, Register::L),
            0x8E => self.adc_8_mem16(Register::A, Register::HL),
            0x8F => self.adc_8_8(Register::A, Register::A),

            0x90 => self.sub_8_8(Register::A, Register::B),
            0x91 => self.sub_8_8(Register::A, Register::C),
            0x92 => self.sub_8_8(Register::A, Register::D),
            0x93 => self.sub_8_8(Register::A, Register::E),
            0x94 => self.sub_8_8(Register::A, Register::H),
            0x95 => self.sub_8_8(Register::A, Register::L),
            0x96 => self.sub_8_mem16(Register::A, Register::HL),
            0x97 => self.sub_8_8(Register::A, Register::A),
            0x98 => self.sbc_8_8(Register::A, Register::B),
            0x99 => self.sbc_8_8(Register::A, Register::C),
            0x9A => self.sbc_8_8(Register::A, Register::D),
            0x9B => self.sbc_8_8(Register::A, Register::E),
            0x9C => self.sbc_8_8(Register::A, Register::H),
            0x9D => self.sbc_8_8(Register::A, Register::L),
            0x9E => self.sbc_8_mem16(Register::A, Register::HL),
            0x9F => self.sbc_8_8(Register::A, Register::A),

            0xA0 => self.and_8_8(Register::A, Register::B),
            0xA1 => self.and_8_8(Register::A, Register::C),
            0xA2 => self.and_8_8(Register::A, Register::D),
            0xA3 => self.and_8_8(Register::A, Register::E),
            0xA4 => self.and_8_8(Register::A, Register::H),
            0xA5 => self.and_8_8(Register::A, Register::L),
            0xA6 => self.and_8_mem16(Register::A, Register::HL),
            0xA7 => self.and_8_8(Register::A, Register::A),
            0xA8 => self.xor_8_8(Register::A, Register::B),
            0xA9 => self.xor_8_8(Register::A, Register::C),
            0xAA => self.xor_8_8(Register::A, Register::D),
            0xAB => self.xor_8_8(Register::A, Register::E),
            0xAC => self.xor_8_8(Register::A, Register::H),
            0xAD => self.xor_8_8(Register::A, Register::L),
            0xAE => self.xor_8_mem16(Register::A, Register::HL),
            0xAF => self.xor_8_8(Register::A, Register::A),

            0xB0 => self.or_8_8(Register::A, Register::B),
            0xB1 => self.or_8_8(Register::A, Register::C),
            0xB2 => self.or_8_8(Register::A, Register::D),
            0xB3 => self.or_8_8(Register::A, Register::E),
            0xB4 => self.or_8_8(Register::A, Register::H),
            0xB5 => self.or_8_8(Register::A, Register::L),
            0xB6 => self.or_8_mem16(Register::A, Register::HL),
            0xB7 => self.or_8_8(Register::A, Register::A),
            0xB8 => self.cp_8_8(Register::A, Register::B),
            0xB9 => self.cp_8_8(Register::A, Register::C),
            0xBA => self.cp_8_8(Register::A, Register::D),
            0xBB => self.cp_8_8(Register::A, Register::E),
            0xBC => self.cp_8_8(Register::A, Register::H),
            0xBD => self.cp_8_8(Register::A, Register::L),
            0xBE => self.cp_8_mem16(Register::A, Register::HL),
            0xBF => self.cp_8_8(Register::A, Register::A),
            _ => (),
        }
    }

    /// Opcodes 0xC0 to 0xFF.
    #[verifier::rlimit(50)]
    pub fn execute_control(&mut self, opcode: u8)
        requires
            old(self).wf(),
            old(self).can_charge(24),
            0xC0 <= opcode <= 0xFF,
        ensures
            final(self).wf(),
            final(self)@.lead() == old(self)@.lead(),
            final(self)@ == old(self)@.execute(opcode),
            is_undefined_opcode(opcode) ==> final(self)@ == old(self)@,
            !is_undefined_opcode(opcode) ==> old(self).cycle + 4 <= final(self).cycle,
            final(self).cycle <= old(self).cycle + 24,
    {
        match opcode {
            0xC0 => self.ret_nz(),
            0xC1 => self.pop_16(Register::BC),
            0xC2 => self.jp_nz_imm2(),
            0xC3 => self.jp_imm2(),
            0xC4 => self.call_nz_imm2(),
            0xC5 => self.push_16(Register::BC),
            0xC6 => self.add_8_imm1(Register::A),
            0xC7 => self.rst(0x00),
            0xC8 => self.ret_z(),
            0xC9 => self.ret(),
            0xCA => self.jp_z_imm2(),
            0xCB => self.prefix_cb(),
            0xCC => self.call_z_imm2(),
            0xCD => self.call_imm2(),
            0xCE => self.adc_8_imm1(Register::A),
            0xCF => self.rst(0x08),

            0xD0 => self.ret_nc(),
            0xD1 => self.pop_16(Register::DE),
            0xD2 => self.jp_nc_imm2(),
            0xD3 => (),
            0xD4 => self.call_nc_imm2(),
            0xD5 => self.push_16(Register::DE),
            0xD6 => self.sub_8_imm1(Register::A),
            0xD7 => self.rst(0x10),
            0xD8 => self.ret_c(),
            0xD9 => self.reti(),
            0xDA => self.jp_c_imm2(),
            0xDB => (),
            0xDC => self.call_c_imm2(),
            0xDD => (),
            0xDE => self.sbc_8_imm1(Register::A),
            0xDF => self.rst(0x18),

            0xE0 => self.ldh_memimm1_8(Register::A),
            0xE1 => self.pop_16(Register::HL),
            0xE2 => self.ld_mem8_8(Register::C, Register::A),
            0xE3 => (),
            0xE4 => (),
            0xE5 => self.push_16(Register::HL),
            0xE6 => self.and_8_imm1(Register::A),
            0xE7 => self.rst(0x20),
            0xE8 => self.add_16_imm1(Register::SP),
            0xE9 => self.jp_mem16(Register::HL),
            0xEA => self.ld_memimm2_8(Register::A),
            0xEB => (),
            0xEC => (),
            0xED => (),
            0xEE => self.xor_8_imm1(Register::A),
            0xEF => self.rst(0x28),

            0xF0 => self.ldh_8_memimm1(Register::A),
            0xF1 => self.pop_16(Register::AF),
            0xF2 => self.ld_8_mem8(Register::A, Register::C),
            0xF3 => self.di(),
            0xF4 => (),
            0xF5 => self.push_16(Register::AF),
            0xF6 => self.or_8_imm1(Register::A),
            0xF7 => self.rst(0x30),
            0xF8 => self.ld_hl_sp_r8(),
            0xF9 => self.ld_16_16(Register::SP, Register::HL),
            0xFA => self.ld_8_memimm2(Register::A),
            0xFB => self.ei(),
            0xFC => (),
            0xFD => (),
            0xFE => self.cp_8_imm1(Register::A),
            0xFF => self.rst(0x38),
            _ => (),
        }
    }

    /// Runs the instruction `opcode`, whose byte has been fetched. An opcode
    /// that names no instruction leaves the state as it is.
    pub fn execute_opcode(&mut self, opcode: u8)
        requires
            old(self).wf(),
            old(self).can_charge(24),
        ensures
            final(self).wf(),
            final(self)@.lead() == old(self)@.lead(),
            final(self)@ == old(self)@.execute(opcode),
            is_undefined_opcode(opcode) ==> final(self)@ == old(self)@,
            !is_undefined_opcode(opcode) ==> old(self).cycle + 4 <= final(self).cycle,
            final(self).cycle <= old(self).cycle + 24,
    {
        match opcode {
            0x00..=0x3F => self.execute_misc(opcode),
            0x40..=0x7F => self.execute_load(opcode),
            0x80..=0xBF => self.execute_alu(opcode),
            _ => self.execute_control(opcode),
        }
    }

    /// Charges one frame's worth of steps: runs until the cycle counter
    /// reaches the length of a frame and takes that length off it.
    pub fn cycle(&mut self)
        requires
            old(self).wf(),
        ensures
            final(self).wf(),
            final(self)@.lead() == old(self)@.lead(),
            final(self)@ == old(self)@.run_frame(),
            old(self).cycle < CYCLES_PER_FRAME ==> final(self).cycle < MAX_STEP_CYCLES,
            old(self).cycle >= CYCLES_PER_FRAME ==> final(self).cycle == old(self).cycle
                - CYCLES_PER_FRAME,
    {
        while self.cycle < CYCLES_PER_FRAME
            invariant
                self.wf(),
                self@.run_frame() == old(self)@.run_frame(),
                self@.lead() == old(self)@.lead(),
                old(self).cycle < CYCLES_PER_FRAME ==> self.cycle < CYCLES_PER_FRAME
                    + MAX_STEP_CYCLES,
                old(self).cycle >= CYCLES_PER_FRAME ==> self.cycle == old(self).cycle,
            decreases frame_remaining(self.cycle as int), hole_distance(self.registers.pc),
        {
            self.step();
        }
        proof {
            let place = phase_start(self@.ppu) + self@.ppu.mode_clock;
            vstd::arithmetic::div_mod::lemma_mod_multiples_vanish(
                1,
                place - self.cycle,
                70224,
            );
        }
        self.cycle -= CYCLES_PER_FRAME;
    }

    /// Takes one step: polls interrupts, then runs an instruction, or lets
    /// four idle ticks pass while the processor sleeps. The one step that
    /// charges nothing is over an opcode that names no instruction.
    pub fn step(&mut self)
        requires
            old(self).wf(),
            old(self).can_charge(44),
        ensures
            final(self).wf(),
            final(self)@.lead() == old(self)@.lead(),
            final(self)@ == old(self)@.step(),
            old(self).cycle <= final(self).cycle <= old(self).cycle + 44,
            final(self).cycle == old(self).cycle ==> is_undefined_opcode(
                old(self)@.read(old(self).registers.pc),
            ) && final(self).registers.pc == wrap16(old(self).registers.pc + 1),
            old(self)@.nearer_frame_end(final(self)@),
    {
        proof {
            let pc = old(self).registers.pc;
            if bus_reserved(pc as int) {
                assert(old(self).memory@[pc as int] == 0xFF);
            }
        }
        self.handle_interrupt();
        if self.halted || self.stopped {
            let interrupt_enable = self.read_byte(IE_ADDR);
            let interrupt_flags = self.read_byte(IF_ADDR);
            if interrupt_enable & interrupt_flags != 0 {
                self.halted = false;
                self.stopped = false;
            } else {
                self.handle_cycles(4);
                return ;
            }
        }
        let opcode = self.fetch_opcode();
        self.execute_opcode(opcode);
    }

    /// Polls interrupts, as is done before every instruction.
    pub fn handle_interrupt(&mut self)
        requires
            old(self).wf(),
            old(self).can_charge(20),
        ensures
            final(self).wf(),
            final(self)@.lead() == old(self)@.lead(),
            final(self)@ == old(self)@.handle_interrupt(),
            final(self).cycle == old(self).cycle || final(self).cycle == old(self).cycle + 20,
            final(self).cycle == old(self).cycle ==> final(self).registers == old(self).registers
                && final(self)@.bus == old(self)@.bus,
    {
        proof {
            reveal(CpuState::handle_interrupt);
        }
        if self.ime {
            let interrupt_enable = self.read_byte(IE_ADDR);
            let interrupt_flags = self.read_byte(IF_ADDR);
            let requested = interrupt_enable & interrupt_flags;
            if requested != 0 {
                self.halted = false;
                self.stopped = false;
                let interrupt_bit = lowest_set_bit(requested);
                let interrupt_vector: u16 = match interrupt_bit {
                    0 => 0x0040,
                    1 => 0x0048,
                    2 => 0x0050,
                    3 => 0x0058,
                    4 => 0x0060,
                    _ => return ,
                };
                proof {
                    lemma_set_clear_bit(interrupt_flags, interrupt_bit);
                }
                self.write_byte(IF_ADDR, interrupt_flags & !(1u8 << interrupt_bit));
                self.ime = false;
                let pc = self.registers.pc;
                self.push_stack(pc);
                self.registers.pc = interrupt_vector;
                self.handle_cycles(20);
            }
        }
    }

    /// Prefixed opcodes 0x00 to 0x3F: rotates and shifts.
    #[verifier::rlimit(50)]
    pub fn execute_cb_shift(&mut self, opcode: u8)
        requires
            old(self).wf(),
            old(self).can_charge(12),
            0x00 <= opcode <= 0x3F,
        ensures
            final(self).wf(),
            final(self)@.lead() == old(self)@.lead(),
            final(self)@ == old(self)@.execute_cb(opcode),
            old(self).cycle + 4 <= final(self).cycle <= old(self).cycle + 12,
    {
        match opcode {
            0x00 => self.rlc_8(Register::B),
            0x01 => self.rlc_8(Register::C),
            0x02 => self.rlc_8(Register::D),
            0x03 => self.rlc_8(Register::E),
            0x04 => self.rlc_8(Register::H),
            0x05 => self.rlc_8(Register::L),
            0x06 => self.rlc_mem16(Register::HL),
            0x07 => self.rlc_8(Register::A),
            0x08 => self.rrc_8(Register::B),
            0x09 => self.rrc_8(Register::C),
            0x0A => self.rrc_8(Register::D),
            0x0B => self.rrc_8(Register::E),
            0x0C => self.rrc_8(Register::H),
            0x0D => self.rrc_8(Register::L),
            0x0E => self.rrc_mem16(Register::HL),
            0x0F => self.rrc_8(Register::A),

            0x10 => self.rl_8(Register::B),
            0x11 => self.rl_8(Register::C),
            0x12 => self.rl_8(Register::D),
            0x13 => self.rl_8(Register::E),
            0x14 => self.rl_8(Register::H),
            0x15 => self.rl_8(Register::L),
            0x16 => self.rl_mem16(Register::HL),
            0x17 => self.rl_8(Register::A),
            0x18 => self.rr_8(Register::B),
            0x19 => self.rr_8(Register::C),
            0x1A => self.rr_8(Register::D),
            0x1B => self.rr_8(Register::E),
            0x1C => self.rr_8(Register::H),
            0x1D => self.rr_8(Register::L),
            0x1E => self.rr_mem16(Register::HL),
            0x1F => self.rr_8(Register::A),

            0x20 => self.sla_8(Register::B),
            0x21 => self.sla_8(Register::C),
            0x22 => self.sla_8(Register::D),
            0x23 => self.sla_8(Register::E),
            0x24 => self.sla_8(Register::H),
            0x25 => self.sla_8(Register::L),
            0x26 => self.sla_mem16(Register::HL),
            0x27 => self.sla_8(Register::A),
            0x28 => self.sra_8(Register::B),
            0x29 => self.sra_8(Register::C),
            0x2A => self.sra_8(Register::D),
            0x2B => self.sra_8(Register::E),
            0x2C => self.sra_8(Register::H),
            0x2D => self.sra_8(Register::L),
            0x2E => self.sra_mem16(Register::HL),
            0x2F => self.sra_8(Register::A),

            0x30 => self.swap_8(Register::B),
            0x31 => self.swap_8(Register::C),
            0x32 => self.swap_8(Register::D),
            0x33 => self.swap_8(Register::E),
            0x34 => self.swap_8(Register::H),
            0x35 => self.swap_8(Register::L),
            0x36 => self.swap_mem16(Register::HL),
            0x37 => self.swap_8(Register::A),
            0x38 => self.srl_8(Register::B),
            0x39 => self.srl_8(Register::C),
            0x3A => self.srl_8(Register::D),
            0x3B => self.srl_8(Register::E),
            0x3C => self.srl_8(Register::H),
            0x3D => self.srl_8(Register::L),
            0x3E => self.srl_mem16(Register::HL),
            0x3F => self.srl_8(Register::A),
            _ => (),
        }
    }

    /// Prefixed opcodes 0x40 to 0x7F: BIT.
    #[verifier::rlimit(50)]
    pub fn execute_cb_bit(&mut self, opcode: u8)
        requires
            old(self).wf(),
            old(self).can_charge(12),
            0x40 <= opcode <= 0x7F,
        ensures
            final(self).wf(),
            final(self)@.lead() == old(self)@.lead(),
            final(self)@ == old(self)@.execute_cb(opcode),
            old(self).cycle + 4 <= final(self).cycle <= old(self).cycle + 12,
    {
        match opcode {
            0x40 => self.bit_8(0, Register::B),
            0x41 => self.bit_8(0, Register::C),
            0x42 => self.bit_8(0, Register::D),
            0x43 => self.bit_8(0, Register::E),
            0x44 => self.bit_8(0, Register::H),
            0x45 => self.bit_8(0, Register::L),
            0x46 => self.bit_mem16(0, Register::HL),
            0x47 => self.bit_8(0, Register::A),
            0x48 => self.bit_8(1, Register::B),
            0x49 => self.bit_8(1, Register::C),
            0x4A => self.bit_8(1, Register::D),
            0x4B => self.bit_8(1, Register::E),
            0x4C => self.bit_8(1, Register::H),
            0x4D => self.bit_8(1, Register::L),
            0x4E => self.bit_mem16(1, Register::HL),
            0x4F => self.bit_8(1, Register::A),

            0x50 => self.bit_8(2, Register::B),
            0x51 => self.bit_8(2, Register::C),
            0x52 => self.bit_8(2, Register::D),
            0x53 => self.bit_8(2, Register::E),
            0x54 => self.bit_8(2, Register::H),
            0x55 => self.bit_8(2, Register::L),
            0x56 => self.bit_mem16(2, Register::HL),
            0x57 => self.bit_8(2, Register::A),
            0x58 => self.bit_8(3, Register::B),
            0x59 => self.bit_8(3, Register::C),
            0x5A => self.bit_8(3, Register::D),
            0x5B => self.bit_8(3, Register::E),
            0x5C => self.bit_8(3, Register::H),
            0x5D => self.bit_8(3, Register::L),
            0x5E => self.bit_mem16(3, Register::HL),
            0x5F => self.bit_8(3, Register::A),

            0x60 => self.bit_8(4, Register::B),
            0x61 => self.bit_8(4, Register::C),
            0x62 => self.bit_8(4, Register::D),
            0x63 => self.bit_8(4, Register::E),
            0x64 => self.bit_8(4, Register::H),
            0x65 => self.bit_8(4, Register::L),
            0x66 => self.bit_mem16(4, Register::HL),
            0x67 => self.bit_8(4, Register::A),
            0x68 => self.bit_8(5, Register::B),
            0x69 => self.bit_8(5, Register::C),
            0x6A => self.bit_8(5, Register::D),
            0x6B => self.bit_8(5, Register::E),
            0x6C => self.bit_8(5, Register::H),
            0x6D => self.bit_8(5, Register::L),
            0x6E => self.bit_mem16(5, Register::HL),
            0x6F => self.bit_8(5, Register::A),

            0x70 => self.bit_8(6, Register::B),
            0x71 => self.bit_8(6, Register::C),
            0x72 => self.bit_8(6, Register::D),
            0x73 => self.bit_8(6, Register::E),
            0x74 => self.bit_8(6, Register::H),
            0x75 => self.bit_8(6, Register::L),
            0x76 => self.bit_mem16(6, Register::HL),
            0x77 => self.bit_8(6, Register::A),
            0x78 => self.bit_8(7, Register::B),
            0x79 => self.bit_8(7, Register::C),
            0x7A => self.bit_8(7, Register::D),
            0x7B => self.bit_8(7, Register::E),
            0x7C => self.bit_8(7, Register::H),
            0x7D => self.bit_8(7, Register::L),
            0x7E => self.bit_mem16(7, Register::HL),
            0x7F => self.bit_8(7, Register::A),
            _ => (),
        }
    }

    /// Prefixed opcodes 0x80 to 0xBF: RES.
    #[verifier::rlimit(50)]
    pub fn execute_cb_res(&mut self, opcode: u8)
        requires
            old(self).wf(),
            old(self).can_charge(12),
            0x80 <= opcode <= 0xBF,
        ensures
            final(self).wf(),
            final(self)@.lead() == old(self)@.lead(),
            final(self)@ == old(self)@.execute_cb(opcode),
            old(self).cycle + 4 <= final(self).cycle <= old(self).cycle + 12,
    {
        match opcode {
            0x80 => self.res_8(0, Register::B),
            0x81 => self.res_8(0, Register::C),
            0x82 => self.res_8(0, Register::D),
            0x83 => self.res_8(0, Register::E),
            0x84 => self.res_8(0, Register::H),
            0x85 => self.res_8(0, Register::L),
            0x86 => self.res_mem16(0, Register::HL),
            0x87 => self.res_8(0, Register::A),
            0x88 => self.res_8(1, Register::B),
            0x89 => self.res_8(1, Register::C),
            0x8A => self.res_8(1, Register::D),
            0x8B => self.res_8(1, Register::E),
            0x8C => self.res_8(1, Register::H),
            0x8D => self.res_8(1, Register::L),
            0x8E => self.res_mem16(1, Register::HL),
            0x8F => self.res_8(1, Register::A),

            0x90 => self.res_8(2, Register::B),
            0x91 => self.res_8(2, Register::C),
            0x92 => self.res_8(2, Register::D),
            0x93 => self.res_8(2, Register::E),
            0x94 => self.res_8(2, Register::H),
            0x95 => self.res_8(2, Register::L),
            0x96 => self.res_mem16(2, Register::HL),
            0x97 => self.res_8(2, Register::A),
            0x98 => self.res_8(3, Register::B),
            0x99 => self.res_8(3, Register::C),
            0x9A => self.res_8(3, Register::D),
            0x9B => self.res_8(3, Register::E),
            0x9C => self.res_8(3, Register::H),
            0x9D => self.res_8(3, Register::L),
            0x9E => self.res_mem16(3, Register::HL),
            0x9F => self.res_8(3, Register::A),

            0xA0 => self.res_8(4, Register::B),
            0xA1 => self.res_8(4, Register::C),
            0xA2 => self.res_8(4, Register::D),
            0xA3 => self.res_8(4, Register::E),
            0xA4 => self.res_8(4, Register::H),
            0xA5 => self.res_8(4, Register::L),
            0xA6 => self.res_mem16(4, Register::HL),
            0xA7 => self.res_8(4, Register::A),
            0xA8 => self.res_8(5, Register::B),
            0xA9 => self.res_8(5, Register::C),
            0xAA => self.res_8(5, Register::D),
            0xAB => self.res_8(5, Register::E),
            0xAC => self.res_8(5, Register::H),
            0xAD => self.res_8(5, Register::L),
            0xAE => self.res_mem16(5, Register::HL),
            0xAF => self.res_8(5, Register::A),

            0xB0 => self.res_8(6, Register::B),
            0xB1 => self.res_8(6, Register::C),
            0xB2 => self.res_8(6, Register::D),
            0xB3 => self.res_8(6, Register::E),
            0xB4 => self.res_8(6, Register::H),
            0xB5 => self.res_8(6, Register::L),
            0xB6 => self.res_mem16(6, Register::HL),
            0xB7 => self.res_8(6, Register::A),
            0xB8 => self.res_8(7, Register::B),
            0xB9 => self.res_8(7, Register::C),
            0xBA => self.res_8(7, Register::D),
            0xBB => self.res_8(7, Register::E),
            0xBC => self.res_8(7, Register::H),
            0xBD => self.res_8(7, Register::L),
            0xBE => self.res_mem16(7, Register::HL),
            0xBF => self.res_8(7, Register::A),
            _ => (),
        }
    }

    /// Prefixed opcodes 0xC0 to 0xFF: SET.
    #[verifier::rlimit(50)]
    pub fn execute_cb_set(&mut self, opcode: u8)
        requires
            old(self).wf(),
            old(self).can_charge(12),
            0xC0 <= opcode <= 0xFF,
        ensures
            final(self).wf(),
            final(self)@.lead() == old(self)@.lead(),
            final(self)@ == old(self)@.execute_cb(opcode),
            old(self).cycle + 4 <= final(self).cycle <= old(self).cycle + 12,
    {
        match opcode {
            0xC0 => self.set_8(Register::B, 0),
            0xC1 => self.set_8(Register::C, 0),
            0xC2 => self.set_8(Register::D, 0),
            0xC3 => self.set_8(Register::E, 0),
            0xC4 => self.set_8(Register::H, 0),
            0xC5 => self.set_8(Register::L, 0),
            0xC6 => self.set_mem16(Register::HL, 0),
            0xC7 => self.set_8(Register::A, 0),
            0xC8 => self.set_8(Register::B, 1),
            0xC9 => self.set_8(Register::C, 1),
            0xCA => self.set_8(Register::D, 1),
            0xCB => self.set_8(Register::E, 1),
            0xCC => self.set_8(Register::H, 1),
            0xCD => self.set_8(Register::L, 1),
            0xCE => self.set_mem16(Register::HL, 1),
            0xCF => self.set_8(Register::A, 1),

            0xD0 => self.set_8(Register::B, 2),
            0xD1 => self.set_8(Register::C, 2),
            0xD2 => self.set_8(Register::D, 2),
            0xD3 => self.set_8(Register::E, 2),
            0xD4 => self.set_8(Register::H, 2),
            0xD5 => self.set_8(Register::L, 2),
            0xD6 => self.set_mem16(Register::HL, 2),
            0xD7 => self.set_8(Register::A, 2),
            0xD8 => self.set_8(Register::B, 3),
            0xD9 => self.set_8(Register::C, 3),
            0xDA => self.set_8(Register::D, 3),
            0xDB => self.set_8(Register::E, 3),
            0xDC => self.set_8(Register::H, 3),
            0xDD => self.set_8(Register::L, 3),
            0xDE => self.set_mem16(Register::HL, 3),
            0xDF => self.set_8(Register::A, 3),

            0xE0 => self.set_8(Register::B, 4),
            0xE1 => self.set_8(Register::C, 4),
            0xE2 => self.set_8(Register::D, 4),
            0xE3 => self.set_8(Register::E, 4),
            0xE4 => self.set_8(Register::H, 4),
            0xE5 => self.set_8(Register::L, 4),
            0xE6 => self.set_mem16(Register::HL, 4),
            0xE7 => self.set_8(Register::A, 4),
            0xE8 => self.set_8(Register::B, 5),
            0xE9 => self.set_8(Register::C, 5),
            0xEA => self.set_8(Register::D, 5),
            0xEB => self.set_8(Register::E, 5),
            0xEC => self.set_8(Register::H, 5),
            0xED => self.set_8(Register::L, 5),
            0xEE => self.set_mem16(Register::HL, 5),
            0xEF => self.set_8(Register::A, 5),

            0xF0 => self.set_8(Register::B, 6),
            0xF1 => self.set_8(Register::C, 6),
            0xF2 => self.set_8(Register::D, 6),
            0xF3 => self.set_8(Register::E, 6),
            0xF4 => self.set_8(Register::H, 6),
            0xF5 => self.set_8(Register::L, 6),
            0xF6 => self.set_mem16(Register::HL, 6),
            0xF7 => self.set_8(Register::A, 6),
            0xF8 => self.set_8(Register::B, 7),
            0xF9 => self.set_8(Register::C, 7),
            0xFA => self.set_8(Register::D, 7),
            0xFB => self.set_8(Register::E, 7),
            0xFC => self.set_8(Register::H, 7),
            0xFD => self.set_8(Register::L, 7),
            0xFE => self.set_mem16(Register::HL, 7),
            0xFF => self.set_8(Register::A, 7),
            _ => (),
        }
    }

    /// Runs the prefixed instruction `opcode`.
    pub fn execute_cb_opcode(&mut self, opcode: u8)
        requires
            old(self).wf(),
            old(self).can_charge(12),
        ensures
            final(self).wf(),
            final(self)@.lead() == old(self)@.lead(),
            final(self)@ == old(self)@.execute_cb(opcode),
            old(self).cycle + 4 <= final(self).cycle <= old(self).cycle + 12,
    {
        match opcode {
            0x00..=0x3F => self.execute_cb_shift(opcode),
            0x40..=0x7F => self.execute_cb_bit(opcode),
            0x80..=0xBF => self.execute_cb_res(opcode),
            _ => self.execute_cb_set(opcode),
        }
    }

    /// Reads the byte at `addr`.
    pub fn read_byte(&self, addr: u16) -> (b: u8)
        ensures
            b == self@.read(addr),
    {
        self.memory.read_byte(addr)
    }

    /// Stores `value` at `addr`.
    pub fn write_byte(&mut self, addr: u16, value: u8)
        ensures
            final(self)@ == old(self)@.write(addr, value),
    {
        self.memory.write_byte(addr, value);
    }

    /// Pushes `value`: high byte first, so that the low byte ends at the
    /// new stack pointer.
    pub fn push_stack(&mut self, value: u16)
        ensures
            final(self)@ == old(self)@.push(value),
    {
        proof {
            lemma_word_bits(0, 0, value);
        }
        self.registers.sp = self.registers.sp.wrapping_sub(1);
        self.write_byte(self.registers.sp, (value >> 8) as u8);
        self.registers.sp = self.registers.sp.wrapping_sub(1);
        self.write_byte(self.registers.sp, (value & 0xFF) as u8);
    }

    /// Pops a word: low byte first.
    pub fn pop_stack(&mut self) -> (value: u16)
        ensures
            value == old(self)@.top(),
            final(self)@ == old(self)@.drop_top(),
    {
        let low = self.read_byte(self.registers.sp);
        self.registers.sp = self.registers.sp.wrapping_add(1);
        let high = self.read_byte(self.registers.sp);
        self.registers.sp = self.registers.sp.wrapping_add(1);
        proof {
            lemma_word_bits(high, low, 0);
        }
        ((high as u16) << 8) | (low as u16)
    }

    /// Charges `cycles` clock ticks and runs the pixel unit for them.
    pub fn handle_cycles(&mut self, cycles: u32)
        requires
            old(self).wf(),
            old(self).can_charge(cycles as int),
        ensures
            final(self).wf(),
            final(self)@ == old(self)@.tick(cycles),
            final(self)@.lead() == old(self)@.lead(),
            final(self).cycle == old(self).cycle + cycles,
    {
        proof {
            lemma_tick_in_step(old(self)@, cycles);
        }
        self.cycle += cycles;
        self.ppu.step(&mut self.memory, cycles);
    }

    /// Bit `position` of `byte`, as 0 or 1.
    pub fn get_bit_at_position(byte: u8, position: u8) -> (bit: u8)
        requires
            position < 8,
        ensures
            bit == (if test_bit(byte, position) {
                1u8
            } else {
                0u8
            }),
    {
        proof {
            lemma_set_clear_bit(byte, position);
        }
        (byte >> position) & 1
    }

    /// Sets Z when `result` is zero and clears it otherwise.
    pub fn update_z_flag(&mut self, result: u8)
        ensures
            final(self)@ == old(self)@.set_flags(
                result == 0,
                old(self).registers.n_flag(),
                old(self).registers.h_flag(),
                old(self).registers.c_flag(),
            ),
            final(self).registers.flags_are(
                result == 0,
                old(self).registers.n_flag(),
                old(self).registers.h_flag(),
                old(self).registers.c_flag(),
            ),
            old(self).wf() ==> final(self).wf(),
    {
        self.registers.set_z_flag(result == 0);
    }

    /// Sets or clears N.
    pub fn update_s_flag(&mut self, is_subtraction: bool)
        ensures
            final(self)@ == old(self)@.set_flags(
                old(self).registers.z_flag(),
                is_subtraction,
                old(self).registers.h_flag(),
                old(self).registers.c_flag(),
            ),
            final(self).registers.flags_are(
                old(self).registers.z_flag(),
                is_subtraction,
                old(self).registers.h_flag(),
                old(self).registers.c_flag(),
            ),
            old(self).wf() ==> final(self).wf(),
    {
        self.registers.set_s_flag(is_subtraction);
    }

    /// Sets C to the carry out of bit 7 of `operand1 + operand2`, or to the
    /// borrow of `operand1 - operand2`.
    pub fn update_c_flag8(&mut self, operand1: u8, operand2: u8, is_subtraction: bool)
        ensures
            final(self)@ == old(self)@.set_flags(
                old(self).registers.z_flag(),
                old(self).registers.n_flag(),
                old(self).registers.h_flag(),
                if is_subtraction {
                    operand1 < operand2
                } else {
                    operand1 + operand2 > 0xFF
                },
            ),
            final(self).registers.flags_are(
                old(self).registers.z_flag(),
                old(self).registers.n_flag(),
                old(self).registers.h_flag(),
                if is_subtraction {
                    operand1 < operand2
                } else {
                    operand1 + operand2 > 0xFF
                },
            ),
            old(self).wf() ==> final(self).wf(),
    {
        let carry = if is_subtraction {
            operand1 < operand2
        } else {
            operand1 as u16 + operand2 as u16 > 0xFF
        };
        self.registers.set_c_flag(carry);
    }

    /// Sets H to the carry out of bit 3 of `operand1 + operand2`, or to the
    /// borrow from bit 4 of `operand1 - operand2`.
    pub fn update_h_flag8(&mut self, operand1: u8, operand2: u8, is_subtraction: bool)
        ensures
            final(self)@ == old(self)@.set_flags(
                old(self).registers.z_flag(),
                old(self).registers.n_flag(),
                if is_subtraction {
                    operand1 % 16 < operand2 % 16
                } else {
                    operand1 % 16 + operand2 % 16 > 0x0F
                },
                old(self).registers.c_flag(),
            ),
            final(self).registers.flags_are(
                old(self).registers.z_flag(),
                old(self).registers.n_flag(),
                if is_subtraction {
                    operand1 % 16 < operand2 % 16
                } else {
                    operand1 % 16 + operand2 % 16 > 0x0F
                },
                old(self).registers.c_flag(),
            ),
            old(self).wf() ==> final(self).wf(),
    {
        proof {
            lemma_nibble_bits(operand1);
            lemma_nibble_bits(operand2);
        }
        let half_carry = if is_subtraction {
            (operand1 & 0x0F) < (operand2 & 0x0F)
        } else {
            (operand1 & 0x0F) + (operand2 & 0x0F) > 0x0F
        };
        self.registers.set_h_flag(half_carry);
    }

    /// Sets C to the carry out of bit 15 of `operand1 + operand2`, or to the
    /// borrow of `operand1 - operand2`.
    pub fn update_c_flag16(&mut self, operand1: u16, operand2: u16, is_subtraction: bool)
        ensures
            final(self)@ == old(self)@.set_flags(
                old(self).registers.z_flag(),
                old(self).registers.n_flag(),
                old(self).registers.h_flag(),
                if is_subtraction {
                    operand1 < operand2
                } else {
                    operand1 + operand2 > 0xFFFF
                },
            ),
            final(self).registers.flags_are(
                old(self).registers.z_flag(),
                old(self).registers.n_flag(),
                old(self).registers.h_flag(),
                if is_subtraction {
                    operand1 < operand2
                } else {
                    operand1 + operand2 > 0xFFFF
                },
            ),
            old(self).wf() ==> final(self).wf(),
    {
        let carry = if is_subtraction {
            operand1 < operand2
        } else {
            operand1 as u32 + operand2 as u32 > 0xFFFF
        };
        self.registers.set_c_flag(carry);
    }

    /// Sets H to the carry out of bit 11 of `operand1 + operand2`, or to the
    /// borrow from bit 12 of `operand1 - operand2`.
    pub fn update_h_flag16(&mut self, operand1: u16, operand2: u16, is_subtraction: bool)
        ensures
            final(self)@ == old(self)@.set_flags(
                old(self).registers.z_flag(),
                old(self).registers.n_flag(),
                if is_subtraction {
                    operand1 % 4096 < operand2 % 4096
                } else {
                    operand1 % 4096 + operand2 % 4096 > 0x0FFF
                },
                old(self).registers.c_flag(),
            ),
            final(self).registers.flags_are(
                old(self).registers.z_flag(),
                old(self).registers.n_flag(),
                if is_subtraction {
                    operand1 % 4096 < operand2 % 4096
                } else {
                    operand1 % 4096 + operand2 % 4096 > 0x0FFF
                },
                old(self).registers.c_flag(),
            ),
            old(self).wf() ==> final(self).wf(),
    {
        proof {
            lemma_word_nibble_bits(operand1);
            lemma_word_nibble_bits(operand2);
        }
        let half_carry = if is_subtraction {
            (operand1 & 0x0FFF) < (operand2 & 0x0FFF)
        } else {
            (operand1 & 0x0FFF) + (operand2 & 0x0FFF) > 0x0FFF
        };
        self.registers.set_h_flag(half_carry);
    }

    /// Adds, and sets the flags of the sum.
    pub fn add(&mut self, op1: u8, op2: u8) -> (result: u8)
        ensures
            result == add8(op1, op2, false).value,
            final(self)@ == old(self)@.set_flags_of(add8(op1, op2, false)),
            old(self).wf() ==> final(self).wf(),
    {
        let result = op1.wrapping_add(op2);
        self.update_z_flag(result);
        self.registers.set_s_flag(false);
        self.update_h_flag8(op1, op2, false);
        self.update_c_flag8(op1, op2, false);
        result
    }

    /// Subtracts, and sets the flags of the difference.
    pub fn sub(&mut self, op1: u8, op2: u8) -> (result: u8)
        ensures
            result == sub8(op1, op2, false).value,
            final(self)@ == old(self)@.set_flags_of(sub8(op1, op2, false)),
            old(self).wf() ==> final(self).wf(),
    {
        let result = op1.wrapping_sub(op2);
        self.update_z_flag(result);
        self.registers.set_s_flag(true);
        self.update_h_flag8(op1, op2, true);
        self.update_c_flag8(op1, op2, true);
        result
    }

    /// Bitwise and, with its flags.
    pub fn and(&mut self, op1: u8, op2: u8) -> (result: u8)
        ensures
            result == and8(op1, op2).value,
            final(self)@ == old(self)@.set_flags_of(and8(op1, op2)),
            old(self).wf() ==> final(self).wf(),
    {
        let result = op1 & op2;
        self.update_z_flag(result);
        self.registers.set_s_flag(false);
        self.registers.set_h_flag(true);
        self.registers.set_c_flag(false);
        result
    }

    /// Bitwise or, with its flags.
    pub fn or(&mut self, op1: u8, op2: u8) -> (result: u8)
        ensures
            result == or8(op1, op2).value,
            final(self)@ == old(self)@.set_flags_of(or8(op1, op2)),
            old(self).wf() ==> final(self).wf(),
    {
        let result = op1 | op2;
        self.update_z_flag(result);
        self.registers.set_s_flag(false);
        self.registers.set_h_flag(false);
        self.registers.set_c_flag(false);
        result
    }

    /// Adds with the carry flag, and sets the flags of the sum.
    pub fn adc(&mut self, op1: u8, op2: u8) -> (result: u8)
        ensures
            result == add8(op1, op2, old(self).registers.c_flag()).value,
            final(self)@ == old(self)@.set_flags_of(add8(op1, op2, old(self).registers.c_flag())),
            old(self).wf() ==> final(self).wf(),
    {
        let carry: u8 = if self.registers.get_c_flag() {
            1
        } else {
            0
        };
        proof {
            lemma_nibble_bits(op1);
            lemma_nibble_bits(op2);
        }
        let result = op1.wrapping_add(op2).wrapping_add(carry);
        let half_carry = (op1 & 0x0F) + (op2 & 0x0F) + carry > 0x0F;
        let full_carry = op1 as u16 + op2 as u16 + carry as u16 > 0xFF;
        self.update_z_flag(result);
        self.registers.set_s_flag(false);
        self.registers.set_h_flag(half_carry);
        self.registers.set_c_flag(full_carry);
        result
    }

    /// Subtracts with the carry flag, and sets the flags of the difference.
    pub fn sbc(&mut self, op1: u8, op2: u8) -> (result: u8)
        ensures
            result == sub8(op1, op2, old(self).registers.c_flag()).value,
            final(self)@ == old(self)@.set_flags_of(sub8(op1, op2, old(self).registers.c_flag())),
            old(self).wf() ==> final(self).wf(),
    {
        let carry: u8 = if self.registers.get_c_flag() {
            1
        } else {
            0
        };
        proof {
            lemma_nibble_bits(op1);
            lemma_nibble_bits(op2);
        }
        let result = op1.wrapping_sub(op2).wrapping_sub(carry);
        let half_carry = (op1 & 0x0F) < (op2 & 0x0F) + carry;
        let full_carry = (op1 as u16) < op2 as u16 + carry as u16;
        self.update_z_flag(result);
        self.registers.set_s_flag(true);
        self.registers.set_h_flag(half_carry);
        self.registers.set_c_flag(full_carry);
        result
    }

    /// Bitwise exclusive or, with its flags.
    pub fn xor(&mut self, op1: u8, op2: u8) -> (result: u8)
        ensures
            result == xor8(op1, op2).value,
            final(self)@ == old(self)@.set_flags_of(xor8(op1, op2)),
            old(self).wf() ==> final(self).wf(),
    {
        let result = op1 ^ op2;
        self.update_z_flag(result);
        self.registers.set_s_flag(false);
        self.registers.set_h_flag(false);
        self.registers.set_c_flag(false);
        result
    }

    /// Compares: sets the flags of `op1 - op2` and hands `op1` back.
    pub fn cp(&mut self, op1: u8, op2: u8) -> (result: u8)
        ensures
            result == cp8(op1, op2).value,
            final(self)@ == old(self)@.set_flags_of(cp8(op1, op2)),
            old(self).wf() ==> final(self).wf(),
    {
        let result = op1.wrapping_sub(op2);
        self.update_z_flag(result);
        self.registers.set_s_flag(true);
        self.update_h_flag8(op1, op2, true);
        self.update_c_flag8(op1, op2, true);
        op1
    }
}

} // verus!
