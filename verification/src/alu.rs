//! The arithmetic and logic of the processor as functions of plain values:
//! each gives the resulting byte and the four flags.

use vstd::prelude::*;
use crate::bits::lemma_nibble_bits;

verus! {

/// A result byte with the flags that go with it.
pub struct AluResult {
    pub value: u8,
    pub z: bool,
    pub n: bool,
    pub h: bool,
    pub c: bool,
}

/// The eight accumulator operations, in opcode order.
#[derive(Clone, Copy, PartialEq, Eq, Structural, Debug)]
pub enum AluOp {
    Add,
    Adc,
    Sub,
    Sbc,
    And,
    Xor,
    Or,
    Cp,
}

/// The eight rotate and shift operations, in opcode order.
#[derive(Clone, Copy, PartialEq, Eq, Structural, Debug)]
pub enum ShiftOp {
    Rlc,
    Rrc,
    Rl,
    Rr,
    Sla,
    Sra,
    Swap,
    Srl,
}

/// 0 or 1 for a carry.
pub open spec fn carry_value(carry: bool) -> int {
    if carry {
        1
    } else {
        0
    }
}

/// `x + y + carry` modulo 256. H is the carry out of bit 3, C out of bit 7.
pub open spec fn add8(x: u8, y: u8, carry: bool) -> AluResult {
    let sum = x + y + carry_value(carry);
    AluResult {
        value: (sum % 256) as u8,
        z: sum % 256 == 0,
        n: false,
        h: (x % 16) + (y % 16) + carry_value(carry) > 15,
        c: sum > 255,
    }
}

/// `x - y - carry` modulo 256. H is the borrow from bit 4, C the borrow out.
pub open spec fn sub8(x: u8, y: u8, carry: bool) -> AluResult {
    let diff = x - y - carry_value(carry);
    AluResult {
        value: (diff % 256) as u8,
        z: diff % 256 == 0,
        n: true,
        h: (x % 16) < (y % 16) + carry_value(carry),
        c: x < y + carry_value(carry),
    }
}

/// Bitwise and: H is set, C cleared.
pub open spec fn and8(x: u8, y: u8) -> AluResult {
    AluResult { value: x & y, z: x & y == 0, n: false, h: true, c: false }
}

/// Bitwise or: H and C are cleared.
pub open spec fn or8(x: u8, y: u8) -> AluResult {
    AluResult { value: x | y, z: x | y == 0, n: false, h: false, c: false }
}

/// Bitwise exclusive or: H and C are cleared.
pub open spec fn xor8(x: u8, y: u8) -> AluResult {
    AluResult { value: x ^ y, z: x ^ y == 0, n: false, h: false, c: false }
}

/// Comparison: the flags of `x - y`, with `x` kept.
pub open spec fn cp8(x: u8, y: u8) -> AluResult {
    AluResult { value: x, ..sub8(x, y, false) }
}

/// What accumulator operation `op` gives for `x` and `y` with carry `carry`.
pub open spec fn alu8(op: AluOp, x: u8, y: u8, carry: bool) -> AluResult {
    match op {
        AluOp::Add => add8(x, y, false),
        AluOp::Adc => add8(x, y, carry),
        AluOp::Sub => sub8(x, y, false),
        AluOp::Sbc => sub8(x, y, carry),
        AluOp::And => and8(x, y),
        AluOp::Xor => xor8(x, y),
        AluOp::Or => or8(x, y),
        AluOp::Cp => cp8(x, y),
    }
}

/// `x + 1` modulo 256; C keeps `carry`.
pub open spec fn inc8(x: u8, carry: bool) -> AluResult {
    AluResult {
        value: ((x + 1) % 256) as u8,
        z: x == 255,
        n: false,
        h: x % 16 == 15,
        c: carry,
    }
}

/// `x - 1` modulo 256; C keeps `carry`.
pub open spec fn dec8(x: u8, carry: bool) -> AluResult {
    AluResult { value: ((x - 1) % 256) as u8, z: x == 1, n: true, h: x % 16 == 0, c: carry }
}

/// The flags of a rotate or shift that gave `value` and moved `out` into C.
pub open spec fn shifted(value: int, out: bool) -> AluResult {
    AluResult { value: value as u8, z: value == 0, n: false, h: false, c: out }
}

/// What rotate or shift `op` gives for `x` with carry `carry`.
///
/// RLC and RRC rotate the byte; RL and RR rotate through the carry; SLA
/// shifts left; SRA shifts right and keeps bit 7; SRL shifts right; SWAP
/// exchanges the nibbles. C takes the bit that leaves the byte.
pub open spec fn shift8(op: ShiftOp, x: u8, carry: bool) -> AluResult {
    match op {
        ShiftOp::Rlc => shifted((x * 2) % 256 + x / 128, x >= 128),
        ShiftOp::Rrc => shifted(x / 2 + (x % 2) * 128, x % 2 == 1),
        ShiftOp::Rl => shifted((x * 2) % 256 + carry_value(carry), x >= 128),
        ShiftOp::Rr => shifted(x / 2 + carry_value(carry) * 128, x % 2 == 1),
        ShiftOp::Sla => shifted((x * 2) % 256, x >= 128),
        ShiftOp::Sra => shifted(x / 2 + (x / 128) * 128, x % 2 == 1),
        ShiftOp::Swap => shifted((x % 16) * 16 + x / 16, false),
        ShiftOp::Srl => shifted((x / 2) as int, x % 2 == 1),
    }
}

/// The accumulator rotates RLCA, RRCA, RLA and RRA: as `shift8`, with Z
/// cleared.
pub open spec fn rotate_a(op: ShiftOp, a: u8, carry: bool) -> AluResult {
    AluResult { z: false, ..shift8(op, a, carry) }
}

/// Decimal adjustment of `a` after an addition (`n` clear) or a subtraction
/// (`n` set) of packed decimal numbers, from the flags that it left.
pub open spec fn daa8(a: u8, n: bool, h: bool, c: bool) -> AluResult {
    if !n {
        let high = c || a > 0x99;
        let low = h || a % 16 > 9;
        let sum = a + (if high { 0x60int } else { 0 }) + (if low { 0x06int } else { 0 });
        AluResult { value: (sum % 256) as u8, z: sum % 256 == 0, n: n, h: false, c: high }
    } else {
        let diff = a - (if c { 0x60int } else { 0 }) - (if h { 0x06int } else { 0 });
        AluResult { value: (diff % 256) as u8, z: diff % 256 == 0, n: n, h: false, c: c }
    }
}

/// A byte read as a signed number.
pub open spec fn signed8(e: u8) -> int {
    if e < 128 {
        e as int
    } else {
        e - 256
    }
}

/// `v` modulo 65536.
pub open spec fn wrap16(v: int) -> u16 {
    (v % 0x10000) as u16
}

/// A 16-bit sum with its flags.
pub struct WideResult {
    pub value: u16,
    pub h: bool,
    pub c: bool,
}

/// `x + y` modulo 65536. H is the carry out of bit 11, C out of bit 15.
pub open spec fn add16(x: u16, y: u16) -> WideResult {
    WideResult { value: wrap16(x + y), h: (x % 4096) + (y % 4096) > 4095, c: x + y > 65535 }
}

/// `sp` plus the signed byte `e`, modulo 65536. H and C are those of adding
/// `e` as an unsigned byte to the low byte of `sp`.
pub open spec fn add_signed16(sp: u16, e: u8) -> WideResult {
    WideResult {
        value: wrap16(sp + signed8(e)),
        h: (sp % 16) + (e % 16) > 15,
        c: (sp % 256) + e > 255,
    }
}

/// An addition sets C exactly when the sum exceeds 0xFF and H exactly when
/// the sum of the low nibbles exceeds 0xF; its result is the sum modulo 256
/// and Z tells whether that is zero.
pub proof fn lemma_add_flags(x: u8, y: u8)
    ensures
        add8(x, y, false).c <==> x + y > 0xFF,
        add8(x, y, false).h <==> (x & 0x0F) + (y & 0x0F) > 0x0F,
        add8(x, y, false).z <==> add8(x, y, false).value == 0,
        !add8(x, y, false).n,
        add8(x, y, false).value == (if x + y > 0xFF {
            x + y - 256
        } else {
            x + y
        }),
{
    lemma_nibble_bits(x);
    lemma_nibble_bits(y);
}

/// A subtraction sets C exactly when `x < y` and H exactly when the low
/// nibble of `x` is below that of `y`.
pub proof fn lemma_sub_flags(x: u8, y: u8)
    ensures
        sub8(x, y, false).c <==> x < y,
        sub8(x, y, false).h <==> (x & 0x0F) < (y & 0x0F),
        sub8(x, y, false).z <==> x == y,
        sub8(x, y, false).n,
        sub8(x, y, false).value == (if x < y {
            x - y + 256
        } else {
            x - y
        }),
{
    lemma_nibble_bits(x);
    lemma_nibble_bits(y);
}

/// Incrementing and then decrementing a byte gives it back. The flags then
/// describe that byte: Z tells whether it is zero, N is set, H tells of the
/// borrow, and C is the carry that went in.
pub proof fn lemma_inc_dec_identity(x: u8, carry: bool)
    ensures
        dec8(inc8(x, carry).value, inc8(x, carry).c).value == x,
        dec8(inc8(x, carry).value, inc8(x, carry).c).z <==> x == 0,
        dec8(inc8(x, carry).value, inc8(x, carry).c).n,
        dec8(inc8(x, carry).value, inc8(x, carry).c).h <==> x % 16 == 15,
        dec8(inc8(x, carry).value, inc8(x, carry).c).c == carry,
        inc8(x, carry).c == carry,
{
}

/// Exchanging the nibbles twice gives the byte back.
pub proof fn lemma_swap_twice(x: u8, carry: bool, carry2: bool)
    ensures
        shift8(ShiftOp::Swap, shift8(ShiftOp::Swap, x, carry).value, carry2).value == x,
{
}

/// Rotating left and then right gives the byte back, and so does rotating
/// right and then left.
pub proof fn lemma_rlc_rrc_identity(x: u8, carry: bool, carry2: bool)
    ensures
        shift8(ShiftOp::Rrc, shift8(ShiftOp::Rlc, x, carry).value, carry2).value == x,
        shift8(ShiftOp::Rlc, shift8(ShiftOp::Rrc, x, carry).value, carry2).value == x,
{
}

} // verus!
