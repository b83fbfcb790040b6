//! The arithmetic and logic unit: every operation as a function from
//! operands and incoming flags to a result and outgoing flags.
use vstd::prelude::*;
use crate::registers::Flags;

verus! {

/// The number that a carry-in stands for.
pub open spec fn carry_value(carry: bool) -> int {
    if carry { 1 } else { 0 }
}

/// A byte read as a two's-complement number.
pub open spec fn signed(byte: u8) -> int {
    if byte >= 128 { byte as int - 256 } else { byte as int }
}

/// `A + n + carry`: the sum modulo 256; zero when that is 0; half-carry when
/// the low nibbles and the carry-in exceed 15; carry when the full sum
/// exceeds 255.
pub open spec fn add8(a: u8, n: u8, carry: bool) -> (u8, Flags) {
    let sum = a as int + n as int + carry_value(carry);
    (
        (sum % 256) as u8,
        Flags {
            zero: sum % 256 == 0,
            subtract: false,
            half_carry: a as int % 16 + n as int % 16 + carry_value(carry) > 15,
            carry: sum > 255,
        },
    )
}

/// `A - n - carry`: the difference modulo 256; zero when that is 0;
/// half-carry when the low nibble of `A` is less than that of `n` plus the
/// carry-in; carry when `A` is less than `n` plus the carry-in.
pub open spec fn sub8(a: u8, n: u8, carry: bool) -> (u8, Flags) {
    let diff = a as int - n as int - carry_value(carry);
    (
        (diff % 256) as u8,
        Flags {
            zero: diff % 256 == 0,
            subtract: true,
            half_carry: (a as int % 16) < n as int % 16 + carry_value(carry),
            carry: (a as int) < n as int + carry_value(carry),
        },
    )
}

pub open spec fn and8(a: u8, n: u8) -> (u8, Flags) {
    (a & n, Flags { zero: a & n == 0, subtract: false, half_carry: true, carry: false })
}

pub open spec fn or8(a: u8, n: u8) -> (u8, Flags) {
    (a | n, Flags { zero: a | n == 0, subtract: false, half_carry: false, carry: false })
}

pub open spec fn xor8(a: u8, n: u8) -> (u8, Flags) {
    (a ^ n, Flags { zero: a ^ n == 0, subtract: false, half_carry: false, carry: false })
}

/// Increment: carry is kept.
pub open spec fn inc8(value: u8, flags: Flags) -> (u8, Flags) {
    (
        ((value + 1) % 256) as u8,
        Flags {
            zero: value == 255,
            subtract: false,
            half_carry: value % 16 == 15,
            carry: flags.carry,
        },
    )
}

/// Decrement: carry is kept.
pub open spec fn dec8(value: u8, flags: Flags) -> (u8, Flags) {
    (
        ((value - 1) % 256) as u8,
        Flags {
            zero: value == 1,
            subtract: true,
            half_carry: value % 16 == 0,
            carry: flags.carry,
        },
    )
}

/// 16-bit addition: zero is kept; half-carry is the carry out of bit 11.
pub open spec fn add16(first: u16, second: u16, flags: Flags) -> (u16, Flags) {
    (
        ((first + second) % 65536) as u16,
        Flags {
            zero: flags.zero,
            subtract: false,
            half_carry: first % 4096 + second % 4096 > 4095,
            carry: first + second > 65535,
        },
    )
}

/// A 16-bit value plus one, modulo 65536.
pub open spec fn inc16(value: u16) -> u16 {
    ((value + 1) % 0x10000) as u16
}

/// A 16-bit value less one, modulo 65536.
pub open spec fn dec16(value: u16) -> u16 {
    ((value - 1) % 0x10000) as u16
}

/// A 16-bit value plus a signed byte, modulo 65536.
pub open spec fn offset16(base: u16, n: u8) -> u16 {
    ((base + signed(n)) % 65536) as u16
}

/// The stack pointer plus a signed byte: half-carry and carry are those of
/// the unsigned addition of the byte to the low byte of the pointer.
pub open spec fn add_sp(sp: u16, n: u8) -> (u16, Flags) {
    (
        offset16(sp, n),
        Flags {
            zero: false,
            subtract: false,
            half_carry: sp % 16 + n % 16 > 15,
            carry: sp % 256 + n > 255,
        },
    )
}

/// The correction that the decimal adjustment applies to `A`.
pub open spec fn daa_adjust(a: u8, flags: Flags) -> u8 {
    let low: int = if flags.half_carry || (!flags.subtract && a % 16 > 9) { 6 } else { 0 };
    let high: int = if flags.carry || (!flags.subtract && a > 0x99) { 0x60 } else { 0 };
    (low + high) as u8
}

/// Decimal adjustment of `A` after an addition or subtraction of packed
/// decimals; carry is set exactly when the high digit was corrected.
pub open spec fn daa(a: u8, flags: Flags) -> (u8, Flags) {
    let adjust = daa_adjust(a, flags);
    let result = if flags.subtract { (a - adjust) % 256 } else { (a + adjust) % 256 };
    (
        result as u8,
        Flags {
            zero: result == 0,
            subtract: flags.subtract,
            half_carry: false,
            carry: adjust >= 0x60,
        },
    )
}

/// Flags after a rotate or shift that produced `result` and moved `out`
/// into the carry.
pub open spec fn shift_flags(result: u8, out: bool) -> Flags {
    Flags { zero: result == 0, subtract: false, half_carry: false, carry: out }
}

/// Rotate left; bit 7 goes to bit 0 and to the carry.
pub open spec fn rlc(value: u8) -> (u8, Flags) {
    let result = ((value % 128) * 2 + value / 128) as u8;
    (result, shift_flags(result, value >= 128))
}

/// Rotate left through the carry.
pub open spec fn rl(value: u8, flags: Flags) -> (u8, Flags) {
    let result = ((value % 128) * 2 + carry_value(flags.carry)) as u8;
    (result, shift_flags(result, value >= 128))
}

/// Rotate right; bit 0 goes to bit 7 and to the carry.
pub open spec fn rrc(value: u8) -> (u8, Flags) {
    let result = (value / 2 + (value % 2) * 128) as u8;
    (result, shift_flags(result, value % 2 == 1))
}

/// Rotate right through the carry.
pub open spec fn rr(value: u8, flags: Flags) -> (u8, Flags) {
    let result = (value / 2 + carry_value(flags.carry) * 128) as u8;
    (result, shift_flags(result, value % 2 == 1))
}

/// Shift left; bit 0 becomes 0.
pub open spec fn sla(value: u8) -> (u8, Flags) {
    let result = ((value % 128) * 2) as u8;
    (result, shift_flags(result, value >= 128))
}

/// Shift right; bit 7 keeps its value.
pub open spec fn sra(value: u8) -> (u8, Flags) {
    let result = (value / 2 + (value / 128) * 128) as u8;
    (result, shift_flags(result, value % 2 == 1))
}

/// Shift right; bit 7 becomes 0.
pub open spec fn srl(value: u8) -> (u8, Flags) {
    let result = (value / 2) as u8;
    (result, shift_flags(result, value % 2 == 1))
}

/// Exchange the two nibbles.
pub open spec fn swap(value: u8) -> (u8, Flags) {
    let result = ((value % 16) * 16 + value / 16) as u8;
    (result, shift_flags(result, false))
}

/// The byte with only bit `bit` set, for `bit` below 8.
pub open spec fn bit_mask(bit: u8) -> u8 {
    1u8 << bit
}

/// Flags after testing bit `bit` of `value`: zero when the bit is clear;
/// carry is kept.
pub open spec fn bit_flags(value: u8, bit: u8, flags: Flags) -> Flags {
    Flags {
        zero: value & bit_mask(bit) == 0,
        subtract: false,
        half_carry: true,
        carry: flags.carry,
    }
}

pub open spec fn with_bit_set(value: u8, bit: u8) -> u8 {
    value | bit_mask(bit)
}

pub open spec fn with_bit_reset(value: u8, bit: u8) -> u8 {
    value & !bit_mask(bit)
}

proof fn lemma_low_nibble(x: u8, y: u8)
    by (bit_vector)
    ensures
        x & 0xF == x % 16,
        y & 0xF == y % 16,
{
}

proof fn lemma_low_bits16(x: u16, y: u16)
    by (bit_vector)
    ensures
        x & 0x0FFF == x % 4096,
        y & 0x0FFF == y % 4096,
        x & 0x000F == x % 16,
        y & 0x000F == y % 16,
        x & 0x00FF == x % 256,
        y & 0x00FF == y % 256,
{
}

proof fn lemma_shifts(v: u8)
    by (bit_vector)
    ensures
        (v & 0x80 > 0) == (v >= 128),
        (v & 0x01 > 0) == (v % 2 == 1),
        v << 1 == (v % 128) * 2,
        (v << 1) | 1 == (v % 128) * 2 + 1,
        v >> 1 == v / 2,
        (v >> 1) | 0x80 == v / 2 + 128,
        (v >> 1) | (v & 0x80) == v / 2 + (v / 128) * 128,
        (v >> 4) | (v << 4) == (v % 16) * 16 + v / 16,
{
}

/// Whether adding the low nibbles and a carry-in of 0 or 1 carries out of
/// bit 3.
pub fn half_carry_addition(first: u8, second: u8, carry: u8) -> (half: bool)
    requires
        carry <= 1,
    ensures
        half == (first % 16 + second % 16 + carry > 15),
{
    proof {
        lemma_low_nibble(first, second);
    }
    (first & 0xF) + (second & 0xF) + carry > 0xF
}

/// Whether subtracting the low nibbles and a carry-in of 0 or 1 borrows
/// from bit 4.
pub fn half_carry_subtraction(first: u8, second: u8, carry: u8) -> (half: bool)
    requires
        carry <= 1,
    ensures
        half == (first % 16 < second % 16 + carry),
{
    proof {
        lemma_low_nibble(first, second);
    }
    (first & 0x0F) < (second & 0x0F) + carry
}

/// Whether a 16-bit addition carries out of bit 11.
pub fn half_carry_addition_u16(first: u16, second: u16) -> (half: bool)
    ensures
        half == (first % 4096 + second % 4096 > 4095),
{
    proof {
        lemma_low_bits16(first, second);
    }
    (first & 0x0FFF) + (second & 0x0FFF) > 0x0FFF
}

/// Reads the byte as a two's-complement number and adds it to the 16-bit
/// value, modulo 65536.
pub fn add_signed_u8_to_u16(unsigned: u16, signed_byte: u8) -> (sum: u16)
    ensures
        sum == offset16(unsigned, signed_byte),
{
    if signed_byte >= 128 {
        unsigned.wrapping_sub(256 - signed_byte as u16)
    } else {
        unsigned.wrapping_add(signed_byte as u16)
    }
}

pub fn increment_u16(value: u16) -> (next: u16)
    ensures
        next == inc16(value),
{
    value.wrapping_add(1)
}

pub fn decrement_u16(value: u16) -> (previous: u16)
    ensures
        previous == dec16(value),
{
    value.wrapping_sub(1)
}

pub fn alu_add(a: u8, n: u8, carry: bool) -> (out: (u8, Flags))
    ensures
        out == add8(a, n, carry),
{
    let c: u8 = if carry { 1 } else { 0 };
    let result: u8 = a.wrapping_add(n).wrapping_add(c);
    (
        result,
        Flags {
            zero: result == 0,
            subtract: false,
            half_carry: half_carry_addition(a, n, c),
            carry: (a as u16) + (n as u16) + (c as u16) > 0xFF,
        },
    )
}

pub fn alu_sub(a: u8, n: u8, carry: bool) -> (out: (u8, Flags))
    ensures
        out == sub8(a, n, carry),
{
    let c: u8 = if carry { 1 } else { 0 };
    let result: u8 = a.wrapping_sub(n).wrapping_sub(c);
    (
        result,
        Flags {
            zero: result == 0,
            subtract: true,
            half_carry: half_carry_subtraction(a, n, c),
            carry: (a as u16) < (n as u16) + (c as u16),
        },
    )
}

pub fn alu_and(a: u8, n: u8) -> (out: (u8, Flags))
    ensures
        out == and8(a, n),
{
    let result: u8 = a & n;
    (result, Flags { zero: result == 0, subtract: false, half_carry: true, carry: false })
}

pub fn alu_or(a: u8, n: u8) -> (out: (u8, Flags))
    ensures
        out == or8(a, n),
{
    let result: u8 = a | n;
    (result, Flags { zero: result == 0, subtract: false, half_carry: false, carry: false })
}

pub fn alu_xor(a: u8, n: u8) -> (out: (u8, Flags))
    ensures
        out == xor8(a, n),
{
    let result: u8 = a ^ n;
    (result, Flags { zero: result == 0, subtract: false, half_carry: false, carry: false })
}

pub fn alu_inc(value: u8, flags: Flags) -> (out: (u8, Flags))
    ensures
        out == inc8(value, flags),
{
    let result: u8 = value.wrapping_add(1);
    (
        result,
        Flags {
            zero: result == 0,
            subtract: false,
            half_carry: half_carry_addition(value, 1, 0),
            carry: flags.carry,
        },
    )
}

pub fn alu_dec(value: u8, flags: Flags) -> (out: (u8, Flags))
    ensures
        out == dec8(value, flags),
{
    let result: u8 = value.wrapping_sub(1);
    (
        result,
        Flags {
            zero: result == 0,
            subtract: true,
            half_carry: half_carry_subtraction(value, 1, 0),
            carry: flags.carry,
        },
    )
}

pub fn alu_add_u16(first: u16, second: u16, flags: Flags) -> (out: (u16, Flags))
    ensures
        out == add16(first, second, flags),
{
    (
        first.wrapping_add(second),
        Flags {
            zero: flags.zero,
            subtract: false,
            half_carry: half_carry_addition_u16(first, second),
            carry: first > 0xFFFF - second,
        },
    )
}

pub fn alu_add_sp(sp: u16, n: u8) -> (out: (u16, Flags))
    ensures
        out == add_sp(sp, n),
{
    proof {
        lemma_low_bits16(sp, n as u16);
    }
    let wide: u16 = n as u16;
    (
        add_signed_u8_to_u16(sp, n),
        Flags {
            zero: false,
            subtract: false,
            half_carry: (sp & 0x000F) + (wide & 0x000F) > 0x000F,
            carry: (sp & 0x00FF) + (wide & 0x00FF) > 0x00FF,
        },
    )
}

pub fn alu_daa(a: u8, flags: Flags) -> (out: (u8, Flags))
    ensures
        out == daa(a, flags),
{
    proof {
        lemma_low_nibble(a, a);
    }
    let mut adjust: u8 = 0;
    if flags.half_carry || (!flags.subtract && (a & 0b1111) > 9) {
        adjust = 6;
    }
    if flags.carry || (!flags.subtract && a > 0x99) {
        adjust = adjust + 0x60;
    }
    let result: u8 = if flags.subtract {
        a.wrapping_sub(adjust)
    } else {
        a.wrapping_add(adjust)
    };
    (
        result,
        Flags {
            zero: result == 0,
            subtract: flags.subtract,
            half_carry: false,
            carry: adjust >= 0x60,
        },
    )
}

pub fn rotate_left_carry(value: u8) -> (out: (u8, Flags))
    ensures
        out == rlc(value),
{
    proof {
        lemma_shifts(value);
    }
    let out_bit: bool = value & 0b10000000 > 0;
    let result: u8 = if out_bit { (value << 1) | 1 } else { value << 1 };
    (result, Flags { zero: result == 0, subtract: false, half_carry: false, carry: out_bit })
}

pub fn rotate_left(value: u8, flags: Flags) -> (out: (u8, Flags))
    ensures
        out == rl(value, flags),
{
    proof {
        lemma_shifts(value);
    }
    let result: u8 = if flags.carry { (value << 1) | 1 } else { value << 1 };
    (
        result,
        Flags {
            zero: result == 0,
            subtract: false,
            half_carry: false,
            carry: value & 0b10000000 > 0,
        },
    )
}

pub fn rotate_right_carry(value: u8) -> (out: (u8, Flags))
    ensures
        out == rrc(value),
{
    proof {
        lemma_shifts(value);
    }
    let out_bit: bool = value & 0b00000001 > 0;
    let result: u8 = if out_bit { (value >> 1) | 0b10000000 } else { value >> 1 };
    (result, Flags { zero: result == 0, subtract: false, half_carry: false, carry: out_bit })
}

pub fn rotate_right(value: u8, flags: Flags) -> (out: (u8, Flags))
    ensures
        out == rr(value, flags),
{
    proof {
        lemma_shifts(value);
    }
    let result: u8 = if flags.carry { (value >> 1) | 0b10000000 } else { value >> 1 };
    (
        result,
        Flags {
            zero: result == 0,
            subtract: false,
            half_carry: false,
            carry: value & 0b00000001 > 0,
        },
    )
}

pub fn shift_left(value: u8) -> (out: (u8, Flags))
    ensures
        out == sla(value),
{
    proof {
        lemma_shifts(value);
    }
    let result: u8 = value << 1;
    (
        result,
        Flags {
            zero: result == 0,
            subtract: false,
            half_carry: false,
            carry: value & 0b10000000 > 0,
        },
    )
}

pub fn shift_right(value: u8) -> (out: (u8, Flags))
    ensures
        out == sra(value),
{
    proof {
        lemma_shifts(value);
    }
    let result: u8 = (value >> 1) | (value & 0b10000000);
    (
        result,
        Flags {
            zero: result == 0,
            subtract: false,
            half_carry: false,
            carry: value & 0b00000001 > 0,
        },
    )
}

pub fn shift_right_zero(value: u8) -> (out: (u8, Flags))
    ensures
        out == srl(value),
{
    proof {
        lemma_shifts(value);
    }
    let result: u8 = value >> 1;
    (
        result,
        Flags {
            zero: result == 0,
            subtract: false,
            half_carry: false,
            carry: value & 0b00000001 > 0,
        },
    )
}

pub fn swap_nibles(value: u8) -> (out: (u8, Flags))
    ensures
        out == swap(value),
{
    proof {
        lemma_shifts(value);
    }
    let result: u8 = (value >> 4) | (value << 4);
    (result, Flags { zero: result == 0, subtract: false, half_carry: false, carry: false })
}

pub fn test_bit(value: u8, bit: u8, flags: Flags) -> (out: Flags)
    requires
        bit < 8,
    ensures
        out == bit_flags(value, bit, flags),
{
    Flags {
        zero: value & (1u8 << bit) == 0,
        subtract: false,
        half_carry: true,
        carry: flags.carry,
    }
}

pub fn set_bit(value: u8, bit: u8) -> (out: u8)
    requires
        bit < 8,
    ensures
        out == with_bit_set(value, bit),
{
    value | (1u8 << bit)
}

pub fn reset_bit(value: u8, bit: u8) -> (out: u8)
    requires
        bit < 8,
    ensures
        out == with_bit_reset(value, bit),
{
    value & !(1u8 << bit)
}

/// Addition does not depend on the order of its operands.
pub proof fn lemma_add8_commutes(a: u8, n: u8, carry: bool)
    ensures
        add8(a, n, carry) == add8(n, a, carry),
{
}

/// The flags of an 8-bit subtraction tell how the operands compare: zero
/// exactly when they are equal, carry exactly when the first is the smaller.
pub proof fn lemma_sub8_compares(a: u8, n: u8)
    ensures
        sub8(a, n, false).1.zero <==> a == n,
        sub8(a, n, false).1.carry <==> a < n,
        add8(sub8(a, n, false).0, n, false).0 == a,
{
}

} // verus!
