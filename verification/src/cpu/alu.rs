//! The arithmetic and logic of the 6510. Each operation is stated over the
//! numbers that the bytes stand for and carried out on the bytes themselves.

use vstd::prelude::*;
use super::bytes::{signed, wrap8};
use super::status_register::StatusRegister;

verus! {

/// The carry flag as a number.
pub open spec fn carry_in(sr: StatusRegister) -> int {
    if sr.carry {
        1
    } else {
        0
    }
}

/// Whether a number fits a signed byte.
pub open spec fn fits_signed(v: int) -> bool {
    -128 <= v <= 127
}

/// Whether bit `n` of `value` is set, for `n` below 8.
#[verifier::opaque]
pub open spec fn bit_is_set(value: u8, n: nat) -> bool {
    if n == 0 {
        value as int % 2 == 1
    } else if n == 5 {
        value as int / 32 % 2 == 1
    } else if n == 6 {
        value as int / 64 % 2 == 1
    } else {
        value >= 128
    }
}

/// `a + m + C`: the sum in A, the carry out of bit 7 in C, and V set when the
/// signed sum does not fit a byte.
#[verifier::opaque]
pub open spec fn add_with_carry(a: u8, m: u8, sr: StatusRegister) -> (u8, StatusRegister) {
    let sum = a as int + m as int + carry_in(sr);
    let result = wrap8(sum);
    (
        result,
        StatusRegister {
            carry: sum > 255,
            overflow: !fits_signed(signed(a) + signed(m) + carry_in(sr)),
            ..sr
        }.with_result(result),
    )
}

/// `a - m - (1 - C)`: the difference in A, C set when no borrow was needed,
/// and V set when the signed difference does not fit a byte.
#[verifier::opaque]
pub open spec fn subtract_with_borrow(a: u8, m: u8, sr: StatusRegister) -> (u8, StatusRegister) {
    let difference = a as int - m as int - (1 - carry_in(sr));
    let result = wrap8(difference);
    (
        result,
        StatusRegister {
            carry: difference >= 0,
            overflow: !fits_signed(signed(a) - signed(m) - (1 - carry_in(sr))),
            ..sr
        }.with_result(result),
    )
}

/// One place to the left: bit 7 goes to C, a zero comes in.
#[verifier::opaque]
pub open spec fn shift_left(m: u8, sr: StatusRegister) -> (u8, StatusRegister) {
    let result = wrap8(m as int * 2);
    (result, StatusRegister { carry: m >= 128, ..sr }.with_result(result))
}

/// One place to the right: bit 0 goes to C, a zero comes in.
#[verifier::opaque]
pub open spec fn shift_right(m: u8, sr: StatusRegister) -> (u8, StatusRegister) {
    let result = (m as int / 2) as u8;
    (result, StatusRegister { carry: m as int % 2 == 1, ..sr }.with_result(result))
}

/// One place to the left through C: bit 7 goes to C, the old C comes in.
#[verifier::opaque]
pub open spec fn rotate_left(m: u8, sr: StatusRegister) -> (u8, StatusRegister) {
    let result = wrap8(m as int * 2 + carry_in(sr));
    (result, StatusRegister { carry: m >= 128, ..sr }.with_result(result))
}

/// One place to the right through C: bit 0 goes to C, the old C comes in.
#[verifier::opaque]
pub open spec fn rotate_right(m: u8, sr: StatusRegister) -> (u8, StatusRegister) {
    let result = (m as int / 2 + 128 * carry_in(sr)) as u8;
    (result, StatusRegister { carry: m as int % 2 == 1, ..sr }.with_result(result))
}

/// BIT: Z tells whether `a` and `m` share a set bit, N and V copy bits 7 and
/// 6 of `m`.
pub open spec fn bit_test(a: u8, m: u8, sr: StatusRegister) -> StatusRegister {
    StatusRegister { zero_result: a & m == 0, negative: m >= 128, overflow: bit_is_set(m, 6), ..sr }
}

/// ARR: `t` rotated right through C; afterwards C copies bit 6 of the result
/// and V tells whether bits 6 and 5 differ.
#[verifier::opaque]
pub open spec fn rotate_right_mixed(t: u8, sr: StatusRegister) -> (u8, StatusRegister) {
    let result = (t as int / 2 + 128 * carry_in(sr)) as u8;
    (
        result,
        StatusRegister {
            carry: bit_is_set(result, 6),
            overflow: bit_is_set(result, 6) != bit_is_set(result, 5),
            ..sr
        }.with_result(result),
    )
}

/// Facts that tie the bit operations of the processor to arithmetic.
pub proof fn lemma_bits(a: u8, m: u8, r: u8)
    ensures
        (!(a ^ m) & (a ^ r) & 0x80 != 0) == ((a >= 128) == (m >= 128) && (r >= 128) != (a >= 128)),
        m << 1 == (m * 2) % 256,
        m >> 1 == m / 2,
        (m & 1 != 0) == (m % 2 == 1),
        (m & 0x40 != 0) == (m / 64 % 2 == 1),
        (m & 0x20 != 0) == (m / 32 % 2 == 1),
        (m >> 1) | 0x80 == m / 2 + 128,
        (m << 1) | 1 == (m * 2) % 256 + 1,
        !m == 255 - m,
{
    assert({
        &&& (!(a ^ m) & (a ^ r) & 0x80 != 0) == ((a >= 128) == (m >= 128) && (r >= 128) != (a
            >= 128))
        &&& m << 1 == (m * 2) % 256
        &&& m >> 1 == m / 2
        &&& (m & 1 != 0) == (m % 2 == 1)
        &&& (m & 0x40 != 0) == (m / 64 % 2 == 1)
        &&& (m & 0x20 != 0) == (m / 32 % 2 == 1)
        &&& (m >> 1) | 0x80 == m / 2 + 128
        &&& (m << 1) | 1 == (m * 2) % 256 + 1
        &&& !m == 255 - m
    }) by (bit_vector);
}

pub fn adc(a: u8, m: u8, sr: StatusRegister) -> (out: (u8, StatusRegister))
    ensures
        out == add_with_carry(a, m, sr),
{
    proof {
        reveal(wrap8);
        reveal(add_with_carry);
    }
    let carry: u16 = if sr.carry {
        1
    } else {
        0
    };
    let sum: u16 = a as u16 + m as u16 + carry;
    let result: u8 = (sum % 256) as u8;
    proof {
        lemma_bits(a, m, result);
    }
    let mut flags = sr;
    flags.carry = sum > 0xff;
    flags.overflow = (!(a ^ m) & (a ^ result) & 0x80) != 0;
    flags.determine_zero(result);
    flags.determine_negative(result);
    (result, flags)
}

pub fn sbc(a: u8, m: u8, sr: StatusRegister) -> (out: (u8, StatusRegister))
    ensures
        out == subtract_with_borrow(a, m, sr),
{
    proof {
        reveal(wrap8);
        reveal(add_with_carry);
        reveal(subtract_with_borrow);
    }
    proof {
        lemma_bits(a, m, 0);
    }
    let complement: u8 = !m;
    let (result, flags) = adc(a, complement, sr);
    (result, flags)
}

pub fn asl(m: u8, sr: StatusRegister) -> (out: (u8, StatusRegister))
    ensures
        out == shift_left(m, sr),
{
    proof {
        reveal(wrap8);
        reveal(shift_left);
    }
    proof {
        lemma_bits(0, m, 0);
    }
    let result: u8 = m << 1;
    let mut flags = sr;
    flags.determine_carry(m);
    flags.determine_zero(result);
    flags.determine_negative(result);
    (result, flags)
}

pub fn lsr(m: u8, sr: StatusRegister) -> (out: (u8, StatusRegister))
    ensures
        out == shift_right(m, sr),
{
    proof {
        reveal(shift_right);
    }
    proof {
        lemma_bits(0, m, 0);
    }
    let result: u8 = m >> 1;
    let mut flags = sr;
    flags.carry = m & 1 != 0;
    flags.determine_zero(result);
    flags.determine_negative(result);
    (result, flags)
}

pub fn rol(m: u8, sr: StatusRegister) -> (out: (u8, StatusRegister))
    ensures
        out == rotate_left(m, sr),
{
    proof {
        reveal(wrap8);
        reveal(rotate_left);
    }
    proof {
        lemma_bits(0, m, 0);
    }
    let result: u8 = if sr.carry {
        (m << 1) | 1
    } else {
        m << 1
    };
    let mut flags = sr;
    flags.determine_carry(m);
    flags.determine_zero(result);
    flags.determine_negative(result);
    (result, flags)
}

pub fn ror(m: u8, sr: StatusRegister) -> (out: (u8, StatusRegister))
    ensures
        out == rotate_right(m, sr),
{
    proof {
        reveal(rotate_right);
    }
    proof {
        lemma_bits(0, m, 0);
    }
    let result: u8 = if sr.carry {
        (m >> 1) | 0x80
    } else {
        m >> 1
    };
    let mut flags = sr;
    flags.carry = m & 1 != 0;
    flags.determine_zero(result);
    flags.determine_negative(result);
    (result, flags)
}

pub fn bit(a: u8, m: u8, sr: StatusRegister) -> (flags: StatusRegister)
    ensures
        flags == bit_test(a, m, sr),
{
    proof {
        reveal(bit_is_set);
    }
    proof {
        lemma_bits(0, m, 0);
    }
    let mut flags = sr;
    flags.determine_zero(a & m);
    flags.determine_negative(m);
    flags.overflow = m & 0x40 != 0;
    flags
}

pub fn arr(t: u8, sr: StatusRegister) -> (out: (u8, StatusRegister))
    ensures
        out == rotate_right_mixed(t, sr),
{
    proof {
        reveal(bit_is_set);
        reveal(rotate_right_mixed);
    }
    proof {
        lemma_bits(0, t, 0);
    }
    let result: u8 = if sr.carry {
        (t >> 1) | 0x80
    } else {
        t >> 1
    };
    proof {
        lemma_bits(0, result, 0);
    }
    let mut flags = sr;
    flags.carry = result & 0x40 != 0;
    flags.overflow = (result & 0x40 != 0) != (result & 0x20 != 0);
    flags.determine_zero(result);
    flags.determine_negative(result);
    (result, flags)
}

} // verus!
