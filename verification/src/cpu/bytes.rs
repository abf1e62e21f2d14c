//! Bytes and words as the processor counts with them: every result is cut to
//! the width of the register that takes it.

use vstd::prelude::*;

verus! {

/// `v` reduced to eight bits.
#[verifier::opaque]
pub open spec fn wrap8(v: int) -> u8 {
    (v % 256) as u8
}

/// `v` reduced to sixteen bits.
#[verifier::opaque]
pub open spec fn wrap16(v: int) -> u16 {
    (v % 65536) as u16
}

/// The two bytes `hi` and `lo` as one word.
#[verifier::opaque]
pub open spec fn word(hi: u8, lo: u8) -> u16 {
    (hi as int * 256 + lo as int) as u16
}

/// The upper eight bits of a word.
#[verifier::opaque]
pub open spec fn high_byte(w: u16) -> u8 {
    (w as int / 256) as u8
}

/// The lower eight bits of a word.
#[verifier::opaque]
pub open spec fn low_byte(w: u16) -> u8 {
    (w as int % 256) as u8
}

/// A byte read as a number in two's complement.
pub open spec fn signed(value: u8) -> int {
    if value >= 128 {
        value as int - 256
    } else {
        value as int
    }
}

/// The address after `addr` for a pointer that is read byte by byte: only the
/// low byte counts up, so the successor of the last byte of a page is the
/// first byte of the same page.
pub open spec fn next_in_page(addr: u16) -> u16 {
    word(high_byte(addr), wrap8(low_byte(addr) as int + 1))
}

/// Where a branch at `pc` with the offset byte `offset` leads.
pub open spec fn branch_target(pc: u16, offset: u8) -> u16 {
    wrap16(pc as int + signed(offset))
}

/// Whether two addresses lie in the same page of 256 bytes.
pub open spec fn same_page(a: u16, b: u16) -> bool {
    high_byte(a) == high_byte(b)
}

/// `value + 1`, reduced to eight bits.
pub fn inc8(value: u8) -> (r: u8)
    ensures
        r == wrap8(value as int + 1),
{
    proof {
        reveal(wrap8);
    }
    value.wrapping_add(1)
}

/// `value - 1`, reduced to eight bits.
pub fn dec8(value: u8) -> (r: u8)
    ensures
        r == wrap8(value as int - 1),
{
    proof {
        reveal(wrap8);
    }
    value.wrapping_sub(1)
}

/// `a + b`, reduced to eight bits.
pub fn add8(a: u8, b: u8) -> (r: u8)
    ensures
        r == wrap8(a as int + b as int),
{
    proof {
        reveal(wrap8);
    }
    a.wrapping_add(b)
}

/// `a - b`, reduced to eight bits.
pub fn sub8(a: u8, b: u8) -> (r: u8)
    ensures
        r == wrap8(a as int - b as int),
{
    proof {
        reveal(wrap8);
    }
    a.wrapping_sub(b)
}

/// `value + 1`, reduced to sixteen bits.
pub fn inc16(value: u16) -> (r: u16)
    ensures
        r == wrap16(value as int + 1),
{
    proof {
        reveal(wrap16);
    }
    value.wrapping_add(1)
}

/// `base + index`, reduced to sixteen bits.
pub fn add16(base: u16, index: u8) -> (r: u16)
    ensures
        r == wrap16(base as int + index as int),
{
    proof {
        reveal(wrap16);
    }
    base.wrapping_add(index as u16)
}

/// Puts a word together from its two bytes.
pub fn join_bytes(hi: u8, lo: u8) -> (w: u16)
    ensures
        w == word(hi, lo),
{
    proof {
        reveal(word);
    }
    (hi as u16) * 256 + (lo as u16)
}

/// The upper eight bits of a word.
pub fn upper(w: u16) -> (b: u8)
    ensures
        b == high_byte(w),
{
    proof {
        reveal(high_byte);
    }
    (w / 256) as u8
}

/// The lower eight bits of a word.
pub fn lower(w: u16) -> (b: u8)
    ensures
        b == low_byte(w),
{
    proof {
        reveal(low_byte);
    }
    (w % 256) as u8
}

/// The address after `addr` within its page.
pub fn successor_in_page(addr: u16) -> (next: u16)
    ensures
        next == next_in_page(addr),
{
    join_bytes(upper(addr), inc8(lower(addr)))
}

/// Where a branch at `pc` with the offset byte `offset` leads.
pub fn offset_address(pc: u16, offset: u8) -> (target: u16)
    ensures
        target == branch_target(pc, offset),
{
    proof {
        reveal(wrap16);
    }
    if offset < 0x80 {
        pc.wrapping_add(offset as u16)
    } else {
        pc.wrapping_sub(0x100 - offset as u16)
    }
}

/// A word is the two bytes that it splits into.
pub proof fn lemma_split_and_join(w: u16)
    ensures
        word(high_byte(w), low_byte(w)) == w,
{
    reveal(word);
    reveal(high_byte);
    reveal(low_byte);
}

} // verus!
