//! The processor status register: eight condition flags and their packed form.

use vstd::prelude::*;

verus! {

/// The flags of the processor, from bit 7 down to bit 0 of the packed byte:
/// N, V, the unused bit, B, D, I, Z, C.
#[derive(Debug, Clone, Copy, PartialEq, Eq, Structural)]
pub struct StatusRegister {
    pub negative: bool,
    pub overflow: bool,
    pub expansion: bool,
    pub break_cmd: bool,
    pub decimal: bool,
    pub int_disable: bool,
    pub zero_result: bool,
    pub carry: bool,
}

/// The weight that a flag contributes to the packed byte.
pub open spec fn flag_weight(flag: bool, weight: int) -> int {
    if flag {
        weight
    } else {
        0
    }
}

/// The difference `a - b` as the 8-bit subtractor delivers it.
#[verifier::opaque]
pub open spec fn byte_difference(a: u8, b: u8) -> u8 {
    ((a as int - b as int) % 256) as u8
}

impl StatusRegister {
    /// The register with every flag clear.
    pub open spec fn cleared() -> StatusRegister {
        StatusRegister {
            negative: false,
            overflow: false,
            expansion: false,
            break_cmd: false,
            decimal: false,
            int_disable: false,
            zero_result: false,
            carry: false,
        }
    }

    /// The packed byte. Bit 5 has no flip-flop behind it and always reads as set.
    pub open spec fn packed(self) -> u8 {
        (flag_weight(self.negative, 128) + flag_weight(self.overflow, 64) + 32 + flag_weight(
            self.break_cmd,
            16,
        ) + flag_weight(self.decimal, 8) + flag_weight(self.int_disable, 4) + flag_weight(
            self.zero_result,
            2,
        ) + flag_weight(self.carry, 1)) as u8
    }

    /// The flags that a packed byte holds.
    #[verifier::opaque]
    pub open spec fn unpacked(value: u8) -> StatusRegister {
        StatusRegister {
            negative: value as int / 128 % 2 == 1,
            overflow: value as int / 64 % 2 == 1,
            expansion: value as int / 32 % 2 == 1,
            break_cmd: value as int / 16 % 2 == 1,
            decimal: value as int / 8 % 2 == 1,
            int_disable: value as int / 4 % 2 == 1,
            zero_result: value as int / 2 % 2 == 1,
            carry: value as int % 2 == 1,
        }
    }

    /// The register after the result `value` of an operation has set N and Z.
    pub open spec fn with_result(self, value: u8) -> StatusRegister {
        StatusRegister { negative: value >= 128, zero_result: value == 0, ..self }
    }

    /// The register after `a` has been compared with `b`: C is set when no
    /// borrow was needed, Z when the two are equal, N from bit 7 of the
    /// difference.
    pub open spec fn compared(self, a: u8, b: u8) -> StatusRegister {
        StatusRegister {
            negative: byte_difference(a, b) >= 128,
            zero_result: a == b,
            carry: a >= b,
            ..self
        }
    }

    pub fn new() -> (sr: StatusRegister)
        ensures
            sr == StatusRegister::cleared(),
    {
        StatusRegister {
            negative: false,
            overflow: false,
            expansion: false,
            break_cmd: false,
            decimal: false,
            int_disable: false,
            zero_result: false,
            carry: false,
        }
    }

    /// Loads every flag from a packed byte.
    pub fn from_u8(&mut self, value: u8)
        ensures
            *final(self) == StatusRegister::unpacked(value),
            final(self).packed() == value | 0x20,
    {
        self.negative = value & 128 == 128;
        self.overflow = value & 64 == 64;
        self.expansion = value & 32 == 32;
        self.break_cmd = value & 16 == 16;
        self.decimal = value & 8 == 8;
        self.int_disable = value & 4 == 4;
        self.zero_result = value & 2 == 2;
        self.carry = value & 1 == 1;
        proof {
            reveal(StatusRegister::unpacked);
            assert({
                &&& (value & 128 == 128) == (value / 128 % 2 == 1)
                &&& (value & 64 == 64) == (value / 64 % 2 == 1)
                &&& (value & 32 == 32) == (value / 32 % 2 == 1)
                &&& (value & 16 == 16) == (value / 16 % 2 == 1)
                &&& (value & 8 == 8) == (value / 8 % 2 == 1)
                &&& (value & 4 == 4) == (value / 4 % 2 == 1)
                &&& (value & 2 == 2) == (value / 2 % 2 == 1)
                &&& (value & 1 == 1) == (value % 2 == 1)
            }) by (bit_vector);
            StatusRegister::lemma_unpack_then_pack(value);
        }
    }

    /// The packed byte, with bit 5 set.
    pub fn to_u8(&self) -> (value: u8)
        ensures
            value == self.packed(),
            value & 0x20 == 0x20,
    {
        let mut val: u8 = 32;
        if self.negative {
            val += 128;
        }
        if self.overflow {
            val += 64;
        }
        if self.break_cmd {
            val += 16;
        }
        if self.decimal {
            val += 8;
        }
        if self.int_disable {
            val += 4;
        }
        if self.zero_result {
            val += 2;
        }
        if self.carry {
            val += 1;
        }
        proof {
            StatusRegister::lemma_pack_then_unpack(*self);
            let packed = self.packed();
            assert((packed / 32 % 2 == 1) ==> packed & 0x20 == 0x20) by (bit_vector);
        }
        val
    }

    /// Compares `a` with `b` and records the outcome in N, Z and C.
    pub fn compare(&mut self, a: &u8, b: &u8)
        ensures
            *final(self) == old(self).compared(*a, *b),
    {
        proof {
            reveal(byte_difference);
        }
        let diff = a.wrapping_sub(*b);
        self.negative = diff >= 0x80;
        self.zero_result = *a == *b;
        self.carry = *a >= *b;
    }

    /// Sets Z when `value` is zero and clears it otherwise.
    pub fn determine_zero(&mut self, value: u8)
        ensures
            *final(self) == (StatusRegister { zero_result: value == 0, ..*old(self) }),
    {
        self.zero_result = value == 0;
    }

    /// Copies bit 7 of `value` into N.
    pub fn determine_negative(&mut self, value: u8)
        ensures
            *final(self) == (StatusRegister { negative: value >= 128, ..*old(self) }),
    {
        self.negative = value >= 0x80;
    }

    /// Copies bit 7 of `value`, the bit that a left shift pushes out, into C.
    pub fn determine_carry(&mut self, value: u8)
        ensures
            *final(self) == (StatusRegister { carry: value >= 128, ..*old(self) }),
    {
        self.carry = value >= 0x80;
    }

    /// Unpacking a byte and packing it again gives the byte with bit 5 set.
    pub proof fn lemma_unpack_then_pack(value: u8)
        ensures
            StatusRegister::unpacked(value).packed() == value | 0x20,
    {
        reveal(StatusRegister::unpacked);
        let v = value;
        assert((if v / 128 % 2 == 1 { 128int } else { 0 }) + (if v / 64 % 2 == 1 { 64int } else { 0 })
            + 32 + (if v / 16 % 2 == 1 { 16int } else { 0 }) + (if v / 8 % 2 == 1 { 8int } else { 0 })
            + (if v / 4 % 2 == 1 { 4int } else { 0 }) + (if v / 2 % 2 == 1 { 2int } else { 0 })
            + (if v % 2 == 1 { 1int } else { 0 }) == (v | 0x20)) by (bit_vector);
    }

    /// Packing a register and unpacking the byte gives the register back,
    /// but for the unused bit, which comes back set.
    pub proof fn lemma_pack_then_unpack(sr: StatusRegister)
        ensures
            StatusRegister::unpacked(sr.packed()) == (StatusRegister { expansion: true, ..sr }),
    {
        reveal(StatusRegister::unpacked);
    }
}

} // verus!
