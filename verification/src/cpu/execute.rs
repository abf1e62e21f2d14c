//! What each operation does to the registers, apart from the bus traffic
//! that brings its operand.

use vstd::prelude::*;
use super::alu::{
    adc, add_with_carry, arr, asl, bit, bit_test, lsr, rol, ror, rotate_left, rotate_right,
    rotate_right_mixed, sbc, shift_left, shift_right, subtract_with_borrow,
};
use super::bytes::{dec8, inc8, sub8, wrap8};
use super::opcode::Opcode;
use super::status_register::StatusRegister;
use super::Cpu;

verus! {

/// What a read-modify-write operation makes of the byte `m`: the byte to
/// write back and the flags.
#[verifier::opaque]
pub open spec fn modified(op: Opcode, m: u8, a: u8, sr: StatusRegister) -> (u8, StatusRegister) {
    match op {
        Opcode::ASL => shift_left(m, sr),
        Opcode::LSR => shift_right(m, sr),
        Opcode::ROL => rotate_left(m, sr),
        Opcode::ROR => rotate_right(m, sr),
        Opcode::INC => (wrap8(m as int + 1), sr.with_result(wrap8(m as int + 1))),
        Opcode::DEC => (wrap8(m as int - 1), sr.with_result(wrap8(m as int - 1))),
        Opcode::DCP => (wrap8(m as int - 1), sr.compared(a, wrap8(m as int - 1))),
        _ => (m, sr),
    }
}

/// Carries out a read-modify-write operation on the byte `m`.
pub fn modify(op: Opcode, m: u8, a: u8, sr: StatusRegister) -> (out: (u8, StatusRegister))
    ensures
        out == modified(op, m, a, sr),
{
    proof {
        reveal(modified);
    }
    match op {
        Opcode::ASL => asl(m, sr),
        Opcode::LSR => lsr(m, sr),
        Opcode::ROL => rol(m, sr),
        Opcode::ROR => ror(m, sr),
        Opcode::INC => (inc8(m), with_result(sr, inc8(m))),
        Opcode::DEC => (dec8(m), with_result(sr, dec8(m))),
        Opcode::DCP => (dec8(m), compared(sr, a, dec8(m))),
        _ => (m, sr),
    }
}

/// Whether the flags meet the condition of the branch `op`.
pub open spec fn condition_holds(op: Opcode, sr: StatusRegister) -> bool {
    match op {
        Opcode::BCC => !sr.carry,
        Opcode::BCS => sr.carry,
        Opcode::BEQ => sr.zero_result,
        Opcode::BNE => !sr.zero_result,
        Opcode::BMI => sr.negative,
        Opcode::BPL => !sr.negative,
        Opcode::BVC => !sr.overflow,
        Opcode::BVS => sr.overflow,
        _ => false,
    }
}

/// The flags after the result `value` of an operation has set N and Z.
fn with_result(sr: StatusRegister, value: u8) -> (flags: StatusRegister)
    ensures
        flags == sr.with_result(value),
{
    let mut flags = sr;
    flags.determine_zero(value);
    flags.determine_negative(value);
    flags
}

/// The flags after `a` has been compared with `b`.
fn compared(sr: StatusRegister, a: u8, b: u8) -> (flags: StatusRegister)
    ensures
        flags == sr.compared(a, b),
{
    let mut flags = sr;
    flags.compare(&a, &b);
    flags
}

impl Cpu {
    /// The processor with `value` loaded into A and N, Z set from it.
    pub open spec fn with_a(self, value: u8) -> Cpu {
        Cpu { a: value, sr: self.sr.with_result(value), ..self }
    }

    /// The processor with `value` loaded into X and N, Z set from it.
    pub open spec fn with_x(self, value: u8) -> Cpu {
        Cpu { x: value, sr: self.sr.with_result(value), ..self }
    }

    /// The processor with `value` loaded into Y and N, Z set from it.
    pub open spec fn with_y(self, value: u8) -> Cpu {
        Cpu { y: value, sr: self.sr.with_result(value), ..self }
    }

    /// The registers after the current operation, a read, has taken the
    /// operand `m`.
    #[verifier::opaque]
    pub open spec fn after_read(self, m: u8) -> Cpu {
        match self.curr_instr.opcode {
            Opcode::ADC => {
                let r = add_with_carry(self.a, m, self.sr);
                Cpu { a: r.0, sr: r.1, ..self }
            },
            Opcode::SBC => {
                let r = subtract_with_borrow(self.a, m, self.sr);
                Cpu { a: r.0, sr: r.1, ..self }
            },
            Opcode::AND => self.with_a(self.a & m),
            Opcode::ORA => self.with_a(self.a | m),
            Opcode::EOR => self.with_a(self.a ^ m),
            Opcode::BIT => Cpu { sr: bit_test(self.a, m, self.sr), ..self },
            Opcode::CMP => Cpu { sr: self.sr.compared(self.a, m), ..self },
            Opcode::CPX => Cpu { sr: self.sr.compared(self.x, m), ..self },
            Opcode::CPY => Cpu { sr: self.sr.compared(self.y, m), ..self },
            Opcode::LDA => self.with_a(m),
            Opcode::LDX => self.with_x(m),
            Opcode::LDY => self.with_y(m),
            Opcode::LAX => Cpu { a: m, x: m, sr: self.sr.with_result(m), ..self },
            Opcode::ALR => {
                let r = shift_right(self.a & m, self.sr);
                Cpu { a: r.0, sr: r.1, ..self }
            },
            Opcode::ANC => {
                let t = self.a & m;
                Cpu { a: t, sr: StatusRegister { carry: t >= 128, ..self.sr.with_result(t) }, ..self }
            },
            Opcode::ARR => {
                let r = rotate_right_mixed(self.a & m, self.sr);
                Cpu { a: r.0, sr: r.1, ..self }
            },
            Opcode::AXS => {
                let t = self.a & self.x;
                let r = wrap8(t as int - m as int);
                Cpu { x: r, sr: StatusRegister { carry: t >= m, ..self.sr.with_result(r) }, ..self }
            },
            _ => self,
        }
    }

    /// The byte that the current operation, a store, writes.
    #[verifier::opaque]
    pub open spec fn store_value(self) -> u8 {
        match self.curr_instr.opcode {
            Opcode::STA => self.a,
            Opcode::STX => self.x,
            Opcode::STY => self.y,
            Opcode::SAX => self.a & self.x,
            _ => self.data_bus,
        }
    }

    /// Whether the current operation, a branch, finds its condition met.
    pub open spec fn branch_taken(self) -> bool {
        condition_holds(self.curr_instr.opcode, self.sr)
    }

    /// The registers after the current operation, one that needs no operand
    /// and no bus transaction of its own: flag changes, transfers, counting
    /// in X and Y, and shifts of the accumulator.
    #[verifier::opaque]
    pub open spec fn after_register_op(self) -> Cpu {
        let sr = self.sr;
        match self.curr_instr.opcode {
            Opcode::ASL | Opcode::LSR | Opcode::ROL | Opcode::ROR => {
                let r = modified(self.curr_instr.opcode, self.a, self.a, sr);
                Cpu { a: r.0, sr: r.1, ..self }
            },
            Opcode::CLC => Cpu { sr: StatusRegister { carry: false, ..sr }, ..self },
            Opcode::CLD => Cpu { sr: StatusRegister { decimal: false, ..sr }, ..self },
            Opcode::CLI => Cpu { sr: StatusRegister { int_disable: false, ..sr }, ..self },
            Opcode::CLV => Cpu { sr: StatusRegister { overflow: false, ..sr }, ..self },
            Opcode::SEC => Cpu { sr: StatusRegister { carry: true, ..sr }, ..self },
            Opcode::SED => Cpu { sr: StatusRegister { decimal: true, ..sr }, ..self },
            Opcode::SEI => Cpu { sr: StatusRegister { int_disable: true, ..sr }, ..self },
            Opcode::DEX => self.with_x(wrap8(self.x as int - 1)),
            Opcode::DEY => self.with_y(wrap8(self.y as int - 1)),
            Opcode::INX => self.with_x(wrap8(self.x as int + 1)),
            Opcode::INY => self.with_y(wrap8(self.y as int + 1)),
            Opcode::TAX => self.with_x(self.a),
            Opcode::TAY => self.with_y(self.a),
            Opcode::TSX => self.with_x(self.sp),
            Opcode::TXA => self.with_a(self.x),
            Opcode::TYA => self.with_a(self.y),
            Opcode::TXS => Cpu { sp: self.x, ..self },
            _ => self,
        }
    }

    /// Carries out the current operation, a read, on the operand `m`.
    pub(super) fn execute_read(self, m: u8) -> (next: Cpu)
        ensures
            next == self.after_read(m),
    {
        proof {
            reveal(Cpu::after_read);
        }
        let a = self.a;
        let x = self.x;
        let y = self.y;
        let sr = self.sr;
        match self.curr_instr.opcode {
            Opcode::ADC => {
                let (result, flags) = adc(a, m, sr);
                Cpu { a: result, sr: flags, ..self }
            },
            Opcode::SBC => {
                let (result, flags) = sbc(a, m, sr);
                Cpu { a: result, sr: flags, ..self }
            },
            Opcode::AND => Cpu { a: a & m, sr: with_result(sr, a & m), ..self },
            Opcode::ORA => Cpu { a: a | m, sr: with_result(sr, a | m), ..self },
            Opcode::EOR => Cpu { a: a ^ m, sr: with_result(sr, a ^ m), ..self },
            Opcode::BIT => Cpu { sr: bit(a, m, sr), ..self },
            Opcode::CMP => Cpu { sr: compared(sr, a, m), ..self },
            Opcode::CPX => Cpu { sr: compared(sr, x, m), ..self },
            Opcode::CPY => Cpu { sr: compared(sr, y, m), ..self },
            Opcode::LDA => Cpu { a: m, sr: with_result(sr, m), ..self },
            Opcode::LDX => Cpu { x: m, sr: with_result(sr, m), ..self },
            Opcode::LDY => Cpu { y: m, sr: with_result(sr, m), ..self },
            Opcode::LAX => Cpu { a: m, x: m, sr: with_result(sr, m), ..self },
            Opcode::ALR => {
                let (result, flags) = lsr(a & m, sr);
                Cpu { a: result, sr: flags, ..self }
            },
            Opcode::ANC => {
                let mut flags = with_result(sr, a & m);
                flags.carry = flags.negative;
                Cpu { a: a & m, sr: flags, ..self }
            },
            Opcode::ARR => {
                let (result, flags) = arr(a & m, sr);
                Cpu { a: result, sr: flags, ..self }
            },
            Opcode::AXS => {
                let t = a & x;
                let result = sub8(t, m);
                let mut flags = with_result(sr, result);
                flags.carry = t >= m;
                Cpu { x: result, sr: flags, ..self }
            },
            _ => self,
        }
    }

    /// The byte that the current operation, a store, writes.
    pub(super) fn value_to_store(&self) -> (value: u8)
        ensures
            value == self.store_value(),
    {
        proof {
            reveal(Cpu::store_value);
        }
        match self.curr_instr.opcode {
            Opcode::STA => self.a,
            Opcode::STX => self.x,
            Opcode::STY => self.y,
            Opcode::SAX => self.a & self.x,
            _ => self.data_bus,
        }
    }

    /// Whether the current operation, a branch, finds its condition met.
    pub(super) fn takes_branch(&self) -> (taken: bool)
        ensures
            taken == self.branch_taken(),
    {
        match self.curr_instr.opcode {
            Opcode::BCC => !self.sr.carry,
            Opcode::BCS => self.sr.carry,
            Opcode::BEQ => self.sr.zero_result,
            Opcode::BNE => !self.sr.zero_result,
            Opcode::BMI => self.sr.negative,
            Opcode::BPL => !self.sr.negative,
            Opcode::BVC => !self.sr.overflow,
            Opcode::BVS => self.sr.overflow,
            _ => false,
        }
    }

    /// Carries out the current operation, one that works on the registers alone.
    pub(super) fn execute_register_op(self) -> (next: Cpu)
        ensures
            next == self.after_register_op(),
    {
        proof {
            reveal(Cpu::after_register_op);
        }
        let a = self.a;
        let x = self.x;
        let y = self.y;
        let sr = self.sr;
        match self.curr_instr.opcode {
            Opcode::ASL | Opcode::LSR | Opcode::ROL | Opcode::ROR => {
                let (result, flags) = modify(self.curr_instr.opcode, a, a, sr);
                Cpu { a: result, sr: flags, ..self }
            },
            Opcode::CLC => Cpu { sr: StatusRegister { carry: false, ..sr }, ..self },
            Opcode::CLD => Cpu { sr: StatusRegister { decimal: false, ..sr }, ..self },
            Opcode::CLI => Cpu { sr: StatusRegister { int_disable: false, ..sr }, ..self },
            Opcode::CLV => Cpu { sr: StatusRegister { overflow: false, ..sr }, ..self },
            Opcode::SEC => Cpu { sr: StatusRegister { carry: true, ..sr }, ..self },
            Opcode::SED => Cpu { sr: StatusRegister { decimal: true, ..sr }, ..self },
            Opcode::SEI => Cpu { sr: StatusRegister { int_disable: true, ..sr }, ..self },
            Opcode::DEX => Cpu { x: dec8(x), sr: with_result(sr, dec8(x)), ..self },
            Opcode::DEY => Cpu { y: dec8(y), sr: with_result(sr, dec8(y)), ..self },
            Opcode::INX => Cpu { x: inc8(x), sr: with_result(sr, inc8(x)), ..self },
            Opcode::INY => Cpu { y: inc8(y), sr: with_result(sr, inc8(y)), ..self },
            Opcode::TAX => Cpu { x: a, sr: with_result(sr, a), ..self },
            Opcode::TAY => Cpu { y: a, sr: with_result(sr, a), ..self },
            Opcode::TSX => Cpu { x: self.sp, sr: with_result(sr, self.sp), ..self },
            Opcode::TXA => Cpu { a: x, sr: with_result(sr, x), ..self },
            Opcode::TYA => Cpu { a: y, sr: with_result(sr, y), ..self },
            Opcode::TXS => Cpu { sp: x, ..self },
            _ => self,
        }
    }
}

} // verus!
