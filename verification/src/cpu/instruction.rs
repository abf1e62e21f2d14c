//! An instruction as the processor holds it: the operation and the addressing
//! mode that a code byte selects.

use vstd::prelude::*;
use super::addressing_mode::AddressingMode;
use super::opcode::Opcode;

verus! {

#[derive(Debug, Clone, Copy, PartialEq, Eq, Structural)]
pub struct Instruction {
    pub opcode: Opcode,
    pub addr_mode: AddressingMode,
}

impl Instruction {
    /// The instruction that a code byte selects.
    pub open spec fn decode(code: u8) -> Instruction {
        Instruction { opcode: Opcode::decode(code), addr_mode: AddressingMode::decode(code) }
    }

    /// Whether the addressing mode is one that the operation can be encoded
    /// with: a branch takes its offset from the instruction stream, a store
    /// or a read-modify-write needs an address, and so on.
    pub open spec fn is_coherent(self) -> bool {
        let mode = self.addr_mode;
        let op = self.opcode;
        if op.is_branch() {
            mode == AddressingMode::Immediate
        } else if op.is_store() {
            mode.is_memory()
        } else if op.is_modify() {
            mode.is_memory() || (mode == AddressingMode::Implied && op != Opcode::INC && op
                != Opcode::DEC && op != Opcode::DCP)
        } else if op == Opcode::NOP {
            mode.is_memory() || mode == AddressingMode::Immediate || mode == AddressingMode::Implied
        } else if op.is_read() {
            mode.is_memory() || mode == AddressingMode::Immediate
        } else if op == Opcode::JMP {
            mode == AddressingMode::AbsoluteLo || mode == AddressingMode::IndirectLo
        } else if op == Opcode::JSR {
            mode == AddressingMode::AbsoluteLo
        } else if op.is_implemented() {
            mode == AddressingMode::Implied
        } else {
            mode.is_memory() || mode == AddressingMode::Immediate
        }
    }

    /// The instruction that a processor holds before it has fetched any: the
    /// one that jams it.
    pub fn new() -> (instr: Instruction)
        ensures
            instr.opcode == Opcode::KIL,
            instr.addr_mode == AddressingMode::Implied,
    {
        Instruction { opcode: Opcode::KIL, addr_mode: AddressingMode::Implied }
    }

    /// Decodes a code byte.
    pub fn from_u8(code: u8) -> (instr: Instruction)
        ensures
            instr == Instruction::decode(code),
            instr.is_coherent(),
    {
        proof {
            Instruction::lemma_decode_is_coherent(code);
        }
        Instruction { opcode: Opcode::from_u8(code), addr_mode: AddressingMode::from_u8(code) }
    }

    /// The two decoding tables agree: every code byte selects an operation
    /// together with an addressing mode that the operation can have.
    pub proof fn lemma_decode_is_coherent(code: u8)
        ensures
            Instruction::decode(code).is_coherent(),
            Instruction::decode(code).addr_mode.is_entry(),
    {
        reveal(Opcode::decode);
        reveal(AddressingMode::decode);
    }
}

} // verus!
