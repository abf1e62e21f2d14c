//! The operations of the 6510 and the code byte that selects each.

use vstd::prelude::*;

verus! {

/// An operation of the processor, named by its mnemonic.
#[derive(Debug, Clone, Copy, PartialEq, Eq, Structural)]
pub enum Opcode {
    /// Add with carry.
    ADC,
    /// And with the accumulator.
    AND,
    /// Arithmetic shift left.
    ASL,
    /// Branch if carry clear.
    BCC,
    /// Branch if carry set.
    BCS,
    /// Branch if zero.
    BEQ,
    /// Test bits.
    BIT,
    /// Branch if negative.
    BMI,
    /// Branch if not zero.
    BNE,
    /// Branch if positive.
    BPL,
    /// Software interrupt.
    BRK,
    /// Branch if overflow clear.
    BVC,
    /// Branch if overflow set.
    BVS,
    /// Clear carry.
    CLC,
    /// Clear decimal.
    CLD,
    /// Clear interrupt disable.
    CLI,
    /// Clear overflow.
    CLV,
    /// Compare with the accumulator.
    CMP,
    /// Compare with X.
    CPX,
    /// Compare with Y.
    CPY,
    /// Decrement memory.
    DEC,
    /// Decrement X.
    DEX,
    /// Decrement Y.
    DEY,
    /// Exclusive or with the accumulator.
    EOR,
    /// Increment memory.
    INC,
    /// Increment X.
    INX,
    /// Increment Y.
    INY,
    /// Jump.
    JMP,
    /// Jump to subroutine.
    JSR,
    /// Load the accumulator.
    LDA,
    /// Load X.
    LDX,
    /// Load Y.
    LDY,
    /// Logical shift right.
    LSR,
    /// No operation.
    NOP,
    /// Or with the accumulator.
    ORA,
    /// Push the accumulator.
    PHA,
    /// Push the status register.
    PHP,
    /// Pull the accumulator.
    PLA,
    /// Pull the status register.
    PLP,
    /// Rotate left through carry.
    ROL,
    /// Rotate right through carry.
    ROR,
    /// Return from interrupt.
    RTI,
    /// Return from subroutine.
    RTS,
    /// Subtract with borrow.
    SBC,
    /// Set carry.
    SEC,
    /// Set decimal.
    SED,
    /// Set interrupt disable.
    SEI,
    /// Store the accumulator.
    STA,
    /// Store X.
    STX,
    /// Store Y.
    STY,
    /// Transfer A to X.
    TAX,
    /// Transfer A to Y.
    TAY,
    /// Transfer SP to X.
    TSX,
    /// Transfer X to A.
    TXA,
    /// Transfer X to SP.
    TXS,
    /// Transfer Y to A.
    TYA,
    // Undocumented operations that the processor carries out.
    /// And, then shift right.
    ALR,
    /// And, then copy N into C.
    ANC,
    /// And, then rotate right.
    ARR,
    /// X becomes (A and X) minus the operand.
    AXS,
    /// Decrement memory, then compare.
    DCP,
    /// Load A and X.
    LAX,
    /// Store A and X.
    SAX,
    /// Jam the processor.
    KIL,
    // Undocumented operations that are decoded and not carried out.
    AHX,
    ISC,
    LAS,
    RLA,
    RRA,
    SHX,
    SHY,
    SLO,
    SRE,
    TAS,
    XAA,
}

impl Opcode {
    /// The operation that a code byte selects.
    #[verifier::opaque]
    pub open spec fn decode(code: u8) -> Opcode {
        match code {
            0x00 => Opcode::BRK,
            0x01 => Opcode::ORA,
            0x02 => Opcode::KIL,
            0x03 => Opcode::SLO,
            0x04 => Opcode::NOP,
            0x05 => Opcode::ORA,
            0x06 => Opcode::ASL,
            0x07 => Opcode::SLO,
            0x08 => Opcode::PHP,
            0x09 => Opcode::ORA,
            0x0a => Opcode::ASL,
            0x0b => Opcode::ANC,
            0x0c => Opcode::NOP,
            0x0d => Opcode::ORA,
            0x0e => Opcode::ASL,
            0x0f => Opcode::SLO,
            0x10 => Opcode::BPL,
            0x11 => Opcode::ORA,
            0x12 => Opcode::KIL,
            0x13 => Opcode::SLO,
            0x14 => Opcode::NOP,
            0x15 => Opcode::ORA,
            0x16 => Opcode::ASL,
            0x17 => Opcode::SLO,
            0x18 => Opcode::CLC,
            0x19 => Opcode::ORA,
            0x1a => Opcode::NOP,
            0x1b => Opcode::SLO,
            0x1c => Opcode::NOP,
            0x1d => Opcode::ORA,
            0x1e => Opcode::ASL,
            0x1f => Opcode::SLO,
            0x20 => Opcode::JSR,
            0x21 => Opcode::AND,
            0x22 => Opcode::KIL,
            0x23 => Opcode::RLA,
            0x24 => Opcode::BIT,
            0x25 => Opcode::AND,
            0x26 => Opcode::ROL,
            0x27 => Opcode::RLA,
            0x28 => Opcode::PLP,
            0x29 => Opcode::AND,
            0x2a => Opcode::ROL,
            0x2b => Opcode::ANC,
            0x2c => Opcode::BIT,
            0x2d => Opcode::AND,
            0x2e => Opcode::ROL,
            0x2f => Opcode::RLA,
            0x30 => Opcode::BMI,
            0x31 => Opcode::AND,
            0x32 => Opcode::KIL,
            0x33 => Opcode::RLA,
            0x34 => Opcode::NOP,
            0x35 => Opcode::AND,
            0x36 => Opcode::ROL,
            0x37 => Opcode::RLA,
            0x38 => Opcode::SEC,
            0x39 => Opcode::AND,
            0x3a => Opcode::NOP,
            0x3b => Opcode::RLA,
            0x3c => Opcode::NOP,
            0x3d => Opcode::AND,
            0x3e => Opcode::ROL,
            0x3f => Opcode::RLA,
            0x40 => Opcode::RTI,
            0x41 => Opcode::EOR,
            0x42 => Opcode::KIL,
            0x43 => Opcode::SRE,
            0x44 => Opcode::NOP,
            0x45 => Opcode::EOR,
            0x46 => Opcode::LSR,
            0x47 => Opcode::SRE,
            0x48 => Opcode::PHA,
            0x49 => Opcode::EOR,
            0x4a => Opcode::LSR,
            0x4b => Opcode::ALR,
            0x4c => Opcode::JMP,
            0x4d => Opcode::EOR,
            0x4e => Opcode::LSR,
            0x4f => Opcode::SRE,
            0x50 => Opcode::BVC,
            0x51 => Opcode::EOR,
            0x52 => Opcode::KIL,
            0x53 => Opcode::SRE,
            0x54 => Opcode::NOP,
            0x55 => Opcode::EOR,
            0x56 => Opcode::LSR,
            0x57 => Opcode::SRE,
            0x58 => Opcode::CLI,
            0x59 => Opcode::EOR,
            0x5a => Opcode::NOP,
            0x5b => Opcode::SRE,
            0x5c => Opcode::NOP,
            0x5d => Opcode::EOR,
            0x5e => Opcode::LSR,
            0x5f => Opcode::SRE,
            0x60 => Opcode::RTS,
            0x61 => Opcode::ADC,
            0x62 => Opcode::KIL,
            0x63 => Opcode::RRA,
            0x64 => Opcode::NOP,
            0x65 => Opcode::ADC,
            0x66 => Opcode::ROR,
            0x67 => Opcode::RRA,
            0x68 => Opcode::PLA,
            0x69 => Opcode::ADC,
            0x6a => Opcode::ROR,
            0x6b => Opcode::ARR,
            0x6c => Opcode::JMP,
            0x6d => Opcode::ADC,
            0x6e => Opcode::ROR,
            0x6f => Opcode::RRA,
            0x70 => Opcode::BVS,
            0x71 => Opcode::ADC,
            0x72 => Opcode::KIL,
            0x73 => Opcode::RRA,
            0x74 => Opcode::NOP,
            0x75 => Opcode::ADC,
            0x76 => Opcode::ROR,
            0x77 => Opcode::RRA,
            0x78 => Opcode::SEI,
            0x79 => Opcode::ADC,
            0x7a => Opcode::NOP,
            0x7b => Opcode::RRA,
            0x7c => Opcode::NOP,
            0x7d => Opcode::ADC,
            0x7e => Opcode::ROR,
            0x7f => Opcode::RRA,
            0x80 => Opcode::NOP,
            0x81 => Opcode::STA,
            0x82 => Opcode::NOP,
            0x83 => Opcode::SAX,
            0x84 => Opcode::STY,
            0x85 => Opcode::STA,
            0x86 => Opcode::STX,
            0x87 => Opcode::SAX,
            0x88 => Opcode::DEY,
            0x89 => Opcode::NOP,
            0x8a => Opcode::TXA,
            0x8b => Opcode::XAA,
            0x8c => Opcode::STY,
            0x8d => Opcode::STA,
            0x8e => Opcode::STX,
            0x8f => Opcode::SAX,
            0x90 => Opcode::BCC,
            0x91 => Opcode::STA,
            0x92 => Opcode::KIL,
            0x93 => Opcode::AHX,
            0x94 => Opcode::STY,
            0x95 => Opcode::STA,
            0x96 => Opcode::STX,
            0x97 => Opcode::SAX,
            0x98 => Opcode::TYA,
            0x99 => Opcode::STA,
            0x9a => Opcode::TXS,
            0x9b => Opcode::TAS,
            0x9c => Opcode::SHY,
            0x9d => Opcode::STA,
            0x9e => Opcode::SHX,
            0x9f => Opcode::AHX,
            0xa0 => Opcode::LDY,
            0xa1 => Opcode::LDA,
            0xa2 => Opcode::LDX,
            0xa3 => Opcode::LAX,
            0xa4 => Opcode::LDY,
            0xa5 => Opcode::LDA,
            0xa6 => Opcode::LDX,
            0xa7 => Opcode::LAX,
            0xa8 => Opcode::TAY,
            0xa9 => Opcode::LDA,
            0xaa => Opcode::TAX,
            0xab => Opcode::LAX,
            0xac => Opcode::LDY,
            0xad => Opcode::LDA,
            0xae => Opcode::LDX,
            0xaf => Opcode::LAX,
            0xb0 => Opcode::BCS,
            0xb1 => Opcode::LDA,
            0xb2 => Opcode::KIL,
            0xb3 => Opcode::LAX,
            0xb4 => Opcode::LDY,
            0xb5 => Opcode::LDA,
            0xb6 => Opcode::LDX,
            0xb7 => Opcode::LAX,
            0xb8 => Opcode::CLV,
            0xb9 => Opcode::LDA,
            0xba => Opcode::TSX,
            0xbb => Opcode::LAS,
            0xbc => Opcode::LDY,
            0xbd => Opcode::LDA,
            0xbe => Opcode::LDX,
            0xbf => Opcode::LAX,
            0xc0 => Opcode::CPY,
            0xc1 => Opcode::CMP,
            0xc2 => Opcode::NOP,
            0xc3 => Opcode::DCP,
            0xc4 => Opcode::CPY,
            0xc5 => Opcode::CMP,
            0xc6 => Opcode::DEC,
            0xc7 => Opcode::DCP,
            0xc8 => Opcode::INY,
            0xc9 => Opcode::CMP,
            0xca => Opcode::DEX,
            0xcb => Opcode::AXS,
            0xcc => Opcode::CPY,
            0xcd => Opcode::CMP,
            0xce => Opcode::DEC,
            0xcf => Opcode::DCP,
            0xd0 => Opcode::BNE,
            0xd1 => Opcode::CMP,
            0xd2 => Opcode::KIL,
            0xd3 => Opcode::DCP,
            0xd4 => Opcode::NOP,
            0xd5 => Opcode::CMP,
            0xd6 => Opcode::DEC,
            0xd7 => Opcode::DCP,
            0xd8 => Opcode::CLD,
            0xd9 => Opcode::CMP,
            0xda => Opcode::NOP,
            0xdb => Opcode::DCP,
            0xdc => Opcode::NOP,
            0xdd => Opcode::CMP,
            0xde => Opcode::DEC,
            0xdf => Opcode::DCP,
            0xe0 => Opcode::CPX,
            0xe1 => Opcode::SBC,
            0xe2 => Opcode::NOP,
            0xe3 => Opcode::ISC,
            0xe4 => Opcode::CPX,
            0xe5 => Opcode::SBC,
            0xe6 => Opcode::INC,
            0xe7 => Opcode::ISC,
            0xe8 => Opcode::INX,
            0xe9 => Opcode::SBC,
            0xea => Opcode::NOP,
            0xeb => Opcode::SBC,
            0xec => Opcode::CPX,
            0xed => Opcode::SBC,
            0xee => Opcode::INC,
            0xef => Opcode::ISC,
            0xf0 => Opcode::BEQ,
            0xf1 => Opcode::SBC,
            0xf2 => Opcode::KIL,
            0xf3 => Opcode::ISC,
            0xf4 => Opcode::NOP,
            0xf5 => Opcode::SBC,
            0xf6 => Opcode::INC,
            0xf7 => Opcode::ISC,
            0xf8 => Opcode::SED,
            0xf9 => Opcode::SBC,
            0xfa => Opcode::NOP,
            0xfb => Opcode::ISC,
            0xfc => Opcode::NOP,
            0xfd => Opcode::SBC,
            0xfe => Opcode::INC,
            _ => Opcode::ISC,
        }
    }

    /// Reads take their operand from the data bus and leave memory alone.
    pub open spec fn is_read(self) -> bool {
        matches!(
            self,
            Opcode::ADC | Opcode::AND | Opcode::BIT | Opcode::CMP | Opcode::CPX | Opcode::CPY
                | Opcode::EOR | Opcode::LDA | Opcode::LDX | Opcode::LDY | Opcode::ORA | Opcode::SBC
                | Opcode::LAX | Opcode::ALR | Opcode::ANC | Opcode::ARR | Opcode::AXS | Opcode::NOP
        )
    }

    /// Stores write a register to memory.
    pub open spec fn is_store(self) -> bool {
        matches!(self, Opcode::STA | Opcode::STX | Opcode::STY | Opcode::SAX)
    }

    /// Read-modify-write operations read a byte, change it and write it back.
    pub open spec fn is_modify(self) -> bool {
        matches!(
            self,
            Opcode::ASL | Opcode::LSR | Opcode::ROL | Opcode::ROR | Opcode::INC | Opcode::DEC
                | Opcode::DCP
        )
    }

    /// The eight conditional branches.
    pub open spec fn is_branch(self) -> bool {
        matches!(
            self,
            Opcode::BCC | Opcode::BCS | Opcode::BEQ | Opcode::BMI | Opcode::BNE | Opcode::BPL
                | Opcode::BVC | Opcode::BVS
        )
    }

    /// The operations that the processor carries out. Fetching any other is fatal.
    pub open spec fn is_implemented(self) -> bool {
        !matches!(
            self,
            Opcode::AHX | Opcode::ISC | Opcode::LAS | Opcode::RLA | Opcode::RRA | Opcode::SHX
                | Opcode::SHY | Opcode::SLO | Opcode::SRE | Opcode::TAS | Opcode::XAA
        )
    }

    /// Decodes a code byte.
    pub fn from_u8(code: u8) -> (opcode: Opcode)
        ensures
            opcode == Opcode::decode(code),
    {
        proof {
            reveal(Opcode::decode);
        }
        match code {
            0x00 => Opcode::BRK,
            0x01 => Opcode::ORA,
            0x02 => Opcode::KIL,
            0x03 => Opcode::SLO,
            0x04 => Opcode::NOP,
            0x05 => Opcode::ORA,
            0x06 => Opcode::ASL,
            0x07 => Opcode::SLO,
            0x08 => Opcode::PHP,
            0x09 => Opcode::ORA,
            0x0a => Opcode::ASL,
            0x0b => Opcode::ANC,
            0x0c => Opcode::NOP,
            0x0d => Opcode::ORA,
            0x0e => Opcode::ASL,
            0x0f => Opcode::SLO,
            0x10 => Opcode::BPL,
            0x11 => Opcode::ORA,
            0x12 => Opcode::KIL,
            0x13 => Opcode::SLO,
            0x14 => Opcode::NOP,
            0x15 => Opcode::ORA,
            0x16 => Opcode::ASL,
            0x17 => Opcode::SLO,
            0x18 => Opcode::CLC,
            0x19 => Opcode::ORA,
            0x1a => Opcode::NOP,
            0x1b => Opcode::SLO,
            0x1c => Opcode::NOP,
            0x1d => Opcode::ORA,
            0x1e => Opcode::ASL,
            0x1f => Opcode::SLO,
            0x20 => Opcode::JSR,
            0x21 => Opcode::AND,
            0x22 => Opcode::KIL,
            0x23 => Opcode::RLA,
            0x24 => Opcode::BIT,
            0x25 => Opcode::AND,
            0x26 => Opcode::ROL,
            0x27 => Opcode::RLA,
            0x28 => Opcode::PLP,
            0x29 => Opcode::AND,
            0x2a => Opcode::ROL,
            0x2b => Opcode::ANC,
            0x2c => Opcode::BIT,
            0x2d => Opcode::AND,
            0x2e => Opcode::ROL,
            0x2f => Opcode::RLA,
            0x30 => Opcode::BMI,
            0x31 => Opcode::AND,
            0x32 => Opcode::KIL,
            0x33 => Opcode::RLA,
            0x34 => Opcode::NOP,
            0x35 => Opcode::AND,
            0x36 => Opcode::ROL,
            0x37 => Opcode::RLA,
            0x38 => Opcode::SEC,
            0x39 => Opcode::AND,
            0x3a => Opcode::NOP,
            0x3b => Opcode::RLA,
            0x3c => Opcode::NOP,
            0x3d => Opcode::AND,
            0x3e => Opcode::ROL,
            0x3f => Opcode::RLA,
            0x40 => Opcode::RTI,
            0x41 => Opcode::EOR,
            0x42 => Opcode::KIL,
            0x43 => Opcode::SRE,
            0x44 => Opcode::NOP,
            0x45 => Opcode::EOR,
            0x46 => Opcode::LSR,
            0x47 => Opcode::SRE,
            0x48 => Opcode::PHA,
            0x49 => Opcode::EOR,
            0x4a => Opcode::LSR,
            0x4b => Opcode::ALR,
            0x4c => Opcode::JMP,
            0x4d => Opcode::EOR,
            0x4e => Opcode::LSR,
            0x4f => Opcode::SRE,
            0x50 => Opcode::BVC,
            0x51 => Opcode::EOR,
            0x52 => Opcode::KIL,
            0x53 => Opcode::SRE,
            0x54 => Opcode::NOP,
            0x55 => Opcode::EOR,
            0x56 => Opcode::LSR,
            0x57 => Opcode::SRE,
            0x58 => Opcode::CLI,
            0x59 => Opcode::EOR,
            0x5a => Opcode::NOP,
            0x5b => Opcode::SRE,
            0x5c => Opcode::NOP,
            0x5d => Opcode::EOR,
            0x5e => Opcode::LSR,
            0x5f => Opcode::SRE,
            0x60 => Opcode::RTS,
            0x61 => Opcode::ADC,
            0x62 => Opcode::KIL,
            0x63 => Opcode::RRA,
            0x64 => Opcode::NOP,
            0x65 => Opcode::ADC,
            0x66 => Opcode::ROR,
            0x67 => Opcode::RRA,
            0x68 => Opcode::PLA,
            0x69 => Opcode::ADC,
            0x6a => Opcode::ROR,
            0x6b => Opcode::ARR,
            0x6c => Opcode::JMP,
            0x6d => Opcode::ADC,
            0x6e => Opcode::ROR,
            0x6f => Opcode::RRA,
            0x70 => Opcode::BVS,
            0x71 => Opcode::ADC,
            0x72 => Opcode::KIL,
            0x73 => Opcode::RRA,
            0x74 => Opcode::NOP,
            0x75 => Opcode::ADC,
            0x76 => Opcode::ROR,
            0x77 => Opcode::RRA,
            0x78 => Opcode::SEI,
            0x79 => Opcode::ADC,
            0x7a => Opcode::NOP,
            0x7b => Opcode::RRA,
            0x7c => Opcode::NOP,
            0x7d => Opcode::ADC,
            0x7e => Opcode::ROR,
            0x7f => Opcode::RRA,
            0x80 => Opcode::NOP,
            0x81 => Opcode::STA,
            0x82 => Opcode::NOP,
            0x83 => Opcode::SAX,
            0x84 => Opcode::STY,
            0x85 => Opcode::STA,
            0x86 => Opcode::STX,
            0x87 => Opcode::SAX,
            0x88 => Opcode::DEY,
            0x89 => Opcode::NOP,
            0x8a => Opcode::TXA,
            0x8b => Opcode::XAA,
            0x8c => Opcode::STY,
            0x8d => Opcode::STA,
            0x8e => Opcode::STX,
            0x8f => Opcode::SAX,
            0x90 => Opcode::BCC,
            0x91 => Opcode::STA,
            0x92 => Opcode::KIL,
            0x93 => Opcode::AHX,
            0x94 => Opcode::STY,
            0x95 => Opcode::STA,
            0x96 => Opcode::STX,
            0x97 => Opcode::SAX,
            0x98 => Opcode::TYA,
            0x99 => Opcode::STA,
            0x9a => Opcode::TXS,
            0x9b => Opcode::TAS,
            0x9c => Opcode::SHY,
            0x9d => Opcode::STA,
            0x9e => Opcode::SHX,
            0x9f => Opcode::AHX,
            0xa0 => Opcode::LDY,
            0xa1 => Opcode::LDA,
            0xa2 => Opcode::LDX,
            0xa3 => Opcode::LAX,
            0xa4 => Opcode::LDY,
            0xa5 => Opcode::LDA,
            0xa6 => Opcode::LDX,
            0xa7 => Opcode::LAX,
            0xa8 => Opcode::TAY,
            0xa9 => Opcode::LDA,
            0xaa => Opcode::TAX,
            0xab => Opcode::LAX,
            0xac => Opcode::LDY,
            0xad => Opcode::LDA,
            0xae => Opcode::LDX,
            0xaf => Opcode::LAX,
            0xb0 => Opcode::BCS,
            0xb1 => Opcode::LDA,
            0xb2 => Opcode::KIL,
            0xb3 => Opcode::LAX,
            0xb4 => Opcode::LDY,
            0xb5 => Opcode::LDA,
            0xb6 => Opcode::LDX,
            0xb7 => Opcode::LAX,
            0xb8 => Opcode::CLV,
            0xb9 => Opcode::LDA,
            0xba => Opcode::TSX,
            0xbb => Opcode::LAS,
            0xbc => Opcode::LDY,
            0xbd => Opcode::LDA,
            0xbe => Opcode::LDX,
            0xbf => Opcode::LAX,
            0xc0 => Opcode::CPY,
            0xc1 => Opcode::CMP,
            0xc2 => Opcode::NOP,
            0xc3 => Opcode::DCP,
            0xc4 => Opcode::CPY,
            0xc5 => Opcode::CMP,
            0xc6 => Opcode::DEC,
            0xc7 => Opcode::DCP,
            0xc8 => Opcode::INY,
            0xc9 => Opcode::CMP,
            0xca => Opcode::DEX,
            0xcb => Opcode::AXS,
            0xcc => Opcode::CPY,
            0xcd => Opcode::CMP,
            0xce => Opcode::DEC,
            0xcf => Opcode::DCP,
            0xd0 => Opcode::BNE,
            0xd1 => Opcode::CMP,
            0xd2 => Opcode::KIL,
            0xd3 => Opcode::DCP,
            0xd4 => Opcode::NOP,
            0xd5 => Opcode::CMP,
            0xd6 => Opcode::DEC,
            0xd7 => Opcode::DCP,
            0xd8 => Opcode::CLD,
            0xd9 => Opcode::CMP,
            0xda => Opcode::NOP,
            0xdb => Opcode::DCP,
            0xdc => Opcode::NOP,
            0xdd => Opcode::CMP,
            0xde => Opcode::DEC,
            0xdf => Opcode::DCP,
            0xe0 => Opcode::CPX,
            0xe1 => Opcode::SBC,
            0xe2 => Opcode::NOP,
            0xe3 => Opcode::ISC,
            0xe4 => Opcode::CPX,
            0xe5 => Opcode::SBC,
            0xe6 => Opcode::INC,
            0xe7 => Opcode::ISC,
            0xe8 => Opcode::INX,
            0xe9 => Opcode::SBC,
            0xea => Opcode::NOP,
            0xeb => Opcode::SBC,
            0xec => Opcode::CPX,
            0xed => Opcode::SBC,
            0xee => Opcode::INC,
            0xef => Opcode::ISC,
            0xf0 => Opcode::BEQ,
            0xf1 => Opcode::SBC,
            0xf2 => Opcode::KIL,
            0xf3 => Opcode::ISC,
            0xf4 => Opcode::NOP,
            0xf5 => Opcode::SBC,
            0xf6 => Opcode::INC,
            0xf7 => Opcode::ISC,
            0xf8 => Opcode::SED,
            0xf9 => Opcode::SBC,
            0xfa => Opcode::NOP,
            0xfb => Opcode::ISC,
            0xfc => Opcode::NOP,
            0xfd => Opcode::SBC,
            0xfe => Opcode::INC,
            _ => Opcode::ISC,
        }
    }

    /// Whether the operation is a read.
    pub fn reads(self) -> (b: bool)
        ensures
            b == self.is_read(),
    {
        matches!(
            self,
            Opcode::ADC | Opcode::AND | Opcode::BIT | Opcode::CMP | Opcode::CPX | Opcode::CPY
                | Opcode::EOR | Opcode::LDA | Opcode::LDX | Opcode::LDY | Opcode::ORA | Opcode::SBC
                | Opcode::LAX | Opcode::ALR | Opcode::ANC | Opcode::ARR | Opcode::AXS | Opcode::NOP
        )
    }

    /// Whether the operation is a store.
    pub fn stores(self) -> (b: bool)
        ensures
            b == self.is_store(),
    {
        matches!(self, Opcode::STA | Opcode::STX | Opcode::STY | Opcode::SAX)
    }

    /// Whether the operation is a read-modify-write.
    pub fn modifies(self) -> (b: bool)
        ensures
            b == self.is_modify(),
    {
        matches!(
            self,
            Opcode::ASL | Opcode::LSR | Opcode::ROL | Opcode::ROR | Opcode::INC | Opcode::DEC
                | Opcode::DCP
        )
    }

    /// Whether the operation is a branch.
    pub fn branches(self) -> (b: bool)
        ensures
            b == self.is_branch(),
    {
        matches!(
            self,
            Opcode::BCC | Opcode::BCS | Opcode::BEQ | Opcode::BMI | Opcode::BNE | Opcode::BPL
                | Opcode::BVC | Opcode::BVS
        )
    }

    /// Whether the processor carries the operation out.
    pub fn implemented(self) -> (b: bool)
        ensures
            b == self.is_implemented(),
    {
        !matches!(
            self,
            Opcode::AHX | Opcode::ISC | Opcode::LAS | Opcode::RLA | Opcode::RRA | Opcode::SHX
                | Opcode::SHY | Opcode::SLO | Opcode::SRE | Opcode::TAS | Opcode::XAA
        )
    }
}

} // verus!
