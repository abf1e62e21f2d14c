//! The addressing modes of the 6510, with the steps that the longer ones
//! pass through while the operand address is put together.

use vstd::prelude::*;

verus! {

/// How an instruction finds its operand. A code byte decodes to one of the
/// entry modes; the others are the later steps of a mode that takes several
/// bus transactions.
#[derive(Debug, Clone, Copy, PartialEq, Eq, Structural)]
pub enum AddressingMode {
    /// Absolute: the low address byte is next in the instruction stream.
    AbsoluteLo,
    /// Absolute indexed by X: the low address byte is next.
    AbsoluteLoX,
    /// Absolute indexed by Y: the low address byte is next.
    AbsoluteLoY,
    /// Absolute: the high address byte is next.
    AbsoluteHi,
    /// Absolute indexed by X: the high address byte is next.
    AbsoluteHiX,
    /// Absolute indexed by Y: the high address byte is next.
    AbsoluteHiY,
    /// Zero page: the address byte is next.
    Zeropage,
    /// Zero page indexed by X: the address byte is next.
    ZeropageX,
    /// Zero page indexed by X: the index is added.
    ZeropageXAdd,
    /// Zero page indexed by Y: the address byte is next.
    ZeropageY,
    /// Zero page indexed by Y: the index is added.
    ZeropageYAdd,
    /// Indirect jump: the low byte of the pointer is next.
    IndirectLo,
    /// Indirect jump: the high byte of the pointer is next.
    IndirectHi,
    /// `(zp),Y`: the zero page address of the pointer is next.
    IndirectIndexed,
    /// `(zp),Y`: the low byte of the pointer arrives.
    IndirectIndexedLo,
    /// `(zp),Y`: the high byte of the pointer arrives and Y is added.
    IndirectIndexedHi,
    /// `(zp),Y`: the carry out of the low byte is added to the high byte.
    IndirectIndexedPageCross,
    /// `(zp,X)`: the zero page address that X is added to is next.
    IndexedIndirect,
    /// `(zp,X)`: X is added.
    IndexedIndirectAdd,
    /// The low byte arrives through the pointer on the address bus, for
    /// `(zp,X)` and for the indirect jump.
    IndexedIndirectLo,
    /// The high byte arrives through the pointer on the address bus, for
    /// `(zp,X)` and for the indirect jump.
    IndexedIndirectHi,
    /// The operand is the next byte of the instruction stream.
    Immediate,
    /// The instruction has no operand.
    Implied,
}

impl AddressingMode {
    /// The mode that a code byte selects. Codes are laid out in sixteen rows
    /// (the high nibble) of sixteen columns (the low nibble), and the column
    /// all but decides the mode.
    #[verifier::opaque]
    pub open spec fn decode(code: u8) -> AddressingMode {
        let row = code as int / 16;
        let col = code as int % 16;
        if col == 0 {
            if row % 2 == 1 || row > 7 {
                AddressingMode::Immediate
            } else if row == 2 {
                AddressingMode::AbsoluteLo
            } else {
                AddressingMode::Implied
            }
        } else if col == 1 || col == 3 {
            if row % 2 == 1 {
                AddressingMode::IndirectIndexed
            } else {
                AddressingMode::IndexedIndirect
            }
        } else if col == 2 {
            if row >= 8 && row % 2 == 0 {
                AddressingMode::Immediate
            } else {
                AddressingMode::Implied
            }
        } else if col == 4 || col == 5 {
            if row % 2 == 1 {
                AddressingMode::ZeropageX
            } else {
                AddressingMode::Zeropage
            }
        } else if col == 6 || col == 7 {
            if row % 2 == 0 {
                AddressingMode::Zeropage
            } else if row == 9 || row == 11 {
                AddressingMode::ZeropageY
            } else {
                AddressingMode::ZeropageX
            }
        } else if col == 8 || col == 10 {
            AddressingMode::Implied
        } else if col == 9 || col == 11 {
            if row % 2 == 0 {
                AddressingMode::Immediate
            } else {
                AddressingMode::AbsoluteLoY
            }
        } else if col == 12 || col == 13 {
            if row % 2 == 1 {
                AddressingMode::AbsoluteLoX
            } else if row == 6 && col == 12 {
                AddressingMode::IndirectLo
            } else {
                AddressingMode::AbsoluteLo
            }
        } else {
            if row % 2 == 0 {
                AddressingMode::AbsoluteLo
            } else if row == 9 || row == 11 {
                AddressingMode::AbsoluteLoY
            } else {
                AddressingMode::AbsoluteLoX
            }
        }
    }

    /// The modes that a code byte can select.
    pub open spec fn is_entry(self) -> bool {
        matches!(
            self,
            AddressingMode::Implied | AddressingMode::Immediate | AddressingMode::Zeropage
                | AddressingMode::ZeropageX | AddressingMode::ZeropageY | AddressingMode::AbsoluteLo
                | AddressingMode::AbsoluteLoX | AddressingMode::AbsoluteLoY
                | AddressingMode::IndirectLo | AddressingMode::IndexedIndirect
                | AddressingMode::IndirectIndexed
        )
    }

    /// The entry modes whose operand lies in memory.
    pub open spec fn is_memory(self) -> bool {
        matches!(
            self,
            AddressingMode::Zeropage | AddressingMode::ZeropageX | AddressingMode::ZeropageY
                | AddressingMode::AbsoluteLo | AddressingMode::AbsoluteLoX
                | AddressingMode::AbsoluteLoY | AddressingMode::IndexedIndirect
                | AddressingMode::IndirectIndexed
        )
    }

    /// Decodes the addressing mode of a code byte.
    pub fn from_u8(code: u8) -> (mode: AddressingMode)
        ensures
            mode == AddressingMode::decode(code),
            mode.is_entry(),
    {
        proof {
            reveal(AddressingMode::decode);
        }
        let row = code / 16;
        let col = code % 16;
        let odd = row % 2 == 1;
        match col {
            0 => {
                if odd || row > 7 {
                    AddressingMode::Immediate
                } else if row == 2 {
                    AddressingMode::AbsoluteLo
                } else {
                    AddressingMode::Implied
                }
            },
            1 | 3 => {
                if odd {
                    AddressingMode::IndirectIndexed
                } else {
                    AddressingMode::IndexedIndirect
                }
            },
            2 => {
                match row {
                    8 | 0xa | 0xc | 0xe => AddressingMode::Immediate,
                    _ => AddressingMode::Implied,
                }
            },
            4 | 5 => {
                if odd {
                    AddressingMode::ZeropageX
                } else {
                    AddressingMode::Zeropage
                }
            },
            6 | 7 => {
                if !odd {
                    AddressingMode::Zeropage
                } else if row == 9 || row == 0xb {
                    AddressingMode::ZeropageY
                } else {
                    AddressingMode::ZeropageX
                }
            },
            8 | 0xa => AddressingMode::Implied,
            9 | 0xb => {
                if !odd {
                    AddressingMode::Immediate
                } else {
                    AddressingMode::AbsoluteLoY
                }
            },
            0xc | 0xd => {
                if odd {
                    AddressingMode::AbsoluteLoX
                } else if row == 6 && col == 0xc {
                    AddressingMode::IndirectLo
                } else {
                    AddressingMode::AbsoluteLo
                }
            },
            _ => {
                if !odd {
                    AddressingMode::AbsoluteLo
                } else if row == 9 || row == 0xb {
                    AddressingMode::AbsoluteLoY
                } else {
                    AddressingMode::AbsoluteLoX
                }
            },
        }
    }
}

} // verus!
