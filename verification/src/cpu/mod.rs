//! The 6510 processor: a micro-coded state machine that is clocked one bus
//! transaction at a time. Between two calls of [`Cpu::cycle`] the owner of the
//! bus carries out the transaction that the pins ask for.

pub mod addressing_mode;
pub mod alu;
pub mod bytes;
pub mod execute;
pub mod instruction;
pub mod opcode;
pub mod sequencer;
pub mod stack;
pub mod status_register;
pub mod timing;

use vstd::prelude::*;
use self::bytes::{
    branch_target, high_byte, low_byte, next_in_page, same_page, word, wrap16, wrap8,
};
use self::execute::modified;
use self::addressing_mode::AddressingMode;
use self::instruction::Instruction;
use self::opcode::Opcode;
use self::status_register::StatusRegister;

verus! {

/// Where the program counter points after a reset.
pub const RESET_VECTOR_ADDR: u16 = 0xfce2;

/// The first address of the stack page.
pub const STACK_START_ADDR: u16 = 0x0100;

/// Where the address of the interrupt routine is kept, low byte first.
pub const IRQ_VEC_ADDR: u16 = 0xfffe;

/// What the next call of [`Cpu::cycle`] does.
#[derive(Debug, Clone, Copy, PartialEq, Eq, Structural)]
pub enum CpuState {
    /// Push the status register and mask further interrupts.
    Interrupt,
    /// Ask for the low byte of the interrupt vector.
    InterruptLo,
    /// Latch the low byte of the interrupt vector and ask for the high byte.
    InterruptHi,
    /// Latch the byte on the data bus as a code byte.
    Fetch,
    /// The operand has arrived on the data bus: carry the operation out.
    Load,
    /// Drive the result onto the data bus.
    Store,
    /// Push the low byte of the staged word.
    PushWordLo,
    /// Push the high byte of the staged word.
    PushWordHi,
    /// Ask for the first byte of a pull.
    PullWordLo,
    /// Latch a byte of the pulled word.
    PullWordHi,
    /// Put the operand address together.
    Address,
    /// Give the bus back to the instruction stream.
    ToLoad,
    /// The processor is jammed.
    Halt,
}

/// Which regions the three low bits of the data port make visible to reads:
/// KERNAL ROM, BASIC ROM, character ROM and the I/O registers, in that order.
pub open spec fn banking(bits: int) -> (bool, bool, bool, bool) {
    if bits == 1 {
        (false, false, true, false)
    } else if bits == 2 {
        (true, false, true, false)
    } else if bits == 3 {
        (true, true, true, false)
    } else if bits == 5 {
        (false, false, false, true)
    } else if bits == 6 {
        (true, false, false, true)
    } else if bits == 7 {
        (true, true, false, true)
    } else {
        (false, false, false, false)
    }
}

#[derive(Debug, Clone, Copy, PartialEq, Eq, Structural)]
pub struct Cpu {
    /// An interrupt request is waiting for the next fetch.
    pub irq: bool,
    pub pc: u16,
    pub a: u8,
    pub x: u8,
    pub y: u8,
    pub sr: StatusRegister,
    pub sp: u8,
    /// The port at address 1, whose low three bits select the memory banks.
    pub dataport: u8,
    pub kernal_rom_enabled: bool,
    pub basic_rom_enabled: bool,
    pub char_rom_enabled: bool,
    pub io_enabled: bool,
    /// The data direction register at address 0.
    pub data_direction_reg: u8,
    /// The number of calls of `cycle` so far.
    pub cycles: u64,
    pub curr_instr: Instruction,
    pub addr_lo: u8,
    pub addr_hi: u8,
    pub data_bus: u8,
    /// True while the processor asks for a read, false for a write.
    pub rw: bool,
    /// True while the processor drives the address bus.
    pub addr_enable: bool,
    pub addr_bus: u16,
    /// The low byte of a pulled word has arrived.
    pub stack_word_ready: bool,
    /// The word that is being pushed or pulled.
    pub stack_word: u16,
    pub state: CpuState,
}

impl Cpu {
    /// The banking flags are the ones that the data port selects.
    pub open spec fn banks_coherent(self) -> bool {
        (self.kernal_rom_enabled, self.basic_rom_enabled, self.char_rom_enabled, self.io_enabled)
            == banking(self.dataport as int % 8)
    }

    /// The processor drives the address bus unless it is jammed.
    pub open spec fn pins_coherent(self) -> bool {
        self.addr_enable <==> self.state != CpuState::Halt
    }

    pub open spec fn wf(self) -> bool {
        self.banks_coherent() && self.pins_coherent()
    }

    /// The processor before its first reset.
    pub open spec fn powered_off() -> Cpu {
        Cpu {
            irq: false,
            pc: 0,
            a: 0,
            x: 0,
            y: 0,
            sr: StatusRegister::cleared(),
            sp: 0,
            dataport: 0,
            kernal_rom_enabled: false,
            basic_rom_enabled: false,
            char_rom_enabled: false,
            io_enabled: false,
            data_direction_reg: 0,
            cycles: 0,
            curr_instr: Instruction { opcode: Opcode::KIL, addr_mode: AddressingMode::Implied },
            addr_lo: 0,
            addr_hi: 0,
            data_bus: 0,
            rw: true,
            addr_enable: false,
            addr_bus: 0,
            stack_word_ready: false,
            stack_word: 0,
            state: CpuState::Halt,
        }
    }

    /// The processor after a reset: registers at their start values, every
    /// ROM and the I/O registers visible, and the first code byte asked for.
    pub open spec fn after_reset(self) -> Cpu {
        Cpu {
            pc: RESET_VECTOR_ADDR,
            a: 0xaa,
            x: 0,
            y: 0,
            sp: 0xfd,
            data_direction_reg: 0x2f,
            dataport: 0x37,
            kernal_rom_enabled: true,
            basic_rom_enabled: true,
            char_rom_enabled: false,
            io_enabled: true,
            addr_bus: RESET_VECTOR_ADDR,
            addr_enable: true,
            rw: true,
            state: CpuState::Fetch,
            ..self
        }
    }

    /// The processor with a byte written to the data port: the data
    /// direction register masks the byte, and the banking flags follow.
    pub open spec fn with_dataport(self, value: u8) -> Cpu {
        let port = self.data_direction_reg & value;
        let banks = banking(port as int % 8);
        Cpu {
            dataport: port,
            kernal_rom_enabled: banks.0,
            basic_rom_enabled: banks.1,
            char_rom_enabled: banks.2,
            io_enabled: banks.3,
            ..self
        }
    }

    /// The processor with the byte of a pending read latched.
    pub open spec fn latched(self, value: u8) -> Cpu {
        if self.rw {
            Cpu { data_bus: value, ..self }
        } else {
            self
        }
    }

    pub fn new() -> (cpu: Cpu)
        ensures
            cpu == Cpu::powered_off(),
            cpu.wf(),
    {
        Cpu {
            irq: false,
            pc: 0u16,
            a: 0u8,
            x: 0u8,
            y: 0u8,
            sr: StatusRegister::new(),
            sp: 0u8,
            dataport: 0u8,
            kernal_rom_enabled: false,
            basic_rom_enabled: false,
            char_rom_enabled: false,
            io_enabled: false,
            data_direction_reg: 0u8,
            cycles: 0u64,
            curr_instr: Instruction::new(),
            addr_lo: 0u8,
            addr_hi: 0u8,
            rw: true,
            addr_enable: false,
            addr_bus: 0u16,
            data_bus: 0u8,
            stack_word_ready: false,
            stack_word: 0u16,
            state: CpuState::Halt,
        }
    }

    /// Puts the processor at the start of the reset routine.
    pub fn reset(&mut self)
        ensures
            *final(self) == old(self).after_reset(),
            final(self).wf(),
    {
        self.pc = RESET_VECTOR_ADDR;
        self.a = 0xaa;
        self.x = 0;
        self.y = 0;
        self.sp = 0xfd;
        self.data_direction_reg = 0x2f;
        self.dataport = 0x37;
        self.kernal_rom_enabled = true;
        self.basic_rom_enabled = true;
        self.char_rom_enabled = false;
        self.io_enabled = true;
        self.addr_bus = self.pc;
        self.addr_enable = true;
        self.rw = true;
        self.state = CpuState::Fetch;
    }

    /// Asserts the interrupt request. The next fetch samples it.
    pub fn trigger_interrupt(&mut self)
        ensures
            *final(self) == (Cpu { irq: true, ..*old(self) }),
    {
        self.irq = true;
    }

    /// Hands the processor the byte of a pending read. During a write the
    /// processor drives the data bus itself and the byte is not taken.
    pub fn data_in(&mut self, value: u8)
        ensures
            *final(self) == old(self).latched(value),
    {
        if self.rw {
            self.data_bus = value;
        }
    }

    /// The byte of a pending write.
    pub fn data_out(&self) -> (value: u8)
        ensures
            value == self.data_bus,
    {
        self.data_bus
    }

    pub fn write_ddr(&mut self, value: u8)
        ensures
            *final(self) == (Cpu { data_direction_reg: value, ..*old(self) }),
    {
        self.data_direction_reg = value;
    }

    pub fn read_ddr(&self) -> (value: u8)
        ensures
            value == self.data_direction_reg,
    {
        self.data_direction_reg
    }

    /// Writes the data port through the data direction register and
    /// switches the memory banks to what its low three bits select.
    pub fn write_dataport(&mut self, value: u8)
        ensures
            *final(self) == old(self).with_dataport(value),
            final(self).banks_coherent(),
    {
        self.dataport = self.data_direction_reg & value;
        let rom_status = self.dataport % 8;
        self.kernal_rom_enabled = rom_status % 4 > 1;
        self.basic_rom_enabled = rom_status % 4 == 3;
        self.char_rom_enabled = rom_status < 4 && rom_status > 0;
        self.io_enabled = rom_status > 4;
    }

    pub fn read_dataport(&self) -> (value: u8)
        ensures
            value == self.dataport,
    {
        self.dataport
    }

    pub fn krom_enabled(&self) -> (enabled: bool)
        ensures
            enabled == self.kernal_rom_enabled,
    {
        self.kernal_rom_enabled
    }

    pub fn brom_enabled(&self) -> (enabled: bool)
        ensures
            enabled == self.basic_rom_enabled,
    {
        self.basic_rom_enabled
    }

    pub fn crom_enabled(&self) -> (enabled: bool)
        ensures
            enabled == self.char_rom_enabled,
    {
        self.char_rom_enabled
    }

    pub fn io_enabled(&self) -> (enabled: bool)
        ensures
            enabled == self.io_enabled,
    {
        self.io_enabled
    }

    /// Whether the processor can take a clock cycle.
    pub fn runnable(&self) -> (ok: bool)
        ensures
            ok == self.is_runnable(),
    {
        if self.state == CpuState::Halt {
            false
        } else if self.state == CpuState::Fetch && !(self.irq && !self.sr.int_disable) {
            Opcode::from_u8(self.data_bus).implemented()
        } else {
            true
        }
    }

    /// Advances the state machine by one bus transaction. Afterwards the
    /// processor asks for a read, or asks for a write, or is jammed.
    pub fn cycle(&mut self)
        requires
            old(self).is_runnable(),
        ensures
            *final(self) == old(self).step(),
            final(self).addr_enable <==> final(self).state != CpuState::Halt,
            old(self).banks_coherent() ==> final(self).banks_coherent(),
    {
        proof {
            reveal(Cpu::step);
        }
        let before = *self;
        let next = self.dispatch();
        *self = Cpu {
            cycles: before.cycles.wrapping_add(1),
            addr_enable: next.state != CpuState::Halt,
            dataport: before.dataport,
            data_direction_reg: before.data_direction_reg,
            kernal_rom_enabled: before.kernal_rom_enabled,
            basic_rom_enabled: before.basic_rom_enabled,
            char_rom_enabled: before.char_rom_enabled,
            io_enabled: before.io_enabled,
            ..next
        };
    }

    // What follows describes one clock cycle. Each description is a function
    // from the processor before the cycle to the processor after it.

    /// The processor asking to read `addr`.
    pub open spec fn reading(self, addr: u16) -> Cpu {
        Cpu { addr_bus: addr, addr_enable: true, rw: true, ..self }
    }

    /// The processor asking to write `value` to the address on the bus.
    pub open spec fn writing(self, value: u8) -> Cpu {
        Cpu { data_bus: value, rw: false, ..self }
    }

    /// The address in the stack page that the stack pointer selects.
    pub open spec fn stack_addr(self) -> u16 {
        (STACK_START_ADDR + self.sp) as u16
    }

    /// The processor pushing `value`: the byte goes where the stack pointer
    /// points, and the pointer moves down, from 0 round to 255.
    pub open spec fn pushing(self, value: u8) -> Cpu {
        Cpu { sp: wrap8(self.sp as int - 1), ..self.reading(self.stack_addr()).writing(value) }
    }

    /// The processor asking for the byte on top of the stack: the pointer
    /// moves up, from 255 round to 0, and selects the byte to read.
    pub open spec fn pulling(self) -> Cpu {
        let raised = Cpu { sp: wrap8(self.sp as int + 1), ..self };
        raised.reading(raised.stack_addr())
    }

    /// The processor with the program counter moved on by one, from 0xFFFF
    /// round to 0.
    pub open spec fn advanced(self) -> Cpu {
        Cpu { pc: wrap16(self.pc as int + 1), ..self }
    }

    /// The word in the working address pair.
    pub open spec fn operand_addr(self) -> u16 {
        word(self.addr_hi, self.addr_lo)
    }

    pub open spec fn in_state(self, state: CpuState) -> Cpu {
        Cpu { state, ..self }
    }

    /// The processor with the current instruction moved to the step `mode`.
    pub open spec fn in_mode(self, mode: AddressingMode) -> Cpu {
        Cpu { curr_instr: Instruction { addr_mode: mode, ..self.curr_instr }, ..self }
    }

    /// The processor back at the instruction stream, asking for a code byte.
    pub open spec fn resumed(self) -> Cpu {
        self.reading(self.pc).in_state(CpuState::Fetch)
    }

    /// The processor once the operand address stands on the address bus. A
    /// read and a read-modify-write wait for the operand. A store drives its
    /// byte at once, unless the address was indexed: then the bus sees one
    /// read of that address first.
    pub open spec fn with_operand_ready(self, indexed: bool) -> Cpu {
        if self.curr_instr.opcode.is_store() {
            if indexed {
                self.in_state(CpuState::Store)
            } else {
                self.writing(self.store_value()).in_state(CpuState::ToLoad)
            }
        } else {
            self.in_state(CpuState::Load)
        }
    }

    /// Whether a fetch, if it came now, would start the interrupt sequence.
    pub open spec fn takes_interrupt(self) -> bool {
        self.irq && !self.sr.int_disable
    }

    /// `Fetch`: samples the interrupt request. A request that finds I clear
    /// starts the interrupt sequence in place of the instruction. Otherwise
    /// the byte on the data bus is decoded and the next byte asked for.
    #[verifier::opaque]
    pub open spec fn after_fetch(self) -> Cpu {
        if self.takes_interrupt() {
            Cpu {
                irq: false,
                curr_instr: Instruction { opcode: Opcode::BRK, addr_mode: AddressingMode::Implied },
                sr: StatusRegister { break_cmd: false, ..self.sr },
                stack_word: self.pc,
                state: CpuState::PushWordHi,
                ..self
            }
        } else {
            let fetched = Cpu {
                irq: false,
                curr_instr: Instruction::decode(self.data_bus),
                ..self
            }.advanced();
            fetched.reading(fetched.pc).in_state(CpuState::Address)
        }
    }

    /// `Address` for an instruction without operand. Most are done at once.
    /// BRK skips its padding byte and starts to push, the pushes and pulls
    /// turn to the stack, and KIL jams the processor.
    #[verifier::opaque]
    pub open spec fn after_implied(self) -> Cpu {
        match self.curr_instr.opcode {
            Opcode::BRK => {
                let skipped = self.advanced();
                Cpu {
                    sr: StatusRegister { break_cmd: true, ..self.sr },
                    stack_word: skipped.pc,
                    ..skipped
                }.pushing(high_byte(skipped.pc)).in_state(CpuState::PushWordLo)
            },
            Opcode::PHA => self.pushing(self.a).in_state(CpuState::ToLoad),
            Opcode::PHP => self.pushing(
                StatusRegister { break_cmd: true, ..self.sr }.packed(),
            ).in_state(CpuState::ToLoad),
            Opcode::PLA | Opcode::PLP | Opcode::RTS => self.reading(self.stack_addr()).in_state(
                CpuState::PullWordLo,
            ),
            Opcode::RTI => self.pulling().in_state(CpuState::Load),
            Opcode::KIL => Cpu { addr_enable: false, state: CpuState::Halt, ..self },
            _ => self.after_register_op().resumed(),
        }
    }

    /// `Address` for an operand in the instruction stream. A branch whose
    /// condition holds keeps the offset and goes on; everything else is done.
    #[verifier::opaque]
    pub open spec fn after_immediate(self) -> Cpu {
        if self.curr_instr.opcode.is_branch() {
            let passed = self.advanced();
            let next = passed.reading(passed.pc);
            if self.branch_taken() {
                Cpu { addr_lo: self.data_bus, ..next }.in_state(CpuState::Load)
            } else {
                next.in_state(CpuState::Fetch)
            }
        } else {
            let passed = self.after_read(self.data_bus).advanced();
            passed.reading(passed.pc).in_state(CpuState::Fetch)
        }
    }

    /// `Address` in a zero page mode: the address byte arrives, and the
    /// index, if there is one, is added in a step of its own. The sum stays
    /// in the zero page.
    #[verifier::opaque]
    pub open spec fn after_zeropage(self) -> Cpu {
        let d = self.data_bus;
        let arrived = Cpu { addr_hi: 0, addr_lo: d, ..self.advanced() }.reading(word(0, d));
        match self.curr_instr.addr_mode {
            AddressingMode::ZeropageX => arrived.in_mode(AddressingMode::ZeropageXAdd),
            AddressingMode::ZeropageY => arrived.in_mode(AddressingMode::ZeropageYAdd),
            AddressingMode::ZeropageXAdd => {
                let lo = wrap8(self.addr_lo as int + self.x as int);
                Cpu { addr_lo: lo, ..self }.reading(word(self.addr_hi, lo)).with_operand_ready(
                    false,
                )
            },
            AddressingMode::ZeropageYAdd => {
                let lo = wrap8(self.addr_lo as int + self.y as int);
                Cpu { addr_lo: lo, ..self }.reading(word(self.addr_hi, lo)).with_operand_ready(
                    false,
                )
            },
            _ => arrived.with_operand_ready(false),
        }
    }

    /// `Address` when the second of two address bytes arrives. The jumps
    /// load the program counter; JSR first stages the address of its own
    /// last byte for the push. An index is added to the whole word.
    #[verifier::opaque]
    pub open spec fn after_high_byte(self) -> Cpu {
        let d = self.data_bus;
        let op = self.curr_instr.opcode;
        let target = word(d, self.addr_lo);
        let passed = Cpu { addr_hi: d, ..self.advanced() };
        match self.curr_instr.addr_mode {
            AddressingMode::AbsoluteHiX => passed.reading(
                wrap16(target as int + self.x as int),
            ).with_operand_ready(true),
            AddressingMode::AbsoluteHiY => passed.reading(
                wrap16(target as int + self.y as int),
            ).with_operand_ready(true),
            AddressingMode::IndirectHi => passed.reading(target).in_mode(
                AddressingMode::IndexedIndirectLo,
            ),
            _ => {
                if op == Opcode::JMP {
                    Cpu { addr_hi: d, pc: target, ..self }.resumed()
                } else if op == Opcode::JSR {
                    Cpu { addr_hi: d, stack_word: self.pc, pc: target, ..self }.reading(
                        self.stack_addr(),
                    ).in_state(CpuState::PushWordHi)
                } else {
                    passed.reading(target).with_operand_ready(false)
                }
            },
        }
    }

    /// `Address` in the mode `(zp,X)`, and at the end of an indirect jump:
    /// X is added to the zero page address within the zero page, then the
    /// two bytes of the pointer arrive. The second is read from the page of
    /// the first.
    #[verifier::opaque]
    pub open spec fn after_indexed_indirect(self) -> Cpu {
        let d = self.data_bus;
        match self.curr_instr.addr_mode {
            AddressingMode::IndexedIndirectAdd => self.reading(
                word(0, wrap8(self.addr_lo as int + self.x as int)),
            ).in_mode(AddressingMode::IndexedIndirectLo),
            AddressingMode::IndexedIndirectLo => Cpu { addr_lo: d, ..self }.reading(
                next_in_page(self.addr_bus),
            ).in_mode(AddressingMode::IndexedIndirectHi),
            AddressingMode::IndexedIndirectHi => {
                let target = word(d, self.addr_lo);
                if self.curr_instr.opcode == Opcode::JMP {
                    Cpu { addr_hi: d, pc: target, ..self }.resumed()
                } else {
                    Cpu { addr_hi: d, ..self }.reading(target).with_operand_ready(false)
                }
            },
            _ => Cpu { addr_hi: 0, addr_lo: d, ..self.advanced() }.reading(word(0, d)).in_mode(
                AddressingMode::IndexedIndirectAdd,
            ),
        }
    }

    /// `Address` in the mode `(zp),Y`: the two bytes of the pointer arrive
    /// from the zero page, and Y is added. A read whose sum stays in the page
    /// of the pointer asks for its operand at once. Any other access spends
    /// one cycle on a read in the page of the pointer before the address is
    /// complete.
    #[verifier::opaque]
    pub open spec fn after_indirect_indexed(self) -> Cpu {
        let d = self.data_bus;
        match self.curr_instr.addr_mode {
            AddressingMode::IndirectIndexedLo => Cpu { addr_lo: d, ..self }.reading(
                next_in_page(self.addr_bus),
            ).in_mode(AddressingMode::IndirectIndexedHi),
            AddressingMode::IndirectIndexedHi => {
                let latched = Cpu { addr_hi: d, ..self };
                if self.crosses_page() || !self.curr_instr.opcode.is_read() {
                    latched.reading(word(d, wrap8(self.addr_lo as int + self.y as int))).in_mode(
                        AddressingMode::IndirectIndexedPageCross,
                    )
                } else {
                    latched.reading(
                        wrap16(word(d, self.addr_lo) as int + self.y as int),
                    ).in_state(CpuState::Load)
                }
            },
            AddressingMode::IndirectIndexedPageCross => self.reading(
                wrap16(self.operand_addr() as int + self.y as int),
            ).with_operand_ready(false),
            _ => Cpu { addr_hi: 0, addr_lo: d, ..self.advanced() }.reading(word(0, d)).in_mode(
                AddressingMode::IndirectIndexedLo,
            ),
        }
    }

    /// `Address`: one step of putting the operand address together.
    #[verifier::opaque]
    pub open spec fn after_address(self) -> Cpu {
        match self.curr_instr.addr_mode {
            AddressingMode::Implied => self.after_implied(),
            AddressingMode::Immediate => self.after_immediate(),
            AddressingMode::Zeropage | AddressingMode::ZeropageX | AddressingMode::ZeropageY
            | AddressingMode::ZeropageXAdd | AddressingMode::ZeropageYAdd => self.after_zeropage(),
            AddressingMode::AbsoluteLo => self.with_low_byte(AddressingMode::AbsoluteHi),
            AddressingMode::AbsoluteLoX => self.with_low_byte(AddressingMode::AbsoluteHiX),
            AddressingMode::AbsoluteLoY => self.with_low_byte(AddressingMode::AbsoluteHiY),
            AddressingMode::IndirectLo => self.with_low_byte(AddressingMode::IndirectHi),
            AddressingMode::AbsoluteHi | AddressingMode::AbsoluteHiX | AddressingMode::AbsoluteHiY
            | AddressingMode::IndirectHi => self.after_high_byte(),
            AddressingMode::IndexedIndirect | AddressingMode::IndexedIndirectAdd
            | AddressingMode::IndexedIndirectLo | AddressingMode::IndexedIndirectHi =>
                self.after_indexed_indirect(),
            AddressingMode::IndirectIndexed | AddressingMode::IndirectIndexedLo
            | AddressingMode::IndirectIndexedHi | AddressingMode::IndirectIndexedPageCross =>
                self.after_indirect_indexed(),
        }
    }

    /// Whether adding Y to the low byte of the pointer carries into the
    /// high byte.
    pub open spec fn crosses_page(self) -> bool {
        self.addr_lo as int + self.y as int > 0xff
    }

    /// The first of two address bytes arrives: the second is asked for.
    #[verifier::opaque]
    pub open spec fn with_low_byte(self, next: AddressingMode) -> Cpu {
        let passed = Cpu { addr_lo: self.data_bus, ..self.advanced() };
        passed.reading(passed.pc).in_mode(next)
    }

    /// The processor after a branch that is taken has added its offset to
    /// the program counter. A target in the same page is asked for at once.
    /// Before a target in another page the bus sees one read in the old
    /// page, at the low byte of the target.
    pub open spec fn branched(self) -> Cpu {
        let target = branch_target(self.pc, self.addr_lo);
        if same_page(target, self.pc) {
            Cpu { pc: target, ..self }.resumed()
        } else {
            Cpu { pc: target, ..self }.reading(
                word(high_byte(self.pc), low_byte(target)),
            ).in_state(CpuState::ToLoad)
        }
    }

    /// `Load`: the byte that was asked for has arrived.
    #[verifier::opaque]
    pub open spec fn after_load(self) -> Cpu {
        let d = self.data_bus;
        let op = self.curr_instr.opcode;
        let mode = self.curr_instr.addr_mode;
        if op.is_modify() {
            if mode == AddressingMode::AbsoluteHiX || mode == AddressingMode::AbsoluteHiY {
                self.in_mode(AddressingMode::AbsoluteHi)
            } else {
                let r = modified(op, d, self.a, self.sr);
                Cpu { sr: r.1, ..self }.writing(r.0).in_state(CpuState::Store)
            }
        } else if op.is_branch() {
            self.branched()
        } else {
            match op {
                Opcode::BRK => Cpu { addr_hi: d, pc: word(d, self.addr_lo), ..self }.resumed(),
                Opcode::RTI => Cpu {
                    sr: StatusRegister::unpacked(d),
                    stack_word_ready: false,
                    stack_word: 0,
                    ..self
                }.pulling().in_state(CpuState::PullWordHi),
                Opcode::PLA => self.with_a(d).resumed(),
                Opcode::PLP => Cpu { sr: StatusRegister::unpacked(d), ..self }.resumed(),
                _ => self.after_read(d).resumed(),
            }
        }
    }

    /// `Store`: the byte to write is driven onto the data bus.
    #[verifier::opaque]
    pub open spec fn after_store(self) -> Cpu {
        if self.curr_instr.opcode.is_store() {
            self.writing(self.store_value()).in_state(CpuState::ToLoad)
        } else {
            Cpu { rw: false, ..self }.in_state(CpuState::ToLoad)
        }
    }

    /// `PullWordHi`: a byte of the pulled word arrives, first the low one,
    /// then the high one. With both in hand the program counter is loaded:
    /// RTS goes on behind the address that it pulled.
    #[verifier::opaque]
    pub open spec fn after_pull_word_hi(self) -> Cpu {
        if !self.stack_word_ready {
            Cpu {
                stack_word: self.data_bus as u16,
                stack_word_ready: true,
                ..self
            }.pulling().in_state(CpuState::PullWordHi)
        } else {
            let pulled = word(self.data_bus, low_byte(self.stack_word));
            Cpu {
                stack_word: pulled,
                stack_word_ready: false,
                pc: if self.curr_instr.opcode == Opcode::RTS {
                    wrap16(pulled as int + 1)
                } else {
                    pulled
                },
                ..self
            }.in_state(CpuState::ToLoad)
        }
    }

    /// What the state machine makes of one cycle, before the cycle is counted.
    #[verifier::opaque]
    pub open spec fn dispatched(self) -> Cpu {
        match self.state {
            CpuState::Fetch => self.after_fetch(),
            CpuState::Address => self.after_address(),
            CpuState::Load => self.after_load(),
            CpuState::Store => self.after_store(),
            CpuState::ToLoad => self.resumed(),
            CpuState::PushWordHi => self.pushing(high_byte(self.stack_word)).in_state(
                CpuState::PushWordLo,
            ),
            CpuState::PushWordLo => self.pushing(low_byte(self.stack_word)).in_state(
                if self.curr_instr.opcode == Opcode::BRK {
                    CpuState::Interrupt
                } else {
                    CpuState::ToLoad
                },
            ),
            CpuState::Interrupt => Cpu {
                sr: StatusRegister { int_disable: true, ..self.sr },
                ..self.pushing(self.sr.packed())
            }.in_state(CpuState::InterruptLo),
            CpuState::InterruptLo => self.reading(IRQ_VEC_ADDR).in_state(CpuState::InterruptHi),
            CpuState::InterruptHi => Cpu { addr_lo: self.data_bus, ..self }.reading(
                0xffff,
            ).in_state(CpuState::Load),
            CpuState::PullWordLo => Cpu {
                stack_word_ready: false,
                stack_word: 0,
                ..self
            }.pulling().in_state(
                if self.curr_instr.opcode == Opcode::PLA || self.curr_instr.opcode == Opcode::PLP {
                    CpuState::Load
                } else {
                    CpuState::PullWordHi
                },
            ),
            CpuState::PullWordHi => self.after_pull_word_hi(),
            CpuState::Halt => self,
        }
    }

    /// The processor at the end of a cycle that began as `before`: the cycle
    /// is counted, the address bus is driven unless the processor has jammed,
    /// and the two ports with the banking flags are as they were, for only a
    /// write from the bus changes them.
    pub open spec fn counted(self, before: Cpu) -> Cpu {
        Cpu {
            cycles: Cpu::next_count(before.cycles),
            addr_enable: self.state != CpuState::Halt,
            dataport: before.dataport,
            data_direction_reg: before.data_direction_reg,
            kernal_rom_enabled: before.kernal_rom_enabled,
            basic_rom_enabled: before.basic_rom_enabled,
            char_rom_enabled: before.char_rom_enabled,
            io_enabled: before.io_enabled,
            ..self
        }
    }

    /// The cycle counter after one more cycle; it wraps.
    pub open spec fn next_count(count: u64) -> u64 {
        if count == u64::MAX {
            0
        } else {
            (count + 1) as u64
        }
    }

    /// The processor after one clock cycle. A jammed processor stays as it is.
    #[verifier::opaque]
    pub open spec fn step(self) -> Cpu {
        if self.state == CpuState::Halt {
            self
        } else {
            self.dispatched().counted(self)
        }
    }

    /// Whether the processor can take a clock cycle: it is not jammed, and
    /// the code byte that it is about to decode, if any, selects an operation
    /// that it carries out.
    pub open spec fn is_runnable(self) -> bool {
        &&& self.state != CpuState::Halt
        &&& self.state == CpuState::Fetch && !self.takes_interrupt() ==> Opcode::decode(
            self.data_bus,
        ).is_implemented()
    }
}

} // verus!
