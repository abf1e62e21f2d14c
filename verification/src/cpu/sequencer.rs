//! The state machine at work: for every state, the code that carries out what
//! the description of that state in [`Cpu`] says.

use vstd::prelude::*;
use super::addressing_mode::AddressingMode;
use super::bytes::{
    add16, add8, dec8, inc16, inc8, join_bytes, lower, offset_address, successor_in_page, upper,
    word,
};
use super::execute::modify;
use super::instruction::Instruction;
use super::opcode::Opcode;
use super::status_register::StatusRegister;
use super::{Cpu, CpuState, IRQ_VEC_ADDR, STACK_START_ADDR};

verus! {

/// The flags that a packed byte holds.
fn unpack(value: u8) -> (sr: StatusRegister)
    ensures
        sr == StatusRegister::unpacked(value),
{
    let mut sr = StatusRegister::new();
    sr.from_u8(value);
    sr
}

impl Cpu {
    /// Asks to read `addr`.
    pub(super) fn set_addr_bus(self, addr: u16) -> (next: Cpu)
        ensures
            next == self.reading(addr),
    {
        Cpu { addr_bus: addr, addr_enable: true, rw: true, ..self }
    }

    /// Asks to write `value` to the address on the bus.
    pub(super) fn set_data_bus(self, value: u8) -> (next: Cpu)
        ensures
            next == self.writing(value),
    {
        Cpu { data_bus: value, rw: false, ..self }
    }

    pub(super) fn read_data_bus(&self) -> (value: u8)
        ensures
            value == self.data_bus,
    {
        self.data_bus
    }

    pub(super) fn get_stack_addr(&self) -> (addr: u16)
        ensures
            addr == self.stack_addr(),
    {
        (self.sp as u16) + STACK_START_ADDR
    }

    pub(super) fn addr_from_hi_lo(&self) -> (addr: u16)
        ensures
            addr == self.operand_addr(),
    {
        join_bytes(self.addr_hi, self.addr_lo)
    }

    pub(super) fn increment_pc(self) -> (next: Cpu)
        ensures
            next == self.advanced(),
    {
        Cpu { pc: inc16(self.pc), ..self }
    }

    fn push(self, value: u8) -> (next: Cpu)
        ensures
            next == self.pushing(value),
    {
        let driving = self.set_addr_bus(self.get_stack_addr()).set_data_bus(value);
        Cpu { sp: dec8(self.sp), ..driving }
    }

    fn pull(self) -> (next: Cpu)
        ensures
            next == self.pulling(),
    {
        let raised = Cpu { sp: inc8(self.sp), ..self };
        raised.set_addr_bus(raised.get_stack_addr())
    }

    fn enter(self, state: CpuState) -> (next: Cpu)
        ensures
            next == self.in_state(state),
    {
        Cpu { state, ..self }
    }

    fn continue_as(self, mode: AddressingMode) -> (next: Cpu)
        ensures
            next == self.in_mode(mode),
    {
        Cpu { curr_instr: Instruction { addr_mode: mode, ..self.curr_instr }, ..self }
    }

    fn resume(self) -> (next: Cpu)
        ensures
            next == self.resumed(),
    {
        self.set_addr_bus(self.pc).enter(CpuState::Fetch)
    }

    fn operand_ready(self, indexed: bool) -> (next: Cpu)
        ensures
            next == self.with_operand_ready(indexed),
    {
        if self.curr_instr.opcode.stores() {
            if indexed {
                self.enter(CpuState::Store)
            } else {
                self.set_data_bus(self.value_to_store()).enter(CpuState::ToLoad)
            }
        } else {
            self.enter(CpuState::Load)
        }
    }

    fn fetch(self) -> (next: Cpu)
        ensures
            next == self.after_fetch(),
    {
        proof {
            reveal(Cpu::after_fetch);
        }
        if self.irq && !self.sr.int_disable {
            Cpu {
                irq: false,
                curr_instr: Instruction { opcode: Opcode::BRK, addr_mode: AddressingMode::Implied },
                sr: StatusRegister { break_cmd: false, ..self.sr },
                stack_word: self.pc,
                state: CpuState::PushWordHi,
                ..self
            }
        } else {
            let fetched = Cpu {
                irq: false,
                curr_instr: Instruction::from_u8(self.read_data_bus()),
                ..self
            }.increment_pc();
            fetched.set_addr_bus(fetched.pc).enter(CpuState::Address)
        }
    }

    fn implied(self) -> (next: Cpu)
        ensures
            next == self.after_implied(),
    {
        proof {
            reveal(Cpu::after_implied);
        }
        match self.curr_instr.opcode {
            Opcode::BRK => {
                let skipped = self.increment_pc();
                Cpu {
                    sr: StatusRegister { break_cmd: true, ..self.sr },
                    stack_word: skipped.pc,
                    ..skipped
                }.push(upper(skipped.pc)).enter(CpuState::PushWordLo)
            },
            Opcode::PHA => self.push(self.a).enter(CpuState::ToLoad),
            Opcode::PHP => {
                let pushed = StatusRegister { break_cmd: true, ..self.sr };
                self.push(pushed.to_u8()).enter(CpuState::ToLoad)
            },
            Opcode::PLA | Opcode::PLP | Opcode::RTS => self.set_addr_bus(
                self.get_stack_addr(),
            ).enter(CpuState::PullWordLo),
            Opcode::RTI => self.pull().enter(CpuState::Load),
            Opcode::KIL => Cpu { addr_enable: false, state: CpuState::Halt, ..self },
            _ => self.execute_register_op().resume(),
        }
    }

    fn immediate(self) -> (next: Cpu)
        ensures
            next == self.after_immediate(),
    {
        proof {
            reveal(Cpu::after_immediate);
        }
        if self.curr_instr.opcode.branches() {
            let passed = self.increment_pc();
            let next = passed.set_addr_bus(passed.pc);
            if self.takes_branch() {
                Cpu { addr_lo: self.data_bus, ..next }.enter(CpuState::Load)
            } else {
                next.enter(CpuState::Fetch)
            }
        } else {
            let passed = self.execute_read(self.data_bus).increment_pc();
            passed.set_addr_bus(passed.pc).enter(CpuState::Fetch)
        }
    }

    fn low_byte_arrives(self, next: AddressingMode) -> (after: Cpu)
        ensures
            after == self.with_low_byte(next),
    {
        proof {
            reveal(Cpu::with_low_byte);
        }
        let passed = Cpu { addr_lo: self.data_bus, ..self.increment_pc() };
        passed.set_addr_bus(passed.pc).continue_as(next)
    }

    /// Leaves the zero page address that has arrived in the working pair and
    /// on the address bus.
    fn zeropage_arrives(self) -> (next: Cpu)
        ensures
            next == (Cpu { addr_hi: 0, addr_lo: self.data_bus, ..self.advanced() }).reading(
                word(0, self.data_bus),
            ),
    {
        let d = self.data_bus;
        Cpu { addr_hi: 0, addr_lo: d, ..self.increment_pc() }.set_addr_bus(join_bytes(0, d))
    }

    fn zeropage(self) -> (next: Cpu)
        ensures
            next == self.after_zeropage(),
    {
        proof {
            reveal(Cpu::after_zeropage);
        }
        match self.curr_instr.addr_mode {
            AddressingMode::ZeropageX => self.zeropage_arrives().continue_as(
                AddressingMode::ZeropageXAdd,
            ),
            AddressingMode::ZeropageY => self.zeropage_arrives().continue_as(
                AddressingMode::ZeropageYAdd,
            ),
            AddressingMode::ZeropageXAdd => {
                let lo = add8(self.addr_lo, self.x);
                Cpu { addr_lo: lo, ..self }.set_addr_bus(
                    join_bytes(self.addr_hi, lo),
                ).operand_ready(false)
            },
            AddressingMode::ZeropageYAdd => {
                let lo = add8(self.addr_lo, self.y);
                Cpu { addr_lo: lo, ..self }.set_addr_bus(
                    join_bytes(self.addr_hi, lo),
                ).operand_ready(false)
            },
            _ => self.zeropage_arrives().operand_ready(false),
        }
    }

    fn high_byte_arrives(self) -> (next: Cpu)
        ensures
            next == self.after_high_byte(),
    {
        proof {
            reveal(Cpu::after_high_byte);
        }
        let d = self.data_bus;
        let op = self.curr_instr.opcode;
        let target = join_bytes(d, self.addr_lo);
        let passed = Cpu { addr_hi: d, ..self.increment_pc() };
        match self.curr_instr.addr_mode {
            AddressingMode::AbsoluteHiX => passed.set_addr_bus(add16(target, self.x)).operand_ready(
                true,
            ),
            AddressingMode::AbsoluteHiY => passed.set_addr_bus(add16(target, self.y)).operand_ready(
                true,
            ),
            AddressingMode::IndirectHi => passed.set_addr_bus(target).continue_as(
                AddressingMode::IndexedIndirectLo,
            ),
            _ => {
                if op == Opcode::JMP {
                    Cpu { addr_hi: d, pc: target, ..self }.resume()
                } else if op == Opcode::JSR {
                    Cpu { addr_hi: d, stack_word: self.pc, pc: target, ..self }.set_addr_bus(
                        self.get_stack_addr(),
                    ).enter(CpuState::PushWordHi)
                } else {
                    passed.set_addr_bus(target).operand_ready(false)
                }
            },
        }
    }

    fn indexed_indirect(self) -> (next: Cpu)
        ensures
            next == self.after_indexed_indirect(),
    {
        proof {
            reveal(Cpu::after_indexed_indirect);
        }
        let d = self.data_bus;
        match self.curr_instr.addr_mode {
            AddressingMode::IndexedIndirectAdd => self.set_addr_bus(
                join_bytes(0, add8(self.addr_lo, self.x)),
            ).continue_as(AddressingMode::IndexedIndirectLo),
            AddressingMode::IndexedIndirectLo => Cpu { addr_lo: d, ..self }.set_addr_bus(
                successor_in_page(self.addr_bus),
            ).continue_as(AddressingMode::IndexedIndirectHi),
            AddressingMode::IndexedIndirectHi => {
                let target = join_bytes(d, self.addr_lo);
                if self.curr_instr.opcode == Opcode::JMP {
                    Cpu { addr_hi: d, pc: target, ..self }.resume()
                } else {
                    Cpu { addr_hi: d, ..self }.set_addr_bus(target).operand_ready(false)
                }
            },
            _ => self.zeropage_arrives().continue_as(AddressingMode::IndexedIndirectAdd),
        }
    }

    fn indirect_indexed(self) -> (next: Cpu)
        ensures
            next == self.after_indirect_indexed(),
    {
        proof {
            reveal(Cpu::after_indirect_indexed);
        }
        let d = self.data_bus;
        match self.curr_instr.addr_mode {
            AddressingMode::IndirectIndexedLo => Cpu { addr_lo: d, ..self }.set_addr_bus(
                successor_in_page(self.addr_bus),
            ).continue_as(AddressingMode::IndirectIndexedHi),
            AddressingMode::IndirectIndexedHi => {
                let latched = Cpu { addr_hi: d, ..self };
                let crossed = (self.addr_lo as u16) + (self.y as u16) > 0xff;
                if crossed || !self.curr_instr.opcode.reads() {
                    latched.set_addr_bus(join_bytes(d, add8(self.addr_lo, self.y))).continue_as(
                        AddressingMode::IndirectIndexedPageCross,
                    )
                } else {
                    latched.set_addr_bus(add16(join_bytes(d, self.addr_lo), self.y)).enter(
                        CpuState::Load,
                    )
                }
            },
            AddressingMode::IndirectIndexedPageCross => self.set_addr_bus(
                add16(self.addr_from_hi_lo(), self.y),
            ).operand_ready(false),
            _ => self.zeropage_arrives().continue_as(AddressingMode::IndirectIndexedLo),
        }
    }

    fn address(self) -> (next: Cpu)
        ensures
            next == self.after_address(),
    {
        proof {
            reveal(Cpu::after_address);
        }
        match self.curr_instr.addr_mode {
            AddressingMode::Implied => self.implied(),
            AddressingMode::Immediate => self.immediate(),
            AddressingMode::Zeropage | AddressingMode::ZeropageX | AddressingMode::ZeropageY
            | AddressingMode::ZeropageXAdd | AddressingMode::ZeropageYAdd => self.zeropage(),
            AddressingMode::AbsoluteLo => self.low_byte_arrives(AddressingMode::AbsoluteHi),
            AddressingMode::AbsoluteLoX => self.low_byte_arrives(AddressingMode::AbsoluteHiX),
            AddressingMode::AbsoluteLoY => self.low_byte_arrives(AddressingMode::AbsoluteHiY),
            AddressingMode::IndirectLo => self.low_byte_arrives(AddressingMode::IndirectHi),
            AddressingMode::AbsoluteHi | AddressingMode::AbsoluteHiX | AddressingMode::AbsoluteHiY
            | AddressingMode::IndirectHi => self.high_byte_arrives(),
            AddressingMode::IndexedIndirect | AddressingMode::IndexedIndirectAdd
            | AddressingMode::IndexedIndirectLo | AddressingMode::IndexedIndirectHi =>
                self.indexed_indirect(),
            AddressingMode::IndirectIndexed | AddressingMode::IndirectIndexedLo
            | AddressingMode::IndirectIndexedHi | AddressingMode::IndirectIndexedPageCross =>
                self.indirect_indexed(),
        }
    }

    /// Redirects the program counter by the offset of a branch. When the
    /// target lies in another page the bus sees one read in the old page first.
    pub(super) fn relative_branch(self) -> (next: Cpu)
        ensures
            next == self.branched(),
    {
        let target = offset_address(self.pc, self.addr_lo);
        if upper(target) == upper(self.pc) {
            Cpu { pc: target, ..self }.resume()
        } else {
            Cpu { pc: target, ..self }.set_addr_bus(join_bytes(upper(self.pc), lower(target))).enter(
                CpuState::ToLoad,
            )
        }
    }

    /// Carries out the current operation on the byte that has arrived.
    pub(super) fn do_instr(self) -> (next: Cpu)
        ensures
            next == self.after_load(),
    {
        proof {
            reveal(Cpu::after_load);
        }
        let d = self.data_bus;
        let op = self.curr_instr.opcode;
        let mode = self.curr_instr.addr_mode;
        if op.modifies() {
            if mode == AddressingMode::AbsoluteHiX || mode == AddressingMode::AbsoluteHiY {
                self.continue_as(AddressingMode::AbsoluteHi)
            } else {
                let (result, flags) = modify(op, d, self.a, self.sr);
                Cpu { sr: flags, ..self }.set_data_bus(result).enter(CpuState::Store)
            }
        } else if op.branches() {
            self.relative_branch()
        } else {
            match op {
                Opcode::BRK => Cpu { addr_hi: d, pc: join_bytes(d, self.addr_lo), ..self }.resume(),
                Opcode::RTI => Cpu {
                    sr: unpack(d),
                    stack_word_ready: false,
                    stack_word: 0,
                    ..self
                }.pull().enter(CpuState::PullWordHi),
                Opcode::PLA => Cpu { a: d, ..self }.execute_pull_flags(d).resume(),
                Opcode::PLP => Cpu { sr: unpack(d), ..self }.resume(),
                _ => self.execute_read(d).resume(),
            }
        }
    }

    /// Sets N and Z from a byte that was pulled into A.
    fn execute_pull_flags(self, value: u8) -> (next: Cpu)
        ensures
            next == (Cpu { sr: self.sr.with_result(value), ..self }),
    {
        let mut flags = self.sr;
        flags.determine_zero(value);
        flags.determine_negative(value);
        Cpu { sr: flags, ..self }
    }

    fn store(self) -> (next: Cpu)
        ensures
            next == self.after_store(),
    {
        proof {
            reveal(Cpu::after_store);
        }
        if self.curr_instr.opcode.stores() {
            self.set_data_bus(self.value_to_store()).enter(CpuState::ToLoad)
        } else {
            Cpu { rw: false, ..self }.enter(CpuState::ToLoad)
        }
    }

    fn pull_word_hi(self) -> (next: Cpu)
        ensures
            next == self.after_pull_word_hi(),
    {
        proof {
            reveal(Cpu::after_pull_word_hi);
        }
        if !self.stack_word_ready {
            Cpu { stack_word: self.data_bus as u16, stack_word_ready: true, ..self }.pull().enter(
                CpuState::PullWordHi,
            )
        } else {
            let pulled = join_bytes(self.data_bus, lower(self.stack_word));
            let pc = if self.curr_instr.opcode == Opcode::RTS {
                inc16(pulled)
            } else {
                pulled
            };
            Cpu { stack_word: pulled, stack_word_ready: false, pc, ..self }.enter(CpuState::ToLoad)
        }
    }

    /// Carries out what the current state asks for.
    pub(super) fn dispatch(self) -> (next: Cpu)
        ensures
            next == self.dispatched(),
    {
        proof {
            reveal(Cpu::dispatched);
        }
        match self.state {
            CpuState::Fetch => self.fetch(),
            CpuState::Address => self.address(),
            CpuState::Load => self.do_instr(),
            CpuState::Store => self.store(),
            CpuState::ToLoad => self.resume(),
            CpuState::PushWordHi => self.push(upper(self.stack_word)).enter(CpuState::PushWordLo),
            CpuState::PushWordLo => {
                let then = if self.curr_instr.opcode == Opcode::BRK {
                    CpuState::Interrupt
                } else {
                    CpuState::ToLoad
                };
                self.push(lower(self.stack_word)).enter(then)
            },
            CpuState::Interrupt => {
                let pushed = self.push(self.sr.to_u8());
                Cpu { sr: StatusRegister { int_disable: true, ..self.sr }, ..pushed }.enter(
                    CpuState::InterruptLo,
                )
            },
            CpuState::InterruptLo => self.set_addr_bus(IRQ_VEC_ADDR).enter(CpuState::InterruptHi),
            CpuState::InterruptHi => Cpu { addr_lo: self.data_bus, ..self }.set_addr_bus(
                0xffff,
            ).enter(CpuState::Load),
            CpuState::PullWordLo => {
                let then = if self.curr_instr.opcode == Opcode::PLA || self.curr_instr.opcode
                    == Opcode::PLP {
                    CpuState::Load
                } else {
                    CpuState::PullWordHi
                };
                Cpu { stack_word_ready: false, stack_word: 0, ..self }.pull().enter(then)
            },
            CpuState::PullWordHi => self.pull_word_hi(),
            CpuState::Halt => self,
        }
    }
}

} // verus!
