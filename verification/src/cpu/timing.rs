//! How many clock cycles each instruction takes.
//!
//! The count is stated for every instruction that the processor carries out
//! and proved for every state and every byte that the bus may deliver: first
//! for each state of the machine by itself, then for the phases of an
//! instruction, at last for the instruction as a whole.

use vstd::prelude::*;
use super::addressing_mode::AddressingMode;
use super::bytes::{branch_target, same_page, wrap16};
use super::execute::condition_holds;
use super::instruction::Instruction;
use super::opcode::Opcode;
use super::{Cpu, CpuState};

verus! {

/// What the bus delivers: `feed(k)` is the byte that it hands over before
/// cycle `k`.
pub type Feed = spec_fn(nat) -> u8;

/// The cycles that a memory access takes once its address stands on the bus:
/// a read is done when its operand arrives; a store drives its byte, after
/// one more read of the address if that was indexed; a read-modify-write
/// reads, writes back, and reads once more before that if the address was
/// indexed as a whole.
pub open spec fn access_cycles(op: Opcode, indexed: bool, reread: bool) -> nat {
    if op.is_modify() {
        if reread {
            4
        } else {
            3
        }
    } else if op.is_store() && indexed {
        2
    } else {
        1
    }
}

/// The cycles that an instruction takes after its code byte has been fetched.
/// `taken` tells whether the condition of a branch holds, `far` whether its
/// target lies in another page, and `crossing` whether adding Y to the
/// pointer of `(zp),Y` carries into the high byte.
pub open spec fn cycles_after_fetch(instr: Instruction, taken: bool, far: bool, crossing: bool)
    -> nat {
    let op = instr.opcode;
    match instr.addr_mode {
        AddressingMode::Implied => match op {
            Opcode::BRK => 6,
            Opcode::PHA | Opcode::PHP => 2,
            Opcode::PLA | Opcode::PLP => 3,
            Opcode::RTS | Opcode::RTI => 5,
            _ => 1,
        },
        AddressingMode::Immediate => if op.is_branch() && taken {
            if far {
                3
            } else {
                2
            }
        } else {
            1
        },
        AddressingMode::Zeropage => 1 + access_cycles(op, false, false),
        AddressingMode::ZeropageX | AddressingMode::ZeropageY => 2 + access_cycles(
            op,
            false,
            false,
        ),
        AddressingMode::AbsoluteLo => if op == Opcode::JMP {
            2
        } else if op == Opcode::JSR {
            5
        } else {
            2 + access_cycles(op, false, false)
        },
        AddressingMode::AbsoluteLoX | AddressingMode::AbsoluteLoY => 2 + access_cycles(
            op,
            true,
            true,
        ),
        AddressingMode::IndirectLo => 4,
        AddressingMode::IndexedIndirect => 4 + access_cycles(op, false, false),
        AddressingMode::IndirectIndexed => if op.is_read() && !crossing {
            4
        } else {
            4 + access_cycles(op, false, false)
        },
        _ => 0,
    }
}

impl Cpu {
    /// The processor after the bus has delivered `d` and one cycle has passed.
    pub open spec fn clocked(self, d: u8) -> Cpu {
        self.latched(d).step()
    }

    /// The processor after `n` clock cycles.
    pub open spec fn after_cycles(self, feed: Feed, n: nat) -> Cpu
        decreases n,
    {
        if n == 0 {
            self
        } else {
            self.after_cycles(feed, (n - 1) as nat).clocked(feed((n - 1) as nat))
        }
    }

    /// Whether the processor stands between two instructions: it asks for
    /// the code byte at the program counter.
    pub open spec fn at_instruction(self) -> bool {
        self.state == CpuState::Fetch && self.rw && self.addr_bus == self.pc
    }

    /// Whether the processor is within an instruction from after cycle
    /// `from` until before cycle `to`.
    pub open spec fn busy_between(self, feed: Feed, from: nat, to: nat) -> bool {
        forall|k: nat| from < k < to ==> (#[trigger] self.after_cycles(feed, k)).state != CpuState::Fetch
    }

    /// The cycles that the instruction takes which the processor, standing
    /// between two instructions, is about to fetch.
    pub open spec fn instruction_cycles(self, feed: Feed) -> nat {
        let instr = Instruction::decode(feed(0));
        let behind = wrap16(wrap16(self.pc as int + 1) as int + 1);
        1 + cycles_after_fetch(
            instr,
            condition_holds(instr.opcode, self.sr),
            !same_page(branch_target(behind, feed(1)), behind),
            feed(2) as int + self.y as int > 0xff,
        )
    }

    /// Whether the operand address of the instruction `op` stands on the bus
    /// and the processor has done what `with_operand_ready` says.
    pub open spec fn stands_ready(self, op: Opcode, indexed: bool) -> bool {
        &&& self.curr_instr.opcode == op
        &&& self.state == if op.is_store() {
            if indexed {
                CpuState::Store
            } else {
                CpuState::ToLoad
            }
        } else {
            CpuState::Load
        }
    }

    /// Whether the processor goes on with the instruction `op` in the
    /// addressing step `mode`.
    pub open spec fn addresses(self, op: Opcode, mode: AddressingMode) -> bool {
        &&& self.state == CpuState::Address
        &&& self.curr_instr.opcode == op
        &&& self.curr_instr.addr_mode == mode
        &&& self.rw
    }

    /// Whether the processor goes on with the instruction `op` in `state`.
    pub open spec fn goes_on(self, op: Opcode, state: CpuState) -> bool {
        self.state == state && self.curr_instr.opcode == op
    }
}

// One state at a time.

proof fn lemma_fetch(c: Cpu)
    requires
        c.state == CpuState::Fetch,
        !c.takes_interrupt(),
    ensures
        c.step().state == CpuState::Address,
        c.step().curr_instr == Instruction::decode(c.data_bus),
        c.step().rw,
        c.step().sr == c.sr,
        c.step().y == c.y,
        c.step().pc == wrap16(c.pc as int + 1),
{
    reveal(Cpu::step);
    reveal(Cpu::dispatched);
    reveal(Cpu::after_fetch);
}

proof fn lemma_fetch_interrupt(c: Cpu)
    requires
        c.state == CpuState::Fetch,
        c.takes_interrupt(),
    ensures
        c.step().goes_on(Opcode::BRK, CpuState::PushWordHi),
        c.step().stack_word == c.pc,
        !c.step().sr.break_cmd,
        !c.step().irq,
{
    reveal(Cpu::step);
    reveal(Cpu::dispatched);
    reveal(Cpu::after_fetch);
}

proof fn lemma_implied(c: Cpu)
    requires
        c.state == CpuState::Address,
        c.curr_instr.addr_mode == AddressingMode::Implied,
    ensures
        ({
            let n = c.step();
            let op = c.curr_instr.opcode;
            match op {
                Opcode::BRK => n.goes_on(op, CpuState::PushWordLo),
                Opcode::PHA | Opcode::PHP => n.goes_on(op, CpuState::ToLoad),
                Opcode::PLA | Opcode::PLP | Opcode::RTS => n.goes_on(op, CpuState::PullWordLo),
                Opcode::RTI => n.goes_on(op, CpuState::Load),
                Opcode::KIL => n.state == CpuState::Halt,
                _ => n.at_instruction(),
            }
        }),
{
    reveal(Cpu::step);
    reveal(Cpu::dispatched);
    reveal(Cpu::after_address);
    reveal(Cpu::after_implied);
}

proof fn lemma_immediate(c: Cpu)
    requires
        c.state == CpuState::Address,
        c.curr_instr.addr_mode == AddressingMode::Immediate,
    ensures
        ({
            let n = c.step();
            let op = c.curr_instr.opcode;
            if op.is_branch() && condition_holds(op, c.sr) {
                &&& n.goes_on(op, CpuState::Load)
                &&& n.addr_lo == c.data_bus
                &&& n.pc == wrap16(c.pc as int + 1)
            } else {
                n.at_instruction()
            }
        }),
{
    reveal(Cpu::step);
    reveal(Cpu::dispatched);
    reveal(Cpu::after_address);
    reveal(Cpu::after_immediate);
}

proof fn lemma_zeropage(c: Cpu)
    requires
        c.state == CpuState::Address,
        matches!(
            c.curr_instr.addr_mode,
            AddressingMode::Zeropage | AddressingMode::ZeropageX | AddressingMode::ZeropageY
                | AddressingMode::ZeropageXAdd | AddressingMode::ZeropageYAdd
        ),
    ensures
        ({
            let n = c.step();
            let op = c.curr_instr.opcode;
            match c.curr_instr.addr_mode {
                AddressingMode::ZeropageX => n.addresses(op, AddressingMode::ZeropageXAdd),
                AddressingMode::ZeropageY => n.addresses(op, AddressingMode::ZeropageYAdd),
                _ => n.stands_ready(op, false) && n.curr_instr.addr_mode == c.curr_instr.addr_mode,
            }
        }),
{
    reveal(Cpu::step);
    reveal(Cpu::dispatched);
    reveal(Cpu::after_address);
    reveal(Cpu::after_zeropage);
}

proof fn lemma_low_byte(c: Cpu)
    requires
        c.state == CpuState::Address,
        matches!(
            c.curr_instr.addr_mode,
            AddressingMode::AbsoluteLo | AddressingMode::AbsoluteLoX | AddressingMode::AbsoluteLoY
                | AddressingMode::IndirectLo
        ),
    ensures
        ({
            let n = c.step();
            let op = c.curr_instr.opcode;
            match c.curr_instr.addr_mode {
                AddressingMode::AbsoluteLoX => n.addresses(op, AddressingMode::AbsoluteHiX),
                AddressingMode::AbsoluteLoY => n.addresses(op, AddressingMode::AbsoluteHiY),
                AddressingMode::IndirectLo => n.addresses(op, AddressingMode::IndirectHi),
                _ => n.addresses(op, AddressingMode::AbsoluteHi),
            }
        }),
{
    reveal(Cpu::step);
    reveal(Cpu::dispatched);
    reveal(Cpu::after_address);
    reveal(Cpu::with_low_byte);
}

proof fn lemma_high_byte(c: Cpu)
    requires
        c.state == CpuState::Address,
        matches!(
            c.curr_instr.addr_mode,
            AddressingMode::AbsoluteHi | AddressingMode::AbsoluteHiX | AddressingMode::AbsoluteHiY
                | AddressingMode::IndirectHi
        ),
    ensures
        ({
            let n = c.step();
            let op = c.curr_instr.opcode;
            match c.curr_instr.addr_mode {
                AddressingMode::AbsoluteHiX | AddressingMode::AbsoluteHiY => n.stands_ready(
                    op,
                    true,
                ) && n.curr_instr.addr_mode == c.curr_instr.addr_mode,
                AddressingMode::IndirectHi => n.addresses(op, AddressingMode::IndexedIndirectLo),
                _ => if op == Opcode::JMP {
                    n.at_instruction()
                } else if op == Opcode::JSR {
                    n.goes_on(op, CpuState::PushWordHi)
                } else {
                    n.stands_ready(op, false) && n.curr_instr.addr_mode == AddressingMode::AbsoluteHi
                },
            }
        }),
{
    reveal(Cpu::step);
    reveal(Cpu::dispatched);
    reveal(Cpu::after_address);
    reveal(Cpu::after_high_byte);
}

proof fn lemma_indexed_indirect(c: Cpu)
    requires
        c.state == CpuState::Address,
        matches!(
            c.curr_instr.addr_mode,
            AddressingMode::IndexedIndirect | AddressingMode::IndexedIndirectAdd
                | AddressingMode::IndexedIndirectLo | AddressingMode::IndexedIndirectHi
        ),
    ensures
        ({
            let n = c.step();
            let op = c.curr_instr.opcode;
            match c.curr_instr.addr_mode {
                AddressingMode::IndexedIndirect => n.addresses(
                    op,
                    AddressingMode::IndexedIndirectAdd,
                ),
                AddressingMode::IndexedIndirectAdd => n.addresses(
                    op,
                    AddressingMode::IndexedIndirectLo,
                ),
                AddressingMode::IndexedIndirectLo => n.addresses(
                    op,
                    AddressingMode::IndexedIndirectHi,
                ),
                _ => if op == Opcode::JMP {
                    n.at_instruction()
                } else {
                    n.stands_ready(op, false) && n.curr_instr.addr_mode
                        == AddressingMode::IndexedIndirectHi
                },
            }
        }),
{
    reveal(Cpu::step);
    reveal(Cpu::dispatched);
    reveal(Cpu::after_address);
    reveal(Cpu::after_indexed_indirect);
}

proof fn lemma_indirect_indexed(c: Cpu)
    requires
        c.state == CpuState::Address,
        matches!(
            c.curr_instr.addr_mode,
            AddressingMode::IndirectIndexed | AddressingMode::IndirectIndexedLo
                | AddressingMode::IndirectIndexedHi | AddressingMode::IndirectIndexedPageCross
        ),
    ensures
        ({
            let n = c.step();
            let op = c.curr_instr.opcode;
            match c.curr_instr.addr_mode {
                AddressingMode::IndirectIndexed => n.addresses(
                    op,
                    AddressingMode::IndirectIndexedLo,
                ) && n.y == c.y,
                AddressingMode::IndirectIndexedLo => n.addresses(
                    op,
                    AddressingMode::IndirectIndexedHi,
                ) && n.y == c.y && n.addr_lo == c.data_bus,
                AddressingMode::IndirectIndexedHi => if op.is_read() && !c.crosses_page() {
                    n.goes_on(op, CpuState::Load) && n.curr_instr.addr_mode
                        == AddressingMode::IndirectIndexedHi
                } else {
                    n.addresses(op, AddressingMode::IndirectIndexedPageCross)
                },
                _ => n.stands_ready(op, false) && n.curr_instr.addr_mode
                    == AddressingMode::IndirectIndexedPageCross,
            }
        }),
{
    reveal(Cpu::step);
    reveal(Cpu::dispatched);
    reveal(Cpu::after_address);
    reveal(Cpu::after_indirect_indexed);
}

proof fn lemma_load(c: Cpu)
    requires
        c.state == CpuState::Load,
    ensures
        ({
            let n = c.step();
            let op = c.curr_instr.opcode;
            let mode = c.curr_instr.addr_mode;
            if op.is_modify() {
                if mode == AddressingMode::AbsoluteHiX || mode == AddressingMode::AbsoluteHiY {
                    n.goes_on(op, CpuState::Load) && n.curr_instr.addr_mode
                        == AddressingMode::AbsoluteHi
                } else {
                    n.goes_on(op, CpuState::Store)
                }
            } else if op.is_branch() {
                if same_page(branch_target(c.pc, c.addr_lo), c.pc) {
                    n.at_instruction()
                } else {
                    n.goes_on(op, CpuState::ToLoad)
                }
            } else if op == Opcode::RTI {
                n.goes_on(op, CpuState::PullWordHi) && !n.stack_word_ready
            } else {
                n.at_instruction()
            }
        }),
{
    reveal(Cpu::step);
    reveal(Cpu::dispatched);
    reveal(Cpu::after_load);
}

proof fn lemma_write_back(c: Cpu)
    requires
        c.state == CpuState::Store || c.state == CpuState::ToLoad,
    ensures
        c.state == CpuState::Store ==> c.step().goes_on(c.curr_instr.opcode, CpuState::ToLoad),
        c.state == CpuState::ToLoad ==> c.step().at_instruction(),
{
    reveal(Cpu::step);
    reveal(Cpu::dispatched);
    reveal(Cpu::after_store);
}

proof fn lemma_push(c: Cpu)
    requires
        matches!(
            c.state,
            CpuState::PushWordHi | CpuState::PushWordLo | CpuState::Interrupt
                | CpuState::InterruptLo | CpuState::InterruptHi
        ),
    ensures
        ({
            let n = c.step();
            let op = c.curr_instr.opcode;
            match c.state {
                CpuState::PushWordHi => n.goes_on(op, CpuState::PushWordLo),
                CpuState::PushWordLo => n.goes_on(
                    op,
                    if op == Opcode::BRK {
                        CpuState::Interrupt
                    } else {
                        CpuState::ToLoad
                    },
                ),
                CpuState::Interrupt => n.goes_on(op, CpuState::InterruptLo),
                CpuState::InterruptLo => n.goes_on(op, CpuState::InterruptHi),
                _ => n.goes_on(op, CpuState::Load),
            }
        }),
{
    reveal(Cpu::step);
    reveal(Cpu::dispatched);
}

proof fn lemma_pull(c: Cpu)
    requires
        c.state == CpuState::PullWordLo || c.state == CpuState::PullWordHi,
    ensures
        ({
            let n = c.step();
            let op = c.curr_instr.opcode;
            if c.state == CpuState::PullWordLo {
                if op == Opcode::PLA || op == Opcode::PLP {
                    n.goes_on(op, CpuState::Load)
                } else {
                    n.goes_on(op, CpuState::PullWordHi) && !n.stack_word_ready
                }
            } else if !c.stack_word_ready {
                n.goes_on(op, CpuState::PullWordHi) && n.stack_word_ready
            } else {
                n.goes_on(op, CpuState::ToLoad)
            }
        }),
{
    reveal(Cpu::step);
    reveal(Cpu::dispatched);
    reveal(Cpu::after_pull_word_hi);
}

// One phase of an instruction at a time.

/// Unfolds one cycle: what the processor is after cycle `k` follows from
/// what it was before, with the byte `feed(k)` latched if it asked for one.
proof fn lemma_cycle(c: Cpu, feed: Feed, k: nat)
    ensures
        c.after_cycles(feed, k + 1) == c.after_cycles(feed, k).latched(feed(k)).step(),
{
    reveal_with_fuel(Cpu::after_cycles, 2);
}

/// From the cycle in which the operand address stands ready, a memory access
/// is over after `access_cycles` more cycles and not before.
proof fn lemma_access(c: Cpu, feed: Feed, k: nat, indexed: bool)
    requires
        ({
            let p = c.after_cycles(feed, k);
            let op = p.curr_instr.opcode;
            &&& p.stands_ready(op, indexed)
            &&& op.is_read() || op.is_store() || op.is_modify()
        }),
    ensures
        ({
            let p = c.after_cycles(feed, k);
            let mode = p.curr_instr.addr_mode;
            let n = access_cycles(
                p.curr_instr.opcode,
                indexed,
                mode == AddressingMode::AbsoluteHiX || mode == AddressingMode::AbsoluteHiY,
            );
            &&& c.after_cycles(feed, k + n).at_instruction()
            &&& c.busy_between(feed, k, k + n)
        }),
{
    let p = c.after_cycles(feed, k);
    let op = p.curr_instr.opcode;
    let mode = p.curr_instr.addr_mode;
    let q0 = p.latched(feed(k));
    let p1 = c.after_cycles(feed, k + 1);
    let q1 = p1.latched(feed(k + 1));
    let p2 = c.after_cycles(feed, k + 2);
    let q2 = p2.latched(feed(k + 2));
    let p3 = c.after_cycles(feed, k + 3);
    let q3 = p3.latched(feed(k + 3));
    lemma_cycle(c, feed, k);
    lemma_cycle(c, feed, k + 1);
    lemma_cycle(c, feed, k + 2);
    lemma_cycle(c, feed, k + 3);
    if op.is_modify() {
        lemma_load(q0);
        if mode == AddressingMode::AbsoluteHiX || mode == AddressingMode::AbsoluteHiY {
            lemma_load(q1);
            lemma_write_back(q2);
            lemma_write_back(q3);
        } else {
            lemma_write_back(q1);
            lemma_write_back(q2);
        }
    } else if op.is_store() {
        lemma_write_back(q0);
        if indexed {
            lemma_write_back(q1);
        }
    } else {
        lemma_load(q0);
    }
}

impl Cpu {
    /// Whether the processor stands between two instructions and the bus is
    /// about to deliver the code byte of one that the processor carries out
    /// and that does not jam it.
    pub open spec fn starts_instruction(self, feed: Feed) -> bool {
        &&& self.state == CpuState::Fetch
        &&& self.rw
        &&& !self.takes_interrupt()
        &&& Instruction::decode(feed(0)).opcode.is_implemented()
        &&& Instruction::decode(feed(0)).opcode != Opcode::KIL
    }

    /// Whether the instruction is over after exactly `n` cycles.
    pub open spec fn takes(self, feed: Feed, n: nat) -> bool {
        self.after_cycles(feed, n).at_instruction() && self.busy_between(feed, 0, n)
    }
}

/// The first cycle of an instruction decodes the code byte.
proof fn lemma_first_cycle(c: Cpu, feed: Feed)
    requires
        c.starts_instruction(feed),
    ensures
        ({
            let instr = Instruction::decode(feed(0));
            let p = c.after_cycles(feed, 1);
            &&& p.addresses(instr.opcode, instr.addr_mode)
            &&& p.sr == c.sr
            &&& p.y == c.y
            &&& p.pc == wrap16(c.pc as int + 1)
            &&& instr.is_coherent()
            &&& instr.addr_mode.is_entry()
        }),
{
    reveal_with_fuel(Cpu::after_cycles, 2);
    lemma_fetch(c.latched(feed(0)));
    Instruction::lemma_decode_is_coherent(feed(0));
}

proof fn lemma_time_zeropage(c: Cpu, feed: Feed)
    requires
        c.starts_instruction(feed),
        ({
            let mode = Instruction::decode(feed(0)).addr_mode;
            matches!(
                mode,
                AddressingMode::Zeropage | AddressingMode::ZeropageX | AddressingMode::ZeropageY
            )
        }),
    ensures
        c.takes(feed, c.instruction_cycles(feed)),
{
    lemma_first_cycle(c, feed);
    let p1 = c.after_cycles(feed, 1);
    let p2 = c.after_cycles(feed, 2);
    lemma_cycle(c, feed, 1);
    lemma_cycle(c, feed, 2);
    lemma_zeropage(p1.latched(feed(1)));
    if p1.curr_instr.addr_mode == AddressingMode::Zeropage {
        lemma_access(c, feed, 2, false);
    } else {
        lemma_zeropage(p2.latched(feed(2)));
        lemma_access(c, feed, 3, false);
    }
}

proof fn lemma_time_absolute(c: Cpu, feed: Feed)
    requires
        c.starts_instruction(feed),
        ({
            let mode = Instruction::decode(feed(0)).addr_mode;
            matches!(
                mode,
                AddressingMode::AbsoluteLo | AddressingMode::AbsoluteLoX
                    | AddressingMode::AbsoluteLoY
            )
        }),
        Instruction::decode(feed(0)).opcode != Opcode::JMP,
        Instruction::decode(feed(0)).opcode != Opcode::JSR,
    ensures
        c.takes(feed, c.instruction_cycles(feed)),
{
    lemma_first_cycle(c, feed);
    let p1 = c.after_cycles(feed, 1);
    let p2 = c.after_cycles(feed, 2);
    lemma_cycle(c, feed, 1);
    lemma_cycle(c, feed, 2);
    lemma_low_byte(p1.latched(feed(1)));
    lemma_high_byte(p2.latched(feed(2)));
    lemma_access(c, feed, 3, p1.curr_instr.addr_mode != AddressingMode::AbsoluteLo);
}

proof fn lemma_time_indexed_indirect(c: Cpu, feed: Feed)
    requires
        c.starts_instruction(feed),
        Instruction::decode(feed(0)).addr_mode == AddressingMode::IndexedIndirect,
    ensures
        c.takes(feed, c.instruction_cycles(feed)),
{
    lemma_first_cycle(c, feed);
    lemma_cycle(c, feed, 1);
    lemma_cycle(c, feed, 2);
    lemma_cycle(c, feed, 3);
    lemma_cycle(c, feed, 4);
    lemma_indexed_indirect(c.after_cycles(feed, 1).latched(feed(1)));
    lemma_indexed_indirect(c.after_cycles(feed, 2).latched(feed(2)));
    lemma_indexed_indirect(c.after_cycles(feed, 3).latched(feed(3)));
    lemma_indexed_indirect(c.after_cycles(feed, 4).latched(feed(4)));
    lemma_access(c, feed, 5, false);
}

proof fn lemma_time_indirect_indexed(c: Cpu, feed: Feed)
    requires
        c.starts_instruction(feed),
        Instruction::decode(feed(0)).addr_mode == AddressingMode::IndirectIndexed,
    ensures
        c.takes(feed, c.instruction_cycles(feed)),
{
    lemma_first_cycle(c, feed);
    let op = Instruction::decode(feed(0)).opcode;
    lemma_cycle(c, feed, 1);
    lemma_cycle(c, feed, 2);
    lemma_cycle(c, feed, 3);
    lemma_cycle(c, feed, 4);
    lemma_indirect_indexed(c.after_cycles(feed, 1).latched(feed(1)));
    lemma_indirect_indexed(c.after_cycles(feed, 2).latched(feed(2)));
    let q3 = c.after_cycles(feed, 3).latched(feed(3));
    lemma_indirect_indexed(q3);
    assert(q3.crosses_page() == (feed(2) as int + c.y as int > 0xff));
    if op.is_read() && !q3.crosses_page() {
        lemma_load(c.after_cycles(feed, 4).latched(feed(4)));
    } else {
        lemma_indirect_indexed(c.after_cycles(feed, 4).latched(feed(4)));
        lemma_access(c, feed, 5, false);
    }
}

proof fn lemma_time_jumps(c: Cpu, feed: Feed)
    requires
        c.starts_instruction(feed),
        Instruction::decode(feed(0)).opcode == Opcode::JMP || Instruction::decode(feed(0)).opcode
            == Opcode::JSR,
    ensures
        c.takes(feed, c.instruction_cycles(feed)),
{
    lemma_first_cycle(c, feed);
    let instr = Instruction::decode(feed(0));
    lemma_cycle(c, feed, 1);
    lemma_cycle(c, feed, 2);
    lemma_cycle(c, feed, 3);
    lemma_cycle(c, feed, 4);
    lemma_cycle(c, feed, 5);
    lemma_low_byte(c.after_cycles(feed, 1).latched(feed(1)));
    lemma_high_byte(c.after_cycles(feed, 2).latched(feed(2)));
    if instr.opcode == Opcode::JSR {
        lemma_push(c.after_cycles(feed, 3).latched(feed(3)));
        lemma_push(c.after_cycles(feed, 4).latched(feed(4)));
        lemma_write_back(c.after_cycles(feed, 5).latched(feed(5)));
    } else if instr.addr_mode == AddressingMode::IndirectLo {
        lemma_indexed_indirect(c.after_cycles(feed, 3).latched(feed(3)));
        lemma_indexed_indirect(c.after_cycles(feed, 4).latched(feed(4)));
    }
}

proof fn lemma_time_implied(c: Cpu, feed: Feed)
    requires
        c.starts_instruction(feed),
        Instruction::decode(feed(0)).addr_mode == AddressingMode::Implied,
    ensures
        c.takes(feed, c.instruction_cycles(feed)),
{
    lemma_first_cycle(c, feed);
    let op = Instruction::decode(feed(0)).opcode;
    lemma_cycle(c, feed, 1);
    lemma_cycle(c, feed, 2);
    lemma_cycle(c, feed, 3);
    lemma_cycle(c, feed, 4);
    lemma_cycle(c, feed, 5);
    lemma_cycle(c, feed, 6);
    let q2 = c.after_cycles(feed, 2).latched(feed(2));
    let q3 = c.after_cycles(feed, 3).latched(feed(3));
    let q4 = c.after_cycles(feed, 4).latched(feed(4));
    let q5 = c.after_cycles(feed, 5).latched(feed(5));
    let q6 = c.after_cycles(feed, 6).latched(feed(6));
    lemma_implied(c.after_cycles(feed, 1).latched(feed(1)));
    match op {
        Opcode::BRK => {
            lemma_push(q2);
            lemma_push(q3);
            lemma_push(q4);
            lemma_push(q5);
            lemma_load(q6);
        },
        Opcode::PHA | Opcode::PHP => {
            lemma_write_back(q2);
        },
        Opcode::PLA | Opcode::PLP => {
            lemma_pull(q2);
            lemma_load(q3);
        },
        Opcode::RTS => {
            lemma_pull(q2);
            lemma_pull(q3);
            lemma_pull(q4);
            lemma_write_back(q5);
        },
        Opcode::RTI => {
            lemma_load(q2);
            lemma_pull(q3);
            lemma_pull(q4);
            lemma_write_back(q5);
        },
        _ => {},
    }
}

proof fn lemma_time_immediate(c: Cpu, feed: Feed)
    requires
        c.starts_instruction(feed),
        Instruction::decode(feed(0)).addr_mode == AddressingMode::Immediate,
    ensures
        c.takes(feed, c.instruction_cycles(feed)),
{
    lemma_first_cycle(c, feed);
    lemma_cycle(c, feed, 1);
    lemma_cycle(c, feed, 2);
    lemma_cycle(c, feed, 3);
    lemma_immediate(c.after_cycles(feed, 1).latched(feed(1)));
    let op = Instruction::decode(feed(0)).opcode;
    if op.is_branch() && condition_holds(op, c.sr) {
        let q2 = c.after_cycles(feed, 2).latched(feed(2));
        lemma_load(q2);
        if !same_page(branch_target(q2.pc, q2.addr_lo), q2.pc) {
            lemma_write_back(c.after_cycles(feed, 3).latched(feed(3)));
        }
    }
}

// The instruction as a whole.

/// Every instruction that the processor carries out, but the one that jams
/// it, takes the number of cycles that `instruction_cycles` gives: after so
/// many cycles the processor asks for the next code byte, and in between it
/// does not.
pub proof fn lemma_instruction_timing(c: Cpu, feed: Feed)
    requires
        c.starts_instruction(feed),
    ensures
        c.takes(feed, c.instruction_cycles(feed)),
{
    let instr = Instruction::decode(feed(0));
    Instruction::lemma_decode_is_coherent(feed(0));
    if instr.opcode == Opcode::JMP || instr.opcode == Opcode::JSR {
        lemma_time_jumps(c, feed);
    } else {
        match instr.addr_mode {
            AddressingMode::Implied => lemma_time_implied(c, feed),
            AddressingMode::Immediate => lemma_time_immediate(c, feed),
            AddressingMode::Zeropage | AddressingMode::ZeropageX | AddressingMode::ZeropageY =>
                lemma_time_zeropage(c, feed),
            AddressingMode::IndexedIndirect => lemma_time_indexed_indirect(c, feed),
            AddressingMode::IndirectIndexed => lemma_time_indirect_indexed(c, feed),
            _ => lemma_time_absolute(c, feed),
        }
    }
}

/// An interrupt request that the next fetch finds unmasked takes seven
/// cycles: the code byte on the bus is ignored, the program counter and the
/// flags are pushed, and the processor goes on at the interrupt routine.
pub proof fn lemma_interrupt_timing(c: Cpu, feed: Feed)
    requires
        c.state == CpuState::Fetch,
        c.takes_interrupt(),
    ensures
        c.takes(feed, 7),
{
    lemma_cycle(c, feed, 0);
    lemma_cycle(c, feed, 1);
    lemma_cycle(c, feed, 2);
    lemma_cycle(c, feed, 3);
    lemma_cycle(c, feed, 4);
    lemma_cycle(c, feed, 5);
    lemma_cycle(c, feed, 6);
    lemma_fetch_interrupt(c.after_cycles(feed, 0).latched(feed(0)));
    lemma_push(c.after_cycles(feed, 1).latched(feed(1)));
    lemma_push(c.after_cycles(feed, 2).latched(feed(2)));
    lemma_push(c.after_cycles(feed, 3).latched(feed(3)));
    lemma_push(c.after_cycles(feed, 4).latched(feed(4)));
    lemma_push(c.after_cycles(feed, 5).latched(feed(5)));
    lemma_load(c.after_cycles(feed, 6).latched(feed(6)));
}

/// The cycle counts that the data sheet of the 6502 gives, for the
/// instructions of its summary table: the arithmetic and logic group and the shifts by addressing mode,
/// the jumps and returns, and the transfers and flag changes.
pub open spec fn datasheet_cycles(instr: Instruction) -> Option<nat> {
    let op = instr.opcode;
    let mode = instr.addr_mode;
    if matches!(
        op,
        Opcode::ADC | Opcode::AND | Opcode::CMP | Opcode::EOR | Opcode::LDA | Opcode::ORA
            | Opcode::SBC
    ) {
        match mode {
            AddressingMode::Immediate => Some(2),
            AddressingMode::Zeropage => Some(3),
            AddressingMode::ZeropageX => Some(4),
            AddressingMode::AbsoluteLo => Some(4),
            AddressingMode::AbsoluteLoX => Some(4),
            AddressingMode::AbsoluteLoY => Some(4),
            AddressingMode::IndexedIndirect => Some(6),
            AddressingMode::IndirectIndexed => Some(5),
            _ => None,
        }
    } else if matches!(op, Opcode::ASL | Opcode::LSR | Opcode::ROL | Opcode::ROR) {
        match mode {
            AddressingMode::Implied => Some(2),
            AddressingMode::Zeropage => Some(5),
            AddressingMode::ZeropageX => Some(6),
            AddressingMode::AbsoluteLo => Some(6),
            AddressingMode::AbsoluteLoX => Some(7),
            _ => None,
        }
    } else if op == Opcode::JMP {
        match mode {
            AddressingMode::AbsoluteLo => Some(3),
            AddressingMode::IndirectLo => Some(5),
            _ => None,
        }
    } else if mode == AddressingMode::AbsoluteLo && op == Opcode::JSR {
        Some(6)
    } else if mode == AddressingMode::Implied && (op == Opcode::RTS || op == Opcode::RTI) {
        Some(6)
    } else if mode == AddressingMode::Implied && matches!(
        op,
        Opcode::TAX | Opcode::TAY | Opcode::TSX | Opcode::TXA | Opcode::TXS | Opcode::TYA
            | Opcode::CLC | Opcode::CLD | Opcode::CLI | Opcode::CLV | Opcode::SEC | Opcode::SED
            | Opcode::SEI
    ) {
        Some(2)
    } else {
        None
    }
}

/// Every instruction of that table takes the number of cycles that the
/// table gives, and then the processor asks for the next code byte at
/// the program counter. For `(zp),Y` the table gives the count without the
/// cycle that a carry into the high byte of the address costs.
pub proof fn lemma_datasheet_cycles(c: Cpu, feed: Feed)
    requires
        c.starts_instruction(feed),
        datasheet_cycles(Instruction::decode(feed(0))) is Some,
        Instruction::decode(feed(0)).addr_mode == AddressingMode::IndirectIndexed ==> feed(2)
            as int + c.y as int <= 0xff,
    ensures
        c.takes(feed, datasheet_cycles(Instruction::decode(feed(0))).unwrap()),
{
    lemma_instruction_timing(c, feed);
}

/// A read through `(zp),Y` takes five cycles, and one more when adding Y to
/// the low byte of the pointer carries into the high byte.
pub proof fn lemma_page_crossing_costs_a_cycle(c: Cpu, feed: Feed)
    requires
        c.starts_instruction(feed),
        Instruction::decode(feed(0)).addr_mode == AddressingMode::IndirectIndexed,
        Instruction::decode(feed(0)).opcode.is_read(),
    ensures
        c.takes(
            feed,
            if feed(2) as int + c.y as int > 0xff {
                6
            } else {
                5
            },
        ),
{
    lemma_instruction_timing(c, feed);
}

/// A branch takes two cycles when its condition fails, three when it is
/// taken within the page, and four when it is taken into another page.
pub proof fn lemma_branch_timing(c: Cpu, feed: Feed)
    requires
        c.starts_instruction(feed),
        Instruction::decode(feed(0)).opcode.is_branch(),
    ensures
        ({
            let behind = wrap16(wrap16(c.pc as int + 1) as int + 1);
            c.takes(
                feed,
                if !condition_holds(Instruction::decode(feed(0)).opcode, c.sr) {
                    2
                } else if same_page(branch_target(behind, feed(1)), behind) {
                    3
                } else {
                    4
                },
            )
        }),
{
    Instruction::lemma_decode_is_coherent(feed(0));
    lemma_instruction_timing(c, feed);
}

/// A read-modify-write on an address indexed by X or Y as a whole takes
/// seven cycles, so the shifts and rotates with `abs,X` do.
pub proof fn lemma_indexed_modify_timing(c: Cpu, feed: Feed)
    requires
        c.starts_instruction(feed),
        Instruction::decode(feed(0)).opcode.is_modify(),
        Instruction::decode(feed(0)).addr_mode == AddressingMode::AbsoluteLoX
            || Instruction::decode(feed(0)).addr_mode == AddressingMode::AbsoluteLoY,
    ensures
        c.takes(feed, 7),
{
    lemma_instruction_timing(c, feed);
}

} // verus!
