//! The stack: what the pushes and pulls do to the stack pointer and to
//! memory, and that what is pushed comes back.
//!
//! The laws about whole instructions are stated for a processor with nothing
//! but RAM on its bus.

use vstd::prelude::*;
use super::addressing_mode::AddressingMode;
use super::bytes::{high_byte, lemma_split_and_join, low_byte, word, wrap16, wrap8};
use super::instruction::Instruction;
use super::opcode::Opcode;
use super::{Cpu, CpuState};

verus! {

/// A processor with 64 KiB of RAM on its bus and nothing else.
pub struct Board {
    pub cpu: Cpu,
    pub ram: Seq<u8>,
}

impl Board {
    pub open spec fn wf(self) -> bool {
        self.ram.len() == 0x10000
    }

    /// The board after one clock cycle: the transaction that the processor
    /// asks for is carried out, then the processor takes its cycle.
    pub open spec fn tick(self) -> Board {
        if self.cpu.rw {
            Board { cpu: self.cpu.clocked(self.ram[self.cpu.addr_bus as int]), ..self }
        } else {
            Board {
                cpu: self.cpu.step(),
                ram: self.ram.update(self.cpu.addr_bus as int, self.cpu.data_bus),
            }
        }
    }

    /// The board after `n` clock cycles.
    pub open spec fn after(self, n: nat) -> Board
        decreases n,
    {
        if n == 0 {
            self
        } else {
            self.after((n - 1) as nat).tick()
        }
    }

    /// Whether the processor stands between two instructions, no interrupt
    /// is about to be taken, and the code byte at the program counter is
    /// `code`.
    pub open spec fn about_to_fetch(self, code: u8) -> bool {
        &&& self.wf()
        &&& self.cpu.at_instruction()
        &&& !self.cpu.takes_interrupt()
        &&& self.ram[self.cpu.pc as int] == code
    }

    /// Whether the processors of two boards hold the same registers, but
    /// possibly for the program counter and the stack pointer.
    pub open spec fn same_registers(self, other: Board) -> bool {
        &&& self.cpu.a == other.cpu.a
        &&& self.cpu.x == other.cpu.x
        &&& self.cpu.y == other.cpu.y
        &&& self.cpu.sr == other.cpu.sr
    }
}

/// The stack pointer counts down on a push and up on a pull, both modulo
/// 256, and the program counter counts up modulo 65536. A pull after a push
/// reads the address that the push has written and leaves the stack pointer
/// where it was.
pub proof fn lemma_pointers_wrap(c: Cpu, value: u8)
    ensures
        c.pushing(value).sp == if c.sp == 0 {
            255u8
        } else {
            (c.sp - 1) as u8
        },
        c.pulling().sp == if c.sp == 255 {
            0u8
        } else {
            (c.sp + 1) as u8
        },
        c.advanced().pc == if c.pc == 0xffff {
            0u16
        } else {
            (c.pc + 1) as u16
        },
        c.pushing(value).addr_bus == 0x100 + c.sp,
        c.pushing(value).data_bus == value,
        !c.pushing(value).rw,
        c.pushing(value).pulling().addr_bus == c.pushing(value).addr_bus,
        c.pushing(value).pulling().rw,
        c.pushing(value).pulling().sp == c.sp,
{
    reveal(wrap8);
    reveal(wrap16);
}

/// The code bytes of the instructions that the laws below speak of.
proof fn lemma_stack_codes()
    ensures
        Instruction::decode(0x48) == (Instruction {
            opcode: Opcode::PHA,
            addr_mode: AddressingMode::Implied,
        }),
        Instruction::decode(0x68) == (Instruction {
            opcode: Opcode::PLA,
            addr_mode: AddressingMode::Implied,
        }),
        Instruction::decode(0x20) == (Instruction {
            opcode: Opcode::JSR,
            addr_mode: AddressingMode::AbsoluteLo,
        }),
        Instruction::decode(0x60) == (Instruction {
            opcode: Opcode::RTS,
            addr_mode: AddressingMode::Implied,
        }),
{
    reveal(Opcode::decode);
    reveal(AddressingMode::decode);
}

// What single cycles do, in full.

proof fn lemma_fetch_in_full(c: Cpu)
    requires
        c.state == CpuState::Fetch,
        !c.takes_interrupt(),
    ensures
        c.step() == (Cpu {
            irq: false,
            curr_instr: Instruction::decode(c.data_bus),
            pc: wrap16(c.pc as int + 1),
            addr_bus: wrap16(c.pc as int + 1),
            addr_enable: true,
            rw: true,
            state: CpuState::Address,
            cycles: Cpu::next_count(c.cycles),
            ..c
        }),
{
    reveal(Cpu::step);
    reveal(Cpu::dispatched);
    reveal(Cpu::after_fetch);
}

proof fn lemma_implied_in_full(c: Cpu)
    requires
        c.state == CpuState::Address,
        c.curr_instr.addr_mode == AddressingMode::Implied,
        c.curr_instr.opcode == Opcode::PHA || c.curr_instr.opcode == Opcode::PLA
            || c.curr_instr.opcode == Opcode::RTS,
    ensures
        c.step() == if c.curr_instr.opcode == Opcode::PHA {
            c.pushing(c.a).in_state(CpuState::ToLoad).counted(c)
        } else {
            c.reading(c.stack_addr()).in_state(CpuState::PullWordLo).counted(c)
        },
{
    reveal(Cpu::step);
    reveal(Cpu::dispatched);
    reveal(Cpu::after_address);
    reveal(Cpu::after_implied);
}

proof fn lemma_to_load_in_full(c: Cpu)
    requires
        c.state == CpuState::ToLoad,
    ensures
        c.step() == c.resumed().counted(c),
{
    reveal(Cpu::step);
    reveal(Cpu::dispatched);
}

proof fn lemma_pull_in_full(c: Cpu)
    requires
        c.state == CpuState::PullWordLo || c.state == CpuState::PullWordHi,
    ensures
        c.step() == if c.state == CpuState::PullWordLo {
            (Cpu { stack_word_ready: false, stack_word: 0, ..c }).pulling().in_state(
                if c.curr_instr.opcode == Opcode::PLA || c.curr_instr.opcode == Opcode::PLP {
                    CpuState::Load
                } else {
                    CpuState::PullWordHi
                },
            ).counted(c)
        } else if !c.stack_word_ready {
            (Cpu { stack_word: c.data_bus as u16, stack_word_ready: true, ..c }).pulling().in_state(
                CpuState::PullWordHi,
            ).counted(c)
        } else {
            (Cpu {
                stack_word: word(c.data_bus, low_byte(c.stack_word)),
                stack_word_ready: false,
                pc: if c.curr_instr.opcode == Opcode::RTS {
                    wrap16(word(c.data_bus, low_byte(c.stack_word)) as int + 1)
                } else {
                    word(c.data_bus, low_byte(c.stack_word))
                },
                ..c
            }).in_state(CpuState::ToLoad).counted(c)
        },
{
    reveal(Cpu::step);
    reveal(Cpu::dispatched);
    reveal(Cpu::after_pull_word_hi);
}

proof fn lemma_load_pla_in_full(c: Cpu)
    requires
        c.state == CpuState::Load,
        c.curr_instr.opcode == Opcode::PLA,
    ensures
        c.step() == c.with_a(c.data_bus).resumed().counted(c),
{
    reveal(Cpu::step);
    reveal(Cpu::dispatched);
    reveal(Cpu::after_load);
}

proof fn lemma_absolute_in_full(c: Cpu)
    requires
        c.state == CpuState::Address,
        c.curr_instr.opcode == Opcode::JSR,
        c.curr_instr.addr_mode == AddressingMode::AbsoluteLo || c.curr_instr.addr_mode
            == AddressingMode::AbsoluteHi,
    ensures
        c.step() == if c.curr_instr.addr_mode == AddressingMode::AbsoluteLo {
            (Cpu { addr_lo: c.data_bus, ..c.advanced() }).reading(
                wrap16(c.pc as int + 1),
            ).in_mode(AddressingMode::AbsoluteHi).counted(c)
        } else {
            (Cpu {
                addr_hi: c.data_bus,
                stack_word: c.pc,
                pc: word(c.data_bus, c.addr_lo),
                ..c
            }).reading(c.stack_addr()).in_state(CpuState::PushWordHi).counted(c)
        },
{
    reveal(Cpu::step);
    reveal(Cpu::dispatched);
    reveal(Cpu::after_address);
    reveal(Cpu::with_low_byte);
    reveal(Cpu::after_high_byte);
}

proof fn lemma_push_word_in_full(c: Cpu)
    requires
        c.state == CpuState::PushWordHi || c.state == CpuState::PushWordLo,
        c.curr_instr.opcode == Opcode::JSR,
    ensures
        c.step() == if c.state == CpuState::PushWordHi {
            c.pushing(high_byte(c.stack_word)).in_state(CpuState::PushWordLo).counted(c)
        } else {
            c.pushing(low_byte(c.stack_word)).in_state(CpuState::ToLoad).counted(c)
        },
{
    reveal(Cpu::step);
    reveal(Cpu::dispatched);
}

// What whole instructions do.

/// PHA takes three cycles. It writes the accumulator where the stack pointer
/// points and moves the pointer down by one.
pub proof fn lemma_pha(b: Board)
    requires
        b.about_to_fetch(0x48),
    ensures
        ({
            let e = b.after(3);
            &&& e.wf()
            &&& e.cpu.at_instruction()
            &&& !e.cpu.takes_interrupt()
            &&& e.same_registers(b)
            &&& e.cpu.pc == wrap16(b.cpu.pc as int + 1)
            &&& e.cpu.sp == wrap8(b.cpu.sp as int - 1)
            &&& e.ram == b.ram.update(0x100 + b.cpu.sp as int, b.cpu.a)
        }),
{
    reveal_with_fuel(Board::after, 4);
    lemma_stack_codes();
    let b1 = b.tick();
    let b2 = b1.tick();
    lemma_fetch_in_full(b.cpu.latched(b.ram[b.cpu.addr_bus as int]));
    lemma_implied_in_full(b1.cpu.latched(b1.ram[b1.cpu.addr_bus as int]));
    lemma_to_load_in_full(b2.cpu);
}

/// PLA takes four cycles. It moves the stack pointer up by one and loads the
/// accumulator with the byte that the pointer then points to.
pub proof fn lemma_pla(b: Board)
    requires
        b.about_to_fetch(0x68),
    ensures
        ({
            let e = b.after(4);
            let sp = wrap8(b.cpu.sp as int + 1);
            &&& e.wf()
            &&& e.cpu.at_instruction()
            &&& !e.cpu.takes_interrupt()
            &&& e.cpu.a == b.ram[0x100 + sp as int]
            &&& e.cpu.sr == b.cpu.sr.with_result(e.cpu.a)
            &&& e.cpu.x == b.cpu.x
            &&& e.cpu.y == b.cpu.y
            &&& e.cpu.pc == wrap16(b.cpu.pc as int + 1)
            &&& e.cpu.sp == sp
            &&& e.ram == b.ram
        }),
{
    reveal_with_fuel(Board::after, 5);
    lemma_stack_codes();
    let b1 = b.tick();
    let b2 = b1.tick();
    let b3 = b2.tick();
    lemma_fetch_in_full(b.cpu.latched(b.ram[b.cpu.addr_bus as int]));
    lemma_implied_in_full(b1.cpu.latched(b1.ram[b1.cpu.addr_bus as int]));
    lemma_pull_in_full(b2.cpu.latched(b2.ram[b2.cpu.addr_bus as int]));
    lemma_load_pla_in_full(b3.cpu.latched(b3.ram[b3.cpu.addr_bus as int]));
}

/// JSR takes six cycles. It pushes the address of its own last byte, high
/// byte first, and goes on at the address that its two operand bytes give.
pub proof fn lemma_jsr(b: Board)
    requires
        b.about_to_fetch(0x20),
    ensures
        ({
            let e = b.after(6);
            let low_at = wrap16(b.cpu.pc as int + 1);
            let high_at = wrap16(low_at as int + 1);
            let below = wrap8(b.cpu.sp as int - 1);
            &&& e.wf()
            &&& e.cpu.at_instruction()
            &&& !e.cpu.takes_interrupt()
            &&& e.same_registers(b)
            &&& e.cpu.pc == word(b.ram[high_at as int], b.ram[low_at as int])
            &&& e.cpu.sp == wrap8(below as int - 1)
            &&& e.ram == b.ram.update(0x100 + b.cpu.sp as int, high_byte(high_at)).update(
                0x100 + below as int,
                low_byte(high_at),
            )
        }),
{
    reveal_with_fuel(Board::after, 7);
    lemma_stack_codes();
    let b1 = b.tick();
    let b2 = b1.tick();
    let b3 = b2.tick();
    let b4 = b3.tick();
    let b5 = b4.tick();
    lemma_fetch_in_full(b.cpu.latched(b.ram[b.cpu.addr_bus as int]));
    lemma_absolute_in_full(b1.cpu.latched(b1.ram[b1.cpu.addr_bus as int]));
    lemma_absolute_in_full(b2.cpu.latched(b2.ram[b2.cpu.addr_bus as int]));
    lemma_push_word_in_full(b3.cpu.latched(b3.ram[b3.cpu.addr_bus as int]));
    lemma_push_word_in_full(b4.cpu);
    lemma_to_load_in_full(b5.cpu);
}

/// RTS takes six cycles. It pulls an address, low byte first, and goes on at
/// the address behind it.
pub proof fn lemma_rts(b: Board)
    requires
        b.about_to_fetch(0x60),
    ensures
        ({
            let e = b.after(6);
            let low_at = wrap8(b.cpu.sp as int + 1);
            let high_at = wrap8(low_at as int + 1);
            &&& e.wf()
            &&& e.cpu.at_instruction()
            &&& !e.cpu.takes_interrupt()
            &&& e.same_registers(b)
            &&& e.cpu.pc == wrap16(
                word(b.ram[0x100 + high_at as int], b.ram[0x100 + low_at as int]) as int + 1,
            )
            &&& e.cpu.sp == high_at
            &&& e.ram == b.ram
        }),
{
    reveal_with_fuel(Board::after, 7);
    reveal(low_byte);
    lemma_stack_codes();
    let b1 = b.tick();
    let b2 = b1.tick();
    let b3 = b2.tick();
    let b4 = b3.tick();
    let b5 = b4.tick();
    lemma_fetch_in_full(b.cpu.latched(b.ram[b.cpu.addr_bus as int]));
    lemma_implied_in_full(b1.cpu.latched(b1.ram[b1.cpu.addr_bus as int]));
    lemma_pull_in_full(b2.cpu.latched(b2.ram[b2.cpu.addr_bus as int]));
    lemma_pull_in_full(b3.cpu.latched(b3.ram[b3.cpu.addr_bus as int]));
    lemma_pull_in_full(b4.cpu.latched(b4.ram[b4.cpu.addr_bus as int]));
    lemma_to_load_in_full(b5.cpu);
}

/// Cycles add up.
proof fn lemma_after_add(b: Board, m: nat, n: nat)
    ensures
        b.after(m + n) == b.after(m).after(n),
    decreases n,
{
    if n > 0 {
        lemma_after_add(b, m, (n - 1) as nat);
    }
}

/// What PHA pushes, PLA pulls: after the two, one behind the other, the
/// accumulator holds the byte that it held, and the stack pointer stands
/// where it stood. The stack must not grow into the second of the two code
/// bytes.
pub proof fn lemma_push_then_pull(b: Board)
    requires
        b.about_to_fetch(0x48),
        b.ram[wrap16(b.cpu.pc as int + 1) as int] == 0x68,
        0x100 + b.cpu.sp != wrap16(b.cpu.pc as int + 1),
    ensures
        ({
            let e = b.after(7);
            &&& e.cpu.at_instruction()
            &&& e.cpu.a == b.cpu.a
            &&& e.cpu.sp == b.cpu.sp
            &&& e.cpu.pc == wrap16(wrap16(b.cpu.pc as int + 1) as int + 1)
            &&& e.ram == b.ram.update(0x100 + b.cpu.sp as int, b.cpu.a)
        }),
{
    reveal(wrap8);
    lemma_pha(b);
    lemma_pla(b.after(3));
    lemma_after_add(b, 3, 4);
}

/// A subroutine that returns at once leaves the processor at the instruction
/// that follows the JSR, with the stack pointer where it stood: RTS pulls
/// what JSR has pushed. The return address must not be pushed over the RTS.
pub proof fn lemma_call_then_return(b: Board)
    requires
        b.about_to_fetch(0x20),
        ({
            let low_at = wrap16(b.cpu.pc as int + 1);
            let high_at = wrap16(low_at as int + 1);
            let target = word(b.ram[high_at as int], b.ram[low_at as int]);
            &&& b.ram[target as int] == 0x60
            &&& target != 0x100 + b.cpu.sp
            &&& target != 0x100 + wrap8(b.cpu.sp as int - 1)
        }),
    ensures
        ({
            let e = b.after(12);
            let last = wrap16(wrap16(b.cpu.pc as int + 1) as int + 1);
            &&& e.cpu.at_instruction()
            &&& e.cpu.pc == wrap16(last as int + 1)
            &&& e.cpu.sp == b.cpu.sp
            &&& e.same_registers(b)
        }),
{
    reveal(wrap8);
    lemma_jsr(b);
    lemma_rts(b.after(6));
    lemma_after_add(b, 6, 6);
    lemma_split_and_join(wrap16(wrap16(b.cpu.pc as int + 1) as int + 1));
}

} // verus!
