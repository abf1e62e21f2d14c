//! The register file of a CIA interface adapter. The machine has two.

use vstd::prelude::*;
use super::register_index;

verus! {

/// The number of addresses after which the registers repeat.
pub const CONTROL_REG_COUNT: usize = 0x10;

/// The number of addresses in the window of the chip.
pub const WINDOW_SIZE: usize = 0x100;

/// The interrupt control register. A write sets the interrupt mask, a read
/// returns the interrupt status, and the two are kept apart.
pub const INTERRUPT_CONTROL: usize = 13;

pub struct Cia {
    regs: Vec<u8>,
    int_enable: u8,
    base_addr: usize,
}

/// What a CIA holds.
pub struct CiaView {
    /// The sixteen register values, as a read returns them.
    pub regs: Seq<u8>,
    /// The interrupt mask.
    pub int_enable: u8,
    /// The first address of the window.
    pub base_addr: usize,
}

impl CiaView {
    pub open spec fn wf(self) -> bool {
        self.regs.len() == CONTROL_REG_COUNT
    }

    /// A chip that has not been written to.
    pub open spec fn cleared(base_addr: usize) -> CiaView {
        CiaView {
            regs: Seq::new(CONTROL_REG_COUNT as nat, |i: int| 0u8),
            int_enable: 0,
            base_addr,
        }
    }

    /// Whether an address lies in the window of the chip.
    pub open spec fn in_window(self, addr: int) -> bool {
        self.base_addr <= addr && addr - self.base_addr < WINDOW_SIZE
    }

    /// The register that an address selects.
    pub open spec fn index(self, addr: int) -> int {
        register_index(addr, self.base_addr as int, CONTROL_REG_COUNT as int)
    }

    /// What a read at `addr` returns.
    pub open spec fn read(self, addr: int) -> u8 {
        self.regs[self.index(addr)]
    }

    /// The chip after `value` has been written at `addr`.
    pub open spec fn write(self, addr: int, value: u8) -> CiaView {
        if self.index(addr) == INTERRUPT_CONTROL {
            CiaView { int_enable: value, ..self }
        } else {
            CiaView { regs: self.regs.update(self.index(addr), value), ..self }
        }
    }
}

impl View for Cia {
    type V = CiaView;

    closed spec fn view(&self) -> CiaView {
        CiaView { regs: self.regs@, int_enable: self.int_enable, base_addr: self.base_addr }
    }
}

impl Cia {
    pub open spec fn wf(&self) -> bool {
        self@.wf()
    }

    /// A chip with every register zero whose window starts at `base_addr`.
    pub fn new(base_addr: usize) -> (cia: Cia)
        ensures
            cia.wf(),
            cia@ == CiaView::cleared(base_addr),
    {
        let cia = Cia { regs: vec![0u8; CONTROL_REG_COUNT], int_enable: 0, base_addr };
        assert(cia@.regs =~= CiaView::cleared(base_addr).regs);
        cia
    }

    /// Translates an address in the window to the number of its register.
    pub fn translate_addr(&self, addr: usize) -> (reg: u8)
        requires
            self@.in_window(addr as int),
        ensures
            reg == self@.index(addr as int),
            reg < CONTROL_REG_COUNT,
    {
        ((addr - self.base_addr) % CONTROL_REG_COUNT) as u8
    }

    pub fn read_register(&self, addr: usize) -> (value: u8)
        requires
            self.wf(),
            self@.in_window(addr as int),
        ensures
            value == self@.read(addr as int),
    {
        let reg = self.translate_addr(addr) as usize;
        self.regs[reg]
    }

    pub fn write_register(&mut self, addr: usize, value: u8)
        requires
            old(self).wf(),
            old(self)@.in_window(addr as int),
        ensures
            final(self).wf(),
            final(self)@ == old(self)@.write(addr as int, value),
    {
        let reg = self.translate_addr(addr) as usize;
        if reg == INTERRUPT_CONTROL {
            self.int_enable = value;
        } else {
            self.regs.set(reg, value);
        }
    }
}

} // verus!
