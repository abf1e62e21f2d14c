//! The register file of the SID sound chip.

use vstd::prelude::*;
use super::register_index;

verus! {

/// The first address of the window of the SID.
pub const MIN_CONTROL_ADDR: usize = 0xd400;

/// The last address of the window of the SID.
pub const MAX_CONTROL_ADDR: usize = 0xd7ff;

/// The number of addresses after which the registers repeat.
pub const CONTROL_REG_COUNT: usize = 0x20;

/// The registers 0 to 24 set up the voices, the filter and the volume. They
/// can be written and read as zero.
pub const LAST_WRITABLE: usize = 24;

/// The registers 25 to 28 report the paddles and the third voice. They can
/// be read, and a write leaves them alone. Nothing lies behind 29 to 31.
pub const LAST_READABLE: usize = 28;

pub struct Sid {
    regs: Vec<u8>,
}

impl View for Sid {
    type V = Seq<u8>;

    /// The thirty-two register values.
    closed spec fn view(&self) -> Seq<u8> {
        self.regs@
    }
}

impl Sid {
    pub open spec fn wf(&self) -> bool {
        self@.len() == CONTROL_REG_COUNT
    }

    /// Whether an address lies in the window of the chip.
    pub open spec fn in_window(addr: int) -> bool {
        MIN_CONTROL_ADDR <= addr <= MAX_CONTROL_ADDR
    }

    /// The register that an address selects.
    pub open spec fn index(addr: int) -> int {
        register_index(addr, MIN_CONTROL_ADDR as int, CONTROL_REG_COUNT as int)
    }

    /// The registers of a chip that has not been written to.
    pub open spec fn cleared() -> Seq<u8> {
        Seq::new(CONTROL_REG_COUNT as nat, |i: int| 0u8)
    }

    /// What a read of register `reg` returns.
    pub open spec fn read_value(regs: Seq<u8>, reg: int) -> u8 {
        if LAST_WRITABLE < reg <= LAST_READABLE {
            regs[reg]
        } else {
            0
        }
    }

    /// The registers after `value` has been written to register `reg`.
    pub open spec fn written(regs: Seq<u8>, reg: int, value: u8) -> Seq<u8> {
        if 0 <= reg <= LAST_WRITABLE {
            regs.update(reg, value)
        } else {
            regs
        }
    }

    pub fn new() -> (sid: Sid)
        ensures
            sid.wf(),
            sid@ == Sid::cleared(),
    {
        let sid = Sid { regs: vec![0u8; CONTROL_REG_COUNT] };
        assert(sid@ =~= Sid::cleared());
        sid
    }

    /// Translates an address in the window to the number of its register.
    pub fn translate_addr(&self, addr: usize) -> (reg: u8)
        requires
            Sid::in_window(addr as int),
        ensures
            reg == Sid::index(addr as int),
            reg < CONTROL_REG_COUNT,
    {
        ((addr - MIN_CONTROL_ADDR) % CONTROL_REG_COUNT) as u8
    }

    pub fn read_register(&self, addr: usize) -> (value: u8)
        requires
            self.wf(),
            Sid::in_window(addr as int),
        ensures
            value == Sid::read_value(self@, Sid::index(addr as int)),
    {
        let reg = self.translate_addr(addr) as usize;
        if reg > LAST_WRITABLE && reg <= LAST_READABLE {
            self.regs[reg]
        } else {
            0
        }
    }

    pub fn write_register(&mut self, addr: usize, value: u8)
        requires
            old(self).wf(),
            Sid::in_window(addr as int),
        ensures
            final(self).wf(),
            final(self)@ == Sid::written(old(self)@, Sid::index(addr as int), value),
    {
        let reg = self.translate_addr(addr) as usize;
        if reg <= LAST_WRITABLE {
            self.regs.set(reg, value);
        }
    }
}

} // verus!
