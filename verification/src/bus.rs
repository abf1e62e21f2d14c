//! The system bus: the address decoder with the memories and chips that it
//! owns, and the clock that lets the video chip and the processor take turns.

use vstd::prelude::*;
use vstd::string::StringSliceAdditionalSpecFns;
use crate::console::{command_of, parse_command, trimmed, Command};
use crate::cpu::{Cpu, CpuState};
use crate::io::cia::{Cia, CiaView};
use crate::io::sid::Sid;
use crate::io::vic::{palette, Beam, Vic, VicView, BEAM_COLOR};
use crate::screen::Screen;

verus! {

pub const RAM_SIZE: usize = 0x10000;

pub const KERNAL_ROM_START: usize = 0xe000;

pub const BASIC_ROM_START: usize = 0xa000;

pub const CHAR_ROM_START: usize = 0xd000;

pub const KERNAL_ROM_SIZE: usize = 8192;

pub const BASIC_ROM_SIZE: usize = 8192;

pub const CHAR_ROM_SIZE: usize = 4096;

pub const IO_START: usize = 0xd000;

pub const IO_END: usize = 0xdfff;

pub const COLOR_RAM_START: usize = 0xd800;

pub const COLOR_RAM_END: usize = 0xdbff;

pub const COLOR_RAM_SIZE: usize = 1024;

pub const CIA1_MIN_CONTROL_ADDR: usize = 0xdc00;

pub const CIA1_MAX_CONTROL_ADDR: usize = 0xdcff;

pub const CIA2_MIN_CONTROL_ADDR: usize = 0xdd00;

pub const CIA2_MAX_CONTROL_ADDR: usize = 0xddff;

/// How the clock is driven: freely, freely with a trace, or one cycle for
/// each command of the debug console.
#[derive(Debug, Clone, Copy, PartialEq, Eq, Structural)]
pub enum SystemMode {
    Run,
    DebugRun,
    DebugStep,
}

impl SystemMode {
    /// The mode after a command of the debug console: `run` ends the
    /// stepping, and nothing else changes the mode.
    pub open spec fn after(self, command: Command) -> SystemMode {
        if self == SystemMode::DebugStep && command == Command::Run {
            SystemMode::DebugRun
        } else {
            self
        }
    }
}

/// Why the machine cannot go on.
#[derive(Debug, Clone, Copy, PartialEq, Eq, Structural)]
pub enum Fault {
    /// An access went to the part of the I/O region that no chip answers.
    UnmappedIo { addr: usize },
    /// The processor is jammed.
    Halted,
    /// The processor met a code byte whose operation it does not carry out.
    UnknownOpcode { code: u8, pc: u16 },
    /// The beam of the video chip left the screen.
    BeamOffScreen,
}

/// The machine behind the bus.
pub struct Bus {
    mode: SystemMode,
    ram: Vec<u8>,
    color_ram: Vec<u8>,
    kernal_rom: Vec<u8>,
    basic_rom: Vec<u8>,
    char_rom: Vec<u8>,
    cpu: Cpu,
    vic: Vic,
    sid: Sid,
    cia_1: Cia,
    cia_2: Cia,
}

/// What the machine holds.
pub struct BusView {
    pub mode: SystemMode,
    pub ram: Seq<u8>,
    /// The colour memory, of whose cells the low four bits exist.
    pub color_ram: Seq<u8>,
    pub kernal_rom: Seq<u8>,
    pub basic_rom: Seq<u8>,
    pub char_rom: Seq<u8>,
    pub cpu: Cpu,
    pub vic: VicView,
    pub sid: Seq<u8>,
    pub cia_1: CiaView,
    pub cia_2: CiaView,
}

/// `target` with its first bytes replaced by `image`, as far as that reaches.
pub open spec fn overlaid(target: Seq<u8>, image: Seq<u8>) -> Seq<u8> {
    Seq::new(
        target.len(),
        |i: int|
            if i < image.len() {
                image[i]
            } else {
                target[i]
            },
    )
}

impl BusView {
    /// The machine before anything is loaded: every memory is empty, no chip
    /// has been written to, and the processor waits for its reset.
    pub open spec fn powered_off(debug: bool) -> BusView {
        BusView {
            mode: if debug {
                SystemMode::DebugStep
            } else {
                SystemMode::Run
            },
            ram: Seq::new(RAM_SIZE as nat, |i: int| 0u8),
            color_ram: Seq::new(COLOR_RAM_SIZE as nat, |i: int| 0u8),
            kernal_rom: Seq::new(KERNAL_ROM_SIZE as nat, |i: int| 0u8),
            basic_rom: Seq::new(BASIC_ROM_SIZE as nat, |i: int| 0u8),
            char_rom: Seq::new(CHAR_ROM_SIZE as nat, |i: int| 0u8),
            cpu: Cpu::powered_off(),
            vic: VicView::powered_on(),
            sid: Sid::cleared(),
            cia_1: CiaView::cleared(CIA1_MIN_CONTROL_ADDR),
            cia_2: CiaView::cleared(CIA2_MIN_CONTROL_ADDR),
        }
    }

    pub open spec fn wf(self) -> bool {
        &&& self.ram.len() == RAM_SIZE
        &&& self.color_ram.len() == COLOR_RAM_SIZE
        &&& self.kernal_rom.len() == KERNAL_ROM_SIZE
        &&& self.basic_rom.len() == BASIC_ROM_SIZE
        &&& self.char_rom.len() == CHAR_ROM_SIZE
        &&& self.cpu.banks_coherent()
        &&& self.vic.wf()
        &&& self.sid.len() == crate::io::sid::CONTROL_REG_COUNT
        &&& self.cia_1.wf()
        &&& self.cia_1.base_addr == CIA1_MIN_CONTROL_ADDR
        &&& self.cia_2.wf()
        &&& self.cia_2.base_addr == CIA2_MIN_CONTROL_ADDR
    }

    /// Whether a read of `addr` finds the KERNAL ROM.
    pub open spec fn kernal_visible(self, addr: int) -> bool {
        self.cpu.kernal_rom_enabled && KERNAL_ROM_START <= addr < KERNAL_ROM_START
            + KERNAL_ROM_SIZE
    }

    /// Whether a read of `addr` finds the BASIC ROM.
    pub open spec fn basic_visible(self, addr: int) -> bool {
        self.cpu.basic_rom_enabled && BASIC_ROM_START <= addr < BASIC_ROM_START + BASIC_ROM_SIZE
    }

    /// Whether a read of `addr` finds the character ROM.
    pub open spec fn char_visible(self, addr: int) -> bool {
        self.cpu.char_rom_enabled && CHAR_ROM_START <= addr < CHAR_ROM_START + CHAR_ROM_SIZE
    }

    /// Whether a read of `addr` finds one of the three ROMs.
    pub open spec fn rom_visible(self, addr: int) -> bool {
        self.kernal_visible(addr) || self.basic_visible(addr) || self.char_visible(addr)
    }

    /// Whether `addr` belongs to the chips in the I/O region.
    pub open spec fn io_visible(self, addr: int) -> bool {
        self.cpu.io_enabled && IO_START <= addr <= IO_END
    }

    /// Whether an access to `addr` finds something to answer it. With the
    /// I/O region visible nothing answers above the second CIA.
    pub open spec fn is_mapped(self, addr: int) -> bool {
        self.io_visible(addr) ==> addr <= CIA2_MAX_CONTROL_ADDR
    }

    /// What a read in the I/O region returns. The colour memory is looked
    /// for before the SID.
    pub open spec fn io_read(self, addr: int) -> u8 {
        if VicView::in_window(addr) {
            self.vic.read(addr)
        } else if COLOR_RAM_START <= addr <= COLOR_RAM_END {
            self.color_ram[addr - COLOR_RAM_START]
        } else if Sid::in_window(addr) {
            Sid::read_value(self.sid, Sid::index(addr))
        } else if self.cia_1.in_window(addr) {
            self.cia_1.read(addr)
        } else {
            self.cia_2.read(addr)
        }
    }

    /// What a read of `addr` returns: the two ports of the processor, then
    /// the first of KERNAL ROM, BASIC ROM, character ROM and I/O that is
    /// visible at `addr`, otherwise RAM.
    pub open spec fn read(self, addr: int) -> u8 {
        if addr == 0 {
            self.cpu.data_direction_reg
        } else if addr == 1 {
            self.cpu.dataport
        } else if self.kernal_visible(addr) {
            self.kernal_rom[addr - KERNAL_ROM_START]
        } else if self.basic_visible(addr) {
            self.basic_rom[addr - BASIC_ROM_START]
        } else if self.char_visible(addr) {
            self.char_rom[addr - CHAR_ROM_START]
        } else if self.io_visible(addr) {
            self.io_read(addr)
        } else {
            self.ram[addr]
        }
    }

    /// The machine after `value` has been written to a chip in the I/O region.
    pub open spec fn io_write(self, addr: int, value: u8) -> BusView {
        if VicView::in_window(addr) {
            BusView { vic: self.vic.write(addr, value), ..self }
        } else if COLOR_RAM_START <= addr <= COLOR_RAM_END {
            BusView {
                color_ram: self.color_ram.update(addr - COLOR_RAM_START, value % 16),
                ..self
            }
        } else if Sid::in_window(addr) {
            BusView { sid: Sid::written(self.sid, Sid::index(addr), value), ..self }
        } else if self.cia_1.in_window(addr) {
            BusView { cia_1: self.cia_1.write(addr, value), ..self }
        } else {
            BusView { cia_2: self.cia_2.write(addr, value), ..self }
        }
    }

    /// The machine after `value` has been written to `addr`. The two lowest
    /// addresses are the ports of the processor. Every other write reaches
    /// RAM, whatever is visible at its address, and a chip as well if the
    /// I/O region is visible there. No write reaches a ROM.
    pub open spec fn write(self, addr: int, value: u8) -> BusView {
        if addr == 0 {
            BusView { cpu: Cpu { data_direction_reg: value, ..self.cpu }, ..self }
        } else if addr == 1 {
            BusView { cpu: self.cpu.with_dataport(value), ..self }
        } else {
            let stored = BusView { ram: self.ram.update(addr, value), ..self };
            if self.io_visible(addr) {
                stored.io_write(addr, value)
            } else {
                stored
            }
        }
    }

    /// The 16-bit address that the video chip reads: its own 14 bits below
    /// the two bank bits, which are the low two bits of port A of the second
    /// CIA, inverted.
    pub open spec fn video_address(self) -> int {
        (3 - self.cia_2.regs[0] as int % 4) * 0x4000 + self.vic.beam.addr_bus as int % 0x4000
    }

    /// Why the video chip cannot take its turn, if it cannot.
    pub open spec fn video_fault(self, screen: &Screen) -> Option<Fault> {
        let position = self.vic.beam.next_position();
        if !self.is_mapped(self.video_address()) {
            Some(Fault::UnmappedIo { addr: self.video_address() as usize })
        } else if !screen.holds(position.0 as int, position.1 as int) {
            Some(Fault::BeamOffScreen)
        } else {
            None
        }
    }

    /// The machine after the turn of the video chip: the chip is handed the
    /// byte at its address and the colour nybble of the cell that the low ten
    /// bits of that address select, and sees a rising edge of the clock.
    pub open spec fn after_video(self) -> BusView {
        let addr = self.video_address();
        let data = self.read(addr);
        let color = self.color_ram[addr % 1024];
        let fed = VicView {
            beam: Beam { data_bus: (color as int % 16 * 256 + data as int) as u16, ..self.vic.beam },
            ..self.vic
        };
        BusView { vic: fed.after_rising_edge(), ..self }
    }

    /// The processor as it goes into its cycle: with the interrupt request
    /// asserted if the video chip asks for it and does not stun the
    /// processor, and with the byte of a pending read latched.
    pub open spec fn primed_cpu(self) -> Cpu {
        let cpu = if !self.vic.beam.irq && self.vic.beam.rdy {
            Cpu { irq: true, ..self.cpu }
        } else {
            self.cpu
        };
        if cpu.addr_enable && cpu.rw {
            cpu.latched(self.read(cpu.addr_bus as int))
        } else {
            cpu
        }
    }

    /// Why the processor cannot take its turn, if it cannot.
    pub open spec fn processor_fault(self) -> Option<Fault> {
        let cpu = self.primed_cpu();
        if self.cpu.addr_enable && !self.is_mapped(self.cpu.addr_bus as int) {
            Some(Fault::UnmappedIo { addr: self.cpu.addr_bus as usize })
        } else if cpu.state == CpuState::Halt {
            Some(Fault::Halted)
        } else if !cpu.is_runnable() {
            Some(Fault::UnknownOpcode { code: cpu.data_bus, pc: cpu.pc })
        } else {
            None
        }
    }

    /// The machine after the turn of the processor: its pending transaction
    /// is carried out, and it takes one cycle.
    pub open spec fn after_processor(self) -> BusView {
        let cpu = self.primed_cpu();
        let served = if cpu.addr_enable && !cpu.rw {
            (BusView { cpu, ..self }).write(cpu.addr_bus as int, cpu.data_bus)
        } else {
            BusView { cpu, ..self }
        };
        BusView { cpu: served.cpu.step(), ..served }
    }
}

impl BusView {
    /// A byte that is written where neither a ROM nor the I/O region is
    /// visible is the byte that a read of the same address returns.
    pub proof fn lemma_write_then_read(self, addr: int, value: u8)
        requires
            self.wf(),
            2 <= addr < RAM_SIZE,
            !self.rom_visible(addr),
            !self.io_visible(addr),
        ensures
            self.write(addr, value).read(addr) == value,
    {
    }

    /// A write never changes a ROM, and it reaches RAM unless it goes to one
    /// of the two ports of the processor, which are no part of RAM.
    pub proof fn lemma_write_reaches_ram(self, addr: int, value: u8)
        requires
            self.wf(),
            0 <= addr < RAM_SIZE,
        ensures
            self.write(addr, value).kernal_rom == self.kernal_rom,
            self.write(addr, value).basic_rom == self.basic_rom,
            self.write(addr, value).char_rom == self.char_rom,
            addr >= 2 ==> self.write(addr, value).ram == self.ram.update(addr, value),
            addr < 2 ==> self.write(addr, value).ram == self.ram,
    {
    }

    /// A write into the visible I/O region reaches the chip that owns the
    /// address, and a read of the address asks that chip: the colour memory
    /// gives back the low four bits, the video chip gives back the byte with
    /// the bits set that have no flip-flop, a CIA gives back the byte
    /// but in its interrupt control register, and the SID does not let its
    /// set-up be read.
    pub proof fn lemma_io_write_then_read(self, addr: int, value: u8)
        requires
            self.wf(),
            self.io_visible(addr),
            self.is_mapped(addr),
        ensures
            ({
                let after = self.write(addr, value);
                let read = after.read(addr);
                &&& read == after.io_read(addr)
                &&& COLOR_RAM_START <= addr <= COLOR_RAM_END ==> read == value % 16
                &&& VicView::in_window(addr) && VicView::index(addr) < crate::io::vic::REGISTER_COUNT
                    && VicView::index(addr) != crate::io::vic::RASTER ==> read == value
                    | crate::io::vic::stuck_bits(VicView::index(addr))
                &&& Sid::in_window(addr) && Sid::index(addr) <= crate::io::sid::LAST_WRITABLE ==> read
                    == 0
                &&& addr >= CIA1_MIN_CONTROL_ADDR && (addr - CIA1_MIN_CONTROL_ADDR) % 16
                    != crate::io::cia::INTERRUPT_CONTROL ==> read == value
            }),
    {
    }

    /// A write into the visible I/O region reaches RAM as well: once the data
    /// port has been written so that neither the I/O region nor a ROM is
    /// visible at the address, a read returns the byte.
    pub proof fn lemma_io_write_reaches_ram(self, addr: int, value: u8, port: u8)
        requires
            self.wf(),
            self.io_visible(addr),
            self.is_mapped(addr),
            !self.write(addr, value).write(1, port).io_visible(addr),
            !self.write(addr, value).write(1, port).rom_visible(addr),
        ensures
            self.write(addr, value).write(1, port).read(addr) == value,
    {
    }

    /// A write to address 1 goes to the data port through the data direction
    /// register, and the three low bits of the port select the banks as the
    /// banking table says. A write to address 0 sets the data direction
    /// register. Reads of the two addresses return the two ports.
    pub proof fn lemma_ports(self, value: u8)
        ensures
            self.write(1, value).cpu.dataport == self.cpu.data_direction_reg & value,
            (
                self.write(1, value).cpu.kernal_rom_enabled,
                self.write(1, value).cpu.basic_rom_enabled,
                self.write(1, value).cpu.char_rom_enabled,
                self.write(1, value).cpu.io_enabled,
            ) == crate::cpu::banking((self.cpu.data_direction_reg & value) as int % 8),
            self.write(1, value).read(1) == self.cpu.data_direction_reg & value,
            self.write(0, value).read(0) == value,
            self.write(0, value).cpu.dataport == self.cpu.dataport,
    {
    }
}

impl View for Bus {
    type V = BusView;

    closed spec fn view(&self) -> BusView {
        BusView {
            mode: self.mode,
            ram: self.ram@,
            color_ram: self.color_ram@,
            kernal_rom: self.kernal_rom@,
            basic_rom: self.basic_rom@,
            char_rom: self.char_rom@,
            cpu: self.cpu,
            vic: self.vic@,
            sid: self.sid@,
            cia_1: self.cia_1@,
            cia_2: self.cia_2@,
        }
    }
}

/// Copies `image` over the start of `target`, as far as it reaches.
fn overlay(target: &mut Vec<u8>, image: &[u8])
    ensures
        final(target)@ == overlaid(old(target)@, image@),
{
    let count = if image.len() < target.len() {
        image.len()
    } else {
        target.len()
    };
    let mut i: usize = 0;
    while i < count
        invariant
            i <= count,
            count <= image@.len(),
            count <= target@.len(),
            target@.len() == old(target)@.len(),
            forall|j: int| 0 <= j < i ==> target@[j] == image@[j],
            forall|j: int| i <= j < target@.len() ==> target@[j] == old(target)@[j],
        decreases count - i,
    {
        target.set(i, image[i]);
        i += 1;
    }
    assert(target@ =~= overlaid(old(target)@, image@));
}

impl Bus {
    pub open spec fn wf(&self) -> bool {
        self@.wf()
    }

    /// A machine with empty memories whose processor waits for its reset.
    pub fn new(debug: bool) -> (bus: Bus)
        ensures
            bus.wf(),
            bus@ == BusView::powered_off(debug),
    {
        let bus = Bus {
            mode: if debug {
                SystemMode::DebugStep
            } else {
                SystemMode::Run
            },
            ram: vec![0u8; RAM_SIZE],
            color_ram: vec![0u8; COLOR_RAM_SIZE],
            kernal_rom: vec![0u8; KERNAL_ROM_SIZE],
            basic_rom: vec![0u8; BASIC_ROM_SIZE],
            char_rom: vec![0u8; CHAR_ROM_SIZE],
            cpu: Cpu::new(),
            vic: Vic::new(),
            sid: Sid::new(),
            cia_1: Cia::new(CIA1_MIN_CONTROL_ADDR),
            cia_2: Cia::new(CIA2_MIN_CONTROL_ADDR),
        };
        proof {
            let v = BusView::powered_off(debug);
            assert(bus@.ram =~= v.ram);
            assert(bus@.color_ram =~= v.color_ram);
            assert(bus@.kernal_rom =~= v.kernal_rom);
            assert(bus@.basic_rom =~= v.basic_rom);
            assert(bus@.char_rom =~= v.char_rom);
        }
        bus
    }

    /// Loads an image into RAM, from address 0 on. What the image does not
    /// reach stays as it is, and what does not fit is left out.
    pub fn initialize(&mut self, image: &[u8])
        requires
            old(self).wf(),
        ensures
            final(self).wf(),
            final(self)@ == (BusView { ram: overlaid(old(self)@.ram, image@), ..old(self)@ }),
    {
        overlay(&mut self.ram, image);
    }

    /// Loads the images of the three ROMs, each from the start of its region.
    pub fn load_roms(&mut self, kernal: &[u8], basic: &[u8], chars: &[u8])
        requires
            old(self).wf(),
        ensures
            final(self).wf(),
            final(self)@ == (BusView {
                kernal_rom: overlaid(old(self)@.kernal_rom, kernal@),
                basic_rom: overlaid(old(self)@.basic_rom, basic@),
                char_rom: overlaid(old(self)@.char_rom, chars@),
                ..old(self)@
            }),
    {
        overlay(&mut self.kernal_rom, kernal);
        overlay(&mut self.basic_rom, basic);
        overlay(&mut self.char_rom, chars);
    }

    /// Resets the processor.
    pub fn reset(&mut self)
        requires
            old(self).wf(),
        ensures
            final(self).wf(),
            final(self)@ == (BusView { cpu: old(self)@.cpu.after_reset(), ..old(self)@ }),
    {
        let mut cpu = self.cpu;
        cpu.reset();
        self.cpu = cpu;
    }

    /// Whether an access to `addr` finds something to answer it.
    pub fn is_mapped(&self, addr: usize) -> (mapped: bool)
        ensures
            mapped == self@.is_mapped(addr as int),
    {
        !(self.cpu.io_enabled() && addr >= IO_START && addr <= IO_END && addr
            > CIA2_MAX_CONTROL_ADDR)
    }

    /// Reads the byte that the processor sees at `addr`.
    pub fn read_byte(&self, addr: usize) -> (value: u8)
        requires
            self.wf(),
            addr < RAM_SIZE,
            self@.is_mapped(addr as int),
        ensures
            value == self@.read(addr as int),
    {
        if addr == 0 {
            self.cpu.read_ddr()
        } else if addr == 1 {
            self.cpu.read_dataport()
        } else if self.cpu.krom_enabled() && addr >= KERNAL_ROM_START && addr < KERNAL_ROM_START
            + KERNAL_ROM_SIZE {
            self.kernal_rom[addr - KERNAL_ROM_START]
        } else if self.cpu.brom_enabled() && addr >= BASIC_ROM_START && addr < BASIC_ROM_START
            + BASIC_ROM_SIZE {
            self.basic_rom[addr - BASIC_ROM_START]
        } else if self.cpu.crom_enabled() && addr >= CHAR_ROM_START && addr < CHAR_ROM_START
            + CHAR_ROM_SIZE {
            self.char_rom[addr - CHAR_ROM_START]
        } else if self.cpu.io_enabled() && addr >= IO_START && addr <= IO_END {
            self.io_read(addr)
        } else {
            self.ram[addr]
        }
    }

    /// Reads from the chip that owns `addr`.
    pub fn io_read(&self, addr: usize) -> (value: u8)
        requires
            self.wf(),
            IO_START <= addr <= CIA2_MAX_CONTROL_ADDR,
        ensures
            value == self@.io_read(addr as int),
    {
        if addr >= crate::io::vic::MIN_CONTROL_ADDR && addr <= crate::io::vic::MAX_CONTROL_ADDR {
            self.vic.read_register(addr)
        } else if addr >= COLOR_RAM_START && addr <= COLOR_RAM_END {
            self.color_ram[addr - COLOR_RAM_START]
        } else if addr >= crate::io::sid::MIN_CONTROL_ADDR && addr
            <= crate::io::sid::MAX_CONTROL_ADDR {
            self.sid.read_register(addr)
        } else if addr >= CIA1_MIN_CONTROL_ADDR && addr <= CIA1_MAX_CONTROL_ADDR {
            self.cia_1.read_register(addr)
        } else {
            self.cia_2.read_register(addr)
        }
    }

    /// Writes a byte where the processor, writing to `addr`, reaches.
    pub fn write_byte(&mut self, addr: usize, value: u8)
        requires
            old(self).wf(),
            addr < RAM_SIZE,
            old(self)@.is_mapped(addr as int),
        ensures
            final(self).wf(),
            final(self)@ == old(self)@.write(addr as int, value),
    {
        if addr == 0 {
            let mut cpu = self.cpu;
            cpu.write_ddr(value);
            self.cpu = cpu;
        } else if addr == 1 {
            let mut cpu = self.cpu;
            cpu.write_dataport(value);
            self.cpu = cpu;
        } else {
            self.ram.set(addr, value);
            if self.cpu.io_enabled() && addr >= IO_START && addr <= IO_END {
                self.io_write(addr, value);
            }
        }
    }

    /// Writes to the chip that owns `addr`.
    pub fn io_write(&mut self, addr: usize, value: u8)
        requires
            old(self).wf(),
            IO_START <= addr <= CIA2_MAX_CONTROL_ADDR,
        ensures
            final(self).wf(),
            final(self)@ == old(self)@.io_write(addr as int, value),
    {
        if addr >= crate::io::vic::MIN_CONTROL_ADDR && addr <= crate::io::vic::MAX_CONTROL_ADDR {
            self.vic.write_register(addr, value);
        } else if addr >= COLOR_RAM_START && addr <= COLOR_RAM_END {
            self.color_ram.set(addr - COLOR_RAM_START, value % 16);
        } else if addr >= crate::io::sid::MIN_CONTROL_ADDR && addr
            <= crate::io::sid::MAX_CONTROL_ADDR {
            self.sid.write_register(addr, value);
        } else if addr >= CIA1_MIN_CONTROL_ADDR && addr <= CIA1_MAX_CONTROL_ADDR {
            self.cia_1.write_register(addr, value);
        } else {
            self.cia_2.write_register(addr, value);
        }
    }

    /// Widens the 14-bit address of the video chip to the 16 bits of the bus.
    pub fn convert_vic_ii_addr(&self, addr: u16) -> (wide: usize)
        requires
            self.wf(),
        ensures
            wide == (3 - self@.cia_2.regs[0] as int % 4) * 0x4000 + addr as int % 0x4000,
            wide < RAM_SIZE,
    {
        let port_a = self.cia_2.read_register(CIA2_MIN_CONTROL_ADDR);
        let bank = (3 - port_a % 4) as usize;
        bank * 0x4000 + (addr % 0x4000) as usize
    }

    /// How the clock is driven.
    pub fn mode(&self) -> (mode: SystemMode)
        ensures
            mode == self@.mode,
    {
        self.mode
    }

    /// Takes a line that was typed at the debug console, and says what it
    /// asks for.
    pub fn debug_command(&mut self, line: &str) -> (command: Command)
        ensures
            command == command_of(trimmed(line.spec_bytes())),
            final(self)@ == (BusView { mode: old(self)@.mode.after(command), ..old(self)@ }),
    {
        let command = parse_command(line);
        if self.mode == SystemMode::DebugStep && command == Command::Run {
            self.mode = SystemMode::DebugRun;
        }
        command
    }

    /// Whether a frame of the video chip is complete.
    pub fn frame_ready(&self) -> (ready: bool)
        ensures
            ready == (self@.vic.beam.xpos == 0 && self@.vic.beam.raster == 0),
    {
        self.vic.frame_ready()
    }

    /// The processor, to look at.
    pub fn cpu(&self) -> (cpu: &Cpu)
        ensures
            *cpu == self@.cpu,
    {
        &self.cpu
    }

    /// The video chip, to look at.
    pub fn vic(&self) -> (vic: &Vic)
        ensures
            vic@ == self@.vic,
    {
        &self.vic
    }

    /// The turn of the video chip in a tick of the clock. When the chip
    /// cannot take it, nothing changes and the reason comes back.
    pub fn video_phase(&mut self, screen: &mut Screen) -> (result: Result<(), Fault>)
        requires
            old(self).wf(),
            old(screen).wf(),
        ensures
            final(self).wf(),
            final(screen).wf(),
            final(screen).spec_width() == old(screen).spec_width(),
            final(screen).spec_height() == old(screen).spec_height(),
            match old(self)@.video_fault(old(screen)) {
                Some(fault) => {
                    &&& result == Err::<(), Fault>(fault)
                    &&& final(self)@ == old(self)@
                    &&& final(screen)@ == old(screen)@
                },
                None => {
                    &&& result is Ok
                    &&& final(self)@ == old(self)@.after_video()
                    &&& final(screen)@ == old(screen)@.update(
                        old(screen).index(
                            final(self)@.vic.beam.xpos as int,
                            final(self)@.vic.beam.raster as int,
                        ),
                        palette(BEAM_COLOR as int),
                    )
                },
            },
    {
        let addr = self.convert_vic_ii_addr(self.vic.read_addr_bus());
        if !self.is_mapped(addr) {
            return Err(Fault::UnmappedIo { addr });
        }
        if !self.vic.draws_inside(screen) {
            return Err(Fault::BeamOffScreen);
        }
        let byte = self.read_byte(addr);
        let color = self.color_ram[addr % COLOR_RAM_SIZE];
        self.vic.data_in(byte);
        self.vic.color_in(color);
        self.vic.rising_edge(screen);
        Ok(())
    }

    /// The processor as it goes into its cycle.
    fn primed_cpu(&self) -> (cpu: Cpu)
        requires
            self.wf(),
            self@.cpu.addr_enable ==> self@.is_mapped(self@.cpu.addr_bus as int),
        ensures
            cpu == self@.primed_cpu(),
    {
        let mut cpu = self.cpu;
        if !self.vic.irq() && self.vic.rdy() {
            cpu.trigger_interrupt();
        }
        if cpu.addr_enable && cpu.rw {
            let byte = self.read_byte(cpu.addr_bus as usize);
            cpu.data_in(byte);
        }
        cpu
    }

    /// Why the processor cannot take its turn, if it cannot.
    pub fn processor_fault(&self) -> (fault: Option<Fault>)
        requires
            self.wf(),
        ensures
            fault == self@.processor_fault(),
    {
        let addr = self.cpu.addr_bus as usize;
        if self.cpu.addr_enable && !self.is_mapped(addr) {
            Some(Fault::UnmappedIo { addr })
        } else {
            let cpu = self.primed_cpu();
            if cpu.state == CpuState::Halt {
                Some(Fault::Halted)
            } else if !cpu.runnable() {
                Some(Fault::UnknownOpcode { code: cpu.data_bus, pc: cpu.pc })
            } else {
                None
            }
        }
    }

    /// Carries out the pending write of the processor, if there is one.
    fn serve_write(&mut self)
        requires
            old(self).wf(),
            old(self)@.cpu.addr_enable ==> old(self)@.is_mapped(old(self)@.cpu.addr_bus as int),
        ensures
            final(self).wf(),
            final(self)@ == (if old(self)@.cpu.addr_enable && !old(self)@.cpu.rw {
                old(self)@.write(old(self)@.cpu.addr_bus as int, old(self)@.cpu.data_bus)
            } else {
                old(self)@
            }),
    {
        if self.cpu.addr_enable && !self.cpu.rw {
            self.write_byte(self.cpu.addr_bus as usize, self.cpu.data_bus);
        }
    }

    /// The turn of the processor in a tick of the clock. When the processor
    /// cannot take it, nothing changes and the reason comes back.
    pub fn processor_phase(&mut self) -> (result: Result<(), Fault>)
        requires
            old(self).wf(),
        ensures
            final(self).wf(),
            match old(self)@.processor_fault() {
                Some(fault) => result == Err::<(), Fault>(fault) && final(self)@ == old(self)@,
                None => result is Ok && final(self)@ == old(self)@.after_processor(),
            },
    {
        match self.processor_fault() {
            Some(fault) => Err(fault),
            None => {
                self.cpu = self.primed_cpu();
                self.serve_write();
                let mut cpu = self.cpu;
                cpu.cycle();
                self.cpu = cpu;
                Ok(())
            },
        }
    }

    /// One tick of the clock. The video chip reads and sees its rising edge.
    /// Then the processor takes its turn if the chip leaves it the bus, and
    /// else the chip sees its falling edge. The result tells whether a frame
    /// is complete. When the machine cannot go on, the reason comes back,
    /// and the turn that could not be taken has changed nothing.
    pub fn tick(&mut self, screen: &mut Screen) -> (result: Result<bool, Fault>)
        requires
            old(self).wf(),
            old(screen).wf(),
        ensures
            final(self).wf(),
            final(screen).wf(),
            final(screen).spec_width() == old(screen).spec_width(),
            final(screen).spec_height() == old(screen).spec_height(),
            match old(self)@.video_fault(old(screen)) {
                Some(fault) => {
                    &&& result == Err::<bool, Fault>(fault)
                    &&& final(self)@ == old(self)@
                    &&& final(screen)@ == old(screen)@
                },
                None => {
                    let seen = old(self)@.after_video();
                    &&& final(screen)@ == old(screen)@.update(
                        old(screen).index(seen.vic.beam.xpos as int, seen.vic.beam.raster as int),
                        palette(BEAM_COLOR as int),
                    )
                    &&& if !seen.vic.beam.aec {
                        result is Ok && final(self)@ == seen
                    } else {
                        match seen.processor_fault() {
                            Some(fault) => result == Err::<bool, Fault>(fault) && final(self)@
                                == seen,
                            None => result is Ok && final(self)@ == seen.after_processor(),
                        }
                    }
                    &&& result matches Ok(ready) ==> ready == (final(self)@.vic.beam.xpos == 0
                        && final(self)@.vic.beam.raster == 0)
                },
            },
    {
        match self.video_phase(screen) {
            Err(fault) => {
                return Err(fault);
            },
            Ok(_) => {},
        }
        if self.vic.aec() {
            match self.processor_phase() {
                Err(fault) => {
                    return Err(fault);
                },
                Ok(_) => {},
            }
        } else {
            self.vic.falling_edge(screen);
        }
        Ok(self.vic.frame_ready())
    }
}

} // verus!
