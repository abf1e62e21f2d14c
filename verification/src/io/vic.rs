//! The VIC-II video chip: its register file, the pins by which it shares the
//! bus with the processor, and a beam that walks over the screen.

use vstd::prelude::*;
use super::register_index;
use crate::screen::{Pixel, Screen};

verus! {

/// The first address of the window of the VIC.
pub const MIN_CONTROL_ADDR: usize = 0xd000;

/// The last address of the window of the VIC.
pub const MAX_CONTROL_ADDR: usize = 0xd3ff;

/// The number of addresses after which the registers repeat.
pub const CONTROL_REG_COUNT: usize = 0x40;

/// The number of registers that exist. The others read as 0xFF.
pub const REGISTER_COUNT: usize = 47;

/// The register of the raster line: a read returns the line that the beam is
/// on, a write sets the line on which to interrupt.
pub const RASTER: usize = 18;

/// The register of the memory pointers.
pub const MEMORY_POINTERS: usize = 24;

/// The number of cycles that the beam spends on a line.
pub const HORZ_CYCLE_COUNT: u8 = 63;

/// The last line of a frame.
pub const LAST_LINE: u8 = 100;

/// The colour that the beam draws.
pub const BEAM_COLOR: u8 = 6;

/// What the chip does with the bus.
#[derive(Debug, Clone, Copy, PartialEq, Eq, Structural)]
pub enum VicState {
    Idle,
    MatrixRead,
}

/// The pins, the buses and the beam of the chip.
#[derive(Debug, Clone, Copy, PartialEq, Eq, Structural)]
pub struct Beam {
    /// The interrupt pin. It is low, that is false, while the chip asks for
    /// an interrupt.
    pub irq: bool,
    /// The ready pin. It is low while the chip stuns the processor.
    pub rdy: bool,
    /// The pin that hands the address bus to the processor while it is high.
    pub aec: bool,
    pub state: VicState,
    /// The address that the chip wants to read, of which 14 bits count.
    pub addr_bus: u16,
    /// What the chip has read: a byte, and above it a nybble of colour.
    pub data_bus: u16,
    /// The position in the video matrix.
    pub matrix_pos: u16,
    /// The position of the beam on its line.
    pub xpos: u8,
    /// The line that the beam is on.
    pub raster: u8,
    /// The line on which to interrupt.
    pub raster_int: u8,
    /// The number of rising edges so far.
    pub cycles: u64,
}

/// The bits that a write to register `reg` finds set whatever it writes,
/// because the register has no flip-flop for them.
pub open spec fn stuck_bits(reg: int) -> u8 {
    if reg == 17 {
        0xc0
    } else if reg == MEMORY_POINTERS {
        0x01
    } else if reg == 25 || reg == 26 {
        0x70
    } else if 32 <= reg < REGISTER_COUNT {
        0xf0
    } else {
        0
    }
}

/// The sixteen colours of the chip.
pub open spec fn palette(color: int) -> Pixel {
    if color == 0 {
        (0x00, 0x00, 0x00)
    } else if color == 1 {
        (0xff, 0xff, 0xff)
    } else if color == 2 {
        (0x68, 0x37, 0x2b)
    } else if color == 3 {
        (0x70, 0xa4, 0xb2)
    } else if color == 4 {
        (0x6f, 0x3d, 0x86)
    } else if color == 5 {
        (0x58, 0x8d, 0x43)
    } else if color == 6 {
        (0x35, 0x28, 0x79)
    } else if color == 7 {
        (0xb8, 0xc7, 0x6f)
    } else if color == 8 {
        (0x6f, 0x4f, 0x25)
    } else if color == 9 {
        (0x43, 0x39, 0x00)
    } else if color == 10 {
        (0x9a, 0x67, 0x59)
    } else if color == 11 {
        (0x44, 0x44, 0x44)
    } else if color == 12 {
        (0x6c, 0x6c, 0x6c)
    } else if color == 13 {
        (0x9a, 0xd2, 0x84)
    } else if color == 14 {
        (0x6c, 0x5e, 0xb5)
    } else {
        (0x95, 0x95, 0x95)
    }
}

/// The colour with the given number, of which the low four bits count.
pub fn color(number: u8) -> (pixel: Pixel)
    ensures
        pixel == palette(number as int % 16),
{
    match number % 16 {
        0 => (0x00, 0x00, 0x00),
        1 => (0xff, 0xff, 0xff),
        2 => (0x68, 0x37, 0x2b),
        3 => (0x70, 0xa4, 0xb2),
        4 => (0x6f, 0x3d, 0x86),
        5 => (0x58, 0x8d, 0x43),
        6 => (0x35, 0x28, 0x79),
        7 => (0xb8, 0xc7, 0x6f),
        8 => (0x6f, 0x4f, 0x25),
        9 => (0x43, 0x39, 0x00),
        10 => (0x9a, 0x67, 0x59),
        11 => (0x44, 0x44, 0x44),
        12 => (0x6c, 0x6c, 0x6c),
        13 => (0x9a, 0xd2, 0x84),
        14 => (0x6c, 0x5e, 0xb5),
        _ => (0x95, 0x95, 0x95),
    }
}

impl Beam {
    /// The colour nybble on the data bus.
    pub open spec fn color_nybble(self) -> u8 {
        (self.data_bus as int / 256 % 16) as u8
    }

    /// The byte on the data bus.
    pub open spec fn data_byte(self) -> u8 {
        (self.data_bus as int % 256) as u8
    }

    /// Where the beam is after the next rising edge: it moves on by one,
    /// and from the end of a line to the start of the next, and from the
    /// last line to the first.
    pub open spec fn next_position(self) -> (u8, u8) {
        let x = if self.xpos == 255 {
            0u8
        } else {
            (self.xpos + 1) as u8
        };
        let line = if x != HORZ_CYCLE_COUNT {
            self.raster
        } else if self.raster == 255 {
            0u8
        } else {
            (self.raster + 1) as u8
        };
        (
            if x == HORZ_CYCLE_COUNT {
                0
            } else {
                x
            },
            if line > LAST_LINE {
                0
            } else {
                line
            },
        )
    }
}

pub struct Vic {
    beam: Beam,
    regs: Vec<u8>,
}

/// What a VIC holds.
pub struct VicView {
    pub beam: Beam,
    /// The values of the registers that exist.
    pub regs: Seq<u8>,
}

impl VicView {
    pub open spec fn wf(self) -> bool {
        self.regs.len() == REGISTER_COUNT
    }

    /// The chip as it is when the power comes on: no pin is low, the beam
    /// stands at the start of the frame, and the two control registers hold
    /// their start values.
    pub open spec fn powered_on() -> VicView {
        VicView {
            beam: Beam {
                irq: true,
                rdy: true,
                aec: true,
                state: VicState::Idle,
                addr_bus: 0x3fff,
                data_bus: 0,
                matrix_pos: 0,
                xpos: 0,
                raster: 0,
                raster_int: 0xff,
                cycles: 0,
            },
            regs: Seq::new(
                REGISTER_COUNT as nat,
                |i: int|
                    if i == 17 {
                        0x1bu8
                    } else if i == 22 {
                        0xc8u8
                    } else {
                        0u8
                    },
            ),
        }
    }

    /// Whether an address lies in the window of the chip.
    pub open spec fn in_window(addr: int) -> bool {
        MIN_CONTROL_ADDR <= addr <= MAX_CONTROL_ADDR
    }

    /// The register that an address selects.
    pub open spec fn index(addr: int) -> int {
        register_index(addr, MIN_CONTROL_ADDR as int, CONTROL_REG_COUNT as int)
    }

    /// What a read at `addr` returns.
    pub open spec fn read(self, addr: int) -> u8 {
        let reg = VicView::index(addr);
        if reg == RASTER {
            self.beam.raster
        } else if reg < REGISTER_COUNT {
            self.regs[reg]
        } else {
            0xff
        }
    }

    /// The chip after `value` has been written at `addr`.
    pub open spec fn write(self, addr: int, value: u8) -> VicView {
        let reg = VicView::index(addr);
        if reg == RASTER {
            VicView { beam: Beam { raster_int: value, ..self.beam }, ..self }
        } else if reg < REGISTER_COUNT {
            VicView { regs: self.regs.update(reg, value | stuck_bits(reg)), ..self }
        } else {
            self
        }
    }

    /// The 14-bit address of the current position in the video matrix.
    pub open spec fn matrix_addr(self) -> u16 {
        (self.regs[MEMORY_POINTERS as int] as int / 16 * 1024 + self.beam.matrix_pos as int
            % 1024) as u16
    }

    /// The 14-bit address of the current line of the character `pointer`.
    pub open spec fn char_addr(self, pointer: u8) -> u16 {
        (self.regs[MEMORY_POINTERS as int] as int % 16 / 2 * 2048 + pointer as int * 8
            + self.beam.raster as int % 8) as u16
    }

    /// The chip after a rising edge of the clock. The chip takes the bus for
    /// its read and gives it back, so that the pin is high afterwards. It
    /// asks for an interrupt while the beam is on the line to interrupt on.
    pub open spec fn after_rising_edge(self) -> VicView {
        let b = self.beam;
        let position = b.next_position();
        VicView {
            beam: Beam {
                state: VicState::MatrixRead,
                addr_bus: if b.state == VicState::MatrixRead {
                    self.matrix_addr()
                } else {
                    b.addr_bus
                },
                matrix_pos: if b.state != VicState::MatrixRead {
                    b.matrix_pos
                } else if b.matrix_pos == u16::MAX {
                    0
                } else {
                    (b.matrix_pos + 1) as u16
                },
                xpos: position.0,
                raster: position.1,
                irq: position.1 != b.raster_int,
                aec: true,
                cycles: if b.cycles == u64::MAX {
                    0
                } else {
                    (b.cycles + 1) as u64
                },
                ..b
            },
            ..self
        }
    }
}

impl View for Vic {
    type V = VicView;

    closed spec fn view(&self) -> VicView {
        VicView { beam: self.beam, regs: self.regs@ }
    }
}

impl Vic {
    pub open spec fn wf(&self) -> bool {
        self@.wf()
    }

    /// The chip as it is when the power comes on.
    pub fn new() -> (vic: Vic)
        ensures
            vic.wf(),
            vic@ == VicView::powered_on(),
    {
        let mut regs = vec![0u8; REGISTER_COUNT];
        regs.set(17, 0x1b);
        regs.set(22, 0xc8);
        let vic = Vic {
            beam: Beam {
                irq: true,
                rdy: true,
                aec: true,
                state: VicState::Idle,
                addr_bus: 0x3fff,
                data_bus: 0,
                matrix_pos: 0,
                xpos: 0,
                raster: 0,
                raster_int: 0xff,
                cycles: 0,
            },
            regs,
        };
        assert(vic@.regs =~= VicView::powered_on().regs);
        vic
    }

    /// The pins, the buses and the beam, to look at.
    pub fn beam(&self) -> (beam: Beam)
        ensures
            beam == self@.beam,
    {
        self.beam
    }

    /// Translates an address in the window to the number of its register.
    pub fn translate_addr(&self, addr: usize) -> (reg: u8)
        requires
            VicView::in_window(addr as int),
        ensures
            reg == VicView::index(addr as int),
            reg < CONTROL_REG_COUNT,
    {
        ((addr - MIN_CONTROL_ADDR) % CONTROL_REG_COUNT) as u8
    }

    pub fn read_register(&self, addr: usize) -> (value: u8)
        requires
            self.wf(),
            VicView::in_window(addr as int),
        ensures
            value == self@.read(addr as int),
    {
        let reg = self.translate_addr(addr) as usize;
        if reg == RASTER {
            self.beam.raster
        } else if reg < REGISTER_COUNT {
            self.regs[reg]
        } else {
            0xff
        }
    }

    pub fn write_register(&mut self, addr: usize, value: u8)
        requires
            old(self).wf(),
            VicView::in_window(addr as int),
        ensures
            final(self).wf(),
            final(self)@ == old(self)@.write(addr as int, value),
    {
        let reg = self.translate_addr(addr) as usize;
        if reg == RASTER {
            self.beam.raster_int = value;
        } else if reg < REGISTER_COUNT {
            let stuck: u8 = if reg == 17 {
                0xc0
            } else if reg == MEMORY_POINTERS {
                0x01
            } else if reg == 25 || reg == 26 {
                0x70
            } else if reg >= 32 {
                0xf0
            } else {
                0
            };
            self.regs.set(reg, value | stuck);
        }
    }

    /// The address that the chip wants to read: the low 14 bits of its
    /// address bus.
    pub fn read_addr_bus(&self) -> (addr: u16)
        ensures
            addr == self@.beam.addr_bus % 0x4000,
    {
        self.beam.addr_bus % 0x4000
    }

    /// The 14-bit address of the current position in the video matrix.
    pub fn matrix_addr(&self) -> (addr: u16)
        requires
            self.wf(),
        ensures
            addr == self@.matrix_addr(),
            addr < 0x4000,
    {
        let base = (self.regs[MEMORY_POINTERS] / 16) as u16 * 1024;
        base + self.beam.matrix_pos % 1024
    }

    /// The 14-bit address of the current line of the character `pointer`.
    pub fn char_addr(&self, pointer: u8) -> (addr: u16)
        requires
            self.wf(),
        ensures
            addr == self@.char_addr(pointer),
            addr < 0x4000,
    {
        let base = (self.regs[MEMORY_POINTERS] % 16 / 2) as u16 * 2048;
        base + (pointer as u16) * 8 + (self.beam.raster % 8) as u16
    }

    /// Whether the next rising edge draws inside `screen`.
    pub fn draws_inside(&self, screen: &Screen) -> (inside: bool)
        requires
            screen.wf(),
        ensures
            inside == screen.holds(
                self@.beam.next_position().0 as int,
                self@.beam.next_position().1 as int,
            ),
    {
        let (x, y) = next_position(self.beam);
        screen.contains(x as usize, y as usize)
    }

    /// A rising edge of the clock: the chip puts the address of its next
    /// read on its bus, moves the beam on and draws the pixel under it.
    pub fn rising_edge(&mut self, screen: &mut Screen)
        requires
            old(self).wf(),
            old(screen).holds(
                old(self)@.beam.next_position().0 as int,
                old(self)@.beam.next_position().1 as int,
            ),
        ensures
            final(self).wf(),
            final(self)@ == old(self)@.after_rising_edge(),
            final(screen)@ == old(screen)@.update(
                old(screen).index(final(self)@.beam.xpos as int, final(self)@.beam.raster as int),
                palette(BEAM_COLOR as int),
            ),
            final(screen).spec_width() == old(screen).spec_width(),
            final(screen).spec_height() == old(screen).spec_height(),
    {
        let before = self.beam;
        let addr_bus = match before.state {
            VicState::Idle => before.addr_bus,
            VicState::MatrixRead => self.matrix_addr(),
        };
        let matrix_pos = match before.state {
            VicState::Idle => before.matrix_pos,
            VicState::MatrixRead => before.matrix_pos.wrapping_add(1),
        };
        let (xpos, raster) = next_position(before);
        screen.set_pixel_at(xpos as usize, raster as usize, color(BEAM_COLOR));
        self.beam = Beam {
            state: VicState::MatrixRead,
            addr_bus,
            matrix_pos,
            xpos,
            raster,
            irq: raster != before.raster_int,
            aec: true,
            cycles: before.cycles.wrapping_add(1),
            ..before
        };
    }

    /// A falling edge of the clock, on which the chip has nothing to do.
    pub fn falling_edge(&mut self, screen: &mut Screen)
        ensures
            final(self)@ == old(self)@,
            final(screen)@ == old(screen)@,
            final(screen).spec_width() == old(screen).spec_width(),
            final(screen).spec_height() == old(screen).spec_height(),
    {
    }

    /// Puts a nybble of colour on the data bus, above the byte.
    pub fn color_in(&mut self, byte: u8)
        ensures
            final(self)@ == (VicView {
                beam: Beam {
                    data_bus: (byte as int % 16 * 256 + old(self)@.beam.data_byte() as int) as u16,
                    ..old(self)@.beam
                },
                ..old(self)@
            }),
    {
        self.beam.data_bus = (byte % 16) as u16 * 256 + self.beam.data_bus % 256;
    }

    /// Puts a byte on the data bus, below the nybble of colour.
    pub fn data_in(&mut self, byte: u8)
        ensures
            final(self)@ == (VicView {
                beam: Beam {
                    data_bus: (old(self)@.beam.color_nybble() as int * 256 + byte as int) as u16,
                    ..old(self)@.beam
                },
                ..old(self)@
            }),
    {
        self.beam.data_bus = self.beam.data_bus / 256 % 16 * 256 + byte as u16;
    }

    /// The nybble of colour on the data bus.
    pub fn read_color_nybble(&self) -> (nybble: u8)
        ensures
            nybble == self@.beam.color_nybble(),
    {
        (self.beam.data_bus / 256 % 16) as u8
    }

    /// The byte on the data bus.
    pub fn read_data_bus(&self) -> (byte: u8)
        ensures
            byte == self@.beam.data_byte(),
    {
        (self.beam.data_bus % 256) as u8
    }

    /// Whether the beam stands at the start of a frame, so that the frame
    /// before it is complete.
    pub fn frame_ready(&self) -> (ready: bool)
        ensures
            ready == (self@.beam.xpos == 0 && self@.beam.raster == 0),
    {
        self.beam.xpos == 0 && self.beam.raster == 0
    }

    pub fn irq(&self) -> (level: bool)
        ensures
            level == self@.beam.irq,
    {
        self.beam.irq
    }

    pub fn rdy(&self) -> (level: bool)
        ensures
            level == self@.beam.rdy,
    {
        self.beam.rdy
    }

    pub fn aec(&self) -> (level: bool)
        ensures
            level == self@.beam.aec,
    {
        self.beam.aec
    }
}

/// Where the beam is after the next rising edge.
fn next_position(beam: Beam) -> (position: (u8, u8))
    ensures
        position == beam.next_position(),
{
    let mut xpos = beam.xpos.wrapping_add(1);
    let mut raster = beam.raster;
    if xpos == HORZ_CYCLE_COUNT {
        xpos = 0;
        raster = raster.wrapping_add(1);
    }
    if raster > LAST_LINE {
        raster = 0;
    }
    (xpos, raster)
}

} // verus!
