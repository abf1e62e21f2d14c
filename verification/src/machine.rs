//! The machine as its owner sets it up: the files that its memories are
//! loaded from, its clock, and the bus with everything on it.

use vstd::prelude::*;
use vstd::string::StringSliceAdditionalSpecFns;
use crate::console::{command_of, trimmed, Command};
use crate::bus::{overlaid, Bus, BusView, Fault};
use crate::clock::{NTSC_CLK, PAL_CLK};
use crate::io::vic::{palette, BEAM_COLOR};
use crate::screen::Screen;

verus! {

pub struct C64 {
    ram_image_file: String,
    kernal_rom_file: String,
    basic_rom_file: String,
    char_rom_file: String,
    clock: u32,
    bus: Bus,
}

/// The set-up of a machine.
pub struct C64View {
    pub ram_image_file: Seq<char>,
    pub kernal_rom_file: Seq<char>,
    pub basic_rom_file: Seq<char>,
    pub char_rom_file: Seq<char>,
    /// The clock, in thousandths of a hertz.
    pub clock: u32,
    pub bus: BusView,
}

impl C64View {
    /// A machine with the given clock that has no file set and has not been
    /// switched on.
    pub open spec fn unplugged(clock: u32, debug: bool) -> C64View {
        C64View {
            ram_image_file: Seq::empty(),
            kernal_rom_file: Seq::empty(),
            basic_rom_file: Seq::empty(),
            char_rom_file: Seq::empty(),
            clock,
            bus: BusView::powered_off(debug),
        }
    }
}

impl View for C64 {
    type V = C64View;

    closed spec fn view(&self) -> C64View {
        C64View {
            ram_image_file: self.ram_image_file@,
            kernal_rom_file: self.kernal_rom_file@,
            basic_rom_file: self.basic_rom_file@,
            char_rom_file: self.char_rom_file@,
            clock: self.clock,
            bus: self.bus@,
        }
    }
}

impl C64 {
    pub open spec fn wf(&self) -> bool {
        self@.bus.wf()
    }

    /// A machine without clock and without files.
    pub fn new(debug: bool) -> (c: C64)
        ensures
            c.wf(),
            c@ == C64View::unplugged(0, debug),
    {
        let c = C64 {
            ram_image_file: String::new(),
            kernal_rom_file: String::new(),
            basic_rom_file: String::new(),
            char_rom_file: String::new(),
            clock: 0,
            bus: Bus::new(debug),
        };
        proof {
            let v = C64View::unplugged(0, debug);
            assert(c@.ram_image_file =~= v.ram_image_file);
            assert(c@.kernal_rom_file =~= v.kernal_rom_file);
            assert(c@.basic_rom_file =~= v.basic_rom_file);
            assert(c@.char_rom_file =~= v.char_rom_file);
        }
        c
    }

    /// A machine with the clock of NTSC.
    pub fn new_ntsc(debug: bool) -> (c: C64)
        ensures
            c.wf(),
            c@ == C64View::unplugged(NTSC_CLK, debug),
    {
        let mut c = C64::new(debug);
        c.clock = NTSC_CLK;
        c
    }

    /// A machine with the clock of PAL.
    pub fn new_pal(debug: bool) -> (c: C64)
        ensures
            c.wf(),
            c@ == C64View::unplugged(PAL_CLK, debug),
    {
        let mut c = C64::new(debug);
        c.clock = PAL_CLK;
        c
    }

    pub fn set_ram_image_file(&mut self, fname: &str)
        ensures
            final(self)@ == (C64View { ram_image_file: fname@, ..old(self)@ }),
    {
        self.ram_image_file = fname.to_owned();
    }

    pub fn set_kernal_rom(&mut self, fname: &str)
        ensures
            final(self)@ == (C64View { kernal_rom_file: fname@, ..old(self)@ }),
    {
        self.kernal_rom_file = fname.to_owned();
    }

    pub fn set_basic_rom(&mut self, fname: &str)
        ensures
            final(self)@ == (C64View { basic_rom_file: fname@, ..old(self)@ }),
    {
        self.basic_rom_file = fname.to_owned();
    }

    pub fn set_char_rom(&mut self, fname: &str)
        ensures
            final(self)@ == (C64View { char_rom_file: fname@, ..old(self)@ }),
    {
        self.char_rom_file = fname.to_owned();
    }

    pub fn ram_image_file(&self) -> (fname: &str)
        ensures
            fname@ == self@.ram_image_file,
    {
        self.ram_image_file.as_str()
    }

    pub fn kernal_rom(&self) -> (fname: &str)
        ensures
            fname@ == self@.kernal_rom_file,
    {
        self.kernal_rom_file.as_str()
    }

    pub fn basic_rom(&self) -> (fname: &str)
        ensures
            fname@ == self@.basic_rom_file,
    {
        self.basic_rom_file.as_str()
    }

    pub fn char_rom(&self) -> (fname: &str)
        ensures
            fname@ == self@.char_rom_file,
    {
        self.char_rom_file.as_str()
    }

    pub fn clock(&self) -> (clock: u32)
        ensures
            clock == self@.clock,
    {
        self.clock
    }

    /// The bus, to look at.
    pub fn bus(&self) -> (bus: &Bus)
        ensures
            bus@ == self@.bus,
    {
        &self.bus
    }

    /// Switches the machine on: loads RAM and the three ROMs with what was
    /// read from the four files, and resets the processor.
    pub fn power_on(&mut self, ram_image: &[u8], kernal: &[u8], basic: &[u8], chars: &[u8])
        requires
            old(self).wf(),
        ensures
            final(self).wf(),
            final(self)@ == (C64View {
                bus: BusView {
                    ram: overlaid(old(self)@.bus.ram, ram_image@),
                    kernal_rom: overlaid(old(self)@.bus.kernal_rom, kernal@),
                    basic_rom: overlaid(old(self)@.bus.basic_rom, basic@),
                    char_rom: overlaid(old(self)@.bus.char_rom, chars@),
                    cpu: old(self)@.bus.cpu.after_reset(),
                    ..old(self)@.bus
                },
                ..old(self)@
            }),
    {
        self.bus.initialize(ram_image);
        self.bus.load_roms(kernal, basic, chars);
        self.bus.reset();
    }

    /// Takes a line that was typed at the debug console, and says what it
    /// asks for.
    pub fn debug_command(&mut self, line: &str) -> (command: Command)
        ensures
            command == command_of(trimmed(line.spec_bytes())),
            final(self)@ == (C64View {
                bus: BusView { mode: old(self)@.bus.mode.after(command), ..old(self)@.bus },
                ..old(self)@
            }),
    {
        self.bus.debug_command(line)
    }

    /// One tick of the clock of the machine, as `Bus::tick` describes it.
    pub fn tick(&mut self, screen: &mut Screen) -> (result: Result<bool, Fault>)
        requires
            old(self).wf(),
            old(screen).wf(),
        ensures
            final(self).wf(),
            final(screen).wf(),
            final(screen).spec_width() == old(screen).spec_width(),
            final(screen).spec_height() == old(screen).spec_height(),
            final(self)@ == (C64View { bus: final(self)@.bus, ..old(self)@ }),
            match old(self)@.bus.video_fault(old(screen)) {
                Some(fault) => {
                    &&& result == Err::<bool, Fault>(fault)
                    &&& final(self)@.bus == old(self)@.bus
                    &&& final(screen)@ == old(screen)@
                },
                None => {
                    let seen = old(self)@.bus.after_video();
                    &&& final(screen)@ == old(screen)@.update(
                        old(screen).index(seen.vic.beam.xpos as int, seen.vic.beam.raster as int),
                        palette(BEAM_COLOR as int),
                    )
                    &&& if !seen.vic.beam.aec {
                        result is Ok && final(self)@.bus == seen
                    } else {
                        match seen.processor_fault() {
                            Some(fault) => result == Err::<bool, Fault>(fault) && final(self)@.bus
                                == seen,
                            None => result is Ok && final(self)@.bus == seen.after_processor(),
                        }
                    }
                    &&& result matches Ok(ready) ==> ready == (final(self)@.bus.vic.beam.xpos == 0
                        && final(self)@.bus.vic.beam.raster == 0)
                },
            },
    {
        self.bus.tick(screen)
    }
}

} // verus!
