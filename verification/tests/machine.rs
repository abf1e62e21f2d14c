use rust_c64::bus::{Bus, Fault, SystemMode};
use rust_c64::clock::{adjust_idle, sample_due, NTSC_CLK, PAL_CLK};
use rust_c64::console::{parse_command, Command};
use rust_c64::cpu::CpuState;
use rust_c64::io::cia::Cia;
use rust_c64::io::sid::Sid;
use rust_c64::io::vic::{color, Vic};
use rust_c64::machine::C64;
use rust_c64::screen::Screen;

fn started(kernal: &[u8]) -> Bus {
    let mut bus = Bus::new(false);
    bus.load_roms(kernal, &[0xb0, 0xb1], &[0xc0, 0xc1]);
    bus.reset();
    bus
}

#[test]
fn kernal_rom_shadows_ram_until_it_is_switched_off() {
    let mut bus = started(&[0x4c, 0x5d]);
    assert_eq!(bus.read_byte(0xe000), 0x4c);
    assert_eq!(bus.read_byte(0xe001), 0x5d);
    bus.write_byte(0xe000, 0x99);
    assert_eq!(bus.read_byte(0xe000), 0x4c);
    bus.write_byte(0x0000, 0xff);
    bus.write_byte(0x0001, 0x00);
    assert_eq!(bus.read_byte(0xe000), 0x99);
    assert_eq!(bus.read_byte(0xe001), 0x00);
}

#[test]
fn ram_gives_back_what_was_written() {
    let mut bus = started(&[]);
    for addr in [0x0002usize, 0x00ff, 0x0100, 0x9fff, 0xc000, 0xcfff] {
        bus.write_byte(addr, (addr & 0xff) as u8 ^ 0x5a);
        assert_eq!(bus.read_byte(addr), (addr & 0xff) as u8 ^ 0x5a);
    }
}

#[test]
fn ports_are_not_part_of_ram() {
    let mut bus = started(&[]);
    bus.write_byte(0x0000, 0xff);
    assert_eq!(bus.read_byte(0x0000), 0xff);
    bus.write_byte(0x0001, 0x35);
    assert_eq!(bus.read_byte(0x0001), 0x35);
    bus.write_byte(0x0000, 0x07);
    bus.write_byte(0x0001, 0xf6);
    assert_eq!(bus.read_byte(0x0001), 0x06);
    assert!(bus.cpu().krom_enabled());
    assert!(!bus.cpu().brom_enabled());
    assert!(bus.cpu().io_enabled());
}

#[test]
fn rom_regions_by_banking() {
    let mut bus = started(&[0xe0]);
    assert_eq!(bus.read_byte(0xa000), 0xb0);
    assert_eq!(bus.read_byte(0xa001), 0xb1);
    bus.write_byte(0xa000, 0x11);
    bus.write_byte(0xd000, 0x22);
    bus.write_byte(0x0000, 0xff);
    // KERNAL, BASIC and the character ROM.
    bus.write_byte(0x0001, 0x03);
    assert_eq!(bus.read_byte(0xa000), 0xb0);
    assert_eq!(bus.read_byte(0xd000), 0xc0);
    assert_eq!(bus.read_byte(0xd001), 0xc1);
    assert_eq!(bus.read_byte(0xe000), 0xe0);
    // The character ROM alone.
    bus.write_byte(0x0001, 0x01);
    assert_eq!(bus.read_byte(0xa000), 0x11);
    assert_eq!(bus.read_byte(0xd000), 0xc0);
    assert_eq!(bus.read_byte(0xe000), 0x00);
    // Nothing but RAM.
    bus.write_byte(0x0001, 0x04);
    assert_eq!(bus.read_byte(0xd000), 0x22);
}

#[test]
fn io_write_reaches_the_chip_and_ram() {
    let mut bus = started(&[]);
    // The border colour of the video chip keeps four bits.
    bus.write_byte(0xd020, 0x05);
    assert_eq!(bus.read_byte(0xd020), 0xf5);
    // The registers of the video chip repeat every 64 bytes.
    assert_eq!(bus.read_byte(0xd060), 0xf5);
    // Control register 1 has two bits without flip-flop.
    bus.write_byte(0xd011, 0x1b);
    assert_eq!(bus.read_byte(0xd011), 0xdb);
    // The colour memory keeps four bits.
    bus.write_byte(0xd800, 0xab);
    assert_eq!(bus.read_byte(0xd800), 0x0b);
    bus.write_byte(0xdbff, 0x17);
    assert_eq!(bus.read_byte(0xdbff), 0x07);
    // The set-up of the SID cannot be read.
    bus.write_byte(0xd418, 0x0f);
    assert_eq!(bus.read_byte(0xd418), 0x00);
    // The two CIAs, repeating every 16 bytes.
    bus.write_byte(0xdc02, 0x7e);
    assert_eq!(bus.read_byte(0xdc02), 0x7e);
    assert_eq!(bus.read_byte(0xdc12), 0x7e);
    assert_eq!(bus.read_byte(0xdd02), 0x00);
    bus.write_byte(0xdd00, 0x03);
    assert_eq!(bus.read_byte(0xddf0), 0x03);
    // The interrupt mask cannot be read back.
    bus.write_byte(0xdc0d, 0x81);
    assert_eq!(bus.read_byte(0xdc0d), 0x00);
    // With the I/O region switched off every byte is found in RAM.
    bus.write_byte(0x0000, 0xff);
    bus.write_byte(0x0001, 0x00);
    assert_eq!(bus.read_byte(0xd020), 0x05);
    assert_eq!(bus.read_byte(0xd011), 0x1b);
    assert_eq!(bus.read_byte(0xd800), 0xab);
    assert_eq!(bus.read_byte(0xd418), 0x0f);
    assert_eq!(bus.read_byte(0xdc02), 0x7e);
    assert_eq!(bus.read_byte(0xdc0d), 0x81);
}

#[test]
fn writes_with_io_switched_off_do_not_reach_the_chips() {
    let mut bus = started(&[]);
    bus.write_byte(0x0000, 0xff);
    bus.write_byte(0x0001, 0x00);
    bus.write_byte(0xd020, 0x05);
    assert_eq!(bus.read_byte(0xd020), 0x05);
    bus.write_byte(0x0001, 0x05);
    assert_eq!(bus.read_byte(0xd020), 0x00);
}

#[test]
fn nothing_answers_above_the_second_cia() {
    let mut bus = started(&[]);
    assert!(bus.is_mapped(0xddff));
    assert!(!bus.is_mapped(0xde00));
    assert!(!bus.is_mapped(0xdfff));
    assert!(bus.is_mapped(0xe000));
    bus.write_byte(0x0000, 0xff);
    bus.write_byte(0x0001, 0x00);
    assert!(bus.is_mapped(0xde00));
    bus.write_byte(0xde00, 0x12);
    assert_eq!(bus.read_byte(0xde00), 0x12);
}

#[test]
fn ram_image_is_loaded_from_address_zero() {
    let mut bus = Bus::new(false);
    bus.write_byte(0x0004, 0x77);
    bus.initialize(&[0x00, 0x00, 0x12, 0x34]);
    assert_eq!(bus.read_byte(0x0002), 0x12);
    assert_eq!(bus.read_byte(0x0003), 0x34);
    assert_eq!(bus.read_byte(0x0004), 0x77);
    let long = vec![0x5au8; 70000];
    bus.initialize(&long);
    assert_eq!(bus.read_byte(0xcfff), 0x5a);
}

#[test]
fn video_address_takes_its_bank_from_the_second_cia() {
    let mut bus = started(&[]);
    assert_eq!(bus.convert_vic_ii_addr(0x3fff), 0xffff);
    assert_eq!(bus.convert_vic_ii_addr(0x7fff), 0xffff);
    bus.write_byte(0xdd00, 0x03);
    assert_eq!(bus.convert_vic_ii_addr(0x1234), 0x1234);
    bus.write_byte(0xdd00, 0xfe);
    assert_eq!(bus.convert_vic_ii_addr(0x0400), 0x4400);
}

#[test]
fn tick_runs_the_video_chip_and_the_processor() {
    // LDA #$42 at the reset address, in RAM: the KERNAL is switched off first.
    let mut bus = Bus::new(false);
    let mut image = vec![0u8; 0x10000];
    image[0xfce2] = 0xa9;
    image[0xfce3] = 0x42;
    image[0xfce4] = 0xea;
    bus.initialize(&image);
    bus.reset();
    bus.write_byte(0x0000, 0xff);
    bus.write_byte(0x0001, 0x00);
    // The video chip reads from its first bank.
    bus.write_byte(0xdd00, 0x03);
    let mut screen = Screen::new(320, 240);
    assert_eq!(bus.tick(&mut screen), Ok(false));
    assert_eq!(bus.cpu().state, CpuState::Address);
    assert_eq!(bus.tick(&mut screen), Ok(false));
    assert_eq!(bus.cpu().state, CpuState::Fetch);
    assert_eq!(bus.cpu().a, 0x42);
    assert_eq!(bus.cpu().cycles, 2);
    // The beam has drawn two blue pixels on the first line.
    let data = screen.pixel_data();
    assert_eq!(&data[0..3], &[0, 0, 0]);
    assert_eq!(&data[3..6], &[0x35, 0x28, 0x79]);
    assert_eq!(&data[6..9], &[0x35, 0x28, 0x79]);
    assert_eq!(&data[9..12], &[0, 0, 0]);
}

#[test]
fn tick_reports_a_frame_when_the_beam_is_back() {
    let mut bus = Bus::new(false);
    // JMP $FCE2 at the reset address keeps the processor busy.
    let mut image = vec![0u8; 0x10000];
    image[0xfce2] = 0x4c;
    image[0xfce3] = 0xe2;
    image[0xfce4] = 0xfc;
    bus.initialize(&image);
    bus.reset();
    bus.write_byte(0x0000, 0xff);
    bus.write_byte(0x0001, 0x00);
    let mut screen = Screen::new(320, 240);
    let mut ticks = 0u32;
    loop {
        ticks += 1;
        if bus.tick(&mut screen) == Ok(true) {
            break;
        }
        assert!(ticks < 10000);
    }
    // 101 lines of 63 cycles.
    assert_eq!(ticks, 101 * 63);
    assert!(bus.frame_ready());
}

#[test]
fn tick_stops_at_a_jammed_processor() {
    let mut bus = Bus::new(false);
    let mut image = vec![0u8; 0x10000];
    image[0xfce2] = 0x02;
    bus.initialize(&image);
    bus.reset();
    bus.write_byte(0x0000, 0xff);
    bus.write_byte(0x0001, 0x00);
    let mut screen = Screen::new(320, 240);
    assert_eq!(bus.tick(&mut screen), Ok(false));
    assert_eq!(bus.tick(&mut screen), Ok(false));
    assert_eq!(bus.cpu().state, CpuState::Halt);
    assert_eq!(bus.tick(&mut screen), Err(Fault::Halted));
    assert_eq!(bus.processor_fault(), Some(Fault::Halted));
}

#[test]
fn tick_stops_at_an_unknown_operation() {
    let mut bus = Bus::new(false);
    let mut image = vec![0u8; 0x10000];
    image[0xfce2] = 0x03;
    bus.initialize(&image);
    bus.reset();
    bus.write_byte(0x0000, 0xff);
    bus.write_byte(0x0001, 0x00);
    let mut screen = Screen::new(320, 240);
    assert_eq!(
        bus.tick(&mut screen),
        Err(Fault::UnknownOpcode { code: 0x03, pc: 0xfce2 })
    );
    assert_eq!(bus.cpu().cycles, 0);
}

#[test]
fn tick_stops_at_an_unmapped_address() {
    // LDA $DE00 with the I/O region visible.
    let mut bus = Bus::new(false);
    let mut image = vec![0u8; 0x10000];
    image[0x1000] = 0xad;
    image[0x1001] = 0x00;
    image[0x1002] = 0xde;
    // JMP $1000 at the reset address.
    image[0xfce2] = 0x4c;
    image[0xfce3] = 0x00;
    image[0xfce4] = 0x10;
    bus.initialize(&image);
    bus.reset();
    bus.write_byte(0x0000, 0xff);
    bus.write_byte(0x0001, 0x05);
    bus.write_byte(0xdd00, 0x03);
    let mut screen = Screen::new(320, 240);
    for _ in 0..6 {
        assert_eq!(bus.tick(&mut screen), Ok(false));
    }
    assert_eq!(bus.tick(&mut screen), Err(Fault::UnmappedIo { addr: 0xde00 }));
}

#[test]
fn tick_stops_when_the_beam_leaves_the_screen() {
    let mut bus = started(&[]);
    bus.write_byte(0x0000, 0xff);
    bus.write_byte(0x0001, 0x00);
    let mut screen = Screen::new(4, 1);
    assert_eq!(bus.tick(&mut screen), Ok(false));
    assert_eq!(bus.tick(&mut screen), Ok(false));
    assert_eq!(bus.tick(&mut screen), Ok(false));
    assert_eq!(bus.tick(&mut screen), Err(Fault::BeamOffScreen));
}

#[test]
fn debug_flag_selects_the_mode() {
    assert_eq!(Bus::new(false).mode(), SystemMode::Run);
    assert_eq!(Bus::new(true).mode(), SystemMode::DebugStep);
}

#[test]
fn sid_registers() {
    let mut sid = Sid::new();
    sid.write_register(0xd400, 0x12);
    sid.write_register(0xd418, 0x0f);
    sid.write_register(0xd419, 0x55);
    for addr in 0xd400..=0xd41f {
        assert_eq!(sid.read_register(addr), 0);
    }
    assert_eq!(sid.translate_addr(0xd7ff), 0x1f);
    assert_eq!(sid.translate_addr(0xd420), 0);
}

#[test]
fn cia_registers() {
    let mut cia = Cia::new(0xdc00);
    for reg in 0..16usize {
        cia.write_register(0xdc00 + reg, 0x10 + reg as u8);
    }
    for reg in 0..16usize {
        let expected = if reg == 13 { 0 } else { 0x10 + reg as u8 };
        assert_eq!(cia.read_register(0xdcf0 + reg), expected);
    }
    assert_eq!(cia.translate_addr(0xdcff), 15);
}

#[test]
fn vic_registers() {
    let mut vic = Vic::new();
    assert_eq!(vic.read_register(0xd011), 0x1b);
    assert_eq!(vic.read_register(0xd016), 0xc8);
    assert_eq!(vic.read_register(0xd02f), 0xff);
    assert_eq!(vic.read_register(0xd03f), 0xff);
    vic.write_register(0xd000, 0x80);
    assert_eq!(vic.read_register(0xd000), 0x80);
    assert_eq!(vic.read_register(0xd3c0), 0x80);
    vic.write_register(0xd018, 0x14);
    assert_eq!(vic.read_register(0xd018), 0x15);
    vic.write_register(0xd019, 0x01);
    assert_eq!(vic.read_register(0xd019), 0x71);
    vic.write_register(0xd01a, 0x00);
    assert_eq!(vic.read_register(0xd01a), 0x70);
    vic.write_register(0xd02e, 0x00);
    assert_eq!(vic.read_register(0xd02e), 0xf0);
    vic.write_register(0xd02f, 0x12);
    assert_eq!(vic.read_register(0xd02f), 0xff);
    // A write to the raster register sets the line to interrupt on.
    vic.write_register(0xd012, 0x30);
    assert_eq!(vic.read_register(0xd012), 0x00);
    assert_eq!(vic.translate_addr(0xd3ff), 0x3f);
}

#[test]
fn vic_pins_and_buses() {
    let mut vic = Vic::new();
    assert!(vic.irq() && vic.rdy() && vic.aec());
    assert!(vic.frame_ready());
    assert_eq!(vic.read_addr_bus(), 0x3fff);
    vic.data_in(0xab);
    vic.color_in(0xf7);
    assert_eq!(vic.read_data_bus(), 0xab);
    assert_eq!(vic.read_color_nybble(), 0x07);
    vic.data_in(0x01);
    assert_eq!(vic.read_color_nybble(), 0x07);
    vic.write_register(0xd018, 0x14);
    assert_eq!(vic.matrix_addr(), 0x0400);
    assert_eq!(vic.char_addr(0x01), 0x1008);
}

#[test]
fn vic_beam_walks_over_the_screen() {
    let mut vic = Vic::new();
    let mut screen = Screen::new(320, 240);
    vic.write_register(0xd018, 0x14);
    assert!(vic.draws_inside(&screen));
    vic.rising_edge(&mut screen);
    assert!(vic.aec());
    assert!(!vic.frame_ready());
    assert_eq!(vic.read_addr_bus(), 0x3fff);
    vic.rising_edge(&mut screen);
    assert_eq!(vic.read_addr_bus(), 0x0400);
    vic.rising_edge(&mut screen);
    assert_eq!(vic.read_addr_bus(), 0x0401);
    vic.falling_edge(&mut screen);
    assert_eq!(vic.read_addr_bus(), 0x0401);
    for _ in 3..63 {
        vic.rising_edge(&mut screen);
    }
    assert_eq!(vic.read_register(0xd012), 1);
    let data = screen.pixel_data();
    // The first pixel of the second line.
    assert_eq!(&data[320 * 3..320 * 3 + 3], &[0x35, 0x28, 0x79]);
}

#[test]
fn vic_asks_for_an_interrupt_on_its_line() {
    let mut vic = Vic::new();
    let mut screen = Screen::new(320, 240);
    vic.write_register(0xd012, 0x01);
    for _ in 0..62 {
        vic.rising_edge(&mut screen);
        assert!(vic.irq());
    }
    vic.rising_edge(&mut screen);
    assert!(!vic.irq());
    for _ in 0..62 {
        vic.rising_edge(&mut screen);
        assert!(!vic.irq());
    }
    vic.rising_edge(&mut screen);
    assert!(vic.irq());
}

#[test]
fn palette_colors() {
    assert_eq!(color(0), (0x00, 0x00, 0x00));
    assert_eq!(color(1), (0xff, 0xff, 0xff));
    assert_eq!(color(6), (0x35, 0x28, 0x79));
    assert_eq!(color(15), (0x95, 0x95, 0x95));
    assert_eq!(color(0x16), (0x35, 0x28, 0x79));
}

#[test]
fn screen_pixels() {
    let mut screen = Screen::new(3, 2);
    assert_eq!(screen.width(), 3);
    assert_eq!(screen.height(), 2);
    assert_eq!(screen.pixel_data(), vec![0u8; 18]);
    assert!(screen.contains(2, 1));
    assert!(!screen.contains(0, 2));
    // A column beyond the row runs on into the next row.
    assert!(screen.contains(3, 0));
    assert!(!screen.contains(3, 1));
    screen.set_pixel_at(1, 1, (1, 2, 3));
    screen.set_pixel_at(0, 0, (9, 8, 7));
    let data = screen.pixel_data();
    assert_eq!(data, vec![9, 8, 7, 0, 0, 0, 0, 0, 0, 0, 0, 0, 1, 2, 3, 0, 0, 0]);
    let empty = Screen::new(0, 5);
    assert!(!empty.contains(0, 0));
    assert_eq!(empty.pixel_data().len(), 0);
}

#[test]
fn idle_time_follows_the_pace() {
    // 10000 ticks in 10 ms are a megahertz: too fast for PAL.
    assert_eq!(adjust_idle(0, 10000, 10, PAL_CLK), 100);
    assert_eq!(adjust_idle(300, 10000, 10, PAL_CLK), 400);
    // 10000 ticks in 11 ms are slower than PAL.
    assert_eq!(adjust_idle(300, 10000, 11, PAL_CLK), 200);
    assert_eq!(adjust_idle(0, 10000, 11, PAL_CLK), 0);
    assert_eq!(adjust_idle(50, 10000, 11, PAL_CLK), 0);
    // NTSC allows a little more than a megahertz.
    assert_eq!(adjust_idle(300, 10000, 10, NTSC_CLK), 200);
    assert_eq!(adjust_idle(300, 10228, 10, NTSC_CLK), 400);
    assert_eq!(adjust_idle(u64::MAX, 10000, 0, PAL_CLK), u64::MAX);
    assert!(sample_due(20000));
    assert!(!sample_due(20001));
}

#[test]
fn machine_set_up() {
    let mut c = C64::new_pal(false);
    assert_eq!(c.clock(), 985248444);
    assert_eq!(C64::new_ntsc(true).clock(), 1022727714);
    assert_eq!(C64::new(false).clock(), 0);
    assert_eq!(C64::new_ntsc(true).bus().mode(), SystemMode::DebugStep);
    c.set_ram_image_file("ram.bin");
    c.set_kernal_rom("kernal");
    c.set_basic_rom("basic");
    c.set_char_rom("chargen");
    assert_eq!(c.ram_image_file(), "ram.bin");
    assert_eq!(c.kernal_rom(), "kernal");
    assert_eq!(c.basic_rom(), "basic");
    assert_eq!(c.char_rom(), "chargen");
    c.power_on(&[0, 0, 7], &[0x11], &[0x22], &[0x33]);
    assert_eq!(c.bus().cpu().state, CpuState::Fetch);
    assert_eq!(c.bus().cpu().pc, 0xfce2);
    assert_eq!(c.bus().read_byte(0x0002), 7);
    assert_eq!(c.bus().read_byte(0xe000), 0x11);
    assert_eq!(c.bus().read_byte(0xa000), 0x22);
    let mut screen = Screen::new(320, 240);
    assert_eq!(c.tick(&mut screen).is_ok(), true);
}

#[test]
fn console_commands() {
    assert_eq!(parse_command("r"), Command::Run);
    assert_eq!(parse_command("run\n"), Command::Run);
    assert_eq!(parse_command("  run \r\n"), Command::Run);
    assert_eq!(parse_command("h"), Command::Help);
    assert_eq!(parse_command("\thelp\n"), Command::Help);
    assert_eq!(parse_command(""), Command::Step);
    assert_eq!(parse_command("\n"), Command::Step);
    assert_eq!(parse_command("   \t "), Command::Step);
    assert_eq!(parse_command("ru"), Command::Invalid);
    assert_eq!(parse_command("runs"), Command::Invalid);
    assert_eq!(parse_command("r un"), Command::Invalid);
    assert_eq!(parse_command("R"), Command::Invalid);
    assert_eq!(parse_command("help me"), Command::Invalid);
}

#[test]
fn run_command_ends_the_stepping() {
    let mut bus = Bus::new(true);
    assert_eq!(bus.debug_command("\n"), Command::Step);
    assert_eq!(bus.mode(), SystemMode::DebugStep);
    assert_eq!(bus.debug_command("what\n"), Command::Invalid);
    assert_eq!(bus.debug_command("h\n"), Command::Help);
    assert_eq!(bus.mode(), SystemMode::DebugStep);
    assert_eq!(bus.debug_command("run\n"), Command::Run);
    assert_eq!(bus.mode(), SystemMode::DebugRun);
    let mut free = Bus::new(false);
    assert_eq!(free.debug_command("r"), Command::Run);
    assert_eq!(free.mode(), SystemMode::Run);
    let mut c = C64::new_pal(true);
    assert_eq!(c.debug_command("r"), Command::Run);
    assert_eq!(c.bus().mode(), SystemMode::DebugRun);
}
