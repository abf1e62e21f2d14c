use rust_c64::cpu::{Cpu, CpuState, RESET_VECTOR_ADDR};

// Runs a program from the reset address on a processor with nothing but RAM
// on its bus, until the processor is about to fetch outside the program.
fn run_program(program: &[u8], cpu: &mut Cpu) {
    let mut ram: Vec<u8> = vec![0u8; 65536];
    if program[0] == 0 {
        ram = vec![80u8; 65536];
    }

    // Write the program to the reset location
    for addr in 0..program.len() {
        ram[RESET_VECTOR_ADDR as usize + addr] = program[addr];
    }

    cpu.reset();

    loop {
        let addr = cpu.addr_bus as usize;

        if (cpu.pc < RESET_VECTOR_ADDR || cpu.pc >= RESET_VECTOR_ADDR + program.len() as u16)
            && cpu.state == CpuState::Fetch
        {
            break;
        }

        if cpu.rw {
            cpu.data_in(ram[addr]);
        } else {
            ram[addr] = cpu.data_out();
        }
        cpu.cycle();

        if cpu.cycles > 20 {
            break;
        }
    }
}

#[test]
fn brk_test_cycles() {
    let mut cpu = Cpu::new();

    let program = [0x00];
    run_program(&program[..], &mut cpu);

    assert_eq!(7, cpu.cycles);
}

#[test]
fn pha_test_cycles() {
    let mut cpu = Cpu::new();

    let program = [0x48];
    run_program(&program[..], &mut cpu);

    assert_eq!(3, cpu.cycles);
}

#[test]
fn php_test_cycles() {
    let mut cpu = Cpu::new();

    let program = [0x08];
    run_program(&program[..], &mut cpu);

    assert_eq!(3, cpu.cycles);
}

#[test]
fn pla_test_cycles() {
    let mut cpu = Cpu::new();

    let program = [0x68];
    run_program(&program[..], &mut cpu);

    assert_eq!(4, cpu.cycles);
}

#[test]
fn plp_test_cycles() {
    let mut cpu = Cpu::new();

    let program = [0x28];
    run_program(&program[..], &mut cpu);

    assert_eq!(4, cpu.cycles);
}

#[test]
fn rti_test_cycles() {
    let mut cpu = Cpu::new();

    let program = [0x40];
    run_program(&program[..], &mut cpu);

    assert_eq!(6, cpu.cycles);
}

#[test]
fn sta_zp_test_cycles() {
    let mut cpu = Cpu::new();

    let program = [0x85, 0x00];
    run_program(&program[..], &mut cpu);

    assert_eq!(3, cpu.cycles);
}

#[test]
fn sta_zpx_test_cycles() {
    let mut cpu = Cpu::new();

    let program = [0x95, 0x00];
    run_program(&program[..], &mut cpu);

    assert_eq!(4, cpu.cycles);
}

#[test]
fn sta_abs_test_cycles() {
    let mut cpu = Cpu::new();

    let program = [0x8d, 0x00, 0x0f];
    run_program(&program[..], &mut cpu);

    assert_eq!(4, cpu.cycles);
}

#[test]
fn sta_absx_test_cycles() {
    let mut cpu = Cpu::new();

    let program = [0x9d, 0x00, 0x0f];
    run_program(&program[..], &mut cpu);

    assert_eq!(5, cpu.cycles);
}

#[test]
fn sta_absy_test_cycles() {
    let mut cpu = Cpu::new();

    let program = [0x99, 0x00, 0x0f];
    run_program(&program[..], &mut cpu);

    assert_eq!(5, cpu.cycles);
}

#[test]
fn sta_indx_test_cycles() {
    let mut cpu = Cpu::new();

    let program = [0x81, 0x00];
    run_program(&program[..], &mut cpu);

    assert_eq!(6, cpu.cycles);
}

#[test]
fn sta_indy_test_cycles() {
    let mut cpu = Cpu::new();

    let program = [0x91, 0x00];
    run_program(&program[..], &mut cpu);

    assert_eq!(6, cpu.cycles);
}

#[test]
fn stx_zp_test_cycles() {
    let mut cpu = Cpu::new();

    let program = [0x86, 0x00];
    run_program(&program[..], &mut cpu);

    assert_eq!(3, cpu.cycles);
}

#[test]
fn stx_zpy_test_cycles() {
    let mut cpu = Cpu::new();

    let program = [0x96, 0x00];
    run_program(&program[..], &mut cpu);

    assert_eq!(4, cpu.cycles);
}

#[test]
fn stx_abs_test_cycles() {
    let mut cpu = Cpu::new();

    let program = [0x8e, 0x00, 0x0f];
    run_program(&program[..], &mut cpu);

    assert_eq!(4, cpu.cycles);
}

#[test]
fn sty_zp_test_cycles() {
    let mut cpu = Cpu::new();

    let program = [0x84, 0x00];
    run_program(&program[..], &mut cpu);

    assert_eq!(3, cpu.cycles);
}

#[test]
fn sty_zpx_test_cycles() {
    let mut cpu = Cpu::new();

    let program = [0x94, 0x00];
    run_program(&program[..], &mut cpu);

    assert_eq!(4, cpu.cycles);
}

#[test]
fn sty_abs_test_cycles() {
    let mut cpu = Cpu::new();

    let program = [0x8c, 0x00];
    run_program(&program[..], &mut cpu);

    assert_eq!(4, cpu.cycles);
}
