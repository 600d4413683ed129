use rustboy::z80::{
    Z80Error, Z80Instruction, Z80RegisterName, Z80RegisterPair, Z80Registers, Z80State, Z80,
};

fn zeroed() -> Z80Registers {
    Z80Registers { a: 0, b: 0, c: 0, d: 0, e: 0, h: 0, l: 0, f: 0, pc: 0, sp: 0, i: 0, r: 0 }
}

fn run(cpu: &mut Z80, program: &[Z80Instruction]) {
    for i in program {
        assert_eq!(cpu.exec(*i), Ok(()));
    }
}

#[test]
fn test_ld_r_n() {
    // one CPU runs all six loads: the register holds the value, and each
    // load costs 2 machine cycles and 8 ticks
    let mut cpu = Z80::new();
    let loads = [
        Z80RegisterName::B,
        Z80RegisterName::C,
        Z80RegisterName::D,
        Z80RegisterName::E,
        Z80RegisterName::H,
        Z80RegisterName::L,
    ];
    for r in loads {
        let before = cpu.dump();
        assert_eq!(cpu.exec(Z80Instruction::LDrn(r, 42)), Ok(()));
        assert_eq!(cpu.regs().get(r), Ok(42));
        assert_eq!(cpu.state().machine_cycles - before.machine_cycles, 2);
        assert_eq!(cpu.state().time_cycles - before.time_cycles, 8);
    }
    assert_eq!(cpu.regs().b, 42);
    assert_eq!(cpu.regs().c, 42);
    assert_eq!(cpu.regs().d, 42);
    assert_eq!(cpu.regs().e, 42);
    assert_eq!(cpu.regs().h, 42);
    assert_eq!(cpu.regs().l, 42);

    // each load on a CPU of its own
    let mut cpu = Z80::new();
    cpu.exec(Z80Instruction::LDrn(Z80RegisterName::B, 42)).unwrap();
    assert_eq!(cpu.regs().b, 42);
    assert_eq!(cpu.state().machine_cycles, 2);
    assert_eq!(cpu.state().time_cycles, 8);
    let mut cpu = Z80::new();
    cpu.exec(Z80Instruction::LDrn(Z80RegisterName::C, 42)).unwrap();
    assert_eq!(cpu.regs().c, 42);
    assert_eq!(cpu.state().machine_cycles, 2);
    assert_eq!(cpu.state().time_cycles, 8);
    let mut cpu = Z80::new();
    cpu.exec(Z80Instruction::LDrn(Z80RegisterName::D, 42)).unwrap();
    assert_eq!(cpu.regs().d, 42);
    assert_eq!(cpu.state().machine_cycles, 2);
    assert_eq!(cpu.state().time_cycles, 8);
    let mut cpu = Z80::new();
    cpu.exec(Z80Instruction::LDrn(Z80RegisterName::E, 42)).unwrap();
    assert_eq!(cpu.regs().e, 42);
    assert_eq!(cpu.state().machine_cycles, 2);
    assert_eq!(cpu.state().time_cycles, 8);
    let mut cpu = Z80::new();
    cpu.exec(Z80Instruction::LDrn(Z80RegisterName::H, 42)).unwrap();
    assert_eq!(cpu.regs().h, 42);
    assert_eq!(cpu.state().machine_cycles, 2);
    assert_eq!(cpu.state().time_cycles, 8);
    let mut cpu = Z80::new();
    cpu.exec(Z80Instruction::LDrn(Z80RegisterName::L, 42)).unwrap();
    assert_eq!(cpu.regs().l, 42);
    assert_eq!(cpu.state().machine_cycles, 2);
    assert_eq!(cpu.state().time_cycles, 8);
}

#[test]
fn new_cpu_is_all_zero() {
    let cpu = Z80::new();
    assert_eq!(*cpu.regs(), zeroed());
    assert_eq!(*cpu.state(), Z80State { machine_cycles: 0, time_cycles: 0, registers: zeroed() });
    assert_eq!(cpu.dump(), *cpu.state());
    assert_eq!(cpu.mmu().read_byte(0), Ok(0));
    assert_eq!(cpu.mmu().read_byte(8191), Ok(0));
}

#[test]
fn load_immediate_into_b_on_a_new_cpu() {
    let mut cpu = Z80::new();
    assert_eq!(cpu.exec(Z80Instruction::LDrn(Z80RegisterName::B, 42)), Ok(()));
    let snapshot = cpu.dump();
    assert_eq!(snapshot.registers.b, 42);
    assert_eq!(snapshot.machine_cycles, 2);
    assert_eq!(snapshot.time_cycles, 8);
}

#[test]
fn store_a_through_hl_and_increment() {
    let mut cpu = Z80::new();
    assert_eq!(cpu.exec(Z80Instruction::LDrrnn(Z80RegisterPair::HL, 0x1234)), Ok(()));
    assert_eq!(cpu.exec(Z80Instruction::LDrn(Z80RegisterName::A, 0x99)), Ok(()));
    assert_eq!(cpu.exec(Z80Instruction::LDHLIA), Ok(()));
    assert_eq!(cpu.mmu().read_byte(0x1234), Ok(0x99));
    assert_eq!(cpu.regs().get_pair(Z80RegisterPair::HL), 0x1235);
    assert_eq!(cpu.state().machine_cycles, 3 + 2 + 2);
    assert_eq!(cpu.state().time_cycles, 12 + 8 + 8);
}

#[test]
fn add_immediate_without_overflow() {
    let mut cpu = Z80::new();
    run(&mut cpu, &[Z80Instruction::LDrn(Z80RegisterName::A, 0x0F)]);
    assert_eq!(cpu.exec(Z80Instruction::ADDn(0x01)), Ok(()));
    assert_eq!(cpu.regs().a, 0x10);
    assert!(!cpu.regs().zero());
    assert!(!cpu.regs().carry());
}

#[test]
fn add_immediate_with_overflow() {
    let mut cpu = Z80::new();
    run(&mut cpu, &[Z80Instruction::LDrn(Z80RegisterName::A, 0xFF)]);
    assert_eq!(cpu.exec(Z80Instruction::ADDn(0x01)), Ok(()));
    assert_eq!(cpu.regs().a, 0x00);
    assert!(cpu.regs().zero());
    assert!(cpu.regs().carry());
}

#[test]
fn unsupported_instruction_changes_nothing() {
    let reserved = [
        Z80Instruction::EXDEHL,
        Z80Instruction::EXAFAF,
        Z80Instruction::EXX,
        Z80Instruction::EXSPmHL,
        Z80Instruction::LDI,
        Z80Instruction::LDIR,
        Z80Instruction::LDD,
        Z80Instruction::LDDR,
        Z80Instruction::CPI,
        Z80Instruction::CPIR,
        Z80Instruction::CPD,
        Z80Instruction::CPDR,
    ];
    let mut cpu = Z80::new();
    run(
        &mut cpu,
        &[
            Z80Instruction::LDrrnn(Z80RegisterPair::HL, 0x0040),
            Z80Instruction::LDrrnn(Z80RegisterPair::DE, 0x0080),
            Z80Instruction::LDHLmn(0x77),
        ],
    );
    let before = cpu.dump();
    for i in reserved {
        assert_eq!(cpu.exec(i), Err(Z80Error::UnsupportedInstruction));
        assert_eq!(cpu.dump(), before);
        assert_eq!(cpu.mmu().read_byte(0x0040), Ok(0x77));
        assert_eq!(cpu.mmu().read_byte(0x0080), Ok(0));
    }
}

#[test]
fn invalid_operand_changes_nothing() {
    let wide = [Z80RegisterName::SP, Z80RegisterName::PC];
    let mut cpu = Z80::new();
    run(&mut cpu, &[Z80Instruction::LDrn(Z80RegisterName::A, 9)]);
    let before = cpu.dump();
    for r in wide {
        let refused = [
            Z80Instruction::LDrn(r, 1),
            Z80Instruction::LDrr(r, Z80RegisterName::A),
            Z80Instruction::LDrr(Z80RegisterName::A, r),
            Z80Instruction::LDrHLm(r),
            Z80Instruction::LDHLmr(r),
            Z80Instruction::SWAP(r),
            Z80Instruction::ADDr(r),
            Z80Instruction::ADCr(r),
            Z80Instruction::SUBr(r),
            Z80Instruction::SBCr(r),
        ];
        for i in refused {
            assert_eq!(cpu.exec(i), Err(Z80Error::InvalidOperand));
            assert_eq!(cpu.dump(), before);
        }
    }
    assert_eq!(cpu.exec(Z80Instruction::PUSH(Z80RegisterPair::SP_)), Err(Z80Error::InvalidOperand));
    assert_eq!(cpu.exec(Z80Instruction::POP(Z80RegisterPair::SP_)), Err(Z80Error::InvalidOperand));
    assert_eq!(cpu.dump(), before);
    assert_eq!(cpu.mmu().read_byte(0), Ok(0));
}

#[test]
fn invalid_operand_is_reported_before_the_address() {
    let mut cpu = Z80::new();
    run(&mut cpu, &[Z80Instruction::LDrrnn(Z80RegisterPair::HL, 0x9000)]);
    assert_eq!(cpu.exec(Z80Instruction::LDrHLm(Z80RegisterName::SP)), Err(Z80Error::InvalidOperand));
    assert_eq!(
        cpu.exec(Z80Instruction::LDrHLm(Z80RegisterName::B)),
        Err(Z80Error::OutOfRangeAddress)
    );
}

#[test]
fn out_of_range_address_changes_nothing() {
    let mut cpu = Z80::new();
    run(
        &mut cpu,
        &[
            Z80Instruction::LDrrnn(Z80RegisterPair::HL, 0x2000),
            Z80Instruction::LDrrnn(Z80RegisterPair::BC, 0xFFFF),
            Z80Instruction::LDrn(Z80RegisterName::A, 0x42),
        ],
    );
    let before = cpu.dump();
    let refused = [
        Z80Instruction::LDrHLm(Z80RegisterName::B),
        Z80Instruction::LDHLmr(Z80RegisterName::B),
        Z80Instruction::LDHLmn(1),
        Z80Instruction::LDrrmA(Z80RegisterPair::BC),
        Z80Instruction::LDrrmA(Z80RegisterPair::HL),
        Z80Instruction::LDArrm(Z80RegisterPair::BC),
        Z80Instruction::LDmmA(0x2000),
        Z80Instruction::LDAmm(0x2000),
        Z80Instruction::LDHLmm(0x1FFF),
        Z80Instruction::LDmmHL(0x1FFF),
        Z80Instruction::LDHLmm(0xFFFF),
        Z80Instruction::LDmmHL(0xFFFF),
        Z80Instruction::LDHLIA,
        Z80Instruction::LDAHLI,
        Z80Instruction::LDHLDA,
        Z80Instruction::LDAHLD,
        Z80Instruction::ADDmHL,
        Z80Instruction::ADCmHL,
        Z80Instruction::SUBmHL,
        Z80Instruction::SBCmHL,
        // the stack pointer is 0: a push would wrap round to the top
        Z80Instruction::PUSH(Z80RegisterPair::BC),
    ];
    for i in refused {
        assert_eq!(cpu.exec(i), Err(Z80Error::OutOfRangeAddress));
        assert_eq!(cpu.dump(), before);
    }
    assert_eq!(cpu.mmu().read_byte(0x1FFF), Ok(0));
}

#[test]
fn io_ports_lie_outside_the_ram() {
    let mut cpu = Z80::new();
    run(&mut cpu, &[Z80Instruction::LDrn(Z80RegisterName::C, 0x10)]);
    let before = cpu.dump();
    let refused = [
        Z80Instruction::LDAIOn(0),
        Z80Instruction::LDAIOn(0xFF),
        Z80Instruction::LDIOnA(0),
        Z80Instruction::LDIOnA(0xFF),
        Z80Instruction::LDAIOC,
        Z80Instruction::LDIOCA,
    ];
    for i in refused {
        assert_eq!(cpu.exec(i), Err(Z80Error::OutOfRangeAddress));
        assert_eq!(cpu.dump(), before);
    }
}

#[test]
fn pop_at_the_top_of_the_ram_is_refused() {
    let mut cpu = Z80::new();
    run(&mut cpu, &[Z80Instruction::LDrrnn(Z80RegisterPair::SP_, 8191)]);
    let before = cpu.dump();
    assert_eq!(cpu.exec(Z80Instruction::POP(Z80RegisterPair::BC)), Err(Z80Error::OutOfRangeAddress));
    assert_eq!(cpu.dump(), before);
    // a push whose second byte would fall outside writes neither byte
    let mut cpu = Z80::new();
    run(
        &mut cpu,
        &[
            Z80Instruction::LDrrnn(Z80RegisterPair::SP_, 1),
            Z80Instruction::LDrrnn(Z80RegisterPair::BC, 0xABCD),
        ],
    );
    let before = cpu.dump();
    assert_eq!(
        cpu.exec(Z80Instruction::PUSH(Z80RegisterPair::BC)),
        Err(Z80Error::OutOfRangeAddress)
    );
    assert_eq!(cpu.dump(), before);
    assert_eq!(cpu.mmu().read_byte(0), Ok(0));
}

#[test]
fn dump_is_a_copy() {
    let mut cpu = Z80::new();
    run(&mut cpu, &[Z80Instruction::LDrn(Z80RegisterName::B, 7)]);
    let mut snapshot = cpu.dump();
    snapshot.registers.b = 99;
    snapshot.machine_cycles = 1000;
    snapshot.tick(1, 4);
    assert_eq!(cpu.regs().b, 7);
    assert_eq!(cpu.state().machine_cycles, 2);
    assert_eq!(cpu.state().time_cycles, 8);
    let earlier = cpu.dump();
    run(&mut cpu, &[Z80Instruction::LDrn(Z80RegisterName::B, 8)]);
    assert_eq!(earlier.registers.b, 7);
    assert_eq!(earlier.machine_cycles, 2);
}

#[test]
fn tick_advances_both_counters() {
    let mut state = Z80State { machine_cycles: 10, time_cycles: 40, registers: zeroed() };
    state.tick(3, 12);
    assert_eq!(state, Z80State { machine_cycles: 13, time_cycles: 52, registers: zeroed() });
    state.tick(0, 0);
    assert_eq!(state, Z80State { machine_cycles: 13, time_cycles: 52, registers: zeroed() });
}

#[test]
fn the_clock_never_runs_backwards() {
    let mut cpu = Z80::new();
    let program = [
        Z80Instruction::LDrrnn(Z80RegisterPair::SP_, 0x1000),
        Z80Instruction::LDrn(Z80RegisterName::A, 1),
        Z80Instruction::LDI,
        Z80Instruction::PUSH(Z80RegisterPair::AF),
        Z80Instruction::LDrn(Z80RegisterName::SP, 1),
        Z80Instruction::LDAIOn(3),
        Z80Instruction::POP(Z80RegisterPair::BC),
        Z80Instruction::ADDr(Z80RegisterName::B),
    ];
    let mut last = cpu.dump();
    for i in program {
        let res = cpu.exec(i);
        let now = cpu.dump();
        if res.is_ok() {
            assert!(now.machine_cycles > last.machine_cycles);
            assert!(now.time_cycles > last.time_cycles);
        } else {
            assert_eq!(now, last);
        }
        last = now;
    }
    assert_eq!(last.machine_cycles, 3 + 2 + 3 + 3 + 1);
    assert_eq!(last.time_cycles, 12 + 8 + 12 + 12 + 4);
}
