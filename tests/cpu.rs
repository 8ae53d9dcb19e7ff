use core_8080::{CoreError, CPU};

const BAD_OPS: [u8; 13] = [0x08, 0x10, 0x18, 0x20, 0x28, 0x30, 0x38, 0xCB, 0xD9, 0xDD, 0xE3, 0xED, 0xFD];

fn run(rom: &[u8], ticks: usize) -> CPU {
    let mut cpu = CPU::new();
    cpu.load_rom(&rom.to_vec()).unwrap();
    for _ in 0..ticks {
        cpu.tick().unwrap();
    }
    cpu
}

#[test]
fn all_opcodes_exist() {
    let mut cpu = CPU::new();
    for op in 0x00..0xFF {
        if !BAD_OPS.contains(&op) {
            // Run back to back from zeroed memory, `LXI SP` (0x31) loads SP = 0,
            // so later pushes must report the stack leaving the address space.
            // Any other error, and a missing opcode above all, fails the test.
            let r = cpu.execute(op);
            assert!(r.is_ok() || r == Err(CoreError::StackPointerOverflow), "opcode {:#04x}: {:?}", op, r);
        }
    }
}

#[test]
fn every_defined_opcode_executes() {
    const UNDEFINED: [u8; 12] = [0x08, 0x10, 0x18, 0x20, 0x28, 0x30, 0x38, 0xCB, 0xD9, 0xDD, 0xED, 0xFD];
    for op in 0x00..=0xFFu8 {
        if UNDEFINED.contains(&op) {
            continue;
        }
        // LXI SP,0x2400 first, so that stack instructions have room.
        let mut cpu = run(&[0x31, 0x00, 0x24], 1);
        let r = cpu.execute(op);
        assert!(r.is_ok(), "opcode {:#04x}: {:?}", op, r);
        let cycles = r.unwrap();
        assert!((1..=5).contains(&cycles), "opcode {:#04x}: {} cycles", op, cycles);
    }
}

#[test]
fn undefined_opcodes_are_errors() {
    for op in [0x08u8, 0x10, 0x18, 0x20, 0x28, 0x30, 0x38, 0xCB, 0xD9, 0xDD, 0xED, 0xFD] {
        let mut cpu = CPU::new();
        assert_eq!(cpu.execute(op), Err(CoreError::OpcodeError { opcode: op }));
    }
}

#[test]
fn increment_then_halt() {
    let mut cpu = run(&[0x3E, 0x05, 0x3C, 0x76], 3);
    assert!(cpu.is_halted());
    assert_eq!(cpu.tick(), Ok(1));
    let r = cpu.registers();
    let f = cpu.flags();
    assert_eq!(r.a_reg, 6);
    assert_eq!(cpu.memory().program_counter, 0x0003);
    assert!(!f.zero);
    assert!(!f.sign);
    assert!(f.parity);
}

#[test]
fn push_h_pop_b() {
    let cpu = run(&[0x31, 0x00, 0x24, 0x21, 0xEF, 0xBE, 0xE5, 0xC1], 4);
    assert_eq!(cpu.registers().bc_reg.get_pair(), 0xBEEF);
    assert_eq!(cpu.memory().stack_pointer, 0x2400);
}

#[test]
fn add_overflows_into_carry() {
    let cpu = run(&[0x3E, 0x80, 0x87], 2);
    let f = cpu.flags();
    assert_eq!(cpu.registers().a_reg, 0x00);
    assert!(f.carry);
    assert!(f.zero);
    assert!(!f.sign);
    assert!(f.parity);
}

#[test]
fn rotate_left_circular() {
    let cpu = run(&[0x3E, 0x55, 0x07], 2);
    assert_eq!(cpu.registers().a_reg, 0xAA);
    assert!(!cpu.flags().carry);
}

#[test]
fn interrupt_runs_restart_on_next_tick() {
    // LXI SP,0x2400; EI
    let mut cpu = run(&[0x31, 0x00, 0x24, 0xFB], 2);
    assert!(cpu.interrupt_enabled());
    assert_eq!(cpu.memory().program_counter, 0x0004);
    cpu.interrupt(1);
    assert_eq!(cpu.memory().program_counter, 0x0004);
    assert_eq!(cpu.tick(), Ok(3));
    assert_eq!(cpu.memory().program_counter, 0x0008);
    assert!(!cpu.interrupt_enabled());
    assert_eq!(cpu.memory().stack_pointer, 0x23FE);
    assert_eq!(cpu.memory().read_two_bytes(0x23FE), Ok(0x0004));
}

#[test]
fn interrupt_from_reset_cannot_push() {
    let mut cpu = run(&[0xFB], 1);
    cpu.interrupt(1);
    assert_eq!(cpu.tick(), Ok(3));
    assert!(!cpu.interrupt_enabled());
    assert_eq!(cpu.memory().program_counter, 0x0001);
    assert_eq!(cpu.memory().stack_pointer, 0);
}

#[test]
fn interrupt_ignored_while_disabled() {
    let mut cpu = run(&[0x00, 0x00], 0);
    cpu.interrupt(2);
    assert_eq!(cpu.tick(), Ok(1));
    assert_eq!(cpu.memory().program_counter, 0x0001);
}

#[test]
fn later_interrupt_replaces_earlier() {
    let mut cpu = run(&[0x31, 0x00, 0x24, 0xFB], 2);
    cpu.interrupt(1);
    cpu.interrupt(2);
    cpu.tick().unwrap();
    assert_eq!(cpu.memory().program_counter, 0x0010);
}

#[test]
fn interrupt_wakes_halted_processor() {
    let mut cpu = run(&[0x31, 0x00, 0x24, 0xFB, 0x76], 3);
    assert!(cpu.is_halted());
    assert_eq!(cpu.tick(), Ok(1));
    assert_eq!(cpu.memory().program_counter, 0x0004);
    cpu.interrupt(7);
    cpu.tick().unwrap();
    assert!(!cpu.is_halted());
    assert_eq!(cpu.memory().program_counter, 0x0038);
}

#[test]
fn shift_register_through_ports() {
    // MVI A,0xAA; OUT 4; MVI A,0xBB; OUT 4; MVI A,4; OUT 2; IN 3
    let cpu = run(&[0x3E, 0xAA, 0xD3, 0x04, 0x3E, 0xBB, 0xD3, 0x04, 0x3E, 0x04, 0xD3, 0x02, 0xDB, 0x03], 7);
    assert_eq!(cpu.registers().a_reg, 0xBA);
}

#[test]
fn input_ports_read_player_bytes() {
    let mut cpu = CPU::new();
    cpu.load_rom(&vec![0xDB, 0x01, 0x47, 0xDB, 0x02, 0xDB, 0x00]).unwrap();
    cpu.input.port1 = 0x5D;
    cpu.input.port2 = 0x81;
    cpu.tick().unwrap();
    cpu.tick().unwrap();
    assert_eq!(cpu.registers().bc_reg.high, 0x5D);
    cpu.tick().unwrap();
    assert_eq!(cpu.registers().a_reg, 0x81);
    cpu.tick().unwrap();
    assert_eq!(cpu.registers().a_reg, 0x00);
}

#[test]
fn complement_then_increment_negates() {
    for a in [0u8, 1, 0x37, 0x80, 0xFF] {
        let mut cpu = CPU::new();
        cpu.load_rom(&vec![0x3E, a, 0x2F, 0x3C]).unwrap();
        for _ in 0..3 {
            cpu.tick().unwrap();
        }
        assert_eq!(a.wrapping_add(cpu.registers().a_reg), 0);
    }
}

#[test]
fn call_and_return() {
    // LXI SP,0x2400; CALL 0x0010; HLT ... 0x0010: RET
    let mut rom = vec![0x31, 0x00, 0x24, 0xCD, 0x10, 0x00, 0x76];
    rom.resize(0x10, 0);
    rom.push(0xC9);
    let mut cpu = run(&rom, 1);
    assert_eq!(cpu.tick(), Ok(5));
    assert_eq!(cpu.memory().program_counter, 0x0010);
    assert_eq!(cpu.memory().read_two_bytes(0x23FE), Ok(0x0006));
    assert_eq!(cpu.tick(), Ok(3));
    assert_eq!(cpu.memory().program_counter, 0x0006);
    assert_eq!(cpu.memory().stack_pointer, 0x2400);
}

#[test]
fn conditional_call_costs_more_when_taken() {
    // LXI SP,0x2400; XRA A (Z=1); CNZ 0x0100; CZ 0x0100
    let mut cpu = run(&[0x31, 0x00, 0x24, 0xAF, 0xC4, 0x00, 0x01, 0xCC, 0x00, 0x01], 2);
    assert_eq!(cpu.tick(), Ok(3));
    assert_eq!(cpu.memory().program_counter, 0x0007);
    assert_eq!(cpu.tick(), Ok(5));
    assert_eq!(cpu.memory().program_counter, 0x0100);
}

#[test]
fn conditional_jump_consumes_address_when_not_taken() {
    // XRA A; JNZ 0x1234; JZ 0x0040
    let mut cpu = run(&[0xAF, 0xC2, 0x34, 0x12, 0xCA, 0x40, 0x00], 1);
    assert_eq!(cpu.tick(), Ok(3));
    assert_eq!(cpu.memory().program_counter, 0x0004);
    cpu.tick().unwrap();
    assert_eq!(cpu.memory().program_counter, 0x0040);
}

#[test]
fn psw_round_trip() {
    // LXI SP,0x2400; MVI A,0x80; ADD A; PUSH PSW; MVI A,1; ORA A; POP PSW
    let rom = [0x31, 0x00, 0x24, 0x3E, 0x80, 0x87, 0xF5, 0x3E, 0x01, 0xB7, 0xF1];
    let mut cpu = run(&rom, 4);
    // S Z 0 AC 0 P 1 C with Z, P and C set
    assert_eq!(cpu.memory().read_byte(0x23FE), Ok(0x47));
    assert_eq!(cpu.memory().read_byte(0x23FF), Ok(0x00));
    let before = cpu.flags();
    cpu.tick().unwrap();
    cpu.tick().unwrap();
    assert!(!cpu.flags().zero);
    assert!(!cpu.flags().carry);
    cpu.tick().unwrap();
    assert_eq!(cpu.registers().a_reg, 0x00);
    assert_eq!(cpu.flags(), before);
    assert_eq!(cpu.memory().stack_pointer, 0x2400);
}

#[test]
fn subtract_borrows() {
    // MVI A,0x10; SUI 0x20
    let cpu = run(&[0x3E, 0x10, 0xD6, 0x20], 2);
    let f = cpu.flags();
    assert_eq!(cpu.registers().a_reg, 0xF0);
    assert!(f.carry);
    assert!(f.sign);
    assert!(!f.zero);
    assert!(f.parity);
}

#[test]
fn compare_keeps_accumulator() {
    // MVI A,5; CPI 5; CPI 6
    let mut cpu = run(&[0x3E, 0x05, 0xFE, 0x05, 0xFE, 0x06], 2);
    assert_eq!(cpu.registers().a_reg, 5);
    assert!(cpu.flags().zero);
    assert!(!cpu.flags().carry);
    cpu.tick().unwrap();
    assert_eq!(cpu.registers().a_reg, 5);
    assert!(!cpu.flags().zero);
    assert!(cpu.flags().carry);
}

#[test]
fn decimal_adjust_after_bcd_add() {
    // MVI A,0x15; ADI 0x27; DAA
    let cpu = run(&[0x3E, 0x15, 0xC6, 0x27, 0x27], 3);
    assert_eq!(cpu.registers().a_reg, 0x42);
    assert!(!cpu.flags().carry);
    // MVI A,0x99; ADI 0x01; DAA
    let cpu = run(&[0x3E, 0x99, 0xC6, 0x01, 0x27], 3);
    assert_eq!(cpu.registers().a_reg, 0x00);
    assert!(cpu.flags().carry);
    assert!(cpu.flags().zero);
}

#[test]
fn double_add_sets_only_carry() {
    // LXI H,0xFFFF; LXI B,0x0002; XRA A; DAD B
    let cpu = run(&[0x21, 0xFF, 0xFF, 0x01, 0x02, 0x00, 0xAF, 0x09], 4);
    assert_eq!(cpu.registers().hl_reg.get_pair(), 0x0001);
    let f = cpu.flags();
    assert!(f.carry);
    assert!(f.zero);
    assert!(f.parity);
}

#[test]
fn exchanges() {
    // LXI SP,0x2400; LXI D,0x1111; LXI H,0x2222; XCHG; PUSH D; LXI H,0x3333; XTHL
    let cpu = run(
        &[0x31, 0x00, 0x24, 0x11, 0x11, 0x11, 0x21, 0x22, 0x22, 0xEB, 0xD5, 0x21, 0x33, 0x33, 0xE3],
        7,
    );
    assert_eq!(cpu.registers().de_reg.get_pair(), 0x2222);
    assert_eq!(cpu.registers().hl_reg.get_pair(), 0x2222);
    assert_eq!(cpu.memory().read_two_bytes(0x23FE), Ok(0x3333));
    assert_eq!(cpu.memory().stack_pointer, 0x23FE);
}

#[test]
fn rotates_through_carry() {
    // MVI A,0x81; STC; RAL; RAR; RRC; CMC; CMC
    let mut cpu = run(&[0x3E, 0x81, 0x37, 0x17, 0x1F, 0x0F, 0x3F, 0x3F], 3);
    assert_eq!(cpu.registers().a_reg, 0x03);
    assert!(cpu.flags().carry);
    cpu.tick().unwrap();
    assert_eq!(cpu.registers().a_reg, 0x81);
    assert!(cpu.flags().carry);
    cpu.tick().unwrap();
    assert_eq!(cpu.registers().a_reg, 0xC0);
    assert!(cpu.flags().carry);
    cpu.tick().unwrap();
    assert_eq!(cpu.registers().a_reg, 0xC0);
    assert!(!cpu.flags().carry);
    cpu.tick().unwrap();
    assert!(cpu.flags().carry);
}

#[test]
fn memory_operand_through_hl() {
    // LXI H,0x2000; MVI M,0x41; INR M; MOV B,M; DCR M
    let cpu = run(&[0x21, 0x00, 0x20, 0x36, 0x41, 0x34, 0x46, 0x35], 5);
    assert_eq!(cpu.registers().bc_reg.high, 0x42);
    assert_eq!(cpu.memory().read_byte(0x2000), Ok(0x41));
}

#[test]
fn errors_stop_the_tick() {
    let mut cpu0 = CPU::new();
    assert_eq!(cpu0.load_rom(&vec![0u8; 0x2001]), Err(CoreError::RomSizeError));
    // POP B with SP = 0xFFFE
    let mut cpu = run(&[0x31, 0xFE, 0xFF, 0xC1], 1);
    assert_eq!(cpu.tick(), Err(CoreError::StackPointerOverflow));
    // LHLD 0xFFFF
    let mut cpu2 = run(&[0x2A, 0xFF, 0xFF], 0);
    assert_eq!(cpu2.tick(), Err(CoreError::IndexError { index: 0xFFFF }));
    // PUSH B with SP = 0
    let mut cpu3 = run(&[0xC5], 0);
    assert_eq!(cpu3.tick(), Err(CoreError::StackPointerOverflow));
    // JMP 0xFFFF, then the fetch there overflows the program counter
    let mut cpu4 = run(&[0xC3, 0xFF, 0xFF], 1);
    assert_eq!(cpu4.tick(), Err(CoreError::ProgramCounterOverflow));
}

#[test]
fn instructions_without_flags_keep_them() {
    // MVI A,0x80; ADD A (Z, P, C set); then MOV B,A; LXI H,0x2000; MOV M,A; INX H; CMA; XCHG
    let mut cpu = run(&[0x3E, 0x80, 0x87, 0x47, 0x21, 0x00, 0x20, 0x77, 0x23, 0x2F, 0xEB], 2);
    let before = cpu.flags();
    assert!(before.zero && before.parity && before.carry && !before.sign);
    for _ in 0..6 {
        cpu.tick().unwrap();
        assert_eq!(cpu.flags(), before);
    }
    assert_eq!(cpu.registers().a_reg, 0xFF);
}

#[test]
fn increment_keeps_carry() {
    // STC; MVI B,0xFF; INR B; DCR B
    let mut cpu = run(&[0x37, 0x06, 0xFF, 0x04, 0x05], 3);
    let f = cpu.flags();
    assert_eq!(cpu.registers().bc_reg.high, 0x00);
    assert!(f.zero && f.parity && f.carry && !f.sign);
    cpu.tick().unwrap();
    let f = cpu.flags();
    assert_eq!(cpu.registers().bc_reg.high, 0xFF);
    assert!(!f.zero && f.parity && f.carry && f.sign);
}
