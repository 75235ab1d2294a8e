use rs_6502::cpu::Cpu;

fn cpu_with(image: &[u8], origin: u16, pc: u16) -> Cpu {
    let mut cpu = Cpu::new();
    cpu.load_image(&image.to_vec(), origin).unwrap();
    cpu.pc = pc;
    cpu
}

#[test]
fn lda_immediate_sets_negative_and_zero() {
    let mut cpu = cpu_with(&[0xA9, 0x80], 0x0600, 0x0600);
    let cycles = cpu.execute().unwrap();
    assert_eq!(cpu.a, 0x80);
    assert!(cpu.sr.negative);
    assert!(!cpu.sr.zero);
    assert_eq!(cpu.pc, 0x0602);
    assert_eq!(cycles, 2);
}

#[test]
fn zero_page_store_load_round_trip() {
    let mut cpu = cpu_with(&[0xA9, 0x37, 0x85, 0x10, 0xA9, 0x00, 0xA5, 0x10], 0x0600, 0x0600);
    let mut total: u32 = 0;
    for _ in 0..4 {
        total += cpu.execute().unwrap() as u32;
    }
    assert_eq!(cpu.a, 0x37);
    assert!(!cpu.sr.zero);
    assert_eq!(cpu.read_byte(0x10), 0x37);
    assert_eq!(cpu.pc, 0x0608);
    assert_eq!(total, 10);
}

#[test]
fn adc_sets_carry_and_overflow() {
    let mut cpu = cpu_with(&[0x69, 0x50], 0x0600, 0x0600);
    cpu.a = 0x50;
    let cycles = cpu.execute().unwrap();
    assert_eq!(cpu.a, 0xA0);
    assert!(!cpu.sr.carry);
    assert!(cpu.sr.overflow);
    assert!(cpu.sr.negative);
    assert!(!cpu.sr.zero);
    assert_eq!(cycles, 2);
}

#[test]
fn branch_page_cross_costs_two_extra_cycles() {
    let mut cpu = cpu_with(&[0x90, 0x20], 0x02F0, 0x02F0);
    let cycles = cpu.execute().unwrap();
    assert_eq!(cpu.pc, 0x0312);
    assert_eq!(cycles, 4);
}

#[test]
fn jsr_and_rts_round_trip() {
    let mut cpu = cpu_with(&[0x20, 0x09, 0x06], 0x0600, 0x0600);
    cpu.load_image(&vec![0x60], 0x0609).unwrap();
    assert_eq!(cpu.stack.sp, 0xFD);
    let jsr_cycles = cpu.execute().unwrap();
    assert_eq!(cpu.pc, 0x0609);
    assert_eq!(cpu.stack.sp, 0xFB);
    assert_eq!(cpu.read_byte(0x01FD), 0x06);
    assert_eq!(cpu.read_byte(0x01FC), 0x02);
    assert_eq!(jsr_cycles, 6);
    let rts_cycles = cpu.execute().unwrap();
    assert_eq!(cpu.pc, 0x0603);
    assert_eq!(cpu.stack.sp, 0xFD);
    assert_eq!(rts_cycles, 6);
}

#[test]
fn indirect_jmp_page_bug() {
    let mut cpu = cpu_with(&[0x6C, 0xFF, 0x30], 0x0600, 0x0600);
    cpu.load_image(&vec![0x40], 0x30FF).unwrap();
    cpu.load_image(&vec![0x80], 0x3000).unwrap();
    cpu.load_image(&vec![0x50], 0x3100).unwrap();
    let cycles = cpu.execute().unwrap();
    assert_eq!(cpu.pc, 0x8040);
    assert_eq!(cycles, 5);
}

#[test]
fn jmp_absolute() {
    let mut cpu = cpu_with(&[0x4C, 0x34, 0x12], 0x0600, 0x0600);
    let cycles = cpu.execute().unwrap();
    assert_eq!(cpu.pc, 0x1234);
    assert_eq!(cycles, 3);
}

#[test]
fn unknown_opcode_is_a_fatal_error() {
    let mut cpu = cpu_with(&[0x02], 0x0600, 0x0600);
    let err = cpu.execute().unwrap_err();
    assert_eq!(
        err,
        rs_6502::errors::EmuError::UnknownOpcode { opcode: 0x02, pc: 0x0600 },
    );
    // The machine is left as of right after the opcode fetch.
    assert_eq!(cpu.pc, 0x0601);
}

#[test]
fn nop_costs_two_cycles_and_changes_nothing() {
    let mut cpu = cpu_with(&[0xEA], 0x0600, 0x0600);
    let cycles = cpu.execute().unwrap();
    assert_eq!(cycles, 2);
    assert_eq!(cpu.pc, 0x0601);
    assert_eq!(cpu.a, 0);
    assert_eq!(cpu.x, 0);
    assert_eq!(cpu.y, 0);
}
