use rs_6502::cpu::Cpu;

fn cpu_with(image: &[u8], origin: u16, pc: u16) -> Cpu {
    let mut cpu = Cpu::new();
    cpu.load_image(&image.to_vec(), origin).unwrap();
    cpu.pc = pc;
    cpu
}

#[test]
fn lda_absolute_x_pays_for_a_page_cross() {
    let mut cpu = cpu_with(&[0xBD, 0xFF, 0x12], 0x0600, 0x0600);
    cpu.x = 1;
    cpu.load_image(&vec![0x42], 0x1300).unwrap();
    let cycles = cpu.execute().unwrap();
    assert_eq!(cpu.a, 0x42);
    assert_eq!(cycles, 5);
}

#[test]
fn lda_absolute_x_without_cross_is_four_cycles() {
    let mut cpu = cpu_with(&[0xBD, 0x00, 0x12], 0x0600, 0x0600);
    cpu.x = 1;
    cpu.load_image(&vec![0x42], 0x1201).unwrap();
    let cycles = cpu.execute().unwrap();
    assert_eq!(cpu.a, 0x42);
    assert_eq!(cycles, 4);
}

#[test]
fn sta_absolute_x_always_pays_worst_case() {
    let mut cpu = cpu_with(&[0x9D, 0x00, 0x12], 0x0600, 0x0600);
    cpu.a = 0x99;
    cpu.x = 1;
    let cycles = cpu.execute().unwrap();
    assert_eq!(cpu.read_byte(0x1201), 0x99);
    assert_eq!(cycles, 5);
}

#[test]
fn zero_page_x_indexing_wraps() {
    let mut cpu = cpu_with(&[0xB5, 0xFF], 0x0600, 0x0600);
    cpu.x = 0x02;
    cpu.load_image(&vec![0x5A], 0x0001).unwrap();
    let cycles = cpu.execute().unwrap();
    assert_eq!(cpu.a, 0x5A);
    assert_eq!(cycles, 4);
}

#[test]
fn ldx_zero_page_y_indexing_wraps() {
    let mut cpu = cpu_with(&[0xB6, 0x80], 0x0600, 0x0600);
    cpu.y = 0x90;
    cpu.load_image(&vec![0x3C], 0x0010).unwrap();
    let cycles = cpu.execute().unwrap();
    assert_eq!(cpu.x, 0x3C);
    assert_eq!(cycles, 4);
}

#[test]
fn indirect_x_pointer_wraps_in_the_zero_page() {
    // Pointer at 0xFF: low byte at 0x00FF, high byte wraps to 0x0000.
    let mut cpu = cpu_with(&[0xA1, 0xFF], 0x0600, 0x0600);
    cpu.x = 0;
    cpu.load_image(&vec![0x34], 0x00FF).unwrap();
    cpu.load_image(&vec![0x12], 0x0000).unwrap();
    cpu.load_image(&vec![0x77], 0x1234).unwrap();
    let cycles = cpu.execute().unwrap();
    assert_eq!(cpu.a, 0x77);
    assert_eq!(cycles, 6);
}

#[test]
fn indirect_y_pays_for_a_page_cross() {
    let mut cpu = cpu_with(&[0xB1, 0x10], 0x0600, 0x0600);
    cpu.y = 1;
    cpu.load_image(&vec![0xFF, 0x12], 0x0010).unwrap();
    cpu.load_image(&vec![0x88], 0x1300).unwrap();
    let cycles = cpu.execute().unwrap();
    assert_eq!(cpu.a, 0x88);
    assert_eq!(cycles, 6);
}

#[test]
fn asl_accumulator_shifts_into_carry() {
    let mut cpu = cpu_with(&[0x0A], 0x0600, 0x0600);
    cpu.a = 0b1100_0001;
    let cycles = cpu.execute().unwrap();
    assert_eq!(cpu.a, 0b1000_0010);
    assert!(cpu.sr.carry);
    assert!(cpu.sr.negative);
    assert!(!cpu.sr.zero);
    assert_eq!(cycles, 2);
}

#[test]
fn lsr_memory_sets_carry_from_bit_zero() {
    let mut cpu = cpu_with(&[0x46, 0x10], 0x0600, 0x0600);
    cpu.load_image(&vec![0x01], 0x0010).unwrap();
    let cycles = cpu.execute().unwrap();
    assert_eq!(cpu.read_byte(0x0010), 0x00);
    assert!(cpu.sr.carry);
    assert!(cpu.sr.zero);
    assert!(!cpu.sr.negative);
    assert_eq!(cycles, 5);
}

#[test]
fn rol_rotates_through_the_carry() {
    let mut cpu = cpu_with(&[0x2A], 0x0600, 0x0600);
    cpu.a = 0b1000_0000;
    cpu.sr.carry = true;
    cpu.execute().unwrap();
    assert_eq!(cpu.a, 0b0000_0001);
    assert!(cpu.sr.carry);
}

#[test]
fn ror_rotates_through_the_carry() {
    let mut cpu = cpu_with(&[0x6A], 0x0600, 0x0600);
    cpu.a = 0b0000_0001;
    cpu.sr.carry = true;
    cpu.execute().unwrap();
    assert_eq!(cpu.a, 0b1000_0000);
    assert!(cpu.sr.carry);
    assert!(cpu.sr.negative);
}

#[test]
fn inc_wraps_and_sets_zero() {
    let mut cpu = cpu_with(&[0xE6, 0x20], 0x0600, 0x0600);
    cpu.load_image(&vec![0xFF], 0x0020).unwrap();
    let cycles = cpu.execute().unwrap();
    assert_eq!(cpu.read_byte(0x0020), 0x00);
    assert!(cpu.sr.zero);
    assert_eq!(cycles, 5);
}

#[test]
fn dec_wraps_and_sets_negative() {
    let mut cpu = cpu_with(&[0xC6, 0x20], 0x0600, 0x0600);
    let cycles = cpu.execute().unwrap();
    assert_eq!(cpu.read_byte(0x0020), 0xFF);
    assert!(cpu.sr.negative);
    assert_eq!(cycles, 5);
}

#[test]
fn inx_wraps_and_sets_flags() {
    let mut cpu = cpu_with(&[0xE8], 0x0600, 0x0600);
    cpu.x = 0xFF;
    let cycles = cpu.execute().unwrap();
    assert_eq!(cpu.x, 0x00);
    assert!(cpu.sr.zero);
    assert!(!cpu.sr.negative);
    assert_eq!(cycles, 2);
}

#[test]
fn dey_sets_negative() {
    let mut cpu = cpu_with(&[0x88], 0x0600, 0x0600);
    cpu.y = 0x00;
    cpu.execute().unwrap();
    assert_eq!(cpu.y, 0xFF);
    assert!(cpu.sr.negative);
}

#[test]
fn cmp_on_equal_sets_zero_and_carry() {
    let mut cpu = cpu_with(&[0xC9, 0x42], 0x0600, 0x0600);
    cpu.a = 0x42;
    let cycles = cpu.execute().unwrap();
    assert!(cpu.sr.zero);
    assert!(cpu.sr.carry);
    assert!(!cpu.sr.negative);
    assert_eq!(cpu.a, 0x42);
    assert_eq!(cycles, 2);
}

#[test]
fn cmp_when_less_clears_carry_and_sets_negative() {
    let mut cpu = cpu_with(&[0xC9, 0x50], 0x0600, 0x0600);
    cpu.a = 0x40;
    cpu.execute().unwrap();
    assert!(!cpu.sr.zero);
    assert!(!cpu.sr.carry);
    // 0x40 - 0x50 wraps to 0xF0, whose bit 7 is set.
    assert!(cpu.sr.negative);
}

#[test]
fn cpx_and_cpy_compare_their_registers() {
    let mut cpu = cpu_with(&[0xE0, 0x10, 0xC0, 0x08], 0x0600, 0x0600);
    cpu.x = 0x20;
    cpu.y = 0x08;
    cpu.execute().unwrap();
    assert!(cpu.sr.carry);
    assert!(!cpu.sr.zero);
    cpu.execute().unwrap();
    assert!(cpu.sr.carry);
    assert!(cpu.sr.zero);
}

#[test]
fn and_ora_eor_set_flags_from_the_result() {
    let mut cpu = cpu_with(&[0x29, 0x0F, 0x09, 0x80, 0x49, 0x8A], 0x0600, 0x0600);
    cpu.a = 0xF0;
    cpu.execute().unwrap();
    assert_eq!(cpu.a, 0x00);
    assert!(cpu.sr.zero);
    cpu.execute().unwrap();
    assert_eq!(cpu.a, 0x80);
    assert!(cpu.sr.negative);
    cpu.execute().unwrap();
    assert_eq!(cpu.a, 0x0A);
    assert!(!cpu.sr.negative);
    assert!(!cpu.sr.zero);
}

#[test]
fn bit_copies_bits_and_tests_the_accumulator() {
    let mut cpu = cpu_with(&[0x24, 0x10], 0x0600, 0x0600);
    cpu.a = 0x01;
    cpu.load_image(&vec![0xC0], 0x0010).unwrap();
    let cycles = cpu.execute().unwrap();
    assert!(cpu.sr.negative);
    assert!(cpu.sr.overflow);
    assert!(cpu.sr.zero);
    assert_eq!(cpu.a, 0x01);
    assert_eq!(cycles, 3);
}

#[test]
fn adc_negative_overflow() {
    let mut cpu = cpu_with(&[0x69, 0x90], 0x0600, 0x0600);
    cpu.a = 0x90;
    cpu.execute().unwrap();
    assert_eq!(cpu.a, 0x20);
    assert!(cpu.sr.carry);
    assert!(cpu.sr.overflow);
    assert!(!cpu.sr.negative);
}

#[test]
fn adc_decimal_adds_as_bcd() {
    let mut cpu = cpu_with(&[0x69, 0x01, 0x69, 0x01], 0x0600, 0x0600);
    cpu.sr.decimal = true;
    cpu.a = 0x09;
    cpu.execute().unwrap();
    assert_eq!(cpu.a, 0x10);
    assert!(!cpu.sr.carry);
    cpu.a = 0x99;
    cpu.execute().unwrap();
    assert_eq!(cpu.a, 0x00);
    assert!(cpu.sr.carry);
}

#[test]
fn sbc_binary_subtracts_with_borrow() {
    let mut cpu = cpu_with(&[0xE9, 0x10], 0x0600, 0x0600);
    cpu.a = 0x50;
    cpu.sr.carry = true;
    cpu.execute().unwrap();
    assert_eq!(cpu.a, 0x40);
    assert!(cpu.sr.carry);
    assert!(!cpu.sr.overflow);
}

#[test]
fn sbc_decimal_subtracts_as_bcd() {
    let mut cpu = cpu_with(&[0xE9, 0x25], 0x0600, 0x0600);
    cpu.sr.decimal = true;
    cpu.sr.carry = true;
    cpu.a = 0x50;
    cpu.execute().unwrap();
    assert_eq!(cpu.a, 0x25);
    assert!(cpu.sr.carry);
}

#[test]
fn sbc_is_adc_of_the_complement() {
    let mut adc_cpu = cpu_with(&[0x69, 0x3C], 0x0600, 0x0600);
    adc_cpu.a = 0x51;
    adc_cpu.sr.carry = true;
    adc_cpu.execute().unwrap();
    let mut sbc_cpu = cpu_with(&[0xE9, 0x3C ^ 0xFF], 0x0600, 0x0600);
    sbc_cpu.a = 0x51;
    sbc_cpu.sr.carry = true;
    sbc_cpu.execute().unwrap();
    assert_eq!(adc_cpu.a, sbc_cpu.a);
    assert_eq!(adc_cpu.sr, sbc_cpu.sr);
}

#[test]
fn transfers_copy_and_set_flags() {
    let mut cpu = cpu_with(&[0xAA, 0x98], 0x0600, 0x0600);
    cpu.a = 0x80;
    cpu.y = 0x00;
    cpu.execute().unwrap();
    assert_eq!(cpu.x, 0x80);
    assert!(cpu.sr.negative);
    cpu.execute().unwrap();
    assert_eq!(cpu.a, 0x00);
    assert!(cpu.sr.zero);
}

#[test]
fn txs_does_not_touch_flags() {
    let mut cpu = cpu_with(&[0x9A], 0x0600, 0x0600);
    cpu.x = 0x00;
    cpu.execute().unwrap();
    assert_eq!(cpu.stack.sp, 0x00);
    assert!(!cpu.sr.zero);
}

#[test]
fn tsx_copies_the_stack_pointer() {
    let mut cpu = cpu_with(&[0xBA], 0x0600, 0x0600);
    cpu.execute().unwrap();
    assert_eq!(cpu.x, 0xFD);
    assert!(cpu.sr.negative);
}

#[test]
fn pha_pla_round_trip() {
    let mut cpu = cpu_with(&[0x48, 0xA9, 0x00, 0x68], 0x0600, 0x0600);
    cpu.a = 0x7F;
    cpu.execute().unwrap();
    assert_eq!(cpu.stack.sp, 0xFC);
    cpu.execute().unwrap();
    assert_eq!(cpu.a, 0x00);
    let pla_cycles = cpu.execute().unwrap();
    assert_eq!(cpu.a, 0x7F);
    assert_eq!(cpu.stack.sp, 0xFD);
    assert_eq!(pla_cycles, 4);
}

#[test]
fn php_pushes_with_break_set_and_plp_clears_it() {
    let mut cpu = cpu_with(&[0x08, 0x28], 0x0600, 0x0600);
    cpu.sr.carry = true;
    let php_cycles = cpu.execute().unwrap();
    // N V 1 B D I Z C with B forced set on the pushed copy.
    assert_eq!(cpu.read_byte(0x01FD), 0b0011_0101);
    assert_eq!(php_cycles, 3);
    cpu.sr.carry = false;
    cpu.sr.interrupt_disable = false;
    cpu.execute().unwrap();
    assert!(cpu.sr.carry);
    assert!(cpu.sr.interrupt_disable);
    assert!(!cpu.sr.brk);
}

#[test]
fn flag_instructions_set_and_clear() {
    let mut cpu = cpu_with(&[0x38, 0xF8, 0x78, 0x18, 0xD8, 0x58, 0xB8], 0x0600, 0x0600);
    cpu.sr.overflow = true;
    cpu.sr.interrupt_disable = false;
    cpu.execute().unwrap();
    assert!(cpu.sr.carry);
    cpu.execute().unwrap();
    assert!(cpu.sr.decimal);
    cpu.execute().unwrap();
    assert!(cpu.sr.interrupt_disable);
    cpu.execute().unwrap();
    assert!(!cpu.sr.carry);
    cpu.execute().unwrap();
    assert!(!cpu.sr.decimal);
    cpu.execute().unwrap();
    assert!(!cpu.sr.interrupt_disable);
    let cycles = cpu.execute().unwrap();
    assert!(!cpu.sr.overflow);
    assert_eq!(cycles, 2);
}

#[test]
fn branch_not_taken_costs_two_cycles() {
    let mut cpu = cpu_with(&[0xB0, 0x10], 0x0600, 0x0600);
    let cycles = cpu.execute().unwrap();
    assert_eq!(cpu.pc, 0x0602);
    assert_eq!(cycles, 2);
}

#[test]
fn branch_taken_same_page_costs_three_cycles() {
    let mut cpu = cpu_with(&[0xD0, 0x10], 0x0600, 0x0600);
    let cycles = cpu.execute().unwrap();
    assert_eq!(cpu.pc, 0x0612);
    assert_eq!(cycles, 3);
}

#[test]
fn branch_backwards_takes_a_negative_offset() {
    let mut cpu = cpu_with(&[0xF0, 0xFC], 0x0600, 0x0600);
    cpu.sr.zero = true;
    let cycles = cpu.execute().unwrap();
    // 0x0602 - 4 = 0x05FE, in the previous page.
    assert_eq!(cpu.pc, 0x05FE);
    assert_eq!(cycles, 4);
}

#[test]
fn brk_vectors_through_fffe() {
    let mut cpu = cpu_with(&[0x00], 0x0600, 0x0600);
    cpu.load_image(&vec![0x00, 0x80], 0xFFFE).unwrap();
    cpu.sr.carry = true;
    cpu.sr.interrupt_disable = false;
    let cycles = cpu.execute().unwrap();
    assert_eq!(cpu.pc, 0x8000);
    assert!(cpu.sr.interrupt_disable);
    // Return address skips the signature byte: 0x0602.
    assert_eq!(cpu.read_byte(0x01FD), 0x06);
    assert_eq!(cpu.read_byte(0x01FC), 0x02);
    // Status pushed with B and bit 5 set, carry kept.
    assert_eq!(cpu.read_byte(0x01FB), 0b0011_0001);
    assert_eq!(cpu.stack.sp, 0xFA);
    assert_eq!(cycles, 7);
}

#[test]
fn rti_restores_status_and_return_address() {
    let mut cpu = cpu_with(&[0x40], 0x0600, 0x0600);
    let mut mem_stack = Vec::new();
    mem_stack.push(0b0010_0001); // status: carry set
    mem_stack.push(0x34); // return low
    mem_stack.push(0x12); // return high
    cpu.load_image(&mem_stack, 0x01FB).unwrap();
    cpu.stack.sp = 0xFA;
    let cycles = cpu.execute().unwrap();
    assert_eq!(cpu.pc, 0x1234);
    assert!(cpu.sr.carry);
    assert!(!cpu.sr.brk);
    assert_eq!(cpu.stack.sp, 0xFD);
    assert_eq!(cycles, 6);
}
