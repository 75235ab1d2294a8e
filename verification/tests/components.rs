use rs_6502::memory::Memory;
use rs_6502::stack::Stack;
use rs_6502::status_register::StatusRegister;
use rs_6502::errors::EmuError;

#[test]
fn memory_byte_round_trip() {
    let mut mem = Memory::new();
    mem.write_byte(0x1234, 0xAB);
    assert_eq!(mem.read_byte(0x1234), 0xAB);
    assert_eq!(mem.read_byte(0x1235), 0x00);
}

#[test]
fn memory_word_is_little_endian() {
    let mut mem = Memory::new();
    mem.write_byte(0x2000, 0xCD);
    mem.write_byte(0x2001, 0xAB);
    assert_eq!(mem.read_word(0x2000), 0xABCD);
    assert_eq!(
        mem.read_word(0x2000),
        mem.read_byte(0x2000) as u16 | ((mem.read_byte(0x2001) as u16) << 8),
    );
}

#[test]
fn memory_word_read_wraps_at_top_of_memory() {
    let mut mem = Memory::new();
    mem.write_byte(0xFFFF, 0x34);
    mem.write_byte(0x0000, 0x12);
    assert_eq!(mem.read_word(0xFFFF), 0x1234);
}

#[test]
fn wrapped_word_read_stays_in_its_page() {
    let mut mem = Memory::new();
    mem.write_byte(0x30FF, 0x40);
    mem.write_byte(0x3000, 0x80);
    mem.write_byte(0x3100, 0x50);
    assert_eq!(mem.read_word_wrapped(0x30FF), 0x8040);
    assert_eq!(mem.read_word(0x30FF), 0x5040);
}

#[test]
fn load_copies_at_origin() {
    let mut mem = Memory::new();
    mem.load(&vec![1, 2, 3], 0x0FFE).unwrap();
    assert_eq!(mem.read_byte(0x0FFD), 0);
    assert_eq!(mem.read_byte(0x0FFE), 1);
    assert_eq!(mem.read_byte(0x0FFF), 2);
    assert_eq!(mem.read_byte(0x1000), 3);
    assert_eq!(mem.read_byte(0x1001), 0);
}

#[test]
fn load_rejects_an_image_past_the_end() {
    let mut mem = Memory::new();
    mem.write_byte(0xFFFF, 0x55);
    let err = mem.load(&vec![9, 9, 9], 0xFFFE).unwrap_err();
    assert_eq!(err, EmuError::ImageTooLarge { origin: 0xFFFE, len: 3 });
    // No partial write happened.
    assert_eq!(mem.read_byte(0xFFFE), 0);
    assert_eq!(mem.read_byte(0xFFFF), 0x55);
}

#[test]
fn get_ram_clamps_to_the_end() {
    let mut mem = Memory::new();
    mem.write_byte(0xFFFF, 0x77);
    let tail = mem.get_ram(0xFFFE, 16);
    assert_eq!(tail, vec![0x00, 0x77]);
    let whole = mem.get_ram(0, 0x10000);
    assert_eq!(whole.len(), 0x10000);
}

#[test]
fn stack_push_pop_is_a_left_inverse() {
    let mut mem = Memory::new();
    let mut stack = Stack::new();
    let start = stack.sp;
    stack.push_byte(&mut mem, 0x11);
    stack.push_byte(&mut mem, 0x22);
    stack.push_byte(&mut mem, 0x33);
    assert_eq!(stack.pop_byte(&mem), 0x33);
    assert_eq!(stack.pop_byte(&mem), 0x22);
    assert_eq!(stack.pop_byte(&mem), 0x11);
    assert_eq!(stack.sp, start);
}

#[test]
fn stack_word_round_trip() {
    let mut mem = Memory::new();
    let mut stack = Stack::new();
    stack.push_word(&mut mem, 0xBEEF);
    // High byte first, so the low byte sits at the lower address.
    assert_eq!(mem.read_byte(0x0100 + 0xFD), 0xBE);
    assert_eq!(mem.read_byte(0x0100 + 0xFC), 0xEF);
    assert_eq!(stack.pop_word(&mem), 0xBEEF);
    assert_eq!(stack.sp, 0xFD);
}

#[test]
fn stack_pointer_wraps_at_zero() {
    let mut mem = Memory::new();
    let mut stack = Stack::new();
    stack.sp = 0x00;
    stack.push_byte(&mut mem, 0xAA);
    assert_eq!(stack.sp, 0xFF);
    assert_eq!(mem.read_byte(0x0100), 0xAA);
    assert_eq!(stack.pop_byte(&mem), 0xAA);
    assert_eq!(stack.sp, 0x00);
}

#[test]
fn status_byte_packs_nv1bdizc() {
    let mut sr = StatusRegister::new();
    assert_eq!(sr.get_status_byte(), 0b0010_0000);
    sr.negative = true;
    sr.carry = true;
    assert_eq!(sr.get_status_byte(), 0b1010_0001);
    sr.overflow = true;
    sr.brk = true;
    sr.decimal = true;
    sr.interrupt_disable = true;
    sr.zero = true;
    assert_eq!(sr.get_status_byte(), 0b1111_1111);
}

#[test]
fn status_byte_round_trips_with_bit_five_ignored() {
    let mut sr = StatusRegister::new();
    sr.set_status_byte(0b1100_1010);
    assert!(sr.negative);
    assert!(sr.overflow);
    assert!(!sr.brk);
    assert!(sr.decimal);
    assert!(!sr.interrupt_disable);
    assert!(sr.zero);
    assert!(!sr.carry);
    let packed = sr.get_status_byte();
    // Bit 5 reads back set regardless of what was written.
    assert_eq!(packed, 0b1110_1010);
    let mut again = StatusRegister::new();
    again.set_status_byte(packed);
    assert_eq!(again, sr);
}

#[test]
fn status_getters_mirror_the_flags() {
    let mut sr = StatusRegister::new();
    sr.set_status_byte(0b1001_0101);
    assert!(sr.get_negative());
    assert!(!sr.get_overflow());
    assert!(sr.get_brk());
    assert!(!sr.get_decimal());
    assert!(sr.get_interrupt_disable());
    assert!(!sr.get_zero());
    assert!(sr.get_carry());
}
