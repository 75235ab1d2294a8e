use rs_6502::cpu::Cpu;
use rs_6502::cpu_state::CpuState;
use rs_6502::instruction::Instruction;
use rs_6502::addressing_mode::{get_addr_mode, AddrMode};

fn cpu_with(image: &[u8], origin: u16, pc: u16) -> Cpu {
    let mut cpu = Cpu::new();
    cpu.load_image(&image.to_vec(), origin).unwrap();
    cpu.pc = pc;
    cpu
}

#[test]
fn nmi_is_serviced_before_the_fetch() {
    let mut cpu = cpu_with(&[0xEA], 0x0600, 0x0600);
    cpu.load_image(&vec![0x00, 0x90], 0xFFFA).unwrap();
    cpu.sr.carry = true;
    cpu.sr.interrupt_disable = false;
    cpu.signal_nmi();
    let cycles = cpu.execute().unwrap();
    assert_eq!(cycles, 7);
    assert_eq!(cpu.pc, 0x9000);
    assert!(cpu.sr.interrupt_disable);
    // The interrupted program counter was pushed, high byte first.
    assert_eq!(cpu.read_byte(0x01FD), 0x06);
    assert_eq!(cpu.read_byte(0x01FC), 0x00);
    // The pushed status byte has B clear and bit 5 set.
    assert_eq!(cpu.read_byte(0x01FB), 0b0010_0001);
    assert_eq!(cpu.stack.sp, 0xFA);
}

#[test]
fn nmi_edges_coalesce() {
    let mut cpu = cpu_with(&[0xEA, 0xEA], 0x0600, 0x0600);
    cpu.load_image(&vec![0x00, 0x06], 0xFFFA).unwrap();
    cpu.pc = 0x0600;
    cpu.signal_nmi();
    cpu.signal_nmi();
    assert_eq!(cpu.execute().unwrap(), 7);
    // The pending edge was consumed: the next step runs an instruction.
    assert_eq!(cpu.execute().unwrap(), 2);
}

#[test]
fn irq_is_masked_by_interrupt_disable() {
    let mut cpu = cpu_with(&[0xEA, 0x58, 0xEA], 0x0600, 0x0600);
    cpu.load_image(&vec![0x00, 0x90], 0xFFFE).unwrap();
    cpu.signal_irq();
    // The I flag is set after power-on, so the request waits.
    assert_eq!(cpu.execute().unwrap(), 2);
    assert_eq!(cpu.pc, 0x0601);
    // CLI clears the mask; the level-triggered line then fires.
    assert_eq!(cpu.execute().unwrap(), 2);
    let cycles = cpu.execute().unwrap();
    assert_eq!(cycles, 7);
    assert_eq!(cpu.pc, 0x9000);
    assert!(cpu.sr.interrupt_disable);
}

#[test]
fn reset_loads_the_reset_vector() {
    let mut cpu = Cpu::new();
    cpu.load_image(&vec![0x00, 0x06], 0xFFFC).unwrap();
    cpu.stack.sp = 0x10;
    cpu.sr.interrupt_disable = false;
    let cycles = cpu.reset();
    assert_eq!(cycles, 7);
    assert_eq!(cpu.pc, 0x0600);
    assert_eq!(cpu.stack.sp, 0xFD);
    assert!(cpu.sr.interrupt_disable);
}

#[test]
fn power_on_state() {
    let cpu = Cpu::new();
    assert_eq!(cpu.a, 0);
    assert_eq!(cpu.x, 0);
    assert_eq!(cpu.y, 0);
    assert_eq!(cpu.pc, 0);
    assert_eq!(cpu.stack.sp, 0xFD);
    assert!(cpu.sr.interrupt_disable);
    assert!(!cpu.sr.decimal);
    assert_eq!(cpu.read_byte(0xFFFF), 0);
}

#[test]
fn registers_snapshot_the_machine() {
    let mut cpu = cpu_with(&[0xA9, 0x42], 0x0600, 0x0600);
    cpu.execute().unwrap();
    let state = cpu.registers();
    assert_eq!(state.a, 0x42);
    assert_eq!(state.pc, 0x0602);
    assert_eq!(state.sp, 0xFD);
    assert!(!state.negative);
    assert_eq!(state.cycles, 0);
    let snapshot = CpuState::new(&cpu);
    assert_eq!(snapshot, state);
}

#[test]
fn read_range_and_stack_view() {
    let mut cpu = Cpu::new();
    cpu.load_image(&vec![1, 2, 3], 0x0200).unwrap();
    assert_eq!(cpu.read_range(0x0200, 4), vec![1, 2, 3, 0]);
    let mut stack_page = cpu.stack_view();
    assert_eq!(stack_page.len(), 256);
    cpu.load_image(&vec![0xEE], 0x01FF).unwrap();
    stack_page = cpu.stack_view();
    assert_eq!(stack_page[0xFF], 0xEE);
}

#[test]
fn decoder_classifies_documented_opcodes() {
    assert!(matches!(get_addr_mode(0xA9), AddrMode::Immediate));
    assert!(matches!(get_addr_mode(0xB6), AddrMode::ZeroPageY));
    assert!(matches!(get_addr_mode(0x6C), AddrMode::Ind));
    assert!(matches!(get_addr_mode(0x90), AddrMode::Rel));
    assert!(matches!(get_addr_mode(0x0A), AddrMode::Accumulator));
    assert!(matches!(get_addr_mode(0xEA), AddrMode::Impl));
    assert!(matches!(get_addr_mode(0x9D), AddrMode::AbsX));
    assert!(matches!(get_addr_mode(0x02), AddrMode::Unsupported));
    assert!(matches!(get_addr_mode(0xFF), AddrMode::Unsupported));
}

#[test]
fn instruction_describes_the_next_opcode() {
    let cpu = cpu_with(&[0xA9, 0x42], 0x0600, 0x0600);
    let instr = Instruction::new(&cpu);
    assert_eq!(instr.opcode, 0xA9);
    assert_eq!(instr.name, "LDA");
    assert_eq!(instr.addr_mode, "Imm");
    assert_eq!(instr.assembly, "LDA");
    let blank = Cpu::new();
    let brk = Instruction::new(&blank);
    assert_eq!(brk.name, "BRK");
}
