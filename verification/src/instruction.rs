use vstd::prelude::*;
use crate::addressing_mode::{get_addr_mode, spec_addr_mode, AddrMode};
use crate::cpu::Cpu;
use crate::memory::mem_read;

verus! {

broadcast use vstd::string::to_string_from_display_ensures_for_str;

/// A decoded description of the instruction the program counter points
/// at, for display by an inspector.
pub struct Instruction {
    /// Mnemonic of the instruction
    pub name: &'static str,
    /// A short description of what it does
    pub description: &'static str,
    /// The opcode byte
    pub opcode: u8,
    /// The addressing mode, spelled out
    pub addr_mode: String,
    /// The assembly rendering (the mnemonic)
    pub assembly: String,
}

/// The mnemonic of each documented opcode.
pub open spec fn spec_instruction_name(opcode: u8) -> Seq<char> {
    match opcode {
        0x00 => "BRK"@,
        0x18 => "CLC"@,
        0xD8 => "CLD"@,
        0x58 => "CLI"@,
        0xB8 => "CLV"@,
        0xEA => "NOP"@,
        0xC8 => "INY"@,
        0xE8 => "INX"@,
        0xA9 | 0xA5 | 0xB5 | 0xAD | 0xBD | 0xB9 | 0xA1 | 0xB1 => "LDA"@,
        0xA2 | 0xA6 | 0xB6 | 0xAE | 0xBE => "LDX"@,
        0xA0 | 0xA4 | 0xB4 | 0xAC | 0xBC => "LDY"@,
        0x4A | 0x46 | 0x56 | 0x4E | 0x5E => "LSR"@,
        0x09 | 0x05 | 0x15 | 0x0D | 0x1D | 0x19 | 0x01 | 0x11 => "ORA"@,
        0x48 => "PHA"@,
        0x08 => "PHP"@,
        0x68 => "PLA"@,
        0x28 => "PLP"@,
        0x2A | 0x26 | 0x36 | 0x2E | 0x3E => "ROL"@,
        0x0A | 0x06 | 0x16 | 0x0E | 0x1E => "ASL"@,
        0x6A | 0x66 | 0x76 | 0x6E | 0x7E => "ROR"@,
        0x85 | 0x95 | 0x8D | 0x9D | 0x99 | 0x81 | 0x91 => "STA"@,
        0x86 | 0x96 | 0x8E => "STX"@,
        0x84 | 0x94 | 0x8C => "STY"@,
        0xAA => "TAX"@,
        0xA8 => "TAY"@,
        0xBA => "TSX"@,
        0x8A => "TXA"@,
        0x9A => "TXS"@,
        0x98 => "TYA"@,
        0x69 | 0x65 | 0x75 | 0x6D | 0x7D | 0x79 | 0x61 | 0x71 => "ADC"@,
        0xE9 | 0xE5 | 0xF5 | 0xED | 0xFD | 0xF9 | 0xE1 | 0xF1 => "SBC"@,
        0x29 | 0x25 | 0x35 | 0x2D | 0x3D | 0x39 | 0x21 | 0x31 => "AND"@,
        0x49 | 0x45 | 0x55 | 0x4D | 0x5D | 0x59 | 0x41 | 0x51 => "EOR"@,
        0x90 => "BCC"@,
        0xB0 => "BCS"@,
        0xF0 => "BEQ"@,
        0x30 => "BMI"@,
        0xD0 => "BNE"@,
        0x10 => "BPL"@,
        0x50 => "BVC"@,
        0x70 => "BVS"@,
        0x24 | 0x2C => "BIT"@,
        0x20 => "JSR"@,
        0x4C | 0x6C => "JMP"@,
        0x60 => "RTS"@,
        0x40 => "RTI"@,
        0xC9 | 0xC5 | 0xD5 | 0xCD | 0xDD | 0xD9 | 0xC1 | 0xD1 => "CMP"@,
        0xE0 | 0xE4 | 0xEC => "CPX"@,
        0xC0 | 0xC4 | 0xCC => "CPY"@,
        0xC6 | 0xD6 | 0xCE | 0xDE => "DEC"@,
        0xE6 | 0xF6 | 0xEE | 0xFE => "INC"@,
        _ => "???"@,
    }
}

/// The mnemonic and a short description of an opcode; undocumented
/// opcodes yield a placeholder.
pub fn instruction_name_and_description(opcode: u8) -> (r: (&'static str, &'static str))
    ensures
        r.0@ == spec_instruction_name(opcode),
{
    match opcode {
        0x00 => ("BRK", "Break"),
        0x18 => ("CLC", "Clear Carry"),
        0xD8 => ("CLD", "Clear Decimal"),
        0x58 => ("CLI", "Clear Interrupt"),
        0xB8 => ("CLV", "Clear Overflow"),
        0xEA => ("NOP", "No operation"),
        0xC8 => ("INY", "Increment Y"),
        0xE8 => ("INX", "Increment X"),
        0xA9 | 0xA5 | 0xB5 | 0xAD | 0xBD | 0xB9 | 0xA1 | 0xB1 => ("LDA", "Load Acc"),
        0xA2 | 0xA6 | 0xB6 | 0xAE | 0xBE => ("LDX", "Load X Reg"),
        0xA0 | 0xA4 | 0xB4 | 0xAC | 0xBC => ("LDY", "Load Y Reg"),
        0x4A | 0x46 | 0x56 | 0x4E | 0x5E => ("LSR", "Shift Right"),
        0x09 | 0x05 | 0x15 | 0x0D | 0x1D | 0x19 | 0x01 | 0x11 => ("ORA", "Inclusive OR"),
        0x48 => ("PHA", "Push Acc"),
        0x08 => ("PHP", "Push Proc Status"),
        0x68 => ("PLA", "Pull Acc"),
        0x28 => ("PLP", "Pull Proc Status"),
        0x2A | 0x26 | 0x36 | 0x2E | 0x3E => ("ROL", "Rotate Left"),
        0x0A | 0x06 | 0x16 | 0x0E | 0x1E => ("ASL", "Shift Left"),
        0x6A | 0x66 | 0x76 | 0x6E | 0x7E => ("ROR", "Rotate Right"),
        0x85 | 0x95 | 0x8D | 0x9D | 0x99 | 0x81 | 0x91 => ("STA", "Store Acc"),
        0x86 | 0x96 | 0x8E => ("STX", "Store X"),
        0x84 | 0x94 | 0x8C => ("STY", "Store Y"),
        0xAA => ("TAX", "Acc -> X"),
        0xA8 => ("TAY", "Acc -> Y"),
        0xBA => ("TSX", "SP -> X"),
        0x8A => ("TXA", "X -> Acc"),
        0x9A => ("TXS", "X -> SP"),
        0x98 => ("TYA", "Y -> Acc"),
        0x69 | 0x65 | 0x75 | 0x6D | 0x7D | 0x79 | 0x61 | 0x71 => ("ADC", "Add w/ Carry"),
        0xE9 | 0xE5 | 0xF5 | 0xED | 0xFD | 0xF9 | 0xE1 | 0xF1 => ("SBC", "Sub w/ Carry"),
        0x29 | 0x25 | 0x35 | 0x2D | 0x3D | 0x39 | 0x21 | 0x31 => ("AND", "Logical AND"),
        0x49 | 0x45 | 0x55 | 0x4D | 0x5D | 0x59 | 0x41 | 0x51 => ("EOR", "Exclusive OR"),
        0x90 => ("BCC", "Branch Carry Clear"),
        0xB0 => ("BCS", "Branch Carry Set"),
        0xF0 => ("BEQ", "Branch Zero"),
        0x30 => ("BMI", "Branch Minus"),
        0xD0 => ("BNE", "Branch Not Zero"),
        0x10 => ("BPL", "Branch Plus"),
        0x50 => ("BVC", "Branch Overflow Clr"),
        0x70 => ("BVS", "Branch Overflow Set"),
        0x24 | 0x2C => ("BIT", "Bit Test"),
        0x20 => ("JSR", "Jump Subroutine"),
        0x4C | 0x6C => ("JMP", "Jump"),
        0x60 => ("RTS", "Ret Subroutine"),
        0x40 => ("RTI", "Ret Interrupt"),
        0xC9 | 0xC5 | 0xD5 | 0xCD | 0xDD | 0xD9 | 0xC1 | 0xD1 => ("CMP", "Compare"),
        0xE0 | 0xE4 | 0xEC => ("CPX", "Compare X"),
        0xC0 | 0xC4 | 0xCC => ("CPY", "Compare Y"),
        0xC6 | 0xD6 | 0xCE | 0xDE => ("DEC", "Decrement"),
        0xE6 | 0xF6 | 0xEE | 0xFE => ("INC", "Increment"),
        _ => ("???", "Undocumented"),
    }
}

/// The display label of an addressing mode.
pub open spec fn spec_addr_mode_label(addr_mode: AddrMode) -> Seq<char> {
    match addr_mode {
        AddrMode::Abs => "Abs"@,
        AddrMode::AbsX => "Abs, X"@,
        AddrMode::AbsY => "Abs, Y"@,
        AddrMode::Accumulator => "Acc"@,
        AddrMode::Immediate => "Imm"@,
        AddrMode::Impl => "Implied"@,
        AddrMode::Ind => "Indirect"@,
        AddrMode::IndX => "Idx Indirect"@,
        AddrMode::IndY => "Indirect Idx"@,
        AddrMode::Rel => "Relative"@,
        AddrMode::ZeroPage => "ZPG"@,
        AddrMode::ZeroPageX => "ZPG, X"@,
        AddrMode::ZeroPageY => "ZPG, Y"@,
        AddrMode::Unsupported => "???"@,
    }
}

/// Spell out an addressing mode for display.
pub fn addr_mode_str(addr_mode: AddrMode) -> (r: String)
    ensures
        r@ == spec_addr_mode_label(addr_mode),
{
    let label: &str = match addr_mode {
        AddrMode::Abs => "Abs",
        AddrMode::AbsX => "Abs, X",
        AddrMode::AbsY => "Abs, Y",
        AddrMode::Accumulator => "Acc",
        AddrMode::Immediate => "Imm",
        AddrMode::Impl => "Implied",
        AddrMode::Ind => "Indirect",
        AddrMode::IndX => "Idx Indirect",
        AddrMode::IndY => "Indirect Idx",
        AddrMode::Rel => "Relative",
        AddrMode::ZeroPage => "ZPG",
        AddrMode::ZeroPageX => "ZPG, X",
        AddrMode::ZeroPageY => "ZPG, Y",
        AddrMode::Unsupported => "???",
    };
    label.to_string()
}

impl Instruction {
    /// Decode the instruction the given processor's program counter
    /// points at.
    pub fn new(cpu: &Cpu) -> (r: Instruction)
        ensures
            r.opcode == mem_read(cpu@.mem, cpu@.pc),
            r.name@ == spec_instruction_name(r.opcode),
            r.addr_mode@ == spec_addr_mode_label(spec_addr_mode(r.opcode)),
            r.assembly@ == r.name@,
    {
        let next_instruction = cpu.memory.read_byte(cpu.pc);
        let name_and_desc = instruction_name_and_description(next_instruction);
        let addr_mode = addr_mode_str(get_addr_mode(next_instruction));
        Instruction {
            name: name_and_desc.0,
            description: name_and_desc.1,
            opcode: next_instruction,
            addr_mode,
            assembly: name_and_desc.0.to_string(),
        }
    }
}

} // verus!
