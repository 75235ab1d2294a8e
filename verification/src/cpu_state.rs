use vstd::prelude::*;
use crate::cpu::Cpu;
use crate::memory::mem_read;
use crate::model::CpuView;

verus! {

/// A snapshot of the processor for display: the register file, the flags,
/// a cycle counter the host accumulates, and the opcode the program
/// counter points at.
#[derive(Clone, Copy, Debug, PartialEq, Eq, Structural)]
pub struct CpuState {
    /// Accumulator register
    pub a: u8,
    /// X register
    pub x: u8,
    /// Y register
    pub y: u8,
    /// Stack pointer
    pub sp: u8,
    /// Program counter
    pub pc: u16,
    /// Negative flag
    pub negative: bool,
    /// Overflow flag
    pub overflow: bool,
    /// Break flag
    pub brk: bool,
    /// Decimal flag
    pub decimal: bool,
    /// Interrupt disable flag
    pub interrupt_disable: bool,
    /// Zero flag
    pub zero: bool,
    /// Carry flag
    pub carry: bool,
    /// Number of cycles used, as accumulated by the host
    pub cycles: u32,
    /// The opcode the program counter points at
    pub next_instruction: u8,
}

/// The snapshot a machine state yields, with the cycle counter at zero.
pub open spec fn spec_cpu_state(s: CpuView) -> CpuState {
    CpuState {
        a: s.a,
        x: s.x,
        y: s.y,
        sp: s.sp,
        pc: s.pc,
        negative: s.sr.negative,
        overflow: s.sr.overflow,
        brk: s.sr.brk,
        decimal: s.sr.decimal,
        interrupt_disable: s.sr.interrupt_disable,
        zero: s.sr.zero,
        carry: s.sr.carry,
        cycles: 0,
        next_instruction: mem_read(s.mem, s.pc),
    }
}

impl CpuState {
    /// Snapshot the given processor.
    pub fn new(cpu: &Cpu) -> (r: CpuState)
        ensures
            r == spec_cpu_state(cpu@),
    {
        CpuState {
            a: cpu.a,
            x: cpu.x,
            y: cpu.y,
            sp: cpu.stack.get_sp(),
            pc: cpu.pc,
            negative: cpu.sr.get_negative(),
            overflow: cpu.sr.get_overflow(),
            brk: cpu.sr.get_brk(),
            decimal: cpu.sr.get_decimal(),
            interrupt_disable: cpu.sr.get_interrupt_disable(),
            zero: cpu.sr.get_zero(),
            carry: cpu.sr.get_carry(),
            cycles: 0,
            next_instruction: cpu.memory.read_byte(cpu.pc),
        }
    }
}

} // verus!
