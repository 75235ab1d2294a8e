use vstd::prelude::*;
use crate::addressing_mode::{spec_addr_mode, AddrMode};
use crate::errors::EmuError;
use crate::memory::{mem_read, mem_read_word, mem_read_word_in_page, mem_write};
use crate::stack::{stack_pop, stack_push};
use crate::status_register::{spec_status_byte, spec_status_from_byte, StatusRegister};
use crate::word::{bit6, bit7, wrap16, wrap8};

verus! {

/// The complete architectural state of the machine: the register file, the
/// status flags, the stack pointer, every byte of memory, and the two
/// interrupt request lines. Each instruction is specified as a function on
/// this state.
#[verifier::ext_equal]
pub ghost struct CpuView {
    pub a: u8,
    pub x: u8,
    pub y: u8,
    pub pc: u16,
    pub sp: u8,
    pub sr: StatusRegister,
    pub mem: Seq<u8>,
    pub irq_line: bool,
    pub nmi_pending: bool,
}

/// The outcome of one step: a documented instruction (or interrupt entry)
/// with the machine state it leaves and the cycles it costs, or an
/// undocumented opcode with the state as of right after the opcode fetch.
pub ghost enum StepResult {
    Step(CpuView, u8),
    Illegal(CpuView, EmuError),
}

/// A status register with Z and N set from a freshly written value.
pub open spec fn with_zn(sr: StatusRegister, v: u8) -> StatusRegister {
    StatusRegister { zero: v == 0, negative: bit7(v), ..sr }
}

/// How many operand bytes an addressing mode consumes from the
/// instruction stream.
pub open spec fn operand_len(mode: AddrMode) -> int {
    match mode {
        AddrMode::Impl | AddrMode::Accumulator | AddrMode::Unsupported => 0,
        AddrMode::Immediate | AddrMode::Rel | AddrMode::ZeroPage | AddrMode::ZeroPageX
        | AddrMode::ZeroPageY | AddrMode::IndX | AddrMode::IndY => 1,
        AddrMode::Abs | AddrMode::AbsX | AddrMode::AbsY | AddrMode::Ind => 2,
    }
}

/// The state once the operand bytes are consumed: the program counter has
/// moved past them.
pub open spec fn after_operand(s: CpuView, mode: AddrMode) -> CpuView {
    CpuView { pc: wrap16(s.pc + operand_len(mode)), ..s }
}

/// The effective address an instruction reads or writes, given the state
/// at the first operand byte. Zero-page indexing wraps within the zero
/// page; absolute indexing wraps at the top of memory; indirect pointer
/// reads never cross a page for their high byte.
pub open spec fn effective_addr(s: CpuView, mode: AddrMode) -> u16 {
    match mode {
        AddrMode::ZeroPage => mem_read(s.mem, s.pc) as u16,
        AddrMode::ZeroPageX => wrap8(mem_read(s.mem, s.pc) + s.x) as u16,
        AddrMode::ZeroPageY => wrap8(mem_read(s.mem, s.pc) + s.y) as u16,
        AddrMode::Abs => mem_read_word(s.mem, s.pc),
        AddrMode::AbsX => wrap16(mem_read_word(s.mem, s.pc) + s.x),
        AddrMode::AbsY => wrap16(mem_read_word(s.mem, s.pc) + s.y),
        AddrMode::Ind => mem_read_word_in_page(s.mem, mem_read_word(s.mem, s.pc)),
        AddrMode::IndX => mem_read_word_in_page(
            s.mem,
            wrap8(mem_read(s.mem, s.pc) + s.x) as u16,
        ),
        AddrMode::IndY => wrap16(
            mem_read_word_in_page(s.mem, mem_read(s.mem, s.pc) as u16) + s.y,
        ),
        _ => 0,
    }
}

/// Whether indexing moved the effective address into a different 256-byte
/// page than its base; only the three indexed modes that can cross pay an
/// extra cycle on read instructions.
pub open spec fn page_crossed(s: CpuView, mode: AddrMode) -> bool {
    match mode {
        AddrMode::AbsX => mem_read_word(s.mem, s.pc) / 0x100 != effective_addr(s, mode) / 0x100,
        AddrMode::AbsY => mem_read_word(s.mem, s.pc) / 0x100 != effective_addr(s, mode) / 0x100,
        AddrMode::IndY => mem_read_word_in_page(s.mem, mem_read(s.mem, s.pc) as u16) / 0x100
            != effective_addr(s, mode) / 0x100,
        _ => false,
    }
}

/// The byte an instruction operates on: the immediate operand itself, or
/// the byte at the effective address.
pub open spec fn operand_value(s: CpuView, mode: AddrMode) -> u8 {
    if mode is Immediate {
        mem_read(s.mem, s.pc)
    } else {
        mem_read(s.mem, effective_addr(s, mode))
    }
}

/// Base cycles of the read instructions (loads, logic, arithmetic,
/// compares), including the extra cycle on a crossed page.
pub open spec fn read_cycles(s: CpuView, mode: AddrMode) -> u8 {
    match mode {
        AddrMode::Immediate => 2,
        AddrMode::ZeroPage => 3,
        AddrMode::ZeroPageX | AddrMode::ZeroPageY => 4,
        AddrMode::Abs => 4,
        AddrMode::AbsX | AddrMode::AbsY => if page_crossed(s, mode) { 5 } else { 4 },
        AddrMode::IndX => 6,
        AddrMode::IndY => if page_crossed(s, mode) { 6 } else { 5 },
        _ => 0,
    }
}

/// Cycles of the store instructions: always the worst case, never a
/// page-cross penalty.
pub open spec fn store_cycles(mode: AddrMode) -> u8 {
    match mode {
        AddrMode::ZeroPage => 3,
        AddrMode::ZeroPageX | AddrMode::ZeroPageY => 4,
        AddrMode::Abs => 4,
        AddrMode::AbsX | AddrMode::AbsY => 5,
        AddrMode::IndX | AddrMode::IndY => 6,
        _ => 0,
    }
}

/// Cycles of the read-modify-write instructions (shifts, rotates,
/// increment and decrement on memory).
pub open spec fn rmw_cycles(mode: AddrMode) -> u8 {
    match mode {
        AddrMode::ZeroPage => 5,
        AddrMode::ZeroPageX => 6,
        AddrMode::Abs => 6,
        AddrMode::AbsX => 7,
        _ => 0,
    }
}

/// 1 for a set carry, 0 for a clear one.
pub open spec fn carry_in(c: bool) -> int {
    if c { 1 } else { 0 }
}

/// The accumulator after a binary-mode add with carry.
pub open spec fn adc_bin_value(a: u8, m: u8, c: bool) -> u8 {
    wrap8(a + m + carry_in(c))
}

/// The carry out of a binary-mode add with carry.
pub open spec fn adc_bin_carry(a: u8, m: u8, c: bool) -> bool {
    a + m + carry_in(c) > 0xFF
}

/// Signed overflow of an add: the operands agree in sign and the result
/// does not.
pub open spec fn adc_overflow(a: u8, m: u8, r: u8) -> bool {
    bit7(a) == bit7(m) && bit7(a) != bit7(r)
}

/// The low-nibble sum of a decimal-mode add, before adjustment.
pub open spec fn adc_dec_lo(a: u8, m: u8, c: bool) -> int {
    a % 16 + m % 16 + carry_in(c)
}

/// The high-nibble sum of a decimal-mode add, before adjustment.
pub open spec fn adc_dec_hi(a: u8, m: u8, c: bool) -> int {
    a / 16 + m / 16 + (if adc_dec_lo(a, m, c) > 9 { 1int } else { 0int })
}

/// The accumulator after a decimal-mode add with carry: each nibble is a
/// decimal digit, adjusted by six when it passes nine.
pub open spec fn adc_dec_value(a: u8, m: u8, c: bool) -> u8 {
    let lo = adc_dec_lo(a, m, c);
    let lo2 = if lo > 9 { lo + 6 } else { lo };
    let hi = adc_dec_hi(a, m, c);
    let hi2 = if hi > 9 { hi + 6 } else { hi };
    (hi2 % 16 * 16 + lo2 % 16) as u8
}

/// The carry out of a decimal-mode add: the sum passed 99.
pub open spec fn adc_dec_carry(a: u8, m: u8, c: bool) -> bool {
    adc_dec_hi(a, m, c) > 9
}

/// The accumulator after a decimal-mode subtract with borrow.
pub open spec fn sbc_dec_value(a: u8, m: u8, c: bool) -> u8 {
    let borrow: int = if c { 0 } else { 1 };
    let lo = a % 16 - m % 16 - borrow;
    let lo2 = if lo < 0 { lo - 6 } else { lo };
    let hi = a / 16 - m / 16 - (if lo < 0 { 1int } else { 0int });
    let hi2 = if hi < 0 { hi - 6 } else { hi };
    (hi2 % 16 * 16 + lo2 % 16) as u8
}

/// The status register after a compare of a register with a byte: carry
/// when the register is at least the byte, zero on equality, negative from
/// bit 7 of the wrapping difference.
pub open spec fn compare_sr(sr: StatusRegister, reg: u8, m: u8) -> StatusRegister {
    StatusRegister {
        carry: reg >= m,
        zero: reg == m,
        negative: bit7(wrap8(reg - m)),
        ..sr
    }
}

/// A byte shifted left; the old bit 7 is the carry out.
pub open spec fn asl_value(v: u8) -> u8 {
    wrap8(v * 2)
}

/// A byte shifted right; the old bit 0 is the carry out.
pub open spec fn lsr_value(v: u8) -> u8 {
    v / 2
}

/// A byte rotated left through the carry.
pub open spec fn rol_value(v: u8, c: bool) -> u8 {
    wrap8(v * 2 + carry_in(c))
}

/// A byte rotated right through the carry.
pub open spec fn ror_value(v: u8, c: bool) -> u8 {
    (v / 2 + carry_in(c) * 0x80) as u8
}

// ---------------------------------------------------------------------
// One spec function per instruction. Each takes the state right after the
// opcode fetch (the program counter names the first operand byte) and
// yields the state after the instruction together with its cycle count.
// ---------------------------------------------------------------------

/// LDA: load the accumulator, setting Z and N.
pub open spec fn lda_step(s: CpuView, mode: AddrMode) -> (CpuView, u8) {
    let v = operand_value(s, mode);
    (CpuView { a: v, sr: with_zn(s.sr, v), ..after_operand(s, mode) }, read_cycles(s, mode))
}

/// LDX: load the X register, setting Z and N.
pub open spec fn ldx_step(s: CpuView, mode: AddrMode) -> (CpuView, u8) {
    let v = operand_value(s, mode);
    (CpuView { x: v, sr: with_zn(s.sr, v), ..after_operand(s, mode) }, read_cycles(s, mode))
}

/// LDY: load the Y register, setting Z and N.
pub open spec fn ldy_step(s: CpuView, mode: AddrMode) -> (CpuView, u8) {
    let v = operand_value(s, mode);
    (CpuView { y: v, sr: with_zn(s.sr, v), ..after_operand(s, mode) }, read_cycles(s, mode))
}

/// STA: store the accumulator; no flag changes.
pub open spec fn sta_step(s: CpuView, mode: AddrMode) -> (CpuView, u8) {
    (
        CpuView {
            mem: mem_write(s.mem, effective_addr(s, mode), s.a),
            ..after_operand(s, mode)
        },
        store_cycles(mode),
    )
}

/// STX: store the X register; no flag changes.
pub open spec fn stx_step(s: CpuView, mode: AddrMode) -> (CpuView, u8) {
    (
        CpuView {
            mem: mem_write(s.mem, effective_addr(s, mode), s.x),
            ..after_operand(s, mode)
        },
        store_cycles(mode),
    )
}

/// STY: store the Y register; no flag changes.
pub open spec fn sty_step(s: CpuView, mode: AddrMode) -> (CpuView, u8) {
    (
        CpuView {
            mem: mem_write(s.mem, effective_addr(s, mode), s.y),
            ..after_operand(s, mode)
        },
        store_cycles(mode),
    )
}

/// AND: accumulator bitwise-and operand, setting Z and N.
pub open spec fn and_step(s: CpuView, mode: AddrMode) -> (CpuView, u8) {
    let v = s.a & operand_value(s, mode);
    (CpuView { a: v, sr: with_zn(s.sr, v), ..after_operand(s, mode) }, read_cycles(s, mode))
}

/// ORA: accumulator bitwise-or operand, setting Z and N.
pub open spec fn ora_step(s: CpuView, mode: AddrMode) -> (CpuView, u8) {
    let v = s.a | operand_value(s, mode);
    (CpuView { a: v, sr: with_zn(s.sr, v), ..after_operand(s, mode) }, read_cycles(s, mode))
}

/// EOR: accumulator bitwise-xor operand, setting Z and N.
pub open spec fn eor_step(s: CpuView, mode: AddrMode) -> (CpuView, u8) {
    let v = s.a ^ operand_value(s, mode);
    (CpuView { a: v, sr: with_zn(s.sr, v), ..after_operand(s, mode) }, read_cycles(s, mode))
}

/// ADC: add the operand and the carry to the accumulator. In decimal mode
/// the accumulator and the carry take the binary-coded-decimal result while
/// N, V and Z are still set from the binary computation — the documented
/// choice of this implementation for the flag behaviour the NMOS hardware
/// leaves open.
pub open spec fn adc_step(s: CpuView, mode: AddrMode) -> (CpuView, u8) {
    let v = operand_value(s, mode);
    let bin = adc_bin_value(s.a, v, s.sr.carry);
    let a2 = if s.sr.decimal { adc_dec_value(s.a, v, s.sr.carry) } else { bin };
    let c2 = if s.sr.decimal { adc_dec_carry(s.a, v, s.sr.carry) } else {
        adc_bin_carry(s.a, v, s.sr.carry)
    };
    let sr2 = StatusRegister {
        carry: c2,
        overflow: adc_overflow(s.a, v, bin),
        ..with_zn(s.sr, bin)
    };
    (CpuView { a: a2, sr: sr2, ..after_operand(s, mode) }, read_cycles(s, mode))
}

/// SBC: subtract the operand and the borrow from the accumulator; in
/// binary mode this is exactly ADC of the operand's complement. The carry
/// is the binary borrow-complement in both modes; in decimal mode the
/// accumulator takes the binary-coded-decimal difference while N, V and Z
/// come from the binary computation, as for ADC.
pub open spec fn sbc_step(s: CpuView, mode: AddrMode) -> (CpuView, u8) {
    let v = operand_value(s, mode);
    let vc = (0xFF - v) as u8;
    let bin = adc_bin_value(s.a, vc, s.sr.carry);
    let a2 = if s.sr.decimal { sbc_dec_value(s.a, v, s.sr.carry) } else { bin };
    let sr2 = StatusRegister {
        carry: adc_bin_carry(s.a, vc, s.sr.carry),
        overflow: adc_overflow(s.a, vc, bin),
        ..with_zn(s.sr, bin)
    };
    (CpuView { a: a2, sr: sr2, ..after_operand(s, mode) }, read_cycles(s, mode))
}

/// CMP: compare the accumulator with the operand.
pub open spec fn cmp_step(s: CpuView, mode: AddrMode) -> (CpuView, u8) {
    (
        CpuView { sr: compare_sr(s.sr, s.a, operand_value(s, mode)), ..after_operand(s, mode) },
        read_cycles(s, mode),
    )
}

/// CPX: compare the X register with the operand.
pub open spec fn cpx_step(s: CpuView, mode: AddrMode) -> (CpuView, u8) {
    (
        CpuView { sr: compare_sr(s.sr, s.x, operand_value(s, mode)), ..after_operand(s, mode) },
        read_cycles(s, mode),
    )
}

/// CPY: compare the Y register with the operand.
pub open spec fn cpy_step(s: CpuView, mode: AddrMode) -> (CpuView, u8) {
    (
        CpuView { sr: compare_sr(s.sr, s.y, operand_value(s, mode)), ..after_operand(s, mode) },
        read_cycles(s, mode),
    )
}

/// BIT: Z from accumulator-and-memory, N and V copied from bits 7 and 6 of
/// the memory byte.
pub open spec fn bit_step(s: CpuView, mode: AddrMode) -> (CpuView, u8) {
    let v = operand_value(s, mode);
    let sr2 = StatusRegister {
        negative: bit7(v),
        overflow: bit6(v),
        zero: (v & s.a) == 0,
        ..s.sr
    };
    (CpuView { sr: sr2, ..after_operand(s, mode) }, read_cycles(s, mode))
}

/// A shift or rotate applied to the accumulator; two cycles.
pub open spec fn shift_acc_step(s: CpuView, r: u8, carry_out: bool) -> (CpuView, u8) {
    (
        CpuView { a: r, sr: StatusRegister { carry: carry_out, ..with_zn(s.sr, r) }, ..s },
        2,
    )
}

/// A shift or rotate applied in place to a memory byte.
pub open spec fn shift_mem_step(s: CpuView, mode: AddrMode, r: u8, carry_out: bool) -> (
    CpuView,
    u8,
) {
    (
        CpuView {
            mem: mem_write(s.mem, effective_addr(s, mode), r),
            sr: StatusRegister { carry: carry_out, ..with_zn(s.sr, r) },
            ..after_operand(s, mode)
        },
        rmw_cycles(mode),
    )
}

/// ASL on the accumulator.
pub open spec fn asl_acc_step(s: CpuView) -> (CpuView, u8) {
    shift_acc_step(s, asl_value(s.a), bit7(s.a))
}

/// LSR on the accumulator.
pub open spec fn lsr_acc_step(s: CpuView) -> (CpuView, u8) {
    shift_acc_step(s, lsr_value(s.a), s.a % 2 == 1)
}

/// ROL on the accumulator.
pub open spec fn rol_acc_step(s: CpuView) -> (CpuView, u8) {
    shift_acc_step(s, rol_value(s.a, s.sr.carry), bit7(s.a))
}

/// ROR on the accumulator.
pub open spec fn ror_acc_step(s: CpuView) -> (CpuView, u8) {
    shift_acc_step(s, ror_value(s.a, s.sr.carry), s.a % 2 == 1)
}

/// ASL on a memory byte.
pub open spec fn asl_mem_step(s: CpuView, mode: AddrMode) -> (CpuView, u8) {
    let v = operand_value(s, mode);
    shift_mem_step(s, mode, asl_value(v), bit7(v))
}

/// LSR on a memory byte.
pub open spec fn lsr_mem_step(s: CpuView, mode: AddrMode) -> (CpuView, u8) {
    let v = operand_value(s, mode);
    shift_mem_step(s, mode, lsr_value(v), v % 2 == 1)
}

/// ROL on a memory byte.
pub open spec fn rol_mem_step(s: CpuView, mode: AddrMode) -> (CpuView, u8) {
    let v = operand_value(s, mode);
    shift_mem_step(s, mode, rol_value(v, s.sr.carry), bit7(v))
}

/// ROR on a memory byte.
pub open spec fn ror_mem_step(s: CpuView, mode: AddrMode) -> (CpuView, u8) {
    let v = operand_value(s, mode);
    shift_mem_step(s, mode, ror_value(v, s.sr.carry), v % 2 == 1)
}

/// INC: increment a memory byte with 8-bit wrap, setting Z and N.
pub open spec fn inc_step(s: CpuView, mode: AddrMode) -> (CpuView, u8) {
    let r = wrap8(operand_value(s, mode) + 1);
    (
        CpuView {
            mem: mem_write(s.mem, effective_addr(s, mode), r),
            sr: with_zn(s.sr, r),
            ..after_operand(s, mode)
        },
        rmw_cycles(mode),
    )
}

/// DEC: decrement a memory byte with 8-bit wrap, setting Z and N.
pub open spec fn dec_step(s: CpuView, mode: AddrMode) -> (CpuView, u8) {
    let r = wrap8(operand_value(s, mode) - 1);
    (
        CpuView {
            mem: mem_write(s.mem, effective_addr(s, mode), r),
            sr: with_zn(s.sr, r),
            ..after_operand(s, mode)
        },
        rmw_cycles(mode),
    )
}

/// INX: increment the X register, setting Z and N.
pub open spec fn inx_step(s: CpuView) -> (CpuView, u8) {
    let r = wrap8(s.x + 1);
    (CpuView { x: r, sr: with_zn(s.sr, r), ..s }, 2)
}

/// INY: increment the Y register, setting Z and N.
pub open spec fn iny_step(s: CpuView) -> (CpuView, u8) {
    let r = wrap8(s.y + 1);
    (CpuView { y: r, sr: with_zn(s.sr, r), ..s }, 2)
}

/// DEX: decrement the X register, setting Z and N.
pub open spec fn dex_step(s: CpuView) -> (CpuView, u8) {
    let r = wrap8(s.x - 1);
    (CpuView { x: r, sr: with_zn(s.sr, r), ..s }, 2)
}

/// DEY: decrement the Y register, setting Z and N.
pub open spec fn dey_step(s: CpuView) -> (CpuView, u8) {
    let r = wrap8(s.y - 1);
    (CpuView { y: r, sr: with_zn(s.sr, r), ..s }, 2)
}

/// TAX: copy the accumulator to X, setting Z and N.
pub open spec fn tax_step(s: CpuView) -> (CpuView, u8) {
    (CpuView { x: s.a, sr: with_zn(s.sr, s.a), ..s }, 2)
}

/// TAY: copy the accumulator to Y, setting Z and N.
pub open spec fn tay_step(s: CpuView) -> (CpuView, u8) {
    (CpuView { y: s.a, sr: with_zn(s.sr, s.a), ..s }, 2)
}

/// TSX: copy the stack pointer to X, setting Z and N.
pub open spec fn tsx_step(s: CpuView) -> (CpuView, u8) {
    (CpuView { x: s.sp, sr: with_zn(s.sr, s.sp), ..s }, 2)
}

/// TXA: copy X to the accumulator, setting Z and N.
pub open spec fn txa_step(s: CpuView) -> (CpuView, u8) {
    (CpuView { a: s.x, sr: with_zn(s.sr, s.x), ..s }, 2)
}

/// TXS: copy X to the stack pointer; no flags change.
pub open spec fn txs_step(s: CpuView) -> (CpuView, u8) {
    (CpuView { sp: s.x, ..s }, 2)
}

/// TYA: copy Y to the accumulator, setting Z and N.
pub open spec fn tya_step(s: CpuView) -> (CpuView, u8) {
    (CpuView { a: s.y, sr: with_zn(s.sr, s.y), ..s }, 2)
}

/// PHA: push the accumulator.
pub open spec fn pha_step(s: CpuView) -> (CpuView, u8) {
    let (m1, sp1) = stack_push(s.mem, s.sp, s.a);
    (CpuView { mem: m1, sp: sp1, ..s }, 3)
}

/// PHP: push the packed status byte with the B bit set.
pub open spec fn php_step(s: CpuView) -> (CpuView, u8) {
    let b = spec_status_byte(StatusRegister { brk: true, ..s.sr });
    let (m1, sp1) = stack_push(s.mem, s.sp, b);
    (CpuView { mem: m1, sp: sp1, ..s }, 3)
}

/// PLA: pull the accumulator, setting Z and N.
pub open spec fn pla_step(s: CpuView) -> (CpuView, u8) {
    let (v, sp1) = stack_pop(s.mem, s.sp);
    (CpuView { a: v, sp: sp1, sr: with_zn(s.sr, v), ..s }, 4)
}

/// PLP: pull the status byte and restore every flag from it except B,
/// which is kept at false in the register proper.
pub open spec fn plp_step(s: CpuView) -> (CpuView, u8) {
    let (v, sp1) = stack_pop(s.mem, s.sp);
    (
        CpuView { sp: sp1, sr: StatusRegister { brk: false, ..spec_status_from_byte(v) }, ..s },
        4,
    )
}

/// The condition a branch opcode tests.
pub open spec fn branch_cond(sr: StatusRegister, op: u8) -> bool {
    match op {
        0x90 => !sr.carry,
        0xB0 => sr.carry,
        0xF0 => sr.zero,
        0xD0 => !sr.zero,
        0x30 => sr.negative,
        0x10 => !sr.negative,
        0x50 => !sr.overflow,
        0x70 => sr.overflow,
        _ => false,
    }
}

/// The target of a taken branch: the program counter past the offset byte,
/// moved by the signed 8-bit offset, wrapping at the address-space ends.
pub open spec fn branch_target(pc: u16, off: u8) -> u16 {
    wrap16(pc + off - (if off >= 0x80 { 0x100int } else { 0int }))
}

/// A conditional branch: two cycles when not taken, one more when taken,
/// and another when the target lies in a different page than the
/// instruction's end.
pub open spec fn branch_step(s: CpuView, op: u8) -> (CpuView, u8) {
    let off = mem_read(s.mem, s.pc);
    let s1 = CpuView { pc: wrap16(s.pc + 1), ..s };
    if !branch_cond(s.sr, op) {
        (s1, 2)
    } else {
        let t = branch_target(s1.pc, off);
        (CpuView { pc: t, ..s1 }, if t / 0x100 != s1.pc / 0x100 { 4 } else { 3 })
    }
}

/// JMP: absolute loads the operand word; indirect reads the target through
/// the operand pointer, honouring the page-wrapped vector read.
pub open spec fn jmp_step(s: CpuView, mode: AddrMode) -> (CpuView, u8) {
    (
        CpuView { pc: effective_addr(s, mode), ..s },
        if mode is Abs { 3 } else { 5 },
    )
}

/// JSR: push the address of the last operand byte (the return address
/// minus one), then jump to the operand word.
pub open spec fn jsr_step(s: CpuView) -> (CpuView, u8) {
    let target = mem_read_word(s.mem, s.pc);
    let ret = wrap16(s.pc + 1);
    let (m1, sp1) = stack_push(s.mem, s.sp, (ret / 0x100) as u8);
    let (m2, sp2) = stack_push(m1, sp1, wrap8(ret as int));
    (CpuView { pc: target, sp: sp2, mem: m2, ..s }, 6)
}

/// RTS: pop the return word and resume one byte past it.
pub open spec fn rts_step(s: CpuView) -> (CpuView, u8) {
    let (lo, sp1) = stack_pop(s.mem, s.sp);
    let (hi, sp2) = stack_pop(s.mem, sp1);
    (CpuView { pc: wrap16(crate::word::word16(lo, hi) + 1), sp: sp2, ..s }, 6)
}

/// RTI: pop the status byte (B ignored, kept false), then pop the return
/// address; no one is added to it.
pub open spec fn rti_step(s: CpuView) -> (CpuView, u8) {
    let (v, sp1) = stack_pop(s.mem, s.sp);
    let (lo, sp2) = stack_pop(s.mem, sp1);
    let (hi, sp3) = stack_pop(s.mem, sp2);
    (
        CpuView {
            sr: StatusRegister { brk: false, ..spec_status_from_byte(v) },
            pc: crate::word::word16(lo, hi),
            sp: sp3,
            ..s
        },
        6,
    )
}

/// BRK: skip the signature byte, push that return address and the status
/// byte with B set, raise the interrupt-disable flag, and vector through
/// 0xFFFE.
pub open spec fn brk_step(s: CpuView) -> (CpuView, u8) {
    let ret = wrap16(s.pc + 1);
    let (m1, sp1) = stack_push(s.mem, s.sp, (ret / 0x100) as u8);
    let (m2, sp2) = stack_push(m1, sp1, wrap8(ret as int));
    let b = spec_status_byte(StatusRegister { brk: true, ..s.sr });
    let (m3, sp3) = stack_push(m2, sp2, b);
    (
        CpuView {
            pc: mem_read_word(m3, 0xFFFE),
            sp: sp3,
            mem: m3,
            sr: StatusRegister { interrupt_disable: true, ..s.sr },
            ..s
        },
        7,
    )
}

/// Entry into an interrupt handler: push the program counter and the
/// status byte with B clear, raise the interrupt-disable flag, and load
/// the program counter from the vector. Costs seven cycles.
pub open spec fn interrupt_entry(s: CpuView, vector: u16, clear_nmi: bool) -> CpuView {
    let (m1, sp1) = stack_push(s.mem, s.sp, (s.pc / 0x100) as u8);
    let (m2, sp2) = stack_push(m1, sp1, wrap8(s.pc as int));
    let b = spec_status_byte(StatusRegister { brk: false, ..s.sr });
    let (m3, sp3) = stack_push(m2, sp2, b);
    CpuView {
        pc: mem_read_word(m3, vector),
        sp: sp3,
        mem: m3,
        sr: StatusRegister { interrupt_disable: true, ..s.sr },
        nmi_pending: if clear_nmi { false } else { s.nmi_pending },
        ..s
    }
}

/// Reset: stack pointer to its post-reset value, interrupt-disable raised,
/// program counter loaded from the reset vector; the other flags,
/// registers and all of memory are left as they are.
pub open spec fn reset_spec(s: CpuView) -> CpuView {
    CpuView {
        sp: 0xFD,
        sr: StatusRegister { interrupt_disable: true, ..s.sr },
        pc: mem_read_word(s.mem, 0xFFFC),
        ..s
    }
}

/// The effect of one documented opcode on the state after the opcode
/// fetch, or nothing for an undocumented opcode.
pub open spec fn instr_step(s: CpuView, op: u8) -> Option<(CpuView, u8)> {
    match op {
        0x00 => Option::Some(brk_step(s)),
        0x18 => Option::Some((CpuView { sr: StatusRegister { carry: false, ..s.sr }, ..s }, 2)),
        0x38 => Option::Some((CpuView { sr: StatusRegister { carry: true, ..s.sr }, ..s }, 2)),
        0xD8 => Option::Some((CpuView { sr: StatusRegister { decimal: false, ..s.sr }, ..s }, 2)),
        0xF8 => Option::Some((CpuView { sr: StatusRegister { decimal: true, ..s.sr }, ..s }, 2)),
        0x58 => Option::Some((
            CpuView { sr: StatusRegister { interrupt_disable: false, ..s.sr }, ..s },
            2,
        )),
        0x78 => Option::Some((
            CpuView { sr: StatusRegister { interrupt_disable: true, ..s.sr }, ..s },
            2,
        )),
        0xB8 => Option::Some((CpuView { sr: StatusRegister { overflow: false, ..s.sr }, ..s }, 2)),
        0xEA => Option::Some((s, 2)),
        0xC8 => Option::Some(iny_step(s)),
        0xE8 => Option::Some(inx_step(s)),
        0xCA => Option::Some(dex_step(s)),
        0x88 => Option::Some(dey_step(s)),
        0xA9 | 0xA5 | 0xB5 | 0xAD | 0xBD | 0xB9 | 0xA1 | 0xB1 => Option::Some(
            lda_step(s, spec_addr_mode(op)),
        ),
        0xA2 | 0xA6 | 0xB6 | 0xAE | 0xBE => Option::Some(ldx_step(s, spec_addr_mode(op))),
        0xA0 | 0xA4 | 0xB4 | 0xAC | 0xBC => Option::Some(ldy_step(s, spec_addr_mode(op))),
        0x4A => Option::Some(lsr_acc_step(s)),
        0x46 | 0x56 | 0x4E | 0x5E => Option::Some(lsr_mem_step(s, spec_addr_mode(op))),
        0x09 | 0x05 | 0x15 | 0x0D | 0x1D | 0x19 | 0x01 | 0x11 => Option::Some(
            ora_step(s, spec_addr_mode(op)),
        ),
        0x48 => Option::Some(pha_step(s)),
        0x08 => Option::Some(php_step(s)),
        0x68 => Option::Some(pla_step(s)),
        0x28 => Option::Some(plp_step(s)),
        0x2A => Option::Some(rol_acc_step(s)),
        0x26 | 0x36 | 0x2E | 0x3E => Option::Some(rol_mem_step(s, spec_addr_mode(op))),
        0x0A => Option::Some(asl_acc_step(s)),
        0x06 | 0x16 | 0x0E | 0x1E => Option::Some(asl_mem_step(s, spec_addr_mode(op))),
        0x6A => Option::Some(ror_acc_step(s)),
        0x66 | 0x76 | 0x6E | 0x7E => Option::Some(ror_mem_step(s, spec_addr_mode(op))),
        0x85 | 0x95 | 0x8D | 0x9D | 0x99 | 0x81 | 0x91 => Option::Some(
            sta_step(s, spec_addr_mode(op)),
        ),
        0x86 | 0x96 | 0x8E => Option::Some(stx_step(s, spec_addr_mode(op))),
        0x84 | 0x94 | 0x8C => Option::Some(sty_step(s, spec_addr_mode(op))),
        0xAA => Option::Some(tax_step(s)),
        0xA8 => Option::Some(tay_step(s)),
        0xBA => Option::Some(tsx_step(s)),
        0x8A => Option::Some(txa_step(s)),
        0x9A => Option::Some(txs_step(s)),
        0x98 => Option::Some(tya_step(s)),
        0x69 | 0x65 | 0x75 | 0x6D | 0x7D | 0x79 | 0x61 | 0x71 => Option::Some(
            adc_step(s, spec_addr_mode(op)),
        ),
        0xE9 | 0xE5 | 0xF5 | 0xED | 0xFD | 0xF9 | 0xE1 | 0xF1 => Option::Some(
            sbc_step(s, spec_addr_mode(op)),
        ),
        0x29 | 0x25 | 0x35 | 0x2D | 0x3D | 0x39 | 0x21 | 0x31 => Option::Some(
            and_step(s, spec_addr_mode(op)),
        ),
        0x49 | 0x45 | 0x55 | 0x4D | 0x5D | 0x59 | 0x41 | 0x51 => Option::Some(
            eor_step(s, spec_addr_mode(op)),
        ),
        0x90 | 0xB0 | 0xF0 | 0x30 | 0xD0 | 0x10 | 0x50 | 0x70 => Option::Some(
            branch_step(s, op),
        ),
        0x24 | 0x2C => Option::Some(bit_step(s, spec_addr_mode(op))),
        0x20 => Option::Some(jsr_step(s)),
        0x4C | 0x6C => Option::Some(jmp_step(s, spec_addr_mode(op))),
        0x60 => Option::Some(rts_step(s)),
        0x40 => Option::Some(rti_step(s)),
        0xC9 | 0xC5 | 0xD5 | 0xCD | 0xDD | 0xD9 | 0xC1 | 0xD1 => Option::Some(
            cmp_step(s, spec_addr_mode(op)),
        ),
        0xE0 | 0xE4 | 0xEC => Option::Some(cpx_step(s, spec_addr_mode(op))),
        0xC0 | 0xC4 | 0xCC => Option::Some(cpy_step(s, spec_addr_mode(op))),
        0xC6 | 0xD6 | 0xCE | 0xDE => Option::Some(dec_step(s, spec_addr_mode(op))),
        0xE6 | 0xF6 | 0xEE | 0xFE => Option::Some(inc_step(s, spec_addr_mode(op))),
        _ => Option::None,
    }
}

/// Every instruction that sets Z and N from a written value does so
/// through one flag update, and that update makes Z true exactly when the
/// value is zero and N exactly its bit 7, leaving the other flags alone.
pub proof fn lemma_zero_negative_flags(sr: StatusRegister, v: u8)
    ensures
        with_zn(sr, v).zero == (v == 0),
        with_zn(sr, v).negative == bit7(v),
        with_zn(sr, v).carry == sr.carry,
        with_zn(sr, v).overflow == sr.overflow,
        with_zn(sr, v).brk == sr.brk,
        with_zn(sr, v).decimal == sr.decimal,
        with_zn(sr, v).interrupt_disable == sr.interrupt_disable,
{
}

/// The compares draw Z and N from the wrapping difference: Z is true
/// exactly when the difference is zero (that is, when the operands are
/// equal), and N is its bit 7.
pub proof fn lemma_compare_flags(sr: StatusRegister, reg: u8, m: u8)
    ensures
        compare_sr(sr, reg, m).zero == (wrap8(reg - m) == 0),
        compare_sr(sr, reg, m).negative == bit7(wrap8(reg - m)),
{
    if reg >= m {
        vstd::arithmetic::div_mod::lemma_small_mod((reg - m) as nat, 0x100);
    } else {
        vstd::arithmetic::div_mod::lemma_mod_add_multiples_vanish(reg - m, 0x100);
        vstd::arithmetic::div_mod::lemma_small_mod((reg - m + 0x100) as nat, 0x100);
    }
}

/// In binary mode, SBC of the complemented operand is exactly ADC of the
/// operand: starting from equal registers and flags, with one state's
/// immediate operand the bitwise complement of the other's, ADC in the
/// first and SBC in the second leave identical accumulators and flags.
pub proof fn lemma_adc_sbc_relation(s: CpuView, t: CpuView)
    requires
        !s.sr.decimal,
        t.a == s.a,
        t.sr == s.sr,
        mem_read(t.mem, t.pc) == mem_read(s.mem, s.pc) ^ 0xFF,
    ensures
        adc_step(s, AddrMode::Immediate).0.a == sbc_step(t, AddrMode::Immediate).0.a,
        adc_step(s, AddrMode::Immediate).0.sr == sbc_step(t, AddrMode::Immediate).0.sr,
{
    let m = mem_read(s.mem, s.pc);
    let n = mem_read(t.mem, t.pc);
    assert(0xFF - n == m) by (bit_vector)
        requires
            n == m ^ 0xFF,
    ;
}

/// The addressing-mode decoder and the dispatcher agree on the documented
/// instruction set: an opcode decodes to the `Unsupported` marker exactly
/// when no instruction is specified for it.
pub proof fn lemma_decoder_dispatch_agree(s: CpuView)
    ensures
        forall|op: u8| (spec_addr_mode(op) is Unsupported) <==> (instr_step(s, op) is None),
{
}

/// One full step of the machine: a pending non-maskable interrupt is
/// serviced first; otherwise a level-asserted interrupt request is
/// serviced when the interrupt-disable flag allows; otherwise the opcode
/// at the program counter is fetched and executed.
pub open spec fn step_spec(s: CpuView) -> StepResult {
    if s.nmi_pending {
        StepResult::Step(interrupt_entry(s, 0xFFFA, true), 7)
    } else if s.irq_line && !s.sr.interrupt_disable {
        StepResult::Step(interrupt_entry(s, 0xFFFE, false), 7)
    } else {
        let op = mem_read(s.mem, s.pc);
        let s1 = CpuView { pc: wrap16(s.pc + 1), ..s };
        match instr_step(s1, op) {
            Option::Some(r) => StepResult::Step(r.0, r.1),
            Option::None => StepResult::Illegal(
                s1,
                EmuError::UnknownOpcode { opcode: op, pc: s.pc },
            ),
        }
    }
}

} // verus!
