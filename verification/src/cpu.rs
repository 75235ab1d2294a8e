use vstd::prelude::*;
use crate::addressing_mode::{get_addr_mode, AddrMode};
use crate::errors::EmuError;
use crate::memory::{mem_load, mem_read, mem_read_word, Memory};
use crate::model::{
    adc_step, after_operand, and_step, asl_acc_step, asl_mem_step, bit_step, branch_step,
    brk_step, cmp_step, cpx_step, cpy_step, dec_step, dex_step, dey_step, effective_addr,
    eor_step, inc_step, interrupt_entry, inx_step, iny_step, jmp_step, jsr_step, lda_step,
    ldx_step, ldy_step, lsr_acc_step, lsr_mem_step, ora_step, page_crossed, pha_step, php_step,
    pla_step, plp_step, reset_spec, rol_acc_step, rol_mem_step, ror_acc_step, ror_mem_step,
    rti_step, rts_step, sbc_step, sta_step, step_spec, stx_step, sty_step, tax_step, tay_step,
    tsx_step, txa_step, txs_step, tya_step, with_zn, CpuView, StepResult,
};
use crate::stack::Stack;
use crate::status_register::StatusRegister;
use crate::word::{wrap16, wrap16_add, wrap8_add, wrap8_sub, word_from};

verus! {

/// The add-with-carry arithmetic shared by binary and decimal mode:
/// returns the new accumulator, the carry out, and the binary sum the
/// flags are taken from.
fn adc_compute(a: u8, data: u8, carry_flag: bool, decimal: bool) -> (r: (u8, bool, u8))
    ensures
        r.2 == crate::model::adc_bin_value(a, data, carry_flag),
        r.0 == (if decimal {
            crate::model::adc_dec_value(a, data, carry_flag)
        } else {
            crate::model::adc_bin_value(a, data, carry_flag)
        }),
        r.1 == (if decimal {
            crate::model::adc_dec_carry(a, data, carry_flag)
        } else {
            crate::model::adc_bin_carry(a, data, carry_flag)
        }),
{
    let carry: u16 = if carry_flag { 1 } else { 0 };
    let bin_wide: u16 = a as u16 + data as u16 + carry;
    let bin: u8 = (bin_wide % 0x100) as u8;
    if decimal {
        let lo: u16 = (a % 16) as u16 + (data % 16) as u16 + carry;
        let lo_adj: u16 = if lo > 9 { lo + 6 } else { lo };
        let hi: u16 = (a / 16) as u16 + (data / 16) as u16 + if lo > 9 { 1 } else { 0 };
        let hi_adj: u16 = if hi > 9 { hi + 6 } else { hi };
        ((hi_adj % 16 * 16 + lo_adj % 16) as u8, hi > 9, bin)
    } else {
        (bin, bin_wide > 0xFF, bin)
    }
}

/// The subtract-with-borrow arithmetic shared by binary and decimal mode:
/// returns the new accumulator, the carry out (the borrow's complement,
/// binary in both modes), and the binary difference the flags are taken
/// from.
fn sbc_compute(a: u8, data: u8, carry_flag: bool, decimal: bool) -> (r: (u8, bool, u8))
    ensures
        r.2 == crate::model::adc_bin_value(a, (0xFF - data) as u8, carry_flag),
        r.0 == (if decimal {
            crate::model::sbc_dec_value(a, data, carry_flag)
        } else {
            crate::model::adc_bin_value(a, (0xFF - data) as u8, carry_flag)
        }),
        r.1 == crate::model::adc_bin_carry(a, (0xFF - data) as u8, carry_flag),
{
    let complement: u8 = 0xFF - data;
    let carry: u16 = if carry_flag { 1 } else { 0 };
    let bin_wide: u16 = a as u16 + complement as u16 + carry;
    let bin: u8 = (bin_wide % 0x100) as u8;
    if decimal {
        // Offset by 16 to keep each nibble difference non-negative; the
        // adjustments below are those of `sbc_dec_value`, shifted by
        // that bias.
        let borrow: u16 = if carry_flag { 0 } else { 1 };
        let lo: u16 = (a % 16) as u16 + 16 - (data % 16) as u16 - borrow;
        let lo_borrow = lo < 16;
        let lo_adj: u16 = if lo_borrow { (lo + 10) % 16 } else { lo % 16 };
        let hi: u16 = (a / 16) as u16 + 16 - (data / 16) as u16
            - if lo_borrow { 1 } else { 0 };
        let hi_adj: u16 = if hi < 16 { (hi + 10) % 16 } else { hi % 16 };
        proof {
            let borrow_s: int = if carry_flag { 0 } else { 1 };
            let lo_s = a % 16 - data % 16 - borrow_s;
            let hi_s = a / 16 - data / 16 - (if lo_s < 0 { 1int } else { 0int });
            assert(lo == lo_s + 16);
            assert(lo_borrow <==> lo_s < 0);
            if lo_s < 0 {
                vstd::arithmetic::div_mod::lemma_mod_multiples_vanish(2, lo_s - 6, 16);
            } else {
                vstd::arithmetic::div_mod::lemma_mod_multiples_vanish(1, lo_s, 16);
            }
            assert(hi == hi_s + 16);
            if hi_s < 0 {
                vstd::arithmetic::div_mod::lemma_mod_multiples_vanish(2, hi_s - 6, 16);
            } else {
                vstd::arithmetic::div_mod::lemma_mod_multiples_vanish(1, hi_s, 16);
            }
        }
        ((hi_adj * 16 + lo_adj) as u8, bin_wide > 0xFF, bin)
    } else {
        (bin, bin_wide > 0xFF, bin)
    }
}

/// The 6502 processor: register file, status flags, stack pointer and the
/// 64 KiB memory it owns, together with the two interrupt request lines
/// that external callers assert.
pub struct Cpu {
    pub a: u8,
    pub x: u8,
    pub y: u8,
    pub pc: u16,
    pub memory: Memory,
    pub stack: Stack,
    pub sr: StatusRegister,
    pub irq_line: bool,
    pub nmi_pending: bool,
}

impl View for Cpu {
    type V = CpuView;

    open spec fn view(&self) -> CpuView {
        CpuView {
            a: self.a,
            x: self.x,
            y: self.y,
            pc: self.pc,
            sp: self.stack.sp,
            sr: self.sr,
            mem: self.memory@,
            irq_line: self.irq_line,
            nmi_pending: self.nmi_pending,
        }
    }
}

impl Cpu {
    /// A freshly powered machine: registers zero, stack pointer at its
    /// post-reset value, interrupts disabled, memory cleared, and the
    /// program counter at the value the zeroed reset vector holds.
    pub fn new() -> (cpu: Cpu)
        ensures
            cpu@ == (CpuView {
                a: 0,
                x: 0,
                y: 0,
                pc: 0,
                sp: 0xFD,
                sr: StatusRegister {
                    negative: false,
                    overflow: false,
                    brk: false,
                    decimal: false,
                    interrupt_disable: true,
                    zero: false,
                    carry: false,
                },
                mem: Seq::new(0x10000, |i: int| 0u8),
                irq_line: false,
                nmi_pending: false,
            }),
    {
        let mut sr = StatusRegister::new();
        sr.interrupt_disable = true;
        Cpu {
            a: 0,
            x: 0,
            y: 0,
            pc: 0,
            memory: Memory::new(),
            stack: Stack::new(),
            sr,
            irq_line: false,
            nmi_pending: false,
        }
    }

    /// Fetch one byte from the instruction stream and advance the program
    /// counter past it.
    fn fetch_byte(&mut self) -> (r: u8)
        ensures
            r == mem_read(old(self)@.mem, old(self)@.pc),
            final(self)@ == (CpuView { pc: wrap16(old(self)@.pc + 1), ..old(self)@ }),
    {
        let instruction = self.memory.read_byte(self.pc);
        self.pc = wrap16_add(self.pc, 1);
        instruction
    }

    /// Fetch a little-endian word from the instruction stream and advance
    /// the program counter past it.
    fn fetch_word(&mut self) -> (r: u16)
        ensures
            r == mem_read_word(old(self)@.mem, old(self)@.pc),
            final(self)@ == (CpuView { pc: wrap16(old(self)@.pc + 2), ..old(self)@ }),
    {
        let least_significant = self.memory.read_byte(self.pc);
        let most_significant = self.memory.read_byte(wrap16_add(self.pc, 1));
        self.pc = wrap16_add(self.pc, 2);
        word_from(least_significant, most_significant)
    }

    /// Set Z and N from a freshly written value.
    fn set_zero_and_negative_flags(&mut self, data: u8)
        ensures
            final(self)@ == (CpuView { sr: with_zn(old(self)@.sr, data), ..old(self)@ }),
    {
        self.sr.zero = data == 0;
        self.sr.negative = data >= 0x80;
    }

    /// Zero-page operand: the fetched byte is the address.
    fn get_zero_page_addr(&mut self) -> (a: u16)
        ensures
            a == effective_addr(old(self)@, AddrMode::ZeroPage),
            final(self)@ == after_operand(old(self)@, AddrMode::ZeroPage),
    {
        self.fetch_byte() as u16
    }

    /// Zero-page operand indexed by X; the sum wraps within the zero page.
    fn get_zero_page_x_addr(&mut self) -> (a: u16)
        ensures
            a == effective_addr(old(self)@, AddrMode::ZeroPageX),
            final(self)@ == after_operand(old(self)@, AddrMode::ZeroPageX),
    {
        let base = self.fetch_byte();
        wrap8_add(base, self.x) as u16
    }

    /// Zero-page operand indexed by Y; the sum wraps within the zero page.
    fn get_zero_page_y_addr(&mut self) -> (a: u16)
        ensures
            a == effective_addr(old(self)@, AddrMode::ZeroPageY),
            final(self)@ == after_operand(old(self)@, AddrMode::ZeroPageY),
    {
        let base = self.fetch_byte();
        wrap8_add(base, self.y) as u16
    }

    /// Absolute operand: the fetched word is the address.
    fn get_absolute_addr(&mut self) -> (a: u16)
        ensures
            a == effective_addr(old(self)@, AddrMode::Abs),
            final(self)@ == after_operand(old(self)@, AddrMode::Abs),
    {
        self.fetch_word()
    }

    /// Absolute operand indexed by X, reporting whether the indexed
    /// address left the base page.
    fn get_absolute_x_addr(&mut self) -> (r: (u16, bool))
        ensures
            r.0 == effective_addr(old(self)@, AddrMode::AbsX),
            r.1 == page_crossed(old(self)@, AddrMode::AbsX),
            final(self)@ == after_operand(old(self)@, AddrMode::AbsX),
    {
        let base = self.fetch_word();
        let addr = wrap16_add(base, self.x as u16);
        (addr, base / 0x100 != addr / 0x100)
    }

    /// Absolute operand indexed by Y, reporting whether the indexed
    /// address left the base page.
    fn get_absolute_y_addr(&mut self) -> (r: (u16, bool))
        ensures
            r.0 == effective_addr(old(self)@, AddrMode::AbsY),
            r.1 == page_crossed(old(self)@, AddrMode::AbsY),
            final(self)@ == after_operand(old(self)@, AddrMode::AbsY),
    {
        let base = self.fetch_word();
        let addr = wrap16_add(base, self.y as u16);
        (addr, base / 0x100 != addr / 0x100)
    }

    /// Indirect operand (JMP only): the target word is read through the
    /// operand pointer without the high-byte fetch leaving the pointer's
    /// page.
    fn get_indirect_addr(&mut self) -> (a: u16)
        ensures
            a == effective_addr(old(self)@, AddrMode::Ind),
            final(self)@ == after_operand(old(self)@, AddrMode::Ind),
    {
        let addr_addr = self.fetch_word();
        self.memory.read_word_wrapped(addr_addr)
    }

    /// Indexed-indirect operand: the fetched byte plus X names a zero-page
    /// pointer, which is read with zero-page wrap-around.
    fn get_indirect_x_addr(&mut self) -> (a: u16)
        ensures
            a == effective_addr(old(self)@, AddrMode::IndX),
            final(self)@ == after_operand(old(self)@, AddrMode::IndX),
    {
        let base = self.fetch_byte();
        let addr_addr = wrap8_add(base, self.x);
        self.memory.read_word_wrapped(addr_addr as u16)
    }

    /// Indirect-indexed operand: the fetched byte names a zero-page
    /// pointer, read with zero-page wrap-around, and Y indexes the result;
    /// reports whether indexing left the pointer's page.
    fn get_indirect_y_addr(&mut self) -> (r: (u16, bool))
        ensures
            r.0 == effective_addr(old(self)@, AddrMode::IndY),
            r.1 == page_crossed(old(self)@, AddrMode::IndY),
            final(self)@ == after_operand(old(self)@, AddrMode::IndY),
    {
        let base = self.fetch_byte();
        let ptr = self.memory.read_word_wrapped(base as u16);
        let addr = wrap16_add(ptr, self.y as u16);
        (addr, ptr / 0x100 != addr / 0x100)
    }

    /// Resolve a read instruction's operand: consume the operand bytes and
    /// return the byte operated on together with the instruction's cycle
    /// count, page-cross penalty included.
    fn read_operand(&mut self, addr_mode: AddrMode) -> (r: (u8, u8))
        requires
            addr_mode is Immediate || addr_mode is ZeroPage || addr_mode is ZeroPageX
                || addr_mode is ZeroPageY || addr_mode is Abs || addr_mode is AbsX
                || addr_mode is AbsY || addr_mode is IndX || addr_mode is IndY,
        ensures
            r.0 == crate::model::operand_value(old(self)@, addr_mode),
            r.1 == crate::model::read_cycles(old(self)@, addr_mode),
            final(self)@ == after_operand(old(self)@, addr_mode),
    {
        match addr_mode {
            AddrMode::Immediate => {
                let data = self.fetch_byte();
                (data, 2)
            },
            AddrMode::ZeroPage => {
                let data_addr = self.get_zero_page_addr();
                (self.memory.read_byte(data_addr), 3)
            },
            AddrMode::ZeroPageX => {
                let data_addr = self.get_zero_page_x_addr();
                (self.memory.read_byte(data_addr), 4)
            },
            AddrMode::ZeroPageY => {
                let data_addr = self.get_zero_page_y_addr();
                (self.memory.read_byte(data_addr), 4)
            },
            AddrMode::Abs => {
                let data_addr = self.get_absolute_addr();
                (self.memory.read_byte(data_addr), 4)
            },
            AddrMode::AbsX => {
                let (data_addr, crossed) = self.get_absolute_x_addr();
                (self.memory.read_byte(data_addr), if crossed { 5 } else { 4 })
            },
            AddrMode::AbsY => {
                let (data_addr, crossed) = self.get_absolute_y_addr();
                (self.memory.read_byte(data_addr), if crossed { 5 } else { 4 })
            },
            AddrMode::IndX => {
                let data_addr = self.get_indirect_x_addr();
                (self.memory.read_byte(data_addr), 6)
            },
            AddrMode::IndY => {
                let (data_addr, crossed) = self.get_indirect_y_addr();
                (self.memory.read_byte(data_addr), if crossed { 6 } else { 5 })
            },
            _ => {
                proof {
                    assert(false);
                }
                (0, 0)
            },
        }
    }

    /// Resolve a store instruction's target address together with the
    /// fixed cycle count stores pay regardless of page crossing.
    fn store_addr(&mut self, addr_mode: AddrMode) -> (r: (u16, u8))
        requires
            addr_mode is ZeroPage || addr_mode is ZeroPageX || addr_mode is ZeroPageY
                || addr_mode is Abs || addr_mode is AbsX || addr_mode is AbsY
                || addr_mode is IndX || addr_mode is IndY,
        ensures
            r.0 == effective_addr(old(self)@, addr_mode),
            r.1 == crate::model::store_cycles(addr_mode),
            final(self)@ == after_operand(old(self)@, addr_mode),
    {
        match addr_mode {
            AddrMode::ZeroPage => (self.get_zero_page_addr(), 3),
            AddrMode::ZeroPageX => (self.get_zero_page_x_addr(), 4),
            AddrMode::ZeroPageY => (self.get_zero_page_y_addr(), 4),
            AddrMode::Abs => (self.get_absolute_addr(), 4),
            AddrMode::AbsX => {
                let (data_addr, _) = self.get_absolute_x_addr();
                (data_addr, 5)
            },
            AddrMode::AbsY => {
                let (data_addr, _) = self.get_absolute_y_addr();
                (data_addr, 5)
            },
            AddrMode::IndX => (self.get_indirect_x_addr(), 6),
            AddrMode::IndY => {
                let (data_addr, _) = self.get_indirect_y_addr();
                (data_addr, 6)
            },
            _ => {
                proof {
                    assert(false);
                }
                (0, 0)
            },
        }
    }

    /// Resolve a read-modify-write instruction's target address together
    /// with its cycle count.
    fn rmw_addr(&mut self, addr_mode: AddrMode) -> (r: (u16, u8))
        requires
            addr_mode is ZeroPage || addr_mode is ZeroPageX || addr_mode is Abs
                || addr_mode is AbsX,
        ensures
            r.0 == effective_addr(old(self)@, addr_mode),
            r.1 == crate::model::rmw_cycles(addr_mode),
            final(self)@ == after_operand(old(self)@, addr_mode),
    {
        match addr_mode {
            AddrMode::ZeroPage => (self.get_zero_page_addr(), 5),
            AddrMode::ZeroPageX => (self.get_zero_page_x_addr(), 6),
            AddrMode::Abs => (self.get_absolute_addr(), 6),
            AddrMode::AbsX => {
                let (data_addr, _) = self.get_absolute_x_addr();
                (data_addr, 7)
            },
            _ => {
                proof {
                    assert(false);
                }
                (0, 0)
            },
        }
    }

    /// LDA: load the accumulator, setting Z and N.
    fn lda(&mut self, addr_mode: AddrMode) -> (cycles: u8)
        requires
            addr_mode is Immediate || addr_mode is ZeroPage || addr_mode is ZeroPageX
                || addr_mode is Abs || addr_mode is AbsX || addr_mode is AbsY
                || addr_mode is IndX || addr_mode is IndY,
        ensures
            (final(self)@, cycles) == lda_step(old(self)@, addr_mode),
    {
        let (data, cycles) = self.read_operand(addr_mode);
        self.a = data;
        self.set_zero_and_negative_flags(data);
        cycles
    }

    /// LDX: load the X register, setting Z and N.
    fn ldx(&mut self, addr_mode: AddrMode) -> (cycles: u8)
        requires
            addr_mode is Immediate || addr_mode is ZeroPage || addr_mode is ZeroPageY
                || addr_mode is Abs || addr_mode is AbsY,
        ensures
            (final(self)@, cycles) == ldx_step(old(self)@, addr_mode),
    {
        let (data, cycles) = self.read_operand(addr_mode);
        self.x = data;
        self.set_zero_and_negative_flags(data);
        cycles
    }

    /// LDY: load the Y register, setting Z and N.
    fn ldy(&mut self, addr_mode: AddrMode) -> (cycles: u8)
        requires
            addr_mode is Immediate || addr_mode is ZeroPage || addr_mode is ZeroPageX
                || addr_mode is Abs || addr_mode is AbsX,
        ensures
            (final(self)@, cycles) == ldy_step(old(self)@, addr_mode),
    {
        let (data, cycles) = self.read_operand(addr_mode);
        self.y = data;
        self.set_zero_and_negative_flags(data);
        cycles
    }

    /// STA: store the accumulator; no flags change.
    fn sta(&mut self, addr_mode: AddrMode) -> (cycles: u8)
        requires
            addr_mode is ZeroPage || addr_mode is ZeroPageX || addr_mode is Abs
                || addr_mode is AbsX || addr_mode is AbsY || addr_mode is IndX
                || addr_mode is IndY,
        ensures
            (final(self)@, cycles) == sta_step(old(self)@, addr_mode),
    {
        let (data_addr, cycles) = self.store_addr(addr_mode);
        self.memory.write_byte(data_addr, self.a);
        cycles
    }

    /// STX: store the X register; no flags change.
    fn stx(&mut self, addr_mode: AddrMode) -> (cycles: u8)
        requires
            addr_mode is ZeroPage || addr_mode is ZeroPageY || addr_mode is Abs,
        ensures
            (final(self)@, cycles) == stx_step(old(self)@, addr_mode),
    {
        let (data_addr, cycles) = self.store_addr(addr_mode);
        self.memory.write_byte(data_addr, self.x);
        cycles
    }

    /// STY: store the Y register; no flags change.
    fn sty(&mut self, addr_mode: AddrMode) -> (cycles: u8)
        requires
            addr_mode is ZeroPage || addr_mode is ZeroPageX || addr_mode is Abs,
        ensures
            (final(self)@, cycles) == sty_step(old(self)@, addr_mode),
    {
        let (data_addr, cycles) = self.store_addr(addr_mode);
        self.memory.write_byte(data_addr, self.y);
        cycles
    }

    /// AND: accumulator bitwise-and operand, setting Z and N.
    fn and(&mut self, addr_mode: AddrMode) -> (cycles: u8)
        requires
            addr_mode is Immediate || addr_mode is ZeroPage || addr_mode is ZeroPageX
                || addr_mode is Abs || addr_mode is AbsX || addr_mode is AbsY
                || addr_mode is IndX || addr_mode is IndY,
        ensures
            (final(self)@, cycles) == and_step(old(self)@, addr_mode),
    {
        let (data, cycles) = self.read_operand(addr_mode);
        self.a = self.a & data;
        let result = self.a;
        self.set_zero_and_negative_flags(result);
        cycles
    }

    /// ORA: accumulator bitwise-or operand, setting Z and N.
    fn ora(&mut self, addr_mode: AddrMode) -> (cycles: u8)
        requires
            addr_mode is Immediate || addr_mode is ZeroPage || addr_mode is ZeroPageX
                || addr_mode is Abs || addr_mode is AbsX || addr_mode is AbsY
                || addr_mode is IndX || addr_mode is IndY,
        ensures
            (final(self)@, cycles) == ora_step(old(self)@, addr_mode),
    {
        let (data, cycles) = self.read_operand(addr_mode);
        self.a = self.a | data;
        let result = self.a;
        self.set_zero_and_negative_flags(result);
        cycles
    }

    /// EOR: accumulator bitwise-xor operand, setting Z and N.
    fn eor(&mut self, addr_mode: AddrMode) -> (cycles: u8)
        requires
            addr_mode is Immediate || addr_mode is ZeroPage || addr_mode is ZeroPageX
                || addr_mode is Abs || addr_mode is AbsX || addr_mode is AbsY
                || addr_mode is IndX || addr_mode is IndY,
        ensures
            (final(self)@, cycles) == eor_step(old(self)@, addr_mode),
    {
        let (data, cycles) = self.read_operand(addr_mode);
        self.a = self.a ^ data;
        let result = self.a;
        self.set_zero_and_negative_flags(result);
        cycles
    }

    /// ADC: add the operand and the carry to the accumulator. With the D
    /// flag set the accumulator and carry take the binary-coded-decimal
    /// result while N, V and Z still come from the binary sum (this
    /// implementation's documented choice for the flag behaviour the NMOS
    /// hardware leaves open).
    #[verifier::rlimit(60)]
    fn adc(&mut self, addr_mode: AddrMode) -> (cycles: u8)
        requires
            addr_mode is Immediate || addr_mode is ZeroPage || addr_mode is ZeroPageX
                || addr_mode is Abs || addr_mode is AbsX || addr_mode is AbsY
                || addr_mode is IndX || addr_mode is IndY,
        ensures
            (final(self)@, cycles) == adc_step(old(self)@, addr_mode),
    {
        let (data, cycles) = self.read_operand(addr_mode);
        let (result, carry_out, bin) = adc_compute(self.a, data, self.sr.carry, self.sr.decimal);
        self.sr.overflow = (self.a >= 0x80) == (data >= 0x80)
            && (self.a >= 0x80) != (bin >= 0x80);
        self.a = result;
        self.sr.carry = carry_out;
        self.sr.zero = bin == 0;
        self.sr.negative = bin >= 0x80;
        cycles
    }

    /// SBC: subtract the operand and the borrow from the accumulator; in
    /// binary mode this is ADC of the operand's complement. With the D
    /// flag set the accumulator takes the binary-coded-decimal difference
    /// while the flags still come from the binary computation.
    #[verifier::rlimit(60)]
    fn sbc(&mut self, addr_mode: AddrMode) -> (cycles: u8)
        requires
            addr_mode is Immediate || addr_mode is ZeroPage || addr_mode is ZeroPageX
                || addr_mode is Abs || addr_mode is AbsX || addr_mode is AbsY
                || addr_mode is IndX || addr_mode is IndY,
        ensures
            (final(self)@, cycles) == sbc_step(old(self)@, addr_mode),
    {
        let (data, cycles) = self.read_operand(addr_mode);
        let complement: u8 = 0xFF - data;
        let (result, carry_out, bin) = sbc_compute(self.a, data, self.sr.carry, self.sr.decimal);
        self.sr.overflow = (self.a >= 0x80) == (complement >= 0x80)
            && (self.a >= 0x80) != (bin >= 0x80);
        self.a = result;
        self.sr.carry = carry_out;
        self.sr.zero = bin == 0;
        self.sr.negative = bin >= 0x80;
        cycles
    }

    /// CMP: compare the accumulator with the operand; registers and
    /// memory are unchanged.
    fn cmp(&mut self, addr_mode: AddrMode) -> (cycles: u8)
        requires
            addr_mode is Immediate || addr_mode is ZeroPage || addr_mode is ZeroPageX
                || addr_mode is Abs || addr_mode is AbsX || addr_mode is AbsY
                || addr_mode is IndX || addr_mode is IndY,
        ensures
            (final(self)@, cycles) == cmp_step(old(self)@, addr_mode),
    {
        let (data, cycles) = self.read_operand(addr_mode);
        self.sr.carry = self.a >= data;
        self.sr.zero = self.a == data;
        self.sr.negative = wrap8_sub(self.a, data) >= 0x80;
        cycles
    }

    /// CPX: compare the X register with the operand.
    fn cpx(&mut self, addr_mode: AddrMode) -> (cycles: u8)
        requires
            addr_mode is Immediate || addr_mode is ZeroPage || addr_mode is Abs,
        ensures
            (final(self)@, cycles) == cpx_step(old(self)@, addr_mode),
    {
        let (data, cycles) = self.read_operand(addr_mode);
        self.sr.carry = self.x >= data;
        self.sr.zero = self.x == data;
        self.sr.negative = wrap8_sub(self.x, data) >= 0x80;
        cycles
    }

    /// CPY: compare the Y register with the operand.
    fn cpy(&mut self, addr_mode: AddrMode) -> (cycles: u8)
        requires
            addr_mode is Immediate || addr_mode is ZeroPage || addr_mode is Abs,
        ensures
            (final(self)@, cycles) == cpy_step(old(self)@, addr_mode),
    {
        let (data, cycles) = self.read_operand(addr_mode);
        self.sr.carry = self.y >= data;
        self.sr.zero = self.y == data;
        self.sr.negative = wrap8_sub(self.y, data) >= 0x80;
        cycles
    }

    /// BIT: Z from accumulator-and-memory, N and V copied from bits 7 and
    /// 6 of the memory byte.
    fn bit_test(&mut self, addr_mode: AddrMode) -> (cycles: u8)
        requires
            addr_mode is ZeroPage || addr_mode is Abs,
        ensures
            (final(self)@, cycles) == bit_step(old(self)@, addr_mode),
    {
        let (data, cycles) = self.read_operand(addr_mode);
        self.sr.negative = data >= 0x80;
        self.sr.overflow = data / 0x40 % 2 == 1;
        self.sr.zero = (data & self.a) == 0;
        cycles
    }

    /// ASL on the accumulator: carry takes bit 7, the value shifts left.
    fn asl_acc(&mut self) -> (cycles: u8)
        ensures
            (final(self)@, cycles) == asl_acc_step(old(self)@),
    {
        self.sr.carry = self.a >= 0x80;
        self.a = (self.a as u16 * 2 % 0x100) as u8;
        let result = self.a;
        self.set_zero_and_negative_flags(result);
        2
    }

    /// LSR on the accumulator: carry takes bit 0, the value shifts right.
    fn lsr_accumulator(&mut self) -> (cycles: u8)
        ensures
            (final(self)@, cycles) == lsr_acc_step(old(self)@),
    {
        self.sr.carry = self.a % 2 == 1;
        self.a = self.a / 2;
        let result = self.a;
        self.set_zero_and_negative_flags(result);
        2
    }

    /// ROL on the accumulator: the old carry enters at bit 0, bit 7
    /// becomes the new carry.
    fn rol_accumulator(&mut self) -> (cycles: u8)
        ensures
            (final(self)@, cycles) == rol_acc_step(old(self)@),
    {
        let old_carry: u16 = if self.sr.carry { 1 } else { 0 };
        self.sr.carry = self.a >= 0x80;
        self.a = ((self.a as u16 * 2 + old_carry) % 0x100) as u8;
        let result = self.a;
        self.set_zero_and_negative_flags(result);
        2
    }

    /// ROR on the accumulator: the old carry enters at bit 7, bit 0
    /// becomes the new carry.
    fn ror_accumulator(&mut self) -> (cycles: u8)
        ensures
            (final(self)@, cycles) == ror_acc_step(old(self)@),
    {
        let old_carry: u8 = if self.sr.carry { 0x80 } else { 0 };
        self.sr.carry = self.a % 2 == 1;
        self.a = self.a / 2 + old_carry;
        let result = self.a;
        self.set_zero_and_negative_flags(result);
        2
    }

    /// ASL on a memory byte.
    fn asl(&mut self, addr_mode: AddrMode) -> (cycles: u8)
        requires
            addr_mode is ZeroPage || addr_mode is ZeroPageX || addr_mode is Abs
                || addr_mode is AbsX,
        ensures
            (final(self)@, cycles) == asl_mem_step(old(self)@, addr_mode),
    {
        let (data_addr, cycles) = self.rmw_addr(addr_mode);
        let data = self.memory.read_byte(data_addr);
        self.sr.carry = data >= 0x80;
        let result: u8 = (data as u16 * 2 % 0x100) as u8;
        self.memory.write_byte(data_addr, result);
        self.set_zero_and_negative_flags(result);
        cycles
    }

    /// LSR on a memory byte.
    fn lsr(&mut self, addr_mode: AddrMode) -> (cycles: u8)
        requires
            addr_mode is ZeroPage || addr_mode is ZeroPageX || addr_mode is Abs
                || addr_mode is AbsX,
        ensures
            (final(self)@, cycles) == lsr_mem_step(old(self)@, addr_mode),
    {
        let (data_addr, cycles) = self.rmw_addr(addr_mode);
        let data = self.memory.read_byte(data_addr);
        self.sr.carry = data % 2 == 1;
        let result: u8 = data / 2;
        self.memory.write_byte(data_addr, result);
        self.set_zero_and_negative_flags(result);
        cycles
    }

    /// ROL on a memory byte.
    fn rol(&mut self, addr_mode: AddrMode) -> (cycles: u8)
        requires
            addr_mode is ZeroPage || addr_mode is ZeroPageX || addr_mode is Abs
                || addr_mode is AbsX,
        ensures
            (final(self)@, cycles) == rol_mem_step(old(self)@, addr_mode),
    {
        let (data_addr, cycles) = self.rmw_addr(addr_mode);
        let data = self.memory.read_byte(data_addr);
        let old_carry: u16 = if self.sr.carry { 1 } else { 0 };
        self.sr.carry = data >= 0x80;
        let result: u8 = ((data as u16 * 2 + old_carry) % 0x100) as u8;
        self.memory.write_byte(data_addr, result);
        self.set_zero_and_negative_flags(result);
        cycles
    }

    /// ROR on a memory byte.
    fn ror(&mut self, addr_mode: AddrMode) -> (cycles: u8)
        requires
            addr_mode is ZeroPage || addr_mode is ZeroPageX || addr_mode is Abs
                || addr_mode is AbsX,
        ensures
            (final(self)@, cycles) == ror_mem_step(old(self)@, addr_mode),
    {
        let (data_addr, cycles) = self.rmw_addr(addr_mode);
        let data = self.memory.read_byte(data_addr);
        let old_carry: u8 = if self.sr.carry { 0x80 } else { 0 };
        self.sr.carry = data % 2 == 1;
        let result: u8 = data / 2 + old_carry;
        self.memory.write_byte(data_addr, result);
        self.set_zero_and_negative_flags(result);
        cycles
    }

    /// INC: increment a memory byte with 8-bit wrap, setting Z and N.
    fn inc(&mut self, addr_mode: AddrMode) -> (cycles: u8)
        requires
            addr_mode is ZeroPage || addr_mode is ZeroPageX || addr_mode is Abs
                || addr_mode is AbsX,
        ensures
            (final(self)@, cycles) == inc_step(old(self)@, addr_mode),
    {
        let (data_addr, cycles) = self.rmw_addr(addr_mode);
        let data = self.memory.read_byte(data_addr);
        let result = wrap8_add(data, 1);
        self.memory.write_byte(data_addr, result);
        self.set_zero_and_negative_flags(result);
        cycles
    }

    /// DEC: decrement a memory byte with 8-bit wrap, setting Z and N.
    fn dec(&mut self, addr_mode: AddrMode) -> (cycles: u8)
        requires
            addr_mode is ZeroPage || addr_mode is ZeroPageX || addr_mode is Abs
                || addr_mode is AbsX,
        ensures
            (final(self)@, cycles) == dec_step(old(self)@, addr_mode),
    {
        let (data_addr, cycles) = self.rmw_addr(addr_mode);
        let data = self.memory.read_byte(data_addr);
        let result = wrap8_sub(data, 1);
        self.memory.write_byte(data_addr, result);
        self.set_zero_and_negative_flags(result);
        cycles
    }

    /// INX: increment the X register with wrap, setting Z and N.
    fn inc_x(&mut self) -> (cycles: u8)
        ensures
            (final(self)@, cycles) == inx_step(old(self)@),
    {
        self.x = wrap8_add(self.x, 1);
        let result = self.x;
        self.set_zero_and_negative_flags(result);
        2
    }

    /// INY: increment the Y register with wrap, setting Z and N.
    fn inc_y(&mut self) -> (cycles: u8)
        ensures
            (final(self)@, cycles) == iny_step(old(self)@),
    {
        self.y = wrap8_add(self.y, 1);
        let result = self.y;
        self.set_zero_and_negative_flags(result);
        2
    }

    /// DEX: decrement the X register with wrap, setting Z and N.
    fn dex(&mut self) -> (cycles: u8)
        ensures
            (final(self)@, cycles) == dex_step(old(self)@),
    {
        self.x = wrap8_sub(self.x, 1);
        let result = self.x;
        self.set_zero_and_negative_flags(result);
        2
    }

    /// DEY: decrement the Y register with wrap, setting Z and N.
    fn dey(&mut self) -> (cycles: u8)
        ensures
            (final(self)@, cycles) == dey_step(old(self)@),
    {
        self.y = wrap8_sub(self.y, 1);
        let result = self.y;
        self.set_zero_and_negative_flags(result);
        2
    }

    /// TAX: copy the accumulator to X, setting Z and N.
    fn tax(&mut self) -> (cycles: u8)
        ensures
            (final(self)@, cycles) == tax_step(old(self)@),
    {
        self.x = self.a;
        let result = self.x;
        self.set_zero_and_negative_flags(result);
        2
    }

    /// TAY: copy the accumulator to Y, setting Z and N.
    fn tay(&mut self) -> (cycles: u8)
        ensures
            (final(self)@, cycles) == tay_step(old(self)@),
    {
        self.y = self.a;
        let result = self.y;
        self.set_zero_and_negative_flags(result);
        2
    }

    /// TSX: copy the stack pointer to X, setting Z and N.
    fn tsx(&mut self) -> (cycles: u8)
        ensures
            (final(self)@, cycles) == tsx_step(old(self)@),
    {
        self.x = self.stack.sp;
        let result = self.x;
        self.set_zero_and_negative_flags(result);
        2
    }

    /// TXA: copy X to the accumulator, setting Z and N.
    fn txa(&mut self) -> (cycles: u8)
        ensures
            (final(self)@, cycles) == txa_step(old(self)@),
    {
        self.a = self.x;
        let result = self.a;
        self.set_zero_and_negative_flags(result);
        2
    }

    /// TXS: copy X to the stack pointer; no flags change.
    fn txs(&mut self) -> (cycles: u8)
        ensures
            (final(self)@, cycles) == txs_step(old(self)@),
    {
        self.stack.sp = self.x;
        2
    }

    /// TYA: copy Y to the accumulator, setting Z and N.
    fn tya(&mut self) -> (cycles: u8)
        ensures
            (final(self)@, cycles) == tya_step(old(self)@),
    {
        self.a = self.y;
        let result = self.a;
        self.set_zero_and_negative_flags(result);
        2
    }

    /// PHA: push the accumulator.
    fn push_accumulator(&mut self) -> (cycles: u8)
        ensures
            (final(self)@, cycles) == pha_step(old(self)@),
    {
        let data = self.a;
        self.stack.push_byte(&mut self.memory, data);
        3
    }

    /// PHP: push the packed status byte with the B bit set.
    fn push_processor_status(&mut self) -> (cycles: u8)
        ensures
            (final(self)@, cycles) == php_step(old(self)@),
    {
        let mut pushed = self.sr;
        pushed.brk = true;
        let processor_status = pushed.get_status_byte();
        self.stack.push_byte(&mut self.memory, processor_status);
        3
    }

    /// PLA: pull the accumulator, setting Z and N.
    fn pull_accumulator(&mut self) -> (cycles: u8)
        ensures
            (final(self)@, cycles) == pla_step(old(self)@),
    {
        let popped_acc = self.stack.pop_byte(&self.memory);
        self.a = popped_acc;
        self.set_zero_and_negative_flags(popped_acc);
        4
    }

    /// PLP: pull the status byte, restoring every flag except B, which
    /// stays false in the register proper.
    fn pull_processor_status(&mut self) -> (cycles: u8)
        ensures
            (final(self)@, cycles) == plp_step(old(self)@),
    {
        let popped_sr = self.stack.pop_byte(&self.memory);
        self.sr.set_status_byte(popped_sr);
        self.sr.brk = false;
        4
    }

    /// CLC: clear the carry flag.
    fn clear_carry(&mut self) -> (cycles: u8)
        ensures
            final(self)@ == (CpuView {
                sr: StatusRegister { carry: false, ..old(self)@.sr },
                ..old(self)@
            }),
            cycles == 2,
    {
        self.sr.carry = false;
        2
    }

    /// SEC: set the carry flag.
    fn sec(&mut self) -> (cycles: u8)
        ensures
            final(self)@ == (CpuView {
                sr: StatusRegister { carry: true, ..old(self)@.sr },
                ..old(self)@
            }),
            cycles == 2,
    {
        self.sr.carry = true;
        2
    }

    /// CLD: clear the decimal flag.
    fn clear_decimal(&mut self) -> (cycles: u8)
        ensures
            final(self)@ == (CpuView {
                sr: StatusRegister { decimal: false, ..old(self)@.sr },
                ..old(self)@
            }),
            cycles == 2,
    {
        self.sr.decimal = false;
        2
    }

    /// SED: set the decimal flag.
    fn sed(&mut self) -> (cycles: u8)
        ensures
            final(self)@ == (CpuView {
                sr: StatusRegister { decimal: true, ..old(self)@.sr },
                ..old(self)@
            }),
            cycles == 2,
    {
        self.sr.decimal = true;
        2
    }

    /// CLI: clear the interrupt-disable flag.
    fn clear_interrupt_dis(&mut self) -> (cycles: u8)
        ensures
            final(self)@ == (CpuView {
                sr: StatusRegister { interrupt_disable: false, ..old(self)@.sr },
                ..old(self)@
            }),
            cycles == 2,
    {
        self.sr.interrupt_disable = false;
        2
    }

    /// SEI: set the interrupt-disable flag.
    fn sei(&mut self) -> (cycles: u8)
        ensures
            final(self)@ == (CpuView {
                sr: StatusRegister { interrupt_disable: true, ..old(self)@.sr },
                ..old(self)@
            }),
            cycles == 2,
    {
        self.sr.interrupt_disable = true;
        2
    }

    /// CLV: clear the overflow flag.
    fn clear_overflow(&mut self) -> (cycles: u8)
        ensures
            final(self)@ == (CpuView {
                sr: StatusRegister { overflow: false, ..old(self)@.sr },
                ..old(self)@
            }),
            cycles == 2,
    {
        self.sr.overflow = false;
        2
    }

    /// A conditional branch: two cycles untaken, three taken, four when
    /// the target lies in a different page than the instruction's end.
    fn branch(&mut self, opcode: u8) -> (cycles: u8)
        requires
            opcode == 0x90 || opcode == 0xB0 || opcode == 0xF0 || opcode == 0xD0
                || opcode == 0x30 || opcode == 0x10 || opcode == 0x50 || opcode == 0x70,
        ensures
            (final(self)@, cycles) == branch_step(old(self)@, opcode),
    {
        let branch_offset = self.fetch_byte();
        let branch_condition = match opcode {
            0x90 => !self.sr.carry,
            0xB0 => self.sr.carry,
            0xF0 => self.sr.zero,
            0xD0 => !self.sr.zero,
            0x30 => self.sr.negative,
            0x10 => !self.sr.negative,
            0x50 => !self.sr.overflow,
            0x70 => self.sr.overflow,
            _ => {
                proof {
                    assert(false);
                }
                false
            },
        };
        if !branch_condition {
            return 2;
        }
        let old_pc = self.pc;
        let target: u16 = ((self.pc as u32 + branch_offset as u32
            + if branch_offset >= 0x80 { 0xFF00u32 } else { 0u32 }) % 0x10000) as u16;
        proof {
            if branch_offset >= 0x80 {
                vstd::arithmetic::div_mod::lemma_mod_add_multiples_vanish(
                    old(self)@.pc + 1 + branch_offset - 0x100,
                    0x10000,
                );
                crate::word::lemma_wrap16_shift(old(self)@.pc + 1, 0x100 - branch_offset);
            } else {
                crate::word::lemma_wrap16_shift(old(self)@.pc + 1, branch_offset as int);
            }
        }
        self.pc = target;
        if old_pc / 0x100 != target / 0x100 {
            4
        } else {
            3
        }
    }

    /// JMP: set the program counter to the operand address; the indirect
    /// form honours the page-wrapped vector read.
    fn jmp(&mut self, addr_mode: AddrMode) -> (cycles: u8)
        requires
            addr_mode is Abs || addr_mode is Ind,
        ensures
            (final(self)@, cycles) == jmp_step(old(self)@, addr_mode),
    {
        let (new_pc_addr, cycles): (u16, u8) = match addr_mode {
            AddrMode::Abs => (self.get_absolute_addr(), 3),
            AddrMode::Ind => (self.get_indirect_addr(), 5),
            _ => {
                proof {
                    assert(false);
                }
                (0, 0)
            },
        };
        self.pc = new_pc_addr;
        cycles
    }

    /// JSR: push the address of the last operand byte, then jump to the
    /// operand word.
    fn jsr(&mut self) -> (cycles: u8)
        ensures
            (final(self)@, cycles) == jsr_step(old(self)@),
    {
        let return_addr = wrap16_add(self.pc, 1);
        let target = self.fetch_word();
        self.stack.push_word(&mut self.memory, return_addr);
        self.pc = target;
        6
    }

    /// RTS: pop the return word and resume one byte past it.
    fn rts(&mut self) -> (cycles: u8)
        ensures
            (final(self)@, cycles) == rts_step(old(self)@),
    {
        let return_addr = self.stack.pop_word(&self.memory);
        self.pc = wrap16_add(return_addr, 1);
        6
    }

    /// RTI: pop the status byte (B stays false), then the return address.
    fn rti(&mut self) -> (cycles: u8)
        ensures
            (final(self)@, cycles) == rti_step(old(self)@),
    {
        let popped_sr = self.stack.pop_byte(&self.memory);
        self.sr.set_status_byte(popped_sr);
        self.sr.brk = false;
        self.pc = self.stack.pop_word(&self.memory);
        6
    }

    /// BRK: skip the signature byte, push that return address and the
    /// status byte with B set, raise interrupt-disable, and vector
    /// through 0xFFFE.
    fn break_interrupt(&mut self) -> (cycles: u8)
        ensures
            (final(self)@, cycles) == brk_step(old(self)@),
    {
        let return_addr = wrap16_add(self.pc, 1);
        self.stack.push_word(&mut self.memory, return_addr);
        let mut pushed = self.sr;
        pushed.brk = true;
        let status = pushed.get_status_byte();
        self.stack.push_byte(&mut self.memory, status);
        self.sr.interrupt_disable = true;
        self.pc = self.memory.read_word(0xFFFE);
        7
    }

    /// Enter an interrupt handler: push the program counter and the
    /// status byte with B clear, raise interrupt-disable, and load the
    /// program counter from the vector.
    fn service_interrupt(&mut self, vector: u16, clear_nmi: bool)
        ensures
            final(self)@ == interrupt_entry(old(self)@, vector, clear_nmi),
    {
        let pc = self.pc;
        self.stack.push_word(&mut self.memory, pc);
        let mut pushed = self.sr;
        pushed.brk = false;
        let status = pushed.get_status_byte();
        self.stack.push_byte(&mut self.memory, status);
        self.sr.interrupt_disable = true;
        if clear_nmi {
            self.nmi_pending = false;
        }
        self.pc = self.memory.read_word(vector);
    }

    /// One step of the machine: service a pending non-maskable interrupt,
    /// else a level-asserted interrupt request when the interrupt-disable
    /// flag allows (each seven cycles); otherwise fetch, decode and
    /// execute one instruction, returning the cycles it consumed. An
    /// undocumented opcode is a fatal error carrying the opcode and its
    /// address; the machine is left exactly as of after the opcode fetch.
    #[verifier::rlimit(100)]
    #[verifier::spinoff_prover]
    pub fn execute(&mut self) -> (r: Result<u8, EmuError>)
        ensures
            ({
                let s = old(self)@;
                match step_spec(s) {
                    StepResult::Step(s2, c) => r == Ok::<u8, EmuError>(c) && final(self)@ == s2,
                    StepResult::Illegal(s2, e) => r == Err::<u8, EmuError>(e)
                        && final(self)@ == s2,
                }
            }),
    {
        if self.nmi_pending {
            self.service_interrupt(0xFFFA, true);
            return Ok(7);
        }
        if self.irq_line && !self.sr.interrupt_disable {
            self.service_interrupt(0xFFFE, false);
            return Ok(7);
        }
        let pc0 = self.pc;
        let opcode = self.fetch_byte();
        let addr_mode = get_addr_mode(opcode);
        let cycles: u8 = match opcode {
            0x00 => self.break_interrupt(),
            0x18 => self.clear_carry(),
            0x38 => self.sec(),
            0xD8 => self.clear_decimal(),
            0xF8 => self.sed(),
            0x58 => self.clear_interrupt_dis(),
            0x78 => self.sei(),
            0xB8 => self.clear_overflow(),
            0xEA => 2,
            0xC8 => self.inc_y(),
            0xE8 => self.inc_x(),
            0xCA => self.dex(),
            0x88 => self.dey(),
            0xA9 | 0xA5 | 0xB5 | 0xAD | 0xBD | 0xB9 | 0xA1 | 0xB1 => self.lda(addr_mode),
            0xA2 | 0xA6 | 0xB6 | 0xAE | 0xBE => self.ldx(addr_mode),
            0xA0 | 0xA4 | 0xB4 | 0xAC | 0xBC => self.ldy(addr_mode),
            0x4A => self.lsr_accumulator(),
            0x46 | 0x56 | 0x4E | 0x5E => self.lsr(addr_mode),
            0x09 | 0x05 | 0x15 | 0x0D | 0x1D | 0x19 | 0x01 | 0x11 => self.ora(addr_mode),
            0x48 => self.push_accumulator(),
            0x08 => self.push_processor_status(),
            0x68 => self.pull_accumulator(),
            0x28 => self.pull_processor_status(),
            0x2A => self.rol_accumulator(),
            0x26 | 0x36 | 0x2E | 0x3E => self.rol(addr_mode),
            0x0A => self.asl_acc(),
            0x06 | 0x16 | 0x0E | 0x1E => self.asl(addr_mode),
            0x6A => self.ror_accumulator(),
            0x66 | 0x76 | 0x6E | 0x7E => self.ror(addr_mode),
            0x85 | 0x95 | 0x8D | 0x9D | 0x99 | 0x81 | 0x91 => self.sta(addr_mode),
            0x86 | 0x96 | 0x8E => self.stx(addr_mode),
            0x84 | 0x94 | 0x8C => self.sty(addr_mode),
            0xAA => self.tax(),
            0xA8 => self.tay(),
            0xBA => self.tsx(),
            0x8A => self.txa(),
            0x9A => self.txs(),
            0x98 => self.tya(),
            0x69 | 0x65 | 0x75 | 0x6D | 0x7D | 0x79 | 0x61 | 0x71 => self.adc(addr_mode),
            0xE9 | 0xE5 | 0xF5 | 0xED | 0xFD | 0xF9 | 0xE1 | 0xF1 => self.sbc(addr_mode),
            0x29 | 0x25 | 0x35 | 0x2D | 0x3D | 0x39 | 0x21 | 0x31 => self.and(addr_mode),
            0x49 | 0x45 | 0x55 | 0x4D | 0x5D | 0x59 | 0x41 | 0x51 => self.eor(addr_mode),
            0x90 | 0xB0 | 0xF0 | 0x30 | 0xD0 | 0x10 | 0x50 | 0x70 => self.branch(opcode),
            0x24 | 0x2C => self.bit_test(addr_mode),
            0x20 => self.jsr(),
            0x4C | 0x6C => self.jmp(addr_mode),
            0x60 => self.rts(),
            0x40 => self.rti(),
            0xC9 | 0xC5 | 0xD5 | 0xCD | 0xDD | 0xD9 | 0xC1 | 0xD1 => self.cmp(addr_mode),
            0xE0 | 0xE4 | 0xEC => self.cpx(addr_mode),
            0xC0 | 0xC4 | 0xCC => self.cpy(addr_mode),
            0xC6 | 0xD6 | 0xCE | 0xDE => self.dec(addr_mode),
            0xE6 | 0xF6 | 0xEE | 0xFE => self.inc(addr_mode),
            _ => {
                return Err(EmuError::UnknownOpcode { opcode, pc: pc0 });
            },
        };
        Ok(cycles)
    }

    /// Reset: stack pointer to its post-reset value, interrupt-disable
    /// raised, program counter loaded from the reset vector; the other
    /// flags, the registers and memory are left as they are. Costs seven
    /// cycles.
    pub fn reset(&mut self) -> (cycles: u8)
        ensures
            final(self)@ == reset_spec(old(self)@),
            cycles == 7,
    {
        self.stack.sp = 0xFD;
        self.sr.interrupt_disable = true;
        self.pc = self.memory.read_word(0xFFFC);
        7
    }

    /// Assert the level-triggered interrupt request line; it is consulted
    /// at the next step and stays asserted.
    pub fn signal_irq(&mut self)
        ensures
            final(self)@ == (CpuView { irq_line: true, ..old(self)@ }),
    {
        self.irq_line = true;
    }

    /// Register an edge of the non-maskable interrupt line; further edges
    /// before the next step coalesce into one.
    pub fn signal_nmi(&mut self)
        ensures
            final(self)@ == (CpuView { nmi_pending: true, ..old(self)@ }),
    {
        self.nmi_pending = true;
    }

    /// Copy an image into memory starting at `origin`; an image that
    /// would run past the end of the address space is rejected whole.
    pub fn load_image(&mut self, data: &Vec<u8>, origin: u16) -> (r: Result<(), EmuError>)
        ensures
            match r {
                Ok(()) => origin + data@.len() <= 0x10000 && final(self)@ == (CpuView {
                    mem: mem_load(old(self)@.mem, data@, origin),
                    ..old(self)@
                }),
                Err(e) => origin + data@.len() > 0x10000
                    && e == (EmuError::ImageTooLarge { origin, len: data@.len() as usize })
                    && final(self)@ == old(self)@,
            },
    {
        self.memory.load(data, origin)
    }

    /// The byte at a memory address.
    pub fn read_byte(&self, addr: u16) -> (r: u8)
        ensures
            r == mem_read(self@.mem, addr),
    {
        self.memory.read_byte(addr)
    }

    /// A copy of `len` bytes of memory starting at `addr`, clamped to the
    /// end of the address space.
    pub fn read_range(&self, addr: u16, len: usize) -> (r: Vec<u8>)
        ensures
            r@ == self@.mem.subrange(
                addr as int,
                if addr + len <= 0x10000 { addr + len } else { 0x10000 },
            ),
    {
        self.memory.get_ram(addr as usize, len)
    }

    /// A copy of the 256 bytes of the stack page.
    pub fn stack_view(&self) -> (r: Vec<u8>)
        ensures
            r@ == self@.mem.subrange(0x100, 0x200),
    {
        self.stack.get_stack(&self.memory)
    }

    /// A read-only snapshot of the register file and flags.
    pub fn registers(&self) -> (r: crate::cpu_state::CpuState)
        ensures
            r == crate::cpu_state::spec_cpu_state(self@),
    {
        crate::cpu_state::CpuState::new(self)
    }
}

} // verus!
