use vstd::prelude::*;

verus! {

/// The seven architectural flags of the 6502 status register.
///
/// The B (break) flag exists as a stored bit only in bytes pushed on the
/// stack; in the register proper it is kept at false except while a pushed
/// byte that had it set is being restored verbatim by `set_status_byte`.
#[derive(Clone, Copy, Debug, PartialEq, Eq, Structural)]
pub struct StatusRegister {
    pub negative: bool,
    pub overflow: bool,
    pub brk: bool,
    pub decimal: bool,
    pub interrupt_disable: bool,
    pub zero: bool,
    pub carry: bool,
}

/// The packed byte N V 1 B D I Z C of a status register, with bit 5 always
/// set.
pub open spec fn spec_status_byte(sr: StatusRegister) -> u8 {
    ((if sr.negative { 0x80int } else { 0int })
        + (if sr.overflow { 0x40int } else { 0int })
        + 0x20int
        + (if sr.brk { 0x10int } else { 0int })
        + (if sr.decimal { 0x08int } else { 0int })
        + (if sr.interrupt_disable { 0x04int } else { 0int })
        + (if sr.zero { 0x02int } else { 0int })
        + (if sr.carry { 0x01int } else { 0int })) as u8
}

/// The status register encoded by a packed byte; every bit is distributed
/// to its flag and bit 5 is ignored.
pub open spec fn spec_status_from_byte(b: u8) -> StatusRegister {
    StatusRegister {
        negative: b / 0x80 % 2 == 1,
        overflow: b / 0x40 % 2 == 1,
        brk: b / 0x10 % 2 == 1,
        decimal: b / 0x08 % 2 == 1,
        interrupt_disable: b / 0x04 % 2 == 1,
        zero: b / 0x02 % 2 == 1,
        carry: b % 2 == 1,
    }
}

impl StatusRegister {
    /// A status register with every flag clear.
    pub fn new() -> (sr: StatusRegister)
        ensures
            sr == (StatusRegister {
                negative: false,
                overflow: false,
                brk: false,
                decimal: false,
                interrupt_disable: false,
                zero: false,
                carry: false,
            }),
    {
        StatusRegister {
            negative: false,
            overflow: false,
            brk: false,
            decimal: false,
            interrupt_disable: false,
            zero: false,
            carry: false,
        }
    }

    /// Pack the flags into the byte N V 1 B D I Z C, bit 5 set.
    pub fn get_status_byte(&self) -> (b: u8)
        ensures
            b == spec_status_byte(*self),
    {
        let mut b: u8 = 0x20;
        if self.negative {
            b += 0x80;
        }
        if self.overflow {
            b += 0x40;
        }
        if self.brk {
            b += 0x10;
        }
        if self.decimal {
            b += 0x08;
        }
        if self.interrupt_disable {
            b += 0x04;
        }
        if self.zero {
            b += 0x02;
        }
        if self.carry {
            b += 0x01;
        }
        b
    }

    /// Distribute each bit of a packed byte to its flag; bit 5 is ignored.
    pub fn set_status_byte(&mut self, status_byte: u8)
        ensures
            *final(self) == spec_status_from_byte(status_byte),
    {
        self.negative = status_byte / 0x80 % 2 == 1;
        self.overflow = status_byte / 0x40 % 2 == 1;
        self.brk = status_byte / 0x10 % 2 == 1;
        self.decimal = status_byte / 0x08 % 2 == 1;
        self.interrupt_disable = status_byte / 0x04 % 2 == 1;
        self.zero = status_byte / 0x02 % 2 == 1;
        self.carry = status_byte % 2 == 1;
    }

    pub fn get_negative(&self) -> (r: bool)
        ensures
            r == self.negative,
    {
        self.negative
    }

    pub fn get_overflow(&self) -> (r: bool)
        ensures
            r == self.overflow,
    {
        self.overflow
    }

    pub fn get_brk(&self) -> (r: bool)
        ensures
            r == self.brk,
    {
        self.brk
    }

    pub fn get_decimal(&self) -> (r: bool)
        ensures
            r == self.decimal,
    {
        self.decimal
    }

    pub fn get_interrupt_disable(&self) -> (r: bool)
        ensures
            r == self.interrupt_disable,
    {
        self.interrupt_disable
    }

    pub fn get_zero(&self) -> (r: bool)
        ensures
            r == self.zero,
    {
        self.zero
    }

    pub fn get_carry(&self) -> (r: bool)
        ensures
            r == self.carry,
    {
        self.carry
    }
}

/// Packing the status register and unpacking the byte again restores every
/// flag exactly: bit 5, the only bit that carries no flag, is set by the
/// packing and ignored by the unpacking.
pub proof fn lemma_status_byte_round_trip(sr: StatusRegister)
    ensures
        spec_status_from_byte(spec_status_byte(sr)) == sr,
{
}

} // verus!
