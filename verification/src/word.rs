use vstd::prelude::*;

verus! {

/// Reduce a mathematical integer to an 8-bit value, as the 6502 does for
/// every register-width computation.
pub open spec fn wrap8(x: int) -> u8 {
    (x % 0x100) as u8
}

/// Reduce a mathematical integer to a 16-bit value, as the 6502 does for
/// every address-width computation.
pub open spec fn wrap16(x: int) -> u16 {
    (x % 0x10000) as u16
}

/// A 16-bit word assembled little-endian from two bytes.
pub open spec fn word16(lo: u8, hi: u8) -> u16 {
    (lo + 0x100 * hi) as u16
}

/// True exactly when bit 7 (the sign bit) of a byte is set.
pub open spec fn bit7(v: u8) -> bool {
    v >= 0x80
}

/// True exactly when bit 6 of a byte is set.
pub open spec fn bit6(v: u8) -> bool {
    v / 0x40 % 2 == 1
}

/// 8-bit addition with wrap-around.
pub fn wrap8_add(a: u8, b: u8) -> (r: u8)
    ensures
        r == wrap8(a + b),
{
    ((a as u16 + b as u16) % 0x100) as u8
}

/// 8-bit subtraction with wrap-around.
pub fn wrap8_sub(a: u8, b: u8) -> (r: u8)
    ensures
        r == wrap8(a - b),
{
    proof {
        vstd::arithmetic::div_mod::lemma_mod_add_multiples_vanish(a - b, 0x100);
    }
    ((a as u16 + 0x100 - b as u16) % 0x100) as u8
}

/// 16-bit addition with wrap-around.
pub fn wrap16_add(a: u16, b: u16) -> (r: u16)
    ensures
        r == wrap16(a + b),
{
    ((a as u32 + b as u32) % 0x10000) as u16
}

/// Assemble a 16-bit word from its low and high bytes.
pub fn word_from(lo: u8, hi: u8) -> (r: u16)
    ensures
        r == word16(lo, hi),
{
    lo as u16 + 0x100 * hi as u16
}

/// The low byte of a 16-bit word.
pub fn low_byte(w: u16) -> (r: u8)
    ensures
        r == wrap8(w as int),
{
    (w % 0x100) as u8
}

/// The high byte of a 16-bit word.
pub fn high_byte(w: u16) -> (r: u8)
    ensures
        r == w / 0x100,
{
    (w / 0x100) as u8
}

/// An already-wrapped byte value can be shifted by any offset without the
/// inner wrap changing the result.
pub proof fn lemma_wrap8_shift(x: int, y: int)
    ensures
        wrap8(wrap8(x) + y) == wrap8(x + y),
        wrap8(wrap8(x) - y) == wrap8(x - y),
{
    let k = x / 0x100;
    assert(wrap8(x) == x - 0x100 * k);
    vstd::arithmetic::div_mod::lemma_mod_multiples_vanish(-k, x + y, 0x100);
    vstd::arithmetic::div_mod::lemma_mod_multiples_vanish(-k, x - y, 0x100);
}

/// An already-wrapped word value can be shifted by any offset without the
/// inner wrap changing the result.
pub proof fn lemma_wrap16_shift(x: int, y: int)
    ensures
        wrap16(wrap16(x) + y) == wrap16(x + y),
        wrap16(wrap16(x) - y) == wrap16(x - y),
{
    let k = x / 0x10000;
    assert(wrap16(x) == x - 0x10000 * k);
    vstd::arithmetic::div_mod::lemma_mod_multiples_vanish(-k, x + y, 0x10000);
    vstd::arithmetic::div_mod::lemma_mod_multiples_vanish(-k, x - y, 0x10000);
}

/// Moving a byte value by less than a full turn of the wheel never brings
/// it back to where it started.
pub proof fn lemma_wrap8_distinct(sp: u8, d: int)
    requires
        1 <= d < 0x100,
    ensures
        wrap8(sp - d) != sp,
{
    vstd::arithmetic::div_mod::lemma_mod_add_multiples_vanish(sp - d, 0x100);
    if sp - d >= 0 {
        vstd::arithmetic::div_mod::lemma_small_mod((sp - d) as nat, 0x100);
    } else {
        vstd::arithmetic::div_mod::lemma_small_mod((sp - d + 0x100) as nat, 0x100);
    }
}

} // verus!
