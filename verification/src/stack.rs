use vstd::prelude::*;
use crate::memory::{mem_read, mem_write, Memory};
use crate::word::{word16, word_from, wrap8, wrap8_add, wrap8_sub, high_byte, low_byte};

verus! {

/// The hardware stack: an 8-bit stack pointer into memory page 0x01. The
/// pointer names the next free slot; a push stores at 0x0100 + SP and then
/// decrements SP, wrapping 0x00 to 0xFF.
pub struct Stack {
    pub sp: u8,
}

/// The memory address a stack pointer refers to, inside page 0x01.
pub open spec fn stack_slot(sp: u8) -> u16 {
    (0x100 + sp) as u16
}

/// Memory and stack pointer after one byte is pushed.
pub open spec fn stack_push(m: Seq<u8>, sp: u8, data: u8) -> (Seq<u8>, u8) {
    (mem_write(m, stack_slot(sp), data), wrap8(sp - 1))
}

/// The byte popped from the stack and the stack pointer after the pop.
pub open spec fn stack_pop(m: Seq<u8>, sp: u8) -> (u8, u8) {
    let sp1 = wrap8(sp + 1);
    (mem_read(m, stack_slot(sp1)), sp1)
}

/// Memory and stack pointer after a sequence of bytes is pushed in order.
pub open spec fn stack_push_all(m: Seq<u8>, sp: u8, vs: Seq<u8>) -> (Seq<u8>, u8)
    decreases vs.len(),
{
    if vs.len() == 0 {
        (m, sp)
    } else {
        let (m1, sp1) = stack_push(m, sp, vs[0]);
        stack_push_all(m1, sp1, vs.drop_first())
    }
}

/// The bytes obtained by popping `n` times in order.
pub open spec fn stack_pop_all(m: Seq<u8>, sp: u8, n: nat) -> Seq<u8>
    decreases n,
{
    if n == 0 {
        Seq::empty()
    } else {
        let (v, sp1) = stack_pop(m, sp);
        seq![v] + stack_pop_all(m, sp1, (n - 1) as nat)
    }
}

impl Stack {
    /// A stack pointer at its post-reset value.
    pub fn new() -> (s: Stack)
        ensures
            s.sp == 0xFD,
    {
        Stack { sp: 0xFD }
    }

    /// Push one byte: store at 0x0100 + SP, then decrement SP with wrap.
    pub fn push_byte(&mut self, mem: &mut Memory, data: u8)
        ensures
            (final(mem)@, final(self).sp) == stack_push(old(mem)@, old(self).sp, data),
    {
        mem.write_byte(0x100 + self.sp as u16, data);
        self.sp = wrap8_sub(self.sp, 1);
    }

    /// Pop one byte: increment SP with wrap, then read at 0x0100 + SP.
    pub fn pop_byte(&mut self, mem: &Memory) -> (r: u8)
        ensures
            (r, final(self).sp) == stack_pop(mem@, old(self).sp),
    {
        self.sp = wrap8_add(self.sp, 1);
        mem.read_byte(0x100 + self.sp as u16)
    }

    /// Push a 16-bit word: high byte first, then low byte, so the low byte
    /// ends up at the lower address.
    pub fn push_word(&mut self, mem: &mut Memory, data: u16)
        ensures
            ({
                let (m1, sp1) = stack_push(old(mem)@, old(self).sp, (data / 0x100) as u8);
                let (m2, sp2) = stack_push(m1, sp1, wrap8(data as int));
                final(mem)@ == m2 && final(self).sp == sp2
            }),
    {
        let hi = high_byte(data);
        let lo = low_byte(data);
        self.push_byte(mem, hi);
        self.push_byte(mem, lo);
    }

    /// Pop a 16-bit word: the low byte comes off first, then the high byte.
    pub fn pop_word(&mut self, mem: &Memory) -> (r: u16)
        ensures
            ({
                let (lo, sp1) = stack_pop(mem@, old(self).sp);
                let (hi, sp2) = stack_pop(mem@, sp1);
                r == word16(lo, hi) && final(self).sp == sp2
            }),
    {
        let lo = self.pop_byte(mem);
        let hi = self.pop_byte(mem);
        word_from(lo, hi)
    }

    /// The current stack pointer.
    pub fn get_sp(&self) -> (r: u8)
        ensures
            r == self.sp,
    {
        self.sp
    }

    /// A copy of the 256 bytes of the stack page.
    pub fn get_stack(&self, mem: &Memory) -> (r: Vec<u8>)
        ensures
            r@ == mem@.subrange(0x100, 0x200),
    {
        mem.get_ram(0x100, 0x100)
    }
}

/// After pushing a sequence of bytes the stack pointer has moved down by
/// the length of the sequence, modulo 256.
proof fn lemma_stack_push_all_sp(m: Seq<u8>, sp: u8, vs: Seq<u8>)
    requires
        m.len() == 0x10000,
    ensures
        stack_push_all(m, sp, vs).1 == wrap8(sp - vs.len()),
        stack_push_all(m, sp, vs).0.len() == m.len(),
    decreases vs.len(),
{
    if vs.len() == 0 {
        vstd::arithmetic::div_mod::lemma_small_mod(sp as nat, 0x100);
    } else {
        let (m1, sp1) = stack_push(m, sp, vs[0]);
        lemma_stack_push_all_sp(m1, sp1, vs.drop_first());
        crate::word::lemma_wrap8_shift(sp - 1, vs.len() - 1);
    }
}

/// Pushes only touch the slots they name: an address that is none of the
/// pushed slots keeps its byte.
proof fn lemma_stack_push_all_frame(m: Seq<u8>, sp: u8, vs: Seq<u8>, addr: u16)
    requires
        m.len() == 0x10000,
        forall|i: int| 0 <= i < vs.len() ==> addr != stack_slot(#[trigger] wrap8(sp - i)),
    ensures
        stack_push_all(m, sp, vs).0[addr as int] == m[addr as int],
    decreases vs.len(),
{
    if vs.len() == 0 {
    } else {
        let (m1, sp1) = stack_push(m, sp, vs[0]);
        assert(wrap8(sp - 0) == sp) by {
            vstd::arithmetic::div_mod::lemma_small_mod(sp as nat, 0x100);
        }
        assert(addr != stack_slot(sp));
        assert forall|i: int| 0 <= i < vs.len() - 1 implies addr != stack_slot(#[trigger] wrap8(sp1 - i)) by {
            crate::word::lemma_wrap8_shift(sp - 1, i);
            assert(addr != stack_slot(wrap8(sp - (i + 1))));
        }
        lemma_stack_push_all_frame(m1, sp1, vs.drop_first(), addr);
    }
}

/// Popping `n + 1` values yields the `n`-pop prefix followed by the byte
/// `n + 1` slots above the stack pointer.
proof fn lemma_stack_pop_all_snoc(m: Seq<u8>, sp: u8, n: nat)
    requires
        n >= 1,
    ensures
        stack_pop_all(m, sp, n) == stack_pop_all(m, sp, (n - 1) as nat)
            + seq![mem_read(m, stack_slot(wrap8(sp + n)))],
    decreases n,
{
    let sp1 = wrap8(sp + 1);
    if n == 1 {
        reveal_with_fuel(stack_pop_all, 3);
        assert(stack_pop_all(m, sp, 1) =~= stack_pop_all(m, sp, 0)
            + seq![mem_read(m, stack_slot(wrap8(sp + 1)))]);
    } else {
        lemma_stack_pop_all_snoc(m, sp1, (n - 1) as nat);
        assert(wrap8(sp1 + (n - 1)) == wrap8(sp + n)) by {
            crate::word::lemma_wrap8_shift(sp + 1, n - 1);
        }
        assert(stack_pop_all(m, sp, n) =~= stack_pop_all(m, sp, (n - 1) as nat)
            + seq![mem_read(m, stack_slot(wrap8(sp + n)))]);
    }
}

/// Pushing a sequence of at most 256 bytes and then popping that many bytes
/// returns exactly the pushed values in reverse order, and the stack
/// pointer comes back to its starting value. (With more than 256 bytes the
/// single page of stack memory wraps onto itself and the earliest values
/// are overwritten.)
pub proof fn lemma_stack_push_pop_inverse(m: Seq<u8>, sp: u8, vs: Seq<u8>)
    requires
        m.len() == 0x10000,
        vs.len() <= 0x100,
    ensures
        ({
            let (m2, sp2) = stack_push_all(m, sp, vs);
            stack_pop_all(m2, sp2, vs.len()) == vs.reverse()
                && sp2 == wrap8(sp - vs.len())
                && wrap8(sp2 + vs.len()) == sp
        }),
    decreases vs.len(),
{
    let n = vs.len() as int;
    let (m2, sp2) = stack_push_all(m, sp, vs);
    lemma_stack_push_all_sp(m, sp, vs);
    assert(wrap8(sp2 + n) == sp) by {
        crate::word::lemma_wrap8_shift(sp - n, n);
        vstd::arithmetic::div_mod::lemma_small_mod(sp as nat, 0x100);
    }
    if vs.len() == 0 {
        assert(stack_pop_all(m2, sp2, 0) =~= vs.reverse());
    } else {
        let (m1, sp1) = stack_push(m, sp, vs[0]);
        let rest = vs.drop_first();
        lemma_stack_push_pop_inverse(m1, sp1, rest);
        lemma_stack_push_all_sp(m1, sp1, rest);
        // The n-th pop reads the slot written by the very first push;
        // no later push touches that slot.
        lemma_stack_pop_all_snoc(m2, sp2, n as nat);
        assert forall|i: int| 0 <= i < rest.len() implies stack_slot(sp) != stack_slot(#[trigger] wrap8(sp1 - i)) by {
            crate::word::lemma_wrap8_shift(sp - 1, i);
            crate::word::lemma_wrap8_distinct(sp, i + 1);
            assert(wrap8(sp1 - i) == wrap8(sp - (i + 1)));
        }
        lemma_stack_push_all_frame(m1, sp1, rest, stack_slot(sp));
        assert(m2[stack_slot(sp) as int] == vs[0]);
        assert(stack_pop_all(m2, sp2, rest.len()) == rest.reverse());
        assert(stack_pop_all(m2, sp2, vs.len()) =~= rest.reverse() + seq![vs[0]]);
        assert(vs.reverse() =~= rest.reverse() + seq![vs[0]]);
    }
}

} // verus!
