use vstd::prelude::*;
use crate::errors::EmuError;
use crate::word::{word16, wrap16};

verus! {

/// The flat 64 KiB byte-addressable memory of the machine. Every 16-bit
/// address maps to a byte, so reads and writes are total.
pub struct Memory {
    ram: Vec<u8>,
}

/// A byte read from memory.
pub open spec fn mem_read(m: Seq<u8>, addr: u16) -> u8 {
    m[addr as int]
}

/// Memory after a byte is written.
pub open spec fn mem_write(m: Seq<u8>, addr: u16, data: u8) -> Seq<u8> {
    m.update(addr as int, data)
}

/// A little-endian word read from memory; the high byte comes from the
/// following address, wrapping at the top of the address space.
pub open spec fn mem_read_word(m: Seq<u8>, addr: u16) -> u16 {
    word16(mem_read(m, addr), mem_read(m, wrap16(addr + 1)))
}

/// The address one past `addr` within the same 256-byte page: the low byte
/// is incremented with wrap-around and the high byte is kept.
pub open spec fn same_page_next(addr: u16) -> u16 {
    (addr / 0x100 * 0x100 + (addr % 0x100 + 1) % 0x100) as u16
}

/// A little-endian word read whose high-byte fetch does not leave the page
/// of `addr`, as the 6502 does for indirect vectors (the indirect-JMP page
/// bug, and zero-page pointer wrap-around).
pub open spec fn mem_read_word_in_page(m: Seq<u8>, addr: u16) -> u16 {
    word16(mem_read(m, addr), mem_read(m, same_page_next(addr)))
}

/// Memory after an image is copied in starting at `origin`.
pub open spec fn mem_load(m: Seq<u8>, data: Seq<u8>, origin: u16) -> Seq<u8> {
    Seq::new(m.len(), |i: int| if origin <= i < origin + data.len() { data[i - origin] } else { m[i] })
}

impl View for Memory {
    type V = Seq<u8>;

    closed spec fn view(&self) -> Seq<u8> {
        self.ram@
    }
}

impl Memory {
    #[verifier::type_invariant]
    spec fn type_inv(&self) -> bool {
        self.ram@.len() == 0x10000
    }

    /// Fresh memory, every byte zero.
    pub fn new() -> (m: Memory)
        ensures
            m@ == Seq::new(0x10000, |i: int| 0u8),
    {
        let mut ram: Vec<u8> = Vec::new();
        let mut i: usize = 0;
        while i < 0x10000
            invariant
                i <= 0x10000,
                ram@ == Seq::new(i as nat, |j: int| 0u8),
            decreases 0x10000 - i,
        {
            ram.push(0);
            proof {
                assert(ram@ =~= Seq::new((i + 1) as nat, |j: int| 0u8));
            }
            i += 1;
        }
        Memory { ram }
    }

    /// The byte at `addr`.
    pub fn read_byte(&self, addr: u16) -> (r: u8)
        ensures
            r == mem_read(self@, addr),
    {
        proof {
            use_type_invariant(self);
        }
        self.ram[addr as usize]
    }

    /// The little-endian word at `addr`; the high byte comes from the next
    /// address, wrapping at the top of the address space.
    pub fn read_word(&self, addr: u16) -> (r: u16)
        ensures
            r == mem_read_word(self@, addr),
    {
        let least_significant = self.read_byte(addr);
        let most_significant = self.read_byte(crate::word::wrap16_add(addr, 1));
        crate::word::word_from(least_significant, most_significant)
    }

    /// The little-endian word at `addr` whose high-byte fetch wraps within
    /// the page of `addr`, as the hardware does for indirect vectors.
    pub fn read_word_wrapped(&self, addr: u16) -> (r: u16)
        ensures
            r == mem_read_word_in_page(self@, addr),
    {
        let least_significant = self.read_byte(addr);
        let most_significant = self.read_byte(addr / 0x100 * 0x100 + (addr % 0x100 + 1) % 0x100);
        crate::word::word_from(least_significant, most_significant)
    }

    /// Store a byte at `addr`.
    pub fn write_byte(&mut self, addr: u16, data: u8)
        ensures
            final(self)@ == mem_write(old(self)@, addr, data),
    {
        proof {
            use_type_invariant(&*self);
        }
        self.ram[addr as usize] = data;
    }

    /// Copy an image into memory starting at `origin`. An image that would
    /// run past the end of the address space is rejected whole: nothing is
    /// written.
    pub fn load(&mut self, data: &Vec<u8>, origin: u16) -> (r: Result<(), EmuError>)
        ensures
            match r {
                Ok(()) => origin + data@.len() <= 0x10000
                    && final(self)@ == mem_load(old(self)@, data@, origin),
                Err(e) => origin + data@.len() > 0x10000
                    && e == (EmuError::ImageTooLarge { origin, len: data@.len() as usize })
                    && final(self)@ == old(self)@,
            },
    {
        proof {
            use_type_invariant(&*self);
        }
        if data.len() > 0x10000 - origin as usize {
            return Err(EmuError::ImageTooLarge { origin, len: data.len() });
        }
        let ghost m0 = self.ram@;
        let mut i: usize = 0;
        while i < data.len()
            invariant
                i <= data@.len(),
                origin + data@.len() <= 0x10000,
                self.ram@.len() == m0.len() == 0x10000,
                forall|j: int| 0 <= j < m0.len() ==> self.ram@[j] == (
                    if origin <= j < origin + i { data@[j - origin] } else { m0[j] }
                ),
            decreases data@.len() - i,
        {
            self.ram[origin as usize + i] = data[i];
            i += 1;
        }
        proof {
            assert(self.ram@ =~= mem_load(m0, data@, origin));
        }
        Ok(())
    }

    /// A copy of `size` bytes of memory starting at `first_index`, clamped
    /// to the end of the address space.
    pub fn get_ram(&self, first_index: usize, size: usize) -> (r: Vec<u8>)
        ensures
            r@ == self@.subrange(
                if first_index <= 0x10000 { first_index as int } else { 0x10000 },
                if first_index + size <= 0x10000 { first_index + size } else { 0x10000 },
            ),
    {
        proof {
            use_type_invariant(self);
        }
        let start = if first_index <= 0x10000 { first_index } else { 0x10000 };
        let end = if size <= 0x10000 - start { start + size } else { 0x10000 };
        let mut ram_vec: Vec<u8> = Vec::new();
        let mut i: usize = start;
        while i < end
            invariant
                start <= i <= end <= 0x10000,
                self.ram@.len() == 0x10000,
                ram_vec@ == self.ram@.subrange(start as int, i as int),
            decreases end - i,
        {
            ram_vec.push(self.ram[i]);
            proof {
                assert(ram_vec@ =~= self.ram@.subrange(start as int, i + 1));
            }
            i += 1;
        }
        proof {
            assert(start as int == if first_index <= 0x10000 { first_index as int } else { 0x10000int });
            assert(end as int == if first_index + size <= 0x10000 { first_index + size } else { 0x10000int });
        }
        ram_vec
    }
}

/// A byte written to memory is the byte read back from the same address,
/// and every other address is untouched; a word read is the little-endian
/// combination of the two byte reads.
pub proof fn lemma_mem_round_trip(m: Seq<u8>, addr: u16, data: u8, other: u16)
    requires
        m.len() == 0x10000,
    ensures
        mem_read(mem_write(m, addr, data), addr) == data,
        other != addr ==> mem_read(mem_write(m, addr, data), other) == mem_read(m, other),
        addr < 0xFFFF ==> mem_read_word(m, addr) == mem_read(m, addr) + 0x100 * mem_read(m, (addr + 1) as u16),
{
}

} // verus!
