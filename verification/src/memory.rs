//! The flat, byte-addressable memory of the machine.

use core::ops::Index;
use core::ops::IndexMut;
use vstd::prelude::*;

verus! {

/// Number of addressable bytes: the full range of a 16-bit address.
pub const MAX_MEM: usize = 65536;

/// Why a memory access was refused.
#[derive(Debug, Clone, Copy, PartialEq, Eq, Structural)]
pub enum MemError {
    /// The address lies at or beyond `MAX_MEM`.
    AddressOutOfRange,
}

/// The address that follows `addr`; the top of memory is followed by address zero.
pub open spec fn next_address(addr: int) -> int {
    (addr + 1) % (MAX_MEM as int)
}

/// The little-endian word whose low byte is at `addr` and whose high byte is
/// at the address that follows.
pub open spec fn word_at(mem: Seq<u8>, addr: int) -> u16 {
    (mem[addr] as int + 256 * (mem[next_address(addr)] as int)) as u16
}

/// The memory `mem` after the little-endian word `value` was stored at `addr`.
pub open spec fn with_word(mem: Seq<u8>, addr: int, value: u16) -> Seq<u8> {
    mem.update(addr, (value % 256) as u8).update(next_address(addr), (value / 256) as u8)
}

/// Shifting and masking take a word apart into its high and low byte.
pub(crate) proof fn lemma_bytes_of_word(word: u16)
    by (bit_vector)
    ensures
        word >> 8 == word / 256,
        (word >> 8) & 0xFF == word / 256,
        word & 0xFF == word % 256,
{
}

/// Shifting and joining put a low and a high byte together into a word.
pub(crate) proof fn lemma_word_of_bytes(low_byte: u16, high_byte: u16)
    by (bit_vector)
    requires
        low_byte < 256,
        high_byte < 256,
    ensures
        low_byte | (high_byte << 8) == low_byte + 256 * high_byte,
{
}

/// 64 KiB of memory, addressed by byte.
pub struct Mem {
    data: [u8; MAX_MEM],
}

impl View for Mem {
    type V = Seq<u8>;

    /// The contents as a sequence of `MAX_MEM` bytes, indexed by address.
    open spec fn view(&self) -> Seq<u8> {
        Seq::new(MAX_MEM as nat, |addr: int| self.byte(addr))
    }
}

impl Mem {
    /// The byte stored at `addr`.
    pub closed spec fn byte(&self, addr: int) -> u8 {
        self.data@[addr]
    }

    /// A memory with every byte zero.
    pub fn new() -> (mem: Mem)
        ensures
            mem@ == Seq::new(MAX_MEM as nat, |addr: int| 0u8),
    {
        Mem { data: [0u8; MAX_MEM] }
    }

    /// Reads the byte at `addr`.
    pub fn read_byte(&self, addr: usize) -> (r: Result<u8, MemError>)
        ensures
            match r {
                Ok(byte) => addr < MAX_MEM && byte == self@[addr as int],
                Err(e) => addr >= MAX_MEM && e == MemError::AddressOutOfRange,
            },
    {
        if addr >= MAX_MEM {
            return Err(MemError::AddressOutOfRange);
        }
        Ok(self.data[addr])
    }

    /// Stores `value` at `addr`. A refused write leaves the memory as it was.
    pub fn write_byte(&mut self, addr: usize, value: u8) -> (r: Result<(), MemError>)
        ensures
            match r {
                Ok(()) => addr < MAX_MEM && final(self)@ == old(self)@.update(addr as int, value),
                Err(e) => addr >= MAX_MEM && e == MemError::AddressOutOfRange && final(self)@
                    == old(self)@,
            },
    {
        if addr >= MAX_MEM {
            return Err(MemError::AddressOutOfRange);
        }
        self.data[addr] = value;
        Ok(())
    }

    /// Reads the little-endian word at `addr`. A word at the last address has
    /// its high byte at address zero.
    pub fn read_word(&self, addr: usize) -> (r: Result<u16, MemError>)
        ensures
            match r {
                Ok(word) => addr < MAX_MEM && word == word_at(self@, addr as int),
                Err(e) => addr >= MAX_MEM && e == MemError::AddressOutOfRange,
            },
    {
        if addr >= MAX_MEM {
            return Err(MemError::AddressOutOfRange);
        }
        let next: usize = (addr + 1) % MAX_MEM;
        let low_byte: u16 = self.data[addr] as u16;
        let high_byte: u16 = self.data[next] as u16;
        proof {
            lemma_word_of_bytes(low_byte, high_byte);
        }
        Ok(low_byte | (high_byte << 8))
    }

    /// Stores the little-endian word `value` at `addr`. A word at the last
    /// address has its high byte at address zero. A refused write leaves the
    /// memory as it was.
    pub fn write_word(&mut self, addr: usize, value: u16) -> (r: Result<(), MemError>)
        ensures
            match r {
                Ok(()) => addr < MAX_MEM && final(self)@ == with_word(
                    old(self)@,
                    addr as int,
                    value,
                ),
                Err(e) => addr >= MAX_MEM && e == MemError::AddressOutOfRange && final(self)@
                    == old(self)@,
            },
    {
        if addr >= MAX_MEM {
            return Err(MemError::AddressOutOfRange);
        }
        let next: usize = (addr + 1) % MAX_MEM;
        proof {
            lemma_bytes_of_word(value);
        }
        self.data[addr] = (value & 0xFF) as u8;
        self.data[next] = ((value >> 8) & 0xFF) as u8;
        Ok(())
    }
}

impl Default for Mem {
    /// A memory with every byte zero.
    fn default() -> (mem: Mem)
        ensures
            mem@ == Seq::new(MAX_MEM as nat, |addr: int| 0u8),
    {
        Mem::new()
    }
}

impl Index<usize> for Mem {
    type Output = u8;

    /// The byte at `index`, which must be an address of the memory.
    fn index(&self, index: usize) -> (byte: &u8)
        ensures
            *byte == self@[index as int],
    {
        &self.data[index]
    }
}

impl vstd::std_specs::core::IndexSpecImpl<usize> for Mem {
    open spec fn index_req(&self, index: &usize) -> bool {
        *index < MAX_MEM
    }
}

impl IndexMut<usize> for Mem {
    /// The place of the byte at `index`, which must be an address of the memory.
    fn index_mut(&mut self, index: usize) -> (byte: &mut u8)
        requires
            index < MAX_MEM,
        ensures
            *byte == old(self)@[index as int],
            final(self)@ == old(self)@.update(index as int, *final(byte)),
    {
        &mut self.data[index]
    }
}

/// A word that was stored at an address is read back from that address,
/// also where it spans the last address and address zero.
pub proof fn lemma_word_round_trip(mem: Seq<u8>, addr: int, value: u16)
    requires
        mem.len() == MAX_MEM,
        0 <= addr < MAX_MEM,
    ensures
        word_at(with_word(mem, addr, value), addr) == value,
{
}

/// Storing a word changes no byte but the two that hold it.
pub proof fn lemma_word_store_is_local(mem: Seq<u8>, addr: int, value: u16, other: int)
    requires
        mem.len() == MAX_MEM,
        0 <= addr < MAX_MEM,
        0 <= other < MAX_MEM,
        other != addr,
        other != next_address(addr),
    ensures
        with_word(mem, addr, value).len() == MAX_MEM,
        with_word(mem, addr, value)[other] == mem[other],
{
}

} // verus!
