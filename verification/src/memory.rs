//! The flat 64 KiB address space.
//!
//! Storage is one owned array. The named ranges are address constants only:
//! nothing at this level stops a write into the ROM range.
use vstd::prelude::*;
use crate::arith::{join_word, low_word, make_word, high_byte, low_byte_of};

verus! {

/// The number of bytes in the address space.
pub const MEMORY_SIZE: usize = 0x10000;

pub const MEMORY_LOW_ADDRESS: u16 = 0x0000;

pub const MEMORY_HIGH_ADDRESS: u16 = 0xFFFF;

pub const STACK_LOW_ADDRESS: u16 = 0x100;

pub const STACK_HIGH_ADDRESS: u16 = 0x1FF;

pub const RAM_LOW_ADDRESS: u16 = 0x0000;

pub const RAM_HIGH_ADDRESS: u16 = 0x7FFF;

pub const ROM_LOW_ADDRESS: u16 = 0x8000;

pub const ROM_HIGH_ADDRESS: u16 = 0xFFFF;

/// Address of the non-maskable interrupt vector.
pub const NMI: u16 = 0xFFFA;

/// Address of the reset vector.
pub const RESET: u16 = 0xFFFC;

/// Address of the interrupt-request vector, also taken by a software interrupt.
pub const IRQ: u16 = 0xFFFE;

/// The byte that the address space `mem` holds at `addr`.
pub open spec fn byte_at(mem: Seq<u8>, addr: u16) -> u8 {
    mem[addr as int]
}

/// The little-endian word that `mem` holds at `addr` and at the address after
/// it, which is address 0 when `addr` is 0xFFFF.
pub open spec fn word_at(mem: Seq<u8>, addr: u16) -> u16 {
    make_word(byte_at(mem, addr), byte_at(mem, low_word(addr + 1)))
}

/// `mem` with the byte at `addr` replaced by `value`.
pub open spec fn store_byte(mem: Seq<u8>, addr: u16, value: u8) -> Seq<u8> {
    mem.update(addr as int, value)
}

/// `mem` with the little-endian word `value` stored at `addr` and at the
/// address after it.
pub open spec fn store_word(mem: Seq<u8>, addr: u16, value: u16) -> Seq<u8> {
    store_byte(
        store_byte(mem, addr, (value % 0x100) as u8),
        low_word(addr + 1),
        (value / 0x100) as u8,
    )
}

/// The 64 KiB of memory, one byte for each 16-bit address.
pub struct Memory {
    bytes: [u8; MEMORY_SIZE],
}

impl View for Memory {
    type V = Seq<u8>;

    closed spec fn view(&self) -> Seq<u8> {
        self.bytes@
    }
}

impl Memory {
    /// Every memory holds exactly 65536 bytes.
    pub proof fn lemma_size(&self)
        ensures
            self@.len() == 0x10000,
    {
    }

    /// A memory of 65536 zero bytes.
    pub fn new() -> (m: Memory)
        ensures
            m@ == Seq::new(0x10000, |i: int| 0u8),
    {
        let m = Memory { bytes: [0u8; MEMORY_SIZE] };
        assert(m@ =~= Seq::new(0x10000, |i: int| 0u8));
        m
    }

    /// The byte at `address`.
    pub fn read_byte(&self, address: u16) -> (b: u8)
        ensures
            b == byte_at(self@, address),
            self@.len() == 0x10000,
    {
        self.bytes[address as usize]
    }

    /// Replaces the byte at `address` by `value`.
    pub fn write_byte(&mut self, address: u16, value: u8)
        ensures
            final(self)@ == store_byte(old(self)@, address, value),
            final(self)@.len() == 0x10000,
    {
        self.bytes[address as usize] = value;
    }

    /// Reads the little-endian word at `addr`. The high byte comes from the
    /// following address, wrapping from 0xFFFF to 0.
    pub fn read_word(&self, addr: u16) -> (w: u16)
        ensures
            w == word_at(self@, addr),
    {
        let lower = self.read_byte(addr);
        let upper = self.read_byte(addr.wrapping_add(1));
        join_word(lower, upper)
    }

    /// Writes `val` as a little-endian word at `addr`. The high byte goes to
    /// the following address, wrapping from 0xFFFF to 0.
    pub fn write_word(&mut self, addr: u16, val: u16)
        ensures
            final(self)@ == store_word(old(self)@, addr, val),
            final(self)@.len() == 0x10000,
    {
        self.write_byte(addr, low_byte_of(val));
        self.write_byte(addr.wrapping_add(1), high_byte(val));
    }
}

} // verus!
