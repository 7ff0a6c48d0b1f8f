//! A flat, byte-addressable 64KB address space. Every 16-bit address is
//! valid; word accesses are little-endian and the address of the second
//! byte wraps around the end of the space.

use vstd::prelude::*;
use crate::word::{combine, hi, lo, lemma_combine_split};

verus! {

/// The address one past `addr`, wrapping around the 16-bit address space.
pub open spec fn next_addr(addr: u16) -> u16 {
    if addr == 0xFFFF {
        0
    } else {
        (addr + 1) as u16
    }
}

/// The address one before `addr`, wrapping around the 16-bit address space.
pub open spec fn prev_addr(addr: u16) -> u16 {
    if addr == 0 {
        0xFFFF
    } else {
        (addr - 1) as u16
    }
}

/// A fixed 65536-byte address space.
pub struct Memory {
    bytes: Vec<u8>,
}

impl View for Memory {
    type V = Seq<u8>;

    closed spec fn view(&self) -> Seq<u8> {
        self.bytes@
    }
}

impl Memory {
    /// The address space always holds exactly 65536 cells, so every 16-bit
    /// address is in range.
    pub open spec fn wf(self) -> bool {
        self@.len() == 65536
    }

    /// A zero-filled address space.
    pub fn new() -> (r: Self)
        ensures
            r.wf(),
            forall|i: int| 0 <= i < 65536 ==> r@[i] == 0u8,
    {
        let bytes: Vec<u8> = vec![0u8; 65536];
        Memory { bytes }
    }

    /// Store one byte.
    pub fn set8(&mut self, addr: u16, value: u8)
        requires
            old(self).wf(),
        ensures
            final(self).wf(),
            final(self)@ == old(self)@.update(addr as int, value),
    {
        self.bytes.set(addr as usize, value);
    }

    /// Load one byte.
    pub fn get8(&self, addr: u16) -> (v: u8)
        requires
            self.wf(),
        ensures
            v == self@[addr as int],
    {
        self.bytes[addr as usize]
    }

    /// Store a 16-bit word in little-endian order: low byte at `addr`,
    /// high byte at the following address.
    pub fn set16(&mut self, addr: u16, value: u16)
        requires
            old(self).wf(),
        ensures
            final(self).wf(),
            final(self)@ == old(self)@.update(addr as int, lo(value)).update(
                next_addr(addr) as int,
                hi(value),
            ),
    {
        self.set8(addr, (value % 256) as u8);
        self.set8(addr.wrapping_add(1), (value / 256) as u8);
    }

    /// Load a 16-bit word in little-endian order: low byte from `addr`,
    /// high byte from the following address.
    pub fn get16(&self, addr: u16) -> (v: u16)
        requires
            self.wf(),
        ensures
            v == combine(self@[next_addr(addr) as int], self@[addr as int]),
    {
        let l = self.get8(addr);
        let h = self.get8(addr.wrapping_add(1));
        proof {
            lemma_combine_split(0, h, l);
        }
        (h as u16) * 256 + (l as u16)
    }

    /// The size of the address space.
    pub fn len(&self) -> (n: usize)
        ensures
            n == self@.len(),
    {
        self.bytes.len()
    }
}

} // verus!
