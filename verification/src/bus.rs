//! The memory bus: a byte-addressable 64 KiB address space.
//!
//! The bus owns the backing storage exclusively. Every 16-bit address is
//! valid, so reads and writes are total: no instruction can step outside the
//! address space, which keeps the addressing-mode and execution contracts
//! free of bounds side conditions.

use vstd::prelude::*;

verus! {

/// The number of addressable bytes: the full 16-bit address space.
pub const ADDRESS_SPACE: usize = 0x10000;

/// A byte-addressable memory of exactly [`ADDRESS_SPACE`] bytes.
pub struct Bus {
    mem: Vec<u8>,
}

impl Bus {
    /// The bus viewed as the sequence of its bytes, indexed by address.
    pub closed spec fn view(&self) -> Seq<u8> {
        self.mem@
    }

    /// Well-formedness: the backing storage covers the whole address space.
    pub open spec fn wf(&self) -> bool {
        self@.len() == ADDRESS_SPACE
    }

    /// A fresh bus with every byte zeroed.
    pub fn new() -> (b: Bus)
        ensures
            b.wf(),
            forall|i: int| 0 <= i < ADDRESS_SPACE ==> b@[i] == 0u8,
    {
        let mut mem: Vec<u8> = Vec::new();
        while mem.len() < ADDRESS_SPACE
            invariant
                mem@.len() <= ADDRESS_SPACE,
                forall|i: int| 0 <= i < mem@.len() ==> mem@[i] == 0u8,
            decreases ADDRESS_SPACE - mem@.len(),
        {
            mem.push(0u8);
        }
        Bus { mem }
    }

    /// Read the byte at `addr`.
    pub fn read(&self, addr: u16) -> (v: u8)
        requires
            self.wf(),
        ensures
            v == self@[addr as int],
    {
        self.mem[addr as usize]
    }

    /// Write `v` to `addr`; every other byte is unchanged.
    pub fn write(&mut self, addr: u16, v: u8)
        requires
            old(self).wf(),
        ensures
            final(self).wf(),
            final(self)@ == old(self)@.update(addr as int, v),
    {
        self.mem.set(addr as usize, v);
    }
}

} // verus!
