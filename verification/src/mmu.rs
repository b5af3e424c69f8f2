//! The memory unit: a flat, byte-addressable store of 64 KiB.

use vstd::prelude::*;

verus! {

/// Number of bytes in the address space.
pub const MAX_MMU_RAM: usize = 0x10000;

/// The memory of the machine. Its model is the sequence of its 65536 cells.
pub struct Mmu {
    ram: [u8; MAX_MMU_RAM],
}

impl View for Mmu {
    type V = Seq<u8>;

    closed spec fn view(&self) -> Seq<u8> {
        self.ram@
    }
}

/// A memory in which every cell holds zero.
pub open spec fn zeroed() -> Seq<u8> {
    Seq::new(MAX_MMU_RAM as nat, |i: int| 0u8)
}

/// Every memory has exactly one cell per address.
pub broadcast proof fn lemma_mmu_size(mmu: Mmu)
    ensures
        #[trigger] mmu@.len() == MAX_MMU_RAM,
{
}

impl Mmu {
    /// A fresh memory, all zero.
    pub fn new() -> (mmu: Mmu)
        ensures
            mmu@ == zeroed(),
    {
        let mmu = Mmu { ram: [0u8; MAX_MMU_RAM] };
        assert(mmu@ =~= zeroed());
        mmu
    }

    /// Stores `val` at `addr`; no other cell changes.
    pub fn write_mem(&mut self, addr: u16, val: u8)
        ensures
            final(self)@ == old(self)@.update(addr as int, val),
    {
        let at: usize = addr as usize;
        // An offset past the end can only come from a fault in address
        // arithmetic; it is ignored rather than allowed to stop the run.
        if at >= MAX_MMU_RAM {
            return ;
        }
        self.ram[at] = val;
    }

    /// The byte at `addr`.
    pub fn read_mem(&self, addr: u16) -> (val: u8)
        ensures
            val == self@[addr as int],
    {
        let at: usize = addr as usize;
        if at >= MAX_MMU_RAM {
            return 0;
        }
        self.ram[at]
    }
}

} // verus!
