//! The paging mode of the processor. The unit maps no address: it only
//! remembers the mode.
use vstd::prelude::*;

verus! {

/// How the processor pages memory.
#[derive(Debug, Clone, Copy, PartialEq, Eq, Structural)]
pub enum PagingMode {
    Real,
    Protected,
    Long,
    LongLA57,
}

/// The memory management unit.
pub struct MMU {
    paging_mode: PagingMode,
}

impl MMU {
    /// The mode that the unit is in.
    pub closed spec fn mode(&self) -> PagingMode {
        self.paging_mode
    }

    /// A unit in the mode `paging_mode`.
    pub fn new(paging_mode: PagingMode) -> (mmu: MMU)
        ensures
            mmu.mode() == paging_mode,
    {
        MMU { paging_mode }
    }

    /// Returns the mode that the unit is in.
    pub fn paging_mode(&self) -> (mode: PagingMode)
        ensures
            mode == self.mode(),
    {
        self.paging_mode
    }
}

} // verus!
