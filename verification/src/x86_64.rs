//! The x86-64 processor: its registers, its instructions and its paging
//! modes.
use vstd::prelude::*;
use crate::x86_64::paging::PagingMode;
use crate::x86_64::paging::MMU;
use crate::CpuFeatures;
use crate::Endianness;

pub mod instruction;
pub mod paging;
pub mod register;
pub mod simd;

verus! {

/// Returns the size of a general register in bytes: 8, for 64 bits.
pub fn general_register_size() -> (size: usize)
    ensures
        size == 8,
{
    (u64::BITS / 8) as usize
}

/// Returns the byte order of the processor: the low byte comes first.
pub fn endianness() -> (order: Endianness)
    ensures
        order == Endianness::LittleEndian,
{
    Endianness::LittleEndian
}

/// Returns what the processor can do: it has vector registers, it accesses
/// memory at any alignment, and it pages memory in every mode of `mmu` but
/// real mode.
pub fn features(mmu: &MMU) -> (features: CpuFeatures)
    ensures
        features.simd,
        features.unaligned_memory_access,
        features.paging == (mmu.mode() != PagingMode::Real),
{
    CpuFeatures {
        simd: true,
        paging: mmu.paging_mode() != PagingMode::Real,
        unaligned_memory_access: true,
    }
}

} // verus!
