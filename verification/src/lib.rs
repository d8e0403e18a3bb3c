//! Memory and register model for a processor emulator.
//!
//! The crate offers two things. The first is a uniform, checked way to address
//! memory-like components byte by byte ([`Addressable`], [`Device`]) together
//! with a sparsely backed RAM ([`device::DRAM`]). The second is a bit-exact
//! model of the x86-64 register file ([`x86_64::register::Registers`]) and of
//! its vector registers, whose bytes are seen through views of several sizes.
use vstd::prelude::*;

pub mod device;
mod order;
pub mod pow2;
pub mod simd;
pub mod x86_64;

verus! {

/// Byte order of a processor's multi-byte values.
#[derive(Debug, Clone, Copy, PartialEq, Eq, Structural)]
pub enum Endianness {
    LittleEndian,
    BigEndian,
}

/// Optional capabilities of a processor.
pub struct CpuFeatures {
    pub simd: bool,
    pub paging: bool,
    pub unaligned_memory_access: bool,
}

/// What an access does with the memory it touches.
#[derive(Debug, Clone, Copy, PartialEq, Eq, Structural)]
pub enum AccessType {
    Read,
    Write,
    Execute,
}

/// Privilege under which code runs, most privileged first.
#[derive(Debug, Clone, Copy, PartialEq, Eq, Structural)]
pub enum PrivilegeLevel {
    Machine,
    Supervisor,
    User,
}

/// Why a memory operation was refused.
#[derive(Debug, Clone, Copy, PartialEq, Eq, Structural)]
pub enum MemoryAccessError {
    /// The address lies outside the addressable window.
    OutOfBounds { address: usize, size: usize },
    /// The address does not have the alignment that the device asks for.
    Unaligned { address: usize },
    /// The address lies in the window, but nothing backs it.
    AddressNotMapped,
    /// An allocation met memory that is backed already; `address` is the
    /// start of the segment that backs it.
    AddressAlreadyMapped { address: usize },
}

/// The addresses at which a component accepts accesses.
pub struct Window {
    /// The alignment that every accessed address must have.
    pub alignment: nat,
    /// The first address of the window.
    pub start: int,
    /// The first address after the window.
    pub end: int,
}

/// The fault that stops an access of `width` bytes at `address` before any
/// byte is touched, or `None` if the access goes through. `backed` is the
/// number of bytes that are backed in one piece from `address` on.
///
/// The tests are made in this order: alignment, window, backing. Only the first
/// byte of the access is tested.
pub open spec fn access_fault(window: Window, backed: nat, address: usize, width: usize) -> Option<
    MemoryAccessError,
> {
    if address as int % window.alignment as int != 0 {
        Some(MemoryAccessError::Unaligned { address })
    } else if !(window.start <= address < window.end) {
        Some(MemoryAccessError::OutOfBounds { address, size: width })
    } else if backed == 0 {
        Some(MemoryAccessError::AddressNotMapped)
    } else {
        None
    }
}

/// Anything that can be read and written byte by byte at an address.
///
/// Every operation first validates its address, as [`access_fault`] says, and
/// reports a fault with a width of 1. An operation that fails changes nothing.
/// A store changes no byte but those it stores, and backs nothing.
pub trait Addressable {
    /// What holds of the component between any two operations. Every
    /// operation expects it and keeps it.
    spec fn inv(&self) -> bool;

    /// The addresses at which the component accepts accesses.
    spec fn window(&self) -> Window;

    /// The bytes that can be reached in one piece from `address` on, the byte
    /// at `address` first. It is empty where nothing backs `address`.
    spec fn backing(&self, address: usize) -> Seq<u8>;

    /// Reads the byte at `address`.
    fn read_byte(&self, address: usize) -> (result: Result<u8, MemoryAccessError>)
        requires
            self.inv(),
        ensures
            result == match access_fault(self.window(), self.backing(address).len(), address, 1) {
                Some(fault) => Err::<u8, MemoryAccessError>(fault),
                None => Ok(self.backing(address)[0]),
            },
    ;

    /// Borrows the `size` bytes that start at `address`.
    ///
    /// The bytes must be backed in one piece: where the first byte can be
    /// accessed, `size` may not exceed what is backed from there on.
    fn read_bytes(&self, address: usize, size: usize) -> (result: Result<&[u8], MemoryAccessError>)
        requires
            self.inv(),
            access_fault(self.window(), self.backing(address).len(), address, 1) is None ==> size
                <= self.backing(address).len(),
        ensures
            match access_fault(self.window(), self.backing(address).len(), address, 1) {
                Some(fault) => result == Err::<&[u8], MemoryAccessError>(fault),
                None => result is Ok && result->Ok_0@ == self.backing(address).take(size as int),
            },
    ;

    /// Stores `value` at `address`.
    fn write_byte(&mut self, address: usize, value: u8) -> (result: Result<
        (),
        MemoryAccessError,
    >)
        requires
            old(self).inv(),
        ensures
            final(self).inv(),
            final(self).window() == old(self).window(),
            match access_fault(old(self).window(), old(self).backing(address).len(), address, 1) {
                Some(fault) => {
                    &&& result == Err::<(), MemoryAccessError>(fault)
                    &&& forall|a: usize| final(self).backing(a) == old(self).backing(a)
                },
                None => {
                    &&& result == Ok::<(), MemoryAccessError>(())
                    &&& final(self).backing(address) == old(self).backing(address).update(
                        0,
                        value,
                    )
                    &&& forall|a: usize| #[trigger]
                        final(self).backing(a).len() == old(self).backing(a).len()
                    &&& forall|a: usize, i: int|
                        #![trigger final(self).backing(a)[i]]
                        0 <= i < old(self).backing(a).len() && a + i != address
                            ==> final(self).backing(a)[i] == old(self).backing(a)[i]
                },
            },
    ;

    /// Stores the bytes of `value` from `address` on.
    ///
    /// The bytes must be backed in one piece: where the first byte can be
    /// accessed, `value` may not be longer than what is backed from there on.
    fn write_bytes(&mut self, address: usize, value: &[u8]) -> (result: Result<
        (),
        MemoryAccessError,
    >)
        requires
            old(self).inv(),
            access_fault(old(self).window(), old(self).backing(address).len(), address, 1)
                is None ==> value@.len() <= old(self).backing(address).len(),
        ensures
            final(self).inv(),
            final(self).window() == old(self).window(),
            match access_fault(old(self).window(), old(self).backing(address).len(), address, 1) {
                Some(fault) => {
                    &&& result == Err::<(), MemoryAccessError>(fault)
                    &&& forall|a: usize| final(self).backing(a) == old(self).backing(a)
                },
                None => {
                    &&& result == Ok::<(), MemoryAccessError>(())
                    &&& final(self).backing(address) == value@ + old(self).backing(address).skip(
                        value@.len() as int,
                    )
                    &&& forall|a: usize| #[trigger]
                        final(self).backing(a).len() == old(self).backing(a).len()
                    &&& forall|a: usize, i: int|
                        #![trigger final(self).backing(a)[i]]
                        0 <= i < old(self).backing(a).len() && !(address <= a + i < address
                            + value@.len())
                            ==> final(self).backing(a)[i] == old(self).backing(a)[i]
                },
            },
    ;
}

/// An addressable component with a name and an address range, by which a
/// router picks the component that owns an address.
pub trait Device: Addressable {
    /// The name of the device, as a sequence of characters.
    spec fn label(&self) -> Seq<char>;

    /// Returns the name of the device.
    fn name(&self) -> (name: &str)
        requires
            self.inv(),
        ensures
            name@ == self.label(),
    ;

    /// Returns the first address of the device's window.
    fn start_address(&self) -> (address: usize)
        requires
            self.inv(),
        ensures
            address == self.window().start,
    ;

    /// Returns the first address after the device's window.
    fn end_address(&self) -> (address: usize)
        requires
            self.inv(),
        ensures
            address == self.window().end,
    ;
}

/// A byte that was stored in a component is the byte that is read from it, at
/// the same address: `after` is the component that storing `value` at
/// `address` makes of `before`, as [`Addressable::write_byte`] promises it.
pub proof fn lemma_stored_byte_is_read<A: Addressable>(
    before: &A,
    after: &A,
    address: usize,
    value: u8,
)
    requires
        access_fault(before.window(), before.backing(address).len(), address, 1) is None,
        after.window() == before.window(),
        after.backing(address) == before.backing(address).update(0, value),
    ensures
        access_fault(after.window(), after.backing(address).len(), address, 1) is None,
        after.backing(address)[0] == value,
{
}

} // verus!
