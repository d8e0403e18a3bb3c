//! The mathematical picture of a RAM device: what its segments hold and what
//! each operation makes of them.
use vstd::prelude::*;
use crate::pow2::power_of_two_from;
use crate::access_fault;
use crate::MemoryAccessError;
use crate::Window;

verus! {

/// Allocations start on multiples of this many bytes.
pub const BLOCK_SIZE: usize = 4096;

/// The smallest number of bytes that an allocation backs.
pub const DEFAULT_ALLOC_SIZE: usize = 4096;

/// `n` zero bytes.
pub open spec fn zeros(n: int) -> Seq<u8> {
    Seq::new(n as nat, |i: int| 0u8)
}

/// The block boundary at or below `address_hint`, where an allocation for it
/// starts.
pub open spec fn block_base(address_hint: usize) -> int {
    address_hint - address_hint % BLOCK_SIZE
}

/// The number of bytes that an allocation for `size_hint` bytes at
/// `address_hint` backs: the bytes asked for and those between the block
/// boundary and the hint, rounded up to a power of two, and no less than
/// [`DEFAULT_ALLOC_SIZE`].
pub open spec fn alloc_size(address_hint: usize, size_hint: usize) -> int {
    let wanted = size_hint + address_hint % DEFAULT_ALLOC_SIZE;
    if wanted < DEFAULT_ALLOC_SIZE {
        DEFAULT_ALLOC_SIZE as int
    } else {
        power_of_two_from(wanted)
    }
}

/// A run of bytes that backs the addresses from `start` on.
pub struct SegmentView {
    pub start: usize,
    pub bytes: Seq<u8>,
}

impl SegmentView {
    /// The first address after the segment.
    pub open spec fn end(self) -> int {
        self.start + self.bytes.len()
    }

    /// Whether the segment backs `address`.
    pub open spec fn contains(self, address: int) -> bool {
        self.start <= address < self.end()
    }

    /// Whether an allocation of `size` bytes at `address` concerns this
    /// segment: the address lies in it, directly behind it, or before it with
    /// the allocation reaching its start.
    pub open spec fn meets(self, address: int, size: int) -> bool {
        ||| self.contains(address)
        ||| self.end() == address
        ||| (address < self.start && address + size >= self.start)
    }

    /// The segment with `size` zero bytes added behind it.
    pub open spec fn extended(self, size: int) -> SegmentView {
        SegmentView { start: self.start, bytes: self.bytes + zeros(size) }
    }

    /// The number of bytes of the segment once it has grown backward to
    /// `address` for an allocation of `size` bytes.
    pub open spec fn grown_len(self, address: int, size: int) -> int {
        if size >= self.end() - address {
            size
        } else {
            self.end() - address
        }
    }

    /// The segment grown backward to start at `address`: zero bytes in front
    /// of the old bytes, which keep their addresses, and zero bytes behind
    /// them where an allocation of `size` bytes reaches further.
    pub open spec fn grown_back(self, address: usize, size: int) -> SegmentView {
        SegmentView {
            start: address,
            bytes: zeros(self.start - address) + self.bytes + zeros(
                address + self.grown_len(address as int, size) - self.end(),
            ),
        }
    }

    /// The segment with the byte at `address` replaced.
    pub open spec fn with_byte(self, address: int, value: u8) -> SegmentView {
        SegmentView { start: self.start, bytes: self.bytes.update(address - self.start, value) }
    }

    /// The segment with the bytes from `address` on replaced by `value`.
    pub open spec fn with_bytes(self, address: int, value: Seq<u8>) -> SegmentView {
        let offset = address - self.start;
        SegmentView {
            start: self.start,
            bytes: self.bytes.subrange(0, offset) + value + self.bytes.skip(offset + value.len()),
        }
    }

    /// The bytes of the segment from `address` on.
    pub open spec fn from(self, address: int) -> Seq<u8> {
        self.bytes.skip(address - self.start)
    }

    /// Whether the two segments back no address in common.
    pub open spec fn apart(self, other: SegmentView) -> bool {
        self.end() <= other.start || other.end() <= self.start
    }
}

/// A RAM device: an address window and the segments that back parts of the
/// address space, each kept under its start address.
///
/// Segments are looked through by ascending start, and the first one that
/// fits decides. Every segment is kept under its start, is not empty and ends
/// within the address space: that is [`DramView::wf`], and every operation
/// keeps it.
///
/// Two things are not kept by every allocation, because an allocation is
/// tested against the width of the window only and lets the first segment
/// that it meets grow, whatever lies behind that segment. Segments stay in the
/// window ([`DramView::inside`]) as long as each allocation lies in it. They
/// stay clear of each other ([`DramView::separate`]), and every backed byte
/// stays as it is, as long as no segment grows over an address of another;
/// where one does, it serves that address from then on if it comes first.
/// The laws of the device say both.
pub struct DramView {
    pub base_address: usize,
    pub size: usize,
    pub alignment: usize,
    pub segments: Map<usize, SegmentView>,
}

impl DramView {
    /// What holds of every device: the alignment is at least 1, the window is
    /// a power of two wide and ends within the address space, and each
    /// segment is kept under its start, is not empty and ends within the
    /// address space.
    pub open spec fn wf(self) -> bool {
        &&& self.alignment >= 1
        &&& crate::pow2::is_power_of_two(self.size as int)
        &&& self.base_address + self.size <= usize::MAX
        &&& forall|key: usize| #[trigger]
            self.segments.contains_key(key) ==> {
                &&& self.segments[key].start == key
                &&& self.segments[key].bytes.len() > 0
                &&& self.segments[key].end() <= usize::MAX
            }
    }

    /// Whether every segment lies in the window.
    pub open spec fn inside(self) -> bool {
        forall|key: usize| #[trigger]
            self.segments.contains_key(key) ==> {
                &&& self.base_address <= self.segments[key].start
                &&& self.segments[key].end() <= self.base_address + self.size
            }
    }

    /// Whether the segment under `key` backs no address that another segment
    /// backs.
    pub open spec fn stands_apart(self, key: usize) -> bool {
        forall|other: usize| #[trigger]
            self.segments.contains_key(other) && other != key ==> self.segments[key].apart(
                self.segments[other],
            )
    }

    /// Whether no address is backed by two segments.
    pub open spec fn separate(self) -> bool {
        forall|key: usize| #[trigger] self.segments.contains_key(key) ==> self.stands_apart(key)
    }

    /// Whether `address` has the alignment that the device asks for.
    pub open spec fn aligned(self, address: int) -> bool {
        address % self.alignment as int == 0
    }

    /// Whether `address` lies in the device's window.
    pub open spec fn in_window(self, address: int) -> bool {
        self.base_address <= address < self.base_address + self.size
    }

    /// Whether the segment under `key` is the one that serves `address`: the
    /// first, by ascending start, that backs it.
    pub open spec fn serves(self, key: usize, address: usize) -> bool {
        &&& self.segments.contains_key(key)
        &&& self.segments[key].contains(address as int)
        &&& forall|other: usize|
            #![trigger self.segments.contains_key(other)]
            self.segments.contains_key(other) && other < key ==> !self.segments[other].contains(
                address as int,
            )
    }

    /// The key of the segment that serves `address`, if any backs it.
    pub open spec fn owner(self, address: usize) -> Option<usize> {
        if exists|key: usize| self.serves(key, address) {
            Some(choose|key: usize| self.serves(key, address))
        } else {
            None
        }
    }

    /// Whether the segment under `key` is the one that an allocation of `size`
    /// bytes at `address` concerns: the first, by ascending start, that it
    /// meets.
    pub open spec fn first_met(self, key: usize, address: int, size: int) -> bool {
        &&& self.segments.contains_key(key)
        &&& self.segments[key].meets(address, size)
        &&& forall|other: usize|
            #![trigger self.segments.contains_key(other)]
            self.segments.contains_key(other) && other < key ==> !self.segments[other].meets(
                address,
                size,
            )
    }

    /// The key of the segment that an allocation of `size` bytes at `address`
    /// concerns, if it meets any.
    pub open spec fn met(self, address: int, size: int) -> Option<usize> {
        if exists|key: usize| self.first_met(key, address, size) {
            Some(choose|key: usize| self.first_met(key, address, size))
        } else {
            None
        }
    }

    /// The bytes that are backed in one piece from `address` on: the rest of
    /// the segment that serves it.
    pub open spec fn backing(self, address: usize) -> Seq<u8> {
        match self.owner(address) {
            Some(key) => self.segments[key].from(address as int),
            None => Seq::empty(),
        }
    }

    /// The addresses at which the device accepts accesses.
    pub open spec fn window(self) -> Window {
        Window {
            alignment: self.alignment as nat,
            start: self.base_address as int,
            end: self.base_address + self.size,
        }
    }

    /// The fault that stops an access at `address`, if any: the address
    /// lacks the alignment, lies outside the window, or is not backed.
    pub open spec fn access_fault(self, address: usize) -> Option<MemoryAccessError> {
        access_fault(self.window(), self.backing(address).len(), address, 1)
    }

    /// The device with the segment under `key` replaced or added.
    pub open spec fn with_segment(self, key: usize, segment: SegmentView) -> DramView {
        DramView { segments: self.segments.insert(key, segment), ..self }
    }

    /// The device with the segment under `key` taken out and `segment` kept
    /// under `new_key`.
    pub open spec fn moved_segment(
        self,
        key: usize,
        new_key: usize,
        segment: SegmentView,
    ) -> DramView {
        DramView { segments: self.segments.remove(key).insert(new_key, segment), ..self }
    }

    /// What reading the byte at `address` gives.
    pub open spec fn read_byte(self, address: usize) -> Result<u8, MemoryAccessError> {
        match self.access_fault(address) {
            Some(fault) => Err(fault),
            None => Ok(self.backing(address)[0]),
        }
    }

    /// What storing at `address` answers.
    pub open spec fn write_result(self, address: usize) -> Result<(), MemoryAccessError> {
        match self.access_fault(address) {
            Some(fault) => Err(fault),
            None => Ok(()),
        }
    }

    /// Whether an allocation for `size_hint` bytes at `address_hint` ends
    /// within the address space, or is refused before that matters.
    pub open spec fn fits(self, address_hint: usize, size_hint: usize) -> bool {
        size_hint <= self.size ==> block_base(address_hint) + alloc_size(address_hint, size_hint)
            <= usize::MAX
    }

    /// The device after an attempt to store `value` at `address`.
    pub open spec fn write_byte(self, address: usize, value: u8) -> DramView {
        match self.access_fault(address) {
            Some(_) => self,
            None => {
                let key = self.owner(address)->Some_0;
                self.with_segment(key, self.segments[key].with_byte(address as int, value))
            },
        }
    }

    /// The device after an attempt to store the bytes of `value` from
    /// `address` on.
    pub open spec fn write_bytes(self, address: usize, value: Seq<u8>) -> DramView {
        match self.access_fault(address) {
            Some(_) => self,
            None => {
                let key = self.owner(address)->Some_0;
                self.with_segment(key, self.segments[key].with_bytes(address as int, value))
            },
        }
    }

    /// What an allocation for `size_hint` bytes at `address_hint` answers.
    ///
    /// A request for more bytes than the window is wide is out of bounds.
    /// Otherwise the segment that the allocation meets first decides. If it
    /// backs the address already, the allocation fails and names the
    /// segment's start. If it ends at the address, it is extended, and the
    /// answer is its start. If not, it grows backward, and the answer is its
    /// new start, the address of the allocation. An allocation that meets no
    /// segment makes one at the block boundary and answers that address.
    pub open spec fn allocate_result(self, address_hint: usize, size_hint: usize) -> Result<
        usize,
        MemoryAccessError,
    > {
        let address = block_base(address_hint);
        let size = alloc_size(address_hint, size_hint);
        if size_hint > self.size {
            Err(MemoryAccessError::OutOfBounds { address: address_hint, size: size_hint })
        } else {
            match self.met(address, size) {
                None => Ok(address as usize),
                Some(key) => {
                    let segment = self.segments[key];
                    if segment.contains(address) {
                        Err(MemoryAccessError::AddressAlreadyMapped { address: segment.start })
                    } else if segment.end() == address {
                        Ok(segment.start)
                    } else {
                        Ok(address as usize)
                    }
                },
            }
        }
    }

    /// The device after an allocation for `size_hint` bytes at `address_hint`.
    ///
    /// A failed allocation leaves it as it is. A segment that ends where the
    /// allocation starts gets the new bytes behind it; one that starts after
    /// the allocation's address, and which it reaches, grows backward to that
    /// address and is kept under it from then on. An allocation that meets no
    /// segment adds one. New bytes are zero.
    pub open spec fn allocate(self, address_hint: usize, size_hint: usize) -> DramView {
        let address = block_base(address_hint);
        let size = alloc_size(address_hint, size_hint);
        if size_hint > self.size {
            self
        } else {
            match self.met(address, size) {
                None => self.with_segment(
                    address as usize,
                    SegmentView { start: address as usize, bytes: zeros(size) },
                ),
                Some(key) => {
                    let segment = self.segments[key];
                    if segment.contains(address) {
                        self
                    } else if segment.end() == address {
                        self.with_segment(key, segment.extended(size))
                    } else {
                        self.moved_segment(
                            key,
                            address as usize,
                            segment.grown_back(address as usize, size),
                        )
                    }
                },
            }
        }
    }

    /// The segment that serves an address is the only one that does.
    pub proof fn lemma_owner(self, key: usize, address: usize)
        requires
            self.serves(key, address),
        ensures
            self.owner(address) == Some(key),
    {
        let chosen = choose|key: usize| self.serves(key, address);
        assert(self.serves(chosen, address));
        assert(self.segments.contains_key(key));
        assert(self.segments.contains_key(chosen));
    }

    /// The segment that an allocation meets first is the only such one.
    pub proof fn lemma_met(self, key: usize, address: int, size: int)
        requires
            self.first_met(key, address, size),
        ensures
            self.met(address, size) == Some(key),
    {
        let chosen = choose|key: usize| self.first_met(key, address, size);
        assert(self.first_met(chosen, address, size));
        assert(self.segments.contains_key(key));
        assert(self.segments.contains_key(chosen));
    }

    /// Replacing a segment by one with the same start and as many bytes
    /// changes nothing in which segment serves which address.
    pub proof fn lemma_same_extent_same_owner(
        self,
        key: usize,
        segment: SegmentView,
        address: usize,
    )
        requires
            self.segments.contains_key(key),
            segment.start == self.segments[key].start,
            segment.bytes.len() == self.segments[key].bytes.len(),
        ensures
            self.with_segment(key, segment).owner(address) == self.owner(address),
    {
        let after = self.with_segment(key, segment);
        assert forall|other: usize| after.serves(other, address) == self.serves(
            other,
            address,
        ) by {
            if self.serves(other, address) {
                assert forall|before: usize|
                    #![trigger after.segments.contains_key(before)]
                    after.segments.contains_key(before) && before < other implies !after.segments[before].contains(
                    address as int,
                ) by {
                    assert(self.segments.contains_key(before));
                }
            }
            if after.serves(other, address) {
                assert forall|before: usize|
                    #![trigger self.segments.contains_key(before)]
                    self.segments.contains_key(before) && before < other implies !self.segments[before].contains(
                    address as int,
                ) by {
                    assert(after.segments.contains_key(before));
                }
            }
        }
        match self.owner(address) {
            Some(owner) => {
                assert(self.serves(owner, address));
                after.lemma_owner(owner, address);
            },
            None => {
                assert forall|other: usize| !after.serves(other, address) by {
                    assert(!self.serves(other, address));
                }
            },
        }
    }

    /// An address that some segment backs has a segment that serves it.
    pub proof fn lemma_backed_is_served(self, key: usize, address: usize)
        requires
            self.segments.contains_key(key),
            self.segments[key].contains(address as int),
        ensures
            self.owner(address) is Some,
        decreases key,
    {
        if exists|other: usize|
            #![trigger self.segments.contains_key(other)]
            self.segments.contains_key(other) && other < key && self.segments[other].contains(
                address as int,
            ) {
            let other = choose|other: usize|
                #![trigger self.segments.contains_key(other)]
                self.segments.contains_key(other) && other < key && self.segments[other].contains(
                    address as int,
                );
            self.lemma_backed_is_served(other, address);
        } else {
            assert(self.serves(key, address));
        }
    }
}

} // verus!
