//! A RAM device that backs its address window piece by piece, on demand.
use std::collections::BTreeMap;
use vstd::prelude::*;
use vstd::std_specs::btree::increasing_seq;
use vstd::std_specs::iter::IteratorSpec;
use crate::device::model::DramView;
use crate::device::model::SegmentView;
use crate::device::model::zeros;
use crate::device::model::BLOCK_SIZE;
use crate::device::model::DEFAULT_ALLOC_SIZE;
use crate::order::lemma_smaller_key_stands_before;
use crate::order::lemma_usize_keys;
use crate::pow2::power_of_two_from;
use crate::pow2::round_up_to_power_of_two;
use crate::Addressable;
use crate::Device;
use crate::MemoryAccessError;
use crate::Window;

pub mod laws;
pub mod model;

verus! {

/// A RAM device.
///
/// It accepts accesses in a window of addresses whose width is a power of two.
/// Nothing in the window is backed at first; [`DRAM::allocate`] backs parts of
/// it with zeroed segments, and lets a segment grow where a new part touches
/// it.
#[derive(Debug, Clone)]
pub struct DRAM {
    /// The segments, each under its start address.
    segments: BTreeMap<usize, Segment>,
    /// The first address of the window.
    base_address: usize,
    /// The width of the window.
    size: usize,
    /// The alignment of accessed addresses; 1 unless set otherwise.
    alignment: usize,
}

/// A run of owned bytes that backs the addresses from `start` on.
#[derive(Debug, Clone)]
pub(crate) struct Segment {
    start: usize,
    data: Vec<u8>,
}

impl View for Segment {
    type V = SegmentView;

    closed spec fn view(&self) -> SegmentView {
        SegmentView { start: self.start, bytes: self.data@ }
    }
}

impl Segment {
    /// A segment of `size` zero bytes at `start`.
    pub(crate) fn zeroed(start: usize, size: usize) -> (segment: Segment)
        requires
            start + size <= usize::MAX,
        ensures
            segment@ == (SegmentView { start, bytes: zeros(size as int) }),
    {
        let data = vec![0u8; size];
        assert(data@ =~= zeros(size as int));
        Segment { start, data }
    }

    /// The first address after the segment.
    pub(crate) fn end(&self) -> (end: usize)
        requires
            self@.end() <= usize::MAX,
        ensures
            end == self@.end(),
    {
        self.start + self.data.len()
    }

    /// Whether the segment backs `address`.
    pub(crate) fn contains(&self, address: usize) -> (inside: bool)
        requires
            self@.end() <= usize::MAX,
        ensures
            inside == self@.contains(address as int),
    {
        address >= self.start && address < self.end()
    }

    /// The place of `address` among the bytes of the segment.
    pub(crate) fn offset(&self, address: usize) -> (offset: usize)
        requires
            self@.start <= address,
        ensures
            offset == address - self@.start,
    {
        address - self.start
    }

    /// Reads the byte at `address`, which the segment backs.
    pub(crate) fn read_byte(&self, address: usize) -> (result: Result<u8, MemoryAccessError>)
        requires
            self@.contains(address as int),
        ensures
            result == Ok::<u8, MemoryAccessError>(self@.from(address as int)[0]),
    {
        let offset = self.offset(address);
        Ok(self.data[offset])
    }

    /// Borrows `size` bytes from `address` on, all of which the segment backs.
    pub(crate) fn read_bytes(&self, address: usize, size: usize) -> (result: Result<
        &[u8],
        MemoryAccessError,
    >)
        requires
            self@.contains(address as int),
            address + size <= self@.end(),
        ensures
            result is Ok,
            result->Ok_0@ == self@.from(address as int).take(size as int),
    {
        let offset = self.offset(address);
        assert(offset + size <= self.data.len());
        let bytes = vstd::slice::slice_subrange(self.data.as_slice(), offset, offset + size);
        assert(bytes@ =~= self@.from(address as int).take(size as int));
        Ok(bytes)
    }

    /// Stores `value` at `address`, which the segment backs.
    pub(crate) fn write_byte(&mut self, address: usize, value: u8) -> (result: Result<
        (),
        MemoryAccessError,
    >)
        requires
            old(self)@.contains(address as int),
        ensures
            result == Ok::<(), MemoryAccessError>(()),
            final(self)@ == old(self)@.with_byte(address as int, value),
    {
        let offset = self.offset(address);
        self.data[offset] = value;
        Ok(())
    }

    /// Stores the bytes of `value` from `address` on, all in the segment.
    pub(crate) fn write_bytes(&mut self, address: usize, value: &[u8]) -> (result: Result<
        (),
        MemoryAccessError,
    >)
        requires
            old(self)@.contains(address as int),
            address + value@.len() <= old(self)@.end(),
        ensures
            result == Ok::<(), MemoryAccessError>(()),
            final(self)@ == old(self)@.with_bytes(address as int, value@),
    {
        let offset = self.offset(address);
        let mut i: usize = 0;
        while i < value.len()
            invariant
                i <= value@.len(),
                offset + value@.len() <= self.data@.len(),
                self.start == old(self).start,
                self.data@.len() == old(self).data@.len(),
                forall|j: int| 0 <= j < offset ==> self.data@[j] == old(self).data@[j],
                forall|j: int| 0 <= j < i ==> self.data@[offset + j] == value@[j],
                forall|j: int| offset + i <= j < self.data@.len() ==> self.data@[j] == old(self).data@[j],
            decreases value@.len() - i,
        {
            assert(offset + i < self.data.len());
            self.data[offset + i] = value[i];
            i += 1;
        }
        assert(self@.bytes =~= old(self)@.with_bytes(address as int, value@).bytes);
        Ok(())
    }

    /// Adds `size` zero bytes behind the segment.
    pub(crate) fn extend(&mut self, size: usize)
        requires
            old(self)@.end() + size <= usize::MAX,
        ensures
            final(self)@ == old(self)@.extended(size as int),
    {
        let len = self.data.len() + size;
        self.data.resize(len, 0);
        assert(self@.bytes =~= old(self)@.extended(size as int).bytes);
    }

    /// Makes the segment start at `address`, before its start, with room for
    /// `size` bytes from there; the old bytes keep their addresses.
    pub(crate) fn grow_back(&mut self, address: usize, size: usize)
        requires
            address < old(self)@.start,
            address + size <= usize::MAX,
            old(self)@.end() <= usize::MAX,
        ensures
            final(self)@ == old(self)@.grown_back(address, size as int),
    {
        let reach = self.end() - address;
        let len = if size >= reach { size } else { reach };
        let shift = self.start - address;
        let mut data = vec![0u8; len];
        let mut i: usize = 0;
        while i < self.data.len()
            invariant
                i <= self.data@.len(),
                data@.len() == len,
                shift + self.data@.len() <= len,
                forall|j: int| 0 <= j < shift ==> data@[j] == 0,
                forall|j: int| 0 <= j < i ==> data@[shift + j] == self.data@[j],
                forall|j: int| shift + i <= j < len ==> data@[j] == 0,
            decreases self.data@.len() - i,
        {
            data[shift + i] = self.data[i];
            i += 1;
        }
        assert(data@ =~= old(self)@.grown_back(address, size as int).bytes);
        self.data = data;
        self.start = address;
    }
}

impl View for DRAM {
    type V = DramView;

    closed spec fn view(&self) -> DramView {
        DramView {
            base_address: self.base_address,
            size: self.size,
            alignment: self.alignment,
            segments: self.segments@.map_values(|segment: Segment| segment@),
        }
    }
}

impl DRAM {
    /// A device with the window that starts at `base_address` and is `size`
    /// bytes wide, rounded up to a power of two. Nothing is backed yet.
    ///
    /// The window must end within the address space.
    pub fn new(base_address: usize, size: usize) -> (dram: DRAM)
        requires
            base_address + power_of_two_from(size as int) <= usize::MAX,
        ensures
            dram@.wf(),
            dram@ == (DramView {
                base_address,
                size: power_of_two_from(size as int) as usize,
                alignment: 1,
                segments: Map::empty(),
            }),
    {
        let dram = DRAM {
            segments: BTreeMap::new(),
            base_address,
            size: round_up_to_power_of_two(size),
            alignment: 1,
        };
        proof {
            crate::pow2::lemma_power_of_two_from(size as int);
            assert(dram@.segments =~= Map::empty());
        }
        dram
    }

    /// Backs memory for `size_hint` bytes at `address_hint` and returns the
    /// start of the segment that backs it.
    ///
    /// The allocation starts at the block boundary at or below the hint and
    /// has [`model::alloc_size`] bytes. A request for more bytes than the
    /// window is wide fails as out of bounds. Otherwise the segments are
    /// looked through by ascending start, and the first that the allocation
    /// meets decides: if it backs the address already, the allocation fails
    /// and names its start; if it ends at the address, it gets the new bytes
    /// behind it; if it starts after the address and the allocation reaches
    /// it, it grows backward to the address, which is its start from then on.
    /// An allocation that meets no segment makes a new one.
    ///
    /// The allocation must end within the address space.
    pub fn allocate(&mut self, address_hint: usize, size_hint: usize) -> (result: Result<
        usize,
        MemoryAccessError,
    >)
        requires
            old(self)@.wf(),
            old(self)@.fits(address_hint, size_hint),
        ensures
            final(self)@.wf(),
            result == old(self)@.allocate_result(address_hint, size_hint),
            final(self)@ == old(self)@.allocate(address_hint, size_hint),
    {
        let address = address_hint & !(BLOCK_SIZE - 1);
        let lead = address_hint & (DEFAULT_ALLOC_SIZE - 1);
        proof {
            assert(address_hint & !((4096 - 1) as usize) == address_hint - address_hint % 4096)
                by (bit_vector);
            assert(address_hint & ((4096 - 1) as usize) == address_hint % 4096) by (bit_vector);
        }

        if size_hint > self.size {
            return Err(MemoryAccessError::OutOfBounds { address: address_hint, size: size_hint });
        }
        proof {
            if size_hint + lead >= DEFAULT_ALLOC_SIZE {
                crate::pow2::lemma_power_of_two_from_bounds(size_hint + lead);
            }
        }
        let size = size_hint + lead;
        let size = if size < DEFAULT_ALLOC_SIZE {
            DEFAULT_ALLOC_SIZE
        } else {
            round_up_to_power_of_two(size)
        };
        proof {
            lemma_usize_keys();
        }
        broadcast use vstd::std_specs::btree::group_btree_axioms;

        if self.segments.is_empty() {
            let segment = Segment::zeroed(address, size);
            self.segments.insert(address, segment);
            proof {
                assert(old(self)@.met(address as int, size as int) is None);
                assert(self@.segments =~= old(self)@.allocate(address_hint, size_hint).segments);
            }
            return Ok(address);
        }
        let (key, mapped) = match self.meeting(address, size) {
            Some((key, segment)) => (key, segment.contains(address)),
            None => {
                let segment = Segment::zeroed(address, size);
                self.segments.insert(address, segment);
                proof {
                    assert(self@.segments =~= old(self)@.allocate(
                        address_hint,
                        size_hint,
                    ).segments);
                }
                return Ok(address);
            },
        };
        if mapped {
            return Err(MemoryAccessError::AddressAlreadyMapped { address: key });
        }
        // The segment is taken out of the map to grow, and put back under its start.
        let mut start = key;
        if let Some(mut segment) = self.segments.remove(&key) {
            if segment.end() == address {
                segment.extend(size);
            } else {
                segment.grow_back(address, size);
                start = address;
            }
            self.segments.insert(start, segment);
            proof {
                assert(self@.segments =~= old(self)@.allocate(address_hint, size_hint).segments);
            }
        }
        Ok(start)
    }

    /// Looks through the segments by ascending start for the first that an
    /// allocation of `size` bytes at `address` meets.
    fn meeting(&self, address: usize, size: usize) -> (found: Option<(usize, &Segment)>)
        requires
            self@.wf(),
            address + size <= usize::MAX,
        ensures
            match found {
                Some((key, segment)) => {
                    &&& self@.met(address as int, size as int) == Some(key)
                    &&& self.segments@.contains_key(key)
                    &&& *segment == self.segments@[key]
                },
                None => self@.met(address as int, size as int) is None,
            },
    {
        proof {
            lemma_usize_keys();
        }
        broadcast use vstd::std_specs::btree::group_btree_axioms;

        let ghost entries = self.segments.iter().remaining();
        let ghost keys = entries.map_values(|entry: (&usize, &Segment)| *entry.0);
        for entry in it: self.segments.iter()
            invariant
                self@.wf(),
                address + size <= usize::MAX,
                it.seq() == entries,
                entries == self.segments.iter().remaining(),
                keys == entries.map_values(|entry: (&usize, &Segment)| *entry.0),
                increasing_seq(keys),
                forall|i: int|
                    0 <= i < it.index() ==> !(*entries[i].1)@.meets(address as int, size as int),
        {
            let (key, segment) = entry;
            assert(self.segments@.contains_key(*entries[it.index()].0));
            assert(self@.segments.contains_key(*key));
            if segment.contains(address) || segment.end() == address || (address < segment.start
                && address + size >= segment.start) {
                proof {
                    assert forall|other: usize|
                        #![trigger self@.segments.contains_key(other)]
                        self@.segments.contains_key(other) && other < *key implies !self@.segments[other].meets(
                        address as int,
                        size as int,
                    ) by {
                        assert(entries.contains((&other, &self.segments@[other])));
                        let at = choose|at: int|
                            0 <= at < entries.len() && entries[at] == (&other, &self.segments@[other]);
                        assert(keys[at] == other);
                        assert(keys[it.index()] == *key);
                        lemma_smaller_key_stands_before(keys, at, it.index());
                    }
                    self@.lemma_met(*key, address as int, size as int);
                }
                return Some((*key, segment));
            }
        }
        proof {
            assert forall|key: usize| !self@.first_met(key, address as int, size as int) by {
                if self@.segments.contains_key(key) {
                    assert(entries.contains((&key, &self.segments@[key])));
                }
            }
        }
        None
    }

    /// Tests an access of `size` bytes at `address` for alignment and for the
    /// window, in this order. Only `address` itself is tested; `size` is what
    /// an out-of-bounds fault reports.
    pub fn check_access(&self, address: usize, size: usize) -> (result: Result<(), MemoryAccessError>)
        requires
            self@.wf(),
        ensures
            result == if address as int % self@.alignment as int != 0 {
                Err::<(), MemoryAccessError>(MemoryAccessError::Unaligned { address })
            } else if !self@.in_window(address as int) {
                Err(MemoryAccessError::OutOfBounds { address, size })
            } else {
                Ok(())
            },
    {
        if address % self.alignment != 0 {
            return Err(MemoryAccessError::Unaligned { address });
        }
        if address < self.base_address || address >= self.base_address + self.size {
            return Err(MemoryAccessError::OutOfBounds { address, size });
        }
        Ok(())
    }

    /// Looks through the segments by ascending start for the first that backs
    /// `address`.
    fn serving(&self, address: usize) -> (found: Option<(usize, &Segment)>)
        requires
            self@.wf(),
        ensures
            match found {
                Some((key, segment)) => {
                    &&& self@.owner(address) == Some(key)
                    &&& self.segments@.contains_key(key)
                    &&& *segment == self.segments@[key]
                },
                None => self@.owner(address) is None,
            },
    {
        proof {
            lemma_usize_keys();
        }
        broadcast use vstd::std_specs::btree::group_btree_axioms;

        let ghost entries = self.segments.iter().remaining();
        let ghost keys = entries.map_values(|entry: (&usize, &Segment)| *entry.0);
        for entry in it: self.segments.iter()
            invariant
                self@.wf(),
                it.seq() == entries,
                entries == self.segments.iter().remaining(),
                keys == entries.map_values(|entry: (&usize, &Segment)| *entry.0),
                increasing_seq(keys),
                forall|i: int| 0 <= i < it.index() ==> !(*entries[i].1)@.contains(address as int),
        {
            let (key, segment) = entry;
            assert(self.segments@.contains_key(*entries[it.index()].0));
            assert(self@.segments.contains_key(*key));
            if segment.contains(address) {
                proof {
                    assert forall|other: usize|
                        #![trigger self@.segments.contains_key(other)]
                        self@.segments.contains_key(other) && other < *key implies !self@.segments[other].contains(
                        address as int,
                    ) by {
                        assert(entries.contains((&other, &self.segments@[other])));
                        let at = choose|at: int|
                            0 <= at < entries.len() && entries[at] == (&other, &self.segments@[other]);
                        assert(keys[at] == other);
                        assert(keys[it.index()] == *key);
                        lemma_smaller_key_stands_before(keys, at, it.index());
                    }
                    self@.lemma_owner(*key, address);
                }
                return Some((*key, segment));
            }
        }
        proof {
            assert forall|key: usize| !self@.serves(key, address) by {
                if self@.segments.contains_key(key) {
                    assert(entries.contains((&key, &self.segments@[key])));
                }
            }
        }
        None
    }
}

impl Addressable for DRAM {
    open spec fn inv(&self) -> bool {
        self@.wf()
    }

    open spec fn window(&self) -> Window {
        self@.window()
    }

    open spec fn backing(&self, address: usize) -> Seq<u8> {
        self@.backing(address)
    }

    fn read_byte(&self, address: usize) -> (result: Result<u8, MemoryAccessError>)
        ensures
            result == self@.read_byte(address),
    {
        self.check_access(address, 1)?;
        match self.serving(address) {
            Some((_, segment)) => segment.read_byte(address),
            None => Err(MemoryAccessError::AddressNotMapped),
        }
    }

    fn read_bytes(&self, address: usize, size: usize) -> (result: Result<&[u8], MemoryAccessError>)
    {
        self.check_access(address, 1)?;
        match self.serving(address) {
            Some((_, segment)) => segment.read_bytes(address, size),
            None => Err(MemoryAccessError::AddressNotMapped),
        }
    }

    fn write_byte(&mut self, address: usize, value: u8) -> (result: Result<(), MemoryAccessError>)
        ensures
            result == old(self)@.write_result(address),
            final(self)@ == old(self)@.write_byte(address, value),
    {
        self.check_access(address, 1)?;
        let key = match self.serving(address) {
            Some((key, _)) => key,
            None => {
                return Err(MemoryAccessError::AddressNotMapped);
            },
        };
        proof {
            lemma_usize_keys();
        }
        broadcast use vstd::std_specs::btree::group_btree_axioms;

        // The segment is taken out of the map to be written, and put back under its start.
        if let Some(mut segment) = self.segments.remove(&key) {
            segment.write_byte(address, value)?;
            self.segments.insert(key, segment);
            proof {
                let after = old(self)@.write_byte(address, value);
                assert(self@.segments =~= after.segments);
                crate::device::laws::lemma_write_byte_leaves_the_rest(old(self)@, address, value);
            }
        }
        Ok(())
    }

    fn write_bytes(&mut self, address: usize, value: &[u8]) -> (result: Result<
        (),
        MemoryAccessError,
    >)
        ensures
            result == old(self)@.write_result(address),
            final(self)@ == old(self)@.write_bytes(address, value@),
    {
        self.check_access(address, 1)?;
        let key = match self.serving(address) {
            Some((key, _)) => key,
            None => {
                return Err(MemoryAccessError::AddressNotMapped);
            },
        };
        proof {
            lemma_usize_keys();
        }
        broadcast use vstd::std_specs::btree::group_btree_axioms;

        // The segment is taken out of the map to be written, and put back under its start.
        if let Some(mut segment) = self.segments.remove(&key) {
            segment.write_bytes(address, value)?;
            self.segments.insert(key, segment);
            proof {
                let after = old(self)@.write_bytes(address, value@);
                assert(self@.segments =~= after.segments);
                crate::device::laws::lemma_write_bytes_leaves_the_rest(
                    old(self)@,
                    address,
                    value@,
                );
            }
        }
        Ok(())
    }
}

impl Device for DRAM {
    open spec fn label(&self) -> Seq<char> {
        "DRAM"@
    }

    fn name(&self) -> (name: &str) {
        "DRAM"
    }

    fn start_address(&self) -> (address: usize) {
        self.base_address
    }

    fn end_address(&self) -> (address: usize) {
        self.base_address + self.size
    }
}

} // verus!
