//! Laws of the RAM device: what holds of every device and of sequences of
//! operations on it.
use vstd::prelude::*;
use crate::device::model::alloc_size;
use crate::device::model::block_base;
use crate::device::model::zeros;
use crate::device::model::DramView;
use crate::device::model::DEFAULT_ALLOC_SIZE;
use crate::MemoryAccessError;

verus! {

/// An allocation starts on a block boundary at or below its hint and backs at
/// least the bytes asked for, and at least a block.
pub proof fn lemma_allocation_covers_request(address_hint: usize, size_hint: usize)
    ensures
        0 <= block_base(address_hint) <= address_hint,
        block_base(address_hint) % 4096 == 0,
        alloc_size(address_hint, size_hint) >= DEFAULT_ALLOC_SIZE,
        block_base(address_hint) + alloc_size(address_hint, size_hint) >= address_hint + size_hint,
{
    let wanted = size_hint + address_hint % DEFAULT_ALLOC_SIZE;
    if wanted >= DEFAULT_ALLOC_SIZE {
        crate::pow2::lemma_power_of_two_from_bounds(wanted);
    }
}

/// An allocation fits the address space if twice the bytes asked for, and two
/// blocks more, fit behind its hint.
pub proof fn lemma_fits(dram: DramView, address_hint: usize, size_hint: usize)
    requires
        address_hint + 2 * size_hint + 2 * DEFAULT_ALLOC_SIZE <= usize::MAX,
    ensures
        dram.fits(address_hint, size_hint),
{
    let wanted = size_hint + address_hint % DEFAULT_ALLOC_SIZE;
    if wanted >= DEFAULT_ALLOC_SIZE {
        crate::pow2::lemma_power_of_two_from_bounds(wanted);
    }
}

/// An address that lacks the alignment is refused as unaligned, whether it
/// lies in the window or not and whether it is backed or not, and nothing
/// changes.
pub proof fn lemma_unaligned_is_refused_first(
    dram: DramView,
    address: usize,
    value: u8,
    bytes: Seq<u8>,
)
    requires
        dram.wf(),
        !dram.aligned(address as int),
    ensures
        dram.access_fault(address) == Some(MemoryAccessError::Unaligned { address }),
        dram.read_byte(address) == Err::<u8, MemoryAccessError>(
            MemoryAccessError::Unaligned { address },
        ),
        dram.write_result(address) == Err::<(), MemoryAccessError>(
            MemoryAccessError::Unaligned { address },
        ),
        dram.write_byte(address, value) == dram,
        dram.write_bytes(address, bytes) == dram,
{
}

/// Reading an aligned address in the window that no segment backs fails: the
/// address is not mapped.
pub proof fn lemma_unbacked_read_is_not_mapped(dram: DramView, address: usize)
    requires
        dram.wf(),
        dram.aligned(address as int),
        dram.in_window(address as int),
        forall|key: usize| #[trigger]
            dram.segments.contains_key(key) ==> !dram.segments[key].contains(address as int),
    ensures
        dram.read_byte(address) == Err::<u8, MemoryAccessError>(
            MemoryAccessError::AddressNotMapped,
        ),
{
    assert forall|key: usize| !dram.serves(key, address) by {}
}

/// Every access at an aligned address outside the window fails as out of
/// bounds, and changes nothing.
pub proof fn lemma_outside_window_is_out_of_bounds(
    dram: DramView,
    address: usize,
    value: u8,
    bytes: Seq<u8>,
)
    requires
        dram.wf(),
        dram.aligned(address as int),
        !dram.in_window(address as int),
    ensures
        dram.access_fault(address) == Some(MemoryAccessError::OutOfBounds { address, size: 1 }),
        dram.read_byte(address) == Err::<u8, MemoryAccessError>(
            MemoryAccessError::OutOfBounds { address, size: 1 },
        ),
        dram.write_result(address) == Err::<(), MemoryAccessError>(
            MemoryAccessError::OutOfBounds { address, size: 1 },
        ),
        dram.write_byte(address, value) == dram,
        dram.write_bytes(address, bytes) == dram,
{
}

/// An allocation leaves a valid device.
pub proof fn lemma_allocate_keeps_wf(dram: DramView, address_hint: usize, size_hint: usize)
    requires
        dram.wf(),
        dram.fits(address_hint, size_hint),
    ensures
        dram.allocate(address_hint, size_hint).wf(),
{
    lemma_allocation_covers_request(address_hint, size_hint);
}

/// After an allocation that succeeded, the same allocation fails: the address
/// is mapped already, by the segment whose start the first one returned.
pub proof fn lemma_allocate_again_is_refused(dram: DramView, address_hint: usize, size_hint: usize)
    requires
        dram.wf(),
        dram.fits(address_hint, size_hint),
        dram.allocate_result(address_hint, size_hint) is Ok,
    ensures
        dram.allocate(address_hint, size_hint).allocate_result(address_hint, size_hint) == Err::<
            usize,
            MemoryAccessError,
        >(
            MemoryAccessError::AddressAlreadyMapped {
                address: dram.allocate_result(address_hint, size_hint)->Ok_0,
            },
        ),
{
    lemma_allocation_covers_request(address_hint, size_hint);
    let address = block_base(address_hint);
    let size = alloc_size(address_hint, size_hint);
    let after = dram.allocate(address_hint, size_hint);
    let key = dram.allocate_result(address_hint, size_hint)->Ok_0;
    match dram.met(address, size) {
        None => {
            assert forall|other: usize|
                #![trigger after.segments.contains_key(other)]
                after.segments.contains_key(other) && other < key implies !after.segments[other].meets(
                address,
                size,
            ) by {
                assert(dram.segments.contains_key(other));
                if dram.segments[other].meets(address, size) {
                    lemma_some_segment_is_met_first(dram, other, address, size);
                }
            }
        },
        Some(met) => {
            assert(dram.first_met(met, address, size));
            assert forall|other: usize|
                #![trigger after.segments.contains_key(other)]
                after.segments.contains_key(other) && other < key implies !after.segments[other].meets(
                address,
                size,
            ) by {
                assert(dram.segments.contains_key(other));
            }
        },
    }
    assert(after.first_met(key, address, size));
    after.lemma_met(key, address, size);
}

/// Where an allocation meets any segment, it meets one first.
pub proof fn lemma_some_segment_is_met_first(dram: DramView, key: usize, address: int, size: int)
    requires
        dram.segments.contains_key(key),
        dram.segments[key].meets(address, size),
    ensures
        dram.met(address, size) is Some,
    decreases key,
{
    if exists|other: usize|
        #![trigger dram.segments.contains_key(other)]
        dram.segments.contains_key(other) && other < key && dram.segments[other].meets(
            address,
            size,
        ) {
        let other = choose|other: usize|
            #![trigger dram.segments.contains_key(other)]
            dram.segments.contains_key(other) && other < key && dram.segments[other].meets(
                address,
                size,
            );
        lemma_some_segment_is_met_first(dram, other, address, size);
    } else {
        assert(dram.first_met(key, address, size));
    }
}

/// An allocation that is refused because the address is mapped names the
/// start of a segment that backs the address, and changes nothing.
pub proof fn lemma_refused_allocation_names_a_segment(
    dram: DramView,
    address_hint: usize,
    size_hint: usize,
    start: usize,
)
    requires
        dram.wf(),
        dram.allocate_result(address_hint, size_hint) == Err::<usize, MemoryAccessError>(
            MemoryAccessError::AddressAlreadyMapped { address: start },
        ),
    ensures
        dram.segments.contains_key(start),
        dram.segments[start].start == start,
        dram.segments[start].contains(block_base(address_hint)),
        dram.allocate(address_hint, size_hint) == dram,
{
    let address = block_base(address_hint);
    let size = alloc_size(address_hint, size_hint);
    let met = dram.met(address, size)->Some_0;
    assert(dram.first_met(met, address, size));
}

/// An allocation that reaches a segment from before its start moves the
/// segment's start to the allocation's address and returns that address: the
/// segment is kept under it, with zero bytes in front of its old bytes, and
/// is no longer kept under its old start. No other segment changes.
pub proof fn lemma_backward_growth_moves_start(
    dram: DramView,
    address_hint: usize,
    size_hint: usize,
    key: usize,
)
    requires
        dram.wf(),
        dram.fits(address_hint, size_hint),
        size_hint <= dram.size,
        dram.met(block_base(address_hint), alloc_size(address_hint, size_hint)) == Some(key),
        block_base(address_hint) < dram.segments[key].start,
    ensures
        ({
            let address = block_base(address_hint) as usize;
            let after = dram.allocate(address_hint, size_hint);
            &&& dram.allocate_result(address_hint, size_hint) == Ok::<usize, MemoryAccessError>(
                address,
            )
            &&& after.segments.dom() == dram.segments.dom().remove(key).insert(address)
            &&& after.segments[address] == dram.segments[key].grown_back(
                address,
                alloc_size(address_hint, size_hint),
            )
            &&& after.segments[address].start == address
            &&& forall|i: int|
                0 <= i < dram.segments[key].bytes.len() ==> after.segments[address].bytes[key
                    - address + i] == #[trigger] dram.segments[key].bytes[i]
            &&& forall|other: usize|
                dram.segments.contains_key(other) && other != key ==> after.segments[other]
                    == dram.segments[other]
        }),
{
    lemma_allocation_covers_request(address_hint, size_hint);
    let address = block_base(address_hint) as usize;
    let size = alloc_size(address_hint, size_hint);
    let after = dram.allocate(address_hint, size_hint);
    assert(dram.first_met(key, address as int, size));
    assert(after.segments.dom() =~= dram.segments.dom().remove(key).insert(address));
    if dram.segments.contains_key(address) {
        assert(dram.segments[address].meets(address as int, size));
    }
}

/// A segment that an allocation makes backs no address that another segment
/// backs.
pub proof fn lemma_new_segment_stands_apart(dram: DramView, address_hint: usize, size_hint: usize)
    requires
        dram.wf(),
        dram.fits(address_hint, size_hint),
        size_hint <= dram.size,
        dram.met(block_base(address_hint), alloc_size(address_hint, size_hint)) is None,
    ensures
        dram.allocate_result(address_hint, size_hint) == Ok::<usize, MemoryAccessError>(
            block_base(address_hint) as usize,
        ),
        dram.allocate(address_hint, size_hint).stands_apart(block_base(address_hint) as usize),
{
    lemma_allocation_covers_request(address_hint, size_hint);
    let address = block_base(address_hint);
    let size = alloc_size(address_hint, size_hint);
    let after = dram.allocate(address_hint, size_hint);
    assert forall|other: usize| #[trigger]
        after.segments.contains_key(other) && other != address as usize implies after.segments[address as usize].apart(
        after.segments[other],
    ) by {
        assert(dram.segments.contains_key(other));
        if dram.segments[other].meets(address, size) {
            lemma_some_segment_is_met_first(dram, other, address, size);
        }
    }
}

/// The key under which the segment stands that a successful allocation made
/// or let grow: the address that the allocation returns.
pub open spec fn touched(dram: DramView, address_hint: usize, size_hint: usize) -> usize {
    dram.allocate_result(address_hint, size_hint)->Ok_0
}

/// An allocation keeps every backed byte, if the segment that it made or let
/// grow backs no address that another segment backs: what was backed in one
/// piece from an address on is still backed from there on, with the same
/// bytes, and more may follow.
pub proof fn lemma_allocate_keeps_backed_bytes(
    dram: DramView,
    address_hint: usize,
    size_hint: usize,
    address: usize,
)
    requires
        dram.wf(),
        dram.fits(address_hint, size_hint),
        dram.allocate_result(address_hint, size_hint) is Ok ==> dram.allocate(
            address_hint,
            size_hint,
        ).stands_apart(touched(dram, address_hint, size_hint)),
    ensures
        dram.backing(address).len() <= dram.allocate(address_hint, size_hint).backing(
            address,
        ).len(),
        dram.allocate(address_hint, size_hint).backing(address).take(
            dram.backing(address).len() as int,
        ) == dram.backing(address),
        dram.owner(address) is Some ==> dram.allocate(address_hint, size_hint).read_byte(address)
            == dram.read_byte(address),
{
    lemma_allocation_covers_request(address_hint, size_hint);
    lemma_allocate_keeps_wf(dram, address_hint, size_hint);
    let start = block_base(address_hint);
    let size = alloc_size(address_hint, size_hint);
    let after = dram.allocate(address_hint, size_hint);
    if dram.owner(address) is Some && dram.allocate_result(address_hint, size_hint) is Ok {
        let owner = dram.owner(address)->Some_0;
        let new_key = touched(dram, address_hint, size_hint);
        assert(dram.serves(owner, address));
        assert(after.segments.contains_key(new_key));
        match dram.met(start, size) {
            None => {
                if owner == new_key {
                    lemma_some_segment_is_met_first(dram, owner, start, size);
                }
                assert(after.segments.contains_key(owner));
                assert(after.segments[new_key].apart(after.segments[owner]));
                assert forall|other: usize|
                    #![trigger after.segments.contains_key(other)]
                    after.segments.contains_key(other) && other < owner implies !after.segments[other].contains(
                    address as int,
                ) by {
                    if other != new_key {
                        assert(dram.segments.contains_key(other));
                    }
                }
                assert(after.serves(owner, address));
                after.lemma_owner(owner, address);
            },
            Some(key) => {
                assert(dram.first_met(key, start, size));
                if dram.segments.contains_key(start as usize) {
                    assert(dram.segments[start as usize].meets(start, size));
                }
                if owner == key {
                    assert forall|other: usize|
                        #![trigger after.segments.contains_key(other)]
                        after.segments.contains_key(other) && other < new_key implies !after.segments[other].contains(
                        address as int,
                    ) by {
                        assert(dram.segments.contains_key(other));
                    }
                    assert(after.serves(new_key, address));
                    after.lemma_owner(new_key, address);
                    assert(after.backing(address).take(dram.backing(address).len() as int)
                        =~= dram.backing(address));
                } else {
                    assert(owner != new_key);
                    assert(after.segments.contains_key(owner));
                    assert(after.segments[new_key].apart(after.segments[owner]));
                    assert forall|other: usize|
                        #![trigger after.segments.contains_key(other)]
                        after.segments.contains_key(other) && other < owner implies !after.segments[other].contains(
                        address as int,
                    ) by {
                        if other != new_key {
                            assert(dram.segments.contains_key(other));
                        }
                    }
                    assert(after.serves(owner, address));
                    after.lemma_owner(owner, address);
                }
            },
        }
    }
    assert(after.backing(address).take(dram.backing(address).len() as int) =~= dram.backing(
        address,
    ));
}

/// Segments that back no address in common still do so after an allocation,
/// if the segment that it made or let grow backs no address that another
/// segment backs.
pub proof fn lemma_allocate_keeps_separate(dram: DramView, address_hint: usize, size_hint: usize)
    requires
        dram.wf(),
        dram.separate(),
        dram.fits(address_hint, size_hint),
        dram.allocate_result(address_hint, size_hint) is Ok ==> dram.allocate(
            address_hint,
            size_hint,
        ).stands_apart(touched(dram, address_hint, size_hint)),
    ensures
        dram.allocate(address_hint, size_hint).separate(),
{
    lemma_allocation_covers_request(address_hint, size_hint);
    let start = block_base(address_hint);
    let size = alloc_size(address_hint, size_hint);
    let after = dram.allocate(address_hint, size_hint);
    if dram.allocate_result(address_hint, size_hint) is Ok {
        let new_key = touched(dram, address_hint, size_hint);
        if dram.met(start, size) is Some {
            assert(dram.first_met(dram.met(start, size)->Some_0, start, size));
        }
        assert forall|key: usize| #[trigger] after.segments.contains_key(key) implies after.stands_apart(
            key,
        ) by {
            if key != new_key {
                assert(dram.segments.contains_key(key));
                assert(dram.stands_apart(key));
                assert forall|other: usize| #[trigger]
                    after.segments.contains_key(other) && other != key implies after.segments[key].apart(
                    after.segments[other],
                ) by {
                    if other == new_key {
                        assert(after.segments[new_key].apart(after.segments[key]));
                    } else {
                        assert(dram.segments.contains_key(other));
                    }
                }
            }
        }
    }
}

/// Segments that lie in the window still do so after an allocation that lies
/// in the window.
pub proof fn lemma_allocate_keeps_inside(dram: DramView, address_hint: usize, size_hint: usize)
    requires
        dram.wf(),
        dram.inside(),
        dram.fits(address_hint, size_hint),
        dram.base_address <= block_base(address_hint),
        block_base(address_hint) + alloc_size(address_hint, size_hint) <= dram.base_address
            + dram.size,
    ensures
        dram.allocate(address_hint, size_hint).inside(),
{
    lemma_allocation_covers_request(address_hint, size_hint);
    let start = block_base(address_hint);
    let size = alloc_size(address_hint, size_hint);
    let after = dram.allocate(address_hint, size_hint);
    if dram.met(start, size) is Some {
        assert(dram.first_met(dram.met(start, size)->Some_0, start, size));
    }
    assert forall|key: usize| #[trigger] after.segments.contains_key(key) implies {
        &&& after.base_address <= after.segments[key].start
        &&& after.segments[key].end() <= after.base_address + after.size
    } by {
        if key != start as usize {
            assert(dram.segments.contains_key(key));
        }
    }
}

/// Storing bytes backs nothing and changes no byte but those that are stored:
/// from every address on, as many bytes are backed as before, and each of
/// them that lies outside the stored bytes is as it was.
pub proof fn lemma_write_bytes_leaves_the_rest(dram: DramView, address: usize, value: Seq<u8>)
    requires
        dram.wf(),
        dram.write_result(address) is Ok,
        value.len() <= dram.backing(address).len(),
    ensures
        dram.write_bytes(address, value).wf(),
        dram.write_bytes(address, value).backing(address) == value + dram.backing(address).skip(
            value.len() as int,
        ),
        forall|a: usize| #[trigger]
            dram.write_bytes(address, value).backing(a).len() == dram.backing(a).len(),
        forall|a: usize, i: int|
            #![trigger dram.write_bytes(address, value).backing(a)[i]]
            0 <= i < dram.backing(a).len() && !(address <= a + i < address + value.len())
                ==> dram.write_bytes(address, value).backing(a)[i] == dram.backing(a)[i],
{
    let key = dram.owner(address)->Some_0;
    let after = dram.write_bytes(address, value);
    let written = dram.segments[key].with_bytes(address as int, value);
    assert(dram.serves(key, address));
    dram.lemma_same_extent_same_owner(key, written, address);
    assert(after.backing(address) =~= value + dram.backing(address).skip(value.len() as int));
    assert forall|a: usize| #[trigger] after.backing(a).len() == dram.backing(a).len() by {
        dram.lemma_same_extent_same_owner(key, written, a);
    }
    assert forall|a: usize, i: int|
        #![trigger after.backing(a)[i]]
        0 <= i < dram.backing(a).len() && !(address <= a + i < address
            + value.len()) implies after.backing(a)[i] == dram.backing(a)[i] by {
        dram.lemma_same_extent_same_owner(key, written, a);
    }
}

/// Storing a byte backs nothing and changes no other byte.
pub proof fn lemma_write_byte_leaves_the_rest(dram: DramView, address: usize, value: u8)
    requires
        dram.wf(),
        dram.write_result(address) is Ok,
    ensures
        dram.write_byte(address, value) == dram.write_bytes(address, seq![value]),
        dram.write_byte(address, value).wf(),
        dram.write_byte(address, value).backing(address) == dram.backing(address).update(0, value),
        forall|a: usize| #[trigger]
            dram.write_byte(address, value).backing(a).len() == dram.backing(a).len(),
        forall|a: usize, i: int|
            #![trigger dram.write_byte(address, value).backing(a)[i]]
            0 <= i < dram.backing(a).len() && a + i != address ==> dram.write_byte(
                address,
                value,
            ).backing(a)[i] == dram.backing(a)[i],
{
    let key = dram.owner(address)->Some_0;
    assert(dram.serves(key, address));
    assert(dram.segments[key].with_byte(address as int, value).bytes
        =~= dram.segments[key].with_bytes(address as int, seq![value]).bytes);
    lemma_write_bytes_leaves_the_rest(dram, address, seq![value]);
    assert(dram.write_byte(address, value).backing(address) =~= dram.backing(address).update(
        0,
        value,
    ));
}

/// A byte that was stored is the byte that is read, at the same address.
pub proof fn lemma_write_then_read(dram: DramView, address: usize, value: u8)
    requires
        dram.wf(),
        dram.write_result(address) is Ok,
    ensures
        dram.write_byte(address, value).read_byte(address) == Ok::<u8, MemoryAccessError>(value),
{
    lemma_write_byte_leaves_the_rest(dram, address, value);
}

/// The address that a successful allocation returns is backed: where it lies
/// in the window and has the alignment, a byte can be stored there and is
/// read back.
pub proof fn lemma_allocated_address_round_trip(
    dram: DramView,
    address_hint: usize,
    size_hint: usize,
    value: u8,
)
    requires
        dram.wf(),
        dram.fits(address_hint, size_hint),
        dram.allocate_result(address_hint, size_hint) is Ok,
        dram.in_window(dram.allocate_result(address_hint, size_hint)->Ok_0 as int),
        dram.aligned(dram.allocate_result(address_hint, size_hint)->Ok_0 as int),
    ensures
        ({
            let address = dram.allocate_result(address_hint, size_hint)->Ok_0;
            let after = dram.allocate(address_hint, size_hint);
            &&& after.write_result(address) == Ok::<(), MemoryAccessError>(())
            &&& after.write_byte(address, value).read_byte(address) == Ok::<
                u8,
                MemoryAccessError,
            >(value)
        }),
{
    let address = dram.allocate_result(address_hint, size_hint)->Ok_0;
    let after = dram.allocate(address_hint, size_hint);
    lemma_allocate_keeps_wf(dram, address_hint, size_hint);
    lemma_allocation_covers_request(address_hint, size_hint);
    assert(after.segments.contains_key(address));
    after.lemma_backed_is_served(address, address);
    lemma_write_then_read(after, address, value);
}

/// An allocation at the exact end of a segment, where it is that segment
/// whose start the allocation returns, leaves the segment's start and bytes
/// as they are and adds zero bytes behind them. No other segment changes.
pub proof fn lemma_extension_keeps_start(
    dram: DramView,
    address_hint: usize,
    size_hint: usize,
    key: usize,
)
    requires
        dram.wf(),
        dram.segments.contains_key(key),
        dram.segments[key].end() == block_base(address_hint),
        dram.allocate_result(address_hint, size_hint) == Ok::<usize, MemoryAccessError>(key),
    ensures
        ({
            let after = dram.allocate(address_hint, size_hint);
            &&& after.segments.dom() == dram.segments.dom()
            &&& after.segments[key].start == dram.segments[key].start
            &&& after.segments[key].bytes == dram.segments[key].bytes + zeros(
                alloc_size(address_hint, size_hint),
            )
            &&& forall|other: usize|
                dram.segments.contains_key(other) && other != key ==> after.segments[other]
                    == dram.segments[other]
        }),
{
    let address = block_base(address_hint);
    let size = alloc_size(address_hint, size_hint);
    let after = dram.allocate(address_hint, size_hint);
    lemma_some_segment_is_met_first(dram, key, address, size);
    let met = dram.met(address, size)->Some_0;
    assert(dram.first_met(met, address, size));
    assert(met == key);
    assert(after.segments.dom() =~= dram.segments.dom());
}

} // verus!
