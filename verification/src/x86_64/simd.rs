//! The vector registers and the views through which their bytes are read and
//! written.
//!
//! A register is 64 bytes. Three views show its bytes: `Zmm` all of them,
//! `Ymm` the first 32, `Xmm` the first 16. A view never copies: what is
//! written through one view is what every view of the same register shows.
//! How lanes lie in the bytes is said in [`crate::simd`].
//!
//! A view to read keeps its bytes to itself. A view to write shows the borrow
//! that it holds, so that a caller can say what the register holds once the
//! view is given up: the final value of that borrow.
use vstd::prelude::*;
use crate::simd::lanes_of;
use crate::simd::lemma_load_from_prefix;
use crate::simd::lemma_store_in_prefix;
use crate::simd::load;
use crate::simd::store;
use crate::simd::with_lanes;
use crate::simd::Lane;
use crate::simd::Simd;

pub mod xmm;
pub mod ymm;
pub mod zmm;

verus! {

/// `<[Item]>::first_chunk_mut`: the first `COUNT` items of a slice, borrowed
/// as an array, or `None` if the slice is shorter. What the borrow holds last
/// is what the slice holds in their place; the items behind them stay.
pub assume_specification<Item, const COUNT: usize>[ <[Item]>::first_chunk_mut::<COUNT> ](
    slice: &mut [Item],
) -> (chunk: Option<&mut [Item; COUNT]>)
    ensures
        old(slice)@.len() < COUNT ==> chunk is None && final(slice)@ == old(slice)@,
        old(slice)@.len() >= COUNT ==> {
            &&& chunk is Some
            &&& chunk.unwrap()@ == old(slice)@.take(COUNT as int)
            &&& final(slice)@ == final(chunk.unwrap())@ + old(slice)@.skip(COUNT as int)
        },
;

/// A 512-bit vector register: 64 bytes.
#[derive(Debug, Clone, Copy, PartialEq, Eq)]
pub struct AVX512Register {
    data: [u8; 64],
}

/// A view of all 64 bytes of a register, to read.
#[derive(Debug, Clone, Copy, PartialEq, Eq)]
pub struct ZmmView<'a> {
    data: &'a [u8],
}

/// A view of the first 32 bytes of a register, to read.
#[derive(Debug, Clone, Copy, PartialEq, Eq)]
pub struct YmmView<'a> {
    data: &'a [u8],
}

/// A view of the first 16 bytes of a register, to read.
#[derive(Debug, Clone, Copy, PartialEq, Eq)]
pub struct XmmView<'a> {
    data: &'a [u8],
}

/// A view of all 64 bytes of a register, to read and to write.
#[derive(Debug)]
pub struct ZmmViewMut<'a> {
    /// The bytes that the view shows, borrowed from their register. When the
    /// view is given up, the register holds in their place what this borrow
    /// holds last.
    pub bytes: &'a mut [u8; 64],
}

/// A view of the first 32 bytes of a register, to read and to write.
#[derive(Debug)]
pub struct YmmViewMut<'a> {
    /// The bytes that the view shows, borrowed from their register. When the
    /// view is given up, the register holds in their place what this borrow
    /// holds last.
    pub bytes: &'a mut [u8; 32],
}

/// A view of the first 16 bytes of a register, to read and to write.
#[derive(Debug)]
pub struct XmmViewMut<'a> {
    /// The bytes that the view shows, borrowed from their register. When the
    /// view is given up, the register holds in their place what this borrow
    /// holds last.
    pub bytes: &'a mut [u8; 16],
}

impl View for AVX512Register {
    type V = Seq<u8>;

    closed spec fn view(&self) -> Seq<u8> {
        self.data@
    }
}

impl AVX512Register {
    /// A register has 64 bytes.
    pub proof fn lemma_len(&self)
        ensures
            self@.len() == 64,
    {
    }

    /// A register whose bytes are all zero.
    pub fn new() -> (register: AVX512Register)
        ensures
            register@ == Seq::new(64, |i: int| 0u8),
    {
        let register = AVX512Register { data: [0;64] };
        assert(register@ =~= Seq::new(64, |i: int| 0u8));
        register
    }

    /// Borrows all 64 bytes of the register, to read and to write. When the
    /// view is given up, the register holds what the view held last.
    pub fn zmm_mut(&mut self) -> (view: ZmmViewMut<'_>)
        ensures
            view@ == old(self)@,
            final(self)@ == final(view.bytes)@,
    {
        ZmmViewMut { bytes: &mut self.data }
    }

    /// Borrows the first 32 bytes of the register, to read and to write. When the
    /// view is given up, the register holds in their place what the view
    /// held last, and its other bytes as they were.
    pub fn ymm_mut(&mut self) -> (view: YmmViewMut<'_>)
        ensures
            view@ == old(self)@.take(32),
            final(self)@ == final(view.bytes)@ + old(self)@.skip(32),
    {
        match self.data.first_chunk_mut::<32>() {
            Some(bytes) => YmmViewMut { bytes },
            None => vstd::pervasive::unreached(),
        }
    }

    /// Borrows the first 16 bytes of the register, to read and to write. When the
    /// view is given up, the register holds in their place what the view
    /// held last, and its other bytes as they were.
    pub fn xmm_mut(&mut self) -> (view: XmmViewMut<'_>)
        ensures
            view@ == old(self)@.take(16),
            final(self)@ == final(view.bytes)@ + old(self)@.skip(16),
    {
        match self.data.first_chunk_mut::<16>() {
            Some(bytes) => XmmViewMut { bytes },
            None => vstd::pervasive::unreached(),
        }
    }

    /// Borrows all 64 bytes of the register, to read.
    pub fn zmm(&self) -> (view: ZmmView<'_>)
        ensures
            view@ == self@,
    {
        let view = ZmmView { data: vstd::slice::slice_subrange(self.data.as_slice(), 0, 64) };
        assert(view@ =~= self@);
        view
    }

    /// Borrows the first 32 bytes of the register, to read.
    pub fn ymm(&self) -> (view: YmmView<'_>)
        ensures
            view@ == self@.take(32),
    {
        let view = YmmView { data: vstd::slice::slice_subrange(self.data.as_slice(), 0, 32) };
        assert(view@ =~= self@.take(32));
        view
    }

    /// Borrows the first 16 bytes of the register, to read.
    pub fn xmm(&self) -> (view: XmmView<'_>)
        ensures
            view@ == self@.take(16),
    {
        let view = XmmView { data: vstd::slice::slice_subrange(self.data.as_slice(), 0, 16) };
        assert(view@ =~= self@.take(16));
        view
    }
}

impl<'a> View for ZmmView<'a> {
    type V = Seq<u8>;

    closed spec fn view(&self) -> Seq<u8> {
        self.data@
    }
}

impl<'a> ZmmView<'a> {
    /// The view shows 64 bytes.
    #[verifier::type_invariant]
    spec fn sized(self) -> bool {
        self.data@.len() == 64
    }

    /// Loads `N` lanes of type `T` from the start of the view, which must
    /// hold that many.
    pub fn read_lanes<T: Lane, const N: usize>(&self) -> (lanes: Simd<T, N>)
        requires
            N * T::width() <= 64,
        ensures
            lanes@ == lanes_of::<T>(self@, N as nat),
    {
        proof {
            use_type_invariant(self);
        }
        load(self.data)
    }

    /// The view of the first 32 bytes of the same register.
    pub fn as_ymm(&self) -> (view: YmmView<'_>)
        ensures
            view@ == self@.take(32),
    {
        proof {
            use_type_invariant(self);
        }
        YmmView { data: vstd::slice::slice_subrange(self.data, 0, 32) }
    }

    /// The view of the first 16 bytes of the same register.
    pub fn as_xmm(&self) -> (view: XmmView<'_>)
        ensures
            view@ == self@.take(16),
    {
        proof {
            use_type_invariant(self);
        }
        XmmView { data: vstd::slice::slice_subrange(self.data, 0, 16) }
    }
}

impl<'a> View for YmmView<'a> {
    type V = Seq<u8>;

    closed spec fn view(&self) -> Seq<u8> {
        self.data@
    }
}

impl<'a> YmmView<'a> {
    /// The view shows 32 bytes.
    #[verifier::type_invariant]
    spec fn sized(self) -> bool {
        self.data@.len() == 32
    }

    /// Loads `N` lanes of type `T` from the start of the view, which must
    /// hold that many.
    pub fn read_lanes<T: Lane, const N: usize>(&self) -> (lanes: Simd<T, N>)
        requires
            N * T::width() <= 32,
        ensures
            lanes@ == lanes_of::<T>(self@, N as nat),
    {
        proof {
            use_type_invariant(self);
        }
        load(self.data)
    }

    /// The view of the first 16 bytes of the same register.
    pub fn as_xmm(&self) -> (view: XmmView<'_>)
        ensures
            view@ == self@.take(16),
    {
        proof {
            use_type_invariant(self);
        }
        XmmView { data: vstd::slice::slice_subrange(self.data, 0, 16) }
    }
}

impl<'a> View for XmmView<'a> {
    type V = Seq<u8>;

    closed spec fn view(&self) -> Seq<u8> {
        self.data@
    }
}

impl<'a> XmmView<'a> {
    /// The view shows 16 bytes.
    #[verifier::type_invariant]
    spec fn sized(self) -> bool {
        self.data@.len() == 16
    }

    /// Loads `N` lanes of type `T` from the start of the view, which must
    /// hold that many.
    pub fn read_lanes<T: Lane, const N: usize>(&self) -> (lanes: Simd<T, N>)
        requires
            N * T::width() <= 16,
        ensures
            lanes@ == lanes_of::<T>(self@, N as nat),
    {
        proof {
            use_type_invariant(self);
        }
        load(self.data)
    }
}

impl<'a> View for ZmmViewMut<'a> {
    type V = Seq<u8>;

    /// The bytes that the view shows: all 64 bytes of its register.
    open spec fn view(&self) -> Seq<u8> {
        self.bytes@
    }
}

impl<'a> ZmmViewMut<'a> {
    /// Loads `N` lanes of type `T` from the start of the view, which must
    /// hold that many.
    pub fn read_lanes<T: Lane, const N: usize>(&self) -> (lanes: Simd<T, N>)
        requires
            N * T::width() <= 64,
        ensures
            lanes@ == lanes_of::<T>(self@, N as nat),
    {
        load(self.bytes.as_slice())
    }

    /// Stores `N` lanes of type `T` at the start of the view, which must hold
    /// that many. No byte outside their slots changes, and the view stays a
    /// view of the same register.
    pub fn write_lanes<T: Lane, const N: usize>(&mut self, lanes: &[T; N])
        requires
            N * T::width() <= 64,
        ensures
            final(self)@ == with_lanes::<T>(old(self)@, lanes@),
            final(final(self).bytes)@ == final(old(self).bytes)@,
    {
        store(self.bytes, lanes);
    }
}

impl<'a> View for YmmViewMut<'a> {
    type V = Seq<u8>;

    /// The bytes that the view shows: the first 32 bytes of its register.
    open spec fn view(&self) -> Seq<u8> {
        self.bytes@
    }
}

impl<'a> YmmViewMut<'a> {
    /// Loads `N` lanes of type `T` from the start of the view, which must
    /// hold that many.
    pub fn read_lanes<T: Lane, const N: usize>(&self) -> (lanes: Simd<T, N>)
        requires
            N * T::width() <= 32,
        ensures
            lanes@ == lanes_of::<T>(self@, N as nat),
    {
        load(self.bytes.as_slice())
    }

    /// Stores `N` lanes of type `T` at the start of the view, which must hold
    /// that many. No byte outside their slots changes, and the view stays a
    /// view of the same register.
    pub fn write_lanes<T: Lane, const N: usize>(&mut self, lanes: &[T; N])
        requires
            N * T::width() <= 32,
        ensures
            final(self)@ == with_lanes::<T>(old(self)@, lanes@),
            final(final(self).bytes)@ == final(old(self).bytes)@,
    {
        store(self.bytes, lanes);
    }
}

impl<'a> View for XmmViewMut<'a> {
    type V = Seq<u8>;

    /// The bytes that the view shows: the first 16 bytes of its register.
    open spec fn view(&self) -> Seq<u8> {
        self.bytes@
    }
}

impl<'a> XmmViewMut<'a> {
    /// Loads `N` lanes of type `T` from the start of the view, which must
    /// hold that many.
    pub fn read_lanes<T: Lane, const N: usize>(&self) -> (lanes: Simd<T, N>)
        requires
            N * T::width() <= 16,
        ensures
            lanes@ == lanes_of::<T>(self@, N as nat),
    {
        load(self.bytes.as_slice())
    }

    /// Stores `N` lanes of type `T` at the start of the view, which must hold
    /// that many. No byte outside their slots changes, and the view stays a
    /// view of the same register.
    pub fn write_lanes<T: Lane, const N: usize>(&mut self, lanes: &[T; N])
        requires
            N * T::width() <= 16,
        ensures
            final(self)@ == with_lanes::<T>(old(self)@, lanes@),
            final(final(self).bytes)@ == final(old(self).bytes)@,
    {
        store(self.bytes, lanes);
    }
}

/// What is stored through a view is seen through every shorter view of the
/// same register: the shorter view shows its own bytes with the lanes stored
/// in them, and loads each lane that lies in it as the wider view does.
pub proof fn lemma_narrow_view_sees_wide_write<T: Lane>(
    register: Seq<u8>,
    lanes: Seq<T>,
    len: int,
    count: nat,
)
    requires
        register.len() == 64,
        lanes.len() * T::width() <= 64,
        0 <= len <= 64,
        count <= lanes.len(),
        count * T::width() <= len,
    ensures
        with_lanes::<T>(register, lanes).take(len) == with_lanes::<T>(register.take(len), lanes),
        lanes_of::<T>(with_lanes::<T>(register, lanes).take(len), count) == lanes_of::<T>(
            with_lanes::<T>(register, lanes),
            count,
        ),
        forall|i: int|
            0 <= i < count ==> with_lanes::<T>(register, lanes).take(len)[i * T::width()]
                == (#[trigger] lanes[i]).low_byte(),
{
    T::lemma_width();
    let width = T::width() as int;
    lemma_store_in_prefix::<T>(register, lanes, len);
    lemma_load_from_prefix::<T>(with_lanes::<T>(register, lanes), count, len);
    assert forall|i: int| 0 <= i < count implies with_lanes::<T>(register, lanes).take(len)[i
        * T::width()] == (#[trigger] lanes[i]).low_byte() by {
        crate::simd::lemma_slot_start(i, width);
        assert(i * width + width <= count * width) by (nonlinear_arith)
            requires
                0 <= i < count,
                0 < width,
        ;
    }
}

/// What is stored through a view is stored in the register: every longer
/// view of it shows the lanes stored in its own bytes, and the bytes behind
/// the shorter view as they were.
pub proof fn lemma_wide_view_sees_narrow_write<T: Lane>(register: Seq<u8>, lanes: Seq<T>, len: int)
    requires
        register.len() == 64,
        0 <= len <= 64,
        lanes.len() * T::width() <= len,
    ensures
        with_lanes::<T>(register.take(len), lanes) + register.skip(len) == with_lanes::<T>(
            register,
            lanes,
        ),
{
    lemma_store_in_prefix::<T>(register, lanes, len);
    let stored = with_lanes::<T>(register, lanes);
    assert(stored.take(len) + stored.skip(len) =~= stored);
}

} // verus!
