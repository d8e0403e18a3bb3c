//! Vectors of a fixed number of lanes, and what a lane is made of.
//!
//! A lane is kept in a register as one byte: the low byte of its value, at the
//! start of the lane's slot, which is as wide as the lane's type. Storing a
//! lane puts its low byte there and leaves the other bytes of the slot alone.
//! Loading a lane gives the number that this byte holds, from 0 to 255, in the
//! lane's type; where the type is one byte wide, it gives the byte as it is,
//! so a signed byte keeps its sign. A lane of one byte is therefore kept
//! whole, and of a wider lane the low byte is kept.
use std::ops::Index;
use vstd::prelude::*;

verus! {

/// An integer type that can be a lane of a vector.
pub trait Lane: Copy + Sized {
    /// The number of bytes of a lane's slot.
    spec fn width() -> nat;

    /// The lane that the byte `byte` stands for.
    spec fn from_byte(byte: u8) -> Self;

    /// The byte that stands for the lane: its low byte.
    spec fn low_byte(self) -> u8;

    /// The lane whose value is zero.
    spec fn zero_lane() -> Self;

    /// Returns the number of bytes of a lane's slot.
    fn slot() -> (width: usize)
        ensures
            width == Self::width(),
            1 <= width <= 8,
    ;

    /// Returns the lane whose value is zero.
    fn zero() -> (lane: Self)
        ensures
            lane == Self::zero_lane(),
    ;

    /// Returns the lane that `byte` stands for.
    fn widen(byte: u8) -> (lane: Self)
        ensures
            lane == Self::from_byte(byte),
    ;

    /// Returns the byte that stands for the lane.
    fn narrow(self) -> (byte: u8)
        ensures
            byte == self.low_byte(),
    ;

    /// A slot is at least one byte wide and at most eight.
    proof fn lemma_width()
        ensures
            1 <= Self::width() <= 8,
    ;

    /// The lane that a byte stands for has this byte as its low byte.
    proof fn lemma_byte_survives(byte: u8)
        ensures
            Self::from_byte(byte).low_byte() == byte,
    ;
}

impl Lane for i8 {
    open spec fn width() -> nat {
        1
    }

    open spec fn from_byte(byte: u8) -> i8 {
        if byte < 128 {
            byte as i8
        } else {
            (byte - 256) as i8
        }
    }

    open spec fn low_byte(self) -> u8 {
        (self as int % 256) as u8
    }

    open spec fn zero_lane() -> i8 {
        0
    }

    fn slot() -> (width: usize) {
        1
    }

    fn zero() -> (lane: i8) {
        0
    }

    fn widen(byte: u8) -> (lane: i8) {
        assert(byte < 128 ==> byte as i8 == byte) by (bit_vector);
        assert(byte >= 128 ==> byte as i8 == byte - 256) by (bit_vector);
        #[verifier::truncate]
        (byte as i8)
    }

    fn narrow(self) -> (byte: u8) {
        assert(self >= 0 ==> self as u8 == self) by (bit_vector);
        assert(self < 0 ==> self as u8 == self + 256) by (bit_vector);
        #[verifier::truncate]
        (self as u8)
    }

    proof fn lemma_width() {
    }

    proof fn lemma_byte_survives(byte: u8) {
    }
}

impl Lane for i16 {
    open spec fn width() -> nat {
        2
    }

    open spec fn from_byte(byte: u8) -> i16 {
        byte as i16
    }

    open spec fn low_byte(self) -> u8 {
        (self as int % 256) as u8
    }

    open spec fn zero_lane() -> i16 {
        0
    }

    fn slot() -> (width: usize) {
        2
    }

    fn zero() -> (lane: i16) {
        0
    }

    fn widen(byte: u8) -> (lane: i16) {
        byte as i16
    }

    fn narrow(self) -> (byte: u8) {
        assert(self as u8 == self as int % 256) by (bit_vector);
        #[verifier::truncate]
        (self as u8)
    }

    proof fn lemma_width() {
    }

    proof fn lemma_byte_survives(byte: u8) {
    }
}

impl Lane for i32 {
    open spec fn width() -> nat {
        4
    }

    open spec fn from_byte(byte: u8) -> i32 {
        byte as i32
    }

    open spec fn low_byte(self) -> u8 {
        (self as int % 256) as u8
    }

    open spec fn zero_lane() -> i32 {
        0
    }

    fn slot() -> (width: usize) {
        4
    }

    fn zero() -> (lane: i32) {
        0
    }

    fn widen(byte: u8) -> (lane: i32) {
        byte as i32
    }

    fn narrow(self) -> (byte: u8) {
        assert(self as u8 == self as int % 256) by (bit_vector);
        #[verifier::truncate]
        (self as u8)
    }

    proof fn lemma_width() {
    }

    proof fn lemma_byte_survives(byte: u8) {
    }
}

impl Lane for i64 {
    open spec fn width() -> nat {
        8
    }

    open spec fn from_byte(byte: u8) -> i64 {
        byte as i64
    }

    open spec fn low_byte(self) -> u8 {
        (self as int % 256) as u8
    }

    open spec fn zero_lane() -> i64 {
        0
    }

    fn slot() -> (width: usize) {
        8
    }

    fn zero() -> (lane: i64) {
        0
    }

    fn widen(byte: u8) -> (lane: i64) {
        byte as i64
    }

    fn narrow(self) -> (byte: u8) {
        assert(self as u8 == self as int % 256) by (bit_vector);
        #[verifier::truncate]
        (self as u8)
    }

    proof fn lemma_width() {
    }

    proof fn lemma_byte_survives(byte: u8) {
    }
}

impl Lane for isize {
    open spec fn width() -> nat {
        (usize::BITS / 8) as nat
    }

    open spec fn from_byte(byte: u8) -> isize {
        byte as isize
    }

    open spec fn low_byte(self) -> u8 {
        (self as int % 256) as u8
    }

    open spec fn zero_lane() -> isize {
        0
    }

    fn slot() -> (width: usize) {
        (usize::BITS / 8) as usize
    }

    fn zero() -> (lane: isize) {
        0
    }

    fn widen(byte: u8) -> (lane: isize) {
        byte as isize
    }

    fn narrow(self) -> (byte: u8) {
        assert(self as u8 == self as int % 256) by (bit_vector);
        #[verifier::truncate]
        (self as u8)
    }

    proof fn lemma_width() {
    }

    proof fn lemma_byte_survives(byte: u8) {
    }
}

impl Lane for u8 {
    open spec fn width() -> nat {
        1
    }

    open spec fn from_byte(byte: u8) -> u8 {
        byte
    }

    open spec fn low_byte(self) -> u8 {
        self
    }

    open spec fn zero_lane() -> u8 {
        0
    }

    fn slot() -> (width: usize) {
        1
    }

    fn zero() -> (lane: u8) {
        0
    }

    fn widen(byte: u8) -> (lane: u8) {
        byte
    }

    fn narrow(self) -> (byte: u8) {
        self
    }

    proof fn lemma_width() {
    }

    proof fn lemma_byte_survives(byte: u8) {
    }
}

impl Lane for u16 {
    open spec fn width() -> nat {
        2
    }

    open spec fn from_byte(byte: u8) -> u16 {
        byte as u16
    }

    open spec fn low_byte(self) -> u8 {
        (self as int % 256) as u8
    }

    open spec fn zero_lane() -> u16 {
        0
    }

    fn slot() -> (width: usize) {
        2
    }

    fn zero() -> (lane: u16) {
        0
    }

    fn widen(byte: u8) -> (lane: u16) {
        byte as u16
    }

    fn narrow(self) -> (byte: u8) {
        assert(self as u8 == self as int % 256) by (bit_vector);
        #[verifier::truncate]
        (self as u8)
    }

    proof fn lemma_width() {
    }

    proof fn lemma_byte_survives(byte: u8) {
    }
}

impl Lane for u32 {
    open spec fn width() -> nat {
        4
    }

    open spec fn from_byte(byte: u8) -> u32 {
        byte as u32
    }

    open spec fn low_byte(self) -> u8 {
        (self as int % 256) as u8
    }

    open spec fn zero_lane() -> u32 {
        0
    }

    fn slot() -> (width: usize) {
        4
    }

    fn zero() -> (lane: u32) {
        0
    }

    fn widen(byte: u8) -> (lane: u32) {
        byte as u32
    }

    fn narrow(self) -> (byte: u8) {
        assert(self as u8 == self as int % 256) by (bit_vector);
        #[verifier::truncate]
        (self as u8)
    }

    proof fn lemma_width() {
    }

    proof fn lemma_byte_survives(byte: u8) {
    }
}

impl Lane for u64 {
    open spec fn width() -> nat {
        8
    }

    open spec fn from_byte(byte: u8) -> u64 {
        byte as u64
    }

    open spec fn low_byte(self) -> u8 {
        (self as int % 256) as u8
    }

    open spec fn zero_lane() -> u64 {
        0
    }

    fn slot() -> (width: usize) {
        8
    }

    fn zero() -> (lane: u64) {
        0
    }

    fn widen(byte: u8) -> (lane: u64) {
        byte as u64
    }

    fn narrow(self) -> (byte: u8) {
        assert(self as u8 == self as int % 256) by (bit_vector);
        #[verifier::truncate]
        (self as u8)
    }

    proof fn lemma_width() {
    }

    proof fn lemma_byte_survives(byte: u8) {
    }
}

impl Lane for usize {
    open spec fn width() -> nat {
        (usize::BITS / 8) as nat
    }

    open spec fn from_byte(byte: u8) -> usize {
        byte as usize
    }

    open spec fn low_byte(self) -> u8 {
        (self as int % 256) as u8
    }

    open spec fn zero_lane() -> usize {
        0
    }

    fn slot() -> (width: usize) {
        (usize::BITS / 8) as usize
    }

    fn zero() -> (lane: usize) {
        0
    }

    fn widen(byte: u8) -> (lane: usize) {
        byte as usize
    }

    fn narrow(self) -> (byte: u8) {
        assert(self as u8 == self as int % 256) by (bit_vector);
        #[verifier::truncate]
        (self as u8)
    }

    proof fn lemma_width() {
    }

    proof fn lemma_byte_survives(byte: u8) {
    }
}

/// A lane of one unsigned byte is kept whole by the byte that stands for it.
pub proof fn lemma_u8_lane_is_kept(lane: u8)
    ensures
        <u8 as Lane>::from_byte(lane.low_byte()) == lane,
{
}

/// A lane of one signed byte is kept whole by the byte that stands for it.
pub proof fn lemma_i8_lane_is_kept(lane: i8)
    ensures
        <i8 as Lane>::from_byte(lane.low_byte()) == lane,
{
}

/// A vector of `N` lanes of type `T`.
#[derive(Debug, Clone, Copy, PartialEq, Eq)]
pub struct Simd<T: Copy, const N: usize>([T; N]);

impl<T: Copy, const N: usize> View for Simd<T, N> {
    type V = Seq<T>;

    closed spec fn view(&self) -> Seq<T> {
        self.0@
    }
}

impl<T: Copy, const N: usize> Simd<T, N> {
    /// The vector whose lanes are the elements of `array`, in their order.
    pub fn from_array(array: [T; N]) -> (vector: Self)
        ensures
            vector@ == array@,
    {
        Simd(array)
    }

    /// Returns the lanes of the vector, in their order.
    pub fn to_array(self) -> (array: [T; N])
        ensures
            array@ == self@,
    {
        self.0
    }

    /// A vector has `N` lanes.
    pub proof fn lemma_len(self)
        ensures
            self@.len() == N,
    {
    }
}

impl<T: Lane, const N: usize> Simd<T, N> {
    /// The vector whose lanes are all zero.
    pub fn new() -> (vector: Self)
        ensures
            vector@ == Seq::new(N as nat, |i: int| T::zero_lane()),
    {
        let vector = Simd([T::zero();N]);
        assert(vector@ =~= Seq::new(N as nat, |i: int| T::zero_lane()));
        vector
    }
}

impl<T: Copy, const N: usize> Index<usize> for Simd<T, N> {
    type Output = T;

    /// Lane `index` of the vector, which must have it.
    fn index(&self, index: usize) -> (lane: &T)
        ensures
            *lane == self@[index as int],
    {
        &self.0[index]
    }
}

impl<T: Copy, const N: usize> vstd::std_specs::core::IndexSpecImpl<usize> for Simd<T, N> {
    open spec fn index_req(&self, index: &usize) -> bool {
        *index < N
    }
}

/// The lanes that `count` slots of `T` at the start of `bytes` hold.
pub open spec fn lanes_of<T: Lane>(bytes: Seq<u8>, count: nat) -> Seq<T> {
    Seq::new(count, |i: int| T::from_byte(bytes[i * T::width()]))
}

/// `bytes` after `lanes` are stored in the slots of `T` at its start: the
/// first byte of each slot is the lane's low byte, every other byte is as it
/// was.
pub open spec fn with_lanes<T: Lane>(bytes: Seq<u8>, lanes: Seq<T>) -> Seq<u8> {
    Seq::new(
        bytes.len(),
        |at: int|
            if at % (T::width() as int) == 0 && at / (T::width() as int) < lanes.len() {
                lanes[at / (T::width() as int)].low_byte()
            } else {
                bytes[at]
            },
    )
}

/// Loads `N` lanes from the start of `bytes`.
pub fn load<T: Lane, const N: usize>(bytes: &[u8]) -> (vector: Simd<T, N>)
    requires
        N * T::width() <= bytes@.len(),
    ensures
        vector@ == lanes_of::<T>(bytes@, N as nat),
{
    let width = T::slot();
    let mut lanes = [T::zero();N];
    let mut i: usize = 0;
    while i < N
        invariant
            i <= N,
            width == T::width(),
            1 <= width <= 8,
            N * width <= bytes@.len(),
            forall|j: int| 0 <= j < i ==> lanes@[j] == T::from_byte(bytes@[j * T::width()]),
        decreases N - i,
    {
        assert(bytes.len() == bytes@.len());
        assert(i * width + width <= bytes@.len()) by (nonlinear_arith)
            requires
                i < N,
                0 < width,
                N * width <= bytes@.len(),
        ;
        lanes[i] = T::widen(bytes[i * width]);
        i += 1;
    }
    assert(lanes@ =~= lanes_of::<T>(bytes@, N as nat));
    Simd(lanes)
}

/// Stores the lanes of `lanes` at the start of `bytes`.
pub fn store<T: Lane, const N: usize>(bytes: &mut [u8], lanes: &[T; N])
    requires
        N * T::width() <= old(bytes)@.len(),
    ensures
        final(bytes)@ == with_lanes::<T>(old(bytes)@, lanes@),
{
    let width = T::slot();
    let mut i: usize = 0;
    while i < N
        invariant
            i <= N,
            width == T::width(),
            1 <= width <= 8,
            bytes@.len() == old(bytes)@.len(),
            N * width <= bytes@.len(),
            bytes@ == with_lanes::<T>(old(bytes)@, lanes@.take(i as int)),
        decreases N - i,
    {
        assert(bytes.len() == bytes@.len());
        assert(i * width + width <= bytes@.len()) by (nonlinear_arith)
            requires
                i < N,
                0 < width,
                N * width <= bytes@.len(),
        ;
        bytes[i * width] = lanes[i].narrow();
        proof {
            let w = width as int;
            assert forall|at: int| 0 <= at < bytes@.len() implies bytes@[at] == with_lanes::<T>(
                old(bytes)@,
                lanes@.take(i + 1),
            )[at] by {
                if at == i * w {
                    lemma_slot_start(i as int, w);
                } else if at % w == 0 {
                    lemma_slot_of(at, w);
                }
            }
            assert(bytes@ =~= with_lanes::<T>(old(bytes)@, lanes@.take(i + 1)));
        }
        i += 1;
    }
    assert(lanes@.take(N as int) =~= lanes@);
}

/// Slot `i` starts at byte `i * width`.
pub proof fn lemma_slot_start(i: int, width: int)
    by (nonlinear_arith)
    requires
        0 <= i,
        0 < width,
    ensures
        (i * width) % width == 0,
        (i * width) / width == i,
{
}

/// A byte at which a slot starts is the product of the slot's number and the
/// width.
pub proof fn lemma_slot_of(at: int, width: int)
    by (nonlinear_arith)
    requires
        0 <= at,
        0 < width,
        at % width == 0,
    ensures
        at == (at / width) * width,
        0 <= at / width,
{
}

/// Loading lanes where they were stored gives, for each lane, the lane that
/// its low byte stands for.
pub proof fn lemma_load_after_store<T: Lane>(bytes: Seq<u8>, lanes: Seq<T>)
    requires
        lanes.len() * T::width() <= bytes.len(),
    ensures
        lanes_of::<T>(with_lanes::<T>(bytes, lanes), lanes.len()) == lanes.map_values(
            |lane: T| T::from_byte(lane.low_byte()),
        ),
{
    T::lemma_width();
    let width = T::width() as int;
    let stored = with_lanes::<T>(bytes, lanes);
    assert forall|i: int| 0 <= i < lanes.len() implies lanes_of::<T>(stored, lanes.len())[i]
        == T::from_byte(lanes[i].low_byte()) by {
        lemma_slot_start(i, width);
        assert(i * width + width <= lanes.len() * width) by (nonlinear_arith)
            requires
                0 <= i < lanes.len(),
                0 < width,
        ;
    }
    assert(lanes_of::<T>(stored, lanes.len()) =~= lanes.map_values(
        |lane: T| T::from_byte(lane.low_byte()),
    ));
}

/// Lanes of one unsigned byte are loaded as they were stored.
pub proof fn lemma_u8_lanes_round_trip(bytes: Seq<u8>, lanes: Seq<u8>)
    requires
        lanes.len() <= bytes.len(),
    ensures
        lanes_of::<u8>(with_lanes::<u8>(bytes, lanes), lanes.len()) == lanes,
{
    lemma_load_after_store::<u8>(bytes, lanes);
    assert(lanes.map_values(|lane: u8| <u8 as Lane>::from_byte(lane.low_byte())) =~= lanes);
}

/// Lanes of one signed byte are loaded as they were stored.
pub proof fn lemma_i8_lanes_round_trip(bytes: Seq<u8>, lanes: Seq<i8>)
    requires
        lanes.len() <= bytes.len(),
    ensures
        lanes_of::<i8>(with_lanes::<i8>(bytes, lanes), lanes.len()) == lanes,
{
    lemma_load_after_store::<i8>(bytes, lanes);
    assert(lanes.map_values(|lane: i8| <i8 as Lane>::from_byte(lane.low_byte())) =~= lanes);
}

/// Storing lanes changes no byte behind their slots, and the bytes of their
/// slots do not depend on the bytes behind them: what a shorter view of the
/// same bytes shows after the store is what the store makes of that view.
pub proof fn lemma_store_in_prefix<T: Lane>(bytes: Seq<u8>, lanes: Seq<T>, len: int)
    requires
        0 <= len <= bytes.len(),
    ensures
        with_lanes::<T>(bytes, lanes).take(len) == with_lanes::<T>(bytes.take(len), lanes),
        with_lanes::<T>(bytes, lanes).len() == bytes.len(),
        lanes.len() * T::width() <= len ==> with_lanes::<T>(bytes, lanes).skip(len) == bytes.skip(
            len,
        ),
{
    T::lemma_width();
    let width = T::width() as int;
    assert(with_lanes::<T>(bytes, lanes).take(len) =~= with_lanes::<T>(bytes.take(len), lanes));
    if lanes.len() * T::width() <= len {
        assert forall|at: int| len <= at < bytes.len() implies with_lanes::<T>(bytes, lanes)[at]
            == bytes[at] by {
            if at % width == 0 && at / width < lanes.len() {
                lemma_slot_of(at, width);
                assert((at / width) * width + width <= lanes.len() * width) by (nonlinear_arith)
                    requires
                        0 <= at / width < lanes.len(),
                        0 < width,
                ;
            }
        }
        assert(with_lanes::<T>(bytes, lanes).skip(len) =~= bytes.skip(len));
    }
}

/// Lanes that are loaded from a view are the first lanes that a longer view
/// of the same bytes gives.
pub proof fn lemma_load_from_prefix<T: Lane>(bytes: Seq<u8>, count: nat, len: int)
    requires
        count * T::width() <= len <= bytes.len(),
    ensures
        lanes_of::<T>(bytes.take(len), count) == lanes_of::<T>(bytes, count),
{
    T::lemma_width();
    let width = T::width() as int;
    assert forall|i: int| 0 <= i < count implies lanes_of::<T>(bytes.take(len), count)[i]
        == lanes_of::<T>(bytes, count)[i] by {
        assert(i * width + width <= count * width) by (nonlinear_arith)
            requires
                0 <= i < count,
                0 < width,
        ;
    }
    assert(lanes_of::<T>(bytes.take(len), count) =~= lanes_of::<T>(bytes, count));
}

/// One signed 8-bit lane.
#[allow(non_camel_case_types)]
pub type i8x1 = Simd<i8, 1>;

/// Two signed 8-bit lanes.
#[allow(non_camel_case_types)]
pub type i8x2 = Simd<i8, 2>;

/// Four signed 8-bit lanes.
#[allow(non_camel_case_types)]
pub type i8x4 = Simd<i8, 4>;

/// Eight signed 8-bit lanes.
#[allow(non_camel_case_types)]
pub type i8x8 = Simd<i8, 8>;

/// Sixteen signed 8-bit lanes.
#[allow(non_camel_case_types)]
pub type i8x16 = Simd<i8, 16>;

/// Thirty-two signed 8-bit lanes.
#[allow(non_camel_case_types)]
pub type i8x32 = Simd<i8, 32>;

/// Sixty-four signed 8-bit lanes.
#[allow(non_camel_case_types)]
pub type i8x64 = Simd<i8, 64>;

/// One signed 16-bit lane.
#[allow(non_camel_case_types)]
pub type i16x1 = Simd<i16, 1>;

/// Two signed 16-bit lanes.
#[allow(non_camel_case_types)]
pub type i16x2 = Simd<i16, 2>;

/// Four signed 16-bit lanes.
#[allow(non_camel_case_types)]
pub type i16x4 = Simd<i16, 4>;

/// Eight signed 16-bit lanes.
#[allow(non_camel_case_types)]
pub type i16x8 = Simd<i16, 8>;

/// Sixteen signed 16-bit lanes.
#[allow(non_camel_case_types)]
pub type i16x16 = Simd<i16, 16>;

/// Thirty-two signed 16-bit lanes.
#[allow(non_camel_case_types)]
pub type i16x32 = Simd<i16, 32>;

/// One signed 32-bit lane.
#[allow(non_camel_case_types)]
pub type i32x1 = Simd<i32, 1>;

/// Two signed 32-bit lanes.
#[allow(non_camel_case_types)]
pub type i32x2 = Simd<i32, 2>;

/// Four signed 32-bit lanes.
#[allow(non_camel_case_types)]
pub type i32x4 = Simd<i32, 4>;

/// Eight signed 32-bit lanes.
#[allow(non_camel_case_types)]
pub type i32x8 = Simd<i32, 8>;

/// Sixteen signed 32-bit lanes.
#[allow(non_camel_case_types)]
pub type i32x16 = Simd<i32, 16>;

/// One signed 64-bit lane.
#[allow(non_camel_case_types)]
pub type i64x1 = Simd<i64, 1>;

/// Two signed 64-bit lanes.
#[allow(non_camel_case_types)]
pub type i64x2 = Simd<i64, 2>;

/// Four signed 64-bit lanes.
#[allow(non_camel_case_types)]
pub type i64x4 = Simd<i64, 4>;

/// Eight signed 64-bit lanes.
#[allow(non_camel_case_types)]
pub type i64x8 = Simd<i64, 8>;

/// One signed pointer-sized lane.
#[allow(non_camel_case_types)]
pub type isizex1 = Simd<isize, 1>;

/// Two signed pointer-sized lanes.
#[allow(non_camel_case_types)]
pub type isizex2 = Simd<isize, 2>;

/// Four signed pointer-sized lanes.
#[allow(non_camel_case_types)]
pub type isizex4 = Simd<isize, 4>;

/// Eight signed pointer-sized lanes.
#[allow(non_camel_case_types)]
pub type isizex8 = Simd<isize, 8>;

/// Sixteen signed pointer-sized lanes.
#[allow(non_camel_case_types)]
pub type isizex16 = Simd<isize, 16>;

/// Thirty-two signed pointer-sized lanes.
#[allow(non_camel_case_types)]
pub type isizex32 = Simd<isize, 32>;

/// Sixty-four signed pointer-sized lanes.
#[allow(non_camel_case_types)]
pub type isizex64 = Simd<isize, 64>;

/// One unsigned 8-bit lane.
#[allow(non_camel_case_types)]
pub type u8x1 = Simd<u8, 1>;

/// Two unsigned 8-bit lanes.
#[allow(non_camel_case_types)]
pub type u8x2 = Simd<u8, 2>;

/// Four unsigned 8-bit lanes.
#[allow(non_camel_case_types)]
pub type u8x4 = Simd<u8, 4>;

/// Eight unsigned 8-bit lanes.
#[allow(non_camel_case_types)]
pub type u8x8 = Simd<u8, 8>;

/// Sixteen unsigned 8-bit lanes.
#[allow(non_camel_case_types)]
pub type u8x16 = Simd<u8, 16>;

/// Thirty-two unsigned 8-bit lanes.
#[allow(non_camel_case_types)]
pub type u8x32 = Simd<u8, 32>;

/// Sixty-four unsigned 8-bit lanes.
#[allow(non_camel_case_types)]
pub type u8x64 = Simd<u8, 64>;

/// One unsigned 16-bit lane.
#[allow(non_camel_case_types)]
pub type u16x1 = Simd<u16, 1>;

/// Two unsigned 16-bit lanes.
#[allow(non_camel_case_types)]
pub type u16x2 = Simd<u16, 2>;

/// Four unsigned 16-bit lanes.
#[allow(non_camel_case_types)]
pub type u16x4 = Simd<u16, 4>;

/// Eight unsigned 16-bit lanes.
#[allow(non_camel_case_types)]
pub type u16x8 = Simd<u16, 8>;

/// Sixteen unsigned 16-bit lanes.
#[allow(non_camel_case_types)]
pub type u16x16 = Simd<u16, 16>;

/// Thirty-two unsigned 16-bit lanes.
#[allow(non_camel_case_types)]
pub type u16x32 = Simd<u16, 32>;

/// One unsigned 32-bit lane.
#[allow(non_camel_case_types)]
pub type u32x1 = Simd<u32, 1>;

/// Two unsigned 32-bit lanes.
#[allow(non_camel_case_types)]
pub type u32x2 = Simd<u32, 2>;

/// Four unsigned 32-bit lanes.
#[allow(non_camel_case_types)]
pub type u32x4 = Simd<u32, 4>;

/// Eight unsigned 32-bit lanes.
#[allow(non_camel_case_types)]
pub type u32x8 = Simd<u32, 8>;

/// Sixteen unsigned 32-bit lanes.
#[allow(non_camel_case_types)]
pub type u32x16 = Simd<u32, 16>;

/// One unsigned 64-bit lane.
#[allow(non_camel_case_types)]
pub type u64x1 = Simd<u64, 1>;

/// Two unsigned 64-bit lanes.
#[allow(non_camel_case_types)]
pub type u64x2 = Simd<u64, 2>;

/// Four unsigned 64-bit lanes.
#[allow(non_camel_case_types)]
pub type u64x4 = Simd<u64, 4>;

/// Eight unsigned 64-bit lanes.
#[allow(non_camel_case_types)]
pub type u64x8 = Simd<u64, 8>;

/// One unsigned pointer-sized lane.
#[allow(non_camel_case_types)]
pub type usizex1 = Simd<usize, 1>;

/// Two unsigned pointer-sized lanes.
#[allow(non_camel_case_types)]
pub type usizex2 = Simd<usize, 2>;

/// Four unsigned pointer-sized lanes.
#[allow(non_camel_case_types)]
pub type usizex4 = Simd<usize, 4>;

/// Eight unsigned pointer-sized lanes.
#[allow(non_camel_case_types)]
pub type usizex8 = Simd<usize, 8>;

/// Sixteen unsigned pointer-sized lanes.
#[allow(non_camel_case_types)]
pub type usizex16 = Simd<usize, 16>;

/// Thirty-two unsigned pointer-sized lanes.
#[allow(non_camel_case_types)]
pub type usizex32 = Simd<usize, 32>;

/// Sixty-four unsigned pointer-sized lanes.
#[allow(non_camel_case_types)]
pub type usizex64 = Simd<usize, 64>;

} // verus!
