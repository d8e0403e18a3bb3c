//! The typed accessors of the `Zmm` views: one for each kind of lane and
//! each number of lanes that the view can hold.
use vstd::prelude::*;
use crate::simd::lanes_of;
use crate::simd::with_lanes;
use crate::simd::Simd;
use crate::x86_64::simd::ZmmView;
use crate::x86_64::simd::ZmmViewMut;

verus! {

impl<'a> ZmmView<'a> {
    /// Loads one signed 8-bit lane.
    pub fn read_i8x1(&self) -> (lanes: Simd<i8, 1>)
        ensures
            lanes@ == lanes_of::<i8>(self@, 1),
    {
        self.read_lanes()
    }

    /// Loads two signed 8-bit lanes.
    pub fn read_i8x2(&self) -> (lanes: Simd<i8, 2>)
        ensures
            lanes@ == lanes_of::<i8>(self@, 2),
    {
        self.read_lanes()
    }

    /// Loads four signed 8-bit lanes.
    pub fn read_i8x4(&self) -> (lanes: Simd<i8, 4>)
        ensures
            lanes@ == lanes_of::<i8>(self@, 4),
    {
        self.read_lanes()
    }

    /// Loads eight signed 8-bit lanes.
    pub fn read_i8x8(&self) -> (lanes: Simd<i8, 8>)
        ensures
            lanes@ == lanes_of::<i8>(self@, 8),
    {
        self.read_lanes()
    }

    /// Loads sixteen signed 8-bit lanes.
    pub fn read_i8x16(&self) -> (lanes: Simd<i8, 16>)
        ensures
            lanes@ == lanes_of::<i8>(self@, 16),
    {
        self.read_lanes()
    }

    /// Loads thirty-two signed 8-bit lanes.
    pub fn read_i8x32(&self) -> (lanes: Simd<i8, 32>)
        ensures
            lanes@ == lanes_of::<i8>(self@, 32),
    {
        self.read_lanes()
    }

    /// Loads sixty-four signed 8-bit lanes.
    pub fn read_i8x64(&self) -> (lanes: Simd<i8, 64>)
        ensures
            lanes@ == lanes_of::<i8>(self@, 64),
    {
        self.read_lanes()
    }

    /// Loads one signed 16-bit lane.
    pub fn read_i16x1(&self) -> (lanes: Simd<i16, 1>)
        ensures
            lanes@ == lanes_of::<i16>(self@, 1),
    {
        self.read_lanes()
    }

    /// Loads two signed 16-bit lanes.
    pub fn read_i16x2(&self) -> (lanes: Simd<i16, 2>)
        ensures
            lanes@ == lanes_of::<i16>(self@, 2),
    {
        self.read_lanes()
    }

    /// Loads four signed 16-bit lanes.
    pub fn read_i16x4(&self) -> (lanes: Simd<i16, 4>)
        ensures
            lanes@ == lanes_of::<i16>(self@, 4),
    {
        self.read_lanes()
    }

    /// Loads eight signed 16-bit lanes.
    pub fn read_i16x8(&self) -> (lanes: Simd<i16, 8>)
        ensures
            lanes@ == lanes_of::<i16>(self@, 8),
    {
        self.read_lanes()
    }

    /// Loads sixteen signed 16-bit lanes.
    pub fn read_i16x16(&self) -> (lanes: Simd<i16, 16>)
        ensures
            lanes@ == lanes_of::<i16>(self@, 16),
    {
        self.read_lanes()
    }

    /// Loads thirty-two signed 16-bit lanes.
    pub fn read_i16x32(&self) -> (lanes: Simd<i16, 32>)
        ensures
            lanes@ == lanes_of::<i16>(self@, 32),
    {
        self.read_lanes()
    }

    /// Loads one signed 32-bit lane.
    pub fn read_i32x1(&self) -> (lanes: Simd<i32, 1>)
        ensures
            lanes@ == lanes_of::<i32>(self@, 1),
    {
        self.read_lanes()
    }

    /// Loads two signed 32-bit lanes.
    pub fn read_i32x2(&self) -> (lanes: Simd<i32, 2>)
        ensures
            lanes@ == lanes_of::<i32>(self@, 2),
    {
        self.read_lanes()
    }

    /// Loads four signed 32-bit lanes.
    pub fn read_i32x4(&self) -> (lanes: Simd<i32, 4>)
        ensures
            lanes@ == lanes_of::<i32>(self@, 4),
    {
        self.read_lanes()
    }

    /// Loads eight signed 32-bit lanes.
    pub fn read_i32x8(&self) -> (lanes: Simd<i32, 8>)
        ensures
            lanes@ == lanes_of::<i32>(self@, 8),
    {
        self.read_lanes()
    }

    /// Loads sixteen signed 32-bit lanes.
    pub fn read_i32x16(&self) -> (lanes: Simd<i32, 16>)
        ensures
            lanes@ == lanes_of::<i32>(self@, 16),
    {
        self.read_lanes()
    }

    /// Loads one signed 64-bit lane.
    pub fn read_i64x1(&self) -> (lanes: Simd<i64, 1>)
        ensures
            lanes@ == lanes_of::<i64>(self@, 1),
    {
        self.read_lanes()
    }

    /// Loads two signed 64-bit lanes.
    pub fn read_i64x2(&self) -> (lanes: Simd<i64, 2>)
        ensures
            lanes@ == lanes_of::<i64>(self@, 2),
    {
        self.read_lanes()
    }

    /// Loads four signed 64-bit lanes.
    pub fn read_i64x4(&self) -> (lanes: Simd<i64, 4>)
        ensures
            lanes@ == lanes_of::<i64>(self@, 4),
    {
        self.read_lanes()
    }

    /// Loads eight signed 64-bit lanes.
    pub fn read_i64x8(&self) -> (lanes: Simd<i64, 8>)
        ensures
            lanes@ == lanes_of::<i64>(self@, 8),
    {
        self.read_lanes()
    }

    /// Loads one unsigned 8-bit lane.
    pub fn read_u8x1(&self) -> (lanes: Simd<u8, 1>)
        ensures
            lanes@ == lanes_of::<u8>(self@, 1),
    {
        self.read_lanes()
    }

    /// Loads two unsigned 8-bit lanes.
    pub fn read_u8x2(&self) -> (lanes: Simd<u8, 2>)
        ensures
            lanes@ == lanes_of::<u8>(self@, 2),
    {
        self.read_lanes()
    }

    /// Loads four unsigned 8-bit lanes.
    pub fn read_u8x4(&self) -> (lanes: Simd<u8, 4>)
        ensures
            lanes@ == lanes_of::<u8>(self@, 4),
    {
        self.read_lanes()
    }

    /// Loads eight unsigned 8-bit lanes.
    pub fn read_u8x8(&self) -> (lanes: Simd<u8, 8>)
        ensures
            lanes@ == lanes_of::<u8>(self@, 8),
    {
        self.read_lanes()
    }

    /// Loads sixteen unsigned 8-bit lanes.
    pub fn read_u8x16(&self) -> (lanes: Simd<u8, 16>)
        ensures
            lanes@ == lanes_of::<u8>(self@, 16),
    {
        self.read_lanes()
    }

    /// Loads thirty-two unsigned 8-bit lanes.
    pub fn read_u8x32(&self) -> (lanes: Simd<u8, 32>)
        ensures
            lanes@ == lanes_of::<u8>(self@, 32),
    {
        self.read_lanes()
    }

    /// Loads sixty-four unsigned 8-bit lanes.
    pub fn read_u8x64(&self) -> (lanes: Simd<u8, 64>)
        ensures
            lanes@ == lanes_of::<u8>(self@, 64),
    {
        self.read_lanes()
    }

    /// Loads one unsigned 16-bit lane.
    pub fn read_u16x1(&self) -> (lanes: Simd<u16, 1>)
        ensures
            lanes@ == lanes_of::<u16>(self@, 1),
    {
        self.read_lanes()
    }

    /// Loads two unsigned 16-bit lanes.
    pub fn read_u16x2(&self) -> (lanes: Simd<u16, 2>)
        ensures
            lanes@ == lanes_of::<u16>(self@, 2),
    {
        self.read_lanes()
    }

    /// Loads four unsigned 16-bit lanes.
    pub fn read_u16x4(&self) -> (lanes: Simd<u16, 4>)
        ensures
            lanes@ == lanes_of::<u16>(self@, 4),
    {
        self.read_lanes()
    }

    /// Loads eight unsigned 16-bit lanes.
    pub fn read_u16x8(&self) -> (lanes: Simd<u16, 8>)
        ensures
            lanes@ == lanes_of::<u16>(self@, 8),
    {
        self.read_lanes()
    }

    /// Loads sixteen unsigned 16-bit lanes.
    pub fn read_u16x16(&self) -> (lanes: Simd<u16, 16>)
        ensures
            lanes@ == lanes_of::<u16>(self@, 16),
    {
        self.read_lanes()
    }

    /// Loads thirty-two unsigned 16-bit lanes.
    pub fn read_u16x32(&self) -> (lanes: Simd<u16, 32>)
        ensures
            lanes@ == lanes_of::<u16>(self@, 32),
    {
        self.read_lanes()
    }

    /// Loads one unsigned 32-bit lane.
    pub fn read_u32x1(&self) -> (lanes: Simd<u32, 1>)
        ensures
            lanes@ == lanes_of::<u32>(self@, 1),
    {
        self.read_lanes()
    }

    /// Loads two unsigned 32-bit lanes.
    pub fn read_u32x2(&self) -> (lanes: Simd<u32, 2>)
        ensures
            lanes@ == lanes_of::<u32>(self@, 2),
    {
        self.read_lanes()
    }

    /// Loads four unsigned 32-bit lanes.
    pub fn read_u32x4(&self) -> (lanes: Simd<u32, 4>)
        ensures
            lanes@ == lanes_of::<u32>(self@, 4),
    {
        self.read_lanes()
    }

    /// Loads eight unsigned 32-bit lanes.
    pub fn read_u32x8(&self) -> (lanes: Simd<u32, 8>)
        ensures
            lanes@ == lanes_of::<u32>(self@, 8),
    {
        self.read_lanes()
    }

    /// Loads sixteen unsigned 32-bit lanes.
    pub fn read_u32x16(&self) -> (lanes: Simd<u32, 16>)
        ensures
            lanes@ == lanes_of::<u32>(self@, 16),
    {
        self.read_lanes()
    }

    /// Loads one unsigned 64-bit lane.
    pub fn read_u64x1(&self) -> (lanes: Simd<u64, 1>)
        ensures
            lanes@ == lanes_of::<u64>(self@, 1),
    {
        self.read_lanes()
    }

    /// Loads two unsigned 64-bit lanes.
    pub fn read_u64x2(&self) -> (lanes: Simd<u64, 2>)
        ensures
            lanes@ == lanes_of::<u64>(self@, 2),
    {
        self.read_lanes()
    }

    /// Loads four unsigned 64-bit lanes.
    pub fn read_u64x4(&self) -> (lanes: Simd<u64, 4>)
        ensures
            lanes@ == lanes_of::<u64>(self@, 4),
    {
        self.read_lanes()
    }

    /// Loads eight unsigned 64-bit lanes.
    pub fn read_u64x8(&self) -> (lanes: Simd<u64, 8>)
        ensures
            lanes@ == lanes_of::<u64>(self@, 8),
    {
        self.read_lanes()
    }
}

impl<'a> ZmmViewMut<'a> {
    /// Loads one signed 8-bit lane.
    pub fn read_i8x1(&self) -> (lanes: Simd<i8, 1>)
        ensures
            lanes@ == lanes_of::<i8>(self@, 1),
    {
        self.read_lanes()
    }

    /// Loads two signed 8-bit lanes.
    pub fn read_i8x2(&self) -> (lanes: Simd<i8, 2>)
        ensures
            lanes@ == lanes_of::<i8>(self@, 2),
    {
        self.read_lanes()
    }

    /// Loads four signed 8-bit lanes.
    pub fn read_i8x4(&self) -> (lanes: Simd<i8, 4>)
        ensures
            lanes@ == lanes_of::<i8>(self@, 4),
    {
        self.read_lanes()
    }

    /// Loads eight signed 8-bit lanes.
    pub fn read_i8x8(&self) -> (lanes: Simd<i8, 8>)
        ensures
            lanes@ == lanes_of::<i8>(self@, 8),
    {
        self.read_lanes()
    }

    /// Loads sixteen signed 8-bit lanes.
    pub fn read_i8x16(&self) -> (lanes: Simd<i8, 16>)
        ensures
            lanes@ == lanes_of::<i8>(self@, 16),
    {
        self.read_lanes()
    }

    /// Loads thirty-two signed 8-bit lanes.
    pub fn read_i8x32(&self) -> (lanes: Simd<i8, 32>)
        ensures
            lanes@ == lanes_of::<i8>(self@, 32),
    {
        self.read_lanes()
    }

    /// Loads sixty-four signed 8-bit lanes.
    pub fn read_i8x64(&self) -> (lanes: Simd<i8, 64>)
        ensures
            lanes@ == lanes_of::<i8>(self@, 64),
    {
        self.read_lanes()
    }

    /// Loads one signed 16-bit lane.
    pub fn read_i16x1(&self) -> (lanes: Simd<i16, 1>)
        ensures
            lanes@ == lanes_of::<i16>(self@, 1),
    {
        self.read_lanes()
    }

    /// Loads two signed 16-bit lanes.
    pub fn read_i16x2(&self) -> (lanes: Simd<i16, 2>)
        ensures
            lanes@ == lanes_of::<i16>(self@, 2),
    {
        self.read_lanes()
    }

    /// Loads four signed 16-bit lanes.
    pub fn read_i16x4(&self) -> (lanes: Simd<i16, 4>)
        ensures
            lanes@ == lanes_of::<i16>(self@, 4),
    {
        self.read_lanes()
    }

    /// Loads eight signed 16-bit lanes.
    pub fn read_i16x8(&self) -> (lanes: Simd<i16, 8>)
        ensures
            lanes@ == lanes_of::<i16>(self@, 8),
    {
        self.read_lanes()
    }

    /// Loads sixteen signed 16-bit lanes.
    pub fn read_i16x16(&self) -> (lanes: Simd<i16, 16>)
        ensures
            lanes@ == lanes_of::<i16>(self@, 16),
    {
        self.read_lanes()
    }

    /// Loads thirty-two signed 16-bit lanes.
    pub fn read_i16x32(&self) -> (lanes: Simd<i16, 32>)
        ensures
            lanes@ == lanes_of::<i16>(self@, 32),
    {
        self.read_lanes()
    }

    /// Loads one signed 32-bit lane.
    pub fn read_i32x1(&self) -> (lanes: Simd<i32, 1>)
        ensures
            lanes@ == lanes_of::<i32>(self@, 1),
    {
        self.read_lanes()
    }

    /// Loads two signed 32-bit lanes.
    pub fn read_i32x2(&self) -> (lanes: Simd<i32, 2>)
        ensures
            lanes@ == lanes_of::<i32>(self@, 2),
    {
        self.read_lanes()
    }

    /// Loads four signed 32-bit lanes.
    pub fn read_i32x4(&self) -> (lanes: Simd<i32, 4>)
        ensures
            lanes@ == lanes_of::<i32>(self@, 4),
    {
        self.read_lanes()
    }

    /// Loads eight signed 32-bit lanes.
    pub fn read_i32x8(&self) -> (lanes: Simd<i32, 8>)
        ensures
            lanes@ == lanes_of::<i32>(self@, 8),
    {
        self.read_lanes()
    }

    /// Loads sixteen signed 32-bit lanes.
    pub fn read_i32x16(&self) -> (lanes: Simd<i32, 16>)
        ensures
            lanes@ == lanes_of::<i32>(self@, 16),
    {
        self.read_lanes()
    }

    /// Loads one signed 64-bit lane.
    pub fn read_i64x1(&self) -> (lanes: Simd<i64, 1>)
        ensures
            lanes@ == lanes_of::<i64>(self@, 1),
    {
        self.read_lanes()
    }

    /// Loads two signed 64-bit lanes.
    pub fn read_i64x2(&self) -> (lanes: Simd<i64, 2>)
        ensures
            lanes@ == lanes_of::<i64>(self@, 2),
    {
        self.read_lanes()
    }

    /// Loads four signed 64-bit lanes.
    pub fn read_i64x4(&self) -> (lanes: Simd<i64, 4>)
        ensures
            lanes@ == lanes_of::<i64>(self@, 4),
    {
        self.read_lanes()
    }

    /// Loads eight signed 64-bit lanes.
    pub fn read_i64x8(&self) -> (lanes: Simd<i64, 8>)
        ensures
            lanes@ == lanes_of::<i64>(self@, 8),
    {
        self.read_lanes()
    }

    /// Loads one unsigned 8-bit lane.
    pub fn read_u8x1(&self) -> (lanes: Simd<u8, 1>)
        ensures
            lanes@ == lanes_of::<u8>(self@, 1),
    {
        self.read_lanes()
    }

    /// Loads two unsigned 8-bit lanes.
    pub fn read_u8x2(&self) -> (lanes: Simd<u8, 2>)
        ensures
            lanes@ == lanes_of::<u8>(self@, 2),
    {
        self.read_lanes()
    }

    /// Loads four unsigned 8-bit lanes.
    pub fn read_u8x4(&self) -> (lanes: Simd<u8, 4>)
        ensures
            lanes@ == lanes_of::<u8>(self@, 4),
    {
        self.read_lanes()
    }

    /// Loads eight unsigned 8-bit lanes.
    pub fn read_u8x8(&self) -> (lanes: Simd<u8, 8>)
        ensures
            lanes@ == lanes_of::<u8>(self@, 8),
    {
        self.read_lanes()
    }

    /// Loads sixteen unsigned 8-bit lanes.
    pub fn read_u8x16(&self) -> (lanes: Simd<u8, 16>)
        ensures
            lanes@ == lanes_of::<u8>(self@, 16),
    {
        self.read_lanes()
    }

    /// Loads thirty-two unsigned 8-bit lanes.
    pub fn read_u8x32(&self) -> (lanes: Simd<u8, 32>)
        ensures
            lanes@ == lanes_of::<u8>(self@, 32),
    {
        self.read_lanes()
    }

    /// Loads sixty-four unsigned 8-bit lanes.
    pub fn read_u8x64(&self) -> (lanes: Simd<u8, 64>)
        ensures
            lanes@ == lanes_of::<u8>(self@, 64),
    {
        self.read_lanes()
    }

    /// Loads one unsigned 16-bit lane.
    pub fn read_u16x1(&self) -> (lanes: Simd<u16, 1>)
        ensures
            lanes@ == lanes_of::<u16>(self@, 1),
    {
        self.read_lanes()
    }

    /// Loads two unsigned 16-bit lanes.
    pub fn read_u16x2(&self) -> (lanes: Simd<u16, 2>)
        ensures
            lanes@ == lanes_of::<u16>(self@, 2),
    {
        self.read_lanes()
    }

    /// Loads four unsigned 16-bit lanes.
    pub fn read_u16x4(&self) -> (lanes: Simd<u16, 4>)
        ensures
            lanes@ == lanes_of::<u16>(self@, 4),
    {
        self.read_lanes()
    }

    /// Loads eight unsigned 16-bit lanes.
    pub fn read_u16x8(&self) -> (lanes: Simd<u16, 8>)
        ensures
            lanes@ == lanes_of::<u16>(self@, 8),
    {
        self.read_lanes()
    }

    /// Loads sixteen unsigned 16-bit lanes.
    pub fn read_u16x16(&self) -> (lanes: Simd<u16, 16>)
        ensures
            lanes@ == lanes_of::<u16>(self@, 16),
    {
        self.read_lanes()
    }

    /// Loads thirty-two unsigned 16-bit lanes.
    pub fn read_u16x32(&self) -> (lanes: Simd<u16, 32>)
        ensures
            lanes@ == lanes_of::<u16>(self@, 32),
    {
        self.read_lanes()
    }

    /// Loads one unsigned 32-bit lane.
    pub fn read_u32x1(&self) -> (lanes: Simd<u32, 1>)
        ensures
            lanes@ == lanes_of::<u32>(self@, 1),
    {
        self.read_lanes()
    }

    /// Loads two unsigned 32-bit lanes.
    pub fn read_u32x2(&self) -> (lanes: Simd<u32, 2>)
        ensures
            lanes@ == lanes_of::<u32>(self@, 2),
    {
        self.read_lanes()
    }

    /// Loads four unsigned 32-bit lanes.
    pub fn read_u32x4(&self) -> (lanes: Simd<u32, 4>)
        ensures
            lanes@ == lanes_of::<u32>(self@, 4),
    {
        self.read_lanes()
    }

    /// Loads eight unsigned 32-bit lanes.
    pub fn read_u32x8(&self) -> (lanes: Simd<u32, 8>)
        ensures
            lanes@ == lanes_of::<u32>(self@, 8),
    {
        self.read_lanes()
    }

    /// Loads sixteen unsigned 32-bit lanes.
    pub fn read_u32x16(&self) -> (lanes: Simd<u32, 16>)
        ensures
            lanes@ == lanes_of::<u32>(self@, 16),
    {
        self.read_lanes()
    }

    /// Loads one unsigned 64-bit lane.
    pub fn read_u64x1(&self) -> (lanes: Simd<u64, 1>)
        ensures
            lanes@ == lanes_of::<u64>(self@, 1),
    {
        self.read_lanes()
    }

    /// Loads two unsigned 64-bit lanes.
    pub fn read_u64x2(&self) -> (lanes: Simd<u64, 2>)
        ensures
            lanes@ == lanes_of::<u64>(self@, 2),
    {
        self.read_lanes()
    }

    /// Loads four unsigned 64-bit lanes.
    pub fn read_u64x4(&self) -> (lanes: Simd<u64, 4>)
        ensures
            lanes@ == lanes_of::<u64>(self@, 4),
    {
        self.read_lanes()
    }

    /// Loads eight unsigned 64-bit lanes.
    pub fn read_u64x8(&self) -> (lanes: Simd<u64, 8>)
        ensures
            lanes@ == lanes_of::<u64>(self@, 8),
    {
        self.read_lanes()
    }

    /// Stores one signed 8-bit lane.
    pub fn write_i8x1(&mut self, value: Simd<i8, 1>)
        ensures
            final(self)@ == with_lanes::<i8>(old(self)@, value@),
            final(final(self).bytes)@ == final(old(self).bytes)@,
    {
        self.write_lanes(&value.to_array())
    }

    /// Stores one signed 8-bit lane, given as an array.
    pub fn write_i8x1_array(&mut self, value: [i8; 1])
        ensures
            final(self)@ == with_lanes::<i8>(old(self)@, value@),
            final(final(self).bytes)@ == final(old(self).bytes)@,
    {
        self.write_lanes(&value)
    }

    /// Stores two signed 8-bit lanes.
    pub fn write_i8x2(&mut self, value: Simd<i8, 2>)
        ensures
            final(self)@ == with_lanes::<i8>(old(self)@, value@),
            final(final(self).bytes)@ == final(old(self).bytes)@,
    {
        self.write_lanes(&value.to_array())
    }

    /// Stores two signed 8-bit lanes, given as an array.
    pub fn write_i8x2_array(&mut self, value: [i8; 2])
        ensures
            final(self)@ == with_lanes::<i8>(old(self)@, value@),
            final(final(self).bytes)@ == final(old(self).bytes)@,
    {
        self.write_lanes(&value)
    }

    /// Stores four signed 8-bit lanes.
    pub fn write_i8x4(&mut self, value: Simd<i8, 4>)
        ensures
            final(self)@ == with_lanes::<i8>(old(self)@, value@),
            final(final(self).bytes)@ == final(old(self).bytes)@,
    {
        self.write_lanes(&value.to_array())
    }

    /// Stores four signed 8-bit lanes, given as an array.
    pub fn write_i8x4_array(&mut self, value: [i8; 4])
        ensures
            final(self)@ == with_lanes::<i8>(old(self)@, value@),
            final(final(self).bytes)@ == final(old(self).bytes)@,
    {
        self.write_lanes(&value)
    }

    /// Stores eight signed 8-bit lanes.
    pub fn write_i8x8(&mut self, value: Simd<i8, 8>)
        ensures
            final(self)@ == with_lanes::<i8>(old(self)@, value@),
            final(final(self).bytes)@ == final(old(self).bytes)@,
    {
        self.write_lanes(&value.to_array())
    }

    /// Stores eight signed 8-bit lanes, given as an array.
    pub fn write_i8x8_array(&mut self, value: [i8; 8])
        ensures
            final(self)@ == with_lanes::<i8>(old(self)@, value@),
            final(final(self).bytes)@ == final(old(self).bytes)@,
    {
        self.write_lanes(&value)
    }

    /// Stores sixteen signed 8-bit lanes.
    pub fn write_i8x16(&mut self, value: Simd<i8, 16>)
        ensures
            final(self)@ == with_lanes::<i8>(old(self)@, value@),
            final(final(self).bytes)@ == final(old(self).bytes)@,
    {
        self.write_lanes(&value.to_array())
    }

    /// Stores sixteen signed 8-bit lanes, given as an array.
    pub fn write_i8x16_array(&mut self, value: [i8; 16])
        ensures
            final(self)@ == with_lanes::<i8>(old(self)@, value@),
            final(final(self).bytes)@ == final(old(self).bytes)@,
    {
        self.write_lanes(&value)
    }

    /// Stores thirty-two signed 8-bit lanes.
    pub fn write_i8x32(&mut self, value: Simd<i8, 32>)
        ensures
            final(self)@ == with_lanes::<i8>(old(self)@, value@),
            final(final(self).bytes)@ == final(old(self).bytes)@,
    {
        self.write_lanes(&value.to_array())
    }

    /// Stores thirty-two signed 8-bit lanes, given as an array.
    pub fn write_i8x32_array(&mut self, value: [i8; 32])
        ensures
            final(self)@ == with_lanes::<i8>(old(self)@, value@),
            final(final(self).bytes)@ == final(old(self).bytes)@,
    {
        self.write_lanes(&value)
    }

    /// Stores sixty-four signed 8-bit lanes.
    pub fn write_i8x64(&mut self, value: Simd<i8, 64>)
        ensures
            final(self)@ == with_lanes::<i8>(old(self)@, value@),
            final(final(self).bytes)@ == final(old(self).bytes)@,
    {
        self.write_lanes(&value.to_array())
    }

    /// Stores sixty-four signed 8-bit lanes, given as an array.
    pub fn write_i8x64_array(&mut self, value: [i8; 64])
        ensures
            final(self)@ == with_lanes::<i8>(old(self)@, value@),
            final(final(self).bytes)@ == final(old(self).bytes)@,
    {
        self.write_lanes(&value)
    }

    /// Stores one signed 16-bit lane.
    pub fn write_i16x1(&mut self, value: Simd<i16, 1>)
        ensures
            final(self)@ == with_lanes::<i16>(old(self)@, value@),
            final(final(self).bytes)@ == final(old(self).bytes)@,
    {
        self.write_lanes(&value.to_array())
    }

    /// Stores one signed 16-bit lane, given as an array.
    pub fn write_i16x1_array(&mut self, value: [i16; 1])
        ensures
            final(self)@ == with_lanes::<i16>(old(self)@, value@),
            final(final(self).bytes)@ == final(old(self).bytes)@,
    {
        self.write_lanes(&value)
    }

    /// Stores two signed 16-bit lanes.
    pub fn write_i16x2(&mut self, value: Simd<i16, 2>)
        ensures
            final(self)@ == with_lanes::<i16>(old(self)@, value@),
            final(final(self).bytes)@ == final(old(self).bytes)@,
    {
        self.write_lanes(&value.to_array())
    }

    /// Stores two signed 16-bit lanes, given as an array.
    pub fn write_i16x2_array(&mut self, value: [i16; 2])
        ensures
            final(self)@ == with_lanes::<i16>(old(self)@, value@),
            final(final(self).bytes)@ == final(old(self).bytes)@,
    {
        self.write_lanes(&value)
    }

    /// Stores four signed 16-bit lanes.
    pub fn write_i16x4(&mut self, value: Simd<i16, 4>)
        ensures
            final(self)@ == with_lanes::<i16>(old(self)@, value@),
            final(final(self).bytes)@ == final(old(self).bytes)@,
    {
        self.write_lanes(&value.to_array())
    }

    /// Stores four signed 16-bit lanes, given as an array.
    pub fn write_i16x4_array(&mut self, value: [i16; 4])
        ensures
            final(self)@ == with_lanes::<i16>(old(self)@, value@),
            final(final(self).bytes)@ == final(old(self).bytes)@,
    {
        self.write_lanes(&value)
    }

    /// Stores eight signed 16-bit lanes.
    pub fn write_i16x8(&mut self, value: Simd<i16, 8>)
        ensures
            final(self)@ == with_lanes::<i16>(old(self)@, value@),
            final(final(self).bytes)@ == final(old(self).bytes)@,
    {
        self.write_lanes(&value.to_array())
    }

    /// Stores eight signed 16-bit lanes, given as an array.
    pub fn write_i16x8_array(&mut self, value: [i16; 8])
        ensures
            final(self)@ == with_lanes::<i16>(old(self)@, value@),
            final(final(self).bytes)@ == final(old(self).bytes)@,
    {
        self.write_lanes(&value)
    }

    /// Stores sixteen signed 16-bit lanes.
    pub fn write_i16x16(&mut self, value: Simd<i16, 16>)
        ensures
            final(self)@ == with_lanes::<i16>(old(self)@, value@),
            final(final(self).bytes)@ == final(old(self).bytes)@,
    {
        self.write_lanes(&value.to_array())
    }

    /// Stores sixteen signed 16-bit lanes, given as an array.
    pub fn write_i16x16_array(&mut self, value: [i16; 16])
        ensures
            final(self)@ == with_lanes::<i16>(old(self)@, value@),
            final(final(self).bytes)@ == final(old(self).bytes)@,
    {
        self.write_lanes(&value)
    }

    /// Stores thirty-two signed 16-bit lanes.
    pub fn write_i16x32(&mut self, value: Simd<i16, 32>)
        ensures
            final(self)@ == with_lanes::<i16>(old(self)@, value@),
            final(final(self).bytes)@ == final(old(self).bytes)@,
    {
        self.write_lanes(&value.to_array())
    }

    /// Stores thirty-two signed 16-bit lanes, given as an array.
    pub fn write_i16x32_array(&mut self, value: [i16; 32])
        ensures
            final(self)@ == with_lanes::<i16>(old(self)@, value@),
            final(final(self).bytes)@ == final(old(self).bytes)@,
    {
        self.write_lanes(&value)
    }

    /// Stores one signed 32-bit lane.
    pub fn write_i32x1(&mut self, value: Simd<i32, 1>)
        ensures
            final(self)@ == with_lanes::<i32>(old(self)@, value@),
            final(final(self).bytes)@ == final(old(self).bytes)@,
    {
        self.write_lanes(&value.to_array())
    }

    /// Stores one signed 32-bit lane, given as an array.
    pub fn write_i32x1_array(&mut self, value: [i32; 1])
        ensures
            final(self)@ == with_lanes::<i32>(old(self)@, value@),
            final(final(self).bytes)@ == final(old(self).bytes)@,
    {
        self.write_lanes(&value)
    }

    /// Stores two signed 32-bit lanes.
    pub fn write_i32x2(&mut self, value: Simd<i32, 2>)
        ensures
            final(self)@ == with_lanes::<i32>(old(self)@, value@),
            final(final(self).bytes)@ == final(old(self).bytes)@,
    {
        self.write_lanes(&value.to_array())
    }

    /// Stores two signed 32-bit lanes, given as an array.
    pub fn write_i32x2_array(&mut self, value: [i32; 2])
        ensures
            final(self)@ == with_lanes::<i32>(old(self)@, value@),
            final(final(self).bytes)@ == final(old(self).bytes)@,
    {
        self.write_lanes(&value)
    }

    /// Stores four signed 32-bit lanes.
    pub fn write_i32x4(&mut self, value: Simd<i32, 4>)
        ensures
            final(self)@ == with_lanes::<i32>(old(self)@, value@),
            final(final(self).bytes)@ == final(old(self).bytes)@,
    {
        self.write_lanes(&value.to_array())
    }

    /// Stores four signed 32-bit lanes, given as an array.
    pub fn write_i32x4_array(&mut self, value: [i32; 4])
        ensures
            final(self)@ == with_lanes::<i32>(old(self)@, value@),
            final(final(self).bytes)@ == final(old(self).bytes)@,
    {
        self.write_lanes(&value)
    }

    /// Stores eight signed 32-bit lanes.
    pub fn write_i32x8(&mut self, value: Simd<i32, 8>)
        ensures
            final(self)@ == with_lanes::<i32>(old(self)@, value@),
            final(final(self).bytes)@ == final(old(self).bytes)@,
    {
        self.write_lanes(&value.to_array())
    }

    /// Stores eight signed 32-bit lanes, given as an array.
    pub fn write_i32x8_array(&mut self, value: [i32; 8])
        ensures
            final(self)@ == with_lanes::<i32>(old(self)@, value@),
            final(final(self).bytes)@ == final(old(self).bytes)@,
    {
        self.write_lanes(&value)
    }

    /// Stores sixteen signed 32-bit lanes.
    pub fn write_i32x16(&mut self, value: Simd<i32, 16>)
        ensures
            final(self)@ == with_lanes::<i32>(old(self)@, value@),
            final(final(self).bytes)@ == final(old(self).bytes)@,
    {
        self.write_lanes(&value.to_array())
    }

    /// Stores sixteen signed 32-bit lanes, given as an array.
    pub fn write_i32x16_array(&mut self, value: [i32; 16])
        ensures
            final(self)@ == with_lanes::<i32>(old(self)@, value@),
            final(final(self).bytes)@ == final(old(self).bytes)@,
    {
        self.write_lanes(&value)
    }

    /// Stores one signed 64-bit lane.
    pub fn write_i64x1(&mut self, value: Simd<i64, 1>)
        ensures
            final(self)@ == with_lanes::<i64>(old(self)@, value@),
            final(final(self).bytes)@ == final(old(self).bytes)@,
    {
        self.write_lanes(&value.to_array())
    }

    /// Stores one signed 64-bit lane, given as an array.
    pub fn write_i64x1_array(&mut self, value: [i64; 1])
        ensures
            final(self)@ == with_lanes::<i64>(old(self)@, value@),
            final(final(self).bytes)@ == final(old(self).bytes)@,
    {
        self.write_lanes(&value)
    }

    /// Stores two signed 64-bit lanes.
    pub fn write_i64x2(&mut self, value: Simd<i64, 2>)
        ensures
            final(self)@ == with_lanes::<i64>(old(self)@, value@),
            final(final(self).bytes)@ == final(old(self).bytes)@,
    {
        self.write_lanes(&value.to_array())
    }

    /// Stores two signed 64-bit lanes, given as an array.
    pub fn write_i64x2_array(&mut self, value: [i64; 2])
        ensures
            final(self)@ == with_lanes::<i64>(old(self)@, value@),
            final(final(self).bytes)@ == final(old(self).bytes)@,
    {
        self.write_lanes(&value)
    }

    /// Stores four signed 64-bit lanes.
    pub fn write_i64x4(&mut self, value: Simd<i64, 4>)
        ensures
            final(self)@ == with_lanes::<i64>(old(self)@, value@),
            final(final(self).bytes)@ == final(old(self).bytes)@,
    {
        self.write_lanes(&value.to_array())
    }

    /// Stores four signed 64-bit lanes, given as an array.
    pub fn write_i64x4_array(&mut self, value: [i64; 4])
        ensures
            final(self)@ == with_lanes::<i64>(old(self)@, value@),
            final(final(self).bytes)@ == final(old(self).bytes)@,
    {
        self.write_lanes(&value)
    }

    /// Stores eight signed 64-bit lanes.
    pub fn write_i64x8(&mut self, value: Simd<i64, 8>)
        ensures
            final(self)@ == with_lanes::<i64>(old(self)@, value@),
            final(final(self).bytes)@ == final(old(self).bytes)@,
    {
        self.write_lanes(&value.to_array())
    }

    /// Stores eight signed 64-bit lanes, given as an array.
    pub fn write_i64x8_array(&mut self, value: [i64; 8])
        ensures
            final(self)@ == with_lanes::<i64>(old(self)@, value@),
            final(final(self).bytes)@ == final(old(self).bytes)@,
    {
        self.write_lanes(&value)
    }

    /// Stores one unsigned 8-bit lane.
    pub fn write_u8x1(&mut self, value: Simd<u8, 1>)
        ensures
            final(self)@ == with_lanes::<u8>(old(self)@, value@),
            final(final(self).bytes)@ == final(old(self).bytes)@,
    {
        self.write_lanes(&value.to_array())
    }

    /// Stores one unsigned 8-bit lane, given as an array.
    pub fn write_u8x1_array(&mut self, value: [u8; 1])
        ensures
            final(self)@ == with_lanes::<u8>(old(self)@, value@),
            final(final(self).bytes)@ == final(old(self).bytes)@,
    {
        self.write_lanes(&value)
    }

    /// Stores two unsigned 8-bit lanes.
    pub fn write_u8x2(&mut self, value: Simd<u8, 2>)
        ensures
            final(self)@ == with_lanes::<u8>(old(self)@, value@),
            final(final(self).bytes)@ == final(old(self).bytes)@,
    {
        self.write_lanes(&value.to_array())
    }

    /// Stores two unsigned 8-bit lanes, given as an array.
    pub fn write_u8x2_array(&mut self, value: [u8; 2])
        ensures
            final(self)@ == with_lanes::<u8>(old(self)@, value@),
            final(final(self).bytes)@ == final(old(self).bytes)@,
    {
        self.write_lanes(&value)
    }

    /// Stores four unsigned 8-bit lanes.
    pub fn write_u8x4(&mut self, value: Simd<u8, 4>)
        ensures
            final(self)@ == with_lanes::<u8>(old(self)@, value@),
            final(final(self).bytes)@ == final(old(self).bytes)@,
    {
        self.write_lanes(&value.to_array())
    }

    /// Stores four unsigned 8-bit lanes, given as an array.
    pub fn write_u8x4_array(&mut self, value: [u8; 4])
        ensures
            final(self)@ == with_lanes::<u8>(old(self)@, value@),
            final(final(self).bytes)@ == final(old(self).bytes)@,
    {
        self.write_lanes(&value)
    }

    /// Stores eight unsigned 8-bit lanes.
    pub fn write_u8x8(&mut self, value: Simd<u8, 8>)
        ensures
            final(self)@ == with_lanes::<u8>(old(self)@, value@),
            final(final(self).bytes)@ == final(old(self).bytes)@,
    {
        self.write_lanes(&value.to_array())
    }

    /// Stores eight unsigned 8-bit lanes, given as an array.
    pub fn write_u8x8_array(&mut self, value: [u8; 8])
        ensures
            final(self)@ == with_lanes::<u8>(old(self)@, value@),
            final(final(self).bytes)@ == final(old(self).bytes)@,
    {
        self.write_lanes(&value)
    }

    /// Stores sixteen unsigned 8-bit lanes.
    pub fn write_u8x16(&mut self, value: Simd<u8, 16>)
        ensures
            final(self)@ == with_lanes::<u8>(old(self)@, value@),
            final(final(self).bytes)@ == final(old(self).bytes)@,
    {
        self.write_lanes(&value.to_array())
    }

    /// Stores sixteen unsigned 8-bit lanes, given as an array.
    pub fn write_u8x16_array(&mut self, value: [u8; 16])
        ensures
            final(self)@ == with_lanes::<u8>(old(self)@, value@),
            final(final(self).bytes)@ == final(old(self).bytes)@,
    {
        self.write_lanes(&value)
    }

    /// Stores thirty-two unsigned 8-bit lanes.
    pub fn write_u8x32(&mut self, value: Simd<u8, 32>)
        ensures
            final(self)@ == with_lanes::<u8>(old(self)@, value@),
            final(final(self).bytes)@ == final(old(self).bytes)@,
    {
        self.write_lanes(&value.to_array())
    }

    /// Stores thirty-two unsigned 8-bit lanes, given as an array.
    pub fn write_u8x32_array(&mut self, value: [u8; 32])
        ensures
            final(self)@ == with_lanes::<u8>(old(self)@, value@),
            final(final(self).bytes)@ == final(old(self).bytes)@,
    {
        self.write_lanes(&value)
    }

    /// Stores sixty-four unsigned 8-bit lanes.
    pub fn write_u8x64(&mut self, value: Simd<u8, 64>)
        ensures
            final(self)@ == with_lanes::<u8>(old(self)@, value@),
            final(final(self).bytes)@ == final(old(self).bytes)@,
    {
        self.write_lanes(&value.to_array())
    }

    /// Stores sixty-four unsigned 8-bit lanes, given as an array.
    pub fn write_u8x64_array(&mut self, value: [u8; 64])
        ensures
            final(self)@ == with_lanes::<u8>(old(self)@, value@),
            final(final(self).bytes)@ == final(old(self).bytes)@,
    {
        self.write_lanes(&value)
    }

    /// Stores one unsigned 16-bit lane.
    pub fn write_u16x1(&mut self, value: Simd<u16, 1>)
        ensures
            final(self)@ == with_lanes::<u16>(old(self)@, value@),
            final(final(self).bytes)@ == final(old(self).bytes)@,
    {
        self.write_lanes(&value.to_array())
    }

    /// Stores one unsigned 16-bit lane, given as an array.
    pub fn write_u16x1_array(&mut self, value: [u16; 1])
        ensures
            final(self)@ == with_lanes::<u16>(old(self)@, value@),
            final(final(self).bytes)@ == final(old(self).bytes)@,
    {
        self.write_lanes(&value)
    }

    /// Stores two unsigned 16-bit lanes.
    pub fn write_u16x2(&mut self, value: Simd<u16, 2>)
        ensures
            final(self)@ == with_lanes::<u16>(old(self)@, value@),
            final(final(self).bytes)@ == final(old(self).bytes)@,
    {
        self.write_lanes(&value.to_array())
    }

    /// Stores two unsigned 16-bit lanes, given as an array.
    pub fn write_u16x2_array(&mut self, value: [u16; 2])
        ensures
            final(self)@ == with_lanes::<u16>(old(self)@, value@),
            final(final(self).bytes)@ == final(old(self).bytes)@,
    {
        self.write_lanes(&value)
    }

    /// Stores four unsigned 16-bit lanes.
    pub fn write_u16x4(&mut self, value: Simd<u16, 4>)
        ensures
            final(self)@ == with_lanes::<u16>(old(self)@, value@),
            final(final(self).bytes)@ == final(old(self).bytes)@,
    {
        self.write_lanes(&value.to_array())
    }

    /// Stores four unsigned 16-bit lanes, given as an array.
    pub fn write_u16x4_array(&mut self, value: [u16; 4])
        ensures
            final(self)@ == with_lanes::<u16>(old(self)@, value@),
            final(final(self).bytes)@ == final(old(self).bytes)@,
    {
        self.write_lanes(&value)
    }

    /// Stores eight unsigned 16-bit lanes.
    pub fn write_u16x8(&mut self, value: Simd<u16, 8>)
        ensures
            final(self)@ == with_lanes::<u16>(old(self)@, value@),
            final(final(self).bytes)@ == final(old(self).bytes)@,
    {
        self.write_lanes(&value.to_array())
    }

    /// Stores eight unsigned 16-bit lanes, given as an array.
    pub fn write_u16x8_array(&mut self, value: [u16; 8])
        ensures
            final(self)@ == with_lanes::<u16>(old(self)@, value@),
            final(final(self).bytes)@ == final(old(self).bytes)@,
    {
        self.write_lanes(&value)
    }

    /// Stores sixteen unsigned 16-bit lanes.
    pub fn write_u16x16(&mut self, value: Simd<u16, 16>)
        ensures
            final(self)@ == with_lanes::<u16>(old(self)@, value@),
            final(final(self).bytes)@ == final(old(self).bytes)@,
    {
        self.write_lanes(&value.to_array())
    }

    /// Stores sixteen unsigned 16-bit lanes, given as an array.
    pub fn write_u16x16_array(&mut self, value: [u16; 16])
        ensures
            final(self)@ == with_lanes::<u16>(old(self)@, value@),
            final(final(self).bytes)@ == final(old(self).bytes)@,
    {
        self.write_lanes(&value)
    }

    /// Stores thirty-two unsigned 16-bit lanes.
    pub fn write_u16x32(&mut self, value: Simd<u16, 32>)
        ensures
            final(self)@ == with_lanes::<u16>(old(self)@, value@),
            final(final(self).bytes)@ == final(old(self).bytes)@,
    {
        self.write_lanes(&value.to_array())
    }

    /// Stores thirty-two unsigned 16-bit lanes, given as an array.
    pub fn write_u16x32_array(&mut self, value: [u16; 32])
        ensures
            final(self)@ == with_lanes::<u16>(old(self)@, value@),
            final(final(self).bytes)@ == final(old(self).bytes)@,
    {
        self.write_lanes(&value)
    }

    /// Stores one unsigned 32-bit lane.
    pub fn write_u32x1(&mut self, value: Simd<u32, 1>)
        ensures
            final(self)@ == with_lanes::<u32>(old(self)@, value@),
            final(final(self).bytes)@ == final(old(self).bytes)@,
    {
        self.write_lanes(&value.to_array())
    }

    /// Stores one unsigned 32-bit lane, given as an array.
    pub fn write_u32x1_array(&mut self, value: [u32; 1])
        ensures
            final(self)@ == with_lanes::<u32>(old(self)@, value@),
            final(final(self).bytes)@ == final(old(self).bytes)@,
    {
        self.write_lanes(&value)
    }

    /// Stores two unsigned 32-bit lanes.
    pub fn write_u32x2(&mut self, value: Simd<u32, 2>)
        ensures
            final(self)@ == with_lanes::<u32>(old(self)@, value@),
            final(final(self).bytes)@ == final(old(self).bytes)@,
    {
        self.write_lanes(&value.to_array())
    }

    /// Stores two unsigned 32-bit lanes, given as an array.
    pub fn write_u32x2_array(&mut self, value: [u32; 2])
        ensures
            final(self)@ == with_lanes::<u32>(old(self)@, value@),
            final(final(self).bytes)@ == final(old(self).bytes)@,
    {
        self.write_lanes(&value)
    }

    /// Stores four unsigned 32-bit lanes.
    pub fn write_u32x4(&mut self, value: Simd<u32, 4>)
        ensures
            final(self)@ == with_lanes::<u32>(old(self)@, value@),
            final(final(self).bytes)@ == final(old(self).bytes)@,
    {
        self.write_lanes(&value.to_array())
    }

    /// Stores four unsigned 32-bit lanes, given as an array.
    pub fn write_u32x4_array(&mut self, value: [u32; 4])
        ensures
            final(self)@ == with_lanes::<u32>(old(self)@, value@),
            final(final(self).bytes)@ == final(old(self).bytes)@,
    {
        self.write_lanes(&value)
    }

    /// Stores eight unsigned 32-bit lanes.
    pub fn write_u32x8(&mut self, value: Simd<u32, 8>)
        ensures
            final(self)@ == with_lanes::<u32>(old(self)@, value@),
            final(final(self).bytes)@ == final(old(self).bytes)@,
    {
        self.write_lanes(&value.to_array())
    }

    /// Stores eight unsigned 32-bit lanes, given as an array.
    pub fn write_u32x8_array(&mut self, value: [u32; 8])
        ensures
            final(self)@ == with_lanes::<u32>(old(self)@, value@),
            final(final(self).bytes)@ == final(old(self).bytes)@,
    {
        self.write_lanes(&value)
    }

    /// Stores sixteen unsigned 32-bit lanes.
    pub fn write_u32x16(&mut self, value: Simd<u32, 16>)
        ensures
            final(self)@ == with_lanes::<u32>(old(self)@, value@),
            final(final(self).bytes)@ == final(old(self).bytes)@,
    {
        self.write_lanes(&value.to_array())
    }

    /// Stores sixteen unsigned 32-bit lanes, given as an array.
    pub fn write_u32x16_array(&mut self, value: [u32; 16])
        ensures
            final(self)@ == with_lanes::<u32>(old(self)@, value@),
            final(final(self).bytes)@ == final(old(self).bytes)@,
    {
        self.write_lanes(&value)
    }

    /// Stores one unsigned 64-bit lane.
    pub fn write_u64x1(&mut self, value: Simd<u64, 1>)
        ensures
            final(self)@ == with_lanes::<u64>(old(self)@, value@),
            final(final(self).bytes)@ == final(old(self).bytes)@,
    {
        self.write_lanes(&value.to_array())
    }

    /// Stores one unsigned 64-bit lane, given as an array.
    pub fn write_u64x1_array(&mut self, value: [u64; 1])
        ensures
            final(self)@ == with_lanes::<u64>(old(self)@, value@),
            final(final(self).bytes)@ == final(old(self).bytes)@,
    {
        self.write_lanes(&value)
    }

    /// Stores two unsigned 64-bit lanes.
    pub fn write_u64x2(&mut self, value: Simd<u64, 2>)
        ensures
            final(self)@ == with_lanes::<u64>(old(self)@, value@),
            final(final(self).bytes)@ == final(old(self).bytes)@,
    {
        self.write_lanes(&value.to_array())
    }

    /// Stores two unsigned 64-bit lanes, given as an array.
    pub fn write_u64x2_array(&mut self, value: [u64; 2])
        ensures
            final(self)@ == with_lanes::<u64>(old(self)@, value@),
            final(final(self).bytes)@ == final(old(self).bytes)@,
    {
        self.write_lanes(&value)
    }

    /// Stores four unsigned 64-bit lanes.
    pub fn write_u64x4(&mut self, value: Simd<u64, 4>)
        ensures
            final(self)@ == with_lanes::<u64>(old(self)@, value@),
            final(final(self).bytes)@ == final(old(self).bytes)@,
    {
        self.write_lanes(&value.to_array())
    }

    /// Stores four unsigned 64-bit lanes, given as an array.
    pub fn write_u64x4_array(&mut self, value: [u64; 4])
        ensures
            final(self)@ == with_lanes::<u64>(old(self)@, value@),
            final(final(self).bytes)@ == final(old(self).bytes)@,
    {
        self.write_lanes(&value)
    }

    /// Stores eight unsigned 64-bit lanes.
    pub fn write_u64x8(&mut self, value: Simd<u64, 8>)
        ensures
            final(self)@ == with_lanes::<u64>(old(self)@, value@),
            final(final(self).bytes)@ == final(old(self).bytes)@,
    {
        self.write_lanes(&value.to_array())
    }

    /// Stores eight unsigned 64-bit lanes, given as an array.
    pub fn write_u64x8_array(&mut self, value: [u64; 8])
        ensures
            final(self)@ == with_lanes::<u64>(old(self)@, value@),
            final(final(self).bytes)@ == final(old(self).bytes)@,
    {
        self.write_lanes(&value)
    }
}

} // verus!
