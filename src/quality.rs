use vstd::prelude::*;

verus! {

/// The bit pattern of `1.0_f32`, the lowest quality the encoder takes.
pub const MIN_QUALITY_BITS: u32 = 0x3F80_0000;

/// The bit pattern of `100.0_f32`, the highest quality the encoder takes.
pub const MAX_QUALITY_BITS: u32 = 0x42C8_0000;

/// The largest width or height that a JPEG file can hold.
pub const MAX_JPEG_DIMENSION: u32 = 65500;

/// An encoder quality, kept as the IEEE-754 bit pattern of the `f32` that the
/// user gave, so that it reaches the encoder exactly as it was written.
#[derive(Clone, Copy, Debug, PartialEq, Eq, Structural)]
pub struct Quality {
    pub bits: u32,
}

/// A quality lies in `1.0..=100.0`. Among bit patterns with a clear sign bit
/// the order of the patterns is the order of the numbers, and every NaN and
/// every negative value lies above the highest pattern admitted.
pub open spec fn quality_in_range(q: Quality) -> bool {
    MIN_QUALITY_BITS <= q.bits <= MAX_QUALITY_BITS
}

/// The encoder takes images of at least one pixel and at most
/// `MAX_JPEG_DIMENSION` pixels on each side.
pub open spec fn encodable_size(width: u32, height: u32) -> bool {
    1 <= width <= MAX_JPEG_DIMENSION && 1 <= height <= MAX_JPEG_DIMENSION
}

impl Quality {
    pub fn from_bits(bits: u32) -> (r: Quality)
        ensures
            r.bits == bits,
    {
        Quality { bits }
    }

    pub fn is_in_range(&self) -> (r: bool)
        ensures
            r == quality_in_range(*self),
    {
        MIN_QUALITY_BITS <= self.bits && self.bits <= MAX_QUALITY_BITS
    }
}

pub fn is_encodable_size(width: u32, height: u32) -> (r: bool)
    ensures
        r == encodable_size(width, height),
{
    1 <= width && width <= MAX_JPEG_DIMENSION && 1 <= height && height <= MAX_JPEG_DIMENSION
}

} // verus!
