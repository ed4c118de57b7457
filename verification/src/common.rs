//! Types that every part of the pipeline shares.

use vstd::prelude::*;

verus! {

/// A size with a width and a height.
#[derive(Debug, Copy, Clone, PartialEq, Eq, Structural, Hash)]
pub struct Size<T> {
    /// The extent along the horizontal axis.
    pub width: T,
    /// The extent along the vertical axis.
    pub height: T,
}

impl<T> Size<T> {
    /// A size of the given width and height.
    pub fn new(width: T, height: T) -> (size: Size<T>)
        ensures
            size.width == width,
            size.height == height,
    {
        Size { width, height }
    }
}

/// The method by which a texture is sampled between texels.
#[derive(Debug, Copy, Clone, PartialEq, Eq, Structural, Hash)]
pub enum FilterMode {
    /// Linear filtering.
    Linear,
    /// Nearest-neighbour (point) filtering.
    Nearest,
}

/// What a sampler returns outside the unit square.
#[derive(Debug, Copy, Clone, PartialEq, Eq, Structural, Hash)]
pub enum WrapMode {
    /// Clamp to a border colour.
    ClampToBorder,
    /// Clamp to the edge texel.
    ClampToEdge,
    /// Repeat the texture.
    Repeat,
    /// Repeat the texture, mirrored every other time.
    MirroredRepeat,
}

/// The format of an image, by its Vulkan name.
#[derive(Debug, Copy, Clone, PartialEq, Eq, Structural, Hash)]
pub enum ImageFormat {
    /// `UNKNOWN`
    Unknown,
    /// `R8_UNORM`
    R8Unorm,
    /// `R8G8_UNORM`
    R8G8Unorm,
    /// `R8G8B8A8_UNORM`
    R8G8B8A8Unorm,
    /// `R8G8B8A8_SRGB`
    R8G8B8A8Srgb,
    /// `A2B10G10R10_UNORM`
    A2B10G10R10UnormPack32,
    /// `R16_UINT`
    R16Uint,
    /// `R16_SINT`
    R16Sint,
    /// `R16_SFLOAT`
    R16Sfloat,
    /// `R16G16_UINT`
    R16G16Uint,
    /// `R16G16_SINT`
    R16G16Sint,
    /// `R16G16_SFLOAT`
    R16G16Sfloat,
    /// `R16G16B16A16_UINT`
    R16G16B16A16Uint,
    /// `R16G16B16A16_SINT`
    R16G16B16A16Sint,
    /// `R16G16B16A16_SFLOAT`
    R16G16B16A16Sfloat,
    /// `R32_UINT`
    R32Uint,
    /// `R32_SINT`
    R32Sint,
    /// `R32_SFLOAT`
    R32Sfloat,
    /// `R32G32_UINT`
    R32G32Uint,
    /// `R32G32_SINT`
    R32G32Sint,
    /// `R32G32_SFLOAT`
    R32G32Sfloat,
    /// `R32G32B32A32_UINT`
    R32G32B32A32Uint,
    /// `R32G32B32A32_SINT`
    R32G32B32A32Sint,
    /// `R32G32B32A32_SFLOAT`
    R32G32B32A32Sfloat,
}

/// A binary32 number of IEEE 754, held as its bit pattern.
///
/// The pipeline carries shader parameters and scale factors through without
/// computing on them; the bit pattern keeps each value exact.
#[derive(Debug, Copy, Clone, PartialEq, Eq, Structural, Hash)]
pub struct Binary32 {
    /// The sign bit, the eight exponent bits and the 23 fraction bits.
    pub bits: u32,
}

impl Binary32 {
    /// Whether the sign bit is set; it is set for negative zero too.
    pub open spec fn is_negative(&self) -> bool {
        self.bits >= 0x8000_0000
    }

    /// The eight exponent bits, as a number.
    pub open spec fn exponent_field(&self) -> int {
        (self.bits as int / 0x80_0000) % 256
    }

    /// The 23 fraction bits, as a number.
    pub open spec fn fraction(&self) -> int {
        self.bits as int % 0x80_0000
    }

    /// Whether the pattern stands for no number.
    pub open spec fn is_nan(&self) -> bool {
        self.exponent_field() == 255 && self.fraction() != 0
    }

    /// Whether the pattern stands for an infinity.
    pub open spec fn is_infinite(&self) -> bool {
        self.exponent_field() == 255 && self.fraction() == 0
    }

    /// The significand of a finite number: its magnitude is the significand
    /// times two to the power of `exponent`.
    pub open spec fn significand(&self) -> nat {
        if self.exponent_field() == 0 {
            self.fraction() as nat
        } else {
            (0x80_0000 + self.fraction()) as nat
        }
    }

    /// The power of two by which the significand of a finite number counts.
    pub open spec fn exponent(&self) -> int {
        if self.exponent_field() == 0 {
            -149
        } else {
            self.exponent_field() - 150
        }
    }
}

} // verus!
