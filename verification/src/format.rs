//! The format vocabulary of the graphics API: every uncompressed image format,
//! its memory layout, the encoding of its channels and the bits it spends on
//! colour, alpha, depth and stencil.

use vstd::prelude::*;

verus! {

/// How the bits of one channel are read.
#[derive(Clone, Copy, Debug, PartialEq, Eq, Hash, Structural)]
pub enum ChannelType {
    /// Unsigned, normalized to the range from 0 to 1.
    Unorm,
    /// Signed, normalized to the range from -1 to 1.
    Snorm,
    /// Unsigned integer.
    Uint,
    /// Signed integer.
    Sint,
    /// Unsigned floating point.
    Ufloat,
    /// Signed floating point.
    Sfloat,
    /// Unsigned integer that is read as a float of the same value.
    Uscaled,
    /// Signed integer that is read as a float of the same value.
    Sscaled,
    /// Unsigned and normalized, with the colour channels in the sRGB encoding.
    Srgb,
}

/// The bits that a layout gives to each aspect of an image.
#[derive(Clone, Copy, Debug, PartialEq, Eq, Hash, Structural)]
pub struct FormatBits {
    /// Bits of the colour channels, alpha excluded.
    pub color: u8,
    /// Bits of the alpha channel.
    pub alpha: u8,
    /// Bits of the stencil aspect.
    pub stencil: u8,
    /// Bits of the depth aspect.
    pub depth: u8,
}

impl FormatBits {
    /// The description of a layout that stores nothing: what stands in for a
    /// format that was not given.
    pub open spec fn none() -> FormatBits {
        FormatBits { color: 0, alpha: 0, stencil: 0, depth: 0 }
    }

    /// No bits for any aspect.
    pub fn zero() -> (bits: FormatBits)
        ensures
            bits == FormatBits::none(),
    {
        FormatBits { color: 0, alpha: 0, stencil: 0, depth: 0 }
    }
}

/// The memory layout of a texel: which channels it has, in what order, and
/// how wide each is. The encoding of the channels is not part of it.
#[allow(non_camel_case_types)]
#[derive(Clone, Copy, Debug, PartialEq, Eq, Hash, Structural)]
pub enum SurfaceType {
    R4_G4,
    R4_G4_B4_A4,
    B4_G4_R4_A4,
    R5_G6_B5,
    B5_G6_R5,
    R5_G5_B5_A1,
    B5_G5_R5_A1,
    A1_R5_G5_B5,
    R8,
    R8_G8,
    R8_G8_B8,
    B8_G8_R8,
    R8_G8_B8_A8,
    B8_G8_R8_A8,
    A8_B8_G8_R8,
    A2_R10_G10_B10,
    A2_B10_G10_R10,
    R16,
    R16_G16,
    R16_G16_B16,
    R16_G16_B16_A16,
    R32,
    R32_G32,
    R32_G32_B32,
    R32_G32_B32_A32,
    R64,
    R64_G64,
    R64_G64_B64,
    R64_G64_B64_A64,
    B10_G11_R11,
    E5_B9_G9_R9,
    D16,
    X8D24,
    D32,
    S8,
    D16_S8,
    D24_S8,
    D32_S8,
}

impl SurfaceType {
    /// The bits of each aspect in this layout.
    pub open spec fn bits(self) -> FormatBits {
        match self {
            SurfaceType::R4_G4 => FormatBits { color: 8, alpha: 0, stencil: 0, depth: 0 },
            SurfaceType::R4_G4_B4_A4 => FormatBits { color: 12, alpha: 4, stencil: 0, depth: 0 },
            SurfaceType::B4_G4_R4_A4 => FormatBits { color: 12, alpha: 4, stencil: 0, depth: 0 },
            SurfaceType::R5_G6_B5 => FormatBits { color: 16, alpha: 0, stencil: 0, depth: 0 },
            SurfaceType::B5_G6_R5 => FormatBits { color: 16, alpha: 0, stencil: 0, depth: 0 },
            SurfaceType::R5_G5_B5_A1 => FormatBits { color: 15, alpha: 1, stencil: 0, depth: 0 },
            SurfaceType::B5_G5_R5_A1 => FormatBits { color: 15, alpha: 1, stencil: 0, depth: 0 },
            SurfaceType::A1_R5_G5_B5 => FormatBits { color: 15, alpha: 1, stencil: 0, depth: 0 },
            SurfaceType::R8 => FormatBits { color: 8, alpha: 0, stencil: 0, depth: 0 },
            SurfaceType::R8_G8 => FormatBits { color: 16, alpha: 0, stencil: 0, depth: 0 },
            SurfaceType::R8_G8_B8 => FormatBits { color: 24, alpha: 0, stencil: 0, depth: 0 },
            SurfaceType::B8_G8_R8 => FormatBits { color: 24, alpha: 0, stencil: 0, depth: 0 },
            SurfaceType::R8_G8_B8_A8 => FormatBits { color: 24, alpha: 8, stencil: 0, depth: 0 },
            SurfaceType::B8_G8_R8_A8 => FormatBits { color: 24, alpha: 8, stencil: 0, depth: 0 },
            SurfaceType::A8_B8_G8_R8 => FormatBits { color: 24, alpha: 8, stencil: 0, depth: 0 },
            SurfaceType::A2_R10_G10_B10 => FormatBits { color: 30, alpha: 2, stencil: 0, depth: 0 },
            SurfaceType::A2_B10_G10_R10 => FormatBits { color: 30, alpha: 2, stencil: 0, depth: 0 },
            SurfaceType::R16 => FormatBits { color: 16, alpha: 0, stencil: 0, depth: 0 },
            SurfaceType::R16_G16 => FormatBits { color: 32, alpha: 0, stencil: 0, depth: 0 },
            SurfaceType::R16_G16_B16 => FormatBits { color: 48, alpha: 0, stencil: 0, depth: 0 },
            SurfaceType::R16_G16_B16_A16 => FormatBits {
                color: 48,
                alpha: 16,
                stencil: 0,
                depth: 0,
            },
            SurfaceType::R32 => FormatBits { color: 32, alpha: 0, stencil: 0, depth: 0 },
            SurfaceType::R32_G32 => FormatBits { color: 64, alpha: 0, stencil: 0, depth: 0 },
            SurfaceType::R32_G32_B32 => FormatBits { color: 96, alpha: 0, stencil: 0, depth: 0 },
            SurfaceType::R32_G32_B32_A32 => FormatBits {
                color: 96,
                alpha: 32,
                stencil: 0,
                depth: 0,
            },
            SurfaceType::R64 => FormatBits { color: 64, alpha: 0, stencil: 0, depth: 0 },
            SurfaceType::R64_G64 => FormatBits { color: 128, alpha: 0, stencil: 0, depth: 0 },
            SurfaceType::R64_G64_B64 => FormatBits { color: 192, alpha: 0, stencil: 0, depth: 0 },
            SurfaceType::R64_G64_B64_A64 => FormatBits {
                color: 192,
                alpha: 64,
                stencil: 0,
                depth: 0,
            },
            SurfaceType::B10_G11_R11 => FormatBits { color: 32, alpha: 0, stencil: 0, depth: 0 },
            SurfaceType::E5_B9_G9_R9 => FormatBits { color: 27, alpha: 0, stencil: 0, depth: 0 },
            SurfaceType::D16 => FormatBits { color: 0, alpha: 0, stencil: 0, depth: 16 },
            SurfaceType::X8D24 => FormatBits { color: 0, alpha: 0, stencil: 0, depth: 24 },
            SurfaceType::D32 => FormatBits { color: 0, alpha: 0, stencil: 0, depth: 32 },
            SurfaceType::S8 => FormatBits { color: 0, alpha: 0, stencil: 8, depth: 0 },
            SurfaceType::D16_S8 => FormatBits { color: 0, alpha: 0, stencil: 8, depth: 16 },
            SurfaceType::D24_S8 => FormatBits { color: 0, alpha: 0, stencil: 8, depth: 24 },
            SurfaceType::D32_S8 => FormatBits { color: 0, alpha: 0, stencil: 8, depth: 32 },
        }
    }

    /// Reads the bits of each aspect off the layout.
    pub fn describe_bits(self) -> (bits: FormatBits)
        ensures
            bits == self.bits(),
    {
        match self {
            SurfaceType::R4_G4 => FormatBits { color: 8, alpha: 0, stencil: 0, depth: 0 },
            SurfaceType::R4_G4_B4_A4 => FormatBits { color: 12, alpha: 4, stencil: 0, depth: 0 },
            SurfaceType::B4_G4_R4_A4 => FormatBits { color: 12, alpha: 4, stencil: 0, depth: 0 },
            SurfaceType::R5_G6_B5 => FormatBits { color: 16, alpha: 0, stencil: 0, depth: 0 },
            SurfaceType::B5_G6_R5 => FormatBits { color: 16, alpha: 0, stencil: 0, depth: 0 },
            SurfaceType::R5_G5_B5_A1 => FormatBits { color: 15, alpha: 1, stencil: 0, depth: 0 },
            SurfaceType::B5_G5_R5_A1 => FormatBits { color: 15, alpha: 1, stencil: 0, depth: 0 },
            SurfaceType::A1_R5_G5_B5 => FormatBits { color: 15, alpha: 1, stencil: 0, depth: 0 },
            SurfaceType::R8 => FormatBits { color: 8, alpha: 0, stencil: 0, depth: 0 },
            SurfaceType::R8_G8 => FormatBits { color: 16, alpha: 0, stencil: 0, depth: 0 },
            SurfaceType::R8_G8_B8 => FormatBits { color: 24, alpha: 0, stencil: 0, depth: 0 },
            SurfaceType::B8_G8_R8 => FormatBits { color: 24, alpha: 0, stencil: 0, depth: 0 },
            SurfaceType::R8_G8_B8_A8 => FormatBits { color: 24, alpha: 8, stencil: 0, depth: 0 },
            SurfaceType::B8_G8_R8_A8 => FormatBits { color: 24, alpha: 8, stencil: 0, depth: 0 },
            SurfaceType::A8_B8_G8_R8 => FormatBits { color: 24, alpha: 8, stencil: 0, depth: 0 },
            SurfaceType::A2_R10_G10_B10 => FormatBits { color: 30, alpha: 2, stencil: 0, depth: 0 },
            SurfaceType::A2_B10_G10_R10 => FormatBits { color: 30, alpha: 2, stencil: 0, depth: 0 },
            SurfaceType::R16 => FormatBits { color: 16, alpha: 0, stencil: 0, depth: 0 },
            SurfaceType::R16_G16 => FormatBits { color: 32, alpha: 0, stencil: 0, depth: 0 },
            SurfaceType::R16_G16_B16 => FormatBits { color: 48, alpha: 0, stencil: 0, depth: 0 },
            SurfaceType::R16_G16_B16_A16 => FormatBits {
                color: 48,
                alpha: 16,
                stencil: 0,
                depth: 0,
            },
            SurfaceType::R32 => FormatBits { color: 32, alpha: 0, stencil: 0, depth: 0 },
            SurfaceType::R32_G32 => FormatBits { color: 64, alpha: 0, stencil: 0, depth: 0 },
            SurfaceType::R32_G32_B32 => FormatBits { color: 96, alpha: 0, stencil: 0, depth: 0 },
            SurfaceType::R32_G32_B32_A32 => FormatBits {
                color: 96,
                alpha: 32,
                stencil: 0,
                depth: 0,
            },
            SurfaceType::R64 => FormatBits { color: 64, alpha: 0, stencil: 0, depth: 0 },
            SurfaceType::R64_G64 => FormatBits { color: 128, alpha: 0, stencil: 0, depth: 0 },
            SurfaceType::R64_G64_B64 => FormatBits { color: 192, alpha: 0, stencil: 0, depth: 0 },
            SurfaceType::R64_G64_B64_A64 => FormatBits {
                color: 192,
                alpha: 64,
                stencil: 0,
                depth: 0,
            },
            SurfaceType::B10_G11_R11 => FormatBits { color: 32, alpha: 0, stencil: 0, depth: 0 },
            SurfaceType::E5_B9_G9_R9 => FormatBits { color: 27, alpha: 0, stencil: 0, depth: 0 },
            SurfaceType::D16 => FormatBits { color: 0, alpha: 0, stencil: 0, depth: 16 },
            SurfaceType::X8D24 => FormatBits { color: 0, alpha: 0, stencil: 0, depth: 24 },
            SurfaceType::D32 => FormatBits { color: 0, alpha: 0, stencil: 0, depth: 32 },
            SurfaceType::S8 => FormatBits { color: 0, alpha: 0, stencil: 8, depth: 0 },
            SurfaceType::D16_S8 => FormatBits { color: 0, alpha: 0, stencil: 8, depth: 16 },
            SurfaceType::D24_S8 => FormatBits { color: 0, alpha: 0, stencil: 8, depth: 24 },
            SurfaceType::D32_S8 => FormatBits { color: 0, alpha: 0, stencil: 8, depth: 32 },
        }
    }
}

/// An image format of the graphics API: a layout together with the encoding
/// of its channels.
#[derive(Clone, Copy, Debug, PartialEq, Eq, Hash, Structural)]
pub enum Format {
    Rg4Unorm,
    Rgba4Unorm,
    Bgra4Unorm,
    R5g6b5Unorm,
    B5g6r5Unorm,
    R5g5b5a1Unorm,
    B5g5r5a1Unorm,
    A1r5g5b5Unorm,
    R8Unorm,
    R8Snorm,
    R8Uscaled,
    R8Sscaled,
    R8Uint,
    R8Sint,
    R8Srgb,
    Rg8Unorm,
    Rg8Snorm,
    Rg8Uscaled,
    Rg8Sscaled,
    Rg8Uint,
    Rg8Sint,
    Rg8Srgb,
    Rgb8Unorm,
    Rgb8Snorm,
    Rgb8Uscaled,
    Rgb8Sscaled,
    Rgb8Uint,
    Rgb8Sint,
    Rgb8Srgb,
    Bgr8Unorm,
    Bgr8Snorm,
    Bgr8Uscaled,
    Bgr8Sscaled,
    Bgr8Uint,
    Bgr8Sint,
    Bgr8Srgb,
    Rgba8Unorm,
    Rgba8Snorm,
    Rgba8Uscaled,
    Rgba8Sscaled,
    Rgba8Uint,
    Rgba8Sint,
    Rgba8Srgb,
    Bgra8Unorm,
    Bgra8Snorm,
    Bgra8Uscaled,
    Bgra8Sscaled,
    Bgra8Uint,
    Bgra8Sint,
    Bgra8Srgb,
    Abgr8Unorm,
    Abgr8Snorm,
    Abgr8Uscaled,
    Abgr8Sscaled,
    Abgr8Uint,
    Abgr8Sint,
    Abgr8Srgb,
    A2r10g10b10Unorm,
    A2r10g10b10Snorm,
    A2r10g10b10Uscaled,
    A2r10g10b10Sscaled,
    A2r10g10b10Uint,
    A2r10g10b10Sint,
    A2b10g10r10Unorm,
    A2b10g10r10Snorm,
    A2b10g10r10Uscaled,
    A2b10g10r10Sscaled,
    A2b10g10r10Uint,
    A2b10g10r10Sint,
    R16Unorm,
    R16Snorm,
    R16Uscaled,
    R16Sscaled,
    R16Uint,
    R16Sint,
    R16Sfloat,
    Rg16Unorm,
    Rg16Snorm,
    Rg16Uscaled,
    Rg16Sscaled,
    Rg16Uint,
    Rg16Sint,
    Rg16Sfloat,
    Rgb16Unorm,
    Rgb16Snorm,
    Rgb16Uscaled,
    Rgb16Sscaled,
    Rgb16Uint,
    Rgb16Sint,
    Rgb16Sfloat,
    Rgba16Unorm,
    Rgba16Snorm,
    Rgba16Uscaled,
    Rgba16Sscaled,
    Rgba16Uint,
    Rgba16Sint,
    Rgba16Sfloat,
    R32Uint,
    R32Sint,
    R32Sfloat,
    Rg32Uint,
    Rg32Sint,
    Rg32Sfloat,
    Rgb32Uint,
    Rgb32Sint,
    Rgb32Sfloat,
    Rgba32Uint,
    Rgba32Sint,
    Rgba32Sfloat,
    R64Uint,
    R64Sint,
    R64Sfloat,
    Rg64Uint,
    Rg64Sint,
    Rg64Sfloat,
    Rgb64Uint,
    Rgb64Sint,
    Rgb64Sfloat,
    Rgba64Uint,
    Rgba64Sint,
    Rgba64Sfloat,
    B10g11r11Ufloat,
    E5b9g9r9Ufloat,
    D16Unorm,
    X8D24Unorm,
    D32Sfloat,
    S8Uint,
    D16UnormS8Uint,
    D24UnormS8Uint,
    D32SfloatS8Uint,
}

impl Format {
    /// The layout of the format.
    pub open spec fn surface_type(self) -> SurfaceType {
        match self {
            Format::Rg4Unorm => SurfaceType::R4_G4,
            Format::Rgba4Unorm => SurfaceType::R4_G4_B4_A4,
            Format::Bgra4Unorm => SurfaceType::B4_G4_R4_A4,
            Format::R5g6b5Unorm => SurfaceType::R5_G6_B5,
            Format::B5g6r5Unorm => SurfaceType::B5_G6_R5,
            Format::R5g5b5a1Unorm => SurfaceType::R5_G5_B5_A1,
            Format::B5g5r5a1Unorm => SurfaceType::B5_G5_R5_A1,
            Format::A1r5g5b5Unorm => SurfaceType::A1_R5_G5_B5,
            Format::R8Unorm | Format::R8Snorm | Format::R8Uscaled | Format::R8Sscaled
            | Format::R8Uint | Format::R8Sint | Format::R8Srgb => SurfaceType::R8,
            Format::Rg8Unorm | Format::Rg8Snorm | Format::Rg8Uscaled | Format::Rg8Sscaled
            | Format::Rg8Uint | Format::Rg8Sint | Format::Rg8Srgb => SurfaceType::R8_G8,
            Format::Rgb8Unorm | Format::Rgb8Snorm | Format::Rgb8Uscaled | Format::Rgb8Sscaled
            | Format::Rgb8Uint | Format::Rgb8Sint | Format::Rgb8Srgb => SurfaceType::R8_G8_B8,
            Format::Bgr8Unorm | Format::Bgr8Snorm | Format::Bgr8Uscaled | Format::Bgr8Sscaled
            | Format::Bgr8Uint | Format::Bgr8Sint | Format::Bgr8Srgb => SurfaceType::B8_G8_R8,
            Format::Rgba8Unorm | Format::Rgba8Snorm | Format::Rgba8Uscaled
            | Format::Rgba8Sscaled | Format::Rgba8Uint | Format::Rgba8Sint | Format::Rgba8Srgb
            => SurfaceType::R8_G8_B8_A8,
            Format::Bgra8Unorm | Format::Bgra8Snorm | Format::Bgra8Uscaled
            | Format::Bgra8Sscaled | Format::Bgra8Uint | Format::Bgra8Sint | Format::Bgra8Srgb
            => SurfaceType::B8_G8_R8_A8,
            Format::Abgr8Unorm | Format::Abgr8Snorm | Format::Abgr8Uscaled
            | Format::Abgr8Sscaled | Format::Abgr8Uint | Format::Abgr8Sint | Format::Abgr8Srgb
            => SurfaceType::A8_B8_G8_R8,
            Format::A2r10g10b10Unorm | Format::A2r10g10b10Snorm | Format::A2r10g10b10Uscaled
            | Format::A2r10g10b10Sscaled | Format::A2r10g10b10Uint | Format::A2r10g10b10Sint
            => SurfaceType::A2_R10_G10_B10,
            Format::A2b10g10r10Unorm | Format::A2b10g10r10Snorm | Format::A2b10g10r10Uscaled
            | Format::A2b10g10r10Sscaled | Format::A2b10g10r10Uint | Format::A2b10g10r10Sint
            => SurfaceType::A2_B10_G10_R10,
            Format::R16Unorm | Format::R16Snorm | Format::R16Uscaled | Format::R16Sscaled
            | Format::R16Uint | Format::R16Sint | Format::R16Sfloat => SurfaceType::R16,
            Format::Rg16Unorm | Format::Rg16Snorm | Format::Rg16Uscaled | Format::Rg16Sscaled
            | Format::Rg16Uint | Format::Rg16Sint | Format::Rg16Sfloat => SurfaceType::R16_G16,
            Format::Rgb16Unorm | Format::Rgb16Snorm | Format::Rgb16Uscaled
            | Format::Rgb16Sscaled | Format::Rgb16Uint | Format::Rgb16Sint | Format::Rgb16Sfloat
            => SurfaceType::R16_G16_B16,
            Format::Rgba16Unorm | Format::Rgba16Snorm | Format::Rgba16Uscaled
            | Format::Rgba16Sscaled | Format::Rgba16Uint | Format::Rgba16Sint
            | Format::Rgba16Sfloat => SurfaceType::R16_G16_B16_A16,
            Format::R32Uint | Format::R32Sint | Format::R32Sfloat => SurfaceType::R32,
            Format::Rg32Uint | Format::Rg32Sint | Format::Rg32Sfloat => SurfaceType::R32_G32,
            Format::Rgb32Uint | Format::Rgb32Sint | Format::Rgb32Sfloat => SurfaceType::R32_G32_B32,
            Format::Rgba32Uint | Format::Rgba32Sint | Format::Rgba32Sfloat
            => SurfaceType::R32_G32_B32_A32,
            Format::R64Uint | Format::R64Sint | Format::R64Sfloat => SurfaceType::R64,
            Format::Rg64Uint | Format::Rg64Sint | Format::Rg64Sfloat => SurfaceType::R64_G64,
            Format::Rgb64Uint | Format::Rgb64Sint | Format::Rgb64Sfloat => SurfaceType::R64_G64_B64,
            Format::Rgba64Uint | Format::Rgba64Sint | Format::Rgba64Sfloat
            => SurfaceType::R64_G64_B64_A64,
            Format::B10g11r11Ufloat => SurfaceType::B10_G11_R11,
            Format::E5b9g9r9Ufloat => SurfaceType::E5_B9_G9_R9,
            Format::D16Unorm => SurfaceType::D16,
            Format::X8D24Unorm => SurfaceType::X8D24,
            Format::D32Sfloat => SurfaceType::D32,
            Format::S8Uint => SurfaceType::S8,
            Format::D16UnormS8Uint => SurfaceType::D16_S8,
            Format::D24UnormS8Uint => SurfaceType::D24_S8,
            Format::D32SfloatS8Uint => SurfaceType::D32_S8,
        }
    }

    /// The encoding of the format's channels.
    pub open spec fn channel_type(self) -> ChannelType {
        match self {
            Format::Rg4Unorm | Format::Rgba4Unorm | Format::Bgra4Unorm | Format::R5g6b5Unorm
            | Format::B5g6r5Unorm | Format::R5g5b5a1Unorm | Format::B5g5r5a1Unorm
            | Format::A1r5g5b5Unorm | Format::R8Unorm | Format::Rg8Unorm | Format::Rgb8Unorm
            | Format::Bgr8Unorm | Format::Rgba8Unorm | Format::Bgra8Unorm | Format::Abgr8Unorm
            | Format::A2r10g10b10Unorm | Format::A2b10g10r10Unorm | Format::R16Unorm
            | Format::Rg16Unorm | Format::Rgb16Unorm | Format::Rgba16Unorm | Format::D16Unorm
            | Format::X8D24Unorm | Format::D16UnormS8Uint | Format::D24UnormS8Uint
            => ChannelType::Unorm,
            Format::R8Snorm | Format::Rg8Snorm | Format::Rgb8Snorm | Format::Bgr8Snorm
            | Format::Rgba8Snorm | Format::Bgra8Snorm | Format::Abgr8Snorm
            | Format::A2r10g10b10Snorm | Format::A2b10g10r10Snorm | Format::R16Snorm
            | Format::Rg16Snorm | Format::Rgb16Snorm | Format::Rgba16Snorm => ChannelType::Snorm,
            Format::R8Uscaled | Format::Rg8Uscaled | Format::Rgb8Uscaled | Format::Bgr8Uscaled
            | Format::Rgba8Uscaled | Format::Bgra8Uscaled | Format::Abgr8Uscaled
            | Format::A2r10g10b10Uscaled | Format::A2b10g10r10Uscaled | Format::R16Uscaled
            | Format::Rg16Uscaled | Format::Rgb16Uscaled | Format::Rgba16Uscaled
            => ChannelType::Uscaled,
            Format::R8Sscaled | Format::Rg8Sscaled | Format::Rgb8Sscaled | Format::Bgr8Sscaled
            | Format::Rgba8Sscaled | Format::Bgra8Sscaled | Format::Abgr8Sscaled
            | Format::A2r10g10b10Sscaled | Format::A2b10g10r10Sscaled | Format::R16Sscaled
            | Format::Rg16Sscaled | Format::Rgb16Sscaled | Format::Rgba16Sscaled
            => ChannelType::Sscaled,
            Format::R8Uint | Format::Rg8Uint | Format::Rgb8Uint | Format::Bgr8Uint
            | Format::Rgba8Uint | Format::Bgra8Uint | Format::Abgr8Uint
            | Format::A2r10g10b10Uint | Format::A2b10g10r10Uint | Format::R16Uint
            | Format::Rg16Uint | Format::Rgb16Uint | Format::Rgba16Uint | Format::R32Uint
            | Format::Rg32Uint | Format::Rgb32Uint | Format::Rgba32Uint | Format::R64Uint
            | Format::Rg64Uint | Format::Rgb64Uint | Format::Rgba64Uint | Format::S8Uint
            => ChannelType::Uint,
            Format::R8Sint | Format::Rg8Sint | Format::Rgb8Sint | Format::Bgr8Sint
            | Format::Rgba8Sint | Format::Bgra8Sint | Format::Abgr8Sint
            | Format::A2r10g10b10Sint | Format::A2b10g10r10Sint | Format::R16Sint
            | Format::Rg16Sint | Format::Rgb16Sint | Format::Rgba16Sint | Format::R32Sint
            | Format::Rg32Sint | Format::Rgb32Sint | Format::Rgba32Sint | Format::R64Sint
            | Format::Rg64Sint | Format::Rgb64Sint | Format::Rgba64Sint => ChannelType::Sint,
            Format::R8Srgb | Format::Rg8Srgb | Format::Rgb8Srgb | Format::Bgr8Srgb
            | Format::Rgba8Srgb | Format::Bgra8Srgb | Format::Abgr8Srgb => ChannelType::Srgb,
            Format::R16Sfloat | Format::Rg16Sfloat | Format::Rgb16Sfloat | Format::Rgba16Sfloat
            | Format::R32Sfloat | Format::Rg32Sfloat | Format::Rgb32Sfloat
            | Format::Rgba32Sfloat | Format::R64Sfloat | Format::Rg64Sfloat
            | Format::Rgb64Sfloat | Format::Rgba64Sfloat | Format::D32Sfloat
            | Format::D32SfloatS8Uint => ChannelType::Sfloat,
            Format::B10g11r11Ufloat | Format::E5b9g9r9Ufloat => ChannelType::Ufloat,
        }
    }

    /// The bits that the format gives to each aspect.
    pub open spec fn bits(self) -> FormatBits {
        self.surface_type().bits()
    }

    /// Whether the colour channels are sRGB encoded, as opposed to any of the
    /// linear encodings.
    pub open spec fn is_srgb(self) -> bool {
        self.channel_type() == ChannelType::Srgb
    }

    /// The layout of the format.
    fn surface(self) -> (surface: SurfaceType)
        ensures
            surface == self.surface_type(),
    {
        match self {
            Format::Rg4Unorm => SurfaceType::R4_G4,
            Format::Rgba4Unorm => SurfaceType::R4_G4_B4_A4,
            Format::Bgra4Unorm => SurfaceType::B4_G4_R4_A4,
            Format::R5g6b5Unorm => SurfaceType::R5_G6_B5,
            Format::B5g6r5Unorm => SurfaceType::B5_G6_R5,
            Format::R5g5b5a1Unorm => SurfaceType::R5_G5_B5_A1,
            Format::B5g5r5a1Unorm => SurfaceType::B5_G5_R5_A1,
            Format::A1r5g5b5Unorm => SurfaceType::A1_R5_G5_B5,
            Format::R8Unorm | Format::R8Snorm | Format::R8Uscaled | Format::R8Sscaled
            | Format::R8Uint | Format::R8Sint | Format::R8Srgb => SurfaceType::R8,
            Format::Rg8Unorm | Format::Rg8Snorm | Format::Rg8Uscaled | Format::Rg8Sscaled
            | Format::Rg8Uint | Format::Rg8Sint | Format::Rg8Srgb => SurfaceType::R8_G8,
            Format::Rgb8Unorm | Format::Rgb8Snorm | Format::Rgb8Uscaled | Format::Rgb8Sscaled
            | Format::Rgb8Uint | Format::Rgb8Sint | Format::Rgb8Srgb => SurfaceType::R8_G8_B8,
            Format::Bgr8Unorm | Format::Bgr8Snorm | Format::Bgr8Uscaled | Format::Bgr8Sscaled
            | Format::Bgr8Uint | Format::Bgr8Sint | Format::Bgr8Srgb => SurfaceType::B8_G8_R8,
            Format::Rgba8Unorm | Format::Rgba8Snorm | Format::Rgba8Uscaled
            | Format::Rgba8Sscaled | Format::Rgba8Uint | Format::Rgba8Sint | Format::Rgba8Srgb
            => SurfaceType::R8_G8_B8_A8,
            Format::Bgra8Unorm | Format::Bgra8Snorm | Format::Bgra8Uscaled
            | Format::Bgra8Sscaled | Format::Bgra8Uint | Format::Bgra8Sint | Format::Bgra8Srgb
            => SurfaceType::B8_G8_R8_A8,
            Format::Abgr8Unorm | Format::Abgr8Snorm | Format::Abgr8Uscaled
            | Format::Abgr8Sscaled | Format::Abgr8Uint | Format::Abgr8Sint | Format::Abgr8Srgb
            => SurfaceType::A8_B8_G8_R8,
            Format::A2r10g10b10Unorm | Format::A2r10g10b10Snorm | Format::A2r10g10b10Uscaled
            | Format::A2r10g10b10Sscaled | Format::A2r10g10b10Uint | Format::A2r10g10b10Sint
            => SurfaceType::A2_R10_G10_B10,
            Format::A2b10g10r10Unorm | Format::A2b10g10r10Snorm | Format::A2b10g10r10Uscaled
            | Format::A2b10g10r10Sscaled | Format::A2b10g10r10Uint | Format::A2b10g10r10Sint
            => SurfaceType::A2_B10_G10_R10,
            Format::R16Unorm | Format::R16Snorm | Format::R16Uscaled | Format::R16Sscaled
            | Format::R16Uint | Format::R16Sint | Format::R16Sfloat => SurfaceType::R16,
            Format::Rg16Unorm | Format::Rg16Snorm | Format::Rg16Uscaled | Format::Rg16Sscaled
            | Format::Rg16Uint | Format::Rg16Sint | Format::Rg16Sfloat => SurfaceType::R16_G16,
            Format::Rgb16Unorm | Format::Rgb16Snorm | Format::Rgb16Uscaled
            | Format::Rgb16Sscaled | Format::Rgb16Uint | Format::Rgb16Sint | Format::Rgb16Sfloat
            => SurfaceType::R16_G16_B16,
            Format::Rgba16Unorm | Format::Rgba16Snorm | Format::Rgba16Uscaled
            | Format::Rgba16Sscaled | Format::Rgba16Uint | Format::Rgba16Sint
            | Format::Rgba16Sfloat => SurfaceType::R16_G16_B16_A16,
            Format::R32Uint | Format::R32Sint | Format::R32Sfloat => SurfaceType::R32,
            Format::Rg32Uint | Format::Rg32Sint | Format::Rg32Sfloat => SurfaceType::R32_G32,
            Format::Rgb32Uint | Format::Rgb32Sint | Format::Rgb32Sfloat => SurfaceType::R32_G32_B32,
            Format::Rgba32Uint | Format::Rgba32Sint | Format::Rgba32Sfloat
            => SurfaceType::R32_G32_B32_A32,
            Format::R64Uint | Format::R64Sint | Format::R64Sfloat => SurfaceType::R64,
            Format::Rg64Uint | Format::Rg64Sint | Format::Rg64Sfloat => SurfaceType::R64_G64,
            Format::Rgb64Uint | Format::Rgb64Sint | Format::Rgb64Sfloat => SurfaceType::R64_G64_B64,
            Format::Rgba64Uint | Format::Rgba64Sint | Format::Rgba64Sfloat
            => SurfaceType::R64_G64_B64_A64,
            Format::B10g11r11Ufloat => SurfaceType::B10_G11_R11,
            Format::E5b9g9r9Ufloat => SurfaceType::E5_B9_G9_R9,
            Format::D16Unorm => SurfaceType::D16,
            Format::X8D24Unorm => SurfaceType::X8D24,
            Format::D32Sfloat => SurfaceType::D32,
            Format::S8Uint => SurfaceType::S8,
            Format::D16UnormS8Uint => SurfaceType::D16_S8,
            Format::D24UnormS8Uint => SurfaceType::D24_S8,
            Format::D32SfloatS8Uint => SurfaceType::D32_S8,
        }
    }

    /// The encoding of the format's channels.
    fn channel(self) -> (channel: ChannelType)
        ensures
            channel == self.channel_type(),
    {
        match self {
            Format::Rg4Unorm | Format::Rgba4Unorm | Format::Bgra4Unorm | Format::R5g6b5Unorm
            | Format::B5g6r5Unorm | Format::R5g5b5a1Unorm | Format::B5g5r5a1Unorm
            | Format::A1r5g5b5Unorm | Format::R8Unorm | Format::Rg8Unorm | Format::Rgb8Unorm
            | Format::Bgr8Unorm | Format::Rgba8Unorm | Format::Bgra8Unorm | Format::Abgr8Unorm
            | Format::A2r10g10b10Unorm | Format::A2b10g10r10Unorm | Format::R16Unorm
            | Format::Rg16Unorm | Format::Rgb16Unorm | Format::Rgba16Unorm | Format::D16Unorm
            | Format::X8D24Unorm | Format::D16UnormS8Uint | Format::D24UnormS8Uint
            => ChannelType::Unorm,
            Format::R8Snorm | Format::Rg8Snorm | Format::Rgb8Snorm | Format::Bgr8Snorm
            | Format::Rgba8Snorm | Format::Bgra8Snorm | Format::Abgr8Snorm
            | Format::A2r10g10b10Snorm | Format::A2b10g10r10Snorm | Format::R16Snorm
            | Format::Rg16Snorm | Format::Rgb16Snorm | Format::Rgba16Snorm => ChannelType::Snorm,
            Format::R8Uscaled | Format::Rg8Uscaled | Format::Rgb8Uscaled | Format::Bgr8Uscaled
            | Format::Rgba8Uscaled | Format::Bgra8Uscaled | Format::Abgr8Uscaled
            | Format::A2r10g10b10Uscaled | Format::A2b10g10r10Uscaled | Format::R16Uscaled
            | Format::Rg16Uscaled | Format::Rgb16Uscaled | Format::Rgba16Uscaled
            => ChannelType::Uscaled,
            Format::R8Sscaled | Format::Rg8Sscaled | Format::Rgb8Sscaled | Format::Bgr8Sscaled
            | Format::Rgba8Sscaled | Format::Bgra8Sscaled | Format::Abgr8Sscaled
            | Format::A2r10g10b10Sscaled | Format::A2b10g10r10Sscaled | Format::R16Sscaled
            | Format::Rg16Sscaled | Format::Rgb16Sscaled | Format::Rgba16Sscaled
            => ChannelType::Sscaled,
            Format::R8Uint | Format::Rg8Uint | Format::Rgb8Uint | Format::Bgr8Uint
            | Format::Rgba8Uint | Format::Bgra8Uint | Format::Abgr8Uint
            | Format::A2r10g10b10Uint | Format::A2b10g10r10Uint | Format::R16Uint
            | Format::Rg16Uint | Format::Rgb16Uint | Format::Rgba16Uint | Format::R32Uint
            | Format::Rg32Uint | Format::Rgb32Uint | Format::Rgba32Uint | Format::R64Uint
            | Format::Rg64Uint | Format::Rgb64Uint | Format::Rgba64Uint | Format::S8Uint
            => ChannelType::Uint,
            Format::R8Sint | Format::Rg8Sint | Format::Rgb8Sint | Format::Bgr8Sint
            | Format::Rgba8Sint | Format::Bgra8Sint | Format::Abgr8Sint
            | Format::A2r10g10b10Sint | Format::A2b10g10r10Sint | Format::R16Sint
            | Format::Rg16Sint | Format::Rgb16Sint | Format::Rgba16Sint | Format::R32Sint
            | Format::Rg32Sint | Format::Rgb32Sint | Format::Rgba32Sint | Format::R64Sint
            | Format::Rg64Sint | Format::Rgb64Sint | Format::Rgba64Sint => ChannelType::Sint,
            Format::R8Srgb | Format::Rg8Srgb | Format::Rgb8Srgb | Format::Bgr8Srgb
            | Format::Rgba8Srgb | Format::Bgra8Srgb | Format::Abgr8Srgb => ChannelType::Srgb,
            Format::R16Sfloat | Format::Rg16Sfloat | Format::Rgb16Sfloat | Format::Rgba16Sfloat
            | Format::R32Sfloat | Format::Rg32Sfloat | Format::Rgb32Sfloat
            | Format::Rgba32Sfloat | Format::R64Sfloat | Format::Rg64Sfloat
            | Format::Rgb64Sfloat | Format::Rgba64Sfloat | Format::D32Sfloat
            | Format::D32SfloatS8Uint => ChannelType::Sfloat,
            Format::B10g11r11Ufloat | Format::E5b9g9r9Ufloat => ChannelType::Ufloat,
        }
    }

    /// Splits the format into its layout and the encoding of its channels.
    pub fn base_format(self) -> (base: (SurfaceType, ChannelType))
        ensures
            base == (self.surface_type(), self.channel_type()),
    {
        (self.surface(), self.channel())
    }
}

} // verus!
