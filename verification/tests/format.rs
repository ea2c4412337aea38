use gl_surface::format::{ChannelType, Format, FormatBits, SurfaceType};

fn bits(color: u8, alpha: u8, stencil: u8, depth: u8) -> FormatBits {
    FormatBits { color, alpha, stencil, depth }
}

#[test]
fn base_format_splits_layout_from_encoding() {
    assert_eq!(Format::Rgba8Srgb.base_format(), (SurfaceType::R8_G8_B8_A8, ChannelType::Srgb));
    assert_eq!(Format::Rgba8Unorm.base_format(), (SurfaceType::R8_G8_B8_A8, ChannelType::Unorm));
    assert_eq!(Format::Bgra8Srgb.base_format(), (SurfaceType::B8_G8_R8_A8, ChannelType::Srgb));
    assert_eq!(Format::Bgra8Unorm.base_format(), (SurfaceType::B8_G8_R8_A8, ChannelType::Unorm));
    assert_eq!(Format::Rg4Unorm.base_format(), (SurfaceType::R4_G4, ChannelType::Unorm));
    assert_eq!(Format::R5g6b5Unorm.base_format(), (SurfaceType::R5_G6_B5, ChannelType::Unorm));
    assert_eq!(Format::Abgr8Sint.base_format(), (SurfaceType::A8_B8_G8_R8, ChannelType::Sint));
    assert_eq!(
        Format::A2b10g10r10Uscaled.base_format(),
        (SurfaceType::A2_B10_G10_R10, ChannelType::Uscaled)
    );
    assert_eq!(Format::Rgb16Sscaled.base_format(), (SurfaceType::R16_G16_B16, ChannelType::Sscaled));
    assert_eq!(Format::Rgba32Sfloat.base_format(), (SurfaceType::R32_G32_B32_A32, ChannelType::Sfloat));
    assert_eq!(Format::R64Uint.base_format(), (SurfaceType::R64, ChannelType::Uint));
    assert_eq!(Format::B10g11r11Ufloat.base_format(), (SurfaceType::B10_G11_R11, ChannelType::Ufloat));
    assert_eq!(Format::E5b9g9r9Ufloat.base_format(), (SurfaceType::E5_B9_G9_R9, ChannelType::Ufloat));
    assert_eq!(Format::R8Snorm.base_format(), (SurfaceType::R8, ChannelType::Snorm));
}

#[test]
fn base_format_of_depth_and_stencil_formats() {
    assert_eq!(Format::D16Unorm.base_format(), (SurfaceType::D16, ChannelType::Unorm));
    assert_eq!(Format::X8D24Unorm.base_format(), (SurfaceType::X8D24, ChannelType::Unorm));
    assert_eq!(Format::D32Sfloat.base_format(), (SurfaceType::D32, ChannelType::Sfloat));
    assert_eq!(Format::S8Uint.base_format(), (SurfaceType::S8, ChannelType::Uint));
    assert_eq!(Format::D16UnormS8Uint.base_format(), (SurfaceType::D16_S8, ChannelType::Unorm));
    assert_eq!(Format::D24UnormS8Uint.base_format(), (SurfaceType::D24_S8, ChannelType::Unorm));
    assert_eq!(Format::D32SfloatS8Uint.base_format(), (SurfaceType::D32_S8, ChannelType::Sfloat));
}

#[test]
fn describe_bits_of_colour_layouts() {
    assert_eq!(SurfaceType::R4_G4.describe_bits(), bits(8, 0, 0, 0));
    assert_eq!(SurfaceType::R4_G4_B4_A4.describe_bits(), bits(12, 4, 0, 0));
    assert_eq!(SurfaceType::R5_G6_B5.describe_bits(), bits(16, 0, 0, 0));
    assert_eq!(SurfaceType::R5_G5_B5_A1.describe_bits(), bits(15, 1, 0, 0));
    assert_eq!(SurfaceType::R8.describe_bits(), bits(8, 0, 0, 0));
    assert_eq!(SurfaceType::R8_G8.describe_bits(), bits(16, 0, 0, 0));
    assert_eq!(SurfaceType::R8_G8_B8.describe_bits(), bits(24, 0, 0, 0));
    assert_eq!(SurfaceType::R8_G8_B8_A8.describe_bits(), bits(24, 8, 0, 0));
    assert_eq!(SurfaceType::B8_G8_R8_A8.describe_bits(), bits(24, 8, 0, 0));
    assert_eq!(SurfaceType::A8_B8_G8_R8.describe_bits(), bits(24, 8, 0, 0));
    assert_eq!(SurfaceType::A2_R10_G10_B10.describe_bits(), bits(30, 2, 0, 0));
    assert_eq!(SurfaceType::R16_G16_B16_A16.describe_bits(), bits(48, 16, 0, 0));
    assert_eq!(SurfaceType::R32_G32_B32.describe_bits(), bits(96, 0, 0, 0));
    assert_eq!(SurfaceType::R32_G32_B32_A32.describe_bits(), bits(96, 32, 0, 0));
    assert_eq!(SurfaceType::R64_G64_B64_A64.describe_bits(), bits(192, 64, 0, 0));
    assert_eq!(SurfaceType::B10_G11_R11.describe_bits(), bits(32, 0, 0, 0));
    assert_eq!(SurfaceType::E5_B9_G9_R9.describe_bits(), bits(27, 0, 0, 0));
}

#[test]
fn describe_bits_of_depth_and_stencil_layouts() {
    assert_eq!(SurfaceType::D16.describe_bits(), bits(0, 0, 0, 16));
    assert_eq!(SurfaceType::X8D24.describe_bits(), bits(0, 0, 0, 24));
    assert_eq!(SurfaceType::D32.describe_bits(), bits(0, 0, 0, 32));
    assert_eq!(SurfaceType::S8.describe_bits(), bits(0, 0, 8, 0));
    assert_eq!(SurfaceType::D16_S8.describe_bits(), bits(0, 0, 8, 16));
    assert_eq!(SurfaceType::D24_S8.describe_bits(), bits(0, 0, 8, 24));
    assert_eq!(SurfaceType::D32_S8.describe_bits(), bits(0, 0, 8, 32));
}

#[test]
fn zero_bits_are_zero_in_every_aspect() {
    assert_eq!(FormatBits::zero(), bits(0, 0, 0, 0));
}
