//! Format negotiation, both ways: from the pixel format of a native context
//! to the formats of the graphics API that can be presented in it, and from
//! a format of the graphics API to the pixel format to ask of the window
//! system.

use crate::builder::ContextBuilder;
use crate::context::PixelFormat;
use crate::error::Error;
use crate::format::{ChannelType, Format, FormatBits};
use vstd::prelude::*;

verus! {

/// The formats that can be presented in a colour buffer of the given bits
/// and encoding, the preferred one first.
///
/// The table is closed. A buffer of 24 colour bits and 8 alpha bits takes
/// the 8-bit RGBA format and then the 8-bit BGRA format, both in the
/// buffer's encoding: the window system does not tell the channel order.
/// Any other buffer takes none.
pub open spec fn presentable_formats(color_bits: u8, alpha_bits: u8, srgb: bool) -> Seq<Format> {
    if color_bits == 24 && alpha_bits == 8 {
        if srgb {
            seq![Format::Rgba8Srgb, Format::Bgra8Srgb]
        } else {
            seq![Format::Rgba8Unorm, Format::Bgra8Unorm]
        }
    } else {
        Seq::empty()
    }
}

/// The formats that can be presented in a native pixel format, the
/// preferred one first. Of the pixel format only the colour bits, the alpha
/// bits and the encoding count.
pub open spec fn presentable_in(pixel_format: PixelFormat) -> Seq<Format> {
    presentable_formats(pixel_format.color_bits, pixel_format.alpha_bits, pixel_format.srgb)
}

/// Whether a format is in the table of presentable formats at all.
pub open spec fn in_table(format: Format) -> bool {
    format == Format::Rgba8Srgb || format == Format::Bgra8Srgb || format == Format::Rgba8Unorm
        || format == Format::Bgra8Unorm
}

/// The formats that a native pixel format can present, the preferred one
/// first. An empty list says that the pixel format is of no use to the
/// graphics API; it is an answer, not a failure.
pub fn report_formats(pixel_format: &PixelFormat) -> (formats: Vec<Format>)
    ensures
        formats@ == presentable_in(*pixel_format),
{
    if pixel_format.color_bits == 24 && pixel_format.alpha_bits == 8 {
        if pixel_format.srgb {
            vec![Format::Rgba8Srgb, Format::Bgra8Srgb]
        } else {
            vec![Format::Rgba8Unorm, Format::Bgra8Unorm]
        }
    } else {
        Vec::new()
    }
}

/// The format to present a native pixel format in: the first of those it
/// can present. A pixel format that can present none is refused.
pub fn preferred_format(pixel_format: &PixelFormat) -> (choice: Result<Format, Error>)
    ensures
        match choice {
            Ok(format) => presentable_in(*pixel_format).len() > 0 && format == presentable_in(
                *pixel_format,
            )[0],
            Err(e) => presentable_in(*pixel_format).len() == 0 && e == Error::UnsupportedFormat,
        },
{
    let formats = report_formats(pixel_format);
    if formats.len() == 0 {
        Err(Error::UnsupportedFormat)
    } else {
        Ok(formats[0])
    }
}

/// The bits to ask for a depth-stencil format: its own, and none of any
/// aspect where no format is given.
pub open spec fn depth_stencil_bits(ds_format: Option<Format>) -> FormatBits {
    match ds_format {
        Some(format) => format.bits(),
        None => FormatBits::none(),
    }
}

/// The builder that asks for a context fit for a colour format and,
/// where one is given, a depth-stencil format. What the builder asked of
/// multisampling and double buffering stays.
pub open spec fn configured(
    builder: ContextBuilder,
    color_format: Format,
    ds_format: Option<Format>,
) -> ContextBuilder {
    ContextBuilder {
        color_bits: Some(color_format.bits().color),
        alpha_bits: Some(color_format.bits().alpha),
        depth_bits: Some(depth_stencil_bits(ds_format).depth),
        stencil_bits: Some(depth_stencil_bits(ds_format).stencil),
        srgb: color_format.is_srgb(),
        ..builder
    }
}

/// Makes a builder ask for a context fit for a colour format and, where one
/// is given, a depth-stencil format: the depth, stencil, colour and alpha
/// bits of the formats, each stated, and sRGB exactly when the colour format
/// is sRGB encoded.
pub fn config_context(
    builder: ContextBuilder,
    color_format: Format,
    ds_format: Option<Format>,
) -> (out: ContextBuilder)
    ensures
        out == configured(builder, color_format, ds_format),
{
    let color_base = color_format.base_format();
    let color_bits = color_base.0.describe_bits();
    let depth_bits = match ds_format {
        Some(fm) => fm.base_format().0.describe_bits(),
        None => FormatBits::zero(),
    };
    builder.with_depth_buffer(depth_bits.depth).with_stencil_buffer(
        depth_bits.stencil,
    ).with_pixel_format(color_bits.color, color_bits.alpha).with_srgb(
        color_base.1 == ChannelType::Srgb,
    )
}

/// The table of presentable formats, case by case: two formats in a fixed
/// order for a buffer of 24 and 8 bits, in the encoding of the buffer, and
/// none for any other buffer.
pub proof fn lemma_presentable_formats(color_bits: u8, alpha_bits: u8, srgb: bool)
    ensures
        presentable_formats(24, 8, true) == seq![Format::Rgba8Srgb, Format::Bgra8Srgb],
        presentable_formats(24, 8, false) == seq![Format::Rgba8Unorm, Format::Bgra8Unorm],
        !(color_bits == 24 && alpha_bits == 8) ==> presentable_formats(
            color_bits,
            alpha_bits,
            srgb,
        ) == Seq::<Format>::empty(),
{
}

/// Every format that is listed for a buffer has the bits and the encoding of
/// that buffer, and is in the table; and every format in the table is
/// listed for the buffer of its own bits and encoding.
pub proof fn lemma_presentable_formats_fit(color_bits: u8, alpha_bits: u8, srgb: bool)
    ensures
        forall|i: int|
            0 <= i < presentable_formats(color_bits, alpha_bits, srgb).len() ==> {
                let listed = #[trigger] presentable_formats(color_bits, alpha_bits, srgb)[i];
                &&& listed.bits().color == color_bits
                &&& listed.bits().alpha == alpha_bits
                &&& listed.is_srgb() == srgb
                &&& in_table(listed)
            },
        forall|format: Format| #[trigger]
            in_table(format) ==> presentable_formats(
                format.bits().color,
                format.bits().alpha,
                format.is_srgb(),
            ).contains(format),
{
    assert forall|format: Format| #[trigger] in_table(format) implies presentable_formats(
        format.bits().color,
        format.bits().alpha,
        format.is_srgb(),
    ).contains(format) by {
        let listed = presentable_formats(
            format.bits().color,
            format.bits().alpha,
            format.is_srgb(),
        );
        assert(listed[0] == format || listed[1] == format);
    }
}

/// The round trip of a colour format through the window system. Where a
/// context is configured for a colour format and the window system grants
/// exactly what was asked, the pixel format of the context has the colour
/// and alpha bits of the format and is sRGB exactly when the format is; its
/// depth and stencil bits are those of the depth-stencil format, and zero
/// where none was given. Every format reported back for that pixel format
/// has the colour bits, the alpha bits and the encoding, sRGB or linear, of
/// the format that went in; and the format itself is among them exactly
/// when it is in the table.
pub proof fn lemma_config_round_trip(
    builder: ContextBuilder,
    color_format: Format,
    ds_format: Option<Format>,
    granted: PixelFormat,
)
    requires
        configured(builder, color_format, ds_format).met_exactly_by(granted),
    ensures
        granted.color_bits == color_format.bits().color,
        granted.alpha_bits == color_format.bits().alpha,
        granted.srgb == color_format.is_srgb(),
        granted.depth_bits == depth_stencil_bits(ds_format).depth,
        granted.stencil_bits == depth_stencil_bits(ds_format).stencil,
        ds_format is None ==> granted.depth_bits == 0 && granted.stencil_bits == 0,
        forall|i: int|
            0 <= i < presentable_in(granted).len() ==> {
                let back = #[trigger] presentable_in(granted)[i];
                &&& back.bits().color == color_format.bits().color
                &&& back.bits().alpha == color_format.bits().alpha
                &&& back.is_srgb() == color_format.is_srgb()
            },
        presentable_in(granted).contains(color_format) <==> in_table(color_format),
{
    lemma_presentable_formats_fit(granted.color_bits, granted.alpha_bits, granted.srgb);
}

} // verus!
