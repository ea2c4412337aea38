//! What a surface can present: the envelope of capabilities that follows
//! from the pixel format of its context and the size of its window at the
//! moment of asking.

use crate::context::{PhysicalSize, PixelFormat, Window};
use crate::image::{Extent, ImageUse, Kind, Usage};
use crate::window::{CompositeAlpha, Extent2D, PresentMode, SurfaceCapabilities, SwapImageIndex};
use std::ops::Range;
use vstd::prelude::*;

verus! {

/// The extent of the images that fill a window of the given size: its width
/// and height in physical pixels, one texel deep.
pub open spec fn window_extent(size: PhysicalSize) -> Extent {
    Extent { width: size.width, height: size.height, depth: 1 }
}

/// The extent of the images that fill a window of the given size.
pub open spec fn surface_extent(size: PhysicalSize) -> Extent2D {
    Extent2D { width: size.width, height: size.height }
}

/// How many images a swapchain may have. With a back buffer it is exactly
/// two, without one exactly one.
pub open spec fn image_count(double_buffer: bool) -> Range<SwapImageIndex> {
    if double_buffer {
        Range { start: 2u32, end: 3u32 }
    } else {
        Range { start: 1u32, end: 2u32 }
    }
}

/// The image extents that a window of the given size accepts. The window
/// system does not let an image differ from its window; one pixel of slack
/// in each dimension tolerates a resize that is under way.
pub open spec fn extent_range(size: PhysicalSize) -> Range<Extent2D> {
    Range {
        start: surface_extent(size),
        end: Extent2D { width: (size.width + 1) as u32, height: (size.height + 1) as u32 },
    }
}

/// What the images of a surface may be used for: as colour attachments and
/// as sources of transfers, no more.
pub open spec fn surface_usage() -> Usage {
    Usage { bits: ImageUse::ColorAttachment.mask() | ImageUse::TransferSrc.mask() }
}

/// The present modes of a surface. Pacing is fixed when the context is
/// built, so there is one mode.
pub open spec fn present_modes() -> Seq<PresentMode> {
    seq![PresentMode::Fifo]
}

/// The envelope of a surface whose context has the given pixel format and
/// whose window has the given size.
pub open spec fn capabilities(
    pixel_format: PixelFormat,
    size: PhysicalSize,
) -> SurfaceCapabilities {
    SurfaceCapabilities {
        image_count: image_count(pixel_format.double_buffer),
        current_extent: Some(surface_extent(size)),
        extents: extent_range(size),
        max_image_layers: 1,
        usage: surface_usage(),
        composite_alpha: CompositeAlpha::Opaque,
    }
}

/// The kind of the images of a surface: two dimensions of the window's
/// size, one layer, and the samples of the pixel format, one where
/// multisampling is off. The sample count is kept in eight bits.
pub open spec fn surface_kind(pixel_format: PixelFormat, size: PhysicalSize) -> Kind {
    let samples = match pixel_format.multisampling {
        Some(samples) => samples,
        None => 1u16,
    };
    Kind::D2(size.width, size.height, 1, (samples % 256) as u8)
}

/// The extent of the images that fill the window, in physical pixels. It
/// leaves room for one pixel more in width and in height.
pub fn get_window_extent(window: &Window) -> (extent: Extent)
    ensures
        extent == window_extent(window@),
        extent.width < u32::MAX,
        extent.height < u32::MAX,
{
    let px = window.inner_size();
    Extent { width: px.width, height: px.height, depth: 1 }
}

/// The uses in the envelope are the two named, and their bits are 0x11.
pub proof fn lemma_surface_usage()
    ensures
        surface_usage()@ == Set::<ImageUse>::empty().insert(ImageUse::ColorAttachment).insert(
            ImageUse::TransferSrc,
        ),
        surface_usage().bits == 0x11,
{
    assert((1u32 << 4) | (1u32 << 0) == 0x11) by (bit_vector);
    assert forall|u: ImageUse|
        surface_usage()@.contains(u) <==> (u == ImageUse::ColorAttachment || u
            == ImageUse::TransferSrc) by {
        let place = u.place();
        assert(place < 32 ==> ((0x11u32 & (1u32 << place) != 0) <==> (place == 4 || place == 0)))
            by (bit_vector);
    }
    assert(surface_usage()@ =~= Set::<ImageUse>::empty().insert(ImageUse::ColorAttachment).insert(
        ImageUse::TransferSrc,
    ));
}

} // verus!
