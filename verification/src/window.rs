//! Presentation vocabulary of the graphics API: what a surface reports of
//! itself and what a swapchain hands out.

use crate::image::{Extent, Layer, Size, Usage};
use std::ops::Range;
use vstd::prelude::*;

verus! {

/// The index of an image within its swapchain.
pub type SwapImageIndex = u32;

/// The extent of a presentable image in texels.
#[derive(Clone, Copy, Debug, PartialEq, Eq, Hash, Structural)]
pub struct Extent2D {
    /// Texels across.
    pub width: Size,
    /// Texels down.
    pub height: Size,
}

impl From<Extent> for Extent2D {
    /// Drops the depth.
    fn from(extent: Extent) -> (flat: Extent2D) {
        Extent2D { width: extent.width, height: extent.height }
    }
}

impl vstd::std_specs::convert::FromSpecImpl<Extent> for Extent2D {
    open spec fn obeys_from_spec() -> bool {
        true
    }

    open spec fn from_spec(extent: Extent) -> Extent2D {
        Extent2D { width: extent.width, height: extent.height }
    }
}

/// How the presentation engine paces the images it is given.
#[derive(Clone, Copy, Debug, PartialEq, Eq, Hash, Structural)]
pub enum PresentMode {
    /// Shows an image at once, without waiting for the vertical blank.
    Immediate,
    /// Keeps the newest image for the next vertical blank and drops the rest.
    Mailbox,
    /// Queues the images and shows one at each vertical blank.
    Fifo,
    /// As `Fifo`, but an image that arrives late is shown at once.
    Relaxed,
}

/// How the alpha channel of a presented image is combined with what lies
/// behind the window.
#[derive(Clone, Copy, Debug, PartialEq, Eq, Hash, Structural)]
pub enum CompositeAlpha {
    /// The alpha channel is ignored: the image covers what is behind it.
    Opaque,
    /// The colours are taken as already multiplied by alpha.
    PreMultiplied,
    /// The compositor multiplies the colours by alpha.
    PostMultiplied,
    /// The native window system decides.
    Inherit,
}

/// What a surface can present, as far as the images of a swapchain go.
#[derive(Debug, PartialEq, Eq)]
pub struct SurfaceCapabilities {
    /// How many images a swapchain may have: from `start`, below `end`.
    pub image_count: Range<SwapImageIndex>,
    /// The extent of the surface at the moment of the query.
    pub current_extent: Option<Extent2D>,
    /// The image extents that are accepted: from `start`, below `end` in
    /// each dimension.
    pub extents: Range<Extent2D>,
    /// The most array layers an image may have.
    pub max_image_layers: Layer,
    /// What the images may be used for.
    pub usage: Usage,
    /// How the images are composited.
    pub composite_alpha: CompositeAlpha,
}

/// The mark of an image that can still be presented though the swapchain no
/// longer matches its surface exactly.
#[derive(Clone, Copy, Debug, PartialEq, Eq, Hash, Structural)]
pub struct Suboptimal;

/// Why no image could be acquired.
#[derive(Clone, Copy, Debug, PartialEq, Eq, Hash, Structural)]
pub enum AcquireError {
    /// No image became available and the caller did not want to wait.
    NotReady,
    /// No image became available within the time given.
    Timeout,
    /// The swapchain no longer fits its surface and has to be built anew.
    OutOfDate,
    /// The surface is gone.
    SurfaceLost,
}

} // verus!
