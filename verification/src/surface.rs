//! The two things that wrap a native context for the graphics API: a surface,
//! which presents to a window, and a headless instance, which has none.

use crate::adapter::{enumerate, Adapter, Instance, PhysicalDevice, QueueFamily};
use crate::capability::{
    capabilities, extent_range, get_window_extent, image_count, present_modes, surface_extent,
    surface_kind,
};
use crate::context::{GraphicsContext, NativeContext, SharedContext, WindowedContext};
use crate::error::Error;
use crate::format::Format;
use crate::image::{ImageUse, Kind, Usage};
use crate::negotiation::{presentable_in, report_formats};
use crate::window::{CompositeAlpha, Extent2D, PresentMode, SurfaceCapabilities};
use std::ops::Range;
use vstd::prelude::*;

verus! {

/// A target that can be presented to: a native context bound to a window.
///
/// The surface keeps nothing but a handle to the context it was made from.
/// Whatever it reports is computed at the moment of asking, from the pixel
/// format of that context and the size of its window, and is kept nowhere.
/// When the window system reports a change, the surface for the changed
/// context reports accordingly.
#[derive(Debug)]
pub struct Surface {
    pub(crate) context: SharedContext<WindowedContext>,
}

impl View for Surface {
    type V = WindowedContext;

    /// The context of the surface, with its window.
    closed spec fn view(&self) -> WindowedContext {
        self.context@
    }
}

/// What a surface is compatible with.
pub struct Compatibility {
    /// The envelope of capabilities.
    pub capabilities: SurfaceCapabilities,
    /// The formats that can be presented, the preferred one first.
    pub formats: Seq<Format>,
    /// The present modes.
    pub present_modes: Seq<PresentMode>,
}

/// What a surface on the given context is compatible with, or the failure
/// where the context is lost. Nothing goes into it but the pixel format of
/// the context and the size of the window.
pub open spec fn compatibility_of(context: WindowedContext) -> Result<Compatibility, Error> {
    match context.context.read_outcome() {
        Err(e) => Err(e),
        Ok(_) => Ok(
            Compatibility {
                capabilities: capabilities(context.pixel_format, context.window@),
                formats: presentable_in(context.pixel_format),
                present_modes: present_modes(),
            },
        ),
    }
}

impl Surface {
    /// Wraps a context and its window into a surface.
    pub fn from_window(context: WindowedContext) -> (surface: Self)
        ensures
            surface@ == context,
    {
        Surface { context: SharedContext::new(context) }
    }

    /// The context of the surface, whatever state it is in.
    pub fn get_context(&self) -> (context: &WindowedContext)
        ensures
            *context == self@,
    {
        self.context.get()
    }

    /// The context of the surface, whatever state it is in.
    pub fn context(&self) -> (context: &WindowedContext)
        ensures
            *context == self@,
    {
        self.context.get()
    }

    /// Another handle to the context of the surface.
    pub(crate) fn share_context(&self) -> (handle: SharedContext<WindowedContext>)
        ensures
            handle@ == self@,
    {
        self.context.clone()
    }

    /// The formats that the surface can present, the preferred one first;
    /// none where the pixel format of the context is of no use to the
    /// graphics API. Fails where the context is lost, and only there.
    pub fn swapchain_formats(&self) -> (outcome: Result<Vec<Format>, Error>)
        ensures
            match outcome {
                Ok(formats) => self@.context.read_outcome() is Ok && formats@ == presentable_in(
                    self@.pixel_format,
                ),
                Err(e) => self@.context.read_outcome() matches Err(lost) && e == lost,
            },
    {
        match self.context.read() {
            Err(e) => Err(e),
            Ok(context) => Ok(report_formats(&context.pixel_format)),
        }
    }

    /// The kind of the images of the surface. Fails where the context is
    /// lost, and only there.
    pub fn kind(&self) -> (outcome: Result<Kind, Error>)
        ensures
            match outcome {
                Ok(kind) => self@.context.read_outcome() is Ok && kind == surface_kind(
                    self@.pixel_format,
                    self@.window@,
                ),
                Err(e) => self@.context.read_outcome() matches Err(lost) && e == lost,
            },
    {
        match self.context.read() {
            Err(e) => Err(e),
            Ok(context) => {
                let ex = get_window_extent(&context.window);
                let samples: u16 = match context.pixel_format.multisampling {
                    Some(samples) => samples,
                    None => 1,
                };
                assert(samples as u8 == (samples % 256) as u8) by (bit_vector);
                Ok(Kind::D2(ex.width, ex.height, 1, #[verifier::truncate] (samples as u8)))
            },
        }
    }

    /// What the surface is compatible with, for any device: the envelope of
    /// capabilities, the formats that can be presented, and the present
    /// modes. All three follow from the pixel format of the context and the
    /// size of the window as they are at the call. Fails where the context
    /// is lost, and only there.
    pub fn compatibility(&self, _device: &PhysicalDevice) -> (outcome: Result<
        (SurfaceCapabilities, Option<Vec<Format>>, Vec<PresentMode>),
        Error,
    >)
        ensures
            match outcome {
                Ok((caps, formats, modes)) => {
                    &&& compatibility_of(self@) matches Ok(compatible)
                    &&& caps == compatible.capabilities
                    &&& formats matches Some(listed)
                    &&& listed@ == compatible.formats
                    &&& modes@ == compatible.present_modes
                },
                Err(e) => compatibility_of(self@) matches Err(lost) && e == lost,
            },
    {
        match self.context.read() {
            Err(e) => Err(e),
            Ok(context) => {
                let ex = get_window_extent(&context.window);
                let extent = Extent2D::from(ex);
                let caps = SurfaceCapabilities {
                    image_count: if context.pixel_format.double_buffer {
                        2..3
                    } else {
                        1..2
                    },
                    current_extent: Some(extent),
                    extents: extent..Extent2D { width: ex.width + 1, height: ex.height + 1 },
                    max_image_layers: 1,
                    usage: Usage::only(ImageUse::ColorAttachment).union(
                        Usage::only(ImageUse::TransferSrc),
                    ),
                    composite_alpha: CompositeAlpha::Opaque,
                };
                let present_modes = vec![PresentMode::Fifo];
                Ok((caps, Some(report_formats(&context.pixel_format)), present_modes))
            },
        }
    }

    /// Whether the surface can be presented to from a queue family. It can,
    /// from any: the one family of an adapter does everything.
    pub fn supports_queue_family(&self, _family: &QueueFamily) -> (supported: bool)
        ensures
            supported,
    {
        true
    }
}

impl Instance for Surface {
    open spec fn graphics_context(&self) -> NativeContext {
        self@.context
    }

    fn enumerate_adapters(&self) -> (outcome: Result<Vec<Adapter>, Error>) {
        enumerate(self.context.get().native_context())
    }
}

/// A native context without a window, for enumerating adapters and for work
/// that is never presented.
#[derive(Debug)]
pub struct Headless(pub SharedContext<NativeContext>);

impl View for Headless {
    type V = NativeContext;

    /// The context of the instance.
    open spec fn view(&self) -> NativeContext {
        self.0@
    }
}

impl Headless {
    /// Wraps a context that has no window.
    pub fn from_context(context: NativeContext) -> (headless: Headless)
        ensures
            headless@ == context,
    {
        Headless(SharedContext::new(context))
    }
}

impl Instance for Headless {
    open spec fn graphics_context(&self) -> NativeContext {
        self@
    }

    fn enumerate_adapters(&self) -> (outcome: Result<Vec<Adapter>, Error>) {
        enumerate(self.0.get())
    }
}

/// A surface answers unless its context is lost, and then it fails with the
/// loss. Whether the context is current plays no part.
pub proof fn lemma_compatibility_fails_on_loss_alone(context: WindowedContext)
    ensures
        compatibility_of(context) is Ok <==> context.context.read_outcome() is Ok,
        compatibility_of(context) is Err ==> compatibility_of(context)->Err_0 == Error::ContextLost,
{
}

/// The image count of the envelope is two, and only two, where the context
/// is double buffered, and one, and only one, where it is not, whatever the
/// size of the window.
pub proof fn lemma_image_count_follows_buffering(context: WindowedContext)
    requires
        context.context.read_outcome() is Ok,
    ensures
        compatibility_of(context) matches Ok(compatible) && compatible.capabilities.image_count
            == if context.pixel_format.double_buffer {
            Range { start: 2u32, end: 3u32 }
        } else {
            Range { start: 1u32, end: 2u32 }
        },
{
}

/// The current extent of the envelope is the size of the window, and the
/// extents run from the current extent to one more in both dimensions.
pub proof fn lemma_extents_follow_window(context: WindowedContext)
    requires
        context.context.read_outcome() is Ok,
        context.window@.fits(),
    ensures
        compatibility_of(context) matches Ok(compatible) && {
            let caps = compatible.capabilities;
            &&& caps.current_extent matches Some(current)
            &&& current.width == context.window@.width
            &&& current.height == context.window@.height
            &&& caps.extents.start == current
            &&& caps.extents.end.width == current.width + 1
            &&& caps.extents.end.height == current.height + 1
        },
{
}

/// Nothing of an earlier query is kept. Take one context at two moments,
/// between which its window has changed size. What a surface reports at the
/// second moment is the envelope of the second size: its current extent and
/// its extents are those of the window as it is then, and where the two
/// sizes differ they differ from what was reported at the first moment.
/// What does not depend on the window is reported as before.
pub proof fn lemma_second_query_follows_second_extent(
    first: WindowedContext,
    second: WindowedContext,
)
    requires
        second.context == first.context,
        second.pixel_format == first.pixel_format,
        first.context.read_outcome() is Ok,
        first.window@.fits(),
        second.window@.fits(),
    ensures
        compatibility_of(first) matches Ok(before) && compatibility_of(second) matches Ok(after)
            && {
            &&& after.capabilities.current_extent == Some(surface_extent(second.window@))
            &&& after.capabilities.extents == extent_range(second.window@)
            &&& first.window@ != second.window@ ==> {
                &&& after.capabilities.current_extent != before.capabilities.current_extent
                &&& after.capabilities.extents.start != before.capabilities.extents.start
                &&& after.capabilities.extents.end != before.capabilities.extents.end
            }
            &&& after.capabilities.image_count == before.capabilities.image_count
            &&& after.capabilities.image_count == image_count(second.pixel_format.double_buffer)
            &&& after.formats == before.formats
            &&& after.present_modes == before.present_modes
        },
{
}

} // verus!
