//! The images of a surface, handed out one at a time.

use crate::context::{SharedContext, WindowedContext};
use crate::surface::Surface;
use crate::window::{AcquireError, Extent2D, Suboptimal, SwapImageIndex};
use vstd::prelude::*;

verus! {

/// The name of a framebuffer object of the driver.
pub type FrameBuffer = u32;

/// What a queue waits on before it uses an acquired image.
#[derive(Clone, Copy, Debug, PartialEq, Eq, Hash, Structural)]
pub struct Semaphore;

/// What the host waits on before it uses an acquired image.
#[derive(Clone, Copy, Debug, PartialEq, Eq, Hash, Structural)]
pub struct Fence;

/// The images that are presented to a surface.
#[derive(Debug)]
pub struct Swapchain {
    /// The context of the surface, held for presenting.
    pub(crate) context: SharedContext<WindowedContext>,
    /// The extent that the images were made with. The window may have moved
    /// on since.
    pub(crate) extent: Extent2D,
    /// One framebuffer for each image.
    pub(crate) fbos: Vec<FrameBuffer>,
}

/// A swapchain in the abstract.
pub struct SwapchainView {
    /// The context that the swapchain shares with its surface.
    pub context: WindowedContext,
    /// The extent that the images were made with.
    pub extent: Extent2D,
    /// The framebuffers of the images, in the order of the images.
    pub fbos: Seq<FrameBuffer>,
}

impl View for Swapchain {
    type V = SwapchainView;

    /// What the swapchain holds.
    closed spec fn view(&self) -> SwapchainView {
        SwapchainView { context: self.context@, extent: self.extent, fbos: self.fbos@ }
    }
}

/// What an acquisition answers: the index of the image, and a mark where
/// the image no longer matches the surface exactly.
pub type Acquired = Result<(SwapImageIndex, Option<Suboptimal>), AcquireError>;

/// One acquisition: the swapchain it leaves behind and what it answers.
///
/// A swapchain has a single state and acquiring is its single transition,
/// back to that state. The transition always succeeds with the first image,
/// never marks it, and looks neither at the time allowed nor at what the
/// swapchain holds.
pub open spec fn acquire_step(swapchain: SwapchainView, timeout_ns: u64) -> (
    SwapchainView,
    Acquired,
) {
    (swapchain, Ok((0u32, None)))
}

/// The swapchain after one acquisition for each of the times allowed, in
/// turn.
pub open spec fn after_acquisitions(swapchain: SwapchainView, timeouts: Seq<u64>) -> SwapchainView
    decreases timeouts.len(),
{
    if timeouts.len() == 0 {
        swapchain
    } else {
        acquire_step(
            after_acquisitions(swapchain, timeouts.drop_last()),
            timeouts.last(),
        ).0
    }
}

impl Swapchain {
    /// A swapchain on a surface, with images of the given extent and one
    /// framebuffer for each. It shares the context of the surface.
    pub fn new(surface: &Surface, extent: Extent2D, fbos: Vec<FrameBuffer>) -> (swapchain:
        Swapchain)
        ensures
            swapchain@ == (SwapchainView { context: surface@, extent, fbos: fbos@ }),
    {
        Swapchain { context: surface.share_context(), extent, fbos }
    }

    /// The context that the swapchain shares with its surface.
    pub fn context(&self) -> (context: &WindowedContext)
        ensures
            *context == self@.context,
    {
        self.context.get()
    }

    /// The extent that the images were made with.
    pub fn extent(&self) -> (extent: Extent2D)
        ensures
            extent == self@.extent,
    {
        self.extent
    }

    /// The framebuffers of the images, in the order of the images.
    pub fn framebuffers(&self) -> (fbos: &Vec<FrameBuffer>)
        ensures
            fbos@ == self@.fbos,
    {
        &self.fbos
    }

    /// Acquires the next image to draw to.
    ///
    /// Acquiring does no synchronisation. It waits for nothing, whatever
    /// time it is allowed, signals neither the semaphore nor the fence, and
    /// always answers with the first image, unmarked. The swapchain is left
    /// as it was. A caller that needs pacing has to provide it.
    pub fn acquire_image(
        &mut self,
        timeout_ns: u64,
        _semaphore: Option<&Semaphore>,
        _fence: Option<&Fence>,
    ) -> (acquired: Acquired)
        ensures
            acquired == Ok::<(SwapImageIndex, Option<Suboptimal>), AcquireError>((0u32, None)),
            final(self)@ == old(self)@,
            (final(self)@, acquired) == acquire_step(old(self)@, timeout_ns),
    {
        Ok((0, None))
    }
}

/// However often an image has been acquired, and whatever time each
/// acquisition was allowed, the swapchain is as it was at first, and one
/// more acquisition answers as the first did: with the first image,
/// unmarked.
pub proof fn lemma_acquire_repeats(swapchain: SwapchainView, timeouts: Seq<u64>, timeout_ns: u64)
    ensures
        after_acquisitions(swapchain, timeouts) == swapchain,
        acquire_step(after_acquisitions(swapchain, timeouts), timeout_ns).1 == Ok::<
            (SwapImageIndex, Option<Suboptimal>),
            AcquireError,
        >((0u32, None)),
        acquire_step(after_acquisitions(swapchain, timeouts), timeout_ns) == acquire_step(
            swapchain,
            0,
        ),
    decreases timeouts.len(),
{
    if timeouts.len() > 0 {
        lemma_acquire_repeats(swapchain, timeouts.drop_last(), timeouts.last());
    }
}

} // verus!
