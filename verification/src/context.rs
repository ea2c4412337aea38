//! The native side: a graphics context as the window system describes it,
//! the window it draws to, and the handle through which several owners hold
//! one context.
//!
//! A context lives in the window system and changes there: it is made
//! current and released, its window is resized, the driver may lose it. The
//! values here describe it at one moment. Whoever embeds the layer reads
//! the live context and states what it read; everything the layer answers
//! follows from that statement alone.

use crate::error::Error;
use std::sync::Arc;
use vstd::prelude::*;

verus! {

/// Whether a context can take commands from the calling thread.
#[derive(Clone, Copy, Debug, PartialEq, Eq, Hash, Structural)]
pub enum ContextState {
    /// Bound to the calling thread: commands may be issued.
    Current,
    /// Bound to no thread, or to another one.
    NotCurrent,
    /// Invalidated by the driver, for good.
    Lost,
}

impl ContextState {
    /// The state that follows from what is known of a context: whether the
    /// driver has reported it lost, and whether it is current on the
    /// calling thread. A lost context stays lost, current or not.
    pub open spec fn of(is_current: bool, lost: bool) -> ContextState {
        if lost {
            ContextState::Lost
        } else if is_current {
            ContextState::Current
        } else {
            ContextState::NotCurrent
        }
    }

    /// The state of a context of which this much is known.
    pub fn observed(is_current: bool, lost: bool) -> (state: ContextState)
        ensures
            state == ContextState::of(is_current, lost),
    {
        if lost {
            ContextState::Lost
        } else if is_current {
            ContextState::Current
        } else {
            ContextState::NotCurrent
        }
    }
}

/// The pixel format that the window system gave a context.
#[derive(Clone, Copy, Debug, PartialEq, Eq, Hash, Structural)]
pub struct PixelFormat {
    /// Bits of the colour channels together, alpha excluded.
    pub color_bits: u8,
    /// Bits of the alpha channel.
    pub alpha_bits: u8,
    /// Bits of the depth buffer.
    pub depth_bits: u8,
    /// Bits of the stencil buffer.
    pub stencil_bits: u8,
    /// Samples per pixel, where multisampling is on.
    pub multisampling: Option<u16>,
    /// Whether there is a back buffer beside the front buffer.
    pub double_buffer: bool,
    /// Whether the colour buffer is sRGB encoded.
    pub srgb: bool,
}

/// A native graphics context at one moment, as seen by the thread that
/// asks.
///
/// At most one thread issues commands through a context at any moment. This
/// layer takes no lock for that: the embedder makes the context current
/// before a call that issues commands and keeps other threads away from it
/// meanwhile. What the layer does is refuse such a call when the context is
/// known not to be current.
#[derive(Clone, Copy, Debug, PartialEq, Eq, Hash, Structural)]
pub struct NativeContext {
    /// Whether the context can take commands from the calling thread.
    pub state: ContextState,
    /// The address that the context's symbol resolver gives for its primary
    /// entry point; zero where it resolves nothing.
    pub proc_entry: usize,
}

impl NativeContext {
    /// What reading the context's description comes to. The description does
    /// not depend on the context being current; it is void once the context
    /// is lost.
    pub open spec fn read_outcome(self) -> Result<(), Error> {
        match self.state {
            ContextState::Lost => Err(Error::ContextLost),
            _ => Ok(()),
        }
    }

    /// What issuing commands through the context comes to.
    pub open spec fn command_outcome(self) -> Result<(), Error> {
        match self.state {
            ContextState::Current => Ok(()),
            ContextState::NotCurrent => Err(Error::CurrencyViolation),
            ContextState::Lost => Err(Error::ContextLost),
        }
    }

    /// Passes where the context's description can be read.
    pub fn require_live(&self) -> (outcome: Result<(), Error>)
        ensures
            outcome == self.read_outcome(),
    {
        match self.state {
            ContextState::Lost => Err(Error::ContextLost),
            _ => Ok(()),
        }
    }

    /// Passes where commands may be issued through the context.
    pub fn require_current(&self) -> (outcome: Result<(), Error>)
        ensures
            outcome == self.command_outcome(),
    {
        match self.state {
            ContextState::Current => Ok(()),
            ContextState::NotCurrent => Err(Error::CurrencyViolation),
            ContextState::Lost => Err(Error::ContextLost),
        }
    }
}

/// A size in physical pixels: what the display shows, not the units that a
/// scale factor is yet to be applied to.
#[derive(Clone, Copy, Debug, PartialEq, Eq, Hash, Structural)]
pub struct PhysicalSize {
    /// Pixels across.
    pub width: u32,
    /// Pixels down.
    pub height: u32,
}

impl PhysicalSize {
    /// Whether a window can have this size: a surface grants one pixel of
    /// slack beyond it in each dimension, and that pixel must be countable.
    pub open spec fn fits(self) -> bool {
        self.width < u32::MAX && self.height < u32::MAX
    }
}

/// A window as the window system reports it at one moment.
#[derive(Clone, Copy, Debug, PartialEq, Eq, Hash)]
pub struct Window {
    inner_size: PhysicalSize,
}

impl View for Window {
    type V = PhysicalSize;

    /// The size of the window's client area.
    closed spec fn view(&self) -> PhysicalSize {
        self.inner_size
    }
}

impl Window {
    /// A window has a size that fits.
    #[verifier::type_invariant]
    spec fn inv(self) -> bool {
        self.inner_size.fits()
    }

    /// The window of the given client area, in physical pixels; none where
    /// the size does not fit.
    pub fn new(width: u32, height: u32) -> (window: Option<Window>)
        ensures
            window is Some <==> (PhysicalSize { width, height }).fits(),
            window matches Some(w) ==> w@ == (PhysicalSize { width, height }),
    {
        if width < u32::MAX && height < u32::MAX {
            Some(Window { inner_size: PhysicalSize { width, height } })
        } else {
            None
        }
    }

    /// The size of the window's client area, in physical pixels.
    pub fn inner_size(&self) -> (size: PhysicalSize)
        ensures
            size == self@,
            size.fits(),
    {
        proof {
            use_type_invariant(self);
        }
        self.inner_size
    }
}

/// A native context at one moment, together with the window it draws to
/// and the pixel format of its main framebuffer.
#[derive(Clone, Copy, Debug, PartialEq, Eq, Hash)]
pub struct WindowedContext {
    /// The context itself.
    pub context: NativeContext,
    /// The pixel format that the window system gave the context.
    pub pixel_format: PixelFormat,
    /// The window as it is at that moment.
    pub window: Window,
}

/// What the layer needs of anything that is, or has, a native context.
pub trait GraphicsContext {
    /// The native context.
    spec fn native(&self) -> NativeContext;

    /// The native context.
    fn native_context(&self) -> (context: &NativeContext)
        ensures
            *context == self.native(),
    ;
}

impl GraphicsContext for NativeContext {
    open spec fn native(&self) -> NativeContext {
        *self
    }

    fn native_context(&self) -> (context: &NativeContext) {
        self
    }
}

impl GraphicsContext for WindowedContext {
    open spec fn native(&self) -> NativeContext {
        self.context
    }

    fn native_context(&self) -> (context: &NativeContext) {
        &self.context
    }
}

/// A handle to a context that several owners hold at once: a surface, the
/// swapchains built on it, whoever enumerates adapters.
///
/// Cloning the handle adds an owner and copies nothing. The context is
/// released when the last handle goes. No owner may take the context to be
/// its own: making it current, or losing it, concerns them all.
#[derive(Debug)]
pub struct SharedContext<C> {
    inner: Arc<C>,
}

impl<C> View for SharedContext<C> {
    type V = C;

    /// The context that the handle stands for.
    closed spec fn view(&self) -> C {
        *self.inner
    }
}

impl<C> Clone for SharedContext<C> {
    /// Another handle to the same context.
    fn clone(&self) -> (handle: Self)
        ensures
            handle@ == self@,
    {
        SharedContext { inner: Arc::clone(&self.inner) }
    }
}

impl<C> SharedContext<C> {
    /// Takes the context over and gives the first handle to it.
    pub fn new(context: C) -> (handle: Self)
        ensures
            handle@ == context,
    {
        SharedContext { inner: Arc::new(context) }
    }

    /// The context itself, whatever state it is in.
    pub fn get(&self) -> (context: &C)
        ensures
            *context == self@,
    {
        &*self.inner
    }
}

impl<C: GraphicsContext> SharedContext<C> {
    /// The context for reading its description: the pixel format, the
    /// window. This asks for no currency, but a lost context is refused.
    pub fn read(&self) -> (access: Result<&C, Error>)
        ensures
            match access {
                Ok(context) => *context == self@ && self@.native().read_outcome() is Ok,
                Err(e) => self@.native().read_outcome() matches Err(lost) && e == lost,
            },
    {
        let context = self.get();
        match context.native_context().require_live() {
            Ok(()) => Ok(context),
            Err(e) => Err(e),
        }
    }
}

} // verus!
