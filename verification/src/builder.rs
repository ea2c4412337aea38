//! What is asked of the window system when a context is to be created.

use crate::context::PixelFormat;
use vstd::prelude::*;

verus! {

/// The pixel format wanted for a context that is yet to be created. `None`
/// leaves an attribute to the window system.
///
/// This is a wish. The window system grants it or fails; nothing is
/// allocated here.
#[derive(Clone, Copy, Debug, PartialEq, Eq, Hash, Structural)]
pub struct ContextBuilder {
    /// Bits of the colour channels together, alpha excluded.
    pub color_bits: Option<u8>,
    /// Bits of the alpha channel.
    pub alpha_bits: Option<u8>,
    /// Bits of the depth buffer.
    pub depth_bits: Option<u8>,
    /// Bits of the stencil buffer.
    pub stencil_bits: Option<u8>,
    /// Samples per pixel.
    pub multisampling: Option<u16>,
    /// Whether there is to be a back buffer.
    pub double_buffer: Option<bool>,
    /// Whether the colour buffer is to be sRGB encoded.
    pub srgb: bool,
}

impl ContextBuilder {
    /// The wish that a builder starts from: 24 bits of colour with 8 of
    /// alpha, 24 of depth with 8 of stencil, sRGB, the rest left open.
    pub open spec fn initial() -> ContextBuilder {
        ContextBuilder {
            color_bits: Some(24u8),
            alpha_bits: Some(8u8),
            depth_bits: Some(24u8),
            stencil_bits: Some(8u8),
            multisampling: None,
            double_buffer: None,
            srgb: true,
        }
    }

    /// Whether a pixel format is exactly what the builder asks for in colour,
    /// alpha, depth, stencil and encoding. An attribute left open is met by
    /// anything.
    pub open spec fn met_exactly_by(self, granted: PixelFormat) -> bool {
        &&& self.color_bits matches Some(bits) ==> granted.color_bits == bits
        &&& self.alpha_bits matches Some(bits) ==> granted.alpha_bits == bits
        &&& self.depth_bits matches Some(bits) ==> granted.depth_bits == bits
        &&& self.stencil_bits matches Some(bits) ==> granted.stencil_bits == bits
        &&& granted.srgb == self.srgb
    }

    /// A builder with the initial wish.
    pub fn new() -> (builder: ContextBuilder)
        ensures
            builder == ContextBuilder::initial(),
    {
        ContextBuilder {
            color_bits: Some(24),
            alpha_bits: Some(8),
            depth_bits: Some(24),
            stencil_bits: Some(8),
            multisampling: None,
            double_buffer: None,
            srgb: true,
        }
    }

    /// Asks for a depth buffer of that many bits.
    pub fn with_depth_buffer(self, bits: u8) -> (builder: ContextBuilder)
        ensures
            builder == (ContextBuilder { depth_bits: Some(bits), ..self }),
    {
        ContextBuilder { depth_bits: Some(bits), ..self }
    }

    /// Asks for a stencil buffer of that many bits.
    pub fn with_stencil_buffer(self, bits: u8) -> (builder: ContextBuilder)
        ensures
            builder == (ContextBuilder { stencil_bits: Some(bits), ..self }),
    {
        ContextBuilder { stencil_bits: Some(bits), ..self }
    }

    /// Asks for a colour buffer of that many bits of colour and of alpha.
    pub fn with_pixel_format(self, color_bits: u8, alpha_bits: u8) -> (builder: ContextBuilder)
        ensures
            builder == (ContextBuilder {
                color_bits: Some(color_bits),
                alpha_bits: Some(alpha_bits),
                ..self
            }),
    {
        ContextBuilder { color_bits: Some(color_bits), alpha_bits: Some(alpha_bits), ..self }
    }

    /// Asks for an sRGB colour buffer, or stops asking for one.
    pub fn with_srgb(self, srgb_enabled: bool) -> (builder: ContextBuilder)
        ensures
            builder == (ContextBuilder { srgb: srgb_enabled, ..self }),
    {
        ContextBuilder { srgb: srgb_enabled, ..self }
    }
}

} // verus!
