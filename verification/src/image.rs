//! Image vocabulary of the graphics API: extents, image kinds and the uses an
//! image may be put to.

use vstd::prelude::*;

verus! {

/// A count of texels along one axis.
pub type Size = u32;

/// A count of array layers.
pub type Layer = u16;

/// A count of samples per texel.
pub type NumSamples = u8;

/// The extent of an image in texels.
#[derive(Clone, Copy, Debug, PartialEq, Eq, Hash, Structural)]
pub struct Extent {
    /// Texels across.
    pub width: Size,
    /// Texels down.
    pub height: Size,
    /// Texels deep.
    pub depth: Size,
}

/// The dimensionality of an image together with its size.
#[derive(Clone, Copy, Debug, PartialEq, Eq, Hash, Structural)]
pub enum Kind {
    /// One dimension: width and layers.
    D1(Size, Layer),
    /// Two dimensions: width, height, layers and samples per texel.
    D2(Size, Size, Layer, NumSamples),
    /// Three dimensions: width, height and depth.
    D3(Size, Size, Size),
}

/// One use that an image can be put to.
#[derive(Clone, Copy, Debug, PartialEq, Eq, Hash, Structural)]
pub enum ImageUse {
    /// Source of a transfer.
    TransferSrc,
    /// Destination of a transfer.
    TransferDst,
    /// Sampled in a shader.
    Sampled,
    /// Read and written as storage in a shader.
    Storage,
    /// Colour attachment of a framebuffer.
    ColorAttachment,
    /// Depth and stencil attachment of a framebuffer.
    DepthStencilAttachment,
    /// Attachment whose memory may be allocated lazily.
    TransientAttachment,
    /// Input attachment read in a fragment shader.
    InputAttachment,
}

impl ImageUse {
    /// The place of the bit that stands for this use in a [`Usage`].
    pub open spec fn place(self) -> u32 {
        match self {
            ImageUse::TransferSrc => 0,
            ImageUse::TransferDst => 1,
            ImageUse::Sampled => 2,
            ImageUse::Storage => 3,
            ImageUse::ColorAttachment => 4,
            ImageUse::DepthStencilAttachment => 5,
            ImageUse::TransientAttachment => 6,
            ImageUse::InputAttachment => 7,
        }
    }

    /// The bit that stands for this use in a [`Usage`].
    pub open spec fn mask(self) -> u32 {
        1u32 << self.place()
    }

    /// The bit that stands for this use in a [`Usage`].
    pub fn bit(self) -> (bit: u32)
        ensures
            bit == self.mask(),
    {
        assert(1u32 << 0 == 0x1 && 1u32 << 1 == 0x2 && 1u32 << 2 == 0x4 && 1u32 << 3 == 0x8 && 1u32
            << 4 == 0x10 && 1u32 << 5 == 0x20 && 1u32 << 6 == 0x40 && 1u32 << 7 == 0x80)
            by (bit_vector);
        match self {
            ImageUse::TransferSrc => 0x1,
            ImageUse::TransferDst => 0x2,
            ImageUse::Sampled => 0x4,
            ImageUse::Storage => 0x8,
            ImageUse::ColorAttachment => 0x10,
            ImageUse::DepthStencilAttachment => 0x20,
            ImageUse::TransientAttachment => 0x40,
            ImageUse::InputAttachment => 0x80,
        }
    }
}

/// Every use has a bit, and two different uses never share one.
pub proof fn lemma_masks_distinct(a: ImageUse, b: ImageUse)
    ensures
        a.mask() & b.mask() != 0 <==> a == b,
{
    let (i, j) = (a.place(), b.place());
    assert(i < 32 && j < 32 ==> (((1u32 << i) & (1u32 << j) != 0) <==> i == j)) by (bit_vector);
}

/// A set of image uses, kept as one bit per use.
#[derive(Clone, Copy, Debug, PartialEq, Eq, Hash, Structural)]
pub struct Usage {
    /// The bits of the uses in the set.
    pub bits: u32,
}

impl View for Usage {
    type V = Set<ImageUse>;

    /// The uses whose bit is set.
    open spec fn view(&self) -> Set<ImageUse> {
        Set::new(|u: ImageUse| self.bits & u.mask() != 0)
    }
}

impl Usage {
    /// The set that holds one use.
    pub fn only(u: ImageUse) -> (usage: Usage)
        ensures
            usage@ == Set::<ImageUse>::empty().insert(u),
            usage.bits == u.mask(),
    {
        let usage = Usage { bits: u.bit() };
        proof {
            assert forall|v: ImageUse| usage@.contains(v) <==> v == u by {
                lemma_masks_distinct(u, v);
            }
            assert(usage@ =~= Set::<ImageUse>::empty().insert(u));
        }
        usage
    }

    /// The uses of either set.
    pub fn union(self, other: Usage) -> (usage: Usage)
        ensures
            usage@ == self@.union(other@),
            usage.bits == self.bits | other.bits,
    {
        let usage = Usage { bits: self.bits | other.bits };
        proof {
            assert forall|u: ImageUse|
                usage@.contains(u) <==> (self@.contains(u) || other@.contains(u)) by {
                let (a, b, m) = (self.bits, other.bits, u.mask());
                assert(((a | b) & m != 0) <==> (a & m != 0 || b & m != 0)) by (bit_vector);
            }
            assert(usage@ =~= self@.union(other@));
        }
        usage
    }

    /// Whether the set holds the use.
    pub fn contains(&self, u: ImageUse) -> (held: bool)
        ensures
            held == self@.contains(u),
    {
        self.bits & u.bit() != 0
    }
}

} // verus!
