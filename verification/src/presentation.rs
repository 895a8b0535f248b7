//! The presentation chain: the descriptor of the swappable image chain and
//! its validity across resizes and surface loss.

use vstd::prelude::*;
use crate::geometry::Size;
use crate::error::EngineError;

verus! {

/// How the chain's images may be used. The shell only ever renders into
/// them as a color output attachment.
#[derive(Clone, Copy, PartialEq, Eq, Structural, Debug)]
pub enum TextureUsage {
    OutputAttachment,
}

/// The pixel format of the chain's images.
#[derive(Clone, Copy, PartialEq, Eq, Structural, Debug)]
pub enum ColorFormat {
    Bgra8UnormSrgb,
}

/// When a completed frame is shown. First-in-first-out is vsync-locked
/// ordered delivery.
#[derive(Clone, Copy, PartialEq, Eq, Structural, Debug)]
pub enum PresentMode {
    Fifo,
}

/// The descriptor a presentation chain is built against. Its width and
/// height are always positive: a chain cannot exist at a zero size.
#[derive(Clone, Copy, PartialEq, Eq, Structural, Debug)]
pub struct PresentationDescriptor {
    pub usage: TextureUsage,
    pub color_format: ColorFormat,
    pub width: u32,
    pub height: u32,
    pub present_mode: PresentMode,
}

impl PresentationDescriptor {
    /// The descriptor invariant: both dimensions are positive.
    pub open spec fn wf(self) -> bool {
        self.width > 0 && self.height > 0
    }

    /// The descriptor the shell starts from: color output in BGRA sRGB,
    /// vsync-locked delivery, at the given window size.
    pub fn initial(size: Size) -> (d: PresentationDescriptor)
        requires
            size.spec_positive(),
        ensures
            d == PresentationDescriptor::spec_initial(size),
            d.wf(),
    {
        PresentationDescriptor {
            usage: TextureUsage::OutputAttachment,
            color_format: ColorFormat::Bgra8UnormSrgb,
            width: size.width,
            height: size.height,
            present_mode: PresentMode::Fifo,
        }
    }

    pub open spec fn spec_initial(size: Size) -> PresentationDescriptor {
        PresentationDescriptor {
            usage: TextureUsage::OutputAttachment,
            color_format: ColorFormat::Bgra8UnormSrgb,
            width: size.width,
            height: size.height,
            present_mode: PresentMode::Fifo,
        }
    }
}

/// One presentable image handed out by the chain; its dimensions are those
/// of the chain's descriptor at acquisition time.
#[derive(Clone, Copy, PartialEq, Eq, Structural, Debug)]
pub struct FrameTarget {
    pub width: u32,
    pub height: u32,
}

/// The engine's exclusively owned image chain. It is bound one-to-one to
/// its descriptor and stops being usable the instant the window's size
/// diverges from the descriptor or the surface is lost, until re-created.
#[derive(Clone, Copy, PartialEq, Eq, Structural, Debug)]
pub struct PresentationChain {
    pub descriptor: PresentationDescriptor,
    /// False once the surface is lost or a resize was delivered without a
    /// re-creation; such a chain must not hand out frames.
    pub usable: bool,
}

/// One resize delivery as the chain sees it: at a positive size the chain
/// is re-created against a descriptor rewritten to that size; at a zero
/// size no chain can exist, so the old descriptor stays and the chain is
/// merely marked unusable.
pub open spec fn chain_step(c: PresentationChain, new_size: Size) -> PresentationChain {
    if new_size.spec_positive() {
        PresentationChain {
            descriptor: PresentationDescriptor {
                width: new_size.width,
                height: new_size.height,
                ..c.descriptor
            },
            usable: true,
        }
    } else {
        PresentationChain { descriptor: c.descriptor, usable: false }
    }
}

/// The chain after a whole sequence of resize deliveries, oldest first.
pub open spec fn chain_after(c: PresentationChain, sizes: Seq<Size>) -> PresentationChain
    decreases sizes.len(),
{
    if sizes.len() == 0 {
        c
    } else {
        chain_step(chain_after(c, sizes.drop_last()), sizes.last())
    }
}

impl PresentationChain {
    /// Whether acquisition succeeds: the chain is usable and its descriptor
    /// matches the window's current, positive size.
    pub open spec fn spec_can_acquire(self, window: Size) -> bool {
        &&& self.usable
        &&& self.descriptor.width == window.width
        &&& self.descriptor.height == window.height
        &&& window.spec_positive()
    }

    /// Create a chain against a descriptor.
    pub fn create(descriptor: PresentationDescriptor) -> (c: PresentationChain)
        requires
            descriptor.wf(),
        ensures
            c.descriptor == descriptor,
            c.usable,
    {
        PresentationChain { descriptor, usable: true }
    }

    /// Rewrite the descriptor to the new size and re-create the chain.
    /// Must be invoked before the next `acquire_frame` once a resize has
    /// been observed.
    pub fn resize(&mut self, new_size: Size)
        requires
            new_size.spec_positive(),
        ensures
            *final(self) == chain_step(*old(self), new_size),
    {
        self.descriptor.width = new_size.width;
        self.descriptor.height = new_size.height;
        self.usable = true;
    }

    /// Record that the surface was lost or the window's size diverged from
    /// the descriptor: the chain must not hand out frames until re-created.
    pub fn invalidate(&mut self)
        ensures
            final(self).descriptor == old(self).descriptor,
            !final(self).usable,
    {
        self.usable = false;
    }

    /// Acquire the current presentable image. Fails with a presentation
    /// error exactly when the chain is unusable or stale against the
    /// window's current size.
    pub fn acquire_frame(&self, window: Size) -> (r: Result<FrameTarget, EngineError>)
        ensures
            r is Ok <==> self.spec_can_acquire(window),
            r matches Ok(t) ==> t.width == self.descriptor.width && t.height == self.descriptor.height,
            r matches Err(e) ==> e is PresentationStale,
    {
        if self.usable
            && self.descriptor.width == window.width
            && self.descriptor.height == window.height
            && window.positive()
        {
            Ok(FrameTarget { width: self.descriptor.width, height: self.descriptor.height })
        } else {
            Err(EngineError::PresentationStale)
        }
    }
}

/// Law: after any nonempty sequence of resize deliveries ending at a
/// positive size, the chain's descriptor holds exactly the most recently
/// delivered size and the chain is usable — no intermediate size survives,
/// whatever came before.
pub proof fn lemma_resizes_settle(c: PresentationChain, sizes: Seq<Size>)
    requires
        sizes.len() > 0,
        sizes.last().spec_positive(),
    ensures
        chain_after(c, sizes).descriptor.width == sizes.last().width,
        chain_after(c, sizes).descriptor.height == sizes.last().height,
        chain_after(c, sizes).usable,
{
    assert(chain_after(c, sizes) == chain_step(chain_after(c, sizes.drop_last()), sizes.last()));
}

/// Law: a forced re-creation at the window's current size makes the very
/// next acquisition succeed if and only if that size is positive — a lost
/// or stale chain is always recoverable by one resize-and-retry, except at
/// a zero size, where rendering must be skipped instead.
pub proof fn lemma_recover_by_resize(c: PresentationChain, window: Size)
    ensures
        chain_step(c, window).spec_can_acquire(window) <==> window.spec_positive(),
{
}

} // verus!
