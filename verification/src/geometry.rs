//! Window sizes and the per-frame screen descriptor.

use vstd::prelude::*;

verus! {

/// A window size in physical pixels. Mutated only by resize events; the
/// engine keeps it equal to the platform's current window size.
#[derive(Clone, Copy, PartialEq, Eq, Structural, Debug)]
pub struct Size {
    pub width: u32,
    pub height: u32,
}

impl Size {
    /// A size at which a presentation chain can exist: both dimensions
    /// are nonzero. A minimized window reports a zero dimension.
    pub open spec fn spec_positive(self) -> bool {
        self.width > 0 && self.height > 0
    }

    pub fn new(width: u32, height: u32) -> (s: Size)
        ensures
            s.width == width,
            s.height == height,
    {
        Size { width, height }
    }

    pub fn positive(&self) -> (r: bool)
        ensures
            r == self.spec_positive(),
    {
        self.width > 0 && self.height > 0
    }
}

/// Resolution and scale handed to the upload and encode steps each frame,
/// so UI coordinates map onto the current surface. Derived from the current
/// `Size` and the window's scale factor; never stored across frames.
///
/// The scale factor is carried in thousandths, so 1000 stands for a scale
/// of one and 1500 for a typical high-density display.
#[derive(Clone, Copy, PartialEq, Eq, Structural, Debug)]
pub struct ScreenDescriptor {
    pub physical_width: u32,
    pub physical_height: u32,
    pub scale_factor_milli: u32,
}

impl ScreenDescriptor {
    pub fn of(size: Size, scale_factor_milli: u32) -> (d: ScreenDescriptor)
        ensures
            d.physical_width == size.width,
            d.physical_height == size.height,
            d.scale_factor_milli == scale_factor_milli,
    {
        ScreenDescriptor {
            physical_width: size.width,
            physical_height: size.height,
            scale_factor_milli,
        }
    }
}

} // verus!
