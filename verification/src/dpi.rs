//! Sizes in physical pixels.

use vstd::prelude::*;

verus! {

/// A size in physical pixels.
#[derive(Debug, Copy, Clone, Eq, PartialEq, Structural, Ord, PartialOrd, Default, Hash)]
pub struct PhysicalSize<P = u32> {
    pub width: P,
    pub height: P,
}

impl<P> PhysicalSize<P> {
    /// Builds a size from its two components.
    pub fn new(width: P, height: P) -> (size: Self)
        ensures
            size.width == width,
            size.height == height,
    {
        Self { width, height }
    }
}

} // verus!
