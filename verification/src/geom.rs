use vstd::prelude::*;

verus! {

/// A two-dimensional vector in whole world units (the engine's pixels), used
/// for both translations and linear velocities.
#[derive(Clone, Copy, Debug, PartialEq, Eq, Structural)]
pub struct Vec2i {
    pub x: i32,
    pub y: i32,
}

impl Vec2i {
    pub open spec fn spec_zero() -> Vec2i {
        Vec2i { x: 0, y: 0 }
    }

    pub fn zero() -> (r: Vec2i)
        ensures
            r == Vec2i::spec_zero(),
    {
        Vec2i { x: 0, y: 0 }
    }
}

/// The primary window's size in whole pixels, read back from the host engine
/// each frame.  The world origin sits at the window's centre, so the visible
/// range on each axis runs from minus half the size to plus half the size.
#[derive(Clone, Copy, Debug, PartialEq, Eq, Structural)]
pub struct WindowSize {
    pub width: i32,
    pub height: i32,
}

impl WindowSize {
    /// The window sizes the game can run at: both sides positive, and the
    /// width small enough that the spawn-column arithmetic stays within
    /// `i32`.
    pub open spec fn wf(self) -> bool {
        &&& 0 < self.width
        &&& self.width * 6 <= i32::MAX
        &&& 0 < self.height
    }
}

} // verus!
