//! The geometry record: where a window sits and how large it is.

use vstd::prelude::*;

verus! {

/// Width of the window when nothing was stored, in pixels.
pub const DEFAULT_WIDTH: u32 = 800;

/// Height of the window when nothing was stored, in pixels.
pub const DEFAULT_HEIGHT: u32 = 600;

/// Last known placement of the tracked window, in physical pixels.
#[derive(Clone, Copy, Debug, PartialEq, Eq, Structural)]
pub struct WindowGeometry {
    pub width: u32,
    pub height: u32,
    pub x: i32,
    pub y: i32,
}

impl WindowGeometry {
    /// A record may be stored only while the window has an area: a minimized
    /// window reports a width or height of zero.
    pub open spec fn persistable(self) -> bool {
        self.width > 0 && self.height > 0
    }

    /// The record with another size and the same position.
    pub open spec fn resized(self, width: u32, height: u32) -> WindowGeometry {
        WindowGeometry { width, height, x: self.x, y: self.y }
    }

    /// The record with another position and the same size.
    pub open spec fn moved(self, x: i32, y: i32) -> WindowGeometry {
        WindowGeometry { width: self.width, height: self.height, x, y }
    }

    /// The placement used when no record can be read: 800 by 600 at the origin.
    pub open spec fn fallback() -> WindowGeometry {
        WindowGeometry { width: DEFAULT_WIDTH, height: DEFAULT_HEIGHT, x: 0, y: 0 }
    }

    pub fn new(width: u32, height: u32, x: i32, y: i32) -> (g: WindowGeometry)
        ensures
            g == (WindowGeometry { width, height, x, y }),
    {
        WindowGeometry { width, height, x, y }
    }

    pub fn is_persistable(&self) -> (ok: bool)
        ensures
            ok == self.persistable(),
    {
        self.width > 0 && self.height > 0
    }

    pub fn with_size(&self, width: u32, height: u32) -> (g: WindowGeometry)
        ensures
            g == self.resized(width, height),
    {
        WindowGeometry { width, height, x: self.x, y: self.y }
    }

    pub fn with_position(&self, x: i32, y: i32) -> (g: WindowGeometry)
        ensures
            g == self.moved(x, y),
    {
        WindowGeometry { width: self.width, height: self.height, x, y }
    }
}

impl Default for WindowGeometry {
    fn default() -> (g: WindowGeometry)
        ensures
            g == WindowGeometry::fallback(),
    {
        WindowGeometry { width: DEFAULT_WIDTH, height: DEFAULT_HEIGHT, x: 0, y: 0 }
    }
}

} // verus!
