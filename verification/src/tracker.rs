//! The geometry tracker: the last known size and position of the window.
//!
//! The toolkit reports a new size and a new position in separate
//! notifications. Each is merged with the last known value of the other, so
//! that neither overwrites it.

use crate::geometry::WindowGeometry;
use vstd::prelude::*;

verus! {

/// A change of size and a change of position can be taken in either order.
pub proof fn lemma_size_and_position_are_independent(
    g: WindowGeometry,
    width: u32,
    height: u32,
    x: i32,
    y: i32,
)
    ensures
        g.resized(width, height).moved(x, y) == g.moved(x, y).resized(width, height),
        g.resized(width, height).moved(x, y) == (WindowGeometry { width, height, x, y }),
{
}

/// Of two changes of the same kind the later one stands, and the other half
/// of the record is untouched by both.
pub proof fn lemma_last_notification_wins(
    g: WindowGeometry,
    w1: u32,
    h1: u32,
    w2: u32,
    h2: u32,
    x1: i32,
    y1: i32,
    x2: i32,
    y2: i32,
)
    ensures
        g.resized(w1, h1).resized(w2, h2) == g.resized(w2, h2),
        g.moved(x1, y1).moved(x2, y2) == g.moved(x2, y2),
        g.resized(w1, h1).x == g.x && g.resized(w1, h1).y == g.y,
        g.moved(x1, y1).width == g.width && g.moved(x1, y1).height == g.height,
{
}

/// Follows the window's geometry from one notification to the next.
pub struct GeometryTracker {
    last: WindowGeometry,
}

impl View for GeometryTracker {
    type V = WindowGeometry;

    closed spec fn view(&self) -> WindowGeometry {
        self.last
    }
}

impl GeometryTracker {
    /// A tracker that starts from the geometry given to the window.
    pub fn new(initial: WindowGeometry) -> (tracker: GeometryTracker)
        ensures
            tracker@ == initial,
    {
        GeometryTracker { last: initial }
    }

    /// The last known geometry.
    pub fn last(&self) -> (g: WindowGeometry)
        ensures
            g == self@,
    {
        self.last
    }

    /// Takes a new size, keeps the position, and gives the record to save.
    pub fn on_resized(&mut self, width: u32, height: u32) -> (record: WindowGeometry)
        ensures
            final(self)@ == old(self)@.resized(width, height),
            record == final(self)@,
    {
        self.last = self.last.with_size(width, height);
        self.last
    }

    /// Takes a new position, keeps the size, and gives the record to save.
    pub fn on_moved(&mut self, x: i32, y: i32) -> (record: WindowGeometry)
        ensures
            final(self)@ == old(self)@.moved(x, y),
            record == final(self)@,
    {
        self.last = self.last.with_position(x, y);
        self.last
    }
}

} // verus!
