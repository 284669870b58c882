//! Monitor geometry: the rectangle of a display device in virtual-screen
//! coordinates, and the snapshot record the enumerator hands to the core.

use vstd::prelude::*;

verus! {

/// A rectangle in virtual-screen coordinates, `right` and `bottom` exclusive.
#[derive(Clone, Copy, Debug, PartialEq, Eq, Structural)]
pub struct Rect {
    pub left: i32,
    pub top: i32,
    pub right: i32,
    pub bottom: i32,
}

impl Rect {
    pub fn width(&self) -> (w: i32)
        requires
            i32::MIN <= self.right - self.left <= i32::MAX,
        ensures
            w == self.right - self.left,
    {
        self.right - self.left
    }

    pub fn height(&self) -> (h: i32)
        requires
            i32::MIN <= self.bottom - self.top <= i32::MAX,
        ensures
            h == self.bottom - self.top,
    {
        self.bottom - self.top
    }
}

/// One display device as reported by the platform enumerator: a fresh,
/// never-mutated snapshot taken on every overlay activation. The handle the
/// platform uses to identify the monitor is carried as a plain integer.
#[derive(Clone, Debug)]
pub struct MonitorInfo {
    pub id: usize,
    pub rect: Rect,
    pub is_primary: bool,
    pub name: String,
}

} // verus!
