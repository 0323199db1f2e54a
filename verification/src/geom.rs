//! Plain geometry values: window positions and sizes in physical pixels.

use vstd::prelude::*;

verus! {

/// A window position on the virtual desktop, in physical pixels.
/// Coordinates may be negative (a monitor left of or above the primary one).
#[derive(Clone, Copy, Debug, PartialEq, Eq, Structural)]
pub struct Pos {
    pub x: i32,
    pub y: i32,
}

/// A window or surface extent in physical pixels.
#[derive(Clone, Copy, Debug, PartialEq, Eq, Structural)]
pub struct Size {
    pub width: u32,
    pub height: u32,
}

impl Pos {
    pub fn new(x: i32, y: i32) -> (r: Pos)
        ensures
            r == (Pos { x, y }),
    {
        Pos { x, y }
    }
}

impl Size {
    pub fn new(width: u32, height: u32) -> (r: Size)
        ensures
            r == (Size { width, height }),
    {
        Size { width, height }
    }
}

/// The sum of a window-local point and the window's origin, clamped to the
/// representable coordinate range: the virtual-desktop coordinate of the point.
pub open spec fn offset_coord(local: int, origin: int) -> int {
    let s = local + origin;
    if s < i32::MIN as int {
        i32::MIN as int
    } else if s > i32::MAX as int {
        i32::MAX as int
    } else {
        s
    }
}

/// The window-local position carried into the single virtual coordinate
/// space spanning all viewports, given the window's origin.
pub open spec fn virtual_pos(local: Pos, origin: Pos) -> Pos {
    Pos {
        x: offset_coord(local.x as int, origin.x as int) as i32,
        y: offset_coord(local.y as int, origin.y as int) as i32,
    }
}

/// Translates a window-local position into the single virtual coordinate
/// space spanning all viewports, given the window's origin.
pub fn offset_pos(local: Pos, origin: Pos) -> (r: Pos)
    ensures
        r == virtual_pos(local, origin),
{
    Pos { x: clamped_sum(local.x, origin.x), y: clamped_sum(local.y, origin.y) }
}

fn clamped_sum(a: i32, b: i32) -> (r: i32)
    ensures
        r as int == offset_coord(a as int, b as int),
{
    let s: i64 = a as i64 + b as i64;
    if s < i32::MIN as i64 {
        i32::MIN
    } else if s > i32::MAX as i64 {
        i32::MAX
    } else {
        s as i32
    }
}

} // verus!
