//! The coordinate-rotation transform.
//!
//! The panel is mounted rotated by a quarter turn, so layout code works in
//! logical coordinates and every pixel write is remapped onto the physical
//! surface: a logical point `(x, y)` lands on `(W - y, x)`, where `W` is the
//! physical surface's width, and the logical bounding box swaps the physical
//! width and height. The transform owns no state; the host-side adapter maps
//! each pixel of a draw call through it lazily.

use vstd::prelude::*;

verus! {

/// A pixel position, in either logical or physical coordinates.
#[derive(Clone, Copy, Debug, PartialEq, Eq, Structural)]
pub struct ScreenPoint {
    pub x: i32,
    pub y: i32,
}

/// Where the rotation sends a logical point, over unbounded integers.
pub open spec fn rotate_point_spec(x: int, y: int, parent_width: int) -> (int, int) {
    (parent_width - y, x)
}

/// How the rotation presents the physical surface's dimensions.
pub open spec fn rotate_dims_spec(w: int, h: int) -> (int, int) {
    (h, w)
}

/// Remaps one logical point onto the physical surface of width
/// `parent_width`.
pub fn rotate_point(p: ScreenPoint, parent_width: i32) -> (r: ScreenPoint)
    requires
        i32::MIN <= parent_width - p.y <= i32::MAX,
    ensures
        (r.x as int, r.y as int) == rotate_point_spec(p.x as int, p.y as int, parent_width as int),
{
    ScreenPoint { x: parent_width - p.y, y: p.x }
}

/// Swaps a physical width and height into the logical bounding box the
/// consumers of the rotated surface see.
pub fn rotate_dims(w: u32, h: u32) -> (r: (u32, u32))
    ensures
        (r.0 as int, r.1 as int) == rotate_dims_spec(w as int, h as int),
{
    (h, w)
}

/// Swapping width and height twice gives the box back unchanged: the
/// dimension part of the rotation is an involution.
pub proof fn lemma_rotate_dims_involution(w: int, h: int)
    ensures
        rotate_dims_spec(rotate_dims_spec(w, h).0, rotate_dims_spec(w, h).1) == (w, h),
{
}

/// The logical origin `(0, 0)` lands on the physical point `(W, 0)`.
pub proof fn lemma_rotate_origin(parent_width: int)
    ensures
        rotate_point_spec(0, 0, parent_width) == (parent_width, 0int),
{
}

} // verus!
