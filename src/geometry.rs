//! Cursor confinement geometry.

use vstd::prelude::*;

verus! {

/// A screen rectangle: left, top, right and bottom edges in pixels.
#[derive(Debug, Clone, Copy, PartialEq, Eq, Structural)]
pub struct Rect {
    pub left: i32,
    pub top: i32,
    pub right: i32,
    pub bottom: i32,
}

/// `v` fits in an `i32`.
pub open spec fn fits_i32(v: int) -> bool {
    i32::MIN <= v <= i32::MAX
}

/// The region the cursor is confined to for a window with bounds `window`:
/// each edge moved inward by `pad_x` (left and right) or `pad_y` (top and
/// bottom). `None` when an edge would leave the range of screen coordinates.
pub fn confinement_region(window: Rect, pad_x: u32, pad_y: u32) -> (r: Option<Rect>)
    ensures
        r.is_some() <==> (fits_i32(window.left + pad_x) && fits_i32(window.top + pad_y)
            && fits_i32(window.right - pad_x) && fits_i32(window.bottom - pad_y)),
        r.is_some() ==> r.unwrap().left == window.left + pad_x && r.unwrap().top == window.top
            + pad_y && r.unwrap().right == window.right - pad_x && r.unwrap().bottom
            == window.bottom - pad_y,
{
    let left = window.left as i64 + pad_x as i64;
    let top = window.top as i64 + pad_y as i64;
    let right = window.right as i64 - pad_x as i64;
    let bottom = window.bottom as i64 - pad_y as i64;
    if left > i32::MAX as i64 || top > i32::MAX as i64 || right < i32::MIN as i64 || bottom
        < i32::MIN as i64 {
        None
    } else {
        Some(Rect { left: left as i32, top: top as i32, right: right as i32, bottom: bottom as i32 })
    }
}

} // verus!
