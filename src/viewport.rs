use vstd::prelude::*;

verus! {

/// A pixel of a render target, counted from its bottom-left corner as the
/// graphics API counts them.
#[derive(Clone, Copy, Debug, PartialEq, Eq, Structural)]
pub struct Pixel {
    pub x: u32,
    pub y: u32,
}

/// Whether the screen pixel at column `x` and row `y` (rows counted from the
/// top) lies inside a viewport of `width` by `height` pixels.
pub open spec fn in_viewport(x: int, y: int, width: int, height: int) -> bool {
    0 <= x < width && 0 <= y < height
}

/// The pick-buffer pixel under the pointer, whose screen pixel is at column
/// `x` and row `y` counted from the top. A pointer outside the viewport reads
/// no pixel at all, which the caller treats as a miss.
pub fn pick_pixel(x: i64, y: i64, width: u32, height: u32) -> (r: Option<Pixel>)
    ensures
        r is Some <==> in_viewport(x as int, y as int, width as int, height as int),
        r matches Some(p) ==> p.x == x && p.y == height - 1 - y,
{
    if 0 <= x && x < width as i64 && 0 <= y && y < height as i64 {
        Some(Pixel { x: x as u32, y: (height as i64 - 1 - y) as u32 })
    } else {
        None
    }
}

} // verus!
