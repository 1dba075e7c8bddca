use vstd::prelude::*;

verus! {

/// The center of a rectangle, rounded toward its top left.
pub fn center(left: i32, top: i32, right: i32, bottom: i32) -> (r: (i32, i32))
    requires
        i32::MIN <= right - left <= i32::MAX,
        i32::MIN <= bottom - top <= i32::MAX,
    ensures
        r.0 == left + trunc_half(right - left),
        r.1 == top + trunc_half(bottom - top),
{
    let w = right - left;
    let h = bottom - top;
    (left + w / 2, top + h / 2)
}

/// Half of `x`, rounded toward zero.
pub open spec fn trunc_half(x: int) -> int {
    if x >= 0 {
        x / 2
    } else {
        -((-x) / 2)
    }
}

/// Where a dragged window goes when the cursor moves from `prev` to `now`.
pub fn drag_to(win: (i32, i32), prev: (i32, i32), now: (i32, i32)) -> (r: (i32, i32))
    requires
        i32::MIN <= now.0 - prev.0 <= i32::MAX,
        i32::MIN <= now.1 - prev.1 <= i32::MAX,
        i32::MIN <= win.0 + (now.0 - prev.0) <= i32::MAX,
        i32::MIN <= win.1 + (now.1 - prev.1) <= i32::MAX,
    ensures
        r == ((win.0 + (now.0 - prev.0)) as i32, (win.1 + (now.1 - prev.1)) as i32),
{
    (win.0 + (now.0 - prev.0), win.1 + (now.1 - prev.1))
}

} // verus!
