use vstd::prelude::*;

verus! {

/// Height in pixels of one text row on the display.
pub const LINE_HEIGHT: i32 = 12;

/// The y coordinate of the top of text row `index` (rows are 12 pixels apart, the first
/// at 0), with the row number taken as an `i32`.
pub fn line_top(index: usize) -> (r: i32)
    requires
        i32::MIN <= (index as i32) * LINE_HEIGHT <= i32::MAX,
    ensures
        r == (index as i32) * LINE_HEIGHT,
        index <= i32::MAX ==> r == index * 12,
{
    index as i32 * LINE_HEIGHT
}

} // verus!
