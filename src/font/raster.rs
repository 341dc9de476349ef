use vstd::prelude::*;

use crate::spatial::point::Point;
use crate::spatial::PixelsUnit;

verus! {

/// Where, inside its cell, the pixel at `index` of a glyph's row-major raster of
/// `width` columns goes: `xmin` columns in, and `top` rows down from the cell's top.
pub fn raster_point(index: usize, width: usize, xmin: i32, top: i32) -> (r: Point<PixelsUnit>)
    requires
        width > 0,
        0 <= xmin + (index % width) as int <= u32::MAX,
        0 <= top + (index / width) as int <= u32::MAX,
    ensures
        r.x() == xmin + (index % width) as int,
        r.y() == top + (index / width) as int,
{
    let column = (index % width) as i64;
    let row = (index / width) as i64;
    proof {
        assert(index / width <= index) by (nonlinear_arith)
            requires
                width > 0,
        ;
    }
    let horizontal_distance = xmin as i64 + column;
    let vertical_distance = top as i64 + row;
    Point::new(horizontal_distance as u32, vertical_distance as u32)
}

} // verus!
