use vstd::prelude::*;

pub mod dimension;
pub mod point;

verus! {

/// Marker for sizes and positions measured in display pixels.
#[derive(Debug, Copy, Clone, PartialEq, Eq)]
pub struct PixelsUnit;

/// Marker for sizes and positions measured in grid cells.
#[derive(Debug, Copy, Clone, PartialEq, Eq)]
pub struct CellsUnit;

} // verus!
