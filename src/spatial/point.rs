use std::marker::PhantomData;

use vstd::prelude::*;

use crate::spatial::dimension::Dimensions;
use crate::spatial::{CellsUnit, PixelsUnit};

verus! {

/// A position given as a distance from the left edge and from the top edge.
#[derive(Debug, Copy, PartialEq, Eq)]
pub struct Point<Unit> {
    pub horizontal_distance: u32,
    pub vertical_distance: u32,
    pub unit: PhantomData<Unit>,
}

impl<Unit> Clone for Point<Unit> {
    fn clone(&self) -> (r: Self)
        ensures
            r == *self,
    {
        Point { horizontal_distance: self.horizontal_distance, vertical_distance: self.vertical_distance, unit: PhantomData }
    }
}

impl<Unit> Point<Unit> {
    pub open spec fn x(&self) -> nat {
        self.horizontal_distance as nat
    }

    pub open spec fn y(&self) -> nat {
        self.vertical_distance as nat
    }

    pub fn new(horizontal_distance: u32, vertical_distance: u32) -> (r: Self)
        ensures
            r == (Point::<Unit> { horizontal_distance, vertical_distance, unit: PhantomData }),
            r.x() == horizontal_distance,
            r.y() == vertical_distance,
    {
        Self { horizontal_distance, vertical_distance, unit: PhantomData }
    }

    /// The point moved by a signed offset on each axis.
    pub fn shifted(&self, horizontal_shift: i32, vertical_shift: i32) -> (r: Point<Unit>)
        requires
            0 <= self.x() + horizontal_shift <= u32::MAX,
            0 <= self.y() + vertical_shift <= u32::MAX,
        ensures
            r.x() == self.x() + horizontal_shift,
            r.y() == self.y() + vertical_shift,
    {
        let horizontal_distance = (self.horizontal_distance as i64 + horizontal_shift as i64) as u32;
        let vertical_distance = (self.vertical_distance as i64 + vertical_shift as i64) as u32;
        Point::new(horizontal_distance, vertical_distance)
    }

    /// The point, taken relative to `origin`, expressed relative to the origin of `origin`.
    pub fn with_origin(&self, origin: Point<Unit>) -> (r: Point<Unit>)
        requires
            origin.x() + self.x() <= u32::MAX,
            origin.y() + self.y() <= u32::MAX,
        ensures
            r.x() == origin.x() + self.x(),
            r.y() == origin.y() + self.y(),
    {
        let horizontal_distance = origin.horizontal_distance + self.horizontal_distance;
        let vertical_distance = origin.vertical_distance + self.vertical_distance;
        Point::new(horizontal_distance, vertical_distance)
    }

    pub fn horizontal_distance(&self) -> (r: u32)
        ensures
            r == self.x(),
    {
        self.horizontal_distance
    }

    pub fn vertical_distance(&self) -> (r: u32)
        ensures
            r == self.y(),
    {
        self.vertical_distance
    }
}

impl Point<CellsUnit> {
    /// The top-left pixel of this cell, for cells of `cell_size` pixels.
    pub fn to_pixels(self, cell_size: Dimensions<PixelsUnit>) -> (r: Point<PixelsUnit>)
        requires
            self.x() * cell_size.w() <= u32::MAX,
            self.y() * cell_size.h() <= u32::MAX,
        ensures
            r.x() == self.x() * cell_size.w(),
            r.y() == self.y() * cell_size.h(),
    {
        let horizontal_distance = self.horizontal_distance * cell_size.width();
        let vertical_distance = self.vertical_distance * cell_size.height();
        Point::new(horizontal_distance, vertical_distance)
    }
}

} // verus!
