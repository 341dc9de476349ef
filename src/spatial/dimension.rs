use std::marker::PhantomData;

use vstd::prelude::*;

use crate::spatial::point::Point;
use crate::spatial::{CellsUnit, PixelsUnit};

verus! {

/// A width and a height.
#[derive(Debug, Copy, PartialEq, Eq)]
pub struct Dimensions<Unit> {
    pub width: u32,
    pub height: u32,
    pub unit: PhantomData<Unit>,
}

impl<Unit> Clone for Dimensions<Unit> {
    fn clone(&self) -> (r: Self)
        ensures
            r == *self,
    {
        Dimensions { width: self.width, height: self.height, unit: PhantomData }
    }
}

impl<Unit> Dimensions<Unit> {
    pub open spec fn w(&self) -> nat {
        self.width as nat
    }

    pub open spec fn h(&self) -> nat {
        self.height as nat
    }

    pub fn new(width: u32, height: u32) -> (r: Self)
        ensures
            r.w() == width,
            r.h() == height,
    {
        Self { width, height, unit: PhantomData }
    }

    /// Index of `point` in a row-major buffer of this size.
    pub fn vector_index(&self, point: Point<Unit>) -> (r: usize)
        requires
            self.w() * point.y() + point.x() <= usize::MAX,
        ensures
            r == self.w() * point.y() + point.x(),
    {
        proof {
            assert(self.w() * point.y() <= usize::MAX);
        }
        self.width as usize * point.vertical_distance() as usize
            + point.horizontal_distance() as usize
    }

    /// Whether `point` lies inside: each coordinate below the matching side.
    pub fn contains(&self, point: Point<Unit>) -> (r: bool)
        ensures
            r == (point.x() < self.w() && point.y() < self.h()),
    {
        point.horizontal_distance() < self.width && point.vertical_distance() < self.height
    }

    pub fn width(&self) -> (r: u32)
        ensures
            r == self.w(),
    {
        self.width
    }

    pub fn height(&self) -> (r: u32)
        ensures
            r == self.h(),
    {
        self.height
    }
}

impl Dimensions<PixelsUnit> {
    /// How many whole cells of `cell_size` fit along each side.
    pub fn fit_cells(&self, cell_size: Dimensions<PixelsUnit>) -> (r: Dimensions<CellsUnit>)
        requires
            cell_size.w() > 0,
            cell_size.h() > 0,
        ensures
            r.w() == self.w() / cell_size.w(),
            r.h() == self.h() / cell_size.h(),
    {
        let width = self.width / cell_size.width;
        let height = self.height / cell_size.height;
        Dimensions::new(width, height)
    }
}

} // verus!
