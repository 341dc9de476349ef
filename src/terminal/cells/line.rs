use vstd::prelude::*;

use crate::spatial::point::Point;
use crate::spatial::CellsUnit;

verus! {

/// One row of the grid.
#[derive(Debug, Clone)]
pub struct Line {
    cells: Vec<Cell>,
}

impl View for Line {
    type V = Seq<Option<char>>;

    closed spec fn view(&self) -> Seq<Option<char>> {
        self.cells@.map_values(|cell: Cell| cell@)
    }
}

/// A row of `length` cells, all blank.
pub open spec fn blank_line(length: nat) -> Seq<Option<char>> {
    Seq::new(length, |_i: int| None::<char>)
}

proof fn lemma_update_view(cells: Seq<Cell>, index: int, cell: Cell)
    requires
        0 <= index < cells.len(),
    ensures
        cells.update(index, cell).map_values(|c: Cell| c@) == cells.map_values(|c: Cell| c@).update(
            index,
            cell@,
        ),
{
    assert(cells.update(index, cell).map_values(|c: Cell| c@) =~= cells.map_values(|c: Cell| c@).update(
        index,
        cell@,
    ));
}

impl Line {
    pub fn new(length: usize) -> (r: Self)
        ensures
            r@ == blank_line(length as nat),
    {
        let mut cells: Vec<Cell> = Vec::with_capacity(length);
        let mut i: usize = 0;
        while i < length
            invariant
                i <= length,
                cells@.len() == i,
                forall|j: int| 0 <= j < i ==> (#[trigger] cells@[j])@ == None::<char>,
            decreases length - i,
        {
            cells.push(Cell::new());
            i += 1;
        }
        let r = Self { cells };
        assert(r@ =~= blank_line(length as nat));
        r
    }

    /// The cells of this row, left to right.
    pub fn iter(&self) -> (r: &[Cell])
        ensures
            r@.map_values(|cell: Cell| cell@) == self@,
            r@.len() == self@.len(),
            forall|i: int| 0 <= i < r@.len() ==> (#[trigger] r@[i])@ == self@[i],
    {
        self.cells.as_slice()
    }

    pub fn cell_mut(&mut self, index: usize) -> (r: &mut Cell)
        requires
            index < old(self)@.len(),
        ensures
            (*r)@ == old(self)@[index as int],
            final(self)@ == old(self)@.update(index as int, (*final(r))@),
    {
        let ghost cells = self.cells@;
        let r = &mut self.cells[index];
        proof {
            lemma_update_view(cells, index as int, *final(r));
        }
        r
    }

    /// Blanks every cell of this row.
    pub fn clear(&mut self)
        ensures
            final(self)@ == blank_line(old(self)@.len()),
    {
        let length = self.cells.len();
        let mut i: usize = 0;
        while i < length
            invariant
                i <= length,
                self.cells@.len() == length,
                forall|j: int| 0 <= j < i ==> (#[trigger] self.cells@[j])@ == None::<char>,
            decreases length - i,
        {
            self.cells.set(i, Cell::new());
            i += 1;
        }
        assert(self@ =~= blank_line(length as nat));
    }
}

/// One position of the grid: a character, or blank.
#[derive(Debug, Copy, Clone)]
pub struct Cell {
    character: Option<char>,
}

impl View for Cell {
    type V = Option<char>;

    closed spec fn view(&self) -> Option<char> {
        self.character
    }
}

impl Cell {
    pub fn new() -> (r: Self)
        ensures
            r@ == None::<char>,
    {
        Self { character: None }
    }

    pub fn character_mut(&mut self) -> (r: &mut Option<char>)
        ensures
            *r == old(self)@,
            final(self)@ == *final(r),
    {
        &mut self.character
    }

    pub fn character(&self) -> (r: Option<char>)
        ensures
            r == self@,
    {
        self.character
    }
}

/// What has to be drawn again after a change of the grid.
#[derive(Debug, Copy, Clone, PartialEq, Eq)]
pub enum RendererAction {
    /// Every row moved: the whole grid.
    RenderAll,
    /// Only this cell changed.
    RenderCell(Point<CellsUnit>),
}

} // verus!
