use std::marker::PhantomData;

use vstd::arithmetic::div_mod::lemma_fundamental_div_mod_converse;
use vstd::prelude::*;

use crate::spatial::dimension::Dimensions;
use crate::spatial::point::Point;
use crate::spatial::CellsUnit;
use crate::terminal::cells::line::{blank_line, Cell, Line, RendererAction};

pub mod line;

verus! {

/// The point of column `x` and row `y`.
pub open spec fn cell_at(x: nat, y: nat) -> Point<CellsUnit> {
    Point { horizontal_distance: x as u32, vertical_distance: y as u32, unit: PhantomData }
}

/// `height` blank rows of `width` cells.
pub open spec fn blank_rows(width: nat, height: nat) -> Seq<Seq<Option<char>>> {
    Seq::new(height, |_i: int| blank_line(width))
}

/// The grid as values: its size, its rows from top to bottom, and the cursor.
pub struct GridModel {
    pub width: nat,
    pub height: nat,
    pub rows: Seq<Seq<Option<char>>>,
    pub column: nat,
    pub row: nat,
}

impl GridModel {
    /// Exactly `height` rows of `width` cells, and the cursor on one of them.
    pub open spec fn wf(self) -> bool {
        &&& 1 <= self.width <= u32::MAX
        &&& 1 <= self.height <= u32::MAX
        &&& self.rows.len() == self.height
        &&& forall|i: int| 0 <= i < self.height ==> (#[trigger] self.rows[i]).len() == self.width
        &&& self.column < self.width
        &&& self.row < self.height
    }

    pub open spec fn cursor(self) -> Point<CellsUnit> {
        cell_at(self.column, self.row)
    }

    /// The rows with `character` at the cursor.
    pub open spec fn written(self, character: Option<char>) -> Self {
        GridModel {
            rows: self.rows.update(
                self.row as int,
                self.rows[self.row as int].update(self.column as int, character),
            ),
            ..self
        }
    }

    pub open spec fn carriage_return(self) -> Self {
        GridModel { column: 0, ..self }
    }

    /// One column left; from the first column, to the end of the row above; no move
    /// from the first cell.
    pub open spec fn move_back(self) -> Self {
        if self.column > 0 {
            GridModel { column: (self.column - 1) as nat, ..self }
        } else if self.row > 0 {
            GridModel { column: (self.width - 1) as nat, row: (self.row - 1) as nat, ..self }
        } else {
            self
        }
    }

    pub open spec fn move_up(self) -> Self {
        if self.row > 0 {
            GridModel { row: (self.row - 1) as nat, ..self }
        } else {
            self
        }
    }

    /// The top row dropped and a blank row added at the bottom.
    pub open spec fn scrolled(self) -> Self {
        GridModel { rows: self.rows.drop_first().push(blank_line(self.width)), ..self }
    }

    /// One row down; on the last row the grid scrolls instead, which asks for a full repaint.
    pub open spec fn new_line(self) -> (Self, Option<RendererAction>) {
        if self.row + 1 == self.height {
            (self.scrolled(), Some(RendererAction::RenderAll))
        } else {
            (GridModel { row: self.row + 1, ..self }, None)
        }
    }

    /// Writes at the cursor and advances it, to the next row after the last column.
    pub open spec fn push_character(self, character: Option<char>) -> (Self, RendererAction) {
        let written = self.written(character);
        if self.column + 1 == self.width {
            let (next, action) = written.carriage_return().new_line();
            (
                next,
                match action {
                    Some(action) => action,
                    None => RendererAction::RenderCell(self.cursor()),
                },
            )
        } else {
            (GridModel { column: self.column + 1, ..written }, RendererAction::RenderCell(self.cursor()))
        }
    }

    /// Every row blank and the cursor at the first cell.
    pub open spec fn clear(self) -> Self {
        GridModel { rows: blank_rows(self.width, self.height), column: 0, row: 0, ..self }
    }
}

/// Where a ring of `height` slots that starts at `first` keeps its row `row`.
spec fn ring_slot(first: int, height: nat, row: int) -> int {
    if row < height - first {
        first + row
    } else {
        row - (height - first)
    }
}

/// The rows of a ring of lines that starts at `first`, from top to bottom.
spec fn ring_rows(lines: Seq<Line>, first: int, height: nat) -> Seq<Seq<Option<char>>> {
    Seq::new(height, |i: int| lines[ring_slot(first, height, i)]@)
}

/// The character grid: a fixed number of rows kept in a ring, so that scrolling
/// recycles the top row as the new bottom one, and a cursor.
#[derive(Debug)]
pub struct Cells {
    size: Dimensions<CellsUnit>,
    lines: Vec<Line>,
    first_line: usize,
    current_cell: Point<CellsUnit>,
}

impl Cells {
    /// Where in `lines` the row `row` from the top is kept.
    pub closed spec fn slot(&self, row: int) -> int {
        ring_slot(self.first_line as int, self.size.h(), row)
    }

    pub closed spec fn model(&self) -> GridModel {
        GridModel {
            width: self.size.w(),
            height: self.size.h(),
            rows: ring_rows(self.lines@, self.first_line as int, self.size.h()),
            column: self.current_cell.x(),
            row: self.current_cell.y(),
        }
    }

    pub closed spec fn wf(&self) -> bool {
        &&& self.size.w() >= 1
        &&& self.size.h() >= 1
        &&& self.lines@.len() == self.size.h()
        &&& forall|i: int| 0 <= i < self.lines@.len() ==> (#[trigger] self.lines@[i])@.len() == self.size.w()
        &&& self.first_line < self.size.h()
        &&& self.current_cell.x() < self.size.w()
        &&& self.current_cell.y() < self.size.h()
    }

    pub proof fn lemma_model_wf(&self)
        requires
            self.wf(),
        ensures
            self.model().wf(),
    {
        let m = self.model();
        assert forall|i: int| 0 <= i < m.height implies (#[trigger] m.rows[i]).len() == m.width by {
            assert(0 <= self.slot(i) < self.lines@.len());
        }
    }

    /// A blank grid of `size`, cursor at the first cell.
    pub fn new(size: Dimensions<CellsUnit>) -> (r: Self)
        requires
            size.w() >= 1,
            size.h() >= 1,
        ensures
            r.wf(),
            r.model().wf(),
            r.model() == (GridModel {
                width: size.w(),
                height: size.h(),
                rows: blank_rows(size.w(), size.h()),
                column: 0,
                row: 0,
            }),
    {
        let height = size.height() as usize;
        let width = size.width() as usize;
        let mut lines: Vec<Line> = Vec::with_capacity(height);
        let mut i: usize = 0;
        while i < height
            invariant
                i <= height,
                height == size.h(),
                width == size.w(),
                lines@.len() == i,
                forall|j: int| 0 <= j < i ==> (#[trigger] lines@[j])@ == blank_line(width as nat),
            decreases height - i,
        {
            lines.push(Line::new(width));
            i += 1;
        }
        let r = Self { size, lines, first_line: 0, current_cell: Point::new(0, 0) };
        assert(r.model().rows =~= blank_rows(size.w(), size.h()));
        proof {
            r.lemma_model_wf();
        }
        r
    }

    /// The index in `lines` of the row `row` from the top.
    fn slot_of(&self, row: u32) -> (r: usize)
        requires
            self.wf(),
            row < self.size.h(),
        ensures
            r == self.slot(row as int),
            r < self.lines@.len(),
    {
        let height = self.size.height() as usize;
        let row = row as usize;
        if row < height - self.first_line {
            self.first_line + row
        } else {
            row - (height - self.first_line)
        }
    }

    /// Writes `character` at the cursor and moves the cursor on.
    pub fn push_character(&mut self, character: Option<char>) -> (r: RendererAction)
        requires
            old(self).wf(),
        ensures
            final(self).wf(),
            (final(self).model(), r) == old(self).model().push_character(character),
    {
        let cell_point = self.current_cell;
        let slot = self.slot_of(cell_point.vertical_distance());
        let ghost before = self.model();
        let ghost lines = self.lines@;
        {
            let line = &mut self.lines[slot];
            let cell = line.cell_mut(cell_point.horizontal_distance() as usize);
            *cell.character_mut() = character;
        }
        assert(self.model().rows =~= before.written(character).rows) by {
            assert forall|i: int| 0 <= i < before.height implies #[trigger] self.model().rows[i]
                == before.written(character).rows[i] by {
                if i != before.row {
                    assert(self.slot(i) != slot);
                }
            }
        }
        assert(self.model() == before.written(character));
        if self.current_cell.horizontal_distance() == self.size.width() - 1 {
            self.carriage_return();
            let action = self.new_line();
            if let Some(action) = action {
                return action;
            }
        } else {
            self.current_cell = self.current_cell.shifted(1, 0);
        }
        RendererAction::RenderCell(cell_point)
    }

    /// Moves the cursor to the first column.
    pub fn carriage_return(&mut self)
        requires
            old(self).wf(),
        ensures
            final(self).wf(),
            final(self).model() == old(self).model().carriage_return(),
    {
        let vertical_distance = self.current_cell.vertical_distance();
        self.current_cell = Point::new(0, vertical_distance);
    }

    /// Moves the cursor one cell back, to the end of the row above from the first column.
    pub fn move_back(&mut self)
        requires
            old(self).wf(),
        ensures
            final(self).wf(),
            final(self).model() == old(self).model().move_back(),
    {
        if self.current_cell.horizontal_distance() == 0 {
            let vertical_distance = self.current_cell.vertical_distance();
            if vertical_distance > 0 {
                self.current_cell = Point::new(self.size.width() - 1, vertical_distance - 1);
            }
        } else {
            self.current_cell = self.current_cell.shifted(-1, 0);
        }
    }

    /// Moves the cursor one row up, if it is not on the top row.
    pub fn move_up(&mut self)
        requires
            old(self).wf(),
        ensures
            final(self).wf(),
            final(self).model() == old(self).model().move_up(),
    {
        if self.current_cell.vertical_distance() > 0 {
            self.current_cell = self.current_cell.shifted(0, -1);
        }
    }

    /// Moves the cursor one row down, scrolling the grid from the last row.
    pub fn new_line(&mut self) -> (r: Option<RendererAction>)
        requires
            old(self).wf(),
        ensures
            final(self).wf(),
            (final(self).model(), r) == old(self).model().new_line(),
    {
        if self.current_cell.vertical_distance() == self.size.height() - 1 {
            let ghost before = self.model();
            let first = self.first_line;
            self.lines[first].clear();
            let height = self.size.height() as usize;
            self.first_line = if first + 1 == height {
                0
            } else {
                first + 1
            };
            assert(self.model().rows =~= before.scrolled().rows) by {
                assert forall|i: int| 0 <= i < before.height implies #[trigger] self.model().rows[i]
                    == before.scrolled().rows[i] by {
                    if i + 1 < before.height {
                        assert(self.slot(i) == old(self).slot(i + 1));
                    } else {
                        assert(self.slot(i) == first);
                    }
                }
            }
            Some(RendererAction::RenderAll)
        } else {
            self.current_cell = self.current_cell.shifted(0, 1);
            None
        }
    }

    /// The rows, from top to bottom.
    pub fn iter(&self) -> (r: Vec<&Line>)
        requires
            self.wf(),
        ensures
            r@.len() == self.model().height,
            forall|i: int| 0 <= i < r@.len() ==> (#[trigger] r@[i])@ == self.model().rows[i],
    {
        let height = self.size.height();
        let mut rows: Vec<&Line> = Vec::with_capacity(height as usize);
        let mut row: u32 = 0;
        while row < height
            invariant
                self.wf(),
                height == self.size.h(),
                row <= height,
                rows@.len() == row,
                forall|i: int| 0 <= i < row ==> (#[trigger] rows@[i])@ == self.model().rows[i],
            decreases height - row,
        {
            let slot = self.slot_of(row);
            rows.push(&self.lines[slot]);
            row += 1;
        }
        rows
    }

    /// Blanks every cell and moves the cursor to the first cell.
    pub fn clear(&mut self)
        requires
            old(self).wf(),
        ensures
            final(self).wf(),
            final(self).model() == old(self).model().clear(),
    {
        let count = self.lines.len();
        let mut i: usize = 0;
        while i < count
            invariant
                i <= count,
                count == self.lines@.len(),
                self.size == old(self).size,
                self.first_line == old(self).first_line,
                self.current_cell == old(self).current_cell,
                old(self).wf(),
                self.lines@.len() == old(self).lines@.len(),
                forall|j: int| 0 <= j < count ==> (#[trigger] self.lines@[j])@.len() == self.size.w(),
                forall|j: int| 0 <= j < i ==> (#[trigger] self.lines@[j])@ == blank_line(self.size.w()),
            decreases count - i,
        {
            self.lines[i].clear();
            i += 1;
        }
        self.current_cell = Point::new(0, 0);
        assert(self.model().rows =~= blank_rows(self.size.w(), self.size.h())) by {
            assert forall|i: int| 0 <= i < self.size.h() implies #[trigger] self.model().rows[i]
                == blank_rows(self.size.w(), self.size.h())[i] by {
                assert(0 <= self.slot(i) < count);
            }
        }
    }

    /// The cursor.
    pub fn current_cell(&self) -> (r: Point<CellsUnit>)
        requires
            self.wf(),
        ensures
            r == self.model().cursor(),
    {
        self.current_cell
    }
}

} // verus!

verus! {

/// Writing a character keeps the grid's shape. It asks for a full repaint exactly
/// when it fills the last cell of the last row, and otherwise for the written cell.
pub proof fn lemma_push_character_shape(g: GridModel, character: Option<char>)
    requires
        g.wf(),
    ensures
        g.push_character(character).0.wf(),
        g.push_character(character).0.rows.len() == g.height,
        (g.push_character(character).1 is RenderAll) <==> (g.column + 1 == g.width && g.row + 1
            == g.height),
        !(g.push_character(character).1 is RenderAll) ==> g.push_character(character).1
            == RendererAction::RenderCell(g.cursor()),
{
    let w = g.written(character);
    assert(w.wf());
    let s = w.carriage_return().scrolled();
    if g.column + 1 == g.width && g.row + 1 == g.height {
        assert forall|i: int| 0 <= i < s.height implies (#[trigger] s.rows[i]).len() == s.width by {
            if i + 1 < s.height {
                assert(s.rows[i] == w.rows[i + 1]);
            }
        }
    }
}

/// After `clear`, no cell of the grid holds a character and the cursor is at the
/// first cell.
pub proof fn lemma_clear_blanks_everything(g: GridModel)
    requires
        g.wf(),
    ensures
        g.clear().wf(),
        g.clear().cursor() == cell_at(0, 0),
        forall|i: int, j: int|
            0 <= i < g.height && 0 <= j < g.width ==> (#[trigger] g.clear().rows[i][j]) is None,
{
}

} // verus!

verus! {

/// The grid after writing `characters` one after another from the cursor on.
pub open spec fn pushed(g: GridModel, characters: Seq<Option<char>>) -> GridModel
    decreases characters.len(),
{
    if characters.len() == 0 {
        g
    } else {
        pushed(g, characters.drop_last()).push_character(characters.last()).0
    }
}

/// The row that the cursor reaches after `count` writes from the first cell: the
/// number of rows filled, until the last row, where scrolling keeps it.
pub open spec fn row_after(count: nat, width: nat, height: nat) -> nat {
    if count / width < height {
        count / width
    } else {
        (height - 1) as nat
    }
}

/// From the first cell, after `characters` are written, the cursor stands at column
/// `k % width` of row `row_after(k)`, where `k` is how many were written, and the
/// grid keeps its shape.
pub proof fn lemma_pushes_from_origin(g: GridModel, characters: Seq<Option<char>>)
    requires
        g.wf(),
        g.column == 0,
        g.row == 0,
    ensures
        pushed(g, characters).wf(),
        pushed(g, characters).width == g.width,
        pushed(g, characters).height == g.height,
        pushed(g, characters).column == characters.len() % g.width,
        pushed(g, characters).row == row_after(characters.len(), g.width, g.height),
    decreases characters.len(),
{
    let k = characters.len();
    let w = g.width;
    if k == 0 {
        lemma_fundamental_div_mod_converse(0, w as int, 0, 0);
    } else {
        let before = characters.drop_last();
        lemma_pushes_from_origin(g, before);
        let m = pushed(g, before);
        lemma_push_character_shape(m, characters.last());
        let q = (k - 1) as int / w as int;
        let r = (k - 1) as int % w as int;
        vstd::arithmetic::div_mod::lemma_mod_pos_bound((k - 1) as int, w as int);
        assert((k - 1) as int == q * w + r) by {
            vstd::arithmetic::div_mod::lemma_fundamental_div_mod((k - 1) as int, w as int);
            assert(w * q == q * w) by (nonlinear_arith);
        }
        if r + 1 < w {
            lemma_fundamental_div_mod_converse(k as int, w as int, q, r + 1);
        } else {
            assert(k as int == (q + 1) * w + 0) by (nonlinear_arith)
                requires
                    (k - 1) as int == q * w + r,
                    r + 1 == w,
            ;
            lemma_fundamental_div_mod_converse(k as int, w as int, q + 1, 0);
        }
    }
}

/// From a blank start at the first cell, the `k`-th write (counting from one) asks
/// for a full repaint exactly when it completes a row and at least `width * height`
/// cells have been written; every other write asks for its own cell, at column
/// `(k - 1) % width` of row `row_after(k - 1)`.
pub proof fn lemma_repaints_over_pushes(
    g: GridModel,
    characters: Seq<Option<char>>,
    character: Option<char>,
)
    requires
        g.wf(),
        g.column == 0,
        g.row == 0,
    ensures
        ({
            let k = characters.len() + 1;
            let action = pushed(g, characters).push_character(character).1;
            &&& (action is RenderAll) <==> (k % g.width == 0 && k >= g.width * g.height)
            &&& !(action is RenderAll) ==> action == RendererAction::RenderCell(
                cell_at(
                    characters.len() % g.width,
                    row_after(characters.len(), g.width, g.height),
                ),
            )
        }),
{
    let n = characters.len();
    let w = g.width;
    let h = g.height;
    let k = n + 1;
    lemma_pushes_from_origin(g, characters);
    let m = pushed(g, characters);
    lemma_push_character_shape(m, character);
    let q = n as int / w as int;
    let r = n as int % w as int;
    vstd::arithmetic::div_mod::lemma_fundamental_div_mod(n as int, w as int);
    vstd::arithmetic::div_mod::lemma_mod_pos_bound(n as int, w as int);
    assert(n as int == q * w + r) by {
        assert(w * q == q * w) by (nonlinear_arith);
    }
    if r + 1 < w {
        lemma_fundamental_div_mod_converse(k as int, w as int, q, r + 1);
    } else {
        assert(k as int == (q + 1) * w + 0) by (nonlinear_arith)
            requires
                n as int == q * w + r,
                r + 1 == w,
                k == n + 1,
        ;
        lemma_fundamental_div_mod_converse(k as int, w as int, q + 1, 0);
        if q >= h - 1 {
            assert(k >= w * h) by (nonlinear_arith)
                requires
                    k as int == (q + 1) * w,
                    q >= h - 1,
                    w >= 1,
            ;
        } else {
            assert(k < w * h) by (nonlinear_arith)
                requires
                    k as int == (q + 1) * w,
                    q < h - 1,
                    w >= 1,
            ;
        }
    }
}

} // verus!
