use vstd::prelude::*;

use crate::spatial::dimension::Dimensions;
use crate::spatial::point::Point;
use crate::spatial::CellsUnit;
use crate::terminal::cells::line::RendererAction;
use crate::terminal::cells::{blank_rows, cell_at, Cells, GridModel};
use crate::terminal::parser::{step, ParseError, Parser, ParserAction, ParserView, reset_view};

verus! {

/// One drawing step for the screen that shows the grid.
#[derive(Debug, Copy, Clone, PartialEq, Eq)]
pub enum RenderCommand {
    /// Paint the whole screen with the background color.
    FillAll,
    /// Paint one cell with the background color.
    FillCell(Point<CellsUnit>),
    /// Draw a character over one cell.
    DrawCharacter(char, Point<CellsUnit>),
}

impl RenderCommand {
    /// The command that draws `character` over `cell`.
    pub fn draw_character(character: char, cell: Point<CellsUnit>) -> (r: Self)
        ensures
            r == RenderCommand::DrawCharacter(character, cell),
    {
        RenderCommand::DrawCharacter(character, cell)
    }
}

/// The characters of a row, left to right, each drawn in its cell of row `y`.
pub open spec fn drawn_row(row: Seq<Option<char>>, y: nat) -> Seq<RenderCommand>
    decreases row.len(),
{
    if row.len() == 0 {
        Seq::empty()
    } else {
        drawn_row(row.drop_last(), y) + match row.last() {
            Some(c) => seq![RenderCommand::DrawCharacter(c, cell_at((row.len() - 1) as nat, y))],
            None => Seq::empty(),
        }
    }
}

/// The characters of the rows, top to bottom.
pub open spec fn drawn_rows(rows: Seq<Seq<Option<char>>>) -> Seq<RenderCommand>
    decreases rows.len(),
{
    if rows.len() == 0 {
        Seq::empty()
    } else {
        drawn_rows(rows.drop_last()) + drawn_row(rows.last(), (rows.len() - 1) as nat)
    }
}

/// A full repaint: the background, then every character of the grid.
pub open spec fn repaint(g: GridModel) -> Seq<RenderCommand> {
    seq![RenderCommand::FillAll] + drawn_rows(g.rows)
}

/// Writing one cell of the grid: the drawing of that cell, or, when the write
/// scrolled the grid, nothing at once and a full repaint owed.
pub open spec fn push_commands(g: GridModel, character: Option<char>) -> (GridModel, Seq<RenderCommand>, bool) {
    let (next, action) = g.push_character(character);
    match action {
        RendererAction::RenderAll => (next, Seq::empty(), true),
        RendererAction::RenderCell(p) => (
            next,
            seq![RenderCommand::FillCell(p)] + match character {
                Some(c) => seq![RenderCommand::DrawCharacter(c, p)],
                None => Seq::empty(),
            },
            false,
        ),
    }
}

/// `n` blank cells written from the cursor on, and whether any of them scrolled.
pub open spec fn blank_pushes(g: GridModel, n: nat) -> (GridModel, Seq<RenderCommand>, bool)
    decreases n,
{
    if n == 0 {
        (g, Seq::empty(), false)
    } else {
        let (g1, c1, r1) = blank_pushes(g, (n - 1) as nat);
        let (g2, c2, r2) = push_commands(g1, None);
        (g2, c1 + c2, r1 || r2)
    }
}

/// The characters of `text` written one after another from the cursor on, and
/// whether any of them scrolled.
pub open spec fn text_pushes(g: GridModel, text: Seq<char>) -> (GridModel, Seq<RenderCommand>, bool)
    decreases text.len(),
{
    if text.len() == 0 {
        (g, Seq::empty(), false)
    } else {
        let (g1, c1, r1) = text_pushes(g, text.drop_last());
        let (g2, c2, r2) = push_commands(g1, Some(text.last()));
        (g2, c1 + c2, r1 || r2)
    }
}

/// The opening screen: the background, `banner` on the first row, and the cursor
/// at the start of the next row; one full repaint at the end if anything scrolled.
pub open spec fn banner_commands(g: GridModel, banner: Seq<char>) -> (GridModel, Seq<RenderCommand>) {
    let (g1, written, scrolled) = text_pushes(g, banner);
    let (g2, action) = g1.carriage_return().new_line();
    (g2, seq![RenderCommand::FillAll] + batch_commands(g2, written, scrolled || action is Some))
}

/// `n` line feeds, and whether any of them scrolled.
pub open spec fn new_lines(g: GridModel, n: nat) -> (GridModel, bool)
    decreases n,
{
    if n == 0 {
        (g, false)
    } else {
        let (g1, scrolled) = new_lines(g, (n - 1) as nat);
        let (g2, action) = g1.new_line();
        (g2, scrolled || action is Some)
    }
}

pub open spec fn moved_up(g: GridModel, n: nat) -> GridModel
    decreases n,
{
    if n == 0 {
        g
    } else {
        moved_up(g, (n - 1) as nat).move_up()
    }
}

pub open spec fn moved_back(g: GridModel, n: nat) -> GridModel
    decreases n,
{
    if n == 0 {
        g
    } else {
        moved_back(g, (n - 1) as nat).move_back()
    }
}

/// How many cells lie between `column` and the next multiple of `multiple`.
pub open spec fn tab_distance(column: nat, multiple: nat) -> nat {
    if multiple == 0 {
        0
    } else {
        (multiple - column % multiple) as nat
    }
}

/// What one action does to the grid, what it draws at once, and whether it asks
/// for a full repaint at the end of the batch, as every scroll does.
pub open spec fn apply_action(g: GridModel, action: ParserAction) -> (GridModel, Seq<RenderCommand>, bool) {
    match action {
        ParserAction::InsertCharacter(c) => push_commands(g, Some(c)),
        ParserAction::CarriageReturn => (g.carriage_return(), Seq::empty(), false),
        ParserAction::NewLine => {
            let (next, action) = g.new_line();
            (next, Seq::empty(), action is Some)
        },
        ParserAction::MoveCursorUp(n) => (moved_up(g, n as nat), Seq::empty(), false),
        ParserAction::MoveCursorDown(n) => {
            let (next, scrolled) = new_lines(g, n as nat);
            (next, Seq::empty(), scrolled)
        },
        ParserAction::MoveCursorForward(n) => blank_pushes(g, n as nat),
        ParserAction::MoveCursorBack(n) => (moved_back(g, n as nat), Seq::empty(), false),
        ParserAction::MoveCursorToNextMultipleOf(m) => blank_pushes(
            g,
            tab_distance(g.column, m as nat),
        ),
        ParserAction::Clear => (g.clear(), repaint(g.clear()), false),
        _ => (g, Seq::empty(), false),
    }
}

/// Bytes fed in order: the parser and grid after them, and either the drawing done
/// along the way with whether a repaint is owed, or the error that stopped them.
pub open spec fn feed(p: ParserView, g: GridModel, bytes: Seq<u8>) -> (
    ParserView,
    GridModel,
    Result<(Seq<RenderCommand>, bool), ParseError>,
)
    decreases bytes.len(),
{
    if bytes.len() == 0 {
        (p, g, Ok((Seq::empty(), false)))
    } else {
        let (parser_before, grid_before, outcome) = feed(p, g, bytes.drop_last());
        match outcome {
            Err(e) => (parser_before, grid_before, Err(e)),
            Ok((commands, refresh)) => {
                let (parser_after, parsed) = step(parser_before, bytes.last());
                match parsed {
                    Err(e) => (parser_after, grid_before, Err(e)),
                    Ok(action) => {
                        let (grid_after, more, again) = apply_action(grid_before, action);
                        (parser_after, grid_after, Ok((commands + more, refresh || again)))
                    },
                }
            },
        }
    }
}

/// The drawing for a whole batch: what was drawn along the way, then one full
/// repaint if anything in it scrolled.
pub open spec fn batch_commands(g: GridModel, commands: Seq<RenderCommand>, refresh: bool) -> Seq<
    RenderCommand,
> {
    if refresh {
        commands + repaint(g)
    } else {
        commands
    }
}

/// The terminal's state apart from its devices: the parser of the shell's output
/// and the grid it drives.
#[derive(Debug)]
pub struct Emulator {
    parser: Parser,
    cells: Cells,
}

impl Emulator {
    pub closed spec fn wf(&self) -> bool {
        self.parser.wf() && self.cells.wf()
    }

    pub closed spec fn grid(&self) -> GridModel {
        self.cells.model()
    }

    pub closed spec fn parser_view(&self) -> ParserView {
        self.parser@
    }

    /// A blank grid of `size` and a parser outside any sequence.
    pub fn new(size: Dimensions<CellsUnit>) -> (r: Self)
        requires
            size.w() >= 1,
            size.h() >= 1,
        ensures
            r.wf(),
            r.grid().wf(),
            r.grid() == (GridModel {
                width: size.w(),
                height: size.h(),
                rows: blank_rows(size.w(), size.h()),
                column: 0,
                row: 0,
            }),
            r.parser_view() == reset_view(),
    {
        Self { parser: Parser::new(), cells: Cells::new(size) }
    }

    /// The grid.
    pub fn cells(&self) -> (r: &Cells)
        requires
            self.wf(),
        ensures
            r.wf(),
            r.model() == self.grid(),
    {
        &self.cells
    }

    /// Every character of the grid, over a cleared screen.
    pub fn render_all(&self) -> (r: Vec<RenderCommand>)
        requires
            self.wf(),
        ensures
            r@ == repaint(self.grid()),
    {
        let ghost g = self.grid();
        proof {
            self.cells.lemma_model_wf();
        }
        let mut commands: Vec<RenderCommand> = Vec::new();
        commands.push(RenderCommand::FillAll);
        assert(drawn_rows(g.rows.take(0)) =~= Seq::<RenderCommand>::empty());
        assert(commands@ =~= seq![RenderCommand::FillAll] + drawn_rows(g.rows.take(0)));
        let rows = self.cells.iter();
        let mut y: usize = 0;
        while y < rows.len()
            invariant
                g.wf(),
                rows@.len() == g.height,
                forall|i: int| 0 <= i < rows@.len() ==> (#[trigger] rows@[i])@ == g.rows[i],
                y <= rows@.len(),
                commands@ == seq![RenderCommand::FillAll] + drawn_rows(g.rows.take(y as int)),
            decreases rows@.len() - y,
        {
            let cells = rows[y].iter();
            let ghost row = g.rows[y as int];
            let mut x: usize = 0;
            while x < cells.len()
                invariant
                    g.wf(),
                    y < g.height,
                    row == g.rows[y as int],
                    cells@.len() == row.len(),
                    forall|i: int| 0 <= i < cells@.len() ==> (#[trigger] cells@[i])@ == row[i],
                    x <= cells@.len(),
                    commands@ == seq![RenderCommand::FillAll] + drawn_rows(g.rows.take(y as int))
                        + drawn_row(row.take(x as int), y as nat),
                decreases cells@.len() - x,
            {
                let ghost before = commands@;
                assert(row.take(x + 1).drop_last() =~= row.take(x as int));
                if let Some(character) = cells[x].character() {
                    commands.push(RenderCommand::draw_character(character, Point::new(x as u32, y as u32)));
                    assert(commands@ =~= before + seq![
                        RenderCommand::DrawCharacter(character, cell_at(x as nat, y as nat)),
                    ]);
                }
                x += 1;
            }
            assert(row.take(cells@.len() as int) =~= row);
            assert(g.rows.take(y + 1).drop_last() =~= g.rows.take(y as int));
            y += 1;
        }
        assert(g.rows.take(rows@.len() as int) =~= g.rows);
        commands
    }

    /// Clears the screen and writes `banner` through the same path as the shell's
    /// output, then moves to the next row.
    pub fn print_banner(&mut self, banner: &str) -> (r: Vec<RenderCommand>)
        requires
            old(self).wf(),
        ensures
            final(self).wf(),
            final(self).parser_view() == old(self).parser_view(),
            (final(self).grid(), r@) == banner_commands(old(self).grid(), banner@),
    {
        let mut commands: Vec<RenderCommand> = Vec::new();
        commands.push(RenderCommand::FillAll);
        let (mut written, scrolled) = self.write_text(banner);
        commands.append(&mut written);
        self.cells.carriage_return();
        let moved = self.cells.new_line();
        let refresh = scrolled || moved.is_some();
        if refresh {
            let mut repainted = self.render_all();
            commands.append(&mut repainted);
        }
        proof {
            assert(commands@ =~= banner_commands(old(self).grid(), banner@).1);
        }
        commands
    }

    /// Writes each character of `string` in turn and draws the changes, with one
    /// full repaint at the end if any write scrolled.
    pub fn push_string(&mut self, string: &str) -> (r: Vec<RenderCommand>)
        requires
            old(self).wf(),
        ensures
            final(self).wf(),
            final(self).parser_view() == old(self).parser_view(),
            ({
                let (g, commands, refresh) = text_pushes(old(self).grid(), string@);
                final(self).grid() == g && r@ == batch_commands(g, commands, refresh)
            }),
    {
        let (mut commands, refresh) = self.write_text(string);
        if refresh {
            let mut repainted = self.render_all();
            commands.append(&mut repainted);
        }
        commands
    }

    fn write_text(&mut self, string: &str) -> (r: (Vec<RenderCommand>, bool))
        requires
            old(self).wf(),
        ensures
            final(self).wf(),
            final(self).parser_view() == old(self).parser_view(),
            (final(self).grid(), r.0@, r.1) == text_pushes(old(self).grid(), string@),
    {
        let mut commands: Vec<RenderCommand> = Vec::new();
        let mut refresh = false;
        for character in it: string.chars()
            invariant
                self.wf(),
                self.parser_view() == old(self).parser_view(),
                it.seq() == string@,
                (self.grid(), commands@, refresh) == text_pushes(
                    old(self).grid(),
                    it.seq().take(it.index() as int),
                ),
        {
            assert(it.seq().take(it.index() + 1).drop_last() =~= it.seq().take(it.index() as int));
            let (mut more, again) = self.write_cell(Some(character));
            commands.append(&mut more);
            refresh = refresh || again;
        }
        assert(string@.take(string@.len() as int) =~= string@);
        (commands, refresh)
    }

    /// Writes one cell and draws the change, or the whole grid if the write scrolled.
    pub fn push_character(&mut self, character: Option<char>) -> (r: Vec<RenderCommand>)
        requires
            old(self).wf(),
        ensures
            final(self).wf(),
            final(self).parser_view() == old(self).parser_view(),
            ({
                let (g, commands, refresh) = push_commands(old(self).grid(), character);
                final(self).grid() == g && r@ == batch_commands(g, commands, refresh)
            }),
    {
        let (mut commands, refresh) = self.write_cell(character);
        if refresh {
            let mut repainted = self.render_all();
            commands.append(&mut repainted);
        }
        commands
    }

    /// Writes one cell: the drawing of that cell, or nothing and a repaint owed if
    /// the write scrolled.
    fn write_cell(&mut self, character: Option<char>) -> (r: (Vec<RenderCommand>, bool))
        requires
            old(self).wf(),
        ensures
            final(self).wf(),
            final(self).parser_view() == old(self).parser_view(),
            (final(self).grid(), r.0@, r.1) == push_commands(old(self).grid(), character),
    {
        let action = self.cells.push_character(character);
        let mut commands: Vec<RenderCommand> = Vec::new();
        match action {
            RendererAction::RenderAll => (commands, true),
            RendererAction::RenderCell(cell) => {
                commands.push(RenderCommand::FillCell(cell));
                if let Some(character) = character {
                    commands.push(RenderCommand::draw_character(character, cell));
                }
                proof {
                    assert(commands@ =~= push_commands(old(self).grid(), character).1);
                }
                (commands, false)
            },
        }
    }

    /// Writes `count` blank cells from the cursor on.
    fn push_blanks(&mut self, count: u32) -> (r: (Vec<RenderCommand>, bool))
        requires
            old(self).wf(),
        ensures
            final(self).wf(),
            final(self).parser_view() == old(self).parser_view(),
            (final(self).grid(), r.0@, r.1) == blank_pushes(old(self).grid(), count as nat),
    {
        let mut commands: Vec<RenderCommand> = Vec::new();
        let mut refresh = false;
        let mut i: u32 = 0;
        while i < count
            invariant
                self.wf(),
                i <= count,
                self.parser_view() == old(self).parser_view(),
                (self.grid(), commands@, refresh) == blank_pushes(old(self).grid(), i as nat),
            decreases count - i,
        {
            let (mut more, again) = self.write_cell(None);
            commands.append(&mut more);
            refresh = refresh || again;
            i += 1;
        }
        (commands, refresh)
    }

    /// Carries out one parser action: the drawing it does at once, and whether it
    /// asks for a full repaint at the end of the batch.
    fn perform(&mut self, action: ParserAction) -> (r: (Vec<RenderCommand>, bool))
        requires
            old(self).wf(),
        ensures
            final(self).wf(),
            final(self).parser_view() == old(self).parser_view(),
            (final(self).grid(), r.0@, r.1) == apply_action(old(self).grid(), action),
    {
        let mut refresh = false;
        let mut commands: Vec<RenderCommand> = Vec::new();
        match action {
            ParserAction::InsertCharacter(character) => {
                let (written, scrolled) = self.write_cell(Some(character));
                commands = written;
                refresh = scrolled;
            },
            ParserAction::CarriageReturn => {
                self.cells.carriage_return();
            },
            ParserAction::NewLine => {
                let moved = self.cells.new_line();
                if let Some(RendererAction::RenderAll) = moved {
                    refresh = true;
                }
                proof {
                    assert(moved is Some ==> moved == Some(RendererAction::RenderAll));
                }
            },
            ParserAction::MoveCursorUp(up) => {
                let mut i: u32 = 0;
                while i < up
                    invariant
                        self.wf(),
                        i <= up,
                        self.parser_view() == old(self).parser_view(),
                        self.grid() == moved_up(old(self).grid(), i as nat),
                        commands@ == Seq::<RenderCommand>::empty(),
                        !refresh,
                    decreases up - i,
                {
                    self.cells.move_up();
                    i += 1;
                }
            },
            ParserAction::MoveCursorDown(down) => {
                let mut i: u32 = 0;
                while i < down
                    invariant
                        self.wf(),
                        i <= down,
                        self.parser_view() == old(self).parser_view(),
                        (self.grid(), refresh) == new_lines(old(self).grid(), i as nat),
                        commands@ == Seq::<RenderCommand>::empty(),
                    decreases down - i,
                {
                    let moved = self.cells.new_line();
                    if let Some(RendererAction::RenderAll) = moved {
                        refresh = true;
                    }
                    proof {
                        assert(moved is Some ==> moved == Some(RendererAction::RenderAll));
                    }
                    i += 1;
                }
            },
            ParserAction::MoveCursorForward(forward) => {
                let (written, scrolled) = self.push_blanks(forward);
                commands = written;
                refresh = scrolled;
            },
            ParserAction::MoveCursorBack(back) => {
                let mut i: u32 = 0;
                while i < back
                    invariant
                        self.wf(),
                        i <= back,
                        self.parser_view() == old(self).parser_view(),
                        self.grid() == moved_back(old(self).grid(), i as nat),
                        commands@ == Seq::<RenderCommand>::empty(),
                        !refresh,
                    decreases back - i,
                {
                    self.cells.move_back();
                    i += 1;
                }
            },
            ParserAction::MoveCursorToNextMultipleOf(multiple) => {
                proof {
                    self.cells.lemma_model_wf();
                }
                let horizontal_distance = self.cells.current_cell().horizontal_distance();
                let forward = if multiple == 0 {
                    0
                } else {
                    multiple - horizontal_distance % multiple
                };
                let (written, scrolled) = self.push_blanks(forward);
                commands = written;
                refresh = scrolled;
            },
            ParserAction::Clear => {
                self.cells.clear();
                commands = self.render_all();
            },
            _ => {},
        }
        (commands, refresh)
    }

    /// Feeds a batch of the shell's output through the parser and the grid, and
    /// returns the drawing it takes; however many scrolls the batch causes, the
    /// whole grid is repainted once, at its end.
    pub fn handle_bytes(&mut self, bytes: &[u8]) -> (r: Result<Vec<RenderCommand>, ParseError>)
        requires
            old(self).wf(),
        ensures
            final(self).wf(),
            ({
                let (p, g, outcome) = feed(old(self).parser_view(), old(self).grid(), bytes@);
                &&& final(self).parser_view() == p
                &&& final(self).grid() == g
                &&& match outcome {
                    Err(e) => r == Err::<Vec<RenderCommand>, ParseError>(e),
                    Ok((commands, refresh)) => r is Ok && r->Ok_0@ == batch_commands(
                        g,
                        commands,
                        refresh,
                    ),
                }
            }),
    {
        let mut refresh = false;
        let mut commands: Vec<RenderCommand> = Vec::new();
        let mut i: usize = 0;
        while i < bytes.len()
            invariant
                self.wf(),
                i <= bytes@.len(),
                (self.parser_view(), self.grid(), Ok::<(Seq<RenderCommand>, bool), ParseError>((commands@, refresh)))
                    == feed(old(self).parser_view(), old(self).grid(), bytes@.take(i as int)),
            decreases bytes@.len() - i,
        {
            assert(bytes@.take(i + 1).drop_last() =~= bytes@.take(i as int));
            let byte = bytes[i];
            let parsed = self.parser.push_byte(byte);
            match parsed {
                Err(e) => {
                    proof {
                        lemma_feed_stops(old(self).parser_view(), old(self).grid(), bytes@, i as int + 1);
                    }
                    return Err(e);
                },
                Ok(action) => {
                    let (mut more, again) = self.perform(action);
                    commands.append(&mut more);
                    refresh = refresh || again;
                },
            }
            i += 1;
        }
        assert(bytes@.take(bytes@.len() as int) =~= bytes@);
        if refresh {
            let mut more = self.render_all();
            commands.append(&mut more);
        }
        Ok(commands)
    }
}

/// Once an error stops the bytes, the bytes after it change nothing.
proof fn lemma_feed_stops(p: ParserView, g: GridModel, bytes: Seq<u8>, n: int)
    requires
        0 < n <= bytes.len(),
        feed(p, g, bytes.take(n)).2 is Err,
    ensures
        feed(p, g, bytes) == feed(p, g, bytes.take(n)),
    decreases bytes.len() - n,
{
    if n < bytes.len() {
        assert(bytes.take(n + 1).drop_last() =~= bytes.take(n));
        lemma_feed_stops(p, g, bytes, n + 1);
    } else {
        assert(bytes.take(n) =~= bytes);
    }
}

} // verus!

verus! {

/// From the first cell, any number of steps back leave the cursor, and the grid,
/// as they were.
pub proof fn lemma_move_back_at_origin(g: GridModel, n: nat)
    requires
        g.column == 0,
        g.row == 0,
    ensures
        moved_back(g, n) == g,
    decreases n,
{
    if n > 0 {
        lemma_move_back_at_origin(g, (n - 1) as nat);
    }
}

} // verus!
