use ft::spatial::dimension::Dimensions;
use ft::spatial::CellsUnit;
use ft::terminal::cells::line::{Line, RendererAction};
use ft::terminal::cells::Cells;

fn grid(width: u32, height: u32) -> Cells {
    Cells::new(Dimensions::<CellsUnit>::new(width, height))
}

fn cursor(cells: &Cells) -> (u32, u32) {
    let cell = cells.current_cell();
    (cell.horizontal_distance(), cell.vertical_distance())
}

fn character_at(cells: &Cells, column: usize, row: usize) -> Option<char> {
    cells.iter()[row].iter()[column].character()
}

#[test]
fn full_row_wraps_to_next_row() {
    let mut cells = grid(80, 24);
    for i in 0..80u32 {
        let character = char::from(b'a' + (i % 26) as u8);
        let action = cells.push_character(Some(character));
        assert_eq!(action, RendererAction::RenderCell(cells_point(i, 0)));
    }
    assert_eq!(cursor(&cells), (0, 1));
    assert_eq!(character_at(&cells, 79, 0), Some(char::from(b'a' + (79 % 26) as u8)));
}

fn cells_point(x: u32, y: u32) -> ft::spatial::point::Point<CellsUnit> {
    ft::spatial::point::Point::new(x, y)
}

#[test]
fn full_screen_scrolls_once_per_row_on_last_row() {
    let mut cells = grid(80, 24);
    let mut render_all = 0;
    for round in 0..3 {
        for i in 0..24 * 80u32 {
            let action = cells.push_character(Some('x'));
            let row = i / 80;
            let column = i % 80;
            let on_last_row = round > 0 || row == 23;
            if column == 79 && on_last_row {
                assert_eq!(action, RendererAction::RenderAll);
                render_all += 1;
            } else {
                assert_ne!(action, RendererAction::RenderAll);
            }
            assert_eq!(cells.iter().len(), 24);
        }
    }
    assert_eq!(render_all, 1 + 24 + 24);
}

#[test]
fn scrolling_moves_rows_up_and_blanks_the_last() {
    let mut cells = grid(3, 2);
    for character in ['a', 'b', 'c', 'd', 'e', 'f'] {
        cells.push_character(Some(character));
    }
    // The last character of the last row scrolled the grid.
    assert_eq!(cursor(&cells), (0, 1));
    let rows: Vec<Vec<Option<char>>> = cells
        .iter()
        .iter()
        .map(|line| line.iter().iter().map(|cell| cell.character()).collect())
        .collect();
    assert_eq!(
        rows,
        vec![vec![Some('d'), Some('e'), Some('f')], vec![None, None, None]]
    );
}

#[test]
fn clear_blanks_every_cell() {
    let mut cells = grid(10, 4);
    for _ in 0..25 {
        cells.push_character(Some('q'));
    }
    cells.clear();
    assert_eq!(cursor(&cells), (0, 0));
    let lines = cells.iter();
    assert_eq!(lines.len(), 4);
    for line in lines {
        assert_eq!(line.iter().len(), 10);
        assert!(line.iter().iter().all(|cell| cell.character().is_none()));
    }
}

#[test]
fn move_back_at_origin_stays() {
    let mut cells = grid(5, 5);
    for _ in 0..10 {
        cells.move_back();
        assert_eq!(cursor(&cells), (0, 0));
    }
}

#[test]
fn move_back_wraps_to_previous_row() {
    let mut cells = grid(5, 5);
    cells.new_line();
    cells.push_character(Some('a'));
    cells.move_back();
    assert_eq!(cursor(&cells), (0, 1));
    cells.move_back();
    assert_eq!(cursor(&cells), (4, 0));
}

#[test]
fn move_up_stops_at_top() {
    let mut cells = grid(5, 5);
    cells.new_line();
    cells.new_line();
    cells.move_up();
    assert_eq!(cursor(&cells), (0, 1));
    cells.move_up();
    cells.move_up();
    assert_eq!(cursor(&cells), (0, 0));
}

#[test]
fn new_line_on_last_row_scrolls() {
    let mut cells = grid(4, 2);
    cells.push_character(Some('a'));
    assert_eq!(cells.new_line(), None);
    assert_eq!(cursor(&cells), (1, 1));
    assert_eq!(cells.new_line(), Some(RendererAction::RenderAll));
    assert_eq!(cursor(&cells), (1, 1));
    assert_eq!(character_at(&cells, 0, 0), None);
}

#[test]
fn carriage_return_keeps_row() {
    let mut cells = grid(4, 3);
    cells.new_line();
    cells.push_character(Some('a'));
    cells.push_character(Some('b'));
    cells.carriage_return();
    assert_eq!(cursor(&cells), (0, 1));
}

#[test]
fn one_by_one_grid() {
    let mut cells = grid(1, 1);
    assert_eq!(cells.push_character(Some('a')), RendererAction::RenderAll);
    assert_eq!(cursor(&cells), (0, 0));
    assert_eq!(character_at(&cells, 0, 0), None);
}

#[test]
fn line_cells() {
    let mut line = Line::new(3);
    assert_eq!(line.iter().len(), 3);
    *line.cell_mut(1).character_mut() = Some('z');
    assert_eq!(line.iter()[1].character(), Some('z'));
    line.clear();
    assert!(line.iter().iter().all(|cell| cell.character().is_none()));
}
