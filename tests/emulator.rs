use ft::spatial::dimension::Dimensions;
use ft::spatial::point::Point;
use ft::spatial::CellsUnit;
use ft::terminal::emulator::{Emulator, RenderCommand};
use ft::terminal::parser::ParseError;

fn emulator(width: u32, height: u32) -> Emulator {
    Emulator::new(Dimensions::<CellsUnit>::new(width, height))
}

fn at(x: u32, y: u32) -> Point<CellsUnit> {
    Point::new(x, y)
}

fn cursor(emulator: &Emulator) -> (u32, u32) {
    let cell = emulator.cells().current_cell();
    (cell.horizontal_distance(), cell.vertical_distance())
}

fn screen(emulator: &Emulator) -> Vec<String> {
    emulator
        .cells()
        .iter()
        .iter()
        .map(|line| {
            line.iter()
                .iter()
                .map(|cell| cell.character().unwrap_or('.'))
                .collect()
        })
        .collect()
}

#[test]
fn characters_render_their_cells() {
    let mut emulator = emulator(4, 2);
    let commands = emulator.handle_bytes(b"ab").unwrap();
    assert_eq!(
        commands,
        vec![
            RenderCommand::FillCell(at(0, 0)),
            RenderCommand::DrawCharacter('a', at(0, 0)),
            RenderCommand::FillCell(at(1, 0)),
            RenderCommand::DrawCharacter('b', at(1, 0)),
        ]
    );
    assert_eq!(cursor(&emulator), (2, 0));
}

#[test]
fn cursor_movements_draw_nothing() {
    let mut emulator = emulator(6, 3);
    let commands = emulator.handle_bytes(b"abc\r\n\x1b[2C\x1b[A\x1b[D\x08").unwrap();
    // Only the three characters and the two blanks written by the forward move.
    assert_eq!(commands.len(), 8);
    assert_eq!(commands[6], RenderCommand::FillCell(at(0, 1)));
    assert_eq!(commands[7], RenderCommand::FillCell(at(1, 1)));
    assert_eq!(cursor(&emulator), (0, 0));
}

#[test]
fn scrolls_repaint_once_at_end_of_batch() {
    let mut emulator = emulator(3, 2);
    let commands = emulator.handle_bytes(b"a\r\nb\r\nc\r\nd").unwrap();
    assert_eq!(screen(&emulator), vec!["c..", "d.."]);
    let fills: Vec<&RenderCommand> = commands
        .iter()
        .filter(|command| **command == RenderCommand::FillAll)
        .collect();
    assert_eq!(fills.len(), 1);
    assert_eq!(
        &commands[commands.len() - 3..],
        &[
            RenderCommand::FillAll,
            RenderCommand::DrawCharacter('c', at(0, 0)),
            RenderCommand::DrawCharacter('d', at(0, 1)),
        ]
    );
}

#[test]
fn clear_repaints_at_once() {
    let mut emulator = emulator(3, 2);
    let commands = emulator.handle_bytes(b"xy\x1b[3Jz").unwrap();
    assert_eq!(
        &commands[4..],
        &[
            RenderCommand::FillAll,
            RenderCommand::FillCell(at(0, 0)),
            RenderCommand::DrawCharacter('z', at(0, 0)),
        ]
    );
    assert_eq!(screen(&emulator), vec!["z..", "..."]);
}

#[test]
fn tab_moves_to_next_multiple_of_eight() {
    let mut emulator = emulator(20, 2);
    emulator.handle_bytes(b"abc\t").unwrap();
    assert_eq!(cursor(&emulator), (8, 0));
    emulator.handle_bytes(b"\t").unwrap();
    assert_eq!(cursor(&emulator), (16, 0));
}

#[test]
fn writing_past_last_cell_repaints_at_end_of_batch() {
    let mut emulator = emulator(2, 1);
    let commands = emulator.handle_bytes(b"ab").unwrap();
    assert_eq!(
        commands,
        vec![
            RenderCommand::FillCell(at(0, 0)),
            RenderCommand::DrawCharacter('a', at(0, 0)),
            RenderCommand::FillAll,
        ]
    );
    assert_eq!(screen(&emulator), vec![".."]);
}

#[test]
fn bad_number_stops_the_batch() {
    let mut emulator = emulator(10, 2);
    let result = emulator.handle_bytes(b"a\x1b[99999999999Cb");
    assert_eq!(result, Err(ParseError::NumberOutOfRange));
    assert_eq!(screen(&emulator), vec!["a.........", ".........."]);
}

#[test]
fn banner_then_next_row() {
    let mut emulator = emulator(10, 3);
    let commands = emulator.print_banner("ft 0.1.0");
    assert_eq!(commands[0], RenderCommand::FillAll);
    // The background, then a fill and a glyph for each of the eight characters.
    assert_eq!(commands.len(), 1 + 2 * 8);
    assert_eq!(screen(&emulator)[0], "ft 0.1.0..");
    assert_eq!(cursor(&emulator), (0, 1));
}

#[test]
fn render_all_draws_every_character() {
    let mut emulator = emulator(3, 2);
    emulator.push_string("ab\u{e9}");
    emulator.push_character(None);
    emulator.push_character(Some('c'));
    assert_eq!(
        emulator.render_all(),
        vec![
            RenderCommand::FillAll,
            RenderCommand::DrawCharacter('a', at(0, 0)),
            RenderCommand::DrawCharacter('b', at(1, 0)),
            RenderCommand::DrawCharacter('\u{e9}', at(2, 0)),
            RenderCommand::DrawCharacter('c', at(1, 1)),
        ]
    );
}

#[test]
fn scrolls_from_writes_coalesce_into_one_repaint() {
    let mut emulator = emulator(1, 1);
    // Each character fills the only cell and scrolls it away.
    assert_eq!(
        emulator.handle_bytes(b"ab").unwrap(),
        vec![RenderCommand::FillAll]
    );

    let mut emulator = emulator_with_rows(3, 2);
    let commands = emulator.handle_bytes(b"abcdef\x1b[4Cgh\r\nz").unwrap();
    let fills = commands
        .iter()
        .filter(|command| **command == RenderCommand::FillAll)
        .count();
    assert_eq!(fills, 1);
    assert_eq!(commands.last(), Some(&RenderCommand::DrawCharacter('z', at(0, 1))));
    assert_eq!(screen(&emulator), vec!["...", "z.."]);

    // A tab that wraps past the last cell twice.
    let mut emulator = emulator_with_rows(3, 1);
    let commands = emulator.handle_bytes(b"ab\t").unwrap();
    assert_eq!(
        commands,
        vec![
            RenderCommand::FillCell(at(0, 0)),
            RenderCommand::DrawCharacter('a', at(0, 0)),
            RenderCommand::FillCell(at(1, 0)),
            RenderCommand::DrawCharacter('b', at(1, 0)),
            RenderCommand::FillCell(at(0, 0)),
            RenderCommand::FillCell(at(1, 0)),
            RenderCommand::FillCell(at(0, 0)),
            RenderCommand::FillCell(at(1, 0)),
            RenderCommand::FillAll,
        ]
    );
    assert_eq!(cursor(&emulator), (2, 0));
}

fn emulator_with_rows(width: u32, height: u32) -> Emulator {
    emulator(width, height)
}

#[test]
fn single_push_that_scrolls_repaints() {
    let mut emulator = emulator(1, 1);
    assert_eq!(
        emulator.push_character(Some('a')),
        vec![RenderCommand::FillAll]
    );
    assert_eq!(emulator.push_string("bc"), vec![RenderCommand::FillAll]);
}
