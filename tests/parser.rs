use ft::terminal::parser::{ParseError, Parser, ParserAction};

fn feed(parser: &mut Parser, bytes: &[u8]) -> Vec<ParserAction> {
    bytes
        .iter()
        .map(|byte| parser.push_byte(*byte).expect("well-formed sequence"))
        .collect()
}

fn last_action(bytes: &[u8]) -> ParserAction {
    let mut parser = Parser::new();
    *feed(&mut parser, bytes).last().unwrap()
}

#[test]
fn plain_bytes_insert_themselves() {
    let mut parser = Parser::new();
    for byte in 0..=255u8 {
        if [7, 8, 9, 10, 13, 27].contains(&byte) {
            continue;
        }
        assert_eq!(
            parser.push_byte(byte).unwrap(),
            ParserAction::InsertCharacter(byte as char)
        );
        // Still outside any sequence: the next plain byte is inserted too.
        assert_eq!(
            parser.push_byte(b'x').unwrap(),
            ParserAction::InsertCharacter('x')
        );
    }
}

#[test]
fn control_bytes() {
    assert_eq!(last_action(&[7]), ParserAction::Ignore);
    assert_eq!(last_action(&[8]), ParserAction::MoveCursorBack(1));
    assert_eq!(last_action(&[9]), ParserAction::MoveCursorToNextMultipleOf(8));
    assert_eq!(last_action(&[10]), ParserAction::NewLine);
    assert_eq!(last_action(&[13]), ParserAction::CarriageReturn);
    assert_eq!(last_action(&[27]), ParserAction::MoreBytes);
}

#[test]
fn cursor_forward_with_and_without_count() {
    assert_eq!(last_action(b"\x1b[5C"), ParserAction::MoveCursorForward(5));
    assert_eq!(last_action(b"\x1b[C"), ParserAction::MoveCursorForward(1));
}

#[test]
fn cursor_moves_take_the_last_parameter() {
    assert_eq!(last_action(b"\x1b[12A"), ParserAction::MoveCursorUp(12));
    assert_eq!(last_action(b"\x1b[3B"), ParserAction::MoveCursorDown(3));
    assert_eq!(last_action(b"\x1b[1;7D"), ParserAction::MoveCursorBack(7));
    assert_eq!(last_action(b"\x1b[0042C"), ParserAction::MoveCursorForward(42));
}

#[test]
fn erase_display() {
    assert_eq!(last_action(b"\x1b[3J"), ParserAction::Clear);
    assert_eq!(last_action(b"\x1b[4J"), ParserAction::UnsupportedSequence);
    assert_eq!(last_action(b"\x1b[J"), ParserAction::UnsupportedSequence);
}

#[test]
fn bracketed_paste_mode() {
    assert_eq!(
        last_action(b"\x1b[?2004h"),
        ParserAction::EnableBracketedPasteMode
    );
    assert_eq!(
        last_action(b"\x1b[?2004l"),
        ParserAction::DisableBracketedPasteMode
    );
    assert_eq!(last_action(b"\x1b[?25h"), ParserAction::UnsupportedSequence);
    assert_eq!(last_action(b"\x1b[?2004x"), ParserAction::UnsupportedSequence);
}

#[test]
fn unsupported_sequences_return_to_plain_text() {
    let mut parser = Parser::new();
    assert_eq!(
        feed(&mut parser, b"\x1b]"),
        vec![ParserAction::MoreBytes, ParserAction::UnsupportedSequence]
    );
    assert_eq!(
        feed(&mut parser, b"\x1b[4Ja"),
        vec![
            ParserAction::MoreBytes,
            ParserAction::MoreBytes,
            ParserAction::MoreBytes,
            ParserAction::UnsupportedSequence,
            ParserAction::InsertCharacter('a'),
        ]
    );
    // The parameter of the rejected sequence does not carry over.
    assert_eq!(
        feed(&mut parser, b"\x1b[C"),
        vec![
            ParserAction::MoreBytes,
            ParserAction::MoreBytes,
            ParserAction::MoveCursorForward(1),
        ]
    );
}

#[test]
fn number_too_large_is_an_error() {
    let mut parser = Parser::new();
    for byte in b"\x1b[4294967296" {
        assert_eq!(parser.push_byte(*byte), Ok(ParserAction::MoreBytes));
    }
    assert_eq!(parser.push_byte(b'C'), Err(ParseError::NumberOutOfRange));
    // The parser starts afresh afterwards.
    assert_eq!(parser.push_byte(b'z'), Ok(ParserAction::InsertCharacter('z')));
}

#[test]
fn largest_number_parses() {
    assert_eq!(
        last_action(b"\x1b[4294967295B"),
        ParserAction::MoveCursorDown(4294967295)
    );
}
