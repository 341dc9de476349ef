use vstd::prelude::*;

verus! {

pub const BELL: u8 = 7;
pub const BACKSPACE: u8 = 8;
pub const TAB: u8 = 9;
pub const LINE_FEED: u8 = 10;
pub const CARRIAGE_RETURN: u8 = 13;
pub const ESCAPE: u8 = 27;
pub const LEFT_BRACKET: u8 = 91;
pub const QUESTION_MARK: u8 = 63;
pub const SEMICOLON: u8 = 59;
pub const DIGIT_ZERO: u8 = 48;
pub const DIGIT_NINE: u8 = 57;
pub const CURSOR_UP: u8 = 65;
pub const CURSOR_DOWN: u8 = 66;
pub const CURSOR_FORWARD: u8 = 67;
pub const CURSOR_BACK: u8 = 68;
pub const ERASE_IN_DISPLAY: u8 = 74;
pub const SET_MODE: u8 = 104;
pub const RESET_MODE: u8 = 108;
pub const TAB_WIDTH: u32 = 8;
pub const BRACKETED_PASTE_MODE: u32 = 2004;
pub const CLEAR_ALL_PARAMETER: u32 = 3;

/// What one byte of the shell's output asks of the terminal.
#[derive(Debug, Copy, Clone, PartialEq, Eq)]
pub enum ParserAction {
    InsertCharacter(char),
    CarriageReturn,
    NewLine,
    MoveCursorUp(u32),
    MoveCursorDown(u32),
    MoveCursorForward(u32),
    MoveCursorBack(u32),
    MoveCursorToNextMultipleOf(u32),
    EnableBracketedPasteMode,
    DisableBracketedPasteMode,
    Clear,
    MoreBytes,
    Ignore,
    UnsupportedSequence,
}

/// How much of an escape sequence has been read.
#[derive(Debug, Copy, Clone, PartialEq, Eq)]
pub enum ParserState {
    Empty,
    Escape,
    Csi,
    CsiPrivate,
}

/// A numeric parameter of an escape sequence that does not fit in `u32`.
#[derive(Debug, Copy, Clone, PartialEq, Eq)]
pub enum ParseError {
    NumberOutOfRange,
}

pub open spec fn is_digit(byte: u8) -> bool {
    DIGIT_ZERO <= byte <= DIGIT_NINE
}

pub open spec fn all_digits(bytes: Seq<u8>) -> bool {
    forall|i: int| 0 <= i < bytes.len() ==> is_digit(#[trigger] bytes[i])
}

/// The number that a run of ASCII digits spells in decimal.
pub open spec fn digits_value(digits: Seq<u8>) -> nat
    decreases digits.len(),
{
    if digits.len() == 0 {
        0
    } else {
        digits_value(digits.drop_last()) * 10 + (digits.last() - DIGIT_ZERO) as nat
    }
}

/// The parameter that the pending digits make: none if there are none, an error
/// if they do not fit in `u32`.
pub open spec fn parsed_number(buffer: Seq<u8>) -> Result<Option<u32>, ParseError> {
    if buffer.len() == 0 {
        Ok(None)
    } else if digits_value(buffer) <= u32::MAX {
        Ok(Some(digits_value(buffer) as u32))
    } else {
        Err(ParseError::NumberOutOfRange)
    }
}

/// The parameters once the pending digits are added to them.
pub open spec fn flushed(buffer: Seq<u8>, numbers: Seq<u32>) -> Result<Seq<u32>, ParseError> {
    match parsed_number(buffer) {
        Ok(Some(n)) => Ok(numbers.push(n)),
        Ok(None) => Ok(numbers),
        Err(e) => Err(e),
    }
}

/// The parser's state, pending digits and parameters, as values.
pub struct ParserView {
    pub state: ParserState,
    pub buffer: Seq<u8>,
    pub numbers: Seq<u32>,
}

pub open spec fn reset_view() -> ParserView {
    ParserView { state: ParserState::Empty, buffer: Seq::empty(), numbers: Seq::empty() }
}

pub open spec fn more_bytes(
    state: ParserState,
    buffer: Seq<u8>,
    numbers: Seq<u32>,
) -> (ParserView, Result<ParserAction, ParseError>) {
    (ParserView { state, buffer, numbers }, Ok(ParserAction::MoreBytes))
}

/// A completed action: the parser starts afresh.
pub open spec fn done(action: ParserAction) -> (ParserView, Result<ParserAction, ParseError>) {
    (reset_view(), Ok(action))
}

pub open spec fn last_or_one(numbers: Seq<u32>) -> u32 {
    if numbers.len() > 0 {
        numbers.last()
    } else {
        1
    }
}

/// The action for the final byte of a control sequence, given its parameters.
pub open spec fn csi_final_action(byte: u8, numbers: Seq<u32>) -> ParserAction {
    if byte == CURSOR_UP {
        ParserAction::MoveCursorUp(last_or_one(numbers))
    } else if byte == CURSOR_DOWN {
        ParserAction::MoveCursorDown(last_or_one(numbers))
    } else if byte == CURSOR_FORWARD {
        ParserAction::MoveCursorForward(last_or_one(numbers))
    } else if byte == CURSOR_BACK {
        ParserAction::MoveCursorBack(last_or_one(numbers))
    } else if byte == ERASE_IN_DISPLAY && numbers.len() > 0 && numbers.last() == CLEAR_ALL_PARAMETER {
        ParserAction::Clear
    } else {
        ParserAction::UnsupportedSequence
    }
}

/// The action for the final byte of a private control sequence.
pub open spec fn csi_private_final_action(byte: u8, number: Option<u32>) -> ParserAction {
    if byte == SET_MODE && number == Some(BRACKETED_PASTE_MODE) {
        ParserAction::EnableBracketedPasteMode
    } else if byte == RESET_MODE && number == Some(BRACKETED_PASTE_MODE) {
        ParserAction::DisableBracketedPasteMode
    } else {
        ParserAction::UnsupportedSequence
    }
}

/// The transition table: the next state and the outcome for one byte.
pub open spec fn step(p: ParserView, byte: u8) -> (ParserView, Result<ParserAction, ParseError>) {
    match p.state {
        ParserState::Empty => {
            if byte == BELL {
                done(ParserAction::Ignore)
            } else if byte == BACKSPACE {
                done(ParserAction::MoveCursorBack(1))
            } else if byte == CARRIAGE_RETURN {
                done(ParserAction::CarriageReturn)
            } else if byte == LINE_FEED {
                done(ParserAction::NewLine)
            } else if byte == TAB {
                done(ParserAction::MoveCursorToNextMultipleOf(TAB_WIDTH))
            } else if byte == ESCAPE {
                more_bytes(ParserState::Escape, p.buffer, p.numbers)
            } else {
                done(ParserAction::InsertCharacter(byte as char))
            }
        },
        ParserState::Escape => {
            if byte == LEFT_BRACKET {
                more_bytes(ParserState::Csi, p.buffer, p.numbers)
            } else {
                done(ParserAction::UnsupportedSequence)
            }
        },
        ParserState::Csi => {
            if byte == QUESTION_MARK {
                more_bytes(ParserState::CsiPrivate, p.buffer, p.numbers)
            } else if is_digit(byte) {
                more_bytes(ParserState::Csi, p.buffer.push(byte), p.numbers)
            } else {
                match flushed(p.buffer, p.numbers) {
                    Err(e) => (reset_view(), Err(e)),
                    Ok(numbers) => if byte == SEMICOLON {
                        more_bytes(ParserState::Csi, Seq::empty(), numbers)
                    } else {
                        done(csi_final_action(byte, numbers))
                    },
                }
            }
        },
        ParserState::CsiPrivate => {
            if is_digit(byte) {
                more_bytes(ParserState::CsiPrivate, p.buffer.push(byte), p.numbers)
            } else if byte == SET_MODE || byte == RESET_MODE {
                match parsed_number(p.buffer) {
                    Err(e) => (reset_view(), Err(e)),
                    Ok(number) => done(csi_private_final_action(byte, number)),
                }
            } else {
                done(ParserAction::UnsupportedSequence)
            }
        },
    }
}

/// Relies on atoi::atoi: on a non-empty run of ASCII digits (no sign) it gives the
/// number they spell, or None when that number does not fit in u32.
#[verifier::external_body]
fn decimal_value(digits: &[u8]) -> (r: Option<u32>)
    requires
        digits@.len() > 0,
        all_digits(digits@),
    ensures
        r == (if digits_value(digits@) <= u32::MAX {
            Some(digits_value(digits@) as u32)
        } else {
            None::<u32>
        }),
{
    atoi::atoi::<u32>(digits)
}

/// Turns the shell's output, byte by byte, into terminal actions.
#[derive(Debug)]
pub struct Parser {
    state: ParserState,
    buffer: Vec<u8>,
    numbers: Vec<u32>,
}

impl View for Parser {
    type V = ParserView;

    closed spec fn view(&self) -> ParserView {
        ParserView { state: self.state, buffer: self.buffer@, numbers: self.numbers@ }
    }
}

impl Parser {
    /// Pending digits are digits, and nothing is pending outside a control sequence.
    pub open spec fn wf(&self) -> bool {
        &&& all_digits(self@.buffer)
        &&& (self@.state is Empty || self@.state is Escape) ==> self@.buffer.len() == 0
            && self@.numbers.len() == 0
    }

    pub fn new() -> (r: Self)
        ensures
            r@ == reset_view(),
            r.wf(),
    {
        let r = Self {
            state: ParserState::Empty,
            buffer: Vec::with_capacity(16),
            numbers: Vec::with_capacity(4),
        };
        assert(r@.buffer =~= Seq::<u8>::empty());
        assert(r@.numbers =~= Seq::<u32>::empty());
        r
    }

    /// Feeds one byte; the result and the next state follow the transition table.
    pub fn push_byte(&mut self, byte: u8) -> (r: Result<ParserAction, ParseError>)
        requires
            old(self).wf(),
        ensures
            final(self).wf(),
            (final(self)@, r) == step(old(self)@, byte),
    {
        let action = match self.state {
            ParserState::Empty => Ok(self.parse_empty(byte)),
            ParserState::Escape => Ok(self.parse_escape(byte)),
            ParserState::Csi => self.parse_csi(byte),
            ParserState::CsiPrivate => self.parse_csi_private(byte),
        };
        if !matches!(action, Ok(ParserAction::MoreBytes)) {
            self.reset();
        }
        action
    }

    fn reset(&mut self)
        ensures
            final(self)@ == reset_view(),
    {
        self.state = ParserState::Empty;
        self.buffer.clear();
        self.numbers.clear();
        assert(self@.buffer =~= Seq::<u8>::empty());
        assert(self@.numbers =~= Seq::<u32>::empty());
    }

    fn parse_empty(&mut self, byte: u8) -> (r: ParserAction)
        requires
            old(self).wf(),
            old(self)@.state is Empty,
        ensures
            final(self).wf(),
            Ok::<ParserAction, ParseError>(r) == step(old(self)@, byte).1,
            r is MoreBytes ==> final(self)@ == step(old(self)@, byte).0,
            !(r is MoreBytes) ==> final(self)@ == old(self)@,
    {
        if byte == BELL {
            ParserAction::Ignore
        } else if byte == BACKSPACE {
            ParserAction::MoveCursorBack(1)
        } else if byte == CARRIAGE_RETURN {
            ParserAction::CarriageReturn
        } else if byte == LINE_FEED {
            ParserAction::NewLine
        } else if byte == TAB {
            ParserAction::MoveCursorToNextMultipleOf(TAB_WIDTH)
        } else if byte == ESCAPE {
            self.state = ParserState::Escape;
            ParserAction::MoreBytes
        } else {
            ParserAction::InsertCharacter(byte as char)
        }
    }

    fn parse_escape(&mut self, byte: u8) -> (r: ParserAction)
        requires
            old(self).wf(),
            old(self)@.state is Escape,
        ensures
            final(self).wf(),
            Ok::<ParserAction, ParseError>(r) == step(old(self)@, byte).1,
            r is MoreBytes ==> final(self)@ == step(old(self)@, byte).0,
            !(r is MoreBytes) ==> final(self)@ == old(self)@,
    {
        if byte == LEFT_BRACKET {
            self.state = ParserState::Csi;
            ParserAction::MoreBytes
        } else {
            ParserAction::UnsupportedSequence
        }
    }

    fn parse_csi(&mut self, byte: u8) -> (r: Result<ParserAction, ParseError>)
        requires
            old(self).wf(),
            old(self)@.state is Csi,
        ensures
            final(self).wf(),
            r == step(old(self)@, byte).1,
            r == Ok::<ParserAction, ParseError>(ParserAction::MoreBytes) ==> final(self)@ == step(
                old(self)@,
                byte,
            ).0,
            r != Ok::<ParserAction, ParseError>(ParserAction::MoreBytes) ==> final(self)@.state
                == old(self)@.state,
    {
        if byte == QUESTION_MARK {
            self.state = ParserState::CsiPrivate;
            Ok(ParserAction::MoreBytes)
        } else if DIGIT_ZERO <= byte && byte <= DIGIT_NINE {
            self.buffer.push(byte);
            Ok(ParserAction::MoreBytes)
        } else {
            self.push_number()?;
            if byte == SEMICOLON {
                assert(self@.buffer =~= Seq::<u8>::empty());
                Ok(ParserAction::MoreBytes)
            } else {
                let count = self.numbers.len();
                let last = if count > 0 {
                    Some(self.numbers[count - 1])
                } else {
                    None
                };
                let parameter = match last {
                    Some(number) => number,
                    None => 1,
                };
                if byte == CURSOR_UP {
                    Ok(ParserAction::MoveCursorUp(parameter))
                } else if byte == CURSOR_DOWN {
                    Ok(ParserAction::MoveCursorDown(parameter))
                } else if byte == CURSOR_FORWARD {
                    Ok(ParserAction::MoveCursorForward(parameter))
                } else if byte == CURSOR_BACK {
                    Ok(ParserAction::MoveCursorBack(parameter))
                } else if byte == ERASE_IN_DISPLAY && last == Some(CLEAR_ALL_PARAMETER) {
                    Ok(ParserAction::Clear)
                } else {
                    Ok(ParserAction::UnsupportedSequence)
                }
            }
        }
    }

    fn parse_csi_private(&mut self, byte: u8) -> (r: Result<ParserAction, ParseError>)
        requires
            old(self).wf(),
            old(self)@.state is CsiPrivate,
        ensures
            final(self).wf(),
            r == step(old(self)@, byte).1,
            r == Ok::<ParserAction, ParseError>(ParserAction::MoreBytes) ==> final(self)@ == step(
                old(self)@,
                byte,
            ).0,
            r != Ok::<ParserAction, ParseError>(ParserAction::MoreBytes) ==> final(self)@.state
                == old(self)@.state,
    {
        if DIGIT_ZERO <= byte && byte <= DIGIT_NINE {
            self.buffer.push(byte);
            Ok(ParserAction::MoreBytes)
        } else if byte == SET_MODE {
            let number = self.parse_number()?;
            if number == Some(BRACKETED_PASTE_MODE) {
                Ok(ParserAction::EnableBracketedPasteMode)
            } else {
                Ok(ParserAction::UnsupportedSequence)
            }
        } else if byte == RESET_MODE {
            let number = self.parse_number()?;
            if number == Some(BRACKETED_PASTE_MODE) {
                Ok(ParserAction::DisableBracketedPasteMode)
            } else {
                Ok(ParserAction::UnsupportedSequence)
            }
        } else {
            Ok(ParserAction::UnsupportedSequence)
        }
    }

    /// Moves the pending digits, if any, into the parameters.
    fn push_number(&mut self) -> (r: Result<(), ParseError>)
        requires
            old(self).wf(),
        ensures
            final(self).wf(),
            final(self)@.state == old(self)@.state,
            match flushed(old(self)@.buffer, old(self)@.numbers) {
                Ok(numbers) => r is Ok && final(self)@.buffer.len() == 0 && final(self)@.numbers
                    == numbers,
                Err(e) => r == Err::<(), ParseError>(e),
            },
    {
        let number = self.parse_number()?;
        if let Some(number) = number {
            self.numbers.push(number);
        }
        Ok(())
    }

    /// Reads the pending digits as one number and drops them.
    fn parse_number(&mut self) -> (r: Result<Option<u32>, ParseError>)
        requires
            old(self).wf(),
        ensures
            final(self).wf(),
            r == parsed_number(old(self)@.buffer),
            final(self)@.state == old(self)@.state,
            final(self)@.numbers == old(self)@.numbers,
            r is Ok ==> final(self)@.buffer.len() == 0,
    {
        if self.buffer.len() == 0 {
            return Ok(None);
        }
        match decimal_value(self.buffer.as_slice()) {
            Some(number) => {
                self.buffer.clear();
                Ok(Some(number))
            },
            None => Err(ParseError::NumberOutOfRange),
        }
    }
}

} // verus!

verus! {

/// Outside any escape sequence, a byte other than BEL, BS, TAB, LF, CR and ESC is
/// inserted as the character it encodes, and the parser stays outside any sequence.
pub proof fn lemma_plain_byte_inserts(p: ParserView, byte: u8)
    requires
        p.state is Empty,
        byte != BELL,
        byte != BACKSPACE,
        byte != TAB,
        byte != LINE_FEED,
        byte != CARRIAGE_RETURN,
        byte != ESCAPE,
    ensures
        step(p, byte).1 == Ok::<ParserAction, ParseError>(ParserAction::InsertCharacter(byte as char)),
        step(p, byte).0.state is Empty,
{
}

} // verus!
