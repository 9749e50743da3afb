//! Reading a move from the text that a player typed.
//!
//! A move is written as two digits, the row and then the column, each from
//! 1 to 3 and counted from the top left: `11` is the top left cell, `33` the
//! bottom right one. Blanks at the end of the text, such as the line break
//! that ends a line read from a terminal, are not part of the move.

use vstd::prelude::*;
use crate::error::{GameError, InputFault};

verus! {

/// Whether `c` is a blank that may follow a move: a space, a tab, a line
/// feed or a carriage return.
pub open spec fn spec_is_trailing_blank(c: char) -> bool {
    c == ' ' || c == '\t' || c == '\n' || c == '\r'
}

/// `text` without the blanks at its end.
pub open spec fn trim_end(text: Seq<char>) -> Seq<char>
    decreases text.len(),
{
    if text.len() > 0 && spec_is_trailing_blank(text.last()) {
        trim_end(text.drop_last())
    } else {
        text
    }
}

/// Whether `c` is one of the digits from 0 to 9.
pub open spec fn spec_is_digit(c: char) -> bool {
    '0' <= c <= '9'
}

/// The index, counted from 0, that a digit from 1 to 3 names.
pub open spec fn spec_digit_index(c: char) -> Option<usize> {
    if c == '1' {
        Some(0usize)
    } else if c == '2' {
        Some(1usize)
    } else if c == '3' {
        Some(2usize)
    } else {
        None
    }
}

/// The row and the column, counted from 0, that `text` names, or what is
/// wrong with it. Without the blanks at its end the text must be two
/// characters long, both must be digits, and both digits must be from 1 to
/// 3; the first of these that fails is the fault.
pub open spec fn parse_move(text: Seq<char>) -> Result<(usize, usize), GameError> {
    let body = trim_end(text);
    if body.len() != 2 {
        Err(GameError::MalformedInput(InputFault::WrongLength))
    } else if !spec_is_digit(body[0]) || !spec_is_digit(body[1]) {
        Err(GameError::MalformedInput(InputFault::NotADigit))
    } else {
        match (spec_digit_index(body[0]), spec_digit_index(body[1])) {
            (Some(row), Some(col)) => Ok((row, col)),
            _ => Err(GameError::MalformedInput(InputFault::OutOfRange)),
        }
    }
}

/// Whether `c` is a blank that may follow a move.
#[verifier::when_used_as_spec(spec_is_trailing_blank)]
pub fn is_trailing_blank(c: char) -> (blank: bool)
    ensures
        blank == spec_is_trailing_blank(c),
{
    c == ' ' || c == '\t' || c == '\n' || c == '\r'
}

/// Whether `c` is one of the digits from 0 to 9.
#[verifier::when_used_as_spec(spec_is_digit)]
pub fn is_digit(c: char) -> (digit: bool)
    ensures
        digit == spec_is_digit(c),
{
    '0' <= c && c <= '9'
}

/// The index, counted from 0, that a digit from 1 to 3 names; `None` for
/// every other character.
#[verifier::when_used_as_spec(spec_digit_index)]
pub fn digit_index(c: char) -> (index: Option<usize>)
    ensures
        index == spec_digit_index(c),
{
    if c == '1' {
        Some(0)
    } else if c == '2' {
        Some(1)
    } else if c == '3' {
        Some(2)
    } else {
        None
    }
}

/// Reads a move from the text that a player typed.
///
/// Gives the row and the column of the move, both counted from 0, where the
/// text, without the blanks at its end, is a row digit and a column digit
/// from 1 to 3. Any other text is turned down as
/// [`GameError::MalformedInput`]: with [`InputFault::WrongLength`] where it
/// is not two characters long, else with [`InputFault::NotADigit`] where
/// one of the two is no digit, else with [`InputFault::OutOfRange`].
pub fn convert_user_input(user_input: String) -> (parsed: Result<(usize, usize), GameError>)
    ensures
        parsed == parse_move(user_input@),
{
    let mut chars: Vec<char> = Vec::new();
    for c in it: user_input.as_str().chars()
        invariant
            it.seq() == user_input@,
            chars@ == it.seq().take(it.index() as int),
    {
        chars.push(c);
    }
    assert(chars@ == user_input@);
    let mut len: usize = chars.len();
    while len > 0 && is_trailing_blank(chars[len - 1])
        invariant
            len <= chars@.len(),
            trim_end(chars@) == trim_end(chars@.take(len as int)),
        decreases len,
    {
        assert(chars@.take(len as int).drop_last() == chars@.take(len - 1));
        len -= 1;
    }
    if len != 2 {
        return Err(GameError::MalformedInput(InputFault::WrongLength));
    }
    if !is_digit(chars[0]) || !is_digit(chars[1]) {
        return Err(GameError::MalformedInput(InputFault::NotADigit));
    }
    match (digit_index(chars[0]), digit_index(chars[1])) {
        (Some(row), Some(col)) => Ok((row, col)),
        _ => Err(GameError::MalformedInput(InputFault::OutOfRange)),
    }
}

} // verus!
