use tic_tac_toe::input::{digit_index, is_digit, is_trailing_blank};
use tic_tac_toe::{convert_user_input, space_to_str, GameError, InputFault, Space};

const WRONG_LENGTH: Result<(usize, usize), GameError> =
    Err(GameError::MalformedInput(InputFault::WrongLength));
const NOT_A_DIGIT: Result<(usize, usize), GameError> =
    Err(GameError::MalformedInput(InputFault::NotADigit));
const OUT_OF_RANGE: Result<(usize, usize), GameError> =
    Err(GameError::MalformedInput(InputFault::OutOfRange));

fn parse(text: &str) -> Result<(usize, usize), GameError> {
    convert_user_input(String::from(text))
}

#[test]
fn two_digits_name_row_and_column_from_zero() {
    assert_eq!(parse("11"), Ok((0, 0)));
    assert_eq!(parse("33"), Ok((2, 2)));
}

#[test]
fn every_cell_can_be_named() {
    assert_eq!(parse("11"), Ok((0, 0)));
    assert_eq!(parse("12"), Ok((0, 1)));
    assert_eq!(parse("13"), Ok((0, 2)));
    assert_eq!(parse("21"), Ok((1, 0)));
    assert_eq!(parse("22"), Ok((1, 1)));
    assert_eq!(parse("23"), Ok((1, 2)));
    assert_eq!(parse("31"), Ok((2, 0)));
    assert_eq!(parse("32"), Ok((2, 1)));
    assert_eq!(parse("33"), Ok((2, 2)));
}

#[test]
fn malformed_text_is_a_parse_failure() {
    assert_eq!(parse("44"), OUT_OF_RANGE);
    assert_eq!(parse("1"), WRONG_LENGTH);
    assert_eq!(parse("1a"), NOT_A_DIGIT);
    assert_eq!(parse(""), WRONG_LENGTH);
}

#[test]
fn blanks_at_the_end_do_not_count() {
    assert_eq!(parse("11\n"), Ok((0, 0)));
    assert_eq!(parse("23\r\n"), Ok((1, 2)));
    assert_eq!(parse("32 \t\n"), Ok((2, 1)));
    assert_eq!(parse("31   "), Ok((2, 0)));
    assert_eq!(parse("44\n"), OUT_OF_RANGE);
    assert_eq!(parse("1a\n"), NOT_A_DIGIT);
    assert_eq!(parse("1\n"), WRONG_LENGTH);
    assert_eq!(parse("\n"), WRONG_LENGTH);
    assert_eq!(parse("   "), WRONG_LENGTH);
    assert_eq!(parse("123\n"), WRONG_LENGTH);
}

#[test]
fn blanks_elsewhere_are_part_of_the_text() {
    assert_eq!(parse(" 11"), WRONG_LENGTH);
    assert_eq!(parse("1 1"), WRONG_LENGTH);
    assert_eq!(parse(" 1"), NOT_A_DIGIT);
    assert_eq!(parse("1 2\n"), WRONG_LENGTH);
    assert_eq!(parse("\n11"), WRONG_LENGTH);
}

#[test]
fn the_length_is_judged_before_the_digits() {
    assert_eq!(parse("abc"), WRONG_LENGTH);
    assert_eq!(parse("999"), WRONG_LENGTH);
    assert_eq!(parse("1234567890"), WRONG_LENGTH);
    assert_eq!(parse("x"), WRONG_LENGTH);
}

#[test]
fn digits_out_of_range_are_turned_down() {
    assert_eq!(parse("01"), OUT_OF_RANGE);
    assert_eq!(parse("10"), OUT_OF_RANGE);
    assert_eq!(parse("14"), OUT_OF_RANGE);
    assert_eq!(parse("41"), OUT_OF_RANGE);
    assert_eq!(parse("00"), OUT_OF_RANGE);
    assert_eq!(parse("99"), OUT_OF_RANGE);
}

#[test]
fn characters_that_are_no_digits_are_turned_down() {
    assert_eq!(parse("a1"), NOT_A_DIGIT);
    assert_eq!(parse("1a"), NOT_A_DIGIT);
    assert_eq!(parse("ab"), NOT_A_DIGIT);
    assert_eq!(parse("-1"), NOT_A_DIGIT);
    assert_eq!(parse("+1"), NOT_A_DIGIT);
    assert_eq!(parse("1."), NOT_A_DIGIT);
    assert_eq!(parse("/1"), NOT_A_DIGIT);
    assert_eq!(parse("1:"), NOT_A_DIGIT);
    // A character that is no digit is reported before a digit out of range.
    assert_eq!(parse("9a"), NOT_A_DIGIT);
    assert_eq!(parse("a9"), NOT_A_DIGIT);
}

#[test]
fn length_is_counted_in_characters() {
    // Two characters, though more than two bytes.
    assert_eq!(parse("\u{ff11}\u{ff11}"), NOT_A_DIGIT);
    assert_eq!(parse("\u{e9}1"), NOT_A_DIGIT);
    assert_eq!(parse("1\u{e9}\n"), NOT_A_DIGIT);
    assert_eq!(parse("\u{661}\u{662}"), NOT_A_DIGIT);
    // A blank that is not among the four trailing blanks stays in the text.
    assert_eq!(parse("11\u{a0}"), WRONG_LENGTH);
    assert_eq!(parse("\u{e9}"), WRONG_LENGTH);
}

#[test]
fn ten_characters_are_digits() {
    for c in ['0', '1', '2', '3', '4', '5', '6', '7', '8', '9'] {
        assert!(is_digit(c));
    }
    for c in ['/', ':', 'a', ' ', '-', '+', '\u{ff11}', '\u{661}'] {
        assert!(!is_digit(c));
    }
}

#[test]
fn digits_one_to_three_have_an_index() {
    assert_eq!(digit_index('1'), Some(0));
    assert_eq!(digit_index('2'), Some(1));
    assert_eq!(digit_index('3'), Some(2));
    assert_eq!(digit_index('0'), None);
    assert_eq!(digit_index('4'), None);
    assert_eq!(digit_index('9'), None);
    assert_eq!(digit_index('a'), None);
    assert_eq!(digit_index(' '), None);
}

#[test]
fn four_characters_are_trailing_blanks() {
    assert!(is_trailing_blank(' '));
    assert!(is_trailing_blank('\t'));
    assert!(is_trailing_blank('\n'));
    assert!(is_trailing_blank('\r'));
    assert!(!is_trailing_blank('1'));
    assert!(!is_trailing_blank('\u{a0}'));
    assert!(!is_trailing_blank('\u{c}'));
}

#[test]
fn each_error_has_its_message() {
    assert_eq!(
        GameError::MalformedInput(InputFault::WrongLength).message(),
        "Must only input row and column"
    );
    assert_eq!(
        GameError::MalformedInput(InputFault::NotADigit).message(),
        "Row and column must be numbers"
    );
    assert_eq!(
        GameError::MalformedInput(InputFault::OutOfRange).message(),
        "Row and column values must be 1, 2, or 3."
    );
    assert_eq!(GameError::OccupiedCell.message(), "That space has already been played.");
}

#[test]
fn each_space_has_its_glyph() {
    assert_eq!(space_to_str(&Space::Blank), " ");
    assert_eq!(space_to_str(&Space::X), "X");
    assert_eq!(space_to_str(&Space::O), "O");
}
