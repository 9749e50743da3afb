//! Why a request of a player is turned down. Every such request leaves the
//! board as it was.

use vstd::prelude::*;

verus! {

/// What is wrong with the text of a move.
#[derive(Clone, Copy, Debug, PartialEq, Eq, Structural)]
pub enum InputFault {
    /// The text does not consist of exactly two characters.
    WrongLength,
    /// One of the two characters is not a digit.
    NotADigit,
    /// Both characters are digits, but one of them is not 1, 2 or 3.
    OutOfRange,
}

/// Why a request was turned down.
#[derive(Clone, Copy, Debug, PartialEq, Eq, Structural)]
pub enum GameError {
    /// The text of the move does not name a row and a column.
    MalformedInput(InputFault),
    /// The cell that the move names already holds a mark.
    OccupiedCell,
}

impl GameError {
    /// The line of text that tells the player what went wrong.
    pub open spec fn spec_message(self) -> Seq<char> {
        match self {
            GameError::MalformedInput(InputFault::WrongLength) => "Must only input row and column"@,
            GameError::MalformedInput(InputFault::NotADigit) => "Row and column must be numbers"@,
            GameError::MalformedInput(InputFault::OutOfRange) =>
                "Row and column values must be 1, 2, or 3."@,
            GameError::OccupiedCell => "That space has already been played."@,
        }
    }

    /// The line of text that tells the player what went wrong.
    pub fn message(&self) -> (text: &'static str)
        ensures
            text@ == self.spec_message(),
    {
        match self {
            GameError::MalformedInput(InputFault::WrongLength) => "Must only input row and column",
            GameError::MalformedInput(InputFault::NotADigit) => "Row and column must be numbers",
            GameError::MalformedInput(InputFault::OutOfRange) =>
                "Row and column values must be 1, 2, or 3.",
            GameError::OccupiedCell => "That space has already been played.",
        }
    }
}

} // verus!
