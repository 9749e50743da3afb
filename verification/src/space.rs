//! The marks on the board and the players who place them.

use vstd::prelude::*;

verus! {

/// What one cell of the board holds.
#[derive(Clone, Copy, Debug, PartialEq, Eq, Structural)]
pub enum Space {
    /// Nobody has played here yet.
    Blank,
    /// The first player's mark.
    X,
    /// The second player's mark.
    O,
}

/// Whose turn it is.
#[derive(Clone, Copy, Debug, PartialEq, Eq, Structural)]
pub enum Player {
    /// Moves first and places `X`.
    First,
    /// Moves second and places `O`.
    Second,
}

impl Player {
    /// The mark that this player places.
    pub open spec fn spec_mark(self) -> Space {
        match self {
            Player::First => Space::X,
            Player::Second => Space::O,
        }
    }

    /// The player who moves after this one.
    pub open spec fn spec_other(self) -> Player {
        match self {
            Player::First => Player::Second,
            Player::Second => Player::First,
        }
    }

    /// The mark that this player places.
    #[verifier::when_used_as_spec(spec_mark)]
    pub fn mark(self) -> (space: Space)
        ensures
            space == self.spec_mark(),
        no_unwind
    {
        match self {
            Player::First => Space::X,
            Player::Second => Space::O,
        }
    }

    /// The player who moves after this one.
    #[verifier::when_used_as_spec(spec_other)]
    pub fn other(self) -> (next: Player)
        ensures
            next == self.spec_other(),
        no_unwind
    {
        match self {
            Player::First => Player::Second,
            Player::Second => Player::First,
        }
    }
}

/// The character that stands for a cell when the board is shown.
pub open spec fn glyph(space: Space) -> char {
    match space {
        Space::Blank => ' ',
        Space::X => 'X',
        Space::O => 'O',
    }
}

/// The one-character text that stands for a cell when the board is shown.
pub fn space_to_str<'a>(space: &'a Space) -> (text: &'a str)
    ensures
        text@ == seq![glyph(*space)],
{
    proof {
        reveal_strlit(" ");
        reveal_strlit("X");
        reveal_strlit("O");
    }
    match space {
        Space::Blank => " ",
        Space::X => "X",
        Space::O => "O",
    }
}

} // verus!
