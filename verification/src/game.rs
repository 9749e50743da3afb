//! One turn of a game: from the board and the text that the player to move
//! typed, to the board after the turn and what the front end has to tell
//! the players.
//!
//! A front end shows the board, reads a line, hands it to
//! [`Board::play_turn`], and goes on for as long as the game is
//! [`Status::InProgress`].

use vstd::prelude::*;
use crate::board::Board;
use crate::error::GameError;
use crate::input::{convert_user_input, parse_move};
use crate::model::{BoardView, Status};
use crate::space::{glyph, space_to_str, Space};

verus! {

impl BoardView {
    /// The board after the player to move has typed `text`: the move is
    /// made where the text names a blank cell, and nothing changes where it
    /// names no cell or an occupied one.
    pub open spec fn after_turn(self, text: Seq<char>) -> BoardView {
        match parse_move(text) {
            Ok((row, col)) => self.apply(row as int, col as int),
            Err(_) => self,
        }
    }

    /// What the turn comes to: where the game stands after the move, or why
    /// no move was made.
    pub open spec fn turn_outcome(self, text: Seq<char>) -> Result<Status, GameError> {
        match parse_move(text) {
            Ok((row, col)) => if self.cell(row as int, col as int) == Space::Blank {
                Ok(self.place(row as int, col as int).status())
            } else {
                Err(GameError::OccupiedCell)
            },
            Err(fault) => Err(fault),
        }
    }
}

impl Status {
    /// The line that announces the end of a game: who has won, or that the
    /// board is full. A game in progress has nothing to announce.
    pub open spec fn spec_announcement(self) -> Option<Seq<char>> {
        match self {
            Status::InProgress => None,
            Status::Won(mark) => Some(seq![glyph(mark)] + " wins!"@),
            Status::Drawn => Some("The board is full!"@),
        }
    }

    /// The line that announces the end of a game: who has won, or that the
    /// board is full. A game in progress has nothing to announce.
    pub fn announcement(&self) -> (line: Option<String>)
        ensures
            match line {
                Some(text) => self.spec_announcement() == Some(text@),
                None => self.spec_announcement() is None,
            },
    {
        match self {
            Status::InProgress => None,
            Status::Won(mark) => {
                let mut text = String::new();
                text.append(space_to_str(mark));
                text.append(" wins!");
                Some(text)
            },
            Status::Drawn => Some(String::from_str("The board is full!")),
        }
    }
}

impl Board {
    /// Plays one turn of a game in progress on the text that the player to
    /// move typed.
    ///
    /// Where the text names a blank cell, the player's mark is placed, the
    /// turn passes on, and the result says where the game stands now. Where
    /// the text names no cell, or a cell that is occupied, the board stays
    /// as it was, the same player is to move, and the result says why.
    pub fn play_turn(&mut self, user_input: String) -> (outcome: Result<Status, GameError>)
        requires
            old(self)@.status() == Status::InProgress,
        ensures
            final(self)@ == old(self)@.after_turn(user_input@),
            outcome == old(self)@.turn_outcome(user_input@),
    {
        match convert_user_input(user_input) {
            Ok((row, col)) => match self.update_space(row, col) {
                Ok(()) => Ok(self.status()),
                Err(occupied) => Err(occupied),
            },
            Err(fault) => Err(fault),
        }
    }
}

} // verus!
