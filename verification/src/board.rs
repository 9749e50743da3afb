//! The board of a running game and the rules that act on it.

use vstd::prelude::*;
use crate::error::GameError;
use crate::laws::lemma_winner_is_first_complete_line;
use crate::model::{
    cell_count, line_mark, lines, uniform_mark, winner_from, BoardView, Status, BOARD_HEIGHT,
    BOARD_WIDTH, LINE_COUNT,
};
use crate::render::{bar_text, board_text, lemma_text_upto_all, rule_text, text_upto};
use crate::space::{space_to_str, Player, Space};

verus! {

/// The nine cells of a game and the player who moves next.
///
/// A board starts blank with [`Board::new`] and changes only through
/// [`Board::update_space`], so it is always well formed in the sense of
/// [`BoardView::wf`].
pub struct Board {
    spaces: Vec<Space>,
    turn: Player,
}

impl View for Board {
    type V = BoardView;

    closed spec fn view(&self) -> BoardView {
        BoardView { cells: self.spaces@, turn: self.turn }
    }
}

/// The cells of line `k`, in the order of [`lines`].
fn line_indexes(k: usize) -> (at: (usize, usize, usize))
    requires
        k < LINE_COUNT,
    ensures
        (at.0 as int, at.1 as int, at.2 as int) == lines()[k as int],
{
    match k {
        0 => (0, 1, 2),
        1 => (3, 4, 5),
        2 => (6, 7, 8),
        3 => (0, 3, 6),
        4 => (1, 4, 7),
        5 => (2, 5, 8),
        6 => (0, 4, 8),
        _ => (2, 4, 6),
    }
}

/// Writes the mark of the player to move into cell `at` and passes the turn
/// on. Both fields change in one call, so that no board is ever seen with
/// the mark placed and the turn not yet passed.
fn place_mark(spaces: &mut Vec<Space>, turn: &mut Player, at: usize)
    requires
        at < old(spaces)@.len(),
    ensures
        final(spaces)@ == old(spaces)@.update(at as int, old(turn).spec_mark()),
        *final(turn) == old(turn).spec_other(),
    no_unwind
{
    spaces[at] = turn.mark();
    *turn = turn.other();
}

impl Board {
    /// Every board that exists while the program runs is well formed.
    #[verifier::type_invariant]
    pub open spec fn inv(&self) -> bool {
        self@.wf()
    }

    /// A board at the start of a game: every cell blank, the first player
    /// to move.
    pub fn new() -> (board: Board)
        ensures
            board@ == BoardView::initial(),
            board@.wf(),
    {
        let spaces: Vec<Space> = vec![Space::Blank; BOARD_WIDTH * BOARD_HEIGHT];
        proof {
            assert(spaces@ =~= BoardView::initial().cells);
            BoardView::lemma_initial_wf();
        }
        Board { spaces, turn: Player::First }
    }

    /// The player who moves next.
    pub fn turn(&self) -> (player: Player)
        ensures
            player == self@.turn,
    {
        self.turn
    }

    /// What stands in the cell of `row` and `col`, both counted from 0.
    pub fn space(&self, row: usize, col: usize) -> (space: Space)
        requires
            row < BOARD_HEIGHT,
            col < BOARD_WIDTH,
        ensures
            space == self@.cell(row as int, col as int),
    {
        proof {
            use_type_invariant(self);
        }
        self.spaces[row * BOARD_WIDTH + col]
    }

    /// The mark that fills `line`: `Some` of its first cell's mark if that
    /// mark is not blank and all cells of the line hold it, `None` otherwise.
    pub fn check_line(line: &[Space]) -> (mark: Option<Space>)
        requires
            line@.len() > 0,
        ensures
            mark == uniform_mark(line@),
    {
        let first: Space = line[0];
        if first == Space::Blank {
            return None;
        }
        let mut i: usize = 0;
        while i < line.len()
            invariant
                i <= line@.len(),
                first == line@[0],
                first != Space::Blank,
                forall|j: int| 0 <= j < i ==> #[trigger] line@[j] == first,
            decreases line@.len() - i,
        {
            if line[i] != first {
                return None;
            }
            i += 1;
        }
        Some(first)
    }

    /// The mark that has won: that of the first completed line, the rows
    /// taken first from the top, then the columns from the left, then the
    /// two diagonals. `None` where no line is complete.
    pub fn check_win(&self) -> (mark: Option<Space>)
        ensures
            mark == self@.winner(),
            mark is None <==> (forall|k: int|
                0 <= k < LINE_COUNT ==> #[trigger] line_mark(self@.cells, k) is None),
    {
        proof {
            use_type_invariant(self);
            lemma_winner_is_first_complete_line(self@);
        }
        let mut k: usize = 0;
        while k < LINE_COUNT
            invariant
                k <= LINE_COUNT,
                self.spaces@.len() == cell_count(),
                winner_from(self.spaces@, k as int) == self@.winner(),
            decreases LINE_COUNT - k,
        {
            let (a, b, c) = line_indexes(k);
            let line: [Space; 3] = [self.spaces[a], self.spaces[b], self.spaces[c]];
            if let Some(mark) = Self::check_line(line.as_slice()) {
                return Some(mark);
            }
            k += 1;
        }
        None
    }

    /// Lets the player to move mark the cell of `row` and `col`, both
    /// counted from 0.
    ///
    /// Where the cell is blank it takes the player's mark and the turn
    /// passes to the other player. Where it already holds a mark the move is
    /// turned down with [`GameError::OccupiedCell`]: no cell changes and the
    /// same player is to move.
    pub fn update_space(&mut self, row: usize, col: usize) -> (outcome: Result<(), GameError>)
        requires
            row < BOARD_HEIGHT,
            col < BOARD_WIDTH,
        ensures
            final(self)@ == old(self)@.apply(row as int, col as int),
            final(self)@.wf(),
            old(self)@.cell(row as int, col as int) == Space::Blank ==> {
                &&& outcome == Ok::<(), GameError>(())
                &&& final(self)@ == old(self)@.place(row as int, col as int)
            },
            old(self)@.cell(row as int, col as int) != Space::Blank ==> {
                &&& outcome == Err::<(), GameError>(GameError::OccupiedCell)
                &&& final(self)@ == old(self)@
            },
    {
        proof {
            use_type_invariant(&*self);
            old(self)@.lemma_apply_wf(row as int, col as int);
        }
        let at: usize = row * BOARD_WIDTH + col;
        match self.spaces[at] {
            Space::Blank => {
                place_mark(&mut self.spaces, &mut self.turn, at);
                Ok(())
            },
            _ => Err(GameError::OccupiedCell),
        }
    }

    /// Whether every cell holds a mark.
    pub fn check_full(&self) -> (full: bool)
        ensures
            full == self@.is_full(),
    {
        proof {
            use_type_invariant(self);
        }
        let mut i: usize = 0;
        while i < self.spaces.len()
            invariant
                i <= self.spaces@.len(),
                forall|j: int| 0 <= j < i ==> self.spaces@[j] != Space::Blank,
            decreases self.spaces@.len() - i,
        {
            if self.spaces[i] == Space::Blank {
                return false;
            }
            i += 1;
        }
        true
    }

    /// Where the game stands. A completed line decides the game even where
    /// it was completed by the move that filled the board.
    pub fn status(&self) -> (status: Status)
        ensures
            status == self@.status(),
    {
        match self.check_win() {
            Some(mark) => Status::Won(mark),
            None => if self.check_full() {
                Status::Drawn
            } else {
                Status::InProgress
            },
        }
    }

    /// The board as text, as [`board_text`] lays it out.
    pub fn render(&self) -> (text: String)
        ensures
            text@ == board_text(self@.cells),
    {
        proof {
            use_type_invariant(self);
            reveal_strlit(" ");
            reveal_strlit("|");
            reveal_strlit("\n---+---+---\n");
        }
        let mut text = String::new();
        let mut i: usize = 0;
        while i < self.spaces.len()
            invariant
                i <= self.spaces@.len(),
                self.spaces@.len() == cell_count(),
                text@ == text_upto(self.spaces@, i as int),
                " "@ == seq![' '],
                "|"@ == bar_text(),
                "\n---+---+---\n"@ == rule_text(),
            decreases self.spaces@.len() - i,
        {
            let last_in_row = (i + 1) % BOARD_WIDTH == 0;
            let is_last_space = i == self.spaces.len() - 1;
            text.append(" ");
            text.append(space_to_str(&self.spaces[i]));
            text.append(" ");
            if last_in_row && is_last_space {
            } else if last_in_row {
                text.append("\n---+---+---\n");
            } else {
                text.append("|");
            }
            i += 1;
        }
        proof {
            lemma_text_upto_all(self.spaces@);
        }
        text
    }
}

} // verus!
