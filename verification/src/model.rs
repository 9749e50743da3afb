//! The mathematical model of the game: what a board is, which lines win,
//! and what a move does. The contracts of the executable functions are
//! stated over these definitions.

use vstd::prelude::*;
use crate::space::{Player, Space};

verus! {

/// The board is this many cells wide.
pub const BOARD_WIDTH: usize = 3;

/// The board is this many cells high.
pub const BOARD_HEIGHT: usize = 3;

/// How many cells the board has.
pub open spec fn cell_count() -> int {
    BOARD_WIDTH * BOARD_HEIGHT
}

/// How many lines can win: three rows, three columns, two diagonals.
pub const LINE_COUNT: usize = 8;

/// Where the cell of a row and a column stands in the row-major sequence.
pub open spec fn cell_index(row: int, col: int) -> int {
    row * BOARD_WIDTH + col
}

/// The cells of each winning line, in the order in which the lines are
/// examined: the rows from the top, the columns from the left, the diagonal
/// from the top left, the diagonal from the top right.
pub open spec fn lines() -> Seq<(int, int, int)> {
    seq![
        (0, 1, 2),
        (3, 4, 5),
        (6, 7, 8),
        (0, 3, 6),
        (1, 4, 7),
        (2, 5, 8),
        (0, 4, 8),
        (2, 4, 6),
    ]
}

/// The mark that fills a line: the mark of its first cell if that cell is
/// not blank and every cell of the line holds the same mark.
pub open spec fn uniform_mark(line: Seq<Space>) -> Option<Space> {
    if line.len() > 0 && line[0] != Space::Blank && (forall|i: int|
        0 <= i < line.len() ==> #[trigger] line[i] == line[0]) {
        Some(line[0])
    } else {
        None
    }
}

/// The three cells of line `k`, as they stand in `cells`.
pub open spec fn line_of(cells: Seq<Space>, k: int) -> Seq<Space> {
    let (a, b, c) = lines()[k];
    seq![cells[a], cells[b], cells[c]]
}

/// The mark that has completed line `k`, if one has.
pub open spec fn line_mark(cells: Seq<Space>, k: int) -> Option<Space> {
    uniform_mark(line_of(cells, k))
}

/// The mark of the first completed line among the lines from `k` on.
pub open spec fn winner_from(cells: Seq<Space>, k: int) -> Option<Space>
    decreases LINE_COUNT - k,
{
    if k < 0 || k >= LINE_COUNT {
        None
    } else if line_mark(cells, k) is Some {
        line_mark(cells, k)
    } else {
        winner_from(cells, k + 1)
    }
}

/// How often `mark` occurs in `cells`.
pub open spec fn count(cells: Seq<Space>, mark: Space) -> nat
    decreases cells.len(),
{
    if cells.len() == 0 {
        0
    } else {
        count(cells.drop_last(), mark) + if cells.last() == mark {
            1nat
        } else {
            0nat
        }
    }
}

/// A sequence of blank cells holds no mark.
pub proof fn lemma_count_blank(n: nat, mark: Space)
    requires
        mark != Space::Blank,
    ensures
        count(Seq::new(n, |i: int| Space::Blank), mark) == 0,
    decreases n,
{
    if n > 0 {
        let cells = Seq::new(n, |i: int| Space::Blank);
        assert(cells.drop_last() =~= Seq::new((n - 1) as nat, |i: int| Space::Blank));
        lemma_count_blank((n - 1) as nat, mark);
    }
}

/// Writing `value` into cell `i` takes one from the count of the mark that
/// stood there and adds one to the count of `value`.
pub proof fn lemma_count_update(cells: Seq<Space>, i: int, value: Space, mark: Space)
    requires
        0 <= i < cells.len(),
    ensures
        count(cells.update(i, value), mark) == count(cells, mark) - (if cells[i] == mark {
            1int
        } else {
            0int
        }) + (if value == mark {
            1int
        } else {
            0int
        }),
    decreases cells.len(),
{
    let updated = cells.update(i, value);
    if i == cells.len() - 1 {
        assert(updated.drop_last() =~= cells.drop_last());
    } else {
        assert(updated.drop_last() =~= cells.drop_last().update(i, value));
        lemma_count_update(cells.drop_last(), i, value, mark);
    }
}

/// Where a game stands.
#[derive(Clone, Copy, Debug, PartialEq, Eq, Structural)]
pub enum Status {
    /// No line is complete and a cell is still blank.
    InProgress,
    /// The given mark has completed a line.
    Won(Space),
    /// Every cell is marked and no line is complete.
    Drawn,
}

/// A board as a mathematical value: nine cells in row-major order and the
/// player who moves next.
pub struct BoardView {
    pub cells: Seq<Space>,
    pub turn: Player,
}

impl BoardView {
    /// The board at the start of a game: every cell blank, the first player
    /// to move.
    pub open spec fn initial() -> BoardView {
        BoardView {
            cells: Seq::new(cell_count() as nat, |i: int| Space::Blank),
            turn: Player::First,
        }
    }

    /// The board has nine cells, and the marks on it are those of players
    /// who took turns, the first player starting: as many `X` as `O` when
    /// the first player is to move, one more when the second is.
    pub open spec fn wf(self) -> bool {
        &&& self.cells.len() == cell_count()
        &&& self.turn == Player::First ==> count(self.cells, Space::X) == count(
            self.cells,
            Space::O,
        )
        &&& self.turn == Player::Second ==> count(self.cells, Space::X) == count(
            self.cells,
            Space::O,
        ) + 1
    }

    /// What stands in the cell of a row and a column.
    pub open spec fn cell(self, row: int, col: int) -> Space {
        self.cells[cell_index(row, col)]
    }

    /// No cell is blank.
    pub open spec fn is_full(self) -> bool {
        forall|i: int| 0 <= i < self.cells.len() ==> self.cells[i] != Space::Blank
    }

    /// The mark of the first completed line, the lines taken in the order
    /// of [`lines`]; `None` where no line is complete.
    pub open spec fn winner(self) -> Option<Space> {
        winner_from(self.cells, 0)
    }

    /// Where the game stands: a completed line decides it, whether or not
    /// the board is full as well.
    pub open spec fn status(self) -> Status {
        match self.winner() {
            Some(mark) => Status::Won(mark),
            None => if self.is_full() {
                Status::Drawn
            } else {
                Status::InProgress
            },
        }
    }

    /// The board after the player to move has marked the given cell and the
    /// turn has passed to the other player.
    pub open spec fn place(self, row: int, col: int) -> BoardView {
        BoardView {
            cells: self.cells.update(cell_index(row, col), self.turn.spec_mark()),
            turn: self.turn.spec_other(),
        }
    }

    /// The board after a move at the given cell: the mark is placed where
    /// the cell is blank, and nothing changes where it is not.
    pub open spec fn apply(self, row: int, col: int) -> BoardView {
        if self.cell(row, col) == Space::Blank {
            self.place(row, col)
        } else {
            self
        }
    }

    /// The board at the start of a game is well formed.
    pub proof fn lemma_initial_wf()
        ensures
            BoardView::initial().wf(),
    {
        lemma_count_blank(cell_count() as nat, Space::X);
        lemma_count_blank(cell_count() as nat, Space::O);
    }

    /// A move on a well-formed board leaves a well-formed board, whether
    /// the mark was placed or the cell was occupied.
    pub proof fn lemma_apply_wf(self, row: int, col: int)
        requires
            self.wf(),
            0 <= row < BOARD_HEIGHT,
            0 <= col < BOARD_WIDTH,
        ensures
            self.apply(row, col).wf(),
    {
        let i = cell_index(row, col);
        lemma_count_update(self.cells, i, self.turn.spec_mark(), Space::X);
        lemma_count_update(self.cells, i, self.turn.spec_mark(), Space::O);
    }
}

} // verus!
