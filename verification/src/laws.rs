//! Laws of the game, proved over the definitions in [`crate::model`].

use vstd::prelude::*;
use crate::model::{
    cell_count, count, line_mark, line_of, winner_from, BoardView, Status, BOARD_HEIGHT,
    BOARD_WIDTH, LINE_COUNT,
};
use crate::space::{Player, Space};

verus! {

/// Whether a move names a cell of the board.
pub open spec fn on_board(at: (int, int)) -> bool {
    0 <= at.0 < BOARD_HEIGHT && 0 <= at.1 < BOARD_WIDTH
}

/// The board reached from `start` when the moves of `moves` are made one
/// after the other, each by the player whose turn it then is. A move at an
/// occupied cell changes nothing.
pub open spec fn play(start: BoardView, moves: Seq<(int, int)>) -> BoardView
    decreases moves.len(),
{
    if moves.len() == 0 {
        start
    } else {
        play(start, moves.drop_last()).apply(moves.last().0, moves.last().1)
    }
}

/// Whatever moves are made on a well-formed board, the board stays well
/// formed.
pub proof fn lemma_play_keeps_wf(start: BoardView, moves: Seq<(int, int)>)
    requires
        start.wf(),
        forall|i: int| 0 <= i < moves.len() ==> on_board(#[trigger] moves[i]),
    ensures
        play(start, moves).wf(),
    decreases moves.len(),
{
    if moves.len() > 0 {
        let earlier = moves.drop_last();
        lemma_play_keeps_wf(start, earlier);
        play(start, earlier).lemma_apply_wf(moves.last().0, moves.last().1);
    }
}

/// After any sequence of moves from the start of a game, the board holds as
/// many `X` as `O`, or one `X` more: as many when the first player is to
/// move, one more when the second is.
pub proof fn lemma_marks_stay_balanced(moves: Seq<(int, int)>)
    requires
        forall|i: int| 0 <= i < moves.len() ==> on_board(#[trigger] moves[i]),
    ensures
        ({
            let board = play(BoardView::initial(), moves);
            let ahead = count(board.cells, Space::X) - count(board.cells, Space::O);
            &&& ahead == 0 || ahead == 1
            &&& ahead == 0 <==> board.turn == Player::First
        }),
{
    BoardView::lemma_initial_wf();
    lemma_play_keeps_wf(BoardView::initial(), moves);
}

/// A game starts with a board that is not full.
pub proof fn lemma_initial_not_full()
    ensures
        !BoardView::initial().is_full(),
{
    assert(BoardView::initial().cells[0] == Space::Blank);
}

/// A full board takes no further move: whatever cell a move names, the
/// board stays as it is.
pub proof fn lemma_full_board_takes_no_move(board: BoardView, row: int, col: int)
    requires
        board.cells.len() == cell_count(),
        on_board((row, col)),
        board.is_full(),
    ensures
        board.apply(row, col) == board,
{
}

/// The winner found from line `k` on is the mark of the first completed
/// line among those lines, and there is none exactly when none of them is
/// complete.
pub proof fn lemma_winner_from(cells: Seq<Space>, k: int)
    requires
        0 <= k <= LINE_COUNT,
    ensures
        match winner_from(cells, k) {
            Some(mark) => exists|i: int|
                {
                    &&& k <= i < LINE_COUNT
                    &&& #[trigger] line_mark(cells, i) == Some(mark)
                    &&& forall|j: int| k <= j < i ==> #[trigger] line_mark(cells, j) is None
                },
            None => forall|i: int| k <= i < LINE_COUNT ==> #[trigger] line_mark(cells, i) is None,
        },
    decreases LINE_COUNT - k,
{
    if k < LINE_COUNT && line_mark(cells, k) is None {
        lemma_winner_from(cells, k + 1);
    }
}

/// The winner of a board is the mark of its first completed line, and there
/// is none exactly when no line is complete.
pub proof fn lemma_winner_is_first_complete_line(board: BoardView)
    ensures
        board.winner() matches Some(mark) ==> exists|k: int|
            {
                &&& 0 <= k < LINE_COUNT
                &&& #[trigger] line_mark(board.cells, k) == Some(mark)
                &&& forall|j: int| 0 <= j < k ==> #[trigger] line_mark(board.cells, j) is None
            },
        board.winner() is None <==> (forall|k: int|
            0 <= k < LINE_COUNT ==> #[trigger] line_mark(board.cells, k) is None),
{
    lemma_winner_from(board.cells, 0);
}

/// A line that one mark fills wins for that mark, if no line before it in
/// the order of the lines is complete.
pub proof fn lemma_first_complete_line_wins(board: BoardView, k: int, mark: Space)
    requires
        0 <= k < LINE_COUNT,
        mark != Space::Blank,
        line_of(board.cells, k) == seq![mark, mark, mark],
        forall|j: int| 0 <= j < k ==> #[trigger] line_mark(board.cells, j) is None,
    ensures
        board.winner() == Some(mark),
        board.status() == Status::Won(mark),
{
    assert(line_mark(board.cells, k) == Some(mark));
    lemma_winner_from(board.cells, 0);
}

/// A game starts with a board that has no winner and is in progress.
pub proof fn lemma_initial_in_progress()
    ensures
        BoardView::initial().winner() is None,
        BoardView::initial().status() == Status::InProgress,
{
    lemma_winner_from(BoardView::initial().cells, 0);
    lemma_initial_not_full();
}

/// A move can only win for the player who makes it: where no line was
/// complete before the move, the board after it has no winner or has the
/// mover's mark as its winner.
pub proof fn lemma_only_the_mover_wins(board: BoardView, row: int, col: int)
    requires
        board.cells.len() == cell_count(),
        on_board((row, col)),
        board.cell(row, col) == Space::Blank,
        board.winner() is None,
    ensures
        board.place(row, col).winner() is None || board.place(row, col).winner() == Some(
            board.turn.spec_mark(),
        ),
{
    let after = board.place(row, col);
    lemma_winner_from(board.cells, 0);
    lemma_winner_from(after.cells, 0);
    if let Some(found) = after.winner() {
        let k = choose|k: int|
            0 <= k < LINE_COUNT && #[trigger] line_mark(after.cells, k) == Some(found);
        // Line `k` was not complete before the move, so the move marked one
        // of its cells, and all three now hold the mover's mark.
        assert(line_mark(board.cells, k) is None);
    }
}

} // verus!
