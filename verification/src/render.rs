//! How a board is shown as text.
//!
//! Each cell is its glyph with a space on either side, the cells of a row
//! are parted by `|`, and the rows are parted by a rule of dashes and `+`:
//!
//! ```text
//!  X | O |
//! ---+---+---
//!    | X |
//! ---+---+---
//!  O |   | X
//! ```

use vstd::prelude::*;
use crate::model::{cell_count, BOARD_WIDTH};
use crate::space::{glyph, Space};

verus! {

/// The text of one cell: its glyph with a space on either side.
pub open spec fn cell_text(space: Space) -> Seq<char> {
    seq![' ', glyph(space), ' ']
}

/// The text that parts two cells of a row.
pub open spec fn bar_text() -> Seq<char> {
    seq!['|']
}

/// The text that parts two rows: a line break, the rule, a line break.
pub open spec fn rule_text() -> Seq<char> {
    seq!['\n', '-', '-', '-', '+', '-', '-', '-', '+', '-', '-', '-', '\n']
}

/// The text of one row: its three cells, parted by bars.
pub open spec fn row_text(cells: Seq<Space>, row: int) -> Seq<char> {
    cell_text(cells[row * BOARD_WIDTH]) + bar_text() + cell_text(cells[row * BOARD_WIDTH + 1])
        + bar_text() + cell_text(cells[row * BOARD_WIDTH + 2])
}

/// The text of a board of nine cells: its three rows, parted by rules, with
/// no line break at the end.
pub open spec fn board_text(cells: Seq<Space>) -> Seq<char> {
    row_text(cells, 0) + rule_text() + row_text(cells, 1) + rule_text() + row_text(cells, 2)
}

/// What follows cell `i` in the text: nothing after the last cell, a rule
/// at the end of a row, a bar elsewhere.
pub open spec fn parting_text(i: int) -> Seq<char> {
    if i == cell_count() - 1 {
        Seq::empty()
    } else if (i + 1) % (BOARD_WIDTH as int) == 0 {
        rule_text()
    } else {
        bar_text()
    }
}

/// The text of the first `n` cells, each with what follows it.
pub open spec fn text_upto(cells: Seq<Space>, n: int) -> Seq<char>
    decreases n,
{
    if n <= 0 {
        Seq::empty()
    } else {
        text_upto(cells, n - 1) + cell_text(cells[n - 1]) + parting_text(n - 1)
    }
}

/// Written cell by cell, the nine cells give the text of the board.
pub proof fn lemma_text_upto_all(cells: Seq<Space>)
    ensures
        text_upto(cells, cell_count()) == board_text(cells),
{
    reveal_with_fuel(text_upto, 10);
}

} // verus!
