use vstd::prelude::*;
use vstd::string::*;
use crate::board::{Board, get, value_to_str};

verus! {

/// The glyph a cell value renders as.
pub open spec fn glyph(v: i8) -> char {
    if v == 1 {
        'o'
    } else if v == -1 {
        'x'
    } else {
        ' '
    }
}

/// A cell renders three characters wide: its glyph centered between blanks.
pub open spec fn cell_chars(v: i8) -> Seq<char> {
    seq![' ', glyph(v), ' ']
}

/// One row of the grid: the three cells separated by `|`, ended by a newline.
pub open spec fn row_chars(b: Board, r: int) -> Seq<char> {
    cell_chars(b[r][0]) + seq!['|'] + cell_chars(b[r][1]) + seq!['|'] + cell_chars(b[r][2])
        + seq!['\n']
}

/// The separator drawn between two rows.
pub open spec fn sep_chars() -> Seq<char> {
    seq!['-', '-', '-', '-', '-', '-', '-', '-', '-', '-', '-', '\n']
}

/// The whole grid: the three rows with a separator between neighbours.
pub open spec fn board_chars(b: Board) -> Seq<char> {
    row_chars(b, 0) + sep_chars() + row_chars(b, 1) + sep_chars() + row_chars(b, 2)
}

/// Append the three-character rendering of the cell at (r, c).
fn push_cell(s: &mut String, board: &Board, r: usize, c: usize)
    requires
        r < 3,
        c < 3,
    ensures
        final(s)@ == old(s)@ + cell_chars(board[r as int][c as int]),
{
    proof {
        reveal_strlit(" ");
        reveal_strlit("o");
        reveal_strlit("x");
    }
    s.append(" ");
    let v = value_to_str(get(board, r, c));
    s.append(v);
    s.append(" ");
    assert(s@ =~= old(s)@ + cell_chars(board[r as int][c as int]));
}

/// Append one rendered row of the grid.
fn push_row(s: &mut String, board: &Board, r: usize)
    requires
        r < 3,
    ensures
        final(s)@ == old(s)@ + row_chars(*board, r as int),
{
    proof {
        reveal_strlit("|");
        reveal_strlit("\n");
    }
    push_cell(s, board, r, 0);
    s.append("|");
    push_cell(s, board, r, 1);
    s.append("|");
    push_cell(s, board, r, 2);
    s.append("\n");
    assert(s@ =~= old(s)@ + row_chars(*board, r as int));
}

/// Render the board as the printable grid: three-character cells with `|`
/// separators and a dashed line between rows.
pub fn board_str(board: &Board) -> (s: String)
    ensures
        s@ == board_chars(*board),
{
    proof {
        reveal_strlit("-----------\n");
    }
    let mut s = String::new();
    push_row(&mut s, board, 0);
    s.append("-----------\n");
    assert(s@ =~= row_chars(*board, 0) + sep_chars());
    push_row(&mut s, board, 1);
    s.append("-----------\n");
    push_row(&mut s, board, 2);
    assert(s@ =~= board_chars(*board));
    s
}

} // verus!
