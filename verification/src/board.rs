use vstd::prelude::*;

verus! {

broadcast use vstd::array::group_array_axioms;

/// The playing field: a 3x3 grid of cells, addressed by (row, column).
/// A cell holds 1 (player 1's mark, `o`), -1 (player 2's mark, `x`) or 0 (empty).
pub type Board = [[i8; 3]; 3];

/// The symbol a player places in a cell.
#[derive(Debug, Clone, Copy, PartialEq, Eq, Structural)]
pub enum Mark {
    O,
    X,
}

/// A player identity: a number (1 or 2) bound to a mark for the whole game.
#[derive(Debug, Clone, Copy, PartialEq, Eq, Structural)]
pub struct Player {
    pub no: u8,
    pub mark: Mark,
}

/// A position on the board, each coordinate in [0, 2].
#[derive(Debug, Clone, Copy, PartialEq, Eq, Structural)]
pub struct Pos {
    pub row: usize,
    pub col: usize,
}

pub open spec fn player1() -> Player {
    (Player { no: 1, mark: Mark::O })
}

pub open spec fn player2() -> Player {
    (Player { no: 2, mark: Mark::X })
}

/// The numeric weight of a mark: +1 for player 1's `o`, -1 for player 2's `x`.
pub open spec fn mark_weight(m: Mark) -> i8 {
    match m {
        Mark::O => 1i8,
        Mark::X => -1i8,
    }
}

pub fn mark_value(m: Mark) -> (v: i8)
    ensures
        v == mark_weight(m),
{
    match m {
        Mark::O => 1,
        Mark::X => -1,
    }
}

pub open spec fn cell_ok(v: i8) -> bool {
    v == -1 || v == 0 || v == 1
}

/// Every cell is exactly one of the three states: empty or one of the two marks.
pub open spec fn board_wf(b: Board) -> bool {
    forall|r: int, c: int| 0 <= r < 3 && 0 <= c < 3 ==> cell_ok(#[trigger] b[r][c])
}

/// All nine cells carry a mark.
pub open spec fn full(b: Board) -> bool {
    forall|r: int, c: int| 0 <= r < 3 && 0 <= c < 3 ==> #[trigger] b[r][c] != 0
}

/// A fresh board: all cells empty.
pub fn init_board() -> (b: Board)
    ensures
        forall|r: int, c: int| 0 <= r < 3 && 0 <= c < 3 ==> #[trigger] b[r][c] == 0,
        board_wf(b),
{
    let row: [i8; 3] = [0; 3];
    let b: Board = [row; 3];
    assert forall|r: int, c: int| 0 <= r < 3 && 0 <= c < 3 implies #[trigger] b[r][c] == 0 by {
        assert(b[r] == row);
        assert(row[c] == 0i8);
    }
    b
}

pub fn get(board: &Board, row: usize, col: usize) -> (v: i8)
    requires
        row < 3,
        col < 3,
    ensures
        v == board[row as int][col as int],
{
    board[row][col]
}

/// Place `mark` on the empty cell at `pos`, leaving every other cell as it was.
pub fn put(mark: Mark, board: &mut Board, pos: &Pos)
    requires
        pos.row < 3,
        pos.col < 3,
        old(board)[pos.row as int][pos.col as int] == 0,
    ensures
        final(board)[pos.row as int][pos.col as int] == mark_weight(mark),
        forall|r: int, c: int|
            0 <= r < 3 && 0 <= c < 3 && !(r == pos.row && c == pos.col)
                ==> final(board)[r][c] == old(board)[r][c],
{
    let mut row: [i8; 3] = board[pos.row];
    row[pos.col] = mark_value(mark);
    board[pos.row] = row;
}

/// True iff no empty cell remains.
pub fn is_full(board: &Board) -> (r: bool)
    ensures
        r == full(*board),
{
    let mut row: usize = 0;
    while row < 3
        invariant
            row <= 3,
            forall|i: int, j: int| 0 <= i < row && 0 <= j < 3 ==> #[trigger] board[i][j] != 0,
        decreases 3 - row,
    {
        let mut col: usize = 0;
        while col < 3
            invariant
                row < 3,
                col <= 3,
                forall|i: int, j: int| 0 <= i < row && 0 <= j < 3 ==> #[trigger] board[i][j] != 0,
                forall|j: int| 0 <= j < col ==> #[trigger] board[row as int][j] != 0,
            decreases 3 - col,
        {
            if board[row][col] == 0 {
                return false;
            }
            col = col + 1;
        }
        row = row + 1;
    }
    true
}

/// The one-character rendering of a cell value.
pub fn value_to_str(value: i8) -> (s: &'static str)
    ensures
        value == 1 ==> s@ == "o"@,
        value == -1 ==> s@ == "x"@,
        value != 1 && value != -1 ==> s@ == " "@,
{
    match value {
        1 => "o",
        -1 => "x",
        _ => " ",
    }
}

} // verus!
