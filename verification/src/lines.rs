use vstd::prelude::*;
use crate::board::Pos;

verus! {

/// How many winning lines the 3x3 board has: three rows, three columns, two diagonals.
pub open spec fn line_count() -> int {
    8
}

/// The row of the j-th cell of the i-th catalog line. Catalog order: lines 0 to 2
/// are the rows, 3 to 5 the columns, 6 the top-left to bottom-right diagonal and
/// 7 the top-right to bottom-left diagonal.
pub open spec fn line_row(i: int, j: int) -> int {
    if i < 3 {
        i
    } else {
        j
    }
}

/// The column of the j-th cell of the i-th catalog line.
pub open spec fn line_col(i: int, j: int) -> int {
    if i < 3 {
        j
    } else if i < 6 {
        i - 3
    } else if i == 6 {
        j
    } else {
        2 - j
    }
}

/// The set of positions the i-th catalog line covers.
pub open spec fn line_spec(i: int) -> Seq<Pos> {
    Seq::new(3, |j: int| (Pos { row: line_row(i, j) as usize, col: line_col(i, j) as usize }))
}

/// Build the catalog of the eight winning lines, in catalog order.
pub fn build_lines() -> (lines: Vec<Vec<Pos>>)
    ensures
        lines@.len() == line_count(),
        forall|i: int| 0 <= i < line_count() ==> (#[trigger] lines@[i])@ == line_spec(i),
{
    let mut lines: Vec<Vec<Pos>> = Vec::new();

    let mut row: usize = 0;
    while row < 3
        invariant
            row <= 3,
            lines@.len() == row,
            forall|i: int| 0 <= i < row ==> (#[trigger] lines@[i])@ == line_spec(i),
        decreases 3 - row,
    {
        let mut line: Vec<Pos> = Vec::new();
        let mut col: usize = 0;
        while col < 3
            invariant
                row < 3,
                col <= 3,
                line@.len() == col,
                forall|j: int| 0 <= j < col ==> #[trigger] line@[j] == line_spec(row as int)[j],
            decreases 3 - col,
        {
            line.push(Pos { row, col });
            col = col + 1;
        }
        assert(line@ =~= line_spec(row as int));
        lines.push(line);
        row = row + 1;
    }

    let mut col: usize = 0;
    while col < 3
        invariant
            col <= 3,
            lines@.len() == 3 + col,
            forall|i: int| 0 <= i < 3 + col ==> (#[trigger] lines@[i])@ == line_spec(i),
        decreases 3 - col,
    {
        let mut line: Vec<Pos> = Vec::new();
        let mut row: usize = 0;
        while row < 3
            invariant
                col < 3,
                row <= 3,
                line@.len() == row,
                forall|j: int| 0 <= j < row ==> #[trigger] line@[j] == line_spec(3 + col)[j],
            decreases 3 - row,
        {
            line.push(Pos { row, col });
            row = row + 1;
        }
        assert(line@ =~= line_spec(3 + col));
        lines.push(line);
        col = col + 1;
    }

    let mut diag: Vec<Pos> = Vec::new();
    let mut x: usize = 0;
    while x < 3
        invariant
            x <= 3,
            diag@.len() == x,
            forall|j: int| 0 <= j < x ==> #[trigger] diag@[j] == line_spec(6)[j],
        decreases 3 - x,
    {
        diag.push(Pos { row: x, col: x });
        x = x + 1;
    }
    assert(diag@ =~= line_spec(6));
    lines.push(diag);

    let mut anti: Vec<Pos> = Vec::new();
    let mut r: usize = 0;
    while r < 3
        invariant
            r <= 3,
            anti@.len() == r,
            forall|j: int| 0 <= j < r ==> #[trigger] anti@[j] == line_spec(7)[j],
        decreases 3 - r,
    {
        anti.push(Pos { row: r, col: 2 - r });
        r = r + 1;
    }
    assert(anti@ =~= line_spec(7));
    lines.push(anti);

    lines
}

} // verus!
