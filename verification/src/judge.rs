use vstd::prelude::*;
use crate::board::{Board, board_wf, player1, player2, Player, Pos, get};
use crate::lines::{line_count, line_row, line_col, line_spec, build_lines};

verus! {

/// The value of the cell of `b` at the j-th position of catalog line `i`.
pub open spec fn line_cell(b: Board, i: int, j: int) -> i8 {
    b[line_row(i, j)][line_col(i, j)]
}

/// The weight sum of catalog line `i`: +3 means all `o`, -3 all `x`.
pub open spec fn line_sum(b: Board, i: int) -> int {
    line_cell(b, i, 0) + line_cell(b, i, 1) + line_cell(b, i, 2)
}

/// Catalog line `i` is entirely marked with value `v`.
pub open spec fn line_all(b: Board, i: int, v: i8) -> bool {
    line_cell(b, i, 0) == v && line_cell(b, i, 1) == v && line_cell(b, i, 2) == v
}

/// Some catalog line is entirely marked with value `v`.
pub open spec fn wins(b: Board, v: i8) -> bool {
    exists|i: int| 0 <= i < line_count() && line_all(b, i, v)
}

/// The scan of the catalog from line `i` on: the first line summing to +3 names
/// player 1, the first summing to -3 names player 2, and a scan past the last
/// line names no one.
pub open spec fn scan_from(b: Board, i: int) -> Option<Player>
    decreases line_count() - i,
{
    if i < 0 || i >= line_count() {
        None
    } else if line_sum(b, i) >= 3 {
        Some(player1())
    } else if line_sum(b, i) <= -3 {
        Some(player2())
    } else {
        scan_from(b, i + 1)
    }
}

/// The verdict on a board: the result of scanning the whole catalog in order.
pub open spec fn verdict(b: Board) -> Option<Player> {
    scan_from(b, 0)
}

/// The outcome evaluator: the precomputed line catalog, scanned against a board
/// snapshot to decide whether a player has won.
pub struct Judge {
    lines: Vec<Vec<Pos>>,
}

impl Judge {
    /// The catalog held is exactly the eight winning lines, in catalog order.
    pub closed spec fn wf(self) -> bool {
        &&& self.lines@.len() == line_count()
        &&& forall|i: int| 0 <= i < line_count() ==> (#[trigger] self.lines@[i])@ == line_spec(i)
    }

    /// Scan the catalog against `board`; the result is the verdict on `board`.
    pub fn judge(&self, board: &Board) -> (r: Option<Player>)
        requires
            self.wf(),
            board_wf(*board),
        ensures
            r == verdict(*board),
    {
        let n = self.lines.len();
        let mut i: usize = 0;
        while i < n
            invariant
                self.wf(),
                board_wf(*board),
                n == line_count(),
                i <= n,
                scan_from(*board, i as int) == verdict(*board),
            decreases n - i,
        {
            let line = &self.lines[i];
            assert(line@ == line_spec(i as int));
            assert(line@.len() == 3);
            let p0 = line[0];
            let p1 = line[1];
            let p2 = line[2];
            assert(p0 == line_spec(i as int)[0] && p1 == line_spec(i as int)[1] && p2
                == line_spec(i as int)[2]);
            let sum: i8 = get(board, p0.row, p0.col) + get(board, p1.row, p1.col) + get(
                board,
                p2.row,
                p2.col,
            );
            assert(sum as int == line_sum(*board, i as int));
            if sum >= 3 {
                return Some(Player { no: 1, mark: crate::board::Mark::O });
            }
            if sum <= -3 {
                return Some(Player { no: 2, mark: crate::board::Mark::X });
            }
            i = i + 1;
        }
        None
    }
}

/// Build the outcome evaluator over the precomputed line catalog.
pub fn build_judge() -> (j: Judge)
    ensures
        j.wf(),
{
    Judge { lines: build_lines() }
}

/// On a well-formed board, a line sums to +3 exactly when it is all `o`,
/// and to -3 exactly when it is all `x`.
proof fn lemma_sum_all(b: Board, i: int)
    requires
        board_wf(b),
        0 <= i < line_count(),
    ensures
        line_sum(b, i) >= 3 <==> line_all(b, i, 1i8),
        line_sum(b, i) <= -3 <==> line_all(b, i, -1i8),
{
}

/// The scan from line `i` finds player 1 exactly when a line at or past `i` is
/// all `o`, and player 2 exactly when one is all `x` — as long as the two do not
/// both hold of the whole catalog.
proof fn lemma_scan_characterization(b: Board, i: int)
    requires
        board_wf(b),
        !(wins(b, 1i8) && wins(b, -1i8)),
        0 <= i <= line_count(),
    ensures
        scan_from(b, i) == Some(player1()) <==> exists|k: int|
            i <= k < line_count() && #[trigger] line_all(b, k, 1i8),
        scan_from(b, i) == Some(player2()) <==> exists|k: int|
            i <= k < line_count() && #[trigger] line_all(b, k, -1i8),
        scan_from(b, i) is None <==> !(exists|k: int|
            #![trigger line_all(b, k, 1i8)]
            #![trigger line_all(b, k, -1i8)]
            i <= k < line_count() && (line_all(b, k, 1i8) || line_all(b, k, -1i8))),
    decreases line_count() - i,
{
    if i < line_count() {
        lemma_sum_all(b, i);
        if line_sum(b, i) >= 3 {
            assert(line_all(b, i, 1i8));
        } else if line_sum(b, i) <= -3 {
            assert(line_all(b, i, -1i8));
        } else {
            lemma_scan_characterization(b, i + 1);
            assert forall|k: int| i <= k < line_count() && #[trigger] line_all(b, k, 1i8) implies i + 1 <= k by {
                if k == i {
                    assert(line_sum(b, i) >= 3);
                }
            }
            assert forall|k: int| i <= k < line_count() && #[trigger] line_all(b, k, -1i8) implies i + 1
                <= k by {
                if k == i {
                    assert(line_sum(b, i) <= -3);
                }
            }
        }
    }
}

/// The evaluator names player 1 exactly when some catalog line is entirely
/// player 1's mark, and player 2 exactly when some line is entirely player 2's
/// mark, provided the board does not hold complete lines of both players at
/// once (as a board reached by legal alternating play never does).
pub proof fn lemma_verdict_characterization(b: Board)
    requires
        board_wf(b),
        !(wins(b, 1i8) && wins(b, -1i8)),
    ensures
        verdict(b) == Some(player1()) <==> wins(b, 1i8),
        verdict(b) == Some(player2()) <==> wins(b, -1i8),
        verdict(b) is None <==> !wins(b, 1i8) && !wins(b, -1i8),
{
    lemma_scan_characterization(b, 0);
}

/// Evaluating the same board snapshot twice yields the same verdict.
pub proof fn lemma_verdict_deterministic(b1: Board, b2: Board)
    requires
        b1 == b2,
    ensures
        verdict(b1) == verdict(b2),
{
}

} // verus!
