use vstd::prelude::*;
use crate::board::{Board, board_wf, full, init_board, mark_weight, player1, player2, Player, Pos, put, is_full};
use crate::judge::{verdict, Judge, build_judge};

verus! {

/// The phase of a game: still accepting moves, won by a player, or drawn.
#[derive(Debug, Clone, Copy, PartialEq, Eq, Structural)]
pub enum GameState {
    AwaitingMove,
    Won(Player),
    Draw,
}

/// The player who acts on the k-th move, counting from zero: player 1 acts on
/// even counts, player 2 on odd ones.
pub open spec fn player_of(k: int) -> Player {
    if k % 2 == 0 {
        player1()
    } else {
        player2()
    }
}

/// 1 when the cell at (r, c) carries a mark, else 0.
pub open spec fn cell_filled(b: Board, r: int, c: int) -> int {
    if b[r][c] != 0 {
        1
    } else {
        0
    }
}

/// How many of the nine cells carry a mark.
pub open spec fn filled(b: Board) -> int {
    cell_filled(b, 0, 0) + cell_filled(b, 0, 1) + cell_filled(b, 0, 2) + cell_filled(b, 1, 0)
        + cell_filled(b, 1, 1) + cell_filled(b, 1, 2) + cell_filled(b, 2, 0) + cell_filled(
        b,
        2,
        1,
    ) + cell_filled(b, 2, 2)
}

/// The running game: the board, how many moves were made, the phase, and the
/// evaluator built once over the precomputed line catalog.
pub struct Game {
    pub board: Board,
    pub moves: usize,
    pub state: GameState,
    pub judge: Judge,
}

impl Game {
    /// The game invariant: the board is well formed, the move count equals the
    /// number of marked cells, and the phase reflects the board — moves are
    /// accepted exactly while no line is complete and a cell is free, a won
    /// game names the player the evaluator names, and a drawn game is full
    /// with no winner.
    pub open spec fn wf(self) -> bool {
        &&& board_wf(self.board)
        &&& self.moves == filled(self.board)
        &&& self.judge.wf()
        &&& (self.state is AwaitingMove ==> verdict(self.board) is None && !full(self.board))
        &&& (forall|p: Player| self.state == GameState::Won(p) ==> verdict(self.board) == Some(p))
        &&& (self.state is Draw ==> verdict(self.board) is None && full(self.board))
    }

    /// A fresh game: an empty board, no moves made, awaiting player 1's move.
    pub fn new() -> (g: Game)
        ensures
            g.wf(),
            g.moves == 0,
            g.state == GameState::AwaitingMove,
            forall|r: int, c: int| 0 <= r < 3 && 0 <= c < 3 ==> #[trigger] g.board[r][c] == 0,
    {
        let board = init_board();
        proof {
            crate::judge::lemma_verdict_characterization(board);
        }
        Game { board, moves: 0, state: GameState::AwaitingMove, judge: build_judge() }
    }

    /// The player whose turn it is: player 1 on even move counts, player 2 on
    /// odd ones — so turns strictly alternate starting with player 1.
    pub fn current_player(&self) -> (p: Player)
        ensures
            p == player_of(self.moves as int),
    {
        if self.moves % 2 == 0 {
            Player { no: 1, mark: crate::board::Mark::O }
        } else {
            Player { no: 2, mark: crate::board::Mark::X }
        }
    }

    /// Apply one validated move: place the acting player's mark on the chosen
    /// empty cell, then let the evaluator decide the next phase — a win ends
    /// the game at once, a full board with no winner is a draw, and otherwise
    /// the other player is to move.
    pub fn play(&mut self, row: usize, col: usize)
        requires
            old(self).wf(),
            old(self).state == GameState::AwaitingMove,
            row < 3,
            col < 3,
            old(self).board[row as int][col as int] == 0,
        ensures
            final(self).wf(),
            final(self).moves == old(self).moves + 1,
            final(self).board[row as int][col as int] == mark_weight(
                player_of(old(self).moves as int).mark,
            ),
            forall|r: int, c: int|
                0 <= r < 3 && 0 <= c < 3 && !(r == row && c == col)
                    ==> final(self).board[r][c] == old(self).board[r][c],
            final(self).state == (match verdict(final(self).board) {
                Option::Some(p) => GameState::Won(p),
                Option::None => if full(final(self).board) {
                    GameState::Draw
                } else {
                    GameState::AwaitingMove
                },
            }),
    {
        let player = self.current_player();
        let pos = Pos { row, col };
        proof {
            lemma_filled_update_bound(self.board, row as int, col as int);
        }
        put(player.mark, &mut self.board, &pos);
        proof {
            lemma_filled_update(old(self).board, self.board, row as int, col as int);
        }
        self.moves = self.moves + 1;
        let v = self.judge.judge(&self.board);
        match v {
            Some(p) => {
                self.state = GameState::Won(p);
            },
            None => {
                if is_full(&self.board) {
                    self.state = GameState::Draw;
                } else {
                    self.state = GameState::AwaitingMove;
                }
            },
        }
    }
}

/// A board with an empty cell has at most eight marked cells.
proof fn lemma_filled_update_bound(b: Board, r: int, c: int)
    requires
        0 <= r < 3,
        0 <= c < 3,
        b[r][c] == 0,
    ensures
        filled(b) <= 8,
{
}

/// Marking one empty cell raises the number of marked cells by one.
proof fn lemma_filled_update(b1: Board, b2: Board, r: int, c: int)
    requires
        0 <= r < 3,
        0 <= c < 3,
        b1[r][c] == 0,
        b2[r][c] != 0,
        forall|i: int, j: int|
            0 <= i < 3 && 0 <= j < 3 && !(i == r && j == c) ==> b2[i][j] == b1[i][j],
    ensures
        filled(b2) == filled(b1) + 1,
{
}

/// A game never runs past nine moves: the move count equals the number of
/// marked cells, and the board has only nine cells.
pub proof fn lemma_move_bound(g: Game)
    requires
        g.wf(),
    ensures
        g.moves <= 9,
{
}

/// Turn alternation: player 1 acts on the first move, no two consecutive
/// moves are by the same player, and the acting player's number on the k-th
/// move is 1 on even k and 2 on odd k — the sequence 1, 2, 1, 2, ...
pub proof fn lemma_turn_alternation(k: int)
    requires
        k >= 0,
    ensures
        player_of(0) == player1(),
        player_of(k + 1) != player_of(k),
        player_of(k).no == (if k % 2 == 0 {
            1u8
        } else {
            2u8
        }),
{
}

} // verus!
