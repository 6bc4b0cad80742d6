use vstd::prelude::*;
use crate::board::{Board, Pos, get};

verus! {

/// A coordinate line is valid when it is exactly one of the characters
/// '0', '1' or '2'.
pub open spec fn valid_coord_str(s: Seq<char>) -> bool {
    s.len() == 1 && '0' <= s[0] && s[0] <= '2'
}

/// The index a valid coordinate line denotes.
pub open spec fn coord_value(s: Seq<char>) -> int {
    s[0] as int - '0' as int
}

/// Relies on regex::Regex::is_match with the pattern `^[0-2]$`: without
/// multi-line mode, `^` and `$` match only at the very start and end of the
/// haystack, so the pattern matches exactly the one-character strings "0",
/// "1" and "2". The pattern is a well-formed expression, so Regex::new
/// returns Ok and the unwrap cannot panic.
#[verifier::external_body]
fn coord_regex_match(s: &str) -> (r: bool)
    ensures
        r == valid_coord_str(s@),
{
    regex::Regex::new("^[0-2]$").unwrap().is_match(s)
}

/// Decide one coordinate line: accepted exactly when the input is "0", "1"
/// or "2", and an accepted coordinate is never outside [0, 2].
pub fn parse_coordinate(input: &str) -> (r: Option<usize>)
    ensures
        valid_coord_str(input@) ==> r == Some(coord_value(input@) as usize) && coord_value(input@)
            <= 2,
        !valid_coord_str(input@) ==> r is None,
{
    if coord_regex_match(input) {
        let c = input.get_char(0);
        if c == '0' {
            Some(0)
        } else if c == '1' {
            Some(1)
        } else {
            Some(2)
        }
    } else {
        None
    }
}

/// Decide one round of the legal-move dialogue: the two coordinate lines of a
/// prompt round yield a move exactly when both are valid coordinates and the
/// addressed cell is empty. A returned move never lies outside the board and
/// never addresses an occupied cell.
pub fn validate_move(board: &Board, row_input: &str, col_input: &str) -> (r: Option<Pos>)
    ensures
        r is Some <==> valid_coord_str(row_input@) && valid_coord_str(col_input@) && board[
            coord_value(row_input@)
        ][coord_value(col_input@)] == 0,
        r matches Some(p) ==> p.row == coord_value(row_input@) && p.col == coord_value(col_input@)
            && p.row <= 2 && p.col <= 2 && board[p.row as int][p.col as int] == 0,
{
    match parse_coordinate(row_input) {
        Some(row) => match parse_coordinate(col_input) {
            Some(col) => {
                if get(board, row, col) == 0 {
                    Some(Pos { row, col })
                } else {
                    None
                }
            },
            None => None,
        },
        None => None,
    }
}

} // verus!
