use tic_tac_toe::board::{Mark, Player};
use tic_tac_toe::judge::build_judge;

fn player1() -> Player {
    Player { no: 1, mark: Mark::O }
}

fn player2() -> Player {
    Player { no: 2, mark: Mark::X }
}

#[test]
fn judge_player1_won_by_row() {
    let board = [[-1, 0, 0], [1, 1, 1], [1, -1, -1]];
    let res = build_judge().judge(&board);
    assert_eq!(res, Some(player1()));
}

#[test]
fn judge_player1_won_by_col() {
    let board = [[-1, 1, 0], [1, 1, -1], [0, 1, -1]];
    let res = build_judge().judge(&board);
    assert_eq!(res, Some(player1()));
}

#[test]
fn judge_player1_won_by_topleft_to_bottomright() {
    let board = [[1, -1, 0], [1, 1, -1], [0, -1, 1]];
    let res = build_judge().judge(&board);
    assert_eq!(res, Some(player1()));
}

#[test]
fn judge_player1_won_by_topright_to_bottomleft() {
    let board = [[-1, 0, 1], [0, 1, -1], [1, -1, 1]];
    let res = build_judge().judge(&board);
    assert_eq!(res, Some(player1()));
}

#[test]
fn judge_player2_won_by_row() {
    let board = [[1, 0, 0], [-1, -1, -1], [-1, 1, 1]];
    let res = build_judge().judge(&board);
    assert_eq!(res, Some(player2()));
}

#[test]
fn judge_player2_won_by_col() {
    let board = [[1, -1, 0], [-1, -1, 1], [0, -1, 1]];
    let res = build_judge().judge(&board);
    assert_eq!(res, Some(player2()));
}

#[test]
fn judge_player2_won_by_topleft_to_bottomright() {
    let board = [[-1, 1, 0], [-1, -1, 1], [0, 1, -1]];
    let res = build_judge().judge(&board);
    assert_eq!(res, Some(player2()));
}

#[test]
fn judge_player2_won_by_topright_to_bottomleft() {
    let board = [[1, 0, -1], [0, -1, 1], [-1, 1, -1]];
    let res = build_judge().judge(&board);
    assert_eq!(res, Some(player2()));
}

#[test]
fn judge_neither_won() {
    let board = [[1, 0, -1], [0, 1, 1], [-1, 1, -1]];
    let res = build_judge().judge(&board);
    assert_eq!(res, None);
}

#[test]
fn judge_scenario_a_middle_row_of_o() {
    let board = [[1, -1, 0], [1, 1, 1], [-1, 0, -1]];
    let res = build_judge().judge(&board);
    assert_eq!(res, Some(player1()));
}

#[test]
fn judge_scenario_b_middle_row_of_x() {
    let board = [[1, -1, 0], [-1, -1, -1], [1, 0, 1]];
    let res = build_judge().judge(&board);
    assert_eq!(res, Some(player2()));
}

#[test]
fn judge_scenario_c_full_board_without_winner() {
    let board = [[1, -1, 1], [-1, 1, -1], [-1, 1, -1]];
    let res = build_judge().judge(&board);
    assert_eq!(res, None);
    assert!(tic_tac_toe::board::is_full(&board));
}

#[test]
fn judge_same_board_twice_gives_same_verdict() {
    let board = [[1, -1, 0], [1, 1, 1], [-1, 0, -1]];
    let judge = build_judge();
    let first = judge.judge(&board);
    let second = judge.judge(&board);
    assert_eq!(first, second);
}

#[test]
fn scan_order_decides_when_both_players_hold_a_line() {
    // not reachable under alternating play: rows 0 and 1 are complete for
    // different players, and the earlier catalog line decides
    let board = [[-1, -1, -1], [1, 1, 1], [0, 0, 0]];
    let res = build_judge().judge(&board);
    assert_eq!(res, Some(player2()));
}
