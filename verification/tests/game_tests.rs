use tic_tac_toe::board::{Mark, Player};
use tic_tac_toe::counters::counters;
use tic_tac_toe::game::{Game, GameState};

#[test]
fn players_alternate_starting_with_player_one() {
    let mut game = Game::new();
    assert_eq!(game.current_player(), Player { no: 1, mark: Mark::O });
    game.play(0, 0);
    assert_eq!(game.current_player(), Player { no: 2, mark: Mark::X });
    game.play(1, 0);
    assert_eq!(game.current_player(), Player { no: 1, mark: Mark::O });
    assert_eq!(game.moves, 2);
}

#[test]
fn scenario_d_player_one_wins_on_the_fifth_move() {
    // player 1 takes (0,0), (0,1), (0,2); player 2 answers at (1,0), (2,1)
    let mut game = Game::new();
    game.play(0, 0);
    assert_eq!(game.state, GameState::AwaitingMove);
    game.play(1, 0);
    assert_eq!(game.state, GameState::AwaitingMove);
    game.play(0, 1);
    assert_eq!(game.state, GameState::AwaitingMove);
    game.play(2, 1);
    assert_eq!(game.state, GameState::AwaitingMove);
    game.play(0, 2);
    assert_eq!(game.state, GameState::Won(Player { no: 1, mark: Mark::O }));
    assert_eq!(game.moves, 5);
}

#[test]
fn a_full_board_without_winner_ends_in_a_draw() {
    // nine alternating moves towards o x o / o x x / x o o
    let mut game = Game::new();
    game.play(0, 0); // o
    game.play(0, 1); // x
    game.play(0, 2); // o
    game.play(1, 1); // x
    game.play(1, 0); // o
    game.play(1, 2); // x
    game.play(2, 1); // o
    game.play(2, 0); // x
    assert_eq!(game.state, GameState::AwaitingMove);
    game.play(2, 2); // o
    assert_eq!(game.state, GameState::Draw);
    assert_eq!(game.moves, 9);
    assert!(tic_tac_toe::board::is_full(&game.board));
}

#[test]
fn the_two_hands_bump_the_same_count() {
    let mut c = counters();
    assert_eq!(c.count_up(), 1);
    assert_eq!(c.count_up(), 2);
    assert_eq!(c.count_up_hundred(), 102);
    assert_eq!(c.count_up_hundred(), 202);
    assert_eq!(c.count_up(), 203);
    assert_eq!(c.count_up_hundred(), 303);
}
