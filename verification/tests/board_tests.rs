use tic_tac_toe::board::{get, init_board, is_full, put, value_to_str, Mark, Pos};
use tic_tac_toe::board_text::board_str;

#[test]
fn should_display_board_correctly() {
    let board = [[1, 0, -1], [0, -1, 1], [-1, 1, 0]];
    println!("{}", board_str(&board));
}

#[test]
fn board_str_renders_the_exact_grid() {
    let board = [[1, 0, -1], [0, -1, 1], [-1, 1, 0]];
    let expected = " o |   | x \n-----------\n   | x | o \n-----------\n x | o |   \n";
    assert_eq!(board_str(&board), expected);
}

#[test]
fn value_to_str_names_each_mark() {
    assert_eq!(value_to_str(1), "o");
    assert_eq!(value_to_str(-1), "x");
    assert_eq!(value_to_str(0), " ");
}

#[test]
fn init_board_is_empty_and_put_fills_one_cell() {
    let mut board = init_board();
    for row in 0..3 {
        for col in 0..3 {
            assert_eq!(get(&board, row, col), 0);
        }
    }
    assert!(!is_full(&board));
    put(Mark::X, &mut board, &Pos { row: 1, col: 2 });
    assert_eq!(get(&board, 1, 2), -1);
    for row in 0..3 {
        for col in 0..3 {
            if (row, col) != (1, 2) {
                assert_eq!(get(&board, row, col), 0);
            }
        }
    }
}

#[test]
fn is_full_sees_the_last_empty_cell() {
    let almost = [[1, -1, 1], [-1, 1, -1], [-1, 1, 0]];
    assert!(!is_full(&almost));
    let full = [[1, -1, 1], [-1, 1, -1], [-1, 1, -1]];
    assert!(is_full(&full));
}
