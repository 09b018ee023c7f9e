use game_search::score::Score;
use game_search::search::evaluate;
use game_search::tictactoe::Game;
use game_search::tictactoe::Player;
use game_search::tictactoe::TileState;

const X: TileState = TileState::Cross;
const O: TileState = TileState::Circle;
const E: TileState = TileState::Empty;

#[test]
fn terminal_precedence_win_depth_zero() {
    let game = Game::from_board([[X, X, X], [O, O, E], [E, E, E]], Player::Circle);
    assert_eq!(evaluate(&game, 0, false), Score::PosInf);
}

#[test]
fn terminal_precedence_win_with_depth_left() {
    let game = Game::from_board([[X, X, X], [O, O, E], [E, E, E]], Player::Circle);
    assert_eq!(evaluate(&game, 7, false), Score::PosInf);
}

#[test]
fn terminal_precedence_circle_win() {
    let game = Game::from_board([[O, O, O], [X, X, E], [X, E, E]], Player::Cross);
    assert_eq!(evaluate(&game, 0, true), Score::NegInf);
    assert_eq!(evaluate(&game, 10, true), Score::NegInf);
}

#[test]
fn terminal_precedence_draw() {
    let game = Game::from_board([[X, O, X], [X, O, O], [O, X, X]], Player::Circle);
    assert_eq!(evaluate(&game, 0, false), Score::Finite(0));
    assert_eq!(evaluate(&game, 10, false), Score::Finite(0));
}

#[test]
fn depth_limit_zero_returns_heuristic() {
    let game = Game::new();
    assert_eq!(evaluate(&game, 0, true), Score::Finite(0));
}

#[test]
fn depth_limit_zero_returns_heuristic_mid_game() {
    let game = Game::from_board([[X, E, E], [E, O, E], [E, E, E]], Player::Cross);
    assert_eq!(evaluate(&game, 0, true), Score::Finite(0));
}

#[test]
fn empty_board_is_a_draw_with_full_depth() {
    let game = Game::new();
    assert_eq!(evaluate(&game, 9, true), Score::Finite(0));
}

#[test]
fn forced_win_for_cross_one_move_ahead() {
    let game = Game::from_board([[X, X, E], [O, O, E], [E, E, E]], Player::Cross);
    assert_eq!(evaluate(&game, 9, true), Score::PosInf);
}

#[test]
fn forced_win_for_circle_one_move_ahead() {
    let game = Game::from_board([[X, X, E], [O, O, E], [X, E, E]], Player::Circle);
    assert_eq!(evaluate(&game, 9, false), Score::NegInf);
}

#[test]
fn alternation_same_board_other_mover() {
    let board = [[X, X, E], [O, O, E], [E, E, E]];
    let cross_to_move = Game::from_board(board, Player::Cross);
    let circle_to_move = Game::from_board(board, Player::Circle);
    assert_eq!(evaluate(&cross_to_move, 10, true), Score::PosInf);
    assert_eq!(evaluate(&circle_to_move, 10, false), Score::NegInf);
}

#[test]
fn end_to_end_cross_completes_top_row() {
    let game = Game::from_board([[X, X, E], [O, O, E], [E, E, E]], Player::Cross);
    assert_eq!(evaluate(&game, 10, true), Score::PosInf);
}

#[test]
fn evaluation_is_deterministic() {
    let game = Game::from_board([[X, E, E], [E, O, E], [E, E, E]], Player::Cross);
    let first = evaluate(&game, 6, true);
    let second = evaluate(&game, 6, true);
    assert_eq!(first, second);
    let third = evaluate(&Game::new(), 9, true);
    let fourth = evaluate(&Game::new(), 9, true);
    assert_eq!(third, fourth);
}
