use game_search::score::Score;
use game_search::tictactoe::key_to_coordinate;
use game_search::tictactoe::outcome_score;
use game_search::tictactoe::player_is_maximizing;
use game_search::tictactoe::Game;
use game_search::tictactoe::GameOutcome;
use game_search::tictactoe::Player;
use game_search::tictactoe::TileState;

const X: TileState = TileState::Cross;
const O: TileState = TileState::Circle;
const E: TileState = TileState::Empty;

#[test]
fn new_game_has_nine_empty_tiles_row_major() {
    let game = Game::new();
    let tiles = game.empty_tiles();
    let expected: Vec<(usize, usize)> = vec![
        (0, 0),
        (0, 1),
        (0, 2),
        (1, 0),
        (1, 1),
        (1, 2),
        (2, 0),
        (2, 1),
        (2, 2),
    ];
    assert_eq!(tiles, expected);
}

#[test]
fn new_game_cross_moves_first() {
    let game = Game::new();
    assert_eq!(game.get_game_turn(), Player::Cross);
}

#[test]
fn make_move_claims_tile_and_passes_turn() {
    let mut game = Game::new();
    game.make_move((0, 0));
    assert_eq!(game.get_game_turn(), Player::Circle);
    assert!(!game.empty_tiles().contains(&(0, 0)));
    assert_eq!(game.empty_tiles().len(), 8);
    game.make_move((1, 1));
    assert_eq!(game.get_game_turn(), Player::Cross);
    assert_eq!(game.empty_tiles().len(), 7);
    let expected = "| ".to_string() + " x " + "   " + "   " + " |\n"
        + "| " + "   " + " o " + "   " + " |\n"
        + "| " + "   " + "   " + "   " + " |\n";
    assert_eq!(game.to_string(), expected);
}

#[test]
fn from_board_keeps_board_and_turn() {
    let game = Game::from_board([[X, E, E], [E, O, E], [E, E, E]], Player::Cross);
    assert_eq!(game.get_game_turn(), Player::Cross);
    let tiles = game.empty_tiles();
    assert_eq!(tiles.len(), 7);
    assert!(!tiles.contains(&(0, 0)));
    assert!(!tiles.contains(&(1, 1)));
}

#[test]
fn get_children_of_fresh_game() {
    let game = Game::new();
    let children = game.get_children();
    assert_eq!(children.len(), 9);
    for child in &children {
        assert_eq!(child.get_game_turn(), Player::Circle);
        assert_eq!(child.empty_tiles().len(), 8);
    }
    let first = &children[0];
    assert!(!first.empty_tiles().contains(&(0, 0)));
}

#[test]
fn get_children_of_nearly_full_game() {
    let game = Game::from_board([[X, O, X], [X, O, O], [O, X, E]], Player::Cross);
    let children = game.get_children();
    assert_eq!(children.len(), 1);
    assert_eq!(children[0].get_outcome(), Some(GameOutcome::Draw));
}

#[test]
fn outcome_none_while_playing() {
    assert_eq!(Game::new().get_outcome(), None);
    let game = Game::from_board([[X, O, X], [E, O, E], [E, E, E]], Player::Cross);
    assert_eq!(game.get_outcome(), None);
}

#[test]
fn outcome_row_win() {
    let game = Game::from_board([[E, E, E], [X, X, X], [O, O, E]], Player::Circle);
    assert_eq!(game.get_outcome(), Some(GameOutcome::CrossWin));
}

#[test]
fn outcome_column_win() {
    let game = Game::from_board([[O, X, E], [O, X, E], [O, E, X]], Player::Cross);
    assert_eq!(game.get_outcome(), Some(GameOutcome::CircleWin));
}

#[test]
fn outcome_negative_diagonal_win() {
    let game = Game::from_board([[X, O, E], [O, X, E], [E, E, X]], Player::Circle);
    assert_eq!(game.get_outcome(), Some(GameOutcome::CrossWin));
}

#[test]
fn outcome_positive_diagonal_win() {
    let game = Game::from_board([[X, X, O], [X, O, E], [O, E, E]], Player::Cross);
    assert_eq!(game.get_outcome(), Some(GameOutcome::CircleWin));
}

#[test]
fn outcome_draw_on_full_board() {
    let game = Game::from_board([[X, O, X], [X, O, O], [O, X, X]], Player::Circle);
    assert_eq!(game.get_outcome(), Some(GameOutcome::Draw));
}

#[test]
fn render_empty_board() {
    let row = "| ".to_string() + "   " + "   " + "   " + " |\n";
    let expected = row.clone() + &row + &row;
    assert_eq!(Game::new().to_string(), expected);
}

#[test]
fn render_mixed_board() {
    let game = Game::from_board([[X, O, E], [E, X, E], [E, E, O]], Player::Cross);
    let expected = "| ".to_string() + " x " + " o " + "   " + " |\n"
        + "| " + "   " + " x " + "   " + " |\n"
        + "| " + "   " + "   " + " o " + " |\n";
    assert_eq!(game.to_string(), expected);
}

#[test]
fn keyboard_symbols_name_cells_row_major() {
    assert_eq!(key_to_coordinate('u'), Some((0, 0)));
    assert_eq!(key_to_coordinate('i'), Some((0, 1)));
    assert_eq!(key_to_coordinate('o'), Some((0, 2)));
    assert_eq!(key_to_coordinate('h'), Some((1, 0)));
    assert_eq!(key_to_coordinate('j'), Some((1, 1)));
    assert_eq!(key_to_coordinate('k'), Some((1, 2)));
    assert_eq!(key_to_coordinate('b'), Some((2, 0)));
    assert_eq!(key_to_coordinate('n'), Some((2, 1)));
    assert_eq!(key_to_coordinate('m'), Some((2, 2)));
}

#[test]
fn unknown_symbols_name_no_cell() {
    assert_eq!(key_to_coordinate('q'), None);
    assert_eq!(key_to_coordinate(' '), None);
    assert_eq!(key_to_coordinate('1'), None);
}

#[test]
fn outcomes_map_to_scores() {
    assert_eq!(outcome_score(None), None);
    assert_eq!(outcome_score(Some(GameOutcome::CrossWin)), Some(Score::PosInf));
    assert_eq!(outcome_score(Some(GameOutcome::CircleWin)), Some(Score::NegInf));
    assert_eq!(outcome_score(Some(GameOutcome::Draw)), Some(Score::Finite(0)));
}

#[test]
fn cross_maximizes_circle_minimizes() {
    assert!(player_is_maximizing(Player::Cross));
    assert!(!player_is_maximizing(Player::Circle));
}
