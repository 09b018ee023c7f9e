pub mod score;
pub mod search;
pub mod tictactoe;
