//! Tic-tac-toe: the example game model driving the search engine.
//!
//! A `Game` is a 3-by-3 board of tiles together with the side to move.
//! The module supplies what the engine asks of a game: one-move successor
//! generation, terminal-outcome detection mapped to a `Score`, and the
//! stub heuristic, along with a textual rendering of the board and the
//! keyboard mapping used by an interactive driver.

use vstd::prelude::*;
use vstd::array::spec_array_update;
use vstd::string::StringExecFns;

use crate::score::Score;
use crate::search::GameModel;

verus! {

/// One cell of the board.
#[derive(Clone, Copy, Debug, PartialEq, Eq, Structural)]
pub enum TileState {
    Cross,
    Circle,
    Empty,
}

/// One of the two sides.
#[derive(Clone, Copy, Debug, PartialEq, Eq, Structural)]
pub enum Player {
    Cross,
    Circle,
}

/// How a finished game ended.
#[derive(Clone, Copy, Debug, PartialEq, Eq, Structural)]
pub enum GameOutcome {
    CrossWin,
    CircleWin,
    Draw,
}

/// Three tiles in a row, column or diagonal.
pub type Line = [TileState; 3];

/// The whole board, rows first.
pub type Board = [Line; 3];

/// A cell position as (row, column), each in 0..3.
pub type Coordinate = (usize, usize);

/// The tile the given player puts down.
pub open spec fn tile_of(p: Player) -> TileState {
    match p {
        Player::Cross => TileState::Cross,
        Player::Circle => TileState::Circle,
    }
}

/// The side that moves after the given one.
pub open spec fn other_player(p: Player) -> Player {
    match p {
        Player::Cross => Player::Circle,
        Player::Circle => Player::Cross,
    }
}

/// One tic-tac-toe position: the board and the side to move.
pub struct Game {
    pub board: Board,
    pub game_turn: Player,
}

impl Game {
    /// The tile at row `i`, column `j`.
    pub open spec fn tile(self, i: int, j: int) -> TileState {
        self.board[i][j]
    }

    /// The position after the side to move claims cell `c`: the tile is
    /// put down and the turn passes to the other side.
    pub open spec fn spec_move(self, c: Coordinate) -> Game {
        Game {
            board: spec_array_update(
                self.board,
                c.0 as int,
                spec_array_update(self.board[c.0 as int], c.1 as int, tile_of(self.game_turn)),
            ),
            game_turn: other_player(self.game_turn),
        }
    }

    /// The fresh game: an empty board, cross to move.
    pub fn new() -> (r: Game)
        ensures
            forall|i: int, j: int| 0 <= i < 3 && 0 <= j < 3 ==> r.tile(i, j) == TileState::Empty,
            r.game_turn == Player::Cross,
    {
        Game { board: [[TileState::Empty; 3]; 3], game_turn: Player::Cross }
    }

    /// A game at an arbitrary position with an arbitrary side to move.
    pub fn from_board(board: Board, player: Player) -> (r: Game)
        ensures
            r == (Game { board, game_turn: player }),
    {
        Game { board: board, game_turn: player }
    }

    /// The side to move.
    pub fn get_game_turn(&self) -> (r: Player)
        ensures
            r == self.game_turn,
    {
        self.game_turn
    }

    /// Claims cell `coord` for the side to move and passes the turn.
    pub fn make_move(&mut self, coord: Coordinate)
        requires
            coord.0 < 3,
            coord.1 < 3,
        ensures
            *final(self) == old(self).spec_move(coord),
            final(self).game_turn == other_player(old(self).game_turn),
            final(self).tile(coord.0 as int, coord.1 as int) == tile_of(old(self).game_turn),
            forall|i: int, j: int|
                0 <= i < 3 && 0 <= j < 3 && !(i == coord.0 && j == coord.1)
                    ==> final(self).tile(i, j) == old(self).tile(i, j),
    {
        let t = match self.game_turn {
            Player::Cross => TileState::Cross,
            Player::Circle => TileState::Circle,
        };
        let mut row = self.board[coord.0];
        row[coord.1] = t;
        self.board[coord.0] = row;
        self.game_turn = match self.game_turn {
            Player::Cross => Player::Circle,
            Player::Circle => Player::Cross,
        };
        proof {
            assert(self.board =~= old(self).spec_move(coord).board);
        }
    }

    /// The empty cells of row `i` among columns 0 to `j` excluded, in
    /// column order.
    pub open spec fn row_empties(self, i: int, j: int) -> Seq<Coordinate>
        decreases j,
    {
        if j <= 0 {
            Seq::empty()
        } else {
            let rest = self.row_empties(i, j - 1);
            if self.tile(i, j - 1) == TileState::Empty {
                rest.push((i as usize, (j - 1) as usize))
            } else {
                rest
            }
        }
    }

    /// The empty cells of the rows before row `i`, row-major.
    pub open spec fn empties_upto_row(self, i: int) -> Seq<Coordinate>
        decreases i,
    {
        if i <= 0 {
            Seq::empty()
        } else {
            self.empties_upto_row(i - 1) + self.row_empties(i - 1, 3)
        }
    }

    /// All empty cells of the board, row-major.
    pub open spec fn spec_empty_tiles(self) -> Seq<Coordinate> {
        self.empties_upto_row(3)
    }

    /// Every listed empty cell is on the board and is indeed empty.
    pub proof fn lemma_empty_tiles_bounds(self)
        ensures
            forall|m: int|
                0 <= m < self.spec_empty_tiles().len() ==> {
                    let c = #[trigger] self.spec_empty_tiles()[m];
                    c.0 < 3 && c.1 < 3 && self.tile(c.0 as int, c.1 as int) == TileState::Empty
                },
    {
        assert forall|i: int, j: int, m: int|
            0 <= i < 3 && 0 <= j <= 3 && 0 <= m < self.row_empties(i, j).len() implies {
            let c = #[trigger] self.row_empties(i, j)[m];
            c.0 == i && c.1 < j && self.tile(c.0 as int, c.1 as int) == TileState::Empty
        } by {
            self.lemma_row_empties_bounds(i, j);
        }
        assert forall|i: int, m: int|
            0 <= i <= 3 && 0 <= m < self.empties_upto_row(i).len() implies {
            let c = #[trigger] self.empties_upto_row(i)[m];
            c.0 < i && c.1 < 3 && self.tile(c.0 as int, c.1 as int) == TileState::Empty
        } by {
            self.lemma_empties_upto_row_bounds(i);
        }
    }

    proof fn lemma_row_empties_bounds(self, i: int, j: int)
        requires
            0 <= i < 3,
            0 <= j <= 3,
        ensures
            forall|m: int|
                0 <= m < self.row_empties(i, j).len() ==> {
                    let c = #[trigger] self.row_empties(i, j)[m];
                    c.0 == i && c.1 < j && self.tile(c.0 as int, c.1 as int) == TileState::Empty
                },
        decreases j,
    {
        if j > 0 {
            self.lemma_row_empties_bounds(i, j - 1);
            let rest = self.row_empties(i, j - 1);
            let cur = self.row_empties(i, j);
            assert forall|m: int| 0 <= m < cur.len() implies {
                let c = #[trigger] cur[m];
                c.0 == i && c.1 < j && self.tile(c.0 as int, c.1 as int) == TileState::Empty
            } by {
                if m < rest.len() {
                    assert(cur[m] == rest[m]);
                } else {
                    assert(cur[m] == (i as usize, (j - 1) as usize));
                }
            }
        }
    }

    proof fn lemma_empties_upto_row_bounds(self, i: int)
        requires
            0 <= i <= 3,
        ensures
            forall|m: int|
                0 <= m < self.empties_upto_row(i).len() ==> {
                    let c = #[trigger] self.empties_upto_row(i)[m];
                    c.0 < i && c.1 < 3 && self.tile(c.0 as int, c.1 as int) == TileState::Empty
                },
        decreases i,
    {
        if i > 0 {
            self.lemma_empties_upto_row_bounds(i - 1);
            self.lemma_row_empties_bounds(i - 1, 3);
        }
    }

    /// Lists the empty cells of the board, row-major.
    pub fn empty_tiles(&self) -> (r: Vec<Coordinate>)
        ensures
            r@ == self.spec_empty_tiles(),
    {
        let mut tiles: Vec<Coordinate> = Vec::new();
        let mut i: usize = 0;
        while i < 3
            invariant
                i <= 3,
                tiles@ == self.empties_upto_row(i as int),
            decreases 3 - i,
        {
            let mut j: usize = 0;
            proof {
                assert(tiles@ =~= self.empties_upto_row(i as int) + self.row_empties(i as int, 0));
            }
            while j < 3
                invariant
                    i < 3,
                    j <= 3,
                    tiles@ == self.empties_upto_row(i as int) + self.row_empties(
                        i as int,
                        j as int,
                    ),
                decreases 3 - j,
            {
                if self.board[i][j] == TileState::Empty {
                    tiles.push((i, j));
                    proof {
                        assert(tiles@ =~= self.empties_upto_row(i as int) + self.row_empties(
                            i as int,
                            j as int + 1,
                        ));
                    }
                }
                j += 1;
            }
            i += 1;
        }
        tiles
    }

    /// The one-move successors of this position: one game per empty
    /// cell, row-major, each with that cell claimed by the side to move.
    pub open spec fn spec_children_of(self) -> Seq<Game> {
        self.spec_empty_tiles().map_values(|c: Coordinate| self.spec_move(c))
    }

    /// Produces the one-move successors of this position.
    pub fn get_children(&self) -> (r: Vec<Game>)
        ensures
            r@ == self.spec_children_of(),
    {
        let mut children: Vec<Game> = Vec::new();
        let empty_tiles = self.empty_tiles();
        let ghost tiles = empty_tiles@;
        proof {
            self.lemma_empty_tiles_bounds();
        }
        let mut k: usize = 0;
        while k < empty_tiles.len()
            invariant
                k <= tiles.len(),
                empty_tiles@ == tiles,
                tiles == self.spec_empty_tiles(),
                forall|m: int|
                    0 <= m < tiles.len() ==> (#[trigger] tiles[m]).0 < 3 && tiles[m].1 < 3,
                children@ == self.spec_children_of().take(k as int),
            decreases tiles.len() - k,
        {
            let tile = empty_tiles[k];
            let mut child: Game = Game::from_board(self.board, self.game_turn);
            child.make_move(tile);
            children.push(child);
            proof {
                assert(self.spec_children_of().take(k as int + 1) =~= self.spec_children_of().take(
                    k as int,
                ).push(self.spec_move(tiles[k as int])));
            }
            k += 1;
        }
        proof {
            assert(self.spec_children_of().take(tiles.len() as int) =~= self.spec_children_of());
        }
        children
    }

    /// Counts the empty cells of the board.
    fn count_empty_tiles(&self) -> (r: u8)
        ensures
            r as nat == self.spec_empty_tiles().len(),
    {
        let mut n: u8 = 0;
        let mut i: usize = 0;
        while i < 3
            invariant
                i <= 3,
                n as nat == self.empties_upto_row(i as int).len(),
                n as int <= 3 * (i as int),
            decreases 3 - i,
        {
            let mut j: usize = 0;
            while j < 3
                invariant
                    i < 3,
                    j <= 3,
                    n as nat == self.empties_upto_row(i as int).len() + self.row_empties(
                        i as int,
                        j as int,
                    ).len(),
                    n as int <= 3 * (i as int) + (j as int),
                decreases 3 - j,
            {
                if self.board[i][j] == TileState::Empty {
                    n = n + 1;
                }
                j += 1;
            }
            i += 1;
        }
        n
    }

    /// The winner a single line shows: the player holding all three of
    /// its tiles, if any.
    pub open spec fn spec_line_winner(a: TileState, b: TileState, c: TileState) -> Option<Player> {
        if a == b && b == c {
            match a {
                TileState::Cross => Some(Player::Cross),
                TileState::Circle => Some(Player::Circle),
                TileState::Empty => None,
            }
        } else {
            None
        }
    }

    /// The winner row `i` shows, if any.
    pub open spec fn spec_row_winner(self, i: int) -> Option<Player> {
        Game::spec_line_winner(self.tile(i, 0), self.tile(i, 1), self.tile(i, 2))
    }

    /// The winner column `j` shows, if any.
    pub open spec fn spec_col_winner(self, j: int) -> Option<Player> {
        Game::spec_line_winner(self.tile(0, j), self.tile(1, j), self.tile(2, j))
    }

    /// The winner the bottom-left to top-right diagonal shows, if any.
    pub open spec fn spec_pos_diag_winner(self) -> Option<Player> {
        Game::spec_line_winner(self.tile(2, 0), self.tile(1, 1), self.tile(0, 2))
    }

    /// The winner the top-left to bottom-right diagonal shows, if any.
    pub open spec fn spec_neg_diag_winner(self) -> Option<Player> {
        Game::spec_line_winner(self.tile(0, 0), self.tile(1, 1), self.tile(2, 2))
    }

    /// The first of two optional winners.
    pub open spec fn first_winner(a: Option<Player>, b: Option<Player>) -> Option<Player> {
        if a is Some {
            a
        } else {
            b
        }
    }

    /// The winner of the position, checking rows and columns
    /// alternately and then the diagonals, and keeping the first line
    /// found complete.
    pub open spec fn spec_winner(self) -> Option<Player> {
        Game::first_winner(
            self.spec_row_winner(0),
            Game::first_winner(
                self.spec_col_winner(0),
                Game::first_winner(
                    self.spec_row_winner(1),
                    Game::first_winner(
                        self.spec_col_winner(1),
                        Game::first_winner(
                            self.spec_row_winner(2),
                            Game::first_winner(
                                self.spec_col_winner(2),
                                Game::first_winner(
                                    self.spec_neg_diag_winner(),
                                    self.spec_pos_diag_winner(),
                                ),
                            ),
                        ),
                    ),
                ),
            ),
        )
    }

    /// Row `i` of the board.
    fn get_row(&self, i: usize) -> (r: Line)
        requires
            i < 3,
        ensures
            r[0] == self.tile(i as int, 0),
            r[1] == self.tile(i as int, 1),
            r[2] == self.tile(i as int, 2),
    {
        [self.board[i][0], self.board[i][1], self.board[i][2]]
    }

    /// Column `j` of the board.
    fn get_column(&self, j: usize) -> (r: Line)
        requires
            j < 3,
        ensures
            r[0] == self.tile(0, j as int),
            r[1] == self.tile(1, j as int),
            r[2] == self.tile(2, j as int),
    {
        [self.board[0][j], self.board[1][j], self.board[2][j]]
    }

    /// The bottom-left to top-right diagonal.
    fn get_positive_diagonal(&self) -> (r: Line)
        ensures
            r[0] == self.tile(2, 0),
            r[1] == self.tile(1, 1),
            r[2] == self.tile(0, 2),
    {
        [self.board[2][0], self.board[1][1], self.board[0][2]]
    }

    /// The top-left to bottom-right diagonal.
    fn get_negative_diagonal(&self) -> (r: Line)
        ensures
            r[0] == self.tile(0, 0),
            r[1] == self.tile(1, 1),
            r[2] == self.tile(2, 2),
    {
        [self.board[0][0], self.board[1][1], self.board[2][2]]
    }

    /// Reports the player holding all three tiles of `line`, if any.
    fn is_winning_line(line: Line) -> (r: Option<Player>)
        ensures
            r == Game::spec_line_winner(line[0], line[1], line[2]),
    {
        if line[0] == line[1] && line[1] == line[2] && line[0] != TileState::Empty {
            return Some(
                match line[0] {
                    TileState::Cross => Player::Cross,
                    TileState::Circle => Player::Circle,
                    TileState::Empty => Player::Cross,
                },
            );
        }
        None
    }

    /// Reports the winner of the position, if any.
    fn is_winning(&self) -> (r: Option<Player>)
        ensures
            r == self.spec_winner(),
    {
        let winning = Game::is_winning_line(self.get_row(0));
        if winning.is_some() {
            return winning;
        }
        let winning = Game::is_winning_line(self.get_column(0));
        if winning.is_some() {
            return winning;
        }
        let winning = Game::is_winning_line(self.get_row(1));
        if winning.is_some() {
            return winning;
        }
        let winning = Game::is_winning_line(self.get_column(1));
        if winning.is_some() {
            return winning;
        }
        let winning = Game::is_winning_line(self.get_row(2));
        if winning.is_some() {
            return winning;
        }
        let winning = Game::is_winning_line(self.get_column(2));
        if winning.is_some() {
            return winning;
        }
        let winning = Game::is_winning_line(self.get_negative_diagonal());
        if winning.is_some() {
            return winning;
        }
        let winning = Game::is_winning_line(self.get_positive_diagonal());
        if winning.is_some() {
            return winning;
        }
        None
    }

    /// The outcome of the position: a win for the player completing a
    /// line, a draw on a full board without one, or nothing while play
    /// continues.
    pub open spec fn spec_outcome(self) -> Option<GameOutcome> {
        match self.spec_winner() {
            Some(Player::Cross) => Some(GameOutcome::CrossWin),
            Some(Player::Circle) => Some(GameOutcome::CircleWin),
            None => if self.spec_empty_tiles().len() == 0 {
                Some(GameOutcome::Draw)
            } else {
                None
            },
        }
    }

    /// Reports how the game ended, or `None` while play continues.
    pub fn get_outcome(&self) -> (r: Option<GameOutcome>)
        ensures
            r == self.spec_outcome(),
    {
        let winning = self.is_winning();
        match winning {
            None => {
                if self.count_empty_tiles() == 0 {
                    Some(GameOutcome::Draw)
                } else {
                    None
                }
            },
            Some(p) => Some(
                match p {
                    Player::Cross => GameOutcome::CrossWin,
                    Player::Circle => GameOutcome::CircleWin,
                },
            ),
        }
    }

    /// The three characters a tile is drawn as.
    pub open spec fn spec_tile_chars(t: TileState) -> Seq<char> {
        match t {
            TileState::Empty => "   "@,
            TileState::Circle => " o "@,
            TileState::Cross => " x "@,
        }
    }

    /// The characters of row `i` drawn up to column `j` excluded.
    pub open spec fn spec_row_prefix(self, i: int, j: int) -> Seq<char>
        decreases j,
    {
        if j <= 0 {
            Seq::empty()
        } else {
            self.spec_row_prefix(i, j - 1) + Game::spec_tile_chars(self.tile(i, j - 1))
        }
    }

    /// One drawn row: its three tiles between a left and a right border,
    /// ended by a newline.
    pub open spec fn spec_row_chars(self, i: int) -> Seq<char> {
        "| "@ + self.spec_row_prefix(i, 3) + " |\n"@
    }

    /// The first `i` drawn rows.
    pub open spec fn spec_rows_upto(self, i: int) -> Seq<char>
        decreases i,
    {
        if i <= 0 {
            Seq::empty()
        } else {
            self.spec_rows_upto(i - 1) + self.spec_row_chars(i - 1)
        }
    }

    /// The drawn board: three rows of three cells, each cell blank,
    /// `o` or `x`.
    pub open spec fn spec_render(self) -> Seq<char> {
        self.spec_rows_upto(3)
    }

    /// Draws the board as text.
    pub fn to_string(&self) -> (r: String)
        ensures
            r@ == self.spec_render(),
    {
        let mut output: String = String::new();
        let mut i: usize = 0;
        while i < 3
            invariant
                i <= 3,
                output@ == self.spec_rows_upto(i as int),
            decreases 3 - i,
        {
            output.append("| ");
            let mut j: usize = 0;
            proof {
                assert(output@ =~= self.spec_rows_upto(i as int) + "| "@ + self.spec_row_prefix(
                    i as int,
                    0,
                ));
            }
            while j < 3
                invariant
                    i < 3,
                    j <= 3,
                    output@ == self.spec_rows_upto(i as int) + "| "@ + self.spec_row_prefix(
                        i as int,
                        j as int,
                    ),
                decreases 3 - j,
            {
                let tile = self.board[i][j];
                output.append(
                    match tile {
                        TileState::Empty => "   ",
                        TileState::Circle => " o ",
                        TileState::Cross => " x ",
                    },
                );
                proof {
                    assert(output@ =~= self.spec_rows_upto(i as int) + "| "@ + self.spec_row_prefix(
                        i as int,
                        j as int + 1,
                    ));
                }
                j += 1;
            }
            output.append(" |\n");
            proof {
                assert(self.spec_rows_upto(i as int + 1) == self.spec_rows_upto(i as int)
                    + self.spec_row_chars(i as int));
                assert(output@ =~= self.spec_rows_upto(i as int + 1));
            }
            i += 1;
        }
        output
    }
}

/// The score a finished game is worth to the maximizing side: a cross
/// win is a forced win, a circle win a forced loss, a draw is neutral.
pub open spec fn spec_outcome_score(o: Option<GameOutcome>) -> Option<Score> {
    match o {
        None => None,
        Some(GameOutcome::CrossWin) => Some(Score::PosInf),
        Some(GameOutcome::CircleWin) => Some(Score::NegInf),
        Some(GameOutcome::Draw) => Some(Score::Finite(0)),
    }
}

/// Maps a game outcome to the terminal score the engine searches with.
pub fn outcome_score(o: Option<GameOutcome>) -> (r: Option<Score>)
    ensures
        r == spec_outcome_score(o),
{
    match o {
        None => None,
        Some(GameOutcome::CrossWin) => Some(Score::PosInf),
        Some(GameOutcome::CircleWin) => Some(Score::NegInf),
        Some(GameOutcome::Draw) => Some(Score::Finite(0)),
    }
}

/// Tells whether the given side is the maximizing player: cross
/// maximizes, circle minimizes.
pub fn player_is_maximizing(p: Player) -> (r: bool)
    ensures
        r == (p is Cross),
{
    match p {
        Player::Cross => true,
        Player::Circle => false,
    }
}

/// The cell a keyboard symbol names, with the keys `uio`, `hjk`, `nbm`
/// laid out like the board, row-major; other symbols name none.
pub open spec fn spec_key_coordinate(key: char) -> Option<Coordinate> {
    if key == 'u' {
        Some((0usize, 0usize))
    } else if key == 'i' {
        Some((0usize, 1usize))
    } else if key == 'o' {
        Some((0usize, 2usize))
    } else if key == 'h' {
        Some((1usize, 0usize))
    } else if key == 'j' {
        Some((1usize, 1usize))
    } else if key == 'k' {
        Some((1usize, 2usize))
    } else if key == 'b' {
        Some((2usize, 0usize))
    } else if key == 'n' {
        Some((2usize, 1usize))
    } else if key == 'm' {
        Some((2usize, 2usize))
    } else {
        None
    }
}

/// Maps one keyboard symbol to the board cell it names, if any.
pub fn key_to_coordinate(key: char) -> (r: Option<Coordinate>)
    ensures
        r == spec_key_coordinate(key),
        r is Some ==> r.unwrap().0 < 3 && r.unwrap().1 < 3,
{
    match key {
        'u' => Some((0, 0)),
        'i' => Some((0, 1)),
        'o' => Some((0, 2)),
        'h' => Some((1, 0)),
        'j' => Some((1, 1)),
        'k' => Some((1, 2)),
        'b' => Some((2, 0)),
        'n' => Some((2, 1)),
        'm' => Some((2, 2)),
        _ => None,
    }
}

/// A tic-tac-toe position is a searchable game: children are the
/// one-move successors, the terminal score maps the outcome, and the
/// heuristic is the neutral stub.
impl GameModel for Game {
    open spec fn spec_children(self) -> Seq<Game> {
        self.spec_children_of()
    }

    open spec fn spec_terminal_score(self) -> Option<Score> {
        spec_outcome_score(self.spec_outcome())
    }

    open spec fn spec_heuristic(self) -> Score {
        Score::Finite(0)
    }

    fn children(&self) -> (r: Vec<Game>) {
        self.get_children()
    }

    fn terminal_score(&self) -> (r: Option<Score>) {
        outcome_score(self.get_outcome())
    }

    fn heuristic(&self) -> (r: Score) {
        Score::Finite(0)
    }
}

} // verus!
