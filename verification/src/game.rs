//! The state of the terminal game: a player that drifts over a bounded field
//! while the score counts the rounds.

use vstd::prelude::*;
use vstd::string::StringExecFns;

verus! {

/// The largest coordinate of the field; the smallest is zero.
pub const FIELD_MAX: i32 = 20;

/// The score above which the game is over.
pub const LAST_SCORE: u32 = 50;

/// The state of one game.
#[derive(Clone, Copy, Debug, PartialEq, Eq)]
pub struct Game {
    player_x: i32,
    player_y: i32,
    score: u32,
    game_over: bool,
}

/// The mathematical content of a `Game`.
pub ghost struct GameView {
    pub player_x: int,
    pub player_y: int,
    pub score: nat,
    pub game_over: bool,
}

/// The remainder of a division that rounds towards zero: it has the sign of
/// the dividend.
pub open spec fn remainder(dividend: int, divisor: int) -> int
    recommends
        divisor > 0,
{
    if dividend >= 0 {
        dividend % divisor
    } else {
        -((-dividend) % divisor)
    }
}

/// The step that a random number stands for: between three back and one
/// forward.
pub open spec fn drift(random: i32) -> int {
    remainder(random as int, 3) - 1
}

/// The coordinate nearest to `v` on the field.
pub open spec fn clamp_to_field(v: int) -> int {
    if v < 0 {
        0
    } else if v > FIELD_MAX {
        FIELD_MAX as int
    } else {
        v
    }
}

/// What is drawn at column `x` of row `y`: the player, the border of the
/// field, or open ground.
pub open spec fn cell_at(game: GameView, x: int, y: int) -> char {
    if x == game.player_x && y == game.player_y {
        'P'
    } else if x == 0 || x == FIELD_MAX || y == 0 || y == FIELD_MAX {
        '#'
    } else {
        '.'
    }
}

/// Row `y` of the picture: the cells of columns zero to `FIELD_MAX`.
pub open spec fn row_at(game: GameView, y: int) -> Seq<char> {
    Seq::new((FIELD_MAX + 1) as nat, |x: int| cell_at(game, x, y))
}

impl GameView {
    /// The game as it starts: the player in the middle, no score.
    pub open spec fn start() -> GameView {
        GameView { player_x: 10, player_y: 10, score: 0, game_over: false }
    }

    /// The player is on the field, and the game is over exactly when the
    /// score has passed `LAST_SCORE`.
    pub open spec fn wf(self) -> bool {
        &&& 0 <= self.player_x <= FIELD_MAX
        &&& 0 <= self.player_y <= FIELD_MAX
        &&& self.score <= u32::MAX
        &&& self.game_over == (self.score > LAST_SCORE)
    }

    /// One round: the player drifts by the two random numbers and is held on
    /// the field, the score grows by one, and the game is over once the score
    /// has passed `LAST_SCORE`.
    pub open spec fn advance(self, random_x: i32, random_y: i32) -> GameView {
        GameView {
            player_x: clamp_to_field(self.player_x + drift(random_x)),
            player_y: clamp_to_field(self.player_y + drift(random_y)),
            score: self.score + 1,
            game_over: self.game_over || self.score + 1 > LAST_SCORE,
        }
    }
}

impl View for Game {
    type V = GameView;

    closed spec fn view(&self) -> GameView {
        GameView {
            player_x: self.player_x as int,
            player_y: self.player_y as int,
            score: self.score as nat,
            game_over: self.game_over,
        }
    }
}

/// Draws a random number with `rand::random::<i32>()`. Nothing is claimed of
/// the number drawn.
#[verifier::external_body]
fn random_number() -> (random: i32) {
    rand::random::<i32>()
}

/// Moves a coordinate by the step that `random` stands for and holds it on
/// the field.
fn drifted(coordinate: i32, random: i32) -> (moved: i32)
    requires
        0 <= coordinate <= FIELD_MAX,
    ensures
        moved == clamp_to_field(coordinate + drift(random)),
{
    let step: i32 = random % 3 - 1;
    let moved: i32 = coordinate + step;
    if moved < 0 {
        0
    } else if moved > FIELD_MAX {
        FIELD_MAX
    } else {
        moved
    }
}

impl Game {
    /// The invariant that every operation keeps.
    pub open spec fn wf(&self) -> bool {
        self@.wf()
    }

    /// A new game.
    pub fn new() -> (game: Game)
        ensures
            game.wf(),
            game@ == GameView::start(),
    {
        Game { player_x: 10, player_y: 10, score: 0, game_over: false }
    }

    /// Plays one round with the two random numbers given.
    pub fn advance(&mut self, random_x: i32, random_y: i32)
        requires
            old(self).wf(),
            old(self)@.score < u32::MAX,
        ensures
            final(self).wf(),
            final(self)@ == old(self)@.advance(random_x, random_y),
    {
        self.player_x = drifted(self.player_x, random_x);
        self.player_y = drifted(self.player_y, random_y);
        self.score += 1;
        if self.score > LAST_SCORE {
            self.game_over = true;
        }
    }

    /// Plays one round with two random numbers drawn here. Whatever is
    /// drawn, the round is one that `advance` plays.
    pub fn update(&mut self)
        requires
            old(self).wf(),
            old(self)@.score < u32::MAX,
        ensures
            final(self).wf(),
            exists|random_x: i32, random_y: i32|
                final(self)@ == #[trigger] old(self)@.advance(random_x, random_y),
            final(self)@.score == old(self)@.score + 1,
    {
        let random_x: i32 = random_number();
        let random_y: i32 = random_number();
        self.advance(random_x, random_y);
    }

    /// The column of the player.
    pub fn player_x(&self) -> (x: i32)
        ensures
            x == self@.player_x,
    {
        self.player_x
    }

    /// The row of the player.
    pub fn player_y(&self) -> (y: i32)
        ensures
            y == self@.player_y,
    {
        self.player_y
    }

    /// The number of rounds played.
    pub fn score(&self) -> (score: u32)
        ensures
            score == self@.score,
    {
        self.score
    }

    /// Whether the game is over.
    pub fn is_over(&self) -> (over: bool)
        ensures
            over == self@.game_over,
    {
        self.game_over
    }

    /// One row of the picture of the field.
    pub fn row(&self, y: i32) -> (row: String)
        ensures
            row@ == row_at(self@, y as int),
    {
        let mut row: String = String::new();
        let mut x: i32 = 0;
        while x <= FIELD_MAX
            invariant
                0 <= x <= FIELD_MAX + 1,
                row@ == Seq::new(x as nat, |i: int| cell_at(self@, i, y as int)),
            decreases FIELD_MAX + 1 - x,
        {
            let cell: &str = if x == self.player_x && y == self.player_y {
                "P"
            } else if x == 0 || x == FIELD_MAX || y == 0 || y == FIELD_MAX {
                "#"
            } else {
                "."
            };
            proof {
                reveal_strlit("P");
                reveal_strlit("#");
                reveal_strlit(".");
                assert(cell@ =~= seq![cell_at(self@, x as int, y as int)]);
            }
            row.append(cell);
            x += 1;
            assert(row@ =~= Seq::new(x as nat, |i: int| cell_at(self@, i, y as int)));
        }
        row
    }

    /// The picture of the field: its rows from top to bottom.
    pub fn rows(&self) -> (rows: Vec<String>)
        ensures
            rows.deep_view() == Seq::new((FIELD_MAX + 1) as nat, |y: int| row_at(self@, y)),
    {
        let mut rows: Vec<String> = Vec::new();
        let mut y: i32 = 0;
        while y <= FIELD_MAX
            invariant
                0 <= y <= FIELD_MAX + 1,
                rows.deep_view() == Seq::new(y as nat, |j: int| row_at(self@, j)),
            decreases FIELD_MAX + 1 - y,
        {
            let ghost before = rows.deep_view();
            let row: String = self.row(y);
            let ghost drawn = row@;
            rows.push(row);
            y += 1;
            proof {
                assert(rows.deep_view() =~= before.push(drawn));
                assert(before.push(drawn) =~= Seq::new(y as nat, |j: int| row_at(self@, j)));
            }
        }
        rows
    }
}

} // verus!
