//! Paddles, ball, viewport bounds and the world that aggregates them.
use vstd::prelude::*;

verus! {

/// Width of every paddle, in cells.
pub const PADDLE_WIDTH: u16 = 2;

/// Height of every paddle, in cells.
pub const PADDLE_HEIGHT: u16 = 8;

/// Smallest viewport width on which a game can be laid out.
pub const MIN_WIDTH: u16 = 4;

/// Smallest viewport height on which a game can be laid out.
pub const MIN_HEIGHT: u16 = 10;

/// The playable viewport, in character cells.
#[derive(Clone, Copy, Debug, PartialEq, Eq, Structural)]
pub struct Bounds {
    pub width: u16,
    pub height: u16,
}

/// A paddle: its score, its top-left cell and its size.
#[derive(Clone, Copy, Debug, PartialEq, Eq, Structural)]
pub struct Player {
    pub score: u16,
    pub x: u16,
    pub y: u16,
    pub width: u16,
    pub height: u16,
}

/// The ball: its cell (signed, it leaves the field for one tick when a point is
/// scored), its size and its velocity.
#[derive(Clone, Copy, Debug, PartialEq, Eq, Structural)]
pub struct PongBall {
    pub x: i32,
    pub y: i32,
    pub width: u16,
    pub height: u16,
    pub direction_x: i32,
    pub direction_y: i32,
}

/// The world: the left paddle (`player`), the right paddle (`opponent`) and the ball.
#[derive(Clone, Copy, Debug, PartialEq, Eq, Structural)]
pub struct GameData {
    pub player: Player,
    pub opponent: Player,
    pub pongball: PongBall,
}

/// A viewport large enough to lay a game out on.
pub open spec fn bounds_wf(b: Bounds) -> bool {
    b.width >= MIN_WIDTH && b.height >= MIN_HEIGHT
}

/// Lowest row the top of a paddle of height `h` may take in viewport `b`.
pub open spec fn max_paddle_y(b: Bounds, h: u16) -> int {
    b.height - h - 1
}

/// A paddle's row lies in `[1, height - paddle height - 1]`.
pub open spec fn paddle_in_range(p: Player, b: Bounds) -> bool {
    1 <= p.y && p.y <= max_paddle_y(b, p.height)
}

/// The ball's cell lies in `[0, width - 1] x [0, height - 1]`.
pub open spec fn ball_in_bounds(ball: PongBall, b: Bounds) -> bool {
    0 <= ball.x < b.width && 0 <= ball.y < b.height
}

/// A unit step, up or down the axis.
pub open spec fn is_unit(d: i32) -> bool {
    d == 1 || d == -1
}

/// The ball is inside the viewport, moves one cell per axis and tick, and on the
/// top or bottom row already heads back into the field.
pub open spec fn ball_wf(ball: PongBall, b: Bounds) -> bool {
    &&& ball_in_bounds(ball, b)
    &&& is_unit(ball.direction_x)
    &&& is_unit(ball.direction_y)
    &&& ball.y == 0 ==> ball.direction_y == 1
    &&& ball.y == b.height - 1 ==> ball.direction_y == -1
}

/// The centre cell of the viewport, moving right and down.
pub open spec fn centred_ball(b: Bounds) -> PongBall {
    PongBall {
        x: (b.width / 2) as i32,
        y: (b.height / 2) as i32,
        width: 1,
        height: 1,
        direction_x: 1,
        direction_y: 1,
    }
}

/// A paddle with no points yet.
pub open spec fn fresh_player(x: u16, y: u16, width: u16, height: u16) -> Player {
    Player { score: 0, x, y, width, height }
}

/// Row of the top of a paddle centred vertically in `b`.
pub open spec fn centred_paddle_y(b: Bounds) -> u16 {
    (b.height / 2 - PADDLE_HEIGHT / 2) as u16
}

/// The layout of a new game: the left paddle two cells from the left edge, the
/// right one four cells from the right edge, both centred vertically, no points,
/// and the ball centred.
pub open spec fn fresh_game(b: Bounds) -> GameData {
    GameData {
        player: fresh_player(2, centred_paddle_y(b), PADDLE_WIDTH, PADDLE_HEIGHT),
        opponent: fresh_player(
            (b.width - 4) as u16,
            centred_paddle_y(b),
            PADDLE_WIDTH,
            PADDLE_HEIGHT,
        ),
        pongball: centred_ball(b),
    }
}

/// Both paddles have the standard size and lie in range, and the ball is well formed.
pub open spec fn game_wf(g: GameData, b: Bounds) -> bool {
    &&& bounds_wf(b)
    &&& g.player.height == PADDLE_HEIGHT
    &&& g.opponent.height == PADDLE_HEIGHT
    &&& paddle_in_range(g.player, b)
    &&& paddle_in_range(g.opponent, b)
    &&& ball_wf(g.pongball, b)
}

impl Bounds {
    pub fn new(width: u16, height: u16) -> (r: Bounds)
        ensures
            r == (Bounds { width, height }),
    {
        Bounds { width, height }
    }

    /// Whether a game can be laid out on this viewport.
    pub fn is_playable(&self) -> (r: bool)
        ensures
            r == bounds_wf(*self),
    {
        self.width >= MIN_WIDTH && self.height >= MIN_HEIGHT
    }
}

impl PongBall {
    /// A ball in the centre of a viewport of the given size, moving right and down.
    pub fn new(t_width: u16, t_height: u16) -> (r: PongBall)
        ensures
            r == centred_ball(Bounds { width: t_width, height: t_height }),
    {
        PongBall {
            x: (t_width / 2) as i32,
            y: (t_height / 2) as i32,
            width: 1,
            height: 1,
            direction_x: 1,
            direction_y: 1,
        }
    }
}

impl Player {
    /// A paddle at the given cell and of the given size, with no points.
    pub fn new(x: u16, y: u16, width: u16, height: u16) -> (r: Player)
        ensures
            r == fresh_player(x, y, width, height),
    {
        Player { score: 0, x, y, width, height }
    }
}

impl GameData {
    /// The layout of a new game on a viewport of the given size.
    pub fn new(t_width: u16, t_height: u16) -> (r: GameData)
        requires
            bounds_wf(Bounds { width: t_width, height: t_height }),
        ensures
            r == fresh_game(Bounds { width: t_width, height: t_height }),
            game_wf(r, Bounds { width: t_width, height: t_height }),
    {
        let y = t_height / 2 - PADDLE_HEIGHT / 2;
        GameData {
            player: Player::new(2, y, PADDLE_WIDTH, PADDLE_HEIGHT),
            opponent: Player::new(t_width - 4, y, PADDLE_WIDTH, PADDLE_HEIGHT),
            pongball: PongBall::new(t_width, t_height),
        }
    }
}

} // verus!
