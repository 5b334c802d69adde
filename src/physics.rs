//! One tick of ball physics: move, bounce, paddle collision, scoring.
use vstd::prelude::*;

use crate::entity::{ball_wf, bounds_wf, centred_ball, Bounds, GameData, Player, PongBall};

verus! {

/// Column the ball strikes the left paddle on.
pub const LEFT_STRIKE_COLUMN: i32 = 4;

/// Distance of the column the ball strikes the right paddle on from the right edge.
pub const RIGHT_STRIKE_OFFSET: i32 = 4;

/// One more point, held at the largest score a `u16` can carry.
pub open spec fn bump(score: u16) -> u16 {
    if score < u16::MAX {
        (score + 1) as u16
    } else {
        score
    }
}

/// The ball's row `y` lies within the span `[p.y, p.y + p.height]` of paddle `p`.
pub open spec fn covers(p: Player, y: int) -> bool {
    p.y <= y && y <= p.y + p.height
}

/// The ball, advanced one cell per axis, with its vertical velocity negated on the
/// top or bottom row and its horizontal velocity negated where it meets a paddle's
/// strike column within that paddle's span.
pub open spec fn moved_ball(g: GameData, b: Bounds) -> PongBall {
    let ball = g.pongball;
    let x = ball.x + ball.direction_x;
    let y = ball.y + ball.direction_y;
    let hit = (x == LEFT_STRIKE_COLUMN && covers(g.player, y)) || (x == b.width
        - RIGHT_STRIKE_OFFSET && covers(g.opponent, y));
    PongBall {
        x: x as i32,
        y: y as i32,
        direction_x: if hit {
            -ball.direction_x
        } else {
            ball.direction_x as int
        } as i32,
        direction_y: if y == 0 || y == b.height - 1 {
            -ball.direction_y
        } else {
            ball.direction_y as int
        } as i32,
        ..ball
    }
}

/// The world after one tick of physics on viewport `b`. A ball that reaches the
/// left edge scores a point for the right paddle (`opponent`), one that reaches the
/// right edge a point for the left paddle (`player`); either way it restarts from
/// the centre moving right and down.
pub open spec fn physics_step(g: GameData, b: Bounds) -> GameData {
    let ball = moved_ball(g, b);
    if ball.x <= 0 {
        GameData {
            opponent: Player { score: bump(g.opponent.score), ..g.opponent },
            pongball: centred_ball(b),
            ..g
        }
    } else if ball.x >= b.width - 1 {
        GameData {
            player: Player { score: bump(g.player.score), ..g.player },
            pongball: centred_ball(b),
            ..g
        }
    } else {
        GameData { pongball: ball, ..g }
    }
}

fn bump_score(score: u16) -> (r: u16)
    ensures
        r == bump(score),
{
    if score < u16::MAX {
        score + 1
    } else {
        score
    }
}

fn paddle_covers(p: &Player, y: i32) -> (r: bool)
    ensures
        r == covers(*p, y as int),
{
    p.y as i32 <= y && y <= p.y as i32 + p.height as i32
}

/// Advances the ball by one tick on viewport `t_size` and scores a point where it
/// leaves the field. The paddles' rows and sizes are left as they are.
pub fn pong_controls(game_data: &mut GameData, t_size: Bounds)
    requires
        bounds_wf(t_size),
        ball_wf(old(game_data).pongball, t_size),
    ensures
        *final(game_data) == physics_step(*old(game_data), t_size),
        ball_wf(final(game_data).pongball, t_size),
{
    let width = t_size.width as i32;
    let height = t_size.height as i32;
    let ball = game_data.pongball;
    let x = ball.x + ball.direction_x;
    let y = ball.y + ball.direction_y;
    let hit = (x == LEFT_STRIKE_COLUMN && paddle_covers(&game_data.player, y)) || (x == width
        - RIGHT_STRIKE_OFFSET && paddle_covers(&game_data.opponent, y));
    let direction_x = if hit {
        -ball.direction_x
    } else {
        ball.direction_x
    };
    let direction_y = if y == 0 || y == height - 1 {
        -ball.direction_y
    } else {
        ball.direction_y
    };
    if x <= 0 {
        game_data.opponent.score = bump_score(game_data.opponent.score);
        game_data.pongball = PongBall::new(t_size.width, t_size.height);
    } else if x >= width - 1 {
        game_data.player.score = bump_score(game_data.player.score);
        game_data.pongball = PongBall::new(t_size.width, t_size.height);
    } else {
        game_data.pongball = PongBall { x, y, direction_x, direction_y, ..ball };
    }
}

} // verus!
