//! The two messages exchanged every tick, and how they are built from and applied
//! to the world.
use vstd::prelude::*;

use crate::entity::{ball_in_bounds, Bounds, Player, PongBall};

verus! {

/// Sent by a guest to the authoritative side: the guest's own paddle and score,
/// and the size of its viewport. The authoritative side lays its world out on its
/// own viewport and does not resize off the reported one.
#[derive(Clone, Copy, Debug, PartialEq, Eq, Structural)]
pub struct ClientUpdate {
    pub player_x: u16,
    pub player_y: u16,
    pub player_score: u16,
    pub screen_width: u16,
    pub screen_height: u16,
}

/// Sent by the authoritative side to a guest: the guest's opponent's paddle and
/// score, and the ball.
#[derive(Clone, Copy, Debug, PartialEq, Eq, Structural)]
pub struct ServerSnapshot {
    pub player_x: u16,
    pub player_y: u16,
    pub ball_x: u16,
    pub ball_y: u16,
    pub player_score: u16,
}

/// The update that reports paddle `p` on a viewport `screen`.
pub open spec fn update_of(p: Player, screen: Bounds) -> ClientUpdate {
    ClientUpdate {
        player_x: p.x,
        player_y: p.y,
        player_score: p.score,
        screen_width: screen.width,
        screen_height: screen.height,
    }
}

/// The snapshot that reports paddle `p` and ball `ball`.
pub open spec fn snapshot_of(p: Player, ball: PongBall) -> ServerSnapshot {
    ServerSnapshot {
        player_x: p.x,
        player_y: p.y,
        ball_x: ball.x as u16,
        ball_y: ball.y as u16,
        player_score: p.score,
    }
}

/// A replica paddle overwritten by what an update reports; its size stays.
pub open spec fn paddle_from_update(p: Player, u: ClientUpdate) -> Player {
    Player { x: u.player_x, y: u.player_y, score: u.player_score, ..p }
}

/// A replica paddle overwritten by what a snapshot reports; its size stays.
pub open spec fn paddle_from_snapshot(p: Player, s: ServerSnapshot) -> Player {
    Player { x: s.player_x, y: s.player_y, score: s.player_score, ..p }
}

/// A replica ball moved to the cell a snapshot reports; its size and velocity stay.
pub open spec fn ball_from_snapshot(ball: PongBall, s: ServerSnapshot) -> PongBall {
    PongBall { x: s.ball_x as i32, y: s.ball_y as i32, ..ball }
}

/// A ball's cell fits the `u16` fields of a snapshot.
pub open spec fn ball_fits_wire(ball: PongBall) -> bool {
    0 <= ball.x <= u16::MAX && 0 <= ball.y <= u16::MAX
}

/// A ball inside any viewport fits the wire.
pub proof fn lemma_ball_in_bounds_fits_wire(ball: PongBall, b: Bounds)
    requires
        ball_in_bounds(ball, b),
    ensures
        ball_fits_wire(ball),
{
}

impl ClientUpdate {
    /// The update that reports paddle `p` on viewport `screen`.
    pub fn of(p: &Player, screen: Bounds) -> (r: ClientUpdate)
        ensures
            r == update_of(*p, screen),
    {
        ClientUpdate {
            player_x: p.x,
            player_y: p.y,
            player_score: p.score,
            screen_width: screen.width,
            screen_height: screen.height,
        }
    }

    /// Overwrites replica paddle `p` with what this update reports.
    pub fn apply_to(&self, p: &mut Player)
        ensures
            *final(p) == paddle_from_update(*old(p), *self),
    {
        p.x = self.player_x;
        p.y = self.player_y;
        p.score = self.player_score;
    }
}

impl ServerSnapshot {
    /// The snapshot that reports paddle `p` and ball `ball`.
    pub fn of(p: &Player, ball: &PongBall) -> (r: ServerSnapshot)
        requires
            ball_fits_wire(*ball),
        ensures
            r == snapshot_of(*p, *ball),
            r.ball_x == ball.x && r.ball_y == ball.y,
    {
        ServerSnapshot {
            player_x: p.x,
            player_y: p.y,
            ball_x: ball.x as u16,
            ball_y: ball.y as u16,
            player_score: p.score,
        }
    }

    /// Overwrites replica paddle `p` with what this snapshot reports.
    pub fn apply_to_paddle(&self, p: &mut Player)
        ensures
            *final(p) == paddle_from_snapshot(*old(p), *self),
    {
        p.x = self.player_x;
        p.y = self.player_y;
        p.score = self.player_score;
    }

    /// Moves replica ball `ball` to the cell this snapshot reports.
    pub fn apply_to_ball(&self, ball: &mut PongBall)
        ensures
            *final(ball) == ball_from_snapshot(*old(ball), *self),
    {
        ball.x = self.ball_x as i32;
        ball.y = self.ball_y as i32;
    }
}

} // verus!
