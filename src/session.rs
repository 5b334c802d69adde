//! The per-tick decisions of one peer's session: the host, which owns the ball,
//! and the guest, which mirrors it.
use vstd::prelude::*;

use crate::controls::{
    apply_key, handle_events, handle_terminal_size_change, is_quit, owned, resized, Key, Role,
};
use crate::entity::{ball_wf, bounds_wf, fresh_game, paddle_in_range, Bounds, GameData, Player};
use crate::physics::{physics_step, pong_controls};
use crate::wire::{
    ball_from_snapshot, lemma_ball_in_bounds_fits_wire, paddle_from_snapshot, paddle_from_update,
    snapshot_of, update_of, ClientUpdate, ServerSnapshot,
};

verus! {

/// One peer's view of the game: its role, the viewport the world is laid out on,
/// and the world.
#[derive(Clone, Copy, Debug, PartialEq, Eq, Structural)]
pub struct Session {
    pub role: Role,
    pub frame: Bounds,
    pub game: GameData,
}

/// The paddle that `role` does not own: a replica of the peer's.
pub open spec fn replica(g: GameData, role: Role) -> Player {
    match role {
        Role::Host => g.opponent,
        Role::Guest => g.player,
    }
}

/// The world with the replica paddle replaced by `p`.
pub open spec fn with_replica(g: GameData, role: Role, p: Player) -> GameData {
    match role {
        Role::Host => GameData { opponent: p, ..g },
        Role::Guest => GameData { player: p, ..g },
    }
}

/// The session after one tick on `key` (`None`: the poll timed out) and the
/// viewport size `size` now reported: the quit key ends it unchanged; otherwise the
/// key moves the owned paddle, a resize is reconciled, and the host advances the
/// ball. The flag tells whether the session ends.
pub open spec fn ticked(s: Session, key: Option<Key>, size: Bounds) -> (Session, bool) {
    if is_quit(key) {
        (s, true)
    } else {
        let moved = apply_key(s.game, s.frame, s.role, key);
        let (frame, game) = resized(s.frame, moved, size);
        let game = if s.role == Role::Host {
            physics_step(game, frame)
        } else {
            game
        };
        (Session { frame, game, ..s }, false)
    }
}

impl Session {
    /// The owned paddle lies in range on a playable viewport, and on the host the
    /// ball is well formed.
    pub open spec fn wf(&self) -> bool {
        &&& bounds_wf(self.frame)
        &&& paddle_in_range(owned(self.game, self.role), self.frame)
        &&& self.role == Role::Host ==> ball_wf(self.game.pongball, self.frame)
    }

    /// A new game for `role` laid out on `frame`.
    pub fn new(role: Role, frame: Bounds) -> (r: Session)
        requires
            bounds_wf(frame),
        ensures
            r == (Session { role, frame, game: fresh_game(frame) }),
            r.wf(),
    {
        Session { role, frame, game: GameData::new(frame.width, frame.height) }
    }

    /// Samples input, reconciles a resize and, on the host, runs the physics step.
    /// Returns whether the session should end. The session stays well formed: the
    /// owned paddle in range and, on the host, the ball inside the viewport.
    pub fn tick(&mut self, key: Option<Key>, size: Bounds) -> (quit: bool)
        requires
            old(self).wf(),
        ensures
            (*final(self), quit) == ticked(*old(self), key, size),
            final(self).wf(),
    {
        if handle_events(&mut self.game, self.frame, self.role, key) {
            return true;
        }
        handle_terminal_size_change(&mut self.frame, &mut self.game, size);
        if self.role == Role::Host {
            pong_controls(&mut self.game, self.frame);
        }
        false
    }

    /// Overwrites the replica paddle with what a guest reported.
    pub fn apply_update(&mut self, u: &ClientUpdate)
        requires
            old(self).wf(),
        ensures
            *final(self) == (Session {
                game: with_replica(
                    old(self).game,
                    old(self).role,
                    paddle_from_update(replica(old(self).game, old(self).role), *u),
                ),
                ..*old(self)
            }),
            final(self).wf(),
    {
        match self.role {
            Role::Host => u.apply_to(&mut self.game.opponent),
            Role::Guest => u.apply_to(&mut self.game.player),
        }
    }

    /// Overwrites the replica paddle with what the host reported and, on a guest,
    /// moves the replica ball to the reported cell.
    pub fn apply_snapshot(&mut self, s: &ServerSnapshot)
        requires
            old(self).wf(),
        ensures
            final(self).role == old(self).role,
            final(self).frame == old(self).frame,
            owned(final(self).game, old(self).role) == owned(old(self).game, old(self).role),
            replica(final(self).game, old(self).role) == paddle_from_snapshot(
                replica(old(self).game, old(self).role),
                *s,
            ),
            final(self).game.pongball == if old(self).role == Role::Guest {
                ball_from_snapshot(old(self).game.pongball, *s)
            } else {
                old(self).game.pongball
            },
            final(self).wf(),
    {
        match self.role {
            Role::Host => s.apply_to_paddle(&mut self.game.opponent),
            Role::Guest => {
                s.apply_to_paddle(&mut self.game.player);
                s.apply_to_ball(&mut self.game.pongball);
            },
        }
    }

    /// The update a guest sends: its own paddle and its viewport.
    pub fn outbound_update(&self) -> (r: ClientUpdate)
        ensures
            r == update_of(owned(self.game, self.role), self.frame),
    {
        match self.role {
            Role::Host => ClientUpdate::of(&self.game.player, self.frame),
            Role::Guest => ClientUpdate::of(&self.game.opponent, self.frame),
        }
    }

    /// The snapshot the host sends: its own paddle and the ball.
    pub fn outbound_snapshot(&self) -> (r: ServerSnapshot)
        requires
            self.wf(),
            self.role == Role::Host,
        ensures
            r == snapshot_of(owned(self.game, self.role), self.game.pongball),
    {
        proof {
            lemma_ball_in_bounds_fits_wire(self.game.pongball, self.frame);
        }
        ServerSnapshot::of(&self.game.player, &self.game.pongball)
    }
}

/// Over any sequence of ticks, a well-formed session keeps its owned paddle in
/// `[1, height - paddle height - 1]` and, on the host, the ball inside
/// `[0, width - 1] x [0, height - 1]`.
pub proof fn lemma_tick_keeps_session_wf(s: Session, key: Option<Key>, size: Bounds)
    requires
        s.wf(),
    ensures
        ticked(s, key, size).0.wf(),
{
    if !is_quit(key) {
        let moved = apply_key(s.game, s.frame, s.role, key);
        assert(paddle_in_range(owned(moved, s.role), s.frame));
        let (frame, game) = resized(s.frame, moved, size);
        assert(paddle_in_range(owned(game, s.role), frame));
        assert(s.role == Role::Host ==> ball_wf(game.pongball, frame));
    }
}

} // verus!
