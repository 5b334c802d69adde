//! Real-time state synchronisation core of a two-player terminal pong game.
//!
//! - `entity`: paddles, ball, viewport bounds and the world, with their ranges.
//! - `physics`: one tick of ball movement, bouncing, paddle collision and scoring.
//! - `controls`: keys on the locally owned paddle, and viewport resizes.
//! - `frame`: length-prefixed framing of messages over a byte stream.
//! - `mailbox`: the single-slot, newest-wins handoff from a background reader.
//! - `wire`: the two messages peers exchange every tick.
//! - `session`: the per-tick decisions of one peer (host or guest).
//! - `server`: the authoritative world shared by several connected guests.
use vstd::prelude::*;

pub mod entity;
pub mod physics;
pub mod controls;
pub mod frame;
pub mod mailbox;
pub mod wire;
pub mod session;
pub mod server;
