//! Keyboard input on the locally owned paddle, and viewport resizes.
use vstd::prelude::*;

use crate::entity::{
    bounds_wf, fresh_game, game_wf, max_paddle_y, paddle_in_range, Bounds, GameData, Player,
};

verus! {

/// A key press, as the input poll reports it.
#[derive(Clone, Copy, Debug, PartialEq, Eq, Structural)]
pub enum Key {
    Char(char),
    Up,
    Down,
    /// Control-C.
    Interrupt,
    Other,
}

/// Which paddle this process owns. The host owns the left paddle (`player`) and
/// moves it with the arrow keys; the guest owns the right one (`opponent`) and moves
/// it with `w` and `s`.
#[derive(Clone, Copy, Debug, PartialEq, Eq, Structural)]
pub enum Role {
    Host,
    Guest,
}

/// What a key asks of the owned paddle.
#[derive(Clone, Copy, Debug, PartialEq, Eq, Structural)]
pub enum Move {
    Up,
    Down,
    Stay,
}

/// The key that ends a session.
pub const QUIT_KEY: char = 'q';

/// The quit key or control-C ends a session.
pub open spec fn is_quit(key: Option<Key>) -> bool {
    key == Some(Key::Char(QUIT_KEY)) || key == Some(Key::Interrupt)
}

/// The move a key asks for under `role`.
pub open spec fn key_move(role: Role, key: Option<Key>) -> Move {
    match (role, key) {
        (Role::Host, Some(Key::Up)) => Move::Up,
        (Role::Host, Some(Key::Down)) => Move::Down,
        (Role::Guest, Some(Key::Char('w'))) => Move::Up,
        (Role::Guest, Some(Key::Char('s'))) => Move::Down,
        _ => Move::Stay,
    }
}

/// The paddle one row up or down, where that keeps its row in
/// `[1, height - paddle height - 1]`; otherwise unchanged.
pub open spec fn moved_paddle(p: Player, b: Bounds, m: Move) -> Player {
    match m {
        Move::Up => if p.y > 1 {
            Player { y: (p.y - 1) as u16, ..p }
        } else {
            p
        },
        Move::Down => if p.y < max_paddle_y(b, p.height) {
            Player { y: (p.y + 1) as u16, ..p }
        } else {
            p
        },
        Move::Stay => p,
    }
}

/// The paddle that `role` owns.
pub open spec fn owned(g: GameData, role: Role) -> Player {
    match role {
        Role::Host => g.player,
        Role::Guest => g.opponent,
    }
}

/// The world after `key` was pressed, or no key came, under `role`: only the owned
/// paddle may move.
pub open spec fn apply_key(g: GameData, b: Bounds, role: Role, key: Option<Key>) -> GameData {
    let p = moved_paddle(owned(g, role), b, key_move(role, key));
    match role {
        Role::Host => GameData { player: p, ..g },
        Role::Guest => GameData { opponent: p, ..g },
    }
}

/// The world on the new viewport, laid out afresh, with both scores carried over.
pub open spec fn rebuilt(g: GameData, b: Bounds) -> GameData {
    let f = fresh_game(b);
    GameData {
        player: Player { score: g.player.score, ..f.player },
        opponent: Player { score: g.opponent.score, ..f.opponent },
        ..f
    }
}

/// The viewport and world after a resize check against `new_size`. A viewport that
/// is unchanged, or too small to lay a game out on, leaves both as they are.
pub open spec fn resized(current: Bounds, g: GameData, new_size: Bounds) -> (Bounds, GameData) {
    if new_size == current || !bounds_wf(new_size) {
        (current, g)
    } else {
        (new_size, rebuilt(g, new_size))
    }
}

fn key_to_move(role: Role, key: Option<Key>) -> (r: Move)
    ensures
        r == key_move(role, key),
{
    match (role, key) {
        (Role::Host, Some(Key::Up)) => Move::Up,
        (Role::Host, Some(Key::Down)) => Move::Down,
        (Role::Guest, Some(Key::Char('w'))) => Move::Up,
        (Role::Guest, Some(Key::Char('s'))) => Move::Down,
        _ => Move::Stay,
    }
}

fn move_paddle(p: &mut Player, b: Bounds, m: Move)
    ensures
        *final(p) == moved_paddle(*old(p), b, m),
        paddle_in_range(*old(p), b) ==> paddle_in_range(*final(p), b),
{
    match m {
        Move::Up => {
            if p.y > 1 {
                p.y = p.y - 1;
            }
        },
        Move::Down => {
            if (p.y as i32) < b.height as i32 - p.height as i32 - 1 {
                p.y = p.y + 1;
            }
        },
        Move::Stay => {},
    }
}

/// Handles one polled key (`None` when the poll timed out) for the paddle that
/// `role` owns on viewport `t_size`. Returns whether the session should end; the
/// quit key and control-C move nothing. A paddle in range stays in range.
pub fn handle_events(game_data: &mut GameData, t_size: Bounds, role: Role, key: Option<Key>) -> (quit:
    bool)
    ensures
        quit == is_quit(key),
        quit ==> *final(game_data) == *old(game_data),
        !quit ==> *final(game_data) == apply_key(*old(game_data), t_size, role, key),
        paddle_in_range(owned(*old(game_data), role), t_size) ==> paddle_in_range(
            owned(*final(game_data), role),
            t_size,
        ),
{
    match key {
        Some(Key::Char(QUIT_KEY)) | Some(Key::Interrupt) => {
            return true;
        },
        _ => {},
    }
    let m = key_to_move(role, key);
    match role {
        Role::Host => move_paddle(&mut game_data.player, t_size, m),
        Role::Guest => move_paddle(&mut game_data.opponent, t_size, m),
    }
    false
}

/// Compares the last known viewport `current_frame_size` with `new_terminal_size`.
/// On a change to a viewport large enough to play on, the world is laid out afresh
/// on it with both scores carried over, and `true` is returned. Otherwise nothing
/// changes and `false` is returned.
pub fn handle_terminal_size_change(
    current_frame_size: &mut Bounds,
    game_data: &mut GameData,
    new_terminal_size: Bounds,
) -> (changed: bool)
    ensures
        (*final(current_frame_size), *final(game_data)) == resized(
            *old(current_frame_size),
            *old(game_data),
            new_terminal_size,
        ),
        changed == (*final(current_frame_size) != *old(current_frame_size)),
        changed ==> game_wf(*final(game_data), *final(current_frame_size)),
        game_wf(*old(game_data), *old(current_frame_size)) ==> game_wf(
            *final(game_data),
            *final(current_frame_size),
        ),
{
    if (current_frame_size.height != new_terminal_size.height || current_frame_size.width
        != new_terminal_size.width) && new_terminal_size.is_playable() {
        *current_frame_size = new_terminal_size;
        let score_p1 = game_data.player.score;
        let score_p2 = game_data.opponent.score;
        *game_data = GameData::new(new_terminal_size.width, new_terminal_size.height);
        game_data.player.score = score_p1;
        game_data.opponent.score = score_p2;
        true
    } else {
        false
    }
}

/// A resize check against the viewport already in use changes nothing: neither the
/// viewport, nor any score, paddle or the ball.
pub proof fn lemma_resize_unchanged_is_noop(current: Bounds, g: GameData)
    ensures
        resized(current, g, current) == (current, g),
{
}

} // verus!
