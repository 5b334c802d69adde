use pong_sync::controls::{handle_events, handle_terminal_size_change, Key, Role};
use pong_sync::entity::{Bounds, GameData, Player, PongBall};
use pong_sync::physics::pong_controls;
use pong_sync::session::Session;

fn arena() -> Bounds {
    Bounds::new(64, 35)
}

#[test]
fn new_game_layout() {
    let g = GameData::new(64, 35);
    assert_eq!(g.player, Player { score: 0, x: 2, y: 13, width: 2, height: 8 });
    assert_eq!(g.opponent, Player { score: 0, x: 60, y: 13, width: 2, height: 8 });
    assert_eq!(
        g.pongball,
        PongBall { x: 32, y: 17, width: 1, height: 1, direction_x: 1, direction_y: 1 }
    );
}

#[test]
fn ball_leaving_left_edge_scores_for_opponent() {
    let mut g = GameData::new(64, 35);
    g.pongball.x = 0;
    g.pongball.y = 17;
    g.pongball.direction_x = -1;
    g.pongball.direction_y = 1;
    pong_controls(&mut g, arena());
    assert_eq!(g.opponent.score, 1);
    assert_eq!(g.player.score, 0);
    assert_eq!((g.pongball.x, g.pongball.y), (32, 17));
    assert_eq!((g.pongball.direction_x, g.pongball.direction_y), (1, 1));
}

#[test]
fn ball_leaving_right_edge_scores_for_player() {
    let mut g = GameData::new(64, 35);
    g.pongball.x = 62;
    g.pongball.y = 20;
    g.pongball.direction_x = 1;
    g.pongball.direction_y = -1;
    pong_controls(&mut g, arena());
    assert_eq!(g.player.score, 1);
    assert_eq!(g.opponent.score, 0);
    assert_eq!((g.pongball.x, g.pongball.y), (32, 17));
    assert_eq!((g.pongball.direction_x, g.pongball.direction_y), (1, 1));
}

#[test]
fn ball_meeting_left_paddle_bounces() {
    let mut g = GameData::new(64, 35);
    // the paddle spans rows 13..=21; the ball reaches column 4 on row 15
    g.pongball.x = 5;
    g.pongball.y = 14;
    g.pongball.direction_x = -1;
    g.pongball.direction_y = 1;
    pong_controls(&mut g, arena());
    assert_eq!((g.pongball.x, g.pongball.y), (4, 15));
    assert_eq!(g.pongball.direction_x, 1);
    assert_eq!((g.player.score, g.opponent.score), (0, 0));
    pong_controls(&mut g, arena());
    assert_eq!((g.pongball.x, g.pongball.y), (5, 16));
}

#[test]
fn ball_missing_left_paddle_keeps_going() {
    let mut g = GameData::new(64, 35);
    g.pongball.x = 5;
    g.pongball.y = 2;
    g.pongball.direction_x = -1;
    g.pongball.direction_y = 1;
    pong_controls(&mut g, arena());
    assert_eq!((g.pongball.x, g.pongball.y), (4, 3));
    assert_eq!(g.pongball.direction_x, -1);
}

#[test]
fn ball_meeting_right_paddle_bounces() {
    let mut g = GameData::new(64, 35);
    g.pongball.x = 59;
    g.pongball.y = 20;
    g.pongball.direction_x = 1;
    g.pongball.direction_y = 1;
    pong_controls(&mut g, arena());
    assert_eq!((g.pongball.x, g.pongball.y), (60, 21));
    assert_eq!(g.pongball.direction_x, -1);
}

#[test]
fn ball_bounces_off_top_and_bottom() {
    let mut g = GameData::new(64, 35);
    g.pongball.x = 30;
    g.pongball.y = 1;
    g.pongball.direction_y = -1;
    pong_controls(&mut g, arena());
    assert_eq!((g.pongball.x, g.pongball.y, g.pongball.direction_y), (31, 0, 1));
    g.pongball.y = 33;
    g.pongball.direction_y = 1;
    pong_controls(&mut g, arena());
    assert_eq!((g.pongball.y, g.pongball.direction_y), (34, -1));
}

#[test]
fn score_saturates() {
    let mut g = GameData::new(64, 35);
    g.opponent.score = u16::MAX;
    g.pongball.x = 0;
    g.pongball.direction_x = -1;
    pong_controls(&mut g, arena());
    assert_eq!(g.opponent.score, u16::MAX);
}

#[test]
fn host_keys_move_left_paddle_within_range() {
    let mut g = GameData::new(64, 35);
    for _ in 0..40 {
        assert!(!handle_events(&mut g, arena(), Role::Host, Some(Key::Up)));
        assert!(g.player.y >= 1);
    }
    assert_eq!(g.player.y, 1);
    for _ in 0..40 {
        assert!(!handle_events(&mut g, arena(), Role::Host, Some(Key::Down)));
        assert!(g.player.y <= 35 - 8 - 1);
    }
    assert_eq!(g.player.y, 26);
    assert_eq!(g.opponent.y, 13);
}

#[test]
fn guest_keys_move_right_paddle() {
    let mut g = GameData::new(64, 35);
    assert!(!handle_events(&mut g, arena(), Role::Guest, Some(Key::Char('w'))));
    assert_eq!(g.opponent.y, 12);
    assert!(!handle_events(&mut g, arena(), Role::Guest, Some(Key::Char('s'))));
    assert!(!handle_events(&mut g, arena(), Role::Guest, Some(Key::Char('s'))));
    assert_eq!(g.opponent.y, 14);
    // arrow keys belong to the host
    assert!(!handle_events(&mut g, arena(), Role::Guest, Some(Key::Up)));
    assert_eq!(g.opponent.y, 14);
    assert_eq!(g.player.y, 13);
}

#[test]
fn quit_keys_end_the_session() {
    let mut g = GameData::new(64, 35);
    let before = g;
    assert!(handle_events(&mut g, arena(), Role::Host, Some(Key::Char('q'))));
    assert!(handle_events(&mut g, arena(), Role::Guest, Some(Key::Interrupt)));
    assert!(!handle_events(&mut g, arena(), Role::Host, None));
    assert!(!handle_events(&mut g, arena(), Role::Host, Some(Key::Other)));
    assert_eq!(g, before);
}

#[test]
fn resize_keeps_scores_and_recentres() {
    let mut frame = arena();
    let mut g = GameData::new(64, 35);
    g.player.score = 3;
    g.opponent.score = 5;
    g.player.y = 2;
    g.pongball.x = 10;
    assert!(handle_terminal_size_change(&mut frame, &mut g, Bounds::new(80, 24)));
    assert_eq!(frame, Bounds::new(80, 24));
    assert_eq!((g.player.score, g.opponent.score), (3, 5));
    assert_eq!((g.player.x, g.player.y), (2, 8));
    assert_eq!((g.opponent.x, g.opponent.y), (76, 8));
    assert_eq!((g.pongball.x, g.pongball.y), (40, 12));
}

#[test]
fn resize_to_same_size_changes_nothing() {
    let mut frame = arena();
    let mut g = GameData::new(64, 35);
    g.player.score = 3;
    g.player.y = 2;
    g.pongball.x = 10;
    let before = g;
    assert!(!handle_terminal_size_change(&mut frame, &mut g, arena()));
    assert_eq!(frame, arena());
    assert_eq!(g, before);
}

#[test]
fn resize_to_narrow_viewport_rebuilds() {
    let mut frame = arena();
    let mut g = GameData::new(64, 35);
    g.player.score = 2;
    g.opponent.score = 7;
    assert!(handle_terminal_size_change(&mut frame, &mut g, Bounds::new(10, 20)));
    assert_eq!(frame, Bounds::new(10, 20));
    assert_eq!((g.player.score, g.opponent.score), (2, 7));
    assert_eq!((g.player.x, g.player.y), (2, 6));
    assert_eq!((g.opponent.x, g.opponent.y), (6, 6));
    assert_eq!((g.pongball.x, g.pongball.y), (5, 10));
    assert!(g.player.y >= 1 && g.player.y <= 20 - 8 - 1);
}

#[test]
fn resize_to_unplayable_viewport_is_ignored() {
    let mut frame = arena();
    let mut g = GameData::new(64, 35);
    let before = g;
    assert!(!handle_terminal_size_change(&mut frame, &mut g, Bounds::new(3, 35)));
    assert!(!handle_terminal_size_change(&mut frame, &mut g, Bounds::new(64, 9)));
    assert_eq!(frame, arena());
    assert_eq!(g, before);
    assert!(Bounds::new(4, 10).is_playable());
    assert!(!Bounds::new(4, 9).is_playable());
    assert!(!Bounds::new(3, 10).is_playable());
}

#[test]
fn narrow_host_keeps_ball_inside() {
    let mut s = Session::new(Role::Host, Bounds::new(4, 10));
    for _ in 0..200 {
        assert!(!s.tick(None, Bounds::new(4, 10)));
        let b = s.game.pongball;
        assert!(b.x >= 0 && b.x < 4 && b.y >= 0 && b.y < 10);
    }
}

#[test]
fn host_ticks_keep_ball_and_paddle_inside() {
    let mut s = Session::new(Role::Host, arena());
    let keys = [Some(Key::Up), None, Some(Key::Down), Some(Key::Down), None];
    for t in 0..2000 {
        let size = if t == 700 { Bounds::new(40, 20) } else { s.frame };
        assert!(!s.tick(keys[t % keys.len()], size));
        let b = s.game.pongball;
        assert!(b.x >= 0 && b.x < s.frame.width as i32);
        assert!(b.y >= 0 && b.y < s.frame.height as i32);
        let p = s.game.player;
        assert!(p.y >= 1 && p.y <= s.frame.height - p.height - 1);
    }
    assert_eq!(s.frame, Bounds::new(40, 20));
}

#[test]
fn guest_tick_leaves_ball_alone() {
    let mut s = Session::new(Role::Guest, arena());
    let ball = s.game.pongball;
    assert!(!s.tick(Some(Key::Char('w')), arena()));
    assert_eq!(s.game.pongball, ball);
    assert_eq!(s.game.opponent.y, 12);
    assert!(s.tick(Some(Key::Char('q')), arena()));
}
