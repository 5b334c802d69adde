use pong_sync::controls::Role;
use pong_sync::entity::Bounds;
use pong_sync::frame::{encode_frame, FrameDecoder, FrameError, MAX_PAYLOAD};
use pong_sync::mailbox::Mailbox;
use pong_sync::server::Server;
use pong_sync::session::Session;
use pong_sync::wire::{ClientUpdate, ServerSnapshot};

fn update(x: u16, y: u16, score: u16) -> ClientUpdate {
    ClientUpdate { player_x: x, player_y: y, player_score: score, screen_width: 80, screen_height: 24 }
}

#[test]
fn frame_carries_length_prefix() {
    let f = encode_frame(b"{\"a\":1}").unwrap();
    assert_eq!(f[0], 0);
    assert_eq!(f[1], 7);
    assert_eq!(&f[2..], b"{\"a\":1}");
    let long = vec![7u8; 300];
    let f = encode_frame(&long).unwrap();
    assert_eq!((f[0], f[1]), (1, 44));
    assert_eq!(f.len(), 302);
}

#[test]
fn frame_round_trip() {
    let payloads: Vec<Vec<u8>> = vec![vec![], b"hello".to_vec(), vec![0xff; MAX_PAYLOAD]];
    for p in payloads {
        let mut d = FrameDecoder::new();
        d.push(&encode_frame(&p).unwrap());
        assert_eq!(d.next_frame(), Ok(Some(p)));
        assert_eq!(d.next_frame(), Ok(None));
    }
}

#[test]
fn frames_split_across_reads_and_glued_together() {
    let mut bytes = encode_frame(b"first").unwrap();
    bytes.extend(encode_frame(b"second").unwrap());
    let mut d = FrameDecoder::new();
    d.push(&bytes[..1]);
    assert_eq!(d.next_frame(), Ok(None));
    d.push(&bytes[1..6]);
    assert_eq!(d.next_frame(), Ok(None));
    d.push(&bytes[6..]);
    assert_eq!(d.next_frame(), Ok(Some(b"first".to_vec())));
    assert_eq!(d.next_frame(), Ok(Some(b"second".to_vec())));
    assert_eq!(d.next_frame(), Ok(None));
}

#[test]
fn oversized_frames_are_refused() {
    assert_eq!(encode_frame(&vec![0u8; MAX_PAYLOAD + 1]), Err(FrameError::TooLarge));
    let mut d = FrameDecoder::new();
    d.push(&[0x08, 0x01, 1, 2, 3]);
    assert_eq!(d.next_frame(), Err(FrameError::TooLarge));
}

#[test]
fn mailbox_newest_wins() {
    let mut m: Mailbox<u16> = Mailbox::new();
    assert_eq!(m.try_receive(), None);
    m.deliver(Some(1));
    m.deliver(Some(2));
    assert_eq!(m.try_receive(), Some(2));
    assert_eq!(m.try_receive(), None);
}

#[test]
fn mailbox_failed_decode_disconnects() {
    let mut m: Mailbox<u16> = Mailbox::new();
    m.deliver(Some(1));
    assert!(!m.is_disconnected());
    m.deliver(None);
    assert!(m.is_disconnected());
    assert_eq!(m.try_receive(), None);
    m.deliver(Some(3));
    assert_eq!(m.try_receive(), None);
    assert!(m.is_disconnected());
}

#[test]
fn server_applies_updates_per_slot_and_fans_out() {
    let mut s = Server::new();
    assert_eq!(s.add_client(), 0);
    assert_eq!(s.add_client(), 1);
    s.deliver(0, Some(update(2, 5, 1)));
    s.deliver(1, Some(update(60, 20, 2)));
    let out = s.tick();
    let g = s.game();
    assert_eq!((g.player.y, g.player.score), (5, 1));
    assert_eq!((g.opponent.y, g.opponent.score), (20, 2));
    assert_eq!((g.pongball.x, g.pongball.y), (33, 18));
    assert_eq!(
        out,
        vec![
            Some(ServerSnapshot { player_x: 60, player_y: 20, ball_x: 33, ball_y: 18, player_score: 2 }),
            Some(ServerSnapshot { player_x: 2, player_y: 5, ball_x: 33, ball_y: 18, player_score: 1 }),
        ]
    );
}

#[test]
fn server_disconnect_isolates_one_slot() {
    let mut s = Server::new();
    s.add_client();
    s.add_client();
    s.deliver(1, Some(update(60, 20, 2)));
    s.deliver(1, None);
    s.deliver(0, Some(update(2, 7, 4)));
    assert!(s.is_connected(0));
    assert!(!s.is_connected(1));
    let out = s.tick();
    let g = s.game();
    assert_eq!((g.player.y, g.player.score), (7, 4));
    assert_eq!((g.opponent.y, g.opponent.score), (13, 0));
    assert_eq!((g.pongball.x, g.pongball.y), (33, 18));
    assert_eq!(out[1], None);
    assert_eq!(
        out[0],
        Some(ServerSnapshot { player_x: 60, player_y: 13, ball_x: 33, ball_y: 18, player_score: 0 })
    );
    s.tick();
    assert_eq!((s.game().pongball.x, s.game().pongball.y), (34, 19));
}

#[test]
fn guest_mirrors_snapshot_and_reports_its_paddle() {
    let mut s = Session::new(Role::Guest, Bounds::new(64, 35));
    s.apply_snapshot(&ServerSnapshot { player_x: 2, player_y: 9, ball_x: 40, ball_y: 3, player_score: 6 });
    assert_eq!((s.game.player.x, s.game.player.y, s.game.player.score), (2, 9, 6));
    assert_eq!((s.game.pongball.x, s.game.pongball.y), (40, 3));
    assert_eq!(s.game.opponent.y, 13);
    let u = s.outbound_update();
    assert_eq!(
        u,
        ClientUpdate { player_x: 60, player_y: 13, player_score: 0, screen_width: 64, screen_height: 35 }
    );
}

#[test]
fn host_mirrors_update_and_reports_paddle_and_ball() {
    let mut s = Session::new(Role::Host, Bounds::new(64, 35));
    s.apply_update(&update(60, 4, 2));
    assert_eq!((s.game.opponent.x, s.game.opponent.y, s.game.opponent.score), (60, 4, 2));
    s.apply_snapshot(&ServerSnapshot { player_x: 1, player_y: 1, ball_x: 1, ball_y: 1, player_score: 9 });
    assert_eq!((s.game.pongball.x, s.game.pongball.y), (32, 17));
    let snap = s.outbound_snapshot();
    assert_eq!(
        snap,
        ServerSnapshot { player_x: 2, player_y: 13, ball_x: 32, ball_y: 17, player_score: 0 }
    );
}

#[test]
fn later_slot_wins_the_shared_paddle() {
    let mut s = Server::new();
    s.add_client();
    s.add_client();
    s.add_client();
    s.deliver(1, Some(update(60, 20, 2)));
    s.deliver(2, Some(update(60, 3, 9)));
    s.tick();
    let g = s.game();
    assert_eq!((g.opponent.x, g.opponent.y, g.opponent.score), (60, 3, 9));
    assert_eq!((g.player.y, g.player.score), (13, 0));
}
