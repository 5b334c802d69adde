//! The authoritative side for several connected guests: one shared world, one
//! mailbox per connection slot, one physics step per tick.
use vstd::prelude::*;

use crate::entity::{ball_wf, fresh_game, Bounds, GameData, Player};
use crate::mailbox::{after_delivery, after_receive, Mailbox};
use crate::physics::{bump, physics_step, pong_controls};
use crate::wire::{
    lemma_ball_in_bounds_fits_wire, paddle_from_update, snapshot_of, ClientUpdate, ServerSnapshot,
};

verus! {

/// Width of the server's playing field.
pub const ARENA_WIDTH: u16 = 64;

/// Height of the server's playing field.
pub const ARENA_HEIGHT: u16 = 35;

/// The server's playing field.
pub open spec fn arena() -> Bounds {
    Bounds { width: ARENA_WIDTH, height: ARENA_HEIGHT }
}

/// Whether updates from slot `i` drive the left paddle (`player`); every other slot
/// drives the right one (`opponent`).
pub open spec fn drives_player(i: int) -> bool {
    i == 0
}

/// The world with the paddle that slot `i` drives overwritten by `u`.
pub open spec fn with_slot_update(g: GameData, i: int, u: ClientUpdate) -> GameData {
    if drives_player(i) {
        GameData { player: paddle_from_update(g.player, u), ..g }
    } else {
        GameData { opponent: paddle_from_update(g.opponent, u), ..g }
    }
}

/// The world after the updates waiting in the first `n` slots were applied, slot by
/// slot in increasing order.
pub open spec fn drained(g: GameData, slots: Seq<(Option<ClientUpdate>, bool)>, n: nat) -> GameData
    decreases n,
{
    if n == 0 {
        g
    } else {
        let before = drained(g, slots, (n - 1) as nat);
        match slots[n - 1].0 {
            Some(u) => with_slot_update(before, n - 1, u),
            None => before,
        }
    }
}

/// Applying updates moves paddles only: the ball stays where it was.
proof fn lemma_drained_keeps_ball(g: GameData, slots: Seq<(Option<ClientUpdate>, bool)>, n: nat)
    ensures
        drained(g, slots, n).pongball == g.pongball,
    decreases n,
{
    if n > 0 {
        lemma_drained_keeps_ball(g, slots, (n - 1) as nat);
    }
}

/// The paddle whose data slot `i` is sent: the one it does not drive.
pub open spec fn sent_paddle(g: GameData, i: int) -> Player {
    if drives_player(i) {
        g.opponent
    } else {
        g.player
    }
}

/// What goes out to each slot after a tick: nothing to a disconnected slot, and to
/// every other the paddle it plays against and the ball.
pub open spec fn outbound(g: GameData, slots: Seq<(Option<ClientUpdate>, bool)>) -> Seq<
    Option<ServerSnapshot>,
> {
    Seq::new(
        slots.len(),
        |i: int|
            if slots[i].1 {
                None
            } else {
                Some(snapshot_of(sent_paddle(g, i), g.pongball))
            },
    )
}

/// The world after a tick: every waiting update applied, then one physics step.
pub open spec fn ticked_world(g: GameData, slots: Seq<(Option<ClientUpdate>, bool)>) -> GameData {
    physics_step(drained(g, slots, slots.len()), arena())
}

/// Every slot after a tick: its waiting update taken.
pub open spec fn received_all(slots: Seq<(Option<ClientUpdate>, bool)>) -> Seq<
    (Option<ClientUpdate>, bool),
> {
    slots.map_values(|m: (Option<ClientUpdate>, bool)| after_receive(m))
}

/// The shared world, and the mailbox of each connection slot in the order the
/// guests connected.
pub struct Server {
    game: GameData,
    inboxes: Vec<Mailbox<ClientUpdate>>,
}

impl View for Server {
    type V = (GameData, Seq<(Option<ClientUpdate>, bool)>);

    closed spec fn view(&self) -> (GameData, Seq<(Option<ClientUpdate>, bool)>) {
        (self.game, self.inboxes@.map_values(|m: Mailbox<ClientUpdate>| m@))
    }
}

impl Server {
    /// The ball is well formed on the arena.
    pub open spec fn wf(&self) -> bool {
        ball_wf(self@.0.pongball, arena())
    }

    /// A fresh game on the arena, with no guest connected.
    pub fn new() -> (r: Server)
        ensures
            r@.0 == fresh_game(arena()),
            r@.1 == Seq::<(Option<ClientUpdate>, bool)>::empty(),
            r.wf(),
    {
        let r = Server { game: GameData::new(ARENA_WIDTH, ARENA_HEIGHT), inboxes: Vec::new() };
        proof {
            assert(r@.1 =~= Seq::<(Option<ClientUpdate>, bool)>::empty());
        }
        r
    }

    /// The shared world.
    pub fn game(&self) -> (r: GameData)
        ensures
            r == self@.0,
    {
        self.game
    }

    /// Number of connection slots handed out so far.
    pub fn slot_count(&self) -> (r: usize)
        ensures
            r == self@.1.len(),
    {
        self.inboxes.len()
    }

    /// Opens a slot for a newly connected guest and returns its index.
    pub fn add_client(&mut self) -> (slot: usize)
        requires
            old(self)@.1.len() < usize::MAX,
        ensures
            slot == old(self)@.1.len(),
            final(self)@.0 == old(self)@.0,
            final(self)@.1 == old(self)@.1.push((None::<ClientUpdate>, false)),
            old(self).wf() ==> final(self).wf(),
    {
        let slot = self.inboxes.len();
        self.inboxes.push(Mailbox::new());
        proof {
            assert(self@.1 =~= old(self)@.1.push((None::<ClientUpdate>, false)));
        }
        slot
    }

    /// Hands slot `slot` the outcome of one decode of what its guest sent: `None`
    /// for a failed decode, which disconnects that slot alone.
    pub fn deliver(&mut self, slot: usize, decoded: Option<ClientUpdate>)
        requires
            slot < old(self)@.1.len(),
        ensures
            final(self)@.0 == old(self)@.0,
            final(self)@.1 == old(self)@.1.update(
                slot as int,
                after_delivery(old(self)@.1[slot as int], decoded),
            ),
            old(self).wf() ==> final(self).wf(),
    {
        self.inboxes[slot].deliver(decoded);
        proof {
            assert(self@.1 =~= old(self)@.1.update(
                slot as int,
                after_delivery(old(self)@.1[slot as int], decoded),
            ));
        }
    }

    /// Whether slot `slot` is still connected.
    pub fn is_connected(&self, slot: usize) -> (r: bool)
        requires
            slot < self@.1.len(),
        ensures
            r == !self@.1[slot as int].1,
    {
        !self.inboxes[slot].is_disconnected()
    }

    /// One global tick: applies the update waiting in each slot, runs the physics
    /// step once on the arena, and returns what to send to each slot (`None` for a
    /// disconnected one).
    pub fn tick(&mut self) -> (r: Vec<Option<ServerSnapshot>>)
        requires
            old(self).wf(),
        ensures
            final(self)@.0 == ticked_world(old(self)@.0, old(self)@.1),
            final(self)@.1 == received_all(old(self)@.1),
            r@ == outbound(final(self)@.0, old(self)@.1),
            final(self).wf(),
    {
        let n = self.inboxes.len();
        let ghost slots0 = self@.1;
        proof {
            assert forall|j: int| 0 <= j < n implies self.inboxes@[j]@ == slots0[j] by {
                assert(slots0[j] == self.inboxes@.map_values(|m: Mailbox<ClientUpdate>| m@)[j]);
            }
        }
        let mut i: usize = 0;
        while i < n
            invariant
                n == self.inboxes@.len(),
                n == slots0.len(),
                i <= n,
                self.game == (GameData { pongball: old(self).game.pongball, ..drained(old(self).game, slots0, i as nat) }),
                forall|j: int| 0 <= j < i ==> self.inboxes@[j]@ == after_receive(slots0[j]),
                forall|j: int| i <= j < n ==> self.inboxes@[j]@ == slots0[j],
            decreases n - i,
        {
            let waiting = self.inboxes[i].try_receive();
            if let Some(u) = waiting {
                if i == 0 {
                    u.apply_to(&mut self.game.player);
                } else {
                    u.apply_to(&mut self.game.opponent);
                }
            }
            i = i + 1;
            proof {
                lemma_drained_keeps_ball(old(self).game, slots0, i as nat);
            }
        }
        proof {
            lemma_drained_keeps_ball(old(self).game, slots0, n as nat);
        }
        pong_controls(&mut self.game, Bounds { width: ARENA_WIDTH, height: ARENA_HEIGHT });
        proof {
            assert(self@.1 =~= received_all(slots0));
        }
        let mut out: Vec<Option<ServerSnapshot>> = Vec::with_capacity(n);
        let mut k: usize = 0;
        while k < n
            invariant
                n == self.inboxes@.len(),
                n == slots0.len(),
                k <= n,
                self@.1 == received_all(slots0),
                ball_wf(self.game.pongball, arena()),
                out@ =~= outbound(self.game, slots0).subrange(0, k as int),
            decreases n - k,
        {
            proof {
                lemma_ball_in_bounds_fits_wire(self.game.pongball, arena());
            }
            proof {
                assert(self.inboxes@[k as int]@ == self@.1[k as int]);
                assert(received_all(slots0)[k as int] == after_receive(slots0[k as int]));
            }
            let item = if self.inboxes[k].is_disconnected() {
                None
            } else if k == 0 {
                Some(ServerSnapshot::of(&self.game.opponent, &self.game.pongball))
            } else {
                Some(ServerSnapshot::of(&self.game.player, &self.game.pongball))
            };
            assert(item == outbound(self.game, slots0)[k as int]);
            out.push(item);
            k = k + 1;
        }
        proof {
            assert(outbound(self.game, slots0).subrange(0, n as int) =~= outbound(self.game, slots0));
        }
        out
    }
}

/// Draining depends only on the updates waiting in the slots, not on which slots
/// are disconnected.
proof fn lemma_drained_same_waiting(
    g: GameData,
    a: Seq<(Option<ClientUpdate>, bool)>,
    b: Seq<(Option<ClientUpdate>, bool)>,
    n: nat,
)
    requires
        n <= a.len(),
        n <= b.len(),
        forall|j: int| 0 <= j < n ==> a[j].0 == b[j].0,
    ensures
        drained(g, a, n) == drained(g, b, n),
    decreases n,
{
    if n > 0 {
        lemma_drained_same_waiting(g, a, b, (n - 1) as nat);
    }
}

/// A failed decode on connected slot `i` disconnects that slot alone: no other slot
/// changes, and the next tick computes the same world, and sends every other slot
/// the same snapshot, as if the guest on slot `i` had merely sent nothing. Slot `i`
/// is sent nothing from then on.
pub proof fn lemma_disconnect_isolation(g: GameData, slots: Seq<(Option<ClientUpdate>, bool)>, i: int)
    requires
        0 <= i < slots.len(),
        !slots[i].1,
    ensures
        ({
            let failed = slots.update(i, after_delivery(slots[i], None));
            let quiet = slots.update(i, (None, false));
            &&& forall|j: int| 0 <= j < slots.len() && j != i ==> failed[j] == slots[j]
            &&& ticked_world(g, failed) == ticked_world(g, quiet)
            &&& forall|j: int|
                0 <= j < slots.len() && j != i ==> outbound(ticked_world(g, failed), failed)[j]
                    == outbound(ticked_world(g, quiet), quiet)[j]
            &&& outbound(ticked_world(g, failed), failed)[i] == None::<ServerSnapshot>
        }),
{
    let failed = slots.update(i, after_delivery(slots[i], None));
    let quiet = slots.update(i, (None, false));
    lemma_drained_same_waiting(g, failed, quiet, slots.len());
}

/// The update waiting in slot `i` reaches the paddle that slot drives when no
/// later slot drives the same paddle with an update of its own: after draining,
/// that paddle reports exactly the update's column, row and score; after the whole
/// tick it keeps the column and row, and its score is the update's, or one more
/// where the ball left the field on its side's scoring edge.
pub proof fn lemma_update_reaches_paddle(
    g: GameData,
    slots: Seq<(Option<ClientUpdate>, bool)>,
    i: int,
    u: ClientUpdate,
)
    requires
        0 <= i < slots.len(),
        slots[i].0 == Some(u),
        forall|j: int|
            i < j < slots.len() && drives_player(j) == drives_player(i) ==> slots[j].0 is None,
    ensures
        ({
            let d = drained(g, slots, slots.len());
            let p = if drives_player(i) { d.player } else { d.opponent };
            p.x == u.player_x && p.y == u.player_y && p.score == u.player_score
        }),
        ({
            let t = ticked_world(g, slots);
            let p = if drives_player(i) { t.player } else { t.opponent };
            &&& p.x == u.player_x && p.y == u.player_y
            &&& p.score == u.player_score || p.score == bump(u.player_score)
        }),
{
    lemma_update_survives(g, slots, i, u, slots.len());
}

/// Induction step of `lemma_update_reaches_paddle`, over the number of slots drained.
proof fn lemma_update_survives(
    g: GameData,
    slots: Seq<(Option<ClientUpdate>, bool)>,
    i: int,
    u: ClientUpdate,
    n: nat,
)
    requires
        0 <= i < n <= slots.len(),
        slots[i].0 == Some(u),
        forall|j: int|
            i < j < slots.len() && drives_player(j) == drives_player(i) ==> slots[j].0 is None,
    ensures
        ({
            let d = drained(g, slots, n);
            let p = if drives_player(i) { d.player } else { d.opponent };
            p.x == u.player_x && p.y == u.player_y && p.score == u.player_score
        }),
    decreases n,
{
    if n - 1 > i {
        lemma_update_survives(g, slots, i, u, (n - 1) as nat);
    }
}

} // verus!
