//! A single-slot, newest-wins handoff between a background reader and the
//! foreground loop.
use vstd::prelude::*;

verus! {

/// Holds at most one value: the most recently delivered one that the foreground
/// has not taken yet. Once a delivery reports a failed decode, the mailbox is
/// disconnected and stays empty for good.
pub struct Mailbox<T> {
    waiting: Option<T>,
    disconnected: bool,
}

impl<T> View for Mailbox<T> {
    /// The waiting value, and whether the mailbox is disconnected.
    type V = (Option<T>, bool);

    closed spec fn view(&self) -> (Option<T>, bool) {
        (self.waiting, self.disconnected)
    }
}

/// The mailbox after the reader hands over the outcome of one decode: a value
/// replaces whatever was waiting; a failed decode (`None`) disconnects it and drops
/// what was waiting. A disconnected mailbox ignores every delivery.
pub open spec fn after_delivery<T>(m: (Option<T>, bool), decoded: Option<T>) -> (Option<T>, bool) {
    if m.1 {
        m
    } else {
        match decoded {
            Some(v) => (Some(v), false),
            None => (None, true),
        }
    }
}

/// The mailbox after the foreground has taken what was waiting.
pub open spec fn after_receive<T>(m: (Option<T>, bool)) -> (Option<T>, bool) {
    (None, m.1)
}

impl<T> Mailbox<T> {
    /// An empty, connected mailbox.
    pub fn new() -> (r: Mailbox<T>)
        ensures
            r@ == (None::<T>, false),
    {
        Mailbox { waiting: None, disconnected: false }
    }

    /// Hands over the outcome of one decode: `Some(value)` on success, `None` on a
    /// failed decode.
    pub fn deliver(&mut self, decoded: Option<T>)
        ensures
            final(self)@ == after_delivery(old(self)@, decoded),
    {
        if !self.disconnected {
            match decoded {
                Some(v) => {
                    self.waiting = Some(v);
                },
                None => {
                    self.waiting = None;
                    self.disconnected = true;
                },
            }
        }
    }

    /// Takes the waiting value, if any, without blocking.
    pub fn try_receive(&mut self) -> (r: Option<T>)
        ensures
            r == old(self)@.0,
            final(self)@ == after_receive(old(self)@),
    {
        self.waiting.take()
    }

    /// Whether a failed decode has disconnected the mailbox.
    pub fn is_disconnected(&self) -> (r: bool)
        ensures
            r == self@.1,
    {
        self.disconnected
    }
}

/// Of two values delivered to a connected mailbox before the foreground looks, only
/// the second is received, and the next look finds nothing.
pub proof fn lemma_newest_wins<T>(m: (Option<T>, bool), first: T, second: T)
    requires
        !m.1,
    ensures
        after_delivery(after_delivery(m, Some(first)), Some(second)).0 == Some(second),
        after_receive(after_delivery(after_delivery(m, Some(first)), Some(second))).0 == None::<T>,
{
}

/// A disconnected mailbox never hands out a value again, whatever is delivered.
pub proof fn lemma_disconnected_stays_empty<T>(m: (Option<T>, bool), decoded: Option<T>)
    requires
        m.1,
        m.0 == None::<T>,
    ensures
        after_delivery(m, decoded) == m,
        after_receive(m) == m,
{
}

} // verus!
