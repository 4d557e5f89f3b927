//! Broadcast-notifier state: a re-armable "wake everyone waiting now" signal.
//!
//! [`NotifyState`] is the shared core behind a notifier/listener pair. It
//! differs from [`crate::flag::FlagState`] only in that notification does not
//! consume it: each [`NotifyState::notify_all`] takes the waiters registered
//! so far out to be woken, and the state is immediately ready for the next
//! round of registrations. The contracts pin down exactly which registrations
//! each round wakes; that no registration is ever lost or woken twice across
//! rounds is [`crate::fill_queue::lemma_no_loss_no_duplication`], applied to
//! the waiter queue.

use vstd::prelude::*;

use crate::fill_queue::{ChopIter, FillQueue};

verus! {

/// What one notification round yields to wake: exactly the waiters registered
/// strictly before the round, most recent registration first.
pub open spec fn notify_round_spec<T>(waiters: Seq<T>) -> Seq<T> {
    waiters.reverse()
}

/// Shared state of a broadcast notifier: the wake tokens of the listeners
/// registered since the last notification round.
pub struct NotifyState<T> {
    waiters: FillQueue<T>,
}

impl<T> NotifyState<T> {
    /// The registered wake tokens, oldest registration first.
    pub closed spec fn waiters(&self) -> Seq<T> {
        self.waiters@
    }

    /// A fresh notifier state with nobody waiting.
    pub fn new() -> (r: Self)
        ensures
            r.waiters() == Seq::<T>::empty(),
    {
        NotifyState { waiters: FillQueue::new() }
    }

    /// A listener's registration step: the token joins the current round's
    /// waiter set, and the listener may block on it until the next
    /// [`NotifyState::notify_all`].
    pub fn register(&mut self, tok: T)
        ensures
            final(self).waiters() == old(self).waiters().push(tok),
    {
        self.waiters.push(tok);
    }

    /// One notification round: takes every wake token registered strictly
    /// before this call out, most recent registration first, for the caller
    /// to wake. The state stays usable; listeners registering afterwards are
    /// woken by a later round, never by this one.
    pub fn notify_all(&mut self) -> (r: ChopIter<T>)
        ensures
            r@ == notify_round_spec(old(self).waiters()),
            final(self).waiters() == Seq::<T>::empty(),
    {
        self.waiters.chop()
    }
}

/// Notification rounds are scoped: a round wakes exactly the listeners
/// registered strictly before it. A fresh token registered only after a
/// round is not among that round's wakes, while the next round, entered with
/// just that registration, yields exactly that token.
pub proof fn lemma_notify_rounds_scoped<T>(before: Seq<T>, tok: T)
    requires
        !before.contains(tok),
    ensures
        !notify_round_spec(before).contains(tok),
        notify_round_spec(Seq::empty().push(tok)) == seq![tok],
{
    assert forall|i: int| 0 <= i < before.reverse().len() implies before.reverse()[i] != tok by {
        assert(before.reverse()[i] == before[before.len() - 1 - i]);
    }
    assert(notify_round_spec(Seq::empty().push(tok)) =~= seq![tok]);
}

} // verus!
