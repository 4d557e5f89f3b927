//! Completion-flag state: a one-shot "it is done" signal with any number of
//! waiters.
//!
//! [`FlagState`] is the shared core behind a flag/subscriber pair: subscribers
//! register a wake token and block on it; completing the flag takes every
//! registered token out, to be woken, and marks the flag so that later
//! subscribers return immediately instead of registering. The blocking and
//! waking themselves are the caller's business — the state only decides who
//! is woken when, and its contracts pin that decision down exactly.

use vstd::prelude::*;

use crate::fill_queue::{ChopIter, FillQueue};

verus! {

/// What one completion yields to wake: every waiter registered so far, most
/// recent registration first.
pub open spec fn complete_spec<T>(waiters: Seq<T>) -> Seq<T> {
    waiters.reverse()
}

/// Shared state of a one-shot completion flag: whether it has completed, and
/// the wake tokens of the waiters registered while it had not.
pub struct FlagState<T> {
    marked: bool,
    waiters: FillQueue<T>,
}

impl<T> FlagState<T> {
    /// A completed flag holds no waiter: completion takes them all out, and
    /// nothing registers afterwards.
    #[verifier::type_invariant]
    spec fn wf(self) -> bool {
        self.marked ==> self.waiters@.len() == 0
    }

    /// Whether the flag has completed.
    pub closed spec fn marked(&self) -> bool {
        self.marked
    }

    /// The registered wake tokens, oldest registration first.
    pub closed spec fn waiters(&self) -> Seq<T> {
        self.waiters@
    }

    /// A fresh flag: not completed, nobody waiting.
    pub fn new() -> (r: Self)
        ensures
            !r.marked(),
            r.waiters() == Seq::<T>::empty(),
    {
        FlagState { marked: false, waiters: FillQueue::new() }
    }

    /// Returns `true` if the flag has completed.
    pub fn is_marked(&self) -> (r: bool)
        ensures
            r == self.marked(),
    {
        self.marked
    }

    /// A subscriber's registration step. While the flag has not completed,
    /// the token joins the waiter set and the subscriber may block on it;
    /// once it has, the token comes straight back (`Err`) and the subscriber
    /// returns without waiting — the success path for a late subscriber.
    pub fn register(&mut self, tok: T) -> (r: Result<(), T>)
        ensures
            !old(self).marked() ==> r is Ok && final(self).waiters() == old(self).waiters().push(
                tok,
            ),
            old(self).marked() ==> r == Err::<(), T>(tok) && final(self).waiters() == old(
                self,
            ).waiters(),
            final(self).marked() == old(self).marked(),
    {
        proof {
            use_type_invariant(&*self);
        }
        if self.marked {
            Err(tok)
        } else {
            let mut q = FillQueue::new();
            core::mem::swap(&mut q, &mut self.waiters);
            q.push(tok);
            self.waiters = q;
            Ok(())
        }
    }

    /// Completes the flag and takes every registered wake token out, most
    /// recent registration first, for the caller to wake. Completion is
    /// one-shot: afterwards the flag is marked and holds no waiter, so a
    /// second call yields nothing and no token is ever yielded twice.
    pub fn complete(&mut self) -> (r: ChopIter<T>)
        ensures
            final(self).marked(),
            final(self).waiters() == Seq::<T>::empty(),
            r@ == complete_spec(old(self).waiters()),
    {
        proof {
            use_type_invariant(&*self);
        }
        let mut q = FillQueue::new();
        core::mem::swap(&mut q, &mut self.waiters);
        let r = q.chop();
        self.marked = true;
        r
    }
}

/// Completing a flag wakes every registered waiter exactly once: the tokens
/// one completion yields are exactly the multiset of the registered tokens —
/// none lost, none woken twice.
pub proof fn lemma_complete_wakes_each_waiter_once<T>(waiters: Seq<T>)
    ensures
        complete_spec(waiters).to_multiset() == waiters.to_multiset(),
        complete_spec(waiters).len() == waiters.len(),
{
    waiters.lemma_reverse_to_multiset();
}

} // verus!
