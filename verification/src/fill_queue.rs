//! The append/bulk-drain queue.
//!
//! A [`FillQueue`] is a chain of individually owned nodes, each holding one
//! pushed value and a back-link to the node pushed just before it. Pushing
//! prepends a node to the chain; [`FillQueue::chop`] detaches the whole chain
//! at once and hands it to a [`ChopIter`], which yields the values in
//! last-in-first-out order, freeing each node as it is consumed (or when the
//! iterator itself is dropped).

use vstd::multiset::Multiset;
use vstd::prelude::*;

use crate::AllocError;

verus! {

/// Back-link cell of one queue node. The link is written exactly once
/// ("published"); reading it out before it was published is a logic error,
/// so [`PrevCell::get`] asks for a published cell.
pub struct PrevCell<T> {
    init: bool,
    link: Option<Box<FillQueueNode<T>>>,
}

/// One heap node of the queue's chain: the pushed value plus the back-link
/// to the node pushed immediately before it (absent for the oldest node).
pub struct FillQueueNode<T> {
    prev: PrevCell<T>,
    v: T,
}

/// The values held by the chain starting at `link`, oldest push first.
pub closed spec fn chain_seq<T>(link: Option<Box<FillQueueNode<T>>>) -> Seq<T>
    decreases link,
{
    match link {
        None => Seq::empty(),
        Some(n) => chain_seq(n.prev.link).push(n.v),
    }
}

/// Every node of the chain has its back-link published: the shape the queue
/// maintains for every chain it owns or hands out.
pub closed spec fn chain_wf<T>(link: Option<Box<FillQueueNode<T>>>) -> bool
    decreases link,
{
    match link {
        None => true,
        Some(n) => n.prev.init && chain_wf(n.prev.link),
    }
}

impl<T> PrevCell<T> {
    /// Whether the back-link has been written.
    pub closed spec fn published(self) -> bool {
        self.init
    }

    /// The back-link currently held.
    pub closed spec fn spec_link(self) -> Option<Box<FillQueueNode<T>>> {
        self.link
    }

    /// A fresh cell: no back-link yet, not published.
    pub fn new() -> (r: Self)
        ensures
            !r.published(),
            r.spec_link() is None,
    {
        PrevCell { init: false, link: None }
    }

    /// Writes the back-link and publishes it. Writing twice is a logic
    /// error, so the cell must not have been published before.
    pub fn set_mut(&mut self, prev: Option<Box<FillQueueNode<T>>>)
        requires
            !old(self).published(),
        ensures
            final(self).published(),
            final(self).spec_link() == prev,
    {
        self.link = prev;
        self.init = true;
    }

    /// Takes the back-link out of a published cell, leaving it empty.
    /// An unpublished cell has no link to hand out yet, so the cell must be
    /// published.
    pub fn get(&mut self) -> (r: Option<Box<FillQueueNode<T>>>)
        requires
            old(self).published(),
        ensures
            r == old(self).spec_link(),
            final(self).published(),
            final(self).spec_link() is None,
    {
        let mut taken = None;
        core::mem::swap(&mut taken, &mut self.link);
        taken
    }
}

/// What one atomic push does to the queue's contents (oldest push first).
pub open spec fn atomic_push_spec<T>(q: Seq<T>, v: T) -> Seq<T> {
    q.push(v)
}

/// What one exclusive-access push does to the queue's contents.
pub open spec fn mut_push_spec<T>(q: Seq<T>, v: T) -> Seq<T> {
    q.push(v)
}

/// The values one atomic chop yields, in yield order: the whole contents,
/// most recent push first. The queue is left empty.
pub open spec fn atomic_chop_spec<T>(q: Seq<T>) -> Seq<T> {
    q.reverse()
}

/// The values one exclusive-access chop yields, in yield order.
pub open spec fn mut_chop_spec<T>(q: Seq<T>) -> Seq<T> {
    q.reverse()
}

/// A queue that is filled one value at a time, from which the whole current
/// contents is taken at once.
///
/// `push` appends a value; `chop` detaches everything pushed so far and
/// returns a [`ChopIter`] that yields those values newest-first. The `_mut`
/// variants are the same operations for callers that already hold the queue
/// exclusively; their observable behaviour is identical
/// (see [`lemma_mut_matches_atomic`]).
///
/// The `A` parameter carries a caller-chosen allocator handle; the nodes
/// themselves are ordinary owned boxes.
pub struct FillQueue<T, A = ()> {
    head: Option<Box<FillQueueNode<T>>>,
    alloc: A,
}

impl<T, A> View for FillQueue<T, A> {
    type V = Seq<T>;

    /// The queue's contents, oldest push first.
    closed spec fn view(&self) -> Seq<T> {
        chain_seq(self.head)
    }
}

impl<T, A> FillQueue<T, A> {
    #[verifier::type_invariant]
    spec fn wf(self) -> bool {
        chain_wf(self.head)
    }
}

impl<T> FillQueue<T> {
    /// Creates a new empty queue.
    pub fn new() -> (r: Self)
        ensures
            r@ == Seq::<T>::empty(),
    {
        FillQueue { head: None, alloc: () }
    }
}

impl<T, A> FillQueue<T, A> {
    /// The allocator handle this queue was created with.
    pub closed spec fn spec_alloc(&self) -> A {
        self.alloc
    }

    /// Creates a new empty queue carrying the given allocator handle.
    pub fn new_in(alloc: A) -> (r: Self)
        ensures
            r@ == Seq::<T>::empty(),
            r.spec_alloc() == alloc,
    {
        FillQueue { head: None, alloc }
    }

    /// Returns a reference to this queue's allocator handle.
    pub fn allocator(&self) -> (r: &A)
        ensures
            *r == self.spec_alloc(),
    {
        &self.alloc
    }

    /// Returns `true` if the queue is currently empty.
    pub fn is_empty(&self) -> (r: bool)
        ensures
            r == (self@.len() == 0),
    {
        proof {
            if self.head is Some {
                assert(self@.len() > 0);
            }
        }
        self.head.is_none()
    }

    /// Pushes an element onto the queue. This entry point never fails:
    /// running out of memory aborts instead.
    pub fn push(&mut self, v: T)
        ensures
            final(self)@ == atomic_push_spec(old(self)@, v),
            final(self).spec_alloc() == old(self).spec_alloc(),
    {
        self.try_push(v).unwrap()
    }

    /// Pushes an element onto the queue under exclusive access.
    pub fn push_mut(&mut self, v: T)
        ensures
            final(self)@ == mut_push_spec(old(self)@, v),
            final(self).spec_alloc() == old(self).spec_alloc(),
    {
        self.try_push_mut(v).unwrap()
    }

    /// Pushes an element onto the queue, reporting an allocation failure as
    /// an error. With ordinary owned nodes allocation failure aborts before
    /// this function can observe it, so the result is always `Ok` and the
    /// queue always grows by exactly the pushed value.
    pub fn try_push(&mut self, v: T) -> (r: Result<(), AllocError>)
        ensures
            r is Ok,
            final(self)@ == atomic_push_spec(old(self)@, v),
            final(self).spec_alloc() == old(self).spec_alloc(),
    {
        proof {
            use_type_invariant(&*self);
        }
        let mut cell = PrevCell::new();
        let mut old_head = None;
        core::mem::swap(&mut old_head, &mut self.head);
        cell.set_mut(old_head);
        self.head = Some(Box::new(FillQueueNode { prev: cell, v }));
        Ok(())
    }

    /// Pushes an element under exclusive access, reporting an allocation
    /// failure as an error; always `Ok`, as for [`FillQueue::try_push`].
    pub fn try_push_mut(&mut self, v: T) -> (r: Result<(), AllocError>)
        ensures
            r is Ok,
            final(self)@ == mut_push_spec(old(self)@, v),
            final(self).spec_alloc() == old(self).spec_alloc(),
    {
        proof {
            use_type_invariant(&*self);
        }
        let mut cell = PrevCell::new();
        let mut old_head = None;
        core::mem::swap(&mut old_head, &mut self.head);
        cell.set_mut(old_head);
        self.head = Some(Box::new(FillQueueNode { prev: cell, v }));
        Ok(())
    }

    /// Detaches the whole current contents and returns an iterator that
    /// yields it in last-in-first-out order. The queue is left empty.
    pub fn chop(&mut self) -> (r: ChopIter<T, A>) where A: Clone
        ensures
            r@ == atomic_chop_spec(old(self)@),
            final(self)@ == Seq::<T>::empty(),
            final(self).spec_alloc() == old(self).spec_alloc(),
    {
        proof {
            use_type_invariant(&*self);
        }
        let mut taken = None;
        core::mem::swap(&mut taken, &mut self.head);
        ChopIter { ptr: taken, alloc: self.alloc.clone() }
    }

    /// Detaches the whole current contents under exclusive access; the same
    /// observable behaviour as [`FillQueue::chop`].
    pub fn chop_mut(&mut self) -> (r: ChopIter<T, A>) where A: Clone
        ensures
            r@ == mut_chop_spec(old(self)@),
            final(self)@ == Seq::<T>::empty(),
            final(self).spec_alloc() == old(self).spec_alloc(),
    {
        proof {
            use_type_invariant(&*self);
        }
        let mut taken = None;
        core::mem::swap(&mut taken, &mut self.head);
        ChopIter { ptr: taken, alloc: self.alloc.clone() }
    }
}

/// Iterator over one detached ("chopped") chain of a [`FillQueue`].
///
/// Yields the chopped values most recent push first. Each consumed node is
/// freed as its value is handed out; dropping the iterator early drops the
/// rest of the chain, values included, since the iterator owns it outright.
pub struct ChopIter<T, A = ()> {
    ptr: Option<Box<FillQueueNode<T>>>,
    alloc: A,
}

impl<T, A> View for ChopIter<T, A> {
    type V = Seq<T>;

    /// The values still to be yielded, in yield order.
    closed spec fn view(&self) -> Seq<T> {
        chain_seq(self.ptr).reverse()
    }
}

impl<T, A> ChopIter<T, A> {
    #[verifier::type_invariant]
    spec fn wf(self) -> bool {
        chain_wf(self.ptr)
    }

    /// Yields the next value of the chopped chain, or `None` once it is
    /// exhausted, freeing the node that held the value.
    pub fn next(&mut self) -> (r: Option<T>)
        ensures
            old(self)@.len() == 0 ==> r is None && final(self)@ == old(self)@,
            old(self)@.len() > 0 ==> r == Some(old(self)@[0]) && final(self)@ == old(self)@.skip(1),
    {
        proof {
            use_type_invariant(&*self);
        }
        let mut taken = None;
        core::mem::swap(&mut taken, &mut self.ptr);
        match taken {
            None => None,
            Some(node) => {
                let FillQueueNode { mut prev, v } = *node;
                let link = prev.get();
                proof {
                    lemma_push_reverse(chain_seq(link), v);
                }
                self.ptr = link;
                Some(v)
            },
        }
    }
}

/// Reversing a sequence extended at the back puts the new element in front.
proof fn lemma_push_reverse<T>(s: Seq<T>, v: T)
    ensures
        s.push(v).reverse() == seq![v] + s.reverse(),
        s.push(v).reverse().skip(1) == s.reverse(),
{
    assert(s.push(v).reverse() =~= seq![v] + s.reverse());
    assert(s.push(v).reverse().skip(1) =~= s.reverse());
}

/// Exclusive-access push/chop and atomic push/chop make the same update to
/// the queue and yield the same values for the same call order, so a caller
/// may mix the two freely under single-threaded use.
pub proof fn lemma_mut_matches_atomic<T>(q: Seq<T>, v: T)
    ensures
        mut_push_spec(q, v) == atomic_push_spec(q, v),
        mut_chop_spec(q) == atomic_chop_spec(q),
{
}

/// One step of a queue's history: a push of one value, or a chop that takes
/// the whole current contents.
pub enum QueueOp<T> {
    Push(T),
    Chop,
}

/// The queue's contents after running `ops`, in order, on a fresh queue.
pub open spec fn contents_after<T>(ops: Seq<QueueOp<T>>) -> Seq<T>
    decreases ops.len(),
{
    if ops.len() == 0 {
        Seq::empty()
    } else {
        match ops.last() {
            QueueOp::Push(v) => atomic_push_spec(contents_after(ops.drop_last()), v),
            QueueOp::Chop => Seq::empty(),
        }
    }
}

/// Everything that the chops among `ops` yielded, all rounds together, as a
/// multiset (the yield order within a round is [`atomic_chop_spec`]).
pub open spec fn chopped_in<T>(ops: Seq<QueueOp<T>>) -> Multiset<T>
    decreases ops.len(),
{
    if ops.len() == 0 {
        Multiset::empty()
    } else {
        match ops.last() {
            QueueOp::Push(v) => chopped_in(ops.drop_last()),
            QueueOp::Chop => chopped_in(ops.drop_last()).add(
                atomic_chop_spec(contents_after(ops.drop_last())).to_multiset(),
            ),
        }
    }
}

/// The multiset of all values that `ops` pushed.
pub open spec fn pushed_in<T>(ops: Seq<QueueOp<T>>) -> Multiset<T>
    decreases ops.len(),
{
    if ops.len() == 0 {
        Multiset::empty()
    } else {
        match ops.last() {
            QueueOp::Push(v) => pushed_in(ops.drop_last()).insert(v),
            QueueOp::Chop => pushed_in(ops.drop_last()),
        }
    }
}

/// No loss, no duplication: however pushes and chops are interleaved, what
/// all the chops yielded, together with what still sits in the queue (what a
/// final chop would yield), is exactly the multiset of the pushed values.
pub proof fn lemma_no_loss_no_duplication<T>(ops: Seq<QueueOp<T>>)
    ensures
        chopped_in(ops).add(contents_after(ops).to_multiset()) == pushed_in(ops),
    decreases ops.len(),
{
    broadcast use vstd::seq_lib::group_to_multiset_ensures;

    if ops.len() == 0 {
        assert(contents_after(ops).to_multiset() =~= Multiset::<T>::empty());
        assert(chopped_in(ops).add(contents_after(ops).to_multiset()) =~= pushed_in(ops));
    } else {
        lemma_no_loss_no_duplication(ops.drop_last());
        let rest = ops.drop_last();
        match ops.last() {
            QueueOp::Push(v) => {
                assert(contents_after(ops).to_multiset() =~= contents_after(
                    rest,
                ).to_multiset().insert(v));
                assert(chopped_in(ops).add(contents_after(ops).to_multiset())
                    =~= chopped_in(rest).add(contents_after(rest).to_multiset()).insert(v));
            },
            QueueOp::Chop => {
                contents_after(rest).lemma_reverse_to_multiset();
                assert(contents_after(ops).to_multiset() =~= Multiset::<T>::empty());
                assert(chopped_in(ops).add(contents_after(ops).to_multiset())
                    =~= chopped_in(rest).add(contents_after(rest).to_multiset()));
            },
        }
    }
}

} // verus!
