//! Building blocks for append/bulk-drain queues and the waiter-registration
//! primitives built on top of them.
//!
//! The heart of the crate is [`fill_queue::FillQueue`]: a queue that only
//! supports pushing one value at a time and detaching ("chopping") its whole
//! current contents at once, yielding them in last-in-first-out order. On top
//! of it sit the completion-flag and broadcast-notifier state machines in
//! [`flag`] and [`notify`], which use a `FillQueue` of wake tokens as their
//! set of pending waiters.
//!
//! Every structure here is modelled over explicitly owned values: a node chain
//! is a chain of owned links, and detaching it transfers ownership to the
//! iterator that drains it. Each operation carries a contract that pins down
//! the queue contents it leaves behind and the values it hands out.

use vstd::prelude::*;

pub mod arc_cell;
pub mod bitfield;
pub mod cell;
pub mod fill_queue;
pub mod flag;
pub mod notify;
pub mod take;

pub use arc_cell::ArcCell;
pub use bitfield::AtomicBitBox;
pub use cell::AtomicCell;
pub use fill_queue::FillQueue;
pub use take::TakeCell;

verus! {

/// Error value returned when allocating a queue node (or any other owned
/// cell) fails; the panicking entry points turn it into an abort instead.
#[derive(Copy, Clone, PartialEq, Eq, Debug)]
pub struct AllocError;

/// Error returned when a timeout occurs before the main operation completes.
#[derive(Debug, Clone, Copy, PartialEq, Eq, Hash, Default)]
pub struct Timeout;

/// Whether `v` holds a value that satisfies `f`.
#[allow(unused)]
pub(crate) fn is_some_and<T, F: FnOnce(T) -> bool>(v: Option<T>, f: F) -> (r: bool)
    requires
        v matches Some(x) ==> f.requires((x,)),
    ensures
        match v {
            None => !r,
            Some(x) => f.ensures((x,), r),
        },
{
    match v {
        None => false,
        Some(x) => f(x),
    }
}

/// Smallest number of chunks of size `rhs` that cover `lhs` items.
pub fn div_ceil(lhs: usize, rhs: usize) -> (r: usize)
    requires
        rhs > 0,
    ensures
        lhs % rhs == 0 ==> r == lhs / rhs,
        lhs % rhs != 0 ==> r == lhs / rhs + 1,
{
    let d = lhs / rhs;
    let r = lhs % rhs;
    if r > 0 {
        proof {
            assert(d < lhs) by (nonlinear_arith)
                requires
                    rhs > 0,
                    d == lhs as int / rhs as int,
                    r == lhs as int % rhs as int,
                    r > 0,
            ;
        }
        d + 1
    } else {
        d
    }
}

} // verus!
