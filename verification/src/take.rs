//! The inverse of a once-cell: a cell that starts full and whose value can be
//! taken out exactly once.

use vstd::prelude::*;

verus! {

/// A cell initialized with a value that can be taken exactly once; after the
/// value was taken, every further attempt comes back empty.
pub struct TakeCell<T> {
    taken: bool,
    v: Option<T>,
}

impl<T> View for TakeCell<T> {
    type V = Option<T>;

    /// The value still held by the cell; `None` once it was taken.
    closed spec fn view(&self) -> Option<T> {
        self.v
    }
}

impl<T> TakeCell<T> {
    /// The taken mark tracks exactly whether the value is gone.
    #[verifier::type_invariant]
    spec fn wf(self) -> bool {
        self.taken == (self.v is None)
    }

    /// Creates a new cell holding `v`.
    pub fn new(v: T) -> (r: Self)
        ensures
            r@ == Some(v),
    {
        TakeCell { taken: false, v: Some(v) }
    }

    /// Creates a cell whose value has already been taken.
    pub fn new_taken() -> (r: Self)
        ensures
            r@ is None,
    {
        TakeCell { taken: true, v: None }
    }

    /// Checks whether the value has already been taken.
    pub fn is_taken(&self) -> (r: bool)
        ensures
            r == (self@ is None),
    {
        proof {
            use_type_invariant(self);
        }
        self.taken
    }

    /// Takes the value out of the cell; `None` if it was already taken.
    pub fn try_take(&mut self) -> (r: Option<T>)
        ensures
            r == old(self)@,
            final(self)@ is None,
    {
        proof {
            use_type_invariant(&*self);
        }
        let mut cell = TakeCell { taken: true, v: None };
        core::mem::swap(&mut cell, self);
        let TakeCell { taken: _, v } = cell;
        v
    }

    /// Takes the value out of the cell under exclusive access; the same
    /// observable behaviour as [`TakeCell::try_take`].
    pub fn try_take_mut(&mut self) -> (r: Option<T>)
        ensures
            r == old(self)@,
            final(self)@ is None,
    {
        self.try_take()
    }
}

} // verus!
