//! A single-slot cell holding an optional owned, boxed value.
//!
//! [`AtomicCell`] stores at most one heap-allocated value; `replace` swaps the
//! whole slot for a new optional value and hands the old one back, and `take`
//! empties it. The `A` parameter carries a caller-chosen allocator handle; the
//! values themselves are ordinary owned boxes.

use vstd::prelude::*;

verus! {

/// The value an optional box holds, as an optional plain value.
pub open spec fn unboxed<T>(t: Option<Box<T>>) -> Option<T> {
    match t {
        None => None,
        Some(b) => Some(*b),
    }
}

/// A single-slot cell that can contain an optional boxed value; the slot is
/// swapped as a whole, never updated in place.
pub struct AtomicCell<T, A = ()> {
    inner: Option<Box<T>>,
    alloc: A,
}

impl<T, A> View for AtomicCell<T, A> {
    type V = Option<T>;

    /// The value currently held, if any.
    closed spec fn view(&self) -> Option<T> {
        unboxed(self.inner)
    }
}

impl<T> AtomicCell<T> {
    /// Constructs a new cell containing the optional value `t`.
    pub fn new(t: Option<T>) -> (r: Self)
        ensures
            r@ == t,
    {
        let inner = match t {
            Some(x) => Some(Box::new(x)),
            None => None,
        };
        AtomicCell { inner, alloc: () }
    }

    /// Constructs a new cell from an optional boxed value `t`.
    pub fn new_boxed(t: Option<Box<T>>) -> (r: Self)
        ensures
            r@ == unboxed(t),
    {
        AtomicCell { inner: t, alloc: () }
    }

    /// Replaces the cell's contents with the optional value `new`, returning
    /// the old value; `None` if the cell was empty.
    pub fn replace(&mut self, new: Option<T>) -> (r: Option<T>)
        ensures
            r == old(self)@,
            final(self)@ == new,
            final(self).spec_alloc() == old(self).spec_alloc(),
    {
        let mut prev = match new {
            Some(x) => Some(Box::new(x)),
            None => None,
        };
        core::mem::swap(&mut prev, &mut self.inner);
        match prev {
            Some(b) => Some(*b),
            None => None,
        }
    }

    /// Replaces the cell's contents with the optional boxed value `new`,
    /// returning the old boxed value; `None` if the cell was empty.
    pub fn replace_boxed(&mut self, new: Option<Box<T>>) -> (r: Option<Box<T>>)
        ensures
            unboxed(r) == old(self)@,
            final(self)@ == unboxed(new),
            final(self).spec_alloc() == old(self).spec_alloc(),
    {
        let mut prev = new;
        core::mem::swap(&mut prev, &mut self.inner);
        prev
    }

    /// Takes the value out of the cell, leaving it empty; `None` if the cell
    /// already was empty.
    pub fn take(&mut self) -> (r: Option<T>)
        ensures
            r == old(self)@,
            final(self)@ is None,
            final(self).spec_alloc() == old(self).spec_alloc(),
    {
        self.replace(None)
    }

    /// Takes the boxed value out of the cell, leaving it empty.
    pub fn take_boxed(&mut self) -> (r: Option<Box<T>>)
        ensures
            unboxed(r) == old(self)@,
            final(self)@ is None,
            final(self).spec_alloc() == old(self).spec_alloc(),
    {
        self.replace_boxed(None)
    }
}

impl<T, A> AtomicCell<T, A> {
    /// The allocator handle this cell was created with.
    pub closed spec fn spec_alloc(&self) -> A {
        self.alloc
    }

    /// Constructs a new cell containing the optional value `t`, carrying the
    /// allocator handle `alloc`.
    pub fn new_in(t: Option<T>, alloc: A) -> (r: Self)
        ensures
            r@ == t,
            r.spec_alloc() == alloc,
    {
        let inner = match t {
            Some(x) => Some(Box::new(x)),
            None => None,
        };
        AtomicCell { inner, alloc }
    }

    /// Constructs a new cell from an optional boxed value `t`, carrying the
    /// allocator handle `alloc`.
    pub fn new_boxed_in(t: Option<Box<T>>, alloc: A) -> (r: Self)
        ensures
            r@ == unboxed(t),
            r.spec_alloc() == alloc,
    {
        AtomicCell { inner: t, alloc }
    }

    /// Returns a reference to the allocator handle of this cell.
    pub fn allocator(&self) -> (r: &A)
        ensures
            *r == self.spec_alloc(),
    {
        &self.alloc
    }

    /// Takes the boxed value out of the cell, leaving it empty; `None` if
    /// the cell already was empty.
    pub fn take_in(&mut self) -> (r: Option<Box<T>>)
        ensures
            unboxed(r) == old(self)@,
            final(self)@ is None,
            final(self).spec_alloc() == old(self).spec_alloc(),
    {
        self.replace_in_boxed(None)
    }

    /// Replaces the cell's contents with the optional value `new`, returning
    /// the old boxed value; `None` if the cell was empty.
    pub fn replace_in(&mut self, new: Option<T>) -> (r: Option<Box<T>>)
        ensures
            unboxed(r) == old(self)@,
            final(self)@ == new,
            final(self).spec_alloc() == old(self).spec_alloc(),
    {
        let boxed = match new {
            Some(x) => Some(Box::new(x)),
            None => None,
        };
        self.replace_in_boxed(boxed)
    }

    /// Returns a mutable reference to the value inside the cell, if any.
    pub fn get_mut(&mut self) -> (r: Option<&mut T>)
        ensures
            old(self)@ is None ==> r is None && final(self)@ is None,
            old(self)@ matches Some(x) ==> r matches Some(m) && *m == x && final(self)@ == Some(
                *final(m),
            ),
            final(self).spec_alloc() == old(self).spec_alloc(),
    {
        match &mut self.inner {
            Some(b) => Some(&mut *b),
            None => None,
        }
    }

    /// Returns `true` if the cell contains a value.
    pub fn is_some(&self) -> (r: bool)
        ensures
            r == (self@ is Some),
    {
        !self.is_none()
    }

    /// Returns `true` if the cell is empty.
    pub fn is_none(&self) -> (r: bool)
        ensures
            r == (self@ is None),
    {
        self.inner.is_none()
    }

    /// Swaps the slot for the given optional boxed value.
    fn replace_in_boxed(&mut self, new: Option<Box<T>>) -> (r: Option<Box<T>>)
        ensures
            unboxed(r) == old(self)@,
            final(self)@ == unboxed(new),
            final(self).spec_alloc() == old(self).spec_alloc(),
    {
        let mut prev = new;
        core::mem::swap(&mut prev, &mut self.inner);
        prev
    }
}

} // verus!
