//! A single-slot cell holding an optional reference-counted value.
//!
//! [`ArcCell`] is [`crate::cell::AtomicCell`]'s sibling for shared values: the
//! slot holds an optional `Arc`, `replace` swaps the whole slot and hands the
//! old handle back, and `take` empties it.

use std::sync::Arc;

use vstd::prelude::*;

verus! {

/// The value an optional shared handle points at, as an optional plain value.
pub open spec fn unshared<T>(t: Option<Arc<T>>) -> Option<T> {
    match t {
        None => None,
        Some(a) => Some(*a),
    }
}

/// A single-slot cell that can contain an optional reference-counted value;
/// the slot is swapped as a whole, never updated in place.
pub struct ArcCell<T> {
    inner: Option<Arc<T>>,
}

impl<T> View for ArcCell<T> {
    type V = Option<T>;

    /// The value currently held, if any.
    closed spec fn view(&self) -> Option<T> {
        unshared(self.inner)
    }
}

impl<T> ArcCell<T> {
    /// Constructs a new cell containing the optional value `t`.
    pub fn new(t: Option<T>) -> (r: Self)
        ensures
            r@ == t,
    {
        let inner = match t {
            Some(x) => Some(Arc::new(x)),
            None => None,
        };
        ArcCell { inner }
    }

    /// Constructs a new cell from an optional shared handle `t`.
    pub fn new_arced(t: Option<Arc<T>>) -> (r: Self)
        ensures
            r@ == unshared(t),
    {
        ArcCell { inner: t }
    }

    /// Replaces the cell's contents with the optional value `new`, returning
    /// the old handle; `None` if the cell was empty.
    pub fn replace(&mut self, new: Option<T>) -> (r: Option<Arc<T>>)
        ensures
            unshared(r) == old(self)@,
            final(self)@ == new,
    {
        let arced = match new {
            Some(x) => Some(Arc::new(x)),
            None => None,
        };
        self.replace_arced(arced)
    }

    /// Replaces the cell's contents with the optional shared handle `new`,
    /// returning the old handle; `None` if the cell was empty.
    pub fn replace_arced(&mut self, new: Option<Arc<T>>) -> (r: Option<Arc<T>>)
        ensures
            unshared(r) == old(self)@,
            final(self)@ == unshared(new),
    {
        let mut prev = new;
        core::mem::swap(&mut prev, &mut self.inner);
        prev
    }

    /// Takes the handle out of the cell, leaving it empty; `None` if the
    /// cell already was empty.
    pub fn take(&mut self) -> (r: Option<Arc<T>>)
        ensures
            unshared(r) == old(self)@,
            final(self)@ is None,
    {
        self.replace_arced(None)
    }

    /// Returns `true` if the cell contains a value.
    pub fn is_some(&self) -> (r: bool)
        ensures
            r == (self@ is Some),
    {
        !self.is_none()
    }

    /// Returns `true` if the cell is empty.
    pub fn is_none(&self) -> (r: bool)
        ensures
            r == (self@ is None),
    {
        self.inner.is_none()
    }
}

} // verus!
