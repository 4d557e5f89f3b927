//! A bit array with a fixed size, stored packed in a boxed slice of words.
//!
//! [`AtomicBitBox`] keeps one bit per index, eight to a word. Reads and
//! writes take the caller's memory-ordering argument so call sites read like
//! the shared-memory uses this structure is meant for; under the exclusive
//! access the contracts describe, the ordering has no observable effect.
//!
//! The bounds are exact: every index below the requested length is usable,
//! and every index at or past it answers `None`.

use core::sync::atomic::Ordering;

use vstd::arithmetic::div_mod::lemma_fundamental_div_mod;
use vstd::prelude::*;

use crate::AllocError;

verus! {

/// How many words a bit array of `len` bits occupies.
pub open spec fn word_count(len: nat) -> nat {
    if len % 8 == 0 {
        len / 8
    } else {
        len / 8 + 1
    }
}

/// Which bit indices of a bit array of `len` bits can be read and written:
/// exactly those below `len`.
pub open spec fn index_accessible(len: nat, i: int) -> bool {
    0 <= i < len
}

/// Every index below `len` falls inside a word the array allocates.
proof fn lemma_index_word(len: nat, i: int)
    requires
        0 <= i < len,
    ensures
        i / 8 < word_count(len),
{
    lemma_fundamental_div_mod(i, 8);
    lemma_fundamental_div_mod(len as int, 8);
}

/// A bit array of fixed size, packed eight bits to a word; all bits start
/// `false`.
pub struct AtomicBitBox {
    bits: Vec<u8>,
    len: usize,
}

impl AtomicBitBox {
    #[verifier::type_invariant]
    spec fn wf(self) -> bool {
        self.bits@.len() == word_count(self.len as nat)
    }

    /// The number of bits this array was created for.
    pub closed spec fn spec_len(&self) -> nat {
        self.len as nat
    }

    /// Whether bit `i` can be read and written.
    pub open spec fn accessible(&self, i: int) -> bool {
        index_accessible(self.spec_len(), i)
    }

    /// The value of bit `i`.
    pub closed spec fn bit_at(&self, i: int) -> bool {
        (self.bits@[i / 8] >> ((i % 8) as u8)) & 1 == 1
    }

    /// Allocates a new bit array of `len` bits, all `false`. The fallible
    /// sibling of [`AtomicBitBox::new`]; allocation failure aborts before it
    /// can be observed here, so the result is always `Ok`.
    pub fn try_new(len: usize) -> (r: Result<Self, AllocError>)
        ensures
            r matches Ok(b) && b.spec_len() == len && forall|i: int|
                b.accessible(i) ==> !b.bit_at(i),
    {
        let count = crate::div_ceil(len, 8);
        let mut bits: Vec<u8> = Vec::new();
        while bits.len() < count
            invariant
                bits@.len() <= count,
                forall|j: int| 0 <= j < bits@.len() ==> bits@[j] == 0,
            decreases count - bits@.len(),
        {
            bits.push(0);
        }
        let b = AtomicBitBox { bits, len };
        proof {
            assert forall|i: int| b.accessible(i) implies !b.bit_at(i) by {
                lemma_index_word(len as nat, i);
                let k = (i % 8) as u8;
                assert((0u8 >> k) & 1 == 0) by (bit_vector);
            }
        }
        Ok(b)
    }

    /// Allocates a new bit array of `len` bits, all `false`.
    pub fn new(len: usize) -> (r: Self)
        ensures
            r.spec_len() == len,
            forall|i: int| r.accessible(i) ==> !r.bit_at(i),
    {
        Self::try_new(len).unwrap()
    }

    /// The value of the bit at `idx`, or `None` if `idx` is out of bounds.
    /// `order` names the memory ordering the caller wants for the read.
    #[allow(unused_variables)]
    pub fn get(&self, idx: usize, order: Ordering) -> (r: Option<bool>)
        ensures
            self.accessible(idx as int) ==> r == Some(self.bit_at(idx as int)),
            !self.accessible(idx as int) ==> r is None,
    {
        proof {
            use_type_invariant(self);
        }
        if !(idx < self.len) {
            return None;
        }
        proof {
            lemma_index_word(self.len as nat, idx as int);
        }
        let byte = idx / 8;
        let bit = idx % 8;
        let w = self.bits[byte];
        let k = bit as u8;
        proof {
            assert((w & (1u8 << k) != 0) == ((w >> k) & 1 == 1)) by (bit_vector)
                requires
                    k < 8,
            ;
        }
        Some(w & (1u8 << k) != 0)
    }

    /// Sets the bit at `idx` and returns its previous value, or `None` if
    /// `idx` is out of bounds, in which case nothing changes.
    #[allow(unused_variables)]
    pub fn set(&mut self, idx: usize, order: Ordering) -> (r: Option<bool>)
        ensures
            !old(self).accessible(idx as int) ==> r is None && *final(self) == *old(self),
            old(self).accessible(idx as int) ==> r == Some(old(self).bit_at(idx as int))
                && final(self).spec_len() == old(self).spec_len() && final(self).bit_at(
                idx as int,
            ) && forall|j: int|
                j != idx && old(self).accessible(j) ==> final(self).bit_at(j) == old(self).bit_at(
                    j,
                ),
    {
        proof {
            use_type_invariant(&*self);
        }
        if !(idx < self.len) {
            return None;
        }
        proof {
            lemma_index_word(self.len as nat, idx as int);
        }
        let byte = idx / 8;
        let bit = idx % 8;
        let w = self.bits[byte];
        let k = bit as u8;
        self.bits[byte] = w | (1u8 << k);
        proof {
            assert((w & (1u8 << k) != 0) == ((w >> k) & 1 == 1)) by (bit_vector)
                requires
                    k < 8,
            ;
            assert(((w | (1u8 << k)) >> k) & 1 == 1) by (bit_vector)
                requires
                    k < 8,
            ;
            assert(forall|j: u8|
                j < 8 && j != k ==> #[trigger] (((w | (1u8 << k)) >> j) & 1) == ((w >> j)
                    & 1)) by (bit_vector)
                requires
                    k < 8,
            ;
            lemma_untouched_bits(old(self), self, w | (1u8 << k), w, idx);
        }
        Some(w & (1u8 << k) != 0)
    }

    /// Clears the bit at `idx` and returns its previous value, or `None` if
    /// `idx` is out of bounds, in which case nothing changes.
    #[allow(unused_variables)]
    pub fn clear(&mut self, idx: usize, order: Ordering) -> (r: Option<bool>)
        ensures
            !old(self).accessible(idx as int) ==> r is None && *final(self) == *old(self),
            old(self).accessible(idx as int) ==> r == Some(old(self).bit_at(idx as int))
                && final(self).spec_len() == old(self).spec_len() && !final(self).bit_at(
                idx as int,
            ) && forall|j: int|
                j != idx && old(self).accessible(j) ==> final(self).bit_at(j) == old(self).bit_at(
                    j,
                ),
    {
        proof {
            use_type_invariant(&*self);
        }
        if !(idx < self.len) {
            return None;
        }
        proof {
            lemma_index_word(self.len as nat, idx as int);
        }
        let byte = idx / 8;
        let bit = idx % 8;
        let w = self.bits[byte];
        let k = bit as u8;
        self.bits[byte] = w & !(1u8 << k);
        proof {
            assert((w & (1u8 << k) != 0) == ((w >> k) & 1 == 1)) by (bit_vector)
                requires
                    k < 8,
            ;
            assert(((w & !(1u8 << k)) >> k) & 1 == 0) by (bit_vector)
                requires
                    k < 8,
            ;
            assert(forall|j: u8|
                j < 8 && j != k ==> #[trigger] (((w & !(1u8 << k)) >> j) & 1) == ((w >> j)
                    & 1)) by (bit_vector)
                requires
                    k < 8,
            ;
            lemma_untouched_bits(old(self), self, w & !(1u8 << k), w, idx);
        }
        Some(w & (1u8 << k) != 0)
    }

    /// Writes `v` to the bit at `idx` and returns the previous value, or
    /// `None` if `idx` is out of bounds, in which case nothing changes.
    pub fn set_value(&mut self, v: bool, idx: usize, order: Ordering) -> (r: Option<bool>)
        ensures
            !old(self).accessible(idx as int) ==> r is None && *final(self) == *old(self),
            old(self).accessible(idx as int) ==> r == Some(old(self).bit_at(idx as int))
                && final(self).spec_len() == old(self).spec_len() && final(self).bit_at(idx as int)
                == v && forall|j: int|
                j != idx && old(self).accessible(j) ==> final(self).bit_at(j) == old(self).bit_at(
                    j,
                ),
    {
        if v {
            self.set(idx, order)
        } else {
            self.clear(idx, order)
        }
    }
}

/// After rewriting one word, every addressable bit outside the rewritten
/// index keeps its value: bits of other words are untouched, and bits of the
/// same word are preserved whenever the new word agrees with the old one on
/// every position but `idx % 8`.
proof fn lemma_untouched_bits(
    pre: &AtomicBitBox,
    post: &AtomicBitBox,
    nw: u8,
    w: u8,
    idx: usize,
)
    requires
        pre.accessible(idx as int),
        pre.bits@.len() == word_count(pre.len as nat),
        pre.bits@.len() == post.bits@.len(),
        pre.len == post.len,
        w == pre.bits@[idx as int / 8],
        post.bits@ == pre.bits@.update(idx as int / 8, nw),
        forall|j: u8| j < 8 && j != (idx % 8) as u8 ==> #[trigger] ((nw >> j) & 1) == ((w >> j)
            & 1),
    ensures
        forall|j: int|
            j != idx && pre.accessible(j) ==> post.bit_at(j) == pre.bit_at(j),
{
    assert forall|j: int| j != idx && pre.accessible(j) implies post.bit_at(j) == pre.bit_at(
        j,
    ) by {
        lemma_index_word(pre.len as nat, j);
        lemma_index_word(pre.len as nat, idx as int);
        lemma_fundamental_div_mod(j, 8);
        lemma_fundamental_div_mod(idx as int, 8);
        assert(0 <= j / 8 < pre.bits@.len());
        assert(0 <= idx as int / 8 < pre.bits@.len());
        if j / 8 == idx as int / 8 {
            let jj = (j % 8) as u8;
            assert(jj != (idx % 8) as u8);
            assert(((nw >> jj) & 1) == ((w >> jj) & 1));
            assert(post.bits@[j / 8] == nw);
        } else {
            assert(post.bits@[j / 8] == pre.bits@[j / 8]);
        }
    }
}

} // verus!
