//! A growable, contiguous container with a capacity/length distinction.
//!
//! [`MyVec`] owns a block of element slots. The first `length` slots hold
//! live values; the remaining slots are vacant and are never read or handed
//! out. Appending to a full container doubles the capacity (a fresh
//! container jumps from capacity 0 to 1), so the total moving work over a
//! long run of appends is linear, making each append amortized constant
//! time. When the container is dropped, the live elements are destroyed in
//! ascending index order and the backing block is released once; both are
//! carried out by the backing store's own teardown.

use vstd::prelude::*;

verus! {

use vstd::pervasive::VecAdditionalExecFns;

/// An appendable, indexable sequence of `T` values.
///
/// The abstract state (`self@`) is the mathematical sequence of live
/// elements. `spec_capacity` exposes how many slots are allocated; slots
/// beyond the length are vacant and never observable through the API.
/// Appending values onto a fresh container leaves the abstract state equal
/// to exactly that sequence of values — each append extends it by one —
/// and [`MyVec::get`] returns precisely the element the state holds at the
/// asked-for index, so values come back out in the order they went in.
pub struct MyVec<T> {
    slots: Vec<Option<T>>,
    len: usize,
}

impl<T> View for MyVec<T> {
    type V = Seq<T>;

    closed spec fn view(&self) -> Seq<T> {
        Seq::new(self.len as nat, |i: int| self.slots@[i]->0)
    }
}

impl<T> MyVec<T> {
    /// Number of element slots currently allocated, live or vacant.
    pub closed spec fn spec_capacity(&self) -> nat {
        self.slots@.len()
    }

    /// Internal well-formedness: the live prefix is exactly `[0, len)`,
    /// vacant slots hold nothing, and capacity never exceeds double the
    /// length once a first element has forced an allocation.
    #[verifier::type_invariant]
    spec fn well_formed(&self) -> bool {
        &&& self.len <= self.slots@.len()
        &&& forall|i: int| 0 <= i < self.len ==> self.slots@[i] is Some
        &&& forall|i: int| self.len <= i < self.slots@.len() ==> self.slots@[i] is None
        &&& self.slots@.len() <= 1 || self.slots@.len() <= 2 * self.len
    }

    /// Creates an empty container. No slots are allocated until the first
    /// append.
    pub fn new() -> (v: Self)
        ensures
            v@ == Seq::<T>::empty(),
            v.spec_capacity() == 0,
    {
        let v = MyVec { slots: Vec::new(), len: 0 };
        proof {
            assert(v@ =~= Seq::<T>::empty());
        }
        v
    }

    /// Number of live elements. It never exceeds the capacity.
    pub fn len(&self) -> (n: usize)
        ensures
            n == self@.len(),
            n <= self.spec_capacity(),
    {
        proof {
            use_type_invariant(&*self);
        }
        self.len
    }

    /// Whether the container holds no elements.
    pub fn is_empty(&self) -> (b: bool)
        ensures
            b == (self@.len() == 0),
    {
        self.len == 0
    }

    /// Number of allocated element slots. The length never exceeds it, and
    /// doubling growth wastes at most half of the allocation: once a block
    /// is held, its capacity is at most twice the number of live elements
    /// (the one-slot base case aside).
    pub fn capacity(&self) -> (c: usize)
        ensures
            c == self.spec_capacity(),
            self@.len() <= c,
            c <= 1 || c <= 2 * self@.len(),
    {
        proof {
            use_type_invariant(&*self);
        }
        self.slots.len()
    }

    /// Replaces the backing block with one of double the capacity (one slot
    /// from a fresh container), moving every live element across in index
    /// order. Only called when the container is full.
    #[verifier::loop_isolation(false)]
    fn grow(&mut self)
        requires
            old(self)@.len() == old(self).spec_capacity(),
            old(self).spec_capacity() <= usize::MAX / 2,
        ensures
            final(self)@ == old(self)@,
            final(self).spec_capacity() == if old(self).spec_capacity() == 0 {
                1nat
            } else {
                2 * old(self).spec_capacity()
            },
    {
        proof {
            use_type_invariant(&*self);
        }
        let mut taken = MyVec { slots: Vec::new(), len: 0 };
        core::mem::swap(self, &mut taken);
        let MyVec { slots: mut old_slots, len } = taken;
        let ghost orig = old_slots@;

        let old_cap: usize = old_slots.len();
        let new_cap: usize = if old_cap == 0 { 1 } else { old_cap * 2 };
        let mut new_slots: Vec<Option<T>> = Vec::with_capacity(new_cap);

        let mut i: usize = 0;
        while i < old_cap
            invariant
                i <= old_cap,
                old_slots@.len() == orig.len(),
                forall|j: int| i <= j < orig.len() ==> old_slots@[j] == orig[j],
                new_slots@ == orig.subrange(0, i as int),
            decreases old_cap - i,
        {
            let mut slot: Option<T> = None;
            old_slots.set_and_swap(i, &mut slot);
            new_slots.push(slot);
            proof {
                assert(new_slots@ =~= orig.subrange(0, i + 1));
            }
            i = i + 1;
        }

        while new_slots.len() < new_cap
            invariant
                old_cap <= new_slots@.len() <= new_cap,
                new_slots@.subrange(0, old_cap as int) == orig,
                forall|j: int| old_cap <= j < new_slots@.len() ==> new_slots@[j] is None,
            decreases new_cap - new_slots@.len(),
        {
            new_slots.push(None);
            proof {
                assert(new_slots@.subrange(0, old_cap as int) =~= orig);
            }
        }

        proof {
            assert forall|j: int| 0 <= j < orig.len() implies #[trigger] new_slots@[j] == orig[j] by {
                assert(new_slots@.subrange(0, old_cap as int)[j] == new_slots@[j]);
            }
        }
        *self = MyVec { slots: new_slots, len };
        proof {
            assert(self@ =~= old(self)@);
        }
    }

    /// Appends `value`, growing the backing block first if it is full.
    /// Afterwards the element is live at the highest index, everything
    /// else is unchanged, and the capacity either stayed put (there was a
    /// spare slot) or doubled (jumping from 0 to 1 on the first append).
    pub fn push(&mut self, value: T)
        requires
            old(self)@.len() == old(self).spec_capacity() ==> old(self).spec_capacity()
                <= usize::MAX / 2,
        ensures
            final(self)@ == old(self)@.push(value),
            final(self)@.len() == old(self)@.len() + 1,
            final(self)@[old(self)@.len() as int] == value,
            final(self).spec_capacity() == if old(self)@.len() == old(self).spec_capacity() {
                if old(self).spec_capacity() == 0 {
                    1nat
                } else {
                    2 * old(self).spec_capacity()
                }
            } else {
                old(self).spec_capacity()
            },
    {
        proof {
            use_type_invariant(&*self);
        }
        if self.len == self.slots.len() {
            self.grow();
        }
        proof {
            use_type_invariant(&*self);
        }
        let mut taken = MyVec { slots: Vec::new(), len: 0 };
        core::mem::swap(self, &mut taken);
        let MyVec { slots: mut slots, len } = taken;
        slots.set(len, Some(value));
        *self = MyVec { slots, len: len + 1 };
        proof {
            assert(self@ =~= old(self)@.push(value));
        }
    }

    /// Borrows the element at `index`, or returns nothing when `index` is
    /// at or beyond the length. Vacant slots are never read.
    pub fn get(&self, index: usize) -> (r: Option<&T>)
        ensures
            r == if index < self@.len() {
                Some(&self@[index as int])
            } else {
                None::<&T>
            },
    {
        proof {
            use_type_invariant(&*self);
        }
        if index < self.len {
            self.slots[index].as_ref()
        } else {
            None
        }
    }
}

} // verus!
