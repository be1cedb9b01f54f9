//! Set-like insertion into vectors.

use vstd::prelude::*;
use vstd::std_specs::cmp::PartialEqSpec;

verus! {

/// Adds an item to a collection unless an equal item is already there.
pub trait PushIfNotContains<T> {
    /// Returns whether the item was added.
    fn push_if_not_contains(&mut self, item: T) -> bool;
}

impl<T: PartialEq> PushIfNotContains<T> for Vec<T> {
    fn push_if_not_contains(&mut self, item: T) -> (added: bool)
        ensures
            added ==> final(self)@ == old(self)@.push(item),
            !added ==> final(self)@ == old(self)@,
            T::obeys_eq_spec() ==> (added <==> forall|i: int|
                0 <= i < old(self)@.len() ==> !(#[trigger] old(self)@[i]).eq_spec(&item)),
            vstd::laws_eq::obeys_concrete_eq::<T>() ==> (added <==> !old(self)@.contains(item)),
    {
        let mut i: usize = 0;
        let len = self.len();
        while i < len
            invariant
                len == self.len(),
                i <= len,
                T::obeys_eq_spec() ==> forall|j: int| 0 <= j < i ==> !(#[trigger] self@[j]).eq_spec(&item),
            decreases len - i,
        {
            if self[i] == item {
                proof {
                    if vstd::laws_eq::obeys_concrete_eq::<T>() {
                        reveal(vstd::laws_eq::obeys_concrete_eq);
                        assert(self@[i as int] == item);
                    }
                }
                return false;
            }
            i = i + 1;
        }
        proof {
            if vstd::laws_eq::obeys_concrete_eq::<T>() {
                reveal(vstd::laws_eq::obeys_concrete_eq);
                assert forall|j: int| 0 <= j < self@.len() implies self@[j] != item by {
                    assert(!self@[j].eq_spec(&item));
                }
            }
        }
        self.push(item);
        true
    }
}

} // verus!
