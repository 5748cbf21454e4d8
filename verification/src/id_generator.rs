//! Identifier generation: each kind of object gets its own counter.

use vstd::prelude::*;
use std::marker::PhantomData;
use vstd::std_specs::convert::FromSpec;

verus! {

/// Hands out identifiers `1, 2, 3, ...`, one per call of `generate`.
pub struct IdGenerator<T> where T: From<u64> {
    counter: u64,
    _marker: PhantomData<T>,
}

impl<T> IdGenerator<T> where T: From<u64> {
    /// The counter never falls back to 0, the null handle.
    #[verifier::type_invariant]
    spec fn counter_is_positive(self) -> bool {
        self.counter >= 1
    }

    /// The raw value that the next call of `generate` hands out.
    pub closed spec fn next_raw(&self) -> nat {
        self.counter as nat
    }

    /// The raw value that the next call of `generate` hands out.
    pub(crate) fn next_value(&self) -> (v: u64)
        ensures
            v == self.next_raw(),
    {
        self.counter
    }

    /// A generator whose first identifier is `1`.
    pub fn new() -> (generator: Self)
        ensures
            generator.next_raw() == 1,
    {
        IdGenerator { counter: 1, _marker: PhantomData }
    }

    /// Hands out the identifier built from the current counter and advances
    /// the counter by one.
    pub fn generate(&mut self) -> (id: T)
        requires
            old(self).next_raw() < u64::MAX,
        ensures
            old(self).next_raw() >= 1,
            final(self).next_raw() == old(self).next_raw() + 1,
            T::obeys_from_spec() ==> id == T::from_spec(old(self).next_raw() as u64),
    {
        proof {
            use_type_invariant(&*self);
        }
        let id = self.counter;
        self.counter = self.counter + 1;
        T::from(id)
    }
}

/// The run of a generator: `gens[0]` is the generator that `new` returns and
/// each `gens[i]` is `gens[i - 1]` after one call of `generate`. The `i`-th
/// call (counting from 0) then hands out the value `i + 1`: the first
/// identifier is 1, none is 0, and each call hands out a larger value than
/// every call before it, so one generator never repeats an identifier.
pub proof fn lemma_generated_sequence<T>(gens: Seq<IdGenerator<T>>) where T: From<u64>
    requires
        gens.len() > 0,
        gens[0].next_raw() == 1,
        forall|i: int| 0 < i < gens.len() ==> #[trigger] gens[i].next_raw() == gens[i - 1].next_raw() + 1,
    ensures
        forall|i: int| 0 <= i < gens.len() ==> #[trigger] gens[i].next_raw() == i + 1,
        forall|i: int, j: int|
            0 <= i < j < gens.len() ==> #[trigger] gens[i].next_raw() < #[trigger] gens[j].next_raw(),
{
    assert forall|i: int| 0 <= i < gens.len() implies #[trigger] gens[i].next_raw() == i + 1 by {
        lemma_generated_value(gens, i);
    }
}

proof fn lemma_generated_value<T>(gens: Seq<IdGenerator<T>>, k: int) where T: From<u64>
    requires
        0 <= k < gens.len(),
        gens[0].next_raw() == 1,
        forall|i: int| 0 < i < gens.len() ==> #[trigger] gens[i].next_raw() == gens[i - 1].next_raw() + 1,
    ensures
        gens[k].next_raw() == k + 1,
    decreases k,
{
    if k > 0 {
        lemma_generated_value(gens, k - 1);
    }
}

} // verus!
