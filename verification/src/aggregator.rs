//! An aggregator: an ordered sequence of reported counter values, grown by
//! appending and read as an independent copy.

use vstd::prelude::*;

verus! {

/// An aggregator holding an ordered sequence of collected values.
///
/// Insertion order is preserved and is the only ordering guarantee: values
/// are never sorted, deduplicated, removed or modified after insertion, so
/// the sequence only ever grows. The view of an aggregator is that sequence.
pub struct Aggregator {
    states: Vec<usize>,
}

impl View for Aggregator {
    type V = Seq<usize>;

    closed spec fn view(&self) -> Seq<usize> {
        self.states@
    }
}

impl Aggregator {
    /// Constructs an aggregator with an empty sequence.
    pub fn new() -> (a: Aggregator)
        ensures
            a@ == Seq::<usize>::empty(),
    {
        Aggregator { states: Vec::new() }
    }

    /// Appends `state` to the end of the sequence. Any value is accepted:
    /// duplicates are allowed and no range is checked.
    pub fn collect_state(&mut self, state: usize)
        ensures
            final(self)@ == old(self)@.push(state),
    {
        self.states.push(state);
    }

    /// Returns an independent copy of the full sequence, in insertion
    /// order. The aggregator itself is not changed, and later changes to
    /// the returned copy cannot reach it.
    pub fn get_all_states(&self) -> (r: Vec<usize>)
        ensures
            r@ == self@,
    {
        let r = self.states.clone();
        proof {
            assert(r@ =~= self.states@);
        }
        r
    }
}

/// The sequence contents after appending each value of `vs`, in order, to a
/// sequence that already holds `s`: one [`Aggregator::collect_state`] call
/// per value.
pub open spec fn collected(s: Seq<usize>, vs: Seq<usize>) -> Seq<usize>
    decreases vs.len(),
{
    if vs.len() == 0 {
        s
    } else {
        collected(s, vs.drop_last()).push(vs.last())
    }
}

/// Sequential collects append exactly the collected values, in call order:
/// starting from contents `s`, collecting `vs` one by one leaves `s + vs`.
/// In particular, collecting `vs` into a fresh aggregator leaves exactly
/// `vs`.
pub proof fn lemma_collected_in_order(s: Seq<usize>, vs: Seq<usize>)
    ensures
        collected(s, vs) == s + vs,
    decreases vs.len(),
{
    if vs.len() == 0 {
        assert(collected(s, vs) =~= s + vs);
    } else {
        lemma_collected_in_order(s, vs.drop_last());
        assert(collected(s, vs) =~= s + vs);
    }
}

/// Collecting loses no value and duplicates none: the contents of a fresh
/// aggregator after collecting `vs` are, as a multiset, exactly the values
/// of `vs`.
pub proof fn lemma_collected_exact_contents(vs: Seq<usize>)
    ensures
        collected(Seq::empty(), vs).to_multiset() == vs.to_multiset(),
{
    lemma_collected_in_order(Seq::empty(), vs);
    assert(Seq::empty() + vs =~= vs);
}

/// Reading is idempotent: two snapshots taken with no collect in between
/// are equal, since each equals the aggregator's sequence.
pub proof fn lemma_read_idempotent(a: &Aggregator, r1: Seq<usize>, r2: Seq<usize>)
    requires
        r1 == a@,
        r2 == a@,
    ensures
        r1 == r2,
{
}

} // verus!
