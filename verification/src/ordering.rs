//! Stable ordering of the rows that a search selects.
//!
//! A selected row is stood for by a candidate: its position in the store and
//! the two numbers by which the search orders. Candidates are ordered by the
//! first number, then by the second; candidates that agree in both stay in
//! the order in which they were selected.

use vstd::prelude::*;

verus! {

/// A selected row: where it stands in the store, and what it is ordered by.
#[derive(Clone, Copy, Debug)]
pub struct Candidate {
    pub position: usize,
    pub major: i64,
    pub minor: i64,
}

/// Whether the order allows `a` to stand before `b`: `a` has the lesser
/// first number, or the same first number and no greater second number.
pub open spec fn not_after(a: Candidate, b: Candidate) -> bool {
    a.major < b.major || (a.major == b.major && a.minor <= b.minor)
}

/// Whether `a` must stand before `b`: the order puts it first, or leaves the
/// two alike and `a` stands earlier in the store.
pub open spec fn precedes(a: Candidate, b: Candidate) -> bool {
    a.major < b.major || (a.major == b.major && (a.minor < b.minor || (a.minor == b.minor
        && a.position < b.position)))
}

/// Where `candidate` goes into `sorted`: behind the last element that may
/// stand before it.
pub open spec fn slot(sorted: Seq<Candidate>, candidate: Candidate) -> int
    decreases sorted.len(),
{
    if sorted.len() == 0 {
        0
    } else if not_after(sorted.last(), candidate) {
        sorted.len() as int
    } else {
        slot(sorted.drop_last(), candidate)
    }
}

/// The candidates in order: each one is put, in the order of selection,
/// behind the last earlier one that may stand before it.
pub open spec fn ordered(selected: Seq<Candidate>) -> Seq<Candidate>
    decreases selected.len(),
{
    if selected.len() == 0 {
        Seq::empty()
    } else {
        let earlier = ordered(selected.drop_last());
        earlier.insert(slot(earlier, selected.last()), selected.last())
    }
}

/// Whether every element must stand before every later one.
pub open spec fn strictly_ordered(list: Seq<Candidate>) -> bool {
    forall|i: int, j: int| 0 <= i < j < list.len() ==> precedes(#[trigger] list[i], #[trigger] list[j])
}

/// Whether the positions grow along the list.
pub open spec fn positions_grow(list: Seq<Candidate>) -> bool {
    forall|i: int, j: int|
        0 <= i < j < list.len() ==> (#[trigger] list[i]).position < (#[trigger] list[j]).position
}

/// The slot lies within the list; what stands before it may stand before the
/// candidate, and what stands from it on may not, provided the list is in
/// order.
pub proof fn lemma_slot(sorted: Seq<Candidate>, candidate: Candidate)
    requires
        strictly_ordered(sorted),
    ensures
        0 <= slot(sorted, candidate) <= sorted.len(),
        forall|i: int| 0 <= i < slot(sorted, candidate) ==> not_after(#[trigger] sorted[i], candidate),
        forall|i: int|
            slot(sorted, candidate) <= i < sorted.len() ==> !not_after(#[trigger] sorted[i], candidate),
    decreases sorted.len(),
{
    if sorted.len() == 0 {
    } else if not_after(sorted.last(), candidate) {
        assert forall|i: int| 0 <= i < sorted.len() implies not_after(#[trigger] sorted[i], candidate) by {
            if i < sorted.len() - 1 {
                assert(precedes(sorted[i], sorted[sorted.len() - 1]));
            }
        }
    } else {
        let front = sorted.drop_last();
        assert forall|i: int, j: int| 0 <= i < j < front.len() implies precedes(
            #[trigger] front[i],
            #[trigger] front[j],
        ) by {
            assert(precedes(sorted[i], sorted[j]));
        }
        lemma_slot(front, candidate);
        assert forall|i: int| 0 <= i < slot(sorted, candidate) implies not_after(
            #[trigger] sorted[i],
            candidate,
        ) by {
            assert(sorted[i] == front[i]);
        }
        assert forall|i: int| slot(sorted, candidate) <= i < sorted.len() implies !not_after(
            #[trigger] sorted[i],
            candidate,
        ) by {
            if i < sorted.len() - 1 {
                assert(sorted[i] == front[i]);
            }
        }
    }
}

/// Ordering keeps the candidates: each one stays, as often as it was
/// selected, and no other comes in.
pub proof fn lemma_ordered_keeps_candidates(selected: Seq<Candidate>)
    ensures
        ordered(selected).len() == selected.len(),
        ordered(selected).to_multiset() == selected.to_multiset(),
    decreases selected.len(),
{
    broadcast use vstd::seq_lib::group_to_multiset_ensures;

    if selected.len() == 0 {
    } else {
        let front = selected.drop_last();
        let earlier = ordered(front);
        lemma_ordered_keeps_candidates(front);
        lemma_slot_within(earlier, selected.last());
        let at = slot(earlier, selected.last());
        vstd::seq_lib::to_multiset_insert(earlier, at, selected.last());
        assert(selected == front.push(selected.last()));
        assert(front.push(selected.last()).to_multiset() == front.to_multiset().insert(selected.last()));
    }
}

/// The slot lies within the list.
pub proof fn lemma_slot_within(sorted: Seq<Candidate>, candidate: Candidate)
    ensures
        0 <= slot(sorted, candidate) <= sorted.len(),
    decreases sorted.len(),
{
    if sorted.len() > 0 && !not_after(sorted.last(), candidate) {
        lemma_slot_within(sorted.drop_last(), candidate);
    }
}

/// Every ordered candidate is one of the selected.
pub proof fn lemma_ordered_from_selected(selected: Seq<Candidate>, i: int)
    requires
        0 <= i < ordered(selected).len(),
    ensures
        exists|k: int| 0 <= k < selected.len() && selected[k] == ordered(selected)[i],
{
    lemma_ordered_keeps_candidates(selected);
    let item = ordered(selected)[i];
    assert(ordered(selected).contains(item));
    vstd::seq_lib::to_multiset_contains(ordered(selected), item);
    vstd::seq_lib::to_multiset_contains(selected, item);
    assert(selected.contains(item));
}

/// Candidates that were selected in the order of the store come out in
/// order: by the first number, then by the second, then by position.
pub proof fn lemma_ordered_is_strictly_ordered(selected: Seq<Candidate>)
    requires
        positions_grow(selected),
    ensures
        strictly_ordered(ordered(selected)),
    decreases selected.len(),
{
    if selected.len() == 0 {
    } else {
        let front = selected.drop_last();
        let last = selected.last();
        let earlier = ordered(front);
        assert forall|i: int, j: int| 0 <= i < j < front.len() implies (#[trigger] front[i]).position
            < (#[trigger] front[j]).position by {
            assert(selected[i].position < selected[j].position);
        }
        lemma_ordered_is_strictly_ordered(front);
        lemma_slot(earlier, last);
        let at = slot(earlier, last);
        let result = earlier.insert(at, last);
        assert forall|i: int, j: int| 0 <= i < j < result.len() implies precedes(
            #[trigger] result[i],
            #[trigger] result[j],
        ) by {
            if j == at {
                assert(result[i] == earlier[i]);
                assert(not_after(earlier[i], last));
                lemma_ordered_from_selected(front, i);
                let k = choose|k: int| 0 <= k < front.len() && front[k] == earlier[i];
                assert(selected[k].position < selected[selected.len() - 1].position);
            } else if i == at {
                assert(result[j] == earlier[j - 1]);
                assert(!not_after(earlier[j - 1], last));
            } else {
                let a = if i < at {
                    i
                } else {
                    i - 1
                };
                let b = if j < at {
                    j
                } else {
                    j - 1
                };
                assert(result[i] == earlier[a]);
                assert(result[j] == earlier[b]);
                assert(precedes(earlier[a], earlier[b]));
            }
        }
    }
}

/// Whether `a` may stand before `b`.
pub fn may_precede(a: &Candidate, b: &Candidate) -> (yes: bool)
    ensures
        yes == not_after(*a, *b),
{
    a.major < b.major || (a.major == b.major && a.minor <= b.minor)
}

/// Puts the candidates in order.
pub fn sort_candidates(selected: &Vec<Candidate>) -> (sorted: Vec<Candidate>)
    ensures
        sorted@ == ordered(selected@),
{
    let mut sorted: Vec<Candidate> = Vec::new();
    let mut i: usize = 0;
    while i < selected.len()
        invariant
            i <= selected@.len(),
            sorted@ == ordered(selected@.take(i as int)),
        decreases selected@.len() - i,
    {
        let candidate: Candidate = selected[i];
        let mut at: usize = sorted.len();
        assert(sorted@.take(at as int) == sorted@);
        while at > 0 && !may_precede(&sorted[at - 1], &candidate)
            invariant
                at <= sorted@.len(),
                slot(sorted@, candidate) == slot(sorted@.take(at as int), candidate),
            decreases at,
        {
            proof {
                let front = sorted@.take(at as int);
                assert(front.last() == sorted@[at - 1]);
                assert(front.drop_last() == sorted@.take(at - 1));
            }
            at = at - 1;
        }
        proof {
            let front = sorted@.take(at as int);
            if at > 0 {
                assert(front.last() == sorted@[at - 1]);
            }
            assert(slot(front, candidate) == at);
            let upto = selected@.take(i + 1);
            assert(upto.drop_last() == selected@.take(i as int));
            assert(upto.last() == candidate);
        }
        sorted.insert(at, candidate);
        i = i + 1;
    }
    assert(selected@.take(selected@.len() as int) == selected@);
    sorted
}

} // verus!
