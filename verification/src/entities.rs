//! Removal of entities by their places in a list: the second pass of a
//! frame, after the passes that only read have said what is to go.
use vstd::prelude::*;

verus! {

/// Whether the place `i` is among `gone`.
pub open spec fn listed(gone: Seq<usize>, i: int) -> bool {
    exists|k: int| 0 <= k < gone.len() && #[trigger] gone[k] == i
}

/// The items whose places are not among `gone`, in their order.
pub open spec fn without<T>(items: Seq<T>, gone: Seq<usize>) -> Seq<T>
    decreases items.len(),
{
    if items.len() == 0 {
        Seq::empty()
    } else if listed(gone, items.len() - 1) {
        without(items.drop_last(), gone)
    } else {
        without(items.drop_last(), gone).push(items.last())
    }
}

/// The items of `items` whose places are not among `gone`, in their order.
/// A place may be listed more than once, and a place beyond the end of
/// `items` removes nothing.
pub fn despawn<T: Copy>(items: &Vec<T>, gone: &Vec<usize>) -> (left: Vec<T>)
    ensures
        left@ == without(items@, gone@),
{
    let mut marks: Vec<bool> = Vec::new();
    let mut n: usize = 0;
    while n < items.len()
        invariant
            n <= items@.len(),
            marks@.len() == n,
            forall|i: int| 0 <= i < n ==> !#[trigger] marks@[i],
        decreases items@.len() - n,
    {
        marks.push(false);
        n = n + 1;
    }
    let mut k: usize = 0;
    while k < gone.len()
        invariant
            k <= gone@.len(),
            marks@.len() == items@.len(),
            forall|i: int|
                0 <= i < marks@.len() ==> (#[trigger] marks@[i] <==> listed(
                    gone@.subrange(0, k as int),
                    i,
                )),
        decreases gone@.len() - k,
    {
        let place: usize = gone[k];
        let ghost before = gone@.subrange(0, k as int);
        let ghost after = gone@.subrange(0, k + 1);
        proof {
            assert forall|i: int| listed(after, i) <==> (listed(before, i) || i == place) by {
                if listed(before, i) {
                    let w = choose|w: int| 0 <= w < before.len() && before[w] == i;
                    assert(after[w] == i);
                }
                if i == place {
                    assert(after[k as int] == i);
                }
                if listed(after, i) {
                    let w = choose|w: int| 0 <= w < after.len() && after[w] == i;
                    if w < k {
                        assert(before[w] == i);
                    }
                }
            }
        }
        if place < marks.len() {
            marks.set(place, true);
        }
        k = k + 1;
    }
    assert(gone@.subrange(0, gone@.len() as int) == gone@);
    let mut left: Vec<T> = Vec::new();
    let mut i: usize = 0;
    while i < items.len()
        invariant
            i <= items@.len(),
            marks@.len() == items@.len(),
            forall|p: int| 0 <= p < marks@.len() ==> (#[trigger] marks@[p] <==> listed(gone@, p)),
            left@ == without(items@.subrange(0, i as int), gone@),
        decreases items@.len() - i,
    {
        proof {
            let next = items@.subrange(0, i + 1);
            assert(next.drop_last() == items@.subrange(0, i as int));
            assert(next.last() == items@[i as int]);
        }
        if !marks[i] {
            left.push(items[i]);
        }
        i = i + 1;
    }
    assert(items@.subrange(0, items@.len() as int) == items@);
    left
}

} // verus!
