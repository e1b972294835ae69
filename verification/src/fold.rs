//! Walking a list with a visitor that counts what it accepts.

use vstd::prelude::*;

verus! {

/// `counts` and `accs` record a walk of the visitor `f` over `items`: before
/// item `i` the visitor has accepted `counts[i]` items and the accumulator is
/// `accs[i]`; the visitor is given the item, that count and that accumulator,
/// and hands back whether it accepts the item, and the accumulator as it is
/// then.
pub open spec fn is_fold_trace<T, A, F: Fn(&T, usize, A) -> (bool, A)>(
    f: F,
    items: Seq<T>,
    init: A,
    counts: Seq<usize>,
    accs: Seq<A>,
) -> bool {
    &&& counts.len() == items.len() + 1
    &&& accs.len() == items.len() + 1
    &&& counts[0] == 0
    &&& accs[0] == init
    &&& forall|i: int|
        #![trigger items[i]]
        0 <= i < items.len() ==> {
            &&& counts[i + 1] == counts[i] || counts[i + 1] == counts[i] + 1
            &&& call_ensures(
                f,
                (&items[i], counts[i], accs[i]),
                (counts[i + 1] != counts[i], accs[i + 1]),
            )
        }
}

/// `result` is what a walk of the visitor `f` over `items` ends with: the
/// number of items that the visitor accepted, and the accumulator.
pub open spec fn folds_to<T, A, F: Fn(&T, usize, A) -> (bool, A)>(
    f: F,
    items: Seq<T>,
    init: A,
    result: (usize, A),
) -> bool {
    exists|counts: Seq<usize>, accs: Seq<A>|
        #![trigger is_fold_trace(f, items, init, counts, accs)]
        is_fold_trace(f, items, init, counts, accs) && result.0 == counts.last() && result.1
            == accs.last()
}

/// Shows every item to the visitor, in order, and counts the items that the
/// visitor accepts.
pub fn fold_count<T, A, F: Fn(&T, usize, A) -> (bool, A)>(items: &Vec<T>, f: &F, additional: A) -> (r:
    (usize, A))
    requires
        forall|x: &T, n: usize, a: A| call_requires(*f, (x, n, a)),
    ensures
        folds_to(*f, items@, additional, r),
        r.0 <= items@.len(),
{
    let mut count: usize = 0;
    let mut acc = additional;
    let ghost mut counts: Seq<usize> = seq![0usize];
    let ghost mut accs: Seq<A> = seq![additional];
    let mut i: usize = 0;
    while i < items.len()
        invariant
            i <= items.len(),
            count <= i,
            forall|x: &T, n: usize, a: A| call_requires(*f, (x, n, a)),
            counts.len() == i + 1,
            accs.len() == i + 1,
            counts[0] == 0,
            accs[0] == additional,
            counts[i as int] == count,
            accs[i as int] == acc,
            forall|j: int|
                #![trigger items@[j]]
                0 <= j < i ==> {
                    &&& counts[j + 1] == counts[j] || counts[j + 1] == counts[j] + 1
                    &&& call_ensures(
                        *f,
                        (&items@[j], counts[j], accs[j]),
                        (counts[j + 1] != counts[j], accs[j + 1]),
                    )
                },
        decreases items.len() - i,
    {
        let ghost before = acc;
        let (accepted, next) = f(&items[i], count, acc);
        let ghost old_counts = counts;
        let ghost old_accs = accs;
        acc = next;
        if accepted {
            count = count + 1;
        }
        proof {
            counts = counts.push(count);
            accs = accs.push(acc);
            assert forall|j: int|
                #![trigger items@[j]]
                0 <= j < i + 1 implies {
                &&& counts[j + 1] == counts[j] || counts[j + 1] == counts[j] + 1
                &&& call_ensures(
                    *f,
                    (&items@[j], counts[j], accs[j]),
                    (counts[j + 1] != counts[j], accs[j + 1]),
                )
            } by {
                if j < i {
                    assert(counts[j] == old_counts[j]);
                    assert(counts[j + 1] == old_counts[j + 1]);
                    assert(accs[j] == old_accs[j]);
                    assert(accs[j + 1] == old_accs[j + 1]);
                }
            }
        }
        i += 1;
    }
    proof {
        assert(is_fold_trace(*f, items@, additional, counts, accs));
    }
    (count, acc)
}

} // verus!
