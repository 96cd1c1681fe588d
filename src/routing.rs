//! Least-busy routing over a snapshot of the workers' pending counts.
use vstd::prelude::*;

verus! {

/// `i` is a least busy position of `counts`: no count is smaller than the one
/// at `i`, and every position before `i` holds a strictly larger count, so
/// that ties go to the lowest position.
pub open spec fn is_least_busy(counts: Seq<usize>, i: int) -> bool {
    &&& 0 <= i < counts.len()
    &&& forall|j: int| 0 <= j < counts.len() ==> counts[i] <= #[trigger] counts[j]
    &&& forall|j: int| 0 <= j < i ==> counts[i] < #[trigger] counts[j]
}

/// Picks the position with the smallest count, the lowest one on a tie.
pub fn least_busy_index(counts: &Vec<usize>) -> (r: usize)
    requires
        counts.len() >= 1,
    ensures
        is_least_busy(counts@, r as int),
{
    let mut min_idx: usize = 0;
    let mut current_idx: usize = 1;
    while current_idx < counts.len()
        invariant
            1 <= current_idx <= counts.len(),
            is_least_busy(counts@.subrange(0, current_idx as int), min_idx as int),
        decreases counts.len() - current_idx,
    {
        if counts[current_idx] < counts[min_idx] {
            min_idx = current_idx;
        }
        current_idx = current_idx + 1;
    }
    assert(counts@.subrange(0, counts.len() as int) =~= counts@);
    min_idx
}

/// At most one position of a sequence of counts is least busy.
pub proof fn lemma_least_busy_unique(counts: Seq<usize>, i: int, j: int)
    requires
        is_least_busy(counts, i),
        is_least_busy(counts, j),
    ensures
        i == j,
{
    if i < j {
        assert(counts[j] < counts[i]);
    } else if j < i {
        assert(counts[i] < counts[j]);
    }
}

/// A least busy position exists in every non-empty sequence of counts.
pub proof fn lemma_least_busy_exists(counts: Seq<usize>)
    requires
        counts.len() >= 1,
    ensures
        exists|i: int| is_least_busy(counts, i),
    decreases counts.len(),
{
    if counts.len() == 1 {
        assert(is_least_busy(counts, 0));
    } else {
        let prefix = counts.drop_last();
        lemma_least_busy_exists(prefix);
        let i = choose|i: int| is_least_busy(prefix, i);
        let last = counts.len() - 1;
        if counts[last] < counts[i] {
            assert forall|j: int| 0 <= j < counts.len() implies counts[last] <= #[trigger] counts[j] by {
                if j < last {
                    assert(prefix[j] == counts[j]);
                    assert(prefix[i] <= prefix[j]);
                }
            }
            assert forall|j: int| 0 <= j < last implies counts[last] < #[trigger] counts[j] by {
                assert(prefix[j] == counts[j]);
                assert(prefix[i] <= prefix[j]);
            }
            assert(is_least_busy(counts, last));
        } else {
            assert forall|j: int| 0 <= j < counts.len() implies counts[i] <= #[trigger] counts[j] by {
                if j < last {
                    assert(prefix[j] == counts[j]);
                }
            }
            assert forall|j: int| 0 <= j < i implies counts[i] < #[trigger] counts[j] by {
                assert(prefix[j] == counts[j]);
            }
            assert(is_least_busy(counts, i));
        }
    }
}

/// Between two workers the item goes to the first unless the second has a
/// strictly smaller count; so from counts (0, 5) it goes to the first, and
/// from (1, 1), after that item raised the first count, to the first again.
pub proof fn lemma_two_workers(a: usize, b: usize, i: int)
    ensures
        is_least_busy(seq![a, b], i) <==> i == (if a <= b { 0int } else { 1int }),
{
    let counts = seq![a, b];
    if a <= b {
        assert(is_least_busy(counts, 0));
        if is_least_busy(counts, i) {
            lemma_least_busy_unique(counts, i, 0);
        }
    } else {
        assert(is_least_busy(counts, 1));
        if is_least_busy(counts, i) {
            lemma_least_busy_unique(counts, i, 1);
        }
    }
}

} // verus!
