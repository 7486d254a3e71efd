//! Ranking by score: best first, and among equals the earlier first.

use vstd::prelude::*;

verus! {

/// Whether the entry at index `a` comes before the entry at `b`: it has the
/// higher score, or the same score and the earlier place.
pub open spec fn outranks(scores: Seq<i32>, a: int, b: int) -> bool {
    scores[a] > scores[b] || (scores[a] == scores[b] && a < b)
}

/// `order` lists each of the first `n` indices once, best first.
pub open spec fn ranks_first(scores: Seq<i32>, order: Seq<int>, n: int) -> bool {
    &&& order.len() == n
    &&& forall|k: int| 0 <= k < n ==> 0 <= #[trigger] order[k] < n
    &&& forall|k: int, l: int|
        0 <= k < l < n ==> outranks(scores, #[trigger] order[k], #[trigger] order[l])
    &&& forall|i: int| 0 <= i < n ==> #[trigger] order.contains(i)
}

/// `order` lists each index of `scores` once, best first.
pub open spec fn is_ranking(scores: Seq<i32>, order: Seq<int>) -> bool {
    ranks_first(scores, order, scores.len() as int)
}

/// The indices of `scores`, best first. There is one such order, and only
/// one: see `lemma_ranking_exists` and `lemma_ranking_unique`.
pub open spec fn ranking(scores: Seq<i32>) -> Seq<int> {
    choose|order: Seq<int>| is_ranking(scores, order)
}

/// The indices of a vector as integers.
pub open spec fn as_ints(order: Seq<usize>) -> Seq<int> {
    order.map_values(|i: usize| i as int)
}

proof fn lemma_agree_below(scores: Seq<i32>, a: Seq<int>, b: Seq<int>, k: int)
    requires
        is_ranking(scores, a),
        is_ranking(scores, b),
        0 <= k <= scores.len(),
    ensures
        forall|j: int| 0 <= j < k ==> a[j] == b[j],
    decreases k,
{
    if k > 0 {
        lemma_agree_below(scores, a, b, k - 1);
        let j = k - 1;
        let x = a[j];
        let y = b[j];
        if x != y {
            assert(b.contains(x));
            let l = choose|l: int| 0 <= l < b.len() && b[l] == x;
            if l < j {
                assert(outranks(scores, a[l], a[j]));
            }
            assert(outranks(scores, b[j], b[l]));
            assert(a.contains(y));
            let m = choose|m: int| 0 <= m < a.len() && a[m] == y;
            if m < j {
                assert(outranks(scores, b[m], b[j]));
            }
            assert(outranks(scores, a[j], a[m]));
        }
    }
}

/// Two orders that both list each index once, best first, are the same.
pub proof fn lemma_ranking_unique(scores: Seq<i32>, a: Seq<int>, b: Seq<int>)
    requires
        is_ranking(scores, a),
        is_ranking(scores, b),
    ensures
        a == b,
{
    lemma_agree_below(scores, a, b, scores.len() as int);
    assert(a =~= b);
}

/// An order that lists each index once, best first, is the ranking.
pub proof fn lemma_is_the_ranking(scores: Seq<i32>, order: Seq<int>)
    requires
        is_ranking(scores, order),
    ensures
        ranking(scores) == order,
{
    lemma_ranking_unique(scores, ranking(scores), order);
}

/// The ranking is never worse further up: scores fall along it, and equal
/// scores keep the order in which they came.
pub proof fn lemma_ranking_sorted_and_stable(scores: Seq<i32>, order: Seq<int>, k: int, l: int)
    requires
        is_ranking(scores, order),
        0 <= k < l < scores.len(),
    ensures
        scores[order[k]] >= scores[order[l]],
        scores[order[k]] == scores[order[l]] ==> order[k] < order[l],
{
    assert(outranks(scores, order[k], order[l]));
}

/// Where index `i` goes among the `order` of the indices before it: behind
/// every entry whose score is at least its own.
fn place(scores: &Vec<i32>, order: &Vec<usize>, i: usize) -> (p: usize)
    requires
        i < scores.len(),
        ranks_first(scores@, as_ints(order@), i as int),
    ensures
        p <= i,
        forall|k: int| 0 <= k < p ==> scores[order[k] as int] >= scores[i as int],
        forall|k: int| p <= k < i ==> scores[order[k] as int] < scores[i as int],
{
    let ghost ints = as_ints(order@);
    assert forall|k: int| 0 <= k < order.len() implies (#[trigger] order[k]) < i by {
        assert(ints[k] == order[k] as int);
    }
    let mut p: usize = 0;
    while p < order.len() && scores[order[p]] >= scores[i]
        invariant
            p <= order.len(),
            order.len() == i,
            i < scores.len(),
            forall|k: int| 0 <= k < order.len() ==> (#[trigger] order[k]) < i,
            forall|k: int| 0 <= k < p ==> scores[order[k] as int] >= scores[i as int],
        decreases order.len() - p,
    {
        p += 1;
    }
    assert forall|k: int| p <= k < i implies scores[order[k] as int] < scores[i as int] by {
        assert(ints[p as int] == order[p as int] as int);
        assert(ints[k] == order[k] as int);
        if p < k {
            assert(outranks(scores@, ints[p as int], ints[k]));
        }
    }
    p
}

/// The indices of `scores`, best first: by falling score, and among equal
/// scores the earlier index first.
pub fn rank(scores: &Vec<i32>) -> (order: Vec<usize>)
    ensures
        as_ints(order@) == ranking(scores@),
        is_ranking(scores@, as_ints(order@)),
{
    let n: usize = scores.len();
    let mut order: Vec<usize> = Vec::new();
    let mut i: usize = 0;
    assert(as_ints(order@) =~= Seq::<int>::empty());
    while i < n
        invariant
            i <= n,
            n == scores.len(),
            ranks_first(scores@, as_ints(order@), i as int),
        decreases n - i,
    {
        let ghost before = as_ints(order@);
        let p: usize = place(scores, &order, i);
        order.insert(p, i);
        proof {
            let after = as_ints(order@);
            assert(after =~= before.insert(p as int, i as int));
            assert forall|k: int| 0 <= k < i + 1 implies 0 <= #[trigger] after[k] < i + 1 by {
                if k < p {
                    assert(after[k] == before[k]);
                } else if k > p {
                    assert(after[k] == before[k - 1]);
                }
            }
            assert forall|k: int, l: int| 0 <= k < l < i + 1 implies outranks(
                scores@,
                #[trigger] after[k],
                #[trigger] after[l],
            ) by {
                if l < p {
                    assert(after[k] == before[k] && after[l] == before[l]);
                } else if l == p {
                    assert(after[k] == before[k]);
                } else if k < p {
                    assert(after[k] == before[k] && after[l] == before[l - 1]);
                } else if k == p {
                    assert(after[l] == before[l - 1]);
                } else {
                    assert(after[k] == before[k - 1] && after[l] == before[l - 1]);
                }
            }
            assert forall|j: int| 0 <= j < i + 1 implies #[trigger] after.contains(j) by {
                if j == i {
                    assert(after[p as int] == j);
                } else {
                    assert(before.contains(j));
                    let k = choose|k: int| 0 <= k < before.len() && before[k] == j;
                    if k < p {
                        assert(after[k] == j);
                    } else {
                        assert(after[k + 1] == j);
                    }
                }
            }
        }
        i += 1;
    }
    proof {
        lemma_is_the_ranking(scores@, as_ints(order@));
    }
    order
}

/// Every sequence of scores has a ranking.
pub proof fn lemma_ranking_exists(scores: Seq<i32>)
    ensures
        is_ranking(scores, ranking(scores)),
    decreases scores.len(),
{
    if scores.len() == 0 {
        assert(is_ranking(scores, Seq::<int>::empty()));
    } else {
        let n = scores.len() - 1;
        let rest = scores.drop_last();
        lemma_ranking_exists(rest);
        let before = ranking(rest);
        let p = first_worse(scores, before, 0);
        lemma_first_worse(scores, before, 0);
        let after = before.insert(p, n);
        assert forall|k: int| 0 <= k < n + 1 implies 0 <= #[trigger] after[k] < n + 1 by {
            if k < p {
                assert(after[k] == before[k]);
            } else if k > p {
                assert(after[k] == before[k - 1]);
            }
        }
        assert forall|k: int, l: int| 0 <= k < l < n + 1 implies outranks(
            scores,
            #[trigger] after[k],
            #[trigger] after[l],
        ) by {
            if l < p {
                assert(outranks(rest, before[k], before[l]));
            } else if l == p {
                assert(after[k] == before[k]);
            } else if k < p {
                assert(outranks(rest, before[k], before[l - 1]));
            } else if k == p {
                assert(after[l] == before[l - 1]);
                if p < l - 1 {
                    assert(outranks(rest, before[p], before[l - 1]));
                }
            } else {
                assert(outranks(rest, before[k - 1], before[l - 1]));
            }
        }
        assert forall|j: int| 0 <= j < n + 1 implies #[trigger] after.contains(j) by {
            if j == n {
                assert(after[p] == j);
            } else {
                assert(before.contains(j));
                let k = choose|k: int| 0 <= k < before.len() && before[k] == j;
                if k < p {
                    assert(after[k] == j);
                } else {
                    assert(after[k + 1] == j);
                }
            }
        }
        assert(is_ranking(scores, after));
    }
}

/// The first place at or after `from` in `order` whose entry scores less than
/// the last entry of `scores`, or the length of `order` where there is none.
spec fn first_worse(scores: Seq<i32>, order: Seq<int>, from: int) -> int
    decreases order.len() - from,
{
    if 0 <= from < order.len() && scores[order[from]] >= scores.last() {
        first_worse(scores, order, from + 1)
    } else {
        from
    }
}

proof fn lemma_first_worse(scores: Seq<i32>, order: Seq<int>, from: int)
    requires
        0 <= from <= order.len(),
    ensures
        from <= first_worse(scores, order, from) <= order.len(),
        forall|k: int|
            from <= k < first_worse(scores, order, from) ==> scores[#[trigger] order[k]]
                >= scores.last(),
        first_worse(scores, order, from) < order.len() ==> scores[order[first_worse(
            scores,
            order,
            from,
        )]] < scores.last(),
    decreases order.len() - from,
{
    if from < order.len() && scores[order[from]] >= scores.last() {
        lemma_first_worse(scores, order, from + 1);
    }
}

} // verus!
