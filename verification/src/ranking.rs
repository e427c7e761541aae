//! Ranking by score: which entries come first, and how many.

use vstd::prelude::*;

verus! {

/// Whether the entry at `i` comes before the entry at `j` when entries are
/// ranked by score, higher first, and by position among equal scores.
pub open spec fn ranks_before(scores: Seq<u32>, i: int, j: int) -> bool {
    scores[i] > scores[j] || (scores[i] == scores[j] && i < j)
}

/// Whether the entry at `j` may follow the entry at `prev` in the ranking;
/// any entry may come first, which `prev < 0` stands for.
pub open spec fn may_follow(scores: Seq<u32>, prev: int, j: int) -> bool {
    prev < 0 || ranks_before(scores, prev, j)
}

/// Among the first `upto` entries, the one that ranks first of those that
/// may follow `prev`; `-1` where none may.
pub open spec fn best_after(scores: Seq<u32>, prev: int, upto: int) -> int
    decreases upto,
{
    if upto <= 0 {
        -1
    } else {
        let best = best_after(scores, prev, upto - 1);
        let j = upto - 1;
        if may_follow(scores, prev, j) && (best < 0 || ranks_before(scores, j, best)) {
            j
        } else {
            best
        }
    }
}

/// The positions of the `limit` entries that rank first, in ranking order;
/// fewer where there are fewer entries.
pub open spec fn nearest_order(scores: Seq<u32>, limit: int) -> Seq<int>
    decreases limit,
{
    if limit <= 0 {
        Seq::empty()
    } else {
        let shorter = nearest_order(scores, limit - 1);
        if shorter.len() < limit - 1 {
            shorter
        } else {
            let prev = if limit == 1 {
                -1
            } else {
                shorter[limit - 2]
            };
            let best = best_after(scores, prev, scores.len() as int);
            if best < 0 {
                shorter
            } else {
                shorter.push(best)
            }
        }
    }
}

/// `best_after` picks an entry that may follow `prev` and that ranks before
/// every other entry that may; it picks none only where none may.
pub proof fn lemma_best_after(scores: Seq<u32>, prev: int, upto: int)
    requires
        0 <= upto <= scores.len(),
        prev < scores.len(),
    ensures
        ({
            let best = best_after(scores, prev, upto);
            &&& best == -1 || 0 <= best < upto
            &&& best >= 0 ==> may_follow(scores, prev, best)
            &&& forall|j: int|
                0 <= j < upto && j != best && may_follow(scores, prev, j) ==> best >= 0
                    && ranks_before(scores, best, j)
        }),
    decreases upto,
{
    if upto > 0 {
        lemma_best_after(scores, prev, upto - 1);
    }
}

/// The ranking holds positions of entries, at most `limit` of them, and each
/// ranks before the next.
pub proof fn lemma_nearest_order(scores: Seq<u32>, limit: int)
    requires
        0 <= limit,
    ensures
        nearest_order(scores, limit).len() <= limit,
        forall|k: int|
            0 <= k < nearest_order(scores, limit).len() ==> 0 <= #[trigger] nearest_order(
                scores,
                limit,
            )[k] < scores.len(),
        forall|k: int|
            0 < k < nearest_order(scores, limit).len() ==> ranks_before(
                scores,
                nearest_order(scores, limit)[k - 1],
                #[trigger] nearest_order(scores, limit)[k],
            ),
    decreases limit,
{
    if limit > 0 {
        lemma_nearest_order(scores, limit - 1);
        let shorter = nearest_order(scores, limit - 1);
        if shorter.len() == limit - 1 {
            let prev = if limit == 1 {
                -1
            } else {
                shorter[limit - 2]
            };
            lemma_best_after(scores, prev, scores.len() as int);
        }
    }
}

/// A longer ranking starts with the shorter one: asking for one more entry
/// changes none of those before it.
pub proof fn lemma_nearest_order_grows(scores: Seq<u32>, limit: int)
    requires
        0 < limit,
    ensures
        nearest_order(scores, limit - 1).len() <= nearest_order(scores, limit).len(),
        forall|k: int|
            0 <= k < nearest_order(scores, limit - 1).len() ==> nearest_order(scores, limit)[k]
                == #[trigger] nearest_order(scores, limit - 1)[k],
{
}

/// The entry at `k` of the ranking is the best of those that may follow the
/// entry before it; the first is the best of all.
pub proof fn lemma_nearest_order_step(scores: Seq<u32>, limit: int, k: int)
    requires
        0 <= limit,
        0 <= k < nearest_order(scores, limit).len(),
    ensures
        nearest_order(scores, limit)[k] == best_after(
            scores,
            if k == 0 {
                -1
            } else {
                nearest_order(scores, limit)[k - 1]
            },
            scores.len() as int,
        ),
    decreases limit,
{
    let shorter = nearest_order(scores, limit - 1);
    lemma_nearest_order(scores, limit - 1);
    lemma_nearest_order_grows(scores, limit);
    if k < shorter.len() {
        lemma_nearest_order_step(scores, limit - 1, k);
        assert(nearest_order(scores, limit)[k] == shorter[k]);
        if k > 0 {
            assert(nearest_order(scores, limit)[k - 1] == shorter[k - 1]);
        }
    } else {
        assert(shorter.len() == limit - 1);
        assert(k == limit - 1);
        let prev = if limit == 1 {
            -1
        } else {
            shorter[limit - 2]
        };
        let best = best_after(scores, prev, scores.len() as int);
        assert(nearest_order(scores, limit) == shorter.push(best));
        if k > 0 {
            assert(nearest_order(scores, limit)[k - 1] == shorter[k - 1]);
        }
    }
}

/// A ranking that stops short of `limit` entries stops for want of an entry
/// that may follow its last one.
pub proof fn lemma_nearest_order_stops(scores: Seq<u32>, limit: int)
    requires
        0 <= limit,
        nearest_order(scores, limit).len() < limit,
    ensures
        best_after(
            scores,
            if nearest_order(scores, limit).len() == 0 {
                -1
            } else {
                nearest_order(scores, limit).last()
            },
            scores.len() as int,
        ) == -1,
    decreases limit,
{
    lemma_nearest_order(scores, limit - 1);
    let shorter = nearest_order(scores, limit - 1);
    if shorter.len() < limit - 1 {
        lemma_nearest_order_stops(scores, limit - 1);
        assert(nearest_order(scores, limit) == shorter);
    } else {
        let prev = if limit == 1 {
            -1
        } else {
            shorter[limit - 2]
        };
        let best = best_after(scores, prev, scores.len() as int);
        lemma_best_after(scores, prev, scores.len() as int);
        if best >= 0 {
            assert(nearest_order(scores, limit) == shorter.push(best));
            assert(false);
        }
        assert(nearest_order(scores, limit) == shorter);
        if shorter.len() > 0 {
            assert(shorter.last() == shorter[limit - 2]);
        }
    }
}

/// In the ranking, every entry ranks before every later one.
pub proof fn lemma_nearest_order_chain(scores: Seq<u32>, limit: int, k1: int, k2: int)
    requires
        0 <= limit,
        0 <= k1 < k2 < nearest_order(scores, limit).len(),
    ensures
        ranks_before(scores, nearest_order(scores, limit)[k1], nearest_order(scores, limit)[k2]),
    decreases k2 - k1,
{
    lemma_nearest_order(scores, limit);
    let r = nearest_order(scores, limit);
    assert(ranks_before(scores, r[k2 - 1], r[k2]));
    if k1 < k2 - 1 {
        lemma_nearest_order_chain(scores, limit, k1, k2 - 1);
    }
}

/// The ranking leaves out nothing that ranks before one of its entries:
/// whatever ranks before the entry at `k` is among the entries before it.
pub proof fn lemma_nearest_order_closed(scores: Seq<u32>, limit: int, k: int, j: int)
    requires
        0 <= limit,
        0 <= k < nearest_order(scores, limit).len(),
        0 <= j < scores.len(),
        ranks_before(scores, j, nearest_order(scores, limit)[k]),
    ensures
        exists|m: int| 0 <= m < k && #[trigger] nearest_order(scores, limit)[m] == j,
    decreases k,
{
    let r = nearest_order(scores, limit);
    lemma_nearest_order(scores, limit);
    lemma_nearest_order_step(scores, limit, k);
    let prev = if k == 0 {
        -1
    } else {
        r[k - 1]
    };
    lemma_best_after(scores, prev, scores.len() as int);
    assert(r[k] == best_after(scores, prev, scores.len() as int));
    if k > 0 {
        if j == r[k - 1] {
            assert(r[k - 1] == j);
        } else if ranks_before(scores, j, r[k - 1]) {
            lemma_nearest_order_closed(scores, limit, k - 1, j);
            let m = choose|m: int| 0 <= m < k - 1 && #[trigger] r[m] == j;
            assert(0 <= m < k && r[m] == j);
        } else {
            assert(may_follow(scores, prev, j));
            assert(false);
        }
    } else {
        assert(may_follow(scores, prev, j));
        assert(false);
    }
}

/// The ranking has `limit` entries, or as many as there are where there are
/// fewer.
pub proof fn lemma_nearest_order_len(scores: Seq<u32>, limit: int)
    requires
        0 <= limit,
    ensures
        nearest_order(scores, limit).len() == (if limit <= scores.len() {
            limit
        } else {
            scores.len() as int
        }),
{
    let r = nearest_order(scores, limit);
    let n = scores.len() as int;
    lemma_nearest_order(scores, limit);
    assert forall|k1: int, k2: int| 0 <= k1 < r.len() && 0 <= k2 < r.len() && k1 != k2 implies r[k1]
        != r[k2] by {
        if k1 < k2 {
            lemma_nearest_order_chain(scores, limit, k1, k2);
        } else {
            lemma_nearest_order_chain(scores, limit, k2, k1);
        }
    }
    assert(r.no_duplicates());
    r.unique_seq_to_set();
    vstd::set_lib::lemma_int_range(0, n);
    assert forall|j: int| r.to_set().contains(j) implies vstd::set_lib::set_int_range(0, n).contains(
        j,
    ) by {
        let m = choose|m: int| 0 <= m < r.len() && r[m] == j;
        assert(0 <= r[m] < n);
    }
    vstd::set_lib::lemma_len_subset(r.to_set(), vstd::set_lib::set_int_range(0, n));
    assert(r.len() <= n);
    if r.len() < limit {
        lemma_nearest_order_stops(scores, limit);
        let last = if r.len() == 0 {
            -1
        } else {
            r.last()
        };
        lemma_best_after(scores, last, n);
        assert forall|j: int| vstd::set_lib::set_int_range(0, n).contains(j) implies r.to_set().contains(
            j,
        ) by {
            if r.len() == 0 {
                assert(may_follow(scores, last, j));
                assert(false);
            } else if j == last {
                assert(r[r.len() - 1] == j);
            } else {
                assert(!may_follow(scores, last, j));
                assert(ranks_before(scores, j, last));
                lemma_nearest_order_closed(scores, limit, r.len() - 1, j);
                let m = choose|m: int| 0 <= m < r.len() - 1 && #[trigger] r[m] == j;
                assert(r[m] == j);
            }
        }
        vstd::seq_lib::seq_to_set_is_finite(r);
        vstd::set_lib::lemma_len_subset(vstd::set_lib::set_int_range(0, n), r.to_set());
        r.lemma_cardinality_of_set();
    }
}

/// Ranks the entries by score, higher first and earlier first among equal
/// scores, and gives the positions of the first `limit` of them.
pub fn rank_nearest(scores: &Vec<u32>, limit: usize) -> (order: Vec<usize>)
    ensures
        order@.len() == nearest_order(scores@, limit as int).len(),
        forall|k: int| 0 <= k < order@.len() ==> order@[k] == nearest_order(scores@, limit as int)[k],
        forall|k: int| 0 <= k < order@.len() ==> order@[k] < scores@.len(),
        order@.len() == (if limit <= scores@.len() {
            limit as int
        } else {
            scores@.len() as int
        }),
{
    proof {
        lemma_nearest_order_len(scores@, limit as int);
    }
    let n: usize = scores.len();
    let mut order: Vec<usize> = Vec::new();
    let mut round: usize = 0;
    while round < limit
        invariant
            n == scores@.len(),
            round <= limit,
            order@.len() == nearest_order(scores@, round as int).len(),
            forall|k: int|
                0 <= k < order@.len() ==> order@[k] == nearest_order(scores@, round as int)[k],
            forall|k: int| 0 <= k < order@.len() ==> order@[k] < n,
        decreases limit - round,
    {
        proof {
            lemma_nearest_order(scores@, round as int);
        }
        if order.len() == round {
            let ghost prev: int = if round == 0 {
                -1
            } else {
                order@[round - 1] as int
            };
            let mut best: Option<usize> = None;
            let mut j: usize = 0;
            while j < n
                invariant
                    n == scores@.len(),
                    j <= n,
                    order@.len() == round,
                    prev == (if round == 0 {
                        -1
                    } else {
                        order@[round - 1] as int
                    }),
                    prev < n,
                    best is None ==> best_after(scores@, prev, j as int) == -1,
                    best is Some ==> best->Some_0 == best_after(scores@, prev, j as int) && best->Some_0
                        < j,
                decreases n - j,
            {
                let follows: bool = if round == 0 {
                    true
                } else {
                    let p: usize = order[round - 1];
                    scores[p] > scores[j] || (scores[p] == scores[j] && p < j)
                };
                if follows {
                    let better: bool = match best {
                        None => true,
                        Some(b) => scores[j] > scores[b] || (scores[j] == scores[b] && j < b),
                    };
                    if better {
                        best = Some(j);
                    }
                }
                j += 1;
            }
            match best {
                Some(b) => {
                    order.push(b);
                },
                None => {},
            }
        }
        round += 1;
    }
    order
}

} // verus!
