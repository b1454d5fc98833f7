//! Lists of pairs in dictionary order, as the overlap scans report them.

use vstd::prelude::*;

verus! {

/// Dictionary order on pairs: by the first component, then by the second.
pub open spec fn pair_before(p: (int, int), q: (int, int)) -> bool {
    p.0 < q.0 || (p.0 == q.0 && p.1 < q.1)
}

/// Whether `pairs` lists the pairs of `wanted`, each once and no others, in
/// dictionary order. There is at most one such list of a set.
pub open spec fn is_listing(pairs: Seq<(int, int)>, wanted: Set<(int, int)>) -> bool {
    &&& forall|k: int| 0 <= k < pairs.len() ==> wanted.contains(#[trigger] pairs[k])
    &&& forall|p: (int, int)| #[trigger] wanted.contains(p) ==> pairs.contains(p)
    &&& forall|j: int, k: int|
        0 <= j < k < pairs.len() ==> pair_before(#[trigger] pairs[j], #[trigger] pairs[k])
}

/// Whether `pairs` lists the pairs of `wanted` that come before `next`, and
/// no others, in dictionary order: what a row-by-row scan holds when it is
/// about to look at `next`.
pub open spec fn is_listing_before(
    pairs: Seq<(int, int)>,
    wanted: Set<(int, int)>,
    next: (int, int),
) -> bool {
    &&& forall|k: int|
        0 <= k < pairs.len() ==> wanted.contains(#[trigger] pairs[k]) && pair_before(
            pairs[k],
            next,
        )
    &&& forall|p: (int, int)| #[trigger]
        wanted.contains(p) && pair_before(p, next) ==> pairs.contains(p)
    &&& forall|j: int, k: int|
        0 <= j < k < pairs.len() ==> pair_before(#[trigger] pairs[j], #[trigger] pairs[k])
}

/// The scan looked at a wanted pair and noted it.
pub proof fn lemma_listing_note(pairs: Seq<(int, int)>, wanted: Set<(int, int)>, next: (int, int))
    requires
        is_listing_before(pairs, wanted, next),
        wanted.contains(next),
    ensures
        is_listing_before(pairs.push(next), wanted, (next.0, next.1 + 1)),
{
    let after = pairs.push(next);
    let then = (next.0, next.1 + 1);
    assert forall|p: (int, int)| #[trigger] wanted.contains(p) && pair_before(p, then) implies after.contains(
        p,
    ) by {
        if p == next {
            assert(after[pairs.len() as int] == p);
        } else {
            assert(pair_before(p, next));
            let k = choose|k: int| 0 <= k < pairs.len() && pairs[k] == p;
            assert(after[k] == p);
        }
    }
}

/// The scan looked at a pair that is not wanted and passed on.
pub proof fn lemma_listing_pass(pairs: Seq<(int, int)>, wanted: Set<(int, int)>, next: (int, int))
    requires
        is_listing_before(pairs, wanted, next),
        !wanted.contains(next),
    ensures
        is_listing_before(pairs, wanted, (next.0, next.1 + 1)),
{
    let then = (next.0, next.1 + 1);
    assert forall|p: (int, int)| #[trigger] wanted.contains(p) && pair_before(p, then) implies pairs.contains(
        p,
    ) by {
        assert(p != next);
        assert(pair_before(p, next));
    }
}

/// The scan leaves a row in which nothing more is wanted, and enters the
/// following row at a place before which nothing is wanted.
pub proof fn lemma_listing_next_row(
    pairs: Seq<(int, int)>,
    wanted: Set<(int, int)>,
    next: (int, int),
    start: int,
)
    requires
        is_listing_before(pairs, wanted, next),
        forall|p: (int, int)| #[trigger] wanted.contains(p) && p.0 == next.0 ==> p.1 < next.1,
        forall|p: (int, int)| #[trigger] wanted.contains(p) && p.0 == next.0 + 1 ==> p.1 >= start,
    ensures
        is_listing_before(pairs, wanted, (next.0 + 1, start)),
{
    let then = (next.0 + 1, start);
    assert forall|p: (int, int)| #[trigger] wanted.contains(p) && pair_before(p, then) implies pairs.contains(
        p,
    ) by {
        assert(pair_before(p, next));
    }
}

/// The scan has passed every row in which something is wanted.
pub proof fn lemma_listing_done(pairs: Seq<(int, int)>, wanted: Set<(int, int)>, next: (int, int))
    requires
        is_listing_before(pairs, wanted, next),
        forall|p: (int, int)| #[trigger] wanted.contains(p) ==> p.0 < next.0,
    ensures
        is_listing(pairs, wanted),
{
    assert forall|p: (int, int)| #[trigger] wanted.contains(p) implies pairs.contains(p) by {
        assert(pair_before(p, next));
    }
}

/// A set of pairs has at most one listing: the scans' reports are pinned
/// down by what they have to hold.
pub proof fn listing_is_unique(
    first: Seq<(int, int)>,
    second: Seq<(int, int)>,
    wanted: Set<(int, int)>,
)
    requires
        is_listing(first, wanted),
        is_listing(second, wanted),
    ensures
        first == second,
    decreases first.len(),
{
    if first.len() == 0 {
        if second.len() > 0 {
            assert(wanted.contains(second[0]));
            assert(first.contains(second[0]));
        }
        assert(first =~= second);
    } else {
        let top = first.last();
        assert(wanted.contains(top));
        assert(second.contains(top));
        let at = choose|k: int| 0 <= k < second.len() && second[k] == top;
        if at != second.len() - 1 {
            let over = second.last();
            assert(pair_before(second[at], over));
            assert(wanted.contains(over));
            assert(first.contains(over));
            let back = choose|k: int| 0 <= k < first.len() && first[k] == over;
            if back != first.len() - 1 {
                assert(pair_before(first[back], first[first.len() - 1]));
            }
        }
        assert(second.last() == top);
        let rest = wanted.remove(top);
        lemma_listing_without_last(first, wanted);
        lemma_listing_without_last(second, wanted);
        listing_is_unique(first.drop_last(), second.drop_last(), rest);
        assert(first =~= first.drop_last().push(top));
        assert(second =~= second.drop_last().push(top));
    }
}

/// A listing without its last pair lists the set without that pair.
proof fn lemma_listing_without_last(pairs: Seq<(int, int)>, wanted: Set<(int, int)>)
    requires
        is_listing(pairs, wanted),
        pairs.len() > 0,
    ensures
        is_listing(pairs.drop_last(), wanted.remove(pairs.last())),
{
    let top = pairs.last();
    let front = pairs.drop_last();
    let rest = wanted.remove(top);
    assert forall|k: int| 0 <= k < front.len() implies rest.contains(#[trigger] front[k]) by {
        assert(front[k] == pairs[k]);
        assert(pair_before(pairs[k], pairs[pairs.len() - 1]));
    }
    assert forall|p: (int, int)| #[trigger] rest.contains(p) implies front.contains(p) by {
        assert(wanted.contains(p));
        let k = choose|k: int| 0 <= k < pairs.len() && pairs[k] == p;
        assert(front[k] == p);
    }
    assert forall|j: int, k: int| 0 <= j < k < front.len() implies pair_before(
        #[trigger] front[j],
        #[trigger] front[k],
    ) by {
        assert(front[j] == pairs[j] && front[k] == pairs[k]);
    }
}

} // verus!
