//! Merging the scored hits of the two tiers into one ranked result.
use vstd::prelude::*;
use vstd::multiset::Multiset;

verus! {

/// One scored search result.
///
/// `score` is an order key for the tier's non-negative relevance score: the
/// key of a higher-scored hit compares greater. `doc` holds the stored fields
/// of the matched document, serialized as one text record.
#[derive(Debug, PartialEq)]
pub struct Hit {
    pub score: u32,
    pub doc: String,
}

/// The hits are ordered by weakly decreasing score.
pub open spec fn sorted_desc(s: Seq<Hit>) -> bool {
    forall|i: int, j: int| 0 <= i < j < s.len() ==> s[i].score >= s[j].score
}

/// The position of the best-scored hit, the earliest on equal scores.
pub open spec fn best_index(s: Seq<Hit>) -> int
    decreases s.len(),
{
    if s.len() <= 1 {
        0
    } else {
        let b = best_index(s.drop_last());
        if s.last().score > s[b].score {
            s.len() - 1
        } else {
            b
        }
    }
}

/// The position of the best-scored hit lies in the sequence and holds a
/// score no lower than any other.
pub proof fn lemma_best_index_in_bounds(s: Seq<Hit>)
    requires
        s.len() >= 1,
    ensures
        0 <= best_index(s) < s.len(),
        forall|j: int| 0 <= j < s.len() ==> s[best_index(s)].score >= (#[trigger] s[j]).score,
    decreases s.len(),
{
    if s.len() > 1 {
        lemma_best_index_in_bounds(s.drop_last());
        assert forall|j: int| 0 <= j < s.len() implies s[best_index(s)].score >= (
        #[trigger] s[j]).score by {
            if j < s.len() - 1 {
                assert(s.drop_last()[j] == s[j]);
                assert(s.drop_last()[best_index(s.drop_last())].score >= s.drop_last()[j].score);
            }
        }
    }
}

/// The `k` best-scored hits of `s`, best first: each round takes the
/// earliest best-scored hit that is left. This fixes the result completely,
/// tie order included, so equal inputs give equal outputs.
pub open spec fn top_hits_spec(s: Seq<Hit>, k: nat) -> Seq<Hit>
    decreases k,
{
    if k == 0 || s.len() == 0 {
        Seq::<Hit>::empty()
    } else {
        let b = best_index(s);
        seq![s[b]] + top_hits_spec(s.remove(b), (k - 1) as nat)
    }
}

/// Merges the hit lists of the two tiers: the result holds the `limit`
/// best-scored hits of both lists together, in weakly decreasing score order.
///
/// Every hit of the result is one of the given hits, and any given hit that
/// was left out scores no higher than any hit that was kept.
pub fn merge_hits(mem: Vec<Hit>, disk: Vec<Hit>, limit: usize) -> (r: Vec<Hit>)
    ensures
        r@ == top_hits_spec(mem@ + disk@, limit as nat),
        sorted_desc(r@),
        r@.len() == vstd::math::min(limit as int, (mem@.len() + disk@.len()) as int),
        r@.to_multiset().subset_of(mem@.to_multiset().add(disk@.to_multiset())),
        forall|x: Hit|
            r@.to_multiset().count(x) < mem@.to_multiset().add(disk@.to_multiset()).count(x)
                ==> forall|i: int| 0 <= i < r@.len() ==> (#[trigger] r@[i]).score >= x.score,
{
    let ghost mem_view = mem@;
    let ghost disk_view = disk@;
    let mut rest = mem;
    let mut disk = disk;
    rest.append(&mut disk);
    proof {
        vstd::seq_lib::lemma_multiset_commutative(mem_view, disk_view);
    }
    top_hits(rest, limit)
}

/// Selects the `limit` best-scored hits of `items`, in weakly decreasing
/// score order.
pub fn top_hits(items: Vec<Hit>, limit: usize) -> (r: Vec<Hit>)
    ensures
        r@ == top_hits_spec(items@, limit as nat),
        sorted_desc(r@),
        r@.len() == vstd::math::min(limit as int, items@.len() as int),
        r@.to_multiset().subset_of(items@.to_multiset()),
        forall|x: Hit|
            r@.to_multiset().count(x) < items@.to_multiset().count(x)
                ==> forall|i: int| 0 <= i < r@.len() ==> (#[trigger] r@[i]).score >= x.score,
{
    let ghost all = items@;
    let ghost total: Multiset<Hit> = items@.to_multiset();
    let mut rest = items;
    let mut out: Vec<Hit> = Vec::new();
    proof {
        lemma_to_multiset_of_empty::<Hit>(out@);
        vstd::seq_lib::to_multiset_len(rest@);
        assert(out@.to_multiset().add(rest@.to_multiset()) =~= total);
        assert(out@ + top_hits_spec(rest@, limit as nat) =~= top_hits_spec(all, limit as nat));
    }
    while out.len() < limit && rest.len() > 0
        invariant
            out@.to_multiset().add(rest@.to_multiset()) == total,
            out@.len() + rest@.len() == total.len(),
            out@.len() <= limit,
            out@ + top_hits_spec(rest@, (limit - out@.len()) as nat) == top_hits_spec(
                all,
                limit as nat,
            ),
            sorted_desc(out@),
            forall|i: int, j: int|
                0 <= i < out@.len() && 0 <= j < rest@.len() ==> (#[trigger] out@[i]).score >= (
                #[trigger] rest@[j]).score,
        decreases rest@.len(),
    {
        let mut best: usize = 0;
        let mut k: usize = 1;
        proof {
            assert(rest@.take(1).len() == 1);
            assert(best_index(rest@.take(1)) == 0);
        }
        while k < rest.len()
            invariant
                0 <= best < rest@.len(),
                1 <= k <= rest@.len(),
                best as int == best_index(rest@.take(k as int)),
                forall|j: int| 0 <= j < k ==> rest@[best as int].score >= (#[trigger] rest@[j]).score,
            decreases rest@.len() - k,
        {
            proof {
                let pre = rest@.take(k as int);
                let ext = rest@.take(k + 1);
                assert(ext.drop_last() =~= pre);
                lemma_best_index_in_bounds(pre);
                assert(ext.last() == rest@[k as int]);
                assert(ext[best_index(pre)] == rest@[best_index(pre)]);
                assert(best_index(ext) == if ext.last().score > ext[best_index(pre)].score {
                    k as int
                } else {
                    best_index(pre)
                });
            }
            if rest[k].score > rest[best].score {
                best = k;
            }
            k = k + 1;
        }
        proof {
            assert(rest@.take(rest@.len() as int) =~= rest@);
            assert(best as int == best_index(rest@));
        }
        let ghost old_out = out@;
        let ghost old_rest = rest@;
        let h = rest.remove(best);
        out.push(h);
        proof {
            assert(old_rest[best as int] == h);
            assert(old_rest.contains(h));
            assert(out@ == old_out.push(h));
            assert(rest@ == old_rest.remove(best as int));
            vstd::seq_lib::to_multiset_build(old_out, h);
            vstd::seq_lib::to_multiset_remove(old_rest, best as int);
            vstd::seq_lib::to_multiset_contains(old_rest, h);
            assert forall|x: Hit|
                out@.to_multiset().add(rest@.to_multiset()).count(x) == total.count(x) by {
                assert(total.count(x) == old_out.to_multiset().add(old_rest.to_multiset()).count(
                    x,
                ));
            }
            assert(out@.to_multiset().add(rest@.to_multiset()) =~= total);
            assert(top_hits_spec(old_rest, (limit - old_out.len()) as nat) == seq![h]
                + top_hits_spec(rest@, (limit - out@.len()) as nat));
            assert(out@ =~= old_out + seq![h]);
            assert(out@ + top_hits_spec(rest@, (limit - out@.len()) as nat) =~= (old_out + seq![h])
                + top_hits_spec(rest@, (limit - out@.len()) as nat));
            assert((old_out + seq![h]) + top_hits_spec(rest@, (limit - out@.len()) as nat) =~= old_out
                + (seq![h] + top_hits_spec(rest@, (limit - out@.len()) as nat)));
            assert(out@ + top_hits_spec(rest@, (limit - out@.len()) as nat) == top_hits_spec(
                all,
                limit as nat,
            ));
            assert forall|i: int, j: int|
                0 <= i < out@.len() && 0 <= j < rest@.len() implies (#[trigger] out@[i]).score >= (
            #[trigger] rest@[j]).score by {
                assert(rest@[j] == if j < best { old_rest[j] } else { old_rest[j + 1] });
            }
        }
    }
    proof {
        assert(top_hits_spec(rest@, (limit - out@.len()) as nat) =~= Seq::<Hit>::empty());
        assert(out@ + Seq::<Hit>::empty() =~= out@);
        assert(out@ == top_hits_spec(all, limit as nat));
        assert forall|x: Hit| out@.to_multiset().count(x) <= total.count(x) by {
            assert(total.count(x) == out@.to_multiset().count(x) + rest@.to_multiset().count(x));
        }
        assert(out@.to_multiset().subset_of(total));
        assert forall|x: Hit| out@.to_multiset().count(x) < total.count(x) implies forall|i: int|
            0 <= i < out@.len() ==> (#[trigger] out@[i]).score >= x.score by {
            assert(rest@.to_multiset().count(x) > 0);
            vstd::seq_lib::to_multiset_contains(rest@, x);
            assert(rest@.contains(x));
            let j = choose|j: int| 0 <= j < rest@.len() && rest@[j] == x;
            assert(forall|i: int| 0 <= i < out@.len() ==> (#[trigger] out@[i]).score >= rest@[j].score);
        }
    }
    out
}

/// A sequence with no elements converts to the empty multiset.
pub proof fn lemma_to_multiset_of_empty<A>(s: Seq<A>)
    requires
        s.len() == 0,
    ensures
        s.to_multiset() == Multiset::<A>::empty(),
{
    assert forall|x: A| s.to_multiset().count(x) == 0 by {
        vstd::seq_lib::to_multiset_contains(s, x);
    }
    assert(s.to_multiset() =~= Multiset::<A>::empty());
}

} // verus!
