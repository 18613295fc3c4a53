//! The abstract state of the two tiers and the durable log, and the laws of
//! the add/flush lifecycle.
use vstd::prelude::*;
use vstd::multiset::Multiset;
use vstd::arithmetic::div_mod::lemma_mod_multiples_vanish;
use vstd::arithmetic::div_mod::lemma_small_mod;
use vstd::seq_lib::group_to_multiset_ensures;

verus! {

/// What the service holds at one observable instant: the documents visible in
/// the mutable tier, the entries of the durable log in append order, and the
/// documents visible in the immutable tier. A document is a serialized record,
/// viewed as its text.
pub ghost struct TierState {
    pub mem: Multiset<Seq<char>>,
    pub log: Seq<Seq<char>>,
    pub disk: Multiset<Seq<char>>,
}

/// The mutable tier holds exactly the logged documents.
pub open spec fn state_wf(s: TierState) -> bool {
    s.mem == s.log.to_multiset()
}

/// The state right after a document `d` is logged and joins the mutable
/// tier, before any flush.
pub open spec fn logged_state(s: TierState, d: Seq<char>) -> TierState {
    TierState { mem: s.mem.insert(d), log: s.log.push(d), disk: s.disk }
}

/// The state after one accepted document `d` under threshold `t`: the
/// document is logged and becomes visible in the mutable tier; if the mutable
/// tier thereby reaches `t`, the whole logged batch migrates into the
/// immutable tier and the log and the mutable tier are cleared.
pub open spec fn add_result(s: TierState, d: Seq<char>, t: nat) -> TierState {
    let logged = logged_state(s, d);
    if logged.log.len() >= t {
        TierState {
            mem: Multiset::empty(),
            log: Seq::empty(),
            disk: s.disk.add(logged.log.to_multiset()),
        }
    } else {
        logged
    }
}

/// The state after a sequence of accepted documents, in order.
pub open spec fn apply_adds(s: TierState, docs: Seq<Seq<char>>, t: nat) -> TierState
    decreases docs.len(),
{
    if docs.len() == 0 {
        s
    } else {
        apply_adds(add_result(s, docs.first(), t), docs.drop_first(), t)
    }
}

/// An add strictly below the threshold never migrates anything: the immutable
/// tier is untouched, the document is appended to the log and joins the
/// mutable tier.
pub proof fn lemma_add_below_threshold(s: TierState, d: Seq<char>, t: nat)
    requires
        s.log.len() + 1 < t,
    ensures
        add_result(s, d, t) == (TierState {
            mem: s.mem.insert(d),
            log: s.log.push(d),
            disk: s.disk,
        }),
{
}

/// An add that brings the log exactly to the threshold migrates exactly the
/// logged documents into the immutable tier and leaves the mutable tier and
/// the log empty.
pub proof fn lemma_add_at_threshold(s: TierState, d: Seq<char>, t: nat)
    requires
        s.log.len() + 1 == t,
    ensures
        add_result(s, d, t) == (TierState {
            mem: Multiset::<Seq<char>>::empty(),
            log: Seq::<Seq<char>>::empty(),
            disk: s.disk.add(s.log.push(d).to_multiset()),
        }),
        add_result(s, d, t).disk.len() == s.disk.len() + s.log.len() + 1,
{
    broadcast use group_to_multiset_ensures;

}

/// Every accepted document is, after any add, in exactly one of the two
/// sides: together the mutable and the immutable tier hold the documents they
/// held before plus the new one, whether or not the add flushed, and the
/// mutable tier still holds exactly the logged documents.
pub proof fn lemma_exactly_once(s: TierState, d: Seq<char>, t: nat)
    requires
        state_wf(s),
    ensures
        state_wf(add_result(s, d, t)),
        add_result(s, d, t).mem.add(add_result(s, d, t).disk) =~= s.mem.add(s.disk).insert(d),
{
    broadcast use group_to_multiset_ensures;

    let s1 = add_result(s, d, t);
    if s.log.push(d).len() >= t {
        assert(s1.mem =~= Seq::<Seq<char>>::empty().to_multiset());
        assert(s1.mem.add(s1.disk) =~= s.disk.add(s.log.to_multiset().insert(d)));
        assert(s.mem.add(s.disk).insert(d) =~= s.disk.add(s.log.to_multiset().insert(d)));
    } else {
        assert(s1.mem =~= s.log.to_multiset().insert(d));
        assert(s1.mem.add(s1.disk) =~= s.mem.add(s.disk).insert(d));
    }
}

/// After any run of accepted documents from a freshly flushed state, the log
/// holds the last `docs.len() % t` of them, the mutable tier holds exactly
/// those, and every earlier document has migrated into the immutable tier.
pub proof fn lemma_apply_adds_counts(s: TierState, docs: Seq<Seq<char>>, t: nat)
    requires
        state_wf(s),
        s.log.len() == 0,
        t >= 1,
    ensures
        state_wf(apply_adds(s, docs, t)),
        apply_adds(s, docs, t).log.len() == (docs.len() as int) % (t as int),
        apply_adds(s, docs, t).disk.len() == s.disk.len() + docs.len() - (docs.len() as int) % (t as int),
    decreases docs.len(),
{
    broadcast use group_to_multiset_ensures;

    lemma_apply_adds_counts_from(s, docs, t);
}

/// The inductive core of `lemma_apply_adds_counts`, from any log fill below
/// the threshold.
proof fn lemma_apply_adds_counts_from(s: TierState, docs: Seq<Seq<char>>, t: nat)
    requires
        state_wf(s),
        s.log.len() < t,
        t >= 1,
    ensures
        state_wf(apply_adds(s, docs, t)),
        apply_adds(s, docs, t).log.len() == (s.log.len() + docs.len()) as int % (t as int),
        apply_adds(s, docs, t).disk.len() == s.disk.len() + s.log.len() + docs.len() - (s.log.len()
            + docs.len()) as int % (t as int),
    decreases docs.len(),
{
    broadcast use group_to_multiset_ensures;

    if docs.len() == 0 {
        lemma_small_mod(s.log.len(), t);
    } else {
        let d = docs.first();
        let s1 = add_result(s, d, t);
        lemma_exactly_once(s, d, t);
        lemma_apply_adds_counts_from(s1, docs.drop_first(), t);
        if s.log.len() + 1 >= t {
            assert(s.log.len() + 1 == t);
            assert(s1.log.len() == 0);
            assert(s1.disk.len() == s.disk.len() + t) by {
                assert(s.log.push(d).to_multiset().len() == s.log.push(d).len());
            }
            lemma_mod_multiples_vanish(1, docs.len() - 1, t as int);
            assert((s.log.len() + docs.len()) as int % (t as int) == (docs.len() - 1) as int % (t as int));
        } else {
            assert(s1.log.len() == s.log.len() + 1);
        }
    }
}

/// After a number of accepted documents that is a multiple of the threshold,
/// starting from a freshly flushed state, the log and the mutable tier are
/// empty and the immutable tier has grown by exactly that number.
pub proof fn lemma_adds_multiple_of_threshold(s: TierState, docs: Seq<Seq<char>>, t: nat)
    requires
        state_wf(s),
        s.log.len() == 0,
        t >= 1,
        (docs.len() as int) % (t as int) == 0,
    ensures
        apply_adds(s, docs, t).log.len() == 0,
        apply_adds(s, docs, t).mem.len() == 0,
        apply_adds(s, docs, t).disk.len() == s.disk.len() + docs.len(),
{
    broadcast use group_to_multiset_ensures;

    lemma_apply_adds_counts(s, docs, t);
    assert(apply_adds(s, docs, t).mem.len() == apply_adds(s, docs, t).log.to_multiset().len());
}

} // verus!
