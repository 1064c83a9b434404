//! Ranking: putting items in a stable order by numeric and textual keys and
//! keeping the first few, as `sort_by` followed by `truncate` does.

use vstd::prelude::*;
use vstd::multiset::Multiset;
use vstd::relations::{sorted_by, total_ordering};

verus! {

broadcast use vstd::seq_lib::group_to_multiset_ensures;

/// `a` comes before `b` in lexicographic order: at the first position where
/// they differ the smaller element wins, and a proper prefix comes first.
pub open spec fn text_lt(a: Seq<u32>, b: Seq<u32>) -> bool
    decreases a.len(),
{
    if a.len() == 0 {
        b.len() > 0
    } else if b.len() == 0 {
        false
    } else if a[0] != b[0] {
        a[0] < b[0]
    } else {
        text_lt(a.drop_first(), b.drop_first())
    }
}

/// The numbers, text and original position a key compares by, in that order.
pub type KeyView = (u64, u64, Seq<u32>, usize);

/// The order of keys: by `major`, then `minor`, then text, then position,
/// each ascending.
pub open spec fn key_le(a: KeyView, b: KeyView) -> bool {
    ||| a.0 < b.0
    ||| a.0 == b.0 && a.1 < b.1
    ||| a.0 == b.0 && a.1 == b.1 && text_lt(a.2, b.2)
    ||| a.0 == b.0 && a.1 == b.1 && a.2 == b.2 && a.3 <= b.3
}

pub open spec fn key_order() -> spec_fn(KeyView, KeyView) -> bool {
    |a: KeyView, b: KeyView| key_le(a, b)
}

proof fn lemma_text_lt_irreflexive(a: Seq<u32>)
    ensures
        !text_lt(a, a),
    decreases a.len(),
{
    if a.len() > 0 {
        lemma_text_lt_irreflexive(a.drop_first());
    }
}

proof fn lemma_text_lt_asymmetric(a: Seq<u32>, b: Seq<u32>)
    ensures
        !(text_lt(a, b) && text_lt(b, a)),
    decreases a.len(),
{
    if a.len() > 0 && b.len() > 0 && a[0] == b[0] {
        lemma_text_lt_asymmetric(a.drop_first(), b.drop_first());
    }
}

proof fn lemma_text_lt_connected(a: Seq<u32>, b: Seq<u32>)
    ensures
        a == b || text_lt(a, b) || text_lt(b, a),
    decreases a.len(),
{
    if a.len() > 0 && b.len() > 0 && a[0] == b[0] {
        lemma_text_lt_connected(a.drop_first(), b.drop_first());
        if a.drop_first() == b.drop_first() {
            assert(a =~= seq![a[0]] + a.drop_first());
            assert(b =~= seq![b[0]] + b.drop_first());
        }
    } else if a.len() == 0 && b.len() == 0 {
        assert(a =~= b);
    }
}

proof fn lemma_text_lt_transitive(a: Seq<u32>, b: Seq<u32>, c: Seq<u32>)
    requires
        text_lt(a, b),
        text_lt(b, c),
    ensures
        text_lt(a, c),
    decreases a.len(),
{
    if a.len() > 0 && b.len() > 0 && c.len() > 0 && a[0] == b[0] && b[0] == c[0] {
        lemma_text_lt_transitive(a.drop_first(), b.drop_first(), c.drop_first());
    }
}

/// The order of keys is a total order.
pub proof fn lemma_key_order_is_total()
    ensures
        total_ordering(key_order()),
{
    assert forall|a: KeyView| #[trigger] key_order()(a, a) by {
        lemma_text_lt_irreflexive(a.2);
    }
    assert forall|a: KeyView, b: KeyView|
        #[trigger] key_order()(a, b) && #[trigger] key_order()(b, a) implies a == b by {
        lemma_text_lt_asymmetric(a.2, b.2);
        lemma_text_lt_irreflexive(a.2);
    }
    assert forall|a: KeyView, b: KeyView, c: KeyView|
        #[trigger] key_order()(a, b) && #[trigger] key_order()(b, c) implies key_order()(a, c) by {
        if a.0 == b.0 && b.0 == c.0 && a.1 == b.1 && b.1 == c.1 {
            if text_lt(a.2, b.2) && text_lt(b.2, c.2) {
                lemma_text_lt_transitive(a.2, b.2, c.2);
            }
        }
    }
    assert forall|a: KeyView, b: KeyView|
        #[trigger] key_order()(a, b) || #[trigger] key_order()(b, a) by {
        lemma_text_lt_connected(a.2, b.2);
    }
}

/// A sort key of an item. `position` is the item's index, so that items
/// whose keys are otherwise equal keep their order.
#[derive(Debug, Clone)]
pub struct RankKey {
    pub major: u64,
    pub minor: u64,
    pub text: Vec<u32>,
    pub position: usize,
}

pub open spec fn key_view(k: RankKey) -> KeyView {
    (k.major, k.minor, k.text@, k.position)
}

pub open spec fn key_views(keys: Seq<RankKey>) -> Seq<KeyView> {
    keys.map_values(|k: RankKey| key_view(k))
}

fn text_less(a: &Vec<u32>, b: &Vec<u32>) -> (lt: bool)
    ensures
        lt == text_lt(a@, b@),
{
    let mut i: usize = 0;
    assert(a@.skip(0) =~= a@);
    assert(b@.skip(0) =~= b@);
    while i < a.len() && i < b.len() && a[i] == b[i]
        invariant
            i <= a@.len(),
            i <= b@.len(),
            a@.take(i as int) == b@.take(i as int),
            text_lt(a@, b@) == text_lt(a@.skip(i as int), b@.skip(i as int)),
        decreases a@.len() - i,
    {
        assert(a@.skip(i as int).drop_first() =~= a@.skip(i + 1));
        assert(b@.skip(i as int).drop_first() =~= b@.skip(i + 1));
        assert(a@.take(i + 1) =~= a@.take(i as int).push(a@[i as int]));
        assert(b@.take(i + 1) =~= b@.take(i as int).push(b@[i as int]));
        i = i + 1;
    }
    if i == a.len() {
        i < b.len()
    } else if i == b.len() {
        false
    } else {
        a[i] < b[i]
    }
}

fn key_less_eq(a: &RankKey, b: &RankKey) -> (le: bool)
    ensures
        le == key_le(key_view(*a), key_view(*b)),
{
    if a.major != b.major {
        return a.major < b.major;
    }
    if a.minor != b.minor {
        return a.minor < b.minor;
    }
    if text_less(&a.text, &b.text) {
        return true;
    }
    if text_less(&b.text, &a.text) {
        proof {
            lemma_text_lt_asymmetric(a.text@, b.text@);
        }
        return false;
    }
    proof {
        lemma_text_lt_connected(a.text@, b.text@);
    }
    a.position <= b.position
}

/// The positions of the first `limit` keys in key order.
pub open spec fn ranked_positions(keys: Seq<KeyView>, limit: nat) -> Seq<usize> {
    let sorted = keys.sort_by(key_order());
    let kept = if limit < sorted.len() {
        sorted.take(limit as int)
    } else {
        sorted
    };
    kept.map_values(|k: KeyView| k.3)
}

proof fn lemma_prefix_of_sorted(done: Seq<KeyView>, rest: Seq<KeyView>, all: Seq<KeyView>)
    requires
        sorted_by(done, key_order()),
        forall|i: int, j: int|
            0 <= i < done.len() && 0 <= j < rest.len() ==> key_le(done[i], rest[j]),
        done.to_multiset().add(rest.to_multiset()) == all.to_multiset(),
    ensures
        all.sort_by(key_order()).take(done.len() as int) == done,
        done.len() <= all.sort_by(key_order()).len(),
{
    lemma_key_order_is_total();
    rest.lemma_sort_by_ensures(key_order());
    all.lemma_sort_by_ensures(key_order());
    let rs = rest.sort_by(key_order());
    let joined = done + rs;
    vstd::seq_lib::lemma_multiset_commutative(done, rs);
    assert forall|x: KeyView| rs.contains(x) implies rest.contains(x) by {
        assert(rs.to_multiset().count(x) > 0);
    }
    assert forall|i: int, j: int| 0 <= i < j < joined.len() implies #[trigger] key_order()(
        joined[i],
        joined[j],
    ) by {
        if j < done.len() {
        } else if i < done.len() {
            assert(rs.contains(joined[j]));
            let k = choose|k: int| 0 <= k < rest.len() && rest[k] == joined[j];
            assert(key_le(done[i], rest[k]));
        } else {
            assert(joined[i] == rs[i - done.len()]);
            assert(joined[j] == rs[j - done.len()]);
        }
    }
    vstd::seq_lib::lemma_sorted_unique(joined, all.sort_by(key_order()), key_order());
    assert(joined.take(done.len() as int) =~= done);
}

/// The positions of the first `limit` keys in key order: a stable sort by
/// the keys' numbers and text, cut to `limit`.
pub fn rank(keys: Vec<RankKey>, limit: usize) -> (order: Vec<usize>)
    ensures
        order@ == ranked_positions(key_views(keys@), limit as nat),
{
    let ghost all = key_views(keys@);
    let mut rest = keys;
    let mut order: Vec<usize> = Vec::new();
    let ghost mut done: Seq<KeyView> = seq![];
    assert(done.to_multiset().add(key_views(rest@).to_multiset()) =~= all.to_multiset());
    while order.len() < limit && rest.len() > 0
        invariant
            order@ == done.map_values(|k: KeyView| k.3),
            order@.len() == done.len(),
            order@.len() <= limit,
            sorted_by(done, key_order()),
            forall|i: int, j: int|
                #![trigger done[i], rest@[j]]
                0 <= i < done.len() && 0 <= j < rest@.len() ==> key_le(
                    done[i],
                    key_view(rest@[j]),
                ),
            done.to_multiset().add(key_views(rest@).to_multiset()) == all.to_multiset(),
        decreases rest@.len(),
    {
        let mut m: usize = 0;
        let mut j: usize = 1;
        while j < rest.len()
            invariant
                m < j <= rest@.len(),
                forall|k: int| 0 <= k < j ==> key_le(key_view(rest@[m as int]), #[trigger] key_view(rest@[k])),
            decreases rest@.len() - j,
        {
            if !key_less_eq(&rest[m], &rest[j]) {
                proof {
                    lemma_key_order_is_total();
                    assert(!key_order()(key_view(rest@[m as int]), key_view(rest@[j as int])));
                    assert(key_order()(key_view(rest@[j as int]), key_view(rest@[m as int])));
                    assert forall|k: int| 0 <= k < j + 1 implies key_le(
                        key_view(rest@[j as int]),
                        #[trigger] key_view(rest@[k]),
                    ) by {
                        if k < j {
                            assert(key_order()(key_view(rest@[m as int]), key_view(rest@[k])));
                        }
                    }
                }
                m = j;
            }
            j = j + 1;
        }
        let ghost before = rest@;
        let picked = rest.remove(m);
        proof {
            lemma_key_order_is_total();
            let kv = key_view(picked);
            assert(key_views(rest@) =~= key_views(before).remove(m as int));
            assert(key_views(before)[m as int] == kv);
            assert(sorted_by(done.push(kv), key_order())) by {
                assert forall|a: int, b: int| 0 <= a < b < done.push(kv).len() implies #[trigger] key_order()(
                    done.push(kv)[a],
                    done.push(kv)[b],
                ) by {
                    if b == done.len() {
                        assert(key_le(done[a], key_view(before[m as int])));
                    }
                }
            }
            assert forall|a: int, b: int|
                #![trigger done.push(kv)[a], rest@[b]]
                0 <= a < done.push(kv).len() && 0 <= b < rest@.len() implies key_le(
                done.push(kv)[a],
                key_view(rest@[b]),
            ) by {
                let ob = if b < m { b } else { b + 1 };
                assert(rest@[b] == before[ob]);
                if a == done.len() {
                    assert(key_le(key_view(before[m as int]), key_view(before[ob])));
                } else {
                    assert(key_le(done[a], key_view(before[ob])));
                }
            }
            assert(done.push(kv).to_multiset() =~= done.to_multiset().insert(kv));
            assert(key_views(before).remove(m as int).to_multiset() =~= key_views(
                before,
            ).to_multiset().remove(kv));
            assert(done.push(kv).to_multiset().add(key_views(rest@).to_multiset())
                =~= done.to_multiset().add(key_views(before).to_multiset()));
            done = done.push(kv);
        }
        order.push(picked.position);
        assert(order@ =~= done.map_values(|k: KeyView| k.3));
    }
    proof {
        lemma_key_order_is_total();
        lemma_prefix_of_sorted(done, key_views(rest@), all);
        all.lemma_sort_by_ensures(key_order());
        let sorted = all.sort_by(key_order());
        if order@.len() < limit {
            assert(rest@.len() == 0);
            assert(key_views(rest@).to_multiset() =~= Multiset::empty());
            assert(done.to_multiset() =~= all.to_multiset());
            assert(done.to_multiset().len() == done.len());
            assert(all.to_multiset().len() == all.len());
            assert(sorted.to_multiset().len() == sorted.len());
            assert(done.len() == all.len());
            assert(sorted.len() == all.len());
            assert(sorted.take(done.len() as int) =~= sorted);
        }
    }
    order
}

/// Keys made from item indices name positions inside the items, and as
/// many of them are kept as the limit allows.
pub proof fn lemma_ranked_positions_in_range(keys: Seq<KeyView>, limit: nat)
    requires
        forall|i: int| 0 <= i < keys.len() ==> (#[trigger] keys[i]).3 == i,
    ensures
        forall|j: int|
            0 <= j < ranked_positions(keys, limit).len() ==> (#[trigger] ranked_positions(
                keys,
                limit,
            )[j]) < keys.len(),
        ranked_positions(keys, limit).len() == if limit < keys.len() {
            limit
        } else {
            keys.len()
        },
{
    lemma_key_order_is_total();
    keys.lemma_sort_by_ensures(key_order());
    let sorted = keys.sort_by(key_order());
    assert(sorted.to_multiset().len() == sorted.len());
    assert(keys.to_multiset().len() == keys.len());
    assert forall|j: int| 0 <= j < sorted.len() implies (#[trigger] sorted[j]).3 < keys.len() by {
        assert(sorted.contains(sorted[j]));
        assert(keys.contains(sorted[j]));
        let i = choose|i: int| 0 <= i < keys.len() && keys[i] == sorted[j];
        assert(keys[i].3 == i);
    }
}

/// The positions kept by a ranking come in key order.
pub proof fn lemma_ranked_in_key_order(keys: Seq<KeyView>, limit: nat)
    requires
        forall|i: int| 0 <= i < keys.len() ==> (#[trigger] keys[i]).3 == i,
    ensures
        forall|a: int, b: int|
            #![trigger ranked_positions(keys, limit)[a], ranked_positions(keys, limit)[b]]
            0 <= a < b < ranked_positions(keys, limit).len() ==> key_le(
                keys[ranked_positions(keys, limit)[a] as int],
                keys[ranked_positions(keys, limit)[b] as int],
            ),
{
    lemma_key_order_is_total();
    keys.lemma_sort_by_ensures(key_order());
    lemma_ranked_positions_in_range(keys, limit);
    let sorted = keys.sort_by(key_order());
    let r = ranked_positions(keys, limit);
    assert forall|a: int| 0 <= a < r.len() implies keys[r[a] as int] == #[trigger] sorted[a] by {
        assert(sorted.contains(sorted[a]));
        assert(keys.contains(sorted[a]));
        let k = choose|k: int| 0 <= k < keys.len() && keys[k] == sorted[a];
        assert(keys[k].3 == k);
    }
    assert forall|a: int, b: int|
        #![trigger r[a], r[b]]
        0 <= a < b < r.len() implies key_le(keys[r[a] as int], keys[r[b] as int]) by {
        assert(key_order()(sorted[a], sorted[b]));
    }
}

} // verus!
