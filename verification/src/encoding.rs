//! Canonical encodings of the set of accounts a block touched.
//!
//! The settlement contract takes account identifiers as an array: ascending
//! and free of duplicates, and for deposits padded to the width of a batch
//! with a reserved identifier.

use crate::operation::AccountMap;
use vstd::prelude::*;
use vstd::std_specs::iter::IteratorSpec;

verus! {

/// Each element is smaller than every later one.
pub open spec fn ascending(s: Seq<u64>) -> bool {
    forall|i: int, j: int| 0 <= i < j < s.len() ==> s[i] < s[j]
}

/// No element is larger than a later one.
pub open spec fn ordered(s: Seq<u64>) -> bool {
    forall|i: int, j: int| 0 <= i <= j < s.len() ==> s[i] <= s[j]
}

/// Whether `x` is one of the identifiers in `ids`, widened to 64 bits.
pub open spec fn is_id_of(x: u64, ids: Set<u32>) -> bool {
    x <= u32::MAX && ids.contains(x as u32)
}

/// `s` holds exactly the identifiers in `ids`, in ascending order and so
/// each of them once.
pub open spec fn lists_ascending(s: Seq<u64>, ids: Set<u32>) -> bool {
    &&& ascending(s)
    &&& forall|x: u64| s.contains(x) <==> is_id_of(x, ids)
}

/// The ascending listing of `ids`. A finite set has exactly one, see
/// [`lemma_listing_is_unique`]; [`keys_sorted`] computes it.
pub open spec fn sorted_ids(ids: Set<u32>) -> Seq<u64> {
    choose|s: Seq<u64>| lists_ascending(s, ids)
}

/// The ascending listing of `ids` followed by `filler`, up to `width`
/// entries in all.
pub open spec fn padded_ids(ids: Set<u32>, width: nat, filler: u64) -> Seq<u64> {
    sorted_ids(ids) + Seq::new((width - ids.len()) as nat, |i: int| filler)
}

/// Two ascending sequences with the same elements are the same sequence.
pub proof fn lemma_ascending_same_elements(a: Seq<u64>, b: Seq<u64>)
    requires
        ascending(a),
        ascending(b),
        forall|x: u64| a.contains(x) <==> b.contains(x),
    ensures
        a == b,
    decreases a.len(),
{
    if a.len() == 0 {
        if b.len() > 0 {
            assert(b.contains(b[0]));
        }
        assert(a =~= b);
    } else {
        let m = a.last();
        assert(a.contains(m));
        assert(b.contains(m));
        let k = choose|k: int| 0 <= k < b.len() && b[k] == m;
        if k != b.len() - 1 {
            assert(b.contains(b.last()));
            assert(a.contains(b.last()));
            let t = choose|t: int| 0 <= t < a.len() && a[t] == b.last();
            assert(a[t] <= m);
        }
        let a0 = a.drop_last();
        let b0 = b.drop_last();
        assert forall|x: u64| a0.contains(x) <==> b0.contains(x) by {
            if a0.contains(x) {
                let i = choose|i: int| 0 <= i < a0.len() && a0[i] == x;
                assert(a[i] == x);
                assert(a.contains(x));
                let j = choose|j: int| 0 <= j < b.len() && b[j] == x;
                assert(j != b.len() - 1);
                assert(b0[j] == x);
            }
            if b0.contains(x) {
                let j = choose|j: int| 0 <= j < b0.len() && b0[j] == x;
                assert(b[j] == x);
                assert(b.contains(x));
                let i = choose|i: int| 0 <= i < a.len() && a[i] == x;
                assert(i != a.len() - 1);
                assert(a0[i] == x);
            }
        }
        lemma_ascending_same_elements(a0, b0);
        assert(a =~= a0.push(m));
        assert(b =~= b0.push(m));
    }
}

/// A set of identifiers has at most one ascending listing.
pub proof fn lemma_listing_is_unique(a: Seq<u64>, b: Seq<u64>, ids: Set<u32>)
    requires
        lists_ascending(a, ids),
        lists_ascending(b, ids),
    ensures
        a == b,
{
    lemma_ascending_same_elements(a, b);
}

/// Whoever holds an ascending listing of `ids` holds `sorted_ids(ids)`.
pub proof fn lemma_listing_is_sorted_ids(s: Seq<u64>, ids: Set<u32>)
    requires
        lists_ascending(s, ids),
    ensures
        s == sorted_ids(ids),
{
    lemma_listing_is_unique(s, sorted_ids(ids), ids);
}

/// Sorts `v` into ascending order, keeping every element as often as it
/// occurred.
pub fn sort_ascending(v: Vec<u64>) -> (out: Vec<u64>)
    ensures
        ordered(out@),
        out@.to_multiset() == v@.to_multiset(),
{
    let mut out: Vec<u64> = Vec::new();
    let mut i: usize = 0;
    assert(v@.take(0) =~= Seq::<u64>::empty());
    while i < v.len()
        invariant
            i <= v.len(),
            ordered(out@),
            out@.to_multiset() == v@.take(i as int).to_multiset(),
        decreases v.len() - i,
    {
        let x = v[i];
        let mut p: usize = 0;
        while p < out.len() && out[p] <= x
            invariant
                p <= out.len(),
                forall|k: int| 0 <= k < p ==> out@[k] <= x,
            decreases out.len() - p,
        {
            p += 1;
        }
        let ghost before = out@;
        out.insert(p, x);
        proof {
            assert(out@ == before.insert(p as int, x));
            assert forall|a: int, b: int| 0 <= a <= b < out@.len() implies out@[a] <= out@[b] by {
                if a < p && b > p {
                    assert(before[a] <= before[b - 1]);
                } else if a > p {
                    assert(before[a - 1] <= before[b - 1]);
                } else if a == p && b > p {
                    assert(before[p as int] <= before[b - 1]);
                }
            }
            vstd::seq_lib::to_multiset_insert(before, p as int, x);
            assert(v@.take(i + 1) =~= v@.take(i as int).push(x));
            vstd::seq_lib::to_multiset_build(v@.take(i as int), x);
        }
        i += 1;
    }
    assert(v@.take(i as int) =~= v@);
    out
}

/// The identifiers of the accounts in the map, widened to 64 bits, in the
/// order in which the map hands them out.
fn account_ids(accounts: &AccountMap) -> (acc: Vec<u64>)
    ensures
        acc@.no_duplicates(),
        acc@.len() == accounts@.dom().len(),
        forall|x: u64| acc@.contains(x) <==> is_id_of(x, accounts@.dom()),
{
    broadcast use vstd::std_specs::hash::group_hash_axioms;

    let ghost keys: Seq<&u32> = accounts.keys().remaining();
    let mut acc: Vec<u64> = Vec::new();
    for k in it: accounts.keys()
        invariant
            it.seq() == keys,
            acc@.len() == it.index(),
            forall|j: int| 0 <= j < acc@.len() ==> acc@[j] == *keys[j] as u64,
    {
        acc.push(*k as u64);
    }
    proof {
        assert(keys.unref().to_set() == accounts@.dom());
        assert(keys.no_duplicates());
        assert forall|x: u64| acc@.contains(x) <==> is_id_of(x, accounts@.dom()) by {
            if acc@.contains(x) {
                let j = choose|j: int| 0 <= j < acc@.len() && acc@[j] == x;
                assert(keys.unref()[j] == *keys[j]);
                assert(keys.unref().contains(*keys[j]));
            }
            if is_id_of(x, accounts@.dom()) {
                assert(keys.unref().contains(x as u32));
                let j = choose|j: int| 0 <= j < keys.unref().len() && keys.unref()[j] == x as u32;
                assert(acc@[j] == x);
            }
        }
    }
    acc
}

/// The identifiers of the accounts in the map: ascending, each once.
pub fn keys_sorted(accounts_updated: AccountMap) -> (ids: Vec<u64>)
    ensures
        lists_ascending(ids@, accounts_updated@.dom()),
        ids@.len() == accounts_updated@.dom().len(),
        ids@ == sorted_ids(accounts_updated@.dom()),
{
    let acc = account_ids(&accounts_updated);
    let ids = sort_ascending(acc);
    proof {
        broadcast use vstd::seq_lib::to_multiset_contains, vstd::seq_lib::to_multiset_len;

        acc@.lemma_multiset_has_no_duplicates();
        ids@.lemma_multiset_has_no_duplicates_conv();
        assert forall|x: u64| ids@.contains(x) <==> acc@.contains(x) by {
            assert(ids@.to_multiset().count(x) == acc@.to_multiset().count(x));
        }
        assert(ids@.len() == acc@.len()) by {
            assert(ids@.to_multiset().len() == acc@.to_multiset().len());
        }
        lemma_listing_is_sorted_ids(ids@, accounts_updated@.dom());
    }
    ids
}

/// The identifiers of the accounts in the map, ascending, then `filler` up
/// to `width` entries: the form a deposit batch has on chain.
pub fn sorted_and_padded_for_deposits(accounts_updated: AccountMap, width: usize, filler: u64) -> (batch: Vec<u64>)
    requires
        accounts_updated@.dom().len() <= width,
    ensures
        batch@.len() == width,
        batch@.take(accounts_updated@.dom().len() as int) == sorted_ids(accounts_updated@.dom()),
        forall|i: int| accounts_updated@.dom().len() <= i < width ==> batch@[i] == filler,
        batch@ == padded_ids(accounts_updated@.dom(), width as nat, filler),
{
    let ghost ids = accounts_updated@.dom();
    let mut tmp: Vec<u64> = Vec::new();
    while tmp.len() < width
        invariant
            tmp@.len() <= width,
            forall|i: int| 0 <= i < tmp@.len() ==> tmp@[i] == filler,
        decreases width - tmp.len(),
    {
        tmp.push(filler);
    }
    let acc = keys_sorted(accounts_updated);
    let mut i: usize = 0;
    while i < acc.len()
        invariant
            i <= acc@.len() <= width,
            tmp@.len() == width,
            forall|j: int| 0 <= j < i ==> tmp@[j] == acc@[j],
            forall|j: int| i <= j < width ==> tmp@[j] == filler,
        decreases acc.len() - i,
    {
        tmp.set(i, acc[i]);
        i += 1;
    }
    assert(tmp@.take(ids.len() as int) =~= acc@);
    assert(tmp@ =~= padded_ids(ids, width as nat, filler));
    tmp
}

} // verus!
