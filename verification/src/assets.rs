//! Holdings of assets as multisets, and the operations on them.

use vstd::prelude::*;
use vstd::multiset::Multiset;
use crate::types::{Asset, ASSET_KINDS};

verus! {

/// What a list of assets holds, order forgotten.
pub open spec fn holdings(v: Seq<Asset>) -> Multiset<Asset> {
    v.to_multiset()
}

/// An empty list holds nothing.
pub proof fn lemma_holdings_empty(v: Seq<Asset>)
    requires
        v.len() == 0,
    ensures
        holdings(v) == Multiset::<Asset>::empty(),
{
    broadcast use vstd::seq_lib::group_to_multiset_ensures;
    vstd::multiset::lemma_multiset_empty_len(holdings(v));
    assert(holdings(v) =~= Multiset::<Asset>::empty());
}

/// Counts the assets of one kind.
pub fn count_kind(v: &Vec<Asset>, kind: Asset) -> (n: usize)
    ensures
        n == holdings(v@).count(kind),
{
    let mut n: usize = 0;
    let mut i: usize = 0;
    proof {
        lemma_holdings_empty(v@.take(0));
    }
    while i < v.len()
        invariant
            i <= v.len(),
            n <= i,
            n == holdings(v@.take(i as int)).count(kind),
        decreases v.len() - i,
    {
        proof {
            broadcast use vstd::seq_lib::group_to_multiset_ensures;
            assert(v@.take(i + 1) =~= v@.take(i as int).push(v@[i as int]));
        }
        if v[i] == kind {
            n = n + 1;
        }
        i = i + 1;
    }
    proof {
        assert(v@.take(i as int) =~= v@);
    }
    n
}

/// `n` assets of one kind and nothing else.
pub open spec fn copies(kind: Asset, n: nat) -> Multiset<Asset> {
    Multiset::<Asset>::empty().update(kind, n)
}

/// What `copies` counts for each kind.
pub proof fn lemma_copies_count(kind: Asset, n: nat)
    ensures
        forall|k: Asset| #[trigger] copies(kind, n).count(k) == if k == kind { n } else { 0 },
{
    broadcast use vstd::multiset::group_multiset_properties;
    assert forall|k: Asset| #[trigger] copies(kind, n).count(k) == if k == kind { n } else { 0 } by {
        if k != kind {
            vstd::multiset::lemma_update_different(Multiset::<Asset>::empty(), kind, n, k);
        }
    }
}

/// Whether `have` holds every asset of `need`, each as often as `need` does.
pub fn covers(have: &Vec<Asset>, need: &Vec<Asset>) -> (b: bool)
    ensures
        b == holdings(need@).subset_of(holdings(have@)),
{
    let mut i: usize = 0;
    while i < ASSET_KINDS
        invariant
            i <= ASSET_KINDS,
            forall|k: Asset|
                k.spec_index() < i ==> holdings(need@).count(k) <= #[trigger] holdings(
                    have@,
                ).count(k),
        decreases ASSET_KINDS - i,
    {
        let kind = Asset::from_index(i);
        if count_kind(need, kind) > count_kind(have, kind) {
            return false;
        }
        proof {
            assert forall|k: Asset| k.spec_index() < i + 1 implies holdings(need@).count(k)
                <= #[trigger] holdings(have@).count(k) by {
                k.lemma_index_round_trip();
            }
        }
        i = i + 1;
    }
    proof {
        assert forall|k: Asset|
            holdings(need@).count(k) <= #[trigger] holdings(have@).count(k) by {
            k.lemma_index_round_trip();
        }
    }
    true
}

/// Takes `n` assets of one kind out of a list; the others stay.
pub fn remove_kind(v: &mut Vec<Asset>, kind: Asset, n: usize)
    requires
        n <= holdings(old(v)@).count(kind),
    ensures
        holdings(final(v)@) == holdings(old(v)@).sub(copies(kind, n as nat)),
{
    let mut out: Vec<Asset> = Vec::new();
    let mut removed: usize = 0;
    let mut i: usize = 0;
    proof {
        lemma_holdings_empty(v@.take(0));
        lemma_holdings_empty(out@);
        lemma_copies_count(kind, 0);
        assert(holdings(v@.take(0)) =~= holdings(out@).add(copies(kind, 0)));
    }
    while i < v.len()
        invariant
            i <= v.len(),
            removed <= n,
            removed <= i,
            removed < n ==> removed == holdings(v@.take(i as int)).count(kind),
            holdings(v@.take(i as int)) == holdings(out@).add(copies(kind, removed as nat)),
        decreases v.len() - i,
    {
        let a = v[i];
        proof {
            broadcast use vstd::seq_lib::group_to_multiset_ensures;
            assert(v@.take(i + 1) =~= v@.take(i as int).push(v@[i as int]));
        }
        proof {
            broadcast use vstd::multiset::group_multiset_properties;
            lemma_copies_count(kind, removed as nat);
            lemma_copies_count(kind, (removed + 1) as nat);
        }
        if a == kind && removed < n {
            removed = removed + 1;
            proof {
                assert(holdings(v@.take(i + 1)) =~= holdings(out@).add(
                    copies(kind, removed as nat),
                ));
            }
        } else {
            out.push(a);
            proof {
                assert(holdings(v@.take(i + 1)) =~= holdings(out@).add(
                    copies(kind, removed as nat),
                ));
            }
        }
        i = i + 1;
    }
    proof {
        assert(v@.take(i as int) =~= v@);
        lemma_copies_count(kind, removed as nat);
        assert(removed == n);
        assert(holdings(out@) =~= holdings(v@).sub(copies(kind, n as nat)));
    }
    *v = out;
}

/// Takes a bundle out of a list that covers it.
pub fn take_assets(v: &mut Vec<Asset>, bundle: &Vec<Asset>)
    requires
        holdings(bundle@).subset_of(holdings(old(v)@)),
    ensures
        holdings(final(v)@) == holdings(old(v)@).sub(holdings(bundle@)),
{
    let mut i: usize = 0;
    while i < ASSET_KINDS
        invariant
            i <= ASSET_KINDS,
            holdings(bundle@).subset_of(holdings(old(v)@)),
            forall|k: Asset|
                #[trigger] holdings(v@).count(k) == if k.spec_index() < i {
                    holdings(old(v)@).count(k) - holdings(bundle@).count(k)
                } else {
                    holdings(old(v)@).count(k) as int
                },
        decreases ASSET_KINDS - i,
    {
        let kind = Asset::from_index(i);
        let n = count_kind(bundle, kind);
        let ghost before = holdings(v@);
        remove_kind(v, kind, n);
        proof {
            assert forall|k: Asset|
                #[trigger] holdings(v@).count(k) == if k.spec_index() < i + 1 {
                    holdings(old(v)@).count(k) - holdings(bundle@).count(k)
                } else {
                    holdings(old(v)@).count(k) as int
                } by {
                k.lemma_index_round_trip();
                lemma_copies_count(kind, n as nat);
                assert(holdings(v@).count(k) == before.sub(copies(kind, n as nat)).count(k));
            }
        }
        i = i + 1;
    }
    proof {
        assert(holdings(v@) =~= holdings(old(v)@).sub(holdings(bundle@)));
    }
}

/// Adds a bundle to a list.
pub fn add_assets(v: &mut Vec<Asset>, bundle: &Vec<Asset>)
    ensures
        holdings(final(v)@) == holdings(old(v)@).add(holdings(bundle@)),
{
    let mut i: usize = 0;
    proof {
        lemma_holdings_empty(bundle@.take(0));
        assert(holdings(v@) =~= holdings(old(v)@).add(holdings(bundle@.take(0))));
    }
    while i < bundle.len()
        invariant
            i <= bundle.len(),
            holdings(v@) == holdings(old(v)@).add(holdings(bundle@.take(i as int))),
        decreases bundle.len() - i,
    {
        let ghost before = v@;
        v.push(bundle[i]);
        proof {
            broadcast use vstd::seq_lib::group_to_multiset_ensures;
            assert(bundle@.take(i + 1) =~= bundle@.take(i as int).push(bundle@[i as int]));
            assert(v@ == before.push(bundle@[i as int]));
            assert(holdings(v@) =~= holdings(old(v)@).add(holdings(bundle@.take(i + 1))));
        }
        i = i + 1;
    }
    proof {
        assert(bundle@.take(i as int) =~= bundle@);
    }
}

} // verus!
