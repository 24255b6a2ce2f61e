//! Staging an event: filling its required slots from a player's assets, a
//! joker standing in wherever the kind itself is missing.

use vstd::prelude::*;
use vstd::multiset::Multiset;
use crate::assets::{copies, count_kind, holdings, lemma_copies_count, remove_kind};
use crate::types::{Asset, ASSET_KINDS};

verus! {

/// Slots of `need` that `have` cannot fill in kind, over the kinds before
/// position `upto`, jokers left aside.
pub open spec fn shortfall_upto(have: Multiset<Asset>, need: Multiset<Asset>, upto: nat) -> nat
    decreases upto,
{
    if upto == 0 {
        0
    } else {
        let kind = Asset::spec_from_index((upto - 1) as nat);
        let rest = shortfall_upto(have, need, (upto - 1) as nat);
        if kind != Asset::Joker && need.count(kind) > have.count(kind) {
            rest + (need.count(kind) - have.count(kind)) as nat
        } else {
            rest
        }
    }
}

/// Slots of `need` that only a joker can fill.
pub open spec fn shortfall(have: Multiset<Asset>, need: Multiset<Asset>) -> nat {
    shortfall_upto(have, need, ASSET_KINDS as nat)
}

/// Whether `have` can stage an event that requires `need`: each slot is
/// filled in kind, or by a joker.
pub open spec fn can_stage(have: Multiset<Asset>, need: Multiset<Asset>) -> bool {
    need.count(Asset::Joker) + shortfall(have, need) <= have.count(Asset::Joker)
}

/// What is left of `have` after staging: the required assets are gone as far
/// as they were held, and a joker for each slot that was not.
pub open spec fn after_staging(have: Multiset<Asset>, need: Multiset<Asset>) -> Multiset<Asset> {
    have.sub(need).sub(copies(Asset::Joker, shortfall(have, need)))
}


/// Counts the slots of `need` that only a joker can fill.
pub fn count_shortfall(have: &Vec<Asset>, need: &Vec<Asset>) -> (n: u128)
    ensures
        n == shortfall(holdings(have@), holdings(need@)),
        n <= ASSET_KINDS * usize::MAX,
{
    let mut n: u128 = 0;
    let mut i: usize = 0;
    while i < ASSET_KINDS
        invariant
            i <= ASSET_KINDS,
            n == shortfall_upto(holdings(have@), holdings(need@), i as nat),
            n <= i * usize::MAX,
        decreases ASSET_KINDS - i,
    {
        let kind = Asset::from_index(i);
        let wanted = count_kind(need, kind);
        let held = count_kind(have, kind);
        if kind != Asset::Joker && wanted > held {
            n = n + (wanted - held) as u128;
        }
        i = i + 1;
    }
    n
}

/// Whether the assets can stage an event with these requirements.
pub fn stageable(have: &Vec<Asset>, need: &Vec<Asset>) -> (b: bool)
    ensures
        b == can_stage(holdings(have@), holdings(need@)),
{
    let missing = count_shortfall(have, need);
    let wanted = count_kind(need, Asset::Joker);
    let held = count_kind(have, Asset::Joker);
    wanted as u128 + missing <= held as u128
}

/// Takes out of `have` what staging consumes.
pub fn stage(have: &mut Vec<Asset>, need: &Vec<Asset>)
    requires
        can_stage(holdings(old(have)@), holdings(need@)),
    ensures
        holdings(final(have)@) == after_staging(holdings(old(have)@), holdings(need@)),
{
    let missing = count_shortfall(have, need);
    let ghost before = holdings(have@);
    let ghost wanted = holdings(need@);
    let mut i: usize = 0;
    while i < ASSET_KINDS
        invariant
            i <= ASSET_KINDS,
            can_stage(before, wanted),
            wanted == holdings(need@),
            missing == shortfall(before, wanted),
            forall|k: Asset|
                #[trigger] holdings(have@).count(k) == if k.spec_index() < i && k != Asset::Joker {
                    before.sub(wanted).count(k)
                } else {
                    before.count(k)
                },
        decreases ASSET_KINDS - i,
    {
        let kind = Asset::from_index(i);
        if kind != Asset::Joker {
            let asked = count_kind(need, kind);
            let held = count_kind(have, kind);
            let gone = if asked < held {
                asked
            } else {
                held
            };
            let ghost mid = holdings(have@);
            remove_kind(have, kind, gone);
            proof {
                lemma_copies_count(kind, gone as nat);
                kind.lemma_index_round_trip();
                assert(mid.count(kind) == before.count(kind));
                assert forall|k: Asset|
                    #[trigger] holdings(have@).count(k) == if k.spec_index() < i + 1 && k
                        != Asset::Joker {
                        before.sub(wanted).count(k)
                    } else {
                        before.count(k)
                    } by {
                    k.lemma_index_round_trip();
                    assert(holdings(have@).count(k) == mid.sub(copies(kind, gone as nat)).count(
                        k,
                    ));
                    assert(mid.count(k) == if k.spec_index() < i && k != Asset::Joker {
                        before.sub(wanted).count(k)
                    } else {
                        before.count(k)
                    });
                }
            }
        } else {
            proof {
                assert forall|k: Asset|
                    #[trigger] holdings(have@).count(k) == if k.spec_index() < i + 1 && k
                        != Asset::Joker {
                        before.sub(wanted).count(k)
                    } else {
                        before.count(k)
                    } by {
                    k.lemma_index_round_trip();
                }
            }
        }
        i = i + 1;
    }
    let held = count_kind(have, Asset::Joker);
    proof {
        assert(held == before.count(Asset::Joker));
    }
    let jokers = count_kind(need, Asset::Joker) + missing as usize;
    let ghost mid = holdings(have@);
    remove_kind(have, Asset::Joker, jokers);
    proof {
        lemma_copies_count(Asset::Joker, jokers as nat);
        lemma_copies_count(Asset::Joker, missing as nat);
        assert forall|k: Asset|
            #[trigger] holdings(have@).count(k) == after_staging(before, wanted).count(k) by {
            k.lemma_index_round_trip();
            assert(holdings(have@).count(k) == mid.sub(copies(Asset::Joker, jokers as nat)).count(
                k,
            ));
            assert(mid.count(k) == if k != Asset::Joker {
                before.sub(wanted).count(k)
            } else {
                before.count(k)
            });
        }
        assert(holdings(have@) =~= after_staging(before, wanted));
    }
}

} // verus!
