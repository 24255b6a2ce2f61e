use colosseum::assets::{add_assets, count_kind, covers, remove_kind, take_assets};
use colosseum::staging::{count_shortfall, stage, stageable};
use colosseum::types::{Asset, ASSET_KINDS};

fn sorted(assets: &[Asset]) -> Vec<usize> {
    let mut keys: Vec<usize> = assets.iter().map(|a| a.index()).collect();
    keys.sort();
    keys
}

#[test]
fn kinds_are_numbered_in_the_order_of_their_declaration() {
    assert_eq!(ASSET_KINDS, 15);
    assert_eq!(Asset::Gladiator.index(), 0);
    assert_eq!(Asset::Joker.index(), 12);
    assert_eq!(Asset::SpecialEvent.index(), 14);
    assert_eq!(Asset::from_index(0), Asset::Gladiator);
    assert_eq!(Asset::from_index(7), Asset::Lion);
    assert_eq!(Asset::from_index(14), Asset::SpecialEvent);
    for i in 0..ASSET_KINDS {
        assert_eq!(Asset::from_index(i).index(), i);
    }
}

#[test]
fn assets_of_a_kind_are_counted() {
    let held = vec![Asset::Lion, Asset::Horse, Asset::Lion, Asset::Joker, Asset::Lion];
    assert_eq!(count_kind(&held, Asset::Lion), 3);
    assert_eq!(count_kind(&held, Asset::Horse), 1);
    assert_eq!(count_kind(&held, Asset::Ship), 0);
    assert_eq!(count_kind(&vec![], Asset::Lion), 0);
}

#[test]
fn bundle_is_covered_when_every_kind_is_held_often_enough() {
    let held = vec![Asset::Lion, Asset::Horse, Asset::Lion];
    assert!(covers(&held, &vec![]));
    assert!(covers(&held, &vec![Asset::Lion]));
    assert!(covers(&held, &vec![Asset::Lion, Asset::Lion, Asset::Horse]));
    assert!(covers(&held, &vec![Asset::Horse, Asset::Lion]));
    assert!(!covers(&held, &vec![Asset::Lion, Asset::Lion, Asset::Lion]));
    assert!(!covers(&held, &vec![Asset::Horse, Asset::Horse]));
    assert!(!covers(&held, &vec![Asset::SpecialEvent]));
    assert!(!covers(&vec![], &vec![Asset::Gladiator]));
    assert!(covers(&vec![], &vec![]));
}

#[test]
fn assets_of_one_kind_are_removed_and_the_rest_stays_in_order() {
    let mut held = vec![Asset::Lion, Asset::Horse, Asset::Lion, Asset::Ship, Asset::Lion];
    remove_kind(&mut held, Asset::Lion, 2);
    assert_eq!(held, vec![Asset::Horse, Asset::Ship, Asset::Lion]);
    remove_kind(&mut held, Asset::Ship, 0);
    assert_eq!(held, vec![Asset::Horse, Asset::Ship, Asset::Lion]);
    remove_kind(&mut held, Asset::Lion, 1);
    assert_eq!(held, vec![Asset::Horse, Asset::Ship]);
}

#[test]
fn bundle_is_taken_out_and_put_in() {
    let mut held = vec![Asset::Cage, Asset::Lion, Asset::Cage, Asset::Torch];
    take_assets(&mut held, &vec![Asset::Torch, Asset::Cage]);
    assert_eq!(held, vec![Asset::Lion, Asset::Cage]);
    add_assets(&mut held, &vec![Asset::Priest, Asset::Lion]);
    assert_eq!(held, vec![Asset::Lion, Asset::Cage, Asset::Priest, Asset::Lion]);
    take_assets(&mut held, &vec![]);
    add_assets(&mut held, &vec![]);
    assert_eq!(held.len(), 4);
    take_assets(&mut held, &vec![Asset::Lion, Asset::Priest, Asset::Cage, Asset::Lion]);
    assert!(held.is_empty());
}

#[test]
fn shortfall_counts_the_slots_that_need_a_joker() {
    let need = vec![Asset::Lion, Asset::Lion, Asset::Horse, Asset::Joker];
    assert_eq!(count_shortfall(&vec![], &need), 3);
    assert_eq!(count_shortfall(&vec![Asset::Lion], &need), 2);
    assert_eq!(count_shortfall(&vec![Asset::Lion, Asset::Horse, Asset::Horse], &need), 1);
    assert_eq!(count_shortfall(&vec![Asset::Lion, Asset::Lion, Asset::Horse], &need), 0);
    assert_eq!(count_shortfall(&vec![Asset::Joker, Asset::Joker], &need), 3);
    assert_eq!(count_shortfall(&vec![Asset::Ship], &vec![]), 0);
}

#[test]
fn jokers_fill_any_slot_and_their_own() {
    let need = vec![Asset::Lion, Asset::Lion, Asset::Horse, Asset::Joker];
    assert!(stageable(&vec![Asset::Lion, Asset::Lion, Asset::Horse, Asset::Joker], &need));
    assert!(!stageable(&vec![Asset::Lion, Asset::Lion, Asset::Horse], &need));
    assert!(stageable(&vec![Asset::Joker, Asset::Joker, Asset::Joker, Asset::Joker], &need));
    assert!(!stageable(&vec![Asset::Joker, Asset::Joker, Asset::Joker], &need));
    assert!(stageable(&vec![Asset::Lion, Asset::Joker, Asset::Joker, Asset::Horse], &need));
    assert!(!stageable(&vec![Asset::Lion, Asset::Joker, Asset::Ship, Asset::Horse], &need));
    assert!(stageable(&vec![], &vec![]));
    assert!(!stageable(&vec![], &vec![Asset::Joker]));
}

#[test]
fn staging_takes_the_kinds_held_and_jokers_for_the_rest() {
    let need = vec![Asset::Lion, Asset::Lion, Asset::Horse, Asset::Joker];
    let mut held = vec![
        Asset::Joker,
        Asset::Lion,
        Asset::Ship,
        Asset::Joker,
        Asset::Horse,
        Asset::Horse,
        Asset::Joker,
    ];
    stage(&mut held, &need);
    assert_eq!(sorted(&held), sorted(&[Asset::Ship, Asset::Horse, Asset::Joker]));
    let mut exact = vec![Asset::Horse, Asset::Lion, Asset::Joker, Asset::Lion];
    stage(&mut exact, &need);
    assert!(exact.is_empty());
    let mut untouched = vec![Asset::Emperor, Asset::Joker];
    stage(&mut untouched, &vec![]);
    assert_eq!(untouched, vec![Asset::Emperor, Asset::Joker]);
}
