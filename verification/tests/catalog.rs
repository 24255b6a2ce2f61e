use colosseum::catalog::{decimal_text, parse_requirements, CatalogLoadError};
use colosseum::lookup::{count_completions, event_position, find_contender, has_id, seat_after};
use colosseum::producing::penalty_at;
use colosseum::types::{Asset, Event, PlayerState, ASSET_KINDS};

fn event(size: u8, requirements: Vec<Asset>, penalty_scores: Vec<u8>) -> Event {
    Event {
        id: 3,
        name: String::from("Chariot Race"),
        cost: 12,
        base_score: 9,
        size,
        requirements,
        penalty_scores,
    }
}

#[test]
fn size_is_shown_as_brackets() {
    assert_eq!(event(0, vec![], vec![]).format_size(), "[]");
    assert_eq!(event(1, vec![], vec![]).format_size(), "[=]");
    assert_eq!(event(2, vec![], vec![]).format_size(), "[==]");
    assert_eq!(event(3, vec![], vec![]).format_size(), "[???]");
    assert_eq!(event(255, vec![], vec![]).format_size(), "[???]");
}

#[test]
fn penalties_are_listed_with_commas() {
    assert_eq!(event(0, vec![], vec![]).format_penalties(), "");
    assert_eq!(event(0, vec![], vec![3]).format_penalties(), "3");
    assert_eq!(event(0, vec![], vec![3, 10, 255, 0]).format_penalties(), "3, 10, 255, 0");
}

#[test]
fn requirements_are_counted_and_listed_by_name() {
    assert_eq!(event(0, vec![], vec![]).format_requirements(), "");
    assert_eq!(event(0, vec![Asset::Lion], vec![]).format_requirements(), "Lion: 1");
    assert_eq!(
        event(0, vec![Asset::Lion, Asset::Gladiator, Asset::Lion], vec![]).format_requirements(),
        "Gladiator: 1, Lion: 2"
    );
    let mut all = Vec::new();
    for i in 0..ASSET_KINDS {
        all.push(Asset::from_index(i));
    }
    for _ in 0..11 {
        all.push(Asset::Torch);
    }
    assert_eq!(
        event(0, all, vec![]).format_requirements(),
        "Cage: 1, Chariot: 1, Comedian: 1, Decoration: 1, Emperor: 1, Gladiator: 1, Horse: 1, \
         Joker: 1, Lion: 1, Musician: 1, Priest: 1, Scenery: 1, Ship: 1, SpecialEvent: 1, \
         Torch: 12"
    );
}

#[test]
fn listing_is_in_the_order_of_the_sorted_items() {
    let kinds: Vec<Asset> = (0..ASSET_KINDS).map(Asset::in_alphabet).collect();
    let mut items: Vec<String> = kinds.iter().map(|k| format!("{}: 1", k.name())).collect();
    let listed = items.clone();
    items.sort();
    assert_eq!(listed, items);
    let mut indices: Vec<usize> = kinds.iter().map(|k| k.index()).collect();
    indices.sort();
    assert_eq!(indices, (0..ASSET_KINDS).collect::<Vec<usize>>());
}

#[test]
fn numbers_are_written_in_decimal() {
    assert_eq!(decimal_text(0), "0");
    assert_eq!(decimal_text(7), "7");
    assert_eq!(decimal_text(10), "10");
    assert_eq!(decimal_text(109), "109");
    assert_eq!(decimal_text(1234567890), "1234567890");
    assert_eq!(decimal_text(u64::MAX), "18446744073709551615");
}

#[test]
fn kinds_are_found_by_their_names() {
    assert_eq!(Asset::Gladiator.name(), "Gladiator");
    assert_eq!(Asset::SpecialEvent.name(), "SpecialEvent");
    for i in 0..ASSET_KINDS {
        let kind = Asset::from_index(i);
        assert_eq!(format!("{:?}", kind), kind.name());
        assert_eq!(Asset::from_name(&String::from(kind.name())), Some(kind));
    }
    assert_eq!(Asset::from_name(&String::from("lion")), None);
    assert_eq!(Asset::from_name(&String::from("Lion ")), None);
    assert_eq!(Asset::from_name(&String::from("")), None);
    assert_eq!(Asset::from_name(&String::from("Elephant")), None);
}

#[test]
fn requirements_are_read_from_names() {
    let names = vec![String::from("Ship"), String::from("Joker"), String::from("Ship")];
    assert_eq!(parse_requirements(&names), Ok(vec![Asset::Ship, Asset::Joker, Asset::Ship]));
    assert_eq!(parse_requirements(&vec![]), Ok(vec![]));
    let bad = vec![
        String::from("Ship"),
        String::from("Boat"),
        String::from("Raft"),
    ];
    assert_eq!(parse_requirements(&bad), Err(CatalogLoadError::UnknownAsset { position: 1 }));
}

#[test]
fn ids_are_looked_up_in_lists_and_in_the_catalog() {
    assert!(has_id(&vec![4, 9, 2], 9));
    assert!(!has_id(&vec![4, 9, 2], 3));
    assert!(!has_id(&vec![], 0));
    let mut first = event(0, vec![], vec![]);
    first.id = 8;
    let mut second = event(1, vec![], vec![]);
    second.id = 3;
    let mut third = event(2, vec![], vec![]);
    third.id = 8;
    let catalog = vec![first, second, third];
    assert_eq!(event_position(&catalog, 8), Some(0));
    assert_eq!(event_position(&catalog, 3), Some(1));
    assert_eq!(event_position(&catalog, 0), None);
    assert_eq!(event_position(&vec![], 8), None);
}

#[test]
fn completions_are_counted_over_the_players() {
    let mut players = vec![
        PlayerState::new(String::from("A")),
        PlayerState::new(String::from("B")),
        PlayerState::new(String::from("C")),
    ];
    assert_eq!(count_completions(&players, 5), 0);
    players[0].completed = vec![1, 5];
    players[2].completed = vec![5];
    assert_eq!(count_completions(&players, 5), 2);
    assert_eq!(count_completions(&players, 1), 1);
    assert_eq!(count_completions(&vec![], 1), 0);
}

#[test]
fn penalty_is_that_of_the_rank_among_the_completers() {
    let shown = event(0, vec![], vec![2, 4, 9]);
    assert_eq!(penalty_at(&shown, 0), 0);
    assert_eq!(penalty_at(&shown, 1), 2);
    assert_eq!(penalty_at(&shown, 2), 4);
    assert_eq!(penalty_at(&shown, 3), 9);
    assert_eq!(penalty_at(&shown, 4), 0);
    assert_eq!(penalty_at(&event(0, vec![], vec![]), 1), 0);
}

#[test]
fn seats_follow_each_other_round_the_table() {
    assert_eq!(seat_after(3, 0), 1);
    assert_eq!(seat_after(3, 1), 2);
    assert_eq!(seat_after(3, 2), 0);
    assert_eq!(seat_after(5, 4), 0);
    assert_eq!(find_contender(&vec![false, false, false], 0, 0), Some(1));
    assert_eq!(find_contender(&vec![false, true, false], 0, 0), Some(2));
    assert_eq!(find_contender(&vec![false, true, false], 1, 2), Some(0));
    assert_eq!(find_contender(&vec![false, true, true], 2, 0), None);
    assert_eq!(find_contender(&vec![false, true, false, false, true], 3, 2), Some(0));
    assert_eq!(find_contender(&vec![true, true, false, false, true], 3, 2), None);
    assert_eq!(find_contender(&vec![false], 0, 5), None);
}
