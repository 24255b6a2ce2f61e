use colosseum::game_state::{GameState, Phase, Trade};
use colosseum::types::{Asset, PlayerState};
use colosseum::validity::{all_distinct, nobles_on_track, none_passed};

fn open_auction() -> GameState {
    let mut state = GameState::new(3);
    state.market = vec![vec![Asset::Lion]];
    state.phase = Phase::Acquiring {
        active_player: 1,
        current_batch: 0,
        current_bidder: Some(0),
        current_bid: 3,
        opener: 0,
        passed: vec![false, false, true],
    };
    state
}

#[test]
fn new_game_is_valid_for_three_to_five() {
    assert!(GameState::new(3).is_valid());
    assert!(GameState::new(4).is_valid());
    assert!(GameState::new(5).is_valid());
}

#[test]
fn number_of_players_is_checked() {
    let mut state = GameState::new(3);
    state.players.pop();
    assert!(!state.is_valid());
    let mut state = GameState::new(5);
    state.players.push(PlayerState::new(String::from("Sixth")));
    assert!(!state.is_valid());
}

#[test]
fn seats_of_the_state_must_exist() {
    let mut state = GameState::new(3);
    state.first_player = 3;
    assert!(!state.is_valid());
    state.first_player = 2;
    assert!(state.is_valid());
    state.phase = Phase::Investing { active_player: 3 };
    assert!(!state.is_valid());
    state.phase = Phase::Producing { active_player: 3, moved: false };
    assert!(!state.is_valid());
    state.phase = Phase::Producing { active_player: 2, moved: true };
    assert!(state.is_valid());
    state.phase = Phase::Trading { active_player: 4, pending_trade: None };
    assert!(!state.is_valid());
}

#[test]
fn round_is_between_one_and_the_limit() {
    let mut state = GameState::new(3);
    state.current_round = 0;
    assert!(!state.is_valid());
    state.current_round = 5;
    assert!(state.is_valid());
    state.current_round = 6;
    assert!(!state.is_valid());
}

#[test]
fn coins_of_players_and_bank_fit_the_counter() {
    let mut state = GameState::new(3);
    state.bank = u32::MAX - 90;
    assert!(state.is_valid());
    state.bank = u32::MAX - 89;
    assert!(!state.is_valid());
    state.bank = 0;
    state.players[0].coins = u32::MAX - 60;
    assert!(state.is_valid());
    state.players[1].coins = 31;
    assert!(!state.is_valid());
}

#[test]
fn pools_and_holdings_fit_a_byte() {
    let mut state = GameState::new(3);
    state.players[1].medals = 237;
    assert!(state.is_valid());
    state.players[1].medals = 238;
    assert!(!state.is_valid());
    state.players[1].medals = 0;
    state.players[2].season_tickets = 245;
    assert!(state.is_valid());
    state.players[2].season_tickets = 246;
    assert!(!state.is_valid());
}

#[test]
fn arena_is_no_higher_than_its_highest_level() {
    let mut state = GameState::new(3);
    state.players[2].arena_level = 3;
    assert!(state.is_valid());
    state.players[2].arena_level = 4;
    assert!(!state.is_valid());
}

#[test]
fn produced_events_are_listed_once() {
    let mut state = GameState::new(3);
    state.players[0].completed = vec![3, 1, 2];
    assert!(state.is_valid());
    state.players[0].completed = vec![3, 1, 3];
    assert!(!state.is_valid());
    assert!(all_distinct(&vec![]));
    assert!(all_distinct(&vec![7]));
    assert!(all_distinct(&vec![0, 255, 1, 254]));
    assert!(!all_distinct(&vec![0, 255, 1, 255]));
    assert!(!all_distinct(&vec![4, 4]));
}

#[test]
fn score_leaves_room_for_what_can_still_be_earned() {
    let mut state = GameState::new(3);
    state.available_medals = 0;
    state.players[0].score = u32::MAX - 255 * 256;
    assert!(state.is_valid());
    state.players[0].score = u32::MAX - 255 * 256 + 1;
    assert!(!state.is_valid());
    state.players[0].completed = vec![9];
    state.players[0].score = u32::MAX - 255 * 255;
    assert!(state.is_valid());
    state.players[0].medals = 1;
    assert!(!state.is_valid());
    state.players[0].score = u32::MAX - 255 * 255 - 3;
    assert!(state.is_valid());
    state.available_medals = 1;
    assert!(!state.is_valid());
}

#[test]
fn nobles_stand_on_the_track() {
    let mut state = GameState::new(3);
    state.board.nobles[4].position = 35;
    assert!(state.is_valid());
    assert!(nobles_on_track(&state.board.nobles));
    state.board.nobles[4].position = 36;
    assert!(!state.is_valid());
    assert!(!nobles_on_track(&state.board.nobles));
    state.board.nobles.clear();
    assert!(state.is_valid());
}

#[test]
fn closed_auction_has_no_bid_and_no_pass() {
    let mut state = GameState::new(3);
    state.phase = Phase::Acquiring {
        active_player: 1,
        current_batch: 0,
        current_bidder: None,
        current_bid: 0,
        opener: 1,
        passed: vec![false, false, false],
    };
    assert!(state.is_valid());
    state.phase = Phase::Acquiring {
        active_player: 1,
        current_batch: 0,
        current_bidder: None,
        current_bid: 0,
        opener: 1,
        passed: vec![false, false, true],
    };
    assert!(!state.is_valid());
    state.phase = Phase::Acquiring {
        active_player: 1,
        current_batch: 0,
        current_bidder: None,
        current_bid: 1,
        opener: 1,
        passed: vec![false, false, false],
    };
    assert!(!state.is_valid());
    state.phase = Phase::Acquiring {
        active_player: 2,
        current_batch: 0,
        current_bidder: None,
        current_bid: 0,
        opener: 1,
        passed: vec![false, false, false],
    };
    assert!(!state.is_valid());
    state.phase = Phase::Acquiring {
        active_player: 1,
        current_batch: 0,
        current_bidder: None,
        current_bid: 0,
        opener: 1,
        passed: vec![false, false],
    };
    assert!(!state.is_valid());
    assert!(none_passed(&vec![]));
    assert!(none_passed(&vec![false, false]));
    assert!(!none_passed(&vec![false, true]));
}

#[test]
fn open_auction_has_a_bidder_who_can_pay_and_has_not_passed() {
    assert!(open_auction().is_valid());
    let mut state = open_auction();
    state.players[0].coins = 2;
    assert!(!state.is_valid());
    let mut state = open_auction();
    state.market.clear();
    assert!(!state.is_valid());
    let mut state = open_auction();
    if let Phase::Acquiring { passed, .. } = &mut state.phase {
        passed[0] = true;
    }
    assert!(!state.is_valid());
    let mut state = open_auction();
    if let Phase::Acquiring { passed, .. } = &mut state.phase {
        passed[1] = true;
    }
    assert!(!state.is_valid());
    let mut state = open_auction();
    if let Phase::Acquiring { active_player, .. } = &mut state.phase {
        *active_player = 0;
    }
    assert!(!state.is_valid());
    let mut state = open_auction();
    if let Phase::Acquiring { current_bid, .. } = &mut state.phase {
        *current_bid = 0;
    }
    assert!(!state.is_valid());
    let mut state = open_auction();
    if let Phase::Acquiring { current_bidder, .. } = &mut state.phase {
        *current_bidder = Some(3);
    }
    assert!(!state.is_valid());
}

#[test]
fn pending_trade_is_between_the_active_player_and_another() {
    let trade = |proposer_id: u8, target_id: u8| Trade {
        proposer_id,
        target_id,
        assets_given: vec![],
        money_given: 0,
        assets_received: vec![],
        money_received: 0,
    };
    let mut state = GameState::new(3);
    state.phase = Phase::Trading { active_player: 1, pending_trade: Some(trade(1, 2)) };
    assert!(state.is_valid());
    state.phase = Phase::Trading { active_player: 1, pending_trade: Some(trade(0, 2)) };
    assert!(!state.is_valid());
    state.phase = Phase::Trading { active_player: 1, pending_trade: Some(trade(1, 1)) };
    assert!(!state.is_valid());
    state.phase = Phase::Trading { active_player: 1, pending_trade: Some(trade(1, 3)) };
    assert!(!state.is_valid());
    state.phase = Phase::Closing;
    assert!(state.is_valid());
    state.phase = Phase::GameOver;
    assert!(state.is_valid());
}

#[test]
fn player_fits_pools_that_leave_room_in_a_byte() {
    let mut player = PlayerState::new(String::from("Marcus"));
    assert!(player.fits_pools(255, 255));
    player.medals = 1;
    assert!(!player.fits_pools(255, 0));
    assert!(player.fits_pools(254, 0));
    player.season_tickets = 5;
    assert!(player.fits_pools(0, 250));
    assert!(!player.fits_pools(0, 251));
}
