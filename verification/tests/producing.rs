use colosseum::game_state::{GameState, Phase};
use colosseum::types::{Action, ActionError, Asset, Event, Noble, NobleType};

fn catalog() -> Vec<Event> {
    vec![
        Event {
            id: 1,
            name: String::from("Lion Hunt"),
            cost: 5,
            base_score: 7,
            size: 1,
            requirements: vec![Asset::Lion, Asset::Lion, Asset::Horse],
            penalty_scores: vec![2, 4],
        },
        Event {
            id: 4,
            name: String::from("Farce"),
            cost: 1,
            base_score: 1,
            size: 0,
            requirements: vec![Asset::Comedian, Asset::Joker],
            penalty_scores: vec![5],
        },
    ]
}

fn producing(players: usize) -> GameState {
    let mut state = GameState::new(players);
    state.available_events = catalog();
    for _ in 0..players {
        assert_eq!(state.apply(Action::PassInvesting), Ok(()));
    }
    assert_eq!(state.apply(Action::PassAcquiring), Ok(()));
    for _ in 0..players {
        assert_eq!(state.apply(Action::PassTrading), Ok(()));
    }
    assert_eq!(state.phase, Phase::Producing { active_player: 0, moved: false });
    state
}

fn refused(state: &mut GameState, action: Action, why: ActionError) {
    let before = state.clone();
    assert_eq!(state.check(&action), Err(why));
    assert_eq!(state.apply(action), Err(why));
    assert_eq!(*state, before);
}

fn sorted(assets: &[Asset]) -> Vec<usize> {
    let mut keys: Vec<usize> = assets.iter().map(|a| a.index()).collect();
    keys.sort();
    keys
}

#[test]
fn free_move_is_made_once_in_a_turn() {
    let mut state = producing(3);
    assert_eq!(state.apply(Action::MoveNoble { noble_idx: 0, dice_roll: 1 }), Ok(()));
    assert_eq!(
        state.board.nobles[0],
        Noble { noble_type: NobleType::Emperor, position: 1 }
    );
    assert_eq!(state.phase, Phase::Producing { active_player: 0, moved: true });
    assert_eq!(state.players[0].medals, 0);
    assert_eq!(state.available_medals, 18);
    refused(
        &mut state,
        Action::MoveNoble { noble_idx: 1, dice_roll: 1 },
        ActionError::InvalidPhaseForAction,
    );
    assert_eq!(state.apply(Action::PassProducing), Ok(()));
    assert_eq!(state.phase, Phase::Producing { active_player: 1, moved: false });
    assert_eq!(state.apply(Action::MoveNoble { noble_idx: 0, dice_roll: 2 }), Ok(()));
    assert_eq!(state.board.nobles[0].position, 3);
    assert!(state.is_valid());
}

#[test]
fn move_needs_a_noble_and_a_roll_of_the_die() {
    let mut state = producing(3);
    refused(
        &mut state,
        Action::MoveNoble { noble_idx: 6, dice_roll: 3 },
        ActionError::InvalidTarget,
    );
    refused(
        &mut state,
        Action::MoveNoble { noble_idx: 0, dice_roll: 0 },
        ActionError::InvalidTarget,
    );
    refused(
        &mut state,
        Action::MoveNoble { noble_idx: 0, dice_roll: 7 },
        ActionError::InvalidTarget,
    );
}

#[test]
fn landing_on_a_resting_place_earns_a_medal() {
    let mut state = producing(3);
    assert_eq!(state.apply(Action::MoveNoble { noble_idx: 0, dice_roll: 6 }), Ok(()));
    assert_eq!(state.board.nobles[0].position, 6);
    assert_eq!(state.players[0].medals, 1);
    assert_eq!(state.available_medals, 17);
    assert!(state.is_valid());
}

#[test]
fn track_is_a_circle_of_thirty_six_spaces() {
    let mut state = producing(3);
    assert_eq!(state.apply(Action::MoveNoble { noble_idx: 5, dice_roll: 6 }), Ok(()));
    assert_eq!(
        state.board.nobles[5],
        Noble { noble_type: NobleType::Senator, position: 0 }
    );
    assert_eq!(state.players[0].medals, 1);
    assert_eq!(state.apply(Action::PassProducing), Ok(()));
    state.board.nobles[2].position = 35;
    assert_eq!(state.apply(Action::MoveNoble { noble_idx: 2, dice_roll: 3 }), Ok(()));
    assert_eq!(state.board.nobles[2].position, 2);
    assert_eq!(state.players[1].medals, 0);
}

#[test]
fn no_medal_is_earned_from_an_empty_pool() {
    let mut state = producing(3);
    state.available_medals = 0;
    assert_eq!(state.apply(Action::MoveNoble { noble_idx: 0, dice_roll: 6 }), Ok(()));
    assert_eq!(state.board.nobles[0].position, 6);
    assert_eq!(state.players[0].medals, 0);
    assert_eq!(state.available_medals, 0);
}

#[test]
fn medal_buys_a_further_move() {
    let mut state = producing(3);
    refused(
        &mut state,
        Action::ExchangeMedalForMove { noble_idx: 0, dice_roll: 1 },
        ActionError::InsufficientResource,
    );
    state.players[0].medals = 2;
    state.available_medals = 16;
    refused(
        &mut state,
        Action::ExchangeMedalForMove { noble_idx: 9, dice_roll: 1 },
        ActionError::InvalidTarget,
    );
    refused(
        &mut state,
        Action::ExchangeMedalForMove { noble_idx: 0, dice_roll: 9 },
        ActionError::InvalidTarget,
    );
    assert_eq!(state.apply(Action::ExchangeMedalForMove { noble_idx: 1, dice_roll: 5 }), Ok(()));
    assert_eq!(state.board.nobles[1].position, 17);
    assert_eq!(state.players[0].medals, 1);
    assert_eq!(state.available_medals, 16);
    assert_eq!(state.phase, Phase::Producing { active_player: 0, moved: false });
    assert_eq!(state.apply(Action::ExchangeMedalForMove { noble_idx: 1, dice_roll: 2 }), Ok(()));
    assert_eq!(state.board.nobles[1].position, 19);
    assert_eq!(state.players[0].medals, 1);
    assert_eq!(state.available_medals, 15);
    assert_eq!(state.apply(Action::MoveNoble { noble_idx: 1, dice_roll: 4 }), Ok(()));
    assert_eq!(state.board.nobles[1].position, 23);
    assert!(state.is_valid());
}

#[test]
fn medal_is_worth_three_points() {
    let mut state = producing(3);
    refused(&mut state, Action::ExchangeMedalForPoints, ActionError::InsufficientResource);
    state.players[0].medals = 2;
    state.available_medals = 16;
    assert_eq!(state.apply(Action::ExchangeMedalForPoints), Ok(()));
    assert_eq!(state.players[0].medals, 1);
    assert_eq!(state.players[0].score, 3);
    assert_eq!(state.available_medals, 16);
    assert_eq!(state.apply(Action::ExchangeMedalForPoints), Ok(()));
    assert_eq!(state.players[0].score, 6);
    refused(&mut state, Action::ExchangeMedalForPoints, ActionError::InsufficientResource);
    assert!(state.is_valid());
}

#[test]
fn event_is_produced_from_its_assets_and_jokers() {
    let mut state = producing(3);
    state.players[0].events = vec![4, 1];
    state.players[0].assets =
        vec![Asset::Lion, Asset::Ship, Asset::Horse, Asset::Joker, Asset::Joker];
    assert_eq!(state.apply(Action::ProduceEvent { id: 1 }), Ok(()));
    assert_eq!(sorted(&state.players[0].assets), sorted(&[Asset::Ship, Asset::Joker]));
    assert_eq!(state.players[0].score, 7);
    assert_eq!(state.players[0].completed, vec![1]);
    assert_eq!(state.players[0].events, vec![4, 1]);
    assert_eq!(state.phase, Phase::Producing { active_player: 0, moved: false });
    assert!(state.is_valid());
}

#[test]
fn event_is_produced_once_by_a_player() {
    let mut state = producing(3);
    state.players[0].events = vec![1];
    state.players[0].assets = vec![
        Asset::Lion,
        Asset::Lion,
        Asset::Horse,
        Asset::Lion,
        Asset::Lion,
        Asset::Horse,
    ];
    assert_eq!(state.apply(Action::ProduceEvent { id: 1 }), Ok(()));
    refused(&mut state, Action::ProduceEvent { id: 1 }, ActionError::AlreadyCompleted);
    assert_eq!(state.players[0].score, 7);
    assert_eq!(state.players[0].assets.len(), 3);
}

#[test]
fn event_must_be_known_owned_and_stocked() {
    let mut state = producing(3);
    state.players[0].assets = vec![Asset::Lion, Asset::Lion, Asset::Horse];
    refused(&mut state, Action::ProduceEvent { id: 2 }, ActionError::InvalidTarget);
    refused(&mut state, Action::ProduceEvent { id: 1 }, ActionError::InvalidTarget);
    state.players[0].events = vec![1, 4];
    state.players[0].assets = vec![Asset::Lion, Asset::Horse];
    refused(&mut state, Action::ProduceEvent { id: 1 }, ActionError::InsufficientResource);
    state.players[0].assets = vec![Asset::Comedian];
    refused(&mut state, Action::ProduceEvent { id: 4 }, ActionError::InsufficientResource);
    state.players[0].assets = vec![Asset::Joker];
    refused(&mut state, Action::ProduceEvent { id: 4 }, ActionError::InsufficientResource);
    state.players[0].assets = vec![Asset::Joker, Asset::Joker];
    assert_eq!(state.apply(Action::ProduceEvent { id: 4 }), Ok(()));
    assert!(state.players[0].assets.is_empty());
    assert_eq!(state.players[0].score, 1);
}

#[test]
fn later_completers_take_the_penalty_of_their_rank() {
    let mut state = producing(4);
    for seat in 0..4 {
        state.players[seat].events = vec![1];
        state.players[seat].assets = vec![Asset::Lion, Asset::Horse, Asset::Lion];
    }
    assert_eq!(state.apply(Action::ProduceEvent { id: 1 }), Ok(()));
    assert_eq!(state.apply(Action::PassProducing), Ok(()));
    assert_eq!(state.apply(Action::ProduceEvent { id: 1 }), Ok(()));
    assert_eq!(state.apply(Action::PassProducing), Ok(()));
    assert_eq!(state.apply(Action::ProduceEvent { id: 1 }), Ok(()));
    assert_eq!(state.apply(Action::PassProducing), Ok(()));
    assert_eq!(state.apply(Action::ProduceEvent { id: 1 }), Ok(()));
    assert_eq!(state.players[0].score, 7);
    assert_eq!(state.players[1].score, 5);
    assert_eq!(state.players[2].score, 3);
    assert_eq!(state.players[3].score, 7);
    assert!(state.is_valid());
}

#[test]
fn penalty_never_takes_the_score_below_zero() {
    let mut state = producing(3);
    state.players[0].events = vec![4];
    state.players[0].assets = vec![Asset::Comedian, Asset::Joker];
    state.players[1].events = vec![4];
    state.players[1].assets = vec![Asset::Comedian, Asset::Joker];
    state.players[2].events = vec![4];
    state.players[2].assets = vec![Asset::Comedian, Asset::Joker];
    state.players[2].medals = 4;
    state.available_medals = 14;
    assert_eq!(state.apply(Action::ProduceEvent { id: 4 }), Ok(()));
    assert_eq!(state.players[0].score, 1);
    assert_eq!(state.apply(Action::PassProducing), Ok(()));
    assert_eq!(state.apply(Action::ProduceEvent { id: 4 }), Ok(()));
    assert_eq!(state.players[1].score, 0);
    assert_eq!(state.players[1].completed, vec![4]);
    assert_eq!(state.apply(Action::PassProducing), Ok(()));
    for _ in 0..4 {
        assert_eq!(state.apply(Action::ExchangeMedalForPoints), Ok(()));
    }
    assert_eq!(state.players[2].score, 12);
    assert_eq!(state.apply(Action::ProduceEvent { id: 4 }), Ok(()));
    assert_eq!(state.players[2].score, 13);
}

#[test]
fn passing_goes_round_and_ends_in_closing() {
    let mut state = producing(3);
    assert_eq!(state.apply(Action::PassProducing), Ok(()));
    assert_eq!(state.apply(Action::PassProducing), Ok(()));
    assert_eq!(state.phase, Phase::Producing { active_player: 2, moved: false });
    assert_eq!(state.apply(Action::PassProducing), Ok(()));
    assert_eq!(state.phase, Phase::Closing);
    refused(&mut state, Action::PassProducing, ActionError::InvalidPhaseForAction);
    refused(&mut state, Action::PassInvesting, ActionError::InvalidPhaseForAction);
    refused(
        &mut state,
        Action::DiscardAsset { asset: Asset::Lion },
        ActionError::InvalidPhaseForAction,
    );
    refused(
        &mut state,
        Action::StealAsset { asset: Asset::Lion },
        ActionError::InvalidPhaseForAction,
    );
}
