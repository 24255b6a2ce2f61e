use colosseum::game_state::{GameState, Phase, Trade};
use colosseum::types::{Action, ActionError, Asset};

fn trading(players: usize) -> GameState {
    let mut state = GameState::new(players);
    for _ in 0..players {
        assert_eq!(state.apply(Action::PassInvesting), Ok(()));
    }
    assert_eq!(state.apply(Action::PassAcquiring), Ok(()));
    assert_eq!(state.phase, Phase::Trading { active_player: 0, pending_trade: None });
    state
}

fn refused(state: &mut GameState, action: Action, why: ActionError) {
    let before = state.clone();
    assert_eq!(state.check(&action), Err(why));
    assert_eq!(state.apply(action), Err(why));
    assert_eq!(*state, before);
}

fn offer(target: u8) -> Action {
    Action::ProposeTrade {
        player_id: target,
        assets_given: vec![Asset::Lion],
        money_given: 2,
        assets_received: vec![Asset::Ship],
        money_received: 5,
    }
}

fn sorted(assets: &[Asset]) -> Vec<usize> {
    let mut keys: Vec<usize> = assets.iter().map(|a| a.index()).collect();
    keys.sort();
    keys
}

#[test]
fn trade_needs_another_player_who_exists() {
    let mut state = trading(3);
    refused(&mut state, offer(0), ActionError::InvalidTarget);
    refused(&mut state, offer(3), ActionError::InvalidTarget);
    refused(&mut state, offer(255), ActionError::InvalidTarget);
}

#[test]
fn answer_needs_a_pending_trade() {
    let mut state = trading(3);
    refused(&mut state, Action::AcceptTrade, ActionError::InvalidTarget);
    refused(&mut state, Action::RejectTrade, ActionError::InvalidTarget);
    refused(&mut state, Action::PassBid, ActionError::InvalidPhaseForAction);
    refused(&mut state, Action::PassProducing, ActionError::InvalidPhaseForAction);
}

#[test]
fn proposal_waits_for_the_target() {
    let mut state = trading(3);
    assert_eq!(state.apply(offer(2)), Ok(()));
    assert_eq!(
        state.phase,
        Phase::Trading {
            active_player: 0,
            pending_trade: Some(Trade {
                proposer_id: 0,
                target_id: 2,
                assets_given: vec![Asset::Lion],
                money_given: 2,
                assets_received: vec![Asset::Ship],
                money_received: 5,
            }),
        }
    );
    assert_eq!(state.actor(), 2);
    assert!(state.is_valid());
    refused(&mut state, offer(1), ActionError::NotYourTurn);
    refused(&mut state, Action::PassTrading, ActionError::NotYourTurn);
    refused(&mut state, Action::PassInvesting, ActionError::InvalidPhaseForAction);
}

#[test]
fn trade_that_is_not_covered_is_refused_and_stays_pending() {
    let mut state = trading(3);
    assert_eq!(state.apply(offer(1)), Ok(()));
    refused(&mut state, Action::AcceptTrade, ActionError::InsufficientResource);
    state.players[0].assets = vec![Asset::Lion];
    refused(&mut state, Action::AcceptTrade, ActionError::InsufficientResource);
    state.players[1].assets = vec![Asset::Ship];
    state.players[1].coins = 4;
    state.bank = 126;
    refused(&mut state, Action::AcceptTrade, ActionError::InsufficientResource);
    state.players[1].coins = 5;
    state.bank = 125;
    state.players[0].coins = 1;
    state.bank = 154;
    refused(&mut state, Action::AcceptTrade, ActionError::InsufficientResource);
    state.players[0].coins = 2;
    state.bank = 153;
    assert_eq!(state.apply(Action::AcceptTrade), Ok(()));
    assert_eq!(state.players[0].coins, 5);
    assert_eq!(state.players[1].coins, 2);
}

#[test]
fn accepted_trade_moves_both_bundles() {
    let mut state = trading(3);
    state.players[0].assets = vec![Asset::Lion, Asset::Horse, Asset::Lion];
    state.players[1].assets = vec![Asset::Ship, Asset::Torch];
    assert_eq!(state.apply(offer(1)), Ok(()));
    assert_eq!(state.apply(Action::AcceptTrade), Ok(()));
    assert_eq!(state.players[0].coins, 33);
    assert_eq!(state.players[1].coins, 27);
    assert_eq!(state.players[2].coins, 30);
    assert_eq!(
        sorted(&state.players[0].assets),
        sorted(&[Asset::Horse, Asset::Lion, Asset::Ship])
    );
    assert_eq!(sorted(&state.players[1].assets), sorted(&[Asset::Torch, Asset::Lion]));
    assert!(state.players[2].assets.is_empty());
    assert_eq!(state.bank, 100);
    assert_eq!(state.phase, Phase::Trading { active_player: 0, pending_trade: None });
    assert!(state.is_valid());
}

#[test]
fn trade_of_several_assets_of_one_kind_needs_them_all() {
    let mut state = trading(3);
    state.players[0].assets = vec![Asset::Cage, Asset::Joker, Asset::Cage];
    state.players[2].assets = vec![Asset::Emperor];
    let wanted = Action::ProposeTrade {
        player_id: 2,
        assets_given: vec![Asset::Cage, Asset::Cage, Asset::Cage],
        money_given: 0,
        assets_received: vec![],
        money_received: 0,
    };
    assert_eq!(state.apply(wanted), Ok(()));
    refused(&mut state, Action::AcceptTrade, ActionError::InsufficientResource);
    assert_eq!(state.apply(Action::RejectTrade), Ok(()));
    let fair = Action::ProposeTrade {
        player_id: 2,
        assets_given: vec![Asset::Cage, Asset::Cage],
        money_given: 0,
        assets_received: vec![Asset::Emperor],
        money_received: 30,
    };
    assert_eq!(state.apply(fair), Ok(()));
    assert_eq!(state.apply(Action::AcceptTrade), Ok(()));
    assert_eq!(sorted(&state.players[0].assets), sorted(&[Asset::Joker, Asset::Emperor]));
    assert_eq!(state.players[2].assets, vec![Asset::Cage, Asset::Cage]);
    assert_eq!(state.players[0].coins, 60);
    assert_eq!(state.players[2].coins, 0);
}

#[test]
fn rejected_trade_changes_nothing_but_the_phase() {
    let mut state = trading(3);
    state.players[0].assets = vec![Asset::Lion];
    state.players[1].assets = vec![Asset::Ship];
    let before = state.clone();
    assert_eq!(state.apply(offer(1)), Ok(()));
    assert_eq!(state.apply(Action::RejectTrade), Ok(()));
    assert_eq!(state, before);
}

#[test]
fn passing_goes_round_and_opens_producing() {
    let mut state = trading(3);
    assert_eq!(state.apply(Action::PassTrading), Ok(()));
    assert_eq!(state.phase, Phase::Trading { active_player: 1, pending_trade: None });
    assert_eq!(state.apply(offer(0)), Ok(()));
    assert_eq!(state.actor(), 0);
    assert_eq!(state.apply(Action::RejectTrade), Ok(()));
    assert_eq!(state.apply(Action::PassTrading), Ok(()));
    assert_eq!(state.phase, Phase::Trading { active_player: 2, pending_trade: None });
    assert_eq!(state.apply(Action::PassTrading), Ok(()));
    assert_eq!(state.phase, Phase::Producing { active_player: 0, moved: false });
}
