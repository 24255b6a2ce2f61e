//! The trading phase: the rules of proposals and their acceptance by the
//! other side, and the code that carries out a legal action.

use vstd::prelude::*;
use crate::assets::{add_assets, take_assets};
use crate::game_state::{GameState, Phase, Trade};
use crate::ledger::lemma_two_players_coins;
use crate::model::{GameView, PhaseView, PlayerView, TradeView};
use crate::types::{Action, ActionError};

verus! {

/// Whether both sides hold what the trade moves.
pub open spec fn trade_covered(s: GameView, t: TradeView) -> bool {
    let giver = s.players[t.proposer_id as int];
    let taker = s.players[t.target_id as int];
    &&& t.assets_given.subset_of(giver.assets)
    &&& t.money_given <= giver.coins
    &&& t.assets_received.subset_of(taker.assets)
    &&& t.money_received <= taker.coins
}

/// The players after the trade: each bundle has changed hands.
pub open spec fn traded(s: GameView, t: TradeView) -> Seq<PlayerView> {
    let giver = s.players[t.proposer_id as int];
    let taker = s.players[t.target_id as int];
    s.players.update(
        t.proposer_id as int,
        PlayerView {
            coins: (giver.coins - t.money_given + t.money_received) as nat,
            assets: giver.assets.sub(t.assets_given).add(t.assets_received),
            ..giver
        },
    ).update(
        t.target_id as int,
        PlayerView {
            coins: (taker.coins - t.money_received + t.money_given) as nat,
            assets: taker.assets.sub(t.assets_received).add(t.assets_given),
            ..taker
        },
    )
}

/// Why `action` may not be taken in the trading phase, if anything. While a
/// trade is pending only its target acts, to accept or to reject.
pub open spec fn trading_legality(s: GameView, action: Action) -> Option<ActionError> {
    match s.phase {
        PhaseView::Trading { active_player, pending_trade } => match pending_trade {
            None => match action {
                Action::ProposeTrade { player_id, .. } => if player_id >= s.seats() || player_id
                    == active_player {
                    Some(ActionError::InvalidTarget)
                } else {
                    None
                },
                Action::PassTrading => None,
                Action::AcceptTrade => Some(ActionError::InvalidTarget),
                Action::RejectTrade => Some(ActionError::InvalidTarget),
                _ => Some(ActionError::InvalidPhaseForAction),
            },
            Some(t) => match action {
                Action::AcceptTrade => if trade_covered(s, t) {
                    None
                } else {
                    Some(ActionError::InsufficientResource)
                },
                Action::RejectTrade => None,
                Action::ProposeTrade { .. } => Some(ActionError::NotYourTurn),
                Action::PassTrading => Some(ActionError::NotYourTurn),
                _ => Some(ActionError::InvalidPhaseForAction),
            },
        },
        _ => Some(ActionError::InvalidPhaseForAction),
    }
}

/// The trade that a proposal of `active_player` describes.
pub open spec fn proposed(active_player: nat, action: Action) -> TradeView {
    match action {
        Action::ProposeTrade {
            player_id,
            assets_given,
            money_given,
            assets_received,
            money_received,
        } => TradeView {
            proposer_id: active_player,
            target_id: player_id as nat,
            assets_given: assets_given@.to_multiset(),
            money_given: money_given as nat,
            assets_received: assets_received@.to_multiset(),
            money_received: money_received as nat,
        },
        _ => arbitrary(),
    }
}

/// The state after a legal `action` in the trading phase.
pub open spec fn trading_effect(s: GameView, action: Action) -> GameView {
    match s.phase {
        PhaseView::Trading { active_player, pending_trade } => {
            let idle = PhaseView::Trading { active_player, pending_trade: None };
            match action {
                Action::ProposeTrade { .. } => GameView {
                    phase: PhaseView::Trading {
                        active_player,
                        pending_trade: Some(proposed(active_player, action)),
                    },
                    ..s
                },
                Action::PassTrading => GameView { phase: s.after_trading_turn(active_player), ..s },
                Action::AcceptTrade => GameView {
                    players: traded(s, pending_trade.unwrap()),
                    phase: idle,
                    ..s
                },
                Action::RejectTrade => GameView { phase: idle, ..s },
                _ => s,
            }
        },
        _ => s,
    }
}


impl GameState {
    /// Lets both bundles of a covered trade change hands.
    pub(crate) fn settle(&mut self, trade: &Trade)
        requires
            old(self).wf(),
            trade.proposer_id < old(self).players@.len(),
            trade.target_id < old(self).players@.len(),
            trade.proposer_id != trade.target_id,
            trade_covered(old(self)@, trade@),
        ensures
            final(self)@ == (crate::model::GameView {
                players: traded(old(self)@, trade@),
                ..old(self)@
            }),
            final(self).phase == old(self).phase,
    {
        let giver = trade.proposer_id as usize;
        let taker = trade.target_id as usize;
        proof {
            lemma_two_players_coins(self@.players, giver as int, taker as int);
        }
        take_assets(&mut self.players[giver].assets, &trade.assets_given);
        add_assets(&mut self.players[giver].assets, &trade.assets_received);
        take_assets(&mut self.players[taker].assets, &trade.assets_received);
        add_assets(&mut self.players[taker].assets, &trade.assets_given);
        self.players[giver].coins = self.players[giver].coins - trade.money_given as u32
            + trade.money_received as u32;
        self.players[taker].coins = self.players[taker].coins - trade.money_received as u32
            + trade.money_given as u32;
        proof {
            assert(self@.players =~= traded(old(self)@, trade@));
        }
    }

    /// Carries out an action of the trading phase that is legal.
    pub(crate) fn trade(&mut self, action: Action)
        requires
            old(self).wf(),
            old(self).phase is Trading,
            trading_legality(old(self)@, action) is None,
        ensures
            final(self)@ == trading_effect(old(self)@, action),
    {
        let mut phase = Phase::Closing;
        core::mem::swap(&mut self.phase, &mut phase);
        match phase {
            Phase::Trading { active_player, pending_trade } => match action {
                Action::ProposeTrade {
                    player_id,
                    assets_given,
                    money_given,
                    assets_received,
                    money_received,
                } => {
                    self.phase = Phase::Trading {
                        active_player,
                        pending_trade: Some(
                            Trade {
                                proposer_id: active_player,
                                target_id: player_id,
                                assets_given,
                                money_given,
                                assets_received,
                                money_received,
                            },
                        ),
                    };
                },
                Action::PassTrading => {
                    self.phase = self.trading_turn_over(active_player);
                },
                Action::AcceptTrade => {
                    let deal = pending_trade.unwrap();
                    self.settle(&deal);
                    self.phase = Phase::Trading { active_player, pending_trade: None };
                },
                Action::RejectTrade => {
                    self.phase = Phase::Trading { active_player, pending_trade: None };
                },
                _ => {
                    self.phase = Phase::Trading { active_player, pending_trade };
                },
            },
            other => {
                self.phase = other;
            },
        }
        proof {
            let want = trading_effect(old(self)@, action);
            assert(self@.players =~= want.players);
            assert(self@ == want);
        }
    }
}

} // verus!
