//! Whether an action is legal: the state is read and nothing is changed.

use vstd::prelude::*;
use crate::acquiring::acquiring_legality;
use crate::assets::covers;
use crate::game_state::{GameState, Phase, Trade};
use crate::investing::{
    ARENA_COST_STEP, EXTRA_INVEST_COST, investing_legality, LOGE_COST, TICKET_COST,
};
use crate::lookup::{event_position, has_id, is_taken};
use crate::producing::{MAX_ROLL, producing_legality};
use crate::rules::{legality, MEDAL_COINS};
use crate::staging::stageable;
use crate::trading::{trade_covered, trading_legality};
use crate::types::{Action, ActionError, BOARD_SIZE, MAX_ARENA_LEVEL};

verus! {

/// A result of `check` as `legality` states it: no error, or the error.
pub open spec fn verdict(r: Result<(), ActionError>) -> Option<ActionError> {
    match r {
        Ok(()) => None,
        Err(e) => Some(e),
    }
}

impl GameState {
    /// The seat of the player whom the phase waits for.
    pub fn actor(&self) -> (p: usize)
        requires
            self.wf(),
        ensures
            p == self@.actor(),
            p < self.players@.len(),
    {
        match &self.phase {
            Phase::Investing { active_player } => *active_player as usize,
            Phase::Acquiring { active_player, .. } => *active_player as usize,
            Phase::Trading { active_player, pending_trade } => match pending_trade {
                Some(t) => t.target_id as usize,
                None => *active_player as usize,
            },
            Phase::Producing { active_player, .. } => *active_player as usize,
            Phase::Closing => self.first_player as usize,
            Phase::GameOver => self.first_player as usize,
        }
    }

    fn check_investing(&self, p: usize, action: &Action) -> (r: Result<(), ActionError>)
        requires
            self.wf(),
            p < self.players@.len(),
        ensures
            verdict(r) == investing_legality(self@, p as nat, *action),
    {
        let me = &self.players[p];
        match action {
            Action::PassInvesting => Ok(()),
            Action::BuySeasonTicket => {
                if self.available_tickets == 0 || me.coins < TICKET_COST {
                    Err(ActionError::InsufficientResource)
                } else {
                    Ok(())
                }
            },
            Action::BuildLoge => {
                if me.loge {
                    Err(ActionError::DuplicatePurchase)
                } else if me.coins < LOGE_COST {
                    Err(ActionError::InsufficientResource)
                } else {
                    Ok(())
                }
            },
            Action::BuyEvent { id } => {
                if me.purchased {
                    return Err(ActionError::DuplicatePurchase);
                }
                match event_position(&self.available_events, *id) {
                    None => Err(ActionError::InvalidTarget),
                    Some(i) => {
                        if has_id(&me.events, *id) {
                            Err(ActionError::DuplicatePurchase)
                        } else if me.coins < self.available_events[i].cost as u32 {
                            Err(ActionError::InsufficientResource)
                        } else {
                            Ok(())
                        }
                    },
                }
            },
            Action::ExpandArena { space } => {
                if me.purchased {
                    Err(ActionError::DuplicatePurchase)
                } else if *space >= BOARD_SIZE || me.arena_level >= MAX_ARENA_LEVEL || is_taken(
                    &self.players,
                    *space,
                ) {
                    Err(ActionError::InvalidTarget)
                } else if me.coins < ARENA_COST_STEP * (me.arena_level as u32 + 1) {
                    Err(ActionError::InsufficientResource)
                } else {
                    Ok(())
                }
            },
            Action::ExtraInvestSpecialEvent => {
                if me.purchased {
                    Err(ActionError::DuplicatePurchase)
                } else if me.coins < EXTRA_INVEST_COST {
                    Err(ActionError::InsufficientResource)
                } else {
                    Ok(())
                }
            },
            Action::ExtraInvestTwoMedals => {
                if me.purchased {
                    Err(ActionError::DuplicatePurchase)
                } else if self.available_medals < 2 || me.coins < EXTRA_INVEST_COST {
                    Err(ActionError::InsufficientResource)
                } else {
                    Ok(())
                }
            },
            _ => Err(ActionError::InvalidPhaseForAction),
        }
    }

    fn check_acquiring(&self, action: &Action) -> (r: Result<(), ActionError>)
        requires
            self.wf(),
            self.phase is Acquiring,
        ensures
            verdict(r) == acquiring_legality(self@, *action),
    {
        match &self.phase {
            Phase::Acquiring { active_player, current_bidder, current_bid, .. } => {
                let me = &self.players[*active_player as usize];
                match current_bidder {
                    None => match action {
                        Action::StartBid { batch, bid } => {
                            if *batch as usize >= self.market.len() {
                                Err(ActionError::InvalidTarget)
                            } else if *bid == 0 {
                                Err(ActionError::StaleAuctionBid)
                            } else if me.coins < *bid as u32 {
                                Err(ActionError::InsufficientResource)
                            } else {
                                Ok(())
                            }
                        },
                        Action::PassAcquiring => Ok(()),
                        Action::Bid { .. } => Err(ActionError::StaleAuctionBid),
                        Action::PassBid => Err(ActionError::StaleAuctionBid),
                        _ => Err(ActionError::InvalidPhaseForAction),
                    },
                    Some(_) => match action {
                        Action::Bid { bid } => {
                            if *bid <= *current_bid {
                                Err(ActionError::StaleAuctionBid)
                            } else if me.coins < *bid as u32 {
                                Err(ActionError::InsufficientResource)
                            } else {
                                Ok(())
                            }
                        },
                        Action::PassBid => Ok(()),
                        Action::StartBid { .. } => Err(ActionError::StaleAuctionBid),
                        Action::PassAcquiring => Err(ActionError::NotYourTurn),
                        _ => Err(ActionError::InvalidPhaseForAction),
                    },
                }
            },
            _ => Err(ActionError::InvalidPhaseForAction),
        }
    }

    /// Whether both sides of the trade hold what it moves.
    pub fn trade_is_covered(&self, trade: &Trade) -> (b: bool)
        requires
            trade.proposer_id < self.players@.len(),
            trade.target_id < self.players@.len(),
        ensures
            b == trade_covered(self@, trade@),
    {
        let giver = &self.players[trade.proposer_id as usize];
        let taker = &self.players[trade.target_id as usize];
        covers(&giver.assets, &trade.assets_given) && trade.money_given as u32 <= giver.coins
            && covers(&taker.assets, &trade.assets_received) && trade.money_received as u32
            <= taker.coins
    }

    fn check_trading(&self, action: &Action) -> (r: Result<(), ActionError>)
        requires
            self.wf(),
            self.phase is Trading,
        ensures
            verdict(r) == trading_legality(self@, *action),
    {
        match &self.phase {
            Phase::Trading { active_player, pending_trade } => match pending_trade {
                None => match action {
                    Action::ProposeTrade { player_id, .. } => {
                        if *player_id as usize >= self.players.len() || *player_id
                            == *active_player {
                            Err(ActionError::InvalidTarget)
                        } else {
                            Ok(())
                        }
                    },
                    Action::PassTrading => Ok(()),
                    Action::AcceptTrade => Err(ActionError::InvalidTarget),
                    Action::RejectTrade => Err(ActionError::InvalidTarget),
                    _ => Err(ActionError::InvalidPhaseForAction),
                },
                Some(t) => match action {
                    Action::AcceptTrade => {
                        if self.trade_is_covered(t) {
                            Ok(())
                        } else {
                            Err(ActionError::InsufficientResource)
                        }
                    },
                    Action::RejectTrade => Ok(()),
                    Action::ProposeTrade { .. } => Err(ActionError::NotYourTurn),
                    Action::PassTrading => Err(ActionError::NotYourTurn),
                    _ => Err(ActionError::InvalidPhaseForAction),
                },
            },
            _ => Err(ActionError::InvalidPhaseForAction),
        }
    }

    fn move_is_possible(&self, noble_idx: u8, dice_roll: u8) -> (b: bool)
        ensures
            b == crate::producing::move_exists(self@, noble_idx, dice_roll),
    {
        (noble_idx as usize) < self.board.nobles.len() && 1 <= dice_roll && dice_roll <= MAX_ROLL
    }

    fn check_producing(&self, action: &Action) -> (r: Result<(), ActionError>)
        requires
            self.wf(),
            self.phase is Producing,
        ensures
            verdict(r) == producing_legality(self@, *action),
    {
        match &self.phase {
            Phase::Producing { active_player, moved } => {
                let me = &self.players[*active_player as usize];
                match action {
                    Action::MoveNoble { noble_idx, dice_roll } => {
                        if *moved {
                            Err(ActionError::InvalidPhaseForAction)
                        } else if !self.move_is_possible(*noble_idx, *dice_roll) {
                            Err(ActionError::InvalidTarget)
                        } else {
                            Ok(())
                        }
                    },
                    Action::ExchangeMedalForMove { noble_idx, dice_roll } => {
                        if me.medals == 0 {
                            Err(ActionError::InsufficientResource)
                        } else if !self.move_is_possible(*noble_idx, *dice_roll) {
                            Err(ActionError::InvalidTarget)
                        } else {
                            Ok(())
                        }
                    },
                    Action::ExchangeMedalForPoints => {
                        if me.medals == 0 {
                            Err(ActionError::InsufficientResource)
                        } else {
                            Ok(())
                        }
                    },
                    Action::ProduceEvent { id } => {
                        if has_id(&me.completed, *id) {
                            return Err(ActionError::AlreadyCompleted);
                        }
                        match event_position(&self.available_events, *id) {
                            None => Err(ActionError::InvalidTarget),
                            Some(i) => {
                                if !has_id(&me.events, *id) {
                                    Err(ActionError::InvalidTarget)
                                } else if !stageable(
                                    &me.assets,
                                    &self.available_events[i].requirements,
                                ) {
                                    Err(ActionError::InsufficientResource)
                                } else {
                                    Ok(())
                                }
                            },
                        }
                    },
                    Action::PassProducing => Ok(()),
                    _ => Err(ActionError::InvalidPhaseForAction),
                }
            },
            _ => Err(ActionError::InvalidPhaseForAction),
        }
    }

    /// Says whether the action is legal in this state, and why not if it is
    /// not. Nothing is changed.
    pub fn check(&self, action: &Action) -> (r: Result<(), ActionError>)
        requires
            self.wf(),
        ensures
            verdict(r) == legality(self@, *action),
    {
        if let Phase::GameOver = self.phase {
            return Err(ActionError::InvalidPhaseForAction);
        }
        if let Action::ExchangeMedalForCoins = action {
            let p = self.actor();
            if self.players[p].medals == 0 || self.bank < MEDAL_COINS {
                return Err(ActionError::InsufficientResource);
            } else {
                return Ok(());
            }
        }
        match &self.phase {
            Phase::Investing { active_player } => self.check_investing(
                *active_player as usize,
                action,
            ),
            Phase::Acquiring { .. } => self.check_acquiring(action),
            Phase::Trading { .. } => self.check_trading(action),
            Phase::Producing { .. } => self.check_producing(action),
            _ => Err(ActionError::InvalidPhaseForAction),
        }
    }
}

} // verus!
