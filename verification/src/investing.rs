//! The investing phase: its rules, and the code that carries out a legal
//! action.

use vstd::prelude::*;
use crate::game_state::GameState;
use crate::ledger::lemma_total_coins_update;
use crate::lookup::{event_position, find_event, space_taken};
use crate::model::{GameView, PlayerView};
use crate::types::{Action, ActionError, Asset, BOARD_SIZE, MAX_ARENA_LEVEL};

verus! {

/// Coins for each level of the arena that is built: the next level costs
/// this times the number of the level.
pub const ARENA_COST_STEP: u32 = 10;

/// Price of a season ticket.
pub const TICKET_COST: u32 = 10;

/// Price of the loge.
pub const LOGE_COST: u32 = 5;

/// Price of either extra investment.
pub const EXTRA_INVEST_COST: u32 = 6;

/// The price of the arena's next level.
pub open spec fn arena_cost(level: nat) -> nat {
    ARENA_COST_STEP as nat * (level + 1)
}

/// Why player `p` may not take `action` in an investing turn, if anything.
/// A season ticket and the loge are bought beside the one gated purchase
/// (an event, an arena level, an extra investment), which ends the turn.
/// The arena grows onto a space of the track on which no arena stands.
pub open spec fn investing_legality(s: GameView, p: nat, action: Action) -> Option<ActionError> {
    let me = s.players[p as int];
    match action {
        Action::PassInvesting => None,
        Action::BuySeasonTicket => if s.available_tickets == 0 || me.coins < TICKET_COST {
            Some(ActionError::InsufficientResource)
        } else {
            None
        },
        Action::BuildLoge => if me.loge {
            Some(ActionError::DuplicatePurchase)
        } else if me.coins < LOGE_COST {
            Some(ActionError::InsufficientResource)
        } else {
            None
        },
        Action::BuyEvent { id } => if me.purchased {
            Some(ActionError::DuplicatePurchase)
        } else {
            match find_event(s.events, id) {
                None => Some(ActionError::InvalidTarget),
                Some(ev) => if me.events.contains(id) {
                    Some(ActionError::DuplicatePurchase)
                } else if me.coins < ev.cost {
                    Some(ActionError::InsufficientResource)
                } else {
                    None
                },
            }
        },
        Action::ExpandArena { space } => if me.purchased {
            Some(ActionError::DuplicatePurchase)
        } else if space >= BOARD_SIZE || me.arena_level >= MAX_ARENA_LEVEL || space_taken(
            s.players,
            space,
        ) {
            Some(ActionError::InvalidTarget)
        } else if me.coins < arena_cost(me.arena_level) {
            Some(ActionError::InsufficientResource)
        } else {
            None
        },
        Action::ExtraInvestSpecialEvent => if me.purchased {
            Some(ActionError::DuplicatePurchase)
        } else if me.coins < EXTRA_INVEST_COST {
            Some(ActionError::InsufficientResource)
        } else {
            None
        },
        Action::ExtraInvestTwoMedals => if me.purchased {
            Some(ActionError::DuplicatePurchase)
        } else if s.available_medals < 2 || me.coins < EXTRA_INVEST_COST {
            Some(ActionError::InsufficientResource)
        } else {
            None
        },
        _ => Some(ActionError::InvalidPhaseForAction),
    }
}

/// The state after player `p` took a legal `action` in an investing turn.
pub open spec fn investing_effect(s: GameView, p: nat, action: Action) -> GameView {
    let me = s.players[p as int];
    let turn_over = s.after_investing_turn(p);
    match action {
        Action::PassInvesting => GameView { phase: turn_over, ..s },
        Action::BuySeasonTicket => {
            let t = s.paid(p, TICKET_COST as nat);
            GameView {
                available_tickets: (s.available_tickets - 1) as nat,
                ..t.with_player(
                    p,
                    PlayerView { season_tickets: me.season_tickets + 1, ..t.players[p as int] },
                )
            }
        },
        Action::BuildLoge => {
            let t = s.paid(p, LOGE_COST as nat);
            t.with_player(p, PlayerView { loge: true, ..t.players[p as int] })
        },
        Action::BuyEvent { id } => {
            let t = s.paid(p, find_event(s.events, id).unwrap().cost);
            GameView {
                phase: turn_over,
                ..t.with_player(
                    p,
                    PlayerView {
                        purchased: true,
                        events: me.events.push(id),
                        ..t.players[p as int]
                    },
                )
            }
        },
        Action::ExpandArena { space } => {
            let t = s.paid(p, arena_cost(me.arena_level));
            GameView {
                phase: turn_over,
                ..t.with_player(
                    p,
                    PlayerView {
                        purchased: true,
                        arena: me.arena.push(space),
                        arena_level: me.arena_level + 1,
                        ..t.players[p as int]
                    },
                )
            }
        },
        Action::ExtraInvestSpecialEvent => {
            let t = s.paid(p, EXTRA_INVEST_COST as nat);
            GameView {
                phase: turn_over,
                ..t.with_player(
                    p,
                    PlayerView {
                        purchased: true,
                        assets: me.assets.insert(Asset::SpecialEvent),
                        ..t.players[p as int]
                    },
                )
            }
        },
        Action::ExtraInvestTwoMedals => {
            let t = s.paid(p, EXTRA_INVEST_COST as nat);
            GameView {
                phase: turn_over,
                available_medals: (s.available_medals - 2) as nat,
                ..t.with_player(
                    p,
                    PlayerView { purchased: true, medals: me.medals + 2, ..t.players[p as int] },
                )
            }
        },
        _ => s,
    }
}


impl GameState {
    /// Takes `cost` coins from player `p` for the bank.
    pub(crate) fn pay(&mut self, p: usize, cost: u32)
        requires
            old(self).wf(),
            p < old(self).players@.len(),
            cost <= old(self).players@[p as int].coins,
        ensures
            final(self)@ == old(self)@.paid(p as nat, cost as nat),
            final(self).phase == old(self).phase,
            final(self).available_events == old(self).available_events,
            final(self).market == old(self).market,
            final(self).board == old(self).board,
            final(self).first_player == old(self).first_player,
            final(self).players@.len() == old(self).players@.len(),
    {
        proof {
            lemma_total_coins_update(self@.players, p as int, self@.players[p as int]);
        }
        self.players[p].coins = self.players[p].coins - cost;
        self.bank = self.bank + cost;
        proof {
            assert(self@.players =~= old(self)@.paid(p as nat, cost as nat).players);
        }
    }

    /// Carries out an investing action of player `p` that is legal.
    pub(crate) fn invest(&mut self, p: u8, action: &Action)
        requires
            old(self).wf(),
            old(self)@.phase == (crate::model::PhaseView::Investing { active_player: p as nat }),
            investing_legality(old(self)@, p as nat, *action) is None,
        ensures
            final(self)@ == investing_effect(old(self)@, p as nat, *action),
    {
        let seat = p as usize;
        let turn_over = self.investing_turn_over(p);
        match action {
            Action::PassInvesting => {
                self.phase = turn_over;
            },
            Action::BuySeasonTicket => {
                self.pay(seat, TICKET_COST);
                self.players[seat].season_tickets = self.players[seat].season_tickets + 1;
                self.available_tickets = self.available_tickets - 1;
            },
            Action::BuildLoge => {
                self.pay(seat, LOGE_COST);
                self.players[seat].loge = true;
            },
            Action::BuyEvent { id } => {
                let i = event_position(&self.available_events, *id).unwrap();
                let cost = self.available_events[i].cost as u32;
                self.pay(seat, cost);
                self.players[seat].purchased = true;
                self.players[seat].events.push(*id);
                self.phase = turn_over;
            },
            Action::ExpandArena { space } => {
                let cost = ARENA_COST_STEP * (self.players[seat].arena_level as u32 + 1);
                self.pay(seat, cost);
                self.players[seat].purchased = true;
                self.players[seat].arena.push(*space);
                self.players[seat].arena_level = self.players[seat].arena_level + 1;
                self.phase = turn_over;
            },
            Action::ExtraInvestSpecialEvent => {
                self.pay(seat, EXTRA_INVEST_COST);
                self.players[seat].purchased = true;
                self.players[seat].assets.push(Asset::SpecialEvent);
                proof {
                    broadcast use vstd::seq_lib::group_to_multiset_ensures;
                }
                self.phase = turn_over;
            },
            Action::ExtraInvestTwoMedals => {
                self.pay(seat, EXTRA_INVEST_COST);
                self.players[seat].purchased = true;
                self.players[seat].medals = self.players[seat].medals + 2;
                self.available_medals = self.available_medals - 2;
                self.phase = turn_over;
            },
            _ => {},
        }
        proof {
            let want = investing_effect(old(self)@, p as nat, *action);
            assert(self@.players =~= want.players);
            assert(self@ == want);
        }
    }
}

} // verus!
