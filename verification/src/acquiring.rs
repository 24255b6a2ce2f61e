//! The acquiring phase: the rules of the auctions of the market's batches,
//! and the code that carries out a legal action.

use vstd::prelude::*;
use crate::assets::add_assets;
use crate::game_state::{GameState, Phase};
use crate::lookup::{find_contender, next_contender};
use crate::model::{GameView, PhaseView, PlayerView};
use crate::types::{Action, ActionError};

verus! {

/// The state after the standing bidder `winner` is awarded the batch at
/// `price`: the coins go to the bank, the assets to the winner, the batch
/// leaves the market, and the next opener is on.
pub open spec fn awarded(s: GameView, winner: nat, batch: nat, price: nat, opener: nat) -> GameView {
    let t = s.paid(winner, price);
    let sold = GameView {
        market: s.market.remove(batch as int),
        ..t.with_player(
            winner,
            PlayerView {
                assets: s.players[winner as int].assets.add(s.market[batch as int]),
                ..t.players[winner as int]
            },
        )
    };
    GameView { phase: sold.after_auction(opener), ..sold }
}

/// Why the active player may not take `action` in the acquiring phase, if
/// anything.
pub open spec fn acquiring_legality(s: GameView, action: Action) -> Option<ActionError> {
    match s.phase {
        PhaseView::Acquiring { active_player, current_bidder, current_bid, .. } => {
            let me = s.players[active_player as int];
            match current_bidder {
                None => match action {
                    Action::StartBid { batch, bid } => if batch >= s.market.len() {
                        Some(ActionError::InvalidTarget)
                    } else if bid == 0 {
                        Some(ActionError::StaleAuctionBid)
                    } else if me.coins < bid {
                        Some(ActionError::InsufficientResource)
                    } else {
                        None
                    },
                    Action::PassAcquiring => None,
                    Action::Bid { .. } => Some(ActionError::StaleAuctionBid),
                    Action::PassBid => Some(ActionError::StaleAuctionBid),
                    _ => Some(ActionError::InvalidPhaseForAction),
                },
                Some(_) => match action {
                    Action::Bid { bid } => if bid <= current_bid {
                        Some(ActionError::StaleAuctionBid)
                    } else if me.coins < bid {
                        Some(ActionError::InsufficientResource)
                    } else {
                        None
                    },
                    Action::PassBid => None,
                    Action::StartBid { .. } => Some(ActionError::StaleAuctionBid),
                    Action::PassAcquiring => Some(ActionError::NotYourTurn),
                    _ => Some(ActionError::InvalidPhaseForAction),
                },
            }
        },
        _ => Some(ActionError::InvalidPhaseForAction),
    }
}

/// The state after the active player took a legal `action` in the acquiring
/// phase.
pub open spec fn acquiring_effect(s: GameView, action: Action) -> GameView {
    match s.phase {
        PhaseView::Acquiring {
            active_player,
            current_batch,
            current_bidder,
            current_bid,
            opener,
            passed,
        } => match action {
            Action::StartBid { batch, bid } => GameView {
                phase: PhaseView::Acquiring {
                    active_player: match next_contender(passed, active_player, active_player) {
                        Some(c) => c,
                        None => active_player,
                    },
                    current_batch: batch as nat,
                    current_bidder: Some(active_player),
                    current_bid: bid as nat,
                    opener,
                    passed,
                },
                ..s
            },
            Action::PassAcquiring => GameView { phase: s.after_auction(opener), ..s },
            Action::Bid { bid } => GameView {
                phase: PhaseView::Acquiring {
                    active_player: match next_contender(passed, active_player, active_player) {
                        Some(c) => c,
                        None => current_bidder.unwrap(),
                    },
                    current_batch,
                    current_bidder: Some(active_player),
                    current_bid: bid as nat,
                    opener,
                    passed,
                },
                ..s
            },
            Action::PassBid => {
                let left = passed.update(active_player as int, true);
                let bidder = current_bidder.unwrap();
                match next_contender(left, active_player, bidder) {
                    Some(c) => GameView {
                        phase: PhaseView::Acquiring {
                            active_player: c,
                            current_batch,
                            current_bidder,
                            current_bid,
                            opener,
                            passed: left,
                        },
                        ..s
                    },
                    None => awarded(s, bidder, current_batch, current_bid, opener),
                }
            },
            _ => s,
        },
        _ => s,
    }
}


impl GameState {
    /// Hands the batch to the winner of its auction at the standing bid, and
    /// lets the next opener on.
    pub(crate) fn award(&mut self, winner: u8, batch: u8, price: u8, opener: u8)
        requires
            old(self).wf(),
            winner < old(self).players@.len(),
            opener < old(self).players@.len(),
            batch < old(self).market@.len(),
            price <= old(self).players@[winner as int].coins,
        ensures
            final(self)@ == awarded(
                old(self)@,
                winner as nat,
                batch as nat,
                price as nat,
                opener as nat,
            ),
    {
        self.pay(winner as usize, price as u32);
        let sold = self.market.remove(batch as usize);
        add_assets(&mut self.players[winner as usize].assets, &sold);
        self.phase = self.auction_over(opener);
        proof {
            let want = awarded(
                old(self)@,
                winner as nat,
                batch as nat,
                price as nat,
                opener as nat,
            );
            assert(self@.market =~= want.market);
            assert(self@.players =~= want.players);
            assert(self@ == want);
        }
    }

    /// Carries out an action of the acquiring phase that is legal.
    pub(crate) fn acquire(&mut self, action: &Action)
        requires
            old(self).wf(),
            old(self).phase is Acquiring,
            acquiring_legality(old(self)@, *action) is None,
        ensures
            final(self)@ == acquiring_effect(old(self)@, *action),
    {
        let mut phase = Phase::Closing;
        core::mem::swap(&mut self.phase, &mut phase);
        match phase {
            Phase::Acquiring {
                active_player,
                current_batch,
                current_bidder,
                current_bid,
                opener,
                passed,
            } => {
                let me = active_player as usize;
                match action {
                    Action::StartBid { batch, bid } => {
                        let next = match find_contender(&passed, me, me) {
                            Some(c) => c as u8,
                            None => active_player,
                        };
                        self.phase = Phase::Acquiring {
                            active_player: next,
                            current_batch: *batch,
                            current_bidder: Some(active_player),
                            current_bid: *bid,
                            opener,
                            passed,
                        };
                    },
                    Action::PassAcquiring => {
                        self.phase = self.auction_over(opener);
                    },
                    Action::Bid { bid } => {
                        let next = match find_contender(&passed, me, me) {
                            Some(c) => c as u8,
                            None => current_bidder.unwrap(),
                        };
                        self.phase = Phase::Acquiring {
                            active_player: next,
                            current_batch,
                            current_bidder: Some(active_player),
                            current_bid: *bid,
                            opener,
                            passed,
                        };
                    },
                    Action::PassBid => {
                        let bidder = current_bidder.unwrap();
                        let mut left = passed;
                        left.set(me, true);
                        match find_contender(&left, me, bidder as usize) {
                            Some(c) => {
                                self.phase = Phase::Acquiring {
                                    active_player: c as u8,
                                    current_batch,
                                    current_bidder,
                                    current_bid,
                                    opener,
                                    passed: left,
                                };
                            },
                            None => {
                                self.award(bidder, current_batch, current_bid, opener);
                            },
                        }
                    },
                    _ => {
                        self.phase = Phase::Acquiring {
                            active_player,
                            current_batch,
                            current_bidder,
                            current_bid,
                            opener,
                            passed,
                        };
                    },
                }
            },
            other => {
                self.phase = other;
            },
        }
        proof {
            let want = acquiring_effect(old(self)@, *action);
            assert(self@.players =~= want.players);
            assert(self@ == want);
        }
    }
}

} // verus!
