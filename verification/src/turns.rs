//! Whose turn comes next, and the phase that follows the last turn.

use vstd::prelude::*;
use crate::game_state::{GameState, Phase};
use crate::lookup::seat_after;
use crate::rules::closed_auction;

verus! {

/// A list of `n` seats of which none has passed.
pub fn no_passes(n: usize) -> (passed: Vec<bool>)
    ensures
        passed@ == Seq::new(n as nat, |i: int| false),
{
    let mut passed: Vec<bool> = Vec::new();
    let mut i: usize = 0;
    while i < n
        invariant
            i <= n,
            passed@.len() == i,
            forall|j: int| 0 <= j < i ==> !passed@[j],
        decreases n - i,
    {
        passed.push(false);
        i = i + 1;
    }
    proof {
        assert(passed@ =~= Seq::new(n as nat, |i: int| false));
    }
    passed
}

/// The acquiring phase in which `opener` may open an auction.
pub fn open_for(n: usize, opener: u8) -> (phase: Phase)
    ensures
        phase@ == closed_auction(n as nat, opener as nat),
{
    Phase::Acquiring {
        active_player: opener,
        current_batch: 0,
        current_bidder: None,
        current_bid: 0,
        opener,
        passed: no_passes(n),
    }
}

impl GameState {
    /// The phase after player `p` has ended an investing turn.
    pub(crate) fn investing_turn_over(&self, p: u8) -> (phase: Phase)
        requires
            self.wf(),
            p < self.players@.len(),
        ensures
            phase@ == self@.after_investing_turn(p as nat),
    {
        let next = seat_after(self.players.len(), p as usize) as u8;
        if next == self.first_player {
            open_for(self.players.len(), self.first_player)
        } else {
            Phase::Investing { active_player: next }
        }
    }

    /// The phase after `opener` has had an auction or declined to open one.
    pub(crate) fn auction_over(&self, opener: u8) -> (phase: Phase)
        requires
            3 <= self.players@.len() <= 5,
            opener < self.players@.len(),
        ensures
            phase@ == self@.after_auction(opener as nat),
    {
        let next = seat_after(self.players.len(), opener as usize) as u8;
        if next == self.first_player || self.market.len() == 0 {
            Phase::Trading { active_player: self.first_player, pending_trade: None }
        } else {
            open_for(self.players.len(), next)
        }
    }

    /// The phase after player `p` has ended a trading turn.
    pub(crate) fn trading_turn_over(&self, p: u8) -> (phase: Phase)
        requires
            self.wf(),
            p < self.players@.len(),
        ensures
            phase@ == self@.after_trading_turn(p as nat),
    {
        let next = seat_after(self.players.len(), p as usize) as u8;
        if next == self.first_player {
            Phase::Producing { active_player: self.first_player, moved: false }
        } else {
            Phase::Trading { active_player: next, pending_trade: None }
        }
    }

    /// The phase after player `p` has ended a producing turn.
    pub(crate) fn producing_turn_over(&self, p: u8) -> (phase: Phase)
        requires
            self.wf(),
            p < self.players@.len(),
        ensures
            phase@ == self@.after_producing_turn(p as nat),
    {
        let next = seat_after(self.players.len(), p as usize) as u8;
        if next == self.first_player {
            Phase::Closing
        } else {
            Phase::Producing { active_player: next, moved: false }
        }
    }
}

} // verus!
