//! The state machine: one action at a time, checked and then carried out.

use vstd::prelude::*;
use crate::game_state::{GameState, Phase};
use crate::invariants::{lemma_closed, lemma_step};
use crate::ledger::lemma_total_coins_update;
use crate::legal::verdict;
use crate::lookup::seat_after;
use crate::model::players_view;
use crate::rules::{
    closed, effect, legality, medal_cashed, MEDAL_COINS, purchases_cleared, ROUND_LIMIT, step,
};
use crate::types::{Action, ActionError};

verus! {

impl GameState {
    /// Lets the bank pay the player whom the phase waits for for one medal.
    pub(crate) fn cash_medal(&mut self)
        requires
            old(self).wf(),
            old(self)@.players[old(self)@.actor() as int].medals > 0,
            old(self).bank >= MEDAL_COINS,
        ensures
            final(self)@ == medal_cashed(old(self)@),
    {
        let p = self.actor();
        proof {
            lemma_total_coins_update(self@.players, p as int, self@.players[p as int]);
        }
        self.players[p].medals = self.players[p].medals - 1;
        self.players[p].coins = self.players[p].coins + MEDAL_COINS;
        self.bank = self.bank - MEDAL_COINS;
        proof {
            assert(self@.players =~= medal_cashed(old(self)@).players);
        }
    }

    /// Takes one action. A legal action is carried out: the state becomes
    /// what `effect` says. An illegal one is refused with the reason that
    /// `legality` gives, and the state is left as it was.
    pub fn apply(&mut self, action: Action) -> (r: Result<(), ActionError>)
        requires
            old(self).wf(),
        ensures
            final(self).wf(),
            verdict(r) == legality(old(self)@, action),
            final(self)@ == step(old(self)@, action),
            r is Ok ==> final(self)@ == effect(old(self)@, action),
            r is Err ==> *final(self) == *old(self),
    {
        match self.check(&action) {
            Err(e) => {
                return Err(e);
            },
            Ok(()) => {},
        }
        proof {
            lemma_step(self@, action);
        }
        if let Action::ExchangeMedalForCoins = action {
            self.cash_medal();
            return Ok(());
        }
        let active = match &self.phase {
            Phase::Investing { active_player } => Some(*active_player),
            _ => None,
        };
        match &self.phase {
            Phase::Investing { .. } => {
                self.invest(active.unwrap(), &action);
            },
            Phase::Acquiring { .. } => {
                self.acquire(&action);
            },
            Phase::Trading { .. } => {
                self.trade(action);
            },
            Phase::Producing { .. } => {
                self.produce(&action);
            },
            _ => {},
        }
        Ok(())
    }

    /// Closes the round when the phase is `Closing`: the marks of the
    /// round's purchases are taken off, and either the next round opens, its
    /// first seat moved on by one, or, after the last round, the game is
    /// over. In any other phase nothing is changed.
    pub fn close_round(&mut self) -> (r: Result<(), ActionError>)
        requires
            old(self).wf(),
        ensures
            final(self).wf(),
            r is Ok <==> old(self).phase is Closing,
            r is Ok ==> final(self)@ == closed(old(self)@),
            r is Err ==> r == Err::<(), ActionError>(ActionError::InvalidPhaseForAction)
                && *final(self) == *old(self),
    {
        match &self.phase {
            Phase::Closing => {},
            _ => {
                return Err(ActionError::InvalidPhaseForAction);
            },
        }
        proof {
            lemma_closed(self@);
        }
        let n = self.players.len();
        let mut i: usize = 0;
        while i < n
            invariant
                i <= n,
                n == old(self).players@.len(),
                self.players@.len() == n,
                forall|j: int| 0 <= j < i ==> (#[trigger] self.players@[j])@ == purchases_cleared(
                    old(self)@.players,
                )[j],
                forall|j: int| i <= j < n ==> self.players@[j] == old(self).players@[j],
                self.phase == old(self).phase,
                self.current_round == old(self).current_round,
                self.first_player == old(self).first_player,
                self.available_medals == old(self).available_medals,
                self.available_tickets == old(self).available_tickets,
                self.available_events == old(self).available_events,
                self.market == old(self).market,
                self.board == old(self).board,
                self.bank == old(self).bank,
            decreases n - i,
        {
            self.players[i].purchased = false;
            i = i + 1;
        }
        if self.current_round >= ROUND_LIMIT {
            self.phase = Phase::GameOver;
        } else {
            let first = seat_after(n, self.first_player as usize) as u8;
            self.current_round = self.current_round + 1;
            self.first_player = first;
            self.phase = Phase::Investing { active_player: first };
        }
        proof {
            assert(players_view(self.players@) =~= purchases_cleared(old(self)@.players));
            assert(self@ == closed(old(self)@));
        }
        Ok(())
    }
}

} // verus!
