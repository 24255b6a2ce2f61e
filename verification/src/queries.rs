//! Read-only access to the state, for those who show it.

use vstd::prelude::*;
use crate::game_state::{GameState, Phase};
use crate::types::{Batch, Event, Noble, PlayerState};

verus! {

impl GameState {
    /// The phase that the game is in.
    pub fn phase(&self) -> (phase: &Phase)
        ensures
            *phase == self.phase,
    {
        &self.phase
    }

    /// The number of the round, from 1.
    pub fn round(&self) -> (round: u8)
        ensures
            round == self.current_round,
    {
        self.current_round
    }

    /// Whether the game is over.
    pub fn is_over(&self) -> (over: bool)
        ensures
            over == (self.phase is GameOver),
    {
        match &self.phase {
            Phase::GameOver => true,
            _ => false,
        }
    }

    /// The number of players.
    pub fn num_players(&self) -> (n: usize)
        ensures
            n == self.players@.len(),
    {
        self.players.len()
    }

    /// The player at a seat, if the seat exists.
    pub fn player(&self, seat: usize) -> (player: Option<&PlayerState>)
        ensures
            match player {
                Some(p) => seat < self.players@.len() && *p == self.players@[seat as int],
                None => seat >= self.players@.len(),
            },
    {
        if seat < self.players.len() {
            Some(&self.players[seat])
        } else {
            None
        }
    }

    /// The batch of this number in the market, if there is one.
    pub fn batch(&self, number: usize) -> (batch: Option<&Batch>)
        ensures
            match batch {
                Some(b) => number < self.market@.len() && *b == self.market@[number as int],
                None => number >= self.market@.len(),
            },
    {
        if number < self.market.len() {
            Some(&self.market[number])
        } else {
            None
        }
    }

    /// The number of batches still for sale.
    pub fn batches_left(&self) -> (n: usize)
        ensures
            n == self.market@.len(),
    {
        self.market.len()
    }

    /// The noble of this number, if there is one.
    pub fn noble(&self, number: usize) -> (noble: Option<Noble>)
        ensures
            match noble {
                Some(n) => number < self.board.nobles@.len() && n == self.board.nobles@[number as int],
                None => number >= self.board.nobles@.len(),
            },
    {
        if number < self.board.nobles.len() {
            Some(self.board.nobles[number])
        } else {
            None
        }
    }

    /// The first event of the catalog with the id, if there is one.
    pub fn event(&self, id: u8) -> (event: Option<&Event>)
        ensures
            match event {
                Some(e) => crate::lookup::find_event(self@.events, id) == Some(e@),
                None => crate::lookup::find_event(self@.events, id) is None,
            },
    {
        match crate::lookup::event_position(&self.available_events, id) {
            Some(i) => Some(&self.available_events[i]),
            None => None,
        }
    }
}

} // verus!
