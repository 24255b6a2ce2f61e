//! The final score: what a player's holdings are worth when the game is over.

use vstd::prelude::*;
use crate::game_state::{GameState, Phase};
use crate::model::PlayerView;
use crate::rules::MEDAL_POINTS;
use crate::types::PlayerState;

verus! {

/// Coins that make one point at the end.
pub const COINS_PER_POINT: u32 = 5;

/// Points for each podium.
pub const PODIUM_POINTS: u64 = 3;

/// Points for each season ticket.
pub const TICKET_POINTS: u64 = 5;

/// Points for each level of the arena.
pub const ARENA_POINTS: u64 = 4;

/// Points for the loge.
pub const LOGE_POINTS: u64 = 5;

/// The final score of a player: the score made in play, a point for every
/// five coins, and the fixed worth of medals, podiums, season tickets,
/// arena levels and the loge.
pub open spec fn final_score(p: PlayerView) -> nat {
    p.score + p.coins / (COINS_PER_POINT as nat) + MEDAL_POINTS as nat * p.medals
        + PODIUM_POINTS as nat * p.podiums + TICKET_POINTS as nat * p.season_tickets
        + ARENA_POINTS as nat * p.arena_level + if p.loge {
        LOGE_POINTS as nat
    } else {
        0
    }
}

impl PlayerState {
    /// What the player's holdings are worth at the end.
    pub fn final_score(&self) -> (total: u64)
        ensures
            total == final_score(self@),
    {
        let loge: u64 = if self.loge {
            LOGE_POINTS
        } else {
            0
        };
        self.score as u64 + (self.coins / COINS_PER_POINT) as u64 + MEDAL_POINTS as u64
            * self.medals as u64 + PODIUM_POINTS * self.podiums as u64 + TICKET_POINTS
            * self.season_tickets as u64 + ARENA_POINTS * self.arena_level as u64 + loge
    }
}

impl GameState {
    /// The final scores, seat by seat, once the game is over; `None` before.
    pub fn final_scores(&self) -> (r: Option<Vec<u64>>)
        ensures
            r is Some <==> self.phase is GameOver,
            match r {
                Some(scores) => scores@.len() == self@.players.len() && forall|i: int|
                    0 <= i < scores@.len() ==> #[trigger] scores@[i] == final_score(
                        self@.players[i],
                    ),
                None => true,
            },
    {
        match &self.phase {
            Phase::GameOver => {},
            _ => {
                return None;
            },
        }
        let mut scores: Vec<u64> = Vec::new();
        let mut i: usize = 0;
        while i < self.players.len()
            invariant
                i <= self.players@.len(),
                scores@.len() == i,
                forall|j: int|
                    0 <= j < i ==> #[trigger] scores@[j] == final_score(self@.players[j]),
            decreases self.players@.len() - i,
        {
            scores.push(self.players[i].final_score());
            i = i + 1;
        }
        Some(scores)
    }
}

} // verus!
