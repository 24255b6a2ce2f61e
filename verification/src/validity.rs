//! A check of a state's validity that runs: for callers that build or
//! change a state by hand.

use vstd::prelude::*;
use crate::game_state::{GameState, Phase};
use crate::ledger::total_coins;
use crate::model::players_view;
use crate::rules::{MEDAL_POINTS, player_wf, ROUND_LIMIT};
use crate::types::{BOARD_SIZE, MAX_ARENA_LEVEL, Noble, PlayerState};

verus! {

/// Whether no id occurs twice in the list.
pub fn all_distinct(ids: &Vec<u8>) -> (b: bool)
    ensures
        b == ids@.no_duplicates(),
{
    let mut i: usize = 0;
    while i < ids.len()
        invariant
            i <= ids.len(),
            forall|a: int, b: int| 0 <= a < i && 0 <= b < ids.len() && a != b ==> ids@[a] != ids@[b],
        decreases ids.len() - i,
    {
        let mut j: usize = i + 1;
        while j < ids.len()
            invariant
                i < j <= ids.len(),
                forall|b: int| i < b < j ==> ids@[i as int] != ids@[b],
            decreases ids.len() - j,
        {
            if ids[i] == ids[j] {
                return false;
            }
            j = j + 1;
        }
        i = i + 1;
    }
    true
}

/// Whether no seat has passed.
pub fn none_passed(passed: &Vec<bool>) -> (b: bool)
    ensures
        b == forall|i: int| 0 <= i < passed@.len() ==> !#[trigger] passed@[i],
{
    let mut i: usize = 0;
    while i < passed.len()
        invariant
            i <= passed.len(),
            forall|j: int| 0 <= j < i ==> !#[trigger] passed@[j],
        decreases passed.len() - i,
    {
        if passed[i] {
            return false;
        }
        i = i + 1;
    }
    true
}

/// Whether every noble stands on the track.
pub fn nobles_on_track(nobles: &Vec<Noble>) -> (b: bool)
    ensures
        b == forall|i: int| 0 <= i < nobles@.len() ==> (#[trigger] nobles@[i]).position < BOARD_SIZE,
{
    let mut i: usize = 0;
    while i < nobles.len()
        invariant
            i <= nobles.len(),
            forall|j: int| 0 <= j < i ==> (#[trigger] nobles@[j]).position < BOARD_SIZE,
        decreases nobles.len() - i,
    {
        if nobles[i].position >= BOARD_SIZE {
            return false;
        }
        i = i + 1;
    }
    true
}

impl PlayerState {
    /// Whether the player is valid beside pools of this size.
    pub fn fits_pools(&self, medals_left: u8, tickets_left: u8) -> (b: bool)
        ensures
            b == player_wf(self@, medals_left as nat, tickets_left as nat),
    {
        if self.arena_level > MAX_ARENA_LEVEL {
            return false;
        }
        if self.medals as u16 + medals_left as u16 > 255 {
            return false;
        }
        if self.season_tickets as u16 + tickets_left as u16 > 255 {
            return false;
        }
        if !all_distinct(&self.completed) {
            return false;
        }
        let room: i128 = 255 * (256 - self.completed.len() as i128);
        let medals: i128 = MEDAL_POINTS as i128 * (self.medals as i128 + medals_left as i128);
        self.score as i128 + room + medals <= u32::MAX as i128
    }
}

impl GameState {
    /// The coins of all players together.
    fn coins_of_players(&self) -> (sum: u64)
        requires
            self.players@.len() <= 5,
        ensures
            sum == total_coins(self@.players),
            sum <= 5 * u32::MAX,
    {
        let ghost all = players_view(self.players@);
        let mut sum: u64 = 0;
        let mut i: usize = 0;
        while i < self.players.len()
            invariant
                i <= self.players@.len() <= 5,
                all == players_view(self.players@),
                sum == total_coins(all.take(i as int)),
                sum <= i * u32::MAX,
            decreases self.players@.len() - i,
        {
            proof {
                assert(all.take(i + 1).drop_last() =~= all.take(i as int));
            }
            sum = sum + self.players[i].coins as u64;
            i = i + 1;
        }
        proof {
            assert(all.take(i as int) =~= all);
        }
        sum
    }

    fn players_fit_pools(&self) -> (b: bool)
        ensures
            b == forall|i: int|
                0 <= i < self@.seats() ==> player_wf(
                    #[trigger] self@.players[i],
                    self@.available_medals,
                    self@.available_tickets,
                ),
    {
        let mut i: usize = 0;
        while i < self.players.len()
            invariant
                i <= self.players@.len(),
                forall|j: int|
                    0 <= j < i ==> player_wf(
                        #[trigger] self@.players[j],
                        self@.available_medals,
                        self@.available_tickets,
                    ),
            decreases self.players@.len() - i,
        {
            if !self.players[i].fits_pools(self.available_medals, self.available_tickets) {
                proof {
                    assert(!player_wf(
                        self@.players[i as int],
                        self@.available_medals,
                        self@.available_tickets,
                    ));
                }
                return false;
            }
            i = i + 1;
        }
        true
    }

    fn phase_is_valid(&self) -> (b: bool)
        ensures
            b == self@.phase_wf(),
    {
        let n = self.players.len();
        match &self.phase {
            Phase::Investing { active_player } => (*active_player as usize) < n,
            Phase::Acquiring {
                active_player,
                current_batch,
                current_bidder,
                current_bid,
                opener,
                passed,
            } => {
                if !((*active_player as usize) < n && (*opener as usize) < n && passed.len() == n) {
                    return false;
                }
                match current_bidder {
                    None => {
                        if *active_player != *opener || *current_bid != 0 {
                            return false;
                        }
                        none_passed(passed)
                    },
                    Some(b) => {
                        let bidder = *b as usize;
                        bidder < n && *b != *active_player && !passed[bidder]
                            && !passed[*active_player as usize] && (*current_batch as usize)
                            < self.market.len() && 1 <= *current_bid && *current_bid as u32
                            <= self.players[bidder].coins
                    },
                }
            },
            Phase::Trading { active_player, pending_trade } => {
                if (*active_player as usize) >= n {
                    return false;
                }
                match pending_trade {
                    None => true,
                    Some(t) => t.proposer_id == *active_player && (t.target_id as usize) < n
                        && t.target_id != *active_player,
                }
            },
            Phase::Producing { active_player, .. } => (*active_player as usize) < n,
            Phase::Closing => true,
            Phase::GameOver => true,
        }
    }

    /// Whether the state is valid: what every function that takes a state
    /// requires of it.
    pub fn is_valid(&self) -> (b: bool)
        ensures
            b == self.wf(),
    {
        let n = self.players.len();
        if n < 3 || n > 5 {
            return false;
        }
        if self.first_player as usize >= n {
            return false;
        }
        if self.current_round < 1 || self.current_round > ROUND_LIMIT {
            return false;
        }
        if self.coins_of_players() + self.bank as u64 > u32::MAX as u64 {
            return false;
        }
        self.players_fit_pools() && nobles_on_track(&self.board.nobles) && self.phase_is_valid()
    }
}

} // verus!
