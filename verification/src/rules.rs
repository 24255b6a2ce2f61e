//! The rules as mathematics: when a state is valid, which actions are legal
//! in it, and what a legal action makes of it. The rules of each phase stand
//! in the module of the phase.

use vstd::prelude::*;
use crate::acquiring::{acquiring_effect, acquiring_legality};
use crate::investing::{investing_effect, investing_legality};
use crate::ledger::total_coins;
use crate::lookup::next_seat;
use crate::model::{GameView, PhaseView, PlayerView};
use crate::producing::{producing_effect, producing_legality};
use crate::trading::{trading_effect, trading_legality};
use crate::types::{Action, ActionError, BOARD_SIZE, MAX_ARENA_LEVEL};

verus! {

/// Coins that the bank pays for a medal.
pub const MEDAL_COINS: u32 = 6;

/// Points that a medal is worth, when exchanged and at the end.
pub const MEDAL_POINTS: u32 = 3;

/// The game ends when the round of this number is closed.
pub const ROUND_LIMIT: u8 = 5;

/// An acquiring phase in which `opener` may open an auction.
pub open spec fn closed_auction(n: nat, opener: nat) -> PhaseView {
    PhaseView::Acquiring {
        active_player: opener,
        current_batch: 0,
        current_bidder: None,
        current_bid: 0,
        opener,
        passed: Seq::new(n, |i: int| false),
    }
}

/// What a player needs to be valid beside the shared pools: an arena of no
/// more than the highest level; medals and season tickets that fit a byte
/// together with the pool they come from;
/// no event produced twice; and a score that leaves room, in 32 bits, for
/// all that can still be earned: the highest score of an event for each
/// event id not yet produced, and the points of every medal that the
/// player holds or can still take from the pool.
pub open spec fn player_wf(p: PlayerView, medals_left: nat, tickets_left: nat) -> bool {
    &&& p.arena_level <= MAX_ARENA_LEVEL
    &&& p.medals + medals_left <= u8::MAX
    &&& p.season_tickets + tickets_left <= u8::MAX
    &&& p.completed.no_duplicates()
    &&& p.score + 255 * (256 - p.completed.len()) + MEDAL_POINTS * (p.medals + medals_left)
        <= u32::MAX
}

impl GameView {
    /// Number of players.
    pub open spec fn seats(self) -> nat {
        self.players.len()
    }

    /// The player whom the phase waits for: the active player, the target of
    /// a pending trade, or, in the closing phase, the first player.
    pub open spec fn actor(self) -> nat {
        match self.phase {
            PhaseView::Investing { active_player } => active_player,
            PhaseView::Acquiring { active_player, .. } => active_player,
            PhaseView::Trading { active_player, pending_trade } => match pending_trade {
                Some(t) => t.target_id,
                None => active_player,
            },
            PhaseView::Producing { active_player, .. } => active_player,
            PhaseView::Closing => self.first_player,
            PhaseView::GameOver => self.first_player,
        }
    }

    /// Whether the phase fits the rest of the state.
    pub open spec fn phase_wf(self) -> bool {
        let n = self.seats();
        match self.phase {
            PhaseView::Investing { active_player } => active_player < n,
            PhaseView::Acquiring {
                active_player,
                current_batch,
                current_bidder,
                current_bid,
                opener,
                passed,
            } => {
                &&& active_player < n
                &&& opener < n
                &&& passed.len() == n
                &&& current_bid <= u8::MAX
                &&& current_batch <= u8::MAX
                &&& match current_bidder {
                    None => {
                        &&& active_player == opener
                        &&& current_bid == 0
                        &&& forall|i: int| 0 <= i < n ==> !#[trigger] passed[i]
                    },
                    Some(b) => {
                        &&& b < n
                        &&& b != active_player
                        &&& !passed[b as int]
                        &&& !passed[active_player as int]
                        &&& current_batch < self.market.len()
                        &&& 1 <= current_bid <= self.players[b as int].coins
                    },
                }
            },
            PhaseView::Trading { active_player, pending_trade } => {
                &&& active_player < n
                &&& match pending_trade {
                    None => true,
                    Some(t) => {
                        &&& t.proposer_id == active_player
                        &&& t.target_id < n
                        &&& t.target_id != active_player
                        &&& t.money_given <= u8::MAX
                        &&& t.money_received <= u8::MAX
                    },
                }
            },
            PhaseView::Producing { active_player, .. } => active_player < n,
            PhaseView::Closing => true,
            PhaseView::GameOver => true,
        }
    }

    /// Validity of a state: three to five players; seats that exist; coins
    /// of players and bank, pools and scores within the machine's limits, in
    /// a form that every step keeps; nobles on the track; scores of events
    /// that fit a byte.
    pub open spec fn wf(self) -> bool {
        &&& 3 <= self.seats() <= 5
        &&& self.first_player < self.seats()
        &&& 1 <= self.current_round <= ROUND_LIMIT
        &&& self.available_medals <= u8::MAX
        &&& self.available_tickets <= u8::MAX
        &&& total_coins(self.players) + self.bank <= u32::MAX
        &&& forall|i: int|
            0 <= i < self.seats() ==> player_wf(
                #[trigger] self.players[i],
                self.available_medals,
                self.available_tickets,
            )
        &&& forall|i: int| 0 <= i < self.nobles.len() ==> (#[trigger] self.nobles[i]).position < BOARD_SIZE
        &&& forall|i: int| 0 <= i < self.events.len() ==> (#[trigger] self.events[i]).base_score <= u8::MAX
        &&& self.phase_wf()
    }

    /// The state with one player replaced.
    pub open spec fn with_player(self, p: nat, player: PlayerView) -> GameView {
        GameView { players: self.players.update(p as int, player), ..self }
    }

    /// The state after player `p` paid `cost` coins to the bank.
    pub open spec fn paid(self, p: nat, cost: nat) -> GameView {
        let me = self.players[p as int];
        GameView {
            players: self.players.update(
                p as int,
                PlayerView { coins: (me.coins - cost) as nat, ..me },
            ),
            bank: self.bank + cost,
            ..self
        }
    }

    /// The phase after player `p` has ended an investing turn.
    pub open spec fn after_investing_turn(self, p: nat) -> PhaseView {
        let next = next_seat(self.seats(), p);
        if next == self.first_player {
            closed_auction(self.seats(), self.first_player)
        } else {
            PhaseView::Investing { active_player: next }
        }
    }

    /// The phase after `opener` has had an auction or declined to open one.
    pub open spec fn after_auction(self, opener: nat) -> PhaseView {
        let next = next_seat(self.seats(), opener);
        if next == self.first_player || self.market.len() == 0 {
            PhaseView::Trading { active_player: self.first_player, pending_trade: None }
        } else {
            closed_auction(self.seats(), next)
        }
    }

    /// The phase after player `p` has ended a trading turn.
    pub open spec fn after_trading_turn(self, p: nat) -> PhaseView {
        let next = next_seat(self.seats(), p);
        if next == self.first_player {
            PhaseView::Producing { active_player: self.first_player, moved: false }
        } else {
            PhaseView::Trading { active_player: next, pending_trade: None }
        }
    }

    /// The phase after player `p` has ended a producing turn.
    pub open spec fn after_producing_turn(self, p: nat) -> PhaseView {
        let next = next_seat(self.seats(), p);
        if next == self.first_player {
            PhaseView::Closing
        } else {
            PhaseView::Producing { active_player: next, moved: false }
        }
    }
}

/// Why `action` may not be taken in state `s`, or `None` if it is legal.
/// A medal is exchanged for coins by the player the phase waits for, in any
/// phase but the last; closing a round takes no action of a player.
pub open spec fn legality(s: GameView, action: Action) -> Option<ActionError> {
    if s.phase is GameOver {
        Some(ActionError::InvalidPhaseForAction)
    } else if action is ExchangeMedalForCoins {
        if s.players[s.actor() as int].medals == 0 || s.bank < MEDAL_COINS {
            Some(ActionError::InsufficientResource)
        } else {
            None
        }
    } else {
        match s.phase {
            PhaseView::Investing { active_player } => investing_legality(s, active_player, action),
            PhaseView::Acquiring { .. } => acquiring_legality(s, action),
            PhaseView::Trading { .. } => trading_legality(s, action),
            PhaseView::Producing { .. } => producing_legality(s, action),
            _ => Some(ActionError::InvalidPhaseForAction),
        }
    }
}

/// The state after the bank paid the actor for one medal.
pub open spec fn medal_cashed(s: GameView) -> GameView {
    let p = s.actor();
    let me = s.players[p as int];
    GameView {
        bank: (s.bank - MEDAL_COINS) as nat,
        ..s.with_player(
            p,
            PlayerView { medals: (me.medals - 1) as nat, coins: me.coins + MEDAL_COINS as nat, ..me },
        )
    }
}

/// The state that a legal `action` makes of `s`.
pub open spec fn effect(s: GameView, action: Action) -> GameView {
    if action is ExchangeMedalForCoins {
        medal_cashed(s)
    } else {
        match s.phase {
            PhaseView::Investing { active_player } => investing_effect(s, active_player, action),
            PhaseView::Acquiring { .. } => acquiring_effect(s, action),
            PhaseView::Trading { .. } => trading_effect(s, action),
            PhaseView::Producing { .. } => producing_effect(s, action),
            _ => s,
        }
    }
}

/// The state after one action is submitted: a legal one takes effect, an
/// illegal one leaves the state as it is.
pub open spec fn step(s: GameView, action: Action) -> GameView {
    if legality(s, action) is None {
        effect(s, action)
    } else {
        s
    }
}

/// The players with the mark of the round's purchase taken off.
pub open spec fn purchases_cleared(players: Seq<PlayerView>) -> Seq<PlayerView> {
    Seq::new(players.len(), |i: int| PlayerView { purchased: false, ..players[i] })
}

/// The state after a round in its closing phase is closed: after the last
/// round the game is over; else the next round opens with the first seat
/// moved on by one.
pub open spec fn closed(s: GameView) -> GameView {
    let players = purchases_cleared(s.players);
    if s.current_round >= ROUND_LIMIT {
        GameView { players, phase: PhaseView::GameOver, ..s }
    } else {
        let first = next_seat(s.seats(), s.first_player);
        GameView {
            players,
            current_round: s.current_round + 1,
            first_player: first,
            phase: PhaseView::Investing { active_player: first },
            ..s
        }
    }
}

} // verus!
