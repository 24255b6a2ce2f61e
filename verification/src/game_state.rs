//! The aggregate state of one game and the phase it is in.

use vstd::prelude::*;
use crate::board::{initial_nobles, initial_resting_places};
use crate::ledger::total_coins;
use crate::model::{GameView, PhaseView, PlayerView};
use crate::player::fresh_player;
use crate::types::{Asset, Board, Event, Market, PlayerState, STARTING_COINS};

verus! {

/// An offer that waits for the target's answer.
#[derive(Clone, Debug, PartialEq, Eq)]
pub struct Trade {
    pub proposer_id: u8,
    pub target_id: u8,
    pub assets_given: Vec<Asset>,
    pub money_given: u8,
    pub assets_received: Vec<Asset>,
    pub money_received: u8,
}

/// The stage of the round, with what is needed to resume it.
#[derive(Clone, Debug, PartialEq, Eq)]
pub enum Phase {
    Investing { active_player: u8 },
    /// `opener` is the player whose auction it is. While `current_bidder` is
    /// `None` no auction is open and the opener is the active player; while
    /// it is `Some`, the active player is the next one to bid or pass, and
    /// `passed` marks the seats that left this auction.
    Acquiring {
        active_player: u8,
        current_batch: u8,
        current_bidder: Option<u8>,
        current_bid: u8,
        opener: u8,
        passed: Vec<bool>,
    },
    Trading { active_player: u8, pending_trade: Option<Trade> },
    /// `moved` is set once the active player has used the free move.
    Producing { active_player: u8, moved: bool },
    Closing,
    GameOver,
}

/// Everything that one game owns.
#[derive(Clone, Debug, PartialEq, Eq)]
pub struct GameState {
    pub players: Vec<PlayerState>,
    pub current_round: u8,
    pub phase: Phase,
    /// The seat that starts each phase of this round.
    pub first_player: u8,
    pub available_medals: u8,
    pub available_tickets: u8,
    pub available_events: Vec<Event>,
    pub market: Market,
    pub board: Board,
    /// Coins held by the bank: what players paid, less what it paid out.
    pub bank: u32,
}

/// Medals in the shared pool at the start.
pub const INITIAL_MEDALS: u8 = 18;

/// Season tickets in the shared pool at the start.
pub const INITIAL_TICKETS: u8 = 10;

/// Coins in the bank at the start.
pub const INITIAL_BANK: u32 = 100;

/// The name that a seat is given at the start.
pub open spec fn seat_name(seat: int) -> Seq<char> {
    if seat == 0 {
        "Player 1"@
    } else if seat == 1 {
        "Player 2"@
    } else if seat == 2 {
        "Player 3"@
    } else if seat == 3 {
        "Player 4"@
    } else {
        "Player 5"@
    }
}

/// The two spaces on which the arena of a seat stands at the start of a
/// game of `n` players.
pub open spec fn arena_layout(n: nat, seat: int) -> Seq<u8> {
    if n == 3 {
        if seat == 0 {
            seq![8u8, 9u8]
        } else if seat == 1 {
            seq![21u8, 22u8]
        } else {
            seq![32u8, 33u8]
        }
    } else if n == 4 {
        if seat == 0 {
            seq![3u8, 4u8]
        } else if seat == 1 {
            seq![14u8, 15u8]
        } else if seat == 2 {
            seq![23u8, 24u8]
        } else {
            seq![32u8, 33u8]
        }
    } else {
        if seat == 0 {
            seq![2u8, 3u8]
        } else if seat == 1 {
            seq![8u8, 9u8]
        } else if seat == 2 {
            seq![15u8, 16u8]
        } else if seat == 3 {
            seq![23u8, 24u8]
        } else {
            seq![32u8, 33u8]
        }
    }
}

/// The player of a seat before the first turn of a game of `n` players.
pub open spec fn seated_player(n: nat, seat: int) -> PlayerView {
    PlayerView { arena: arena_layout(n, seat), ..fresh_player(seat_name(seat)) }
}

/// A game of `n` players before the first action: round 1, the first seat
/// to invest, full pools, and neither catalog nor market yet.
pub open spec fn initial_game(n: nat) -> GameView {
    GameView {
        players: Seq::new(n, |i: int| seated_player(n, i)),
        current_round: 1,
        phase: PhaseView::Investing { active_player: 0 },
        first_player: 0,
        available_medals: INITIAL_MEDALS as nat,
        available_tickets: INITIAL_TICKETS as nat,
        events: Seq::empty(),
        market: Seq::empty(),
        resting_places: initial_resting_places(),
        nobles: initial_nobles(),
        bank: INITIAL_BANK as nat,
    }
}

fn name_of_seat(seat: usize) -> (name: String)
    ensures
        name@ == seat_name(seat as int),
{
    if seat == 0 {
        "Player 1".to_owned()
    } else if seat == 1 {
        "Player 2".to_owned()
    } else if seat == 2 {
        "Player 3".to_owned()
    } else if seat == 3 {
        "Player 4".to_owned()
    } else {
        "Player 5".to_owned()
    }
}

fn arena_of_seat(n: usize, seat: usize) -> (arena: Vec<u8>)
    requires
        3 <= n <= 5,
        seat < n,
    ensures
        arena@ == arena_layout(n as nat, seat as int),
{
    let first: u8 = if n == 3 {
        if seat == 0 {
            8
        } else if seat == 1 {
            21
        } else {
            32
        }
    } else if n == 4 {
        if seat == 0 {
            3
        } else if seat == 1 {
            14
        } else if seat == 2 {
            23
        } else {
            32
        }
    } else {
        if seat == 0 {
            2
        } else if seat == 1 {
            8
        } else if seat == 2 {
            15
        } else if seat == 3 {
            23
        } else {
            32
        }
    };
    let arena = vec![first, first + 1];
    proof {
        assert(arena@ =~= arena_layout(n as nat, seat as int));
    }
    arena
}

impl GameState {
    /// Validity of the state: that of its view.
    pub open spec fn wf(&self) -> bool {
        self@.wf()
    }

    /// A game of three, four or five players at its start, each with an
    /// arena of two spaces. The catalog and the market are empty: the
    /// caller fills `available_events` and `market` before the first action.
    pub fn new(num_players: usize) -> (state: GameState)
        requires
            3 <= num_players <= 5,
        ensures
            state@ == initial_game(num_players as nat),
            state.wf(),
    {
        let mut players: Vec<PlayerState> = Vec::new();
        let mut i: usize = 0;
        while i < num_players
            invariant
                3 <= num_players <= 5,
                i <= num_players,
                players@.len() == i,
                forall|j: int|
                    0 <= j < i ==> (#[trigger] players@[j])@ == seated_player(
                        num_players as nat,
                        j,
                    ),
                total_coins(crate::model::players_view(players@)) == STARTING_COINS * i,
            decreases num_players - i,
        {
            let ghost before = crate::model::players_view(players@);
            let mut player = PlayerState::new(name_of_seat(i));
            player.arena = arena_of_seat(num_players, i);
            players.push(player);
            proof {
                let after = crate::model::players_view(players@);
                assert(after.drop_last() =~= before);
            }
            i = i + 1;
        }
        let state = GameState {
            players,
            current_round: 1,
            phase: Phase::Investing { active_player: 0 },
            first_player: 0,
            available_medals: INITIAL_MEDALS,
            available_tickets: INITIAL_TICKETS,
            available_events: Vec::new(),
            market: Vec::new(),
            board: Board::new(),
            bank: INITIAL_BANK,
        };
        proof {
            let want = initial_game(num_players as nat);
            assert(state@.players =~= want.players);
            assert(state@.events =~= want.events);
            assert(state@.market =~= want.market);
            assert(state@ == want);
        }
        state
    }
}

} // verus!
