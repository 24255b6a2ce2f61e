//! A player at the start of a game.

use vstd::prelude::*;
use vstd::multiset::Multiset;
use crate::assets::lemma_holdings_empty;
use crate::model::PlayerView;
use crate::types::{PlayerState, STARTING_COINS};

verus! {

/// A player before the first turn.
pub open spec fn fresh_player(name: Seq<char>) -> PlayerView {
    PlayerView {
        name,
        coins: STARTING_COINS as nat,
        assets: Multiset::empty(),
        arena: Seq::empty(),
        arena_level: 0,
        podiums: 0,
        loge: false,
        season_tickets: 0,
        medals: 0,
        score: 0,
        purchased: false,
        events: Seq::empty(),
        completed: Seq::empty(),
    }
}

impl PlayerState {
    /// A player with the starting coins and nothing else.
    pub fn new(name: String) -> (player: PlayerState)
        ensures
            player@ == fresh_player(name@),
    {
        let player = PlayerState {
            name,
            coins: STARTING_COINS,
            assets: Vec::new(),
            arena: Vec::new(),
            arena_level: 0,
            podiums: 0,
            loge: false,
            season_tickets: 0,
            medals: 0,
            score: 0,
            purchased: false,
            events: Vec::new(),
            completed: Vec::new(),
        };
        proof {
            lemma_holdings_empty(player.assets@);
            assert(player.arena@ =~= Seq::<u8>::empty());
            assert(player.events@ =~= Seq::<u8>::empty());
            assert(player.completed@ =~= Seq::<u8>::empty());
        }
        player
    }
}

} // verus!
