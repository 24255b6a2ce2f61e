//! The mathematical view of the game: what the contracts speak of.

use vstd::prelude::*;
use vstd::multiset::Multiset;
use crate::assets::holdings;
use crate::game_state::{GameState, Phase, Trade};
use crate::types::{Asset, Event, Noble, PlayerState};

verus! {

pub struct EventView {
    pub id: u8,
    pub name: Seq<char>,
    pub cost: nat,
    pub base_score: nat,
    pub size: nat,
    pub requirements: Multiset<Asset>,
    pub penalty_scores: Seq<u8>,
}

pub struct PlayerView {
    pub name: Seq<char>,
    pub coins: nat,
    pub assets: Multiset<Asset>,
    pub arena: Seq<u8>,
    pub arena_level: nat,
    pub podiums: nat,
    pub loge: bool,
    pub season_tickets: nat,
    pub medals: nat,
    pub score: nat,
    pub purchased: bool,
    pub events: Seq<u8>,
    pub completed: Seq<u8>,
}

pub struct TradeView {
    pub proposer_id: nat,
    pub target_id: nat,
    pub assets_given: Multiset<Asset>,
    pub money_given: nat,
    pub assets_received: Multiset<Asset>,
    pub money_received: nat,
}

pub enum PhaseView {
    Investing { active_player: nat },
    Acquiring {
        active_player: nat,
        current_batch: nat,
        current_bidder: Option<nat>,
        current_bid: nat,
        opener: nat,
        passed: Seq<bool>,
    },
    Trading { active_player: nat, pending_trade: Option<TradeView> },
    Producing { active_player: nat, moved: bool },
    Closing,
    GameOver,
}

pub struct GameView {
    pub players: Seq<PlayerView>,
    pub current_round: nat,
    pub phase: PhaseView,
    pub first_player: nat,
    pub available_medals: nat,
    pub available_tickets: nat,
    pub events: Seq<EventView>,
    pub market: Seq<Multiset<Asset>>,
    pub resting_places: Seq<u8>,
    pub nobles: Seq<Noble>,
    pub bank: nat,
}

impl View for Event {
    type V = EventView;

    open spec fn view(&self) -> EventView {
        EventView {
            id: self.id,
            name: self.name@,
            cost: self.cost as nat,
            base_score: self.base_score as nat,
            size: self.size as nat,
            requirements: holdings(self.requirements@),
            penalty_scores: self.penalty_scores@,
        }
    }
}

impl View for PlayerState {
    type V = PlayerView;

    open spec fn view(&self) -> PlayerView {
        PlayerView {
            name: self.name@,
            coins: self.coins as nat,
            assets: holdings(self.assets@),
            arena: self.arena@,
            arena_level: self.arena_level as nat,
            podiums: self.podiums as nat,
            loge: self.loge,
            season_tickets: self.season_tickets as nat,
            medals: self.medals as nat,
            score: self.score as nat,
            purchased: self.purchased,
            events: self.events@,
            completed: self.completed@,
        }
    }
}

impl View for Trade {
    type V = TradeView;

    open spec fn view(&self) -> TradeView {
        TradeView {
            proposer_id: self.proposer_id as nat,
            target_id: self.target_id as nat,
            assets_given: holdings(self.assets_given@),
            money_given: self.money_given as nat,
            assets_received: holdings(self.assets_received@),
            money_received: self.money_received as nat,
        }
    }
}

/// A seat, or none, as a number.
pub open spec fn seat_view(seat: Option<u8>) -> Option<nat> {
    match seat {
        Some(p) => Some(p as nat),
        None => None,
    }
}

/// A pending trade, or none, as its view.
pub open spec fn trade_view(trade: Option<Trade>) -> Option<TradeView> {
    match trade {
        Some(t) => Some(t@),
        None => None,
    }
}

impl View for Phase {
    type V = PhaseView;

    open spec fn view(&self) -> PhaseView {
        match *self {
            Phase::Investing { active_player } => PhaseView::Investing {
                active_player: active_player as nat,
            },
            Phase::Acquiring {
                active_player,
                current_batch,
                current_bidder,
                current_bid,
                opener,
                passed,
            } => PhaseView::Acquiring {
                active_player: active_player as nat,
                current_batch: current_batch as nat,
                current_bidder: seat_view(current_bidder),
                current_bid: current_bid as nat,
                opener: opener as nat,
                passed: passed@,
            },
            Phase::Trading { active_player, pending_trade } => PhaseView::Trading {
                active_player: active_player as nat,
                pending_trade: trade_view(pending_trade),
            },
            Phase::Producing { active_player, moved } => PhaseView::Producing {
                active_player: active_player as nat,
                moved,
            },
            Phase::Closing => PhaseView::Closing,
            Phase::GameOver => PhaseView::GameOver,
        }
    }
}

/// The players' views, seat by seat.
pub open spec fn players_view(players: Seq<PlayerState>) -> Seq<PlayerView> {
    Seq::new(players.len(), |i: int| players[i]@)
}

/// The catalog's views, entry by entry.
pub open spec fn events_view(events: Seq<Event>) -> Seq<EventView> {
    Seq::new(events.len(), |i: int| events[i]@)
}

/// The market's batches as multisets, in their order.
pub open spec fn market_view(market: Seq<Vec<Asset>>) -> Seq<Multiset<Asset>> {
    Seq::new(market.len(), |i: int| holdings(market[i]@))
}

impl View for GameState {
    type V = GameView;

    open spec fn view(&self) -> GameView {
        GameView {
            players: players_view(self.players@),
            current_round: self.current_round as nat,
            phase: self.phase@,
            first_player: self.first_player as nat,
            available_medals: self.available_medals as nat,
            available_tickets: self.available_tickets as nat,
            events: events_view(self.available_events@),
            market: market_view(self.market@),
            resting_places: self.board.resting_places@,
            nobles: self.board.nobles@,
            bank: self.bank as nat,
        }
    }
}

} // verus!
