//! The game's data: assets, events, players, nobles, the board and actions.

use vstd::prelude::*;

verus! {

/// Spaces on the circular track that the nobles walk.
pub const BOARD_SIZE: u8 = 36;

/// Coins that every player starts with.
pub const STARTING_COINS: u32 = 30;

/// The arena cannot grow beyond this level.
pub const MAX_ARENA_LEVEL: u8 = 3;

/// Number of asset kinds.
pub const ASSET_KINDS: usize = 15;

/// A category of asset. A `Joker` fills any slot of an event's requirements;
/// a `SpecialEvent` is gained by an extra investment, never at auction.
#[derive(Clone, Copy, Debug, PartialEq, Eq, Hash, Structural)]
pub enum Asset {
    Gladiator,
    Comedian,
    Musician,
    Horse,
    Torch,
    Priest,
    Ship,
    Lion,
    Scenery,
    Decoration,
    Chariot,
    Cage,
    Joker,
    Emperor,
    SpecialEvent,
}

/// Assets sold as one unit at auction.
pub type Batch = Vec<Asset>;

/// The batches still for sale, in the order they are numbered.
pub type Market = Vec<Batch>;

impl Asset {
    /// Position of the kind in the declaration order.
    pub open spec fn spec_index(self) -> nat {
        match self {
            Asset::Gladiator => 0,
            Asset::Comedian => 1,
            Asset::Musician => 2,
            Asset::Horse => 3,
            Asset::Torch => 4,
            Asset::Priest => 5,
            Asset::Ship => 6,
            Asset::Lion => 7,
            Asset::Scenery => 8,
            Asset::Decoration => 9,
            Asset::Chariot => 10,
            Asset::Cage => 11,
            Asset::Joker => 12,
            Asset::Emperor => 13,
            Asset::SpecialEvent => 14,
        }
    }

    /// The kind at a position of the declaration order.
    pub open spec fn spec_from_index(i: nat) -> Asset {
        if i == 0 {
            Asset::Gladiator
        } else if i == 1 {
            Asset::Comedian
        } else if i == 2 {
            Asset::Musician
        } else if i == 3 {
            Asset::Horse
        } else if i == 4 {
            Asset::Torch
        } else if i == 5 {
            Asset::Priest
        } else if i == 6 {
            Asset::Ship
        } else if i == 7 {
            Asset::Lion
        } else if i == 8 {
            Asset::Scenery
        } else if i == 9 {
            Asset::Decoration
        } else if i == 10 {
            Asset::Chariot
        } else if i == 11 {
            Asset::Cage
        } else if i == 12 {
            Asset::Joker
        } else if i == 13 {
            Asset::Emperor
        } else {
            Asset::SpecialEvent
        }
    }

    /// Every kind is found again from its position.
    pub proof fn lemma_index_round_trip(self)
        ensures
            self.spec_index() < ASSET_KINDS,
            Asset::spec_from_index(self.spec_index()) == self,
    {
    }

    pub fn index(self) -> (i: usize)
        ensures
            i == self.spec_index(),
            i < ASSET_KINDS,
    {
        match self {
            Asset::Gladiator => 0,
            Asset::Comedian => 1,
            Asset::Musician => 2,
            Asset::Horse => 3,
            Asset::Torch => 4,
            Asset::Priest => 5,
            Asset::Ship => 6,
            Asset::Lion => 7,
            Asset::Scenery => 8,
            Asset::Decoration => 9,
            Asset::Chariot => 10,
            Asset::Cage => 11,
            Asset::Joker => 12,
            Asset::Emperor => 13,
            Asset::SpecialEvent => 14,
        }
    }

    pub fn from_index(i: usize) -> (k: Asset)
        requires
            i < ASSET_KINDS,
        ensures
            k == Asset::spec_from_index(i as nat),
            k.spec_index() == i,
    {
        if i == 0 {
            Asset::Gladiator
        } else if i == 1 {
            Asset::Comedian
        } else if i == 2 {
            Asset::Musician
        } else if i == 3 {
            Asset::Horse
        } else if i == 4 {
            Asset::Torch
        } else if i == 5 {
            Asset::Priest
        } else if i == 6 {
            Asset::Ship
        } else if i == 7 {
            Asset::Lion
        } else if i == 8 {
            Asset::Scenery
        } else if i == 9 {
            Asset::Decoration
        } else if i == 10 {
            Asset::Chariot
        } else if i == 11 {
            Asset::Cage
        } else if i == 12 {
            Asset::Joker
        } else if i == 13 {
            Asset::Emperor
        } else {
            Asset::SpecialEvent
        }
    }
}

/// The three scoring tiers of nobles.
#[derive(Clone, Copy, Debug, PartialEq, Eq, Structural)]
pub enum NobleType {
    Senator,
    Consul,
    Emperor,
}

/// A token on the track.
#[derive(Clone, Copy, Debug, PartialEq, Eq, Structural)]
pub struct Noble {
    pub noble_type: NobleType,
    pub position: u8,
}

/// A purchasable objective of the catalog. It is never changed after load.
#[derive(Clone, Debug, PartialEq, Eq)]
pub struct Event {
    pub id: u8,
    pub name: String,
    pub cost: u8,
    pub base_score: u8,
    /// Size class: 0, 1 or 2. It is shown and has no effect on the rules.
    pub size: u8,
    pub requirements: Vec<Asset>,
    /// What later completers lose: the entry at 0 is for the second player
    /// to produce the event, the entry at 1 for the third, and so on.
    pub penalty_scores: Vec<u8>,
}

/// One player's economy. A player is known by the seat, the index in the
/// list of players; the name is for display only.
#[derive(Clone, Debug, PartialEq, Eq)]
pub struct PlayerState {
    pub name: String,
    pub coins: u32,
    pub assets: Vec<Asset>,
    /// Spaces of the track that the player's arena stands on.
    pub arena: Vec<u8>,
    /// How often the arena was expanded.
    pub arena_level: u8,
    pub podiums: u8,
    pub loge: bool,
    pub season_tickets: u8,
    pub medals: u8,
    pub score: u32,
    /// Set by the one gated purchase of an investing turn.
    pub purchased: bool,
    /// Ids of the events bought.
    pub events: Vec<u8>,
    /// Ids of the events produced.
    pub completed: Vec<u8>,
}

/// The track: the resting places, which never change, and the nobles.
#[derive(Clone, Debug, PartialEq, Eq)]
pub struct Board {
    pub resting_places: Vec<u8>,
    pub nobles: Vec<Noble>,
}

/// Why an action was refused.
#[derive(Clone, Copy, Debug, PartialEq, Eq, Structural)]
pub enum ActionError {
    /// The action does not belong to the current phase.
    InvalidPhaseForAction,
    /// Another player has to act first.
    NotYourTurn,
    /// Not enough coins, medals, tickets or assets.
    InsufficientResource,
    /// An unknown player, event, batch, noble or space, or a trade with oneself.
    InvalidTarget,
    /// A bid that does not beat the standing one, or a bid on no auction.
    StaleAuctionBid,
    /// A second paid investment in one round.
    DuplicatePurchase,
    /// The event was already produced by this player.
    AlreadyCompleted,
}

/// One move submitted to the engine. The player is never named: it is the
/// one the current phase waits for.
#[derive(Clone, Debug, PartialEq, Eq)]
pub enum Action {
    /// Investing: buy the event of this id. Ends the turn.
    BuyEvent { id: u8 },
    /// Investing: let the arena grow onto this space of the track. Ends the
    /// turn.
    ExpandArena { space: u8 },
    /// Investing: buy a season ticket from the pool. The turn goes on.
    BuySeasonTicket,
    /// Investing: build the loge, once in a game. The turn goes on.
    BuildLoge,
    /// Investing: pay for the special event asset. Ends the turn.
    ExtraInvestSpecialEvent,
    /// Investing: pay for two medals of the pool. Ends the turn.
    ExtraInvestTwoMedals,
    /// Investing: end the turn.
    PassInvesting,
    /// Acquiring: open the auction of a batch with a bid of at least one
    /// coin.
    StartBid { batch: u8, bid: u8 },
    /// Acquiring: outbid the standing bid.
    Bid { bid: u8 },
    /// Acquiring: leave the open auction.
    PassBid,
    /// Acquiring: decline to open an auction.
    PassAcquiring,
    /// Trading: offer the player of seat `player_id` the assets and coins
    /// given for those received.
    ProposeTrade {
        player_id: u8,
        assets_given: Vec<Asset>,
        money_given: u8,
        assets_received: Vec<Asset>,
        money_received: u8,
    },
    /// Trading: the target takes the pending offer.
    AcceptTrade,
    /// Trading: the target turns the pending offer down.
    RejectTrade,
    /// Trading: end the turn.
    PassTrading,
    /// Producing: the free move of a turn: a noble goes on by the roll.
    MoveNoble { noble_idx: u8, dice_roll: u8 },
    /// Producing: a further move, for a medal.
    ExchangeMedalForMove { noble_idx: u8, dice_roll: u8 },
    /// Producing: a medal for points.
    ExchangeMedalForPoints,
    /// Producing: stage the event of this id.
    ProduceEvent { id: u8 },
    /// Producing: end the turn.
    PassProducing,
    /// A round is closed without any action of a player: no phase accepts
    /// this.
    DiscardAsset { asset: Asset },
    /// A round is closed without any action of a player: no phase accepts
    /// this.
    StealAsset { asset: Asset },
    /// In any phase but the last: a medal for coins of the bank.
    ExchangeMedalForCoins,
}

} // verus!
