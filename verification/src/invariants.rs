//! What every step keeps: the coins of players and bank together, and the
//! validity of the state.

use vstd::prelude::*;
use crate::acquiring::{acquiring_effect, acquiring_legality, awarded};
use crate::investing::{investing_effect, investing_legality};
use crate::ledger::{lemma_total_coins_same, lemma_total_coins_update, total_coins};
use crate::lookup::{lemma_scan_seats, next_contender, next_seat};
use crate::model::{GameView, PhaseView, PlayerView};
use crate::producing::{noble_moved, producing_effect, producing_legality};
use crate::rules::{closed, effect, legality, medal_cashed, player_wf, purchases_cleared};
use crate::trading::{traded, trading_effect, trading_legality};
use crate::types::Action;

verus! {

/// All the coins of the game: those of the players and those of the bank.
pub open spec fn all_coins(s: GameView) -> nat {
    total_coins(s.players) + s.bank
}

/// Whether a player's name, arena, podiums, loge, season tickets and lists
/// of events are in `after` what they were in `before`, or more.
pub open spec fn upgrades_kept(before: PlayerView, after: PlayerView) -> bool {
    &&& after.name == before.name
    &&& before.arena.is_prefix_of(after.arena)
    &&& after.arena_level >= before.arena_level
    &&& after.podiums >= before.podiums
    &&& after.season_tickets >= before.season_tickets
    &&& before.loge ==> after.loge
    &&& before.events.is_prefix_of(after.events)
    &&& before.completed.is_prefix_of(after.completed)
}

/// Whether `t` differs from the valid state `s` in a way that keeps all but
/// the phase valid: the same seats, coins conserved, pools that only
/// shrink, the same catalog and resting places, and players that stay
/// valid beside the pools and lose none of their upgrades.
pub open spec fn kept(s: GameView, t: GameView) -> bool {
    &&& t.seats() == s.seats()
    &&& t.first_player == s.first_player
    &&& t.current_round == s.current_round
    &&& t.available_medals <= s.available_medals
    &&& t.available_tickets <= s.available_tickets
    &&& t.market.len() <= s.market.len()
    &&& t.events == s.events
    &&& t.resting_places == s.resting_places
    &&& t.nobles.len() == s.nobles.len()
    &&& all_coins(t) == all_coins(s)
    &&& forall|i: int| 0 <= i < t.seats() ==> upgrades_kept(s.players[i], #[trigger] t.players[i])
    &&& forall|i: int|
        0 <= i < t.seats() ==> player_wf(
            #[trigger] t.players[i],
            t.available_medals,
            t.available_tickets,
        )
    &&& forall|i: int| 0 <= i < t.nobles.len() ==> (#[trigger] t.nobles[i]).position < crate::types::BOARD_SIZE
}

/// A payment to the bank moves coins and loses none.
pub proof fn lemma_paid(s: GameView, p: nat, cost: nat)
    requires
        p < s.seats(),
        cost <= s.players[p as int].coins,
    ensures
        all_coins(s.paid(p, cost)) == all_coins(s),
{
    lemma_total_coins_update(s.players, p as int, s.paid(p, cost).players[p as int]);
}

/// Replacing a player by one with the same coins keeps the total.
pub proof fn lemma_with_player(s: GameView, p: nat, player: PlayerView)
    requires
        p < s.seats(),
    ensures
        total_coins(s.with_player(p, player).players) == total_coins(s.players) - s.players[p as int].coins
            + player.coins,
{
    lemma_total_coins_update(s.players, p as int, player);
}

/// An investing action keeps the coins and the validity.
pub proof fn lemma_investing_step(s: GameView, p: nat, action: Action)
    requires
        s.wf(),
        s.phase == (PhaseView::Investing { active_player: p }),
        investing_legality(s, p, action) is None,
    ensures
        kept(s, investing_effect(s, p, action)),
        investing_effect(s, p, action).phase_wf(),
{
    let t = investing_effect(s, p, action);
    let me = s.players[p as int];
    match action {
        Action::PassInvesting => {},
        Action::BuySeasonTicket => {
            let mid = s.paid(p, crate::investing::TICKET_COST as nat);
            lemma_paid(s, p, crate::investing::TICKET_COST as nat);
            lemma_with_player(mid, p, t.players[p as int]);
        },
        Action::BuildLoge => {
            let mid = s.paid(p, crate::investing::LOGE_COST as nat);
            lemma_paid(s, p, crate::investing::LOGE_COST as nat);
            lemma_with_player(mid, p, t.players[p as int]);
        },
        Action::BuyEvent { id } => {
            let cost = crate::lookup::find_event(s.events, id).unwrap().cost;
            let mid = s.paid(p, cost);
            lemma_paid(s, p, cost);
            lemma_with_player(mid, p, t.players[p as int]);
        },
        Action::ExpandArena { .. } => {
            let cost = crate::investing::arena_cost(me.arena_level);
            let mid = s.paid(p, cost);
            lemma_paid(s, p, cost);
            lemma_with_player(mid, p, t.players[p as int]);
        },
        Action::ExtraInvestSpecialEvent => {
            let mid = s.paid(p, crate::investing::EXTRA_INVEST_COST as nat);
            lemma_paid(s, p, crate::investing::EXTRA_INVEST_COST as nat);
            lemma_with_player(mid, p, t.players[p as int]);
        },
        Action::ExtraInvestTwoMedals => {
            let mid = s.paid(p, crate::investing::EXTRA_INVEST_COST as nat);
            lemma_paid(s, p, crate::investing::EXTRA_INVEST_COST as nat);
            lemma_with_player(mid, p, t.players[p as int]);
        },
        _ => {},
    }
}

/// While nobody has passed, the seat after the bidder is the next to act.
pub proof fn lemma_first_contender(passed: Seq<bool>, from: nat)
    requires
        2 <= passed.len(),
        from < passed.len(),
        forall|i: int| 0 <= i < passed.len() ==> !#[trigger] passed[i],
    ensures
        next_contender(passed, from, from) == Some(next_seat(passed.len(), from)),
{
}

/// An action of the acquiring phase keeps the coins and the validity.
pub proof fn lemma_acquiring_step(s: GameView, action: Action)
    requires
        s.wf(),
        s.phase is Acquiring,
        acquiring_legality(s, action) is None,
    ensures
        kept(s, acquiring_effect(s, action)),
        acquiring_effect(s, action).phase_wf(),
{
    let t = acquiring_effect(s, action);
    match s.phase {
        PhaseView::Acquiring {
            active_player,
            current_batch,
            current_bidder,
            current_bid,
            opener,
            passed,
        } => {
            let n = s.seats();
            match action {
                Action::StartBid { .. } => {
                    lemma_first_contender(passed, active_player);
                },
                Action::Bid { .. } => {
                    lemma_scan_seats(
                        passed,
                        next_seat(n, active_player),
                        active_player,
                        (n - 1) as nat,
                    );
                },
                Action::PassBid => {
                    let left = passed.update(active_player as int, true);
                    let bidder = current_bidder.unwrap();
                    lemma_scan_seats(left, next_seat(n, active_player), bidder, (n - 1) as nat);
                    if next_contender(left, active_player, bidder) is None {
                        lemma_awarded(s, bidder, current_batch, current_bid, opener);
                    }
                },
                _ => {},
            }
        },
        _ => {},
    }
}

/// Awarding a batch keeps the coins and the validity.
pub proof fn lemma_awarded(s: GameView, winner: nat, batch: nat, price: nat, opener: nat)
    requires
        s.wf(),
        winner < s.seats(),
        opener < s.seats(),
        batch < s.market.len(),
        price <= s.players[winner as int].coins,
    ensures
        kept(s, awarded(s, winner, batch, price, opener)),
        awarded(s, winner, batch, price, opener).phase_wf(),
{
    let t = awarded(s, winner, batch, price, opener);
    let mid = s.paid(winner, price);
    lemma_paid(s, winner, price);
    lemma_with_player(mid, winner, t.players[winner as int]);
}

/// An action of the trading phase keeps the coins and the validity.
pub proof fn lemma_trading_step(s: GameView, action: Action)
    requires
        s.wf(),
        s.phase is Trading,
        trading_legality(s, action) is None,
    ensures
        kept(s, trading_effect(s, action)),
        trading_effect(s, action).phase_wf(),
{
    match s.phase {
        PhaseView::Trading { active_player, pending_trade } => {
            if action is AcceptTrade {
                let t = pending_trade.unwrap();
                let giver = t.proposer_id as int;
                let taker = t.target_id as int;
                let after = traded(s, t);
                let half = s.players.update(giver, after[giver]);
                lemma_total_coins_update(s.players, giver, after[giver]);
                lemma_total_coins_update(half, taker, after[taker]);
                assert(after =~= half.update(taker, after[taker]));
            }
        },
        _ => {},
    }
}

/// A move of a noble keeps the coins and the validity of all but the phase.
pub proof fn lemma_noble_moved(s: GameView, p: nat, noble_idx: nat, roll: u8)
    requires
        s.wf(),
        p < s.seats(),
        noble_idx < s.nobles.len(),
    ensures
        kept(s, noble_moved(s, p, noble_idx, roll)),
        noble_moved(s, p, noble_idx, roll).phase == s.phase,
        noble_moved(s, p, noble_idx, roll).market == s.market,
{
    let t = noble_moved(s, p, noble_idx, roll);
    lemma_with_player(s, p, t.players[p as int]);
    assert(t.nobles.len() == s.nobles.len());
}

/// An action of the producing phase keeps the coins and the validity.
pub proof fn lemma_producing_step(s: GameView, action: Action)
    requires
        s.wf(),
        s.phase is Producing,
        producing_legality(s, action) is None,
    ensures
        kept(s, producing_effect(s, action)),
        producing_effect(s, action).phase_wf(),
{
    let t = producing_effect(s, action);
    match s.phase {
        PhaseView::Producing { active_player, moved } => {
            let me = s.players[active_player as int];
            match action {
                Action::MoveNoble { noble_idx, dice_roll } => {
                    lemma_noble_moved(s, active_player, noble_idx as nat, dice_roll);
                },
                Action::ExchangeMedalForMove { noble_idx, dice_roll } => {
                    let spent = s.with_player(
                        active_player,
                        PlayerView { medals: (me.medals - 1) as nat, ..me },
                    );
                    lemma_with_player(s, active_player, spent.players[active_player as int]);
                    assert(spent.wf());
                    lemma_noble_moved(spent, active_player, noble_idx as nat, dice_roll);
                },
                Action::ExchangeMedalForPoints => {
                    lemma_with_player(s, active_player, t.players[active_player as int]);
                },
                Action::ProduceEvent { id } => {
                    lemma_with_player(s, active_player, t.players[active_player as int]);
                    crate::lookup::lemma_find_event(s.events, id);
                    assert(me.completed.push(id).no_duplicates());
                },
                _ => {},
            }
        },
        _ => {},
    }
}

/// Cashing a medal keeps the coins and the validity.
pub proof fn lemma_medal_cashed(s: GameView)
    requires
        s.wf(),
        !(s.phase is GameOver),
        s.players[s.actor() as int].medals > 0,
        s.bank >= crate::rules::MEDAL_COINS,
    ensures
        kept(s, medal_cashed(s)),
        medal_cashed(s).phase_wf(),
{
    let t = medal_cashed(s);
    let p = s.actor();
    lemma_with_player(s, p, t.players[p as int]);
    match s.phase {
        PhaseView::Acquiring { current_bidder, .. } => {
            if current_bidder is Some {
                let b = current_bidder.unwrap();
                assert(t.players[b as int].coins >= s.players[b as int].coins);
            }
        },
        _ => {},
    }
}

/// Every legal action keeps the state valid, and with it what `kept` lists:
/// the coins of the game, of which none is made or lost, the round and its
/// first seat, the catalog, pools and a market that only shrink, and the
/// upgrades of every player.
pub proof fn lemma_step(s: GameView, action: Action)
    requires
        s.wf(),
        legality(s, action) is None,
    ensures
        effect(s, action).wf(),
        kept(s, effect(s, action)),
{
    let t = effect(s, action);
    if action is ExchangeMedalForCoins {
        lemma_medal_cashed(s);
    } else {
        match s.phase {
            PhaseView::Investing { active_player } => {
                lemma_investing_step(s, active_player, action);
            },
            PhaseView::Acquiring { .. } => {
                lemma_acquiring_step(s, action);
            },
            PhaseView::Trading { .. } => {
                lemma_trading_step(s, action);
            },
            PhaseView::Producing { .. } => {
                lemma_producing_step(s, action);
            },
            _ => {},
        }
    }
    assert(kept(s, t));
}

/// Closing a round keeps the state valid and all the coins of the game.
pub proof fn lemma_closed(s: GameView)
    requires
        s.wf(),
        s.phase is Closing,
    ensures
        closed(s).wf(),
        closed(s).seats() == s.seats(),
        all_coins(closed(s)) == all_coins(s),
        closed(s).available_medals == s.available_medals,
        closed(s).available_tickets == s.available_tickets,
        closed(s).market == s.market,
        closed(s).events == s.events,
        closed(s).nobles == s.nobles,
        forall|i: int| 0 <= i < s.seats() ==> upgrades_kept(s.players[i], #[trigger] closed(s).players[i]),
{
    lemma_total_coins_same(s.players, purchases_cleared(s.players));
}

} // verus!
