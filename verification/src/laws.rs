//! Laws of the game, proved of the rules for every state and every play.

use vstd::prelude::*;
use crate::invariants::{all_coins, lemma_closed, lemma_step, upgrades_kept};
use crate::model::{GameView, PhaseView};
use crate::rules::{closed, effect, legality, ROUND_LIMIT, step};
use crate::trading::trade_covered;
use crate::types::{Action, ActionError, BOARD_SIZE};

verus! {

/// What the caller may do next: submit an action, or have the round closed.
pub enum Move {
    Act(Action),
    Close,
}

/// The state after one move.
pub open spec fn advance(s: GameView, m: Move) -> GameView {
    match m {
        Move::Act(action) => step(s, action),
        Move::Close => if s.phase is Closing {
            closed(s)
        } else {
            s
        },
    }
}

/// The state after a run of moves.
pub open spec fn play(s: GameView, moves: Seq<Move>) -> GameView
    decreases moves.len(),
{
    if moves.len() == 0 {
        s
    } else {
        advance(play(s, moves.drop_last()), moves.last())
    }
}

/// What no play undoes: the seats, the coins of the game, the catalog and
/// the resting places stay; pools and market only shrink; the round only
/// goes up; no player loses an upgrade or an event.
pub open spec fn outlasts(s: GameView, t: GameView) -> bool {
    &&& t.seats() == s.seats()
    &&& all_coins(t) == all_coins(s)
    &&& t.available_medals <= s.available_medals
    &&& t.available_tickets <= s.available_tickets
    &&& t.market.len() <= s.market.len()
    &&& t.events == s.events
    &&& t.resting_places == s.resting_places
    &&& t.nobles.len() == s.nobles.len()
    &&& t.current_round >= s.current_round
    &&& forall|i: int| 0 <= i < s.seats() ==> upgrades_kept(s.players[i], #[trigger] t.players[i])
}

/// One move from a valid state gives a valid state that outlasts it.
pub proof fn lemma_advance(s: GameView, m: Move)
    requires
        s.wf(),
    ensures
        advance(s, m).wf(),
        outlasts(s, advance(s, m)),
{
    match m {
        Move::Act(action) => {
            if legality(s, action) is None {
                lemma_step(s, action);
            }
        },
        Move::Close => {
            if s.phase is Closing {
                lemma_closed(s);
            }
        },
    }
}

/// Whatever is played from a valid state, the state stays valid and
/// outlasts the one that the play began with.
pub proof fn lemma_play(s: GameView, moves: Seq<Move>)
    requires
        s.wf(),
    ensures
        play(s, moves).wf(),
        outlasts(s, play(s, moves)),
    decreases moves.len(),
{
    if moves.len() > 0 {
        let before = play(s, moves.drop_last());
        let after = play(s, moves);
        lemma_play(s, moves.drop_last());
        lemma_advance(before, moves.last());
        assert forall|i: int| 0 <= i < s.seats() implies upgrades_kept(
            s.players[i],
            #[trigger] after.players[i],
        ) by {
            assert(upgrades_kept(s.players[i], before.players[i]));
            assert(upgrades_kept(before.players[i], after.players[i]));
        }
    }
}

/// Whatever is played from a valid state, the coins of players and bank
/// together stay what they were: coins only pass between a player and the
/// bank or another player.
pub proof fn lemma_coins_conserved(s: GameView, moves: Seq<Move>)
    requires
        s.wf(),
    ensures
        all_coins(play(s, moves)) == all_coins(s),
{
    lemma_play(s, moves);
}

/// The shared pools of medals and season tickets are never filled up
/// again, and no batch comes back to the market.
pub proof fn lemma_pools_never_refill(s: GameView, moves: Seq<Move>)
    requires
        s.wf(),
    ensures
        play(s, moves).available_medals <= s.available_medals,
        play(s, moves).available_tickets <= s.available_tickets,
        play(s, moves).market.len() <= s.market.len(),
{
    lemma_play(s, moves);
}

/// The round goes up by one when a round that is not the last is closed,
/// and at no other move.
pub proof fn lemma_round_counts_closings(s: GameView, m: Move)
    requires
        s.wf(),
    ensures
        advance(s, m).current_round == if m is Close && s.phase is Closing && s.current_round
            < ROUND_LIMIT {
            s.current_round + 1
        } else {
            s.current_round
        },
{
    lemma_advance(s, m);
    match m {
        Move::Act(action) => {
            if legality(s, action) is None {
                lemma_step(s, action);
            }
        },
        Move::Close => {},
    }
}

/// A score never falls, but where the player produces an event at a
/// penalty; and coins are never taken from a player who is not the one to
/// act, but in a trade that the player proposed, or as the price of a
/// batch that the player's bid has won.
pub proof fn lemma_scores_and_coins_are_safe(s: GameView, m: Move, p: int)
    requires
        s.wf(),
        0 <= p < s.seats(),
    ensures
        advance(s, m).players[p].score < s.players[p].score ==> p == s.actor() && m
            matches Move::Act(Action::ProduceEvent { .. }),
        advance(s, m).players[p].coins < s.players[p].coins ==> p == s.actor() || (m
            matches Move::Act(Action::AcceptTrade) && s.phase matches PhaseView::Trading {
            active_player,
            ..
        } && p == active_player) || (m matches Move::Act(Action::PassBid)
            && s.phase matches PhaseView::Acquiring { current_bidder: Some(b), .. } && p == b),
{
    match m {
        Move::Act(action) => {
            if legality(s, action) is None {
                lemma_step(s, action);
            }
        },
        Move::Close => {},
    }
}

/// When the game is over nothing changes the state any more: the final
/// scores are those of the state in which the last round was closed.
pub proof fn lemma_game_over_is_final(s: GameView, moves: Seq<Move>)
    requires
        s.phase is GameOver,
    ensures
        play(s, moves) == s,
    decreases moves.len(),
{
    if moves.len() > 0 {
        lemma_game_over_is_final(s, moves.drop_last());
    }
}

/// An event that a player has produced stays produced whatever is played.
pub proof fn lemma_completed_for_good(s: GameView, moves: Seq<Move>, p: int, id: u8)
    requires
        s.wf(),
        0 <= p < s.seats(),
        s.players[p].completed.contains(id),
    ensures
        play(s, moves).seats() == s.seats(),
        play(s, moves).players[p].completed.contains(id),
{
    lemma_play(s, moves);
    let before = s.players[p].completed;
    let after = play(s, moves).players[p].completed;
    assert(upgrades_kept(s.players[p], play(s, moves).players[p]));
    let i = choose|i: int| 0 <= i < before.len() && before[i] == id;
    assert(after[i] == id);
}

/// A player produces an event at most once in a game: once it is produced,
/// the player has it as completed, and whatever is played after that, the
/// same player's `ProduceEvent` for it is refused as `AlreadyCompleted`.
pub proof fn lemma_produced_once(s: GameView, id: u8, moves: Seq<Move>)
    requires
        s.wf(),
        legality(s, Action::ProduceEvent { id }) is None,
    ensures
        ({
            let p = s.actor();
            let t = play(effect(s, Action::ProduceEvent { id }), moves);
            &&& p < t.seats()
            &&& t.players[p as int].completed.contains(id)
            &&& t.phase is Producing && t.actor() == p ==> legality(
                t,
                Action::ProduceEvent { id },
            ) == Some(ActionError::AlreadyCompleted)
        }),
{
    let p = s.actor();
    let produced = effect(s, Action::ProduceEvent { id });
    lemma_step(s, Action::ProduceEvent { id });
    let done = s.players[p as int].completed;
    assert(done.push(id)[done.len() as int] == id);
    lemma_completed_for_good(produced, moves, p as int, id);
}

/// While an auction is open, a step that leaves it open never lowers the
/// bid, raises it whenever the bidder changes, never lets a seat back that
/// has passed, and leaves as bidder a seat that has not passed.
pub proof fn lemma_auction_rises(s: GameView, action: Action)
    requires
        s.wf(),
        legality(s, action) is None,
        s.phase is Acquiring,
        s.phase->Acquiring_current_bidder is Some,
        effect(s, action).phase is Acquiring,
        effect(s, action).phase->Acquiring_current_bidder is Some,
    ensures
        ({
            let t = effect(s, action);
            let bid = s.phase->Acquiring_current_bid;
            let new_bid = t.phase->Acquiring_current_bid;
            let bidder = s.phase->Acquiring_current_bidder.unwrap();
            let new_bidder = t.phase->Acquiring_current_bidder.unwrap();
            let passed = s.phase->Acquiring_passed;
            let new_passed = t.phase->Acquiring_passed;
            &&& t.phase->Acquiring_current_batch == s.phase->Acquiring_current_batch
            &&& new_bid >= bid
            &&& new_bidder != bidder ==> new_bid > bid
            &&& action is Bid ==> new_bid > bid && new_bidder == s.actor()
            &&& new_passed.len() == passed.len()
            &&& forall|i: int| 0 <= i < passed.len() && passed[i] ==> new_passed[i]
            &&& !new_passed[new_bidder as int]
        }),
{
    lemma_step(s, action);
}

/// `AcceptTrade` is legal exactly when both sides hold what the pending
/// trade moves; and then the two players hold together, in coins and in
/// assets, what they held before.
pub proof fn lemma_trade_is_fair(s: GameView)
    requires
        s.wf(),
        s.phase is Trading,
        s.phase->Trading_pending_trade is Some,
    ensures
        ({
            let t = s.phase->Trading_pending_trade.unwrap();
            let after = effect(s, Action::AcceptTrade);
            let a = t.proposer_id as int;
            let b = t.target_id as int;
            &&& legality(s, Action::AcceptTrade) is None <==> trade_covered(s, t)
            &&& trade_covered(s, t) ==> {
                &&& after.players[a].coins + after.players[b].coins == s.players[a].coins
                    + s.players[b].coins
                &&& after.players[a].assets.add(after.players[b].assets) == s.players[a].assets.add(
                    s.players[b].assets,
                )
                &&& forall|i: int|
                    0 <= i < s.seats() && i != a && i != b ==> after.players[i] == s.players[i]
            }
        }),
{
    let t = s.phase->Trading_pending_trade.unwrap();
    let after = effect(s, Action::AcceptTrade);
    let a = t.proposer_id as int;
    let b = t.target_id as int;
    if trade_covered(s, t) {
        assert(after.players[a].assets.add(after.players[b].assets) =~= s.players[a].assets.add(
            s.players[b].assets,
        ));
    }
}

/// A move of a noble puts it `roll` spaces on, going round the track of 36
/// spaces, and leaves the other nobles where they are.
pub proof fn lemma_noble_walks(s: GameView, noble_idx: u8, dice_roll: u8, paid_with_medal: bool)
    requires
        s.wf(),
        legality(
            s,
            if paid_with_medal {
                Action::ExchangeMedalForMove { noble_idx, dice_roll }
            } else {
                Action::MoveNoble { noble_idx, dice_roll }
            },
        ) is None,
    ensures
        ({
            let action = if paid_with_medal {
                Action::ExchangeMedalForMove { noble_idx, dice_roll }
            } else {
                Action::MoveNoble { noble_idx, dice_roll }
            };
            let t = effect(s, action);
            &&& t.nobles.len() == s.nobles.len()
            &&& noble_idx < s.nobles.len()
            &&& t.nobles[noble_idx as int].position == (s.nobles[noble_idx as int].position
                + dice_roll) % (BOARD_SIZE as int)
            &&& t.nobles[noble_idx as int].noble_type == s.nobles[noble_idx as int].noble_type
            &&& forall|i: int|
                0 <= i < s.nobles.len() && i != noble_idx ==> t.nobles[i] == s.nobles[i]
        }),
{
}

/// Whatever is played from a valid state, every noble stands on one of the
/// 36 spaces of the track.
pub proof fn lemma_nobles_on_track(s: GameView, moves: Seq<Move>, i: int)
    requires
        s.wf(),
        0 <= i < play(s, moves).nobles.len(),
    ensures
        play(s, moves).nobles[i].position < BOARD_SIZE,
{
    lemma_play(s, moves);
}

} // verus!
