//! The coins that the players hold together, and facts about them.

use vstd::prelude::*;
use crate::model::PlayerView;

verus! {

/// Coins held by all players together.
pub open spec fn total_coins(players: Seq<PlayerView>) -> nat
    decreases players.len(),
{
    if players.len() == 0 {
        0
    } else {
        total_coins(players.drop_last()) + players.last().coins
    }
}


/// Replacing one player changes the total by the change of that player's
/// coins.
pub proof fn lemma_total_coins_update(players: Seq<PlayerView>, i: int, player: PlayerView)
    requires
        0 <= i < players.len(),
    ensures
        total_coins(players.update(i, player)) == total_coins(players) - players[i].coins
            + player.coins,
        players[i].coins <= total_coins(players),
    decreases players.len(),
{
    let after = players.update(i, player);
    if i == players.len() - 1 {
        assert(after.drop_last() =~= players.drop_last());
    } else {
        lemma_total_coins_update(players.drop_last(), i, player);
        assert(after.drop_last() =~= players.drop_last().update(i, player));
    }
}

/// Two players hold no more than all together.
pub proof fn lemma_two_players_coins(players: Seq<PlayerView>, i: int, j: int)
    requires
        0 <= i < players.len(),
        0 <= j < players.len(),
        i != j,
    ensures
        players[i].coins + players[j].coins <= total_coins(players),
{
    let zero = PlayerView { coins: 0, ..players[i] };
    lemma_total_coins_update(players, i, zero);
    lemma_total_coins_update(players.update(i, zero), j, players[j]);
}

/// Players who differ in nothing but the mark of a purchase hold the same.
pub proof fn lemma_total_coins_same(a: Seq<PlayerView>, b: Seq<PlayerView>)
    requires
        a.len() == b.len(),
        forall|i: int| 0 <= i < a.len() ==> a[i].coins == b[i].coins,
    ensures
        total_coins(a) == total_coins(b),
    decreases a.len(),
{
    if a.len() > 0 {
        lemma_total_coins_same(a.drop_last(), b.drop_last());
    }
}

} // verus!
