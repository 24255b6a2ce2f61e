//! Searches that the engine makes: an event of the catalog, an id in a list,
//! the owner of a space, the next seat of a turn or of an auction.

use vstd::prelude::*;
use crate::model::{events_view, EventView, players_view, PlayerView};
use crate::types::{Event, PlayerState};

verus! {

/// The seat after `p` among `n`, going round.
pub open spec fn next_seat(n: nat, p: nat) -> nat {
    if p + 1 < n {
        p + 1
    } else {
        0
    }
}

/// The first catalog entry with the id.
pub open spec fn find_event(events: Seq<EventView>, id: u8) -> Option<EventView>
    decreases events.len(),
{
    if events.len() == 0 {
        None
    } else if events[0].id == id {
        Some(events[0])
    } else {
        find_event(events.drop_first(), id)
    }
}

/// An entry that `find_event` gives is one of the catalog, with the id.
pub proof fn lemma_find_event(events: Seq<EventView>, id: u8)
    ensures
        match find_event(events, id) {
            Some(ev) => ev.id == id && events.contains(ev),
            None => forall|i: int| 0 <= i < events.len() ==> (#[trigger] events[i]).id != id,
        },
    decreases events.len(),
{
    if events.len() > 0 && events[0].id != id {
        lemma_find_event(events.drop_first(), id);
        match find_event(events, id) {
            Some(ev) => {
                let i = choose|i: int| 0 <= i < events.drop_first().len() && events.drop_first()[i] == ev;
                assert(events[i + 1] == ev);
            },
            None => {
                assert forall|i: int| 0 <= i < events.len() implies (#[trigger] events[i]).id
                    != id by {
                    if i > 0 {
                        assert(events.drop_first()[i - 1] == events[i]);
                    }
                }
            },
        }
    }
}

/// How many players have produced the event.
pub open spec fn completions(players: Seq<PlayerView>, id: u8) -> nat
    decreases players.len(),
{
    if players.len() == 0 {
        0
    } else {
        completions(players.drop_last(), id) + if players.last().completed.contains(id) {
            1nat
        } else {
            0nat
        }
    }
}

/// Looks at `steps` seats from `cur` on, going round, for the first that has
/// not passed and is not `skip`.
pub open spec fn scan_seats(passed: Seq<bool>, cur: nat, skip: nat, steps: nat) -> Option<nat>
    decreases steps,
{
    if steps == 0 {
        None
    } else if cur < passed.len() && !passed[cur as int] && cur != skip {
        Some(cur)
    } else {
        scan_seats(passed, next_seat(passed.len(), cur), skip, (steps - 1) as nat)
    }
}

/// The next seat after `from` that is still in the auction and is not `skip`.
pub open spec fn next_contender(passed: Seq<bool>, from: nat, skip: nat) -> Option<nat> {
    scan_seats(passed, next_seat(passed.len(), from), skip, (passed.len() - 1) as nat)
}


/// Whether the list holds the id.
pub fn has_id(ids: &Vec<u8>, id: u8) -> (b: bool)
    ensures
        b == ids@.contains(id),
{
    let mut i: usize = 0;
    while i < ids.len()
        invariant
            i <= ids.len(),
            forall|j: int| 0 <= j < i ==> ids@[j] != id,
        decreases ids.len() - i,
    {
        if ids[i] == id {
            return true;
        }
        i = i + 1;
    }
    false
}

/// The position of the first catalog entry with the id.
pub fn event_position(events: &Vec<Event>, id: u8) -> (r: Option<usize>)
    ensures
        match r {
            Some(i) => i < events@.len() && find_event(events_view(events@), id) == Some(
                events@[i as int]@,
            ),
            None => find_event(events_view(events@), id) is None,
        },
{
    let ghost all = events_view(events@);
    let mut i: usize = 0;
    proof {
        assert(all.skip(0) =~= all);
    }
    while i < events.len()
        invariant
            i <= events.len(),
            all == events_view(events@),
            find_event(all, id) == find_event(all.skip(i as int), id),
        decreases events.len() - i,
    {
        proof {
            assert(all.skip(i as int).drop_first() =~= all.skip(i + 1));
            assert(all.skip(i as int)[0] == events@[i as int]@);
        }
        if events[i].id == id {
            return Some(i);
        }
        i = i + 1;
    }
    None
}

/// How many players have produced the event.
pub fn count_completions(players: &Vec<PlayerState>, id: u8) -> (n: usize)
    ensures
        n == completions(players_view(players@), id),
{
    let ghost all = players_view(players@);
    let mut n: usize = 0;
    let mut i: usize = 0;
    while i < players.len()
        invariant
            i <= players.len(),
            all == players_view(players@),
            n <= i,
            n == completions(all.take(i as int), id),
        decreases players.len() - i,
    {
        proof {
            assert(all.take(i + 1).drop_last() =~= all.take(i as int));
            assert(all.take(i + 1).last() == players@[i as int]@);
        }
        if has_id(&players[i].completed, id) {
            n = n + 1;
        }
        i = i + 1;
    }
    proof {
        assert(all.take(i as int) =~= all);
    }
    n
}

/// Whether an arena stands on the space.
pub open spec fn space_taken(players: Seq<PlayerView>, space: u8) -> bool {
    exists|i: int| 0 <= i < players.len() && (#[trigger] players[i]).arena.contains(space)
}

/// Whether an arena stands on the space.
pub fn is_taken(players: &Vec<PlayerState>, space: u8) -> (b: bool)
    ensures
        b == space_taken(players_view(players@), space),
{
    let ghost all = players_view(players@);
    let mut i: usize = 0;
    while i < players.len()
        invariant
            i <= players.len(),
            all == players_view(players@),
            forall|j: int| 0 <= j < i ==> !(#[trigger] all[j]).arena.contains(space),
        decreases players.len() - i,
    {
        if has_id(&players[i].arena, space) {
            proof {
                assert(all[i as int].arena.contains(space));
            }
            return true;
        }
        i = i + 1;
    }
    false
}

/// The seat after `p` among `n`, going round.
pub fn seat_after(n: usize, p: usize) -> (q: usize)
    requires
        p < n,
    ensures
        q == next_seat(n as nat, p as nat),
        q < n,
{
    if p + 1 < n {
        p + 1
    } else {
        0
    }
}

/// What `scan_seats` finds, if anything, is a seat in the auction.
pub proof fn lemma_scan_seats(passed: Seq<bool>, cur: nat, skip: nat, steps: nat)
    requires
        cur < passed.len(),
    ensures
        match scan_seats(passed, cur, skip, steps) {
            Some(c) => c < passed.len() && !passed[c as int] && c != skip,
            None => true,
        },
    decreases steps,
{
    if steps > 0 && !(!passed[cur as int] && cur != skip) {
        lemma_scan_seats(passed, next_seat(passed.len(), cur), skip, (steps - 1) as nat);
    }
}

/// The next seat after `from` that has not passed and is not `skip`.
pub fn find_contender(passed: &Vec<bool>, from: usize, skip: usize) -> (r: Option<usize>)
    requires
        from < passed@.len(),
    ensures
        match r {
            Some(c) => next_contender(passed@, from as nat, skip as nat) == Some(c as nat) && c
                < passed@.len() && !passed@[c as int] && c != skip,
            None => next_contender(passed@, from as nat, skip as nat) is None,
        },
{
    let n = passed.len();
    let mut cur = seat_after(n, from);
    let mut steps: usize = n - 1;
    while steps > 0
        invariant
            n == passed@.len(),
            cur < n,
            next_contender(passed@, from as nat, skip as nat) == scan_seats(
                passed@,
                cur as nat,
                skip as nat,
                steps as nat,
            ),
        decreases steps,
    {
        if !passed[cur] && cur != skip {
            return Some(cur);
        }
        cur = seat_after(n, cur);
        steps = steps - 1;
    }
    None
}

} // verus!
