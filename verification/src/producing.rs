//! The producing phase: nobles move, medals are spent, events are staged.
//! Its rules, and the code that carries out a legal action.

use vstd::prelude::*;
use crate::board::moved_position;
use crate::game_state::{GameState, Phase};
use crate::lookup::{completions, count_completions, event_position, find_event};
use crate::model::{EventView, GameView, PhaseView, PlayerView};
use crate::rules::MEDAL_POINTS;
use crate::staging::{after_staging, can_stage, stage};
use crate::types::{Action, ActionError, Event, Noble};

verus! {

/// The highest roll of the die.
pub const MAX_ROLL: u8 = 6;

/// What a player loses who produces the event after `rank` others. The
/// first to produce it loses nothing; so does one for whom the list of
/// penalties has no entry.
pub open spec fn penalty(ev: EventView, rank: nat) -> nat {
    if 1 <= rank <= ev.penalty_scores.len() {
        ev.penalty_scores[rank - 1] as nat
    } else {
        0
    }
}

/// The score after an event of `base` points is produced at `loss` penalty.
pub open spec fn score_after(score: nat, base: nat, loss: nat) -> nat {
    if score + base >= loss {
        (score + base - loss) as nat
    } else {
        0
    }
}

/// The state after player `p` moved a noble by `roll`: the noble stands
/// `roll` spaces on, going round; if that is a resting place and the pool
/// has a medal left, `p` takes one.
pub open spec fn noble_moved(s: GameView, p: nat, noble_idx: nat, roll: u8) -> GameView {
    let noble = s.nobles[noble_idx as int];
    let landed = moved_position(noble.position, roll);
    let t = GameView {
        nobles: s.nobles.update(noble_idx as int, Noble { position: landed, ..noble }),
        ..s
    };
    if s.resting_places.contains(landed) && s.available_medals > 0 {
        let me = s.players[p as int];
        GameView {
            available_medals: (s.available_medals - 1) as nat,
            ..t.with_player(p, PlayerView { medals: me.medals + 1, ..me })
        }
    } else {
        t
    }
}

/// Whether `noble_idx` and `roll` name a move that can be made.
pub open spec fn move_exists(s: GameView, noble_idx: u8, roll: u8) -> bool {
    noble_idx < s.nobles.len() && 1 <= roll <= MAX_ROLL
}

/// Why the active player may not take `action` in a producing turn, if
/// anything.
pub open spec fn producing_legality(s: GameView, action: Action) -> Option<ActionError> {
    match s.phase {
        PhaseView::Producing { active_player, moved } => {
            let me = s.players[active_player as int];
            match action {
                Action::MoveNoble { noble_idx, dice_roll } => if moved {
                    Some(ActionError::InvalidPhaseForAction)
                } else if !move_exists(s, noble_idx, dice_roll) {
                    Some(ActionError::InvalidTarget)
                } else {
                    None
                },
                Action::ExchangeMedalForMove { noble_idx, dice_roll } => if me.medals == 0 {
                    Some(ActionError::InsufficientResource)
                } else if !move_exists(s, noble_idx, dice_roll) {
                    Some(ActionError::InvalidTarget)
                } else {
                    None
                },
                Action::ExchangeMedalForPoints => if me.medals == 0 {
                    Some(ActionError::InsufficientResource)
                } else {
                    None
                },
                Action::ProduceEvent { id } => if me.completed.contains(id) {
                    Some(ActionError::AlreadyCompleted)
                } else {
                    match find_event(s.events, id) {
                        None => Some(ActionError::InvalidTarget),
                        Some(ev) => if !me.events.contains(id) {
                            Some(ActionError::InvalidTarget)
                        } else if !can_stage(me.assets, ev.requirements) {
                            Some(ActionError::InsufficientResource)
                        } else {
                            None
                        },
                    }
                },
                Action::PassProducing => None,
                _ => Some(ActionError::InvalidPhaseForAction),
            }
        },
        _ => Some(ActionError::InvalidPhaseForAction),
    }
}

/// The state after the active player took a legal `action` in a producing
/// turn.
pub open spec fn producing_effect(s: GameView, action: Action) -> GameView {
    match s.phase {
        PhaseView::Producing { active_player, moved } => {
            let me = s.players[active_player as int];
            match action {
                Action::MoveNoble { noble_idx, dice_roll } => GameView {
                    phase: PhaseView::Producing { active_player, moved: true },
                    ..noble_moved(s, active_player, noble_idx as nat, dice_roll)
                },
                Action::ExchangeMedalForMove { noble_idx, dice_roll } => noble_moved(
                    s.with_player(
                        active_player,
                        PlayerView { medals: (me.medals - 1) as nat, ..me },
                    ),
                    active_player,
                    noble_idx as nat,
                    dice_roll,
                ),
                Action::ExchangeMedalForPoints => s.with_player(
                    active_player,
                    PlayerView {
                        medals: (me.medals - 1) as nat,
                        score: me.score + MEDAL_POINTS as nat,
                        ..me
                    },
                ),
                Action::ProduceEvent { id } => {
                    let ev = find_event(s.events, id).unwrap();
                    s.with_player(
                        active_player,
                        PlayerView {
                            assets: after_staging(me.assets, ev.requirements),
                            score: score_after(
                                me.score,
                                ev.base_score,
                                penalty(ev, completions(s.players, id)),
                            ),
                            completed: me.completed.push(id),
                            ..me
                        },
                    )
                },
                Action::PassProducing => GameView {
                    phase: s.after_producing_turn(active_player),
                    ..s
                },
                _ => s,
            }
        },
        _ => s,
    }
}


/// Distinct bytes below a bound are no more than the bound.
pub proof fn lemma_distinct_below(s: Seq<u8>, bound: nat)
    requires
        s.no_duplicates(),
        forall|i: int| 0 <= i < s.len() ==> s[i] < bound,
    ensures
        s.len() <= bound,
    decreases bound,
{
    if bound == 0 {
        if s.len() > 0 {
            assert(s[0] < bound);
        }
    } else if exists|j: int| 0 <= j < s.len() && s[j] == bound - 1 {
        let j = choose|j: int| 0 <= j < s.len() && s[j] == bound - 1;
        let rest = s.remove(j);
        assert forall|i: int| 0 <= i < rest.len() implies rest[i] < bound - 1 by {
            if i < j {
                assert(rest[i] == s[i]);
            } else {
                assert(rest[i] == s[i + 1]);
            }
        }
        assert(rest.no_duplicates()) by {
            assert forall|a: int, b: int|
                0 <= a < rest.len() && 0 <= b < rest.len() && a != b implies rest[a] != rest[b] by {
                let x = if a < j { a } else { a + 1 };
                let y = if b < j { b } else { b + 1 };
                assert(rest[a] == s[x]);
                assert(rest[b] == s[y]);
            }
        }
        lemma_distinct_below(rest, (bound - 1) as nat);
    } else {
        lemma_distinct_below(s, (bound - 1) as nat);
    }
}

/// A list of distinct event ids has at most 256 entries.
pub proof fn lemma_distinct_ids(ids: Seq<u8>)
    requires
        ids.no_duplicates(),
    ensures
        ids.len() <= 256,
{
    lemma_distinct_below(ids, 256);
}

/// What producing `event` costs a player who comes after `rank` others.
pub fn penalty_at(event: &Event, rank: usize) -> (loss: u8)
    ensures
        loss == penalty(event@, rank as nat),
{
    if 1 <= rank && rank <= event.penalty_scores.len() {
        event.penalty_scores[rank - 1]
    } else {
        0
    }
}

impl GameState {
    /// Moves a noble for player `p`, who takes a medal from the pool if the
    /// noble comes to a resting place.
    pub(crate) fn move_for(&mut self, p: usize, noble_idx: usize, roll: u8)
        requires
            p < old(self).players@.len(),
            noble_idx < old(self).board.nobles@.len(),
            old(self).players@[p as int].medals + old(self).available_medals <= u8::MAX,
        ensures
            final(self)@ == noble_moved(old(self)@, p as nat, noble_idx as nat, roll),
            final(self).phase == old(self).phase,
    {
        self.board.move_noble(noble_idx, roll);
        let landed = self.board.nobles[noble_idx].position;
        if self.board.is_resting_place(landed) && self.available_medals > 0 {
            self.players[p].medals = self.players[p].medals + 1;
            self.available_medals = self.available_medals - 1;
        }
        proof {
            let want = noble_moved(old(self)@, p as nat, noble_idx as nat, roll);
            assert(self@.players =~= want.players);
            assert(self@.nobles =~= want.nobles);
        }
    }

    /// Carries out an action of the producing phase that is legal.
    pub(crate) fn produce(&mut self, action: &Action)
        requires
            old(self).wf(),
            old(self).phase is Producing,
            producing_legality(old(self)@, *action) is None,
        ensures
            final(self)@ == producing_effect(old(self)@, *action),
    {
        let (active_player, moved) = match &self.phase {
            Phase::Producing { active_player, moved } => (*active_player, *moved),
            _ => (0, false),
        };
        let me = active_player as usize;
        match action {
            Action::MoveNoble { noble_idx, dice_roll } => {
                self.move_for(me, *noble_idx as usize, *dice_roll);
                self.phase = Phase::Producing { active_player, moved: true };
            },
            Action::ExchangeMedalForMove { noble_idx, dice_roll } => {
                self.players[me].medals = self.players[me].medals - 1;
                proof {
                    let spent = old(self)@.with_player(
                        me as nat,
                        crate::model::PlayerView {
                            medals: (old(self)@.players[me as int].medals - 1) as nat,
                            ..old(self)@.players[me as int]
                        },
                    );
                    assert(self@.players =~= spent.players);
                    assert(self@ == spent);
                }
                self.move_for(me, *noble_idx as usize, *dice_roll);
            },
            Action::ExchangeMedalForPoints => {
                proof {
                    lemma_distinct_ids(self@.players[me as int].completed);
                }
                self.players[me].medals = self.players[me].medals - 1;
                self.players[me].score = self.players[me].score + MEDAL_POINTS;
            },
            Action::ProduceEvent { id } => {
                let i = event_position(&self.available_events, *id).unwrap();
                let rank = count_completions(&self.players, *id);
                let loss = penalty_at(&self.available_events[i], rank) as u32;
                let base = self.available_events[i].base_score as u32;
                proof {
                    let done = self@.players[me as int].completed;
                    assert(done.push(*id).no_duplicates());
                    lemma_distinct_ids(done.push(*id));
                }
                let score = self.players[me].score;
                stage(&mut self.players[me].assets, &self.available_events[i].requirements);
                self.players[me].score = if score + base >= loss {
                    score + base - loss
                } else {
                    0
                };
                self.players[me].completed.push(*id);
            },
            Action::PassProducing => {
                self.phase = self.producing_turn_over(active_player);
            },
            _ => {},
        }
        proof {
            let want = producing_effect(old(self)@, *action);
            assert(self@.players =~= want.players);
            assert(self@ == want);
        }
    }
}

} // verus!
