//! The track and the nobles on it.

use vstd::prelude::*;
use crate::types::{Board, BOARD_SIZE, Noble, NobleType};

verus! {

/// Where a noble stands after a move.
pub open spec fn moved_position(position: u8, roll: u8) -> u8 {
    ((position + roll) % (BOARD_SIZE as int)) as u8
}


/// The resting places of the track, in ascending order.
pub open spec fn initial_resting_places() -> Seq<u8> {
    seq![0u8, 6u8, 12u8, 19u8, 26u8, 30u8]
}

/// The nobles as they stand at the start: each on a resting place.
pub open spec fn initial_nobles() -> Seq<Noble> {
    seq![
        Noble { noble_type: NobleType::Emperor, position: 0 },
        Noble { noble_type: NobleType::Consul, position: 12 },
        Noble { noble_type: NobleType::Consul, position: 26 },
        Noble { noble_type: NobleType::Senator, position: 6 },
        Noble { noble_type: NobleType::Senator, position: 19 },
        Noble { noble_type: NobleType::Senator, position: 30 },
    ]
}

impl Board {
    /// Spaces on the track.
    pub const BOARD_SIZE: u8 = BOARD_SIZE;

    /// Whether every noble stands on the track.
    pub open spec fn wf(&self) -> bool {
        forall|i: int| 0 <= i < self.nobles@.len() ==> (#[trigger] self.nobles@[i]).position < BOARD_SIZE
    }

    /// The board at the start of a game.
    pub fn new() -> (board: Board)
        ensures
            board.resting_places@ == initial_resting_places(),
            board.nobles@ == initial_nobles(),
            board.wf(),
    {
        let board = Board {
            resting_places: vec![0, 6, 12, 19, 26, 30],
            nobles: vec![
                Noble { noble_type: NobleType::Emperor, position: 0 },
                Noble { noble_type: NobleType::Consul, position: 12 },
                Noble { noble_type: NobleType::Consul, position: 26 },
                Noble { noble_type: NobleType::Senator, position: 6 },
                Noble { noble_type: NobleType::Senator, position: 19 },
                Noble { noble_type: NobleType::Senator, position: 30 },
            ],
        };
        proof {
            assert(board.resting_places@ =~= initial_resting_places());
            assert(board.nobles@ =~= initial_nobles());
        }
        board
    }

    /// Moves a noble on by the roll, going round the track. An index that
    /// names no noble changes nothing.
    pub fn move_noble(&mut self, noble_idx: usize, dice_roll: u8)
        ensures
            final(self).resting_places == old(self).resting_places,
            noble_idx >= old(self).nobles@.len() ==> final(self).nobles@ == old(self).nobles@,
            noble_idx < old(self).nobles@.len() ==> final(self).nobles@ == old(self).nobles@.update(
                noble_idx as int,
                Noble {
                    noble_type: old(self).nobles@[noble_idx as int].noble_type,
                    position: moved_position(old(self).nobles@[noble_idx as int].position, dice_roll),
                },
            ),
            noble_idx < old(self).nobles@.len() ==> final(self).nobles@[noble_idx as int].position
                < BOARD_SIZE,
            old(self).wf() ==> final(self).wf(),
    {
        if noble_idx < self.nobles.len() {
            let noble = self.nobles[noble_idx];
            let landed: u16 = (noble.position as u16 + dice_roll as u16) % (BOARD_SIZE as u16);
            self.nobles.set(
                noble_idx,
                Noble { noble_type: noble.noble_type, position: landed as u8 },
            );
        }
    }

    /// Whether the space is a resting place.
    pub fn is_resting_place(&self, position: u8) -> (b: bool)
        ensures
            b == self.resting_places@.contains(position),
    {
        crate::lookup::has_id(&self.resting_places, position)
    }
}

} // verus!
