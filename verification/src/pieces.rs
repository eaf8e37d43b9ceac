//! Players, stone kinds, stones and per-player reserves.

use vstd::prelude::*;

verus! {

/// One of the two players. `White` moves first.
#[derive(Clone, Copy, Debug, PartialEq, Eq, Structural)]
pub enum Player {
    White,
    Black,
}

impl Player {
    /// The player who moves after `self`.
    pub open spec fn spec_next(self) -> Player {
        match self {
            Player::White => Player::Black,
            Player::Black => Player::White,
        }
    }

    /// The player who moves after `self`: the two players strictly alternate.
    #[verifier::when_used_as_spec(spec_next)]
    pub fn next(self) -> (p: Player)
        ensures
            p == self.spec_next(),
            p != self,
    {
        match self {
            Player::White => Player::Black,
            Player::Black => Player::White,
        }
    }
}

/// The kind of a stone on the board.
///
/// A flat stone can be stacked upon freely. A standing stone (wall) blocks
/// incoming stacks unless a lone capstone lands on it. A capstone can never
/// be covered.
#[derive(Clone, Copy, Debug, PartialEq, Eq, Structural)]
pub enum StoneType {
    Flat,
    Standing,
    Capstone,
}

/// A stone on the board: its owner and its kind. The owner never changes
/// once the stone is placed; the kind can only be demoted to `Flat` when an
/// incoming stack flattens it.
#[derive(Clone, Copy, Debug, PartialEq, Eq, Structural)]
pub struct Stone {
    pub owner: Player,
    pub typ: StoneType,
}

/// A player's supply of unplaced stones: ordinary stones (flat or standing)
/// and capstones, counted separately. Both only ever decrease.
#[derive(Clone, Copy, Debug, PartialEq, Eq, Structural)]
pub struct Reserve {
    pub reg: u8,
    pub cap: u8,
}

} // verus!
