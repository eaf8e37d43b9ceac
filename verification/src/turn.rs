//! The turn type: a player action, either placing a stone or moving a stack.

use vstd::prelude::*;
use crate::geometry::{Dir, Loc};
use crate::pieces::{Player, StoneType};

verus! {

/// A proposed player action. Turns are transient values: a caller builds one,
/// asks the game whether it is valid, and applies it at most once.
#[derive(Debug)]
pub enum Turn {
    /// Place a new stone of kind `typ` for `player` on the empty square `loc`.
    Place { loc: Loc, player: Player, typ: StoneType },
    /// Pick up `total` stones from the top of the stack at `loc` and carry
    /// them in direction `dir`, dropping `drops[i]` stones on the `i`-th
    /// square along the way (every carried stone is dropped, so the drop
    /// counts sum to `total`).
    Move { loc: Loc, player: Player, dir: Dir, total: usize, drops: Vec<usize> },
}

/// The sum of the first `n` entries of a drop sequence.
pub open spec fn sum_drops(drops: Seq<usize>, n: int) -> int
    decreases n,
{
    if n <= 0 {
        0
    } else {
        sum_drops(drops, n - 1) + drops[n - 1]
    }
}

/// Partial sums of a drop sequence never decrease.
pub proof fn lemma_sum_drops_mono(drops: Seq<usize>, i: int, j: int)
    requires
        0 <= i <= j,
    ensures
        sum_drops(drops, i) <= sum_drops(drops, j),
    decreases j,
{
    if j > i {
        lemma_sum_drops_mono(drops, i, j - 1);
    }
}

impl Turn {
    /// The player the turn is declared for.
    pub open spec fn spec_player(&self) -> Player {
        match *self {
            Turn::Place { player, .. } => player,
            Turn::Move { player, .. } => player,
        }
    }

    /// The player the turn is declared for.
    #[verifier::when_used_as_spec(spec_player)]
    pub fn player(&self) -> (p: Player)
        ensures
            p == self.spec_player(),
    {
        match self {
            Turn::Place { player, .. } => *player,
            Turn::Move { player, .. } => *player,
        }
    }
}

} // verus!
