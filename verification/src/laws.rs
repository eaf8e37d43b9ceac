//! Game-wide laws, proved once and for all from the engine's contracts.
//!
//! Turn alternation and the immutability of the state under a rejected turn
//! are stated directly on `GameState::apply_turn`'s contract; the laws here
//! cover the remaining rules that hold for every board and every turn.

use vstd::prelude::*;
use crate::board::Board;
use crate::game::{spec_cap_allotment, spec_reg_allotment, GameState};
use crate::geometry::{spec_col_after, spec_row_after, Dir, Loc};
use crate::pieces::{Player, StoneType};
use crate::turn::{sum_drops, Turn};

verus! {

/// A placement onto an occupied square is never legal, on any board: the
/// board rejects it, and with it the game.
pub proof fn lemma_place_occupied_rejected(g: GameState, t: Turn)
    requires
        t matches Turn::Place { loc, .. } && g.board.spec_sq(
            loc.row as int,
            loc.col as int,
        ).len() > 0,
    ensures
        !g.board.spec_valid_turn(&t),
        !g.spec_valid_turn(&t),
{
}

/// A move whose drop counts do not sum to its declared total is never legal,
/// whatever else the turn looks like.
pub proof fn lemma_move_bad_sum_rejected(g: GameState, t: Turn)
    requires
        t matches Turn::Move { total, ref drops, .. } && sum_drops(drops@, drops@.len() as int)
            != total,
    ensures
        !g.board.spec_valid_turn(&t),
        !g.spec_valid_turn(&t),
{
}

/// The wall rule, read off any legal move: an occupied square the moving
/// stack visits is never topped by a capstone, and when it is topped by a
/// standing stone the moving stack's own top stone is a capstone and exactly
/// one stone is dropped there.
pub proof fn lemma_wall_rule(
    b: Board,
    loc: Loc,
    player: Player,
    dir: Dir,
    total: int,
    drops: Seq<usize>,
    i: int,
)
    requires
        b.spec_move_valid(loc, player, dir, total, drops),
        0 <= i < drops.len(),
        b.spec_sq(spec_row_after(loc, dir, i + 1), spec_col_after(loc, dir, i + 1)).len() > 0,
    ensures
        !(b.spec_sq(spec_row_after(loc, dir, i + 1), spec_col_after(loc, dir, i + 1)).last().typ
            is Capstone),
        b.spec_sq(spec_row_after(loc, dir, i + 1), spec_col_after(loc, dir, i + 1)).last().typ
            is Standing ==> b.spec_sq(loc.row as int, loc.col as int).last().typ is Capstone
            && drops[i] == 1,
{
    assert(b.spec_path_sq_ok(
        loc,
        dir,
        i,
        b.spec_sq(loc.row as int, loc.col as int).last().typ,
        drops[i] as int,
    ));
}

/// Conservation: in every well-formed game state — `GameState::new` builds
/// one and `GameState::apply_turn` preserves them, so every reachable state
/// is one — each player's stones on the board plus both reserve pools equal
/// that player's allotment at the start of the game.
pub proof fn lemma_conservation(g: GameState, p: Player)
    requires
        g.wf(),
    ensures
        g.board.spec_count(p) + g.spec_reserve(p).reg + g.spec_reserve(p).cap
            == spec_reg_allotment(g.board.spec_size()) + spec_cap_allotment(g.board.spec_size()),
{
}

} // verus!
