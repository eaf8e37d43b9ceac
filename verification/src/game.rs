//! The aggregate game state: whose turn it is, the board, and the reserves.

use vstd::prelude::*;
use crate::board::{spec_count_delta, Board, MAX_SIZE, MIN_SIZE};
use crate::geometry::spec_in_bounds;
use crate::pieces::{Player, Reserve, StoneType};
use crate::turn::Turn;

verus! {

/// The ordinary-stone allotment each player starts with, by board side.
pub open spec fn spec_reg_allotment(size: int) -> int {
    if size == 3 {
        10
    } else if size == 4 {
        15
    } else if size == 5 {
        21
    } else if size == 6 {
        30
    } else if size == 7 {
        40
    } else {
        50
    }
}

/// The capstone allotment each player starts with, by board side.
pub open spec fn spec_cap_allotment(size: int) -> int {
    if size <= 4 {
        0
    } else if size <= 6 {
        1
    } else {
        2
    }
}

/// A game in progress: the player to move, the board, and each player's
/// remaining reserve. Mutated only through `apply_turn`.
#[derive(Debug)]
pub struct GameState {
    pub current_player: Player,
    pub board: Board,
    pub white_reserve: Reserve,
    pub black_reserve: Reserve,
}

impl GameState {
    /// The reserve of player `p`.
    pub open spec fn spec_reserve(&self, p: Player) -> Reserve {
        match p {
            Player::White => self.white_reserve,
            Player::Black => self.black_reserve,
        }
    }

    /// Well-formedness, including conservation: the board is well formed, and
    /// for each player the stones on the board plus the stones left in both
    /// reserve pools equal the allotment the game started with. No turn
    /// creates or destroys a stone; only a placement trades one from the
    /// reserve onto the board.
    pub open spec fn wf(&self) -> bool {
        &&& self.board.wf()
        &&& forall|p: Player|
            self.board.spec_count(p) + (#[trigger] self.spec_reserve(p)).reg
                + self.spec_reserve(p).cap == spec_reg_allotment(self.board.spec_size())
                + spec_cap_allotment(self.board.spec_size())
    }

    /// Whether the acting player's relevant reserve pool still has a stone
    /// for this turn: the ordinary pool for a flat or standing placement, the
    /// capstone pool for a capstone placement. Moves draw on no reserve.
    pub open spec fn spec_reserve_ok(&self, t: &Turn) -> bool {
        match *t {
            Turn::Place { player, typ, .. } => match typ {
                StoneType::Flat | StoneType::Standing => self.spec_reserve(player).reg > 0,
                StoneType::Capstone => self.spec_reserve(player).cap > 0,
            },
            Turn::Move { .. } => true,
        }
    }

    /// Game-level legality: the turn is declared for the player whose turn it
    /// is, the needed reserve is not exhausted, and the board allows it.
    pub open spec fn spec_valid_turn(&self, t: &Turn) -> bool {
        &&& t.spec_player() == self.current_player
        &&& self.spec_reserve_ok(t)
        &&& self.board.spec_valid_turn(t)
    }

    /// The reserve of player `p` after a turn: a placement takes one stone
    /// from the acting player's matching pool; nothing else changes.
    pub open spec fn spec_reserve_after(&self, t: &Turn, p: Player) -> Reserve {
        match *t {
            Turn::Place { player, typ, .. } => {
                if player == p {
                    match typ {
                        StoneType::Flat | StoneType::Standing => Reserve {
                            reg: (self.spec_reserve(p).reg - 1) as u8,
                            cap: self.spec_reserve(p).cap,
                        },
                        StoneType::Capstone => Reserve {
                            reg: self.spec_reserve(p).reg,
                            cap: (self.spec_reserve(p).cap - 1) as u8,
                        },
                    }
                } else {
                    self.spec_reserve(p)
                }
            },
            Turn::Move { .. } => self.spec_reserve(p),
        }
    }

    /// A fresh game: an empty board of the given side, the first mover to
    /// play, and both reserves at the allotment the side calls for.
    pub fn new(size: usize) -> (g: GameState)
        requires
            MIN_SIZE <= size <= MAX_SIZE,
        ensures
            g.wf(),
            g.board.spec_size() == size,
            g.current_player == Player::White,
            forall|r: int, c: int|
                spec_in_bounds(size as int, r, c) ==> (#[trigger] g.board.spec_sq(r, c)).len()
                    == 0,
            forall|p: Player| (#[trigger] g.spec_reserve(p)).reg == spec_reg_allotment(size as int)
                && g.spec_reserve(p).cap == spec_cap_allotment(size as int),
    {
        let reserve = if size == 3 {
            Reserve { reg: 10, cap: 0 }
        } else if size == 4 {
            Reserve { reg: 15, cap: 0 }
        } else if size == 5 {
            Reserve { reg: 21, cap: 1 }
        } else if size == 6 {
            Reserve { reg: 30, cap: 1 }
        } else if size == 7 {
            Reserve { reg: 40, cap: 2 }
        } else {
            Reserve { reg: 50, cap: 2 }
        };
        GameState {
            current_player: Player::White,
            board: Board::new(size),
            white_reserve: reserve,
            black_reserve: reserve,
        }
    }

    /// The reserve of player `p`.
    pub fn reserve(&self, p: Player) -> (r: Reserve)
        ensures
            r == self.spec_reserve(p),
    {
        match p {
            Player::White => self.white_reserve,
            Player::Black => self.black_reserve,
        }
    }

    /// Decide whether a turn may be applied to the current state. Pure.
    /// Rejection — wrong player, exhausted reserve, or an illegal board
    /// action — is the ordinary negative outcome, not an error.
    pub fn valid_turn(&self, turn: &Turn) -> (r: bool)
        requires
            self.wf(),
        ensures
            r == self.spec_valid_turn(turn),
    {
        if turn.player() != self.current_player {
            return false;
        }
        match turn {
            Turn::Place { player, typ, .. } => {
                let res = self.reserve(*player);
                match typ {
                    StoneType::Flat | StoneType::Standing => {
                        if res.reg == 0 {
                            return false;
                        }
                    },
                    StoneType::Capstone => {
                        if res.cap == 0 {
                            return false;
                        }
                    },
                }
            },
            Turn::Move { .. } => {},
        }
        self.board.valid_turn(turn)
    }

    /// Validate and, when valid, apply a turn: the board changes per the
    /// board's application rule, the acting player's reserve pays for a
    /// placement, and the turn passes to the other player. Returns whether
    /// the turn was applied; an invalid turn changes nothing at all, so the
    /// call is safe to make speculatively.
    pub fn apply_turn(&mut self, turn: &Turn) -> (ok: bool)
        requires
            old(self).wf(),
        ensures
            final(self).wf(),
            ok == old(self).spec_valid_turn(turn),
            !ok ==> *final(self) == *old(self),
            ok ==> final(self).current_player == old(self).current_player.spec_next(),
            ok ==> final(self).board.spec_size() == old(self).board.spec_size(),
            ok ==> forall|r: int, c: int|
                spec_in_bounds(old(self).board.spec_size(), r, c)
                    ==> #[trigger] final(self).board.spec_sq(r, c) == old(
                    self,
                ).board.spec_sq_after_turn(turn, r, c),
            ok ==> forall|p: Player| #[trigger] final(self).spec_reserve(p) == old(
                self,
            ).spec_reserve_after(turn, p),
    {
        if !self.valid_turn(turn) {
            return false;
        }
        self.board.apply_turn(turn);
        self.current_player = self.current_player.next();
        match turn {
            Turn::Place { player, typ, .. } => {
                match (player, typ) {
                    (Player::White, StoneType::Flat) | (Player::White, StoneType::Standing) => {
                        self.white_reserve.reg = self.white_reserve.reg - 1;
                    },
                    (Player::White, StoneType::Capstone) => {
                        self.white_reserve.cap = self.white_reserve.cap - 1;
                    },
                    (Player::Black, StoneType::Flat) | (Player::Black, StoneType::Standing) => {
                        self.black_reserve.reg = self.black_reserve.reg - 1;
                    },
                    (Player::Black, StoneType::Capstone) => {
                        self.black_reserve.cap = self.black_reserve.cap - 1;
                    },
                }
            },
            Turn::Move { .. } => {},
        }
        proof {
            assert forall|p: Player|
                self.board.spec_count(p) + (#[trigger] self.spec_reserve(p)).reg
                    + self.spec_reserve(p).cap == spec_reg_allotment(self.board.spec_size())
                    + spec_cap_allotment(self.board.spec_size()) by {
                assert(self.board.spec_count(p) == old(self).board.spec_count(p)
                    + spec_count_delta(turn, p));
                assert(old(self).board.spec_count(p) + old(self).spec_reserve(p).reg + old(
                    self,
                ).spec_reserve(p).cap == spec_reg_allotment(old(self).board.spec_size())
                    + spec_cap_allotment(old(self).board.spec_size()));
            }
        }
        true
    }
}

} // verus!
