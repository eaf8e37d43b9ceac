//! Board coordinates and directional movement.
//!
//! A location is a pair of non-negative grid coordinates. Shifting a location
//! by a direction is specified over unbounded integers, so that stepping off
//! the low edge of the grid shows up as a negative coordinate instead of a
//! silent wrap; the executable transform returns `None` in exactly that case.

use vstd::prelude::*;

verus! {

/// One of the four cardinal directions a stack can move in.
///
/// `North` decreases the row, `South` increases it; `West` decreases the
/// column, `East` increases it.
#[derive(Clone, Copy, Debug, PartialEq, Eq, Structural)]
pub enum Dir {
    North,
    East,
    South,
    West,
}

/// A board coordinate: row and column, both counted from zero.
#[derive(Clone, Copy, Debug, PartialEq, Eq, Structural)]
pub struct Loc {
    pub row: usize,
    pub col: usize,
}

/// The row coordinate of `loc` shifted `count` steps in `dir`, as an
/// unbounded integer (negative when the shift leaves the low edge).
pub open spec fn spec_row_after(loc: Loc, dir: Dir, count: int) -> int {
    match dir {
        Dir::North => loc.row - count,
        Dir::South => loc.row + count,
        Dir::East => loc.row as int,
        Dir::West => loc.row as int,
    }
}

/// The column coordinate of `loc` shifted `count` steps in `dir`.
pub open spec fn spec_col_after(loc: Loc, dir: Dir, count: int) -> int {
    match dir {
        Dir::East => loc.col + count,
        Dir::West => loc.col - count,
        Dir::North => loc.col as int,
        Dir::South => loc.col as int,
    }
}

/// Whether the integer coordinates `(r, c)` lie on a board of side `size`.
pub open spec fn spec_in_bounds(size: int, r: int, c: int) -> bool {
    &&& 0 <= r < size
    &&& 0 <= c < size
}

/// Every intermediate stop of a straight path that starts and ends on the
/// board is itself on the board.
pub proof fn lemma_path_in_bounds(size: int, loc: Loc, dir: Dir, n: int, i: int)
    requires
        spec_in_bounds(size, loc.row as int, loc.col as int),
        spec_in_bounds(size, spec_row_after(loc, dir, n), spec_col_after(loc, dir, n)),
        0 <= i <= n,
    ensures
        spec_in_bounds(size, spec_row_after(loc, dir, i), spec_col_after(loc, dir, i)),
{
}

impl Loc {
    /// The location shifted `count` steps in `dir`, or `None` when the shift
    /// does not fit the coordinate type (off the low edge, or past
    /// `usize::MAX`). No bounds check against any board is made here.
    pub fn move_in_by(&self, dir: Dir, count: usize) -> (r: Option<Loc>)
        ensures
            ({
                let nr = spec_row_after(*self, dir, count as int);
                let nc = spec_col_after(*self, dir, count as int);
                &&& (r is Some <==> 0 <= nr <= usize::MAX && 0 <= nc <= usize::MAX)
                &&& (r matches Some(l) ==> l.row == nr && l.col == nc)
            }),
    {
        match dir {
            Dir::North => {
                if count <= self.row {
                    Some(Loc { row: self.row - count, col: self.col })
                } else {
                    None
                }
            },
            Dir::South => {
                if count <= usize::MAX - self.row {
                    Some(Loc { row: self.row + count, col: self.col })
                } else {
                    None
                }
            },
            Dir::East => {
                if count <= usize::MAX - self.col {
                    Some(Loc { row: self.row, col: self.col + count })
                } else {
                    None
                }
            },
            Dir::West => {
                if count <= self.col {
                    Some(Loc { row: self.row, col: self.col - count })
                } else {
                    None
                }
            },
        }
    }

    /// The location one step in `dir` from `self`, when it exists.
    pub fn move_in(&self, dir: Dir) -> (r: Option<Loc>)
        ensures
            ({
                let nr = spec_row_after(*self, dir, 1);
                let nc = spec_col_after(*self, dir, 1);
                &&& (r is Some <==> 0 <= nr <= usize::MAX && 0 <= nc <= usize::MAX)
                &&& (r matches Some(l) ==> l.row == nr && l.col == nc)
            }),
    {
        self.move_in_by(dir, 1)
    }
}

} // verus!
