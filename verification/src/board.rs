//! The board: a square grid of stacks, turn legality and turn application.

use vstd::prelude::*;
use crate::counting::{
    grid_count, lemma_grid_count_push, lemma_grid_count_update, lemma_row_count_push,
    lemma_row_count_update, lemma_stack_count_add, lemma_stack_count_push,
    lemma_stack_count_retop, lemma_stack_count_split, row_count, stack_count,
};
use crate::geometry::{lemma_path_in_bounds, spec_col_after, spec_in_bounds, spec_row_after, Dir, Loc};
use crate::pieces::{Player, Stone, StoneType};
use crate::turn::{lemma_sum_drops_mono, sum_drops, Turn};

verus! {

/// The stack `s` with its top stone flattened: standing stones and capstones
/// are demoted to flat when a moving stack lands on them; an empty stack and
/// a flat top are left as they are (demoting a flat top to flat changes
/// nothing).
pub open spec fn spec_flatten_top(s: Seq<Stone>) -> Seq<Stone> {
    if s.len() == 0 {
        s
    } else {
        s.update(s.len() - 1, Stone { owner: s.last().owner, typ: StoneType::Flat })
    }
}

/// How many steps in `dir` lead from `loc` to row `r`, column `c`, assuming
/// the other coordinate matches (negative when `(r, c)` lies the other way).
pub open spec fn spec_path_step(loc: Loc, dir: Dir, r: int, c: int) -> int {
    match dir {
        Dir::North => loc.row - r,
        Dir::South => r - loc.row,
        Dir::East => c - loc.col,
        Dir::West => loc.col - c,
    }
}

/// Whether the square at row `r`, column `c` is one of the first `n` stops of
/// a path leaving `loc` in direction `dir`.
pub open spec fn spec_on_path(loc: Loc, dir: Dir, n: int, r: int, c: int) -> bool {
    &&& 1 <= spec_path_step(loc, dir, r, c) <= n
    &&& (match dir {
        Dir::North | Dir::South => c == loc.col,
        Dir::East | Dir::West => r == loc.row,
    })
}

/// How a turn changes the number of stones player `p` owns on the board:
/// a placement adds one stone for its player, a move only rearranges.
pub open spec fn spec_count_delta(t: &Turn, p: Player) -> int {
    match *t {
        Turn::Place { player, .. } => if player == p {
            1int
        } else {
            0int
        },
        Turn::Move { .. } => 0,
    }
}

/// The smallest supported board side length.
pub const MIN_SIZE: usize = 3;

/// The largest supported board side length.
pub const MAX_SIZE: usize = 8;

/// A square grid of stacks. Each square holds the stones stacked on it,
/// bottom first; an empty vector is an unoccupied square.
#[derive(Debug)]
pub struct Board {
    pub grid: Vec<Vec<Vec<Stone>>>,
}

impl Board {
    /// The side length of the board.
    pub open spec fn spec_size(&self) -> int {
        self.grid@.len() as int
    }

    /// The stack on the square in row `r`, column `c`, bottom first.
    pub open spec fn spec_sq(&self, r: int, c: int) -> Seq<Stone> {
        self.grid@[r]@[c]@
    }

    /// The grid is square, with a supported side length.
    pub open spec fn wf(&self) -> bool {
        &&& MIN_SIZE <= self.spec_size() <= MAX_SIZE
        &&& forall|r: int|
            0 <= r < self.spec_size() ==> (#[trigger] self.grid@[r])@.len() == self.spec_size()
    }

    /// Whether `loc` lies on the board.
    pub open spec fn spec_on_board(&self, loc: Loc) -> bool {
        spec_in_bounds(self.spec_size(), loc.row as int, loc.col as int)
    }

    /// How many stones on the board belong to `p`.
    pub open spec fn spec_count(&self, p: Player) -> int {
        grid_count(self.grid@, p)
    }

    /// The stack on row `r`, column `c` after a legal move is applied to
    /// `self`: the source square keeps all but its top `total` stones; the
    /// `k`-th square of the path (counted from zero) has its own top stone
    /// flattened and then receives the `k`-th segment of the carried stones —
    /// the `drops[k]` stones above the `sum_drops(drops, k)` already dropped,
    /// in their carried order; every other square is untouched.
    pub open spec fn spec_sq_after_move(
        &self,
        loc: Loc,
        dir: Dir,
        total: int,
        drops: Seq<usize>,
        r: int,
        c: int,
    ) -> Seq<Stone> {
        let src = self.spec_sq(loc.row as int, loc.col as int);
        let carried = src.subrange(src.len() - total, src.len() as int);
        if r == loc.row && c == loc.col {
            src.subrange(0, src.len() - total)
        } else if spec_on_path(loc, dir, drops.len() as int, r, c) {
            let k = spec_path_step(loc, dir, r, c) - 1;
            spec_flatten_top(self.spec_sq(r, c)) + carried.subrange(
                sum_drops(drops, k),
                sum_drops(drops, k) + drops[k],
            )
        } else {
            self.spec_sq(r, c)
        }
    }

    /// The stack on row `r`, column `c` after a legal turn is applied to
    /// `self`: a placement pushes the new stone onto the target square, a
    /// move rearranges per `spec_sq_after_move`.
    pub open spec fn spec_sq_after_turn(&self, t: &Turn, r: int, c: int) -> Seq<Stone> {
        match *t {
            Turn::Place { loc, player, typ } => {
                if r == loc.row && c == loc.col {
                    self.spec_sq(r, c).push(Stone { owner: player, typ })
                } else {
                    self.spec_sq(r, c)
                }
            },
            Turn::Move { loc, player, dir, total, ref drops } => self.spec_sq_after_move(
                loc,
                dir,
                total as int,
                drops@,
                r,
                c,
            ),
        }
    }

    /// A fresh `size` by `size` board of empty squares.
    pub fn new(size: usize) -> (b: Board)
        requires
            MIN_SIZE <= size <= MAX_SIZE,
        ensures
            b.wf(),
            b.spec_size() == size,
            forall|r: int, c: int|
                spec_in_bounds(size as int, r, c) ==> (#[trigger] b.spec_sq(r, c)).len() == 0,
            forall|p: Player| #[trigger] b.spec_count(p) == 0,
    {
        let mut grid: Vec<Vec<Vec<Stone>>> = Vec::new();
        let mut r: usize = 0;
        while r < size
            invariant
                r <= size,
                grid@.len() == r,
                forall|i: int| 0 <= i < r ==> (#[trigger] grid@[i])@.len() == size,
                forall|i: int, j: int|
                    0 <= i < r && 0 <= j < size ==> (#[trigger] grid@[i]@[j])@.len() == 0,
                forall|p: Player| #[trigger] grid_count(grid@, p) == 0,
            decreases size - r,
        {
            let mut row: Vec<Vec<Stone>> = Vec::new();
            let mut c: usize = 0;
            while c < size
                invariant
                    c <= size,
                    row@.len() == c,
                    forall|j: int| 0 <= j < c ==> (#[trigger] row@[j])@.len() == 0,
                    forall|p: Player| #[trigger] row_count(row@, p) == 0,
                decreases size - c,
            {
                let ghost old_row = row@;
                row.push(Vec::new());
                proof {
                    assert forall|p: Player| #[trigger] row_count(row@, p) == 0 by {
                        lemma_row_count_push(old_row, row@[c as int], p);
                    }
                }
                c += 1;
            }
            let ghost old_grid = grid@;
            grid.push(row);
            proof {
                assert forall|p: Player| #[trigger] grid_count(grid@, p) == 0 by {
                    lemma_grid_count_push(old_grid, grid@[r as int], p);
                }
            }
            r += 1;
        }
        Board { grid }
    }

    /// The side length of the board.
    pub fn size(&self) -> (s: usize)
        ensures
            s == self.spec_size(),
    {
        self.grid.len()
    }

    /// Whether `loc` lies on the board.
    pub fn valid_loc(&self, loc: Loc) -> (r: bool)
        ensures
            r == self.spec_on_board(loc),
    {
        loc.row < self.grid.len() && loc.col < self.grid.len()
    }

    /// Whether the square the moving stack visits at step `i` (counted from
    /// zero) lets the move pass. A standing stone on top blocks the move
    /// unless the moving stack's own top stone is a capstone and exactly one
    /// stone is dropped there; a capstone on top blocks unconditionally.
    pub open spec fn spec_path_sq_ok(
        &self,
        loc: Loc,
        dir: Dir,
        i: int,
        mover_top: StoneType,
        drop: int,
    ) -> bool {
        let s = self.spec_sq(spec_row_after(loc, dir, i + 1), spec_col_after(loc, dir, i + 1));
        s.len() > 0 ==> {
            &&& !(s.last().typ is Capstone)
            &&& (s.last().typ is Standing ==> mover_top is Capstone && drop == 1)
        }
    }

    /// Board-level legality of a move: the drop sequence is non-empty and
    /// made of positive counts summing to `total`; `total` is within the
    /// carry limit (the board side) and no larger than the source stack; the
    /// whole path from the source to the last drop stays on the board; the
    /// acting player controls the source stack; and every visited square lets
    /// the move pass.
    pub open spec fn spec_move_valid(
        &self,
        loc: Loc,
        player: Player,
        dir: Dir,
        total: int,
        drops: Seq<usize>,
    ) -> bool {
        let src = self.spec_sq(loc.row as int, loc.col as int);
        &&& drops.len() > 0
        &&& 1 <= total <= self.spec_size()
        &&& self.spec_on_board(loc)
        &&& total <= src.len()
        &&& sum_drops(drops, drops.len() as int) == total
        &&& (forall|i: int| 0 <= i < drops.len() ==> #[trigger] drops[i] >= 1)
        &&& spec_in_bounds(
            self.spec_size(),
            spec_row_after(loc, dir, drops.len() as int),
            spec_col_after(loc, dir, drops.len() as int),
        )
        &&& src.last().owner == player
        &&& (forall|i: int|
            0 <= i < drops.len() ==> self.spec_path_sq_ok(
                loc,
                dir,
                i,
                src.last().typ,
                #[trigger] drops[i] as int,
            ))
    }

    /// Board-level legality of a turn. A placement is legal on any empty
    /// square of the board; a move is legal per `spec_move_valid`. Whose turn
    /// it is, and reserves, are the game state's business, not the board's.
    pub open spec fn spec_valid_turn(&self, t: &Turn) -> bool {
        match *t {
            Turn::Place { loc, .. } => self.spec_on_board(loc) && self.spec_sq(
                loc.row as int,
                loc.col as int,
            ).len() == 0,
            Turn::Move { loc, player, dir, total, ref drops } => self.spec_move_valid(
                loc,
                player,
                dir,
                total as int,
                drops@,
            ),
        }
    }

    /// Decide board-level legality of a turn. Pure: the board is not touched.
    #[verifier::loop_isolation(false)]
    pub fn valid_turn(&self, turn: &Turn) -> (r: bool)
        requires
            self.wf(),
        ensures
            r == self.spec_valid_turn(turn),
    {
        match turn {
            Turn::Place { loc, .. } => self.valid_loc(*loc) && self.grid[loc.row][loc.col].len()
                == 0,
            Turn::Move { loc, player, dir, total, drops } => {
                let n = drops.len();
                // The drop sequence is non-empty.
                if n == 0 {
                    return false;
                }
                // The carried count is positive and within the carry limit.
                let size = self.grid.len();
                if !(*total >= 1 && *total <= size) {
                    return false;
                }
                // The source square is on the board.
                if !self.valid_loc(*loc) {
                    return false;
                }
                // The source stack holds at least the carried count.
                let src_len = self.grid[loc.row][loc.col].len();
                if *total > src_len {
                    return false;
                }
                // Every drop count is positive and they sum to the total.
                let mut s: usize = 0;
                let mut k: usize = 0;
                while k < n
                    invariant
                        k <= n,
                        n == drops@.len(),
                        *total <= size,
                        s == sum_drops(drops@, k as int),
                        s <= *total,
                        forall|j: int| 0 <= j < k ==> #[trigger] drops@[j] >= 1,
                    decreases n - k,
                {
                    let d = drops[k];
                    if d == 0 {
                        return false;
                    }
                    if d > *total - s {
                        proof {
                            lemma_sum_drops_mono(drops@, k as int + 1, n as int);
                        }
                        return false;
                    }
                    s += d;
                    k += 1;
                }
                if s != *total {
                    return false;
                }
                // The last drop still lands on the board (and with it the
                // whole path, which runs straight from the source).
                match loc.move_in_by(*dir, n) {
                    None => {
                        return false;
                    },
                    Some(end) => {
                        if !self.valid_loc(end) {
                            return false;
                        }
                    },
                }
                // The acting player controls the source stack.
                let src = &self.grid[loc.row][loc.col];
                let top = src[src_len - 1];
                if top.owner != *player {
                    return false;
                }
                // Walk the path: standing stones block all but a lone
                // capstone dropping a single stone; capstones block all.
                let mut cur = *loc;
                let mut i: usize = 0;
                while i < n
                    invariant
                        i <= n,
                        n == drops@.len(),
                        self.spec_on_board(*loc),
                        spec_in_bounds(
                            self.spec_size(),
                            spec_row_after(*loc, *dir, n as int),
                            spec_col_after(*loc, *dir, n as int),
                        ),
                        cur.row == spec_row_after(*loc, *dir, i as int),
                        cur.col == spec_col_after(*loc, *dir, i as int),
                        top == self.spec_sq(loc.row as int, loc.col as int).last(),
                        forall|j: int|
                            0 <= j < i ==> self.spec_path_sq_ok(
                                *loc,
                                *dir,
                                j,
                                top.typ,
                                #[trigger] drops@[j] as int,
                            ),
                    decreases n - i,
                {
                    proof {
                        lemma_path_in_bounds(
                            self.spec_size(),
                            *loc,
                            *dir,
                            n as int,
                            i as int + 1,
                        );
                    }
                    let next = cur.move_in(*dir).unwrap();
                    let sq = &self.grid[next.row][next.col];
                    if sq.len() > 0 {
                        let there = sq[sq.len() - 1];
                        if matches!(there.typ, StoneType::Capstone) {
                            proof {
                                assert(!self.spec_path_sq_ok(
                                    *loc,
                                    *dir,
                                    i as int,
                                    top.typ,
                                    drops@[i as int] as int,
                                ));
                            }
                            return false;
                        }
                        if matches!(there.typ, StoneType::Standing) {
                            if !(matches!(top.typ, StoneType::Capstone) && drops[i] == 1) {
                                proof {
                                    assert(!self.spec_path_sq_ok(
                                        *loc,
                                        *dir,
                                        i as int,
                                        top.typ,
                                        drops@[i as int] as int,
                                    ));
                                }
                                return false;
                            }
                        }
                    }
                    cur = next;
                    i += 1;
                }
                true
            },
        }
    }

    /// Apply a turn to the board. The caller must already have checked
    /// `valid_turn`: application performs no re-validation. A placement
    /// pushes the new stone onto its square; a move lifts the carried stones
    /// off the source and walks the path, flattening each visited square's
    /// top stone and depositing the next segment of the carried stack there,
    /// in carried order. No stone appears or disappears: per player, the
    /// board count changes exactly by the placement delta.
    #[verifier::loop_isolation(false)]
    #[verifier::rlimit(60)]
    pub fn apply_turn(&mut self, turn: &Turn)
        requires
            old(self).wf(),
            old(self).spec_valid_turn(turn),
        ensures
            final(self).wf(),
            final(self).spec_size() == old(self).spec_size(),
            forall|r: int, c: int|
                spec_in_bounds(old(self).spec_size(), r, c) ==> #[trigger] final(self).spec_sq(
                    r,
                    c,
                ) == old(self).spec_sq_after_turn(turn, r, c),
            forall|p: Player| #[trigger] final(self).spec_count(p) == old(self).spec_count(p)
                + spec_count_delta(turn, p),
    {
        match turn {
            Turn::Place { loc, player, typ } => {
                let stone = Stone { owner: *player, typ: *typ };
                let mut st = copy_stack(&self.grid[loc.row][loc.col]);
                st.push(stone);
                let ghost st_new = st;
                self.grid[loc.row][loc.col] = st;
                proof {
                    let r0 = loc.row as int;
                    let c0 = loc.col as int;
                    let g0 = old(self).grid@;
                    let row_new = self.grid@[r0];
                    assert(self.grid@ =~= g0.update(r0, row_new));
                    assert(row_new@ =~= g0[r0]@.update(c0, st_new));
                    assert forall|p: Player| #[trigger] self.spec_count(p) == old(
                        self,
                    ).spec_count(p) + spec_count_delta(turn, p) by {
                        lemma_grid_count_update(g0, r0, row_new, p);
                        lemma_row_count_update(g0[r0]@, c0, st_new, p);
                        lemma_stack_count_push(g0[r0]@[c0]@, stone, p);
                    }
                }
            },
            Turn::Move { loc, player, dir, total, drops } => {
                let n = drops.len();
                let row0 = loc.row;
                let col0 = loc.col;
                let ghost src = old(self).spec_sq(row0 as int, col0 as int);
                let ghost carried = src.subrange(src.len() - *total, src.len() as int);
                // Lift the carried stones off the source square.
                let src_len = self.grid[row0][col0].len();
                let held = self.grid[row0][col0].split_off(src_len - *total);
                proof {
                    let r0 = row0 as int;
                    let c0 = col0 as int;
                    let g0 = old(self).grid@;
                    let row_new = self.grid@[r0];
                    let st_new = self.grid@[r0]@[c0];
                    assert(self.grid@ =~= g0.update(r0, row_new));
                    assert(row_new@ =~= g0[r0]@.update(c0, st_new));
                    assert(held@ == src.subrange(src.len() - *total, src.len() as int));
                    assert(held@.subrange(0, held@.len() as int) =~= held@);
                    assert forall|p: Player| #[trigger] grid_count(self.grid@, p) == grid_count(
                        g0,
                        p,
                    ) - stack_count(held@, p) by {
                        lemma_grid_count_update(g0, r0, row_new, p);
                        lemma_row_count_update(g0[r0]@, c0, st_new, p);
                        lemma_stack_count_split(src, src.len() - *total, p);
                    }
                }
                let mut cur_row = row0;
                let mut cur_col = col0;
                let mut dropped: usize = 0;
                let mut i: usize = 0;
                while i < n
                    invariant
                        i <= n,
                        dropped == sum_drops(drops@, i as int),
                        dropped <= *total,
                        cur_row == spec_row_after(*loc, *dir, i as int),
                        cur_col == spec_col_after(*loc, *dir, i as int),
                        self.grid@.len() == old(self).spec_size(),
                        forall|r: int|
                            0 <= r < old(self).spec_size() ==> (#[trigger] self.grid@[r])@.len()
                                == old(self).spec_size(),
                        forall|r: int, c: int|
                            spec_in_bounds(old(self).spec_size(), r, c)
                                ==> #[trigger] self.spec_sq(r, c) == if (r == row0 && c == col0)
                                || spec_on_path(*loc, *dir, i as int, r, c) {
                                old(self).spec_sq_after_move(*loc, *dir, *total as int, drops@, r, c)
                            } else {
                                old(self).spec_sq(r, c)
                            },
                        forall|p: Player| #[trigger] grid_count(self.grid@, p) == grid_count(
                            old(self).grid@,
                            p,
                        ) - stack_count(
                            held@.subrange(dropped as int, held@.len() as int),
                            p,
                        ),
                    decreases n - i,
                {
                    let ghost b_entry = *self;
                    let d = drops[i];
                    proof {
                        lemma_sum_drops_mono(drops@, i as int + 1, n as int);
                        lemma_path_in_bounds(
                            self.grid@.len() as int,
                            *loc,
                            *dir,
                            n as int,
                            i as int + 1,
                        );
                    }
                    // Step to the next square of the path.
                    let next = Loc { row: cur_row, col: cur_col }.move_in(*dir).unwrap();
                    cur_row = next.row;
                    cur_col = next.col;
                    let ghost prev_sq = b_entry.spec_sq(cur_row as int, cur_col as int);
                    proof {
                        assert(spec_path_step(*loc, *dir, cur_row as int, cur_col as int) == i
                            + 1);
                        assert(!spec_on_path(*loc, *dir, i as int, cur_row as int, cur_col as int));
                        assert(prev_sq == old(self).spec_sq(cur_row as int, cur_col as int));
                    }
                    // Flatten whatever tops the square, then deposit the next
                    // `d` carried stones on it, preserving their order.
                    let mut st = copy_stack(&self.grid[cur_row][cur_col]);
                    let st_len = st.len();
                    if st_len > 0 {
                        let top = st[st_len - 1];
                        st[st_len - 1] = Stone { owner: top.owner, typ: StoneType::Flat };
                    }
                    proof {
                        assert(st@ =~= spec_flatten_top(prev_sq));
                    }
                    let mut j: usize = 0;
                    while j < d
                        invariant
                            j <= d,
                            st@ == spec_flatten_top(prev_sq) + held@.subrange(
                                dropped as int,
                                dropped as int + j as int,
                            ),
                        decreases d - j,
                    {
                        st.push(held[dropped + j]);
                        proof {
                            assert(st@ =~= spec_flatten_top(prev_sq) + held@.subrange(
                                dropped as int,
                                dropped as int + j as int + 1,
                            ));
                        }
                        j += 1;
                    }
                    let ghost st_new = st;
                    self.grid[cur_row][cur_col] = st;
                    proof {
                        let rr = cur_row as int;
                        let cc = cur_col as int;
                        let sz = old(self).spec_size();
                        let row_new = self.grid@[rr];
                        assert(self.grid@ =~= b_entry.grid@.update(rr, row_new));
                        assert(row_new@ =~= b_entry.grid@[rr]@.update(cc, st_new));
                        let seg = held@.subrange(dropped as int, dropped as int + d as int);
                        assert forall|p: Player| #[trigger] grid_count(self.grid@, p)
                            == grid_count(old(self).grid@, p) - stack_count(
                            held@.subrange(dropped as int + d as int, held@.len() as int),
                            p,
                        ) by {
                            lemma_grid_count_update(b_entry.grid@, rr, row_new, p);
                            lemma_row_count_update(b_entry.grid@[rr]@, cc, st_new, p);
                            lemma_stack_count_add(spec_flatten_top(prev_sq), seg, p);
                            if prev_sq.len() > 0 {
                                lemma_stack_count_retop(
                                    prev_sq,
                                    Stone { owner: prev_sq.last().owner, typ: StoneType::Flat },
                                    p,
                                );
                            }
                            let rest = held@.subrange(dropped as int, held@.len() as int);
                            lemma_stack_count_split(rest, d as int, p);
                            assert(rest.subrange(0, d as int) =~= seg);
                            assert(rest.subrange(d as int, rest.len() as int) =~= held@.subrange(
                                dropped as int + d as int,
                                held@.len() as int,
                            ));
                        }
                        assert forall|r: int, c: int|
                            spec_in_bounds(sz, r, c) implies #[trigger] self.spec_sq(r, c) == if (
                        r == row0 && c == col0) || spec_on_path(
                            *loc,
                            *dir,
                            i as int + 1,
                            r,
                            c,
                        ) {
                            old(self).spec_sq_after_move(*loc, *dir, *total as int, drops@, r, c)
                        } else {
                            old(self).spec_sq(r, c)
                        } by {
                            if r == rr && c == cc {
                                assert(spec_on_path(*loc, *dir, i as int + 1, rr, cc));
                                assert(self.spec_sq(rr, cc) == st_new@);
                                assert(st_new@ == spec_flatten_top(prev_sq) + held@.subrange(
                                    dropped as int,
                                    dropped as int + d as int,
                                ));
                                assert(held@.subrange(dropped as int, dropped as int + d as int)
                                    == carried.subrange(
                                    sum_drops(drops@, i as int),
                                    sum_drops(drops@, i as int) + drops@[i as int],
                                ));
                            } else {
                                assert(self.spec_sq(r, c) == b_entry.spec_sq(r, c));
                                assert(spec_on_path(*loc, *dir, i as int + 1, r, c)
                                    == spec_on_path(*loc, *dir, i as int, r, c));
                            }
                        }
                    }
                    dropped = dropped + d;
                    i += 1;
                }
                proof {
                    assert(held@.subrange(dropped as int, held@.len() as int) =~= Seq::<
                        Stone,
                    >::empty());
                }
            },
        }
    }
}

/// A copy of the given stack (stones are plain values).
fn copy_stack(s: &Vec<Stone>) -> (r: Vec<Stone>)
    ensures
        r@ == s@,
{
    let mut out: Vec<Stone> = Vec::new();
    let mut i: usize = 0;
    while i < s.len()
        invariant
            i <= s@.len(),
            out@.len() == i,
            forall|k: int| 0 <= k < i ==> out@[k] == s@[k],
        decreases s@.len() - i,
    {
        out.push(s[i]);
        i += 1;
    }
    proof {
        assert(out@ =~= s@);
    }
    out
}

} // verus!
