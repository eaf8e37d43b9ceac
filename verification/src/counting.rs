//! Counting stones by owner, over stacks, rows and the whole grid.
//!
//! These counts state the conservation invariant: a move only rearranges
//! stones, and a placement adds exactly one, so for each player the stones on
//! the board plus the stones left in the reserve always equal the allotment
//! the game started with.

use vstd::prelude::*;
use crate::pieces::{Player, Stone};

verus! {

/// How many stones in the stack `s` belong to `p`.
pub open spec fn stack_count(s: Seq<Stone>, p: Player) -> int
    decreases s.len(),
{
    if s.len() == 0 {
        0
    } else {
        stack_count(s.drop_last(), p) + if s.last().owner == p {
            1int
        } else {
            0int
        }
    }
}

/// How many stones in the row of stacks `row` belong to `p`.
pub open spec fn row_count(row: Seq<Vec<Stone>>, p: Player) -> int
    decreases row.len(),
{
    if row.len() == 0 {
        0
    } else {
        row_count(row.drop_last(), p) + stack_count(row.last()@, p)
    }
}

/// How many stones on the whole grid `g` belong to `p`.
pub open spec fn grid_count(g: Seq<Vec<Vec<Stone>>>, p: Player) -> int
    decreases g.len(),
{
    if g.len() == 0 {
        0
    } else {
        grid_count(g.drop_last(), p) + row_count(g.last()@, p)
    }
}

/// Appending one stone raises the owner's count by one and no other.
pub proof fn lemma_stack_count_push(s: Seq<Stone>, x: Stone, p: Player)
    ensures
        stack_count(s.push(x), p) == stack_count(s, p) + if x.owner == p {
            1int
        } else {
            0int
        },
{
    assert(s.push(x).drop_last() =~= s);
}

/// Counts add over concatenation of stacks.
pub proof fn lemma_stack_count_add(a: Seq<Stone>, b: Seq<Stone>, p: Player)
    ensures
        stack_count(a + b, p) == stack_count(a, p) + stack_count(b, p),
    decreases b.len(),
{
    if b.len() == 0 {
        assert(a + b =~= a);
    } else {
        lemma_stack_count_add(a, b.drop_last(), p);
        assert((a + b).drop_last() =~= a + b.drop_last());
        assert((a + b).last() == b.last());
    }
}

/// A stack's count splits at any cut point.
pub proof fn lemma_stack_count_split(s: Seq<Stone>, k: int, p: Player)
    requires
        0 <= k <= s.len(),
    ensures
        stack_count(s, p) == stack_count(s.subrange(0, k), p) + stack_count(
            s.subrange(k, s.len() as int),
            p,
        ),
{
    lemma_stack_count_add(s.subrange(0, k), s.subrange(k, s.len() as int), p);
    assert(s.subrange(0, k) + s.subrange(k, s.len() as int) =~= s);
}

/// Replacing the top stone by one with the same owner leaves the count as it
/// was (this is what flattening a standing stone does).
pub proof fn lemma_stack_count_retop(s: Seq<Stone>, x: Stone, p: Player)
    requires
        s.len() > 0,
        x.owner == s.last().owner,
    ensures
        stack_count(s.update(s.len() - 1, x), p) == stack_count(s, p),
{
    let u = s.update(s.len() - 1, x);
    assert(u.drop_last() =~= s.drop_last());
    assert(u.last() == x);
}

/// Replacing the stack at one column changes the row's count by the
/// difference at that column.
pub proof fn lemma_row_count_update(row: Seq<Vec<Stone>>, i: int, v: Vec<Stone>, p: Player)
    requires
        0 <= i < row.len(),
    ensures
        row_count(row.update(i, v), p) == row_count(row, p) - stack_count(row[i]@, p)
            + stack_count(v@, p),
    decreases row.len(),
{
    let u = row.update(i, v);
    if i == row.len() - 1 {
        assert(u.drop_last() =~= row.drop_last());
        assert(u.last() == v);
    } else {
        lemma_row_count_update(row.drop_last(), i, v, p);
        assert(u.drop_last() =~= row.drop_last().update(i, v));
        assert(u.last() == row.last());
    }
}

/// Replacing one row changes the grid's count by the difference at that row.
pub proof fn lemma_grid_count_update(g: Seq<Vec<Vec<Stone>>>, i: int, v: Vec<Vec<Stone>>, p: Player)
    requires
        0 <= i < g.len(),
    ensures
        grid_count(g.update(i, v), p) == grid_count(g, p) - row_count(g[i]@, p) + row_count(v@, p),
    decreases g.len(),
{
    let u = g.update(i, v);
    if i == g.len() - 1 {
        assert(u.drop_last() =~= g.drop_last());
        assert(u.last() == v);
    } else {
        lemma_grid_count_update(g.drop_last(), i, v, p);
        assert(u.drop_last() =~= g.drop_last().update(i, v));
        assert(u.last() == g.last());
    }
}

/// Appending a row adds that row's count to the grid's.
pub proof fn lemma_grid_count_push(g: Seq<Vec<Vec<Stone>>>, row: Vec<Vec<Stone>>, p: Player)
    ensures
        grid_count(g.push(row), p) == grid_count(g, p) + row_count(row@, p),
{
    assert(g.push(row).drop_last() =~= g);
}

/// Appending a stack adds that stack's count to the row's.
pub proof fn lemma_row_count_push(row: Seq<Vec<Stone>>, v: Vec<Stone>, p: Player)
    ensures
        row_count(row.push(v), p) == row_count(row, p) + stack_count(v@, p),
{
    assert(row.push(v).drop_last() =~= row);
}

} // verus!
