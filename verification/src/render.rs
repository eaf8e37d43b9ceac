//! Human-readable rendering of the game state, for diagnostics and logging.
//!
//! The text is specified to the character: each stone shows as its owner's
//! mark (`1` for the first mover, `2` for the second) followed by its kind's
//! mark (nothing for flat, `S` for standing, `C` for capstone); a square
//! lists its stack bottom to top, or `x` when unoccupied, and ends with a
//! comma; rows end with a newline. The full state adds the player to move
//! and both reserves above the board.

use vstd::prelude::*;
use crate::board::Board;
use crate::game::GameState;
use crate::pieces::{Player, Reserve, Stone, StoneType};

verus! {

/// Relies on alloc's `String::push`: appends the character to the string.
pub assume_specification[ String::push ](s: &mut String, ch: char)
    ensures
        final(s)@ == old(s)@.push(ch),
;

/// Relies on alloc's `String::push_str`: appends the string slice.
pub assume_specification[ String::push_str ](s: &mut String, other: &str)
    ensures
        final(s)@ == old(s)@ + other@,
;

/// The one-character mark of a player: `1` moves first, `2` second.
pub open spec fn spec_player_mark(p: Player) -> char {
    match p {
        Player::White => '1',
        Player::Black => '2',
    }
}

/// The mark of a stone's kind. A flat stone shows nothing beyond its owner.
pub open spec fn spec_type_text(t: StoneType) -> Seq<char> {
    match t {
        StoneType::Flat => Seq::empty(),
        StoneType::Standing => seq!['S'],
        StoneType::Capstone => seq!['C'],
    }
}

/// The text of one stone: owner's mark, then the kind's mark.
pub open spec fn spec_stone_text(s: Stone) -> Seq<char> {
    seq![spec_player_mark(s.owner)] + spec_type_text(s.typ)
}

/// The text of the first `n` stones of a stack, bottom to top.
pub open spec fn spec_stones_text(s: Seq<Stone>, n: int) -> Seq<char>
    decreases n,
{
    if n <= 0 {
        Seq::empty()
    } else {
        spec_stones_text(s, n - 1) + spec_stone_text(s[n - 1])
    }
}

/// The text of a whole stack: its stones bottom to top, or `x` for an
/// unoccupied square.
pub open spec fn spec_stack_text(s: Seq<Stone>) -> Seq<char> {
    if s.len() == 0 {
        seq!['x']
    } else {
        spec_stones_text(s, s.len() as int)
    }
}

/// The text of the first `n` squares of row `r`, each ending with a comma.
pub open spec fn spec_row_text(b: &Board, r: int, n: int) -> Seq<char>
    decreases n,
{
    if n <= 0 {
        Seq::empty()
    } else {
        spec_row_text(b, r, n - 1) + spec_stack_text(b.spec_sq(r, n - 1)) + seq![',']
    }
}

/// The text of the first `n` rows of the board, each ending with a newline.
pub open spec fn spec_rows_text(b: &Board, n: int) -> Seq<char>
    decreases n,
{
    if n <= 0 {
        Seq::empty()
    } else {
        spec_rows_text(b, n - 1) + spec_row_text(b, n - 1, b.spec_size()) + seq!['\n']
    }
}

/// The text of the whole board, row by row.
pub open spec fn spec_board_text(b: &Board) -> Seq<char> {
    spec_rows_text(b, b.spec_size())
}

/// The decimal digit `d` as a character.
pub open spec fn spec_digit(d: int) -> char {
    if d == 0 {
        '0'
    } else if d == 1 {
        '1'
    } else if d == 2 {
        '2'
    } else if d == 3 {
        '3'
    } else if d == 4 {
        '4'
    } else if d == 5 {
        '5'
    } else if d == 6 {
        '6'
    } else if d == 7 {
        '7'
    } else if d == 8 {
        '8'
    } else {
        '9'
    }
}

/// A reserve count in decimal, without leading zeroes.
pub open spec fn spec_count_text(n: int) -> Seq<char> {
    if n < 10 {
        seq![spec_digit(n)]
    } else if n < 100 {
        seq![spec_digit(n / 10), spec_digit(n % 10)]
    } else {
        seq![spec_digit(n / 100), spec_digit((n / 10) % 10), spec_digit(n % 10)]
    }
}

/// The text of one reserve: ordinary stones, `+`, capstones, `C`.
pub open spec fn spec_reserve_text(r: Reserve) -> Seq<char> {
    spec_count_text(r.reg as int) + seq!['+'] + spec_count_text(r.cap as int) + seq!['C']
}

/// The text of the full state: the player to move, both reserves, and the
/// board dump.
pub open spec fn spec_state_text(g: &GameState) -> Seq<char> {
    "current_player: "@ + seq![spec_player_mark(g.current_player)] + ",\nreserves: 1 -> "@
        + spec_reserve_text(g.spec_reserve(Player::White)) + ", 2 -> "@ + spec_reserve_text(
        g.spec_reserve(Player::Black),
    ) + ",\nboard:\n"@ + spec_board_text(&g.board)
}

/// Append one stone's text to `out`.
fn push_stone(out: &mut String, stone: Stone)
    ensures
        final(out)@ == old(out)@ + spec_stone_text(stone),
{
    match stone.owner {
        Player::White => out.push('1'),
        Player::Black => out.push('2'),
    }
    match stone.typ {
        StoneType::Flat => {},
        StoneType::Standing => out.push('S'),
        StoneType::Capstone => out.push('C'),
    }
    proof {
        assert(final(out)@ =~= old(out)@ + spec_stone_text(stone));
    }
}

/// Append a reserve count in decimal to `out`.
fn push_count(out: &mut String, n: u8)
    ensures
        final(out)@ == old(out)@ + spec_count_text(n as int),
{
    if n >= 100 {
        out.push(digit_char(n / 100));
    }
    if n >= 10 {
        out.push(digit_char((n / 10) % 10));
    }
    out.push(digit_char(n % 10));
    proof {
        assert(final(out)@ =~= old(out)@ + spec_count_text(n as int));
    }
}

/// The decimal digit `d` as a character.
fn digit_char(d: u8) -> (c: char)
    requires
        d < 10,
    ensures
        c == spec_digit(d as int),
{
    if d == 0 {
        '0'
    } else if d == 1 {
        '1'
    } else if d == 2 {
        '2'
    } else if d == 3 {
        '3'
    } else if d == 4 {
        '4'
    } else if d == 5 {
        '5'
    } else if d == 6 {
        '6'
    } else if d == 7 {
        '7'
    } else if d == 8 {
        '8'
    } else {
        '9'
    }
}

impl Board {
    /// The board as text, row by row: each square's stack bottom to top
    /// (`x` when unoccupied) followed by a comma; a newline after each row.
    #[verifier::loop_isolation(false)]
    pub fn render(&self) -> (out: String)
        requires
            self.wf(),
        ensures
            out@ == spec_board_text(self),
    {
        let size = self.grid.len();
        let mut out = String::new();
        let mut r: usize = 0;
        while r < size
            invariant
                r <= size,
                out@ == spec_rows_text(self, r as int),
            decreases size - r,
        {
            let mut c: usize = 0;
            while c < size
                invariant
                    c <= size,
                    out@ == spec_rows_text(self, r as int) + spec_row_text(
                        self,
                        r as int,
                        c as int,
                    ),
                decreases size - c,
            {
                let sq = &self.grid[r][c];
                let sq_len = sq.len();
                if sq_len == 0 {
                    out.push('x');
                } else {
                    let ghost mid = out@;
                    let mut k: usize = 0;
                    while k < sq_len
                        invariant
                            k <= sq_len,
                            out@ == mid + spec_stones_text(sq@, k as int),
                        decreases sq_len - k,
                    {
                        push_stone(&mut out, sq[k]);
                        proof {
                            assert(out@ =~= mid + spec_stones_text(sq@, k as int + 1));
                        }
                        k += 1;
                    }
                }
                out.push(',');
                proof {
                    assert(out@ =~= spec_rows_text(self, r as int) + spec_row_text(
                        self,
                        r as int,
                        c as int + 1,
                    ));
                }
                c += 1;
            }
            out.push('\n');
            proof {
                assert(out@ =~= spec_rows_text(self, r as int + 1));
            }
            r += 1;
        }
        out
    }
}

impl GameState {
    /// The full state as text: the player to move, both reserves (ordinary
    /// stones and capstones counted apart), and the board dump.
    pub fn render(&self) -> (out: String)
        requires
            self.wf(),
        ensures
            out@ == spec_state_text(self),
    {
        let mut out = String::new();
        out.push_str("current_player: ");
        match self.current_player {
            Player::White => out.push('1'),
            Player::Black => out.push('2'),
        }
        out.push_str(",\nreserves: 1 -> ");
        push_count(&mut out, self.white_reserve.reg);
        out.push('+');
        push_count(&mut out, self.white_reserve.cap);
        out.push('C');
        out.push_str(", 2 -> ");
        push_count(&mut out, self.black_reserve.reg);
        out.push('+');
        push_count(&mut out, self.black_reserve.cap);
        out.push('C');
        out.push_str(",\nboard:\n");
        let board_text = self.board.render();
        out.push_str(board_text.as_str());
        proof {
            assert(out@ =~= spec_state_text(self));
        }
        out
    }
}

} // verus!
