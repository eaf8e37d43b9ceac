//! Rejection rules, reserve accounting and conservation.

use tak::game::GameState;
use tak::geometry::{Dir, Loc};
use tak::pieces::{Player, Stone, StoneType};
use tak::turn::Turn;

fn place(row: usize, col: usize, player: Player, typ: StoneType) -> Turn {
    Turn::Place { loc: Loc { row, col }, player, typ }
}

fn slide(row: usize, col: usize, player: Player, dir: Dir, total: usize, drops: Vec<usize>) -> Turn {
    Turn::Move { loc: Loc { row, col }, player, dir, total, drops }
}

fn stones_on_board(state: &GameState, p: Player) -> usize {
    let mut n = 0;
    for row in &state.board.grid {
        for sq in row {
            for stone in sq {
                if stone.owner == p {
                    n += 1;
                }
            }
        }
    }
    n
}

#[test]
fn place_on_occupied_square_is_rejected() {
    let mut state = GameState::new(5);
    assert!(state.apply_turn(&place(2, 2, Player::White, StoneType::Flat)));
    assert!(!state.valid_turn(&place(2, 2, Player::Black, StoneType::Flat)));
    assert!(!state.apply_turn(&place(2, 2, Player::Black, StoneType::Standing)));
    // The same square stays as it was.
    assert_eq!(state.board.grid[2][2].len(), 1);
}

#[test]
fn place_off_board_is_rejected() {
    let mut state = GameState::new(3);
    assert!(!state.apply_turn(&place(3, 0, Player::White, StoneType::Flat)));
    assert!(!state.apply_turn(&place(0, 7, Player::White, StoneType::Flat)));
}

#[test]
fn place_by_wrong_player_is_rejected_even_on_empty_square() {
    let mut state = GameState::new(5);
    assert!(!state.apply_turn(&place(0, 0, Player::Black, StoneType::Flat)));
    assert!(state.board.grid[0][0].is_empty());
    assert_eq!(state.current_player, Player::White);
}

#[test]
fn move_with_wrong_drop_sum_is_rejected() {
    let mut state = GameState::new(5);
    assert!(state.apply_turn(&place(0, 0, Player::White, StoneType::Flat)));
    assert!(state.apply_turn(&place(4, 4, Player::Black, StoneType::Flat)));
    // One stone picked up, but the drops claim two.
    assert!(!state.apply_turn(&slide(0, 0, Player::White, Dir::South, 1, vec![2])));
    // Two declared, only one dropped.
    assert!(!state.apply_turn(&slide(0, 0, Player::White, Dir::South, 2, vec![1])));
    // Matching sum on the same square succeeds.
    assert!(state.apply_turn(&slide(0, 0, Player::White, Dir::South, 1, vec![1])));
}

#[test]
fn move_with_zero_drop_entry_is_rejected() {
    // Every square a move steps over must receive at least one stone: a
    // zero entry in the drop sequence makes the whole turn illegal.
    let mut state = GameState::new(5);
    assert!(state.apply_turn(&place(0, 0, Player::White, StoneType::Flat)));
    assert!(state.apply_turn(&place(4, 4, Player::Black, StoneType::Flat)));
    assert!(state.apply_turn(&place(1, 0, Player::White, StoneType::Flat)));
    assert!(state.apply_turn(&place(4, 3, Player::Black, StoneType::Flat)));
    assert!(state.apply_turn(&slide(0, 0, Player::White, Dir::South, 1, vec![1])));
    assert!(state.apply_turn(&place(4, 2, Player::Black, StoneType::Flat)));
    // (1,0) holds two white stones now.
    assert_eq!(state.board.grid[1][0].len(), 2);
    assert!(!state.apply_turn(&slide(1, 0, Player::White, Dir::East, 2, vec![0, 2])));
    assert!(!state.apply_turn(&slide(1, 0, Player::White, Dir::East, 2, vec![2, 0])));
    assert!(state.apply_turn(&slide(1, 0, Player::White, Dir::East, 2, vec![1, 1])));
}

#[test]
fn move_cannot_carry_more_than_the_stack_or_the_carry_limit() {
    let mut state = GameState::new(3);
    assert!(state.apply_turn(&place(0, 0, Player::White, StoneType::Flat)));
    assert!(state.apply_turn(&place(2, 2, Player::Black, StoneType::Flat)));
    // Only one stone sits at (0,0).
    assert!(!state.apply_turn(&slide(0, 0, Player::White, Dir::South, 2, vec![1, 1])));
    // Zero stones is no move either.
    assert!(!state.apply_turn(&slide(0, 0, Player::White, Dir::South, 0, vec![])));
}

#[test]
fn move_must_stay_on_the_board() {
    let mut state = GameState::new(3);
    assert!(state.apply_turn(&place(0, 0, Player::White, StoneType::Flat)));
    assert!(state.apply_turn(&place(2, 2, Player::Black, StoneType::Flat)));
    // North from the top row walks off the low edge.
    assert!(!state.apply_turn(&slide(0, 0, Player::White, Dir::North, 1, vec![1])));
    // West from the leftmost column likewise.
    assert!(!state.apply_turn(&slide(0, 0, Player::White, Dir::West, 1, vec![1])));
    // And a long slide east runs past the last column.
    assert!(!state.apply_turn(&slide(0, 0, Player::White, Dir::East, 1, vec![1, 1, 1])));
}

#[test]
fn only_the_controller_may_move_a_stack() {
    let mut state = GameState::new(5);
    assert!(state.apply_turn(&place(0, 0, Player::White, StoneType::Flat)));
    assert!(state.apply_turn(&place(1, 1, Player::Black, StoneType::Flat)));
    // It is Black's move, but White tops the stack at (0,0).
    assert!(!state.apply_turn(&slide(0, 0, Player::Black, Dir::South, 1, vec![1])));
}

#[test]
fn standing_stone_blocks_all_but_a_lone_capstone() {
    let mut state = GameState::new(5);
    assert!(state.apply_turn(&place(0, 0, Player::White, StoneType::Flat)));
    assert!(state.apply_turn(&place(1, 0, Player::Black, StoneType::Standing)));
    // A flat stone cannot enter the wall's square.
    assert!(!state.apply_turn(&slide(0, 0, Player::White, Dir::South, 1, vec![1])));
    assert!(state.apply_turn(&place(2, 0, Player::White, StoneType::Capstone)));
    assert!(state.apply_turn(&place(4, 4, Player::Black, StoneType::Flat)));
    // The lone capstone may, dropping exactly one stone, and it crushes the
    // wall flat under itself.
    assert!(state.valid_turn(&slide(2, 0, Player::White, Dir::North, 1, vec![1])));
    assert!(state.apply_turn(&slide(2, 0, Player::White, Dir::North, 1, vec![1])));
    assert_eq!(state.board.grid[1][0].len(), 2);
    assert_eq!(state.board.grid[1][0][0].typ, StoneType::Flat);
    assert_eq!(state.board.grid[1][0][1].typ, StoneType::Capstone);
}

#[test]
fn capstone_stack_cannot_drop_two_stones_on_a_wall() {
    let mut state = GameState::new(5);
    assert!(state.apply_turn(&place(0, 0, Player::White, StoneType::Flat)));
    assert!(state.apply_turn(&place(0, 1, Player::Black, StoneType::Standing)));
    assert!(state.apply_turn(&place(1, 0, Player::White, StoneType::Capstone)));
    assert!(state.apply_turn(&place(4, 4, Player::Black, StoneType::Flat)));
    assert!(state.apply_turn(&slide(1, 0, Player::White, Dir::North, 1, vec![1])));
    assert!(state.apply_turn(&place(4, 3, Player::Black, StoneType::Flat)));
    // (0,0) now carries a flat under the capstone. Unloading both onto the
    // wall at (0,1) in one drop is no lone capstone landing there.
    assert!(!state.apply_turn(&slide(0, 0, Player::White, Dir::East, 2, vec![2])));
}

#[test]
fn capstone_topped_stack_may_shed_one_stone_onto_a_wall() {
    // The wall check asks two things of the square it guards: the moving
    // stack's top stone is a capstone, and exactly one stone lands there.
    let mut state = GameState::new(5);
    assert!(state.apply_turn(&place(0, 0, Player::White, StoneType::Flat)));
    assert!(state.apply_turn(&place(0, 1, Player::Black, StoneType::Standing)));
    assert!(state.apply_turn(&place(1, 0, Player::White, StoneType::Capstone)));
    assert!(state.apply_turn(&place(4, 4, Player::Black, StoneType::Flat)));
    assert!(state.apply_turn(&slide(1, 0, Player::White, Dir::North, 1, vec![1])));
    assert!(state.apply_turn(&place(4, 3, Player::Black, StoneType::Flat)));
    assert!(state.apply_turn(&slide(0, 0, Player::White, Dir::East, 2, vec![1, 1])));
    // The wall was flattened by the passing drop; the capstone went on.
    assert_eq!(state.board.grid[0][1].len(), 2);
    assert_eq!(state.board.grid[0][1][0].typ, StoneType::Flat);
    assert_eq!(
        state.board.grid[0][2],
        vec![Stone { owner: Player::White, typ: StoneType::Capstone }]
    );
}

#[test]
fn capstone_can_never_be_covered() {
    let mut state = GameState::new(5);
    assert!(state.apply_turn(&place(0, 0, Player::White, StoneType::Capstone)));
    assert!(state.apply_turn(&place(1, 0, Player::Black, StoneType::Capstone)));
    // Even a capstone may not land on another capstone.
    assert!(!state.apply_turn(&slide(0, 0, Player::White, Dir::South, 1, vec![1])));
    // Nor may a flat stone.
    assert!(state.apply_turn(&place(2, 0, Player::White, StoneType::Flat)));
    assert!(state.apply_turn(&place(4, 4, Player::Black, StoneType::Flat)));
    assert!(!state.apply_turn(&slide(2, 0, Player::White, Dir::North, 1, vec![1])));
}

#[test]
fn reserve_table_matches_board_size() {
    let expected: [(usize, u8, u8); 6] =
        [(3, 10, 0), (4, 15, 0), (5, 21, 1), (6, 30, 1), (7, 40, 2), (8, 50, 2)];
    for (size, reg, cap) in expected {
        let state = GameState::new(size);
        assert_eq!(state.current_player, Player::White);
        assert_eq!(state.board.grid.len(), size);
        for p in [Player::White, Player::Black] {
            let r = state.reserve(p);
            assert_eq!(r.reg, reg);
            assert_eq!(r.cap, cap);
        }
    }
}

#[test]
fn exhausted_capstone_reserve_rejects_capstones_but_not_flats() {
    let mut state = GameState::new(5);
    // White's single capstone goes down; the pools are separate, so flats
    // keep flowing while a second capstone is refused.
    assert!(state.apply_turn(&place(0, 0, Player::White, StoneType::Capstone)));
    assert!(state.apply_turn(&place(1, 1, Player::Black, StoneType::Flat)));
    assert_eq!(state.reserve(Player::White).cap, 0);
    assert!(!state.valid_turn(&place(2, 2, Player::White, StoneType::Capstone)));
    assert!(!state.apply_turn(&place(2, 2, Player::White, StoneType::Capstone)));
    assert!(state.apply_turn(&place(2, 2, Player::White, StoneType::Flat)));
}

#[test]
fn placements_draw_on_the_matching_pool_only() {
    let mut state = GameState::new(5);
    assert!(state.apply_turn(&place(0, 0, Player::White, StoneType::Flat)));
    assert_eq!(state.reserve(Player::White).reg, 20);
    assert_eq!(state.reserve(Player::White).cap, 1);
    assert_eq!(state.reserve(Player::Black).reg, 21);
    assert!(state.apply_turn(&place(1, 0, Player::Black, StoneType::Standing)));
    assert_eq!(state.reserve(Player::Black).reg, 20);
    assert_eq!(state.reserve(Player::Black).cap, 1);
    assert!(state.apply_turn(&place(2, 0, Player::White, StoneType::Capstone)));
    assert_eq!(state.reserve(Player::White).reg, 20);
    assert_eq!(state.reserve(Player::White).cap, 0);
}

#[test]
fn stones_are_conserved_across_a_game_fragment() {
    let mut state = GameState::new(5);
    let turns = [
        place(0, 0, Player::White, StoneType::Flat),
        place(1, 0, Player::Black, StoneType::Flat),
        place(2, 0, Player::White, StoneType::Standing),
        place(1, 1, Player::Black, StoneType::Flat),
        slide(0, 0, Player::White, Dir::South, 1, vec![1]),
        slide(1, 1, Player::Black, Dir::West, 1, vec![1]),
        slide(2, 0, Player::White, Dir::North, 1, vec![1]),
        place(0, 3, Player::Black, StoneType::Capstone),
        slide(1, 0, Player::White, Dir::East, 4, vec![2, 1, 1]),
        slide(0, 3, Player::Black, Dir::South, 1, vec![1]),
    ];
    for turn in &turns {
        assert!(state.apply_turn(turn));
        for p in [Player::White, Player::Black] {
            let r = state.reserve(p);
            assert_eq!(stones_on_board(&state, p) + r.reg as usize + r.cap as usize, 22);
        }
    }
}

#[test]
fn move_turns_leave_reserves_alone() {
    let mut state = GameState::new(5);
    assert!(state.apply_turn(&place(0, 0, Player::White, StoneType::Flat)));
    assert!(state.apply_turn(&place(4, 4, Player::Black, StoneType::Flat)));
    let before_white = state.reserve(Player::White);
    let before_black = state.reserve(Player::Black);
    assert!(state.apply_turn(&slide(0, 0, Player::White, Dir::East, 1, vec![1])));
    assert_eq!(state.reserve(Player::White), before_white);
    assert_eq!(state.reserve(Player::Black), before_black);
}
