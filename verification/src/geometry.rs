//! Board geometry: the fixed square grid, move directions, and the
//! point-symmetry about the board center that maps one player's coordinate
//! frame onto the other's.

use vstd::prelude::*;

verus! {

/// Side length of the square board.
pub const BOARD_SIZE: usize = 32;

/// Number of cells on the board.
pub const BOARD_CELLS: usize = 1024;

/// A move direction, expressed in the canonical (Red) frame.
#[derive(Debug, Copy, Clone, PartialEq, Eq, Structural)]
pub enum Direction {
    Up,
    Down,
    Left,
    Right,
}

/// The point-symmetric image of a flattened board index.
pub open spec fn invert_pos_spec(p: int) -> int {
    BOARD_CELLS - p - 1
}

/// The point-symmetric image of a direction: Up and Down swap, Left and
/// Right swap.
pub open spec fn invert_direction_spec(d: Direction) -> Direction {
    match d {
        Direction::Up => Direction::Down,
        Direction::Down => Direction::Up,
        Direction::Left => Direction::Right,
        Direction::Right => Direction::Left,
    }
}

/// Maps a position to its point-symmetric image about the board center.
pub fn invert_pos(idx: usize) -> (r: usize)
    requires
        idx < BOARD_CELLS,
    ensures
        r == invert_pos_spec(idx as int),
        r < BOARD_CELLS,
{
    BOARD_CELLS - idx - 1
}

/// Maps a direction to its point-symmetric image.
pub fn invert_direction(d: Direction) -> (r: Direction)
    ensures
        r == invert_direction_spec(d),
        d == Direction::Up ==> r == Direction::Down,
        d == Direction::Down ==> r == Direction::Up,
        d == Direction::Left ==> r == Direction::Right,
        d == Direction::Right ==> r == Direction::Left,
{
    match d {
        Direction::Up => Direction::Down,
        Direction::Down => Direction::Up,
        Direction::Left => Direction::Right,
        Direction::Right => Direction::Left,
    }
}

/// Position inversion is an involution: inverting a valid position twice
/// yields the original position.
pub proof fn lemma_invert_pos_involution(p: int)
    requires
        0 <= p < BOARD_CELLS,
    ensures
        invert_pos_spec(invert_pos_spec(p)) == p,
{
}

/// Direction inversion is an involution: inverting a direction twice yields
/// the original direction.
pub proof fn lemma_invert_direction_involution(d: Direction)
    ensures
        invert_direction_spec(invert_direction_spec(d)) == d,
{
}

/// The flattened index one step away from `pos` in direction `d`, with no
/// wrapping: a step off the board yields an out-of-range value.
pub open spec fn step_spec(pos: int, d: Direction) -> int {
    match d {
        Direction::Up => pos - BOARD_SIZE,
        Direction::Down => pos + BOARD_SIZE,
        Direction::Left => pos - 1,
        Direction::Right => pos + 1,
    }
}

/// Whether a step from `pos` in direction `d` leaves the board: off the top
/// row going up, off the bottom row going down, or across the left or right
/// edge.
pub open spec fn exits_board_spec(pos: int, d: Direction) -> bool {
    match d {
        Direction::Up => pos < BOARD_SIZE,
        Direction::Down => pos + BOARD_SIZE >= BOARD_CELLS,
        Direction::Left => pos % (BOARD_SIZE as int) == 0,
        Direction::Right => pos % (BOARD_SIZE as int) == BOARD_SIZE - 1,
    }
}

/// A step that does not exit the board lands on a valid board index.
pub proof fn lemma_step_in_bounds(pos: int, d: Direction)
    requires
        0 <= pos < BOARD_CELLS,
        !exits_board_spec(pos, d),
    ensures
        0 <= step_spec(pos, d) < BOARD_CELLS,
{
}

/// Mirroring both the position and the direction through the point symmetry
/// preserves whether the step exits the board.
pub proof fn lemma_exits_board_symmetric(pos: int, d: Direction)
    requires
        0 <= pos < BOARD_CELLS,
    ensures
        exits_board_spec(invert_pos_spec(pos), invert_direction_spec(d)) == exits_board_spec(
            pos,
            d,
        ),
{
    assert((BOARD_CELLS - pos - 1) % (BOARD_SIZE as int) == BOARD_SIZE - 1 - pos % (
    BOARD_SIZE as int)) by (nonlinear_arith)
        requires
            0 <= pos < BOARD_CELLS,
    ;
}

/// Stepping from a mirrored position in the mirrored direction lands on the
/// mirror of the original step's target.
pub proof fn lemma_step_symmetric(pos: int, d: Direction)
    ensures
        step_spec(invert_pos_spec(pos), invert_direction_spec(d)) == invert_pos_spec(
            step_spec(pos, d),
        ),
{
}

} // verus!
