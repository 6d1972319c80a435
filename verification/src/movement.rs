//! Movement legality: one row forward per turn, bounded drift.

use vstd::prelude::*;

verus! {

/// Whether a move from (from_x, from_y) to (to_x, to_y) is legal:
/// exactly one row forward, inside the grid, and — except for the entry
/// move from row 0, where any column may be chosen — at most one column of
/// lateral drift.
pub open spec fn spec_move_allowed(from_x: u32, from_y: u32, to_x: u32, to_y: u32) -> bool {
    &&& to_y == from_y + 1
    &&& to_x < crate::GRID_SIZE
    &&& to_y < crate::GRID_SIZE
    &&& (from_y == 0 || (if to_x >= from_x {
        to_x - from_x
    } else {
        from_x - to_x
    }) <= 1)
}

/// Decide a proposed move under the movement rules.
pub fn is_move_allowed(from_x: u32, from_y: u32, to_x: u32, to_y: u32) -> (r: bool)
    requires
        from_y < crate::GRID_SIZE,
    ensures
        r == spec_move_allowed(from_x, from_y, to_x, to_y),
{
    if to_y != from_y + 1 || to_x >= crate::GRID_SIZE || to_y >= crate::GRID_SIZE {
        return false;
    }
    if from_y > 0 {
        let x_diff = if to_x > from_x {
            to_x - from_x
        } else {
            from_x - to_x
        };
        if x_diff > 1 {
            return false;
        }
    }
    true
}

/// The entry move is free: from row 0 a move to any column of row 1 is
/// legal, however far it is from the starting column.
pub proof fn lemma_entry_move_any_column(from_x: u32, to_x: u32)
    ensures
        spec_move_allowed(from_x, 0, to_x, 1) <==> to_x < crate::GRID_SIZE,
{
}

/// Past the entry row the drift is bounded: from a row above 0 a move is
/// legal exactly when it goes one row forward, stays on the grid, and moves
/// at most one column sideways.
pub proof fn lemma_later_moves_bounded(from_x: u32, from_y: u32, to_x: u32, to_y: u32)
    requires
        from_y > 0,
    ensures
        spec_move_allowed(from_x, from_y, to_x, to_y) <==> {
            &&& to_y == from_y + 1
            &&& to_x < crate::GRID_SIZE
            &&& to_y < crate::GRID_SIZE
            &&& -1 <= to_x - from_x <= 1
        },
{
}

/// Every legal move advances exactly one row.
pub proof fn lemma_move_advances_one_row(from_x: u32, from_y: u32, to_x: u32, to_y: u32)
    requires
        spec_move_allowed(from_x, from_y, to_x, to_y),
    ensures
        to_y == from_y + 1,
{
}

} // verus!
