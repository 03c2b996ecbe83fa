//! Movement: the pending action moves the piece, the arena contains it.

use vstd::prelude::*;
use crate::action::Action;
use crate::arena::Arena;
use crate::arena::Bounds;
use crate::piece::clamp;
use crate::piece::Cell;
use crate::piece::Position;
use crate::piece::Tetrimino;

verus! {

/// One coordinate held to the closed range from 0 to `hi`.
fn contain(v: i32, hi: i16) -> (r: i16)
    requires
        hi > 0,
    ensures
        r == clamp(v as int, hi as int),
{
    if v < 0 {
        0
    } else if v > hi as i32 {
        hi
    } else {
        v as i16
    }
}

/// Runs one tick of movement for one piece: applies the pending action to
/// the position, holds the position to the arena, and clears the action.
///
/// Never fails: a position off the grid, however far, is brought back to
/// the nearest cell of it.
pub fn player_movement(piece: &mut Tetrimino, position: &mut Position, arena: &Arena)
    ensures
        final(piece).action == Action::Idle,
        final(position)@ == old(position)@.step(old(piece).action, arena@),
        final(position)@.within(arena@),
{
    let (dx, dy) = piece.action.displacement();
    let x: i32 = position.x as i32 + dx as i32;
    let y: i32 = position.y as i32 + dy as i32;
    piece.action = Action::Idle;
    position.x = contain(x, arena.width());
    position.y = contain(y, arena.height());
}

/// After a tick of movement the cell lies on the grid, wherever it started
/// and whatever the action was.
pub proof fn lemma_step_within(cell: Cell, action: Action, bounds: Bounds)
    requires
        bounds.positive(),
    ensures
        cell.step(action, bounds).within(bounds),
{
}

/// After any number of ticks of movement the cell lies on the grid, provided
/// at least one tick ran or the cell lay on the grid to begin with.
pub proof fn lemma_run_within(cell: Cell, actions: Seq<Action>, bounds: Bounds)
    requires
        bounds.positive(),
        actions.len() > 0 || cell.within(bounds),
    ensures
        cell.run(actions, bounds).within(bounds),
    decreases actions.len(),
{
    if actions.len() > 0 {
        lemma_step_within(cell.run(actions.drop_last(), bounds), actions.last(), bounds);
    }
}

/// A tick of movement under `Idle` leaves a cell of the grid where it is.
pub proof fn lemma_idle_keeps_cell(cell: Cell, bounds: Bounds)
    requires
        bounds.positive(),
        cell.within(bounds),
    ensures
        cell.step(Action::Idle, bounds) == cell,
{
}

/// Movement under `Idle` is idempotent: a second tick of it changes nothing
/// that the first has left, wherever the cell started.
pub proof fn lemma_idle_idempotent(cell: Cell, bounds: Bounds)
    requires
        bounds.positive(),
    ensures
        cell.step(Action::Idle, bounds).step(Action::Idle, bounds) == cell.step(
            Action::Idle,
            bounds,
        ),
{
}

} // verus!
