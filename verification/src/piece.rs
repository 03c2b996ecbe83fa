//! The falling piece and where it stands on the grid.

use vstd::prelude::*;
use crate::action::Action;
use crate::arena::Bounds;

verus! {

/// A grid cell as a pair of mathematical integers: the model of a
/// [`Position`], free of machine limits.
pub struct Cell {
    pub x: int,
    pub y: int,
}

/// `v` held to the closed range from 0 to `hi`.
pub open spec fn clamp(v: int, hi: int) -> int {
    if v < 0 {
        0
    } else if v > hi {
        hi
    } else {
        v
    }
}

impl Cell {
    /// The cell lies on the grid, both far edges included.
    pub open spec fn within(self, bounds: Bounds) -> bool {
        0 <= self.x <= bounds.width && 0 <= self.y <= bounds.height
    }

    /// The cell that `action` asks for, before any containment.
    pub open spec fn shifted(self, action: Action) -> Cell {
        Cell { x: self.x + action.dx(), y: self.y + action.dy() }
    }

    /// The cell held to the grid, axis by axis.
    pub open spec fn clamped(self, bounds: Bounds) -> Cell {
        Cell { x: clamp(self.x, bounds.width), y: clamp(self.y, bounds.height) }
    }

    /// One tick of movement: the action's effect, then containment.
    pub open spec fn step(self, action: Action, bounds: Bounds) -> Cell {
        self.shifted(action).clamped(bounds)
    }

    /// The cell reached after one tick of movement for each of `actions`, in
    /// order.
    pub open spec fn run(self, actions: Seq<Action>, bounds: Bounds) -> Cell
        decreases actions.len(),
    {
        if actions.len() == 0 {
            self
        } else {
            self.run(actions.drop_last(), bounds).step(actions.last(), bounds)
        }
    }
}

/// Grid coordinates of a piece. Any pair of values may be stored; movement
/// brings it onto the grid.
#[derive(Debug, Clone, Copy, PartialEq, Eq, Structural)]
pub struct Position {
    pub x: i16,
    pub y: i16,
}

impl View for Position {
    type V = Cell;

    open spec fn view(&self) -> Cell {
        Cell { x: self.x as int, y: self.y as int }
    }
}

/// The falling game object. It owns the slot for the action of the
/// current tick.
#[derive(Debug, Clone, Copy, PartialEq, Eq, Structural)]
pub struct Tetrimino {
    pub action: Action,
}

} // verus!
