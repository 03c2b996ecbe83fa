//! The discrete intents a player can express during one tick.

use vstd::prelude::*;

verus! {

/// The single player intent that a piece carries through one tick.
///
/// `Idle` is the resting value: it is what a piece holds between ticks and
/// what the keyboard resolves to when no recognised key is down.
#[derive(Debug, Clone, Copy, PartialEq, Eq, Hash, Structural)]
pub enum Action {
    ShiftRight,
    ShiftLeft,
    RotateClockwise,
    RotateCounterClockwise,
    SoftDrop,
    HardDrop,
    Hold,
    Idle,
}

impl Action {
    /// Horizontal displacement, in cells, that the action asks for.
    pub open spec fn dx(self) -> int {
        match self {
            Action::ShiftRight => 1,
            Action::ShiftLeft => -1,
            _ => 0,
        }
    }

    /// Vertical displacement, in cells, that the action asks for.
    ///
    /// `Hold` lifts the piece by one row. That stands in for a hold buffer,
    /// which the core does not have. Rotations and `HardDrop` are recognised
    /// but move nothing.
    pub open spec fn dy(self) -> int {
        match self {
            Action::SoftDrop => -1,
            Action::Hold => 1,
            _ => 0,
        }
    }

    /// The displacement `(dx, dy)` that the action asks for.
    pub fn displacement(self) -> (d: (i8, i8))
        ensures
            d.0 == self.dx(),
            d.1 == self.dy(),
    {
        match self {
            Action::ShiftRight => (1, 0),
            Action::ShiftLeft => (-1, 0),
            Action::SoftDrop => (0, -1),
            Action::Hold => (0, 1),
            Action::RotateClockwise => (0, 0),
            Action::RotateCounterClockwise => (0, 0),
            Action::HardDrop => (0, 0),
            Action::Idle => (0, 0),
        }
    }
}

} // verus!
