//! The order of work within one tick.

use vstd::prelude::*;
use bevy::input::keyboard::KeyCode;
use bevy::input::Input;
use crate::action::Action;
use crate::arena::Arena;
use crate::input::held_keys;
use crate::input::player_input;
use crate::input::resolve;
use crate::movement::player_movement;
use crate::piece::Position;
use crate::piece::Tetrimino;

verus! {

/// Number of simulation ticks in one second, whatever the frame rate.
pub const TICKS_PER_SECOND: u32 = 8;

/// The two stages of a tick that touch a piece.
#[derive(Debug, Clone, Copy, PartialEq, Eq, Hash, Structural)]
pub enum TetriminoMovement {
    /// The held keys are resolved into the piece's action.
    Input,
    /// The piece's action is applied to its position.
    Movement,
}

impl TetriminoMovement {
    /// The stage that has to be complete before this one may start within
    /// the same tick: movement waits for input, input waits for nothing.
    pub fn runs_after(self) -> (earlier: Option<TetriminoMovement>)
        ensures
            earlier == match self {
                TetriminoMovement::Input => None::<TetriminoMovement>,
                TetriminoMovement::Movement => Some(TetriminoMovement::Input),
            },
    {
        match self {
            TetriminoMovement::Input => None,
            TetriminoMovement::Movement => Some(TetriminoMovement::Input),
        }
    }
}

/// Runs one whole tick for one piece: input first, then movement.
///
/// The piece moves by what the held keys resolve to, whatever action it
/// carried on entry, and carries `Idle` on exit.
pub fn tick(
    keyboard: &Input<KeyCode>,
    piece: &mut Tetrimino,
    position: &mut Position,
    arena: &Arena,
)
    ensures
        final(piece).action == Action::Idle,
        final(position)@ == old(position)@.step(resolve(held_keys(*keyboard)), arena@),
        final(position)@.within(arena@),
{
    player_input(keyboard, Some(&mut *piece));
    player_movement(piece, position, arena);
}

} // verus!
