//! Input: the keys held during a tick become exactly one action.

use vstd::prelude::*;
use bevy::input::keyboard::KeyCode;
use bevy::input::Input;
use crate::action::Action;
use crate::piece::Tetrimino;

verus! {

/// Makes bevy's `KeyCode` known to the verifier. It is a plain list of
/// keys, read as the crate defines it; nothing is assumed of it.
#[verifier::external_type_specification]
pub struct ExKeyCode(KeyCode);

/// Makes bevy's `Input` known to the verifier as an opaque value: the
/// engine's record of which keys are down.
#[verifier::external_type_specification]
#[verifier::external_body]
#[verifier::reject_recursive_types(T)]
pub struct ExInput<T>(Input<T>);

/// The set of keys that bevy's `Input` records as pressed at the moment.
pub uninterp spec fn held_keys(keyboard: Input<KeyCode>) -> Set<KeyCode>;

/// Asks the keyboard whether `key` is down, by `Input::pressed` of bevy.
///
/// Trusted: the answer is taken to be membership of `key` in the set of
/// pressed keys that the keyboard holds. The query changes nothing.
#[verifier::external_body]
fn is_held(keyboard: &Input<KeyCode>, key: KeyCode) -> (held: bool)
    ensures
        held == held_keys(*keyboard).contains(key),
{
    keyboard.pressed(key)
}

/// Which groups of keys have at least one key down.
#[derive(Debug, Clone, Copy, PartialEq, Eq, Structural)]
pub struct KeySignals {
    pub rotate_clockwise: bool,
    pub rotate_counter_clockwise: bool,
    pub hard_drop: bool,
    pub hold: bool,
    pub shift_left: bool,
    pub shift_right: bool,
    pub soft_drop: bool,
}

impl KeySignals {
    /// The signals that a set of held keys gives rise to. Each group lists
    /// its keys; a group signals when any of them is held.
    pub open spec fn of(keys: Set<KeyCode>) -> KeySignals {
        KeySignals {
            rotate_clockwise: keys.contains(KeyCode::Up) || keys.contains(KeyCode::X)
                || keys.contains(KeyCode::Numpad1) || keys.contains(KeyCode::Numpad5)
                || keys.contains(KeyCode::Numpad9),
            rotate_counter_clockwise: keys.contains(KeyCode::LControl) || keys.contains(
                KeyCode::Z,
            ) || keys.contains(KeyCode::Numpad3) || keys.contains(KeyCode::Numpad7),
            hard_drop: keys.contains(KeyCode::Space) || keys.contains(KeyCode::Numpad8),
            hold: keys.contains(KeyCode::LShift) || keys.contains(KeyCode::C) || keys.contains(
                KeyCode::Numpad0,
            ),
            shift_left: keys.contains(KeyCode::Left) || keys.contains(KeyCode::Numpad4),
            shift_right: keys.contains(KeyCode::Right) || keys.contains(KeyCode::Numpad6),
            soft_drop: keys.contains(KeyCode::Down) || keys.contains(KeyCode::Numpad2),
        }
    }

    /// Whether the signals ask for `action`. `Idle` is always on offer.
    pub open spec fn asks_for(self, action: Action) -> bool {
        match action {
            Action::RotateClockwise => self.rotate_clockwise,
            Action::RotateCounterClockwise => self.rotate_counter_clockwise,
            Action::HardDrop => self.hard_drop,
            Action::Hold => self.hold,
            Action::ShiftLeft => self.shift_left,
            Action::ShiftRight => self.shift_right,
            Action::SoftDrop => self.soft_drop,
            Action::Idle => true,
        }
    }

    /// The one action that the signals stand for. Where several groups
    /// signal at once the first in this order wins and the rest are ignored:
    /// rotate clockwise, rotate counter-clockwise, hard drop, hold, shift
    /// left, shift right, soft drop. No signal at all is `Idle`.
    pub open spec fn selected(self) -> Action {
        if self.rotate_clockwise {
            Action::RotateClockwise
        } else if self.rotate_counter_clockwise {
            Action::RotateCounterClockwise
        } else if self.hard_drop {
            Action::HardDrop
        } else if self.hold {
            Action::Hold
        } else if self.shift_left {
            Action::ShiftLeft
        } else if self.shift_right {
            Action::ShiftRight
        } else if self.soft_drop {
            Action::SoftDrop
        } else {
            Action::Idle
        }
    }

    /// Polls the keyboard once for every key of every group.
    pub fn read(keyboard: &Input<KeyCode>) -> (signals: KeySignals)
        ensures
            signals == KeySignals::of(held_keys(*keyboard)),
    {
        KeySignals {
            rotate_clockwise: is_held(keyboard, KeyCode::Up) || is_held(keyboard, KeyCode::X)
                || is_held(keyboard, KeyCode::Numpad1) || is_held(keyboard, KeyCode::Numpad5)
                || is_held(keyboard, KeyCode::Numpad9),
            rotate_counter_clockwise: is_held(keyboard, KeyCode::LControl) || is_held(
                keyboard,
                KeyCode::Z,
            ) || is_held(keyboard, KeyCode::Numpad3) || is_held(keyboard, KeyCode::Numpad7),
            hard_drop: is_held(keyboard, KeyCode::Space) || is_held(keyboard, KeyCode::Numpad8),
            hold: is_held(keyboard, KeyCode::LShift) || is_held(keyboard, KeyCode::C) || is_held(
                keyboard,
                KeyCode::Numpad0,
            ),
            shift_left: is_held(keyboard, KeyCode::Left) || is_held(keyboard, KeyCode::Numpad4),
            shift_right: is_held(keyboard, KeyCode::Right) || is_held(keyboard, KeyCode::Numpad6),
            soft_drop: is_held(keyboard, KeyCode::Down) || is_held(keyboard, KeyCode::Numpad2),
        }
    }

    /// Picks the action by the fixed order of precedence.
    pub fn select(&self) -> (action: Action)
        ensures
            action == self.selected(),
    {
        if self.rotate_clockwise {
            Action::RotateClockwise
        } else if self.rotate_counter_clockwise {
            Action::RotateCounterClockwise
        } else if self.hard_drop {
            Action::HardDrop
        } else if self.hold {
            Action::Hold
        } else if self.shift_left {
            Action::ShiftLeft
        } else if self.shift_right {
            Action::ShiftRight
        } else if self.soft_drop {
            Action::SoftDrop
        } else {
            Action::Idle
        }
    }
}

/// The action that a set of held keys resolves to.
pub open spec fn resolve(keys: Set<KeyCode>) -> Action {
    KeySignals::of(keys).selected()
}

/// Runs one tick of input: writes the action that the held keys resolve to
/// into the piece. Without a piece there is nothing to do, and that is no
/// error. Nothing but the piece's action changes.
pub fn player_input(keyboard: &Input<KeyCode>, piece: Option<&mut Tetrimino>)
    ensures
        piece matches Some(active) ==> final(active).action == resolve(held_keys(*keyboard)),
{
    if let Some(active) = piece {
        active.action = KeySignals::read(keyboard).select();
    }
}

/// The rank of an action in the order of precedence; the lower wins.
pub open spec fn precedence(action: Action) -> int {
    match action {
        Action::RotateClockwise => 0,
        Action::RotateCounterClockwise => 1,
        Action::HardDrop => 2,
        Action::Hold => 3,
        Action::ShiftLeft => 4,
        Action::ShiftRight => 5,
        Action::SoftDrop => 6,
        Action::Idle => 7,
    }
}

/// First match wins: the action selected is one that the signals ask for,
/// and nothing that they ask for precedes it.
pub proof fn lemma_selected_is_first(signals: KeySignals, other: Action)
    ensures
        signals.asks_for(signals.selected()),
        signals.asks_for(other) ==> precedence(signals.selected()) <= precedence(other),
{
}

/// A rotate-clockwise signal wins over every other signal, a shift to the
/// left among them.
pub proof fn lemma_rotate_clockwise_first(signals: KeySignals)
    requires
        signals.rotate_clockwise,
    ensures
        signals.selected() == Action::RotateClockwise,
{
}

} // verus!
