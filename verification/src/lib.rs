//! Simulation core of a falling-block grid puzzle.
//!
//! Every fixed tick the core resolves the held keys into one [`action::Action`],
//! applies it to the falling piece's grid position inside the [`arena::Arena`],
//! and afterwards says where each grid cell lies in the window.

pub mod action;
pub mod arena;
pub mod piece;
pub mod input;
pub mod movement;
pub mod presentation;
pub mod schedule;
