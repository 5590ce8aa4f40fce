//! Scheduler core of a two-player paddle game.
//!
//! The crate models a small entity/resource store, a command buffer whose
//! structural changes take effect only when it is flushed, a frame clock, the
//! presentation state of the game window, and a two-phase scheduler that runs
//! an ordered list of start-up steps once and an ordered list of update steps
//! once per frame. Every function carries a contract over a mathematical model
//! of the state it touches.

pub mod clock;
pub mod components;
pub mod error;
pub mod store;
pub mod commands;
pub mod log;
pub mod presentation;
pub mod steps;
pub mod scheduler;
pub mod laws;
