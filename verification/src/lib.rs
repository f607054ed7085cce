//! A deterministic simulation engine for the classic Snake arcade game.
//!
//! The engine is a set of plain state types ([`game::GameState`],
//! [`game::InputBuffer`], [`game::MoveTimer`], [`game::SnakeHead`],
//! [`game::Food`]) and of step functions over them. Nothing here draws,
//! opens a window or reads a device: a host program feeds the engine the
//! keys that are down, calls the step functions, and shows the state.
//!
//! Every function carries a contract over the mathematical model of the
//! state, and the rules of the game that relate several steps are proved
//! in [`laws`].

pub mod flow;
pub mod food;
pub mod game;
pub mod laws;
pub mod snake;
