//! Conway's Game of Life on a bounded grid, with the pieces of a terminal
//! front end that can be computed: frames, the idle screen, key mapping and
//! the tick-by-tick session state machine.

pub mod world;
pub mod render;
pub mod input;
pub mod session;
pub mod laws;
