//! A small set of named integer counters driven by key presses: the counter
//! store, the key-dispatch state machine and the composition of the screen.
pub mod amount;
pub mod controller;
pub mod field;
pub mod keys;
pub mod screen;
pub mod store;
