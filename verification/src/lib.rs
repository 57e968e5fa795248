//! A grid-based snake game as a discrete-time state machine.
//!
//! The simulation owns all of its state in one [`game::Game`] value and is
//! advanced by explicit step functions: the input latch, the movement step,
//! eating, growth, the food spawner and the game-over handler, and by
//! [`game::Game::tick`], which runs a whole tick of them in their fixed
//! order. Signals between the steps are plain return values.
//!
//! Each step is specified by a function of the mathematical model in
//! [`model`]; what holds of the simulation as a whole is proved in [`laws`].

pub mod direction;
pub mod food;
pub mod game;
pub mod grid;
pub mod growth;
pub mod input;
pub mod laws;
pub mod model;
pub mod movement;
pub mod screen;
pub mod tick;
