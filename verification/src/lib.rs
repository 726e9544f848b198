pub mod direction;
pub mod game;
pub mod grid;
pub mod laws;
pub mod rng;
pub mod snake;
pub mod state;
