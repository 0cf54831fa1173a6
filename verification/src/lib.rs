//! Game logic of a small collection of macroquad games and a Solana
//! wallet adapter: player input, movement and combat decisions, sprite
//! animation tables, and the wallet connection state machines.

pub mod animations;
pub mod bubbles;
pub mod game;
pub mod input;
pub mod rpg;
pub mod shooter;
pub mod wallet;

pub use game::Game;
