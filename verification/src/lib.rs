//! The logical core of a tile-based adventure: a player roams connected maps,
//! collects items, meets enemies and fights them in turns.
//!
//! The crate draws nothing and reads no keyboard. A program hands it the
//! player's actions one at a time and shows what it answers: [`game::Game`] is
//! the state machine that takes the actions, [`combat`] resolves the blows,
//! [`map`] holds the maps and [`progress`] what the player has done on them.
//! [`model`] tells each action as a function on games, [`preservation`] shows that
//! every action keeps a game well formed, and [`laws`] states what holds of the
//! rules whatever the player does.

pub mod combat;
pub mod content;
pub mod dice;
pub mod enemy;
pub mod game;
pub mod item;
pub mod laws;
pub mod log;
pub mod map;
pub mod model;
pub mod placement;
pub mod player;
pub mod preservation;
pub mod progress;
pub mod stats;
