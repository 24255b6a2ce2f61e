//! Rules engine of a turn-based board game for three to five players, who
//! build arenas and stage events in them.
//!
//! A round runs through four phases of player turns (investing, acquiring
//! at auction, trading, producing) and is then closed; after the last round
//! the game is over. The caller holds a [`game_state::GameState`] and
//! submits one [`types::Action`] at a time to `GameState::apply`, which
//! carries out a legal action and refuses an illegal one without changing
//! anything.
//!
//! The rules are written down as mathematics in [`rules`], over the views
//! of [`model`]; the executable code is proved to do what they say, and
//! [`laws`] proves what follows from them for every play.

pub mod types;
pub mod player;
pub mod game_state;
pub mod model;
pub mod rules;

pub mod assets;
pub mod staging;
pub mod lookup;
pub mod ledger;
pub mod board;
pub mod turns;

pub mod legal;
pub mod investing;
pub mod acquiring;
pub mod trading;
pub mod producing;
pub mod engine;
pub mod scoring;
pub mod validity;
pub mod queries;
pub mod catalog;

pub mod invariants;
pub mod laws;
