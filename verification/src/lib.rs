//! A verified candidate-elimination engine for the word-guessing game
//! "Wordle", played against a remote scoring oracle.
//!
//! The library owns the game's logic: interpreting the oracle's per-letter
//! feedback, filtering the candidate word set consistently with it, and
//! driving the turn-by-turn state machine.  The network call itself is left
//! to the surrounding program, which hands the decoded response records back
//! to the library.

pub mod engine;
pub mod errors;
pub mod feedback;
pub mod game;
