//! An Elm-style runtime for terminal applications: a model, a focus chain of
//! components that get first refusal on each key press, an update step that
//! folds messages into the model, and a recorder that persists the key presses
//! of a session so that it can be replayed.
//!
//! `sniper` is a small file browser built on the runtime.

pub mod basic;
pub mod file_entry;
pub mod keys;
pub mod log;
pub mod runtime;
pub mod search_bar;
pub mod sniper;
pub mod widgets;
