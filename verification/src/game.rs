//! Vocabulary of the top-down game: actions, components and identifiers.

pub mod animations;
pub mod background;
pub mod commands;
pub mod components;
pub mod identifier;
pub mod tally;
