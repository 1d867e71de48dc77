//! Control logic of a small multi-task device, with the command and
//! configuration vocabularies of its companion programs, stated and proved
//! with Verus.

pub mod firmware;
pub mod game;
pub mod strings;
pub mod wavescan;
