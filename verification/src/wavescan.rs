//! Vocabulary of the waveform analyser's configuration screens.

pub mod config;
