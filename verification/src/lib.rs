//! Core of a small desktop utility that asks for a username, runs a configured
//! application, times the run and appends one row per run to a CSV log.
//!
//! Everything here works on plain values: the caller reads files, shows the
//! prompt, spawns the process and takes the clock readings.

pub mod command;
pub mod config;
pub mod decimal;
pub mod lifecycle;
pub mod paths;
pub mod prompt;
pub mod record;
pub mod timestamp;
