//! Decisions behind a small command-line switcher for Starship prompt presets.
//!
//! A preset is a `.toml` file in `<home>/.config/starship_presets`. The
//! switcher lists the presets, selects one by name, or flips between two fixed
//! ones, and it activates a preset by starting an interactive shell whose
//! `STARSHIP_CONFIG` points at the file.
//!
//! This crate holds every decision of that program as a function from plain
//! values to plain values: which path a name stands for, which file names are
//! presets, where a toggle leads, what is printed and with which code the
//! program ends. Reading the environment, the directory and starting the
//! shell are left to the caller, who feeds what it found back in.

pub mod text;
pub mod paths;
pub mod listing;
pub mod launch;
pub mod toggle;
pub mod command;
