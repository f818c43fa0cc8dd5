//! Session manager for the vim editor family: tracks the preferred editor
//! variant, discovers saved session files and decides what to list, open or
//! remove. Everything that touches the terminal, the disk or other processes is
//! left to the caller, which hands the results back as plain values.

pub mod catalog;
pub mod cli;
pub mod environment;
pub mod error;
pub mod manager;
pub mod sessions;
pub mod system;
pub mod text;
