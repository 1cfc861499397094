//! Blueprint: the data model and the editing rules of a terminal tool that
//! sketches a Rust project (its structs, enums, traits and CLI commands)
//! before any code is written.

pub mod commands;
pub mod data_types;
pub mod pages;
pub mod state;
pub mod text;
