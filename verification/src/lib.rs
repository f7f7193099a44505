//! Decision logic behind a desktop front end for the `openspec` command-line tool.

pub mod commands;
pub mod discovery;
pub mod errors;
pub mod probe;
pub mod process;
pub mod runner;
pub mod text;
pub mod tools;
