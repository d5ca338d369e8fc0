//! A command-line to-do list kept in a SQLite database, as a verified library.
//!
//! The library decides everything the tool does: which command the user asked
//! for, which database requests each command makes and in which order, how the
//! answers change the in-memory records, and the exact text that is printed.
//! The program around it only talks to the database and the terminal.

pub mod command_logic;
pub mod database;
pub mod database_structures;
pub mod decimal;
pub mod initialization_functions;
pub mod report;
pub mod status;
