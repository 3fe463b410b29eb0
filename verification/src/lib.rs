//! A data-access layer for a store of people and organizations, written
//! without I/O: the library says which statement to run and what the rows
//! that come back mean; the program around it talks to the store.
//!
//! It also holds the two in-memory layouts of a collection of people
//! (one record per slot, one sequence per field) and the pass over each
//! that adds one to every favorite number.

pub mod error;
pub mod models;
pub mod row;
pub mod mapper;
pub mod statement;
pub mod db;
pub mod listing;
pub mod benchmark;
