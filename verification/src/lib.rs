//! Generation and textual rendering of universally unique identifiers.

pub mod backend;
pub mod cli;
pub mod error;
pub mod generator;
pub mod hex;
pub mod identifier;
pub mod output;
pub mod sequence;
pub mod strings;
pub mod text;
