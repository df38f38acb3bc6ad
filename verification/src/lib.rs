//! A verified recursive-descent parser for a subset of SQL, working on a
//! table of already lexed tokens.

pub mod error;
pub mod keyword;
pub mod token;
pub mod lists;
pub mod common;
pub mod ast;
