//! A registry of option order books.
//!
//! The books of an options market form a tree: underlying asset, expiration,
//! strike, and at each strike a call and a put. The registry finds the book
//! of a contract from those keys, creates what is missing on the way down,
//! and adds up counts on the way up. Any number of threads may use it at
//! once.
//!
//! What is proved of it is proved for every state the shared maps can be in:
//! that a book handed out is the book of the key asked for, that keys are
//! listed in ascending order, that the at-the-money strike is the nearest
//! one, that totals lose nothing level by level. What a count or a lookup
//! returns depends on what other threads do meanwhile, and is stated for the
//! functions that take the answer of the map as an argument.

pub mod error;
pub mod orderbook;
pub mod registry;
pub mod text;
pub mod utils;

pub use error::Error;
