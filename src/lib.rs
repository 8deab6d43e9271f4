//! Price lookup and guild settings logic for a chat bot that quotes token
//! prices from a pair-aggregation API.
//!
//! The crate holds the decisions; talking to the chat platform, the price
//! API and the record store is left to the caller.

pub mod coins;
pub mod commands;
pub mod embed;
pub mod error;
pub mod lookup;
pub mod menu;
pub mod numeral;
pub mod pair;
pub mod settings;
pub mod text;
pub mod tokens;
