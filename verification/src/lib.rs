//! Transactions on their way from a Solana validator into a PostgreSQL database.
//!
//! The validator reports a processed transaction ([`replica`]). The library turns it into the row
//! that the database holds ([`transaction`], made of [`message`], [`hash`], [`meta`] and
//! [`error`]) and hands the row on ([`client`]). What each call returns, field by field, is in
//! [`fields`]; what holds of the rows as a whole is in [`laws`].
pub mod client;
pub mod error;
pub mod fields;
pub mod hash;
pub mod laws;
pub mod message;
pub mod meta;
pub mod number;
pub mod replica;
pub mod transaction;
