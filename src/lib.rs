//! Escrow and wager logic of a house that takes bets from members of an NFT
//! collection, pays out double on a win, and signs escrow transfers through an
//! address derived from its own configuration.
//!
//! The operations are pure decisions: each one checks the accounts and the
//! records it is given, updates the records, and hands back the token transfers
//! that the ledger must carry out for the operation to take effect.
pub mod address;
pub mod records;
pub mod membership;
pub mod authority;
pub mod game;
pub mod laws;
