//! A single-item auction settlement protocol.
//!
//! A seller escrows an item in a custodial holding account and designates a
//! second holding account to collect currency. Bidders compete by escrowing
//! strictly increasing currency amounts; each accepted bid first refunds the
//! previously escrowed bid, then moves the new bid into custody, and only then
//! updates the auction record. Closing the auction releases the item to the
//! winning bidder and the currency to the seller.
//!
//! Authority over the holding accounts is never a stored key: it is re-derived
//! from the seller's identity wherever it is needed.

pub mod holding;
pub mod identity;
pub mod laws;
pub mod protocol;
