//! Reward overlay for an auction-house marketplace.
//!
//! - `address`: program-derived addresses of reward centers, treasuries, listings and
//!   offers.
//! - `rules`: the reward rules engine, from a sale price to buyer and seller rewards.
//! - `records`: the records the program owns and the errors it reports.
//! - `market`: the lifecycle of reward centers, listings and offers, and settlement.
//!   Each operation is stated as a transition of the market's contents. The auction
//!   house's report of the escrow call (who, which item, what price) is an argument;
//!   a record changes only when that report matches what the operation asked for,
//!   and a refused operation changes nothing. When a treasury cannot cover the full rewards of a sale, nothing is paid
//!   and the sale stands.
//! - `laws`: properties that hold across operations.

pub mod address;
pub mod rules;
pub mod records;
pub mod market;
pub mod laws;
