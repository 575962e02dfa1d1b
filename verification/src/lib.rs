//! A StableSwap-style automated-market-maker pool core.
//!
//! The library prices trades among a fixed small set (2 or 3) of fungible
//! assets with a Newton-iteration invariant solver, splits gross swap output
//! into protocol, swap and burn fee streams, keeps a two-horizon fee ledger
//! (pending collection vs. all-time), and converts liquidity deposits and
//! withdrawals into minted or burned pool shares.  All arithmetic is exact
//! unsigned integer arithmetic with explicit overflow checks.

pub mod amp;
pub mod asset;
pub mod commands;
pub mod curve;
pub mod error;
pub mod factory;
pub mod fee;
pub mod instruction;
pub mod liquidity;
pub mod pair;
pub mod queries;
pub mod router;
pub mod state;
pub mod swap;
pub mod wide;
