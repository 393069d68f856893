//! Ledger of trading signals published by a single authority, with
//! aggregate win and loss counters.
//!
//! A signal is published open, may be told of higher prices while it
//! lives, and is closed once: its return in basis points then decides
//! whether it counts as a win, as a loss or as neither.
//!
//! - `state`, `events`, `error`: the records, the notifications and the
//!   refusals.
//! - `roi`: the return and its arithmetic.
//! - `accounts`, `instructions`: the four write operations, each on the
//!   records it is handed.
//! - `ledger`: the same operations on a ledger in memory, by identifier.
//! - `model`, `laws`, `counting`: the ledger as a mathematical value, and
//!   what is proved of it.
//! - `identity`: the identities, which come from `anchor_lang`.

pub mod accounts;
pub mod counting;
pub mod error;
pub mod events;
pub mod identity;
pub mod instructions;
pub mod laws;
pub mod ledger;
pub mod model;
pub mod roi;
pub mod state;
