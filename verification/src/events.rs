//! The notifications that a successful write hands back for observers.

use crate::state::SignalStatus;
use anchor_lang::prelude::Pubkey;
use vstd::prelude::*;

verus! {

/// Tells that a signal has been published.
#[derive(Clone, Copy, Debug)]
pub struct SignalPublished {
    pub id: u64,
    pub token: Pubkey,
    pub score: u8,
    pub timestamp: i64,
}

/// Tells that a signal has been closed, and how.
#[derive(Clone, Copy, Debug)]
pub struct SignalClosed {
    pub id: u64,
    pub status: SignalStatus,
    pub roi_bps: i64,
}

} // verus!
