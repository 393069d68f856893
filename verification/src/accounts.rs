//! What each instruction runs on: the records it may touch, the identity of
//! the caller and, for a publish, the time.

use crate::state::{OracleState, Signal};
use anchor_lang::prelude::Pubkey;
use vstd::prelude::*;

verus! {

/// The accounts of `initialize`.
#[derive(Debug)]
pub struct Initialize {
    /// The registry's slot: empty until the registry has been created.
    pub oracle_state: Option<OracleState>,
    /// The caller, who becomes the authority.
    pub authority: Pubkey,
}

/// The accounts of `publish_signal`.
#[derive(Debug)]
pub struct PublishSignal {
    pub oracle_state: OracleState,
    /// The slot that receives the new signal.
    pub signal: Option<Signal>,
    /// The caller.
    pub authority: Pubkey,
    /// The time of the call, in seconds since the Unix epoch.
    pub unix_timestamp: i64,
}

/// The accounts of `update_ath` and `close_signal`.
#[derive(Debug)]
pub struct UpdateSignal {
    pub oracle_state: OracleState,
    pub signal: Signal,
    /// The caller.
    pub authority: Pubkey,
}

impl PublishSignal {
    /// Whether the caller is the registry's authority.
    pub open spec fn authorized(self) -> bool {
        self.authority == self.oracle_state.authority
    }
}

impl UpdateSignal {
    /// Whether the caller is the registry's authority.
    pub open spec fn authorized(self) -> bool {
        self.authority == self.oracle_state.authority
    }
}

} // verus!
