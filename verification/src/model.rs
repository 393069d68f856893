//! The ledger as a mathematical value, and what each operation makes of it.

use crate::error::OracleError;
use crate::instructions::input_error;
use crate::roi::roi_bps_of;
use crate::state::{
    outcome_of, status_of, OracleState, Signal, SignalStatus, MAX_SCORE, MAX_SYMBOL_LEN,
};
use anchor_lang::prelude::Pubkey;
use vstd::prelude::*;

verus! {

/// A ledger: the registry, once it has been created, and the signals in the
/// order of their identifiers.
pub struct LedgerView {
    pub registry: Option<OracleState>,
    pub signals: Seq<Signal>,
}

/// A request to write to the ledger.
pub enum Operation {
    Initialize { authority: Pubkey },
    Publish {
        caller: Pubkey,
        now: i64,
        token: Pubkey,
        symbol: String,
        score: u8,
        risk_level: u8,
        sources_bitmap: u8,
        mcap: u64,
        entry_price: u64,
    },
    UpdateAth { caller: Pubkey, signal_id: u64, new_ath: u64 },
    Close { caller: Pubkey, signal_id: u64, exit_price: u64 },
}

impl LedgerView {
    /// The ledger before anything has been written.
    pub open spec fn empty() -> LedgerView {
        LedgerView { registry: None, signals: Seq::empty() }
    }

    /// Whether `caller` may write: the registry exists and names `caller` as
    /// its authority.
    pub open spec fn authorizes(self, caller: Pubkey) -> bool {
        self.registry matches Some(registry) && registry.authority == caller
    }

    /// Whether a signal has the identifier `signal_id`.
    pub open spec fn has_signal(self, signal_id: u64) -> bool {
        signal_id < self.signals.len()
    }

    /// Why `op` is refused on this ledger, if it is. The caller is looked at
    /// first, then whether the signal exists, then the rest, and last
    /// whether the counter that `op` would raise is full.
    pub open spec fn refusal(self, op: Operation) -> Option<OracleError> {
        match op {
            Operation::Initialize { .. } => if self.registry is Some {
                Some(OracleError::AlreadyInitialized)
            } else {
                None
            },
            Operation::Publish { caller, symbol, score, .. } => if !self.authorizes(caller) {
                Some(OracleError::Unauthorized)
            } else if input_error(symbol@, score) is Some {
                input_error(symbol@, score)
            } else if self.registry->0.exhausted() {
                Some(OracleError::CounterFull)
            } else {
                None
            },
            Operation::UpdateAth { caller, signal_id, .. } => if !self.authorizes(caller) {
                Some(OracleError::Unauthorized)
            } else if !self.has_signal(signal_id) {
                Some(OracleError::NotFound)
            } else {
                None
            },
            Operation::Close { caller, signal_id, exit_price } => if !self.authorizes(caller) {
                Some(OracleError::Unauthorized)
            } else if !self.has_signal(signal_id) {
                Some(OracleError::NotFound)
            } else if self.signals[signal_id as int].status != SignalStatus::Open {
                Some(OracleError::SignalAlreadyClosed)
            } else if self.registry->0.full_for(
                self.signals[signal_id as int].outcome_at(exit_price),
            ) {
                Some(OracleError::CounterFull)
            } else {
                None
            },
        }
    }

    /// The ledger after `op` has been carried out; meant for an `op` that is
    /// not refused.
    pub open spec fn effect(self, op: Operation) -> LedgerView {
        match op {
            Operation::Initialize { authority } => LedgerView {
                registry: Some(
                    OracleState { authority, total_signals: 0, total_wins: 0, total_losses: 0 },
                ),
                ..self
            },
            Operation::Publish {
                caller,
                now,
                token,
                symbol,
                score,
                risk_level,
                sources_bitmap,
                mcap,
                entry_price,
            } => LedgerView {
                registry: Some(self.registry->0.advanced()),
                signals: self.signals.push(
                    Signal::opened(
                        self.registry->0.total_signals,
                        token,
                        symbol,
                        score,
                        risk_level,
                        sources_bitmap,
                        mcap,
                        entry_price,
                        now,
                    ),
                ),
            },
            Operation::UpdateAth { signal_id, new_ath, .. } => LedgerView {
                signals: self.signals.update(
                    signal_id as int,
                    self.signals[signal_id as int].with_ath(new_ath),
                ),
                ..self
            },
            Operation::Close { signal_id, exit_price, .. } => LedgerView {
                registry: Some(
                    self.registry->0.recorded(
                        self.signals[signal_id as int].outcome_at(exit_price),
                    ),
                ),
                signals: self.signals.update(
                    signal_id as int,
                    self.signals[signal_id as int].settled(exit_price),
                ),
            },
        }
    }

    /// The ledger after `op` has been asked for: changed as `op` says, or,
    /// where `op` is refused, as it was.
    pub open spec fn apply(self, op: Operation) -> LedgerView {
        if self.refusal(op) is Some {
            self
        } else {
            self.effect(op)
        }
    }

    /// The ledger after the operations of `ops` have been asked for, one
    /// after the other.
    pub open spec fn run(self, ops: Seq<Operation>) -> LedgerView
        decreases ops.len(),
    {
        if ops.len() == 0 {
            self
        } else {
            self.run(ops.drop_last()).apply(ops.last())
        }
    }

    /// Whether the ledger is one that the operations can have made: the
    /// counters agree with the signals, and every signal is as its
    /// identifier and its state require.
    pub open spec fn consistent(self) -> bool {
        &&& match self.registry {
            Some(registry) => {
                &&& registry.total_signals == self.signals.len()
                &&& registry.total_wins == count_status(self.signals, SignalStatus::Win)
                &&& registry.total_losses == count_status(self.signals, SignalStatus::Loss)
            },
            None => self.signals.len() == 0,
        }
        &&& forall|i: int| 0 <= i < self.signals.len() ==> signal_consistent(#[trigger] self.signals[i], i)
    }
}

/// How many of `signals` are in the state `status`.
pub open spec fn count_status(signals: Seq<Signal>, status: SignalStatus) -> nat
    decreases signals.len(),
{
    if signals.len() == 0 {
        0
    } else {
        count_status(signals.drop_last(), status) + if signals.last().status == status {
            1nat
        } else {
            0nat
        }
    }
}

/// Whether `signal` can stand at place `index` of a ledger: it carries the
/// place as its identifier and a symbol and a score within their limits, its
/// high-water mark is not below its entry price, it has neither exit price
/// nor return while it is open, and once closed it is in the state that its
/// return decides.
pub open spec fn signal_consistent(signal: Signal, index: int) -> bool {
    &&& signal.id == index
    &&& signal.symbol_len() <= MAX_SYMBOL_LEN
    &&& signal.score <= MAX_SCORE
    &&& signal.ath_price >= signal.entry_price
    &&& signal.status == SignalStatus::Open ==> signal.exit_price == 0 && signal.roi_bps == 0
    &&& signal.status != SignalStatus::Open ==> {
        &&& signal.roi_bps == roi_bps_of(signal.entry_price, signal.exit_price)
        &&& signal.status == status_of(outcome_of(signal.roi_bps))
    }
}

} // verus!
