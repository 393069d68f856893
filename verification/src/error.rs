//! Why a write to the ledger is refused.

use vstd::prelude::*;

verus! {

/// The reasons for which an operation is refused. A refused operation
/// changes nothing.
#[derive(Clone, Copy, Debug, PartialEq, Eq, Structural)]
pub enum OracleError {
    /// The caller is not the registry's authority.
    Unauthorized,
    /// The symbol is longer than `MAX_SYMBOL_LEN` bytes.
    SymbolTooLong,
    /// The score is above `MAX_SCORE`.
    InvalidScore,
    /// The signal has already left the `Open` state.
    SignalAlreadyClosed,
    /// No signal has the given identifier.
    NotFound,
    /// The registry exists already.
    AlreadyInitialized,
    /// The counter that the operation would raise is at its highest value.
    CounterFull,
}

impl OracleError {
    /// The message that goes with the error.
    pub fn message(&self) -> (text: &'static str)
        ensures
            text@ == (match *self {
                OracleError::Unauthorized => "Unauthorized"@,
                OracleError::SymbolTooLong => "Symbol too long (max 10 chars)"@,
                OracleError::InvalidScore => "Invalid score (must be 0-100)"@,
                OracleError::SignalAlreadyClosed => "Signal already closed"@,
                OracleError::NotFound => "Signal not found"@,
                OracleError::AlreadyInitialized => "Already initialized"@,
                OracleError::CounterFull => "Counter full"@,
            }),
    {
        match self {
            OracleError::Unauthorized => "Unauthorized",
            OracleError::SymbolTooLong => "Symbol too long (max 10 chars)",
            OracleError::InvalidScore => "Invalid score (must be 0-100)",
            OracleError::SignalAlreadyClosed => "Signal already closed",
            OracleError::NotFound => "Signal not found",
            OracleError::AlreadyInitialized => "Already initialized",
            OracleError::CounterFull => "Counter full",
        }
    }
}

} // verus!
