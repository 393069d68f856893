//! The ledger held in memory: the registry's slot and the signals by their
//! identifiers.

use crate::error::OracleError;
use crate::events::{SignalClosed, SignalPublished};
use crate::instructions::check_input;
use crate::laws::{lemma_apply_keeps_consistent, lemma_close_is_owed};
use crate::model::{LedgerView, Operation};
use crate::roi::{falls_a_point, gains_half};
use crate::state::{OracleState, Signal, SignalStatus};
use anchor_lang::prelude::Pubkey;
use vstd::prelude::*;

verus! {

/// A ledger in memory. It starts empty, gets its registry from
/// `initialize`, and keeps every signal that is published, at the index
/// that is its identifier.
pub struct Ledger {
    registry: Option<OracleState>,
    signals: Vec<Signal>,
}

impl View for Ledger {
    type V = LedgerView;

    closed spec fn view(&self) -> LedgerView {
        LedgerView { registry: self.registry, signals: self.signals@ }
    }
}

impl Ledger {
    /// Whether the ledger is consistent.
    pub open spec fn wf(&self) -> bool {
        self@.consistent()
    }

    /// The empty ledger: no registry yet, no signals.
    pub fn new() -> (ledger: Ledger)
        ensures
            ledger@ == LedgerView::empty(),
            ledger.wf(),
    {
        Ledger { registry: None, signals: Vec::new() }
    }

    /// The registry, once it has been created.
    pub fn registry(&self) -> (registry: Option<OracleState>)
        ensures
            registry == self@.registry,
    {
        self.registry
    }

    /// The number of signals.
    pub fn len(&self) -> (len: usize)
        ensures
            len == self@.signals.len(),
    {
        self.signals.len()
    }

    /// The signal with the identifier `signal_id`, if there is one.
    pub fn signal(&self, signal_id: u64) -> (found: Option<&Signal>)
        ensures
            match found {
                Some(signal) => self@.has_signal(signal_id) && *signal
                    == self@.signals[signal_id as int],
                None => !self@.has_signal(signal_id),
            },
    {
        if signal_id < self.signals.len() as u64 {
            Some(&self.signals[signal_id as usize])
        } else {
            None
        }
    }

    /// Whether `caller` may write.
    fn authorizes(&self, caller: &Pubkey) -> (ok: bool)
        ensures
            ok == self@.authorizes(*caller),
    {
        match &self.registry {
            Some(registry) => registry.is_authority(caller),
            None => false,
        }
    }

    /// Creates the registry with `authority` as its authority and all
    /// counters at zero. Refused with `AlreadyInitialized` where the registry
    /// exists.
    pub fn initialize(&mut self, authority: Pubkey) -> (done: Result<(), OracleError>)
        requires
            old(self).wf(),
        ensures
            final(self).wf(),
            final(self)@ == old(self)@.apply(Operation::Initialize { authority }),
            done == (match old(self)@.refusal(Operation::Initialize { authority }) {
                Some(e) => Err::<(), OracleError>(e),
                None => Ok(()),
            }),
    {
        proof {
            lemma_apply_keeps_consistent(self@, Operation::Initialize { authority });
        }
        if self.registry.is_some() {
            return Err(OracleError::AlreadyInitialized);
        }
        self.registry = Some(OracleState::new(authority));
        Ok(())
    }

    /// Publishes a new signal in the name of `caller` at the time `now`: the
    /// signal gets the number of signals so far as its identifier and is
    /// kept, open. Refused with `Unauthorized`, `SymbolTooLong`,
    /// `InvalidScore` or, where no identifier is left, `CounterFull`, in this
    /// order of precedence.
    pub fn publish(
        &mut self,
        caller: Pubkey,
        now: i64,
        token: Pubkey,
        symbol: String,
        score: u8,
        risk_level: u8,
        sources_bitmap: u8,
        mcap: u64,
        entry_price: u64,
    ) -> (published: Result<SignalPublished, OracleError>)
        requires
            old(self).wf(),
        ensures
            final(self).wf(),
            ({
                let op = Operation::Publish {
                    caller,
                    now,
                    token,
                    symbol,
                    score,
                    risk_level,
                    sources_bitmap,
                    mcap,
                    entry_price,
                };
                &&& final(self)@ == old(self)@.apply(op)
                &&& match published {
                    Ok(event) => {
                        &&& old(self)@.refusal(op) is None
                        &&& event.id == old(self)@.signals.len()
                        &&& final(self)@.signals.len() == old(self)@.signals.len() + 1
                        &&& final(self)@.registry->0.total_signals == old(
                            self,
                        )@.registry->0.total_signals + 1
                        &&& event == (SignalPublished { id: event.id, token, score, timestamp: now })
                    },
                    Err(e) => old(self)@.refusal(op) == Some(e),
                }
            }),
    {
        proof {
            lemma_apply_keeps_consistent(
                self@,
                Operation::Publish {
                    caller,
                    now,
                    token,
                    symbol,
                    score,
                    risk_level,
                    sources_bitmap,
                    mcap,
                    entry_price,
                },
            );
        }
        if !self.authorizes(&caller) {
            return Err(OracleError::Unauthorized);
        }
        match check_input(symbol.as_str(), score) {
            Err(e) => {
                return Err(e);
            },
            Ok(()) => {},
        }
        let mut registry = self.registry.unwrap();
        if registry.is_exhausted() {
            return Err(OracleError::CounterFull);
        }
        let id = registry.next_signal_id();
        self.registry = Some(registry);
        self.signals.push(
            Signal::open(
                id,
                token,
                symbol,
                score,
                risk_level,
                sources_bitmap,
                mcap,
                entry_price,
                now,
            ),
        );
        Ok(SignalPublished { id, token, score, timestamp: now })
    }

    /// Tells the signal `signal_id` of a price, in the name of `caller`: its
    /// high-water mark rises to `new_ath` if that is higher, and never falls.
    /// The signal's state is not looked at. Refused with `Unauthorized`, or
    /// with `NotFound` where there is no such signal.
    pub fn update_ath(&mut self, caller: Pubkey, signal_id: u64, new_ath: u64) -> (done: Result<
        (),
        OracleError,
    >)
        requires
            old(self).wf(),
        ensures
            final(self).wf(),
            final(self)@ == old(self)@.apply(Operation::UpdateAth { caller, signal_id, new_ath }),
            done == (match old(self)@.refusal(Operation::UpdateAth { caller, signal_id, new_ath }) {
                Some(e) => Err::<(), OracleError>(e),
                None => Ok(()),
            }),
    {
        proof {
            lemma_apply_keeps_consistent(self@, Operation::UpdateAth { caller, signal_id, new_ath });
        }
        if !self.authorizes(&caller) {
            return Err(OracleError::Unauthorized);
        }
        if signal_id >= self.signals.len() as u64 {
            return Err(OracleError::NotFound);
        }
        self.signals[signal_id as usize].raise_ath(new_ath);
        assert(self@.signals =~= old(self)@.apply(
            Operation::UpdateAth { caller, signal_id, new_ath },
        ).signals);
        Ok(())
    }

    /// Closes the open signal `signal_id` at `exit_price`, in the name of
    /// `caller`: records the price and the return, moves the signal to the
    /// terminal state that the return decides, and counts a win or a loss.
    /// Refused with `Unauthorized`, with `NotFound` where there is no such
    /// signal, or with `SignalAlreadyClosed` where it is not open; the
    /// counters of a ledger always have room.
    pub fn close(&mut self, caller: Pubkey, signal_id: u64, exit_price: u64) -> (closed: Result<
        SignalClosed,
        OracleError,
    >)
        requires
            old(self).wf(),
        ensures
            final(self).wf(),
            ({
                let op = Operation::Close { caller, signal_id, exit_price };
                &&& final(self)@ == old(self)@.apply(op)
                &&& match closed {
                    Ok(event) => {
                        &&& old(self)@.refusal(op) is None
                        &&& event == (SignalClosed {
                            id: signal_id,
                            status: final(self)@.signals[signal_id as int].status,
                            roi_bps: final(self)@.signals[signal_id as int].roi_bps,
                        })
                        &&& event.status == SignalStatus::Win <==> gains_half(
                            old(self)@.signals[signal_id as int].entry_price,
                            exit_price,
                        )
                        &&& event.status == SignalStatus::Loss <==> falls_a_point(
                            old(self)@.signals[signal_id as int].entry_price,
                            exit_price,
                        )
                    },
                    Err(e) => old(self)@.refusal(op) == Some(e) && e != OracleError::CounterFull,
                }
            }),
    {
        proof {
            lemma_apply_keeps_consistent(self@, Operation::Close { caller, signal_id, exit_price });
        }
        if !self.authorizes(&caller) {
            return Err(OracleError::Unauthorized);
        }
        if signal_id >= self.signals.len() as u64 {
            return Err(OracleError::NotFound);
        }
        if self.signals[signal_id as usize].status != SignalStatus::Open {
            return Err(OracleError::SignalAlreadyClosed);
        }
        proof {
            lemma_close_is_owed(self@, caller, signal_id, exit_price);
        }
        let outcome = self.signals[signal_id as usize].settle(exit_price);
        let mut registry = self.registry.unwrap();
        registry.record_outcome(outcome);
        self.registry = Some(registry);
        let signal = &self.signals[signal_id as usize];
        assert(self@.signals =~= old(self)@.apply(
            Operation::Close { caller, signal_id, exit_price },
        ).signals);
        Ok(SignalClosed { id: signal.id, status: signal.status, roi_bps: signal.roi_bps })
    }
}

} // verus!
