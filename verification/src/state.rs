//! The records that are kept: the registry and the signals.

use crate::identity::same_key;
use crate::roi::{compute_roi_bps, falls_a_point, gains_half, roi_bps_of, WIN_THRESHOLD_BPS};
use anchor_lang::prelude::Pubkey;
use vstd::prelude::*;
use vstd::utf8::encode_utf8;

verus! {

/// The longest symbol that a signal may carry, in bytes.
pub const MAX_SYMBOL_LEN: usize = 10;

/// The highest score that a signal may carry.
pub const MAX_SCORE: u8 = 100;

/// Where a signal stands: `Open` from its creation, then one of the three
/// terminal states for ever.
#[derive(Clone, Copy, Debug, PartialEq, Eq, Structural)]
pub enum SignalStatus {
    Open,
    Win,
    Loss,
    Closed,
}

/// What closing a signal means for the aggregate counters.
#[derive(Clone, Copy, Debug, PartialEq, Eq, Structural)]
pub enum Outcome {
    Win,
    Loss,
    Neutral,
}

/// The outcome that a recorded return decides: a win from
/// `WIN_THRESHOLD_BPS` on, a loss below zero, neutral in between.
pub open spec fn outcome_of(roi_bps: i64) -> Outcome {
    if roi_bps >= WIN_THRESHOLD_BPS {
        Outcome::Win
    } else if roi_bps < 0 {
        Outcome::Loss
    } else {
        Outcome::Neutral
    }
}

/// The terminal state that goes with an outcome.
pub open spec fn status_of(outcome: Outcome) -> SignalStatus {
    match outcome {
        Outcome::Win => SignalStatus::Win,
        Outcome::Loss => SignalStatus::Loss,
        Outcome::Neutral => SignalStatus::Closed,
    }
}

/// Decides the outcome of a recorded return.
pub fn classify(roi_bps: i64) -> (outcome: Outcome)
    ensures
        outcome == outcome_of(roi_bps),
{
    if roi_bps >= WIN_THRESHOLD_BPS {
        Outcome::Win
    } else if roi_bps < 0 {
        Outcome::Loss
    } else {
        Outcome::Neutral
    }
}

impl Outcome {
    /// The terminal state that goes with the outcome.
    pub fn status(self) -> (status: SignalStatus)
        ensures
            status == status_of(self),
    {
        match self {
            Outcome::Win => SignalStatus::Win,
            Outcome::Loss => SignalStatus::Loss,
            Outcome::Neutral => SignalStatus::Closed,
        }
    }
}

/// The registry: who may write, and the aggregate counters.
#[derive(Clone, Copy, Debug)]
pub struct OracleState {
    pub authority: Pubkey,
    pub total_signals: u64,
    pub total_wins: u64,
    pub total_losses: u64,
}

impl OracleState {
    /// The counters after `outcome` has been recorded.
    pub open spec fn recorded(self, outcome: Outcome) -> OracleState {
        match outcome {
            Outcome::Win => OracleState { total_wins: (self.total_wins + 1) as u64, ..self },
            Outcome::Loss => OracleState { total_losses: (self.total_losses + 1) as u64, ..self },
            Outcome::Neutral => self,
        }
    }

    /// The registry after one more identifier has been given out.
    pub open spec fn advanced(self) -> OracleState {
        OracleState { total_signals: (self.total_signals + 1) as u64, ..self }
    }

    /// Whether the counter that `outcome` would raise is at its highest
    /// value already.
    pub open spec fn full_for(self, outcome: Outcome) -> bool {
        match outcome {
            Outcome::Win => self.total_wins == u64::MAX,
            Outcome::Loss => self.total_losses == u64::MAX,
            Outcome::Neutral => false,
        }
    }

    /// Whether no further identifier can be given out.
    pub open spec fn exhausted(self) -> bool {
        self.total_signals == u64::MAX
    }

    /// Whether the counter that `outcome` would raise is full.
    pub fn is_full_for(&self, outcome: Outcome) -> (full: bool)
        ensures
            full == self.full_for(outcome),
    {
        match outcome {
            Outcome::Win => self.total_wins == u64::MAX,
            Outcome::Loss => self.total_losses == u64::MAX,
            Outcome::Neutral => false,
        }
    }

    /// Whether the identifier counter is full.
    pub fn is_exhausted(&self) -> (full: bool)
        ensures
            full == self.exhausted(),
    {
        self.total_signals == u64::MAX
    }

    /// A registry with the given authority and all counters at zero.
    pub(crate) fn new(authority: Pubkey) -> (state: OracleState)
        ensures
            state == (OracleState { authority, total_signals: 0, total_wins: 0, total_losses: 0 }),
    {
        OracleState { authority, total_signals: 0, total_wins: 0, total_losses: 0 }
    }

    /// Whether `caller` is the authority.
    pub fn is_authority(&self, caller: &Pubkey) -> (ok: bool)
        ensures
            ok == (self.authority == *caller),
    {
        same_key(&self.authority, caller)
    }

    /// Gives out the next identifier: the number of signals so far, which
    /// then grows by one.
    pub(crate) fn next_signal_id(&mut self) -> (id: u64)
        requires
            !old(self).exhausted(),
        ensures
            id == old(self).total_signals,
            *final(self) == old(self).advanced(),
            final(self).total_signals == old(self).total_signals + 1,
    {
        let id = self.total_signals;
        self.total_signals = self.total_signals + 1;
        id
    }

    /// Counts a signal's outcome: a win or a loss adds one to its counter, a
    /// neutral outcome adds nothing.
    pub(crate) fn record_outcome(&mut self, outcome: Outcome)
        requires
            !old(self).full_for(outcome),
        ensures
            *final(self) == old(self).recorded(outcome),
    {
        match outcome {
            Outcome::Win => {
                self.total_wins = self.total_wins + 1;
            },
            Outcome::Loss => {
                self.total_losses = self.total_losses + 1;
            },
            Outcome::Neutral => {},
        }
    }
}

/// One published prediction.
#[derive(Debug)]
pub struct Signal {
    pub id: u64,
    pub token: Pubkey,
    pub symbol: String,
    pub score: u8,
    pub risk_level: u8,
    pub sources_bitmap: u8,
    pub mcap_at_signal: u64,
    pub entry_price: u64,
    pub ath_price: u64,
    pub exit_price: u64,
    pub roi_bps: i64,
    pub timestamp: i64,
    pub status: SignalStatus,
}

impl Signal {
    /// The length of the symbol in bytes.
    pub open spec fn symbol_len(self) -> nat {
        encode_utf8(self.symbol@).len()
    }

    /// The signal as it is published: open, its high-water mark at the entry
    /// price, no exit price and no return yet.
    pub open spec fn opened(
        id: u64,
        token: Pubkey,
        symbol: String,
        score: u8,
        risk_level: u8,
        sources_bitmap: u8,
        mcap: u64,
        entry_price: u64,
        timestamp: i64,
    ) -> Signal {
        Signal {
            id,
            token,
            symbol,
            score,
            risk_level,
            sources_bitmap,
            mcap_at_signal: mcap,
            entry_price,
            ath_price: entry_price,
            exit_price: 0,
            roi_bps: 0,
            timestamp,
            status: SignalStatus::Open,
        }
    }

    /// Makes the signal as it is published.
    pub(crate) fn open(
        id: u64,
        token: Pubkey,
        symbol: String,
        score: u8,
        risk_level: u8,
        sources_bitmap: u8,
        mcap: u64,
        entry_price: u64,
        timestamp: i64,
    ) -> (signal: Signal)
        ensures
            signal == Signal::opened(
                id,
                token,
                symbol,
                score,
                risk_level,
                sources_bitmap,
                mcap,
                entry_price,
                timestamp,
            ),
    {
        Signal {
            id,
            token,
            symbol,
            score,
            risk_level,
            sources_bitmap,
            mcap_at_signal: mcap,
            entry_price,
            ath_price: entry_price,
            exit_price: 0,
            roi_bps: 0,
            timestamp,
            status: SignalStatus::Open,
        }
    }

    /// The signal after a price of `new_ath` has been seen: its high-water
    /// mark is the larger of the two.
    pub open spec fn with_ath(self, new_ath: u64) -> Signal {
        if new_ath > self.ath_price {
            Signal { ath_price: new_ath, ..self }
        } else {
            self
        }
    }

    /// The outcome of closing the signal at `exit_price`: what the return
    /// from its entry price decides.
    pub open spec fn outcome_at(self, exit_price: u64) -> Outcome {
        outcome_of(roi_bps_of(self.entry_price, exit_price))
    }

    /// The signal after it has been closed at `exit_price`: it carries the
    /// price, the return from its entry price, and the terminal state of its
    /// outcome.
    pub open spec fn settled(self, exit_price: u64) -> Signal {
        Signal {
            exit_price,
            roi_bps: roi_bps_of(self.entry_price, exit_price),
            status: status_of(self.outcome_at(exit_price)),
            ..self
        }
    }

    /// The outcome that closing the signal at `exit_price` would have.
    pub fn outcome_for(&self, exit_price: u64) -> (outcome: Outcome)
        ensures
            outcome == self.outcome_at(exit_price),
            outcome == Outcome::Win <==> gains_half(self.entry_price, exit_price),
            outcome == Outcome::Loss <==> falls_a_point(self.entry_price, exit_price),
    {
        classify(compute_roi_bps(self.entry_price, exit_price))
    }

    /// Raises the high-water mark to `new_ath` if that is higher; the mark
    /// never falls.
    pub(crate) fn raise_ath(&mut self, new_ath: u64)
        ensures
            *final(self) == old(self).with_ath(new_ath),
            final(self).ath_price >= old(self).ath_price,
            final(self).ath_price >= new_ath,
            final(self).ath_price == old(self).ath_price || final(self).ath_price == new_ath,
    {
        if new_ath > self.ath_price {
            self.ath_price = new_ath;
        }
    }

    /// Closes the signal at `exit_price`: records the price and the return,
    /// and moves to the terminal state that the return decides.
    pub(crate) fn settle(&mut self, exit_price: u64) -> (outcome: Outcome)
        ensures
            *final(self) == old(self).settled(exit_price),
            outcome == old(self).outcome_at(exit_price),
            final(self).status != SignalStatus::Open,
            final(self).status == SignalStatus::Win <==> gains_half(
                old(self).entry_price,
                exit_price,
            ),
            final(self).status == SignalStatus::Loss <==> falls_a_point(
                old(self).entry_price,
                exit_price,
            ),
    {
        self.exit_price = exit_price;
        self.roi_bps = compute_roi_bps(self.entry_price, exit_price);
        let outcome = classify(self.roi_bps);
        self.status = outcome.status();
        outcome
    }
}

} // verus!
