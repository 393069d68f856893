//! The four write operations, each on the accounts that it is handed. Every
//! one of them checks before it writes: a refused call changes nothing.

use crate::accounts::{Initialize, PublishSignal, UpdateSignal};
use crate::error::OracleError;
use crate::events::{SignalClosed, SignalPublished};
use crate::roi::{falls_a_point, gains_half};
use crate::state::{OracleState, Signal, SignalStatus, MAX_SCORE, MAX_SYMBOL_LEN};
use anchor_lang::prelude::Pubkey;
use vstd::prelude::*;
use vstd::utf8::encode_utf8;

verus! {

/// Why a signal with this symbol and score is refused, if it is: the symbol
/// is looked at first.
pub open spec fn input_error(symbol: Seq<char>, score: u8) -> Option<OracleError> {
    if encode_utf8(symbol).len() > MAX_SYMBOL_LEN {
        Some(OracleError::SymbolTooLong)
    } else if score > MAX_SCORE {
        Some(OracleError::InvalidScore)
    } else {
        None
    }
}

/// Why a publish on these accounts is refused, if it is: the caller is
/// looked at before the input, and the input before the identifier counter.
pub open spec fn publish_error(ctx: PublishSignal, symbol: Seq<char>, score: u8) -> Option<
    OracleError,
> {
    if !ctx.authorized() {
        Some(OracleError::Unauthorized)
    } else if input_error(symbol, score) is Some {
        input_error(symbol, score)
    } else if ctx.oracle_state.exhausted() {
        Some(OracleError::CounterFull)
    } else {
        None
    }
}

/// Why a close on these accounts at `exit_price` is refused, if it is: the
/// caller is looked at first, then the signal's state, then the counter
/// that the outcome would raise.
pub open spec fn close_error(ctx: UpdateSignal, exit_price: u64) -> Option<OracleError> {
    if !ctx.authorized() {
        Some(OracleError::Unauthorized)
    } else if ctx.signal.status != SignalStatus::Open {
        Some(OracleError::SignalAlreadyClosed)
    } else if ctx.oracle_state.full_for(ctx.signal.outcome_at(exit_price)) {
        Some(OracleError::CounterFull)
    } else {
        None
    }
}

/// Checks what a publish is given: the symbol's length in bytes, then the
/// score.
pub fn check_input(symbol: &str, score: u8) -> (checked: Result<(), OracleError>)
    ensures
        checked == (match input_error(symbol@, score) {
            Some(e) => Err::<(), OracleError>(e),
            None => Ok(()),
        }),
{
    if symbol.as_bytes().len() > MAX_SYMBOL_LEN {
        Err(OracleError::SymbolTooLong)
    } else if score > MAX_SCORE {
        Err(OracleError::InvalidScore)
    } else {
        Ok(())
    }
}

/// Creates the registry, with the caller as its authority and all counters
/// at zero. Refused with `AlreadyInitialized` where the registry exists.
pub fn initialize(ctx: &mut Initialize) -> (done: Result<(), OracleError>)
    ensures
        done is Ok <==> old(ctx).oracle_state is None,
        done is Err ==> done == Err::<(), OracleError>(OracleError::AlreadyInitialized) && *final(ctx) == *old(ctx),
        done is Ok ==> *final(ctx) == (Initialize {
            oracle_state: Some(
                OracleState {
                    authority: old(ctx).authority,
                    total_signals: 0,
                    total_wins: 0,
                    total_losses: 0,
                },
            ),
            authority: old(ctx).authority,
        }),
{
    if ctx.oracle_state.is_some() {
        return Err(OracleError::AlreadyInitialized);
    }
    ctx.oracle_state = Some(OracleState::new(ctx.authority));
    Ok(())
}

/// Publishes a new signal: gives it the next identifier and writes it, open,
/// into the signal slot. Refused with `Unauthorized`, `SymbolTooLong`,
/// `InvalidScore` or, where no identifier is left, `CounterFull`, in this
/// order of precedence.
pub fn publish_signal(
    ctx: &mut PublishSignal,
    token: Pubkey,
    symbol: String,
    score: u8,
    risk_level: u8,
    sources_bitmap: u8,
    mcap: u64,
    entry_price: u64,
) -> (published: Result<SignalPublished, OracleError>)
    ensures
        old(ctx).oracle_state.total_wins + old(ctx).oracle_state.total_losses
            <= old(ctx).oracle_state.total_signals ==> final(ctx).oracle_state.total_wins
            + final(ctx).oracle_state.total_losses <= final(ctx).oracle_state.total_signals,
        match published {
            Ok(event) => {
                &&& publish_error(*old(ctx), symbol@, score) is None
                &&& event.id == old(ctx).oracle_state.total_signals
                &&& final(ctx).oracle_state.total_signals == old(ctx).oracle_state.total_signals
                    + 1
                &&& event == (SignalPublished {
                    id: old(ctx).oracle_state.total_signals,
                    token,
                    score,
                    timestamp: old(ctx).unix_timestamp,
                })
                &&& *final(ctx) == (PublishSignal {
                    oracle_state: old(ctx).oracle_state.advanced(),
                    signal: Some(
                        Signal::opened(
                            old(ctx).oracle_state.total_signals,
                            token,
                            symbol,
                            score,
                            risk_level,
                            sources_bitmap,
                            mcap,
                            entry_price,
                            old(ctx).unix_timestamp,
                        ),
                    ),
                    ..*old(ctx)
                })
            },
            Err(e) => publish_error(*old(ctx), symbol@, score) == Some(e) && *final(ctx) == *old(ctx),
        },
{
    if !ctx.oracle_state.is_authority(&ctx.authority) {
        return Err(OracleError::Unauthorized);
    }
    match check_input(symbol.as_str(), score) {
        Err(e) => {
            return Err(e);
        },
        Ok(()) => {},
    }
    if ctx.oracle_state.is_exhausted() {
        return Err(OracleError::CounterFull);
    }
    let id = ctx.oracle_state.next_signal_id();
    let timestamp = ctx.unix_timestamp;
    ctx.signal = Some(
        Signal::open(
            id,
            token,
            symbol,
            score,
            risk_level,
            sources_bitmap,
            mcap,
            entry_price,
            timestamp,
        ),
    );
    Ok(SignalPublished { id, token, score, timestamp })
}

/// Tells the signal of a price: its high-water mark rises to `new_ath` if
/// that is higher, and never falls. The signal's state is not looked at.
/// Refused with `Unauthorized`.
pub fn update_ath(ctx: &mut UpdateSignal, new_ath: u64) -> (done: Result<(), OracleError>)
    ensures
        done is Ok <==> old(ctx).authorized(),
        done is Err ==> done == Err::<(), OracleError>(OracleError::Unauthorized) && *final(ctx)
            == *old(ctx),
        final(ctx).signal.ath_price >= old(ctx).signal.ath_price,
        done is Ok ==> *final(ctx) == (UpdateSignal {
            signal: old(ctx).signal.with_ath(new_ath),
            ..*old(ctx)
        }),
{
    if !ctx.oracle_state.is_authority(&ctx.authority) {
        return Err(OracleError::Unauthorized);
    }
    ctx.signal.raise_ath(new_ath);
    Ok(())
}

/// Closes an open signal at `exit_price`: records the price and the return,
/// moves the signal to the terminal state that the return decides, and
/// counts a win or a loss. A gain of half the entry price or more is a win,
/// a fall of a basis point or more a loss, however large the return.
/// Refused with `Unauthorized`, with `SignalAlreadyClosed` where the signal
/// is not open, or with `CounterFull` where the counter to raise is full.
pub fn close_signal(ctx: &mut UpdateSignal, exit_price: u64) -> (closed: Result<
    SignalClosed,
    OracleError,
>)
    ensures
        match closed {
            Ok(event) => {
                &&& close_error(*old(ctx), exit_price) is None
                &&& *final(ctx) == (UpdateSignal {
                    oracle_state: old(ctx).oracle_state.recorded(
                        old(ctx).signal.outcome_at(exit_price),
                    ),
                    signal: old(ctx).signal.settled(exit_price),
                    ..*old(ctx)
                })
                &&& event == (SignalClosed {
                    id: old(ctx).signal.id,
                    status: final(ctx).signal.status,
                    roi_bps: final(ctx).signal.roi_bps,
                })
                &&& final(ctx).signal.status != SignalStatus::Open
                &&& final(ctx).signal.status == SignalStatus::Win <==> gains_half(
                    old(ctx).signal.entry_price,
                    exit_price,
                )
                &&& final(ctx).signal.status == SignalStatus::Loss <==> falls_a_point(
                    old(ctx).signal.entry_price,
                    exit_price,
                )
                &&& final(ctx).oracle_state.total_wins == old(ctx).oracle_state.total_wins + (
                if gains_half(old(ctx).signal.entry_price, exit_price) {
                    1int
                } else {
                    0int
                })
                &&& final(ctx).oracle_state.total_losses == old(ctx).oracle_state.total_losses
                    + (if falls_a_point(old(ctx).signal.entry_price, exit_price) {
                    1int
                } else {
                    0int
                })
            },
            Err(e) => close_error(*old(ctx), exit_price) == Some(e) && *final(ctx) == *old(ctx),
        },
{
    if !ctx.oracle_state.is_authority(&ctx.authority) {
        return Err(OracleError::Unauthorized);
    }
    if ctx.signal.status != SignalStatus::Open {
        return Err(OracleError::SignalAlreadyClosed);
    }
    if ctx.oracle_state.is_full_for(ctx.signal.outcome_for(exit_price)) {
        return Err(OracleError::CounterFull);
    }
    let outcome = ctx.signal.settle(exit_price);
    ctx.oracle_state.record_outcome(outcome);
    Ok(SignalClosed { id: ctx.signal.id, status: ctx.signal.status, roi_bps: ctx.signal.roi_bps })
}

} // verus!
