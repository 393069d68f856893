//! What holds of the ledger whatever is asked of it.

use crate::counting::{lemma_count_push, lemma_count_update, lemma_decided_within_total};
use crate::error::OracleError;
use crate::model::{signal_consistent, LedgerView, Operation};
use crate::roi::{falls_a_point, gains_half, lemma_roi_follows_prices};
use crate::state::{Outcome, Signal, SignalStatus};
use anchor_lang::prelude::Pubkey;
use vstd::prelude::*;

verus! {

/// The identity in whose name `op` is asked for.
pub open spec fn caller_of(op: Operation) -> Pubkey {
    match op {
        Operation::Initialize { authority } => authority,
        Operation::Publish { caller, .. } => caller,
        Operation::UpdateAth { caller, .. } => caller,
        Operation::Close { caller, .. } => caller,
    }
}

/// Whether `op` closes a signal at the price 0 and is not refused.
pub open spec fn closes_at_zero(ledger: LedgerView, op: Operation) -> bool {
    op matches Operation::Close { exit_price, .. } && exit_price == 0 && ledger.refusal(op) is None
}

/// Whether none of `ops`, each at its turn, closes a signal at the price 0.
pub open spec fn never_closes_at_zero(ledger: LedgerView, ops: Seq<Operation>) -> bool
    decreases ops.len(),
{
    ops.len() == 0 || (never_closes_at_zero(ledger, ops.drop_last()) && !closes_at_zero(
        ledger.run(ops.drop_last()),
        ops.last(),
    ))
}

/// Whether the signals without an exit price are exactly the open ones.
pub open spec fn exit_price_marks_closed(ledger: LedgerView) -> bool {
    forall|i: int|
        0 <= i < ledger.signals.len() ==> ((#[trigger] ledger.signals[i]).exit_price == 0
            <==> ledger.signals[i].status == SignalStatus::Open)
}

/// The empty ledger is consistent.
pub proof fn lemma_empty_is_consistent()
    ensures
        LedgerView::empty().consistent(),
{
}

/// One operation keeps a consistent ledger consistent.
pub proof fn lemma_apply_keeps_consistent(ledger: LedgerView, op: Operation)
    requires
        ledger.consistent(),
    ensures
        ledger.apply(op).consistent(),
{
    let after = ledger.apply(op);
    if ledger.refusal(op) is None {
        match op {
            Operation::Initialize { .. } => {},
            Operation::Publish { .. } => {
                let signal = after.signals.last();
                lemma_count_push(ledger.signals, signal, SignalStatus::Win);
                lemma_count_push(ledger.signals, signal, SignalStatus::Loss);
                assert forall|i: int| 0 <= i < after.signals.len() implies signal_consistent(
                    #[trigger] after.signals[i],
                    i,
                ) by {
                    if i < ledger.signals.len() {
                        assert(after.signals[i] == ledger.signals[i]);
                    }
                }
            },
            Operation::UpdateAth { signal_id, .. } => {
                let signal = after.signals[signal_id as int];
                lemma_count_update(ledger.signals, signal_id as int, signal, SignalStatus::Win);
                lemma_count_update(ledger.signals, signal_id as int, signal, SignalStatus::Loss);
                assert forall|i: int| 0 <= i < after.signals.len() implies signal_consistent(
                    #[trigger] after.signals[i],
                    i,
                ) by {
                    if i != signal_id {
                        assert(after.signals[i] == ledger.signals[i]);
                    }
                }
            },
            Operation::Close { signal_id, .. } => {
                let signal = after.signals[signal_id as int];
                lemma_decided_within_total(ledger.signals);
                lemma_count_update(ledger.signals, signal_id as int, signal, SignalStatus::Win);
                lemma_count_update(ledger.signals, signal_id as int, signal, SignalStatus::Loss);
                assert forall|i: int| 0 <= i < after.signals.len() implies signal_consistent(
                    #[trigger] after.signals[i],
                    i,
                ) by {
                    if i != signal_id {
                        assert(after.signals[i] == ledger.signals[i]);
                    }
                }
            },
        }
    }
}

/// In a consistent ledger the counters always have room for a close: an
/// open signal that exists is closed whenever the authority asks, and the
/// close is a win exactly on a gain of half the entry price or more, a loss
/// exactly on a fall of a basis point or more.
pub proof fn lemma_close_is_owed(ledger: LedgerView, caller: Pubkey, signal_id: u64, exit_price: u64)
    requires
        ledger.consistent(),
        ledger.authorizes(caller),
        ledger.has_signal(signal_id),
        ledger.signals[signal_id as int].status == SignalStatus::Open,
    ensures
        ({
            let op = Operation::Close { caller, signal_id, exit_price };
            let entry_price = ledger.signals[signal_id as int].entry_price;
            let closed = ledger.apply(op).signals[signal_id as int];
            &&& ledger.refusal(op) is None
            &&& closed.status == SignalStatus::Win <==> gains_half(entry_price, exit_price)
            &&& closed.status == SignalStatus::Loss <==> falls_a_point(entry_price, exit_price)
            &&& closed.status == SignalStatus::Loss ==> exit_price < entry_price
            &&& ledger.apply(op).registry->0.total_wins == ledger.registry->0.total_wins + (
            if gains_half(entry_price, exit_price) {
                1int
            } else {
                0int
            })
            &&& ledger.apply(op).registry->0.total_losses == ledger.registry->0.total_losses + (
            if falls_a_point(entry_price, exit_price) {
                1int
            } else {
                0int
            })
        }),
{
    lemma_decided_within_total(ledger.signals);
    lemma_roi_follows_prices(ledger.signals[signal_id as int].entry_price, exit_price);
}

/// After any sequence of operations on a consistent ledger, the ledger is
/// consistent: wins and losses together are no more than the signals, and a
/// signal that is open has no exit price.
pub proof fn lemma_run_keeps_consistent(ledger: LedgerView, ops: Seq<Operation>)
    requires
        ledger.consistent(),
    ensures
        ledger.run(ops).consistent(),
        ledger.run(ops).registry matches Some(registry) ==> registry.total_wins
            + registry.total_losses <= registry.total_signals,
        forall|i: int|
            0 <= i < ledger.run(ops).signals.len() && (#[trigger] ledger.run(
                ops,
            ).signals[i]).status == SignalStatus::Open ==> ledger.run(ops).signals[i].exit_price
                == 0,
    decreases ops.len(),
{
    if ops.len() > 0 {
        lemma_run_keeps_consistent(ledger, ops.drop_last());
        lemma_apply_keeps_consistent(ledger.run(ops.drop_last()), ops.last());
    }
    lemma_decided_within_total(ledger.run(ops).signals);
}

/// After any sequence of operations of which none closes a signal at the
/// price 0, the signals without an exit price are exactly the open ones.
pub proof fn lemma_exit_price_marks_closed(ledger: LedgerView, ops: Seq<Operation>)
    requires
        ledger.consistent(),
        exit_price_marks_closed(ledger),
        never_closes_at_zero(ledger, ops),
    ensures
        exit_price_marks_closed(ledger.run(ops)),
    decreases ops.len(),
{
    if ops.len() > 0 {
        let before = ledger.run(ops.drop_last());
        let op = ops.last();
        let after = before.apply(op);
        lemma_exit_price_marks_closed(ledger, ops.drop_last());
        lemma_run_keeps_consistent(ledger, ops.drop_last());
        assert forall|i: int| 0 <= i < after.signals.len() implies ((
        #[trigger] after.signals[i]).exit_price == 0 <==> after.signals[i].status
            == SignalStatus::Open) by {
            if i < before.signals.len() {
                assert(before.signals[i].exit_price == 0 <==> before.signals[i].status
                    == SignalStatus::Open);
            }
        }
    }
}

/// A publish that is not refused gives the new signal the number of signals
/// so far as its identifier, and that number grows by exactly one.
pub proof fn lemma_publish_takes_next_id(ledger: LedgerView, op: Operation)
    requires
        ledger.consistent(),
        op is Publish,
        ledger.refusal(op) is None,
    ensures
        ledger.apply(op).signals.len() == ledger.signals.len() + 1,
        ledger.apply(op).signals.last().id == ledger.registry->0.total_signals,
        ledger.apply(op).signals.last().id == ledger.signals.len(),
        ledger.apply(op).registry->0.total_signals == ledger.registry->0.total_signals + 1,
        forall|i: int|
            0 <= i < ledger.signals.len() ==> ledger.apply(op).signals[i] == ledger.signals[i],
{
}

/// No operation takes a signal away or lowers a high-water mark: after any
/// sequence of operations a signal is still there, and its mark is at least
/// what it was.
pub proof fn lemma_ath_never_falls(ledger: LedgerView, signal_id: u64, ops: Seq<Operation>)
    requires
        ledger.has_signal(signal_id),
    ensures
        ledger.run(ops).has_signal(signal_id),
        ledger.run(ops).signals[signal_id as int].ath_price
            >= ledger.signals[signal_id as int].ath_price,
    decreases ops.len(),
{
    if ops.len() > 0 {
        lemma_ath_never_falls(ledger, signal_id, ops.drop_last());
    }
}

/// The signal after it has been told of the prices of `proposals`, one after
/// the other.
pub open spec fn after_updates(signal: Signal, proposals: Seq<u64>) -> Signal
    decreases proposals.len(),
{
    if proposals.len() == 0 {
        signal
    } else {
        after_updates(signal, proposals.drop_last()).with_ath(proposals.last())
    }
}

/// Whatever prices a signal is told of, and in whatever order, its
/// high-water mark ends as the highest of them and of what it was, and
/// nothing else of the signal changes.
pub proof fn lemma_mark_is_highest_seen(signal: Signal, proposals: Seq<u64>)
    ensures
        after_updates(signal, proposals) == (Signal {
            ath_price: after_updates(signal, proposals).ath_price,
            ..signal
        }),
        after_updates(signal, proposals).ath_price >= signal.ath_price,
        forall|i: int|
            0 <= i < proposals.len() ==> after_updates(signal, proposals).ath_price
                >= #[trigger] proposals[i],
        after_updates(signal, proposals).ath_price == signal.ath_price || exists|i: int|
            0 <= i < proposals.len() && after_updates(signal, proposals).ath_price
                == #[trigger] proposals[i],
    decreases proposals.len(),
{
    if proposals.len() > 0 {
        let before = after_updates(signal, proposals.drop_last());
        let after = after_updates(signal, proposals);
        lemma_mark_is_highest_seen(signal, proposals.drop_last());
        assert forall|i: int| 0 <= i < proposals.len() implies after.ath_price
            >= #[trigger] proposals[i] by {
            if i < proposals.len() - 1 {
                assert(proposals.drop_last()[i] == proposals[i]);
            }
        }
        if after.ath_price != signal.ath_price {
            if after.ath_price == proposals.last() {
                assert(after.ath_price == proposals[proposals.len() - 1]);
            } else {
                let i = choose|i: int|
                    0 <= i < proposals.drop_last().len() && before.ath_price
                        == #[trigger] proposals.drop_last()[i];
                assert(after.ath_price == proposals[i]);
            }
        }
    }
}

/// A high-water mark never falls: after any part of a sequence of prices
/// the mark is no higher than after the whole of it.
pub proof fn lemma_mark_never_falls(signal: Signal, proposals: Seq<u64>, seen: int)
    requires
        0 <= seen <= proposals.len(),
    ensures
        after_updates(signal, proposals.take(seen)).ath_price <= after_updates(
            signal,
            proposals,
        ).ath_price,
    decreases proposals.len(),
{
    if seen == proposals.len() {
        assert(proposals.take(seen) =~= proposals);
    } else {
        lemma_mark_never_falls(signal, proposals.drop_last(), seen);
        assert(proposals.drop_last().take(seen) =~= proposals.take(seen));
    }
}

/// A signal that has left the open state keeps its state, its exit price
/// and its return through any sequence of operations.
pub proof fn lemma_closed_is_frozen(ledger: LedgerView, signal_id: u64, ops: Seq<Operation>)
    requires
        ledger.has_signal(signal_id),
        ledger.signals[signal_id as int].status != SignalStatus::Open,
    ensures
        ledger.run(ops).has_signal(signal_id),
        ledger.run(ops).signals[signal_id as int].status
            == ledger.signals[signal_id as int].status,
        ledger.run(ops).signals[signal_id as int].exit_price
            == ledger.signals[signal_id as int].exit_price,
        ledger.run(ops).signals[signal_id as int].roi_bps
            == ledger.signals[signal_id as int].roi_bps,
    decreases ops.len(),
{
    if ops.len() > 0 {
        lemma_closed_is_frozen(ledger, signal_id, ops.drop_last());
    }
}

/// A signal is closed once. A close that is not refused leaves the signal
/// in a terminal state; whatever is asked for afterwards, a further close of
/// that signal is refused, with `SignalAlreadyClosed` where its caller is
/// the authority, and the signal keeps its state, its exit price and its
/// return.
pub proof fn lemma_close_only_once(
    ledger: LedgerView,
    caller: Pubkey,
    signal_id: u64,
    exit_price: u64,
    ops: Seq<Operation>,
    again_caller: Pubkey,
    again_price: u64,
)
    requires
        ledger.refusal(Operation::Close { caller, signal_id, exit_price }) is None,
    ensures
        ({
            let closed = ledger.apply(Operation::Close { caller, signal_id, exit_price });
            let later = closed.run(ops);
            let again = Operation::Close {
                caller: again_caller,
                signal_id,
                exit_price: again_price,
            };
            &&& closed.signals[signal_id as int].status != SignalStatus::Open
            &&& later.refusal(again) is Some
            &&& later.authorizes(again_caller) ==> later.refusal(again) == Some(
                OracleError::SignalAlreadyClosed,
            )
            &&& later.apply(again) == later
            &&& later.signals[signal_id as int].status == closed.signals[signal_id as int].status
            &&& later.signals[signal_id as int].exit_price
                == closed.signals[signal_id as int].exit_price
            &&& later.signals[signal_id as int].roi_bps
                == closed.signals[signal_id as int].roi_bps
        }),
{
    let closed = ledger.apply(Operation::Close { caller, signal_id, exit_price });
    lemma_closed_is_frozen(closed, signal_id, ops);
}

/// Only the authority writes: a publish, an update or a close in another
/// name is refused with `Unauthorized` and leaves the ledger as it was.
pub proof fn lemma_unauthorized_changes_nothing(ledger: LedgerView, op: Operation)
    requires
        !(op is Initialize),
        !ledger.authorizes(caller_of(op)),
    ensures
        ledger.refusal(op) == Some(OracleError::Unauthorized),
        ledger.apply(op) == ledger,
{
}

/// The registry is created once: on a ledger that has one, `Initialize` is
/// refused with `AlreadyInitialized`, and the authority stays who it was
/// through any sequence of operations.
pub proof fn lemma_authority_is_set_once(
    ledger: LedgerView,
    ops: Seq<Operation>,
    authority: Pubkey,
)
    requires
        ledger.registry is Some,
    ensures
        ledger.refusal(Operation::Initialize { authority }) == Some(
            OracleError::AlreadyInitialized,
        ),
        ledger.run(ops).registry is Some,
        ledger.run(ops).registry->0.authority == ledger.registry->0.authority,
    decreases ops.len(),
{
    if ops.len() > 0 {
        lemma_authority_is_set_once(ledger, ops.drop_last(), authority);
    }
}

/// A signal entered at the price 0 has no return: closed at any price, it
/// gets the return 0 and the state `Closed`, and counts neither as a win
/// nor as a loss.
pub proof fn lemma_zero_entry_is_neutral(signal: Signal, exit_price: u64)
    requires
        signal.entry_price == 0,
    ensures
        signal.settled(exit_price).roi_bps == 0,
        signal.settled(exit_price).status == SignalStatus::Closed,
        signal.outcome_at(exit_price) == Outcome::Neutral,
{
}

} // verus!
