//! Facts about how many signals are in a state.

use crate::model::count_status;
use crate::state::{Signal, SignalStatus};
use vstd::prelude::*;

verus! {

/// One for a signal in the state `status`, zero for another.
pub open spec fn one_if(signal: Signal, status: SignalStatus) -> nat {
    if signal.status == status {
        1
    } else {
        0
    }
}

/// A signal added at the end is counted once, under its own state.
pub proof fn lemma_count_push(signals: Seq<Signal>, signal: Signal, status: SignalStatus)
    ensures
        count_status(signals.push(signal), status) == count_status(signals, status) + one_if(
            signal,
            status,
        ),
{
    assert(signals.push(signal).drop_last() =~= signals);
}

/// A signal that is replaced leaves the count of its old state and enters
/// that of its new one.
pub proof fn lemma_count_update(
    signals: Seq<Signal>,
    index: int,
    signal: Signal,
    status: SignalStatus,
)
    requires
        0 <= index < signals.len(),
    ensures
        count_status(signals.update(index, signal), status) + one_if(signals[index], status)
            == count_status(signals, status) + one_if(signal, status),
    decreases signals.len(),
{
    let updated = signals.update(index, signal);
    if index == signals.len() - 1 {
        assert(updated.drop_last() =~= signals.drop_last());
    } else {
        lemma_count_update(signals.drop_last(), index, signal, status);
        assert(updated.drop_last() =~= signals.drop_last().update(index, signal));
    }
}

/// Every signal is in exactly one of the four states.
pub proof fn lemma_counts_add_up(signals: Seq<Signal>)
    ensures
        count_status(signals, SignalStatus::Open) + count_status(signals, SignalStatus::Win)
            + count_status(signals, SignalStatus::Loss) + count_status(
            signals,
            SignalStatus::Closed,
        ) == signals.len(),
    decreases signals.len(),
{
    if signals.len() > 0 {
        lemma_counts_add_up(signals.drop_last());
    }
}

/// A signal that is in a state is counted under it.
pub proof fn lemma_count_at_least_one(signals: Seq<Signal>, index: int, status: SignalStatus)
    requires
        0 <= index < signals.len(),
        signals[index].status == status,
    ensures
        count_status(signals, status) >= 1,
    decreases signals.len(),
{
    if index < signals.len() - 1 {
        lemma_count_at_least_one(signals.drop_last(), index, status);
    }
}

/// Wins and losses together are never more than the signals, and fewer
/// while a signal is open.
pub proof fn lemma_decided_within_total(signals: Seq<Signal>)
    ensures
        count_status(signals, SignalStatus::Win) + count_status(signals, SignalStatus::Loss)
            <= signals.len(),
        forall|i: int|
            0 <= i < signals.len() && (#[trigger] signals[i]).status == SignalStatus::Open
                ==> count_status(signals, SignalStatus::Win) + count_status(
                signals,
                SignalStatus::Loss,
            ) < signals.len(),
{
    lemma_counts_add_up(signals);
    assert forall|i: int|
        0 <= i < signals.len() && (#[trigger] signals[i]).status == SignalStatus::Open implies count_status(
        signals,
        SignalStatus::Win,
    ) + count_status(signals, SignalStatus::Loss) < signals.len() by {
        lemma_count_at_least_one(signals, i, SignalStatus::Open);
    }
}

} // verus!
