use anchor_lang::prelude::Pubkey;
use oracle::error::OracleError;
use oracle::ledger::Ledger;
use oracle::state::SignalStatus;

fn key(byte: u8) -> Pubkey {
    Pubkey::new_from_array([byte; 32])
}

fn ledger_with(entries: &[u64]) -> Ledger {
    let mut ledger = Ledger::new();
    ledger.initialize(key(1)).unwrap();
    for entry_price in entries {
        ledger.publish(key(1), 1_700_000_000, key(9), String::from("BONK"), 80, 1, 3, 777, *entry_price)
            .unwrap();
    }
    ledger
}

fn check_invariant(ledger: &Ledger) {
    let registry = ledger.registry().unwrap();
    assert_eq!(registry.total_signals, ledger.len() as u64);
    assert!(registry.total_wins + registry.total_losses <= registry.total_signals);
    let mut wins = 0;
    let mut losses = 0;
    for id in 0..registry.total_signals {
        let signal = ledger.signal(id).unwrap();
        assert_eq!(signal.id, id);
        match signal.status {
            SignalStatus::Open => {
                assert_eq!(signal.exit_price, 0);
                assert_eq!(signal.roi_bps, 0);
            },
            SignalStatus::Win => wins += 1,
            SignalStatus::Loss => losses += 1,
            SignalStatus::Closed => {},
        }
        assert!(signal.ath_price >= signal.entry_price);
    }
    assert_eq!(registry.total_wins, wins);
    assert_eq!(registry.total_losses, losses);
}

#[test]
fn a_new_ledger_is_empty() {
    let ledger = Ledger::new();
    assert!(ledger.registry().is_none());
    assert_eq!(ledger.len(), 0);
    assert!(ledger.signal(0).is_none());
}

#[test]
fn ledger_is_initialized_once() {
    let mut ledger = Ledger::new();
    assert_eq!(ledger.initialize(key(1)), Ok(()));
    let registry = ledger.registry().unwrap();
    assert_eq!(registry.authority, key(1));
    assert_eq!((registry.total_signals, registry.total_wins, registry.total_losses), (0, 0, 0));
    assert_eq!(ledger.initialize(key(2)), Err(OracleError::AlreadyInitialized));
    assert_eq!(ledger.initialize(key(1)), Err(OracleError::AlreadyInitialized));
    assert_eq!(ledger.registry().unwrap().authority, key(1));
}

#[test]
fn nobody_writes_before_the_registry_exists() {
    let mut ledger = Ledger::new();
    let refused = ledger.publish(key(1), 5, key(9), String::from("BONK"), 80, 1, 3, 777, 1000);
    assert_eq!(refused.unwrap_err(), OracleError::Unauthorized);
    assert_eq!(ledger.update_ath(key(1), 0, 5), Err(OracleError::Unauthorized));
    assert_eq!(ledger.close(key(1), 0, 5).unwrap_err(), OracleError::Unauthorized);
    assert_eq!(ledger.len(), 0);
    assert!(ledger.registry().is_none());
}

#[test]
fn ledger_publishes_with_dense_ids() {
    let mut ledger = Ledger::new();
    ledger.initialize(key(1)).unwrap();
    for expected in 0..5u64 {
        let before = ledger.registry().unwrap().total_signals;
        let event = ledger
            .publish(key(1), 100 + expected as i64, key(9), String::from("WIF"), 55, 1, 3, 777, 10 + expected)
            .unwrap();
        assert_eq!(event.id, before);
        assert_eq!(event.id, expected);
        assert_eq!(event.token, key(9));
        assert_eq!(event.score, 55);
        assert_eq!(event.timestamp, 100 + expected as i64);
        assert_eq!(ledger.registry().unwrap().total_signals, before + 1);
        let signal = ledger.signal(expected).unwrap();
        assert_eq!(signal.id, expected);
        assert_eq!(signal.symbol, "WIF");
        assert_eq!(signal.entry_price, 10 + expected);
        assert_eq!(signal.ath_price, 10 + expected);
        assert_eq!(signal.timestamp, 100 + expected as i64);
        assert_eq!(signal.status, SignalStatus::Open);
    }
    assert_eq!(ledger.len(), 5);
    assert!(ledger.signal(5).is_none());
    check_invariant(&ledger);
}

#[test]
fn ledger_refuses_bad_input_and_keeps_its_count() {
    let mut ledger = ledger_with(&[1000]);
    let refused = ledger.publish(key(1), 5, key(9), String::from("ELEVENCHARS"), 80, 1, 3, 777, 1000);
    assert_eq!(refused.unwrap_err(), OracleError::SymbolTooLong);
    let refused = ledger.publish(key(1), 5, key(9), String::from("BONK"), 101, 1, 3, 777, 1000);
    assert_eq!(refused.unwrap_err(), OracleError::InvalidScore);
    let refused = ledger.publish(key(2), 5, key(9), String::from("BONK"), 80, 1, 3, 777, 1000);
    assert_eq!(refused.unwrap_err(), OracleError::Unauthorized);
    assert_eq!(ledger.len(), 1);
    assert_eq!(ledger.registry().unwrap().total_signals, 1);
    check_invariant(&ledger);
}

#[test]
fn ledger_reports_a_missing_signal() {
    let mut ledger = ledger_with(&[1000, 2000]);
    assert_eq!(ledger.update_ath(key(1), 2, 5), Err(OracleError::NotFound));
    assert_eq!(ledger.close(key(1), 2, 5).unwrap_err(), OracleError::NotFound);
    assert_eq!(ledger.close(key(1), u64::MAX, 5).unwrap_err(), OracleError::NotFound);
    assert_eq!(ledger.update_ath(key(2), 2, 5), Err(OracleError::Unauthorized));
    check_invariant(&ledger);
}

#[test]
fn ledger_tracks_the_high_water_mark() {
    let mut ledger = ledger_with(&[1000, 2000]);
    let mut last = 2000;
    for proposed in [1500u64, 2500, 2400, 2500, 9000, 1, 9001] {
        assert_eq!(ledger.update_ath(key(1), 1, proposed), Ok(()));
        let ath = ledger.signal(1).unwrap().ath_price;
        assert!(ath >= last);
        assert_eq!(ath, last.max(proposed));
        last = ath;
    }
    assert_eq!(ledger.signal(1).unwrap().ath_price, 9001);
    assert_eq!(ledger.signal(0).unwrap().ath_price, 1000);
    check_invariant(&ledger);
}

#[test]
fn ledger_closes_and_counts() {
    let mut ledger = ledger_with(&[1000, 1000, 1000, 0]);
    let event = ledger.close(key(1), 0, 1500).unwrap();
    assert_eq!((event.id, event.status, event.roi_bps), (0, SignalStatus::Win, 5000));
    let registry = ledger.registry().unwrap();
    assert_eq!((registry.total_wins, registry.total_losses), (1, 0));
    let event = ledger.close(key(1), 1, 1499).unwrap();
    assert_eq!((event.id, event.status, event.roi_bps), (1, SignalStatus::Closed, 4990));
    let registry = ledger.registry().unwrap();
    assert_eq!((registry.total_wins, registry.total_losses), (1, 0));
    let event = ledger.close(key(1), 2, 999).unwrap();
    assert_eq!((event.id, event.status, event.roi_bps), (2, SignalStatus::Loss, -10));
    let registry = ledger.registry().unwrap();
    assert_eq!((registry.total_wins, registry.total_losses), (1, 1));
    let event = ledger.close(key(1), 3, 12345).unwrap();
    assert_eq!((event.id, event.status, event.roi_bps), (3, SignalStatus::Closed, 0));
    let registry = ledger.registry().unwrap();
    assert_eq!((registry.total_wins, registry.total_losses, registry.total_signals), (1, 1, 4));
    assert_eq!(ledger.signal(0).unwrap().exit_price, 1500);
    assert_eq!(ledger.signal(3).unwrap().exit_price, 12345);
    check_invariant(&ledger);
}

#[test]
fn ledger_closes_a_signal_once() {
    let mut ledger = ledger_with(&[1000, 1000]);
    ledger.close(key(1), 0, 999).unwrap();
    ledger.update_ath(key(1), 0, 4000).unwrap();
    ledger.publish(key(1), 7, key(9), String::from("NEW"), 1, 1, 1, 1, 1).unwrap();
    ledger.close(key(1), 1, 2000).unwrap();
    for exit_price in [0u64, 999, 1500, u64::MAX] {
        assert_eq!(ledger.close(key(1), 0, exit_price).unwrap_err(), OracleError::SignalAlreadyClosed);
        assert_eq!(ledger.close(key(2), 0, exit_price).unwrap_err(), OracleError::Unauthorized);
        let signal = ledger.signal(0).unwrap();
        assert_eq!(signal.exit_price, 999);
        assert_eq!(signal.roi_bps, -10);
        assert_eq!(signal.status, SignalStatus::Loss);
        let registry = ledger.registry().unwrap();
        assert_eq!((registry.total_wins, registry.total_losses), (1, 1));
    }
    check_invariant(&ledger);
}

#[test]
fn a_stranger_changes_nothing() {
    let mut ledger = ledger_with(&[1000]);
    let refused = ledger.publish(key(2), 5, key(9), String::from("BONK"), 80, 1, 3, 777, 1000);
    assert_eq!(refused.unwrap_err(), OracleError::Unauthorized);
    assert_eq!(ledger.update_ath(key(2), 0, 5000), Err(OracleError::Unauthorized));
    assert_eq!(ledger.close(key(2), 0, 5000).unwrap_err(), OracleError::Unauthorized);
    assert_eq!(ledger.len(), 1);
    let registry = ledger.registry().unwrap();
    assert_eq!((registry.total_signals, registry.total_wins, registry.total_losses), (1, 0, 0));
    let signal = ledger.signal(0).unwrap();
    assert_eq!(signal.ath_price, 1000);
    assert_eq!(signal.exit_price, 0);
    assert_eq!(signal.roi_bps, 0);
    assert_eq!(signal.status, SignalStatus::Open);
}

#[test]
fn the_invariant_holds_along_a_mixed_run() {
    let mut ledger = Ledger::new();
    ledger.initialize(key(1)).unwrap();
    check_invariant(&ledger);
    for round in 0..40u64 {
        let caller = if round % 7 == 3 { key(2) } else { key(1) };
        let _ = ledger.publish(caller, round as i64, key(9), String::from("SYM"), (round * 3) as u8, 1, 3, 777, round * 10);
        check_invariant(&ledger);
        let _ = ledger.update_ath(caller, round / 2, round * 25);
        check_invariant(&ledger);
        let _ = ledger.close(caller, round / 3, round * 14 + 1);
        check_invariant(&ledger);
        let _ = ledger.close(key(1), round, round * 5);
        check_invariant(&ledger);
    }
    let registry = ledger.registry().unwrap();
    assert!(registry.total_signals > 0);
    assert!(registry.total_wins > 0);
    assert!(registry.total_losses > 0);
}

#[test]
fn exit_price_marks_the_closed_when_no_close_is_at_zero() {
    let mut ledger = ledger_with(&[1000, 500, 0, 40]);
    ledger.close(key(1), 0, 1).unwrap();
    ledger.close(key(1), 2, 77).unwrap();
    let _ = ledger.close(key(2), 1, 0);
    let _ = ledger.close(key(1), 9, 0);
    let _ = ledger.close(key(1), 0, 0);
    for id in 0..4u64 {
        let signal = ledger.signal(id).unwrap();
        assert_eq!(signal.exit_price == 0, signal.status == SignalStatus::Open);
    }
}

#[test]
fn a_close_at_zero_leaves_no_exit_price() {
    let mut ledger = ledger_with(&[1000]);
    let event = ledger.close(key(1), 0, 0).unwrap();
    assert_eq!((event.status, event.roi_bps), (SignalStatus::Loss, -10000));
    let signal = ledger.signal(0).unwrap();
    assert_eq!(signal.exit_price, 0);
    assert_eq!(signal.status, SignalStatus::Loss);
    check_invariant(&ledger);
}

#[test]
fn ledger_books_a_huge_gain_as_a_win() {
    let mut ledger = ledger_with(&[1, 2000]);
    let event = ledger.close(key(1), 0, u64::MAX).unwrap();
    assert_eq!((event.id, event.status, event.roi_bps), (0, SignalStatus::Win, i64::MAX));
    let event = ledger.close(key(1), 1, u64::MAX).unwrap();
    assert_eq!((event.id, event.status, event.roi_bps), (1, SignalStatus::Win, i64::MAX));
    let registry = ledger.registry().unwrap();
    assert_eq!((registry.total_wins, registry.total_losses), (2, 0));
    check_invariant(&ledger);
}
