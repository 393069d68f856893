use oracle::error::OracleError;
use oracle::roi::{compute_roi_bps, BPS_SCALE, WIN_THRESHOLD_BPS};
use oracle::state::{classify, Outcome, SignalStatus, MAX_SCORE, MAX_SYMBOL_LEN};

#[test]
fn constants_are_the_policy() {
    assert_eq!(BPS_SCALE, 10000);
    assert_eq!(WIN_THRESHOLD_BPS, 5000);
    assert_eq!(MAX_SYMBOL_LEN, 10);
    assert_eq!(MAX_SCORE, 100);
}

#[test]
fn roi_of_a_gain_of_half() {
    assert_eq!(compute_roi_bps(1000, 1500), 5000);
}

#[test]
fn roi_just_below_the_threshold() {
    assert_eq!(compute_roi_bps(1000, 1499), 4990);
}

#[test]
fn roi_of_a_small_loss() {
    assert_eq!(compute_roi_bps(1000, 999), -10);
}

#[test]
fn roi_of_an_unchanged_price_is_zero() {
    assert_eq!(compute_roi_bps(1000, 1000), 0);
}

#[test]
fn roi_rounds_toward_zero() {
    assert_eq!(compute_roi_bps(3, 1), -6666);
    assert_eq!(compute_roi_bps(3, 4), 3333);
    assert_eq!(compute_roi_bps(100000, 99999), 0);
    assert_eq!(compute_roi_bps(100000, 100001), 0);
}

#[test]
fn roi_of_a_zero_entry_is_zero() {
    assert_eq!(compute_roi_bps(0, 0), 0);
    assert_eq!(compute_roi_bps(0, 1), 0);
    assert_eq!(compute_roi_bps(0, u64::MAX), 0);
}

#[test]
fn roi_of_a_total_loss() {
    assert_eq!(compute_roi_bps(1, 0), -10000);
    assert_eq!(compute_roi_bps(u64::MAX, 0), -10000);
}

#[test]
fn roi_at_the_edge_of_64_bits() {
    assert_eq!(compute_roi_bps(1, 922337203685478), 9223372036854770000);
    assert_eq!(compute_roi_bps(2, 1844674407370957), 9223372036854775000);
}

#[test]
fn roi_beyond_64_bits_is_the_highest_that_fits() {
    assert_eq!(compute_roi_bps(1, 922337203685479), i64::MAX);
    assert_eq!(compute_roi_bps(1, u64::MAX), i64::MAX);
    assert_eq!(compute_roi_bps(7, u64::MAX), i64::MAX);
    assert_eq!(compute_roi_bps(2000, u64::MAX), i64::MAX);
    assert_eq!(compute_roi_bps(20001, u64::MAX), 9222910891310200296);
}

#[test]
fn roi_is_never_below_a_total_loss() {
    for entry_price in [1u64, 2, 3, 9999, 10000, 10001, 1 << 40, u64::MAX - 1, u64::MAX] {
        assert_eq!(compute_roi_bps(entry_price, 0), -10000);
        assert!(compute_roi_bps(entry_price, entry_price / 2) >= -10000);
    }
}

#[test]
fn roi_sign_follows_the_prices() {
    for (entry_price, exit_price) in
        [(1u64, u64::MAX), (2, 3), (2, 2), (3, 4), (10000, 9999), (10001, 10000), (u64::MAX, u64::MAX - 1), (5, 0)]
    {
        let roi = compute_roi_bps(entry_price, exit_price);
        let gain_of_half = 2 * (exit_price as u128) >= 3 * (entry_price as u128);
        let fall_of_a_point =
            exit_price < entry_price && ((entry_price - exit_price) as u128) * 10000 >= entry_price as u128;
        assert_eq!(roi >= 5000, gain_of_half);
        assert_eq!(roi < 0, fall_of_a_point);
    }
}

#[test]
fn classify_at_the_boundaries() {
    assert_eq!(classify(5000), Outcome::Win);
    assert_eq!(classify(4999), Outcome::Neutral);
    assert_eq!(classify(0), Outcome::Neutral);
    assert_eq!(classify(-1), Outcome::Loss);
    assert_eq!(classify(i64::MAX), Outcome::Win);
    assert_eq!(classify(i64::MIN), Outcome::Loss);
}

#[test]
fn outcome_gives_its_terminal_status() {
    assert_eq!(Outcome::Win.status(), SignalStatus::Win);
    assert_eq!(Outcome::Loss.status(), SignalStatus::Loss);
    assert_eq!(Outcome::Neutral.status(), SignalStatus::Closed);
}

#[test]
fn error_messages() {
    assert_eq!(OracleError::Unauthorized.message(), "Unauthorized");
    assert_eq!(OracleError::SymbolTooLong.message(), "Symbol too long (max 10 chars)");
    assert_eq!(OracleError::InvalidScore.message(), "Invalid score (must be 0-100)");
    assert_eq!(OracleError::SignalAlreadyClosed.message(), "Signal already closed");
    assert_eq!(OracleError::NotFound.message(), "Signal not found");
    assert_eq!(OracleError::AlreadyInitialized.message(), "Already initialized");
    assert_eq!(OracleError::CounterFull.message(), "Counter full");
}
