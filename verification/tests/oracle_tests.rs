use contracts::oracle::{OracleContract, OracleError, DEFAULT_STALENESS_WINDOW};

const ADMIN: u64 = 1;
const S1: u64 = 2;
const S2: u64 = 3;
const BTC: u64 = 70;
const ETH: u64 = 71;
const NOW: u64 = 10_000;

fn setup() -> OracleContract {
    OracleContract::initialize(ADMIN)
}

fn submit(c: &mut OracleContract, who: u64, feed: u64, price: i128, decimals: u32, ts: u64, nonce: u64) -> Result<u64, OracleError> {
    c.submit_price(who, feed, price, decimals, ts, nonce, NOW)
}

#[test]
fn test_initialize_sets_admin() {
    let c = setup();
    assert_eq!(c.get_admin(), ADMIN);
}

#[test]
fn test_double_initialize() {
    let mut c = setup();
    c.reinitialize(9);
    assert_eq!(c.get_admin(), 9);
}

#[test]
fn test_get_admin() {
    let c = setup();
    assert_eq!(c.get_admin(), ADMIN);
}

#[test]
fn test_register_submitter_success() {
    let mut c = setup();
    c.register_submitter(ADMIN, S1, NOW).unwrap();
    assert!(c.is_submitter_active(S1));
}

#[test]
fn test_register_duplicate_submitter_fails() {
    let mut c = setup();
    c.register_submitter(ADMIN, S1, NOW).unwrap();
    assert!(c.register_submitter(ADMIN, S1, NOW).is_err());
}

#[test]
fn test_register_multiple_submitters() {
    let mut c = setup();
    c.register_submitter(ADMIN, S1, NOW).unwrap();
    c.register_submitter(ADMIN, S2, NOW).unwrap();
    assert!(c.is_submitter_active(S1));
    assert!(c.is_submitter_active(S2));
}

#[test]
fn test_deactivate_submitter_success() {
    let mut c = setup();
    c.register_submitter(ADMIN, S1, NOW).unwrap();
    assert!(c.is_submitter_active(S1));
    c.deactivate_submitter(ADMIN, S1).unwrap();
    assert!(!c.is_submitter_active(S1));
}

#[test]
fn test_deactivated_submitter_cannot_submit() {
    let mut c = setup();
    c.register_submitter(ADMIN, S1, NOW).unwrap();
    c.deactivate_submitter(ADMIN, S1).unwrap();
    assert!(submit(&mut c, S1, BTC, 50000_00000000, 8, NOW, 1).is_err());
}

#[test]
fn test_submit_price_success() {
    let mut c = setup();
    c.register_submitter(ADMIN, S1, NOW).unwrap();
    assert_eq!(submit(&mut c, S1, BTC, 50000_00000000, 8, NOW, 1), Ok(1));
}

#[test]
fn test_submit_price_unauthorized_fails() {
    let mut c = setup();
    assert!(submit(&mut c, 99, BTC, 50000_00000000, 8, NOW, 1).is_err());
}

#[test]
fn test_submit_price_negative_price_fails() {
    let mut c = setup();
    c.register_submitter(ADMIN, S1, NOW).unwrap();
    assert!(submit(&mut c, S1, BTC, -1000, 8, NOW, 1).is_err());
}

#[test]
fn test_submit_price_invalid_decimals_fails() {
    let mut c = setup();
    c.register_submitter(ADMIN, S1, NOW).unwrap();
    assert!(submit(&mut c, S1, BTC, 50000_00000000, 19, NOW, 1).is_err());
}

#[test]
fn test_submit_price_zero_price_success() {
    let mut c = setup();
    c.register_submitter(ADMIN, S1, NOW).unwrap();
    assert!(submit(&mut c, S1, BTC, 0, 8, NOW, 1).is_ok());
}

#[test]
fn test_submit_price_max_decimals_success() {
    let mut c = setup();
    c.register_submitter(ADMIN, S1, NOW).unwrap();
    assert!(submit(&mut c, S1, BTC, 50000_00000000, 18, NOW, 1).is_ok());
}

#[test]
fn test_replay_protection_duplicate_nonce() {
    let mut c = setup();
    c.register_submitter(ADMIN, S1, NOW).unwrap();
    assert!(submit(&mut c, S1, BTC, 50000_00000000, 8, NOW, 1).is_ok());
    assert!(submit(&mut c, S1, BTC, 51000_00000000, 8, NOW, 1).is_err());
}

#[test]
fn test_sequential_nonces_success() {
    let mut c = setup();
    c.register_submitter(ADMIN, S1, NOW).unwrap();
    assert!(submit(&mut c, S1, BTC, 50000_00000000, 8, NOW, 1).is_ok());
    assert!(submit(&mut c, S1, BTC, 51000_00000000, 8, NOW, 2).is_ok());
    assert!(submit(&mut c, S1, BTC, 52000_00000000, 8, NOW, 3).is_ok());
}

#[test]
fn test_nonce_skipping_fails() {
    let mut c = setup();
    c.register_submitter(ADMIN, S1, NOW).unwrap();
    assert!(submit(&mut c, S1, BTC, 50000_00000000, 8, NOW, 5).is_err());
}

#[test]
fn test_independent_feed_nonces() {
    let mut c = setup();
    c.register_submitter(ADMIN, S1, NOW).unwrap();
    assert!(submit(&mut c, S1, BTC, 50000_00000000, 8, NOW, 1).is_ok());
    assert!(submit(&mut c, S1, ETH, 3000_00000000, 8, NOW, 1).is_ok());
}

#[test]
fn test_stale_submission_rejected() {
    let mut c = setup();
    c.register_submitter(ADMIN, S1, NOW).unwrap();
    c.set_staleness_window(ADMIN, 1000).unwrap();
    let stale_ts = NOW.saturating_sub(2000);
    assert!(submit(&mut c, S1, BTC, 50000_00000000, 8, stale_ts, 1).is_err());
}

#[test]
fn test_fresh_submission_within_window() {
    let mut c = setup();
    c.register_submitter(ADMIN, S1, NOW).unwrap();
    c.set_staleness_window(ADMIN, 1000).unwrap();
    let fresh_ts = NOW.saturating_sub(500);
    assert!(submit(&mut c, S1, BTC, 50000_00000000, 8, fresh_ts, 1).is_ok());
}

#[test]
fn test_submission_at_boundary() {
    let mut c = setup();
    c.register_submitter(ADMIN, S1, NOW).unwrap();
    c.set_staleness_window(ADMIN, 1000).unwrap();
    let boundary_ts = NOW.saturating_sub(1000);
    assert!(submit(&mut c, S1, BTC, 50000_00000000, 8, boundary_ts, 1).is_ok());
}

#[test]
fn test_get_latest_price_after_submit() {
    let mut c = setup();
    c.register_submitter(ADMIN, S1, NOW).unwrap();
    let price = 50000_00000000i128;
    submit(&mut c, S1, BTC, price, 8, NOW, 1).unwrap();
    let latest = c.get_latest_price(BTC).unwrap();
    assert_eq!(latest.price, price);
    assert_eq!(latest.decimals, 8);
    assert_eq!(latest.timestamp, NOW);
    assert_eq!(latest.submission_count, 1);
}

#[test]
fn test_get_latest_price_never_written_fails() {
    let c = setup();
    assert!(c.get_latest_price(99).is_err());
}

#[test]
fn test_get_latest_price_most_recent() {
    let mut c = setup();
    c.register_submitter(ADMIN, S1, NOW).unwrap();
    submit(&mut c, S1, BTC, 50000_00000000, 8, NOW, 1).unwrap();
    assert_eq!(c.get_latest_price(BTC).unwrap().price, 50000_00000000);
    submit(&mut c, S1, BTC, 51000_00000000, 8, NOW, 2).unwrap();
    let l2 = c.get_latest_price(BTC).unwrap();
    assert_eq!(l2.price, 51000_00000000);
    assert_eq!(l2.submission_count, 2);
}

#[test]
fn test_get_price_history_empty_feed_fails() {
    let c = setup();
    assert!(c.get_price_history(99, 10).is_err());
}

#[test]
fn test_get_price_history_returns_submissions() {
    let mut c = setup();
    c.register_submitter(ADMIN, S1, NOW).unwrap();
    for i in 1..=5u64 {
        let price = 50000_00000000i128 + (i * 1000) as i128;
        submit(&mut c, S1, BTC, price, 8, NOW, i).unwrap();
    }
    assert_eq!(c.get_price_history(BTC, 10).unwrap().len(), 5);
}

#[test]
fn test_get_price_history_respects_limit() {
    let mut c = setup();
    c.register_submitter(ADMIN, S1, NOW).unwrap();
    for i in 1..=10u64 {
        let price = 50000_00000000i128 + (i * 1000) as i128;
        submit(&mut c, S1, BTC, price, 8, NOW, i).unwrap();
    }
    let history = c.get_price_history(BTC, 3).unwrap();
    assert_eq!(history.len(), 3);
    assert_eq!(history[0].id, 8);
    assert_eq!(history[1].id, 9);
    assert_eq!(history[2].id, 10);
}

#[test]
fn test_multiple_submitters_same_feed() {
    let mut c = setup();
    c.register_submitter(ADMIN, S1, NOW).unwrap();
    c.register_submitter(ADMIN, S2, NOW).unwrap();
    submit(&mut c, S1, BTC, 50000_00000000, 8, NOW, 1).unwrap();
    submit(&mut c, S2, BTC, 51000_00000000, 8, NOW, 1).unwrap();
    let latest = c.get_latest_price(BTC).unwrap();
    assert_eq!(latest.price, 51000_00000000);
    assert_eq!(latest.submission_count, 2);
}

#[test]
fn test_set_staleness_window_success() {
    let mut c = setup();
    assert!(c.set_staleness_window(ADMIN, 7200).is_ok());
    assert_eq!(c.get_staleness_window(), 7200);
}

#[test]
fn test_get_staleness_window_default() {
    let c = setup();
    assert_eq!(c.get_staleness_window(), 3600);
    assert_eq!(DEFAULT_STALENESS_WINDOW, 3600);
}

#[test]
fn test_set_staleness_window_zero() {
    let mut c = setup();
    c.set_staleness_window(ADMIN, 0).unwrap();
    assert_eq!(c.get_staleness_window(), 0);
    c.register_submitter(ADMIN, S1, NOW).unwrap();
    assert!(submit(&mut c, S1, BTC, 50000_00000000, 8, NOW.saturating_sub(1), 1).is_err());
}

#[test]
fn test_is_submitter_active_status() {
    let mut c = setup();
    assert!(!c.is_submitter_active(S1));
    c.register_submitter(ADMIN, S1, NOW).unwrap();
    assert!(c.is_submitter_active(S1));
    c.deactivate_submitter(ADMIN, S1).unwrap();
    assert!(!c.is_submitter_active(S1));
}

// ---------------------------------------------------------------------------
// Laws, error variants and edge cases on concrete values
// ---------------------------------------------------------------------------

#[test]
fn each_submission_error_has_its_variant() {
    let mut c = setup();
    assert_eq!(submit(&mut c, S1, BTC, 1, 8, NOW, 1), Err(OracleError::SubmitterNotAuthorized));
    c.register_submitter(ADMIN, S1, NOW).unwrap();
    assert_eq!(submit(&mut c, S1, BTC, 1, 8, NOW, 2), Err(OracleError::DuplicateSubmission));
    assert_eq!(submit(&mut c, S1, BTC, 1, 8, NOW - 3_601, 1), Err(OracleError::SubmissionStale));
    assert_eq!(submit(&mut c, S1, BTC, -1, 8, NOW, 1), Err(OracleError::InvalidPrice));
    assert_eq!(submit(&mut c, S1, BTC, 1, 19, NOW, 1), Err(OracleError::InvalidDecimals));
    assert_eq!(c.register_submitter(ADMIN, S1, NOW), Err(OracleError::SubmitterAlreadyRegistered));
    assert_eq!(c.register_submitter(99, S2, NOW), Err(OracleError::Unauthorized));
    assert_eq!(c.set_staleness_window(99, 1), Err(OracleError::Unauthorized));
    assert_eq!(c.get_latest_price(ETH).map(|l| l.price), Err(OracleError::FeedNotFound));
    assert_eq!(OracleError::InternalError.code(), 509);
    assert_eq!(OracleError::SubmitterNotAuthorized.code(), 500);
}

#[test]
fn failed_submission_changes_nothing_and_nonce_tracks_last() {
    let mut c = setup();
    c.register_submitter(ADMIN, S1, NOW).unwrap();
    submit(&mut c, S1, BTC, 100, 8, NOW, 1).unwrap();
    assert_eq!(c.get_nonce(S1, BTC), 1);
    assert_eq!(c.get_nonce(S1, ETH), 0);
    assert!(submit(&mut c, S1, BTC, 200, 8, NOW, 1).is_err());
    assert_eq!(c.get_latest_price(BTC).unwrap().price, 100);
    assert_eq!(c.get_feed_history(BTC, 10).len(), 1);
    assert_eq!(c.get_feed_history(ETH, 10).len(), 0);
    assert_eq!(c.get_price_history(BTC, 0).unwrap().len(), 0);
    let future = submit(&mut c, S1, BTC, 300, 8, NOW + 1_000_000, 2);
    assert_eq!(future, Ok(2));
    assert_eq!(c.get_feed_latest(BTC).unwrap().submission_count, 2);
}

#[test]
fn deactivating_unknown_submitter_is_harmless() {
    let mut c = setup();
    assert_eq!(c.deactivate_submitter(ADMIN, 42), Ok(()));
    assert!(c.get_submitters().is_empty());
    assert_eq!(c.deactivate_submitter(99, 42), Err(OracleError::Unauthorized));
    c.register_submitter(ADMIN, 42, 77).unwrap();
    assert_eq!(c.get_submitters().get(&42).unwrap().registered_at, 77);
}
