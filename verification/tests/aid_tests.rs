use std::collections::HashMap;

use contracts::aid::{AidContract, AidError, AidStatus, CreateAidError, ExternalApi, MAX_QUERY_LIMIT};
use contracts::token::Transfer;
use contracts::Error as SharedError;

const CONTRACT: u64 = 500;
const ADMIN: u64 = 1;
const DONOR: u64 = 2;
const RECIPIENT: u64 = 3;
const TOKEN: u64 = 9;
const MINT_AMOUNT: i128 = 1_000_000;
const SEQ: u32 = 0;

#[derive(Default)]
struct Ledger {
    balances: HashMap<u64, i128>,
}

impl Ledger {
    fn balance(&self, who: u64) -> i128 {
        *self.balances.get(&who).unwrap_or(&0)
    }

    fn apply(&mut self, t: &Transfer) {
        assert_eq!(t.token, TOKEN);
        let b = self.balance(t.from);
        assert!(b >= t.amount);
        self.balances.insert(t.from, b - t.amount);
        *self.balances.entry(t.to).or_insert(0) += t.amount;
    }
}

struct Fixture {
    aid: AidContract,
    ledger: Ledger,
}

fn setup() -> Fixture {
    let mut ledger = Ledger::default();
    ledger.balances.insert(DONOR, MINT_AMOUNT);
    Fixture { aid: AidContract::initialize(CONTRACT, ADMIN, TOKEN), ledger }
}

impl Fixture {
    fn create(&mut self, amount: i128, expiry: u32) -> u64 {
        let (id, t) = self.aid.create_aid(DONOR, RECIPIENT, amount, expiry, SEQ).unwrap();
        self.ledger.apply(&t);
        id
    }
}

#[test]
fn claim_transfers_escrow_and_settles() {
    let mut fx = setup();
    let id = fx.create(500, SEQ + 100);
    assert_eq!(fx.ledger.balance(CONTRACT), 500);
    let t = fx.aid.claim_aid(id, RECIPIENT, SEQ).unwrap();
    fx.ledger.apply(&t);
    assert_eq!(fx.ledger.balance(RECIPIENT), 500);
    assert_eq!(fx.ledger.balance(CONTRACT), 0);
    assert_eq!(fx.aid.get_aid(id).unwrap().status, AidStatus::Settled);
}

#[test]
fn second_claim_returns_already_claimed() {
    let mut fx = setup();
    let id = fx.create(500, SEQ + 100);
    fx.aid.claim_aid(id, RECIPIENT, SEQ).unwrap();
    assert_eq!(fx.aid.claim_aid(id, RECIPIENT, SEQ), Err(AidError::AlreadyClaimed));
}

#[test]
fn claim_after_expiry_is_rejected() {
    let mut fx = setup();
    let id = fx.create(500, SEQ + 100);
    assert_eq!(fx.aid.claim_aid(id, RECIPIENT, SEQ + 101), Err(AidError::Expired));
}

#[test]
fn claim_by_wrong_address_is_unauthorized() {
    let mut fx = setup();
    let id = fx.create(500, SEQ + 100);
    assert_eq!(fx.aid.claim_aid(id, 77, SEQ), Err(AidError::Unauthorized));
}

#[test]
fn claim_while_paused_is_rejected() {
    let mut fx = setup();
    let id = fx.create(500, SEQ + 100);
    fx.aid.set_paused(ADMIN, true).unwrap();
    assert_eq!(fx.aid.claim_aid(id, RECIPIENT, SEQ), Err(AidError::Paused));
}

#[test]
fn create_aid_rejects_non_positive_amount_and_past_expiry() {
    let mut fx = setup();
    let r = fx.aid.create_aid(DONOR, RECIPIENT, 0, SEQ + 100, SEQ);
    assert_eq!(r.map(|_| ()), Err(CreateAidError::InvalidAmount));
    assert_eq!(CreateAidError::InvalidAmount.code(), SharedError::InvalidAmount.code());
    let r = fx.aid.create_aid(DONOR, RECIPIENT, 100, SEQ, SEQ);
    assert_eq!(r.map(|_| ()), Err(CreateAidError::ExpiryNotInFuture));
    assert_eq!(CreateAidError::ExpiryNotInFuture.code(), AidError::NotExpiredYet.code());
}

#[test]
fn refund_aid_after_expiry_returns_funds_to_donor() {
    let mut fx = setup();
    let id = fx.create(500, SEQ + 100);
    let t = fx.aid.refund_aid(DONOR, id, SEQ + 101).unwrap();
    fx.ledger.apply(&t);
    assert_eq!(fx.ledger.balance(DONOR), MINT_AMOUNT);
    assert_eq!(fx.ledger.balance(CONTRACT), 0);
    assert_eq!(fx.aid.get_aid(id).unwrap().status, AidStatus::Refunded);
}

#[test]
fn refund_aid_before_expiry_is_rejected() {
    let mut fx = setup();
    let id = fx.create(500, SEQ + 100);
    assert_eq!(fx.aid.refund_aid(DONOR, id, SEQ), Err(AidError::NotExpiredYet));
}

#[test]
fn refund_claimed_aid_is_rejected() {
    let mut fx = setup();
    let id = fx.create(500, SEQ + 100);
    fx.aid.claim_aid(id, RECIPIENT, SEQ).unwrap();
    assert_eq!(fx.aid.refund_aid(DONOR, id, SEQ + 101), Err(AidError::AlreadyClaimed));
}

#[test]
fn refund_refunded_aid_is_rejected() {
    let mut fx = setup();
    let id = fx.create(500, SEQ + 100);
    fx.aid.refund_aid(DONOR, id, SEQ + 101).unwrap();
    assert_eq!(fx.aid.refund_aid(DONOR, id, SEQ + 101), Err(AidError::AlreadyRefunded));
}

#[test]
fn refund_by_admin_is_successful() {
    let mut fx = setup();
    let id = fx.create(500, SEQ + 100);
    let t = fx.aid.refund_aid(ADMIN, id, SEQ + 101).unwrap();
    fx.ledger.apply(&t);
    assert_eq!(fx.ledger.balance(DONOR), MINT_AMOUNT);
    assert_eq!(fx.aid.get_aid(id).unwrap().status, AidStatus::Refunded);
}

#[test]
fn get_aid_unknown_id_returns_none() {
    let fx = setup();
    assert_eq!(fx.aid.get_aid(9_999), None);
}

#[test]
fn get_aid_returns_full_record() {
    let mut fx = setup();
    let expiry = SEQ + 100;
    let id = fx.create(250, expiry);
    let r = fx.aid.get_aid(id).expect("record should exist");
    assert_eq!(r.id, id);
    assert_eq!(r.donor, DONOR);
    assert_eq!(r.recipient, RECIPIENT);
    assert_eq!(r.token, TOKEN);
    assert_eq!(r.amount, 250);
    assert_eq!(r.expiry_ledger, expiry);
    assert_eq!(r.status, AidStatus::Pending);
}

#[test]
fn aid_ids_are_unique_and_monotonic() {
    let mut fx = setup();
    let ids: Vec<u64> = (0..5).map(|_| fx.create(100, SEQ + 10_000)).collect();
    let sorted = ids.clone();
    assert_eq!(ids, sorted);
    for (i, id) in ids.iter().enumerate() {
        assert_eq!(*id, i as u64);
    }
}

#[test]
fn test_list_aids() {
    let mut aid = AidContract::initialize(CONTRACT, ADMIN, TOKEN);
    aid.create_aid(10, RECIPIENT, 100, SEQ + 100, SEQ).unwrap();
    aid.create_aid(11, RECIPIENT, 200, SEQ + 100, SEQ).unwrap();
    aid.create_aid(10, RECIPIENT, 300, SEQ + 100, SEQ).unwrap();
    let response = ExternalApi::list_aids(&aid, 2, None);
    assert_eq!(response.aids.len(), 2);
    assert_eq!(response.next_cursor, Some(2));
    let response = ExternalApi::list_aids(&aid, 2, Some(2));
    assert_eq!(response.aids.len(), 1);
    assert_eq!(response.next_cursor, None);
}

#[test]
fn test_list_aids_by_donor() {
    let mut aid = AidContract::initialize(CONTRACT, ADMIN, TOKEN);
    let (donor1, donor2) = (10, 11);
    aid.create_aid(donor1, RECIPIENT, 100, SEQ + 100, SEQ).unwrap();
    aid.create_aid(donor2, RECIPIENT, 200, SEQ + 100, SEQ).unwrap();
    aid.create_aid(donor1, RECIPIENT, 300, SEQ + 100, SEQ).unwrap();
    let response = ExternalApi::list_aids_by_donor(&aid, donor1, 1, None);
    assert_eq!(response.aids.len(), 1);
    assert_eq!(response.next_cursor, Some(1));
    let response = ExternalApi::list_aids_by_donor(&aid, donor1, 1, Some(1));
    assert_eq!(response.aids.len(), 1);
    assert_eq!(response.next_cursor, Some(3));
    assert!(response.aids.iter().all(|a| a.donor == donor1));
}

// ---------------------------------------------------------------------------
// Pagination, laws and edge cases on concrete values
// ---------------------------------------------------------------------------

#[test]
fn donor_pages_are_clamped_and_ordered() {
    let mut fx = setup();
    for _ in 0..60 {
        fx.create(1, SEQ + 10);
    }
    let page = fx.aid.get_aids_by_donor(DONOR, 0, 500).unwrap();
    assert_eq!(page.records.len() as u32, MAX_QUERY_LIMIT);
    assert_eq!(page.next_cursor, Some(50));
    let rest = fx.aid.get_aids_by_donor(DONOR, 50, 500).unwrap();
    assert_eq!(rest.records.len(), 10);
    assert_eq!(rest.next_cursor, None);
    assert_eq!(rest.records[0].id, 50);
    assert!(matches!(fx.aid.get_aids_by_recipient(RECIPIENT, 0, 0), Err(SharedError::InvalidArgument)));
    let past_end = fx.aid.get_aids_by_recipient(RECIPIENT, 70, 5).unwrap();
    assert!(past_end.records.is_empty());
    assert_eq!(past_end.next_cursor, None);
}

#[test]
fn pagination_skips_removed_records_without_stalling() {
    let mut fx = setup();
    for _ in 0..4 {
        fx.create(1, SEQ + 10);
    }
    fx.aid.remove_aid(1);
    let page = fx.aid.get_aids_by_donor(DONOR, 0, 2).unwrap();
    let ids: Vec<u64> = page.records.iter().map(|r| r.id).collect();
    assert_eq!(ids, vec![0, 2]);
    assert_eq!(page.next_cursor, Some(3));
}

#[test]
fn aid_pays_out_once_whichever_way() {
    let mut fx = setup();
    let id = fx.create(500, SEQ + 100);
    fx.aid.claim_aid(id, RECIPIENT, SEQ).unwrap();
    assert!(fx.aid.refund_aid(ADMIN, id, SEQ + 500).is_err());
    let id2 = fx.create(500, SEQ + 100);
    fx.aid.refund_aid(DONOR, id2, SEQ + 101).unwrap();
    assert!(fx.aid.claim_aid(id2, RECIPIENT, SEQ + 101).is_err());
    assert_eq!(fx.aid.claim_aid(id2, RECIPIENT, SEQ), Err(AidError::AlreadyClaimed));
}

#[test]
fn list_by_donor_counts_matches_only() {
    let mut aid = AidContract::initialize(CONTRACT, ADMIN, TOKEN);
    aid.create_aid(10, RECIPIENT, 100, SEQ + 100, SEQ).unwrap();
    aid.create_aid(11, RECIPIENT, 200, SEQ + 100, SEQ).unwrap();
    aid.create_aid(10, RECIPIENT, 300, SEQ + 100, SEQ).unwrap();
    let r = ExternalApi::list_aids_by_donor(&aid, 10, 1, None);
    assert_eq!(r.aids.len(), 1);
    assert_eq!(r.next_cursor, Some(1));
    let r = ExternalApi::list_aids_by_donor(&aid, 10, 5, Some(1));
    assert_eq!(r.aids.len(), 1);
    assert_eq!(r.aids[0].amount, 300);
    assert_eq!(r.next_cursor, None);
    let r = ExternalApi::list_aids(&aid, 0, Some(7));
    assert!(r.aids.is_empty());
    assert_eq!(r.next_cursor, Some(7));
}

#[test]
fn aid_error_codes_and_admin_only_pause() {
    let mut fx = setup();
    assert_eq!(fx.aid.set_paused(77, true), Err(SharedError::Unauthorized));
    assert!(!fx.aid.is_paused());
    let codes: Vec<u32> = [
        AidError::Unauthorized,
        AidError::NotFound,
        AidError::AlreadyClaimed,
        AidError::Expired,
        AidError::Paused,
        AidError::NotExpiredYet,
        AidError::AlreadyRefunded,
    ]
    .iter()
    .map(|e| e.code())
    .collect();
    assert_eq!(codes, vec![100, 101, 102, 103, 104, 105, 106]);
    assert_eq!(fx.aid.claim_aid(42, RECIPIENT, SEQ), Err(AidError::NotFound));
}
