use std::collections::HashMap;

use contracts::batch::BatchExecutor;
use contracts::errors::Error;
use contracts::payments::{
    calculate_fee, calculate_fee_split, create_escrow, deduct_fee, get_escrow, refund_escrow, release_escrow,
    safe_transfer, safe_transfer_from_contract, validate_amount, validate_fee_rate, EscrowBook, EscrowState,
    FeeConfig,
};
use contracts::token::Transfer;

const TOKEN: u64 = 9;
const CONTRACT: u64 = 500;
const SEQ: u32 = 0;

#[derive(Default)]
struct Ledger {
    balances: HashMap<u64, i128>,
}

impl Ledger {
    fn mint(&mut self, to: u64, amount: i128) {
        *self.balances.entry(to).or_insert(0) += amount;
    }

    fn balance(&self, who: u64) -> i128 {
        *self.balances.get(&who).unwrap_or(&0)
    }

    fn apply(&mut self, t: &Transfer) {
        let b = self.balance(t.from);
        assert!(b >= t.amount, "insufficient balance");
        self.balances.insert(t.from, b - t.amount);
        *self.balances.entry(t.to).or_insert(0) += t.amount;
    }
}

#[test]
fn safe_transfer_moves_tokens() {
    let mut l = Ledger::default();
    l.mint(1, 1_000);
    l.apply(&safe_transfer(TOKEN, 1, 2, 300).unwrap());
    assert_eq!(l.balance(1), 700);
    assert_eq!(l.balance(2), 300);
}

#[test]
fn safe_transfer_rejects_zero_amount() {
    assert_eq!(safe_transfer(TOKEN, 1, 2, 0), Err(Error::PaymentInvalidAmount));
}

#[test]
fn safe_transfer_rejects_negative_amount() {
    assert_eq!(safe_transfer(TOKEN, 1, 2, -50), Err(Error::PaymentInvalidAmount));
}

#[test]
fn safe_transfer_full_balance() {
    let mut l = Ledger::default();
    l.mint(1, 500);
    l.apply(&safe_transfer(TOKEN, 1, 2, 500).unwrap());
    assert_eq!(l.balance(1), 0);
    assert_eq!(l.balance(2), 500);
}

#[test]
fn safe_transfer_from_contract_moves_tokens() {
    let mut l = Ledger::default();
    l.mint(CONTRACT, 1_000);
    l.apply(&safe_transfer_from_contract(CONTRACT, TOKEN, 2, 200).unwrap());
    assert_eq!(l.balance(CONTRACT), 800);
    assert_eq!(l.balance(2), 200);
}

#[test]
fn safe_transfer_from_contract_rejects_zero() {
    assert_eq!(safe_transfer_from_contract(CONTRACT, TOKEN, 2, 0), Err(Error::PaymentInvalidAmount));
}

#[test]
fn calculate_fee_basic() {
    assert_eq!(calculate_fee(1_000, 250), Ok(25));
}

#[test]
fn calculate_fee_zero_rate() {
    assert_eq!(calculate_fee(1_000, 0), Ok(0));
}

#[test]
fn calculate_fee_full_rate() {
    assert_eq!(calculate_fee(1_000, 10_000), Ok(1_000));
}

#[test]
fn calculate_fee_rounds_down() {
    assert_eq!(calculate_fee(1_000, 1), Ok(0));
    assert_eq!(calculate_fee(10_001, 1), Ok(1));
}

#[test]
fn calculate_fee_rejects_zero_amount() {
    assert_eq!(calculate_fee(0, 250), Err(Error::PaymentInvalidAmount));
}

#[test]
fn calculate_fee_rejects_negative_amount() {
    assert_eq!(calculate_fee(-1, 250), Err(Error::PaymentInvalidAmount));
}

#[test]
fn calculate_fee_rejects_rate_above_10000() {
    assert_eq!(calculate_fee(1_000, 10_001), Err(Error::PaymentInvalidFeeRate));
}

#[test]
fn calculate_fee_rejects_negative_rate() {
    assert_eq!(calculate_fee(1_000, -1), Err(Error::PaymentInvalidFeeRate));
}

#[test]
fn calculate_fee_handles_large_values() {
    assert_eq!(calculate_fee(i128::MAX, 0), Ok(0));
    let _ = calculate_fee(i128::MAX, 1);
    assert_eq!(calculate_fee(i128::MAX, 2), Err(Error::PaymentFeeOverflow));
}

#[test]
fn calculate_fee_split_sums_correctly() {
    let (fee, net) = calculate_fee_split(1_000, 250).unwrap();
    assert_eq!(fee, 25);
    assert_eq!(net, 975);
    assert_eq!(fee + net, 1_000);
}

#[test]
fn deduct_fee_transfers_both_portions() {
    let mut l = Ledger::default();
    l.mint(1, 1_000);
    let cfg = FeeConfig { rate_bps: 250, recipient: 3 };
    let (net, moves) = deduct_fee(TOKEN, 1, &cfg, 1_000, 2).unwrap();
    moves.iter().for_each(|t| l.apply(t));
    assert_eq!(net, 975);
    assert_eq!(l.balance(1), 0);
    assert_eq!(l.balance(3), 25);
    assert_eq!(l.balance(2), 975);
}

#[test]
fn deduct_fee_zero_rate_transfers_full_amount() {
    let mut l = Ledger::default();
    l.mint(1, 500);
    let cfg = FeeConfig { rate_bps: 0, recipient: 3 };
    let (net, moves) = deduct_fee(TOKEN, 1, &cfg, 500, 2).unwrap();
    moves.iter().for_each(|t| l.apply(t));
    assert_eq!(net, 500);
    assert_eq!(l.balance(1), 0);
    assert_eq!(l.balance(3), 0);
    assert_eq!(l.balance(2), 500);
    assert_eq!(moves.len(), 1);
}

fn escrow_fixture() -> (EscrowBook, Ledger) {
    let mut l = Ledger::default();
    l.mint(10, 5_000);
    (EscrowBook::new(CONTRACT), l)
}

#[test]
fn escrow_create_release_lifecycle() {
    let (mut book, mut l) = escrow_fixture();
    let (id, t) = create_escrow(&mut book, TOKEN, 10, 11, 2_000, SEQ + 100, SEQ).unwrap();
    l.apply(&t);
    assert_eq!(id, 1);
    assert_eq!(l.balance(10), 3_000);
    assert_eq!(l.balance(CONTRACT), 2_000);
    let r = get_escrow(&book, id).unwrap();
    assert_eq!(r.state, EscrowState::Active);
    assert_eq!(r.amount, 2_000);
    assert_eq!(r.depositor, 10);
    assert_eq!(r.beneficiary, 11);
    l.apply(&release_escrow(&mut book, TOKEN, id, SEQ).unwrap());
    assert_eq!(l.balance(11), 2_000);
    assert_eq!(l.balance(CONTRACT), 0);
    assert_eq!(get_escrow(&book, id).unwrap().state, EscrowState::Released);
}

#[test]
fn escrow_create_refund_lifecycle() {
    let (mut book, mut l) = escrow_fixture();
    let (id, t) = create_escrow(&mut book, TOKEN, 10, 11, 2_000, SEQ + 100, SEQ).unwrap();
    l.apply(&t);
    l.apply(&refund_escrow(&mut book, TOKEN, 10, id, SEQ).unwrap());
    assert_eq!(l.balance(10), 5_000);
    assert_eq!(l.balance(CONTRACT), 0);
    assert_eq!(get_escrow(&book, id).unwrap().state, EscrowState::Refunded);
}

#[test]
fn escrow_rejects_zero_amount() {
    let (mut book, _) = escrow_fixture();
    assert_eq!(create_escrow(&mut book, TOKEN, 10, 11, 0, SEQ + 100, SEQ), Err(Error::PaymentInvalidAmount));
}

#[test]
fn escrow_rejects_past_expiry() {
    let (mut book, _) = escrow_fixture();
    assert_eq!(create_escrow(&mut book, TOKEN, 10, 11, 100, SEQ, SEQ), Err(Error::InvalidArgument));
}

#[test]
fn escrow_release_rejects_unknown_id() {
    let (mut book, _) = escrow_fixture();
    assert_eq!(release_escrow(&mut book, TOKEN, 999, SEQ), Err(Error::PaymentEscrowNotFound));
}

#[test]
fn escrow_release_rejects_already_released() {
    let (mut book, _) = escrow_fixture();
    let (id, _) = create_escrow(&mut book, TOKEN, 10, 11, 2_000, SEQ + 100, SEQ).unwrap();
    release_escrow(&mut book, TOKEN, id, SEQ).unwrap();
    assert_eq!(release_escrow(&mut book, TOKEN, id, SEQ), Err(Error::PaymentEscrowAlreadyReleased));
}

#[test]
fn escrow_release_rejects_already_refunded() {
    let (mut book, _) = escrow_fixture();
    let (id, _) = create_escrow(&mut book, TOKEN, 10, 11, 2_000, SEQ + 100, SEQ).unwrap();
    refund_escrow(&mut book, TOKEN, 10, id, SEQ).unwrap();
    assert_eq!(release_escrow(&mut book, TOKEN, id, SEQ), Err(Error::PaymentEscrowAlreadyRefunded));
}

#[test]
fn escrow_refund_rejects_already_released() {
    let (mut book, _) = escrow_fixture();
    let (id, _) = create_escrow(&mut book, TOKEN, 10, 11, 2_000, SEQ + 100, SEQ).unwrap();
    release_escrow(&mut book, TOKEN, id, SEQ).unwrap();
    assert_eq!(refund_escrow(&mut book, TOKEN, 10, id, SEQ), Err(Error::PaymentEscrowAlreadyReleased));
}

#[test]
fn escrow_refund_rejects_already_refunded() {
    let (mut book, _) = escrow_fixture();
    let (id, _) = create_escrow(&mut book, TOKEN, 10, 11, 2_000, SEQ + 100, SEQ).unwrap();
    refund_escrow(&mut book, TOKEN, 10, id, SEQ).unwrap();
    assert_eq!(refund_escrow(&mut book, TOKEN, 10, id, SEQ), Err(Error::PaymentEscrowAlreadyRefunded));
}

#[test]
fn escrow_release_after_expiry_is_rejected() {
    let (mut book, _) = escrow_fixture();
    let (id, _) = create_escrow(&mut book, TOKEN, 10, 11, 2_000, SEQ + 5, SEQ).unwrap();
    assert_eq!(release_escrow(&mut book, TOKEN, id, SEQ + 10), Err(Error::PaymentEscrowExpired));
}

#[test]
fn escrow_refund_after_expiry_succeeds() {
    let (mut book, mut l) = escrow_fixture();
    let (id, t) = create_escrow(&mut book, TOKEN, 10, 11, 2_000, SEQ + 5, SEQ).unwrap();
    l.apply(&t);
    l.apply(&refund_escrow(&mut book, TOKEN, 10, id, SEQ + 10).unwrap());
    assert_eq!(l.balance(10), 5_000);
    assert_eq!(l.balance(CONTRACT), 0);
}

#[test]
fn escrow_get_returns_none_for_unknown_id() {
    let (book, _) = escrow_fixture();
    assert_eq!(get_escrow(&book, 42), None);
}

#[test]
fn escrow_ids_are_sequential() {
    let (mut book, _) = escrow_fixture();
    let (id1, _) = create_escrow(&mut book, TOKEN, 10, 11, 100, SEQ + 100, SEQ).unwrap();
    let (id2, _) = create_escrow(&mut book, TOKEN, 10, 11, 100, SEQ + 100, SEQ).unwrap();
    let (id3, _) = create_escrow(&mut book, TOKEN, 10, 11, 100, SEQ + 100, SEQ).unwrap();
    assert_eq!(id1, 1);
    assert_eq!(id2, 2);
    assert_eq!(id3, 3);
}

#[test]
fn escrow_release_before_expiry_succeeds() {
    let (mut book, mut l) = escrow_fixture();
    let (id, t) = create_escrow(&mut book, TOKEN, 10, 11, 2_000, SEQ + 100, SEQ).unwrap();
    l.apply(&t);
    l.apply(&release_escrow(&mut book, TOKEN, id, SEQ + 50).unwrap());
    assert_eq!(l.balance(11), 2_000);
}

#[test]
fn batch_transfer_all_works() {
    let mut l = Ledger::default();
    l.mint(1, 1_000);
    let mut exec = BatchExecutor::new();
    let recipients = vec![(2u64, 150i128), (3u64, 250i128)];
    let outcomes: Vec<bool> = recipients
        .iter()
        .map(|(to, a)| {
            let ok = l.balance(1) >= *a;
            if ok {
                l.apply(&Transfer { token: TOKEN, from: 1, to: *to, amount: *a });
            }
            ok
        })
        .collect();
    let result = exec.multi_transfer_all(1, TOKEN, &recipients, &outcomes).unwrap();
    assert_eq!(result.succeeded, 2);
    assert_eq!(l.balance(2), 150);
    assert_eq!(l.balance(3), 250);
    assert_eq!(l.balance(1), 600);
}

// ---------------------------------------------------------------------------
// Laws and edge cases on concrete values
// ---------------------------------------------------------------------------

#[test]
fn fee_never_exceeds_amount_and_split_is_exact() {
    for amount in [1i128, 7, 999, 10_000, 123_456_789] {
        for rate in [0i128, 1, 250, 3_333, 9_999, 10_000] {
            let (fee, net) = calculate_fee_split(amount, rate).unwrap();
            assert!(0 <= fee && fee <= amount);
            assert_eq!(fee + net, amount);
            let (n2, moves) = deduct_fee(TOKEN, 1, &FeeConfig { rate_bps: rate, recipient: 3 }, amount, 2).unwrap();
            assert_eq!(n2, net);
            assert_eq!(moves.iter().map(|t| t.amount).sum::<i128>(), amount);
        }
    }
}

#[test]
fn validators_match_their_ranges() {
    assert_eq!(validate_amount(1), Ok(()));
    assert_eq!(validate_amount(0), Err(Error::PaymentInvalidAmount));
    assert_eq!(validate_fee_rate(0), Ok(()));
    assert_eq!(validate_fee_rate(10_000), Ok(()));
    assert_eq!(validate_fee_rate(10_001), Err(Error::PaymentInvalidFeeRate));
    assert_eq!(validate_fee_rate(-1), Err(Error::PaymentInvalidFeeRate));
}

#[test]
fn settled_escrows_leave_the_active_set() {
    let (mut book, _) = escrow_fixture();
    for _ in 0..3 {
        create_escrow(&mut book, TOKEN, 10, 11, 100, SEQ + 100, SEQ).unwrap();
    }
    assert_eq!(book.active_escrows(), vec![1, 2, 3]);
    release_escrow(&mut book, TOKEN, 2, SEQ).unwrap();
    assert_eq!(book.active_escrows(), vec![1, 3]);
    refund_escrow(&mut book, TOKEN, 10, 1, SEQ).unwrap();
    assert_eq!(book.active_escrows(), vec![3]);
    assert_eq!(refund_escrow(&mut book, TOKEN, 10, 2, SEQ), Err(Error::PaymentEscrowAlreadyReleased));
    assert_eq!(book.active_escrows(), vec![3]);
}

#[test]
fn escrow_payout_uses_the_given_token() {
    let (mut book, _) = escrow_fixture();
    let (id, _) = create_escrow(&mut book, TOKEN, 10, 11, 100, SEQ + 100, SEQ).unwrap();
    let t = release_escrow(&mut book, 77, id, SEQ).unwrap();
    assert_eq!(t, Transfer { token: 77, from: CONTRACT, to: 11, amount: 100 });
}

#[test]
fn escrow_refund_after_expiry_is_for_the_depositor_only() {
    let (mut book, mut l) = escrow_fixture();
    let (id, t) = create_escrow(&mut book, TOKEN, 10, 11, 2_000, SEQ + 5, SEQ).unwrap();
    l.apply(&t);
    // Before expiry anyone may refund; after it only the depositor.
    assert_eq!(refund_escrow(&mut book, TOKEN, 11, id, SEQ + 6), Err(Error::Unauthorized));
    assert_eq!(get_escrow(&book, id).unwrap().state, EscrowState::Active);
    assert_eq!(book.active_escrows(), vec![id]);
    l.apply(&refund_escrow(&mut book, TOKEN, 10, id, SEQ + 6).unwrap());
    assert_eq!(l.balance(10), 5_000);
    let (id2, _) = create_escrow(&mut book, TOKEN, 10, 11, 100, SEQ + 5, SEQ).unwrap();
    assert!(refund_escrow(&mut book, TOKEN, 99, id2, SEQ + 5).is_ok());
}
