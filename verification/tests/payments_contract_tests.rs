use std::collections::HashMap;

use contracts::errors::Error;
use contracts::payments::EscrowState;
use contracts::payments_contract::{ExamplePaymentsContract, PayoutError};
use contracts::batch::{transfer_actions, BatchTransfer};
use contracts::token::Transfer;

const CONTRACT: u64 = 500;
const ADMIN: u64 = 1;
const TOKEN: u64 = 9;
const FEE_RECIPIENT: u64 = 3;
const SEQ: u32 = 0;

#[derive(Default)]
struct Ledger {
    balances: HashMap<u64, i128>,
}

impl Ledger {
    fn mint(&mut self, to: u64, amount: i128) {
        *self.balances.entry(to).or_insert(0) += amount;
    }

    fn balance(&self, who: u64) -> i128 {
        *self.balances.get(&who).unwrap_or(&0)
    }

    fn apply(&mut self, t: &Transfer) {
        assert_eq!(t.token, TOKEN);
        let b = self.balance(t.from);
        assert!(b >= t.amount, "insufficient balance");
        self.balances.insert(t.from, b - t.amount);
        *self.balances.entry(t.to).or_insert(0) += t.amount;
    }
}

struct Fixture {
    c: ExamplePaymentsContract,
    l: Ledger,
}

fn setup() -> Fixture {
    Fixture { c: ExamplePaymentsContract::initialize(CONTRACT, ADMIN, TOKEN, 250, FEE_RECIPIENT).unwrap(), l: Ledger::default() }
}

impl Fixture {
    fn deposit(&mut self, who: u64, amount: i128) {
        let t = self.c.deposit(who, amount).unwrap();
        self.l.apply(&t);
    }
}

#[test]
fn initialize_sets_config() {
    let fx = setup();
    assert_eq!(fx.c.get_token(), Some(TOKEN));
    assert_eq!(fx.c.fee_rate(), 250);
    assert!(fx.c.fee_recipient().is_some());
}

#[test]
fn deposit_credits_balance() {
    let mut fx = setup();
    fx.l.mint(20, 1_000);
    fx.deposit(20, 500);
    assert_eq!(fx.c.balance_of(20), 500);
    assert_eq!(fx.c.total_deposits(), 500);
}

#[test]
fn deposit_multiple_times_accumulates() {
    let mut fx = setup();
    fx.l.mint(20, 2_000);
    fx.deposit(20, 300);
    fx.deposit(20, 200);
    assert_eq!(fx.c.balance_of(20), 500);
    assert_eq!(fx.c.total_deposits(), 500);
}

#[test]
fn deposit_rejects_zero_amount() {
    let mut fx = setup();
    assert_eq!(fx.c.deposit(20, 0), Err(Error::PaymentInvalidAmount));
}

#[test]
fn deposit_rejects_negative_amount() {
    let mut fx = setup();
    assert_eq!(fx.c.deposit(20, -100), Err(Error::PaymentInvalidAmount));
}

#[test]
fn total_deposits_tracks_all_users() {
    let mut fx = setup();
    fx.l.mint(20, 1_000);
    fx.l.mint(21, 1_000);
    fx.deposit(20, 300);
    fx.deposit(21, 700);
    assert_eq!(fx.c.total_deposits(), 1_000);
}

#[test]
fn withdraw_sends_tokens_with_fee() {
    let mut fx = setup();
    fx.l.mint(20, 1_000);
    fx.deposit(20, 1_000);
    assert_eq!(fx.c.balance_of(20), 1_000);
    let fee_recipient = fx.c.fee_recipient().unwrap();
    let (net, moves) = fx.c.withdraw(20).unwrap();
    moves.iter().for_each(|t| fx.l.apply(t));
    assert_eq!(net, 975);
    assert_eq!(fx.c.balance_of(20), 0);
    assert_eq!(fx.l.balance(20), 975);
    assert_eq!(fx.l.balance(fee_recipient), 25);
}

#[test]
fn withdraw_clears_total_deposits() {
    let mut fx = setup();
    fx.l.mint(20, 1_000);
    fx.deposit(20, 1_000);
    assert_eq!(fx.c.total_deposits(), 1_000);
    fx.c.withdraw(20).unwrap();
    assert_eq!(fx.c.total_deposits(), 0);
}

#[test]
fn withdraw_rejects_zero_balance() {
    let mut fx = setup();
    assert!(matches!(fx.c.withdraw(20), Err(Error::PaymentInsufficientBalance)));
}

#[test]
fn withdraw_amount_partial() {
    let mut fx = setup();
    fx.l.mint(20, 1_000);
    fx.deposit(20, 1_000);
    let (net, _) = fx.c.withdraw_amount(20, 400).unwrap();
    assert_eq!(net, 390);
    assert_eq!(fx.c.balance_of(20), 600);
    assert_eq!(fx.c.total_deposits(), 600);
}

#[test]
fn withdraw_amount_rejects_over_balance() {
    let mut fx = setup();
    fx.l.mint(20, 1_000);
    fx.deposit(20, 500);
    assert!(matches!(fx.c.withdraw_amount(20, 600), Err(Error::PaymentInsufficientBalance)));
}

#[test]
fn escrow_create_and_release() {
    let mut fx = setup();
    fx.l.mint(30, 5_000);
    let (id, t) = fx.c.create_escrow_entry(30, 31, 2_000, SEQ + 100, SEQ).unwrap();
    fx.l.apply(&t);
    assert_eq!(id, 1);
    fx.l.apply(&fx.c.release_escrow_entry(ADMIN, id, SEQ).unwrap());
    assert_eq!(fx.l.balance(31), 2_000);
    assert_eq!(fx.c.get_escrow_entry(id).unwrap().state, EscrowState::Released);
}

#[test]
fn escrow_create_and_refund() {
    let mut fx = setup();
    fx.l.mint(30, 5_000);
    let (id, t) = fx.c.create_escrow_entry(30, 31, 2_000, SEQ + 100, SEQ).unwrap();
    fx.l.apply(&t);
    fx.l.apply(&fx.c.refund_escrow_entry(ADMIN, id, SEQ).unwrap());
    assert_eq!(fx.l.balance(30), 5_000);
    assert_eq!(fx.c.get_escrow_entry(id).unwrap().state, EscrowState::Refunded);
}

#[test]
fn escrow_release_requires_admin() {
    let mut fx = setup();
    let (id, _) = fx.c.create_escrow_entry(30, 31, 2_000, SEQ + 100, SEQ).unwrap();
    assert_eq!(fx.c.release_escrow_entry(99, id, SEQ), Err(Error::Unauthorized));
}

#[test]
fn escrow_release_after_expiry_fails() {
    let mut fx = setup();
    let (id, _) = fx.c.create_escrow_entry(30, 31, 2_000, SEQ + 5, SEQ).unwrap();
    assert_eq!(fx.c.release_escrow_entry(ADMIN, id, SEQ + 10), Err(Error::PaymentEscrowExpired));
}

#[test]
fn set_fee_rate_updates_config() {
    let mut fx = setup();
    fx.c.set_fee_rate(ADMIN, 500).unwrap();
    assert_eq!(fx.c.fee_rate(), 500);
}

#[test]
fn set_fee_rate_rejects_out_of_range() {
    let mut fx = setup();
    assert_eq!(fx.c.set_fee_rate(ADMIN, 10_001), Err(Error::PaymentInvalidFeeRate));
}

#[test]
fn set_fee_rate_requires_admin() {
    let mut fx = setup();
    assert_eq!(fx.c.set_fee_rate(99, 500), Err(Error::Unauthorized));
}

#[test]
fn withdraw_with_zero_fee() {
    let mut fx = setup();
    let fee_recipient = fx.c.fee_recipient().unwrap();
    fx.l.mint(20, 1_000);
    fx.c.set_fee_rate(ADMIN, 0).unwrap();
    fx.deposit(20, 1_000);
    let (net, moves) = fx.c.withdraw(20).unwrap();
    moves.iter().for_each(|t| fx.l.apply(t));
    assert_eq!(net, 1_000);
    assert_eq!(fx.l.balance(20), 1_000);
    assert_eq!(fx.l.balance(fee_recipient), 0);
}

// ---------------------------------------------------------------------------
// Laws and edge cases on concrete values
// ---------------------------------------------------------------------------

#[test]
fn initialize_rejects_out_of_range_fee() {
    assert!(matches!(
        ExamplePaymentsContract::initialize(CONTRACT, ADMIN, TOKEN, 10_001, FEE_RECIPIENT),
        Err(Error::PaymentInvalidFeeRate)
    ));
    assert!(ExamplePaymentsContract::initialize(CONTRACT, ADMIN, TOKEN, -1, FEE_RECIPIENT).is_err());
}

#[test]
fn withdrawal_pays_out_exactly_the_withdrawn_amount() {
    let mut fx = setup();
    fx.l.mint(20, 10_000);
    fx.deposit(20, 7_777);
    let (net, moves) = fx.c.withdraw_amount(20, 3_333).unwrap();
    assert_eq!(moves.iter().map(|t| t.amount).sum::<i128>(), 3_333);
    assert_eq!(net, 3_333 - 3_333 * 250 / 10_000);
    moves.iter().for_each(|t| fx.l.apply(t));
    assert_eq!(fx.l.balance(CONTRACT), 7_777 - 3_333);
    assert!(matches!(fx.c.withdraw_amount(20, 0), Err(Error::PaymentInvalidAmount)));
}

#[test]
fn batch_payout_is_admin_only_and_atomic() {
    let mut fx = setup();
    let recipients = vec![(40u64, 10i128), (41u64, 20i128)];
    assert!(matches!(fx.c.batch_payout(99, &recipients, &vec![true, true]), Err(PayoutError::Unauthorized)));
    let r = fx.c.batch_payout(ADMIN, &recipients, &vec![true, true]).unwrap();
    assert_eq!(r.succeeded, 2);
    assert!(fx.c.batch_payout(ADMIN, &recipients, &vec![true, false]).is_err());
    let ts: Vec<BatchTransfer> = recipients.iter().map(|(to, amount)| BatchTransfer { to: *to, amount: *amount }).collect();
    let actions = transfer_actions(CONTRACT, TOKEN, &ts);
    assert!(actions.iter().all(|a| a.from == CONTRACT));
}

#[test]
fn deposit_then_withdraw_pays_out_the_whole_deposit() {
    let mut c = ExamplePaymentsContract::initialize(CONTRACT, ADMIN, TOKEN, 250, FEE_RECIPIENT).unwrap();
    let d = c.deposit(42, 1_000).unwrap();
    assert_eq!(d, Transfer { token: TOKEN, from: 42, to: CONTRACT, amount: 1_000 });
    assert_eq!(c.balance_of(42), 1_000);
    let (net, moves) = c.withdraw(42).unwrap();
    assert_eq!(net, 975);
    assert_eq!(
        moves,
        vec![
            Transfer { token: TOKEN, from: CONTRACT, to: FEE_RECIPIENT, amount: 25 },
            Transfer { token: TOKEN, from: CONTRACT, to: 42, amount: 975 },
        ]
    );
    assert_eq!(moves.iter().map(|t| t.amount).sum::<i128>(), 1_000);
    assert_eq!(c.balance_of(42), 0);
    assert_eq!(c.withdraw(42), Err(Error::PaymentInsufficientBalance));
}

#[test]
fn expired_escrow_is_refunded_only_by_its_depositor() {
    let mut fx = setup();
    fx.l.mint(30, 5_000);
    let (id, t) = fx.c.create_escrow_entry(30, 31, 2_000, SEQ + 5, SEQ).unwrap();
    fx.l.apply(&t);
    assert_eq!(fx.c.refund_escrow_entry(ADMIN, id, SEQ + 6), Err(Error::Unauthorized));
    assert_eq!(fx.c.get_escrow_entry(id).unwrap().state, EscrowState::Active);
}
