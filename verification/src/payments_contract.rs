//! A payment gateway built on the payment primitives: deposits credited to
//! internal balances, withdrawals with a basis-point fee, admin-controlled
//! escrow and batch payouts.
use vstd::prelude::*;
use std::collections::HashMap;
use crate::batch::{
    batch_spec, BatchConfig, BatchError, BatchExecutor, BatchMode, BatchResult, DEFAULT_MAX_BATCH_SIZE,
};
use crate::errors::Error;
use crate::payments::{
    calculate_fee_split, create_escrow, fee_spec, get_escrow, lemma_fee_within_amount, moved, refund_escrow,
    release_escrow, EscrowBook, EscrowRecord, EscrowView, MAX_FEE_BPS,
};
use crate::token::Transfer;

verus! {

broadcast use vstd::std_specs::hash::group_hash_axioms;

/// The gateway's configuration.
#[derive(Clone, Copy, Debug, PartialEq, Eq, Structural)]
pub struct PaymentConfig {
    pub admin: u64,
    pub token: u64,
    pub fee_rate_bps: i128,
    pub fee_recipient: u64,
}

/// Why a batch payout was refused.
#[derive(Clone, Copy, Debug, PartialEq, Eq, Structural)]
pub enum PayoutError {
    /// The caller is not the admin.
    Unauthorized,
    /// The batch executor refused or failed the batch.
    Batch(BatchError),
}

/// Abstract state of the gateway.
pub struct PaymentsView {
    /// The gateway's own account, which holds deposits and escrows.
    pub contract: u64,
    pub config: PaymentConfig,
    pub deposited: Map<u64, i128>,
    pub total: i128,
    pub escrow: EscrowView,
    pub batch_locked: bool,
}

pub struct ExamplePaymentsContract {
    contract: u64,
    config: PaymentConfig,
    deposited: HashMap<u64, i128>,
    total: i128,
    escrow: EscrowBook,
    batch: BatchExecutor,
}

impl View for ExamplePaymentsContract {
    type V = PaymentsView;

    closed spec fn view(&self) -> PaymentsView {
        PaymentsView {
            contract: self.contract,
            config: self.config,
            deposited: self.deposited@,
            total: self.total,
            escrow: self.escrow@,
            batch_locked: self.batch.is_locked_spec(),
        }
    }
}

/// The movements of a withdrawal from the gateway: the fee to the fee
/// recipient and the net to `who`, each only when positive.
pub open spec fn payout_transfers(contract: u64, config: PaymentConfig, who: u64, fee: int, net: int) -> Seq<
    Transfer,
> {
    let first = if fee > 0 {
        seq![Transfer { token: config.token, from: contract, to: config.fee_recipient, amount: fee as i128 }]
    } else {
        Seq::empty()
    };
    if net > 0 {
        first.push(Transfer { token: config.token, from: contract, to: who, amount: net as i128 })
    } else {
        first
    }
}

impl PaymentsView {
    pub open spec fn wf(self) -> bool {
        &&& self.escrow.wf()
        &&& self.escrow.contract == self.contract
        &&& 0 <= self.config.fee_rate_bps <= MAX_FEE_BPS
        &&& forall|w: u64| #[trigger] self.deposited.contains_key(w) ==> self.deposited[w] >= 0
    }

    pub open spec fn balance(self, who: u64) -> i128 {
        if self.deposited.contains_key(who) {
            self.deposited[who]
        } else {
            0
        }
    }

    /// Outcome of `deposit`.
    pub open spec fn deposit_spec(self, from: u64, amount: i128) -> Result<PaymentsView, Error> {
        if amount <= 0 {
            Err(Error::PaymentInvalidAmount)
        } else if self.balance(from) + amount > i128::MAX || self.total + amount > i128::MAX {
            Err(Error::Overflow)
        } else {
            Ok(
                PaymentsView {
                    deposited: self.deposited.insert(from, (self.balance(from) + amount) as i128),
                    total: (self.total + amount) as i128,
                    ..self
                },
            )
        }
    }

    /// `total - x`, or 0 when that subtraction overflows.
    pub open spec fn total_less(self, x: i128) -> i128 {
        if i128::MIN <= self.total - x <= i128::MAX {
            (self.total - x) as i128
        } else {
            0
        }
    }

    /// Outcome of `withdraw`: the new state and the net paid out.
    pub open spec fn withdraw_spec(self, who: u64) -> Result<(PaymentsView, int), Error> {
        let d = self.balance(who);
        if d <= 0 {
            Err(Error::PaymentInsufficientBalance)
        } else {
            match fee_spec(d as int, self.config.fee_rate_bps as int) {
                Err(e) => Err(e),
                Ok(f) => Ok(
                    (
                        PaymentsView {
                            deposited: self.deposited.insert(who, 0),
                            total: self.total_less(d),
                            ..self
                        },
                        d - f,
                    ),
                ),
            }
        }
    }

    /// Outcome of `withdraw_amount`: the new state and the net paid out.
    pub open spec fn withdraw_amount_spec(self, who: u64, amount: i128) -> Result<(PaymentsView, int), Error> {
        let d = self.balance(who);
        if amount <= 0 {
            Err(Error::PaymentInvalidAmount)
        } else if amount > d {
            Err(Error::PaymentInsufficientBalance)
        } else {
            match fee_spec(amount as int, self.config.fee_rate_bps as int) {
                Err(e) => Err(e),
                Ok(f) => Ok(
                    (
                        PaymentsView {
                            deposited: self.deposited.insert(who, (d - amount) as i128),
                            total: self.total_less(amount),
                            ..self
                        },
                        amount - f,
                    ),
                ),
            }
        }
    }
}

impl ExamplePaymentsContract {
    pub open spec fn wf(&self) -> bool {
        self@.wf()
    }

    /// Sets up the gateway held at account `contract`; the fee rate must lie
    /// in `0..=10_000`.
    pub fn initialize(contract: u64, admin: u64, token: u64, fee_rate_bps: i128, fee_recipient: u64) -> (r:
        Result<Self, Error>)
        ensures
            !(0 <= fee_rate_bps <= MAX_FEE_BPS) ==> r is Err && r->Err_0 == Error::PaymentInvalidFeeRate,
            (0 <= fee_rate_bps <= MAX_FEE_BPS) ==> r is Ok && r->Ok_0.wf() && r->Ok_0@ == (PaymentsView {
                contract,
                config: PaymentConfig { admin, token, fee_rate_bps, fee_recipient },
                deposited: Map::empty(),
                total: 0,
                escrow: EscrowView { contract, last_id: 0, records: Map::empty(), active: Seq::empty() },
                batch_locked: false,
            }),
    {
        if fee_rate_bps < 0 || fee_rate_bps > 10_000 {
            return Err(Error::PaymentInvalidFeeRate);
        }
        Ok(
            ExamplePaymentsContract {
                contract,
                config: PaymentConfig { admin, token, fee_rate_bps, fee_recipient },
                deposited: HashMap::new(),
                total: 0,
                escrow: EscrowBook::new(contract),
                batch: BatchExecutor::new(),
            },
        )
    }

    /// The admin changes the fee rate; the rate is checked first.
    pub fn set_fee_rate(&mut self, caller: u64, new_rate_bps: i128) -> (r: Result<(), Error>)
        requires
            old(self).wf(),
        ensures
            !(0 <= new_rate_bps <= MAX_FEE_BPS) ==> r == Err::<(), Error>(Error::PaymentInvalidFeeRate)
                && final(self)@ == old(self)@,
            (0 <= new_rate_bps <= MAX_FEE_BPS) && caller != old(self)@.config.admin ==> r == Err::<(), Error>(
                Error::Unauthorized,
            ) && final(self)@ == old(self)@,
            (0 <= new_rate_bps <= MAX_FEE_BPS) && caller == old(self)@.config.admin ==> r is Ok && final(self)@
                == (PaymentsView {
                config: PaymentConfig { fee_rate_bps: new_rate_bps, ..old(self)@.config },
                ..old(self)@
            }),
            final(self).wf(),
    {
        if new_rate_bps < 0 || new_rate_bps > 10_000 {
            return Err(Error::PaymentInvalidFeeRate);
        }
        if caller != self.config.admin {
            return Err(Error::Unauthorized);
        }
        self.config.fee_rate_bps = new_rate_bps;
        Ok(())
    }

    /// The current fee rate in basis points.
    pub fn fee_rate(&self) -> (r: i128)
        ensures
            r == self@.config.fee_rate_bps,
    {
        self.config.fee_rate_bps
    }

    /// The fee recipient.
    pub fn fee_recipient(&self) -> (r: Option<u64>)
        ensures
            r == Some(self@.config.fee_recipient),
    {
        Some(self.config.fee_recipient)
    }

    /// The deposited token.
    pub fn get_token(&self) -> (r: Option<u64>)
        ensures
            r == Some(self@.config.token),
    {
        Some(self.config.token)
    }

    /// The internal balance of `who` (0 when none).
    pub fn balance_of(&self, who: u64) -> (r: i128)
        ensures
            r == self@.balance(who),
    {
        match self.deposited.get(&who) {
            Some(b) => *b,
            None => 0,
        }
    }

    /// The sum recorded over all deposits.
    pub fn total_deposits(&self) -> (r: i128)
        ensures
            r == self@.total,
    {
        self.total
    }

    /// Credits a positive `amount` to `from`; returns the deposit to make
    /// into the gateway.
    pub fn deposit(&mut self, from: u64, amount: i128) -> (r: Result<Transfer, Error>)
        requires
            old(self).wf(),
        ensures
            match old(self)@.deposit_spec(from, amount) {
                Err(e) => r == Err::<Transfer, Error>(e) && final(self)@ == old(self)@,
                Ok(v) => r == Ok::<Transfer, Error>(
                    Transfer { token: old(self)@.config.token, from, to: old(self)@.contract, amount },
                ) && final(self)@ == v,
            },
            final(self).wf(),
    {
        if amount <= 0 {
            return Err(Error::PaymentInvalidAmount);
        }
        let balance = self.balance_of(from);
        let new_balance = match balance.checked_add(amount) {
            Some(b) => b,
            None => {
                return Err(Error::Overflow);
            },
        };
        let new_total = match self.total.checked_add(amount) {
            Some(t) => t,
            None => {
                return Err(Error::Overflow);
            },
        };
        self.deposited.insert(from, new_balance);
        self.total = new_total;
        Ok(Transfer { token: self.config.token, from, to: self.contract, amount })
    }

    fn payouts(&self, who: u64, fee: i128, net: i128) -> (v: Vec<Transfer>)
        ensures
            v@ == payout_transfers(self.contract, self.config, who, fee as int, net as int),
    {
        let mut v: Vec<Transfer> = Vec::new();
        if fee > 0 {
            v.push(Transfer { token: self.config.token, from: self.contract, to: self.config.fee_recipient, amount: fee });
        }
        if net > 0 {
            v.push(Transfer { token: self.config.token, from: self.contract, to: who, amount: net });
        }
        assert(v@ =~= payout_transfers(self.contract, self.config, who, fee as int, net as int));
        v
    }

    /// Pays out the whole balance of `who`, less the fee; returns the net
    /// and the movements (fee first).
    pub fn withdraw(&mut self, who: u64) -> (r: Result<(i128, Vec<Transfer>), Error>)
        requires
            old(self).wf(),
        ensures
            match old(self)@.withdraw_spec(who) {
                Err(e) => r is Err && r->Err_0 == e && final(self)@ == old(self)@,
                Ok((v, net)) => r is Ok && r->Ok_0.0 == net && final(self)@ == v && r->Ok_0.1@ == payout_transfers(
                    old(self)@.contract,
                    old(self)@.config,
                    who,
                    old(self)@.balance(who) - net,
                    net,
                ),
            },
            final(self).wf(),
    {
        let deposited = self.balance_of(who);
        if deposited <= 0 {
            return Err(Error::PaymentInsufficientBalance);
        }
        let (fee, net) = match calculate_fee_split(deposited, self.config.fee_rate_bps) {
            Ok(p) => p,
            Err(e) => {
                return Err(e);
            },
        };
        let moves = self.payouts(who, fee, net);
        self.deposited.insert(who, 0);
        self.total = match self.total.checked_sub(deposited) {
            Some(t) => t,
            None => 0,
        };
        Ok((net, moves))
    }

    /// Pays out `amount` of the balance of `who`, less the fee; returns the
    /// net and the movements (fee first).
    pub fn withdraw_amount(&mut self, who: u64, amount: i128) -> (r: Result<(i128, Vec<Transfer>), Error>)
        requires
            old(self).wf(),
        ensures
            match old(self)@.withdraw_amount_spec(who, amount) {
                Err(e) => r is Err && r->Err_0 == e && final(self)@ == old(self)@,
                Ok((v, net)) => r is Ok && r->Ok_0.0 == net && final(self)@ == v && r->Ok_0.1@ == payout_transfers(
                    old(self)@.contract,
                    old(self)@.config,
                    who,
                    amount - net,
                    net,
                ),
            },
            final(self).wf(),
    {
        if amount <= 0 {
            return Err(Error::PaymentInvalidAmount);
        }
        let deposited = self.balance_of(who);
        if amount > deposited {
            return Err(Error::PaymentInsufficientBalance);
        }
        let (fee, net) = match calculate_fee_split(amount, self.config.fee_rate_bps) {
            Ok(p) => p,
            Err(e) => {
                return Err(e);
            },
        };
        let moves = self.payouts(who, fee, net);
        self.deposited.insert(who, deposited - amount);
        self.total = match self.total.checked_sub(amount) {
            Some(t) => t,
            None => 0,
        };
        Ok((net, moves))
    }

    /// Escrows `amount` of the gateway's token from `depositor` for
    /// `beneficiary` until `expiry_ledger`, at ledger `seq`.
    pub fn create_escrow_entry(
        &mut self,
        depositor: u64,
        beneficiary: u64,
        amount: i128,
        expiry_ledger: u32,
        seq: u32,
    ) -> (r: Result<(u64, Transfer), Error>)
        requires
            old(self).wf(),
        ensures
            match old(self)@.escrow.create_spec(
                old(self)@.config.token,
                depositor,
                beneficiary,
                amount,
                expiry_ledger,
                seq,
            ) {
                Err(e) => r == Err::<(u64, Transfer), Error>(e) && final(self)@ == old(self)@,
                Ok(v) => r == Ok::<(u64, Transfer), Error>(
                    (
                        (old(self)@.escrow.last_id + 1) as u64,
                        Transfer { token: old(self)@.config.token, from: depositor, to: old(self)@.contract, amount },
                    ),
                ) && final(self)@ == (PaymentsView { escrow: v, ..old(self)@ }),
            },
            final(self).wf(),
    {
        create_escrow(&mut self.escrow, self.config.token, depositor, beneficiary, amount, expiry_ledger, seq)
    }

    /// The admin releases an escrow to its beneficiary at ledger `seq`.
    pub fn release_escrow_entry(&mut self, caller: u64, escrow_id: u64, seq: u32) -> (r: Result<Transfer, Error>)
        requires
            old(self).wf(),
        ensures
            caller != old(self)@.config.admin ==> r == Err::<Transfer, Error>(Error::Unauthorized) && final(self)@
                == old(self)@,
            caller == old(self)@.config.admin ==> match old(self)@.escrow.release_spec(escrow_id, seq) {
                Err(e) => r == Err::<Transfer, Error>(e) && final(self)@ == old(self)@,
                Ok(v) => r == Ok::<Transfer, Error>(
                    Transfer {
                        token: old(self)@.config.token,
                        from: old(self)@.contract,
                        to: old(self)@.escrow.records[escrow_id].beneficiary,
                        amount: old(self)@.escrow.records[escrow_id].amount,
                    },
                ) && final(self)@ == (PaymentsView { escrow: v, ..old(self)@ }),
            },
            final(self).wf(),
    {
        if caller != self.config.admin {
            return Err(Error::Unauthorized);
        }
        release_escrow(&mut self.escrow, self.config.token, escrow_id, seq)
    }

    /// The admin refunds an escrow to its depositor at ledger `seq`; once
    /// the escrow has expired, only an admin who is also its depositor can.
    pub fn refund_escrow_entry(&mut self, caller: u64, escrow_id: u64, seq: u32) -> (r: Result<Transfer, Error>)
        requires
            old(self).wf(),
        ensures
            caller != old(self)@.config.admin ==> r == Err::<Transfer, Error>(Error::Unauthorized) && final(self)@
                == old(self)@,
            caller == old(self)@.config.admin ==> match old(self)@.escrow.refund_spec(caller, escrow_id, seq) {
                Err(e) => r == Err::<Transfer, Error>(e) && final(self)@ == old(self)@,
                Ok(v) => r == Ok::<Transfer, Error>(
                    Transfer {
                        token: old(self)@.config.token,
                        from: old(self)@.contract,
                        to: old(self)@.escrow.records[escrow_id].depositor,
                        amount: old(self)@.escrow.records[escrow_id].amount,
                    },
                ) && final(self)@ == (PaymentsView { escrow: v, ..old(self)@ }),
            },
            final(self).wf(),
    {
        if caller != self.config.admin {
            return Err(Error::Unauthorized);
        }
        refund_escrow(&mut self.escrow, self.config.token, caller, escrow_id, seq)
    }

    /// The escrow record of `escrow_id`, if any.
    pub fn get_escrow_entry(&self, escrow_id: u64) -> (r: Option<EscrowRecord>)
        ensures
            self@.escrow.records.contains_key(escrow_id) ==> r == Some(self@.escrow.records[escrow_id]),
            !self@.escrow.records.contains_key(escrow_id) ==> r is None,
    {
        get_escrow(&self.escrow, escrow_id)
    }

    /// The admin pays each `(recipient, amount)` from the gateway's balance
    /// in one atomic batch; `outcomes[i]` reports whether payment `i` went
    /// through.
    pub fn batch_payout(&mut self, caller: u64, recipients: &Vec<(u64, i128)>, outcomes: &Vec<bool>) -> (r:
        Result<BatchResult, PayoutError>)
        requires
            old(self).wf(),
            outcomes@.len() == recipients@.len(),
        ensures
            caller != old(self)@.config.admin ==> r is Err && r->Err_0 == PayoutError::Unauthorized,
            caller == old(self)@.config.admin ==> match r {
                Ok(b) => batch_spec(
                    BatchConfig { mode: BatchMode::Atomic, max_operations: DEFAULT_MAX_BATCH_SIZE },
                    recipients@.len(),
                    forall|i: int| 0 <= i < recipients@.len() ==> #[trigger] recipients@[i].1 > 0,
                    old(self)@.batch_locked,
                    outcomes@,
                    Ok::<BatchResult, BatchError>(b),
                ),
                Err(PayoutError::Batch(e)) => batch_spec(
                    BatchConfig { mode: BatchMode::Atomic, max_operations: DEFAULT_MAX_BATCH_SIZE },
                    recipients@.len(),
                    forall|i: int| 0 <= i < recipients@.len() ==> #[trigger] recipients@[i].1 > 0,
                    old(self)@.batch_locked,
                    outcomes@,
                    Err::<BatchResult, BatchError>(e),
                ),
                Err(PayoutError::Unauthorized) => false,
            },
            final(self)@ == old(self)@,
            final(self).wf(),
    {
        if caller != self.config.admin {
            return Err(PayoutError::Unauthorized);
        }
        match self.batch.multi_transfer_all(self.contract, self.config.token, recipients, outcomes) {
            Ok(b) => Ok(b),
            Err(e) => Err(PayoutError::Batch(e)),
        }
    }
}

/// What is deposited can be withdrawn: after a deposit of `amount`, the
/// account's balance grows by exactly `amount`, and withdrawing it pays
/// the whole balance out (the fee and the net together, nothing more),
/// leaving the account empty. Excluded: balances whose fee computation
/// overflows.
pub proof fn lemma_deposit_then_withdraw(v: PaymentsView, from: u64, amount: i128)
    requires
        v.wf(),
        v.deposit_spec(from, amount) is Ok,
        (v.balance(from) + amount) * v.config.fee_rate_bps <= i128::MAX,
    ensures
        ({
            let w = v.deposit_spec(from, amount)->Ok_0;
            let d = w.balance(from);
            &&& d == v.balance(from) + amount
            &&& w.withdraw_spec(from) is Ok
            &&& ({
                let (x, net) = w.withdraw_spec(from)->Ok_0;
                &&& x.balance(from) == 0
                &&& 0 <= net <= d
                &&& moved(payout_transfers(w.contract, w.config, from, d - net, net)) == d
            })
        }),
{
    let w = v.deposit_spec(from, amount)->Ok_0;
    let d = w.balance(from);
    assert(v.balance(from) >= 0);
    lemma_fee_within_amount(d as int, w.config.fee_rate_bps as int);
    let f = fee_spec(d as int, w.config.fee_rate_bps as int)->Ok_0;
    let net = d - f;
    let ts = payout_transfers(w.contract, w.config, from, d - net, net);
    let first = if f > 0 {
        seq![Transfer { token: w.config.token, from: w.contract, to: w.config.fee_recipient, amount: f as i128 }]
    } else {
        Seq::<Transfer>::empty()
    };
    assert(moved(first) == if f > 0 { f } else { 0 }) by {
        assert(moved(Seq::<Transfer>::empty()) == 0);
        if f > 0 {
            assert(first.drop_last() =~= Seq::<Transfer>::empty());
        }
    }
    if net > 0 {
        assert(ts.drop_last() =~= first);
    } else {
        assert(ts =~= first);
    }
}

} // verus!
