//! Payment primitives: validated transfers, basis-point fees and a
//! pull-based escrow book with expiry and refund.
//!
//! Every operation returns the token movements it requires as
//! [`Transfer`] actions, in the order in which they are to be made.
use vstd::prelude::*;
use std::collections::HashMap;
use crate::errors::Error;
use crate::token::Transfer;

verus! {

broadcast use vstd::std_specs::hash::group_hash_axioms;

/// Basis-point denominator (10 000 bps = 100 %).
pub const BPS_DENOM: i128 = 10_000;

/// Largest fee rate accepted (100 %).
pub const MAX_FEE_BPS: i128 = 10_000;

/// Fee configuration of a payment route.
#[derive(Clone, Copy, Debug, PartialEq, Eq, Structural)]
pub struct FeeConfig {
    /// Fee rate in basis points (0..=10 000).
    pub rate_bps: i128,
    /// Account that receives the fee.
    pub recipient: u64,
}

/// Lifecycle state of an escrow deposit.
#[derive(Clone, Copy, Debug, PartialEq, Eq, Structural)]
pub enum EscrowState {
    Active,
    Released,
    Refunded,
}

/// One escrow deposit.
#[derive(Clone, Copy, Debug, PartialEq, Eq, Structural)]
pub struct EscrowRecord {
    pub id: u64,
    pub depositor: u64,
    pub beneficiary: u64,
    pub token: u64,
    pub amount: i128,
    /// Ledger sequence after which only a refund is possible.
    pub expiry_ledger: u32,
    pub state: EscrowState,
}

/// `Ok` exactly when `amount` is strictly positive.
pub fn validate_amount(amount: i128) -> (r: Result<(), Error>)
    ensures
        amount > 0 ==> r is Ok,
        amount <= 0 ==> r == Err::<(), Error>(Error::PaymentInvalidAmount),
{
    if amount <= 0 {
        return Err(Error::PaymentInvalidAmount);
    }
    Ok(())
}

/// `Ok` exactly when `rate_bps` lies in `0..=10_000`.
pub fn validate_fee_rate(rate_bps: i128) -> (r: Result<(), Error>)
    ensures
        0 <= rate_bps <= MAX_FEE_BPS ==> r is Ok,
        !(0 <= rate_bps <= MAX_FEE_BPS) ==> r == Err::<(), Error>(Error::PaymentInvalidFeeRate),
{
    if rate_bps < 0 || rate_bps > MAX_FEE_BPS {
        return Err(Error::PaymentInvalidFeeRate);
    }
    Ok(())
}

/// The outcome of `calculate_fee`: the fee `amount * rate_bps / 10_000`,
/// rounded down, after validating both inputs.
pub open spec fn fee_spec(amount: int, rate_bps: int) -> Result<int, Error> {
    if amount <= 0 {
        Err(Error::PaymentInvalidAmount)
    } else if !(0 <= rate_bps <= MAX_FEE_BPS) {
        Err(Error::PaymentInvalidFeeRate)
    } else if amount * rate_bps > i128::MAX {
        Err(Error::PaymentFeeOverflow)
    } else {
        Ok(amount * rate_bps / (BPS_DENOM as int))
    }
}

/// A fee never exceeds the amount it is taken from, and is never negative.
pub proof fn lemma_fee_within_amount(amount: int, rate_bps: int)
    requires
        fee_spec(amount, rate_bps) is Ok,
    ensures
        0 <= fee_spec(amount, rate_bps)->Ok_0 <= amount,
{
    assert(0 <= amount * rate_bps <= amount * 10000) by (nonlinear_arith)
        requires
            amount > 0,
            0 <= rate_bps <= 10000,
    ;
    assert(0 <= amount * rate_bps / 10000 <= amount) by (nonlinear_arith)
        requires
            0 <= amount * rate_bps <= amount * 10000,
    ;
}

/// The fee for `amount` at `rate_bps`, rounded toward zero.
pub fn calculate_fee(amount: i128, rate_bps: i128) -> (r: Result<i128, Error>)
    ensures
        match fee_spec(amount as int, rate_bps as int) {
            Ok(f) => r == Ok::<i128, Error>(f as i128),
            Err(e) => r == Err::<i128, Error>(e),
        },
        r is Ok ==> 0 <= r->Ok_0 <= amount,
{
    validate_amount(amount)?;
    validate_fee_rate(rate_bps)?;
    let product = match amount.checked_mul(rate_bps) {
        Some(p) => p,
        None => {
            return Err(Error::PaymentFeeOverflow);
        },
    };
    proof {
        assert(product >= 0) by (nonlinear_arith)
            requires
                product == amount * rate_bps,
                amount > 0,
                rate_bps >= 0,
        ;
        lemma_fee_within_amount(amount as int, rate_bps as int);
    }
    Ok(product / BPS_DENOM)
}

/// The fee and the net amount (`amount - fee`) together.
pub fn calculate_fee_split(amount: i128, rate_bps: i128) -> (r: Result<(i128, i128), Error>)
    ensures
        match fee_spec(amount as int, rate_bps as int) {
            Ok(f) => r == Ok::<(i128, i128), Error>((f as i128, (amount - f) as i128)),
            Err(e) => r == Err::<(i128, i128), Error>(e),
        },
        r is Ok ==> r->Ok_0.0 + r->Ok_0.1 == amount && r->Ok_0.1 >= 0,
{
    let fee = calculate_fee(amount, rate_bps)?;
    let net = amount - fee;
    Ok((fee, net))
}

/// A validated movement of `amount` of `token` from `from` to `to`.
pub fn safe_transfer(token: u64, from: u64, to: u64, amount: i128) -> (r: Result<Transfer, Error>)
    ensures
        amount > 0 ==> r == Ok::<Transfer, Error>(Transfer { token, from, to, amount }),
        amount <= 0 ==> r == Err::<Transfer, Error>(Error::PaymentInvalidAmount),
{
    validate_amount(amount)?;
    Ok(Transfer { token, from, to, amount })
}

/// A validated payout of `amount` of `token` from the contract `contract`
/// to `to`.
pub fn safe_transfer_from_contract(contract: u64, token: u64, to: u64, amount: i128) -> (r: Result<
    Transfer,
    Error,
>)
    ensures
        amount > 0 ==> r == Ok::<Transfer, Error>(Transfer { token, from: contract, to, amount }),
        amount <= 0 ==> r == Err::<Transfer, Error>(Error::PaymentInvalidAmount),
{
    validate_amount(amount)?;
    Ok(Transfer { token, from: contract, to, amount })
}

/// The movements of a payment of `amount` split into `fee` (to the fee
/// recipient) and `net` (to `to`); a zero part moves nothing.
pub open spec fn fee_transfers(token: u64, from: u64, fee_cfg: FeeConfig, to: u64, fee: i128, net: i128) -> Seq<
    Transfer,
> {
    let first = if fee > 0 {
        seq![Transfer { token, from, to: fee_cfg.recipient, amount: fee }]
    } else {
        Seq::empty()
    };
    if net > 0 {
        first.push(Transfer { token, from, to, amount: net })
    } else {
        first
    }
}

/// Splits `amount` by the configured fee: the fee goes to the fee recipient,
/// the rest to `to`. Returns the net amount and the movements to make.
pub fn deduct_fee(token: u64, from: u64, fee_cfg: &FeeConfig, amount: i128, to: u64) -> (r: Result<
    (i128, Vec<Transfer>),
    Error,
>)
    ensures
        match fee_spec(amount as int, fee_cfg.rate_bps as int) {
            Ok(f) => r is Ok && r->Ok_0.0 == amount - f && r->Ok_0.1@ == fee_transfers(
                token,
                from,
                *fee_cfg,
                to,
                f as i128,
                (amount - f) as i128,
            ),
            Err(e) => r is Err && r->Err_0 == e,
        },
{
    let (fee, net) = match calculate_fee_split(amount, fee_cfg.rate_bps) {
        Ok(p) => p,
        Err(e) => {
            return Err(e);
        },
    };
    let mut moves: Vec<Transfer> = Vec::new();
    if fee > 0 {
        moves.push(Transfer { token, from, to: fee_cfg.recipient, amount: fee });
    }
    if net > 0 {
        moves.push(Transfer { token, from, to, amount: net });
    }
    proof {
        assert(moves@ =~= fee_transfers(token, from, *fee_cfg, to, fee, net));
    }
    Ok((net, moves))
}

/// `s` with every occurrence of `x` removed, order kept.
pub open spec fn remove_all(s: Seq<u64>, x: u64) -> Seq<u64>
    decreases s.len(),
{
    if s.len() == 0 {
        s
    } else {
        let prev = remove_all(s.drop_last(), x);
        if s.last() == x {
            prev
        } else {
            prev.push(s.last())
        }
    }
}

/// Abstract state of an escrow book.
pub struct EscrowView {
    /// The account of the contract that holds escrowed funds.
    pub contract: u64,
    /// The last escrow id handed out (ids count up from 1).
    pub last_id: u64,
    pub records: Map<u64, EscrowRecord>,
    /// Ids of the escrows still active, in creation order.
    pub active: Seq<u64>,
}

/// The escrow records of one contract.
pub struct EscrowBook {
    contract: u64,
    last_id: u64,
    records: HashMap<u64, EscrowRecord>,
    active: Vec<u64>,
}

impl View for EscrowBook {
    type V = EscrowView;

    closed spec fn view(&self) -> EscrowView {
        EscrowView {
            contract: self.contract,
            last_id: self.last_id,
            records: self.records@,
            active: self.active@,
        }
    }
}

impl EscrowView {
    pub open spec fn wf(self) -> bool {
        forall|id: u64| #[trigger] self.records.contains_key(id) ==> 1 <= id <= self.last_id && self.records[id].id
            == id
    }

    /// Outcome of `create_escrow` at ledger `seq`.
    pub open spec fn create_spec(
        self,
        token: u64,
        depositor: u64,
        beneficiary: u64,
        amount: i128,
        expiry_ledger: u32,
        seq: u32,
    ) -> Result<EscrowView, Error> {
        if amount <= 0 {
            Err(Error::PaymentInvalidAmount)
        } else if expiry_ledger <= seq {
            Err(Error::InvalidArgument)
        } else if self.last_id == u64::MAX {
            Err(Error::PaymentEscrowIdOverflow)
        } else {
            let id = (self.last_id + 1) as u64;
            Ok(
                EscrowView {
                    last_id: id,
                    records: self.records.insert(
                        id,
                        EscrowRecord {
                            id,
                            depositor,
                            beneficiary,
                            token,
                            amount,
                            expiry_ledger,
                            state: EscrowState::Active,
                        },
                    ),
                    active: self.active.push(id),
                    ..self
                },
            )
        }
    }

    /// The state after escrow `id` leaves the active set in `state`.
    pub open spec fn settle(self, id: u64, state: EscrowState) -> EscrowView {
        EscrowView {
            records: self.records.insert(id, EscrowRecord { state, ..self.records[id] }),
            active: remove_all(self.active, id),
            ..self
        }
    }

    /// Outcome of `release_escrow` at ledger `seq`.
    pub open spec fn release_spec(self, escrow_id: u64, seq: u32) -> Result<EscrowView, Error> {
        if !self.records.contains_key(escrow_id) {
            Err(Error::PaymentEscrowNotFound)
        } else if self.records[escrow_id].state == EscrowState::Released {
            Err(Error::PaymentEscrowAlreadyReleased)
        } else if self.records[escrow_id].state == EscrowState::Refunded {
            Err(Error::PaymentEscrowAlreadyRefunded)
        } else if seq > self.records[escrow_id].expiry_ledger {
            Err(Error::PaymentEscrowExpired)
        } else {
            Ok(self.settle(escrow_id, EscrowState::Released))
        }
    }

    /// Outcome of `refund_escrow`.
    pub open spec fn refund_spec(self, caller: u64, escrow_id: u64, seq: u32) -> Result<EscrowView, Error> {
        if !self.records.contains_key(escrow_id) {
            Err(Error::PaymentEscrowNotFound)
        } else if self.records[escrow_id].state == EscrowState::Released {
            Err(Error::PaymentEscrowAlreadyReleased)
        } else if self.records[escrow_id].state == EscrowState::Refunded {
            Err(Error::PaymentEscrowAlreadyRefunded)
        } else if seq > self.records[escrow_id].expiry_ledger && caller != self.records[escrow_id].depositor {
            Err(Error::Unauthorized)
        } else {
            Ok(self.settle(escrow_id, EscrowState::Refunded))
        }
    }
}

impl EscrowBook {
    pub open spec fn wf(&self) -> bool {
        self@.wf()
    }

    /// An empty book for the contract at account `contract`.
    pub fn new(contract: u64) -> (b: Self)
        ensures
            b@ == (EscrowView { contract, last_id: 0, records: Map::empty(), active: Seq::empty() }),
            b.wf(),
    {
        let b = EscrowBook { contract, last_id: 0, records: HashMap::new(), active: Vec::new() };
        assert(b@.active =~= Seq::<u64>::empty());
        b
    }

    /// Ids of the escrows still active, in creation order.
    pub fn active_escrows(&self) -> (r: Vec<u64>)
        ensures
            r@ == self@.active,
    {
        let r = self.active.clone();
        assert(r@ =~= self.active@);
        r
    }

    /// Drops `escrow_id` from the active set.
    fn remove_from_active(&mut self, escrow_id: u64)
        ensures
            final(self)@ == (EscrowView { active: remove_all(old(self)@.active, escrow_id), ..old(self)@ }),
    {
        let mut updated: Vec<u64> = Vec::new();
        let mut i: usize = 0;
        while i < self.active.len()
            invariant
                i <= self.active.len(),
                self@ == old(self)@,
                updated@ == remove_all(self.active@.subrange(0, i as int), escrow_id),
            decreases self.active.len() - i,
        {
            let id = self.active[i];
            if id != escrow_id {
                updated.push(id);
            }
            proof {
                assert(self.active@.subrange(0, i + 1).drop_last() =~= self.active@.subrange(0, i as int));
            }
            i = i + 1;
        }
        proof {
            assert(self.active@.subrange(0, self.active@.len() as int) =~= self.active@);
        }
        self.active = updated;
    }
}

/// Escrows `amount` of `token` from `depositor` for `beneficiary` until
/// `expiry_ledger`, at ledger `seq`. Returns the new escrow id (ids count up
/// from 1) and the deposit into the contract.
pub fn create_escrow(
    book: &mut EscrowBook,
    token: u64,
    depositor: u64,
    beneficiary: u64,
    amount: i128,
    expiry_ledger: u32,
    seq: u32,
) -> (r: Result<(u64, Transfer), Error>)
    requires
        old(book).wf(),
    ensures
        match old(book)@.create_spec(token, depositor, beneficiary, amount, expiry_ledger, seq) {
            Err(e) => r == Err::<(u64, Transfer), Error>(e) && final(book)@ == old(book)@,
            Ok(v) => r == Ok::<(u64, Transfer), Error>(
                (
                    (old(book)@.last_id + 1) as u64,
                    Transfer { token, from: depositor, to: old(book)@.contract, amount },
                ),
            ) && final(book)@ == v,
        },
        final(book).wf(),
{
    validate_amount(amount)?;
    if expiry_ledger <= seq {
        return Err(Error::InvalidArgument);
    }
    let id = match book.last_id.checked_add(1) {
        Some(n) => n,
        None => {
            return Err(Error::PaymentEscrowIdOverflow);
        },
    };
    book.last_id = id;
    book.records.insert(
        id,
        EscrowRecord { id, depositor, beneficiary, token, amount, expiry_ledger, state: EscrowState::Active },
    );
    book.active.push(id);
    Ok((id, Transfer { token, from: depositor, to: book.contract, amount }))
}

/// Releases an active, unexpired escrow to its beneficiary at ledger `seq`,
/// paying out in `token`.
pub fn release_escrow(book: &mut EscrowBook, token: u64, escrow_id: u64, seq: u32) -> (r: Result<
    Transfer,
    Error,
>)
    requires
        old(book).wf(),
    ensures
        match old(book)@.release_spec(escrow_id, seq) {
            Err(e) => r == Err::<Transfer, Error>(e) && final(book)@ == old(book)@,
            Ok(v) => r == Ok::<Transfer, Error>(
                Transfer {
                    token,
                    from: old(book)@.contract,
                    to: old(book)@.records[escrow_id].beneficiary,
                    amount: old(book)@.records[escrow_id].amount,
                },
            ) && final(book)@ == v,
        },
        final(book).wf(),
{
    let record = match book.records.get(&escrow_id) {
        Some(r) => *r,
        None => {
            return Err(Error::PaymentEscrowNotFound);
        },
    };
    if record.state == EscrowState::Released {
        return Err(Error::PaymentEscrowAlreadyReleased);
    }
    if record.state == EscrowState::Refunded {
        return Err(Error::PaymentEscrowAlreadyRefunded);
    }
    if seq > record.expiry_ledger {
        return Err(Error::PaymentEscrowExpired);
    }
    book.records.insert(escrow_id, EscrowRecord { state: EscrowState::Released, ..record });
    book.remove_from_active(escrow_id);
    Ok(Transfer { token, from: book.contract, to: record.beneficiary, amount: record.amount })
}

/// `caller` refunds an active escrow to its depositor at ledger `seq`,
/// paying out in `token`. Before the expiry ledger has passed anyone may
/// refund; after it, only the depositor.
pub fn refund_escrow(book: &mut EscrowBook, token: u64, caller: u64, escrow_id: u64, seq: u32) -> (r: Result<
    Transfer,
    Error,
>)
    requires
        old(book).wf(),
    ensures
        match old(book)@.refund_spec(caller, escrow_id, seq) {
            Err(e) => r == Err::<Transfer, Error>(e) && final(book)@ == old(book)@,
            Ok(v) => r == Ok::<Transfer, Error>(
                Transfer {
                    token,
                    from: old(book)@.contract,
                    to: old(book)@.records[escrow_id].depositor,
                    amount: old(book)@.records[escrow_id].amount,
                },
            ) && final(book)@ == v,
        },
        final(book).wf(),
{
    let record = match book.records.get(&escrow_id) {
        Some(r) => *r,
        None => {
            return Err(Error::PaymentEscrowNotFound);
        },
    };
    if record.state == EscrowState::Released {
        return Err(Error::PaymentEscrowAlreadyReleased);
    }
    if record.state == EscrowState::Refunded {
        return Err(Error::PaymentEscrowAlreadyRefunded);
    }
    if seq > record.expiry_ledger && caller != record.depositor {
        return Err(Error::Unauthorized);
    }
    book.records.insert(escrow_id, EscrowRecord { state: EscrowState::Refunded, ..record });
    book.remove_from_active(escrow_id);
    Ok(Transfer { token, from: book.contract, to: record.depositor, amount: record.amount })
}

/// The escrow record of `escrow_id`, if any.
pub fn get_escrow(book: &EscrowBook, escrow_id: u64) -> (r: Option<EscrowRecord>)
    ensures
        book@.records.contains_key(escrow_id) ==> r == Some(book@.records[escrow_id]),
        !book@.records.contains_key(escrow_id) ==> r is None,
{
    match book.records.get(&escrow_id) {
        Some(rec) => Some(*rec),
        None => None,
    }
}

/// The total moved by a list of transfers.
pub open spec fn moved(ts: Seq<Transfer>) -> int
    decreases ts.len(),
{
    if ts.len() == 0 {
        0
    } else {
        moved(ts.drop_last()) + ts.last().amount
    }
}

/// A fee deduction moves exactly the amount paid: the fee and the net
/// together, nothing more and nothing less.
pub proof fn lemma_fee_deduction_moves_amount(token: u64, from: u64, fee_cfg: FeeConfig, amount: i128, to: u64)
    requires
        fee_spec(amount as int, fee_cfg.rate_bps as int) is Ok,
    ensures
        ({
            let f = fee_spec(amount as int, fee_cfg.rate_bps as int)->Ok_0;
            moved(fee_transfers(token, from, fee_cfg, to, f as i128, (amount - f) as i128)) == amount
        }),
{
    let f = fee_spec(amount as int, fee_cfg.rate_bps as int)->Ok_0;
    lemma_fee_within_amount(amount as int, fee_cfg.rate_bps as int);
    let ts = fee_transfers(token, from, fee_cfg, to, f as i128, (amount - f) as i128);
    let first = if f > 0 {
        seq![Transfer { token, from, to: fee_cfg.recipient, amount: f as i128 }]
    } else {
        Seq::<Transfer>::empty()
    };
    assert(moved(first) == if f > 0 { f } else { 0 }) by {
        assert(moved(Seq::<Transfer>::empty()) == 0);
        if f > 0 {
            assert(first.drop_last() =~= Seq::<Transfer>::empty());
            assert(first.last().amount == f as i128);
        }
    }
    if amount - f > 0 {
        assert(ts.drop_last() =~= first);
    } else {
        assert(ts =~= first);
    }
}

/// An escrow pays out at most once: after it is released or refunded,
/// every further release or refund of it, by anyone, is refused.
pub proof fn lemma_escrow_pays_out_once(
    v: EscrowView,
    escrow_id: u64,
    caller: u64,
    seq: u32,
    later_caller: u64,
    later_seq: u32,
)
    requires
        v.wf(),
    ensures
        v.release_spec(escrow_id, seq) is Ok ==> {
            let w = v.release_spec(escrow_id, seq)->Ok_0;
            &&& w.release_spec(escrow_id, later_seq) == Err::<EscrowView, Error>(
                Error::PaymentEscrowAlreadyReleased,
            )
            &&& w.refund_spec(later_caller, escrow_id, later_seq) == Err::<EscrowView, Error>(
                Error::PaymentEscrowAlreadyReleased,
            )
        },
        v.refund_spec(caller, escrow_id, seq) is Ok ==> {
            let w = v.refund_spec(caller, escrow_id, seq)->Ok_0;
            &&& w.release_spec(escrow_id, later_seq) == Err::<EscrowView, Error>(
                Error::PaymentEscrowAlreadyRefunded,
            )
            &&& w.refund_spec(later_caller, escrow_id, later_seq) == Err::<EscrowView, Error>(
                Error::PaymentEscrowAlreadyRefunded,
            )
        },
{
}

/// After its expiry ledger only the depositor can refund an active escrow:
/// anyone else is refused and nothing changes, while the depositor gets
/// the escrow back.
pub proof fn lemma_refund_after_expiry_only_by_depositor(v: EscrowView, caller: u64, escrow_id: u64, seq: u32)
    requires
        v.records.contains_key(escrow_id),
        v.records[escrow_id].state == EscrowState::Active,
        seq > v.records[escrow_id].expiry_ledger,
    ensures
        caller != v.records[escrow_id].depositor ==> v.refund_spec(caller, escrow_id, seq) == Err::<
            EscrowView,
            Error,
        >(Error::Unauthorized),
        v.refund_spec(v.records[escrow_id].depositor, escrow_id, seq) == Ok::<EscrowView, Error>(
            v.settle(escrow_id, EscrowState::Refunded),
        ),
{
}

/// Escrow ids are handed out in sequence: each new escrow gets the id
/// after the previous one.
pub proof fn lemma_escrow_ids_sequential(
    v: EscrowView,
    token: u64,
    depositor: u64,
    beneficiary: u64,
    amount: i128,
    expiry_ledger: u32,
    seq: u32,
)
    requires
        v.wf(),
        v.create_spec(token, depositor, beneficiary, amount, expiry_ledger, seq) is Ok,
    ensures
        ({
            let w = v.create_spec(token, depositor, beneficiary, amount, expiry_ledger, seq)->Ok_0;
            &&& w.last_id == v.last_id + 1
            &&& w.records.contains_key(w.last_id)
            &&& !v.records.contains_key(w.last_id)
        }),
{
}

} // verus!
