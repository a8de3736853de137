//! Batch execution of ordered operations with atomic or best-effort
//! semantics.
//!
//! Admission is decided before anything runs: the configuration, the batch
//! size, every operation's arguments and the re-entrancy guard are checked
//! in that order. The host then performs the operations and reports, for
//! each one, whether it went through; the executor turns those outcomes into
//! the batch result. In atomic mode a single failure fails the whole batch.
use vstd::prelude::*;
use crate::token::Transfer;

verus! {

/// Default maximum number of operations in a single batch.
pub const DEFAULT_MAX_BATCH_SIZE: u32 = 50;

/// Hard ceiling: no batch may exceed this regardless of configuration.
pub const ABSOLUTE_MAX_BATCH_SIZE: u32 = 100;

/// Code recorded for an operation that the host reported as failed.
pub const FAILED_OPERATION_CODE: u32 = 3;

/// Errors of batch execution (codes 800-805).
#[derive(Clone, Copy, Debug, PartialEq, Eq, Structural)]
pub enum BatchError {
    BatchTooLarge,
    OperationFailed,
    InvalidConfig,
    InvalidOperation,
    EmptyBatch,
    ReentrancyDetected,
}

impl BatchError {
    pub open spec fn spec_code(&self) -> u32 {
        match self {
            BatchError::BatchTooLarge => 800,
            BatchError::OperationFailed => 801,
            BatchError::InvalidConfig => 802,
            BatchError::InvalidOperation => 803,
            BatchError::EmptyBatch => 804,
            BatchError::ReentrancyDetected => 805,
        }
    }

    /// The numeric code of this error.
    pub fn code(&self) -> (c: u32)
        ensures
            c == self.spec_code(),
    {
        match self {
            BatchError::BatchTooLarge => 800,
            BatchError::OperationFailed => 801,
            BatchError::InvalidConfig => 802,
            BatchError::InvalidOperation => 803,
            BatchError::EmptyBatch => 804,
            BatchError::ReentrancyDetected => 805,
        }
    }
}

/// Execution mode of a batch.
#[derive(Clone, Copy, Debug, PartialEq, Eq, Structural)]
pub enum BatchMode {
    /// All operations must succeed or the whole batch fails.
    Atomic,
    /// Individual failures are recorded; successful operations persist.
    NonAtomic,
}

/// How a batch is executed.
#[derive(Clone, Copy, Debug, PartialEq, Eq, Structural)]
pub struct BatchConfig {
    pub mode: BatchMode,
    /// Must lie in `1..=ABSOLUTE_MAX_BATCH_SIZE`.
    pub max_operations: u32,
}

impl BatchConfig {
    /// Atomic configuration with the default size limit.
    pub fn atomic_default() -> (c: Self)
        ensures
            c.mode == BatchMode::Atomic,
            c.max_operations == DEFAULT_MAX_BATCH_SIZE,
    {
        BatchConfig { mode: BatchMode::Atomic, max_operations: DEFAULT_MAX_BATCH_SIZE }
    }

    /// Non-atomic configuration with the default size limit.
    pub fn non_atomic_default() -> (c: Self)
        ensures
            c.mode == BatchMode::NonAtomic,
            c.max_operations == DEFAULT_MAX_BATCH_SIZE,
    {
        BatchConfig { mode: BatchMode::NonAtomic, max_operations: DEFAULT_MAX_BATCH_SIZE }
    }
}

/// One transfer of a batch; the sender is always the batch's caller.
#[derive(Clone, Copy, Debug, PartialEq, Eq, Structural)]
pub struct BatchTransfer {
    pub to: u64,
    pub amount: i128,
}

/// A call of a function (by id) on a contract (by id).
#[derive(Clone, Copy, Debug, PartialEq, Eq, Structural)]
pub struct ContractCall {
    pub contract: u64,
    pub function: u64,
}

/// Result of one operation of a batch.
#[derive(Clone, Copy, Debug, PartialEq, Eq, Structural)]
pub enum OperationResult {
    Success,
    Failure(u32),
    Skipped,
}

/// Aggregated result of a batch.
#[derive(Debug)]
pub struct BatchResult {
    pub results: Vec<OperationResult>,
    pub total: u32,
    pub succeeded: u32,
    pub failed: u32,
    pub reverted: bool,
}

/// The event a finished batch publishes.
#[derive(Clone, Copy, Debug, PartialEq, Eq, Structural)]
pub enum BatchEvent {
    /// Every operation succeeded, or the batch was reverted:
    /// `(total, succeeded, failed, reverted)`.
    Completed(u32, u32, u32, bool),
    /// A best-effort batch finished with some failures:
    /// `(total, succeeded, failed)`.
    Partial(u32, u32, u32),
}

/// The event for a batch result: `Completed` with the revert flag when the
/// batch was reverted, `Partial` when some operations failed, otherwise
/// `Completed` without it.
pub open spec fn completion_event_spec(total: u32, succeeded: u32, failed: u32, reverted: bool) -> BatchEvent {
    if reverted {
        BatchEvent::Completed(total, succeeded, failed, true)
    } else if failed > 0 {
        BatchEvent::Partial(total, succeeded, failed)
    } else {
        BatchEvent::Completed(total, succeeded, failed, false)
    }
}

/// The event to publish once a batch has produced `result`.
pub fn completion_event(result: &BatchResult) -> (e: BatchEvent)
    ensures
        e == completion_event_spec(result.total, result.succeeded, result.failed, result.reverted),
{
    if result.reverted {
        BatchEvent::Completed(result.total, result.succeeded, result.failed, true)
    } else if result.failed > 0 {
        BatchEvent::Partial(result.total, result.succeeded, result.failed)
    } else {
        BatchEvent::Completed(result.total, result.succeeded, result.failed, false)
    }
}

// ---------------------------------------------------------------------------
// Specification
// ---------------------------------------------------------------------------

/// A configuration is valid when its limit lies in `1..=100`.
pub open spec fn config_valid(config: BatchConfig) -> bool {
    1 <= config.max_operations <= ABSOLUTE_MAX_BATCH_SIZE
}

/// Every transfer moves a strictly positive amount.
pub open spec fn transfers_valid(transfers: Seq<BatchTransfer>) -> bool {
    forall|i: int| 0 <= i < transfers.len() ==> #[trigger] transfers[i].amount > 0
}

/// The first reason, if any, for which a batch of `count` operations is
/// refused before anything runs.
pub open spec fn admission_error(config: BatchConfig, count: nat, ops_valid: bool, locked: bool) -> Option<
    BatchError,
> {
    if !config_valid(config) {
        Some(BatchError::InvalidConfig)
    } else if count == 0 {
        Some(BatchError::EmptyBatch)
    } else if count > config.max_operations {
        Some(BatchError::BatchTooLarge)
    } else if !ops_valid {
        Some(BatchError::InvalidOperation)
    } else if locked {
        Some(BatchError::ReentrancyDetected)
    } else {
        None
    }
}

/// The recorded result of an operation the host reported on.
pub open spec fn outcome_result(ok: bool) -> OperationResult {
    if ok {
        OperationResult::Success
    } else {
        OperationResult::Failure(FAILED_OPERATION_CODE)
    }
}

/// Number of successful outcomes.
pub open spec fn count_ok(outcomes: Seq<bool>) -> nat
    decreases outcomes.len(),
{
    if outcomes.len() == 0 {
        0
    } else {
        count_ok(outcomes.drop_last()) + if outcomes.last() {
            1nat
        } else {
            0nat
        }
    }
}

/// Some outcome is a failure.
pub open spec fn has_failure(outcomes: Seq<bool>) -> bool {
    exists|i: int| 0 <= i < outcomes.len() && !#[trigger] outcomes[i]
}

/// What a batch whose operations ran with `outcomes` yields, once admitted.
pub open spec fn batch_result_matches(
    mode: BatchMode,
    outcomes: Seq<bool>,
    r: Result<BatchResult, BatchError>,
) -> bool {
    if mode == BatchMode::Atomic && has_failure(outcomes) {
        r == Err::<BatchResult, BatchError>(BatchError::OperationFailed)
    } else {
        &&& r is Ok
        &&& r->Ok_0.results@ == outcomes.map_values(|b: bool| outcome_result(b))
        &&& r->Ok_0.total == outcomes.len()
        &&& r->Ok_0.succeeded == count_ok(outcomes)
        &&& r->Ok_0.failed == outcomes.len() - count_ok(outcomes)
        &&& !r->Ok_0.reverted
    }
}

/// The full behaviour of a batch of `count` operations: the admission
/// error, or the result of its outcomes.
pub open spec fn batch_spec(
    config: BatchConfig,
    count: nat,
    ops_valid: bool,
    locked: bool,
    outcomes: Seq<bool>,
    r: Result<BatchResult, BatchError>,
) -> bool {
    match admission_error(config, count, ops_valid, locked) {
        Some(e) => r == Err::<BatchResult, BatchError>(e),
        None => batch_result_matches(config.mode, outcomes, r),
    }
}

/// No more operations succeed than there are.
pub proof fn lemma_count_ok_bounded(s: Seq<bool>)
    ensures
        count_ok(s) <= s.len(),
    decreases s.len(),
{
    if s.len() > 0 {
        lemma_count_ok_bounded(s.drop_last());
    }
}

/// Every admitted batch accounts for each of its operations: one result
/// per operation, and the successes and failures add up to the total.
pub proof fn lemma_batch_accounts_for_every_operation(
    mode: BatchMode,
    outcomes: Seq<bool>,
    r: Result<BatchResult, BatchError>,
)
    requires
        batch_result_matches(mode, outcomes, r),
        r is Ok,
    ensures
        r->Ok_0.results@.len() == r->Ok_0.total,
        r->Ok_0.succeeded + r->Ok_0.failed == r->Ok_0.total,
        r->Ok_0.succeeded <= r->Ok_0.total,
{
    lemma_count_ok_bounded(outcomes);
}

/// Atomic batches are all-or-nothing: one that returns `Ok` has every
/// operation succeeded and none failed.
pub proof fn lemma_atomic_batch_all_or_nothing(outcomes: Seq<bool>, r: Result<BatchResult, BatchError>)
    requires
        batch_result_matches(BatchMode::Atomic, outcomes, r),
        r is Ok,
    ensures
        r->Ok_0.failed == 0,
        r->Ok_0.succeeded == r->Ok_0.total,
        forall|i: int| 0 <= i < r->Ok_0.results@.len() ==> #[trigger] r->Ok_0.results@[i]
            == OperationResult::Success,
{
    lemma_count_ok_all(outcomes);
    assert forall|i: int| 0 <= i < r->Ok_0.results@.len() implies #[trigger] r->Ok_0.results@[i]
        == OperationResult::Success by {
        assert(outcomes[i]);
    }
}

proof fn lemma_count_ok_all(s: Seq<bool>)
    requires
        !has_failure(s),
    ensures
        count_ok(s) == s.len(),
    decreases s.len(),
{
    if s.len() > 0 {
        assert(!has_failure(s.drop_last())) by {
            assert forall|i: int| 0 <= i < s.drop_last().len() implies #[trigger] s.drop_last()[i] by {
                assert(s.drop_last()[i] == s[i]);
            }
        }
        lemma_count_ok_all(s.drop_last());
        assert(s[s.len() - 1]);
    }
}

// ---------------------------------------------------------------------------
// Validation
// ---------------------------------------------------------------------------

/// Checks that a configuration's limit lies in `1..=100`.
pub fn validate_config(config: &BatchConfig) -> (r: Result<(), BatchError>)
    ensures
        r is Ok <==> config_valid(*config),
        r is Err ==> r == Err::<(), BatchError>(BatchError::InvalidConfig),
{
    if config.max_operations == 0 || config.max_operations > ABSOLUTE_MAX_BATCH_SIZE {
        return Err(BatchError::InvalidConfig);
    }
    Ok(())
}

/// Checks that a transfer moves a strictly positive amount.
pub fn validate_transfer(transfer: &BatchTransfer) -> (r: Result<(), BatchError>)
    ensures
        r is Ok <==> transfer.amount > 0,
        r is Err ==> r == Err::<(), BatchError>(BatchError::InvalidOperation),
{
    if transfer.amount <= 0 {
        return Err(BatchError::InvalidOperation);
    }
    Ok(())
}

fn validate_transfers(transfers: &Vec<BatchTransfer>) -> (ok: bool)
    ensures
        ok == transfers_valid(transfers@),
{
    let mut i: usize = 0;
    while i < transfers.len()
        invariant
            i <= transfers.len(),
            forall|j: int| 0 <= j < i ==> #[trigger] transfers@[j].amount > 0,
        decreases transfers.len() - i,
    {
        if validate_transfer(&transfers[i]).is_err() {
            return false;
        }
        i = i + 1;
    }
    true
}

/// The transfers a batch asks the host to perform, in order: each one moves
/// its amount of `token` from `caller` to its recipient.
pub fn transfer_actions(caller: u64, token: u64, transfers: &Vec<BatchTransfer>) -> (actions: Vec<
    Transfer,
>)
    ensures
        actions@.len() == transfers@.len(),
        forall|i: int|
            0 <= i < transfers@.len() ==> #[trigger] actions@[i] == (Transfer {
                token,
                from: caller,
                to: transfers@[i].to,
                amount: transfers@[i].amount,
            }),
{
    let mut actions: Vec<Transfer> = Vec::new();
    let mut i: usize = 0;
    while i < transfers.len()
        invariant
            i <= transfers.len(),
            actions@.len() == i,
            forall|j: int|
                0 <= j < i ==> #[trigger] actions@[j] == (Transfer {
                    token,
                    from: caller,
                    to: transfers@[j].to,
                    amount: transfers@[j].amount,
                }),
        decreases transfers.len() - i,
    {
        let t = transfers[i];
        actions.push(Transfer { token, from: caller, to: t.to, amount: t.amount });
        i = i + 1;
    }
    actions
}

// ---------------------------------------------------------------------------
// Executor
// ---------------------------------------------------------------------------

/// The batch executor; it holds the re-entrancy guard.
pub struct BatchExecutor {
    locked: bool,
}

impl BatchExecutor {
    /// The guard is held while a batch runs.
    pub closed spec fn is_locked_spec(&self) -> bool {
        self.locked
    }

    /// A fresh executor, not running any batch.
    pub fn new() -> (e: Self)
        ensures
            !e.is_locked_spec(),
    {
        BatchExecutor { locked: false }
    }

    /// Whether a batch is running.
    pub fn is_locked(&self) -> (b: bool)
        ensures
            b == self.is_locked_spec(),
    {
        self.locked
    }

    /// Takes the guard; refused while it is held.
    pub fn acquire_reentrancy_guard(&mut self) -> (r: Result<(), BatchError>)
        ensures
            old(self).is_locked_spec() ==> r == Err::<(), BatchError>(BatchError::ReentrancyDetected)
                && final(self).is_locked_spec(),
            !old(self).is_locked_spec() ==> r is Ok && final(self).is_locked_spec(),
    {
        if self.locked {
            return Err(BatchError::ReentrancyDetected);
        }
        self.locked = true;
        Ok(())
    }

    /// Gives the guard back.
    pub fn release_reentrancy_guard(&mut self)
        ensures
            !final(self).is_locked_spec(),
    {
        self.locked = false;
    }

    /// Checks, without running anything, whether a batch of transfers would
    /// be admitted.
    pub fn admit_transfers(&self, transfers: &Vec<BatchTransfer>, config: &BatchConfig) -> (r:
        Result<(), BatchError>)
        ensures
            match admission_error(
                *config,
                transfers@.len(),
                transfers_valid(transfers@),
                self.is_locked_spec(),
            ) {
                Some(e) => r == Err::<(), BatchError>(e),
                None => r is Ok,
            },
    {
        self.check_admission(transfers.len(), validate_transfers(transfers), config)
    }

    fn check_admission(&self, count: usize, ops_valid: bool, config: &BatchConfig) -> (r: Result<(), BatchError>)
        ensures
            match admission_error(*config, count as nat, ops_valid, self.is_locked_spec()) {
                Some(e) => r == Err::<(), BatchError>(e),
                None => r is Ok,
            },
    {
        validate_config(config)?;
        if count == 0 {
            return Err(BatchError::EmptyBatch);
        }
        if count > config.max_operations as usize {
            return Err(BatchError::BatchTooLarge);
        }
        if !ops_valid {
            return Err(BatchError::InvalidOperation);
        }
        if self.locked {
            return Err(BatchError::ReentrancyDetected);
        }
        Ok(())
    }

    /// Folds the host's outcomes into a batch result; in atomic mode any
    /// failure fails the batch.
    fn collect(mode: BatchMode, outcomes: &Vec<bool>) -> (r: Result<BatchResult, BatchError>)
        requires
            outcomes@.len() <= ABSOLUTE_MAX_BATCH_SIZE,
        ensures
            batch_result_matches(mode, outcomes@, r),
    {
        let mut results: Vec<OperationResult> = Vec::new();
        let mut succeeded: u32 = 0;
        let mut failed: u32 = 0;
        let mut i: usize = 0;
        while i < outcomes.len()
            invariant
                i <= outcomes@.len() <= ABSOLUTE_MAX_BATCH_SIZE,
                results@ == outcomes@.take(i as int).map_values(|b: bool| outcome_result(b)),
                succeeded == count_ok(outcomes@.take(i as int)),
                failed == i - succeeded,
                mode == BatchMode::Atomic ==> !has_failure(outcomes@.take(i as int)),
            decreases outcomes.len() - i,
        {
            proof {
                lemma_count_ok_bounded(outcomes@.take(i as int));
                assert(outcomes@.take(i as int + 1).drop_last() =~= outcomes@.take(i as int));
            }
            if outcomes[i] {
                results.push(OperationResult::Success);
                succeeded = succeeded + 1;
            } else {
                if mode == BatchMode::Atomic {
                    assert(has_failure(outcomes@)) by {
                        assert(!outcomes@[i as int]);
                    }
                    return Err(BatchError::OperationFailed);
                }
                results.push(OperationResult::Failure(FAILED_OPERATION_CODE));
                failed = failed + 1;
            }
            proof {
                assert(results@ =~= outcomes@.take(i as int + 1).map_values(
                    |b: bool| outcome_result(b),
                ));
                if mode == BatchMode::Atomic {
                    assert forall|j: int| 0 <= j < outcomes@.take(i as int + 1).len() implies #[trigger] outcomes@.take(
                        i as int + 1,
                    )[j] by {
                        if j < i {
                            assert(outcomes@.take(i as int)[j] == outcomes@.take(i as int + 1)[j]);
                        }
                    }
                }
            }
            i = i + 1;
        }
        proof {
            assert(outcomes@.take(i as int) =~= outcomes@);
        }
        Ok(BatchResult {
            results,
            total: outcomes.len() as u32,
            succeeded,
            failed,
            reverted: false,
        })
    }

    /// Transfers `token` from `caller` to each recipient of `transfers`.
    ///
    /// `outcomes[i]` is the host's report of whether transfer `i` went
    /// through. The batch is refused upfront as [`admission_error`] says; in
    /// atomic mode a failed transfer fails the whole batch with
    /// `OperationFailed`; otherwise the result records every outcome. The
    /// guard is held only while the batch runs.
    pub fn execute_multi_transfer(
        &mut self,
        caller: u64,
        token: u64,
        transfers: &Vec<BatchTransfer>,
        config: &BatchConfig,
        outcomes: &Vec<bool>,
    ) -> (r: Result<BatchResult, BatchError>)
        requires
            outcomes@.len() == transfers@.len(),
        ensures
            batch_spec(
                *config,
                transfers@.len(),
                transfers_valid(transfers@),
                old(self).is_locked_spec(),
                outcomes@,
                r,
            ),
            final(self).is_locked_spec() == old(self).is_locked_spec(),
    {
        self.admit_transfers(transfers, config)?;
        self.run(outcomes, config)
    }

    fn run(&mut self, outcomes: &Vec<bool>, config: &BatchConfig) -> (r: Result<BatchResult, BatchError>)
        requires
            !old(self).is_locked_spec(),
            outcomes@.len() <= config.max_operations <= ABSOLUTE_MAX_BATCH_SIZE,
        ensures
            batch_result_matches(config.mode, outcomes@, r),
            !final(self).is_locked_spec(),
    {
        let _ = self.acquire_reentrancy_guard();
        let r = Self::collect(config.mode, outcomes);
        self.release_reentrancy_guard();
        r
    }

    /// Invokes each call of `calls` (their arguments travel with the host).
    ///
    /// `outcomes[i]` reports whether call `i` completed (a call that returns
    /// a contract error still completes). Admission and results as for
    /// [`BatchExecutor::execute_multi_transfer`], with every call valid.
    pub fn execute_multi_invoke(
        &mut self,
        config: &BatchConfig,
        calls: &Vec<ContractCall>,
        outcomes: &Vec<bool>,
    ) -> (r: Result<BatchResult, BatchError>)
        requires
            outcomes@.len() == calls@.len(),
        ensures
            batch_spec(*config, calls@.len(), true, old(self).is_locked_spec(), outcomes@, r),
            final(self).is_locked_spec() == old(self).is_locked_spec(),
    {
        self.check_admission(calls.len(), true, config)?;
        self.run(outcomes, config)
    }

    /// Invokes a no-argument function on each contract of `calls`; as
    /// [`BatchExecutor::execute_multi_invoke`].
    pub fn batch_invoke_no_args(
        &mut self,
        config: &BatchConfig,
        calls: &Vec<ContractCall>,
        outcomes: &Vec<bool>,
    ) -> (r: Result<BatchResult, BatchError>)
        requires
            outcomes@.len() == calls@.len(),
        ensures
            batch_spec(*config, calls@.len(), true, old(self).is_locked_spec(), outcomes@, r),
            final(self).is_locked_spec() == old(self).is_locked_spec(),
    {
        self.check_admission(calls.len(), true, config)?;
        self.run(outcomes, config)
    }

    /// Transfers `token` from `caller` to each `(recipient, amount)` pair
    /// atomically, with the default size limit.
    pub fn multi_transfer_all(
        &mut self,
        caller: u64,
        token: u64,
        recipients: &Vec<(u64, i128)>,
        outcomes: &Vec<bool>,
    ) -> (r: Result<BatchResult, BatchError>)
        requires
            outcomes@.len() == recipients@.len(),
        ensures
            batch_spec(
                BatchConfig { mode: BatchMode::Atomic, max_operations: DEFAULT_MAX_BATCH_SIZE },
                recipients@.len(),
                forall|i: int| 0 <= i < recipients@.len() ==> #[trigger] recipients@[i].1 > 0,
                old(self).is_locked_spec(),
                outcomes@,
                r,
            ),
            final(self).is_locked_spec() == old(self).is_locked_spec(),
    {
        let config = BatchConfig::atomic_default();
        let mut transfers: Vec<BatchTransfer> = Vec::new();
        let mut i: usize = 0;
        while i < recipients.len()
            invariant
                i <= recipients@.len(),
                transfers@.len() == i,
                forall|j: int|
                    0 <= j < i ==> #[trigger] transfers@[j] == (BatchTransfer {
                        to: recipients@[j].0,
                        amount: recipients@[j].1,
                    }),
            decreases recipients.len() - i,
        {
            let (to, amount) = recipients[i];
            transfers.push(BatchTransfer { to, amount });
            i = i + 1;
        }
        proof {
            assert(transfers_valid(transfers@) == (forall|i: int|
                0 <= i < recipients@.len() ==> #[trigger] recipients@[i].1 > 0)) by {
                if transfers_valid(transfers@) {
                    assert forall|i: int| 0 <= i < recipients@.len() implies #[trigger] recipients@[i].1 > 0 by {
                        assert(transfers@[i].amount > 0);
                    }
                }
            }
        }
        self.execute_multi_transfer(caller, token, &transfers, &config, outcomes)
    }
}

} // verus!
