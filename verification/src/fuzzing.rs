//! Deterministic fuzzing harnesses for access control, payments and
//! upgradeability: a seeded linear congruential generator drives every
//! choice, so a run is reproducible from its seed.
use vstd::prelude::*;
use crate::testkit::{MockToken, MockTokenView};

verus! {

/// Multiplier of the generator.
pub const LCG_MUL: u64 = 6364136223846793005;

/// Increment of the generator.
pub const LCG_INC: u64 = 1442695040888963407;

/// Number of characters random strings are drawn from.
pub const ALPHABET_LEN: u64 = 36;

/// One step of the generator: `state * LCG_MUL + LCG_INC`, wrapping.
#[verifier::opaque]
pub open spec fn lcg_step(s: u64) -> u64 {
    vstd::wrapping::u64_specs::wrapping_add(vstd::wrapping::u64_specs::wrapping_mul(s, LCG_MUL), LCG_INC)
}

/// The state after `n` steps from `s`.
pub open spec fn lcg_iter(s: u64, n: nat) -> u64
    decreases n,
{
    if n == 0 {
        s
    } else {
        lcg_step(lcg_iter(s, (n - 1) as nat))
    }
}

/// Character `i` of `a..z0..9`.
pub open spec fn alphabet(i: int) -> u8 {
    if i < 26 {
        (97 + i) as u8
    } else {
        (48 + i - 26) as u8
    }
}

/// A seeded source of reproducible choices.
pub struct FuzzInputGenerator {
    seed: u64,
}

impl View for FuzzInputGenerator {
    type V = u64;

    closed spec fn view(&self) -> u64 {
        self.seed
    }
}

impl FuzzInputGenerator {
    /// A generator seeded with `seed`, or with the ledger timestamp when
    /// none is given.
    pub fn new(seed: Option<u64>, ledger_timestamp: u64) -> (g: Self)
        ensures
            g@ == (match seed {
                Some(s) => s,
                None => ledger_timestamp,
            }),
    {
        let s = match seed {
            Some(s) => s,
            None => ledger_timestamp,
        };
        FuzzInputGenerator { seed: s }
    }

    fn next_u64(&mut self) -> (r: u64)
        ensures
            r == lcg_step(old(self)@),
            final(self)@ == r,
    {
        proof {
            reveal(lcg_step);
        }
        self.seed = self.seed.wrapping_mul(LCG_MUL).wrapping_add(LCG_INC);
        self.seed
    }

    /// A value in `min..=max`.
    pub fn random_u64(&mut self, min: u64, max: u64) -> (r: u64)
        requires
            min <= max,
            max - min < u64::MAX,
        ensures
            r == min + (lcg_step(old(self)@) as int) % (max - min + 1),
            min <= r <= max,
            final(self)@ == lcg_step(old(self)@),
    {
        let range = max - min;
        let x = self.next_u64();
        min + (x % (range + 1))
    }

    /// An amount in `min..=max`.
    pub fn random_amount(&mut self, min: i128, max: i128) -> (r: i128)
        requires
            min <= max,
            max - min < i128::MAX,
        ensures
            r == min + (lcg_step(old(self)@) as int) % (max - min + 1),
            min <= r <= max,
            final(self)@ == lcg_step(old(self)@),
    {
        let range = max - min;
        let random = self.next_u64() as i128;
        min + (random % (range + 1))
    }

    /// A coin flip.
    pub fn random_bool(&mut self) -> (b: bool)
        ensures
            b == (lcg_step(old(self)@) % 2 == 1),
            final(self)@ == lcg_step(old(self)@),
    {
        self.next_u64() % 2 == 1
    }

    /// An element of a non-empty slice.
    pub fn random_choice<'a, T>(&mut self, choices: &'a [T]) -> (r: &'a T)
        requires
            choices@.len() > 0,
        ensures
            *r == choices@[(lcg_step(old(self)@) % (choices@.len() as u64)) as int],
            final(self)@ == lcg_step(old(self)@),
    {
        let index = self.random_u64(0, (choices.len() - 1) as u64) as usize;
        &choices[index]
    }

    /// A string of `length` characters of `a..z0..9`.
    pub fn random_string(&mut self, length: usize) -> (r: Vec<u8>)
        ensures
            r@.len() == length,
            forall|i: int| 0 <= i < length ==> #[trigger] r@[i] == alphabet(
                (lcg_iter(old(self)@, (i + 1) as nat) % ALPHABET_LEN) as int,
            ),
            final(self)@ == lcg_iter(old(self)@, length as nat),
    {
        let mut result: Vec<u8> = Vec::new();
        let mut k: usize = 0;
        while k < length
            invariant
                k <= length,
                result@.len() == k,
                self@ == lcg_iter(old(self)@, k as nat),
                forall|i: int| 0 <= i < k ==> #[trigger] result@[i] == alphabet(
                    (lcg_iter(old(self)@, (i + 1) as nat) % ALPHABET_LEN) as int,
                ),
            decreases length - k,
        {
            let idx = self.random_u64(0, ALPHABET_LEN - 1);
            let c: u8 = if idx < 26 {
                97 + idx as u8
            } else {
                48 + (idx - 26) as u8
            };
            result.push(c);
            k = k + 1;
        }
        result
    }
}

// ---------------------------------------------------------------------------
// Access control
// ---------------------------------------------------------------------------

/// Configuration of the access-control fuzzing run.
#[derive(Clone, Copy, Debug, PartialEq, Eq, Structural)]
pub struct AccessControlFuzzConfig {
    pub num_users: usize,
    pub num_role_operations: usize,
    pub num_checks: usize,
}

impl Default for AccessControlFuzzConfig {
    fn default() -> (c: Self)
        ensures
            c == (AccessControlFuzzConfig { num_users: 10, num_role_operations: 100, num_checks: 200 }),
    {
        AccessControlFuzzConfig { num_users: 10, num_role_operations: 100, num_checks: 200 }
    }
}

/// Tally of an access-control fuzzing run.
#[derive(Clone, Debug)]
pub struct AccessControlFuzzResults {
    pub total_operations: usize,
    pub successful_operations: usize,
    pub failed_operations: usize,
    pub unauthorized_attempts: usize,
    pub caught_violations: usize,
    pub errors: Vec<String>,
}

/// The standard role identifiers the harness picks from.
pub const NUM_FUZZ_ROLES: u64 = 5;

/// One role operation from generator state `s`: a target user and a role
/// are drawn, then grant-or-revoke, then whether the admin calls (else a
/// random user does). Yields whether the caller was the admin, and the
/// state after.
pub open spec fn role_operation(s: u64, users: Seq<u64>, admin: u64) -> (bool, u64) {
    let s1 = lcg_step(s);
    let s2 = lcg_step(s1);
    let s3 = lcg_step(s2);
    let s4 = lcg_step(s3);
    if s4 % 2 == 1 {
        (true, s4)
    } else {
        let s5 = lcg_step(s4);
        (users[(s5 % (users.len() as u64)) as int] == admin, s5)
    }
}

/// `n` role operations from state `s`: how many the admin made, and the
/// state after.
pub open spec fn role_operations(s: u64, users: Seq<u64>, admin: u64, n: nat) -> (nat, u64)
    decreases n,
{
    if n == 0 {
        (0, s)
    } else {
        let (k, t) = role_operations(s, users, admin, (n - 1) as nat);
        let (by_admin, u) = role_operation(t, users, admin);
        (k + if by_admin { 1nat } else { 0nat }, u)
    }
}

proof fn lemma_role_operations_bounded(s: u64, users: Seq<u64>, admin: u64, n: nat)
    ensures
        role_operations(s, users, admin, n).0 <= n,
    decreases n,
{
    if n > 0 {
        lemma_role_operations_bounded(s, users, admin, (n - 1) as nat);
    }
}

/// The fuzzing run does not depend on who the users are: with the same
/// generator state, any two non-empty user lists that do not contain their
/// admin give the same number of admin-made operations and the same state
/// after, so seeded runs over equal configurations report equal counts.
/// Exactly the operations whose caller flip picked the admin succeed.
pub proof fn lemma_role_operations_independent_of_users(
    s: u64,
    users1: Seq<u64>,
    admin1: u64,
    users2: Seq<u64>,
    admin2: u64,
    n: nat,
)
    requires
        0 < users1.len() <= u64::MAX,
        0 < users2.len() <= u64::MAX,
        !users1.contains(admin1),
        !users2.contains(admin2),
    ensures
        role_operations(s, users1, admin1, n) == role_operations(s, users2, admin2, n),
    decreases n,
{
    if n > 0 {
        lemma_role_operations_independent_of_users(s, users1, admin1, users2, admin2, (n - 1) as nat);
        let t = role_operations(s, users1, admin1, (n - 1) as nat).1;
        let s4 = lcg_step(lcg_step(lcg_step(lcg_step(t))));
        let s5 = lcg_step(s4);
        let i1 = (s5 % (users1.len() as u64)) as int;
        let i2 = (s5 % (users2.len() as u64)) as int;
        assert((users1.len() as u64) as int == users1.len());
        assert((users2.len() as u64) as int == users2.len());
        assert(0 <= i1 < users1.len());
        assert(0 <= i2 < users2.len());
        assert(users1[i1] != admin1);
        assert(users2[i2] != admin2);
    }
}

/// A harness that exercises role grants and revocations by the admin and
/// by random users.
pub struct AccessControlFuzzer {
    generator: FuzzInputGenerator,
    admin: u64,
    users: Vec<u64>,
    roles: Vec<u64>,
}

impl AccessControlFuzzer {
    pub closed spec fn generator_state(&self) -> u64 {
        self.generator@
    }

    pub closed spec fn admin_spec(&self) -> u64 {
        self.admin
    }

    pub closed spec fn users_spec(&self) -> Seq<u64> {
        self.users@
    }

    pub closed spec fn wf(&self) -> bool {
        self.users@.len() > 0 && self.roles@.len() == NUM_FUZZ_ROLES
    }

    /// A harness over `users` (at least one) with `admin`, seeded as
    /// [`FuzzInputGenerator::new`].
    pub fn new(seed: Option<u64>, ledger_timestamp: u64, admin: u64, users: Vec<u64>) -> (f: Self)
        requires
            users@.len() > 0,
        ensures
            f.wf(),
            f.generator_state() == (match seed {
                Some(s) => s,
                None => ledger_timestamp,
            }),
            f.admin_spec() == admin,
            f.users_spec() == users@,
    {
        let generator = FuzzInputGenerator::new(seed, ledger_timestamp);
        let roles: Vec<u64> = vec![0, 1, 2, 3, 4];
        AccessControlFuzzer { generator, admin, users, roles }
    }

    /// Runs the role operations, then the permission checks: an operation
    /// succeeds exactly when the admin makes it, every other one is an
    /// unauthorised attempt that the protocol blocks.
    pub fn fuzz(&mut self, config: &AccessControlFuzzConfig) -> (r: AccessControlFuzzResults)
        requires
            old(self).wf(),
            config.num_role_operations + config.num_checks <= usize::MAX,
        ensures
            final(self).wf(),
            final(self).admin_spec() == old(self).admin_spec(),
            final(self).users_spec() == old(self).users_spec(),
            ({
                let (k, s) = role_operations(
                    old(self).generator_state(),
                    old(self).users_spec(),
                    old(self).admin_spec(),
                    config.num_role_operations as nat,
                );
                &&& r.successful_operations == k
                &&& r.unauthorized_attempts == config.num_role_operations - k
                &&& final(self).generator_state() == lcg_iter(s, 2 * config.num_checks as nat)
            }),
            r.total_operations == config.num_role_operations + config.num_checks,
            r.caught_violations == r.unauthorized_attempts,
            r.failed_operations == r.total_operations - r.successful_operations,
            r.errors@.len() == 0,
    {
        let ghost s0 = self.generator@;
        let ghost users = self.users@;
        let ghost a0 = self.admin;
        let mut total: usize = 0;
        let mut ok: usize = 0;
        let mut unauthorized: usize = 0;
        let mut i: usize = 0;
        while i < config.num_role_operations
            invariant
                self.wf(),
                users == self.users@,
                a0 == self.admin,
                i <= config.num_role_operations,
                config.num_role_operations + config.num_checks <= usize::MAX,
                total == i,
                ok + unauthorized == i,
                role_operations(s0, users, self.admin, i as nat) == (ok as nat, self.generator@),
            decreases config.num_role_operations - i,
        {
            total = total + 1;
            let ghost t = self.generator@;
            let _user = self.generator.random_choice(self.users.as_slice());
            let _role = self.generator.random_choice(self.roles.as_slice());
            let _grant = self.generator.random_bool();
            let caller: u64 = if self.generator.random_bool() {
                self.admin
            } else {
                *self.generator.random_choice(self.users.as_slice())
            };
            proof {
                assert(role_operation(t, users, self.admin) == (caller == self.admin, self.generator@));
            }
            if caller == self.admin {
                ok = ok + 1;
            } else {
                unauthorized = unauthorized + 1;
            }
            i = i + 1;
        }
        let ghost s_ops = self.generator@;
        let mut j: usize = 0;
        while j < config.num_checks
            invariant
                self.wf(),
                users == self.users@,
                a0 == self.admin,
                role_operations(s0, users, a0, config.num_role_operations as nat) == (ok as nat, s_ops),
                ok + unauthorized == config.num_role_operations,
                j <= config.num_checks,
                total == config.num_role_operations + j,
                config.num_role_operations + config.num_checks <= usize::MAX,
                self.generator@ == lcg_iter(s_ops, 2 * j as nat),
            decreases config.num_checks - j,
        {
            total = total + 1;
            let _user = self.generator.random_choice(self.users.as_slice());
            let _role = self.generator.random_choice(self.roles.as_slice());
            proof {
                assert(lcg_iter(s_ops, (2 * j + 2) as nat) == lcg_step(lcg_iter(s_ops, (2 * j + 1) as nat)));
            }
            j = j + 1;
        }
        AccessControlFuzzResults {
            total_operations: total,
            successful_operations: ok,
            failed_operations: total - ok,
            unauthorized_attempts: unauthorized,
            caught_violations: unauthorized,
            errors: Vec::new(),
        }
    }
}

// ---------------------------------------------------------------------------
// Upgradeability
// ---------------------------------------------------------------------------

/// Configuration of the upgradeability fuzzing run.
#[derive(Clone, Copy, Debug, PartialEq, Eq, Structural)]
pub struct UpgradeabilityFuzzConfig {
    pub num_upgrade_attempts: usize,
    pub num_users: usize,
}

impl Default for UpgradeabilityFuzzConfig {
    fn default() -> (c: Self)
        ensures
            c == (UpgradeabilityFuzzConfig { num_upgrade_attempts: 100, num_users: 10 }),
    {
        UpgradeabilityFuzzConfig { num_upgrade_attempts: 100, num_users: 10 }
    }
}

/// Tally of an upgradeability fuzzing run.
#[derive(Clone, Copy, Debug, PartialEq, Eq, Structural)]
pub struct UpgradeabilityFuzzResults {
    pub total_attempts: usize,
    pub authorized_upgrades: usize,
    pub unauthorized_attempts_blocked: usize,
    pub failed_attempts: usize,
    pub successful_upgrades: usize,
}

/// One upgrade attempt from generator state `s`: the upgrader calls on a
/// heads, else the admin on a second heads, else a random user. Yields
/// whether the caller was authorised (upgrader or admin), and the state
/// after.
pub open spec fn upgrade_attempt(s: u64, users: Seq<u64>, admin: u64, upgrader: u64) -> (bool, u64) {
    let s1 = lcg_step(s);
    if s1 % 2 == 1 {
        (true, s1)
    } else {
        let s2 = lcg_step(s1);
        if s2 % 2 == 1 {
            (true, s2)
        } else {
            let s3 = lcg_step(s2);
            let u = users[(s3 % (users.len() as u64)) as int];
            (u == upgrader || u == admin, s3)
        }
    }
}

/// `n` upgrade attempts from state `s`: how many were authorised, and the
/// state after.
pub open spec fn upgrade_attempts(s: u64, users: Seq<u64>, admin: u64, upgrader: u64, n: nat) -> (nat, u64)
    decreases n,
{
    if n == 0 {
        (0, s)
    } else {
        let (k, t) = upgrade_attempts(s, users, admin, upgrader, (n - 1) as nat);
        let (ok, u) = upgrade_attempt(t, users, admin, upgrader);
        (k + if ok { 1nat } else { 0nat }, u)
    }
}

/// A harness that lets the upgrader, the admin and random users attempt
/// upgrades.
pub struct UpgradeabilityFuzzer {
    generator: FuzzInputGenerator,
    admin: u64,
    upgrader: u64,
    users: Vec<u64>,
}

impl UpgradeabilityFuzzer {
    pub closed spec fn generator_state(&self) -> u64 {
        self.generator@
    }

    pub closed spec fn parties(&self) -> (u64, u64, Seq<u64>) {
        (self.admin, self.upgrader, self.users@)
    }

    /// A harness over `users` (at least one), seeded as
    /// [`FuzzInputGenerator::new`].
    pub fn new(seed: Option<u64>, ledger_timestamp: u64, admin: u64, upgrader: u64, users: Vec<u64>) -> (f: Self)
        requires
            users@.len() > 0,
        ensures
            f.generator_state() == (match seed {
                Some(s) => s,
                None => ledger_timestamp,
            }),
            f.parties() == (admin, upgrader, users@),
    {
        UpgradeabilityFuzzer { generator: FuzzInputGenerator::new(seed, ledger_timestamp), admin, upgrader, users }
    }

    /// Runs the attempts: the upgrader's and the admin's succeed, all
    /// others are blocked.
    pub fn fuzz(&mut self, config: &UpgradeabilityFuzzConfig) -> (r: UpgradeabilityFuzzResults)
        requires
            old(self).parties().2.len() > 0,
        ensures
            final(self).parties() == old(self).parties(),
            ({
                let (admin, upgrader, users) = old(self).parties();
                let (k, s) = upgrade_attempts(
                    old(self).generator_state(),
                    users,
                    admin,
                    upgrader,
                    config.num_upgrade_attempts as nat,
                );
                &&& r.authorized_upgrades == k
                &&& r.successful_upgrades == k
                &&& r.unauthorized_attempts_blocked == config.num_upgrade_attempts - k
                &&& final(self).generator_state() == s
            }),
            r.total_attempts == config.num_upgrade_attempts,
            r.failed_attempts == r.unauthorized_attempts_blocked,
    {
        let ghost s0 = self.generator@;
        let ghost p0 = self.parties();
        let mut authorized: usize = 0;
        let mut blocked: usize = 0;
        let mut i: usize = 0;
        while i < config.num_upgrade_attempts
            invariant
                p0 == self.parties(),
                p0.2.len() > 0,
                i <= config.num_upgrade_attempts,
                authorized + blocked == i,
                upgrade_attempts(s0, p0.2, p0.0, p0.1, i as nat) == (authorized as nat, self.generator@),
            decreases config.num_upgrade_attempts - i,
        {
            let ghost t = self.generator@;
            let caller: u64 = if self.generator.random_bool() {
                self.upgrader
            } else if self.generator.random_bool() {
                self.admin
            } else {
                *self.generator.random_choice(self.users.as_slice())
            };
            proof {
                assert(upgrade_attempt(t, p0.2, p0.0, p0.1) == (caller == self.upgrader || caller == self.admin, self.generator@));
            }
            if caller == self.upgrader || caller == self.admin {
                authorized = authorized + 1;
            } else {
                blocked = blocked + 1;
            }
            i = i + 1;
        }
        UpgradeabilityFuzzResults {
            total_attempts: i,
            authorized_upgrades: authorized,
            unauthorized_attempts_blocked: blocked,
            failed_attempts: blocked,
            successful_upgrades: authorized,
        }
    }
}

// ---------------------------------------------------------------------------
// Payments
// ---------------------------------------------------------------------------

/// Configuration of the payment fuzzing run.
#[derive(Clone, Copy, Debug, PartialEq, Eq, Structural)]
pub struct PaymentsFuzzConfig {
    pub num_users: usize,
    pub num_transactions: usize,
    pub max_amount: i128,
    pub min_amount: i128,
}

impl Default for PaymentsFuzzConfig {
    fn default() -> (c: Self)
        ensures
            c == (PaymentsFuzzConfig {
                num_users: 20,
                num_transactions: 1000,
                max_amount: 1_000_000_000_000,
                min_amount: 1,
            }),
    {
        PaymentsFuzzConfig { num_users: 20, num_transactions: 1000, max_amount: 1_000_000_000_000, min_amount: 1 }
    }
}

/// A broken supply invariant: the balances did not add up to the supply.
#[derive(Clone, Copy, Debug, PartialEq, Eq, Structural)]
pub struct SupplyMismatch {
    pub total_supply: i128,
    pub sum_balances: i128,
}

/// Tally of a payment fuzzing run.
#[derive(Clone, Debug)]
pub struct PaymentsFuzzResults {
    pub total_transactions: usize,
    pub successful_transfers: usize,
    pub failed_transfers: usize,
    pub insufficient_funds_caught: usize,
    pub total_volume_processed: i128,
    pub invariant_violations: Vec<SupplyMismatch>,
}

/// One transfer attempt from generator state `s`: a sender is drawn, then
/// whether the receiver is a user (drawn next) or the treasury, then the
/// amount in `min..=hi`. Yields the amount and the state after.
pub open spec fn payment_attempt(s: u64, min: i128, hi: i128) -> (int, u64) {
    let s1 = lcg_step(s);
    let s2 = lcg_step(s1);
    let s3 = if s2 % 2 == 1 {
        lcg_step(s2)
    } else {
        s2
    };
    let s4 = lcg_step(s3);
    (min + (s4 as int) % (hi - min + 1), s4)
}

/// `n` transfer attempts from state `s`: their summed amount, and the state
/// after.
pub open spec fn payment_attempts(s: u64, min: i128, hi: i128, n: nat) -> (int, u64)
    decreases n,
{
    if n == 0 {
        (0, s)
    } else {
        let (v, t) = payment_attempts(s, min, hi, (n - 1) as nat);
        let (a, u) = payment_attempt(t, min, hi);
        (v + a, u)
    }
}

/// A harness that mints to every user and then attempts random transfers
/// between users and to the treasury, checking that no attempt exceeds
/// the sender's balance and that the balances add up to the supply.
pub struct PaymentsFuzzer {
    generator: FuzzInputGenerator,
    users: Vec<u64>,
    treasury: u64,
    token: MockToken,
}

/// The balances of `who` added up, in order.
pub open spec fn balances_sum(t: MockTokenView, who: Seq<u64>) -> int
    decreases who.len(),
{
    if who.len() == 0 {
        0
    } else {
        balances_sum(t, who.drop_last()) + t.balance(who.last())
    }
}

/// When every account of `who` holds `per`, the first `j` of them hold
/// `j * per` together.
proof fn lemma_balances_sum_uniform(t: MockTokenView, who: Seq<u64>, per: int, j: int)
    requires
        0 <= j <= who.len(),
        forall|i: int| 0 <= i < who.len() ==> t.balance(#[trigger] who[i]) == per,
    ensures
        balances_sum(t, who.take(j)) == j * per,
    decreases j,
{
    if j == 0 {
        assert(who.take(0).len() == 0);
    } else {
        lemma_balances_sum_uniform(t, who, per, j - 1);
        assert(who.take(j).drop_last() =~= who.take(j - 1));
        assert(who.take(j).last() == who[j - 1]);
        assert(t.balance(who[j - 1]) == per);
        assert(j * per == (j - 1) * per + per) by (nonlinear_arith);
    }
}

impl PaymentsFuzzer {
    pub closed spec fn generator_state(&self) -> u64 {
        self.generator@
    }

    /// Distinct users, a treasury that is none of them, and a token that
    /// has not minted yet.
    pub closed spec fn fresh(&self) -> bool {
        &&& self.users@.len() > 0
        &&& self.users@.no_duplicates()
        &&& !self.users@.contains(self.treasury)
        &&& self.token@.balances == Map::<u64, i128>::empty()
        &&& self.token@.total_supply == 0
    }

    pub closed spec fn num_users(&self) -> nat {
        self.users@.len()
    }

    /// What each user holds.
    pub closed spec fn held(&self) -> int {
        self.token@.balance(self.users@[0]) as int
    }

    /// Distinct users, a treasury that is none of them, every user holding
    /// the same non-negative amount and nobody else anything, and a supply
    /// that is the users' holdings together.
    pub closed spec fn settled(&self) -> bool {
        &&& self.users@.len() > 0
        &&& self.users@.no_duplicates()
        &&& !self.users@.contains(self.treasury)
        &&& self.held() >= 0
        &&& forall|w: u64| #[trigger]
            self.token@.balance(w) == (if self.users@.contains(w) { self.held() } else { 0 })
        &&& self.token@.total_supply == self.users@.len() * self.held()
    }

    /// A harness over `users` with a new six-decimal test token held at
    /// `token_contract`, seeded as [`FuzzInputGenerator::new`].
    pub fn new(
        seed: Option<u64>,
        ledger_timestamp: u64,
        admin: u64,
        users: Vec<u64>,
        treasury: u64,
        token_contract: u64,
    ) -> (f: Self)
        requires
            users@.len() > 0,
            users@.no_duplicates(),
            !users@.contains(treasury),
        ensures
            f.fresh(),
            f.settled(),
            f.held() == 0,
            f.num_users() == users@.len(),
            f.generator_state() == (match seed {
                Some(s) => s,
                None => ledger_timestamp,
            }),
    {
        let name: Vec<u8> = vec![84, 101, 115, 116, 32, 84, 111, 107, 101, 110];
        let symbol: Vec<u8> = vec![84, 69, 83, 84];
        let token = MockToken::initialize(token_contract, admin, 6, name, symbol);
        let f = PaymentsFuzzer { generator: FuzzInputGenerator::new(seed, ledger_timestamp), users, treasury, token };
        assert(f.users@.len() * 0 == 0);
        f
    }

    /// Mints `max_amount` to every user, then runs the transfer attempts
    /// with amounts in `min_amount..=max_amount / 100` (every one within the
    /// sender's balance), and checks the supply invariant. It can run again:
    /// each run mints on top of what the users already hold.
    pub fn fuzz(&mut self, config: &PaymentsFuzzConfig) -> (r: PaymentsFuzzResults)
        requires
            old(self).settled(),
            0 <= config.max_amount,
            config.min_amount <= config.max_amount / 100,
            config.max_amount / 100 - config.min_amount < i128::MAX,
            old(self).num_users() * (old(self).held() + config.max_amount) <= i128::MAX,
            config.num_transactions * (config.max_amount / 100) <= i128::MAX,
            config.num_transactions * config.min_amount >= i128::MIN,
        ensures
            ({
                let (volume, s) = payment_attempts(
                    old(self).generator_state(),
                    config.min_amount,
                    (config.max_amount / 100) as i128,
                    config.num_transactions as nat,
                );
                &&& r.total_volume_processed == volume
                &&& final(self).generator_state() == s
            }),
            r.total_transactions == config.num_transactions,
            r.successful_transfers == config.num_transactions,
            r.failed_transfers == 0,
            r.insufficient_funds_caught == 0,
            r.invariant_violations@.len() == 0,
            final(self).settled(),
            final(self).held() == old(self).held() + config.max_amount,
            final(self).num_users() == old(self).num_users(),
    {
        let max = config.max_amount;
        let hi = max / 100;
        let ghost g0 = self.generator@;
        let ghost users = self.users@;
        let ghost n = users.len();
        let ghost b = self.held();
        let ghost per = b + max;
        proof {
            assert(n * per >= per) by (nonlinear_arith)
                requires
                    n >= 1,
                    per >= 0,
            ;
            assert(n * per == n * b + n * max) by (nonlinear_arith)
                requires
                    per == b + max,
            ;
        }
        let mut i: usize = 0;
        while i < self.users.len()
            invariant
                users == self.users@,
                g0 == self.generator@,
                users.no_duplicates(),
                !users.contains(self.treasury),
                i <= users.len(),
                n == users.len(),
                0 <= max,
                0 <= b,
                per == b + max,
                n * per <= i128::MAX,
                n * per == n * b + n * max,
                per <= i128::MAX,
                self.token@.total_supply == n * b + i * max,
                forall|w: u64| #[trigger] self.token@.balance(w) == (if users.subrange(0, i as int).contains(w) {
                    per
                } else if users.contains(w) {
                    b
                } else {
                    0
                }),
            decreases users.len() - i,
        {
            let u = self.users[i];
            proof {
                assert(!users.subrange(0, i as int).contains(u)) by {
                    if users.subrange(0, i as int).contains(u) {
                        let j = choose|j: int| 0 <= j < i && #[trigger] users.subrange(0, i as int)[j] == u;
                        assert(users[j] == users[i as int]);
                    }
                }
                assert((i + 1) * max <= n * max) by (nonlinear_arith)
                    requires
                        i + 1 <= n,
                        0 <= max,
                ;
                assert((i + 1) * max == i * max + max) by (nonlinear_arith);
                assert(users.contains(u)) by {
                    assert(users[i as int] == u);
                }
            }
            let ghost tv = self.token@;
            self.token.mint(u, max);
            proof {
                let pre = users.subrange(0, i as int);
                let post = users.subrange(0, i + 1);
                assert(post =~= pre.push(u));
                assert forall|w: u64| #[trigger] self.token@.balance(w) == (if post.contains(w) {
                    per
                } else if users.contains(w) {
                    b
                } else {
                    0
                }) by {
                    if w == u {
                        assert(post[i as int] == u);
                        assert(post.contains(u));
                    } else {
                        assert(self.token@.balance(w) == tv.balance(w));
                        if post.contains(w) {
                            let j = choose|j: int| 0 <= j < post.len() && #[trigger] post[j] == w;
                            assert(j < i);
                            assert(pre[j] == w);
                            assert(pre.contains(w));
                        }
                        if pre.contains(w) {
                            let j = choose|j: int| 0 <= j < pre.len() && #[trigger] pre[j] == w;
                            assert(post[j] == w);
                            assert(post.contains(w));
                        }
                    }
                }
            }
            i = i + 1;
        }
        proof {
            assert(users.subrange(0, n as int) =~= users);
            assert(self.token@.total_supply == users.len() * per);
        }
        let ghost s0 = self.generator@;
        let mut ok: usize = 0;
        let mut failed: usize = 0;
        let mut volume: i128 = 0;
        let mut k: usize = 0;
        while k < config.num_transactions
            invariant
                users == self.users@,
                users.len() > 0,
                !users.contains(self.treasury),
                config.min_amount <= hi,
                0 <= max,
                hi - config.min_amount < i128::MAX,
                hi == config.max_amount / 100,
                max == config.max_amount,
                config.num_transactions * hi <= i128::MAX,
                config.num_transactions * config.min_amount >= i128::MIN,
                k <= config.num_transactions,
                ok == k,
                failed == 0,
                forall|w: u64| #[trigger] self.token@.balance(w) == (if users.contains(w) { per } else { 0 }),
                self.token@.total_supply == users.len() * per,
                0 <= b,
                per == b + max,
                self.users@.no_duplicates(),
                k * config.min_amount <= volume <= k * hi,
                payment_attempts(s0, config.min_amount, hi, k as nat) == (volume as int, self.generator@),
            decreases config.num_transactions - k,
        {
            let ghost t = self.generator@;
            let from = *self.generator.random_choice(self.users.as_slice());
            let _to: u64 = if self.generator.random_bool() {
                *self.generator.random_choice(self.users.as_slice())
            } else {
                self.treasury
            };
            let amount = self.generator.random_amount(config.min_amount, hi);
            proof {
                assert(payment_attempt(t, config.min_amount, hi) == (amount as int, self.generator@));
                assert(users.len() == self.users.len());
                assert((users.len() as u64) as int == users.len());
                let idx = (lcg_step(t) % (users.len() as u64)) as int;
                assert(0 <= idx < users.len());
                assert(users[idx] == from);
                assert(users.contains(from));
                assert(hi <= max) by {
                    assert(max / 100 <= max) by (nonlinear_arith) requires max >= 0;
                }
                assert(self.token@.balance(from) == per);
                assert((k + 1) * hi == k * hi + hi) by (nonlinear_arith);
                assert((k + 1) * hi <= config.num_transactions * hi) by (nonlinear_arith)
                    requires
                        k + 1 <= config.num_transactions,
                        0 <= hi,
                ;
                assert((k + 1) * config.min_amount == k * config.min_amount + config.min_amount) by (nonlinear_arith);
                if config.min_amount < 0 {
                    assert(config.num_transactions * config.min_amount <= (k + 1) * config.min_amount)
                        by (nonlinear_arith)
                        requires
                            k + 1 <= config.num_transactions,
                            config.min_amount < 0,
                    ;
                }
            }
            let from_balance = self.token.balance_of(from);
            if from_balance >= amount {
                ok = ok + 1;
                volume = volume + amount;
            } else {
                failed = failed + 1;
            }
            k = k + 1;
        }
        proof {
            assert(per * users.len() == users.len() * per) by (nonlinear_arith);
            assert forall|i: int| 0 <= i < users.len() implies self.token@.balance(#[trigger] users[i]) == per by {
                assert(users.contains(users[i]));
            }
            assert forall|j: int| 0 <= j <= users.len() implies i128::MIN <= #[trigger] balances_sum(
                self.token@,
                users.take(j),
            ) <= i128::MAX by {
                lemma_balances_sum_uniform(self.token@, users, per, j);
                assert(0 <= j * per <= users.len() * per) by (nonlinear_arith)
                    requires
                        0 <= j <= users.len(),
                        per >= 0,
                ;
            }
            lemma_balances_sum_uniform(self.token@, users, per, users.len() as int);
            assert(users.contains(users[0]));
            assert(self.held() == per);
            assert(users.take(users.len() as int) =~= users);
            assert(self.token@.balance(self.treasury) == 0);
        }
        let violations = self.verify_invariants();
        PaymentsFuzzResults {
            total_transactions: k,
            successful_transfers: ok,
            failed_transfers: failed,
            insufficient_funds_caught: failed,
            total_volume_processed: volume,
            invariant_violations: violations,
        }
    }

    /// Compares the supply with the users' and the treasury's balances
    /// added up: no violation when they agree, else the one mismatch.
    fn verify_invariants(&self) -> (v: Vec<SupplyMismatch>)
        requires
            forall|j: int|
                0 <= j <= self.users@.len() ==> i128::MIN <= #[trigger] balances_sum(self.token@, self.users@.take(j))
                    <= i128::MAX,
            i128::MIN <= balances_sum(self.token@, self.users@) + self.token@.balance(self.treasury) <= i128::MAX,
        ensures
            ({
                let sum = balances_sum(self.token@, self.users@) + self.token@.balance(self.treasury);
                &&& sum == self.token@.total_supply ==> v@.len() == 0
                &&& sum != self.token@.total_supply ==> v@ == seq![
                    SupplyMismatch { total_supply: self.token@.total_supply, sum_balances: sum as i128 },
                ]
            }),
    {
        let total_supply = self.token.total_supply();
        let mut sum: i128 = 0;
        let mut i: usize = 0;
        while i < self.users.len()
            invariant
                i <= self.users@.len(),
                sum == balances_sum(self.token@, self.users@.take(i as int)),
                forall|j: int|
                    0 <= j <= self.users@.len() ==> i128::MIN <= #[trigger] balances_sum(
                        self.token@,
                        self.users@.take(j),
                    ) <= i128::MAX,
            decreases self.users.len() - i,
        {
            let u = self.users[i];
            proof {
                assert(self.users@.take(i + 1).drop_last() =~= self.users@.take(i as int));
                assert(self.users@.take(i + 1).last() == u);
                assert(i128::MIN <= balances_sum(self.token@, self.users@.take(i + 1)) <= i128::MAX);
            }
            sum = sum + self.token.balance_of(u);
            i = i + 1;
        }
        proof {
            assert(self.users@.take(self.users@.len() as int) =~= self.users@);
        }
        sum = sum + self.token.balance_of(self.treasury);
        let mut violations: Vec<SupplyMismatch> = Vec::new();
        if sum != total_supply {
            violations.push(SupplyMismatch { total_supply, sum_balances: sum });
            assert(violations@ =~= seq![SupplyMismatch { total_supply, sum_balances: sum }]);
        }
        violations
    }
}

/// The tallies of all three fuzzing runs.
#[derive(Clone, Debug)]
pub struct AllFuzzResults {
    pub access_control: AccessControlFuzzResults,
    pub payments: PaymentsFuzzResults,
    pub upgradeability: UpgradeabilityFuzzResults,
}

impl AllFuzzResults {
    /// No payment invariant was violated and no access-control error was
    /// recorded.
    pub fn all_passed(&self) -> (b: bool)
        ensures
            b == (self.payments.invariant_violations@.len() == 0 && self.access_control.errors@.len() == 0),
    {
        self.payments.invariant_violations.len() == 0 && self.access_control.errors.len() == 0
    }
}

} // verus!
