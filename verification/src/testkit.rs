//! Test fixtures for the contract suite: ledger snapshots, a gas profiler,
//! an event tracer, a transaction recorder, and mock token, oracle,
//! registry, migration-hook and upgradeable contracts.
use vstd::prelude::*;
use std::collections::HashMap;
use crate::auth::{Role, RoleTable};
use crate::errors::Error;

verus! {

broadcast use vstd::std_specs::hash::group_hash_axioms;

// ---------------------------------------------------------------------------
// Snapshots
// ---------------------------------------------------------------------------

/// The ledger position recorded by a snapshot, with a description.
#[derive(Clone, Debug)]
pub struct StateSnapshot {
    pub ledger_sequence: u32,
    pub timestamp: u64,
    pub description: Vec<u8>,
}

impl StateSnapshot {
    pub open spec fn spec_view(&self) -> (u32, u64, Seq<u8>) {
        (self.ledger_sequence, self.timestamp, self.description@)
    }

    /// A copy of this snapshot.
    pub fn duplicate(&self) -> (s: Self)
        ensures
            s.spec_view() == self.spec_view(),
    {
        let d = self.description.clone();
        assert(d@ =~= self.description@);
        StateSnapshot { ledger_sequence: self.ledger_sequence, timestamp: self.timestamp, description: d }
    }
}

/// A stack of snapshots to roll back to.
pub struct StateManager {
    snapshots: Vec<StateSnapshot>,
}

impl View for StateManager {
    type V = Seq<(u32, u64, Seq<u8>)>;

    closed spec fn view(&self) -> Seq<(u32, u64, Seq<u8>)> {
        self.snapshots@.map_values(|s: StateSnapshot| s.spec_view())
    }
}

impl StateManager {
    /// A manager without snapshots.
    pub fn new() -> (m: Self)
        ensures
            m@ == Seq::<(u32, u64, Seq<u8>)>::empty(),
    {
        let m = StateManager { snapshots: Vec::new() };
        assert(m@ =~= Seq::<(u32, u64, Seq<u8>)>::empty());
        m
    }

    /// Records the ledger position `(ledger_sequence, timestamp)` with a
    /// description and returns the snapshot.
    pub fn snapshot(&mut self, ledger_sequence: u32, timestamp: u64, description: Vec<u8>) -> (s: StateSnapshot)
        ensures
            s.spec_view() == (ledger_sequence, timestamp, description@),
            final(self)@ == old(self)@.push((ledger_sequence, timestamp, description@)),
    {
        let s = StateSnapshot { ledger_sequence, timestamp, description };
        let kept = s.duplicate();
        self.snapshots.push(kept);
        assert(self@ =~= old(self)@.push((ledger_sequence, timestamp, s.description@)));
        s
    }

    /// Removes and returns the latest snapshot, whose ledger position the
    /// caller restores; `None` when there is none.
    pub fn rollback_to_last(&mut self) -> (r: Option<StateSnapshot>)
        ensures
            old(self)@.len() == 0 ==> r is None && final(self)@ == old(self)@,
            old(self)@.len() > 0 ==> r is Some && r->Some_0.spec_view() == old(self)@.last() && final(self)@
                == old(self)@.drop_last(),
    {
        let r = self.snapshots.pop();
        proof {
            if old(self)@.len() > 0 {
                assert(self@ =~= old(self)@.drop_last());
            }
        }
        r
    }

    /// All snapshots, oldest first.
    pub fn list_snapshots(&self) -> (r: &[StateSnapshot])
        ensures
            r@.map_values(|s: StateSnapshot| s.spec_view()) == self@,
    {
        self.snapshots.as_slice()
    }
}

// ---------------------------------------------------------------------------
// Gas profiling
// ---------------------------------------------------------------------------

/// Summary statistics of the measurements of one operation.
#[derive(Clone, Copy, Debug, PartialEq, Eq, Structural)]
pub struct GasStats {
    pub count: usize,
    pub min: u64,
    pub max: u64,
    pub avg: u64,
    pub total: u64,
}

pub open spec fn seq_sum(s: Seq<u64>) -> int
    decreases s.len(),
{
    if s.len() == 0 {
        0
    } else {
        seq_sum(s.drop_last()) + s.last()
    }
}

pub open spec fn seq_min(s: Seq<u64>) -> u64
    decreases s.len(),
{
    if s.len() <= 1 {
        s[0]
    } else if s.last() < seq_min(s.drop_last()) {
        s.last()
    } else {
        seq_min(s.drop_last())
    }
}

pub open spec fn seq_max(s: Seq<u64>) -> u64
    decreases s.len(),
{
    if s.len() <= 1 {
        s[0]
    } else if s.last() > seq_max(s.drop_last()) {
        s.last()
    } else {
        seq_max(s.drop_last())
    }
}

/// The statistics of a non-empty list of measurements.
pub open spec fn stats_of(s: Seq<u64>) -> GasStats {
    GasStats {
        count: s.len() as usize,
        min: seq_min(s),
        max: seq_max(s),
        avg: (seq_sum(s) / (s.len() as int)) as u64,
        total: seq_sum(s) as u64,
    }
}

proof fn lemma_seq_sum_prefix(s: Seq<u64>, i: int)
    requires
        0 <= i <= s.len(),
    ensures
        0 <= seq_sum(s.subrange(0, i)) <= seq_sum(s),
    decreases s.len() - i,
{
    if i == s.len() {
        assert(s.subrange(0, i) =~= s);
        lemma_seq_sum_nonneg(s);
    } else {
        lemma_seq_sum_prefix(s, i + 1);
        assert(s.subrange(0, i + 1).drop_last() =~= s.subrange(0, i));
        lemma_seq_sum_nonneg(s.subrange(0, i));
    }
}

proof fn lemma_seq_sum_nonneg(s: Seq<u64>)
    ensures
        seq_sum(s) >= 0,
    decreases s.len(),
{
    if s.len() > 0 {
        lemma_seq_sum_nonneg(s.drop_last());
    }
}

/// Gas measurements recorded per operation (operations by id).
pub struct GasProfiler {
    measurements: HashMap<u64, Vec<u64>>,
}

impl View for GasProfiler {
    type V = Map<u64, Seq<u64>>;

    closed spec fn view(&self) -> Map<u64, Seq<u64>> {
        self.measurements@.map_values(|v: Vec<u64>| v@)
    }
}

impl GasProfiler {
    pub open spec fn recorded(&self, operation: u64) -> Seq<u64> {
        if self@.contains_key(operation) {
            self@[operation]
        } else {
            Seq::empty()
        }
    }

    /// A profiler without measurements.
    pub fn new() -> (p: Self)
        ensures
            p@ == Map::<u64, Seq<u64>>::empty(),
    {
        let p = GasProfiler { measurements: HashMap::new() };
        assert(p@ =~= Map::<u64, Seq<u64>>::empty());
        p
    }

    /// Appends one measurement of `operation`.
    pub fn record_measurement(&mut self, operation: u64, gas: u64)
        ensures
            final(self)@ == old(self)@.insert(operation, old(self).recorded(operation).push(gas)),
    {
        let mut v: Vec<u64> = match self.measurements.get(&operation) {
            Some(m) => m.clone(),
            None => Vec::new(),
        };
        proof {
            assert(v@ =~= self.recorded(operation));
        }
        v.push(gas);
        let ghost nv = v@;
        self.measurements.insert(operation, v);
        assert(self@ =~= old(self)@.insert(operation, nv));
    }

    /// The measurements of `operation`, in the order they were recorded.
    pub fn measurements_of(&self, operation: u64) -> (r: Vec<u64>)
        ensures
            r@ == self.recorded(operation),
    {
        match self.measurements.get(&operation) {
            Some(m) => {
                let c = m.clone();
                assert(c@ =~= m@);
                c
            },
            None => Vec::new(),
        }
    }

    /// Count, minimum, maximum, average (rounded down) and total of the
    /// measurements of `operation`; `None` when there are none.
    pub fn get_stats(&self, operation: u64) -> (r: Option<GasStats>)
        requires
            seq_sum(self.recorded(operation)) <= u64::MAX,
        ensures
            self.recorded(operation).len() == 0 ==> r is None,
            self.recorded(operation).len() > 0 ==> r == Some(stats_of(self.recorded(operation))),
    {
        let v = match self.measurements.get(&operation) {
            Some(m) => m,
            None => {
                return None;
            },
        };
        if v.len() == 0 {
            return None;
        }
        let ghost s = v@;
        let mut sum: u64 = v[0];
        let mut min: u64 = v[0];
        let mut max: u64 = v[0];
        let mut i: usize = 1;
        proof {
            assert(s.subrange(0, 1).drop_last() =~= Seq::<u64>::empty());
            assert(seq_sum(s.subrange(0, 1).drop_last()) == 0);
            assert(s.subrange(0, 1).last() == s[0]);
            assert(seq_sum(s.subrange(0, 1)) == s[0]);
            assert(seq_min(s.subrange(0, 1)) == s[0]);
        }
        while i < v.len()
            invariant
                s == v@,
                1 <= i <= v.len(),
                seq_sum(s) <= u64::MAX,
                sum == seq_sum(s.subrange(0, i as int)),
                min == seq_min(s.subrange(0, i as int)),
                max == seq_max(s.subrange(0, i as int)),
            decreases v.len() - i,
        {
            proof {
                lemma_seq_sum_prefix(s, i + 1);
                assert(s.subrange(0, i + 1).drop_last() =~= s.subrange(0, i as int));
            }
            let x = v[i];
            sum = sum + x;
            if x < min {
                min = x;
            }
            if x > max {
                max = x;
            }
            i = i + 1;
        }
        proof {
            assert(s.subrange(0, s.len() as int) =~= s);
        }
        let count = v.len();
        Some(GasStats { count, min, max, avg: sum / (count as u64), total: sum })
    }
}

// ---------------------------------------------------------------------------
// Mock token
// ---------------------------------------------------------------------------

/// Abstract state of the mock token.
pub struct MockTokenView {
    /// The token contract's own account, which `transfer` pays from.
    pub contract: u64,
    pub admin: u64,
    pub decimals: u32,
    pub name: Seq<u8>,
    pub symbol: Seq<u8>,
    pub balances: Map<u64, i128>,
    pub total_supply: i128,
}

/// A minimal token ledger.
pub struct MockToken {
    contract: u64,
    admin: u64,
    decimals: u32,
    name: Vec<u8>,
    symbol: Vec<u8>,
    balances: HashMap<u64, i128>,
    total_supply: i128,
}

impl View for MockToken {
    type V = MockTokenView;

    closed spec fn view(&self) -> MockTokenView {
        MockTokenView {
            contract: self.contract,
            admin: self.admin,
            decimals: self.decimals,
            name: self.name@,
            symbol: self.symbol@,
            balances: self.balances@,
            total_supply: self.total_supply,
        }
    }
}

impl MockTokenView {
    pub open spec fn balance(self, who: u64) -> i128 {
        if self.balances.contains_key(who) {
            self.balances[who]
        } else {
            0
        }
    }
}

impl MockToken {
    /// A token held at account `contract`, with no supply.
    pub fn initialize(contract: u64, admin: u64, decimals: u32, name: Vec<u8>, symbol: Vec<u8>) -> (t: Self)
        ensures
            t@ == (MockTokenView {
                contract,
                admin,
                decimals,
                name: name@,
                symbol: symbol@,
                balances: Map::empty(),
                total_supply: 0,
            }),
    {
        MockToken { contract, admin, decimals, name, symbol, balances: HashMap::new(), total_supply: 0 }
    }

    /// Initialising an initialised token changes nothing.
    pub fn reinitialize(&mut self, admin: u64, decimals: u32, name: Vec<u8>, symbol: Vec<u8>)
        ensures
            final(self)@ == old(self)@,
    {
    }

    /// Adds `amount` to the balance of `to` and to the supply (the admin
    /// authorises it).
    pub fn mint(&mut self, to: u64, amount: i128)
        requires
            i128::MIN <= old(self)@.balance(to) + amount <= i128::MAX,
            i128::MIN <= old(self)@.total_supply + amount <= i128::MAX,
        ensures
            final(self)@ == (MockTokenView {
                balances: old(self)@.balances.insert(to, (old(self)@.balance(to) + amount) as i128),
                total_supply: (old(self)@.total_supply + amount) as i128,
                ..old(self)@
            }),
    {
        let b = self.balance_of(to);
        self.balances.insert(to, b + amount);
        self.total_supply = self.total_supply + amount;
    }

    /// Pays `amount` from the token contract's own balance to `to`; `false`,
    /// and nothing changes, when that balance does not cover it. Both
    /// balances are read before either is written.
    pub fn transfer(&mut self, to: u64, amount: i128) -> (ok: bool)
        requires
            i128::MIN <= old(self)@.balance(old(self)@.contract) - amount <= i128::MAX,
            i128::MIN <= old(self)@.balance(to) + amount <= i128::MAX,
        ensures
            ok == (old(self)@.balance(old(self)@.contract) >= amount),
            ok ==> final(self)@ == (MockTokenView {
                balances: old(self)@.balances.insert(
                    old(self)@.contract,
                    (old(self)@.balance(old(self)@.contract) - amount) as i128,
                ).insert(to, (old(self)@.balance(to) + amount) as i128),
                ..old(self)@
            }),
            !ok ==> final(self)@ == old(self)@,
    {
        let from = self.contract;
        let from_balance = self.balance_of(from);
        let to_balance = self.balance_of(to);
        if from_balance >= amount {
            self.balances.insert(from, from_balance - amount);
            self.balances.insert(to, to_balance + amount);
            true
        } else {
            false
        }
    }

    /// The balance of `owner` (0 when none).
    pub fn balance_of(&self, owner: u64) -> (r: i128)
        ensures
            r == self@.balance(owner),
    {
        match self.balances.get(&owner) {
            Some(b) => *b,
            None => 0,
        }
    }

    pub fn total_supply(&self) -> (r: i128)
        ensures
            r == self@.total_supply,
    {
        self.total_supply
    }

    pub fn decimals(&self) -> (r: u32)
        ensures
            r == self@.decimals,
    {
        self.decimals
    }
}

// ---------------------------------------------------------------------------
// Mock oracle
// ---------------------------------------------------------------------------

/// A price with its observation time and precision.
#[derive(Clone, Copy, Debug, PartialEq, Eq, Structural)]
pub struct PriceData {
    pub price: i128,
    pub timestamp: u64,
    pub decimals: u32,
}

impl Default for PriceData {
    fn default() -> (p: Self)
        ensures
            p == (PriceData { price: 0, timestamp: 0, decimals: 0 }),
    {
        PriceData { price: 0, timestamp: 0, decimals: 0 }
    }
}

/// A price oracle whose admin sets prices per asset.
pub struct MockOracle {
    admin: u64,
    prices: HashMap<u64, PriceData>,
}

/// Abstract state of the mock oracle.
pub struct MockOracleView {
    pub admin: u64,
    pub prices: Map<u64, PriceData>,
}

impl View for MockOracle {
    type V = MockOracleView;

    closed spec fn view(&self) -> MockOracleView {
        MockOracleView { admin: self.admin, prices: self.prices@ }
    }
}

impl MockOracleView {
    pub open spec fn price_of(self, asset: u64) -> PriceData {
        if self.prices.contains_key(asset) {
            self.prices[asset]
        } else {
            PriceData { price: 0, timestamp: 0, decimals: 0 }
        }
    }
}

impl MockOracle {
    pub fn initialize(admin: u64) -> (o: Self)
        ensures
            o@ == (MockOracleView { admin, prices: Map::empty() }),
    {
        MockOracle { admin, prices: HashMap::new() }
    }

    /// Records `price` for `asset`, observed at `now` (the admin authorises
    /// it).
    pub fn update_price(&mut self, asset: u64, price: i128, decimals: u32, now: u64)
        ensures
            final(self)@ == (MockOracleView {
                prices: old(self)@.prices.insert(asset, PriceData { price, timestamp: now, decimals }),
                ..old(self)@
            }),
    {
        self.prices.insert(asset, PriceData { price, timestamp: now, decimals });
    }

    /// The price of `asset` (all zero when never set).
    pub fn get_price(&self, asset: u64) -> (p: PriceData)
        ensures
            p == self@.price_of(asset),
    {
        match self.prices.get(&asset) {
            Some(p) => *p,
            None => PriceData { price: 0, timestamp: 0, decimals: 0 },
        }
    }

    /// When the price of `asset` was last set (0 when never).
    pub fn get_last_updated(&self, asset: u64) -> (t: u64)
        ensures
            t == self@.price_of(asset).timestamp,
    {
        self.get_price(asset).timestamp
    }
}

// ---------------------------------------------------------------------------
// Mock registry
// ---------------------------------------------------------------------------

/// A name-to-address registry whose admin registers contracts.
pub struct MockRegistry {
    admin: u64,
    entries: HashMap<u64, u64>,
}

impl View for MockRegistry {
    type V = Map<u64, u64>;

    closed spec fn view(&self) -> Map<u64, u64> {
        self.entries@
    }
}

impl MockRegistry {
    pub fn initialize(admin: u64) -> (r: Self)
        ensures
            r@ == Map::<u64, u64>::empty(),
    {
        MockRegistry { admin, entries: HashMap::new() }
    }

    /// Points `name` at `address` (the admin authorises it).
    pub fn register_contract(&mut self, name: u64, address: u64)
        ensures
            final(self)@ == old(self)@.insert(name, address),
    {
        self.entries.insert(name, address);
    }

    pub fn get_contract(&self, name: u64) -> (r: Option<u64>)
        ensures
            self@.contains_key(name) ==> r == Some(self@[name]),
            !self@.contains_key(name) ==> r is None,
    {
        match self.entries.get(&name) {
            Some(a) => Some(*a),
            None => None,
        }
    }
}

// ---------------------------------------------------------------------------
// Mock migration hook and upgradeable contract
// ---------------------------------------------------------------------------

/// A migration hook that approves or rejects every upgrade, counting calls.
#[derive(Clone, Copy, Debug, PartialEq, Eq, Structural)]
pub struct MockMigrationHook {
    pub admin: u64,
    pub approve: bool,
    pub pre_count: u32,
    pub post_count: u32,
    pub last_old: u32,
    pub last_new: u32,
}

impl MockMigrationHook {
    pub fn initialize(admin: u64, approve: bool) -> (h: Self)
        ensures
            h == (MockMigrationHook { admin, approve, pre_count: 0, post_count: 0, last_old: 0, last_new: 0 }),
    {
        MockMigrationHook { admin, approve, pre_count: 0, post_count: 0, last_old: 0, last_new: 0 }
    }

    /// The pre-upgrade call: records it and answers the configured
    /// approval.
    pub fn pre_upg(&mut self, old_version: u32, new_version: u32) -> (ok: bool)
        requires
            old(self).pre_count < u32::MAX,
        ensures
            ok == old(self).approve,
            *final(self) == (MockMigrationHook {
                pre_count: (old(self).pre_count + 1) as u32,
                last_old: old_version,
                last_new: new_version,
                ..*old(self)
            }),
    {
        self.pre_count = self.pre_count + 1;
        self.last_old = old_version;
        self.last_new = new_version;
        self.approve
    }

    /// The post-upgrade call: records it.
    pub fn pst_upg(&mut self, old_version: u32, new_version: u32)
        requires
            old(self).post_count < u32::MAX,
        ensures
            *final(self) == (MockMigrationHook {
                post_count: (old(self).post_count + 1) as u32,
                last_old: old_version,
                last_new: new_version,
                ..*old(self)
            }),
    {
        self.post_count = self.post_count + 1;
        self.last_old = old_version;
        self.last_new = new_version;
    }

    pub fn pre_call_count(&self) -> (r: u32)
        ensures
            r == self.pre_count,
    {
        self.pre_count
    }

    pub fn post_call_count(&self) -> (r: u32)
        ensures
            r == self.post_count,
    {
        self.post_count
    }

    /// The versions of the last call of either hook.
    pub fn last_versions(&self) -> (r: (u32, u32))
        ensures
            r == (self.last_old, self.last_new),
    {
        (self.last_old, self.last_new)
    }
}

/// A contract that records a version and lets Upgrader-role holders bump
/// it.
pub struct MockUpgradeableContract {
    admin: u64,
    version: u32,
    roles: RoleTable,
}

/// Abstract state of the mock upgradeable contract.
pub struct MockUpgradeableView {
    pub admin: u64,
    pub version: u32,
    pub roles: Set<(u64, Role)>,
}

impl View for MockUpgradeableContract {
    type V = MockUpgradeableView;

    closed spec fn view(&self) -> MockUpgradeableView {
        MockUpgradeableView { admin: self.admin, version: self.version, roles: self.roles@ }
    }
}

impl MockUpgradeableContract {
    pub fn initialize(admin: u64, version: u32) -> (c: Self)
        ensures
            c@ == (MockUpgradeableView { admin, version, roles: Set::empty() }),
    {
        MockUpgradeableContract { admin, version, roles: RoleTable::new() }
    }

    /// Writes a role into the role store the upgrade check reads.
    pub fn grant_role(&mut self, who: u64, role: Role)
        ensures
            final(self)@ == (MockUpgradeableView { roles: old(self)@.roles.insert((who, role)), ..old(self)@ }),
    {
        self.roles.grant(who, role);
    }

    /// An Upgrader-role holder sets the version; anyone else is refused.
    pub fn simulate_upgrade(&mut self, caller: u64, new_version: u32) -> (r: Result<(), Error>)
        ensures
            old(self)@.roles.contains((caller, Role::Upgrader)) ==> r is Ok && final(self)@
                == (MockUpgradeableView { version: new_version, ..old(self)@ }),
            !old(self)@.roles.contains((caller, Role::Upgrader)) ==> r == Err::<(), Error>(Error::Unauthorized)
                && final(self)@ == old(self)@,
    {
        if !self.roles.has_role(caller, Role::Upgrader) {
            return Err(Error::Unauthorized);
        }
        self.version = new_version;
        Ok(())
    }

    pub fn get_version(&self) -> (r: u32)
        ensures
            r == self@.version,
    {
        self.version
    }
}

/// A 32-byte code hash whose first byte is `seed` and the rest zero.
pub fn fake_wasm_hash(seed: u8) -> (h: [u8; 32])
    ensures
        h@[0] == seed,
        forall|i: int| 1 <= i < 32 ==> h@[i] == 0,
{
    let mut buf = [0u8; 32];
    buf[0] = seed;
    buf
}

proof fn lemma_min_max_bound(s: Seq<u64>)
    requires
        s.len() > 0,
    ensures
        forall|i: int| 0 <= i < s.len() ==> seq_min(s) <= #[trigger] s[i] <= seq_max(s),
        s.len() * seq_min(s) <= seq_sum(s) <= s.len() * seq_max(s),
    decreases s.len(),
{
    if s.len() == 1 {
        assert(s.drop_last().len() == 0);
        assert(seq_sum(s.drop_last()) == 0);
    } else {
        let p = s.drop_last();
        lemma_min_max_bound(p);
        assert forall|i: int| 0 <= i < s.len() implies seq_min(s) <= #[trigger] s[i] <= seq_max(s) by {
            if i < p.len() {
                assert(p[i] == s[i]);
            }
        }
        let n = p.len() as int;
        assert(n * seq_min(p) <= seq_sum(p) <= n * seq_max(p));
        assert((n + 1) * seq_min(s) <= seq_sum(p) + s.last()) by (nonlinear_arith)
            requires
                n * seq_min(p) <= seq_sum(p),
                seq_min(s) <= seq_min(p),
                seq_min(s) <= s.last(),
                n >= 0,
        ;
        assert(seq_sum(p) + s.last() <= (n + 1) * seq_max(s)) by (nonlinear_arith)
            requires
                seq_sum(p) <= n * seq_max(p),
                seq_max(p) <= seq_max(s),
                s.last() <= seq_max(s),
                n >= 0,
        ;
    }
}

/// The statistics of recorded gas are ordered: the minimum is at most the
/// average, which is at most the maximum, and every measurement lies
/// between the minimum and the maximum.
pub proof fn lemma_gas_stats_ordered(s: Seq<u64>)
    requires
        s.len() > 0,
        seq_sum(s) <= u64::MAX,
    ensures
        stats_of(s).min <= stats_of(s).avg <= stats_of(s).max,
        forall|i: int| 0 <= i < s.len() ==> stats_of(s).min <= #[trigger] s[i] <= stats_of(s).max,
{
    lemma_min_max_bound(s);
    lemma_seq_sum_nonneg(s);
    let n = s.len() as int;
    assert(seq_min(s) <= seq_sum(s) / n <= seq_max(s)) by (nonlinear_arith)
        requires
            n > 0,
            n * seq_min(s) <= seq_sum(s) <= n * seq_max(s),
    ;
}

/// Snapshots roll back last-in first-out: rolling back right after a
/// snapshot returns that snapshot and leaves the earlier ones as they were.
pub proof fn lemma_snapshot_rollback(before: Seq<(u32, u64, Seq<u8>)>, snap: (u32, u64, Seq<u8>))
    ensures
        before.push(snap).len() > 0,
        before.push(snap).last() == snap,
        before.push(snap).drop_last() == before,
{
    assert(before.push(snap).drop_last() =~= before);
}

/// The snapshots listed after taking `snaps`, one after another, starting
/// from the list `v`: each [`StateManager::snapshot`] appends one.
pub open spec fn after_snapshots(v: Seq<(u32, u64, Seq<u8>)>, snaps: Seq<(u32, u64, Seq<u8>)>) -> Seq<
    (u32, u64, Seq<u8>),
>
    decreases snaps.len(),
{
    if snaps.len() == 0 {
        v
    } else {
        after_snapshots(v, snaps.drop_last()).push(snaps.last())
    }
}

/// Snapshots are listed in the order they were taken: taking `snaps` one
/// after another, with no rollback in between, appends exactly them, in
/// order, to what was listed; from a new manager the list is `snaps`.
pub proof fn lemma_snapshots_listed_in_order(v: Seq<(u32, u64, Seq<u8>)>, snaps: Seq<(u32, u64, Seq<u8>)>)
    ensures
        after_snapshots(v, snaps) == v + snaps,
        after_snapshots(Seq::empty(), snaps) == snaps,
    decreases snaps.len(),
{
    if snaps.len() > 0 {
        lemma_snapshots_listed_in_order(v, snaps.drop_last());
        assert(v + snaps =~= (v + snaps.drop_last()).push(snaps.last()));
        assert(Seq::<(u32, u64, Seq<u8>)>::empty() + snaps =~= snaps);
        lemma_snapshots_listed_in_order(Seq::empty(), snaps.drop_last());
    } else {
        assert(v + snaps =~= v);
    }
}

// ---------------------------------------------------------------------------
// Event tracing
// ---------------------------------------------------------------------------

/// Whether two byte strings are equal.
pub fn bytes_eq(a: &[u8], b: &[u8]) -> (r: bool)
    ensures
        r == (a@ == b@),
{
    if a.len() != b.len() {
        return false;
    }
    let mut i: usize = 0;
    while i < a.len()
        invariant
            a@.len() == b@.len(),
            i <= a@.len(),
            forall|j: int| 0 <= j < i ==> a@[j] == b@[j],
        decreases a.len() - i,
    {
        if a[i] != b[i] {
            return false;
        }
        i = i + 1;
    }
    assert(a@ =~= b@);
    true
}

/// One traced event: when, what, and its data items.
#[derive(Clone, Debug)]
pub struct TracedEvent {
    pub timestamp: u64,
    pub name: Vec<u8>,
    pub data: Vec<Vec<u8>>,
}

impl TracedEvent {
    pub open spec fn spec_view(&self) -> (u64, Seq<u8>, Seq<Seq<u8>>) {
        (self.timestamp, self.name@, self.data@.map_values(|d: Vec<u8>| d@))
    }
}

/// The events of `s` named `name`, in order.
pub open spec fn named(s: Seq<TracedEvent>, name: Seq<u8>) -> Seq<TracedEvent>
    decreases s.len(),
{
    if s.len() == 0 {
        Seq::empty()
    } else {
        let prev = named(s.drop_last(), name);
        if s.last().name@ == name {
            prev.push(s.last())
        } else {
            prev
        }
    }
}

/// A log of events for tracing contract interactions.
pub struct EventTracer {
    events: Vec<TracedEvent>,
}

impl View for EventTracer {
    type V = Seq<TracedEvent>;

    closed spec fn view(&self) -> Seq<TracedEvent> {
        self.events@
    }
}

impl EventTracer {
    pub fn new() -> (t: Self)
        ensures
            t@ == Seq::<TracedEvent>::empty(),
    {
        EventTracer { events: Vec::new() }
    }

    /// Appends an event.
    pub fn log_event(&mut self, timestamp: u64, event_name: Vec<u8>, data: Vec<Vec<u8>>)
        ensures
            final(self)@.len() == old(self)@.len() + 1,
            final(self)@.drop_last() == old(self)@,
            final(self)@.last().spec_view() == (timestamp, event_name@, data@.map_values(|d: Vec<u8>| d@)),
    {
        let e = TracedEvent { timestamp, name: event_name, data };
        self.events.push(e);
        assert(self@.drop_last() =~= old(self)@);
    }

    /// The events named `event_name`, oldest first.
    pub fn filter_by_name(&self, event_name: &[u8]) -> (r: Vec<&TracedEvent>)
        ensures
            r@.len() == named(self@, event_name@).len(),
            forall|i: int| 0 <= i < r@.len() ==> *#[trigger] r@[i] == named(self@, event_name@)[i],
    {
        let mut r: Vec<&TracedEvent> = Vec::new();
        let mut i: usize = 0;
        while i < self.events.len()
            invariant
                i <= self.events@.len(),
                r@.len() == named(self.events@.subrange(0, i as int), event_name@).len(),
                forall|j: int| 0 <= j < r@.len() ==> *#[trigger] r@[j] == named(
                    self.events@.subrange(0, i as int),
                    event_name@,
                )[j],
            decreases self.events.len() - i,
        {
            proof {
                assert(self.events@.subrange(0, i + 1).drop_last() =~= self.events@.subrange(0, i as int));
            }
            let e = &self.events[i];
            if bytes_eq(e.name.as_slice(), event_name) {
                r.push(e);
            }
            i = i + 1;
        }
        proof {
            assert(self.events@.subrange(0, self.events@.len() as int) =~= self.events@);
        }
        r
    }

    /// Forgets every event.
    pub fn clear(&mut self)
        ensures
            final(self)@ == Seq::<TracedEvent>::empty(),
    {
        self.events.clear();
    }

    /// Every event, oldest first.
    pub fn events(&self) -> (r: &[TracedEvent])
        ensures
            r@ == self@,
    {
        self.events.as_slice()
    }
}

// ---------------------------------------------------------------------------
// Simulation records
// ---------------------------------------------------------------------------

/// One recorded transaction of a simulation.
#[derive(Clone, Debug)]
pub struct SimulationTx {
    pub name: Vec<u8>,
    pub contract: u64,
    pub function: Vec<u8>,
    /// The call's arguments, each as its encoded bytes.
    pub args: Vec<Vec<u8>>,
    pub caller: u64,
    pub ledger_sequence: u32,
    pub timestamp: u64,
    pub gas_used: u64,
    pub success: bool,
    pub error: Option<Vec<u8>>,
}

/// The estimated gas of a call of `function`, by its name.
pub open spec fn gas_estimate(function: Seq<u8>) -> u64 {
    if function == seq![105u8, 110, 105, 116, 105, 97, 108, 105, 122, 101] {
        150000
    } else if function == seq![100u8, 101, 112, 111, 115, 105, 116] {
        100000
    } else if function == seq![119u8, 105, 116, 104, 100, 114, 97, 119] {
        120000
    } else if function == seq![116u8, 114, 97, 110, 115, 102, 101, 114] {
        80000
    } else if function == seq![99u8, 108, 97, 105, 109] {
        90000
    } else if function == seq![117u8, 112, 103, 114, 97, 100, 101] {
        200000
    } else if function == seq![118u8, 111, 116, 101] {
        75000
    } else {
        100000
    }
}

/// The gas charged for a call of `function`: `initialize` 150 000,
/// `deposit` 100 000, `withdraw` 120 000, `transfer` 80 000, `claim`
/// 90 000, `upgrade` 200 000, `vote` 75 000, anything else 100 000.
pub fn estimated_gas(function: &[u8]) -> (g: u64)
    ensures
        g == gas_estimate(function@),
{
    let initialize: [u8; 10] = [105, 110, 105, 116, 105, 97, 108, 105, 122, 101];
    let deposit: [u8; 7] = [100, 101, 112, 111, 115, 105, 116];
    let withdraw: [u8; 8] = [119, 105, 116, 104, 100, 114, 97, 119];
    let transfer: [u8; 8] = [116, 114, 97, 110, 115, 102, 101, 114];
    let claim: [u8; 5] = [99, 108, 97, 105, 109];
    let upgrade: [u8; 7] = [117, 112, 103, 114, 97, 100, 101];
    let vote: [u8; 4] = [118, 111, 116, 101];
    proof {
        assert(initialize@ =~= seq![105u8, 110, 105, 116, 105, 97, 108, 105, 122, 101]);
        assert(deposit@ =~= seq![100u8, 101, 112, 111, 115, 105, 116]);
        assert(withdraw@ =~= seq![119u8, 105, 116, 104, 100, 114, 97, 119]);
        assert(transfer@ =~= seq![116u8, 114, 97, 110, 115, 102, 101, 114]);
        assert(claim@ =~= seq![99u8, 108, 97, 105, 109]);
        assert(upgrade@ =~= seq![117u8, 112, 103, 114, 97, 100, 101]);
        assert(vote@ =~= seq![118u8, 111, 116, 101]);
    }
    if bytes_eq(function, initialize.as_slice()) {
        150000
    } else if bytes_eq(function, deposit.as_slice()) {
        100000
    } else if bytes_eq(function, withdraw.as_slice()) {
        120000
    } else if bytes_eq(function, transfer.as_slice()) {
        80000
    } else if bytes_eq(function, claim.as_slice()) {
        90000
    } else if bytes_eq(function, upgrade.as_slice()) {
        200000
    } else if bytes_eq(function, vote.as_slice()) {
        75000
    } else {
        100000
    }
}

/// The index of the last transaction with the largest gas (the first is
/// returned for a single one).
pub open spec fn last_max_gas_index(s: Seq<SimulationTx>) -> int
    decreases s.len(),
{
    if s.len() <= 1 {
        0
    } else {
        let p = last_max_gas_index(s.drop_last());
        if s.last().gas_used >= s[p].gas_used {
            s.len() - 1
        } else {
            p
        }
    }
}

proof fn lemma_last_max_gas_index(s: Seq<SimulationTx>)
    requires
        s.len() > 0,
    ensures
        0 <= last_max_gas_index(s) < s.len(),
        forall|i: int| 0 <= i < s.len() ==> #[trigger] s[i].gas_used <= s[last_max_gas_index(s)].gas_used,
    decreases s.len(),
{
    if s.len() > 1 {
        let p = s.drop_last();
        lemma_last_max_gas_index(p);
        assert forall|i: int| 0 <= i < s.len() implies #[trigger] s[i].gas_used <= s[last_max_gas_index(s)].gas_used by {
            if i < p.len() {
                assert(p[i] == s[i]);
                assert(p[last_max_gas_index(p)] == s[last_max_gas_index(p)]);
            }
        }
    }
}

/// The transactions of `s` that succeeded (`ok`) or failed (`!ok`), in
/// order.
pub open spec fn with_outcome(s: Seq<SimulationTx>, ok: bool) -> Seq<SimulationTx>
    decreases s.len(),
{
    if s.len() == 0 {
        Seq::empty()
    } else {
        let prev = with_outcome(s.drop_last(), ok);
        if s.last().success == ok {
            prev.push(s.last())
        } else {
            prev
        }
    }
}

/// The outcome of a simulation run.
#[derive(Clone, Debug)]
pub struct SimulationResult {
    pub transactions: Vec<SimulationTx>,
    pub total_gas_used: u64,
    pub start_ledger: u32,
    pub end_ledger: u32,
    pub start_time: u64,
    pub end_time: u64,
}

impl SimulationResult {
    /// The most expensive transaction (the last of equally expensive ones);
    /// `None` for an empty run.
    pub fn most_expensive_tx(&self) -> (r: Option<&SimulationTx>)
        ensures
            self.transactions@.len() == 0 ==> r is None,
            self.transactions@.len() > 0 ==> r is Some && *r->Some_0 == self.transactions@[last_max_gas_index(
                self.transactions@,
            )],
    {
        if self.transactions.len() == 0 {
            return None;
        }
        let mut best: usize = 0;
        let mut i: usize = 1;
        proof {
            assert(self.transactions@.subrange(0, 1).len() == 1);
        }
        while i < self.transactions.len()
            invariant
                1 <= i <= self.transactions@.len(),
                best < i,
                best == last_max_gas_index(self.transactions@.subrange(0, i as int)),
            decreases self.transactions.len() - i,
        {
            proof {
                let s = self.transactions@.subrange(0, i + 1);
                assert(s.drop_last() =~= self.transactions@.subrange(0, i as int));
                assert(s[best as int] == self.transactions@[best as int]);
            }
            if self.transactions[i].gas_used >= self.transactions[best].gas_used {
                best = i;
            }
            i = i + 1;
        }
        proof {
            assert(self.transactions@.subrange(0, self.transactions@.len() as int) =~= self.transactions@);
        }
        Some(&self.transactions[best])
    }

    fn with_success(&self, ok: bool) -> (r: Vec<&SimulationTx>)
        ensures
            r@.len() == with_outcome(self.transactions@, ok).len(),
            forall|i: int| 0 <= i < r@.len() ==> *#[trigger] r@[i] == with_outcome(self.transactions@, ok)[i],
    {
        let mut r: Vec<&SimulationTx> = Vec::new();
        let mut i: usize = 0;
        while i < self.transactions.len()
            invariant
                i <= self.transactions@.len(),
                r@.len() == with_outcome(self.transactions@.subrange(0, i as int), ok).len(),
                forall|j: int| 0 <= j < r@.len() ==> *#[trigger] r@[j] == with_outcome(
                    self.transactions@.subrange(0, i as int),
                    ok,
                )[j],
            decreases self.transactions.len() - i,
        {
            proof {
                assert(self.transactions@.subrange(0, i + 1).drop_last() =~= self.transactions@.subrange(0, i as int));
            }
            let t = &self.transactions[i];
            if t.success == ok {
                r.push(t);
            }
            i = i + 1;
        }
        proof {
            assert(self.transactions@.subrange(0, self.transactions@.len() as int) =~= self.transactions@);
        }
        r
    }

    /// The successful transactions, in order.
    pub fn successful_txs(&self) -> (r: Vec<&SimulationTx>)
        ensures
            r@.len() == with_outcome(self.transactions@, true).len(),
            forall|i: int| 0 <= i < r@.len() ==> *#[trigger] r@[i] == with_outcome(self.transactions@, true)[i],
    {
        self.with_success(true)
    }

    /// The failed transactions, in order.
    pub fn failed_txs(&self) -> (r: Vec<&SimulationTx>)
        ensures
            r@.len() == with_outcome(self.transactions@, false).len(),
            forall|i: int| 0 <= i < r@.len() ==> *#[trigger] r@[i] == with_outcome(self.transactions@, false)[i],
    {
        self.with_success(false)
    }
}

/// Records the transactions of a deterministic simulation and charges each
/// its estimated gas.
pub struct DeterministicSimulator {
    transactions: Vec<SimulationTx>,
    current_gas_used: u64,
    starting_ledger: u32,
    starting_time: u64,
}

impl DeterministicSimulator {
    pub closed spec fn txs(&self) -> Seq<SimulationTx> {
        self.transactions@
    }

    pub closed spec fn gas(&self) -> u64 {
        self.current_gas_used
    }

    pub closed spec fn start(&self) -> (u32, u64) {
        (self.starting_ledger, self.starting_time)
    }

    /// A simulator starting at the given ledger position, with nothing
    /// recorded.
    pub fn new(starting_ledger: u32, starting_time: u64) -> (s: Self)
        ensures
            s.txs() == Seq::<SimulationTx>::empty(),
            s.gas() == 0,
            s.start() == (starting_ledger, starting_time),
    {
        DeterministicSimulator { transactions: Vec::new(), current_gas_used: 0, starting_ledger, starting_time }
    }

    /// Records a call of `function` on `contract` with `args` that was
    /// invoked at `(ledger_sequence, timestamp)`, and charges its estimated
    /// gas. `error` is the call's
    /// failure, if it failed: the transaction succeeded exactly when there
    /// is none.
    pub fn record_tx(
        &mut self,
        name: Vec<u8>,
        contract: u64,
        function: Vec<u8>,
        args: Vec<Vec<u8>>,
        caller: u64,
        ledger_sequence: u32,
        timestamp: u64,
        error: Option<Vec<u8>>,
    ) -> (g: u64)
        requires
            old(self).gas() + gas_estimate(function@) <= u64::MAX,
        ensures
            g == gas_estimate(function@),
            final(self).gas() == old(self).gas() + g,
            final(self).start() == old(self).start(),
            final(self).txs().drop_last() == old(self).txs(),
            final(self).txs().len() == old(self).txs().len() + 1,
            ({
                let t = final(self).txs().last();
                &&& t.name@ == name@
                &&& t.contract == contract
                &&& t.function@ == function@
                &&& t.args@ == args@
                &&& t.caller == caller
                &&& t.ledger_sequence == ledger_sequence
                &&& t.timestamp == timestamp
                &&& t.gas_used == g
                &&& t.success == (error is None)
                &&& t.error is Some == error is Some
                &&& t.error is Some ==> t.error->0@ == error->0@
            }),
    {
        let g = estimated_gas(function.as_slice());
        let success = error.is_none();
        self.transactions.push(
            SimulationTx {
                name,
                contract,
                function,
                args,
                caller,
                ledger_sequence,
                timestamp,
                gas_used: g,
                success,
                error,
            },
        );
        self.current_gas_used = self.current_gas_used + g;
        assert(self.transactions@.drop_last() =~= old(self).transactions@);
        g
    }

    /// The run's result, ending at the given ledger position.
    pub fn finalize(self, end_ledger: u32, end_time: u64) -> (r: SimulationResult)
        ensures
            r.transactions@ == self.txs(),
            r.total_gas_used == self.gas(),
            (r.start_ledger, r.start_time) == self.start(),
            r.end_ledger == end_ledger,
            r.end_time == end_time,
    {
        SimulationResult {
            transactions: self.transactions,
            total_gas_used: self.current_gas_used,
            start_ledger: self.starting_ledger,
            end_ledger,
            start_time: self.starting_time,
            end_time,
        }
    }
}

} // verus!
