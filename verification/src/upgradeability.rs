//! Upgrade registry and coordinator: contracts are registered with their
//! version and code hash, upgrades are proposed by upgraders, executed with
//! optional migration hooks, and recorded in a history.
//!
//! A migration hook is another contract; its answers are handed in by the
//! caller of [`UpgradeabilityContract::execute_upgrade`] (see
//! [`UpgradeabilityContract::upgrade_hook_call`] for the call to make).
use vstd::prelude::*;
use std::collections::HashMap;
use crate::auth::{Role, RoleTable};

verus! {

broadcast use vstd::std_specs::hash::group_hash_axioms;

/// Upgrade error codes (900-910).
#[derive(Clone, Copy, Debug, PartialEq, Eq, Structural)]
pub enum UpgradeError {
    ContractNotRegistered,
    ContractAlreadyRegistered,
    NoChangeDetected,
    ProposalNotFound,
    AlreadyExecuted,
    MigrationHookFailed,
    AlreadyPending,
    NotUpgrader,
    InvalidWasmHash,
    StorageIncompatible,
    InvalidMigrationHook,
}

impl UpgradeError {
    pub open spec fn spec_code(&self) -> u32 {
        match self {
            UpgradeError::ContractNotRegistered => 900,
            UpgradeError::ContractAlreadyRegistered => 901,
            UpgradeError::NoChangeDetected => 902,
            UpgradeError::ProposalNotFound => 903,
            UpgradeError::AlreadyExecuted => 904,
            UpgradeError::MigrationHookFailed => 905,
            UpgradeError::AlreadyPending => 906,
            UpgradeError::NotUpgrader => 907,
            UpgradeError::InvalidWasmHash => 908,
            UpgradeError::StorageIncompatible => 909,
            UpgradeError::InvalidMigrationHook => 910,
        }
    }

    /// The numeric code of this error.
    pub fn code(&self) -> (c: u32)
        ensures
            c == self.spec_code(),
    {
        match self {
            UpgradeError::ContractNotRegistered => 900,
            UpgradeError::ContractAlreadyRegistered => 901,
            UpgradeError::NoChangeDetected => 902,
            UpgradeError::ProposalNotFound => 903,
            UpgradeError::AlreadyExecuted => 904,
            UpgradeError::MigrationHookFailed => 905,
            UpgradeError::AlreadyPending => 906,
            UpgradeError::NotUpgrader => 907,
            UpgradeError::InvalidWasmHash => 908,
            UpgradeError::StorageIncompatible => 909,
            UpgradeError::InvalidMigrationHook => 910,
        }
    }
}

/// A 32-byte code hash.
pub type WasmHash = [u8; 32];

/// The active version of a registered contract.
#[derive(Clone, Copy, Debug)]
pub struct VersionInfo {
    pub version: u32,
    pub wasm_hash: WasmHash,
    pub deployed_at: u64,
}

/// A registered contract.
#[derive(Clone, Copy, Debug)]
pub struct RegistryEntry {
    pub contract_id: u64,
    pub name: u64,
    pub current: VersionInfo,
    pub migration_hook: Option<u64>,
}

/// An upgrade proposal (its note is kept beside it).
#[derive(Clone, Copy, Debug)]
pub struct UpgradeProposal {
    pub id: u64,
    pub contract_id: u64,
    pub new_wasm_hash: WasmHash,
    pub new_version: u32,
    pub proposer: u64,
    pub executed: bool,
    pub created_at: u64,
    pub executed_at: u64,
}

/// A completed upgrade; the note is the executed proposal's note.
#[derive(Clone, Copy, Debug)]
pub struct UpgradeRecord {
    pub contract_id: u64,
    pub proposal_id: u64,
    pub old_version: u32,
    pub new_version: u32,
    pub old_wasm_hash: WasmHash,
    pub new_wasm_hash: WasmHash,
    pub executor: u64,
    pub executed_at: u64,
}

/// The upgrade state of a registered contract.
#[derive(Clone, Copy, Debug, PartialEq, Eq, Structural)]
pub enum UpgradeStatus {
    Current,
    Pending(u64),
    Completed,
}

/// The migration-hook calls an upgrade needs: `pre_upg(old, new)` must
/// answer `true`, then `pst_upg(old, new)` must complete.
#[derive(Clone, Copy, Debug, PartialEq, Eq, Structural)]
pub struct HookCall {
    pub hook: u64,
    pub old_version: u32,
    pub new_version: u32,
}

/// An upgrade that `execute_upgrade` has applied: the post-upgrade hook
/// call still to make, and what `abort_upgrade` needs to undo the upgrade
/// when that call fails.
pub struct AppliedUpgrade {
    post_hook: Option<HookCall>,
    contract_id: u64,
    proposal_id: u64,
    entry: RegistryEntry,
    description: Vec<u8>,
    proposal: UpgradeProposal,
    pending: Option<u64>,
    record: Option<UpgradeRecord>,
    before: Ghost<UpgradeView>,
    after: Ghost<UpgradeView>,
}

impl AppliedUpgrade {
    /// The `pst_upg` call to make now that the registry has moved, when
    /// the contract has a migration hook.
    pub closed spec fn post_hook_call(&self) -> Option<HookCall> {
        self.post_hook
    }

    /// The `pst_upg` call to make now that the registry has moved, when
    /// the contract has a migration hook.
    pub fn post_hook(&self) -> (r: Option<HookCall>)
        ensures
            r == self.post_hook_call(),
    {
        self.post_hook
    }

    /// The registry's state before the upgrade.
    pub closed spec fn before(&self) -> UpgradeView {
        self.before@
    }

    /// The registry's state right after the upgrade.
    pub closed spec fn after(&self) -> UpgradeView {
        self.after@
    }

    /// What was saved is the state before the upgrade, and the upgrade
    /// touched only the contract's entry, its description, the proposal,
    /// the pending mark and the history slot.
    pub closed spec fn valid(&self) -> bool {
        let b = self.before@;
        let a = self.after@;
        let c = self.contract_id;
        let p = self.proposal_id;
        &&& b.wf()
        &&& b.registry.contains_key(c) && b.registry[c] == self.entry
        &&& b.descriptions.contains_key(c) && b.descriptions[c] == self.description@
        &&& b.proposals.contains_key(p) && b.proposals[p] == self.proposal
        &&& self.pending == (if b.pending.contains_key(c) { Some(b.pending[c]) } else { None::<u64> })
        &&& self.record == (if b.history.contains_key(p) {
            Some(b.history[p])
        } else {
            None::<UpgradeRecord>
        })
        &&& a.registry == b.registry.insert(c, a.registry[c])
        &&& a.descriptions == b.descriptions.insert(c, a.descriptions[c])
        &&& a.proposals == b.proposals.insert(p, a.proposals[p])
        &&& a.pending == b.pending.remove(c)
        &&& a.history == b.history.insert(p, a.history[p])
        &&& a.admin == b.admin && a.roles == b.roles && a.by_name == b.by_name && a.reg_count == b.reg_count
        &&& a.hooks == b.hooks && a.prop_count == b.prop_count && a.notes == b.notes
    }
}

/// The registry's state, as the contracts speak of it.
pub struct UpgradeView {
    pub admin: u64,
    pub roles: Set<(u64, Role)>,
    pub registry: Map<u64, RegistryEntry>,
    /// Description of each registered contract's active version.
    pub descriptions: Map<u64, Seq<u8>>,
    pub by_name: Map<u64, u64>,
    pub reg_count: u64,
    pub hooks: Map<u64, u64>,
    pub prop_count: u64,
    pub proposals: Map<u64, UpgradeProposal>,
    pub notes: Map<u64, Seq<u8>>,
    pub pending: Map<u64, u64>,
    /// Completed upgrades, by proposal id.
    pub history: Map<u64, UpgradeRecord>,
}

pub struct UpgradeabilityContract {
    admin: u64,
    roles: RoleTable,
    registry: HashMap<u64, RegistryEntry>,
    descriptions: HashMap<u64, Vec<u8>>,
    by_name: HashMap<u64, u64>,
    reg_count: u64,
    hooks: HashMap<u64, u64>,
    prop_count: u64,
    proposals: HashMap<u64, UpgradeProposal>,
    notes: HashMap<u64, Vec<u8>>,
    pending: HashMap<u64, u64>,
    history: HashMap<u64, UpgradeRecord>,
}

impl View for UpgradeabilityContract {
    type V = UpgradeView;

    closed spec fn view(&self) -> UpgradeView {
        UpgradeView {
            admin: self.admin,
            roles: self.roles@,
            registry: self.registry@,
            descriptions: self.descriptions@.map_values(|v: Vec<u8>| v@),
            by_name: self.by_name@,
            reg_count: self.reg_count,
            hooks: self.hooks@,
            prop_count: self.prop_count,
            proposals: self.proposals@,
            notes: self.notes@.map_values(|v: Vec<u8>| v@),
            pending: self.pending@,
            history: self.history@,
        }
    }
}

/// The description recorded with a contract's first version.
pub open spec fn initial_description() -> Seq<u8> {
    seq![105u8, 110u8, 105u8, 116u8, 105u8, 97u8, 108u8]
}

impl UpgradeView {
    pub open spec fn wf(self) -> bool {
        &&& self.descriptions.dom() == self.registry.dom()
        &&& self.notes.dom() == self.proposals.dom()
    }

    pub open spec fn is_admin(self, who: u64) -> bool {
        self.roles.contains((who, Role::Admin))
    }

    pub open spec fn is_upgrader(self, who: u64) -> bool {
        self.roles.contains((who, Role::Upgrader))
    }

    /// Outcome of `register_contract`.
    pub open spec fn register_spec(
        self,
        caller: u64,
        contract_id: u64,
        name: u64,
        version: u32,
        wasm_hash: WasmHash,
        now: u64,
    ) -> Result<UpgradeView, UpgradeError> {
        if !self.is_admin(caller) {
            Err(UpgradeError::NotUpgrader)
        } else if version < 1 {
            Err(UpgradeError::InvalidWasmHash)
        } else if self.by_name.contains_key(name) {
            Err(UpgradeError::ContractAlreadyRegistered)
        } else {
            Ok(
                UpgradeView {
                    registry: self.registry.insert(
                        contract_id,
                        RegistryEntry {
                            contract_id,
                            name,
                            current: VersionInfo { version, wasm_hash, deployed_at: now },
                            migration_hook: None,
                        },
                    ),
                    descriptions: self.descriptions.insert(contract_id, initial_description()),
                    by_name: self.by_name.insert(name, contract_id),
                    reg_count: (self.reg_count + 1) as u64,
                    ..self
                },
            )
        }
    }

    /// Outcome of `set_migration_hook`.
    pub open spec fn set_hook_spec(self, caller: u64, contract_id: u64, hook: u64) -> Result<
        UpgradeView,
        UpgradeError,
    > {
        if !self.is_admin(caller) {
            Err(UpgradeError::NotUpgrader)
        } else if !self.registry.contains_key(contract_id) {
            Err(UpgradeError::ContractNotRegistered)
        } else {
            Ok(
                UpgradeView {
                    registry: self.registry.insert(
                        contract_id,
                        RegistryEntry { migration_hook: Some(hook), ..self.registry[contract_id] },
                    ),
                    hooks: self.hooks.insert(contract_id, hook),
                    ..self
                },
            )
        }
    }

    /// Outcome of `propose_upgrade`.
    pub open spec fn propose_spec(
        self,
        caller: u64,
        contract_id: u64,
        new_wasm_hash: WasmHash,
        new_version: u32,
        note: Seq<u8>,
        now: u64,
    ) -> Result<(UpgradeView, u64), UpgradeError> {
        if !self.is_upgrader(caller) {
            Err(UpgradeError::NotUpgrader)
        } else if !self.registry.contains_key(contract_id) {
            Err(UpgradeError::ContractNotRegistered)
        } else if new_version <= self.registry[contract_id].current.version {
            Err(UpgradeError::NoChangeDetected)
        } else if new_wasm_hash == self.registry[contract_id].current.wasm_hash {
            Err(UpgradeError::NoChangeDetected)
        } else if self.pending.contains_key(contract_id) {
            Err(UpgradeError::AlreadyPending)
        } else {
            let id = (self.prop_count + 1) as u64;
            Ok(
                (
                    UpgradeView {
                        prop_count: id,
                        proposals: self.proposals.insert(
                            id,
                            UpgradeProposal {
                                id,
                                contract_id,
                                new_wasm_hash,
                                new_version,
                                proposer: caller,
                                executed: false,
                                created_at: now,
                                executed_at: 0,
                            },
                        ),
                        notes: self.notes.insert(id, note),
                        pending: self.pending.insert(contract_id, id),
                        ..self
                    },
                    id,
                ),
            )
        }
    }

    /// The hook calls `execute_upgrade` would make for a proposal.
    pub open spec fn hook_call(self, proposal_id: u64) -> Option<HookCall> {
        if self.proposals.contains_key(proposal_id) && self.registry.contains_key(
            self.proposals[proposal_id].contract_id,
        ) {
            let p = self.proposals[proposal_id];
            let e = self.registry[p.contract_id];
            match e.migration_hook {
                Some(h) => Some(
                    HookCall { hook: h, old_version: e.current.version, new_version: p.new_version },
                ),
                None => None,
            }
        } else {
            None
        }
    }

    /// Outcome of `execute_upgrade`, given the answer of the migration
    /// hook's `pre_upg` (ignored when the contract has no hook).
    pub open spec fn execute_spec(
        self,
        caller: u64,
        proposal_id: u64,
        now: u64,
        pre_approved: bool,
    ) -> Result<UpgradeView, UpgradeError> {
        if !self.is_upgrader(caller) {
            Err(UpgradeError::NotUpgrader)
        } else if !self.proposals.contains_key(proposal_id) {
            Err(UpgradeError::ProposalNotFound)
        } else if self.proposals[proposal_id].executed {
            Err(UpgradeError::AlreadyExecuted)
        } else if !self.registry.contains_key(self.proposals[proposal_id].contract_id) {
            Err(UpgradeError::ContractNotRegistered)
        } else {
            let p = self.proposals[proposal_id];
            let e = self.registry[p.contract_id];
            if e.migration_hook is Some && !pre_approved {
                Err(UpgradeError::MigrationHookFailed)
            } else {
                Ok(
                    UpgradeView {
                        registry: self.registry.insert(
                            p.contract_id,
                            RegistryEntry {
                                current: VersionInfo {
                                    version: p.new_version,
                                    wasm_hash: p.new_wasm_hash,
                                    deployed_at: now,
                                },
                                ..e
                            },
                        ),
                        descriptions: self.descriptions.insert(p.contract_id, self.notes[proposal_id]),
                        proposals: self.proposals.insert(
                            proposal_id,
                            UpgradeProposal { executed: true, executed_at: now, ..p },
                        ),
                        pending: self.pending.remove(p.contract_id),
                        history: self.history.insert(
                            proposal_id,
                            UpgradeRecord {
                                contract_id: p.contract_id,
                                proposal_id,
                                old_version: e.current.version,
                                new_version: p.new_version,
                                old_wasm_hash: e.current.wasm_hash,
                                new_wasm_hash: p.new_wasm_hash,
                                executor: caller,
                                executed_at: now,
                            },
                        ),
                        ..self
                    },
                )
            }
        }
    }

    /// Outcome of `cancel_proposal`: the proposer or an admin removes a
    /// proposal that has not run, and its contract's pending mark.
    pub open spec fn cancel_spec(self, caller: u64, proposal_id: u64) -> Result<UpgradeView, UpgradeError> {
        if !self.proposals.contains_key(proposal_id) {
            Err(UpgradeError::ProposalNotFound)
        } else if self.proposals[proposal_id].executed {
            Err(UpgradeError::AlreadyExecuted)
        } else if self.proposals[proposal_id].proposer != caller && !self.is_admin(caller) {
            Err(UpgradeError::NotUpgrader)
        } else {
            Ok(
                UpgradeView {
                    pending: self.pending.remove(self.proposals[proposal_id].contract_id),
                    proposals: self.proposals.remove(proposal_id),
                    notes: self.notes.remove(proposal_id),
                    ..self
                },
            )
        }
    }

    /// The completed upgrades of `contract_id` among proposals `1..=pid`,
    /// newest first, at most `max` of them.
    pub open spec fn history_from(self, contract_id: u64, pid: u64, max: nat) -> Seq<UpgradeRecord>
        decreases pid,
    {
        if pid == 0 || max == 0 {
            Seq::empty()
        } else if self.history.contains_key(pid) && self.history[pid].contract_id == contract_id {
            seq![self.history[pid]] + self.history_from(contract_id, (pid - 1) as u64, (max - 1) as nat)
        } else {
            self.history_from(contract_id, (pid - 1) as u64, max)
        }
    }
}

/// Equality of two code hashes.
pub fn hash_eq(a: &WasmHash, b: &WasmHash) -> (r: bool)
    ensures
        r == (*a == *b),
{
    broadcast use vstd::array::group_array_axioms;
    let mut i: usize = 0;
    while i < 32
        invariant
            0 <= i <= 32,
            forall|j: int| 0 <= j < i ==> a@[j] == b@[j],
        decreases 32 - i,
    {
        if a[i] != b[i] {
            return false;
        }
        i = i + 1;
    }
    assert(a@ =~= b@);
    assert(*a =~= *b);
    true
}


impl UpgradeabilityContract {
    pub open spec fn wf(&self) -> bool {
        self@.wf()
    }

    /// Sets up the registry; `admin` holds the Admin and Upgrader roles.
    pub fn initialize(admin: u64) -> (c: Self)
        ensures
            c@ == (UpgradeView {
                admin,
                roles: Set::empty().insert((admin, Role::Upgrader)).insert((admin, Role::Admin)),
                registry: Map::empty(),
                descriptions: Map::empty(),
                by_name: Map::empty(),
                reg_count: 0,
                hooks: Map::empty(),
                prop_count: 0,
                proposals: Map::empty(),
                notes: Map::empty(),
                pending: Map::empty(),
                history: Map::empty(),
            }),
            c.wf(),
    {
        let mut roles = RoleTable::new();
        roles.grant(admin, Role::Upgrader);
        roles.grant(admin, Role::Admin);
        let c = UpgradeabilityContract {
            admin,
            roles,
            registry: HashMap::new(),
            descriptions: HashMap::new(),
            by_name: HashMap::new(),
            reg_count: 0,
            hooks: HashMap::new(),
            prop_count: 0,
            proposals: HashMap::new(),
            notes: HashMap::new(),
            pending: HashMap::new(),
            history: HashMap::new(),
        };
        assert(c@.descriptions =~= Map::empty());
        assert(c@.notes =~= Map::empty());
        c
    }

    /// Whether `who` holds `role` in this registry.
    pub fn has_role(&self, who: u64, role: Role) -> (b: bool)
        ensures
            b == self@.roles.contains((who, role)),
    {
        self.roles.has_role(who, role)
    }

    /// The admin gives `role` to `user` in the role store this registry
    /// reads (the shared access-control grant).
    pub fn grant_role(&mut self, caller: u64, user: u64, role: Role) -> (r: Result<(), crate::errors::Error>)
        requires
            old(self).wf(),
        ensures
            caller != old(self)@.admin ==> r == Err::<(), crate::errors::Error>(crate::errors::Error::Unauthorized)
                && final(self)@ == old(self)@,
            caller == old(self)@.admin ==> r is Ok && final(self)@ == (UpgradeView {
                roles: old(self)@.roles.insert((user, role)),
                ..old(self)@
            }),
            final(self).wf(),
    {
        if caller != self.admin {
            return Err(crate::errors::Error::Unauthorized);
        }
        self.roles.grant(user, role);
        Ok(())
    }

    /// Registers a contract under a unique logical name (Admin role; the
    /// version must be at least 1).
    pub fn register_contract(
        &mut self,
        caller: u64,
        contract_id: u64,
        name: u64,
        version: u32,
        wasm_hash: WasmHash,
        now: u64,
    ) -> (r: Result<(), UpgradeError>)
        requires
            old(self).wf(),
            old(self)@.reg_count < u64::MAX,
        ensures
            match old(self)@.register_spec(caller, contract_id, name, version, wasm_hash, now) {
                Err(e) => r == Err::<(), UpgradeError>(e) && final(self)@ == old(self)@,
                Ok(v) => r is Ok && final(self)@ == v,
            },
            final(self).wf(),
    {
        if !self.roles.has_role(caller, Role::Admin) {
            return Err(UpgradeError::NotUpgrader);
        }
        if version < 1 {
            return Err(UpgradeError::InvalidWasmHash);
        }
        if self.by_name.contains_key(&name) {
            return Err(UpgradeError::ContractAlreadyRegistered);
        }
        let entry = RegistryEntry {
            contract_id,
            name,
            current: VersionInfo { version, wasm_hash, deployed_at: now },
            migration_hook: None,
        };
        self.registry.insert(contract_id, entry);
        let d: Vec<u8> = vec![105u8, 110u8, 105u8, 116u8, 105u8, 97u8, 108u8];
        let ghost dv = d@;
        self.descriptions.insert(contract_id, d);
        self.by_name.insert(name, contract_id);
        self.reg_count = self.reg_count + 1;
        proof {
            assert(dv =~= initial_description());
            assert(self@.descriptions =~= old(self)@.descriptions.insert(contract_id, initial_description()));
        }
        Ok(())
    }

    pub fn get_registry_entry(&self, contract_id: u64) -> (r: Result<RegistryEntry, UpgradeError>)
        ensures
            self@.registry.contains_key(contract_id) ==> r is Ok && r->Ok_0 == self@.registry[contract_id],
            !self@.registry.contains_key(contract_id) ==> r == Err::<RegistryEntry, UpgradeError>(
                UpgradeError::ContractNotRegistered,
            ),
    {
        match self.registry.get(&contract_id) {
            Some(e) => Ok(*e),
            None => Err(UpgradeError::ContractNotRegistered),
        }
    }

    pub fn get_registry_entry_by_name(&self, name: u64) -> (r: Result<RegistryEntry, UpgradeError>)
        ensures
            self@.by_name.contains_key(name) && self@.registry.contains_key(self@.by_name[name]) ==> r is Ok
                && r->Ok_0 == self@.registry[self@.by_name[name]],
            !(self@.by_name.contains_key(name) && self@.registry.contains_key(self@.by_name[name])) ==> r
                == Err::<RegistryEntry, UpgradeError>(UpgradeError::ContractNotRegistered),
    {
        let id = match self.by_name.get(&name) {
            Some(id) => *id,
            None => {
                return Err(UpgradeError::ContractNotRegistered);
            },
        };
        self.get_registry_entry(id)
    }

    pub fn get_registered_count(&self) -> (r: u64)
        ensures
            r == self@.reg_count,
    {
        self.reg_count
    }

    pub fn get_version(&self, contract_id: u64) -> (r: Result<u32, UpgradeError>)
        ensures
            self@.registry.contains_key(contract_id) ==> r == Ok::<u32, UpgradeError>(
                self@.registry[contract_id].current.version,
            ),
            !self@.registry.contains_key(contract_id) ==> r == Err::<u32, UpgradeError>(
                UpgradeError::ContractNotRegistered,
            ),
    {
        match self.registry.get(&contract_id) {
            Some(e) => Ok(e.current.version),
            None => Err(UpgradeError::ContractNotRegistered),
        }
    }

    pub fn get_wasm_hash(&self, contract_id: u64) -> (r: Result<WasmHash, UpgradeError>)
        ensures
            self@.registry.contains_key(contract_id) ==> r is Ok && r->Ok_0
                == self@.registry[contract_id].current.wasm_hash,
            !self@.registry.contains_key(contract_id) ==> r is Err && r->Err_0
                == UpgradeError::ContractNotRegistered,
    {
        match self.registry.get(&contract_id) {
            Some(e) => Ok(e.current.wasm_hash),
            None => Err(UpgradeError::ContractNotRegistered),
        }
    }

    /// The description of a registered contract's active version.
    pub fn get_description(&self, contract_id: u64) -> (r: Option<Vec<u8>>)
        ensures
            match r {
                Some(d) => self@.descriptions.contains_key(contract_id) && d@ == self@.descriptions[contract_id],
                None => !self@.descriptions.contains_key(contract_id),
            },
    {
        match self.descriptions.get(&contract_id) {
            Some(d) => {
                let c = d.clone();
                assert(c@ =~= d@);
                Some(c)
            },
            None => None,
        }
    }

    /// Sets the migration hook of a registered contract (Admin role).
    pub fn set_migration_hook(&mut self, caller: u64, contract_id: u64, hook_addr: u64) -> (r: Result<
        (),
        UpgradeError,
    >)
        requires
            old(self).wf(),
        ensures
            match old(self)@.set_hook_spec(caller, contract_id, hook_addr) {
                Err(e) => r == Err::<(), UpgradeError>(e) && final(self)@ == old(self)@,
                Ok(v) => r is Ok && final(self)@ == v,
            },
            final(self).wf(),
    {
        if !self.roles.has_role(caller, Role::Admin) {
            return Err(UpgradeError::NotUpgrader);
        }
        let e = match self.registry.get(&contract_id) {
            Some(e) => *e,
            None => {
                return Err(UpgradeError::ContractNotRegistered);
            },
        };
        self.registry.insert(contract_id, RegistryEntry { migration_hook: Some(hook_addr), ..e });
        self.hooks.insert(contract_id, hook_addr);
        proof {
            assert(self@.registry.dom() =~= old(self)@.registry.dom());
        }
        Ok(())
    }

    pub fn get_migration_hook(&self, contract_id: u64) -> (r: Option<u64>)
        ensures
            r == (if self@.hooks.contains_key(contract_id) {
                Some(self@.hooks[contract_id])
            } else {
                None
            }),
    {
        match self.hooks.get(&contract_id) {
            Some(h) => Some(*h),
            None => None,
        }
    }

    /// Proposes upgrading a registered contract to a newer version with a
    /// different code hash (Upgrader role; one pending proposal per
    /// contract).
    pub fn propose_upgrade(
        &mut self,
        caller: u64,
        contract_id: u64,
        new_wasm_hash: WasmHash,
        new_version: u32,
        note: Vec<u8>,
        now: u64,
    ) -> (r: Result<u64, UpgradeError>)
        requires
            old(self).wf(),
            old(self)@.prop_count < u64::MAX,
        ensures
            match old(self)@.propose_spec(caller, contract_id, new_wasm_hash, new_version, note@, now) {
                Err(e) => r == Err::<u64, UpgradeError>(e) && final(self)@ == old(self)@,
                Ok((v, id)) => r == Ok::<u64, UpgradeError>(id) && final(self)@ == v,
            },
            final(self).wf(),
    {
        if !self.roles.has_role(caller, Role::Upgrader) {
            return Err(UpgradeError::NotUpgrader);
        }
        let e = match self.registry.get(&contract_id) {
            Some(e) => *e,
            None => {
                return Err(UpgradeError::ContractNotRegistered);
            },
        };
        if new_version <= e.current.version {
            return Err(UpgradeError::NoChangeDetected);
        }
        if hash_eq(&new_wasm_hash, &e.current.wasm_hash) {
            return Err(UpgradeError::NoChangeDetected);
        }
        if self.pending.contains_key(&contract_id) {
            return Err(UpgradeError::AlreadyPending);
        }
        let id = self.prop_count + 1;
        self.prop_count = id;
        self.proposals.insert(
            id,
            UpgradeProposal {
                id,
                contract_id,
                new_wasm_hash,
                new_version,
                proposer: caller,
                executed: false,
                created_at: now,
                executed_at: 0,
            },
        );
        let ghost nv = note@;
        self.notes.insert(id, note);
        self.pending.insert(contract_id, id);
        proof {
            assert(self@.notes =~= old(self)@.notes.insert(id, nv));
        }
        Ok(id)
    }

    /// The migration-hook calls the execution of `proposal_id` needs, if
    /// its contract has a hook.
    pub fn upgrade_hook_call(&self, proposal_id: u64) -> (r: Option<HookCall>)
        ensures
            r == self@.hook_call(proposal_id),
    {
        let p = match self.proposals.get(&proposal_id) {
            Some(p) => *p,
            None => {
                return None;
            },
        };
        let e = match self.registry.get(&p.contract_id) {
            Some(e) => *e,
            None => {
                return None;
            },
        };
        match e.migration_hook {
            Some(h) => Some(HookCall { hook: h, old_version: e.current.version, new_version: p.new_version }),
            None => None,
        }
    }

    /// Executes a proposal (Upgrader role): the registry moves to the new
    /// version, the proposal is marked executed, the pending mark is
    /// cleared and the upgrade is recorded. When the contract has a
    /// migration hook, `pre_approved` is its answer to the `pre_upg` call of
    /// [`UpgradeabilityContract::upgrade_hook_call`], made before anything
    /// changes; a refusal fails the upgrade. The result carries the
    /// `pst_upg` call to make afterwards; if that call fails,
    /// [`UpgradeabilityContract::abort_upgrade`] undoes the upgrade.
    pub fn execute_upgrade(&mut self, caller: u64, proposal_id: u64, now: u64, pre_approved: bool) -> (r:
        Result<AppliedUpgrade, UpgradeError>)
        requires
            old(self).wf(),
        ensures
            match old(self)@.execute_spec(caller, proposal_id, now, pre_approved) {
                Err(e) => r is Err && r->Err_0 == e && final(self)@ == old(self)@,
                Ok(v) => r is Ok && final(self)@ == v,
            },
            r is Ok ==> {
                let a = r->Ok_0;
                &&& a.post_hook_call() == old(self)@.hook_call(proposal_id)
                &&& a.valid()
                &&& a.before() == old(self)@
                &&& a.after() == final(self)@
            },
            final(self).wf(),
    {
        if !self.roles.has_role(caller, Role::Upgrader) {
            return Err(UpgradeError::NotUpgrader);
        }
        let p = match self.proposals.get(&proposal_id) {
            Some(p) => *p,
            None => {
                return Err(UpgradeError::ProposalNotFound);
            },
        };
        if p.executed {
            return Err(UpgradeError::AlreadyExecuted);
        }
        let e = match self.registry.get(&p.contract_id) {
            Some(e) => *e,
            None => {
                return Err(UpgradeError::ContractNotRegistered);
            },
        };
        if e.migration_hook.is_some() && !pre_approved {
            return Err(UpgradeError::MigrationHookFailed);
        }
        assert(self.notes@.contains_key(proposal_id));
        let note = match self.notes.get(&proposal_id) {
            Some(n) => n.clone(),
            None => Vec::new(),
        };
        let ghost nv = note@;
        assert(nv =~= old(self)@.notes[proposal_id]);
        assert(self.descriptions@.contains_key(p.contract_id));
        let description = match self.descriptions.get(&p.contract_id) {
            Some(d) => d.clone(),
            None => Vec::new(),
        };
        assert(description@ =~= old(self)@.descriptions[p.contract_id]);
        let pending = match self.pending.get(&p.contract_id) {
            Some(x) => Some(*x),
            None => None,
        };
        let record = match self.history.get(&proposal_id) {
            Some(h) => Some(*h),
            None => None,
        };
        let post_hook = match e.migration_hook {
            Some(h) => Some(HookCall { hook: h, old_version: e.current.version, new_version: p.new_version }),
            None => None,
        };
        self.registry.insert(
            p.contract_id,
            RegistryEntry {
                current: VersionInfo { version: p.new_version, wasm_hash: p.new_wasm_hash, deployed_at: now },
                ..e
            },
        );
        self.descriptions.insert(p.contract_id, note);
        self.proposals.insert(proposal_id, UpgradeProposal { executed: true, executed_at: now, ..p });
        self.pending.remove(&p.contract_id);
        self.history.insert(
            proposal_id,
            UpgradeRecord {
                contract_id: p.contract_id,
                proposal_id,
                old_version: e.current.version,
                new_version: p.new_version,
                old_wasm_hash: e.current.wasm_hash,
                new_wasm_hash: p.new_wasm_hash,
                executor: caller,
                executed_at: now,
            },
        );
        proof {
            assert(self@.descriptions =~= old(self)@.descriptions.insert(p.contract_id, nv));
            assert(self@.registry.dom() =~= old(self)@.registry.dom());
            assert(self@.proposals.dom() =~= old(self)@.proposals.dom());
            assert(self@.registry =~= old(self)@.registry.insert(p.contract_id, self@.registry[p.contract_id]));
            assert(self@.proposals =~= old(self)@.proposals.insert(proposal_id, self@.proposals[proposal_id]));
            assert(self@.history =~= old(self)@.history.insert(proposal_id, self@.history[proposal_id]));
            assert(self@.pending =~= old(self)@.pending.remove(p.contract_id));
        }
        Ok(
            AppliedUpgrade {
                post_hook,
                contract_id: p.contract_id,
                proposal_id,
                entry: e,
                description,
                proposal: p,
                pending,
                record,
                before: Ghost(old(self)@),
                after: Ghost(self@),
            },
        )
    }

    /// Undoes an applied upgrade whose `pst_upg` call failed, as the
    /// failed transaction would: the registry returns to exactly its state
    /// before the upgrade, and the upgrade fails with `MigrationHookFailed`.
    pub fn abort_upgrade(&mut self, applied: AppliedUpgrade) -> (e: UpgradeError)
        requires
            old(self).wf(),
            applied.valid(),
            old(self)@ == applied.after(),
        ensures
            e == UpgradeError::MigrationHookFailed,
            final(self)@ == applied.before(),
            final(self).wf(),
    {
        let ghost b = applied.before@;
        let ghost a = applied.after@;
        let c = applied.contract_id;
        let p = applied.proposal_id;
        let ghost dv = applied.description@;
        self.registry.insert(c, applied.entry);
        self.descriptions.insert(c, applied.description);
        self.proposals.insert(p, applied.proposal);
        match applied.pending {
            Some(x) => {
                self.pending.insert(c, x);
            },
            None => {
                self.pending.remove(&c);
            },
        }
        match applied.record {
            Some(h) => {
                self.history.insert(p, h);
            },
            None => {
                self.history.remove(&p);
            },
        }
        proof {
            assert(self@.registry =~= b.registry);
            assert(self@.descriptions =~= a.descriptions.insert(c, dv));
            assert(self@.descriptions =~= b.descriptions);
            assert(self@.proposals =~= b.proposals);
            assert(self@.pending =~= b.pending);
            assert(self@.history =~= b.history);
            assert(self@ == b);
        }
        UpgradeError::MigrationHookFailed
    }

    pub fn get_proposal(&self, proposal_id: u64) -> (r: Result<UpgradeProposal, UpgradeError>)
        ensures
            self@.proposals.contains_key(proposal_id) ==> r is Ok && r->Ok_0 == self@.proposals[proposal_id],
            !self@.proposals.contains_key(proposal_id) ==> r is Err && r->Err_0
                == UpgradeError::ProposalNotFound,
    {
        match self.proposals.get(&proposal_id) {
            Some(p) => Ok(*p),
            None => Err(UpgradeError::ProposalNotFound),
        }
    }

    /// The note of a proposal.
    pub fn get_proposal_note(&self, proposal_id: u64) -> (r: Option<Vec<u8>>)
        ensures
            match r {
                Some(n) => self@.notes.contains_key(proposal_id) && n@ == self@.notes[proposal_id],
                None => !self@.notes.contains_key(proposal_id),
            },
    {
        match self.notes.get(&proposal_id) {
            Some(n) => {
                let c = n.clone();
                assert(c@ =~= n@);
                Some(c)
            },
            None => None,
        }
    }

    pub fn get_pending_proposal(&self, contract_id: u64) -> (r: Option<u64>)
        ensures
            r == (if self@.pending.contains_key(contract_id) {
                Some(self@.pending[contract_id])
            } else {
                None
            }),
    {
        match self.pending.get(&contract_id) {
            Some(p) => Some(*p),
            None => None,
        }
    }

    /// `Pending(id)` while a proposal is pending, `Current` otherwise.
    pub fn get_upgrade_status(&self, contract_id: u64) -> (r: Result<UpgradeStatus, UpgradeError>)
        ensures
            !self@.registry.contains_key(contract_id) ==> r == Err::<UpgradeStatus, UpgradeError>(
                UpgradeError::ContractNotRegistered,
            ),
            self@.registry.contains_key(contract_id) ==> r == Ok::<UpgradeStatus, UpgradeError>(
                if self@.pending.contains_key(contract_id) {
                    UpgradeStatus::Pending(self@.pending[contract_id])
                } else {
                    UpgradeStatus::Current
                },
            ),
    {
        if !self.registry.contains_key(&contract_id) {
            return Err(UpgradeError::ContractNotRegistered);
        }
        match self.pending.get(&contract_id) {
            Some(p) => Ok(UpgradeStatus::Pending(*p)),
            None => Ok(UpgradeStatus::Current),
        }
    }

    /// Up to `max_results` completed upgrades of a registered contract,
    /// newest first; empty for an unregistered contract.
    pub fn get_upgrade_history(&self, contract_id: u64, max_results: u32) -> (r: Vec<UpgradeRecord>)
        ensures
            !self@.registry.contains_key(contract_id) ==> r@ == Seq::<UpgradeRecord>::empty(),
            self@.registry.contains_key(contract_id) ==> r@ == self@.history_from(
                contract_id,
                self@.prop_count,
                max_results as nat,
            ),
    {
        let mut records: Vec<UpgradeRecord> = Vec::new();
        if !self.registry.contains_key(&contract_id) {
            return records;
        }
        let mut found: u32 = 0;
        let mut pid: u64 = self.prop_count;
        while pid >= 1 && found < max_results
            invariant
                found <= max_results,
                records@.len() == found,
                records@ + self@.history_from(contract_id, pid, (max_results - found) as nat)
                    == self@.history_from(contract_id, self@.prop_count, max_results as nat),
            decreases pid,
        {
            match self.history.get(&pid) {
                Some(rec) => {
                    if rec.contract_id == contract_id {
                        let ghost rest = self@.history_from(contract_id, (pid - 1) as u64, (max_results - found - 1) as nat);
                        records.push(*rec);
                        found = found + 1;
                        proof {
                            assert(records@ + rest =~= old_records_plus(records@.drop_last(), *rec, rest));
                        }
                    }
                },
                None => {},
            }
            pid = pid - 1;
        }
        proof {
            assert(self@.history_from(contract_id, pid, (max_results - found) as nat) =~= Seq::empty());
            assert(records@ + Seq::<UpgradeRecord>::empty() =~= records@);
        }
        records
    }

    /// The proposer or an admin withdraws a proposal that has not run.
    pub fn cancel_proposal(&mut self, caller: u64, proposal_id: u64) -> (r: Result<(), UpgradeError>)
        requires
            old(self).wf(),
        ensures
            match old(self)@.cancel_spec(caller, proposal_id) {
                Err(e) => r == Err::<(), UpgradeError>(e) && final(self)@ == old(self)@,
                Ok(v) => r is Ok && final(self)@ == v,
            },
            final(self).wf(),
    {
        let p = match self.proposals.get(&proposal_id) {
            Some(p) => *p,
            None => {
                return Err(UpgradeError::ProposalNotFound);
            },
        };
        if p.executed {
            return Err(UpgradeError::AlreadyExecuted);
        }
        if p.proposer != caller && !self.roles.has_role(caller, Role::Admin) {
            return Err(UpgradeError::NotUpgrader);
        }
        self.pending.remove(&p.contract_id);
        self.proposals.remove(&proposal_id);
        self.notes.remove(&proposal_id);
        proof {
            assert(self@.notes =~= old(self)@.notes.remove(proposal_id));
        }
        Ok(())
    }

    /// The code hash of the pending proposal of `contract_id`, when `caller`
    /// is an upgrader and the hash matches.
    pub fn verify_upgrade_authorization(&self, contract_id: u64, caller: u64, new_wasm_hash: WasmHash) -> (r:
        Result<WasmHash, UpgradeError>)
        ensures
            !self@.is_upgrader(caller) ==> r is Err && r->Err_0 == UpgradeError::NotUpgrader,
            self@.is_upgrader(caller) && !self@.pending.contains_key(contract_id) ==> r is Err && r->Err_0
                == UpgradeError::ContractNotRegistered,
            self@.is_upgrader(caller) && self@.pending.contains_key(contract_id)
                && !self@.proposals.contains_key(self@.pending[contract_id]) ==> r is Err && r->Err_0
                == UpgradeError::ProposalNotFound,
            self@.is_upgrader(caller) && self@.pending.contains_key(contract_id)
                && self@.proposals.contains_key(self@.pending[contract_id]) ==> {
                let p = self@.proposals[self@.pending[contract_id]];
                if p.new_wasm_hash == new_wasm_hash {
                    r is Ok && r->Ok_0 == p.new_wasm_hash
                } else {
                    r is Err && r->Err_0 == UpgradeError::InvalidWasmHash
                }
            },
    {
        if !self.roles.has_role(caller, Role::Upgrader) {
            return Err(UpgradeError::NotUpgrader);
        }
        let pid = match self.pending.get(&contract_id) {
            Some(p) => *p,
            None => {
                return Err(UpgradeError::ContractNotRegistered);
            },
        };
        let p = match self.proposals.get(&pid) {
            Some(p) => *p,
            None => {
                return Err(UpgradeError::ProposalNotFound);
            },
        };
        if !hash_eq(&p.new_wasm_hash, &new_wasm_hash) {
            return Err(UpgradeError::InvalidWasmHash);
        }
        Ok(p.new_wasm_hash)
    }

    pub fn is_registered(&self, contract_id: u64) -> (b: bool)
        ensures
            b == self@.registry.contains_key(contract_id),
    {
        self.registry.contains_key(&contract_id)
    }

    pub fn can_upgrade(&self, caller: u64) -> (b: bool)
        ensures
            b == self@.is_upgrader(caller),
    {
        self.roles.has_role(caller, Role::Upgrader)
    }
}

spec fn old_records_plus(prefix: Seq<UpgradeRecord>, rec: UpgradeRecord, rest: Seq<UpgradeRecord>) -> Seq<
    UpgradeRecord,
> {
    prefix + (seq![rec] + rest)
}

/// Upgrades only move forward: a proposal must name a newer version and
/// a different code hash, and executing it installs exactly that version
/// and hash, clears the contract's pending mark, records the upgrade, and
/// cannot be repeated.
pub proof fn lemma_propose_then_execute(
    v: UpgradeView,
    caller: u64,
    contract_id: u64,
    new_wasm_hash: WasmHash,
    new_version: u32,
    note: Seq<u8>,
    now: u64,
    executor: u64,
    later: u64,
    pre_approved: bool,
)
    requires
        v.propose_spec(caller, contract_id, new_wasm_hash, new_version, note, now) is Ok,
    ensures
        ({
            let (w, id) = v.propose_spec(caller, contract_id, new_wasm_hash, new_version, note, now)->Ok_0;
            &&& new_version > v.registry[contract_id].current.version
            &&& new_wasm_hash != v.registry[contract_id].current.wasm_hash
            &&& w.pending[contract_id] == id
            &&& w.propose_spec(caller, contract_id, new_wasm_hash, (new_version + 1) as u32, note, now) is Err
            &&& w.execute_spec(executor, id, later, pre_approved) is Ok ==> {
                let x = w.execute_spec(executor, id, later, pre_approved)->Ok_0;
                &&& x.registry[contract_id].current.version == new_version
                &&& x.registry[contract_id].current.wasm_hash == new_wasm_hash
                &&& !x.pending.contains_key(contract_id)
                &&& x.history.contains_key(id)
                &&& x.history[id].old_version < x.history[id].new_version
                &&& x.execute_spec(executor, id, later, pre_approved) == Err::<UpgradeView, UpgradeError>(
                    UpgradeError::AlreadyExecuted,
                )
            }
        }),
{
    let (w, id) = v.propose_spec(caller, contract_id, new_wasm_hash, new_version, note, now)->Ok_0;
    assert(w.proposals[id].contract_id == contract_id);
    assert(w.registry == v.registry);
}

/// A contract has at most one pending upgrade: proposing again while one
/// is pending is refused.
pub proof fn lemma_one_pending_upgrade(
    v: UpgradeView,
    caller: u64,
    contract_id: u64,
    new_wasm_hash: WasmHash,
    new_version: u32,
    note: Seq<u8>,
    now: u64,
)
    requires
        v.pending.contains_key(contract_id),
    ensures
        v.propose_spec(caller, contract_id, new_wasm_hash, new_version, note, now) is Err,
{
}

/// A migration hook that rejects an upgrade before the code swap aborts
/// it: the upgrade fails with `MigrationHookFailed`, nothing changes, the
/// proposal stays pending and no post-upgrade call is due, while an
/// approving answer lets it through. (A failing post-upgrade call is undone
/// by `abort_upgrade`, which restores the state before the upgrade.)
pub proof fn lemma_hook_failure_aborts_upgrade(v: UpgradeView, caller: u64, proposal_id: u64, now: u64)
    requires
        v.is_upgrader(caller),
        v.proposals.contains_key(proposal_id),
        !v.proposals[proposal_id].executed,
        v.registry.contains_key(v.proposals[proposal_id].contract_id),
        v.registry[v.proposals[proposal_id].contract_id].migration_hook is Some,
    ensures
        v.execute_spec(caller, proposal_id, now, false) == Err::<UpgradeView, UpgradeError>(
            UpgradeError::MigrationHookFailed,
        ),
        v.execute_spec(caller, proposal_id, now, true) is Ok,
        v.hook_call(proposal_id) is Some,
{
}

} // verus!
