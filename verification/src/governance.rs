//! Governance: role management, an M-of-N multi-signature proposal flow
//! and a catalogue of bounded protocol parameters.
use vstd::prelude::*;
use std::collections::HashMap;
use crate::auth::{Role, RoleTable};
use crate::errors::Error;

verus! {

broadcast use vstd::std_specs::hash::group_hash_axioms;

pub const MIN_AID_DEFAULT_EXPIRY: i128 = 60;
pub const MAX_AID_DEFAULT_EXPIRY: i128 = 31_536_000;
pub const DEFAULT_AID_DEFAULT_EXPIRY: i128 = 604_800;
pub const MIN_TREASURY_WITHDRAWAL_LIMIT: i128 = 0;
pub const MAX_TREASURY_WITHDRAWAL_LIMIT: i128 = 1_000_000_000_000_000_000;
pub const DEFAULT_TREASURY_WITHDRAWAL_LIMIT: i128 = 100_000_000_000;
pub const MIN_REFERRAL_TIER_BPS: i128 = 0;
pub const MAX_REFERRAL_TIER_BPS: i128 = 10_000;
pub const DEFAULT_REFERRAL_TIER_ONE_BPS: i128 = 500;
pub const DEFAULT_REFERRAL_TIER_TWO_BPS: i128 = 250;
pub const DEFAULT_REFERRAL_TIER_THREE_BPS: i128 = 100;
pub const MIN_REFERRAL_MAX_TIERS: i128 = 1;
pub const MAX_REFERRAL_MAX_TIERS: i128 = 10;
pub const DEFAULT_REFERRAL_MAX_TIERS: i128 = 3;
pub const MIN_REFERRAL_REWARD_CAP: i128 = 0;
pub const MAX_REFERRAL_REWARD_CAP: i128 = 1_000_000_000_000_000_000;
pub const DEFAULT_REFERRAL_REWARD_CAP: i128 = 10_000_000_000;

/// The protocol parameters.
#[derive(Clone, Copy, Debug, PartialEq, Eq, Structural)]
pub enum ParameterKey {
    AidDefaultExpiry,
    TreasuryWithdrawalLimit,
    ReferralTierBps(u32),
    ReferralMaxTiers,
    ReferralRewardCap,
}

/// The inclusive range a parameter must lie in.
#[derive(Clone, Copy, Debug, PartialEq, Eq, Structural)]
pub struct ParameterBounds {
    pub min: i128,
    pub max: i128,
}

/// A parameter change.
#[derive(Clone, Copy, Debug, PartialEq, Eq, Structural)]
pub struct ParameterChangedEvent {
    pub key: ParameterKey,
    pub value: i128,
}

/// What an approved proposal does.
#[derive(Clone, Copy, Debug, PartialEq, Eq, Structural)]
pub enum ProposalAction {
    GrantRole(u64, Role),
    RevokeRole(u64, Role),
    SetParameter(ParameterKey, i128),
    Pause,
    Unpause,
}

#[derive(Clone, Copy, Debug, PartialEq, Eq, Structural)]
pub enum ProposalStatus {
    Pending,
    Executed,
}

#[derive(Clone, Copy, Debug, PartialEq, Eq, Structural)]
pub struct Proposal {
    pub id: u64,
    pub proposer: u64,
    pub action: ProposalAction,
    pub approval_count: u32,
    pub status: ProposalStatus,
    pub created_at: u64,
}

/// The documented bounds of a parameter; tiers outside `1..=10` have none.
pub open spec fn spec_bounds_for(key: ParameterKey) -> Option<ParameterBounds> {
    match key {
        ParameterKey::AidDefaultExpiry => Some(
            ParameterBounds { min: MIN_AID_DEFAULT_EXPIRY, max: MAX_AID_DEFAULT_EXPIRY },
        ),
        ParameterKey::TreasuryWithdrawalLimit => Some(
            ParameterBounds { min: MIN_TREASURY_WITHDRAWAL_LIMIT, max: MAX_TREASURY_WITHDRAWAL_LIMIT },
        ),
        ParameterKey::ReferralTierBps(tier) => if tier == 0 || tier > MAX_REFERRAL_MAX_TIERS {
            None
        } else {
            Some(ParameterBounds { min: MIN_REFERRAL_TIER_BPS, max: MAX_REFERRAL_TIER_BPS })
        },
        ParameterKey::ReferralMaxTiers => Some(
            ParameterBounds { min: MIN_REFERRAL_MAX_TIERS, max: MAX_REFERRAL_MAX_TIERS },
        ),
        ParameterKey::ReferralRewardCap => Some(
            ParameterBounds { min: MIN_REFERRAL_REWARD_CAP, max: MAX_REFERRAL_REWARD_CAP },
        ),
    }
}

/// A value is accepted for `key` when `key` has bounds and the value lies
/// within them.
pub open spec fn param_valid(key: ParameterKey, value: i128) -> bool {
    match spec_bounds_for(key) {
        Some(b) => b.min <= value <= b.max,
        None => false,
    }
}

/// The documented bounds of a parameter.
pub fn bounds_for(key: &ParameterKey) -> (r: Option<ParameterBounds>)
    ensures
        r == spec_bounds_for(*key),
{
    match key {
        ParameterKey::AidDefaultExpiry => Some(
            ParameterBounds { min: MIN_AID_DEFAULT_EXPIRY, max: MAX_AID_DEFAULT_EXPIRY },
        ),
        ParameterKey::TreasuryWithdrawalLimit => Some(
            ParameterBounds { min: MIN_TREASURY_WITHDRAWAL_LIMIT, max: MAX_TREASURY_WITHDRAWAL_LIMIT },
        ),
        ParameterKey::ReferralTierBps(tier) => {
            if *tier == 0 || (*tier as i128) > MAX_REFERRAL_MAX_TIERS {
                None
            } else {
                Some(ParameterBounds { min: MIN_REFERRAL_TIER_BPS, max: MAX_REFERRAL_TIER_BPS })
            }
        },
        ParameterKey::ReferralMaxTiers => Some(
            ParameterBounds { min: MIN_REFERRAL_MAX_TIERS, max: MAX_REFERRAL_MAX_TIERS },
        ),
        ParameterKey::ReferralRewardCap => Some(
            ParameterBounds { min: MIN_REFERRAL_REWARD_CAP, max: MAX_REFERRAL_REWARD_CAP },
        ),
    }
}

/// `Ok` when `value` lies within the bounds of `key`.
pub fn validate_param(key: &ParameterKey, value: i128) -> (r: Result<(), Error>)
    ensures
        r is Ok <==> param_valid(*key, value),
        r is Err ==> r == Err::<(), Error>(Error::InvalidArgument),
{
    let b = match bounds_for(key) {
        Some(b) => b,
        None => {
            return Err(Error::InvalidArgument);
        },
    };
    if value < b.min || value > b.max {
        return Err(Error::InvalidArgument);
    }
    Ok(())
}

/// The storage slot of a parameter.
pub open spec fn param_slot(key: ParameterKey) -> u64 {
    match key {
        ParameterKey::AidDefaultExpiry => 0,
        ParameterKey::TreasuryWithdrawalLimit => 1,
        ParameterKey::ReferralMaxTiers => 2,
        ParameterKey::ReferralRewardCap => 3,
        ParameterKey::ReferralTierBps(t) => (4 + t) as u64,
    }
}

fn slot_of(key: &ParameterKey) -> (s: u64)
    ensures
        s == param_slot(*key),
{
    match key {
        ParameterKey::AidDefaultExpiry => 0,
        ParameterKey::TreasuryWithdrawalLimit => 1,
        ParameterKey::ReferralMaxTiers => 2,
        ParameterKey::ReferralRewardCap => 3,
        ParameterKey::ReferralTierBps(t) => 4 + *t as u64,
    }
}

proof fn lemma_param_slot_injective(a: ParameterKey, b: ParameterKey)
    ensures
        param_slot(a) == param_slot(b) ==> a == b,
{
}

/// The governance contract's state, as the contracts speak of it.
pub struct GovernanceView {
    /// The single admin that manages parameters.
    pub admin: u64,
    pub roles: Set<(u64, Role)>,
    pub threshold: u32,
    pub admin_set: Seq<u64>,
    pub paused: bool,
    pub params: Map<ParameterKey, i128>,
    pub prop_count: u64,
    pub proposals: Map<u64, Proposal>,
    /// `(proposal, approver)` pairs recorded so far.
    pub approvals: Set<(u64, u64)>,
}

pub struct GovernanceContract {
    admin: u64,
    roles: RoleTable,
    threshold: u32,
    admin_set: Vec<u64>,
    paused: bool,
    params: HashMap<u64, i128>,
    prop_count: u64,
    proposals: HashMap<u64, Proposal>,
    approvals: HashMap<u64, Vec<u64>>,
}

impl View for GovernanceContract {
    type V = GovernanceView;

    closed spec fn view(&self) -> GovernanceView {
        GovernanceView {
            admin: self.admin,
            roles: self.roles@,
            threshold: self.threshold,
            admin_set: self.admin_set@,
            paused: self.paused,
            params: Map::new(
                |k: ParameterKey| self.params@.contains_key(param_slot(k)),
                |k: ParameterKey| self.params@[param_slot(k)],
            ),
            prop_count: self.prop_count,
            proposals: self.proposals@,
            approvals: Set::new(
                |p: (u64, u64)| self.approvals@.contains_key(p.0) && self.approvals@[p.0]@.contains(p.1),
            ),
        }
    }
}

/// The parameter catalogue right after initialisation.
pub open spec fn default_params() -> Map<ParameterKey, i128> {
    Map::empty().insert(ParameterKey::AidDefaultExpiry, DEFAULT_AID_DEFAULT_EXPIRY).insert(
        ParameterKey::TreasuryWithdrawalLimit,
        DEFAULT_TREASURY_WITHDRAWAL_LIMIT,
    ).insert(ParameterKey::ReferralTierBps(1), DEFAULT_REFERRAL_TIER_ONE_BPS).insert(
        ParameterKey::ReferralTierBps(2),
        DEFAULT_REFERRAL_TIER_TWO_BPS,
    ).insert(ParameterKey::ReferralTierBps(3), DEFAULT_REFERRAL_TIER_THREE_BPS).insert(
        ParameterKey::ReferralMaxTiers,
        DEFAULT_REFERRAL_MAX_TIERS,
    ).insert(ParameterKey::ReferralRewardCap, DEFAULT_REFERRAL_REWARD_CAP)
}

/// The roles after giving the Admin role to every member of `set`.
pub open spec fn grant_admins(roles: Set<(u64, Role)>, set: Seq<u64>) -> Set<(u64, Role)> {
    roles + Set::new(|p: (u64, Role)| p.1 == Role::Admin && set.contains(p.0))
}

impl GovernanceView {
    pub open spec fn is_admin_role(self, who: u64) -> bool {
        self.roles.contains((who, Role::Admin))
    }

    /// The recorded approvers of proposal `id`.
    pub open spec fn approvers(self, id: u64) -> Set<u64> {
        Set::new(|a: u64| self.approvals.contains((id, a)))
    }

    /// Every proposal's approval count is the number of its distinct
    /// recorded approvers; approvals name only existing proposals, and
    /// proposal ids lie in `1..=prop_count`.
    pub open spec fn tally_ok(self) -> bool {
        &&& forall|id: u64| #[trigger]
            self.proposals.contains_key(id) ==> self.approvers(id).finite() && self.approvers(id).len()
                == self.proposals[id].approval_count
        &&& forall|p: (u64, u64)| #[trigger] self.approvals.contains(p) ==> self.proposals.contains_key(p.0)
        &&& forall|id: u64| #[trigger] self.proposals.contains_key(id) ==> 1 <= id <= self.prop_count
    }

    /// The effect of an executed action, or why it fails.
    pub open spec fn apply_action(self, action: ProposalAction) -> Result<GovernanceView, Error> {
        match action {
            ProposalAction::GrantRole(user, role) => Ok(
                GovernanceView { roles: self.roles.insert((user, role)), ..self },
            ),
            ProposalAction::RevokeRole(user, role) => Ok(
                GovernanceView { roles: self.roles.remove((user, role)), ..self },
            ),
            ProposalAction::SetParameter(key, value) => if param_valid(key, value) {
                Ok(GovernanceView { params: self.params.insert(key, value), ..self })
            } else {
                Err(Error::InvalidArgument)
            },
            ProposalAction::Pause => Ok(GovernanceView { paused: true, ..self }),
            ProposalAction::Unpause => Ok(GovernanceView { paused: false, ..self }),
        }
    }

    /// Outcome of `approve`.
    pub open spec fn approve_spec(self, caller: u64, proposal_id: u64) -> Result<GovernanceView, Error> {
        if !self.admin_set.contains(caller) {
            Err(Error::Unauthorized)
        } else if !self.proposals.contains_key(proposal_id) {
            Err(Error::ProposalNotFound)
        } else {
            let p = self.proposals[proposal_id];
            if p.status != ProposalStatus::Pending {
                Err(Error::AlreadyExecuted)
            } else if self.approvals.contains((proposal_id, caller)) {
                Err(Error::AlreadyApproved)
            } else if p.approval_count == u32::MAX {
                Err(Error::Overflow)
            } else {
                Ok(
                    GovernanceView {
                        proposals: self.proposals.insert(
                            proposal_id,
                            Proposal { approval_count: (p.approval_count + 1) as u32, ..p },
                        ),
                        approvals: self.approvals.insert((proposal_id, caller)),
                        ..self
                    },
                )
            }
        }
    }

    /// Every stored parameter lies within its documented bounds.
    pub open spec fn params_valid(self) -> bool {
        forall|k: ParameterKey| #[trigger] self.params.contains_key(k) ==> param_valid(k, self.params[k])
    }

    /// Outcome of `execute`.
    pub open spec fn execute_spec(self, caller: u64, id: u64) -> Result<GovernanceView, Error> {
        if !self.is_admin_role(caller) {
            Err(Error::Unauthorized)
        } else if !self.proposals.contains_key(id) {
            Err(Error::ProposalNotFound)
        } else if self.proposals[id].status == ProposalStatus::Executed {
            Err(Error::AlreadyExecuted)
        } else if self.proposals[id].approval_count < self.threshold {
            Err(Error::BelowThreshold)
        } else {
            match self.apply_action(self.proposals[id].action) {
                Err(e) => Err(e),
                Ok(v) => Ok(
                    GovernanceView {
                        proposals: v.proposals.insert(
                            id,
                            Proposal { status: ProposalStatus::Executed, ..self.proposals[id] },
                        ),
                        ..v
                    },
                ),
            }
        }
    }
}


fn contains_u64(v: &Vec<u64>, x: u64) -> (b: bool)
    ensures
        b == v@.contains(x),
{
    let mut i: usize = 0;
    while i < v.len()
        invariant
            i <= v@.len(),
            forall|j: int| 0 <= j < i ==> v@[j] != x,
        decreases v.len() - i,
    {
        if v[i] == x {
            assert(v@[i as int] == x);
            return true;
        }
        i = i + 1;
    }
    false
}

impl GovernanceContract {
    fn write_param(&mut self, key: &ParameterKey, value: i128)
        ensures
            final(self)@ == (GovernanceView { params: old(self)@.params.insert(*key, value), ..old(self)@ }),
    {
        self.params.insert(slot_of(key), value);
        proof {
            assert forall|k: ParameterKey| #[trigger] self@.params.contains_key(k) == old(self)@.params.insert(
                *key,
                value,
            ).contains_key(k) by {
                lemma_param_slot_injective(k, *key);
            }
            assert forall|k: ParameterKey| #[trigger] self@.params.contains_key(k) implies self@.params[k]
                == old(self)@.params.insert(*key, value)[k] by {
                lemma_param_slot_injective(k, *key);
            }
            assert(self@.params =~= old(self)@.params.insert(*key, value));
        }
    }

    /// Sets up governance: `admin` manages parameters, every member of
    /// `admin_set` holds the Admin role, `threshold` approvals execute a
    /// proposal, and the parameters take their defaults. The threshold must
    /// lie in `1..=admin_set.len()`.
    pub fn initialize(admin: u64, threshold: u32, admin_set: Vec<u64>) -> (r: Result<Self, Error>)
        ensures
            threshold < 1 || admin_set@.len() < threshold ==> r is Err && r->Err_0 == Error::InvalidArgument,
            r is Ok <==> 1 <= threshold <= admin_set@.len(),
            r is Ok ==> r->Ok_0@ == (GovernanceView {
                admin,
                roles: grant_admins(Set::empty(), admin_set@),
                threshold,
                admin_set: admin_set@,
                paused: false,
                params: default_params(),
                prop_count: 0,
                proposals: Map::empty(),
                approvals: Set::empty(),
            }),
            r is Ok ==> r->Ok_0@.tally_ok(),
    {
        if threshold < 1 {
            return Err(Error::InvalidArgument);
        }
        if admin_set.len() < threshold as usize {
            return Err(Error::InvalidArgument);
        }
        let mut roles = RoleTable::new();
        let mut i: usize = 0;
        while i < admin_set.len()
            invariant
                i <= admin_set@.len(),
                roles@ == grant_admins(Set::empty(), admin_set@.take(i as int)),
            decreases admin_set.len() - i,
        {
            roles.grant(admin_set[i], Role::Admin);
            proof {
                assert(admin_set@.take(i as int + 1) =~= admin_set@.take(i as int).push(admin_set@[i as int]));
                let prev = admin_set@.take(i as int);
                let next = admin_set@.take(i as int + 1);
                assert forall|a: u64| #[trigger] next.contains(a) == (prev.contains(a) || a == admin_set@[i as int]) by {
                    if next.contains(a) {
                        let j = choose|j: int| 0 <= j < next.len() && next[j] == a;
                        if j < i {
                            assert(prev[j] == a);
                        }
                    }
                    if prev.contains(a) {
                        let j = choose|j: int| 0 <= j < prev.len() && prev[j] == a;
                        assert(next[j] == a);
                    }
                    if a == admin_set@[i as int] {
                        assert(next[i as int] == a);
                    }
                }
                assert(roles@ =~= grant_admins(Set::empty(), next));
            }
            i = i + 1;
        }
        assert(admin_set@.take(i as int) =~= admin_set@);
        let mut g = GovernanceContract {
            admin,
            roles,
            threshold,
            admin_set,
            paused: false,
            params: HashMap::new(),
            prop_count: 0,
            proposals: HashMap::new(),
            approvals: HashMap::new(),
        };
        assert(g@.params =~= Map::empty());
        assert(g@.approvals =~= Set::empty());
        g.seed_defaults();
        Ok(g)
    }

    /// Writes every parameter's default over whatever `params` held.
    fn seed_defaults(&mut self)
        requires
            old(self)@.params == Map::<ParameterKey, i128>::empty(),
        ensures
            final(self)@ == (GovernanceView { params: default_params(), ..old(self)@ }),
    {
        self.write_param(&ParameterKey::AidDefaultExpiry, DEFAULT_AID_DEFAULT_EXPIRY);
        self.write_param(&ParameterKey::TreasuryWithdrawalLimit, DEFAULT_TREASURY_WITHDRAWAL_LIMIT);
        self.write_param(&ParameterKey::ReferralTierBps(1), DEFAULT_REFERRAL_TIER_ONE_BPS);
        self.write_param(&ParameterKey::ReferralTierBps(2), DEFAULT_REFERRAL_TIER_TWO_BPS);
        self.write_param(&ParameterKey::ReferralTierBps(3), DEFAULT_REFERRAL_TIER_THREE_BPS);
        self.write_param(&ParameterKey::ReferralMaxTiers, DEFAULT_REFERRAL_MAX_TIERS);
        self.write_param(&ParameterKey::ReferralRewardCap, DEFAULT_REFERRAL_REWARD_CAP);
    }

    fn require_admin_role(&self, caller: u64) -> (r: Result<(), Error>)
        ensures
            r is Ok <==> self@.is_admin_role(caller),
            r is Err ==> r == Err::<(), Error>(Error::Unauthorized),
    {
        self.roles.require_role(caller, Role::Admin)
    }

    /// An Admin-role holder gives `role` to `user`.
    pub fn grant_role(&mut self, caller: u64, user: u64, role: Role) -> (r: Result<(), Error>)
        ensures
            r is Ok <==> old(self)@.is_admin_role(caller),
            r is Err ==> r == Err::<(), Error>(Error::Unauthorized) && final(self)@ == old(self)@,
            r is Ok ==> final(self)@ == (GovernanceView { roles: old(self)@.roles.insert((user, role)), ..old(self)@ }),
            old(self)@.tally_ok() ==> final(self)@.tally_ok(),
    {
        self.require_admin_role(caller)?;
        self.roles.grant(user, role);
        Ok(())
    }

    /// An Admin-role holder takes `role` away from `user`.
    pub fn revoke_role(&mut self, caller: u64, user: u64, role: Role) -> (r: Result<(), Error>)
        ensures
            r is Ok <==> old(self)@.is_admin_role(caller),
            r is Err ==> r == Err::<(), Error>(Error::Unauthorized) && final(self)@ == old(self)@,
            r is Ok ==> final(self)@ == (GovernanceView { roles: old(self)@.roles.remove((user, role)), ..old(self)@ }),
            old(self)@.tally_ok() ==> final(self)@.tally_ok(),
    {
        self.require_admin_role(caller)?;
        self.roles.revoke(user, role);
        Ok(())
    }

    pub fn has_role(&self, user: u64, role: Role) -> (b: bool)
        ensures
            b == self@.roles.contains((user, role)),
    {
        self.roles.has_role(user, role)
    }

    /// An Admin-role holder replaces the approver set and the threshold,
    /// which must lie in `1..=new_admin_set.len()`.
    pub fn set_admin_set(&mut self, caller: u64, new_admin_set: Vec<u64>, new_threshold: u32) -> (r: Result<
        (),
        Error,
    >)
        ensures
            !old(self)@.is_admin_role(caller) ==> r == Err::<(), Error>(Error::Unauthorized),
            old(self)@.is_admin_role(caller) && (new_threshold < 1 || new_admin_set@.len() < new_threshold) ==> r
                == Err::<(), Error>(Error::InvalidArgument),
            r is Ok <==> old(self)@.is_admin_role(caller) && 1 <= new_threshold <= new_admin_set@.len(),
            r is Err ==> final(self)@ == old(self)@,
            r is Ok ==> final(self)@ == (GovernanceView {
                threshold: new_threshold,
                admin_set: new_admin_set@,
                ..old(self)@
            }),
            old(self)@.tally_ok() ==> final(self)@.tally_ok(),
    {
        self.require_admin_role(caller)?;
        if new_threshold < 1 || new_admin_set.len() < new_threshold as usize {
            return Err(Error::InvalidArgument);
        }
        self.threshold = new_threshold;
        self.admin_set = new_admin_set;
        Ok(())
    }

    pub fn get_threshold(&self) -> (r: u32)
        ensures
            r == self@.threshold,
    {
        self.threshold
    }

    pub fn get_admin_set(&self) -> (r: Vec<u64>)
        ensures
            r@ == self@.admin_set,
    {
        let c = self.admin_set.clone();
        assert(c@ =~= self.admin_set@);
        c
    }

    pub fn is_paused(&self) -> (r: bool)
        ensures
            r == self@.paused,
    {
        self.paused
    }

    /// An Admin-role holder opens a proposal with no approvals.
    pub fn propose(&mut self, caller: u64, action: ProposalAction, now: u64) -> (r: Result<u64, Error>)
        ensures
            !old(self)@.is_admin_role(caller) ==> r == Err::<u64, Error>(Error::Unauthorized),
            old(self)@.is_admin_role(caller) && old(self)@.prop_count == u64::MAX ==> r == Err::<u64, Error>(
                Error::Overflow,
            ),
            r is Ok <==> old(self)@.is_admin_role(caller) && old(self)@.prop_count < u64::MAX,
            r is Err ==> final(self)@ == old(self)@,
            r is Ok ==> r->Ok_0 == old(self)@.prop_count + 1 && final(self)@ == (GovernanceView {
                prop_count: r->Ok_0,
                proposals: old(self)@.proposals.insert(
                    r->Ok_0,
                    Proposal {
                        id: r->Ok_0,
                        proposer: caller,
                        action,
                        approval_count: 0,
                        status: ProposalStatus::Pending,
                        created_at: now,
                    },
                ),
                ..old(self)@
            }),
            old(self)@.tally_ok() ==> final(self)@.tally_ok(),
    {
        self.require_admin_role(caller)?;
        let id = match self.prop_count.checked_add(1) {
            Some(id) => id,
            None => {
                return Err(Error::Overflow);
            },
        };
        self.prop_count = id;
        self.proposals.insert(
            id,
            Proposal {
                id,
                proposer: caller,
                action,
                approval_count: 0,
                status: ProposalStatus::Pending,
                created_at: now,
            },
        );
        proof {
            if old(self)@.tally_ok() {
                let v = old(self)@;
                let w = self@;
                assert(!v.proposals.contains_key(id));
                assert(w.approvers(id) =~= Set::<u64>::empty());
                assert forall|q: u64| #[trigger] w.proposals.contains_key(q) implies w.approvers(q).finite()
                    && w.approvers(q).len() == w.proposals[q].approval_count by {
                    if q != id {
                        assert(w.approvers(q) =~= v.approvers(q));
                    }
                }
            }
        }
        Ok(id)
    }

    /// A member of the approver set approves a pending proposal, once.
    pub fn approve(&mut self, caller: u64, proposal_id: u64) -> (r: Result<(), Error>)
        ensures
            match old(self)@.approve_spec(caller, proposal_id) {
                Err(e) => r == Err::<(), Error>(e) && final(self)@ == old(self)@,
                Ok(v) => r is Ok && final(self)@ == v,
            },
            old(self)@.tally_ok() ==> final(self)@.tally_ok(),
    {
        if !contains_u64(&self.admin_set, caller) {
            return Err(Error::Unauthorized);
        }
        let p = match self.proposals.get(&proposal_id) {
            Some(p) => *p,
            None => {
                return Err(Error::ProposalNotFound);
            },
        };
        if p.status != ProposalStatus::Pending {
            return Err(Error::AlreadyExecuted);
        }
        let mut approvers: Vec<u64> = match self.approvals.get(&proposal_id) {
            Some(v) => v.clone(),
            None => Vec::new(),
        };
        proof {
            if self.approvals@.contains_key(proposal_id) {
                assert(approvers@ =~= self.approvals@[proposal_id]@);
            } else {
                assert(approvers@ =~= Seq::<u64>::empty());
            }
        }
        if contains_u64(&approvers, caller) {
            return Err(Error::AlreadyApproved);
        }
        let count = match p.approval_count.checked_add(1) {
            Some(c) => c,
            None => {
                return Err(Error::Overflow);
            },
        };
        let ghost old_approvers = approvers@;
        approvers.push(caller);
        self.approvals.insert(proposal_id, approvers);
        self.proposals.insert(proposal_id, Proposal { approval_count: count, ..p });
        proof {
            assert(self@.approvals =~= old(self)@.approvals.insert((proposal_id, caller))) by {
                assert forall|q: (u64, u64)| #[trigger] self@.approvals.contains(q) == old(self)@.approvals.insert(
                    (proposal_id, caller),
                ).contains(q) by {
                    if q.0 == proposal_id {
                        assert(self.approvals@[proposal_id]@ == old_approvers.push(caller));
                        assert(old_approvers.push(caller).contains(q.1) <==> (old_approvers.contains(q.1)
                            || q.1 == caller)) by {
                            if old_approvers.push(caller).contains(q.1) {
                                let j = choose|j: int| 0 <= j < old_approvers.push(caller).len() && old_approvers.push(caller)[j] == q.1;
                                if j < old_approvers.len() {
                                    assert(old_approvers[j] == q.1);
                                }
                            }
                            if old_approvers.contains(q.1) {
                                let j = choose|j: int| 0 <= j < old_approvers.len() && old_approvers[j] == q.1;
                                assert(old_approvers.push(caller)[j] == q.1);
                            }
                            if q.1 == caller {
                                assert(old_approvers.push(caller)[old_approvers.len() as int] == caller);
                            }
                        }
                    }
                }
            }
        }
        proof {
            if old(self)@.tally_ok() {
                lemma_approval_count_counts_approvers(old(self)@, caller, proposal_id);
            }
        }
        Ok(())
    }

    fn execute_action(&mut self, action: &ProposalAction) -> (r: Result<(), Error>)
        ensures
            match old(self)@.apply_action(*action) {
                Err(e) => r == Err::<(), Error>(e) && final(self)@ == old(self)@,
                Ok(v) => r is Ok && final(self)@ == v,
            },
    {
        match action {
            ProposalAction::GrantRole(user, role) => {
                self.roles.grant(*user, *role);
            },
            ProposalAction::RevokeRole(user, role) => {
                self.roles.revoke(*user, *role);
            },
            ProposalAction::SetParameter(key, value) => {
                validate_param(key, *value)?;
                self.write_param(key, *value);
            },
            ProposalAction::Pause => {
                self.paused = true;
            },
            ProposalAction::Unpause => {
                self.paused = false;
            },
        }
        Ok(())
    }

    /// An Admin-role holder executes a pending proposal that has reached
    /// the threshold.
    pub fn execute(&mut self, caller: u64, proposal_id: u64) -> (r: Result<(), Error>)
        ensures
            match old(self)@.execute_spec(caller, proposal_id) {
                Err(e) => r == Err::<(), Error>(e) && final(self)@ == old(self)@,
                Ok(v) => r is Ok && final(self)@ == v,
            },
            old(self)@.tally_ok() ==> final(self)@.tally_ok(),
    {
        self.require_admin_role(caller)?;
        let p = match self.proposals.get(&proposal_id) {
            Some(p) => *p,
            None => {
                return Err(Error::ProposalNotFound);
            },
        };
        if p.status == ProposalStatus::Executed {
            return Err(Error::AlreadyExecuted);
        }
        if p.approval_count < self.threshold {
            return Err(Error::BelowThreshold);
        }
        self.execute_action(&p.action)?;
        self.proposals.insert(proposal_id, Proposal { status: ProposalStatus::Executed, ..p });
        proof {
            if old(self)@.tally_ok() {
                lemma_tally_execute(old(self)@, caller, proposal_id);
            }
        }
        Ok(())
    }

    pub fn get_proposal(&self, proposal_id: u64) -> (r: Result<Proposal, Error>)
        ensures
            self@.proposals.contains_key(proposal_id) ==> r == Ok::<Proposal, Error>(self@.proposals[proposal_id]),
            !self@.proposals.contains_key(proposal_id) ==> r == Err::<Proposal, Error>(Error::ProposalNotFound),
    {
        match self.proposals.get(&proposal_id) {
            Some(p) => Ok(*p),
            None => Err(Error::ProposalNotFound),
        }
    }

    /// The admin sets a parameter within its bounds; the change is returned
    /// as the event to publish.
    pub fn set_param(&mut self, caller: u64, key: ParameterKey, value: i128) -> (r: Result<
        ParameterChangedEvent,
        Error,
    >)
        ensures
            caller != old(self)@.admin ==> r == Err::<ParameterChangedEvent, Error>(Error::Unauthorized),
            caller == old(self)@.admin && !param_valid(key, value) ==> r == Err::<ParameterChangedEvent, Error>(
                Error::InvalidArgument,
            ),
            r is Ok <==> caller == old(self)@.admin && param_valid(key, value),
            r is Err ==> final(self)@ == old(self)@,
            r is Ok ==> r->Ok_0 == (ParameterChangedEvent { key, value }) && final(self)@ == (GovernanceView {
                params: old(self)@.params.insert(key, value),
                ..old(self)@
            }),
            old(self)@.tally_ok() ==> final(self)@.tally_ok(),
    {
        if caller != self.admin {
            return Err(Error::Unauthorized);
        }
        validate_param(&key, value)?;
        self.write_param(&key, value);
        Ok(ParameterChangedEvent { key, value })
    }

    /// The stored value of a parameter.
    pub fn get_param(&self, key: ParameterKey) -> (r: Result<i128, Error>)
        ensures
            self@.params.contains_key(key) ==> r == Ok::<i128, Error>(self@.params[key]),
            !self@.params.contains_key(key) ==> r == Err::<i128, Error>(Error::NotFound),
    {
        match self.params.get(&slot_of(&key)) {
            Some(v) => Ok(*v),
            None => Err(Error::NotFound),
        }
    }

    /// The documented bounds of a parameter.
    pub fn get_bounds(&self, key: ParameterKey) -> (r: Result<ParameterBounds, Error>)
        ensures
            match spec_bounds_for(key) {
                Some(b) => r == Ok::<ParameterBounds, Error>(b),
                None => r == Err::<ParameterBounds, Error>(Error::InvalidArgument),
            },
    {
        match bounds_for(&key) {
            Some(b) => Ok(b),
            None => Err(Error::InvalidArgument),
        }
    }

    pub fn aid_default_expiry(&self) -> (r: Result<i128, Error>)
        ensures
            r == (if self@.params.contains_key(ParameterKey::AidDefaultExpiry) {
                Ok::<i128, Error>(self@.params[ParameterKey::AidDefaultExpiry])
            } else {
                Err(Error::NotFound)
            }),
    {
        self.get_param(ParameterKey::AidDefaultExpiry)
    }

    pub fn treasury_withdrawal_limit(&self) -> (r: Result<i128, Error>)
        ensures
            r == (if self@.params.contains_key(ParameterKey::TreasuryWithdrawalLimit) {
                Ok::<i128, Error>(self@.params[ParameterKey::TreasuryWithdrawalLimit])
            } else {
                Err(Error::NotFound)
            }),
    {
        self.get_param(ParameterKey::TreasuryWithdrawalLimit)
    }

    pub fn referral_tier_bps(&self, tier: u32) -> (r: Result<i128, Error>)
        ensures
            r == (if self@.params.contains_key(ParameterKey::ReferralTierBps(tier)) {
                Ok::<i128, Error>(self@.params[ParameterKey::ReferralTierBps(tier)])
            } else {
                Err(Error::NotFound)
            }),
    {
        self.get_param(ParameterKey::ReferralTierBps(tier))
    }

    pub fn referral_max_tiers(&self) -> (r: Result<i128, Error>)
        ensures
            r == (if self@.params.contains_key(ParameterKey::ReferralMaxTiers) {
                Ok::<i128, Error>(self@.params[ParameterKey::ReferralMaxTiers])
            } else {
                Err(Error::NotFound)
            }),
    {
        self.get_param(ParameterKey::ReferralMaxTiers)
    }

    pub fn referral_reward_cap(&self) -> (r: Result<i128, Error>)
        ensures
            r == (if self@.params.contains_key(ParameterKey::ReferralRewardCap) {
                Ok::<i128, Error>(self@.params[ParameterKey::ReferralRewardCap])
            } else {
                Err(Error::NotFound)
            }),
    {
        self.get_param(ParameterKey::ReferralRewardCap)
    }
}

/// Each member of the approver set approves a proposal at most once: a
/// second approval by the same member is refused.
pub proof fn lemma_approve_once(v: GovernanceView, caller: u64, proposal_id: u64)
    requires
        v.approve_spec(caller, proposal_id) is Ok,
    ensures
        v.approve_spec(caller, proposal_id)->Ok_0.approve_spec(caller, proposal_id) == Err::<GovernanceView, Error>(
            Error::AlreadyApproved,
        ),
{
}

/// A proposal executes only once it has reached the threshold, and only
/// once: afterwards it can be neither executed nor approved again.
pub proof fn lemma_execute_at_threshold_once(v: GovernanceView, caller: u64, id: u64, later: u64)
    requires
        v.execute_spec(caller, id) is Ok,
    ensures
        v.proposals[id].approval_count >= v.threshold,
        v.execute_spec(caller, id)->Ok_0.execute_spec(later, id) is Err,
        v.execute_spec(caller, id)->Ok_0.approve_spec(later, id) is Err,
{
}

/// Each parameter accepts exactly its documented range, and setting it to a
/// value in that range stores that value:
/// - default aid expiry: 60 s to 31 536 000 s (a year);
/// - treasury withdrawal limit and referral reward cap: 0 to 10^18;
/// - referral tier share, for tiers 1 to 10: 0 to 10 000 bps (other tiers
///   have no bounds and accept nothing);
/// - referral maximum tiers: 1 to 10.
/// The reported bounds are those ranges.
pub proof fn lemma_parameter_ranges(v: GovernanceView, key: ParameterKey, value: i128)
    ensures
        spec_bounds_for(ParameterKey::AidDefaultExpiry) == Some(ParameterBounds { min: 60, max: 31_536_000 }),
        spec_bounds_for(ParameterKey::TreasuryWithdrawalLimit) == Some(
            ParameterBounds { min: 0, max: 1_000_000_000_000_000_000 },
        ),
        spec_bounds_for(ParameterKey::ReferralMaxTiers) == Some(ParameterBounds { min: 1, max: 10 }),
        spec_bounds_for(ParameterKey::ReferralRewardCap) == Some(
            ParameterBounds { min: 0, max: 1_000_000_000_000_000_000 },
        ),
        forall|tier: u32|
            #![trigger spec_bounds_for(ParameterKey::ReferralTierBps(tier))]
            spec_bounds_for(ParameterKey::ReferralTierBps(tier)) == if 1 <= tier <= 10 {
                Some(ParameterBounds { min: 0, max: 10_000 })
            } else {
                None
            },
        param_valid(key, value) <==> match key {
            ParameterKey::AidDefaultExpiry => 60 <= value <= 31_536_000,
            ParameterKey::TreasuryWithdrawalLimit => 0 <= value <= 1_000_000_000_000_000_000,
            ParameterKey::ReferralTierBps(tier) => 1 <= tier <= 10 && 0 <= value <= 10_000,
            ParameterKey::ReferralMaxTiers => 1 <= value <= 10,
            ParameterKey::ReferralRewardCap => 0 <= value <= 1_000_000_000_000_000_000,
        },
        param_valid(key, value) ==> v.apply_action(ProposalAction::SetParameter(key, value)) is Ok
            && v.apply_action(ProposalAction::SetParameter(key, value))->Ok_0.params[key] == value,
        !param_valid(key, value) ==> v.apply_action(ProposalAction::SetParameter(key, value))
            == Err::<GovernanceView, Error>(Error::InvalidArgument),
{
}

/// Parameters never leave their bounds: the defaults lie within them, and
/// executing any proposal keeps every stored value within them.
pub proof fn lemma_params_stay_in_bounds(v: GovernanceView, caller: u64, id: u64)
    requires
        v.params_valid(),
    ensures
        (GovernanceView { params: default_params(), ..v }).params_valid(),
        v.execute_spec(caller, id) is Ok ==> v.execute_spec(caller, id)->Ok_0.params_valid(),
{
    let d = GovernanceView { params: default_params(), ..v };
    assert forall|k: ParameterKey| #[trigger] d.params.contains_key(k) implies param_valid(k, d.params[k]) by {
    }
    if v.execute_spec(caller, id) is Ok {
        let w = v.execute_spec(caller, id)->Ok_0;
        assert forall|k: ParameterKey| #[trigger] w.params.contains_key(k) implies param_valid(k, w.params[k]) by {
        }
    }
}

/// Every approval is counted exactly once: when the tally is consistent, an
/// accepted approval adds its approver to the proposal's distinct
/// approvers (where it was not yet) and raises the count by one, so the
/// count keeps equal to the number of distinct approvers. Every other
/// operation keeps the tally consistent too (see their `ensures`).
pub proof fn lemma_approval_count_counts_approvers(v: GovernanceView, caller: u64, proposal_id: u64)
    requires
        v.tally_ok(),
        v.approve_spec(caller, proposal_id) is Ok,
    ensures
        ({
            let w = v.approve_spec(caller, proposal_id)->Ok_0;
            &&& !v.approvers(proposal_id).contains(caller)
            &&& w.approvers(proposal_id) == v.approvers(proposal_id).insert(caller)
            &&& w.proposals[proposal_id].approval_count == v.proposals[proposal_id].approval_count + 1
            &&& w.tally_ok()
        }),
{
    let w = v.approve_spec(caller, proposal_id)->Ok_0;
    assert(w.approvers(proposal_id) =~= v.approvers(proposal_id).insert(caller));
    assert forall|q: u64| #[trigger] w.proposals.contains_key(q) implies w.approvers(q).finite()
        && w.approvers(q).len() == w.proposals[q].approval_count by {
        if q != proposal_id {
            assert(w.approvers(q) =~= v.approvers(q));
        }
    }
}

proof fn lemma_tally_execute(v: GovernanceView, caller: u64, id: u64)
    requires
        v.tally_ok(),
        v.execute_spec(caller, id) is Ok,
    ensures
        v.execute_spec(caller, id)->Ok_0.tally_ok(),
{
    let w = v.execute_spec(caller, id)->Ok_0;
    assert forall|q: u64| #[trigger] w.proposals.contains_key(q) implies w.approvers(q).finite()
        && w.approvers(q).len() == w.proposals[q].approval_count by {
        assert(w.approvers(q) =~= v.approvers(q));
    }
}

} // verus!
