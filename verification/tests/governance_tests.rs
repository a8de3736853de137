use contracts::auth::Role;
use contracts::errors::Error;
use contracts::governance::{
    GovernanceContract, ParameterBounds, ParameterChangedEvent, ParameterKey, ProposalAction, ProposalStatus,
    DEFAULT_AID_DEFAULT_EXPIRY, DEFAULT_REFERRAL_MAX_TIERS, DEFAULT_REFERRAL_REWARD_CAP,
    DEFAULT_REFERRAL_TIER_ONE_BPS, DEFAULT_REFERRAL_TIER_THREE_BPS, DEFAULT_REFERRAL_TIER_TWO_BPS,
    DEFAULT_TREASURY_WITHDRAWAL_LIMIT, MAX_AID_DEFAULT_EXPIRY, MAX_REFERRAL_TIER_BPS, MIN_REFERRAL_TIER_BPS,
};

const ADMIN: u64 = 1;
const OTHER: u64 = 2;
const T: u64 = 1_000;

/// A 2-of-2 governance setup.
fn setup() -> GovernanceContract {
    GovernanceContract::initialize(ADMIN, 2, vec![ADMIN, OTHER]).unwrap()
}

fn make_admin_set(start: u64, n: u64) -> Vec<u64> {
    (start..start + n).collect()
}

fn pass(c: &mut GovernanceContract, action: ProposalAction) -> u64 {
    let id = c.propose(ADMIN, action, T).unwrap();
    c.approve(ADMIN, id).unwrap();
    c.approve(OTHER, id).unwrap();
    c.execute(ADMIN, id).unwrap();
    id
}

#[test]
fn initialize_sets_admin_and_seeds_defaults() {
    let c = setup();
    assert_eq!(c.aid_default_expiry(), Ok(DEFAULT_AID_DEFAULT_EXPIRY));
    assert_eq!(c.treasury_withdrawal_limit(), Ok(DEFAULT_TREASURY_WITHDRAWAL_LIMIT));
    assert_eq!(c.referral_tier_bps(1), Ok(DEFAULT_REFERRAL_TIER_ONE_BPS));
    assert_eq!(c.referral_tier_bps(2), Ok(DEFAULT_REFERRAL_TIER_TWO_BPS));
    assert_eq!(c.referral_tier_bps(3), Ok(DEFAULT_REFERRAL_TIER_THREE_BPS));
    assert_eq!(c.referral_max_tiers(), Ok(DEFAULT_REFERRAL_MAX_TIERS));
    assert_eq!(c.referral_reward_cap(), Ok(DEFAULT_REFERRAL_REWARD_CAP));
    assert!(c.has_role(ADMIN, Role::Admin));
}

#[test]
fn initialize_rejects_zero_threshold() {
    assert!(matches!(GovernanceContract::initialize(ADMIN, 0, vec![ADMIN]), Err(Error::InvalidArgument)));
}

#[test]
fn initialize_rejects_threshold_exceeding_admin_set_size() {
    assert!(matches!(GovernanceContract::initialize(ADMIN, 2, vec![ADMIN]), Err(Error::InvalidArgument)));
}

#[test]
fn admin_can_grant_role() {
    let mut c = setup();
    c.grant_role(ADMIN, 50, Role::Upgrader).unwrap();
    assert!(c.has_role(50, Role::Upgrader));
}

#[test]
fn non_admin_cannot_grant_role() {
    let mut c = setup();
    assert_eq!(c.grant_role(99, 50, Role::Upgrader), Err(Error::Unauthorized));
    assert!(!c.has_role(50, Role::Upgrader));
}

#[test]
fn admin_can_revoke_role() {
    let mut c = setup();
    c.grant_role(ADMIN, 50, Role::Pauser).unwrap();
    assert!(c.has_role(50, Role::Pauser));
    c.revoke_role(ADMIN, 50, Role::Pauser).unwrap();
    assert!(!c.has_role(50, Role::Pauser));
}

#[test]
fn non_admin_cannot_revoke_role() {
    let mut c = setup();
    c.grant_role(ADMIN, 50, Role::Pauser).unwrap();
    assert_eq!(c.revoke_role(99, 50, Role::Pauser), Err(Error::Unauthorized));
    assert!(c.has_role(50, Role::Pauser));
}

#[test]
fn propose_creates_proposal_with_zero_approvals() {
    let mut c = setup();
    let id = c.propose(ADMIN, ProposalAction::Pause, T).unwrap();
    let p = c.get_proposal(id).unwrap();
    assert_eq!(p.id, 1);
    assert_eq!(p.proposer, ADMIN);
    assert_eq!(p.action, ProposalAction::Pause);
    assert_eq!(p.approval_count, 0);
    assert_eq!(p.status, ProposalStatus::Pending);
}

#[test]
fn non_admin_cannot_propose() {
    let mut c = setup();
    assert_eq!(c.propose(99, ProposalAction::Pause, T), Err(Error::Unauthorized));
}

#[test]
fn approve_records_and_increments_count() {
    let mut c = setup();
    let second = c.get_admin_set()[1];
    let id = c.propose(ADMIN, ProposalAction::Pause, T).unwrap();
    c.approve(ADMIN, id).unwrap();
    assert_eq!(c.get_proposal(id).unwrap().approval_count, 1);
    c.approve(second, id).unwrap();
    assert_eq!(c.get_proposal(id).unwrap().approval_count, 2);
}

#[test]
fn duplicate_approval_is_rejected() {
    let mut c = setup();
    let id = c.propose(ADMIN, ProposalAction::Pause, T).unwrap();
    c.approve(ADMIN, id).unwrap();
    assert_eq!(c.approve(ADMIN, id), Err(Error::AlreadyApproved));
}

#[test]
fn execute_fails_below_threshold() {
    let mut c = setup();
    let id = c.propose(ADMIN, ProposalAction::Pause, T).unwrap();
    c.approve(ADMIN, id).unwrap();
    assert_eq!(c.execute(ADMIN, id), Err(Error::BelowThreshold));
}

#[test]
fn execute_succeeds_at_threshold() {
    let mut c = setup();
    let id = pass(&mut c, ProposalAction::Pause);
    assert_eq!(c.get_proposal(id).unwrap().status, ProposalStatus::Executed);
    assert!(c.is_paused());
}

#[test]
fn execute_fails_on_already_executed() {
    let mut c = setup();
    let id = pass(&mut c, ProposalAction::Pause);
    assert_eq!(c.execute(ADMIN, id), Err(Error::AlreadyExecuted));
}

#[test]
fn execute_with_more_approvals_than_threshold() {
    let mut c = GovernanceContract::initialize(11, 2, vec![11, 12, 13]).unwrap();
    let id = c.propose(11, ProposalAction::Pause, T).unwrap();
    c.approve(11, id).unwrap();
    c.approve(12, id).unwrap();
    c.approve(13, id).unwrap();
    c.execute(11, id).unwrap();
    assert_eq!(c.get_proposal(id).unwrap().status, ProposalStatus::Executed);
    assert!(c.is_paused());
}

#[test]
fn non_admin_cannot_approve() {
    let mut c = setup();
    let id = c.propose(ADMIN, ProposalAction::Pause, T).unwrap();
    assert_eq!(c.approve(99, id), Err(Error::Unauthorized));
}

#[test]
fn non_admin_cannot_execute() {
    let mut c = setup();
    let id = c.propose(ADMIN, ProposalAction::Pause, T).unwrap();
    c.approve(ADMIN, id).unwrap();
    c.approve(OTHER, id).unwrap();
    assert_eq!(c.execute(99, id), Err(Error::Unauthorized));
}

#[test]
fn grant_role_via_proposal() {
    let mut c = setup();
    pass(&mut c, ProposalAction::GrantRole(50, Role::TreasuryManager));
    assert!(c.has_role(50, Role::TreasuryManager));
}

#[test]
fn revoke_role_via_proposal() {
    let mut c = setup();
    c.grant_role(ADMIN, 50, Role::TreasuryManager).unwrap();
    assert!(c.has_role(50, Role::TreasuryManager));
    pass(&mut c, ProposalAction::RevokeRole(50, Role::TreasuryManager));
    assert!(!c.has_role(50, Role::TreasuryManager));
}

#[test]
fn set_parameter_via_proposal() {
    let mut c = setup();
    pass(&mut c, ProposalAction::SetParameter(ParameterKey::AidDefaultExpiry, 120));
    assert_eq!(c.aid_default_expiry(), Ok(120));
}

#[test]
fn pause_via_proposal() {
    let mut c = setup();
    pass(&mut c, ProposalAction::Pause);
    assert!(c.is_paused());
}

#[test]
fn unpause_via_proposal() {
    let mut c = setup();
    pass(&mut c, ProposalAction::Pause);
    assert!(c.is_paused());
    pass(&mut c, ProposalAction::Unpause);
    assert!(!c.is_paused());
}

#[test]
fn get_proposal_returns_not_found_for_nonexistent_id() {
    let c = setup();
    assert_eq!(c.get_proposal(999), Err(Error::ProposalNotFound));
}

#[test]
fn admin_can_update_admin_set_and_threshold() {
    let mut c = setup();
    c.set_admin_set(ADMIN, make_admin_set(20, 3), 2).unwrap();
    assert_eq!(c.get_threshold(), 2);
    assert_eq!(c.get_admin_set().len(), 3);
}

#[test]
fn non_admin_cannot_update_admin_set() {
    let mut c = setup();
    assert_eq!(c.set_admin_set(99, make_admin_set(20, 1), 1), Err(Error::Unauthorized));
}

#[test]
fn set_admin_set_rejects_invalid_threshold() {
    let mut c = setup();
    assert_eq!(c.set_admin_set(ADMIN, make_admin_set(20, 2), 3), Err(Error::InvalidArgument));
}

#[test]
fn authorized_update_changes_parameter_and_emits_event() {
    let mut c = setup();
    let key = ParameterKey::ReferralTierBps(2);
    let value = 350;
    let ev = c.set_param(ADMIN, key, value).unwrap();
    assert_eq!(ev, ParameterChangedEvent { key, value });
    assert_eq!(c.get_param(ParameterKey::ReferralTierBps(2)), Ok(value));
    assert_eq!(c.referral_tier_bps(2), Ok(value));
}

#[test]
fn unauthorized_update_is_rejected() {
    let mut c = setup();
    assert!(matches!(c.set_param(99, ParameterKey::AidDefaultExpiry, 120), Err(Error::Unauthorized)));
    assert_eq!(c.aid_default_expiry(), Ok(DEFAULT_AID_DEFAULT_EXPIRY));
}

#[test]
fn out_of_range_values_are_rejected() {
    let mut c = setup();
    assert!(matches!(
        c.set_param(ADMIN, ParameterKey::AidDefaultExpiry, MAX_AID_DEFAULT_EXPIRY + 1),
        Err(Error::InvalidArgument)
    ));
    assert!(matches!(c.set_param(ADMIN, ParameterKey::ReferralTierBps(1), 10_001), Err(Error::InvalidArgument)));
    assert!(matches!(c.set_param(ADMIN, ParameterKey::ReferralTierBps(0), 100), Err(Error::InvalidArgument)));
    assert!(matches!(c.set_param(ADMIN, ParameterKey::ReferralMaxTiers, 0), Err(Error::InvalidArgument)));
}

#[test]
fn bounds_are_readable_for_dependent_contracts() {
    let c = setup();
    assert_eq!(
        c.get_bounds(ParameterKey::ReferralTierBps(1)),
        Ok(ParameterBounds { min: MIN_REFERRAL_TIER_BPS, max: MAX_REFERRAL_TIER_BPS })
    );
    assert!(matches!(c.get_bounds(ParameterKey::ReferralTierBps(11)), Err(Error::InvalidArgument)));
}

// ---------------------------------------------------------------------------
// Laws on concrete values
// ---------------------------------------------------------------------------

#[test]
fn executed_proposal_cannot_be_approved_again() {
    let mut c = setup();
    let id = pass(&mut c, ProposalAction::Unpause);
    assert_eq!(c.approve(OTHER, id), Err(Error::AlreadyExecuted));
    assert_eq!(c.execute(OTHER, id), Err(Error::AlreadyExecuted));
}

#[test]
fn invalid_parameter_proposal_fails_and_leaves_it_pending() {
    let mut c = setup();
    let id = c.propose(ADMIN, ProposalAction::SetParameter(ParameterKey::ReferralMaxTiers, 0), T).unwrap();
    c.approve(ADMIN, id).unwrap();
    c.approve(OTHER, id).unwrap();
    assert_eq!(c.execute(ADMIN, id), Err(Error::InvalidArgument));
    assert_eq!(c.get_proposal(id).unwrap().status, ProposalStatus::Pending);
    assert_eq!(c.referral_max_tiers(), Ok(DEFAULT_REFERRAL_MAX_TIERS));
}

#[test]
fn parameter_bounds_are_inclusive() {
    let mut c = setup();
    assert!(c.set_param(ADMIN, ParameterKey::AidDefaultExpiry, MAX_AID_DEFAULT_EXPIRY).is_ok());
    assert!(c.set_param(ADMIN, ParameterKey::ReferralTierBps(10), 0).is_ok());
    assert!(c.set_param(ADMIN, ParameterKey::ReferralTierBps(11), 0).is_err());
}

#[test]
fn approver_set_decides_who_approves() {
    let mut c = GovernanceContract::initialize(ADMIN, 1, vec![ADMIN, OTHER]).unwrap();
    let newcomer = 3;
    c.set_admin_set(ADMIN, vec![ADMIN, newcomer], 1).unwrap();
    assert!(!c.has_role(newcomer, Role::Admin));
    let id = c.propose(ADMIN, ProposalAction::Pause, T).unwrap();
    let before = c.get_proposal(id).unwrap();
    assert_eq!(c.approve(OTHER, id), Err(Error::Unauthorized));
    assert_eq!(c.get_proposal(id).unwrap(), before);
    assert_eq!(c.approve(newcomer, id), Ok(()));
    assert_eq!(c.get_proposal(id).unwrap().approval_count, 1);
}
