//! Role-based access control shared by the contracts.
use vstd::prelude::*;
use std::collections::HashMap;

verus! {

broadcast use vstd::std_specs::hash::group_hash_axioms;

/// The roles an account can hold.
#[derive(Clone, Copy, Debug, PartialEq, Eq, Structural)]
pub enum Role {
    Admin,
    Upgrader,
    TreasuryManager,
    Pauser,
    ReferralManager,
    OracleSigner,
}

/// The roles held by one account.
#[derive(Clone, Copy, Debug, PartialEq, Eq, Structural)]
pub struct RoleSet {
    pub admin: bool,
    pub upgrader: bool,
    pub treasury_manager: bool,
    pub pauser: bool,
    pub referral_manager: bool,
    pub oracle_signer: bool,
}

impl RoleSet {
    pub open spec fn has(self, role: Role) -> bool {
        match role {
            Role::Admin => self.admin,
            Role::Upgrader => self.upgrader,
            Role::TreasuryManager => self.treasury_manager,
            Role::Pauser => self.pauser,
            Role::ReferralManager => self.referral_manager,
            Role::OracleSigner => self.oracle_signer,
        }
    }

    pub open spec fn empty() -> RoleSet {
        RoleSet {
            admin: false,
            upgrader: false,
            treasury_manager: false,
            pauser: false,
            referral_manager: false,
            oracle_signer: false,
        }
    }

    /// The set with `role` switched to `on`.
    pub open spec fn with(self, role: Role, on: bool) -> RoleSet {
        match role {
            Role::Admin => RoleSet { admin: on, ..self },
            Role::Upgrader => RoleSet { upgrader: on, ..self },
            Role::TreasuryManager => RoleSet { treasury_manager: on, ..self },
            Role::Pauser => RoleSet { pauser: on, ..self },
            Role::ReferralManager => RoleSet { referral_manager: on, ..self },
            Role::OracleSigner => RoleSet { oracle_signer: on, ..self },
        }
    }

    fn set(&mut self, role: Role, on: bool)
        ensures
            *final(self) == old(self).with(role, on),
    {
        match role {
            Role::Admin => self.admin = on,
            Role::Upgrader => self.upgrader = on,
            Role::TreasuryManager => self.treasury_manager = on,
            Role::Pauser => self.pauser = on,
            Role::ReferralManager => self.referral_manager = on,
            Role::OracleSigner => self.oracle_signer = on,
        }
    }

    fn holds(&self, role: Role) -> (b: bool)
        ensures
            b == self.has(role),
    {
        match role {
            Role::Admin => self.admin,
            Role::Upgrader => self.upgrader,
            Role::TreasuryManager => self.treasury_manager,
            Role::Pauser => self.pauser,
            Role::ReferralManager => self.referral_manager,
            Role::OracleSigner => self.oracle_signer,
        }
    }
}

/// Which accounts hold which roles.
pub struct RoleTable {
    roles: HashMap<u64, RoleSet>,
}

impl View for RoleTable {
    type V = Set<(u64, Role)>;

    closed spec fn view(&self) -> Set<(u64, Role)> {
        Set::new(
            |p: (u64, Role)| self.roles@.contains_key(p.0) && self.roles@[p.0].has(p.1),
        )
    }
}

impl RoleTable {
    /// A table in which nobody holds a role.
    pub fn new() -> (t: Self)
        ensures
            t@ == Set::<(u64, Role)>::empty(),
    {
        let t = RoleTable { roles: HashMap::new() };
        assert(t@ =~= Set::<(u64, Role)>::empty());
        t
    }

    /// Whether `user` holds `role`.
    pub fn has_role(&self, user: u64, role: Role) -> (b: bool)
        ensures
            b == self@.contains((user, role)),
    {
        match self.roles.get(&user) {
            Some(rs) => rs.holds(role),
            None => false,
        }
    }

    /// Gives `role` to `user`.
    pub fn grant(&mut self, user: u64, role: Role)
        ensures
            final(self)@ == old(self)@.insert((user, role)),
    {
        let mut rs = match self.roles.get(&user) {
            Some(rs) => *rs,
            None => RoleSet {
                admin: false,
                upgrader: false,
                treasury_manager: false,
                pauser: false,
                referral_manager: false,
                oracle_signer: false,
            },
        };
        rs.set(role, true);
        self.roles.insert(user, rs);
        assert(self@ =~= old(self)@.insert((user, role)));
    }

    /// Takes `role` away from `user`.
    pub fn revoke(&mut self, user: u64, role: Role)
        ensures
            final(self)@ == old(self)@.remove((user, role)),
    {
        match self.roles.get(&user) {
            Some(rs) => {
                let mut rs = *rs;
                rs.set(role, false);
                self.roles.insert(user, rs);
            },
            None => {},
        }
        assert(self@ =~= old(self)@.remove((user, role)));
    }

    /// `Ok` when `caller` holds `role`.
    pub fn require_role(&self, caller: u64, role: Role) -> (r: Result<(), crate::errors::Error>)
        ensures
            r is Ok <==> self@.contains((caller, role)),
            r is Err ==> r == Err::<(), crate::errors::Error>(crate::errors::Error::Unauthorized),
    {
        if self.has_role(caller, role) {
            Ok(())
        } else {
            Err(crate::errors::Error::Unauthorized)
        }
    }

    /// A copy of the table.
    pub fn duplicate(&self) -> (t: Self)
        ensures
            t@ == self@,
    {
        let t = RoleTable { roles: self.roles.clone() };
        assert(t@ =~= self@);
        t
    }
}

/// The access-control state a contract keeps: its admin, the roles granted
/// and whether it is paused.
pub struct AuthStore {
    admin: u64,
    roles: RoleTable,
    paused: bool,
}

/// Abstract state of an [`AuthStore`].
pub struct AuthView {
    pub admin: u64,
    pub roles: Set<(u64, Role)>,
    pub paused: bool,
}

impl View for AuthStore {
    type V = AuthView;

    closed spec fn view(&self) -> AuthView {
        AuthView { admin: self.admin, roles: self.roles@, paused: self.paused }
    }
}

impl AuthStore {
    /// A store whose admin is `admin`, with no roles granted, not paused.
    pub fn new(admin: u64) -> (s: Self)
        ensures
            s@ == (AuthView { admin, roles: Set::empty(), paused: false }),
    {
        AuthStore { admin, roles: RoleTable::new(), paused: false }
    }
}

/// Replaces the admin.
pub fn set_admin(store: &mut AuthStore, admin: u64)
    ensures
        final(store)@ == (AuthView { admin, ..old(store)@ }),
{
    store.admin = admin;
}

/// The admin.
pub fn get_admin(store: &AuthStore) -> (r: u64)
    ensures
        r == store@.admin,
{
    store.admin
}

/// `Ok` exactly when `caller` is the admin.
pub fn require_admin(store: &AuthStore, caller: u64) -> (r: Result<(), crate::errors::Error>)
    ensures
        caller == store@.admin ==> r is Ok,
        caller != store@.admin ==> r == Err::<(), crate::errors::Error>(crate::errors::Error::Unauthorized),
{
    if caller != store.admin {
        return Err(crate::errors::Error::Unauthorized);
    }
    Ok(())
}

/// The admin gives `role` to `user`.
pub fn grant_role(store: &mut AuthStore, caller: u64, user: u64, role: Role) -> (r: Result<
    (),
    crate::errors::Error,
>)
    ensures
        caller != old(store)@.admin ==> r == Err::<(), crate::errors::Error>(crate::errors::Error::Unauthorized)
            && final(store)@ == old(store)@,
        caller == old(store)@.admin ==> r is Ok && final(store)@ == (AuthView {
            roles: old(store)@.roles.insert((user, role)),
            ..old(store)@
        }),
{
    require_admin(store, caller)?;
    store.roles.grant(user, role);
    Ok(())
}

/// The admin takes `role` away from `user`.
pub fn revoke_role(store: &mut AuthStore, caller: u64, user: u64, role: Role) -> (r: Result<
    (),
    crate::errors::Error,
>)
    ensures
        caller != old(store)@.admin ==> r == Err::<(), crate::errors::Error>(crate::errors::Error::Unauthorized)
            && final(store)@ == old(store)@,
        caller == old(store)@.admin ==> r is Ok && final(store)@ == (AuthView {
            roles: old(store)@.roles.remove((user, role)),
            ..old(store)@
        }),
{
    require_admin(store, caller)?;
    store.roles.revoke(user, role);
    Ok(())
}

/// Whether `user` holds `role`.
pub fn has_role(store: &AuthStore, user: u64, role: Role) -> (b: bool)
    ensures
        b == store@.roles.contains((user, role)),
{
    store.roles.has_role(user, role)
}

/// `Ok` exactly when `user` holds `role`.
pub fn require_role(store: &AuthStore, user: u64, role: Role) -> (r: Result<(), crate::errors::Error>)
    ensures
        store@.roles.contains((user, role)) ==> r is Ok,
        !store@.roles.contains((user, role)) ==> r == Err::<(), crate::errors::Error>(
            crate::errors::Error::Unauthorized,
        ),
{
    store.roles.require_role(user, role)
}

/// Pauses or resumes.
pub fn set_paused(store: &mut AuthStore, paused: bool)
    ensures
        final(store)@ == (AuthView { paused, ..old(store)@ }),
{
    store.paused = paused;
}

/// Whether paused.
pub fn is_paused(store: &AuthStore) -> (b: bool)
    ensures
        b == store@.paused,
{
    store.paused
}

/// `Ok` exactly when not paused.
pub fn require_not_paused(store: &AuthStore) -> (r: Result<(), crate::errors::Error>)
    ensures
        !store@.paused ==> r is Ok,
        store@.paused ==> r == Err::<(), crate::errors::Error>(crate::errors::Error::ContractPaused),
{
    if store.paused {
        return Err(crate::errors::Error::ContractPaused);
    }
    Ok(())
}

/// Granting a role makes it held and revoking it makes it not held, and
/// neither touches any other (account, role) pair.
pub proof fn lemma_grant_revoke_roles(v: AuthView, admin_caller: u64, user: u64, role: Role, other: (u64, Role))
    requires
        admin_caller == v.admin,
        other != (user, role),
    ensures
        v.roles.insert((user, role)).contains((user, role)),
        !v.roles.insert((user, role)).remove((user, role)).contains((user, role)),
        v.roles.insert((user, role)).contains(other) == v.roles.contains(other),
        v.roles.remove((user, role)).contains(other) == v.roles.contains(other),
{
}

} // verus!
