//! Governance core: platform governance parameters and role grants with
//! optional expiry.

use std::collections::HashMap;
use vstd::prelude::*;
use crate::admin::AdminSlots;
use crate::common::{lookup, pair_key, make_pair_key, Address, CallContext, Error, follows, fits_u32};

verus! {

#[derive(Clone, Copy, PartialEq, Eq, Debug, Structural)]
pub enum Role {
    Admin,
    Moderator,
    Oracle,
    Operator,
}

/// A role held by an account.
#[derive(Clone, Copy, PartialEq, Eq, Debug, Structural)]
pub struct RoleGrant {
    pub role: Role,
    pub granted_by: Address,
    pub granted_at: u64,
    /// The time from which the grant no longer counts.
    pub expires_at: Option<u64>,
}

#[derive(Clone, Copy, PartialEq, Eq, Debug, Structural)]
pub struct GovernanceParams {
    pub min_proposal_threshold: i128,
    pub voting_period_ledgers: u32,
    pub quorum_pct: u32,
    pub pass_threshold_pct: u32,
    pub timelock_ledgers: u32,
    pub max_active_proposals: u32,
}

/// The number that stands for a role in keys.
pub open spec fn role_code(role: Role) -> u64 {
    match role {
        Role::Admin => 0,
        Role::Moderator => 1,
        Role::Oracle => 2,
        Role::Operator => 3,
    }
}

fn role_code_of(role: Role) -> (r: u64)
    ensures
        r == role_code(role),
{
    match role {
        Role::Admin => 0,
        Role::Moderator => 1,
        Role::Oracle => 2,
        Role::Operator => 3,
    }
}

/// The key of an account's grant of a role.
pub open spec fn grant_key(account: Address, role: Role) -> u128 {
    pair_key(account.id, role_code(role))
}

/// The parameters a freshly initialized contract starts with.
pub open spec fn default_params() -> GovernanceParams {
    GovernanceParams {
        min_proposal_threshold: 1_000_000,
        voting_period_ledgers: 10_000,
        quorum_pct: 10,
        pass_threshold_pct: 51,
        timelock_ledgers: 1_000,
        max_active_proposals: 20,
    }
}

/// The contract's stored state.
pub struct GovernanceState {
    pub admin: AdminSlots,
    pub params: Option<GovernanceParams>,
    pub active_proposal_count: Option<u32>,
    pub grants: Map<u128, RoleGrant>,
    pub role_counts: Map<u64, u32>,
}

impl GovernanceState {
    pub open spec fn role_count(self, role: Role) -> u32 {
        if self.role_counts.contains_key(role_code(role)) { self.role_counts[role_code(role)] } else { 0 }
    }

    /// The role counts with one fewer holder of `role`, never below zero.
    pub open spec fn counts_after_removal(self, role: Role) -> Map<u64, u32> {
        if self.role_count(role) > 0 {
            self.role_counts.insert(role_code(role), (self.role_count(role) - 1) as u32)
        } else {
            self.role_counts
        }
    }

    pub open spec fn initialize(self, ctx: &CallContext, admin: Address) -> Result<GovernanceState, Error> {
        if self.admin.admin is Some {
            Err(Error::AlreadyInitialized)
        } else if !ctx.authorizes(admin) {
            Err(Error::AuthRequired)
        } else {
            Ok(GovernanceState {
                admin: AdminSlots { admin: Some(admin), pending: self.admin.pending },
                params: Some(default_params()),
                active_proposal_count: Some(0),
                ..self
            })
        }
    }

    pub open spec fn grant_role(self, ctx: &CallContext, admin: Address, account: Address, role: Role, expires_at: Option<u64>) -> Result<GovernanceState, Error> {
        if self.admin.admin_check(ctx, admin) is Err {
            Err(self.admin.admin_check(ctx, admin)->Err_0)
        } else if !fits_u32(self.role_count(role) + 1) {
            Err(Error::Overflow)
        } else {
            Ok(GovernanceState {
                grants: self.grants.insert(grant_key(account, role), RoleGrant {
                    role,
                    granted_by: admin,
                    granted_at: ctx.timestamp,
                    expires_at,
                }),
                role_counts: self.role_counts.insert(role_code(role), (self.role_count(role) + 1) as u32),
                ..self
            })
        }
    }

    pub open spec fn revoke_role(self, ctx: &CallContext, admin: Address, account: Address, role: Role) -> Result<GovernanceState, Error> {
        if self.admin.admin_check(ctx, admin) is Err {
            Err(self.admin.admin_check(ctx, admin)->Err_0)
        } else {
            Ok(GovernanceState {
                grants: self.grants.remove(grant_key(account, role)),
                role_counts: self.counts_after_removal(role),
                ..self
            })
        }
    }

    /// Whether the account holds the role at time `now`; a grant found
    /// expired is dropped and the role's count lowered.
    pub open spec fn has_role(self, now: u64, account: Address, role: Role) -> (GovernanceState, bool) {
        let key = grant_key(account, role);
        if !self.grants.contains_key(key) {
            (self, false)
        } else {
            match self.grants[key].expires_at {
                Some(t) if t <= now => (
                    GovernanceState {
                        grants: self.grants.remove(key),
                        role_counts: self.counts_after_removal(role),
                        ..self
                    },
                    false,
                ),
                _ => (self, true),
            }
        }
    }

    pub open spec fn update_params(self, ctx: &CallContext, admin: Address, params: GovernanceParams) -> Result<GovernanceState, Error> {
        if self.admin.admin_check(ctx, admin) is Err {
            Err(self.admin.admin_check(ctx, admin)->Err_0)
        } else {
            Ok(GovernanceState { params: Some(params), ..self })
        }
    }

    pub open spec fn propose_admin(self, ctx: &CallContext, current_admin: Address, new_admin: Address) -> Result<GovernanceState, Error> {
        match self.admin.after_propose(ctx, current_admin, new_admin) {
            Ok(a) => Ok(GovernanceState { admin: a, ..self }),
            Err(e) => Err(e),
        }
    }

    pub open spec fn accept_admin(self, ctx: &CallContext, new_admin: Address) -> Result<GovernanceState, Error> {
        match self.admin.after_accept(ctx, new_admin) {
            Ok(a) => Ok(GovernanceState { admin: a, ..self }),
            Err(e) => Err(e),
        }
    }
}

/// The governance core contract.
pub struct GovernanceCoreContract {
    admin: AdminSlots,
    params: Option<GovernanceParams>,
    active_proposal_count: Option<u32>,
    grants: HashMap<u128, RoleGrant>,
    role_counts: HashMap<u64, u32>,
}

impl View for GovernanceCoreContract {
    type V = GovernanceState;

    closed spec fn view(&self) -> GovernanceState {
        GovernanceState {
            admin: self.admin,
            params: self.params,
            active_proposal_count: self.active_proposal_count,
            grants: self.grants@,
            role_counts: self.role_counts@,
        }
    }
}

impl GovernanceCoreContract {
    /// An empty, uninitialized contract.
    pub fn new() -> (c: GovernanceCoreContract)
        ensures
            c@.admin == AdminSlots::new_spec(),
            c@.params is None,
            c@.active_proposal_count is None,
            c@.grants == Map::<u128, RoleGrant>::empty(),
            c@.role_counts == Map::<u64, u32>::empty(),
    {
        GovernanceCoreContract {
            admin: AdminSlots::new(),
            params: None,
            active_proposal_count: None,
            grants: HashMap::new(),
            role_counts: HashMap::new(),
        }
    }

    pub fn initialize(&mut self, ctx: &CallContext, admin: Address) -> (r: Result<(), Error>)
        ensures
            follows(old(self)@.initialize(ctx, admin), r, old(self)@, final(self)@),
    {
        if self.admin.admin.is_some() {
            return Err(Error::AlreadyInitialized);
        }
        match ctx.require_auth(admin) {
            Ok(()) => {},
            Err(e) => return Err(e),
        }
        self.admin.admin = Some(admin);
        self.params = Some(GovernanceParams {
            min_proposal_threshold: 1_000_000,
            voting_period_ledgers: 10_000,
            quorum_pct: 10,
            pass_threshold_pct: 51,
            timelock_ledgers: 1_000,
            max_active_proposals: 20,
        });
        self.active_proposal_count = Some(0);
        Ok(())
    }

    fn role_count_of(&self, code: u64) -> (r: u32)
        ensures
            r == (if self@.role_counts.contains_key(code) { self@.role_counts[code] } else { 0 }),
    {
        match self.role_counts.get(&code) {
            Some(c) => *c,
            None => 0,
        }
    }

    fn lower_role_count(&mut self, role: Role)
        ensures
            final(self)@ == (GovernanceState { role_counts: old(self)@.counts_after_removal(role), ..old(self)@ }),
    {
        let code = role_code_of(role);
        let count = self.role_count_of(code);
        if count > 0 {
            self.role_counts.insert(code, count - 1);
        }
    }

    pub fn grant_role(&mut self, ctx: &CallContext, admin: Address, account: Address, role: Role, expires_at: Option<u64>) -> (r: Result<(), Error>)
        ensures
            follows(old(self)@.grant_role(ctx, admin, account, role, expires_at), r, old(self)@, final(self)@),
    {
        match self.admin.require_admin(ctx, admin) {
            Ok(()) => {},
            Err(e) => return Err(e),
        }
        let code = role_code_of(role);
        let count = self.role_count_of(code);
        let next = match count.checked_add(1) {
            Some(v) => v,
            None => return Err(Error::Overflow),
        };
        self.grants.insert(make_pair_key(account.id, code), RoleGrant {
            role,
            granted_by: admin,
            granted_at: ctx.timestamp,
            expires_at,
        });
        self.role_counts.insert(code, next);
        Ok(())
    }

    pub fn revoke_role(&mut self, ctx: &CallContext, admin: Address, account: Address, role: Role) -> (r: Result<(), Error>)
        ensures
            follows(old(self)@.revoke_role(ctx, admin, account, role), r, old(self)@, final(self)@),
    {
        match self.admin.require_admin(ctx, admin) {
            Ok(()) => {},
            Err(e) => return Err(e),
        }
        let key = make_pair_key(account.id, role_code_of(role));
        self.grants.remove(&key);
        self.lower_role_count(role);
        Ok(())
    }

    /// Whether `account` holds `role` at the context's time; an expired
    /// grant is dropped on the way.
    pub fn has_role(&mut self, ctx: &CallContext, account: Address, role: Role) -> (r: bool)
        ensures
            (final(self)@, r) == old(self)@.has_role(ctx.timestamp, account, role),
    {
        let key = make_pair_key(account.id, role_code_of(role));
        let grant = match self.grants.get(&key) {
            None => return false,
            Some(g) => *g,
        };
        match grant.expires_at {
            Some(t) => {
                if t <= ctx.timestamp {
                    self.grants.remove(&key);
                    self.lower_role_count(role);
                    return false;
                }
                true
            },
            None => true,
        }
    }

    pub fn update_params(&mut self, ctx: &CallContext, admin: Address, params: GovernanceParams) -> (r: Result<(), Error>)
        ensures
            follows(old(self)@.update_params(ctx, admin, params), r, old(self)@, final(self)@),
    {
        match self.admin.require_admin(ctx, admin) {
            Ok(()) => {},
            Err(e) => return Err(e),
        }
        self.params = Some(params);
        Ok(())
    }

    /// The governance parameters of an initialized contract.
    pub fn get_params(&self) -> (r: GovernanceParams)
        requires
            self@.params is Some,
        ensures
            r == self@.params.unwrap(),
    {
        match self.params {
            Some(p) => p,
            None => default_params_value(),
        }
    }

    pub fn get_role_grant(&self, account: Address, role: Role) -> (r: Option<RoleGrant>)
        ensures
            r == lookup(self@.grants, grant_key(account, role)),
    {
        match self.grants.get(&make_pair_key(account.id, role_code_of(role))) {
            Some(g) => Some(*g),
            None => None,
        }
    }

    pub fn propose_admin(&mut self, ctx: &CallContext, current_admin: Address, new_admin: Address) -> (r: Result<(), Error>)
        ensures
            follows(old(self)@.propose_admin(ctx, current_admin, new_admin), r, old(self)@, final(self)@),
    {
        self.admin.propose(ctx, current_admin, new_admin)
    }

    pub fn accept_admin(&mut self, ctx: &CallContext, new_admin: Address) -> (r: Result<(), Error>)
        ensures
            follows(old(self)@.accept_admin(ctx, new_admin), r, old(self)@, final(self)@),
    {
        self.admin.accept(ctx, new_admin)
    }
}

fn default_params_value() -> (p: GovernanceParams)
    ensures
        p == default_params(),
{
    GovernanceParams {
        min_proposal_threshold: 1_000_000,
        voting_period_ledgers: 10_000,
        quorum_pct: 10,
        pass_threshold_pct: 51,
        timelock_ledgers: 1_000,
        max_active_proposals: 20,
    }
}

/// A grant without expiry is held from then on; after a revocation the
/// role is no longer held.
pub proof fn lemma_grant_then_revoke(s: GovernanceState, ctx: &CallContext, admin: Address, account: Address, role: Role, now: u64)
    requires
        s.grant_role(ctx, admin, account, role, None) is Ok,
    ensures
        s.grant_role(ctx, admin, account, role, None).unwrap().has_role(now, account, role).1,
        s.grant_role(ctx, admin, account, role, None).unwrap().revoke_role(ctx, admin, account, role) is Ok,
        !s.grant_role(ctx, admin, account, role, None).unwrap().revoke_role(ctx, admin, account, role).unwrap().has_role(now, account, role).1,
{
}

/// A grant that expires at `t` is held before `t`; from `t` on it is not
/// held and the grant is gone from the record.
pub proof fn lemma_grant_expiry(s: GovernanceState, ctx: &CallContext, admin: Address, account: Address, role: Role, t: u64, now: u64)
    requires
        s.grant_role(ctx, admin, account, role, Some(t)) is Ok,
    ensures
        ({
            let g = s.grant_role(ctx, admin, account, role, Some(t)).unwrap();
            &&& now < t ==> g.has_role(now, account, role).1
            &&& t <= now ==> !g.has_role(now, account, role).1
            &&& t <= now ==> !g.has_role(now, account, role).0.grants.contains_key(grant_key(account, role))
        }),
{
}

/// Only the administrator can grant roles.
pub proof fn lemma_grant_needs_admin(s: GovernanceState, ctx: &CallContext, caller: Address, account: Address, role: Role, expires_at: Option<u64>)
    requires
        s.admin.admin != Some(caller),
    ensures
        s.grant_role(ctx, caller, account, role, expires_at) is Err,
{
}

/// Roles are kept apart: granting or revoking one role of one account
/// leaves whether any other account holds any role, and whether the same
/// account holds any other role, as it was.
pub proof fn lemma_grants_kept_apart(
    s: GovernanceState,
    ctx: &CallContext,
    admin: Address,
    account: Address,
    role: Role,
    expires_at: Option<u64>,
    other_account: Address,
    other_role: Role,
    now: u64,
)
    requires
        account != other_account || role != other_role,
    ensures
        s.grant_role(ctx, admin, account, role, expires_at) matches Ok(t)
            ==> t.has_role(now, other_account, other_role).1 == s.has_role(now, other_account, other_role).1,
        s.revoke_role(ctx, admin, account, role) matches Ok(t)
            ==> t.has_role(now, other_account, other_role).1 == s.has_role(now, other_account, other_role).1,
        s.grant_role(ctx, admin, account, role, None) is Ok
            ==> s.grant_role(ctx, admin, account, role, None).unwrap().has_role(now, account, role).1,
{
    lemma_grant_keys_distinct(account, role, other_account, other_role);
}

/// Distinct (account, role) pairs have distinct grant keys.
proof fn lemma_grant_keys_distinct(a1: Address, r1: Role, a2: Address, r2: Role)
    requires
        a1 != a2 || r1 != r2,
    ensures
        grant_key(a1, r1) != grant_key(a2, r2),
{
    let c1 = role_code(r1);
    let c2 = role_code(r2);
    assert(c1 < 4 && c2 < 4);
    assert(r1 != r2 ==> c1 != c2);
    let k1 = a1.id as int * 0x1_0000_0000_0000_0000 + c1 as int;
    let k2 = a2.id as int * 0x1_0000_0000_0000_0000 + c2 as int;
    assert(0 <= k1 < 0x1_0000_0000_0000_0000_0000_0000_0000_0000);
    assert(0 <= k2 < 0x1_0000_0000_0000_0000_0000_0000_0000_0000);
    if a1.id != a2.id {
        assert(k1 != k2);
    } else {
        assert(a1 == a2);
        assert(c1 != c2);
    }
    assert(grant_key(a1, r1) == k1);
    assert(grant_key(a2, r2) == k2);
}

} // verus!
