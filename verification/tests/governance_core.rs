use pulsartrack::common::{Address, CallContext, Error};
use pulsartrack::governance::{GovernanceCoreContract, GovernanceParams, Role};

fn addr(id: u64) -> Address {
    Address { id }
}

fn at(timestamp: u64) -> CallContext {
    CallContext::with_all_auths(timestamp, 0)
}

fn ok(r: Result<(), Error>) {
    if let Err(e) = r {
        panic!("{}", e.message());
    }
}

fn setup(ctx: &CallContext) -> (GovernanceCoreContract, Address) {
    let admin = addr(1);
    let mut c = GovernanceCoreContract::new();
    ok(c.initialize(ctx, admin));
    (c, admin)
}

#[test]
fn governance_test_initialize() {
    let ctx = at(0);
    let (c, _) = setup(&ctx);
    let p = c.get_params();
    assert_eq!(p.min_proposal_threshold, 1_000_000);
    assert_eq!(p.voting_period_ledgers, 10_000);
    assert_eq!(p.quorum_pct, 10);
    assert_eq!(p.pass_threshold_pct, 51);
    assert_eq!(p.timelock_ledgers, 1_000);
    assert_eq!(p.max_active_proposals, 20);
}

#[test]
fn governance_initialize_twice_is_refused() {
    let ctx = at(0);
    let mut c = GovernanceCoreContract::new();
    let a = addr(1);
    ok(c.initialize(&ctx, a));
    assert_eq!(c.initialize(&ctx, a), Err(Error::AlreadyInitialized));
}

#[test]
fn governance_initialize_without_admin_auth_is_refused() {
    let ctx = CallContext::new(0, 0);
    let mut c = GovernanceCoreContract::new();
    assert_eq!(c.initialize(&ctx, addr(1)), Err(Error::AuthRequired));
}

#[test]
fn test_grant_role() {
    let ctx = at(0);
    let (mut c, admin) = setup(&ctx);
    let account = addr(7);
    ok(c.grant_role(&ctx, admin, account, Role::Operator, None));
    assert!(c.has_role(&ctx, account, Role::Operator));
}

#[test]
fn test_grant_role_with_expiry() {
    let ctx = at(0);
    let (mut c, admin) = setup(&ctx);
    let account = addr(7);
    ok(c.grant_role(&ctx, admin, account, Role::Operator, Some(86_400u64)));
    let grant = c.get_role_grant(account, Role::Operator).unwrap();
    assert!(grant.expires_at.is_some());
}

#[test]
#[should_panic(expected = "unauthorized")]
fn test_grant_role_unauthorized() {
    let ctx = at(0);
    let (mut c, _) = setup(&ctx);
    ok(c.grant_role(&ctx, addr(8), addr(9), Role::Operator, None));
}

#[test]
fn test_revoke_role() {
    let ctx = at(0);
    let (mut c, admin) = setup(&ctx);
    let account = addr(7);
    ok(c.grant_role(&ctx, admin, account, Role::Operator, None));
    assert!(c.has_role(&ctx, account, Role::Operator));
    ok(c.revoke_role(&ctx, admin, account, Role::Operator));
    assert!(!c.has_role(&ctx, account, Role::Operator));
}

#[test]
fn test_has_role_false() {
    let ctx = at(0);
    let (mut c, _) = setup(&ctx);
    assert!(!c.has_role(&ctx, addr(7), Role::Operator));
}

#[test]
fn test_update_params() {
    let ctx = at(0);
    let (mut c, admin) = setup(&ctx);
    let params = GovernanceParams {
        min_proposal_threshold: 1000,
        voting_period_ledgers: 86_400,
        quorum_pct: 30,
        pass_threshold_pct: 60,
        timelock_ledgers: 3600,
        max_active_proposals: 10,
    };
    ok(c.update_params(&ctx, admin, params));
    let stored = c.get_params();
    assert_eq!(stored.voting_period_ledgers, 86_400);
}

#[test]
fn test_get_role_grant_nonexistent() {
    let ctx = at(0);
    let (c, _) = setup(&ctx);
    assert!(c.get_role_grant(addr(7), Role::Operator).is_none());
}

#[test]
fn test_expired_role_removed_from_storage() {
    let ctx = at(0);
    let (mut c, admin) = setup(&ctx);
    let account = addr(7);
    ok(c.grant_role(&ctx, admin, account, Role::Moderator, Some(100u64)));
    assert!(c.has_role(&ctx, account, Role::Moderator));
    let later = at(200);
    assert!(!c.has_role(&later, account, Role::Moderator));
    assert!(c.get_role_grant(account, Role::Moderator).is_none());
}

#[test]
fn governance_grant_records_granter_and_time() {
    let ctx = at(55);
    let (mut c, admin) = setup(&ctx);
    ok(c.grant_role(&ctx, admin, addr(7), Role::Oracle, None));
    let g = c.get_role_grant(addr(7), Role::Oracle).unwrap();
    assert_eq!(g.role, Role::Oracle);
    assert_eq!(g.granted_by, admin);
    assert_eq!(g.granted_at, 55);
    assert_eq!(g.expires_at, None);
}

#[test]
fn governance_grant_expires_exactly_at_its_time() {
    let ctx = at(0);
    let (mut c, admin) = setup(&ctx);
    ok(c.grant_role(&ctx, admin, addr(7), Role::Operator, Some(100)));
    assert!(c.has_role(&at(99), addr(7), Role::Operator));
    assert!(!c.has_role(&at(100), addr(7), Role::Operator));
}

#[test]
fn governance_revoke_by_stranger_is_refused() {
    let ctx = at(0);
    let (mut c, admin) = setup(&ctx);
    ok(c.grant_role(&ctx, admin, addr(7), Role::Operator, None));
    assert_eq!(c.revoke_role(&ctx, addr(9), addr(7), Role::Operator), Err(Error::Unauthorized));
    assert!(c.has_role(&ctx, addr(7), Role::Operator));
}

#[test]
fn governance_update_params_by_stranger_is_refused() {
    let ctx = at(0);
    let (mut c, _) = setup(&ctx);
    let params = GovernanceParams {
        min_proposal_threshold: 1,
        voting_period_ledgers: 1,
        quorum_pct: 1,
        pass_threshold_pct: 1,
        timelock_ledgers: 1,
        max_active_proposals: 1,
    };
    assert_eq!(c.update_params(&ctx, addr(9), params), Err(Error::Unauthorized));
    assert_eq!(c.get_params().quorum_pct, 10);
}

#[test]
fn governance_uninitialized_grant_is_refused() {
    let ctx = at(0);
    let mut c = GovernanceCoreContract::new();
    assert_eq!(c.grant_role(&ctx, addr(1), addr(7), Role::Operator, None), Err(Error::NotInitialized));
}

#[test]
fn governance_admin_handover() {
    let ctx = at(0);
    let (mut c, admin) = setup(&ctx);
    let next = addr(5);
    assert_eq!(c.accept_admin(&ctx, next), Err(Error::NoPendingAdmin));
    ok(c.propose_admin(&ctx, admin, next));
    ok(c.accept_admin(&ctx, next));
    assert_eq!(c.grant_role(&ctx, admin, addr(7), Role::Operator, None), Err(Error::Unauthorized));
    ok(c.grant_role(&ctx, next, addr(7), Role::Operator, None));
}
