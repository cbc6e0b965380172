use std::collections::HashMap;

use pulsartrack::common::{Address, CallContext, Error, Party, TokenOp};
use pulsartrack::revenue::RevenueSettlementContract;

fn addr(id: u64) -> Address {
    Address { id }
}

fn at(timestamp: u64) -> CallContext {
    CallContext::with_all_auths(timestamp, 0)
}

fn ok<T>(r: Result<T, Error>) -> T {
    match r {
        Ok(v) => v,
        Err(e) => panic!("{}", e.message()),
    }
}

/// Balances of one token, the contract's own under `None`, carrying out
/// the operations that the contract hands back as the host would.
struct Ledger {
    token: Address,
    balances: HashMap<Option<u64>, i128>,
    burned: i128,
}

impl Ledger {
    fn new(token: Address) -> Ledger {
        Ledger { token, balances: HashMap::new(), burned: 0 }
    }

    fn key(p: Party) -> Option<u64> {
        match p {
            Party::Contract => None,
            Party::Account(a) => Some(a.id),
        }
    }

    fn mint(&mut self, to: Party, amount: i128) {
        *self.balances.entry(Ledger::key(to)).or_insert(0) += amount;
    }

    fn balance(&self, p: Party) -> i128 {
        *self.balances.get(&Ledger::key(p)).unwrap_or(&0)
    }

    fn apply(&mut self, ops: &[TokenOp]) {
        for op in ops {
            match *op {
                TokenOp::Transfer { token, from, to, amount } => {
                    assert_eq!(token, self.token);
                    assert!(self.balance(from) >= amount, "balance is not sufficient");
                    *self.balances.entry(Ledger::key(from)).or_insert(0) -= amount;
                    *self.balances.entry(Ledger::key(to)).or_insert(0) += amount;
                }
                TokenOp::Burn { token, amount } => {
                    assert_eq!(token, self.token);
                    assert!(self.balance(Party::Contract) >= amount, "balance is not sufficient");
                    *self.balances.entry(None).or_insert(0) -= amount;
                    self.burned += amount;
                }
            }
        }
    }
}

struct Setup {
    c: RevenueSettlementContract,
    admin: Address,
    token: Address,
    treasury: Address,
    platform: Address,
}

fn setup(ctx: &CallContext) -> Setup {
    let admin = addr(1);
    let token = addr(2);
    let treasury = addr(3);
    let platform = addr(4);
    let mut c = RevenueSettlementContract::new();
    ok(c.initialize(ctx, admin, token, treasury, platform));
    Setup { c, admin, token, treasury, platform }
}

#[test]
fn revenue_test_initialize() {
    let ctx = at(0);
    let s = setup(&ctx);
    let pool = s.c.get_revenue_pool();
    assert_eq!(pool.total_revenue, 0);
    assert_eq!(pool.total_burned, 0);
    assert_eq!(pool.platform_pct, 250);
    assert_eq!(pool.publisher_pct, 9_000);
    assert_eq!(pool.treasury_pct, 500);
    assert_eq!(pool.burn_pct, 250);
}

#[test]
fn revenue_initialize_twice_is_refused() {
    let ctx = at(0);
    let mut c = RevenueSettlementContract::new();
    ok(c.initialize(&ctx, addr(1), addr(2), addr(3), addr(4)));
    assert_eq!(c.initialize(&ctx, addr(1), addr(2), addr(3), addr(4)), Err(Error::AlreadyInitialized));
}

#[test]
fn revenue_initialize_without_admin_auth_is_refused() {
    let ctx = CallContext::new(0, 0);
    let mut c = RevenueSettlementContract::new();
    assert_eq!(c.initialize(&ctx, addr(1), addr(2), addr(3), addr(4)), Err(Error::AuthRequired));
}

#[test]
fn test_record_revenue_fee_split() {
    let ctx = at(0);
    let mut s = setup(&ctx);
    let publisher = addr(10);
    let settlement_id = ok(s.c.record_revenue(&ctx, s.admin, 1, 100_000, publisher));
    assert_eq!(settlement_id, 1);

    let pool = s.c.get_revenue_pool();
    assert_eq!(pool.total_revenue, 100_000);
    assert_eq!(pool.platform_share, 2_500);
    assert_eq!(pool.treasury_share, 5_000);
    assert_eq!(pool.burn_amount, 2_500);
    assert_eq!(pool.publisher_share, 90_000);

    assert_eq!(s.c.get_publisher_balance(publisher), 90_000);

    let record = s.c.get_settlement(settlement_id).unwrap();
    assert_eq!(record.campaign_id, 1);
    assert_eq!(record.total_amount, 100_000);
    assert_eq!(record.platform_fee, 2_500);
    assert_eq!(record.publisher_amount, 90_000);
}

#[test]
fn test_record_revenue_accumulates() {
    let ctx = at(0);
    let mut s = setup(&ctx);
    let publisher = addr(10);
    ok(s.c.record_revenue(&ctx, s.admin, 1, 100_000, publisher));
    ok(s.c.record_revenue(&ctx, s.admin, 2, 50_000, publisher));
    assert_eq!(s.c.get_revenue_pool().total_revenue, 150_000);
    assert_eq!(s.c.get_publisher_balance(publisher), 135_000);
}

#[test]
#[should_panic(expected = "unauthorized")]
fn test_record_revenue_unauthorized() {
    let ctx = at(0);
    let mut s = setup(&ctx);
    ok(s.c.record_revenue(&ctx, addr(99), 1, 100_000, addr(10)));
}

#[test]
fn test_distribute_platform_revenue() {
    let ctx = at(0);
    let mut s = setup(&ctx);
    let mut ledger = Ledger::new(s.token);
    ledger.mint(Party::Contract, 10_000_000);

    let publisher = addr(10);
    ok(s.c.record_revenue(&ctx, s.admin, 1, 100_000, publisher));

    let later = at(1000);
    let ops = ok(s.c.distribute_platform_revenue(&later, s.admin));
    ledger.apply(&ops);

    assert_eq!(ledger.balance(Party::Account(s.platform)), 2_500);
    assert_eq!(ledger.balance(Party::Account(s.treasury)), 5_000);
    assert_eq!(ledger.balance(Party::Contract), 9_990_000);

    let pool = s.c.get_revenue_pool();
    assert_eq!(pool.platform_share, 0);
    assert_eq!(pool.treasury_share, 0);
    assert_eq!(pool.burn_amount, 0);
    assert_eq!(pool.total_burned, 2_500);
    assert_eq!(pool.last_settlement, 1000);
}

#[test]
fn test_total_burned_accumulates_across_distributions() {
    let ctx = at(0);
    let mut s = setup(&ctx);
    let mut ledger = Ledger::new(s.token);
    ledger.mint(Party::Contract, 10_000_000);
    let publisher = addr(10);

    ok(s.c.record_revenue(&ctx, s.admin, 1, 100_000, publisher));
    let ops = ok(s.c.distribute_platform_revenue(&ctx, s.admin));
    ledger.apply(&ops);
    let first = s.c.get_revenue_pool();
    assert_eq!(first.burn_amount, 0);
    assert_eq!(first.total_burned, 2_500);

    ok(s.c.record_revenue(&ctx, s.admin, 2, 100_000, publisher));
    let ops = ok(s.c.distribute_platform_revenue(&ctx, s.admin));
    ledger.apply(&ops);
    let second = s.c.get_revenue_pool();
    assert_eq!(second.burn_amount, 0);
    assert_eq!(second.total_burned, 5_000);
    assert_eq!(ledger.burned, 5_000);
}

#[test]
#[should_panic(expected = "unauthorized")]
fn test_distribute_unauthorized() {
    let ctx = at(0);
    let mut s = setup(&ctx);
    ok(s.c.distribute_platform_revenue(&ctx, addr(99)));
}

#[test]
fn test_claim_publisher_balance() {
    let ctx = at(0);
    let mut s = setup(&ctx);
    let mut ledger = Ledger::new(s.token);
    ledger.mint(Party::Contract, 10_000_000);

    let publisher = addr(10);
    ok(s.c.record_revenue(&ctx, s.admin, 1, 100_000, publisher));
    let ops = ok(s.c.claim_publisher_balance(&ctx, publisher));
    ledger.apply(&ops);

    assert_eq!(ledger.balance(Party::Account(publisher)), 90_000);
    assert_eq!(s.c.get_publisher_balance(publisher), 0);
}

#[test]
#[should_panic(expected = "no balance to claim")]
fn test_claim_zero_balance() {
    let ctx = at(0);
    let mut s = setup(&ctx);
    ok(s.c.claim_publisher_balance(&ctx, addr(10)));
}

#[test]
fn test_get_publisher_balance_unknown() {
    let ctx = at(0);
    let s = setup(&ctx);
    assert_eq!(s.c.get_publisher_balance(addr(77)), 0);
}

#[test]
fn test_get_settlement_nonexistent() {
    let ctx = at(0);
    let s = setup(&ctx);
    assert!(s.c.get_settlement(999).is_none());
}

#[test]
fn revenue_rounding_dust_goes_to_treasury() {
    let ctx = at(0);
    let mut s = setup(&ctx);
    let publisher = addr(10);
    ok(s.c.record_revenue(&ctx, s.admin, 1, 99, publisher));
    let pool = s.c.get_revenue_pool();
    assert_eq!(pool.platform_share, 2);
    assert_eq!(pool.burn_amount, 2);
    assert_eq!(pool.publisher_share, 89);
    assert_eq!(pool.treasury_share, 6);
    assert_eq!(s.c.get_publisher_balance(publisher), 89);
    assert_eq!(s.c.get_settlement(1).unwrap().publisher_amount, 89);
}

#[test]
fn revenue_split_of_399() {
    let ctx = at(0);
    let mut s = setup(&ctx);
    ok(s.c.record_revenue(&ctx, s.admin, 1, 399, addr(10)));
    let pool = s.c.get_revenue_pool();
    assert_eq!(pool.platform_share, 9);
    assert_eq!(pool.burn_amount, 9);
    assert_eq!(pool.publisher_share, 359);
    assert_eq!(pool.treasury_share, 22);
}

#[test]
fn revenue_settlement_ids_count_up() {
    let ctx = at(5);
    let mut s = setup(&ctx);
    assert_eq!(ok(s.c.record_revenue(&ctx, s.admin, 7, 1_000, addr(10))), 1);
    assert_eq!(ok(s.c.record_revenue(&ctx, s.admin, 8, 1_000, addr(11))), 2);
    let rec = s.c.get_settlement(2).unwrap();
    assert_eq!(rec.settlement_id, 2);
    assert_eq!(rec.campaign_id, 8);
    assert_eq!(rec.settled_at, 5);
}

#[test]
fn revenue_distribute_with_nothing_pending_moves_nothing() {
    let ctx = at(0);
    let mut s = setup(&ctx);
    let ops = ok(s.c.distribute_platform_revenue(&at(42), s.admin));
    assert!(ops.is_empty());
    assert_eq!(s.c.get_revenue_pool().last_settlement, 42);
}

#[test]
fn revenue_claim_pays_once() {
    let ctx = at(0);
    let mut s = setup(&ctx);
    let publisher = addr(10);
    ok(s.c.record_revenue(&ctx, s.admin, 1, 100_000, publisher));
    let ops = ok(s.c.claim_publisher_balance(&ctx, publisher));
    assert_eq!(
        ops,
        vec![TokenOp::Transfer { token: s.token, from: Party::Contract, to: Party::Account(publisher), amount: 90_000 }]
    );
    assert_eq!(s.c.claim_publisher_balance(&ctx, publisher), Err(Error::NoBalanceToClaim));
}

#[test]
fn revenue_distribute_operations_in_order() {
    let ctx = at(0);
    let mut s = setup(&ctx);
    ok(s.c.record_revenue(&ctx, s.admin, 1, 100_000, addr(10)));
    let ops = ok(s.c.distribute_platform_revenue(&ctx, s.admin));
    assert_eq!(
        ops,
        vec![
            TokenOp::Transfer { token: s.token, from: Party::Contract, to: Party::Account(s.platform), amount: 2_500 },
            TokenOp::Transfer { token: s.token, from: Party::Contract, to: Party::Account(s.treasury), amount: 5_000 },
            TokenOp::Burn { token: s.token, amount: 2_500 },
        ]
    );
}

#[test]
fn revenue_holdings_match_tracked_shares() {
    let ctx = at(0);
    let mut s = setup(&ctx);
    let mut ledger = Ledger::new(s.token);
    let pubs = [addr(10), addr(11)];
    let outstanding = |c: &RevenueSettlementContract| {
        let pool = c.get_revenue_pool();
        pubs.iter().map(|p| c.get_publisher_balance(*p)).sum::<i128>()
            + pool.platform_share
            + pool.treasury_share
            + pool.burn_amount
    };
    for (i, amount) in [99i128, 100_000, 12_345].iter().enumerate() {
        ledger.mint(Party::Contract, *amount);
        ok(s.c.record_revenue(&ctx, s.admin, i as u64, *amount, pubs[i % 2]));
        assert_eq!(ledger.balance(Party::Contract), outstanding(&s.c));
    }
    let ops = ok(s.c.claim_publisher_balance(&ctx, pubs[0]));
    ledger.apply(&ops);
    assert_eq!(ledger.balance(Party::Contract), outstanding(&s.c));
    let ops = ok(s.c.distribute_platform_revenue(&ctx, s.admin));
    ledger.apply(&ops);
    assert_eq!(ledger.balance(Party::Contract), outstanding(&s.c));
    assert_eq!(ledger.balance(Party::Contract), s.c.get_publisher_balance(pubs[1]));
}
