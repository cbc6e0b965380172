use pulsartrack::budget::{BudgetOptimizerContract, OptimizationMode};
use pulsartrack::common::{Address, CallContext, Error};

fn addr(id: u64) -> Address {
    Address { id }
}

fn at(timestamp: u64) -> CallContext {
    CallContext::with_all_auths(timestamp, 0)
}

fn ok(r: Result<(), Error>) {
    if let Err(e) = r {
        panic!("{}", e.message());
    }
}

fn setup(ctx: &CallContext) -> (BudgetOptimizerContract, Address, Address) {
    let admin = addr(1);
    let oracle = addr(2);
    let mut c = BudgetOptimizerContract::new();
    ok(c.initialize(ctx, admin, oracle));
    (c, admin, oracle)
}

fn allocate(c: &mut BudgetOptimizerContract, ctx: &CallContext, total: i128, daily: i128) {
    let advertiser = addr(3);
    ok(c.set_budget_allocation(ctx, advertiser, 1, total, daily, OptimizationMode::ManualCpc, 500, 100));
}

#[test]
fn test_test_initialize() {
    let ctx = at(0);
    setup(&ctx);
}

#[test]
#[should_panic(expected = "already initialized")]
fn test_test_initialize_twice() {
    let ctx = at(0);
    let mut c = BudgetOptimizerContract::new();
    let a = addr(1);
    let o = addr(2);
    ok(c.initialize(&ctx, a, o));
    ok(c.initialize(&ctx, a, o));
}

#[test]
#[should_panic]
fn test_test_initialize_non_admin_fails() {
    let ctx = CallContext::new(0, 0);
    let mut c = BudgetOptimizerContract::new();
    ok(c.initialize(&ctx, addr(1), addr(2)));
}

#[test]
fn test_set_budget_allocation() {
    let ctx = at(0);
    let (mut c, _, _) = setup(&ctx);
    allocate(&mut c, &ctx, 100_000, 10_000);
    let alloc = c.get_allocation(1).unwrap();
    assert_eq!(alloc.total_budget, 100_000);
    assert_eq!(alloc.daily_budget, 10_000);
}

#[test]
fn test_record_spend() {
    let ctx = at(0);
    let (mut c, admin, _) = setup(&ctx);
    allocate(&mut c, &ctx, 100_000, 10_000);
    ok(c.record_spend(&ctx, admin, 1, 5_000));
    let alloc = c.get_allocation(1).unwrap();
    assert_eq!(alloc.spent_today, 5_000);
}

#[test]
fn test_record_spend_resets_on_new_day() {
    let ctx = at(0);
    let (mut c, admin, _) = setup(&ctx);
    allocate(&mut c, &ctx, 100_000, 10_000);
    ok(c.record_spend(&ctx, admin, 1, 10_000));
    assert!(!c.can_spend(&ctx, 1, 1));
    let next_day = at(86_400);
    ok(c.record_spend(&next_day, admin, 1, 2_000));
    let alloc = c.get_allocation(1).unwrap();
    assert_eq!(alloc.spent_today, 2_000);
    assert_eq!(alloc.spent_total, 12_000);
}

#[test]
fn test_can_spend() {
    let ctx = at(0);
    let (mut c, _, _) = setup(&ctx);
    allocate(&mut c, &ctx, 100_000, 10_000);
    assert!(c.can_spend(&ctx, 1, 5_000));
    assert!(!c.can_spend(&ctx, 1, 110_000));
}

#[test]
fn test_can_spend_resets_on_new_day_without_write() {
    let ctx = at(0);
    let (mut c, admin, _) = setup(&ctx);
    allocate(&mut c, &ctx, 100_000, 10_000);
    ok(c.record_spend(&ctx, admin, 1, 10_000));
    assert!(!c.can_spend(&ctx, 1, 1));
    let next_day = at(86_400);
    assert!(c.can_spend(&next_day, 1, 10_000));
}

#[test]
fn test_get_allocation_nonexistent() {
    let ctx = at(0);
    let (c, _, _) = setup(&ctx);
    assert!(c.get_allocation(999).is_none());
}

#[test]
fn test_can_spend_nonexistent() {
    let ctx = at(0);
    let (c, _, _) = setup(&ctx);
    assert!(!c.can_spend(&ctx, 999, 100));
}

#[test]
fn test_optimization_does_not_break_reset() {
    let ctx = at(0);
    let (mut c, admin, oracle) = setup(&ctx);
    allocate(&mut c, &ctx, 100_000, 10_000);
    ok(c.record_spend(&ctx, admin, 1, 10_000));
    assert!(!c.can_spend(&ctx, 1, 1));
    let day1 = at(86_400);
    ok(c.optimize_budget(&day1, oracle, 1, 12_000, String::from("better performance")));
    assert!(c.can_spend(&day1, 1, 12_000));
    ok(c.record_spend(&day1, admin, 1, 5_000));
    let alloc = c.get_allocation(1).unwrap();
    assert_eq!(alloc.spent_today, 5_000);
    assert_eq!(alloc.spent_total, 15_000);
    assert_eq!(alloc.last_reset_day, 1);
}

#[test]
fn test_hourly_budget_remainder_tracked() {
    let ctx = at(0);
    let (mut c, _, _) = setup(&ctx);
    allocate(&mut c, &ctx, 1_000, 100);
    let alloc = c.get_allocation(1).unwrap();
    assert_eq!(alloc.hourly_budget, 4);
    assert_eq!(alloc.budget_remainder, 4);
    assert_eq!(
        alloc.budget_remainder * (alloc.hourly_budget + 1) + (24 - alloc.budget_remainder) * alloc.hourly_budget,
        alloc.daily_budget
    );
}

#[test]
fn test_hourly_budget_remainder_after_optimization() {
    let ctx = at(0);
    let (mut c, _, oracle) = setup(&ctx);
    allocate(&mut c, &ctx, 100_000, 10_000);
    ok(c.optimize_budget(&ctx, oracle, 1, 100, String::from("test remainder")));
    let alloc = c.get_allocation(1).unwrap();
    assert_eq!(alloc.hourly_budget, 4);
    assert_eq!(alloc.budget_remainder, 4);
    assert_eq!(
        alloc.budget_remainder * (alloc.hourly_budget + 1) + (24 - alloc.budget_remainder) * alloc.hourly_budget,
        alloc.daily_budget
    );
}

#[test]
fn budget_daily_above_total_refused() {
    let ctx = at(0);
    let (mut c, _, _) = setup(&ctx);
    let r = c.set_budget_allocation(&ctx, addr(3), 1, 100, 101, OptimizationMode::AutoCpm, 0, 0);
    assert_eq!(r, Err(Error::DailyBudgetExceedsTotal));
    assert!(c.get_allocation(1).is_none());
}

#[test]
fn budget_optimize_caps_at_remaining_budget() {
    let ctx = at(0);
    let (mut c, admin, oracle) = setup(&ctx);
    allocate(&mut c, &ctx, 20_000, 10_000);
    ok(c.record_spend(&ctx, admin, 1, 15_000));
    ok(c.optimize_budget(&ctx, oracle, 1, 12_000, String::from("cap")));
    let alloc = c.get_allocation(1).unwrap();
    assert_eq!(alloc.daily_budget, 5_000);
    assert_eq!(alloc.hourly_budget, 208);
    assert_eq!(alloc.budget_remainder, 8);
}

#[test]
fn budget_negative_daily_split_rounds_toward_zero() {
    let ctx = at(0);
    let (mut c, _, _) = setup(&ctx);
    allocate(&mut c, &ctx, 0, -100);
    let alloc = c.get_allocation(1).unwrap();
    assert_eq!(alloc.hourly_budget, -4);
    assert_eq!(alloc.budget_remainder, -4);
    assert_eq!(alloc.hourly_budget * 24 + alloc.budget_remainder, -100);
}

#[test]
fn budget_optimize_by_other_than_oracle_refused() {
    let ctx = at(0);
    let (mut c, admin, _) = setup(&ctx);
    allocate(&mut c, &ctx, 100_000, 10_000);
    let r = c.optimize_budget(&ctx, admin, 1, 1, String::from("x"));
    assert_eq!(r, Err(Error::Unauthorized));
    let r = c.optimize_budget(&ctx, addr(2), 2, 1, String::from("x"));
    assert_eq!(r, Err(Error::AllocationNotFound));
}

#[test]
fn budget_record_spend_missing_allocation() {
    let ctx = at(0);
    let (mut c, admin, _) = setup(&ctx);
    assert_eq!(c.record_spend(&ctx, admin, 5, 1), Err(Error::AllocationNotFound));
}

#[test]
fn budget_can_spend_with_sums_beyond_i128() {
    let ctx = at(0);
    let (mut c, admin, _) = setup(&ctx);
    allocate(&mut c, &ctx, 100_000, 10_000);
    ok(c.record_spend(&ctx, admin, 1, 5_000));
    assert!(!c.can_spend(&ctx, 1, i128::MAX));
    assert!(c.can_spend(&ctx, 1, i128::MIN));
}
