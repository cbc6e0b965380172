use pulsartrack::analytics::AnalyticsAggregatorContract;
use pulsartrack::common::{Address, CallContext, Error};

fn addr(id: u64) -> Address {
    Address { id }
}

fn all_auths() -> CallContext {
    CallContext::with_all_auths(0, 0)
}

fn ok(r: Result<(), Error>) {
    if let Err(e) = r {
        panic!("{}", e.message());
    }
}

fn setup(ctx: &CallContext) -> (AnalyticsAggregatorContract, Address) {
    let admin = addr(1);
    let oracle = addr(2);
    let mut c = AnalyticsAggregatorContract::new();
    ok(c.initialize(ctx, admin, oracle));
    (c, admin)
}

#[test]
fn test_initialize() {
    let ctx = all_auths();
    setup(&ctx);
}

#[test]
#[should_panic(expected = "already initialized")]
fn test_initialize_twice() {
    let ctx = all_auths();
    let mut c = AnalyticsAggregatorContract::new();
    let a = addr(1);
    let o = addr(2);
    ok(c.initialize(&ctx, a, o));
    ok(c.initialize(&ctx, a, o));
}

#[test]
#[should_panic]
fn test_initialize_non_admin_fails() {
    let ctx = CallContext::new(0, 0);
    let mut c = AnalyticsAggregatorContract::new();
    ok(c.initialize(&ctx, addr(1), addr(2)));
}

#[test]
fn test_record_impression() {
    let ctx = all_auths();
    let (mut c, _) = setup(&ctx);
    let caller = addr(3);
    ok(c.record_impression(&ctx, caller, 1, 100));
    let a = c.get_campaign_analytics(1).unwrap();
    assert_eq!(a.total_impressions, 1);
}

#[test]
fn test_record_click() {
    let ctx = all_auths();
    let (mut c, _) = setup(&ctx);
    let caller = addr(3);
    ok(c.record_impression(&ctx, caller, 1, 100));
    ok(c.record_click(&ctx, caller, 1));
    let a = c.get_campaign_analytics(1).unwrap();
    assert_eq!(a.total_clicks, 1);
}

#[test]
fn test_get_campaign_analytics_nonexistent() {
    let ctx = all_auths();
    let (c, _) = setup(&ctx);
    assert!(c.get_campaign_analytics(999).is_none());
}

#[test]
fn test_get_global_stats() {
    let ctx = all_auths();
    let (c, _) = setup(&ctx);
    let stats = c.get_global_stats();
    assert_eq!(stats.total_campaigns, 0);
}

#[test]
fn test_record_conversion_increments_count() {
    let ctx = all_auths();
    let (mut c, _) = setup(&ctx);
    let caller = addr(3);
    ok(c.record_impression(&ctx, caller, 1, 100));
    ok(c.record_click(&ctx, caller, 1));
    ok(c.record_conversion(&ctx, caller, 1));
    let a = c.get_campaign_analytics(1).unwrap();
    assert_eq!(a.total_conversions, 1);
}

#[test]
fn test_record_conversion_calculates_cvr() {
    let ctx = all_auths();
    let (mut c, _) = setup(&ctx);
    let caller = addr(3);
    for _ in 0..4 {
        ok(c.record_impression(&ctx, caller, 1, 100));
    }
    ok(c.record_click(&ctx, caller, 1));
    ok(c.record_click(&ctx, caller, 1));
    ok(c.record_conversion(&ctx, caller, 1));
    let a = c.get_campaign_analytics(1).unwrap();
    assert_eq!(a.cvr, 5000);
}

#[test]
fn test_cvr_stays_zero_without_clicks() {
    let ctx = all_auths();
    let (mut c, _) = setup(&ctx);
    let caller = addr(3);
    ok(c.record_impression(&ctx, caller, 1, 100));
    let a = c.get_campaign_analytics(1).unwrap();
    assert_eq!(a.cvr, 0);
}

#[test]
#[should_panic(expected = "analytics not found")]
fn test_record_conversion_without_analytics_panics() {
    let ctx = all_auths();
    let (mut c, _) = setup(&ctx);
    let caller = addr(3);
    ok(c.record_conversion(&ctx, caller, 999));
}

#[test]
fn analytics_ctr_and_cpm_values() {
    let ctx = all_auths();
    let (mut c, _) = setup(&ctx);
    let caller = addr(3);
    // 3 impressions at 100 each, 1 click: ctr = 1 * 10000 / 3 = 3333, cpm = 300 * 1000 / 3 = 100000
    for _ in 0..3 {
        ok(c.record_impression(&ctx, caller, 7, 100));
    }
    ok(c.record_click(&ctx, caller, 7));
    let a = c.get_campaign_analytics(7).unwrap();
    assert_eq!(a.ctr, 3333);
    assert_eq!(a.cpm, 100_000);
    assert_eq!(a.total_spend, 300);
}

#[test]
fn analytics_ctr_capped_at_full_rate() {
    let ctx = all_auths();
    let (mut c, _) = setup(&ctx);
    let caller = addr(3);
    ok(c.record_impression(&ctx, caller, 7, 10));
    ok(c.record_click(&ctx, caller, 7));
    ok(c.record_click(&ctx, caller, 7));
    let a = c.get_campaign_analytics(7).unwrap();
    // two clicks on one impression would be 200%; the rate is capped
    assert_eq!(a.ctr, 10_000);
}

#[test]
fn analytics_ctr_stays_capped_for_very_many_clicks() {
    let ctx = all_auths();
    let (mut c, _) = setup(&ctx);
    let caller = addr(3);
    ok(c.record_impression(&ctx, caller, 7, 10));
    for _ in 0..429_497u32 {
        ok(c.record_click(&ctx, caller, 7));
    }
    let a = c.get_campaign_analytics(7).unwrap();
    assert_eq!(a.total_clicks, 429_497);
    assert_eq!(a.ctr, 10_000);
    ok(c.record_impression(&ctx, caller, 7, 10));
    assert_eq!(c.get_campaign_analytics(7).unwrap().ctr, 10_000);
}

#[test]
fn analytics_cpm_rounds_toward_zero_for_negative_spend() {
    let ctx = all_auths();
    let (mut c, _) = setup(&ctx);
    let caller = addr(3);
    ok(c.record_impression(&ctx, caller, 7, -1));
    ok(c.record_impression(&ctx, caller, 7, 0));
    ok(c.record_impression(&ctx, caller, 7, 0));
    let a = c.get_campaign_analytics(7).unwrap();
    // -1000 / 3 rounds toward zero
    assert_eq!(a.cpm, -333);
}

#[test]
fn analytics_hourly_and_global_totals() {
    let ctx = CallContext::with_all_auths(7_300, 0);
    let (mut c, _) = setup(&ctx);
    let caller = addr(3);
    ok(c.record_impression(&ctx, caller, 1, 40));
    ok(c.record_impression(&ctx, caller, 2, 60));
    ok(c.record_click(&ctx, caller, 2));
    let h = c.get_hourly_stats(1, 2).unwrap();
    assert_eq!(h.impressions, 1);
    assert_eq!(h.spend, 40);
    assert_eq!(h.timestamp, 7_300);
    assert!(c.get_hourly_stats(1, 3).is_none());
    let g = c.get_global_stats();
    assert_eq!(g.total_impressions, 2);
    assert_eq!(g.total_spend, 100);
    assert_eq!(g.total_clicks, 1);
    assert_eq!(g.last_updated, 7_300);
}

#[test]
fn analytics_impression_before_initialize_refused() {
    let ctx = all_auths();
    let mut c = AnalyticsAggregatorContract::new();
    assert_eq!(c.record_impression(&ctx, addr(3), 1, 1), Err(Error::NotInitialized));
}

#[test]
fn analytics_click_requires_caller_auth() {
    let ctx = all_auths();
    let (mut c, _) = setup(&ctx);
    ok(c.record_impression(&ctx, addr(3), 1, 1));
    let mut only_other = CallContext::new(0, 0);
    only_other.add_signer(addr(4));
    assert_eq!(c.record_click(&only_other, addr(3), 1), Err(Error::AuthRequired));
    assert!(c.record_click(&only_other, addr(4), 1).is_ok());
}

#[test]
fn analytics_admin_handover() {
    let ctx = all_auths();
    let (mut c, admin) = setup(&ctx);
    assert_eq!(c.propose_admin(&ctx, addr(9), addr(5)), Err(Error::Unauthorized));
    ok(c.propose_admin(&ctx, admin, addr(5)));
    assert_eq!(c.accept_admin(&ctx, addr(6)), Err(Error::Unauthorized));
    ok(c.accept_admin(&ctx, addr(5)));
    assert_eq!(c.accept_admin(&ctx, addr(5)), Err(Error::NoPendingAdmin));
    assert_eq!(c.propose_admin(&ctx, admin, addr(7)), Err(Error::Unauthorized));
    ok(c.propose_admin(&ctx, addr(5), addr(7)));
}
