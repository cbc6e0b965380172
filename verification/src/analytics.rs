//! Analytics aggregator: per-campaign impression, click and conversion
//! counters with derived click-through rate, conversion rate and cost per
//! thousand impressions, hourly buckets, and platform-wide totals.

use std::collections::HashMap;
use vstd::prelude::*;
use crate::admin::AdminSlots;
use crate::common::{lookup, pair_key, make_pair_key, Address, CallContext, Error, follows, fits_u64, fits_i128, min_int, trunc_div, saturate_i128, add_u64, add_i128};

verus! {

/// Counters and derived rates of one campaign.
#[derive(Clone, Copy, PartialEq, Eq, Debug, Structural)]
pub struct CampaignAnalytics {
    pub campaign_id: u64,
    pub total_impressions: u64,
    pub total_clicks: u64,
    pub total_conversions: u64,
    pub unique_viewers: u64,
    pub total_spend: i128,
    /// Click-through rate in hundredths of a percent.
    pub ctr: u32,
    /// Conversion rate in hundredths of a percent.
    pub cvr: u32,
    /// Cost per thousand impressions.
    pub cpm: i128,
    pub last_updated: u64,
}

/// Counters of one campaign within one hour.
#[derive(Clone, Copy, PartialEq, Eq, Debug, Structural)]
pub struct HourlyStats {
    pub impressions: u64,
    pub clicks: u64,
    pub spend: i128,
    pub timestamp: u64,
}

/// Platform-wide totals.
#[derive(Clone, Copy, PartialEq, Eq, Debug, Structural)]
pub struct GlobalStats {
    pub total_campaigns: u64,
    pub total_impressions: u64,
    pub total_clicks: u64,
    pub total_spend: i128,
    pub last_updated: u64,
}

/// The counters that a campaign starts from before its first impression.
pub open spec fn fresh_analytics(campaign_id: u64) -> CampaignAnalytics {
    CampaignAnalytics {
        campaign_id,
        total_impressions: 0,
        total_clicks: 0,
        total_conversions: 0,
        unique_viewers: 0,
        total_spend: 0,
        ctr: 0,
        cvr: 0,
        cpm: 0,
        last_updated: 0,
    }
}

/// The hour that a ledger timestamp falls in.
pub open spec fn hour_of(ts: u64) -> u64 {
    ts / 3600
}

/// Click-through rate: clicks per impression in hundredths of a percent,
/// capped at 10 000 (100%).
pub open spec fn ctr_of(clicks: int, impressions: int) -> int {
    min_int(clicks * 10_000 / impressions, 10_000)
}

/// Cost per thousand impressions: the spend times 1000, saturated to the
/// range of `i128`, divided by the impressions rounding toward zero.
pub open spec fn cpm_of(spend: int, impressions: int) -> int {
    trunc_div(saturate_i128(spend * 1000), impressions)
}

/// Conversion rate: conversions per click in hundredths of a percent, the
/// quotient taken modulo 2^32 as a 32-bit cast does.
pub open spec fn cvr_of(conversions: int, clicks: int) -> int {
    (conversions * 10_000 / clicks) % 0x1_0000_0000
}

/// The contract's stored state.
pub struct AnalyticsState {
    pub admin: AdminSlots,
    pub oracle: Option<Address>,
    pub campaigns: Map<u64, CampaignAnalytics>,
    pub hourly: Map<u128, HourlyStats>,
    pub global: Option<GlobalStats>,
}

impl AnalyticsState {
    /// The counters of a campaign, or fresh ones.
    pub open spec fn campaign_or_fresh(self, campaign_id: u64) -> CampaignAnalytics {
        if self.campaigns.contains_key(campaign_id) { self.campaigns[campaign_id] } else { fresh_analytics(campaign_id) }
    }

    /// The hourly bucket at a key, or an empty one stamped with `ts`.
    pub open spec fn hourly_or_fresh(self, slot: u128, ts: u64) -> HourlyStats {
        if self.hourly.contains_key(slot) {
            self.hourly[slot]
        } else {
            HourlyStats { impressions: 0, clicks: 0, spend: 0, timestamp: ts }
        }
    }

    pub open spec fn initialize(self, ctx: &CallContext, admin: Address, oracle: Address) -> Result<AnalyticsState, Error> {
        if self.admin.admin is Some {
            Err(Error::AlreadyInitialized)
        } else if !ctx.authorizes(admin) {
            Err(Error::AuthRequired)
        } else {
            Ok(AnalyticsState {
                admin: AdminSlots { admin: Some(admin), pending: self.admin.pending },
                oracle: Some(oracle),
                global: Some(GlobalStats {
                    total_campaigns: 0,
                    total_impressions: 0,
                    total_clicks: 0,
                    total_spend: 0,
                    last_updated: ctx.timestamp,
                }),
                ..self
            })
        }
    }

    pub open spec fn record_impression(self, ctx: &CallContext, caller: Address, campaign_id: u64, spend: i128) -> Result<AnalyticsState, Error> {
        let a = self.campaign_or_fresh(campaign_id);
        let impressions = a.total_impressions + 1;
        let total_spend = a.total_spend + spend;
        let slot = pair_key(campaign_id, hour_of(ctx.timestamp));
        let h = self.hourly_or_fresh(slot, ctx.timestamp);
        let g = self.global.unwrap();
        if self.oracle is None {
            Err(Error::NotInitialized)
        } else if !ctx.authorizes(caller) {
            Err(Error::AuthRequired)
        } else if !fits_u64(impressions) || !fits_i128(total_spend) {
            Err(Error::Overflow)
        } else if !fits_u64(h.impressions + 1) || !fits_i128(h.spend + spend) {
            Err(Error::Overflow)
        } else if self.global is None {
            Err(Error::NotInitialized)
        } else if !fits_u64(g.total_impressions + 1) || !fits_i128(g.total_spend + spend) {
            Err(Error::Overflow)
        } else {
            Ok(AnalyticsState {
                campaigns: self.campaigns.insert(campaign_id, CampaignAnalytics {
                    total_impressions: impressions as u64,
                    total_spend: total_spend as i128,
                    last_updated: ctx.timestamp,
                    ctr: ctr_of(a.total_clicks as int, impressions) as u32,
                    cpm: cpm_of(total_spend, impressions) as i128,
                    ..a
                }),
                hourly: self.hourly.insert(slot, HourlyStats {
                    impressions: (h.impressions + 1) as u64,
                    spend: (h.spend + spend) as i128,
                    ..h
                }),
                global: Some(GlobalStats {
                    total_impressions: (g.total_impressions + 1) as u64,
                    total_spend: (g.total_spend + spend) as i128,
                    last_updated: ctx.timestamp,
                    ..g
                }),
                ..self
            })
        }
    }

    pub open spec fn record_click(self, ctx: &CallContext, caller: Address, campaign_id: u64) -> Result<AnalyticsState, Error> {
        let a = self.campaigns[campaign_id];
        let clicks = a.total_clicks + 1;
        let g = self.global.unwrap();
        if !ctx.authorizes(caller) {
            Err(Error::AuthRequired)
        } else if !self.campaigns.contains_key(campaign_id) {
            Err(Error::AnalyticsNotFound)
        } else if !fits_u64(clicks) {
            Err(Error::Overflow)
        } else if self.global is None {
            Err(Error::NotInitialized)
        } else if !fits_u64(g.total_clicks + 1) {
            Err(Error::Overflow)
        } else {
            Ok(AnalyticsState {
                campaigns: self.campaigns.insert(campaign_id, CampaignAnalytics {
                    total_clicks: clicks as u64,
                    ctr: if a.total_impressions > 0 { ctr_of(clicks, a.total_impressions as int) as u32 } else { a.ctr },
                    last_updated: ctx.timestamp,
                    ..a
                }),
                global: Some(GlobalStats { total_clicks: (g.total_clicks + 1) as u64, ..g }),
                ..self
            })
        }
    }

    pub open spec fn record_conversion(self, ctx: &CallContext, caller: Address, campaign_id: u64) -> Result<AnalyticsState, Error> {
        let a = self.campaigns[campaign_id];
        let conversions = a.total_conversions + 1;
        if !ctx.authorizes(caller) {
            Err(Error::AuthRequired)
        } else if !self.campaigns.contains_key(campaign_id) {
            Err(Error::AnalyticsNotFound)
        } else if !fits_u64(conversions) {
            Err(Error::Overflow)
        } else if a.total_clicks > 0 && !fits_u64(conversions * 10_000) {
            Err(Error::Overflow)
        } else {
            Ok(AnalyticsState {
                campaigns: self.campaigns.insert(campaign_id, CampaignAnalytics {
                    total_conversions: conversions as u64,
                    cvr: if a.total_clicks > 0 { cvr_of(conversions, a.total_clicks as int) as u32 } else { a.cvr },
                    last_updated: ctx.timestamp,
                    ..a
                }),
                ..self
            })
        }
    }

    pub open spec fn propose_admin(self, ctx: &CallContext, current_admin: Address, new_admin: Address) -> Result<AnalyticsState, Error> {
        match self.admin.after_propose(ctx, current_admin, new_admin) {
            Ok(a) => Ok(AnalyticsState { admin: a, ..self }),
            Err(e) => Err(e),
        }
    }

    pub open spec fn accept_admin(self, ctx: &CallContext, new_admin: Address) -> Result<AnalyticsState, Error> {
        match self.admin.after_accept(ctx, new_admin) {
            Ok(a) => Ok(AnalyticsState { admin: a, ..self }),
            Err(e) => Err(e),
        }
    }

    /// The click-through rate of every campaign is at most 100%.
    pub open spec fn rates_bounded(self) -> bool {
        forall|c: u64| #[trigger] self.campaigns.contains_key(c) ==> self.campaigns[c].ctr <= 10_000
    }
}

/// The analytics aggregator contract.
pub struct AnalyticsAggregatorContract {
    admin: AdminSlots,
    oracle: Option<Address>,
    campaigns: HashMap<u64, CampaignAnalytics>,
    hourly: HashMap<u128, HourlyStats>,
    global: Option<GlobalStats>,
}

impl View for AnalyticsAggregatorContract {
    type V = AnalyticsState;

    closed spec fn view(&self) -> AnalyticsState {
        AnalyticsState {
            admin: self.admin,
            oracle: self.oracle,
            campaigns: self.campaigns@,
            hourly: self.hourly@,
            global: self.global,
        }
    }
}

fn compute_ctr(clicks: u64, impressions: u64) -> (r: u32)
    requires
        impressions > 0,
    ensures
        r == ctr_of(clicks as int, impressions as int),
{
    let q: u128 = (clicks as u128) * 10_000 / (impressions as u128);
    if q < 10_000 { q as u32 } else { 10_000 }
}

fn compute_cpm(spend: i128, impressions: u64) -> (r: i128)
    requires
        impressions > 0,
    ensures
        r == cpm_of(spend as int, impressions as int),
{
    let scaled: i128 = match spend.checked_mul(1000) {
        Some(v) => v,
        None => if spend > 0 { i128::MAX } else { i128::MIN },
    };
    assert(scaled == saturate_i128(spend * 1000)) by (nonlinear_arith)
        requires
            scaled == (if spend * 1000 > i128::MAX || spend * 1000 < i128::MIN {
                if spend > 0 { i128::MAX as int } else { i128::MIN as int }
            } else {
                spend * 1000
            });
    match scaled.checked_div(impressions as i128) {
        Some(v) => v,
        None => 0,
    }
}

impl AnalyticsAggregatorContract {
    /// An empty, uninitialized contract.
    pub fn new() -> (c: AnalyticsAggregatorContract)
        ensures
            c@.admin == AdminSlots::new_spec(),
            c@.oracle is None,
            c@.campaigns == Map::<u64, CampaignAnalytics>::empty(),
            c@.hourly == Map::<u128, HourlyStats>::empty(),
            c@.global is None,
    {
        AnalyticsAggregatorContract {
            admin: AdminSlots::new(),
            oracle: None,
            campaigns: HashMap::new(),
            hourly: HashMap::new(),
            global: None,
        }
    }

    pub fn initialize(&mut self, ctx: &CallContext, admin: Address, oracle: Address) -> (r: Result<(), Error>)
        ensures
            follows(old(self)@.initialize(ctx, admin, oracle), r, old(self)@, final(self)@),
    {
        if self.admin.admin.is_some() {
            return Err(Error::AlreadyInitialized);
        }
        match ctx.require_auth(admin) {
            Ok(()) => {},
            Err(e) => return Err(e),
        }
        self.admin.admin = Some(admin);
        self.oracle = Some(oracle);
        self.global = Some(GlobalStats {
            total_campaigns: 0,
            total_impressions: 0,
            total_clicks: 0,
            total_spend: 0,
            last_updated: ctx.timestamp,
        });
        Ok(())
    }

    pub fn record_impression(&mut self, ctx: &CallContext, caller: Address, campaign_id: u64, spend: i128) -> (r: Result<(), Error>)
        ensures
            follows(old(self)@.record_impression(ctx, caller, campaign_id, spend), r, old(self)@, final(self)@),
    {
        if self.oracle.is_none() {
            return Err(Error::NotInitialized);
        }
        match ctx.require_auth(caller) {
            Ok(()) => {},
            Err(e) => return Err(e),
        }
        let a = match self.campaigns.get(&campaign_id) {
            Some(a) => *a,
            None => CampaignAnalytics {
                campaign_id,
                total_impressions: 0,
                total_clicks: 0,
                total_conversions: 0,
                unique_viewers: 0,
                total_spend: 0,
                ctr: 0,
                cvr: 0,
                cpm: 0,
                last_updated: 0,
            },
        };
        let impressions = match add_u64(a.total_impressions, 1) {
            Ok(v) => v,
            Err(e) => return Err(e),
        };
        let total_spend = match add_i128(a.total_spend, spend) {
            Ok(v) => v,
            Err(e) => return Err(e),
        };
        let slot = make_pair_key(campaign_id, ctx.timestamp / 3600);
        let h = match self.hourly.get(&slot) {
            Some(h) => *h,
            None => HourlyStats { impressions: 0, clicks: 0, spend: 0, timestamp: ctx.timestamp },
        };
        let h_impressions = match add_u64(h.impressions, 1) {
            Ok(v) => v,
            Err(e) => return Err(e),
        };
        let h_spend = match add_i128(h.spend, spend) {
            Ok(v) => v,
            Err(e) => return Err(e),
        };
        let g = match self.global {
            Some(g) => g,
            None => return Err(Error::NotInitialized),
        };
        let g_impressions = match add_u64(g.total_impressions, 1) {
            Ok(v) => v,
            Err(e) => return Err(e),
        };
        let g_spend = match add_i128(g.total_spend, spend) {
            Ok(v) => v,
            Err(e) => return Err(e),
        };
        let updated = CampaignAnalytics {
            total_impressions: impressions,
            total_spend,
            last_updated: ctx.timestamp,
            ctr: compute_ctr(a.total_clicks, impressions),
            cpm: compute_cpm(total_spend, impressions),
            ..a
        };
        self.campaigns.insert(campaign_id, updated);
        self.hourly.insert(slot, HourlyStats { impressions: h_impressions, spend: h_spend, ..h });
        self.global = Some(GlobalStats {
            total_impressions: g_impressions,
            total_spend: g_spend,
            last_updated: ctx.timestamp,
            ..g
        });
        Ok(())
    }

    pub fn record_click(&mut self, ctx: &CallContext, caller: Address, campaign_id: u64) -> (r: Result<(), Error>)
        ensures
            follows(old(self)@.record_click(ctx, caller, campaign_id), r, old(self)@, final(self)@),
    {
        match ctx.require_auth(caller) {
            Ok(()) => {},
            Err(e) => return Err(e),
        }
        let a = match self.campaigns.get(&campaign_id) {
            Some(a) => *a,
            None => return Err(Error::AnalyticsNotFound),
        };
        let clicks = match add_u64(a.total_clicks, 1) {
            Ok(v) => v,
            Err(e) => return Err(e),
        };
        let g = match self.global {
            Some(g) => g,
            None => return Err(Error::NotInitialized),
        };
        let g_clicks = match add_u64(g.total_clicks, 1) {
            Ok(v) => v,
            Err(e) => return Err(e),
        };
        let ctr = if a.total_impressions > 0 { compute_ctr(clicks, a.total_impressions) } else { a.ctr };
        self.campaigns.insert(campaign_id, CampaignAnalytics { total_clicks: clicks, ctr, last_updated: ctx.timestamp, ..a });
        self.global = Some(GlobalStats { total_clicks: g_clicks, ..g });
        Ok(())
    }

    pub fn record_conversion(&mut self, ctx: &CallContext, caller: Address, campaign_id: u64) -> (r: Result<(), Error>)
        ensures
            follows(old(self)@.record_conversion(ctx, caller, campaign_id), r, old(self)@, final(self)@),
    {
        match ctx.require_auth(caller) {
            Ok(()) => {},
            Err(e) => return Err(e),
        }
        let a = match self.campaigns.get(&campaign_id) {
            Some(a) => *a,
            None => return Err(Error::AnalyticsNotFound),
        };
        let conversions = match add_u64(a.total_conversions, 1) {
            Ok(v) => v,
            Err(e) => return Err(e),
        };
        let cvr = if a.total_clicks > 0 {
            let scaled = match conversions.checked_mul(10_000) {
                Some(v) => v,
                None => return Err(Error::Overflow),
            };
            ((scaled / a.total_clicks) % 0x1_0000_0000) as u32
        } else {
            a.cvr
        };
        self.campaigns.insert(campaign_id, CampaignAnalytics { total_conversions: conversions, cvr, last_updated: ctx.timestamp, ..a });
        Ok(())
    }

    pub fn get_campaign_analytics(&self, campaign_id: u64) -> (r: Option<CampaignAnalytics>)
        ensures
            r == lookup(self@.campaigns, campaign_id),
    {
        match self.campaigns.get(&campaign_id) {
            Some(a) => Some(*a),
            None => None,
        }
    }

    /// The platform-wide totals; all zero before initialization.
    pub fn get_global_stats(&self) -> (r: GlobalStats)
        ensures
            r == match self@.global {
                Some(g) => g,
                None => GlobalStats { total_campaigns: 0, total_impressions: 0, total_clicks: 0, total_spend: 0, last_updated: 0 },
            },
    {
        match self.global {
            Some(g) => g,
            None => GlobalStats { total_campaigns: 0, total_impressions: 0, total_clicks: 0, total_spend: 0, last_updated: 0 },
        }
    }

    pub fn get_hourly_stats(&self, campaign_id: u64, hour: u64) -> (r: Option<HourlyStats>)
        ensures
            r == lookup(self@.hourly, pair_key(campaign_id, hour)),
    {
        match self.hourly.get(&make_pair_key(campaign_id, hour)) {
            Some(h) => Some(*h),
            None => None,
        }
    }

    pub fn propose_admin(&mut self, ctx: &CallContext, current_admin: Address, new_admin: Address) -> (r: Result<(), Error>)
        ensures
            follows(old(self)@.propose_admin(ctx, current_admin, new_admin), r, old(self)@, final(self)@),
    {
        self.admin.propose(ctx, current_admin, new_admin)
    }

    pub fn accept_admin(&mut self, ctx: &CallContext, new_admin: Address) -> (r: Result<(), Error>)
        ensures
            follows(old(self)@.accept_admin(ctx, new_admin), r, old(self)@, final(self)@),
    {
        self.admin.accept(ctx, new_admin)
    }
}

/// Every operation keeps each campaign's click-through rate at most 100%.
pub proof fn lemma_rates_bounded_preserved(s: AnalyticsState, ctx: &CallContext, who: Address, other: Address, campaign_id: u64, spend: i128)
    requires
        s.rates_bounded(),
    ensures
        s.initialize(ctx, who, other) matches Ok(t) ==> t.rates_bounded(),
        s.record_impression(ctx, who, campaign_id, spend) matches Ok(t) ==> t.rates_bounded(),
        s.record_click(ctx, who, campaign_id) matches Ok(t) ==> t.rates_bounded(),
        s.record_conversion(ctx, who, campaign_id) matches Ok(t) ==> t.rates_bounded(),
        s.propose_admin(ctx, who, other) matches Ok(t) ==> t.rates_bounded(),
        s.accept_admin(ctx, who) matches Ok(t) ==> t.rates_bounded(),
{
}

/// Impressions, clicks and spend reach the platform totals: an impression
/// adds one impression and its spend both to the campaign and to the
/// platform totals, and a click adds one click to both.
pub proof fn lemma_totals_follow_campaigns(s: AnalyticsState, ctx: &CallContext, caller: Address, campaign_id: u64, spend: i128)
    ensures
        s.record_impression(ctx, caller, campaign_id, spend) matches Ok(t) ==> {
            &&& t.campaigns[campaign_id].total_impressions == s.campaign_or_fresh(campaign_id).total_impressions + 1
            &&& t.campaigns[campaign_id].total_spend == s.campaign_or_fresh(campaign_id).total_spend + spend
            &&& t.global.unwrap().total_impressions == s.global.unwrap().total_impressions + 1
            &&& t.global.unwrap().total_spend == s.global.unwrap().total_spend + spend
        },
        s.record_click(ctx, caller, campaign_id) matches Ok(t) ==> {
            &&& t.campaigns[campaign_id].total_clicks == s.campaigns[campaign_id].total_clicks + 1
            &&& t.global.unwrap().total_clicks == s.global.unwrap().total_clicks + 1
        },
{
}

} // verus!
