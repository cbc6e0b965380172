//! Budget optimizer: per-campaign total, daily and hourly budgets, spend
//! tracking with a daily reset, oracle-driven re-budgeting with an audit
//! log, and the spend admission check.

use std::collections::HashMap;
use vstd::prelude::*;
use crate::admin::AdminSlots;
use crate::common::{lookup, pair_key, make_pair_key, Address, CallContext, Error, follows, fits_i128, fits_u32, min_int, trunc_div, trunc_rem, day_of};

verus! {

/// How the campaign's spend is steered.
#[derive(Clone, Copy, PartialEq, Eq, Debug, Structural)]
pub enum OptimizationMode {
    ManualCpc,
    AutoCpm,
    TargetCpa,
    MaxConversions,
    MaxReach,
}

/// The budget of one campaign and what it has spent.
#[derive(Clone, Copy, PartialEq, Eq, Debug, Structural)]
pub struct BudgetAllocation {
    pub campaign_id: u64,
    pub total_budget: i128,
    pub daily_budget: i128,
    pub hourly_budget: i128,
    /// What the daily budget leaves over after 24 equal hourly budgets.
    pub budget_remainder: i128,
    pub spent_today: i128,
    pub spent_total: i128,
    pub optimization_mode: OptimizationMode,
    /// Target cost per acquisition.
    pub target_cpa: i128,
    /// Target click-through rate in hundredths of a percent.
    pub target_ctr: u32,
    pub last_optimized: u64,
    pub last_reset_day: u64,
}

/// One re-budgeting by the oracle.
pub struct OptimizationLog {
    pub campaign_id: u64,
    pub old_daily_budget: i128,
    pub new_daily_budget: i128,
    pub reason: String,
    pub optimized_at: u64,
}

/// The contract's stored state.
pub struct BudgetState {
    pub admin: AdminSlots,
    pub oracle: Option<Address>,
    pub allocations: Map<u64, BudgetAllocation>,
    /// Logs keyed by `pair_key(campaign, index)`.
    pub logs: Map<u128, OptimizationLog>,
    pub log_counts: Map<u64, u32>,
}

/// The hourly budget and remainder that split a daily budget into 24 hours.
pub open spec fn hourly_split(daily: int) -> (int, int) {
    (trunc_div(daily, 24), trunc_rem(daily, 24))
}

impl BudgetState {
    pub open spec fn log_count(self, campaign_id: u64) -> u32 {
        if self.log_counts.contains_key(campaign_id) { self.log_counts[campaign_id] } else { 0 }
    }

    pub open spec fn initialize(self, ctx: &CallContext, admin: Address, oracle: Address) -> Result<BudgetState, Error> {
        if self.admin.admin is Some {
            Err(Error::AlreadyInitialized)
        } else if !ctx.authorizes(admin) {
            Err(Error::AuthRequired)
        } else {
            Ok(BudgetState {
                admin: AdminSlots { admin: Some(admin), pending: self.admin.pending },
                oracle: Some(oracle),
                ..self
            })
        }
    }

    pub open spec fn set_budget_allocation(
        self,
        ctx: &CallContext,
        advertiser: Address,
        campaign_id: u64,
        total_budget: i128,
        daily_budget: i128,
        optimization_mode: OptimizationMode,
        target_cpa: i128,
        target_ctr: u32,
    ) -> Result<BudgetState, Error> {
        if !ctx.authorizes(advertiser) {
            Err(Error::AuthRequired)
        } else if daily_budget > total_budget {
            Err(Error::DailyBudgetExceedsTotal)
        } else {
            Ok(BudgetState {
                allocations: self.allocations.insert(campaign_id, BudgetAllocation {
                    campaign_id,
                    total_budget,
                    daily_budget,
                    hourly_budget: hourly_split(daily_budget as int).0 as i128,
                    budget_remainder: hourly_split(daily_budget as int).1 as i128,
                    spent_today: 0,
                    spent_total: 0,
                    optimization_mode,
                    target_cpa,
                    target_ctr,
                    last_optimized: ctx.timestamp,
                    last_reset_day: day_of(ctx.timestamp),
                }),
                ..self
            })
        }
    }

    pub open spec fn optimize_budget(
        self,
        ctx: &CallContext,
        oracle: Address,
        campaign_id: u64,
        new_daily_budget: i128,
        reason: String,
    ) -> Result<BudgetState, Error> {
        let a = self.allocations[campaign_id];
        let remaining = a.total_budget - a.spent_total;
        let capped = min_int(new_daily_budget as int, remaining);
        let count = self.log_count(campaign_id);
        if !ctx.authorizes(oracle) {
            Err(Error::AuthRequired)
        } else if self.oracle is None {
            Err(Error::NotInitialized)
        } else if self.oracle != Some(oracle) {
            Err(Error::Unauthorized)
        } else if !self.allocations.contains_key(campaign_id) {
            Err(Error::AllocationNotFound)
        } else if !fits_i128(remaining) || !fits_u32(count + 1) {
            Err(Error::Overflow)
        } else {
            Ok(BudgetState {
                allocations: self.allocations.insert(campaign_id, BudgetAllocation {
                    daily_budget: capped as i128,
                    hourly_budget: hourly_split(capped).0 as i128,
                    budget_remainder: hourly_split(capped).1 as i128,
                    last_optimized: ctx.timestamp,
                    ..a
                }),
                logs: self.logs.insert(pair_key(campaign_id, count as u64), OptimizationLog {
                    campaign_id,
                    old_daily_budget: a.daily_budget,
                    new_daily_budget: capped as i128,
                    reason,
                    optimized_at: ctx.timestamp,
                }),
                log_counts: self.log_counts.insert(campaign_id, (count + 1) as u32),
                ..self
            })
        }
    }

    /// What the campaign counts as spent today: nothing once a new day has begun.
    pub open spec fn effective_spent_today(a: BudgetAllocation, ts: u64) -> int {
        if day_of(ts) > a.last_reset_day { 0 } else { a.spent_today as int }
    }

    pub open spec fn record_spend(self, ctx: &CallContext, admin: Address, campaign_id: u64, amount: i128) -> Result<BudgetState, Error> {
        let a = self.allocations[campaign_id];
        let today = Self::effective_spent_today(a, ctx.timestamp) + amount;
        let total = a.spent_total + amount;
        if !ctx.authorizes(admin) {
            Err(Error::AuthRequired)
        } else if !self.allocations.contains_key(campaign_id) {
            Err(Error::AllocationNotFound)
        } else if !fits_i128(today) || !fits_i128(total) {
            Err(Error::Overflow)
        } else {
            Ok(BudgetState {
                allocations: self.allocations.insert(campaign_id, BudgetAllocation {
                    spent_today: today as i128,
                    spent_total: total as i128,
                    last_reset_day: if day_of(ctx.timestamp) > a.last_reset_day { day_of(ctx.timestamp) } else { a.last_reset_day },
                    last_optimized: ctx.timestamp,
                    ..a
                }),
                ..self
            })
        }
    }

    /// Whether spending `amount` now stays within both the daily and the total budget.
    pub open spec fn can_spend(self, ts: u64, campaign_id: u64, amount: i128) -> bool {
        let a = self.allocations[campaign_id];
        self.allocations.contains_key(campaign_id)
            && Self::effective_spent_today(a, ts) + amount <= a.daily_budget
            && a.spent_total + amount <= a.total_budget
    }

    pub open spec fn propose_admin(self, ctx: &CallContext, current_admin: Address, new_admin: Address) -> Result<BudgetState, Error> {
        match self.admin.after_propose(ctx, current_admin, new_admin) {
            Ok(a) => Ok(BudgetState { admin: a, ..self }),
            Err(e) => Err(e),
        }
    }

    pub open spec fn accept_admin(self, ctx: &CallContext, new_admin: Address) -> Result<BudgetState, Error> {
        match self.admin.after_accept(ctx, new_admin) {
            Ok(a) => Ok(BudgetState { admin: a, ..self }),
            Err(e) => Err(e),
        }
    }

    /// Every allocation splits its daily budget exactly into 24 hourly
    /// budgets plus the remainder.
    pub open spec fn splits_exact(self) -> bool {
        forall|c: u64| #[trigger] self.allocations.contains_key(c) ==> {
            let a = self.allocations[c];
            a.hourly_budget * 24 + a.budget_remainder == a.daily_budget
        }
    }
}

/// The budget optimizer contract.
pub struct BudgetOptimizerContract {
    admin: AdminSlots,
    oracle: Option<Address>,
    allocations: HashMap<u64, BudgetAllocation>,
    logs: HashMap<u128, OptimizationLog>,
    log_counts: HashMap<u64, u32>,
}

impl View for BudgetOptimizerContract {
    type V = BudgetState;

    closed spec fn view(&self) -> BudgetState {
        BudgetState {
            admin: self.admin,
            oracle: self.oracle,
            allocations: self.allocations@,
            logs: self.logs@,
            log_counts: self.log_counts@,
        }
    }
}

/// Splits a daily budget into 24 hourly budgets and the remainder.
fn split_daily(daily: i128) -> (r: (i128, i128))
    ensures
        r.0 == hourly_split(daily as int).0,
        r.1 == hourly_split(daily as int).1,
{
    let h = match daily.checked_div(24) {
        Some(v) => v,
        None => 0,
    };
    let m = match daily.checked_rem(24) {
        Some(v) => v,
        None => 0,
    };
    (h, m)
}

/// Whether `x + y <= limit`, with the sum taken over the integers.
fn at_most(x: i128, y: i128, limit: i128) -> (r: bool)
    ensures
        r == (x + y <= limit),
{
    match x.checked_add(y) {
        Some(sum) => sum <= limit,
        None => y < 0,
    }
}

impl BudgetOptimizerContract {
    /// An empty, uninitialized contract.
    pub fn new() -> (c: BudgetOptimizerContract)
        ensures
            c@.admin == AdminSlots::new_spec(),
            c@.oracle is None,
            c@.allocations == Map::<u64, BudgetAllocation>::empty(),
            c@.logs == Map::<u128, OptimizationLog>::empty(),
            c@.log_counts == Map::<u64, u32>::empty(),
    {
        BudgetOptimizerContract {
            admin: AdminSlots::new(),
            oracle: None,
            allocations: HashMap::new(),
            logs: HashMap::new(),
            log_counts: HashMap::new(),
        }
    }

    pub fn initialize(&mut self, ctx: &CallContext, admin: Address, oracle: Address) -> (r: Result<(), Error>)
        ensures
            follows(old(self)@.initialize(ctx, admin, oracle), r, old(self)@, final(self)@),
    {
        if self.admin.admin.is_some() {
            return Err(Error::AlreadyInitialized);
        }
        match ctx.require_auth(admin) {
            Ok(()) => {},
            Err(e) => return Err(e),
        }
        self.admin.admin = Some(admin);
        self.oracle = Some(oracle);
        Ok(())
    }

    pub fn set_budget_allocation(
        &mut self,
        ctx: &CallContext,
        advertiser: Address,
        campaign_id: u64,
        total_budget: i128,
        daily_budget: i128,
        optimization_mode: OptimizationMode,
        target_cpa: i128,
        target_ctr: u32,
    ) -> (r: Result<(), Error>)
        ensures
            follows(
                old(self)@.set_budget_allocation(ctx, advertiser, campaign_id, total_budget, daily_budget, optimization_mode, target_cpa, target_ctr),
                r,
                old(self)@,
                final(self)@,
            ),
    {
        match ctx.require_auth(advertiser) {
            Ok(()) => {},
            Err(e) => return Err(e),
        }
        if daily_budget > total_budget {
            return Err(Error::DailyBudgetExceedsTotal);
        }
        let (hourly, remainder) = split_daily(daily_budget);
        self.allocations.insert(campaign_id, BudgetAllocation {
            campaign_id,
            total_budget,
            daily_budget,
            hourly_budget: hourly,
            budget_remainder: remainder,
            spent_today: 0,
            spent_total: 0,
            optimization_mode,
            target_cpa,
            target_ctr,
            last_optimized: ctx.timestamp,
            last_reset_day: ctx.timestamp / 86_400,
        });
        Ok(())
    }

    pub fn optimize_budget(
        &mut self,
        ctx: &CallContext,
        oracle: Address,
        campaign_id: u64,
        new_daily_budget: i128,
        reason: String,
    ) -> (r: Result<(), Error>)
        ensures
            follows(old(self)@.optimize_budget(ctx, oracle, campaign_id, new_daily_budget, reason), r, old(self)@, final(self)@),
    {
        match ctx.require_auth(oracle) {
            Ok(()) => {},
            Err(e) => return Err(e),
        }
        match self.oracle {
            None => return Err(Error::NotInitialized),
            Some(o) => {
                if o != oracle {
                    return Err(Error::Unauthorized);
                }
            },
        }
        let a = match self.allocations.get(&campaign_id) {
            Some(a) => *a,
            None => return Err(Error::AllocationNotFound),
        };
        let remaining = match a.total_budget.checked_sub(a.spent_total) {
            Some(v) => v,
            None => return Err(Error::Overflow),
        };
        let count: u32 = match self.log_counts.get(&campaign_id) {
            Some(c) => *c,
            None => 0,
        };
        let next = match count.checked_add(1) {
            Some(v) => v,
            None => return Err(Error::Overflow),
        };
        let capped = if new_daily_budget <= remaining { new_daily_budget } else { remaining };
        let (hourly, remainder) = split_daily(capped);
        self.allocations.insert(campaign_id, BudgetAllocation {
            daily_budget: capped,
            hourly_budget: hourly,
            budget_remainder: remainder,
            last_optimized: ctx.timestamp,
            ..a
        });
        let slot = make_pair_key(campaign_id, count as u64);
        self.logs.insert(slot, OptimizationLog {
            campaign_id,
            old_daily_budget: a.daily_budget,
            new_daily_budget: capped,
            reason,
            optimized_at: ctx.timestamp,
        });
        self.log_counts.insert(campaign_id, next);
        Ok(())
    }

    pub fn record_spend(&mut self, ctx: &CallContext, admin: Address, campaign_id: u64, amount: i128) -> (r: Result<(), Error>)
        ensures
            follows(old(self)@.record_spend(ctx, admin, campaign_id, amount), r, old(self)@, final(self)@),
    {
        match ctx.require_auth(admin) {
            Ok(()) => {},
            Err(e) => return Err(e),
        }
        let mut a = match self.allocations.get(&campaign_id) {
            Some(a) => *a,
            None => return Err(Error::AllocationNotFound),
        };
        let current_day = ctx.timestamp / 86_400;
        if current_day > a.last_reset_day {
            a.spent_today = 0;
            a.last_reset_day = current_day;
        }
        a.spent_today = match a.spent_today.checked_add(amount) {
            Some(v) => v,
            None => return Err(Error::Overflow),
        };
        a.spent_total = match a.spent_total.checked_add(amount) {
            Some(v) => v,
            None => return Err(Error::Overflow),
        };
        a.last_optimized = ctx.timestamp;
        self.allocations.insert(campaign_id, a);
        Ok(())
    }

    pub fn get_allocation(&self, campaign_id: u64) -> (r: Option<BudgetAllocation>)
        ensures
            r == lookup(self@.allocations, campaign_id),
    {
        match self.allocations.get(&campaign_id) {
            Some(a) => Some(*a),
            None => None,
        }
    }

    /// Whether the campaign can spend `amount` at the context's time.
    /// Whether spending `amount` now stays within both the daily and the
    /// total budget; sums beyond the range of `i128` are compared exactly.
    pub fn can_spend(&self, ctx: &CallContext, campaign_id: u64, amount: i128) -> (r: bool)
        ensures
            r == self@.can_spend(ctx.timestamp, campaign_id, amount),
    {
        match self.allocations.get(&campaign_id) {
            None => false,
            Some(a) => {
                let today: i128 = if ctx.timestamp / 86_400 > a.last_reset_day { 0 } else { a.spent_today };
                at_most(today, amount, a.daily_budget) && at_most(a.spent_total, amount, a.total_budget)
            },
        }
    }

    pub fn propose_admin(&mut self, ctx: &CallContext, current_admin: Address, new_admin: Address) -> (r: Result<(), Error>)
        ensures
            follows(old(self)@.propose_admin(ctx, current_admin, new_admin), r, old(self)@, final(self)@),
    {
        self.admin.propose(ctx, current_admin, new_admin)
    }

    pub fn accept_admin(&mut self, ctx: &CallContext, new_admin: Address) -> (r: Result<(), Error>)
        ensures
            follows(old(self)@.accept_admin(ctx, new_admin), r, old(self)@, final(self)@),
    {
        self.admin.accept(ctx, new_admin)
    }
}

/// Splitting a daily budget into 24 hourly budgets loses nothing:
/// 24 times the hourly budget plus the remainder is the daily budget, and
/// the remainder is smaller than 24 in magnitude with the daily budget's sign.
pub proof fn lemma_hourly_split_exact(daily: i128)
    ensures
        hourly_split(daily as int).0 * 24 + hourly_split(daily as int).1 == daily,
        daily >= 0 ==> 0 <= hourly_split(daily as int).1 < 24,
        daily < 0 ==> -24 < hourly_split(daily as int).1 <= 0,
{
}

/// Every operation keeps each allocation's hourly split exact.
pub proof fn lemma_splits_exact_preserved(s: BudgetState, ctx: &CallContext, who: Address, campaign_id: u64, a: i128, b: i128, mode: OptimizationMode, c: i128, d: u32, reason: String)
    requires
        s.splits_exact(),
    ensures
        s.set_budget_allocation(ctx, who, campaign_id, a, b, mode, c, d) matches Ok(t) ==> t.splits_exact(),
        s.optimize_budget(ctx, who, campaign_id, a, reason) matches Ok(t) ==> t.splits_exact(),
        s.record_spend(ctx, who, campaign_id, a) matches Ok(t) ==> t.splits_exact(),
        s.initialize(ctx, who, who) matches Ok(t) ==> t.splits_exact(),
{
    lemma_hourly_split_exact(b);
    lemma_hourly_split_exact(a);
    if let Ok(t) = s.optimize_budget(ctx, who, campaign_id, a, reason) {
        let al = s.allocations[campaign_id];
        let capped = min_int(a as int, al.total_budget - al.spent_total);
        assert(hourly_split(capped).0 * 24 + hourly_split(capped).1 == capped);
    }
}

/// A freshly set allocation admits exactly the spends that fit both the
/// daily and the total budget, until the day ends.
pub proof fn lemma_fresh_allocation_admits(
    s: BudgetState,
    ctx: &CallContext,
    advertiser: Address,
    campaign_id: u64,
    total: i128,
    daily: i128,
    mode: OptimizationMode,
    cpa: i128,
    ctr: u32,
    amount: i128,
)
    requires
        s.set_budget_allocation(ctx, advertiser, campaign_id, total, daily, mode, cpa, ctr) is Ok,
    ensures
        s.set_budget_allocation(ctx, advertiser, campaign_id, total, daily, mode, cpa, ctr).unwrap().can_spend(ctx.timestamp, campaign_id, amount)
            <==> (amount <= daily && amount <= total),
{
}

/// The admission check admits a spend exactly when the campaign has an
/// allocation, the spend keeps the campaign's total spend within its total
/// budget, and it keeps the day's spend within the daily budget, the day's
/// spend counting from zero once a new ledger day has begun.
pub proof fn lemma_can_spend_within_budgets(s: BudgetState, ts: u64, campaign_id: u64, amount: i128)
    ensures
        s.can_spend(ts, campaign_id, amount) <==> {
            let a = s.allocations[campaign_id];
            &&& s.allocations.contains_key(campaign_id)
            &&& a.spent_total + amount <= a.total_budget
            &&& (if ts / 86_400 > a.last_reset_day { amount as int } else { a.spent_today + amount }) <= a.daily_budget
        },
{
}

/// After a recorded spend of `x`, a further spend of `y` is admitted only if
/// `x + y` on top of what was spent before still fits the total budget; the
/// recorded spend adds exactly `x` to the total spent.
pub proof fn lemma_spend_then_admit(s: BudgetState, ctx: &CallContext, admin: Address, campaign_id: u64, x: i128, ts: u64, y: i128)
    requires
        s.record_spend(ctx, admin, campaign_id, x) is Ok,
    ensures
        ({
            let t = s.record_spend(ctx, admin, campaign_id, x).unwrap();
            let a = s.allocations[campaign_id];
            &&& t.allocations[campaign_id].spent_total == a.spent_total + x
            &&& t.allocations[campaign_id].total_budget == a.total_budget
            &&& t.can_spend(ts, campaign_id, y) ==> a.spent_total + x + y <= a.total_budget
        }),
{
}

} // verus!
