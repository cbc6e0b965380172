//! Revenue settlement: campaign revenue is split, in basis points, into a
//! platform fee, a treasury share, a burn share and the publisher's
//! earnings; the platform and treasury shares are paid out and the burn
//! share burned on distribution; publishers claim their balances.

use std::collections::HashMap;
use vstd::prelude::*;
use crate::admin::AdminSlots;
use crate::common::{follows, follows_ops, follows_with, lookup, fits_i128, fits_u64, trunc_div, Address, CallContext, Error, Party, TokenOp};

verus! {

/// The revenue taken in and its split, pending and paid.
#[derive(Clone, Copy, PartialEq, Eq, Debug, Structural)]
pub struct RevenuePool {
    pub total_revenue: i128,
    /// Platform fees awaiting distribution.
    pub platform_share: i128,
    /// Publisher earnings recorded.
    pub publisher_share: i128,
    /// Treasury share awaiting distribution.
    pub treasury_share: i128,
    /// Tokens awaiting burning; cleared by each distribution.
    pub burn_amount: i128,
    /// Tokens burned over all distributions.
    pub total_burned: i128,
    /// Basis points of revenue that go to each party.
    pub platform_pct: u32,
    pub publisher_pct: u32,
    pub treasury_pct: u32,
    pub burn_pct: u32,
    pub last_settlement: u64,
}

#[derive(Clone, Copy, PartialEq, Eq, Debug, Structural)]
pub struct SettlementRecord {
    pub settlement_id: u64,
    pub campaign_id: u64,
    pub total_amount: i128,
    pub platform_fee: i128,
    pub publisher_amount: i128,
    pub settled_at: u64,
}

/// The pool a freshly initialized contract starts with.
pub open spec fn initial_pool() -> RevenuePool {
    RevenuePool {
        total_revenue: 0,
        platform_share: 0,
        publisher_share: 0,
        treasury_share: 0,
        burn_amount: 0,
        total_burned: 0,
        platform_pct: 250,
        publisher_pct: 9_000,
        treasury_pct: 500,
        burn_pct: 250,
        last_settlement: 0,
    }
}

/// The share of `amount` at `pct` basis points, rounded toward zero.
pub open spec fn share_of(amount: int, pct: int) -> int {
    trunc_div(amount * pct, 10_000)
}

/// How one revenue amount splits: platform fee, treasury fee, burn, and
/// the publisher's amount. The platform fee, the burn and the publisher's
/// amount are their percentages of the revenue, rounded toward zero; the
/// treasury takes its own percentage together with the rounding dust, that
/// is, whatever the other three leave.
pub open spec fn split(amount: i128, pool: RevenuePool) -> (int, int, int, int) {
    let p = share_of(amount as int, pool.platform_pct as int);
    let b = share_of(amount as int, pool.burn_pct as int);
    let publisher = share_of(amount as int, pool.publisher_pct as int);
    (p, amount - p - b - publisher, b, publisher)
}

/// Whether every intermediate value of splitting `amount` fits in `i128`.
pub open spec fn split_fits(amount: i128, pool: RevenuePool) -> bool {
    let (p, t, b, publisher) = split(amount, pool);
    &&& fits_i128(amount * pool.platform_pct)
    &&& fits_i128(amount * pool.burn_pct)
    &&& fits_i128(amount * pool.publisher_pct)
    &&& fits_i128(amount - p)
    &&& fits_i128(amount - p - b)
    &&& fits_i128(t)
}

/// The contract's stored state.
pub struct RevenueState {
    pub admin: AdminSlots,
    pub token: Option<Address>,
    pub treasury: Option<Address>,
    pub platform: Option<Address>,
    pub pool: Option<RevenuePool>,
    pub settlement_counter: Option<u64>,
    pub settlements: Map<u64, SettlementRecord>,
    pub publisher_balances: Map<u64, i128>,
}

impl RevenueState {
    pub open spec fn balance_of(self, publisher: Address) -> i128 {
        if self.publisher_balances.contains_key(publisher.id) { self.publisher_balances[publisher.id] } else { 0 }
    }

    pub open spec fn initialize(self, ctx: &CallContext, admin: Address, token: Address, treasury: Address, platform: Address) -> Result<RevenueState, Error> {
        if self.admin.admin is Some {
            Err(Error::AlreadyInitialized)
        } else if !ctx.authorizes(admin) {
            Err(Error::AuthRequired)
        } else {
            Ok(RevenueState {
                admin: AdminSlots { admin: Some(admin), pending: self.admin.pending },
                token: Some(token),
                treasury: Some(treasury),
                platform: Some(platform),
                settlement_counter: Some(0),
                pool: Some(initial_pool()),
                ..self
            })
        }
    }

    pub open spec fn record_revenue(self, ctx: &CallContext, admin: Address, campaign_id: u64, amount: i128, publisher: Address) -> Result<(RevenueState, u64), Error> {
        let pool = self.pool.unwrap();
        let (p, t, b, publisher_amount) = split(amount, pool);
        let balance = self.balance_of(publisher) + publisher_amount;
        let id = match self.settlement_counter { Some(c) => c, None => 0 } + 1;
        if self.admin.admin_check(ctx, admin) is Err {
            Err(self.admin.admin_check(ctx, admin)->Err_0)
        } else if self.pool is None {
            Err(Error::NotInitialized)
        } else if !split_fits(amount, pool)
            || !fits_i128(pool.total_revenue + amount)
            || !fits_i128(pool.platform_share + p)
            || !fits_i128(pool.publisher_share + publisher_amount)
            || !fits_i128(pool.treasury_share + t)
            || !fits_i128(pool.burn_amount + b)
            || !fits_i128(balance)
            || !fits_u64(id) {
            Err(Error::Overflow)
        } else {
            Ok((
                RevenueState {
                    pool: Some(RevenuePool {
                        total_revenue: (pool.total_revenue + amount) as i128,
                        platform_share: (pool.platform_share + p) as i128,
                        publisher_share: (pool.publisher_share + publisher_amount) as i128,
                        treasury_share: (pool.treasury_share + t) as i128,
                        burn_amount: (pool.burn_amount + b) as i128,
                        ..pool
                    }),
                    publisher_balances: self.publisher_balances.insert(publisher.id, balance as i128),
                    settlements: self.settlements.insert(id as u64, SettlementRecord {
                        settlement_id: id as u64,
                        campaign_id,
                        total_amount: amount,
                        platform_fee: p as i128,
                        publisher_amount: publisher_amount as i128,
                        settled_at: ctx.timestamp,
                    }),
                    settlement_counter: Some(id as u64),
                    ..self
                },
                id as u64,
            ))
        }
    }

    /// On success, in order: the platform share paid to the platform and
    /// the treasury share paid to the treasury, each when positive, then
    /// the burn share burned when positive.
    pub open spec fn distribute_platform_revenue(self, ctx: &CallContext, admin: Address) -> Result<(RevenueState, Seq<TokenOp>), Error> {
        let pool = self.pool.unwrap();
        let token = self.token.unwrap();
        let pay_platform = pool.platform_share > 0;
        let pay_treasury = pool.treasury_share > 0;
        let burn = pool.burn_amount > 0;
        if self.admin.admin_check(ctx, admin) is Err {
            Err(self.admin.admin_check(ctx, admin)->Err_0)
        } else if self.pool is None || self.token is None {
            Err(Error::NotInitialized)
        } else if pay_platform && self.platform is None {
            Err(Error::NotInitialized)
        } else if pay_treasury && self.treasury is None {
            Err(Error::NotInitialized)
        } else if burn && !fits_i128(pool.total_burned + pool.burn_amount) {
            Err(Error::Overflow)
        } else {
            let ops1 = if pay_platform {
                seq![TokenOp::Transfer { token, from: Party::Contract, to: Party::Account(self.platform.unwrap()), amount: pool.platform_share }]
            } else {
                Seq::empty()
            };
            let ops2 = if pay_treasury {
                ops1.push(TokenOp::Transfer { token, from: Party::Contract, to: Party::Account(self.treasury.unwrap()), amount: pool.treasury_share })
            } else {
                ops1
            };
            let ops3 = if burn { ops2.push(TokenOp::Burn { token, amount: pool.burn_amount }) } else { ops2 };
            Ok((
                RevenueState {
                    pool: Some(RevenuePool {
                        platform_share: if pay_platform { 0 } else { pool.platform_share },
                        treasury_share: if pay_treasury { 0 } else { pool.treasury_share },
                        burn_amount: if burn { 0 } else { pool.burn_amount },
                        total_burned: if burn { (pool.total_burned + pool.burn_amount) as i128 } else { pool.total_burned },
                        last_settlement: ctx.timestamp,
                        ..pool
                    }),
                    ..self
                },
                ops3,
            ))
        }
    }

    /// On success, the publisher's whole balance paid to the publisher.
    pub open spec fn claim_publisher_balance(self, ctx: &CallContext, publisher: Address) -> Result<(RevenueState, Seq<TokenOp>), Error> {
        let balance = self.balance_of(publisher);
        if !ctx.authorizes(publisher) {
            Err(Error::AuthRequired)
        } else if balance <= 0 {
            Err(Error::NoBalanceToClaim)
        } else if self.token is None {
            Err(Error::NotInitialized)
        } else {
            Ok((
                RevenueState { publisher_balances: self.publisher_balances.insert(publisher.id, 0), ..self },
                seq![TokenOp::Transfer { token: self.token.unwrap(), from: Party::Contract, to: Party::Account(publisher), amount: balance }],
            ))
        }
    }

    pub open spec fn propose_admin(self, ctx: &CallContext, current_admin: Address, new_admin: Address) -> Result<RevenueState, Error> {
        match self.admin.after_propose(ctx, current_admin, new_admin) {
            Ok(a) => Ok(RevenueState { admin: a, ..self }),
            Err(e) => Err(e),
        }
    }

    pub open spec fn accept_admin(self, ctx: &CallContext, new_admin: Address) -> Result<RevenueState, Error> {
        match self.admin.after_accept(ctx, new_admin) {
            Ok(a) => Ok(RevenueState { admin: a, ..self }),
            Err(e) => Err(e),
        }
    }
}

/// The revenue settlement contract.
pub struct RevenueSettlementContract {
    admin: AdminSlots,
    token: Option<Address>,
    treasury: Option<Address>,
    platform: Option<Address>,
    pool: Option<RevenuePool>,
    settlement_counter: Option<u64>,
    settlements: HashMap<u64, SettlementRecord>,
    publisher_balances: HashMap<u64, i128>,
}

impl View for RevenueSettlementContract {
    type V = RevenueState;

    closed spec fn view(&self) -> RevenueState {
        RevenueState {
            admin: self.admin,
            token: self.token,
            treasury: self.treasury,
            platform: self.platform,
            pool: self.pool,
            settlement_counter: self.settlement_counter,
            settlements: self.settlements@,
            publisher_balances: self.publisher_balances@,
        }
    }
}

fn checked_i128(v: Option<i128>) -> (r: Result<i128, Error>)
    ensures
        v matches Some(x) ==> r == Ok::<i128, Error>(x),
        v is None ==> r == Err::<i128, Error>(Error::Overflow),
{
    match v {
        Some(x) => Ok(x),
        None => Err(Error::Overflow),
    }
}

/// The share of `amount` at `pct` basis points.
fn share(amount: i128, pct: u32) -> (r: Result<i128, Error>)
    ensures
        fits_i128(amount * pct) ==> r == Ok::<i128, Error>(share_of(amount as int, pct as int) as i128),
        !fits_i128(amount * pct) ==> r == Err::<i128, Error>(Error::Overflow),
{
    match amount.checked_mul(pct as i128) {
        None => Err(Error::Overflow),
        Some(scaled) => match scaled.checked_div(10_000) {
            Some(q) => Ok(q),
            None => Err(Error::Overflow),
        },
    }
}

impl RevenueSettlementContract {
    /// An empty, uninitialized contract.
    pub fn new() -> (c: RevenueSettlementContract)
        ensures
            c@.admin == AdminSlots::new_spec(),
            c@.token is None,
            c@.treasury is None,
            c@.platform is None,
            c@.pool is None,
            c@.settlement_counter is None,
            c@.settlements == Map::<u64, SettlementRecord>::empty(),
            c@.publisher_balances == Map::<u64, i128>::empty(),
    {
        RevenueSettlementContract {
            admin: AdminSlots::new(),
            token: None,
            treasury: None,
            platform: None,
            pool: None,
            settlement_counter: None,
            settlements: HashMap::new(),
            publisher_balances: HashMap::new(),
        }
    }

    pub fn initialize(&mut self, ctx: &CallContext, admin: Address, token: Address, treasury: Address, platform: Address) -> (r: Result<(), Error>)
        ensures
            follows(old(self)@.initialize(ctx, admin, token, treasury, platform), r, old(self)@, final(self)@),
    {
        if self.admin.admin.is_some() {
            return Err(Error::AlreadyInitialized);
        }
        match ctx.require_auth(admin) {
            Ok(()) => {},
            Err(e) => return Err(e),
        }
        self.admin.admin = Some(admin);
        self.token = Some(token);
        self.treasury = Some(treasury);
        self.platform = Some(platform);
        self.settlement_counter = Some(0);
        self.pool = Some(RevenuePool {
            total_revenue: 0,
            platform_share: 0,
            publisher_share: 0,
            treasury_share: 0,
            burn_amount: 0,
            total_burned: 0,
            platform_pct: 250,
            publisher_pct: 9_000,
            treasury_pct: 500,
            burn_pct: 250,
            last_settlement: 0,
        });
        Ok(())
    }

    fn settle(&self, ctx: &CallContext, campaign_id: u64, amount: i128, publisher: Address) -> (r: Result<(RevenuePool, i128, u64, SettlementRecord), Error>)
        requires
            self@.pool is Some,
        ensures
            ({
                let pool = self@.pool.unwrap();
                let (p, t, b, publisher_amount) = split(amount, pool);
                let balance = self@.balance_of(publisher) + publisher_amount;
                let id = match self@.settlement_counter { Some(c) => c, None => 0 } + 1;
                let fits = split_fits(amount, pool)
                    && fits_i128(pool.total_revenue + amount)
                    && fits_i128(pool.platform_share + p)
                    && fits_i128(pool.publisher_share + publisher_amount)
                    && fits_i128(pool.treasury_share + t)
                    && fits_i128(pool.burn_amount + b)
                    && fits_i128(balance)
                    && fits_u64(id);
                &&& !fits ==> r == Err::<(RevenuePool, i128, u64, SettlementRecord), Error>(Error::Overflow)
                &&& fits ==> (r matches Ok((np, nb, nid, rec)) && {
                    &&& np == RevenuePool {
                        total_revenue: (pool.total_revenue + amount) as i128,
                        platform_share: (pool.platform_share + p) as i128,
                        publisher_share: (pool.publisher_share + publisher_amount) as i128,
                        treasury_share: (pool.treasury_share + t) as i128,
                        burn_amount: (pool.burn_amount + b) as i128,
                        ..pool
                    }
                    &&& nb == balance
                    &&& nid == id
                    &&& rec == SettlementRecord {
                        settlement_id: id as u64,
                        campaign_id,
                        total_amount: amount,
                        platform_fee: p as i128,
                        publisher_amount: publisher_amount as i128,
                        settled_at: ctx.timestamp,
                    }
                })
            }),
    {
        let pool = match self.pool {
            Some(p) => p,
            None => RevenuePool {
                total_revenue: 0,
                platform_share: 0,
                publisher_share: 0,
                treasury_share: 0,
                burn_amount: 0,
                total_burned: 0,
                platform_pct: 0,
                publisher_pct: 0,
                treasury_pct: 0,
                burn_pct: 0,
                last_settlement: 0,
            },
        };
        let platform_fee = share(amount, pool.platform_pct)?;
        let burn_fee = share(amount, pool.burn_pct)?;
        let publisher_amount = share(amount, pool.publisher_pct)?;
        let after_platform = checked_i128(amount.checked_sub(platform_fee))?;
        let after_burn = checked_i128(after_platform.checked_sub(burn_fee))?;
        let treasury_fee = checked_i128(after_burn.checked_sub(publisher_amount))?;
        let new_pool = RevenuePool {
            total_revenue: checked_i128(pool.total_revenue.checked_add(amount))?,
            platform_share: checked_i128(pool.platform_share.checked_add(platform_fee))?,
            publisher_share: checked_i128(pool.publisher_share.checked_add(publisher_amount))?,
            treasury_share: checked_i128(pool.treasury_share.checked_add(treasury_fee))?,
            burn_amount: checked_i128(pool.burn_amount.checked_add(burn_fee))?,
            ..pool
        };
        let current: i128 = match self.publisher_balances.get(&publisher.id) {
            Some(b) => *b,
            None => 0,
        };
        let balance = checked_i128(current.checked_add(publisher_amount))?;
        let counter = match self.settlement_counter {
            Some(c) => c,
            None => 0,
        };
        let id = match counter.checked_add(1) {
            Some(v) => v,
            None => return Err(Error::Overflow),
        };
        let record = SettlementRecord {
            settlement_id: id,
            campaign_id,
            total_amount: amount,
            platform_fee,
            publisher_amount,
            settled_at: ctx.timestamp,
        };
        Ok((new_pool, balance, id, record))
    }

    pub fn record_revenue(&mut self, ctx: &CallContext, admin: Address, campaign_id: u64, amount: i128, publisher: Address) -> (r: Result<u64, Error>)
        ensures
            follows_with(old(self)@.record_revenue(ctx, admin, campaign_id, amount, publisher), r, old(self)@, final(self)@),
    {
        match self.admin.require_admin(ctx, admin) {
            Ok(()) => {},
            Err(e) => return Err(e),
        }
        if self.pool.is_none() {
            return Err(Error::NotInitialized);
        }
        let (pool, balance, id, record) = match self.settle(ctx, campaign_id, amount, publisher) {
            Ok(v) => v,
            Err(e) => return Err(e),
        };
        self.pool = Some(pool);
        self.publisher_balances.insert(publisher.id, balance);
        self.settlements.insert(id, record);
        self.settlement_counter = Some(id);
        Ok(id)
    }

    /// Pays the platform and treasury shares and burns the burn share; the
    /// returned operations are for the host to carry out, in order.
    pub fn distribute_platform_revenue(&mut self, ctx: &CallContext, admin: Address) -> (r: Result<Vec<TokenOp>, Error>)
        ensures
            follows_ops(old(self)@.distribute_platform_revenue(ctx, admin), r, old(self)@, final(self)@),
    {
        match self.admin.require_admin(ctx, admin) {
            Ok(()) => {},
            Err(e) => return Err(e),
        }
        let mut pool = match self.pool {
            Some(p) => p,
            None => return Err(Error::NotInitialized),
        };
        let token = match self.token {
            Some(t) => t,
            None => return Err(Error::NotInitialized),
        };
        let mut ops: Vec<TokenOp> = Vec::new();
        if pool.platform_share > 0 {
            let platform = match self.platform {
                Some(p) => p,
                None => return Err(Error::NotInitialized),
            };
            ops.push(TokenOp::Transfer { token, from: Party::Contract, to: Party::Account(platform), amount: pool.platform_share });
            pool.platform_share = 0;
        }
        if pool.treasury_share > 0 {
            let treasury = match self.treasury {
                Some(t) => t,
                None => return Err(Error::NotInitialized),
            };
            ops.push(TokenOp::Transfer { token, from: Party::Contract, to: Party::Account(treasury), amount: pool.treasury_share });
            pool.treasury_share = 0;
        }
        if pool.burn_amount > 0 {
            pool.total_burned = match pool.total_burned.checked_add(pool.burn_amount) {
                Some(v) => v,
                None => return Err(Error::Overflow),
            };
            ops.push(TokenOp::Burn { token, amount: pool.burn_amount });
            pool.burn_amount = 0;
        }
        pool.last_settlement = ctx.timestamp;
        self.pool = Some(pool);
        proof {
            assert(ops@ =~= old(self)@.distribute_platform_revenue(ctx, admin).unwrap().1);
        }
        Ok(ops)
    }

    /// Pays the publisher its whole balance; the returned transfer is for
    /// the host to carry out.
    pub fn claim_publisher_balance(&mut self, ctx: &CallContext, publisher: Address) -> (r: Result<Vec<TokenOp>, Error>)
        ensures
            follows_ops(old(self)@.claim_publisher_balance(ctx, publisher), r, old(self)@, final(self)@),
    {
        match ctx.require_auth(publisher) {
            Ok(()) => {},
            Err(e) => return Err(e),
        }
        let balance: i128 = match self.publisher_balances.get(&publisher.id) {
            Some(b) => *b,
            None => 0,
        };
        if balance <= 0 {
            return Err(Error::NoBalanceToClaim);
        }
        let token = match self.token {
            Some(t) => t,
            None => return Err(Error::NotInitialized),
        };
        self.publisher_balances.insert(publisher.id, 0);
        let mut ops = Vec::new();
        ops.push(TokenOp::Transfer { token, from: Party::Contract, to: Party::Account(publisher), amount: balance });
        proof {
            assert(ops@ =~= old(self)@.claim_publisher_balance(ctx, publisher).unwrap().1);
        }
        Ok(ops)
    }

    /// The revenue pool of an initialized contract.
    pub fn get_revenue_pool(&self) -> (r: RevenuePool)
        requires
            self@.pool is Some,
        ensures
            r == self@.pool.unwrap(),
    {
        match self.pool {
            Some(p) => p,
            None => RevenuePool {
                total_revenue: 0,
                platform_share: 0,
                publisher_share: 0,
                treasury_share: 0,
                burn_amount: 0,
                total_burned: 0,
                platform_pct: 0,
                publisher_pct: 0,
                treasury_pct: 0,
                burn_pct: 0,
                last_settlement: 0,
            },
        }
    }

    pub fn get_publisher_balance(&self, publisher: Address) -> (r: i128)
        ensures
            r == self@.balance_of(publisher),
    {
        match self.publisher_balances.get(&publisher.id) {
            Some(b) => *b,
            None => 0,
        }
    }

    pub fn get_settlement(&self, settlement_id: u64) -> (r: Option<SettlementRecord>)
        ensures
            r == lookup(self@.settlements, settlement_id),
    {
        match self.settlements.get(&settlement_id) {
            Some(s) => Some(*s),
            None => None,
        }
    }

    pub fn propose_admin(&mut self, ctx: &CallContext, current_admin: Address, new_admin: Address) -> (r: Result<(), Error>)
        ensures
            follows(old(self)@.propose_admin(ctx, current_admin, new_admin), r, old(self)@, final(self)@),
    {
        self.admin.propose(ctx, current_admin, new_admin)
    }

    pub fn accept_admin(&mut self, ctx: &CallContext, new_admin: Address) -> (r: Result<(), Error>)
        ensures
            follows(old(self)@.accept_admin(ctx, new_admin), r, old(self)@, final(self)@),
    {
        self.admin.accept(ctx, new_admin)
    }
}

/// The split loses nothing: platform fee, treasury fee, burn and the
/// publisher's amount add up to the revenue, the publisher's amount is
/// exactly its percentage, and the rounding dust lands with the treasury.
pub proof fn lemma_split_exact(amount: i128, pool: RevenuePool)
    ensures
        split(amount, pool).0 + split(amount, pool).1 + split(amount, pool).2 + split(amount, pool).3 == amount,
        split(amount, pool).3 == share_of(amount as int, pool.publisher_pct as int),
        split(amount, pool).1 - share_of(amount as int, pool.treasury_pct as int)
            == amount - (split(amount, pool).0 + share_of(amount as int, pool.treasury_pct as int) + split(amount, pool).2 + split(amount, pool).3),
{
}

/// Recording revenue adds exactly the amount to the total and to the sum of
/// the four shares, and exactly the publisher's amount to its balance.
pub proof fn lemma_record_revenue_conserves(s: RevenueState, ctx: &CallContext, admin: Address, campaign_id: u64, amount: i128, publisher: Address)
    requires
        s.record_revenue(ctx, admin, campaign_id, amount, publisher) is Ok,
    ensures
        ({
            let (t, id) = s.record_revenue(ctx, admin, campaign_id, amount, publisher).unwrap();
            let p0 = s.pool.unwrap();
            let p1 = t.pool.unwrap();
            &&& p1.total_revenue == p0.total_revenue + amount
            &&& p1.platform_share + p1.publisher_share + p1.treasury_share + p1.burn_amount
                == p0.platform_share + p0.publisher_share + p0.treasury_share + p0.burn_amount + amount
            &&& t.balance_of(publisher) == s.balance_of(publisher) + split(amount, p0).3
            &&& t.settlements[id].total_amount == amount
        }),
{
}

/// What the operations pay out or burn, in total.
pub open spec fn moved(ops: Seq<TokenOp>) -> int
    decreases ops.len(),
{
    if ops.len() == 0 {
        0
    } else {
        moved(ops.drop_last()) + match ops.last() {
            TokenOp::Transfer { amount, .. } => amount as int,
            TokenOp::Burn { amount, .. } => amount as int,
        }
    }
}

/// The positive part of a share.
pub open spec fn positive_part(x: i128) -> int {
    if x > 0 { x as int } else { 0 }
}

/// A distribution pays out or burns exactly the pending platform, treasury
/// and burn shares that are positive, clears them, and adds the burned
/// amount to the running total of burned tokens.
pub proof fn lemma_distribution_conserves(s: RevenueState, ctx: &CallContext, admin: Address)
    requires
        s.distribute_platform_revenue(ctx, admin) is Ok,
    ensures
        ({
            let (t, ops) = s.distribute_platform_revenue(ctx, admin).unwrap();
            let p0 = s.pool.unwrap();
            let p1 = t.pool.unwrap();
            &&& moved(ops) == positive_part(p0.platform_share) + positive_part(p0.treasury_share) + positive_part(p0.burn_amount)
            &&& p1.total_burned == p0.total_burned + positive_part(p0.burn_amount)
            &&& p1.platform_share <= 0
            &&& p1.treasury_share <= 0
            &&& p1.burn_amount <= 0
            &&& p1.total_revenue == p0.total_revenue
            &&& p1.publisher_share == p0.publisher_share
        }),
{
    let p0 = s.pool.unwrap();
    let (t, ops) = s.distribute_platform_revenue(ctx, admin).unwrap();
    reveal_with_fuel(moved, 4);
    let token = s.token.unwrap();
    let ops1: Seq<TokenOp> = if p0.platform_share > 0 {
        seq![TokenOp::Transfer { token, from: Party::Contract, to: Party::Account(s.platform.unwrap()), amount: p0.platform_share }]
    } else {
        Seq::empty()
    };
    let ops2 = if p0.treasury_share > 0 {
        ops1.push(TokenOp::Transfer { token, from: Party::Contract, to: Party::Account(s.treasury.unwrap()), amount: p0.treasury_share })
    } else {
        ops1
    };
    assert(moved(ops1) == positive_part(p0.platform_share)) by {
        if p0.platform_share > 0 {
            assert(ops1.drop_last() =~= Seq::<TokenOp>::empty());
        }
    }
    assert(moved(ops2) == positive_part(p0.platform_share) + positive_part(p0.treasury_share)) by {
        if p0.treasury_share > 0 {
            assert(ops2.drop_last() =~= ops1);
        }
    }
    if p0.burn_amount > 0 {
        assert(ops.drop_last() =~= ops2);
    }
}

/// A publisher's claim pays out its whole balance once: the balance drops
/// to zero and a second claim is refused.
pub proof fn lemma_claim_once(s: RevenueState, c1: &CallContext, c2: &CallContext, publisher: Address)
    requires
        s.claim_publisher_balance(c1, publisher) is Ok,
        c2.authorizes(publisher),
    ensures
        ({
            let (t, ops) = s.claim_publisher_balance(c1, publisher).unwrap();
            &&& ops == seq![TokenOp::Transfer { token: s.token.unwrap(), from: Party::Contract, to: Party::Account(publisher), amount: s.balance_of(publisher) }]
            &&& t.balance_of(publisher) == 0
            &&& t.claim_publisher_balance(c2, publisher) == Err::<(RevenueState, Seq<TokenOp>), Error>(Error::NoBalanceToClaim)
        }),
{
}

/// The sum of the values of a finite map.
pub open spec fn sum_values(m: Map<u64, i128>) -> int
    decreases m.dom().len(),
    when m.dom().finite()
{
    if m.dom().len() == 0 {
        0
    } else {
        let k = m.dom().choose();
        m[k] + sum_values(m.remove(k))
    }
}

/// Any one entry can be taken out of the sum first.
proof fn lemma_sum_remove(m: Map<u64, i128>, k: u64)
    requires
        m.dom().finite(),
        m.contains_key(k),
    ensures
        sum_values(m) == m[k] + sum_values(m.remove(k)),
    decreases m.dom().len(),
{
    let j = m.dom().choose();
    if j != k {
        lemma_sum_remove(m.remove(j), k);
        lemma_sum_remove(m.remove(k), j);
        assert(m.remove(j).remove(k) =~= m.remove(k).remove(j));
    }
}

/// Setting one entry changes the sum by the difference at that entry.
proof fn lemma_sum_insert(m: Map<u64, i128>, k: u64, v: i128)
    requires
        m.dom().finite(),
    ensures
        sum_values(m.insert(k, v)) == sum_values(m) - (if m.contains_key(k) { m[k] as int } else { 0 }) + v,
{
    lemma_sum_remove(m.insert(k, v), k);
    if m.contains_key(k) {
        lemma_sum_remove(m, k);
        assert(m.insert(k, v).remove(k) =~= m.remove(k));
    } else {
        assert(m.insert(k, v).remove(k) =~= m);
    }
}

/// What the contract owes and has yet to pay out or burn: every publisher's
/// balance and the pending platform, treasury and burn shares.
pub open spec fn outstanding(s: RevenueState) -> int {
    let p = s.pool.unwrap();
    sum_values(s.publisher_balances) + p.platform_share + p.treasury_share + p.burn_amount
}

/// The contract's books balance across operations: recording revenue adds
/// exactly the amount to what is outstanding, and a distribution or a claim
/// lowers it by exactly what its token operations pay out or burn; the
/// administrator hand-over leaves it unchanged. So, while the contract holds
/// all revenue recorded less all tokens moved out, its holdings equal the
/// sum of the tracked shares.
pub proof fn lemma_outstanding_tracks_tokens(
    s: RevenueState,
    ctx: &CallContext,
    caller: Address,
    other: Address,
    campaign_id: u64,
    amount: i128,
    publisher: Address,
)
    requires
        s.pool is Some,
        s.publisher_balances.dom().finite(),
    ensures
        s.record_revenue(ctx, caller, campaign_id, amount, publisher) matches Ok((t, _)) ==> {
            &&& t.publisher_balances.dom().finite()
            &&& outstanding(t) == outstanding(s) + amount
        },
        s.distribute_platform_revenue(ctx, caller) matches Ok((t, ops)) ==> {
            &&& t.publisher_balances.dom().finite()
            &&& outstanding(t) == outstanding(s) - moved(ops)
        },
        s.claim_publisher_balance(ctx, publisher) matches Ok((t, ops)) ==> {
            &&& t.publisher_balances.dom().finite()
            &&& outstanding(t) == outstanding(s) - moved(ops)
        },
        s.propose_admin(ctx, caller, other) matches Ok(t) ==> outstanding(t) == outstanding(s),
        s.accept_admin(ctx, caller) matches Ok(t) ==> outstanding(t) == outstanding(s),
{
    let m = s.publisher_balances;
    if let Ok((t, _)) = s.record_revenue(ctx, caller, campaign_id, amount, publisher) {
        let pool = s.pool.unwrap();
        let (p, tr, b, pa) = split(amount, pool);
        lemma_sum_insert(m, publisher.id, (s.balance_of(publisher) + pa) as i128);
        lemma_split_exact(amount, pool);
    }
    if let Ok((t, ops)) = s.distribute_platform_revenue(ctx, caller) {
        lemma_distribution_conserves(s, ctx, caller);
    }
    if let Ok((t, ops)) = s.claim_publisher_balance(ctx, publisher) {
        lemma_sum_insert(m, publisher.id, 0);
        reveal_with_fuel(moved, 2);
    }
}

} // verus!
