//! Payment processor: payments in whitelisted tokens, each within the
//! token's minimum and daily limit, split between the recipient and a
//! platform fee for the treasury, with per-user and per-token statistics.

use std::collections::HashMap;
use vstd::prelude::*;
use crate::admin::AdminSlots;
use crate::common::{
    follows, lookup, make_pair_key, pair_key, fits_i128, fits_u64, day_of, Address, CallContext, Error, Party, TokenOp,
};

verus! {

#[derive(Clone, Copy, PartialEq, Eq, Debug, Structural)]
pub enum PaymentStatus {
    Pending,
    Processing,
    Completed,
    Failed,
}

#[derive(Clone, Copy, PartialEq, Eq, Debug, Structural)]
pub struct Payment {
    pub payer: Address,
    pub recipient: Address,
    pub token: Address,
    pub amount: i128,
    pub fee_charged: i128,
    pub status: PaymentStatus,
    pub created_at: u64,
    pub processed_at: Option<u64>,
}

/// The terms on which a token is accepted.
#[derive(Clone, Copy, PartialEq, Eq, Debug, Structural)]
pub struct TokenConfig {
    pub enabled: bool,
    pub min_amount: i128,
    pub daily_limit: i128,
    pub daily_volume: i128,
}

#[derive(Clone, Copy, PartialEq, Eq, Debug, Structural)]
pub struct UserPaymentStats {
    pub total_payments: u64,
    pub total_spent: i128,
    pub last_payment: u64,
}

#[derive(Clone, Copy, PartialEq, Eq, Debug, Structural)]
pub struct RevenueStats {
    pub total_fees_collected: i128,
    pub total_volume: i128,
    pub payment_count: u64,
}

/// The platform fee, in basis points, that applies before the
/// administrator sets one.
pub const DEFAULT_FEE_BPS: u32 = 250;

/// The highest platform fee the administrator may set, in basis points.
pub const MAX_FEE_BPS: u32 = 1000;

/// The platform fee on a payment of `amount` at `fee_bps` basis points,
/// rounded down.
pub open spec fn fee_of(amount: int, fee_bps: int) -> int {
    amount * fee_bps / 10_000
}

/// The contract's stored state.
pub struct PaymentState {
    pub admin: AdminSlots,
    pub treasury: Option<Address>,
    pub next_payment_id: Option<u64>,
    pub fee_bps: Option<u32>,
    pub token_configs: Map<u64, TokenConfig>,
    pub payments: Map<u64, Payment>,
    pub user_stats: Map<u64, UserPaymentStats>,
    pub revenue_stats: Map<u64, RevenueStats>,
    /// Volume paid per token and ledger day, keyed by `pair_key(token, day)`.
    pub daily_volume: Map<u128, i128>,
}

impl PaymentState {
    pub open spec fn current_fee_bps(self) -> u32 {
        match self.fee_bps { Some(f) => f, None => DEFAULT_FEE_BPS }
    }

    pub open spec fn volume_on(self, token: Address, day: u64) -> i128 {
        let k = pair_key(token.id, day);
        if self.daily_volume.contains_key(k) { self.daily_volume[k] } else { 0 }
    }

    pub open spec fn user_stats_or_zero(self, user: Address) -> UserPaymentStats {
        if self.user_stats.contains_key(user.id) {
            self.user_stats[user.id]
        } else {
            UserPaymentStats { total_payments: 0, total_spent: 0, last_payment: 0 }
        }
    }

    pub open spec fn revenue_stats_or_zero(self, token: Address) -> RevenueStats {
        if self.revenue_stats.contains_key(token.id) {
            self.revenue_stats[token.id]
        } else {
            RevenueStats { total_fees_collected: 0, total_volume: 0, payment_count: 0 }
        }
    }

    pub open spec fn initialize(self, ctx: &CallContext, admin: Address, treasury: Address) -> Result<PaymentState, Error> {
        if self.admin.admin is Some {
            Err(Error::AlreadyInitialized)
        } else if !ctx.authorizes(admin) {
            Err(Error::AuthRequired)
        } else {
            Ok(PaymentState {
                admin: AdminSlots { admin: Some(admin), pending: self.admin.pending },
                treasury: Some(treasury),
                next_payment_id: Some(1),
                fee_bps: Some(DEFAULT_FEE_BPS),
                ..self
            })
        }
    }

    pub open spec fn add_token(self, ctx: &CallContext, admin: Address, token: Address, min_amount: i128, daily_limit: i128) -> Result<PaymentState, Error> {
        if self.admin.admin_check(ctx, admin) is Err {
            Err(self.admin.admin_check(ctx, admin)->Err_0)
        } else {
            Ok(PaymentState {
                token_configs: self.token_configs.insert(token.id, TokenConfig { enabled: true, min_amount, daily_limit, daily_volume: 0 }),
                ..self
            })
        }
    }

    pub open spec fn remove_token(self, ctx: &CallContext, admin: Address, token: Address) -> Result<PaymentState, Error> {
        if self.admin.admin_check(ctx, admin) is Err {
            Err(self.admin.admin_check(ctx, admin)->Err_0)
        } else {
            Ok(PaymentState { token_configs: self.token_configs.remove(token.id), ..self })
        }
    }

    /// A payment of `amount` of `token` from `payer` to `recipient`, where
    /// `payer_balance` is the payer's balance of the token. On success: the
    /// payment's number and the transfers to carry out, in order: the full
    /// amount from the payer to the contract, the amount less the fee to the
    /// recipient, and the fee, when there is one, to the treasury.
    pub open spec fn process_payment(
        self,
        ctx: &CallContext,
        payer: Address,
        recipient: Address,
        token: Address,
        amount: i128,
        payer_balance: i128,
    ) -> Result<(PaymentState, u64, Seq<TokenOp>), Error> {
        let config = self.token_configs[token.id];
        let day = day_of(ctx.timestamp);
        let volume = self.volume_on(token, day) + amount;
        let scaled = amount * self.current_fee_bps();
        let fee = fee_of(amount as int, self.current_fee_bps() as int);
        let net = amount - fee;
        let id = match self.next_payment_id { Some(i) => i, None => 1 };
        let us = self.user_stats_or_zero(payer);
        let rs = self.revenue_stats_or_zero(token);
        if !ctx.authorizes(payer) {
            Err(Error::AuthRequired)
        } else if payer == recipient {
            Err(Error::CannotPayYourself)
        } else if amount <= 0 {
            Err(Error::InvalidAmount)
        } else if !self.token_configs.contains_key(token.id) {
            Err(Error::TokenNotWhitelisted)
        } else if !config.enabled {
            Err(Error::TokenDisabled)
        } else if amount < config.min_amount {
            Err(Error::AmountBelowMinimum)
        } else if !fits_i128(volume) {
            Err(Error::Overflow)
        } else if volume > config.daily_limit {
            Err(Error::DailyLimitExceeded)
        } else if !fits_i128(scaled) {
            Err(Error::Overflow)
        } else if payer_balance < amount {
            Err(Error::InsufficientBalance)
        } else if fee > 0 && self.treasury is None {
            Err(Error::NotInitialized)
        } else if !fits_u64(id + 1) {
            Err(Error::Overflow)
        } else if !fits_u64(us.total_payments + 1) || !fits_i128(us.total_spent + amount) {
            Err(Error::Overflow)
        } else if !fits_i128(rs.total_fees_collected + fee) || !fits_i128(rs.total_volume + amount) || !fits_u64(rs.payment_count + 1) {
            Err(Error::Overflow)
        } else {
            let inbound = TokenOp::Transfer { token, from: Party::Account(payer), to: Party::Contract, amount };
            let payout = TokenOp::Transfer { token, from: Party::Contract, to: Party::Account(recipient), amount: net as i128 };
            let ops = if fee > 0 {
                seq![inbound, payout, TokenOp::Transfer { token, from: Party::Contract, to: Party::Account(self.treasury.unwrap()), amount: fee as i128 }]
            } else {
                seq![inbound, payout]
            };
            Ok((
                PaymentState {
                    payments: self.payments.insert(id, Payment {
                        payer,
                        recipient,
                        token,
                        amount,
                        fee_charged: fee as i128,
                        status: PaymentStatus::Completed,
                        created_at: ctx.timestamp,
                        processed_at: Some(ctx.timestamp),
                    }),
                    next_payment_id: Some((id + 1) as u64),
                    daily_volume: self.daily_volume.insert(pair_key(token.id, day), volume as i128),
                    user_stats: self.user_stats.insert(payer.id, UserPaymentStats {
                        total_payments: (us.total_payments + 1) as u64,
                        total_spent: (us.total_spent + amount) as i128,
                        last_payment: ctx.timestamp,
                    }),
                    revenue_stats: self.revenue_stats.insert(token.id, RevenueStats {
                        total_fees_collected: (rs.total_fees_collected + fee) as i128,
                        total_volume: (rs.total_volume + amount) as i128,
                        payment_count: (rs.payment_count + 1) as u64,
                    }),
                    ..self
                },
                id,
                ops,
            ))
        }
    }

    pub open spec fn set_platform_fee(self, ctx: &CallContext, admin: Address, fee_bps: u32) -> Result<PaymentState, Error> {
        if self.admin.admin_check(ctx, admin) is Err {
            Err(self.admin.admin_check(ctx, admin)->Err_0)
        } else if fee_bps > MAX_FEE_BPS {
            Err(Error::FeeTooHigh)
        } else {
            Ok(PaymentState { fee_bps: Some(fee_bps), ..self })
        }
    }

    pub open spec fn propose_admin(self, ctx: &CallContext, current_admin: Address, new_admin: Address) -> Result<PaymentState, Error> {
        match self.admin.after_propose(ctx, current_admin, new_admin) {
            Ok(a) => Ok(PaymentState { admin: a, ..self }),
            Err(e) => Err(e),
        }
    }

    pub open spec fn accept_admin(self, ctx: &CallContext, new_admin: Address) -> Result<PaymentState, Error> {
        match self.admin.after_accept(ctx, new_admin) {
            Ok(a) => Ok(PaymentState { admin: a, ..self }),
            Err(e) => Err(e),
        }
    }

    /// The platform fee never exceeds its ceiling.
    pub open spec fn fee_capped(self) -> bool {
        self.current_fee_bps() <= MAX_FEE_BPS
    }
}

/// The payment processor contract.
pub struct PaymentProcessorContract {
    admin: AdminSlots,
    treasury: Option<Address>,
    next_payment_id: Option<u64>,
    fee_bps: Option<u32>,
    token_configs: HashMap<u64, TokenConfig>,
    payments: HashMap<u64, Payment>,
    user_stats: HashMap<u64, UserPaymentStats>,
    revenue_stats: HashMap<u64, RevenueStats>,
    daily_volume: HashMap<u128, i128>,
}

impl View for PaymentProcessorContract {
    type V = PaymentState;

    closed spec fn view(&self) -> PaymentState {
        PaymentState {
            admin: self.admin,
            treasury: self.treasury,
            next_payment_id: self.next_payment_id,
            fee_bps: self.fee_bps,
            token_configs: self.token_configs@,
            payments: self.payments@,
            user_stats: self.user_stats@,
            revenue_stats: self.revenue_stats@,
            daily_volume: self.daily_volume@,
        }
    }
}

/// The accepted payment: its number and the transfers to carry out.
pub struct PaymentReceipt {
    pub payment_id: u64,
    pub transfers: Vec<TokenOp>,
}

impl PaymentProcessorContract {
    /// An empty, uninitialized contract.
    pub fn new() -> (c: PaymentProcessorContract)
        ensures
            c@.admin == AdminSlots::new_spec(),
            c@.treasury is None,
            c@.next_payment_id is None,
            c@.fee_bps is None,
            c@.token_configs == Map::<u64, TokenConfig>::empty(),
            c@.payments == Map::<u64, Payment>::empty(),
            c@.user_stats == Map::<u64, UserPaymentStats>::empty(),
            c@.revenue_stats == Map::<u64, RevenueStats>::empty(),
            c@.daily_volume == Map::<u128, i128>::empty(),
    {
        PaymentProcessorContract {
            admin: AdminSlots::new(),
            treasury: None,
            next_payment_id: None,
            fee_bps: None,
            token_configs: HashMap::new(),
            payments: HashMap::new(),
            user_stats: HashMap::new(),
            revenue_stats: HashMap::new(),
            daily_volume: HashMap::new(),
        }
    }

    pub fn initialize(&mut self, ctx: &CallContext, admin: Address, treasury: Address) -> (r: Result<(), Error>)
        ensures
            follows(old(self)@.initialize(ctx, admin, treasury), r, old(self)@, final(self)@),
    {
        if self.admin.admin.is_some() {
            return Err(Error::AlreadyInitialized);
        }
        match ctx.require_auth(admin) {
            Ok(()) => {},
            Err(e) => return Err(e),
        }
        self.admin.admin = Some(admin);
        self.treasury = Some(treasury);
        self.next_payment_id = Some(1);
        self.fee_bps = Some(DEFAULT_FEE_BPS);
        Ok(())
    }

    /// Whitelists a token for payments.
    pub fn add_token(&mut self, ctx: &CallContext, admin: Address, token: Address, min_amount: i128, daily_limit: i128) -> (r: Result<(), Error>)
        ensures
            follows(old(self)@.add_token(ctx, admin, token, min_amount, daily_limit), r, old(self)@, final(self)@),
    {
        match self.admin.require_admin(ctx, admin) {
            Ok(()) => {},
            Err(e) => return Err(e),
        }
        self.token_configs.insert(token.id, TokenConfig { enabled: true, min_amount, daily_limit, daily_volume: 0 });
        Ok(())
    }

    /// Takes a token off the whitelist.
    pub fn remove_token(&mut self, ctx: &CallContext, admin: Address, token: Address) -> (r: Result<(), Error>)
        ensures
            follows(old(self)@.remove_token(ctx, admin, token), r, old(self)@, final(self)@),
    {
        match self.admin.require_admin(ctx, admin) {
            Ok(()) => {},
            Err(e) => return Err(e),
        }
        self.token_configs.remove(&token.id);
        Ok(())
    }

    /// The payer's statistics after one more payment of `amount` at `now`.
    fn next_user_stats(&self, user: Address, amount: i128, now: u64) -> (r: Result<UserPaymentStats, Error>)
        ensures
            ({
                let us = self@.user_stats_or_zero(user);
                if fits_u64(us.total_payments + 1) && fits_i128(us.total_spent + amount) {
                    r == Ok::<UserPaymentStats, Error>(UserPaymentStats {
                        total_payments: (us.total_payments + 1) as u64,
                        total_spent: (us.total_spent + amount) as i128,
                        last_payment: now,
                    })
                } else {
                    r == Err::<UserPaymentStats, Error>(Error::Overflow)
                }
            }),
    {
        let us = match self.user_stats.get(&user.id) {
            Some(s) => *s,
            None => UserPaymentStats { total_payments: 0, total_spent: 0, last_payment: 0 },
        };
        let total_payments = match us.total_payments.checked_add(1) {
            Some(v) => v,
            None => return Err(Error::Overflow),
        };
        let total_spent = match us.total_spent.checked_add(amount) {
            Some(v) => v,
            None => return Err(Error::Overflow),
        };
        Ok(UserPaymentStats { total_payments, total_spent, last_payment: now })
    }

    /// The token's statistics after one more payment of `volume` that
    /// carried `fee`.
    fn next_revenue_stats(&self, token: Address, fee: i128, volume: i128) -> (r: Result<RevenueStats, Error>)
        ensures
            ({
                let rs = self@.revenue_stats_or_zero(token);
                if fits_i128(rs.total_fees_collected + fee) && fits_i128(rs.total_volume + volume) && fits_u64(rs.payment_count + 1) {
                    r == Ok::<RevenueStats, Error>(RevenueStats {
                        total_fees_collected: (rs.total_fees_collected + fee) as i128,
                        total_volume: (rs.total_volume + volume) as i128,
                        payment_count: (rs.payment_count + 1) as u64,
                    })
                } else {
                    r == Err::<RevenueStats, Error>(Error::Overflow)
                }
            }),
    {
        let rs = match self.revenue_stats.get(&token.id) {
            Some(s) => *s,
            None => RevenueStats { total_fees_collected: 0, total_volume: 0, payment_count: 0 },
        };
        let total_fees_collected = match rs.total_fees_collected.checked_add(fee) {
            Some(v) => v,
            None => return Err(Error::Overflow),
        };
        let total_volume = match rs.total_volume.checked_add(volume) {
            Some(v) => v,
            None => return Err(Error::Overflow),
        };
        let payment_count = match rs.payment_count.checked_add(1) {
            Some(v) => v,
            None => return Err(Error::Overflow),
        };
        Ok(RevenueStats { total_fees_collected, total_volume, payment_count })
    }

    /// Accepts a payment. `payer_balance` is the payer's balance of `token`
    /// as the token contract reports it; the returned transfers are for the
    /// host to carry out.
    pub fn process_payment(
        &mut self,
        ctx: &CallContext,
        payer: Address,
        recipient: Address,
        token: Address,
        amount: i128,
        payer_balance: i128,
    ) -> (r: Result<PaymentReceipt, Error>)
        ensures
            match old(self)@.process_payment(ctx, payer, recipient, token, amount, payer_balance) {
                Ok((s, id, ops)) => r matches Ok(rc) && rc.payment_id == id && rc.transfers@ == ops && final(self)@ == s,
                Err(e) => r matches Err(x) && x == e && final(self)@ == old(self)@,
            },
    {
        match ctx.require_auth(payer) {
            Ok(()) => {},
            Err(e) => return Err(e),
        }
        if payer == recipient {
            return Err(Error::CannotPayYourself);
        }
        if amount <= 0 {
            return Err(Error::InvalidAmount);
        }
        let config = match self.token_configs.get(&token.id) {
            Some(c) => *c,
            None => return Err(Error::TokenNotWhitelisted),
        };
        if !config.enabled {
            return Err(Error::TokenDisabled);
        }
        if amount < config.min_amount {
            return Err(Error::AmountBelowMinimum);
        }
        let day = ctx.timestamp / 86_400;
        let day_key = make_pair_key(token.id, day);
        let volume_before: i128 = match self.daily_volume.get(&day_key) {
            Some(v) => *v,
            None => 0,
        };
        let volume = match volume_before.checked_add(amount) {
            Some(v) => v,
            None => return Err(Error::Overflow),
        };
        if volume > config.daily_limit {
            return Err(Error::DailyLimitExceeded);
        }
        let fee_bps: u32 = match self.fee_bps {
            Some(f) => f,
            None => DEFAULT_FEE_BPS,
        };
        let scaled = match amount.checked_mul(fee_bps as i128) {
            Some(v) => v,
            None => return Err(Error::Overflow),
        };
        let fee = scaled / 10_000;
        let net = amount - fee;
        let payment_id: u64 = match self.next_payment_id {
            Some(i) => i,
            None => 1,
        };
        if payer_balance < amount {
            return Err(Error::InsufficientBalance);
        }
        let treasury = if fee > 0 {
            match self.treasury {
                Some(t) => Some(t),
                None => return Err(Error::NotInitialized),
            }
        } else {
            None
        };
        let next_id = match payment_id.checked_add(1) {
            Some(v) => v,
            None => return Err(Error::Overflow),
        };
        let user_stats = match self.next_user_stats(payer, amount, ctx.timestamp) {
            Ok(s) => s,
            Err(e) => return Err(e),
        };
        let revenue_stats = match self.next_revenue_stats(token, fee, amount) {
            Ok(s) => s,
            Err(e) => return Err(e),
        };
        let mut transfers: Vec<TokenOp> = Vec::new();
        transfers.push(TokenOp::Transfer { token, from: Party::Account(payer), to: Party::Contract, amount });
        transfers.push(TokenOp::Transfer { token, from: Party::Contract, to: Party::Account(recipient), amount: net });
        match treasury {
            Some(t) => transfers.push(TokenOp::Transfer { token, from: Party::Contract, to: Party::Account(t), amount: fee }),
            None => {},
        }
        self.payments.insert(payment_id, Payment {
            payer,
            recipient,
            token,
            amount,
            fee_charged: fee,
            status: PaymentStatus::Completed,
            created_at: ctx.timestamp,
            processed_at: Some(ctx.timestamp),
        });
        self.next_payment_id = Some(next_id);
        self.daily_volume.insert(day_key, volume);
        self.user_stats.insert(payer.id, user_stats);
        self.revenue_stats.insert(token.id, revenue_stats);
        proof {
            assert(transfers@ =~= old(self)@.process_payment(ctx, payer, recipient, token, amount, payer_balance).unwrap().2);
        }
        Ok(PaymentReceipt { payment_id, transfers })
    }

    /// Sets the platform fee, at most `MAX_FEE_BPS` basis points.
    pub fn set_platform_fee(&mut self, ctx: &CallContext, admin: Address, fee_bps: u32) -> (r: Result<(), Error>)
        ensures
            follows(old(self)@.set_platform_fee(ctx, admin, fee_bps), r, old(self)@, final(self)@),
    {
        match self.admin.require_admin(ctx, admin) {
            Ok(()) => {},
            Err(e) => return Err(e),
        }
        if fee_bps > MAX_FEE_BPS {
            return Err(Error::FeeTooHigh);
        }
        self.fee_bps = Some(fee_bps);
        Ok(())
    }

    pub fn get_payment(&self, payment_id: u64) -> (r: Option<Payment>)
        ensures
            r == lookup(self@.payments, payment_id),
    {
        match self.payments.get(&payment_id) {
            Some(p) => Some(*p),
            None => None,
        }
    }

    pub fn get_user_stats(&self, user: Address) -> (r: Option<UserPaymentStats>)
        ensures
            r == lookup(self@.user_stats, user.id),
    {
        match self.user_stats.get(&user.id) {
            Some(s) => Some(*s),
            None => None,
        }
    }

    pub fn get_revenue_stats(&self, token: Address) -> (r: Option<RevenueStats>)
        ensures
            r == lookup(self@.revenue_stats, token.id),
    {
        match self.revenue_stats.get(&token.id) {
            Some(s) => Some(*s),
            None => None,
        }
    }

    pub fn get_token_config(&self, token: Address) -> (r: Option<TokenConfig>)
        ensures
            r == lookup(self@.token_configs, token.id),
    {
        match self.token_configs.get(&token.id) {
            Some(c) => Some(*c),
            None => None,
        }
    }

    pub fn propose_admin(&mut self, ctx: &CallContext, current_admin: Address, new_admin: Address) -> (r: Result<(), Error>)
        ensures
            follows(old(self)@.propose_admin(ctx, current_admin, new_admin), r, old(self)@, final(self)@),
    {
        self.admin.propose(ctx, current_admin, new_admin)
    }

    pub fn accept_admin(&mut self, ctx: &CallContext, new_admin: Address) -> (r: Result<(), Error>)
        ensures
            follows(old(self)@.accept_admin(ctx, new_admin), r, old(self)@, final(self)@),
    {
        self.admin.accept(ctx, new_admin)
    }
}

/// What the operations move into the contract from accounts.
pub open spec fn inflow(ops: Seq<TokenOp>) -> int
    decreases ops.len(),
{
    if ops.len() == 0 {
        0
    } else {
        inflow(ops.drop_last()) + match ops.last() {
            TokenOp::Transfer { from: Party::Account(_), to: Party::Contract, amount, .. } => amount as int,
            _ => 0,
        }
    }
}

/// What the operations move out of the contract to accounts.
pub open spec fn outflow(ops: Seq<TokenOp>) -> int
    decreases ops.len(),
{
    if ops.len() == 0 {
        0
    } else {
        outflow(ops.drop_last()) + match ops.last() {
            TokenOp::Transfer { from: Party::Contract, to: Party::Account(_), amount, .. } => amount as int,
            _ => 0,
        }
    }
}

/// A payment passes straight through the contract: the payer pays in the
/// full amount and exactly that much is paid out, the fee to the treasury
/// and the rest to the recipient; the fee is never negative and, while the
/// fee is within its ceiling, at most a tenth of the amount.
pub proof fn lemma_payment_conserves(
    s: PaymentState,
    ctx: &CallContext,
    payer: Address,
    recipient: Address,
    token: Address,
    amount: i128,
    balance: i128,
)
    requires
        s.process_payment(ctx, payer, recipient, token, amount, balance) is Ok,
    ensures
        ({
            let (t, id, ops) = s.process_payment(ctx, payer, recipient, token, amount, balance).unwrap();
            let fee = t.payments[id].fee_charged;
            &&& inflow(ops) == amount
            &&& outflow(ops) == amount
            &&& 0 <= fee
            &&& s.fee_capped() ==> fee * 10 <= amount
            &&& t.payments[id].amount == amount
        }),
{
    let (t, id, ops) = s.process_payment(ctx, payer, recipient, token, amount, balance).unwrap();
    reveal_with_fuel(inflow, 4);
    reveal_with_fuel(outflow, 4);
    let bps = s.current_fee_bps() as int;
    let a = amount as int;
    assert(a * bps >= 0) by (nonlinear_arith)
        requires
            a > 0,
            bps >= 0;
    if s.fee_capped() {
        assert((a * bps / 10_000) * 10 <= a) by (nonlinear_arith)
            requires
                a > 0,
                0 <= bps <= 1000;
    }
    if fee_of(a, bps) > 0 {
        assert(ops.drop_last().drop_last().drop_last() =~= Seq::<TokenOp>::empty());
        assert(ops.drop_last().drop_last() =~= seq![ops[0]]);
        assert(ops.drop_last() =~= seq![ops[0], ops[1]]);
    } else {
        assert(ops.drop_last().drop_last() =~= Seq::<TokenOp>::empty());
        assert(ops.drop_last() =~= seq![ops[0]]);
    }
}

/// A payment keeps the token's volume for the day within its daily limit.
pub proof fn lemma_daily_limit_respected(
    s: PaymentState,
    ctx: &CallContext,
    payer: Address,
    recipient: Address,
    token: Address,
    amount: i128,
    balance: i128,
)
    requires
        s.process_payment(ctx, payer, recipient, token, amount, balance) is Ok,
    ensures
        s.process_payment(ctx, payer, recipient, token, amount, balance).unwrap().0.volume_on(token, day_of(ctx.timestamp))
            <= s.token_configs[token.id].daily_limit,
{
}

/// Every operation keeps the platform fee within its ceiling.
pub proof fn lemma_fee_capped_preserved(
    s: PaymentState,
    ctx: &CallContext,
    who: Address,
    other: Address,
    token: Address,
    a: i128,
    b: i128,
    bps: u32,
)
    requires
        s.fee_capped(),
    ensures
        s.initialize(ctx, who, other) matches Ok(t) ==> t.fee_capped(),
        s.add_token(ctx, who, token, a, b) matches Ok(t) ==> t.fee_capped(),
        s.remove_token(ctx, who, token) matches Ok(t) ==> t.fee_capped(),
        s.process_payment(ctx, who, other, token, a, b) matches Ok((t, _, _)) ==> t.fee_capped(),
        s.set_platform_fee(ctx, who, bps) matches Ok(t) ==> t.fee_capped(),
        s.propose_admin(ctx, who, other) matches Ok(t) ==> t.fee_capped(),
        s.accept_admin(ctx, who) matches Ok(t) ==> t.fee_capped(),
{
}

} // verus!
