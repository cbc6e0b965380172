//! Refund processor: advertisers request refunds for campaigns; the
//! administrator approves (up to the requested amount) or rejects them;
//! approved refunds are paid out of the contract's balance once.

use std::collections::HashMap;
use vstd::prelude::*;
use crate::admin::AdminSlots;
use crate::common::{follows, follows_ops, follows_with, view_values, fits_u64, min_int, Address, CallContext, Error, Party, TokenOp};

verus! {

#[derive(Clone, Copy, PartialEq, Eq, Debug, Structural)]
pub enum RefundStatus {
    Requested,
    UnderReview,
    Approved,
    Rejected,
    Processed,
}

pub struct RefundRequest {
    pub refund_id: u64,
    pub requester: Address,
    pub campaign_id: u64,
    pub token: Address,
    pub amount_requested: i128,
    pub amount_approved: i128,
    pub reason: String,
    pub status: RefundStatus,
    pub submitted_at: u64,
    pub resolved_at: Option<u64>,
}

/// What a refund request holds, with its reason as a character sequence.
pub struct RefundView {
    pub refund_id: u64,
    pub requester: Address,
    pub campaign_id: u64,
    pub token: Address,
    pub amount_requested: i128,
    pub amount_approved: i128,
    pub reason: Seq<char>,
    pub status: RefundStatus,
    pub submitted_at: u64,
    pub resolved_at: Option<u64>,
}

impl View for RefundRequest {
    type V = RefundView;

    open spec fn view(&self) -> RefundView {
        RefundView {
            refund_id: self.refund_id,
            requester: self.requester,
            campaign_id: self.campaign_id,
            token: self.token,
            amount_requested: self.amount_requested,
            amount_approved: self.amount_approved,
            reason: self.reason@,
            status: self.status,
            submitted_at: self.submitted_at,
            resolved_at: self.resolved_at,
        }
    }
}

impl Clone for RefundRequest {
    fn clone(&self) -> (r: Self)
        ensures
            r@ == self@,
    {
        RefundRequest {
            refund_id: self.refund_id,
            requester: self.requester,
            campaign_id: self.campaign_id,
            token: self.token,
            amount_requested: self.amount_requested,
            amount_approved: self.amount_approved,
            reason: self.reason.clone(),
            status: self.status,
            submitted_at: self.submitted_at,
            resolved_at: self.resolved_at,
        }
    }
}

/// The refund period set at initialization: seven days, in seconds.
pub const AUTO_REFUND_PERIOD: u64 = 604_800;

/// The contract's stored state.
pub struct RefundState {
    pub admin: AdminSlots,
    pub token: Option<Address>,
    pub refund_counter: Option<u64>,
    pub auto_refund_period: Option<u64>,
    pub refunds: Map<u64, RefundView>,
}

impl RefundState {
    pub open spec fn initialize(self, ctx: &CallContext, admin: Address, token: Address) -> Result<RefundState, Error> {
        if self.admin.admin is Some {
            Err(Error::AlreadyInitialized)
        } else if !ctx.authorizes(admin) {
            Err(Error::AuthRequired)
        } else {
            Ok(RefundState {
                admin: AdminSlots { admin: Some(admin), pending: self.admin.pending },
                token: Some(token),
                refund_counter: Some(0),
                auto_refund_period: Some(AUTO_REFUND_PERIOD),
                ..self
            })
        }
    }

    pub open spec fn request_refund(self, ctx: &CallContext, requester: Address, campaign_id: u64, amount: i128, reason: String) -> Result<(RefundState, u64), Error> {
        let id = match self.refund_counter { Some(c) => c, None => 0 } + 1;
        if !ctx.authorizes(requester) {
            Err(Error::AuthRequired)
        } else if amount <= 0 {
            Err(Error::InvalidAmount)
        } else if !fits_u64(id) {
            Err(Error::Overflow)
        } else if self.token is None {
            Err(Error::NotInitialized)
        } else {
            Ok((
                RefundState {
                    refunds: self.refunds.insert(id as u64, RefundView {
                        refund_id: id as u64,
                        requester,
                        campaign_id,
                        token: self.token.unwrap(),
                        amount_requested: amount,
                        amount_approved: 0,
                        reason: reason@,
                        status: RefundStatus::Requested,
                        submitted_at: ctx.timestamp,
                        resolved_at: None,
                    }),
                    refund_counter: Some(id as u64),
                    ..self
                },
                id as u64,
            ))
        }
    }

    pub open spec fn approve_refund(self, ctx: &CallContext, admin: Address, refund_id: u64, approved_amount: i128) -> Result<RefundState, Error> {
        let r = self.refunds[refund_id];
        if self.admin.admin_check(ctx, admin) is Err {
            Err(self.admin.admin_check(ctx, admin)->Err_0)
        } else if !self.refunds.contains_key(refund_id) {
            Err(Error::RefundNotFound)
        } else if r.status != RefundStatus::Requested && r.status != RefundStatus::UnderReview {
            Err(Error::InvalidStatus)
        } else {
            Ok(RefundState {
                refunds: self.refunds.insert(refund_id, RefundView {
                    amount_approved: min_int(approved_amount as int, r.amount_requested as int) as i128,
                    status: RefundStatus::Approved,
                    resolved_at: Some(ctx.timestamp),
                    ..r
                }),
                ..self
            })
        }
    }

    pub open spec fn reject_refund(self, ctx: &CallContext, admin: Address, refund_id: u64) -> Result<RefundState, Error> {
        let r = self.refunds[refund_id];
        if self.admin.admin_check(ctx, admin) is Err {
            Err(self.admin.admin_check(ctx, admin)->Err_0)
        } else if !self.refunds.contains_key(refund_id) {
            Err(Error::RefundNotFound)
        } else {
            Ok(RefundState {
                refunds: self.refunds.insert(refund_id, RefundView {
                    status: RefundStatus::Rejected,
                    resolved_at: Some(ctx.timestamp),
                    ..r
                }),
                ..self
            })
        }
    }

    /// `contract_balance` is the contract's balance of the refund's token.
    /// On success: the payout of the approved amount to the requester.
    pub open spec fn process_refund(self, ctx: &CallContext, caller: Address, refund_id: u64, contract_balance: i128) -> Result<(RefundState, Seq<TokenOp>), Error> {
        let r = self.refunds[refund_id];
        if !ctx.authorizes(caller) {
            Err(Error::AuthRequired)
        } else if self.admin.admin is None {
            Err(Error::NotInitialized)
        } else if !self.refunds.contains_key(refund_id) {
            Err(Error::RefundNotFound)
        } else if self.admin.admin != Some(caller) && caller != r.requester {
            Err(Error::Unauthorized)
        } else if r.status != RefundStatus::Approved {
            Err(Error::RefundNotApproved)
        } else if contract_balance < r.amount_approved {
            Err(Error::InsufficientContractBalance)
        } else {
            Ok((
                RefundState {
                    refunds: self.refunds.insert(refund_id, RefundView { status: RefundStatus::Processed, ..r }),
                    ..self
                },
                seq![TokenOp::Transfer { token: r.token, from: Party::Contract, to: Party::Account(r.requester), amount: r.amount_approved }],
            ))
        }
    }

    pub open spec fn propose_admin(self, ctx: &CallContext, current_admin: Address, new_admin: Address) -> Result<RefundState, Error> {
        match self.admin.after_propose(ctx, current_admin, new_admin) {
            Ok(a) => Ok(RefundState { admin: a, ..self }),
            Err(e) => Err(e),
        }
    }

    pub open spec fn accept_admin(self, ctx: &CallContext, new_admin: Address) -> Result<RefundState, Error> {
        match self.admin.after_accept(ctx, new_admin) {
            Ok(a) => Ok(RefundState { admin: a, ..self }),
            Err(e) => Err(e),
        }
    }

    /// No refund is approved for more than was requested.
    pub open spec fn approvals_within_requests(self) -> bool {
        forall|id: u64| #[trigger] self.refunds.contains_key(id) ==> self.refunds[id].amount_approved <= self.refunds[id].amount_requested
    }
}

/// The refund processor contract.
pub struct RefundProcessorContract {
    admin: AdminSlots,
    token: Option<Address>,
    refund_counter: Option<u64>,
    auto_refund_period: Option<u64>,
    refunds: HashMap<u64, RefundRequest>,
}

impl View for RefundProcessorContract {
    type V = RefundState;

    closed spec fn view(&self) -> RefundState {
        RefundState {
            admin: self.admin,
            token: self.token,
            refund_counter: self.refund_counter,
            auto_refund_period: self.auto_refund_period,
            refunds: view_values(self.refunds@),
        }
    }
}

impl RefundProcessorContract {
    /// An empty, uninitialized contract.
    pub fn new() -> (c: RefundProcessorContract)
        ensures
            c@.admin == AdminSlots::new_spec(),
            c@.token is None,
            c@.refund_counter is None,
            c@.auto_refund_period is None,
            c@.refunds == Map::<u64, RefundView>::empty(),
    {
        let c = RefundProcessorContract {
            admin: AdminSlots::new(),
            token: None,
            refund_counter: None,
            auto_refund_period: None,
            refunds: HashMap::new(),
        };
        proof {
            assert(view_values(c.refunds@) =~= Map::<u64, RefundView>::empty());
        }
        c
    }

    pub fn initialize(&mut self, ctx: &CallContext, admin: Address, token: Address) -> (r: Result<(), Error>)
        ensures
            follows(old(self)@.initialize(ctx, admin, token), r, old(self)@, final(self)@),
    {
        if self.admin.admin.is_some() {
            return Err(Error::AlreadyInitialized);
        }
        match ctx.require_auth(admin) {
            Ok(()) => {},
            Err(e) => return Err(e),
        }
        self.admin.admin = Some(admin);
        self.token = Some(token);
        self.refund_counter = Some(0);
        self.auto_refund_period = Some(AUTO_REFUND_PERIOD);
        Ok(())
    }

    pub fn request_refund(&mut self, ctx: &CallContext, requester: Address, campaign_id: u64, amount: i128, reason: String) -> (r: Result<u64, Error>)
        ensures
            follows_with(old(self)@.request_refund(ctx, requester, campaign_id, amount, reason), r, old(self)@, final(self)@),
    {
        match ctx.require_auth(requester) {
            Ok(()) => {},
            Err(e) => return Err(e),
        }
        if amount <= 0 {
            return Err(Error::InvalidAmount);
        }
        let counter = match self.refund_counter {
            Some(c) => c,
            None => 0,
        };
        let id = match counter.checked_add(1) {
            Some(v) => v,
            None => return Err(Error::Overflow),
        };
        let token = match self.token {
            Some(t) => t,
            None => return Err(Error::NotInitialized),
        };
        let refund = RefundRequest {
            refund_id: id,
            requester,
            campaign_id,
            token,
            amount_requested: amount,
            amount_approved: 0,
            reason,
            status: RefundStatus::Requested,
            submitted_at: ctx.timestamp,
            resolved_at: None,
        };
        let ghost old_map = self.refunds@;
        let ghost v = refund@;
        self.refunds.insert(id, refund);
        proof {
            assert(view_values(self.refunds@) =~= view_values(old_map).insert(id, v));
        }
        self.refund_counter = Some(id);
        Ok(id)
    }

    pub fn approve_refund(&mut self, ctx: &CallContext, admin: Address, refund_id: u64, approved_amount: i128) -> (r: Result<(), Error>)
        ensures
            follows(old(self)@.approve_refund(ctx, admin, refund_id, approved_amount), r, old(self)@, final(self)@),
    {
        match self.admin.require_admin(ctx, admin) {
            Ok(()) => {},
            Err(e) => return Err(e),
        }
        match self.refunds.get(&refund_id) {
            None => return Err(Error::RefundNotFound),
            Some(r) => {
                if r.status != RefundStatus::Requested && r.status != RefundStatus::UnderReview {
                    return Err(Error::InvalidStatus);
                }
            },
        }
        let ghost old_map = self.refunds@;
        let mut r = self.refunds.remove(&refund_id).unwrap();
        r.amount_approved = if approved_amount <= r.amount_requested { approved_amount } else { r.amount_requested };
        r.status = RefundStatus::Approved;
        r.resolved_at = Some(ctx.timestamp);
        let ghost v = r@;
        self.refunds.insert(refund_id, r);
        proof {
            assert(view_values(self.refunds@) =~= view_values(old_map).insert(refund_id, v));
        }
        Ok(())
    }

    pub fn reject_refund(&mut self, ctx: &CallContext, admin: Address, refund_id: u64) -> (r: Result<(), Error>)
        ensures
            follows(old(self)@.reject_refund(ctx, admin, refund_id), r, old(self)@, final(self)@),
    {
        match self.admin.require_admin(ctx, admin) {
            Ok(()) => {},
            Err(e) => return Err(e),
        }
        if !self.refunds.contains_key(&refund_id) {
            return Err(Error::RefundNotFound);
        }
        let ghost old_map = self.refunds@;
        let mut r = self.refunds.remove(&refund_id).unwrap();
        r.status = RefundStatus::Rejected;
        r.resolved_at = Some(ctx.timestamp);
        let ghost v = r@;
        self.refunds.insert(refund_id, r);
        proof {
            assert(view_values(self.refunds@) =~= view_values(old_map).insert(refund_id, v));
        }
        Ok(())
    }

    /// Pays out an approved refund. `contract_balance` is the contract's
    /// balance of the refund's token as the token contract reports it; the
    /// returned transfer is for the host to carry out.
    pub fn process_refund(&mut self, ctx: &CallContext, caller: Address, refund_id: u64, contract_balance: i128) -> (r: Result<Vec<TokenOp>, Error>)
        ensures
            follows_ops(old(self)@.process_refund(ctx, caller, refund_id, contract_balance), r, old(self)@, final(self)@),
    {
        match ctx.require_auth(caller) {
            Ok(()) => {},
            Err(e) => return Err(e),
        }
        let admin = match self.admin.admin {
            Some(a) => a,
            None => return Err(Error::NotInitialized),
        };
        match self.refunds.get(&refund_id) {
            None => return Err(Error::RefundNotFound),
            Some(r) => {
                if caller != admin && caller != r.requester {
                    return Err(Error::Unauthorized);
                }
                if r.status != RefundStatus::Approved {
                    return Err(Error::RefundNotApproved);
                }
                if contract_balance < r.amount_approved {
                    return Err(Error::InsufficientContractBalance);
                }
            },
        }
        let ghost old_map = self.refunds@;
        let mut r = self.refunds.remove(&refund_id).unwrap();
        r.status = RefundStatus::Processed;
        let op = TokenOp::Transfer { token: r.token, from: Party::Contract, to: Party::Account(r.requester), amount: r.amount_approved };
        let ghost v = r@;
        self.refunds.insert(refund_id, r);
        proof {
            assert(view_values(self.refunds@) =~= view_values(old_map).insert(refund_id, v));
        }
        let mut ops = Vec::new();
        ops.push(op);
        Ok(ops)
    }

    pub fn get_refund(&self, refund_id: u64) -> (r: Option<RefundRequest>)
        ensures
            r is Some <==> self@.refunds.contains_key(refund_id),
            r matches Some(x) ==> x@ == self@.refunds[refund_id],
    {
        match self.refunds.get(&refund_id) {
            Some(r) => Some(r.clone()),
            None => None,
        }
    }

    pub fn propose_admin(&mut self, ctx: &CallContext, current_admin: Address, new_admin: Address) -> (r: Result<(), Error>)
        ensures
            follows(old(self)@.propose_admin(ctx, current_admin, new_admin), r, old(self)@, final(self)@),
    {
        self.admin.propose(ctx, current_admin, new_admin)
    }

    pub fn accept_admin(&mut self, ctx: &CallContext, new_admin: Address) -> (r: Result<(), Error>)
        ensures
            follows(old(self)@.accept_admin(ctx, new_admin), r, old(self)@, final(self)@),
    {
        self.admin.accept(ctx, new_admin)
    }
}

/// Every operation keeps each refund's approved amount within what was
/// requested, so no refund pays out more than its requester asked for.
pub proof fn lemma_approvals_within_requests_preserved(
    s: RefundState,
    ctx: &CallContext,
    who: Address,
    other: Address,
    id: u64,
    amount: i128,
    reason: String,
)
    requires
        s.approvals_within_requests(),
    ensures
        s.initialize(ctx, who, other) matches Ok(t) ==> t.approvals_within_requests(),
        s.request_refund(ctx, who, id, amount, reason) matches Ok((t, _)) ==> t.approvals_within_requests(),
        s.approve_refund(ctx, who, id, amount) matches Ok(t) ==> t.approvals_within_requests(),
        s.reject_refund(ctx, who, id) matches Ok(t) ==> t.approvals_within_requests(),
        s.process_refund(ctx, who, id, amount) matches Ok((t, _)) ==> t.approvals_within_requests(),
        s.propose_admin(ctx, who, other) matches Ok(t) ==> t.approvals_within_requests(),
        s.accept_admin(ctx, who) matches Ok(t) ==> t.approvals_within_requests(),
{
}

/// A refund is paid out at most once, and what is paid is the approved
/// amount, never more than was requested.
pub proof fn lemma_refund_paid_once(s: RefundState, c1: &CallContext, c2: &CallContext, caller: Address, other: Address, id: u64, b1: i128, b2: i128)
    requires
        s.approvals_within_requests(),
        s.process_refund(c1, caller, id, b1) is Ok,
    ensures
        s.process_refund(c1, caller, id, b1).unwrap().1 == seq![TokenOp::Transfer {
            token: s.refunds[id].token,
            from: Party::Contract,
            to: Party::Account(s.refunds[id].requester),
            amount: s.refunds[id].amount_approved,
        }],
        s.refunds[id].amount_approved <= s.refunds[id].amount_requested,
        s.process_refund(c1, caller, id, b1).unwrap().0.process_refund(c2, other, id, b2) is Err,
{
}

} // verus!
