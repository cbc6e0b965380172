//! Multisig treasury: signers propose payments out of the treasury, which
//! are executed once enough distinct signers approved them and before they
//! expire, or rejected once too many signers refused them.

use std::collections::HashMap;
use vstd::prelude::*;
use crate::admin::AdminSlots;
use crate::common::{
    contains_address, follows, follows_ops, follows_with, make_pair_key, pair_key, view_values, fits_u32, fits_u64,
    Address, CallContext, Error, Party, TokenOp,
};

verus! {

#[derive(Clone, Copy, PartialEq, Eq, Debug, Structural)]
pub enum TxStatus {
    Pending,
    Approved,
    Executed,
    Rejected,
    Expired,
}

/// A proposed payment out of the treasury.
pub struct TreasuryTx {
    pub tx_id: u64,
    pub proposer: Address,
    pub recipient: Address,
    pub token: Address,
    pub amount: i128,
    pub description: String,
    pub status: TxStatus,
    pub approvals: u32,
    pub rejections: u32,
    pub required_approvals: u32,
    pub created_at: u64,
    pub expires_at: u64,
    pub executed_at: Option<u64>,
}

/// What a proposed payment holds, with its description as a character sequence.
pub struct TreasuryTxView {
    pub tx_id: u64,
    pub proposer: Address,
    pub recipient: Address,
    pub token: Address,
    pub amount: i128,
    pub description: Seq<char>,
    pub status: TxStatus,
    pub approvals: u32,
    pub rejections: u32,
    pub required_approvals: u32,
    pub created_at: u64,
    pub expires_at: u64,
    pub executed_at: Option<u64>,
}

impl View for TreasuryTx {
    type V = TreasuryTxView;

    open spec fn view(&self) -> TreasuryTxView {
        TreasuryTxView {
            tx_id: self.tx_id,
            proposer: self.proposer,
            recipient: self.recipient,
            token: self.token,
            amount: self.amount,
            description: self.description@,
            status: self.status,
            approvals: self.approvals,
            rejections: self.rejections,
            required_approvals: self.required_approvals,
            created_at: self.created_at,
            expires_at: self.expires_at,
            executed_at: self.executed_at,
        }
    }
}

impl Clone for TreasuryTx {
    fn clone(&self) -> (r: Self)
        ensures
            r@ == self@,
    {
        TreasuryTx {
            tx_id: self.tx_id,
            proposer: self.proposer,
            recipient: self.recipient,
            token: self.token,
            amount: self.amount,
            description: self.description.clone(),
            status: self.status,
            approvals: self.approvals,
            rejections: self.rejections,
            required_approvals: self.required_approvals,
            created_at: self.created_at,
            expires_at: self.expires_at,
            executed_at: self.executed_at,
        }
    }
}

/// `s` with every occurrence of `a` taken out, the rest in order.
pub open spec fn without(s: Seq<Address>, a: Address) -> Seq<Address>
    decreases s.len(),
{
    if s.len() == 0 {
        s
    } else if s.last() == a {
        without(s.drop_last(), a)
    } else {
        without(s.drop_last(), a).push(s.last())
    }
}

/// No address occurs twice in `s`.
pub open spec fn distinct(s: Seq<Address>) -> bool {
    forall|i: int, j: int| 0 <= i < j < s.len() ==> s[i] != s[j]
}

/// The key of a signer's vote on a payment.
pub open spec fn vote_key(tx_id: u64, signer: Address) -> u128 {
    pair_key(tx_id, signer.id)
}

/// The contract's stored state.
pub struct TreasuryState {
    pub admin: AdminSlots,
    pub signers: Option<Seq<Address>>,
    pub required: Option<u32>,
    pub tx_counter: Option<u64>,
    pub txs: Map<u64, TreasuryTxView>,
    /// The approvals cast, by `vote_key`.
    pub votes: Map<u128, bool>,
}

impl TreasuryState {
    /// The check that `caller` authorized the call and is a signer.
    pub open spec fn signer_check(self, ctx: &CallContext, caller: Address) -> Result<(), Error> {
        if !ctx.authorizes(caller) {
            Err(Error::AuthRequired)
        } else if self.signers is None {
            Err(Error::NotInitialized)
        } else if !self.signers.unwrap().contains(caller) {
            Err(Error::NotASigner)
        } else {
            Ok(())
        }
    }

    pub open spec fn initialize(self, ctx: &CallContext, admin: Address, initial_signers: Seq<Address>, required: u32) -> Result<TreasuryState, Error> {
        if self.admin.admin is Some {
            Err(Error::AlreadyInitialized)
        } else if !ctx.authorizes(admin) {
            Err(Error::AuthRequired)
        } else if required == 0 || required > initial_signers.len() {
            Err(Error::InvalidRequiredSigners)
        } else {
            Ok(TreasuryState {
                admin: AdminSlots { admin: Some(admin), pending: self.admin.pending },
                signers: Some(initial_signers),
                required: Some(required),
                tx_counter: Some(0),
                ..self
            })
        }
    }

    pub open spec fn propose_transaction(
        self,
        ctx: &CallContext,
        proposer: Address,
        recipient: Address,
        token: Address,
        amount: i128,
        description: String,
        expires_in: u64,
    ) -> Result<(TreasuryState, u64), Error> {
        let counter = match self.tx_counter { Some(c) => c, None => 0 };
        let tx_id = counter + 1;
        if self.signer_check(ctx, proposer) is Err {
            Err(self.signer_check(ctx, proposer)->Err_0)
        } else if amount <= 0 {
            Err(Error::InvalidAmount)
        } else if !fits_u64(tx_id) {
            Err(Error::Overflow)
        } else if self.required is None {
            Err(Error::NotInitialized)
        } else if !fits_u64(ctx.timestamp + expires_in) {
            Err(Error::Overflow)
        } else {
            Ok((
                TreasuryState {
                    txs: self.txs.insert(tx_id as u64, TreasuryTxView {
                        tx_id: tx_id as u64,
                        proposer,
                        recipient,
                        token,
                        amount,
                        description: description@,
                        status: TxStatus::Pending,
                        approvals: 0,
                        rejections: 0,
                        required_approvals: self.required.unwrap(),
                        created_at: ctx.timestamp,
                        expires_at: (ctx.timestamp + expires_in) as u64,
                        executed_at: None,
                    }),
                    tx_counter: Some(tx_id as u64),
                    ..self
                },
                tx_id as u64,
            ))
        }
    }

    pub open spec fn approve_transaction(self, ctx: &CallContext, signer: Address, tx_id: u64) -> Result<TreasuryState, Error> {
        let tx = self.txs[tx_id];
        let approvals = tx.approvals + 1;
        if self.signer_check(ctx, signer) is Err {
            Err(self.signer_check(ctx, signer)->Err_0)
        } else if self.votes.contains_key(vote_key(tx_id, signer)) {
            Err(Error::AlreadyVoted)
        } else if !self.txs.contains_key(tx_id) {
            Err(Error::TxNotFound)
        } else if tx.status != TxStatus::Pending {
            Err(Error::TxNotPending)
        } else if ctx.timestamp > tx.expires_at {
            Err(Error::TxExpired)
        } else if !fits_u32(approvals) {
            Err(Error::Overflow)
        } else {
            Ok(TreasuryState {
                txs: self.txs.insert(tx_id, TreasuryTxView {
                    approvals: approvals as u32,
                    status: if approvals >= tx.required_approvals { TxStatus::Approved } else { TxStatus::Pending },
                    ..tx
                }),
                votes: self.votes.insert(vote_key(tx_id, signer), true),
                ..self
            })
        }
    }

    /// On success, the payment to carry out: the amount from the treasury to the recipient.
    pub open spec fn execute_transaction(self, ctx: &CallContext, caller: Address, tx_id: u64) -> Result<(TreasuryState, Seq<TokenOp>), Error> {
        let tx = self.txs[tx_id];
        if self.signer_check(ctx, caller) is Err {
            Err(self.signer_check(ctx, caller)->Err_0)
        } else if !self.txs.contains_key(tx_id) {
            Err(Error::TxNotFound)
        } else if tx.status != TxStatus::Approved {
            Err(Error::TxNotApproved)
        } else if ctx.timestamp > tx.expires_at {
            Err(Error::TransactionExpired)
        } else {
            Ok((
                TreasuryState {
                    txs: self.txs.insert(tx_id, TreasuryTxView {
                        status: TxStatus::Executed,
                        executed_at: Some(ctx.timestamp),
                        ..tx
                    }),
                    ..self
                },
                seq![TokenOp::Transfer { token: tx.token, from: Party::Contract, to: Party::Account(tx.recipient), amount: tx.amount }],
            ))
        }
    }

    pub open spec fn reject_transaction(self, ctx: &CallContext, signer: Address, tx_id: u64) -> Result<TreasuryState, Error> {
        let tx = self.txs[tx_id];
        let rejections = tx.rejections + 1;
        let max_possible = self.signers.unwrap().len() - rejections;
        if self.signer_check(ctx, signer) is Err {
            Err(self.signer_check(ctx, signer)->Err_0)
        } else if !self.txs.contains_key(tx_id) {
            Err(Error::TxNotFound)
        } else if tx.status != TxStatus::Pending {
            Err(Error::TxNotPending)
        } else if !fits_u32(rejections) {
            Err(Error::Overflow)
        } else if self.required is None {
            Err(Error::NotInitialized)
        } else if max_possible < 0 {
            Err(Error::Overflow)
        } else {
            Ok(TreasuryState {
                txs: self.txs.insert(tx_id, TreasuryTxView {
                    rejections: rejections as u32,
                    status: if max_possible < self.required.unwrap() { TxStatus::Rejected } else { TxStatus::Pending },
                    ..tx
                }),
                ..self
            })
        }
    }

    pub open spec fn add_signer(self, ctx: &CallContext, admin: Address, new_signer: Address) -> Result<TreasuryState, Error> {
        if self.admin.admin_check(ctx, admin) is Err {
            Err(self.admin.admin_check(ctx, admin)->Err_0)
        } else if self.signers is None {
            Err(Error::NotInitialized)
        } else if self.signers.unwrap().contains(new_signer) {
            Err(Error::AlreadyASigner)
        } else if self.signers.unwrap().len() >= u32::MAX {
            Err(Error::Overflow)
        } else {
            Ok(TreasuryState { signers: Some(self.signers.unwrap().push(new_signer)), ..self })
        }
    }

    pub open spec fn remove_signer(self, ctx: &CallContext, admin: Address, signer: Address) -> Result<TreasuryState, Error> {
        if self.admin.admin_check(ctx, admin) is Err {
            Err(self.admin.admin_check(ctx, admin)->Err_0)
        } else if self.signers is None || self.required is None {
            Err(Error::NotInitialized)
        } else if !self.signers.unwrap().contains(signer) {
            Err(Error::NotASigner)
        } else if self.signers.unwrap().len() - 1 < self.required.unwrap() {
            Err(Error::SignerThresholdBreach)
        } else {
            Ok(TreasuryState { signers: Some(without(self.signers.unwrap(), signer)), ..self })
        }
    }

    pub open spec fn propose_admin(self, ctx: &CallContext, current_admin: Address, new_admin: Address) -> Result<TreasuryState, Error> {
        match self.admin.after_propose(ctx, current_admin, new_admin) {
            Ok(a) => Ok(TreasuryState { admin: a, ..self }),
            Err(e) => Err(e),
        }
    }

    pub open spec fn accept_admin(self, ctx: &CallContext, new_admin: Address) -> Result<TreasuryState, Error> {
        match self.admin.after_accept(ctx, new_admin) {
            Ok(a) => Ok(TreasuryState { admin: a, ..self }),
            Err(e) => Err(e),
        }
    }

    /// The signer set has no duplicates and can meet the threshold: at
    /// least one approval is required and no more than there are signers.
    pub open spec fn threshold_reachable(self) -> bool {
        &&& self.signers is Some
        &&& self.required is Some
        &&& distinct(self.signers.unwrap())
        &&& 1 <= self.required.unwrap() <= self.signers.unwrap().len()
    }
}

/// The multisig treasury contract.
pub struct MultisigTreasuryContract {
    admin: AdminSlots,
    signers: Option<Vec<Address>>,
    required: Option<u32>,
    tx_counter: Option<u64>,
    txs: HashMap<u64, TreasuryTx>,
    votes: HashMap<u128, bool>,
}

impl View for MultisigTreasuryContract {
    type V = TreasuryState;

    closed spec fn view(&self) -> TreasuryState {
        TreasuryState {
            admin: self.admin,
            signers: match self.signers {
                Some(v) => Some(v@),
                None => None,
            },
            required: self.required,
            tx_counter: self.tx_counter,
            txs: view_values(self.txs@),
            votes: self.votes@,
        }
    }
}

/// `v` without any occurrence of `a`.
fn remove_all(v: &Vec<Address>, a: Address) -> (r: Vec<Address>)
    ensures
        r@ == without(v@, a),
{
    let mut out: Vec<Address> = Vec::new();
    let n = v.len();
    for i in 0..n
        invariant
            n == v@.len(),
            out@ == without(v@.take(i as int), a),
    {
        proof {
            assert(v@.take(i + 1).drop_last() =~= v@.take(i as int));
        }
        if v[i] != a {
            out.push(v[i]);
        }
    }
    proof {
        assert(v@.take(n as int) =~= v@);
    }
    out
}

impl MultisigTreasuryContract {
    /// An empty, uninitialized contract.
    pub fn new() -> (c: MultisigTreasuryContract)
        ensures
            c@.admin == AdminSlots::new_spec(),
            c@.signers is None,
            c@.required is None,
            c@.tx_counter is None,
            c@.txs == Map::<u64, TreasuryTxView>::empty(),
            c@.votes == Map::<u128, bool>::empty(),
    {
        let c = MultisigTreasuryContract {
            admin: AdminSlots::new(),
            signers: None,
            required: None,
            tx_counter: None,
            txs: HashMap::new(),
            votes: HashMap::new(),
        };
        proof {
            assert(view_values(c.txs@) =~= Map::<u64, TreasuryTxView>::empty());
        }
        c
    }

    fn signer_gate(&self, ctx: &CallContext, caller: Address) -> (r: Result<(), Error>)
        ensures
            r == self@.signer_check(ctx, caller),
    {
        match ctx.require_auth(caller) {
            Ok(()) => {},
            Err(e) => return Err(e),
        }
        match &self.signers {
            None => Err(Error::NotInitialized),
            Some(v) => if contains_address(v, caller) { Ok(()) } else { Err(Error::NotASigner) },
        }
    }

    pub fn initialize(&mut self, ctx: &CallContext, admin: Address, initial_signers: Vec<Address>, required: u32) -> (r: Result<(), Error>)
        ensures
            follows(old(self)@.initialize(ctx, admin, initial_signers@, required), r, old(self)@, final(self)@),
    {
        if self.admin.admin.is_some() {
            return Err(Error::AlreadyInitialized);
        }
        match ctx.require_auth(admin) {
            Ok(()) => {},
            Err(e) => return Err(e),
        }
        if required == 0 || (required as usize) > initial_signers.len() {
            return Err(Error::InvalidRequiredSigners);
        }
        self.admin.admin = Some(admin);
        self.signers = Some(initial_signers);
        self.required = Some(required);
        self.tx_counter = Some(0);
        Ok(())
    }

    pub fn propose_transaction(
        &mut self,
        ctx: &CallContext,
        proposer: Address,
        recipient: Address,
        token: Address,
        amount: i128,
        description: String,
        expires_in: u64,
    ) -> (r: Result<u64, Error>)
        ensures
            follows_with(old(self)@.propose_transaction(ctx, proposer, recipient, token, amount, description, expires_in), r, old(self)@, final(self)@),
    {
        match self.signer_gate(ctx, proposer) {
            Ok(()) => {},
            Err(e) => return Err(e),
        }
        if amount <= 0 {
            return Err(Error::InvalidAmount);
        }
        let counter = match self.tx_counter {
            Some(c) => c,
            None => 0,
        };
        let tx_id = match counter.checked_add(1) {
            Some(v) => v,
            None => return Err(Error::Overflow),
        };
        let required = match self.required {
            Some(q) => q,
            None => return Err(Error::NotInitialized),
        };
        let expires_at = match ctx.timestamp.checked_add(expires_in) {
            Some(v) => v,
            None => return Err(Error::Overflow),
        };
        let tx = TreasuryTx {
            tx_id,
            proposer,
            recipient,
            token,
            amount,
            description,
            status: TxStatus::Pending,
            approvals: 0,
            rejections: 0,
            required_approvals: required,
            created_at: ctx.timestamp,
            expires_at,
            executed_at: None,
        };
        let ghost old_txs = self.txs@;
        let ghost v = tx@;
        self.txs.insert(tx_id, tx);
        proof {
            assert(view_values(self.txs@) =~= view_values(old_txs).insert(tx_id, v));
        }
        self.tx_counter = Some(tx_id);
        Ok(tx_id)
    }

    pub fn approve_transaction(&mut self, ctx: &CallContext, signer: Address, tx_id: u64) -> (r: Result<(), Error>)
        ensures
            follows(old(self)@.approve_transaction(ctx, signer, tx_id), r, old(self)@, final(self)@),
    {
        match self.signer_gate(ctx, signer) {
            Ok(()) => {},
            Err(e) => return Err(e),
        }
        let key = make_pair_key(tx_id, signer.id);
        if self.votes.contains_key(&key) {
            return Err(Error::AlreadyVoted);
        }
        let approvals = match self.txs.get(&tx_id) {
            None => return Err(Error::TxNotFound),
            Some(tx) => {
                if tx.status != TxStatus::Pending {
                    return Err(Error::TxNotPending);
                }
                if ctx.timestamp > tx.expires_at {
                    return Err(Error::TxExpired);
                }
                match tx.approvals.checked_add(1) {
                    Some(v) => v,
                    None => return Err(Error::Overflow),
                }
            },
        };
        let ghost old_txs = self.txs@;
        let mut tx = self.txs.remove(&tx_id).unwrap();
        tx.approvals = approvals;
        if approvals >= tx.required_approvals {
            tx.status = TxStatus::Approved;
        }
        let ghost v = tx@;
        self.txs.insert(tx_id, tx);
        proof {
            assert(view_values(self.txs@) =~= view_values(old_txs).insert(tx_id, v));
        }
        self.votes.insert(key, true);
        Ok(())
    }

    /// Marks an approved payment executed and returns the transfer the host
    /// must make for it.
    pub fn execute_transaction(&mut self, ctx: &CallContext, caller: Address, tx_id: u64) -> (r: Result<Vec<TokenOp>, Error>)
        ensures
            follows_ops(old(self)@.execute_transaction(ctx, caller, tx_id), r, old(self)@, final(self)@),
    {
        match self.signer_gate(ctx, caller) {
            Ok(()) => {},
            Err(e) => return Err(e),
        }
        match self.txs.get(&tx_id) {
            None => return Err(Error::TxNotFound),
            Some(tx) => {
                if tx.status != TxStatus::Approved {
                    return Err(Error::TxNotApproved);
                }
                if ctx.timestamp > tx.expires_at {
                    return Err(Error::TransactionExpired);
                }
            },
        }
        let ghost old_txs = self.txs@;
        let mut tx = self.txs.remove(&tx_id).unwrap();
        tx.status = TxStatus::Executed;
        tx.executed_at = Some(ctx.timestamp);
        let op = TokenOp::Transfer { token: tx.token, from: Party::Contract, to: Party::Account(tx.recipient), amount: tx.amount };
        let ghost v = tx@;
        self.txs.insert(tx_id, tx);
        proof {
            assert(view_values(self.txs@) =~= view_values(old_txs).insert(tx_id, v));
        }
        let mut ops = Vec::new();
        ops.push(op);
        Ok(ops)
    }

    pub fn reject_transaction(&mut self, ctx: &CallContext, signer: Address, tx_id: u64) -> (r: Result<(), Error>)
        ensures
            follows(old(self)@.reject_transaction(ctx, signer, tx_id), r, old(self)@, final(self)@),
    {
        match self.signer_gate(ctx, signer) {
            Ok(()) => {},
            Err(e) => return Err(e),
        }
        let rejections = match self.txs.get(&tx_id) {
            None => return Err(Error::TxNotFound),
            Some(tx) => {
                if tx.status != TxStatus::Pending {
                    return Err(Error::TxNotPending);
                }
                match tx.rejections.checked_add(1) {
                    Some(v) => v,
                    None => return Err(Error::Overflow),
                }
            },
        };
        let required = match self.required {
            Some(q) => q,
            None => return Err(Error::NotInitialized),
        };
        let total = match &self.signers {
            Some(v) => v.len(),
            None => 0,
        };
        if (rejections as usize) > total {
            return Err(Error::Overflow);
        }
        let max_possible = total - (rejections as usize);
        let ghost old_txs = self.txs@;
        let mut tx = self.txs.remove(&tx_id).unwrap();
        tx.rejections = rejections;
        if max_possible < (required as usize) {
            tx.status = TxStatus::Rejected;
        }
        let ghost v = tx@;
        self.txs.insert(tx_id, tx);
        proof {
            assert(view_values(self.txs@) =~= view_values(old_txs).insert(tx_id, v));
        }
        Ok(())
    }

    pub fn get_transaction(&self, tx_id: u64) -> (r: Option<TreasuryTx>)
        ensures
            r is Some <==> self@.txs.contains_key(tx_id),
            r matches Some(tx) ==> tx@ == self@.txs[tx_id],
    {
        match self.txs.get(&tx_id) {
            Some(tx) => Some(tx.clone()),
            None => None,
        }
    }

    /// The signers of an initialized contract.
    pub fn get_signers(&self) -> (r: Vec<Address>)
        requires
            self@.signers is Some,
        ensures
            r@ == self@.signers.unwrap(),
    {
        match &self.signers {
            Some(v) => v.clone(),
            None => Vec::new(),
        }
    }

    pub fn add_signer(&mut self, ctx: &CallContext, admin: Address, new_signer: Address) -> (r: Result<(), Error>)
        ensures
            follows(old(self)@.add_signer(ctx, admin, new_signer), r, old(self)@, final(self)@),
    {
        match self.admin.require_admin(ctx, admin) {
            Ok(()) => {},
            Err(e) => return Err(e),
        }
        match &mut self.signers {
            None => Err(Error::NotInitialized),
            Some(v) => {
                if contains_address(v, new_signer) {
                    return Err(Error::AlreadyASigner);
                }
                if v.len() >= 0xffff_ffff {
                    return Err(Error::Overflow);
                }
                v.push(new_signer);
                Ok(())
            },
        }
    }

    pub fn remove_signer(&mut self, ctx: &CallContext, admin: Address, signer: Address) -> (r: Result<(), Error>)
        ensures
            follows(old(self)@.remove_signer(ctx, admin, signer), r, old(self)@, final(self)@),
    {
        match self.admin.require_admin(ctx, admin) {
            Ok(()) => {},
            Err(e) => return Err(e),
        }
        let required = match self.required {
            Some(q) => q,
            None => return Err(Error::NotInitialized),
        };
        let kept = match &self.signers {
            None => return Err(Error::NotInitialized),
            Some(v) => {
                if !contains_address(v, signer) {
                    return Err(Error::NotASigner);
                }
                if v.len() - 1 < required as usize {
                    return Err(Error::SignerThresholdBreach);
                }
                remove_all(v, signer)
            },
        };
        self.signers = Some(kept);
        Ok(())
    }

    pub fn propose_admin(&mut self, ctx: &CallContext, current_admin: Address, new_admin: Address) -> (r: Result<(), Error>)
        ensures
            follows(old(self)@.propose_admin(ctx, current_admin, new_admin), r, old(self)@, final(self)@),
    {
        self.admin.propose(ctx, current_admin, new_admin)
    }

    pub fn accept_admin(&mut self, ctx: &CallContext, new_admin: Address) -> (r: Result<(), Error>)
        ensures
            follows(old(self)@.accept_admin(ctx, new_admin), r, old(self)@, final(self)@),
    {
        self.admin.accept(ctx, new_admin)
    }
}

/// Taking an address out of a sequence keeps exactly the other elements;
/// it keeps a duplicate-free sequence duplicate-free, and shortens it by one
/// when the address occurs in it.
pub proof fn lemma_without(s: Seq<Address>, a: Address)
    ensures
        forall|x: Address| #[trigger] without(s, a).contains(x) <==> (s.contains(x) && x != a),
        distinct(s) ==> distinct(without(s, a)),
        distinct(s) && s.contains(a) ==> without(s, a).len() == s.len() - 1,
        !s.contains(a) ==> without(s, a) == s,
        without(s, a).len() <= s.len(),
    decreases s.len(),
{
    if s.len() > 0 {
        let init = s.drop_last();
        lemma_without(init, a);
        let w = without(init, a);
        assert forall|x: Address| #[trigger] without(s, a).contains(x) <==> (s.contains(x) && x != a) by {
            if without(s, a).contains(x) {
                if s.last() == a {
                    assert(w.contains(x));
                    let k = choose|k: int| 0 <= k < init.len() && init[k] == x;
                    assert(s[k] == x);
                } else {
                    let k = choose|k: int| 0 <= k < w.push(s.last()).len() && w.push(s.last())[k] == x;
                    if k == w.len() {
                        assert(x == s.last());
                        assert(s[s.len() - 1] == x);
                    } else {
                        assert(w[k] == x);
                        assert(w.contains(x));
                        let m = choose|m: int| 0 <= m < init.len() && init[m] == x;
                        assert(s[m] == x);
                    }
                }
            }
            if s.contains(x) && x != a {
                let k = choose|k: int| 0 <= k < s.len() && s[k] == x;
                if k == s.len() - 1 {
                    assert(s.last() == x);
                    assert(w.push(s.last())[w.len() as int] == x);
                } else {
                    assert(init[k] == x);
                    assert(init.contains(x));
                    assert(w.contains(x));
                    let m = choose|m: int| 0 <= m < w.len() && w[m] == x;
                    if s.last() != a {
                        assert(w.push(s.last())[m] == x);
                    }
                }
            }
        }
        if distinct(s) {
            assert(distinct(init)) by {
                assert forall|i: int, j: int| 0 <= i < j < init.len() implies init[i] != init[j] by {
                    assert(s[i] == init[i] && s[j] == init[j]);
                }
            }
            if s.last() != a {
                assert(!init.contains(s.last())) by {
                    if init.contains(s.last()) {
                        let k = choose|k: int| 0 <= k < init.len() && init[k] == s.last();
                        assert(s[k] == s[s.len() - 1]);
                    }
                }
                assert(!w.contains(s.last()));
                assert forall|i: int, j: int| 0 <= i < j < w.push(s.last()).len() implies w.push(s.last())[i] != w.push(s.last())[j] by {
                    if j == w.len() {
                        assert(w.contains(w[i]));
                    }
                }
            }
            if s.contains(a) && s.last() != a {
                let k = choose|k: int| 0 <= k < s.len() && s[k] == a;
                assert(init[k] == a);
                assert(init.contains(a));
            }
            if s.last() == a {
                assert(!init.contains(a)) by {
                    if init.contains(a) {
                        let k = choose|k: int| 0 <= k < init.len() && init[k] == a;
                        assert(s[k] == s[s.len() - 1]);
                    }
                }
            }
        }
        if !s.contains(a) {
            assert(!init.contains(a)) by {
                if init.contains(a) {
                    let k = choose|k: int| 0 <= k < init.len() && init[k] == a;
                    assert(s[k] == a);
                }
            }
            assert(s.last() != a) by {
                assert(s[s.len() - 1] == s.last());
            }
            assert(s.drop_last().push(s.last()) =~= s);
        }
    } else {
        assert(without(s, a) == s);
    }
}

/// Every operation keeps the signer set duplicate-free and able to meet
/// the approval threshold, provided the initial signers were distinct.
pub proof fn lemma_threshold_reachable_preserved(
    s: TreasuryState,
    ctx: &CallContext,
    who: Address,
    other: Address,
    initial: Seq<Address>,
    required: u32,
    tx_id: u64,
    amount: i128,
    text: String,
    n: u64,
)
    ensures
        distinct(initial) ==> (s.initialize(ctx, who, initial, required) matches Ok(t) ==> t.threshold_reachable()),
        s.threshold_reachable() ==> {
            &&& (s.propose_transaction(ctx, who, other, other, amount, text, n) matches Ok((t, _)) ==> t.threshold_reachable())
            &&& (s.approve_transaction(ctx, who, tx_id) matches Ok(t) ==> t.threshold_reachable())
            &&& (s.execute_transaction(ctx, who, tx_id) matches Ok((t, _)) ==> t.threshold_reachable())
            &&& (s.reject_transaction(ctx, who, tx_id) matches Ok(t) ==> t.threshold_reachable())
            &&& (s.add_signer(ctx, who, other) matches Ok(t) ==> t.threshold_reachable())
            &&& (s.remove_signer(ctx, who, other) matches Ok(t) ==> t.threshold_reachable())
            &&& (s.propose_admin(ctx, who, other) matches Ok(t) ==> t.threshold_reachable())
            &&& (s.accept_admin(ctx, who) matches Ok(t) ==> t.threshold_reachable())
        },
{
    if s.threshold_reachable() {
        let sg = s.signers.unwrap();
        lemma_without(sg, other);
        if let Ok(t) = s.add_signer(ctx, who, other) {
            assert forall|i: int, j: int| 0 <= i < j < sg.push(other).len() implies sg.push(other)[i] != sg.push(other)[j] by {
                if j == sg.len() {
                    assert(sg.contains(sg[i]));
                }
            }
        }
    }
}

/// A signer's approval counts once: a second approval of the same payment
/// by the same signer is refused.
pub proof fn lemma_no_double_approval(s: TreasuryState, c1: &CallContext, c2: &CallContext, signer: Address, tx_id: u64)
    requires
        s.approve_transaction(c1, signer, tx_id) is Ok,
        c2.authorizes(signer),
    ensures
        s.approve_transaction(c1, signer, tx_id).unwrap().approve_transaction(c2, signer, tx_id) == Err::<TreasuryState, Error>(Error::AlreadyVoted),
{
}

/// A payment is paid out at most once: once executed, executing it again
/// is refused.
pub proof fn lemma_no_double_execution(s: TreasuryState, c1: &CallContext, c2: &CallContext, caller: Address, other: Address, tx_id: u64)
    requires
        s.execute_transaction(c1, caller, tx_id) is Ok,
    ensures
        s.execute_transaction(c1, caller, tx_id).unwrap().0.execute_transaction(c2, other, tx_id) is Err,
{
}

/// Only approved payments are paid out, and the payout is the proposed
/// amount of the proposed token to the proposed recipient.
pub proof fn lemma_execute_pays_approved(s: TreasuryState, ctx: &CallContext, caller: Address, tx_id: u64)
    requires
        s.execute_transaction(ctx, caller, tx_id) is Ok,
    ensures
        s.txs.contains_key(tx_id),
        s.txs[tx_id].status == TxStatus::Approved,
        s.execute_transaction(ctx, caller, tx_id).unwrap().1 == seq![TokenOp::Transfer {
            token: s.txs[tx_id].token,
            from: Party::Contract,
            to: Party::Account(s.txs[tx_id].recipient),
            amount: s.txs[tx_id].amount,
        }],
{
}

/// A rejection counts one more refusal and decides the payment on the
/// signers alone: the payment becomes Rejected exactly when the signers who
/// have not refused it are fewer than the threshold, however many approvals
/// it already has; otherwise it stays pending. Nothing else about the
/// payment changes.
pub proof fn lemma_rejection_decides_on_refusals(s: TreasuryState, ctx: &CallContext, signer: Address, tx_id: u64)
    requires
        s.reject_transaction(ctx, signer, tx_id) is Ok,
    ensures
        ({
            let t = s.reject_transaction(ctx, signer, tx_id).unwrap();
            let before = s.txs[tx_id];
            let after = t.txs[tx_id];
            let refusals = before.rejections + 1;
            &&& after.rejections == refusals
            &&& after.approvals == before.approvals
            &&& (after.status == TxStatus::Rejected) == (s.signers.unwrap().len() - refusals < s.required.unwrap())
            &&& after.status != TxStatus::Rejected ==> after.status == TxStatus::Pending
            &&& after.amount == before.amount && after.recipient == before.recipient && after.token == before.token
        }),
{
}

/// An approval counts one more vote and approves the payment exactly when
/// the votes reach the threshold fixed at proposal; otherwise the payment
/// stays pending. The signer's vote is then on record.
pub proof fn lemma_approval_counts_toward_threshold(s: TreasuryState, ctx: &CallContext, signer: Address, tx_id: u64)
    requires
        s.approve_transaction(ctx, signer, tx_id) is Ok,
    ensures
        ({
            let t = s.approve_transaction(ctx, signer, tx_id).unwrap();
            let before = s.txs[tx_id];
            let after = t.txs[tx_id];
            &&& before.status == TxStatus::Pending
            &&& ctx.timestamp <= before.expires_at
            &&& after.approvals == before.approvals + 1
            &&& after.rejections == before.rejections
            &&& (after.status == TxStatus::Approved) == (before.approvals + 1 >= before.required_approvals)
            &&& after.status != TxStatus::Approved ==> after.status == TxStatus::Pending
            &&& t.votes.contains_key(vote_key(tx_id, signer))
        }),
{
}

} // verus!
