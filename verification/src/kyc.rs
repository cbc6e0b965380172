//! KYC registry: registered providers attest accounts' know-your-customer
//! submissions, optionally for a limited time; the administrator can revoke.

use std::collections::HashMap;
use vstd::prelude::*;
use crate::admin::AdminSlots;
use crate::common::{view_values, Address, CallContext, Error, follows, fits_u64};

verus! {

#[derive(Clone, Copy, PartialEq, Eq, Debug, Structural)]
pub enum KycLevel {
    NoLevel,
    /// Email and phone verified.
    Basic,
    /// Identity document verified.
    Standard,
    /// Full KYC with anti-money-laundering checks.
    Enhanced,
}

/// An account's KYC submission and its verification.
pub struct KycRecord {
    pub account: Address,
    pub level: KycLevel,
    /// Name of the provider the submission was made to.
    pub provider: String,
    pub document_hash: String,
    pub jurisdiction: String,
    pub verified: bool,
    pub submitted_at: u64,
    pub verified_at: Option<u64>,
    pub expires_at: Option<u64>,
    pub verifier: Option<Address>,
}

/// What a KYC record holds, with its texts as character sequences.
pub struct KycRecordView {
    pub account: Address,
    pub level: KycLevel,
    pub provider: Seq<char>,
    pub document_hash: Seq<char>,
    pub jurisdiction: Seq<char>,
    pub verified: bool,
    pub submitted_at: u64,
    pub verified_at: Option<u64>,
    pub expires_at: Option<u64>,
    pub verifier: Option<Address>,
}

impl View for KycRecord {
    type V = KycRecordView;

    open spec fn view(&self) -> KycRecordView {
        KycRecordView {
            account: self.account,
            level: self.level,
            provider: self.provider@,
            document_hash: self.document_hash@,
            jurisdiction: self.jurisdiction@,
            verified: self.verified,
            submitted_at: self.submitted_at,
            verified_at: self.verified_at,
            expires_at: self.expires_at,
            verifier: self.verifier,
        }
    }
}

impl Clone for KycRecord {
    fn clone(&self) -> (r: Self)
        ensures
            r@ == self@,
    {
        KycRecord {
            account: self.account,
            level: self.level,
            provider: self.provider.clone(),
            document_hash: self.document_hash.clone(),
            jurisdiction: self.jurisdiction.clone(),
            verified: self.verified,
            submitted_at: self.submitted_at,
            verified_at: self.verified_at,
            expires_at: self.expires_at,
            verifier: self.verifier,
        }
    }
}

/// A registered KYC provider.
pub struct KycProvider {
    pub provider_address: Address,
    pub name: String,
    pub is_active: bool,
    pub total_verifications: u64,
}

/// What a provider entry holds, with its name as a character sequence.
pub struct KycProviderView {
    pub provider_address: Address,
    pub name: Seq<char>,
    pub is_active: bool,
    pub total_verifications: u64,
}

impl View for KycProvider {
    type V = KycProviderView;

    open spec fn view(&self) -> KycProviderView {
        KycProviderView {
            provider_address: self.provider_address,
            name: self.name@,
            is_active: self.is_active,
            total_verifications: self.total_verifications,
        }
    }
}

/// The contract's stored state.
pub struct KycState {
    pub admin: AdminSlots,
    pub records: Map<u64, KycRecordView>,
    pub providers: Map<u64, KycProviderView>,
}

impl KycState {
    pub open spec fn initialize(self, ctx: &CallContext, admin: Address) -> Result<KycState, Error> {
        if self.admin.admin is Some {
            Err(Error::AlreadyInitialized)
        } else if !ctx.authorizes(admin) {
            Err(Error::AuthRequired)
        } else {
            Ok(KycState { admin: AdminSlots { admin: Some(admin), pending: self.admin.pending }, ..self })
        }
    }

    pub open spec fn register_provider(self, ctx: &CallContext, admin: Address, provider: Address, name: String) -> Result<KycState, Error> {
        if self.admin.admin_check(ctx, admin) is Err {
            Err(self.admin.admin_check(ctx, admin)->Err_0)
        } else {
            Ok(KycState {
                providers: self.providers.insert(provider.id, KycProviderView {
                    provider_address: provider,
                    name: name@,
                    is_active: true,
                    total_verifications: 0,
                }),
                ..self
            })
        }
    }

    pub open spec fn submit_kyc(
        self,
        ctx: &CallContext,
        account: Address,
        provider: Address,
        level: KycLevel,
        document_hash: String,
        jurisdiction: String,
    ) -> Result<KycState, Error> {
        let p = self.providers[provider.id];
        if !ctx.authorizes(account) {
            Err(Error::AuthRequired)
        } else if !self.providers.contains_key(provider.id) {
            Err(Error::ProviderNotRegistered)
        } else if !p.is_active {
            Err(Error::ProviderNotActive)
        } else {
            Ok(KycState {
                records: self.records.insert(account.id, KycRecordView {
                    account,
                    level,
                    provider: p.name,
                    document_hash: document_hash@,
                    jurisdiction: jurisdiction@,
                    verified: false,
                    submitted_at: ctx.timestamp,
                    verified_at: None,
                    expires_at: None,
                    verifier: None,
                }),
                ..self
            })
        }
    }

    pub open spec fn verify_kyc(self, ctx: &CallContext, provider: Address, account: Address, expires_in_secs: Option<u64>) -> Result<KycState, Error> {
        let p = self.providers[provider.id];
        let rec = self.records[account.id];
        let now = ctx.timestamp;
        if !ctx.authorizes(provider) {
            Err(Error::AuthRequired)
        } else if !self.providers.contains_key(provider.id) {
            Err(Error::ProviderNotFound)
        } else if !p.is_active {
            Err(Error::ProviderNotActive)
        } else if !self.records.contains_key(account.id) {
            Err(Error::KycNotSubmitted)
        } else if rec.provider != p.name {
            Err(Error::ProviderMismatch)
        } else if expires_in_secs matches Some(d) && !fits_u64(now + d) {
            Err(Error::Overflow)
        } else if !fits_u64(p.total_verifications + 1) {
            Err(Error::Overflow)
        } else {
            Ok(KycState {
                records: self.records.insert(account.id, KycRecordView {
                    verified: true,
                    verified_at: Some(now),
                    expires_at: match expires_in_secs {
                        Some(d) => Some((now + d) as u64),
                        None => None,
                    },
                    verifier: Some(provider),
                    ..rec
                }),
                providers: self.providers.insert(provider.id, KycProviderView {
                    total_verifications: (p.total_verifications + 1) as u64,
                    ..p
                }),
                ..self
            })
        }
    }

    pub open spec fn revoke_kyc(self, ctx: &CallContext, admin: Address, account: Address) -> Result<KycState, Error> {
        if self.admin.admin_check(ctx, admin) is Err {
            Err(self.admin.admin_check(ctx, admin)->Err_0)
        } else if !self.records.contains_key(account.id) {
            Err(Error::KycNotFound)
        } else {
            Ok(KycState {
                records: self.records.insert(account.id, KycRecordView { verified: false, ..self.records[account.id] }),
                ..self
            })
        }
    }

    /// Whether the account's KYC is verified and not expired at `now`.
    pub open spec fn is_kyc_valid(self, now: u64, account: Address) -> bool {
        let rec = self.records[account.id];
        &&& self.records.contains_key(account.id)
        &&& rec.verified
        &&& match rec.expires_at {
            Some(t) => t > now,
            None => true,
        }
    }

    /// The verified KYC level of the account, `NoLevel` when unverified.
    pub open spec fn kyc_level(self, account: Address) -> KycLevel {
        if self.records.contains_key(account.id) && self.records[account.id].verified {
            self.records[account.id].level
        } else {
            KycLevel::NoLevel
        }
    }

    pub open spec fn propose_admin(self, ctx: &CallContext, current_admin: Address, new_admin: Address) -> Result<KycState, Error> {
        match self.admin.after_propose(ctx, current_admin, new_admin) {
            Ok(a) => Ok(KycState { admin: a, ..self }),
            Err(e) => Err(e),
        }
    }

    pub open spec fn accept_admin(self, ctx: &CallContext, new_admin: Address) -> Result<KycState, Error> {
        match self.admin.after_accept(ctx, new_admin) {
            Ok(a) => Ok(KycState { admin: a, ..self }),
            Err(e) => Err(e),
        }
    }

    /// Every verified record names the provider that verified it and when.
    pub open spec fn verifications_attributed(self) -> bool {
        forall|a: u64| #[trigger] self.records.contains_key(a) && self.records[a].verified ==> {
            &&& self.records[a].verifier is Some
            &&& self.records[a].verified_at is Some
        }
    }
}

/// The KYC registry contract.
pub struct KycRegistryContract {
    admin: AdminSlots,
    records: HashMap<u64, KycRecord>,
    providers: HashMap<u64, KycProvider>,
}

impl View for KycRegistryContract {
    type V = KycState;

    closed spec fn view(&self) -> KycState {
        KycState { admin: self.admin, records: view_values(self.records@), providers: view_values(self.providers@) }
    }
}

impl KycRegistryContract {
    /// An empty, uninitialized contract.
    pub fn new() -> (c: KycRegistryContract)
        ensures
            c@.admin == AdminSlots::new_spec(),
            c@.records == Map::<u64, KycRecordView>::empty(),
            c@.providers == Map::<u64, KycProviderView>::empty(),
    {
        let c = KycRegistryContract { admin: AdminSlots::new(), records: HashMap::new(), providers: HashMap::new() };
        proof {
            assert(view_values(c.records@) =~= Map::<u64, KycRecordView>::empty());
            assert(view_values(c.providers@) =~= Map::<u64, KycProviderView>::empty());
        }
        c
    }

    pub fn initialize(&mut self, ctx: &CallContext, admin: Address) -> (r: Result<(), Error>)
        ensures
            follows(old(self)@.initialize(ctx, admin), r, old(self)@, final(self)@),
    {
        if self.admin.admin.is_some() {
            return Err(Error::AlreadyInitialized);
        }
        match ctx.require_auth(admin) {
            Ok(()) => {},
            Err(e) => return Err(e),
        }
        self.admin.admin = Some(admin);
        Ok(())
    }

    pub fn register_provider(&mut self, ctx: &CallContext, admin: Address, provider: Address, name: String) -> (r: Result<(), Error>)
        ensures
            follows(old(self)@.register_provider(ctx, admin, provider, name), r, old(self)@, final(self)@),
    {
        match self.admin.require_admin(ctx, admin) {
            Ok(()) => {},
            Err(e) => return Err(e),
        }
        let entry = KycProvider { provider_address: provider, name, is_active: true, total_verifications: 0 };
        let ghost old_map = self.providers@;
        let ghost v = entry@;
        self.providers.insert(provider.id, entry);
        proof {
            assert(view_values(self.providers@) =~= view_values(old_map).insert(provider.id, v));
        }
        Ok(())
    }

    pub fn submit_kyc(
        &mut self,
        ctx: &CallContext,
        account: Address,
        provider: Address,
        level: KycLevel,
        document_hash: String,
        jurisdiction: String,
    ) -> (r: Result<(), Error>)
        ensures
            follows(old(self)@.submit_kyc(ctx, account, provider, level, document_hash, jurisdiction), r, old(self)@, final(self)@),
    {
        match ctx.require_auth(account) {
            Ok(()) => {},
            Err(e) => return Err(e),
        }
        let provider_name = match self.providers.get(&provider.id) {
            None => return Err(Error::ProviderNotRegistered),
            Some(p) => {
                if !p.is_active {
                    return Err(Error::ProviderNotActive);
                }
                p.name.clone()
            },
        };
        let record = KycRecord {
            account,
            level,
            provider: provider_name,
            document_hash,
            jurisdiction,
            verified: false,
            submitted_at: ctx.timestamp,
            verified_at: None,
            expires_at: None,
            verifier: None,
        };
        let ghost old_map = self.records@;
        let ghost v = record@;
        self.records.insert(account.id, record);
        proof {
            assert(view_values(self.records@) =~= view_values(old_map).insert(account.id, v));
        }
        Ok(())
    }

    pub fn verify_kyc(&mut self, ctx: &CallContext, provider: Address, account: Address, expires_in_secs: Option<u64>) -> (r: Result<(), Error>)
        ensures
            follows(old(self)@.verify_kyc(ctx, provider, account, expires_in_secs), r, old(self)@, final(self)@),
    {
        match ctx.require_auth(provider) {
            Ok(()) => {},
            Err(e) => return Err(e),
        }
        let next_total = match self.providers.get(&provider.id) {
            None => return Err(Error::ProviderNotFound),
            Some(p) => {
                if !p.is_active {
                    return Err(Error::ProviderNotActive);
                }
                match self.records.get(&account.id) {
                    None => return Err(Error::KycNotSubmitted),
                    Some(rec) => {
                        if rec.provider != p.name {
                            return Err(Error::ProviderMismatch);
                        }
                    },
                }
                p.total_verifications.checked_add(1)
            },
        };
        let now = ctx.timestamp;
        let expires_at = match expires_in_secs {
            Some(d) => match now.checked_add(d) {
                Some(t) => Some(t),
                None => return Err(Error::Overflow),
            },
            None => None,
        };
        let next_total = match next_total {
            Some(v) => v,
            None => return Err(Error::Overflow),
        };
        let ghost old_records = self.records@;
        let ghost old_providers = self.providers@;
        let mut rec = self.records.remove(&account.id).unwrap();
        rec.verified = true;
        rec.verified_at = Some(now);
        rec.expires_at = expires_at;
        rec.verifier = Some(provider);
        let ghost rv = rec@;
        self.records.insert(account.id, rec);
        let mut p = self.providers.remove(&provider.id).unwrap();
        p.total_verifications = next_total;
        let ghost pv = p@;
        self.providers.insert(provider.id, p);
        proof {
            assert(view_values(self.records@) =~= view_values(old_records).insert(account.id, rv));
            assert(view_values(self.providers@) =~= view_values(old_providers).insert(provider.id, pv));
        }
        Ok(())
    }

    pub fn revoke_kyc(&mut self, ctx: &CallContext, admin: Address, account: Address) -> (r: Result<(), Error>)
        ensures
            follows(old(self)@.revoke_kyc(ctx, admin, account), r, old(self)@, final(self)@),
    {
        match self.admin.require_admin(ctx, admin) {
            Ok(()) => {},
            Err(e) => return Err(e),
        }
        if !self.records.contains_key(&account.id) {
            return Err(Error::KycNotFound);
        }
        let ghost old_records = self.records@;
        let mut rec = self.records.remove(&account.id).unwrap();
        rec.verified = false;
        let ghost rv = rec@;
        self.records.insert(account.id, rec);
        proof {
            assert(view_values(self.records@) =~= view_values(old_records).insert(account.id, rv));
        }
        Ok(())
    }

    /// Whether the account's KYC is verified and unexpired at the context's time.
    pub fn is_kyc_valid(&self, ctx: &CallContext, account: Address) -> (r: bool)
        ensures
            r == self@.is_kyc_valid(ctx.timestamp, account),
    {
        match self.records.get(&account.id) {
            None => false,
            Some(rec) => {
                if !rec.verified {
                    return false;
                }
                match rec.expires_at {
                    Some(t) => t > ctx.timestamp,
                    None => true,
                }
            },
        }
    }

    pub fn get_kyc_record(&self, account: Address) -> (r: Option<KycRecord>)
        ensures
            r is Some <==> self@.records.contains_key(account.id),
            r matches Some(rec) ==> rec@ == self@.records[account.id],
    {
        match self.records.get(&account.id) {
            Some(rec) => Some(rec.clone()),
            None => None,
        }
    }

    pub fn get_kyc_level(&self, account: Address) -> (r: KycLevel)
        ensures
            r == self@.kyc_level(account),
    {
        match self.records.get(&account.id) {
            Some(rec) => if rec.verified { rec.level } else { KycLevel::NoLevel },
            None => KycLevel::NoLevel,
        }
    }

    pub fn propose_admin(&mut self, ctx: &CallContext, current_admin: Address, new_admin: Address) -> (r: Result<(), Error>)
        ensures
            follows(old(self)@.propose_admin(ctx, current_admin, new_admin), r, old(self)@, final(self)@),
    {
        self.admin.propose(ctx, current_admin, new_admin)
    }

    pub fn accept_admin(&mut self, ctx: &CallContext, new_admin: Address) -> (r: Result<(), Error>)
        ensures
            follows(old(self)@.accept_admin(ctx, new_admin), r, old(self)@, final(self)@),
    {
        self.admin.accept(ctx, new_admin)
    }
}

/// The life of a KYC record: a submission is not valid; once its provider
/// verifies it without expiry it is valid at every time, at the submitted
/// level; once the administrator revokes it, it is no longer valid.
pub proof fn lemma_kyc_lifecycle(
    s: KycState,
    c1: &CallContext,
    c2: &CallContext,
    c3: &CallContext,
    account: Address,
    provider: Address,
    admin: Address,
    level: KycLevel,
    doc: String,
    juris: String,
    now: u64,
)
    requires
        s.submit_kyc(c1, account, provider, level, doc, juris) is Ok,
        s.submit_kyc(c1, account, provider, level, doc, juris).unwrap().verify_kyc(c2, provider, account, None) is Ok,
        s.admin.admin == Some(admin),
        c3.authorizes(admin),
    ensures
        ({
            let s1 = s.submit_kyc(c1, account, provider, level, doc, juris).unwrap();
            let s2 = s1.verify_kyc(c2, provider, account, None).unwrap();
            &&& !s1.is_kyc_valid(now, account)
            &&& s2.is_kyc_valid(now, account)
            &&& s2.kyc_level(account) == level
            &&& s2.revoke_kyc(c3, admin, account) is Ok
            &&& !s2.revoke_kyc(c3, admin, account).unwrap().is_kyc_valid(now, account)
            &&& s2.revoke_kyc(c3, admin, account).unwrap().kyc_level(account) == KycLevel::NoLevel
        }),
{
}

/// A verification that expires `d` seconds after it is made is valid
/// strictly before that time and invalid from then on.
pub proof fn lemma_kyc_expiry(s: KycState, ctx: &CallContext, provider: Address, account: Address, d: u64, now: u64)
    requires
        s.verify_kyc(ctx, provider, account, Some(d)) is Ok,
    ensures
        s.verify_kyc(ctx, provider, account, Some(d)).unwrap().is_kyc_valid(now, account) <==> now < ctx.timestamp + d,
{
}

/// Every operation keeps each verified record attributed to a verifier and
/// a verification time.
pub proof fn lemma_verifications_attributed_preserved(
    s: KycState,
    ctx: &CallContext,
    who: Address,
    account: Address,
    level: KycLevel,
    text: String,
    other: String,
    exp: Option<u64>,
)
    requires
        s.verifications_attributed(),
    ensures
        s.initialize(ctx, who) matches Ok(n) ==> n.verifications_attributed(),
        s.register_provider(ctx, who, account, text) matches Ok(n) ==> n.verifications_attributed(),
        s.submit_kyc(ctx, account, who, level, text, other) matches Ok(n) ==> n.verifications_attributed(),
        s.verify_kyc(ctx, who, account, exp) matches Ok(n) ==> n.verifications_attributed(),
        s.revoke_kyc(ctx, who, account) matches Ok(n) ==> n.verifications_attributed(),
        s.propose_admin(ctx, who, account) matches Ok(n) ==> n.verifications_attributed(),
        s.accept_admin(ctx, who) matches Ok(n) ==> n.verifications_attributed(),
{
}

} // verus!
