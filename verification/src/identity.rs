//! Identity registry: accounts register a typed identity under a unique
//! display name; the administrator verifies (subject to a KYC registry when
//! one is configured) or suspends them.

use std::collections::HashMap;
use vstd::prelude::*;
use crate::admin::AdminSlots;
use crate::common::{view_values, lookup, Address, CallContext, Error, follows, fits_u64};

verus! {

#[derive(Clone, Copy, PartialEq, Eq, Debug, Structural)]
pub enum IdentityStatus {
    Unverified,
    Pending,
    Verified,
    Suspended,
    Revoked,
}

#[derive(Clone, Copy, PartialEq, Eq, Debug, Structural)]
pub enum IdentityType {
    Advertiser,
    Publisher,
    DataProvider,
    Operator,
}

/// A registered identity.
pub struct Identity {
    pub account: Address,
    pub identity_type: IdentityType,
    pub status: IdentityStatus,
    pub display_name: String,
    /// Content hash of the extended metadata.
    pub metadata_hash: String,
    /// Hash of the verified credentials.
    pub credentials_hash: String,
    pub registered_at: u64,
    pub verified_at: Option<u64>,
    pub last_activity: u64,
}

/// What an identity holds, with its texts as character sequences.
pub struct IdentityView {
    pub account: Address,
    pub identity_type: IdentityType,
    pub status: IdentityStatus,
    pub display_name: Seq<char>,
    pub metadata_hash: Seq<char>,
    pub credentials_hash: Seq<char>,
    pub registered_at: u64,
    pub verified_at: Option<u64>,
    pub last_activity: u64,
}

impl View for Identity {
    type V = IdentityView;

    open spec fn view(&self) -> IdentityView {
        IdentityView {
            account: self.account,
            identity_type: self.identity_type,
            status: self.status,
            display_name: self.display_name@,
            metadata_hash: self.metadata_hash@,
            credentials_hash: self.credentials_hash@,
            registered_at: self.registered_at,
            verified_at: self.verified_at,
            last_activity: self.last_activity,
        }
    }
}

impl Clone for Identity {
    fn clone(&self) -> (r: Self)
        ensures
            r@ == self@,
    {
        Identity {
            account: self.account,
            identity_type: self.identity_type,
            status: self.status,
            display_name: self.display_name.clone(),
            metadata_hash: self.metadata_hash.clone(),
            credentials_hash: self.credentials_hash.clone(),
            registered_at: self.registered_at,
            verified_at: self.verified_at,
            last_activity: self.last_activity,
        }
    }
}

/// The owners of display names: each name belongs to at most one account.
pub struct NameOwners {
    entries: Vec<(String, Address)>,
    owners: Ghost<Map<Seq<char>, Address>>,
    /// Where in `entries` each owned name stands.
    positions: Ghost<Map<Seq<char>, int>>,
}

impl View for NameOwners {
    type V = Map<Seq<char>, Address>;

    closed spec fn view(&self) -> Map<Seq<char>, Address> {
        self.owners@
    }
}

impl NameOwners {
    #[verifier::type_invariant]
    closed spec fn entries_match(&self) -> bool {
        &&& forall|i: int| 0 <= i < self.entries@.len() ==> {
            &&& #[trigger] self.owners@.contains_key(self.entries@[i].0@)
            &&& self.owners@[self.entries@[i].0@] == self.entries@[i].1
        }
        &&& self.positions@.dom() == self.owners@.dom()
        &&& forall|k: Seq<char>| #[trigger] self.owners@.contains_key(k) ==> {
            let p = self.positions@[k];
            &&& 0 <= p < self.entries@.len()
            &&& self.entries@[p].0@ == k
        }
    }

    /// No name has an owner.
    pub fn new() -> (t: NameOwners)
        ensures
            t@ == Map::<Seq<char>, Address>::empty(),
    {
        NameOwners { entries: Vec::new(), owners: Ghost(Map::empty()), positions: Ghost(Map::empty()) }
    }

    /// The owner of `name`, if any.
    pub fn get(&self, name: &String) -> (r: Option<Address>)
        ensures
            r == lookup(self@, name@),
    {
        proof {
            use_type_invariant(self);
        }
        let n = self.entries.len();
        for i in 0..n
            invariant
                n == self.entries@.len(),
                forall|j: int| 0 <= j < i ==> self.entries@[j].0@ != name@,
        {
            if self.entries[i].0 == *name {
                proof {
                    use_type_invariant(self);
                    assert(self.owners@.contains_key(self.entries@[i as int].0@));
                }
                return Some(self.entries[i].1);
            }
        }
        proof {
            if self.owners@.contains_key(name@) {
                let p = self.positions@[name@];
                assert(self.entries@[p].0@ == name@);
            }
        }
        None
    }

    /// Gives the unowned `name` to `owner`.
    pub fn insert_new(&mut self, name: String, owner: Address)
        requires
            !old(self)@.contains_key(name@),
        ensures
            final(self)@ == old(self)@.insert(name@, owner),
    {
        let mut taken = NameOwners::new();
        std::mem::swap(&mut taken, self);
        proof {
            use_type_invariant(&taken);
        }
        let ghost key = name@;
        let ghost old_entries = taken.entries@;
        let ghost old_owners = taken.owners@;
        let ghost old_positions = taken.positions@;
        let NameOwners { mut entries, owners, positions } = taken;
        entries.push((name, owner));
        let ghost new_owners = owners@.insert(key, owner);
        let ghost new_positions = positions@.insert(key, old_entries.len() as int);
        proof {
            assert forall|i: int| 0 <= i < entries@.len() implies {
                &&& #[trigger] new_owners.contains_key(entries@[i].0@)
                &&& new_owners[entries@[i].0@] == entries@[i].1
            } by {
                if i < old_entries.len() {
                    assert(entries@[i] == old_entries[i]);
                    assert(old_owners.contains_key(old_entries[i].0@));
                }
            }
            assert forall|k: Seq<char>| #[trigger] new_owners.contains_key(k) implies {
                let p = new_positions[k];
                &&& 0 <= p < entries@.len()
                &&& entries@[p].0@ == k
            } by {
                if k != key {
                    assert(old_owners.contains_key(k));
                    assert(entries@[old_positions[k]] == old_entries[old_positions[k]]);
                }
            }
            assert(new_positions.dom() =~= new_owners.dom());
        }
        *self = NameOwners { entries, owners: Ghost(new_owners), positions: Ghost(new_positions) };
    }
}

/// The contract's stored state.
pub struct IdentityState {
    pub admin: AdminSlots,
    pub identity_count: Option<u64>,
    pub kyc_registry: Option<Address>,
    pub identities: Map<u64, IdentityView>,
    pub name_owners: Map<Seq<char>, Address>,
}

impl IdentityState {
    pub open spec fn count(self) -> u64 {
        match self.identity_count {
            Some(c) => c,
            None => 0,
        }
    }

    pub open spec fn initialize(self, ctx: &CallContext, admin: Address) -> Result<IdentityState, Error> {
        if self.admin.admin is Some {
            Err(Error::AlreadyInitialized)
        } else if !ctx.authorizes(admin) {
            Err(Error::AuthRequired)
        } else {
            Ok(IdentityState {
                admin: AdminSlots { admin: Some(admin), pending: self.admin.pending },
                identity_count: Some(0),
                ..self
            })
        }
    }

    pub open spec fn register(
        self,
        ctx: &CallContext,
        account: Address,
        identity_type: IdentityType,
        display_name: String,
        metadata_hash: String,
    ) -> Result<IdentityState, Error> {
        if !ctx.authorizes(account) {
            Err(Error::AuthRequired)
        } else if self.identities.contains_key(account.id) {
            Err(Error::AlreadyRegistered)
        } else if self.name_owners.contains_key(display_name@) {
            Err(Error::NameTaken)
        } else if !fits_u64(self.count() + 1) {
            Err(Error::Overflow)
        } else {
            Ok(IdentityState {
                identities: self.identities.insert(account.id, IdentityView {
                    account,
                    identity_type,
                    status: IdentityStatus::Pending,
                    display_name: display_name@,
                    metadata_hash: metadata_hash@,
                    credentials_hash: Seq::empty(),
                    registered_at: ctx.timestamp,
                    verified_at: None,
                    last_activity: ctx.timestamp,
                }),
                name_owners: self.name_owners.insert(display_name@, account),
                identity_count: Some((self.count() + 1) as u64),
                ..self
            })
        }
    }

    pub open spec fn set_kyc_registry(self, ctx: &CallContext, admin: Address, kyc_registry: Address) -> Result<IdentityState, Error> {
        if self.admin.admin_check(ctx, admin) is Err {
            Err(self.admin.admin_check(ctx, admin)->Err_0)
        } else {
            Ok(IdentityState { kyc_registry: Some(kyc_registry), ..self })
        }
    }

    /// `kyc_valid` is the configured KYC registry's answer for `account`.
    pub open spec fn verify_identity(
        self,
        ctx: &CallContext,
        admin: Address,
        account: Address,
        credentials_hash: String,
        kyc_valid: bool,
    ) -> Result<IdentityState, Error> {
        let i = self.identities[account.id];
        if self.admin.admin_check(ctx, admin) is Err {
            Err(self.admin.admin_check(ctx, admin)->Err_0)
        } else if !self.identities.contains_key(account.id) {
            Err(Error::IdentityNotFound)
        } else if self.kyc_registry is Some && !kyc_valid {
            Err(Error::KycVerificationRequired)
        } else {
            Ok(IdentityState {
                identities: self.identities.insert(account.id, IdentityView {
                    status: IdentityStatus::Verified,
                    credentials_hash: credentials_hash@,
                    verified_at: Some(ctx.timestamp),
                    ..i
                }),
                ..self
            })
        }
    }

    /// Whether verifying `account` gets as far as the KYC registry.
    pub open spec fn needs_kyc_answer(self, ctx: &CallContext, admin: Address, account: Address) -> bool {
        &&& self.admin.admin_check(ctx, admin) is Ok
        &&& self.identities.contains_key(account.id)
        &&& self.kyc_registry is Some
    }

    pub open spec fn update_metadata(self, ctx: &CallContext, account: Address, metadata_hash: String) -> Result<IdentityState, Error> {
        let i = self.identities[account.id];
        if !ctx.authorizes(account) {
            Err(Error::AuthRequired)
        } else if !self.identities.contains_key(account.id) {
            Err(Error::IdentityNotFound)
        } else {
            Ok(IdentityState {
                identities: self.identities.insert(account.id, IdentityView { metadata_hash: metadata_hash@, last_activity: ctx.timestamp, ..i }),
                ..self
            })
        }
    }

    pub open spec fn suspend_identity(self, ctx: &CallContext, admin: Address, account: Address) -> Result<IdentityState, Error> {
        let i = self.identities[account.id];
        if self.admin.admin_check(ctx, admin) is Err {
            Err(self.admin.admin_check(ctx, admin)->Err_0)
        } else if !self.identities.contains_key(account.id) {
            Err(Error::IdentityNotFound)
        } else {
            Ok(IdentityState {
                identities: self.identities.insert(account.id, IdentityView { status: IdentityStatus::Suspended, ..i }),
                ..self
            })
        }
    }

    pub open spec fn is_verified(self, account: Address) -> bool {
        self.identities.contains_key(account.id) && self.identities[account.id].status == IdentityStatus::Verified
    }

    pub open spec fn propose_admin(self, ctx: &CallContext, current_admin: Address, new_admin: Address) -> Result<IdentityState, Error> {
        match self.admin.after_propose(ctx, current_admin, new_admin) {
            Ok(a) => Ok(IdentityState { admin: a, ..self }),
            Err(e) => Err(e),
        }
    }

    pub open spec fn accept_admin(self, ctx: &CallContext, new_admin: Address) -> Result<IdentityState, Error> {
        match self.admin.after_accept(ctx, new_admin) {
            Ok(a) => Ok(IdentityState { admin: a, ..self }),
            Err(e) => Err(e),
        }
    }

    /// Names and identities agree: every name is owned by a registered
    /// account whose display name it is, and every registered identity is
    /// filed under its own account.
    pub open spec fn names_consistent(self) -> bool {
        &&& forall|n: Seq<char>| #[trigger] self.name_owners.contains_key(n) ==> {
            let a = self.name_owners[n];
            &&& self.identities.contains_key(a.id)
            &&& self.identities[a.id].display_name == n
        }
        &&& forall|id: u64| #[trigger] self.identities.contains_key(id) ==> {
            &&& self.identities[id].account.id == id
            &&& self.name_owners.contains_key(self.identities[id].display_name)
            &&& self.name_owners[self.identities[id].display_name] == self.identities[id].account
        }
    }
}

/// The identity registry contract.
pub struct IdentityRegistryContract {
    admin: AdminSlots,
    identity_count: Option<u64>,
    kyc_registry: Option<Address>,
    identities: HashMap<u64, Identity>,
    name_owners: NameOwners,
}

impl View for IdentityRegistryContract {
    type V = IdentityState;

    closed spec fn view(&self) -> IdentityState {
        IdentityState {
            admin: self.admin,
            identity_count: self.identity_count,
            kyc_registry: self.kyc_registry,
            identities: view_values(self.identities@),
            name_owners: self.name_owners@,
        }
    }
}

impl IdentityRegistryContract {
    /// An empty, uninitialized contract.
    pub fn new() -> (c: IdentityRegistryContract)
        ensures
            c@.admin == AdminSlots::new_spec(),
            c@.identity_count is None,
            c@.kyc_registry is None,
            c@.identities == Map::<u64, IdentityView>::empty(),
            c@.name_owners == Map::<Seq<char>, Address>::empty(),
    {
        IdentityRegistryContract {
            admin: AdminSlots::new(),
            identity_count: None,
            kyc_registry: None,
            identities: HashMap::new(),
            name_owners: NameOwners::new(),
        }
    }

    pub fn initialize(&mut self, ctx: &CallContext, admin: Address) -> (r: Result<(), Error>)
        ensures
            follows(old(self)@.initialize(ctx, admin), r, old(self)@, final(self)@),
    {
        if self.admin.admin.is_some() {
            return Err(Error::AlreadyInitialized);
        }
        match ctx.require_auth(admin) {
            Ok(()) => {},
            Err(e) => return Err(e),
        }
        self.admin.admin = Some(admin);
        self.identity_count = Some(0);
        Ok(())
    }

    pub fn register(
        &mut self,
        ctx: &CallContext,
        account: Address,
        identity_type: IdentityType,
        display_name: String,
        metadata_hash: String,
    ) -> (r: Result<(), Error>)
        ensures
            follows(old(self)@.register(ctx, account, identity_type, display_name, metadata_hash), r, old(self)@, final(self)@),
    {
        match ctx.require_auth(account) {
            Ok(()) => {},
            Err(e) => return Err(e),
        }
        if self.identities.contains_key(&account.id) {
            return Err(Error::AlreadyRegistered);
        }
        if self.name_owners.get(&display_name).is_some() {
            return Err(Error::NameTaken);
        }
        let count = match self.identity_count {
            Some(c) => c,
            None => 0,
        };
        let next = match count.checked_add(1) {
            Some(v) => v,
            None => return Err(Error::Overflow),
        };
        let empty = String::new();
        let identity = Identity {
            account,
            identity_type,
            status: IdentityStatus::Pending,
            display_name: display_name.clone(),
            metadata_hash,
            credentials_hash: empty,
            registered_at: ctx.timestamp,
            verified_at: None,
            last_activity: ctx.timestamp,
        };
        let ghost old_ids = self.identities@;
        let ghost v = identity@;
        self.identities.insert(account.id, identity);
        proof {
            assert(view_values(self.identities@) =~= view_values(old_ids).insert(account.id, v));
        }
        self.name_owners.insert_new(display_name, account);
        self.identity_count = Some(next);
        Ok(())
    }

    pub fn set_kyc_registry(&mut self, ctx: &CallContext, admin: Address, kyc_registry: Address) -> (r: Result<(), Error>)
        ensures
            follows(old(self)@.set_kyc_registry(ctx, admin, kyc_registry), r, old(self)@, final(self)@),
    {
        match self.admin.require_admin(ctx, admin) {
            Ok(()) => {},
            Err(e) => return Err(e),
        }
        self.kyc_registry = Some(kyc_registry);
        Ok(())
    }

    /// The KYC registry that verifications must consult, if one is configured.
    pub fn kyc_registry(&self) -> (r: Option<Address>)
        ensures
            r == self@.kyc_registry,
    {
        self.kyc_registry
    }

    /// Whether verifying `account` would come to consult the KYC registry:
    /// the caller is the authorized administrator, the identity exists and
    /// a registry is configured. Only then does `verify_identity` look at
    /// the registry's answer.
    pub fn needs_kyc_answer(&self, ctx: &CallContext, admin: Address, account: Address) -> (r: bool)
        ensures
            r == self@.needs_kyc_answer(ctx, admin, account),
    {
        match self.admin.require_admin(ctx, admin) {
            Ok(()) => {},
            Err(_) => return false,
        }
        self.identities.contains_key(&account.id) && self.kyc_registry.is_some()
    }

    /// Marks the identity verified. `kyc_valid` is what the configured KYC
    /// registry answers for `account`; it is not looked at when no registry
    /// is configured.
    pub fn verify_identity(
        &mut self,
        ctx: &CallContext,
        admin: Address,
        account: Address,
        credentials_hash: String,
        kyc_valid: bool,
    ) -> (r: Result<(), Error>)
        ensures
            follows(old(self)@.verify_identity(ctx, admin, account, credentials_hash, kyc_valid), r, old(self)@, final(self)@),
    {
        match self.admin.require_admin(ctx, admin) {
            Ok(()) => {},
            Err(e) => return Err(e),
        }
        if !self.identities.contains_key(&account.id) {
            return Err(Error::IdentityNotFound);
        }
        if self.kyc_registry.is_some() && !kyc_valid {
            return Err(Error::KycVerificationRequired);
        }
        let ghost old_ids = self.identities@;
        let mut i = self.identities.remove(&account.id).unwrap();
        i.status = IdentityStatus::Verified;
        i.credentials_hash = credentials_hash;
        i.verified_at = Some(ctx.timestamp);
        let ghost v = i@;
        self.identities.insert(account.id, i);
        proof {
            assert(view_values(self.identities@) =~= view_values(old_ids).insert(account.id, v));
        }
        Ok(())
    }

    pub fn update_metadata(&mut self, ctx: &CallContext, account: Address, metadata_hash: String) -> (r: Result<(), Error>)
        ensures
            follows(old(self)@.update_metadata(ctx, account, metadata_hash), r, old(self)@, final(self)@),
    {
        match ctx.require_auth(account) {
            Ok(()) => {},
            Err(e) => return Err(e),
        }
        if !self.identities.contains_key(&account.id) {
            return Err(Error::IdentityNotFound);
        }
        let ghost old_ids = self.identities@;
        let mut i = self.identities.remove(&account.id).unwrap();
        i.metadata_hash = metadata_hash;
        i.last_activity = ctx.timestamp;
        let ghost v = i@;
        self.identities.insert(account.id, i);
        proof {
            assert(view_values(self.identities@) =~= view_values(old_ids).insert(account.id, v));
        }
        Ok(())
    }

    pub fn suspend_identity(&mut self, ctx: &CallContext, admin: Address, account: Address) -> (r: Result<(), Error>)
        ensures
            follows(old(self)@.suspend_identity(ctx, admin, account), r, old(self)@, final(self)@),
    {
        match self.admin.require_admin(ctx, admin) {
            Ok(()) => {},
            Err(e) => return Err(e),
        }
        if !self.identities.contains_key(&account.id) {
            return Err(Error::IdentityNotFound);
        }
        let ghost old_ids = self.identities@;
        let mut i = self.identities.remove(&account.id).unwrap();
        i.status = IdentityStatus::Suspended;
        let ghost v = i@;
        self.identities.insert(account.id, i);
        proof {
            assert(view_values(self.identities@) =~= view_values(old_ids).insert(account.id, v));
        }
        Ok(())
    }

    pub fn get_identity(&self, account: Address) -> (r: Option<Identity>)
        ensures
            r is Some <==> self@.identities.contains_key(account.id),
            r matches Some(i) ==> i@ == self@.identities[account.id],
    {
        match self.identities.get(&account.id) {
            Some(i) => Some(i.clone()),
            None => None,
        }
    }

    pub fn is_verified(&self, account: Address) -> (r: bool)
        ensures
            r == self@.is_verified(account),
    {
        match self.identities.get(&account.id) {
            Some(i) => i.status == IdentityStatus::Verified,
            None => false,
        }
    }

    pub fn get_by_name(&self, display_name: &String) -> (r: Option<Address>)
        ensures
            r == lookup(self@.name_owners, display_name@),
    {
        self.name_owners.get(display_name)
    }

    pub fn get_identity_count(&self) -> (r: u64)
        ensures
            r == self@.count(),
    {
        match self.identity_count {
            Some(c) => c,
            None => 0,
        }
    }

    pub fn propose_admin(&mut self, ctx: &CallContext, current_admin: Address, new_admin: Address) -> (r: Result<(), Error>)
        ensures
            follows(old(self)@.propose_admin(ctx, current_admin, new_admin), r, old(self)@, final(self)@),
    {
        self.admin.propose(ctx, current_admin, new_admin)
    }

    pub fn accept_admin(&mut self, ctx: &CallContext, new_admin: Address) -> (r: Result<(), Error>)
        ensures
            follows(old(self)@.accept_admin(ctx, new_admin), r, old(self)@, final(self)@),
    {
        self.admin.accept(ctx, new_admin)
    }
}

/// Every operation keeps display names and identities in agreement, so a
/// name is never owned by two accounts nor an account filed under two names.
pub proof fn lemma_names_consistent_preserved(
    s: IdentityState,
    ctx: &CallContext,
    who: Address,
    account: Address,
    t: IdentityType,
    name: String,
    text: String,
    flag: bool,
)
    requires
        s.names_consistent(),
    ensures
        s.initialize(ctx, who) matches Ok(n) ==> n.names_consistent(),
        s.register(ctx, account, t, name, text) matches Ok(n) ==> n.names_consistent(),
        s.set_kyc_registry(ctx, who, account) matches Ok(n) ==> n.names_consistent(),
        s.verify_identity(ctx, who, account, text, flag) matches Ok(n) ==> n.names_consistent(),
        s.update_metadata(ctx, account, text) matches Ok(n) ==> n.names_consistent(),
        s.suspend_identity(ctx, who, account) matches Ok(n) ==> n.names_consistent(),
        s.propose_admin(ctx, who, account) matches Ok(n) ==> n.names_consistent(),
        s.accept_admin(ctx, who) matches Ok(n) ==> n.names_consistent(),
{
    if let Ok(n) = s.register(ctx, account, t, name, text) {
        assert forall|k: Seq<char>| #[trigger] n.name_owners.contains_key(k) implies {
            let a = n.name_owners[k];
            &&& n.identities.contains_key(a.id)
            &&& n.identities[a.id].display_name == k
        } by {
            if k != name@ {
                let a = s.name_owners[k];
                assert(s.identities.contains_key(a.id));
                assert(a.id != account.id);
            }
        }
        assert forall|id: u64| #[trigger] n.identities.contains_key(id) implies {
            &&& n.identities[id].account.id == id
            &&& n.name_owners.contains_key(n.identities[id].display_name)
            &&& n.name_owners[n.identities[id].display_name] == n.identities[id].account
        } by {
            if id != account.id {
                assert(s.identities.contains_key(id));
                assert(s.identities[id].display_name != name@);
            }
        }
    }
    if let Ok(n) = s.verify_identity(ctx, who, account, text, flag) {
        assert forall|k: Seq<char>| #[trigger] n.name_owners.contains_key(k) implies {
            let a = n.name_owners[k];
            &&& n.identities.contains_key(a.id)
            &&& n.identities[a.id].display_name == k
        } by {
            let a = s.name_owners[k];
            assert(s.identities.contains_key(a.id));
        }
    }
    if let Ok(n) = s.update_metadata(ctx, account, text) {
        assert forall|k: Seq<char>| #[trigger] n.name_owners.contains_key(k) implies {
            let a = n.name_owners[k];
            &&& n.identities.contains_key(a.id)
            &&& n.identities[a.id].display_name == k
        } by {
            let a = s.name_owners[k];
            assert(s.identities.contains_key(a.id));
        }
    }
    if let Ok(n) = s.suspend_identity(ctx, who, account) {
        assert forall|k: Seq<char>| #[trigger] n.name_owners.contains_key(k) implies {
            let a = n.name_owners[k];
            &&& n.identities.contains_key(a.id)
            &&& n.identities[a.id].display_name == k
        } by {
            let a = s.name_owners[k];
            assert(s.identities.contains_key(a.id));
        }
    }
}

/// A registration files the identity as pending under its name, and the
/// name then resolves to the registering account.
pub proof fn lemma_register_then_lookup(s: IdentityState, ctx: &CallContext, account: Address, t: IdentityType, name: String, meta: String)
    requires
        s.register(ctx, account, t, name, meta) is Ok,
    ensures
        ({
            let n = s.register(ctx, account, t, name, meta).unwrap();
            &&& lookup(n.name_owners, name@) == Some(account)
            &&& n.identities[account.id].status == IdentityStatus::Pending
            &&& !n.is_verified(account)
            &&& n.count() == s.count() + 1
        }),
{
}

/// The KYC registry's answer matters only when verification gets as far as
/// the registry: otherwise the outcome is the same whatever it answers.
pub proof fn lemma_kyc_answer_only_when_needed(
    s: IdentityState,
    ctx: &CallContext,
    admin: Address,
    account: Address,
    credentials_hash: String,
)
    requires
        !s.needs_kyc_answer(ctx, admin, account),
    ensures
        s.verify_identity(ctx, admin, account, credentials_hash, true)
            == s.verify_identity(ctx, admin, account, credentials_hash, false),
{
}

} // verus!
