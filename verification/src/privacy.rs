//! Privacy layer: users' consent flags for data use, with optional
//! expiry, and zero-knowledge audience-segment proofs that the
//! administrator verifies.

use std::collections::HashMap;
use vstd::prelude::*;
use crate::admin::AdminSlots;
use crate::common::{follows, follows_with, lookup, fits_u64, Address, CallContext, Error};
use vstd::utf8::{encode_utf8, encode_scalar};

verus! {

/// A user's consent to the uses of their data.
#[derive(Clone, Copy, PartialEq, Eq, Debug)]
pub struct PrivacyConsent {
    pub user: Address,
    pub data_processing: bool,
    pub targeted_ads: bool,
    pub analytics: bool,
    pub third_party_sharing: bool,
    /// SHA-256 of the user's address encoding followed by the four flags.
    pub consent_hash: [u8; 32],
    pub consented_at: u64,
    pub expires_at: Option<u64>,
}

/// A zero-knowledge proof that the prover belongs to audience segments.
pub struct AnonymousSegmentProof {
    pub proof_id: [u8; 32],
    /// Comma-separated segment identifiers.
    pub segment_ids: String,
    pub prover: Address,
    /// Hash of the zero-knowledge proof.
    pub zkp_hash: [u8; 32],
    pub verified: bool,
    pub created_at: u64,
}

/// What a segment proof holds, with its texts and hashes as sequences.
pub struct SegmentProofView {
    pub proof_id: Seq<u8>,
    pub segment_ids: Seq<char>,
    pub prover: Address,
    pub zkp_hash: Seq<u8>,
    pub verified: bool,
    pub created_at: u64,
}

impl View for AnonymousSegmentProof {
    type V = SegmentProofView;

    open spec fn view(&self) -> SegmentProofView {
        SegmentProofView {
            proof_id: self.proof_id@,
            segment_ids: self.segment_ids@,
            prover: self.prover,
            zkp_hash: self.zkp_hash@,
            verified: self.verified,
            created_at: self.created_at,
        }
    }
}

impl Clone for AnonymousSegmentProof {
    fn clone(&self) -> (r: Self)
        ensures
            r@ == self@,
    {
        AnonymousSegmentProof {
            proof_id: self.proof_id,
            segment_ids: self.segment_ids.clone(),
            prover: self.prover,
            zkp_hash: self.zkp_hash,
            verified: self.verified,
            created_at: self.created_at,
        }
    }
}

/// A request for user data by a third party.
pub struct DataRequest {
    pub request_id: u64,
    pub requester: Address,
    pub data_type: String,
    pub purpose: String,
    pub approved: bool,
    pub requested_at: u64,
}

/// Whether two 32-byte strings are equal.
pub fn same_bytes(a: &[u8; 32], b: &[u8; 32]) -> (r: bool)
    ensures
        r == (a@ == b@),
{
    for i in 0..32
        invariant
            a@.len() == 32,
            b@.len() == 32,
            forall|j: int| 0 <= j < i ==> a@[j] == b@[j],
    {
        if a[i] != b[i] {
            return false;
        }
    }
    proof {
        assert(a@ =~= b@);
    }
    true
}

/// Whether two texts are equal.
pub fn same_text(a: &str, b: &str) -> (r: bool)
    ensures
        r == (a@ == b@),
{
    let n = a.unicode_len();
    if n != b.unicode_len() {
        return false;
    }
    for i in 0..n
        invariant
            n == a@.len(),
            n == b@.len(),
            forall|j: int| 0 <= j < i ==> a@[j] == b@[j],
    {
        if a.get_char(i) != b.get_char(i) {
            return false;
        }
    }
    proof {
        assert(a@ =~= b@);
    }
    true
}

/// The segment proofs on record, each under its identifier.
pub struct ProofTable {
    entries: Vec<AnonymousSegmentProof>,
    proofs: Ghost<Map<Seq<u8>, SegmentProofView>>,
    positions: Ghost<Map<Seq<u8>, int>>,
}

impl View for ProofTable {
    type V = Map<Seq<u8>, SegmentProofView>;

    closed spec fn view(&self) -> Map<Seq<u8>, SegmentProofView> {
        self.proofs@
    }
}

impl ProofTable {
    #[verifier::type_invariant]
    closed spec fn entries_indexed(&self) -> bool {
        &&& self.positions@.dom() == self.proofs@.dom()
        &&& forall|i: int| 0 <= i < self.entries@.len() ==> {
            &&& #[trigger] self.proofs@.contains_key(self.entries@[i].proof_id@)
            &&& self.positions@[self.entries@[i].proof_id@] == i
        }
        &&& forall|k: Seq<u8>| #[trigger] self.proofs@.contains_key(k) ==> {
            let p = self.positions@[k];
            &&& 0 <= p < self.entries@.len()
            &&& self.entries@[p].proof_id@ == k
            &&& self.proofs@[k] == self.entries@[p]@
        }
    }

    /// No proofs.
    pub fn new() -> (t: ProofTable)
        ensures
            t@ == Map::<Seq<u8>, SegmentProofView>::empty(),
    {
        ProofTable { entries: Vec::new(), proofs: Ghost(Map::empty()), positions: Ghost(Map::empty()) }
    }

    fn find(&self, id: &[u8; 32]) -> (r: Option<usize>)
        ensures
            r is Some <==> self@.contains_key(id@),
            r matches Some(i) ==> i < self.entries@.len() && self.entries@[i as int]@ == self@[id@] && self.entries@[i as int].proof_id@ == id@,
    {
        proof {
            use_type_invariant(self);
        }
        let n = self.entries.len();
        for i in 0..n
            invariant
                n == self.entries@.len(),
                forall|j: int| 0 <= j < i ==> self.entries@[j].proof_id@ != id@,
        {
            if same_bytes(&self.entries[i].proof_id, id) {
                proof {
                    use_type_invariant(self);
                    assert(self.proofs@.contains_key(self.entries@[i as int].proof_id@));
                }
                return Some(i);
            }
        }
        proof {
            if self.proofs@.contains_key(id@) {
                let p = self.positions@[id@];
                assert(self.entries@[p].proof_id@ == id@);
            }
        }
        None
    }

    /// The proof filed under `id`, if any.
    pub fn get(&self, id: &[u8; 32]) -> (r: Option<AnonymousSegmentProof>)
        ensures
            r is Some <==> self@.contains_key(id@),
            r matches Some(p) ==> p@ == self@[id@] && p.proof_id@ == id@,
    {
        proof {
            use_type_invariant(self);
        }
        match self.find(id) {
            Some(i) => Some(self.entries[i].clone()),
            None => None,
        }
    }

    /// Files `proof` under its identifier, replacing any proof there.
    pub fn put(&mut self, proof: AnonymousSegmentProof)
        ensures
            final(self)@ == old(self)@.insert(proof.proof_id@, proof@),
    {
        let found = self.find(&proof.proof_id);
        let mut taken = ProofTable::new();
        std::mem::swap(&mut taken, self);
        proof {
            use_type_invariant(&taken);
        }
        let ghost key = proof.proof_id@;
        let ghost pv = proof@;
        let ghost old_entries = taken.entries@;
        let ghost old_proofs = taken.proofs@;
        let ghost old_positions = taken.positions@;
        let ProofTable { mut entries, proofs, positions } = taken;
        let ghost new_proofs = proofs@.insert(key, pv);
        match found {
            Some(i) => {
                entries.set(i, proof);
                proof {
                    assert forall|j: int| 0 <= j < entries@.len() implies {
                        &&& #[trigger] new_proofs.contains_key(entries@[j].proof_id@)
                        &&& old_positions[entries@[j].proof_id@] == j
                    } by {
                        if j != i {
                            assert(entries@[j] == old_entries[j]);
                            assert(old_proofs.contains_key(old_entries[j].proof_id@));
                        } else {
                            assert(old_proofs.contains_key(old_entries[j].proof_id@));
                        }
                    }
                    assert forall|k: Seq<u8>| #[trigger] new_proofs.contains_key(k) implies {
                        let p = old_positions[k];
                        &&& 0 <= p < entries@.len()
                        &&& entries@[p].proof_id@ == k
                        &&& new_proofs[k] == entries@[p]@
                    } by {
                        if k != key {
                            assert(old_proofs.contains_key(k));
                            let p = old_positions[k];
                            if p == i {
                                assert(old_entries[i as int].proof_id@ == key);
                            }
                        }
                    }
                    assert(old_positions.dom() =~= new_proofs.dom());
                }
                *self = ProofTable { entries, proofs: Ghost(new_proofs), positions: Ghost(old_positions) };
            },
            None => {
                let ghost new_positions = old_positions.insert(key, old_entries.len() as int);
                entries.push(proof);
                proof {
                    assert forall|j: int| 0 <= j < entries@.len() implies {
                        &&& #[trigger] new_proofs.contains_key(entries@[j].proof_id@)
                        &&& new_positions[entries@[j].proof_id@] == j
                    } by {
                        if j < old_entries.len() {
                            assert(entries@[j] == old_entries[j]);
                            assert(old_proofs.contains_key(old_entries[j].proof_id@));
                        }
                    }
                    assert forall|k: Seq<u8>| #[trigger] new_proofs.contains_key(k) implies {
                        let p = new_positions[k];
                        &&& 0 <= p < entries@.len()
                        &&& entries@[p].proof_id@ == k
                        &&& new_proofs[k] == entries@[p]@
                    } by {
                        if k != key {
                            assert(old_proofs.contains_key(k));
                            assert(entries@[old_positions[k]] == old_entries[old_positions[k]]);
                        }
                    }
                    assert(new_positions.dom() =~= new_proofs.dom());
                }
                *self = ProofTable { entries, proofs: Ghost(new_proofs), positions: Ghost(new_positions) };
            },
        }
    }
}

/// The contract's stored state.
pub struct PrivacyState {
    pub admin: Option<Address>,
    pub request_counter: Option<u64>,
    pub consents: Map<u64, PrivacyConsent>,
    pub proofs: Map<Seq<u8>, SegmentProofView>,
}

/// The bytes hashed into a consent hash: the user's address encoding
/// followed by one byte per flag.
pub open spec fn consent_preimage_spec(user_encoding: Seq<u8>, data_processing: bool, targeted_ads: bool, analytics: bool, third_party_sharing: bool) -> Seq<u8> {
    user_encoding + seq![
        if data_processing { 1u8 } else { 0u8 },
        if targeted_ads { 1u8 } else { 0u8 },
        if analytics { 1u8 } else { 0u8 },
        if third_party_sharing { 1u8 } else { 0u8 },
    ]
}

/// The eight big-endian bytes of `x`.
pub open spec fn be_bytes(x: u64) -> Seq<u8> {
    seq![
        (x / 0x100_0000_0000_0000 % 256) as u8,
        (x / 0x1_0000_0000_0000 % 256) as u8,
        (x / 0x100_0000_0000 % 256) as u8,
        (x / 0x1_0000_0000 % 256) as u8,
        (x / 0x100_0000 % 256) as u8,
        (x / 0x1_0000 % 256) as u8,
        (x / 0x100 % 256) as u8,
        (x % 256) as u8,
    ]
}

/// The bytes hashed into a proof identifier: the prover's address
/// encoding, the segment list's encoding, the proof hash and the big-endian
/// ledger time.
pub open spec fn proof_preimage_spec(prover_encoding: Seq<u8>, segments_encoding: Seq<u8>, zkp_hash: Seq<u8>, timestamp: u64) -> Seq<u8> {
    prover_encoding + segments_encoding + zkp_hash + be_bytes(timestamp)
}

/// The most bytes handed to the hash in one call: well within what a
/// default Soroban host's budget lets SHA-256 digest.
pub const HASH_INPUT_LIMIT: usize = 1_000_000;

/// The most characters of text handed to the XDR encoder in one call.
pub const TEXT_ENCODING_LIMIT: usize = 100_000;

/// The SHA-256 digest of `data`.
pub uninterp spec fn sha256_digest(data: Seq<u8>) -> Seq<u8>;

/// The four big-endian bytes of `x`.
pub open spec fn be_bytes_u32(x: nat) -> Seq<u8> {
    seq![
        (x / 0x100_0000 % 256) as u8,
        (x / 0x1_0000 % 256) as u8,
        (x / 0x100 % 256) as u8,
        (x % 256) as u8,
    ]
}

/// Zero bytes that pad `len` bytes up to a multiple of four.
pub open spec fn xdr_padding(len: nat) -> Seq<u8> {
    Seq::new(((4 - len % 4) % 4) as nat, |i: int| 0u8)
}

/// The XDR encoding of `text` as a Soroban string value (the encoding that
/// `soroban_sdk::xdr::ToXdr` gives a `soroban_sdk::String`): the value tag
/// 14, the big-endian length of the text's UTF-8 bytes, those bytes, and
/// zero padding to a multiple of four.
pub open spec fn string_xdr(text: Seq<char>) -> Seq<u8> {
    let bytes = encode_utf8(text);
    seq![0u8, 0u8, 0u8, 14u8] + be_bytes_u32(bytes.len()) + bytes + xdr_padding(bytes.len())
}

/// A text's UTF-8 encoding takes at most four bytes per character.
proof fn lemma_utf8_len(text: Seq<char>)
    ensures
        encode_utf8(text).len() <= 4 * text.len(),
    decreases text.len(),
{
    if text.len() > 0 {
        lemma_utf8_len(text.drop_first());
        assert(encode_scalar(text[0] as u32).len() <= 4);
    }
}

/// SHA-256 through Soroban's `Crypto::sha256`, on a default host. Claimed:
/// the digest is the named SHA-256 digest of exactly these bytes, and the
/// call returns for every input within the bound: the host meters the work
/// against its default budget and panics once that is spent, which takes
/// inputs well beyond the bound.
#[verifier::external_body]
fn sha256(data: &Vec<u8>) -> (r: [u8; 32])
    requires
        data@.len() <= HASH_INPUT_LIMIT,
    ensures
        r@ == sha256_digest(data@),
{
    let env = soroban_sdk::Env::default();
    let bytes = soroban_sdk::Bytes::from_slice(&env, data.as_slice());
    env.crypto().sha256(&bytes).to_array()
}

/// Encodes `text` as a Soroban string value in XDR; the encoding is at
/// most four bytes per character plus eleven.
fn string_to_xdr(text: &String) -> (r: Vec<u8>)
    requires
        text@.len() <= TEXT_ENCODING_LIMIT,
    ensures
        r@ == string_xdr(text@),
        r@.len() <= 4 * text@.len() + 11,
{
    let bytes: &[u8] = text.as_str().as_bytes();
    proof {
        lemma_utf8_len(text@);
    }
    let n = bytes.len();
    let mut out: Vec<u8> = Vec::new();
    out.push(0u8);
    out.push(0u8);
    out.push(0u8);
    out.push(14u8);
    out.push((n / 0x100_0000 % 256) as u8);
    out.push((n / 0x1_0000 % 256) as u8);
    out.push((n / 0x100 % 256) as u8);
    out.push((n % 256) as u8);
    let ghost head = out@;
    assert(head =~= seq![0u8, 0u8, 0u8, 14u8] + be_bytes_u32(n as nat));
    for i in 0..n
        invariant
            n == bytes@.len(),
            out@ == head + bytes@.take(i as int),
    {
        out.push(bytes[i]);
        proof {
            assert(bytes@.take(i + 1) =~= bytes@.take(i as int).push(bytes@[i as int]));
        }
    }
    proof {
        assert(bytes@.take(n as int) =~= bytes@);
    }
    let ghost body = out@;
    let pad: usize = (4 - n % 4) % 4;
    for j in 0..pad
        invariant
            out@ == body + Seq::new(j as nat, |k: int| 0u8),
    {
        out.push(0u8);
        proof {
            assert(Seq::new((j + 1) as nat, |k: int| 0u8) =~= Seq::new(j as nat, |k: int| 0u8).push(0u8));
        }
    }
    proof {
        assert(out@ =~= string_xdr(text@));
    }
    out
}

/// Builds the bytes hashed into a consent hash.
pub fn consent_preimage(user_encoding: &Vec<u8>, data_processing: bool, targeted_ads: bool, analytics: bool, third_party_sharing: bool) -> (r: Vec<u8>)
    ensures
        r@ == consent_preimage_spec(user_encoding@, data_processing, targeted_ads, analytics, third_party_sharing),
{
    let mut out = user_encoding.clone();
    out.push(if data_processing { 1u8 } else { 0u8 });
    out.push(if targeted_ads { 1u8 } else { 0u8 });
    out.push(if analytics { 1u8 } else { 0u8 });
    out.push(if third_party_sharing { 1u8 } else { 0u8 });
    proof {
        assert(out@ =~= consent_preimage_spec(user_encoding@, data_processing, targeted_ads, analytics, third_party_sharing));
    }
    out
}

/// Builds the bytes hashed into a proof identifier.
pub fn proof_preimage(prover_encoding: &Vec<u8>, segments_encoding: &Vec<u8>, zkp_hash: &[u8; 32], timestamp: u64) -> (r: Vec<u8>)
    ensures
        r@ == proof_preimage_spec(prover_encoding@, segments_encoding@, zkp_hash@, timestamp),
{
    let mut out = prover_encoding.clone();
    let n = segments_encoding.len();
    for i in 0..n
        invariant
            n == segments_encoding@.len(),
            out@ == prover_encoding@ + segments_encoding@.take(i as int),
    {
        out.push(segments_encoding[i]);
        proof {
            assert(segments_encoding@.take(i + 1) =~= segments_encoding@.take(i as int).push(segments_encoding@[i as int]));
        }
    }
    proof {
        assert(segments_encoding@.take(n as int) =~= segments_encoding@);
    }
    let ghost before_hash = out@;
    for i in 0..32
        invariant
            zkp_hash@.len() == 32,
            out@ == before_hash + zkp_hash@.take(i as int),
    {
        out.push(zkp_hash[i]);
        proof {
            assert(zkp_hash@.take(i + 1) =~= zkp_hash@.take(i as int).push(zkp_hash@[i as int]));
        }
    }
    proof {
        assert(zkp_hash@.take(32) =~= zkp_hash@);
    }
    out.push((timestamp / 0x100_0000_0000_0000 % 256) as u8);
    out.push((timestamp / 0x1_0000_0000_0000 % 256) as u8);
    out.push((timestamp / 0x100_0000_0000 % 256) as u8);
    out.push((timestamp / 0x1_0000_0000 % 256) as u8);
    out.push((timestamp / 0x100_0000 % 256) as u8);
    out.push((timestamp / 0x1_0000 % 256) as u8);
    out.push((timestamp / 0x100 % 256) as u8);
    out.push((timestamp % 256) as u8);
    proof {
        assert(out@ =~= proof_preimage_spec(prover_encoding@, segments_encoding@, zkp_hash@, timestamp));
    }
    out
}

impl PrivacyState {
    pub open spec fn initialize(self, ctx: &CallContext, admin: Address) -> Result<PrivacyState, Error> {
        if self.admin is Some {
            Err(Error::AlreadyInitialized)
        } else if !ctx.authorizes(admin) {
            Err(Error::AuthRequired)
        } else {
            Ok(PrivacyState { admin: Some(admin), request_counter: Some(0), ..self })
        }
    }

    /// `consent_hash` is the SHA-256 of `consent_preimage_spec` over the
    /// user's address encoding and the four flags.
    pub open spec fn set_consent(
        self,
        ctx: &CallContext,
        user: Address,
        data_processing: bool,
        targeted_ads: bool,
        analytics: bool,
        third_party_sharing: bool,
        expires_in: Option<u64>,
        consent_hash: [u8; 32],
    ) -> Result<PrivacyState, Error> {
        if !ctx.authorizes(user) {
            Err(Error::AuthRequired)
        } else if expires_in matches Some(d) && !fits_u64(ctx.timestamp + d) {
            Err(Error::Overflow)
        } else {
            Ok(PrivacyState {
                consents: self.consents.insert(user.id, PrivacyConsent {
                    user,
                    data_processing,
                    targeted_ads,
                    analytics,
                    third_party_sharing,
                    consent_hash,
                    consented_at: ctx.timestamp,
                    expires_at: match expires_in {
                        Some(d) => Some((ctx.timestamp + d) as u64),
                        None => None,
                    },
                }),
                ..self
            })
        }
    }

    pub open spec fn revoke_consent(self, ctx: &CallContext, user: Address) -> Result<PrivacyState, Error> {
        if !ctx.authorizes(user) {
            Err(Error::AuthRequired)
        } else {
            Ok(PrivacyState { consents: self.consents.remove(user.id), ..self })
        }
    }

    /// `proof_id` is the SHA-256 of `proof_preimage_spec` over the prover's
    /// address encoding, the segment list's encoding, `zkp_hash` and the
    /// ledger time; it is also what the call returns.
    pub open spec fn submit_zkp(
        self,
        ctx: &CallContext,
        prover: Address,
        segment_ids: String,
        zkp_hash: [u8; 32],
        proof_id: [u8; 32],
    ) -> Result<(PrivacyState, [u8; 32]), Error> {
        if !ctx.authorizes(prover) {
            Err(Error::AuthRequired)
        } else {
            Ok((
                PrivacyState {
                    proofs: self.proofs.insert(proof_id@, SegmentProofView {
                        proof_id: proof_id@,
                        segment_ids: segment_ids@,
                        prover,
                        zkp_hash: zkp_hash@,
                        verified: false,
                        created_at: ctx.timestamp,
                    }),
                    ..self
                },
                proof_id,
            ))
        }
    }

    pub open spec fn verify_zkp(self, ctx: &CallContext, admin: Address, proof_id: [u8; 32]) -> Result<PrivacyState, Error> {
        if !ctx.authorizes(admin) {
            Err(Error::AuthRequired)
        } else if self.admin is None {
            Err(Error::NotInitialized)
        } else if self.admin != Some(admin) {
            Err(Error::Unauthorized)
        } else if !self.proofs.contains_key(proof_id@) {
            Err(Error::ProofNotFound)
        } else {
            Ok(PrivacyState {
                proofs: self.proofs.insert(proof_id@, SegmentProofView { verified: true, ..self.proofs[proof_id@] }),
                ..self
            })
        }
    }

    /// Whether the user's unexpired consent at `now` covers the named use.
    pub open spec fn has_consent(self, now: u64, user: Address, consent_type: Seq<char>) -> bool {
        let c = self.consents[user.id];
        if !self.consents.contains_key(user.id) {
            false
        } else if c.expires_at matches Some(t) && t <= now {
            false
        } else if consent_type == "targeted_ads"@ {
            c.targeted_ads
        } else if consent_type == "analytics"@ {
            c.analytics
        } else if consent_type == "data_processing"@ {
            c.data_processing
        } else if consent_type == "third_party_sharing"@ {
            c.third_party_sharing
        } else {
            false
        }
    }
}

/// The privacy layer contract.
pub struct PrivacyLayerContract {
    admin: Option<Address>,
    request_counter: Option<u64>,
    consents: HashMap<u64, PrivacyConsent>,
    proofs: ProofTable,
}

impl View for PrivacyLayerContract {
    type V = PrivacyState;

    closed spec fn view(&self) -> PrivacyState {
        PrivacyState {
            admin: self.admin,
            request_counter: self.request_counter,
            consents: self.consents@,
            proofs: self.proofs@,
        }
    }
}

impl PrivacyLayerContract {
    /// An empty, uninitialized contract.
    pub fn new() -> (c: PrivacyLayerContract)
        ensures
            c@.admin is None,
            c@.request_counter is None,
            c@.consents == Map::<u64, PrivacyConsent>::empty(),
            c@.proofs == Map::<Seq<u8>, SegmentProofView>::empty(),
    {
        PrivacyLayerContract { admin: None, request_counter: None, consents: HashMap::new(), proofs: ProofTable::new() }
    }

    pub fn initialize(&mut self, ctx: &CallContext, admin: Address) -> (r: Result<(), Error>)
        ensures
            follows(old(self)@.initialize(ctx, admin), r, old(self)@, final(self)@),
    {
        if self.admin.is_some() {
            return Err(Error::AlreadyInitialized);
        }
        match ctx.require_auth(admin) {
            Ok(()) => {},
            Err(e) => return Err(e),
        }
        self.admin = Some(admin);
        self.request_counter = Some(0);
        Ok(())
    }

    /// Records the user's consent; `user_encoding` is the XDR encoding of
    /// the user's address, and the consent hash stored is the SHA-256 of it
    /// followed by the four flags.
    pub fn set_consent(
        &mut self,
        ctx: &CallContext,
        user: Address,
        user_encoding: &Vec<u8>,
        data_processing: bool,
        targeted_ads: bool,
        analytics: bool,
        third_party_sharing: bool,
        expires_in: Option<u64>,
    ) -> (r: Result<(), Error>)
        requires
            user_encoding@.len() + 4 <= HASH_INPUT_LIMIT,
        ensures
            exists|h: [u8; 32]| {
                &&& h@ == sha256_digest(consent_preimage_spec(user_encoding@, data_processing, targeted_ads, analytics, third_party_sharing))
                &&& #[trigger] follows(
                    old(self)@.set_consent(ctx, user, data_processing, targeted_ads, analytics, third_party_sharing, expires_in, h),
                    r,
                    old(self)@,
                    final(self)@,
                )
            },
    {
        let preimage = consent_preimage(user_encoding, data_processing, targeted_ads, analytics, third_party_sharing);
        let consent_hash = sha256(&preimage);
        let r = self.record_consent(ctx, user, data_processing, targeted_ads, analytics, third_party_sharing, expires_in, consent_hash);
        proof {
            assert(follows(
                old(self)@.set_consent(ctx, user, data_processing, targeted_ads, analytics, third_party_sharing, expires_in, consent_hash),
                r,
                old(self)@,
                self@,
            ));
        }
        r
    }

    /// Records the user's consent under a consent hash already computed:
    /// the SHA-256 of `consent_preimage` over the user's address encoding
    /// and the flags.
    pub fn record_consent(
        &mut self,
        ctx: &CallContext,
        user: Address,
        data_processing: bool,
        targeted_ads: bool,
        analytics: bool,
        third_party_sharing: bool,
        expires_in: Option<u64>,
        consent_hash: [u8; 32],
    ) -> (r: Result<(), Error>)
        ensures
            follows(
                old(self)@.set_consent(ctx, user, data_processing, targeted_ads, analytics, third_party_sharing, expires_in, consent_hash),
                r,
                old(self)@,
                final(self)@,
            ),
    {
        match ctx.require_auth(user) {
            Ok(()) => {},
            Err(e) => return Err(e),
        }
        let expires_at = match expires_in {
            Some(d) => match ctx.timestamp.checked_add(d) {
                Some(t) => Some(t),
                None => return Err(Error::Overflow),
            },
            None => None,
        };
        self.consents.insert(user.id, PrivacyConsent {
            user,
            data_processing,
            targeted_ads,
            analytics,
            third_party_sharing,
            consent_hash,
            consented_at: ctx.timestamp,
            expires_at,
        });
        Ok(())
    }

    pub fn revoke_consent(&mut self, ctx: &CallContext, user: Address) -> (r: Result<(), Error>)
        ensures
            follows(old(self)@.revoke_consent(ctx, user), r, old(self)@, final(self)@),
    {
        match ctx.require_auth(user) {
            Ok(()) => {},
            Err(e) => return Err(e),
        }
        self.consents.remove(&user.id);
        Ok(())
    }

    /// Files a segment proof and returns its identifier: the SHA-256 of
    /// the prover's address encoding (`prover_encoding`, its XDR), the XDR
    /// encoding of the segment list, `zkp_hash` and the big-endian ledger
    /// time.
    pub fn submit_zkp(
        &mut self,
        ctx: &CallContext,
        prover: Address,
        prover_encoding: &Vec<u8>,
        segment_ids: String,
        zkp_hash: [u8; 32],
    ) -> (r: Result<[u8; 32], Error>)
        requires
            prover_encoding@.len() <= TEXT_ENCODING_LIMIT,
            segment_ids@.len() <= TEXT_ENCODING_LIMIT,
        ensures
            exists|id: [u8; 32]| {
                &&& id@ == sha256_digest(proof_preimage_spec(prover_encoding@, string_xdr(segment_ids@), zkp_hash@, ctx.timestamp))
                &&& #[trigger] follows_with(old(self)@.submit_zkp(ctx, prover, segment_ids, zkp_hash, id), r, old(self)@, final(self)@)
            },
    {
        let segments_encoding = string_to_xdr(&segment_ids);
        let preimage = proof_preimage(prover_encoding, &segments_encoding, &zkp_hash, ctx.timestamp);
        let proof_id = sha256(&preimage);
        let ghost segments = segment_ids;
        let r = self.record_proof(ctx, prover, segment_ids, zkp_hash, proof_id);
        proof {
            assert(follows_with(old(self)@.submit_zkp(ctx, prover, segments, zkp_hash, proof_id), r, old(self)@, self@));
        }
        r
    }

    /// Files a segment proof under an identifier already computed: the
    /// SHA-256 of `proof_preimage` over the prover's address encoding, the
    /// segment list's encoding, `zkp_hash` and the ledger time; returns it.
    pub fn record_proof(
        &mut self,
        ctx: &CallContext,
        prover: Address,
        segment_ids: String,
        zkp_hash: [u8; 32],
        proof_id: [u8; 32],
    ) -> (r: Result<[u8; 32], Error>)
        ensures
            follows_with(old(self)@.submit_zkp(ctx, prover, segment_ids, zkp_hash, proof_id), r, old(self)@, final(self)@),
    {
        match ctx.require_auth(prover) {
            Ok(()) => {},
            Err(e) => return Err(e),
        }
        self.proofs.put(AnonymousSegmentProof {
            proof_id,
            segment_ids,
            prover,
            zkp_hash,
            verified: false,
            created_at: ctx.timestamp,
        });
        Ok(proof_id)
    }

    pub fn verify_zkp(&mut self, ctx: &CallContext, admin: Address, proof_id: [u8; 32]) -> (r: Result<(), Error>)
        ensures
            follows(old(self)@.verify_zkp(ctx, admin, proof_id), r, old(self)@, final(self)@),
    {
        match ctx.require_auth(admin) {
            Ok(()) => {},
            Err(e) => return Err(e),
        }
        match self.admin {
            None => return Err(Error::NotInitialized),
            Some(a) => if a != admin {
                return Err(Error::Unauthorized);
            },
        }
        let mut p = match self.proofs.get(&proof_id) {
            Some(p) => p,
            None => return Err(Error::ProofNotFound),
        };
        p.verified = true;
        self.proofs.put(p);
        Ok(())
    }

    /// Whether the user's consent, unexpired at the context's time, covers
    /// the use named by `consent_type`: one of "targeted_ads", "analytics",
    /// "data_processing" and "third_party_sharing".
    pub fn has_consent(&self, ctx: &CallContext, user: Address, consent_type: &str) -> (r: bool)
        ensures
            r == self@.has_consent(ctx.timestamp, user, consent_type@),
    {
        let c = match self.consents.get(&user.id) {
            Some(c) => *c,
            None => return false,
        };
        match c.expires_at {
            Some(t) => if t <= ctx.timestamp {
                return false;
            },
            None => {},
        }
        if same_text(consent_type, "targeted_ads") {
            c.targeted_ads
        } else if same_text(consent_type, "analytics") {
            c.analytics
        } else if same_text(consent_type, "data_processing") {
            c.data_processing
        } else if same_text(consent_type, "third_party_sharing") {
            c.third_party_sharing
        } else {
            false
        }
    }

    pub fn get_consent(&self, user: Address) -> (r: Option<PrivacyConsent>)
        ensures
            r == lookup(self@.consents, user.id),
    {
        match self.consents.get(&user.id) {
            Some(c) => Some(*c),
            None => None,
        }
    }

    pub fn get_proof(&self, proof_id: &[u8; 32]) -> (r: Option<AnonymousSegmentProof>)
        ensures
            r is Some <==> self@.proofs.contains_key(proof_id@),
            r matches Some(p) ==> p@ == self@.proofs[proof_id@],
    {
        self.proofs.get(proof_id)
    }
}

/// Consent is honoured until it expires and withdrawn by revocation: a
/// consent set with targeted ads on and expiring `d` seconds later covers
/// targeted ads exactly before that time, and after a revocation the user
/// consents to nothing.
pub proof fn lemma_consent_lifecycle(
    s: PrivacyState,
    c1: &CallContext,
    c2: &CallContext,
    user: Address,
    dp: bool,
    an: bool,
    tps: bool,
    d: u64,
    hash: [u8; 32],
    now: u64,
    use_name: Seq<char>,
)
    requires
        s.set_consent(c1, user, dp, true, an, tps, Some(d), hash) is Ok,
        c2.authorizes(user),
    ensures
        ({
            let s1 = s.set_consent(c1, user, dp, true, an, tps, Some(d), hash).unwrap();
            &&& s1.has_consent(now, user, "targeted_ads"@) <==> now < c1.timestamp + d
            &&& s1.revoke_consent(c2, user) is Ok
            &&& !s1.revoke_consent(c2, user).unwrap().has_consent(now, user, use_name)
        }),
{
}

/// Verifying a submitted proof marks it verified and changes nothing else
/// about it.
pub proof fn lemma_verify_marks_proof(s: PrivacyState, ctx: &CallContext, admin: Address, proof_id: [u8; 32])
    requires
        s.verify_zkp(ctx, admin, proof_id) is Ok,
    ensures
        ({
            let p = s.verify_zkp(ctx, admin, proof_id).unwrap().proofs[proof_id@];
            &&& p.verified
            &&& p == SegmentProofView { verified: true, ..s.proofs[proof_id@] }
        }),
{
}

/// A consent answers for each use with the flag given for that use: after
/// the user sets consent with flags (`dp`, `ads`, `an`, `tps`), while it has
/// not expired, the user consents to data processing exactly when `dp`, to
/// targeted ads exactly when `ads`, to analytics exactly when `an` and to
/// third-party sharing exactly when `tps`, and to no other use.
pub proof fn lemma_consent_answers_each_use(
    s: PrivacyState,
    ctx: &CallContext,
    user: Address,
    dp: bool,
    ads: bool,
    an: bool,
    tps: bool,
    expires_in: Option<u64>,
    hash: [u8; 32],
    now: u64,
    other_use: Seq<char>,
)
    requires
        s.set_consent(ctx, user, dp, ads, an, tps, expires_in, hash) is Ok,
        expires_in matches Some(d) ==> now < ctx.timestamp + d,
        other_use != "data_processing"@,
        other_use != "targeted_ads"@,
        other_use != "analytics"@,
        other_use != "third_party_sharing"@,
    ensures
        ({
            let t = s.set_consent(ctx, user, dp, ads, an, tps, expires_in, hash).unwrap();
            &&& t.has_consent(now, user, "data_processing"@) == dp
            &&& t.has_consent(now, user, "targeted_ads"@) == ads
            &&& t.has_consent(now, user, "analytics"@) == an
            &&& t.has_consent(now, user, "third_party_sharing"@) == tps
            &&& !t.has_consent(now, user, other_use)
        }),
{
    reveal_strlit("data_processing");
    reveal_strlit("targeted_ads");
    reveal_strlit("analytics");
    reveal_strlit("third_party_sharing");
    assert("data_processing"@ != "targeted_ads"@) by {
        assert("data_processing"@[0] != "targeted_ads"@[0]);
    }
    assert("analytics"@ != "targeted_ads"@) by {
        assert("analytics"@.len() != "targeted_ads"@.len());
    }
    assert("third_party_sharing"@ != "targeted_ads"@) by {
        assert("third_party_sharing"@[1] != "targeted_ads"@[1]);
    }
    assert("third_party_sharing"@ != "analytics"@) by {
        assert("third_party_sharing"@.len() != "analytics"@.len());
    }
    assert("data_processing"@ != "analytics"@) by {
        assert("data_processing"@.len() != "analytics"@.len());
    }
    assert("third_party_sharing"@ != "data_processing"@) by {
        assert("third_party_sharing"@[0] != "data_processing"@[0]);
    }
}

} // verus!
