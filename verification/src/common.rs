//! Values shared by every contract: account identities, the context of one
//! invocation (ledger time, ledger sequence, the accounts that authorized
//! it) and the reasons for which an invocation is refused.

use vstd::prelude::*;

verus! {

/// An account or contract on the ledger, identified by a number that the
/// host assigns to each distinct address.
#[derive(Clone, Copy, PartialEq, Eq, Debug, Structural)]
pub struct Address {
    pub id: u64,
}

/// The ledger facts and the authorizations that one invocation runs with.
pub struct CallContext {
    /// Ledger close time, in seconds.
    pub timestamp: u64,
    /// Ledger sequence number.
    pub sequence: u32,
    /// Every address counts as having authorized the call.
    pub all_authorized: bool,
    /// The addresses that authorized the call.
    pub signers: Vec<Address>,
}

impl CallContext {
    /// Whether `a` authorized this invocation.
    pub open spec fn authorizes(&self, a: Address) -> bool {
        self.all_authorized || self.signers@.contains(a)
    }

    /// A context at the given ledger time and sequence that no address
    /// has authorized.
    pub fn new(timestamp: u64, sequence: u32) -> (c: CallContext)
        ensures
            c.timestamp == timestamp,
            c.sequence == sequence,
            !c.all_authorized,
            c.signers@ == Seq::<Address>::empty(),
    {
        CallContext { timestamp, sequence, all_authorized: false, signers: Vec::new() }
    }

    /// A context at the given ledger time and sequence in which every
    /// address counts as having authorized the call.
    pub fn with_all_auths(timestamp: u64, sequence: u32) -> (c: CallContext)
        ensures
            c.timestamp == timestamp,
            c.sequence == sequence,
            c.all_authorized,
            c.signers@ == Seq::<Address>::empty(),
    {
        CallContext { timestamp, sequence, all_authorized: true, signers: Vec::new() }
    }

    /// Records that `a` authorized the call.
    pub fn add_signer(&mut self, a: Address)
        ensures
            final(self).timestamp == old(self).timestamp,
            final(self).sequence == old(self).sequence,
            final(self).all_authorized == old(self).all_authorized,
            final(self).signers@ == old(self).signers@.push(a),
    {
        self.signers.push(a);
    }

    /// Refuses the call unless `a` authorized it.
    pub fn require_auth(&self, a: Address) -> (r: Result<(), Error>)
        ensures
            r is Ok <==> self.authorizes(a),
            r matches Err(e) ==> e == Error::AuthRequired,
    {
        if self.all_authorized {
            return Ok(());
        }
        let n = self.signers.len();
        for i in 0..n
            invariant
                n == self.signers@.len(),
                forall|j: int| 0 <= j < i ==> self.signers@[j] != a,
        {
            if self.signers[i] == a {
                return Ok(());
            }
        }
        Err(Error::AuthRequired)
    }
}

/// Why an invocation was refused. A refused invocation leaves the contract
/// state as it was.
#[derive(Clone, Copy, PartialEq, Eq, Debug, Structural)]
pub enum Error {
    AuthRequired,
    AlreadyInitialized,
    NotInitialized,
    Unauthorized,
    Overflow,
    NoPendingAdmin,
    AnalyticsNotFound,
    DailyBudgetExceedsTotal,
    AllocationNotFound,
    AlreadyRegistered,
    NameTaken,
    IdentityNotFound,
    KycVerificationRequired,
    ProviderNotRegistered,
    ProviderNotActive,
    ProviderNotFound,
    KycNotSubmitted,
    ProviderMismatch,
    KycNotFound,
    InvalidRequiredSigners,
    NotASigner,
    InvalidAmount,
    AlreadyVoted,
    TxNotFound,
    TxNotPending,
    TxExpired,
    TxNotApproved,
    TransactionExpired,
    AlreadyASigner,
    SignerThresholdBreach,
    CannotPayYourself,
    TokenNotWhitelisted,
    TokenDisabled,
    AmountBelowMinimum,
    DailyLimitExceeded,
    InsufficientBalance,
    FeeTooHigh,
    ProofNotFound,
    PublisherNotRegistered,
    PublisherAlreadyInitialized,
    InvalidRating,
    SlashCooldownActive,
    InvalidUptime,
    RefundNotFound,
    InvalidStatus,
    RefundNotApproved,
    InsufficientContractBalance,
    NoBalanceToClaim,
}

/// The message with which the contract aborts for each reason.
pub open spec fn error_message(e: Error) -> Seq<char> {
    match e {
        Error::AuthRequired => "authorization required"@,
        Error::AlreadyInitialized => "already initialized"@,
        Error::NotInitialized => "not initialized"@,
        Error::Unauthorized => "unauthorized"@,
        Error::Overflow => "arithmetic overflow"@,
        Error::NoPendingAdmin => "no pending admin"@,
        Error::AnalyticsNotFound => "analytics not found"@,
        Error::DailyBudgetExceedsTotal => "daily budget exceeds total"@,
        Error::AllocationNotFound => "allocation not found"@,
        Error::AlreadyRegistered => "already registered"@,
        Error::NameTaken => "name taken"@,
        Error::IdentityNotFound => "identity not found"@,
        Error::KycVerificationRequired => "kyc verification required"@,
        Error::ProviderNotRegistered => "provider not registered"@,
        Error::ProviderNotActive => "provider not active"@,
        Error::ProviderNotFound => "provider not found"@,
        Error::KycNotSubmitted => "kyc not submitted"@,
        Error::ProviderMismatch => "provider mismatch"@,
        Error::KycNotFound => "kyc not found"@,
        Error::InvalidRequiredSigners => "invalid required signers"@,
        Error::NotASigner => "not a signer"@,
        Error::InvalidAmount => "invalid amount"@,
        Error::AlreadyVoted => "already voted"@,
        Error::TxNotFound => "tx not found"@,
        Error::TxNotPending => "tx not pending"@,
        Error::TxExpired => "tx expired"@,
        Error::TxNotApproved => "tx not approved"@,
        Error::TransactionExpired => "transaction expired"@,
        Error::AlreadyASigner => "already a signer"@,
        Error::SignerThresholdBreach => "cannot remove: would breach required signers threshold"@,
        Error::CannotPayYourself => "cannot pay yourself"@,
        Error::TokenNotWhitelisted => "token not whitelisted"@,
        Error::TokenDisabled => "token disabled"@,
        Error::AmountBelowMinimum => "amount below minimum"@,
        Error::DailyLimitExceeded => "daily limit exceeded"@,
        Error::InsufficientBalance => "insufficient balance"@,
        Error::FeeTooHigh => "fee too high"@,
        Error::ProofNotFound => "proof not found"@,
        Error::PublisherNotRegistered => "publisher not registered"@,
        Error::PublisherAlreadyInitialized => "already initialized"@,
        Error::InvalidRating => "invalid rating"@,
        Error::SlashCooldownActive => "slash cooldown active"@,
        Error::InvalidUptime => "invalid uptime"@,
        Error::RefundNotFound => "refund not found"@,
        Error::InvalidStatus => "invalid status"@,
        Error::RefundNotApproved => "refund not approved"@,
        Error::InsufficientContractBalance => "insufficient contract balance for refund"@,
        Error::NoBalanceToClaim => "no balance to claim"@,
    }
}

impl Error {
    /// The message with which the contract aborts for this reason.
    pub fn message(&self) -> (r: &'static str)
        ensures
            r@ == error_message(*self),
    {
        match self {
            Error::AuthRequired => "authorization required",
            Error::AlreadyInitialized => "already initialized",
            Error::NotInitialized => "not initialized",
            Error::Unauthorized => "unauthorized",
            Error::Overflow => "arithmetic overflow",
            Error::NoPendingAdmin => "no pending admin",
            Error::AnalyticsNotFound => "analytics not found",
            Error::DailyBudgetExceedsTotal => "daily budget exceeds total",
            Error::AllocationNotFound => "allocation not found",
            Error::AlreadyRegistered => "already registered",
            Error::NameTaken => "name taken",
            Error::IdentityNotFound => "identity not found",
            Error::KycVerificationRequired => "kyc verification required",
            Error::ProviderNotRegistered => "provider not registered",
            Error::ProviderNotActive => "provider not active",
            Error::ProviderNotFound => "provider not found",
            Error::KycNotSubmitted => "kyc not submitted",
            Error::ProviderMismatch => "provider mismatch",
            Error::KycNotFound => "kyc not found",
            Error::InvalidRequiredSigners => "invalid required signers",
            Error::NotASigner => "not a signer",
            Error::InvalidAmount => "invalid amount",
            Error::AlreadyVoted => "already voted",
            Error::TxNotFound => "tx not found",
            Error::TxNotPending => "tx not pending",
            Error::TxExpired => "tx expired",
            Error::TxNotApproved => "tx not approved",
            Error::TransactionExpired => "transaction expired",
            Error::AlreadyASigner => "already a signer",
            Error::SignerThresholdBreach => "cannot remove: would breach required signers threshold",
            Error::CannotPayYourself => "cannot pay yourself",
            Error::TokenNotWhitelisted => "token not whitelisted",
            Error::TokenDisabled => "token disabled",
            Error::AmountBelowMinimum => "amount below minimum",
            Error::DailyLimitExceeded => "daily limit exceeded",
            Error::InsufficientBalance => "insufficient balance",
            Error::FeeTooHigh => "fee too high",
            Error::ProofNotFound => "proof not found",
            Error::PublisherNotRegistered => "publisher not registered",
            Error::PublisherAlreadyInitialized => "already initialized",
            Error::InvalidRating => "invalid rating",
            Error::SlashCooldownActive => "slash cooldown active",
            Error::InvalidUptime => "invalid uptime",
            Error::RefundNotFound => "refund not found",
            Error::InvalidStatus => "invalid status",
            Error::RefundNotApproved => "refund not approved",
            Error::InsufficientContractBalance => "insufficient contract balance for refund",
            Error::NoBalanceToClaim => "no balance to claim",
        }
    }
}

/// One side of a token movement: the contract itself or another account.
#[derive(Clone, Copy, PartialEq, Eq, Debug, Structural)]
pub enum Party {
    Contract,
    Account(Address),
}

/// A token operation that an accepted invocation asks the host to carry
/// out, in order, on the token contract `token`.
#[derive(Clone, Copy, PartialEq, Eq, Debug, Structural)]
pub enum TokenOp {
    Transfer { token: Address, from: Party, to: Party, amount: i128 },
    Burn { token: Address, amount: i128 },
}

/// Seconds in a ledger day.
pub const SECONDS_PER_DAY: u64 = 86_400;

/// The ledger day that a timestamp falls in.
pub open spec fn day_of(ts: u64) -> u64 {
    ts / 86_400
}

} // verus!

verus! {

/// Relates an invocation's result and the state it leaves behind to the
/// outcome that its specification gives: a refusal leaves the state as it
/// was; an acceptance leaves the specified state.
pub open spec fn follows<S>(outcome: Result<S, Error>, r: Result<(), Error>, pre: S, post: S) -> bool {
    match outcome {
        Ok(s) => r is Ok && post == s,
        Err(e) => r == Err::<(), Error>(e) && post == pre,
    }
}

/// As `follows`, for an invocation that also returns a value.
pub open spec fn follows_with<S, T>(outcome: Result<(S, T), Error>, r: Result<T, Error>, pre: S, post: S) -> bool {
    match outcome {
        Ok((s, v)) => r == Ok::<T, Error>(v) && post == s,
        Err(e) => r == Err::<T, Error>(e) && post == pre,
    }
}

/// As `follows`, for an invocation that also returns token operations.
pub open spec fn follows_ops<S>(outcome: Result<(S, Seq<TokenOp>), Error>, r: Result<Vec<TokenOp>, Error>, pre: S, post: S) -> bool {
    match outcome {
        Ok((s, ops)) => r matches Ok(v) && v@ == ops && post == s,
        Err(e) => r matches Err(x) && x == e && post == pre,
    }
}

/// Whether `a` occurs in `v`.
pub fn contains_address(v: &Vec<Address>, a: Address) -> (r: bool)
    ensures
        r == v@.contains(a),
{
    let n = v.len();
    for i in 0..n
        invariant
            n == v@.len(),
            forall|j: int| 0 <= j < i ==> v@[j] != a,
    {
        if v[i] == a {
            return true;
        }
    }
    false
}

/// Integer division rounding toward zero, for a positive divisor.
pub open spec fn trunc_div(a: int, d: int) -> int
    recommends d > 0,
{
    if a >= 0 { a / d } else { -((-a) / d) }
}

/// Remainder of the division that rounds toward zero, for a positive divisor.
pub open spec fn trunc_rem(a: int, d: int) -> int
    recommends d > 0,
{
    a - d * trunc_div(a, d)
}

/// `x` clamped to the range of `i128`.
pub open spec fn saturate_i128(x: int) -> int {
    if x > i128::MAX { i128::MAX as int } else if x < i128::MIN { i128::MIN as int } else { x }
}

/// Whether `x` lies in the range of `i128`.
pub open spec fn fits_i128(x: int) -> bool {
    i128::MIN <= x <= i128::MAX
}

/// Whether `x` lies in the range of `u64`.
pub open spec fn fits_u64(x: int) -> bool {
    0 <= x <= u64::MAX
}

/// Whether `x` lies in the range of `u32`.
pub open spec fn fits_u32(x: int) -> bool {
    0 <= x <= u32::MAX
}

/// A single map key standing for the pair `(hi, lo)`: `hi` in the high 64
/// bits, `lo` in the low 64 bits.
pub open spec fn pair_key(hi: u64, lo: u64) -> u128 {
    (hi as int * 0x1_0000_0000_0000_0000 + lo as int) as u128
}

/// Computes `pair_key(hi, lo)`.
pub fn make_pair_key(hi: u64, lo: u64) -> (r: u128)
    ensures
        r == pair_key(hi, lo),
{
    (hi as u128) * 0x1_0000_0000_0000_0000u128 + (lo as u128)
}

/// The value of a map at a key, if any.
pub open spec fn lookup<K, V>(m: Map<K, V>, k: K) -> Option<V> {
    if m.contains_key(k) { Some(m[k]) } else { None }
}

/// A map with each value replaced by its view.
pub open spec fn view_values<V: View>(m: Map<u64, V>) -> Map<u64, V::V> {
    Map::new(|k: u64| m.contains_key(k), |k: u64| m[k]@)
}

/// The smaller of two integers.
pub open spec fn min_int(a: int, b: int) -> int {
    if a <= b { a } else { b }
}

/// Adds two `i128` values, refusing a sum outside the type's range.
pub fn add_i128(a: i128, b: i128) -> (r: Result<i128, Error>)
    ensures
        fits_i128(a + b) ==> r == Ok::<i128, Error>((a + b) as i128),
        !fits_i128(a + b) ==> r == Err::<i128, Error>(Error::Overflow),
{
    match a.checked_add(b) {
        Some(v) => Ok(v),
        None => Err(Error::Overflow),
    }
}

/// Adds two `u64` values, refusing a sum outside the type's range.
pub fn add_u64(a: u64, b: u64) -> (r: Result<u64, Error>)
    ensures
        fits_u64(a + b) ==> r == Ok::<u64, Error>((a + b) as u64),
        !fits_u64(a + b) ==> r == Err::<u64, Error>(Error::Overflow),
{
    match a.checked_add(b) {
        Some(v) => Ok(v),
        None => Err(Error::Overflow),
    }
}

} // verus!
