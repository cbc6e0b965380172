use pulsartrack::common::{Address, CallContext, Error};
use pulsartrack::identity::{IdentityRegistryContract, IdentityStatus, IdentityType};
use pulsartrack::kyc::{KycLevel, KycRegistryContract};

fn addr(id: u64) -> Address {
    Address { id }
}

fn at(timestamp: u64) -> CallContext {
    CallContext::with_all_auths(timestamp, 0)
}

fn s(text: &str) -> String {
    text.to_string()
}

fn identity_setup(ctx: &CallContext) -> (IdentityRegistryContract, Address) {
    let admin = addr(1);
    let mut c = IdentityRegistryContract::new();
    assert_eq!(c.initialize(ctx, admin), Ok(()));
    (c, admin)
}

fn kyc_setup(ctx: &CallContext) -> (KycRegistryContract, Address, Address) {
    let admin = addr(1);
    let provider = addr(2);
    let mut c = KycRegistryContract::new();
    assert_eq!(c.initialize(ctx, admin), Ok(()));
    assert_eq!(c.register_provider(ctx, admin, provider, s("Acme KYC")), Ok(()));
    (c, admin, provider)
}

#[test]
fn identity_register_and_lookup() {
    let ctx = at(10);
    let (mut c, _) = identity_setup(&ctx);
    let alice = addr(5);
    assert_eq!(c.register(&ctx, alice, IdentityType::Publisher, s("alice"), s("meta1")), Ok(()));
    let id = c.get_identity(alice).unwrap();
    assert_eq!(id.status, IdentityStatus::Pending);
    assert_eq!(id.identity_type, IdentityType::Publisher);
    assert_eq!(id.display_name, "alice");
    assert_eq!(id.metadata_hash, "meta1");
    assert_eq!(id.credentials_hash, "");
    assert_eq!(id.registered_at, 10);
    assert_eq!(id.verified_at, None);
    assert_eq!(c.get_by_name(&s("alice")), Some(alice));
    assert_eq!(c.get_by_name(&s("bob")), None);
    assert_eq!(c.get_identity_count(), 1);
    assert!(!c.is_verified(alice));
}

#[test]
fn identity_register_twice_is_refused() {
    let ctx = at(0);
    let (mut c, _) = identity_setup(&ctx);
    let alice = addr(5);
    assert_eq!(c.register(&ctx, alice, IdentityType::Advertiser, s("alice"), s("m")), Ok(()));
    assert_eq!(c.register(&ctx, alice, IdentityType::Advertiser, s("alice2"), s("m")), Err(Error::AlreadyRegistered));
    assert_eq!(c.get_identity_count(), 1);
}

#[test]
fn identity_name_taken_is_refused() {
    let ctx = at(0);
    let (mut c, _) = identity_setup(&ctx);
    assert_eq!(c.register(&ctx, addr(5), IdentityType::Advertiser, s("alice"), s("m")), Ok(()));
    assert_eq!(c.register(&ctx, addr(6), IdentityType::Publisher, s("alice"), s("m")), Err(Error::NameTaken));
    assert_eq!(c.get_by_name(&s("alice")), Some(addr(5)));
    assert!(c.get_identity(addr(6)).is_none());
}

#[test]
fn identity_register_without_auth_is_refused() {
    let (mut c, _) = identity_setup(&at(0));
    let ctx = CallContext::new(0, 0);
    assert_eq!(c.register(&ctx, addr(5), IdentityType::Advertiser, s("alice"), s("m")), Err(Error::AuthRequired));
}

#[test]
fn identity_verify_without_kyc_registry() {
    let ctx = at(0);
    let (mut c, admin) = identity_setup(&ctx);
    let alice = addr(5);
    assert_eq!(c.register(&ctx, alice, IdentityType::Publisher, s("alice"), s("m")), Ok(()));
    let later = at(30);
    assert_eq!(c.verify_identity(&later, admin, alice, s("creds"), false), Ok(()));
    assert!(c.is_verified(alice));
    let id = c.get_identity(alice).unwrap();
    assert_eq!(id.credentials_hash, "creds");
    assert_eq!(id.verified_at, Some(30));
}

#[test]
fn identity_verify_requires_kyc_when_registry_set() {
    let ctx = at(0);
    let (mut c, admin) = identity_setup(&ctx);
    let alice = addr(5);
    assert_eq!(c.register(&ctx, alice, IdentityType::Publisher, s("alice"), s("m")), Ok(()));
    assert_eq!(c.set_kyc_registry(&ctx, admin, addr(77)), Ok(()));
    assert_eq!(c.kyc_registry(), Some(addr(77)));
    assert_eq!(c.verify_identity(&ctx, admin, alice, s("creds"), false), Err(Error::KycVerificationRequired));
    assert!(!c.is_verified(alice));
    assert_eq!(c.verify_identity(&ctx, admin, alice, s("creds"), true), Ok(()));
    assert!(c.is_verified(alice));
}

#[test]
fn identity_kyc_answer_needed_only_when_reached() {
    let ctx = at(0);
    let (mut c, admin) = identity_setup(&ctx);
    let alice = addr(5);
    assert!(!c.needs_kyc_answer(&ctx, admin, alice));
    assert_eq!(c.register(&ctx, alice, IdentityType::Publisher, s("alice"), s("m")), Ok(()));
    assert!(!c.needs_kyc_answer(&ctx, admin, alice));
    assert_eq!(c.set_kyc_registry(&ctx, admin, addr(77)), Ok(()));
    assert!(c.needs_kyc_answer(&ctx, admin, alice));
    assert!(!c.needs_kyc_answer(&ctx, addr(9), alice));
    assert!(!c.needs_kyc_answer(&ctx, admin, addr(6)));
}

#[test]
fn identity_verify_unknown_and_by_stranger() {
    let ctx = at(0);
    let (mut c, admin) = identity_setup(&ctx);
    assert_eq!(c.verify_identity(&ctx, admin, addr(5), s("c"), true), Err(Error::IdentityNotFound));
    assert_eq!(c.register(&ctx, addr(5), IdentityType::Publisher, s("alice"), s("m")), Ok(()));
    assert_eq!(c.verify_identity(&ctx, addr(9), addr(5), s("c"), true), Err(Error::Unauthorized));
}

#[test]
fn identity_update_metadata_and_suspend() {
    let ctx = at(0);
    let (mut c, admin) = identity_setup(&ctx);
    let alice = addr(5);
    assert_eq!(c.register(&ctx, alice, IdentityType::DataProvider, s("alice"), s("m1")), Ok(()));
    assert_eq!(c.update_metadata(&at(50), alice, s("m2")), Ok(()));
    let id = c.get_identity(alice).unwrap();
    assert_eq!(id.metadata_hash, "m2");
    assert_eq!(id.last_activity, 50);
    assert_eq!(c.update_metadata(&ctx, addr(6), s("x")), Err(Error::IdentityNotFound));

    assert_eq!(c.verify_identity(&ctx, admin, alice, s("c"), true), Ok(()));
    assert_eq!(c.suspend_identity(&ctx, admin, alice), Ok(()));
    assert_eq!(c.get_identity(alice).unwrap().status, IdentityStatus::Suspended);
    assert!(!c.is_verified(alice));
    assert_eq!(c.suspend_identity(&ctx, admin, addr(6)), Err(Error::IdentityNotFound));
}

#[test]
fn identity_count_follows_registrations() {
    let ctx = at(0);
    let (mut c, _) = identity_setup(&ctx);
    for i in 0..5u64 {
        assert_eq!(c.register(&ctx, addr(100 + i), IdentityType::Operator, format!("op{}", i), s("m")), Ok(()));
    }
    assert_eq!(c.get_identity_count(), 5);
    assert_eq!(c.get_by_name(&s("op3")), Some(addr(103)));
}

#[test]
fn kyc_submit_verify_and_level() {
    let ctx = at(100);
    let (mut c, _, provider) = kyc_setup(&ctx);
    let alice = addr(5);
    assert_eq!(c.get_kyc_level(alice), KycLevel::NoLevel);
    assert_eq!(c.submit_kyc(&ctx, alice, provider, KycLevel::Standard, s("doc"), s("DE")), Ok(()));
    let rec = c.get_kyc_record(alice).unwrap();
    assert!(!rec.verified);
    assert_eq!(rec.provider, "Acme KYC");
    assert_eq!(rec.submitted_at, 100);
    assert!(!c.is_kyc_valid(&ctx, alice));
    assert_eq!(c.get_kyc_level(alice), KycLevel::NoLevel);

    assert_eq!(c.verify_kyc(&at(200), provider, alice, None), Ok(()));
    let rec = c.get_kyc_record(alice).unwrap();
    assert!(rec.verified);
    assert_eq!(rec.verified_at, Some(200));
    assert_eq!(rec.expires_at, None);
    assert_eq!(rec.verifier, Some(provider));
    assert!(c.is_kyc_valid(&at(1_000_000), alice));
    assert_eq!(c.get_kyc_level(alice), KycLevel::Standard);
}

#[test]
fn kyc_expiry() {
    let ctx = at(100);
    let (mut c, _, provider) = kyc_setup(&ctx);
    let alice = addr(5);
    assert_eq!(c.submit_kyc(&ctx, alice, provider, KycLevel::Basic, s("doc"), s("FR")), Ok(()));
    assert_eq!(c.verify_kyc(&ctx, provider, alice, Some(50)), Ok(()));
    assert_eq!(c.get_kyc_record(alice).unwrap().expires_at, Some(150));
    assert!(c.is_kyc_valid(&at(149), alice));
    assert!(!c.is_kyc_valid(&at(150), alice));
}

#[test]
fn kyc_revoke() {
    let ctx = at(0);
    let (mut c, admin, provider) = kyc_setup(&ctx);
    let alice = addr(5);
    assert_eq!(c.revoke_kyc(&ctx, admin, alice), Err(Error::KycNotFound));
    assert_eq!(c.submit_kyc(&ctx, alice, provider, KycLevel::Enhanced, s("doc"), s("US")), Ok(()));
    assert_eq!(c.verify_kyc(&ctx, provider, alice, None), Ok(()));
    assert_eq!(c.revoke_kyc(&ctx, addr(9), alice), Err(Error::Unauthorized));
    assert_eq!(c.revoke_kyc(&ctx, admin, alice), Ok(()));
    assert!(!c.is_kyc_valid(&ctx, alice));
    assert_eq!(c.get_kyc_level(alice), KycLevel::NoLevel);
}

#[test]
fn kyc_refusals() {
    let ctx = at(0);
    let (mut c, admin, provider) = kyc_setup(&ctx);
    let alice = addr(5);
    assert_eq!(c.submit_kyc(&ctx, alice, addr(3), KycLevel::Basic, s("d"), s("j")), Err(Error::ProviderNotRegistered));
    assert_eq!(c.verify_kyc(&ctx, addr(3), alice, None), Err(Error::ProviderNotFound));
    assert_eq!(c.verify_kyc(&ctx, provider, alice, None), Err(Error::KycNotSubmitted));
    assert_eq!(c.register_provider(&ctx, admin, addr(3), s("Other")), Ok(()));
    assert_eq!(c.submit_kyc(&ctx, alice, provider, KycLevel::Basic, s("d"), s("j")), Ok(()));
    assert_eq!(c.verify_kyc(&ctx, addr(3), alice, None), Err(Error::ProviderMismatch));
    assert_eq!(c.register_provider(&ctx, addr(9), addr(4), s("X")), Err(Error::Unauthorized));
    assert_eq!(c.verify_kyc(&at(1), provider, alice, Some(u64::MAX)), Err(Error::Overflow));
}

#[test]
fn kyc_initialize_twice_is_refused() {
    let ctx = at(0);
    let (mut c, admin, _) = kyc_setup(&ctx);
    assert_eq!(c.initialize(&ctx, admin), Err(Error::AlreadyInitialized));
}
