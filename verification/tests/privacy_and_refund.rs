use pulsartrack::common::{Address, CallContext, Error, Party, TokenOp};
use pulsartrack::privacy::{consent_preimage, proof_preimage, same_bytes, same_text, PrivacyLayerContract};
use pulsartrack::refund::{RefundProcessorContract, RefundStatus};

fn addr(id: u64) -> Address {
    Address { id }
}

fn at(timestamp: u64) -> CallContext {
    CallContext::with_all_auths(timestamp, 0)
}

const ADMIN: Address = Address { id: 1 };
const TOKEN: Address = Address { id: 2 };
const USER: Address = Address { id: 10 };

fn privacy_setup(ctx: &CallContext) -> PrivacyLayerContract {
    let mut c = PrivacyLayerContract::new();
    assert_eq!(c.initialize(ctx, ADMIN), Ok(()));
    c
}

fn refund_setup(ctx: &CallContext) -> RefundProcessorContract {
    let mut c = RefundProcessorContract::new();
    assert_eq!(c.initialize(ctx, ADMIN, TOKEN), Ok(()));
    c
}

#[test]
fn privacy_consent_flags_and_expiry() {
    let ctx = at(1_000);
    let mut c = privacy_setup(&ctx);
    assert!(!c.has_consent(&ctx, USER, "targeted_ads"));
    assert_eq!(c.record_consent(&ctx, USER, true, true, false, false, Some(500), [7u8; 32]), Ok(()));
    let consent = c.get_consent(USER).unwrap();
    assert_eq!(consent.consented_at, 1_000);
    assert_eq!(consent.expires_at, Some(1_500));
    assert_eq!(consent.consent_hash, [7u8; 32]);
    assert!(c.has_consent(&ctx, USER, "targeted_ads"));
    assert!(c.has_consent(&ctx, USER, "data_processing"));
    assert!(!c.has_consent(&ctx, USER, "analytics"));
    assert!(!c.has_consent(&ctx, USER, "third_party_sharing"));
    assert!(!c.has_consent(&ctx, USER, "something_else"));
    assert!(c.has_consent(&at(1_499), USER, "targeted_ads"));
    assert!(!c.has_consent(&at(1_500), USER, "targeted_ads"));
}

#[test]
fn privacy_revoke_consent() {
    let ctx = at(0);
    let mut c = privacy_setup(&ctx);
    assert_eq!(c.record_consent(&ctx, USER, true, true, true, true, None, [0u8; 32]), Ok(()));
    assert!(c.has_consent(&at(u64::MAX), USER, "analytics"));
    assert_eq!(c.revoke_consent(&ctx, USER), Ok(()));
    assert!(c.get_consent(USER).is_none());
    assert!(!c.has_consent(&ctx, USER, "analytics"));
}

#[test]
fn privacy_consent_overflow_and_auth() {
    let ctx = at(10);
    let mut c = privacy_setup(&ctx);
    assert_eq!(c.record_consent(&ctx, USER, true, true, true, true, Some(u64::MAX), [0u8; 32]), Err(Error::Overflow));
    let no_auth = CallContext::new(10, 0);
    assert_eq!(c.record_consent(&no_auth, USER, true, true, true, true, None, [0u8; 32]), Err(Error::AuthRequired));
    assert!(c.get_consent(USER).is_none());
}

#[test]
fn privacy_zkp_submit_and_verify() {
    let ctx = at(5);
    let mut c = privacy_setup(&ctx);
    let id = [3u8; 32];
    assert_eq!(c.record_proof(&ctx, USER, "a,b".to_string(), [9u8; 32], id), Ok(id));
    let p = c.get_proof(&id).unwrap();
    assert!(!p.verified);
    assert_eq!(p.segment_ids, "a,b");
    assert_eq!(p.prover, USER);
    assert_eq!(p.created_at, 5);
    assert_eq!(c.verify_zkp(&ctx, addr(9), id), Err(Error::Unauthorized));
    assert_eq!(c.verify_zkp(&ctx, ADMIN, [4u8; 32]), Err(Error::ProofNotFound));
    assert_eq!(c.verify_zkp(&ctx, ADMIN, id), Ok(()));
    assert!(c.get_proof(&id).unwrap().verified);
    assert!(c.get_proof(&[4u8; 32]).is_none());
}

fn hex(bytes: &[u8]) -> String {
    bytes.iter().map(|b| format!("{:02x}", b)).collect()
}

#[test]
fn privacy_set_consent_hashes_encoding_and_flags() {
    let ctx = at(20);
    let mut c = privacy_setup(&ctx);
    let encoding = vec![0xAAu8, 0xBB];
    assert_eq!(c.set_consent(&ctx, USER, &encoding, true, false, true, false, None), Ok(()));
    let consent = c.get_consent(USER).unwrap();
    assert_eq!(hex(&consent.consent_hash), "607f12e37002317ddb3b07637686cae58bf35a3ccaeb291eda1c6a631f960420");
    assert!(consent.data_processing);
    assert!(!consent.targeted_ads);
    assert!(consent.analytics);
    assert_eq!(consent.expires_at, None);
    let no_auth = CallContext::new(20, 0);
    assert_eq!(c.set_consent(&no_auth, addr(11), &encoding, true, true, true, true, None), Err(Error::AuthRequired));
}

#[test]
fn privacy_submit_zkp_derives_identifier() {
    let ctx = at(0x0102_0304_0506_0708);
    let mut c = privacy_setup(&ctx);
    let id = c.submit_zkp(&ctx, USER, &vec![1u8], "a,b".to_string(), [5u8; 32]).unwrap();
    assert_eq!(hex(&id), "0bb8815e5e2b7514d2a9354f8761ea873357f623925b00f8ecf395853fd5bff1");
    let p = c.get_proof(&id).unwrap();
    assert_eq!(p.proof_id, id);
    assert_eq!(p.segment_ids, "a,b");
    assert!(!p.verified);
    assert_eq!(c.verify_zkp(&ctx, ADMIN, id), Ok(()));
    assert!(c.get_proof(&id).unwrap().verified);
}

#[test]
fn privacy_preimages() {
    let user = vec![0xAAu8, 0xBB];
    assert_eq!(consent_preimage(&user, true, false, true, false), vec![0xAA, 0xBB, 1, 0, 1, 0]);
    let prover = vec![1u8];
    let segments = vec![2u8, 3];
    let zkp = [5u8; 32];
    let bytes = proof_preimage(&prover, &segments, &zkp, 0x0102_0304_0506_0708);
    assert_eq!(bytes.len(), 1 + 2 + 32 + 8);
    assert_eq!(&bytes[..3], &[1u8, 2, 3]);
    assert_eq!(&bytes[3..35], &[5u8; 32]);
    assert_eq!(&bytes[35..], &[1u8, 2, 3, 4, 5, 6, 7, 8]);
}

#[test]
fn privacy_comparisons() {
    assert!(same_bytes(&[1u8; 32], &[1u8; 32]));
    let mut b = [1u8; 32];
    b[31] = 2;
    assert!(!same_bytes(&[1u8; 32], &b));
    assert!(same_text("analytics", "analytics"));
    assert!(!same_text("analytics", "analytic"));
    assert!(!same_text("abc", "abd"));
}

#[test]
fn refund_request_approve_process() {
    let ctx = at(100);
    let mut c = refund_setup(&ctx);
    let id = c.request_refund(&ctx, USER, 42, 1_000, "bad traffic".to_string()).unwrap();
    assert_eq!(id, 1);
    let r = c.get_refund(id).unwrap();
    assert_eq!(r.status, RefundStatus::Requested);
    assert_eq!(r.token, TOKEN);
    assert_eq!(r.reason, "bad traffic");
    assert_eq!(r.submitted_at, 100);

    assert_eq!(c.process_refund(&ctx, USER, id, 10_000), Err(Error::RefundNotApproved));
    assert_eq!(c.approve_refund(&at(200), ADMIN, id, 5_000), Ok(()));
    let r = c.get_refund(id).unwrap();
    assert_eq!(r.amount_approved, 1_000);
    assert_eq!(r.status, RefundStatus::Approved);
    assert_eq!(r.resolved_at, Some(200));

    assert_eq!(c.process_refund(&ctx, USER, id, 999), Err(Error::InsufficientContractBalance));
    assert_eq!(c.process_refund(&ctx, addr(9), id, 10_000), Err(Error::Unauthorized));
    let ops = c.process_refund(&ctx, USER, id, 1_000).unwrap();
    assert_eq!(ops, vec![TokenOp::Transfer { token: TOKEN, from: Party::Contract, to: Party::Account(USER), amount: 1_000 }]);
    assert_eq!(c.get_refund(id).unwrap().status, RefundStatus::Processed);
    assert_eq!(c.process_refund(&ctx, ADMIN, id, 10_000), Err(Error::RefundNotApproved));
}

#[test]
fn refund_partial_approval_and_admin_payout() {
    let ctx = at(0);
    let mut c = refund_setup(&ctx);
    let id = c.request_refund(&ctx, USER, 1, 1_000, "x".to_string()).unwrap();
    assert_eq!(c.approve_refund(&ctx, ADMIN, id, 400), Ok(()));
    assert_eq!(c.get_refund(id).unwrap().amount_approved, 400);
    let ops = c.process_refund(&ctx, ADMIN, id, 400).unwrap();
    assert_eq!(ops, vec![TokenOp::Transfer { token: TOKEN, from: Party::Contract, to: Party::Account(USER), amount: 400 }]);
}

#[test]
fn refund_reject_and_refusals() {
    let ctx = at(0);
    let mut c = refund_setup(&ctx);
    assert_eq!(c.request_refund(&ctx, USER, 1, 0, "x".to_string()), Err(Error::InvalidAmount));
    let id = c.request_refund(&ctx, USER, 1, 10, "x".to_string()).unwrap();
    assert_eq!(c.approve_refund(&ctx, addr(9), id, 10), Err(Error::Unauthorized));
    assert_eq!(c.approve_refund(&ctx, ADMIN, 77, 10), Err(Error::RefundNotFound));
    assert_eq!(c.reject_refund(&ctx, ADMIN, 77), Err(Error::RefundNotFound));
    assert_eq!(c.reject_refund(&at(3), ADMIN, id), Ok(()));
    let r = c.get_refund(id).unwrap();
    assert_eq!(r.status, RefundStatus::Rejected);
    assert_eq!(r.resolved_at, Some(3));
    assert_eq!(c.approve_refund(&ctx, ADMIN, id, 10), Err(Error::InvalidStatus));
    assert_eq!(c.process_refund(&ctx, USER, id, 100), Err(Error::RefundNotApproved));
    assert_eq!(c.process_refund(&ctx, USER, 77, 100), Err(Error::RefundNotFound));
}

#[test]
fn refund_ids_count_up() {
    let ctx = at(0);
    let mut c = refund_setup(&ctx);
    assert_eq!(c.request_refund(&ctx, USER, 1, 10, "a".to_string()), Ok(1));
    assert_eq!(c.request_refund(&ctx, addr(11), 2, 20, "b".to_string()), Ok(2));
    assert_eq!(c.get_refund(2).unwrap().requester, addr(11));
    assert!(c.get_refund(3).is_none());
}
