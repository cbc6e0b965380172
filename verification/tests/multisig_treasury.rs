use pulsartrack::common::{Address, CallContext, Error, Party, TokenOp};
use pulsartrack::multisig::{MultisigTreasuryContract, TxStatus};

fn addr(id: u64) -> Address {
    Address { id }
}

fn at(timestamp: u64) -> CallContext {
    CallContext::with_all_auths(timestamp, 0)
}

fn s(text: &str) -> String {
    text.to_string()
}

const TOKEN: Address = Address { id: 50 };
const RECIPIENT: Address = Address { id: 60 };

/// Admin 1; signers 11, 12, 13; two approvals required.
fn setup(ctx: &CallContext) -> MultisigTreasuryContract {
    let mut c = MultisigTreasuryContract::new();
    assert_eq!(c.initialize(ctx, addr(1), vec![addr(11), addr(12), addr(13)], 2), Ok(()));
    c
}

#[test]
fn multisig_initialize_checks_threshold() {
    let ctx = at(0);
    let mut c = MultisigTreasuryContract::new();
    assert_eq!(c.initialize(&ctx, addr(1), vec![addr(11)], 0), Err(Error::InvalidRequiredSigners));
    assert_eq!(c.initialize(&ctx, addr(1), vec![addr(11)], 2), Err(Error::InvalidRequiredSigners));
    assert_eq!(c.initialize(&ctx, addr(1), vec![addr(11), addr(12)], 2), Ok(()));
    assert_eq!(c.get_signers(), vec![addr(11), addr(12)]);
    assert_eq!(c.initialize(&ctx, addr(1), vec![addr(11)], 1), Err(Error::AlreadyInitialized));
}

#[test]
fn multisig_full_payment_flow() {
    let ctx = at(100);
    let mut c = setup(&ctx);
    let id = c.propose_transaction(&ctx, addr(11), RECIPIENT, TOKEN, 5_000, s("ads"), 1_000).unwrap();
    assert_eq!(id, 1);
    let tx = c.get_transaction(id).unwrap();
    assert_eq!(tx.status, TxStatus::Pending);
    assert_eq!(tx.required_approvals, 2);
    assert_eq!(tx.expires_at, 1_100);
    assert_eq!(tx.description, "ads");

    assert_eq!(c.approve_transaction(&ctx, addr(11), id), Ok(()));
    assert_eq!(c.get_transaction(id).unwrap().status, TxStatus::Pending);
    assert_eq!(c.execute_transaction(&ctx, addr(11), id), Err(Error::TxNotApproved));
    assert_eq!(c.approve_transaction(&ctx, addr(12), id), Ok(()));
    let tx = c.get_transaction(id).unwrap();
    assert_eq!(tx.status, TxStatus::Approved);
    assert_eq!(tx.approvals, 2);

    let ops = c.execute_transaction(&at(200), addr(13), id).unwrap();
    assert_eq!(ops, vec![TokenOp::Transfer { token: TOKEN, from: Party::Contract, to: Party::Account(RECIPIENT), amount: 5_000 }]);
    let tx = c.get_transaction(id).unwrap();
    assert_eq!(tx.status, TxStatus::Executed);
    assert_eq!(tx.executed_at, Some(200));
    assert_eq!(c.execute_transaction(&ctx, addr(11), id), Err(Error::TxNotApproved));
}

#[test]
fn multisig_no_double_approval() {
    let ctx = at(0);
    let mut c = setup(&ctx);
    let id = c.propose_transaction(&ctx, addr(11), RECIPIENT, TOKEN, 10, s("x"), 100).unwrap();
    assert_eq!(c.approve_transaction(&ctx, addr(11), id), Ok(()));
    assert_eq!(c.approve_transaction(&ctx, addr(11), id), Err(Error::AlreadyVoted));
    assert_eq!(c.get_transaction(id).unwrap().approvals, 1);
}

#[test]
fn multisig_refusals() {
    let ctx = at(0);
    let mut c = setup(&ctx);
    assert_eq!(c.propose_transaction(&ctx, addr(99), RECIPIENT, TOKEN, 10, s("x"), 100), Err(Error::NotASigner));
    assert_eq!(c.propose_transaction(&ctx, addr(11), RECIPIENT, TOKEN, 0, s("x"), 100), Err(Error::InvalidAmount));
    assert_eq!(c.approve_transaction(&ctx, addr(11), 7), Err(Error::TxNotFound));
    assert_eq!(c.execute_transaction(&ctx, addr(11), 7), Err(Error::TxNotFound));
    assert_eq!(c.reject_transaction(&ctx, addr(11), 7), Err(Error::TxNotFound));
    let no_auth = CallContext::new(0, 0);
    assert_eq!(c.approve_transaction(&no_auth, addr(11), 1), Err(Error::AuthRequired));
}

#[test]
fn multisig_expiry() {
    let ctx = at(0);
    let mut c = setup(&ctx);
    let id = c.propose_transaction(&ctx, addr(11), RECIPIENT, TOKEN, 10, s("x"), 100).unwrap();
    assert_eq!(c.approve_transaction(&at(101), addr(11), id), Err(Error::TxExpired));
    assert_eq!(c.approve_transaction(&at(100), addr(11), id), Ok(()));
    assert_eq!(c.approve_transaction(&at(100), addr(12), id), Ok(()));
    assert_eq!(c.execute_transaction(&at(101), addr(11), id), Err(Error::TransactionExpired));
    assert!(c.execute_transaction(&at(100), addr(11), id).is_ok());
}

#[test]
fn multisig_rejection_when_threshold_unreachable() {
    let ctx = at(0);
    let mut c = setup(&ctx);
    let id = c.propose_transaction(&ctx, addr(11), RECIPIENT, TOKEN, 10, s("x"), 100).unwrap();
    assert_eq!(c.reject_transaction(&ctx, addr(11), id), Ok(()));
    assert_eq!(c.get_transaction(id).unwrap().status, TxStatus::Pending);
    assert_eq!(c.reject_transaction(&ctx, addr(12), id), Ok(()));
    let tx = c.get_transaction(id).unwrap();
    assert_eq!(tx.status, TxStatus::Rejected);
    assert_eq!(tx.rejections, 2);
    assert_eq!(c.approve_transaction(&ctx, addr(13), id), Err(Error::TxNotPending));
}

#[test]
fn multisig_signer_management() {
    let ctx = at(0);
    let mut c = setup(&ctx);
    assert_eq!(c.add_signer(&ctx, addr(1), addr(12)), Err(Error::AlreadyASigner));
    assert_eq!(c.add_signer(&ctx, addr(99), addr(14)), Err(Error::Unauthorized));
    assert_eq!(c.add_signer(&ctx, addr(1), addr(14)), Ok(()));
    assert_eq!(c.get_signers(), vec![addr(11), addr(12), addr(13), addr(14)]);
    assert_eq!(c.remove_signer(&ctx, addr(1), addr(12)), Ok(()));
    assert_eq!(c.get_signers(), vec![addr(11), addr(13), addr(14)]);
    assert_eq!(c.remove_signer(&ctx, addr(1), addr(12)), Err(Error::NotASigner));
    assert_eq!(c.remove_signer(&ctx, addr(1), addr(11)), Ok(()));
    assert_eq!(c.remove_signer(&ctx, addr(1), addr(13)), Err(Error::SignerThresholdBreach));
    assert_eq!(c.get_signers(), vec![addr(13), addr(14)]);
    assert_eq!(c.propose_transaction(&ctx, addr(11), RECIPIENT, TOKEN, 10, s("x"), 100), Err(Error::NotASigner));
}

#[test]
fn multisig_tx_ids_count_up() {
    let ctx = at(0);
    let mut c = setup(&ctx);
    assert_eq!(c.propose_transaction(&ctx, addr(11), RECIPIENT, TOKEN, 10, s("a"), 100), Ok(1));
    assert_eq!(c.propose_transaction(&ctx, addr(12), RECIPIENT, TOKEN, 20, s("b"), 100), Ok(2));
    assert_eq!(c.get_transaction(2).unwrap().amount, 20);
    assert!(c.get_transaction(3).is_none());
}
