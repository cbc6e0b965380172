use pulsartrack::common::{Address, CallContext, Error, Party, TokenOp};
use pulsartrack::payment::{PaymentProcessorContract, PaymentStatus};

fn addr(id: u64) -> Address {
    Address { id }
}

fn at(timestamp: u64) -> CallContext {
    CallContext::with_all_auths(timestamp, 0)
}

const ADMIN: Address = Address { id: 1 };
const TREASURY: Address = Address { id: 2 };
const TOKEN: Address = Address { id: 3 };
const PAYER: Address = Address { id: 10 };
const SHOP: Address = Address { id: 11 };

fn setup(ctx: &CallContext) -> PaymentProcessorContract {
    let mut c = PaymentProcessorContract::new();
    assert_eq!(c.initialize(ctx, ADMIN, TREASURY), Ok(()));
    assert_eq!(c.add_token(ctx, ADMIN, TOKEN, 100, 1_000_000), Ok(()));
    c
}

#[test]
fn payment_splits_fee_to_treasury() {
    let ctx = at(1_000);
    let mut c = setup(&ctx);
    let receipt = c.process_payment(&ctx, PAYER, SHOP, TOKEN, 10_000, 50_000).unwrap();
    assert_eq!(receipt.payment_id, 1);
    assert_eq!(
        receipt.transfers,
        vec![
            TokenOp::Transfer { token: TOKEN, from: Party::Account(PAYER), to: Party::Contract, amount: 10_000 },
            TokenOp::Transfer { token: TOKEN, from: Party::Contract, to: Party::Account(SHOP), amount: 9_750 },
            TokenOp::Transfer { token: TOKEN, from: Party::Contract, to: Party::Account(TREASURY), amount: 250 },
        ]
    );
    let p = c.get_payment(1).unwrap();
    assert_eq!(p.amount, 10_000);
    assert_eq!(p.fee_charged, 250);
    assert_eq!(p.status, PaymentStatus::Completed);
    assert_eq!(p.processed_at, Some(1_000));
    let us = c.get_user_stats(PAYER).unwrap();
    assert_eq!(us.total_payments, 1);
    assert_eq!(us.total_spent, 10_000);
    assert_eq!(us.last_payment, 1_000);
    let rs = c.get_revenue_stats(TOKEN).unwrap();
    assert_eq!(rs.total_fees_collected, 250);
    assert_eq!(rs.total_volume, 10_000);
    assert_eq!(rs.payment_count, 1);
}

#[test]
fn payment_fee_rounds_down_and_zero_fee_has_no_treasury_transfer() {
    let ctx = at(0);
    let mut c = setup(&ctx);
    let receipt = c.process_payment(&ctx, PAYER, SHOP, TOKEN, 199, 1_000).unwrap();
    assert_eq!(receipt.transfers.len(), 3);
    assert_eq!(c.get_payment(1).unwrap().fee_charged, 4);
    assert_eq!(c.set_platform_fee(&ctx, ADMIN, 0), Ok(()));
    let receipt = c.process_payment(&ctx, PAYER, SHOP, TOKEN, 500, 1_000).unwrap();
    assert_eq!(receipt.payment_id, 2);
    assert_eq!(
        receipt.transfers,
        vec![
            TokenOp::Transfer { token: TOKEN, from: Party::Account(PAYER), to: Party::Contract, amount: 500 },
            TokenOp::Transfer { token: TOKEN, from: Party::Contract, to: Party::Account(SHOP), amount: 500 },
        ]
    );
}

#[test]
fn payment_refusals() {
    let ctx = at(0);
    let mut c = setup(&ctx);
    assert_eq!(c.process_payment(&ctx, PAYER, PAYER, TOKEN, 500, 1_000).err(), Some(Error::CannotPayYourself));
    assert_eq!(c.process_payment(&ctx, PAYER, SHOP, TOKEN, 0, 1_000).err(), Some(Error::InvalidAmount));
    assert_eq!(c.process_payment(&ctx, PAYER, SHOP, addr(99), 500, 1_000).err(), Some(Error::TokenNotWhitelisted));
    assert_eq!(c.process_payment(&ctx, PAYER, SHOP, TOKEN, 99, 1_000).err(), Some(Error::AmountBelowMinimum));
    assert_eq!(c.process_payment(&ctx, PAYER, SHOP, TOKEN, 500, 499).err(), Some(Error::InsufficientBalance));
    let no_auth = CallContext::new(0, 0);
    assert_eq!(c.process_payment(&no_auth, PAYER, SHOP, TOKEN, 500, 1_000).err(), Some(Error::AuthRequired));
    assert!(c.get_payment(1).is_none());
    assert!(c.get_user_stats(PAYER).is_none());
}

#[test]
fn payment_daily_limit_resets_next_day() {
    let ctx = at(0);
    let mut c = PaymentProcessorContract::new();
    assert_eq!(c.initialize(&ctx, ADMIN, TREASURY), Ok(()));
    assert_eq!(c.add_token(&ctx, ADMIN, TOKEN, 1, 1_000), Ok(()));
    assert!(c.process_payment(&ctx, PAYER, SHOP, TOKEN, 600, 10_000).is_ok());
    assert_eq!(c.process_payment(&at(86_399), PAYER, SHOP, TOKEN, 401, 10_000).err(), Some(Error::DailyLimitExceeded));
    assert!(c.process_payment(&at(86_399), PAYER, SHOP, TOKEN, 400, 10_000).is_ok());
    assert!(c.process_payment(&at(86_400), PAYER, SHOP, TOKEN, 1_000, 10_000).is_ok());
}

#[test]
fn payment_token_management() {
    let ctx = at(0);
    let mut c = setup(&ctx);
    let cfg = c.get_token_config(TOKEN).unwrap();
    assert!(cfg.enabled);
    assert_eq!(cfg.min_amount, 100);
    assert_eq!(cfg.daily_limit, 1_000_000);
    assert_eq!(c.add_token(&ctx, addr(9), addr(4), 1, 1), Err(Error::Unauthorized));
    assert_eq!(c.remove_token(&ctx, ADMIN, TOKEN), Ok(()));
    assert!(c.get_token_config(TOKEN).is_none());
    assert_eq!(c.process_payment(&ctx, PAYER, SHOP, TOKEN, 500, 1_000).err(), Some(Error::TokenNotWhitelisted));
}

#[test]
fn payment_fee_ceiling() {
    let ctx = at(0);
    let mut c = setup(&ctx);
    assert_eq!(c.set_platform_fee(&ctx, ADMIN, 1_001), Err(Error::FeeTooHigh));
    assert_eq!(c.set_platform_fee(&ctx, ADMIN, 1_000), Ok(()));
    assert_eq!(c.set_platform_fee(&ctx, addr(9), 10), Err(Error::Unauthorized));
    let receipt = c.process_payment(&ctx, PAYER, SHOP, TOKEN, 1_000, 1_000).unwrap();
    assert_eq!(receipt.transfers[2], TokenOp::Transfer { token: TOKEN, from: Party::Contract, to: Party::Account(TREASURY), amount: 100 });
}

#[test]
fn payment_ids_and_stats_accumulate() {
    let ctx = at(7);
    let mut c = setup(&ctx);
    for i in 0..3u64 {
        let r = c.process_payment(&ctx, PAYER, SHOP, TOKEN, 1_000, 10_000).unwrap();
        assert_eq!(r.payment_id, i + 1);
    }
    let us = c.get_user_stats(PAYER).unwrap();
    assert_eq!(us.total_payments, 3);
    assert_eq!(us.total_spent, 3_000);
    let rs = c.get_revenue_stats(TOKEN).unwrap();
    assert_eq!(rs.total_fees_collected, 75);
    assert_eq!(rs.payment_count, 3);
}
