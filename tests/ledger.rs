use billing_ledger::error::LedgerError;
use billing_ledger::ledger::{Contract, SettlementState, SubscriptionReceipt};

const OWNER: &str = "owner.near";
const ALICE: &str = "alice.near";
const BOB: &str = "bob.near";

fn fresh() -> Contract {
    Contract::init(OWNER, 3, 10)
}

#[test]
fn init_sets_prices_and_empty_balances() {
    let c = fresh();
    assert_eq!(c.get_credit_cost(), 3);
    assert_eq!(c.get_monthly_cost(), 10);
    assert_eq!(c.get_balance(ALICE), 0);
    assert_eq!(c.get_balance(OWNER), 0);
}

#[test]
fn two_deposits_add_up() {
    let mut c = fresh();
    c.deposit_ppc(ALICE, 7).unwrap();
    c.deposit_ppc(ALICE, 5).unwrap();
    assert_eq!(c.get_balance(ALICE), 12);
    assert_eq!(c.get_balance(BOB), 0);
}

#[test]
fn zero_deposit_is_invalid() {
    let mut c = fresh();
    c.deposit_ppc(ALICE, 4).unwrap();
    assert_eq!(c.deposit_ppc(ALICE, 0), Err(LedgerError::InvalidAmount));
    assert_eq!(c.get_balance(ALICE), 4);
}

#[test]
fn deposit_overflow_leaves_balance() {
    let mut c = fresh();
    c.deposit_ppc(ALICE, u128::MAX - 1).unwrap();
    assert_eq!(c.deposit_ppc(ALICE, 2), Err(LedgerError::Overflow));
    assert_eq!(c.get_balance(ALICE), u128::MAX - 1);
}

#[test]
fn debit_within_balance_moves_amount_to_owner() {
    let mut c = fresh();
    c.deposit_ppc(ALICE, 10).unwrap();
    assert_eq!(c.update_balance(ALICE, 4), Ok(4));
    assert_eq!(c.get_balance(ALICE), 6);
    assert_eq!(c.get_balance(OWNER), 4);
}

#[test]
fn overdraft_debit_drains_and_credits_what_was_held() {
    let mut c = fresh();
    c.deposit_ppc(ALICE, 10).unwrap();
    c.deposit_ppc(OWNER, 1).unwrap();
    assert_eq!(c.update_balance(ALICE, 25), Ok(10));
    assert_eq!(c.get_balance(ALICE), 0);
    assert_eq!(c.get_balance(OWNER), 11);
}

#[test]
fn zero_debit_is_invalid() {
    let mut c = fresh();
    c.deposit_ppc(ALICE, 10).unwrap();
    assert_eq!(c.update_balance(ALICE, 0), Err(LedgerError::InvalidAmount));
    assert_eq!(c.get_balance(ALICE), 10);
}

#[test]
fn debit_of_owner_keeps_owner_balance() {
    let mut c = fresh();
    c.deposit_ppc(OWNER, 9).unwrap();
    assert_eq!(c.update_balance(OWNER, 4), Ok(4));
    assert_eq!(c.get_balance(OWNER), 9);
}

#[test]
fn debit_owner_overflow_refused() {
    let mut c = fresh();
    c.deposit_ppc(OWNER, u128::MAX).unwrap();
    c.deposit_ppc(ALICE, 3).unwrap();
    assert_eq!(c.update_balance(ALICE, 2), Err(LedgerError::Overflow));
    assert_eq!(c.get_balance(ALICE), 3);
    assert_eq!(c.get_balance(OWNER), u128::MAX);
}

#[test]
fn subscription_buys_two_periods_and_refunds_remainder() {
    let mut c = fresh();
    let r = c.deposit_monthly(ALICE, 2 * 10 + 7, 1000);
    assert_eq!(r, Ok(SubscriptionReceipt { periods: 2, refund: 7 }));
    assert_eq!(c.get_periods(ALICE), 2);
    assert_eq!(c.get_period_index(), 2);
    assert_eq!(c.get_subscription_date(ALICE), Some(1000));
    assert_eq!(c.owner_withdraw(OWNER), Ok(20));
}

#[test]
fn subscription_exact_price_has_no_refund() {
    let mut c = fresh();
    let r = c.deposit_monthly(ALICE, 10, 5);
    assert_eq!(r, Ok(SubscriptionReceipt { periods: 1, refund: 0 }));
    assert_eq!(c.get_balance(ALICE), 0);
}

#[test]
fn underpaid_subscription_refused() {
    let mut c = fresh();
    assert_eq!(c.deposit_monthly(ALICE, 9, 5), Err(LedgerError::InsufficientPayment));
    assert_eq!(c.get_periods(ALICE), 0);
    assert_eq!(c.get_period_index(), 0);
    assert_eq!(c.get_subscription_date(ALICE), None);
    assert_eq!(c.owner_withdraw(OWNER), Ok(0));
}

#[test]
fn subscription_period_overflow_refused() {
    let mut c = Contract::init(OWNER, 1, 1);
    c.deposit_monthly(ALICE, u128::MAX, 1).unwrap();
    assert_eq!(c.deposit_monthly(BOB, 1, 2), Err(LedgerError::Overflow));
}

#[test]
fn withdraw_within_balance() {
    let mut c = fresh();
    c.deposit_ppc(ALICE, 10).unwrap();
    assert_eq!(c.withdraw(ALICE, 4, 1000), Ok(12));
    assert_eq!(c.get_balance(ALICE), 6);
}

#[test]
fn overdrawn_withdraw_takes_whole_balance() {
    let mut c = fresh();
    c.deposit_ppc(ALICE, 10).unwrap();
    assert_eq!(c.withdraw(ALICE, 50, 1000), Ok(30));
    assert_eq!(c.get_balance(ALICE), 0);
}

#[test]
fn withdraw_unknown_account_pays_nothing() {
    let mut c = fresh();
    assert_eq!(c.withdraw(BOB, 5, 1000), Ok(0));
    assert_eq!(c.get_balance(BOB), 0);
}

#[test]
fn withdraw_beyond_liquidity_refused() {
    let mut c = fresh();
    c.deposit_ppc(ALICE, 10).unwrap();
    assert_eq!(c.withdraw(ALICE, 10, 29), Err(LedgerError::InsufficientLiquidity));
    assert_eq!(c.get_balance(ALICE), 10);
}

#[test]
fn withdraw_value_overflow_refused() {
    let mut c = fresh();
    c.deposit_ppc(ALICE, u128::MAX).unwrap();
    assert_eq!(c.withdraw(ALICE, u128::MAX, u128::MAX), Err(LedgerError::Overflow));
    assert_eq!(c.get_balance(ALICE), u128::MAX);
}

#[test]
fn withdraw_near_rounds_credits_up() {
    let mut c = fresh();
    c.deposit_ppc(ALICE, 4).unwrap();
    assert_eq!(c.withdraw_near(ALICE, 7, 1000), Ok(7));
    assert_eq!(c.get_balance(ALICE), 1);
}

#[test]
fn withdraw_near_clamps_to_worth() {
    let mut c = fresh();
    c.deposit_ppc(ALICE, 4).unwrap();
    assert_eq!(c.withdraw_near(ALICE, 100, 1000), Ok(12));
    assert_eq!(c.get_balance(ALICE), 0);
}

#[test]
fn withdraw_near_beyond_liquidity_refused() {
    let mut c = fresh();
    c.deposit_ppc(ALICE, 4).unwrap();
    assert_eq!(c.withdraw_near(ALICE, 12, 11), Err(LedgerError::InsufficientLiquidity));
    assert_eq!(c.get_balance(ALICE), 4);
}

#[test]
fn settlement_by_stranger_unauthorized() {
    let mut c = fresh();
    assert_eq!(c.owner_withdraw(ALICE), Err(LedgerError::Unauthorized));
}

#[test]
fn settlement_pays_credits_and_periods() {
    let mut c = fresh();
    c.deposit_ppc(ALICE, 10).unwrap();
    c.update_balance(ALICE, 6).unwrap();
    c.deposit_monthly(BOB, 30, 1).unwrap();
    assert_eq!(c.owner_withdraw(OWNER), Ok(6 + 30));
    assert_eq!(c.get_balance(OWNER), 6);
    assert_eq!(c.owner_withdraw_callback(true), Ok(()));
    assert_eq!(c.get_balance(OWNER), 0);
}

#[test]
fn second_settlement_pays_nothing() {
    let mut c = fresh();
    c.deposit_ppc(ALICE, 10).unwrap();
    c.update_balance(ALICE, 6).unwrap();
    c.deposit_monthly(BOB, 30, 1).unwrap();
    assert_eq!(c.owner_withdraw(OWNER), Ok(36));
    c.owner_withdraw_callback(true).unwrap();
    assert_eq!(c.get_settled_index(), c.get_period_index());
    assert_eq!(c.owner_withdraw(OWNER), Ok(0));
    c.owner_withdraw_callback(true).unwrap();
}

#[test]
fn settlement_in_progress_refused() {
    let mut c = fresh();
    c.deposit_monthly(BOB, 20, 1).unwrap();
    assert_eq!(c.owner_withdraw(OWNER), Ok(20));
    assert_eq!(
        c.get_settlement_state(),
        SettlementState::TransferIssued { amount: 20, captured_index: 2 }
    );
    assert_eq!(c.owner_withdraw(OWNER), Err(LedgerError::SettlementInProgress));
}

#[test]
fn failed_transfer_keeps_claim() {
    let mut c = fresh();
    c.deposit_ppc(ALICE, 5).unwrap();
    c.update_balance(ALICE, 5).unwrap();
    c.deposit_monthly(BOB, 10, 1).unwrap();
    assert_eq!(c.owner_withdraw(OWNER), Ok(15));
    assert_eq!(c.owner_withdraw_callback(false), Err(LedgerError::TransferFailure));
    assert_eq!(c.get_settlement_state(), SettlementState::Abandoned);
    assert_eq!(c.get_settled_index(), 0);
    assert_eq!(c.get_balance(OWNER), 5);
    assert_eq!(c.owner_withdraw(OWNER), Ok(15));
}

#[test]
fn periods_funded_during_settlement_stay_owed() {
    let mut c = fresh();
    c.deposit_monthly(BOB, 10, 1).unwrap();
    assert_eq!(c.owner_withdraw(OWNER), Ok(10));
    c.deposit_monthly(ALICE, 20, 2).unwrap();
    c.owner_withdraw_callback(true).unwrap();
    assert_eq!(c.get_settled_index(), 1);
    assert_eq!(c.get_period_index(), 3);
    assert_eq!(c.owner_withdraw(OWNER), Ok(20));
}

#[test]
fn callback_without_settlement_refused() {
    let mut c = fresh();
    assert_eq!(c.owner_withdraw_callback(true), Err(LedgerError::NoPendingSettlement));
}

#[test]
fn settlement_overflow_refused() {
    let mut c = Contract::init(OWNER, 1, u128::MAX);
    c.deposit_monthly(ALICE, u128::MAX, 1).unwrap();
    c.deposit_ppc(OWNER, 1).unwrap();
    assert_eq!(c.owner_withdraw(OWNER), Err(LedgerError::Overflow));
}

#[test]
fn later_subscription_adds_periods_and_moves_date() {
    let mut c = fresh();
    c.deposit_monthly(ALICE, 10, 100).unwrap();
    c.deposit_monthly(ALICE, 35, 200).unwrap();
    assert_eq!(c.get_periods(ALICE), 4);
    assert_eq!(c.get_subscription_date(ALICE), Some(200));
    assert_eq!(c.get_balance(ALICE), 0);
}
