//! Facts about sequences of ledger operations, proved over the ledger model.
use vstd::prelude::*;
use crate::error::LedgerError;
use crate::ledger::{LedgerModel, SubscriptionReceipt};

verus! {

/// Two positive deposits by one account add up: its balance grows by their sum.
pub proof fn deposits_accumulate(m: LedgerModel, a: Seq<char>, x: u128, y: u128)
    requires
        m.wf(),
        x > 0,
        y > 0,
        m.balance_of(a) + x + y <= u128::MAX,
    ensures
        ({
            let (m1, r1) = m.deposit_credit(a, x);
            let (m2, r2) = m1.deposit_credit(a, y);
            &&& r1 is Ok
            &&& r2 is Ok
            &&& m2.balance_of(a) == m.balance_of(a) + x + y
        }),
{
}

/// A zero deposit is refused as an invalid amount and changes nothing.
pub proof fn zero_deposit_refused(m: LedgerModel, a: Seq<char>)
    ensures
        m.deposit_credit(a, 0) == (m, Err::<(), LedgerError>(LedgerError::InvalidAmount)),
{
}

/// Debiting more than an account holds drains it, and the owner gains exactly
/// what the account held, not the amount asked for.
pub proof fn overdraft_debit_drains(m: LedgerModel, a: Seq<char>, amount: u128)
    requires
        m.wf(),
        amount > m.balance_of(a),
        a != m.owner,
        m.balance_of(m.owner) + m.balance_of(a) <= u128::MAX,
    ensures
        ({
            let (m1, r) = m.debit(a, amount);
            &&& r == Ok::<u128, LedgerError>(m.balance_of(a))
            &&& m1.balance_of(a) == 0
            &&& m1.balance_of(m.owner) == m.balance_of(m.owner) + m.balance_of(a)
        }),
{
}

/// Paying two periods and a remainder `r` below one period buys two periods,
/// refunds `r`, and advances the global period index by two.
pub proof fn subscription_splits_payment(
    m: LedgerModel,
    a: Seq<char>,
    amount: u128,
    r: u128,
    now: u64,
)
    requires
        m.wf(),
        amount == 2 * m.period_price + r,
        0 < r < m.period_price,
        m.periods_of(a) + 2 <= u128::MAX,
        m.global_index + 2 <= u128::MAX,
    ensures
        ({
            let (m1, res) = m.deposit_subscription(a, amount, now);
            &&& res == Ok::<SubscriptionReceipt, LedgerError>(
                SubscriptionReceipt { periods: 2, refund: r },
            )
            &&& m1.periods_of(a) == m.periods_of(a) + 2
            &&& m1.global_index == m.global_index + 2
        }),
{
    let p = m.period_price as int;
    assert((2 * p + r) / p == 2 && (2 * p + r) % p == r as int) by (nonlinear_arith)
        requires
            0 < r < p,
    ;
}

/// A subscription payment below one period's price is refused and changes nothing.
pub proof fn underpaid_subscription_refused(m: LedgerModel, a: Seq<char>, amount: u128, now: u64)
    requires
        amount < m.period_price,
    ensures
        m.deposit_subscription(a, amount, now) == (m, Err::<SubscriptionReceipt, LedgerError>(
            LedgerError::InsufficientPayment,
        )),
{
}

/// After a settlement that went through, settling again with nothing new
/// funded pays out nothing: the settled index has caught up with the global one.
pub proof fn settlement_idempotent(m: LedgerModel)
    requires
        m.wf(),
        m.initiate_settlement(m.owner).1 is Ok,
    ensures
        ({
            let (m1, _) = m.initiate_settlement(m.owner);
            let (m2, r2) = m1.finalize_settlement(true);
            let (m3, r3) = m2.initiate_settlement(m.owner);
            &&& r2 is Ok
            &&& m2.last_settled == m2.global_index
            &&& r3 == Ok::<u128, LedgerError>(0)
        }),
{
}

/// While a settlement transfer is under way, starting another one is refused
/// and changes nothing.
pub proof fn settlement_not_duplicated(m: LedgerModel)
    requires
        m.settlement is TransferIssued,
    ensures
        m.initiate_settlement(m.owner) == (m, Err::<u128, LedgerError>(
            LedgerError::SettlementInProgress,
        )),
{
}

/// A second settlement started right after a successful first one is refused.
pub proof fn settlement_started_twice(m: LedgerModel)
    requires
        m.initiate_settlement(m.owner).1 is Ok,
    ensures
        ({
            let (m1, _) = m.initiate_settlement(m.owner);
            m1.initiate_settlement(m.owner) == (m1, Err::<u128, LedgerError>(
                LedgerError::SettlementInProgress,
            ))
        }),
{
}

/// Withdrawing more credits than held withdraws exactly what the held credits
/// are worth and leaves the account empty.
pub proof fn overdrawn_withdrawal_takes_all(m: LedgerModel, a: Seq<char>, requested: u128, liquidity: u128)
    requires
        m.wf(),
        requested > m.balance_of(a),
        m.balance_of(a) * m.credit_price <= liquidity,
    ensures
        ({
            let (m1, r) = m.withdraw(a, requested, liquidity);
            &&& r == Ok::<u128, LedgerError>((m.balance_of(a) * m.credit_price) as u128)
            &&& m1.balance_of(a) == 0
        }),
{
}

} // verus!
