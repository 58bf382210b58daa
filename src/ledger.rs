//! The credit, subscription and settlement ledger and its model.
use vstd::prelude::*;
use vstd::hash_map::StringHashMap;
use crate::error::LedgerError;
use crate::store::{AccountMap, amount_of, credited};

verus! {

/// Where the owner's two-step settlement stands.
#[derive(Debug, Clone, Copy, PartialEq, Eq, Structural)]
pub enum SettlementState {
    /// No settlement has been started.
    Idle,
    /// A transfer of `amount` was issued; `captured_index` is the global
    /// period index at that moment, which the settlement will mark as paid.
    TransferIssued { amount: u128, captured_index: u128 },
    /// The last transfer succeeded and the ledger was settled.
    Finalized,
    /// The last transfer failed; the owner's claim is untouched.
    Abandoned,
}

/// What a subscription payment bought: whole periods, and the remainder sent back.
#[derive(Debug, Clone, Copy, PartialEq, Eq, Structural)]
pub struct SubscriptionReceipt {
    pub periods: u128,
    pub refund: u128,
}

/// The ledger as mathematical values.
pub struct LedgerModel {
    pub owner: Seq<char>,
    pub credits: Map<Seq<char>, u128>,
    pub periods: Map<Seq<char>, u128>,
    pub sub_dates: Map<Seq<char>, u64>,
    pub global_index: u128,
    pub last_settled: u128,
    pub credit_price: u128,
    pub period_price: u128,
    pub settlement: SettlementState,
}

/// Credits owed back for `value`, rounded up, at `price` per credit.
pub open spec fn credits_for_value(value: int, price: int) -> int {
    if value <= 0 {
        0
    } else {
        (value - 1) / price + 1
    }
}

impl LedgerModel {
    /// A period has a positive price, and the settled index never passes the
    /// global index, nor the index captured by a pending settlement.
    pub open spec fn wf(self) -> bool {
        &&& self.period_price > 0
        &&& self.last_settled <= self.global_index
        &&& match self.settlement {
            SettlementState::TransferIssued { captured_index, .. } =>
                self.last_settled <= captured_index <= self.global_index,
            _ => true,
        }
    }

    pub open spec fn balance_of(self, a: Seq<char>) -> u128 {
        amount_of(self.credits, a)
    }

    pub open spec fn periods_of(self, a: Seq<char>) -> u128 {
        amount_of(self.periods, a)
    }

    /// Value earned from periods funded since the last settlement.
    pub open spec fn period_revenue(self) -> int {
        (self.global_index - self.last_settled) * self.period_price
    }

    /// The owner's claim: spent credits plus unsettled period revenue.
    pub open spec fn owed_to_owner(self) -> int {
        self.balance_of(self.owner) + self.period_revenue()
    }

    pub open spec fn deposit_credit(self, caller: Seq<char>, amount: u128) -> (
        LedgerModel,
        Result<(), LedgerError>,
    ) {
        let (credits, r) = credited(self.credits, caller, amount);
        (LedgerModel { credits, ..self }, r)
    }

    /// Takes at most `amount` from `user` (draining it when short) and gives
    /// the owner exactly what was taken.
    pub open spec fn debit(self, user: Seq<char>, amount: u128) -> (
        LedgerModel,
        Result<u128, LedgerError>,
    ) {
        let held = self.balance_of(user);
        let taken: u128 = if amount > held { held } else { amount };
        let drained = self.credits.insert(user, (held - taken) as u128);
        let owner_held = amount_of(drained, self.owner);
        if amount == 0 {
            (self, Err(LedgerError::InvalidAmount))
        } else if owner_held + taken > u128::MAX {
            (self, Err(LedgerError::Overflow))
        } else {
            (
                LedgerModel {
                    credits: drained.insert(self.owner, (owner_held + taken) as u128),
                    ..self
                },
                Ok(taken),
            )
        }
    }

    /// Withdraws up to `requested` credits (all held when short) as value,
    /// given the contract's liquid holdings; the result is the value to send.
    pub open spec fn withdraw(self, caller: Seq<char>, requested: u128, liquidity: u128) -> (
        LedgerModel,
        Result<u128, LedgerError>,
    ) {
        let held = self.balance_of(caller);
        let credits: u128 = if requested > held { held } else { requested };
        let value = credits * self.credit_price;
        if value > u128::MAX {
            (self, Err(LedgerError::Overflow))
        } else if liquidity < value {
            (self, Err(LedgerError::InsufficientLiquidity))
        } else {
            (
                LedgerModel { credits: self.credits.insert(caller, (held - credits) as u128), ..self },
                Ok(value as u128),
            )
        }
    }

    /// Withdraws up to `requested` value (all that the credits held are worth
    /// when short); the credits taken are the value's worth rounded up.
    pub open spec fn withdraw_value(self, caller: Seq<char>, requested: u128, liquidity: u128) -> (
        LedgerModel,
        Result<u128, LedgerError>,
    ) {
        let held = self.balance_of(caller);
        let worth = held * self.credit_price;
        let value: int = if requested > worth { worth } else { requested as int };
        let taken = credits_for_value(value, self.credit_price as int);
        if liquidity < value {
            (self, Err(LedgerError::InsufficientLiquidity))
        } else {
            (
                LedgerModel { credits: self.credits.insert(caller, (held - taken) as u128), ..self },
                Ok(value as u128),
            )
        }
    }

    /// Buys whole periods with `amount` at time `now`; the remainder is refunded.
    pub open spec fn deposit_subscription(self, caller: Seq<char>, amount: u128, now: u64) -> (
        LedgerModel,
        Result<SubscriptionReceipt, LedgerError>,
    ) {
        let bought = amount / self.period_price;
        let refund = amount % self.period_price;
        if amount < self.period_price {
            (self, Err(LedgerError::InsufficientPayment))
        } else if self.periods_of(caller) + bought > u128::MAX || self.global_index + bought
            > u128::MAX {
            (self, Err(LedgerError::Overflow))
        } else {
            (
                LedgerModel {
                    periods: self.periods.insert(
                        caller,
                        (self.periods_of(caller) + bought) as u128,
                    ),
                    sub_dates: self.sub_dates.insert(caller, now),
                    global_index: (self.global_index + bought) as u128,
                    ..self
                },
                Ok(SubscriptionReceipt { periods: bought as u128, refund: refund as u128 }),
            )
        }
    }

    /// Starts a settlement: the owner is to be sent what is owed, and the
    /// ledger waits for the outcome of that transfer.
    pub open spec fn initiate_settlement(self, caller: Seq<char>) -> (
        LedgerModel,
        Result<u128, LedgerError>,
    ) {
        if caller != self.owner {
            (self, Err(LedgerError::Unauthorized))
        } else if self.settlement is TransferIssued {
            (self, Err(LedgerError::SettlementInProgress))
        } else if self.period_revenue() > u128::MAX || self.owed_to_owner() > u128::MAX {
            (self, Err(LedgerError::Overflow))
        } else {
            (
                LedgerModel {
                    settlement: SettlementState::TransferIssued {
                        amount: self.owed_to_owner() as u128,
                        captured_index: self.global_index,
                    },
                    ..self
                },
                Ok(self.owed_to_owner() as u128),
            )
        }
    }

    /// Records the outcome of the settlement transfer.
    pub open spec fn finalize_settlement(self, transfer_ok: bool) -> (
        LedgerModel,
        Result<(), LedgerError>,
    ) {
        match self.settlement {
            SettlementState::TransferIssued { captured_index, .. } => if transfer_ok {
                (
                    LedgerModel {
                        credits: self.credits.insert(self.owner, 0),
                        last_settled: captured_index,
                        settlement: SettlementState::Finalized,
                        ..self
                    },
                    Ok(()),
                )
            } else {
                (
                    LedgerModel { settlement: SettlementState::Abandoned, ..self },
                    Err(LedgerError::TransferFailure),
                )
            },
            _ => (self, Err(LedgerError::NoPendingSettlement)),
        }
    }
}

/// The billing ledger: per-account credits and subscription periods, the
/// global period counter, and the owner's settlement state.
pub struct Contract {
    owner: String,
    balances: AccountMap,
    months: AccountMap,
    sub_dates: StringHashMap<u64>,
    sub_index: u128,
    last_sub_withdrawal: u128,
    yocto_per_credit: u128,
    yocto_per_month: u128,
    settlement: SettlementState,
}

impl View for Contract {
    type V = LedgerModel;

    closed spec fn view(&self) -> LedgerModel {
        LedgerModel {
            owner: self.owner@,
            credits: self.balances@,
            periods: self.months@,
            sub_dates: self.sub_dates@,
            global_index: self.sub_index,
            last_settled: self.last_sub_withdrawal,
            credit_price: self.yocto_per_credit,
            period_price: self.yocto_per_month,
            settlement: self.settlement,
        }
    }
}

impl Contract {
    pub open spec fn wf(&self) -> bool {
        self@.wf()
    }

    /// A fresh ledger owned by `owner`, with the price of a credit and of a
    /// period. The period price must be positive: payments are divided by it.
    pub fn init(owner: &str, ypc: u128, ypm: u128) -> (r: Contract)
        requires
            ypm > 0,
        ensures
            r.wf(),
            r@ == (LedgerModel {
                owner: owner@,
                credits: Map::empty(),
                periods: Map::empty(),
                sub_dates: Map::empty(),
                global_index: 0,
                last_settled: 0,
                credit_price: ypc,
                period_price: ypm,
                settlement: SettlementState::Idle,
            }),
    {
        Contract {
            owner: owner.to_string(),
            balances: AccountMap::new(),
            months: AccountMap::new(),
            sub_dates: StringHashMap::new(),
            sub_index: 0,
            last_sub_withdrawal: 0,
            yocto_per_credit: ypc,
            yocto_per_month: ypm,
            settlement: SettlementState::Idle,
        }
    }

    /// Whether `account` is the owner.
    fn is_owner(&self, account: &str) -> (r: bool)
        ensures
            r == (account@ == self@.owner),
    {
        let a = account.to_string();
        a == self.owner
    }

    /// Adds the attached `deposit` to the caller's credits.
    pub fn deposit_ppc(&mut self, caller: &str, deposit: u128) -> (r: Result<(), LedgerError>)
        requires
            old(self).wf(),
        ensures
            final(self).wf(),
            (final(self)@, r) == old(self)@.deposit_credit(caller@, deposit),
    {
        self.balances.credit(caller, deposit)
    }

    /// Charges `user` for usage: takes `amount` credits, or all it holds when
    /// short, and credits the owner with what was taken; returns that amount.
    ///
    /// Unlike deposits, which are refused on bad amounts, a debit never fails
    /// for want of funds: metering is not blocked by an empty account.
    pub fn update_balance(&mut self, user: &str, amount: u128) -> (r: Result<u128, LedgerError>)
        requires
            old(self).wf(),
        ensures
            final(self).wf(),
            (final(self)@, r) == old(self)@.debit(user@, amount),
    {
        if amount == 0 {
            return Err(LedgerError::InvalidAmount);
        }
        let held = self.balances.get(user);
        let taken: u128 = if amount > held { held } else { amount };
        let owner_held = if self.is_owner(user) {
            held - taken
        } else {
            self.balances.get(self.owner.as_str())
        };
        let owner_total = match owner_held.checked_add(taken) {
            Some(t) => t,
            None => return Err(LedgerError::Overflow),
        };
        self.balances.set(user, held - taken);
        self.balances.set(self.owner.as_str(), owner_total);
        Ok(taken)
    }

    /// Buys subscription periods with the attached `deposit` at time `now`.
    /// The receipt's `refund` is the remainder that the host sends back.
    pub fn deposit_monthly(&mut self, caller: &str, deposit: u128, now: u64) -> (r: Result<
        SubscriptionReceipt,
        LedgerError,
    >)
        requires
            old(self).wf(),
        ensures
            final(self).wf(),
            (final(self)@, r) == old(self)@.deposit_subscription(caller@, deposit, now),
    {
        let ypm = self.yocto_per_month;
        if deposit < ypm {
            return Err(LedgerError::InsufficientPayment);
        }
        let overpay: u128 = deposit % ypm;
        let periods: u128 = deposit / ypm;
        let owned = self.months.get(caller);
        let new_owned = match owned.checked_add(periods) {
            Some(t) => t,
            None => return Err(LedgerError::Overflow),
        };
        let new_index = match self.sub_index.checked_add(periods) {
            Some(t) => t,
            None => return Err(LedgerError::Overflow),
        };
        self.sub_dates.insert(caller.to_string(), now);
        self.months.set(caller, new_owned);
        self.sub_index = new_index;
        Ok(SubscriptionReceipt { periods, refund: overpay })
    }

    /// Withdraws `amount` credits, or all the caller holds when short, given
    /// the contract's liquid holdings; returns the value for the host to send.
    pub fn withdraw(&mut self, caller: &str, amount: u128, liquidity: u128) -> (r: Result<
        u128,
        LedgerError,
    >)
        requires
            old(self).wf(),
        ensures
            final(self).wf(),
            (final(self)@, r) == old(self)@.withdraw(caller@, amount, liquidity),
    {
        let held = self.balances.get(caller);
        let credits: u128 = if amount > held { held } else { amount };
        let value = match credits.checked_mul(self.yocto_per_credit) {
            Some(v) => v,
            None => return Err(LedgerError::Overflow),
        };
        self.pay_out(caller, held, credits, value, liquidity)
    }

    /// Withdraws `amount_near` value, or all that the caller's credits are worth
    /// when short, given the contract's liquid holdings; the credits taken are
    /// the value's worth rounded up. Returns the value for the host to send.
    pub fn withdraw_near(&mut self, caller: &str, amount_near: u128, liquidity: u128) -> (r: Result<
        u128,
        LedgerError,
    >)
        requires
            old(self).wf(),
        ensures
            final(self).wf(),
            (final(self)@, r) == old(self)@.withdraw_value(caller@, amount_near, liquidity),
    {
        let held = self.balances.get(caller);
        let price = self.yocto_per_credit;
        let value: u128 = match held.checked_mul(price) {
            Some(worth) => if amount_near > worth { worth } else { amount_near },
            None => amount_near,
        };
        let taken: u128 = if value == 0 {
            0
        } else {
            proof {
                let v = value as int;
                let p = price as int;
                assert(p > 0) by (nonlinear_arith)
                    requires v > 0, v <= held as int * p, p >= 0;
                vstd::arithmetic::div_mod::lemma_div_by_multiple_is_strongly_ordered(
                    v - 1, held as int * p, held as int, p);
                vstd::arithmetic::div_mod::lemma_div_by_multiple(held as int, p);
            }
            (value - 1) / price + 1
        };
        self.pay_out(caller, held, taken, value, liquidity)
    }

    /// Takes `taken` of the `held` credits from `caller` and returns `value`,
    /// when the contract's `liquidity` covers it.
    fn pay_out(&mut self, caller: &str, held: u128, taken: u128, value: u128, liquidity: u128)
        -> (r: Result<u128, LedgerError>)
        requires
            old(self).wf(),
            held == old(self)@.balance_of(caller@),
            taken <= held,
        ensures
            final(self).wf(),
            liquidity < value ==> final(self)@ == old(self)@ && r == Err::<u128, LedgerError>(
                LedgerError::InsufficientLiquidity,
            ),
            liquidity >= value ==> r == Ok::<u128, LedgerError>(value) && final(self)@ == (
            LedgerModel {
                credits: old(self)@.credits.insert(caller@, (held - taken) as u128),
                ..old(self)@
            }),
    {
        if liquidity < value {
            return Err(LedgerError::InsufficientLiquidity);
        }
        self.balances.set(caller, held - taken);
        Ok(value)
    }

    /// Starts the owner's settlement: returns the value owed to the owner,
    /// which the host transfers before reporting back through
    /// `owner_withdraw_callback`. The ledger itself is settled only then.
    pub fn owner_withdraw(&mut self, caller: &str) -> (r: Result<u128, LedgerError>)
        requires
            old(self).wf(),
        ensures
            final(self).wf(),
            (final(self)@, r) == old(self)@.initiate_settlement(caller@),
    {
        if !self.is_owner(caller) {
            return Err(LedgerError::Unauthorized);
        }
        if let SettlementState::TransferIssued { .. } = self.settlement {
            return Err(LedgerError::SettlementInProgress);
        }
        let unsettled = self.sub_index - self.last_sub_withdrawal;
        let sub_total = match unsettled.checked_mul(self.yocto_per_month) {
            Some(t) => t,
            None => return Err(LedgerError::Overflow),
        };
        let owner_credits = self.balances.get(self.owner.as_str());
        let total_withdraw = match owner_credits.checked_add(sub_total) {
            Some(t) => t,
            None => return Err(LedgerError::Overflow),
        };
        self.settlement = SettlementState::TransferIssued {
            amount: total_withdraw,
            captured_index: self.sub_index,
        };
        Ok(total_withdraw)
    }

    /// Records whether the settlement transfer went through. On success the
    /// owner's credits are cleared and the periods up to the captured index
    /// are marked as paid; on failure nothing is settled.
    pub fn owner_withdraw_callback(&mut self, transfer_ok: bool) -> (r: Result<(), LedgerError>)
        requires
            old(self).wf(),
        ensures
            final(self).wf(),
            (final(self)@, r) == old(self)@.finalize_settlement(transfer_ok),
    {
        match self.settlement {
            SettlementState::TransferIssued { captured_index, .. } => {
                if transfer_ok {
                    self.balances.set(self.owner.as_str(), 0);
                    self.last_sub_withdrawal = captured_index;
                    self.settlement = SettlementState::Finalized;
                    Ok(())
                } else {
                    self.settlement = SettlementState::Abandoned;
                    Err(LedgerError::TransferFailure)
                }
            },
            _ => Err(LedgerError::NoPendingSettlement),
        }
    }

    /// The credits held by `account_id`.
    pub fn get_balance(&self, account_id: &str) -> (r: u128)
        ensures
            r == self@.balance_of(account_id@),
    {
        self.balances.get(account_id)
    }

    /// The subscription periods bought by `account_id`.
    pub fn get_periods(&self, account_id: &str) -> (r: u128)
        ensures
            r == self@.periods_of(account_id@),
    {
        self.months.get(account_id)
    }

    /// When `account_id` last paid for a subscription, if ever.
    pub fn get_subscription_date(&self, account_id: &str) -> (r: Option<u64>)
        ensures
            r == (if self@.sub_dates.contains_key(account_id@) {
                Some(self@.sub_dates[account_id@])
            } else {
                None
            }),
    {
        match self.sub_dates.get(account_id) {
            Some(t) => Some(*t),
            None => None,
        }
    }

    /// Total periods ever funded, over all accounts.
    pub fn get_period_index(&self) -> (r: u128)
        ensures
            r == self@.global_index,
    {
        self.sub_index
    }

    /// The period index up to which the owner has been paid.
    pub fn get_settled_index(&self) -> (r: u128)
        ensures
            r == self@.last_settled,
    {
        self.last_sub_withdrawal
    }

    /// Where the owner's settlement stands.
    pub fn get_settlement_state(&self) -> (r: SettlementState)
        ensures
            r == self@.settlement,
    {
        self.settlement
    }

    /// The value of one credit.
    pub fn get_credit_cost(&self) -> (r: u128)
        ensures
            r == self@.credit_price,
    {
        self.yocto_per_credit
    }

    /// The value of one subscription period.
    pub fn get_monthly_cost(&self) -> (r: u128)
        ensures
            r == self@.period_price,
    {
        self.yocto_per_month
    }
}

} // verus!
