//! A deposit-only ledger.
use vstd::prelude::*;
use crate::error::LedgerError;
use crate::store::{AccountMap, amount_of, credited};

verus! {

/// The smallest deposit ledger: an owner and per-account deposited value.
pub struct BoilerplateContract {
    owner: String,
    balance: AccountMap,
}

impl BoilerplateContract {
    pub closed spec fn owner_id(&self) -> Seq<char> {
        self.owner@
    }

    /// Deposited value per account.
    pub closed spec fn deposits(&self) -> Map<Seq<char>, u128> {
        self.balance@
    }

    /// An empty ledger owned by `owner`.
    pub fn init(owner: &str) -> (r: BoilerplateContract)
        ensures
            r.owner_id() == owner@,
            r.deposits() == Map::<Seq<char>, u128>::empty(),
    {
        BoilerplateContract { owner: owner.to_string(), balance: AccountMap::new() }
    }

    /// Adds the attached `deposit` to the caller's balance.
    pub fn deposit(&mut self, caller: &str, deposit: u128) -> (r: Result<(), LedgerError>)
        ensures
            final(self).owner_id() == old(self).owner_id(),
            (final(self).deposits(), r) == credited(old(self).deposits(), caller@, deposit),
    {
        self.balance.credit(caller, deposit)
    }

    /// What `account_id` has deposited.
    pub fn get_balance(&self, account_id: &str) -> (r: u128)
        ensures
            r == amount_of(self.deposits(), account_id@),
    {
        self.balance.get(account_id)
    }
}

} // verus!
