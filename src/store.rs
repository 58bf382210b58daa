//! Per-account amounts, read as zero where an account has no entry.
use vstd::prelude::*;
use vstd::hash_map::StringHashMap;
use crate::error::LedgerError;

verus! {

/// The amount held for `a` in `m`; an account with no entry holds zero.
pub open spec fn amount_of(m: Map<Seq<char>, u128>, a: Seq<char>) -> u128 {
    if m.contains_key(a) {
        m[a]
    } else {
        0
    }
}

/// The amounts after `amount` is added to what `a` holds in `m`, and the outcome.
pub open spec fn credited(m: Map<Seq<char>, u128>, a: Seq<char>, amount: u128) -> (
    Map<Seq<char>, u128>,
    Result<(), LedgerError>,
) {
    if amount == 0 {
        (m, Err(LedgerError::InvalidAmount))
    } else if amount_of(m, a) + amount > u128::MAX {
        (m, Err(LedgerError::Overflow))
    } else {
        (m.insert(a, (amount_of(m, a) + amount) as u128), Ok(()))
    }
}

/// Account identifier to unsigned amount; a missing entry reads as zero.
pub struct AccountMap {
    entries: StringHashMap<u128>,
}

impl View for AccountMap {
    type V = Map<Seq<char>, u128>;

    closed spec fn view(&self) -> Map<Seq<char>, u128> {
        self.entries@
    }
}

impl AccountMap {
    pub fn new() -> (r: AccountMap)
        ensures
            r@ == Map::<Seq<char>, u128>::empty(),
    {
        AccountMap { entries: StringHashMap::new() }
    }

    /// What `a` holds, zero when it has no entry.
    pub fn get(&self, a: &str) -> (r: u128)
        ensures
            r == amount_of(self@, a@),
    {
        match self.entries.get(a) {
            Some(v) => *v,
            None => 0,
        }
    }

    /// Overwrites what `a` holds.
    pub fn set(&mut self, a: &str, v: u128)
        ensures
            final(self)@ == old(self)@.insert(a@, v),
    {
        self.entries.insert(a.to_string(), v);
    }

    /// Adds a positive `amount` to what `a` holds, with checked addition.
    pub fn credit(&mut self, a: &str, amount: u128) -> (r: Result<(), LedgerError>)
        ensures
            (final(self)@, r) == credited(old(self)@, a@, amount),
    {
        if amount == 0 {
            return Err(LedgerError::InvalidAmount);
        }
        let held = self.get(a);
        match held.checked_add(amount) {
            Some(total) => {
                self.set(a, total);
                Ok(())
            },
            None => Err(LedgerError::Overflow),
        }
    }
}

} // verus!
