use std::collections::BTreeMap;

use vstd::prelude::*;

use crate::types::{AccountId, Balance};

verus! {

broadcast use vstd::std_specs::btree::group_btree_axioms, vstd::laws_cmp::group_laws_cmp;

/// The payer's balance would fall below what it must keep.
#[derive(Clone, Copy, Debug, PartialEq, Eq, Structural)]
pub struct InsufficientFunds;

/// A ledger that moves amounts between accounts and refuses a payment that
/// would leave the payer under its minimum balance.
pub trait Currency: Sized {
    /// Whether `transfer(source, dest, value)` would succeed on this ledger.
    spec fn can_transfer(&self, source: AccountId, dest: AccountId, value: Balance) -> bool;

    /// Whether `after` is this ledger once `value` has moved from `source`
    /// to `dest`, and nothing else has changed.
    spec fn transferred(
        &self,
        after: &Self,
        source: AccountId,
        dest: AccountId,
        value: Balance,
    ) -> bool;

    /// Moves `value` from `source` to `dest`; on failure nothing changes.
    fn transfer(&mut self, source: AccountId, dest: AccountId, value: Balance) -> (r: Result<
        (),
        InsufficientFunds,
    >)
        ensures
            r is Ok <==> old(self).can_transfer(source, dest, value),
            r is Ok ==> old(self).transferred(&*final(self), source, dest, value),
            r is Err ==> *final(self) == *old(self),
    ;
}

/// Balance of `who` in a map of balances: absent accounts hold nothing.
pub open spec fn balance_in(m: Map<AccountId, Balance>, who: AccountId) -> Balance {
    if m.contains_key(who) {
        m[who]
    } else {
        0
    }
}

/// An in-memory ledger whose payers must keep at least `minimum` after paying.
pub struct Balances {
    accounts: BTreeMap<AccountId, Balance>,
    minimum: Balance,
}

impl Balances {
    /// The balances of all accounts that hold something.
    pub closed spec fn view(&self) -> Map<AccountId, Balance> {
        self.accounts@
    }

    /// What every payer must keep after paying.
    pub closed spec fn spec_minimum(&self) -> Balance {
        self.minimum
    }

    /// Balance of `who`.
    pub open spec fn balance(&self, who: AccountId) -> Balance {
        balance_in(self.view(), who)
    }

    /// Whether `source` can pay `value` to `dest` and keep its minimum, without
    /// the receiver's balance overflowing.
    pub open spec fn allows(&self, source: AccountId, dest: AccountId, value: Balance) -> bool {
        &&& self.balance(source) >= value
        &&& self.balance(source) - value >= self.spec_minimum()
        &&& (source == dest || self.balance(dest) + value <= Balance::MAX)
    }

    /// Whether `after` holds this ledger's balances once `value` has moved
    /// from `source` to `dest`, with the same minimum.
    pub open spec fn paid(&self, after: &Balances, source: AccountId, dest: AccountId, value: Balance) -> bool {
        &&& after.spec_minimum() == self.spec_minimum()
        &&& source != dest ==> after.view() == self.view().insert(
            source,
            (self.balance(source) - value) as Balance,
        ).insert(dest, (self.balance(dest) + value) as Balance)
        &&& source == dest ==> after.view() == self.view()
    }

    /// A ledger where nobody holds anything.
    pub fn new(minimum: Balance) -> (r: Balances)
        ensures
            r.view() == Map::<AccountId, Balance>::empty(),
            r.spec_minimum() == minimum,
    {
        Balances { accounts: BTreeMap::new(), minimum }
    }

    /// What every payer must keep after paying.
    pub fn minimum(&self) -> (r: Balance)
        ensures
            r == self.spec_minimum(),
    {
        self.minimum
    }

    /// Sets the balance of `who`.
    pub fn set_balance(&mut self, who: AccountId, value: Balance)
        ensures
            final(self).view() == old(self).view().insert(who, value),
            final(self).spec_minimum() == old(self).spec_minimum(),
    {
        self.accounts.insert(who, value);
    }

    /// Balance of `who`.
    pub fn free_balance(&self, who: AccountId) -> (r: Balance)
        ensures
            r == self.balance(who),
    {
        match self.accounts.get(&who) {
            Some(v) => *v,
            None => 0,
        }
    }

    /// Moves `value` from `source` to `dest` when `allows` holds; otherwise
    /// leaves the ledger as it is.
    pub fn pay(&mut self, source: AccountId, dest: AccountId, value: Balance) -> (r: Result<
        (),
        InsufficientFunds,
    >)
        ensures
            r is Ok <==> old(self).allows(source, dest, value),
            r is Ok && source != dest ==> final(self).view() == old(self).view().insert(
                source,
                (old(self).balance(source) - value) as Balance,
            ).insert(dest, (old(self).balance(dest) + value) as Balance),
            r is Ok && source == dest ==> final(self).view() == old(self).view(),
            r is Err ==> *final(self) == *old(self),
            final(self).spec_minimum() == old(self).spec_minimum(),
    {
        let from = self.free_balance(source);
        if from < value || from - value < self.minimum {
            return Err(InsufficientFunds);
        }
        if source == dest {
            return Ok(());
        }
        let to = self.free_balance(dest);
        if to > Balance::MAX - value {
            return Err(InsufficientFunds);
        }
        self.accounts.insert(source, from - value);
        self.accounts.insert(dest, to + value);
        Ok(())
    }
}

impl Currency for Balances {
    open spec fn can_transfer(&self, source: AccountId, dest: AccountId, value: Balance) -> bool {
        self.allows(source, dest, value)
    }

    open spec fn transferred(
        &self,
        after: &Balances,
        source: AccountId,
        dest: AccountId,
        value: Balance,
    ) -> bool {
        self.paid(after, source, dest, value)
    }

    fn transfer(&mut self, source: AccountId, dest: AccountId, value: Balance) -> (r: Result<
        (),
        InsufficientFunds,
    >) {
        self.pay(source, dest, value)
    }
}

} // verus!
