//! An in-memory escrow ledger: fungible balances keyed by account.
//!
//! An account that was never credited holds nothing. A transfer either moves
//! the whole amount or changes nothing.

use std::collections::HashMap;
use vstd::prelude::*;

use crate::types::{AccountId, Balance, TransferError};

verus! {

broadcast use vstd::std_specs::hash::group_hash_axioms;

/// Whether `amount` can move from `from` to `to` in `balances`, and if not,
/// why not. A transfer to oneself needs the funds and leaves them in place.
pub open spec fn transfer_outcome(
    balances: Map<AccountId, Balance>,
    from: AccountId,
    to: AccountId,
    amount: Balance,
) -> Result<(), TransferError> {
    if balances[from] < amount {
        Err(TransferError::InsufficientBalance)
    } else if from != to && balances[to] + amount > Balance::MAX {
        Err(TransferError::Overflow)
    } else {
        Ok(())
    }
}

/// The balances after `amount` has moved from `from` to `to`.
pub open spec fn transferred(
    balances: Map<AccountId, Balance>,
    from: AccountId,
    to: AccountId,
    amount: Balance,
) -> Map<AccountId, Balance> {
    if from == to {
        balances
    } else {
        balances.insert(from, (balances[from] - amount) as Balance).insert(
            to,
            (balances[to] + amount) as Balance,
        )
    }
}

/// Balances of all accounts.
pub struct Ledger {
    accounts: HashMap<AccountId, Balance>,
}

impl View for Ledger {
    type V = Map<AccountId, Balance>;

    /// The balance of every account; zero for one that was never credited.
    closed spec fn view(&self) -> Map<AccountId, Balance> {
        Map::total(
            |who: AccountId|
                if self.accounts@.contains_key(who) {
                    self.accounts@[who]
                } else {
                    0
                },
        )
    }
}

impl Ledger {
    /// A ledger on which every account holds nothing.
    pub fn new() -> (ledger: Ledger)
        ensures
            ledger@ == Map::<AccountId, Balance>::total(|who: AccountId| 0u128),
    {
        let ledger = Ledger { accounts: HashMap::new() };
        assert(ledger@ =~= Map::<AccountId, Balance>::total(|who: AccountId| 0u128));
        ledger
    }

    /// The balance of `who`.
    pub fn free_balance(&self, who: AccountId) -> (amount: Balance)
        ensures
            amount == self@[who],
    {
        match self.accounts.get(&who) {
            Some(held) => *held,
            None => 0,
        }
    }

    /// Credits `who` with `amount` of new funds, unless the balance would
    /// overflow.
    pub fn deposit(&mut self, who: AccountId, amount: Balance) -> (done: Result<(), TransferError>)
        ensures
            old(self)@[who] + amount <= Balance::MAX ==> done == Ok::<(), TransferError>(())
                && final(self)@ == old(self)@.insert(who, (old(self)@[who] + amount) as Balance),
            old(self)@[who] + amount > Balance::MAX ==> done == Err::<(), TransferError>(
                TransferError::Overflow,
            ) && final(self)@ == old(self)@,
    {
        let held = self.free_balance(who);
        match held.checked_add(amount) {
            Some(sum) => {
                self.accounts.insert(who, sum);
                assert(self@ =~= old(self)@.insert(who, sum));
                Ok(())
            },
            None => Err(TransferError::Overflow),
        }
    }

    /// Moves `amount` from `from` to `to`, or changes nothing.
    pub fn transfer(&mut self, from: AccountId, to: AccountId, amount: Balance) -> (done: Result<
        (),
        TransferError,
    >)
        ensures
            done == transfer_outcome(old(self)@, from, to, amount),
            done is Ok ==> final(self)@ == transferred(old(self)@, from, to, amount),
            done is Err ==> final(self)@ == old(self)@,
    {
        let held = self.free_balance(from);
        if held < amount {
            return Err(TransferError::InsufficientBalance);
        }
        if from == to {
            return Ok(());
        }
        let received = self.free_balance(to);
        match received.checked_add(amount) {
            Some(sum) => {
                self.accounts.insert(from, held - amount);
                self.accounts.insert(to, sum);
                assert(self@ =~= transferred(old(self)@, from, to, amount));
                Ok(())
            },
            None => Err(TransferError::Overflow),
        }
    }
}

} // verus!
