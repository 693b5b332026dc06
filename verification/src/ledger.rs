//! The internal fund ledger: address to non-negative balance.
//!
//! The ledger is the sole source of truth for the funds a buyer can spend.
//! Balances are unsigned, so non-negativity holds by construction; a debit
//! that exceeds the stored balance is rejected and changes nothing.

use vstd::prelude::*;

use crate::error::ContractError;
use crate::store::StrMap;

verus! {

/// The balance a map stores under an address, defaulting to zero.
pub open spec fn spec_balance(m: Map<Seq<char>, u128>, addr: Seq<char>) -> u128 {
    if m.dom().contains(addr) {
        m[addr]
    } else {
        0
    }
}

/// An internal balance mapping, address to unsigned amount.
pub struct Ledger {
    accounts: StrMap<u128>,
}

impl View for Ledger {
    type V = Map<Seq<char>, u128>;

    closed spec fn view(&self) -> Map<Seq<char>, u128> {
        self.accounts@
    }
}

impl Ledger {
    /// The underlying store is well formed.
    pub closed spec fn wf(self) -> bool {
        self.accounts.wf()
    }

    /// An empty ledger: every address holds zero.
    pub fn new() -> (r: Self)
        ensures
            r.wf(),
            r@ == Map::<Seq<char>, u128>::empty(),
    {
        Ledger { accounts: StrMap::new() }
    }

    /// The stored balance of an address, zero for an unknown address.
    pub fn balance_of(&self, addr: &String) -> (r: u128)
        requires
            self.wf(),
        ensures
            r == spec_balance(self@, addr@),
    {
        match self.accounts.get(addr) {
            Some(b) => *b,
            None => 0,
        }
    }

    /// Adds `amount` to the stored balance; the caller answers for the sum
    /// staying within the balance width.
    pub fn credit(&mut self, addr: &String, amount: u128)
        requires
            old(self).wf(),
            spec_balance(old(self)@, addr@) + amount <= u128::MAX,
        ensures
            final(self).wf(),
            final(self)@ == old(self)@.insert(
                addr@,
                (spec_balance(old(self)@, addr@) + amount) as u128,
            ),
    {
        let b = self.balance_of(addr);
        self.accounts.insert(addr, b + amount);
    }

    /// Adds `amount` to the stored balance, rejecting a sum that would not
    /// fit; on rejection nothing changes.
    pub fn try_credit(&mut self, addr: &String, amount: u128) -> (r: Result<(), ContractError>)
        requires
            old(self).wf(),
        ensures
            final(self).wf(),
            match r {
                Ok(()) => spec_balance(old(self)@, addr@) + amount <= u128::MAX && final(self)@
                    == old(self)@.insert(
                    addr@,
                    (spec_balance(old(self)@, addr@) + amount) as u128,
                ),
                Err(e) => e == ContractError::Overflow && spec_balance(old(self)@, addr@) + amount
                    > u128::MAX && final(self)@ == old(self)@,
            },
    {
        let b = self.balance_of(addr);
        if amount <= u128::MAX - b {
            self.accounts.insert(addr, b + amount);
            Ok(())
        } else {
            Err(ContractError::Overflow)
        }
    }

    /// Subtracts `amount` from the stored balance; fails with
    /// `InsufficientFunds`, changing nothing, when the balance is smaller.
    pub fn debit(&mut self, addr: &String, amount: u128) -> (r: Result<(), ContractError>)
        requires
            old(self).wf(),
        ensures
            final(self).wf(),
            match r {
                Ok(()) => spec_balance(old(self)@, addr@) >= amount && final(self)@
                    == old(self)@.insert(
                    addr@,
                    (spec_balance(old(self)@, addr@) - amount) as u128,
                ),
                Err(e) => e == ContractError::InsufficientFunds && spec_balance(old(self)@, addr@)
                    < amount && final(self)@ == old(self)@,
            },
    {
        let b = self.balance_of(addr);
        if b >= amount {
            self.accounts.insert(addr, b - amount);
            Ok(())
        } else {
            Err(ContractError::InsufficientFunds)
        }
    }

    /// An exact copy, used to stage a purchase before committing it.
    pub fn duplicate(&self) -> (r: Self)
        requires
            self.wf(),
        ensures
            r.wf(),
            r@ == self@,
    {
        Ledger { accounts: self.accounts.duplicate() }
    }
}

} // verus!
