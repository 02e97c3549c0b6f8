//! The ledger: a fixed total supply and the table of who holds it.
use vstd::prelude::*;
use crate::account::{AccountId, Balance};
use crate::table::{amount_or_zero, balance_in, has_entry, keys_unique, lemma_balance_at, lemma_entry_le_sum, set_amount, sum_of};

verus! {

/// A fungible-token ledger. Its total supply is fixed at construction and
/// always equals the sum of all balances.
pub struct Erc20 {
    total_supply: Balance,
    balances: Vec<(AccountId, Balance)>,
}

impl Erc20 {
    /// The total supply recorded at construction.
    pub closed spec fn supply(&self) -> nat {
        self.total_supply as nat
    }

    /// The table of stored balances, one entry per account.
    pub closed spec fn entries(&self) -> Seq<(AccountId, Balance)> {
        self.balances@
    }

    /// What `a` holds; zero for an account the ledger has never touched.
    pub open spec fn balance(&self, a: AccountId) -> nat {
        balance_in(self.entries(), a)
    }

    /// The total supply equals the sum of all stored balances.
    pub open spec fn conserves(&self) -> bool {
        self.supply() == sum_of(self.entries())
    }

    /// Each account has at most one entry, and the supply is conserved.
    pub open spec fn wf(&self) -> bool {
        keys_unique(self.entries()) && self.conserves()
    }

    /// Creates a ledger whose whole `initial_supply` belongs to `caller`.
    pub fn new(caller: AccountId, initial_supply: Balance) -> (r: Erc20)
        ensures
            r.wf(),
            r.supply() == initial_supply,
            r.balance(caller) == initial_supply,
            forall|a: AccountId| a != caller ==> r.balance(a) == 0,
    {
        let mut balances: Vec<(AccountId, Balance)> = Vec::new();
        balances.push((caller, initial_supply));
        proof {
            let s = balances@;
            assert(s.drop_last() =~= Seq::<(AccountId, Balance)>::empty());
            assert(sum_of(s) == sum_of(s.drop_last()) + s.last().1 as nat);
            lemma_balance_at(s, 0);
        }
        Erc20 { total_supply: initial_supply, balances }
    }

    /// The total supply.
    pub fn total_supply(&self) -> (r: Balance)
        ensures
            r as nat == self.supply(),
    {
        self.total_supply
    }

    /// The balance of `owner`, zero where it holds nothing.
    pub fn balance_of(&self, owner: AccountId) -> (r: Balance)
        requires
            self.wf(),
        ensures
            r as nat == self.balance(owner),
    {
        self.balance_of_or_zero(&owner)
    }

    /// The balance of `owner`, zero where the table has no entry for it.
    fn balance_of_or_zero(&self, owner: &AccountId) -> (r: Balance)
        requires
            self.wf(),
        ensures
            r as nat == self.balance(*owner),
    {
        amount_or_zero(&self.balances, owner)
    }

    /// Moves `value` units from `caller` to `to`. The calling boundary passes
    /// the authenticated caller; see `transfer_from_to` for what holds.
    pub fn transfer(&mut self, caller: AccountId, to: AccountId, value: Balance) -> (r: bool)
        requires
            old(self).wf(),
        ensures
            transfer_outcome(*old(self), *final(self), caller, to, value as nat, r),
    {
        self.transfer_from_to(caller, to, value)
    }

    /// Moves `value` units from `from` to `to` where `from` holds at least
    /// `value`, and returns whether it did. A refused transfer changes nothing.
    pub fn transfer_from_to(&mut self, from: AccountId, to: AccountId, value: Balance) -> (r: bool)
        requires
            old(self).wf(),
        ensures
            transfer_outcome(*old(self), *final(self), from, to, value as nat, r),
    {
        let from_balance = self.balance_of_or_zero(&from);
        if from_balance < value {
            return false;
        }
        let ghost pre = *self;
        set_amount(&mut self.balances, from, from_balance - value);
        let to_balance = amount_or_zero(&self.balances, &to);
        proof {
            // `to` holds no more than the supply that is left after the debit.
            let s = self.balances@;
            if has_entry(s, to) {
                let k = choose|k: int| 0 <= k < s.len() && s[k].0 == to;
                lemma_balance_at(s, k);
                lemma_entry_le_sum(s, k);
            }
        }
        set_amount(&mut self.balances, to, to_balance + value);
        proof {
            assert(pre.balance(from) >= value);
        }
        true
    }
}

/// What a transfer of `value` from `from` to `to` on `pre` leaves as `post`,
/// when it returned `r`: it succeeds exactly when `from` holds at least
/// `value`; on success `value` units move from `from` to `to`, and a
/// transfer to oneself leaves the balance as it was; on failure nothing
/// changes. No other account is affected, the supply stays fixed, and the
/// ledger stays well formed.
pub open spec fn transfer_outcome(pre: Erc20, post: Erc20, from: AccountId, to: AccountId, value: nat, r: bool) -> bool {
    &&& r == (pre.balance(from) >= value)
    &&& post.wf()
    &&& post.supply() == pre.supply()
    &&& !r ==> post == pre
    &&& r && from != to ==> post.balance(from) == pre.balance(from) - value
        && post.balance(to) == pre.balance(to) + value
    &&& r && from == to ==> post.balance(from) == pre.balance(from)
    &&& forall|a: AccountId| a != from && a != to ==> post.balance(a) == pre.balance(a)
}

} // verus!
