//! The balance table: one entry per account that has ever been credited or
//! debited. An account without an entry holds nothing.
use vstd::prelude::*;
use crate::account::{AccountId, Balance};

verus! {

/// No account has two entries.
pub open spec fn keys_unique(s: Seq<(AccountId, Balance)>) -> bool {
    forall|i: int, j: int| 0 <= i < s.len() && 0 <= j < s.len() && i != j ==> s[i].0 != s[j].0
}

/// The account has an entry.
pub open spec fn has_entry(s: Seq<(AccountId, Balance)>, a: AccountId) -> bool {
    exists|i: int| 0 <= i < s.len() && s[i].0 == a
}

/// What the table says `a` holds: its entry's amount, or zero without one.
pub open spec fn balance_in(s: Seq<(AccountId, Balance)>, a: AccountId) -> nat {
    if has_entry(s, a) {
        s[choose|i: int| 0 <= i < s.len() && s[i].0 == a].1 as nat
    } else {
        0
    }
}

/// The sum of all amounts in the table.
pub open spec fn sum_of(s: Seq<(AccountId, Balance)>) -> nat
    decreases s.len(),
{
    if s.len() == 0 {
        0
    } else {
        sum_of(s.drop_last()) + s.last().1 as nat
    }
}

/// With unique keys, the entry at `i` gives its account's balance.
pub proof fn lemma_balance_at(s: Seq<(AccountId, Balance)>, i: int)
    requires
        keys_unique(s),
        0 <= i < s.len(),
    ensures
        balance_in(s, s[i].0) == s[i].1 as nat,
{
    assert(has_entry(s, s[i].0));
}

/// No single entry exceeds the sum of the table.
pub proof fn lemma_entry_le_sum(s: Seq<(AccountId, Balance)>, i: int)
    requires
        0 <= i < s.len(),
    ensures
        s[i].1 as nat <= sum_of(s),
    decreases s.len(),
{
    if i < s.len() - 1 {
        lemma_entry_le_sum(s.drop_last(), i);
    }
}

/// Replacing one entry's amount changes the sum by the difference.
pub proof fn lemma_sum_update(s: Seq<(AccountId, Balance)>, i: int, x: (AccountId, Balance))
    requires
        0 <= i < s.len(),
    ensures
        sum_of(s.update(i, x)) == sum_of(s) - s[i].1 as nat + x.1 as nat,
    decreases s.len(),
{
    if i < s.len() - 1 {
        lemma_sum_update(s.drop_last(), i, x);
        assert(s.update(i, x).drop_last() =~= s.drop_last().update(i, x));
    } else {
        assert(s.update(i, x).drop_last() =~= s.drop_last());
    }
}

/// Looks up the index of the entry for `a`.
pub fn find_entry(entries: &Vec<(AccountId, Balance)>, a: &AccountId) -> (r: Option<usize>)
    ensures
        match r {
            Some(i) => i < entries@.len() && entries@[i as int].0 == *a,
            None => !has_entry(entries@, *a),
        },
{
    let mut i: usize = 0;
    while i < entries.len()
        invariant
            i <= entries@.len(),
            forall|j: int| 0 <= j < i ==> entries@[j].0 != *a,
        decreases entries@.len() - i,
    {
        if entries[i].0.same_as(a) {
            return Some(i);
        }
        i = i + 1;
    }
    None
}

/// The amount that `a` holds in the table, zero where it has no entry.
pub fn amount_or_zero(entries: &Vec<(AccountId, Balance)>, a: &AccountId) -> (r: Balance)
    requires
        keys_unique(entries@),
    ensures
        r as nat == balance_in(entries@, *a),
{
    match find_entry(entries, a) {
        Some(i) => {
            proof {
                lemma_balance_at(entries@, i as int);
            }
            entries[i].1
        },
        None => 0,
    }
}

/// Sets the amount of `a` to `v`, adding an entry where it has none.
pub fn set_amount(entries: &mut Vec<(AccountId, Balance)>, a: AccountId, v: Balance)
    requires
        keys_unique(old(entries)@),
    ensures
        keys_unique(final(entries)@),
        balance_in(final(entries)@, a) == v as nat,
        forall|b: AccountId| b != a ==> balance_in(final(entries)@, b) == balance_in(old(entries)@, b),
        sum_of(final(entries)@) + balance_in(old(entries)@, a) == sum_of(old(entries)@) + v as nat,
{
    let ghost s = entries@;
    match find_entry(entries, &a) {
        Some(i) => {
            proof {
                lemma_balance_at(s, i as int);
                lemma_sum_update(s, i as int, (a, v));
            }
            entries.set(i, (a, v));
            proof {
                let t = entries@;
                assert(t =~= s.update(i as int, (a, v)));
                lemma_balance_at(t, i as int);
                assert forall|b: AccountId| b != a implies balance_in(t, b) == balance_in(s, b) by {
                    if has_entry(s, b) {
                        let k = choose|k: int| 0 <= k < s.len() && s[k].0 == b;
                        assert(t[k].0 == b);
                        lemma_balance_at(s, k);
                        lemma_balance_at(t, k);
                    } else if has_entry(t, b) {
                        let k = choose|k: int| 0 <= k < t.len() && t[k].0 == b;
                        assert(s[k].0 == b);
                    }
                }
            }
        },
        None => {
            entries.push((a, v));
            proof {
                let t = entries@;
                assert(t =~= s.push((a, v)));
                assert(t.drop_last() =~= s);
                lemma_balance_at(t, s.len() as int);
                assert forall|b: AccountId| b != a implies balance_in(t, b) == balance_in(s, b) by {
                    if has_entry(s, b) {
                        let k = choose|k: int| 0 <= k < s.len() && s[k].0 == b;
                        assert(t[k].0 == b);
                        lemma_balance_at(s, k);
                        lemma_balance_at(t, k);
                    } else if has_entry(t, b) {
                        let k = choose|k: int| 0 <= k < t.len() && t[k].0 == b;
                        assert(k < s.len());
                        assert(s[k].0 == b);
                    }
                }
            }
        },
    }
}

} // verus!
