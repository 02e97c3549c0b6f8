//! Laws of the ledger, stated over the outcome that every transfer
//! guarantees (`transfer_outcome`).
use vstd::prelude::*;
use crate::account::AccountId;
use crate::ledger::{transfer_outcome, Erc20};
use crate::table::{has_entry, lemma_balance_at, lemma_entry_le_sum};

verus! {

/// Conservation: along any run of transfers that starts from a well-formed
/// ledger, every state has the starting supply, and that supply equals the
/// sum of all balances.
pub proof fn lemma_conservation(states: Seq<Erc20>, steps: Seq<(AccountId, AccountId, nat, bool)>)
    requires
        states.len() == steps.len() + 1,
        states[0].wf(),
        forall|i: int|
            0 <= i < steps.len() ==> #[trigger] transfer_outcome(
                states[i],
                states[i + 1],
                steps[i].0,
                steps[i].1,
                steps[i].2,
                steps[i].3,
            ),
    ensures
        forall|i: int|
            0 <= i < states.len() ==> #[trigger] states[i].conserves() && states[i].supply()
                == states[0].supply(),
    decreases steps.len(),
{
    if steps.len() > 0 {
        let n = steps.len() - 1;
        lemma_conservation(states.drop_last(), steps.drop_last());
        assert(transfer_outcome(states[n], states[n + 1], steps[n].0, steps[n].1, steps[n].2, steps[n].3));
        assert forall|i: int| 0 <= i < states.len() implies #[trigger] states[i].conserves()
            && states[i].supply() == states[0].supply() by {
            let prefix = states.drop_last();
            if i < states.len() - 1 {
                assert(prefix[i] == states[i]);
                assert(prefix[i].conserves());
            } else {
                assert(prefix[n] == states[n]);
                assert(prefix[n].conserves());
            }
            assert(prefix[0] == states[0]);
        }
    }
}

/// No balance of a well-formed ledger exceeds its supply, so none can go
/// below zero or past the balance type's range.
pub proof fn lemma_balance_within_supply(l: Erc20, a: AccountId)
    requires
        l.wf(),
    ensures
        0 <= l.balance(a) <= l.supply(),
{
    let s = l.entries();
    if has_entry(s, a) {
        let k = choose|k: int| 0 <= k < s.len() && s[k].0 == a;
        lemma_balance_at(s, k);
        lemma_entry_le_sum(s, k);
    }
}

/// Atomicity: a transfer for more than `from` holds fails and leaves both
/// balances, and the whole ledger, as they were.
pub proof fn lemma_failed_transfer_changes_nothing(
    pre: Erc20,
    post: Erc20,
    from: AccountId,
    to: AccountId,
    value: nat,
    r: bool,
)
    requires
        pre.wf(),
        pre.balance(from) < value,
        transfer_outcome(pre, post, from, to, value, r),
    ensures
        !r,
        post.balance(from) == pre.balance(from),
        post.balance(to) == pre.balance(to),
        post == pre,
{
}

/// A transfer to oneself with enough funds succeeds and leaves the balance
/// unchanged.
pub proof fn lemma_self_transfer_keeps_balance(pre: Erc20, post: Erc20, a: AccountId, value: nat, r: bool)
    requires
        pre.wf(),
        pre.balance(a) >= value,
        transfer_outcome(pre, post, a, a, value, r),
    ensures
        r,
        post.balance(a) == pre.balance(a),
{
}

/// A transfer of zero units always succeeds and changes no balance.
pub proof fn lemma_zero_transfer_is_no_op(pre: Erc20, post: Erc20, from: AccountId, to: AccountId, r: bool)
    requires
        pre.wf(),
        transfer_outcome(pre, post, from, to, 0, r),
    ensures
        r,
        forall|a: AccountId| post.balance(a) == pre.balance(a),
{
}

} // verus!
