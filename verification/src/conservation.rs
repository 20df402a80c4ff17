//! The conservation law of the escrow.
//!
//! Each stake or unstake moves through the vault exactly the amount it
//! adds to or removes from one account's staked amount — the handlers'
//! contracts state that delta equality — so the vault's balance always
//! equals the sum of all live staked amounts.  The lemma here is the
//! inductive step: whenever one account changes and the vault moves by the
//! same delta, the equality carries over, and so it holds at every
//! observation point of any stake/unstake sequence with no reward claims
//! interleaved.

use vstd::prelude::*;

verus! {

/// The sum of all live staked amounts.
pub open spec fn sum_staked(amounts: Seq<u64>) -> int
    decreases amounts.len(),
{
    if amounts.len() == 0 {
        0
    } else {
        amounts[0] + sum_staked(amounts.drop_first())
    }
}

/// Replacing one entry changes the sum by the difference of that entry.
pub proof fn lemma_sum_staked_update(amounts: Seq<u64>, i: int, value: u64)
    requires
        0 <= i < amounts.len(),
    ensures
        sum_staked(amounts.update(i, value)) == sum_staked(amounts) - amounts[i] + value,
    decreases amounts.len(),
{
    if i == 0 {
        assert(amounts.update(0, value).drop_first() =~= amounts.drop_first());
    } else {
        assert(amounts.update(i, value).drop_first() =~= amounts.drop_first().update(i - 1, value));
        lemma_sum_staked_update(amounts.drop_first(), i - 1, value);
    }
}

/// Conservation: if the vault's balance equals the sum of all staked
/// amounts, and one operation changes a single account while moving the
/// vault by exactly the same delta — which is what every stake and
/// unstake ensures — then the equality still holds afterwards.
pub proof fn lemma_conservation_step(
    staked_before: Seq<u64>,
    staked_after: Seq<u64>,
    i: int,
    vault_before: u64,
    vault_after: u64,
)
    requires
        0 <= i < staked_before.len(),
        staked_after.len() == staked_before.len(),
        forall|j: int| 0 <= j < staked_before.len() && j != i ==> staked_after[j] == staked_before[j],
        vault_after - vault_before == staked_after[i] - staked_before[i],
        vault_before == sum_staked(staked_before),
    ensures
        vault_after == sum_staked(staked_after),
{
    assert(staked_after =~= staked_before.update(i, staked_after[i]));
    lemma_sum_staked_update(staked_before, i, staked_after[i]);
}

} // verus!
