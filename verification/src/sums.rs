use vstd::prelude::*;

verus! {

/// The sum of a sequence of amounts.
pub open spec fn total(amounts: Seq<nat>) -> nat
    decreases amounts.len(),
{
    if amounts.len() == 0 {
        0
    } else {
        total(amounts.drop_last()) + amounts.last()
    }
}

/// One more amount adds itself to the sum.
pub proof fn lemma_total_push(amounts: Seq<nat>, amount: nat)
    ensures
        total(amounts.push(amount)) == total(amounts) + amount,
{
    assert(amounts.push(amount).drop_last() =~= amounts);
}

/// Replacing one amount changes the sum by the difference.
pub proof fn lemma_total_update(amounts: Seq<nat>, i: int, amount: nat)
    requires
        0 <= i < amounts.len(),
    ensures
        total(amounts.update(i, amount)) + amounts[i] == total(amounts) + amount,
    decreases amounts.len(),
{
    if i == amounts.len() - 1 {
        assert(amounts.update(i, amount).drop_last() =~= amounts.drop_last());
    } else {
        lemma_total_update(amounts.drop_last(), i, amount);
        assert(amounts.update(i, amount).drop_last() =~= amounts.drop_last().update(i, amount));
    }
}

/// Taking one amount out takes it off the sum.
pub proof fn lemma_total_remove(amounts: Seq<nat>, i: int)
    requires
        0 <= i < amounts.len(),
    ensures
        total(amounts.remove(i)) + amounts[i] == total(amounts),
    decreases amounts.len(),
{
    if i == amounts.len() - 1 {
        assert(amounts.remove(i) =~= amounts.drop_last());
    } else {
        lemma_total_remove(amounts.drop_last(), i);
        assert(amounts.remove(i).drop_last() =~= amounts.drop_last().remove(i));
    }
}

} // verus!
