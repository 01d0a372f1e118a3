use vstd::prelude::*;

verus! {

/// The compensator's verdict after the join barrier settles.
#[derive(Debug)]
pub enum Compensation {
    /// One or more transfers failed: issue a single refund of the failed
    /// portion back to the payer.
    Refund {
        /// The original payer — the invocation's signer, not necessarily
        /// the operating account's owner.
        target: String,
        /// The refunded value: the failure count times the slice.
        amount: u128,
    },
    /// Every transfer landed: nothing to compensate, the slice value is
    /// passed through unchanged.
    Settled {
        /// The unchanged per-recipient slice.
        amount: u128,
    },
}

/// The number of failed entries among the settled results, not counting
/// the first entry.
///
/// The first result position is reserved for the compensation
/// continuation's own trigger signal in the host's settlement model, so it
/// is deliberately excluded from the failure count.
pub open spec fn failure_count(outcomes: Seq<bool>) -> nat
    decreases outcomes.len(),
{
    if outcomes.len() <= 1 {
        0
    } else {
        failure_count(outcomes.drop_last()) + if outcomes.last() {
            0nat
        } else {
            1nat
        }
    }
}

/// At most every counted entry fails.
pub proof fn lemma_failure_count_bound(outcomes: Seq<bool>)
    ensures
        outcomes.len() == 0 ==> failure_count(outcomes) == 0,
        outcomes.len() > 0 ==> failure_count(outcomes) <= outcomes.len() - 1,
    decreases outcomes.len(),
{
    if outcomes.len() > 1 {
        lemma_failure_count_bound(outcomes.drop_last());
    }
}

/// Counting one more settled entry adds that entry's failure, if any.
pub proof fn lemma_failure_count_take_step(outcomes: Seq<bool>, i: int)
    requires
        1 <= i < outcomes.len(),
    ensures
        failure_count(outcomes.take(i + 1)) == failure_count(outcomes.take(i)) + if outcomes[i] {
            0nat
        } else {
            1nat
        },
{
    assert(outcomes.take(i + 1).drop_last() =~= outcomes.take(i));
    assert(outcomes.take(i + 1).last() == outcomes[i]);
}

/// When every transfer outcome settled successfully, the compensator finds
/// no failure: it issues no refund, and the amount it reports onward is the
/// unchanged slice.
pub proof fn lemma_all_success_no_refund(outcomes: Seq<bool>)
    requires
        forall|i: int| 1 <= i < outcomes.len() ==> outcomes[i],
    ensures
        failure_count(outcomes) == 0,
    decreases outcomes.len(),
{
    if outcomes.len() > 1 {
        lemma_all_success_no_refund(outcomes.drop_last());
    }
}

/// When `f > 0` of up to `count` transfer outcomes failed, the single
/// compensating refund of `f` slices never exceeds the attached payment the
/// slice was cut from: compensation needs no budget beyond what arrived.
pub proof fn lemma_refund_within_attached(outcomes: Seq<bool>, attached: u128, count: nat)
    requires
        count > 0,
        outcomes.len() <= count + 1,
    ensures
        failure_count(outcomes) <= count,
        failure_count(outcomes) * (attached as int / count as int) <= attached,
{
    lemma_failure_count_bound(outcomes);
    let f = failure_count(outcomes) as int;
    let slice = attached as int / count as int;
    vstd::arithmetic::div_mod::lemma_fundamental_div_mod(attached as int, count as int);
    vstd::arithmetic::div_mod::lemma_mod_bound(attached as int, count as int);
    assert(count * slice <= attached);
    vstd::arithmetic::div_mod::lemma_div_is_ordered_by_denominator(attached as int, 1, count as int);
    assert(slice >= 0) by {
        vstd::arithmetic::div_mod::lemma_div_pos_is_pos(attached as int, count as int);
    }
    vstd::arithmetic::mul::lemma_mul_inequality(f, count as int, slice);
    vstd::arithmetic::mul::lemma_mul_is_commutative(f, slice);
    vstd::arithmetic::mul::lemma_mul_is_commutative(count as int, slice);
}

} // verus!
