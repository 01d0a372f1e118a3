use vstd::prelude::*;

use crate::errors::PayError;

verus! {

/// One gigaunit of computational budget.
pub const GGAS: u64 = 1_000_000_000;

/// One terauint of computational budget.
pub const TGAS: u64 = 1000 * GGAS;

/// The per-step budget reservations of the pipeline.
///
/// These are empirically calibrated costs, exposed as configuration rather
/// than hard-coded: hosts re-measure them when prices change.
#[derive(Clone, Copy, Debug, PartialEq, Eq, Structural)]
pub struct GasConfig {
    /// Fixed overhead of the whole transaction.
    pub txfee_gas: u64,
    /// Budget attached to the remote directory lookup.
    pub list_minters_gas: u64,
    /// Budget of the lookup entry point itself.
    pub pay_minters_gas: u64,
    /// Budget reserved for the compensation continuation.
    pub refund_unpaid_gas: u64,
    /// Budget reserved for the reporting continuation.
    pub report_payment_gas: u64,
}

impl GasConfig {
    /// The measured per-step costs.
    pub open spec fn measured_spec() -> GasConfig {
        GasConfig {
            txfee_gas: (2 * TGAS) as u64,
            list_minters_gas: (10 * TGAS) as u64,
            pay_minters_gas: (9 * TGAS) as u64,
            refund_unpaid_gas: (3 * TGAS) as u64,
            report_payment_gas: (3 * TGAS) as u64,
        }
    }

    /// The measured per-step costs, as taken from real transactions.
    pub fn measured() -> (c: GasConfig)
        ensures
            c == GasConfig::measured_spec(),
    {
        GasConfig {
            txfee_gas: 2 * TGAS,
            list_minters_gas: 10 * TGAS,
            pay_minters_gas: 9 * TGAS,
            refund_unpaid_gas: 3 * TGAS,
            report_payment_gas: 3 * TGAS,
        }
    }
}

impl Default for GasConfig {
    /// The measured costs are the default configuration.
    fn default() -> (c: GasConfig)
        ensures
            c == GasConfig::measured_spec(),
    {
        GasConfig::measured()
    }
}

/// The total reservation held by a sequence of pending steps.
pub open spec fn reserved_sum(s: Seq<u64>) -> int
    decreases s.len(),
{
    if s.len() == 0 {
        0
    } else {
        reserved_sum(s.drop_last()) + s.last()
    }
}

/// A reservation sum is never negative.
pub proof fn lemma_reserved_sum_nonneg(s: Seq<u64>)
    ensures
        reserved_sum(s) >= 0,
    decreases s.len(),
{
    if s.len() > 0 {
        lemma_reserved_sum_nonneg(s.drop_last());
    }
}

/// Extending a prefix by one step adds that step's reservation.
proof fn lemma_reserved_sum_take_step(s: Seq<u64>, i: int)
    requires
        0 <= i < s.len(),
    ensures
        reserved_sum(s.take(i + 1)) == reserved_sum(s.take(i)) + s[i],
{
    assert(s.take(i + 1).drop_last() =~= s.take(i));
    assert(s.take(i + 1).last() == s[i]);
}

/// The reservation held by three steps together.
pub proof fn lemma_reserved_sum_triple(a: u64, b: u64, c: u64)
    ensures
        reserved_sum(seq![a, b, c]) == a + b + c,
{
    let s = seq![a, b, c];
    assert(s.drop_last() =~= seq![a, b]);
    assert(seq![a, b].drop_last() =~= seq![a]);
    assert(seq![a].drop_last() =~= Seq::<u64>::empty());
    assert(reserved_sum(Seq::<u64>::empty()) == 0);
    assert(reserved_sum(seq![a]) == a);
    assert(reserved_sum(seq![a, b]) == a + b);
}

/// A prefix never reserves more than the whole sequence.
proof fn lemma_reserved_sum_prefix(s: Seq<u64>, i: int)
    requires
        0 <= i <= s.len(),
    ensures
        reserved_sum(s.take(i)) <= reserved_sum(s),
    decreases s.len() - i,
{
    if i == s.len() {
        assert(s.take(i) =~= s);
    } else {
        lemma_reserved_sum_take_step(s, i);
        lemma_reserved_sum_prefix(s, i + 1);
    }
}

/// The ledger of a finite computational allowance split across a chain of
/// continuations: what was granted, what has burned, and what later steps
/// still reserve.
pub struct ResourceBudget {
    /// The allowance granted to the invocation.
    pub total: u64,
    /// The allowance consumed so far.
    pub consumed: u64,
    /// One reservation per step still to be scheduled.
    pub reserved: Vec<u64>,
}

impl ResourceBudget {
    /// The budget that may be forwarded to the next continuation: the total
    /// minus consumption so far minus all later reservations.
    ///
    /// Fails closed with `BudgetExhausted` when the reservations exceed what
    /// is left: a step scheduled without its full reservation could abort
    /// midway with no opportunity to compensate.
    pub fn allocate(&self) -> (r: Result<u64, PayError>)
        ensures
            match r {
                Ok(b) => {
                    &&& self.consumed + reserved_sum(self.reserved@) <= self.total
                    &&& b == self.total - self.consumed - reserved_sum(self.reserved@)
                },
                Err(e) => {
                    &&& e == PayError::BudgetExhausted
                    &&& self.consumed + reserved_sum(self.reserved@) > self.total
                },
            },
    {
        if self.consumed > self.total {
            proof {
                lemma_reserved_sum_nonneg(self.reserved@);
            }
            return Err(PayError::BudgetExhausted);
        }
        let mut left: u64 = self.total - self.consumed;
        let mut i: usize = 0;
        proof {
            assert(self.reserved@.take(0) =~= Seq::<u64>::empty());
        }
        while i < self.reserved.len()
            invariant
                i <= self.reserved@.len(),
                left == self.total - self.consumed - reserved_sum(self.reserved@.take(i as int)),
                0 <= left <= self.total,
            decreases self.reserved@.len() - i,
        {
            let step = self.reserved[i];
            proof {
                lemma_reserved_sum_take_step(self.reserved@, i as int);
            }
            if step > left {
                proof {
                    lemma_reserved_sum_prefix(self.reserved@, i + 1);
                }
                return Err(PayError::BudgetExhausted);
            }
            left = left - step;
            i = i + 1;
        }
        proof {
            assert(self.reserved@.take(self.reserved@.len() as int) =~= self.reserved@);
        }
        Ok(left)
    }
}

} // verus!
