use vstd::prelude::*;

use crate::account::host_account_id_is_valid;
use crate::account::valid_account_id;
use crate::budget::GasConfig;
use crate::budget::ResourceBudget;
use crate::budget::lemma_reserved_sum_triple;
use crate::compensate::failure_count;
use crate::compensate::lemma_failure_count_take_step;
use crate::compensate::Compensation;
use crate::directory::decode_id_list;
use crate::directory::decoded_id_list;
use crate::errors::PayError;
use crate::normalize::is_normalization_of;
use crate::normalize::normalize;
use crate::split::split;

verus! {

/// The host-ambient execution context of one invocation, passed explicitly
/// so that every decision is a pure function of its inputs.
pub struct CallContext {
    /// The account the engine runs as: source of the transfers, and keeper
    /// of the undistributed remainder.
    pub current_account: String,
    /// The original payer — the invocation's signer — and therefore the
    /// target of any compensating refund.
    pub signer: String,
    /// The payment attached to the invocation, in the smallest currency
    /// unit.
    pub attached_deposit: u128,
    /// The computational budget granted to the invocation.
    pub prepaid_gas: u64,
    /// The budget consumed before the current step was entered.
    pub used_gas: u64,
}

/// One independent transfer of the fan-out.
#[derive(Debug)]
pub struct TransferAction {
    /// The receiving account.
    pub recipient: String,
    /// The transferred value: the per-recipient slice.
    pub amount: u128,
}

/// The validated, normalized and split payout, ready for dispatch.
#[derive(Debug)]
pub struct PaymentPlan {
    /// The normalized recipient set: deduplicated, canonically sorted.
    pub payees: Vec<String>,
    /// The per-recipient share.
    pub slice: u128,
    /// The undistributed rest, left on the operating account.
    pub remainder: u128,
}

/// The planned remote directory call with its budget split.
#[derive(Debug)]
pub struct LookupPlan {
    /// The directory contract to query.
    pub directory: String,
    /// The budget attached to the remote lookup call.
    pub lookup_gas: u64,
    /// The budget forwarded to the continuation that receives the list.
    pub callback_gas: u64,
}

/// `plan` is the payout of `attached` across the recipient list
/// `recipients`: its payees are the normalized recipients, and its slice
/// and remainder are the even split of the attached payment over them.
pub open spec fn is_payment_plan(
    plan: PaymentPlan,
    attached: u128,
    recipients: Seq<Seq<char>>,
) -> bool {
    &&& is_normalization_of(plan.payees.deep_view(), recipients)
    &&& plan.payees@.len() > 0
    &&& plan.slice == attached as int / plan.payees@.len() as int
    &&& plan.remainder == attached as int % plan.payees@.len() as int
}

/// `plan` is the remote lookup of directory `id` under context `ctx` and
/// budget configuration `gas`: the lookup carries its fixed reservation,
/// and the continuation is forwarded everything granted minus what this
/// step consumed and reserved.
pub open spec fn is_lookup_plan(
    plan: LookupPlan,
    ctx: CallContext,
    gas: GasConfig,
    id: Seq<char>,
) -> bool {
    &&& plan.directory@ == id
    &&& plan.lookup_gas == gas.list_minters_gas
    &&& ctx.used_gas + gas.list_minters_gas + gas.pay_minters_gas + gas.txfee_gas
        <= ctx.prepaid_gas
    &&& plan.callback_gas == ctx.prepaid_gas - ctx.used_gas - gas.list_minters_gas
        - gas.pay_minters_gas - gas.txfee_gas
}

/// The disbursement engine.  It holds no durable state of its own: every
/// invocation works from a fresh context, and only the operating account's
/// balance persists between invocations.
pub struct Distrotron {}

impl Distrotron {
    /// Validates a payment request before funds are committed: there must
    /// be at least one recipient, and a nonzero payment must be attached.
    ///
    /// Identifier well-formedness of the payees is deliberately not
    /// checked: accounts can appear and disappear independently of this
    /// engine, so only an actual transfer attempt can tell.
    pub fn test_payees(&self, ctx: &CallContext, payees: &Vec<String>) -> (r: Result<
        (),
        PayError,
    >)
        ensures
            match r {
                Ok(_) => payees@.len() > 0 && ctx.attached_deposit > 0,
                Err(e) => {
                    ||| (e == PayError::EmptyRecipientList && payees@.len() == 0)
                    ||| (e == PayError::NoPaymentAttached && payees@.len() > 0
                        && ctx.attached_deposit == 0)
                },
            },
    {
        if payees.len() == 0 {
            Err(PayError::EmptyRecipientList)
        } else if ctx.attached_deposit == 0 {
            Err(PayError::NoPaymentAttached)
        } else {
            Ok(())
        }
    }

    /// Direct payout: validates the request, normalizes the recipient set,
    /// and splits the attached payment evenly over it.
    ///
    /// An empty recipient list fails with `EmptyRecipientList` whatever the
    /// attached amount; a zero attached amount fails with
    /// `NoPaymentAttached`; on any other input the payout plan is returned.
    pub fn split_payment(&self, ctx: &CallContext, payees: &Vec<String>) -> (r: Result<
        PaymentPlan,
        PayError,
    >)
        ensures
            match r {
                Ok(plan) => payees@.len() > 0 && ctx.attached_deposit > 0 && is_payment_plan(
                    plan,
                    ctx.attached_deposit,
                    payees.deep_view(),
                ),
                Err(e) => {
                    ||| (e == PayError::EmptyRecipientList && payees@.len() == 0)
                    ||| (e == PayError::NoPaymentAttached && payees@.len() > 0
                        && ctx.attached_deposit == 0)
                },
            },
    {
        match self.test_payees(ctx, payees) {
            Err(e) => Err(e),
            Ok(_) => {
                let normalized = normalize(payees);
                match split(ctx.attached_deposit, normalized.len()) {
                    Ok(d) => Ok(
                        PaymentPlan {
                            payees: normalized,
                            slice: d.slice,
                            remainder: d.remainder,
                        },
                    ),
                    Err(e) => Err(e),  // unreachable: the normalized set is non-empty
                }
            },
        }
    }

    /// The fan-out itself: one independent transfer of `sum` per payee.
    /// The transfers carry no ordering among themselves; the host submits
    /// them together and joins them into one barrier.
    pub fn pay_each(&self, payees: &Vec<String>, sum: u128) -> (r: Vec<TransferAction>)
        requires
            payees@.len() > 0,
        ensures
            r@.len() == payees@.len(),
            forall|i: int|
                0 <= i < r@.len() ==> (#[trigger] r@[i]).recipient@ == payees.deep_view()[i]
                    && r@[i].amount == sum,
    {
        let mut transfers: Vec<TransferAction> = Vec::new();
        let mut i: usize = 0;
        while i < payees.len()
            invariant
                i <= payees@.len(),
                transfers@.len() == i,
                forall|k: int|
                    0 <= k < i ==> (#[trigger] transfers@[k]).recipient@
                        == payees.deep_view()[k] && transfers@[k].amount == sum,
            decreases payees@.len() - i,
        {
            let recipient = payees[i].clone();
            transfers.push(TransferAction { recipient, amount: sum });
            i = i + 1;
        }
        transfers
    }

    /// Directory-based payout, first step: validates the directory
    /// identifier and plans the remote lookup, forwarding to the callback
    /// whatever budget remains after this step's own reservations.
    ///
    /// A syntactically invalid identifier fails with
    /// `InvalidDirectoryIdentifier` before any remote call is planned; a
    /// budget that cannot cover the reserved steps fails closed with
    /// `BudgetExhausted`.
    pub fn pay_minters(&self, ctx: &CallContext, gas: &GasConfig, minter_contract: &String) -> (r:
        Result<LookupPlan, PayError>)
        ensures
            match r {
                Ok(plan) => valid_account_id(minter_contract@) && is_lookup_plan(
                    plan,
                    *ctx,
                    *gas,
                    minter_contract@,
                ),
                Err(e) => {
                    ||| (e == PayError::InvalidDirectoryIdentifier && !valid_account_id(
                        minter_contract@,
                    ))
                    ||| (e == PayError::BudgetExhausted && valid_account_id(minter_contract@)
                        && ctx.used_gas + gas.list_minters_gas + gas.pay_minters_gas
                        + gas.txfee_gas > ctx.prepaid_gas)
                },
            },
    {
        if !host_account_id_is_valid(minter_contract.as_str()) {
            return Err(PayError::InvalidDirectoryIdentifier);
        }
        let mut reserved: Vec<u64> = Vec::new();
        reserved.push(gas.list_minters_gas);
        reserved.push(gas.pay_minters_gas);
        reserved.push(gas.txfee_gas);
        proof {
            assert(reserved@ =~= seq![gas.list_minters_gas, gas.pay_minters_gas, gas.txfee_gas]);
            lemma_reserved_sum_triple(gas.list_minters_gas, gas.pay_minters_gas, gas.txfee_gas);
        }
        let budget = ResourceBudget {
            total: ctx.prepaid_gas,
            consumed: ctx.used_gas,
            reserved,
        };
        match budget.allocate() {
            Ok(callback_gas) => Ok(
                LookupPlan {
                    directory: minter_contract.clone(),
                    lookup_gas: gas.list_minters_gas,
                    callback_gas,
                },
            ),
            Err(e) => Err(e),
        }
    }

    /// Directory-based payout, second step: receives the settled lookup,
    /// validates the returned list, and hands it to the direct payout path.
    ///
    /// A failed remote call — or a response that is no list of identifiers —
    /// fails with `DirectoryLookupFailed`; an empty list fails with
    /// `NoRecipientsFound`; otherwise the pipeline proceeds exactly as a
    /// direct payout of the returned list.
    pub fn list_minters_cb(&self, ctx: &CallContext, lookup: &Option<Vec<u8>>) -> (r: Result<
        PaymentPlan,
        PayError,
    >)
        ensures
            match lookup {
                None => r == Err::<PaymentPlan, PayError>(PayError::DirectoryLookupFailed),
                Some(bytes) => match decoded_id_list(bytes@) {
                    None => r == Err::<PaymentPlan, PayError>(PayError::DirectoryLookupFailed),
                    Some(ids) => match r {
                        Ok(plan) => ids.len() > 0 && ctx.attached_deposit > 0
                            && is_payment_plan(plan, ctx.attached_deposit, ids),
                        Err(e) => {
                            ||| (e == PayError::NoRecipientsFound && ids.len() == 0)
                            ||| (e == PayError::NoPaymentAttached && ids.len() > 0
                                && ctx.attached_deposit == 0)
                        },
                    },
                },
            },
    {
        match lookup {
            None => Err(PayError::DirectoryLookupFailed),
            Some(bytes) => match decode_id_list(bytes) {
                None => Err(PayError::DirectoryLookupFailed),
                Some(ids) => {
                    if ids.len() == 0 {
                        Err(PayError::NoRecipientsFound)
                    } else {
                        self.split_payment(ctx, &ids)
                    }
                },
            },
        }
    }

    /// The compensator, run once when the join barrier settles: counts the
    /// failures among the transfer outcomes — excluding the first result
    /// position, which the host's settlement model reserves for this
    /// continuation's own trigger signal — and issues one refund of the
    /// failed portion to the payer, or passes the slice through untouched.
    pub fn refund_unpaid(&self, ctx: &CallContext, amount: u128, outcomes: &Vec<bool>) -> (r: Compensation)
        requires
            failure_count(outcomes@) * amount <= u128::MAX,
        ensures
            failure_count(outcomes@) == 0 ==> r == (Compensation::Settled { amount }),
            failure_count(outcomes@) > 0 ==> (r matches Compensation::Refund { target, amount: refund }
                && target@ == ctx.signer@
                && refund == failure_count(outcomes@) * amount),
    {
        let n = outcomes.len();
        let mut fails: u64 = 0;
        let mut p: usize = 1;
        proof {
            if n > 0 {
                assert(failure_count(outcomes@.take(1)) == 0);
            }
        }
        while p < n
            invariant
                1 <= p <= n || (n == 0 && p == 1),
                n == outcomes@.len(),
                n > 0 ==> fails == failure_count(outcomes@.take(p as int)),
                n == 0 ==> fails == 0,
                fails < p,
            decreases n - p,
        {
            proof {
                lemma_failure_count_take_step(outcomes@, p as int);
            }
            if !outcomes[p] {
                fails = fails + 1;
            }
            p = p + 1;
        }
        proof {
            assert(outcomes@.take(outcomes@.len() as int) =~= outcomes@);
        }
        if fails > 0 {
            let refund: u128 = (fails as u128) * amount;
            Compensation::Refund { target: ctx.signer.clone(), amount: refund }
        } else {
            Compensation::Settled { amount }
        }
    }

    /// The reporter: the final link of the continuation chain.  It echoes
    /// the per-recipient slice back, so the caller's observed result is the
    /// slice whether or not a refund occurred.
    pub fn report_payment(&self, amount: u128) -> (r: u128)
        ensures
            r == amount,
    {
        amount
    }
}

/// Directory-based and direct payout agree: payout plans built from the
/// same attached payment and from recipient lists carrying the same
/// identifiers are the same plan.
pub proof fn lemma_lookup_matches_direct(
    p1: PaymentPlan,
    p2: PaymentPlan,
    attached: u128,
    ids1: Seq<Seq<char>>,
    ids2: Seq<Seq<char>>,
)
    requires
        is_payment_plan(p1, attached, ids1),
        is_payment_plan(p2, attached, ids2),
        ids1.to_set() == ids2.to_set(),
    ensures
        p1.payees.deep_view() == p2.payees.deep_view(),
        p1.slice == p2.slice,
        p1.remainder == p2.remainder,
{
    crate::normalize::lemma_normalization_unique(p1.payees.deep_view(), p2.payees.deep_view());
}

} // verus!
