use vstd::prelude::*;

use crate::account::valid_account_id;
use crate::budget::GasConfig;
use crate::compensate::failure_count;
use crate::compensate::lemma_refund_within_attached;
use crate::compensate::Compensation;
use crate::contract::is_lookup_plan;
use crate::contract::CallContext;
use crate::contract::Distrotron;
use crate::contract::LookupPlan;
use crate::contract::TransferAction;
use crate::directory::decoded_id_list;
use crate::errors::PayError;
use crate::normalize::is_normalization_of;

verus! {

/// Where one invocation stands in its pipeline.
///
/// The states past `Dispatching` carry the per-recipient slice forward, so
/// that the reported amount is the slice whether or not a refund occurred.
#[derive(Clone, Copy, Debug, PartialEq, Eq, Structural)]
pub enum Phase {
    /// Awaiting the invocation's input.
    Validating,
    /// The remote directory lookup is in flight.
    LookingUp,
    /// The fan-out transfers are in flight, awaiting the join barrier.
    Dispatching {
        /// The per-recipient share being transferred.
        slice: u128,
        /// How many transfers were issued.
        fanout: usize,
    },
    /// The compensating refund is in flight.
    Compensating {
        /// The per-recipient share, carried through to the report.
        slice: u128,
    },
    /// The final report continuation is in flight.
    Reporting {
        /// The per-recipient share about to be reported.
        slice: u128,
    },
    /// The pipeline is complete; `paid` is the caller's observed result.
    Done {
        /// The reported per-recipient amount.
        paid: u128,
    },
    /// The pipeline aborted before any transfer was issued; the host
    /// returns the attached payment to the payer automatically.
    Failed {
        /// Why the invocation aborted.
        reason: PayError,
    },
}

/// A step-completed notification delivered by the host's scheduler.
pub enum Event {
    /// Direct payout was invoked with a recipient list.
    Invoke {
        /// The caller-supplied recipients, in any order, duplicates allowed.
        recipients: Vec<String>,
    },
    /// Directory-based payout was invoked with a directory identifier.
    InvokeDirectory {
        /// The directory contract to fetch the recipient list from.
        directory: String,
    },
    /// The remote lookup settled: its raw response bytes, or nothing if the
    /// call itself failed.
    LookupSettled {
        /// The response, when the remote call succeeded.
        response: Option<Vec<u8>>,
    },
    /// The join barrier fired: all transfers have settled.  Entry 0 is the
    /// barrier's own trigger slot; each further entry tells whether that
    /// transfer succeeded.
    TransfersSettled {
        /// The settled results, one flag per result position.
        outcomes: Vec<bool>,
    },
    /// The compensating refund settled.
    RefundSettled,
    /// The report continuation settled.
    ReportSettled,
}

/// The outside work the host must perform next.
pub enum Action {
    /// Query the directory as planned, then deliver `LookupSettled`.
    CallDirectory {
        /// The planned remote call and its budget split.
        plan: LookupPlan,
    },
    /// Submit all transfers together — independent, unordered — and deliver
    /// `TransfersSettled` once every one of them has settled.
    IssueTransfers {
        /// One transfer of the slice per normalized recipient.
        transfers: Vec<TransferAction>,
    },
    /// Transfer the failed portion back to the payer, then deliver
    /// `RefundSettled`.
    IssueRefund {
        /// The refund target: the original payer.
        target: String,
        /// The refunded value.
        amount: u128,
    },
    /// Run the report continuation, then deliver `ReportSettled`.
    Report {
        /// The per-recipient slice to report.
        amount: u128,
    },
    /// The pipeline is done; the caller observes `paid`.
    Finish {
        /// The reported per-recipient amount.
        paid: u128,
    },
    /// Abort the invocation with a failure reason; no transfer was issued,
    /// and the host returns the attached payment.
    Abort {
        /// Why the invocation aborted.
        reason: PayError,
    },
}

/// The recipients of a planned fan-out, in order.
pub open spec fn transfer_recipients(transfers: Seq<TransferAction>) -> Seq<Seq<char>> {
    Seq::new(transfers.len(), |i: int| transfers[i].recipient@)
}

/// The pipeline aborted: the state records the reason and the host is told
/// to abort with the same reason.
pub open spec fn aborts_with(post: Phase, action: Action, reason: PayError) -> bool {
    &&& post == (Phase::Failed { reason })
    &&& action == (Action::Abort { reason })
}

/// The payout of `attached` over `recipients` was dispatched: one transfer
/// of the slice per normalized recipient, and the state awaits the barrier.
pub open spec fn dispatches_payout(
    post: Phase,
    action: Action,
    attached: u128,
    recipients: Seq<Seq<char>>,
) -> bool {
    &&& action matches Action::IssueTransfers { transfers }
    &&& post matches Phase::Dispatching { slice, fanout }
    &&& fanout == transfers@.len()
    &&& fanout > 0
    &&& is_normalization_of(transfer_recipients(transfers@), recipients)
    &&& slice == attached as int / fanout as int
    &&& forall|i: int| 0 <= i < transfers@.len() ==> (#[trigger] transfers@[i]).amount == slice
}

/// The per-recipient slice a phase carries toward the report: fixed at
/// dispatch, held through compensation and reporting, and finally the paid
/// amount.
pub open spec fn carried_slice(phase: Phase) -> Option<u128> {
    match phase {
        Phase::Dispatching { slice, .. } => Some(slice),
        Phase::Compensating { slice } => Some(slice),
        Phase::Reporting { slice } => Some(slice),
        Phase::Done { paid } => Some(paid),
        _ => None,
    }
}

/// One invocation of the engine, advanced by the host's scheduler: each
/// delivered event moves the state machine one step and yields the next
/// outside action.
pub struct Pipeline {
    /// The invocation's immutable execution context.
    pub ctx: CallContext,
    /// The per-step budget configuration.
    pub gas: GasConfig,
    /// Where the invocation stands.
    pub phase: Phase,
}

impl Pipeline {
    /// The states are internally consistent: a dispatching state always
    /// carries the slice actually cut from the attached payment.
    pub open spec fn wf(self) -> bool {
        match self.phase {
            Phase::Dispatching { slice, fanout } => fanout > 0 && slice
                == self.ctx.attached_deposit as int / fanout as int,
            _ => true,
        }
    }

    /// Which event the current phase awaits.  A `TransfersSettled` event
    /// carries at most one settled result — the barrier's trigger slot —
    /// beyond the issued transfers.
    pub open spec fn accepts(self, event: Event) -> bool {
        match self.phase {
            Phase::Validating => event is Invoke || event is InvokeDirectory,
            Phase::LookingUp => event is LookupSettled,
            Phase::Dispatching { slice, fanout } => event matches Event::TransfersSettled {
                outcomes,
            } && outcomes@.len() <= fanout + 1,
            Phase::Compensating { .. } => event is RefundSettled,
            Phase::Reporting { .. } => event is ReportSettled,
            Phase::Done { .. } => false,
            Phase::Failed { .. } => false,
        }
    }

    /// A fresh pipeline for one invocation.
    pub fn new(ctx: CallContext, gas: GasConfig) -> (p: Pipeline)
        ensures
            p.ctx == ctx,
            p.gas == gas,
            p.phase == Phase::Validating,
            p.wf(),
    {
        Pipeline { ctx, gas, phase: Phase::Validating }
    }

    /// The full transition relation of the pipeline: what the delivered
    /// event does to the state, and which action the host performs next.
    ///
    /// Every abort happens in `Validating` or `LookingUp`, before any
    /// transfer is issued.  Once past `Dispatching` the pipeline cannot
    /// abort: it always reaches the compensation and the report, and the
    /// reported amount is the slice whether or not a refund was issued.
    pub open spec fn step_spec(pre: Pipeline, event: Event, post: Pipeline, action: Action) -> bool {
        match event {
            Event::Invoke { recipients } => {
                if recipients@.len() == 0 {
                    aborts_with(post.phase, action, PayError::EmptyRecipientList)
                } else if pre.ctx.attached_deposit == 0 {
                    aborts_with(post.phase, action, PayError::NoPaymentAttached)
                } else {
                    dispatches_payout(
                        post.phase,
                        action,
                        pre.ctx.attached_deposit,
                        recipients.deep_view(),
                    )
                }
            },
            Event::InvokeDirectory { directory } => {
                if !valid_account_id(directory@) {
                    aborts_with(post.phase, action, PayError::InvalidDirectoryIdentifier)
                } else if pre.ctx.used_gas + pre.gas.list_minters_gas + pre.gas.pay_minters_gas
                    + pre.gas.txfee_gas > pre.ctx.prepaid_gas {
                    aborts_with(post.phase, action, PayError::BudgetExhausted)
                } else {
                    &&& action matches Action::CallDirectory { plan }
                    &&& is_lookup_plan(plan, pre.ctx, pre.gas, directory@)
                    &&& post.phase == Phase::LookingUp
                }
            },
            Event::LookupSettled { response } => {
                match response {
                    None => aborts_with(post.phase, action, PayError::DirectoryLookupFailed),
                    Some(bytes) => match decoded_id_list(bytes@) {
                        None => aborts_with(post.phase, action, PayError::DirectoryLookupFailed),
                        Some(ids) => {
                            if ids.len() == 0 {
                                aborts_with(post.phase, action, PayError::NoRecipientsFound)
                            } else if pre.ctx.attached_deposit == 0 {
                                aborts_with(post.phase, action, PayError::NoPaymentAttached)
                            } else {
                                dispatches_payout(
                                    post.phase,
                                    action,
                                    pre.ctx.attached_deposit,
                                    ids,
                                )
                            }
                        },
                    },
                }
            },
            Event::TransfersSettled { outcomes } => {
                &&& pre.phase matches Phase::Dispatching { slice, fanout }
                &&& {
                    let fails = failure_count(outcomes@);
                    if fails == 0 {
                        &&& post.phase == (Phase::Reporting { slice })
                        &&& action == (Action::Report { amount: slice })
                    } else {
                        &&& post.phase == (Phase::Compensating { slice })
                        &&& action matches Action::IssueRefund { target, amount }
                        &&& target@ == pre.ctx.signer@
                        &&& amount == fails * slice
                    }
                }
            },
            Event::RefundSettled => {
                &&& pre.phase matches Phase::Compensating { slice }
                &&& post.phase == (Phase::Reporting { slice })
                &&& action == (Action::Report { amount: slice })
            },
            Event::ReportSettled => {
                &&& pre.phase matches Phase::Reporting { slice }
                &&& post.phase == (Phase::Done { paid: slice })
                &&& action == (Action::Finish { paid: slice })
            },
        }
    }

    /// Advances the pipeline by one delivered event and returns the next
    /// outside action, as a pure function of state and event.
    pub fn step(&mut self, event: Event) -> (action: Action)
        requires
            old(self).wf(),
            old(self).accepts(event),
        ensures
            final(self).wf(),
            final(self).ctx == old(self).ctx,
            final(self).gas == old(self).gas,
            Pipeline::step_spec(*old(self), event, *final(self), action),
    {
        let engine = Distrotron {};
        match event {
            Event::Invoke { recipients } => {
                match engine.split_payment(&self.ctx, &recipients) {
                    Ok(plan) => {
                        let transfers = engine.pay_each(&plan.payees, plan.slice);
                        proof {
                            assert(transfer_recipients(transfers@) =~= plan.payees.deep_view());
                        }
                        self.phase = Phase::Dispatching {
                            slice: plan.slice,
                            fanout: transfers.len(),
                        };
                        Action::IssueTransfers { transfers }
                    },
                    Err(reason) => {
                        self.phase = Phase::Failed { reason };
                        Action::Abort { reason }
                    },
                }
            },
            Event::InvokeDirectory { directory } => {
                match engine.pay_minters(&self.ctx, &self.gas, &directory) {
                    Ok(plan) => {
                        self.phase = Phase::LookingUp;
                        Action::CallDirectory { plan }
                    },
                    Err(reason) => {
                        self.phase = Phase::Failed { reason };
                        Action::Abort { reason }
                    },
                }
            },
            Event::LookupSettled { response } => {
                match engine.list_minters_cb(&self.ctx, &response) {
                    Ok(plan) => {
                        let transfers = engine.pay_each(&plan.payees, plan.slice);
                        proof {
                            assert(transfer_recipients(transfers@) =~= plan.payees.deep_view());
                        }
                        self.phase = Phase::Dispatching {
                            slice: plan.slice,
                            fanout: transfers.len(),
                        };
                        Action::IssueTransfers { transfers }
                    },
                    Err(reason) => {
                        self.phase = Phase::Failed { reason };
                        Action::Abort { reason }
                    },
                }
            },
            Event::TransfersSettled { outcomes } => {
                let (slice, fanout) = match self.phase {
                    Phase::Dispatching { slice, fanout } => (slice, fanout),
                    _ => {
                        proof {
                            assert(false);
                        }
                        (0, 0)
                    },
                };
                proof {
                    lemma_refund_within_attached(
                        outcomes@,
                        self.ctx.attached_deposit,
                        fanout as nat,
                    );
                }
                match engine.refund_unpaid(&self.ctx, slice, &outcomes) {
                    Compensation::Refund { target, amount } => {
                        self.phase = Phase::Compensating { slice };
                        Action::IssueRefund { target, amount }
                    },
                    Compensation::Settled { amount } => {
                        self.phase = Phase::Reporting { slice: amount };
                        Action::Report { amount }
                    },
                }
            },
            Event::RefundSettled => {
                let slice = match self.phase {
                    Phase::Compensating { slice } => slice,
                    _ => {
                        proof {
                            assert(false);
                        }
                        0
                    },
                };
                self.phase = Phase::Reporting { slice };
                Action::Report { amount: slice }
            },
            Event::ReportSettled => {
                let slice = match self.phase {
                    Phase::Reporting { slice } => slice,
                    _ => {
                        proof {
                            assert(false);
                        }
                        0
                    },
                };
                let paid = engine.report_payment(slice);
                self.phase = Phase::Done { paid };
                Action::Finish { paid }
            },
        }
    }
}

/// Pipelines dispatched from recipient lists carrying the same identifiers
/// — a directory's answer or a directly supplied list — proceed
/// identically: the same recipients in the same order, the same slice for
/// each, and the same state awaiting the barrier.
pub proof fn lemma_equal_recipients_dispatch_alike(
    post1: Phase,
    a1: Action,
    post2: Phase,
    a2: Action,
    attached: u128,
    ids1: Seq<Seq<char>>,
    ids2: Seq<Seq<char>>,
)
    requires
        dispatches_payout(post1, a1, attached, ids1),
        dispatches_payout(post2, a2, attached, ids2),
        ids1.to_set() == ids2.to_set(),
    ensures
        post1 == post2,
        a1 matches Action::IssueTransfers { transfers: t1 } && a2 matches Action::IssueTransfers {
            transfers: t2,
        } ==> transfer_recipients(t1@) == transfer_recipients(t2@) && t1@.len() == t2@.len()
            && (forall|i: int| 0 <= i < t1@.len() ==> t1@[i].amount == t2@[i].amount),
{
    let t1 = a1->IssueTransfers_transfers;
    let t2 = a2->IssueTransfers_transfers;
    crate::normalize::lemma_normalization_unique(
        transfer_recipients(t1@),
        transfer_recipients(t2@),
    );
}

/// Once the fan-out is dispatched, the pipeline cannot abort, and the
/// per-recipient slice fixed at dispatch is carried unchanged through
/// compensation and reporting: the caller's observed result equals the
/// slice whether or not a refund was issued.
pub proof fn lemma_reported_amount_is_the_slice(
    pre: Pipeline,
    event: Event,
    post: Pipeline,
    action: Action,
)
    requires
        pre.accepts(event),
        Pipeline::step_spec(pre, event, post, action),
        carried_slice(pre.phase) is Some,
    ensures
        carried_slice(post.phase) == carried_slice(pre.phase),
        !(post.phase is Failed),
        !(action is Abort),
        action matches Action::Finish { paid } ==> Some(paid) == carried_slice(pre.phase),
        action matches Action::Report { amount } ==> Some(amount) == carried_slice(pre.phase),
{
}

} // verus!
