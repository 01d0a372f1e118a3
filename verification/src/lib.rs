//! A fan-out disbursement engine: one attached payment is split evenly
//! across a set of recipient accounts and dispatched as independent
//! transfers, with a compensating refund for any transfer that fails.
//!
//! The crate models the engine as pure, verified decision logic.  Remote
//! effects (the directory lookup, the transfers, the refund) are described
//! by plan and action values; a host harness executes them and feeds the
//! settled outcomes back in.

mod account;
mod budget;
mod compensate;
mod contract;
mod directory;
mod errors;
mod normalize;
mod order;
mod pipeline;
mod split;

pub use account::id_char;
pub use account::id_separator;
pub use account::valid_account_id;
pub use budget::GasConfig;
pub use budget::GGAS;
pub use budget::reserved_sum;
pub use budget::ResourceBudget;
pub use budget::TGAS;
pub use compensate::Compensation;
pub use compensate::failure_count;
pub use compensate::lemma_all_success_no_refund;
pub use compensate::lemma_refund_within_attached;
pub use contract::CallContext;
pub use contract::Distrotron;
pub use contract::is_lookup_plan;
pub use contract::is_payment_plan;
pub use contract::lemma_lookup_matches_direct;
pub use contract::LookupPlan;
pub use contract::PaymentPlan;
pub use contract::TransferAction;
pub use directory::decoded_id_list;
pub use errors::PayError;
pub use normalize::is_normalization_of;
pub use normalize::lemma_normalization_idempotent;
pub use normalize::lemma_normalization_order_independent;
pub use normalize::lemma_normalization_unique;
pub use normalize::normalize;
pub use normalize::strictly_sorted;
pub use order::lex_lt;
pub use order::str_lt;
pub use pipeline::Action;
pub use pipeline::aborts_with;
pub use pipeline::carried_slice;
pub use pipeline::dispatches_payout;
pub use pipeline::Event;
pub use pipeline::lemma_equal_recipients_dispatch_alike;
pub use pipeline::lemma_reported_amount_is_the_slice;
pub use pipeline::Phase;
pub use pipeline::Pipeline;
pub use pipeline::transfer_recipients;
pub use split::Disbursement;
pub use split::split;
