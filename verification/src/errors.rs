use vstd::prelude::*;

verus! {

/// Fatal failure kinds of the disbursement engine.
///
/// Every variant aborts the whole operation before any transfer is issued,
/// so no compensation is ever needed for them: either no funds were
/// committed, or the host returns the attached payment automatically.
#[derive(Clone, Copy, Debug, PartialEq, Eq, Structural)]
pub enum PayError {
    /// The recipient set is empty (before or after normalization).
    EmptyRecipientList,
    /// No payment was attached to the invocation.
    NoPaymentAttached,
    /// The directory identifier does not meet the ledger's identifier syntax.
    InvalidDirectoryIdentifier,
    /// The remote directory call failed, or its response was not a list of
    /// identifiers.
    DirectoryLookupFailed,
    /// The directory answered with an empty recipient list.
    NoRecipientsFound,
    /// The remaining resource budget cannot cover the steps still reserved.
    BudgetExhausted,
    /// A share was requested for zero recipients; unreachable once the
    /// recipient set has been validated, kept as a defensive check.
    DivisionByZero,
}

impl PayError {
    /// The reason string surfaced to the caller when the operation aborts.
    pub open spec fn reason_spec(self) -> Seq<char> {
        match self {
            PayError::EmptyRecipientList => "Empty recipient list"@,
            PayError::NoPaymentAttached => "No payment attached"@,
            PayError::InvalidDirectoryIdentifier => "Invalid contract ID"@,
            PayError::DirectoryLookupFailed => "minter contract failure"@,
            PayError::NoRecipientsFound => "no minters found"@,
            PayError::BudgetExhausted => "budget exhausted"@,
            PayError::DivisionByZero => "division by zero"@,
        }
    }

    /// A descriptive reason for an aborted invocation.
    pub fn reason(&self) -> (r: String)
        ensures
            r@ == self.reason_spec(),
    {
        match self {
            PayError::EmptyRecipientList => "Empty recipient list".to_owned(),
            PayError::NoPaymentAttached => "No payment attached".to_owned(),
            PayError::InvalidDirectoryIdentifier => "Invalid contract ID".to_owned(),
            PayError::DirectoryLookupFailed => "minter contract failure".to_owned(),
            PayError::NoRecipientsFound => "no minters found".to_owned(),
            PayError::BudgetExhausted => "budget exhausted".to_owned(),
            PayError::DivisionByZero => "division by zero".to_owned(),
        }
    }
}

} // verus!
