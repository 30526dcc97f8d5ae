//! The typed failures of the ledger.

use vstd::prelude::*;

verus! {

/// Why an operation of the ledger was refused. Every refusal leaves the
/// ledger exactly as it was.
#[derive(Clone, Copy, Debug, PartialEq, Eq, Structural)]
pub enum LedgerError {
    /// An account with this alias already exists.
    AliasTaken,
    /// A transfer names an account that the ledger does not hold.
    AccountNotFound(u128),
    /// The paying account holds less than the amount to move.
    InsufficientFunds(u128),
    /// A lookup by identifier found nothing.
    NotFound,
    /// The receiving account's balance would leave the range of `u64`.
    BalanceOverflow(u128),
    /// A freshly drawn identifier is already carried by a stored record.
    IdentifierInUse(u128),
    /// A transfer was left half applied. No verified operation returns this:
    /// each one shows that its commit cannot fail once it has begun.
    InternalInconsistency,
}

impl LedgerError {
    /// The HTTP status that an adapter is advised to answer a refusal with:
    /// 404 where something asked for is not there, 409 where the state of the
    /// ledger stands against the request, 500 for what must never happen.
    pub open spec fn spec_status_code(&self) -> u16 {
        match self {
            LedgerError::NotFound | LedgerError::AccountNotFound(_) => 404,
            LedgerError::AliasTaken
            | LedgerError::InsufficientFunds(_)
            | LedgerError::BalanceOverflow(_)
            | LedgerError::IdentifierInUse(_) => 409,
            LedgerError::InternalInconsistency => 500,
        }
    }

    /// The HTTP status that an adapter is advised to answer this refusal
    /// with.
    #[verifier::when_used_as_spec(spec_status_code)]
    pub fn status_code(&self) -> (code: u16)
        ensures
            code == self.spec_status_code(),
    {
        match self {
            LedgerError::NotFound | LedgerError::AccountNotFound(_) => 404,
            LedgerError::AliasTaken
            | LedgerError::InsufficientFunds(_)
            | LedgerError::BalanceOverflow(_)
            | LedgerError::IdentifierInUse(_) => 409,
            LedgerError::InternalInconsistency => 500,
        }
    }
}

/// The result that reports `failure`, or success when there is none.
pub open spec fn outcome(failure: Option<LedgerError>) -> Result<(), LedgerError> {
    match failure {
        Some(error) => Err(error),
        None => Ok(()),
    }
}

} // verus!
