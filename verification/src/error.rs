//! The controller's error taxonomy.
//!
//! Every error is detected synchronously inside an operation and aborts that
//! operation with no partial effects; nothing is recovered locally, the caller
//! decides whether to resubmit.

use vstd::prelude::*;

verus! {

/// The reasons an operation refuses to act.
#[derive(Clone, Copy, Debug, PartialEq, Eq, Structural)]
pub enum ErrorCode {
    /// Initialization was invoked while a configuration record already exists.
    ProgramIsAlreadyInitialized,
    /// A supply operation was invoked before initialization has succeeded.
    ProgramIsNotInitialized,
    /// The requested operation is not allowed.
    OperationNotAllowed,
    /// The administrator role cannot be handed over.
    ChangeAuthorityForbidden,
    /// The token identity or the caller does not match the configuration.
    NotPermitted,
    /// A supplied account does not stand in the relationship the operation
    /// requires; in this core, the signing delegate could not be derived.
    InvalidAccount,
    /// A fee outside the accepted range was supplied.
    InvalidFeePercentage,
}

} // verus!
