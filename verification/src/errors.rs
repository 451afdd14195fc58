//! Errors that the harness raises for test-author mistakes.
//!
//! Failures that happen inside the ledger while a transaction executes are
//! never turned into these errors: they are reported inside the [`crate::receipt::Receipt`]
//! that the operation returns, so that the test can assert on them.

use vstd::prelude::*;

verus! {

/// A harness usage error: the test asked for something the registries cannot
/// answer, or an operation could not even be handed to the ledger.
#[derive(Clone, Copy, Debug, PartialEq, Eq)]
pub enum EnvError {
    /// No user or package is registered under the requested name.
    NotFound,
    /// A user is already registered under the requested name.
    DuplicateName,
    /// No current user has been created or selected yet.
    NoCurrentUser,
    /// No current package has been published or selected yet.
    NoCurrentPackage,
    /// A call argument was not a well-formed encoded value.
    InvalidArguments,
    /// The ledger did not commit the transaction that this operation needs
    /// in order to return a value.
    ExecutionFailed,
}

} // verus!
