//! Error taxonomy of the core: every failure is scoped to a single operation
//! on a single stone, and each kind is distinct and inspectable.

use vstd::prelude::*;

verus! {

/// Why an operation on a stone was refused.
///
/// The kinds group as: bad parameters (`InvalidActivationLevel`,
/// `CannotDowngradeActivation`), proximity failures (`InvalidProof`,
/// `OutsideActivationRange`, `ProofExpired`, `UnauthorizedIssuer`),
/// lifecycle failures (`InvalidState`), and collaborator failures
/// (`PaymentFailed`, `MintFailed`).
#[derive(Clone, Copy, Debug, PartialEq, Eq, Structural)]
pub enum ErrorCode {
    /// The requested activation level is not one of 1, 2 or 3.
    InvalidActivationLevel,
    /// The stone's current state does not permit the requested level.
    CannotDowngradeActivation,
    /// The proof payload could not be decoded into a claimed position.
    InvalidProof,
    /// The claimed position is farther from the stone than the level allows.
    OutsideActivationRange,
    /// The proof is older than the freshness window.
    ProofExpired,
    /// The proof's issuer is not in the authorized set.
    UnauthorizedIssuer,
    /// The operation is not valid in the stone's current lifecycle state.
    InvalidState,
    /// The payment collaborator refused the charge.
    PaymentFailed,
    /// The minting collaborator refused the mint.
    MintFailed,
}

} // verus!
