//! The error taxonomy of the authorization gate.

use vstd::prelude::*;

verus! {

/// Every way a creation or authorization request can be rejected.
///
/// Validation errors leave all state untouched; `ReplayOrOverflow` and
/// `DelegatedActionFailed` are reported by the commit step, which also
/// leaves the record unchanged when it fails.
#[derive(Clone, Copy, Debug, PartialEq, Eq, Structural)]
pub enum CustomError {
    /// The requested threshold is zero or exceeds the signer count.
    InvalidThreshold,
    /// The proposed signer list exceeds the fixed cap.
    TooManySigners,
    /// Fewer distinct valid attestations than the record's threshold.
    NotEnoughSignatures,
    /// An attestation's proof of signing was not verified by the environment.
    SignerMustSign,
    /// An attestation's identity is not in the record's signer set.
    UnauthorizedSigner,
    /// The nonce was already consumed, or advancing it would overflow.
    ReplayOrOverflow,
    /// The external ledger rejected the guarded operation.
    DelegatedActionFailed,
}

impl CustomError {
    /// A human-readable description of the error.
    pub fn message(&self) -> &'static str {
        match self {
            CustomError::InvalidThreshold => "Invalid threshold: must be > 0 and <= number of signers",
            CustomError::TooManySigners => "Too many signers: maximum is 10",
            CustomError::NotEnoughSignatures => "Not enough signatures provided",
            CustomError::SignerMustSign => "Signer account must sign the transaction",
            CustomError::UnauthorizedSigner => "Unauthorized signer",
            CustomError::ReplayOrOverflow => "Nonce was already consumed or would overflow",
            CustomError::DelegatedActionFailed => "The external ledger rejected the operation",
        }
    }
}

} // verus!
