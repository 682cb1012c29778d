//! A threshold-authorization gate for a token-custody service.
//!
//! Privileged ledger operations (token issuance, transfer) must be approved
//! by M-of-N designated signers before execution. This library holds the
//! authorization core: a bounded signer set with a threshold policy,
//! validation of presented attestations against that policy, nonce-based
//! replay protection, and the deterministic derivation that binds a multisig
//! record to the authority identity recognized by the external ledger.
//!
//! The ledger itself (balance bookkeeping, mint and transfer mechanics) is an
//! external collaborator: a caller validates a request with
//! [`engine::begin_authorization`] (or the operation-specific entry points),
//! performs the delegated ledger call only on success, and reports its
//! outcome to [`engine::complete_authorization`], which advances the nonce
//! exactly when the delegated action succeeded — an authorization either
//! fully commits or leaves the record untouched.

use vstd::prelude::*;

pub mod authority;
pub mod engine;
pub mod errors;
pub mod identity;
pub mod multisig;

pub use engine::Operation;
pub use engine::PendingAuthorization;
pub use engine::Receipt;
pub use errors::CustomError;
pub use identity::Attestation;
pub use identity::Pubkey;
pub use multisig::Multisig;

verus! {

/// The largest number of signers a multisig record may hold.
pub const MAX_SIGNERS: usize = 10;

} // verus!
