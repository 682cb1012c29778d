//! The multisig record and its lifecycle.

use vstd::prelude::*;

use crate::errors::CustomError;
use crate::identity::Pubkey;

verus! {

/// A persisted multisig record: the signer set and threshold fixed at
/// creation (no signer rotation exists in this design), the replay-protection
/// nonce, and the structural salt of the record's derived authority.
///
/// Duplicate keys in `signers` are not rejected at creation; authorization
/// counts distinct identities, so a duplicate entry grants no extra
/// authorizing power.
#[derive(Clone, Debug)]
pub struct Multisig {
    pub signers: Vec<Pubkey>,
    pub threshold: u8,
    pub nonce: u64,
    pub bump: u8,
}

impl Multisig {
    /// The structural invariant: a usable threshold over a bounded signer
    /// set. Established by `create_multisig` and preserved by every
    /// operation (only the nonce ever changes afterwards).
    pub open spec fn wf(self) -> bool {
        1 <= self.threshold as int <= self.signers@.len() <= crate::MAX_SIGNERS as int
    }

    /// ReplayGuard: the nonce value the next authorization will consume.
    pub fn current_nonce(&self) -> (n: u64)
        ensures
            n == self.nonce,
    {
        self.nonce
    }
}

/// Why a creation request is rejected, if it is: a threshold of zero or one
/// exceeding the signer count, then an oversized signer list.
pub open spec fn creation_fault(signers: Seq<Pubkey>, threshold: u8) -> Option<CustomError> {
    if threshold == 0 || threshold as int > signers.len() {
        Some(CustomError::InvalidThreshold)
    } else if signers.len() > crate::MAX_SIGNERS as int {
        Some(CustomError::TooManySigners)
    } else {
        None
    }
}

/// Validate a creation request and assemble the new record: the given
/// signers and threshold, nonce starting at zero, and the bump of the
/// record's derived authority (see `derive_authority`). On rejection no
/// record exists at all.
pub fn create_multisig(signers: Vec<Pubkey>, threshold: u8, bump: u8) -> (r: Result<
    Multisig,
    CustomError,
>)
    ensures
        match r {
            Ok(m) => creation_fault(signers@, threshold) is None && m.signers@ == signers@
                && m.threshold == threshold && m.nonce == 0 && m.bump == bump && m.wf(),
            Err(e) => creation_fault(signers@, threshold) == Some(e),
        },
{
    if threshold == 0 || threshold as usize > signers.len() {
        return Err(CustomError::InvalidThreshold);
    }
    if signers.len() > crate::MAX_SIGNERS {
        return Err(CustomError::TooManySigners);
    }
    Ok(Multisig { signers, threshold, nonce: 0, bump })
}

/// A threshold of zero, or one exceeding the signer count, is always
/// rejected as `InvalidThreshold`, so no record with an unsatisfiable or
/// vacuous policy is ever created.
pub proof fn lemma_invalid_threshold_rejected(signers: Seq<Pubkey>, threshold: u8)
    requires
        threshold == 0 || threshold as int > signers.len(),
    ensures
        creation_fault(signers, threshold) == Some(CustomError::InvalidThreshold),
{
}

/// A signer list over the cap is rejected as `TooManySigners` whenever the
/// threshold itself is acceptable. (When both faults hold at once — say a
/// threshold of twelve over eleven signers — the threshold fault is
/// reported first.)
pub proof fn lemma_too_many_signers_rejected(signers: Seq<Pubkey>, threshold: u8)
    requires
        1 <= threshold as int <= signers.len(),
        signers.len() > crate::MAX_SIGNERS as int,
    ensures
        creation_fault(signers, threshold) == Some(CustomError::TooManySigners),
{
}

} // verus!
