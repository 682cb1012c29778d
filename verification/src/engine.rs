//! The authorization engine: threshold validation and the atomic commit step.

use vstd::prelude::*;

use crate::errors::CustomError;
use crate::identity::{key_listed, keys_contain, Attestation, Pubkey};
use crate::multisig::Multisig;

verus! {

/// A guarded ledger operation together with its parameters.
#[derive(Clone, Copy, Debug)]
pub enum Operation {
    /// Issue `amount` new units to `destination`.
    Mint { amount: u64, destination: Pubkey },
    /// Move `amount` units from `source` to `destination`.
    Transfer { amount: u64, source: Pubkey, destination: Pubkey },
}

/// A request that passed validation against a record, bound to the nonce of
/// the record state it was validated under. Completing it consumes exactly
/// that nonce value; a pending authorization can never commit twice.
#[derive(Clone, Copy, Debug)]
pub struct PendingAuthorization {
    pub operation: Operation,
    /// The record nonce this authorization is entitled to consume.
    pub nonce: u64,
    /// The number of distinct valid attestations that approved it.
    pub valid_count: usize,
}

/// The result of a committed authorization: the nonce value it consumed
/// (already advanced) and the number of distinct signatures used.
#[derive(Clone, Copy, Debug, PartialEq, Eq, Structural)]
pub struct Receipt {
    pub nonce: u64,
    pub signatures_used: usize,
}

/// The first fault among the attestations, in presentation order: an
/// attestation whose proof of signing the environment did not verify, or
/// one whose identity is not in the signer list. `None` when every
/// attestation is a verified signature from a listed signer.
pub open spec fn attestation_fault(signers: Seq<Pubkey>, atts: Seq<Attestation>) -> Option<
    CustomError,
>
    decreases atts.len(),
{
    if atts.len() == 0 {
        None
    } else if !atts[0].verified {
        Some(CustomError::SignerMustSign)
    } else if !key_listed(signers, atts[0].signer) {
        Some(CustomError::UnauthorizedSigner)
    } else {
        attestation_fault(signers, atts.subrange(1, atts.len() as int))
    }
}

/// Whether `key` is the identity of some attestation in `atts`.
pub open spec fn signer_among(atts: Seq<Attestation>, key: Pubkey) -> bool {
    exists|i: int| 0 <= i < atts.len() && atts[i].signer.bytes@ == key.bytes@
}

/// How many distinct identities the attestations carry. A signer attesting
/// twice is counted once: replayed or duplicated attestations grant no
/// extra authorizing power.
pub open spec fn distinct_signer_count(atts: Seq<Attestation>) -> nat
    decreases atts.len(),
{
    if atts.len() == 0 {
        0
    } else if signer_among(atts.drop_last(), atts.last().signer) {
        distinct_signer_count(atts.drop_last())
    } else {
        distinct_signer_count(atts.drop_last()) + 1
    }
}

/// Why validation of an authorization request is rejected, if it is:
/// first a faulty attestation, then a distinct-signature count below the
/// record's threshold, and last a nonce that can no longer advance.
pub open spec fn begin_fault(m: Multisig, atts: Seq<Attestation>) -> Option<CustomError> {
    if attestation_fault(m.signers@, atts) is Some {
        attestation_fault(m.signers@, atts)
    } else if distinct_signer_count(atts) < m.threshold {
        Some(CustomError::NotEnoughSignatures)
    } else if m.nonce == u64::MAX {
        Some(CustomError::ReplayOrOverflow)
    } else {
        None
    }
}

/// Reject any attestation that the environment did not verify or whose
/// identity is not in `signers`.
fn check_attestations(signers: &Vec<Pubkey>, atts: &Vec<Attestation>) -> (r: Result<
    (),
    CustomError,
>)
    ensures
        match r {
            Ok(()) => attestation_fault(signers@, atts@) is None,
            Err(e) => attestation_fault(signers@, atts@) == Some(e),
        },
{
    let mut i: usize = 0;
    proof {
        assert(atts@.subrange(0, atts@.len() as int) =~= atts@);
    }
    while i < atts.len()
        invariant
            0 <= i <= atts@.len(),
            attestation_fault(signers@, atts@) == attestation_fault(
                signers@,
                atts@.subrange(i as int, atts@.len() as int),
            ),
        decreases atts@.len() - i,
    {
        let ghost rest = atts@.subrange(i as int, atts@.len() as int);
        proof {
            assert(rest[0] == atts@[i as int]);
            assert(rest.subrange(1, rest.len() as int) =~= atts@.subrange(
                i as int + 1,
                atts@.len() as int,
            ));
        }
        if !atts[i].verified {
            return Err(CustomError::SignerMustSign);
        }
        if !keys_contain(signers, &atts[i].signer) {
            return Err(CustomError::UnauthorizedSigner);
        }
        i += 1;
    }
    proof {
        assert(atts@.subrange(atts@.len() as int, atts@.len() as int) =~= Seq::<
            Attestation,
        >::empty());
    }
    Ok(())
}

/// Whether the signer of attestation `i` already occurs among the first `i`
/// attestations.
fn signer_seen_before(atts: &Vec<Attestation>, i: usize) -> (r: bool)
    requires
        i < atts@.len(),
    ensures
        r == signer_among(atts@.take(i as int), atts@[i as int].signer),
{
    let mut j: usize = 0;
    while j < i
        invariant
            0 <= j <= i < atts@.len(),
            forall|k: int| 0 <= k < j ==> atts@[k].signer.bytes@ != atts@[i as int].signer.bytes@,
        decreases i - j,
    {
        if atts[j].signer == atts[i].signer {
            assert(atts@.take(i as int)[j as int] == atts@[j as int]);
            return true;
        }
        j += 1;
    }
    assert(forall|k: int|
        0 <= k < i ==> atts@.take(i as int)[k].signer.bytes@ != atts@[i as int].signer.bytes@);
    false
}

/// Count the distinct identities among the attestations.
fn count_distinct_signers(atts: &Vec<Attestation>) -> (n: usize)
    ensures
        n == distinct_signer_count(atts@),
{
    let mut n: usize = 0;
    let mut i: usize = 0;
    while i < atts.len()
        invariant
            0 <= i <= atts@.len(),
            n <= i,
            n == distinct_signer_count(atts@.take(i as int)),
        decreases atts@.len() - i,
    {
        let seen = signer_seen_before(atts, i);
        proof {
            assert(atts@.take(i as int + 1).drop_last() =~= atts@.take(i as int));
            assert(atts@.take(i as int + 1).last() == atts@[i as int]);
        }
        if !seen {
            n += 1;
        }
        i += 1;
    }
    proof {
        assert(atts@.take(atts@.len() as int) =~= atts@);
    }
    n
}

/// Validate an authorization request against a record: every attestation
/// must be a verified signature of a listed signer, the distinct signatures
/// must reach the record's threshold, and the nonce must still be able to
/// advance. On success the returned pending authorization is bound to the
/// record's current nonce; the record itself is untouched (validation
/// mutates nothing).
pub fn begin_authorization(
    m: &Multisig,
    operation: Operation,
    attestations: &Vec<Attestation>,
) -> (r: Result<PendingAuthorization, CustomError>)
    ensures
        match r {
            Ok(p) => begin_fault(*m, attestations@) is None && p.operation == operation && p.nonce
                == m.nonce && p.valid_count == distinct_signer_count(attestations@)
                && p.valid_count >= m.threshold,
            Err(e) => begin_fault(*m, attestations@) == Some(e),
        },
{
    match check_attestations(&m.signers, attestations) {
        Ok(()) => (),
        Err(e) => {
            return Err(e);
        },
    }
    let valid_count = count_distinct_signers(attestations);
    if valid_count < m.threshold as usize {
        return Err(CustomError::NotEnoughSignatures);
    }
    if m.nonce == u64::MAX {
        return Err(CustomError::ReplayOrOverflow);
    }
    Ok(PendingAuthorization { operation, nonce: m.nonce, valid_count })
}

/// The commit step of the record's state machine, as one transition
/// function: the record after the step and what the caller is told.
///
/// A pending authorization commits only against the exact nonce it was
/// validated under, and only when the delegated ledger call succeeded;
/// every rejection leaves the record exactly as it was.
pub open spec fn commit_step(m: Multisig, p: PendingAuthorization, delegated_ok: bool) -> (
    Multisig,
    Result<Receipt, CustomError>,
) {
    if p.nonce != m.nonce || m.nonce == u64::MAX {
        (m, Err(CustomError::ReplayOrOverflow))
    } else if !delegated_ok {
        (m, Err(CustomError::DelegatedActionFailed))
    } else {
        (
            (Multisig {
                signers: m.signers,
                threshold: m.threshold,
                nonce: (m.nonce + 1) as u64,
                bump: m.bump,
            }),
            Ok(
                (Receipt {
                    nonce: (m.nonce + 1) as u64,
                    signatures_used: p.valid_count,
                }),
            ),
        )
    }
}

/// Commit or reject a validated authorization, given the outcome of the
/// delegated ledger call the caller performed. The nonce advance and the
/// delegated action form one atomic unit: the nonce advances by exactly one
/// when the ledger accepted the operation, and on any failure — a replayed
/// or stale pending authorization, an exhausted nonce, a rejected ledger
/// call — the record is left exactly as it was.
pub fn complete_authorization(
    m: &mut Multisig,
    pending: &PendingAuthorization,
    delegated_ok: bool,
) -> (r: Result<Receipt, CustomError>)
    ensures
        (*final(m), r) == commit_step(*old(m), *pending, delegated_ok),
        final(m).signers@ == old(m).signers@,
        final(m).threshold == old(m).threshold,
        final(m).bump == old(m).bump,
        final(m).nonce >= old(m).nonce,
        old(m).wf() ==> final(m).wf(),
        r is Ok ==> final(m).nonce == old(m).nonce + 1 && r->Ok_0.nonce == final(m).nonce
            && r->Ok_0.signatures_used == pending.valid_count,
        r is Err ==> *final(m) == *old(m),
{
    if pending.nonce != m.nonce || m.nonce == u64::MAX {
        return Err(CustomError::ReplayOrOverflow);
    }
    if !delegated_ok {
        return Err(CustomError::DelegatedActionFailed);
    }
    m.nonce = m.nonce + 1;
    Ok(Receipt { nonce: m.nonce, signatures_used: pending.valid_count })
}

/// AuthorizationEngine entry for issuance: validate a request to mint
/// `amount` units to `destination` under `m`'s policy. The caller performs
/// the delegated mint only on success and then reports its outcome to
/// `complete_authorization`.
pub fn multisig_mint_tokens(
    m: &Multisig,
    destination: &Pubkey,
    amount: u64,
    attestations: &Vec<Attestation>,
) -> (r: Result<PendingAuthorization, CustomError>)
    ensures
        match r {
            Ok(p) => begin_fault(*m, attestations@) is None && p.operation == (Operation::Mint {
                amount: amount,
                destination: *destination,
            }) && p.nonce == m.nonce && p.valid_count == distinct_signer_count(attestations@)
                && p.valid_count >= m.threshold,
            Err(e) => begin_fault(*m, attestations@) == Some(e),
        },
{
    begin_authorization(m, Operation::Mint { amount, destination: *destination }, attestations)
}

/// AuthorizationEngine entry for transfers: validate a request to move
/// `amount` units from `source` to `destination` under `m`'s policy.
pub fn multisig_transfer(
    m: &Multisig,
    source: &Pubkey,
    destination: &Pubkey,
    amount: u64,
    attestations: &Vec<Attestation>,
) -> (r: Result<PendingAuthorization, CustomError>)
    ensures
        match r {
            Ok(p) => begin_fault(*m, attestations@) is None && p.operation
                == (Operation::Transfer {
                amount: amount,
                source: *source,
                destination: *destination,
            }) && p.nonce == m.nonce && p.valid_count == distinct_signer_count(attestations@)
                && p.valid_count >= m.threshold,
            Err(e) => begin_fault(*m, attestations@) == Some(e),
        },
{
    begin_authorization(
        m,
        Operation::Transfer { amount, source: *source, destination: *destination },
        attestations,
    )
}

/// Threshold enforcement: a request whose attestations are individually
/// valid but carry fewer distinct signatures than the threshold is rejected
/// with `NotEnoughSignatures` — it never reaches the commit step, so the
/// record (its nonce included) is unchanged.
pub proof fn lemma_threshold_enforced(m: Multisig, atts: Seq<Attestation>)
    requires
        attestation_fault(m.signers@, atts) is None,
        distinct_signer_count(atts) < m.threshold,
    ensures
        begin_fault(m, atts) == Some(CustomError::NotEnoughSignatures),
{
}

/// Replay protection: once a pending authorization has committed, completing
/// the identical pending authorization against the advanced record is
/// rejected with `ReplayOrOverflow` and changes nothing, whatever the
/// delegated call would report — a nonce value is never consumed twice.
pub proof fn lemma_replay_rejected(m: Multisig, p: PendingAuthorization, delegated_ok: bool)
    requires
        commit_step(m, p, true).1 is Ok,
    ensures
        ({
            let m1 = commit_step(m, p, true).0;
            commit_step(m1, p, delegated_ok) == (
                m1,
                Err::<Receipt, CustomError>(CustomError::ReplayOrOverflow),
            )
        }),
{
}

/// Across any commit step the signer policy is immutable and the nonce never
/// decreases: only a successful commit moves it, by exactly one.
pub proof fn lemma_commit_preserves_policy(m: Multisig, p: PendingAuthorization, delegated_ok: bool)
    ensures
        commit_step(m, p, delegated_ok).0.signers == m.signers,
        commit_step(m, p, delegated_ok).0.threshold == m.threshold,
        commit_step(m, p, delegated_ok).0.bump == m.bump,
        commit_step(m, p, delegated_ok).0.nonce >= m.nonce,
        m.wf() ==> commit_step(m, p, delegated_ok).0.wf(),
{
}

} // verus!
