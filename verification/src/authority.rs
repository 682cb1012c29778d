//! Authority binding: the deterministic derivation that ties a multisig
//! record to the authority identity the external ledger recognizes.
//!
//! The handle is a public, derivable discriminator, not a credential:
//! authorization is enforced entirely by the signer-set validation in
//! `engine`, never by possession of the handle.

use vstd::prelude::*;

use crate::identity::Pubkey;

verus! {

/// The authority identity derived for a multisig record: the address the
/// external ledger is configured to recognize as the record's controller,
/// plus the structural salt (bump) found by the derivation.
#[derive(Clone, Copy, Debug)]
pub struct AuthorityHandle {
    pub address: [u8; 32],
    pub bump: u8,
}

/// What the program-address derivation returns for a given domain-separator
/// seed, record identity and program identity: a deterministic function of
/// those arguments alone, or nothing in the statistically improbable case
/// that no salt yields a valid address.
pub uninterp spec fn program_address_of(seed: Seq<u8>, record: Seq<u8>, program: Seq<u8>) -> Option<
    (Seq<u8>, u8),
>;

/// Relies on anchor_lang's `Pubkey::try_find_program_address`: the derived
/// address and bump depend only on the seed slices and the program identity,
/// and `None` comes exactly when no bump seed yields a valid address.
#[verifier::external_body]
fn try_derive_address(seed: &Vec<u8>, record: &Pubkey, program: &Pubkey) -> (r: Option<
    ([u8; 32], u8),
>)
    ensures
        match r {
            Some(p) => program_address_of(seed@, record.bytes@, program.bytes@) == Some((p.0@, p.1)),
            None => program_address_of(seed@, record.bytes@, program.bytes@) is None,
        },
{
    let program_id = anchor_lang::prelude::Pubkey::new_from_array(program.bytes);
    let derived = anchor_lang::prelude::Pubkey::try_find_program_address(
        &[seed.as_slice(), &record.bytes],
        &program_id,
    );
    derived.map(|(address, bump)| (address.to_bytes(), bump))
}

/// The fixed domain separator of multisig authority derivation: the bytes of
/// "multisig".
pub open spec fn multisig_seed() -> Seq<u8> {
    seq![109u8, 117u8, 108u8, 116u8, 105u8, 115u8, 105u8, 103u8]
}

/// The domain separator as a byte vector.
fn multisig_seed_bytes() -> (r: Vec<u8>)
    ensures
        r@ == multisig_seed(),
{
    let r: Vec<u8> = vec![109u8, 117u8, 108u8, 116u8, 105u8, 115u8, 105u8, 103u8];
    proof {
        assert(r@ =~= multisig_seed());
    }
    r
}

/// Derive the authority handle binding the multisig record created by
/// `record` (its creator's key) under `program`. Deterministic: the same
/// `(record, program)` pair always yields the same handle, so the ledger can
/// be configured once, at resource creation, to recognize the handle, and
/// later authorizations reproduce it to authenticate delegated calls.
pub fn derive_authority(record: &Pubkey, program: &Pubkey) -> (r: Option<AuthorityHandle>)
    ensures
        match r {
            Some(h) => program_address_of(multisig_seed(), record.bytes@, program.bytes@) == Some(
                (h.address@, h.bump),
            ),
            None => program_address_of(multisig_seed(), record.bytes@, program.bytes@) is None,
        },
{
    let seed = multisig_seed_bytes();
    match try_derive_address(&seed, record, program) {
        Some(p) => Some(AuthorityHandle { address: p.0, bump: p.1 }),
        None => None,
    }
}

} // verus!
