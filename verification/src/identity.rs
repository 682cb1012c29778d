//! Identity keys and signer attestations.

use vstd::prelude::*;

verus! {

/// A 32-byte identity key, in the form the external ledger environment uses
/// for accounts and signers.
#[derive(Clone, Copy, Debug)]
pub struct Pubkey {
    pub bytes: [u8; 32],
}

impl PartialEq for Pubkey {
    fn eq(&self, other: &Pubkey) -> (r: bool) {
        let mut i: usize = 0;
        while i < 32
            invariant
                0 <= i <= 32,
                forall|j: int| 0 <= j < i ==> self.bytes@[j] == other.bytes@[j],
            decreases 32 - i,
        {
            if self.bytes[i] != other.bytes[i] {
                return false;
            }
            i += 1;
        }
        proof {
            assert(self.bytes@ =~= other.bytes@);
        }
        true
    }
}

impl vstd::std_specs::cmp::PartialEqSpecImpl for Pubkey {
    open spec fn obeys_eq_spec() -> bool {
        true
    }

    open spec fn eq_spec(&self, other: &Pubkey) -> bool {
        self.bytes@ == other.bytes@
    }
}

/// Whether `key` occurs in `keys` (comparing the underlying bytes).
pub open spec fn key_listed(keys: Seq<Pubkey>, key: Pubkey) -> bool {
    exists|i: int| 0 <= i < keys.len() && keys[i].bytes@ == key.bytes@
}

/// Membership of a key in a signer list.
pub fn keys_contain(keys: &Vec<Pubkey>, key: &Pubkey) -> (r: bool)
    ensures
        r == key_listed(keys@, *key),
{
    let mut i: usize = 0;
    while i < keys.len()
        invariant
            0 <= i <= keys@.len(),
            forall|j: int| 0 <= j < i ==> keys@[j].bytes@ != key.bytes@,
        decreases keys@.len() - i,
    {
        if keys[i] == *key {
            return true;
        }
        i += 1;
    }
    false
}

/// An (identity, proof-of-signing) pair submitted with an authorization
/// request. Raw signature verification is delegated to the hosting
/// environment: `verified` records whether the environment vouches that
/// this identity actually signed the current operation.
#[derive(Clone, Copy, Debug)]
pub struct Attestation {
    pub signer: Pubkey,
    pub verified: bool,
}

} // verus!
