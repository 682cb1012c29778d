use token_program::engine::{
    begin_authorization, complete_authorization, multisig_mint_tokens, multisig_transfer,
};
use token_program::identity::keys_contain;
use token_program::multisig::create_multisig;
use token_program::{Attestation, CustomError, Multisig, Operation, Pubkey};

fn key(n: u8) -> Pubkey {
    Pubkey { bytes: [n; 32] }
}

fn att(n: u8) -> Attestation {
    Attestation { signer: key(n), verified: true }
}

/// A stand-in for the delegated ledger backend: records how often it was
/// called and how many units it issued, and can be told to reject.
struct LedgerDouble {
    issued: u64,
    calls: u32,
    reject: bool,
}

impl LedgerDouble {
    fn new() -> LedgerDouble {
        LedgerDouble { issued: 0, calls: 0, reject: false }
    }

    fn issue(&mut self, amount: u64) -> bool {
        self.calls += 1;
        if self.reject {
            false
        } else {
            self.issued += amount;
            true
        }
    }
}

fn three_signer_record() -> Multisig {
    create_multisig(vec![key(1), key(2), key(3)], 2, 255).unwrap()
}

#[test]
fn mint_scenario_three_signers_threshold_two() {
    let mut m = three_signer_record();
    let mut ledger = LedgerDouble::new();

    // Mint 100 units with attestations from two of the three signers.
    let atts = vec![att(1), att(2)];
    let pending = multisig_mint_tokens(&m, &key(9), 100, &atts).unwrap();
    let outcome = ledger.issue(100);
    let receipt = complete_authorization(&mut m, &pending, outcome).unwrap();
    assert_eq!(receipt.nonce, 1);
    assert_eq!(receipt.signatures_used, 2);
    assert_eq!(m.nonce, 1);
    assert_eq!(m.current_nonce(), 1);
    assert_eq!(ledger.issued, 100);
    assert_eq!(ledger.calls, 1);

    // One signer alone is below the threshold; nothing changes.
    let atts = vec![att(1)];
    let e = multisig_mint_tokens(&m, &key(9), 100, &atts).unwrap_err();
    assert_eq!(e, CustomError::NotEnoughSignatures);
    assert_eq!(m.nonce, 1);
    assert_eq!(ledger.calls, 1);

    // A signer outside the set is rejected wholesale; nothing changes.
    let atts = vec![att(1), att(4)];
    let e = multisig_mint_tokens(&m, &key(9), 100, &atts).unwrap_err();
    assert_eq!(e, CustomError::UnauthorizedSigner);
    assert_eq!(m.nonce, 1);
    assert_eq!(ledger.issued, 100);
    assert_eq!(ledger.calls, 1);
}

#[test]
fn transfer_commits_and_advances_nonce() {
    let mut m = three_signer_record();
    let atts = vec![att(2), att(3)];
    let pending = multisig_transfer(&m, &key(7), &key(8), 40, &atts).unwrap();
    match pending.operation {
        Operation::Transfer { amount, source, destination } => {
            assert_eq!(amount, 40);
            assert_eq!(source.bytes, [7u8; 32]);
            assert_eq!(destination.bytes, [8u8; 32]);
        }
        Operation::Mint { .. } => panic!("expected a transfer operation"),
    }
    let receipt = complete_authorization(&mut m, &pending, true).unwrap();
    assert_eq!(receipt.nonce, 1);
    assert_eq!(m.nonce, 1);
}

#[test]
fn unverified_attestation_is_rejected() {
    let m = three_signer_record();
    let atts = vec![att(1), Attestation { signer: key(2), verified: false }];
    let e = multisig_mint_tokens(&m, &key(9), 10, &atts).unwrap_err();
    assert_eq!(e, CustomError::SignerMustSign);
}

#[test]
fn duplicate_attestations_count_once() {
    let m = three_signer_record();
    // The same signer twice: one distinct signature, below the threshold.
    let atts = vec![att(1), att(1)];
    let e = multisig_mint_tokens(&m, &key(9), 10, &atts).unwrap_err();
    assert_eq!(e, CustomError::NotEnoughSignatures);
}

#[test]
fn replay_of_committed_authorization_is_rejected() {
    let mut m = three_signer_record();
    let mut ledger = LedgerDouble::new();

    let atts = vec![att(1), att(3)];
    let pending = multisig_mint_tokens(&m, &key(9), 25, &atts).unwrap();
    let outcome = ledger.issue(25);
    complete_authorization(&mut m, &pending, outcome).unwrap();
    assert_eq!(m.nonce, 1);
    assert_eq!(ledger.calls, 1);

    // Replaying the identical pending authorization must not commit again:
    // its nonce value was consumed. The delegated action is not re-driven.
    let e = complete_authorization(&mut m, &pending, true).unwrap_err();
    assert_eq!(e, CustomError::ReplayOrOverflow);
    assert_eq!(m.nonce, 1);
    assert_eq!(ledger.issued, 25);
    assert_eq!(ledger.calls, 1);
}

#[test]
fn failed_delegated_call_leaves_record_unchanged() {
    let mut m = three_signer_record();
    let mut ledger = LedgerDouble::new();
    ledger.reject = true;

    let atts = vec![att(1), att(2)];
    let pending = multisig_mint_tokens(&m, &key(9), 60, &atts).unwrap();
    let outcome = ledger.issue(60);
    assert!(!outcome);
    let e = complete_authorization(&mut m, &pending, outcome).unwrap_err();
    assert_eq!(e, CustomError::DelegatedActionFailed);
    assert_eq!(m.nonce, 0);
    assert_eq!(ledger.issued, 0);

    // The same request, revalidated, can still commit afterwards.
    ledger.reject = false;
    let pending = multisig_mint_tokens(&m, &key(9), 60, &atts).unwrap();
    let outcome = ledger.issue(60);
    let receipt = complete_authorization(&mut m, &pending, outcome).unwrap();
    assert_eq!(receipt.nonce, 1);
    assert_eq!(m.nonce, 1);
    assert_eq!(ledger.issued, 60);
}

#[test]
fn exhausted_nonce_rejects_validation_and_commit() {
    let mut m = three_signer_record();
    m.nonce = u64::MAX;
    let atts = vec![att(1), att(2)];
    let e = multisig_mint_tokens(&m, &key(9), 10, &atts).unwrap_err();
    assert_eq!(e, CustomError::ReplayOrOverflow);

    let pending = token_program::PendingAuthorization {
        operation: Operation::Mint { amount: 10, destination: key(9) },
        nonce: u64::MAX,
        valid_count: 2,
    };
    let e = complete_authorization(&mut m, &pending, true).unwrap_err();
    assert_eq!(e, CustomError::ReplayOrOverflow);
    assert_eq!(m.nonce, u64::MAX);
}

#[test]
fn signer_listing_compares_key_bytes() {
    let keys = vec![key(1), key(2)];
    assert!(keys_contain(&keys, &key(2)));
    assert!(!keys_contain(&keys, &key(3)));
    assert!(key(1) == key(1));
    assert!(key(1) != key(2));
}

#[test]
fn begin_authorization_reports_distinct_count() {
    let m = create_multisig(vec![key(1), key(2), key(3)], 1, 255).unwrap();
    let atts = vec![att(2), att(2), att(3), att(3), att(3)];
    let pending =
        begin_authorization(&m, Operation::Mint { amount: 1, destination: key(9) }, &atts)
            .unwrap();
    assert_eq!(pending.valid_count, 2);
    assert_eq!(pending.nonce, 0);
}
