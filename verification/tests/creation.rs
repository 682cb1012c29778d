use token_program::multisig::create_multisig;
use token_program::CustomError;
use token_program::Pubkey;

fn key(n: u8) -> Pubkey {
    Pubkey { bytes: [n; 32] }
}

#[test]
fn create_with_zero_threshold_is_invalid() {
    let signers = vec![key(1), key(2), key(3)];
    let e = create_multisig(signers, 0, 255).unwrap_err();
    assert_eq!(e, CustomError::InvalidThreshold);
}

#[test]
fn create_with_threshold_over_signer_count_is_invalid() {
    let signers = vec![key(1), key(2)];
    let e = create_multisig(signers, 3, 255).unwrap_err();
    assert_eq!(e, CustomError::InvalidThreshold);
}

#[test]
fn create_with_eleven_signers_is_too_many() {
    let mut signers = Vec::new();
    for n in 1..=11u8 {
        signers.push(key(n));
    }
    let e = create_multisig(signers, 2, 255).unwrap_err();
    assert_eq!(e, CustomError::TooManySigners);
}

#[test]
fn create_with_ten_signers_succeeds() {
    let mut signers = Vec::new();
    for n in 1..=10u8 {
        signers.push(key(n));
    }
    let m = create_multisig(signers, 10, 254).unwrap();
    assert_eq!(m.signers.len(), 10);
    assert_eq!(m.threshold, 10);
    assert_eq!(m.nonce, 0);
    assert_eq!(m.bump, 254);
}

#[test]
fn created_record_keeps_signers_in_order() {
    let signers = vec![key(3), key(1), key(2)];
    let m = create_multisig(signers, 1, 255).unwrap();
    assert_eq!(m.signers[0].bytes, [3u8; 32]);
    assert_eq!(m.signers[1].bytes, [1u8; 32]);
    assert_eq!(m.signers[2].bytes, [2u8; 32]);
}

#[test]
fn threshold_fault_reported_before_signer_cap() {
    let mut signers = Vec::new();
    for n in 1..=11u8 {
        signers.push(key(n));
    }
    let e = create_multisig(signers, 12, 255).unwrap_err();
    assert_eq!(e, CustomError::InvalidThreshold);
}

#[test]
fn error_messages_name_each_condition() {
    assert_eq!(
        CustomError::InvalidThreshold.message(),
        "Invalid threshold: must be > 0 and <= number of signers"
    );
    assert_eq!(CustomError::TooManySigners.message(), "Too many signers: maximum is 10");
    assert_eq!(CustomError::NotEnoughSignatures.message(), "Not enough signatures provided");
    assert_eq!(
        CustomError::SignerMustSign.message(),
        "Signer account must sign the transaction"
    );
    assert_eq!(CustomError::UnauthorizedSigner.message(), "Unauthorized signer");
}
