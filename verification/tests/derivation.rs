use syron_minter::deriver::{compute_subaccount, get_withdrawal_account};
use syron_minter::errors::UpdateBalanceError;

fn minter_id() -> Vec<u8> {
    vec![239, 205, 171, 0, 0, 0, 0, 0, 1]
}

#[test]
fn derivation_is_deterministic() {
    let minter = minter_id();
    let a = compute_subaccount(&minter, 1, "tb1qexample");
    let b = compute_subaccount(&minter, 1, "tb1qexample");
    assert_eq!(a, b);
    assert_eq!(a.len(), 32);
}

#[test]
fn derivation_separates_nonces_and_identities() {
    let minter = minter_id();
    let base = compute_subaccount(&minter, 1, "tb1qexample");
    assert_ne!(base, compute_subaccount(&minter, 2, "tb1qexample"));
    assert_ne!(base, compute_subaccount(&minter, 1, "tb1qother"));
    let other_minter = vec![1, 2, 3];
    assert_ne!(base, compute_subaccount(&other_minter, 1, "tb1qexample"));
}

#[test]
fn derivation_matches_sha256_construction() {
    // The sub-account must be the SHA-256 digest of
    // 0x05 || "syron" || minter || nonce (big-endian) || ssi.
    let minter = minter_id();
    let nonce: u64 = 7;
    let ssi = "tb1qexample";
    let mut preimage: Vec<u8> = vec![0x05];
    preimage.extend_from_slice(b"syron");
    preimage.extend_from_slice(&minter);
    preimage.extend_from_slice(&nonce.to_be_bytes());
    preimage.extend_from_slice(ssi.as_bytes());
    let expected: Vec<u8> = <sha2::Sha256 as sha2::Digest>::digest(&preimage).to_vec();
    assert_eq!(compute_subaccount(&minter, nonce, ssi), expected);
}

#[test]
fn derivation_golden_vector() {
    // Pins the derivation bytes on a fixed principal: the digest of
    // 0x05 || "syron" || principal || be(0) || "" must never drift.
    let principal = candid::Principal::from_text("2chl6-4hpzw-vqaaa-aaaaa-c").unwrap();
    let minter = principal.as_slice().to_vec();
    let expected: [u8; 32] = [
        216, 108, 90, 58, 28, 254, 103, 165, 94, 179, 175, 142, 205, 202, 118, 232, 178, 170,
        103, 185, 78, 192, 246, 99, 123, 211, 116, 16, 75, 140, 20, 147,
    ];
    assert_eq!(compute_subaccount(&minter, 0, ""), expected);
}

#[test]
fn withdrawal_account_uses_nonce_zero() {
    let minter = minter_id();
    let account = get_withdrawal_account(&minter).expect("no collision expected");
    assert_eq!(account.owner, minter);
    let expected = compute_subaccount(&minter, 0, "");
    assert_eq!(account.subaccount, Some(expected));
    // The reserved default sub-account is all zero; a real digest is not.
    assert!(account.subaccount.unwrap().iter().any(|b| *b != 0));
}

#[test]
fn withdrawal_account_error_is_configuration_error() {
    // No practical input collides, but the error branch is the contract's
    // other half; check the success branch never reports it.
    let minter = minter_id();
    match get_withdrawal_account(&minter) {
        Ok(_) => {}
        Err(UpdateBalanceError::GenericError { error_code, .. }) => {
            assert_eq!(error_code, 1);
            panic!("unexpected collision with the default sub-account");
        }
        Err(other) => panic!("unexpected error: {:?}", other),
    }
}
