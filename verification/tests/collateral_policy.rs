use syron_minter::collateral::{mintable_amount, CollateralizedAccount};
use syron_minter::errors::UpdateBalanceError;

const RATE_SCALE: u64 = 1_000_000_000;

#[test]
fn snapshot_defaults_ratio_when_either_side_is_zero() {
    let fresh = CollateralizedAccount::from_parts(60_000 * RATE_SCALE, 0, 0, 0, 0);
    assert_eq!(fresh.exchange_rate, 60_000);
    assert_eq!(fresh.collateral_ratio, 15_000);
    let no_loan = CollateralizedAccount::from_parts(60_000 * RATE_SCALE, 5_000, 0, 1, 2);
    assert_eq!(no_loan.collateral_ratio, 15_000);
    assert_eq!(no_loan.btc_1, 5_000);
    assert_eq!(no_loan.susd_2, 1);
    assert_eq!(no_loan.susd_3, 2);
}

#[test]
fn snapshot_computes_ratio_in_basis_points() {
    // collateral 100_000 sats at rate 60_000 against a loan of 4_000_000_000
    // minor units: ratio = 100_000 * 60_000 * 10_000 / 4_000_000_000 = 15_000.
    let s = CollateralizedAccount::from_parts(
        60_000 * RATE_SCALE,
        100_000,
        4_000_000_000,
        0,
        0,
    );
    assert_eq!(s.collateral_ratio, 15_000);
    // Half the loan doubles the ratio.
    let s2 = CollateralizedAccount::from_parts(
        60_000 * RATE_SCALE,
        100_000,
        2_000_000_000,
        0,
        0,
    );
    assert_eq!(s2.collateral_ratio, 30_000);
}

#[test]
fn collateral_floor_two_thirds_rendering() {
    // At or above the floor the loan is deposit * rate / 15 * 10, which
    // equals floor(deposit * rate * 2 / 3) whenever deposit * rate leaves a
    // remainder of at most 1 modulo 15.
    let s = CollateralizedAccount::from_parts(60_000 * RATE_SCALE, 0, 0, 0, 0);
    let deposit: u64 = 100_000;
    let loan = mintable_amount(deposit, &s).expect("policy amount");
    assert_eq!(loan, 4_000_000_000);
    assert_eq!(loan, deposit * 60_000 * 2 / 3);
}

#[test]
fn mintable_below_floor_mints_zero_when_deposit_is_absorbed() {
    // collateral 10 sats, loan 6_000_000 at rate 60_000:
    // ratio = 10 * 60_000 * 10_000 / 6_000_000 = 1_000 bps, far below floor.
    // Restoring the floor needs 3 * 6_000_000 / (2 * 60_000) - 10 = 140 sats.
    let s = CollateralizedAccount::from_parts(60_000 * RATE_SCALE, 10, 6_000_000, 0, 0);
    assert!(s.collateral_ratio < 15_000);
    assert_eq!(mintable_amount(140, &s).expect("absorbed deposit"), 0);
}

#[test]
fn mintable_below_floor_rejects_partial_restoration() {
    let s = CollateralizedAccount::from_parts(60_000 * RATE_SCALE, 10, 6_000_000, 0, 0);
    match mintable_amount(141, &s) {
        Err(UpdateBalanceError::GenericError { error_code, .. }) => assert_eq!(error_code, 2),
        other => panic!("expected an unsupported-operation rejection, got {:?}", other),
    }
}

#[test]
fn mintable_rejects_unrepresentable_loan() {
    let s = CollateralizedAccount {
        exchange_rate: u64::MAX,
        collateral_ratio: 15_000,
        btc_1: 0,
        susd_1: 0,
        susd_2: 0,
        susd_3: 0,
    };
    match mintable_amount(u64::MAX, &s) {
        Err(UpdateBalanceError::SystemError { .. }) => {}
        other => panic!("expected an internal error, got {:?}", other),
    }
}
