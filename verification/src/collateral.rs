//! Collateralization snapshot and the over-collateralized loan policy.
//!
//! A snapshot combines the exchange rate with the current locked-collateral
//! and loan balances. The loan minted against a deposit follows a fixed 150%
//! over-collateralization floor: at or above the floor the loan is
//! `deposit * rate / 15 * 10`; below it no new loan is minted when the whole
//! deposit is needed to restore the floor, and partial restoration is
//! rejected as unsupported rather than minting a possibly incorrect amount.

use vstd::prelude::*;
use vstd::arithmetic::div_mod::{lemma_div_multiples_vanish_fancy, lemma_fundamental_div_mod};
use vstd::string::StringExecFns;

use crate::errors::{ErrorCode, UpdateBalanceError};

verus! {

/// The collateral ratio, in basis points, that the policy floor demands.
pub const COLLATERAL_FLOOR_BPS: u64 = 15000;

/// Scale of exchange rates as delivered by the rate oracle.
pub const RATE_SCALE: u64 = 1_000_000_000;

/// Point-in-time collateralization state of one account: exchange rate,
/// collateral ratio in basis points, locked collateral (`btc_1`), loan
/// principal (`susd_1`) and two secondary informational balances. Computed
/// fresh on every mint or redeem decision and never cached.
#[derive(Clone, Debug, PartialEq, Eq)]
pub struct CollateralizedAccount {
    /// Exchange rate in whole quote units per collateral unit.
    pub exchange_rate: u64,
    /// Collateral ratio in basis points; 15000 when either side is zero.
    pub collateral_ratio: u64,
    /// Locked collateral balance.
    pub btc_1: u64,
    /// Outstanding loan principal.
    pub susd_1: u64,
    /// Spendable stablecoin balance.
    pub susd_2: u64,
    /// Secondary informational balance.
    pub susd_3: u64,
}

/// The collateral ratio in basis points: collateral value over loan value,
/// with the policy floor of 15000 substituted when either side is zero, and
/// saturation at the largest representable value.
pub open spec fn spec_collateral_ratio(exchange_rate: u64, btc_1: u64, susd_1: u64) -> u64 {
    if btc_1 == 0 || susd_1 == 0 {
        COLLATERAL_FLOOR_BPS
    } else {
        let q = (btc_1 * exchange_rate * 10000) / (susd_1 as int);
        if q > u64::MAX {
            u64::MAX
        } else {
            q as u64
        }
    }
}

impl CollateralizedAccount {
    /// Assembles a snapshot from the oracle rate (scaled by `RATE_SCALE`) and
    /// the four ledger balances.
    pub fn from_parts(rate_scaled: u64, btc_1: u64, susd_1: u64, susd_2: u64, susd_3: u64) -> (r:
        CollateralizedAccount)
        ensures
            r.exchange_rate == rate_scaled / RATE_SCALE,
            r.collateral_ratio == spec_collateral_ratio(rate_scaled / RATE_SCALE, btc_1, susd_1),
            r.btc_1 == btc_1,
            r.susd_1 == susd_1,
            r.susd_2 == susd_2,
            r.susd_3 == susd_3,
    {
        let exchange_rate: u64 = rate_scaled / RATE_SCALE;
        let collateral_ratio: u64 = if btc_1 == 0 || susd_1 == 0 {
            COLLATERAL_FLOOR_BPS
        } else {
            proof {
                vstd::arithmetic::div_mod::lemma_div_is_ordered(
                    rate_scaled as int,
                    u64::MAX as int,
                    RATE_SCALE as int,
                );
                assert((btc_1 as int) * (exchange_rate as int) * 10000 <= (u64::MAX as int) * (
                18446744073int) * 10000) by (nonlinear_arith)
                    requires
                        0 <= btc_1 <= u64::MAX,
                        0 <= exchange_rate <= 18446744073int,
                ;
            }
            let num: u128 = (btc_1 as u128) * (exchange_rate as u128) * 10000u128;
            let q: u128 = num / (susd_1 as u128);
            if q > (u64::MAX as u128) {
                u64::MAX
            } else {
                q as u64
            }
        };
        CollateralizedAccount {
            exchange_rate,
            collateral_ratio,
            btc_1,
            susd_1,
            susd_2,
            susd_3,
        }
    }
}

/// The loan minted against a deposit when the account is at or above the
/// collateralization floor: `deposit * rate / 15 * 10`.
pub open spec fn spec_loan_amount(deposit: u64, exchange_rate: u64) -> int {
    (deposit * exchange_rate) / 15 * 10
}

/// How many collateral units are still needed to bring the account back to
/// the collateralization floor: `3 * susd_1 / (2 * rate) - btc_1`, never
/// negative. When the rate is zero no deposit can restore the floor.
pub open spec fn spec_sats_needed(exchange_rate: u64, btc_1: u64, susd_1: u64) -> int {
    if exchange_rate == 0 {
        u64::MAX as int
    } else {
        let restore = (3 * susd_1) / (2 * exchange_rate);
        if restore > btc_1 {
            restore - btc_1
        } else {
            0
        }
    }
}

/// Computes the stablecoin loan minted against a deposit of `deposit`
/// satoshi under the snapshot's rate and ratio.
///
/// At or above the floor the loan is exactly `deposit * rate / 15 * 10`,
/// unless that amount cannot be represented, which is an internal error.
/// Below the floor, a deposit no larger than what restoring the floor
/// requires mints zero; a larger deposit would call for a partial-restoration
/// loan, which the policy does not define, so it is rejected rather than
/// minting an incorrect amount.
pub fn mintable_amount(deposit: u64, snapshot: &CollateralizedAccount) -> (r: Result<
    u64,
    UpdateBalanceError,
>)
    ensures
        match r {
            Ok(v) => {
                if snapshot.collateral_ratio >= COLLATERAL_FLOOR_BPS {
                    v == spec_loan_amount(deposit, snapshot.exchange_rate) && spec_loan_amount(
                        deposit,
                        snapshot.exchange_rate,
                    ) <= u64::MAX
                } else {
                    v == 0 && deposit <= spec_sats_needed(
                        snapshot.exchange_rate,
                        snapshot.btc_1,
                        snapshot.susd_1,
                    )
                }
            },
            Err(e) => {
                if snapshot.collateral_ratio >= COLLATERAL_FLOOR_BPS {
                    &&& spec_loan_amount(deposit, snapshot.exchange_rate) > u64::MAX
                    &&& e matches UpdateBalanceError::SystemError { method, reason } && method@
                        == "mintable_amount"@ && reason@
                        == "loan amount does not fit the ledger unit"@
                } else {
                    &&& deposit > spec_sats_needed(
                        snapshot.exchange_rate,
                        snapshot.btc_1,
                        snapshot.susd_1,
                    )
                    &&& e matches UpdateBalanceError::GenericError { error_code, error_message }
                        && error_code == ErrorCode::UnsupportedOperation.spec_code()
                        && error_message@
                        == "partial restoration of the collateral floor is not supported"@
                }
            },
        },
{
    if snapshot.collateral_ratio >= COLLATERAL_FLOOR_BPS {
        proof {
            assert((deposit as int) * (snapshot.exchange_rate as int) <= (u64::MAX as int) * (
            u64::MAX as int)) by (nonlinear_arith)
                requires
                    0 <= deposit <= u64::MAX,
                    0 <= snapshot.exchange_rate <= u64::MAX,
            ;
        }
        let product: u128 = (deposit as u128) * (snapshot.exchange_rate as u128);
        let loan: u128 = product / 15u128 * 10u128;
        if loan > (u64::MAX as u128) {
            return Err(
                UpdateBalanceError::SystemError {
                    method: String::from_str("mintable_amount"),
                    reason: String::from_str("loan amount does not fit the ledger unit"),
                },
            );
        }
        Ok(loan as u64)
    } else {
        let absorbed: bool = if snapshot.exchange_rate == 0 {
            true
        } else {
            let restore: u128 = (3u128 * (snapshot.susd_1 as u128)) / (2u128 * (
            snapshot.exchange_rate as u128));
            let needed: u128 = if restore > (snapshot.btc_1 as u128) {
                restore - (snapshot.btc_1 as u128)
            } else {
                0
            };
            (deposit as u128) <= needed
        };
        if absorbed {
            Ok(0)
        } else {
            Err(
                UpdateBalanceError::GenericError {
                    error_code: ErrorCode::UnsupportedOperation.code(),
                    error_message: String::from_str(
                        "partial restoration of the collateral floor is not supported",
                    ),
                },
            )
        }
    }
}

/// Law: collateral floor. At or above the floor the minted loan equals
/// `floor(deposit * rate * 2 / 3)`, the two-thirds rendering of the 150%
/// over-collateralization policy. The two renderings agree exactly when
/// `deposit * rate` leaves a remainder of at most 1 modulo 15; for other
/// remainders the implemented `deposit * rate / 15 * 10` is the policy.
pub proof fn lemma_collateral_floor(deposit: u64, exchange_rate: u64)
    requires
        (deposit * exchange_rate) % 15 <= 1,
    ensures
        spec_loan_amount(deposit, exchange_rate) == deposit * exchange_rate * 2 / 3,
{
    let x = (deposit * exchange_rate) as int;
    let q = x / 15;
    let s = x % 15;
    lemma_fundamental_div_mod(x, 15);
    assert(x * 2 == 3 * (10 * q) + 2 * s) by (nonlinear_arith)
        requires
            x == 15 * q + s,
    ;
    assert(0 <= s <= 1) by {
        vstd::arithmetic::div_mod::lemma_remainder_lower(x, 15);
    }
    lemma_div_multiples_vanish_fancy(10 * q, 2 * s, 3);
    assert(x * 2 / 3 == 10 * q);
    assert(deposit * exchange_rate * 2 == x * 2);
}

} // verus!
