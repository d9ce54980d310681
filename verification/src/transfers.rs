//! Plans for the single-transfer balance operations and the peer-to-peer
//! payment: stablecoin balance moves between derived sub-accounts, the
//! secondary-asset pending deposit, the runes-minter count, and payments with
//! an optional same-transaction swap leg.

use vstd::prelude::*;
use vstd::string::{StringExecFns, StringSliceAdditionalSpecFns};

use crate::bytes::{spec_dec_str, u64_to_dec};
use crate::deriver::{compute_subaccount, spec_subaccount};
use crate::errors::{CallError, ErrorCode, Reason, UpdateBalanceError};
use crate::orchestrator::{FailureMap, FailureMapV, TransferPlan, TransferStep, TransferStepV};
use crate::types::{Account, AccountV, SyronLedger};

verus! {

/// Payments below this stablecoin amount (in minor units) are rejected.
pub const MIN_PAYMENT_AMOUNT: u64 = 20_000_000;

/// Swap legs below this satoshi amount are rejected.
pub const MIN_SWAP_BTC: u64 = 200;

/// The minter-owned account under the sub-account derived from `nonce` and
/// `ssi`, or the minter's default account when `nonce` is `None`.
pub open spec fn spec_nonce_account(minter: Seq<u8>, ssi: Seq<u8>, nonce: Option<u64>) -> AccountV {
    AccountV {
        owner: minter,
        subaccount: match nonce {
            Some(n) => Some(spec_subaccount(minter, n, ssi)),
            None => None,
        },
    }
}

/// Builds the minter-owned account for a derivation nonce, or the minter's
/// default account.
pub fn nonce_account(minter: &Vec<u8>, ssi: &str, nonce: Option<u64>) -> (a: Account)
    ensures
        a@ == spec_nonce_account(minter@, ssi.spec_bytes(), nonce),
{
    match nonce {
        Some(n) => Account {
            owner: minter.clone(),
            subaccount: Some(compute_subaccount(minter, n, ssi)),
        },
        None => Account { owner: minter.clone(), subaccount: None },
    }
}

/// The single step moving a stablecoin balance between two derived
/// sub-accounts (or to the minter's default account, which burns it).
pub open spec fn spec_syron_update_step(
    minter: Seq<u8>,
    ssi: Seq<u8>,
    from: u64,
    to: Option<u64>,
    amt: u64,
) -> TransferStepV {
    TransferStepV {
        ledger: SyronLedger::SYRON,
        from_subaccount: Some(spec_subaccount(minter, from, ssi)),
        to: spec_nonce_account(minter, ssi, to),
        amount: amt,
        on_fail: (FailureMapV::Generic {
            prefix: "@syron_update: Cannot update syron balance to subaccount with nonce ("@
                + (match to {
                Some(t) => spec_dec_str(t as int),
                None => "None"@,
            }) + ") due to message: "@,
        }),
        method: "syron_update"@,
    }
}

/// Plans the move of `amt` stablecoin minor units from the sub-account with
/// nonce `from` to the one with nonce `to`, or to the minter's default
/// account (burning) when `to` is `None`.
pub fn syron_update_plan(minter: &Vec<u8>, ssi: &str, from: u64, to: Option<u64>, amt: u64) -> (r:
    TransferPlan)
    ensures
        r.wf(),
        r.spec_next() == 0,
        r.spec_receipts() == Seq::<u64>::empty(),
        r.step_views() == seq![spec_syron_update_step(minter@, ssi.spec_bytes(), from, to, amt)],
{
    let nonce_text: String = match to {
        Some(t) => u64_to_dec(t),
        None => String::from_str("None"),
    };
    let prefix = String::from_str(
        "@syron_update: Cannot update syron balance to subaccount with nonce (",
    ).concat(nonce_text.as_str()).concat(") due to message: ");
    let mut steps: Vec<TransferStep> = Vec::new();
    steps.push(
        TransferStep {
            ledger: SyronLedger::SYRON,
            from_subaccount: Some(compute_subaccount(minter, from, ssi)),
            to: nonce_account(minter, ssi, to),
            amount: amt,
            on_fail: FailureMap::Generic { prefix },
            method: String::from_str("syron_update"),
        },
    );
    let plan = TransferPlan::new(steps);
    proof {
        assert(plan.step_views() =~= seq![
            spec_syron_update_step(minter@, ssi.spec_bytes(), from, to, amt),
        ]);
    }
    plan
}

/// The single step moving a collateral-ledger balance between two derived
/// sub-accounts (or to the minter's default account).
pub open spec fn spec_btc_bal_update_step(
    minter: Seq<u8>,
    ssi: Seq<u8>,
    from: u64,
    to: Option<u64>,
    amt: u64,
) -> TransferStepV {
    TransferStepV {
        ledger: SyronLedger::BTC,
        from_subaccount: Some(spec_subaccount(minter, from, ssi)),
        to: spec_nonce_account(minter, ssi, to),
        amount: amt,
        on_fail: (FailureMapV::Generic { prefix: "cannot update SBTC balance: "@ }),
        method: "btc_bal_update"@,
    }
}

/// Plans the move of `amt` collateral-ledger minor units between derived
/// sub-accounts of the minter.
pub fn btc_bal_update_plan(minter: &Vec<u8>, ssi: &str, from: u64, to: Option<u64>, amt: u64) -> (r:
    TransferPlan)
    ensures
        r.wf(),
        r.spec_next() == 0,
        r.spec_receipts() == Seq::<u64>::empty(),
        r.step_views() == seq![spec_btc_bal_update_step(minter@, ssi.spec_bytes(), from, to, amt)],
{
    let mut steps: Vec<TransferStep> = Vec::new();
    steps.push(
        TransferStep {
            ledger: SyronLedger::BTC,
            from_subaccount: Some(compute_subaccount(minter, from, ssi)),
            to: nonce_account(minter, ssi, to),
            amount: amt,
            on_fail: FailureMap::Generic {
                prefix: String::from_str("cannot update SBTC balance: "),
            },
            method: String::from_str("btc_bal_update"),
        },
    );
    let plan = TransferPlan::new(steps);
    proof {
        assert(plan.step_views() =~= seq![
            spec_btc_bal_update_step(minter@, ssi.spec_bytes(), from, to, amt),
        ]);
    }
    plan
}

/// The derivation nonce of the pending secondary-asset deposit sub-account.
pub const RUNES_PENDING_NONCE: u64 = 5;

/// The single step crediting (or, on revert, debiting) the pending
/// secondary-asset deposit sub-account.
pub open spec fn spec_runes_deposit_step(
    minter: Seq<u8>,
    ssi: Seq<u8>,
    amt: u64,
    revert: bool,
) -> TransferStepV {
    let pending = spec_subaccount(minter, RUNES_PENDING_NONCE, ssi);
    if revert {
        TransferStepV {
            ledger: SyronLedger::SYRON,
            from_subaccount: Some(pending),
            to: (AccountV { owner: minter, subaccount: None }),
            amount: amt,
            on_fail: (FailureMapV::Generic {
                prefix: "@syron_runes_deposit: Could not revert syron runes deposit balance: "@,
            }),
            method: "syron_runes_deposit"@,
        }
    } else {
        TransferStepV {
            ledger: SyronLedger::SYRON,
            from_subaccount: None,
            to: (AccountV { owner: minter, subaccount: Some(pending) }),
            amount: amt,
            on_fail: (FailureMapV::Generic {
                prefix: "@syron_runes_deposit: Could not update syron runes deposit balance: "@,
            }),
            method: "syron_runes_deposit"@,
        }
    }
}

/// Plans a pending secondary-asset deposit credit, or its explicit revert.
/// A zero amount is rejected.
pub fn syron_runes_deposit_plan(minter: &Vec<u8>, ssi: &str, amt: u64, revert: bool) -> (r: Result<
    TransferPlan,
    UpdateBalanceError,
>)
    ensures
        match r {
            Ok(plan) => {
                &&& amt != 0
                &&& plan.wf()
                &&& plan.spec_next() == 0
                &&& plan.spec_receipts() == Seq::<u64>::empty()
                &&& plan.step_views() == seq![
                    spec_runes_deposit_step(minter@, ssi.spec_bytes(), amt, revert),
                ]
            },
            Err(e) => {
                &&& amt == 0
                &&& e matches UpdateBalanceError::CallError { method, reason } && method@
                    == "syron_runes_deposit"@ && reason@ == "Amount cannot be zero"@
            },
        },
{
    if amt == 0 {
        return Err(
            UpdateBalanceError::CallError {
                method: String::from_str("syron_runes_deposit"),
                reason: String::from_str("Amount cannot be zero"),
            },
        );
    }
    let pending = compute_subaccount(minter, RUNES_PENDING_NONCE, ssi);
    let mut steps: Vec<TransferStep> = Vec::new();
    if revert {
        steps.push(
            TransferStep {
                ledger: SyronLedger::SYRON,
                from_subaccount: Some(pending),
                to: Account { owner: minter.clone(), subaccount: None },
                amount: amt,
                on_fail: FailureMap::Generic {
                    prefix: String::from_str(
                        "@syron_runes_deposit: Could not revert syron runes deposit balance: ",
                    ),
                },
                method: String::from_str("syron_runes_deposit"),
            },
        );
    } else {
        steps.push(
            TransferStep {
                ledger: SyronLedger::SYRON,
                from_subaccount: None,
                to: Account { owner: minter.clone(), subaccount: Some(pending) },
                amount: amt,
                on_fail: FailureMap::Generic {
                    prefix: String::from_str(
                        "@syron_runes_deposit: Could not update syron runes deposit balance: ",
                    ),
                },
                method: String::from_str("syron_runes_deposit"),
            },
        );
    }
    let plan = TransferPlan::new(steps);
    proof {
        assert(plan.step_views() =~= seq![
            spec_runes_deposit_step(minter@, ssi.spec_bytes(), amt, revert),
        ]);
    }
    Ok(plan)
}

/// The single step counting a runes-minter UTXO value onto an accounting
/// account of the minter.
pub open spec fn spec_count_runes_step(runes: u64, to: AccountV) -> TransferStepV {
    TransferStepV {
        ledger: SyronLedger::BTC,
        from_subaccount: None,
        to,
        amount: runes,
        on_fail: (FailureMapV::Unavailable {
            prefix: "@count_runes_minter: Cannot add runes balance: "@,
            mid: " (reject_code = "@,
        }),
        method: "count_runes_minter"@,
    }
}

/// Plans the count of `runes` units onto `to`.
pub fn count_runes_minter_plan(runes: u64, to: &Account) -> (r: TransferPlan)
    ensures
        r.wf(),
        r.spec_next() == 0,
        r.spec_receipts() == Seq::<u64>::empty(),
        r.step_views() == seq![spec_count_runes_step(runes, to@)],
{
    let mut steps: Vec<TransferStep> = Vec::new();
    steps.push(
        TransferStep {
            ledger: SyronLedger::BTC,
            from_subaccount: None,
            to: to.duplicate(),
            amount: runes,
            on_fail: FailureMap::Unavailable {
                prefix: String::from_str("@count_runes_minter: Cannot add runes balance: "),
                mid: String::from_str(" (reject_code = "),
            },
            method: String::from_str("count_runes_minter"),
        },
    );
    let plan = TransferPlan::new(steps);
    proof {
        assert(plan.step_views() =~= seq![spec_count_runes_step(runes, to@)]);
    }
    plan
}

/// Validates a payment amount against the floor. The payment entry points
/// perform this check before any collaborator call — in particular before
/// resolving the sender's identity — so a hopeless request costs no external
/// round trip. `entry` names the rejecting entry point in the error message
/// and is `"@syron_payment"` or `"@syron_payment_icp"`.
pub fn check_payment_amount(entry: &str, amt: u64) -> (r: Result<(), UpdateBalanceError>)
    ensures
        match r {
            Ok(()) => amt >= MIN_PAYMENT_AMOUNT,
            Err(e) => {
                &&& amt < MIN_PAYMENT_AMOUNT
                &&& e matches UpdateBalanceError::GenericError { error_code, error_message }
                    && error_code == ErrorCode::InsufficientAmount.spec_code() && error_message@
                    == entry@ + ": Syron amount ("@ + spec_dec_str(amt as int)
                    + ") is below the minimum"@
            },
        },
{
    if amt < MIN_PAYMENT_AMOUNT {
        return Err(
            UpdateBalanceError::GenericError {
                error_code: ErrorCode::InsufficientAmount.code(),
                error_message: String::from_str(entry).concat(": Syron amount (").concat(
                    u64_to_dec(amt).as_str(),
                ).concat(") is below the minimum"),
            },
        );
    }
    Ok(())
}

/// The swap output for a payment: stablecoin amount divided by the exchange
/// rate, or zero when the rate is zero (no meaningful output exists).
pub open spec fn spec_swap_output(amt: u64, exchange_rate: u64) -> u64 {
    if exchange_rate == 0 {
        0u64
    } else {
        (amt / exchange_rate) as u64
    }
}

/// The transfer steps of a peer-to-peer payment: the optional swap credit
/// first, then the stablecoin move between the spendable sub-accounts of
/// sender and recipient.
pub open spec fn spec_payment_steps(
    minter: Seq<u8>,
    ssi: Seq<u8>,
    recipient: Seq<u8>,
    amt: u64,
    swap_amount: Option<u64>,
) -> Seq<TransferStepV> {
    let susd_step = (TransferStepV {
        ledger: SyronLedger::SYRON,
        from_subaccount: Some(spec_subaccount(minter, 2, ssi)),
        to: (AccountV { owner: minter, subaccount: Some(spec_subaccount(minter, 2, recipient)) }),
        amount: amt,
        on_fail: (FailureMapV::Generic {
            prefix: "@syron_payment: Could not update the Syron transfer balance: "@,
        }),
        method: "syron_payment"@,
    });
    match swap_amount {
        Some(sats) => seq![
            (TransferStepV {
                ledger: SyronLedger::BTC,
                from_subaccount: None,
                to: (AccountV {
                    owner: minter,
                    subaccount: Some(spec_subaccount(minter, 0, ssi)),
                }),
                amount: sats,
                on_fail: (FailureMapV::Generic {
                    prefix: "@syron_payment: Could not update BTC swap credit: "@,
                }),
                method: "syron_payment"@,
            }),
            susd_step,
        ],
        None => seq![susd_step],
    }
}

/// Plans a peer-to-peer payment of `amt` stablecoin minor units from the
/// sender identity to the recipient identity, with an optional swap leg.
///
/// The payment is rejected below `MIN_PAYMENT_AMOUNT`. When a swap is
/// requested (`btc` is the caller's minimum acceptable satoshi output),
/// requests below `MIN_SWAP_BTC` are rejected, and the computed output
/// `amt / rate` must reach that minimum or the whole operation fails before
/// any transfer is issued.
pub fn syron_payment_plan(
    minter: &Vec<u8>,
    ssi: &str,
    recipient: &str,
    amt: u64,
    btc: Option<u64>,
    rate_scaled: Option<u64>,
) -> (r: Result<TransferPlan, UpdateBalanceError>)
    requires
        btc is Some ==> rate_scaled is Some,
    ensures
        match r {
            Ok(plan) => {
                &&& amt >= MIN_PAYMENT_AMOUNT
                &&& plan.wf()
                &&& plan.spec_next() == 0
                &&& plan.spec_receipts() == Seq::<u64>::empty()
                &&& match btc {
                    Some(minimum) => {
                        let er = (rate_scaled->Some_0 / crate::collateral::RATE_SCALE) as u64;
                        let sats = spec_swap_output(amt, er);
                        &&& minimum >= MIN_SWAP_BTC
                        &&& sats >= minimum
                        &&& plan.step_views() == spec_payment_steps(
                            minter@,
                            ssi.spec_bytes(),
                            recipient.spec_bytes(),
                            amt,
                            Some(sats),
                        )
                    },
                    None => plan.step_views() == spec_payment_steps(
                        minter@,
                        ssi.spec_bytes(),
                        recipient.spec_bytes(),
                        amt,
                        None,
                    ),
                }
            },
            Err(e) => {
                &&& e matches UpdateBalanceError::GenericError { error_code, .. } && error_code
                    == ErrorCode::InsufficientAmount.spec_code()
                &&& (amt < MIN_PAYMENT_AMOUNT || (btc matches Some(minimum) && (minimum
                    < MIN_SWAP_BTC || spec_swap_output(
                    amt,
                    (rate_scaled->Some_0 / crate::collateral::RATE_SCALE) as u64,
                ) < minimum)))
            },
        },
{
    if amt < MIN_PAYMENT_AMOUNT {
        return Err(
            UpdateBalanceError::GenericError {
                error_code: ErrorCode::InsufficientAmount.code(),
                error_message: String::from_str("@syron_payment: Syron amount (").concat(
                    u64_to_dec(amt).as_str(),
                ).concat(") is below the minimum"),
            },
        );
    }
    let mut swap_amount: Option<u64> = None;
    match btc {
        Some(minimum) => {
            if minimum < MIN_SWAP_BTC {
                return Err(
                    UpdateBalanceError::GenericError {
                        error_code: ErrorCode::InsufficientAmount.code(),
                        error_message: String::from_str("@syron_payment: BTC amount (").concat(
                            u64_to_dec(minimum).as_str(),
                        ).concat(") is below the minimum"),
                    },
                );
            }
            let rate: u64 = match rate_scaled {
                Some(v) => v,
                None => 0,
            };
            let exchange_rate: u64 = rate / crate::collateral::RATE_SCALE;
            let bitcoin_amount: u64 = if exchange_rate == 0 {
                0
            } else {
                amt / exchange_rate
            };
            if bitcoin_amount < minimum {
                return Err(
                    UpdateBalanceError::GenericError {
                        error_code: ErrorCode::InsufficientAmount.code(),
                        error_message: String::from_str(
                            "@syron_payment: Insufficient BTC amount. Computed amount: ",
                        ).concat(u64_to_dec(bitcoin_amount).as_str()).concat(
                            " sats, Minimum Required: ",
                        ).concat(u64_to_dec(minimum).as_str()).concat(
                            " sats, Exchange Rate: ",
                        ).concat(u64_to_dec(exchange_rate).as_str()),
                    },
                );
            }
            swap_amount = Some(bitcoin_amount);
        },
        None => {},
    }
    let mut steps: Vec<TransferStep> = Vec::new();
    match swap_amount {
        Some(sats) => {
            steps.push(
                TransferStep {
                    ledger: SyronLedger::BTC,
                    from_subaccount: None,
                    to: Account {
                        owner: minter.clone(),
                        subaccount: Some(compute_subaccount(minter, 0, ssi)),
                    },
                    amount: sats,
                    on_fail: FailureMap::Generic {
                        prefix: String::from_str(
                            "@syron_payment: Could not update BTC swap credit: ",
                        ),
                    },
                    method: String::from_str("syron_payment"),
                },
            );
        },
        None => {},
    }
    steps.push(
        TransferStep {
            ledger: SyronLedger::SYRON,
            from_subaccount: Some(compute_subaccount(minter, 2, ssi)),
            to: Account {
                owner: minter.clone(),
                subaccount: Some(compute_subaccount(minter, 2, recipient)),
            },
            amount: amt,
            on_fail: FailureMap::Generic {
                prefix: String::from_str(
                    "@syron_payment: Could not update the Syron transfer balance: ",
                ),
            },
            method: String::from_str("syron_payment"),
        },
    );
    let plan = TransferPlan::new(steps);
    proof {
        match btc {
            Some(minimum) => {
                let er = (rate_scaled->Some_0 / crate::collateral::RATE_SCALE) as u64;
                assert(plan.step_views() =~= spec_payment_steps(
                    minter@,
                    ssi.spec_bytes(),
                    recipient.spec_bytes(),
                    amt,
                    Some(spec_swap_output(amt, er)),
                ));
            },
            None => {
                assert(plan.step_views() =~= spec_payment_steps(
                    minter@,
                    ssi.spec_bytes(),
                    recipient.spec_bytes(),
                    amt,
                    None,
                ));
            },
        }
    }
    Ok(plan)
}

/// The single step of a payment to an arbitrary ledger account.
pub open spec fn spec_payment_icp_step(
    minter: Seq<u8>,
    ssi: Seq<u8>,
    receiver: AccountV,
    amt: u64,
) -> TransferStepV {
    TransferStepV {
        ledger: SyronLedger::SYRON,
        from_subaccount: Some(spec_subaccount(minter, 2, ssi)),
        to: receiver,
        amount: amt,
        on_fail: (FailureMapV::Generic {
            prefix: "@syron_payment_icp: Could not update the Syron transfer balance: "@,
        }),
        method: "syron_payment_icp"@,
    }
}

/// Plans a payment of `amt` stablecoin minor units from the sender identity
/// to an arbitrary ledger account. Rejected below `MIN_PAYMENT_AMOUNT`.
pub fn syron_payment_icp_plan(minter: &Vec<u8>, ssi: &str, receiver: &Account, amt: u64) -> (r:
    Result<TransferPlan, UpdateBalanceError>)
    ensures
        match r {
            Ok(plan) => {
                &&& amt >= MIN_PAYMENT_AMOUNT
                &&& plan.wf()
                &&& plan.spec_next() == 0
                &&& plan.spec_receipts() == Seq::<u64>::empty()
                &&& plan.step_views() == seq![
                    spec_payment_icp_step(minter@, ssi.spec_bytes(), receiver@, amt),
                ]
            },
            Err(e) => {
                &&& amt < MIN_PAYMENT_AMOUNT
                &&& e matches UpdateBalanceError::GenericError { error_code, .. } && error_code
                    == ErrorCode::InsufficientAmount.spec_code()
            },
        },
{
    if amt < MIN_PAYMENT_AMOUNT {
        return Err(
            UpdateBalanceError::GenericError {
                error_code: ErrorCode::InsufficientAmount.code(),
                error_message: String::from_str("@syron_payment_icp: Syron amount (").concat(
                    u64_to_dec(amt).as_str(),
                ).concat(") is below the minimum"),
            },
        );
    }
    let mut steps: Vec<TransferStep> = Vec::new();
    steps.push(
        TransferStep {
            ledger: SyronLedger::SYRON,
            from_subaccount: Some(compute_subaccount(minter, 2, ssi)),
            to: receiver.duplicate(),
            amount: amt,
            on_fail: FailureMap::Generic {
                prefix: String::from_str(
                    "@syron_payment_icp: Could not update the Syron transfer balance: ",
                ),
            },
            method: String::from_str("syron_payment_icp"),
        },
    );
    let plan = TransferPlan::new(steps);
    proof {
        assert(plan.step_views() =~= seq![
            spec_payment_icp_step(minter@, ssi.spec_bytes(), receiver@, amt),
        ]);
    }
    Ok(plan)
}

/// Plans the settlement of a pending secondary-asset deposit: the whole
/// pending balance (nonce `RUNES_PENDING_NONCE`) moves to the spendable
/// sub-account (nonce 2). A zero pending balance is rejected.
pub fn deposit_syron_plan(minter: &Vec<u8>, ssi: &str, current_runes_deposit: u64) -> (r: Result<
    TransferPlan,
    UpdateBalanceError,
>)
    ensures
        match r {
            Ok(plan) => {
                &&& current_runes_deposit != 0
                &&& plan.wf()
                &&& plan.spec_next() == 0
                &&& plan.step_views() == seq![
                    spec_syron_update_step(
                        minter@,
                        ssi.spec_bytes(),
                        RUNES_PENDING_NONCE,
                        Some(2),
                        current_runes_deposit,
                    ),
                ]
            },
            Err(e) => {
                &&& current_runes_deposit == 0
                &&& e matches UpdateBalanceError::GenericError { error_code, error_message }
                    && error_code == ErrorCode::InsufficientAmount.spec_code() && error_message@
                    == "@update_ssi_balance: No runes deposit balance available"@
            },
        },
{
    if current_runes_deposit == 0 {
        return Err(
            UpdateBalanceError::GenericError {
                error_code: ErrorCode::InsufficientAmount.code(),
                error_message: String::from_str(
                    "@update_ssi_balance: No runes deposit balance available",
                ),
            },
        );
    }
    Ok(syron_update_plan(minter, ssi, RUNES_PENDING_NONCE, Some(2), current_runes_deposit))
}

/// Rejects the operations the balance-update path does not serve: liquidation
/// and payment requests are invalid here and fail before any external call.
pub fn operation_rejection(op: &crate::types::SyronOperation) -> (r: Option<UpdateBalanceError>)
    ensures
        match *op {
            crate::types::SyronOperation::Liquidation => r matches Some(e) && (e matches
                UpdateBalanceError::GenericError { error_code, error_message } && error_code
                == ErrorCode::UnsupportedOperation.spec_code() && error_message@
                == "@update_ssi_balance: Invalid liquidation operation"@),
            crate::types::SyronOperation::Payment => r matches Some(e) && (e matches
                UpdateBalanceError::GenericError { error_code, error_message } && error_code
                == ErrorCode::UnsupportedOperation.spec_code() && error_message@
                == "@update_ssi_balance: Invalid payment operation"@),
            _ => r is None,
        },
{
    match op {
        crate::types::SyronOperation::Liquidation => Some(
            UpdateBalanceError::GenericError {
                error_code: ErrorCode::UnsupportedOperation.code(),
                error_message: String::from_str(
                    "@update_ssi_balance: Invalid liquidation operation",
                ),
            },
        ),
        crate::types::SyronOperation::Payment => Some(
            UpdateBalanceError::GenericError {
                error_code: ErrorCode::UnsupportedOperation.code(),
                error_message: String::from_str("@update_ssi_balance: Invalid payment operation"),
            },
        ),
        _ => None,
    }
}

/// Authorizes a payment: the identity resolved for the sender's address must
/// be the calling identity, or the request is rejected. `resolved` carries
/// the principal bytes the identity-linking collaborator returned, or the
/// rendered failure of that call.
pub fn validate_siwb_principal(resolved: Result<Vec<u8>, String>, caller: &Vec<u8>) -> (r: Result<
    Vec<u8>,
    CallError,
>)
    ensures
        match r {
            Ok(p) => resolved matches Ok(q) && q@ == p@ && p@ == caller@,
            Err(e) => {
                &&& e.spec_method() == "get_principal"@
                &&& match resolved {
                    Ok(q) => {
                        &&& q@ != caller@
                        &&& e.spec_reason() matches Reason::Other(m) && m@ == "Invalid caller"@
                    },
                    Err(t) => e.spec_reason() matches Reason::Other(m) && m@ == t@,
                }
            },
        },
{
    match resolved {
        Ok(principal) => {
            let same = principal == *caller;
            proof {
                if same {
                    assert(principal@ =~= caller@);
                } else if principal@ == caller@ {
                    assert(principal@ =~= caller@);
                }
            }
            if same {
                Ok(principal)
            } else {
                Err(
                    CallError::new(
                        String::from_str("get_principal"),
                        Reason::Other(String::from_str("Invalid caller")),
                    ),
                )
            }
        },
        Err(text) => Err(
            CallError::new(String::from_str("get_principal"), Reason::Other(text)),
        ),
    }
}

} // verus!
