use syron_minter::deriver::compute_subaccount;
use syron_minter::errors::{CallError, Reason, UpdateBalanceError};
use syron_minter::types::RejectCode;
use syron_minter::management::classify_block_index;
use syron_minter::orchestrator::{
    mint_plan, redeem_plan, PlanProgress, TransferOutcome, TransferPlan, TransferStep,
};
use syron_minter::collateral::CollateralizedAccount;
use syron_minter::transfers::{
    btc_bal_update_plan, check_payment_amount, count_runes_minter_plan, syron_payment_icp_plan,
    syron_payment_plan, syron_runes_deposit_plan, syron_update_plan, validate_siwb_principal,
};
use syron_minter::types::{Account, SyronLedger};

const RATE_SCALE: u64 = 1_000_000_000;

fn minter_id() -> Vec<u8> {
    vec![4, 5, 6]
}

fn account(owner: &[u8], sub: Option<Vec<u8>>) -> Account {
    Account { owner: owner.to_vec(), subaccount: sub }
}

fn settle(plan: &mut TransferPlan, receipts: &[u64]) -> Vec<TransferStep> {
    let mut steps = Vec::new();
    for r in receipts {
        steps.push(plan.next_transfer().expect("a step is pending").clone());
        match plan.on_outcome(TransferOutcome::Accepted(Some(*r))) {
            PlanProgress::Continue | PlanProgress::Done => {}
            PlanProgress::Failed(e) => panic!("unexpected failure: {:?}", e),
        }
    }
    steps
}

#[test]
fn redeem_requires_locked_collateral() {
    let sub = vec![7u8; 32];
    let minter = account(&minter_id(), None);
    match redeem_plan(0, 5, &sub, &minter) {
        Err(UpdateBalanceError::GenericError { error_code, error_message }) => {
            assert_eq!(error_code, 2);
            assert_eq!(error_message, "@update_ssi_balance: Invalid balance to redeem BTC");
        }
        Err(other) => panic!("unexpected error: {:?}", other),
        Ok(_) => panic!("redeem with no collateral must not be planned"),
    }
}

#[test]
fn redeem_without_loan_has_single_leg() {
    let sub = vec![7u8; 32];
    let minter = account(&minter_id(), None);
    let mut plan = redeem_plan(9_000, 0, &sub, &minter).expect("valid redemption");
    let steps = settle(&mut plan, &[1]);
    assert_eq!(steps.len(), 1);
    assert_eq!(steps[0].ledger, SyronLedger::BTC);
    assert_eq!(steps[0].amount, 9_000);
    assert_eq!(steps[0].from_subaccount, Some(sub.clone()));
    assert!(plan.next_transfer().is_none());
    assert_eq!(plan.into_receipts(), vec![1]);
}

#[test]
fn redeem_with_loan_repays_after_collateral() {
    let sub = vec![7u8; 32];
    let minter = account(&minter_id(), None);
    let mut plan = redeem_plan(9_000, 5_000, &sub, &minter).expect("valid redemption");
    let steps = settle(&mut plan, &[1, 2]);
    assert_eq!(steps.len(), 2);
    assert_eq!(steps[0].ledger, SyronLedger::BTC);
    assert_eq!(steps[1].ledger, SyronLedger::SYRON);
    assert_eq!(steps[1].amount, 5_000);
    assert_eq!(plan.into_receipts(), vec![1, 2]);
}

#[test]
fn redeem_failure_is_temporarily_unavailable() {
    let sub = vec![7u8; 32];
    let minter = account(&minter_id(), None);
    let mut plan = redeem_plan(9_000, 0, &sub, &minter).expect("valid redemption");
    plan.next_transfer().expect("pending");
    match plan.on_outcome(TransferOutcome::Rejected { code: 2, message: "queue".into() }) {
        PlanProgress::Failed(UpdateBalanceError::TemporarilyUnavailable(m)) => {
            assert_eq!(
                m,
                "update_ssi_balance: Cannot redeem bitcoin: queue (reject_code = 2)"
            );
        }
        other => panic!("expected a transient failure, got {:?}", other),
    }
}

#[test]
fn ledger_refusal_maps_to_the_shared_generic_error() {
    let s = CollateralizedAccount::from_parts(60_000 * RATE_SCALE, 0, 0, 0, 0);
    let box_account = account(&minter_id(), Some(vec![1; 32]));
    let balance_account = account(&minter_id(), Some(vec![2; 32]));
    let mut plan =
        mint_plan(100_000, &s, &box_account, &balance_account).expect("plan under the floor");
    match plan.on_outcome(TransferOutcome::Refused("InsufficientFunds".into())) {
        PlanProgress::Failed(UpdateBalanceError::GenericError { error_code, error_message }) => {
            assert_eq!(error_code, 1);
            assert_eq!(
                error_message,
                "failed to mint tokens on the ledger: InsufficientFunds"
            );
        }
        other => panic!("expected the ledger refusal mapping, got {:?}", other),
    }
}

#[test]
fn unrepresentable_receipt_is_a_system_error() {
    let s = CollateralizedAccount::from_parts(60_000 * RATE_SCALE, 0, 0, 0, 0);
    let box_account = account(&minter_id(), Some(vec![1; 32]));
    let balance_account = account(&minter_id(), Some(vec![2; 32]));
    let mut plan = mint_plan(100_000, &s, &box_account, &balance_account).expect("plan");
    match plan.on_outcome(TransferOutcome::Accepted(None)) {
        PlanProgress::Failed(UpdateBalanceError::SystemError { method, reason }) => {
            assert_eq!(method, "mint");
            assert_eq!(reason, "Block index too large for u64");
        }
        other => panic!("expected a system error, got {:?}", other),
    }
}

#[test]
fn syron_update_moves_between_derived_subaccounts() {
    let minter = minter_id();
    let mut plan = syron_update_plan(&minter, "tb1qid", 5, Some(2), 77);
    let step = plan.next_transfer().expect("one step").clone();
    assert_eq!(step.ledger, SyronLedger::SYRON);
    assert_eq!(step.amount, 77);
    assert_eq!(step.from_subaccount, Some(compute_subaccount(&minter, 5, "tb1qid")));
    assert_eq!(step.to.owner, minter);
    assert_eq!(step.to.subaccount, Some(compute_subaccount(&minter, 2, "tb1qid")));
    match plan.on_outcome(TransferOutcome::Rejected { code: 4, message: "no".into() }) {
        PlanProgress::Failed(UpdateBalanceError::GenericError { error_code, error_message }) => {
            assert_eq!(error_code, 4);
            assert_eq!(
                error_message,
                "@syron_update: Cannot update syron balance to subaccount with nonce (2) due to message: no"
            );
        }
        other => panic!("expected the generic mapping, got {:?}", other),
    }
}

#[test]
fn syron_update_burns_toward_default_account() {
    let minter = minter_id();
    let mut plan = syron_update_plan(&minter, "tb1qid", 5, None, 77);
    let step = plan.next_transfer().expect("one step");
    assert_eq!(step.to.subaccount, None);
    assert_eq!(step.to.owner, minter);
    assert!(matches!(
        plan.on_outcome(TransferOutcome::Accepted(Some(8))),
        PlanProgress::Done
    ));
}

#[test]
fn btc_bal_update_uses_collateral_ledger() {
    let minter = minter_id();
    let mut plan = btc_bal_update_plan(&minter, "tb1qid", 1, Some(3), 55);
    let step = plan.next_transfer().expect("one step");
    assert_eq!(step.ledger, SyronLedger::BTC);
    assert_eq!(step.amount, 55);
    match plan.on_outcome(TransferOutcome::Rejected { code: 1, message: "down".into() }) {
        PlanProgress::Failed(UpdateBalanceError::GenericError { error_message, .. }) => {
            assert_eq!(error_message, "cannot update SBTC balance: down");
        }
        other => panic!("expected the generic mapping, got {:?}", other),
    }
}

#[test]
fn runes_deposit_rejects_zero_and_routes_both_directions() {
    let minter = minter_id();
    match syron_runes_deposit_plan(&minter, "tb1qid", 0, false) {
        Err(UpdateBalanceError::CallError { method, reason }) => {
            assert_eq!(method, "syron_runes_deposit");
            assert_eq!(reason, "Amount cannot be zero");
        }
        Err(other) => panic!("unexpected error: {:?}", other),
        Ok(_) => panic!("a zero deposit must not be planned"),
    }
    let pending = compute_subaccount(&minter, 5, "tb1qid");
    let mut credit = syron_runes_deposit_plan(&minter, "tb1qid", 10, false).expect("credit");
    let step = credit.next_transfer().expect("one step");
    assert_eq!(step.from_subaccount, None);
    assert_eq!(step.to.subaccount, Some(pending.clone()));
    let mut revert = syron_runes_deposit_plan(&minter, "tb1qid", 10, true).expect("revert");
    let step = revert.next_transfer().expect("one step");
    assert_eq!(step.from_subaccount, Some(pending));
    assert_eq!(step.to.subaccount, None);
}

#[test]
fn count_runes_minter_maps_failures_transiently() {
    let to = account(&minter_id(), Some(vec![9; 32]));
    let mut plan = count_runes_minter_plan(1_234, &to);
    let step = plan.next_transfer().expect("one step");
    assert_eq!(step.amount, 1_234);
    assert_eq!(step.ledger, SyronLedger::BTC);
    match plan.on_outcome(TransferOutcome::Rejected { code: 3, message: "later".into() }) {
        PlanProgress::Failed(UpdateBalanceError::TemporarilyUnavailable(m)) => {
            assert_eq!(
                m,
                "@count_runes_minter: Cannot add runes balance: later (reject_code = 3)"
            );
        }
        other => panic!("expected a transient failure, got {:?}", other),
    }
}

#[test]
fn payment_enforces_the_minimum_amount() {
    let minter = minter_id();
    match syron_payment_plan(&minter, "tb1qsender", "tb1qreceiver", 19_999_999, None, None) {
        Err(UpdateBalanceError::GenericError { error_code, error_message }) => {
            assert_eq!(error_code, 3);
            assert_eq!(
                error_message,
                "@syron_payment: Syron amount (19999999) is below the minimum"
            );
        }
        Err(other) => panic!("expected the minimum-amount rejection, got {:?}", other),
        Ok(_) => panic!("a payment below the minimum must not be planned"),
    }
}

#[test]
fn payment_precheck_matches_the_plan_rejection() {
    // The amount precheck runs before any collaborator call and must reject
    // with exactly the error the full plan would produce.
    assert!(check_payment_amount("@syron_payment", 20_000_000).is_ok());
    let minter = minter_id();
    let pre = check_payment_amount("@syron_payment", 19_999_999).unwrap_err();
    let planned = match syron_payment_plan(&minter, "tb1qs", "tb1qr", 19_999_999, None, None) {
        Err(e) => e,
        Ok(_) => panic!("a payment below the minimum must not be planned"),
    };
    assert_eq!(pre, planned);
    match check_payment_amount("@syron_payment_icp", 1).unwrap_err() {
        UpdateBalanceError::GenericError { error_code, error_message } => {
            assert_eq!(error_code, 3);
            assert_eq!(
                error_message,
                "@syron_payment_icp: Syron amount (1) is below the minimum"
            );
        }
        other => panic!("expected the minimum rejection, got {:?}", other),
    }
}

#[test]
fn payment_without_swap_is_one_stablecoin_move() {
    let minter = minter_id();
    let mut plan = syron_payment_plan(&minter, "tb1qsender", "tb1qreceiver", 30_000_000, None, None)
        .expect("payment");
    let steps = settle(&mut plan, &[5]);
    assert_eq!(steps.len(), 1);
    assert_eq!(steps[0].ledger, SyronLedger::SYRON);
    assert_eq!(steps[0].amount, 30_000_000);
    assert_eq!(
        steps[0].from_subaccount,
        Some(compute_subaccount(&minter, 2, "tb1qsender"))
    );
    assert_eq!(
        steps[0].to.subaccount,
        Some(compute_subaccount(&minter, 2, "tb1qreceiver"))
    );
}

#[test]
fn payment_swap_respects_the_caller_minimum() {
    let minter = minter_id();
    // amount 30_000_000 at rate 60_000 swaps to 500 sats.
    let rate = Some(60_000 * RATE_SCALE);
    match syron_payment_plan(&minter, "tb1qs", "tb1qr", 30_000_000, Some(501), rate) {
        Err(UpdateBalanceError::GenericError { error_code, error_message }) => {
            assert_eq!(error_code, 3);
            assert_eq!(
                error_message,
                "@syron_payment: Insufficient BTC amount. Computed amount: 500 sats, Minimum Required: 501 sats, Exchange Rate: 60000"
            );
        }
        Err(other) => panic!("unexpected error: {:?}", other),
        Ok(_) => panic!("an insufficient swap must not be planned"),
    }
    match syron_payment_plan(&minter, "tb1qs", "tb1qr", 30_000_000, Some(199), rate) {
        Err(UpdateBalanceError::GenericError { error_message, .. }) => {
            assert_eq!(
                error_message,
                "@syron_payment: BTC amount (199) is below the minimum"
            );
        }
        Err(other) => panic!("unexpected error: {:?}", other),
        Ok(_) => panic!("a swap below the minimum must not be planned"),
    }
    let mut plan = syron_payment_plan(&minter, "tb1qs", "tb1qr", 30_000_000, Some(500), rate)
        .expect("swap payment");
    let steps = settle(&mut plan, &[1, 2]);
    assert_eq!(steps.len(), 2);
    assert_eq!(steps[0].ledger, SyronLedger::BTC);
    assert_eq!(steps[0].amount, 500);
    assert_eq!(steps[0].to.subaccount, Some(compute_subaccount(&minter, 0, "tb1qs")));
    assert_eq!(steps[1].ledger, SyronLedger::SYRON);
    assert_eq!(steps[1].amount, 30_000_000);
}

#[test]
fn payment_to_arbitrary_account_checks_the_floor() {
    let minter = minter_id();
    let receiver = account(&[42], Some(vec![3; 32]));
    match syron_payment_icp_plan(&minter, "tb1qs", &receiver, 1) {
        Err(UpdateBalanceError::GenericError { error_code, .. }) => assert_eq!(error_code, 3),
        Err(other) => panic!("unexpected error: {:?}", other),
        Ok(_) => panic!("a payment below the minimum must not be planned"),
    }
    let mut plan =
        syron_payment_icp_plan(&minter, "tb1qs", &receiver, 20_000_000).expect("payment");
    let steps = settle(&mut plan, &[9]);
    assert_eq!(steps.len(), 1);
    assert_eq!(steps[0].to, receiver);
    assert_eq!(steps[0].amount, 20_000_000);
}

#[test]
fn siwb_identity_must_match_the_caller() {
    let caller = vec![1, 2, 3];
    assert_eq!(
        validate_siwb_principal(Ok(vec![1, 2, 3]), &caller).expect("same identity"),
        caller
    );
    let mismatch = validate_siwb_principal(Ok(vec![9, 9]), &caller).unwrap_err();
    assert_eq!(mismatch.method(), "get_principal");
    match mismatch.reason() {
        Reason::Other(m) => assert_eq!(m, "Invalid caller"),
        other => panic!("expected an authorization failure, got {:?}", other),
    }
    let failed = validate_siwb_principal(Err("no identity".into()), &caller).unwrap_err();
    match failed.reason() {
        Reason::Other(m) => assert_eq!(m, "no identity"),
        other => panic!("expected the propagated failure, got {:?}", other),
    }
}

#[test]
fn call_error_renders_method_and_reason() {
    let e = CallError::new("get_exchange_rate".into(), Reason::OutOfCycles);
    assert_eq!(e.method(), "get_exchange_rate");
    assert_eq!(*e.reason(), Reason::OutOfCycles);
    assert_eq!(
        e.to_text(),
        "management call 'get_exchange_rate' failed: the canister is out of cycles"
    );
    assert_eq!(
        Reason::CanisterError("oops".into()).to_string(),
        "canister error: oops"
    );
    assert_eq!(
        Reason::Rejected("nope".into()).to_string(),
        "the management canister rejected the call: nope"
    );
}

#[test]
fn reject_codes_classify_into_reasons() {
    assert_eq!(
        Reason::from_reject(RejectCode::SysTransient, "ignored".into()),
        Reason::QueueIsFull
    );
    assert_eq!(
        Reason::from_reject(RejectCode::CanisterError, "m".into()),
        Reason::CanisterError("m".into())
    );
    assert_eq!(
        Reason::from_reject(RejectCode::CanisterReject, "m".into()),
        Reason::Rejected("m".into())
    );
    assert_eq!(
        Reason::from_reject(RejectCode::SysFatal, "m".into()),
        Reason::Other("m".into())
    );
}

#[test]
fn block_index_classification() {
    assert_eq!(classify_block_index(Some(5), "mint").expect("fits"), 5);
    match classify_block_index(None, "syron_update") {
        Err(UpdateBalanceError::SystemError { method, reason }) => {
            assert_eq!(method, "syron_update");
            assert_eq!(reason, "Block index too large for u64");
        }
        other => panic!("expected a system error, got {:?}", other),
    }
}
