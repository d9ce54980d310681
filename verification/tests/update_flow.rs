use syron_minter::collateral::CollateralizedAccount;
use syron_minter::engine::{UpdateSession, UtxoAction, TransferStepResult};
use syron_minter::errors::UpdateBalanceError;
use syron_minter::guard::GuardTable;
use syron_minter::orchestrator::TransferOutcome;
use syron_minter::store::UtxoLedgerState;
use syron_minter::types::{Outpoint, SyronLedger, Utxo, UtxoStatus};

const RATE_SCALE: u64 = 1_000_000_000;

fn minter_id() -> Vec<u8> {
    vec![239, 205, 171, 0, 0, 0, 0, 0, 1]
}

fn utxo(tag: u8, value: u64, height: u32) -> Utxo {
    Utxo { outpoint: Outpoint { txid: vec![tag; 32], vout: 0 }, value, height }
}

fn fresh_snapshot() -> CollateralizedAccount {
    CollateralizedAccount::from_parts(60_000 * RATE_SCALE, 0, 0, 0, 0)
}

/// Drives one deposit of `observed` to completion, settling every transfer.
fn mint_all(
    store: &mut UtxoLedgerState,
    guard: &mut GuardTable,
    observed: &Vec<Utxo>,
) -> Result<Vec<UtxoStatus>, UpdateBalanceError> {
    let minter = minter_id();
    let mut session = UpdateSession::begin(&minter, "tb1qbox", 6, 1_000, 0, guard)?;
    if !session.on_utxos(store, observed) {
        let err = session.on_pending_utxos(800_000, observed);
        session.release(guard);
        return Err(err);
    }
    let mut receipt: u64 = 1;
    loop {
        match session.next_action(store) {
            UtxoAction::Skipped => continue,
            UtxoAction::Finished => break,
            UtxoAction::NeedSnapshot(_) => {
                if let Some(err) = session.on_snapshot(&fresh_snapshot()) {
                    session.release(guard);
                    return Err(err);
                }
                loop {
                    let outcome = TransferOutcome::Accepted(Some(receipt));
                    receipt += 1;
                    match session.on_transfer(store, outcome) {
                        TransferStepResult::InProgress => continue,
                        TransferStepResult::Claimed => break,
                        TransferStepResult::Aborted(err) => {
                            session.release(guard);
                            return Err(err);
                        }
                    }
                }
            }
        }
    }
    Ok(session.release(guard))
}

#[test]
fn fresh_deposit_mints_loan_and_claims_utxo() {
    let mut store = UtxoLedgerState::new();
    let mut guard = GuardTable::new(16);
    let deposit = utxo(1, 100_000, 799_000);
    let observed = vec![deposit.clone()];

    let statuses = mint_all(&mut store, &mut guard, &observed).expect("deposit settles");
    assert_eq!(statuses.len(), 1);
    match &statuses[0] {
        UtxoStatus::Minted { block_index, minted_amount, utxo } => {
            assert_eq!(*block_index, 1);
            assert_eq!(*minted_amount, 100_000);
            assert_eq!(utxo, &deposit);
        }
        other => panic!("expected a mint, got {:?}", other),
    }
    assert!(store.is_recorded(&deposit.outpoint));
}

#[test]
fn fresh_deposit_runs_collateral_loan_and_balance_legs() {
    // One deposit of 100_000 sats at rate 60_000 mints a loan of
    // 100_000 * 60_000 / 15 * 10 = 4_000_000_000 minor units: the collateral
    // leg, then the loan leg and the balance leg on the stablecoin ledger.
    let mut store = UtxoLedgerState::new();
    let mut guard = GuardTable::new(16);
    let minter = minter_id();
    let mut session =
        UpdateSession::begin(&minter, "tb1qbox", 6, 1_000, 0, &mut guard).expect("guard free");
    let observed = vec![utxo(1, 100_000, 799_000)];
    assert!(session.on_utxos(&mut store, &observed));
    match session.next_action(&mut store) {
        UtxoAction::NeedSnapshot(u) => assert_eq!(u.value, 100_000),
        other => panic!("expected a snapshot request, got {:?}", other),
    }
    assert!(session.on_snapshot(&fresh_snapshot()).is_none());

    let leg1 = session.pending_transfer();
    assert_eq!(leg1.ledger, SyronLedger::BTC);
    assert_eq!(leg1.amount, 100_000);
    assert!(matches!(
        session.on_transfer(&mut store, TransferOutcome::Accepted(Some(41))),
        TransferStepResult::InProgress
    ));

    let leg2 = session.pending_transfer();
    assert_eq!(leg2.ledger, SyronLedger::SYRON);
    assert_eq!(leg2.amount, 4_000_000_000);
    assert!(matches!(
        session.on_transfer(&mut store, TransferOutcome::Accepted(Some(42))),
        TransferStepResult::InProgress
    ));

    let leg3 = session.pending_transfer();
    assert_eq!(leg3.ledger, SyronLedger::SYRON);
    assert_eq!(leg3.amount, 4_000_000_000);
    assert!(matches!(
        session.on_transfer(&mut store, TransferOutcome::Accepted(Some(43))),
        TransferStepResult::Claimed
    ));

    assert!(matches!(session.next_action(&mut store), UtxoAction::Finished));
    let statuses = session.release(&mut guard);
    match &statuses[0] {
        UtxoStatus::Minted { block_index, .. } => assert_eq!(*block_index, 41),
        other => panic!("expected a mint, got {:?}", other),
    }
}

#[test]
fn repeated_update_sees_no_new_utxos() {
    // Dedup idempotence: the same oracle response a second time mints nothing
    // and reports no new UTXOs.
    let mut store = UtxoLedgerState::new();
    let mut guard = GuardTable::new(16);
    let observed = vec![utxo(1, 100_000, 799_000)];

    let first = mint_all(&mut store, &mut guard, &observed).expect("first deposit settles");
    assert_eq!(first.len(), 1);

    match mint_all(&mut store, &mut guard, &observed) {
        Err(UpdateBalanceError::NoNewUtxos { required_confirmations, pending_utxos, .. }) => {
            assert_eq!(required_confirmations, 6);
            // The UTXO is long confirmed, so nothing is pending either.
            assert_eq!(pending_utxos.unwrap().len(), 0);
        }
        other => panic!("expected no new UTXOs, got {:?}", other),
    }
    // Still claimed exactly once.
    assert!(store.is_recorded(&observed[0].outpoint));
}

#[test]
fn concurrent_updates_for_one_account_yield_already_processing() {
    // Guard exclusivity: with one update in flight, the second caller fails
    // immediately, and a release lets the account through again.
    let mut guard = GuardTable::new(16);
    let minter = minter_id();
    let session = UpdateSession::begin(&minter, "tb1qbox", 6, 1_000, 0, &mut guard)
        .expect("first acquisition");
    match UpdateSession::begin(&minter, "tb1qbox", 6, 1_000, 0, &mut guard) {
        Err(UpdateBalanceError::AlreadyProcessing) => {}
        Err(other) => panic!("unexpected error: {:?}", other),
        Ok(_) => panic!("a second in-flight update for one account must be refused"),
    }
    // A different account is unaffected.
    let other = UpdateSession::begin(&minter, "tb1qother", 6, 1_000, 0, &mut guard)
        .expect("independent account");
    other.release(&mut guard);
    session.release(&mut guard);
    UpdateSession::begin(&minter, "tb1qbox", 6, 1_000, 0, &mut guard)
        .expect("released account can start again")
        .release(&mut guard);
}

#[test]
fn guard_cap_yields_temporarily_unavailable() {
    let mut guard = GuardTable::new(1);
    let minter = minter_id();
    let _held = UpdateSession::begin(&minter, "tb1qbox", 6, 1_000, 0, &mut guard)
        .expect("first acquisition");
    match UpdateSession::begin(&minter, "tb1qother", 6, 1_000, 0, &mut guard) {
        Err(UpdateBalanceError::TemporarilyUnavailable(m)) => {
            assert_eq!(m, "too many concurrent requests");
        }
        Err(other) => panic!("unexpected error: {:?}", other),
        Ok(_) => panic!("the concurrency cap must refuse a further account"),
    }
}

#[test]
fn dust_below_minimum_deposit_never_reaches_minting() {
    // Dust floor: every value below the configured minimum is reported
    // ValueTooSmall, permanently ignored, and no snapshot is ever requested.
    for value in [0u64, 1, 546, 999] {
        let mut store = UtxoLedgerState::new();
        let mut guard = GuardTable::new(16);
        let minter = minter_id();
        let mut session = UpdateSession::begin(&minter, "tb1qbox", 6, 1_000, 0, &mut guard)
            .expect("guard free");
        let dust = utxo(9, value, 799_000);
        let observed = vec![dust.clone()];
        if value == 0 {
            // A zero-value UTXO carries no deposit at all.
            assert!(!session.on_utxos(&mut store, &observed));
            session.release(&mut guard);
            continue;
        }
        assert!(session.on_utxos(&mut store, &observed));
        assert!(matches!(session.next_action(&mut store), UtxoAction::Skipped));
        assert!(matches!(session.next_action(&mut store), UtxoAction::Finished));
        let statuses = session.release(&mut guard);
        assert_eq!(statuses, vec![UtxoStatus::ValueTooSmall(dust.clone())]);
        assert!(store.is_recorded(&dust.outpoint));
    }
}

#[test]
fn inscription_shaped_value_is_ignored_without_ledger_calls() {
    // A 546-sat UTXO at or above the minimum deposit is inscription-shaped:
    // reported as such, permanently ignored, and no transfer is planned.
    let mut store = UtxoLedgerState::new();
    let mut guard = GuardTable::new(16);
    let minter = minter_id();
    let mut session = UpdateSession::begin(&minter, "tb1qbox", 6, 500, 0, &mut guard)
        .expect("guard free");
    let inscription = utxo(3, 546, 799_000);
    let observed = vec![inscription.clone()];
    assert!(session.on_utxos(&mut store, &observed));
    assert!(matches!(session.next_action(&mut store), UtxoAction::Skipped));
    assert!(matches!(session.next_action(&mut store), UtxoAction::Finished));
    let statuses = session.release(&mut guard);
    assert_eq!(statuses, vec![UtxoStatus::TransferInscription(inscription.clone())]);
    assert!(store.is_recorded(&inscription.outpoint));
}

#[test]
fn partial_failure_keeps_collateral_claim_and_aborts() {
    // The collateral leg settles, the loan leg fails: the claim with the
    // collateral receipt stands in the audit record (no rollback), the UTXO
    // is reported checked, and the whole update aborts with a call error.
    let mut store = UtxoLedgerState::new();
    let mut guard = GuardTable::new(16);
    let minter = minter_id();
    let mut session = UpdateSession::begin(&minter, "tb1qbox", 6, 1_000, 0, &mut guard)
        .expect("guard free");
    let deposit = utxo(5, 100_000, 799_000);
    let observed = vec![deposit.clone()];
    assert!(session.on_utxos(&mut store, &observed));
    assert!(matches!(session.next_action(&mut store), UtxoAction::NeedSnapshot(_)));
    assert!(session.on_snapshot(&fresh_snapshot()).is_none());

    // Collateral leg settles with receipt 11.
    assert!(matches!(
        session.on_transfer(&mut store, TransferOutcome::Accepted(Some(11))),
        TransferStepResult::InProgress
    ));
    // Loan leg is rejected by the host system.
    let failure = TransferOutcome::Rejected { code: 5, message: String::from("boom") };
    match session.on_transfer(&mut store, failure) {
        TransferStepResult::Aborted(UpdateBalanceError::CallError { method, reason }) => {
            assert_eq!(method, "mint");
            assert_eq!(
                reason,
                "@mint: Cannot grant syron loan due to error (boom - reject_code = 5)"
            );
        }
        other => panic!("expected an aborting call error, got {:?}", other),
    }
    // The collateral disposition is claimed even though the loan mint failed.
    assert!(store.is_recorded(&deposit.outpoint));
    let statuses = session.release(&mut guard);
    assert_eq!(statuses, vec![UtxoStatus::Checked(deposit.clone())]);
}

#[test]
fn pending_report_counts_confirmations() {
    let mut store = UtxoLedgerState::new();
    let mut guard = GuardTable::new(16);
    let minter = minter_id();
    let mut session = UpdateSession::begin(&minter, "tb1qbox", 6, 1_000, 0, &mut guard)
        .expect("guard free");
    // Confirmed scan finds nothing new.
    assert!(!session.on_utxos(&mut store, &vec![]));
    // The zero-confirmation scan sees two young UTXOs at tip 1_000:
    // heights 998 and 1_000 have 3 and 1 confirmations, both short of 6.
    let young = vec![utxo(1, 70_000, 998), utxo(2, 80_000, 1_000)];
    match session.on_pending_utxos(1_000, &young) {
        UpdateBalanceError::NoNewUtxos {
            current_confirmations,
            required_confirmations,
            pending_utxos,
        } => {
            assert_eq!(required_confirmations, 6);
            assert_eq!(current_confirmations, Some(3));
            let pending = pending_utxos.unwrap();
            assert_eq!(pending.len(), 2);
            assert_eq!(pending[0].confirmations, 3);
            assert_eq!(pending[1].confirmations, 1);
            assert_eq!(pending[0].value, 70_000);
        }
        other => panic!("expected the pending report, got {:?}", other),
    }
    session.release(&mut guard);
}

#[test]
fn policy_rejection_reports_checked_without_any_transfer() {
    // A below-floor snapshot whose deposit exceeds what restoring the floor
    // absorbs aborts before any ledger call; the outpoint stays unseen.
    let mut store = UtxoLedgerState::new();
    let mut guard = GuardTable::new(16);
    let minter = minter_id();
    let mut session = UpdateSession::begin(&minter, "tb1qbox", 6, 1_000, 0, &mut guard)
        .expect("guard free");
    let deposit = utxo(7, 100_000, 799_000);
    let observed = vec![deposit.clone()];
    assert!(session.on_utxos(&mut store, &observed));
    assert!(matches!(session.next_action(&mut store), UtxoAction::NeedSnapshot(_)));
    let under_floor = CollateralizedAccount::from_parts(60_000 * RATE_SCALE, 10, 6_000_000, 0, 0);
    match session.on_snapshot(&under_floor) {
        Some(UpdateBalanceError::GenericError { error_code, .. }) => assert_eq!(error_code, 2),
        other => panic!("expected the policy rejection, got {:?}", other),
    }
    assert!(!store.is_recorded(&deposit.outpoint));
    let statuses = session.release(&mut guard);
    assert_eq!(statuses, vec![UtxoStatus::Checked(deposit.clone())]);
}
