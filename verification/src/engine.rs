//! The balance-update state machine.
//!
//! One deposit request walks the phases guard acquisition, UTXO scan,
//! per-UTXO processing and completion. The host performs the external calls
//! (the UTXO oracle query, the snapshot reads, each ledger transfer) and
//! feeds their results back; every decision between those calls is made
//! here. On completion — success or failure — the host releases the guard and
//! signals its downstream reconciliation scheduler.

use vstd::prelude::*;
use vstd::string::{StringExecFns, StringSliceAdditionalSpecFns};

use crate::collateral::CollateralizedAccount;
use crate::errors::UpdateBalanceError;
use crate::guard::{spec_acquire_grants, GuardTable};
use crate::orchestrator::{
    mint_plan, spec_abort_matches, spec_mint_admitted, spec_mint_rejection, spec_mint_steps,
    spec_minted_loan, PlanProgress, TransferOutcome, TransferPlan, TransferStep,
};
use crate::seqs::{lemma_filter_distinct_keys, lemma_filter_push, lemma_map_values_push};
use crate::store::{IgnoreReason, UtxoLedgerState};
use crate::transfers::{nonce_account, spec_nonce_account};
use crate::types::{
    status_views, utxo_views, Account, PendingUtxo, PendingUtxoV, Utxo, UtxoStatus, UtxoV,
};

verus! {

/// A UTXO of exactly this value is shaped like a transfer inscription and is
/// never minted.
pub const INSCRIPTION_VALUE: u64 = 546;

/// Where a balance update stands between two collaborator calls.
#[derive(Clone, Copy, Debug, PartialEq, Eq)]
pub enum UpdatePhase {
    /// Waiting for the confirmed-UTXO scan of the box address.
    AwaitingUtxos,
    /// No new deposit was found; waiting for the zero-confirmation scan that
    /// backs the pending report.
    AwaitingPending,
    /// Deciding what to do with the next scanned UTXO.
    SelectingUtxo,
    /// Waiting for the collateralization snapshot for the current UTXO.
    AwaitingSnapshot,
    /// Driving the mint transfers of the current UTXO.
    Transferring,
    /// The update is over; the host releases the guard.
    Finished,
}

/// What the engine asks of the host after selecting a UTXO.
#[derive(Clone, Debug, PartialEq, Eq)]
pub enum UtxoAction {
    /// The UTXO was ignored and reported; ask again.
    Skipped,
    /// Fetch a fresh collateralization snapshot to mint this UTXO.
    NeedSnapshot(Utxo),
    /// Every scanned UTXO was processed; the update succeeded.
    Finished,
}

/// What one fed-back transfer outcome led to.
#[derive(Clone, Debug, PartialEq, Eq)]
pub enum TransferStepResult {
    /// The transfer settled and more remain for this UTXO.
    InProgress,
    /// The UTXO's deposit is fully realized and claimed.
    Claimed,
    /// A transfer failed: the UTXO is reported as checked, receipts already
    /// settled stay recorded, and the whole update aborts.
    Aborted(UpdateBalanceError),
}

/// Sum of the values of a scan result.
pub open spec fn spec_total_value(s: Seq<UtxoV>) -> int
    decreases s.len(),
{
    if s.len() == 0 {
        0
    } else {
        spec_total_value(s.drop_last()) + s.last().value
    }
}

proof fn lemma_total_value_bound(s: Seq<UtxoV>)
    ensures
        0 <= spec_total_value(s) <= s.len() * (u64::MAX as int),
    decreases s.len(),
{
    if s.len() != 0 {
        lemma_total_value_bound(s.drop_last());
        assert((s.len() - 1) * (u64::MAX as int) + (u64::MAX as int) == s.len() * (
        u64::MAX as int)) by (nonlinear_arith);
    }
}

/// Whether a UTXO of the zero-confirmation scan is still short of the
/// confirmation threshold.
pub open spec fn spec_keep_pending(tip: u32, mc: u32) -> spec_fn(UtxoV) -> bool {
    |u: UtxoV| (tip as int) < u.height + mc - 1
}

/// The pending report entry of one short-of-threshold UTXO.
pub open spec fn spec_to_pending(tip: u32) -> spec_fn(UtxoV) -> PendingUtxoV {
    |u: UtxoV|
        (PendingUtxoV {
            outpoint: u.outpoint,
            value: u.value,
            confirmations: (tip - u.height + 1) as u32,
        })
}

/// The UTXOs of the zero-confirmation scan that do not yet meet the
/// confirmation threshold, reported with their observed confirmations.
pub open spec fn spec_pending_views(tip: u32, utxos: Seq<Utxo>, mc: u32) -> Seq<PendingUtxoV> {
    utxo_views(utxos).filter(spec_keep_pending(tip, mc)).map_values(spec_to_pending(tip))
}

/// The sequence of views of a pending-UTXO report.
pub open spec fn pending_views(s: Seq<PendingUtxo>) -> Seq<PendingUtxoV> {
    s.map_values(|p: PendingUtxo| p@)
}

/// Builds the informational `NoNewUtxos` report from the zero-confirmation
/// scan: the UTXOs still short of the confirmation threshold, each with its
/// observed confirmations, and the largest confirmation count among them.
pub fn pending_report(tip_height: u32, utxos: &Vec<Utxo>, min_confirmations: u32) -> (e:
    UpdateBalanceError)
    requires
        1 <= min_confirmations,
        forall|i: int|
            0 <= i < utxos@.len() ==> (#[trigger] utxos@[i]@.height) <= tip_height
                && utxos@[i]@.height + min_confirmations <= u32::MAX,
    ensures
        e matches UpdateBalanceError::NoNewUtxos {
            current_confirmations,
            required_confirmations,
            pending_utxos,
        } && {
            let pending = spec_pending_views(tip_height, utxos@, min_confirmations);
            &&& required_confirmations == min_confirmations
            &&& pending_utxos matches Some(p) && pending_views(p@) == pending
            &&& match current_confirmations {
                Some(m) => (exists|i: int|
                    0 <= i < pending.len() && (#[trigger] pending[i].confirmations) == m) && (
                forall|i: int|
                    0 <= i < pending.len() ==> (#[trigger] pending[i].confirmations) <= m),
                None => pending.len() == 0,
            }
        },
{
    let ghost mc = min_confirmations;
    let ghost keep = spec_keep_pending(tip_height, mc);
    let ghost conv = spec_to_pending(tip_height);
    let mut pending: Vec<PendingUtxo> = Vec::new();
    let mut i: usize = 0;
    proof {
        assert(utxo_views(utxos@).subrange(0, 0) =~= Seq::<UtxoV>::empty());
        assert(pending_views(pending@) =~= Seq::<PendingUtxoV>::empty());
        assert(Seq::<UtxoV>::empty().filter(keep) =~= Seq::<UtxoV>::empty()) by {
            crate::seqs::lemma_filter_all_false(Seq::<UtxoV>::empty(), keep);
        }
        assert(Seq::<UtxoV>::empty().map_values(conv) =~= Seq::<PendingUtxoV>::empty());
    }
    while i < utxos.len()
        invariant
            i <= utxos@.len(),
            1 <= min_confirmations,
            mc == min_confirmations,
            keep == spec_keep_pending(tip_height, mc),
            conv == spec_to_pending(tip_height),
            forall|k: int|
                0 <= k < utxos@.len() ==> (#[trigger] utxos@[k]@.height) <= tip_height
                    && utxos@[k]@.height + mc <= u32::MAX,
            pending_views(pending@) == utxo_views(utxos@).subrange(0, i as int).filter(
                keep,
            ).map_values(conv),
        decreases utxos@.len() - i,
    {
        let ghost prefix = utxo_views(utxos@).subrange(0, i as int);
        let u = &utxos[i];
        proof {
            assert(utxo_views(utxos@).subrange(0, i + 1) =~= prefix.push(utxos@[i as int]@));
            lemma_filter_push(prefix, utxos@[i as int]@, keep);
            if keep(utxos@[i as int]@) {
                lemma_map_values_push(prefix.filter(keep), utxos@[i as int]@, conv);
            }
        }
        proof {
            assert(utxos@[i as int]@.height <= tip_height && utxos@[i as int]@.height + mc
                <= u32::MAX);
        }
        let threshold = u.height + min_confirmations - 1;
        if tip_height < threshold {
            let ghost pviews = pending_views(pending@);
            let entry = PendingUtxo {
                outpoint: u.outpoint.duplicate(),
                value: u.value,
                confirmations: tip_height - u.height + 1,
            };
            proof {
                assert(entry@ == conv(utxos@[i as int]@));
            }
            pending.push(entry);
            proof {
                lemma_map_values_push(pending@.drop_last(), pending@.last(), |p: PendingUtxo| p@);
                assert(pending@.drop_last().push(pending@.last()) =~= pending@);
                assert(pending_views(pending@) =~= pviews.push(conv(utxos@[i as int]@)));
            }
        }
        i = i + 1;
    }
    proof {
        assert(utxo_views(utxos@).subrange(0, utxos@.len() as int) =~= utxo_views(utxos@));
    }
    let mut current: Option<u32> = None;
    let mut j: usize = 0;
    while j < pending.len()
        invariant
            j <= pending@.len(),
            match current {
                Some(m) => (exists|k: int|
                    0 <= k < j && (#[trigger] pending@[k]@.confirmations) == m) && (forall|
                    k: int,
                |
                    0 <= k < j ==> (#[trigger] pending@[k]@.confirmations) <= m),
                None => j == 0,
            },
        decreases pending@.len() - j,
    {
        let c = pending[j].confirmations;
        proof {
            assert(pending@[j as int]@.confirmations == c);
        }
        match current {
            Some(m) => {
                if c > m {
                    current = Some(c);
                }
            },
            None => {
                current = Some(c);
            },
        }
        j = j + 1;
    }
    let required = min_confirmations;
    proof {
        let pv = pending_views(pending@);
        let spec = spec_pending_views(tip_height, utxos@, mc);
        assert(pv == spec);
        assert(pv.len() == pending@.len());
        assert forall|k: int| 0 <= k < pending@.len() implies #[trigger] spec[k].confirmations
            == pending@[k]@.confirmations by {
            assert(pv[k] == pending@[k]@);
        }
        match current {
            Some(m) => {
                let k = choose|k: int|
                    0 <= k < pending@.len() && (#[trigger] pending@[k]@.confirmations) == m;
                assert(spec[k].confirmations == m);
                assert(exists|i: int|
                    0 <= i < spec.len() && (#[trigger] spec[i].confirmations) == m);
                assert forall|i: int|
                    0 <= i < spec.len() implies (#[trigger] spec[i].confirmations) <= m by {
                    assert(pending@[i]@.confirmations <= m);
                }
            },
            None => {
                assert(spec.len() == 0);
            },
        }
    }
    UpdateBalanceError::NoNewUtxos {
        current_confirmations: current,
        required_confirmations: required,
        pending_utxos: Some(pending),
    }
}

/// One in-flight balance update for one box.
pub struct UpdateSession {
    /// Where the update stands.
    pub phase: UpdatePhase,
    /// Binary identity of the minter.
    pub minter: Vec<u8>,
    /// The self-sovereign identity whose box is updated.
    pub ssi: String,
    /// The guarded account (derivation nonce 0).
    pub ssi_account: Account,
    /// The box account holding collateral (derivation nonce 1).
    pub box_account: Account,
    /// The spendable balance account (derivation nonce 2).
    pub balance_account: Account,
    /// Confirmations a UTXO needs to be accepted.
    pub min_confirmations: u32,
    /// Values below this floor are ignored as too small.
    pub min_deposit: u64,
    /// Fee deducted from each accepted UTXO value before minting.
    pub kyt_fee: u64,
    /// The new UTXOs of this scan, in scan order.
    pub queue: Vec<Utxo>,
    /// Index of the next queue entry to process.
    pub idx: usize,
    /// Outcome reported for each processed UTXO.
    pub statuses: Vec<UtxoStatus>,
    /// The transfers realizing the current UTXO's deposit.
    pub plan: TransferPlan,
    /// The amount minted for the current UTXO (value minus the fee).
    pub current_amount: u64,
}

impl UpdateSession {
    /// The UTF-8 bytes of the session's discriminator.
    pub open spec fn ssi_bytes(self) -> Seq<u8> {
        vstd::utf8::encode_utf8(self.ssi@)
    }

    /// Internal consistency of a session.
    pub open spec fn wf(self) -> bool {
        &&& self.kyt_fee <= self.min_deposit
        &&& 1 <= self.min_confirmations
        &&& self.idx <= self.queue@.len()
        &&& self.ssi_account@ == spec_nonce_account(self.minter@, self.ssi_bytes(), Some(0))
        &&& self.box_account@ == spec_nonce_account(self.minter@, self.ssi_bytes(), Some(1))
        &&& self.balance_account@ == spec_nonce_account(self.minter@, self.ssi_bytes(), Some(2))
        &&& (self.phase is AwaitingSnapshot || self.phase is Transferring ==> self.idx
            < self.queue@.len())
        &&& (self.phase is Transferring ==> {
            &&& self.plan.wf()
            &&& 1 <= self.plan.step_views().len()
            &&& self.plan.spec_next() < self.plan.step_views().len()
        })
    }

    /// The scanned UTXOs not yet processed are still unseen in the store and
    /// pairwise distinct, so each can be claimed or ignored exactly once.
    pub open spec fn queue_inv(self, store: UtxoLedgerState) -> bool {
        &&& forall|k: int|
            self.idx <= k < self.queue@.len() ==> !store.spec_recorded(
                #[trigger] self.queue@[k]@.outpoint,
            )
        &&& forall|k: int, l: int|
            self.idx <= k < l < self.queue@.len() ==> self.queue@[k]@.outpoint
                != self.queue@[l]@.outpoint
    }

    /// Configuration and identity fields never change after `begin`.
    pub open spec fn same_config(self, other: UpdateSession) -> bool {
        &&& self.minter@ == other.minter@
        &&& self.ssi@ == other.ssi@
        &&& self.ssi_account@ == other.ssi_account@
        &&& self.box_account@ == other.box_account@
        &&& self.balance_account@ == other.balance_account@
        &&& self.min_confirmations == other.min_confirmations
        &&& self.min_deposit == other.min_deposit
        &&& self.kyt_fee == other.kyt_fee
    }

    /// Opens a balance update for the box of `ssi`: derives the session
    /// accounts and acquires the per-account guard. Fails with
    /// `AlreadyProcessing` exactly when an update for this account is in
    /// flight, and with `TemporarilyUnavailable` exactly when the global
    /// concurrency cap is reached.
    pub fn begin(
        minter: &Vec<u8>,
        ssi: &str,
        min_confirmations: u32,
        min_deposit: u64,
        kyt_fee: u64,
        guard: &mut GuardTable,
    ) -> (r: Result<UpdateSession, UpdateBalanceError>)
        requires
            old(guard).wf(),
            1 <= min_confirmations,
            kyt_fee <= min_deposit,
        ensures
            final(guard).wf(),
            final(guard).spec_cap() == old(guard).spec_cap(),
            match r {
                Ok(s) => {
                    &&& spec_acquire_grants(
                        *old(guard),
                        *final(guard),
                        spec_nonce_account(
                            minter@,
                            vstd::utf8::encode_utf8(ssi@),
                            Some(0),
                        ),
                    )
                    &&& s.wf()
                    &&& s.phase is AwaitingUtxos
                    &&& s.minter@ == minter@
                    &&& s.ssi@ == ssi@
                    &&& s.min_confirmations == min_confirmations
                    &&& s.min_deposit == min_deposit
                    &&& s.kyt_fee == kyt_fee
                    &&& s.statuses@.len() == 0
                    &&& s.queue@.len() == 0
                },
                Err(e) => {
                    &&& *final(guard) == *old(guard)
                    &&& {
                        let account = spec_nonce_account(
                            minter@,
                            vstd::utf8::encode_utf8(ssi@),
                            Some(0),
                        );
                        if old(guard).spec_holds(account) {
                            e == UpdateBalanceError::AlreadyProcessing
                        } else {
                            &&& old(guard).spec_in_flight() >= old(guard).spec_cap()
                            &&& e matches UpdateBalanceError::TemporarilyUnavailable(m) && m@
                                == "too many concurrent requests"@
                        }
                    }
                },
            },
    {
        let ssi_account = nonce_account(minter, ssi, Some(0));
        match guard.acquire(&ssi_account) {
            Ok(()) => {
                proof {
                    assert(ssi.spec_bytes() == vstd::utf8::encode_utf8(ssi@));
                }
                Ok(
                    UpdateSession {
                        phase: UpdatePhase::AwaitingUtxos,
                        minter: minter.clone(),
                        ssi: String::from_str(ssi),
                        ssi_account,
                        box_account: nonce_account(minter, ssi, Some(1)),
                        balance_account: nonce_account(minter, ssi, Some(2)),
                        min_confirmations,
                        min_deposit,
                        kyt_fee,
                        queue: Vec::new(),
                        idx: 0,
                        statuses: Vec::new(),
                        plan: TransferPlan::new(Vec::new()),
                        current_amount: 0,
                    },
                )
            },
            Err(e) => Err(UpdateBalanceError::from_guard_error(e)),
        }
    }

    /// Feeds in the confirmed-UTXO scan of the box address. Deduplicates
    /// against the store, clears the stale finalized entries of the box
    /// account, and reports whether any new deposit value was found; when
    /// none was, the session awaits the zero-confirmation scan for the
    /// pending report.
    pub fn on_utxos(&mut self, store: &mut UtxoLedgerState, observed: &Vec<Utxo>) -> (r: bool)
        requires
            old(self).wf(),
            old(self).phase is AwaitingUtxos,
            old(store).wf(),
            forall|i: int, j: int|
                0 <= i < j < observed@.len() ==> observed@[i]@.outpoint != observed@[j]@.outpoint,
        ensures
            final(self).wf(),
            final(store).wf(),
            final(self).same_config(*old(self)),
            final(self).statuses@ == old(self).statuses@,
            final(self).queue_inv(*final(store)),
            forall|o| final(store).spec_recorded(o) == old(store).spec_recorded(o),
            forall|o, a, rc, sec|
                final(store).spec_claimed_with(o, a, rc, sec) == old(store).spec_claimed_with(
                    o,
                    a,
                    rc,
                    sec,
                ),
            forall|o, rs|
                final(store).spec_ignored_with(o, rs) == old(store).spec_ignored_with(o, rs),
            forall|o| !final(store).spec_finalized(old(self).box_account@, o),
            forall|a, o|
                a != old(self).box_account@ ==> final(store).spec_finalized(a, o) == old(
                    store,
                ).spec_finalized(a, o),
            utxo_views(final(self).queue@) == old(store).spec_new_utxos(observed@),
            final(self).idx == 0,
            r == (spec_total_value(old(store).spec_new_utxos(observed@)) != 0),
            r ==> final(self).phase is SelectingUtxo,
            !r ==> final(self).phase is AwaitingPending,
    {
        let new_utxos = store.new_utxos_for_account(observed, &self.box_account);
        store.finalize_clear(&self.box_account);
        let mut total: u128 = 0;
        let mut i: usize = 0;
        proof {
            assert(utxo_views(new_utxos@).subrange(0, 0) =~= Seq::<UtxoV>::empty());
            lemma_total_value_bound(utxo_views(new_utxos@).subrange(0, 0));
        }
        while i < new_utxos.len()
            invariant
                i <= new_utxos@.len(),
                utxo_views(new_utxos@).len() == new_utxos@.len(),
                total == spec_total_value(utxo_views(new_utxos@).subrange(0, i as int)),
                total <= (i as int) * (u64::MAX as int),
            decreases new_utxos@.len() - i,
        {
            let ghost prefix = utxo_views(new_utxos@).subrange(0, i as int);
            proof {
                assert(utxo_views(new_utxos@).subrange(0, i + 1).drop_last() =~= prefix);
                assert(utxo_views(new_utxos@).subrange(0, i + 1).last() == new_utxos@[i as int]@);
                assert((i as int) * (u64::MAX as int) + (u64::MAX as int) == (i + 1) * (
                u64::MAX as int)) by (nonlinear_arith);
                assert((i + 1) * (u64::MAX as int) <= (u64::MAX as int) * (u64::MAX as int))
                    by (nonlinear_arith)
                    requires
                        0 <= i + 1 <= u64::MAX,
                ;
            }
            total = total + (new_utxos[i].value as u128);
            i = i + 1;
        }
        proof {
            assert(utxo_views(new_utxos@).subrange(0, new_utxos@.len() as int) =~= utxo_views(
                new_utxos@,
            ));
            let key = |u: UtxoV| u.outpoint;
            let views = utxo_views(observed@);
            assert forall|a: int, b: int| 0 <= a < b < views.len() implies key(views[a]) != key(
                views[b],
            ) by {
                assert(views[a] == observed@[a]@ && views[b] == observed@[b]@);
            }
            lemma_filter_distinct_keys(views, old(store).unseen_pred(), key);
        }
        let have = total != 0;
        proof {
            let result = old(store).spec_new_utxos(observed@);
            assert(utxo_views(new_utxos@) == result);
            result.filter_lemma(old(store).unseen_pred());
            assert forall|k: int| 0 <= k < new_utxos@.len() implies !store.spec_recorded(
                #[trigger] new_utxos@[k]@.outpoint,
            ) by {
                assert(utxo_views(new_utxos@)[k] == new_utxos@[k]@);
                assert((old(store).unseen_pred())(result[k]));
            }
            assert forall|k: int, l: int|
                0 <= k < l < new_utxos@.len() implies new_utxos@[k]@.outpoint
                != new_utxos@[l]@.outpoint by {
                let key = |u: UtxoV| u.outpoint;
                assert(key(utxo_views(new_utxos@)[k]) != key(utxo_views(new_utxos@)[l]));
            }
        }
        self.queue = new_utxos;
        self.idx = 0;
        if have {
            self.phase = UpdatePhase::SelectingUtxo;
        } else {
            self.phase = UpdatePhase::AwaitingPending;
        }
        have
    }

    /// Feeds in the zero-confirmation scan and closes the update with the
    /// informational `NoNewUtxos` report: the UTXOs still short of the
    /// confirmation threshold, each with its observed confirmations, and the
    /// largest confirmation count seen among them.
    /// Feeds in the zero-confirmation scan and closes the update with the
    /// informational `NoNewUtxos` report.
    pub fn on_pending_utxos(&mut self, tip_height: u32, utxos: &Vec<Utxo>) -> (e:
        UpdateBalanceError)
        requires
            old(self).wf(),
            old(self).phase is AwaitingPending,
            forall|i: int|
                0 <= i < utxos@.len() ==> (#[trigger] utxos@[i]@.height) <= tip_height
                    && utxos@[i]@.height + old(self).min_confirmations <= u32::MAX,
        ensures
            final(self).wf(),
            final(self).same_config(*old(self)),
            final(self).phase is Finished,
            e matches UpdateBalanceError::NoNewUtxos {
                current_confirmations,
                required_confirmations,
                pending_utxos,
            } && {
                let pending = spec_pending_views(
                    tip_height,
                    utxos@,
                    old(self).min_confirmations,
                );
                &&& required_confirmations == old(self).min_confirmations
                &&& pending_utxos matches Some(p) && pending_views(p@) == pending
                &&& match current_confirmations {
                    Some(m) => (exists|i: int|
                        0 <= i < pending.len() && (#[trigger] pending[i].confirmations) == m)
                        && (forall|i: int|
                        0 <= i < pending.len() ==> (#[trigger] pending[i].confirmations) <= m),
                    None => pending.len() == 0,
                }
            },
    {
        self.phase = UpdatePhase::Finished;
        pending_report(tip_height, utxos, self.min_confirmations)
    }

    /// Decides the disposition of the next scanned UTXO: values below the
    /// minimum deposit are permanently ignored and reported `ValueTooSmall`;
    /// an inscription-shaped value is permanently ignored and reported
    /// `TransferInscription`; any other UTXO needs a fresh collateralization
    /// snapshot. When the queue is exhausted, the update is complete.
    pub fn next_action(&mut self, store: &mut UtxoLedgerState) -> (r: UtxoAction)
        requires
            old(self).wf(),
            old(self).phase is SelectingUtxo,
            old(store).wf(),
            old(self).queue_inv(*old(store)),
        ensures
            final(self).wf(),
            final(store).wf(),
            final(self).same_config(*old(self)),
            final(self).queue_inv(*final(store)),
            final(self).queue@ == old(self).queue@,
            forall|a, o| final(store).spec_finalized(a, o) == old(store).spec_finalized(a, o),
            forall|o, a, rc, sec|
                final(store).spec_claimed_with(o, a, rc, sec) == old(store).spec_claimed_with(
                    o,
                    a,
                    rc,
                    sec,
                ),
            ({
                let n = old(self).queue@.len() as int;
                let i = old(self).idx as int;
                if i == n {
                    &&& r == UtxoAction::Finished
                    &&& final(self).phase is Finished
                    &&& final(self).statuses@ == old(self).statuses@
                    &&& *final(store) == *old(store)
                } else {
                    let u = old(self).queue@[i]@;
                    if u.value < old(self).min_deposit {
                        &&& r == UtxoAction::Skipped
                        &&& final(self).phase is SelectingUtxo
                        &&& final(self).idx == i + 1
                        &&& status_views(final(self).statuses@) == status_views(
                            old(self).statuses@,
                        ).push(crate::types::UtxoStatusV::ValueTooSmall(u))
                        &&& final(store).spec_ignored_with(u.outpoint, IgnoreReason::BelowMinimum)
                        &&& forall|o, rs|
                            o != u.outpoint ==> final(store).spec_ignored_with(o, rs) == old(
                                store,
                            ).spec_ignored_with(o, rs)
                    } else if u.value == INSCRIPTION_VALUE {
                        &&& r == UtxoAction::Skipped
                        &&& final(self).phase is SelectingUtxo
                        &&& final(self).idx == i + 1
                        &&& status_views(final(self).statuses@) == status_views(
                            old(self).statuses@,
                        ).push(crate::types::UtxoStatusV::TransferInscription(u))
                        &&& final(store).spec_ignored_with(
                            u.outpoint,
                            IgnoreReason::InscriptionValue,
                        )
                        &&& forall|o, rs|
                            o != u.outpoint ==> final(store).spec_ignored_with(o, rs) == old(
                                store,
                            ).spec_ignored_with(o, rs)
                    } else {
                        &&& r matches UtxoAction::NeedSnapshot(x) && x@ == u
                        &&& final(self).phase is AwaitingSnapshot
                        &&& final(self).idx == i
                        &&& final(self).statuses@ == old(self).statuses@
                        &&& final(self).current_amount == u.value - old(self).kyt_fee
                        &&& *final(store) == *old(store)
                    }
                }
            }),
    {
        if self.idx == self.queue.len() {
            self.phase = UpdatePhase::Finished;
            return UtxoAction::Finished;
        }
        let u = self.queue[self.idx].duplicate();
        proof {
            assert(!store.spec_recorded(self.queue@[self.idx as int]@.outpoint));
        }
        if u.value < self.min_deposit {
            store.ignore(u.outpoint.duplicate(), IgnoreReason::BelowMinimum);
            let ghost pre = self.statuses@;
            self.statuses.push(UtxoStatus::ValueTooSmall(u));
            self.idx = self.idx + 1;
            proof {
                lemma_map_values_push(pre, self.statuses@.last(), |x: UtxoStatus| x@);
                assert(pre.push(self.statuses@.last()) =~= self.statuses@);
                assert(status_views(self.statuses@) =~= status_views(pre).push(
                    crate::types::UtxoStatusV::ValueTooSmall(self.queue@[self.idx - 1]@),
                ));
                let target = self.queue@[self.idx - 1]@.outpoint;
                assert forall|k: int|
                    self.idx <= k < self.queue@.len() implies !store.spec_recorded(
                    #[trigger] self.queue@[k]@.outpoint,
                ) by {
                    assert(self.queue@[k]@.outpoint != target);
                }
            }
            UtxoAction::Skipped
        } else if u.value == INSCRIPTION_VALUE {
            store.ignore(u.outpoint.duplicate(), IgnoreReason::InscriptionValue);
            let ghost pre = self.statuses@;
            self.statuses.push(UtxoStatus::TransferInscription(u));
            self.idx = self.idx + 1;
            proof {
                lemma_map_values_push(pre, self.statuses@.last(), |x: UtxoStatus| x@);
                assert(pre.push(self.statuses@.last()) =~= self.statuses@);
                assert(status_views(self.statuses@) =~= status_views(pre).push(
                    crate::types::UtxoStatusV::TransferInscription(self.queue@[self.idx - 1]@),
                ));
                let target = self.queue@[self.idx - 1]@.outpoint;
                assert forall|k: int|
                    self.idx <= k < self.queue@.len() implies !store.spec_recorded(
                    #[trigger] self.queue@[k]@.outpoint,
                ) by {
                    assert(self.queue@[k]@.outpoint != target);
                }
            }
            UtxoAction::Skipped
        } else {
            self.current_amount = u.value - self.kyt_fee;
            self.phase = UpdatePhase::AwaitingSnapshot;
            UtxoAction::NeedSnapshot(u)
        }
    }

    /// Feeds in the fresh collateralization snapshot for the current UTXO and
    /// plans its transfers. A policy failure reports the UTXO as checked and
    /// aborts the update without any ledger call; otherwise the host performs
    /// the planned transfers one by one.
    pub fn on_snapshot(&mut self, snapshot: &CollateralizedAccount) -> (r: Option<
        UpdateBalanceError,
    >)
        requires
            old(self).wf(),
            old(self).phase is AwaitingSnapshot,
        ensures
            final(self).wf(),
            final(self).same_config(*old(self)),
            final(self).queue@ == old(self).queue@,
            final(self).idx == old(self).idx,
            final(self).current_amount == old(self).current_amount,
            (r is None) == spec_mint_admitted(old(self).current_amount, *snapshot),
            match r {
                None => {
                    &&& final(self).phase is Transferring
                    &&& final(self).statuses@ == old(self).statuses@
                    &&& final(self).plan.spec_next() == 0
                    &&& final(self).plan.spec_receipts() == Seq::<u64>::empty()
                    &&& final(self).plan.step_views() == spec_mint_steps(
                        old(self).current_amount,
                        spec_minted_loan(old(self).current_amount, *snapshot) as u64,
                        old(self).box_account@,
                        old(self).balance_account@,
                    )
                },
                Some(e) => {
                    &&& final(self).phase is Finished
                    &&& status_views(final(self).statuses@) == status_views(
                        old(self).statuses@,
                    ).push(
                        crate::types::UtxoStatusV::Checked(
                            old(self).queue@[old(self).idx as int]@,
                        ),
                    )
                    &&& spec_mint_rejection(*snapshot, e)
                },
            },
    {
        match mint_plan(self.current_amount, snapshot, &self.box_account, &self.balance_account) {
            Ok(plan) => {
                proof {
                    assert(spec_mint_steps(
                        self.current_amount,
                        spec_minted_loan(self.current_amount, *snapshot) as u64,
                        self.box_account@,
                        self.balance_account@,
                    ).len() >= 1);
                }
                self.plan = plan;
                self.phase = UpdatePhase::Transferring;
                None
            },
            Err(e) => {
                let u = self.queue[self.idx].duplicate();
                let ghost pre = self.statuses@;
                self.statuses.push(UtxoStatus::Checked(u));
                self.phase = UpdatePhase::Finished;
                proof {
                    lemma_map_values_push(pre, self.statuses@.last(), |x: UtxoStatus| x@);
                    assert(pre.push(self.statuses@.last()) =~= self.statuses@);
                    assert(status_views(self.statuses@) =~= status_views(pre).push(
                        crate::types::UtxoStatusV::Checked(self.queue@[self.idx as int]@),
                    ));
                }
                Some(e)
            },
        }
    }

    /// The transfer the host must perform next for the current UTXO.
    pub fn pending_transfer(&self) -> (r: &TransferStep)
        requires
            self.wf(),
            self.phase is Transferring,
        ensures
            r@ == self.plan.step_views()[self.plan.spec_next()],
    {
        match self.plan.next_transfer() {
            Some(step) => step,
            None => vstd::pervasive::unreached(),
        }
    }

    /// Feeds back the outcome of the pending transfer. When every leg of the
    /// current UTXO settled, the outpoint is claimed with the collateral
    /// receipt and reported `Minted`. When a leg fails, the legs already
    /// settled stay recorded — the collateral claim is persisted with its
    /// receipt, nothing is rolled back — the UTXO is reported `Checked`, and
    /// the update aborts.
    pub fn on_transfer(&mut self, store: &mut UtxoLedgerState, outcome: TransferOutcome) -> (r:
        TransferStepResult)
        requires
            old(self).wf(),
            old(self).phase is Transferring,
            old(store).wf(),
            old(self).queue_inv(*old(store)),
        ensures
            final(self).wf(),
            final(store).wf(),
            final(self).same_config(*old(self)),
            final(self).queue_inv(*final(store)),
            final(self).queue@ == old(self).queue@,
            forall|a, o| final(store).spec_finalized(a, o) == old(store).spec_finalized(a, o),
            forall|o, rs|
                final(store).spec_ignored_with(o, rs) == old(store).spec_ignored_with(o, rs),
            (outcome matches TransferOutcome::Accepted(Some(_))) <==> !(r is Aborted),
            ({
                let u = old(self).queue@[old(self).idx as int]@;
                let steps = old(self).plan.step_views();
                let pos = old(self).plan.spec_next();
                match r {
                    TransferStepResult::InProgress => {
                        &&& outcome matches TransferOutcome::Accepted(Some(idx))
                        &&& final(self).phase is Transferring
                        &&& final(self).idx == old(self).idx
                        &&& final(self).statuses@ == old(self).statuses@
                        &&& *final(store) == *old(store)
                        &&& final(self).plan.spec_next() == pos + 1
                        &&& final(self).plan.step_views() == steps
                        &&& final(self).plan.spec_receipts() == old(
                            self,
                        ).plan.spec_receipts().push(outcome->Accepted_0->Some_0)
                    },
                    TransferStepResult::Claimed => {
                        &&& outcome matches TransferOutcome::Accepted(Some(idx))
                        &&& pos == steps.len() - 1
                        &&& final(self).phase is SelectingUtxo
                        &&& final(self).idx == old(self).idx + 1
                        &&& ({
                            let receipts = old(self).plan.spec_receipts().push(
                                outcome->Accepted_0->Some_0,
                            );
                            &&& final(store).spec_claimed_with(
                                u.outpoint,
                                old(self).box_account@,
                                Some(receipts[0]),
                                false,
                            )
                            &&& status_views(final(self).statuses@) == status_views(
                                old(self).statuses@,
                            ).push(
                                (crate::types::UtxoStatusV::Minted {
                                    block_index: receipts[0],
                                    minted_amount: old(self).current_amount,
                                    utxo: u,
                                }),
                            )
                        })
                        &&& forall|o|
                            o != u.outpoint ==> final(store).spec_recorded(o) == old(
                                store,
                            ).spec_recorded(o)
                    },
                    TransferStepResult::Aborted(e) => {
                        &&& spec_abort_matches(steps[pos], outcome, e)
                        &&& final(self).phase is Finished
                        &&& status_views(final(self).statuses@) == status_views(
                            old(self).statuses@,
                        ).push(crate::types::UtxoStatusV::Checked(u))
                        &&& (old(self).plan.spec_receipts().len() > 0 ==> final(store).spec_claimed_with(
                            u.outpoint,
                            old(self).box_account@,
                            Some(old(self).plan.spec_receipts()[0]),
                            false,
                        ))
                        &&& (old(self).plan.spec_receipts().len() == 0 ==> *final(store) == *old(
                            store,
                        ))
                    },
                }
            }),
    {
        let progress = self.plan.on_outcome(outcome);
        match progress {
            PlanProgress::Continue => TransferStepResult::InProgress,
            PlanProgress::Done => {
                let total = self.queue.len();
                let receipt0 = self.plan.receipts()[0];
                let u = self.queue[self.idx].duplicate();
                proof {
                    assert(!store.spec_recorded(self.queue@[self.idx as int]@.outpoint));
                }
                store.record_claim(
                    u.outpoint.duplicate(),
                    self.box_account.duplicate(),
                    Some(receipt0),
                    false,
                );
                let ghost pre = self.statuses@;
                self.statuses.push(
                    UtxoStatus::Minted {
                        block_index: receipt0,
                        minted_amount: self.current_amount,
                        utxo: u,
                    },
                );
                self.idx = self.idx + 1;
                self.phase = UpdatePhase::SelectingUtxo;
                proof {
                    lemma_map_values_push(pre, self.statuses@.last(), |x: UtxoStatus| x@);
                    assert(pre.push(self.statuses@.last()) =~= self.statuses@);
                    assert(status_views(self.statuses@) =~= status_views(pre).push(
                        (crate::types::UtxoStatusV::Minted {
                            block_index: receipt0,
                            minted_amount: self.current_amount,
                            utxo: self.queue@[self.idx - 1]@,
                        }),
                    ));
                    let target = self.queue@[self.idx - 1]@.outpoint;
                    assert forall|k: int|
                        self.idx <= k < self.queue@.len() implies !store.spec_recorded(
                        #[trigger] self.queue@[k]@.outpoint,
                    ) by {
                        assert(self.queue@[k]@.outpoint != target);
                    }
                }
                TransferStepResult::Claimed
            },
            PlanProgress::Failed(e) => {
                let has_receipts = self.plan.receipts().len() > 0;
                let u = self.queue[self.idx].duplicate();
                proof {
                    assert(!store.spec_recorded(self.queue@[self.idx as int]@.outpoint));
                }
                if has_receipts {
                    let receipt0 = self.plan.receipts()[0];
                    store.record_claim(
                        u.outpoint.duplicate(),
                        self.box_account.duplicate(),
                        Some(receipt0),
                        false,
                    );
                }
                let total = self.queue.len();
                let ghost pre = self.statuses@;
                self.statuses.push(UtxoStatus::Checked(u));
                self.phase = UpdatePhase::Finished;
                proof {
                    lemma_map_values_push(pre, self.statuses@.last(), |x: UtxoStatus| x@);
                    assert(pre.push(self.statuses@.last()) =~= self.statuses@);
                    assert(status_views(self.statuses@) =~= status_views(pre).push(
                        crate::types::UtxoStatusV::Checked(self.queue@[self.idx as int]@),
                    ));
                }
                self.idx = self.idx + 1;
                proof {
                    let target = self.queue@[self.idx - 1]@.outpoint;
                    assert forall|k: int|
                        self.idx <= k < self.queue@.len() implies !store.spec_recorded(
                        #[trigger] self.queue@[k]@.outpoint,
                    ) by {
                        assert(self.queue@[k]@.outpoint != target);
                    }
                }
                TransferStepResult::Aborted(e)
            },
        }
    }

    /// Closes the session on any exit path: releases the per-account guard
    /// and hands out the statuses collected so far. The host then signals its
    /// downstream reconciliation scheduler on the success path.
    pub fn release(self, guard: &mut GuardTable) -> (r: Vec<UtxoStatus>)
        requires
            old(guard).wf(),
        ensures
            final(guard).wf(),
            final(guard).spec_cap() == old(guard).spec_cap(),
            !final(guard).spec_holds(self.ssi_account@),
            forall|b|
                b != self.ssi_account@ ==> final(guard).spec_holds(b) == old(guard).spec_holds(b),
            r@ == self.statuses@,
    {
        guard.release(&self.ssi_account);
        self.statuses
    }
}

} // verus!
