//! The secondary-asset (runes) balance paths: partitioning the minter's UTXOs
//! by their indexed runes balance, and the runes-minter balance update.

use vstd::prelude::*;
use vstd::string::{StringExecFns, StringSliceAdditionalSpecFns};

use crate::engine::{pending_report, spec_pending_views, pending_views, spec_total_value};
use crate::errors::UpdateBalanceError;
use crate::guard::{spec_acquire_grants, GuardTable};
use crate::orchestrator::{spec_abort_matches, PlanProgress, TransferOutcome, TransferPlan, TransferStep};
use crate::seqs::{lemma_filter_distinct_keys, lemma_filter_subset, lemma_map_values_push};
use crate::store::UtxoLedgerState;
use crate::transfers::{count_runes_minter_plan, nonce_account, spec_count_runes_step, spec_nonce_account};
use crate::types::{status_views, utxo_views, Account, Utxo, UtxoStatus, UtxoV};

verus! {

/// Walks the runes-minter UTXOs one by one, asking the indexer for each one's
/// runes balance, and partitions them: UTXOs holding no runes keep their
/// satoshi value; UTXOs holding runes are re-valued at their runes amount.
pub struct RunesScan {
    /// The UTXOs to classify, in oracle order.
    pub queue: Vec<Utxo>,
    /// Index of the next UTXO awaiting its indexer reply.
    pub pos: usize,
    /// UTXOs with no runes balance, at their satoshi value.
    pub sats: Vec<Utxo>,
    /// UTXOs holding runes, re-valued at the indexed amount.
    pub runes: Vec<Utxo>,
}

impl RunesScan {
    /// Starts a scan over the oracle's UTXOs.
    pub fn new(utxos: Vec<Utxo>) -> (r: RunesScan)
        ensures
            r.queue@ == utxos@,
            r.pos == 0,
            r.sats@.len() == 0,
            r.runes@.len() == 0,
    {
        RunesScan { queue: utxos, pos: 0, sats: Vec::new(), runes: Vec::new() }
    }

    /// The UTXO whose runes balance the host must ask the indexer for next,
    /// or `None` when the scan is complete.
    pub fn next_query(&self) -> (r: Option<&Utxo>)
        ensures
            match r {
                Some(u) => self.pos < self.queue@.len() && u@ == self.queue@[self.pos as int]@,
                None => self.pos >= self.queue@.len(),
            },
    {
        if self.pos < self.queue.len() {
            Some(&self.queue[self.pos])
        } else {
            None
        }
    }

    /// Feeds in the indexed runes balance of the pending UTXO: zero sends the
    /// UTXO to the satoshi list unchanged, anything else sends it to the
    /// runes list re-valued at the indexed amount.
    pub fn on_balance(&mut self, amount: u64)
        requires
            old(self).pos < old(self).queue@.len(),
        ensures
            final(self).queue@ == old(self).queue@,
            final(self).pos == old(self).pos + 1,
            ({
                let u = old(self).queue@[old(self).pos as int]@;
                if amount == 0 {
                    &&& utxo_views(final(self).sats@) == utxo_views(old(self).sats@).push(u)
                    &&& final(self).runes@ == old(self).runes@
                } else {
                    &&& final(self).sats@ == old(self).sats@
                    &&& utxo_views(final(self).runes@) == utxo_views(old(self).runes@).push(
                        (UtxoV { outpoint: u.outpoint, value: amount, height: u.height }),
                    )
                }
            }),
    {
        let total = self.queue.len();
        let u = self.queue[self.pos].duplicate();
        if amount == 0 {
            let ghost pre = self.sats@;
            self.sats.push(u);
            proof {
                lemma_map_values_push(pre, self.sats@.last(), |x: Utxo| x@);
                assert(pre.push(self.sats@.last()) =~= self.sats@);
                assert(utxo_views(self.sats@) =~= utxo_views(pre).push(
                    self.queue@[self.pos as int]@,
                ));
            }
        } else {
            let revalued = Utxo { outpoint: u.outpoint, value: amount, height: u.height };
            let ghost pre = self.runes@;
            self.runes.push(revalued);
            proof {
                lemma_map_values_push(pre, self.runes@.last(), |x: Utxo| x@);
                assert(pre.push(self.runes@.last()) =~= self.runes@);
                let uv = self.queue@[self.pos as int]@;
                assert(utxo_views(self.runes@) =~= utxo_views(pre).push(
                    (UtxoV { outpoint: uv.outpoint, value: amount, height: uv.height }),
                ));
            }
        }
        self.pos = self.pos + 1;
    }

    /// Hands out the two lists once every UTXO is classified.
    pub fn finish(self) -> (r: (Vec<Utxo>, Vec<Utxo>))
        requires
            self.pos >= self.queue@.len(),
        ensures
            r.0@ == self.sats@,
            r.1@ == self.runes@,
    {
        (self.sats, self.runes)
    }
}

/// Where the runes-minter balance update stands.
#[derive(Clone, Copy, Debug, PartialEq, Eq)]
pub enum RunesPhase {
    /// Deciding the next UTXO to count.
    Processing,
    /// No new satoshi deposit; awaiting the scan backing the pending report.
    AwaitingPending,
    /// Driving the counting transfer of the current UTXO.
    Transferring,
    /// The update is over; the host releases the guard.
    Finished,
}

/// One in-flight balance update of the minter's own runes accounts: new
/// satoshi UTXOs are counted onto the runes-minter account, new runes UTXOs
/// onto the runes ledger account, each claimed exactly once.
pub struct RunesUpdateSession {
    /// Where the update stands.
    pub phase: RunesPhase,
    /// Binary identity of the minter.
    pub minter: Vec<u8>,
    /// The treasury address whose nonces derive the accounts.
    pub treasury: String,
    /// The guarded runes-minter account (derivation nonce 1).
    pub minter_account: Account,
    /// The runes ledger account (derivation nonce 4).
    pub ledger_account: Account,
    /// Confirmations a UTXO needs to be accepted.
    pub min_confirmations: u32,
    /// The new UTXOs of this scan: satoshi entries first, runes entries after
    /// `secondary_from`.
    pub queue: Vec<Utxo>,
    /// First index of the runes (secondary-asset) entries.
    pub secondary_from: usize,
    /// Index of the next queue entry to process.
    pub idx: usize,
    /// Outcome reported for each processed UTXO.
    pub statuses: Vec<UtxoStatus>,
    /// The counting transfer of the current UTXO.
    pub plan: TransferPlan,
}

impl RunesUpdateSession {
    /// The UTF-8 bytes of the treasury address.
    pub open spec fn treasury_bytes(self) -> Seq<u8> {
        vstd::utf8::encode_utf8(self.treasury@)
    }

    /// Internal consistency of a session.
    pub open spec fn wf(self) -> bool {
        &&& 1 <= self.min_confirmations
        &&& self.idx <= self.queue@.len()
        &&& self.secondary_from <= self.queue@.len()
        &&& self.minter_account@ == spec_nonce_account(
            self.minter@,
            self.treasury_bytes(),
            Some(1),
        )
        &&& self.ledger_account@ == spec_nonce_account(
            self.minter@,
            self.treasury_bytes(),
            Some(4),
        )
        &&& (self.phase is Transferring ==> {
            &&& self.idx < self.queue@.len()
            &&& self.plan.wf()
            &&& self.plan.step_views().len() == 1
            &&& self.plan.spec_next() == 0
        })
    }

    /// The scanned UTXOs not yet processed are unseen and pairwise distinct.
    pub open spec fn queue_inv(self, store: UtxoLedgerState) -> bool {
        &&& forall|k: int|
            self.idx <= k < self.queue@.len() ==> !store.spec_recorded(
                #[trigger] self.queue@[k]@.outpoint,
            )
        &&& forall|k: int, l: int|
            self.idx <= k < l < self.queue@.len() ==> self.queue@[k]@.outpoint
                != self.queue@[l]@.outpoint
    }

    /// Opens a runes-minter balance update: derives the accounts from the
    /// treasury address, acquires the guard for the runes-minter account,
    /// deduplicates both scans against the store and clears the account's
    /// stale finalized entries. Returns the session and whether any new
    /// satoshi deposit value was found; when none was, the session awaits the
    /// scan backing the pending report.
    pub fn begin(
        minter: &Vec<u8>,
        treasury: &str,
        min_confirmations: u32,
        sats_observed: &Vec<Utxo>,
        runes_observed: &Vec<Utxo>,
        store: &mut UtxoLedgerState,
        guard: &mut GuardTable,
    ) -> (r: Result<(RunesUpdateSession, bool), UpdateBalanceError>)
        requires
            old(guard).wf(),
            old(store).wf(),
            1 <= min_confirmations,
            forall|i: int, j: int|
                0 <= i < j < sats_observed@.len() ==> sats_observed@[i]@.outpoint
                    != sats_observed@[j]@.outpoint,
            forall|i: int, j: int|
                0 <= i < j < runes_observed@.len() ==> runes_observed@[i]@.outpoint
                    != runes_observed@[j]@.outpoint,
            forall|i: int, j: int|
                #![trigger sats_observed@[i]@.outpoint, runes_observed@[j]@.outpoint]
                0 <= i < sats_observed@.len() && 0 <= j < runes_observed@.len()
                    ==> sats_observed@[i]@.outpoint != runes_observed@[j]@.outpoint,
        ensures
            final(guard).wf(),
            final(store).wf(),
            match r {
                Ok((s, have)) => {
                    &&& spec_acquire_grants(
                        *old(guard),
                        *final(guard),
                        spec_nonce_account(
                            minter@,
                            vstd::utf8::encode_utf8(treasury@),
                            Some(1),
                        ),
                    )
                    &&& s.wf()
                    &&& s.queue_inv(*final(store))
                    &&& s.min_confirmations == min_confirmations
                    &&& s.statuses@.len() == 0
                    &&& s.idx == 0
                    &&& utxo_views(s.queue@) == old(store).spec_new_utxos(sats_observed@) + old(
                        store,
                    ).spec_new_utxos(runes_observed@)
                    &&& s.secondary_from == old(store).spec_new_utxos(sats_observed@).len()
                    &&& have == (spec_total_value(old(store).spec_new_utxos(sats_observed@)) != 0)
                    &&& (have ==> s.phase is Processing)
                    &&& (!have ==> s.phase is AwaitingPending)
                    &&& forall|o| final(store).spec_recorded(o) == old(store).spec_recorded(o)
                },
                Err(e) => {
                    &&& *final(guard) == *old(guard)
                    &&& *final(store) == *old(store)
                    &&& {
                        let account = spec_nonce_account(
                            minter@,
                            vstd::utf8::encode_utf8(treasury@),
                            Some(1),
                        );
                        if old(guard).spec_holds(account) {
                            e == UpdateBalanceError::AlreadyProcessing
                        } else {
                            &&& old(guard).spec_in_flight() >= old(guard).spec_cap()
                            &&& e matches UpdateBalanceError::TemporarilyUnavailable(m) && m@
                                == "too many concurrent requests"@
                        }
                    }
                },
            },
    {
        let minter_account = nonce_account(minter, treasury, Some(1));
        match guard.acquire(&minter_account) {
            Ok(()) => {},
            Err(e) => {
                return Err(UpdateBalanceError::from_guard_error(e));
            },
        }
        let new_sats = store.new_utxos_for_account(sats_observed, &minter_account);
        let new_runes = store.new_utxos_for_account(runes_observed, &minter_account);
        store.finalize_clear(&minter_account);
        let secondary_from = new_sats.len();
        let mut total: u128 = 0;
        let mut i: usize = 0;
        proof {
            assert(utxo_views(new_sats@).subrange(0, 0) =~= Seq::<UtxoV>::empty());
        }
        while i < new_sats.len()
            invariant
                i <= new_sats@.len(),
                utxo_views(new_sats@).len() == new_sats@.len(),
                total == spec_total_value(utxo_views(new_sats@).subrange(0, i as int)),
                total <= (i as int) * (u64::MAX as int),
            decreases new_sats@.len() - i,
        {
            let ghost prefix = utxo_views(new_sats@).subrange(0, i as int);
            proof {
                assert(utxo_views(new_sats@).subrange(0, i + 1).drop_last() =~= prefix);
                assert(utxo_views(new_sats@).subrange(0, i + 1).last() == new_sats@[i as int]@);
                assert((i as int) * (u64::MAX as int) + (u64::MAX as int) == (i + 1) * (
                u64::MAX as int)) by (nonlinear_arith);
                assert((i + 1) * (u64::MAX as int) <= (u64::MAX as int) * (u64::MAX as int))
                    by (nonlinear_arith)
                    requires
                        0 <= i + 1 <= u64::MAX,
                ;
            }
            total = total + (new_sats[i].value as u128);
            i = i + 1;
        }
        proof {
            assert(utxo_views(new_sats@).subrange(0, new_sats@.len() as int) =~= utxo_views(
                new_sats@,
            ));
        }
        let have = total != 0;
        let mut queue = new_sats;
        let mut tail = new_runes;
        let ghost sats_part = queue@;
        let ghost runes_part = tail@;
        queue.append(&mut tail);
        proof {
            let key = |u: UtxoV| u.outpoint;
            let sv = utxo_views(sats_observed@);
            let rv = utxo_views(runes_observed@);
            assert forall|a: int, b: int| 0 <= a < b < sv.len() implies key(sv[a]) != key(
                sv[b],
            ) by {
                assert(sv[a] == sats_observed@[a]@ && sv[b] == sats_observed@[b]@);
            }
            assert forall|a: int, b: int| 0 <= a < b < rv.len() implies key(rv[a]) != key(
                rv[b],
            ) by {
                assert(rv[a] == runes_observed@[a]@ && rv[b] == runes_observed@[b]@);
            }
            lemma_filter_distinct_keys(sv, old(store).unseen_pred(), key);
            lemma_filter_distinct_keys(rv, old(store).unseen_pred(), key);
            let fs = old(store).spec_new_utxos(sats_observed@);
            let fr = old(store).spec_new_utxos(runes_observed@);
            assert(utxo_views(queue@) =~= fs + fr);
            fs.filter_lemma(old(store).unseen_pred());
            fr.filter_lemma(old(store).unseen_pred());
            assert forall|k: int| 0 <= k < queue@.len() implies !store.spec_recorded(
                #[trigger] queue@[k]@.outpoint,
            ) by {
                assert(utxo_views(queue@)[k] == queue@[k]@);
                if k < fs.len() {
                    assert((old(store).unseen_pred())(fs[k]));
                } else {
                    assert((old(store).unseen_pred())(fr[k - fs.len()]));
                }
            }
            assert forall|k: int, l: int|
                0 <= k < l < queue@.len() implies queue@[k]@.outpoint
                != queue@[l]@.outpoint by {
                let qk = utxo_views(queue@)[k];
                let ql = utxo_views(queue@)[l];
                if k < fs.len() && l < fs.len() {
                    assert(key(fs[k]) != key(fs[l]));
                } else if k >= fs.len() && l >= fs.len() {
                    assert(key(fr[k - fs.len()]) != key(fr[l - fs.len()]));
                } else {
                    lemma_filter_subset(sv, old(store).unseen_pred(), k);
                    lemma_filter_subset(rv, old(store).unseen_pred(), l - fs.len());
                    let a = choose|a: int| 0 <= a < sv.len() && sv[a] == fs[k];
                    let b = choose|b: int| 0 <= b < rv.len() && rv[b] == fr[l - fs.len()];
                    assert(sats_observed@[a]@.outpoint != runes_observed@[b]@.outpoint);
                }
            }
        }
        let session = RunesUpdateSession {
            phase: if have {
                RunesPhase::Processing
            } else {
                RunesPhase::AwaitingPending
            },
            minter: minter.clone(),
            treasury: String::from_str(treasury),
            minter_account,
            ledger_account: nonce_account(minter, treasury, Some(4)),
            min_confirmations,
            queue,
            secondary_from,
            idx: 0,
            statuses: Vec::new(),
            plan: TransferPlan::new(Vec::new()),
        };
        proof {
            assert(treasury.spec_bytes() == vstd::utf8::encode_utf8(treasury@));
        }
        Ok((session, have))
    }

    /// Feeds in the scan backing the pending report and closes the update
    /// with the informational `NoNewUtxos` report.
    pub fn on_pending_utxos(&mut self, tip_height: u32, utxos: &Vec<Utxo>) -> (e:
        UpdateBalanceError)
        requires
            old(self).wf(),
            old(self).phase is AwaitingPending,
            forall|i: int|
                0 <= i < utxos@.len() ==> (#[trigger] utxos@[i]@.height) <= tip_height
                    && utxos@[i]@.height + old(self).min_confirmations <= u32::MAX,
        ensures
            final(self).wf(),
            final(self).phase is Finished,
            final(self).minter_account@ == old(self).minter_account@,
            e matches UpdateBalanceError::NoNewUtxos {
                current_confirmations,
                required_confirmations,
                pending_utxos,
            } && {
                let pending = spec_pending_views(
                    tip_height,
                    utxos@,
                    old(self).min_confirmations,
                );
                &&& required_confirmations == old(self).min_confirmations
                &&& pending_utxos matches Some(p) && pending_views(p@) == pending
            },
    {
        self.phase = RunesPhase::Finished;
        pending_report(tip_height, utxos, self.min_confirmations)
    }

    /// Decides the next counting transfer: satoshi entries are counted onto
    /// the runes-minter account, runes entries onto the runes ledger account.
    /// Returns whether a transfer is pending; when the queue is exhausted the
    /// update is complete.
    pub fn next_count(&mut self) -> (r: bool)
        requires
            old(self).wf(),
            old(self).phase is Processing,
        ensures
            final(self).wf(),
            final(self).minter_account@ == old(self).minter_account@,
            final(self).ledger_account@ == old(self).ledger_account@,
            final(self).queue@ == old(self).queue@,
            final(self).secondary_from == old(self).secondary_from,
            final(self).idx == old(self).idx,
            final(self).statuses@ == old(self).statuses@,
            if old(self).idx == old(self).queue@.len() {
                !r && final(self).phase is Finished
            } else {
                &&& r
                &&& final(self).phase is Transferring
                &&& final(self).plan.spec_receipts() == Seq::<u64>::empty()
                &&& final(self).plan.step_views() == seq![
                    spec_count_runes_step(
                        old(self).queue@[old(self).idx as int]@.value,
                        if old(self).idx < old(self).secondary_from {
                            old(self).minter_account@
                        } else {
                            old(self).ledger_account@
                        },
                    ),
                ]
            },
    {
        if self.idx == self.queue.len() {
            self.phase = RunesPhase::Finished;
            return false;
        }
        let value = self.queue[self.idx].value;
        let plan = if self.idx < self.secondary_from {
            count_runes_minter_plan(value, &self.minter_account)
        } else {
            count_runes_minter_plan(value, &self.ledger_account)
        };
        self.plan = plan;
        self.phase = RunesPhase::Transferring;
        true
    }

    /// The counting transfer the host must perform next.
    pub fn pending_transfer(&self) -> (r: &TransferStep)
        requires
            self.wf(),
            self.phase is Transferring,
        ensures
            r@ == self.plan.step_views()[0],
    {
        match self.plan.next_transfer() {
            Some(step) => step,
            None => vstd::pervasive::unreached(),
        }
    }

    /// Feeds back the outcome of the pending counting transfer. A settled
    /// transfer claims the UTXO — under the runes-minter account, marked as
    /// secondary for runes entries — and reports it `Read`; a failed transfer
    /// reports it `Checked` and aborts the update.
    pub fn on_transfer(&mut self, store: &mut UtxoLedgerState, outcome: TransferOutcome) -> (r:
        Result<bool, UpdateBalanceError>)
        requires
            old(self).wf(),
            old(self).phase is Transferring,
            old(store).wf(),
            old(self).queue_inv(*old(store)),
        ensures
            final(self).wf(),
            final(store).wf(),
            final(self).queue_inv(*final(store)),
            final(self).minter_account@ == old(self).minter_account@,
            final(self).idx == old(self).idx + 1,
            (outcome matches TransferOutcome::Accepted(Some(_))) <==> (r is Ok),
            ({
                let u = old(self).queue@[old(self).idx as int]@;
                match r {
                    Ok(claimed) => {
                        &&& claimed
                        &&& outcome matches TransferOutcome::Accepted(Some(idx))
                        &&& final(self).phase is Processing
                        &&& final(store).spec_claimed_with(
                            u.outpoint,
                            old(self).minter_account@,
                            Some(outcome->Accepted_0->Some_0),
                            old(self).idx >= old(self).secondary_from,
                        )
                        &&& status_views(final(self).statuses@) == status_views(
                            old(self).statuses@,
                        ).push(crate::types::UtxoStatusV::Read(u))
                        &&& forall|o|
                            o != u.outpoint ==> final(store).spec_recorded(o) == old(
                                store,
                            ).spec_recorded(o)
                    },
                    Err(e) => {
                        &&& spec_abort_matches(old(self).plan.step_views()[0], outcome, e)
                        &&& final(self).phase is Finished
                        &&& *final(store) == *old(store)
                        &&& status_views(final(self).statuses@) == status_views(
                            old(self).statuses@,
                        ).push(crate::types::UtxoStatusV::Checked(u))
                    },
                }
            }),
    {
        let ghost out_snap = outcome;
        let progress = self.plan.on_outcome(outcome);
        match progress {
            PlanProgress::Continue => vstd::pervasive::unreached(),
            PlanProgress::Done => {
                let total = self.queue.len();
                let receipt0 = self.plan.receipts()[0];
                proof {
                    old(self).plan.lemma_wf_receipts();
                    assert(old(self).plan.spec_receipts().len() == 0);
                    assert(self.plan.spec_receipts() == old(self).plan.spec_receipts().push(
                        out_snap->Accepted_0->Some_0,
                    ));
                    assert(receipt0 == out_snap->Accepted_0->Some_0);
                }
                let u = self.queue[self.idx].duplicate();
                proof {
                    assert(!store.spec_recorded(self.queue@[self.idx as int]@.outpoint));
                }
                let secondary = self.idx >= self.secondary_from;
                store.record_claim(
                    u.outpoint.duplicate(),
                    self.minter_account.duplicate(),
                    Some(receipt0),
                    secondary,
                );
                let ghost pre = self.statuses@;
                self.statuses.push(UtxoStatus::Read(u));
                self.idx = self.idx + 1;
                self.phase = RunesPhase::Processing;
                proof {
                    lemma_map_values_push(pre, self.statuses@.last(), |x: UtxoStatus| x@);
                    assert(pre.push(self.statuses@.last()) =~= self.statuses@);
                    assert(status_views(self.statuses@) =~= status_views(pre).push(
                        crate::types::UtxoStatusV::Read(self.queue@[self.idx - 1]@),
                    ));
                    let target = self.queue@[self.idx - 1]@.outpoint;
                    assert forall|k: int|
                        self.idx <= k < self.queue@.len() implies !store.spec_recorded(
                        #[trigger] self.queue@[k]@.outpoint,
                    ) by {
                        assert(self.queue@[k]@.outpoint != target);
                    }
                }
                Ok(true)
            },
            PlanProgress::Failed(e) => {
                let total = self.queue.len();
                let u = self.queue[self.idx].duplicate();
                let ghost pre = self.statuses@;
                self.statuses.push(UtxoStatus::Checked(u));
                self.phase = RunesPhase::Finished;
                self.idx = self.idx + 1;
                proof {
                    lemma_map_values_push(pre, self.statuses@.last(), |x: UtxoStatus| x@);
                    assert(pre.push(self.statuses@.last()) =~= self.statuses@);
                    assert(status_views(self.statuses@) =~= status_views(pre).push(
                        crate::types::UtxoStatusV::Checked(self.queue@[self.idx - 1]@),
                    ));
                }
                Err(e)
            },
        }
    }

    /// Closes the session on any exit path: releases the guard and hands out
    /// the statuses collected so far. The host then signals its downstream
    /// reconciliation scheduler on the success path.
    pub fn release(self, guard: &mut GuardTable) -> (r: Vec<UtxoStatus>)
        requires
            old(guard).wf(),
        ensures
            final(guard).wf(),
            !final(guard).spec_holds(self.minter_account@),
            forall|b|
                b != self.minter_account@ ==> final(guard).spec_holds(b) == old(guard).spec_holds(
                    b,
                ),
            r@ == self.statuses@,
    {
        guard.release(&self.minter_account);
        self.statuses
    }
}

} // verus!
