//! Persisted dispositions of observed UTXOs, and the per-account set of
//! finalized outpoints.
//!
//! Once an outpoint is claimed or ignored it never again counts as new: this
//! is the sole double-mint defense, so the record is append-only and an
//! outpoint transitions away from unseen exactly once.

use vstd::prelude::*;

use crate::seqs::{lemma_filter_all_false, lemma_filter_push, lemma_map_values_push};
use crate::types::{Account, AccountV, Outpoint, OutpointV, Utxo, UtxoV, utxo_views};

verus! {

/// Why a UTXO was permanently excluded from minting.
#[derive(Clone, Copy, Debug, PartialEq, Eq)]
pub enum IgnoreReason {
    /// Too small to be economically worth processing.
    Dust,
    /// The value is shaped like a transfer inscription.
    InscriptionValue,
    /// Below the configured minimum deposit.
    BelowMinimum,
}

/// The processing disposition of an observed outpoint.
#[derive(Clone, Debug, PartialEq, Eq)]
pub enum Disposition {
    /// The deposit was realized on the ledgers.
    Claimed {
        /// The account the deposit was credited to.
        account: Account,
        /// Receipt (block index) of the ledger transfer, if one was recorded.
        receipt: Option<u64>,
        /// Whether the claim belongs to the secondary (runes) asset path.
        secondary: bool,
    },
    /// The UTXO must never be minted.
    Ignored { reason: IgnoreReason },
}

struct UtxoEntry {
    outpoint: Outpoint,
    disposition: Disposition,
}

/// Persisted record of which outpoints have been claimed or ignored, plus the
/// per-account finalized set.
pub struct UtxoLedgerState {
    entries: Vec<UtxoEntry>,
    finalized: Vec<(Account, Outpoint)>,
}

impl UtxoLedgerState {
    /// Each recorded outpoint appears at most once.
    pub closed spec fn wf(&self) -> bool {
        forall|i: int, j: int|
            0 <= i < j < self.entries@.len() ==> self.entries@[i].outpoint@ != self.entries@[j].outpoint@
    }

    /// Whether `o` has left the unseen state (was claimed or ignored).
    pub closed spec fn spec_recorded(&self, o: OutpointV) -> bool {
        exists|i: int| 0 <= i < self.entries@.len() && self.entries@[i].outpoint@ == o
    }

    /// Whether `o` was claimed with exactly this account, receipt and asset
    /// path.
    pub closed spec fn spec_claimed_with(
        &self,
        o: OutpointV,
        account: AccountV,
        receipt: Option<u64>,
        secondary: bool,
    ) -> bool {
        exists|i: int|
            {
                &&& 0 <= i < self.entries@.len()
                &&& self.entries@[i].outpoint@ == o
                &&& self.entries@[i].disposition matches Disposition::Claimed {
                    account: a,
                    receipt: r,
                    secondary: s,
                } && a@ == account && r == receipt && s == secondary
            }
    }

    /// Whether `o` was ignored for exactly this reason.
    pub closed spec fn spec_ignored_with(&self, o: OutpointV, reason: IgnoreReason) -> bool {
        exists|i: int|
            {
                &&& 0 <= i < self.entries@.len()
                &&& self.entries@[i].outpoint@ == o
                &&& self.entries@[i].disposition matches Disposition::Ignored { reason: r } && r
                    == reason
            }
    }

    /// Whether `o` is in the finalized set of `a`.
    pub closed spec fn spec_finalized(&self, a: AccountV, o: OutpointV) -> bool {
        exists|i: int|
            0 <= i < self.finalized@.len() && self.finalized@[i].0@ == a && self.finalized@[i].1@
                == o
    }

    /// The predicate a UTXO must meet to count as new: its outpoint is still
    /// unseen.
    pub open spec fn unseen_pred(self) -> spec_fn(UtxoV) -> bool {
        |u: UtxoV| !self.spec_recorded(u.outpoint)
    }

    /// The UTXOs of a scan that are still unseen, in scan order.
    pub open spec fn spec_new_utxos(self, observed: Seq<Utxo>) -> Seq<UtxoV> {
        utxo_views(observed).filter(self.unseen_pred())
    }

    /// Creates an empty store.
    pub fn new() -> (s: UtxoLedgerState)
        ensures
            s.wf(),
            forall|o: OutpointV| !s.spec_recorded(o),
            forall|a: AccountV, o: OutpointV| !s.spec_finalized(a, o),
    {
        UtxoLedgerState { entries: Vec::new(), finalized: Vec::new() }
    }

    /// Returns whether `outpoint` has already been claimed or ignored.
    pub fn is_recorded(&self, outpoint: &Outpoint) -> (r: bool)
        ensures
            r == self.spec_recorded(outpoint@),
    {
        let mut i: usize = 0;
        while i < self.entries.len()
            invariant
                i <= self.entries@.len(),
                forall|j: int| 0 <= j < i ==> self.entries@[j].outpoint@ != outpoint@,
            decreases self.entries@.len() - i,
        {
            if self.entries[i].outpoint.same_as(outpoint) {
                return true;
            }
            i = i + 1;
        }
        false
    }

    /// Returns the observed UTXOs whose outpoint is still unseen, preserving
    /// the order of the scan. Already claimed or ignored outpoints are
    /// excluded; this is what makes a balance update idempotent.
    pub fn new_utxos_for_account(&self, observed: &Vec<Utxo>, _account: &Account) -> (r: Vec<Utxo>)
        ensures
            utxo_views(r@) == self.spec_new_utxos(observed@),
    {
        let mut r: Vec<Utxo> = Vec::new();
        let mut i: usize = 0;
        proof {
            assert(utxo_views(observed@.subrange(0, 0)) =~= Seq::<UtxoV>::empty());
            assert(utxo_views(r@) =~= Seq::<UtxoV>::empty());
            lemma_filter_all_false(Seq::<UtxoV>::empty(), self.unseen_pred());
        }
        while i < observed.len()
            invariant
                i <= observed@.len(),
                utxo_views(r@) == utxo_views(observed@.subrange(0, i as int)).filter(
                    self.unseen_pred(),
                ),
            decreases observed@.len() - i,
        {
            let ghost prefix = utxo_views(observed@.subrange(0, i as int));
            let u = &observed[i];
            proof {
                assert(observed@.subrange(0, i + 1) =~= observed@.subrange(0, i as int).push(
                    observed@[i as int],
                ));
                lemma_map_values_push(
                    observed@.subrange(0, i as int),
                    observed@[i as int],
                    |x: Utxo| x@,
                );
                lemma_filter_push(prefix, observed@[i as int]@, self.unseen_pred());
            }
            if !self.is_recorded(&u.outpoint) {
                let dup = u.duplicate();
                let ghost rpre = utxo_views(r@);
                r.push(dup);
                proof {
                    lemma_map_values_push(r@.drop_last(), dup, |x: Utxo| x@);
                    assert(r@.drop_last() =~= r@.subrange(0, r@.len() - 1));
                    assert(r@.drop_last().push(dup) =~= r@);
                    assert(utxo_views(r@) =~= rpre.push(observed@[i as int]@));
                }
            }
            i = i + 1;
        }
        proof {
            assert(observed@.subrange(0, observed@.len() as int) =~= observed@);
        }
        r
    }

    /// Records that the deposit behind `outpoint` was realized on the ledger
    /// for `account`. Must be called only after the corresponding ledger
    /// transfer succeeded, and only for a still-unseen outpoint: an outpoint
    /// is claimed at most once.
    pub fn record_claim(
        &mut self,
        outpoint: Outpoint,
        account: Account,
        receipt: Option<u64>,
        secondary: bool,
    )
        requires
            old(self).wf(),
            !old(self).spec_recorded(outpoint@),
        ensures
            final(self).wf(),
            final(self).spec_claimed_with(outpoint@, account@, receipt, secondary),
            final(self).spec_recorded(outpoint@),
            forall|o: OutpointV|
                o != outpoint@ ==> final(self).spec_recorded(o) == old(self).spec_recorded(o),
            forall|o: OutpointV, a: AccountV, rc: Option<u64>, sec: bool|
                o != outpoint@ ==> final(self).spec_claimed_with(o, a, rc, sec) == old(
                    self,
                ).spec_claimed_with(o, a, rc, sec),
            forall|o: OutpointV, rs: IgnoreReason|
                final(self).spec_ignored_with(o, rs) == old(self).spec_ignored_with(o, rs),
            forall|a: AccountV, o: OutpointV|
                final(self).spec_finalized(a, o) == old(self).spec_finalized(a, o),
    {
        let ghost target = outpoint@;
        let entry = UtxoEntry {
            outpoint,
            disposition: Disposition::Claimed { account, receipt, secondary },
        };
        self.entries.push(entry);
        proof {
            self.lemma_push_frame(*old(self), target);
            assert forall|o: OutpointV, rs: IgnoreReason|
                self.spec_ignored_with(o, rs) == old(self).spec_ignored_with(o, rs) by {
                if o == target {
                    lemma_disposition_implies_recorded(old(self), o);
                    assert(!old(self).spec_ignored_with(o, rs));
                    if self.spec_ignored_with(o, rs) {
                        assert(self.entries@.last().disposition matches Disposition::Ignored {
                            ..
                        });
                    }
                }
            }
        }
    }

    /// Records that `outpoint` must never be minted, for the given reason.
    /// Only a still-unseen outpoint can be ignored: the disposition of an
    /// outpoint is decided at most once.
    pub fn ignore(&mut self, outpoint: Outpoint, reason: IgnoreReason)
        requires
            old(self).wf(),
            !old(self).spec_recorded(outpoint@),
        ensures
            final(self).wf(),
            final(self).spec_ignored_with(outpoint@, reason),
            final(self).spec_recorded(outpoint@),
            forall|o: OutpointV|
                o != outpoint@ ==> final(self).spec_recorded(o) == old(self).spec_recorded(o),
            forall|o: OutpointV, a: AccountV, rc: Option<u64>, sec: bool|
                final(self).spec_claimed_with(o, a, rc, sec) == old(self).spec_claimed_with(
                    o,
                    a,
                    rc,
                    sec,
                ),
            forall|o: OutpointV, rs: IgnoreReason|
                o != outpoint@ ==> final(self).spec_ignored_with(o, rs) == old(
                    self,
                ).spec_ignored_with(o, rs),
            forall|a: AccountV, o: OutpointV|
                final(self).spec_finalized(a, o) == old(self).spec_finalized(a, o),
    {
        let ghost target = outpoint@;
        let entry = UtxoEntry { outpoint, disposition: Disposition::Ignored { reason } };
        self.entries.push(entry);
        proof {
            self.lemma_push_frame(*old(self), target);
            assert forall|o: OutpointV, a: AccountV, rc: Option<u64>, sec: bool|
                self.spec_claimed_with(o, a, rc, sec) == old(self).spec_claimed_with(
                o,
                a,
                rc,
                sec,
            ) by {
                if o == target {
                    lemma_disposition_implies_recorded(old(self), o);
                    assert(!old(self).spec_claimed_with(o, a, rc, sec));
                    if self.spec_claimed_with(o, a, rc, sec) {
                        assert(self.entries@.last().disposition matches Disposition::Claimed {
                            ..
                        });
                    }
                }
            }
        }
    }

    /// After pushing one entry for `target` onto `pre`, every disposition
    /// fact about another outpoint is unchanged, and facts about `target`
    /// come from the new entry alone.
    proof fn lemma_push_frame(&self, pre: UtxoLedgerState, target: OutpointV)
        requires
            pre.wf(),
            !pre.spec_recorded(target),
            self.entries@.len() == pre.entries@.len() + 1,
            self.entries@.subrange(0, pre.entries@.len() as int) =~= pre.entries@,
            self.entries@.last().outpoint@ == target,
            self.finalized@ == pre.finalized@,
        ensures
            self.wf(),
            self.spec_recorded(target),
            forall|o: OutpointV| o != target ==> self.spec_recorded(o) == pre.spec_recorded(o),
            forall|o: OutpointV, a: AccountV, rc: Option<u64>, sec: bool|
                o != target ==> self.spec_claimed_with(o, a, rc, sec) == pre.spec_claimed_with(
                    o,
                    a,
                    rc,
                    sec,
                ),
            forall|o: OutpointV, rs: IgnoreReason|
                o != target ==> self.spec_ignored_with(o, rs) == pre.spec_ignored_with(o, rs),
            forall|a: AccountV, rc: Option<u64>, sec: bool|
                self.spec_claimed_with(target, a, rc, sec) ==> {
                    self.entries@.last().disposition matches Disposition::Claimed {
                        account: ax,
                        receipt: rx,
                        secondary: sx,
                    } && ax@ == a && rx == rc && sx == sec
                },
            forall|rs: IgnoreReason|
                self.spec_ignored_with(target, rs) ==> {
                    self.entries@.last().disposition matches Disposition::Ignored { reason: rx }
                        && rx == rs
                },
            forall|a: AccountV, o: OutpointV| self.spec_finalized(a, o) == pre.spec_finalized(a, o),
    {
        let n = pre.entries@.len() as int;
        assert(self.entries@[n].outpoint@ == target);
        assert forall|i: int| 0 <= i < n implies self.entries@[i] == pre.entries@[i] by {
            assert(self.entries@.subrange(0, n)[i] == self.entries@[i]);
        }
        assert(self.wf()) by {
            assert forall|i: int, j: int|
                0 <= i < j < self.entries@.len() implies self.entries@[i].outpoint@
                != self.entries@[j].outpoint@ by {
                if j < n {
                } else {
                    assert(j == n);
                    if self.entries@[i].outpoint@ == target {
                        assert(pre.spec_recorded(target));
                    }
                }
            }
        }
        assert forall|o: OutpointV| o != target && self.spec_recorded(o) implies pre.spec_recorded(
            o,
        ) by {
            let i = choose|i: int|
                0 <= i < self.entries@.len() && self.entries@[i].outpoint@ == o;
            assert(i < n);
            assert(pre.entries@[i].outpoint@ == o);
        }
        assert forall|o: OutpointV| o != target && pre.spec_recorded(o) implies self.spec_recorded(
            o,
        ) by {
            let i = choose|i: int| 0 <= i < pre.entries@.len() && pre.entries@[i].outpoint@ == o;
            assert(self.entries@[i].outpoint@ == o);
        }
        assert forall|o: OutpointV, a: AccountV, rc: Option<u64>, sec: bool|
            o != target && self.spec_claimed_with(o, a, rc, sec) implies pre.spec_claimed_with(
            o,
            a,
            rc,
            sec,
        ) by {
            let i = choose|i: int|
                {
                    &&& 0 <= i < self.entries@.len()
                    &&& self.entries@[i].outpoint@ == o
                    &&& self.entries@[i].disposition matches Disposition::Claimed {
                        account: ax,
                        receipt: rx,
                        secondary: sx,
                    } && ax@ == a && rx == rc && sx == sec
                };
            assert(i < n);
            assert(pre.entries@[i] == self.entries@[i]);
        }
        assert forall|o: OutpointV, a: AccountV, rc: Option<u64>, sec: bool|
            o != target && pre.spec_claimed_with(o, a, rc, sec) implies self.spec_claimed_with(
            o,
            a,
            rc,
            sec,
        ) by {
            let i = choose|i: int|
                {
                    &&& 0 <= i < pre.entries@.len()
                    &&& pre.entries@[i].outpoint@ == o
                    &&& pre.entries@[i].disposition matches Disposition::Claimed {
                        account: ax,
                        receipt: rx,
                        secondary: sx,
                    } && ax@ == a && rx == rc && sx == sec
                };
            assert(self.entries@[i] == pre.entries@[i]);
        }
        assert forall|o: OutpointV, rs: IgnoreReason|
            o != target && self.spec_ignored_with(o, rs) implies pre.spec_ignored_with(o, rs) by {
            let i = choose|i: int|
                {
                    &&& 0 <= i < self.entries@.len()
                    &&& self.entries@[i].outpoint@ == o
                    &&& self.entries@[i].disposition matches Disposition::Ignored { reason: rx }
                        && rx == rs
                };
            assert(i < n);
            assert(pre.entries@[i] == self.entries@[i]);
        }
        assert forall|o: OutpointV, rs: IgnoreReason|
            o != target && pre.spec_ignored_with(o, rs) implies self.spec_ignored_with(o, rs) by {
            let i = choose|i: int|
                {
                    &&& 0 <= i < pre.entries@.len()
                    &&& pre.entries@[i].outpoint@ == o
                    &&& pre.entries@[i].disposition matches Disposition::Ignored { reason: rx }
                        && rx == rs
                };
            assert(self.entries@[i] == pre.entries@[i]);
        }
        assert forall|a: AccountV, rc: Option<u64>, sec: bool|
            self.spec_claimed_with(target, a, rc, sec) implies {
            self.entries@.last().disposition matches Disposition::Claimed {
                account: ax,
                receipt: rx,
                secondary: sx,
            } && ax@ == a && rx == rc && sx == sec
        } by {
            let i = choose|i: int|
                {
                    &&& 0 <= i < self.entries@.len()
                    &&& self.entries@[i].outpoint@ == target
                    &&& self.entries@[i].disposition matches Disposition::Claimed {
                        account: ax,
                        receipt: rx,
                        secondary: sx,
                    } && ax@ == a && rx == rc && sx == sec
                };
            if i < n {
                assert(pre.entries@[i].outpoint@ == target);
                assert(pre.spec_recorded(target));
            }
        }
        assert forall|rs: IgnoreReason|
            self.spec_ignored_with(target, rs) implies {
            self.entries@.last().disposition matches Disposition::Ignored { reason: rx } && rx
                == rs
        } by {
            let i = choose|i: int|
                {
                    &&& 0 <= i < self.entries@.len()
                    &&& self.entries@[i].outpoint@ == target
                    &&& self.entries@[i].disposition matches Disposition::Ignored { reason: rx }
                        && rx == rs
                };
            if i < n {
                assert(pre.entries@[i].outpoint@ == target);
                assert(pre.spec_recorded(target));
            }
        }
    }

    /// Adds `outpoint` to the finalized set of `account`.
    pub fn finalize_mark(&mut self, account: Account, outpoint: Outpoint)
        requires
            old(self).wf(),
        ensures
            final(self).wf(),
            final(self).spec_finalized(account@, outpoint@),
            forall|a: AccountV, o: OutpointV|
                !(a == account@ && o == outpoint@) ==> final(self).spec_finalized(a, o) == old(
                    self,
                ).spec_finalized(a, o),
            forall|o: OutpointV| final(self).spec_recorded(o) == old(self).spec_recorded(o),
            forall|o: OutpointV, a: AccountV, rc: Option<u64>, sec: bool|
                final(self).spec_claimed_with(o, a, rc, sec) == old(self).spec_claimed_with(
                    o,
                    a,
                    rc,
                    sec,
                ),
            forall|o: OutpointV, rs: IgnoreReason|
                final(self).spec_ignored_with(o, rs) == old(self).spec_ignored_with(o, rs),
    {
        let ghost pre = self.finalized@;
        self.finalized.push((account, outpoint));
        proof {
            assert(self.finalized@[pre.len() as int].0@ == account@);
            assert(self.finalized@[pre.len() as int].1@ == outpoint@);
            assert forall|a: AccountV, o: OutpointV|
                !(a == account@ && o == outpoint@) && self.spec_finalized(a, o) implies old(
                self,
            ).spec_finalized(a, o) by {
                let i = choose|i: int|
                    0 <= i < self.finalized@.len() && self.finalized@[i].0@ == a
                        && self.finalized@[i].1@ == o;
                assert(i < pre.len());
                assert(old(self).finalized@[i].0@ == a && old(self).finalized@[i].1@ == o);
            }
            assert forall|a: AccountV, o: OutpointV|
                !(a == account@ && o == outpoint@) && old(self).spec_finalized(a, o)
                    implies self.spec_finalized(a, o) by {
                let i = choose|i: int|
                    0 <= i < old(self).finalized@.len() && old(self).finalized@[i].0@ == a && old(
                        self,
                    ).finalized@[i].1@ == o;
                assert(self.finalized@[i].0@ == a && self.finalized@[i].1@ == o);
            }
        }
    }

    /// Drops every finalized entry of `account`, so one stale pending
    /// transaction never blocks future deposits for the account. Called at
    /// the start of each new balance update, before dedup.
    pub fn finalize_clear(&mut self, account: &Account)
        requires
            old(self).wf(),
        ensures
            final(self).wf(),
            forall|o: OutpointV| !final(self).spec_finalized(account@, o),
            forall|a: AccountV, o: OutpointV|
                a != account@ ==> final(self).spec_finalized(a, o) == old(self).spec_finalized(
                    a,
                    o,
                ),
            forall|o: OutpointV| final(self).spec_recorded(o) == old(self).spec_recorded(o),
            forall|o: OutpointV, a: AccountV, rc: Option<u64>, sec: bool|
                final(self).spec_claimed_with(o, a, rc, sec) == old(self).spec_claimed_with(
                    o,
                    a,
                    rc,
                    sec,
                ),
            forall|o: OutpointV, rs: IgnoreReason|
                final(self).spec_ignored_with(o, rs) == old(self).spec_ignored_with(o, rs),
    {
        let mut kept: Vec<(Account, Outpoint)> = Vec::new();
        let mut i: usize = 0;
        let ghost pre = self.finalized@;
        while i < self.finalized.len()
            invariant
                i <= pre.len(),
                self.finalized@ == pre,
                forall|j: int|
                    0 <= j < kept@.len() ==> #[trigger] kept@[j].0@ != account@ && exists|k: int|
                        0 <= k < i && pre[k].0@ == kept@[j].0@ && pre[k].1@ == kept@[j].1@,
                forall|k: int|
                    0 <= k < i && #[trigger] pre[k].0@ != account@ ==> exists|j: int|
                        0 <= j < kept@.len() && kept@[j].0@ == pre[k].0@ && kept@[j].1@
                            == pre[k].1@,
            decreases pre.len() - i,
        {
            let same = self.finalized[i].0.same_as(account);
            if !same {
                let ghost kept_pre = kept@;
                let pair = (self.finalized[i].0.duplicate(), self.finalized[i].1.duplicate());
                kept.push(pair);
                proof {
                    let last = kept@.len() - 1;
                    assert(kept@[last].0@ == pre[i as int].0@);
                    assert(kept@[last].1@ == pre[i as int].1@);
                    assert forall|k: int|
                        0 <= k < i + 1 && #[trigger] pre[k].0@ != account@ implies exists|j: int|
                        0 <= j < kept@.len() && kept@[j].0@ == pre[k].0@ && kept@[j].1@
                            == pre[k].1@ by {
                        if k < i {
                            let j = choose|j: int|
                                0 <= j < kept_pre.len() && kept_pre[j].0@ == pre[k].0@
                                    && kept_pre[j].1@ == pre[k].1@;
                            assert(kept@[j].0@ == pre[k].0@ && kept@[j].1@ == pre[k].1@);
                        } else {
                            assert(kept@[last].0@ == pre[k].0@ && kept@[last].1@ == pre[k].1@);
                        }
                    }
                }
            }
            i = i + 1;
        }
        self.finalized = kept;
        proof {
            assert forall|o: OutpointV| !self.spec_finalized(account@, o) by {
                if self.spec_finalized(account@, o) {
                    let j = choose|j: int|
                        0 <= j < self.finalized@.len() && self.finalized@[j].0@ == account@
                            && self.finalized@[j].1@ == o;
                }
            }
            assert forall|a: AccountV, o: OutpointV|
                a != account@ && self.spec_finalized(a, o) implies old(self).spec_finalized(
                a,
                o,
            ) by {
                let j = choose|j: int|
                    0 <= j < self.finalized@.len() && self.finalized@[j].0@ == a
                        && self.finalized@[j].1@ == o;
                let k = choose|k: int|
                    0 <= k < pre.len() && pre[k].0@ == self.finalized@[j].0@ && pre[k].1@
                        == self.finalized@[j].1@;
                assert(old(self).finalized@[k].0@ == a && old(self).finalized@[k].1@ == o);
            }
            assert forall|a: AccountV, o: OutpointV|
                a != account@ && old(self).spec_finalized(a, o) implies self.spec_finalized(
                a,
                o,
            ) by {
                let k = choose|k: int|
                    0 <= k < pre.len() && pre[k].0@ == a && pre[k].1@ == o;
                let j = choose|j: int|
                    0 <= j < self.finalized@.len() && self.finalized@[j].0@ == pre[k].0@
                        && self.finalized@[j].1@ == pre[k].1@;
                assert(self.finalized@[j].0@ == a && self.finalized@[j].1@ == o);
            }
        }
    }
}

/// A claimed or ignored disposition implies the outpoint is recorded.
proof fn lemma_disposition_implies_recorded(s: &UtxoLedgerState, o: OutpointV)
    ensures
        forall|a: AccountV, rc: Option<u64>, sec: bool|
            #[trigger] s.spec_claimed_with(o, a, rc, sec) ==> s.spec_recorded(o),
        forall|rs: IgnoreReason| #[trigger] s.spec_ignored_with(o, rs) ==> s.spec_recorded(o),
{
    assert forall|a: AccountV, rc: Option<u64>, sec: bool|
        #[trigger] s.spec_claimed_with(o, a, rc, sec) implies s.spec_recorded(o) by {
        let i = choose|i: int|
            {
                &&& 0 <= i < s.entries@.len()
                &&& s.entries@[i].outpoint@ == o
                &&& s.entries@[i].disposition matches Disposition::Claimed {
                    account: ax,
                    receipt: rx,
                    secondary: sx,
                } && ax@ == a && rx == rc && sx == sec
            };
        assert(s.entries@[i].outpoint@ == o);
    }
    assert forall|rs: IgnoreReason| #[trigger] s.spec_ignored_with(o, rs) implies s.spec_recorded(
        o,
    ) by {
        let i = choose|i: int|
            {
                &&& 0 <= i < s.entries@.len()
                &&& s.entries@[i].outpoint@ == o
                &&& s.entries@[i].disposition matches Disposition::Ignored { reason: rx } && rx
                    == rs
            };
        assert(s.entries@[i].outpoint@ == o);
    }
}

/// Law: dedup idempotence. A scan in which every observed outpoint has
/// already been claimed or ignored yields no new UTXOs, so a repeated balance
/// update over the same oracle response mints nothing a second time.
pub proof fn lemma_dedup_idempotent(s: UtxoLedgerState, observed: Seq<Utxo>)
    requires
        forall|i: int| 0 <= i < observed.len() ==> s.spec_recorded(#[trigger] observed[i]@.outpoint),
    ensures
        s.spec_new_utxos(observed) == Seq::<UtxoV>::empty(),
{
    let views = utxo_views(observed);
    assert forall|i: int| 0 <= i < views.len() implies !(s.unseen_pred())(views[i]) by {
        assert(views[i] == observed[i]@);
    }
    lemma_filter_all_false(views, s.unseen_pred());
}

/// Law: a claimed or ignored outpoint never returns from a scan. Every UTXO
/// reported as new by `new_utxos_for_account` is still unseen; in particular
/// an outpoint that was claimed once can never be claimed again through the
/// scan path.
pub proof fn lemma_recorded_never_new(s: UtxoLedgerState, observed: Seq<Utxo>, i: int)
    requires
        0 <= i < s.spec_new_utxos(observed).len(),
    ensures
        !s.spec_recorded(s.spec_new_utxos(observed)[i].outpoint),
{
    broadcast use vstd::seq_lib::group_seq_lib_default;

    let views = utxo_views(observed);
    assert((s.unseen_pred())(s.spec_new_utxos(observed)[i]));
}

} // verus!
