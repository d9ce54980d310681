//! Per-account single-flight admission control.
//!
//! At most one balance update may be in flight per account, and a global cap
//! bounds how many accounts may be processing at once. There is no queueing:
//! a second caller for the same account fails immediately with
//! `AlreadyProcessing` rather than waiting.

use vstd::prelude::*;

use crate::errors::GuardError;
use crate::types::{Account, AccountV};

verus! {

/// The guard table: which accounts currently have a balance update in
/// flight, and the global concurrency cap.
pub struct GuardTable {
    in_flight: Vec<Account>,
    max_concurrent: usize,
}

impl GuardTable {
    /// Each in-flight account appears at most once.
    pub closed spec fn wf(&self) -> bool {
        forall|i: int, j: int|
            0 <= i < j < self.in_flight@.len() ==> self.in_flight@[i]@ != self.in_flight@[j]@
    }

    /// Whether a balance update for `a` is currently in flight.
    pub closed spec fn spec_holds(&self, a: AccountV) -> bool {
        exists|i: int| 0 <= i < self.in_flight@.len() && self.in_flight@[i]@ == a
    }

    /// Number of accounts currently processing.
    pub closed spec fn spec_in_flight(&self) -> nat {
        self.in_flight@.len()
    }

    /// The global cap on simultaneously processing accounts.
    pub closed spec fn spec_cap(&self) -> nat {
        self.max_concurrent as nat
    }

    /// Creates an empty guard table with the given global cap.
    pub fn new(max_concurrent: usize) -> (t: GuardTable)
        ensures
            t.wf(),
            t.spec_in_flight() == 0,
            t.spec_cap() == max_concurrent,
            forall|a: AccountV| !t.spec_holds(a),
    {
        GuardTable { in_flight: Vec::new(), max_concurrent }
    }

    /// Index of `a` in the in-flight list, if present.
    fn find(&self, account: &Account) -> (r: Option<usize>)
        ensures
            match r {
                Some(i) => i < self.in_flight@.len() && self.in_flight@[i as int]@ == account@,
                None => !self.spec_holds(account@),
            },
    {
        let mut i: usize = 0;
        while i < self.in_flight.len()
            invariant
                i <= self.in_flight@.len(),
                forall|j: int| 0 <= j < i ==> self.in_flight@[j]@ != account@,
            decreases self.in_flight@.len() - i,
        {
            if self.in_flight[i].same_as(account) {
                return Some(i);
            }
            i = i + 1;
        }
        None
    }

    /// Admits a balance update for `account`, or reports why it cannot run
    /// now: `AlreadyProcessing` exactly when an update for this account is in
    /// flight, `TooManyConcurrentRequests` exactly when the account is idle
    /// but the global cap is reached.
    pub fn acquire(&mut self, account: &Account) -> (r: Result<(), GuardError>)
        requires
            old(self).wf(),
        ensures
            final(self).wf(),
            final(self).spec_cap() == old(self).spec_cap(),
            match r {
                Ok(()) => spec_acquire_grants(*old(self), *final(self), account@),
                Err(GuardError::AlreadyProcessing) => old(self).spec_holds(account@) && *final(self)
                    == *old(self),
                Err(GuardError::TooManyConcurrentRequests) => !old(self).spec_holds(account@)
                    && old(self).spec_in_flight() >= old(self).spec_cap() && *final(self) == *old(
                    self,
                ),
            },
    {
        match self.find(account) {
            Some(_) => Err(GuardError::AlreadyProcessing),
            None => {
                if self.in_flight.len() >= self.max_concurrent {
                    Err(GuardError::TooManyConcurrentRequests)
                } else {
                    let ghost pre = self.in_flight@;
                    self.in_flight.push(account.duplicate());
                    proof {
                        let a = account@;
                        assert(self.in_flight@[pre.len() as int]@ == a);
                        assert(self.spec_holds(a));
                        assert forall|b: AccountV|
                            b != a && self.spec_holds(b) implies old(self).spec_holds(b) by {
                            let i = choose|i: int|
                                0 <= i < self.in_flight@.len() && self.in_flight@[i]@ == b;
                            assert(i < pre.len());
                            assert(old(self).in_flight@[i]@ == b);
                        }
                        assert forall|b: AccountV|
                            b != a && old(self).spec_holds(b) implies self.spec_holds(b) by {
                            let i = choose|i: int|
                                0 <= i < old(self).in_flight@.len() && old(self).in_flight@[i]@
                                    == b;
                            assert(self.in_flight@[i]@ == b);
                        }
                    }
                    Ok(())
                }
            },
        }
    }

    /// Releases the in-flight entry for `account`, if any. Called on every
    /// exit path of a balance update: success, error, or early return.
    pub fn release(&mut self, account: &Account)
        requires
            old(self).wf(),
        ensures
            final(self).wf(),
            final(self).spec_cap() == old(self).spec_cap(),
            !final(self).spec_holds(account@),
            forall|b: AccountV| b != account@ ==> final(self).spec_holds(b) == old(self).spec_holds(b),
            final(self).spec_in_flight() == if old(self).spec_holds(account@) {
                (old(self).spec_in_flight() - 1) as nat
            } else {
                old(self).spec_in_flight()
            },
    {
        match self.find(account) {
            Some(i) => {
                self.in_flight.remove(i);
                proof {
                    let a = account@;
                    assert forall|b: AccountV|
                        b != a && self.spec_holds(b) implies old(self).spec_holds(b) by {
                        let j = choose|j: int|
                            0 <= j < self.in_flight@.len() && self.in_flight@[j]@ == b;
                        if j < i {
                            assert(old(self).in_flight@[j]@ == b);
                        } else {
                            assert(old(self).in_flight@[j + 1]@ == b);
                        }
                    }
                    assert forall|b: AccountV|
                        b != a && old(self).spec_holds(b) implies self.spec_holds(b) by {
                        let j = choose|j: int|
                            0 <= j < old(self).in_flight@.len() && old(self).in_flight@[j]@ == b;
                        if j < i {
                            assert(self.in_flight@[j]@ == b);
                        } else {
                            assert(j != i);
                            assert(self.in_flight@[j - 1]@ == b);
                        }
                    }
                    assert(!self.spec_holds(a)) by {
                        if self.spec_holds(a) {
                            let j = choose|j: int|
                                0 <= j < self.in_flight@.len() && self.in_flight@[j]@ == a;
                            if j < i {
                                assert(old(self).in_flight@[j]@ == a && old(self).in_flight@[
                                    i as int]@ == a);
                            } else {
                                assert(old(self).in_flight@[j + 1]@ == a && old(
                                    self,
                                ).in_flight@[i as int]@ == a);
                            }
                        }
                    }
                }
            },
            None => {},
        }
    }
}

/// Membership of `a` in a snapshot of the in-flight list.
pub open spec fn pre_holds(entries: Seq<Account>, a: AccountV) -> bool {
    exists|i: int| 0 <= i < entries.len() && entries[i]@ == a
}

/// What a successful guard acquisition guarantees: the account was idle, the
/// cap had room, and afterwards exactly this account was added to the
/// in-flight set.
pub open spec fn spec_acquire_grants(pre: GuardTable, post: GuardTable, a: AccountV) -> bool {
    &&& !pre.spec_holds(a)
    &&& pre.spec_in_flight() < pre.spec_cap()
    &&& post.spec_holds(a)
    &&& post.spec_in_flight() == pre.spec_in_flight() + 1
    &&& forall|b: AccountV| b != a ==> post.spec_holds(b) == pre.spec_holds(b)
}

/// Law: guard exclusivity. Of two balance updates racing for the same
/// account, the one granted first leaves the account marked in flight, so the
/// other — by `acquire`'s contract — can only receive `AlreadyProcessing`
/// until the guard is released.
pub proof fn lemma_guard_exclusive(pre: GuardTable, post: GuardTable, a: AccountV)
    requires
        spec_acquire_grants(pre, post, a),
    ensures
        post.spec_holds(a),
{
}

} // verus!
