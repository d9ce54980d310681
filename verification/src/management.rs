//! Decisions of the collaborator-call layer: call budgets, the paginated
//! UTXO-oracle scan, provenance-check classification, and conversion of raw
//! ledger receipts.

use vstd::prelude::*;
use vstd::string::StringExecFns;

use crate::bytes::{spec_dec_str, u64_to_dec};
use crate::errors::{CallError, KytError, Reason, UpdateBalanceError};
use crate::types::{Network, Outpoint, OutpointV, Utxo};

verus! {

/// Cycles attached to one UTXO-oracle query, by network.
pub fn get_utxos_cost_cycles(network: Network) -> (c: u64)
    ensures
        c == match network {
            Network::Mainnet => 10_000_000_000u64,
            Network::Testnet | Network::Regtest => 4_000_000_000u64,
        },
{
    match network {
        Network::Mainnet => 10_000_000_000,
        Network::Testnet | Network::Regtest => 4_000_000_000,
    }
}

/// Cycles attached to one fee-percentile query, by network.
pub fn get_current_fees_cost_cycles(network: Network) -> (c: u64)
    ensures
        c == match network {
            Network::Mainnet => 100_000_000u64,
            Network::Testnet => 40_000_000u64,
            Network::Regtest => 0u64,
        },
{
    match network {
        Network::Mainnet => 100_000_000,
        Network::Testnet => 40_000_000,
        Network::Regtest => 0,
    }
}

/// Cycles attached to one threshold-signature request.
pub const CYCLES_PER_SIGNATURE: u64 = 30_000_000_000;

/// Cycles attached to one exchange-rate request.
pub const EXCHANGE_RATE_CYCLES: u64 = 10_000_000_000;

/// Admits an outgoing call that must attach `payment` cycles: the call may
/// only be made when the current balance covers the payment, otherwise it
/// fails as out of cycles on behalf of `method`.
pub fn admit_payment(method: &str, balance: u128, payment: u64) -> (r: Result<(), CallError>)
    ensures
        match r {
            Ok(()) => balance >= payment as u128,
            Err(e) => {
                &&& balance < payment as u128
                &&& e.spec_method() == method@
                &&& e.spec_reason() == Reason::OutOfCycles
            },
        },
{
    if balance < payment as u128 {
        Err(CallError::new(String::from_str(method), Reason::OutOfCycles))
    } else {
        Ok(())
    }
}

/// One page of the UTXO oracle's reply.
pub struct UtxosPage {
    /// The UTXOs of this page.
    pub utxos: Vec<Utxo>,
    /// Height of the chain tip the oracle observed.
    pub tip_height: u32,
    /// Token of the next page, when the reply is not complete.
    pub next_page: Option<Vec<u8>>,
}

/// Accumulates the paginated UTXO-oracle scan: the host keeps querying with
/// the returned page token until the oracle reports no further page, and the
/// scan then holds every UTXO of the full reply, in reply order.
pub struct UtxosScan {
    utxos: Vec<Utxo>,
    tip_height: u32,
    complete: bool,
}

impl UtxosScan {
    /// The UTXOs accumulated so far.
    pub closed spec fn spec_utxos(&self) -> Seq<Utxo> {
        self.utxos@
    }

    /// The tip height of the last page.
    pub closed spec fn spec_tip_height(&self) -> u32 {
        self.tip_height
    }

    /// Whether the last page was final.
    pub closed spec fn spec_complete(&self) -> bool {
        self.complete
    }

    /// Starts an empty scan.
    pub fn new() -> (s: UtxosScan)
        ensures
            s.spec_utxos() == Seq::<Utxo>::empty(),
            !s.spec_complete(),
    {
        let s = UtxosScan { utxos: Vec::new(), tip_height: 0, complete: false };
        proof {
            assert(s.spec_utxos() =~= Seq::<Utxo>::empty());
        }
        s
    }

    /// Feeds in one oracle page; returns the next page token to query with,
    /// or `None` when the scan is complete.
    pub fn on_page(&mut self, page: UtxosPage) -> (r: Option<Vec<u8>>)
        requires
            !old(self).spec_complete(),
        ensures
            final(self).spec_utxos() == old(self).spec_utxos() + page.utxos@,
            final(self).spec_tip_height() == page.tip_height,
            match r {
                Some(token) => {
                    &&& !final(self).spec_complete()
                    &&& page.next_page matches Some(t) && t@ == token@
                },
                None => final(self).spec_complete() && page.next_page is None,
            },
    {
        let UtxosPage { mut utxos, tip_height, next_page } = page;
        self.utxos.append(&mut utxos);
        self.tip_height = tip_height;
        match next_page {
            Some(token) => Some(token),
            None => {
                self.complete = true;
                None
            },
        }
    }

    /// Hands out the accumulated scan once it is complete.
    pub fn into_utxos(self) -> (r: (Vec<Utxo>, u32))
        requires
            self.spec_complete(),
        ensures
            r.0@ == self.spec_utxos(),
            r.1 == self.spec_tip_height(),
    {
        (self.utxos, self.tip_height)
    }
}

/// The verdict of the provenance check on one UTXO.
#[derive(Clone, Copy, Debug, PartialEq, Eq)]
pub enum UtxoCheckStatus {
    /// No alert was raised for the UTXO.
    Clean,
    /// The provenance check raised at least one alert.
    Tainted,
}

/// One cached provenance verdict.
#[derive(Clone, Debug, PartialEq, Eq)]
pub struct KytVerdict {
    /// External identifier of the check.
    pub external_id: String,
    /// The verdict.
    pub status: UtxoCheckStatus,
    /// Identity of the provider whose key served the check.
    pub provider: Vec<u8>,
}

/// Classifies the provenance-check reply for one UTXO: tainted exactly when
/// the reply carried at least one alert.
pub fn classify_utxo_alerts(external_id: String, alerts_empty: bool, provider: Vec<u8>) -> (r:
    KytVerdict)
    ensures
        r.external_id@ == external_id@,
        r.provider@ == provider@,
        r.status == if alerts_empty {
            UtxoCheckStatus::Clean
        } else {
            UtxoCheckStatus::Tainted
        },
{
    KytVerdict {
        external_id,
        status: if alerts_empty {
            UtxoCheckStatus::Clean
        } else {
            UtxoCheckStatus::Tainted
        },
        provider,
    }
}

/// Maps a provenance-provider failure into the public taxonomy.
pub fn kyt_error_to_update_error(e: &KytError) -> (r: UpdateBalanceError)
    ensures
        e matches KytError::TemporarilyUnavailable(reason) ==> r matches
            UpdateBalanceError::TemporarilyUnavailable(m) && m@
            == "The KYT provider is temporarily unavailable: "@ + reason@,
{
    match e {
        KytError::TemporarilyUnavailable(reason) => UpdateBalanceError::TemporarilyUnavailable(
            String::from_str("The KYT provider is temporarily unavailable: ").concat(
                reason.as_str(),
            ),
        ),
    }
}

/// Maps a failed call to the provenance collaborator into the public
/// taxonomy.
pub fn kyt_call_error_to_update_error(e: &CallError) -> (r: UpdateBalanceError)
    ensures
        r matches UpdateBalanceError::TemporarilyUnavailable(m) && m@
            == "Failed to call KYT canister: "@ + e.spec_text(),
{
    UpdateBalanceError::TemporarilyUnavailable(
        String::from_str("Failed to call KYT canister: ").concat(e.to_text().as_str()),
    )
}

/// Cache of provenance verdicts, one per outpoint.
pub struct KytCache {
    entries: Vec<(Outpoint, KytVerdict)>,
}

impl KytCache {
    /// Whether a verdict is cached for `o`.
    pub closed spec fn spec_checked(&self, o: OutpointV) -> bool {
        exists|i: int| 0 <= i < self.entries@.len() && self.entries@[i].0@ == o
    }

    /// Creates an empty cache.
    pub fn new() -> (c: KytCache)
        ensures
            forall|o: OutpointV| !c.spec_checked(o),
    {
        KytCache { entries: Vec::new() }
    }

    /// The cached verdict for `outpoint`, if any. A cached verdict is reused
    /// instead of asking the provenance collaborator again.
    pub fn lookup(&self, outpoint: &Outpoint) -> (r: Option<&KytVerdict>)
        ensures
            match r {
                Some(_) => self.spec_checked(outpoint@),
                None => !self.spec_checked(outpoint@),
            },
    {
        let mut i: usize = 0;
        while i < self.entries.len()
            invariant
                i <= self.entries@.len(),
                forall|j: int| 0 <= j < i ==> self.entries@[j].0@ != outpoint@,
            decreases self.entries@.len() - i,
        {
            if self.entries[i].0.same_as(outpoint) {
                return Some(&self.entries[i].1);
            }
            i = i + 1;
        }
        None
    }

    /// Caches the verdict for `outpoint`.
    pub fn record(&mut self, outpoint: Outpoint, verdict: KytVerdict)
        ensures
            final(self).spec_checked(outpoint@),
            forall|o: OutpointV|
                o != outpoint@ ==> final(self).spec_checked(o) == old(self).spec_checked(o),
    {
        let ghost pre = self.entries@;
        self.entries.push((outpoint, verdict));
        proof {
            assert(self.entries@[pre.len() as int].0@ == outpoint@);
            assert forall|o: OutpointV|
                o != outpoint@ && self.spec_checked(o) implies old(self).spec_checked(o) by {
                let i = choose|i: int|
                    0 <= i < self.entries@.len() && self.entries@[i].0@ == o;
                assert(i < pre.len());
                assert(old(self).entries@[i].0@ == o);
            }
            assert forall|o: OutpointV|
                o != outpoint@ && old(self).spec_checked(o) implies self.spec_checked(o) by {
                let i = choose|i: int|
                    0 <= i < old(self).entries@.len() && old(self).entries@[i].0@ == o;
                assert(self.entries@[i].0@ == o);
            }
        }
    }
}

/// The identifier attached to a withdrawal provenance check:
/// `caller:address:amount:timestamp`.
pub fn withdrawal_attempt_id(caller: &str, address: &str, amount: u64, now: u64) -> (r: String)
    ensures
        r@ == caller@ + ":"@ + address@ + ":"@ + spec_dec_str(amount as int) + ":"@ + spec_dec_str(
            now as int,
        ),
{
    String::from_str(caller).concat(":").concat(address).concat(":").concat(
        u64_to_dec(amount).as_str(),
    ).concat(":").concat(u64_to_dec(now).as_str())
}

/// Classifies a ledger receipt already narrowed to `Option<u64>`: a receipt
/// too large for its representation is an internal error on behalf of
/// `method`.
pub fn classify_block_index(index: Option<u64>, method: &str) -> (r: Result<
    u64,
    UpdateBalanceError,
>)
    ensures
        match r {
            Ok(v) => index == Some(v),
            Err(e) => {
                &&& index is None
                &&& e matches UpdateBalanceError::SystemError { method: m, reason } && m@
                    == method@ && reason@ == "Block index too large for u64"@
            },
        },
{
    match index {
        Some(v) => Ok(v),
        None => Err(
            UpdateBalanceError::SystemError {
                method: String::from_str(method),
                reason: String::from_str("Block index too large for u64"),
            },
        ),
    }
}

} // verus!
