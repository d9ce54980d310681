//! Core data model: outpoints, UTXOs, ledger accounts and the outcome types
//! of a balance update.

use vstd::prelude::*;

verus! {

/// A ledger sub-account identifier; always 32 bytes when produced by the
/// deriver.
pub type Subaccount = Vec<u8>;

/// Uniquely identifies one output of a transaction on the reference network.
#[derive(Clone, Debug, PartialEq, Eq)]
pub struct Outpoint {
    /// Transaction id, as raw bytes.
    pub txid: Vec<u8>,
    /// Index of the output within its transaction.
    pub vout: u32,
}

/// Mathematical image of an [`Outpoint`].
#[verifier::ext_equal]
pub struct OutpointV {
    pub txid: Seq<u8>,
    pub vout: u32,
}

impl View for Outpoint {
    type V = OutpointV;

    open spec fn view(&self) -> OutpointV {
        OutpointV { txid: self.txid@, vout: self.vout }
    }
}

impl Outpoint {
    /// Structural copy; the result denotes the same outpoint.
    pub fn duplicate(&self) -> (r: Outpoint)
        ensures
            r@ == self@,
    {
        Outpoint { txid: self.txid.clone(), vout: self.vout }
    }

    /// Value equality on outpoints.
    pub fn same_as(&self, other: &Outpoint) -> (r: bool)
        ensures
            r == (self@ == other@),
    {
        let r = self.vout == other.vout && self.txid == other.txid;
        proof {
            if r {
                assert(self@.txid =~= other@.txid);
                assert(self@ =~= other@);
            } else if self@ == other@ {
                assert(self.txid@ =~= other.txid@);
            }
        }
        r
    }
}

/// One unit of deposited value observed on the reference network.
#[derive(Clone, Debug, PartialEq, Eq)]
pub struct Utxo {
    pub outpoint: Outpoint,
    /// Value in satoshi.
    pub value: u64,
    /// Block height at which the UTXO was confirmed.
    pub height: u32,
}

/// Mathematical image of a [`Utxo`].
#[verifier::ext_equal]
pub struct UtxoV {
    pub outpoint: OutpointV,
    pub value: u64,
    pub height: u32,
}

impl View for Utxo {
    type V = UtxoV;

    open spec fn view(&self) -> UtxoV {
        UtxoV { outpoint: self.outpoint@, value: self.value, height: self.height }
    }
}

impl Utxo {
    /// Structural copy; the result denotes the same UTXO.
    pub fn duplicate(&self) -> (r: Utxo)
        ensures
            r@ == self@,
    {
        Utxo { outpoint: self.outpoint.duplicate(), value: self.value, height: self.height }
    }
}

/// The sequence of views of a sequence of UTXOs.
pub open spec fn utxo_views(s: Seq<Utxo>) -> Seq<UtxoV> {
    s.map_values(|u: Utxo| u@)
}

/// A balance slot on an external ledger service.
#[derive(Clone, Debug, PartialEq, Eq)]
pub struct Account {
    /// Binary identity of the owning principal.
    pub owner: Vec<u8>,
    /// Derived sub-account, if any.
    pub subaccount: Option<Subaccount>,
}

/// Mathematical image of an [`Account`].
#[verifier::ext_equal]
pub struct AccountV {
    pub owner: Seq<u8>,
    pub subaccount: Option<Seq<u8>>,
}

impl View for Account {
    type V = AccountV;

    open spec fn view(&self) -> AccountV {
        AccountV {
            owner: self.owner@,
            subaccount: match self.subaccount {
                Some(ref s) => Some(s@),
                None => None,
            },
        }
    }
}

impl Account {
    /// Structural copy; the result denotes the same account.
    pub fn duplicate(&self) -> (r: Account)
        ensures
            r@ == self@,
    {
        Account {
            owner: self.owner.clone(),
            subaccount: match &self.subaccount {
                Some(s) => Some(s.clone()),
                None => None,
            },
        }
    }

    /// Value equality on accounts.
    pub fn same_as(&self, other: &Account) -> (r: bool)
        ensures
            r == (self@ == other@),
    {
        let owners = self.owner == other.owner;
        proof {
            if owners {
                assert(self.owner@ =~= other.owner@);
            } else if self@ == other@ {
                assert(self.owner@ =~= other.owner@);
            }
        }
        if !owners {
            return false;
        }
        let r = match (&self.subaccount, &other.subaccount) {
            (None, None) => true,
            (Some(a), Some(b)) => {
                let e = a == b;
                proof {
                    if e {
                        assert(a@ =~= b@);
                    } else if self@ == other@ {
                        assert(a@ =~= b@);
                    }
                }
                e
            },
            _ => false,
        };
        proof {
            if r {
                assert(self@ =~= other@);
            }
        }
        r
    }
}

/// The asset ledgers the minter settles against.
#[derive(Clone, Copy, Debug, PartialEq, Eq)]
pub enum SyronLedger {
    /// The locked-collateral (bitcoin) ledger.
    BTC,
    /// The stablecoin ledger.
    SYRON,
}

/// The argument of a balance update request.
#[derive(Clone, Debug, PartialEq, Eq)]
pub struct UpdateBalanceArgs {
    /// Self-sovereign identity (an address string) whose derived deposit
    /// accounts are updated.
    pub ssi: String,
}

/// A UTXO that does not yet meet the confirmation threshold, reported back to
/// the caller so it can estimate the remaining wait.
#[derive(Clone, Debug, PartialEq, Eq)]
pub struct PendingUtxo {
    pub outpoint: Outpoint,
    pub value: u64,
    /// Confirmations observed so far.
    pub confirmations: u32,
}

/// Mathematical image of a [`PendingUtxo`].
#[verifier::ext_equal]
pub struct PendingUtxoV {
    pub outpoint: OutpointV,
    pub value: u64,
    pub confirmations: u32,
}

impl View for PendingUtxo {
    type V = PendingUtxoV;

    open spec fn view(&self) -> PendingUtxoV {
        PendingUtxoV {
            outpoint: self.outpoint@,
            value: self.value,
            confirmations: self.confirmations,
        }
    }
}

/// The outcome of processing one UTXO during a balance update.
#[derive(Clone, Debug, PartialEq, Eq)]
pub enum UtxoStatus {
    /// The UTXO value is shaped like a transfer inscription and is never
    /// minted.
    TransferInscription(Utxo),
    /// The UTXO value is below the configured minimum deposit.
    ValueTooSmall(Utxo),
    /// A provenance check found issues with the deposited UTXO.
    Tainted(Utxo),
    /// The UTXO was accepted but the ledger mint failed; the caller should
    /// retry the balance update.
    Checked(Utxo),
    /// The minter accepted the UTXO and recorded the deposit on the ledgers.
    Minted {
        /// Receipt (block index) of the collateral transfer on the ledger.
        block_index: u64,
        /// The minted amount.
        minted_amount: u64,
        /// The UTXO that caused the balance update.
        utxo: Utxo,
    },
    /// The UTXO was read and recorded without minting (secondary-asset path).
    Read(Utxo),
}

/// Mathematical image of a [`UtxoStatus`].
#[verifier::ext_equal]
pub enum UtxoStatusV {
    TransferInscription(UtxoV),
    ValueTooSmall(UtxoV),
    Tainted(UtxoV),
    Checked(UtxoV),
    Minted { block_index: u64, minted_amount: u64, utxo: UtxoV },
    Read(UtxoV),
}

impl View for UtxoStatus {
    type V = UtxoStatusV;

    open spec fn view(&self) -> UtxoStatusV {
        match self {
            UtxoStatus::TransferInscription(u) => UtxoStatusV::TransferInscription(u@),
            UtxoStatus::ValueTooSmall(u) => UtxoStatusV::ValueTooSmall(u@),
            UtxoStatus::Tainted(u) => UtxoStatusV::Tainted(u@),
            UtxoStatus::Checked(u) => UtxoStatusV::Checked(u@),
            UtxoStatus::Minted { block_index, minted_amount, utxo } => UtxoStatusV::Minted {
                block_index: *block_index,
                minted_amount: *minted_amount,
                utxo: utxo@,
            },
            UtxoStatus::Read(u) => UtxoStatusV::Read(u@),
        }
    }
}

/// The sequence of views of a sequence of statuses.
pub open spec fn status_views(s: Seq<UtxoStatus>) -> Seq<UtxoStatusV> {
    s.map_values(|x: UtxoStatus| x@)
}

/// The operations a balance update request can ask for.
#[derive(Clone, Copy, Debug, PartialEq, Eq)]
pub enum SyronOperation {
    /// Deposit collateral and mint the stablecoin loan.
    GetSyron,
    /// Unwind a box: return collateral and settle the loan.
    RedeemBitcoin,
    /// Liquidate a box (not served by the balance-update path).
    Liquidation,
    /// Pay a peer (not served by the balance-update path).
    Payment,
    /// Settle a pending secondary-asset deposit.
    DepositSyron,
}

/// The argument of the box balance-update entry point.
#[derive(Clone, Debug, PartialEq, Eq)]
pub struct GetBoxAddressArgs {
    /// Self-sovereign identity whose box is updated.
    pub ssi: String,
    /// The operation requested.
    pub op: SyronOperation,
}

/// Reject codes of the host system for a failed inter-service call.
#[derive(Clone, Copy, Debug, PartialEq, Eq)]
pub enum RejectCode {
    NoError,
    SysFatal,
    SysTransient,
    DestinationInvalid,
    CanisterReject,
    CanisterError,
    Unknown,
}

/// Who initiated a call to the UTXO oracle.
#[derive(Clone, Copy, Debug, PartialEq, Eq)]
pub enum CallSource {
    /// The client initiated the call.
    Client,
    /// The minter initiated the call for internal bookkeeping.
    Minter,
}

/// The reference networks the oracle can be asked about.
#[derive(Clone, Copy, Debug, PartialEq, Eq)]
pub enum Network {
    Mainnet,
    Testnet,
    Regtest,
}

} // verus!
