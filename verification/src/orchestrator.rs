//! Cross-ledger transfer orchestration.
//!
//! One deposit, redemption or payment becomes a plan: a strictly ordered list
//! of ledger transfers. The host performs one transfer at a time and feeds
//! the outcome back; the plan classifies failures into the public error
//! taxonomy and never retries or compensates. A failed step surfaces the
//! receipts collected so far and aborts the remainder of the plan.

use vstd::prelude::*;
use vstd::string::StringExecFns;

use crate::bytes::{i32_to_dec, spec_dec_str_signed};
use crate::collateral::{COLLATERAL_FLOOR_BPS, CollateralizedAccount, mintable_amount, spec_loan_amount, spec_sats_needed};
use crate::errors::{ErrorCode, UpdateBalanceError};
use crate::types::{Account, AccountV, Subaccount, SyronLedger};

verus! {

/// How a rejected transfer of one step maps into the error taxonomy.
#[derive(Clone, Debug, PartialEq, Eq)]
pub enum FailureMap {
    /// `TemporarilyUnavailable` with `prefix`, the reject message, `mid`, the
    /// reject code, and a closing parenthesis.
    Unavailable { prefix: String, mid: String },
    /// `CallError` naming the failing method, with the same message shape.
    Call { method: String, prefix: String, mid: String },
    /// `GenericError` carrying the reject code and `prefix` plus the message.
    Generic { prefix: String },
}

/// Mathematical image of a [`FailureMap`].
#[verifier::ext_equal]
pub enum FailureMapV {
    Unavailable { prefix: Seq<char>, mid: Seq<char> },
    Call { method: Seq<char>, prefix: Seq<char>, mid: Seq<char> },
    Generic { prefix: Seq<char> },
}

impl View for FailureMap {
    type V = FailureMapV;

    open spec fn view(&self) -> FailureMapV {
        match self {
            FailureMap::Unavailable { prefix, mid } => FailureMapV::Unavailable {
                prefix: prefix@,
                mid: mid@,
            },
            FailureMap::Call { method, prefix, mid } => FailureMapV::Call {
                method: method@,
                prefix: prefix@,
                mid: mid@,
            },
            FailureMap::Generic { prefix } => FailureMapV::Generic { prefix: prefix@ },
        }
    }
}

/// One ledger transfer of a plan.
#[derive(Clone, Debug, PartialEq, Eq)]
pub struct TransferStep {
    /// Which asset ledger performs the transfer.
    pub ledger: SyronLedger,
    /// Source sub-account of the minter, or its default account.
    pub from_subaccount: Option<Subaccount>,
    /// Destination account.
    pub to: Account,
    /// Amount in the ledger's minor unit.
    pub amount: u64,
    /// How a reject of this step is classified.
    pub on_fail: FailureMap,
    /// Method name reported when the ledger receipt cannot be represented.
    pub method: String,
}

/// Mathematical image of a [`TransferStep`].
#[verifier::ext_equal]
pub struct TransferStepV {
    pub ledger: SyronLedger,
    pub from_subaccount: Option<Seq<u8>>,
    pub to: AccountV,
    pub amount: u64,
    pub on_fail: FailureMapV,
    pub method: Seq<char>,
}

impl View for TransferStep {
    type V = TransferStepV;

    open spec fn view(&self) -> TransferStepV {
        TransferStepV {
            ledger: self.ledger,
            from_subaccount: match self.from_subaccount {
                Some(ref s) => Some(s@),
                None => None,
            },
            to: self.to@,
            amount: self.amount,
            on_fail: self.on_fail@,
            method: self.method@,
        }
    }
}

/// What one ledger transfer came back with. Built by the host from the raw
/// reply: a receipt (block index) when the transfer settled, a reject when
/// the call itself failed, or the rendered ledger error when the ledger
/// refused the transfer.
#[derive(Clone, Debug, PartialEq, Eq)]
pub enum TransferOutcome {
    /// The ledger accepted the transfer; `None` when the returned block index
    /// does not fit the receipt representation.
    Accepted(Option<u64>),
    /// The call was rejected by the host system.
    Rejected { code: i32, message: String },
    /// The ledger itself refused the transfer; carries its rendered error.
    Refused(String),
}

/// Progress of a plan after feeding one outcome back.
#[derive(Clone, Debug, PartialEq, Eq)]
pub enum PlanProgress {
    /// The step settled and further steps remain.
    Continue,
    /// Every step of the plan settled.
    Done,
    /// The step failed; the remainder of the plan is abandoned, receipts of
    /// earlier steps stand (no compensation is attempted).
    Failed(UpdateBalanceError),
}

/// Whether `e` is the classification of a reject (`code`, `msg`) under the
/// failure map `m`.
pub open spec fn spec_failure_matches(
    m: FailureMapV,
    code: i32,
    msg: Seq<char>,
    e: UpdateBalanceError,
) -> bool {
    match m {
        FailureMapV::Unavailable { prefix, mid } => e matches
            UpdateBalanceError::TemporarilyUnavailable(t) && t@ == prefix + msg + mid
            + spec_dec_str_signed(code as int) + ")"@,
        FailureMapV::Call { method, prefix, mid } => e matches UpdateBalanceError::CallError {
            method: m2,
            reason,
        } && m2@ == method && reason@ == prefix + msg + mid + spec_dec_str_signed(code as int)
            + ")"@,
        FailureMapV::Generic { prefix } => e matches UpdateBalanceError::GenericError {
            error_code,
            error_message,
        } && error_code == code as u64 && error_message@ == prefix + msg,
    }
}

/// Whether `e` is the classification of a ledger-refused transfer whose
/// rendered error is `text`.
pub open spec fn spec_refused_matches(text: Seq<char>, e: UpdateBalanceError) -> bool {
    e matches UpdateBalanceError::GenericError { error_code, error_message } && error_code
        == ErrorCode::ConfigurationError.spec_code() && error_message@
        == "failed to mint tokens on the ledger: "@ + text
}

/// Whether `e` reports that a ledger receipt did not fit its representation,
/// on behalf of `method`.
pub open spec fn spec_receipt_overflow_matches(method: Seq<char>, e: UpdateBalanceError) -> bool {
    e matches UpdateBalanceError::SystemError { method: m2, reason } && m2@ == method && reason@
        == "Block index too large for u64"@
}

/// A strictly ordered list of ledger transfers realizing one deposit,
/// redemption or payment, together with the receipts collected so far.
pub struct TransferPlan {
    steps: Vec<TransferStep>,
    next: usize,
    receipts: Vec<u64>,
}

impl TransferPlan {
    /// The steps of the plan.
    pub closed spec fn step_views(&self) -> Seq<TransferStepV> {
        self.steps@.map_values(|s: TransferStep| s@)
    }

    /// Index of the first step that has not settled yet.
    pub closed spec fn spec_next(&self) -> int {
        self.next as int
    }

    /// Receipts of the settled steps, in plan order.
    pub closed spec fn spec_receipts(&self) -> Seq<u64> {
        self.receipts@
    }

    /// One receipt per settled step, and no step beyond the end.
    pub closed spec fn wf(&self) -> bool {
        self.next <= self.steps@.len() && self.receipts@.len() == self.next
    }

    /// A well-formed plan holds one receipt per settled step.
    pub proof fn lemma_wf_receipts(&self)
        requires
            self.wf(),
        ensures
            self.spec_receipts().len() == self.spec_next(),
            0 <= self.spec_next() <= self.step_views().len(),
    {
    }

    /// Builds a plan over the given steps, none settled yet.
    pub fn new(steps: Vec<TransferStep>) -> (r: TransferPlan)
        ensures
            r.wf(),
            r.spec_next() == 0,
            r.spec_receipts() == Seq::<u64>::empty(),
            r.step_views() == steps@.map_values(|s: TransferStep| s@),
    {
        let r = TransferPlan { steps, next: 0, receipts: Vec::new() };
        proof {
            assert(r.spec_receipts() =~= Seq::<u64>::empty());
        }
        r
    }

    /// The transfer the host must perform next, or `None` when the plan is
    /// complete.
    pub fn next_transfer(&self) -> (r: Option<&TransferStep>)
        requires
            self.wf(),
        ensures
            match r {
                Some(step) => self.spec_next() < self.step_views().len() && step@
                    == self.step_views()[self.spec_next()],
                None => self.spec_next() == self.step_views().len(),
            },
    {
        if self.next < self.steps.len() {
            Some(&self.steps[self.next])
        } else {
            None
        }
    }

    /// The receipts of the settled steps so far, in plan order.
    pub fn receipts(&self) -> (r: &Vec<u64>)
        ensures
            r@ == self.spec_receipts(),
    {
        &self.receipts
    }

    /// Consumes the plan and hands out the collected receipts.
    pub fn into_receipts(self) -> (r: Vec<u64>)
        ensures
            r@ == self.spec_receipts(),
    {
        self.receipts
    }

    /// Feeds back the outcome of the pending transfer. A settled transfer
    /// appends its receipt and moves to the next step; any failure abandons
    /// the remainder of the plan with the step's classification, keeping the
    /// receipts already collected.
    pub fn on_outcome(&mut self, outcome: TransferOutcome) -> (r: PlanProgress)
        requires
            old(self).wf(),
            old(self).spec_next() < old(self).step_views().len(),
        ensures
            final(self).wf(),
            final(self).step_views() == old(self).step_views(),
            match outcome {
                TransferOutcome::Accepted(Some(idx)) => {
                    &&& final(self).spec_receipts() == old(self).spec_receipts().push(idx)
                    &&& final(self).spec_next() == old(self).spec_next() + 1
                    &&& if final(self).spec_next() == final(self).step_views().len() {
                        r == PlanProgress::Done
                    } else {
                        r == PlanProgress::Continue
                    }
                },
                TransferOutcome::Accepted(None) => {
                    &&& *final(self) == *old(self)
                    &&& r matches PlanProgress::Failed(e) && spec_receipt_overflow_matches(
                        old(self).step_views()[old(self).spec_next()].method,
                        e,
                    )
                },
                TransferOutcome::Rejected { code, message } => {
                    &&& *final(self) == *old(self)
                    &&& r matches PlanProgress::Failed(e) && spec_failure_matches(
                        old(self).step_views()[old(self).spec_next()].on_fail,
                        code,
                        message@,
                        e,
                    )
                },
                TransferOutcome::Refused(text) => {
                    &&& *final(self) == *old(self)
                    &&& r matches PlanProgress::Failed(e) && spec_refused_matches(text@, e)
                },
            },
    {
        match outcome {
            TransferOutcome::Accepted(Some(idx)) => {
                let total = self.steps.len();
                proof {
                    assert(self.step_views().len() == self.steps@.len());
                }
                self.receipts.push(idx);
                self.next = self.next + 1;
                if self.next == total {
                    PlanProgress::Done
                } else {
                    PlanProgress::Continue
                }
            },
            TransferOutcome::Accepted(None) => {
                let step = &self.steps[self.next];
                PlanProgress::Failed(
                    UpdateBalanceError::SystemError {
                        method: step.method.clone(),
                        reason: String::from_str("Block index too large for u64"),
                    },
                )
            },
            TransferOutcome::Rejected { code, message } => {
                let step = &self.steps[self.next];
                let code_text = i32_to_dec(code);
                let e = match &step.on_fail {
                    FailureMap::Unavailable { prefix, mid } => {
                        UpdateBalanceError::TemporarilyUnavailable(
                            prefix.clone().concat(message.as_str()).concat(mid.as_str()).concat(
                                code_text.as_str(),
                            ).concat(")"),
                        )
                    },
                    FailureMap::Call { method, prefix, mid } => {
                        UpdateBalanceError::CallError {
                            method: method.clone(),
                            reason: prefix.clone().concat(message.as_str()).concat(
                                mid.as_str(),
                            ).concat(code_text.as_str()).concat(")"),
                        }
                    },
                    FailureMap::Generic { prefix } => {
                        UpdateBalanceError::GenericError {
                            error_code: #[verifier::truncate] (code as u64),
                            error_message: prefix.clone().concat(message.as_str()),
                        }
                    },
                };
                PlanProgress::Failed(e)
            },
            TransferOutcome::Refused(text) => {
                PlanProgress::Failed(
                    UpdateBalanceError::GenericError {
                        error_code: ErrorCode::ConfigurationError.code(),
                        error_message: String::from_str(
                            "failed to mint tokens on the ledger: ",
                        ).concat(text.as_str()),
                    },
                )
            },
        }
    }
}

/// Whether `e` is the classification of `outcome` under `step`: the
/// receipt-overflow report for an unrepresentable receipt, the step's reject
/// mapping for a reject, or the shared refusal mapping for a ledger refusal.
/// A settled outcome has no classification.
pub open spec fn spec_abort_matches(
    step: TransferStepV,
    outcome: TransferOutcome,
    e: UpdateBalanceError,
) -> bool {
    match outcome {
        TransferOutcome::Accepted(idx) => idx is None && spec_receipt_overflow_matches(
            step.method,
            e,
        ),
        TransferOutcome::Rejected { code, message } => spec_failure_matches(
            step.on_fail,
            code,
            message@,
            e,
        ),
        TransferOutcome::Refused(text) => spec_refused_matches(text@, e),
    }
}

/// Whether the policy admits planning a deposit of `satoshis` under
/// `snapshot`: at or above the collateralization floor the loan must be
/// representable; below it the whole deposit must be absorbed restoring the
/// floor.
pub open spec fn spec_mint_admitted(satoshis: u64, snapshot: CollateralizedAccount) -> bool {
    if snapshot.collateral_ratio >= COLLATERAL_FLOOR_BPS {
        spec_loan_amount(satoshis, snapshot.exchange_rate) <= u64::MAX
    } else {
        satoshis <= spec_sats_needed(snapshot.exchange_rate, snapshot.btc_1, snapshot.susd_1)
    }
}

/// Whether `e` is the policy rejection for a deposit the policy does not
/// admit under `snapshot`: an internal error for an unrepresentable loan, the
/// unsupported-operation rejection for partial floor restoration.
pub open spec fn spec_mint_rejection(snapshot: CollateralizedAccount, e: UpdateBalanceError) -> bool {
    if snapshot.collateral_ratio >= COLLATERAL_FLOOR_BPS {
        e matches UpdateBalanceError::SystemError { method, reason } && method@
            == "mintable_amount"@ && reason@ == "loan amount does not fit the ledger unit"@
    } else {
        e matches UpdateBalanceError::GenericError { error_code, error_message } && error_code
            == ErrorCode::UnsupportedOperation.spec_code() && error_message@
            == "partial restoration of the collateral floor is not supported"@
    }
}

/// The loan a deposit mints under a snapshot: the policy amount at or above
/// the collateralization floor, zero below it.
pub open spec fn spec_minted_loan(satoshis: u64, snapshot: CollateralizedAccount) -> int {
    if snapshot.collateral_ratio >= COLLATERAL_FLOOR_BPS {
        spec_loan_amount(satoshis, snapshot.exchange_rate)
    } else {
        0
    }
}

/// The transfer sequence that realizes one deposit: the collateral credit,
/// and — only when a loan is minted — the loan credit to the box account
/// followed by the balance credit to the spendable account.
pub open spec fn spec_mint_steps(
    satoshis: u64,
    susd: u64,
    box_account: AccountV,
    balance_account: AccountV,
) -> Seq<TransferStepV> {
    let collateral = (TransferStepV {
        ledger: SyronLedger::BTC,
        from_subaccount: None,
        to: box_account,
        amount: satoshis,
        on_fail: (FailureMapV::Call {
            method: "mint"@,
            prefix: "@mint: Cannot register bitcoin collateral due to error ("@,
            mid: " - reject_code = "@,
        }),
        method: "mint"@,
    });
    let loan = (TransferStepV {
        ledger: SyronLedger::SYRON,
        from_subaccount: None,
        to: box_account,
        amount: susd,
        on_fail: (FailureMapV::Call {
            method: "mint"@,
            prefix: "@mint: Cannot grant syron loan due to error ("@,
            mid: " - reject_code = "@,
        }),
        method: "mint"@,
    });
    let balance = (TransferStepV {
        ledger: SyronLedger::SYRON,
        from_subaccount: None,
        to: balance_account,
        amount: susd,
        on_fail: (FailureMapV::Call {
            method: "mint"@,
            prefix: "@mint: Cannot update syron balance due to error ("@,
            mid: " - reject_code = "@,
        }),
        method: "mint"@,
    });
    if susd == 0 {
        seq![collateral]
    } else {
        seq![collateral, loan, balance]
    }
}

/// Plans the transfers realizing one deposit of `satoshis` under the given
/// snapshot: collateral first, then the loan and balance legs when the policy
/// mints a loan. Fails exactly when the policy computation fails.
pub fn mint_plan(
    satoshis: u64,
    snapshot: &CollateralizedAccount,
    box_account: &Account,
    balance_account: &Account,
) -> (r: Result<TransferPlan, UpdateBalanceError>)
    ensures
        match r {
            Ok(plan) => {
                &&& spec_mint_admitted(satoshis, *snapshot)
                &&& plan.wf()
                &&& plan.spec_next() == 0
                &&& plan.spec_receipts() == Seq::<u64>::empty()
                &&& plan.step_views() == spec_mint_steps(
                    satoshis,
                    spec_minted_loan(satoshis, *snapshot) as u64,
                    box_account@,
                    balance_account@,
                )
                &&& spec_minted_loan(satoshis, *snapshot) <= u64::MAX
            },
            Err(e) => {
                &&& !spec_mint_admitted(satoshis, *snapshot)
                &&& spec_mint_rejection(*snapshot, e)
            },
        },
{
    let susd = match mintable_amount(satoshis, snapshot) {
        Ok(v) => v,
        Err(e) => {
            return Err(e);
        },
    };
    let mut steps: Vec<TransferStep> = Vec::new();
    steps.push(
        TransferStep {
            ledger: SyronLedger::BTC,
            from_subaccount: None,
            to: box_account.duplicate(),
            amount: satoshis,
            on_fail: FailureMap::Call {
                method: String::from_str("mint"),
                prefix: String::from_str(
                    "@mint: Cannot register bitcoin collateral due to error (",
                ),
                mid: String::from_str(" - reject_code = "),
            },
            method: String::from_str("mint"),
        },
    );
    if susd != 0 {
        steps.push(
            TransferStep {
                ledger: SyronLedger::SYRON,
                from_subaccount: None,
                to: box_account.duplicate(),
                amount: susd,
                on_fail: FailureMap::Call {
                    method: String::from_str("mint"),
                    prefix: String::from_str("@mint: Cannot grant syron loan due to error ("),
                    mid: String::from_str(" - reject_code = "),
                },
                method: String::from_str("mint"),
            },
        );
        steps.push(
            TransferStep {
                ledger: SyronLedger::SYRON,
                from_subaccount: None,
                to: balance_account.duplicate(),
                amount: susd,
                on_fail: FailureMap::Call {
                    method: String::from_str("mint"),
                    prefix: String::from_str("@mint: Cannot update syron balance due to error ("),
                    mid: String::from_str(" - reject_code = "),
                },
                method: String::from_str("mint"),
            },
        );
    }
    let plan = TransferPlan::new(steps);
    proof {
        assert(plan.step_views() =~= spec_mint_steps(
            satoshis,
            spec_minted_loan(satoshis, *snapshot) as u64,
            box_account@,
            balance_account@,
        ));
    }
    Ok(plan)
}

/// The transfer sequence that unwinds one box: the collateral leg
/// unconditionally, and the loan-repayment leg only when a loan is
/// outstanding.
pub open spec fn spec_redeem_steps(
    btc_1: u64,
    susd_1: u64,
    box_subaccount: Seq<u8>,
    minter_account: AccountV,
) -> Seq<TransferStepV> {
    let collateral = (TransferStepV {
        ledger: SyronLedger::BTC,
        from_subaccount: Some(box_subaccount),
        to: minter_account,
        amount: btc_1,
        on_fail: (FailureMapV::Unavailable {
            prefix: "update_ssi_balance: Cannot redeem bitcoin: "@,
            mid: " (reject_code = "@,
        }),
        method: "update_ssi_balance"@,
    });
    let repayment = (TransferStepV {
        ledger: SyronLedger::SYRON,
        from_subaccount: Some(box_subaccount),
        to: minter_account,
        amount: susd_1,
        on_fail: (FailureMapV::Unavailable {
            prefix: "update_ssi_balance: Cannot grant loan repayment: "@,
            mid: " (reject_code = "@,
        }),
        method: "update_ssi_balance"@,
    });
    if susd_1 == 0 {
        seq![collateral]
    } else {
        seq![collateral, repayment]
    }
}

/// Plans the transfers unwinding one box: collateral back to the minter, and
/// the loan repayment when a loan is outstanding. Redeeming with no locked
/// collateral is rejected as an unsupported operation.
pub fn redeem_plan(
    btc_1: u64,
    susd_1: u64,
    box_subaccount: &Subaccount,
    minter_account: &Account,
) -> (r: Result<TransferPlan, UpdateBalanceError>)
    ensures
        match r {
            Ok(plan) => {
                &&& btc_1 != 0
                &&& plan.wf()
                &&& plan.spec_next() == 0
                &&& plan.spec_receipts() == Seq::<u64>::empty()
                &&& plan.step_views() == spec_redeem_steps(
                    btc_1,
                    susd_1,
                    box_subaccount@,
                    minter_account@,
                )
            },
            Err(e) => {
                &&& btc_1 == 0
                &&& e matches UpdateBalanceError::GenericError { error_code, error_message }
                    && error_code == ErrorCode::UnsupportedOperation.spec_code() && error_message@
                    == "@update_ssi_balance: Invalid balance to redeem BTC"@
            },
        },
{
    if btc_1 == 0 {
        return Err(
            UpdateBalanceError::GenericError {
                error_code: ErrorCode::UnsupportedOperation.code(),
                error_message: String::from_str(
                    "@update_ssi_balance: Invalid balance to redeem BTC",
                ),
            },
        );
    }
    let mut steps: Vec<TransferStep> = Vec::new();
    steps.push(
        TransferStep {
            ledger: SyronLedger::BTC,
            from_subaccount: Some(box_subaccount.clone()),
            to: minter_account.duplicate(),
            amount: btc_1,
            on_fail: FailureMap::Unavailable {
                prefix: String::from_str("update_ssi_balance: Cannot redeem bitcoin: "),
                mid: String::from_str(" (reject_code = "),
            },
            method: String::from_str("update_ssi_balance"),
        },
    );
    if susd_1 != 0 {
        steps.push(
            TransferStep {
                ledger: SyronLedger::SYRON,
                from_subaccount: Some(box_subaccount.clone()),
                to: minter_account.duplicate(),
                amount: susd_1,
                on_fail: FailureMap::Unavailable {
                    prefix: String::from_str("update_ssi_balance: Cannot grant loan repayment: "),
                    mid: String::from_str(" (reject_code = "),
                },
                method: String::from_str("update_ssi_balance"),
            },
        );
    }
    let plan = TransferPlan::new(steps);
    proof {
        assert(plan.step_views() =~= spec_redeem_steps(
            btc_1,
            susd_1,
            box_subaccount@,
            minter_account@,
        ));
    }
    Ok(plan)
}

} // verus!
