//! The closed error taxonomy of the minter, and the error types of the
//! collaborator-call layer.

use vstd::prelude::*;
use vstd::string::StringExecFns;

use crate::types::{PendingUtxo, RejectCode};

verus! {

/// Error codes carried inside `GenericError`.
#[derive(Clone, Copy, Debug, PartialEq, Eq)]
pub enum ErrorCode {
    ConfigurationError,
    UnsupportedOperation,
    InsufficientAmount,
}

impl ErrorCode {
    /// The numeric code of this error kind.
    pub open spec fn spec_code(self) -> u64 {
        match self {
            ErrorCode::ConfigurationError => 1,
            ErrorCode::UnsupportedOperation => 2,
            ErrorCode::InsufficientAmount => 3,
        }
    }

    /// Returns the numeric code of this error kind.
    pub fn code(&self) -> (c: u64)
        ensures
            c == self.spec_code(),
    {
        match self {
            ErrorCode::ConfigurationError => 1,
            ErrorCode::UnsupportedOperation => 2,
            ErrorCode::InsufficientAmount => 3,
        }
    }
}

/// Why a concurrency-guard acquisition failed.
#[derive(Clone, Copy, Debug, PartialEq, Eq)]
pub enum GuardError {
    /// Another balance update for the same account is in flight.
    AlreadyProcessing,
    /// The global cap on simultaneously processing accounts is reached.
    TooManyConcurrentRequests,
}

/// The reason a collaborator call failed.
#[derive(Clone, Debug, PartialEq, Eq)]
pub enum Reason {
    /// Failed to send a request because the local output queue is full.
    QueueIsFull,
    /// The service does not have enough cycles to submit the request.
    OutOfCycles,
    /// The call failed with an error.
    CanisterError(String),
    /// The remote service rejected the request.
    Rejected(String),
    Other(String),
}

impl Reason {
    /// The rendered text of this reason.
    pub open spec fn spec_text(&self) -> Seq<char> {
        match self {
            Reason::QueueIsFull => "the canister queue is full"@,
            Reason::OutOfCycles => "the canister is out of cycles"@,
            Reason::CanisterError(msg) => "canister error: "@ + msg@,
            Reason::Rejected(msg) => "the management canister rejected the call: "@ + msg@,
            Reason::Other(msg) => " call rejected - reason: "@ + msg@,
        }
    }

    /// Classifies a raw reject from the host system.
    pub fn from_reject(reject_code: RejectCode, reject_message: String) -> (r: Reason)
        ensures
            match reject_code {
                RejectCode::SysTransient => r == Reason::QueueIsFull,
                RejectCode::CanisterError => r matches Reason::CanisterError(m) && m@
                    == reject_message@,
                RejectCode::CanisterReject => r matches Reason::Rejected(m) && m@
                    == reject_message@,
                _ => r matches Reason::Other(m) && m@ == reject_message@,
            },
    {
        match reject_code {
            RejectCode::SysTransient => Reason::QueueIsFull,
            RejectCode::CanisterError => Reason::CanisterError(reject_message),
            RejectCode::CanisterReject => Reason::Rejected(reject_message),
            _ => Reason::Other(reject_message),
        }
    }

    /// Renders the reason as text.
    pub fn to_string(&self) -> (r: String)
        ensures
            r@ == self.spec_text(),
    {
        match self {
            Reason::QueueIsFull => String::from_str("the canister queue is full"),
            Reason::OutOfCycles => String::from_str("the canister is out of cycles"),
            Reason::CanisterError(msg) => String::from_str("canister error: ").concat(
                msg.as_str(),
            ),
            Reason::Rejected(msg) => String::from_str(
                "the management canister rejected the call: ",
            ).concat(msg.as_str()),
            Reason::Other(msg) => String::from_str(" call rejected - reason: ").concat(
                msg.as_str(),
            ),
        }
    }
}

/// An error from a collaborator call, such as a signing or oracle request.
#[derive(Clone, Debug, PartialEq, Eq)]
pub struct CallError {
    method: String,
    reason: Reason,
}

impl CallError {
    /// The name of the failed method, as the contracts see it.
    pub closed spec fn spec_method(&self) -> Seq<char> {
        self.method@
    }

    /// The failure reason, as the contracts see it.
    pub closed spec fn spec_reason(&self) -> Reason {
        self.reason
    }

    /// The rendered text of this error.
    pub closed spec fn spec_text(&self) -> Seq<char> {
        "management call '"@ + self.method@ + "' failed: "@ + self.reason.spec_text()
    }

    /// Builds a call error for the named method.
    pub fn new(method: String, reason: Reason) -> (r: CallError)
        ensures
            r.spec_method() == method@,
            r.spec_reason() == reason,
    {
        CallError { method, reason }
    }

    /// Returns the name of the method that resulted in this error.
    pub fn method(&self) -> (r: &str)
        ensures
            r@ == self.spec_method(),
    {
        self.method.as_str()
    }

    /// Returns the failure reason.
    pub fn reason(&self) -> (r: &Reason)
        ensures
            *r == self.spec_reason(),
    {
        &self.reason
    }

    /// Renders the error as text.
    pub fn to_text(&self) -> (r: String)
        ensures
            r@ == self.spec_text(),
    {
        String::from_str("management call '").concat(self.method.as_str()).concat(
            "' failed: ",
        ).concat(self.reason.to_string().as_str())
    }
}

/// The error type of every exposed balance-update operation.
#[derive(Clone, Debug, PartialEq, Eq)]
pub enum UpdateBalanceError {
    /// The minter experiences temporary issues; try the call again later.
    TemporarilyUnavailable(String),
    /// There is a concurrent balance update for the same account.
    AlreadyProcessing,
    /// The minter did not discover new UTXOs with enough confirmations.
    NoNewUtxos {
        /// The largest number of confirmations observed among pending UTXOs,
        /// if any are pending.
        current_confirmations: Option<u32>,
        /// The confirmation threshold a UTXO must meet to be accepted.
        required_confirmations: u32,
        /// UTXOs that do not yet have enough confirmations to be processed.
        pending_utxos: Option<Vec<PendingUtxo>>,
    },
    /// A policy or validation rejection; not retryable without changing the
    /// input.
    GenericError { error_code: u64, error_message: String },
    /// A named collaborator call failed.
    CallError { method: String, reason: String },
    /// An internal invariant was violated; always a bug signal.
    SystemError { method: String, reason: String },
}

impl UpdateBalanceError {
    /// Maps a guard acquisition failure into the public taxonomy.
    pub fn from_guard_error(e: GuardError) -> (r: UpdateBalanceError)
        ensures
            match e {
                GuardError::AlreadyProcessing => r == UpdateBalanceError::AlreadyProcessing,
                GuardError::TooManyConcurrentRequests => r matches
                    UpdateBalanceError::TemporarilyUnavailable(m) && m@
                    == "too many concurrent requests"@,
            },
    {
        match e {
            GuardError::AlreadyProcessing => UpdateBalanceError::AlreadyProcessing,
            GuardError::TooManyConcurrentRequests => UpdateBalanceError::TemporarilyUnavailable(
                String::from_str("too many concurrent requests"),
            ),
        }
    }

    /// Maps a collaborator-call failure into the public taxonomy.
    pub fn from_call_error(e: &CallError) -> (r: UpdateBalanceError)
        ensures
            r matches UpdateBalanceError::TemporarilyUnavailable(m) && m@ == e.spec_text(),
    {
        UpdateBalanceError::TemporarilyUnavailable(e.to_text())
    }
}

/// The single failure mode of the provenance-check collaborator.
#[derive(Clone, Debug, PartialEq, Eq)]
pub enum KytError {
    /// The provider is temporarily unavailable.
    TemporarilyUnavailable(String),
}

} // verus!
