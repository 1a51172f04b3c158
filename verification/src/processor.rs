//! Processing of a merged pull request: from the recorded event to a USDC
//! payout or a recorded rejection.
//!
//! The processor is a state machine. Each [`ProcessorAction`] asks the
//! caller for one piece of outside work (a database read or write, the AI
//! evaluation, the on-chain transfer); the caller performs it and answers
//! with the matching [`ProcessorEvent`]. All decisions are taken here.
use vstd::prelude::*;
use crate::status::PrStatus;

verus! {

/// The columns of a `pr_events` row that processing reads.
pub struct PrEventRow {
    pub pr_number: i32,
    pub pr_title: String,
    pub contributor: String,
    pub repo_id: u128,
}

/// What the AI evaluator decided about a pull request, with the two checks
/// made on its amount in the repository's currency (USDC, as a float):
/// whether the amount would exceed the daily cap given what was already
/// spent today, and whether it is zero or negative.
pub struct Verdict {
    pub approved: bool,
    pub reason: String,
    /// `daily_spent + amount > daily_cap`
    pub exceeds_daily_cap: bool,
    /// `amount <= 0`
    pub non_positive_amount: bool,
    /// The amount in micro-USDC (six decimals), as it is sent on chain.
    pub amount_micro: u64,
}

/// Why no payment record was made for an evaluated pull request.
pub enum RejectionReason {
    /// The evaluator declined, with its reason.
    Declined(String),
    /// The payout would exceed the repository's daily cap.
    DailyCapExceeded,
    /// The evaluator approved a zero or negative amount.
    InvalidAmount,
}

/// The reason text stored with a rejection.
pub open spec fn reason_text(r: RejectionReason) -> Seq<char> {
    match r {
        RejectionReason::Declined(s) => s@,
        RejectionReason::DailyCapExceeded => "Daily cap exceeded"@,
        RejectionReason::InvalidAmount => "Invalid amount from AI"@,
    }
}

impl RejectionReason {
    /// The reason text stored in the payment record.
    pub fn text(&self) -> (res: String)
        ensures
            res@ == reason_text(*self),
    {
        match self {
            RejectionReason::Declined(s) => s.clone(),
            RejectionReason::DailyCapExceeded => String::from_str("Daily cap exceeded"),
            RejectionReason::InvalidAmount => String::from_str("Invalid amount from AI"),
        }
    }
}

/// The answer to the last action.
pub enum ProcessorEvent {
    /// The `pr_events` row, if it exists.
    PrEventLoaded(Option<PrEventRow>),
    /// `None` if the repository does not exist, else its delegation, if set.
    RepoLoaded(Option<Option<String>>),
    /// The wallet registered for the contributor in the repository, if any.
    WalletLoaded(Option<String>),
    /// The amount spent in the last 24 hours was read.
    DailySpentLoaded,
    /// The evaluator answered.
    Evaluated(Verdict),
    /// The relayer executed the transfer (its transaction hash) or failed.
    Transferred(Option<String>),
    /// The requested write was committed.
    Stored,
    /// The requested database read or write, or the evaluation, failed.
    Failed,
}

/// Why processing ended with an error.
#[derive(Debug, Clone, Copy, PartialEq, Eq, Structural)]
pub enum ProcessError {
    /// The pull-request event does not exist.
    PrEventNotFound,
    /// The event's repository does not exist.
    RepoNotFound,
    /// A database operation or the evaluation failed.
    Io,
}

/// One piece of outside work, or the end of processing.
pub enum ProcessorAction {
    /// Read the `pr_events` row.
    LoadPrEvent { pr_event_id: u128 },
    /// Read the repository's payout settings and delegation.
    LoadRepo { repo_id: u128 },
    /// Read the wallet of `contributor` in the repository.
    LoadWallet { contributor: String, repo_id: u128 },
    /// Set the event's status.
    SetStatus { status: PrStatus },
    /// Read the amount paid by the repository in the last 24 hours.
    LoadDailySpent { repo_id: u128 },
    /// Ask the evaluator about the pull request.
    Evaluate { pr_title: String, contributor: String },
    /// In one transaction: record a payment of 0 with the reason, and set
    /// the status to rejected.
    RecordRejection(RejectionReason),
    /// Transfer `amount_micro` micro-USDC to `to_address` under the
    /// delegation.
    Transfer { to_address: String, amount_micro: u64, delegation_hex: String },
    /// In one transaction: record the payment with its transaction hash and
    /// the evaluator's reason, and set the status to paid.
    RecordPayment { tx_hash: String, reason: String },
    /// Set the status to failed; a failure of this write is ignored.
    MarkFailed,
    /// Processing is over.
    Finish(Result<(), ProcessError>),
}

/// Where processing stands.
pub enum Stage {
    LoadingPrEvent,
    LoadingRepo { pr: PrEventRow },
    LoadingWallet { pr: PrEventRow, delegation: Option<String> },
    RejectingUnpayable,
    LoadingDailySpent { pr: PrEventRow, wallet: String, delegation_hex: String },
    Evaluating { wallet: String, delegation_hex: String },
    RecordingRejection,
    Transferring { reason: String },
    RecordingPayment,
    MarkingFailed { outcome: Result<(), ProcessError> },
    Finished { outcome: Result<(), ProcessError> },
}

/// The processing of one pull-request event.
pub struct PaymentProcessor {
    pub pr_event_id: u128,
    pub stage: Stage,
}

/// The processor of the event `pr_event_id` before its first action.
pub open spec fn initial(pr_event_id: u128) -> PaymentProcessor {
    PaymentProcessor { pr_event_id, stage: Stage::LoadingPrEvent }
}

/// Give up with `e`: mark the event failed, then end with the error.
pub open spec fn fail(p: PaymentProcessor, e: ProcessError) -> (PaymentProcessor, ProcessorAction) {
    (
        PaymentProcessor { stage: Stage::MarkingFailed { outcome: Err(e) }, ..p },
        ProcessorAction::MarkFailed,
    )
}

/// End successfully.
pub open spec fn succeed(p: PaymentProcessor) -> (PaymentProcessor, ProcessorAction) {
    (PaymentProcessor { stage: Stage::Finished { outcome: Ok(()) }, ..p }, ProcessorAction::Finish(Ok(())))
}

/// Decision on an evaluation: reject it when the evaluator
/// declines, when the amount would pass the daily cap, or when the amount is
/// not positive, checked in that order; otherwise transfer the amount.
pub open spec fn decide(p: PaymentProcessor, wallet: String, delegation_hex: String, v: Verdict) -> (
    PaymentProcessor,
    ProcessorAction,
) {
    if !v.approved {
        (
            PaymentProcessor { stage: Stage::RecordingRejection, ..p },
            ProcessorAction::RecordRejection(RejectionReason::Declined(v.reason)),
        )
    } else if v.exceeds_daily_cap {
        (
            PaymentProcessor { stage: Stage::RecordingRejection, ..p },
            ProcessorAction::RecordRejection(RejectionReason::DailyCapExceeded),
        )
    } else if v.non_positive_amount {
        (
            PaymentProcessor { stage: Stage::RecordingRejection, ..p },
            ProcessorAction::RecordRejection(RejectionReason::InvalidAmount),
        )
    } else {
        (
            PaymentProcessor { stage: Stage::Transferring { reason: v.reason }, ..p },
            ProcessorAction::Transfer {
                to_address: wallet,
                amount_micro: v.amount_micro,
                delegation_hex,
            },
        )
    }
}

/// The transition of the processor on an event. An event that does not
/// answer the last action counts as a failure of that action.
pub open spec fn spec_step(p: PaymentProcessor, e: ProcessorEvent) -> (PaymentProcessor, ProcessorAction) {
    match (p.stage, e) {
        (Stage::LoadingPrEvent, ProcessorEvent::PrEventLoaded(Some(pr))) => {
            let repo_id = pr.repo_id;
            (PaymentProcessor { stage: Stage::LoadingRepo { pr }, ..p }, ProcessorAction::LoadRepo { repo_id })
        },
        (Stage::LoadingPrEvent, ProcessorEvent::PrEventLoaded(None)) => fail(p, ProcessError::PrEventNotFound),
        (Stage::LoadingRepo { pr }, ProcessorEvent::RepoLoaded(Some(d))) => {
            let contributor = pr.contributor;
            let repo_id = pr.repo_id;
            (
                PaymentProcessor { stage: Stage::LoadingWallet { pr, delegation: d }, ..p },
                ProcessorAction::LoadWallet { contributor, repo_id },
            )
        },
        (Stage::LoadingRepo { .. }, ProcessorEvent::RepoLoaded(None)) => fail(p, ProcessError::RepoNotFound),
        (Stage::LoadingWallet { pr, delegation }, ProcessorEvent::WalletLoaded(w)) => {
            match (w, delegation) {
                (Some(wallet), Some(d)) => {
                    let repo_id = pr.repo_id;
                    (
                        PaymentProcessor {
                            stage: Stage::LoadingDailySpent { pr, wallet, delegation_hex: d },
                            ..p
                        },
                        ProcessorAction::LoadDailySpent { repo_id },
                    )
                },
                _ => (
                    PaymentProcessor { stage: Stage::RejectingUnpayable, ..p },
                    ProcessorAction::SetStatus { status: PrStatus::Rejected },
                ),
            }
        },
        (Stage::RejectingUnpayable, ProcessorEvent::Stored) => succeed(p),
        (Stage::LoadingDailySpent { pr, wallet, delegation_hex }, ProcessorEvent::DailySpentLoaded) => (
            PaymentProcessor { stage: Stage::Evaluating { wallet, delegation_hex }, ..p },
            ProcessorAction::Evaluate { pr_title: pr.pr_title, contributor: pr.contributor },
        ),
        (Stage::Evaluating { wallet, delegation_hex }, ProcessorEvent::Evaluated(v)) => decide(
            p,
            wallet,
            delegation_hex,
            v,
        ),
        (Stage::RecordingRejection, ProcessorEvent::Stored) => succeed(p),
        (Stage::Transferring { reason }, ProcessorEvent::Transferred(Some(tx_hash))) => (
            PaymentProcessor { stage: Stage::RecordingPayment, ..p },
            ProcessorAction::RecordPayment { tx_hash, reason },
        ),
        (Stage::Transferring { .. }, ProcessorEvent::Transferred(None)) => (
            PaymentProcessor { stage: Stage::MarkingFailed { outcome: Ok(()) }, ..p },
            ProcessorAction::MarkFailed,
        ),
        (Stage::RecordingPayment, ProcessorEvent::Stored) => succeed(p),
        (Stage::MarkingFailed { outcome }, _) => (
            PaymentProcessor { stage: Stage::Finished { outcome }, ..p },
            ProcessorAction::Finish(outcome),
        ),
        (Stage::Finished { outcome }, _) => (
            PaymentProcessor { stage: Stage::Finished { outcome }, ..p },
            ProcessorAction::Finish(outcome),
        ),
        _ => fail(p, ProcessError::Io),
    }
}

impl PaymentProcessor {
    /// Starts processing the event `pr_event_id`: the first action reads it.
    pub fn new(pr_event_id: u128) -> (res: (PaymentProcessor, ProcessorAction))
        ensures
            res.0 == initial(pr_event_id),
            res.1 == (ProcessorAction::LoadPrEvent { pr_event_id }),
    {
        (
            PaymentProcessor { pr_event_id, stage: Stage::LoadingPrEvent },
            ProcessorAction::LoadPrEvent { pr_event_id },
        )
    }

    /// Takes the answer to the last action and returns the next action.
    pub fn step(self, event: ProcessorEvent) -> (res: (PaymentProcessor, ProcessorAction))
        ensures
            res == spec_step(self, event),
    {
        let id = self.pr_event_id;
        match (self.stage, event) {
            (Stage::LoadingPrEvent, ProcessorEvent::PrEventLoaded(Some(pr))) => {
                let repo_id = pr.repo_id;
                (
                    PaymentProcessor { pr_event_id: id, stage: Stage::LoadingRepo { pr } },
                    ProcessorAction::LoadRepo { repo_id },
                )
            },
            (Stage::LoadingPrEvent, ProcessorEvent::PrEventLoaded(None)) => Self::fail(
                id,
                ProcessError::PrEventNotFound,
            ),
            (Stage::LoadingRepo { pr }, ProcessorEvent::RepoLoaded(Some(d))) => {
                let contributor = pr.contributor.clone();
                let repo_id = pr.repo_id;
                (
                    PaymentProcessor {
                        pr_event_id: id,
                        stage: Stage::LoadingWallet { pr, delegation: d },
                    },
                    ProcessorAction::LoadWallet { contributor, repo_id },
                )
            },
            (Stage::LoadingRepo { .. }, ProcessorEvent::RepoLoaded(None)) => Self::fail(
                id,
                ProcessError::RepoNotFound,
            ),
            (Stage::LoadingWallet { pr, delegation }, ProcessorEvent::WalletLoaded(w)) => {
                match (w, delegation) {
                    (Some(wallet), Some(d)) => {
                        let repo_id = pr.repo_id;
                        (
                            PaymentProcessor {
                                pr_event_id: id,
                                stage: Stage::LoadingDailySpent { pr, wallet, delegation_hex: d },
                            },
                            ProcessorAction::LoadDailySpent { repo_id },
                        )
                    },
                    _ => (
                        PaymentProcessor { pr_event_id: id, stage: Stage::RejectingUnpayable },
                        ProcessorAction::SetStatus { status: PrStatus::Rejected },
                    ),
                }
            },
            (Stage::RejectingUnpayable, ProcessorEvent::Stored) => Self::succeed(id),
            (
                Stage::LoadingDailySpent { pr, wallet, delegation_hex },
                ProcessorEvent::DailySpentLoaded,
            ) => (
                PaymentProcessor { pr_event_id: id, stage: Stage::Evaluating { wallet, delegation_hex } },
                ProcessorAction::Evaluate { pr_title: pr.pr_title, contributor: pr.contributor },
            ),
            (Stage::Evaluating { wallet, delegation_hex }, ProcessorEvent::Evaluated(v)) => {
                Self::decide_verdict(id, wallet, delegation_hex, v)
            },
            (Stage::RecordingRejection, ProcessorEvent::Stored) => Self::succeed(id),
            (Stage::Transferring { reason }, ProcessorEvent::Transferred(Some(tx_hash))) => (
                PaymentProcessor { pr_event_id: id, stage: Stage::RecordingPayment },
                ProcessorAction::RecordPayment { tx_hash, reason },
            ),
            (Stage::Transferring { .. }, ProcessorEvent::Transferred(None)) => (
                PaymentProcessor { pr_event_id: id, stage: Stage::MarkingFailed { outcome: Ok(()) } },
                ProcessorAction::MarkFailed,
            ),
            (Stage::RecordingPayment, ProcessorEvent::Stored) => Self::succeed(id),
            (Stage::MarkingFailed { outcome }, _) => (
                PaymentProcessor { pr_event_id: id, stage: Stage::Finished { outcome } },
                ProcessorAction::Finish(outcome),
            ),
            (Stage::Finished { outcome }, _) => (
                PaymentProcessor { pr_event_id: id, stage: Stage::Finished { outcome } },
                ProcessorAction::Finish(outcome),
            ),
            _ => Self::fail(id, ProcessError::Io),
        }
    }

    /// Gives up with `e`.
    fn fail(pr_event_id: u128, e: ProcessError) -> (res: (PaymentProcessor, ProcessorAction))
        ensures
            res.0 == (PaymentProcessor { pr_event_id, stage: Stage::MarkingFailed { outcome: Err(e) } }),
            res.1 == ProcessorAction::MarkFailed,
    {
        (
            PaymentProcessor { pr_event_id, stage: Stage::MarkingFailed { outcome: Err(e) } },
            ProcessorAction::MarkFailed,
        )
    }

    /// Ends successfully.
    fn succeed(pr_event_id: u128) -> (res: (PaymentProcessor, ProcessorAction))
        ensures
            res.0 == (PaymentProcessor { pr_event_id, stage: Stage::Finished { outcome: Ok(()) } }),
            res.1 == ProcessorAction::Finish(Ok(())),
    {
        (
            PaymentProcessor { pr_event_id, stage: Stage::Finished { outcome: Ok(()) } },
            ProcessorAction::Finish(Ok(())),
        )
    }

    /// Acts on the evaluator's verdict.
    fn decide_verdict(pr_event_id: u128, wallet: String, delegation_hex: String, v: Verdict) -> (res:
        (PaymentProcessor, ProcessorAction))
        ensures
            res == decide(
                PaymentProcessor { pr_event_id, stage: Stage::Evaluating { wallet, delegation_hex } },
                wallet,
                delegation_hex,
                v,
            ),
            !v.approved ==> res.1 == ProcessorAction::RecordRejection(RejectionReason::Declined(v.reason)),
            v.approved && v.exceeds_daily_cap ==> res.1 == ProcessorAction::RecordRejection(
                RejectionReason::DailyCapExceeded,
            ),
            v.approved && !v.exceeds_daily_cap && v.non_positive_amount ==> res.1
                == ProcessorAction::RecordRejection(RejectionReason::InvalidAmount),
            v.approved && !v.exceeds_daily_cap && !v.non_positive_amount ==> res.1 == (
            ProcessorAction::Transfer { to_address: wallet, amount_micro: v.amount_micro, delegation_hex }),
    {
        if !v.approved {
            (
                PaymentProcessor { pr_event_id, stage: Stage::RecordingRejection },
                ProcessorAction::RecordRejection(RejectionReason::Declined(v.reason)),
            )
        } else if v.exceeds_daily_cap {
            (
                PaymentProcessor { pr_event_id, stage: Stage::RecordingRejection },
                ProcessorAction::RecordRejection(RejectionReason::DailyCapExceeded),
            )
        } else if v.non_positive_amount {
            (
                PaymentProcessor { pr_event_id, stage: Stage::RecordingRejection },
                ProcessorAction::RecordRejection(RejectionReason::InvalidAmount),
            )
        } else {
            (
                PaymentProcessor { pr_event_id, stage: Stage::Transferring { reason: v.reason } },
                ProcessorAction::Transfer {
                    to_address: wallet,
                    amount_micro: v.amount_micro,
                    delegation_hex,
                },
            )
        }
    }
}

} // verus!
