//! Lifecycle status of a merged pull request event.
use vstd::prelude::*;

verus! {

/// Where a pull-request event stands in the payout pipeline.
#[derive(Clone, Copy, Debug, PartialEq, Eq, Structural)]
pub enum PrStatus {
    Pending,
    Approved,
    Rejected,
    Paid,
    Failed,
}

/// The text stored in the `status` column for each status.
pub open spec fn status_text(s: PrStatus) -> Seq<char> {
    match s {
        PrStatus::Pending => "pending"@,
        PrStatus::Approved => "approved"@,
        PrStatus::Rejected => "rejected"@,
        PrStatus::Paid => "paid"@,
        PrStatus::Failed => "failed"@,
    }
}

impl PrStatus {
    /// The database spelling of this status.
    pub fn as_str(&self) -> (res: &'static str)
        ensures
            res@ == status_text(*self),
    {
        match self {
            PrStatus::Pending => "pending",
            PrStatus::Approved => "approved",
            PrStatus::Rejected => "rejected",
            PrStatus::Paid => "paid",
            PrStatus::Failed => "failed",
        }
    }
}

/// Distinct statuses are stored under distinct texts, so the text read back
/// from the database names exactly one status.
pub proof fn lemma_status_text_injective(a: PrStatus, b: PrStatus)
    ensures
        status_text(a) == status_text(b) ==> a == b,
{
    reveal_strlit("pending");
    reveal_strlit("approved");
    reveal_strlit("rejected");
    reveal_strlit("paid");
    reveal_strlit("failed");
    if status_text(a) == status_text(b) && a != b {
        assert(status_text(a)[0] == status_text(b)[0]);
        assert(status_text(a).len() == status_text(b).len());
        assert(status_text(a)[1] == status_text(b)[1]);
    }
}

} // verus!
