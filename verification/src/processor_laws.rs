//! What holds of every run of the payment processor.
use vstd::prelude::*;
use crate::status::PrStatus;
use crate::processor::{PaymentProcessor, ProcessorAction, ProcessorEvent, ProcessError, RejectionReason, Stage, Verdict, initial, spec_step};

verus! {

/// The processor and the actions after answering `events` in order,
/// one action per event.
pub open spec fn run(p: PaymentProcessor, events: Seq<ProcessorEvent>) -> (PaymentProcessor, Seq<ProcessorAction>)
    decreases events.len(),
{
    if events.len() == 0 {
        (p, Seq::empty())
    } else {
        let (q, acts) = run(p, events.drop_last());
        let (r, a) = spec_step(q, events.last());
        (r, acts.push(a))
    }
}

/// The processor of `pr_event_id` after its first `k` events.
pub open spec fn state_after(pr_event_id: u128, events: Seq<ProcessorEvent>, k: int) -> PaymentProcessor {
    run(initial(pr_event_id), events.take(k)).0
}

/// How many steps at most separate a stage from the end.
pub open spec fn rank(s: Stage) -> nat {
    match s {
        Stage::LoadingPrEvent => 8,
        Stage::LoadingRepo { .. } => 7,
        Stage::LoadingWallet { .. } => 6,
        Stage::LoadingDailySpent { .. } => 5,
        Stage::Evaluating { .. } => 4,
        Stage::Transferring { .. } => 3,
        Stage::RejectingUnpayable => 2,
        Stage::RecordingRejection => 2,
        Stage::RecordingPayment => 2,
        Stage::MarkingFailed { .. } => 1,
        Stage::Finished { .. } => 0,
    }
}

/// Each step moves closer to the end; the end is never left, and it is
/// entered with a `Finish` action.
proof fn lemma_step_rank(p: PaymentProcessor, e: ProcessorEvent)
    ensures
        !(p.stage is Finished) ==> rank(spec_step(p, e).0.stage) < rank(p.stage),
        p.stage is Finished ==> spec_step(p, e).0.stage is Finished,
        spec_step(p, e).0.stage is Finished ==> spec_step(p, e).1 is Finish,
        spec_step(p, e).0.pr_event_id == p.pr_event_id,
{
}

/// One action answers each event.
proof fn lemma_run_len(p: PaymentProcessor, events: Seq<ProcessorEvent>)
    ensures
        run(p, events).1.len() == events.len(),
    decreases events.len(),
{
    if events.len() > 0 {
        lemma_run_len(p, events.drop_last());
    }
}

/// The `k`-th action of a run answers the `k`-th event in the state reached
/// by the events before it.
proof fn lemma_run_prefix(p: PaymentProcessor, events: Seq<ProcessorEvent>, k: int)
    requires
        0 <= k < events.len(),
    ensures
        run(p, events).1.len() == events.len(),
        run(p, events).1[k] == spec_step(run(p, events.take(k)).0, events[k]).1,
        run(p, events.take(k + 1)).0 == spec_step(run(p, events.take(k)).0, events[k]).0,
    decreases events.len(),
{
    lemma_run_len(p, events);
    let d = events.drop_last();
    lemma_run_len(p, d);
    if k == events.len() - 1 {
        assert(events.take(k) =~= d);
        assert(events.take(k + 1) =~= events);
    } else {
        lemma_run_prefix(p, d, k);
        assert(d.take(k) =~= events.take(k));
        assert(d.take(k + 1) =~= events.take(k + 1));
        assert(d[k] == events[k]);
    }
}

/// The state after `k + 1` events is the step from the state after `k`,
/// and the `k`-th action is that step's action.
proof fn lemma_state_after_step(id: u128, events: Seq<ProcessorEvent>, k: int)
    requires
        0 <= k < events.len(),
    ensures
        state_after(id, events, k + 1) == spec_step(state_after(id, events, k), events[k]).0,
        run(initial(id), events).1[k] == spec_step(state_after(id, events, k), events[k]).1,
        run(initial(id), events).1.len() == events.len(),
{
    lemma_run_prefix(initial(id), events, k);
}

/// The processor starts in its first stage.
proof fn lemma_state_after_zero(id: u128, events: Seq<ProcessorEvent>)
    ensures
        state_after(id, events, 0) == initial(id),
{
    assert(events.take(0) =~= Seq::<ProcessorEvent>::empty());
}

/// Progress: after `k` events the processor is within `8 - k` steps of the
/// end, and it keeps the event it processes.
proof fn lemma_progress(id: u128, events: Seq<ProcessorEvent>, k: int)
    requires
        0 <= k <= events.len(),
    ensures
        state_after(id, events, k).stage is Finished || rank(state_after(id, events, k).stage) + k <= 8,
        state_after(id, events, k).pr_event_id == id,
    decreases k,
{
    if k == 0 {
        lemma_state_after_zero(id, events);
    } else {
        lemma_progress(id, events, k - 1);
        lemma_state_after_step(id, events, k - 1);
        lemma_step_rank(state_after(id, events, k - 1), events[k - 1]);
    }
}

/// Processing ends: whatever the answers, the eighth action after the
/// first at the latest is `Finish`, and the processor is finished from then on.
pub proof fn lemma_processing_terminates(id: u128, events: Seq<ProcessorEvent>)
    requires
        events.len() >= 8,
    ensures
        run(initial(id), events).1[7] is Finish,
        run(initial(id), events).0.stage is Finished,
{
    lemma_progress(id, events, 8);
    lemma_progress(id, events, events.len() as int);
    lemma_state_after_step(id, events, 7);
    lemma_step_rank(state_after(id, events, 7), events[7]);
    assert(events.take(events.len() as int) =~= events);
}

/// The stage never moves back towards the start.
proof fn lemma_rank_monotone(id: u128, events: Seq<ProcessorEvent>, m: int, k: int)
    requires
        0 <= m <= k <= events.len(),
    ensures
        rank(state_after(id, events, k).stage) <= rank(state_after(id, events, m).stage),
    decreases k - m,
{
    if k > m {
        lemma_rank_monotone(id, events, m, k - 1);
        lemma_state_after_step(id, events, k - 1);
        lemma_step_rank(state_after(id, events, k - 1), events[k - 1]);
    }
}

/// Where the wallet and delegation held by the processor came from.
pub open spec fn provenance(p: PaymentProcessor, seen: Seq<ProcessorEvent>) -> bool {
    match p.stage {
        Stage::LoadingRepo { pr } => seen.contains(ProcessorEvent::PrEventLoaded(Some(pr))),
        Stage::LoadingWallet { pr, delegation } => {
            &&& seen.contains(ProcessorEvent::RepoLoaded(Some(delegation)))
            &&& seen.contains(ProcessorEvent::PrEventLoaded(Some(pr)))
        },
        Stage::LoadingDailySpent { pr, wallet, delegation_hex } => {
            &&& seen.contains(ProcessorEvent::RepoLoaded(Some(Some(delegation_hex))))
            &&& seen.contains(ProcessorEvent::WalletLoaded(Some(wallet)))
            &&& seen.contains(ProcessorEvent::PrEventLoaded(Some(pr)))
        },
        Stage::Evaluating { wallet, delegation_hex } => {
            &&& seen.contains(ProcessorEvent::RepoLoaded(Some(Some(delegation_hex))))
            &&& seen.contains(ProcessorEvent::WalletLoaded(Some(wallet)))
        },
        _ => true,
    }
}

/// The wallet and delegation held after `k` events were read from the
/// database by one of those events.
proof fn lemma_provenance(id: u128, events: Seq<ProcessorEvent>, k: int)
    requires
        0 <= k <= events.len(),
    ensures
        provenance(state_after(id, events, k), events.take(k)),
    decreases k,
{
    if k == 0 {
        lemma_state_after_zero(id, events);
    } else {
        lemma_provenance(id, events, k - 1);
        lemma_state_after_step(id, events, k - 1);
        let prev = events.take(k - 1);
        let cur = events.take(k);
        assert(cur =~= prev.push(events[k - 1]));
        assert forall|x: ProcessorEvent| prev.contains(x) implies cur.contains(x) by {
            let j = choose|j: int| 0 <= j < prev.len() && prev[j] == x;
            assert(cur[j] == x);
        }
        assert(cur[k - 1] == events[k - 1]);
    }
}

/// Whether `e` reports the event row `pr` with this contributor, title and
/// repository.
pub open spec fn reports_row(e: ProcessorEvent, contributor: Seq<char>, title: Option<Seq<char>>, repo_id: u128) -> bool {
    &&& e is PrEventLoaded
    &&& e->PrEventLoaded_0 is Some
    &&& e->PrEventLoaded_0->Some_0.contributor@ == contributor
    &&& e->PrEventLoaded_0->Some_0.repo_id == repo_id
    &&& title matches Some(t) ==> e->PrEventLoaded_0->Some_0.pr_title@ == t
}

/// Every lookup concerns the pull-request event that was read: the
/// repository is the event's, the wallet looked up is that of the event's
/// contributor in the event's repository, and the evaluator is asked about
/// the event's title and contributor.
pub proof fn lemma_lookups_follow_event(id: u128, events: Seq<ProcessorEvent>, k: int)
    requires
        0 <= k < events.len(),
    ensures
        ({
            let a = run(initial(id), events).1[k];
            &&& a matches ProcessorAction::LoadRepo { repo_id } ==> events[k] is PrEventLoaded
                && events[k]->PrEventLoaded_0 is Some
                && events[k]->PrEventLoaded_0->Some_0.repo_id == repo_id
            &&& a matches ProcessorAction::LoadWallet { contributor, repo_id } ==> exists|j: int|
                0 <= j < k && #[trigger] reports_row(events[j], contributor@, None, repo_id)
            &&& a matches ProcessorAction::Evaluate { pr_title, contributor } ==> exists|j: int, r: u128|
                0 <= j < k && #[trigger] reports_row(events[j], contributor@, Some(pr_title@), r)
        }),
{
    lemma_state_after_step(id, events, k);
    lemma_provenance(id, events, k);
    let s = state_after(id, events, k);
    let seen = events.take(k);
    let a = run(initial(id), events).1[k];
    match s.stage {
        Stage::LoadingRepo { pr } => {
            let x = ProcessorEvent::PrEventLoaded(Some(pr));
            assert(seen.contains(x));
            let j = choose|j: int| 0 <= j < seen.len() && seen[j] == x;
            assert(events[j] == x);
            assert(reports_row(events[j], pr.contributor@, None, pr.repo_id));
            if a is LoadWallet {
                assert(a->LoadWallet_contributor == pr.contributor);
                assert(a->LoadWallet_repo_id == pr.repo_id);
                assert(exists|i: int| 0 <= i < k && #[trigger] reports_row(events[i], a->LoadWallet_contributor@, None, a->LoadWallet_repo_id));
            }
        },
        Stage::LoadingDailySpent { pr, .. } => {
            let x = ProcessorEvent::PrEventLoaded(Some(pr));
            assert(seen.contains(x));
            let j = choose|j: int| 0 <= j < seen.len() && seen[j] == x;
            assert(events[j] == x);
            assert(reports_row(events[j], pr.contributor@, Some(pr.pr_title@), pr.repo_id));
            if a is Evaluate {
                assert(a->Evaluate_contributor == pr.contributor);
                assert(a->pr_title == pr.pr_title);
                assert(exists|i: int, r: u128| 0 <= i < k && #[trigger] reports_row(events[i], a->Evaluate_contributor@, Some(a->pr_title@), r));
            }
        },
        _ => {},
    }
}

/// A payout is made only when it is due: a `Transfer` answers an approval
/// of a positive amount within the daily cap, sends that amount, and goes
/// to the wallet registered for the contributor under the repository's
/// delegation, both read earlier in the same run.
pub proof fn lemma_transfer_only_when_due(
    id: u128,
    events: Seq<ProcessorEvent>,
    i: int,
    to_address: String,
    amount_micro: u64,
    delegation_hex: String,
)
    requires
        0 <= i < events.len(),
        run(initial(id), events).1[i] == (ProcessorAction::Transfer { to_address, amount_micro, delegation_hex }),
    ensures
        events[i] is Evaluated,
        events[i]->Evaluated_0.approved,
        !events[i]->Evaluated_0.exceeds_daily_cap,
        !events[i]->Evaluated_0.non_positive_amount,
        events[i]->Evaluated_0.amount_micro == amount_micro,
        exists|j: int| 0 <= j < i && events[j] == ProcessorEvent::WalletLoaded(Some(to_address)),
        exists|j: int| 0 <= j < i && events[j] == ProcessorEvent::RepoLoaded(Some(Some(delegation_hex))),
{
    lemma_state_after_step(id, events, i);
    lemma_provenance(id, events, i);
    let s = state_after(id, events, i);
    let seen = events.take(i);
    assert(s.stage is Evaluating);
    let w = ProcessorEvent::WalletLoaded(Some(to_address));
    let r = ProcessorEvent::RepoLoaded(Some(Some(delegation_hex)));
    assert(seen.contains(w));
    assert(seen.contains(r));
    let jw = choose|j: int| 0 <= j < seen.len() && seen[j] == w;
    let jr = choose|j: int| 0 <= j < seen.len() && seen[j] == r;
    assert(events[jw] == w);
    assert(events[jr] == r);
}

/// No double payment: a run transfers at most once.
pub proof fn lemma_at_most_one_transfer(id: u128, events: Seq<ProcessorEvent>, i: int, j: int)
    requires
        0 <= i < j < events.len(),
    ensures
        !(run(initial(id), events).1[i] is Transfer && run(initial(id), events).1[j] is Transfer),
{
    lemma_state_after_step(id, events, i);
    lemma_state_after_step(id, events, j);
    if run(initial(id), events).1[i] is Transfer && run(initial(id), events).1[j] is Transfer {
        assert(state_after(id, events, i + 1).stage is Transferring);
        lemma_rank_monotone(id, events, i + 1, j);
        assert(state_after(id, events, j).stage is Evaluating);
    }
}

/// A pull request is recorded as paid only with the transaction hash of a
/// transfer that succeeded just before, and with the reason of the approval
/// that ordered that transfer.
pub proof fn lemma_paid_only_after_transfer(
    id: u128,
    events: Seq<ProcessorEvent>,
    i: int,
    tx_hash: String,
    reason: String,
)
    requires
        0 <= i < events.len(),
        run(initial(id), events).1[i] == (ProcessorAction::RecordPayment { tx_hash, reason }),
    ensures
        i >= 1,
        events[i] == ProcessorEvent::Transferred(Some(tx_hash)),
        run(initial(id), events).1[i - 1] is Transfer,
        events[i - 1] is Evaluated,
        events[i - 1]->Evaluated_0.reason == reason,
{
    lemma_state_after_step(id, events, i);
    let s = state_after(id, events, i);
    assert(s.stage is Transferring);
    if i == 0 {
        lemma_state_after_zero(id, events);
    } else {
        lemma_state_after_step(id, events, i - 1);
    }
}

/// A run that ends in an error has first asked to mark the event failed.
pub proof fn lemma_error_marks_failed(id: u128, events: Seq<ProcessorEvent>, i: int, e: ProcessError)
    requires
        0 <= i < events.len(),
        run(initial(id), events).1[i] == ProcessorAction::Finish(Err(e)),
    ensures
        exists|j: int| 0 <= j < i && run(initial(id), events).1[j] == ProcessorAction::MarkFailed,
{
    lemma_marked_before(id, events, i);
    lemma_state_after_step(id, events, i);
}

/// A failed relay is not an error of processing: the event is marked failed
/// and processing ends successfully.
pub proof fn lemma_relay_failure_is_no_error(id: u128, events: Seq<ProcessorEvent>, i: int)
    requires
        0 <= i,
        i + 2 < events.len(),
        run(initial(id), events).1[i] is Transfer,
        events[i + 1] == ProcessorEvent::Transferred(None),
    ensures
        run(initial(id), events).1[i + 1] == ProcessorAction::MarkFailed,
        run(initial(id), events).1[i + 2] == ProcessorAction::Finish(Ok(())),
{
    lemma_state_after_step(id, events, i);
    lemma_state_after_step(id, events, i + 1);
    lemma_state_after_step(id, events, i + 2);
}

/// A pull request is rejected before evaluation only when its contributor
/// has no registered wallet in the repository or the repository has no
/// delegation.
pub proof fn lemma_early_rejection_explained(id: u128, events: Seq<ProcessorEvent>, i: int)
    requires
        0 <= i < events.len(),
        run(initial(id), events).1[i] == (ProcessorAction::SetStatus { status: PrStatus::Rejected }),
    ensures
        events[i] == ProcessorEvent::WalletLoaded(None) || exists|j: int|
            0 <= j < i && events[j] == ProcessorEvent::RepoLoaded(Some(None)),
{
    lemma_state_after_step(id, events, i);
    lemma_provenance(id, events, i);
    let s = state_after(id, events, i);
    assert(s.stage is LoadingWallet);
    if events[i] != ProcessorEvent::WalletLoaded(None) {
        let seen = events.take(i);
        let r = ProcessorEvent::RepoLoaded(Some(None));
        assert(seen.contains(r));
        let j = choose|j: int| 0 <= j < seen.len() && seen[j] == r;
        assert(events[j] == r);
    }
}

/// The evaluator's verdict is checked in a fixed order, and the first check
/// that fails names the rejection: a declined pull request is rejected with
/// the evaluator's reason; an approved one whose amount would exceed the
/// daily cap is rejected as over the cap, whatever its amount; an approved
/// one within the cap whose amount is not positive is rejected as an invalid
/// amount; only an approved, within-cap, positive amount is transferred, to
/// the wallet and under the delegation held, in the approved amount.
pub proof fn lemma_verdict_checks_in_order(
    pr_event_id: u128,
    wallet: String,
    delegation_hex: String,
    v: Verdict,
)
    ensures
        ({
            let p = PaymentProcessor { pr_event_id, stage: Stage::Evaluating { wallet, delegation_hex } };
            let a = spec_step(p, ProcessorEvent::Evaluated(v)).1;
            &&& !v.approved ==> a == ProcessorAction::RecordRejection(RejectionReason::Declined(v.reason))
            &&& v.approved && v.exceeds_daily_cap ==> a == ProcessorAction::RecordRejection(
                RejectionReason::DailyCapExceeded,
            )
            &&& v.approved && !v.exceeds_daily_cap && v.non_positive_amount ==> a
                == ProcessorAction::RecordRejection(RejectionReason::InvalidAmount)
            &&& v.approved && !v.exceeds_daily_cap && !v.non_positive_amount ==> a == (
            ProcessorAction::Transfer { to_address: wallet, amount_micro: v.amount_micro, delegation_hex })
        }),
{
}

/// Whether the processor is marking the event failed or has ended in error.
pub open spec fn failing(s: Stage) -> bool {
    match s {
        Stage::MarkingFailed { .. } => true,
        Stage::Finished { outcome } => outcome is Err,
        _ => false,
    }
}

/// A processor that is marking the event failed, or has finished with an
/// error, was asked to mark it failed by an earlier action.
proof fn lemma_marked_before(id: u128, events: Seq<ProcessorEvent>, k: int)
    requires
        0 <= k <= events.len(),
    ensures
        failing(state_after(id, events, k).stage) ==> exists|j: int|
            0 <= j < k && run(initial(id), events).1[j] == ProcessorAction::MarkFailed,
    decreases k,
{
    if k == 0 {
        lemma_state_after_zero(id, events);
    } else {
        lemma_marked_before(id, events, k - 1);
        lemma_state_after_step(id, events, k - 1);
        let s = state_after(id, events, k - 1);
        let t = state_after(id, events, k);
        if failing(t.stage) {
            if failing(s.stage) {
            } else {
                assert(run(initial(id), events).1[k - 1] == ProcessorAction::MarkFailed);
            }
        }
    }
}

} // verus!
