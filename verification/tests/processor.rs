use grantbot::processor::{
    PaymentProcessor, PrEventRow, ProcessError, ProcessorAction, ProcessorEvent, RejectionReason,
    Stage, Verdict,
};
use grantbot::status::PrStatus;

const ID: u128 = 7;
const REPO: u128 = 99;

fn row() -> PrEventRow {
    PrEventRow { pr_number: 12, pr_title: "Fix bug".to_string(), contributor: "alice".to_string(), repo_id: REPO }
}

fn verdict(approved: bool, exceeds: bool, non_positive: bool) -> Verdict {
    Verdict {
        approved,
        reason: "looks good".to_string(),
        exceeds_daily_cap: exceeds,
        non_positive_amount: non_positive,
        amount_micro: 5_000_000,
    }
}

fn run(events: Vec<ProcessorEvent>) -> (PaymentProcessor, Vec<ProcessorAction>) {
    let (mut p, first) = PaymentProcessor::new(ID);
    let mut actions = vec![first];
    for e in events {
        let (q, a) = p.step(e);
        p = q;
        actions.push(a);
    }
    (p, actions)
}

fn through_evaluation() -> Vec<ProcessorEvent> {
    vec![
        ProcessorEvent::PrEventLoaded(Some(row())),
        ProcessorEvent::RepoLoaded(Some(Some("0xdeleg".to_string()))),
        ProcessorEvent::WalletLoaded(Some("0xwallet".to_string())),
        ProcessorEvent::DailySpentLoaded,
    ]
}

#[test]
fn approved_pull_request_is_paid() {
    let mut events = through_evaluation();
    events.push(ProcessorEvent::Evaluated(verdict(true, false, false)));
    events.push(ProcessorEvent::Transferred(Some("0xtx".to_string())));
    events.push(ProcessorEvent::Stored);
    let (p, a) = run(events);
    assert!(matches!(a[0], ProcessorAction::LoadPrEvent { pr_event_id: ID }));
    assert!(matches!(a[1], ProcessorAction::LoadRepo { repo_id: REPO }));
    assert!(matches!(&a[2], ProcessorAction::LoadWallet { contributor, repo_id: REPO } if contributor == "alice"));
    assert!(matches!(a[3], ProcessorAction::LoadDailySpent { repo_id: REPO }));
    assert!(matches!(&a[4], ProcessorAction::Evaluate { pr_title, contributor } if pr_title == "Fix bug" && contributor == "alice"));
    assert!(matches!(&a[5], ProcessorAction::Transfer { to_address, amount_micro: 5_000_000, delegation_hex }
        if to_address == "0xwallet" && delegation_hex == "0xdeleg"));
    assert!(matches!(&a[6], ProcessorAction::RecordPayment { tx_hash, reason } if tx_hash == "0xtx" && reason == "looks good"));
    assert!(matches!(a[7], ProcessorAction::Finish(Ok(()))));
    assert!(matches!(p.stage, Stage::Finished { outcome: Ok(()) }));
    assert_eq!(a.iter().filter(|x| matches!(x, ProcessorAction::Transfer { .. })).count(), 1);
}

#[test]
fn unregistered_contributor_is_rejected() {
    let events = vec![
        ProcessorEvent::PrEventLoaded(Some(row())),
        ProcessorEvent::RepoLoaded(Some(Some("0xdeleg".to_string()))),
        ProcessorEvent::WalletLoaded(None),
        ProcessorEvent::Stored,
    ];
    let (_, a) = run(events);
    assert!(matches!(a[3], ProcessorAction::SetStatus { status: PrStatus::Rejected }));
    assert!(matches!(a[4], ProcessorAction::Finish(Ok(()))));
}

#[test]
fn missing_delegation_is_rejected() {
    let events = vec![
        ProcessorEvent::PrEventLoaded(Some(row())),
        ProcessorEvent::RepoLoaded(Some(None)),
        ProcessorEvent::WalletLoaded(Some("0xwallet".to_string())),
        ProcessorEvent::Stored,
    ];
    let (_, a) = run(events);
    assert!(matches!(a[3], ProcessorAction::SetStatus { status: PrStatus::Rejected }));
    assert!(matches!(a[4], ProcessorAction::Finish(Ok(()))));
}

fn rejection_after(v: Verdict) -> String {
    let mut events = through_evaluation();
    events.push(ProcessorEvent::Evaluated(v));
    events.push(ProcessorEvent::Stored);
    let (_, a) = run(events);
    assert!(matches!(a[6], ProcessorAction::Finish(Ok(()))));
    match &a[5] {
        ProcessorAction::RecordRejection(r) => r.text(),
        _ => panic!("expected a rejection record"),
    }
}

#[test]
fn declined_records_reason() {
    assert_eq!(rejection_after(verdict(false, true, true)), "looks good");
}

#[test]
fn over_daily_cap_is_rejected() {
    assert_eq!(rejection_after(verdict(true, true, true)), "Daily cap exceeded");
}

#[test]
fn non_positive_amount_is_rejected() {
    assert_eq!(rejection_after(verdict(true, false, true)), "Invalid amount from AI");
}

#[test]
fn rejection_reason_texts() {
    assert_eq!(RejectionReason::DailyCapExceeded.text(), "Daily cap exceeded");
    assert_eq!(RejectionReason::InvalidAmount.text(), "Invalid amount from AI");
    assert_eq!(RejectionReason::Declined("nope".to_string()).text(), "nope");
}

#[test]
fn relay_failure_marks_failed_but_succeeds() {
    let mut events = through_evaluation();
    events.push(ProcessorEvent::Evaluated(verdict(true, false, false)));
    events.push(ProcessorEvent::Transferred(None));
    events.push(ProcessorEvent::Failed);
    let (_, a) = run(events);
    assert!(matches!(a[6], ProcessorAction::MarkFailed));
    assert!(matches!(a[7], ProcessorAction::Finish(Ok(()))));
}

#[test]
fn missing_event_is_error() {
    let (_, a) = run(vec![ProcessorEvent::PrEventLoaded(None), ProcessorEvent::Stored]);
    assert!(matches!(a[1], ProcessorAction::MarkFailed));
    assert!(matches!(a[2], ProcessorAction::Finish(Err(ProcessError::PrEventNotFound))));
}

#[test]
fn missing_repo_is_error() {
    let (_, a) = run(vec![
        ProcessorEvent::PrEventLoaded(Some(row())),
        ProcessorEvent::RepoLoaded(None),
        ProcessorEvent::Failed,
    ]);
    assert!(matches!(a[2], ProcessorAction::MarkFailed));
    assert!(matches!(a[3], ProcessorAction::Finish(Err(ProcessError::RepoNotFound))));
}

#[test]
fn database_failure_is_error() {
    let mut events = through_evaluation();
    events.push(ProcessorEvent::Failed); // the evaluation failed
    events.push(ProcessorEvent::Stored);
    let (p, a) = run(events);
    assert!(matches!(a[5], ProcessorAction::MarkFailed));
    assert!(matches!(a[6], ProcessorAction::Finish(Err(ProcessError::Io))));
    assert!(matches!(p.stage, Stage::Finished { outcome: Err(ProcessError::Io) }));
}

#[test]
fn failed_payment_write_is_error() {
    let mut events = through_evaluation();
    events.push(ProcessorEvent::Evaluated(verdict(true, false, false)));
    events.push(ProcessorEvent::Transferred(Some("0xtx".to_string())));
    events.push(ProcessorEvent::Failed);
    events.push(ProcessorEvent::Stored);
    let (_, a) = run(events);
    assert!(matches!(a[7], ProcessorAction::MarkFailed));
    assert!(matches!(a[8], ProcessorAction::Finish(Err(ProcessError::Io))));
}

#[test]
fn unexpected_answer_counts_as_failure() {
    let (_, a) = run(vec![ProcessorEvent::Stored, ProcessorEvent::Stored]);
    assert!(matches!(a[1], ProcessorAction::MarkFailed));
    assert!(matches!(a[2], ProcessorAction::Finish(Err(ProcessError::Io))));
}

#[test]
fn finished_stays_finished() {
    let (p, _) = run(vec![ProcessorEvent::PrEventLoaded(None), ProcessorEvent::Stored]);
    let (p, a) = p.step(ProcessorEvent::Stored);
    assert!(matches!(a, ProcessorAction::Finish(Err(ProcessError::PrEventNotFound))));
    assert!(matches!(p.stage, Stage::Finished { .. }));
}
