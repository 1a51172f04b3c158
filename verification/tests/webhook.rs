use grantbot::webhook::{RepoSecret, UtcTimestamp, WebhookAction, WebhookEvent, WebhookHandler, WebhookResponse};
use hmac::{Hmac, Mac};
use sha2::Sha256;

const SECRET: &str = "s3cret";

fn sign(secret: &str, payload: &[u8]) -> String {
    let mut mac = Hmac::<Sha256>::new_from_slice(secret.as_bytes()).unwrap();
    mac.update(payload);
    format!("sha256={}", hex::encode(mac.finalize().into_bytes()))
}

fn merged_payload() -> Vec<u8> {
    br#"{"action":"closed","repository":{"name":"testrepo","owner":{"login":"testuser"}},
        "pull_request":{"merged":true,"number":17,"title":"Fix critical bug","user":{"login":"contributor1"},
        "merged_at":"2024-05-01T12:30:00Z"}}"#
        .to_vec()
}

fn repo() -> WebhookEvent {
    WebhookEvent::RepoFound(Some(RepoSecret { id: 42, webhook_secret: SECRET.to_string() }))
}

fn responds(a: &WebhookAction, r: WebhookResponse) -> bool {
    matches!(a, WebhookAction::Respond(x) if *x == r)
}

#[test]
fn merged_pr_is_recorded_and_processed() {
    let body = merged_payload();
    let sig = sign(SECRET, &body);
    let (h, a) = WebhookHandler::receive(Some(sig), body);
    assert!(matches!(&a, WebhookAction::LookupRepo { owner, repo_name } if owner == "testuser" && repo_name == "testrepo"));
    let (h, a) = h.step(repo());
    match &a {
        WebhookAction::InsertPrEvent(e) => {
            assert_eq!(e.pr_number, 17);
            assert_eq!(e.pr_title, "Fix critical bug");
            assert_eq!(e.contributor, "contributor1");
            assert_eq!(e.repo_id, 42);
            assert_eq!(e.merged_at, Some(UtcTimestamp { secs: 1714566600, nanos: 0 }));
        }
        _ => panic!("expected an insert"),
    }
    let (h, a) = h.step(WebhookEvent::Inserted(5));
    assert!(matches!(a, WebhookAction::StartProcessing { pr_event_id: 5 }));
    assert!(matches!(h, WebhookHandler::Done(WebhookResponse::Accepted)));
}

#[test]
fn missing_signature_is_unauthorized() {
    let (_, a) = WebhookHandler::receive(None, merged_payload());
    assert!(responds(&a, WebhookResponse::Unauthorized));
    assert_eq!(WebhookResponse::Unauthorized.code(), 401);
}

#[test]
fn malformed_payload_is_bad_request() {
    let (_, a) = WebhookHandler::receive(Some("sha256=00".to_string()), b"not json".to_vec());
    assert!(responds(&a, WebhookResponse::BadRequest));
    let (_, a) = WebhookHandler::receive(Some("sha256=00".to_string()), br#"{"repository":{"name":"x"}}"#.to_vec());
    assert!(responds(&a, WebhookResponse::BadRequest));
    assert_eq!(WebhookResponse::BadRequest.code(), 400);
}

#[test]
fn unknown_repo_is_accepted() {
    let (h, _) = WebhookHandler::receive(Some("sha256=00".to_string()), merged_payload());
    let (_, a) = h.step(WebhookEvent::RepoFound(None));
    assert!(responds(&a, WebhookResponse::Accepted));
    assert_eq!(WebhookResponse::Accepted.code(), 200);
}

#[test]
fn wrong_signature_is_unauthorized() {
    let body = merged_payload();
    let sig = sign("other", &body);
    let (h, _) = WebhookHandler::receive(Some(sig), body);
    let (_, a) = h.step(repo());
    assert!(responds(&a, WebhookResponse::Unauthorized));
}

#[test]
fn lookup_failure_is_internal_error() {
    let (h, _) = WebhookHandler::receive(Some("sha256=00".to_string()), merged_payload());
    let (_, a) = h.step(WebhookEvent::RepoLookupFailed);
    assert!(responds(&a, WebhookResponse::InternalServerError));
    assert_eq!(WebhookResponse::InternalServerError.code(), 500);
}

#[test]
fn unmerged_close_is_accepted_without_record() {
    let body = br#"{"action":"closed","repository":{"name":"r","owner":{"login":"o"}},"pull_request":{"merged":false}}"#.to_vec();
    let sig = sign(SECRET, &body);
    let (h, _) = WebhookHandler::receive(Some(sig), body);
    let (_, a) = h.step(repo());
    assert!(responds(&a, WebhookResponse::Accepted));
}

#[test]
fn defaults_for_missing_fields() {
    let body = br#"{"action":"closed","repository":{"name":"r","owner":{"login":"o"}},
        "pull_request":{"merged":true,"number":4294967297,"merged_at":"yesterday"}}"#.to_vec();
    let sig = sign(SECRET, &body);
    let (h, _) = WebhookHandler::receive(Some(sig), body);
    let (h, a) = h.step(repo());
    match &a {
        WebhookAction::InsertPrEvent(e) => {
            assert_eq!(e.pr_number, 1);
            assert_eq!(e.pr_title, "Untitled PR");
            assert_eq!(e.contributor, "unknown");
            assert_eq!(e.merged_at, None);
        }
        _ => panic!("expected an insert"),
    }
    let (_, a) = h.step(WebhookEvent::InsertFailed);
    assert!(responds(&a, WebhookResponse::InternalServerError));
}
