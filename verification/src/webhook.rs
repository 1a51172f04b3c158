//! Handling of a GitHub `pull_request` webhook delivery.
//!
//! The handler is a small state machine: it asks the caller to look up the
//! repository named by the payload, then, for an authentic delivery of a
//! merged pull request, to record the pull-request event, and finally to
//! start its processing. All decisions, and the HTTP status of the answer,
//! are taken here.
use vstd::prelude::*;
use crate::json::{
    JsonStep, JsonStepView, json_is_valid, json_str_at, json_bool_at, json_i64_at, spec_json_valid,
    spec_json_str_at, spec_json_bool_at, spec_json_i64_at, opt_str_view, path_view,
};
use crate::signature::{signature_valid, verify_webhook_signature};

verus! {

/// An instant: seconds since the Unix epoch and nanoseconds within the second.
#[derive(Clone, Copy, Debug, PartialEq, Eq, Structural)]
pub struct UtcTimestamp {
    pub secs: i64,
    pub nanos: u32,
}

/// The instant that `chrono` reads from a date-time text, if it reads one.
pub uninterp spec fn spec_parse_utc_datetime(text: Seq<char>) -> Option<UtcTimestamp>;

/// Parses `text` as `chrono::DateTime<Utc>` (a relaxed RFC 3339, with any
/// offset converted to UTC) and returns its Unix seconds and sub-second
/// nanoseconds. The contract claims that the result is the named value.
#[verifier::external_body]
fn parse_utc_datetime(text: &str) -> (res: Option<UtcTimestamp>)
    ensures
        res == spec_parse_utc_datetime(text@),
{
    match text.parse::<chrono::DateTime<chrono::Utc>>() {
        Ok(t) => Some(UtcTimestamp { secs: t.timestamp(), nanos: t.timestamp_subsec_nanos() }),
        Err(_) => None,
    }
}

/// The HTTP status a delivery is answered with.
#[derive(Clone, Copy, Debug, PartialEq, Eq, Structural)]
pub enum WebhookResponse {
    /// 200: received (whether or not it led to a payout).
    Accepted,
    /// 400: the payload is not JSON or names no repository.
    BadRequest,
    /// 401: the signature header is missing or wrong.
    Unauthorized,
    /// 500: the database failed.
    InternalServerError,
}

impl WebhookResponse {
    /// The numeric HTTP status code.
    pub fn code(&self) -> (res: u16)
        ensures
            res == match *self {
                WebhookResponse::Accepted => 200u16,
                WebhookResponse::BadRequest => 400u16,
                WebhookResponse::Unauthorized => 401u16,
                WebhookResponse::InternalServerError => 500u16,
            },
    {
        match self {
            WebhookResponse::Accepted => 200,
            WebhookResponse::BadRequest => 400,
            WebhookResponse::Unauthorized => 401,
            WebhookResponse::InternalServerError => 500,
        }
    }
}

/// A `pr_events` row to insert with status "pending".
pub struct NewPrEvent {
    pub pr_number: i32,
    pub pr_title: String,
    pub contributor: String,
    pub repo_id: u128,
    /// When the pull request was merged; `None` means "now".
    pub merged_at: Option<UtcTimestamp>,
}

pub struct NewPrEventView {
    pub pr_number: i32,
    pub pr_title: Seq<char>,
    pub contributor: Seq<char>,
    pub repo_id: u128,
    pub merged_at: Option<UtcTimestamp>,
}

impl View for NewPrEvent {
    type V = NewPrEventView;

    open spec fn view(&self) -> NewPrEventView {
        NewPrEventView {
            pr_number: self.pr_number,
            pr_title: self.pr_title@,
            contributor: self.contributor@,
            repo_id: self.repo_id,
            merged_at: self.merged_at,
        }
    }
}

/// A registered repository: its id and webhook secret.
pub struct RepoSecret {
    pub id: u128,
    pub webhook_secret: String,
}

/// The answer to the last action.
pub enum WebhookEvent {
    /// The repository registered under the payload's owner and name, if any.
    RepoFound(Option<RepoSecret>),
    /// The repository lookup failed.
    RepoLookupFailed,
    /// The pull-request event was inserted under this id.
    Inserted(u128),
    /// The insert failed.
    InsertFailed,
}

pub enum WebhookEventView {
    RepoFound(Option<(u128, Seq<char>)>),
    RepoLookupFailed,
    Inserted(u128),
    InsertFailed,
}

impl View for WebhookEvent {
    type V = WebhookEventView;

    open spec fn view(&self) -> WebhookEventView {
        match self {
            WebhookEvent::RepoFound(Some(r)) => WebhookEventView::RepoFound(Some((r.id, r.webhook_secret@))),
            WebhookEvent::RepoFound(None) => WebhookEventView::RepoFound(None),
            WebhookEvent::RepoLookupFailed => WebhookEventView::RepoLookupFailed,
            WebhookEvent::Inserted(id) => WebhookEventView::Inserted(*id),
            WebhookEvent::InsertFailed => WebhookEventView::InsertFailed,
        }
    }
}

/// One piece of outside work, or the answer to the delivery.
pub enum WebhookAction {
    /// Look up the repository registered as `owner`/`repo_name`.
    LookupRepo { owner: String, repo_name: String },
    /// Insert the pull-request event with status "pending".
    InsertPrEvent(NewPrEvent),
    /// Start processing the inserted event in the background, then answer 200.
    StartProcessing { pr_event_id: u128 },
    /// Answer the delivery.
    Respond(WebhookResponse),
}

pub enum WebhookActionView {
    LookupRepo { owner: Seq<char>, repo_name: Seq<char> },
    InsertPrEvent(NewPrEventView),
    StartProcessing { pr_event_id: u128 },
    Respond(WebhookResponse),
}

impl View for WebhookAction {
    type V = WebhookActionView;

    open spec fn view(&self) -> WebhookActionView {
        match self {
            WebhookAction::LookupRepo { owner, repo_name } => WebhookActionView::LookupRepo {
                owner: owner@,
                repo_name: repo_name@,
            },
            WebhookAction::InsertPrEvent(e) => WebhookActionView::InsertPrEvent(e@),
            WebhookAction::StartProcessing { pr_event_id } => WebhookActionView::StartProcessing {
                pr_event_id: *pr_event_id,
            },
            WebhookAction::Respond(r) => WebhookActionView::Respond(*r),
        }
    }
}

/// Where the handling of a delivery stands.
pub enum WebhookHandler {
    /// Waiting for the repository lookup; holds the signature header and body.
    AwaitingRepo { signature: String, body: Vec<u8> },
    /// Waiting for the insert of the pull-request event.
    AwaitingInsert,
    /// Answered.
    Done(WebhookResponse),
}

pub enum WebhookHandlerView {
    AwaitingRepo { signature: Seq<char>, body: Seq<u8> },
    AwaitingInsert,
    Done(WebhookResponse),
}

impl View for WebhookHandler {
    type V = WebhookHandlerView;

    open spec fn view(&self) -> WebhookHandlerView {
        match self {
            WebhookHandler::AwaitingRepo { signature, body } => WebhookHandlerView::AwaitingRepo {
                signature: signature@,
                body: body@,
            },
            WebhookHandler::AwaitingInsert => WebhookHandlerView::AwaitingInsert,
            WebhookHandler::Done(r) => WebhookHandlerView::Done(*r),
        }
    }
}

/// The string at `path`, or `default` when there is none.
pub open spec fn str_or(body: Seq<u8>, path: Seq<JsonStepView>, default: Seq<char>) -> Seq<char> {
    match spec_json_str_at(body, path) {
        Some(s) => s,
        None => default,
    }
}

/// `repository.owner.login`
pub open spec fn owner_path() -> Seq<JsonStepView> {
    seq![JsonStepView::Key("repository"@), JsonStepView::Key("owner"@), JsonStepView::Key("login"@)]
}

/// `repository.name`
pub open spec fn repo_name_path() -> Seq<JsonStepView> {
    seq![JsonStepView::Key("repository"@), JsonStepView::Key("name"@)]
}

/// `action`
pub open spec fn action_path() -> Seq<JsonStepView> {
    seq![JsonStepView::Key("action"@)]
}

/// `pull_request.merged`
pub open spec fn merged_path() -> Seq<JsonStepView> {
    seq![JsonStepView::Key("pull_request"@), JsonStepView::Key("merged"@)]
}

/// `pull_request.number`
pub open spec fn number_path() -> Seq<JsonStepView> {
    seq![JsonStepView::Key("pull_request"@), JsonStepView::Key("number"@)]
}

/// `pull_request.title`
pub open spec fn title_path() -> Seq<JsonStepView> {
    seq![JsonStepView::Key("pull_request"@), JsonStepView::Key("title"@)]
}

/// `pull_request.user.login`
pub open spec fn author_path() -> Seq<JsonStepView> {
    seq![JsonStepView::Key("pull_request"@), JsonStepView::Key("user"@), JsonStepView::Key("login"@)]
}

/// `pull_request.merged_at`
pub open spec fn merged_at_path() -> Seq<JsonStepView> {
    seq![JsonStepView::Key("pull_request"@), JsonStepView::Key("merged_at"@)]
}

/// The repository owner named by the payload ("" if none).
pub open spec fn payload_owner(body: Seq<u8>) -> Seq<char> {
    str_or(body, owner_path(), ""@)
}

/// The repository name named by the payload ("" if none).
pub open spec fn payload_repo_name(body: Seq<u8>) -> Seq<char> {
    str_or(body, repo_name_path(), ""@)
}

/// Whether the payload reports a merged pull request being closed.
pub open spec fn payload_is_merge(body: Seq<u8>) -> bool {
    &&& str_or(body, action_path(), ""@) == "closed"@
    &&& spec_json_bool_at(body, merged_path()) == Some(true)
}

/// The pull-request event that a merge payload records for the repository
/// `repo_id`: number (0 if absent, truncated to 32 bits), title ("Untitled
/// PR" if absent), author ("unknown" if absent) and merge instant (if the
/// payload gives one that parses).
pub open spec fn payload_pr_event(body: Seq<u8>, repo_id: u128) -> NewPrEventView {
    NewPrEventView {
        pr_number: (match spec_json_i64_at(body, number_path()) {
            Some(n) => n,
            None => 0,
        }) as i32,
        pr_title: str_or(body, title_path(), "Untitled PR"@),
        contributor: str_or(body, author_path(), "unknown"@),
        repo_id,
        merged_at: match spec_json_str_at(body, merged_at_path()) {
            Some(s) => spec_parse_utc_datetime(s),
            None => None,
        },
    }
}

/// Answer at once with `r`.
pub open spec fn answer(r: WebhookResponse) -> (WebhookHandlerView, WebhookActionView) {
    (WebhookHandlerView::Done(r), WebhookActionView::Respond(r))
}

/// What a delivery with the signature header `signature` and the body
/// `body` leads to first: 401 without a signature, 400 for a body that is
/// not JSON or names no repository, else the lookup of the repository.
pub open spec fn spec_receive(signature: Option<Seq<char>>, body: Seq<u8>) -> (
    WebhookHandlerView,
    WebhookActionView,
) {
    match signature {
        None => answer(WebhookResponse::Unauthorized),
        Some(s) => if !spec_json_valid(body) {
            answer(WebhookResponse::BadRequest)
        } else if payload_owner(body).len() == 0 || payload_repo_name(body).len() == 0 {
            answer(WebhookResponse::BadRequest)
        } else {
            (
                WebhookHandlerView::AwaitingRepo { signature: s, body },
                WebhookActionView::LookupRepo {
                    owner: payload_owner(body),
                    repo_name: payload_repo_name(body),
                },
            )
        },
    }
}

/// The transition of the handler on an event. An event that does not answer
/// the last action counts as a database failure.
pub open spec fn spec_webhook_step(h: WebhookHandlerView, e: WebhookEventView) -> (
    WebhookHandlerView,
    WebhookActionView,
) {
    match (h, e) {
        (WebhookHandlerView::AwaitingRepo { .. }, WebhookEventView::RepoFound(None)) => answer(
            WebhookResponse::Accepted,
        ),
        (WebhookHandlerView::AwaitingRepo { signature, body }, WebhookEventView::RepoFound(Some(r))) => {
            if !signature_valid(r.1, body, signature) {
                answer(WebhookResponse::Unauthorized)
            } else if payload_is_merge(body) {
                (
                    WebhookHandlerView::AwaitingInsert,
                    WebhookActionView::InsertPrEvent(payload_pr_event(body, r.0)),
                )
            } else {
                answer(WebhookResponse::Accepted)
            }
        },
        (WebhookHandlerView::AwaitingInsert, WebhookEventView::Inserted(id)) => (
            WebhookHandlerView::Done(WebhookResponse::Accepted),
            WebhookActionView::StartProcessing { pr_event_id: id },
        ),
        (WebhookHandlerView::Done(r), _) => answer(r),
        _ => answer(WebhookResponse::InternalServerError),
    }
}

/// The string at `path` in `body`, or `default`.
fn str_at_or(body: &[u8], path: &Vec<JsonStep>, default: &str) -> (res: String)
    ensures
        res@ == match spec_json_str_at(body@, path_view(path@)) {
            Some(s) => s,
            None => default@,
        },
{
    match json_str_at(body, path) {
        Some(s) => s,
        None => String::from_str(default),
    }
}

/// The pull-request event recorded for a merge payload.
fn pr_event_of(body: &[u8], repo_id: u128) -> (res: NewPrEvent)
    ensures
        res@ == payload_pr_event(body@, repo_id),
{
    let number_steps = vec![JsonStep::Key("pull_request"), JsonStep::Key("number")];
    assert(path_view(number_steps@) =~= number_path());
    let title_steps = vec![JsonStep::Key("pull_request"), JsonStep::Key("title")];
    assert(path_view(title_steps@) =~= title_path());
    let author_steps = vec![JsonStep::Key("pull_request"), JsonStep::Key("user"), JsonStep::Key("login")];
    assert(path_view(author_steps@) =~= author_path());
    let merged_at_steps = vec![JsonStep::Key("pull_request"), JsonStep::Key("merged_at")];
    assert(path_view(merged_at_steps@) =~= merged_at_path());
    let number = match json_i64_at(body, &number_steps) {
        Some(n) => n,
        None => 0,
    };
    let merged_at = match json_str_at(body, &merged_at_steps) {
        Some(s) => parse_utc_datetime(s.as_str()),
        None => None,
    };
    NewPrEvent {
        pr_number: #[verifier::truncate] (number as i32),
        pr_title: str_at_or(body, &title_steps, "Untitled PR"),
        contributor: str_at_or(body, &author_steps, "unknown"),
        repo_id,
        merged_at,
    }
}

/// Whether the payload reports a merged pull request being closed.
fn is_merge(body: &[u8]) -> (res: bool)
    ensures
        res == payload_is_merge(body@),
{
    let action_steps = vec![JsonStep::Key("action")];
    assert(path_view(action_steps@) =~= action_path());
    let merged_steps = vec![JsonStep::Key("pull_request"), JsonStep::Key("merged")];
    assert(path_view(merged_steps@) =~= merged_path());
    let action = str_at_or(body, &action_steps, "");
    let closed = String::from_str("closed");
    let merged = match json_bool_at(body, &merged_steps) {
        Some(b) => b,
        None => false,
    };
    action == closed && merged
}

impl WebhookHandler {
    /// Receives a delivery: its `X-Hub-Signature-256` header (if present and
    /// readable) and its raw body.
    pub fn receive(signature: Option<String>, body: Vec<u8>) -> (res: (WebhookHandler, WebhookAction))
        ensures
            (res.0@, res.1@) == spec_receive(opt_str_view(signature), body@),
    {
        let signature = match signature {
            Some(s) => s,
            None => {
                return (
                    WebhookHandler::Done(WebhookResponse::Unauthorized),
                    WebhookAction::Respond(WebhookResponse::Unauthorized),
                )
            },
        };
        if !json_is_valid(body.as_slice()) {
            return (
                WebhookHandler::Done(WebhookResponse::BadRequest),
                WebhookAction::Respond(WebhookResponse::BadRequest),
            );
        }
        let owner_steps = vec![JsonStep::Key("repository"), JsonStep::Key("owner"), JsonStep::Key("login")];
        assert(path_view(owner_steps@) =~= owner_path());
        let repo_name_steps = vec![JsonStep::Key("repository"), JsonStep::Key("name")];
        assert(path_view(repo_name_steps@) =~= repo_name_path());
        let owner = str_at_or(body.as_slice(), &owner_steps, "");
        let repo_name = str_at_or(body.as_slice(), &repo_name_steps, "");
        proof {
            reveal_strlit("");
        }
        if owner.unicode_len() == 0 || repo_name.unicode_len() == 0 {
            return (
                WebhookHandler::Done(WebhookResponse::BadRequest),
                WebhookAction::Respond(WebhookResponse::BadRequest),
            );
        }
        (
            WebhookHandler::AwaitingRepo { signature, body },
            WebhookAction::LookupRepo { owner, repo_name },
        )
    }

    /// Takes the answer to the last action and returns the next action.
    pub fn step(self, event: WebhookEvent) -> (res: (WebhookHandler, WebhookAction))
        ensures
            (res.0@, res.1@) == spec_webhook_step(self@, event@),
    {
        match (self, event) {
            (WebhookHandler::AwaitingRepo { .. }, WebhookEvent::RepoFound(None)) => Self::answer(
                WebhookResponse::Accepted,
            ),
            (WebhookHandler::AwaitingRepo { signature, body }, WebhookEvent::RepoFound(Some(r))) => {
                if !verify_webhook_signature(r.webhook_secret.as_str(), body.as_slice(), signature.as_str()) {
                    Self::answer(WebhookResponse::Unauthorized)
                } else if is_merge(body.as_slice()) {
                    (WebhookHandler::AwaitingInsert, WebhookAction::InsertPrEvent(pr_event_of(body.as_slice(), r.id)))
                } else {
                    Self::answer(WebhookResponse::Accepted)
                }
            },
            (WebhookHandler::AwaitingInsert, WebhookEvent::Inserted(id)) => (
                WebhookHandler::Done(WebhookResponse::Accepted),
                WebhookAction::StartProcessing { pr_event_id: id },
            ),
            (WebhookHandler::Done(r), _) => Self::answer(r),
            _ => Self::answer(WebhookResponse::InternalServerError),
        }
    }

    /// Answers with `r`.
    fn answer(r: WebhookResponse) -> (res: (WebhookHandler, WebhookAction))
        ensures
            (res.0@, res.1@) == answer(r),
    {
        (WebhookHandler::Done(r), WebhookAction::Respond(r))
    }
}

} // verus!
