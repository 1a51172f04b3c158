//! What holds of every handling of a webhook delivery.
use vstd::prelude::*;
use crate::json::{JsonStepView, spec_json_bool_at, spec_json_i64_at, spec_json_str_at, spec_json_valid};
use crate::signature::signature_valid;
use crate::webhook::{NewPrEventView, spec_parse_utc_datetime,
    WebhookActionView, WebhookEventView, WebhookResponse, payload_is_merge,
    payload_owner, payload_pr_event, payload_repo_name, spec_receive, spec_webhook_step,
};

verus! {

/// A pull-request event is recorded only for an authentic delivery of a
/// merge: the delivery carried a signature, the repository looked up is the
/// one the payload names, the signature is valid for the body under that
/// repository's secret, the payload reports a merged pull request being
/// closed, and the event recorded is the one the payload describes, under
/// that repository.
pub proof fn lemma_recorded_only_when_authentic(
    signature: Option<Seq<char>>,
    body: Seq<u8>,
    e: WebhookEventView,
)
    requires
        spec_webhook_step(spec_receive(signature, body).0, e).1 is InsertPrEvent,
    ensures
        signature is Some,
        spec_receive(signature, body).1 == (WebhookActionView::LookupRepo {
            owner: payload_owner(body),
            repo_name: payload_repo_name(body),
        }),
        e is RepoFound && e->RepoFound_0 is Some,
        signature_valid(e->RepoFound_0->Some_0.1, body, signature->Some_0),
        payload_is_merge(body),
        spec_webhook_step(spec_receive(signature, body).0, e).1 == WebhookActionView::InsertPrEvent(
            payload_pr_event(body, e->RepoFound_0->Some_0.0),
        ),
{
}

/// The recorded pull-request event is the one the payload describes: its
/// number is `pull_request.number` (0 when absent, truncated to 32 bits), its
/// title `pull_request.title` ("Untitled PR" when absent), its contributor
/// the pull request's author `pull_request.user.login` ("unknown" when
/// absent), its merge instant the parsed `pull_request.merged_at`, and its
/// repository the one found.
pub proof fn lemma_recorded_event_fields(
    signature: Option<Seq<char>>,
    body: Seq<u8>,
    e: WebhookEventView,
    ev: NewPrEventView,
)
    requires
        spec_webhook_step(spec_receive(signature, body).0, e).1 == WebhookActionView::InsertPrEvent(ev),
    ensures
        e is RepoFound && e->RepoFound_0 is Some,
        ev.repo_id == e->RepoFound_0->Some_0.0,
        ev.contributor == match spec_json_str_at(
            body,
            seq![JsonStepView::Key("pull_request"@), JsonStepView::Key("user"@), JsonStepView::Key("login"@)],
        ) {
            Some(a) => a,
            None => "unknown"@,
        },
        ev.pr_title == match spec_json_str_at(
            body,
            seq![JsonStepView::Key("pull_request"@), JsonStepView::Key("title"@)],
        ) {
            Some(t) => t,
            None => "Untitled PR"@,
        },
        ev.pr_number == (match spec_json_i64_at(
            body,
            seq![JsonStepView::Key("pull_request"@), JsonStepView::Key("number"@)],
        ) {
            Some(n) => n,
            None => 0,
        }) as i32,
        ev.merged_at == match spec_json_str_at(
            body,
            seq![JsonStepView::Key("pull_request"@), JsonStepView::Key("merged_at"@)],
        ) {
            Some(t) => spec_parse_utc_datetime(t),
            None => None,
        },
{
}

/// Only the closing of a merged pull request is recorded: the payload's
/// `action` is exactly "closed" and `pull_request.merged` is `true`.
pub proof fn lemma_recorded_only_closed_and_merged(
    signature: Option<Seq<char>>,
    body: Seq<u8>,
    e: WebhookEventView,
)
    requires
        spec_webhook_step(spec_receive(signature, body).0, e).1 is InsertPrEvent,
    ensures
        spec_json_str_at(body, seq![JsonStepView::Key("action"@)]) == Some("closed"@),
        spec_json_bool_at(
            body,
            seq![JsonStepView::Key("pull_request"@), JsonStepView::Key("merged"@)],
        ) == Some(true),
{
    reveal_strlit("closed");
    reveal_strlit("");
    if spec_json_str_at(body, seq![JsonStepView::Key("action"@)]) is None {
        assert(""@.len() == 0);
        assert("closed"@.len() == 6);
    }
}

/// Conversely, a signed delivery that is valid for the registered
/// repository it names and reports the closing of a merged pull request is
/// recorded; any other action, or an unmerged pull request, is answered 200
/// with nothing recorded.
pub proof fn lemma_signed_merge_recorded(
    s: Seq<char>,
    body: Seq<u8>,
    id: u128,
    secret: Seq<char>,
)
    requires
        spec_json_valid(body),
        payload_owner(body).len() > 0,
        payload_repo_name(body).len() > 0,
        signature_valid(secret, body, s),
    ensures
        ({
            let a = spec_webhook_step(
                spec_receive(Some(s), body).0,
                WebhookEventView::RepoFound(Some((id, secret))),
            ).1;
            let closed_merge = spec_json_str_at(body, seq![JsonStepView::Key("action"@)]) == Some(
                "closed"@,
            ) && spec_json_bool_at(
                body,
                seq![JsonStepView::Key("pull_request"@), JsonStepView::Key("merged"@)],
            ) == Some(true);
            &&& closed_merge ==> a is InsertPrEvent
            &&& !closed_merge ==> a == WebhookActionView::Respond(WebhookResponse::Accepted)
        }),
{
    reveal_strlit("closed");
    reveal_strlit("");
    if spec_json_str_at(body, seq![JsonStepView::Key("action"@)]) is None {
        assert(""@.len() == 0);
        assert("closed"@.len() == 6);
    }
}

/// How a signed delivery is answered before any pull request is recorded:
/// 400 when the body is not JSON or names no repository owner or name
/// (`repository.owner.login`, `repository.name`); otherwise the repository
/// so named is looked up, and the answer is 200 when it is not registered,
/// 500 when the lookup fails, and 401 when the signature is not valid for the
/// body under the registered secret.
pub proof fn lemma_signed_delivery_answers(s: Seq<char>, body: Seq<u8>, e: WebhookEventView)
    ensures
        ({
            let owner = spec_json_str_at(
                body,
                seq![JsonStepView::Key("repository"@), JsonStepView::Key("owner"@), JsonStepView::Key("login"@)],
            );
            let name = spec_json_str_at(
                body,
                seq![JsonStepView::Key("repository"@), JsonStepView::Key("name"@)],
            );
            let named = owner is Some && owner->Some_0.len() > 0 && name is Some && name->Some_0.len() > 0;
            let (h, a) = spec_receive(Some(s), body);
            let next = spec_webhook_step(h, e).1;
            &&& !spec_json_valid(body) ==> a == WebhookActionView::Respond(WebhookResponse::BadRequest)
            &&& spec_json_valid(body) && !named ==> a == WebhookActionView::Respond(WebhookResponse::BadRequest)
            &&& spec_json_valid(body) && named ==> a == (WebhookActionView::LookupRepo {
                owner: owner->Some_0,
                repo_name: name->Some_0,
            })
            &&& spec_json_valid(body) && named && e == WebhookEventView::RepoFound(None) ==> next
                == WebhookActionView::Respond(WebhookResponse::Accepted)
            &&& spec_json_valid(body) && named && e == WebhookEventView::RepoLookupFailed ==> next
                == WebhookActionView::Respond(WebhookResponse::InternalServerError)
            &&& spec_json_valid(body) && named && e is RepoFound && e->RepoFound_0 is Some
                && !signature_valid(e->RepoFound_0->Some_0.1, body, s) ==> next == WebhookActionView::Respond(
                WebhookResponse::Unauthorized,
            )
        }),
{
    reveal_strlit("");
}

/// Processing starts only for the pull-request event just recorded, under
/// the id the database gave it.
pub proof fn lemma_processing_starts_for_inserted(
    signature: Option<Seq<char>>,
    body: Seq<u8>,
    e1: WebhookEventView,
    e2: WebhookEventView,
    id: u128,
)
    requires
        spec_webhook_step(spec_webhook_step(spec_receive(signature, body).0, e1).0, e2).1
            == (WebhookActionView::StartProcessing { pr_event_id: id }),
    ensures
        spec_webhook_step(spec_receive(signature, body).0, e1).1 is InsertPrEvent,
        e2 == WebhookEventView::Inserted(id),
{
}

/// A delivery without a signature is answered 401 at once, and nothing
/// else is ever asked for it.
pub proof fn lemma_unsigned_rejected(body: Seq<u8>, e: WebhookEventView)
    ensures
        spec_receive(None, body).1 == WebhookActionView::Respond(WebhookResponse::Unauthorized),
        spec_webhook_step(spec_receive(None, body).0, e).1 == WebhookActionView::Respond(
            WebhookResponse::Unauthorized,
        ),
{
}

/// Handling ends: after the delivery and two answers, the delivery has been
/// answered, and the status is kept from then on.
pub proof fn lemma_webhook_terminates(
    signature: Option<Seq<char>>,
    body: Seq<u8>,
    e1: WebhookEventView,
    e2: WebhookEventView,
    e3: WebhookEventView,
)
    ensures
        spec_webhook_step(spec_webhook_step(spec_receive(signature, body).0, e1).0, e2).0 is Done,
        ({
            let h = spec_webhook_step(spec_webhook_step(spec_receive(signature, body).0, e1).0, e2).0;
            spec_webhook_step(h, e3) == (h, WebhookActionView::Respond(h->Done_0))
        }),
{
}

} // verus!
