//! Reading the GitHub REST API's pull-request reply.
use vstd::prelude::*;
use crate::json::{JsonStep, JsonStepView, json_is_valid, json_str_at, spec_json_valid, spec_json_str_at};
use crate::text::push_char;

verus! {

/// The decimal digits of `n`, without leading zeros ("0" for zero).
pub open spec fn digits_of(n: nat) -> Seq<char>
    decreases n,
{
    if n < 10 {
        seq![(48 + n) as char]
    } else {
        digits_of(n / 10).push((48 + n % 10) as char)
    }
}

/// `n` as `Display` writes it: a '-' for negatives, then the digits.
pub open spec fn int_text(n: int) -> Seq<char> {
    if n < 0 {
        seq!['-'] + digits_of((-n) as nat)
    } else {
        digits_of(n as nat)
    }
}

/// Appends the decimal digits of `m`.
fn push_digits(out: &mut String, m: u64)
    ensures
        final(out)@ == old(out)@ + digits_of(m as nat),
    decreases m,
{
    if m < 10 {
        push_char(out, ((48 + m) as u8) as char);
        assert(old(out)@.push(((48 + m) as u8) as char) =~= old(out)@ + digits_of(m as nat));
    } else {
        push_digits(out, m / 10);
        push_char(out, ((48 + m % 10) as u8) as char);
        assert(old(out)@ + digits_of((m / 10) as nat) + seq![((48 + m % 10) as u8) as char]
            =~= old(out)@ + digits_of(m as nat));
    }
}

/// The REST address of a pull request:
/// "https://api.github.com/repos/{owner}/{repo}/pulls/{number}".
pub open spec fn pr_api_url_text(owner: Seq<char>, repo: Seq<char>, number: i32) -> Seq<char> {
    "https://api.github.com/repos/"@ + owner + "/"@ + repo + "/pulls/"@ + int_text(number as int)
}

/// The REST address of pull request `number` of `owner`/`repo`.
pub fn pr_api_url(owner: &str, repo: &str, number: i32) -> (res: String)
    ensures
        res@ == pr_api_url_text(owner@, repo@, number),
{
    let mut url = String::from_str("https://api.github.com/repos/");
    url.append(owner);
    url.append("/");
    url.append(repo);
    url.append("/pulls/");
    let ghost head = url@;
    if number < 0 {
        push_char(&mut url, '-');
        let m: u64 = (0 - (number as i64)) as u64;
        push_digits(&mut url, m);
        assert(url@ =~= head + int_text(number as int));
    } else {
        push_digits(&mut url, number as u64);
    }
    url
}

/// Why the author of a pull request could not be read.
#[derive(Debug, Clone, Copy, PartialEq, Eq, Structural)]
pub enum GithubError {
    /// The reply body is not JSON.
    InvalidJson,
    /// The reply has no string at `user.login`
    /// ("Could not extract PR author from GitHub response").
    MissingAuthor,
}

/// The path of the author's login in a pull-request reply: `user.login`.
pub open spec fn author_path() -> Seq<JsonStepView> {
    seq![JsonStepView::Key("user"@), JsonStepView::Key("login"@)]
}

/// The author named by a pull-request reply.
pub open spec fn spec_pr_author(body: Seq<u8>) -> Result<Seq<char>, GithubError> {
    if !spec_json_valid(body) {
        Err(GithubError::InvalidJson)
    } else {
        match spec_json_str_at(body, author_path()) {
            Some(a) => Ok(a),
            None => Err(GithubError::MissingAuthor),
        }
    }
}

/// The author read from a reply is its `user.login` and depends on nothing
/// else in it: a reply that parses and names `user.login` gives that login;
/// one that parses without it gives `MissingAuthor`; one that does not parse
/// gives `InvalidJson`. So two replies that agree on whether they parse and
/// on `user.login` give the same author.
pub proof fn lemma_pr_author_is_user_login(body: Seq<u8>, other: Seq<u8>)
    ensures
        spec_json_valid(body) ==> match spec_json_str_at(
            body,
            seq![JsonStepView::Key("user"@), JsonStepView::Key("login"@)],
        ) {
            Some(a) => spec_pr_author(body) == Ok::<Seq<char>, GithubError>(a),
            None => spec_pr_author(body) == Err::<Seq<char>, GithubError>(GithubError::MissingAuthor),
        },
        !spec_json_valid(body) ==> spec_pr_author(body) == Err::<Seq<char>, GithubError>(
            GithubError::InvalidJson,
        ),
        spec_json_valid(body) == spec_json_valid(other) && spec_json_str_at(
            body,
            seq![JsonStepView::Key("user"@), JsonStepView::Key("login"@)],
        ) == spec_json_str_at(
            other,
            seq![JsonStepView::Key("user"@), JsonStepView::Key("login"@)],
        ) ==> spec_pr_author(body) == spec_pr_author(other),
{
}

/// Reads the login of a pull request's author out of the body of
/// `GET /repos/{owner}/{repo}/pulls/{number}`.
pub fn pr_author_from_reply(body: &[u8]) -> (res: Result<String, GithubError>)
    ensures
        match (res, spec_pr_author(body@)) {
            (Ok(s), Ok(t)) => s@ == t,
            (Err(e), Err(f)) => e == f,
            _ => false,
        },
{
    if !json_is_valid(body) {
        return Err(GithubError::InvalidJson);
    }
    let path = vec![JsonStep::Key("user"), JsonStep::Key("login")];
    assert(crate::json::path_view(path@) =~= author_path());
    match json_str_at(body, &path) {
        Some(a) => Ok(a),
        None => Err(GithubError::MissingAuthor),
    }
}

} // verus!
