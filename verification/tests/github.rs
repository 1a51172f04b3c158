use grantbot::github::{pr_api_url, pr_author_from_reply, GithubError};

#[test]
fn author_from_reply() {
    let body = br#"{"number":3,"user":{"login":"octocat","id":1}}"#;
    assert_eq!(pr_author_from_reply(body), Ok("octocat".to_string()));
}

#[test]
fn author_errors() {
    assert_eq!(pr_author_from_reply(br#"{"user":{}}"#), Err(GithubError::MissingAuthor));
    assert_eq!(pr_author_from_reply(b"{"), Err(GithubError::InvalidJson));
}

#[test]
fn pull_request_url() {
    assert_eq!(pr_api_url("octo", "repo", 42), "https://api.github.com/repos/octo/repo/pulls/42");
    for n in [0, 7, 10, 99, -5, i32::MAX, i32::MIN].iter() {
        assert_eq!(pr_api_url("o", "r", *n), format!("https://api.github.com/repos/{}/{}/pulls/{}", "o", "r", n));
    }
}
