use grantbot::venice::{clean_model_content, model_content, ModelReplyError};

fn reference(raw: &str) -> String {
    raw.trim()
        .trim_start_matches("```json")
        .trim_start_matches("```")
        .trim_end_matches("```")
        .trim()
        .to_string()
}

#[test]
fn strips_code_fences() {
    let raw = "```json\n{ \"approved\": true, \"amount\": 5, \"reason\": \"ok\" }\n```";
    assert_eq!(clean_model_content(raw), "{ \"approved\": true, \"amount\": 5, \"reason\": \"ok\" }");
}

#[test]
fn cleaning_matches_std_chain() {
    let cases = [
        "",
        "   ",
        "{}",
        "  ```json```json {\"a\":1} ``````  ",
        "``````json x",
        "\u{3000}```\u{a0}{}\u{2028}```\t",
        "```js {}```",
        "``",
        "json```",
    ];
    for c in cases.iter() {
        assert_eq!(clean_model_content(c), reference(c), "case {:?}", c);
    }
}

#[test]
fn content_of_reply() {
    let body = br#"{"choices":[{"message":{"role":"assistant","content":"```json\n{\"approved\":false}\n```"}}]}"#;
    assert_eq!(model_content(body).unwrap(), "{\"approved\":false}");
}

#[test]
fn missing_content_reads_empty() {
    assert_eq!(model_content(br#"{"choices":[]}"#).unwrap(), "");
    assert_eq!(model_content(br#"{"choices":[{"message":{"content":42}}]}"#).unwrap(), "");
    assert_eq!(model_content(b"[1,2]").unwrap(), "");
}

#[test]
fn non_json_reply_is_error() {
    assert_eq!(model_content(b"<html>oops</html>"), Err(ModelReplyError::InvalidJson));
}
