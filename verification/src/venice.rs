//! Reading the reply of the Venice AI chat-completion endpoint.
use vstd::prelude::*;
use crate::json::{JsonStep, JsonStepView, json_is_valid, json_str_at, spec_json_valid, spec_json_str_at};
use crate::text::{is_ws, trim_start_ws, trim_end_ws,
    str_chars, skip_ws_forward, skip_ws_backward, skip_pattern_forward, skip_pattern_backward,
    string_of_range, trim_ws, trim_start_all, trim_end_all,
};

verus! {

/// The chat-completion endpoint of Venice AI.
pub const VENICE_CHAT_URL: &'static str = "https://api.venice.ai/api/v1/chat/completions";

/// The model asked.
pub const VENICE_MODEL: &'static str = "llama-3.3-70b";

/// The instructions given to the model with every pull request.
pub const SYSTEM_PROMPT: &'static str = "You are GrantBot, an autonomous USDC payment agent. Given a merged PR and rules, decide if contributor should be paid. Respond ONLY in valid JSON with no markdown: { \"approved\": bool, \"amount\": number, \"reason\": string }";

/// The reason recorded when the model's answer is not a decision.
pub const PARSE_ERROR_REASON: &'static str = "AI parse error";

/// The text of the model's answer with surrounding whitespace and markdown
/// code fences (an opening "```json" or "```", a closing "```") removed, so
/// that the bare JSON object remains.
pub open spec fn cleaned_content(raw: Seq<char>) -> Seq<char> {
    trim_ws(
        trim_end_all(
            trim_start_all(trim_start_all(trim_ws(raw), "```json"@), "```"@),
            "```"@,
        ),
    )
}

/// Whether `c` is a bare answer: not empty, and neither starting nor ending
/// with whitespace or a backtick.
pub open spec fn bare(c: Seq<char>) -> bool {
    &&& c.len() > 0
    &&& !is_ws(c[0]) && c[0] != '`'
    &&& !is_ws(c.last()) && c.last() != '`'
}

/// Removing whitespace and fences leaves a bare answer as it is.
proof fn lemma_trims_keep_bare(c: Seq<char>)
    requires
        bare(c),
    ensures
        trim_ws(c) == c,
        trim_start_all(c, "```json"@) == c,
        trim_start_all(c, "```"@) == c,
        trim_end_all(c, "```"@) == c,
{
    reveal_strlit("```json");
    reveal_strlit("```");
    assert(trim_start_ws(c) == c);
    assert(trim_end_ws(c) == c);
    if c.len() >= 7 {
        assert(c.take(7)[0] != "```json"@[0]);
    }
    if c.len() >= 3 {
        assert(c.take(3)[0] != "```"@[0]);
        assert(c.skip(c.len() - 3)[2] != "```"@[2]);
    }
}

/// The model's answer wrapped in a code fence, "```json" or "```" before
/// and "```" after, is unwrapped to the bare answer (for the plain fence,
/// unless the answer itself begins with "json", which then reads as part of
/// a "```json" fence); a bare answer without fences is kept as it is.
pub proof fn lemma_fenced_answer_unwrapped(c: Seq<char>)
    requires
        bare(c),
    ensures
        cleaned_content("```json"@ + c + "```"@) == c,
        c.len() < 4 || c.take(4) != "json"@ ==> cleaned_content("```"@ + c + "```"@) == c,
        cleaned_content(c) == c,
{
    reveal_strlit("```json");
    reveal_strlit("```");
    lemma_trims_keep_bare(c);
    let f = "```json"@;
    let b = "```"@;
    let cb = c + b;
    // after the opening fence, the answer does not start with another fence
    assert(cb[0] == c[0]);
    if cb.len() >= 7 {
        assert(cb.take(7)[0] != f[0]);
    }
    assert(cb.take(3)[0] != b[0]);
    assert(trim_start_all(cb, f) == cb);
    assert(trim_start_all(cb, b) == cb);
    assert(cb.skip(cb.len() - 3) =~= b);
    assert(cb.take(cb.len() - 3) =~= c);
    assert(trim_end_all(cb, b) == trim_end_all(c, b));
    // with the "```json" fence
    let s1 = f + c + b;
    assert(s1[0] == '`');
    assert(s1.last() == '`');
    assert(trim_start_ws(s1) == s1);
    assert(trim_end_ws(s1) == s1);
    assert(s1.take(7) =~= f);
    assert(s1.skip(7) =~= cb);
    assert(trim_start_all(s1, f) == trim_start_all(cb, f));
    // with the "```" fence
    let s2 = b + c + b;
    assert(s2[0] == '`');
    assert(s2.last() == '`');
    assert(trim_start_ws(s2) == s2);
    assert(trim_end_ws(s2) == s2);
    if c.len() < 4 || c.take(4) != "json"@ {
        reveal_strlit("json");
        if s2.len() >= 7 && s2.take(7) == f {
            if c.len() < 4 {
                let k = 3 + c.len();
                assert(s2[k as int] == '`');
                assert(s2.take(7)[k as int] == f[k as int]);
                assert(false);
            }
            assert(c.take(4) =~= s2.take(7).subrange(3, 7));
            assert(s2.take(7).subrange(3, 7) =~= "json"@);
        }
        assert(trim_start_all(s2, f) == s2);
    }
    assert(s2.take(3) =~= b);
    assert(s2.skip(3) =~= cb);
    assert(trim_start_all(s2, b) == trim_start_all(cb, b));
}

/// Strips whitespace and markdown code fences from the model's answer.
pub fn clean_model_content(raw: &str) -> (res: String)
    ensures
        res@ == cleaned_content(raw@),
{
    let v = str_chars(raw);
    let fence_json = str_chars("```json");
    let fence = str_chars("```");
    let n = v.len();
    // trim
    let lo = skip_ws_forward(&v, 0, n);
    assert(v@.subrange(0, n as int) =~= v@);
    let hi = skip_ws_backward(&v, lo, n);
    // trim_start_matches("```json"), then trim_start_matches("```")
    let lo = skip_pattern_forward(&v, lo, hi, &fence_json);
    let lo = skip_pattern_forward(&v, lo, hi, &fence);
    // trim_end_matches("```")
    let hi = skip_pattern_backward(&v, lo, hi, &fence);
    // trim
    let lo = skip_ws_forward(&v, lo, hi);
    let hi = skip_ws_backward(&v, lo, hi);
    string_of_range(&v, lo, hi)
}

/// The path of the answer text in a chat-completion reply:
/// `choices[0].message.content`.
pub open spec fn content_path() -> Seq<JsonStepView> {
    seq![
        JsonStepView::Key("choices"@),
        JsonStepView::Index(0),
        JsonStepView::Key("message"@),
        JsonStepView::Key("content"@),
    ]
}

/// Why a chat-completion reply could not be read.
#[derive(Debug, Clone, Copy, PartialEq, Eq, Structural)]
pub enum ModelReplyError {
    /// The reply body is not JSON.
    InvalidJson,
}

/// The cleaned answer text of a chat-completion reply: an error when the
/// body is not JSON; otherwise the cleaned text at `choices[0].message.content`,
/// an absent or non-string answer reading as the empty text.
pub open spec fn spec_model_content(body: Seq<u8>) -> Result<Seq<char>, ModelReplyError> {
    if !spec_json_valid(body) {
        Err(ModelReplyError::InvalidJson)
    } else {
        match spec_json_str_at(body, content_path()) {
            Some(s) => Ok(cleaned_content(s)),
            None => Ok(cleaned_content(Seq::empty())),
        }
    }
}

/// The answer is read from `choices[0].message.content` of a reply that
/// parses, and nowhere else; a reply that does not parse is an error.
pub proof fn lemma_model_content_source(body: Seq<u8>)
    ensures
        !spec_json_valid(body) ==> spec_model_content(body) == Err::<Seq<char>, ModelReplyError>(
            ModelReplyError::InvalidJson,
        ),
        spec_json_valid(body) ==> spec_model_content(body) == Ok::<Seq<char>, ModelReplyError>(
            cleaned_content(
                match spec_json_str_at(
                    body,
                    seq![
                        JsonStepView::Key("choices"@),
                        JsonStepView::Index(0),
                        JsonStepView::Key("message"@),
                        JsonStepView::Key("content"@),
                    ],
                ) {
                    Some(s) => s,
                    None => Seq::empty(),
                },
            ),
        ),
{
}

/// Extracts the cleaned answer text from the body of a chat-completion reply.
pub fn model_content(body: &[u8]) -> (res: Result<String, ModelReplyError>)
    ensures
        match (res, spec_model_content(body@)) {
            (Ok(s), Ok(t)) => s@ == t,
            (Err(e), Err(f)) => e == f,
            _ => false,
        },
{
    if !json_is_valid(body) {
        return Err(ModelReplyError::InvalidJson);
    }
    let path = vec![
        JsonStep::Key("choices"),
        JsonStep::Index(0),
        JsonStep::Key("message"),
        JsonStep::Key("content"),
    ];
    assert(crate::json::path_view(path@) =~= content_path());
    match json_str_at(body, &path) {
        Some(s) => Ok(clean_model_content(s.as_str())),
        None => {
            proof {
                reveal_strlit("");
            }
            Ok(clean_model_content(""))
        },
    }
}

} // verus!
