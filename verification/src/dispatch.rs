//! The dispatcher: resolve a profile, decide the backend call, and digest
//! the backend's HTTP reply. The network round trip itself is the caller's:
//! `plan_process` says exactly what to send where, and the `complete_*`
//! functions say exactly what every reply means.
use vstd::prelude::*;

verus! {

use crate::backend::ApiType;
use crate::backend::chat_url;
use crate::backend::chat_url_spec;
use crate::backend::combined_prompt;
use crate::backend::combined_prompt_spec;
use crate::backend::detect_api_type;
use crate::backend::generate_url;
use crate::backend::generate_url_spec;
use crate::backend::ollama_body_spec;
use crate::backend::ollama_request_body;
use crate::backend::openai_body_spec;
use crate::backend::openai_request_body;
use crate::backend::selected_api;
use crate::errors::SummarizeError;
use crate::profile::placeholder;
use crate::registry::Registry;
use crate::registry::has_id;
use crate::registry::lookup;
use crate::text::replace_seq;
use crate::text::str_eq;
use crate::text::trim_seq;
use crate::text::trim_str;

/// True exactly when `status` is an HTTP success status (2xx).
pub open spec fn is_success_status(status: u16) -> bool {
    200 <= status < 300
}

/// Executable test for an HTTP success status.
pub fn status_is_success(status: u16) -> (r: bool)
    ensures
        r == is_success_status(status),
{
    200 <= status && status < 300
}

/// What one process request amounts to, short of the network round trip.
pub enum ProcessAction {
    /// The raw profile: hand the text back unchanged; no network call.
    PassThrough(String),
    /// Send `body` to `url` and digest the reply according to `api`.
    HttpCall { api: ApiType, url: String, body: String },
}

/// The text the native generation reply carries: `Some` of the `response`
/// field when the body is well-formed JSON of the shape
/// `{ "response": string, "done": bool, .. }`, else `None`.
pub uninterp spec fn generate_reply_of(body: Seq<char>) -> Option<Seq<char>>;

/// The choice texts an OpenAI-compatible reply carries: `Some` of the list
/// of `choices[i].message.content` strings when the body is well-formed
/// JSON of that shape, else `None`.
pub uninterp spec fn chat_reply_of(body: Seq<char>) -> Option<Seq<Seq<char>>>;

/// The model names a tags reply carries: `Some` of the list of
/// `models[i].name` strings when the body is well-formed JSON of that
/// shape, else `None`.
pub uninterp spec fn tags_reply_of(body: Seq<char>) -> Option<Seq<Seq<char>>>;

/// Relies on serde_json's `from_str` and the `Value` accessors: parses the
/// native generation reply `{ "response": string, "done": bool }` and hands
/// the `response` text out, or `None` on malformed JSON or a missing or
/// ill-typed field. The result is a function of the body text alone.
#[verifier::external_body]
fn parse_generate_reply(body: &str) -> (r: Option<String>)
    ensures
        r.deep_view() == generate_reply_of(body@),
{
    let v: serde_json::Value = serde_json::from_str(body).ok()?;
    v.get("done")?.as_bool()?;
    Some(v.get("response")?.as_str()?.to_string())
}

/// Relies on serde_json's `from_str` and the `Value` accessors: parses the
/// OpenAI-compatible reply `{ "choices": [ { "message": { "content":
/// string } } ] }` and hands the choice texts out in order, or `None` on
/// malformed JSON or a missing or ill-typed field. The result is a function
/// of the body text alone.
#[verifier::external_body]
fn parse_chat_reply(body: &str) -> (r: Option<Vec<String>>)
    ensures
        r.deep_view() == chat_reply_of(body@),
{
    let v: serde_json::Value = serde_json::from_str(body).ok()?;
    let choices = v.get("choices")?.as_array()?;
    let mut out: Vec<String> = Vec::new();
    for c in choices {
        out.push(c.get("message")?.get("content")?.as_str()?.to_string());
    }
    Some(out)
}

/// Relies on serde_json's `from_str` and the `Value` accessors: parses the
/// model-listing reply `{ "models": [ { "name": string } ] }` and hands the
/// names out in order, or `None` on malformed JSON or a missing or
/// ill-typed field. The result is a function of the body text alone.
#[verifier::external_body]
fn parse_tags_reply(body: &str) -> (r: Option<Vec<String>>)
    ensures
        r.deep_view() == tags_reply_of(body@),
{
    let v: serde_json::Value = serde_json::from_str(body).ok()?;
    let models = v.get("models")?.as_array()?;
    let mut out: Vec<String> = Vec::new();
    for m in models {
        out.push(m.get("name")?.as_str()?.to_string());
    }
    Some(out)
}

/// Decide one process request: resolve the profile, pass raw text through
/// for the `"raw"` profile, and otherwise name the exact URL and request
/// body of the selected backend.
pub fn plan_process(
    registry: &Registry,
    raw_text: &str,
    profile_id: &str,
    endpoint: &str,
    model: &str,
    hint: ApiType,
) -> (r: Result<ProcessAction, SummarizeError>)
    requires
        registry.wf(),
    ensures
        !has_id(registry@, profile_id@) ==> (r matches Err(SummarizeError::NotFound(id)) && id@
            == profile_id@),
        has_id(registry@, profile_id@) && profile_id@ == "raw"@ ==> (r matches Ok(
            ProcessAction::PassThrough(t),
        ) && t@ == raw_text@),
        has_id(registry@, profile_id@) && profile_id@ != "raw"@ ==> {
            let p = lookup(registry@, profile_id@);
            let user = replace_seq(p.user_prompt_template, placeholder(), raw_text@);
            let api = selected_api(endpoint@, hint);
            &&& r matches Ok(ProcessAction::HttpCall { api: a, url, body }) && a == api && (match api {
                ApiType::Ollama => url@ == generate_url_spec(endpoint@) && body@
                    == ollama_body_spec(model@, combined_prompt_spec(p.system_prompt, user)),
                ApiType::OpenAI => url@ == chat_url_spec(endpoint@) && body@ == openai_body_spec(
                    model@,
                    p.system_prompt,
                    user,
                ),
            })
        },
{
    let profile = match registry.get(profile_id) {
        Some(p) => p,
        None => {
            return Err(SummarizeError::NotFound(profile_id.to_owned()));
        },
    };
    if str_eq(profile.id.as_str(), "raw") {
        return Ok(ProcessAction::PassThrough(raw_text.to_owned()));
    }
    let user_prompt = profile.format_prompt(raw_text);
    let api = detect_api_type(endpoint, hint);
    match api {
        ApiType::Ollama => {
            let prompt = combined_prompt(profile.system_prompt.as_str(), user_prompt.as_str());
            let url = generate_url(endpoint);
            let body = ollama_request_body(model, prompt.as_str());
            Ok(ProcessAction::HttpCall { api, url, body })
        },
        ApiType::OpenAI => {
            let url = chat_url(endpoint);
            let body = openai_request_body(
                model,
                profile.system_prompt.as_str(),
                user_prompt.as_str(),
            );
            Ok(ProcessAction::HttpCall { api, url, body })
        },
    }
}

/// Digest a native-backend HTTP reply: a non-2xx status or a malformed body
/// is a protocol error carrying the status and raw body; a well-formed body
/// yields its `response` text, trimmed.
pub fn complete_generate(status: u16, body: String) -> (r: Result<String, SummarizeError>)
    ensures
        !is_success_status(status) ==> (r matches Err(SummarizeError::Protocol { status: s, body: b }
        ) && s == status && b@ == body@),
        is_success_status(status) ==> (match generate_reply_of(body@) {
            None => r matches Err(SummarizeError::Protocol { status: s, body: b }) && s == status
                && b@ == body@,
            Some(t) => r matches Ok(out) && out@ == trim_seq(t),
        }),
{
    if !status_is_success(status) {
        return Err(SummarizeError::Protocol { status, body });
    }
    match parse_generate_reply(body.as_str()) {
        None => Err(SummarizeError::Protocol { status, body }),
        Some(text) => Ok(trim_str(text.as_str())),
    }
}

/// Digest an OpenAI-compatible HTTP reply: a non-2xx status or a malformed
/// body is a protocol error carrying the status and raw body; an empty
/// choice list is the empty-result error; otherwise the first choice's
/// text, trimmed.
pub fn complete_chat(status: u16, body: String) -> (r: Result<String, SummarizeError>)
    ensures
        !is_success_status(status) ==> (r matches Err(SummarizeError::Protocol { status: s, body: b }
        ) && s == status && b@ == body@),
        is_success_status(status) ==> (match chat_reply_of(body@) {
            None => r matches Err(SummarizeError::Protocol { status: s, body: b }) && s == status
                && b@ == body@,
            Some(cs) => if cs.len() == 0 {
                r matches Err(SummarizeError::EmptyResult)
            } else {
                r matches Ok(out) && out@ == trim_seq(cs[0])
            },
        }),
{
    if !status_is_success(status) {
        return Err(SummarizeError::Protocol { status, body });
    }
    match parse_chat_reply(body.as_str()) {
        None => Err(SummarizeError::Protocol { status, body }),
        Some(choices) => {
            if choices.len() == 0 {
                Err(SummarizeError::EmptyResult)
            } else {
                Ok(trim_str(choices[0].as_str()))
            }
        },
    }
}

/// Digest a model-listing HTTP reply: a non-2xx status or a malformed body
/// is a protocol error; a well-formed body yields the model names in order.
pub fn complete_tags(status: u16, body: String) -> (r: Result<Vec<String>, SummarizeError>)
    ensures
        !is_success_status(status) ==> (r matches Err(SummarizeError::Protocol { status: s, body: b }
        ) && s == status && b@ == body@),
        is_success_status(status) ==> (match tags_reply_of(body@) {
            None => r matches Err(SummarizeError::Protocol { status: s, body: b }) && s == status
                && b@ == body@,
            Some(names) => r matches Ok(out) && out.deep_view() == names,
        }),
{
    if !status_is_success(status) {
        return Err(SummarizeError::Protocol { status, body });
    }
    match parse_tags_reply(body.as_str()) {
        None => Err(SummarizeError::Protocol { status, body }),
        Some(names) => Ok(names),
    }
}

/// The availability verdict for a version-probe outcome: available exactly
/// when a reply arrived and its status is 2xx; every failure mode is
/// `false`, never an error.
pub fn availability_from_status(status: Option<u16>) -> (r: bool)
    ensures
        r == (status matches Some(s) && is_success_status(s)),
{
    match status {
        Some(s) => status_is_success(s),
        None => false,
    }
}

} // verus!
