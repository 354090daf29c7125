//! Backend adapters: backend-type selection, endpoint normalization, prompt
//! composition, and the exact JSON wire bodies of the two dialects.
use vstd::prelude::*;

verus! {

use vstd::string::StrSliceExecFns;
use vstd::string::StringExecFns;
use crate::text::contains_seq;
use crate::text::contains_str;
use crate::text::strip_slashes;
use crate::text::strip_trailing_slashes;
use crate::text::strip_trailing_v1;
use crate::text::strip_v1;

/// The two wire dialects.
#[derive(Clone, Copy, Debug, PartialEq, Eq, Structural)]
pub enum ApiType {
    Ollama,
    OpenAI,
}

/// The backend that an endpoint and an explicit hint select: a URL
/// containing the `/v1/` segment forces the OpenAI-compatible dialect, and
/// so does the hint on its own; everything else is native.
pub open spec fn selected_api(endpoint: Seq<char>, hint: ApiType) -> ApiType {
    if contains_seq(endpoint, "/v1/"@) || hint == ApiType::OpenAI {
        ApiType::OpenAI
    } else {
        ApiType::Ollama
    }
}

/// Executable backend selection, exact against `selected_api`.
pub fn detect_api_type(endpoint: &str, hint: ApiType) -> (r: ApiType)
    ensures
        r == selected_api(endpoint@, hint),
{
    if contains_str(endpoint, "/v1/") || hint == ApiType::OpenAI {
        ApiType::OpenAI
    } else {
        ApiType::Ollama
    }
}

/// Native generation route: trailing slashes stripped, `/api/generate`
/// appended.
pub open spec fn generate_url_spec(endpoint: Seq<char>) -> Seq<char> {
    strip_trailing_slashes(endpoint) + "/api/generate"@
}

/// OpenAI-compatible chat route: trailing slashes stripped, then trailing
/// `/v1` segments stripped, then `/chat/completions` appended.
pub open spec fn chat_url_spec(endpoint: Seq<char>) -> Seq<char> {
    strip_trailing_v1(strip_trailing_slashes(endpoint)) + "/chat/completions"@
}

/// Version probe route: trailing slashes stripped, `/api/version` appended.
pub open spec fn version_url_spec(endpoint: Seq<char>) -> Seq<char> {
    strip_trailing_slashes(endpoint) + "/api/version"@
}

/// Model listing route: trailing slashes stripped, `/api/tags` appended.
pub open spec fn tags_url_spec(endpoint: Seq<char>) -> Seq<char> {
    strip_trailing_slashes(endpoint) + "/api/tags"@
}

/// Executable native generation URL, exact against `generate_url_spec`.
pub fn generate_url(endpoint: &str) -> (r: String)
    ensures
        r@ == generate_url_spec(endpoint@),
{
    let mut r = strip_slashes(endpoint);
    r.append("/api/generate");
    r
}

/// Executable chat-completions URL, exact against `chat_url_spec`.
pub fn chat_url(endpoint: &str) -> (r: String)
    ensures
        r@ == chat_url_spec(endpoint@),
{
    let stripped = strip_slashes(endpoint);
    let mut r = strip_v1(stripped.as_str());
    r.append("/chat/completions");
    r
}

/// Executable version probe URL, exact against `version_url_spec`.
pub fn version_url(endpoint: &str) -> (r: String)
    ensures
        r@ == version_url_spec(endpoint@),
{
    let mut r = strip_slashes(endpoint);
    r.append("/api/version");
    r
}

/// Executable model listing URL, exact against `tags_url_spec`.
pub fn tags_url(endpoint: &str) -> (r: String)
    ensures
        r@ == tags_url_spec(endpoint@),
{
    let mut r = strip_slashes(endpoint);
    r.append("/api/tags");
    r
}

/// The prompt the native dialect sends: system and user text concatenated
/// when a system prompt is present, else the user text alone.
pub open spec fn combined_prompt_spec(system: Seq<char>, user: Seq<char>) -> Seq<char> {
    if system.len() > 0 {
        "System: "@ + system + "\n\nUser: "@ + user
    } else {
        user
    }
}

/// Executable prompt composition, exact against `combined_prompt_spec`.
pub fn combined_prompt(system: &str, user: &str) -> (r: String)
    ensures
        r@ == combined_prompt_spec(system@, user@),
{
    if !system.is_empty() {
        let mut r = String::new();
        r.append("System: ");
        r.append(system);
        r.append("\n\nUser: ");
        r.append(user);
        proof {
            assert(r@ =~= combined_prompt_spec(system@, user@));
        }
        r
    } else {
        user.to_owned()
    }
}

/// The JSON escape of one character, exactly as serde_json writes it: the
/// quote and the backslash are escaped, control characters get their short
/// escapes or a lowercase `\u00xx` form, and every other character stands
/// as itself.
pub open spec fn esc_char(c: char) -> Seq<char> {
    if c == '"' {
        "\\\""@
    } else if c == '\\' {
        "\\\\"@
    } else if c == '\u{8}' {
        "\\b"@
    } else if c == '\u{9}' {
        "\\t"@
    } else if c == '\u{a}' {
        "\\n"@
    } else if c == '\u{c}' {
        "\\f"@
    } else if c == '\u{d}' {
        "\\r"@
    } else if c == '\u{0}' {
        "\\u0000"@
    } else if c == '\u{1}' {
        "\\u0001"@
    } else if c == '\u{2}' {
        "\\u0002"@
    } else if c == '\u{3}' {
        "\\u0003"@
    } else if c == '\u{4}' {
        "\\u0004"@
    } else if c == '\u{5}' {
        "\\u0005"@
    } else if c == '\u{6}' {
        "\\u0006"@
    } else if c == '\u{7}' {
        "\\u0007"@
    } else if c == '\u{b}' {
        "\\u000b"@
    } else if c == '\u{e}' {
        "\\u000e"@
    } else if c == '\u{f}' {
        "\\u000f"@
    } else if c == '\u{10}' {
        "\\u0010"@
    } else if c == '\u{11}' {
        "\\u0011"@
    } else if c == '\u{12}' {
        "\\u0012"@
    } else if c == '\u{13}' {
        "\\u0013"@
    } else if c == '\u{14}' {
        "\\u0014"@
    } else if c == '\u{15}' {
        "\\u0015"@
    } else if c == '\u{16}' {
        "\\u0016"@
    } else if c == '\u{17}' {
        "\\u0017"@
    } else if c == '\u{18}' {
        "\\u0018"@
    } else if c == '\u{19}' {
        "\\u0019"@
    } else if c == '\u{1a}' {
        "\\u001a"@
    } else if c == '\u{1b}' {
        "\\u001b"@
    } else if c == '\u{1c}' {
        "\\u001c"@
    } else if c == '\u{1d}' {
        "\\u001d"@
    } else if c == '\u{1e}' {
        "\\u001e"@
    } else if c == '\u{1f}' {
        "\\u001f"@
    } else {
        seq![c]
    }
}

/// The JSON escape of a whole string body.
pub open spec fn json_escaped(s: Seq<char>) -> Seq<char>
    decreases s.len(),
{
    if s.len() == 0 {
        Seq::<char>::empty()
    } else {
        esc_char(s[0]) + json_escaped(s.skip(1))
    }
}

/// A JSON string literal: quote, escaped body, quote.
pub open spec fn json_string(s: Seq<char>) -> Seq<char> {
    seq!['"'] + json_escaped(s) + seq!['"']
}

fn append_escaped_char(out: &mut String, s: &str, i: usize)
    requires
        i < s@.len(),
        s@.len() <= usize::MAX,
    ensures
        final(out)@ == old(out)@ + esc_char(s@[i as int]),
{
    let c = s.get_char(i);
    if c == '"' {
        out.append("\\\"");
    } else if c == '\\' {
        out.append("\\\\");
    } else if c == '\u{8}' {
        out.append("\\b");
    } else if c == '\u{9}' {
        out.append("\\t");
    } else if c == '\u{a}' {
        out.append("\\n");
    } else if c == '\u{c}' {
        out.append("\\f");
    } else if c == '\u{d}' {
        out.append("\\r");
    } else if c == '\u{0}' {
        out.append("\\u0000");
    } else if c == '\u{1}' {
        out.append("\\u0001");
    } else if c == '\u{2}' {
        out.append("\\u0002");
    } else if c == '\u{3}' {
        out.append("\\u0003");
    } else if c == '\u{4}' {
        out.append("\\u0004");
    } else if c == '\u{5}' {
        out.append("\\u0005");
    } else if c == '\u{6}' {
        out.append("\\u0006");
    } else if c == '\u{7}' {
        out.append("\\u0007");
    } else if c == '\u{b}' {
        out.append("\\u000b");
    } else if c == '\u{e}' {
        out.append("\\u000e");
    } else if c == '\u{f}' {
        out.append("\\u000f");
    } else if c == '\u{10}' {
        out.append("\\u0010");
    } else if c == '\u{11}' {
        out.append("\\u0011");
    } else if c == '\u{12}' {
        out.append("\\u0012");
    } else if c == '\u{13}' {
        out.append("\\u0013");
    } else if c == '\u{14}' {
        out.append("\\u0014");
    } else if c == '\u{15}' {
        out.append("\\u0015");
    } else if c == '\u{16}' {
        out.append("\\u0016");
    } else if c == '\u{17}' {
        out.append("\\u0017");
    } else if c == '\u{18}' {
        out.append("\\u0018");
    } else if c == '\u{19}' {
        out.append("\\u0019");
    } else if c == '\u{1a}' {
        out.append("\\u001a");
    } else if c == '\u{1b}' {
        out.append("\\u001b");
    } else if c == '\u{1c}' {
        out.append("\\u001c");
    } else if c == '\u{1d}' {
        out.append("\\u001d");
    } else if c == '\u{1e}' {
        out.append("\\u001e");
    } else if c == '\u{1f}' {
        out.append("\\u001f");
    } else {
        let piece = s.substring_char(i, i + 1);
        proof {
            assert(piece@ =~= seq![s@[i as int]]);
        }
        out.append(piece);
    }
}

fn append_json_escaped(out: &mut String, s: &str)
    ensures
        final(out)@ == old(out)@ + json_escaped(s@),
{
    let s_len = s.unicode_len();
    proof {
        assert(s@.skip(0) =~= s@);
        assert(old(out)@ + json_escaped(s@) =~= out@ + json_escaped(s@.skip(0)));
    }
    let mut i: usize = 0;
    while i < s_len
        invariant
            i <= s_len,
            s_len == s@.len(),
            old(out)@ + json_escaped(s@) == out@ + json_escaped(s@.skip(i as int)),
        decreases s_len - i,
    {
        let ghost t = s@.skip(i as int);
        proof {
            assert(t[0] == s@[i as int]);
            assert(t.skip(1) =~= s@.skip(i + 1));
            assert(json_escaped(t) == esc_char(s@[i as int]) + json_escaped(s@.skip(i + 1)));
        }
        let ghost o0 = out@;
        append_escaped_char(out, s, i);
        proof {
            assert(o0 + (esc_char(s@[i as int]) + json_escaped(s@.skip(i + 1))) =~= out@
                + json_escaped(s@.skip(i + 1)));
        }
        i = i + 1;
    }
    proof {
        assert(s@.skip(s_len as int) =~= Seq::<char>::empty());
        assert(json_escaped(Seq::<char>::empty()) =~= Seq::<char>::empty());
        assert(out@ + Seq::<char>::empty() =~= out@);
    }
}

fn append_json_string(out: &mut String, s: &str)
    ensures
        final(out)@ == old(out)@ + json_string(s@),
{
    proof {
        reveal_strlit("\"");
        assert("\""@ =~= seq!['"']);
    }
    out.append("\"");
    append_json_escaped(out, s);
    out.append("\"");
    proof {
        assert(out@ =~= old(out)@ + json_string(s@));
    }
}

/// The native dialect's request body: model, combined prompt, no streaming,
/// and the fixed sampling options, byte for byte.
pub open spec fn ollama_body_spec(model: Seq<char>, prompt: Seq<char>) -> Seq<char> {
    "{\"model\":"@ + json_string(model) + ",\"prompt\":"@ + json_string(prompt)
        + ",\"stream\":false,\"options\":{\"temperature\":0.3,\"top_p\":0.9}}"@
}

/// Executable native request body, exact against `ollama_body_spec`.
pub fn ollama_request_body(model: &str, prompt: &str) -> (r: String)
    ensures
        r@ == ollama_body_spec(model@, prompt@),
{
    let mut r = String::new();
    r.append("{\"model\":");
    append_json_string(&mut r, model);
    r.append(",\"prompt\":");
    append_json_string(&mut r, prompt);
    r.append(",\"stream\":false,\"options\":{\"temperature\":0.3,\"top_p\":0.9}}");
    proof {
        assert(r@ =~= ollama_body_spec(model@, prompt@));
    }
    r
}

/// The OpenAI-compatible request body: model, the message list (the system
/// message only when the system prompt is non-empty), and the fixed
/// sampling fields, byte for byte.
pub open spec fn openai_body_spec(model: Seq<char>, system: Seq<char>, user: Seq<char>) -> Seq<
    char,
> {
    "{\"model\":"@ + json_string(model) + ",\"messages\":["@ + (if system.len() > 0 {
        "{\"role\":\"system\",\"content\":"@ + json_string(system) + "},"@
    } else {
        Seq::<char>::empty()
    }) + "{\"role\":\"user\",\"content\":"@ + json_string(user)
        + "}],\"temperature\":0.3,\"max_tokens\":1000}"@
}

/// Executable OpenAI-compatible request body, exact against
/// `openai_body_spec`.
pub fn openai_request_body(model: &str, system: &str, user: &str) -> (r: String)
    ensures
        r@ == openai_body_spec(model@, system@, user@),
{
    let mut r = String::new();
    r.append("{\"model\":");
    append_json_string(&mut r, model);
    r.append(",\"messages\":[");
    if !system.is_empty() {
        r.append("{\"role\":\"system\",\"content\":");
        append_json_string(&mut r, system);
        r.append("},");
    }
    r.append("{\"role\":\"user\",\"content\":");
    append_json_string(&mut r, user);
    r.append("}],\"temperature\":0.3,\"max_tokens\":1000}");
    proof {
        assert(r@ =~= openai_body_spec(model@, system@, user@));
    }
    r
}

} // verus!
