use summarizer::backend::ApiType;
use summarizer::backend::chat_url;
use summarizer::backend::combined_prompt;
use summarizer::backend::detect_api_type;
use summarizer::backend::generate_url;
use summarizer::backend::ollama_request_body;
use summarizer::backend::openai_request_body;
use summarizer::backend::tags_url;
use summarizer::backend::version_url;
use summarizer::dispatch::ProcessAction;
use summarizer::dispatch::availability_from_status;
use summarizer::dispatch::complete_chat;
use summarizer::dispatch::complete_generate;
use summarizer::dispatch::complete_tags;
use summarizer::dispatch::plan_process;
use summarizer::errors::SummarizeError;
use summarizer::profile::Profile;
use summarizer::profile::get_built_in_profiles;
use summarizer::registry::Registry;
use summarizer::settings::AppSettings;
use summarizer::settings::delete_custom_profile;
use summarizer::settings::save_custom_profile;
use summarizer::text::str_eq;
use summarizer::text::trim_str;

fn profile(id: &str, name: &str, template: &str, built_in: bool) -> Profile {
    Profile {
        id: id.to_string(),
        name: name.to_string(),
        description: "a test profile".to_string(),
        system_prompt: "".to_string(),
        user_prompt_template: template.to_string(),
        is_built_in: built_in,
        created_at: None,
        updated_at: None,
    }
}

fn settings_with(custom_profiles: Vec<Profile>, active: &str) -> AppSettings {
    AppSettings {
        enable_summarization: true,
        active_profile_id: active.to_string(),
        llm_endpoint: "http://localhost:11434".to_string(),
        llm_model: "llama3".to_string(),
        llm_api_type: ApiType::Ollama,
        llm_timeout_seconds: 30,
        custom_profiles,
    }
}

#[test]
fn test_profile_prompt_formatting() {
    let profile = Profile {
        id: "test".to_string(),
        name: "Test".to_string(),
        description: "Test profile".to_string(),
        system_prompt: "You are a tester".to_string(),
        user_prompt_template: "Process: {transcription}".to_string(),
        is_built_in: true,
        created_at: None,
        updated_at: None,
    };

    let formatted = profile.format_prompt("hello world");
    assert_eq!(formatted, "Process: hello world");
}

#[test]
fn test_built_in_profiles_exist() {
    let profiles = get_built_in_profiles();
    assert_eq!(profiles.len(), 6);
    assert!(profiles.iter().any(|p| p.id == "professional"));
    assert!(profiles.iter().any(|p| p.id == "llm_agent"));
    assert!(profiles.iter().any(|p| p.id == "email"));
    assert!(profiles.iter().any(|p| p.id == "notes"));
    assert!(profiles.iter().any(|p| p.id == "code_comments"));
    assert!(profiles.iter().any(|p| p.id == "raw"));
}

#[test]
fn test_new_custom_profile_has_timestamps() {
    let profile = Profile::new_custom(
        "custom_1".to_string(),
        "My Custom Profile".to_string(),
        "Custom description".to_string(),
        "You are helpful".to_string(),
        "Do this: {transcription}".to_string(),
    );

    assert!(!profile.is_built_in);
    assert!(profile.created_at.is_some());
    assert!(profile.updated_at.is_some());
}

#[test]
fn test_api_type_detection() {
    // Ollama endpoint
    let ollama_endpoint = "http://localhost:11434";
    assert!(!ollama_endpoint.contains("/v1/"));

    // OpenAI endpoint
    let openai_endpoint = "http://localhost:8080/v1/chat/completions";
    assert!(openai_endpoint.contains("/v1/"));
}

#[test]
fn format_prompt_replaces_every_occurrence() {
    let p = profile("t", "T", "{transcription} and again {transcription}!", false);
    assert_eq!(p.format_prompt("hi"), "hi and again hi!");
}

#[test]
fn format_prompt_keeps_template_without_placeholder() {
    let p = profile("t", "T", "no placeholder here", true);
    assert_eq!(p.format_prompt("hi"), "no placeholder here");
}

#[test]
fn format_prompt_on_empty_text() {
    let p = profile("t", "T", "a {transcription}b", false);
    assert_eq!(p.format_prompt(""), "a b");
}

#[test]
fn builtin_raw_profile_is_a_no_op_template() {
    let profiles = get_built_in_profiles();
    let raw = profiles.iter().find(|p| p.id == "raw").unwrap();
    assert!(raw.is_built_in);
    assert_eq!(raw.system_prompt, "");
    assert_eq!(raw.user_prompt_template, "");
    assert!(raw.created_at.is_none());
    assert!(raw.updated_at.is_none());
}

#[test]
fn raw_profile_passes_text_through_without_a_call() {
    let registry = Registry::load(&Vec::new());
    let plan = plan_process(&registry, "hello", "raw", "http://localhost:11434", "m", ApiType::Ollama);
    match plan {
        Ok(ProcessAction::PassThrough(t)) => assert_eq!(t, "hello"),
        _ => panic!("raw profile must pass text through"),
    }
    let plan_empty =
        plan_process(&registry, "", "raw", "http://localhost:11434", "m", ApiType::OpenAI);
    match plan_empty {
        Ok(ProcessAction::PassThrough(t)) => assert_eq!(t, ""),
        _ => panic!("raw profile must pass empty text through"),
    }
}

#[test]
fn unknown_profile_is_not_found() {
    let registry = Registry::load(&Vec::new());
    let plan = plan_process(&registry, "x", "nope", "http://h", "m", ApiType::Ollama);
    match plan {
        Err(SummarizeError::NotFound(id)) => assert_eq!(id, "nope"),
        _ => panic!("missing profile must be a not-found error"),
    }
}

#[test]
fn plan_builds_the_native_call() {
    let registry = Registry::load(&Vec::new());
    let plan = plan_process(
        &registry,
        "say hi",
        "professional",
        "http://localhost:11434/",
        "llama3",
        ApiType::Ollama,
    );
    match plan {
        Ok(ProcessAction::HttpCall { api, url, body }) => {
            assert_eq!(api, ApiType::Ollama);
            assert_eq!(url, "http://localhost:11434/api/generate");
            assert!(body.starts_with("{\"model\":\"llama3\",\"prompt\":\"System: "));
            assert!(body.ends_with(
                "\",\"stream\":false,\"options\":{\"temperature\":0.3,\"top_p\":0.9}}"
            ));
            assert!(body.contains("say hi"));
        }
        _ => panic!("expected a native call"),
    }
}

#[test]
fn plan_builds_the_openai_call() {
    let registry = Registry::load(&Vec::new());
    let plan = plan_process(
        &registry,
        "say hi",
        "email",
        "http://host/v1/",
        "gpt",
        ApiType::Ollama,
    );
    match plan {
        Ok(ProcessAction::HttpCall { api, url, body }) => {
            assert_eq!(api, ApiType::OpenAI);
            assert_eq!(url, "http://host/chat/completions");
            assert!(body.starts_with("{\"model\":\"gpt\",\"messages\":[{\"role\":\"system\",\"content\":\""));
            assert!(body.ends_with("\"}],\"temperature\":0.3,\"max_tokens\":1000}"));
        }
        _ => panic!("expected an OpenAI-compatible call"),
    }
}

#[test]
fn deleting_built_in_flagged_profile_is_rejected() {
    let stored = profile("mine", "Mine", "{transcription}", true);
    let mut settings = settings_with(vec![stored], "professional");
    let before = settings.custom_profiles.len();
    let r = delete_custom_profile(&mut settings, "mine");
    match r {
        Err(SummarizeError::Validation(m)) => {
            assert_eq!(m, "Cannot delete built-in profile");
        }
        _ => panic!("deleting a built-in profile must be rejected"),
    }
    assert_eq!(settings.custom_profiles.len(), before);
    assert_eq!(settings.custom_profiles[0].id, "mine");
    assert_eq!(settings.active_profile_id, "professional");
}

#[test]
fn saving_profile_without_placeholder_is_rejected() {
    let mut settings = settings_with(Vec::new(), "raw");
    let bad = profile("p1", "P1", "no token at all", false);
    let r = save_custom_profile(&mut settings, bad);
    match r {
        Err(SummarizeError::Validation(m)) => {
            assert_eq!(m, "User prompt template must contain {transcription} placeholder");
        }
        _ => panic!("template without placeholder must be rejected"),
    }
    assert!(settings.custom_profiles.is_empty());
}

#[test]
fn saving_profile_with_empty_id_or_name_is_rejected() {
    let mut settings = settings_with(Vec::new(), "raw");
    let no_id = profile("", "Name", "{transcription}", false);
    match save_custom_profile(&mut settings, no_id) {
        Err(SummarizeError::Validation(m)) => assert_eq!(m, "Profile ID cannot be empty"),
        _ => panic!("empty id must be rejected"),
    }
    let no_name = profile("id", "", "{transcription}", false);
    match save_custom_profile(&mut settings, no_name) {
        Err(SummarizeError::Validation(m)) => assert_eq!(m, "Profile name cannot be empty"),
        _ => panic!("empty name must be rejected"),
    }
    assert!(settings.custom_profiles.is_empty());
}

#[test]
fn saving_updates_existing_and_appends_new() {
    let mut settings = settings_with(vec![profile("a", "A", "{transcription}", false)], "raw");
    let updated = profile("a", "A2", "X {transcription}", false);
    assert!(save_custom_profile(&mut settings, updated).is_ok());
    assert_eq!(settings.custom_profiles.len(), 1);
    assert_eq!(settings.custom_profiles[0].name, "A2");

    let fresh = profile("b", "B", "{transcription}", false);
    assert!(save_custom_profile(&mut settings, fresh).is_ok());
    assert_eq!(settings.custom_profiles.len(), 2);
    assert_eq!(settings.custom_profiles[1].id, "b");
}

#[test]
fn deleting_active_profile_resets_active_to_raw() {
    let stored = profile("mine", "Mine", "{transcription}", false);
    let mut settings = settings_with(vec![stored], "mine");
    assert!(delete_custom_profile(&mut settings, "mine").is_ok());
    assert!(settings.custom_profiles.is_empty());
    assert_eq!(settings.active_profile_id, "raw");
}

#[test]
fn deleting_inactive_profile_keeps_active_id() {
    let stored = profile("mine", "Mine", "{transcription}", false);
    let mut settings = settings_with(vec![stored], "email");
    assert!(delete_custom_profile(&mut settings, "mine").is_ok());
    assert!(settings.custom_profiles.is_empty());
    assert_eq!(settings.active_profile_id, "email");
}

#[test]
fn backend_selection_follows_url_then_hint() {
    assert_eq!(detect_api_type("http://host/v1/", ApiType::Ollama), ApiType::OpenAI);
    assert_eq!(detect_api_type("http://host/v1/", ApiType::OpenAI), ApiType::OpenAI);
    assert_eq!(detect_api_type("http://host:11434", ApiType::Ollama), ApiType::Ollama);
    assert_eq!(detect_api_type("http://host:11434", ApiType::OpenAI), ApiType::OpenAI);
}

#[test]
fn endpoint_normalization_builds_the_documented_urls() {
    assert_eq!(chat_url("http://host/v1/"), "http://host/chat/completions");
    assert_eq!(generate_url("http://host/"), "http://host/api/generate");
    assert_eq!(generate_url("http://host"), "http://host/api/generate");
    assert_eq!(chat_url("http://host"), "http://host/chat/completions");
    assert_eq!(version_url("http://host/"), "http://host/api/version");
    assert_eq!(tags_url("http://host/"), "http://host/api/tags");
}

#[test]
fn request_bodies_are_exact() {
    assert_eq!(
        ollama_request_body("m", "hi"),
        "{\"model\":\"m\",\"prompt\":\"hi\",\"stream\":false,\"options\":{\"temperature\":0.3,\"top_p\":0.9}}"
    );
    assert_eq!(
        openai_request_body("m", "sys", "hi"),
        "{\"model\":\"m\",\"messages\":[{\"role\":\"system\",\"content\":\"sys\"},{\"role\":\"user\",\"content\":\"hi\"}],\"temperature\":0.3,\"max_tokens\":1000}"
    );
    assert_eq!(
        openai_request_body("m", "", "hi"),
        "{\"model\":\"m\",\"messages\":[{\"role\":\"user\",\"content\":\"hi\"}],\"temperature\":0.3,\"max_tokens\":1000}"
    );
}

#[test]
fn request_bodies_escape_json_text() {
    let body = ollama_request_body("m", "a \"quoted\"\nline \\ end");
    assert_eq!(
        body,
        "{\"model\":\"m\",\"prompt\":\"a \\\"quoted\\\"\\nline \\\\ end\",\"stream\":false,\"options\":{\"temperature\":0.3,\"top_p\":0.9}}"
    );
    let control = ollama_request_body("m", "\u{1}");
    assert!(control.contains("\\u0001"));
}

#[test]
fn combined_prompt_concatenates_only_with_system_text() {
    assert_eq!(combined_prompt("sys", "user"), "System: sys\n\nUser: user");
    assert_eq!(combined_prompt("", "user"), "user");
}

#[test]
fn non_2xx_reply_is_a_protocol_error_with_the_status() {
    let r = complete_generate(404, "missing".to_string());
    match r {
        Err(SummarizeError::Protocol { status, body }) => {
            assert_eq!(status, 404);
            assert_eq!(body, "missing");
        }
        _ => panic!("non-2xx must be a protocol error"),
    }
    let r2 = complete_chat(500, "oops".to_string());
    match r2 {
        Err(SummarizeError::Protocol { status, .. }) => assert_eq!(status, 500),
        _ => panic!("non-2xx must be a protocol error"),
    }
    let r3 = complete_tags(503, "down".to_string());
    match r3 {
        Err(SummarizeError::Protocol { status, .. }) => assert_eq!(status, 503),
        _ => panic!("non-2xx must be a protocol error"),
    }
}

#[test]
fn malformed_reply_is_a_protocol_error() {
    let r = complete_generate(200, "not json".to_string());
    match r {
        Err(SummarizeError::Protocol { status, body }) => {
            assert_eq!(status, 200);
            assert_eq!(body, "not json");
        }
        _ => panic!("malformed body must be a protocol error"),
    }
    let missing_done = complete_generate(200, "{\"response\":\"x\"}".to_string());
    assert!(matches!(missing_done, Err(SummarizeError::Protocol { .. })));
}

#[test]
fn generate_reply_text_is_extracted_and_trimmed() {
    let r = complete_generate(200, "{\"response\":\"  hello there \",\"done\":true}".to_string());
    assert_eq!(r.unwrap(), "hello there");
}

#[test]
fn empty_choices_is_the_empty_result_error() {
    let r = complete_chat(200, "{\"choices\":[]}".to_string());
    assert!(matches!(r, Err(SummarizeError::EmptyResult)));
}

#[test]
fn chat_reply_takes_the_first_choice_trimmed() {
    let body = "{\"choices\":[{\"message\":{\"content\":\" first \"}},{\"message\":{\"content\":\"second\"}}]}";
    let r = complete_chat(200, body.to_string());
    assert_eq!(r.unwrap(), "first");
}

#[test]
fn tags_reply_lists_model_names() {
    let body = "{\"models\":[{\"name\":\"llama3\"},{\"name\":\"phi\"}]}";
    let r = complete_tags(200, body.to_string());
    assert_eq!(r.unwrap(), vec!["llama3".to_string(), "phi".to_string()]);
}

#[test]
fn availability_is_true_only_on_2xx() {
    assert!(availability_from_status(Some(200)));
    assert!(availability_from_status(Some(204)));
    assert!(!availability_from_status(Some(404)));
    assert!(!availability_from_status(Some(500)));
    assert!(!availability_from_status(None));
}

#[test]
fn registry_merges_customs_over_builtins() {
    let override_email = profile("email", "My Email", "{transcription}", false);
    let extra = profile("extra", "Extra", "{transcription}", false);
    let registry = Registry::load(&vec![override_email, extra]);
    let email = registry.get("email").unwrap();
    assert_eq!(email.name, "My Email");
    let extra_back = registry.get("extra").unwrap();
    assert_eq!(extra_back.name, "Extra");
    assert!(registry.get("professional").is_some());
    assert_eq!(registry.list().len(), 7);
    assert!(registry.get("absent").is_none());
}

#[test]
fn registry_reload_replaces_contents() {
    let mut registry = Registry::load(&vec![profile("extra", "Extra", "{transcription}", false)]);
    assert!(registry.get("extra").is_some());
    registry.reload_profiles(&Vec::new());
    assert!(registry.get("extra").is_none());
    assert_eq!(registry.list().len(), 6);
}

#[test]
fn error_messages_carry_their_detail() {
    let e = SummarizeError::Protocol { status: 404, body: "gone".to_string() };
    assert_eq!(e.message(), "LLM backend error 404: gone");
    let nf = SummarizeError::NotFound("x".to_string());
    assert_eq!(nf.message(), "Profile not found: x");
    let v = SummarizeError::Validation("bad".to_string());
    assert_eq!(v.message(), "bad");
    let t = SummarizeError::Transport("refused".to_string());
    assert_eq!(t.message(), "Failed to connect to LLM service: refused");
    let em = SummarizeError::EmptyResult;
    assert_eq!(em.message(), "No choices in LLM response");
}

#[test]
fn text_helpers_behave_like_std() {
    assert_eq!(trim_str("  a b \n"), "a b");
    assert_eq!(trim_str(""), "");
    assert_eq!(trim_str(" \t "), "");
    assert_eq!(trim_str("\u{a0}x\u{3000}"), "x".to_string());
    assert_eq!(trim_str("  a b \n"), "  a b \n".trim());
    assert!(str_eq("abc", "abc"));
    assert!(!str_eq("abc", "abd"));
    assert!(!str_eq("abc", "ab"));
}

#[test]
fn protocol_message_renders_any_status() {
    let low = SummarizeError::Protocol { status: 0, body: "b".to_string() };
    assert_eq!(low.message(), "LLM backend error 0: b");
    let high = SummarizeError::Protocol { status: 65535, body: "b".to_string() };
    assert_eq!(high.message(), "LLM backend error 65535: b");
}
