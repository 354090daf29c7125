//! Profiles: named rewriting styles bundling a system instruction and a
//! user-prompt template, plus the fixed table of built-in profiles.
use vstd::prelude::*;

verus! {

use vstd::string::StringExecFns;
use crate::text::replace_seq;
use crate::text::replace_str;

/// One rewriting style.
pub struct Profile {
    pub id: String,
    pub name: String,
    pub description: String,
    pub system_prompt: String,
    pub user_prompt_template: String,
    pub is_built_in: bool,
    pub created_at: Option<String>,
    pub updated_at: Option<String>,
}

/// The mathematical value of a `Profile`.
pub ghost struct ProfileView {
    pub id: Seq<char>,
    pub name: Seq<char>,
    pub description: Seq<char>,
    pub system_prompt: Seq<char>,
    pub user_prompt_template: Seq<char>,
    pub is_built_in: bool,
    pub created_at: Option<Seq<char>>,
    pub updated_at: Option<Seq<char>>,
}

impl View for Profile {
    type V = ProfileView;

    open spec fn view(&self) -> ProfileView {
        ProfileView {
            id: self.id@,
            name: self.name@,
            description: self.description@,
            system_prompt: self.system_prompt@,
            user_prompt_template: self.user_prompt_template@,
            is_built_in: self.is_built_in,
            created_at: self.created_at.deep_view(),
            updated_at: self.updated_at.deep_view(),
        }
    }
}

impl DeepView for Profile {
    type V = ProfileView;

    open spec fn deep_view(&self) -> ProfileView {
        self.view()
    }
}

impl Clone for Profile {
    fn clone(&self) -> (res: Self)
        ensures
            res == *self,
    {
        Profile {
            id: self.id.clone(),
            name: self.name.clone(),
            description: self.description.clone(),
            system_prompt: self.system_prompt.clone(),
            user_prompt_template: self.user_prompt_template.clone(),
            is_built_in: self.is_built_in,
            created_at: match &self.created_at {
                Some(s) => Some(s.clone()),
                None => None,
            },
            updated_at: match &self.updated_at {
                Some(s) => Some(s.clone()),
                None => None,
            },
        }
    }
}

/// The placeholder token that user-prompt templates carry.
pub open spec fn placeholder() -> Seq<char> {
    "{transcription}"@
}

/// Relies on chrono's `Utc::now` and `DateTime::to_rfc3339` for the current
/// wall-clock time as an RFC 3339 string. The result depends on the clock,
/// so nothing is stated of its value.
#[verifier::external_body]
fn now_rfc3339() -> String {
    chrono::Utc::now().to_rfc3339()
}

impl Profile {
    /// Build a user-created profile: both timestamps are stamped with the
    /// same current wall-clock string, and the built-in flag is off.
    pub fn new_custom(
        id: String,
        name: String,
        description: String,
        system_prompt: String,
        user_prompt_template: String,
    ) -> (r: Self)
        ensures
            r@.id == id@,
            r@.name == name@,
            r@.description == description@,
            r@.system_prompt == system_prompt@,
            r@.user_prompt_template == user_prompt_template@,
            !r@.is_built_in,
            r@.created_at matches Some(_),
            r@.updated_at == r@.created_at,
    {
        let now = now_rfc3339();
        Profile {
            id,
            name,
            description,
            system_prompt,
            user_prompt_template,
            is_built_in: false,
            created_at: Some(now.clone()),
            updated_at: Some(now),
        }
    }

    /// Replace every occurrence of the `{transcription}` placeholder in the
    /// user-prompt template with `raw_text`; the rest of the template is
    /// kept unchanged. Pure textual substitution, no validation.
    pub fn format_prompt(&self, raw_text: &str) -> (r: String)
        ensures
            r@ == replace_seq(self.user_prompt_template@, placeholder(), raw_text@),
    {
        proof {
            reveal_strlit("{transcription}");
        }
        replace_str(self.user_prompt_template.as_str(), "{transcription}", raw_text)
    }
}

/// The six built-in profiles, as fixed values.
pub open spec fn builtin_profiles() -> Seq<ProfileView> {
    seq![
        ProfileView {
            id: "professional"@,
            name: "Professional"@,
            description: "Formal tone suitable for workplace communication"@,
            system_prompt: "You are a professional writing assistant. Convert casual speech into polished, professional text suitable for workplace communication. Fix grammar, remove filler words, and use formal tone while maintaining the original meaning."@,
            user_prompt_template: "Convert this speech transcription into professional text:\n\n{transcription}"@,
            is_built_in: true,
            created_at: None,
            updated_at: None,
        },
        ProfileView {
            id: "llm_agent"@,
            name: "LLM Agent Instructions"@,
            description: "Clear, structured instructions for AI agents"@,
            system_prompt: "You are a technical instruction optimizer. Convert natural speech into clear, structured instructions for AI agents. Use imperative voice, be specific and unambiguous, and remove conversational elements."@,
            user_prompt_template: "Convert this speech into a clear instruction for an AI agent:\n\n{transcription}"@,
            is_built_in: true,
            created_at: None,
            updated_at: None,
        },
        ProfileView {
            id: "email"@,
            name: "Email"@,
            description: "Well-formatted email with proper structure"@,
            system_prompt: "You are an email writing assistant. Convert speech into a well-formatted email. Add appropriate greeting and closing if missing, use proper paragraphs, and maintain professional yet friendly tone."@,
            user_prompt_template: "Convert this speech into a well-formatted email:\n\n{transcription}"@,
            is_built_in: true,
            created_at: None,
            updated_at: None,
        },
        ProfileView {
            id: "notes"@,
            name: "Notes"@,
            description: "Concise bullet points and key phrases"@,
            system_prompt: "You are a note-taking assistant. Convert speech into concise, well-organized notes using bullet points. Extract key information and organize logically."@,
            user_prompt_template: "Convert this speech into organized notes:\n\n{transcription}"@,
            is_built_in: true,
            created_at: None,
            updated_at: None,
        },
        ProfileView {
            id: "code_comments"@,
            name: "Code Comments"@,
            description: "Technical documentation style"@,
            system_prompt: "You are a technical documentation assistant. Convert speech into clear, concise code comments or documentation. Use technical language appropriately and be precise."@,
            user_prompt_template: "Convert this speech into a code comment or technical documentation:\n\n{transcription}"@,
            is_built_in: true,
            created_at: None,
            updated_at: None,
        },
        ProfileView {
            id: "raw"@,
            name: "Raw (No Processing)"@,
            description: "Bypass summarization, paste raw transcription"@,
            system_prompt: ""@,
            user_prompt_template: ""@,
            is_built_in: true,
            created_at: None,
            updated_at: None,
        },
    ]
}

/// The six built-in profile ids, in seeding order.
pub open spec fn builtin_ids() -> Seq<Seq<char>> {
    seq!["professional"@, "llm_agent"@, "email"@, "notes"@, "code_comments"@, "raw"@]
}

/// The built-in ids are the ids of the built-in profiles, and they are
/// pairwise distinct.
pub proof fn lemma_builtin_ids()
    ensures
        builtin_ids().len() == builtin_profiles().len() == 6,
        forall|i: int| 0 <= i < 6 ==> builtin_profiles()[i].id == builtin_ids()[i],
        forall|i: int, j: int| 0 <= i < j < 6 ==> builtin_ids()[i] != builtin_ids()[j],
{
    reveal_strlit("professional");
    reveal_strlit("llm_agent");
    reveal_strlit("email");
    reveal_strlit("notes");
    reveal_strlit("code_comments");
    reveal_strlit("raw");
    assert(forall|i: int| 0 <= i < 6 ==> builtin_profiles()[i].id == builtin_ids()[i]);
    assert("email"@ != "notes"@) by {
        assert("email"@[0] != "notes"@[0]);
    }
    assert(forall|i: int, j: int| 0 <= i < j < 6 ==> builtin_ids()[i] != builtin_ids()[j]);
}

/// The fixed built-in profile table.
pub fn get_built_in_profiles() -> (r: Vec<Profile>)
    ensures
        r.deep_view() == builtin_profiles(),
{
    let mut v: Vec<Profile> = Vec::new();
    v.push(
        Profile {
            id: String::from_str("professional"),
            name: String::from_str("Professional"),
            description: String::from_str("Formal tone suitable for workplace communication"),
            system_prompt: String::from_str(
                "You are a professional writing assistant. Convert casual speech into polished, professional text suitable for workplace communication. Fix grammar, remove filler words, and use formal tone while maintaining the original meaning.",
            ),
            user_prompt_template: String::from_str(
                "Convert this speech transcription into professional text:\n\n{transcription}",
            ),
            is_built_in: true,
            created_at: None,
            updated_at: None,
        },
    );
    v.push(
        Profile {
            id: String::from_str("llm_agent"),
            name: String::from_str("LLM Agent Instructions"),
            description: String::from_str("Clear, structured instructions for AI agents"),
            system_prompt: String::from_str(
                "You are a technical instruction optimizer. Convert natural speech into clear, structured instructions for AI agents. Use imperative voice, be specific and unambiguous, and remove conversational elements.",
            ),
            user_prompt_template: String::from_str(
                "Convert this speech into a clear instruction for an AI agent:\n\n{transcription}",
            ),
            is_built_in: true,
            created_at: None,
            updated_at: None,
        },
    );
    v.push(
        Profile {
            id: String::from_str("email"),
            name: String::from_str("Email"),
            description: String::from_str("Well-formatted email with proper structure"),
            system_prompt: String::from_str(
                "You are an email writing assistant. Convert speech into a well-formatted email. Add appropriate greeting and closing if missing, use proper paragraphs, and maintain professional yet friendly tone.",
            ),
            user_prompt_template: String::from_str(
                "Convert this speech into a well-formatted email:\n\n{transcription}",
            ),
            is_built_in: true,
            created_at: None,
            updated_at: None,
        },
    );
    v.push(
        Profile {
            id: String::from_str("notes"),
            name: String::from_str("Notes"),
            description: String::from_str("Concise bullet points and key phrases"),
            system_prompt: String::from_str(
                "You are a note-taking assistant. Convert speech into concise, well-organized notes using bullet points. Extract key information and organize logically.",
            ),
            user_prompt_template: String::from_str(
                "Convert this speech into organized notes:\n\n{transcription}",
            ),
            is_built_in: true,
            created_at: None,
            updated_at: None,
        },
    );
    v.push(
        Profile {
            id: String::from_str("code_comments"),
            name: String::from_str("Code Comments"),
            description: String::from_str("Technical documentation style"),
            system_prompt: String::from_str(
                "You are a technical documentation assistant. Convert speech into clear, concise code comments or documentation. Use technical language appropriately and be precise.",
            ),
            user_prompt_template: String::from_str(
                "Convert this speech into a code comment or technical documentation:\n\n{transcription}",
            ),
            is_built_in: true,
            created_at: None,
            updated_at: None,
        },
    );
    v.push(
        Profile {
            id: String::from_str("raw"),
            name: String::from_str("Raw (No Processing)"),
            description: String::from_str("Bypass summarization, paste raw transcription"),
            system_prompt: String::from_str(""),
            user_prompt_template: String::from_str(""),
            is_built_in: true,
            created_at: None,
            updated_at: None,
        },
    );
    assert(v.deep_view() =~= builtin_profiles());
    v
}

} // verus!
