//! The error taxonomy: every failure surfaces as one of these values, with
//! no retries and no partial-success states.
use vstd::prelude::*;

verus! {

use vstd::string::StringExecFns;
use crate::text::dec_str;
use crate::text::u16_to_dec;

/// One error value per failure class.
#[derive(Debug)]
pub enum SummarizeError {
    /// Empty id or name, missing placeholder, or an attempt to delete a
    /// built-in profile; carries the descriptive message.
    Validation(String),
    /// The requested profile id is not in the registry; carries the id.
    NotFound(String),
    /// Connection, DNS or timeout failure reaching the backend; carries the
    /// transport layer's description.
    Transport(String),
    /// A non-2xx HTTP status, or a malformed response body; carries the
    /// status and the raw body text.
    Protocol { status: u16, body: String },
    /// The backend answered with zero choices.
    EmptyResult,
    /// The registry guard could not be acquired.
    Concurrency(String),
}

impl SummarizeError {
    /// The message that `message` renders.
    pub open spec fn spec_message(&self) -> Seq<char> {
        match self {
            SummarizeError::Validation(m) => m@,
            SummarizeError::NotFound(id) => "Profile not found: "@ + id@,
            SummarizeError::Transport(m) => "Failed to connect to LLM service: "@ + m@,
            SummarizeError::Protocol { status, body } => "LLM backend error "@ + dec_str(
                *status as int,
            ) + ": "@ + body@,
            SummarizeError::EmptyResult => "No choices in LLM response"@,
            SummarizeError::Concurrency(m) => "Failed to lock profiles: "@ + m@,
        }
    }

    /// A single descriptive message for the caller boundary.
    pub fn message(&self) -> (r: String)
        ensures
            r@ == self.spec_message(),
    {
        match self {
            SummarizeError::Validation(m) => m.clone(),
            SummarizeError::NotFound(id) => {
                let mut r = String::new();
                r.append("Profile not found: ");
                r.append(id.as_str());
                proof {
                    assert(r@ =~= self.spec_message());
                }
                r
            },
            SummarizeError::Transport(m) => {
                let mut r = String::new();
                r.append("Failed to connect to LLM service: ");
                r.append(m.as_str());
                proof {
                    assert(r@ =~= self.spec_message());
                }
                r
            },
            SummarizeError::Protocol { status, body } => {
                let mut r = String::new();
                r.append("LLM backend error ");
                let num = u16_to_dec(*status);
                r.append(num.as_str());
                r.append(": ");
                r.append(body.as_str());
                proof {
                    assert(r@ =~= self.spec_message());
                }
                r
            },
            SummarizeError::EmptyResult => String::from_str("No choices in LLM response"),
            SummarizeError::Concurrency(m) => {
                let mut r = String::new();
                r.append("Failed to lock profiles: ");
                r.append(m.as_str());
                proof {
                    assert(r@ =~= self.spec_message());
                }
                r
            },
        }
    }
}

} // verus!
