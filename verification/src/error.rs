//! Errors of LLM driver operations.

use crate::text::{decimal, law_decimal_reads_back, push_decimal, read_decimal};
use vstd::prelude::*;

verus! {

/// Error type for LLM driver operations.
#[derive(Debug)]
pub enum LlmError {
    /// HTTP request failed.
    Http(String),
    /// API returned an error.
    Api {
        /// HTTP status code.
        status: u16,
        /// Error message from the API.
        message: String,
    },
    /// Rate limited: should retry after delay.
    RateLimited {
        /// How long to wait before retrying.
        retry_after_ms: u64,
    },
    /// Response parsing failed.
    Parse(String),
    /// No API key configured.
    MissingApiKey(String),
    /// Model overloaded.
    Overloaded {
        /// How long to wait before retrying.
        retry_after_ms: u64,
    },
    /// Authentication failed (invalid/missing API key).
    AuthenticationFailed(String),
    /// Model not found.
    ModelNotFound(String),
}

impl LlmError {
    /// The message that users see.
    pub open spec fn display(&self) -> Seq<char> {
        match *self {
            LlmError::Http(detail) => "HTTP error: "@ + detail@,
            LlmError::Api { status, message } => "API error ("@ + decimal(status as nat) + "): "@
                + message@,
            LlmError::RateLimited { retry_after_ms } => "Rate limited, retry after "@ + decimal(
                retry_after_ms as nat,
            ) + "ms"@,
            LlmError::Parse(detail) => "Parse error: "@ + detail@,
            LlmError::MissingApiKey(detail) => "Missing API key: "@ + detail@,
            LlmError::Overloaded { retry_after_ms } => "Model overloaded, retry after "@ + decimal(
                retry_after_ms as nat,
            ) + "ms"@,
            LlmError::AuthenticationFailed(detail) => "Authentication failed: "@ + detail@,
            LlmError::ModelNotFound(detail) => "Model not found: "@ + detail@,
        }
    }

    /// The message that users see.
    pub fn to_string(&self) -> (message: String)
        ensures
            message@ == self.display(),
    {
        let mut out = String::new();
        match self {
            LlmError::Http(detail) => {
                out.append("HTTP error: ");
                out.append(detail.as_str());
            },
            LlmError::Api { status, message } => {
                out.append("API error (");
                push_decimal(&mut out, *status as u64);
                out.append("): ");
                out.append(message.as_str());
            },
            LlmError::RateLimited { retry_after_ms } => {
                out.append("Rate limited, retry after ");
                push_decimal(&mut out, *retry_after_ms);
                out.append("ms");
            },
            LlmError::Parse(detail) => {
                out.append("Parse error: ");
                out.append(detail.as_str());
            },
            LlmError::MissingApiKey(detail) => {
                out.append("Missing API key: ");
                out.append(detail.as_str());
            },
            LlmError::Overloaded { retry_after_ms } => {
                out.append("Model overloaded, retry after ");
                push_decimal(&mut out, *retry_after_ms);
                out.append("ms");
            },
            LlmError::AuthenticationFailed(detail) => {
                out.append("Authentication failed: ");
                out.append(detail.as_str());
            },
            LlmError::ModelNotFound(detail) => {
                out.append("Model not found: ");
                out.append(detail.as_str());
            },
        }
        out
    }
}

/// The message of an error with a detail is the name of its kind followed by the
/// whole detail, whatever that is.
pub proof fn law_message_ends_in_the_detail(detail: String)
    ensures
        LlmError::Http(detail).display() == "HTTP error: "@ + detail@,
        LlmError::Parse(detail).display() == "Parse error: "@ + detail@,
        LlmError::MissingApiKey(detail).display() == "Missing API key: "@ + detail@,
        LlmError::AuthenticationFailed(detail).display() == "Authentication failed: "@ + detail@,
        LlmError::ModelNotFound(detail).display() == "Model not found: "@ + detail@,
{
}

/// The message of an API error gives the status as a number and then the whole
/// message of the API.
pub proof fn law_api_message_gives_status_and_text(status: u16, message: String)
    ensures
        exists|digits: Seq<char>|
            {
                &&& LlmError::Api { status, message }.display() == "API error ("@ + digits + "): "@
                    + message@
                &&& #[trigger] read_decimal(digits) == status
                &&& forall|i: int| 0 <= i < digits.len() ==> '0' <= #[trigger] digits[i] <= '9'
                &&& digits.len() > 1 ==> digits[0] != '0'
                &&& digits.len() > 0
            },
{
    law_decimal_reads_back(status as nat);
}

/// The messages of the errors that ask for a retry give the delay, in full and in
/// milliseconds.
pub proof fn law_retry_message_gives_the_delay(retry_after_ms: u64)
    ensures
        exists|digits: Seq<char>|
            {
                &&& LlmError::RateLimited { retry_after_ms }.display()
                    == "Rate limited, retry after "@ + digits + "ms"@
                &&& LlmError::Overloaded { retry_after_ms }.display()
                    == "Model overloaded, retry after "@ + digits + "ms"@
                &&& #[trigger] read_decimal(digits) == retry_after_ms
                &&& forall|i: int| 0 <= i < digits.len() ==> '0' <= #[trigger] digits[i] <= '9'
                &&& digits.len() > 1 ==> digits[0] != '0'
                &&& digits.len() > 0
            },
{
    law_decimal_reads_back(retry_after_ms as nat);
}

} // verus!
