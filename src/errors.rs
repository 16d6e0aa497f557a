//! Providers and the HTTP status of each simulated fault.

use vstd::prelude::*;
use vstd::string::*;

use crate::config::ErrorType;
use crate::text::{contains_str, seq_contains};

verus! {

/// The emulated provider APIs.
#[derive(Clone, Copy, Debug, PartialEq, Eq, Structural)]
pub enum Provider {
    Cerebras,
    Gemini,
    Claude,
    OpenAI,
}

/// The provider whose error shape a request path gets: Gemini for paths under
/// `/v1beta/models`, Anthropic for `/v1/messages`, OpenAI for `/v1/responses`,
/// the chat-completions shape for everything else.
pub open spec fn provider_for_path(path: Seq<u8>) -> Provider {
    if seq_contains(path, "/v1beta/models".spec_bytes()) {
        Provider::Gemini
    } else if seq_contains(path, "/v1/messages".spec_bytes()) {
        Provider::Claude
    } else if seq_contains(path, "/v1/responses".spec_bytes()) {
        Provider::OpenAI
    } else {
        Provider::Cerebras
    }
}

/// The provider whose error shape the request path `path` gets.
pub fn provider_from_path(path: &str) -> (r: Provider)
    ensures
        r == provider_for_path(path.spec_bytes()),
{
    if contains_str(path, "/v1beta/models") {
        Provider::Gemini
    } else if contains_str(path, "/v1/messages") {
        Provider::Claude
    } else if contains_str(path, "/v1/responses") {
        Provider::OpenAI
    } else {
        Provider::Cerebras
    }
}

/// The HTTP status of a fault.
pub open spec fn fault_status(error: ErrorType) -> u16 {
    match error {
        ErrorType::Unauthorized => 401,
        ErrorType::RateLimit => 429,
        ErrorType::ServerError => 500,
        ErrorType::Timeout => 504,
    }
}

/// The HTTP status of a fault: 401, 429, 500 or 504.
pub fn status_code(error: ErrorType) -> (r: u16)
    ensures
        r == fault_status(error),
{
    match error {
        ErrorType::Unauthorized => 401,
        ErrorType::RateLimit => 429,
        ErrorType::ServerError => 500,
        ErrorType::Timeout => 504,
    }
}

} // verus!
