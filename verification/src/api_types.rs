//! Request, response and mode types shared by every action handler.

use vstd::prelude::*;

use crate::text::{eq_fold, fold_lower, lemma_fold_lower_identity};

verus! {

/// Process-wide behaviour switch for input synthesis.  `Assistant`
/// animates actions so a user can watch them; `Production` issues each
/// action as a single direct device call.
#[derive(Debug, Clone, Copy, PartialEq, Eq, Structural)]
pub enum OperationMode {
    Assistant,
    Production,
}

impl Default for OperationMode {
    /// The mode active at process start.
    fn default() -> (r: Self)
        ensures
            r == OperationMode::Assistant,
    {
        OperationMode::Assistant
    }
}

/// The mode, if any, that a case-folded token names.
pub open spec fn spec_mode_of(s: Seq<char>) -> Option<OperationMode> {
    if s == "assistant"@ {
        Some(OperationMode::Assistant)
    } else if s == "production"@ {
        Some(OperationMode::Production)
    } else {
        None
    }
}

/// The lowercase token naming a mode.
pub open spec fn spec_mode_label(m: OperationMode) -> Seq<char> {
    match m {
        OperationMode::Assistant => "assistant"@,
        OperationMode::Production => "production"@,
    }
}

/// Case folding leaves the two mode tokens unchanged.
pub proof fn lemma_mode_tokens_folded()
    ensures
        fold_lower("assistant"@) == "assistant"@,
        fold_lower("production"@) == "production"@,
{
    reveal_strlit("assistant");
    lemma_fold_lower_identity("assistant"@);
    reveal_strlit("production");
    lemma_fold_lower_identity("production"@);
}

/// Mode resolution is case-insensitive: a token resolves exactly as its
/// case-folded form does, so any two spellings that fold alike resolve
/// to the same mode.
pub proof fn lemma_mode_resolution_case_insensitive(s: Seq<char>)
    ensures
        spec_mode_of(fold_lower(fold_lower(s))) == spec_mode_of(fold_lower(s)),
{
    crate::text::lemma_fold_lower_idempotent(s);
}

/// Resolve a mode token, case-insensitively, to its mode.
pub fn mode_from_token(token: &str) -> (r: Option<OperationMode>)
    ensures
        r == spec_mode_of(fold_lower(token@)),
{
    proof {
        lemma_mode_tokens_folded();
    }
    if eq_fold(token, "assistant") {
        Some(OperationMode::Assistant)
    } else if eq_fold(token, "production") {
        Some(OperationMode::Production)
    } else {
        None
    }
}

/// The lowercase name of a mode, for the status payload.
pub fn mode_label(m: OperationMode) -> (r: &'static str)
    ensures
        r@ == spec_mode_label(m),
{
    match m {
        OperationMode::Assistant => "assistant",
        OperationMode::Production => "production",
    }
}

/// The uniform envelope wrapped around every HTTP response body.
#[derive(Debug)]
pub struct ApiResponse<T> {
    pub success: bool,
    pub message: String,
    pub data: Option<T>,
    pub timestamp: i64,
}

/// Relies on chrono::Utc::now and chrono::DateTime::timestamp for the
/// whole seconds of the system clock since the Unix epoch.  The result
/// depends on the clock alone, so nothing is stated of its value.
#[verifier::external_body]
fn now_timestamp() -> i64 {
    chrono::Utc::now().timestamp()
}

impl<T> ApiResponse<T> {
    /// A success envelope carrying the given message and payload,
    /// stamped with the current time.
    pub fn success(message: &str, data: Option<T>) -> (r: Self)
        ensures
            r.success,
            r.message@ == message@,
            r.data == data,
    {
        ApiResponse {
            success: true,
            message: message.to_owned(),
            data,
            timestamp: now_timestamp(),
        }
    }

    /// A failure envelope carrying the given message and no payload,
    /// stamped with the current time.
    pub fn error(message: &str) -> (r: Self)
        ensures
            !r.success,
            r.message@ == message@,
            r.data is None,
    {
        ApiResponse { success: false, message: message.to_owned(), data: None, timestamp: now_timestamp() }
    }
}

/// Payload of the status endpoint.
#[derive(Debug, PartialEq)]
pub struct StatusData {
    pub status: String,
    pub port: u16,
    pub version: String,
    pub mode: String,
}

/// Body of a cursor move request.
#[derive(Debug, PartialEq)]
pub struct MouseMoveRequest {
    pub x: i32,
    pub y: i32,
}

/// Body of a mouse click request; coordinates and button are optional.
#[derive(Debug, PartialEq)]
pub struct MouseClickRequest {
    pub x: Option<i32>,
    pub y: Option<i32>,
    pub button: Option<String>,
}

/// Body of a text typing request; the interval between characters is
/// optional and given in milliseconds.
#[derive(Debug, PartialEq)]
pub struct KeyboardTypeRequest {
    pub text: String,
    pub interval: Option<u64>,
}

/// Body of a single key press request.
#[derive(Debug, PartialEq)]
pub struct KeyboardPressRequest {
    pub key: String,
}

/// Body of a browser open request.
#[derive(Debug, PartialEq)]
pub struct BrowserOpenRequest {
    pub url: String,
}

/// Body of a mode change request.
#[derive(Debug, PartialEq)]
pub struct ModeChangeRequest {
    pub mode: String,
}

} // verus!
