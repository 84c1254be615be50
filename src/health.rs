use vstd::prelude::*;
use crate::errors::{error_message, KuponError};
use crate::text::{decimal, decimal_text, lemma_decimal_nonempty};

verus! {

/// What the server says of itself when asked for its health.
#[derive(Debug, Clone)]
pub struct ServerInfo {
    pub connection_status: String,
    pub most_recent_checkpoint: Option<u64>,
    pub most_recent_node_tip: Option<u64>,
    pub version: Option<String>,
}

/// The state of the server.
#[derive(Debug, Clone)]
pub enum HealthStatus {
    Healthy,
    Syncing,
    Disconnected,
    Error(String),
}

/// The outcome of a health check.
#[derive(Debug, Clone)]
pub struct Health {
    pub status: HealthStatus,
    pub info: Option<ServerInfo>,
}

/// How the body of a health answer reads.
pub enum HealthResponse {
    Success(ServerInfo),
    Failure { hint: String },
}

/// The message for a status code that a health check does not expect.
pub open spec fn unexpected_code_message(code: u16) -> Seq<char> {
    "Unexpected response code "@ + decimal(code as nat)
}

/// The message for a health answer whose body cannot be read.
pub open spec fn malformed_body_message() -> Seq<char> {
    "malformed health response"@
}

/// The message for a health answer whose body cannot be read: the code's own
/// message where the code is unexpected.
pub open spec fn unreadable_body_message(code: u16) -> Seq<char> {
    if is_known_code(code) {
        malformed_body_message()
    } else {
        unexpected_code_message(code)
    }
}

/// Whether a status code has a health status of its own: 200, 202 or 503.
pub open spec fn is_known_code(code: u16) -> bool {
    code == 200 || code == 202 || code == 503
}

/// The health status a status code stands for, when it stands for one.
pub open spec fn known_status(code: u16, s: HealthStatus) -> bool {
    if code == 200 {
        s is Healthy
    } else if code == 202 {
        s is Syncing
    } else {
        s is Disconnected
    }
}

fn unexpected_code(code: u16) -> (r: String)
    ensures
        r@ == unexpected_code_message(code),
        r@.len() > 0,
{
    let digits = decimal_text(code as u64);
    let mut r = String::from_str("Unexpected response code ");
    r.append(digits.as_str());
    proof {
        reveal_strlit("Unexpected response code ");
    }
    r
}

impl Health {
    /// The health that an answer with this status code and body stands for; `body` is
    /// `None` when the body reads as neither server information nor a failure.
    /// A failure's hint becomes the error; otherwise an unexpected code, then an
    /// unreadable body, is an error; otherwise the code gives the status and the
    /// body the information.
    pub fn from_response(code: u16, body: Option<HealthResponse>) -> (r: Health)
        ensures
            match body {
                Some(HealthResponse::Failure { hint }) => r.status == HealthStatus::Error(hint)
                    && r.info is None,
                Some(HealthResponse::Success(info)) => r.info == Some(info) && if is_known_code(code) {
                    known_status(code, r.status)
                } else {
                    (r.status matches HealthStatus::Error(m) && m@ == unexpected_code_message(code))
                },
                None => r.info is None && (r.status matches HealthStatus::Error(m) && m@
                    == unreadable_body_message(code)),
            },
    {
        let known = code == 200 || code == 202 || code == 503;
        match body {
            Some(HealthResponse::Failure { hint }) => Health { status: HealthStatus::Error(hint), info: None },
            Some(HealthResponse::Success(info)) => {
                let status = if code == 200 {
                    HealthStatus::Healthy
                } else if code == 202 {
                    HealthStatus::Syncing
                } else if code == 503 {
                    HealthStatus::Disconnected
                } else {
                    HealthStatus::Error(unexpected_code(code))
                };
                Health { status, info: Some(info) }
            },
            None => {
                let message = if known {
                    proof {
                        reveal_strlit("malformed health response");
                    }
                    String::from_str("malformed health response")
                } else {
                    unexpected_code(code)
                };
                Health { status: HealthStatus::Error(message), info: None }
            },
        }
    }

    /// The health of a server that could not be asked: an error with the error's
    /// message, which is never empty.
    pub fn from_error(error: &KuponError) -> (r: Health)
        ensures
            r.status matches HealthStatus::Error(m) && m@ == error_message(*error) && m@.len() > 0,
            r.info is None,
    {
        Health { status: HealthStatus::Error(error.message()), info: None }
    }
}

/// A health answer that is not a failure, with a body that cannot be read or with
/// a code other than 200, 202 and 503, is an error with a message that is not empty.
pub proof fn lemma_health_error_message_nonempty(code: u16)
    ensures
        unreadable_body_message(code).len() > 0,
        unexpected_code_message(code).len() > 0,
{
    reveal_strlit("malformed health response");
    reveal_strlit("Unexpected response code ");
    lemma_decimal_nonempty(code as nat);
}

} // verus!
