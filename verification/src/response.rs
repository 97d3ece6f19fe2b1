//! Outcome of one refresh attempt against the remote service.

use vstd::prelude::*;

verus! {

/// Why a refresh attempt failed.
#[derive(Debug, Clone)]
pub enum FailureReason {
    /// The remote service answered "not found".
    NotFound,
    /// The remote service refused access.
    NotAccessible,
    /// The refresh was attempted too soon; the payload is the remaining
    /// cooldown in seconds.
    RefreshCooldown(u64),
    /// Transport error, malformed reply, or an unrecognized status.
    Unknown,
}

/// Outcome of one refresh attempt for one identifier.
#[derive(Debug, Clone)]
pub enum KpResponse {
    /// No refresh has completed yet in this session.
    Unavailable,
    /// The record was refreshed.
    Success,
    /// The service does not recognize this identifier.
    InvalidId(String),
    /// The refresh failed; see the reason.
    Failure(FailureReason),
}

impl FailureReason {
    /// Wording of the reason as shown to the user.
    pub open spec fn text_chars(&self) -> Seq<char> {
        match self {
            FailureReason::NotFound => "not found"@,
            FailureReason::NotAccessible => "not accessible"@,
            FailureReason::RefreshCooldown(_) => "refreshed too recently"@,
            FailureReason::Unknown => "unknown error occurred"@,
        }
    }

    /// Renders the reason for display.
    pub fn status_text(&self) -> (r: String)
        ensures
            r@ == self.text_chars(),
    {
        match self {
            FailureReason::NotFound => String::from_str("not found"),
            FailureReason::NotAccessible => String::from_str("not accessible"),
            FailureReason::RefreshCooldown(_) => String::from_str("refreshed too recently"),
            FailureReason::Unknown => String::from_str("unknown error occurred"),
        }
    }
}

impl KpResponse {
    /// Wording of the outcome as shown to the user.
    pub open spec fn text_chars(&self) -> Seq<char> {
        match self {
            KpResponse::Unavailable => "not refreshed recently"@,
            KpResponse::Success => "refresh successful"@,
            KpResponse::Failure(reason) => "failed ("@ + reason.text_chars() + ")"@,
            KpResponse::InvalidId(kp_id) => "invalid config (KP id \""@ + kp_id@
                + "\" not found)"@,
        }
    }

    /// Renders the outcome for display.
    pub fn status_text(&self) -> (r: String)
        ensures
            r@ == self.text_chars(),
    {
        match self {
            KpResponse::Unavailable => String::from_str("not refreshed recently"),
            KpResponse::Success => String::from_str("refresh successful"),
            KpResponse::Failure(reason) => {
                let mut s = String::from_str("failed (");
                let t = reason.status_text();
                s.append(t.as_str());
                s.append(")");
                s
            },
            KpResponse::InvalidId(kp_id) => {
                let mut s = String::from_str("invalid config (KP id \"");
                s.append(kp_id.as_str());
                s.append("\" not found)");
                s
            },
        }
    }
}

} // verus!
