//! Decoding of the remote service's answer to a refresh request.
//!
//! The transport collaborator performs the actual round trip and hands back
//! the plain status code and body text; everything decided from them is
//! verified here.  The decoder is total: every status code falls into a
//! closed set of outcomes, with an explicit "unknown" arm.

use crate::cooldown::spec_default_cooldown_response;
use crate::cooldown::default_cooldown_response;
use crate::response::{FailureReason, KpResponse};
use crate::text::{chars_vec, contains_seq, seq_contains};
use vstd::prelude::*;

verus! {

/// Root address of the remote service.
pub open spec fn kp_url() -> Seq<char> {
    "https://killproof.me"@
}

/// The status page address of an identifier.
pub fn kp_path(kp_id: &String) -> (r: String)
    ensures
        r@ == kp_url() + "/proof/"@ + kp_id@,
{
    let mut s = String::from_str("https://killproof.me");
    s.append("/proof/");
    s.append(kp_id.as_str());
    proof {
        assert(s@ =~= kp_url() + "/proof/"@ + kp_id@);
    }
    s
}

/// The refresh endpoint of an identifier.
pub fn refresh_path(kp_id: &String) -> (r: String)
    ensures
        r@ == kp_url() + "/proof/"@ + kp_id@ + "/refresh"@,
{
    let mut s = kp_path(kp_id);
    s.append("/refresh");
    proof {
        assert(s@ =~= kp_url() + "/proof/"@ + kp_id@ + "/refresh"@);
    }
    s
}

/// The fragment whose presence in a refresh reply body announces success.
pub open spec fn ok_marker() -> Seq<char> {
    "status\":\"ok"@
}

/// Whether the reply body announces a successful refresh.
pub fn contains_status_ok(html: &str) -> (r: bool)
    ensures
        r == contains_seq(html@, ok_marker()),
{
    let hay = chars_vec(html);
    let needle = chars_vec("status\":\"ok");
    seq_contains(&hay, &needle)
}

/// Outcome of a reply that arrived with status "OK": success if the body
/// carries the success marker, otherwise the identifier is unknown to the
/// service; a body that could not be read (`None`) counts as an unknown
/// failure.
pub fn handle_ok_http_response(kp_id: &String, body: Option<&str>) -> (r: KpResponse)
    ensures
        body is None ==> r == KpResponse::Failure(FailureReason::Unknown),
        (body matches Some(h) && contains_seq(h@, ok_marker())) ==> r is Success,
        (body matches Some(h) && !contains_seq(h@, ok_marker())) ==> (r matches
            KpResponse::InvalidId(id) && id@ == kp_id@),
{
    match body {
        Some(h) => {
            if contains_status_ok(h) {
                KpResponse::Success
            } else {
                KpResponse::InvalidId(kp_id.clone())
            }
        },
        None => KpResponse::Failure(FailureReason::Unknown),
    }
}

/// Reaction to a "not modified" reply: for the primary identifier
/// (`fetch_cooldown`) the exact cooldown is worth one more read, signalled
/// by `None`; for linked identifiers the default cooldown is assumed at
/// once to bound remote calls per cycle.
pub fn handle_not_modified_http_response(fetch_cooldown: bool) -> (r: Option<KpResponse>)
    ensures
        fetch_cooldown ==> r is None,
        !fetch_cooldown ==> r == Some(spec_default_cooldown_response()),
{
    if fetch_cooldown {
        None
    } else {
        Some(default_cooldown_response())
    }
}

/// What to do next after a refresh request came back.
#[derive(Debug, Clone)]
pub enum RefreshStep {
    /// The outcome is settled.
    Done(KpResponse),
    /// The service reported "not modified"; the remaining cooldown should
    /// be read from the status page before settling the outcome.
    FetchCooldown,
}

/// Decodes the transport result of a refresh request.  `status` is `None`
/// when the request itself failed (timeout, connection or protocol error);
/// `body` is the reply text of an "OK" reply, `None` if it could not be
/// read.
pub fn refresh_kp_request_step(
    kp_id: &String,
    fetch_cooldown: bool,
    status: Option<u16>,
    body: Option<&str>,
) -> (r: RefreshStep)
    ensures
        status is None ==> r == RefreshStep::Done(KpResponse::Failure(FailureReason::Unknown)),
        status == Some(200u16) ==> match body {
            None => r == RefreshStep::Done(KpResponse::Failure(FailureReason::Unknown)),
            Some(h) => if contains_seq(h@, ok_marker()) {
                r == RefreshStep::Done(KpResponse::Success)
            } else {
                r matches RefreshStep::Done(KpResponse::InvalidId(id)) && id@ == kp_id@
            },
        },
        status == Some(403u16) ==> r == RefreshStep::Done(
            KpResponse::Failure(FailureReason::NotAccessible),
        ),
        status == Some(404u16) ==> r == RefreshStep::Done(
            KpResponse::Failure(FailureReason::NotFound),
        ),
        status == Some(304u16) && fetch_cooldown ==> r is FetchCooldown,
        status == Some(304u16) && !fetch_cooldown ==> r == RefreshStep::Done(
            spec_default_cooldown_response(),
        ),
        (status matches Some(c) && c != 200u16 && c != 403u16 && c != 404u16 && c != 304u16) ==> r
            == RefreshStep::Done(KpResponse::Failure(FailureReason::Unknown)),
{
    match status {
        None => RefreshStep::Done(KpResponse::Failure(FailureReason::Unknown)),
        Some(code) => {
            if code == 200 {
                RefreshStep::Done(handle_ok_http_response(kp_id, body))
            } else if code == 403 {
                RefreshStep::Done(KpResponse::Failure(FailureReason::NotAccessible))
            } else if code == 404 {
                RefreshStep::Done(KpResponse::Failure(FailureReason::NotFound))
            } else if code == 304 {
                match handle_not_modified_http_response(fetch_cooldown) {
                    Some(resp) => RefreshStep::Done(resp),
                    None => RefreshStep::FetchCooldown,
                }
            } else {
                RefreshStep::Done(KpResponse::Failure(FailureReason::Unknown))
            }
        },
    }
}

} // verus!
