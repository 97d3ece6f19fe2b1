//! The refresh coordinator: the state transitions of one coordinated
//! refresh cycle (primary identifier first, then every linked identifier in
//! list order), and the notification decisions split off from them.
//!
//! The remote round trips themselves are made by the transport collaborator
//! between these calls; each transition here is a pure function of the
//! engine state and the decoded outcome.

use crate::addon::Addon;
use crate::config::Config;
use crate::context::Context;
use crate::ids::valid_kp_id;
use crate::response::{FailureReason, KpResponse};
use crate::schedule::{countdown_chars, countdown_str, ScheduledRefresh};
use vstd::prelude::*;

verus! {

/// A user-visible notice owed after a transition; dispatch is a side effect
/// left to the notification sink collaborator.
#[derive(Debug, Clone, Copy, PartialEq, Eq, Structural)]
pub enum RefreshNotification {
    /// The record was refreshed.
    Success,
    /// The refresh hit a cooldown; retry after the given seconds.
    Retry(u64),
    /// The refresh failed for an unknown reason.
    UnknownFailure,
    /// The primary identifier is not recognized by the service.
    InvalidConfig,
}

/// `a + b`, stopping at the largest representable value.
pub open spec fn sat_add_u64(a: u64, b: u64) -> u64 {
    if a + b > u64::MAX {
        u64::MAX
    } else {
        (a + b) as u64
    }
}

/// The wording of a notification.
pub open spec fn notification_chars(n: RefreshNotification) -> Seq<char> {
    match n {
        RefreshNotification::Success => "Killproof refreshed successfully"@,
        RefreshNotification::Retry(secs) => "Killproof could not be refreshed, retrying in "@
            + countdown_chars(secs as i64 as int),
        RefreshNotification::UnknownFailure => "Killproof could not be refreshed due to unknown error"@,
        RefreshNotification::InvalidConfig => "Killproof could not be refreshed due to invalid configuration"@,
    }
}

/// Renders a notification for the notification sink.
pub fn notification_text(n: &RefreshNotification) -> (r: String)
    ensures
        r@ == notification_chars(*n),
{
    match n {
        RefreshNotification::Success => String::from_str("Killproof refreshed successfully"),
        RefreshNotification::Retry(secs) => {
            let mut s = String::from_str("Killproof could not be refreshed, retrying in ");
            let c = countdown_str(*secs as i64);
            s.append(c.as_str());
            s
        },
        RefreshNotification::UnknownFailure => String::from_str(
            "Killproof could not be refreshed due to unknown error",
        ),
        RefreshNotification::InvalidConfig => String::from_str(
            "Killproof could not be refreshed due to invalid configuration",
        ),
    }
}

/// Tries to open a coordinated refresh cycle.  When the primary identifier
/// is malformed or a cycle is already in flight, nothing changes and no
/// remote call is owed; otherwise the progress flag is raised, the previous
/// linked outcomes are discarded wholesale, and the identifier to refresh
/// is handed back.
pub fn coordinate_refresh_begin(addon: &mut Addon) -> (r: Option<String>)
    ensures
        (!valid_kp_id(old(addon).config.kp_identifiers.main_id@) || old(
            addon,
        ).context.refresh_in_progress) ==> {
            &&& *final (addon) == *old(addon)
            &&& r is None
        },
        (valid_kp_id(old(addon).config.kp_identifiers.main_id@) && !old(
            addon,
        ).context.refresh_in_progress) ==> {
            &&& r matches Some(id) && id@ == old(addon).config.kp_identifiers.main_id@
            &&& final (addon).config == old(addon).config
            &&& final (addon).context.refresh_in_progress == true
            &&& final (addon).context.linked_kp_responses@ == Seq::<(
                String,
                KpResponse,
            )>::empty()
            &&& final (addon).context.main_kp_response == old(addon).context.main_kp_response
            &&& final (addon).context.scheduled_refresh == old(addon).context.scheduled_refresh
            &&& final (addon).context.on_kp_map == old(addon).context.on_kp_map
            &&& final (addon).context.run_background_thread == old(
                addon,
            ).context.run_background_thread
            &&& final (addon).context.ui == old(addon).context.ui
            &&& final (addon).context.detected_account_name == old(
                addon,
            ).context.detected_account_name
        },
{
    if addon.cant_start_refresh() {
        return None;
    }
    addon.context.refresh_in_progress = true;
    addon.context.linked_kp_responses = Vec::new();
    Some(addon.config.kp_identifiers.main_id.clone())
}

/// Transition on a successful primary refresh: clear any pending schedule
/// and record the success time.
pub fn handle_success_kp_response(addon: &mut Addon, now: u64) -> (r: Option<RefreshNotification>)
    ensures
        final (addon).config == (Config { last_refresh_date: Some(now), ..old(addon).config }),
        final (addon).context == (Context { scheduled_refresh: None, ..old(addon).context }),
        r == if old(addon).config.notifications.notify_success {
            Some(RefreshNotification::Success)
        } else {
            Option::<RefreshNotification>::None
        },
{
    addon.config.last_refresh_date = Some(now);
    addon.context.scheduled_refresh = None;
    if addon.config.notifications.notify_success {
        Some(RefreshNotification::Success)
    } else {
        None
    }
}

/// Transition on an "identifier not recognized" answer: drop the pending
/// schedule and the linked identifiers, which are no longer trustworthy.
pub fn handle_invalid_id_kp_response(addon: &mut Addon) -> (r: Option<RefreshNotification>)
    ensures
        final (addon).config == (Config {
            kp_identifiers: (crate::config::KillproofIdentifiers {
                linked_ids: None,
                ..old(addon).config.kp_identifiers
            }),
            ..old(addon).config
        }),
        final (addon).context == (Context { scheduled_refresh: None, ..old(addon).context }),
        r == if old(addon).config.notifications.notify_failure {
            Some(RefreshNotification::InvalidConfig)
        } else {
            Option::<RefreshNotification>::None
        },
{
    addon.context.scheduled_refresh = None;
    addon.config.kp_identifiers.linked_ids = None;
    if addon.config.notifications.notify_failure {
        Some(RefreshNotification::InvalidConfig)
    } else {
        None
    }
}

/// Transition on a cooldown answer: schedule the retry for the announced
/// remaining duration from now.
pub fn handle_failure_cooldown_kp_response(addon: &mut Addon, duration: u64, now: u64) -> (r:
    Option<RefreshNotification>)
    ensures
        final (addon).config == old(addon).config,
        final (addon).context == (Context {
            scheduled_refresh: Some(ScheduledRefresh::OnTime(sat_add_u64(now, duration))),
            ..old(addon).context
        }),
        r == if old(addon).config.notifications.notify_retry {
            Some(RefreshNotification::Retry(duration))
        } else {
            Option::<RefreshNotification>::None
        },
{
    let at = match now.checked_add(duration) {
        Some(t) => t,
        None => u64::MAX,
    };
    addon.context.scheduled_refresh = Some(ScheduledRefresh::OnTime(at));
    if addon.config.notifications.notify_retry {
        Some(RefreshNotification::Retry(duration))
    } else {
        None
    }
}

/// Applies the transition table for the primary identifier's outcome and
/// stores the outcome, returning the notification owed, if any.
pub fn handle_main_kp_response(addon: &mut Addon, main_kp_response: KpResponse, now: u64) -> (r:
    Option<RefreshNotification>)
    ensures
        final (addon).context.main_kp_response == main_kp_response,
        main_kp_response is Success ==> {
            &&& final (addon).config == (Config {
                last_refresh_date: Some(now),
                ..old(addon).config
            })
            &&& final (addon).context == (Context {
                scheduled_refresh: None,
                main_kp_response: main_kp_response,
                ..old(addon).context
            })
            &&& r == if old(addon).config.notifications.notify_success {
                Some(RefreshNotification::Success)
            } else {
                Option::<RefreshNotification>::None
            }
        },
        main_kp_response matches KpResponse::Failure(FailureReason::RefreshCooldown(d)) ==> {
            &&& final (addon).config == old(addon).config
            &&& final (addon).context == (Context {
                scheduled_refresh: Some(ScheduledRefresh::OnTime(sat_add_u64(now, d))),
                main_kp_response: main_kp_response,
                ..old(addon).context
            })
            &&& r == if old(addon).config.notifications.notify_retry {
                Some(RefreshNotification::Retry(d))
            } else {
                Option::<RefreshNotification>::None
            }
        },
        main_kp_response is InvalidId ==> {
            &&& final (addon).config == (Config {
                kp_identifiers: (crate::config::KillproofIdentifiers {
                    linked_ids: None,
                    ..old(addon).config.kp_identifiers
                }),
                ..old(addon).config
            })
            &&& final (addon).context == (Context {
                scheduled_refresh: None,
                main_kp_response: main_kp_response,
                ..old(addon).context
            })
            &&& r == if old(addon).config.notifications.notify_failure {
                Some(RefreshNotification::InvalidConfig)
            } else {
                Option::<RefreshNotification>::None
            }
        },
        (main_kp_response is Unavailable || (main_kp_response matches KpResponse::Failure(reason)
            && !(reason is RefreshCooldown))) ==> {
            &&& final (addon).config == old(addon).config
            &&& final (addon).context == (Context {
                main_kp_response: main_kp_response,
                ..old(addon).context
            })
            &&& r == if old(addon).config.notifications.notify_failure {
                Some(RefreshNotification::UnknownFailure)
            } else {
                Option::<RefreshNotification>::None
            }
        },
{
    let notification = match &main_kp_response {
        KpResponse::Success => handle_success_kp_response(addon, now),
        KpResponse::Failure(FailureReason::RefreshCooldown(duration)) => {
            handle_failure_cooldown_kp_response(addon, *duration, now)
        },
        KpResponse::InvalidId(_) => handle_invalid_id_kp_response(addon),
        _ => {
            if addon.config.notifications.notify_failure {
                Some(RefreshNotification::UnknownFailure)
            } else {
                None
            }
        },
    };
    addon.context.main_kp_response = main_kp_response;
    notification
}

/// The notification owed for one linked identifier's outcome: only
/// failures are announced, and only when the preference asks for them.
pub fn linked_refresh_notification(config: &Config, linked_id: &String, response: &KpResponse)
    -> (r: Option<String>)
    ensures
        (r is Some) == (config.notifications.notify_failure_linked && response is Failure),
        r matches Some(m) ==> m@ == "Linked Killproof account "@ + linked_id@
            + " could not be refreshed"@,
{
    if config.notifications.notify_failure_linked && matches!(response, KpResponse::Failure(_)) {
        let mut s = String::from_str("Linked Killproof account ");
        s.append(linked_id.as_str());
        s.append(" could not be refreshed");
        proof {
            assert(s@ =~= "Linked Killproof account "@ + linked_id@
                + " could not be refreshed"@);
        }
        Some(s)
    } else {
        None
    }
}

/// Closes a coordinated refresh cycle: installs the collected linked
/// outcomes wholesale and clears the progress flag, after every schedule
/// transition has been applied.
pub fn coordinate_refresh_finish(addon: &mut Addon, responses: Vec<(String, KpResponse)>)
    ensures
        final (addon).config == old(addon).config,
        final (addon).context == (Context {
            linked_kp_responses: responses,
            refresh_in_progress: false,
            ..old(addon).context
        }),
{
    addon.context.linked_kp_responses = responses;
    addon.context.refresh_in_progress = false;
}

} // verus!
