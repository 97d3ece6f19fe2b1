//! One evaluation tick of the daemon loop: resume an owed refresh after
//! startup, detect entry into a designated map, and fire a due schedule.
//!
//! The transitions are given first as pure functions over the small
//! scheduler state (the pending schedule, the map-history bit, and the
//! persisted resume flag); the executable steps are proved to follow them
//! exactly.  The loop around these steps — sleeping, reaping finished
//! tasks, persisting — is plain plumbing left to the caller.

use crate::addon::Addon;
use crate::config::Config;
use crate::context::Context;
use crate::schedule::ScheduledRefresh;
use vstd::prelude::*;

verus! {

/// The part of the engine state that the scheduler steps read and write.
#[derive(Debug, Clone, Copy, PartialEq, Eq, Structural)]
pub struct SchedState {
    /// The pending refresh, if any.
    pub scheduled: Option<ScheduledRefresh>,
    /// Whether the previous tick saw a designated map.
    pub on_kp_map: bool,
    /// The persisted resume flag.
    pub refresh_on_next_load: bool,
}

/// The scheduler-relevant projection of the engine state.
pub open spec fn sched_state(a: Addon) -> SchedState {
    SchedState {
        scheduled: a.context.scheduled_refresh,
        on_kp_map: a.context.on_kp_map,
        refresh_on_next_load: a.config.refresh_on_next_load,
    }
}

/// What one evaluation tick asked for.
#[derive(Debug, Clone, Copy, PartialEq, Eq, Structural)]
pub struct TickDecision {
    /// Start a coordinated refresh because one was owed from the last
    /// session.
    pub start_refresh_on_load: bool,
    /// A designated map was entered this tick.
    pub zone_entered: bool,
    /// Start a coordinated refresh because a schedule fired.
    pub start_refresh_on_schedule: bool,
}

/// No action.
pub open spec fn tick_no_action() -> TickDecision {
    TickDecision {
        start_refresh_on_load: false,
        zone_entered: false,
        start_refresh_on_schedule: false,
    }
}

/// Whether the current map postpones a pending map-triggered refresh.
pub open spec fn spec_retaining(retain: Seq<u32>, map: Option<u32>) -> bool {
    match map {
        Some(m) => retain.contains(m),
        None => false,
    }
}

/// Resume-on-load step: when a refresh was owed from the last session and a
/// real map id is known, either fire it at once, or — on a designated or
/// retain map, with map-enter scheduling enabled — convert it into a
/// map-enter schedule; the owed flag is cleared either way.
pub open spec fn spec_load_step(
    s: SchedState,
    designated: Seq<u32>,
    retain: Seq<u32>,
    enter_enabled: bool,
    map: Option<u32>,
) -> (SchedState, bool) {
    match map {
        Some(m) => {
            if s.refresh_on_next_load && m != 0 {
                if (designated.contains(m) || retain.contains(m)) && enter_enabled {
                    (
                        SchedState {
                            scheduled: Some(ScheduledRefresh::OnNormalMapEnter),
                            refresh_on_next_load: false,
                            ..s
                        },
                        false,
                    )
                } else {
                    (SchedState { refresh_on_next_load: false, ..s }, true)
                }
            } else {
                (s, false)
            }
        },
        None => (s, false),
    }
}

/// Map-enter step: the map-history bit follows the designated-map test, and
/// only a false-to-true edge schedules a refresh; an unknown map counts as
/// "not designated".  Disabled scheduling leaves everything untouched.
pub open spec fn spec_enter_step(
    s: SchedState,
    designated: Seq<u32>,
    enter_enabled: bool,
    map: Option<u32>,
) -> (SchedState, bool) {
    if !enter_enabled {
        (s, false)
    } else {
        match map {
            Some(m) => {
                let now_on = designated.contains(m);
                let entered = !s.on_kp_map && now_on;
                (
                    SchedState {
                        on_kp_map: now_on,
                        scheduled: if entered {
                            Some(ScheduledRefresh::OnNormalMapEnter)
                        } else {
                            s.scheduled
                        },
                        ..s
                    },
                    entered,
                )
            },
            None => (SchedState { on_kp_map: false, ..s }, false),
        }
    }
}

/// Schedule-evaluation step: a timed schedule fires once the clock reaches
/// its instant; a map-enter schedule fires once the player is neither on a
/// designated map nor on a retain map.  Firing consumes the schedule.
pub open spec fn spec_schedule_step(
    s: SchedState,
    retain: Seq<u32>,
    now: u64,
    map: Option<u32>,
) -> (SchedState, bool) {
    let timed_due = match s.scheduled {
        Some(ScheduledRefresh::OnTime(t)) => t <= now,
        _ => false,
    };
    if timed_due {
        (SchedState { scheduled: None, ..s }, true)
    } else if s.scheduled == Some(ScheduledRefresh::OnNormalMapEnter) && !s.on_kp_map
        && !spec_retaining(retain, map) {
        (SchedState { scheduled: None, ..s }, true)
    } else {
        (s, false)
    }
}

/// One evaluation tick: resume-on-load, then map-enter detection, then
/// schedule evaluation, in that order.
pub open spec fn spec_tick_steps(
    s: SchedState,
    designated: Seq<u32>,
    retain: Seq<u32>,
    enter_enabled: bool,
    now: u64,
    map: Option<u32>,
) -> (SchedState, TickDecision) {
    let (s1, load) = spec_load_step(s, designated, retain, enter_enabled, map);
    let (s2, entered) = spec_enter_step(s1, designated, enter_enabled, map);
    let (s3, fire) = spec_schedule_step(s2, retain, now, map);
    (
        s3,
        TickDecision {
            start_refresh_on_load: load,
            zone_entered: entered,
            start_refresh_on_schedule: fire,
        },
    )
}

/// A timed schedule takes no action and keeps the state unchanged on every
/// evaluation before its instant; evaluated at or after the instant it
/// fires one refresh and is consumed.
pub proof fn lemma_timed_schedule_fires_at_instant(
    s: SchedState,
    retain: Seq<u32>,
    now: u64,
    map: Option<u32>,
    t: u64,
)
    requires
        s.scheduled == Some(ScheduledRefresh::OnTime(t)),
    ensures
        now < t ==> spec_schedule_step(s, retain, now, map) == (s, false),
        t <= now ==> spec_schedule_step(s, retain, now, map) == (
            SchedState { scheduled: None, ..s },
            true,
        ),
{
}

/// One full evaluation tick, as run by the daemon loop between sleeps.
///
/// With identifier autodetection on, the primary identifier first follows
/// the detected account name; while no name has been detected yet the whole
/// tick is skipped, so that no refresh runs against a stale or empty
/// identifier.  A detected name that differs from the one last seen resets
/// all identifier-dependent state before the scheduler steps run.
pub fn background_tick(addon: &mut Addon, now: u64, current_map_id: Option<u32>) -> (r:
    TickDecision)
    ensures
        old(addon).config.autodetect_account_name && old(
            addon,
        ).context.detected_account_name@.len() == 0 ==> *final (addon) == *old(addon) && r
            == tick_no_action(),
        !old(addon).config.autodetect_account_name ==> ({
            let (s, d) = spec_tick_steps(
                sched_state(*old(addon)),
                old(addon).config.kp_map_ids@,
                old(addon).config.retain_refresh_map_ids@,
                old(addon).config.scheduling_on_map_enter_enabled,
                now,
                current_map_id,
            );
            &&& final (addon).config == (Config {
                refresh_on_next_load: s.refresh_on_next_load,
                ..old(addon).config
            })
            &&& final (addon).context == (Context {
                scheduled_refresh: s.scheduled,
                on_kp_map: s.on_kp_map,
                ..old(addon).context
            })
            &&& r == d
        }),
        (old(addon).config.autodetect_account_name && old(
            addon,
        ).context.detected_account_name@.len() != 0 && old(
            addon,
        ).context.detected_account_name@ == old(addon).context.ui.previous_main_id@) ==> ({
            let (s, d) = spec_tick_steps(
                sched_state(*old(addon)),
                old(addon).config.kp_map_ids@,
                old(addon).config.retain_refresh_map_ids@,
                old(addon).config.scheduling_on_map_enter_enabled,
                now,
                current_map_id,
            );
            &&& final (addon).config == (Config {
                kp_identifiers: (crate::config::KillproofIdentifiers {
                    main_id: old(addon).context.detected_account_name,
                    ..old(addon).config.kp_identifiers
                }),
                refresh_on_next_load: s.refresh_on_next_load,
                ..old(addon).config
            })
            &&& final (addon).context == (Context {
                scheduled_refresh: s.scheduled,
                on_kp_map: s.on_kp_map,
                ..old(addon).context
            })
            &&& r == d
        }),
        (old(addon).config.autodetect_account_name && old(
            addon,
        ).context.detected_account_name@.len() != 0 && old(
            addon,
        ).context.detected_account_name@ != old(addon).context.ui.previous_main_id@) ==> ({
            let s0 = SchedState {
                scheduled: None,
                on_kp_map: old(addon).context.on_kp_map,
                refresh_on_next_load: old(addon).config.refresh_on_next_load,
            };
            let (s, d) = spec_tick_steps(
                s0,
                old(addon).config.kp_map_ids@,
                old(addon).config.retain_refresh_map_ids@,
                old(addon).config.scheduling_on_map_enter_enabled,
                now,
                current_map_id,
            );
            &&& final (addon).config.kp_identifiers.main_id == old(
                addon,
            ).context.detected_account_name
            &&& final (addon).config.kp_identifiers.linked_ids is None
            &&& final (addon).config.last_refresh_date is None
            &&& final (addon).config.refresh_on_next_load == s.refresh_on_next_load
            &&& final (addon).config.version == old(addon).config.version
            &&& final (addon).config.kp_map_ids == old(addon).config.kp_map_ids
            &&& final (addon).config.retain_refresh_map_ids == old(
                addon,
            ).config.retain_refresh_map_ids
            &&& final (addon).config.notifications == old(addon).config.notifications
            &&& final (addon).config.scheduling_on_map_enter_enabled == old(
                addon,
            ).config.scheduling_on_map_enter_enabled
            &&& final (addon).config.autodetect_account_name == true
            &&& final (addon).context.scheduled_refresh == s.scheduled
            &&& final (addon).context.on_kp_map == s.on_kp_map
            &&& final (addon).context.linked_kp_responses@ == Seq::<(
                String,
                crate::response::KpResponse,
            )>::empty()
            &&& final (addon).context.ui.errors.linked_ids == false
            &&& final (addon).context.ui.previous_main_id == old(
                addon,
            ).context.detected_account_name
            &&& final (addon).context.main_kp_response == old(addon).context.main_kp_response
            &&& final (addon).context.run_background_thread == old(
                addon,
            ).context.run_background_thread
            &&& final (addon).context.refresh_in_progress == old(
                addon,
            ).context.refresh_in_progress
            &&& final (addon).context.detected_account_name == old(
                addon,
            ).context.detected_account_name
            &&& r == d
        }),
{
    if addon.config.autodetect_account_name {
        if addon.context.detected_account_name.as_str().is_empty() {
            return TickDecision {
                start_refresh_on_load: false,
                zone_entered: false,
                start_refresh_on_schedule: false,
            };
        }
        let name = addon.context.detected_account_name.clone();
        addon.update_main_id(name);
    }
    let start_refresh_on_load = refresh_on_load(addon, current_map_id);
    let zone_entered = schedule_on_map_enter(addon, current_map_id);
    let start_refresh_on_schedule = refresh_on_schedule(addon, now, current_map_id);
    TickDecision { start_refresh_on_load, zone_entered, start_refresh_on_schedule }
}

/// Executes the resume-on-load step on the engine state.
pub fn refresh_on_load(addon: &mut Addon, current_map_id: Option<u32>) -> (r: bool)
    ensures
        ({
            let (s, fire) = spec_load_step(
                sched_state(*old(addon)),
                old(addon).config.kp_map_ids@,
                old(addon).config.retain_refresh_map_ids@,
                old(addon).config.scheduling_on_map_enter_enabled,
                current_map_id,
            );
            &&& final (addon).config == (Config {
                refresh_on_next_load: s.refresh_on_next_load,
                ..old(addon).config
            })
            &&& final (addon).context == (Context {
                scheduled_refresh: s.scheduled,
                ..old(addon).context
            })
            &&& r == fire
        }),
{
    if let Some(m) = current_map_id {
        if addon.config.refresh_on_next_load && m != 0 {
            let mut fire = false;
            if (crate::config::contains_u32(&addon.config.kp_map_ids, m)
                || crate::config::contains_u32(&addon.config.retain_refresh_map_ids, m))
                && addon.config.scheduling_on_map_enter_enabled {
                addon.context.scheduled_refresh = Some(ScheduledRefresh::OnNormalMapEnter);
            } else {
                fire = true;
            }
            addon.config.refresh_on_next_load = false;
            return fire;
        }
    }
    false
}

/// Executes the map-enter detection step on the engine state, returning
/// whether a designated map was entered this tick.
pub fn schedule_on_map_enter(addon: &mut Addon, current_map_id: Option<u32>) -> (r: bool)
    ensures
        ({
            let (s, entered) = spec_enter_step(
                sched_state(*old(addon)),
                old(addon).config.kp_map_ids@,
                old(addon).config.scheduling_on_map_enter_enabled,
                current_map_id,
            );
            &&& final (addon).config == old(addon).config
            &&& final (addon).context == (Context {
                scheduled_refresh: s.scheduled,
                on_kp_map: s.on_kp_map,
                ..old(addon).context
            })
            &&& r == entered
        }),
{
    if !addon.config.scheduling_on_map_enter_enabled {
        return false;
    }
    match current_map_id {
        Some(m) => {
            let previous_map_on_kp = addon.context.on_kp_map;
            addon.context.on_kp_map = crate::config::contains_u32(&addon.config.kp_map_ids, m);
            if !previous_map_on_kp && addon.context.on_kp_map {
                addon.context.scheduled_refresh = Some(ScheduledRefresh::OnNormalMapEnter);
                true
            } else {
                false
            }
        },
        None => {
            addon.context.on_kp_map = false;
            false
        },
    }
}

/// Executes the schedule-evaluation step on the engine state, returning
/// whether a coordinated refresh should start now.
pub fn refresh_on_schedule(addon: &mut Addon, now: u64, current_map_id: Option<u32>) -> (r: bool)
    ensures
        ({
            let (s, fire) = spec_schedule_step(
                sched_state(*old(addon)),
                old(addon).config.retain_refresh_map_ids@,
                now,
                current_map_id,
            );
            &&& final (addon).config == old(addon).config
            &&& final (addon).context == (Context {
                scheduled_refresh: s.scheduled,
                ..old(addon).context
            })
            &&& r == fire
        }),
{
    let timed_due = match &addon.context.scheduled_refresh {
        Some(ScheduledRefresh::OnTime(t)) => *t <= now,
        _ => false,
    };
    if timed_due {
        addon.context.scheduled_refresh = None;
        return true;
    }
    let retaining = match current_map_id {
        Some(m) => crate::config::contains_u32(&addon.config.retain_refresh_map_ids, m),
        None => false,
    };
    let map_enter_pending = match &addon.context.scheduled_refresh {
        Some(ScheduledRefresh::OnNormalMapEnter) => true,
        _ => false,
    };
    if map_enter_pending && !addon.context.on_kp_map && !retaining {
        addon.context.scheduled_refresh = None;
        return true;
    }
    false
}

} // verus!
