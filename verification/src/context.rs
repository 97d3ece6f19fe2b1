//! Process-lifetime state of the engine: the latest outcomes, the pending
//! schedule, the progress and stop flags, and the user-interface scratch
//! state.  None of this is persisted.

use crate::response::KpResponse;
use crate::schedule::ScheduledRefresh;
use crate::text::str_eq;
use vstd::prelude::*;

verus! {

/// Error indicators surfaced to the user interface.
#[derive(Debug, Clone)]
pub struct Errors {
    /// Linked-identifier discovery came back empty.
    pub linked_ids: bool,
}

impl Errors {
    /// No errors.
    pub fn default() -> (r: Self)
        ensures
            r.linked_ids == false,
    {
        Self { linked_ids: false }
    }
}

/// Scratch state owned by the user-interface layer.
#[derive(Debug, Clone)]
pub struct UiContext {
    /// The primary identifier as of the last change check, used to detect
    /// an edit.
    pub previous_main_id: String,
    /// Error indicators.
    pub errors: Errors,
}

impl UiContext {
    /// Fresh user-interface state.
    pub fn default() -> (r: Self)
        ensures
            r.previous_main_id@ == Seq::<char>::empty(),
            r.errors.linked_ids == false,
    {
        Self { previous_main_id: String::new(), errors: Errors::default() }
    }
}

/// In-memory engine state for one session.
#[derive(Debug, Clone)]
pub struct Context {
    /// Outcome of the last refresh of the primary identifier.
    pub main_kp_response: KpResponse,
    /// Outcome of the last refresh of each linked identifier, in list
    /// order; rebuilt wholesale on every coordinated refresh.
    pub linked_kp_responses: Vec<(String, KpResponse)>,
    /// The pending refresh, if any.
    pub scheduled_refresh: Option<ScheduledRefresh>,
    /// Whether the previous tick saw the player on a designated map.
    pub on_kp_map: bool,
    /// Cleared to ask the daemon loop to stop.
    pub run_background_thread: bool,
    /// True exactly while a coordinated refresh is executing.
    pub refresh_in_progress: bool,
    /// User-interface scratch state.
    pub ui: UiContext,
    /// Account name reported by the location source; empty until detected.
    pub detected_account_name: String,
}

impl Default for Context {
    /// Fresh session state: nothing refreshed, nothing scheduled, daemon
    /// loop allowed to run.
    fn default() -> (r: Self)
        ensures
            r.main_kp_response is Unavailable,
            r.linked_kp_responses@ == Seq::<(String, KpResponse)>::empty(),
            r.scheduled_refresh is None,
            r.on_kp_map == false,
            r.run_background_thread == true,
            r.refresh_in_progress == false,
            r.ui.previous_main_id@ == Seq::<char>::empty(),
            r.ui.errors.linked_ids == false,
            r.detected_account_name@ == Seq::<char>::empty(),
    {
        Context {
            main_kp_response: KpResponse::Unavailable,
            linked_kp_responses: Vec::new(),
            scheduled_refresh: None,
            on_kp_map: false,
            run_background_thread: true,
            refresh_in_progress: false,
            ui: UiContext::default(),
            detected_account_name: String::new(),
        }
    }
}

impl Context {
    /// Whether the last outcome leaves `main_kp_id` usable: every outcome
    /// does, except an "identifier not recognized" answer for this very
    /// identifier.
    pub fn valid(&self, main_kp_id: &str) -> (r: bool)
        ensures
            r == match self.main_kp_response {
                KpResponse::InvalidId(invalid_id) => invalid_id@ != main_kp_id@,
                _ => true,
            },
    {
        match &self.main_kp_response {
            KpResponse::InvalidId(invalid_id) => !str_eq(invalid_id.as_str(), main_kp_id),
            _ => true,
        }
    }
}

} // verus!
