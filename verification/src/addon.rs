//! The engine's whole state: the persisted configuration plus the
//! session context, and the transitions tied to identifier changes,
//! startup and shutdown.

use crate::config::Config;
use crate::context::{Context, UiContext};
use crate::ids::valid_kp_id;
use crate::text::str_eq;
use vstd::prelude::*;

verus! {

/// Everything the engine reads and writes, passed explicitly to the daemon
/// loop and to the manual-trigger entry points behind one exclusive-access
/// boundary owned by the caller.
#[derive(Debug, Clone)]
pub struct Addon {
    pub config: Config,
    pub context: Context,
}

impl Default for Addon {
    /// A fresh engine: default configuration and session state.
    fn default() -> (r: Self)
        ensures
            r.config.kp_identifiers.main_id@ == Seq::<char>::empty(),
            r.config.kp_identifiers.linked_ids is None,
            r.config.last_refresh_date is None,
            r.config.refresh_on_next_load == false,
            r.context.main_kp_response is Unavailable,
            r.context.scheduled_refresh is None,
            r.context.refresh_in_progress == false,
            r.context.run_background_thread == true,
            r.context.on_kp_map == false,
    {
        Addon { config: Default::default(), context: Default::default() }
    }
}

/// Remembers the identifier that the session started with, so that a later
/// edit can be detected.
pub fn init_context(addon: &mut Addon)
    ensures
        final (addon).config == old(addon).config,
        final (addon).context == (Context {
            ui: (UiContext {
                previous_main_id: old(addon).config.kp_identifiers.main_id,
                ..old(addon).context.ui
            }),
            ..old(addon).context
        }),
{
    addon.context.ui.previous_main_id = addon.config.kp_identifiers.main_id.clone();
}

impl Addon {
    /// Whether the primary identifier differs from the one last seen by the
    /// change check.
    pub fn kp_id_changed(&self) -> (r: bool)
        ensures
            r == (self.config.kp_identifiers.main_id@ != self.context.ui.previous_main_id@),
    {
        !str_eq(
            self.config.kp_identifiers.main_id.as_str(),
            self.context.ui.previous_main_id.as_str(),
        )
    }

    /// Resets everything that depended on the old primary identifier:
    /// linked identifiers and their outcomes, the last-success timestamp,
    /// any pending schedule, and the discovery error flag.
    pub fn on_kp_id_change(&mut self)
        ensures
            final (self).config == (Config {
                kp_identifiers: (crate::config::KillproofIdentifiers {
                    linked_ids: None,
                    ..old(self).config.kp_identifiers
                }),
                last_refresh_date: None,
                ..old(self).config
            }),
            final (self).context.scheduled_refresh is None,
            final (self).context.linked_kp_responses@ == Seq::<(
                String,
                crate::response::KpResponse,
            )>::empty(),
            final (self).context.ui.errors.linked_ids == false,
            final (self).context.ui.previous_main_id == old(self).context.ui.previous_main_id,
            final (self).context.main_kp_response == old(self).context.main_kp_response,
            final (self).context.on_kp_map == old(self).context.on_kp_map,
            final (self).context.run_background_thread == old(self).context.run_background_thread,
            final (self).context.refresh_in_progress == old(self).context.refresh_in_progress,
            final (self).context.detected_account_name == old(self).context.detected_account_name,
    {
        self.config.kp_identifiers.linked_ids = None;
        self.config.last_refresh_date = None;
        self.context.ui.errors.linked_ids = false;
        self.context.scheduled_refresh = None;
        self.context.linked_kp_responses = Vec::new();
    }

    /// Installs a new primary identifier.  If it differs from the last one
    /// seen, all dependent state is reset and the change check is brought
    /// up to date; an unchanged identifier leaves everything as it was.
    pub fn update_main_id(&mut self, new_id: String)
        ensures
            new_id@ == old(self).context.ui.previous_main_id@ ==> *final (self) == (Addon {
                config: (Config {
                    kp_identifiers: (crate::config::KillproofIdentifiers {
                        main_id: new_id,
                        ..old(self).config.kp_identifiers
                    }),
                    ..old(self).config
                }),
                context: old(self).context,
            }),
            new_id@ != old(self).context.ui.previous_main_id@ ==> {
                &&& final (self).config == (Config {
                    kp_identifiers: (crate::config::KillproofIdentifiers {
                        main_id: new_id,
                        linked_ids: None,
                        ..old(self).config.kp_identifiers
                    }),
                    last_refresh_date: None,
                    ..old(self).config
                })
                &&& final (self).context.scheduled_refresh is None
                &&& final (self).context.linked_kp_responses@ =~= Seq::<(
                    String,
                    crate::response::KpResponse,
                )>::empty()
                &&& final (self).context.ui.errors.linked_ids == false
                &&& final (self).context.ui.previous_main_id == new_id
                &&& final (self).context.main_kp_response == old(self).context.main_kp_response
                &&& final (self).context.on_kp_map == old(self).context.on_kp_map
                &&& final (self).context.run_background_thread == old(
                    self,
                ).context.run_background_thread
                &&& final (self).context.refresh_in_progress == old(
                    self,
                ).context.refresh_in_progress
                &&& final (self).context.detected_account_name == old(
                    self,
                ).context.detected_account_name
            },
    {
        let changed = !str_eq(new_id.as_str(), self.context.ui.previous_main_id.as_str());
        self.config.kp_identifiers.main_id = new_id;
        if changed {
            self.on_kp_id_change();
            self.context.ui.previous_main_id = self.config.kp_identifiers.main_id.clone();
        }
    }

    /// Whether no refresh may start: the primary identifier is malformed,
    /// or a coordinated refresh is already in flight.
    pub fn cant_start_refresh(&self) -> (r: bool)
        ensures
            r == (!valid_kp_id(self.config.kp_identifiers.main_id@)
                || self.context.refresh_in_progress),
    {
        if !self.config.valid() {
            return true;
        }
        if self.context.refresh_in_progress {
            return true;
        }
        false
    }

    /// The status line shown for the primary identifier: progress while a
    /// cycle runs, the last outcome while the identifier is well-formed,
    /// and a fixed validation message otherwise.
    pub fn current_status_text(&self) -> (r: String)
        ensures
            r@ == if self.context.refresh_in_progress {
                "refresh is in progress.."@
            } else if valid_kp_id(self.config.kp_identifiers.main_id@) {
                self.context.main_kp_response.text_chars()
            } else {
                "invalid config (KP id format invalid)"@
            },
    {
        if self.context.refresh_in_progress {
            String::from_str("refresh is in progress..")
        } else if self.config.valid() {
            self.context.main_kp_response.status_text()
        } else {
            String::from_str("invalid config (KP id format invalid)")
        }
    }

    /// Sets the persisted resume flag if a refresh is still scheduled, as
    /// done right before each periodic save of the configuration.
    pub fn mark_resume_flag(&mut self)
        ensures
            final (self).context == old(self).context,
            final (self).config == (Config {
                refresh_on_next_load: old(self).config.refresh_on_next_load || old(
                    self,
                ).context.scheduled_refresh is Some,
                ..old(self).config
            }),
    {
        if self.context.scheduled_refresh.is_some() {
            self.config.refresh_on_next_load = true;
        }
    }

    /// Marks the state for shutdown: asks the daemon loop to stop, and — if
    /// a refresh was still scheduled — sets the persisted resume flag so the
    /// owed refresh is re-evaluated on the next startup.
    pub fn prepare_shutdown(&mut self)
        ensures
            final (self).context == (Context { run_background_thread: false, ..old(self).context }),
            final (self).config == (Config {
                refresh_on_next_load: old(self).config.refresh_on_next_load || old(
                    self,
                ).context.scheduled_refresh is Some,
                ..old(self).config
            }),
    {
        self.context.run_background_thread = false;
        if self.context.scheduled_refresh.is_some() {
            self.config.refresh_on_next_load = true;
        }
    }
}

} // verus!
