//! Transitions around linked-identifier discovery.
//!
//! Discovery itself is a remote read performed by the transport
//! collaborator; what the result does to the engine state is decided here.

use crate::addon::Addon;
use crate::config::{Config, KillproofIdentifiers};
use crate::context::{Context, Errors, UiContext};
use vstd::prelude::*;

verus! {

/// Opens linked-identifier discovery: clears the discovery error and
/// installs an empty list as a "loading" placeholder, to be replaced by
/// `apply_linked_ids_result` once the remote read finishes.
pub fn begin_linked_discovery(addon: &mut Addon)
    ensures
        final (addon).config.kp_identifiers.linked_ids matches Some(l) && l@ =~= Seq::<
            String,
        >::empty(),
        final (addon).config.kp_identifiers.main_id == old(addon).config.kp_identifiers.main_id,
        final (addon).config == (Config {
            kp_identifiers: (KillproofIdentifiers {
                linked_ids: final (addon).config.kp_identifiers.linked_ids,
                ..old(addon).config.kp_identifiers
            }),
            ..old(addon).config
        }),
        final (addon).context == (Context {
            ui: (UiContext {
                errors: (Errors { linked_ids: false }),
                ..old(addon).context.ui
            }),
            ..old(addon).context
        }),
{
    addon.context.ui.errors.linked_ids = false;
    addon.config.kp_identifiers.linked_ids = Some(Vec::new());
}

/// Closes linked-identifier discovery with the list the remote profile
/// showed: an empty list counts as a failed discovery — the linked
/// identifiers become absent and the error is surfaced — while a nonempty
/// list is installed as-is.
pub fn apply_linked_ids_result(addon: &mut Addon, ids: Vec<String>)
    ensures
        ids@.len() == 0 ==> {
            &&& final (addon).config == (Config {
                kp_identifiers: (KillproofIdentifiers {
                    linked_ids: None,
                    ..old(addon).config.kp_identifiers
                }),
                ..old(addon).config
            })
            &&& final (addon).context == (Context {
                ui: (UiContext {
                    errors: (Errors { linked_ids: true }),
                    ..old(addon).context.ui
                }),
                ..old(addon).context
            })
        },
        ids@.len() > 0 ==> {
            &&& final (addon).config == (Config {
                kp_identifiers: (KillproofIdentifiers {
                    linked_ids: Some(ids),
                    ..old(addon).config.kp_identifiers
                }),
                ..old(addon).config
            })
            &&& final (addon).context == old(addon).context
        },
{
    if ids.len() == 0 {
        addon.config.kp_identifiers.linked_ids = None;
        addon.context.ui.errors.linked_ids = true;
    } else {
        addon.config.kp_identifiers.linked_ids = Some(ids);
    }
}

/// Turns linked-identifier refreshing off: the list and the per-identifier
/// outcomes are discarded.
pub fn disable_linked_ids(addon: &mut Addon)
    ensures
        final (addon).config == (Config {
            kp_identifiers: (KillproofIdentifiers {
                linked_ids: None,
                ..old(addon).config.kp_identifiers
            }),
            ..old(addon).config
        }),
        final (addon).context.linked_kp_responses@ == Seq::<(
            String,
            crate::response::KpResponse,
        )>::empty(),
        final (addon).context == (Context {
            linked_kp_responses: final (addon).context.linked_kp_responses,
            ..old(addon).context
        }),
{
    addon.config.kp_identifiers.linked_ids = None;
    addon.context.linked_kp_responses = Vec::new();
}

} // verus!
