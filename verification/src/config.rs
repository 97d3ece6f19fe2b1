//! The persisted configuration: the identifier set, the designated and
//! retain map lists, notification preferences, and the resume flag, together
//! with the one-time migrations applied when an older configuration is
//! loaded.

use crate::ids::{is_valid_kp_id, valid_kp_id};
use crate::version::{version_lt, version_older_than};
use vstd::prelude::*;

verus! {

/// Version string written into fresh and migrated configurations.
pub open spec fn version_literal() -> Seq<char> {
    "1.1.0"@
}

/// The version string of this crate, used to stamp configurations.
pub fn default_version() -> (r: String)
    ensures
        r@ == version_literal(),
{
    String::from_str("1.1.0")
}

/// The primary identifier and the linked identifiers discovered from its
/// remote profile.  Linked identifiers are meaningful only while the
/// primary identifier is valid; `None` means "not fetched or discarded".
#[derive(Debug, Clone)]
pub struct KillproofIdentifiers {
    pub main_id: String,
    pub linked_ids: Option<Vec<String>>,
}

impl KillproofIdentifiers {
    /// An empty identifier set: no primary, nothing linked.
    pub fn default() -> (r: Self)
        ensures
            r.main_id@ == Seq::<char>::empty(),
            r.linked_ids is None,
    {
        Self { main_id: String::new(), linked_ids: None }
    }
}

/// Which refresh outcomes raise a user-visible notification.
#[derive(Debug, Clone)]
pub struct Notifications {
    pub notify_success: bool,
    pub notify_retry: bool,
    pub notify_failure: bool,
    pub notify_failure_linked: bool,
}

impl Notifications {
    /// Success and retry notices on; failure notices off.
    pub fn default() -> (r: Self)
        ensures
            r.notify_success == true,
            r.notify_retry == true,
            r.notify_failure == false,
            r.notify_failure_linked == false,
    {
        Self {
            notify_success: true,
            notify_retry: true,
            notify_failure: false,
            notify_failure_linked: false,
        }
    }
}

/// Serialization default: enabled.
pub fn yes() -> (r: bool)
    ensures
        r == true,
{
    true
}

/// The map ids of the designated activities; entering one of these maps
/// schedules a refresh.
pub open spec fn default_kp_map_seq() -> Seq<u32> {
    seq![
        1339u32,
        1351u32,
        1432u32,
        1450u32,
        1451u32,
        1437u32,
        1485u32,
        1515u32,
        1520u32,
        1062u32,
        1149u32,
        1156u32,
        1188u32,
        1264u32,
        1303u32,
        1323u32,
        1564u32,
    ]
}

/// The map ids of the transitional hubs that retain (postpone) an already
/// scheduled refresh instead of firing it.
pub open spec fn default_retain_map_seq() -> Seq<u32> {
    seq![1154u32, 1155u32, 1370u32, 1509u32, 1428u32]
}

/// The designated maps of a fresh configuration.
pub fn default_kp_map_ids() -> (r: Vec<u32>)
    ensures
        r@ == default_kp_map_seq(),
{
    let r: Vec<u32> = vec![
        1339, 1351, 1432, 1450, 1451, 1437, 1485, 1515, 1520, // strikes
        1062, 1149, 1156, 1188, 1264, 1303, 1323, 1564, // raids
    ];
    proof {
        assert(r@ =~= default_kp_map_seq());
    }
    r
}

/// The retain maps of a fresh configuration.
pub fn default_retain_refresh_map_ids() -> (r: Vec<u32>)
    ensures
        r@ == default_retain_map_seq(),
{
    let r: Vec<u32> = vec![
        1154, 1155, 1370, 1509, 1428, // hubs
    ];
    proof {
        assert(r@ =~= default_retain_map_seq());
    }
    r
}

/// Everything this engine persists between sessions.
#[derive(Debug, Clone)]
pub struct Config {
    /// Version stamp of the crate that wrote the configuration.
    pub version: String,
    /// The identifier set.
    pub kp_identifiers: KillproofIdentifiers,
    /// Unix time of the last successful refresh, if any.
    pub last_refresh_date: Option<u64>,
    /// Set at shutdown while a refresh was still scheduled; on the next
    /// startup the owed refresh is re-evaluated once location data returns.
    pub refresh_on_next_load: bool,
    /// Designated maps: entering one schedules a refresh.
    pub kp_map_ids: Vec<u32>,
    /// Retain maps: being in one postpones a pending map-triggered refresh.
    pub retain_refresh_map_ids: Vec<u32>,
    /// Notification preferences.
    pub notifications: Notifications,
    /// Whether map-enter scheduling is enabled at all.
    pub scheduling_on_map_enter_enabled: bool,
    /// Whether the primary identifier follows the detected account name.
    pub autodetect_account_name: bool,
}

impl Default for Config {
    /// A fresh configuration: empty identifier set, default map lists,
    /// map-enter scheduling on, autodetection off.
    fn default() -> (r: Self)
        ensures
            r.version@ == version_literal(),
            r.kp_identifiers.main_id@ == Seq::<char>::empty(),
            r.kp_identifiers.linked_ids is None,
            r.last_refresh_date is None,
            r.refresh_on_next_load == false,
            r.kp_map_ids@ == default_kp_map_seq(),
            r.retain_refresh_map_ids@ == default_retain_map_seq(),
            r.notifications.notify_success == true,
            r.notifications.notify_retry == true,
            r.notifications.notify_failure == false,
            r.notifications.notify_failure_linked == false,
            r.scheduling_on_map_enter_enabled == true,
            r.autodetect_account_name == false,
    {
        Config {
            version: default_version(),
            kp_identifiers: KillproofIdentifiers::default(),
            last_refresh_date: None,
            refresh_on_next_load: false,
            kp_map_ids: default_kp_map_ids(),
            retain_refresh_map_ids: default_retain_refresh_map_ids(),
            notifications: Notifications::default(),
            scheduling_on_map_enter_enabled: yes(),
            autodetect_account_name: false,
        }
    }
}

impl Config {
    /// Whether the primary identifier is well-formed.
    pub fn valid(&self) -> (r: bool)
        ensures
            r == valid_kp_id(self.kp_identifiers.main_id@),
    {
        is_valid_kp_id(self.kp_identifiers.main_id.as_str())
    }
}

/// Whether `v` holds `x`.
pub fn contains_u32(v: &Vec<u32>, x: u32) -> (r: bool)
    ensures
        r == v@.contains(x),
{
    let mut i: usize = 0;
    while i < v.len()
        invariant
            0 <= i <= v@.len(),
            forall|j: int| 0 <= j < i ==> v@[j] != x,
        decreases v@.len() - i,
    {
        if v[i] == x {
            return true;
        }
        i += 1;
    }
    proof {
        assert(!v@.contains(x));
    }
    false
}

/// Brings a configuration written by an earlier version up to date: adds
/// map ids that joined the default lists since, then stamps the current
/// version.
pub fn migrate_configs(config: &mut Config)
    ensures
        final (config).version@ == version_literal(),
        final (config).retain_refresh_map_ids@ == if version_lt(
            old(config).version@,
            "0.9.6"@,
        ) && !old(config).retain_refresh_map_ids@.contains(1154u32) {
            old(config).retain_refresh_map_ids@.push(1154u32)
        } else {
            old(config).retain_refresh_map_ids@
        },
        final (config).kp_map_ids@ == if version_lt(old(config).version@, "1.0.0"@) && !old(
            config,
        ).kp_map_ids@.contains(1564u32) {
            old(config).kp_map_ids@.push(1564u32)
        } else {
            old(config).kp_map_ids@
        },
        final (config).kp_identifiers == old(config).kp_identifiers,
        final (config).last_refresh_date == old(config).last_refresh_date,
        final (config).refresh_on_next_load == old(config).refresh_on_next_load,
        final (config).notifications == old(config).notifications,
        final (config).scheduling_on_map_enter_enabled == old(
            config,
        ).scheduling_on_map_enter_enabled,
        final (config).autodetect_account_name == old(config).autodetect_account_name,
{
    if version_older_than(config.version.as_str(), "0.9.6") && !contains_u32(
        &config.retain_refresh_map_ids,
        1154,
    ) {
        config.retain_refresh_map_ids.push(1154);
    }
    if version_older_than(config.version.as_str(), "1.0.0") && !contains_u32(
        &config.kp_map_ids,
        1564,
    ) {
        config.kp_map_ids.push(1564);
    }
    config.version = default_version();
}

} // verus!
