//! What a watcher subscribes to, and on which backend.
//!
//! Each watched entry is heard on one of two backends: through the settings
//! daemon, where a connection to it could be made when the worker started, or
//! by watching the entry's backing store directly. A daemon that cannot be
//! reached is no failure: the watcher then works on the local backend.

use vstd::prelude::*;

verus! {

/// A configuration entry that a watcher subscribes to.
#[derive(Clone, Copy, Debug, PartialEq, Eq, Structural)]
pub enum ConfigEntry {
    ThemeMode,
    DarkTheme,
    LightTheme,
    ToolkitPreferences,
}

/// Where the changes of an entry are heard.
#[derive(Clone, Copy, Debug, PartialEq, Eq, Structural)]
pub enum WatchBackend {
    /// Through the shared connection to the settings daemon.
    SettingsDaemon,
    /// By watching the entry's backing store directly.
    LocalWatch,
}

/// One entry, and the backend on which it is watched.
#[derive(Clone, Copy, Debug, PartialEq, Eq, Structural)]
pub struct ConfigurationSubscription {
    pub entry: ConfigEntry,
    pub backend: WatchBackend,
}

/// The backend of a subscription: the settings daemon where a connection to it
/// stands, the local watch where it does not.
pub open spec fn backend_for(daemon_available: bool) -> WatchBackend {
    if daemon_available {
        WatchBackend::SettingsDaemon
    } else {
        WatchBackend::LocalWatch
    }
}

/// The entries of every watcher, in the order in which they are subscribed.
pub open spec fn watched_entries() -> Seq<ConfigEntry> {
    seq![
        ConfigEntry::ThemeMode,
        ConfigEntry::DarkTheme,
        ConfigEntry::LightTheme,
        ConfigEntry::ToolkitPreferences,
    ]
}

/// Binds the subscription of one entry to a backend.
pub fn watch_config(daemon_available: bool, entry: ConfigEntry) -> (subscription:
    ConfigurationSubscription)
    ensures
        subscription.entry == entry,
        subscription.backend == backend_for(daemon_available),
{
    let backend = if daemon_available {
        WatchBackend::SettingsDaemon
    } else {
        WatchBackend::LocalWatch
    };
    ConfigurationSubscription { entry, backend }
}

/// The subscriptions that a worker sets up once it knows whether the settings
/// daemon answers: one for each watched entry, in their order, all on the same
/// backend.
pub fn plan_subscriptions(daemon_available: bool) -> (plan: Vec<ConfigurationSubscription>)
    ensures
        plan@.len() == watched_entries().len(),
        forall|i: int|
            0 <= i < plan@.len() ==> plan@[i].entry == watched_entries()[i] && plan@[i].backend
                == backend_for(daemon_available),
{
    let mut plan: Vec<ConfigurationSubscription> = Vec::new();
    plan.push(watch_config(daemon_available, ConfigEntry::ThemeMode));
    plan.push(watch_config(daemon_available, ConfigEntry::DarkTheme));
    plan.push(watch_config(daemon_available, ConfigEntry::LightTheme));
    plan.push(watch_config(daemon_available, ConfigEntry::ToolkitPreferences));
    plan
}

/// Every entry is watched, and watched once.
pub proof fn lemma_every_entry_is_watched(entry: ConfigEntry)
    ensures
        watched_entries().contains(entry),
        watched_entries().no_duplicates(),
{
    let entries = watched_entries();
    match entry {
        ConfigEntry::ThemeMode => assert(entries[0] == entry),
        ConfigEntry::DarkTheme => assert(entries[1] == entry),
        ConfigEntry::LightTheme => assert(entries[2] == entry),
        ConfigEntry::ToolkitPreferences => assert(entries[3] == entry),
    }
}

} // verus!
