//! The reloadable plugin's host: what to do when a version of the plugin
//! has been loaded, or has failed to load. The host's loop performs the
//! action and reports the next load event.
use vstd::prelude::*;

verus! {

/// What the host knows of the plugin.
#[derive(Clone, Copy, Debug, PartialEq, Eq, Structural)]
pub enum PluginState {
    /// No version has loaded yet.
    Unloaded,
    /// The given version is loaded and registered.
    Active { version: u64 },
}

/// What happened on an attempt to load the plugin.
#[derive(Clone, Copy, Debug, PartialEq, Eq, Structural)]
pub enum LoadEvent {
    /// The given version loaded.
    Loaded { version: u64 },
    /// The plugin could not be loaded (a missing symbol, an incompatible build).
    Failed,
}

/// What the host does next.
#[derive(Clone, Copy, Debug, PartialEq, Eq, Structural)]
pub enum HostAction {
    /// Run the plugin's registration against the live application.
    Register,
    /// The loaded version is the one already active: nothing to do.
    Ignore,
    /// A reload failed: the active version stays in use.
    KeepPrevious,
    /// The first load failed: startup must stop with a load error.
    Abort,
}

/// The host's next state and action.
pub open spec fn next_spec(state: PluginState, event: LoadEvent) -> (PluginState, HostAction) {
    match (state, event) {
        (PluginState::Unloaded, LoadEvent::Loaded { version }) => (
            PluginState::Active { version },
            HostAction::Register,
        ),
        (PluginState::Unloaded, LoadEvent::Failed) => (PluginState::Unloaded, HostAction::Abort),
        (PluginState::Active { version: old_v }, LoadEvent::Loaded { version }) => if old_v
            == version {
            (state, HostAction::Ignore)
        } else {
            (PluginState::Active { version }, HostAction::Register)
        },
        (PluginState::Active { .. }, LoadEvent::Failed) => (state, HostAction::KeepPrevious),
    }
}

/// Decides what a load event means for the host.
pub fn on_load_event(state: PluginState, event: LoadEvent) -> (r: (PluginState, HostAction))
    ensures
        r == next_spec(state, event),
{
    match (state, event) {
        (PluginState::Unloaded, LoadEvent::Loaded { version }) => (
            PluginState::Active { version },
            HostAction::Register,
        ),
        (PluginState::Unloaded, LoadEvent::Failed) => (PluginState::Unloaded, HostAction::Abort),
        (PluginState::Active { version: old_v }, LoadEvent::Loaded { version }) => {
            if old_v == version {
                (state, HostAction::Ignore)
            } else {
                (PluginState::Active { version }, HostAction::Register)
            }
        },
        (PluginState::Active { .. }, LoadEvent::Failed) => (state, HostAction::KeepPrevious),
    }
}

/// A failed load never leaves the host without a working version silently:
/// it aborts when none is active, and otherwise keeps the active one.
pub proof fn lemma_failure_is_never_silent(state: PluginState)
    ensures
        state is Unloaded ==> next_spec(state, LoadEvent::Failed).1 == HostAction::Abort,
        state is Active ==> next_spec(state, LoadEvent::Failed) == (state, HostAction::KeepPrevious),
{
}

} // verus!
