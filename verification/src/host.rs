//! Plugin-host lifecycle: the authoritative state machine of the hosted
//! plugin, from `Unloaded` through `Loading` to `Active`, with `Error`,
//! `Reloading` and back.
//!
//! The native plugin instance itself (the loaded binary and its entry
//! points) lives outside the library; here its presence is tracked
//! alongside the lifecycle so that the tear-down ordering the reload path
//! needs — the old instance is gone strictly before a new one may start
//! producing audio — is a proved invariant rather than a convention.

use vstd::prelude::*;

verus! {

/// Plugin type determines audio routing.
#[derive(Clone, Copy, PartialEq, Eq, Structural, Debug)]
pub enum PluginType {
    /// Effect plugin: processes incoming audio (signals and samples).
    Effect,
    /// Instrument plugin: generates audio itself.
    Instrument,
}

impl Default for PluginType {
    fn default() -> (r: PluginType)
        ensures
            r == PluginType::Effect,
    {
        PluginType::Effect
    }
}

/// Current state of the plugin host.
#[derive(Clone, Debug)]
pub enum PluginState {
    /// No plugin loaded.
    Unloaded,
    /// Plugin is being loaded.
    Loading { path: String },
    /// Plugin is loaded and active.
    Active { name: String, path: String, has_editor: bool },
    /// Plugin failed to load; the message is kept for display.
    Error { message: String },
    /// Hot reload in progress.
    Reloading { path: String },
}

impl Default for PluginState {
    fn default() -> (r: PluginState)
        ensures
            r is Unloaded,
    {
        PluginState::Unloaded
    }
}

/// Information about a loaded plugin.
#[derive(Clone, Debug)]
pub struct PluginInfo {
    pub name: String,
    pub vendor: String,
    pub version: String,
    pub path: String,
    pub plugin_type: PluginType,
    pub has_editor: bool,
}

/// Shared state for plugin hosting. The embedding wraps this in its
/// reader/writer locks; every transition the lock holders may make is one
/// of the methods here.
pub struct PluginHostState {
    state: PluginState,
    /// Whether a native plugin instance currently exists.
    instance_present: bool,
    plugin_type: PluginType,
    auto_reload: bool,
    watched_path: Option<String>,
}

impl PluginHostState {
    pub closed spec fn state_spec(&self) -> PluginState {
        self.state
    }

    pub closed spec fn instance_present_spec(&self) -> bool {
        self.instance_present
    }

    pub closed spec fn plugin_type_spec(&self) -> PluginType {
        self.plugin_type
    }

    pub closed spec fn auto_reload_spec(&self) -> bool {
        self.auto_reload
    }

    pub closed spec fn watched_path_spec(&self) -> Option<String> {
        self.watched_path
    }

    /// A native instance exists exactly while the lifecycle is `Active`:
    /// in particular, none exists during `Reloading`, so the outgoing
    /// instance is torn down strictly before the incoming one starts.
    pub open spec fn well_formed(&self) -> bool {
        self.instance_present_spec() == self.state_spec() is Active
    }

    pub fn new() -> (r: PluginHostState)
        ensures
            r.well_formed(),
            r.state_spec() is Unloaded,
            !r.instance_present_spec(),
            r.plugin_type_spec() == PluginType::Effect,
            !r.auto_reload_spec(),
            r.watched_path_spec() is None,
    {
        PluginHostState {
            state: PluginState::Unloaded,
            instance_present: false,
            plugin_type: PluginType::Effect,
            auto_reload: false,
            watched_path: None,
        }
    }

    pub fn state(&self) -> (r: &PluginState)
        ensures
            r == self.state_spec(),
    {
        &self.state
    }

    /// A load request: accepted exactly from `Unloaded`.
    pub fn begin_load(&mut self, path: String) -> (accepted: bool)
        requires
            old(self).well_formed(),
        ensures
            final(self).well_formed(),
            accepted == old(self).state_spec() is Unloaded,
            accepted ==> (final(self).state_spec() matches PluginState::Loading { path: p }
                && p@ == path@),
            !accepted ==> final(self).state_spec() == old(self).state_spec(),
            final(self).instance_present_spec() == old(self).instance_present_spec(),
            final(self).plugin_type_spec() == old(self).plugin_type_spec(),
            final(self).auto_reload_spec() == old(self).auto_reload_spec(),
            final(self).watched_path_spec() == old(self).watched_path_spec(),
    {
        match self.state {
            PluginState::Unloaded => {
                self.state = PluginState::Loading { path };
                true
            },
            _ => false,
        }
    }

    /// A reload request (from the file watcher or an explicit command):
    /// accepted exactly from `Active`. The running instance is destroyed
    /// here, before any new instance can exist.
    pub fn begin_reload(&mut self, path: String) -> (accepted: bool)
        requires
            old(self).well_formed(),
        ensures
            final(self).well_formed(),
            accepted == old(self).state_spec() is Active,
            accepted ==> (final(self).state_spec() matches PluginState::Reloading { path: p }
                && p@ == path@ && !final(self).instance_present_spec()),
            !accepted ==> final(self).state_spec() == old(self).state_spec() && final(self).instance_present_spec() == old(self).instance_present_spec(),
            final(self).plugin_type_spec() == old(self).plugin_type_spec(),
            final(self).auto_reload_spec() == old(self).auto_reload_spec(),
            final(self).watched_path_spec() == old(self).watched_path_spec(),
    {
        match self.state {
            PluginState::Active { .. } => {
                self.state = PluginState::Reloading { path };
                self.instance_present = false;
                true
            },
            _ => false,
        }
    }

    /// A successful load or reload: accepted exactly from `Loading` or
    /// `Reloading`; captures the display name, the path, and whether the
    /// plugin exposes an editor, and records the new instance.
    pub fn finish_load_success(
        &mut self,
        name: String,
        path: String,
        has_editor: bool,
    ) -> (accepted: bool)
        requires
            old(self).well_formed(),
        ensures
            final(self).well_formed(),
            accepted == (old(self).state_spec() is Loading || old(self).state_spec()
                is Reloading),
            accepted ==> (final(self).state_spec() matches PluginState::Active {
                name: n,
                path: p,
                has_editor: h,
            } && n@ == name@ && p@ == path@ && h == has_editor && final(self).instance_present_spec()),
            !accepted ==> final(self).state_spec() == old(self).state_spec() && final(self).instance_present_spec() == old(self).instance_present_spec(),
            final(self).plugin_type_spec() == old(self).plugin_type_spec(),
            final(self).auto_reload_spec() == old(self).auto_reload_spec(),
            final(self).watched_path_spec() == old(self).watched_path_spec(),
    {
        match self.state {
            PluginState::Loading { .. } | PluginState::Reloading { .. } => {
                self.state = PluginState::Active { name, path, has_editor };
                self.instance_present = true;
                true
            },
            _ => false,
        }
    }

    /// A failed load or reload: accepted exactly from `Loading` or
    /// `Reloading`; the message is retained for display, and no instance
    /// exists afterwards.
    pub fn finish_load_error(&mut self, message: String) -> (accepted: bool)
        requires
            old(self).well_formed(),
        ensures
            final(self).well_formed(),
            accepted == (old(self).state_spec() is Loading || old(self).state_spec()
                is Reloading),
            accepted ==> (final(self).state_spec() matches PluginState::Error { message: m }
                && m@ == message@ && !final(self).instance_present_spec()),
            !accepted ==> final(self).state_spec() == old(self).state_spec() && final(self).instance_present_spec() == old(self).instance_present_spec(),
            final(self).plugin_type_spec() == old(self).plugin_type_spec(),
            final(self).auto_reload_spec() == old(self).auto_reload_spec(),
            final(self).watched_path_spec() == old(self).watched_path_spec(),
    {
        match self.state {
            PluginState::Loading { .. } | PluginState::Reloading { .. } => {
                self.state = PluginState::Error { message };
                self.instance_present = false;
                true
            },
            _ => false,
        }
    }

    /// A runtime fault caught by the crash guard is fatal to the instance:
    /// accepted exactly from `Active`, forcing the `Error` transition and
    /// discarding the instance — it is never resumed or retried.
    pub fn handle_crash(&mut self, message: String) -> (accepted: bool)
        requires
            old(self).well_formed(),
        ensures
            final(self).well_formed(),
            accepted == old(self).state_spec() is Active,
            accepted ==> (final(self).state_spec() matches PluginState::Error { message: m }
                && m@ == message@ && !final(self).instance_present_spec()),
            !accepted ==> final(self).state_spec() == old(self).state_spec() && final(self).instance_present_spec() == old(self).instance_present_spec(),
            final(self).plugin_type_spec() == old(self).plugin_type_spec(),
            final(self).auto_reload_spec() == old(self).auto_reload_spec(),
            final(self).watched_path_spec() == old(self).watched_path_spec(),
    {
        match self.state {
            PluginState::Active { .. } => {
                self.state = PluginState::Error { message };
                self.instance_present = false;
                true
            },
            _ => false,
        }
    }

    /// An explicit unload: accepted exactly from `Active` or `Error`; any
    /// instance is destroyed.
    pub fn unload(&mut self) -> (accepted: bool)
        requires
            old(self).well_formed(),
        ensures
            final(self).well_formed(),
            accepted == (old(self).state_spec() is Active || old(self).state_spec() is Error),
            accepted ==> final(self).state_spec() is Unloaded && !final(self).instance_present_spec(),
            !accepted ==> final(self).state_spec() == old(self).state_spec() && final(self).instance_present_spec() == old(self).instance_present_spec(),
            final(self).plugin_type_spec() == old(self).plugin_type_spec(),
            final(self).auto_reload_spec() == old(self).auto_reload_spec(),
            final(self).watched_path_spec() == old(self).watched_path_spec(),
    {
        match self.state {
            PluginState::Active { .. } | PluginState::Error { .. } => {
                self.state = PluginState::Unloaded;
                self.instance_present = false;
                true
            },
            _ => false,
        }
    }

    pub fn set_plugin_type(&mut self, plugin_type: PluginType)
        requires
            old(self).well_formed(),
        ensures
            final(self).well_formed(),
            final(self).plugin_type_spec() == plugin_type,
            final(self).state_spec() == old(self).state_spec(),
            final(self).instance_present_spec() == old(self).instance_present_spec(),
            final(self).auto_reload_spec() == old(self).auto_reload_spec(),
            final(self).watched_path_spec() == old(self).watched_path_spec(),
    {
        self.plugin_type = plugin_type;
    }

    pub fn plugin_type(&self) -> (r: PluginType)
        ensures
            r == self.plugin_type_spec(),
    {
        self.plugin_type
    }

    pub fn set_auto_reload(&mut self, enabled: bool)
        requires
            old(self).well_formed(),
        ensures
            final(self).well_formed(),
            final(self).auto_reload_spec() == enabled,
            final(self).state_spec() == old(self).state_spec(),
            final(self).instance_present_spec() == old(self).instance_present_spec(),
            final(self).plugin_type_spec() == old(self).plugin_type_spec(),
            final(self).watched_path_spec() == old(self).watched_path_spec(),
    {
        self.auto_reload = enabled;
    }

    pub fn auto_reload(&self) -> (r: bool)
        ensures
            r == self.auto_reload_spec(),
    {
        self.auto_reload
    }

    pub fn set_watched_path(&mut self, path: Option<String>)
        requires
            old(self).well_formed(),
        ensures
            final(self).well_formed(),
            final(self).watched_path_spec() == path,
            final(self).state_spec() == old(self).state_spec(),
            final(self).instance_present_spec() == old(self).instance_present_spec(),
            final(self).plugin_type_spec() == old(self).plugin_type_spec(),
            final(self).auto_reload_spec() == old(self).auto_reload_spec(),
    {
        self.watched_path = path;
    }

    pub fn watched_path(&self) -> (r: &Option<String>)
        ensures
            r == self.watched_path_spec(),
    {
        &self.watched_path
    }

    /// Whether audio processing may route through a plugin this block: the
    /// cheap, frequent read the producer thread makes.
    pub fn plugin_active(&self) -> (r: bool)
        requires
            self.well_formed(),
        ensures
            r == self.state_spec() is Active,
            r == self.instance_present_spec(),
    {
        self.instance_present
    }
}

} // verus!
