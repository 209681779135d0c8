//! What a reload has to do when the configuration changes.

use vstd::prelude::*;

use crate::conf::constraints::durations_equal;
use crate::conf::validation::validator::path::{path_components, same_path};
use crate::conf::types::runtime::server_config::ServerConfig;

verus! {

/// How far a new configuration reaches into a running server.
#[derive(Debug, Clone, Copy, PartialEq, Eq, Structural)]
pub enum ConfigChange {
    /// Every setting is the same.
    NoChange,
    /// Settings changed, and the listener can keep running.
    RuntimeOnly,
    /// A setting baked into the listener changed, which needs a restart.
    ListenerChanged,
}

/// Whether two optional paths name the same path: both absent, or both
/// present with the same components.
pub open spec fn same_pid_file(a: Option<String>, b: Option<String>) -> bool {
    match (a, b) {
        (Some(x), Some(y)) => path_components(x@) == path_components(y@),
        (None, None) => true,
        _ => false,
    }
}

/// Whether two configurations hold the same settings.
pub open spec fn same_settings(a: ServerConfig, b: ServerConfig) -> bool {
    &&& a.addr == b.addr
    &&& a.max_connections == b.max_connections
    &&& a.shutdown_timeout == b.shutdown_timeout
    &&& a.pub_sub_channel_capacity == b.pub_sub_channel_capacity
    &&& same_pid_file(a.pid_file, b.pid_file)
}

/// Whether two configurations agree on the settings the listener is bound
/// with: the socket address and the connection limit.
pub open spec fn same_listener(a: ServerConfig, b: ServerConfig) -> bool {
    &&& a.addr == b.addr
    &&& a.max_connections == b.max_connections
}

/// Whether two configurations agree on every field, the PID file compared as a
/// path (by its components).
pub open spec fn every_field_equal(a: ServerConfig, b: ServerConfig) -> bool {
    &&& a.addr == b.addr
    &&& a.max_connections == b.max_connections
    &&& a.shutdown_timeout == b.shutdown_timeout
    &&& a.pub_sub_channel_capacity == b.pub_sub_channel_capacity
    &&& match (a.pid_file, b.pid_file) {
        (Some(x), Some(y)) => path_components(x@) == path_components(y@),
        (None, None) => true,
        _ => false,
    }
}

/// The change from one configuration to another.
pub open spec fn change_between(old: ServerConfig, new: ServerConfig) -> ConfigChange {
    if same_settings(old, new) {
        ConfigChange::NoChange
    } else if !same_listener(old, new) {
        ConfigChange::ListenerChanged
    } else {
        ConfigChange::RuntimeOnly
    }
}

/// Whether two optional paths name the same path.
fn same_pid_path(a: &Option<String>, b: &Option<String>) -> (same: bool)
    ensures
        same == same_pid_file(*a, *b),
{
    match (a, b) {
        (Some(x), Some(y)) => same_path(x.as_str(), y.as_str()),
        (None, None) => true,
        _ => false,
    }
}

impl ServerConfig {
    /// Whether both configurations hold the same settings.
    pub fn same_settings_as(&self, other: &ServerConfig) -> (same: bool)
        ensures
            same == same_settings(*self, *other),
    {
        self.addr == other.addr && self.max_connections == other.max_connections
            && durations_equal(&self.shutdown_timeout, &other.shutdown_timeout)
            && self.pub_sub_channel_capacity == other.pub_sub_channel_capacity && same_pid_path(
            &self.pid_file,
            &other.pid_file,
        )
    }
}

/// Classifies a reload: no change, a change the running listener absorbs, or a
/// change to the listener itself.
pub fn classify_config_change(old_server: &ServerConfig, new_server: &ServerConfig) -> (change:
    ConfigChange)
    ensures
        change == change_between(*old_server, *new_server),
        (change == ConfigChange::NoChange) <==> every_field_equal(*old_server, *new_server),
        (change == ConfigChange::ListenerChanged) <==> (old_server.addr != new_server.addr
            || old_server.max_connections != new_server.max_connections),
{
    if old_server.same_settings_as(new_server) {
        return ConfigChange::NoChange;
    }
    let old_identity = old_server.listener_identity();
    let new_identity = new_server.listener_identity();
    if old_identity.0 != new_identity.0 || old_identity.1 != new_identity.1 {
        ConfigChange::ListenerChanged
    } else {
        ConfigChange::RuntimeOnly
    }
}

/// Reloading an unchanged configuration changes nothing.
pub proof fn lemma_unchanged_config_needs_nothing(config: ServerConfig)
    ensures
        change_between(config, config) == ConfigChange::NoChange,
{
}

/// The classification does not depend on which configuration came first.
pub proof fn lemma_change_is_symmetric(a: ServerConfig, b: ServerConfig)
    ensures
        change_between(a, b) == change_between(b, a),
{
}

/// A restart is asked for exactly when the listener's settings differ.
pub proof fn lemma_restart_only_for_listener_changes(a: ServerConfig, b: ServerConfig)
    ensures
        (change_between(a, b) == ConfigChange::ListenerChanged) <==> !same_listener(a, b),
{
}

/// A reload is classified as no change exactly when every field of the two
/// configurations is equal, so a change to any field reaches the running
/// server; it needs a restart exactly when the socket address or the
/// connection limit differs.
pub proof fn lemma_no_change_only_for_equal_configurations(a: ServerConfig, b: ServerConfig)
    ensures
        (change_between(a, b) == ConfigChange::NoChange) <==> {
            &&& a.addr == b.addr
            &&& a.max_connections == b.max_connections
            &&& a.shutdown_timeout == b.shutdown_timeout
            &&& a.pub_sub_channel_capacity == b.pub_sub_channel_capacity
            &&& match (a.pid_file, b.pid_file) {
                (Some(x), Some(y)) => path_components(x@) == path_components(y@),
                (None, None) => true,
                _ => false,
            }
        },
        (change_between(a, b) == ConfigChange::ListenerChanged) <==> (a.addr != b.addr
            || a.max_connections != b.max_connections),
{
}

} // verus!
