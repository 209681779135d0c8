//! The resolved form of the service settings.
//!
//! The listener and the connection handlers read this type. It carries no
//! span, and every value already has the width and the type the runtime
//! needs.

use vstd::prelude::*;

use crate::conf::address::SocketAddress;
use crate::conf::constraints::{
    narrow_issues, narrow_secs_to_duration, narrow_to_usize, secs_duration,
};
use crate::conf::diagnostic::{report_issues, IssueView};
use crate::conf::spanned::Spanned;
use crate::conf::types::specification::server_spec::ServerSpec;
use crate::conf::validation::validator::net::{socket_address_issues, to_socket_addr};

verus! {

/// The service configuration the server runs on.
#[derive(Debug)]
pub struct ServerConfig {
    /// The socket address the listener binds to.
    pub addr: SocketAddress,
    /// Maximum number of concurrent connections the server accepts.
    pub max_connections: usize,
    /// Time the server waits for connections to finish when it shuts down.
    pub shutdown_timeout: core::time::Duration,
    /// Capacity of each pub/sub broadcast channel.
    pub pub_sub_channel_capacity: usize,
    /// Path the server writes its PID file to, when it writes one.
    pub pid_file: Option<String>,
}

/// Whether every service setting narrows to its runtime type, given the socket
/// address read from the hostname and the port.
pub open spec fn service_narrows(spec: ServerSpec, address: Option<SocketAddress>) -> bool {
    &&& address is Some
    &&& 0 <= spec.max_connections.value <= usize::MAX
    &&& 0 <= spec.shutdown_timeout_secs.value
    &&& 0 <= spec.pub_sub_channel_capacity.value <= usize::MAX
}

/// The PID file path, without its span.
pub open spec fn pid_path(pid_file: Option<Spanned<String>>) -> Option<String> {
    match pid_file {
        Some(path) => Some(path.value),
        None => None,
    }
}

/// The runtime configuration the service settings lower to: each value
/// narrowed, and nothing else changed.
pub open spec fn lowered_service(spec: ServerSpec, address: Option<SocketAddress>) -> Option<
    ServerConfig,
> {
    if service_narrows(spec, address) {
        Some(
            ServerConfig {
                addr: address.unwrap(),
                max_connections: spec.max_connections.value as usize,
                shutdown_timeout: secs_duration(spec.shutdown_timeout_secs.value),
                pub_sub_channel_capacity: spec.pub_sub_channel_capacity.value as usize,
                pid_file: pid_path(spec.pid_file),
            },
        )
    } else {
        None
    }
}

/// The issues lowering the service settings records: lowering stops at the
/// first value that does not narrow, in field order.
pub open spec fn service_lowering_issues(spec: ServerSpec, address: Option<SocketAddress>) -> Seq<
    IssueView,
> {
    let max = spec.max_connections.value;
    let timeout = spec.shutdown_timeout_secs.value;
    let capacity = spec.pub_sub_channel_capacity.value;
    if address is None {
        socket_address_issues(address)
    } else if !(0 <= max <= usize::MAX) {
        narrow_issues(false, max as int, "usize"@)
    } else if !(0 <= timeout) {
        narrow_issues(false, timeout as int, "u64"@)
    } else {
        narrow_issues(0 <= capacity <= usize::MAX, capacity as int, "usize"@)
    }
}

impl ServerConfig {
    /// Lowers the service settings. `address` is what `SocketAddr::from_str`
    /// reads from the text `"{hostname}:{port}"`, run by the caller; lowering
    /// checks it again, as validation did.
    pub fn lower(
        spec: &ServerSpec,
        address: Option<SocketAddress>,
        report: &mut confval::diagnostic::Report,
    ) -> (r: Option<ServerConfig>)
        ensures
            r == lowered_service(*spec, address),
            r matches Some(config) ==> {
                &&& Some(config.addr) == address
                &&& config.max_connections as int == spec.max_connections.value as int
                &&& config.shutdown_timeout == secs_duration(spec.shutdown_timeout_secs.value)
                &&& config.pub_sub_channel_capacity as int
                    == spec.pub_sub_channel_capacity.value as int
                &&& match spec.pid_file {
                    Some(path) => config.pid_file matches Some(kept) && kept == path.value,
                    None => config.pid_file is None,
                }
            },
            report_issues(*final(report)) == report_issues(*old(report)) + service_lowering_issues(
                *spec,
                address,
            ),
    {
        let ghost start = report_issues(*report);
        let addr = match to_socket_addr(&spec.hostname, address, report) {
            Some(addr) => addr,
            None => return None,
        };
        let max_connections = match narrow_to_usize(&spec.max_connections, report) {
            Some(max) => max,
            None => return None,
        };
        let shutdown_timeout = match narrow_secs_to_duration(&spec.shutdown_timeout_secs, report) {
            Some(timeout) => timeout,
            None => return None,
        };
        let pub_sub_channel_capacity = match narrow_to_usize(&spec.pub_sub_channel_capacity, report) {
            Some(capacity) => capacity,
            None => return None,
        };
        let pid_file = match &spec.pid_file {
            Some(path) => Some(path.value.clone()),
            None => None,
        };
        assert(report_issues(*report) =~= start + service_lowering_issues(*spec, address));
        Some(
            ServerConfig {
                addr,
                max_connections,
                shutdown_timeout,
                pub_sub_channel_capacity,
                pid_file,
            },
        )
    }

    /// The subset of fields baked into the listener at bind time. Changes to
    /// these require a full restart.
    pub fn listener_identity(&self) -> (identity: (SocketAddress, usize))
        ensures
            identity == (self.addr, self.max_connections),
    {
        (self.addr, self.max_connections)
    }
}

/// Lowering the service settings keeps every value as it was written: the
/// address that was read, the numbers unchanged, the timeout as that many
/// seconds, and the PID file path as given, relative or not.
pub proof fn lemma_service_lowering_keeps_values(spec: ServerSpec, address: Option<SocketAddress>)
    ensures
        lowered_service(spec, address) matches Some(config) ==> {
            &&& Some(config.addr) == address
            &&& config.max_connections as int == spec.max_connections.value as int
            &&& config.shutdown_timeout == secs_duration(spec.shutdown_timeout_secs.value)
            &&& config.pub_sub_channel_capacity as int
                == spec.pub_sub_channel_capacity.value as int
            &&& match spec.pid_file {
                Some(path) => config.pid_file matches Some(kept) && kept == path.value,
                None => config.pid_file is None,
            }
        },
{
}

} // verus!
