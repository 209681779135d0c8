//! The settings the running server reads after it has bound its listener.

use vstd::prelude::*;

use crate::conf::types::runtime::server_config::ServerConfig;

verus! {

/// The part of the service configuration the connection handlers and the
/// shutdown path read.
#[derive(Debug)]
pub struct RuntimeConfig {
    /// Capacity of each pub/sub broadcast channel.
    pub pub_sub_channel_capacity: usize,
    /// Time the server waits for connections to finish when it shuts down.
    pub shutdown_timeout: core::time::Duration,
}

impl RuntimeConfig {
    /// Takes the channel capacity and the shutdown timeout from the service
    /// configuration.
    pub fn new(server: &ServerConfig) -> (config: Self)
        ensures
            config.pub_sub_channel_capacity == server.pub_sub_channel_capacity,
            config.shutdown_timeout == server.shutdown_timeout,
    {
        RuntimeConfig {
            pub_sub_channel_capacity: server.pub_sub_channel_capacity,
            shutdown_timeout: server.shutdown_timeout,
        }
    }
}

} // verus!
