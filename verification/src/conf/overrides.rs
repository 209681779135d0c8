//! Values given on the command line, which win over the file.

use vstd::prelude::*;

use crate::conf::loader::LoadError;
use crate::conf::spanned::Spanned;
use crate::conf::types::runtime::server::ServerConfig;
use crate::conf::types::specification::server_spec::ServerSpec;

verus! {

/// Settings given outside the file. A value that is present replaces the
/// file's value.
pub struct ConfigOverrides {
    /// The host to listen on, in place of the file's `hostname`.
    pub hostname: Option<String>,
    /// The port to listen on, in place of the file's `port`.
    pub port: Option<u16>,
}

impl Default for ConfigOverrides {
    fn default() -> (overrides: Self)
        ensures
            overrides.hostname is None,
            overrides.port is None,
    {
        ConfigOverrides { hostname: None, port: None }
    }
}

impl ConfigOverrides {
    /// Writes each present value over the parsed spec, before validation, so
    /// an overriding value is checked like one from the file. An overriding
    /// value has no source position.
    pub fn apply(self, spec: &mut ServerSpec)
        ensures
            final(spec).hostname.value == (match self.hostname {
                Some(hostname) => hostname,
                None => old(spec).hostname.value,
            }),
            final(spec).port.value == (match self.port {
                Some(port) => port as i64,
                None => old(spec).port.value,
            }),
            final(spec).max_connections == old(spec).max_connections,
            final(spec).shutdown_timeout_secs == old(spec).shutdown_timeout_secs,
            final(spec).pub_sub_channel_capacity == old(spec).pub_sub_channel_capacity,
            final(spec).pid_file == old(spec).pid_file,
    {
        if let Some(hostname) = self.hostname {
            spec.hostname = Spanned::detached(hostname);
        }
        if let Some(port) = self.port {
            spec.port = Spanned::detached(port as i64);
        }
    }
}

impl ServerConfig {
    /// Applies a port given on the command line over a loaded configuration:
    /// the flag wins over the file, and the file over the declared defaults.
    pub fn apply_port_flag(&mut self, port: Option<u16>)
        ensures
            final(self).port == (match port {
                Some(p) => p,
                None => old(self).port,
            }),
            final(self).bind == old(self).bind,
            final(self).max_connections == old(self).max_connections,
            final(self).log_level == old(self).log_level,
            final(self).backoff == old(self).backoff,
    {
        if let Some(p) = port {
            self.port = p;
        }
    }
}

/// The configuration the server runs on: the one loaded from the file, or the
/// declared defaults when no file is given (`base`), with a port given on the
/// command line written over it. A flag wins over the file, and the file over
/// the declared defaults; a load that failed is returned as it came.
pub fn resolve_config(base: Result<ServerConfig, LoadError>, port: Option<u16>) -> (result: Result<
    ServerConfig,
    LoadError,
>)
    ensures
        match base {
            Err(error) => result == Err::<ServerConfig, LoadError>(error),
            Ok(config) => result matches Ok(resolved) && resolved.port == (match port {
                Some(p) => p,
                None => config.port,
            }) && resolved.bind == config.bind && resolved.max_connections
                == config.max_connections && resolved.log_level == config.log_level
                && resolved.backoff == config.backoff,
        },
{
    let mut config = match base {
        Ok(config) => config,
        Err(error) => return Err(error),
    };
    config.apply_port_flag(port);
    Ok(config)
}

} // verus!
