//! The resolved form of the server configuration.
//!
//! The rest of the program reads these types. They carry no span, and every
//! value already has the width and the type the runtime needs.

use vstd::prelude::*;

use crate::conf::constraints::{
    ip_literal, narrow_issues, narrow_secs_to_duration, narrow_to_u16,
    narrow_to_usize, secs_duration,
};
use crate::conf::diagnostic::{
    error_issue, located_at_each, report_issues, report_locations, IssueView,
};
use crate::conf::spanned::Spanned;
use crate::conf::types::specification::server::{
    level_of_keyword, BackoffSpec, LogLevel, ServerSpec,
};
use crate::conf::validation::validator::net::{narrow_ip_addr, narrow_ip_issues};

verus! {

/// The exponential retry schedule of the accept loop.
#[derive(Debug, Clone, Copy)]
pub struct BackoffConfig {
    /// Time the accept loop waits after the first failure.
    pub initial: core::time::Duration,
    /// Time after which the accept loop gives up and returns the error.
    pub max: core::time::Duration,
}

/// The server configuration the listener and the accept loop run on.
#[derive(Debug, Clone)]
pub struct ServerConfig {
    /// IP address the listener binds to, as an IPv4 or IPv6 literal.
    pub bind: String,
    /// TCP port the listener accepts connections on.
    pub port: u16,
    /// Number of connections the server serves at one time.
    pub max_connections: usize,
    /// Verbosity the tracing subscriber starts at.
    pub log_level: LogLevel,
    /// Retry schedule the accept loop follows after a failed accept.
    pub backoff: BackoffConfig,
}

/// The issue narrowing a keyword records: none for a level keyword, one naming
/// the text otherwise.
pub open spec fn keyword_narrow_issues(value: Seq<char>) -> Seq<IssueView> {
    if level_of_keyword(value) is Some {
        Seq::empty()
    } else {
        seq![
            error_issue(
                "unknown keyword: "@ + value,
                Some(
                    "the value was not checked against a keyword set, or the set and its enum disagree"@,
                ),
            ),
        ]
    }
}

/// `narrow::keyword::<LogLevel>`: the level `LogLevel::try_from` reads from
/// the keyword, and otherwise an error at the value's span saying the keyword
/// was not checked. The conversion it calls is this library's own, proved
/// against `level_of_keyword`.
#[verifier::external_body]
pub(crate) fn narrow_log_level(
    value: &Spanned<String>,
    report: &mut confval::diagnostic::Report,
) -> (r: Option<LogLevel>)
    ensures
        r == level_of_keyword(value.value@),
        report_issues(*final(report)) == report_issues(*old(report)) + keyword_narrow_issues(
            value.value@,
        ),
        report_locations(*final(report)) == report_locations(*old(report)) + located_at_each(
            value.span,
            keyword_narrow_issues(value.value@).len(),
        ),
{
    confval::pipeline::narrow::keyword::<LogLevel>(
        &confval::source::Located::new(value.value.clone(), value.span),
        report,
    )
}

/// The runtime schedule a backoff block lowers to, when both values are whole
/// non-negative seconds.
pub open spec fn lowered_backoff(spec: BackoffSpec) -> Option<BackoffConfig> {
    if 0 <= spec.initial_seconds.value && 0 <= spec.max_seconds.value {
        Some(
            BackoffConfig {
                initial: secs_duration(spec.initial_seconds.value),
                max: secs_duration(spec.max_seconds.value),
            },
        )
    } else {
        None
    }
}

/// The issues lowering a backoff block records: it stops at the first value
/// that does not narrow.
pub open spec fn backoff_lowering_issues(spec: BackoffSpec) -> Seq<IssueView> {
    let initial = spec.initial_seconds.value;
    let max = spec.max_seconds.value;
    if 0 <= initial {
        narrow_issues(0 <= max, max as int, "u64"@)
    } else {
        narrow_issues(false, initial as int, "u64"@)
    }
}

/// Whether every field of a server spec narrows to its runtime type.
pub open spec fn server_narrows(spec: ServerSpec) -> bool {
    &&& ip_literal(spec.bind.value@)
    &&& 0 <= spec.port.value <= u16::MAX
    &&& 0 <= spec.max_connections.value <= usize::MAX
    &&& level_of_keyword(spec.log_level.value@) is Some
    &&& lowered_backoff(spec.backoff.value) is Some
}

/// The runtime configuration a server spec lowers to: each value narrowed, and
/// nothing else changed.
pub open spec fn lowered_server(spec: ServerSpec) -> Option<ServerConfig> {
    if server_narrows(spec) {
        Some(
            ServerConfig {
                bind: spec.bind.value,
                port: spec.port.value as u16,
                max_connections: spec.max_connections.value as usize,
                log_level: level_of_keyword(spec.log_level.value@).unwrap(),
                backoff: lowered_backoff(spec.backoff.value).unwrap(),
            },
        )
    } else {
        None
    }
}

/// The issues lowering a server spec records: the fields narrow in order, and
/// lowering stops at the first that does not.
pub open spec fn server_lowering_issues(spec: ServerSpec) -> Seq<IssueView> {
    let bind = spec.bind.value@;
    let port = spec.port.value;
    let connections = spec.max_connections.value;
    let level = spec.log_level.value@;
    let port_fits = 0 <= port <= u16::MAX;
    let connections_fit = 0 <= connections <= usize::MAX;
    narrow_ip_issues(bind) + if !ip_literal(bind) {
        Seq::empty()
    } else {
        narrow_issues(port_fits, port as int, "u16"@) + if !port_fits {
            Seq::empty()
        } else {
            narrow_issues(connections_fit, connections as int, "usize"@) + if !connections_fit {
                Seq::empty()
            } else {
                keyword_narrow_issues(level) + if level_of_keyword(level) is None {
                    Seq::empty()
                } else {
                    backoff_lowering_issues(spec.backoff.value)
                }
            }
        }
    }
}

impl BackoffConfig {
    /// Lowers a backoff block: each value becomes a duration of that many
    /// seconds.
    pub fn lower(spec: &BackoffSpec, report: &mut confval::diagnostic::Report) -> (r: Option<Self>)
        ensures
            r == lowered_backoff(*spec),
            report_issues(*final(report)) == report_issues(*old(report)) + backoff_lowering_issues(
                *spec,
            ),
    {
        let initial = match narrow_secs_to_duration(&spec.initial_seconds, report) {
            Some(d) => d,
            None => {
                assert(report_issues(*report) =~= report_issues(*old(report))
                    + backoff_lowering_issues(*spec));
                return None;
            },
        };
        let max = match narrow_secs_to_duration(&spec.max_seconds, report) {
            Some(d) => d,
            None => {
                assert(report_issues(*report) =~= report_issues(*old(report))
                    + backoff_lowering_issues(*spec));
                return None;
            },
        };
        assert(report_issues(*report) =~= report_issues(*old(report)) + backoff_lowering_issues(
            *spec,
        ));
        Some(BackoffConfig { initial, max })
    }
}

impl ServerConfig {
    /// Lowers a server spec into the runtime configuration, narrowing each
    /// value in field order and stopping at the first that does not narrow.
    pub fn lower(spec: &ServerSpec, report: &mut confval::diagnostic::Report) -> (r: Option<Self>)
        ensures
            r == lowered_server(*spec),
            report_issues(*final(report)) == report_issues(*old(report)) + server_lowering_issues(
                *spec,
            ),
    {
        let ghost start = report_issues(*report);
        let bind = match narrow_ip_addr(&spec.bind, report) {
            Some(b) => b,
            None => {
                assert(report_issues(*report) =~= start + server_lowering_issues(*spec));
                return None;
            },
        };
        let port = match narrow_to_u16(&spec.port, report) {
            Some(p) => p,
            None => {
                assert(report_issues(*report) =~= start + server_lowering_issues(*spec));
                return None;
            },
        };
        let max_connections = match narrow_to_usize(&spec.max_connections, report) {
            Some(m) => m,
            None => {
                assert(report_issues(*report) =~= start + server_lowering_issues(*spec));
                return None;
            },
        };
        let log_level = match narrow_log_level(&spec.log_level, report) {
            Some(l) => l,
            None => {
                assert(report_issues(*report) =~= start + server_lowering_issues(*spec));
                return None;
            },
        };
        let backoff = match BackoffConfig::lower(&spec.backoff.value, report) {
            Some(b) => b,
            None => {
                assert(report_issues(*report) =~= start + server_lowering_issues(*spec));
                return None;
            },
        };
        assert(report_issues(*report) =~= start + server_lowering_issues(*spec));
        Some(ServerConfig { bind, port, max_connections, log_level, backoff })
    }
}

} // verus!
