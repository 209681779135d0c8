//! The service settings of the server: where it listens, how many clients it
//! serves, how long it takes to shut down, how much each pub/sub channel
//! holds, and where it writes its PID file.

use vstd::prelude::*;

use crate::conf::constraints::{check_range, range_issues};
use crate::conf::diagnostic::{
    emit_error, error_issue, located_at_each, report_issues, report_locations, IssueView,
    LocationView,
};
use crate::conf::defaults::{BIND_ADDRESS, MAX_CONNECTIONS, PORT};
use crate::conf::spanned::Spanned;
use crate::conf::address::SocketAddress;
use crate::conf::validation::validator::net::{socket_address_issues, to_socket_addr};
use crate::conf::validation::validator::path::{
    has_checked_parent, missing_parent_issues, parent_exists, path_parent_of, probe_from_disk,
    probe_missing,
};

verus! {

/// The capacity of each pub/sub channel when the file omits it.
pub const DEFAULT_PUB_SUB_CHANNEL_CAPACITY: usize = 1024usize;

/// The seconds the server waits for connections on shutdown when the file
/// omits it.
pub const DEFAULT_SHUTDOWN_TIMEOUT_SECS: i64 = 30i64;

/// The service settings.
pub struct ServerSpec {
    /// The address the listener binds to.
    pub hostname: Spanned<String>,
    /// The port the listener accepts connections on.
    pub port: Spanned<i64>,
    /// Maximum number of concurrent connections the redis server will accept.
    ///
    /// When this limit is reached, the server will stop accepting connections until
    /// an active connection terminates.
    pub max_connections: Spanned<i64>,
    /// Seconds the server waits for connections to finish when it shuts down.
    pub shutdown_timeout_secs: Spanned<i64>,
    /// Capacity of each pub/sub broadcast channel. A message is stored in the
    /// channel until all subscribers have seen it, so a slow subscriber could
    /// result in messages being held indefinitely. When the channel's capacity
    /// fills up, publishing will result in old messages being dropped. This
    /// prevents slow consumers from blocking the entire system.
    pub pub_sub_channel_capacity: Spanned<i64>,
    /// Path to write the server's PID file. Used by operators to send signals
    /// (e.g. `kill -HUP $(cat /tmp/mini-redis.pid)` for hot reload).
    /// Set to `None` to disable PID file creation.
    pub pid_file: Option<Spanned<String>>,
}

/// The issue the hostname rule records: one when the hostname is empty.
pub open spec fn hostname_issues(hostname: Seq<char>) -> Seq<IssueView> {
    if hostname.len() == 0 {
        seq![
            error_issue(
                "hostname cannot be empty"@,
                Some("Set hostname to a valid DNS name or IP address."@),
            ),
        ]
    } else {
        Seq::empty()
    }
}

/// The issues of the four ranges: the port in `1..=65535`, the connections in
/// `1..=250`, the shutdown timeout in `1..=3600` seconds, and the channel
/// capacity in `1..=65536`.
pub open spec fn service_range_issues(spec: ServerSpec) -> Seq<IssueView> {
    range_issues(1, 65535, None, None, spec.port.value as int, "port"@) + range_issues(
        1,
        250,
        None,
        Some("A friendly reminder that this is not a production server ;)"@),
        spec.max_connections.value as int,
        "max_connections"@,
    ) + range_issues(
        1,
        3600,
        Some("s"@),
        Some("Keep this under an hour for responsive shutdowns."@),
        spec.shutdown_timeout_secs.value as int,
        "shutdown_timeout_secs"@,
    ) + range_issues(
        1,
        65536,
        None,
        Some("Large capacities hold more messages for slow subscribers but use more memory."@),
        spec.pub_sub_channel_capacity.value as int,
        "pub_sub_channel_capacity"@,
    )
}

/// The issue of the PID file rule, given whether its parent directory was
/// found missing.
pub open spec fn pid_file_issues(pid_file: Option<Spanned<String>>, missing: bool) -> Seq<
    IssueView,
> {
    match pid_file {
        Some(path) => missing_parent_issues(path.value@, "pid_file"@, missing),
        None => Seq::empty(),
    }
}

/// The issue of the socket address rule: a non-empty hostname must form a
/// socket address with the port.
pub open spec fn hostname_address_issues(hostname: Seq<char>, address: Option<SocketAddress>) -> Seq<
    IssueView,
> {
    if hostname.len() > 0 {
        socket_address_issues(address)
    } else {
        Seq::empty()
    }
}

/// Every issue validating the service settings records, given the socket
/// address read from the hostname and the port, and whether the PID file's
/// parent directory was found missing.
pub open spec fn service_issues(
    spec: ServerSpec,
    address: Option<SocketAddress>,
    pid_parent_missing: bool,
) -> Seq<IssueView> {
    hostname_issues(spec.hostname.value@) + hostname_address_issues(spec.hostname.value@, address)
        + service_range_issues(spec) + pid_file_issues(spec.pid_file, pid_parent_missing)
}

/// Where the issues of the four ranges point: each at the span of its value.
pub open spec fn service_range_locations(spec: ServerSpec) -> Seq<LocationView> {
    located_at_each(
        spec.port.span,
        range_issues(1, 65535, None, None, spec.port.value as int, "port"@).len(),
    ) + located_at_each(
        spec.max_connections.span,
        range_issues(
            1,
            250,
            None,
            Some("A friendly reminder that this is not a production server ;)"@),
            spec.max_connections.value as int,
            "max_connections"@,
        ).len(),
    ) + located_at_each(
        spec.shutdown_timeout_secs.span,
        range_issues(
            1,
            3600,
            Some("s"@),
            Some("Keep this under an hour for responsive shutdowns."@),
            spec.shutdown_timeout_secs.value as int,
            "shutdown_timeout_secs"@,
        ).len(),
    ) + located_at_each(
        spec.pub_sub_channel_capacity.span,
        range_issues(
            1,
            65536,
            None,
            Some("Large capacities hold more messages for slow subscribers but use more memory."@),
            spec.pub_sub_channel_capacity.value as int,
            "pub_sub_channel_capacity"@,
        ).len(),
    )
}

/// Where the issues of the service settings point, in the order they are
/// recorded: each at the span of the value it is about.
pub open spec fn service_locations(
    spec: ServerSpec,
    address: Option<SocketAddress>,
    pid_parent_missing: bool,
) -> Seq<LocationView> {
    located_at_each(
        spec.hostname.span,
        (hostname_issues(spec.hostname.value@) + hostname_address_issues(
            spec.hostname.value@,
            address,
        )).len(),
    ) + service_range_locations(spec) + match spec.pid_file {
        Some(path) => located_at_each(
            path.span,
            missing_parent_issues(path.value@, "pid_file"@, pid_parent_missing).len(),
        ),
        None => Seq::empty(),
    }
}

/// Whether the PID file names a path with a non-empty parent, the only kind
/// whose parent is looked up on disk.
pub open spec fn pid_parent_checked(spec: ServerSpec) -> bool {
    spec.pid_file matches Some(path) && has_checked_parent(path.value@)
}

/// What validation states of the probe of the PID file's parent directory:
/// one is made exactly for a PID file with a non-empty parent, it looks at
/// that parent, and its answer is what a look at the disk found there.
pub open spec fn pid_probe_is(spec: ServerSpec, probe: Option<(String, bool)>) -> bool {
    &&& (probe is Some <==> pid_parent_checked(spec))
    &&& probe_from_disk(probe)
    &&& (probe matches Some((probed, _)) ==> spec.pid_file matches Some(path) && path_parent_of(
        path.value@,
    ) == Some(probed@))
}

impl ServerSpec {
    /// The declared defaults, each with no source position; no PID file.
    pub fn default() -> (spec: Self)
        ensures
            spec.hostname.value@ == "127.0.0.1"@,
            spec.port.value == 6379,
            spec.max_connections.value == 250,
            spec.shutdown_timeout_secs.value == 30,
            spec.pub_sub_channel_capacity.value == DEFAULT_PUB_SUB_CHANNEL_CAPACITY,
            spec.pid_file is None,
    {
        ServerSpec {
            hostname: Spanned::detached(String::from_str(BIND_ADDRESS)),
            port: Spanned::detached(PORT),
            max_connections: Spanned::detached(MAX_CONNECTIONS),
            shutdown_timeout_secs: Spanned::detached(DEFAULT_SHUTDOWN_TIMEOUT_SECS),
            pub_sub_channel_capacity: Spanned::detached(1024),
            pid_file: None,
        }
    }

    /// The four ranges, each checked at its value's span.
    fn check_ranges(&self, report: &mut confval::diagnostic::Report)
        ensures
            report_issues(*final(report)) == report_issues(*old(report)) + service_range_issues(
                *self,
            ),
            report_locations(*final(report)) == report_locations(*old(report))
                + service_range_locations(*self),
    {
        check_range(1, 65535, None, None, &self.port, "port", report);
        check_range(
            1,
            250,
            None,
            Some("A friendly reminder that this is not a production server ;)"),
            &self.max_connections,
            "max_connections",
            report,
        );
        check_range(
            1,
            3600,
            Some("s"),
            Some("Keep this under an hour for responsive shutdowns."),
            &self.shutdown_timeout_secs,
            "shutdown_timeout_secs",
            report,
        );
        check_range(
            1,
            65536,
            None,
            Some("Large capacities hold more messages for slow subscribers but use more memory."),
            &self.pub_sub_channel_capacity,
            "pub_sub_channel_capacity",
            report,
        );
        assert(report_issues(*report) =~= report_issues(*old(report)) + service_range_issues(
            *self,
        ));
        assert(report_locations(*report) =~= report_locations(*old(report))
            + service_range_locations(*self));
    }

    /// Checks every setting, each rule appending to the same report.
    ///
    /// `address` is what `SocketAddr::from_str` reads from the text
    /// `"{hostname}:{port}"`, run by the caller; a non-empty hostname must form
    /// one. Whether the PID file's parent exists is read from the disk: the
    /// probe comes back, and the report gains the missing-parent error exactly
    /// when the probe found the parent missing.
    pub fn validate(
        &self,
        address: Option<SocketAddress>,
        report: &mut confval::diagnostic::Report,
    ) -> (probe: Option<(String, bool)>)
        ensures
            pid_probe_is(*self, probe),
            report_issues(*final(report)) == report_issues(*old(report)) + service_issues(
                *self,
                address,
                probe_missing(probe),
            ),
            report_locations(*final(report)) == report_locations(*old(report)) + service_locations(
                *self,
                address,
                probe_missing(probe),
            ),
    {
        let ghost start = report_issues(*report);
        let ghost start_at = report_locations(*report);
        if self.hostname.value.as_str().is_empty() {
            emit_error(
                report,
                String::from_str("hostname cannot be empty"),
                self.hostname.span,
                String::from_str("Set hostname to a valid DNS name or IP address."),
            );
        } else {
            // The parsed value is discarded; lowering checks it again.
            let _ = to_socket_addr(&self.hostname, address, report);
        }
        assert(report_issues(*report) =~= start + hostname_issues(self.hostname.value@)
            + hostname_address_issues(self.hostname.value@, address));
        assert(report_locations(*report) =~= start_at + located_at_each(
            self.hostname.span,
            (hostname_issues(self.hostname.value@) + hostname_address_issues(
                self.hostname.value@,
                address,
            )).len(),
        ));
        self.check_ranges(report);
        let ghost checked = report_issues(*report);
        assert(checked =~= start + hostname_issues(self.hostname.value@) + hostname_address_issues(
            self.hostname.value@,
            address,
        ) + service_range_issues(*self));
        match &self.pid_file {
            Some(pid_file) => {
                let probe = parent_exists(pid_file, "pid_file", report);
                assert(report_issues(*report) =~= start + service_issues(
                    *self,
                    address,
                    probe_missing(probe),
                ));
                assert(report_locations(*report) =~= start_at + service_locations(
                    *self,
                    address,
                    probe_missing(probe),
                ));
                probe
            },
            None => {
                assert(report_issues(*report) =~= start + service_issues(*self, address, false));
                assert(report_locations(*report) =~= start_at + service_locations(
                    *self,
                    address,
                    false,
                ));
                None
            },
        }
    }

    /// Every rule of the service settings; the block has no nested blocks.
    pub fn validate_all(
        &self,
        address: Option<SocketAddress>,
        report: &mut confval::diagnostic::Report,
    ) -> (probe: Option<(String, bool)>)
        ensures
            pid_probe_is(*self, probe),
            report_issues(*final(report)) == report_issues(*old(report)) + service_issues(
                *self,
                address,
                probe_missing(probe),
            ),
            report_locations(*final(report)) == report_locations(*old(report)) + service_locations(
                *self,
                address,
                probe_missing(probe),
            ),
    {
        self.validate(address, report)
    }
}

} // verus!
