//! Resolving a whole configuration: the service and the client settings
//! together, validated into one report and lowered when it holds no error.
//!
//! The rules are those of the service settings (`types::specification::
//! server_spec`): a non-empty hostname that forms a socket address with the
//! port, the port in `1..=65535`, at most 250 connections, a shutdown timeout
//! of at most an hour, a channel capacity in `1..=65536`, and a PID file under
//! an existing directory.

use vstd::prelude::*;

use crate::conf::address::SocketAddress;
use crate::conf::diagnostic::{
    holds_error, holds_warning, report_has_errors, report_has_warnings, report_issues, IssueView,
};
use crate::conf::constraints::range_issues;
use crate::conf::types::runtime::client_config::{
    client_lowering_issues, lemma_valid_client_spec_lowers, lowered_client, ClientConfig,
};
use crate::conf::types::runtime::server_config::{
    lowered_service, service_lowering_issues, ServerConfig,
};
use crate::conf::types::specification::client_spec::{
    client_issues, client_spec_valid, lemma_client_validation_accepts_exactly_valid_specs,
    ClientSpec,
};
use crate::conf::types::specification::server_spec::{
    hostname_address_issues, hostname_issues, pid_file_issues, pid_parent_checked, pid_probe_is,
    service_issues,
    service_range_issues, ServerSpec,
};
use crate::conf::validation::validator::path::probe_missing;
use crate::conf::constraints::secs_duration;
use crate::conf::types::runtime::server_config::pid_path;

verus! {

/// A resolved configuration, with the report kept when it holds warnings so
/// the caller can show them.
pub struct ResolvedConfig {
    /// The service settings.
    pub server: ServerConfig,
    /// The client settings.
    pub client: ClientConfig,
    /// The report, when it holds at least one warning.
    pub report: Option<confval::diagnostic::Report>,
}

/// Lowers the service and the client settings. `address` is what
/// `SocketAddr::from_str` reads from the text `"{hostname}:{port}"`, run by
/// the caller. The report comes back with the configuration when it holds a
/// warning, and with the lowering issue when a value does not narrow. Client
/// values a `usize` holds always lower, so for them the outcome rests on the
/// service settings alone.
pub fn lower_config(
    server_spec: &ServerSpec,
    client_spec: &ClientSpec,
    address: Option<SocketAddress>,
    report: confval::diagnostic::Report,
) -> (result: Result<ResolvedConfig, confval::diagnostic::Report>)
    ensures
        result is Ok <==> (lowered_service(*server_spec, address) is Some && lowered_client(
            *client_spec,
        ) is Some),
        (0 <= client_spec.read_buffer_bytes.value <= usize::MAX && 0
            <= client_spec.pub_sub_channel_capacity.value <= usize::MAX) ==> (result is Ok
            <==> lowered_service(*server_spec, address) is Some),
        result matches Ok(resolved) ==> resolved.client == (ClientConfig {
            read_buffer_bytes: client_spec.read_buffer_bytes.value as usize,
            pub_sub_channel_capacity: client_spec.pub_sub_channel_capacity.value as usize,
        }),
        result matches Ok(resolved) ==> {
            &&& Some(resolved.server) == lowered_service(*server_spec, address)
            &&& Some(resolved.client) == lowered_client(*client_spec)
            &&& (resolved.report is Some <==> holds_warning(report_issues(report)))
            &&& (resolved.report matches Some(kept) ==> report_issues(kept) == report_issues(report))
        },
        result matches Err(back) ==> report_issues(back) == report_issues(report)
            + service_lowering_issues(*server_spec, address) + if lowered_service(
            *server_spec,
            address,
        ) is Some {
            client_lowering_issues(*client_spec)
        } else {
            Seq::<IssueView>::empty()
        },
{
    let has_warnings = report_has_warnings(&report);
    let ghost start = report_issues(report);
    let mut report = report;
    let server = match ServerConfig::lower(server_spec, address, &mut report) {
        Some(server) => server,
        None => {
            assert(report_issues(report) =~= start + service_lowering_issues(*server_spec, address)
                + Seq::<IssueView>::empty());
            return Err(report);
        },
    };
    let client = match ClientConfig::lower(client_spec, &mut report) {
        Some(client) => client,
        None => {
            return Err(report);
        },
    };
    proof {
        assert(report_issues(report) =~= start);
    }
    Ok(ResolvedConfig { server, client, report: if has_warnings { Some(report) } else { None } })
}

/// Whether a resolution stopped with exactly the given issues when they hold
/// an error, and otherwise lowered both blocks.
pub open spec fn resolution_is(
    result: Result<ResolvedConfig, confval::diagnostic::Report>,
    issues: Seq<IssueView>,
    server_spec: ServerSpec,
    address: Option<SocketAddress>,
    client_spec: ClientSpec,
) -> bool {
    if holds_error(issues) {
        result matches Err(back) && report_issues(back) == issues
    } else {
        result matches Ok(resolved) && Some(resolved.server) == lowered_service(server_spec, address)
            && Some(resolved.client) == lowered_client(client_spec)
    }
}

/// An error among the issues of a concatenation is an error of one part.
proof fn lemma_holds_error_concat(a: Seq<IssueView>, b: Seq<IssueView>)
    ensures
        holds_error(a + b) == (holds_error(a) || holds_error(b)),
{
    if holds_error(a) {
        let i = choose|i: int| 0 <= i < a.len() && (#[trigger] a[i]).0;
        assert((a + b)[i] == a[i]);
    }
    if holds_error(b) {
        let i = choose|i: int| 0 <= i < b.len() && (#[trigger] b[i]).0;
        assert((a + b)[a.len() + i] == b[i]);
    }
    if holds_error(a + b) {
        let i = choose|i: int| 0 <= i < (a + b).len() && (#[trigger] (a + b)[i]).0;
        if i < a.len() {
            assert(a[i] == (a + b)[i]);
        } else {
            assert(b[i - a.len()] == (a + b)[i]);
        }
    }
}

/// A range check that records no error leaves the value inside the range.
proof fn lemma_clean_range(
    min: int,
    max: int,
    units: Option<Seq<char>>,
    help: Option<Seq<char>>,
    value: int,
    field: Seq<char>,
)
    requires
        !holds_error(range_issues(min, max, units, help, value, field)),
    ensures
        min <= value <= max,
{
    let issues = range_issues(min, max, units, help, value, field);
    if value < min || value > max {
        assert(issues[0].0);
    }
}

/// When the issues of both blocks, after any earlier ones, hold no error, both
/// blocks keep their rules and lower.
proof fn lemma_clean_report_means_valid_blocks(
    all: Seq<IssueView>,
    server_spec: ServerSpec,
    address: Option<SocketAddress>,
    missing: bool,
    client_spec: ClientSpec,
)
    requires
        exists|earlier: Seq<IssueView>|
            all == earlier + service_issues(server_spec, address, missing) + client_issues(
                client_spec,
            ),
        !holds_error(all),
    ensures
        lowered_service(server_spec, address) is Some,
        lowered_client(client_spec) is Some,
{
    let earlier = choose|earlier: Seq<IssueView>|
        all == earlier + service_issues(server_spec, address, missing) + client_issues(client_spec);
    let host = server_spec.hostname.value@;
    let h = hostname_issues(host);
    let ha = hostname_address_issues(host, address);
    let r = service_range_issues(server_spec);
    let service = service_issues(server_spec, address, missing);
    lemma_holds_error_concat(earlier + service, client_issues(client_spec));
    lemma_holds_error_concat(earlier, service);
    let p = service.subrange((h.len() + ha.len() + r.len()) as int, service.len() as int);
    assert(service =~= h + ha + r + p);
    lemma_holds_error_concat(h + ha + r, p);
    lemma_holds_error_concat(h + ha, r);
    lemma_holds_error_concat(h, ha);
    if host.len() == 0 {
        assert(h[0].0);
    }
    if address is None {
        assert(ha[0].0);
    }
    let port = range_issues(1, 65535, None, None, server_spec.port.value as int, "port"@);
    let max = range_issues(
        1,
        250,
        None,
        Some("A friendly reminder that this is not a production server ;)"@),
        server_spec.max_connections.value as int,
        "max_connections"@,
    );
    let timeout = range_issues(
        1,
        3600,
        Some("s"@),
        Some("Keep this under an hour for responsive shutdowns."@),
        server_spec.shutdown_timeout_secs.value as int,
        "shutdown_timeout_secs"@,
    );
    let capacity = range_issues(
        1,
        65536,
        None,
        Some("Large capacities hold more messages for slow subscribers but use more memory."@),
        server_spec.pub_sub_channel_capacity.value as int,
        "pub_sub_channel_capacity"@,
    );
    lemma_holds_error_concat(port + max + timeout, capacity);
    lemma_holds_error_concat(port + max, timeout);
    lemma_holds_error_concat(port, max);
    lemma_clean_range(
        1,
        250,
        None,
        Some("A friendly reminder that this is not a production server ;)"@),
        server_spec.max_connections.value as int,
        "max_connections"@,
    );
    lemma_clean_range(
        1,
        3600,
        Some("s"@),
        Some("Keep this under an hour for responsive shutdowns."@),
        server_spec.shutdown_timeout_secs.value as int,
        "shutdown_timeout_secs"@,
    );
    lemma_clean_range(
        1,
        65536,
        None,
        Some("Large capacities hold more messages for slow subscribers but use more memory."@),
        server_spec.pub_sub_channel_capacity.value as int,
        "pub_sub_channel_capacity"@,
    );
    lemma_client_validation_accepts_exactly_valid_specs(client_spec);
    let client = client_issues(client_spec);
    if !client_spec_valid(client_spec) {
        assert(client[0].0);
    }
    lemma_valid_client_spec_lowers(client_spec);
}

/// Whether the service settings keep every rule, given the socket address
/// read from the hostname and the port, and whether the PID file's parent
/// directory was found missing.
pub open spec fn service_spec_valid(
    spec: ServerSpec,
    address: Option<SocketAddress>,
    pid_parent_missing: bool,
) -> bool {
    &&& spec.hostname.value@.len() > 0
    &&& address is Some
    &&& 1 <= spec.port.value <= 65535
    &&& 1 <= spec.max_connections.value <= 250
    &&& 1 <= spec.shutdown_timeout_secs.value <= 3600
    &&& 1 <= spec.pub_sub_channel_capacity.value <= 65536
    &&& !(spec.pid_file is Some && pid_parent_missing)
}

/// A resolution goes on to lowering exactly when no earlier issue is an error
/// and both blocks keep every rule; the service settings then lower to their
/// own values, with the address that was read.
pub proof fn lemma_resolution_accepts_exactly_valid_specs(
    earlier: Seq<IssueView>,
    server_spec: ServerSpec,
    address: Option<SocketAddress>,
    missing: bool,
    client_spec: ClientSpec,
)
    ensures
        !holds_error(earlier + service_issues(server_spec, address, missing) + client_issues(
            client_spec,
        )) <==> (!holds_error(earlier) && service_spec_valid(server_spec, address, missing)
            && client_spec_valid(client_spec)),
        service_spec_valid(server_spec, address, missing) ==> lowered_service(server_spec, address)
            == Some(
            ServerConfig {
                addr: address.unwrap(),
                max_connections: server_spec.max_connections.value as usize,
                shutdown_timeout: secs_duration(server_spec.shutdown_timeout_secs.value),
                pub_sub_channel_capacity: server_spec.pub_sub_channel_capacity.value as usize,
                pid_file: pid_path(server_spec.pid_file),
            },
        ),
{
    let host = server_spec.hostname.value@;
    let h = hostname_issues(host);
    let ha = hostname_address_issues(host, address);
    let r = service_range_issues(server_spec);
    let p = pid_file_issues(server_spec.pid_file, missing);
    let service = service_issues(server_spec, address, missing);
    let client = client_issues(client_spec);
    assert(service =~= h + ha + r + p);
    lemma_holds_error_concat(earlier + service, client);
    lemma_holds_error_concat(earlier, service);
    lemma_holds_error_concat(h + ha + r, p);
    lemma_holds_error_concat(h + ha, r);
    lemma_holds_error_concat(h, ha);
    let port = range_issues(1, 65535, None, None, server_spec.port.value as int, "port"@);
    let max = range_issues(
        1,
        250,
        None,
        Some("A friendly reminder that this is not a production server ;)"@),
        server_spec.max_connections.value as int,
        "max_connections"@,
    );
    let timeout = range_issues(
        1,
        3600,
        Some("s"@),
        Some("Keep this under an hour for responsive shutdowns."@),
        server_spec.shutdown_timeout_secs.value as int,
        "shutdown_timeout_secs"@,
    );
    let capacity = range_issues(
        1,
        65536,
        None,
        Some("Large capacities hold more messages for slow subscribers but use more memory."@),
        server_spec.pub_sub_channel_capacity.value as int,
        "pub_sub_channel_capacity"@,
    );
    lemma_holds_error_concat(port + max + timeout, capacity);
    lemma_holds_error_concat(port + max, timeout);
    lemma_holds_error_concat(port, max);
    if host.len() == 0 {
        assert(h[0].0);
    }
    if host.len() > 0 && address is None {
        assert(ha[0].0);
    }
    if server_spec.pid_file is Some && missing {
        assert(p[0].0);
    }
    if !(1 <= server_spec.port.value <= 65535) {
        assert(port[0].0);
    }
    if !(1 <= server_spec.max_connections.value <= 250) {
        assert(max[0].0);
    }
    if !(1 <= server_spec.shutdown_timeout_secs.value <= 3600) {
        assert(timeout[0].0);
    }
    if !(1 <= server_spec.pub_sub_channel_capacity.value <= 65536) {
        assert(capacity[0].0);
    }
    lemma_client_validation_accepts_exactly_valid_specs(client_spec);
    if !client_spec_valid(client_spec) {
        assert(client[0].0);
    }
}

/// Validates both blocks into the report, stops while the report holds an
/// error, and lowers both blocks otherwise.
///
/// `address` is what `SocketAddr::from_str` reads from the text
/// `"{hostname}:{port}"` of the service settings, run by the caller. Values
/// given on the command line are written over the spec before this call (see
/// `ConfigOverrides::apply`). Whether the PID file's parent directory exists
/// is read from the disk, so the outcome is stated for whichever answer came
/// back: missing only for a PID file with a non-empty parent, and then only
/// when a look at the disk found that parent absent.
pub fn load_config(
    server_spec: ServerSpec,
    client_spec: ClientSpec,
    address: Option<SocketAddress>,
    report: confval::diagnostic::Report,
) -> (result: Result<ResolvedConfig, confval::diagnostic::Report>)
    ensures
        exists|missing: bool|
            (missing ==> pid_parent_checked(server_spec)) && #[trigger] resolution_is(
                result,
                report_issues(report) + service_issues(server_spec, address, missing)
                    + client_issues(client_spec),
                server_spec,
                address,
                client_spec,
            ),
        exists|probe: Option<(String, bool)>|
            pid_probe_is(server_spec, probe) && #[trigger] resolution_is(
                result,
                report_issues(report) + service_issues(server_spec, address, probe_missing(probe))
                    + client_issues(client_spec),
                server_spec,
                address,
                client_spec,
            ),
{
    let ghost start = report_issues(report);
    let mut report = report;
    let probe = server_spec.validate_all(address, &mut report);
    client_spec.validate_all(&mut report);
    let ghost missing = probe_missing(probe);
    let ghost issues = start + service_issues(server_spec, address, missing) + client_issues(
        client_spec,
    );
    assert(report_issues(report) == issues);
    if report_has_errors(&report) {
        assert(resolution_is(Err(report), issues, server_spec, address, client_spec));
        return Err(report);
    }
    proof {
        lemma_clean_report_means_valid_blocks(
            report_issues(report),
            server_spec,
            address,
            missing,
            client_spec,
        );
    }
    let result = lower_config(&server_spec, &client_spec, address, report);
    assert(resolution_is(result, issues, server_spec, address, client_spec));
    result
}

} // verus!
