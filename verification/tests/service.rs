use confval::diagnostic::Report;
use mini_redis::conf::types::specification::server_spec::ServerSpec;
use mini_redis::conf::validation::validator::net::{check_ip_addr, narrow_ip_addr};
use mini_redis::conf::validation::validator::path::parent_exists;
use mini_redis::conf::{IpAddress, SocketAddress, Spanned};

fn localhost() -> Option<SocketAddress> {
    Some(SocketAddress { ip: IpAddress::V4(127, 0, 0, 1), port: 6379, scope_id: 0 })
}

#[test]
fn the_service_defaults_pass() {
    let spec = ServerSpec::default();
    let mut report = Report::new();

    let probe = spec.validate_all(localhost(), &mut report);

    assert!(!report.has_issues());
    assert!(probe.is_none());
    assert_eq!(spec.hostname.value, "127.0.0.1");
    assert_eq!(spec.shutdown_timeout_secs.value, 30);
    assert_eq!(spec.pub_sub_channel_capacity.value, 1024);
    assert!(spec.pid_file.is_none());
}

#[test]
fn an_empty_hostname_and_bad_ranges_are_all_reported() {
    let mut spec = ServerSpec::default();
    spec.hostname = Spanned::detached(String::new());
    spec.max_connections = Spanned::detached(251);
    spec.shutdown_timeout_secs = Spanned::detached(0);
    let mut report = Report::new();

    spec.validate_all(localhost(), &mut report);

    let messages: Vec<&str> = report.issues().iter().map(|i| i.message.as_str()).collect();
    assert_eq!(
        messages,
        vec![
            "hostname cannot be empty",
            "max_connections must be at most 250",
            "shutdown_timeout_secs must be at least 1",
        ]
    );
    assert_eq!(
        report.issues()[1].help.as_deref(),
        Some("A friendly reminder that this is not a production server ;)")
    );
}

#[test]
fn a_pid_file_under_a_missing_directory_is_reported() {
    let mut spec = ServerSpec::default();
    spec.pid_file = Some(Spanned::detached(
        "/no/such/directory/mini-redis.pid".to_string(),
    ));
    let mut report = Report::new();

    let probe = spec.validate_all(localhost(), &mut report);

    assert_eq!(probe, Some(("/no/such/directory".to_string(), false)));
    assert_eq!(report.issues().len(), 1);
    assert_eq!(
        report.issues()[0].message,
        "pid_file parent directory does not exist: /no/such/directory/mini-redis.pid"
    );
}

#[test]
fn a_pid_file_under_an_existing_directory_or_with_no_directory_passes() {
    let mut report = Report::new();

    let under_tmp =
        parent_exists(&Spanned::detached("/tmp/mini-redis.pid".to_string()), "pid_file", &mut report);
    let bare = parent_exists(&Spanned::detached("mini-redis.pid".to_string()), "pid_file", &mut report);
    let root = parent_exists(&Spanned::detached("/".to_string()), "pid_file", &mut report);

    assert!(!report.has_issues());
    assert_eq!(under_tmp, Some(("/tmp".to_string(), true)));
    assert_eq!(bare, None);
    assert_eq!(root, None);
}

#[test]
fn the_address_check_names_the_field() {
    let mut report = Report::new();

    check_ip_addr(&Spanned::detached("127.0.0.1".to_string()), "bind", &mut report);
    check_ip_addr(&Spanned::detached("256.0.0.1".to_string()), "bind", &mut report);

    assert_eq!(report.issues().len(), 1);
    assert_eq!(report.issues()[0].message, "bind must be an IP address");
    assert_eq!(
        report.issues()[0].help.as_deref(),
        Some("Write an IPv4 or an IPv6 literal, such as 127.0.0.1 or ::1")
    );
}

#[test]
fn narrowing_an_address_keeps_the_literal() {
    let mut report = Report::new();

    assert_eq!(
        narrow_ip_addr(&Spanned::detached("::1".to_string()), &mut report),
        Some("::1".to_string())
    );
    assert_eq!(narrow_ip_addr(&Spanned::detached("host".to_string()), &mut report), None);
    assert_eq!(report.issues().len(), 1);
    assert_eq!(report.issues()[0].message, "bind is not an IP address");
}

#[test]
fn a_hostname_that_is_not_an_address_is_reported() {
    let mut spec = ServerSpec::default();
    spec.hostname = Spanned::detached("localhost".to_string());
    let mut report = Report::new();

    spec.validate_all(None, &mut report);

    assert_eq!(report.issues().len(), 1);
    assert_eq!(report.issues()[0].message, "hostname and port do not form a socket address");
    assert_eq!(
        report.issues()[0].help.as_deref(),
        Some("Set hostname to an IPv4 address, or to an IPv6 address in brackets.")
    );
}

#[test]
fn an_empty_hostname_is_not_also_checked_as_an_address() {
    let mut spec = ServerSpec::default();
    spec.hostname = Spanned::detached(String::new());
    let mut report = Report::new();

    spec.validate_all(None, &mut report);

    assert_eq!(report.issues().len(), 1);
    assert_eq!(report.issues()[0].message, "hostname cannot be empty");
}

#[test]
fn the_address_check_accepts_both_families_and_refuses_names() {
    let mut report = Report::new();

    check_ip_addr(&Spanned::detached("::1".to_string()), "bind", &mut report);
    check_ip_addr(&Spanned::detached("127.0.0.1".to_string()), "bind", &mut report);
    assert!(!report.has_issues());

    check_ip_addr(&Spanned::detached("localhost".to_string()), "bind", &mut report);
    assert_eq!(report.issues().len(), 1);
    assert_eq!(report.issues()[0].span, None);
}

#[test]
fn an_issue_points_at_the_value_it_is_about() {
    let mut sources = confval::source::SourceMap::new();
    let id = sources.add("server.toml", "bind = \"localhost\"\n");
    let span = confval::source::Span::new(id, 7, 18);
    let mut report = Report::new();

    check_ip_addr(&Spanned::new("localhost".to_string(), span), "bind", &mut report);
    narrow_ip_addr(&Spanned::new("localhost".to_string(), span), &mut report);

    assert_eq!(report.issues().len(), 2);
    assert_eq!(report.issues()[0].span, Some(span));
    assert_eq!(report.issues()[1].span, Some(span));
}

#[test]
fn the_backoff_rule_points_at_both_values() {
    let mut sources = confval::source::SourceMap::new();
    let id = sources.add("server.toml", "initial_seconds = 9\nmax_seconds = 3\n");
    let initial = confval::source::Span::new(id, 18, 19);
    let max = confval::source::Span::new(id, 34, 35);
    let spec = mini_redis::conf::BackoffSpec {
        initial_seconds: Spanned::new(9, initial),
        max_seconds: Spanned::new(3, max),
    };
    let mut report = Report::new();

    spec.validate(&mut report);

    assert_eq!(report.issues().len(), 1);
    assert_eq!(report.issues()[0].span, Some(initial));
    assert_eq!(
        report.issues()[0].related,
        vec![(max, "max_seconds declared here".to_string())]
    );
}

#[test]
fn a_missing_parent_is_reported_at_the_path() {
    let mut sources = confval::source::SourceMap::new();
    let id = sources.add("server.toml", "pid_file = \"/no/such/dir/x.pid\"\n");
    let span = confval::source::Span::new(id, 11, 31);
    let mut report = Report::new();

    let probe = parent_exists(
        &Spanned::new("/no/such/dir/x.pid".to_string(), span),
        "pid_file",
        &mut report,
    );

    assert_eq!(probe, Some(("/no/such/dir".to_string(), false)));
    assert_eq!(report.issues()[0].span, Some(span));
}

#[test]
fn every_server_issue_points_at_its_value() {
    let mut sources = confval::source::SourceMap::new();
    let id = sources.add("server.toml", "port = 0\nlog_level = \"loud\"\n");
    let port = confval::source::Span::new(id, 7, 8);
    let level = confval::source::Span::new(id, 21, 27);
    let spec = mini_redis::conf::ServerSpec {
        bind: Spanned::detached("127.0.0.1".to_string()),
        port: Spanned::new(0, port),
        max_connections: Spanned::detached(250),
        log_level: Spanned::new("loud".to_string(), level),
        backoff: Spanned::detached(mini_redis::conf::BackoffSpec {
            initial_seconds: Spanned::detached(1),
            max_seconds: Spanned::detached(64),
        }),
    };
    let mut report = Report::new();

    spec.validate_all(&mut report);

    assert_eq!(report.issues().len(), 2);
    assert_eq!(report.issues()[0].span, Some(port));
    assert_eq!(report.issues()[1].span, Some(level));
}
