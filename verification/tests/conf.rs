use confval::diagnostic::Report;
use confval::source::SourceMap;
use mini_redis::conf::types::runtime::server_config::ServerConfig as Service;
use mini_redis::conf::types::specification::server_spec::ServerSpec as ServiceSpec;
use mini_redis::conf::{
    classify_config_change, defaults, load_parsed, BackoffSpec, ClientConfig, ClientSpec,
    ConfigChange, ConfigOverrides, IpAddress, LoadError, LogLevel, ServerConfig, ServerSpec,
    SocketAddress, Spanned,
};
use std::time::Duration;

fn spec(
    bind: &str,
    port: i64,
    max_connections: i64,
    log_level: &str,
    initial: i64,
    max: i64,
) -> ServerSpec {
    ServerSpec {
        bind: Spanned::detached(bind.to_string()),
        port: Spanned::detached(port),
        max_connections: Spanned::detached(max_connections),
        log_level: Spanned::detached(log_level.to_string()),
        backoff: Spanned::detached(BackoffSpec {
            initial_seconds: Spanned::detached(initial),
            max_seconds: Spanned::detached(max),
        }),
    }
}

fn load(spec: ServerSpec) -> Result<ServerConfig, LoadError> {
    load_parsed(Some(spec), Report::new(), &SourceMap::new())
}

fn messages_of(error: &LoadError) -> Vec<String> {
    match error {
        LoadError::Invalid { messages, .. } => messages.clone(),
        LoadError::Read { .. } => panic!("expected an invalid configuration, found {:?}", error),
    }
}

#[test]
fn the_declared_defaults_lower_without_a_file() {
    // Arrange
    let expected_bind = "127.0.0.1";

    // Act
    let config = defaults().expect("the declared defaults are valid");

    // Assert
    assert_eq!(config.bind, expected_bind);
    assert_eq!(config.port, 6379);
    assert_eq!(config.max_connections, 250);
    assert_eq!(config.log_level, LogLevel::Info);
    assert_eq!(config.backoff.initial, Duration::from_secs(1));
    assert_eq!(config.backoff.max, Duration::from_secs(64));
}

#[test]
fn a_complete_spec_lowers_to_the_runtime_values() {
    let config = load(spec("0.0.0.0", 7777, 32, "debug", 2, 16)).expect("the spec is valid");

    assert_eq!(config.bind, "0.0.0.0");
    assert_eq!(config.port, 7777);
    assert_eq!(config.max_connections, 32);
    assert_eq!(config.log_level, LogLevel::Debug);
    assert_eq!(config.backoff.initial, Duration::from_secs(2));
    assert_eq!(config.backoff.max, Duration::from_secs(16));
}

#[test]
fn a_spec_with_only_the_port_changed_keeps_the_other_defaults() {
    let mut spec = ServerSpec::default();
    spec.port = Spanned::detached(7000);

    let config = load(spec).expect("the spec is valid");

    assert_eq!(config.port, 7000);
    assert_eq!(config.bind, "127.0.0.1");
    assert_eq!(config.max_connections, 250);
    assert_eq!(config.log_level, LogLevel::Info);
    assert_eq!(config.backoff.initial, Duration::from_secs(1));
    assert_eq!(config.backoff.max, Duration::from_secs(64));
}

#[test]
fn an_ipv6_bind_address_is_accepted() {
    let config = load(spec("::1", 6379, 250, "warn", 1, 64)).expect("the spec is valid");

    assert_eq!(config.bind, "::1");
    assert_eq!(config.log_level, LogLevel::Warn);
}

#[test]
fn a_bad_spec_reports_every_problem_at_once() {
    let error = load(spec("localhost", 0, 100000, "verbose", 10, 5))
        .expect_err("the spec is not valid");

    let messages = messages_of(&error);
    assert_eq!(
        messages,
        vec![
            "port must be at least 1".to_string(),
            "max_connections must be at most 65536".to_string(),
            "unknown log_level: verbose".to_string(),
            "bind must be an IP address".to_string(),
            "initial_seconds must not be greater than max_seconds".to_string(),
        ]
    );
}

#[test]
fn each_backoff_value_is_checked_against_its_range() {
    let error = load(spec("127.0.0.1", 6379, 250, "info", 0, 4000)).expect_err("out of range");

    assert_eq!(
        messages_of(&error),
        vec![
            "initial_seconds must be at least 1".to_string(),
            "max_seconds must be at most 3600".to_string(),
        ]
    );
}

#[test]
fn an_absent_spec_reports_what_parsing_recorded() {
    let mut report = Report::new();
    report.error("expected a value").emit();

    let error = load_parsed(None, report, &SourceMap::new()).expect_err("nothing was parsed");

    assert_eq!(messages_of(&error), vec!["expected a value".to_string()]);
}

#[test]
fn a_parse_error_stops_the_load_even_with_a_spec() {
    let mut report = Report::new();
    report.error("port must be an integer").emit();

    let error = load_parsed(Some(ServerSpec::default()), report, &SourceMap::new())
        .expect_err("parsing recorded an error");

    assert_eq!(messages_of(&error), vec!["port must be an integer".to_string()]);
}

#[test]
fn a_warning_from_parsing_does_not_stop_the_load() {
    let mut report = Report::new();
    report.warning("deprecated key").emit();

    let config = load_parsed(Some(ServerSpec::default()), report, &SourceMap::new())
        .expect("a warning is not an error");

    assert_eq!(config.port, 6379);
}

#[test]
fn the_range_checks_write_their_help_lines() {
    let mut report = Report::new();
    spec("127.0.0.1", 70000, 250, "info", 1, 5000).validate_all(&mut report);

    let issues = report.issues();
    assert_eq!(issues.len(), 2);
    assert_eq!(issues[0].message, "port must be at most 65535");
    assert_eq!(issues[0].help.as_deref(), Some("Set port to at most 65535"));
    assert_eq!(issues[1].message, "max_seconds must be at most 3600");
    assert_eq!(
        issues[1].help.as_deref(),
        Some("Set max_seconds to at most 3600 seconds")
    );
}

#[test]
fn an_unknown_log_level_lists_the_keywords() {
    let mut report = Report::new();
    spec("127.0.0.1", 6379, 250, "loud", 1, 64).validate_all(&mut report);

    let issues = report.issues();
    assert_eq!(issues.len(), 1);
    assert_eq!(issues[0].message, "unknown log_level: loud");
    assert_eq!(
        issues[0].help.as_deref(),
        Some("expected one of: trace, debug, info, warn, error")
    );
}

#[test]
fn lowering_an_unchecked_port_reports_the_narrowing() {
    let mut report = Report::new();

    let lowered = ServerConfig::lower(&spec("127.0.0.1", 70000, 250, "info", 1, 64), &mut report);

    assert!(lowered.is_none());
    assert_eq!(report.issues().len(), 1);
    assert_eq!(report.issues()[0].message, "value 70000 is out of range for u16");
}

#[test]
fn lowering_stops_at_the_first_value_that_does_not_narrow() {
    let mut report = Report::new();

    let lowered = ServerConfig::lower(&spec("nowhere", -1, -1, "loud", -1, -1), &mut report);

    assert!(lowered.is_none());
    assert_eq!(report.issues().len(), 1);
    assert_eq!(report.issues()[0].message, "bind is not an IP address");
}

#[test]
fn lowering_a_negative_backoff_names_the_wider_type() {
    let mut report = Report::new();

    let lowered = ServerConfig::lower(&spec("127.0.0.1", 6379, 250, "error", 3, -2), &mut report);

    assert!(lowered.is_none());
    assert_eq!(report.issues().len(), 1);
    assert_eq!(report.issues()[0].message, "value -2 is out of range for u64");
}

#[test]
fn lowering_an_unchecked_keyword_reports_it() {
    let mut report = Report::new();

    let lowered = ServerConfig::lower(&spec("127.0.0.1", 6379, 250, "INFO", 1, 64), &mut report);

    assert!(lowered.is_none());
    assert_eq!(report.issues()[0].message, "unknown keyword: INFO");
}

#[test]
fn a_log_level_reads_back_from_its_keyword() {
    for level in [
        LogLevel::Trace,
        LogLevel::Debug,
        LogLevel::Info,
        LogLevel::Warn,
        LogLevel::Error,
    ] {
        assert_eq!(LogLevel::from_keyword(&level.as_str().to_string()), Some(level));
    }
    assert_eq!(LogLevel::from_keyword(&"verbose".to_string()), None);
    assert_eq!(LogLevel::keywords(), ["trace", "debug", "info", "warn", "error"]);
}

#[test]
fn an_invalid_error_describes_itself_without_trailing_whitespace() {
    let error = LoadError::Invalid {
        messages: vec!["bad".to_string()],
        diagnostics: "error: bad\n\n  \t".to_string(),
    };

    assert_eq!(error.describe(), "error: bad");
}

#[test]
fn a_read_error_describes_the_path() {
    let error = LoadError::Read {
        path: std::path::PathBuf::from("tests/fixtures/absent.toml"),
        source: std::io::Error::new(std::io::ErrorKind::NotFound, "no such file"),
    };

    let text = error.describe();
    assert_eq!(text, "cannot read tests/fixtures/absent.toml: no such file");
}

#[test]
fn the_rendered_report_names_every_problem() {
    let error = load(spec("localhost", 6379, 250, "info", 1, 64)).expect_err("bad bind");

    let LoadError::Invalid { diagnostics, .. } = &error else {
        panic!("expected an invalid configuration, found {:?}", error);
    };
    assert!(diagnostics.contains("bind must be an IP address"), "{}", diagnostics);
}

fn localhost(port: u16) -> SocketAddress {
    SocketAddress { ip: IpAddress::V4(127, 0, 0, 1), port, scope_id: 0 }
}

fn service_config(address: SocketAddress, max_connections: i64, timeout: i64) -> Service {
    let mut spec = ServiceSpec::default();
    spec.max_connections = Spanned::detached(max_connections);
    spec.shutdown_timeout_secs = Spanned::detached(timeout);
    Service::lower(&spec, Some(address), &mut Report::new()).expect("the values narrow")
}

#[test]
fn reloading_the_same_configuration_changes_nothing() {
    let config = service_config(localhost(6379), 250, 30);
    let again = service_config(localhost(6379), 250, 30);

    assert_eq!(classify_config_change(&config, &again), ConfigChange::NoChange);
}

#[test]
fn a_new_shutdown_timeout_changes_only_the_runtime() {
    let old = service_config(localhost(6379), 250, 30);
    let new = service_config(localhost(6379), 250, 60);

    assert_eq!(classify_config_change(&old, &new), ConfigChange::RuntimeOnly);
}

#[test]
fn a_new_address_or_limit_changes_the_listener() {
    let old = service_config(localhost(6379), 250, 30);
    let new_port = service_config(localhost(6380), 250, 30);
    let new_limit = service_config(localhost(6379), 10, 30);
    let new_ip = service_config(
        SocketAddress { ip: IpAddress::V4(0, 0, 0, 0), port: 6379, scope_id: 0 },
        250,
        30,
    );

    assert_eq!(classify_config_change(&old, &new_port), ConfigChange::ListenerChanged);
    assert_eq!(classify_config_change(&old, &new_limit), ConfigChange::ListenerChanged);
    assert_eq!(classify_config_change(&new_ip, &old), ConfigChange::ListenerChanged);
    assert_eq!(old.listener_identity(), (localhost(6379), 250));
}

#[test]
fn one_address_written_two_ways_is_no_listener_change() {
    let loopback = SocketAddress { ip: IpAddress::V6(0, 0, 0, 0, 0, 0, 0, 1), port: 6379, scope_id: 0 };
    let old = service_config(loopback, 250, 30);
    let new = service_config(loopback, 250, 45);

    assert_eq!(classify_config_change(&old, &new), ConfigChange::RuntimeOnly);
}

#[test]
fn overrides_replace_the_file_values_before_validation() {
    let mut spec = ServiceSpec::default();
    let overrides = ConfigOverrides {
        hostname: Some("10.0.0.1".to_string()),
        port: Some(7001),
    };

    overrides.apply(&mut spec);

    assert_eq!(spec.hostname.value, "10.0.0.1");
    assert_eq!(spec.port.value, 7001);
    assert_eq!(spec.max_connections.value, 250);
}

#[test]
fn an_overriding_hostname_is_still_checked() {
    let mut spec = ServiceSpec::default();
    ConfigOverrides {
        hostname: Some("not an address".to_string()),
        port: None,
    }
    .apply(&mut spec);
    let mut report = Report::new();

    spec.validate_all(None, &mut report);

    let messages: Vec<&str> = report.issues().iter().map(|i| i.message.as_str()).collect();
    assert_eq!(messages, vec!["hostname and port do not form a socket address"]);
}

#[test]
fn empty_overrides_change_nothing() {
    let mut spec = ServiceSpec::default();
    ConfigOverrides::default().apply(&mut spec);

    assert_eq!(spec.hostname.value, "127.0.0.1");
    assert_eq!(spec.port.value, 6379);
}

#[test]
fn a_port_flag_wins_over_the_file() {
    let mut config = defaults().unwrap();

    config.apply_port_flag(Some(7002));
    assert_eq!(config.port, 7002);

    config.apply_port_flag(None);
    assert_eq!(config.port, 7002);
}

#[test]
fn the_client_defaults_pass_and_lower() {
    let spec = ClientSpec::default();
    let mut report = Report::new();

    spec.validate_all(&mut report);
    let config = ClientConfig::lower(&spec, &mut report);

    assert!(!report.has_issues());
    assert_eq!(
        config,
        Some(ClientConfig {
            read_buffer_bytes: 4096,
            pub_sub_channel_capacity: 1024,
        })
    );
}

#[test]
fn client_values_outside_their_ranges_are_reported() {
    let spec = ClientSpec {
        read_buffer_bytes: Spanned::detached(512),
        pub_sub_channel_capacity: Spanned::detached(0),
    };
    let mut report = Report::new();

    spec.validate_all(&mut report);

    let issues = report.issues();
    assert_eq!(issues.len(), 2);
    assert_eq!(issues[0].message, "read_buffer_bytes must be at least 1024");
    assert_eq!(
        issues[0].help.as_deref(),
        Some("Buffer sizes below 1KB hurt throughput; above 64KB waste memory per connection.")
    );
    assert_eq!(issues[1].message, "pub_sub_channel_capacity must be at least 1");
}

#[test]
fn a_negative_client_value_does_not_lower() {
    let spec = ClientSpec {
        read_buffer_bytes: Spanned::detached(-5),
        pub_sub_channel_capacity: Spanned::detached(10),
    };
    let mut report = Report::new();

    assert_eq!(ClientConfig::lower(&spec, &mut report), None);
    assert_eq!(report.issues()[0].message, "value -5 is out of range for usize");
}

#[test]
fn a_resolved_configuration_keeps_a_report_that_holds_warnings() {
    let mut report = Report::new();
    report.warning("deprecated key").emit();

    let resolved = mini_redis::conf::load_config(
        ServiceSpec::default(),
        ClientSpec::default(),
        Some(localhost(6379)),
        report,
    )
    .unwrap_or_else(|_| panic!("the defaults resolve"));

    assert_eq!(resolved.server.addr, localhost(6379));
    assert_eq!(resolved.server.max_connections, 250);
    assert_eq!(resolved.server.shutdown_timeout, Duration::from_secs(30));
    assert_eq!(resolved.server.pub_sub_channel_capacity, 1024);
    assert_eq!(resolved.server.pid_file, None);
    assert_eq!(resolved.client.read_buffer_bytes, 4096);
    let kept = resolved.report.expect("a warning keeps the report");
    assert_eq!(kept.issues()[0].message, "deprecated key");
}

#[test]
fn a_resolved_configuration_without_warnings_drops_the_report() {
    let resolved = mini_redis::conf::lower_config(
        &ServiceSpec::default(),
        &ClientSpec::default(),
        Some(localhost(6379)),
        Report::new(),
    )
    .unwrap_or_else(|_| panic!("the defaults lower"));

    assert!(resolved.report.is_none());
    assert_eq!(resolved.client.pub_sub_channel_capacity, 1024);
}

#[test]
fn an_overriding_port_out_of_range_stops_the_resolution() {
    let mut spec = ServiceSpec::default();
    ConfigOverrides {
        hostname: None,
        port: Some(0),
    }
    .apply(&mut spec);
    let client = ClientSpec {
        read_buffer_bytes: Spanned::detached(100),
        pub_sub_channel_capacity: Spanned::detached(1024),
    };

    let result =
        mini_redis::conf::load_config(spec, client, Some(localhost(0)), Report::new());

    let report = match result {
        Ok(_) => panic!("the port is out of range"),
        Err(report) => report,
    };
    let messages: Vec<&str> = report.issues().iter().map(|i| i.message.as_str()).collect();
    assert_eq!(
        messages,
        vec!["port must be at least 1", "read_buffer_bytes must be at least 1024"]
    );
}

#[test]
fn more_than_250_connections_stop_the_resolution() {
    let mut spec = ServiceSpec::default();
    spec.max_connections = Spanned::detached(251);

    let result = mini_redis::conf::load_config(
        spec,
        ClientSpec::default(),
        Some(localhost(6379)),
        Report::new(),
    );

    let report = match result {
        Ok(_) => panic!("251 connections are over the limit"),
        Err(report) => report,
    };
    assert_eq!(report.issues().len(), 1);
    assert_eq!(report.issues()[0].message, "max_connections must be at most 250");
}

#[test]
fn a_hostname_that_is_not_an_address_stops_the_resolution() {
    let mut spec = ServiceSpec::default();
    spec.hostname = Spanned::detached("localhost".to_string());

    let result = mini_redis::conf::load_config(spec, ClientSpec::default(), None, Report::new());

    let report = match result {
        Ok(_) => panic!("localhost is not a socket address"),
        Err(report) => report,
    };
    assert_eq!(report.issues()[0].message, "hostname and port do not form a socket address");
}

#[test]
fn lowering_without_validation_reports_the_value_that_does_not_narrow() {
    let result = mini_redis::conf::lower_config(
        &ServiceSpec::default(),
        &ClientSpec {
            read_buffer_bytes: Spanned::detached(-1),
            pub_sub_channel_capacity: Spanned::detached(1),
        },
        Some(localhost(6379)),
        Report::new(),
    );

    let report = match result {
        Ok(_) => panic!("the buffer size does not narrow"),
        Err(report) => report,
    };
    assert_eq!(report.issues()[0].message, "value -1 is out of range for usize");
}

#[test]
fn lowering_without_an_address_reports_it() {
    let result = mini_redis::conf::lower_config(
        &ServiceSpec::default(),
        &ClientSpec::default(),
        None,
        Report::new(),
    );

    let report = match result {
        Ok(_) => panic!("there is no address"),
        Err(report) => report,
    };
    assert_eq!(report.issues().len(), 1);
    assert_eq!(report.issues()[0].message, "hostname and port do not form a socket address");
}

#[test]
fn only_a_read_error_has_a_source() {
    let read = LoadError::Read {
        path: std::path::PathBuf::from("absent.toml"),
        source: std::io::Error::new(std::io::ErrorKind::NotFound, "no such file"),
    };
    let invalid = LoadError::Invalid {
        messages: Vec::new(),
        diagnostics: String::new(),
    };

    assert_eq!(
        read.source().map(|error| error.kind()),
        Some(std::io::ErrorKind::NotFound)
    );
    assert!(invalid.source().is_none());
}

#[test]
fn the_runtime_settings_come_from_the_service_configuration() {
    let server = service_config(localhost(6379), 250, 45);

    let runtime = mini_redis::runtime::RuntimeConfig::new(&server);

    assert_eq!(runtime.pub_sub_channel_capacity, 1024);
    assert_eq!(runtime.shutdown_timeout, Duration::from_secs(45));
}

#[test]
fn a_rendered_report_carries_no_fallback_line() {
    let mut report = Report::new();
    report.error("bad").emit();

    let error = mini_redis::conf::invalid(&report, &SourceMap::new());

    let LoadError::Invalid { messages, diagnostics } = &error else {
        panic!("expected an invalid configuration, found {:?}", error);
    };
    assert_eq!(messages, &vec!["bad".to_string()]);
    assert!(diagnostics.contains("bad"), "{}", diagnostics);
    assert!(!diagnostics.contains("could not render"), "{}", diagnostics);
}

#[test]
fn trimming_removes_only_trailing_whitespace() {
    let error = LoadError::Invalid {
        messages: Vec::new(),
        diagnostics: "  a b\u{3000}\n\t ".to_string(),
    };

    assert_eq!(error.describe(), "  a b");
}

fn with_pid_file(path: &str) -> Service {
    let mut spec = ServiceSpec::default();
    spec.pid_file = Some(Spanned::detached(path.to_string()));
    Service::lower(&spec, Some(localhost(6379)), &mut Report::new()).expect("the values narrow")
}

#[test]
fn one_pid_path_written_two_ways_is_no_change() {
    let old = with_pid_file("/tmp/mini-redis.pid");

    assert_eq!(
        classify_config_change(&old, &with_pid_file("/tmp//mini-redis.pid")),
        ConfigChange::NoChange
    );
    assert_eq!(
        classify_config_change(&old, &with_pid_file("/tmp/./mini-redis.pid/")),
        ConfigChange::NoChange
    );
    assert_eq!(
        classify_config_change(&old, &with_pid_file("/tmp/other.pid")),
        ConfigChange::RuntimeOnly
    );
    assert_eq!(
        classify_config_change(&old, &service_config(localhost(6379), 250, 30)),
        ConfigChange::RuntimeOnly
    );
}

#[test]
fn the_port_flag_wins_over_a_loaded_configuration() {
    let resolved = mini_redis::conf::resolve_config(defaults(), Some(7003)).unwrap();
    assert_eq!(resolved.port, 7003);
    assert_eq!(resolved.max_connections, 250);

    let kept = mini_redis::conf::resolve_config(defaults(), None).unwrap();
    assert_eq!(kept.port, 6379);
}

#[test]
fn a_failed_load_passes_through_the_flags() {
    let failed: Result<ServerConfig, LoadError> = Err(LoadError::Read {
        path: std::path::PathBuf::from("conf.toml"),
        source: std::io::Error::new(std::io::ErrorKind::NotFound, "missing"),
    });

    let error = mini_redis::conf::resolve_config(failed, Some(7003)).unwrap_err();

    assert_eq!(error.describe(), "cannot read conf.toml: missing");
}
