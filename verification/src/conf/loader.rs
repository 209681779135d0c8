//! The phases after parsing, run in order.
//!
//! Validation fills the report, a report that holds an error stops the load,
//! and lowering produces the runtime configuration. The path never
//! panics. A misconfiguration returns a `LoadError` that carries the
//! diagnostics.

use vstd::prelude::*;

use crate::conf::constraints::{is_ip_literal, secs_duration};
use crate::conf::diagnostic::{
    holds_error, issue_messages, new_report, new_source_map, render_pretty, rendering,
    report_has_errors, report_issues, report_messages, IssueView,
};
use crate::conf::types::runtime::server::{lowered_server, ServerConfig};
use crate::conf::types::specification::server::{level_of_keyword, LogLevel, ServerSpec};
use crate::conf::validation::server::server_issues;
use crate::conf::laws::{
    lemma_default_bind_is_dotted_quad, lemma_defaults_are_valid,
    lemma_errors_report_only_invalid_specs, lemma_level_keyword_round_trip, lemma_valid_spec_lowers,
};
use crate::text::{trim_end, trimmed_end};

verus! {

#[verifier::external_type_specification]
#[verifier::external_body]
pub struct ExPathBuf(std::path::PathBuf);

#[verifier::external_type_specification]
#[verifier::external_body]
pub struct ExIoError(std::io::Error);

/// Why a configuration load did not produce a configuration.
#[derive(Debug)]
pub enum LoadError {
    /// The file could not be read.
    Read {
        /// The path that was read.
        path: std::path::PathBuf,
        /// The underlying failure.
        source: std::io::Error,
    },
    /// The file was read, and the report holds at least one error.
    Invalid {
        /// One message for each reported problem, in report order.
        messages: Vec<String>,
        /// The rendered report, ready to print.
        diagnostics: String,
    },
}

/// The views of a list of strings.
pub open spec fn string_views(strings: Seq<String>) -> Seq<Seq<char>> {
    strings.map_values(|s: String| s@)
}

/// Whether the error is an invalid configuration whose messages are the given
/// ones, in order.
pub open spec fn invalid_with(error: LoadError, messages: Seq<Seq<char>>) -> bool {
    match error {
        LoadError::Invalid { messages: m, .. } => string_views(m@) == messages,
        LoadError::Read { .. } => false,
    }
}

/// What a load that starts from an optional parsed spec and the issues parsing
/// recorded comes to: the runtime configuration, or the messages of every
/// issue the report holds when the load stops.
///
/// The load stops when parsing produced no spec, or when parsing and
/// validation together recorded an error.
pub open spec fn load_outcome(parsed: Option<ServerSpec>, parse_issues: Seq<IssueView>) -> Result<
    ServerConfig,
    Seq<Seq<char>>,
> {
    match parsed {
        None => Err(issue_messages(parse_issues)),
        Some(spec) => {
            let issues = parse_issues + server_issues(spec);
            if holds_error(issues) {
                Err(issue_messages(issues))
            } else {
                Ok(lowered_server(spec).unwrap())
            }
        },
    }
}

/// The issues the report holds when a load stops: those of parsing, and
/// those of validation when parsing produced a spec.
pub open spec fn stopped_issues(parsed: Option<ServerSpec>, parse_issues: Seq<IssueView>) -> Seq<
    IssueView,
> {
    match parsed {
        None => parse_issues,
        Some(spec) => parse_issues + server_issues(spec),
    }
}

/// Whether the error carries the rendering of a report that holds exactly
/// the given issues.
pub open spec fn renders_issues(
    error: LoadError,
    issues: Seq<IssueView>,
    sources: confval::source::SourceMap,
) -> bool {
    error matches LoadError::Invalid { diagnostics, .. } && exists|stopped: confval::diagnostic::Report|
        report_issues(stopped) == issues && #[trigger] diagnostics_of(stopped, sources)
            == diagnostics@
}

/// Whether a load result is the given outcome.
pub open spec fn result_is(result: Result<ServerConfig, LoadError>, outcome: Result<ServerConfig, Seq<Seq<char>>>) -> bool {
    match (result, outcome) {
        (Ok(config), Ok(expected)) => config == expected,
        (Err(error), Err(messages)) => invalid_with(error, messages),
        _ => false,
    }
}

/// The line added to the diagnostics when the report could not render.
pub open spec fn render_fallback() -> Seq<char> {
    "the configuration is not valid, and the report could not render"@
}

/// The diagnostics text of a report: what the renderer wrote, followed by the
/// fallback line when it did not finish.
pub open spec fn diagnostics_of(
    report: confval::diagnostic::Report,
    sources: confval::source::SourceMap,
) -> Seq<char> {
    rendering(report, sources).0 + if rendering(report, sources).1 {
        Seq::<char>::empty()
    } else {
        render_fallback()
    }
}

/// The error for a report that stops the load: one message per issue, in
/// report order, and the report rendered against the sources.
pub fn invalid(
    report: &confval::diagnostic::Report,
    sources: &confval::source::SourceMap,
) -> (error: LoadError)
    ensures
        invalid_with(error, issue_messages(report_issues(*report))),
        error matches LoadError::Invalid { diagnostics, .. } && diagnostics@ == diagnostics_of(
            *report,
            *sources,
        ),
{
    let messages = report_messages(report);
    let (mut diagnostics, finished) = render_pretty(report, sources);
    if !finished {
        diagnostics.append("the configuration is not valid, and the report could not render");
    }
    assert(string_views(messages@) =~= issue_messages(report_issues(*report)));
    LoadError::Invalid { messages, diagnostics }
}

/// Runs validation, the stop on errors, and lowering over what parsing produced.
///
/// `parsed` is the spec parsing produced, if any, and `report` holds what
/// parsing recorded; `sources` holds the text the spans point into.
pub fn load_parsed(
    parsed: Option<ServerSpec>,
    report: confval::diagnostic::Report,
    sources: &confval::source::SourceMap,
) -> (result: Result<ServerConfig, LoadError>)
    ensures
        result_is(result, load_outcome(parsed, report_issues(report))),
        result matches Err(error) ==> renders_issues(
            error,
            stopped_issues(parsed, report_issues(report)),
            *sources,
        ),
        result matches Ok(config) ==> parsed matches Some(spec) && {
            &&& config.bind == spec.bind.value
            &&& config.port as int == spec.port.value as int
            &&& config.max_connections as int == spec.max_connections.value as int
            &&& level_of_keyword(spec.log_level.value@) == Some(config.log_level)
            &&& config.backoff.initial == secs_duration(spec.backoff.value.initial_seconds.value)
            &&& config.backoff.max == secs_duration(spec.backoff.value.max_seconds.value)
        },
{
    let mut report = report;
    let ghost parse_issues = report_issues(report);
    let spec = match parsed {
        Some(spec) => spec,
        None => {
            return Err(invalid(&report, sources));
        },
    };

    spec.validate_all(&mut report);

    if report_has_errors(&report) {
        return Err(invalid(&report, sources));
    }

    proof {
        lemma_errors_report_only_invalid_specs(spec, parse_issues);
        lemma_valid_spec_lowers(spec);
    }

    match ServerConfig::lower(&spec, &mut report) {
        Some(config) => Ok(config),
        None => Err(invalid(&report, sources)),
    }
}

/// The configuration the spec declares when no file is supplied.
pub fn defaults() -> (result: Result<ServerConfig, LoadError>)
    ensures
        result is Ok,
        result matches Ok(config) && config.bind@ == "127.0.0.1"@ && config.port == 6379
            && config.max_connections == 250 && config.log_level == LogLevel::Info
            && config.backoff.initial == crate::conf::constraints::secs_duration(1)
            && config.backoff.max == crate::conf::constraints::secs_duration(64),
{
    let sources = new_source_map();
    let report = new_report();
    let spec = ServerSpec::default();
    // Dotted-decimal text is an address literal; asking once records that the
    // default bind text is one.
    let bind_is_address = is_ip_literal(spec.bind.value.as_str());
    proof {
        lemma_default_bind_is_dotted_quad();
        assert(bind_is_address);
        lemma_defaults_are_valid(spec);
        lemma_level_keyword_round_trip(LogLevel::Info);
        lemma_valid_spec_lowers(spec);
        assert(report_issues(report) + server_issues(spec) =~= server_issues(spec));
    }
    load_parsed(Some(spec), report, &sources)
}

impl LoadError {
    /// The failure underneath: the read error of an unreadable file, and
    /// nothing for an invalid configuration.
    pub fn source(&self) -> (source: Option<&std::io::Error>)
        ensures
            match self {
                LoadError::Read { source: s, .. } => source == Some(s),
                LoadError::Invalid { .. } => source is None,
            },
    {
        match self {
            LoadError::Read { source, .. } => Some(source),
            LoadError::Invalid { .. } => None,
        }
    }

    /// The text an operator reads: the trimmed diagnostics of an invalid
    /// configuration, or the path and the failure of an unreadable file.
    pub fn describe(&self) -> (text: String)
        ensures
            self matches LoadError::Invalid { diagnostics, .. } ==> text@ == trimmed_end(
                diagnostics@,
            ),
            self matches LoadError::Read { path, .. } ==> exists|reason: Seq<char>|
                text@ == "cannot read "@ + path_text(*path) + ": "@ + reason,
    {
        match self {
            LoadError::Read { path, source } => String::from_str("cannot read ").concat(
                path_display(path).as_str(),
            ).concat(": ").concat(io_error_text(source).as_str()),
            LoadError::Invalid { diagnostics, .. } => trim_end(diagnostics.as_str()),
        }
    }
}

/// The text `Path::display` writes for a path: the path's bytes, with any
/// sequence that is not UTF-8 replaced. It depends on the path alone.
pub uninterp spec fn path_text(path: std::path::PathBuf) -> Seq<char>;

/// `Path::display`, written out.
#[verifier::external_body]
fn path_display(path: &std::path::PathBuf) -> (text: String)
    ensures
        text@ == path_text(*path),
{
    format!("{}", path.display())
}

/// The `Display` text of an I/O error: the operating system's message for it,
/// which depends on the machine, so nothing is stated of it.
#[verifier::external_body]
fn io_error_text(error: &std::io::Error) -> String {
    format!("{}", error)
}

} // verus!
