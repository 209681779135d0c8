//! What holds across the phases: validation reports exactly the violated
//! rules, a spec that passes validation always lowers, and the declared
//! defaults pass.

use vstd::prelude::*;

use crate::conf::constraints::{dotted_quad, ip_literal, quad_text, range_issues};
use crate::conf::diagnostic::{holds_error, IssueView};
use crate::conf::constraints::secs_duration;
use crate::conf::loader::load_outcome;
use crate::conf::types::runtime::server::{
    lowered_server, server_lowering_issues, server_narrows, ServerConfig,
};
use crate::conf::types::specification::server::{
    default_bind, lemma_level_keywords_differ, level_keyword, level_keywords, level_of_keyword,
    BackoffSpec, LogLevel,
    ServerSpec,
};
use crate::conf::validation::server::{
    backoff_issues, backoff_order_issues, backoff_range_issues, server_field_issues,
    server_issues,
};
use crate::conf::validation::validator::net::ip_issues;
use crate::text::digits;

verus! {

/// The rules of a backoff block: both values in `1..=3600` seconds, and the
/// first wait no longer than the longest.
pub open spec fn backoff_spec_valid(spec: BackoffSpec) -> bool {
    &&& 1 <= spec.initial_seconds.value <= 3600
    &&& 1 <= spec.max_seconds.value <= 3600
    &&& spec.initial_seconds.value <= spec.max_seconds.value
}

/// The rules of a server spec, stated directly over its values.
pub open spec fn server_spec_valid(spec: ServerSpec) -> bool {
    &&& 1 <= spec.port.value <= 65535
    &&& 1 <= spec.max_connections.value <= 65536
    &&& level_keywords().contains(spec.log_level.value@)
    &&& ip_literal(spec.bind.value@)
    &&& backoff_spec_valid(spec.backoff.value)
}

/// One when the rule is broken, zero when it holds.
pub open spec fn broken(rule_holds: bool) -> int {
    if rule_holds {
        0
    } else {
        1
    }
}

/// How many of the seven rules of a server spec it breaks.
pub open spec fn broken_rules(spec: ServerSpec) -> int {
    let backoff = spec.backoff.value;
    broken(1 <= spec.port.value <= 65535) + broken(1 <= spec.max_connections.value <= 65536)
        + broken(level_keywords().contains(spec.log_level.value@)) + broken(
        ip_literal(spec.bind.value@),
    ) + broken(1 <= backoff.initial_seconds.value <= 3600) + broken(
        1 <= backoff.max_seconds.value <= 3600,
    ) + broken(backoff.initial_seconds.value <= backoff.max_seconds.value)
}

/// Whether every issue in the sequence is an error.
pub open spec fn all_errors(issues: Seq<IssueView>) -> bool {
    forall|i: int| 0 <= i < issues.len() ==> (#[trigger] issues[i]).0
}

proof fn lemma_range_issue_count(
    min: int,
    max: int,
    units: Option<Seq<char>>,
    help: Option<Seq<char>>,
    value: int,
    field: Seq<char>,
)
    ensures
        range_issues(min, max, units, help, value, field).len() == broken(min <= value <= max),
        all_errors(range_issues(min, max, units, help, value, field)),
{
}

/// The keyword sequence holds exactly the keywords of the five levels.
pub proof fn lemma_level_keywords(keyword: Seq<char>)
    ensures
        level_keywords().contains(keyword) <==> level_of_keyword(keyword) is Some,
        level_of_keyword(keyword) matches Some(level) ==> level_keyword(level) == keyword,
{
    reveal_strlit("trace");
    reveal_strlit("debug");
    reveal_strlit("info");
    reveal_strlit("warn");
    reveal_strlit("error");
    let k = level_keywords();
    if level_of_keyword(keyword) is Some {
        if keyword == "trace"@ {
            assert(k[0] == keyword);
        } else if keyword == "debug"@ {
            assert(k[1] == keyword);
        } else if keyword == "info"@ {
            assert(k[2] == keyword);
        } else if keyword == "warn"@ {
            assert(k[3] == keyword);
        } else {
            assert(k[4] == keyword);
        }
    }
    if k.contains(keyword) {
        let i = choose|i: int| 0 <= i < k.len() && k[i] == keyword;
        assert(i == 0 || i == 1 || i == 2 || i == 3 || i == 4);
    }
}

/// Reading a level's keyword back gives the level.
pub proof fn lemma_level_keyword_round_trip(level: LogLevel)
    ensures
        level_of_keyword(level_keyword(level)) == Some(level),
{
    reveal_strlit("trace");
    reveal_strlit("debug");
    reveal_strlit("info");
    reveal_strlit("warn");
    reveal_strlit("error");
    let t = "trace"@;
    let d = "debug"@;
    let i = "info"@;
    let w = "warn"@;
    let e = "error"@;
    assert(d[0] != t[0]);
    assert(i[0] != t[0] && i[0] != d[0]);
    assert(w[0] != t[0] && w[0] != d[0] && w[0] != i[0]);
    assert(e[0] != t[0] && e[0] != d[0] && e[0] != i[0] && e[0] != w[0]);
}

/// Validation records one error for each rule the spec breaks and nothing
/// else: every issue is an error, and there are as many as broken rules.
pub proof fn lemma_every_broken_rule_reported_once(spec: ServerSpec)
    ensures
        server_issues(spec).len() == broken_rules(spec),
        all_errors(server_issues(spec)),
{
    let backoff = spec.backoff.value;
    lemma_range_issue_count(1, 65535, None, None, spec.port.value as int, "port"@);
    lemma_range_issue_count(1, 65536, None, None, spec.max_connections.value as int, "max_connections"@);
    lemma_range_issue_count(1, 3600, Some("seconds"@), None, backoff.initial_seconds.value as int, "initial_seconds"@);
    lemma_range_issue_count(1, 3600, Some("seconds"@), None, backoff.max_seconds.value as int, "max_seconds"@);
    let fields = server_field_issues(spec);
    let ip = ip_issues(spec.bind.value@, "bind"@);
    let ranges = backoff_range_issues(backoff);
    let order = backoff_order_issues(backoff);
    assert(backoff_issues(backoff) == ranges + order);
    assert(server_issues(spec) == fields + ip + (ranges + order));
    assert forall|i: int| 0 <= i < server_issues(spec).len() implies (#[trigger] server_issues(
        spec,
    )[i]).0 by {
        let all = server_issues(spec);
        if i < fields.len() {
            assert(all[i] == fields[i]);
        } else if i < fields.len() + ip.len() {
            assert(all[i] == ip[i - fields.len()]);
        } else {
            assert(all[i] == (ranges + order)[i - fields.len() - ip.len()]);
        }
    }
}

/// A spec passes validation, with no issue recorded, exactly when it keeps
/// every rule.
pub proof fn lemma_validation_accepts_exactly_valid_specs(spec: ServerSpec)
    ensures
        server_issues(spec).len() == 0 <==> server_spec_valid(spec),
        holds_error(server_issues(spec)) <==> !server_spec_valid(spec),
{
    lemma_every_broken_rule_reported_once(spec);
    let issues = server_issues(spec);
    if issues.len() > 0 {
        assert(issues[0].0);
    }
}

/// When parsing and validation together record no error, the spec keeps every
/// rule.
pub proof fn lemma_errors_report_only_invalid_specs(spec: ServerSpec, parse_issues: Seq<IssueView>)
    ensures
        !holds_error(parse_issues + server_issues(spec)) ==> server_spec_valid(spec),
{
    lemma_validation_accepts_exactly_valid_specs(spec);
    let all = parse_issues + server_issues(spec);
    if !server_spec_valid(spec) {
        let i = choose|i: int| 0 <= i < server_issues(spec).len() && (#[trigger] server_issues(spec)[i]).0;
        assert(all[parse_issues.len() + i] == server_issues(spec)[i]);
    }
}

/// A spec that passes validation always lowers, and lowering records nothing:
/// every check of a narrowing step is already a validation rule.
pub proof fn lemma_valid_spec_lowers(spec: ServerSpec)
    ensures
        server_spec_valid(spec) ==> lowered_server(spec) is Some,
        server_spec_valid(spec) ==> server_lowering_issues(spec) == Seq::<IssueView>::empty(),
{
    lemma_level_keywords(spec.log_level.value@);
    if server_spec_valid(spec) {
        assert(server_narrows(spec));
        assert(server_lowering_issues(spec) =~= Seq::<IssueView>::empty());
    }
}

/// The declared default bind address is dotted-decimal IPv4 text.
pub proof fn lemma_default_bind_is_dotted_quad()
    ensures
        dotted_quad(default_bind()),
{
    reveal_strlit("127.0.0.1");
    reveal_with_fuel(digits, 3);
    assert(digits(127) =~= seq!['1', '2', '7']);
    assert(digits(0) =~= seq!['0']);
    assert(digits(1) =~= seq!['1']);
    assert(quad_text(127, 0, 0, 1) =~= default_bind());
}

/// The declared defaults keep every rule, given that the default bind text is
/// an address literal (dotted-decimal IPv4 text is one), so a server started
/// without a file always has a configuration.
pub proof fn lemma_defaults_are_valid(spec: ServerSpec)
    requires
        spec.is_default(),
        ip_literal(default_bind()),
    ensures
        server_spec_valid(spec),
{
    lemma_level_keywords(spec.log_level.value@);
    reveal_strlit("info");
}

/// Lowering carries each value of a spec across unchanged: the address text,
/// the port and the connection limit as numbers, the level its keyword names,
/// and each backoff value as a duration of that many seconds.
pub proof fn lemma_lowering_keeps_values(spec: ServerSpec)
    ensures
        lowered_server(spec) matches Some(config) ==> {
            &&& config.bind == spec.bind.value
            &&& config.port as int == spec.port.value as int
            &&& config.max_connections as int == spec.max_connections.value as int
            &&& level_keyword(config.log_level) == spec.log_level.value@
            &&& config.backoff.initial == secs_duration(spec.backoff.value.initial_seconds.value)
            &&& config.backoff.max == secs_duration(spec.backoff.value.max_seconds.value)
        },
{
    lemma_level_keywords(spec.log_level.value@);
}

/// The bounds every configuration a load returns keeps: a port the listener
/// can bind, a connection limit of at least one, and a backoff schedule whose
/// first wait is a whole number of seconds no longer than the longest, both
/// within an hour.
pub open spec fn config_within_rules(config: ServerConfig) -> bool {
    &&& 1 <= config.port
    &&& 1 <= config.max_connections <= 65536
    &&& ip_literal(config.bind@)
    &&& exists|initial: i64, max: i64|
        1 <= initial <= max <= 3600 && config.backoff.initial == #[trigger] secs_duration(initial)
            && config.backoff.max == #[trigger] secs_duration(max)
}

/// A load returns a configuration exactly when parsing recorded no error and
/// the spec keeps every rule, and a configuration it returns keeps the rules.
pub proof fn lemma_load_accepts_exactly_valid_specs(spec: ServerSpec, parse_issues: Seq<IssueView>)
    ensures
        load_outcome(Some(spec), parse_issues) is Ok <==> (!holds_error(parse_issues)
            && server_spec_valid(spec)),
        load_outcome(Some(spec), parse_issues) matches Ok(config) ==> config_within_rules(config),
{
    lemma_validation_accepts_exactly_valid_specs(spec);
    lemma_errors_report_only_invalid_specs(spec, parse_issues);
    lemma_valid_spec_lowers(spec);
    let all = parse_issues + server_issues(spec);
    if holds_error(parse_issues) {
        let i = choose|i: int| 0 <= i < parse_issues.len() && (#[trigger] parse_issues[i]).0;
        assert(all[i] == parse_issues[i]);
    }
}

/// Each level is written as its own name in lower case (`trace`, `debug`,
/// `info`, `warn`, `error`), and that keyword reads back as the level.
pub proof fn lemma_each_level_is_written_as_its_name(level: LogLevel)
    ensures
        level == LogLevel::Trace ==> level_keyword(level) == "trace"@ && level_of_keyword("trace"@)
            == Some(level),
        level == LogLevel::Debug ==> level_keyword(level) == "debug"@ && level_of_keyword("debug"@)
            == Some(level),
        level == LogLevel::Info ==> level_keyword(level) == "info"@ && level_of_keyword("info"@)
            == Some(level),
        level == LogLevel::Warn ==> level_keyword(level) == "warn"@ && level_of_keyword("warn"@)
            == Some(level),
        level == LogLevel::Error ==> level_keyword(level) == "error"@ && level_of_keyword("error"@)
            == Some(level),
{
    lemma_level_keywords_differ();
}

/// A configuration a load returns carries the spec's values unchanged: the
/// address text, the port and the connection limit as the same numbers, the
/// level whose keyword the spec wrote, and each backoff value as a duration of
/// that many seconds.
pub proof fn lemma_load_keeps_the_spec_values(spec: ServerSpec, parse_issues: Seq<IssueView>)
    ensures
        load_outcome(Some(spec), parse_issues) matches Ok(config) ==> {
            &&& config.bind == spec.bind.value
            &&& config.port as int == spec.port.value as int
            &&& config.max_connections as int == spec.max_connections.value as int
            &&& level_of_keyword(spec.log_level.value@) == Some(config.log_level)
            &&& config.backoff.initial == secs_duration(spec.backoff.value.initial_seconds.value)
            &&& config.backoff.max == secs_duration(spec.backoff.value.max_seconds.value)
        },
{
    lemma_load_accepts_exactly_valid_specs(spec, parse_issues);
}

} // verus!
