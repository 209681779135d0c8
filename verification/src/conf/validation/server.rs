//! The rules of the server spec.
//!
//! The ranges and the keyword set belong to the fields and run first, in field
//! order. Then come the rules no field carries alone: the format check of the
//! bind address, and the cross-field rule of the backoff block.

use vstd::prelude::*;

use crate::conf::constraints::{check_keyword, check_range, keyword_issues, range_issues};
use crate::conf::diagnostic::{
    attached, emit_error_with_related, error_issue, located_at_each, report_issues,
    report_locations, IssueView, LocationView,
};
use crate::conf::types::specification::server::{level_keywords, BackoffSpec, LogLevel, ServerSpec};
use crate::conf::constraints::{dotted_quad, ip_literal, lacks_separators};
use crate::conf::validation::validator::net::{check_ip_addr, ip_issues};

verus! {

/// The issues the field ranges of a backoff block record: each of the two
/// values must lie in `1..=3600` seconds.
pub open spec fn backoff_range_issues(spec: BackoffSpec) -> Seq<IssueView> {
    range_issues(1, 3600, Some("seconds"@), None, spec.initial_seconds.value as int, "initial_seconds"@)
        + range_issues(1, 3600, Some("seconds"@), None, spec.max_seconds.value as int, "max_seconds"@)
}

/// The issue the cross-field rule records: one when the first wait is longer
/// than the longest.
pub open spec fn backoff_order_issues(spec: BackoffSpec) -> Seq<IssueView> {
    if spec.initial_seconds.value > spec.max_seconds.value {
        seq![
            error_issue(
                "initial_seconds must not be greater than max_seconds"@,
                Some("Lower initial_seconds, or raise max_seconds."@),
            ),
        ]
    } else {
        Seq::empty()
    }
}

/// Where the cross-field rule's issue points: at the first wait, naming the
/// longest wait's span as where `max_seconds` was declared.
pub open spec fn backoff_order_locations(spec: BackoffSpec) -> Seq<LocationView> {
    if spec.initial_seconds.value > spec.max_seconds.value {
        seq![
            (
                attached(spec.initial_seconds.span),
                if attached(spec.max_seconds.span) is Some {
                    seq![(spec.max_seconds.span, "max_seconds declared here"@)]
                } else {
                    Seq::empty()
                },
            ),
        ]
    } else {
        Seq::empty()
    }
}

/// Every issue a backoff block records, in order.
pub open spec fn backoff_issues(spec: BackoffSpec) -> Seq<IssueView> {
    backoff_range_issues(spec) + backoff_order_issues(spec)
}

/// The issues the field constraints of the server spec record: the port range,
/// the connection range, and the log level keyword.
pub open spec fn server_field_issues(spec: ServerSpec) -> Seq<IssueView> {
    range_issues(1, 65535, None, None, spec.port.value as int, "port"@)
        + range_issues(1, 65536, None, None, spec.max_connections.value as int, "max_connections"@)
        + keyword_issues(level_keywords(), spec.log_level.value@, "log_level"@)
}

/// Every issue validating a server spec records, in order: the field
/// constraints, the bind address, then the backoff block.
pub open spec fn server_issues(spec: ServerSpec) -> Seq<IssueView> {
    server_field_issues(spec) + ip_issues(spec.bind.value@, "bind"@) + backoff_issues(
        spec.backoff.value,
    )
}

/// Where the range issues of a backoff block point: each at its value.
pub open spec fn backoff_range_locations(spec: BackoffSpec) -> Seq<LocationView> {
    located_at_each(
        spec.initial_seconds.span,
        range_issues(1, 3600, Some("seconds"@), None, spec.initial_seconds.value as int, "initial_seconds"@).len(),
    ) + located_at_each(
        spec.max_seconds.span,
        range_issues(1, 3600, Some("seconds"@), None, spec.max_seconds.value as int, "max_seconds"@).len(),
    )
}

/// Where the issues of a backoff block point: each range issue at its value,
/// then the cross-field issue.
pub open spec fn backoff_locations(spec: BackoffSpec) -> Seq<LocationView> {
    backoff_range_locations(spec) + backoff_order_locations(spec)
}

/// Where the issues of the field constraints point: each at its value.
pub open spec fn server_field_locations(spec: ServerSpec) -> Seq<LocationView> {
    located_at_each(
        spec.port.span,
        range_issues(1, 65535, None, None, spec.port.value as int, "port"@).len(),
    ) + located_at_each(
        spec.max_connections.span,
        range_issues(1, 65536, None, None, spec.max_connections.value as int, "max_connections"@).len(),
    ) + located_at_each(
        spec.log_level.span,
        keyword_issues(level_keywords(), spec.log_level.value@, "log_level"@).len(),
    )
}

/// Where the issues of a server spec point, in the order they are recorded:
/// each at the span of the value it is about.
pub open spec fn server_locations(spec: ServerSpec) -> Seq<LocationView> {
    server_field_locations(spec) + located_at_each(
        spec.bind.span,
        ip_issues(spec.bind.value@, "bind"@).len(),
    ) + backoff_locations(spec.backoff.value)
}

impl BackoffSpec {
    /// The field constraints: both values in `1..=3600` seconds.
    pub fn validate_recorded(&self, report: &mut confval::diagnostic::Report)
        ensures
            report_issues(*final(report)) == report_issues(*old(report)) + backoff_range_issues(
                *self,
            ),
            report_locations(*final(report)) == report_locations(*old(report))
                + backoff_range_locations(*self),
    {
        check_range(1, 3600, Some("seconds"), None, &self.initial_seconds, "initial_seconds", report);
        check_range(1, 3600, Some("seconds"), None, &self.max_seconds, "max_seconds", report);
        assert(report_issues(*report) =~= report_issues(*old(report)) + backoff_range_issues(
            *self,
        ));
        assert(report_locations(*report) =~= report_locations(*old(report))
            + backoff_range_locations(*self));
    }

    /// The cross-field rule: the first wait must not exceed the longest.
    pub fn validate(&self, report: &mut confval::diagnostic::Report)
        ensures
            report_issues(*final(report)) == report_issues(*old(report)) + backoff_order_issues(
                *self,
            ),
            report_locations(*final(report)) == report_locations(*old(report))
                + backoff_order_locations(*self),
    {
        if self.initial_seconds.value > self.max_seconds.value {
            emit_error_with_related(
                report,
                String::from_str("initial_seconds must not be greater than max_seconds"),
                self.initial_seconds.span,
                self.max_seconds.span,
                String::from_str("max_seconds declared here"),
                String::from_str("Lower initial_seconds, or raise max_seconds."),
            );
        }
        assert(report_issues(*report) =~= report_issues(*old(report)) + backoff_order_issues(
            *self,
        ));
        assert(report_locations(*report) =~= report_locations(*old(report))
            + backoff_order_locations(*self));
    }

    /// Every rule of the block, in order.
    pub fn validate_all(&self, report: &mut confval::diagnostic::Report)
        ensures
            report_issues(*final(report)) == report_issues(*old(report)) + backoff_issues(*self),
            report_locations(*final(report)) == report_locations(*old(report)) + backoff_locations(
                *self,
            ),
    {
        self.validate_recorded(report);
        self.validate(report);
        assert(report_issues(*report) =~= report_issues(*old(report)) + backoff_issues(*self));
        assert(report_locations(*report) =~= report_locations(*old(report)) + backoff_locations(
            *self,
        ));
    }
}

impl ServerSpec {
    /// The field constraints: the port range, the connection range, and the
    /// log level keyword.
    ///
    /// A field that holds its declared default passes its constraint, so a
    /// default needs no separate path here.
    pub fn validate_recorded(&self, report: &mut confval::diagnostic::Report)
        ensures
            report_issues(*final(report)) == report_issues(*old(report)) + server_field_issues(
                *self,
            ),
            report_locations(*final(report)) == report_locations(*old(report))
                + server_field_locations(*self),
    {
        check_range(1, 65535, None, None, &self.port, "port", report);
        check_range(1, 65536, None, None, &self.max_connections, "max_connections", report);
        let keywords = LogLevel::keywords();
        check_keyword(&keywords, &self.log_level, "log_level", report);
        assert(report_issues(*report) =~= report_issues(*old(report)) + server_field_issues(
            *self,
        ));
        assert(report_locations(*report) =~= report_locations(*old(report))
            + server_field_locations(*self));
    }

    /// The format check no field attribute expresses: `bind` must be an IP
    /// literal.
    pub fn validate(&self, report: &mut confval::diagnostic::Report)
        ensures
            report_issues(*final(report)) == report_issues(*old(report)) + ip_issues(
                self.bind.value@,
                "bind"@,
            ),
            report_locations(*final(report)) == report_locations(*old(report)) + located_at_each(
                self.bind.span,
                ip_issues(self.bind.value@, "bind"@).len(),
            ),
            dotted_quad(self.bind.value@) ==> ip_literal(self.bind.value@),
            self.bind.value@ == "::1"@ ==> ip_literal(self.bind.value@),
            lacks_separators(self.bind.value@) ==> !ip_literal(self.bind.value@),
    {
        check_ip_addr(&self.bind, "bind", report);
    }

    /// Every rule of the spec and of its backoff block, each appending to the
    /// same report, so one pass reports every problem.
    pub fn validate_all(&self, report: &mut confval::diagnostic::Report)
        ensures
            report_issues(*final(report)) == report_issues(*old(report)) + server_issues(*self),
            report_locations(*final(report)) == report_locations(*old(report)) + server_locations(
                *self,
            ),
    {
        self.validate_recorded(report);
        self.validate(report);
        self.backoff.value.validate_all(report);
        assert(report_issues(*report) =~= report_issues(*old(report)) + server_issues(*self));
        assert(report_locations(*report) =~= report_locations(*old(report)) + server_locations(
            *self,
        ));
    }
}

} // verus!
