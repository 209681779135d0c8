//! The diagnostic report every phase appends to, and the source positions its
//! issues point at.
//!
//! A report is confval's `Report`. The library sees it through two sequences
//! over the issues it holds, in the order they were recorded: for each issue
//! whether it is an error, its message, and its help line; and where it points,
//! its span and the related spans with their labels.

use vstd::prelude::*;

verus! {

#[verifier::external_type_specification]
#[verifier::external_body]
pub struct ExReport(confval::diagnostic::Report);

#[verifier::external_type_specification]
#[verifier::external_body]
pub struct ExSpan(confval::source::Span);

#[verifier::external_type_specification]
#[verifier::external_body]
pub struct ExSourceMap(confval::source::SourceMap);

/// One recorded issue: whether it is an error (a warning otherwise), its
/// message, and its help line when it has one.
pub type IssueView = (bool, Seq<char>, Option<Seq<char>>);

/// The issues a report holds, in the order they were recorded.
pub uninterp spec fn report_issues(report: confval::diagnostic::Report) -> Seq<IssueView>;

/// Where one recorded issue points: its span (none for an issue given a
/// detached span), and its related spans, each with its label.
pub type LocationView = (Option<confval::source::Span>, Seq<(confval::source::Span, Seq<char>)>);

/// The locations of the issues a report holds, in the order they were
/// recorded.
pub uninterp spec fn report_locations(report: confval::diagnostic::Report) -> Seq<LocationView>;

/// The span `IssueBuilder::at` records for the span it is given: that span,
/// or none when it is the detached span.
pub uninterp spec fn attached(span: confval::source::Span) -> Option<confval::source::Span>;

/// The location of an issue put at the span, with no related span.
pub open spec fn located_at(span: confval::source::Span) -> LocationView {
    (attached(span), Seq::empty())
}

/// The locations of `count` issues each put at the span.
pub open spec fn located_at_each(span: confval::source::Span, count: nat) -> Seq<LocationView> {
    Seq::new(count, |_i: int| located_at(span))
}

/// An error issue with the given message and help line.
pub open spec fn error_issue(message: Seq<char>, help: Option<Seq<char>>) -> IssueView {
    (true, message, help)
}

/// Whether any issue in the sequence is an error.
pub open spec fn holds_error(issues: Seq<IssueView>) -> bool {
    exists|i: int| 0 <= i < issues.len() && (#[trigger] issues[i]).0
}

/// Whether any issue in the sequence is a warning.
pub open spec fn holds_warning(issues: Seq<IssueView>) -> bool {
    exists|i: int| 0 <= i < issues.len() && !(#[trigger] issues[i]).0
}

/// The messages of the issues, in order.
pub open spec fn issue_messages(issues: Seq<IssueView>) -> Seq<Seq<char>> {
    issues.map_values(|issue: IssueView| issue.1)
}

/// `Report::new`: a report with no issues.
#[verifier::external_body]
pub(crate) fn new_report() -> (report: confval::diagnostic::Report)
    ensures
        report_issues(report) == Seq::<IssueView>::empty(),
        report_locations(report) == Seq::<LocationView>::empty(),
{
    confval::diagnostic::Report::new()
}

/// `Report::error` followed by `at`, `help` and `emit`: appends one error with
/// the message and the help line, put at the span.
#[verifier::external_body]
pub(crate) fn emit_error(
    report: &mut confval::diagnostic::Report,
    message: String,
    span: confval::source::Span,
    help: String,
)
    ensures
        report_issues(*final(report)) == report_issues(*old(report)).push(
            error_issue(message@, Some(help@)),
        ),
        report_locations(*final(report)) == report_locations(*old(report)).push(located_at(span)),
{
    report.error(message).at(span).help(help).emit();
}

/// `Report::error` followed by `at`, `related`, `help` and `emit`: appends one
/// error with the message and the help line, put at the first span, and
/// naming the second span with the label unless that span is detached.
#[verifier::external_body]
pub(crate) fn emit_error_with_related(
    report: &mut confval::diagnostic::Report,
    message: String,
    span: confval::source::Span,
    related: confval::source::Span,
    label: String,
    help: String,
)
    ensures
        report_issues(*final(report)) == report_issues(*old(report)).push(
            error_issue(message@, Some(help@)),
        ),
        report_locations(*final(report)) == report_locations(*old(report)).push(
            (
                attached(span),
                if attached(related) is Some {
                    seq![(related, label@)]
                } else {
                    Seq::empty()
                },
            ),
        ),
{
    report.error(message).at(span).related(related, label).help(help).emit();
}

/// `Report::has_errors`: whether any recorded issue is an error.
#[verifier::external_body]
pub(crate) fn report_has_errors(report: &confval::diagnostic::Report) -> (b: bool)
    ensures
        b == holds_error(report_issues(*report)),
{
    report.has_errors()
}

/// `Report::has_warnings`: whether any recorded issue is a warning.
#[verifier::external_body]
pub(crate) fn report_has_warnings(report: &confval::diagnostic::Report) -> (b: bool)
    ensures
        b == holds_warning(report_issues(*report)),
{
    report.has_warnings()
}

/// `Report::issues`, read for the message of each issue in order.
#[verifier::external_body]
pub(crate) fn report_messages(report: &confval::diagnostic::Report) -> (messages: Vec<String>)
    ensures
        messages@.len() == report_issues(*report).len(),
        forall|i: int|
            0 <= i < messages@.len() ==> #[trigger] messages@[i]@ == report_issues(*report)[i].1,
{
    report.issues().iter().map(|issue| issue.message.clone()).collect()
}

/// `Span::detached`: the position of a value that came from no source text.
/// `Span::is_detached` holds of it, so `IssueBuilder::at` records no location
/// for it.
#[verifier::external_body]
pub(crate) fn detached_span() -> (span: confval::source::Span)
    ensures
        attached(span) is None,
{
    confval::source::Span::detached()
}

/// `SourceMap::new`: a map with no sources registered. Nothing is stated of it.
#[verifier::external_body]
pub(crate) fn new_source_map() -> confval::source::SourceMap {
    confval::source::SourceMap::new()
}

/// What `Report::render_pretty` writes into an empty string for the report
/// against the sources, and whether it finished. The layout is the renderer's
/// own and is not written out here; it depends on the report and the sources
/// alone.
pub uninterp spec fn rendering(
    report: confval::diagnostic::Report,
    sources: confval::source::SourceMap,
) -> (Seq<char>, bool);

/// `Report::render_pretty` into a fresh string: the text it wrote, and whether
/// the rendering finished.
#[verifier::external_body]
pub(crate) fn render_pretty(
    report: &confval::diagnostic::Report,
    sources: &confval::source::SourceMap,
) -> (r: (String, bool))
    ensures
        (r.0@, r.1) == rendering(*report, *sources),
{
    let mut out = String::new();
    let finished = report.render_pretty(sources, &mut out).is_ok();
    (out, finished)
}

} // verus!
