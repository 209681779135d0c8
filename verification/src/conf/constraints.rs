//! The leaf checks and narrowing steps confval provides, and the issues each
//! one records.

use vstd::prelude::*;

use crate::conf::diagnostic::{error_issue, located_at_each, report_issues, report_locations, IssueView};
use crate::conf::spanned::Spanned;
use crate::text::{decimal, digits, joined};

verus! {

/// The help line of a range issue: the given help, or one that restates the
/// violated bound with its units.
pub open spec fn range_help(
    field: Seq<char>,
    kind: Seq<char>,
    limit: int,
    units: Option<Seq<char>>,
    help: Option<Seq<char>>,
) -> Seq<char> {
    match help {
        Some(h) => h,
        None => "Set "@ + field + " to "@ + kind + " "@ + decimal(limit) + match units {
            Some(u) => " "@ + u,
            None => Seq::<char>::empty(),
        },
    }
}

/// The issue a range check records for one value: none inside the inclusive
/// range, one naming the violated bound outside it.
pub open spec fn range_issues(
    min: int,
    max: int,
    units: Option<Seq<char>>,
    help: Option<Seq<char>>,
    value: int,
    field: Seq<char>,
) -> Seq<IssueView> {
    if value < min {
        seq![
            error_issue(
                field + " must be at least "@ + decimal(min),
                Some(range_help(field, "at least"@, min, units, help)),
            ),
        ]
    } else if value > max {
        seq![
            error_issue(
                field + " must be at most "@ + decimal(max),
                Some(range_help(field, "at most"@, max, units, help)),
            ),
        ]
    } else {
        Seq::empty()
    }
}

/// The view of an optional static text.
pub open spec fn opt_text(text: Option<&'static str>) -> Option<Seq<char>> {
    match text {
        Some(t) => Some(t@),
        None => None,
    }
}

/// `RangeConstraint::check_located`: records an error when the value lies
/// outside `min..=max`, naming the field and the bound it violated; the help
/// line is the given one, or restates the bound with the units.
#[verifier::external_body]
pub(crate) fn check_range(
    min: i64,
    max: i64,
    units: Option<&'static str>,
    help: Option<&'static str>,
    value: &Spanned<i64>,
    field: &'static str,
    report: &mut confval::diagnostic::Report,
)
    ensures
        report_issues(*final(report)) == report_issues(*old(report)) + range_issues(
            min as int,
            max as int,
            opt_text(units),
            opt_text(help),
            value.value as int,
            field@,
        ),
        report_locations(*final(report)) == report_locations(*old(report)) + located_at_each(
            value.span,
            range_issues(
                min as int,
                max as int,
                opt_text(units),
                opt_text(help),
                value.value as int,
                field@,
            ).len(),
        ),
{
    let constraint = confval::RangeConstraint { min, max, units, help };
    constraint.check_located(&confval::source::Located::new(value.value, value.span), field, report);
}

/// The views of a list of keywords.
pub open spec fn keyword_views(allowed: Seq<&'static str>) -> Seq<Seq<char>> {
    allowed.map_values(|keyword: &'static str| keyword@)
}

/// The issue a keyword check records for one value: none when the value is one
/// of the keywords, one naming the field and the value otherwise.
pub open spec fn keyword_issues(allowed: Seq<Seq<char>>, value: Seq<char>, field: Seq<char>) -> Seq<
    IssueView,
> {
    if allowed.contains(value) {
        Seq::empty()
    } else {
        seq![
            error_issue(
                "unknown "@ + field + ": "@ + value,
                Some("expected one of: "@ + joined(allowed, ", "@)),
            ),
        ]
    }
}

/// `KeywordSet::check_located`: records an error when the value is not one of
/// the allowed keywords, with a help line that lists them.
#[verifier::external_body]
pub(crate) fn check_keyword(
    allowed: &[&'static str],
    value: &Spanned<String>,
    field: &'static str,
    report: &mut confval::diagnostic::Report,
)
    ensures
        report_issues(*final(report)) == report_issues(*old(report)) + keyword_issues(
            keyword_views(allowed@),
            value.value@,
            field@,
        ),
        report_locations(*final(report)) == report_locations(*old(report)) + located_at_each(
            value.span,
            keyword_issues(keyword_views(allowed@), value.value@, field@).len(),
        ),
{
    confval::KeywordSet::new(allowed).check_located(
        &confval::source::Located::new(value.value.clone(), value.span),
        field,
        report,
    );
}

/// Whether the text parses as an IPv4 or an IPv6 address literal.
pub uninterp spec fn ip_literal(text: Seq<char>) -> bool;

/// Dotted-decimal IPv4 notation: four decimal octets, each at most 255 and
/// written without leading zeros, separated by dots.
pub open spec fn dotted_quad(text: Seq<char>) -> bool {
    exists|a: nat, b: nat, c: nat, d: nat|
        a <= 255 && b <= 255 && c <= 255 && d <= 255 && text == #[trigger] quad_text(a, b, c, d)
}

/// The dotted-decimal text of four octets.
pub open spec fn quad_text(a: nat, b: nat, c: nat, d: nat) -> Seq<char> {
    digits(a) + seq!['.'] + digits(b) + seq!['.'] + digits(c) + seq!['.'] + digits(d)
}

/// Text with neither a dot nor a colon. Every IPv4 literal has dots and every
/// IPv6 literal has colons, so no such text is an IP literal; a DNS name such
/// as `localhost` is one.
pub open spec fn lacks_separators(text: Seq<char>) -> bool {
    !text.contains('.') && !text.contains(':')
}

/// `<confval::Ip as Format>::check`, which parses the text as an `IpAddr`:
/// true when it is an IPv4 or an IPv6 literal. Dotted-decimal IPv4 text and
/// the IPv6 loopback `::1` are such literals, and text with neither a dot nor
/// a colon is not. Which other texts are is left to the name `ip_literal`.
#[verifier::external_body]
pub(crate) fn is_ip_literal(text: &str) -> (b: bool)
    ensures
        b == ip_literal(text@),
        dotted_quad(text@) ==> b,
        text@ == "::1"@ ==> b,
        lacks_separators(text@) ==> !b,
{
    <confval::Ip as confval::Format>::check(text)
}

/// The issue a narrowing step records when the value does not fit the target
/// type named by `target`.
pub open spec fn narrow_issues(fits: bool, value: int, target: Seq<char>) -> Seq<IssueView> {
    if fits {
        Seq::empty()
    } else {
        seq![error_issue("value "@ + decimal(value) + " is out of range for "@ + target, None)]
    }
}

/// `narrow::i64_to_u16`: the value as a `u16` when it fits, and an error
/// otherwise.
#[verifier::external_body]
pub(crate) fn narrow_to_u16(value: &Spanned<i64>, report: &mut confval::diagnostic::Report) -> (r: Option<
    u16,
>)
    ensures
        r == (if 0 <= value.value <= u16::MAX {
            Some(value.value as u16)
        } else {
            None::<u16>
        }),
        report_issues(*final(report)) == report_issues(*old(report)) + narrow_issues(
            0 <= value.value <= u16::MAX,
            value.value as int,
            "u16"@,
        ),
        report_locations(*final(report)) == report_locations(*old(report)) + located_at_each(
            value.span,
            narrow_issues(0 <= value.value <= u16::MAX, value.value as int, "u16"@).len(),
        ),
{
    confval::pipeline::narrow::i64_to_u16(
        &confval::source::Located::new(value.value, value.span),
        report,
    )
}

/// `narrow::i64_to_usize`: the value as a `usize` when it fits, and an error
/// otherwise.
#[verifier::external_body]
pub(crate) fn narrow_to_usize(value: &Spanned<i64>, report: &mut confval::diagnostic::Report) -> (r: Option<
    usize,
>)
    ensures
        r == (if 0 <= value.value <= usize::MAX {
            Some(value.value as usize)
        } else {
            None::<usize>
        }),
        report_issues(*final(report)) == report_issues(*old(report)) + narrow_issues(
            0 <= value.value <= usize::MAX,
            value.value as int,
            "usize"@,
        ),
        report_locations(*final(report)) == report_locations(*old(report)) + located_at_each(
            value.span,
            narrow_issues(0 <= value.value <= usize::MAX, value.value as int, "usize"@).len(),
        ),
{
    confval::pipeline::narrow::i64_to_usize(
        &confval::source::Located::new(value.value, value.span),
        report,
    )
}

/// The duration of a whole number of seconds, as `narrow::i64_secs_to_duration`
/// builds it with `Duration::from_secs`.
pub uninterp spec fn secs_duration(secs: i64) -> core::time::Duration;

/// `narrow::i64_secs_to_duration`: a duration of that many seconds when the
/// value is not negative, and an error naming `u64` otherwise.
#[verifier::external_body]
pub(crate) fn narrow_secs_to_duration(
    value: &Spanned<i64>,
    report: &mut confval::diagnostic::Report,
) -> (r: Option<core::time::Duration>)
    ensures
        r == (if 0 <= value.value {
            Some(secs_duration(value.value))
        } else {
            None::<core::time::Duration>
        }),
        report_issues(*final(report)) == report_issues(*old(report)) + narrow_issues(
            0 <= value.value,
            value.value as int,
            "u64"@,
        ),
        report_locations(*final(report)) == report_locations(*old(report)) + located_at_each(
            value.span,
            narrow_issues(0 <= value.value, value.value as int, "u64"@).len(),
        ),
{
    confval::pipeline::narrow::i64_secs_to_duration(
        &confval::source::Located::new(value.value, value.span),
        report,
    )
}

/// Equality of two durations, `<Duration as PartialEq>::eq`.
#[verifier::external_body]
pub(crate) fn durations_equal(a: &core::time::Duration, b: &core::time::Duration) -> (r: bool)
    ensures
        r == (*a == *b),
{
    *a == *b
}

} // verus!
