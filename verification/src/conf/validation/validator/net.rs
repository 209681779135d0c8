//! Reusable network checks the server validators and the lowering step call.

use vstd::prelude::*;

use crate::conf::address::SocketAddress;
use crate::conf::constraints::{dotted_quad, ip_literal, is_ip_literal, lacks_separators};
use crate::conf::diagnostic::{
    emit_error, error_issue, located_at_each, report_issues, report_locations, IssueView,
};
use crate::conf::spanned::Spanned;

verus! {

/// The issue `check_ip_addr` records: none for an IP literal, one naming the
/// field otherwise.
pub open spec fn ip_issues(value: Seq<char>, field: Seq<char>) -> Seq<IssueView> {
    if ip_literal(value) {
        Seq::empty()
    } else {
        seq![
            error_issue(
                field + " must be an IP address"@,
                Some("Write an IPv4 or an IPv6 literal, such as 127.0.0.1 or ::1"@),
            ),
        ]
    }
}

/// The issue `narrow_ip_addr` records: none for an IP literal, one saying a
/// rule is missing otherwise.
pub open spec fn narrow_ip_issues(value: Seq<char>) -> Seq<IssueView> {
    if ip_literal(value) {
        Seq::empty()
    } else {
        seq![
            error_issue(
                "bind is not an IP address"@,
                Some("This value reached lowering unchecked. Add a validation rule for it."@),
            ),
        ]
    }
}

/// Reports a value that is not an IPv4 or an IPv6 literal.
pub fn check_ip_addr(
    value: &Spanned<String>,
    field: &'static str,
    report: &mut confval::diagnostic::Report,
)
    ensures
        report_issues(*final(report)) == report_issues(*old(report)) + ip_issues(
            value.value@,
            field@,
        ),
        report_locations(*final(report)) == report_locations(*old(report)) + located_at_each(
            value.span,
            ip_issues(value.value@, field@).len(),
        ),
        dotted_quad(value.value@) ==> ip_literal(value.value@),
        value.value@ == "::1"@ ==> ip_literal(value.value@),
        lacks_separators(value.value@) ==> !ip_literal(value.value@),
{
    if !is_ip_literal(value.value.as_str()) {
        let message = String::from_str(field).concat(" must be an IP address");
        let help = String::from_str("Write an IPv4 or an IPv6 literal, such as 127.0.0.1 or ::1");
        emit_error(report, message, value.span, help);
    }
    assert(report_issues(*report) =~= report_issues(*old(report)) + ip_issues(
        value.value@,
        field@,
    ));
    assert(report_locations(*report) =~= report_locations(*old(report)) + located_at_each(
        value.span,
        ip_issues(value.value@, field@).len(),
    ));
}

/// Narrows a checked address at the lowering boundary: the literal itself when
/// it is an IP address.
///
/// A failure here means a validation rule is absent rather than that the
/// operator made a mistake, so the message says so.
pub fn narrow_ip_addr(value: &Spanned<String>, report: &mut confval::diagnostic::Report) -> (r:
    Option<String>)
    ensures
        r == (if ip_literal(value.value@) {
            Some(value.value)
        } else {
            None::<String>
        }),
        report_issues(*final(report)) == report_issues(*old(report)) + narrow_ip_issues(
            value.value@,
        ),
        report_locations(*final(report)) == report_locations(*old(report)) + located_at_each(
            value.span,
            narrow_ip_issues(value.value@).len(),
        ),
        dotted_quad(value.value@) ==> ip_literal(value.value@),
        value.value@ == "::1"@ ==> ip_literal(value.value@),
        lacks_separators(value.value@) ==> !ip_literal(value.value@),
{
    if is_ip_literal(value.value.as_str()) {
        assert(report_issues(*report) =~= report_issues(*old(report)) + narrow_ip_issues(
            value.value@,
        ));
        assert(report_locations(*report) =~= report_locations(*old(report)) + located_at_each(
            value.span,
            0,
        ));
        Some(value.value.clone())
    } else {
        emit_error(
            report,
            String::from_str("bind is not an IP address"),
            value.span,
            String::from_str("This value reached lowering unchecked. Add a validation rule for it."),
        );
        assert(report_locations(*report) =~= report_locations(*old(report)) + located_at_each(
            value.span,
            1,
        ));
        None
    }
}

/// The issue recorded when the hostname and the port do not form a socket
/// address.
pub open spec fn socket_address_issues(address: Option<SocketAddress>) -> Seq<IssueView> {
    if address is None {
        seq![
            error_issue(
                "hostname and port do not form a socket address"@,
                Some("Set hostname to an IPv4 address, or to an IPv6 address in brackets."@),
            ),
        ]
    } else {
        Seq::empty()
    }
}

/// Checks that the hostname and the port form a socket address, reporting at
/// the hostname when they do not, and hands the address on.
///
/// `address` is what `SocketAddr::from_str` reads from the text
/// `"{hostname}:{port}"`. This library does not call the standard library's
/// network parser; the caller runs it and passes its result, and nothing here
/// ties that result to the text.
pub fn to_socket_addr(
    hostname: &Spanned<String>,
    address: Option<SocketAddress>,
    report: &mut confval::diagnostic::Report,
) -> (r: Option<SocketAddress>)
    ensures
        r == address,
        report_issues(*final(report)) == report_issues(*old(report)) + socket_address_issues(
            address,
        ),
        report_locations(*final(report)) == report_locations(*old(report)) + located_at_each(
            hostname.span,
            socket_address_issues(address).len(),
        ),
{
    if address.is_none() {
        emit_error(
            report,
            String::from_str("hostname and port do not form a socket address"),
            hostname.span,
            String::from_str("Set hostname to an IPv4 address, or to an IPv6 address in brackets."),
        );
    }
    assert(report_issues(*report) =~= report_issues(*old(report)) + socket_address_issues(
        address,
    ));
    assert(report_locations(*report) =~= report_locations(*old(report)) + located_at_each(
        hostname.span,
        socket_address_issues(address).len(),
    ));
    address
}

} // verus!
