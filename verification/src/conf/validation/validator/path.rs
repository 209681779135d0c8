//! Checks of file paths a setting names.

use vstd::prelude::*;

use crate::conf::diagnostic::{
    emit_error, error_issue, located_at_each, report_issues, report_locations, IssueView,
};
use crate::conf::spanned::Spanned;
use crate::conf::validation::validator::disk::{path_exists, DiskLookup};

verus! {

/// The parent of a path as `Path::parent` computes it from the text: `None`
/// for a root or an empty path, and the text before the last component
/// otherwise.
pub uninterp spec fn path_parent_of(path: Seq<char>) -> Option<Seq<char>>;

/// `Path::parent`, read back as text. A parent of a path built from text is a
/// prefix of that text, so the conversion loses nothing. As the documentation
/// of `Path::parent` shows, on a Unix target (where `/` is the only separator
/// and no path has a prefix) the root `/` has no parent, and a single
/// component with no separator has the empty path as its parent.
#[verifier::external_body]
fn path_parent(path: &str) -> (parent: Option<String>)
    ensures
        match parent {
            Some(p) => path_parent_of(path@) == Some(p@),
            None => path_parent_of(path@) is None,
        },
        path@ == seq!['/'] ==> parent is None,
        (path@.len() > 0 && !path@.contains('/')) ==> (parent is Some && parent.unwrap()@.len() == 0),
{
    match std::path::Path::new(path).parent() {
        Some(parent) => Some(parent.to_string_lossy().into_owned()),
        None => None,
    }
}

/// The text between the separators of a path, in order, as `/` splits it.
pub open spec fn split_at_slashes(text: Seq<char>) -> Seq<Seq<char>>
    decreases text.len(),
{
    if text.len() == 0 {
        seq![Seq::<char>::empty()]
    } else if text.last() == '/' {
        split_at_slashes(text.drop_last()).push(Seq::empty())
    } else {
        let parts = split_at_slashes(text.drop_last());
        parts.update(parts.len() - 1, parts.last().push(text.last()))
    }
}

/// The segments that name a component: those neither empty nor `.`, in
/// order.
pub open spec fn kept_segments(parts: Seq<Seq<char>>) -> Seq<Seq<char>>
    decreases parts.len(),
{
    if parts.len() == 0 {
        Seq::empty()
    } else if parts.last().len() > 0 && parts.last() != seq!['.'] {
        kept_segments(parts.drop_last()).push(parts.last())
    } else {
        kept_segments(parts.drop_last())
    }
}

/// The components `Path::components` reads from a path's text on Unix, each
/// as text: the root `/` when the text starts with a separator; `.` when a
/// relative path starts with a `.` segment; then every segment that is
/// neither empty nor `.`, in order. Repeated separators, inner `.` segments
/// and a trailing separator leave no component.
pub open spec fn path_components(text: Seq<char>) -> Seq<Seq<char>> {
    let parts = split_at_slashes(text);
    let rooted = text.len() > 0 && text[0] == '/';
    (if rooted {
        seq![seq!['/']]
    } else {
        Seq::empty()
    }) + (if !rooted && parts[0] == seq!['.'] {
        seq![seq!['.']]
    } else {
        Seq::empty()
    }) + kept_segments(parts)
}

/// `==` on two `Path`s built from text. `Path`'s `PartialEq` compares the
/// paths' components, so on a Unix target two texts name the same path
/// exactly when their components, as `path_components` reads them, are equal.
#[verifier::external_body]
pub(crate) fn same_path(a: &str, b: &str) -> (same: bool)
    ensures
        same == (path_components(a@) == path_components(b@)),
{
    std::path::Path::new(a) == std::path::Path::new(b)
}

/// Whether the path names a parent directory worth checking: one with a
/// non-empty parent.
pub open spec fn has_checked_parent(path: Seq<char>) -> bool {
    path_parent_of(path) matches Some(parent) && parent.len() > 0
}

/// The issue recorded for a path whose parent directory is missing.
pub open spec fn missing_parent_issues(path: Seq<char>, field: Seq<char>, missing: bool) -> Seq<
    IssueView,
> {
    if missing {
        seq![
            error_issue(
                field + " parent directory does not exist: "@ + path,
                Some("Create the parent directory or choose a path under an existing directory."@),
            ),
        ]
    } else {
        Seq::empty()
    }
}

/// Records an error for the path when its parent directory is missing.
pub fn report_missing_parent(
    path: &Spanned<String>,
    field: &'static str,
    missing: bool,
    report: &mut confval::diagnostic::Report,
)
    ensures
        report_issues(*final(report)) == report_issues(*old(report)) + missing_parent_issues(
            path.value@,
            field@,
            missing,
        ),
        report_locations(*final(report)) == report_locations(*old(report)) + located_at_each(
            path.span,
            missing_parent_issues(path.value@, field@, missing).len(),
        ),
{
    if missing {
        let message = String::from_str(field).concat(" parent directory does not exist: ").concat(
            path.value.as_str(),
        );
        emit_error(
            report,
            message,
            path.span,
            String::from_str(
                "Create the parent directory or choose a path under an existing directory.",
            ),
        );
    }
    assert(report_issues(*report) =~= report_issues(*old(report)) + missing_parent_issues(
        path.value@,
        field@,
        missing,
    ));
    assert(report_locations(*report) =~= report_locations(*old(report)) + located_at_each(
        path.span,
        missing_parent_issues(path.value@, field@, missing).len(),
    ));
}

/// Whether the probe is the answer of a look at the disk: some look at the
/// probed path found exactly what the probe says.
pub open spec fn probe_from_disk(probe: Option<(String, bool)>) -> bool {
    probe matches Some((probed, present)) ==> exists|lookup: DiskLookup|
        #[trigger] lookup.looked_at() == probed@ && lookup.found() == present
}

/// Whether a probe of a parent directory found it missing.
pub open spec fn probe_missing(probe: Option<(String, bool)>) -> bool {
    probe matches Some((_, present)) && !present
}

/// Report an error if the parent directory of `path`'s value does not exist.
///
/// `field` names the offending field for the message. A value with no parent
/// component, or an empty parent (a bare filename), is treated as valid, and
/// the disk is not consulted. Otherwise the parent is looked up on disk, and
/// the probe comes back: the parent's text and whether it was found. The
/// report gains the missing-parent error exactly when it was not.
pub fn parent_exists(
    path: &Spanned<String>,
    field: &'static str,
    report: &mut confval::diagnostic::Report,
) -> (probe: Option<(String, bool)>)
    ensures
        probe is Some <==> has_checked_parent(path.value@),
        probe matches Some((probed, _)) ==> path_parent_of(path.value@) == Some(probed@),
        probe_from_disk(probe),
        path.value@ == seq!['/'] ==> probe is None,
        (path.value@.len() > 0 && !path.value@.contains('/')) ==> probe is None,
        report_issues(*final(report)) == report_issues(*old(report)) + missing_parent_issues(
            path.value@,
            field@,
            probe_missing(probe),
        ),
        report_locations(*final(report)) == report_locations(*old(report)) + located_at_each(
            path.span,
            missing_parent_issues(path.value@, field@, probe_missing(probe)).len(),
        ),
{
    match path_parent(path.value.as_str()) {
        Some(parent) => {
            if !parent.as_str().is_empty() {
                let lookup = path_exists(parent.as_str());
                let ghost look = lookup;
                let probe = lookup.into_parts();
                assert(look.looked_at() == probe.0@ && look.found() == probe.1);
                report_missing_parent(path, field, !probe.1, report);
                Some(probe)
            } else {
                report_missing_parent(path, field, false, report);
                None
            }
        },
        None => {
            report_missing_parent(path, field, false, report);
            None
        },
    }
}

} // verus!
