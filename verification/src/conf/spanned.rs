//! A parsed value together with the position it came from.

use vstd::prelude::*;

use crate::conf::diagnostic::{attached, detached_span};

verus! {

/// A value and the span of source text it was read from. A value that came
/// from no text, such as a declared default, carries a detached span.
pub struct Spanned<T> {
    /// The value itself.
    pub value: T,
    /// Where the value was written.
    pub span: confval::source::Span,
}

impl<T> Spanned<T> {
    /// A value read from the given span.
    pub fn new(value: T, span: confval::source::Span) -> (s: Self)
        ensures
            s.value == value,
            s.span == span,
    {
        Spanned { value, span }
    }

    /// A value with no source position: an issue put at its span has no
    /// location.
    pub fn detached(value: T) -> (s: Self)
        ensures
            s.value == value,
            attached(s.span) is None,
    {
        Spanned { value, span: detached_span() }
    }
}

} // verus!
