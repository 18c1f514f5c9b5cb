//! Located parse errors, their merging and their priority.
use vstd::prelude::*;
use crate::cursor::Span;

verus! {

/// A parse failure: what was expected (`None` standing for the end of input), what was
/// found (`None` when the input had ended) and where.
#[derive(Clone, Debug, PartialEq)]
pub struct ParseError {
    pub expected: Vec<Option<char>>,
    pub found: Option<char>,
    pub span: Span,
}

/// The mathematical value of a [`ParseError`].
pub struct ErrorView {
    pub expected: Seq<Option<char>>,
    pub found: Option<char>,
    pub span: Span,
}

impl View for ParseError {
    type V = ErrorView;

    open spec fn view(&self) -> ErrorView {
        ErrorView { expected: self.expected@, found: self.found, span: self.span }
    }
}

/// The number of offsets a span covers (negative for a reversed span).
pub open spec fn span_len(s: Span) -> int {
    s.end - s.start
}

/// Both expectations, in order; the `found` and span of the error covering the larger span,
/// the first one on a tie.
pub open spec fn merged(a: ErrorView, b: ErrorView) -> ErrorView {
    let keep_a = span_len(a.span) >= span_len(b.span);
    ErrorView {
        expected: a.expected + b.expected,
        found: if keep_a { a.found } else { b.found },
        span: if keep_a { a.span } else { b.span },
    }
}

/// The error that ends further into the input; both merged when they end at the same offset.
pub open spec fn prioritized(a: ErrorView, b: ErrorView) -> ErrorView {
    if a.span.end == b.span.end {
        merged(a, b)
    } else if a.span.end > b.span.end {
        a
    } else {
        b
    }
}

impl ParseError {
    /// A failure that expected `expected` and found `found` over `span`.
    pub fn expected_found(expected: Vec<Option<char>>, found: Option<char>, span: Span) -> (r:
        ParseError)
        ensures
            r@ == (ErrorView { expected: expected@, found, span }),
    {
        ParseError { expected, found, span }
    }

    /// Unions the expectations of two errors; see [`merged`].
    pub fn merge(self, other: ParseError) -> (r: ParseError)
        ensures
            r@ == merged(self@, other@),
    {
        let keep_self = self.span.end as i128 - self.span.start as i128 >= other.span.end as i128
            - other.span.start as i128;
        let (found, span) = if keep_self {
            (self.found, self.span)
        } else {
            (other.found, other.span)
        };
        let mut expected = self.expected;
        let mut rest = other.expected;
        expected.append(&mut rest);
        ParseError { expected, found, span }
    }

    /// Keeps the error that ends further into the input; where both end at the same offset,
    /// combines them with `merge_fn`.
    pub fn prioritize<F: FnOnce(ParseError, ParseError) -> ParseError>(
        self,
        other: ParseError,
        merge_fn: F,
    ) -> (r: ParseError)
        requires
            self.span.end == other.span.end ==> merge_fn.requires((self, other)),
        ensures
            self.span.end == other.span.end ==> merge_fn.ensures((self, other), r),
            self.span.end > other.span.end ==> r == self,
            other.span.end > self.span.end ==> r == other,
    {
        if self.span.end == other.span.end {
            merge_fn(self, other)
        } else if self.span.end > other.span.end {
            self
        } else {
            other
        }
    }

}

} // verus!
