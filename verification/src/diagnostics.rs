//! Located diagnostics. A failed expansion produces exactly one of these in
//! place of any replacement code; it is never combined with a partial result.

use vstd::prelude::*;
use crate::descriptor::Span;
use vstd::string::StringExecFns;

verus! {

/// What went wrong, carrying the offending key text where the message quotes
/// it.
#[derive(Debug, PartialEq, Eq)]
pub enum DiagnosticKind {
    /// The annotated declaration is not `async` (rejected in every mode).
    AsyncMissing,
    /// In entry-point mode the annotated function is not named `main`.
    NotMainFunction,
    /// In benchmark mode the annotated function takes parameters.
    BenchmarkArguments,
    /// An attribute argument is not a key/value pair.
    UnknownAttributeShape,
    /// The value of a `threads` argument is not an integer literal.
    ThreadsNotInteger,
    /// A key/value pair with a key other than `threads`.
    UnknownAttributeKey { key: String },
}

/// Mathematical mirror of [`DiagnosticKind`].
#[verifier::ext_equal]
pub ghost enum DiagnosticKindView {
    AsyncMissing,
    NotMainFunction,
    BenchmarkArguments,
    UnknownAttributeShape,
    ThreadsNotInteger,
    UnknownAttributeKey { key: Seq<char> },
}

impl View for DiagnosticKind {
    type V = DiagnosticKindView;

    open spec fn view(&self) -> DiagnosticKindView {
        match self {
            DiagnosticKind::AsyncMissing => DiagnosticKindView::AsyncMissing,
            DiagnosticKind::NotMainFunction => DiagnosticKindView::NotMainFunction,
            DiagnosticKind::BenchmarkArguments => DiagnosticKindView::BenchmarkArguments,
            DiagnosticKind::UnknownAttributeShape => DiagnosticKindView::UnknownAttributeShape,
            DiagnosticKind::ThreadsNotInteger => DiagnosticKindView::ThreadsNotInteger,
            DiagnosticKind::UnknownAttributeKey { key } => DiagnosticKindView::UnknownAttributeKey {
                key: key@,
            },
        }
    }
}

/// A located error: the terminal output of a failed expansion.
#[derive(Debug, PartialEq, Eq)]
pub struct Diagnostic {
    pub kind: DiagnosticKind,
    pub span: Span,
}

/// Mathematical mirror of [`Diagnostic`].
#[verifier::ext_equal]
pub ghost struct DiagnosticView {
    pub kind: DiagnosticKindView,
    pub span: Span,
}

impl View for Diagnostic {
    type V = DiagnosticView;

    open spec fn view(&self) -> DiagnosticView {
        DiagnosticView { kind: self.kind@, span: self.span }
    }
}

/// The human-readable text of each diagnostic.
pub open spec fn spec_message(kind: DiagnosticKindView) -> Seq<char> {
    match kind {
        DiagnosticKindView::AsyncMissing => "the async keyword is missing from the function declaration"@,
        DiagnosticKindView::NotMainFunction => "only the main function can be tagged with this entry-point decoration"@,
        DiagnosticKindView::BenchmarkArguments => "async benchmarks don't take any arguments"@,
        DiagnosticKindView::UnknownAttributeShape => "unknown attribute inside the macro"@,
        DiagnosticKindView::ThreadsNotInteger => "threads argument must be an int"@,
        DiagnosticKindView::UnknownAttributeKey { key } => "unknown attribute pair "@ + key
            + " is specified; expected: threads"@,
    }
}

impl Diagnostic {
    /// Renders the message that the host surfaces verbatim at `self.span`.
    pub fn message(&self) -> (r: String)
        ensures
            r@ == spec_message(self@.kind),
    {
        match &self.kind {
            DiagnosticKind::AsyncMissing => "the async keyword is missing from the function declaration".to_owned(),
            DiagnosticKind::NotMainFunction => "only the main function can be tagged with this entry-point decoration".to_owned(),
            DiagnosticKind::BenchmarkArguments => "async benchmarks don't take any arguments".to_owned(),
            DiagnosticKind::UnknownAttributeShape => "unknown attribute inside the macro".to_owned(),
            DiagnosticKind::ThreadsNotInteger => "threads argument must be an int".to_owned(),
            DiagnosticKind::UnknownAttributeKey { key } => {
                let mut r = "unknown attribute pair ".to_owned();
                r.append(key.as_str());
                r.append(" is specified; expected: threads");
                r
            },
        }
    }
}

} // verus!
