//! The plain data model of one expansion: source spans, the parsed function
//! descriptor, raw attribute arguments, the synthesis mode, and the resolved
//! threading configuration.

use vstd::prelude::*;

verus! {

/// A half-open range of positions in the annotated source text. The library
/// never interprets the positions; it only carries them so that a diagnostic
/// can point at the offending token. An adapter may equally well store an
/// index into its own span table in both fields.
#[derive(Clone, Copy, PartialEq, Eq, Structural, Debug)]
pub struct Span {
    pub lo: usize,
    pub hi: usize,
}

/// Which of the three output shapes one invocation produces: a process entry
/// point, a test case, or a benchmark case. Fixed for the whole invocation.
#[derive(Clone, Copy, PartialEq, Eq, Structural, Debug)]
pub enum SynthesisMode {
    EntryPoint,
    TestCase,
    BenchmarkCase,
}

/// The resolved, normalized threading configuration of an entry point.
#[derive(Clone, Copy, PartialEq, Eq, Structural, Debug)]
pub enum ThreadingConfig {
    /// The default: no worker threads are spawned; the body is driven to
    /// completion directly on the calling thread. A requested thread count of
    /// zero or one also normalizes to this (one worker doing what the calling
    /// thread could do directly has no benefit).
    CallingThreadOnly,
    /// Spawn exactly this many executor-polling worker threads. The count is
    /// always greater than one; smaller requests normalize to
    /// `CallingThreadOnly`.
    Fixed(u32),
    /// Spawn one worker thread per detected logical CPU (at least one).
    /// Chosen only in entry-point mode, only when the host build opts into
    /// automatic sizing, and only when no attribute arguments were written.
    AutoDetected,
}

/// The parsed shape of the annotated function declaration. Parameter texts,
/// the return type, the body, the pass-through attributes and the visibility
/// qualifier are opaque to this library: it copies them into the output plan
/// but never interprets them.
#[derive(Debug)]
pub struct FunctionDescriptor {
    pub name: String,
    pub is_async: bool,
    pub params: Vec<String>,
    pub ret: String,
    pub body: String,
    pub attrs: Vec<String>,
    pub visibility: String,
    /// Span of the whole declaration.
    pub span: Span,
    /// Span of the name token.
    pub name_span: Span,
    /// Span of the parameter list.
    pub params_span: Span,
}

/// Mathematical mirror of [`FunctionDescriptor`]: every text is a sequence of
/// characters.
#[verifier::ext_equal]
pub ghost struct FnDeclView {
    pub name: Seq<char>,
    pub is_async: bool,
    pub params: Seq<Seq<char>>,
    pub ret: Seq<char>,
    pub body: Seq<char>,
    pub attrs: Seq<Seq<char>>,
    pub visibility: Seq<char>,
    pub span: Span,
    pub name_span: Span,
    pub params_span: Span,
}

impl View for FunctionDescriptor {
    type V = FnDeclView;

    open spec fn view(&self) -> FnDeclView {
        FnDeclView {
            name: self.name@,
            is_async: self.is_async,
            params: self.params@.map_values(|p: String| p@),
            ret: self.ret@,
            body: self.body@,
            attrs: self.attrs@.map_values(|a: String| a@),
            visibility: self.visibility@,
            span: self.span,
            name_span: self.name_span,
            params_span: self.params_span,
        }
    }
}

/// One raw attribute argument as written by the caller.
#[derive(Debug)]
pub enum AttrArg {
    /// A `key = value` pair: an identifier-like key token and a literal value
    /// token, each carrying its location.
    Pair { key: String, value: String, key_span: Span, value_span: Span, span: Span },
    /// Any other argument shape (a bare flag, a nested form, ...), with its
    /// location.
    Other { span: Span },
}

/// Mathematical mirror of [`AttrArg`].
#[verifier::ext_equal]
pub ghost enum AttrArgView {
    Pair { key: Seq<char>, value: Seq<char>, key_span: Span, value_span: Span, span: Span },
    Other { span: Span },
}

impl View for AttrArg {
    type V = AttrArgView;

    open spec fn view(&self) -> AttrArgView {
        match self {
            AttrArg::Pair { key, value, key_span, value_span, span } => AttrArgView::Pair {
                key: key@,
                value: value@,
                key_span: *key_span,
                value_span: *value_span,
                span: *span,
            },
            AttrArg::Other { span } => AttrArgView::Other { span: *span },
        }
    }
}

/// The views of a whole argument list, in order.
pub open spec fn arg_views(args: Seq<AttrArg>) -> Seq<AttrArgView> {
    args.map_values(|a: AttrArg| a@)
}

} // verus!
