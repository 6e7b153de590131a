//! Resolution of the raw attribute arguments into a threading configuration.
//!
//! Only entry-point mode reads the arguments; test and benchmark cases always
//! drive the body synchronously. Each argument must be a `key = value` pair;
//! the only recognized key, ignoring ASCII case, is `threads`, whose value
//! must be an unsigned decimal integer literal. A count greater than one asks
//! for that many worker threads; zero and one normalize to the default
//! calling-thread configuration. When the key is repeated the last occurrence
//! wins. With no arguments at all, an entry point resolves to automatic
//! sizing when the host build opts in, and to the default otherwise.

use vstd::prelude::*;
use vstd::string::StrSliceExecFns;
use crate::descriptor::{AttrArg, AttrArgView, SynthesisMode, ThreadingConfig, arg_views};
use crate::diagnostics::{Diagnostic, DiagnosticKind, DiagnosticKindView, DiagnosticView};

verus! {

/// An ASCII decimal digit.
pub open spec fn is_ascii_digit(c: char) -> bool {
    48 <= c as int <= 57
}

/// The numeric value of an ASCII decimal digit.
pub open spec fn digit_val(c: char) -> nat {
    (c as int - 48) as nat
}

/// An unsigned decimal integer literal: one or more ASCII digits.
pub open spec fn is_int_literal(s: Seq<char>) -> bool {
    s.len() > 0 && (forall|i: int| 0 <= i < s.len() ==> is_ascii_digit(#[trigger] s[i]))
}

/// The value of a sequence of ASCII digits, most significant first.
pub open spec fn digits_val(s: Seq<char>) -> nat
    decreases s.len(),
{
    if s.len() == 0 {
        0
    } else {
        digits_val(s.drop_last()) * 10 + digit_val(s.last())
    }
}

/// The key `threads`, compared ignoring ASCII case.
pub open spec fn is_threads_key(k: Seq<char>) -> bool {
    &&& k.len() == 7
    &&& (k[0] == 't' || k[0] == 'T')
    &&& (k[1] == 'h' || k[1] == 'H')
    &&& (k[2] == 'r' || k[2] == 'R')
    &&& (k[3] == 'e' || k[3] == 'E')
    &&& (k[4] == 'a' || k[4] == 'A')
    &&& (k[5] == 'd' || k[5] == 'D')
    &&& (k[6] == 's' || k[6] == 'S')
}

/// A `threads` value that the resolver can represent: its digits fit the
/// machine word the worker count is held in. The one argument text excluded
/// here is an integer literal naming a count beyond that word.
pub open spec fn arg_fits(a: AttrArgView) -> bool {
    match a {
        AttrArgView::Pair { key, value, .. } => (is_threads_key(key) && is_int_literal(value))
            ==> digits_val(value) <= u32::MAX,
        AttrArgView::Other { .. } => true,
    }
}

/// Every `threads` value in the list fits. Machine limit only: no other
/// input is excluded anywhere in the pipeline.
pub open spec fn args_fit(args: Seq<AttrArgView>) -> bool {
    forall|i: int| 0 <= i < args.len() ==> arg_fits(#[trigger] args[i])
}

/// Folds the argument list left to right into a configuration, first error
/// wins; a later `threads` pair overwrites an earlier one.
pub open spec fn resolve_args(args: Seq<AttrArgView>, acc: ThreadingConfig) -> Result<
    ThreadingConfig,
    DiagnosticView,
>
    decreases args.len(),
{
    if args.len() == 0 {
        Ok(acc)
    } else {
        match args[0] {
            AttrArgView::Pair { key, value, key_span, value_span, span } => {
                if !is_threads_key(key) {
                    Err(DiagnosticView {
                        kind: DiagnosticKindView::UnknownAttributeKey { key },
                        span: key_span,
                    })
                } else if !is_int_literal(value) {
                    Err(DiagnosticView {
                        kind: DiagnosticKindView::ThreadsNotInteger,
                        span: value_span,
                    })
                } else {
                    let n = digits_val(value) as u32;
                    let next = if n > 1 {
                        ThreadingConfig::Fixed(n)
                    } else {
                        ThreadingConfig::CallingThreadOnly
                    };
                    resolve_args(args.drop_first(), next)
                }
            },
            AttrArgView::Other { span } => Err(DiagnosticView {
                kind: DiagnosticKindView::UnknownAttributeShape,
                span,
            }),
        }
    }
}

/// The resolved configuration of one invocation, or the first configuration
/// error.
pub open spec fn resolve_spec(
    args: Seq<AttrArgView>,
    mode: SynthesisMode,
    auto_sizing: bool,
) -> Result<ThreadingConfig, DiagnosticView> {
    if mode != SynthesisMode::EntryPoint {
        Ok(ThreadingConfig::CallingThreadOnly)
    } else if args.len() == 0 {
        if auto_sizing {
            Ok(ThreadingConfig::AutoDetected)
        } else {
            Ok(ThreadingConfig::CallingThreadOnly)
        }
    } else {
        resolve_args(args, ThreadingConfig::CallingThreadOnly)
    }
}

/// A configuration the resolver can produce never carries a fixed count of
/// zero or one.
pub open spec fn config_wf(c: ThreadingConfig) -> bool {
    c matches ThreadingConfig::Fixed(n) ==> n > 1
}

proof fn lemma_resolve_args_wf(args: Seq<AttrArgView>, acc: ThreadingConfig)
    requires
        config_wf(acc),
        resolve_args(args, acc) is Ok,
    ensures
        config_wf(resolve_args(args, acc)->Ok_0),
    decreases args.len(),
{
    if args.len() > 0 {
        match args[0] {
            AttrArgView::Pair { key, value, .. } => {
                if is_threads_key(key) && is_int_literal(value) {
                    let n = digits_val(value) as u32;
                    let next = if n > 1 {
                        ThreadingConfig::Fixed(n)
                    } else {
                        ThreadingConfig::CallingThreadOnly
                    };
                    lemma_resolve_args_wf(args.drop_first(), next);
                }
            },
            AttrArgView::Other { .. } => {},
        }
    }
}

/// Whatever the resolver accepts is a well-formed configuration.
pub proof fn lemma_resolve_wf(args: Seq<AttrArgView>, mode: SynthesisMode, auto_sizing: bool)
    requires
        resolve_spec(args, mode, auto_sizing) is Ok,
    ensures
        config_wf(resolve_spec(args, mode, auto_sizing)->Ok_0),
{
    if mode == SynthesisMode::EntryPoint && args.len() > 0 {
        lemma_resolve_args_wf(args, ThreadingConfig::CallingThreadOnly);
    }
}

/// The value of a digit prefix never exceeds the value of the whole digit
/// string.
proof fn lemma_digits_val_prefix_le(s: Seq<char>, i: int)
    requires
        0 <= i <= s.len(),
        forall|j: int| 0 <= j < s.len() ==> is_ascii_digit(#[trigger] s[j]),
    ensures
        digits_val(s.subrange(0, i)) <= digits_val(s),
    decreases s.len() - i,
{
    if i == s.len() {
        assert(s.subrange(0, i) =~= s);
    } else {
        let shorter = s.subrange(0, i);
        let longer = s.subrange(0, i + 1);
        assert(longer.drop_last() =~= shorter);
        assert(digits_val(longer) == digits_val(shorter) * 10 + digit_val(longer.last()));
        lemma_digits_val_prefix_le(s, i + 1);
    }
}

/// Checks whether the key is `threads`, ignoring ASCII case.
fn key_is_threads(k: &String) -> (r: bool)
    ensures
        r == is_threads_key(k@),
{
    let s = k.as_str();
    if s.unicode_len() != 7 {
        return false;
    }
    let c0 = s.get_char(0);
    let c1 = s.get_char(1);
    let c2 = s.get_char(2);
    let c3 = s.get_char(3);
    let c4 = s.get_char(4);
    let c5 = s.get_char(5);
    let c6 = s.get_char(6);
    (c0 == 't' || c0 == 'T') && (c1 == 'h' || c1 == 'H') && (c2 == 'r' || c2 == 'R') && (c3 == 'e'
        || c3 == 'E') && (c4 == 'a' || c4 == 'A') && (c5 == 'd' || c5 == 'D') && (c6 == 's' || c6
        == 'S')
}

/// Parses an unsigned decimal integer literal; anything else is `None`.
fn parse_uint(value: &String) -> (r: Option<u32>)
    requires
        is_int_literal(value@) ==> digits_val(value@) <= u32::MAX,
    ensures
        r is Some <==> is_int_literal(value@),
        r matches Some(n) ==> n == digits_val(value@),
{
    let s = value.as_str();
    let len = s.unicode_len();
    if len == 0 {
        return None;
    }
    let mut i: usize = 0;
    while i < len
        invariant
            s@ == value@,
            len == s@.len(),
            0 <= i <= len,
            forall|j: int| 0 <= j < i ==> is_ascii_digit(#[trigger] s@[j]),
        decreases len - i,
    {
        let c = s.get_char(i);
        let code = c as u32;
        if code < 48 || code > 57 {
            proof {
                assert(c as int == code as int);
                assert(!is_ascii_digit(value@[i as int]));
            }
            return None;
        }
        i = i + 1;
    }
    assert(is_int_literal(value@));
    let mut acc: u32 = 0;
    let mut k: usize = 0;
    while k < len
        invariant
            len == s@.len(),
            s@ == value@,
            is_int_literal(value@),
            digits_val(value@) <= u32::MAX,
            0 <= k <= len,
            acc == digits_val(s@.subrange(0, k as int)),
        decreases len - k,
    {
        let c = s.get_char(k);
        let code = c as u32;
        assert(is_ascii_digit(s@[k as int]));
        assert(48 <= code <= 57);
        proof {
            let pre = s@.subrange(0, k as int);
            let ext = s@.subrange(0, k as int + 1);
            assert(ext.drop_last() =~= pre);
            assert(ext.last() == s@[k as int]);
            assert(digits_val(ext) == digits_val(pre) * 10 + digit_val(s@[k as int]));
            lemma_digits_val_prefix_le(s@, k as int + 1);
            assert(s@.subrange(0, s@.len() as int) =~= s@);
            assert(digits_val(ext) <= u32::MAX);
        }
        acc = acc * 10 + (code - 48);
        k = k + 1;
    }
    proof {
        assert(s@.subrange(0, len as int) =~= s@);
    }
    Some(acc)
}

/// Resolves the raw attribute arguments for one invocation: a threading
/// configuration, or the first configuration error with its location.
pub fn resolve(args: &Vec<AttrArg>, mode: SynthesisMode, auto_sizing: bool) -> (r: Result<
    ThreadingConfig,
    Diagnostic,
>)
    requires
        args_fit(arg_views(args@)),
    ensures
        r matches Ok(c) ==> resolve_spec(arg_views(args@), mode, auto_sizing) == Ok::<
            ThreadingConfig,
            DiagnosticView,
        >(c),
        r matches Err(e) ==> resolve_spec(arg_views(args@), mode, auto_sizing) == Err::<
            ThreadingConfig,
            DiagnosticView,
        >(e@),
{
    let ghost views = arg_views(args@);
    if !matches!(mode, SynthesisMode::EntryPoint) {
        return Ok(ThreadingConfig::CallingThreadOnly);
    }
    if args.len() == 0 {
        if auto_sizing {
            return Ok(ThreadingConfig::AutoDetected);
        } else {
            return Ok(ThreadingConfig::CallingThreadOnly);
        }
    }
    let mut acc = ThreadingConfig::CallingThreadOnly;
    let mut i: usize = 0;
    proof {
        assert(views.skip(0) =~= views);
    }
    while i < args.len()
        invariant
            args_fit(views),
            views == arg_views(args@),
            views.len() == args.len(),
            0 <= i <= args.len(),
            mode == SynthesisMode::EntryPoint,
            resolve_args(views, ThreadingConfig::CallingThreadOnly) == resolve_args(
                views.skip(i as int),
                acc,
            ),
        decreases args.len() - i,
    {
        proof {
            assert(views[i as int] == args@[i as int]@);
            assert(views.skip(i as int)[0] == views[i as int]);
            assert(views.skip(i as int).drop_first() =~= views.skip(i as int + 1));
        }
        match &args[i] {
            AttrArg::Pair { key, value, key_span, value_span, span: _ } => {
                if !key_is_threads(key) {
                    return Err(Diagnostic {
                        kind: DiagnosticKind::UnknownAttributeKey { key: key.clone() },
                        span: *key_span,
                    });
                }
                proof {
                    assert(arg_fits(views[i as int]));
                }
                match parse_uint(value) {
                    None => {
                        return Err(Diagnostic {
                            kind: DiagnosticKind::ThreadsNotInteger,
                            span: *value_span,
                        });
                    },
                    Some(n) => {
                        if n > 1 {
                            acc = ThreadingConfig::Fixed(n);
                        } else {
                            acc = ThreadingConfig::CallingThreadOnly;
                        }
                    },
                }
            },
            AttrArg::Other { span } => {
                return Err(Diagnostic { kind: DiagnosticKind::UnknownAttributeShape, span: *span });
            },
        }
        i = i + 1;
    }
    proof {
        assert(views.skip(i as int) =~= Seq::<AttrArgView>::empty());
    }
    Ok(acc)
}

} // verus!
