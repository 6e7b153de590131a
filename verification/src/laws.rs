//! The library-wide guarantees, stated and proved over the specification
//! functions that the executable pipeline is proved equal to.

use vstd::prelude::*;
use crate::descriptor::{AttrArgView, FnDeclView, Span, SynthesisMode, ThreadingConfig};
use crate::diagnostics::{DiagnosticKindView, DiagnosticView};
use crate::pipeline::expand_spec;
use crate::protocol::{PoolState, is_pool_trace, lemma_pool_graceful_drain, lemma_pool_trace_inv, pool_init};
use crate::resolve::{digits_val, is_int_literal, is_threads_key, resolve_args, resolve_spec};
use crate::synthesize::{Bootstrap, Harness, PoolSizing};
use crate::validate::descriptor_valid;

verus! {

/// A valid entry point with no attribute arguments and automatic sizing
/// disabled expands to a plan with no worker threads: the body is driven
/// once, on the calling thread.
pub proof fn lemma_default_entry_runs_on_calling_thread(d: FnDeclView)
    requires
        descriptor_valid(d, SynthesisMode::EntryPoint),
    ensures
        expand_spec(d, Seq::empty(), SynthesisMode::EntryPoint, false) matches Ok(s)
            && s.bootstrap == Bootstrap::DriveOnCallingThread && s.harness == Harness::Plain,
{
}

/// A valid entry point whose one argument is `threads = v`, for any key
/// casing and any integer literal `v` naming a count greater than one,
/// expands to a pool of exactly that many worker threads — whether or not
/// the host build opts into automatic sizing.
pub proof fn lemma_fixed_thread_count(
    d: FnDeclView,
    key: Seq<char>,
    value: Seq<char>,
    key_span: Span,
    value_span: Span,
    span: Span,
    auto_sizing: bool,
)
    requires
        descriptor_valid(d, SynthesisMode::EntryPoint),
        is_threads_key(key),
        is_int_literal(value),
        1 < digits_val(value) <= u32::MAX,
    ensures
        expand_spec(
            d,
            seq![AttrArgView::Pair { key, value, key_span, value_span, span }],
            SynthesisMode::EntryPoint,
            auto_sizing,
        ) matches Ok(s) && s.bootstrap == Bootstrap::WorkerPool(
            PoolSizing::Count(digits_val(value) as u32),
        ),
{
    let args = seq![AttrArgView::Pair { key, value, key_span, value_span, span }];
    let n = digits_val(value) as u32;
    assert(n > 1);
    assert(args.drop_first() =~= Seq::<AttrArgView>::empty());
    assert(resolve_args(args, ThreadingConfig::CallingThreadOnly) == resolve_args(
        Seq::<AttrArgView>::empty(),
        ThreadingConfig::Fixed(n),
    ));
    assert(resolve_args(Seq::<AttrArgView>::empty(), ThreadingConfig::Fixed(n)) == Ok::<
        ThreadingConfig,
        DiagnosticView,
    >(ThreadingConfig::Fixed(n)));
}

/// A requested count of zero or one is not an error and not a one-worker
/// pool: any integer literal `v` with value at most one normalizes to the
/// default calling-thread plan.
pub proof fn lemma_small_thread_count_normalizes_to_default(
    d: FnDeclView,
    key: Seq<char>,
    value: Seq<char>,
    key_span: Span,
    value_span: Span,
    span: Span,
    auto_sizing: bool,
)
    requires
        descriptor_valid(d, SynthesisMode::EntryPoint),
        is_threads_key(key),
        is_int_literal(value),
        digits_val(value) <= 1,
    ensures
        expand_spec(
            d,
            seq![AttrArgView::Pair { key, value, key_span, value_span, span }],
            SynthesisMode::EntryPoint,
            auto_sizing,
        ) matches Ok(s) && s.bootstrap == Bootstrap::DriveOnCallingThread,
{
    let args = seq![AttrArgView::Pair { key, value, key_span, value_span, span }];
    assert(args.drop_first() =~= Seq::<AttrArgView>::empty());
    assert(resolve_args(args, ThreadingConfig::CallingThreadOnly) == resolve_args(
        Seq::<AttrArgView>::empty(),
        ThreadingConfig::CallingThreadOnly,
    ));
    assert(resolve_args(Seq::<AttrArgView>::empty(), ThreadingConfig::CallingThreadOnly) == Ok::<
        ThreadingConfig,
        DiagnosticView,
    >(ThreadingConfig::CallingThreadOnly));
}

/// A `threads` value that is not an integer literal fails resolution with a
/// configuration error located at the value token, and no code is
/// synthesized — whatever arguments follow.
pub proof fn lemma_non_integer_threads_value_rejected(
    d: FnDeclView,
    args: Seq<AttrArgView>,
    key: Seq<char>,
    value: Seq<char>,
    key_span: Span,
    value_span: Span,
    span: Span,
    auto_sizing: bool,
)
    requires
        descriptor_valid(d, SynthesisMode::EntryPoint),
        args.len() > 0,
        args[0] == (AttrArgView::Pair { key, value, key_span, value_span, span }),
        is_threads_key(key),
        !is_int_literal(value),
    ensures
        expand_spec(d, args, SynthesisMode::EntryPoint, auto_sizing) == Err::<
            crate::synthesize::SynthesizedView,
            DiagnosticView,
        >(DiagnosticView { kind: DiagnosticKindView::ThreadsNotInteger, span: value_span }),
{
}

/// A declaration that is not `async` is rejected in every mode with the
/// missing-async diagnostic at the whole declaration, before any
/// configuration resolution: the arguments and the sizing opt-in play no
/// part.
pub proof fn lemma_non_async_rejected(
    d: FnDeclView,
    args: Seq<AttrArgView>,
    mode: SynthesisMode,
    auto_sizing: bool,
)
    requires
        !d.is_async,
    ensures
        expand_spec(d, args, mode, auto_sizing) == Err::<
            crate::synthesize::SynthesizedView,
            DiagnosticView,
        >(DiagnosticView { kind: DiagnosticKindView::AsyncMissing, span: d.span }),
{
}

/// An async benchmark case with one or more parameters is rejected with the
/// no-arguments diagnostic at the parameter list, whatever the arguments.
pub proof fn lemma_benchmark_with_parameters_rejected(
    d: FnDeclView,
    args: Seq<AttrArgView>,
    auto_sizing: bool,
)
    requires
        d.is_async,
        d.params.len() > 0,
    ensures
        expand_spec(d, args, SynthesisMode::BenchmarkCase, auto_sizing) == Err::<
            crate::synthesize::SynthesizedView,
            DiagnosticView,
        >(DiagnosticView { kind: DiagnosticKindView::BenchmarkArguments, span: d.params_span }),
{
}

/// An async entry point named anything but `main` is rejected with the
/// only-main diagnostic at the name token, whatever the arguments.
pub proof fn lemma_entry_point_must_be_main(
    d: FnDeclView,
    args: Seq<AttrArgView>,
    auto_sizing: bool,
)
    requires
        d.is_async,
        d.name != "main"@,
    ensures
        expand_spec(d, args, SynthesisMode::EntryPoint, auto_sizing) == Err::<
            crate::synthesize::SynthesizedView,
            DiagnosticView,
        >(DiagnosticView { kind: DiagnosticKindView::NotMainFunction, span: d.name_span }),
{
}

/// The pipeline is never reapplied to its own output: the outer function of
/// every successful expansion is synchronous, so feeding it back in as a
/// fresh input — in any mode, with any arguments — is rejected with the
/// missing-async diagnostic rather than expanded again.
pub proof fn lemma_output_never_reexpanded(
    d: FnDeclView,
    args: Seq<AttrArgView>,
    mode: SynthesisMode,
    auto_sizing: bool,
    args2: Seq<AttrArgView>,
    mode2: SynthesisMode,
    auto_sizing2: bool,
)
    requires
        expand_spec(d, args, mode, auto_sizing) matches Ok(s),
    ensures
        expand_spec(d, args, mode, auto_sizing) matches Ok(s) ==> {
            &&& !s.outer.is_async
            &&& expand_spec(s.outer, args2, mode2, auto_sizing2) == Err::<
                crate::synthesize::SynthesizedView,
                DiagnosticView,
            >(DiagnosticView { kind: DiagnosticKindView::AsyncMissing, span: s.outer.span })
        },
{
    let s = expand_spec(d, args, mode, auto_sizing)->Ok_0;
    lemma_non_async_rejected(s.outer, args2, mode2, auto_sizing2);
}

/// A worker pool of `n` threads drains gracefully in every execution of the
/// synthesized bootstrap's shutdown protocol: the close signal is sent only
/// after the body's result is captured, and when the outer call returns,
/// exactly the `n` spawned workers have observed shutdown and exited.
pub proof fn lemma_pool_shutdown_ordering(t: Seq<PoolState>, n: nat)
    requires
        is_pool_trace(t, n),
        t.last().returned,
    ensures
        forall|k: int| 0 <= k < t.len() && #[trigger] t[k].shutdown_sent
            ==> t[k].result_captured,
        t.last().result_captured,
        t.last().shutdown_sent,
        forall|i: nat| i < n <==> t.last().exited.contains(i),
{
    assert forall|k: int| 0 <= k < t.len() && #[trigger] t[k].shutdown_sent implies
        t[k].result_captured by {
        lemma_pool_trace_inv(t, n, k);
    }
    lemma_pool_graceful_drain(t, n);
}

} // verus!
