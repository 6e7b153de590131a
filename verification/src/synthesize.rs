//! Entry-point synthesis: from a validated descriptor and a resolved
//! configuration to the replacement plan. The original declaration becomes an
//! inner async function, preserved verbatim apart from its visibility; a new
//! outer synchronous function with the original name, return type and
//! visibility carries a bootstrap that drives the inner function to
//! completion.

use vstd::prelude::*;
use crate::descriptor::{FnDeclView, FunctionDescriptor, SynthesisMode, ThreadingConfig};
use crate::validate::descriptor_valid;
use crate::resolve::config_wf;

verus! {

/// How many worker threads the outer body spawns.
#[derive(Clone, Copy, PartialEq, Eq, Structural, Debug)]
pub enum PoolSizing {
    /// Exactly this many workers (always more than one).
    Count(u32),
    /// One worker per detected logical CPU, at least one, read at run time.
    Auto,
}

/// The shape of the outer function's body.
#[derive(Clone, Copy, PartialEq, Eq, Structural, Debug)]
pub enum Bootstrap {
    /// Drive the inner async function to completion on a default single
    /// executor instance, on the calling thread; no threads are created.
    DriveOnCallingThread,
    /// Construct one shared executor and one single-use shutdown channel;
    /// spawn the given number of worker threads, each polling the shared
    /// executor until the shutdown signal arrives; drive the inner function
    /// on the calling thread; then close the channel and join every worker
    /// before returning the captured result.
    WorkerPool(PoolSizing),
}

/// Which harness decoration the outer function carries.
#[derive(Clone, Copy, PartialEq, Eq, Structural, Debug)]
pub enum Harness {
    /// A plain process entry point.
    Plain,
    /// The host test harness's case decoration; the drive call is the case
    /// body.
    TestCase,
    /// The host benchmark harness's case decoration; the drive call is
    /// wrapped in the harness's iteration capability.
    BenchCase,
}

/// The replacement plan of one successful expansion.
#[derive(Debug)]
pub struct Synthesized {
    /// The new synchronous function: original name, return type and
    /// visibility; no parameters; not async. Its body is the bootstrap below,
    /// so the `body` text is left empty here.
    pub outer: FunctionDescriptor,
    /// The original declaration, now an inner function: name, parameters,
    /// return type, body and pass-through attributes preserved, visibility
    /// cleared (it is no longer externally visible).
    pub inner: FunctionDescriptor,
    /// What the outer body does.
    pub bootstrap: Bootstrap,
    /// Which harness decoration the outer function carries.
    pub harness: Harness,
}

/// Mathematical mirror of [`Synthesized`].
#[verifier::ext_equal]
pub ghost struct SynthesizedView {
    pub outer: FnDeclView,
    pub inner: FnDeclView,
    pub bootstrap: Bootstrap,
    pub harness: Harness,
}

impl View for Synthesized {
    type V = SynthesizedView;

    open spec fn view(&self) -> SynthesizedView {
        SynthesizedView {
            outer: self.outer@,
            inner: self.inner@,
            bootstrap: self.bootstrap,
            harness: self.harness,
        }
    }
}

/// The outer body for a mode and a configuration: test and benchmark cases
/// always drive synchronously; an entry point follows its configuration.
pub open spec fn bootstrap_spec(mode: SynthesisMode, config: ThreadingConfig) -> Bootstrap {
    if mode != SynthesisMode::EntryPoint {
        Bootstrap::DriveOnCallingThread
    } else {
        match config {
            ThreadingConfig::CallingThreadOnly => Bootstrap::DriveOnCallingThread,
            ThreadingConfig::Fixed(n) => Bootstrap::WorkerPool(PoolSizing::Count(n)),
            ThreadingConfig::AutoDetected => Bootstrap::WorkerPool(PoolSizing::Auto),
        }
    }
}

/// The harness decoration for a mode.
pub open spec fn harness_spec(mode: SynthesisMode) -> Harness {
    match mode {
        SynthesisMode::EntryPoint => Harness::Plain,
        SynthesisMode::TestCase => Harness::TestCase,
        SynthesisMode::BenchmarkCase => Harness::BenchCase,
    }
}

/// The whole replacement plan for a validated descriptor.
pub open spec fn synthesize_spec(
    d: FnDeclView,
    mode: SynthesisMode,
    config: ThreadingConfig,
) -> SynthesizedView {
    SynthesizedView {
        outer: FnDeclView {
            name: d.name,
            is_async: false,
            params: Seq::empty(),
            ret: d.ret,
            body: Seq::empty(),
            attrs: Seq::empty(),
            visibility: d.visibility,
            span: d.span,
            name_span: d.name_span,
            params_span: d.params_span,
        },
        inner: FnDeclView { visibility: Seq::empty(), ..d },
        bootstrap: bootstrap_spec(mode, config),
        harness: harness_spec(mode),
    }
}

/// Builds the replacement plan. Consumes the descriptor; nothing of it is
/// dropped or reordered, and nothing of its body is inspected.
pub fn synthesize(d: FunctionDescriptor, mode: SynthesisMode, config: ThreadingConfig) -> (r:
    Synthesized)
    requires
        descriptor_valid(d@, mode),
        config_wf(config),
    ensures
        r@ == synthesize_spec(d@, mode, config),
{
    let outer = FunctionDescriptor {
        name: d.name.clone(),
        is_async: false,
        params: Vec::new(),
        ret: d.ret.clone(),
        body: String::new(),
        attrs: Vec::new(),
        visibility: d.visibility.clone(),
        span: d.span,
        name_span: d.name_span,
        params_span: d.params_span,
    };
    let inner = FunctionDescriptor { visibility: String::new(), ..d };
    let bootstrap = if !matches!(mode, SynthesisMode::EntryPoint) {
        Bootstrap::DriveOnCallingThread
    } else {
        match config {
            ThreadingConfig::CallingThreadOnly => Bootstrap::DriveOnCallingThread,
            ThreadingConfig::Fixed(n) => Bootstrap::WorkerPool(PoolSizing::Count(n)),
            ThreadingConfig::AutoDetected => Bootstrap::WorkerPool(PoolSizing::Auto),
        }
    };
    let harness = match mode {
        SynthesisMode::EntryPoint => Harness::Plain,
        SynthesisMode::TestCase => Harness::TestCase,
        SynthesisMode::BenchmarkCase => Harness::BenchCase,
    };
    let r = Synthesized { outer, inner, bootstrap, harness };
    proof {
        assert(r@.outer =~= synthesize_spec(d@, mode, config).outer);
        assert(r@.inner =~= synthesize_spec(d@, mode, config).inner);
        assert(r@ =~= synthesize_spec(d@, mode, config));
    }
    r
}

} // verus!
