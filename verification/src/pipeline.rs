//! The whole expansion, in strict order: validate the shape, resolve the
//! configuration, synthesize the plan; the first failure short-circuits to a
//! single located diagnostic, and then no code is synthesized at all.

use vstd::prelude::*;
use crate::descriptor::{AttrArg, AttrArgView, FnDeclView, FunctionDescriptor, SynthesisMode, arg_views};
use crate::diagnostics::{Diagnostic, DiagnosticView};
use crate::resolve::{args_fit, lemma_resolve_wf, resolve, resolve_spec};
use crate::synthesize::{Synthesized, SynthesizedView, synthesize, synthesize_spec};
use crate::validate::{validate, validate_spec};

verus! {

/// The result of one whole expansion: the replacement plan, or the first
/// diagnostic in pipeline order.
pub open spec fn expand_spec(
    d: FnDeclView,
    args: Seq<AttrArgView>,
    mode: SynthesisMode,
    auto_sizing: bool,
) -> Result<SynthesizedView, DiagnosticView> {
    match validate_spec(d, mode) {
        Some(e) => Err(e),
        None => match resolve_spec(args, mode, auto_sizing) {
            Err(e) => Err(e),
            Ok(config) => Ok(synthesize_spec(d, mode, config)),
        },
    }
}

/// Runs one expansion: a pure function of the parsed descriptor, the raw
/// attribute arguments, the synthesis mode, and the host build's opt-in to
/// automatic pool sizing. Returns the replacement plan or the first
/// diagnostic; never both, never a partial result.
pub fn expand(
    d: FunctionDescriptor,
    args: &Vec<AttrArg>,
    mode: SynthesisMode,
    auto_sizing: bool,
) -> (r: Result<Synthesized, Diagnostic>)
    requires
        args_fit(arg_views(args@)),
    ensures
        r matches Ok(s) ==> expand_spec(d@, arg_views(args@), mode, auto_sizing) == Ok::<
            SynthesizedView,
            DiagnosticView,
        >(s@),
        r matches Err(e) ==> expand_spec(d@, arg_views(args@), mode, auto_sizing) == Err::<
            SynthesizedView,
            DiagnosticView,
        >(e@),
{
    match validate(&d, mode) {
        Some(e) => Err(e),
        None => match resolve(args, mode, auto_sizing) {
            Err(e) => Err(e),
            Ok(config) => {
                proof {
                    lemma_resolve_wf(arg_views(args@), mode, auto_sizing);
                }
                Ok(synthesize(d, mode, config))
            },
        },
    }
}

} // verus!
