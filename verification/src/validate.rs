//! Shape validation of the annotated declaration. Checked before any
//! configuration work: the declaration must be `async` in every mode, must be
//! named `main` in entry-point mode, and must take no parameters in benchmark
//! mode. The first failing rule wins.

use vstd::prelude::*;
use crate::descriptor::{FnDeclView, FunctionDescriptor, SynthesisMode};
use crate::diagnostics::{Diagnostic, DiagnosticKind, DiagnosticKindView, DiagnosticView};

verus! {

/// The outcome of validation: the first rule the descriptor breaks, or
/// nothing.
pub open spec fn validate_spec(d: FnDeclView, mode: SynthesisMode) -> Option<DiagnosticView> {
    if !d.is_async {
        Some(DiagnosticView { kind: DiagnosticKindView::AsyncMissing, span: d.span })
    } else if mode == SynthesisMode::EntryPoint && d.name != "main"@ {
        Some(DiagnosticView { kind: DiagnosticKindView::NotMainFunction, span: d.name_span })
    } else if mode == SynthesisMode::BenchmarkCase && d.params.len() > 0 {
        Some(DiagnosticView { kind: DiagnosticKindView::BenchmarkArguments, span: d.params_span })
    } else {
        None
    }
}

/// A descriptor the validator accepts in the given mode.
pub open spec fn descriptor_valid(d: FnDeclView, mode: SynthesisMode) -> bool {
    validate_spec(d, mode) is None
}

/// Inspects the parsed descriptor and either accepts it or points at the
/// first rule it breaks. Pure; the descriptor is only read.
pub fn validate(d: &FunctionDescriptor, mode: SynthesisMode) -> (r: Option<Diagnostic>)
    ensures
        r matches Some(e) ==> validate_spec(d@, mode) == Some(e@),
        r is None ==> validate_spec(d@, mode) is None,
{
    if !d.is_async {
        return Some(Diagnostic { kind: DiagnosticKind::AsyncMissing, span: d.span });
    }
    if mode == SynthesisMode::EntryPoint {
        let main_name: String = "main".to_owned();
        if !(d.name == main_name) {
            return Some(Diagnostic { kind: DiagnosticKind::NotMainFunction, span: d.name_span });
        }
    }
    if mode == SynthesisMode::BenchmarkCase && d.params.len() > 0 {
        return Some(Diagnostic { kind: DiagnosticKind::BenchmarkArguments, span: d.params_span });
    }
    None
}

} // verus!
