use smol_potat::descriptor::{AttrArg, FunctionDescriptor, Span, SynthesisMode, ThreadingConfig};
use smol_potat::diagnostics::{Diagnostic, DiagnosticKind};
use smol_potat::pipeline::expand;
use smol_potat::resolve::resolve;
use smol_potat::synthesize::{Bootstrap, Harness, PoolSizing};

fn sp(n: usize) -> Span {
    Span { lo: n, hi: n + 1 }
}

fn descriptor(name: &str, is_async: bool, params: Vec<&str>) -> FunctionDescriptor {
    FunctionDescriptor {
        name: name.to_owned(),
        is_async,
        params: params.into_iter().map(|p| p.to_owned()).collect(),
        ret: "std::io::Result<()>".to_owned(),
        body: "Ok(())".to_owned(),
        attrs: vec!["#[allow(dead_code)]".to_owned()],
        visibility: "pub".to_owned(),
        span: sp(1),
        name_span: sp(2),
        params_span: sp(3),
    }
}

fn pair(key: &str, value: &str) -> AttrArg {
    AttrArg::Pair {
        key: key.to_owned(),
        value: value.to_owned(),
        key_span: sp(10),
        value_span: sp(11),
        span: sp(12),
    }
}

#[test]
fn entry_no_args_runs_on_calling_thread() {
    let d = descriptor("main", true, vec![]);
    let r = expand(d, &vec![], SynthesisMode::EntryPoint, false).unwrap();
    assert_eq!(r.bootstrap, Bootstrap::DriveOnCallingThread);
    assert_eq!(r.harness, Harness::Plain);
}

#[test]
fn entry_output_preserves_the_declaration() {
    let d = descriptor("main", true, vec![]);
    let r = expand(d, &vec![], SynthesisMode::EntryPoint, false).unwrap();
    assert_eq!(r.inner.name, "main");
    assert!(r.inner.is_async);
    assert_eq!(r.inner.ret, "std::io::Result<()>");
    assert_eq!(r.inner.body, "Ok(())");
    assert_eq!(r.inner.attrs, vec!["#[allow(dead_code)]".to_owned()]);
    assert_eq!(r.inner.visibility, "");
    assert_eq!(r.outer.name, "main");
    assert!(!r.outer.is_async);
    assert!(r.outer.params.is_empty());
    assert_eq!(r.outer.ret, "std::io::Result<()>");
    assert_eq!(r.outer.body, "");
    assert!(r.outer.attrs.is_empty());
    assert_eq!(r.outer.visibility, "pub");
}

#[test]
fn entry_no_args_auto_sizing_spawns_auto_pool() {
    let d = descriptor("main", true, vec![]);
    let r = expand(d, &vec![], SynthesisMode::EntryPoint, true).unwrap();
    assert_eq!(r.bootstrap, Bootstrap::WorkerPool(PoolSizing::Auto));
}

#[test]
fn entry_threads_four_spawns_four_workers() {
    let d = descriptor("main", true, vec![]);
    let args = vec![pair("threads", "4")];
    let r = expand(d, &args, SynthesisMode::EntryPoint, false).unwrap();
    assert_eq!(r.bootstrap, Bootstrap::WorkerPool(PoolSizing::Count(4)));
}

#[test]
fn entry_threads_key_ignores_ascii_case() {
    let d = descriptor("main", true, vec![]);
    let args = vec![pair("THReadS", "3")];
    let r = expand(d, &args, SynthesisMode::EntryPoint, false).unwrap();
    assert_eq!(r.bootstrap, Bootstrap::WorkerPool(PoolSizing::Count(3)));
}

#[test]
fn entry_threads_one_normalizes_to_default() {
    let d = descriptor("main", true, vec![]);
    let args = vec![pair("threads", "1")];
    let r = expand(d, &args, SynthesisMode::EntryPoint, false).unwrap();
    assert_eq!(r.bootstrap, Bootstrap::DriveOnCallingThread);
}

#[test]
fn entry_threads_zero_normalizes_to_default() {
    let d = descriptor("main", true, vec![]);
    let args = vec![pair("threads", "0")];
    let r = expand(d, &args, SynthesisMode::EntryPoint, false).unwrap();
    assert_eq!(r.bootstrap, Bootstrap::DriveOnCallingThread);
}

#[test]
fn entry_threads_zero_wins_over_auto_sizing() {
    let d = descriptor("main", true, vec![]);
    let args = vec![pair("threads", "0")];
    let r = expand(d, &args, SynthesisMode::EntryPoint, true).unwrap();
    assert_eq!(r.bootstrap, Bootstrap::DriveOnCallingThread);
}

#[test]
fn entry_repeated_threads_last_wins() {
    let d = descriptor("main", true, vec![]);
    let args = vec![pair("threads", "4"), pair("threads", "2")];
    let r = expand(d, &args, SynthesisMode::EntryPoint, false).unwrap();
    assert_eq!(r.bootstrap, Bootstrap::WorkerPool(PoolSizing::Count(2)));

    let d = descriptor("main", true, vec![]);
    let args = vec![pair("threads", "4"), pair("threads", "0")];
    let r = expand(d, &args, SynthesisMode::EntryPoint, false).unwrap();
    assert_eq!(r.bootstrap, Bootstrap::DriveOnCallingThread);
}

#[test]
fn entry_threads_largest_count_is_kept() {
    let d = descriptor("main", true, vec![]);
    let args = vec![pair("threads", "4294967295")];
    let r = expand(d, &args, SynthesisMode::EntryPoint, false).unwrap();
    assert_eq!(r.bootstrap, Bootstrap::WorkerPool(PoolSizing::Count(4294967295)));
}

#[test]
fn entry_threads_non_integer_is_located_error() {
    for bad in ["abc", "1x", "", "+4", "4.5", "-1"] {
        let d = descriptor("main", true, vec![]);
        let args = vec![pair("threads", bad)];
        let e = expand(d, &args, SynthesisMode::EntryPoint, false).unwrap_err();
        assert_eq!(e.kind, DiagnosticKind::ThreadsNotInteger, "value {:?}", bad);
        assert_eq!(e.span, sp(11));
        assert_eq!(e.message(), "threads argument must be an int");
    }
}

#[test]
fn entry_unknown_key_is_located_error() {
    let d = descriptor("main", true, vec![]);
    let args = vec![pair("workers", "4")];
    let e = expand(d, &args, SynthesisMode::EntryPoint, false).unwrap_err();
    assert_eq!(
        e.kind,
        DiagnosticKind::UnknownAttributeKey { key: "workers".to_owned() }
    );
    assert_eq!(e.span, sp(10));
    assert_eq!(
        e.message(),
        "unknown attribute pair workers is specified; expected: threads"
    );
}

#[test]
fn entry_non_pair_argument_is_located_error() {
    let d = descriptor("main", true, vec![]);
    let args = vec![AttrArg::Other { span: sp(20) }];
    let e = expand(d, &args, SynthesisMode::EntryPoint, false).unwrap_err();
    assert_eq!(e.kind, DiagnosticKind::UnknownAttributeShape);
    assert_eq!(e.span, sp(20));
    assert_eq!(e.message(), "unknown attribute inside the macro");
}

#[test]
fn entry_first_bad_argument_wins() {
    let d = descriptor("main", true, vec![]);
    let args = vec![pair("workers", "4"), pair("threads", "abc")];
    let e = expand(d, &args, SynthesisMode::EntryPoint, false).unwrap_err();
    assert!(matches!(e.kind, DiagnosticKind::UnknownAttributeKey { .. }));
    assert_eq!(e.span, sp(10));
}

#[test]
fn entry_wrong_name_is_rejected_at_the_name() {
    let d = descriptor("start", true, vec![]);
    let e = expand(d, &vec![], SynthesisMode::EntryPoint, false).unwrap_err();
    assert_eq!(e.kind, DiagnosticKind::NotMainFunction);
    assert_eq!(e.span, sp(2));
    assert_eq!(
        e.message(),
        "only the main function can be tagged with this entry-point decoration"
    );
}

#[test]
fn entry_shape_is_checked_before_arguments() {
    let d = descriptor("start", true, vec![]);
    let args = vec![pair("workers", "oops")];
    let e = expand(d, &args, SynthesisMode::EntryPoint, false).unwrap_err();
    assert_eq!(e.kind, DiagnosticKind::NotMainFunction);
}

#[test]
fn test_case_not_async_is_rejected_at_the_declaration() {
    let d = descriptor("my_test", false, vec![]);
    let e = expand(d, &vec![], SynthesisMode::TestCase, false).unwrap_err();
    assert_eq!(e.kind, DiagnosticKind::AsyncMissing);
    assert_eq!(e.span, sp(1));
    assert_eq!(
        e.message(),
        "the async keyword is missing from the function declaration"
    );
}

#[test]
fn bench_case_not_async_is_rejected_before_other_rules() {
    let d = descriptor("my_bench", false, vec!["x: u32"]);
    let e = expand(d, &vec![], SynthesisMode::BenchmarkCase, false).unwrap_err();
    assert_eq!(e.kind, DiagnosticKind::AsyncMissing);
    assert_eq!(e.span, sp(1));
}

#[test]
fn bench_with_parameters_is_rejected_at_the_parameter_list() {
    let d = descriptor("my_bench", true, vec!["x: u32"]);
    let e = expand(d, &vec![], SynthesisMode::BenchmarkCase, false).unwrap_err();
    assert_eq!(e.kind, DiagnosticKind::BenchmarkArguments);
    assert_eq!(e.span, sp(3));
    assert_eq!(e.message(), "async benchmarks don't take any arguments");
}

#[test]
fn test_case_drives_synchronously_with_any_name() {
    let d = descriptor("my_test", true, vec![]);
    let r = expand(d, &vec![], SynthesisMode::TestCase, false).unwrap();
    assert_eq!(r.bootstrap, Bootstrap::DriveOnCallingThread);
    assert_eq!(r.harness, Harness::TestCase);
    assert_eq!(r.outer.name, "my_test");
}

#[test]
fn test_case_ignores_arguments_and_auto_sizing() {
    let d = descriptor("my_test", true, vec![]);
    let args = vec![AttrArg::Other { span: sp(20) }];
    let r = expand(d, &args, SynthesisMode::TestCase, true).unwrap();
    assert_eq!(r.bootstrap, Bootstrap::DriveOnCallingThread);
}

#[test]
fn bench_case_uses_the_bench_harness() {
    let d = descriptor("my_bench", true, vec![]);
    let r = expand(d, &vec![], SynthesisMode::BenchmarkCase, false).unwrap();
    assert_eq!(r.bootstrap, Bootstrap::DriveOnCallingThread);
    assert_eq!(r.harness, Harness::BenchCase);
}

#[test]
fn test_case_params_are_accepted_and_preserved() {
    let d = descriptor("my_test", true, vec!["x: u32"]);
    let r = expand(d, &vec![], SynthesisMode::TestCase, false).unwrap();
    assert_eq!(r.inner.params, vec!["x: u32".to_owned()]);
}

#[test]
fn output_is_never_reexpanded() {
    let d = descriptor("main", true, vec![]);
    let r = expand(d, &vec![], SynthesisMode::EntryPoint, false).unwrap();
    assert!(!r.outer.is_async);
    let again = expand(r.outer, &vec![], SynthesisMode::EntryPoint, false).unwrap_err();
    assert_eq!(again.kind, DiagnosticKind::AsyncMissing);
}

#[test]
fn resolver_alone_normalizes_counts() {
    let args = vec![pair("threads", "7")];
    let c = resolve(&args, SynthesisMode::EntryPoint, false).unwrap();
    assert_eq!(c, ThreadingConfig::Fixed(7));

    let args = vec![pair("threads", "007")];
    let c = resolve(&args, SynthesisMode::EntryPoint, false).unwrap();
    assert_eq!(c, ThreadingConfig::Fixed(7));

    let args = vec![pair("threads", "01")];
    let c = resolve(&args, SynthesisMode::EntryPoint, false).unwrap();
    assert_eq!(c, ThreadingConfig::CallingThreadOnly);

    let c = resolve(&vec![], SynthesisMode::EntryPoint, true).unwrap();
    assert_eq!(c, ThreadingConfig::AutoDetected);

    let c = resolve(&vec![], SynthesisMode::BenchmarkCase, true).unwrap();
    assert_eq!(c, ThreadingConfig::CallingThreadOnly);
}

#[test]
fn diagnostics_compare_by_content() {
    let a = Diagnostic { kind: DiagnosticKind::AsyncMissing, span: sp(1) };
    let b = Diagnostic { kind: DiagnosticKind::AsyncMissing, span: sp(1) };
    assert_eq!(a, b);
    let c = Diagnostic { kind: DiagnosticKind::AsyncMissing, span: sp(2) };
    assert_ne!(a, c);
}
