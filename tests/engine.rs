use shmulinette::engine::{get_shell, handle_result, judge, ExecOutput};
use shmulinette::models::TestCase;
use shmulinette::report::{aggregate, build_outcome, build_plan, classify_all, join_reports, run_tests, Stage};

fn echo_case(result: &str, status: u32) -> TestCase {
    TestCase {
        name: "echo".to_string(),
        command: "echo hi".to_string(),
        result: result.to_string(),
        status,
    }
}

fn ran(stdout: &str, stderr: &str, code: Option<i32>) -> Result<ExecOutput, String> {
    Ok(ExecOutput { stdout: stdout.as_bytes().to_vec(), stderr: stderr.as_bytes().to_vec(), code })
}

#[test]
fn echo_passes() {
    assert_eq!(handle_result(&echo_case("hi", 0), ran("hi\n", "", Some(0))), None);
}

#[test]
fn output_mismatch_only() {
    let r = handle_result(&echo_case("bye", 0), ran("hi\n", "", Some(0)));
    assert_eq!(
        r,
        Some("test 'echo' failed:\n  Expected output: 'bye'\n  Actual output:   'hi'\n".to_string())
    );
}

#[test]
fn status_mismatch_only() {
    let r = handle_result(&echo_case("", 0), ran("", "", Some(3)));
    assert_eq!(
        r,
        Some("test 'echo' failed:\n  Expected status: 0\n  Actual status:   3\n".to_string())
    );
}

#[test]
fn trailing_newline_is_trimmed_both_sides() {
    assert_eq!(judge(&echo_case("ok", 0), "ok\n", "", 0), None);
    assert_eq!(judge(&echo_case("  ok\n", 0), "ok", "", 0), None);
}

#[test]
fn status_mismatch_fails_even_when_output_matches() {
    let r = judge(&echo_case("ok", 0), "ok", "", 1);
    assert_eq!(
        r,
        Some("test 'echo' failed:\n  Expected status: 0\n  Actual status:   1\n".to_string())
    );
}

#[test]
fn both_mismatches_and_stderr() {
    let r = judge(&echo_case("a", 2), "b", "  boom\n", 10);
    assert_eq!(
        r,
        Some(
            "test 'echo' failed:\n  Expected output: 'a'\n  Actual output:   'b'\n  Expected status: 2\n  Actual status:   10\n  Stderr: 'boom'\n"
                .to_string()
        )
    );
}

#[test]
fn no_exit_code_counts_as_minus_one() {
    let r = handle_result(&echo_case("", 0), ran("", "", None));
    assert_eq!(
        r,
        Some("test 'echo' failed:\n  Expected status: 0\n  Actual status:   4294967295\n".to_string())
    );
    assert_eq!(handle_result(&echo_case("", u32::MAX), ran("", "", None)), None);
}

#[test]
fn invalid_utf8_is_replaced() {
    let out = ExecOutput { stdout: vec![b'o', 0xff, b'k'], stderr: vec![], code: Some(0) };
    assert_eq!(handle_result(&echo_case("o\u{fffd}k", 0), Ok(out)), None);
}

#[test]
fn spawn_failure_is_reported() {
    let r = handle_result(&echo_case("hi", 0), Err("No such file or directory".to_string()));
    assert_eq!(r, Some("test 'echo' could not run: No such file or directory".to_string()));
}

#[test]
fn aggregate_counts_every_verdict() {
    let report = aggregate(vec![None, Some("a".to_string()), None, Some("b".to_string())]);
    assert_eq!(report.total, 4);
    assert_eq!(report.passed, 2);
    assert_eq!(report.failures, vec!["a".to_string(), "b".to_string()]);
    assert_eq!(report.passed + report.failures.len(), report.total);
    assert_eq!(report.outcome(), Err("a\n\nb".to_string()));
    assert_eq!(aggregate(vec![None]).outcome(), Ok(()));
    let empty = aggregate(vec![]);
    assert_eq!(empty.total, 0);
    assert_eq!(empty.outcome(), Ok(()));
}

#[test]
fn join_reports_separates_with_blank_line() {
    assert_eq!(join_reports(&vec![]), "");
    assert_eq!(join_reports(&vec!["x".to_string()]), "x");
    assert_eq!(join_reports(&vec!["x".to_string(), "y".to_string(), "z".to_string()]), "x\n\ny\n\nz");
}

#[test]
fn many_tests_give_one_verdict_each() {
    let n = 200;
    let tests: Vec<TestCase> = (0..n).map(|i| echo_case(&i.to_string(), 0)).collect();
    let outputs: Vec<Result<ExecOutput, String>> =
        (0..n).map(|i| if i % 2 == 0 { ran(&i.to_string(), "", Some(0)) } else { ran("x", "", Some(0)) }).collect();
    let verdicts = classify_all(&tests, outputs);
    assert_eq!(verdicts.len(), n);
    let report = aggregate(verdicts);
    assert_eq!(report.total, n);
    assert_eq!(report.passed, n / 2);
    assert_eq!(report.failures.len(), n / 2);
}

#[test]
fn run_tests_reports_failures_in_order() {
    let tests = vec![echo_case("hi", 0), echo_case("bye", 0)];
    let outputs = vec![ran("hi", "", Some(0)), Err("denied".to_string())];
    assert_eq!(run_tests(&tests, outputs), Err("test 'echo' could not run: denied".to_string()));
    let outputs = vec![ran("hi", "", Some(0)), ran("bye", "", Some(0))];
    assert_eq!(run_tests(&tests, outputs), Ok(()));
}

#[test]
fn build_gate() {
    assert!(matches!(build_plan(None), Stage::RunTests));
    match build_plan(Some("make".to_string())) {
        Stage::Build(c) => assert_eq!(c, "make"),
        _ => panic!("expected a build"),
    }
    assert!(matches!(build_outcome(&ran("", "", Some(0))), Stage::RunTests));
    match build_outcome(&ran("", "no rule", Some(2))) {
        Stage::Abort(m) => assert_eq!(m, "Build Failed: no rule"),
        _ => panic!("expected an abort"),
    }
    assert!(matches!(build_outcome(&ran("", "", None)), Stage::Abort(_)));
    match build_outcome(&Err("not found".to_string())) {
        Stage::Abort(m) => assert_eq!(m, "Build Failed: not found"),
        _ => panic!("expected an abort"),
    }
}

#[test]
fn shell_choice() {
    assert_eq!(get_shell(false), ("sh", "-c"));
    assert_eq!(get_shell(true), ("cmd", "/C"));
}
