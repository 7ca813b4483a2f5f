use vstd::prelude::*;
use vstd::string::*;

use crate::models::TestCase;
use crate::text::{
    decimal, decimal_of, decode_lossy, is_ws, lemma_trailing_ws_ignored, lossy_utf8, trim_owned,
    trimmed,
};

verus! {

/// What a finished command left behind: its output streams and its exit code,
/// if it exited with one.
pub struct ExecOutput {
    pub stdout: Vec<u8>,
    pub stderr: Vec<u8>,
    pub code: Option<i32>,
}

/// The shell that runs commands, and the flag that hands it a command string.
pub fn get_shell(windows: bool) -> (r: (&'static str, &'static str))
    ensures
        windows ==> r.0@ == "cmd"@ && r.1@ == "/C"@,
        !windows ==> r.0@ == "sh"@ && r.1@ == "-c"@,
{
    if windows {
        ("cmd", "/C")
    } else {
        ("sh", "-c")
    }
}

/// The exit status compared with the expected one; -1 where there was no exit code.
pub open spec fn actual_status(code: Option<i32>) -> u32 {
    match code {
        Some(c) => c as u32,
        None => -1i32 as u32,
    }
}

/// The report on a failed test: which comparisons failed, and the diagnostic output.
pub open spec fn failure_message(
    name: Seq<char>,
    expected: Seq<char>,
    actual: Seq<char>,
    output_ok: bool,
    expected_status: u32,
    status: u32,
    status_ok: bool,
    stderr: Seq<char>,
) -> Seq<char> {
    "test '"@ + name + "' failed:\n"@ + (if output_ok {
        Seq::<char>::empty()
    } else {
        "  Expected output: '"@ + expected + "'\n  Actual output:   '"@ + actual + "'\n"@
    }) + (if status_ok {
        Seq::<char>::empty()
    } else {
        "  Expected status: "@ + decimal_of(expected_status as nat) + "\n  Actual status:   "@
            + decimal_of(status as nat) + "\n"@
    }) + (if stderr.len() == 0 {
        Seq::<char>::empty()
    } else {
        "  Stderr: '"@ + stderr + "'\n"@
    })
}

/// The verdict on a test whose command printed `stdout` and `stderr` and ended with
/// `status`: `None` when it passes, else the report on the failure.
pub open spec fn judgement(t: TestCase, stdout: Seq<char>, stderr: Seq<char>, status: u32) -> Option<
    Seq<char>,
> {
    let actual = trimmed(stdout);
    let output_ok = actual == trimmed(t.result@);
    let status_ok = status == t.status;
    if output_ok && status_ok {
        None
    } else {
        Some(
            failure_message(
                t.name@,
                t.result@,
                actual,
                output_ok,
                t.status,
                status,
                status_ok,
                trimmed(stderr),
            ),
        )
    }
}

/// The report on a test whose command could not be started.
pub open spec fn not_run_message(name: Seq<char>, reason: Seq<char>) -> Seq<char> {
    "test '"@ + name + "' could not run: "@ + reason
}

/// The verdict on a test, from what running its command gave.
pub open spec fn verdict(t: TestCase, run: Result<ExecOutput, String>) -> Option<Seq<char>> {
    match run {
        Ok(out) => judgement(
            t,
            lossy_utf8(out.stdout@),
            lossy_utf8(out.stderr@),
            actual_status(out.code),
        ),
        Err(e) => Some(not_run_message(t.name@, e@)),
    }
}

/// The verdict on a test whose command printed the already decoded `stdout` and
/// `stderr` and ended with `status`.
pub fn judge(test: &TestCase, stdout: &str, stderr: &str, status: u32) -> (r: Option<String>)
    ensures
        r is None <==> judgement(*test, stdout@, stderr@, status) is None,
        r matches Some(m) ==> judgement(*test, stdout@, stderr@, status) == Some(m@),
{
    let actual = trim_owned(stdout);
    let expected = trim_owned(test.result.as_str());
    let output_ok = actual == expected;
    let status_ok = status == test.status;
    if output_ok && status_ok {
        return None;
    }
    let mut msg = String::from_str("test '");
    msg.append(test.name.as_str());
    msg.append("' failed:\n");
    let ghost head = msg@;
    if !output_ok {
        msg.append("  Expected output: '");
        msg.append(test.result.as_str());
        msg.append("'\n  Actual output:   '");
        msg.append(actual.as_str());
        msg.append("'\n");
    }
    let ghost with_output = msg@;
    if !status_ok {
        let e = decimal(test.status as u64);
        let a = decimal(status as u64);
        msg.append("  Expected status: ");
        msg.append(e.as_str());
        msg.append("\n  Actual status:   ");
        msg.append(a.as_str());
        msg.append("\n");
    }
    let ghost with_status = msg@;
    let err = trim_owned(stderr);
    if err.unicode_len() > 0 {
        msg.append("  Stderr: '");
        msg.append(err.as_str());
        msg.append("'\n");
    }
    proof {
        let out_part = if output_ok {
            Seq::<char>::empty()
        } else {
            "  Expected output: '"@ + test.result@ + "'\n  Actual output:   '"@ + actual@ + "'\n"@
        };
        let status_part = if status_ok {
            Seq::<char>::empty()
        } else {
            "  Expected status: "@ + decimal_of(test.status as nat) + "\n  Actual status:   "@
                + decimal_of(status as nat) + "\n"@
        };
        let err_part = if err@.len() == 0 {
            Seq::<char>::empty()
        } else {
            "  Stderr: '"@ + err@ + "'\n"@
        };
        assert(with_output =~= head + out_part);
        assert(with_status =~= head + out_part + status_part);
        assert(msg@ =~= head + out_part + status_part + err_part);
    }
    Some(msg)
}

/// The verdict on one test, from what running its command gave: `None` when it passes.
pub fn handle_result(test: &TestCase, output: Result<ExecOutput, String>) -> (r: Option<String>)
    ensures
        r is None <==> verdict(*test, output) is None,
        r matches Some(m) ==> verdict(*test, output) == Some(m@),
{
    match output {
        Ok(out) => {
            let stdout = decode_lossy(&out.stdout);
            let stderr = decode_lossy(&out.stderr);
            let status: u32 = match out.code {
                Some(c) => c as u32,
                None => -1i32 as u32,
            };
            judge(test, stdout.as_str(), stderr.as_str(), status)
        },
        Err(e) => {
            let mut msg = String::from_str("test '");
            msg.append(test.name.as_str());
            msg.append("' could not run: ");
            msg.append(e.as_str());
            Some(msg)
        },
    }
}

/// Whitespace at the end of a command's output leaves its verdict as it is; at the
/// end of the expected output it leaves passing and failing as they are.
pub proof fn lemma_trailing_output_ignored(
    t: TestCase,
    u: TestCase,
    stdout: Seq<char>,
    ws: Seq<char>,
    stderr: Seq<char>,
    status: u32,
)
    requires
        forall|i: int| 0 <= i < ws.len() ==> is_ws(#[trigger] ws[i]),
        u.result@ == t.result@ + ws,
        u.status == t.status,
    ensures
        judgement(t, stdout + ws, stderr, status) == judgement(t, stdout, stderr, status),
        judgement(u, stdout, stderr, status) is None <==> judgement(t, stdout, stderr, status) is None,
{
    lemma_trailing_ws_ignored(stdout, ws);
    lemma_trailing_ws_ignored(t.result@, ws);
}

/// An exit status other than the expected one fails the test, whatever it printed.
pub proof fn lemma_status_mismatch_fails(t: TestCase, stdout: Seq<char>, stderr: Seq<char>, status: u32)
    requires
        status != t.status,
    ensures
        judgement(t, stdout, stderr, status) is Some,
{
}

} // verus!
