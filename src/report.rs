use vstd::prelude::*;
use vstd::string::*;

use crate::engine::{handle_result, verdict, ExecOutput};
use crate::models::TestCase;
use crate::text::lossy_utf8;

verus! {

/// The tally of a run: how many tests ran, how many passed, and the report on each
/// failure in the order the verdicts came.
pub struct RunReport {
    pub total: usize,
    pub passed: usize,
    pub failures: Vec<String>,
}

/// How many of the verdicts are passes.
pub open spec fn count_passed(v: Seq<Option<String>>) -> nat
    decreases v.len(),
{
    if v.len() == 0 {
        0
    } else {
        count_passed(v.drop_last()) + if v.last() is None {
            1nat
        } else {
            0nat
        }
    }
}

/// The failure reports among the verdicts, in order.
pub open spec fn failure_texts(v: Seq<Option<String>>) -> Seq<Seq<char>>
    decreases v.len(),
{
    if v.len() == 0 {
        Seq::empty()
    } else {
        match v.last() {
            Some(m) => failure_texts(v.drop_last()).push(m@),
            None => failure_texts(v.drop_last()),
        }
    }
}

/// The pieces one after the other, with `sep` between each two.
pub open spec fn joined(parts: Seq<Seq<char>>, sep: Seq<char>) -> Seq<char>
    decreases parts.len(),
{
    if parts.len() == 0 {
        Seq::empty()
    } else if parts.len() == 1 {
        parts[0]
    } else {
        joined(parts.drop_last(), sep) + sep + parts.last()
    }
}

/// The verdicts on the tests, one for each, from what running each command gave.
pub open spec fn verdicts_of(tests: Seq<TestCase>, runs: Seq<Result<ExecOutput, String>>) -> Seq<
    Option<Seq<char>>,
> {
    Seq::new(tests.len(), |i: int| verdict(tests[i], runs[i]))
}

/// The reports of the failing tests, in order.
pub open spec fn failing(v: Seq<Option<Seq<char>>>) -> Seq<Seq<char>>
    decreases v.len(),
{
    if v.len() == 0 {
        Seq::empty()
    } else {
        match v.last() {
            Some(m) => failing(v.drop_last()).push(m),
            None => failing(v.drop_last()),
        }
    }
}

/// A verdict as plain text.
pub open spec fn text_of(o: Option<String>) -> Option<Seq<char>> {
    match o {
        Some(m) => Some(m@),
        None => None,
    }
}

/// The verdicts as plain text.
pub open spec fn verdict_texts(v: Seq<Option<String>>) -> Seq<Option<Seq<char>>> {
    v.map_values(|o: Option<String>| text_of(o))
}

/// Every verdict is counted once: passes and failures together make up the whole run.
pub proof fn lemma_tally(v: Seq<Option<String>>)
    ensures
        count_passed(v) + failure_texts(v).len() == v.len(),
    decreases v.len(),
{
    if v.len() > 0 {
        lemma_tally(v.drop_last());
    }
}

proof fn lemma_failing_texts(v: Seq<Option<String>>)
    ensures
        failing(verdict_texts(v)) == failure_texts(v),
    decreases v.len(),
{
    if v.len() > 0 {
        assert(verdict_texts(v).drop_last() =~= verdict_texts(v.drop_last()));
        lemma_failing_texts(v.drop_last());
    }
}

/// Counts the verdicts and collects the failure reports.
pub fn aggregate(verdicts: Vec<Option<String>>) -> (r: RunReport)
    ensures
        r.total == verdicts@.len(),
        r.passed == count_passed(verdicts@),
        r.failures@.map_values(|m: String| m@) == failure_texts(verdicts@),
        r.passed + r.failures@.len() == r.total,
{
    let mut passed: usize = 0;
    let mut failures: Vec<String> = Vec::new();
    let n = verdicts.len();
    let mut rest = verdicts;
    let ghost all = rest@;
    let mut i: usize = 0;
    while i < n
        invariant
            n == all.len(),
            i <= n,
            rest@ == all.subrange(i as int, n as int),
            passed == count_passed(all.subrange(0, i as int)),
            passed <= i,
            failures@.map_values(|m: String| m@) == failure_texts(all.subrange(0, i as int)),
        decreases n - i,
    {
        let v = rest.remove(0);
        assert(all.subrange(0, i + 1).drop_last() =~= all.subrange(0, i as int));
        match v {
            Some(m) => {
                failures.push(m);
            },
            None => {
                passed = passed + 1;
            },
        }
        assert(failures@.map_values(|m: String| m@) =~= failure_texts(all.subrange(0, i + 1)));
        i = i + 1;
    }
    proof {
        assert(all.subrange(0, n as int) =~= all);
        lemma_tally(all);
    }
    RunReport { total: n, passed, failures }
}

/// The reports one after the other, a blank line between each two.
pub fn join_reports(parts: &Vec<String>) -> (r: String)
    ensures
        r@ == joined(parts@.map_values(|m: String| m@), "\n\n"@),
{
    let mut out = String::new();
    let mut i: usize = 0;
    while i < parts.len()
        invariant
            i <= parts@.len(),
            out@ == joined(parts@.subrange(0, i as int).map_values(|m: String| m@), "\n\n"@),
        decreases parts.len() - i,
    {
        let ghost before = parts@.subrange(0, i as int).map_values(|m: String| m@);
        if i > 0 {
            out.append("\n\n");
        }
        out.append(parts[i].as_str());
        proof {
            let after = parts@.subrange(0, i + 1).map_values(|m: String| m@);
            assert(after.drop_last() =~= before);
            if i == 0 {
                assert(out@ =~= after[0]);
            }
        }
        i = i + 1;
    }
    assert(parts@.subrange(0, parts@.len() as int) =~= parts@);
    out
}

impl RunReport {
    /// `Ok` when no test failed, else the failure reports separated by blank lines.
    pub fn outcome(&self) -> (r: Result<(), String>)
        ensures
            self.failures@.len() == 0 ==> r is Ok,
            self.failures@.len() > 0 ==> (r matches Err(e) && e@ == joined(
                self.failures@.map_values(|m: String| m@),
                "\n\n"@,
            )),
    {
        if self.failures.len() == 0 {
            Ok(())
        } else {
            Err(join_reports(&self.failures))
        }
    }
}

/// The verdict on each test, in order, from what running its command gave.
pub fn classify_all(tests: &Vec<TestCase>, outputs: Vec<Result<ExecOutput, String>>) -> (r: Vec<
    Option<String>,
>)
    requires
        tests@.len() == outputs@.len(),
    ensures
        r@.len() == tests@.len(),
        verdict_texts(r@) == verdicts_of(tests@, outputs@),
{
    let n = tests.len();
    let ghost runs = outputs@;
    let mut rest = outputs;
    let mut out: Vec<Option<String>> = Vec::new();
    let mut i: usize = 0;
    while i < n
        invariant
            n == tests@.len(),
            n == runs.len(),
            i <= n,
            rest@ == runs.subrange(i as int, n as int),
            out@.len() == i,
            forall|j: int|
                0 <= j < i ==> #[trigger] text_of(out@[j]) == verdict(tests@[j], runs[j]),
        decreases n - i,
    {
        let run = rest.remove(0);
        let v = handle_result(&tests[i], run);
        assert(text_of(v) == verdict(tests@[i as int], runs[i as int]));
        out.push(v);
        i = i + 1;
    }
    assert(verdict_texts(out@) =~= verdicts_of(tests@, runs));
    out
}

/// Runs the verdicts over every test and reports: `Ok` exactly when every test
/// passed, else the failure reports in test order, separated by blank lines.
pub fn run_tests(tests: &Vec<TestCase>, outputs: Vec<Result<ExecOutput, String>>) -> (r: Result<
    (),
    String,
>)
    requires
        tests@.len() == outputs@.len(),
    ensures
        r is Ok <==> failing(verdicts_of(tests@, outputs@)).len() == 0,
        r matches Err(e) ==> e@ == joined(failing(verdicts_of(tests@, outputs@)), "\n\n"@),
{
    let ghost runs = outputs@;
    let verdicts = classify_all(tests, outputs);
    let ghost vs = verdicts@;
    let report = aggregate(verdicts);
    proof {
        lemma_failing_texts(vs);
    }
    report.outcome()
}

/// What to do before the tests run, or instead of them.
pub enum Stage {
    /// Run this build command first.
    Build(String),
    /// Run the tests.
    RunTests,
    /// Stop without running any test, with this report.
    Abort(String),
}

/// The first stage of a run: the build command when there is one, else the tests.
pub fn build_plan(builder: Option<String>) -> (r: Stage)
    ensures
        builder matches Some(c) ==> (r matches Stage::Build(b) && b@ == c@),
        builder is None ==> r is RunTests,
{
    match builder {
        Some(c) => Stage::Build(c),
        None => Stage::RunTests,
    }
}

/// The stage after the build: the tests when the build command exited with status 0;
/// when it failed, or could not be started, the run stops and no test runs.
pub fn build_outcome(run: &Result<ExecOutput, String>) -> (r: Stage)
    ensures
        match run {
            Ok(out) => if out.code == Some(0i32) {
                r is RunTests
            } else {
                r matches Stage::Abort(m) && m@ == "Build Failed: "@ + lossy_utf8(out.stderr@)
            },
            Err(e) => r matches Stage::Abort(m) && m@ == "Build Failed: "@ + e@,
        },
{
    match run {
        Ok(out) => {
            let succeeded = match out.code {
                Some(c) => c == 0,
                None => false,
            };
            if succeeded {
                Stage::RunTests
            } else {
                let mut m = String::from_str("Build Failed: ");
                let e = crate::text::decode_lossy(&out.stderr);
                m.append(e.as_str());
                Stage::Abort(m)
            }
        },
        Err(e) => {
            let mut m = String::from_str("Build Failed: ");
            m.append(e.as_str());
            Stage::Abort(m)
        },
    }
}

} // verus!
