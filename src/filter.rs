use vstd::prelude::*;
use vstd::string::*;

use crate::models::{contains_name, keeps, names_contain, CLIArgs, CLIArgsOption, Shmuli, TestCase};
use crate::text::{replace_all, replace_str, same_text, trim_str, trimmed};

verus! {

/// How a filter flag selects: `Some(true)` keeps the named tests, `Some(false)`
/// drops them, `None` is a flag that is not known.
pub open spec fn flag_mode(flag: Seq<char>) -> Option<bool> {
    if flag == "--only"@ || flag == "-o"@ {
        Some(true)
    } else if flag == "--exclude"@ || flag == "-e"@ {
        Some(false)
    } else {
        None
    }
}

/// The tests, in order, whose membership in `names` equals `inside`.
pub open spec fn select(tests: Seq<TestCase>, names: Seq<String>, inside: bool) -> Seq<TestCase>
    decreases tests.len(),
{
    if tests.len() == 0 {
        Seq::empty()
    } else {
        let rest = select(tests.drop_last(), names, inside);
        if names_contain(names, tests.last().name@) == inside {
            rest.push(tests.last())
        } else {
            rest
        }
    }
}

/// What filtering by `flag` and `names` keeps.
pub open spec fn filtered(tests: Seq<TestCase>, flag: Seq<char>, names: Seq<String>) -> Seq<
    TestCase,
> {
    if names.len() == 0 {
        tests
    } else {
        match flag_mode(flag) {
            Some(inside) => select(tests, names, inside),
            None => tests,
        }
    }
}

/// The tests, in order, that the selection keeps.
pub open spec fn kept_by(tests: Seq<TestCase>, opt: CLIArgsOption) -> Seq<TestCase>
    decreases tests.len(),
{
    if tests.len() == 0 {
        Seq::empty()
    } else {
        let rest = kept_by(tests.drop_last(), opt);
        if keeps(opt, tests.last().name@) {
            rest.push(tests.last())
        } else {
            rest
        }
    }
}

/// The tests, in order, whose name is among `names` exactly when `inside` holds.
fn retain_named(tests: Vec<TestCase>, names: &Vec<String>, inside: bool) -> (r: Vec<TestCase>)
    ensures
        r@ == select(tests@, names@, inside),
{
    let n = tests.len();
    let ghost all = tests@;
    let mut rest = tests;
    let mut out: Vec<TestCase> = Vec::new();
    let mut i: usize = 0;
    while i < n
        invariant
            n == all.len(),
            i <= n,
            rest@ == all.subrange(i as int, n as int),
            out@ == select(all.subrange(0, i as int), names@, inside),
        decreases n - i,
    {
        let t = rest.remove(0);
        assert(all.subrange(0, i + 1).drop_last() =~= all.subrange(0, i as int));
        if contains_name(names, t.name.as_str()) == inside {
            out.push(t);
        }
        i = i + 1;
    }
    assert(all.subrange(0, n as int) =~= all);
    out
}

/// Narrows the tests by name. With `--only`/`-o` it keeps the named tests, with
/// `--exclude`/`-e` it drops them; order is kept. An empty list of names, or a flag
/// that is not known, leaves the tests as they are.
pub fn filter_tests(test_cases: Vec<TestCase>, flag: String, names: Vec<String>) -> (r: Vec<
    TestCase,
>)
    ensures
        r@ == filtered(test_cases@, flag@, names@),
{
    if names.len() == 0 {
        return test_cases;
    }
    if same_text(flag.as_str(), "--only") || same_text(flag.as_str(), "-o") {
        retain_named(test_cases, &names, true)
    } else if same_text(flag.as_str(), "--exclude") || same_text(flag.as_str(), "-e") {
        retain_named(test_cases, &names, false)
    } else {
        test_cases
    }
}

/// An empty list of names selects every test, in either mode, whether given as a
/// flag or as a selection.
pub proof fn lemma_empty_names_keep_all(tests: Seq<TestCase>, flag: Seq<char>, opt: CLIArgsOption)
    requires
        option_names(opt).len() == 0,
    ensures
        filtered(tests, flag, option_names(opt)) == tests,
        kept_by(tests, opt) == tests,
    decreases tests.len(),
{
    if tests.len() > 0 {
        lemma_empty_names_keep_all(tests.drop_last(), flag, opt);
        assert(tests.drop_last().push(tests.last()) =~= tests);
    }
}

/// The names of a selection.
pub open spec fn option_names(opt: CLIArgsOption) -> Seq<String> {
    match opt {
        CLIArgsOption::Only(v) => v@,
        CLIArgsOption::Exclude(v) => v@,
    }
}

/// Keeping only names that no test carries selects nothing, and is no error.
pub proof fn lemma_unknown_names_select_none(tests: Seq<TestCase>, flag: Seq<char>, names: Seq<String>)
    requires
        flag_mode(flag) == Some(true),
        names.len() > 0,
        forall|i: int| 0 <= i < tests.len() ==> !names_contain(names, #[trigger] tests[i].name@),
    ensures
        filtered(tests, flag, names).len() == 0,
{
    lemma_select_none(tests, names);
}

proof fn lemma_select_none(tests: Seq<TestCase>, names: Seq<String>)
    requires
        forall|i: int| 0 <= i < tests.len() ==> !names_contain(names, #[trigger] tests[i].name@),
    ensures
        select(tests, names, true).len() == 0,
    decreases tests.len(),
{
    if tests.len() > 0 {
        assert forall|i: int| 0 <= i < tests.drop_last().len() implies !names_contain(
            names,
            #[trigger] tests.drop_last()[i].name@,
        ) by {
            assert(tests.drop_last()[i] == tests[i]);
        }
        lemma_select_none(tests.drop_last(), names);
    }
}

/// The text put in place of `@BIN`: the binary, followed by `--` when the settings ask
/// for a separator, without surrounding whitespace.
pub open spec fn bin_replacement(s: Shmuli) -> Seq<char> {
    trimmed(s.bin@ + " "@ + if s.separator {
        "--"@
    } else {
        ""@
    })
}

/// The command with each `@BIN` replaced as the settings say.
pub open spec fn substituted(command: Seq<char>, s: Shmuli) -> Seq<char> {
    replace_all(command, "@BIN"@, bin_replacement(s))
}

/// Whether `p` is `t` with its command replaced by `command`.
pub open spec fn with_command(p: TestCase, t: TestCase, command: Seq<char>) -> bool {
    p.name@ == t.name@ && p.command@ == command && p.result@ == t.result@ && p.status == t.status
}

/// The text of the separator that follows the binary.
fn separator_text(separator: bool) -> (r: &'static str)
    ensures
        r@ == if separator {
            "--"@
        } else {
            ""@
        },
{
    if separator {
        "--"
    } else {
        ""
    }
}

/// The text that replaces `@BIN` in the commands.
pub fn replacement(shmuli: &Shmuli) -> (r: String)
    ensures
        r@ == bin_replacement(*shmuli),
{
    let mut rep = shmuli.bin.clone();
    rep.append(" ");
    rep.append(separator_text(shmuli.separator));
    String::from_str(trim_str(rep.as_str()))
}

/// The tests that the selection keeps (all of them when there is none), in order,
/// each with `@BIN` in its command replaced as the settings say.
pub fn prepare_tests(all_tests: Vec<TestCase>, arg: &CLIArgs, shmuli: &Shmuli) -> (r: Vec<TestCase>)
    ensures
        ({
            let kept = match arg.option {
                Some(opt) => kept_by(all_tests@, opt),
                None => all_tests@,
            };
            &&& r@.len() == kept.len()
            &&& forall|i: int|
                0 <= i < kept.len() ==> with_command(
                    #[trigger] r@[i],
                    kept[i],
                    substituted(kept[i].command@, *shmuli),
                )
        }),
{
    let rep = replacement(shmuli);
    let n = all_tests.len();
    let ghost all = all_tests@;
    let mut rest = all_tests;
    let mut out: Vec<TestCase> = Vec::new();
    let ghost mut kept: Seq<TestCase> = Seq::empty();
    let mut i: usize = 0;
    while i < n
        invariant
            n == all.len(),
            i <= n,
            rest@ == all.subrange(i as int, n as int),
            rep@ == bin_replacement(*shmuli),
            kept == match arg.option {
                Some(opt) => kept_by(all.subrange(0, i as int), opt),
                None => all.subrange(0, i as int),
            },
            out@.len() == kept.len(),
            forall|j: int|
                0 <= j < kept.len() ==> with_command(
                    #[trigger] out@[j],
                    kept[j],
                    substituted(kept[j].command@, *shmuli),
                ),
        decreases n - i,
    {
        let t = rest.remove(0);
        assert(all.subrange(0, i + 1).drop_last() =~= all.subrange(0, i as int));
        let keep = match &arg.option {
            Some(opt) => opt.should_keep(t.name.as_str()),
            None => true,
        };
        if keep {
            proof {
                reveal_strlit("@BIN");
                kept = kept.push(t);
            }
            let command = replace_str(t.command.as_str(), "@BIN", rep.as_str());
            out.push(TestCase { name: t.name, command, result: t.result, status: t.status });
        }
        i = i + 1;
    }
    assert(all.subrange(0, n as int) =~= all);
    out
}

} // verus!
