use vstd::prelude::*;
use vstd::string::*;

use crate::models::{ShmulError, Shmuli, TestCase};
use crate::report::text_of;
use crate::text::{
    decimal, first_index, lemma_first_index_bounds, lines, lines_of, same_text, split_once_char, trim_str, trimmed,
};

verus! {

/// Whether a settings line holds a `key=value` entry.
pub open spec fn has_entry(line: Seq<char>) -> bool {
    first_index(line, '=') < line.len()
}

/// The key of an entry: what stands before the first `=`, trimmed.
pub open spec fn entry_key(line: Seq<char>) -> Seq<char> {
    trimmed(line.subrange(0, first_index(line, '=')))
}

/// The value of an entry: what stands after the first `=`, trimmed.
pub open spec fn entry_value(line: Seq<char>) -> Seq<char> {
    trimmed(line.subrange(first_index(line, '=') + 1, line.len() as int))
}

/// The value of the first entry whose key is `k1` or `k2`.
pub open spec fn setting(lines: Seq<Seq<char>>, k1: Seq<char>, k2: Seq<char>) -> Option<Seq<char>>
    decreases lines.len(),
{
    if lines.len() == 0 {
        None
    } else {
        match setting(lines.drop_last(), k1, k2) {
            Some(v) => Some(v),
            None => {
                let l = lines.last();
                if has_entry(l) && (entry_key(l) == k1 || entry_key(l) == k2) {
                    Some(entry_value(l))
                } else {
                    None
                }
            },
        }
    }
}

/// The binary named by the settings text.
pub open spec fn bin_setting(s: Seq<char>) -> Option<Seq<char>> {
    setting(lines_of(s), "BIN"@, "BIN"@)
}

/// The build command named by the settings text.
pub open spec fn build_setting(s: Seq<char>) -> Option<Seq<char>> {
    setting(lines_of(s), "BUILD"@, "BUILD"@)
}

/// Whether the settings text asks for a `--` after the binary.
pub open spec fn separator_setting(s: Seq<char>) -> bool {
    match setting(lines_of(s), "SEPARATOR"@, "SEPARATOR"@) {
        Some(v) => v == "true"@ || v == "1"@,
        None => false,
    }
}

/// Whether `key` is `k1` or `k2`.
fn key_is(key: &str, k1: &str, k2: &str) -> (r: bool)
    ensures
        r == (key@ == k1@ || key@ == k2@),
{
    same_text(key, k1) || same_text(key, k2)
}

impl Shmuli {
    /// Reads the settings text: one `key=value` entry a line, the first entry of each
    /// key counting. Lines without `=` and unknown keys are passed over; without `BIN`
    /// there is no valid setting.
    pub fn parse(s: &str) -> (r: Result<Shmuli, ShmulError>)
        ensures
            r is Err <==> bin_setting(s@) is None,
            r matches Ok(sh) ==> {
                &&& bin_setting(s@) == Some(sh.bin@)
                &&& build_setting(s@) == text_of(sh.builder)
                &&& sh.separator == separator_setting(s@)
            },
    {
        let ls = lines(s);
        let ghost views = ls@.map_values(|l: String| l@);
        let mut bin: Option<String> = None;
        let mut builder: Option<String> = None;
        let mut sep: Option<String> = None;
        let mut i: usize = 0;
        while i < ls.len()
            invariant
                views == ls@.map_values(|l: String| l@),
                i <= ls@.len(),
                text_of(bin) == setting(views.subrange(0, i as int), "BIN"@, "BIN"@),
                text_of(builder) == setting(views.subrange(0, i as int), "BUILD"@, "BUILD"@),
                text_of(sep) == setting(views.subrange(0, i as int), "SEPARATOR"@, "SEPARATOR"@),
            decreases ls.len() - i,
        {
            let line = ls[i].as_str();
            assert(views.subrange(0, i + 1).drop_last() =~= views.subrange(0, i as int));
            assert(views.subrange(0, i + 1).last() == line@);
            proof {
                lemma_first_index_bounds(line@, '=');
            }
            match split_once_char(line, '=') {
                Some((a, b)) => {
                    let key = trim_str(a);
                    let value = trim_str(b);
                    if bin.is_none() && key_is(key, "BIN", "BIN") {
                        bin = Some(String::from_str(value));
                    }
                    if builder.is_none() && key_is(key, "BUILD", "BUILD") {
                        builder = Some(String::from_str(value));
                    }
                    if sep.is_none() && key_is(key, "SEPARATOR", "SEPARATOR") {
                        sep = Some(String::from_str(value));
                    }
                },
                None => {},
            }
            i = i + 1;
        }
        assert(views.subrange(0, ls@.len() as int) =~= views);
        match bin {
            Some(bin) => {
                let separator = match sep {
                    Some(v) => same_text(v.as_str(), "true") || same_text(v.as_str(), "1"),
                    None => false,
                };
                Ok(Shmuli { bin, builder, separator })
            },
            None => Err(ShmulError),
        }
    }
}

impl std::str::FromStr for Shmuli {
    type Err = ShmulError;

    fn from_str(s: &str) -> (r: Result<Shmuli, ShmulError>)
        ensures
            r is Err <==> bin_setting(s@) is None,
            r matches Ok(sh) ==> {
                &&& bin_setting(s@) == Some(sh.bin@)
                &&& build_setting(s@) == text_of(sh.builder)
                &&& sh.separator == separator_setting(s@)
            },
    {
        Shmuli::parse(s)
    }
}

/// The error for a list of tests, if any: an empty list, or a test whose name is blank.
pub open spec fn test_list_error(tests: Seq<TestCase>) -> Option<Seq<char>> {
    if tests.len() == 0 {
        Some("The JSON file contains an empty list."@)
    } else if exists|i: int| 0 <= i < tests.len() && trimmed(#[trigger] tests[i].name@).len() == 0 {
        let i = first_blank(tests, 0);
        Some("Test case at index "@ + crate::text::decimal_of(i as nat) + " is missing a name."@)
    } else {
        None
    }
}

/// The position of the first test from `from` on whose name is blank.
pub open spec fn first_blank(tests: Seq<TestCase>, from: int) -> int
    decreases tests.len() - from,
{
    if from >= tests.len() || from < 0 {
        from
    } else if trimmed(tests[from].name@).len() == 0 {
        from
    } else {
        first_blank(tests, from + 1)
    }
}

/// Checks a list of tests as read: it must not be empty, and each name must hold
/// more than whitespace.
pub fn validate_tests(tests: &Vec<TestCase>) -> (r: Result<(), String>)
    ensures
        r is Ok <==> test_list_error(tests@) is None,
        r matches Err(e) ==> test_list_error(tests@) == Some(e@),
{
    if tests.len() == 0 {
        return Err(String::from_str("The JSON file contains an empty list."));
    }
    let mut i: usize = 0;
    while i < tests.len()
        invariant
            i <= tests@.len(),
            forall|j: int| 0 <= j < i ==> trimmed(#[trigger] tests@[j].name@).len() != 0,
            first_blank(tests@, 0) == first_blank(tests@, i as int),
        decreases tests.len() - i,
    {
        if trim_str(tests[i].name.as_str()).unicode_len() == 0 {
            let mut msg = String::from_str("Test case at index ");
            let d = decimal(i as u64);
            msg.append(d.as_str());
            msg.append(" is missing a name.");
            return Err(msg);
        }
        i = i + 1;
    }
    Ok(())
}

} // verus!
