use vstd::prelude::*;
use vstd::string::*;

use crate::filter::flag_mode;
use crate::models::{CLIArgs, CLIArgsOption};
use crate::report::text_of;
use crate::text::{same_text, split_char, split_on, trim_owned, trimmed};

verus! {

/// A selection as plain values: whether it keeps (`true`) or drops the names, and
/// the names.
pub open spec fn option_view(o: CLIArgsOption) -> (bool, Seq<String>) {
    match o {
        CLIArgsOption::Only(v) => (true, v@),
        CLIArgsOption::Exclude(v) => (false, v@),
    }
}

/// A selection, if there is one, as plain values.
pub open spec fn maybe_option_view(o: Option<CLIArgsOption>) -> Option<(bool, Seq<String>)> {
    match o {
        Some(o) => Some(option_view(o)),
        None => None,
    }
}

/// The selection that a flag and the arguments after it make: `-o`/`--only` keeps
/// the names, `-e`/`--exclude` drops them; anything else is no selection.
pub open spec fn option_spec(act: Option<Seq<char>>, rem: Option<Seq<String>>) -> Option<
    (bool, Seq<String>),
> {
    match act {
        Some(a) => if a == "-o"@ || a == "--only"@ {
            match rem {
                Some(r) => Some((true, r)),
                None => None,
            }
        } else if a == "-e"@ || a == "--exclude"@ {
            match rem {
                Some(r) => Some((false, r)),
                None => None,
            }
        } else {
            None
        },
        None => None,
    }
}

/// Copies of the strings of `v` from position `from` on.
fn copy_from(v: &[String], from: usize) -> (r: Vec<String>)
    requires
        from <= v@.len(),
    ensures
        r@ == v@.subrange(from as int, v@.len() as int),
{
    let mut out: Vec<String> = Vec::new();
    let mut i: usize = from;
    while i < v.len()
        invariant
            from <= i <= v@.len(),
            out@ == v@.subrange(from as int, i as int),
        decreases v.len() - i,
    {
        out.push(v[i].clone());
        assert(v@.subrange(from as int, i + 1) =~= v@.subrange(from as int, i as int).push(v@[i as int]));
        i = i + 1;
    }
    out
}

/// The selection that the flag `act` makes of the names in `remaining`.
pub fn is_option(act: Option<&String>, remaining: Option<&[String]>) -> (r: Option<CLIArgsOption>)
    ensures
        maybe_option_view(r) == option_spec(
            match act {
                Some(a) => Some(a@),
                None => None,
            },
            match remaining {
                Some(v) => Some(v@),
                None => None,
            },
        ),
{
    match act {
        Some(a) => {
            let only = same_text(a.as_str(), "-o") || same_text(a.as_str(), "--only");
            let exclude = same_text(a.as_str(), "-e") || same_text(a.as_str(), "--exclude");
            if !only && !exclude {
                return None;
            }
            match remaining {
                Some(v) => {
                    let names = copy_from(v, 0);
                    assert(v@.subrange(0, v@.len() as int) =~= v@);
                    if only {
                        Some(CLIArgsOption::Only(names))
                    } else {
                        Some(CLIArgsOption::Exclude(names))
                    }
                },
                None => None,
            }
        },
        None => None,
    }
}

/// The names that argument tokens give: each token split at commas, each piece
/// trimmed, in order.
pub open spec fn names_of(tokens: Seq<String>) -> Seq<Seq<char>>
    decreases tokens.len(),
{
    if tokens.len() == 0 {
        Seq::empty()
    } else {
        names_of(tokens.drop_last()) + name_list(tokens.last()@)
    }
}

/// A selection, if there is one, as plain values: whether it keeps the names, and
/// the names as text.
pub open spec fn option_texts(o: Option<CLIArgsOption>) -> Option<(bool, Seq<Seq<char>>)> {
    match o {
        Some(CLIArgsOption::Only(v)) => Some((true, v@.map_values(|n: String| n@))),
        Some(CLIArgsOption::Exclude(v)) => Some((false, v@.map_values(|n: String| n@))),
        None => None,
    }
}

/// The selection that the flag at `i` makes of the names in the arguments after it,
/// if the argument at `i` is a filter flag.
pub open spec fn selection_at(argv: Seq<String>, i: int) -> Option<(bool, Seq<Seq<char>>)> {
    if 0 <= i < argv.len() {
        match flag_mode(argv[i]@) {
            Some(keep) => Some((keep, names_of(argv.subrange(i + 1, argv.len() as int)))),
            None => None,
        }
    } else {
        None
    }
}

/// Whether the flag keeps (`Some(true)`) or drops (`Some(false)`) the named tests.
fn flag_exec(a: &str) -> (r: Option<bool>)
    ensures
        r == flag_mode(a@),
{
    if same_text(a, "--only") || same_text(a, "-o") {
        Some(true)
    } else if same_text(a, "--exclude") || same_text(a, "-e") {
        Some(false)
    } else {
        None
    }
}

/// The names in the arguments from position `from` on.
fn names_from(argv: &Vec<String>, from: usize) -> (r: Vec<String>)
    requires
        from <= argv@.len(),
    ensures
        r@.map_values(|n: String| n@) == names_of(argv@.subrange(from as int, argv@.len() as int)),
{
    let mut out: Vec<String> = Vec::new();
    let mut i: usize = from;
    while i < argv.len()
        invariant
            from <= i <= argv@.len(),
            out@.map_values(|n: String| n@) == names_of(argv@.subrange(from as int, i as int)),
        decreases argv.len() - i,
    {
        let parts = split_names(argv[i].as_str());
        let ghost base = out@.map_values(|n: String| n@);
        let ghost pv = parts@.map_values(|n: String| n@);
        let mut j: usize = 0;
        while j < parts.len()
            invariant
                pv == parts@.map_values(|n: String| n@),
                j <= parts@.len(),
                out@.map_values(|n: String| n@) == base + pv.subrange(0, j as int),
            decreases parts.len() - j,
        {
            let ghost before = out@;
            out.push(parts[j].clone());
            assert(out@.map_values(|n: String| n@) =~= before.map_values(|n: String| n@).push(
                pv[j as int],
            ));
            assert(pv.subrange(0, j + 1) =~= pv.subrange(0, j as int).push(pv[j as int]));
            assert(out@.map_values(|n: String| n@) =~= base + pv.subrange(0, j + 1));
            j = j + 1;
        }
        assert(pv.subrange(0, parts@.len() as int) =~= pv);
        assert(argv@.subrange(from as int, i + 1).drop_last() =~= argv@.subrange(from as int, i as int));
        i = i + 1;
    }
    out
}

/// The selection that the argument at `i` makes, if it is a filter flag.
fn selection_exec(argv: &Vec<String>, i: usize) -> (r: Option<CLIArgsOption>)
    ensures
        option_texts(r) == selection_at(argv@, i as int),
{
    if i < argv.len() {
        match flag_exec(argv[i].as_str()) {
            Some(keep) => {
                let names = names_from(argv, i + 1);
                if keep {
                    Some(CLIArgsOption::Only(names))
                } else {
                    Some(CLIArgsOption::Exclude(names))
                }
            },
            None => None,
        }
    } else {
        None
    }
}

/// Reads the arguments after the program name: a selection flag first, or else a
/// test file name and then, if it is one, a selection flag. Every flag takes the
/// arguments after it as comma separated lists of names, each name trimmed. Without
/// a flag after a file name, nothing is dropped.
pub fn parse_args(argv: &Vec<String>) -> (r: CLIArgs)
    ensures
        selection_at(argv@, 0) is Some ==> r.path is None && option_texts(r.option)
            == selection_at(argv@, 0),
        selection_at(argv@, 0) is None ==> {
            &&& text_of(r.path) == if argv@.len() > 0 {
                Some(argv@[0]@)
            } else {
                None
            }
            &&& option_texts(r.option) == Some(
                match selection_at(argv@, 1) {
                    Some(o) => o,
                    None => (false, Seq::<Seq<char>>::empty()),
                },
            )
        },
{
    match selection_exec(argv, 0) {
        Some(option) => CLIArgs { path: None, option: Some(option) },
        None => {
            let path = if argv.len() > 0 {
                Some(argv[0].clone())
            } else {
                None
            };
            let option = match selection_exec(argv, 1) {
                Some(o) => o,
                None => {
                    let none: Vec<String> = Vec::new();
                    assert(none@.map_values(|n: String| n@) =~= Seq::<Seq<char>>::empty());
                    CLIArgsOption::Exclude(none)
                },
            };
            CLIArgs { path, option: Some(option) }
        },
    }
}

/// The names in a comma separated list, each trimmed.
pub open spec fn name_list(s: Seq<char>) -> Seq<Seq<char>> {
    split_on(s, ',').map_values(|p: Seq<char>| trimmed(p))
}

/// The names of a comma separated list, each trimmed.
pub fn split_names(s: &str) -> (r: Vec<String>)
    ensures
        r@.map_values(|n: String| n@) == name_list(s@),
{
    let parts = split_char(s, ',');
    let ghost views = parts@.map_values(|p: String| p@);
    let mut out: Vec<String> = Vec::new();
    let mut i: usize = 0;
    while i < parts.len()
        invariant
            views == parts@.map_values(|p: String| p@),
            i <= parts@.len(),
            out@.len() == i,
            forall|j: int| 0 <= j < i ==> #[trigger] out@[j]@ == trimmed(views[j]),
        decreases parts.len() - i,
    {
        let t = trim_owned(parts[i].as_str());
        out.push(t);
        i = i + 1;
    }
    assert(out@.map_values(|n: String| n@) =~= name_list(s@));
    out
}

/// A command line as read: what to run, or what stopped the reading.
pub enum CliRequest {
    /// Run the tests of `case_name` (the default file when there is none), narrowed by
    /// the filter flag and names.
    Run { case_name: Option<String>, filter_flag: Option<String>, filter_names: Vec<String> },
    /// Help was asked for.
    Help,
    /// A filter flag came last, with no names after it.
    MissingNames(String),
    /// An argument that is not known.
    Unknown(String),
}

/// A command line request as plain values, apart from the file name.
pub enum CliView {
    Run(Option<Seq<char>>, Seq<Seq<char>>),
    Help,
    MissingNames(Seq<char>),
    Unknown(Seq<char>),
}

/// Whether `a` is one of the filter flags.
pub open spec fn is_filter_flag(a: Seq<char>) -> bool {
    a == "--only"@ || a == "-o"@ || a == "--exclude"@ || a == "-e"@
}

/// Whether `a` asks for help.
pub open spec fn is_help_flag(a: Seq<char>) -> bool {
    a == "--help"@ || a == "-h"@
}

/// Reading the options from position `i` on, with the filter so far.
pub open spec fn scan(
    argv: Seq<Seq<char>>,
    i: int,
    flag: Option<Seq<char>>,
    names: Seq<Seq<char>>,
) -> CliView
    decreases argv.len() - i,
{
    if i < 0 || i >= argv.len() {
        CliView::Run(flag, names)
    } else if is_filter_flag(argv[i]) {
        if i + 1 < argv.len() {
            scan(argv, i + 2, Some(argv[i]), name_list(argv[i + 1]))
        } else {
            CliView::MissingNames(argv[i])
        }
    } else if is_help_flag(argv[i]) {
        CliView::Help
    } else {
        CliView::Unknown(argv[i])
    }
}

/// Whether the argument names a test file rather than an option.
pub open spec fn is_case_name(a: Seq<char>) -> bool {
    !(a.len() > 0 && a[0] == '-')
}

/// How a command line is read: an optional test file name first, then options.
pub open spec fn cli_spec(argv: Seq<Seq<char>>) -> CliView {
    if argv.len() > 0 && is_case_name(argv[0]) {
        scan(argv, 1, None, Seq::empty())
    } else {
        scan(argv, 0, None, Seq::empty())
    }
}

/// A request as plain values, apart from the file name.
pub open spec fn request_view(r: CliRequest) -> CliView {
    match r {
        CliRequest::Run { case_name, filter_flag, filter_names } => CliView::Run(
            text_of(filter_flag),
            filter_names@.map_values(|n: String| n@),
        ),
        CliRequest::Help => CliView::Help,
        CliRequest::MissingNames(a) => CliView::MissingNames(a@),
        CliRequest::Unknown(a) => CliView::Unknown(a@),
    }
}

fn is_filter_flag_exec(a: &str) -> (r: bool)
    ensures
        r == is_filter_flag(a@),
{
    same_text(a, "--only") || same_text(a, "-o") || same_text(a, "--exclude") || same_text(a, "-e")
}

fn is_case_name_exec(a: &str) -> (r: bool)
    ensures
        r == is_case_name(a@),
{
    !(a.unicode_len() > 0 && a.get_char(0) == '-')
}

/// Reads the arguments after the program name: an optional test file name (an
/// argument that does not start with `-`), then `-o`/`--only` or `-e`/`--exclude`
/// with a comma separated list of names, or `-h`/`--help`. The last filter flag
/// counts; help, a flag without names or an unknown argument ends the reading.
pub fn parse_cli(argv: &Vec<String>) -> (r: CliRequest)
    ensures
        request_view(r) == cli_spec(argv@.map_values(|a: String| a@)),
        r matches CliRequest::Run { case_name, .. } ==> text_of(case_name) == if argv@.len() > 0
            && is_case_name(argv@[0]@) {
            Some(argv@[0]@)
        } else {
            None
        },
{
    let ghost views = argv@.map_values(|a: String| a@);
    let mut case_name: Option<String> = None;
    let mut i: usize = 0;
    if argv.len() > 0 && is_case_name_exec(argv[0].as_str()) {
        case_name = Some(argv[0].clone());
        i = 1;
    }
    let ghost start = i;
    let mut filter_flag: Option<String> = None;
    let mut filter_names: Vec<String> = Vec::new();
    assert(filter_names@.map_values(|n: String| n@) =~= Seq::<Seq<char>>::empty());
    assert(argv@.len() > 0 ==> views[0] == argv@[0]@);
    while i < argv.len()
        invariant
            views == argv@.map_values(|a: String| a@),
            i <= argv@.len(),
            cli_spec(views) == scan(
                views,
                i as int,
                text_of(filter_flag),
                filter_names@.map_values(|n: String| n@),
            ),
            text_of(case_name) == if argv@.len() > 0 && is_case_name(argv@[0]@) {
                Some(argv@[0]@)
            } else {
                None
            },
        decreases argv.len() - i,
    {
        let a = argv[i].as_str();
        if is_filter_flag_exec(a) {
            if i + 1 < argv.len() {
                filter_flag = Some(argv[i].clone());
                filter_names = split_names(argv[i + 1].as_str());
                i = i + 2;
            } else {
                return CliRequest::MissingNames(argv[i].clone());
            }
        } else if same_text(a, "--help") || same_text(a, "-h") {
            return CliRequest::Help;
        } else {
            return CliRequest::Unknown(argv[i].clone());
        }
    }
    CliRequest::Run { case_name, filter_flag, filter_names }
}

} // verus!
