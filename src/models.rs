use vstd::prelude::*;

verus! {

/// One test: a shell command with the output and exit status it should produce.
#[derive(Clone, Debug)]
pub struct TestCase {
    pub name: String,
    pub command: String,
    pub result: String,
    pub status: u32,
}

/// The project settings: what to run in place of `@BIN`, and the optional build command.
#[derive(Clone, Debug)]
pub struct Shmuli {
    pub bin: String,
    pub builder: Option<String>,
    pub separator: bool,
}

/// The project settings name no `BIN`.
#[derive(Debug)]
pub struct ShmulError;

/// A selection of tests by name.
#[derive(Clone, Debug)]
pub enum CLIArgsOption {
    Only(Vec<String>),
    Exclude(Vec<String>),
}

/// The arguments of a run: the test file to read and the selection to apply.
#[derive(Clone, Debug)]
pub struct CLIArgs {
    pub path: Option<String>,
    pub option: Option<CLIArgsOption>,
}

/// Whether `name` is among `names`.
pub open spec fn names_contain(names: Seq<String>, name: Seq<char>) -> bool {
    exists|i: int| 0 <= i < names.len() && #[trigger] names[i]@ == name
}

/// Whether a test called `name` stays in the selection.
pub open spec fn keeps(opt: CLIArgsOption, name: Seq<char>) -> bool {
    match opt {
        CLIArgsOption::Only(names) => names@.len() == 0 || names_contain(names@, name),
        CLIArgsOption::Exclude(names) => !names_contain(names@, name),
    }
}

/// Whether `name` is among `names`.
pub fn contains_name(names: &Vec<String>, name: &str) -> (r: bool)
    ensures
        r == names_contain(names@, name@),
{
    let mut i: usize = 0;
    while i < names.len()
        invariant
            i <= names@.len(),
            forall|j: int| 0 <= j < i ==> names@[j]@ != name@,
        decreases names.len() - i,
    {
        if crate::text::same_text(names[i].as_str(), name) {
            return true;
        }
        i = i + 1;
    }
    false
}

impl CLIArgsOption {
    pub fn should_keep(&self, test_name: &str) -> (r: bool)
        ensures
            r == keeps(*self, test_name@),
    {
        match self {
            CLIArgsOption::Only(names) => names.len() == 0 || contains_name(names, test_name),
            CLIArgsOption::Exclude(names) => !contains_name(names, test_name),
        }
    }
}

} // verus!
