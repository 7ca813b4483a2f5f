use shmulinette::args::{is_option, parse_args, parse_cli, split_names, CliRequest};
use shmulinette::config::validate_tests;
use shmulinette::models::{CLIArgs, CLIArgsOption, Shmuli, TestCase};

#[test]
fn test_parse_shmuli_logic() {
    let content = "BUILDER=cargo build\nBIN=cargo run";
    let parsed: Shmuli = content.parse().expect("Valid Shmulinette format");

    assert_eq!(parsed.bin, "cargo run");
    assert_eq!(parsed.builder, None);
}

#[test]
fn test_parse_shmuli_no_builder() {
    let content = "BIN=./my_binary";
    let parsed: Shmuli = content.parse().expect("Should work without BUILDER");

    assert_eq!(parsed.bin, "./my_binary");
    assert!(parsed.builder.is_none());
}

#[test]
fn test_is_option_only() {
    let flag = "-o".to_string();
    let act = Some(&flag);
    let names = ["test1".to_string(), "test2".to_string()];
    let remaining = Some(&names[..]);

    let result = is_option(act, remaining);
    if let Some(CLIArgsOption::Only(vec)) = result {
        assert_eq!(vec.len(), 2);
        assert_eq!(vec[0], "test1");
    } else {
        panic!("Should have parsed as Only");
    }
}

#[test]
fn test_parse_json_filtering() {
    let args = CLIArgs {
        path: Some("tests.json".to_string()),
        option: Some(CLIArgsOption::Only(vec!["test1".to_string()])),
    };
    let test_case = TestCase {
        name: "test1".to_string(),
        command: "ls".to_string(),
        result: "ok".to_string(),
        status: 0,
    };

    assert!(args.option.as_ref().unwrap().should_keep(&test_case.name));
}

#[test]
fn should_keep_rules() {
    let only = CLIArgsOption::Only(vec!["a".to_string()]);
    assert!(only.should_keep("a"));
    assert!(!only.should_keep("b"));
    assert!(CLIArgsOption::Only(vec![]).should_keep("b"));
    let exclude = CLIArgsOption::Exclude(vec!["a".to_string()]);
    assert!(!exclude.should_keep("a"));
    assert!(exclude.should_keep("b"));
    assert!(CLIArgsOption::Exclude(vec![]).should_keep("a"));
}

#[test]
fn is_option_exclude_and_other() {
    let flag = "--exclude".to_string();
    let names = ["x".to_string()];
    match is_option(Some(&flag), Some(&names[..])) {
        Some(CLIArgsOption::Exclude(v)) => assert_eq!(v, vec!["x".to_string()]),
        other => panic!("unexpected {:?}", other),
    }
    let other = "file".to_string();
    assert!(is_option(Some(&other), Some(&names[..])).is_none());
    assert!(is_option(None, None).is_none());
    assert!(is_option(Some(&flag), None).is_none());
}

#[test]
fn parse_args_flag_first() {
    let argv = vec!["-o".to_string(), "t1".to_string(), "t2".to_string()];
    let r = parse_args(&argv);
    assert!(r.path.is_none());
    match r.option {
        Some(CLIArgsOption::Only(v)) => assert_eq!(v, vec!["t1".to_string(), "t2".to_string()]),
        other => panic!("unexpected {:?}", other),
    }
}

#[test]
fn parse_args_file_without_flag() {
    let argv = vec!["cases1".to_string()];
    let r = parse_args(&argv);
    assert_eq!(r.path, Some("cases1".to_string()));
    match r.option {
        Some(CLIArgsOption::Exclude(v)) => assert!(v.is_empty()),
        other => panic!("unexpected {:?}", other),
    }
    let r = parse_args(&vec![]);
    assert!(r.path.is_none());
    assert!(matches!(r.option, Some(CLIArgsOption::Exclude(ref v)) if v.is_empty()));
}

#[test]
fn parse_args_file_then_exclude() {
    let argv = vec!["c".to_string(), "-e".to_string(), "t".to_string()];
    let r = parse_args(&argv);
    assert_eq!(r.path, Some("c".to_string()));
    assert!(matches!(r.option, Some(CLIArgsOption::Exclude(ref v)) if v == &vec!["t".to_string()]));
}

#[test]
fn cli_case_and_names() {
    let argv = vec!["1_test".to_string(), "-o".to_string(), " a, b ,c".to_string()];
    match parse_cli(&argv) {
        CliRequest::Run { case_name, filter_flag, filter_names } => {
            assert_eq!(case_name, Some("1_test".to_string()));
            assert_eq!(filter_flag, Some("-o".to_string()));
            assert_eq!(filter_names, vec!["a".to_string(), "b".to_string(), "c".to_string()]);
        }
        _ => panic!("expected a run"),
    }
}

#[test]
fn cli_defaults_and_errors() {
    match parse_cli(&vec![]) {
        CliRequest::Run { case_name, filter_flag, filter_names } => {
            assert!(case_name.is_none());
            assert!(filter_flag.is_none());
            assert!(filter_names.is_empty());
        }
        _ => panic!("expected a run"),
    }
    assert!(matches!(parse_cli(&vec!["--help".to_string()]), CliRequest::Help));
    assert!(matches!(parse_cli(&vec!["x".to_string(), "-h".to_string()]), CliRequest::Help));
    match parse_cli(&vec!["--exclude".to_string()]) {
        CliRequest::MissingNames(f) => assert_eq!(f, "--exclude"),
        _ => panic!("expected missing names"),
    }
    match parse_cli(&vec!["a".to_string(), "b".to_string()]) {
        CliRequest::Unknown(f) => assert_eq!(f, "b"),
        _ => panic!("expected unknown"),
    }
}

#[test]
fn split_names_trims() {
    assert_eq!(split_names("x ,y"), vec!["x".to_string(), "y".to_string()]);
    assert_eq!(split_names(""), vec!["".to_string()]);
}

#[test]
fn shmuli_full_settings() {
    let content = "# settings\r\nBUILD = make\r\nBIN = ./prog \r\nSEPARATOR=1\r\nBIN=./other\r\nOTHER=x\n\n";
    let parsed = Shmuli::parse(content).expect("valid");
    assert_eq!(parsed.bin, "./prog");
    assert_eq!(parsed.builder, Some("make".to_string()));
    assert!(parsed.separator);
}

#[test]
fn shmuli_separator_values() {
    let parsed = Shmuli::parse("BIN=b\nSEPARATOR=true").expect("valid");
    assert!(parsed.separator);
    let parsed = Shmuli::parse("BIN=b\nSEPARATOR=yes").expect("valid");
    assert!(!parsed.separator);
    let parsed = Shmuli::parse("BIN=b").expect("valid");
    assert!(!parsed.separator);
}

#[test]
fn shmuli_missing_bin() {
    assert!(Shmuli::parse("BUILD=make\nBINARY=x\nno equals here").is_err());
    assert!(Shmuli::parse("").is_err());
}

fn case(name: &str) -> TestCase {
    TestCase {
        name: name.to_string(),
        command: "true".to_string(),
        result: "".to_string(),
        status: 0,
    }
}

#[test]
fn validate_rejects_empty_and_blank_names() {
    assert_eq!(validate_tests(&vec![]), Err("The JSON file contains an empty list.".to_string()));
    assert_eq!(
        validate_tests(&vec![case("a"), case("  "), case("")]),
        Err("Test case at index 1 is missing a name.".to_string())
    );
    assert_eq!(validate_tests(&vec![case("a")]), Ok(()));
}

#[test]
fn parse_args_splits_names_at_commas() {
    let argv = vec!["-o".to_string(), "a, b".to_string(), "c".to_string()];
    let r = parse_args(&argv);
    assert!(r.path.is_none());
    match r.option {
        Some(CLIArgsOption::Only(v)) => {
            assert_eq!(v, vec!["a".to_string(), "b".to_string(), "c".to_string()])
        }
        other => panic!("unexpected {:?}", other),
    }
    let argv = vec!["file".to_string(), "--exclude".to_string(), "x,y".to_string()];
    let r = parse_args(&argv);
    assert_eq!(r.path, Some("file".to_string()));
    assert!(matches!(r.option, Some(CLIArgsOption::Exclude(ref v)) if v == &vec!["x".to_string(), "y".to_string()]));
}

#[test]
fn shmuli_builder_key_is_build_only() {
    let parsed = Shmuli::parse("BUILDER=x\nBUILD=make\nBUILD=other\nBIN=b").expect("valid");
    assert_eq!(parsed.builder, Some("make".to_string()));
}
