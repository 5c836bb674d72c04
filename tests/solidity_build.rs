use solang_build::command::{join_tokens, resolve_output_dir, SolangArgs};
use solang_build::error::BuildError;
use solang_build::options::{
    build_mode_of, effective_verbosity, native_options, verbosity_of, BuildMode, Verbosity,
};
use solang_build::outcome::{plan_solidity_build, solidity_outcome, SolidityPlan};
use solang_build::source::{check_source, is_solidity_path};
use solang_build::translate::{translate, BuildFlags, Invocation};

fn empty_args() -> SolangArgs {
    SolangArgs {
        emit: String::new(),
        contract: String::new(),
        no_constant_folding: String::new(),
        no_strength_reduce: String::new(),
        optimizer_level: String::new(),
        no_dead_storage: String::new(),
        target: String::new(),
        address_length: String::new(),
        no_vector_to_slice: String::new(),
        no_cse: String::new(),
        value_length: String::new(),
        standard_json: String::new(),
        verbose: String::new(),
        output_dir: String::new(),
        output_meta: String::new(),
        import_path: String::new(),
        import_map: String::new(),
        no_log_api_return_codes: String::new(),
        no_log_runtime_errors: String::new(),
        no_print: String::new(),
        release: String::new(),
        solidity_filename: String::new(),
    }
}

fn flipper_args() -> SolangArgs {
    let mut a = empty_args();
    a.contract = "--contract flipper".to_string();
    a.target = "--target substrate".to_string();
    a.verbose = "-v".to_string();
    a.release = "--release".to_string();
    a.solidity_filename = "/p/flipper.sol".to_string();
    a
}

fn flags(solang: bool) -> BuildFlags {
    BuildFlags {
        solang,
        release: false,
        output_json: false,
        quiet: false,
        verbose: false,
        output_meta: String::new(),
        output_dir: String::new(),
        solidity_filename: None,
        solang_args: empty_args(),
    }
}

#[test]
fn build_mode_follows_release_switch() {
    assert_eq!(build_mode_of(true), BuildMode::Release);
    assert_eq!(build_mode_of(false), BuildMode::Debug);
}

#[test]
fn verbosity_from_switches() {
    assert_eq!(verbosity_of(false, false).unwrap(), Verbosity::Default);
    assert_eq!(verbosity_of(true, false).unwrap(), Verbosity::Quiet);
    assert_eq!(verbosity_of(false, true).unwrap(), Verbosity::Verbose);
    assert!(matches!(verbosity_of(true, true), Err(BuildError::ConflictingVerbosity)));
}

#[test]
fn json_output_forces_quiet() {
    assert_eq!(effective_verbosity(true, Verbosity::Verbose), Verbosity::Quiet);
    assert_eq!(effective_verbosity(true, Verbosity::Default), Verbosity::Quiet);
    assert_eq!(effective_verbosity(false, Verbosity::Verbose), Verbosity::Verbose);
    let o = native_options(false, true, false, true).unwrap();
    assert_eq!(o.verbosity, Verbosity::Quiet);
    assert!(o.output_json);
}

#[test]
fn native_options_release_iff_flag() {
    assert_eq!(native_options(true, false, false, false).unwrap().build_mode, BuildMode::Release);
    assert_eq!(native_options(false, false, false, false).unwrap().build_mode, BuildMode::Debug);
    assert_eq!(native_options(false, false, false, true).unwrap().verbosity, Verbosity::Verbose);
    assert!(matches!(
        native_options(true, false, true, true),
        Err(BuildError::ConflictingVerbosity)
    ));
}

#[test]
fn solidity_extension_table() {
    assert!(is_solidity_path("flipper.sol"));
    assert!(is_solidity_path("/home/u/contracts/flipper.sol"));
    assert!(!is_solidity_path("flipper.txt"));
    assert!(!is_solidity_path("lib.rs"));
    assert!(!is_solidity_path("flipper"));
    assert!(!is_solidity_path(".sol"));
    assert!(!is_solidity_path("dir/.sol"));
    assert!(!is_solidity_path("flipper.sol.bak"));
    assert!(!is_solidity_path(""));
}

#[test]
fn missing_source_is_configuration_error() {
    assert!(matches!(check_source(None, true), Err(BuildError::MissingSource)));
    assert!(matches!(check_source(None, false), Err(BuildError::MissingSource)));
}

#[test]
fn bad_source_path_names_the_path() {
    for p in ["notes.txt", "main.rs", "flipper"] {
        match check_source(Some(p), true) {
            Err(BuildError::BadSourcePath(s)) => assert_eq!(s, p),
            other => panic!("unexpected {:?}", other),
        }
    }
    match check_source(Some("gone.sol"), false) {
        Err(BuildError::BadSourcePath(s)) => assert_eq!(s, "gone.sol"),
        other => panic!("unexpected {:?}", other),
    }
    assert!(check_source(Some("flipper.sol"), true).is_ok());
}

#[test]
fn output_dir_resolution() {
    assert_eq!(resolve_output_dir("/a", "", "/root"), "/a");
    assert_eq!(resolve_output_dir("", "/b", "/root"), "/b");
    assert_eq!(resolve_output_dir("", "", "/root"), "/root");
    assert_eq!(resolve_output_dir("/a", "/b", "/root"), "/a");
}

#[test]
fn join_keeps_empty_tokens() {
    let t = vec!["a".to_string(), "".to_string(), "b".to_string()];
    assert_eq!(join_tokens(&t), "a  b");
    assert_eq!(join_tokens(&vec![]), "");
    assert_eq!(join_tokens(&vec!["x".to_string()]), "x");
}

#[test]
fn command_line_exact() {
    let a = flipper_args();
    let expected = "solang compile  --contract flipper     --target substrate      -v        --release /p/flipper.sol".to_string();
    assert_eq!(a.command_line(), expected);
    assert_eq!(a.command_tokens().len(), 24);
    assert_eq!(empty_args().command_line(), format!("solang compile{}", " ".repeat(22)));
}

#[test]
fn command_line_deterministic() {
    let a = flipper_args();
    let b = flipper_args();
    assert_eq!(a.command_line().as_bytes(), b.command_line().as_bytes());
    assert_eq!(a.command_line(), a.command_line());
}

#[test]
fn plan_for_valid_source() {
    let a = flipper_args();
    let p = plan_solidity_build(&a, Some("/p/flipper.sol"), true, "", "/out", "/p", true).unwrap();
    assert_eq!(p.command_line, a.command_line());
    assert_eq!(p.output_dir, "/out");
    assert_eq!(p.build_mode, BuildMode::Release);
}

#[test]
fn plan_refused_without_source() {
    let a = flipper_args();
    assert!(matches!(
        plan_solidity_build(&a, None, true, "/m", "/out", "/p", false),
        Err(BuildError::MissingSource)
    ));
    assert!(matches!(
        plan_solidity_build(&a, Some("/p/flipper.txt"), true, "", "", "/p", false),
        Err(BuildError::BadSourcePath(_))
    ));
}

#[test]
fn outcome_follows_exit_code() {
    let plan = SolidityPlan {
        command_line: "solang compile".to_string(),
        output_dir: "/out".to_string(),
        build_mode: BuildMode::Debug,
    };
    let ok = solidity_outcome(plan.clone(), Some(0)).unwrap();
    assert_eq!(ok.output_dir, "/out");
    assert_eq!(ok.build_mode, BuildMode::Debug);
    assert!(matches!(
        solidity_outcome(plan.clone(), Some(1)),
        Err(BuildError::CompilerFailed(Some(1)))
    ));
    assert!(matches!(
        solidity_outcome(plan, None),
        Err(BuildError::CompilerFailed(None))
    ));
}

#[test]
fn translate_native_mode() {
    let mut f = flags(false);
    f.release = true;
    f.output_json = true;
    f.verbose = true;
    match translate(&f, "/p", false).unwrap() {
        Invocation::Native(o) => {
            assert_eq!(o.build_mode, BuildMode::Release);
            assert_eq!(o.verbosity, Verbosity::Quiet);
        }
        other => panic!("unexpected {:?}", other),
    }
    let f = flags(false);
    match translate(&f, "/p", false).unwrap() {
        Invocation::Native(o) => assert_eq!(o.build_mode, BuildMode::Debug),
        other => panic!("unexpected {:?}", other),
    }
}

#[test]
fn translate_solidity_mode() {
    let f = flags(true);
    assert!(matches!(translate(&f, "/p", true), Err(BuildError::MissingSource)));
    let mut f = flags(true);
    f.solidity_filename = Some("/p/flipper.sol".to_string());
    f.output_meta = "/meta".to_string();
    f.output_dir = "/out".to_string();
    f.solang_args = flipper_args();
    match translate(&f, "/p", true).unwrap() {
        Invocation::Solidity(p) => {
            assert_eq!(p.output_dir, "/meta");
            assert_eq!(p.command_line, flipper_args().command_line());
            assert_eq!(p.build_mode, BuildMode::Debug);
        }
        other => panic!("unexpected {:?}", other),
    }
    assert!(matches!(translate(&f, "/p", false), Err(BuildError::BadSourcePath(_))));
}
