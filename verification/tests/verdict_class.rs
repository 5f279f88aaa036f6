use bratch::{BratchError, ExitCode, VerdictClass};
use std::collections::BTreeSet;
use std::str::FromStr;

fn assert_verdict_name_contract(values: &[VerdictClass]) {
    let names: BTreeSet<&str> = values.iter().map(|v| v.stable_name()).collect();
    assert_eq!(values.len(), names.len(), "names are not unique: {names:?}");
    for value in values {
        let name = value.stable_name();
        let parsed = VerdictClass::from_str(name).expect("name must parse");
        assert_eq!(*value, parsed, "round-trip failed for {name:?}");
        assert!(VerdictClass::from_str(&format!(" {name}")).is_err());
        assert!(VerdictClass::from_str(&format!("{name} ")).is_err());
    }
}

#[test]
fn verdict_names_cover_exact_closed_set() {
    assert_eq!(3, VerdictClass::ALL.len());
    assert_verdict_name_contract(&VerdictClass::ALL);
}

#[test]
fn verdict_exit_codes_match_contract() {
    let cases = [
        (VerdictClass::NoRegression, ExitCode::Success, 0),
        (VerdictClass::RegressionDetected, ExitCode::Finding, 1),
        (VerdictClass::Malformed, ExitCode::InternalError, 2),
    ];

    for (verdict, expected_exit_code, expected_raw_code) in cases {
        let exit_code: ExitCode = verdict.into();

        assert_eq!(expected_exit_code, exit_code);
        assert_eq!(expected_raw_code, exit_code.as_i32());
    }
}

#[test]
fn verdict_rejects_names_outside_closed_set() {
    for name in [
        "unknown",
        "",
        "NoRegression",
        "RegressionDetected",
        " no-regression",
        "no-regression ",
        "no_regression",
        "clean",
        "finding",
    ] {
        assert!(
            VerdictClass::from_str(name).is_err(),
            "expected rejection of {name:?} but it was accepted"
        );
    }
}

#[test]
fn verdict_names_are_the_published_kebab_case_names() {
    let names: Vec<&str> = VerdictClass::ALL.iter().map(|v| v.stable_name()).collect();
    assert_eq!(vec!["no-regression", "regression-detected", "malformed"], names);
}

#[test]
fn verdict_parse_error_carries_the_input() {
    match VerdictClass::parse("clean") {
        Err(BratchError::VerdictClassUnknown(text)) => assert_eq!("clean", text),
        other => panic!("expected VerdictClassUnknown, got {other:?}"),
    }
}
