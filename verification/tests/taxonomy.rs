use bratch::{BratchError, RegressionSignature};
use std::collections::BTreeSet;
use std::str::FromStr;

fn assert_signature_name_contract(values: &[RegressionSignature]) {
    let names: BTreeSet<&str> = values.iter().map(|v| v.stable_name()).collect();
    assert_eq!(values.len(), names.len(), "names are not unique: {names:?}");
    for value in values {
        let name = value.stable_name();
        let parsed = RegressionSignature::from_str(name).expect("name must parse");
        assert_eq!(*value, parsed, "round-trip failed for {name:?}");
        assert!(
            RegressionSignature::from_str(&format!(" {name}")).is_err(),
            "leading whitespace should be rejected for {name:?}"
        );
        assert!(
            RegressionSignature::from_str(&format!("{name} ")).is_err(),
            "trailing whitespace should be rejected for {name:?}"
        );
    }
}

#[test]
fn signature_names_cover_exact_closed_set() {
    assert_eq!(9, RegressionSignature::ALL.len());
    assert_signature_name_contract(&RegressionSignature::ALL);
}

#[test]
fn signature_rejects_names_outside_closed_set() {
    for name in [
        "unknown",
        "",
        "TestAssertionWeakened",
        " test-assertion-weakened",
        "test-assertion-weakened ",
        "test_assertion_weakened",
        "null-check",
        "regression",
        "brand-voice",
    ] {
        assert!(
            RegressionSignature::from_str(name).is_err(),
            "expected rejection of {name:?} but it was accepted"
        );
    }
}

#[test]
fn signature_name_round_trips_for_every_variant() {
    for (index, signature) in RegressionSignature::ALL.iter().enumerate() {
        assert_eq!(index, signature.ordinal());
        assert_eq!(*signature, RegressionSignature::from_ordinal(index));
        let parsed = RegressionSignature::parse(signature.stable_name()).expect("signature must parse");
        assert_eq!(*signature, parsed);
    }
}

#[test]
fn signature_names_are_the_published_kebab_case_names() {
    let names: Vec<&str> = RegressionSignature::ALL.iter().map(|s| s.stable_name()).collect();
    assert_eq!(
        vec![
            "null-check-removed",
            "error-handling-narrowed",
            "test-assertion-weakened",
            "scope-boundary-broken",
            "invariant-violated",
            "brand-voice-loosened",
            "banned-term-re-introduced",
            "disclosure-line-deleted",
            "approved-fact-replaced",
        ],
        names
    );
}

#[test]
fn signature_parse_error_carries_the_input() {
    match RegressionSignature::parse("Null-Check-Removed") {
        Err(BratchError::TaxonomyUnknown(text)) => assert_eq!("Null-Check-Removed", text),
        other => panic!("expected TaxonomyUnknown, got {other:?}"),
    }
}
