use bratch::{
    BratchError,
    substrate_input::{RevisionIdPair, SubstrateInput},
};
use std::str::FromStr;

#[test]
fn revision_id_pair_display_round_trips() {
    let pair = RevisionIdPair::from_str("abc123..def456").expect("valid pair");

    assert_eq!("abc123", pair.baseline.0);
    assert_eq!("def456", pair.candidate.0);
    assert_eq!("abc123..def456", pair.to_text());
}

#[test]
fn revision_id_pair_rejects_malformed_inputs() {
    for malformed in ["", "abc", "abc..def..ghi", "..def", "abc..", ".."] {
        assert!(
            RevisionIdPair::from_str(malformed).is_err(),
            "expected rejection of {malformed:?} but it was accepted"
        );
    }
}

#[test]
fn revision_id_pair_accepts_various_ref_formats() {
    for valid in [
        "main..feature-branch",
        "v1.0.0..v2.0.0",
        "abc123..def456",
        "HEAD~3..HEAD",
    ] {
        assert!(
            RevisionIdPair::from_str(valid).is_ok(),
            "expected acceptance of {valid:?} but it was rejected"
        );
    }
}

#[test]
fn substrate_input_accepts_every_supported_presence_combination() {
    for (diff, history) in [
        (None, None),
        (Some("change.diff".to_owned()), None),
        (None, Some("main".to_owned())),
        (Some("change.diff".to_owned()), Some("main".to_owned())),
    ] {
        let input = SubstrateInput::new(diff.clone(), history.clone()).expect("input is valid");

        assert_eq!(diff, input.diff);
        assert_eq!(history, input.history);
    }
}

#[test]
fn substrate_input_rejects_empty_diff_path() {
    let error =
        SubstrateInput::new(Some(String::new()), None).expect_err("empty diff path rejected");

    assert!(matches!(error, BratchError::DiffSliceInvalid(_)));
}

#[test]
fn substrate_input_rejects_empty_history_ref() {
    let error =
        SubstrateInput::new(None, Some(String::new())).expect_err("empty history ref rejected");

    assert!(matches!(error, BratchError::HistoryRefInvalid(_)));
}

#[test]
fn revision_id_pair_round_trips_for_sample_valid_refs() {
    for (baseline, candidate) in [
        ("a", "b"),
        ("main", "feature/x_1"),
        ("0123456789abcdef0123456789abcdef", "release-2"),
        ("A_b/c-D", "Z"),
    ] {
        let input = format!("{baseline}..{candidate}");
        let pair = RevisionIdPair::from_str(&input).expect("valid pair");
        assert_eq!(baseline, pair.baseline.0);
        assert_eq!(candidate, pair.candidate.0);
        assert_eq!(input, pair.to_text());
    }
}

#[test]
fn revision_id_pair_rejects_triple_dot_and_reports_input() {
    for malformed in ["a...b", "a....b", "...", "a..b.."] {
        match RevisionIdPair::from_str(malformed) {
            Err(BratchError::RevisionIdPairMalformed(text)) => assert_eq!(malformed, text),
            other => panic!("expected RevisionIdPairMalformed for {malformed:?}, got {other:?}"),
        }
    }
}

#[test]
fn revision_id_pair_keeps_single_dots_and_unicode() {
    let pair = RevisionIdPair::from_str("v1.0..ß.2").expect("valid pair");
    assert_eq!("v1.0", pair.baseline.0);
    assert_eq!("ß.2", pair.candidate.0);
}

#[test]
fn substrate_input_reports_diff_before_history() {
    let error = SubstrateInput::new(Some(String::new()), Some(String::new()))
        .expect_err("both empty rejected");
    match error {
        BratchError::DiffSliceInvalid(text) => assert_eq!("diff path must not be empty", text),
        other => panic!("expected DiffSliceInvalid, got {other:?}"),
    }
    match SubstrateInput::new(None, Some(String::new())) {
        Err(BratchError::HistoryRefInvalid(text)) => assert_eq!("history ref must not be empty", text),
        other => panic!("expected HistoryRefInvalid, got {other:?}"),
    }
}

#[test]
fn substrate_input_accepts_white_space_refs() {
    let input = SubstrateInput::new(Some(" ".to_owned()), Some("\t".to_owned())).expect("not empty");
    assert_eq!(Some(" ".to_owned()), input.diff);
}
