use bratch::{BratchError, CoreError, CoreFailure, ExitCode};

fn core_failure(error: CoreError, text: &str) -> BratchError {
    BratchError::Core(CoreFailure { error, text: text.to_owned() })
}

fn assert_error_exit_code(error: BratchError, expected: ExitCode) {
    assert_eq!(expected, error.exit_code());
    assert_eq!(expected.as_i32(), error.exit_code().as_i32());
}

#[test]
fn usage_errors_map_to_usage_exit_code() {
    for error in [
        BratchError::Usage("bad arguments".to_owned()),
        BratchError::DiffSliceInvalid("bad diff".to_owned()),
        BratchError::HistoryRefInvalid("bad history".to_owned()),
        BratchError::TaxonomyUnknown("bad signature".to_owned()),
    ] {
        assert_error_exit_code(error, ExitCode::Usage);
    }
}

#[test]
fn is_malformed_input_agrees_with_exit_code_classification() {
    for error in [
        BratchError::Usage("u".to_owned()),
        BratchError::DiffSliceInvalid("d".to_owned()),
        BratchError::HistoryRefInvalid("h".to_owned()),
        BratchError::TaxonomyUnknown("t".to_owned()),
    ] {
        assert!(error.is_malformed_input(), "must be malformed: {}", error.message());
        assert_eq!(
            error.exit_code(),
            ExitCode::Usage,
            "malformed input must map to Usage: {}",
            error.message()
        );
    }
    for error in [
        BratchError::VerdictClassUnknown("v".to_owned()),
        BratchError::RevisionIdPairMalformed("r".to_owned()),
        BratchError::InvocationSurfaceUnknown("i".to_owned()),
        BratchError::CorpusLoad("c".to_owned()),
        core_failure(CoreError::PromptResolution("p".to_owned()), "suite core failure"),
        core_failure(CoreError::CorpusSignatureInvalid, "suite core failure"),
        core_failure(CoreError::CorpusDeserializationFailed("bad corpus".to_owned()), "suite core failure"),
    ] {
        assert!(!error.is_malformed_input(), "must not be malformed: {}", error.message());
        assert_eq!(
            error.exit_code(),
            ExitCode::InternalError,
            "domain error must map to InternalError: {}",
            error.message()
        );
    }
}

#[test]
fn domain_errors_map_to_internal_error_exit_code() {
    for error in [
        BratchError::VerdictClassUnknown("bad verdict".to_owned()),
        BratchError::RevisionIdPairMalformed("bad pair".to_owned()),
        BratchError::InvocationSurfaceUnknown("bad surface".to_owned()),
        BratchError::CorpusLoad("bad corpus".to_owned()),
        core_failure(CoreError::PromptResolution("bad prompt".to_owned()), "suite core failure"),
        core_failure(CoreError::Update("bad update".to_owned()), "suite core failure"),
        core_failure(CoreError::Transcript("bad transcript".to_owned()), "suite core failure"),
        core_failure(CoreError::ManifestOverlay("signature missing".to_owned()), "suite core failure"),
        core_failure(CoreError::ExitCode("bad exit".to_owned()), "suite core failure"),
        core_failure(CoreError::VisibilityEvidence("bad evidence".to_owned()), "suite core failure"),
        core_failure(CoreError::AdapterHostBinding("bad bind".to_owned()), "suite core failure"),
        core_failure(CoreError::CorpusSignatureInvalid, "suite core failure"),
        core_failure(CoreError::CorpusDeserializationFailed("bad corpus".to_owned()), "suite core failure"),
    ] {
        assert_error_exit_code(error, ExitCode::InternalError);
    }
}

#[test]
fn process_exit_code_maps_all_exit_code_variants_to_correct_raw_bytes() {
    let cases: &[(ExitCode, i32)] = &[
        (ExitCode::Success, 0),
        (ExitCode::Finding, 1),
        (ExitCode::InternalError, 2),
        (ExitCode::Usage, 64),
    ];

    for &(code, expected_raw) in cases {
        assert_eq!(expected_raw, code.as_i32(), "ExitCode::{code:?} must produce raw status {expected_raw}");
    }
}

#[test]
fn error_display_messages_are_non_empty() {
    for error in [
        BratchError::Usage("bad arguments".to_owned()),
        BratchError::DiffSliceInvalid("bad diff".to_owned()),
        BratchError::HistoryRefInvalid("bad history".to_owned()),
        BratchError::TaxonomyUnknown("bad signature".to_owned()),
        BratchError::VerdictClassUnknown("bad verdict".to_owned()),
        BratchError::RevisionIdPairMalformed("bad pair".to_owned()),
        BratchError::InvocationSurfaceUnknown("bad surface".to_owned()),
        BratchError::CorpusLoad("bad corpus".to_owned()),
        core_failure(CoreError::PromptResolution("bad prompt".to_owned()), "suite core failure"),
        core_failure(CoreError::Update("bad update".to_owned()), "suite core failure"),
        core_failure(CoreError::Transcript("bad transcript".to_owned()), "suite core failure"),
        core_failure(CoreError::ManifestOverlay("signature missing".to_owned()), "suite core failure"),
        core_failure(CoreError::ExitCode("bad exit".to_owned()), "suite core failure"),
        core_failure(CoreError::CorpusSignatureInvalid, "suite core failure"),
        core_failure(CoreError::CorpusDeserializationFailed("bad corpus".to_owned()), "suite core failure"),
    ] {
        let message = error.message();
        assert!(!message.is_empty(), "error message must not be empty");
    }
}

#[test]
fn string_wrapping_variants_preserve_message_text() {
    let message = "caller-supplied reason";
    assert_eq!(message, BratchError::Usage(message.to_owned()).message());
    for error in [
        BratchError::DiffSliceInvalid(message.to_owned()),
        BratchError::HistoryRefInvalid(message.to_owned()),
        BratchError::TaxonomyUnknown(message.to_owned()),
        BratchError::VerdictClassUnknown(message.to_owned()),
        BratchError::RevisionIdPairMalformed(message.to_owned()),
        BratchError::InvocationSurfaceUnknown(message.to_owned()),
        BratchError::CorpusLoad(message.to_owned()),
    ] {
        assert!(
            error.message().contains(message),
            "Display must include message text: {}",
            error.message()
        );
    }
}

#[test]
fn corpus_load_error_converts_to_core_via_into_core() {
    let error = BratchError::CorpusLoad("parse failure".to_owned());
    let core = error.into_core();
    assert!(matches!(core, CoreError::CorpusDeserializationFailed(_)));
}

#[test]
fn core_passthrough_variant_converts_to_identical_core_error() {
    let error = core_failure(CoreError::Update("network timeout".to_owned()), "update failed: network timeout");
    let core = error.into_core();
    assert!(
        matches!(core, CoreError::Update(_)),
        "Core passthrough must yield the same core variant: {core:?}"
    );
}

#[test]
fn non_corpus_non_core_variants_convert_to_prompt_resolution_error() {
    for error in [
        BratchError::TaxonomyUnknown("x".to_owned()),
        BratchError::VerdictClassUnknown("x".to_owned()),
        BratchError::RevisionIdPairMalformed("x".to_owned()),
        BratchError::InvocationSurfaceUnknown("x".to_owned()),
        BratchError::Usage("x".to_owned()),
        BratchError::DiffSliceInvalid("x".to_owned()),
        BratchError::HistoryRefInvalid("x".to_owned()),
    ] {
        let display = error.message();
        let core = error.into_core();
        match core {
            CoreError::PromptResolution(text) => {
                assert!(!text.is_empty(), "PromptResolution payload must be non-empty for {display:?}");
                assert_eq!(display, text);
            }
            other => panic!("expected PromptResolution for {display:?}, got {other:?}"),
        }
    }
}

#[test]
fn error_messages_have_exact_text() {
    assert_eq!("diff path is invalid: p", BratchError::DiffSliceInvalid("p".to_owned()).message());
    assert_eq!("history ref is invalid: p", BratchError::HistoryRefInvalid("p".to_owned()).message());
    assert_eq!("unknown regression signature: p", BratchError::TaxonomyUnknown("p".to_owned()).message());
    assert_eq!("unknown verdict class: p", BratchError::VerdictClassUnknown("p".to_owned()).message());
    assert_eq!("malformed revision id pair: p", BratchError::RevisionIdPairMalformed("p".to_owned()).message());
    assert_eq!("unknown invocation surface: p", BratchError::InvocationSurfaceUnknown("p".to_owned()).message());
    assert_eq!("corpus load failed: p", BratchError::CorpusLoad("p".to_owned()).message());
    assert_eq!("", BratchError::Usage(String::new()).message());
    assert_eq!(
        "transcript write failed: disk full",
        core_failure(CoreError::Transcript("disk full".to_owned()), "transcript write failed: disk full").message()
    );
}

#[test]
fn corpus_load_message_survives_into_core() {
    match BratchError::CorpusLoad("duplicate".to_owned()).into_core() {
        CoreError::CorpusDeserializationFailed(text) => assert_eq!("duplicate", text),
        other => panic!("expected CorpusDeserializationFailed, got {other:?}"),
    }
}

#[test]
fn core_failure_shows_the_suite_core_text_and_passes_its_error_through() {
    let error = core_failure(CoreError::CorpusSignatureInvalid, "ed25519 signature mismatch");
    assert_eq!("ed25519 signature mismatch", error.message());
    assert!(matches!(error.into_core(), CoreError::CorpusSignatureInvalid));
}
