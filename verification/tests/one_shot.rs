use xana::one_shot::{
    acceptance_contract, bounded_stdin, chosen_output, classify_one_shot_error, resolve_sources,
    AcceptanceCondition, ExitCategory, OneShotError, OneShotFailure, OneShotOutput,
};

#[test]
fn one_shot_acceptance_is_opt_in_and_validated_before_launch() {
    assert!(acceptance_contract(None, None).unwrap().conditions.is_empty());
    let contract = acceptance_contract(Some("cargo test --offline".to_owned()), None).unwrap();
    assert_eq!(
        contract.conditions,
        vec![AcceptanceCondition::CommandSucceeded {
            command: "cargo test --offline".to_owned(),
            cwd: ".".to_owned(),
        }]
    );
    assert!(acceptance_contract(Some(" ".to_owned()), None).is_err());
    assert!(acceptance_contract(Some("ok".to_owned()), Some("\0".to_owned())).is_err());
}

#[test]
fn accepts_exactly_one_nonblank_input_source() {
    assert_eq!(
        resolve_sources(Some("argument".to_owned()), None).expect("argument"),
        "argument"
    );
    assert_eq!(
        resolve_sources(None, Some("stdin\r\n".to_owned())).expect("stdin"),
        "stdin"
    );

    for result in [
        resolve_sources(Some("argument".to_owned()), Some("stdin".to_owned())),
        resolve_sources(None, None),
        resolve_sources(Some("  ".to_owned()), None),
        resolve_sources(None, Some("\n\t".to_owned())),
    ] {
        let failure = result.expect_err("ambiguous or empty input must fail");
        assert_eq!(failure.category, ExitCategory::InvalidInput);
    }
}

#[test]
fn errors_are_classified_by_their_words() {
    for (message, category) in [
        ("Could not load CONFIG file", ExitCategory::Configuration),
        ("xana is not initialized", ExitCategory::Configuration),
        ("Provider refused", ExitCategory::Connection),
        ("the account is Logged Out", ExitCategory::Connection),
        ("turn was cancelled", ExitCategory::Interrupted),
        ("something else", ExitCategory::Runtime),
    ] {
        let failure = classify_one_shot_error(OneShotError::Message(message.to_owned()));
        assert_eq!(failure.category, category, "{message}");
        assert_eq!(failure.message, message);
    }
    let known = OneShotFailure::new(ExitCategory::Interrupted, "config");
    assert_eq!(
        classify_one_shot_error(OneShotError::Classified(known)).category,
        ExitCategory::Interrupted
    );
}

#[test]
fn piped_input_is_bounded() {
    assert!(bounded_stdin(&"x".repeat(1_048_576)).is_ok());
    let failure = bounded_stdin(&"x".repeat(1_048_577)).unwrap_err();
    assert_eq!(failure.category, ExitCategory::InvalidInput);
    assert_eq!(
        failure.message,
        "one-shot stdin exceeds the 1048576-byte limit"
    );
}

#[test]
fn json_wins_over_an_explicit_output() {
    assert_eq!(chosen_output(true, Some(OneShotOutput::Text)), OneShotOutput::Json);
    assert_eq!(chosen_output(false, None), OneShotOutput::Text);
    assert_eq!(
        chosen_output(false, Some(OneShotOutput::StreamJson)),
        OneShotOutput::StreamJson
    );
}
