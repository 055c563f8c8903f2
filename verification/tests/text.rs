use xana::autonomy::{
    admit_authority, admit_expiry, admit_first, admit_route, admit_storage, choose_action,
    choose_schedule, choose_trigger, host_work, read_credential, read_daily, host_receipt,
    HostCommand, HostWork, Schedule, TaskAction, TaskError, TriggerKind, TriggerRequest,
    DAILY_FORM, DEDICATED_PROCESS, FILE_POLL_SECONDS, FUTURE_EXPIRY, LATE_FIRST,
    NEEDS_AUTHORIZATION, ONE_ACTION, ONE_SCHEDULE, ONE_TRIGGER, ROUTE_CHANGED, UNLOCKED_STORAGE,
};
use xana::config::CredentialReference;
use xana::desktop::activity::humanize_semantic_code;
use xana::models::{
    asked_effort, list_models, parse_selection, write_selection, ConnectionModels, ModelChoice,
    ModelDescriptor, BAD_SELECTION,
};
use xana::order::{ordered_set, sort_texts};
use xana::text::{
    blank, byte_len, contains, contains_control, decimal_text, eq_ignoring_case, join, lower, pad,
    parse_number, preview, split_once, split_spaces, starts_with, trim, trim_line_end,
};

#[test]
fn texts_are_trimmed_split_and_joined() {
    assert_eq!(trim("\u{3000} a b \t\n"), "a b");
    assert_eq!(trim_line_end("line\r\n"), "line");
    assert_eq!(
        split_once("key=a=b", '='),
        Some(("key".to_string(), "a=b".to_string()))
    );
    assert_eq!(split_once("key", '='), None);
    assert_eq!(join(&vec!["a".to_string(), "b".to_string()], ", "), "a, b");
    assert_eq!(pad("ab", 4), "ab  ");
    assert_eq!(pad("abcde", 4), "abcde");
    assert!(blank(" \t\u{a0}"));
    assert!(!blank(" x "));
    assert_eq!(byte_len("a…"), 4);
    assert!(contains("haystack", "stack") && !contains("haystack", "stick"));
    assert!(starts_with("prefix", "pre") && !starts_with("pre", "prefix"));
    assert!(contains_control("a\u{0}") && !contains_control("a b"));
    assert_eq!(lower("ABC def"), "abc def");
    assert!(eq_ignoring_case("Dumb", "dUMB"));
}

#[test]
fn numbers_are_read_and_written_in_decimal() {
    assert_eq!(decimal_text(0), "0");
    assert_eq!(decimal_text(u64::MAX), "18446744073709551615");
    assert_eq!(parse_number("0080", 500), Some(80));
    assert_eq!(parse_number("+80", 500), Some(80));
    assert_eq!(parse_number("501", 500), None);
    assert_eq!(parse_number("8 0", 500), None);
    assert_eq!(parse_number("", 500), None);
}

#[test]
fn previews_end_at_a_character() {
    assert_eq!(preview("short", 10), "short");
    assert_eq!(preview("ééé", 5), "é...");
    assert_eq!(preview("ééé", 4), "...");
    assert_eq!(preview("abcdef", 5), "ab...");
}

#[test]
fn names_are_put_in_order_by_their_bytes() {
    let texts = ["b", "a", "B", "a"].map(str::to_string).to_vec();
    assert_eq!(ordered_set(&texts), ["B", "a", "b"]);
    assert_eq!(sort_texts(&texts), ["B", "a", "a", "b"]);
}

#[test]
fn semantic_codes_are_read_as_sentences() {
    let label = humanize_semantic_code("runtime.tool_started");
    assert!(label.chars().next().unwrap().is_uppercase());
    assert!(!label.contains('_'));
    assert_eq!(humanize_semantic_code("ßtart").chars().next(), Some('S'));
}

#[test]
fn authority_needs_consent_and_a_future() {
    assert_eq!(
        admit_authority(false, "2030-01-01T00:00:00Z", 0),
        Err(TaskError::Refused(NEEDS_AUTHORIZATION))
    );
    assert_eq!(admit_authority(true, "1970-01-02T00:00:00Z", 86_399), Ok(86_400));
    assert_eq!(admit_authority(true, "1970-01-02T01:00:00+01:00", 0), Ok(86_400));
    assert_eq!(
        admit_authority(true, "1970-01-02T00:00:00Z", 86_400),
        Err(TaskError::Refused(FUTURE_EXPIRY))
    );
    assert!(matches!(admit_authority(true, "tomorrow", 0), Err(TaskError::Instant(_))));
    assert_eq!(admit_expiry(5, 4), Ok(5));
    assert_eq!(admit_expiry(4, 4), Err(TaskError::Refused(FUTURE_EXPIRY)));
    assert_eq!(admit_first(4, 5), Ok(()));
    assert_eq!(admit_first(5, 5), Err(TaskError::Refused(LATE_FIRST)));
    assert_eq!(admit_storage(false), Err(TaskError::Refused(UNLOCKED_STORAGE)));
}

#[test]
fn scheduled_work_is_chosen_exactly() {
    let some = |text: &str| Some(text.to_string());
    assert_eq!(
        choose_action(some("call"), None, false),
        Ok(TaskAction::Reminder { text: "call".to_string() })
    );
    assert_eq!(
        choose_action(None, some("check"), true),
        Ok(TaskAction::NativeTask { prompt: "check".to_string(), workspace_reads: true })
    );
    assert_eq!(choose_action(None, None, false), Err(TaskError::Refused(ONE_ACTION)));
    assert_eq!(
        choose_action(some("a"), some("b"), false),
        Err(TaskError::Refused(ONE_ACTION))
    );
    assert_eq!(choose_trigger(None, None, None), Ok(None));
    assert_eq!(
        choose_trigger(some("src"), None, None),
        Ok(Some(TriggerRequest::Files { root: "src".to_string() }))
    );
    assert_eq!(
        choose_trigger(None, some("run"), some("env:TOKEN")),
        Ok(Some(TriggerRequest::Run {
            run: "run".to_string(),
            credential: CredentialReference::Environment { variable: "TOKEN".to_string() },
        }))
    );
    assert_eq!(
        choose_trigger(some("src"), some("run"), None),
        Err(TaskError::Refused(ONE_TRIGGER))
    );
    assert_eq!(
        read_credential("stored:id"),
        Ok(CredentialReference::Stored { id: "id".to_string() })
    );
    assert!(read_credential("id").is_err());
    assert_eq!(admit_route(&some("a"), "a"), Ok(()));
    assert_eq!(admit_route(&some("a"), "b"), Err(TaskError::Refused(ROUTE_CHANGED)));
}

#[test]
fn schedules_are_read_by_the_clock() {
    let some = |text: &str| Some(text.to_string());
    assert_eq!(
        choose_schedule(some("1970-01-01T00:01:00Z"), None, None, None),
        Ok(Schedule::Once { at: 60 })
    );
    assert_eq!(
        choose_schedule(None, some("07:05"), some("Europe/Berlin"), None),
        Ok(Schedule::Daily { timezone: "Europe/Berlin".to_string(), hour: 7, minute: 5 })
    );
    assert_eq!(
        choose_schedule(None, None, None, Some(TriggerKind::Files)),
        Ok(Schedule::Triggered { poll_seconds: FILE_POLL_SECONDS })
    );
    assert_eq!(
        choose_schedule(None, some("07:05"), None, None),
        Err(TaskError::Refused(ONE_SCHEDULE))
    );
    assert_eq!(
        read_daily("0705", "UTC".to_string()),
        Err(TaskError::Refused(DAILY_FORM))
    );
    assert_eq!(read_daily("07:xx", "UTC".to_string()), Err(TaskError::Number));
}

#[test]
fn hosts_are_changed_at_a_revision() {
    assert_eq!(host_work(HostCommand::Status), Ok(HostWork::Report));
    match host_work(HostCommand::Stop { revision: 4, lock: true }) {
        Ok(HostWork::Edit { edit, .. }) => {
            assert!(edit.stop && edit.lock);
            assert_eq!(edit.revision, 4);
        }
        other => panic!("unexpected work: {other:?}"),
    }
    assert_eq!(host_work(HostCommand::Run), Err(TaskError::Refused(DEDICATED_PROCESS)));
    assert_eq!(
        host_work(HostCommand::Startup { revision: 1, enable: true }),
        Ok(HostWork::ChangeStartup { revision: 1, enable: true })
    );
    assert_eq!(
        host_receipt(HostCommand::Startup { revision: 1, enable: false }),
        Some("Startup authority revoked and the matching per-user registration removed")
    );
    assert!(host_receipt(HostCommand::Stop { revision: 1, lock: false })
        .unwrap()
        .starts_with("Shutdown requested for the named active job."));
    assert_eq!(host_receipt(HostCommand::Status), None);
}

#[test]
fn models_are_chosen_by_connection_and_name() {
    assert_eq!(
        parse_selection("local/qwen/3"),
        Ok(ModelChoice { connection: "local".to_string(), model: "qwen/3".to_string() })
    );
    assert_eq!(parse_selection("local"), Err(BAD_SELECTION.to_string()));
    assert_eq!(asked_effort(None), None);
    let choice =
        || ModelChoice { connection: "local".to_string(), model: "qwen".to_string() };
    let mut output = String::new();
    list_models(
        &choice(),
        &choice(),
        &vec![ConnectionModels {
            id: "local".to_string(),
            managed: false,
            kind: "ollama".to_string(),
            models: vec![ModelDescriptor {
                id: "qwen".to_string(),
                display_name: "Qwen".to_string(),
                input_modalities: vec!["text".to_string()],
                reasoning_efforts: vec![],
                default_reasoning_effort: None,
                reasoning: Some(false),
                context_tokens: Some(32_000),
                tools: Some(true),
            }],
        }],
        None,
        &mut output,
    );
    assert!(output.contains("local/qwen"));
    let mut output = String::new();
    write_selection(&choice(), &None, &None, "model.selected.v1", &mut output);
    assert!(output.contains("qwen"));
}

#[test]
fn words_are_split_at_white_space() {
    assert_eq!(split_spaces(""), Vec::<String>::new());
    assert_eq!(split_spaces(" \t\n"), Vec::<String>::new());
    assert_eq!(split_spaces("one"), ["one"]);
    let text = " a\u{a0}b\t\tc,d \u{2003}é\n";
    let words = split_spaces(text);
    assert_eq!(words, ["a", "b", "c,d", "é"]);
    assert_eq!(words, text.split_whitespace().collect::<Vec<&str>>());
}
