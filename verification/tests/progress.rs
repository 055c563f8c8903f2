use xana::message::{ContentBlock, Message, Role, ToolCall, ToolFailure, ToolResult};
use xana::progress::{
    ProgressGuard, CONSECUTIVE_ERROR_LIMIT, DENIED_REASON, REPEAT_LIMIT, STOP_REASON,
    UNAVAILABLE_REASON, WINDOW,
};

fn named(id: usize, name: &str, arguments: &str) -> ToolCall {
    ToolCall { id: id.to_string(), name: name.to_string(), arguments: arguments.to_string() }
}

fn call(id: usize) -> ToolCall {
    named(id, "read_file", "{\"path\":\"notes.txt\",\"start_line\":1}")
}

#[test]
fn memory_repairs_are_bounded_across_names_arguments_and_intervening_successes() {
    let mut guard = ProgressGuard::new();
    for (index, name) in ["memory_remember", "memory_update"].into_iter().enumerate() {
        let request = named(index, name, &format!("{{\"quote\":{index}}}"));
        guard.observe(
            &request,
            &ToolResult {
                failure: Some(ToolFailure::InvalidMemorySource),
                ..ToolResult::error(request.id.clone(), "invalid")
            },
        );
        guard.observe(
            &call(99),
            &ToolResult::success("99".to_string(), "useful unrelated read"),
        );
        assert_eq!(guard.memory_recovery_needed(), index == 1);
    }
    let mutation = ToolCall { name: "memory_correct".to_string(), ..call(2) };
    assert!(guard.blocked_result(&mutation).is_some());
    assert!(guard.blocked_result(&call(3)).is_none());
}

#[test]
fn repeated_failures_survive_continuation_but_not_new_owner_input() {
    let mut history = vec![Message::text(Role::User, "read notes")];
    for id in 0..3 {
        history.push(Message {
            role: Role::Assistant,
            content: vec![ContentBlock::ToolCall(call(id))],
        });
        history.push(Message::tool_result(ToolResult::error(id.to_string(), "invalid range")));
        assert_eq!(ProgressGuard::from_history(&history).stopped(), id == 2);
    }
    history.push(Message::text(Role::User, "I corrected it; retry"));
    assert!(!ProgressGuard::from_history(&history).stopped());
}

#[test]
fn changed_invalid_arguments_are_bounded_but_successful_work_resets_the_streak() {
    let mut guard = ProgressGuard::new();
    for id in 0..CONSECUTIVE_ERROR_LIMIT {
        let request =
            named(id, "read_file", &format!("{{\"path\":\"notes.txt\",\"start_line\":{id}}}"));
        guard.observe(&request, &ToolResult::error(request.id.clone(), "invalid"));
        assert_eq!(guard.stopped(), id + 1 == CONSECUTIVE_ERROR_LIMIT);
    }
    let mut guard = ProgressGuard::new();
    for id in 0..100 {
        let request = call(id);
        guard.observe(&request, &ToolResult::error(request.id.clone(), "transient"));
        guard.observe(&request, &ToolResult::success(request.id.clone(), "new page"));
    }
    assert!(!guard.stopped());
    assert_eq!(guard.failed_count(), 0);
}

#[test]
fn denial_is_typed_and_not_reprompted_with_reordered_keys_or_a_new_call_id() {
    let request = call(0);
    let mut guard = ProgressGuard::new();
    guard.observe(&request, &ToolResult::denied("0".to_string(), "denied"));
    let retry = ToolCall {
        id: "different".to_string(),
        name: request.name.clone(),
        arguments: "{\"start_line\":1,\"path\":\"notes.txt\"}".to_string(),
    };
    let blocked = guard.blocked_result(&retry).unwrap();
    assert_eq!(blocked.failure, Some(ToolFailure::PermissionDenied));
    assert_eq!(blocked.call_id, "different");
    assert_eq!(blocked.output, DENIED_REASON);
    let different_page = ToolCall {
        arguments: "{\"start_line\":2,\"path\":\"notes.txt\"}".to_string(),
        ..retry
    };
    assert!(guard.blocked_result(&different_page).is_none());
    assert!(!guard.stopped());
    let mut guard = ProgressGuard::new();
    guard.observe(
        &request,
        &ToolResult::error("0".to_string(), "permission denied for tool read_file"),
    );
    assert!(guard.blocked_result(&request).is_none());
}

#[test]
fn unavailable_capability_cannot_retry_with_different_arguments_or_after_useful_work() {
    let request = call(0);
    let unavailable = ToolResult::unavailable("0".to_string(), "no capability");
    let mut guard = ProgressGuard::new();
    guard.observe(&request, &unavailable);
    assert!(!guard.stopped(), "the model may still answer or use other tools");
    let alternative = ToolCall { name: "echo".to_string(), ..call(1) };
    assert!(guard.blocked_result(&alternative).is_none());
    guard.observe(&alternative, &ToolResult::success("1".to_string(), "useful result"));
    let retry = named(2, "read_file", "{\"path\":\"another-file\",\"start_line\":99}");
    let blocked = guard.blocked_result(&retry).unwrap();
    assert_eq!(blocked.failure, Some(ToolFailure::Unavailable));
    assert_eq!(blocked.output, UNAVAILABLE_REASON);
    guard.observe(&retry, &blocked);
    assert!(guard.stopped());
}

#[test]
fn unavailable_classification_survives_history_but_does_not_parse_prose_or_cross_turns() {
    let request = call(0);
    let mut history = vec![
        Message::text(Role::User, "inspect"),
        Message { role: Role::Assistant, content: vec![ContentBlock::ToolCall(call(0))] },
        Message::tool_result(ToolResult::unavailable("0".to_string(), "no capability")),
    ];
    assert!(ProgressGuard::from_history(&history).blocked_result(&request).is_some());
    history.push(Message::text(Role::User, "new turn"));
    assert!(ProgressGuard::from_history(&history).blocked_result(&request).is_none());
    let mut guard = ProgressGuard::new();
    guard.observe(
        &request,
        &ToolResult::error("0".to_string(), "unavailable; do not retry"),
    );
    assert!(
        guard.blocked_result(&request).is_none(),
        "ordinary error prose is not authority"
    );
}

#[test]
fn unavailable_memory_cannot_be_retried_under_a_new_mutation_name() {
    let mut guard = ProgressGuard::new();
    let legacy = ToolCall { name: "memory_update".to_string(), ..call(0) };
    guard.observe(&legacy, &ToolResult::unavailable("0".to_string(), "no protected home"));
    for name in ["memory_lookup", "memory_remember", "memory_correct", "memory_forget"] {
        let other = ToolCall { name: name.to_string(), ..call(1) };
        assert_eq!(
            guard.blocked_result(&other).unwrap().failure,
            Some(ToolFailure::Unavailable)
        );
    }
    assert!(
        guard.blocked_result(&call(2)).is_none(),
        "a useful unrelated tool remains possible"
    );
}

#[test]
fn stopped_guard_refuses_everything_with_the_stop_reason() {
    let mut guard = ProgressGuard::new();
    for id in 0..REPEAT_LIMIT {
        guard.observe(&call(id), &ToolResult::error(id.to_string(), "same"));
    }
    assert!(guard.stopped());
    let other = named(9, "echo", "{}");
    let blocked = guard.blocked_result(&other).unwrap();
    assert_eq!(blocked.output, STOP_REASON);
    assert_eq!(blocked.call_id, "9");
}

#[test]
fn failed_requests_are_remembered_within_a_window() {
    let mut guard = ProgressGuard::new();
    for id in 0..(2 * WINDOW) {
        let request = named(id, "read_file", &format!("{{\"start_line\":{id}}}"));
        guard.observe(&request, &ToolResult::error(id.to_string(), "transient"));
        guard.observe(&named(id, "echo", "{}"), &ToolResult::success(id.to_string(), "page"));
    }
    assert!(!guard.stopped());
    assert_eq!(guard.failed_count(), WINDOW);
}

#[test]
fn fingerprints_depend_on_tool_and_arguments_alone() {
    let plain = call(0).pattern_fingerprint();
    assert_eq!(
        plain,
        named(7, "read_file", "{ \"start_line\": 1, \"path\": \"notes.txt\" }").pattern_fingerprint()
    );
    assert_ne!(plain, named(0, "read_fil", "{\"path\":\"notes.txt\"}").pattern_fingerprint());
    assert_ne!(
        named(0, "read_file", "not json").pattern_fingerprint(),
        named(0, "read_file", "not  json").pattern_fingerprint()
    );
    let mut bytes = b"echo".to_vec();
    bytes.push(0);
    bytes.extend_from_slice(b"{\"a\":1,\"b\":[2,3]}");
    assert_eq!(
        named(1, "echo", "{\"b\":[2, 3],\"a\":1}").pattern_fingerprint(),
        *blake3::hash(&bytes).as_bytes()
    );
}

fn failed_round(id: usize, arguments: &str) -> Vec<Message> {
    vec![
        Message {
            role: Role::Assistant,
            content: vec![ContentBlock::ToolCall(named(id, "read_file", arguments))],
        },
        Message::tool_result(ToolResult::error(id.to_string(), "invalid")),
    ]
}

#[test]
fn earlier_turns_never_matter_to_a_restarted_guard() {
    let turn = |rounds: usize| {
        let mut history = vec![Message::text(Role::User, "read")];
        for id in 0..rounds {
            history.extend(failed_round(id, "{\"path\":\"a\"}"));
        }
        history
    };
    for rounds in 0..=REPEAT_LIMIT {
        let mut long = turn(REPEAT_LIMIT);
        long.extend(turn(rounds));
        let guard = ProgressGuard::from_history(&long);
        assert_eq!(guard.stopped(), rounds == REPEAT_LIMIT);
        assert_eq!(guard.failed_count(), ProgressGuard::from_history(&turn(rounds)).failed_count());
    }
}

#[test]
fn restarted_guards_count_repeats_whatever_the_key_order() {
    let mut history = vec![Message::text(Role::User, "read")];
    for id in 0..REPEAT_LIMIT {
        assert!(!ProgressGuard::from_history(&history).stopped());
        let arguments =
            if id % 2 == 0 { "{\"a\":1,\"b\":2}" } else { "{\"b\":2,\"a\":1}" };
        history.extend(failed_round(id, arguments));
    }
    assert!(ProgressGuard::from_history(&history).stopped());
}
