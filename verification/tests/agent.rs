use xana::agent::recovery::{
    AnswerEvent, AnswerOutcome, AnswerPhase, AnswerServices, AnswerWork,
    SETTLEMENT as ANSWER_SETTLEMENT,
};
use xana::agent::{
    accepts_answer, completed, recover_memory_answer, Agent, HelperPolicy, PlannedRoute,
    RecoveryFailure, RecoveryOutcome, RecoveryResponse, TelemetryKind, UsageBudget, FAILED_NOTICE,
    NO_ACCOUNTING, RECOVERY_OUTPUT_TOKENS, RECOVERY_SECONDS,
};
use xana::message::{ContentBlock, Message, Role, ToolCall, ToolResult, ToolResultStatus};
use xana::turn::{
    ProviderFailure, Receipt, Turn, TurnAction, TurnError, TurnEvent, TurnNotice, TurnOutcome,
    TurnServices, ASSISTANT_COMMIT, EVIDENCE_COMMIT, NO_ROUNDS, RESULT_COMMIT, SETTLEMENT,
    STEP_COMMIT,
};
use xana::usage::{DeltaEvent, EventDeltaSink, ProviderUsage};

const PLAIN: TurnServices = TurnServices { durable: false, budgeted: false, recorder: false };

const FULL: TurnServices = TurnServices { durable: true, budgeted: true, recorder: true };

struct Response {
    deltas: Vec<&'static str>,
    message: Message,
    usage: Option<ProviderUsage>,
}

fn answer(text: &str) -> Response {
    Response { deltas: vec![], message: Message::text(Role::Assistant, text), usage: None }
}

fn read(id: &str, path: &str) -> ToolCall {
    ToolCall {
        id: id.to_string(),
        name: "read_file".to_string(),
        arguments: format!("{{\"path\":\"{path}\"}}"),
    }
}

fn asks(calls: Vec<ToolCall>) -> Response {
    Response {
        deltas: vec![],
        message: Message {
            role: Role::Assistant,
            content: calls.into_iter().map(ContentBlock::ToolCall).collect(),
        },
        usage: None,
    }
}

fn contents(call: &ToolCall) -> ToolResult {
    let output = if call.arguments.contains("other") { "other contents" } else { "contents" };
    ToolResult::success(call.id.clone(), output)
}

/// All that happened in a turn that was played from a script.
struct Played {
    outcome: TurnOutcome,
    turn: Turn,
    requests: Vec<usize>,
    notices: Vec<TurnNotice>,
    deltas: Vec<DeltaEvent>,
}

fn play(history: Vec<Message>, rounds: usize, script: Vec<Response>) -> Played {
    let mut turn = Turn::start(&history, rounds, PLAIN).expect("the turn starts");
    let mut script = script.into_iter();
    let mut requests = vec![];
    let mut notices = vec![];
    let mut deltas = vec![];
    let mut action = TurnAction::Prepare;
    loop {
        let event = match action {
            TurnAction::Prepare => TurnEvent::Prepared(5),
            TurnAction::Request => {
                requests.push(turn.messages().len());
                match script.next() {
                    Some(response) => {
                        for text in response.deltas {
                            deltas.push(turn.text_delta(text, 7));
                        }
                        if let Some(usage) = response.usage {
                            turn.report(usage);
                        }
                        TurnEvent::Answered(response.message)
                    }
                    None => TurnEvent::ProviderFailed(ProviderFailure {
                        kind: "Other".to_string(),
                        text: "script exhausted".to_string(),
                    }),
                }
            }
            TurnAction::Invoke(call) => TurnEvent::ToolReturned(contents(&call)),
            TurnAction::Refuse(_) => TurnEvent::Done,
            TurnAction::Finish(outcome) => {
                return Played { outcome, turn, requests, notices, deltas };
            }
            other => panic!("unexpected action: {other:?}"),
        };
        let step = turn.step(event);
        notices.extend(step.notices);
        action = step.action;
    }
}

#[test]
fn provider_failures_use_the_injected_runtime_telemetry_seam() {
    let played = play(vec![Message::text(Role::User, "fail")], 1, vec![]);
    assert_eq!(
        played.notices,
        vec![
            TurnNotice::ProviderDiagnosed,
            TurnNotice::ProviderFailed("Other".to_string()),
        ]
    );
    let error = completed(played.outcome, 1).expect_err("script exhaustion should fail");
    assert!(error.contains("script exhausted"));
}

#[test]
fn scripted_text_turn_emits_deltas_then_final_message() {
    let response = Response { deltas: vec!["hel", "lo"], ..answer("hello") };
    let played = play(vec![Message::text(Role::User, "say hello")], 2, vec![response]);
    assert_eq!(
        played.deltas,
        vec![DeltaEvent::Text("hel".to_string()), DeltaEvent::Text("lo".to_string())]
    );
    assert_eq!(completed(played.outcome, 2).map(|result| result.message), Ok(Message::text(Role::Assistant, "hello")));
}

#[test]
fn scripted_tool_turn_executes_in_model_order_with_correlated_results() {
    let tool_response = Response {
        deltas: vec![],
        message: Message {
            role: Role::Assistant,
            content: vec![
                ContentBlock::Text("I'll inspect both.".to_string()),
                ContentBlock::ToolCall(read("call-b", "other.txt")),
                ContentBlock::Text("Then the note.".to_string()),
                ContentBlock::ToolCall(read("call-a", "note.txt")),
            ],
        },
        usage: None,
    };
    let final_response = Response { deltas: vec!["done"], ..answer("done") };
    let played = play(
        vec![Message::text(Role::User, "read note")],
        3,
        vec![tool_response, final_response],
    );
    let finished: Vec<(String, String, ToolResultStatus)> = played
        .notices
        .iter()
        .map(|notice| match notice {
            TurnNotice::ToolFinished(result) => {
                (result.call_id.clone(), result.output.clone(), result.status)
            }
            other => panic!("unexpected notice: {other:?}"),
        })
        .collect();
    assert_eq!(
        finished,
        [
            ("call-b".to_string(), "other contents".to_string(), ToolResultStatus::Success),
            ("call-a".to_string(), "contents".to_string(), ToolResultStatus::Success),
        ]
    );
    assert_eq!(played.deltas, vec![DeltaEvent::Text("done".to_string())]);
    assert_eq!(played.requests, vec![1, 4]);
    let outputs: Vec<(&str, &str)> = played
        .turn
        .messages()
        .iter()
        .filter_map(|message| match (message.role, message.content.as_slice()) {
            (Role::Tool, [ContentBlock::ToolResult(result)]) => {
                Some((result.call_id.as_str(), result.output.as_str()))
            }
            _ => None,
        })
        .collect();
    assert_eq!(outputs, [("call-b", "other contents"), ("call-a", "contents")]);
    assert_eq!(completed(played.outcome, 3).map(|result| result.message), Ok(Message::text(Role::Assistant, "done")));
}

#[test]
fn tool_round_limit_finishes_failed() {
    let played = play(
        vec![Message::text(Role::User, "loop")],
        1,
        vec![asks(vec![read("call", "note.txt")])],
    );
    let error = completed(played.outcome, 1).expect_err("round limit");
    assert!(error.contains("1-round tool limit"));
}

#[test]
fn tranche_reports_round_budget_without_losing_committed_history_or_usage() {
    let response = Response {
        usage: Some(ProviderUsage {
            input_tokens: Some(10),
            output_tokens: Some(2),
            total_tokens: Some(12),
            ..ProviderUsage::unknown()
        }),
        ..asks(vec![read("call", "note.txt")])
    };
    let agent = Agent::new(2, None);
    let played = play(
        vec![Message::text(Role::User, "loop")],
        agent.tranche_rounds(1),
        vec![response],
    );
    let TurnOutcome::RoundBudgetReached { rounds, usage } = played.outcome else {
        panic!("the round budget is reached");
    };
    assert_eq!(rounds, 1);
    assert_eq!(usage, played.turn.usage());
    assert_eq!(usage.requests, 1);
    assert_eq!(usage.total_tokens, Some(12));
    assert_eq!(played.turn.messages().len(), 3, "user, assistant intent, and tool result");
}

#[test]
fn subscriber_drop_does_not_change_returned_message() {
    let response = Response { deltas: vec!["still works"], ..answer("still works") };
    let Played { outcome, deltas, notices, .. } =
        play(vec![Message::text(Role::User, "continue")], 2, vec![response]);
    drop(deltas);
    drop(notices);
    assert_eq!(completed(outcome, 2).map(|result| result.message), Ok(Message::text(Role::Assistant, "still works")));
}

#[test]
fn usage_aggregates_across_tool_rounds_without_filling_missing_fields() {
    let first = Response {
        usage: Some(ProviderUsage {
            input_tokens: Some(10),
            output_tokens: Some(2),
            total_tokens: Some(12),
            ..ProviderUsage::unknown()
        }),
        ..asks(vec![read("call", "note.txt")])
    };
    let second = Response {
        usage: Some(ProviderUsage {
            input_tokens: Some(20),
            output_tokens: None,
            total_tokens: None,
            ..ProviderUsage::unknown()
        }),
        ..answer("complete")
    };
    let played = play(vec![Message::text(Role::User, "read")], 3, vec![first, second]);
    let usage = played.turn.usage();
    assert_eq!(usage.requests, 2);
    assert_eq!(usage.input_tokens, Some(30));
    assert_eq!(usage.output_tokens, None);
    assert_eq!(usage.total_tokens, None);
}

#[test]
fn zero_round_limit_fails_before_history_changes() {
    let history: Vec<Message> = vec![];
    match Turn::start(&history, 0, PLAIN) {
        Err(error) => {
            assert_eq!(error, TurnError::NoRounds);
            assert_eq!(error.render(), NO_ROUNDS);
        }
        Ok(_) => panic!("a tranche without rounds starts"),
    }
    assert!(history.is_empty());
}

#[test]
fn memory_answer_recovery_rejects_empty_truncated_and_timed_out_responses() {
    assert_eq!(RECOVERY_SECONDS, 15);
    assert_eq!(RECOVERY_OUTPUT_TOKENS, 1024);
    for reply in 0..=3 {
        let mut sink = EventDeltaSink::new();
        sink.begin_request(0);
        let response = match reply {
            0 => RecoveryResponse::Answered(Message::text(Role::Assistant, " ")),
            1 => RecoveryResponse::TimedOut,
            2 => RecoveryResponse::ProviderFailed,
            _ => {
                sink.reasoning_delta("synthetic reasoning", 3);
                sink.text_delta("I don't know yet.", 4);
                sink.report(ProviderUsage { total_tokens: Some(42), ..ProviderUsage::unknown() });
                RecoveryResponse::Answered(Message::text(Role::Assistant, "I don't know yet."))
            }
        };
        let first_delta = sink.timing(true, true).first_delta;
        let recovery = recover_memory_answer(response, sink.request_usage(), first_delta);
        assert_eq!(sink.usage().requests, 1);
        if reply == 3 {
            assert_eq!(recovery.receipt.total_tokens, Some(42));
            assert_eq!(sink.usage().total_tokens, Some(42));
            assert!(recovery.timing.first_delta.is_some());
            assert!(recovery.timing.completed);
            assert_eq!(
                recovery.outcome,
                RecoveryOutcome::Answer(Message::text(Role::Assistant, "I don't know yet."))
            );
        } else {
            assert_eq!(sink.usage().total_tokens, None, "unknown usage is not zero");
            assert_eq!(
                recovery.outcome,
                RecoveryOutcome::Notice(Message::text(Role::Assistant, FAILED_NOTICE))
            );
            assert!(FAILED_NOTICE.contains("Xana stopped after two rejected memory requests"));
            assert!(!recovery.receipt.completed);
            let failure = match reply {
                0 => None,
                1 => Some(RecoveryFailure::ReadTimeout),
                _ => Some(RecoveryFailure::Reported),
            };
            assert_eq!(recovery.failure, failure);
        }
    }
}

#[test]
fn answers_hold_nothing_but_spoken_text() {
    assert!(accepts_answer(&Message::text(Role::Assistant, "yes")));
    assert!(!accepts_answer(&Message::text(Role::User, "yes")));
    assert!(!accepts_answer(&Message::text(Role::Assistant, "\n\t ")));
    let mut mixed = Message::text(Role::Assistant, "yes");
    mixed.content.push(ContentBlock::ToolCall(read("1", "note.txt")));
    assert!(!accepts_answer(&mixed));
}

#[test]
fn durable_turn_commits_before_it_acts_and_settles_before_it_believes() {
    let history = vec![Message::text(Role::User, "read")];
    let mut turn = Turn::start(&history, 2, FULL).expect("the turn starts");
    assert_eq!(turn.step(TurnEvent::Prepared(0)).action, TurnAction::Request);
    turn.report(ProviderUsage {
        total_tokens: Some(9),
        cost_microunits: Some(4),
        ..ProviderUsage::unknown()
    });
    let asked = asks(vec![read("a", "note.txt"), read("b", "note.txt")]).message;
    assert_eq!(
        turn.step(TurnEvent::Answered(asked)).action,
        TurnAction::Settle(Receipt {
            total_tokens: Some(9),
            reported_cost_microunits: Some(4),
            completed: true,
        })
    );
    let asked = asks(vec![read("a", "note.txt"), read("b", "note.txt")]).message;
    assert_eq!(turn.step(TurnEvent::Done).action, TurnAction::CommitAssistant(asked));
    assert_eq!(turn.messages().len(), 1);
    assert_eq!(turn.step(TurnEvent::Done).action, TurnAction::StartStep);
    assert_eq!(turn.messages().len(), 2);
    assert_eq!(turn.step(TurnEvent::Done).action, TurnAction::Invoke(read("a", "note.txt")));
    let denied = ToolResult::denied("a".to_string(), "denied");
    assert_eq!(
        turn.step(TurnEvent::ToolReturned(denied.copy())).action,
        TurnAction::CommitResult(denied)
    );
    match turn.step(TurnEvent::Done).action {
        TurnAction::Refuse(result) => assert_eq!(result.call_id, "b"),
        other => panic!("unexpected action: {other:?}"),
    }
    assert!(matches!(turn.step(TurnEvent::Done).action, TurnAction::CommitResult(_)));
    assert_eq!(turn.step(TurnEvent::Done).action, TurnAction::Prepare);
    assert_eq!(turn.messages().len(), 4);
    assert_eq!(turn.step(TurnEvent::Done).action, TurnAction::Ignore);
}

#[test]
fn recorder_keeps_evidence_where_nothing_is_durable() {
    let services = TurnServices { durable: false, budgeted: false, recorder: true };
    let history = vec![Message::text(Role::User, "read")];
    let mut turn = Turn::start(&history, 2, services).expect("the turn starts");
    turn.step(TurnEvent::Prepared(0));
    turn.step(TurnEvent::Answered(asks(vec![read("a", "note.txt")]).message));
    let result = ToolResult::success("a".to_string(), "contents");
    assert_eq!(
        turn.step(TurnEvent::ToolReturned(result.copy())).action,
        TurnAction::Record(result)
    );
    let kept = ToolResult::success("a".to_string(), "kept");
    let step = turn.step(TurnEvent::Recorded(kept.copy()));
    assert_eq!(step.notices, vec![TurnNotice::ToolFinished(kept)]);
    assert_eq!(step.action, TurnAction::Prepare);
}

fn failure_of(services: TurnServices, events: Vec<TurnEvent>) -> (String, usize) {
    let history = vec![Message::text(Role::User, "read")];
    let mut turn = Turn::start(&history, 2, services).expect("the turn starts");
    let mut last = TurnAction::Prepare;
    for event in events {
        last = turn.step(event).action;
    }
    match last {
        TurnAction::Finish(TurnOutcome::Failed(error)) => (error.render(), turn.messages().len()),
        other => panic!("unexpected action: {other:?}"),
    }
}

fn broken() -> TurnEvent {
    TurnEvent::Failed("broken".to_string())
}

fn asked() -> TurnEvent {
    TurnEvent::Answered(asks(vec![read("a", "note.txt")]).message)
}

fn found() -> TurnEvent {
    TurnEvent::ToolReturned(ToolResult::success("a".to_string(), "contents"))
}

#[test]
fn every_failure_ends_the_turn_with_its_own_sentence() {
    assert_eq!(failure_of(FULL, vec![broken()]), ("broken".to_string(), 1));
    assert_eq!(
        failure_of(FULL, vec![TurnEvent::Prepared(0), asked(), broken()]),
        (SETTLEMENT.to_string(), 1)
    );
    assert_eq!(
        failure_of(FULL, vec![TurnEvent::Prepared(0), asked(), TurnEvent::Done, broken()]),
        (ASSISTANT_COMMIT.to_string(), 1)
    );
    assert_eq!(
        failure_of(
            FULL,
            vec![TurnEvent::Prepared(0), asked(), TurnEvent::Done, TurnEvent::Done, broken()]
        ),
        (STEP_COMMIT.to_string(), 2)
    );
    assert_eq!(
        failure_of(PLAIN, vec![TurnEvent::Prepared(0), asked(), broken()]),
        ("broken".to_string(), 2)
    );
    let durable = TurnServices { budgeted: false, ..FULL };
    assert_eq!(
        failure_of(
            durable,
            vec![
                TurnEvent::Prepared(0),
                asked(),
                TurnEvent::Done,
                TurnEvent::Done,
                found(),
                broken(),
            ]
        ),
        (RESULT_COMMIT.to_string(), 2)
    );
    let halted = || TurnEvent::Halted("stop".to_string());
    assert_eq!(
        failure_of(
            FULL,
            vec![TurnEvent::Prepared(0), asked(), TurnEvent::Done, TurnEvent::Done, halted()]
        ),
        ("stop".to_string(), 2)
    );
    assert_eq!(
        failure_of(
            durable,
            vec![
                TurnEvent::Prepared(0),
                asked(),
                TurnEvent::Done,
                TurnEvent::Done,
                found(),
                halted(),
            ]
        ),
        ("stop".to_string(), 2)
    );
    let recorder = TurnServices { recorder: true, ..PLAIN };
    assert_eq!(
        failure_of(recorder, vec![TurnEvent::Prepared(0), asked(), found(), broken()]),
        (EVIDENCE_COMMIT.to_string(), 2)
    );
}

#[test]
fn failing_turn_that_is_resumed_stays_stopped() {
    let mut history = vec![Message::text(Role::User, "read")];
    for id in ["1", "2", "3"] {
        history.push(asks(vec![read(id, "note.txt")]).message);
        history.push(Message::tool_result(ToolResult::error(id.to_string(), "missing")));
    }
    match Turn::start(&history, 4, PLAIN) {
        Err(error) => assert_eq!(error, TurnError::Stopped),
        Ok(_) => panic!("a stopped turn starts again"),
    }
}

#[test]
fn agents_are_built_from_their_settings() {
    let agent = Agent::new(3, None);
    assert_eq!(agent.max_tool_rounds(), 3);
    assert_eq!(agent.tranche_rounds(9), 3);
    assert_eq!(agent.diagnostic_route(), (None, None));
    assert_eq!(agent.enrich_compaction(), Ok(None));
    let helper = HelperPolicy { max_output_tokens: 256 };
    let agent = agent.with_semantic_compaction(Some(helper));
    assert!(agent.semantic_compaction_enabled());
    assert_eq!(agent.enrich_compaction(), Err(NO_ACCOUNTING.to_string()));
    let budget = UsageBudget {
        root: "root".to_string(),
        route: "native/test/model".to_string(),
        output_reserve: 100,
        parent: None,
    };
    let inherited = UsageBudget { parent: Some("parent".to_string()), ..budget.copy() };
    let refused = Agent::new(3, None)
        .with_usage_budget(Some(budget.copy()))
        .with_parent_usage(Err("no such operation".to_string()));
    assert_eq!(refused.err(), Some("no such operation".to_string()));
    assert!(Agent::new(3, None).with_parent_usage(Err("unused".to_string())).is_ok());
    let agent = agent
        .with_usage_budget(Some(budget))
        .with_parent_usage(Ok(inherited))
        .expect("the budget is inherited")
        .with_output_recorder(true);
    assert_eq!(agent.enrich_compaction(), Ok(Some(helper)));
    assert_eq!(agent.completion_usage_budget().unwrap().parent, Some("parent".to_string()));
    assert_eq!(agent.services(false), TurnServices { durable: false, ..FULL });
    let routed = Agent::new(
        1,
        Some(PlannedRoute { connection: "local".to_string(), model: "qwen".to_string() }),
    );
    assert_eq!(routed.diagnostic_route(), (Some("local"), Some("qwen")));
    let fact = routed.record_storage_failure("operation", "journal");
    assert_eq!(fact.kind, TelemetryKind::StorageFailed);
    assert_eq!(fact.subject, "journal");
    assert_eq!(routed.record_context_phase("operation", "plan", 12).elapsed, 12);
}

const KEPT: AnswerServices = AnswerServices { refresh: true, budgeted: true, durable: true };

fn asked_again(services: AnswerServices) -> AnswerPhase {
    let mut sink = EventDeltaSink::new();
    sink.begin_request(1);
    sink.report(ProviderUsage { total_tokens: Some(8), ..ProviderUsage::unknown() });
    let question = vec![Message::text(Role::User, "what is my name?")];
    let (mut phase, mut work) = AnswerPhase::start(services, question, sink);
    loop {
        let event = match work {
            AnswerWork::Refresh => AnswerEvent::Done,
            AnswerWork::Prepare { notice, .. } => {
                assert!(notice.contains("final answer-only phase"));
                AnswerEvent::Prepared { now: 3 }
            }
            AnswerWork::Admit => AnswerEvent::Admitted { now: 5 },
            AnswerWork::Request { seconds: 15, max_output_tokens: 1024 } => return phase,
            other => panic!("unexpected work: {other:?}"),
        };
        work = phase.step(event).work;
    }
}

#[test]
fn answer_phases_end_with_an_answer_or_an_explanation() {
    let mut phase = asked_again(KEPT);
    phase.text_delta("I don't know yet.", 9);
    phase.report(ProviderUsage { total_tokens: Some(42), ..ProviderUsage::unknown() });
    let answer = || Message::text(Role::Assistant, "I don't know yet.");
    let step = phase.step(AnswerEvent::Responded(RecoveryResponse::Answered(answer())));
    assert_eq!(step.failure, None);
    let timing = step.timing.expect("timing");
    assert!(timing.recovery && timing.completed);
    assert_eq!(timing.first_delta, Some(4));
    assert_eq!(
        step.work,
        AnswerWork::Settle(Receipt {
            total_tokens: Some(42),
            reported_cost_microunits: None,
            completed: true,
        })
    );
    let step = phase.step(AnswerEvent::Done);
    let AnswerWork::Finish(AnswerOutcome::Completed(result)) = step.work else {
        panic!("the phase is complete");
    };
    assert_eq!(result.message, answer());
    assert_eq!(result.usage.requests, 2);
    assert_eq!(result.usage.total_tokens, Some(50));
    assert_eq!(phase.messages.len(), 1);

    let mut phase = asked_again(KEPT);
    let step = phase.step(AnswerEvent::Responded(RecoveryResponse::TimedOut));
    assert_eq!(step.failure, Some(RecoveryFailure::ReadTimeout));
    let notice = || Message::text(Role::Assistant, FAILED_NOTICE);
    assert_eq!(phase.step(AnswerEvent::Done).work, AnswerWork::Commit(notice()));
    let step = phase.step(AnswerEvent::Done);
    assert_eq!(step.work, AnswerWork::Finish(AnswerOutcome::Explained));
    assert_eq!(phase.messages.last(), Some(&notice()));

    let plain = AnswerServices { refresh: false, budgeted: false, durable: false };
    let mut phase = asked_again(plain);
    let step = phase.step(AnswerEvent::Responded(RecoveryResponse::ProviderFailed));
    assert_eq!(step.work, AnswerWork::Announce(notice()));
    phase.step(AnswerEvent::Failed("nobody listens".to_string()));
    assert_eq!(phase.messages.last(), Some(&notice()));
}

#[test]
fn answer_phases_fail_without_leaving_a_trace() {
    let mut phase = asked_again(KEPT);
    phase.step(AnswerEvent::Responded(RecoveryResponse::ProviderFailed));
    assert_eq!(
        phase.step(AnswerEvent::Failed("disk".to_string())).work,
        AnswerWork::Finish(AnswerOutcome::Failed {
            context: Some(ANSWER_SETTLEMENT),
            cause: "disk".to_string(),
        })
    );
    let mut phase = asked_again(KEPT);
    phase.step(AnswerEvent::Responded(RecoveryResponse::ProviderFailed));
    phase.step(AnswerEvent::Done);
    assert_eq!(
        phase.step(AnswerEvent::Failed("disk".to_string())).work,
        AnswerWork::Finish(AnswerOutcome::Failed { context: None, cause: "disk".to_string() })
    );
    assert_eq!(phase.messages.len(), 1);
}
