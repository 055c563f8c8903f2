use xana::config::{
    ConnectionRegistry, CredentialReference, McpServerDeclaration, OrchestrationLimits,
    PermissionMode, Profile, PublicWebConsent, WebSettings,
};
use xana::external_agents::{
    admit_ending, admit_trust, check_endpoint, declared_credential, find_agent, write_agents,
    write_removed, write_tasks, AgentTask, AgentView, DeclaredAgent, CANCEL_CONFIRMATION,
    ENDPOINT_CHANGED, NO_AGENTS, REMOVAL_CONFIRMATION,
};
use xana::hosting::{
    admit_bind, AttachArgs, AttachEvent, AttachOutput, AttachRun, AttachWork, ACQUIRED, CLOSED,
    DISCONNECTED, GAP, LOOPBACK_ONLY, NO_CONVERSATION,
};
use xana::images::{
    admit_generation, admit_plan, default_profile, read_prompt, write_result, write_route,
    write_routes, ImageArtifact, ImageResult, PlannedRoute, RouteStatus, DENIED,
    MAX_STDIN_PROMPT_BYTES, NO_IMAGE_ROUTES, PROMPT_LIMIT, PROMPT_UTF8,
};
use xana::mcp::commands::{
    McpCommand, McpEvent, McpRun, McpWork, DISPLAY_LIMIT, NO_REVIEW, SAVES_GRANT,
    STDIO_CONFIRMATION, TOP_LEVEL_ONLY,
};
use xana::memory::{admit_memory, corrected_expiry, spoken_answer, PROTECTED_STORAGE};
use xana::operations::{
    find_operation, list_routes, recovered_operation, write_log_list, write_recovery_plan,
    write_resolved_route, ExecutionOwner, LogEntry, RecoveryAction,
    ResolvedAgentConfig, RestoredOperation, RouteEntry, RuntimeCommand, NO_LOGS, NO_ROUTES,
    ONLY_RESUME,
};
use xana::outbound::{
    admit_revocation, list_decisions, write_revocation, OutboundDataClass, SavedDecision,
    NO_DECISIONS,
};
use xana::surface::{
    admit_if_needed, admit_options, choose_surface, ensure_setup, shows_banner, start_init,
    terminal_facts, without_tui, write_init_outcome, Background, ChatOptions, ColorDepth,
    FoundConfig, InitStart, PlannedConfig, SetupNeed, SurfaceChoice, TerminalEnvironment,
    COMBINED_IF_NEEDED, COMBINED_OPTIONS, NO_CHANGES, TUI_NEEDS_TERMINAL,
};

fn profile(name: &str) -> Profile {
    Profile {
        name: name.to_string(),
        connection: "local".to_string(),
        model: "qwen".to_string(),
        skills: vec![],
        plugins: vec![],
        mcp_servers: vec![],
        mcp_allowlists: vec![],
        external_agents: vec![],
        service_routes: vec!["paint".to_string()],
        egress_policy: None,
        permission_mode: Some(PermissionMode::Deny),
        capabilities: None,
        max_tool_rounds: 8,
        orchestration: OrchestrationLimits {
            max_fan_out: 4,
            max_descendants: 16,
            max_concurrency: 2,
            deadline_seconds: 600,
            max_context_tokens: 32000,
            max_report_bytes: 65536,
            max_artifact_bytes: 1048576,
        },
        archived: false,
    }
}

fn registry() -> ConnectionRegistry {
    ConnectionRegistry {
        default_profile: "default".to_string(),
        permission_mode: PermissionMode::Ask,
        connections: vec![],
        profiles: vec![profile("default")],
        mcp_servers: vec![],
        egress_policies: vec![],
        web: WebSettings {
            connections: vec![],
            default_connection: None,
            public_web: PublicWebConsent::Ask,
        },
    }
}

fn refusal(work: McpWork) -> String {
    match work {
        McpWork::Finish(Some(text)) => text,
        other => panic!("unexpected work: {other:?}"),
    }
}

#[test]
fn servers_are_added_only_after_confirmation() {
    let command = |yes: bool| McpCommand::AddStdio {
        server: "docs".to_string(),
        command: "serve".to_string(),
        arguments: vec!["--local".to_string()],
        cwd: None,
        profile: None,
        tools: vec!["search".to_string()],
        resources: vec![],
        prompts: vec![],
        yes,
    };
    let (_, step) = McpRun::start(command(false), &registry());
    assert_eq!(refusal(step.work), STDIO_CONFIRMATION);
    let (mut run, step) = McpRun::start(command(true), &registry());
    match step.work {
        McpWork::Add(added) => {
            assert_eq!(added.profile, "default");
            assert_eq!(added.selection.tools, ["search"]);
            assert!(matches!(added.declaration, McpServerDeclaration::Stdio { .. }));
        }
        other => panic!("unexpected work: {other:?}"),
    }
    let step = run.step(McpEvent::Added { backup: "config.toml.bak".to_string() });
    assert_eq!(step.work, McpWork::Finish(None));
    assert_eq!(
        step.print,
        "MCP stdio server \"docs\" added and enabled for profile \"default\".\nBackup: config.toml.bak\nNext: xana mcp refresh docs\n"
    );
    let (_, step) = McpRun::start(McpCommand::Serve, &registry());
    assert_eq!(refusal(step.work), TOP_LEVEL_ONLY);
}

#[test]
fn refreshes_are_reviewed_before_they_are_saved() {
    let refresh = || McpCommand::Refresh { server: "docs".to_string() };
    let (mut run, step) = McpRun::start(refresh(), &registry());
    assert_eq!(step.work, McpWork::Review { server: "docs".to_string() });
    let step = run.step(McpEvent::Reviewed { text: Some("review".to_string()) });
    assert_eq!(step.print, format!("review\n{SAVES_GRANT}"));
    assert_eq!(
        step.work,
        McpWork::Refresh { server: "docs".to_string(), save_approval: true }
    );
    let step = run.step(McpEvent::Refreshed);
    assert_eq!(step.print, "MCP server \"docs\" is ready; bounded catalog refreshed.\n");
    let (mut run, _) = McpRun::start(refresh(), &registry());
    assert_eq!(refusal(run.step(McpEvent::Reviewed { text: None }).work), NO_REVIEW);
    assert_eq!(run.step(McpEvent::Refreshed).work, McpWork::Ignore);
}

#[test]
fn primitives_are_listed_without_a_new_grant() {
    let (mut run, step) = McpRun::start(
        McpCommand::Tools { server: "docs".to_string(), query: "read".to_string() },
        &registry(),
    );
    assert_eq!(
        step.work,
        McpWork::Refresh { server: "docs".to_string(), save_approval: false }
    );
    let step = run.step(McpEvent::Refreshed);
    assert_eq!(
        step.work,
        McpWork::Tools { query: "read".to_string(), limit: DISPLAY_LIMIT }
    );
    let step = run.step(McpEvent::Rows(vec![(
        "docs".to_string(),
        "read".to_string(),
        "Reads".to_string(),
    )]));
    assert_eq!(step.print, "docs\tread\tReads\n");
    let (mut run, _) = McpRun::start(
        McpCommand::Prompt {
            server: "docs".to_string(),
            name: "ask".to_string(),
            arguments: vec!["noequals".to_string()],
        },
        &registry(),
    );
    assert_eq!(
        refusal(run.step(McpEvent::Refreshed).work),
        "MCP prompt arguments must use KEY=VALUE"
    );
    let (mut run, _) = McpRun::start(
        McpCommand::Tools { server: "docs".to_string(), query: String::new() },
        &registry(),
    );
    assert_eq!(
        run.step(McpEvent::RefreshFailed { cause: "no answer".to_string() }).work,
        McpWork::Fail {
            text: "could not refresh MCP server \"docs\"".to_string(),
            cause: "no answer".to_string(),
        }
    );
}

fn watcher(control: bool) -> AttachArgs {
    AttachArgs { control, takeover: false, prompt: None, artifact: None }
}

#[test]
fn observers_attach_without_authority() {
    let (mut run, work) = AttachRun::start(watcher(false));
    assert_eq!(work, AttachWork::Connect);
    let step = run.step(AttachEvent::Connected {
        controller: false,
        conversation: Some("c".to_string()),
    });
    assert_eq!((step.output, step.work), (AttachOutput::Snapshot, AttachWork::Watch));
    let step = run.step(AttachEvent::Observed);
    assert_eq!((step.output, step.work), (AttachOutput::Observation, AttachWork::Watch));
    let step = run.step(AttachEvent::Gap { capability: false });
    assert_eq!((step.notice.as_str(), step.work), (GAP, AttachWork::Connect));
    run.step(AttachEvent::Connected { controller: false, conversation: None });
    let step = run.step(AttachEvent::Closed { capability: false });
    assert_eq!((step.notice.as_str(), step.work), (CLOSED, AttachWork::Finish(None)));
}

#[test]
fn controllers_acquire_submit_and_release() {
    let args = AttachArgs { prompt: Some("hello".to_string()), ..watcher(true) };
    let (mut run, _) = AttachRun::start(args);
    let step = run.step(AttachEvent::Connected {
        controller: false,
        conversation: Some("c".to_string()),
    });
    assert_eq!(
        step.work,
        AttachWork::Acquire { conversation: "c".to_string(), takeover: false }
    );
    let step = run.step(AttachEvent::Acquired);
    assert_eq!(step.notice, ACQUIRED);
    assert_eq!(step.work, AttachWork::Submit { input: "hello".to_string() });
    let step = run.step(AttachEvent::Submitted { accepted: true, reason: None });
    assert_eq!(step.work, AttachWork::Watch);
    let step = run.step(AttachEvent::Closed { capability: true });
    assert_eq!((step.notice.as_str(), step.work), (DISCONNECTED, AttachWork::Reconnect));
    let step = run.step(AttachEvent::Connected { controller: true, conversation: None });
    assert_eq!(step.work, AttachWork::Watch);
    assert_eq!(run.step(AttachEvent::Interrupted).work, AttachWork::Release);
    assert_eq!(run.step(AttachEvent::Released).work, AttachWork::Finish(None));
    let (mut run, _) = AttachRun::start(watcher(true));
    assert_eq!(
        run.step(AttachEvent::Connected { controller: false, conversation: None }).work,
        AttachWork::Finish(Some(NO_CONVERSATION.to_string()))
    );
    let (mut run, _) = AttachRun::start(AttachArgs {
        artifact: Some("a".to_string()),
        ..watcher(false)
    });
    run.step(AttachEvent::Connected { controller: false, conversation: None });
    assert_eq!(
        run.step(AttachEvent::Fetched { accepted: false, reason: None }).work,
        AttachWork::Finish(Some(
            "artifact retrieval was rejected: no reason provided".to_string()
        ))
    );
    assert_eq!(admit_bind(true), Ok(()));
    assert_eq!(admit_bind(false), Err(LOOPBACK_ONLY.to_string()));
}

fn environment() -> TerminalEnvironment {
    TerminalEnvironment {
        no_color: false,
        term: Some("xterm-256color".to_string()),
        colorterm: None,
        colorfgbg: Some("15;default;0".to_string()),
        columns: Some("132".to_string()),
        lc_all: None,
        lang: Some("en_US.UTF-8".to_string()),
        reduced_motion: None,
        windows: false,
    }
}

#[test]
fn terminals_are_read_off_their_environment() {
    let facts = terminal_facts(&environment(), true, true);
    assert_eq!(facts.color_depth, ColorDepth::Ansi256);
    assert_eq!(facts.background, Some(Background::Dark));
    assert!(facts.unicode && !facts.reduced_motion && !facts.dumb);
    assert_eq!(facts.width, 132);
    let wide = TerminalEnvironment {
        term: Some("DUMB".to_string()),
        colorterm: Some("TrueColor".to_string()),
        colorfgbg: Some("0;15".to_string()),
        columns: Some("501".to_string()),
        lc_all: Some("C".to_string()),
        reduced_motion: Some("1".to_string()),
        ..environment()
    };
    let facts = terminal_facts(&wide, true, true);
    assert_eq!(facts.color_depth, ColorDepth::Absent);
    assert_eq!(facts.background, Some(Background::Light));
    assert!(!facts.unicode && facts.reduced_motion && facts.dumb);
    assert_eq!(facts.width, 80);
    assert!(!shows_banner(true, facts));
    let truecolor = TerminalEnvironment {
        colorterm: Some("TrueColor".to_string()),
        reduced_motion: Some("false".to_string()),
        ..environment()
    };
    let facts = terminal_facts(&truecolor, true, true);
    assert_eq!(facts.color_depth, ColorDepth::TrueColor);
    assert!(!facts.reduced_motion);
    assert_eq!(terminal_facts(&truecolor, true, false).color_depth, ColorDepth::Absent);
}

#[test]
fn surfaces_are_chosen_by_terminal_and_demand() {
    assert_eq!(choose_surface(true, false, true, true), Ok(SurfaceChoice::Plain));
    assert_eq!(
        choose_surface(false, false, true, true),
        Ok(SurfaceChoice::TryTui { required: false })
    );
    assert_eq!(choose_surface(false, false, true, false), Ok(SurfaceChoice::Plain));
    assert_eq!(
        choose_surface(false, true, false, true),
        Err(TUI_NEEDS_TERMINAL.to_string())
    );
    assert!(without_tui(false, "no terminal").unwrap().contains("no terminal"));
    assert!(without_tui(true, "no terminal").is_err());
    let options = ChatOptions {
        resume: false,
        continue_chat: false,
        plain: true,
        tui: false,
        print: false,
    };
    assert_eq!(admit_options(options, false), Ok(()));
    assert_eq!(admit_options(options, true), Err(COMBINED_OPTIONS.to_string()));
    assert_eq!(admit_if_needed(true, true), Err(COMBINED_IF_NEEDED.to_string()));
    assert_eq!(admit_if_needed(true, false), Ok(true));
}

#[test]
fn setup_is_guided_in_a_terminal_and_refused_elsewhere() {
    assert_eq!(ensure_setup(None, false, "config.toml"), SetupNeed::Ready);
    match ensure_setup(Some("missing"), true, "config.toml") {
        SetupNeed::Guide { notice } => {
            assert!(notice.starts_with("xana: configuration is absent or invalid: missing\n"))
        }
        other => panic!("unexpected need: {other:?}"),
    }
    match ensure_setup(Some("missing"), false, "config.toml") {
        SetupNeed::Refuse { reason } => assert!(reason
            .starts_with("Xana configuration is absent or invalid at config.toml: missing\n")),
        other => panic!("unexpected need: {other:?}"),
    }
    let mut output = String::new();
    assert_eq!(start_init(FoundConfig::Missing, "config.toml", &mut output), InitStart::Plan);
    assert_eq!(start_init(FoundConfig::Valid, "config.toml", &mut output), InitStart::Done);
    assert!(matches!(
        start_init(FoundConfig::Invalid, "config.toml", &mut output),
        InitStart::Refuse { .. }
    ));
    let planned = PlannedConfig {
        connection: "local".to_string(),
        codex: false,
        model: "qwen".to_string(),
    };
    let mut output = String::new();
    write_init_outcome(false, "config.toml", false, &planned, &mut output);
    assert_eq!(output, "Xana is already initialized.\n  Config: config.toml\n");
    let mut output = String::new();
    write_init_outcome(true, "config.toml", true, &planned, &mut output);
    assert_eq!(output, "configuration created: config.toml\n");
    assert_eq!(NO_CHANGES, "No changes made.\n");
}

#[test]
fn memory_is_kept_in_protected_storage() {
    assert_eq!(admit_memory(true), Ok(()));
    assert_eq!(admit_memory(false), Err(PROTECTED_STORAGE.to_string()));
    assert_eq!(corrected_expiry(true, Some(9), Some(5)), None);
    assert_eq!(corrected_expiry(false, Some(9), Some(5)), Some(9));
    assert_eq!(corrected_expiry(false, None, Some(5)), Some(5));
    assert_eq!(spoken_answer(Some(Ok("kept".to_string()))), Ok("kept".to_string()));
    assert_eq!(spoken_answer(Some(Err("broken".to_string()))), Err("broken".to_string()));
    assert!(spoken_answer(None).is_err());
}

#[test]
fn images_are_planned_before_they_are_generated() {
    let held = default_profile(&registry()).unwrap();
    assert_eq!(held.routes, ["paint"]);
    assert_eq!(held.permission, PermissionMode::Deny);
    assert_eq!(admit_generation(PermissionMode::Deny), Err(DENIED.to_string()));
    assert_eq!(admit_generation(PermissionMode::Ask), Ok(()));
    assert_eq!(read_prompt(&b"a boat".to_vec()), Ok("a boat".to_string()));
    assert_eq!(read_prompt(&vec![0xff]), Err(PROMPT_UTF8.to_string()));
    assert_eq!(
        read_prompt(&vec![b'a'; MAX_STDIN_PROMPT_BYTES + 1]),
        Err(PROMPT_LIMIT.to_string())
    );
    let route = PlannedRoute {
        name: "paint".to_string(),
        connection: "studio".to_string(),
        model: "brush".to_string(),
    };
    assert!(admit_plan(&route, true).is_ok());
    assert!(admit_plan(&route, false).is_err());
    let mut output = String::new();
    write_routes(&vec![], &mut output);
    assert_eq!(output, NO_IMAGE_ROUTES);
    let mut output = String::new();
    write_route(
        &RouteStatus { route: "paint".to_string(), ready: false, reason: None },
        &mut output,
    );
    assert!(output.contains("paint"));
    let mut output = String::new();
    write_result(
        &ImageResult {
            route: "paint".to_string(),
            model: "brush".to_string(),
            artifacts: vec![ImageArtifact {
                id: "a".to_string(),
                media_type: "image/png".to_string(),
                bytes: 12,
                content_hash: "hash".to_string(),
            }],
            cost_microusd: Some(7),
        },
        &mut output,
    );
    assert!(output.contains("image/png") && output.contains("12") && output.contains("7"));
}

fn restored(id: &str) -> RestoredOperation {
    RestoredOperation {
        operation_id: id.to_string(),
        thread_id: "thread".to_string(),
        input_entry_id: "entry".to_string(),
        step_order: vec![],
    }
}

#[test]
fn only_the_named_operation_is_recovered() {
    let operations = vec![restored("a"), restored("b")];
    assert_eq!(find_operation(&operations, "b", "s"), Ok(1));
    assert!(find_operation(&operations, "c", "s").unwrap_err().contains("c"));
    assert_eq!(
        recovered_operation(RuntimeCommand::ResumeOperation {
            session: "s".to_string(),
            operation: "o".to_string(),
        }),
        Ok(("s".to_string(), "o".to_string()))
    );
    for command in [
        RuntimeCommand::SubmitTurn,
        RuntimeCommand::SubmitTurnWithImages,
        RuntimeCommand::InterruptOperation,
        RuntimeCommand::SteerOperation,
        RuntimeCommand::ClearConversation,
        RuntimeCommand::DecidePermission,
        RuntimeCommand::DecideChildPermission,
        RuntimeCommand::ListChildren,
        RuntimeCommand::InspectChild,
        RuntimeCommand::CancelChild,
        RuntimeCommand::Shutdown,
    ] {
        assert_eq!(recovered_operation(command), Err(ONLY_RESUME.to_string()));
    }
    let mut output = String::new();
    write_recovery_plan(
        &mut output,
        "s",
        &restored("a"),
        &vec![
            RecoveryAction::ReplayExactInvocation { invocation_id: "i".to_string() },
            RecoveryAction::RecordInterruption {
                invocation_id: "j".to_string(),
                result_id: "r".to_string(),
                reason: "OutcomeUnknown".to_string(),
            },
            RecoveryAction::FinishOperation,
        ],
    );
    assert!(output
        .contains("record interruption: invocation j, result r, reason OutcomeUnknown\n"));
    assert!(output.contains("i") && output.lines().count() >= 3);
}

fn resolved() -> ResolvedAgentConfig {
    ResolvedAgentConfig {
        route: "review".to_string(),
        profile: "default".to_string(),
        owner: ExecutionOwner::Xana,
        owner_name: "xana".to_string(),
        connection: "local".to_string(),
        provider_kind: "ollama".to_string(),
        model: "qwen".to_string(),
        reasoning_effort: None,
        reasoning_summary: None,
        capabilities: vec!["read".to_string()],
        permission_mode: "ask".to_string(),
        max_tool_rounds: 8,
        orchestration: OrchestrationLimits {
            max_fan_out: 1,
            max_descendants: 2,
            max_concurrency: 3,
            deadline_seconds: 4,
            max_context_tokens: 5,
            max_report_bytes: 6,
            max_artifact_bytes: 7,
        },
    }
}

#[test]
fn routes_and_logs_are_listed() {
    let mut output = String::new();
    list_routes(&vec![], &None, &mut output);
    assert_eq!(output, NO_ROUTES);
    let mut output = String::new();
    list_routes(
        &vec![
            RouteEntry { route: "broken".to_string(), resolved: Err("missing".to_string()) },
            RouteEntry { route: "review".to_string(), resolved: Ok(resolved()) },
        ],
        &Some("review".to_string()),
        &mut output,
    );
    assert!(output.starts_with("  broken\tunavailable\tmissing\n* review\t"));
    let mut output = String::new();
    write_resolved_route(&mut output, &resolved());
    assert!(output.contains("qwen"));
    let mut output = String::new();
    write_log_list(&vec![], &mut output);
    assert_eq!(output, NO_LOGS);
    let mut output = String::new();
    write_log_list(
        &vec![LogEntry { kind: "log".to_string(), name: "today".to_string(), bytes: 5 }],
        &mut output,
    );
    assert!(output.contains("today") && output.contains("5"));
}

#[test]
fn agents_are_trusted_by_name_and_endpoint() {
    assert_eq!(
        declared_credential(Some("KEY".to_string()), None),
        Some(CredentialReference::Environment { variable: "KEY".to_string() })
    );
    assert_eq!(
        declared_credential(None, Some("id".to_string())),
        Some(CredentialReference::Stored { id: "id".to_string() })
    );
    assert_eq!(declared_credential(None, None), None);
    let agents = vec![DeclaredAgent {
        name: "research".to_string(),
        endpoint: "https://agent.example".to_string(),
    }];
    assert_eq!(find_agent(&agents, "research"), Ok(0));
    assert!(find_agent(&agents, "other").is_err());
    assert_eq!(admit_trust("research", true), Ok(()));
    assert!(admit_trust("research", false).is_err());
    assert_eq!(check_endpoint(Some("https://a"), "https://a"), Ok(()));
    assert_eq!(
        check_endpoint(Some("https://a"), "https://b"),
        Err(ENDPOINT_CHANGED.to_string())
    );
    assert_eq!(admit_ending(true, false), Err(REMOVAL_CONFIRMATION.to_string()));
    assert_eq!(admit_ending(false, false), Err(CANCEL_CONFIRMATION.to_string()));
    assert_eq!(admit_ending(false, true), Ok(()));
    let mut output = String::new();
    write_agents(&vec![], &mut output);
    assert_eq!(output, NO_AGENTS);
    write_agents(
        &vec![AgentView {
            name: "research".to_string(),
            readiness: "ready".to_string(),
            endpoint: "https://agent.example".to_string(),
        }],
        &mut output,
    );
    write_tasks(
        "research",
        &vec![AgentTask {
            task_id: "t".to_string(),
            state: "working".to_string(),
            remote_cancel: "none".to_string(),
            updated_unix_ms: 3,
        }],
        &mut output,
    );
    write_removed("research", &mut output);
    assert!(output.contains("https://agent.example") && output.contains("working"));
}

#[test]
fn outbound_decisions_are_listed_and_revoked() {
    let mut output = String::new();
    list_decisions(&vec![], &mut output);
    assert_eq!(output, NO_DECISIONS);
    let mut output = String::new();
    list_decisions(
        &vec![SavedDecision {
            allow: true,
            class: OutboundDataClass::PromptText,
            updated_unix_ms: 17,
            recipient_identity_digest: "digest".to_string(),
        }],
        &mut output,
    );
    assert!(output.contains("prompt_text") && output.contains("digest"));
    assert_eq!(admit_revocation(true), Ok(()));
    assert!(admit_revocation(false).is_err());
    let mut output = String::new();
    write_revocation(OutboundDataClass::PromptText, "digest", true, &mut output);
    assert_eq!(output, "Revoked prompt_text for recipient identity digest.\n");
}
