use xana::chat::composition::{
    compose, Composition, CompositionEvent, CompositionSettings, CompositionWork, Part,
    OTHER_OWNER,
};
use xana::chat::control::{
    admit_control, bounded_words, control_arguments, CommandFamily, CONTROL_BYTES, CONTROL_QUOTE,
    CONTROL_WORDS, MAX_CONTROL_BYTES, MAX_CONTROL_WORDS, NOT_AVAILABLE,
};
use xana::chat::exits::{
    after_exit_work, continue_after_chat_exit, restart_surface, without_restart, AfterExit,
    ChatExit, ExitEvent, ExitPlan, ExitWork, RestartSurface,
};
use xana::chat::launch::{
    automatic_conversation, developer_instructions, launch_opening, ChatIntent, ConfigSource,
    ConversationRef, ConversationRow, ConversationState, FrozenProfile, Launch, LaunchError,
    LaunchEvent, LaunchOpening, LaunchWork, ProviderKind, Retained, RetainedSession, Selection,
    SurfaceKind, WorkspaceSnapshot, CANNOT_RECONSTRUCT, CONNECTION_UNAVAILABLE, MANAGED_CHECKS,
    NOTHING_TO_CONTINUE, NO_SAVED_PROFILE, OTHER_WORKSPACE, PRIVATE_STATE, PROFILE_NOT_RECORDED,
    SETTINGS_MOVED, UNSAFE_ATTACH,
};
use xana::chat::native::{
    confirm_inputs, context_report, prepare_refresh, revise_root, RefreshDecision, RootRevision,
    CHILDREN_AT_WORK,
};
use xana::config::{OrchestrationLimits, PermissionMode, Profile};

fn native(session: &str) -> ConversationRef {
    ConversationRef::Native { session: session.to_string() }
}

fn managed(connection: &str, thread: &str) -> ConversationRef {
    ConversationRef::Managed {
        conversation: format!("conversation-{thread}"),
        connection: connection.to_string(),
        thread: thread.to_string(),
    }
}

fn row(conversation: ConversationRef, selected: bool) -> ConversationRow {
    ConversationRow { conversation, selected, state: ConversationState::Inactive }
}

fn workspace(conversations: Vec<ConversationRow>) -> WorkspaceSnapshot {
    WorkspaceSnapshot { active: None, conversations }
}

#[test]
fn automatic_native_selection_preserves_latest_identity_and_busy_gate() {
    assert_eq!(
        automatic_conversation(&workspace(vec![]), "local", ProviderKind::Ollama, true),
        Err(LaunchError::Refused(NOTHING_TO_CONTINUE.to_string()))
    );
    let mut snapshot = workspace(vec![row(native("session"), false)]);
    assert_eq!(
        automatic_conversation(&snapshot, "local", ProviderKind::Ollama, false),
        Ok(Some(native("session")))
    );
    snapshot.active = Some("session".to_string());
    assert_eq!(
        automatic_conversation(&snapshot, "local", ProviderKind::Ollama, true),
        Err(LaunchError::Busy(Some("session".to_string())))
    );
    assert_eq!(
        automatic_conversation(&snapshot, "local", ProviderKind::Ollama, false),
        Ok(None)
    );
}

#[test]
fn automatic_managed_selection_uses_only_current_handle_on_exact_connection() {
    let snapshot = workspace(vec![
        row(managed("other", "1"), true),
        row(managed("codex", "2"), false),
        row(managed("codex", "3"), true),
    ]);
    assert_eq!(
        automatic_conversation(&snapshot, "codex", ProviderKind::Codex, true),
        Ok(Some(managed("codex", "3")))
    );
    assert_eq!(
        automatic_conversation(&snapshot, "absent", ProviderKind::Codex, false),
        Ok(None)
    );
}

fn intent() -> ChatIntent {
    ChatIntent {
        resume: None,
        target: None,
        continue_chat: false,
        force_new: false,
        one_shot: false,
        conditions: false,
    }
}

fn selection(connection: &str) -> Selection {
    Selection {
        connection: connection.to_string(),
        model: "selected".to_string(),
        reasoning_effort: None,
        reasoning_summary: None,
    }
}

fn frozen(connection: &str) -> FrozenProfile {
    FrozenProfile {
        name: "default".to_string(),
        connection: connection.to_string(),
        model: "frozen".to_string(),
        reasoning_effort: Some("high".to_string()),
        reasoning_summary: None,
        summary_valid: true,
    }
}

fn at_workspace(intent: ChatIntent) -> Launch {
    let (mut launch, work) = Launch::start(intent, "config.toml".to_string());
    assert_eq!(work, LaunchWork::LoadConfig);
    assert_eq!(launch.step(LaunchEvent::Loaded), LaunchWork::PrepareRecords);
    assert_eq!(launch.step(LaunchEvent::RecordsReady), LaunchWork::ReadWorkspace);
    launch
}

fn read(connection: &str, kind: ProviderKind, snapshot: WorkspaceSnapshot) -> LaunchEvent {
    LaunchEvent::Workspace { selected: selection(connection), kind: Ok(kind), snapshot }
}

fn connection(kind: ProviderKind) -> LaunchEvent {
    LaunchEvent::Connection { kind, fresh: "fresh".to_string(), shown: "shown".to_string() }
}

fn refused(text: &str) -> LaunchWork {
    LaunchWork::Fail(LaunchError::Refused(text.to_string()))
}

#[test]
fn new_native_conversation_is_opened_and_composed() {
    let mut launch = at_workspace(ChatIntent { force_new: true, ..intent() });
    let work = launch.step(read("local", ProviderKind::Ollama, workspace(vec![])));
    assert!(matches!(work, LaunchWork::Retrieve { session: None, .. }));
    assert_eq!(
        launch.step(LaunchEvent::Retained(Retained { saved_profile: false, session: None })),
        LaunchWork::Configure { source: ConfigSource::Resolve }
    );
    assert_eq!(
        launch.step(LaunchEvent::Configured(frozen("local"))),
        LaunchWork::FindConnection { connection: "local".to_string() }
    );
    assert_eq!(
        launch.step(connection(ProviderKind::Ollama)),
        LaunchWork::OpenNative { create: true }
    );
    assert_eq!(
        launch.step(LaunchEvent::NativeOpened { session: "made".to_string() }),
        LaunchWork::Compose
    );
    match launch.step(LaunchEvent::Composed { inputs_match: true, reconstructs: false }) {
        LaunchWork::Run(run) => {
            assert_eq!(run.opening.conversation, native("made"));
            assert_eq!(run.opening.selection.model, "frozen");
            assert!(run.opening.freeze && run.configure && !run.managed);
            assert_eq!(run.resume_refusal(), None);
        }
        other => panic!("unexpected work: {other:?}"),
    }
    assert_eq!(launch.step(LaunchEvent::Loaded), LaunchWork::Ignore);
}

#[test]
fn new_conversations_without_a_profile_are_discarded() {
    let unrecorded = || {
        let mut launch = at_workspace(ChatIntent { force_new: true, ..intent() });
        launch.step(read("local", ProviderKind::Ollama, workspace(vec![])));
        launch.step(LaunchEvent::Retained(Retained { saved_profile: false, session: None }));
        launch.step(LaunchEvent::Configured(frozen("local")));
        launch.step(connection(ProviderKind::Ollama));
        assert_eq!(launch.step(LaunchEvent::FreezeFailed), LaunchWork::Discard);
        launch
    };
    assert_eq!(unrecorded().step(LaunchEvent::Discarded), refused(PROFILE_NOT_RECORDED));
    assert_eq!(unrecorded().step(LaunchEvent::Failed("disk".to_string())), refused("disk"));
    assert_eq!(unrecorded().step(LaunchEvent::Loaded), LaunchWork::Ignore);
}

#[test]
fn unfinished_work_keeps_its_settings() {
    let retained = Retained {
        saved_profile: true,
        session: Some(RetainedSession {
            unfinished: true,
            configured: true,
            same_workspace: true,
        }),
    };
    for (reconstructs, refusal) in [(true, None), (false, Some(CANNOT_RECONSTRUCT))] {
        let mut launch = at_workspace(intent());
        launch.step(read(
            "local",
            ProviderKind::Ollama,
            workspace(vec![row(native("s"), false)]),
        ));
        assert_eq!(
            launch.step(LaunchEvent::Retained(retained)),
            LaunchWork::Configure { source: ConfigSource::Session }
        );
        launch.step(LaunchEvent::Configured(frozen("local")));
        assert_eq!(
            launch.step(connection(ProviderKind::Ollama)),
            LaunchWork::OpenNative { create: false }
        );
        launch.step(LaunchEvent::NativeOpened { session: "s".to_string() });
        match launch.step(LaunchEvent::Composed { inputs_match: false, reconstructs }) {
            LaunchWork::Run(run) => {
                assert!(!run.configure);
                assert_eq!(run.resume_refusal(), refusal);
            }
            other => panic!("unexpected work: {other:?}"),
        }
    }
    let mut launch = at_workspace(intent());
    launch.step(read(
        "local",
        ProviderKind::Ollama,
        workspace(vec![row(native("s"), false)]),
    ));
    let unsaved = Retained {
        saved_profile: false,
        session: Some(RetainedSession {
            unfinished: true,
            configured: false,
            same_workspace: true,
        }),
    };
    assert_eq!(launch.step(LaunchEvent::Retained(unsaved)), refused(NO_SAVED_PROFILE));
}

#[test]
fn managed_conversation_is_attached_with_the_selected_model() {
    let mut launch = at_workspace(intent());
    launch.step(read(
        "codex",
        ProviderKind::Codex,
        workspace(vec![row(managed("codex", "1"), true)]),
    ));
    launch.step(LaunchEvent::Retained(Retained { saved_profile: true, session: None }));
    launch.step(LaunchEvent::Configured(frozen("codex")));
    assert_eq!(launch.step(connection(ProviderKind::Codex)), LaunchWork::PrepareManaged);
    match launch.step(LaunchEvent::ManagedReady) {
        LaunchWork::Run(run) => {
            assert!(run.managed && !run.opening.freeze);
            assert_eq!(run.opening.conversation, managed("codex", "1"));
            assert_eq!(run.opening.selection.model, "selected");
        }
        other => panic!("unexpected work: {other:?}"),
    }
    let mut launch = at_workspace(ChatIntent {
        target: Some(managed("codex", "1")),
        ..intent()
    });
    launch.step(read(
        "codex",
        ProviderKind::Codex,
        workspace(vec![row(managed("codex", "1"), true)]),
    ));
    launch.step(LaunchEvent::Retained(Retained { saved_profile: false, session: None }));
    assert_eq!(launch.step(LaunchEvent::Configured(frozen("codex"))), refused(UNSAFE_ATTACH));
    let mut launch = at_workspace(ChatIntent {
        force_new: true,
        one_shot: true,
        conditions: true,
        ..intent()
    });
    launch.step(read("codex", ProviderKind::Codex, workspace(vec![])));
    launch.step(LaunchEvent::Retained(Retained { saved_profile: false, session: None }));
    launch.step(LaunchEvent::Configured(frozen("codex")));
    launch.step(connection(ProviderKind::Codex));
    assert_eq!(launch.step(LaunchEvent::ManagedReady), refused(MANAGED_CHECKS));
}

#[test]
fn launch_names_what_stands_in_its_way() {
    let start = || Launch::start(intent(), "config.toml".to_string()).0;
    assert_eq!(
        start().step(LaunchEvent::NoConfig),
        refused("Xana is not initialized at config.toml\nrun `xana setup` to create it")
    );
    assert_eq!(
        start().step(LaunchEvent::BadConfig),
        refused("failed to load config from config.toml")
    );
    let mut launch = start();
    launch.step(LaunchEvent::Loaded);
    assert_eq!(launch.step(LaunchEvent::RecordsFailed), refused(PRIVATE_STATE));
    let target = |session: RetainedSession| {
        let mut launch = at_workspace(ChatIntent { target: Some(native("s")), ..intent() });
        launch.step(read(
            "local",
            ProviderKind::Ollama,
            workspace(vec![row(native("s"), false)]),
        ));
        launch.step(LaunchEvent::Retained(Retained {
            saved_profile: true,
            session: Some(session),
        }));
        launch.step(LaunchEvent::Configured(frozen("local")));
        launch
    };
    let settled = RetainedSession { unfinished: false, configured: true, same_workspace: true };
    assert_eq!(
        target(settled).step(LaunchEvent::NoConnection),
        refused(CONNECTION_UNAVAILABLE)
    );
    assert_eq!(
        target(RetainedSession { same_workspace: false, ..settled })
            .step(connection(ProviderKind::Ollama)),
        refused(OTHER_WORKSPACE)
    );
    assert_eq!(
        target(settled).step(connection(ProviderKind::Codex)),
        refused("Conversation shown requires its original execution owner; select a compatible model to continue here. History was not changed")
    );
    let mut launch = target(settled);
    launch.step(connection(ProviderKind::Ollama));
    assert_eq!(launch.step(LaunchEvent::FreezeFailed), refused(PROFILE_NOT_RECORDED));
    let mut launch = target(settled);
    launch.step(connection(ProviderKind::Ollama));
    launch.step(LaunchEvent::NativeOpened { session: "s".to_string() });
    assert_eq!(
        launch.step(LaunchEvent::Composed { inputs_match: false, reconstructs: true }),
        refused(SETTINGS_MOVED)
    );
}

#[test]
fn launches_open_as_their_surface_asks() {
    assert_eq!(launch_opening(SurfaceKind::Plain, false), LaunchOpening::Banner);
    assert_eq!(launch_opening(SurfaceKind::Desktop, true), LaunchOpening::Silent);
    let text = developer_instructions("You are Xana.", &vec!["Review".to_string()]);
    assert!(text.starts_with("You are Xana."));
    assert!(text.contains("Review"));
}

fn command(family: &str, arguments: &str) -> ChatExit {
    ChatExit::ControlCommand { family: family.to_string(), arguments: arguments.to_string() }
}

#[test]
fn exits_lead_where_they_say() {
    let plan = |exit: ChatExit| continue_after_chat_exit(exit, native("here"), true);
    assert_eq!(plan(ChatExit::Quit), ExitPlan::Quit);
    assert_eq!(plan(command("storage", " lock ")), ExitPlan::Lock);
    match plan(command("conversation", "new")) {
        ExitPlan::Go { plan, work } => {
            assert!(plan.force_new && plan.target.is_none());
            assert_eq!(work, ExitWork::Nothing);
        }
        other => panic!("unexpected plan: {other:?}"),
    }
    match plan(command("session", "continue")) {
        ExitPlan::Go { plan, .. } => assert!(plan.continue_chat),
        other => panic!("unexpected plan: {other:?}"),
    }
    match plan(command("sessions", "  attach  there ")) {
        ExitPlan::Go { plan, work } => {
            assert_eq!(plan.target, Some(native("here")));
            assert_eq!(work, ExitWork::ResolveAttach { selector: "there".to_string() });
            let tolerated = work.tolerated();
            match after_exit_work(plan, tolerated, ExitEvent::Attached(native("there"))) {
                AfterExit::Go { plan, notice } => {
                    assert_eq!(plan.target, Some(native("there")));
                    assert_eq!(notice, "");
                }
                other => panic!("unexpected outcome: {other:?}"),
            }
        }
        other => panic!("unexpected plan: {other:?}"),
    }
    match plan(command("logs", "list")) {
        ExitPlan::Go { plan, work } => {
            assert!(matches!(work, ExitWork::Control { .. }));
            let tolerated = work.tolerated();
            match after_exit_work(plan, tolerated, ExitEvent::Failed("broken".to_string())) {
                AfterExit::Go { plan, notice } => {
                    assert_eq!(plan.target, Some(native("here")));
                    assert_eq!(notice, "xana: broken\n");
                }
                other => panic!("unexpected outcome: {other:?}"),
            }
        }
        other => panic!("unexpected plan: {other:?}"),
    }
    match plan(ChatExit::Reset) {
        ExitPlan::Go { plan, work } => {
            assert_eq!(work, ExitWork::Reset);
            assert_eq!(
                after_exit_work(plan, work.tolerated(), ExitEvent::Reset { configured: false }),
                AfterExit::Quit
            );
        }
        other => panic!("unexpected plan: {other:?}"),
    }
    match plan(ChatExit::Doctor(None)) {
        ExitPlan::Go { plan, work } => assert_eq!(
            after_exit_work(plan, work.tolerated(), ExitEvent::Failed("broken".to_string())),
            AfterExit::Fail("broken".to_string())
        ),
        other => panic!("unexpected plan: {other:?}"),
    }
    match plan(ChatExit::Settings(String::new())) {
        ExitPlan::Go { work, .. } => assert_eq!(work, ExitWork::Settings { request: None }),
        other => panic!("unexpected plan: {other:?}"),
    }
    match plan(ChatExit::DesktopSwitchConversation {
        workspace: "w".to_string(),
        conversation: native("there"),
    }) {
        ExitPlan::Go { plan, .. } => {
            assert_eq!(plan.workspace.as_deref(), Some("w"));
            assert_eq!(plan.target, Some(native("there")));
        }
        other => panic!("unexpected plan: {other:?}"),
    }
    assert_eq!(restart_surface(true, true), RestartSurface::Desktop);
    assert_eq!(restart_surface(false, true), RestartSurface::Tui);
    assert_eq!(restart_surface(false, false), RestartSurface::Plain);
    assert!(without_restart(false, "no terminal").unwrap().contains("no terminal"));
    assert!(without_restart(true, "no terminal").is_err());
}

#[test]
fn control_commands_are_split_as_a_shell_splits_them() {
    assert_eq!(
        control_arguments("memory", "remember 'two words' \"three more words\" back\\ slash"),
        Ok(vec![
            "xana".to_string(),
            "memory".to_string(),
            "remember".to_string(),
            "two words".to_string(),
            "three more words".to_string(),
            "back slash".to_string(),
        ])
    );
    assert_eq!(
        control_arguments("memory", "'unterminated"),
        Err(CONTROL_QUOTE.to_string())
    );
    assert_eq!(
        control_arguments("memory", &"x".repeat(MAX_CONTROL_BYTES + 1)),
        Err(CONTROL_BYTES.to_string())
    );
    assert_eq!(
        control_arguments("memory", &"x ".repeat(MAX_CONTROL_WORDS + 1)),
        Err(CONTROL_WORDS.to_string())
    );
    assert_eq!(bounded_words("memory", None), Err(CONTROL_QUOTE.to_string()));
}

#[test]
fn management_commands_do_not_start_conversations() {
    assert_eq!(admit_control(CommandFamily::Memory), Ok(()));
    assert_eq!(
        admit_control(CommandFamily::Session { starts_conversation: false }),
        Ok(())
    );
    for family in [
        CommandFamily::Session { starts_conversation: true },
        CommandFamily::Serve,
        CommandFamily::Attach,
        CommandFamily::Absent,
    ] {
        assert_eq!(admit_control(family), Err(NOT_AVAILABLE.to_string()));
    }
}

fn composing(readiness: &[&str], unfinished: bool, browser: bool) -> Composition {
    let settings = CompositionSettings {
        readiness: readiness.iter().map(|text| text.to_string()).collect(),
        profile: "default".to_string(),
        connection: "local".to_string(),
        model: "qwen".to_string(),
        reasoning_effort: Some("high".to_string()),
        inputs_digest: "digest".to_string(),
    };
    let (run, work) = compose(settings, unfinished, browser);
    assert_eq!(work, CompositionWork::Make(Part::Config));
    run
}

/// All that is there, or nothing of it.
fn made(run: &mut Composition, all: bool, digest: &str) -> Vec<Part> {
    let mut parts = vec![Part::Config];
    loop {
        let tools = if all { vec!["web_fetch".to_string()] } else { vec![] };
        let event = match parts[parts.len() - 1] {
            Part::Registry => CompositionEvent::Registry { routes: all },
            Part::Connection => CompositionEvent::Connection { kind: ProviderKind::Ollama },
            Part::Artifacts => CompositionEvent::Artifacts { protected: all },
            Part::Capabilities => CompositionEvent::Capabilities { tools },
            Part::Inputs => CompositionEvent::Inputs { digest: digest.to_string() },
            _ => CompositionEvent::Done,
        };
        match run.step(event) {
            CompositionWork::Make(part) => parts.push(part),
            CompositionWork::Ready => return parts,
            other => panic!("unexpected work: {other:?}"),
        }
    }
}

#[test]
fn executions_are_composed_in_order() {
    let parts = made(&mut composing(&[], false, true), true, "");
    assert_eq!(
        parts[14..],
        [
            Part::Tools,
            Part::Web,
            Part::Mcp,
            Part::Recall,
            Part::Browser,
            Part::Delegation,
            Part::Images,
            Part::VisionGate,
            Part::VisionAudit,
            Part::ChildRoot,
            Part::ChildModels,
            Part::ChildBudget,
            Part::ChildReservations,
            Part::ChildTools,
            Part::Memory,
            Part::MemoryTools,
            Part::Prompt,
            Part::Compaction,
            Part::Usage,
        ]
    );
    let parts = made(&mut composing(&[], true, false), false, "other");
    assert_eq!(
        parts[14..],
        [
            Part::Tools,
            Part::Inputs,
            Part::Delegation,
            Part::Images,
            Part::VisionGate,
            Part::VisionAudit,
            Part::Memory,
            Part::MemoryTools,
            Part::Prompt,
            Part::Compaction,
            Part::Usage,
        ]
    );
    let parts = made(&mut composing(&[], true, false), false, "digest");
    assert_eq!(parts[15..17], [Part::Inputs, Part::Mcp]);
    let facts = composing(&[], false, false).dispatch_facts();
    assert_eq!((facts.owner, facts.profile.as_str()), ("native", "default"));
    assert_eq!(facts.reasoning.as_deref(), Some("high"));
}

#[test]
fn compositions_are_refused_or_fail_with_their_part() {
    let mut run = composing(&["a", "b"], false, false);
    run.step(CompositionEvent::Done);
    run.step(CompositionEvent::Registry { routes: true });
    assert_eq!(
        run.step(CompositionEvent::Done),
        CompositionWork::Refuse("Profile is not ready: a; b".to_string())
    );
    let mut run = composing(&[], false, false);
    run.step(CompositionEvent::Done);
    run.step(CompositionEvent::Registry { routes: true });
    run.step(CompositionEvent::Done);
    assert_eq!(run.step(CompositionEvent::Done), CompositionWork::Ignore);
    assert_eq!(
        run.step(CompositionEvent::Connection { kind: ProviderKind::Codex }),
        CompositionWork::Refuse(OTHER_OWNER.to_string())
    );
    let mut run = composing(&[], false, false);
    assert_eq!(
        run.step(CompositionEvent::Failed("gone".to_string())),
        CompositionWork::Fail { context: None, cause: "gone".to_string() }
    );
    let mut run = composing(&[], false, false);
    run.part = Part::Web;
    assert_eq!(
        run.step(CompositionEvent::Failed("gone".to_string())),
        CompositionWork::Fail {
            context: Some("could not configure web tools"),
            cause: "gone".to_string(),
        }
    );
}

#[test]
fn refreshes_wait_for_children_and_confirm_their_inputs() {
    assert_eq!(prepare_refresh(true, true), Ok(RefreshDecision::Keep));
    assert_eq!(prepare_refresh(false, true), Err(CHILDREN_AT_WORK.to_string()));
    assert_eq!(prepare_refresh(false, false), Ok(RefreshDecision::Compose));
    assert_eq!(confirm_inputs("digest", "digest"), Ok(()));
    assert!(confirm_inputs("digest", "other").is_err());
    assert!(context_report("plan", false, "notice").contains("plan"));
}

#[test]
fn root_revision_changes_the_default_profile_alone() {
    let profile = |name: &str| Profile {
        name: name.to_string(),
        connection: "local".to_string(),
        model: "qwen".to_string(),
        skills: vec![],
        plugins: vec![],
        mcp_servers: vec![],
        mcp_allowlists: vec![],
        external_agents: vec![],
        service_routes: vec![],
        egress_policy: None,
        permission_mode: None,
        capabilities: None,
        max_tool_rounds: 8,
        orchestration: OrchestrationLimits {
            max_fan_out: 4,
            max_descendants: 16,
            max_concurrency: 2,
            deadline_seconds: 600,
            max_context_tokens: 32000,
            max_report_bytes: 65536,
            max_artifact_bytes: 1048576,
        },
        archived: false,
    };
    let root = || RootRevision {
        connection: "cloud".to_string(),
        model: "large".to_string(),
        permission_mode: PermissionMode::Deny,
        capabilities: Some(vec!["read".to_string()]),
        max_tool_rounds: 3,
        orchestration: OrchestrationLimits { max_fan_out: 1, ..profile("any").orchestration },
    };
    let mut profiles = vec![profile("other"), profile("default")];
    assert_eq!(revise_root(&mut profiles, "default", root()), Ok(()));
    assert_eq!(profiles[0], profile("other"));
    assert_eq!(profiles[1].connection, "cloud");
    assert_eq!(profiles[1].permission_mode, Some(PermissionMode::Deny));
    assert_eq!(profiles[1].max_tool_rounds, 3);
    assert_eq!(profiles[1].orchestration.max_fan_out, 1);
    assert!(revise_root(&mut profiles, "absent", root()).is_err());
}
