use xana::autonomy::preparation::{
    Preparation, PreparationError, PreparationEvent, PreparationWork, TaskRequest,
};
use xana::autonomy::{
    task_work, HostCommand, HostWork, Schedule, TaskAction, TaskCommand, TaskEdit, TaskError,
    TaskWork, TriggerKind, TriggerRequest, DEDICATED_PROCESS, FUTURE_EXPIRY, LATE_FIRST,
    NEEDS_AUTHORIZATION, ONE_ACTION, ONE_SCHEDULE, ONE_TRIGGER, ROUTE_CHANGED, UNLOCKED_STORAGE,
};
use xana::chat::exits::{relaunch, RestartPlan};
use xana::config::{
    ConnectionRegistry, CredentialReference, OrchestrationLimits, PermissionMode, Profile,
    PublicWebConsent, WebSettings,
};
use xana::connect::ConnectIntegration;
use xana::desktop::actions::model_without_conversation;
use xana::desktop::attention::browser_note;
use xana::desktop::layouts::{
    layout_requested, take_picked, toggle_maximize, Choice, FileEvent, FileStage, FileWork,
    LayoutFile, LayoutRequest, Maximizing, Picked, IMPORTING,
};
use xana::desktop::workbench::Response;
use xana::external_agents::commands::{AgentCommand, AgentEvent, AgentRun, AgentWork};
use xana::external_agents::{
    AgentTask, AgentView, DeclaredAgent, RefreshedCard, CANCEL_CONFIRMATION, ENDPOINT_CHANGED,
    NO_AGENTS, REMOVAL_CONFIRMATION,
};
use xana::images::commands::{ImageCommand, ImageEvent, ImageRun, ImageWork};
use xana::images::{ImageResult, PlannedRoute, RouteStatus, DENIED, PROMPT_UTF8};
use xana::mcp::commands::{command_server, McpCommand};
use xana::mcp::NO_DEFAULT_PROFILE;
use xana::memory::commands::{
    MemoryCommand, MemoryEdit, MemoryEvent, MemoryRun, MemoryWork, SpokenContext,
};
use xana::memory::{PROTECTED_STORAGE, UNKNOWN_CONTROL};
use xana::models::{model_work, ModelChoice, ModelCommand, ModelWork, BAD_SELECTION, SELECT_HINT};
use xana::one_shot::{
    admit_acceptance, resolve_one_shot_input, ExitCategory, OneShotFailure, BAD_ACCEPTANCE,
    MAX_ONE_SHOT_INPUT_BYTES, STDIN_LIMIT,
};
use xana::operations::commands::{
    RecoveryEvent, RecoveryRun, RecoveryStep, RecoveryWish, RecoveryWork, POLICY_FAILED,
    SHELL_FAILED, TOOLS_FAILED,
};
use xana::operations::{write_exported, write_log_paths, RecoveryAction, RestoredOperation};
use xana::surface::init::{
    InitArgs, InitEvent, InitRun, InitWork, BANNER_FAILED, PLAN_FAILED, RECORDS_FAILED,
    RENDER_FAILED, WRITE_FAILED,
};
use xana::surface::{
    write_integrations, FoundConfig, PlannedConfig, INIT_DEPRECATED, INTEGRATIONS, NO_CHANGES,
};

fn owned(text: &str) -> String {
    text.to_string()
}

fn task_request() -> TaskRequest {
    TaskRequest {
        name: owned("nightly"),
        authorize: true,
        expires: owned("2030-01-01T00:00:00Z"),
        reviewed_route: Some(owned("digest")),
        reminder: Some(owned("stand up")),
        prompt: None,
        workspace_reads: false,
        watch_root: None,
        run: None,
        credential: None,
        at: Some(owned("2029-01-01T00:00:00Z")),
        daily: None,
        timezone: None,
    }
}

const EXPIRY: i64 = 1_893_456_000;
const YEAR_BEFORE: i64 = 1_861_920_000;

fn scope() -> PreparationEvent {
    PreparationEvent::Scope { digest: owned("digest") }
}

fn reason(work: PreparationWork) -> &'static str {
    match work {
        PreparationWork::Fail(PreparationError::Task(TaskError::Refused(text))) => text,
        other => panic!("unexpected work: {other:?}"),
    }
}

#[test]
fn tasks_are_prepared_in_order() {
    let (mut preparation, work) = Preparation::start(task_request(), 0);
    assert_eq!(work, PreparationWork::ResolveScope);
    let work = preparation.step(scope());
    assert_eq!(work, PreparationWork::FindFirst(Schedule::Once { at: YEAR_BEFORE }));
    match preparation.step(PreparationEvent::First { at: YEAR_BEFORE }) {
        PreparationWork::Ready(task) => {
            assert_eq!(task.name, "nightly");
            assert_eq!(task.revision, 1);
            assert!(task.authorized && !task.pause_after_run);
            assert_eq!(task.action, TaskAction::Reminder { text: owned("stand up") });
            assert_eq!(task.trigger, None);
            assert_eq!(task.expires_at, EXPIRY);
            assert_eq!((task.next, task.not_before), (YEAR_BEFORE, YEAR_BEFORE));
        }
        other => panic!("unexpected work: {other:?}"),
    }
    assert_eq!(
        preparation.step(PreparationEvent::First { at: 0 }),
        PreparationWork::Ignore
    );
}

#[test]
fn tasks_are_refused_before_anything_is_resolved() {
    let (_, work) = Preparation::start(TaskRequest { authorize: false, ..task_request() }, 0);
    assert_eq!(reason(work), NEEDS_AUTHORIZATION);
    let (_, work) = Preparation::start(task_request(), EXPIRY);
    assert_eq!(reason(work), FUTURE_EXPIRY);
    let (_, work) = Preparation::start(
        TaskRequest { expires: owned("tomorrow"), ..task_request() },
        0,
    );
    assert!(matches!(
        work,
        PreparationWork::Fail(PreparationError::Task(TaskError::Instant(_)))
    ));
}

#[test]
fn tasks_are_refused_in_the_order_of_their_parts() {
    let refused = |request: TaskRequest| {
        let (mut preparation, _) = Preparation::start(request, 0);
        reason(preparation.step(scope()))
    };
    assert_eq!(
        refused(TaskRequest {
            reviewed_route: Some(owned("other")),
            reminder: None,
            ..task_request()
        }),
        ROUTE_CHANGED
    );
    assert_eq!(
        refused(TaskRequest { prompt: Some(owned("also")), ..task_request() }),
        ONE_ACTION
    );
    assert_eq!(
        refused(TaskRequest {
            watch_root: Some(owned("docs")),
            run: Some(owned("ci")),
            ..task_request()
        }),
        ONE_TRIGGER
    );
    assert_eq!(
        refused(TaskRequest { daily: Some(owned("08:00")), ..task_request() }),
        ONE_SCHEDULE
    );
    let (mut preparation, _) = Preparation::start(task_request(), 0);
    preparation.step(scope());
    assert_eq!(
        reason(preparation.step(PreparationEvent::First { at: EXPIRY })),
        LATE_FIRST
    );
    let (mut preparation, _) = Preparation::start(task_request(), 0);
    assert_eq!(
        preparation.step(PreparationEvent::Failed(owned("no workspace"))),
        PreparationWork::Fail(PreparationError::Outside(owned("no workspace")))
    );
}

#[test]
fn triggers_are_made_before_they_are_scheduled() {
    let (mut preparation, _) = Preparation::start(
        TaskRequest {
            reviewed_route: None,
            watch_root: Some(owned("docs")),
            at: None,
            ..task_request()
        },
        0,
    );
    assert_eq!(
        preparation.step(scope()),
        PreparationWork::MakeTrigger(TriggerRequest::Files { root: owned("docs") })
    );
    assert_eq!(
        preparation.step(PreparationEvent::TriggerMade),
        PreparationWork::FindFirst(Schedule::Triggered { poll_seconds: 5 })
    );
    match preparation.step(PreparationEvent::First { at: 5 }) {
        PreparationWork::Ready(task) => assert_eq!(task.trigger, Some(TriggerKind::Files)),
        other => panic!("unexpected work: {other:?}"),
    }
    let (mut preparation, _) = Preparation::start(
        TaskRequest {
            run: Some(owned("owner/repo")),
            credential: Some(owned("env:TOKEN")),
            at: None,
            ..task_request()
        },
        0,
    );
    assert_eq!(
        preparation.step(scope()),
        PreparationWork::MakeTrigger(TriggerRequest::Run {
            run: owned("owner/repo"),
            credential: CredentialReference::Environment { variable: owned("TOKEN") },
        })
    );
    assert_eq!(
        preparation.step(PreparationEvent::TriggerMade),
        PreparationWork::FindFirst(Schedule::Triggered { poll_seconds: 60 })
    );
}

#[test]
fn durable_work_is_changed_at_a_revision() {
    assert_eq!(
        task_work(TaskCommand::List { after: None }, false),
        Err(TaskError::Refused(UNLOCKED_STORAGE))
    );
    assert_eq!(
        task_work(TaskCommand::Pause { id: owned("job"), revision: 4 }, true),
        Ok(TaskWork::Edit { id: owned("job"), revision: 4, edit: TaskEdit::Pause })
    );
    assert_eq!(
        task_work(
            TaskCommand::Resume { id: owned("job"), revision: 5, review_unknown: true },
            true
        ),
        Ok(TaskWork::Edit {
            id: owned("job"),
            revision: 5,
            edit: TaskEdit::Resume { review_unknown: true },
        })
    );
    assert_eq!(
        task_work(TaskCommand::Cancel { id: owned("job"), revision: 6 }, true),
        Ok(TaskWork::Edit { id: owned("job"), revision: 6, edit: TaskEdit::Cancel })
    );
    assert_eq!(
        task_work(TaskCommand::Receipts { id: owned("job"), after: Some(owned("r")) }, true),
        Ok(TaskWork::Receipts { id: owned("job"), after: Some(owned("r")) })
    );
    assert_eq!(
        task_work(TaskCommand::Host(HostCommand::Status), true),
        Ok(TaskWork::Host(HostWork::Report))
    );
    assert_eq!(
        task_work(TaskCommand::Host(HostCommand::Observe), true),
        Err(TaskError::Refused(DEDICATED_PROCESS))
    );
}

fn invalid(message: &str) -> OneShotFailure {
    OneShotFailure { category: ExitCategory::InvalidInput, message: owned(message) }
}

#[test]
fn one_shot_input_is_read_from_a_pipe_or_an_argument() {
    assert_eq!(
        resolve_one_shot_input(Some(owned("hello")), None),
        Ok(owned("hello"))
    );
    assert_eq!(
        resolve_one_shot_input(None, Some(Ok(owned("piped\n")))),
        Ok(owned("piped"))
    );
    assert_eq!(
        resolve_one_shot_input(None, Some(Err(owned("closed")))),
        Err(invalid("could not read stdin: closed"))
    );
    assert_eq!(
        resolve_one_shot_input(
            Some(owned("hello")),
            Some(Ok("a".repeat(MAX_ONE_SHOT_INPUT_BYTES + 1)))
        ),
        Err(invalid(STDIN_LIMIT))
    );
    assert_eq!(
        admit_acceptance(Some(owned(" ")), None),
        Err(invalid(BAD_ACCEPTANCE))
    );
    assert_eq!(admit_acceptance(Some(owned("make")), None), Ok(()));
    assert_eq!(admit_acceptance(None, Some(owned(" "))), Ok(()));
}

#[test]
fn model_commands_are_read() {
    assert_eq!(
        model_work(Some(ModelCommand::Use {
            selection: owned("local/org/qwen"),
            effort: Some(owned("auto")),
            summary: Some(owned("concise")),
        })),
        Ok(ModelWork::Select {
            choice: ModelChoice { connection: owned("local"), model: owned("org/qwen") },
            effort: None,
            summary: Some(owned("concise")),
        })
    );
    assert_eq!(
        model_work(Some(ModelCommand::Use {
            selection: owned("qwen"),
            effort: None,
            summary: None,
        })),
        Err(owned(BAD_SELECTION))
    );
    assert_eq!(
        model_work(Some(ModelCommand::Refresh { connection: owned("local") })),
        Ok(ModelWork::Refresh { connection: owned("local") })
    );
    assert_eq!(
        model_work(Some(ModelCommand::List { connection: Some(owned("local")) })),
        Ok(ModelWork::List { only: Some(owned("local")), hint: None })
    );
    assert_eq!(
        model_work(None),
        Ok(ModelWork::List { only: None, hint: Some(SELECT_HINT) })
    );
}

#[test]
fn relaunched_conversations_are_not_one_shot() {
    let intent = relaunch(RestartPlan {
        resume: Some(owned("session")),
        target: None,
        continue_chat: true,
        force_new: false,
        workspace: None,
    });
    assert!(!intent.one_shot && !intent.conditions && !intent.force_new);
    assert!(intent.continue_chat);
    assert_eq!(intent.resume, Some(owned("session")));
    assert_eq!(intent.target, None);
}

fn paths(names: &[&str]) -> Picked {
    Picked::Paths(names.iter().map(|name| owned(name)).collect())
}

#[test]
fn layouts_are_imported_after_a_question() {
    let mut file = LayoutFile::import();
    assert_eq!(
        file.step(FileEvent::Picked(paths(&["a.toml", "b.toml"]))),
        FileWork::ReadLayout { path: owned("a.toml") }
    );
    assert_eq!(
        file.step(FileEvent::Read { panels: vec![owned("Message"), owned("Activity")] }),
        FileWork::Confirm {
            question: "Import this Workbench layout?",
            detail: owned(
                "Panels: Message, Activity. Only bounded panel IDs, splits, sizes, and visibility will be applied."
            ),
        }
    );
    assert_eq!(file.step(FileEvent::Answered { first: true }), FileWork::SaveLayout);
    assert_eq!(file.step(FileEvent::Saved), FileWork::Say(owned(IMPORTING)));
    assert_eq!(file.stage, FileStage::Over);

    let mut file = LayoutFile::import();
    file.step(FileEvent::Picked(paths(&["a.toml"])));
    file.step(FileEvent::Read { panels: vec![] });
    assert_eq!(file.step(FileEvent::Answered { first: false }), FileWork::Nothing);
    assert_eq!(file.step(FileEvent::Saved), FileWork::Nothing);

    let mut file = LayoutFile::import();
    file.step(FileEvent::Picked(paths(&["a.toml"])));
    assert_eq!(
        file.step(FileEvent::Failed(owned("too large"))),
        FileWork::Fail(owned("too large"))
    );
}

#[test]
fn layouts_are_exported_where_a_destination_is_chosen() {
    let mut file = LayoutFile::export();
    assert_eq!(
        file.step(FileEvent::Picked(paths(&["out.toml"]))),
        FileWork::WriteLayout { path: owned("out.toml") }
    );
    assert_eq!(
        file.step(FileEvent::Written),
        FileWork::Say(owned("Exported inert layout to out.toml"))
    );
    let mut file = LayoutFile::export();
    assert_eq!(file.step(FileEvent::Picked(Picked::Nothing)), FileWork::Nothing);
    assert_eq!(file.stage, FileStage::Over);
    let mut file = LayoutFile::export();
    assert_eq!(
        file.step(FileEvent::Picked(Picked::Refused(owned("no portal")))),
        FileWork::Fail(owned("Could not choose a layout destination: no portal"))
    );
    assert_eq!(
        take_picked(Choice::Attachments, Picked::Stopped(owned("gone"))),
        Err(owned("Attachment picker stopped: gone"))
    );
    assert_eq!(
        take_picked(Choice::LayoutFile, Picked::Stopped(owned("gone"))),
        Err(owned("Layout file picker stopped: gone"))
    );
    assert_eq!(
        take_picked(Choice::Attachments, paths(&["a.png", "b.png"])),
        Ok(vec![owned("a.png"), owned("b.png")])
    );
    assert_eq!(
        layout_requested(LayoutRequest::ClearDefault),
        "Removed the saved default Workbench layout"
    );
    assert_eq!(toggle_maximize(true), Maximizing::Restore);
    assert_eq!(toggle_maximize(false), Maximizing::Maximize);
}

fn agents() -> AgentEvent {
    AgentEvent::Registry(vec![DeclaredAgent {
        name: owned("research"),
        endpoint: owned("https://agent.example"),
    }])
}

fn failed(work: AgentWork) -> String {
    match work {
        AgentWork::Finish(Some(text)) => text,
        other => panic!("unexpected work: {other:?}"),
    }
}

#[test]
fn agents_are_trusted_after_their_endpoint_is_compared() {
    let (_, step) = AgentRun::start(AgentCommand::Trust { name: owned("research"), yes: false });
    assert_eq!(
        failed(step.work),
        "trust requires --yes after `xana external-agent show research`"
    );
    let (mut run, step) =
        AgentRun::start(AgentCommand::Trust { name: owned("research"), yes: true });
    assert_eq!(step.work, AgentWork::LoadRegistry);
    assert_eq!(run.step(agents()).work, AgentWork::Show);
    let step = run.step(AgentEvent::Shown {
        json: owned("{}"),
        card: Some((owned("id"), owned("https://agent.example"))),
    });
    assert_eq!(step.work, AgentWork::Trust);
    let step = run.step(AgentEvent::Trusted { identity: owned("id") });
    assert_eq!(step.print, "Trusted external agent \"research\" at identity id.\n");
    assert_eq!(step.work, AgentWork::Finish(None));

    let (mut run, _) = AgentRun::start(AgentCommand::Trust { name: owned("research"), yes: true });
    run.step(agents());
    let step = run.step(AgentEvent::Shown {
        json: owned("{}"),
        card: Some((owned("id"), owned("https://elsewhere.example"))),
    });
    assert_eq!(failed(step.work), ENDPOINT_CHANGED);
}

#[test]
fn agents_are_declared_refreshed_and_removed() {
    let (mut run, step) = AgentRun::start(AgentCommand::Add {
        name: owned("research"),
        endpoint: owned("https://agent.example"),
        env: Some(owned("KEY")),
        credential_id: None,
        egress_policy: None,
    });
    assert_eq!(
        step.work,
        AgentWork::Declare {
            endpoint: owned("https://agent.example"),
            credential: Some(CredentialReference::Environment { variable: owned("KEY") }),
            egress_policy: None,
        }
    );
    assert_eq!(
        run.step(AgentEvent::Declared).print,
        "External agent \"research\" declared. No network request was made.\nNext: xana external-agent refresh research\n"
    );
    let card = || RefreshedCard {
        agent_name: owned("Research"),
        protocol_binding: owned("JSONRPC"),
        protocol_version: owned("1.0"),
        identity_digest: owned("new"),
    };
    let refreshed = |prior: Option<&str>| {
        let (mut run, _) = AgentRun::start(AgentCommand::Refresh { name: owned("research") });
        run.step(agents());
        run.step(AgentEvent::Shown {
            json: owned("{}"),
            card: prior.map(|identity| (owned(identity), owned("https://agent.example"))),
        });
        run.step(AgentEvent::Refreshed(card())).print
    };
    assert!(refreshed(None).ends_with(
        "New identity requires review: new\nNext: xana external-agent show research\n"
    ));
    assert!(refreshed(Some("new")).ends_with("Identity unchanged: new\n"));
    assert!(refreshed(Some("old")).ends_with(
        "Identity changed; trust is blocked pending review.\nPrevious: old\nCurrent:  new\n"
    ));
    let (_, step) = AgentRun::start(AgentCommand::Remove { name: owned("research"), yes: false });
    assert_eq!(failed(step.work), REMOVAL_CONFIRMATION);
    let (mut run, step) =
        AgentRun::start(AgentCommand::Remove { name: owned("research"), yes: true });
    assert_eq!(step.work, AgentWork::RemoveDeclaration);
    assert_eq!(run.step(AgentEvent::DeclarationRemoved).work, AgentWork::RemoveCache);
    assert_eq!(
        run.step(AgentEvent::CacheRemoved).print,
        "Removed external agent \"research\" and its cached Card.\n"
    );
}

#[test]
fn agents_that_are_not_declared_are_not_asked() {
    let (mut run, _) = AgentRun::start(AgentCommand::Tasks { name: owned("other") });
    assert!(failed(run.step(agents()).work).contains("other"));
    let (_, step) = AgentRun::start(AgentCommand::Cancel {
        name: owned("research"),
        task_id: owned("t"),
        yes: false,
    });
    assert_eq!(failed(step.work), CANCEL_CONFIRMATION);
    let (mut run, _) = AgentRun::start(AgentCommand::Cancel {
        name: owned("research"),
        task_id: owned("t"),
        yes: true,
    });
    assert_eq!(run.step(agents()).work, AgentWork::Cancel { task_id: owned("t") });
    let step = run.step(AgentEvent::Cancelled(AgentTask {
        task_id: owned("t"),
        state: owned("canceled"),
        remote_cancel: owned("confirmed"),
        updated_unix_ms: 1,
    }));
    assert_eq!(
        step.print,
        "Remote cancellation for \"research\" task t: confirmed (canceled)\n"
    );
    let (mut run, _) = AgentRun::start(AgentCommand::List);
    let listed: Vec<AgentView> = vec![];
    assert_eq!(run.step(AgentEvent::Listed(listed)).print, NO_AGENTS);
    let (mut run, _) = AgentRun::start(AgentCommand::Untrust { name: owned("research") });
    assert_eq!(
        run.step(AgentEvent::Untrusted).print,
        "External agent \"research\" is no longer trusted.\n"
    );
    let (mut run, _) = AgentRun::start(AgentCommand::Show { name: owned("research") });
    run.step(agents());
    assert_eq!(
        run.step(AgentEvent::Shown { json: owned("{}"), card: None }).print,
        "{}\n"
    );
}

fn registry(permission: PermissionMode) -> ConnectionRegistry {
    ConnectionRegistry {
        default_profile: owned("default"),
        permission_mode: PermissionMode::Allow,
        connections: vec![],
        profiles: vec![Profile {
            name: owned("default"),
            connection: owned("local"),
            model: owned("qwen"),
            skills: vec![],
            plugins: vec![],
            mcp_servers: vec![],
            mcp_allowlists: vec![],
            external_agents: vec![],
            service_routes: vec![owned("paint")],
            egress_policy: None,
            permission_mode: Some(permission),
            capabilities: None,
            max_tool_rounds: 8,
            orchestration: OrchestrationLimits {
                max_fan_out: 4,
                max_descendants: 16,
                max_concurrency: 2,
                deadline_seconds: 600,
                max_context_tokens: 32000,
                max_report_bytes: 65536,
                max_artifact_bytes: 1048576,
            },
            archived: false,
        }],
        mcp_servers: vec![],
        egress_policies: vec![],
        web: WebSettings {
            connections: vec![],
            default_connection: None,
            public_web: PublicWebConsent::Ask,
        },
    }
}

fn generate(prompt: Option<&str>, yes: bool) -> ImageCommand {
    ImageCommand::Generate { prompt: prompt.map(owned), route: None, yes, json: false }
}

fn planned_route() -> PlannedRoute {
    PlannedRoute { name: owned("paint"), connection: owned("studio"), model: owned("brush") }
}

#[test]
fn images_are_generated_only_once_approved() {
    let allowing = registry(PermissionMode::Ask);
    let (mut run, step) = ImageRun::start(generate(Some("a boat"), true), &allowing);
    assert_eq!(step.work, ImageWork::Plan { prompt: owned("a boat"), route: None });
    let step = run.step(ImageEvent::Planned(planned_route()));
    assert_eq!(step.work, ImageWork::Generate);
    assert_eq!(
        step.notice,
        "Generating via route \"paint\", connection \"studio\", model \"brush\"; outbound prompt_text; cost unknown...\n"
    );
    let step = run.step(ImageEvent::Generated {
        result: ImageResult {
            route: owned("paint"),
            model: owned("brush"),
            artifacts: vec![],
            cost_microusd: None,
        },
        json: owned("{}"),
    });
    assert_eq!(
        step.print,
        "Image generated.\n  Route: paint\n  Model: brush\n  Cost: unavailable\n"
    );
    let (mut run, _) = ImageRun::start(generate(Some("a boat"), false), &allowing);
    match run.step(ImageEvent::Planned(planned_route())).work {
        ImageWork::Finish(Some(text)) => assert!(text.contains("rerun with --yes")),
        other => panic!("unexpected work: {other:?}"),
    }
    let denying = registry(PermissionMode::Deny);
    let (_, step) = ImageRun::start(generate(Some("a boat"), true), &denying);
    assert_eq!(step.work, ImageWork::Finish(Some(owned(DENIED))));
}

#[test]
fn image_prompts_can_be_piped_in() {
    let allowing = registry(PermissionMode::Allow);
    let (mut run, step) = ImageRun::start(generate(None, true), &allowing);
    assert_eq!(step.work, ImageWork::ReadInput);
    assert_eq!(
        run.step(ImageEvent::Input(b"a boat".to_vec())).work,
        ImageWork::Plan { prompt: owned("a boat"), route: None }
    );
    let (mut run, _) = ImageRun::start(generate(None, true), &allowing);
    assert_eq!(
        run.step(ImageEvent::Input(vec![0xff])).work,
        ImageWork::Finish(Some(owned(PROMPT_UTF8)))
    );
}

#[test]
fn image_routes_are_shown_as_text_or_json() {
    let held = registry(PermissionMode::Allow);
    let (mut run, step) = ImageRun::start(ImageCommand::List { json: false }, &held);
    assert_eq!(step.work, ImageWork::InspectAll { routes: vec![owned("paint")] });
    let status = || RouteStatus { route: owned("paint"), ready: true, reason: None };
    assert_eq!(
        run.step(ImageEvent::Statuses { statuses: vec![status()], json: owned("[]") }).print,
        "paint\tready\tconfigured\n"
    );
    let (mut run, step) =
        ImageRun::start(ImageCommand::Inspect { route: owned("paint"), json: true }, &held);
    assert_eq!(step.work, ImageWork::Inspect { route: owned("paint") });
    assert_eq!(
        run.step(ImageEvent::Status { status: status(), json: owned("{}") }).print,
        "{}\n"
    );
    let mut missing = registry(PermissionMode::Allow);
    missing.default_profile = owned("other");
    let (_, step) = ImageRun::start(ImageCommand::List { json: false }, &missing);
    assert_eq!(step.work, ImageWork::Finish(Some(owned(NO_DEFAULT_PROFILE))));
}

fn planned_config() -> PlannedConfig {
    PlannedConfig { connection: owned("local"), codex: false, model: owned("qwen") }
}

fn begun(dry_run: bool) -> InitRun {
    let (mut run, work) =
        InitRun::start(InitArgs { dry_run, non_interactive: false }, owned("/c.toml"));
    assert_eq!(work, InitWork::LoadConfig);
    let step = run.step(InitEvent::Found(FoundConfig::Missing));
    assert_eq!(step.print, INIT_DEPRECATED);
    assert_eq!(step.work, InitWork::WriteBanner);
    run
}

#[test]
fn configurations_are_written_once_planned_and_rendered() {
    let mut run = begun(false);
    assert_eq!(run.step(InitEvent::Done).work, InitWork::Plan);
    assert_eq!(run.step(InitEvent::Planned(planned_config())).work, InitWork::Render);
    assert_eq!(
        run.step(InitEvent::Rendered { text: owned("x = 1\n") }).work,
        InitWork::Write { rendered: owned("x = 1\n") }
    );
    assert_eq!(
        run.step(InitEvent::Written { created: true }).work,
        InitWork::PrepareRecords
    );
    let step = run.step(InitEvent::Done);
    assert_eq!(
        step.print,
        "Configuration created.\n  Config:   /c.toml\n  Connection: local\n  Model:    qwen\n\nNext: xana\n"
    );
    assert_eq!(step.work, InitWork::Finish(None));

    let mut run = begun(true);
    run.step(InitEvent::Done);
    run.step(InitEvent::Planned(planned_config()));
    let step = run.step(InitEvent::Rendered { text: owned("x = 1\n") });
    assert_eq!(step.print, "Configuration preview (not written): /c.toml\n\nx = 1\n");
    assert_eq!(step.work, InitWork::Finish(None));

    let mut run = begun(false);
    run.step(InitEvent::Done);
    assert_eq!(run.step(InitEvent::Cancelled).print, NO_CHANGES);
}

#[test]
fn existing_configurations_are_kept() {
    let args = InitArgs { dry_run: false, non_interactive: false };
    let (mut run, _) = InitRun::start(args, owned("/c.toml"));
    let step = run.step(InitEvent::Found(FoundConfig::Valid));
    assert!(step.print.ends_with("Xana is already initialized.\n  Config: /c.toml\n"));
    assert_eq!(step.work, InitWork::Finish(None));
    let (mut run, _) = InitRun::start(args, owned("/c.toml"));
    assert_eq!(
        run.step(InitEvent::Found(FoundConfig::Invalid)).work,
        InitWork::Finish(Some(owned("cannot initialize over the configuration at /c.toml")))
    );
}

#[test]
fn each_stage_of_initialization_fails_in_its_own_words() {
    let failure = |run: &mut InitRun| match run.step(InitEvent::Failed).work {
        InitWork::Finish(Some(text)) => text,
        other => panic!("unexpected work: {other:?}"),
    };
    let mut run = begun(false);
    assert_eq!(failure(&mut run), BANNER_FAILED);
    let mut run = begun(false);
    run.step(InitEvent::Done);
    assert_eq!(failure(&mut run), PLAN_FAILED);
    let mut run = begun(false);
    run.step(InitEvent::Done);
    run.step(InitEvent::Planned(planned_config()));
    assert_eq!(failure(&mut run), RENDER_FAILED);
    let mut run = begun(false);
    run.step(InitEvent::Done);
    run.step(InitEvent::Planned(planned_config()));
    run.step(InitEvent::Rendered { text: owned("x") });
    assert_eq!(failure(&mut run), WRITE_FAILED);
    let mut run = begun(false);
    run.step(InitEvent::Done);
    run.step(InitEvent::Planned(planned_config()));
    run.step(InitEvent::Rendered { text: owned("x") });
    run.step(InitEvent::Written { created: true });
    assert_eq!(failure(&mut run), RECORDS_FAILED);
}

#[test]
fn places_and_hints_are_written_out() {
    let mut output = String::new();
    write_log_paths("/logs", "/crashes", 14, "info", &mut output);
    assert_eq!(
        output,
        "Logs:    /logs\nCrashes: /crashes\nRetention: 14 day(s)\nLevel: info\n"
    );
    let mut output = String::new();
    write_exported("/tmp/bundle", &mut output);
    assert_eq!(
        output,
        "Support bundle created: /tmp/bundle\nReview it locally before sharing; Xana uploads nothing.\n"
    );
    let mut output = String::new();
    write_integrations(None, &mut output);
    assert_eq!(output, INTEGRATIONS);
    write_integrations(Some(ConnectIntegration::Mcp), &mut output);
    assert!(output.contains("Selected Mcp; use the exact command shown above"));
    write_integrations(Some(ConnectIntegration::ExternalAgent), &mut output);
    assert!(output.contains("Selected ExternalAgent; use the exact command shown above"));
    assert_eq!(
        browser_note(false),
        "Browser control requires a native Xana conversation and controller authority."
    );
    assert_eq!(
        model_without_conversation("busy"),
        Response::Fail(owned(
            "Model selection was saved, but the new Conversation could not open: busy"
        ))
    );
    assert_eq!(
        command_server(&McpCommand::Refresh { server: owned("docs") }),
        Some("docs")
    );
}

fn remembering(command: MemoryCommand) -> (MemoryRun, MemoryWork) {
    let (mut run, work) = MemoryRun::start(command);
    assert_eq!(work, MemoryWork::Open);
    let step = run.step(MemoryEvent::Opened { protected: true });
    (run, step.work)
}

fn correction(expires_at: Option<i64>, clear_expiry: bool) -> MemoryCommand {
    MemoryCommand::Correct {
        id: owned("m"),
        revision: 7,
        text: owned("tea, not coffee"),
        expires_at,
        clear_expiry,
    }
}

fn corrected(valid_until: Option<i64>) -> MemoryWork {
    MemoryWork::Revise {
        id: owned("m"),
        revision: 7,
        edit: MemoryEdit::Correct { statement: owned("tea, not coffee"), valid_until },
    }
}

#[test]
fn corrections_keep_the_expiry_that_is_not_changed() {
    let (_, work) = remembering(correction(Some(5), true));
    assert_eq!(work, corrected(None));
    for (asked, until) in [(Some(5), Some(5)), (None, Some(9))] {
        let (mut run, work) = remembering(correction(asked, false));
        assert_eq!(work, MemoryWork::Record { id: owned("m") });
        let step = run.step(MemoryEvent::Record { valid_until: Some(9) });
        assert_eq!(step.work, corrected(until));
        let step = run.step(MemoryEvent::Answered { json: owned("{}") });
        assert_eq!((step.print.as_str(), step.work), ("{}\n", MemoryWork::Finish(None)));
    }
}

#[test]
fn memory_is_not_touched_without_protected_storage() {
    let (mut run, _) = MemoryRun::start(MemoryCommand::Show { id: owned("m") });
    assert_eq!(
        run.step(MemoryEvent::Opened { protected: false }).work,
        MemoryWork::Finish(Some(owned(PROTECTED_STORAGE)))
    );
    let spoken = || MemoryCommand::Say {
        context: SpokenContext { conversation: None, profile: None, project: None },
        request: owned("forget tea"),
    };
    let (mut run, work) = remembering(spoken());
    assert!(matches!(work, MemoryWork::Say { .. }));
    assert_eq!(
        run.step(MemoryEvent::Said(None)).work,
        MemoryWork::Finish(Some(owned(UNKNOWN_CONTROL)))
    );
    let (mut run, _) = remembering(spoken());
    assert_eq!(run.step(MemoryEvent::Said(Some(Ok(owned("Done."))))).print, "Done.\n");
    let (mut run, _) = remembering(spoken());
    assert_eq!(
        run.step(MemoryEvent::Said(Some(Err(owned("locked"))))).work,
        MemoryWork::Finish(Some(owned("locked")))
    );
}

fn interrupted() -> RecoveryEvent {
    RecoveryEvent::Restored(vec![RestoredOperation {
        operation_id: owned("op"),
        thread_id: owned("thread"),
        input_entry_id: owned("entry"),
        step_order: vec![],
    }])
}

fn recovering(wish: RecoveryWish, operation: &str) -> (RecoveryRun, RecoveryStep) {
    let (mut run, work) = RecoveryRun::start(wish, owned("s"), owned(operation));
    assert_eq!(work, RecoveryWork::LoadConfig);
    assert_eq!(run.step(RecoveryEvent::Done).work, RecoveryWork::ResolveShell);
    assert_eq!(run.step(RecoveryEvent::Done).work, RecoveryWork::BuildTools);
    let step = run.step(RecoveryEvent::Done);
    (run, step)
}

#[test]
fn recoveries_are_planned_or_executed_under_current_permissions() {
    let (mut run, step) = recovering(RecoveryWish::Plan, "op");
    assert_eq!(step.work, RecoveryWork::Inspect { session: owned("s") });
    assert_eq!(run.step(interrupted()).work, RecoveryWork::Plan { operation: owned("op") });
    let step = run.step(RecoveryEvent::Recovered(vec![RecoveryAction::FinishOperation]));
    assert_eq!(
        step.print,
        "session: s\noperation: op\nthread: thread\ninput entry: entry\nsteps: none committed\nfinish operation\n"
    );
    let (mut run, step) = recovering(RecoveryWish::Resume, "op");
    assert_eq!(step.work, RecoveryWork::Resume { session: owned("s") });
    assert_eq!(run.step(interrupted()).work, RecoveryWork::ResolvePolicy);
    assert_eq!(
        run.step(RecoveryEvent::Done).work,
        RecoveryWork::Execute { operation: owned("op") }
    );
    assert_eq!(
        run.step(RecoveryEvent::Failed(owned("denied"))).work,
        RecoveryWork::Finish(Some(owned("denied")))
    );
    let (mut run, _) = recovering(RecoveryWish::Resume, "other");
    assert_eq!(
        run.step(interrupted()).work,
        RecoveryWork::Finish(Some(owned("operation other is not in session s")))
    );
}

#[test]
fn recoveries_fail_in_the_words_of_their_stage() {
    let failed_after = |steps: usize| {
        let (mut run, _) = RecoveryRun::start(RecoveryWish::Plan, owned("s"), owned("op"));
        for _ in 0..steps {
            run.step(RecoveryEvent::Done);
        }
        match run.step(RecoveryEvent::Failed(owned("cause"))).work {
            RecoveryWork::Finish(Some(text)) => text,
            other => panic!("unexpected work: {other:?}"),
        }
    };
    assert_eq!(failed_after(0), "cause");
    assert_eq!(failed_after(1), SHELL_FAILED);
    assert_eq!(failed_after(2), TOOLS_FAILED);
    assert_eq!(failed_after(3), "cause");
    let (mut run, _) = recovering(RecoveryWish::Resume, "op");
    run.step(interrupted());
    assert_eq!(
        run.step(RecoveryEvent::Failed(owned("cause"))).work,
        RecoveryWork::Finish(Some(owned(POLICY_FAILED)))
    );
}
