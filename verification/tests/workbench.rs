use std::collections::{HashMap, HashSet};
use xana::desktop::actions::{
    decide_permission, discard_settings, dispatch, draft_taken, interrupt, model_selected,
    model_without_conversation, queue_taken, request_model_change, send, set_managed_reasoning,
    suggested_draft, take_queued, Sending, SettingsEvent, Taken, WindowCommand, WindowWork, COPIED, EDITED,
    MANAGED_OWNER, MODEL_UNEXPECTED, MODEL_WAITS, NOTHING_STAGED, NO_CONFIGURATION, QUEUED,
    REASONING_WAITS,
};
use xana::desktop::activity::{
    approval_question, attachment_detail, can_close, completion_summary, execution_summary,
    owner_label, panel_text, prompt_summary, queue_note, reopenable, runtime_status, short_identity,
    shown_canvas, shown_panel, state_label, status_bar, ActivityOwner, ActivityState, Canvas,
    CompletionReceipt, ExecutionFacts, Panel, RuntimeStatus, Tone,
};
use xana::desktop::attention::{
    browser_requested, browser_status_detail, review_browser_outcome, BrowserFact,
    REQUEST_STATUS_FIRST,
};
use xana::desktop::frames::{Frame, Launched, Launches, UPDATES_PER_FRAME};
use xana::desktop::models::ModelOption;
use xana::desktop::navigation::{
    ConversationNode, LaunchIntent, NavigationDialog, NavigationSnapshot, NavigationTarget,
    PathKind, ProjectNode, WorkspaceStatus, DOCUMENTATION_URL,
};
use xana::desktop::places::{
    attachment_staged, decide_round_budget, opened_elsewhere, quietly_answered, Focus, Leaving,
    Turned, CHECKING_CLIPBOARD, CHECKING_IMAGE, DRAFT_KEPT, KEEP_DETAIL, KEEP_TITLE,
};
use xana::desktop::retained::{
    Recoverable, Recoverables, RetainedUis, Submission, MAX_RECOVERABLE_SUBMISSIONS,
    MAX_RETAINED_CONVERSATION_UIS,
};
use xana::desktop::views::{
    render_activity_panel, render_message_panel, render_panel_stack, ActivityFacts, ActivityItem,
    Approval, Attached, DialogView, ItemCard, Progress, ReceiptCard, StatusLine, Tab, WindowFacts,
    NO_ACTIVITY, NO_TARGET, RENAME_TITLE,
};
use xana::desktop::workbench::{
    close_choice, confirmed, Answer, CloseChoice, CloseStep, Request, Response, Sent,
    SettingsSignal, Suspension, Update, UpdateWork, Workbench, CREATING, NO_BRANCH_POINT,
    NO_RECORD, NO_RUN, OTHER_OWNER, RETRYING, RETRY_WAITS, SELECT_TO_RENAME,
};
use xana::desktop::workers::{
    worker_label, PreferencesReceipt, PreferencesView, WorkerAction, WorkerControls,
    WorkerRequest, WorkerResult, WorkerSummary, WorkerView, PREFERENCES_NOTE, RESETTING,
    RESET_QUESTION, WORKERS_INTRO,
};

fn conversation(id: &str, workspace: &str) -> ConversationNode {
    ConversationNode {
        id: id.to_string(),
        title: format!("Title {id}"),
        state: "idle".to_string(),
        needs_attention: false,
        branch_point: None,
        workspace_id: workspace.to_string(),
        workspace_label: workspace.to_string(),
    }
}

fn project(id: &str, conversations: Vec<ConversationNode>) -> ProjectNode {
    ProjectNode {
        id: id.to_string(),
        name: format!("Project {id}"),
        archived: false,
        workspace_status: WorkspaceStatus::Available,
        workspace_id: Some("home".to_string()),
        workspace_label: "Home".to_string(),
        conversations,
    }
}

fn snapshot(selected: &str) -> NavigationSnapshot {
    NavigationSnapshot {
        projects: vec![project("p", vec![conversation("c", "home")]), project("q", vec![])],
        ungrouped: vec![conversation("d", "away")],
        selected_conversation: Some(selected.to_string()),
        mini_sidebar: false,
    }
}

fn workbench() -> Workbench {
    let (workbench, draft) =
        Workbench::new(snapshot("c"), None, "session".to_string(), LaunchIntent::Focus);
    assert!(!draft);
    workbench
}

fn submission(text: &str) -> Submission {
    Submission { id: format!("id-{text}"), text: text.to_string(), attachments: vec![] }
}

fn failure(response: Response) -> String {
    match response {
        Response::Fail(text) => text,
        other => panic!("unexpected response: {other:?}"),
    }
}

fn request(response: Response) -> Request {
    match response {
        Response::Ask { request, .. } | Response::AskQuietly { request } => request,
        other => panic!("unexpected response: {other:?}"),
    }
}

#[test]
fn workbench_opens_on_the_selected_conversation() {
    let workbench = workbench();
    assert_eq!(workbench.active, "c");
    assert_eq!(workbench.selected_project.as_deref(), Some("p"));
    assert_eq!(workbench.navigation, NavigationTarget::Conversation);
    let (attached, draft) = Workbench::new(
        snapshot("c"),
        Some("d".to_string()),
        "session".to_string(),
        LaunchIntent::Navigate(NavigationTarget::Settings),
    );
    assert_eq!(attached.active, "d");
    assert!(draft);
}

#[test]
fn snapshots_replace_what_is_shown_and_keep_recent_views() {
    let mut workbench = workbench();
    let mut turn = |selected: &str| {
        workbench.apply(Update::Snapshot {
            navigation: snapshot(selected),
            attached: None,
            session: "session".to_string(),
        })
    };
    match turn("d").work {
        UpdateWork::Replace { conversation, activation } => {
            assert_eq!(conversation, "d");
            assert!(activation.created && activation.dropped.is_none());
        }
        other => panic!("unexpected work: {other:?}"),
    }
    match turn("c").work {
        UpdateWork::Replace { activation, .. } => assert!(!activation.created),
        other => panic!("unexpected work: {other:?}"),
    }
    assert_eq!(workbench.uis.order, ["d", "c"]);
}

#[test]
fn oldest_views_are_dropped_first() {
    let mut uis = RetainedUis::new("0".to_string());
    for index in 1..MAX_RETAINED_CONVERSATION_UIS {
        assert_eq!(uis.activate(&index.to_string()).dropped, None);
    }
    assert!(!uis.activate("0").created);
    let activation = uis.activate("more");
    assert_eq!(activation.dropped.as_deref(), Some("1"));
    assert_eq!(uis.order.len(), MAX_RETAINED_CONVERSATION_UIS);
}

#[test]
fn refused_messages_are_put_back() {
    let mut workbench = workbench();
    workbench.submitted(submission("hello"), 7, Some("run".to_string()));
    assert_eq!(workbench.recoverable.runs.len(), 1);
    let outcome = workbench.apply(Update::CommandResult {
        command: 7,
        accepted: false,
        error: None,
    });
    assert_eq!(outcome.fail.as_deref(), Some("Runtime rejected the submitted message"));
    match outcome.work {
        UpdateWork::Restore(held) => assert_eq!(held.submission, submission("hello")),
        other => panic!("unexpected work: {other:?}"),
    }
    assert_eq!(workbench.recoverable.runs.len(), 0);
    workbench.await_settings(8);
    let outcome =
        workbench.apply(Update::CommandResult { command: 8, accepted: true, error: None });
    assert_eq!(outcome.work, UpdateWork::SettingsIdle);
    workbench.await_attachment(9, "c".to_string());
    assert_eq!(
        workbench.apply(Update::AttachmentStaged { command: 9 }).work,
        UpdateWork::Stage { conversation: "c".to_string() }
    );
    assert_eq!(
        workbench.apply(Update::CommandResult {
            command: 10,
            accepted: false,
            error: Some("no".to_string()),
        })
        .fail
        .as_deref(),
        Some("no")
    );
}

#[test]
fn stopped_runtimes_end_the_work() {
    let mut workbench = workbench();
    let outcome = workbench.apply(Update::BackendStopped { expected: false, error: None });
    assert!(!outcome.keep_running);
    assert_eq!(outcome.fail.as_deref(), Some("Desktop runtime stopped"));
    assert_eq!(outcome.work, UpdateWork::Nothing);
    workbench.shutdown_asked(Ok(()));
    let outcome = workbench.apply(Update::BackendStopped { expected: true, error: None });
    assert_eq!(outcome.work, UpdateWork::CloseWindow);
    assert!(!workbench.sends_next(false, false));
    assert_eq!(
        workbench.apply(Update::Observation { applied: false }).work,
        UpdateWork::RequestSnapshot
    );
}

#[test]
fn runs_are_retried_where_they_belong() {
    let mut workbench = workbench();
    workbench.submitted(submission("hello"), 1, Some("run".to_string()));
    assert_eq!(failure(workbench.retry(None, false)), NO_RUN);
    assert_eq!(failure(workbench.retry(Some("other"), false)), NO_RECORD);
    assert_eq!(failure(workbench.retry(Some("run"), true)), RETRY_WAITS);
    match workbench.retry(Some("run"), false) {
        Response::Resend { submission: sent, said } => {
            assert_eq!(sent, submission("hello"));
            assert_eq!(said, RETRYING);
        }
        other => panic!("unexpected response: {other:?}"),
    }
    workbench.active = "d".to_string();
    assert_eq!(failure(workbench.retry(Some("run"), false)), OTHER_OWNER);
    workbench.apply(Update::OperationState {
        operation: "run".to_string(),
        completed: true,
        applied: true,
    });
    assert_eq!(failure(workbench.retry(Some("run"), false)), NO_RECORD);
}

#[test]
fn recoverable_runs_are_bounded() {
    let mut runs = Recoverables::new();
    for index in 0..MAX_RECOVERABLE_SUBMISSIONS + 1 {
        runs.remember(Recoverable {
            operation: index.to_string(),
            conversation: "c".to_string(),
            submission: submission("x"),
        });
    }
    assert_eq!(runs.runs.len(), MAX_RECOVERABLE_SUBMISSIONS);
    assert!(runs.find("0").is_none());
    assert!(runs.find("1").is_some());
    runs.forget("1");
    assert!(runs.find("1").is_none());
    runs.clear();
    assert!(runs.runs.is_empty());
}

#[test]
fn conversations_are_chosen_moved_and_branched() {
    let mut workbench = workbench();
    assert_eq!(workbench.choose_item("conversation:c"), Response::Nothing);
    assert_eq!(
        request(workbench.choose_item("conversation:d")),
        Request::Switch { conversation: "d".to_string() }
    );
    assert_eq!(
        request(workbench.ungroup()),
        Request::Ungroup { conversation: "d".to_string() }
    );
    assert_eq!(failure(workbench.branch()), NO_BRANCH_POINT);
    workbench.begin_move();
    match workbench.move_to("p".to_string()) {
        Response::Confirm { request, .. } => assert_eq!(
            request,
            Request::Move {
                conversation: "d".to_string(),
                project: "p".to_string(),
                crosses: true,
            }
        ),
        other => panic!("unexpected response: {other:?}"),
    }
    assert!(workbench.dialog.is_none());
    assert_eq!(workbench.move_to("p".to_string()), Response::Nothing);
    workbench.snapshot.ungrouped[0].branch_point = Some("point".to_string());
    match workbench.branch() {
        Response::Confirm { request, .. } => assert_eq!(
            request,
            Request::Branch { conversation: "d".to_string(), point: "point".to_string() }
        ),
        other => panic!("unexpected response: {other:?}"),
    }
    assert_eq!(
        request(workbench.open_from_overview("d".to_string(), true)),
        Request::Switch { conversation: "d".to_string() }
    );
    workbench.arrive(true);
    assert_eq!(workbench.navigation, NavigationTarget::Activity);
}

#[test]
fn projects_are_renamed_and_archived() {
    let mut workbench = workbench();
    match workbench.begin_rename() {
        Err(response) => assert_eq!(failure(response), SELECT_TO_RENAME),
        Ok(name) => panic!("unexpected name: {name}"),
    }
    workbench.choose_item("project:q");
    assert_eq!(workbench.begin_rename(), Ok("Project q".to_string()));
    assert_eq!(
        request(workbench.commit_rename("Site".to_string())),
        Request::Rename { project: "q".to_string(), name: "Site".to_string() }
    );
    workbench.dismiss_dialog();
    assert_eq!(workbench.commit_rename("Site".to_string()), Response::Nothing);
    let archive = workbench.set_archived(true);
    assert_eq!(
        request(confirmed(archive, true)),
        Request::SetArchived { project: "q".to_string(), archived: true }
    );
    assert_eq!(confirmed(workbench.set_archived(true), false), Response::Nothing);
    match workbench.new_conversation() {
        Response::Ask { request, said } => {
            assert_eq!(request, Request::NewConversation { project: Some("q".to_string()) });
            assert_eq!(said, CREATING);
        }
        other => panic!("unexpected response: {other:?}"),
    }
}

#[test]
fn windows_close_after_a_question_while_a_run_is_active() {
    let mut workbench = workbench();
    assert_eq!(workbench.request_close(false), CloseStep::Shutdown);
    assert_eq!(workbench.request_close(true), CloseStep::Question);
    assert_eq!(workbench.request_close(true), CloseStep::Ignore);
    assert_eq!(workbench.answer_close(CloseChoice::KeepOpen), CloseStep::StayOpen);
    assert_eq!(workbench.request_close(true), CloseStep::Question);
    assert_eq!(workbench.answer_close(CloseChoice::CancelAndQuit), CloseStep::Shutdown);
    assert_eq!(close_choice(None), CloseChoice::Return);
    let first = workbench.plan_layout_save();
    let second = workbench.plan_layout_save();
    assert!(!workbench.saves_layout(first) && workbench.saves_layout(second));
    assert!(workbench.turn_to(LaunchIntent::Navigate(NavigationTarget::Settings), false));
    assert!(!workbench.turn_to(LaunchIntent::Navigate(NavigationTarget::Settings), true));
}

#[test]
fn messages_wait_for_the_active_run() {
    assert_eq!(send(submission("a"), true), Sending::Queue(submission("a")));
    assert_eq!(send(submission("a"), false), Sending::Submit(submission("a")));
    assert_eq!(queue_taken(Ok(())), Response::Say(QUEUED.to_string()));
    assert_eq!(queue_taken(Err("full".to_string())), Response::Fail("full".to_string()));
    assert_eq!(draft_taken(true, Ok(())), Response::Say(EDITED.to_string()));
    assert_eq!(draft_taken(false, Ok(())), Response::Say(COPIED.to_string()));
    assert_eq!(suggested_draft("capabilities"), Some("What can Xana do?"));
    assert_eq!(suggested_draft("other"), None);
    assert_eq!(interrupt(&None), Response::Nothing);
    assert_eq!(
        request(interrupt(&Some("run".to_string()))),
        Request::Interrupt { operation: "run".to_string() }
    );
    assert_eq!(take_queued(submission("a"), true, true), Taken::Edit(submission("a")));
    assert_eq!(take_queued(submission("a"), false, false), Taken::Submit(submission("a")));
    assert!(matches!(take_queued(submission("a"), false, true), Taken::Wait { .. }));
    assert_eq!(
        request(decide_permission("i".to_string(), false)),
        Request::DecidePermission { id: "i".to_string(), allow: false }
    );
}

#[test]
fn models_change_without_rewriting_history() {
    let change = |running: bool, owner: &str, model: &str| {
        request_model_change(running, owner, "local".to_string(), model.to_string(), "qwen")
    };
    assert_eq!(change(true, "native", "qwen"), Response::Nothing);
    assert_eq!(failure(change(true, "native", "large")), MODEL_WAITS);
    assert_eq!(
        request(change(false, MANAGED_OWNER, "large")),
        Request::SelectManagedModel { model: "large".to_string() }
    );
    assert!(matches!(change(false, "native", "large"), Response::Confirm { .. }));
    assert_eq!(
        request(model_selected(Ok(true), None, "said".to_string())),
        Request::NewConversation { project: None }
    );
    assert_eq!(
        failure(model_selected(Ok(false), None, "said".to_string())),
        MODEL_UNEXPECTED
    );
    assert_eq!(
        failure(model_without_conversation("closed")),
        "Model selection was saved, but the new Conversation could not open: closed"
    );
    assert_eq!(failure(set_managed_reasoning(true, None)), REASONING_WAITS);
    assert_eq!(
        set_managed_reasoning(false, None),
        Response::Ask {
            request: Request::SetReasoning { effort: None },
            said:
                "Changing later managed turns to auto reasoning; the Codex thread is retained…"
                    .to_string(),
        }
    );
}

#[test]
fn settings_are_staged_before_they_are_applied() {
    let mut workbench = workbench();
    let mut serve = |event: SettingsEvent, draft: Option<u64>| {
        workbench.handle_settings_event(event, draft)
    };
    assert_eq!(failure(serve(SettingsEvent::Apply, None)), NOTHING_STAGED);
    assert_eq!(
        request(serve(SettingsEvent::Apply, Some(3))),
        Request::CommitSettings { draft: 3 }
    );
    assert_eq!(
        serve(
            SettingsEvent::Stage {
                draft: 3,
                key: "theme".to_string(),
                value: "dark".to_string(),
            },
            None
        ),
        Response::Ask {
            request: Request::SetSetting {
                draft: 3,
                key: "theme".to_string(),
                value: "dark".to_string(),
            },
            said: "Staging theme…".to_string(),
        }
    );
    assert_eq!(
        request(confirmed(discard_settings(Some(3)), true)),
        Request::DiscardSettings { draft: 3 }
    );
}

#[test]
fn window_commands_open_trusted_targets_only() {
    let run = |command: WindowCommand, kind: PathKind| dispatch(command, kind, kind, &None);
    assert_eq!(
        run(WindowCommand::OpenConfiguration, PathKind::File),
        WindowWork::OpenConfiguration
    );
    assert_eq!(
        run(WindowCommand::OpenConfiguration, PathKind::Link),
        WindowWork::Fail(NO_CONFIGURATION)
    );
    assert_eq!(run(WindowCommand::RevealLogs, PathKind::Directory), WindowWork::RevealLogs);
    assert_eq!(
        run(WindowCommand::OpenDocumentation, PathKind::Missing),
        WindowWork::OpenUrl { url: DOCUMENTATION_URL }
    );
    assert_eq!(run(WindowCommand::InterruptRun, PathKind::Missing), WindowWork::Nothing);
    assert_eq!(
        run(WindowCommand::ShowSettings, PathKind::Missing),
        WindowWork::Turn { target: NavigationTarget::Settings }
    );
}

#[test]
fn activity_is_described_in_words() {
    assert_eq!(short_identity("0123456789"), "01234567");
    assert_eq!(short_identity("short"), "short");
    assert_eq!(
        owner_label(&ActivityOwner::NativeChild { agent_id: "0123456789".to_string() }),
        "Native child 01234567"
    );
    assert_eq!(owner_label(&ActivityOwner::A2a { agent: "r".to_string() }), "A2A r");
    assert_eq!(state_label(ActivityState::Waiting), ("Needs you", Tone::Warning));
    assert_eq!(execution_summary(None, "local"), "local · embedded · authority unavailable");
    let facts = ExecutionFacts {
        owner: "native".to_string(),
        host_location: "embedded".to_string(),
        workspace_authority: "read".to_string(),
        approval_policy: "ask".to_string(),
    };
    assert_eq!(
        execution_summary(Some(&facts), "local"),
        "native · embedded · read · approvals ask"
    );
    assert_eq!(
        prompt_summary(Some(10), Some(100), &None),
        "Prompt estimate 10 / 100 input tokens"
    );
    assert_eq!(prompt_summary(Some(10), None, &None), "Prompt ledger unavailable");
    let receipt = CompletionReceipt {
        operation: "run".to_string(),
        status: "completed".to_string(),
        checks: vec![true, false, true],
        artifacts: 2,
    };
    assert_eq!(
        completion_summary(&receipt),
        ("Run run · 2/3 checks · 2 artifact(s)".to_string(), Tone::Success)
    );
    assert_eq!(approval_question("shell", "Runs", "here").title, "Allow shell?");
    assert_eq!(runtime_status(true, true), RuntimeStatus::NeedsAttention);
    assert_eq!(runtime_status(false, true), RuntimeStatus::Working);
    assert_eq!(
        status_bar("ready", "home", true, 2, 3, "saved"),
        (
            "ready · home · 1 active Run · 2 approval(s)".to_string(),
            "3 notice(s) · saved".to_string()
        )
    );
    assert_eq!(queue_note(0), "after the active Run");
    assert_eq!(queue_note(1), "after the active Run · 1 attachment");
    assert_eq!(queue_note(2), "after the active Run · 2 attachments");
    assert_eq!(attachment_detail(Some(2), Some(3), "image/png"), "2×3");
    assert_eq!(attachment_detail(Some(2), None, "image/png"), "image/png");
}

#[test]
fn panels_are_closed_and_reopened() {
    assert!(!can_close(Panel::Message));
    assert!(can_close(Panel::Usage));
    let panels = vec![Panel::Conversation, Panel::Usage];
    assert_eq!(shown_panel(&panels, 1), Panel::Usage);
    assert!(!reopenable(&panels).contains(&Panel::Usage));
    assert!(reopenable(&panels).contains(&Panel::Artifacts));
    assert_eq!(
        panel_text(Panel::Artifacts, "local", "qwen", "ready", 4),
        Some(("Artifacts", "4 retained artifact(s)".to_string()))
    );
    assert_eq!(panel_text(Panel::Conversation, "local", "qwen", "ready", 4), None);
    assert_eq!(shown_canvas(NavigationTarget::Settings, true).0, Canvas::Settings);
    assert_eq!(shown_canvas(NavigationTarget::Conversation, true).0, Canvas::Maximized);
    assert_eq!(shown_canvas(NavigationTarget::Conversation, false).0, Canvas::Layout);
}

fn worker(id: &str) -> WorkerSummary {
    WorkerSummary {
        id: id.to_string(),
        goal: "watch".to_string(),
        state: "idle".to_string(),
        route: "review".to_string(),
        queued: 1,
        revision: 4,
    }
}

#[test]
fn workers_are_changed_at_the_revision_that_was_seen() {
    let mut view = WorkerView::new();
    assert_eq!(view.status, WORKERS_INTRO);
    assert_eq!(
        view.act(WorkerAction::Run, "r", String::new(), String::new()),
        None
    );
    assert_eq!(view.refresh(false), Some(WorkerRequest::Page { after: None }));
    assert_eq!(view.refresh(false), None);
    assert!(view.interrupt());
    assert_eq!(view.status, "Cancellation requested; waiting for the durable outcome.");
    view.finish(WorkerResult::Page(vec![worker("w")]));
    assert!(!view.interrupt());
    view.select(worker("w"));
    assert_eq!(
        view.act(WorkerAction::FollowUp, " r ", "more".to_string(), String::new()),
        Some(WorkerRequest::FollowUp {
            id: "w".to_string(),
            revision: 4,
            request_id: "r".to_string(),
            text: "more".to_string(),
        })
    );
    view.finish(WorkerResult::Failed("stale".to_string()));
    assert!(!view.busy && view.status.contains("stale"));
    assert_eq!(view.retain("s", "a", "g".to_string(), "e", "x"), None);
    view.authorize = true;
    assert_eq!(
        view.retain(" s ", "a", "g".to_string(), " e", "  one\ttwo  three\n"),
        Some(WorkerRequest::Retain {
            session: "s".to_string(),
            agent: "a".to_string(),
            goal: "g".to_string(),
            expires: "e".to_string(),
            evidence: vec!["one".to_string(), "two".to_string(), "three".to_string()],
        })
    );
    assert!(worker_label(&worker("w")).contains("watch"));
}

#[test]
fn built_in_preferences_are_not_reset_again() {
    let mut view = PreferencesView {
        built_in: true,
        confirm_reset: false,
        busy: false,
        error: None,
        receipt: None,
    };
    assert!(!view.can_reset());
    view.built_in = false;
    assert!(view.can_reset());
    view.confirm_reset = true;
    assert!(view.reset());
    assert!(view.busy && !view.confirm_reset && !view.can_reset());
    assert!(!view.reset());
    view.finish(Err("denied".to_string()));
    assert_eq!(view.error.as_deref(), Some("denied"));
    assert!(view.reset());
    let receipt =
        || PreferencesReceipt { code: "restored".to_string(), detail: "built in".to_string() };
    view.finish(Ok((receipt(), true)));
    assert!(!view.can_reset());
    assert_eq!(view.receipt, Some(receipt()));
}

#[test]
fn places_are_opened_and_left() {
    let mut workbench = workbench();
    assert_eq!(
        workbench.open_place(NavigationTarget::Settings, false),
        Turned {
            begin: Some("Preparing a settings draft…"),
            said: "Settings opened",
            focus: Focus::Search,
        }
    );
    assert_eq!(workbench.navigation, NavigationTarget::Settings);
    assert_eq!(
        workbench.leave_settings(Some(1)),
        Leaving::Question { title: KEEP_TITLE, detail: KEEP_DETAIL }
    );
    assert_eq!(workbench.answer_leaving(false), None);
    assert_eq!(workbench.navigation, NavigationTarget::Settings);
    assert_eq!(workbench.answer_leaving(true), Some(DRAFT_KEPT));
    assert_eq!(workbench.navigation, NavigationTarget::Conversation);
    assert_eq!(
        workbench.open_place(NavigationTarget::Diagnostics, false).begin,
        Some("Preparing Diagnostics…")
    );
    for staged in [None, Some(0)] {
        workbench.open_place(NavigationTarget::Diagnostics, true);
        assert_eq!(
            workbench.leave_settings(staged),
            Leaving::Left { said: "Conversation opened" }
        );
        assert_eq!(workbench.navigation, NavigationTarget::Conversation);
    }
    assert_eq!(
        workbench.open_place(NavigationTarget::Espejo, false),
        Turned { begin: None, said: "Espejo opened", focus: Focus::Nothing }
    );
    assert_eq!(workbench.open_place(NavigationTarget::Activity, false).said, "Activity opened");
    assert_eq!(opened_elsewhere("settings"), "Opened settings from another Xana launch");
}

#[test]
fn commands_are_noted_as_they_are_taken() {
    let mut workbench = workbench();
    assert_eq!(
        workbench.track_settings(Ok(4), "Preparing".to_string()),
        Response::Say("Preparing".to_string())
    );
    assert_eq!(workbench.pending.settings, HashSet::from([4]));
    assert_eq!(
        workbench.track_settings(Err("busy".to_string()), "Preparing".to_string()),
        Response::Fail("busy".to_string())
    );
    assert_eq!(workbench.pending.settings, HashSet::from([4]));
    assert_eq!(
        workbench.track_attachment("c".to_string(), false, Ok(5)),
        Response::Say(CHECKING_IMAGE.to_string())
    );
    assert_eq!(
        workbench.track_attachment("d".to_string(), true, Ok(6)),
        Response::Say(CHECKING_CLIPBOARD.to_string())
    );
    assert_eq!(
        workbench.track_attachment("d".to_string(), true, Err("none".to_string())),
        Response::Fail("none".to_string())
    );
    assert_eq!(
        workbench.pending.attachments,
        HashMap::from([(5, "c".to_string()), (6, "d".to_string())])
    );
    assert_eq!(attachment_staged(true), "Image attachment is ready");
    assert_eq!(attachment_staged(false), "Image attachment was already staged");
    let suspension = || Suspension { id: "s-1".to_string(), can_continue: true };
    assert_eq!(
        decide_round_budget(suspension(), true),
        Response::AskQuietly {
            request: Request::DecideRounds { suspension: suspension(), resume: true },
        }
    );
    assert_eq!(quietly_answered(Ok(())), Response::Nothing);
    assert_eq!(quietly_answered(Err("gone".to_string())), Response::Fail("gone".to_string()));
}

#[test]
fn frames_take_a_bounded_number_of_updates() {
    let mut workbench = workbench();
    let mut frame = Frame::new(false);
    assert!(workbench.take(&mut frame, None).is_none());
    assert!(frame.over && frame.keep_running && !frame.changed);

    let mut frame = Frame::new(false);
    let stopped = Update::BackendStopped { expected: true, error: None };
    assert!(workbench.take(&mut frame, Some(stopped)).is_some());
    assert!(frame.wants_more() && !frame.keep_running && frame.changed);
    while frame.wants_more() {
        workbench.take(&mut frame, Some(Update::ResyncRequired));
    }
    assert_eq!(frame.taken, UPDATES_PER_FRAME);
    assert!(!frame.keep_running);

    let mut frame = Frame::new(true);
    workbench.take(&mut frame, Some(Update::Broken { error: "lost".to_string() }));
    assert_eq!(frame, Frame { taken: 1, changed: true, keep_running: false, over: true });
    let mut quiet = Frame::new(false);
    quiet.sent();
    assert!(quiet.changed);
}

fn nothing_going_on() -> ActivityFacts {
    ActivityFacts {
        failed: false,
        running: false,
        latest: "Idle".to_string(),
        rounds: None,
        profile: None,
        connection: "local".to_string(),
        executions: vec![],
        used: None,
        budget: None,
        unavailable: None,
        completions: vec![],
        approvals: vec![],
        items: vec![],
    }
}

#[test]
fn activity_panel_shows_what_goes_on() {
    let empty = render_activity_panel(&nothing_going_on());
    assert_eq!(empty.status, StatusLine::Badge { label: "Ready", tone: Tone::Success });
    assert_eq!(empty.profile, "Profile: Unspecified");
    assert_eq!(empty.execution, "local · embedded · authority unavailable");
    assert_eq!(empty.prompt, "Prompt ledger unavailable");
    assert_eq!(empty.receipt, None);
    assert_eq!(empty.note, Some(NO_ACTIVITY));

    let execution = |owner: &str| ExecutionFacts {
        owner: owner.to_string(),
        host_location: "here".to_string(),
        workspace_authority: "write".to_string(),
        approval_policy: "ask".to_string(),
    };
    let receipt = |operation: &str, status: &str| CompletionReceipt {
        operation: operation.to_string(),
        status: status.to_string(),
        checks: vec![true, false],
        artifacts: 1,
    };
    let facts = ActivityFacts {
        failed: true,
        running: true,
        rounds: Some(Suspension { id: "s-1".to_string(), can_continue: false }),
        profile: Some("work".to_string()),
        executions: vec![execution("first"), execution("last")],
        used: Some(5),
        budget: Some(9),
        completions: vec![receipt("a", "completed"), receipt("b", "failed")],
        approvals: vec![Approval {
            tool: "shell".to_string(),
            effect: "Runs".to_string(),
            scope: "here".to_string(),
        }],
        items: vec![ActivityItem {
            owner: ActivityOwner::Mcp { server: "files".to_string() },
            state: ActivityState::Waiting,
            code: "tool.call_started".to_string(),
            child: true,
            detail: Some("ls".to_string()),
        }],
        ..nothing_going_on()
    };
    let panel = render_activity_panel(&facts);
    assert_eq!(
        panel.status,
        StatusLine::Badge { label: "Needs attention", tone: Tone::Danger }
    );
    assert_eq!(
        panel.rounds,
        Some(Suspension { id: "s-1".to_string(), can_continue: false })
    );
    assert_eq!(panel.profile, "Profile: work");
    assert_eq!(panel.execution, "last · here · write · approvals ask");
    assert_eq!(panel.prompt, "Prompt estimate 5 / 9 input tokens");
    assert_eq!(
        panel.receipt,
        Some(ReceiptCard {
            status: "failed".to_string(),
            tone: Tone::Danger,
            summary: "Run b · 1/2 checks · 1 artifact(s)".to_string(),
        })
    );
    assert_eq!(panel.approvals[0].title, "Allow shell?");
    assert_eq!(
        panel.items,
        [ItemCard {
            title: "Tool call started".to_string(),
            owner: "MCP files".to_string(),
            state: "Needs you",
            tone: Tone::Warning,
            indented: true,
            detail: Some("ls".to_string()),
        }]
    );
    assert_eq!(panel.note, None);

    let working = ActivityFacts { running: true, ..nothing_going_on() };
    assert_eq!(
        render_activity_panel(&working).status,
        StatusLine::Loading { label: "Idle".to_string() }
    );
}

#[test]
fn windows_and_dialogs_are_drawn() {
    let mut workbench = workbench();
    let facts = WindowFacts {
        maximized: false,
        lifecycle: "ready".to_string(),
        place: "conversation".to_string(),
        running: true,
        approvals: 2,
        notices: 3,
        latest: "Working".to_string(),
    };
    let view = workbench.render(&facts);
    assert_eq!(view.canvas, Canvas::Layout);
    assert!(view.library && view.interrupts && view.actions_enabled);
    assert_eq!(view.new_label, "New");
    assert_eq!(view.left, "ready · conversation · 1 active Run · 2 approval(s)");
    assert_eq!(view.right, "3 notice(s) · Working");
    assert_eq!(view.dialog, None);

    workbench.snapshot.mini_sidebar = true;
    workbench.open_place(NavigationTarget::Espejo, true);
    let view = workbench.render(&facts);
    assert_eq!(view.canvas, Canvas::Espejo);
    assert!(!view.library);
    assert_eq!((view.new_label, view.actions_label), ("+", "…"));
    assert_eq!((view.espejo_label, view.settings_label), ("E", "S"));

    workbench.dialog = Some(NavigationDialog::MoveConversation { conversation: "c".to_string() });
    let Some(DialogView::Move { targets, note, .. }) = workbench.render_navigation_dialog() else {
        panic!("a move is asked for");
    };
    assert_eq!(targets.is_empty(), note == Some(NO_TARGET));
    assert!(targets.iter().all(|target| target.project != "p"));
    workbench.dialog = Some(NavigationDialog::RenameProject { project: "gone".to_string() });
    assert_eq!(
        workbench.render_navigation_dialog(),
        Some(DialogView::Rename {
            title: RENAME_TITLE,
            detail: "Change only Xana's local Project label for Project. The workspace and Conversations are unchanged.".to_string(),
        })
    );
}

#[test]
fn stacks_and_messages_are_drawn() {
    let stack = render_panel_stack(&vec![Panel::Activity, Panel::Message], 1, true);
    assert_eq!(stack.shown, Panel::Message);
    assert_eq!(stack.maximize, "Restore");
    assert!(!stack.can_close);
    assert_eq!(
        stack.tabs,
        [
            Tab { panel: Panel::Activity, active: false },
            Tab { panel: Panel::Message, active: true },
        ]
    );
    assert_eq!(render_panel_stack(&vec![], 0, false).shown, Panel::Unavailable);

    let queue = vec![submission("later")];
    let option = ModelOption {
        id: "m".to_string(),
        display_name: "M".to_string(),
        source: "catalog".to_string(),
        reasoning: None,
        input_modalities: vec![],
        tools: None,
        context_tokens: None,
        reasoning_efforts: vec!["low".to_string(), "high".to_string()],
    };
    let effort = Some("high".to_string());
    let panel = render_message_panel(&queue, &vec![option], "managed_codex", "m", &effort);
    assert_eq!(panel.queue[0].text, "later");
    let buttons = panel.efforts.expect("efforts are offered");
    let shown: Vec<(&str, bool)> =
        buttons.iter().map(|button| (button.label.as_str(), button.selected)).collect();
    assert_eq!(shown, [("auto", false), ("low", false), ("high", true)]);
    assert_eq!(render_message_panel(&queue, &vec![], "native", "m", &None).efforts, None);
}

#[test]
fn browser_outcomes_are_reviewed_from_the_runtime() {
    let fact = |id: &str, from_runtime: bool, text: &str| BrowserFact {
        id: id.to_string(),
        from_runtime,
        text: Some(text.to_string()),
    };
    let facts = vec![
        fact("browser:status", false, "claimed"),
        fact("other", true, "else"),
        fact("browser:status", true, "pending"),
    ];
    assert_eq!(browser_status_detail(&facts).as_deref(), Some("pending"));
    assert_eq!(browser_status_detail(&vec![]), None);
    assert_eq!(review_browser_outcome(None), Err(REQUEST_STATUS_FIRST));
    let (title, detail) = review_browser_outcome(Some("Click")).expect("a review is pending");
    assert_eq!(title, "What happened to this exact browser action?");
    assert!(detail.starts_with("Click\n\nInspect the recipient"));
    assert_eq!(
        browser_requested(true, Ok(())),
        Response::Say("Recording the exact reviewed browser outcome…".to_string())
    );
    assert_eq!(
        browser_requested(false, Ok(())),
        Response::Say("Requesting browser control…".to_string())
    );
    assert_eq!(
        browser_requested(false, Err("busy".to_string())),
        Response::Fail("busy".to_string())
    );
}

#[test]
fn preferences_are_drawn() {
    let mut view = PreferencesView {
        built_in: false,
        confirm_reset: false,
        busy: false,
        error: None,
        receipt: None,
    };
    let panels = vec!["activity".to_string(), "message".to_string()];
    let warning = Some("moved".to_string());
    view.ask_reset();
    let card = view.render("user", &panels, "project > user > built-in", &warning);
    assert_eq!(card.source, "User-wide source: user");
    assert_eq!(card.panels, "Panels: activity, message");
    assert_eq!(card.precedence, "project > user > built-in");
    assert_eq!(card.warning.as_deref(), Some("Recovered safely: moved"));
    assert_eq!(card.note, PREFERENCES_NOTE);
    assert_eq!((card.question, card.busy), (Some(RESET_QUESTION), None));
    assert!(card.can_reset && card.error.is_none() && card.receipt.is_none());
    view.cancel_reset();
    assert_eq!(view.render("user", &panels, "", &None).question, None);
    assert!(view.reset());
    let card = view.render("user", &panels, "", &None);
    assert_eq!((card.question, card.busy, card.can_reset), (None, Some(RESETTING), false));
    view.ask_reset();
    assert!(!view.confirm_reset);
    view.finish(Err("denied".to_string()));
    assert_eq!(view.render("user", &panels, "", &None).error.as_deref(), Some("denied"));
    let receipt =
        PreferencesReceipt { code: "reset".to_string(), detail: "built in".to_string() };
    view.finish(Ok((receipt, true)));
    let card = view.render("user", &panels, "", &None);
    assert_eq!(card.receipt.as_deref(), Some("reset · built in"));
    assert!(!card.can_reset);
}

#[test]
fn worker_controls_follow_what_goes_on() {
    let mut view = WorkerView::new();
    let idle = WorkerControls {
        refresh: true,
        next_page: false,
        interrupt: false,
        fields: true,
        actions: false,
        retain: false,
    };
    assert_eq!(view.controls(), idle);
    view.refresh(false);
    assert_eq!(
        view.controls(),
        WorkerControls { refresh: false, interrupt: true, fields: false, ..idle }
    );
    view.finish(WorkerResult::Page(vec![worker("w"), worker("v")]));
    view.select(worker("w"));
    view.authorize = true;
    assert_eq!(
        view.controls(),
        WorkerControls { next_page: true, actions: true, retain: true, ..idle }
    );
    assert!(view.shows_selected(&worker("w")));
    assert!(!view.shows_selected(&worker("v")));
}

#[test]
fn palette_is_opened_picked_from_and_dismissed() {
    let mut workbench = workbench();
    let facts = WindowFacts {
        maximized: false,
        lifecycle: "ready".to_string(),
        place: "conversation".to_string(),
        running: false,
        approvals: 0,
        notices: 0,
        latest: "Idle".to_string(),
    };
    assert!(!workbench.render(&facts).palette);
    assert!(!workbench.dismiss_palette());
    assert_eq!(
        workbench.run_command(
            WindowCommand::ShowPalette,
            PathKind::File,
            PathKind::Directory,
            &None
        ),
        WindowWork::Palette
    );
    assert!(workbench.render(&facts).palette);
    assert_eq!(
        workbench.pick_command(
            Some(WindowCommand::ShowEspejo),
            PathKind::File,
            PathKind::Directory,
            &None
        ),
        WindowWork::Turn { target: NavigationTarget::Espejo }
    );
    assert!(!workbench.palette_open);
    workbench.show_palette();
    assert_eq!(
        workbench.pick_command(None, PathKind::File, PathKind::Directory, &None),
        WindowWork::Nothing
    );
    assert!(!workbench.palette_open);
    workbench.show_palette();
    assert!(workbench.dismiss_palette());
    assert!(!workbench.palette_open);
    workbench.pick_command(
        Some(WindowCommand::ShowPalette),
        PathKind::File,
        PathKind::Directory,
        &None,
    );
    assert!(workbench.palette_open);
}

#[test]
fn settings_receipts_are_forgotten_with_the_next_change() {
    let key = || "theme".to_string();
    let changes = [
        SettingsEvent::Stage { draft: 3, key: key(), value: "dark".to_string() },
        SettingsEvent::Reset { draft: 3, key: key() },
        SettingsEvent::Revert { draft: 3, key: key() },
    ];
    for change in changes {
        let mut workbench = workbench();
        let outcome = workbench.apply(Update::SettingsReceipt { receipt: "applied".to_string() });
        assert_eq!(outcome.work, UpdateWork::SettingsIdle);
        assert_eq!(workbench.settings_receipt.as_deref(), Some("applied"));
        workbench.handle_settings_event(SettingsEvent::Apply, Some(3));
        assert_eq!(workbench.settings_receipt.as_deref(), Some("applied"));
        workbench.apply(Update::SettingsDraft { present: false });
        assert_eq!(workbench.settings_receipt.as_deref(), Some("applied"));
        workbench.handle_settings_event(change, Some(3));
        assert_eq!(workbench.settings_receipt, None);
    }
    let mut workbench = workbench();
    workbench.apply(Update::SettingsReceipt { receipt: "applied".to_string() });
    workbench.apply(Update::SettingsDraft { present: true });
    assert_eq!(workbench.settings_receipt, None);
}

#[test]
fn taken_requests_are_awaited_and_close_their_dialog() {
    let mut workbench = workbench();
    assert_eq!(
        workbench.taken(&Request::ReloadSettings, Some("Refreshing".to_string()), Ok(7)),
        Answer {
            response: Response::Say("Refreshing".to_string()),
            settings: SettingsSignal::Busy,
        }
    );
    assert_eq!(workbench.pending.settings, HashSet::from([7]));
    assert_eq!(
        workbench.taken(&Request::BeginSettings, None, Err("busy".to_string())),
        Answer {
            response: Response::Fail("busy".to_string()),
            settings: SettingsSignal::Failed,
        }
    );
    assert_eq!(workbench.pending.settings, HashSet::from([7]));
    assert_eq!(
        workbench.taken(&Request::Clear, None, Ok(8)),
        Answer { response: Response::Nothing, settings: SettingsSignal::Nothing }
    );
    assert_eq!(workbench.pending.settings, HashSet::from([7]));

    workbench.choose_item("project:q");
    assert!(workbench.begin_rename().is_ok());
    let rename = request(workbench.commit_rename("Site".to_string()));
    assert!(workbench.dialog.is_some());
    workbench.taken(&rename, Some("Renaming Project…".to_string()), Err("busy".to_string()));
    assert!(workbench.dialog.is_some());
    workbench.taken(&rename, Some("Renaming Project…".to_string()), Ok(9));
    assert!(workbench.dialog.is_none());
}

#[test]
fn sidebar_width_is_kept_and_asked_for() {
    let mut workbench = workbench();
    for mini in [true, false] {
        assert_eq!(
            workbench.collapse_sidebar(mini),
            Response::AskQuietly { request: Request::SetSidebar { mini } }
        );
        assert_eq!(workbench.snapshot.mini_sidebar, mini);
    }
}

#[test]
fn launches_are_taken_up_to_a_bound() {
    let mut workbench = workbench();
    let mut launches = Launches::new();
    let settings = || Some(LaunchIntent::Navigate(NavigationTarget::Settings));
    assert!(launches.wants_more() && !launches.turned());
    assert_eq!(
        workbench.take_launch(&mut launches, settings(), false),
        Some(Launched { begin: true, focus: Focus::Search })
    );
    assert_eq!(workbench.navigation, NavigationTarget::Settings);
    assert_eq!(
        workbench.take_launch(&mut launches, settings(), true),
        Some(Launched { begin: false, focus: Focus::Search })
    );
    while launches.wants_more() {
        workbench.take_launch(&mut launches, Some(LaunchIntent::Focus), false);
    }
    assert_eq!(launches, Launches { taken: 64, over: false });
    assert!(launches.turned());

    let mut none = Launches::new();
    assert_eq!(workbench.take_launch(&mut none, None, false), None);
    assert!(!none.wants_more() && !none.turned());
}

#[test]
fn sent_messages_are_shown_or_put_back() {
    let mut workbench = workbench();
    assert_eq!(
        workbench.sent(submission("a"), Ok((1, Some("run".to_string())))),
        Sent::Shown { operation: "run".to_string(), text: "a".to_string() }
    );
    assert!(workbench.recoverable.find("run").is_some());
    assert_eq!(workbench.sent(submission("b"), Ok((2, None))), Sent::Taken);
    assert_eq!(
        workbench.sent(submission("c"), Err("stopped".to_string())),
        Sent::Restored { submission: submission("c"), message: "stopped".to_string() }
    );
    assert_eq!(workbench.pending.submissions.len(), 2);
}

#[test]
fn a_repeated_command_number_stands_for_the_latest() {
    let mut workbench = workbench();
    workbench.sent(submission("first"), Ok((7, None)));
    workbench.sent(submission("second"), Ok((7, None)));
    let refused = || Update::CommandResult { command: 7, accepted: false, error: None };
    match workbench.apply(refused()).work {
        UpdateWork::Restore(held) => assert_eq!(held.submission, submission("second")),
        other => panic!("unexpected work: {other:?}"),
    }
    let again = workbench.apply(refused());
    assert!(!matches!(again.work, UpdateWork::Restore(_)));
    workbench.await_attachment(8, "c".to_string());
    workbench.await_attachment(8, "d".to_string());
    assert_eq!(
        workbench.apply(Update::AttachmentStaged { command: 8 }).work,
        UpdateWork::Stage { conversation: "d".to_string() }
    );
}

#[test]
fn components_are_told_what_there_is() {
    let workbench = workbench();
    let attached = vec![Attached {
        id: "a".to_string(),
        name: "cat.png".to_string(),
        bytes: 12,
        width: Some(3),
        height: Some(4),
        media_type: "image/png".to_string(),
    }];
    let told = workbench.sync_components(&None, true, &attached, &vec![], "local", "m");
    assert_eq!(told.progress, Progress::Running);
    assert_eq!(told.attachments[0].detail, "3×4");
    assert_eq!(told.models[0].id, "m");
    assert_eq!(told.active_item.as_deref(), Some("conversation:c"));
    assert!(!told.collapsed);
    let failure = Some("broken".to_string());
    let told = workbench.sync_components(&failure, true, &vec![], &vec![], "local", "m");
    assert_eq!(told.progress, Progress::Failed("broken".to_string()));
    let told = workbench.sync_components(&None, false, &vec![], &vec![], "local", "m");
    assert_eq!(told.progress, Progress::Complete);
}
