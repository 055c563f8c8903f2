use xana::desktop::attention::{
    background_interval, browser_controls_enabled, browser_finding, notification_context_unchanged,
    notification_destination, notify_for_update, AttentionKind, Authority, BrowserFinding,
    BrowserResolution, NotificationDestination, NotificationPolicy, Occurrence,
};
use xana::desktop::history::{
    history_controls, HistoryPage, HistoryRequest, HistoryView, RowActions, SavedMessage,
    MANAGED_HISTORY,
};
use xana::desktop::models::{
    model_options_for, prompt_models, reasoning_choices, ConnectionModels, ModelOption,
    RETAINED_MODEL,
};
use xana::desktop::navigation::{
    conversation_item_id, conversation_title, documentation_url_is_safe, espejo_destination,
    move_targets, navigation_for_intent, navigation_menu, project_for_conversation,
    project_item_id, project_title, selected_item, sidebar_sections, trusted_directory,
    trusted_regular_file, ConversationNode, LaunchIntent, MenuAction, NavigationSnapshot,
    NavigationTarget, PathKind, ProjectNode, SidebarSelection, WorkspaceStatus, DOCUMENTATION_URL,
};

#[test]
fn forwarded_intent_has_a_closed_navigation_projection() {
    assert_eq!(navigation_for_intent(LaunchIntent::Focus), NavigationTarget::Conversation);
    assert_eq!(
        navigation_for_intent(LaunchIntent::Navigate(NavigationTarget::Diagnostics)),
        NavigationTarget::Diagnostics
    );
}

#[test]
fn espejo_attention_routes_to_activity_without_over_clearing() {
    assert_eq!(espejo_destination(true), NavigationTarget::Activity);
    assert_eq!(espejo_destination(false), NavigationTarget::Conversation);
}

#[test]
fn external_documentation_is_allowlisted() {
    assert!(documentation_url_is_safe(DOCUMENTATION_URL));
    assert!(!documentation_url_is_safe("http://github.com/labcoder/xana"));
    assert!(!documentation_url_is_safe("https://example.com"));
}

#[test]
fn native_file_actions_reject_missing_targets() {
    assert!(trusted_regular_file(PathKind::File));
    assert!(trusted_directory(PathKind::Directory));
    assert!(!trusted_regular_file(PathKind::Missing));
    for kind in [PathKind::Link, PathKind::Other, PathKind::Missing] {
        assert!(!trusted_regular_file(kind));
        assert!(!trusted_directory(kind));
    }
    assert!(!trusted_regular_file(PathKind::Directory));
    assert!(!trusted_directory(PathKind::File));
}

fn vision_model() -> ModelOption {
    ModelOption {
        id: "vision-model".to_string(),
        display_name: "Vision Model".to_string(),
        input_modalities: vec!["text".to_string(), "image".to_string()],
        tools: Some(true),
        reasoning: Some(true),
        reasoning_efforts: vec!["high".to_string()],
        context_tokens: Some(128_000),
        source: "managed runtime".to_string(),
    }
}

#[test]
fn prompt_catalog_retains_current_model_and_capability_metadata() {
    let models = prompt_models(&vec![vision_model()], "codex", "missing-current");
    assert_eq!(models.len(), 2);
    assert_eq!(models[0].id, "missing-current");
    assert_eq!(models[1].id, "vision-model");
    assert_eq!(models[0].description, RETAINED_MODEL);
    assert_eq!(models[1].description, "managed runtime · reasoning · vision · tools");
    assert_eq!(models[1].context_window, Some(128_000));
    assert_eq!(prompt_models(&vec![vision_model()], "codex", "vision-model").len(), 1);
}

#[test]
fn models_are_those_of_the_connection() {
    let connections = || {
        vec![
            ConnectionModels { id: "local".to_string(), models: vec![] },
            ConnectionModels { id: "codex".to_string(), models: vec![vision_model()] },
        ]
    };
    assert_eq!(model_options_for(connections(), "codex"), vec![vision_model()]);
    assert_eq!(model_options_for(connections(), "absent"), vec![]);
    let options = vec![vision_model()];
    assert_eq!(reasoning_choices(&options, "vision-model", false), None);
    assert_eq!(
        reasoning_choices(&options, "vision-model", true),
        Some(vec!["high".to_string()])
    );
    assert_eq!(reasoning_choices(&options, "other", true), Some(vec![]));
}

#[test]
fn notification_delivery_rechecks_focus_and_changed_preferences() {
    let observed = NotificationPolicy {
        enabled: true,
        completions: true,
        approvals: true,
        failures: true,
    };
    assert!(notification_context_unchanged(&observed, &observed, false));
    assert!(!notification_context_unchanged(&observed, &observed, true));
    let mut current = observed;
    current.enabled = false;
    assert!(!notification_context_unchanged(&observed, &current, false));
    current.enabled = true;
    current.completions = false;
    assert!(!notification_context_unchanged(&observed, &current, false));
}

#[test]
fn attention_is_drawn_by_what_happened() {
    let changed = |change: &str| Occurrence::ControllerChanged { change: change.to_string() };
    assert_eq!(
        notify_for_update(&Occurrence::PermissionRequired),
        Some(AttentionKind::Approval)
    );
    assert_eq!(notify_for_update(&Occurrence::RunCompleted), Some(AttentionKind::Completed));
    assert_eq!(notify_for_update(&Occurrence::HostRunFailed), Some(AttentionKind::Failed));
    assert_eq!(
        notify_for_update(&changed("disconnected: lease lost")),
        Some(AttentionKind::ControllerLost)
    );
    assert_eq!(notify_for_update(&changed("acquired")), None);
    assert_eq!(
        notify_for_update(&Occurrence::GlobalNotice { kind: "hostfailure".to_string() }),
        Some(AttentionKind::HostFailure)
    );
    assert_eq!(notify_for_update(&Occurrence::BackendStopped { expected: true }), None);
    assert_eq!(notify_for_update(&Occurrence::Other), None);
    assert_eq!(notification_destination(NotificationDestination::Activity), "activity");
    assert!(background_interval(true) > background_interval(false));
}

#[test]
fn browser_buttons_require_native_controller_authority() {
    assert!(browser_controls_enabled(Authority::Owner, "native"));
    assert!(browser_controls_enabled(Authority::Controller, "native"));
    assert!(!browser_controls_enabled(Authority::Observer, "native"));
    assert!(!browser_controls_enabled(Authority::Owner, "managed_codex"));
    assert!(!browser_controls_enabled(Authority::Owner, ""));
}

#[test]
fn browser_findings_are_recorded_by_who_controls() {
    let owner = Authority::Owner;
    assert_eq!(browser_finding(None, owner, "native"), BrowserFinding::Keep);
    assert_eq!(browser_finding(Some(0), owner, "native"), BrowserFinding::Keep);
    assert_eq!(
        browser_finding(Some(1), owner, "native"),
        BrowserFinding::Record(BrowserResolution::Applied)
    );
    assert_eq!(
        browser_finding(Some(2), owner, "native"),
        BrowserFinding::Record(BrowserResolution::NotApplied)
    );
    assert_eq!(
        browser_finding(Some(2), Authority::Observer, "native"),
        BrowserFinding::Refuse(
            "Browser controller authority changed; outcome was not recorded."
        )
    );
}

fn page(session: &str, start: usize, end: usize) -> HistoryPage {
    HistoryPage {
        session_id: session.to_string(),
        messages: vec![],
        start,
        end,
        total: 500,
        older: None,
        newer: None,
    }
}

#[test]
fn saved_page_survives_live_appends_and_live_restores_current_offsets() {
    let mut view = HistoryView::new("session".to_string(), 400, 500);
    assert_eq!(view.older(false), Some(HistoryRequest::Latest { before: Some(400) }));
    let (session, generation) = view.begin();
    assert!(view.is_browsing());
    assert!(view.older(false).is_none());
    assert!(view.finish(&session, generation, Ok(page("session", 300, 400))));
    view.observe(410, 510);
    assert_eq!(view.saved().expect("saved page retained").page.start, 300);
    assert!(view.is_browsing());
    view.live();
    assert!(!view.is_browsing());
    assert!(view.messages().is_none());
    assert_eq!(view.older(false), Some(HistoryRequest::Latest { before: Some(410) }));
}

#[test]
fn desktop_window_omission_at_zero_backend_start_opens_bounded_saved_metadata() {
    let mut view = HistoryView::new("session".to_string(), 0, 200);
    assert!(view.older(false).is_none());
    assert_eq!(view.older(true), Some(HistoryRequest::Latest { before: None }));
    let (session, generation) = view.begin();
    assert!(view.older(true).is_none());
    let messages = (72..200)
        .map(|index| SavedMessage {
            id: format!("session:history:{index}"),
            text: format!("Saved artifact-{index}: binary, 1 byte; metadata only"),
        })
        .collect();
    assert!(view.finish(
        &session,
        generation,
        Ok(HistoryPage {
            session_id: session.clone(),
            messages,
            start: 72,
            end: 200,
            total: 200,
            older: None,
            newer: None,
        })
    ));
    let rows = view.messages().expect("canonical saved page is visible");
    assert_eq!(rows.len(), 128);
    assert!(rows[0].text.contains("artifact-72"));
    assert!(rows[127].text.contains("artifact-199"));
    let copied = RowActions { copy: true, edit: false, retry: false, regenerate: false };
    assert!(rows.iter().all(|row| row.actions == copied));
    assert!(view.older(true).is_none());
    view.live();
    assert_eq!(view.older(true), Some(HistoryRequest::Latest { before: None }));
}

#[test]
fn stale_history_completion_cannot_replace_live_or_another_session() {
    let mut view = HistoryView::new("first".to_string(), 10, 20);
    let (session, generation) = view.begin();
    view.live();
    assert!(!view.finish(&session, generation, Ok(page("first", 0, 10))));
    let (session, generation) = view.begin();
    view.reset("second".to_string(), 20, 30);
    assert!(!view.finish(&session, generation, Err("late error".to_string())));
    let (session, generation) = view.begin();
    assert!(view.finish(&session, generation, Ok(page("first", 0, 10))));
    assert!(view.saved().is_none());
    assert!(view.label().contains("another Conversation"));
}

#[test]
fn superseded_page_and_clear_reject_late_success_without_erasing_a_loaded_page_on_error() {
    let mut view = HistoryView::new("session".to_string(), 400, 500);
    let (session, old) = view.begin();
    let (_, current) = view.begin();
    assert!(!view.finish(&session, old, Ok(page("session", 0, 100))));
    assert!(view.loading());
    assert!(view.finish(&session, current, Ok(page("session", 300, 400))));
    let (_, failed) = view.begin();
    assert!(view.finish(&session, failed, Err("history changed".to_string())));
    assert_eq!(
        view.saved().expect("prior page remains readable after an error").page.start,
        300
    );
    let (_, cleared) = view.begin();
    view.clear(0, 0);
    assert!(!view.finish(&session, cleared, Ok(page("session", 0, 100))));
    assert!(!view.is_browsing());
    assert!(view.older(false).is_none());
}

#[test]
fn history_controls_follow_the_cursors() {
    let mut view = HistoryView::new("session".to_string(), 400, 500);
    let controls = history_controls(&view, true, false);
    assert!(controls.older && !controls.newer && !controls.live);
    let managed = history_controls(&view, false, true);
    assert!(!managed.older && !managed.newer);
    assert_eq!(managed.label, MANAGED_HISTORY);
    let (session, generation) = view.begin();
    let mut loaded = page("session", 300, 400);
    loaded.older = Some("older".to_string());
    loaded.newer = Some("newer".to_string());
    view.finish(&session, generation, Ok(loaded));
    assert_eq!(view.older(false), Some(HistoryRequest::Older("older".to_string())));
    assert_eq!(view.newer(), Some(HistoryRequest::Newer("newer".to_string())));
    let controls = history_controls(&view, true, false);
    assert!(controls.older && controls.newer && controls.live);
}

fn conversation(id: &str, title: &str) -> ConversationNode {
    ConversationNode {
        id: id.to_string(),
        title: title.to_string(),
        state: "idle".to_string(),
        needs_attention: false,
        branch_point: None,
        workspace_id: "w".to_string(),
        workspace_label: "Work".to_string(),
    }
}

fn project(id: &str, archived: bool, conversations: Vec<ConversationNode>) -> ProjectNode {
    ProjectNode {
        id: id.to_string(),
        name: format!("Project {id}"),
        archived,
        workspace_status: WorkspaceStatus::Available,
        workspace_id: Some("w".to_string()),
        workspace_label: "Work".to_string(),
        conversations,
    }
}

fn snapshot() -> NavigationSnapshot {
    NavigationSnapshot {
        projects: vec![
            project("p", false, vec![conversation("c", "First")]),
            project("q", false, vec![]),
            project("r", true, vec![]),
        ],
        ungrouped: vec![conversation("d", "Second")],
        selected_conversation: Some("c".to_string()),
        mini_sidebar: false,
    }
}

#[test]
fn conversations_are_found_where_they_are_grouped() {
    let snapshot = snapshot();
    assert_eq!(project_for_conversation(&snapshot, "c").as_deref(), Some("p"));
    assert_eq!(project_for_conversation(&snapshot, "d"), None);
    assert_eq!(conversation_title(&snapshot, "d"), "Second");
    assert_eq!(project_title(&snapshot, "q"), "Project q");
    assert!(snapshot.conversation("missing").is_none());
    assert!(snapshot.project("r").is_some());
    let sections = sidebar_sections(&snapshot);
    assert_eq!(sections.conversations.len(), 1);
    assert_eq!(sections.projects[0].children.len(), 1);
}

#[test]
fn sidebar_items_name_what_they_select() {
    assert_eq!(
        selected_item(&conversation_item_id("c")),
        Some(SidebarSelection::Conversation("c".to_string()))
    );
    assert_eq!(
        selected_item(&project_item_id("p")),
        Some(SidebarSelection::Project("p".to_string()))
    );
    assert_eq!(selected_item("other"), None);
}

#[test]
fn menus_offer_what_a_selection_allows() {
    let snapshot = snapshot();
    let menu = |selection: SidebarSelection| navigation_menu(&Some(selection), &snapshot);
    let actions = |selection: SidebarSelection| -> Vec<(MenuAction, bool)> {
        menu(selection).entries.iter().map(|entry| (entry.action, entry.enabled)).collect()
    };
    let archived = actions(SidebarSelection::Project("r".to_string()));
    assert!(archived.contains(&(MenuAction::Restore, true)));
    let grouped = actions(SidebarSelection::Conversation("c".to_string()));
    assert!(grouped.contains(&(MenuAction::Ungroup, true)));
    assert_eq!(navigation_menu(&None, &snapshot).entries.len(), 0);
    assert_eq!(move_targets(&snapshot, "d"), vec![0, 1]);
}
