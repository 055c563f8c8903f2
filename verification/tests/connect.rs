use xana::config::{
    ConnectionRegistry, NamedConnection, OrchestrationLimits, PermissionMode, Profile,
    PublicWebConsent, WebSettings,
};
use xana::connect::{
    mcp_readiness, run_focused_service, write_hub, write_installed_route, write_removed_route,
    ConnectArgs, ConnectIntegration, FocusedChange, FocusedServiceKind,
    FocusedServiceProviderChoice, HubReadiness, PublicWebChoice, WebProviderChoice,
};
use xana::dialogue::{Dialogue, Stop};
use xana::outbound::OutboundDataClass;
use xana::web::run_web;

fn fixture() -> ConnectionRegistry {
    ConnectionRegistry {
        default_profile: "default".to_owned(),
        permission_mode: PermissionMode::Ask,
        connections: vec![NamedConnection { name: "local".to_owned(), kind: "ollama".to_owned() }],
        profiles: vec![Profile {
            name: "default".to_owned(),
            connection: "local".to_owned(),
            model: "qwen".to_owned(),
            skills: Vec::new(),
            plugins: Vec::new(),
            mcp_servers: Vec::new(),
            mcp_allowlists: Vec::new(),
            external_agents: Vec::new(),
            service_routes: Vec::new(),
            egress_policy: None,
            permission_mode: None,
            capabilities: None,
            max_tool_rounds: 8,
            orchestration: OrchestrationLimits {
                max_fan_out: 4,
                max_descendants: 16,
                max_concurrency: 2,
                deadline_seconds: 600,
                max_context_tokens: 32000,
                max_report_bytes: 65536,
                max_artifact_bytes: 1048576,
            },
            archived: false,
        }],
        mcp_servers: Vec::new(),
        egress_policies: Vec::new(),
        web: WebSettings {
            connections: Vec::new(),
            default_connection: None,
            public_web: PublicWebConsent::Ask,
        },
    }
}

fn empty_args() -> ConnectArgs {
    ConnectArgs {
        web_provider: None,
        public_web: None,
        integration: Some(ConnectIntegration::Vision),
        route: None,
        service_connection: None,
        service_provider: None,
        model: None,
        credential_env: None,
        base_url: None,
        profile: None,
        make_default: false,
        remove: false,
        yes: false,
    }
}

fn lines(text: &str) -> Dialogue {
    Dialogue::new(text.split_inclusive('\n').map(str::to_owned).collect(), true)
}

fn nothing() -> Dialogue {
    Dialogue::new(Vec::new(), true)
}

#[test]
fn search_setup_retains_chat_and_other_search_connections_without_network() {
    let before = fixture();
    let mut after = before.clone();
    let mut args = empty_args();
    args.integration = Some(ConnectIntegration::Web);
    args.web_provider = Some(WebProviderChoice::ExaMcp);
    args.yes = true;
    assert_eq!(run_web(&args, &mut after, false, &mut nothing()), Ok(true));
    args.web_provider = Some(WebProviderChoice::Brave);
    args.credential_env = Some("XANA_TEST_UNSET_BRAVE_KEY".into());
    assert_eq!(run_web(&args, &mut after, false, &mut nothing()), Ok(true));
    assert_eq!(after.connections, before.connections);
    assert_eq!(after.default_profile, before.default_profile);
    let profile = &after.profiles[0];
    let mut original = before.profiles[0].clone();
    original.egress_policy = profile.egress_policy.clone();
    assert_eq!(
        profile, &original,
        "only the reviewed disclosure policy changes"
    );
    let policy = after
        .egress_policies
        .iter()
        .find(|policy| Some(&policy.name) == profile.egress_policy.as_ref())
        .unwrap();
    assert_eq!(policy.allowed, vec![OutboundDataClass::PromptText]);
    assert_eq!(after.web.connections.len(), 2);
    assert_eq!(after.web.default_connection.as_deref(), Some("brave"));
    assert_eq!(
        after.web.selected().unwrap().credential_env.as_deref(),
        Some("XANA_TEST_UNSET_BRAVE_KEY")
    );
    args.web_provider = Some(WebProviderChoice::Disabled);
    assert_eq!(run_web(&args, &mut after, false, &mut nothing()), Ok(true));
    assert_eq!(after.web.connections.len(), 2);
    assert!(after.web.selected().is_none());
}

#[test]
fn public_web_preference_is_explicit_and_does_not_select_search() {
    let mut config = fixture();
    let mut args = empty_args();
    args.integration = Some(ConnectIntegration::Web);
    args.public_web = Some(PublicWebChoice::Allow);
    args.yes = true;
    assert_eq!(run_web(&args, &mut config, false, &mut nothing()), Ok(true));
    assert_eq!(config.web.public_web, PublicWebConsent::Allow);
    assert!(config.web.selected().is_none());
}

#[test]
fn narrowing_web_settings_preserves_restrictive_profiles_and_cancel_is_atomic() {
    let original = fixture();
    let mut narrowed = original.clone();
    let mut args = empty_args();
    args.integration = Some(ConnectIntegration::Web);
    args.yes = true;
    args.public_web = Some(PublicWebChoice::Ask);
    assert_eq!(run_web(&args, &mut narrowed, false, &mut nothing()), Ok(true));
    args.public_web = None;
    args.web_provider = Some(WebProviderChoice::Disabled);
    assert_eq!(run_web(&args, &mut narrowed, false, &mut nothing()), Ok(true));
    assert_eq!(narrowed.profiles, original.profiles);
    assert_eq!(narrowed.egress_policies, original.egress_policies);
    let before = narrowed.clone();
    args.yes = false;
    args.web_provider = Some(WebProviderChoice::PagesOnly);
    let mut dialogue = lines("n\n");
    assert_eq!(run_web(&args, &mut narrowed, true, &mut dialogue), Ok(false));
    assert_eq!(narrowed, before);
    let output = dialogue.output();
    assert!(output.contains("Profile default"));
    assert!(output.contains("add prompt_text"));
    assert!(output.contains("No changes made"));
}

#[test]
fn guided_vision_setup_commits_one_reviewed_route_and_backup() {
    let mut dialogue = lines("1\n\n\nvision-model\n\n\nY\n");
    let change = run_focused_service(
        &empty_args(),
        FocusedServiceKind::Vision,
        "default",
        true,
        &mut dialogue,
    )
    .unwrap();

    let FocusedChange::Install(route) = change else {
        panic!("the reviewed route is installed");
    };
    assert_eq!(route.route, "describe");
    assert_eq!(route.model, "vision-model");
    assert_eq!(route.operation, "vision.analyze");
    assert_eq!(route.description, "Xana vision.analyze route");
    assert_eq!(route.adapter, "openai.vision");
    assert_eq!(route.connection, "openai-vision");
    assert_eq!(route.credential_env, "OPENAI_API_KEY");
    assert_eq!(route.profile, "default");
    assert!(route.make_default);
    let receipt = dialogue.output();
    assert!(receipt.contains("Review focused-service setup"));
    assert!(receipt.contains("prompt_text + selected_artifacts"));
    let mut output = String::new();
    write_installed_route(FocusedServiceKind::Vision, "describe", "config.toml.bak", &mut output);
    assert!(output.starts_with("Focused-service route \"describe\" installed atomically."));
    assert!(output.contains("Backup: config.toml.bak"));
}

#[test]
fn cancelled_guided_setup_preserves_config_and_creates_no_backup() {
    let mut dialogue = lines("1\n\n\nvision-model\n\n\nn\n");
    let change = run_focused_service(
        &empty_args(),
        FocusedServiceKind::Vision,
        "default",
        true,
        &mut dialogue,
    )
    .unwrap();
    assert_eq!(change, FocusedChange::Unchanged);
    assert!(dialogue.output().ends_with("No changes made.\n"));
    assert!(!dialogue.output().contains("Backup"));
}

#[test]
fn guided_setup_waits_for_the_next_line_and_ends_with_the_input() {
    let mut waiting = Dialogue::new(vec!["1\n".to_owned()], false);
    let stop = run_focused_service(
        &empty_args(),
        FocusedServiceKind::Image,
        "default",
        true,
        &mut waiting,
    );
    assert_eq!(stop, Err(Stop::Waiting));
    assert!(waiting.output().ends_with("Route name [illustrate]: "));
    let stop = run_focused_service(
        &empty_args(),
        FocusedServiceKind::Image,
        "default",
        true,
        &mut lines("1\n"),
    );
    assert_eq!(
        stop,
        Err(Stop::Failed(
            "focused-service setup cancelled at end of input; no changes made".to_owned()
        ))
    );
    let stop = run_focused_service(
        &empty_args(),
        FocusedServiceKind::Image,
        "default",
        true,
        &mut lines("3\nx\n\n9\n"),
    );
    assert_eq!(
        stop,
        Err(Stop::Failed(
            "too many invalid focused-service provider selections".to_owned()
        ))
    );
}

#[test]
fn noninteractive_setup_names_what_is_missing() {
    let failed = |args: &ConnectArgs| {
        match run_focused_service(args, FocusedServiceKind::Image, "default", false, &mut nothing())
        {
            Err(Stop::Failed(text)) => text,
            other => panic!("unexpected {other:?}"),
        }
    };
    let mut args = empty_args();
    assert_eq!(
        failed(&args),
        "noninteractive focused-service setup requires --service-provider"
    );
    args.service_provider = Some(FocusedServiceProviderChoice::OpenRouter);
    assert_eq!(
        failed(&args),
        "noninteractive focused-service setup requires --route-name"
    );
    args.route = Some("  ".to_owned());
    assert_eq!(
        failed(&args),
        "Route name must be 1..=512 bytes without control characters"
    );
    args.route = Some("draw".to_owned());
    args.service_connection = Some("c".to_owned());
    args.model = Some("m".to_owned());
    args.credential_env = Some("KEY".to_owned());
    args.profile = Some("default".to_owned());
    assert_eq!(
        failed(&args),
        "noninteractive focused-service changes require --yes"
    );
    args.remove = true;
    args.route = None;
    assert_eq!(failed(&args), "focused-service removal requires --route ROUTE");
    args.route = Some("draw".to_owned());
    args.yes = true;
    assert_eq!(
        run_focused_service(&args, FocusedServiceKind::Image, "default", false, &mut nothing()),
        Ok(FocusedChange::Remove("draw".to_owned()))
    );
    let mut output = String::new();
    write_removed_route("draw", "b", &mut output);
    assert_eq!(
        output,
        "Removed focused-service route \"draw\" atomically.\nBackup: b\n"
    );
}

#[test]
fn entered_lines_are_bounded() {
    let long = format!("{}\n", "x".repeat(2048));
    let stop = run_focused_service(
        &empty_args(),
        FocusedServiceKind::Image,
        "default",
        true,
        &mut lines(&long),
    );
    assert_eq!(
        stop,
        Err(Stop::Failed(
            "focused-service setup input exceeds the 2 KiB field limit".to_owned()
        ))
    );
}

#[test]
fn integration_hub_reports_readiness_and_ordered_mcp_prerequisites() {
    let registry = fixture();
    let (mcp_configured, mcp_exposed) = mcp_readiness(&registry);
    let readiness = HubReadiness {
        plugins: Some((0, 0)),
        mcp_configured,
        mcp_exposed,
        external_agents: Some((0, 0)),
    };
    let mut args = empty_args();
    args.integration = Some(ConnectIntegration::Mcp);
    let mut rendered = String::new();

    write_hub(&args, args.integration, &readiness, &mut rendered).unwrap();

    assert!(rendered.contains("Current readiness"));
    assert!(rendered.contains("MCP clients     configured=0 exposed_by_profiles=0"));
    assert!(rendered.contains("1. xana mcp add-stdio"));
    assert!(rendered.contains("2. xana mcp refresh <SERVER>"));
    assert!(rendered.contains("Transport, profile exposure, egress, and primitive allowlists"));
}

#[test]
fn integration_hub_reports_corrupt_private_state_instead_of_zero_counts() {
    let readiness = HubReadiness {
        plugins: None,
        mcp_configured: 0,
        mcp_exposed: 0,
        external_agents: Some((0, 0)),
    };
    let mut args = empty_args();
    args.integration = Some(ConnectIntegration::Plugin);
    let mut rendered = String::new();

    write_hub(&args, args.integration, &readiness, &mut rendered).unwrap();

    assert!(rendered.contains("plugins         unavailable"));
    assert!(rendered.contains("xana doctor"));
    assert!(!rendered.contains("installed=0 healthy=0"));
    args.yes = true;
    assert_eq!(
        write_hub(&args, None, &readiness, &mut rendered),
        Err(
            "focused-service setup options require `xana connect image` or `xana connect vision`"
                .to_owned()
        )
    );
}

#[test]
fn web_setup_refuses_to_overwrite_a_policy_and_needs_a_choice() {
    let mut registry = fixture();
    let mut args = empty_args();
    args.yes = true;
    assert_eq!(
        run_web(&args, &mut registry, false, &mut nothing()),
        Err(Stop::Failed(
            "web setup requires --web-provider or --public-web".to_owned()
        ))
    );
    args.public_web = Some(PublicWebChoice::Allow);
    registry.egress_policies.push(xana::config::EgressPolicy {
        name: "default-web".to_owned(),
        allowed: Vec::new(),
    });
    let before = registry.clone();
    assert_eq!(
        run_web(&args, &mut registry, false, &mut nothing()),
        Err(Stop::Failed(
            "egress policy \"default-web\" exists already; review it before web setup".to_owned()
        ))
    );
    assert_eq!(registry, before);
    registry.default_profile = "other".to_owned();
    assert_eq!(
        run_web(&args, &mut registry, false, &mut nothing()),
        Err(Stop::Failed("default profile is missing".to_owned()))
    );
}

#[test]
fn web_setup_keeps_names_in_order() {
    let mut registry = fixture();
    for name in ["archive", "zeta"] {
        registry.egress_policies.push(xana::config::EgressPolicy {
            name: name.to_owned(),
            allowed: Vec::new(),
        });
    }
    assert!(registry.is_keyed());
    let mut args = empty_args();
    args.yes = true;
    args.web_provider = Some(WebProviderChoice::ExaMcp);
    assert_eq!(run_web(&args, &mut registry, false, &mut nothing()), Ok(true));
    args.web_provider = Some(WebProviderChoice::Brave);
    assert_eq!(run_web(&args, &mut registry, false, &mut nothing()), Ok(true));
    let policies: Vec<&str> =
        registry.egress_policies.iter().map(|policy| policy.name.as_str()).collect();
    assert_eq!(policies, ["archive", "default-web", "zeta"]);
    let searches: Vec<&str> =
        registry.web.connections.iter().map(|connection| connection.name.as_str()).collect();
    assert_eq!(searches, ["brave", "exa"]);
    assert!(registry.is_keyed());
    registry.egress_policies.swap(0, 1);
    assert!(!registry.is_keyed());
}
