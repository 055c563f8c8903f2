use xana::config::{
    ConnectionRegistry, EgressPolicy, McpAllowlist, McpPrimitiveSelection, McpServer,
    McpServerDeclaration, NamedConnection, OrchestrationLimits, PermissionMode, Profile,
    PublicWebConsent, WebSettings,
};
use xana::mcp::activation::{
    activate_profile_tools, ActivationEvent, ActivationWork, NOT_ACTIVATED,
};
use xana::mcp::{
    activates_server, admit_serving, allowlist, build_application, configured_identity_digest,
    declaration_enabled, list_configured, parse_arguments, resolve_profile_egress,
    resolve_server_egress, DeferredTransport, Disposition, RecipientSource, TransportSpec, KEY_VALUE,
    NO_SERVERS, SERVE_ALLOWLIST, SERVE_WORKSPACE, UNIQUE_NAMES,
};
use xana::outbound::OutboundDataClass;

fn selection(tools: Vec<&str>) -> McpPrimitiveSelection {
    McpPrimitiveSelection {
        tools: tools.into_iter().map(str::to_string).collect(),
        resources: vec![],
        resource_templates: vec![],
        prompts: vec![],
    }
}

fn lazy() -> McpServerDeclaration {
    McpServerDeclaration::Stdio {
        command: "xana-command-that-must-not-exist".to_string(),
        args: vec![],
        environment: vec![],
        cwd: None,
        enabled: true,
        egress_policy: Some("mcp".to_string()),
    }
}

fn registry() -> ConnectionRegistry {
    ConnectionRegistry {
        default_profile: "default".to_string(),
        permission_mode: PermissionMode::Ask,
        connections: vec![NamedConnection {
            name: "local".to_string(),
            kind: "ollama".to_string(),
        }],
        profiles: vec![Profile {
            name: "default".to_string(),
            connection: "local".to_string(),
            model: "qwen".to_string(),
            skills: vec![],
            plugins: vec![],
            mcp_servers: vec!["lazy".to_string()],
            mcp_allowlists: vec![McpAllowlist {
                server: "lazy".to_string(),
                selection: selection(vec!["review"]),
            }],
            external_agents: vec![],
            service_routes: vec![],
            egress_policy: Some("mcp".to_string()),
            permission_mode: None,
            capabilities: None,
            max_tool_rounds: 8,
            orchestration: OrchestrationLimits {
                max_fan_out: 4,
                max_descendants: 16,
                max_concurrency: 2,
                deadline_seconds: 600,
                max_context_tokens: 32000,
                max_report_bytes: 65536,
                max_artifact_bytes: 1048576,
            },
            archived: false,
        }],
        mcp_servers: vec![McpServer { name: "lazy".to_string(), declaration: lazy() }],
        egress_policies: vec![EgressPolicy {
            name: "mcp".to_string(),
            allowed: vec![OutboundDataClass::PromptText, OutboundDataClass::WorkspaceMetadata],
        }],
        web: WebSettings {
            connections: vec![],
            default_connection: None,
            public_web: PublicWebConsent::Ask,
        },
    }
}

fn encoded() -> Vec<Vec<u8>> {
    vec![b"identity".to_vec()]
}

#[test]
fn application_construction_does_not_spawn_stdio_before_guarded_request() {
    let registry = registry();
    let application = build_application(
        &registry,
        &encoded(),
        "/workspace",
        &vec!["lazy".to_string()],
        &registry.profiles[0].mcp_allowlists,
        &registry.egress_policies[0].allowed,
    )
    .expect("construction must remain effect free");
    assert_eq!(application.len(), 1);
    assert_eq!(application[0].allowlist.tools, ["review"]);
    assert!(application[0].enabled);
    assert_eq!(
        application[0].transport,
        TransportSpec::Stdio {
            command: "xana-command-that-must-not-exist".to_string(),
            arguments: vec![],
            environment: vec![],
            directory: "/workspace".to_string(),
        }
    );
    assert_eq!(
        application[0].recipient,
        RecipientSource::Process {
            connection: "lazy".to_string(),
            command: "xana-command-that-must-not-exist".to_string(),
            declaration: b"identity".to_vec(),
        }
    );
    assert_eq!(application[0].user_ceiling.len(), 6);
    assert_eq!(application[0].connection_allowed, registry.egress_policies[0].allowed);
    let mut transport = DeferredTransport::new();
    assert!(transport.must_start());
    transport.note_start(false);
    assert!(transport.must_start());
    transport.note_start(true);
    assert!(!transport.must_start());
}

#[test]
fn profile_activation_skips_unapproved_mcp_recipient_without_spawning() {
    let registry = registry();
    let application = build_application(
        &registry,
        &encoded(),
        "/workspace",
        &vec!["lazy".to_string()],
        &registry.profiles[0].mcp_allowlists,
        &registry.egress_policies[0].allowed,
    )
    .unwrap();
    let servers = application.into_iter().map(|exposure| exposure.server).collect();
    let (mut activation, work) = activate_profile_tools(servers);
    assert_eq!(work, ActivationWork::Ask { server: "lazy".to_string() });
    assert_eq!(activation.step(ActivationEvent::Decided(None)), ActivationWork::Activate);
    assert_eq!(
        activation.step(ActivationEvent::Activated { tools: 0 }),
        ActivationWork::Finish { tools: 0 }
    );
    assert!(!activates_server(Some(Disposition::Undecided)));
    assert!(!activates_server(Some(Disposition::SavedDeny)));
    assert!(activates_server(Some(Disposition::SavedAllow)));
}

#[test]
fn approved_servers_are_contacted_in_order() {
    let (_, work) = activate_profile_tools(vec![]);
    assert_eq!(work, ActivationWork::Finish { tools: 0 });
    let servers = vec!["a".to_string(), "b".to_string()];
    let (mut activation, _) = activate_profile_tools(servers);
    assert_eq!(
        activation.step(ActivationEvent::Decided(Some(Disposition::SavedDeny))),
        ActivationWork::Ask { server: "b".to_string() }
    );
    assert_eq!(activation.step(ActivationEvent::Refreshed), ActivationWork::Ignore);
    assert_eq!(
        activation.step(ActivationEvent::Decided(Some(Disposition::SavedAllow))),
        ActivationWork::Refresh { server: "b".to_string() }
    );
    assert_eq!(
        activation.step(ActivationEvent::NotRefreshed { cause: "no answer".to_string() }),
        ActivationWork::Fail {
            text: "profile MCP server \"b\" is not ready".to_string(),
            cause: Some("no answer".to_string()),
        }
    );
    let (mut activation, _) = activate_profile_tools(vec!["a".to_string()]);
    activation.step(ActivationEvent::Decided(Some(Disposition::SavedAllow)));
    assert_eq!(activation.step(ActivationEvent::Refreshed), ActivationWork::Activate);
    assert_eq!(
        activation.step(ActivationEvent::NotActivated { cause: "clash".to_string() }),
        ActivationWork::Fail {
            text: NOT_ACTIVATED.to_string(),
            cause: Some("clash".to_string()),
        }
    );
    let (mut activation, _) = activate_profile_tools(vec!["a".to_string()]);
    assert_eq!(
        activation.step(ActivationEvent::Failed("locked".to_string())),
        ActivationWork::Fail { text: "locked".to_string(), cause: None }
    );
}

#[test]
fn missing_servers_stop_the_application() {
    let registry = registry();
    let missing = build_application(
        &registry,
        &encoded(),
        "/workspace",
        &vec!["absent".to_string()],
        &vec![],
        &vec![],
    );
    assert!(missing.unwrap_err().contains("\"absent\""));
}

#[test]
fn identities_are_digests_of_what_is_configured() {
    assert_eq!(
        configured_identity_digest(&b"identity".to_vec()),
        blake3::hash(b"identity").to_hex().to_string()
    );
}

#[test]
fn prompt_arguments_are_named_once() {
    let parsed = |arguments: Vec<&str>| {
        parse_arguments(&arguments.into_iter().map(str::to_string).collect())
    };
    assert_eq!(
        parsed(vec!["b=2", "a=1=1"]),
        Ok(vec![
            ("a".to_string(), "1=1".to_string()),
            ("b".to_string(), "2".to_string()),
        ])
    );
    assert_eq!(parsed(vec!["a"]), Err(KEY_VALUE.to_string()));
    assert_eq!(parsed(vec!["=1"]), Err(UNIQUE_NAMES.to_string()));
    assert_eq!(parsed(vec!["a=1", "a=2"]), Err(UNIQUE_NAMES.to_string()));
}

#[test]
fn allowlists_hold_each_name_once_in_order() {
    let list = allowlist(&selection(vec!["search", "review", "search"]));
    assert_eq!(list.tools, ["review", "search"]);
    assert!(list.prompts.is_empty());
}

#[test]
fn policies_decide_what_may_be_sent() {
    let registry = registry();
    assert_eq!(resolve_profile_egress(&registry, Some("mcp")).len(), 2);
    assert_eq!(resolve_profile_egress(&registry, Some("absent")), vec![]);
    assert_eq!(resolve_profile_egress(&registry, None), vec![]);
    assert_eq!(resolve_server_egress(&registry, &lazy()).len(), 2);
    assert!(declaration_enabled(&lazy()));
}

#[test]
fn configured_servers_are_listed() {
    let mut output = String::new();
    list_configured(&registry(), &mut output).unwrap();
    assert!(output.contains("lazy"));
    let mut empty = registry();
    empty.mcp_servers.clear();
    let mut output = String::new();
    list_configured(&empty, &mut output).unwrap();
    assert_eq!(output, NO_SERVERS);
    empty.profiles.clear();
    assert!(list_configured(&empty, &mut output).is_err());
}

#[test]
fn local_servers_serve_documentation_only() {
    let mut registry = registry();
    let allow = vec!["xana_docs".to_string()];
    let admitted = |registry: &ConnectionRegistry, allow: &Vec<String>| {
        admit_serving(true, registry, "default", allow)
    };
    assert_eq!(
        admit_serving(false, &registry, "default", &allow),
        Err(SERVE_WORKSPACE.to_string())
    );
    assert_eq!(
        admit_serving(true, &registry, "absent", &allow),
        Err("unknown MCP server profile \"absent\"".to_string())
    );
    assert!(admitted(&registry, &allow).unwrap_err().contains("permission_mode = \"allow\""));
    registry.profiles[0].permission_mode = Some(PermissionMode::Allow);
    assert_eq!(
        admitted(&registry, &vec!["shell".to_string()]),
        Err(SERVE_ALLOWLIST.to_string())
    );
    assert_eq!(admitted(&registry, &vec![]), Err(SERVE_ALLOWLIST.to_string()));
    assert_eq!(admitted(&registry, &allow), Ok(()));
    registry.profiles[0].capabilities = Some(vec![]);
    assert!(admitted(&registry, &allow).unwrap_err().contains("xana.docs.read"));
    registry.profiles[0].capabilities = Some(vec!["xana.docs.read".to_string()]);
    assert_eq!(admitted(&registry, &allow), Ok(()));
    registry.profiles[0].archived = true;
    assert!(admitted(&registry, &allow).unwrap_err().ends_with("is archived"));
}

#[test]
fn servers_are_listed_in_the_order_of_their_names() {
    let mut registry = registry();
    registry.mcp_servers.insert(
        0,
        McpServer {
            name: "docs".to_string(),
            declaration: McpServerDeclaration::StreamableHttp {
                url: "https://docs.example/mcp".to_string(),
                credential: None,
                enabled: false,
                egress_policy: None,
            },
        },
    );
    assert!(registry.is_keyed());
    let mut output = String::new();
    list_configured(&registry, &mut output).unwrap();
    assert_eq!(
        output,
        "docs\tstreamable_http\tdisabled\tnot selected\t0 primitive(s)\n\
         lazy\tstdio\tenabled\tselected\t1 primitive(s)\n"
    );
    registry.mcp_servers[1].name = "docs".to_string();
    assert!(!registry.is_keyed());
    registry.mcp_servers[1].name = "lazy".to_string();
    let twice = registry.profiles[0].mcp_allowlists[0].clone();
    registry.profiles[0].mcp_allowlists.push(twice);
    assert!(!registry.is_keyed());
    registry.profiles[0].mcp_allowlists.pop();
    registry.mcp_servers[1].declaration = McpServerDeclaration::Stdio {
        command: "serve".to_string(),
        args: vec![],
        environment: vec![
            ("B".to_string(), "1".to_string()),
            ("A".to_string(), "2".to_string()),
        ],
        cwd: None,
        enabled: true,
        egress_policy: None,
    };
    assert!(!registry.is_keyed());
}
