use xana::capabilities::{
    build_report, permission_label, write_text, CapabilityReport, CatalogCommand, PresentationFacts,
};
use xana::config::{
    ConnectionRegistry, NamedConnection, OrchestrationLimits, PermissionMode, Profile,
    PublicWebConsent, WebSettings,
};

fn configured_registry() -> ConnectionRegistry {
    ConnectionRegistry {
        default_profile: "default".to_string(),
        permission_mode: PermissionMode::Ask,
        connections: vec![NamedConnection {
            name: "local".to_string(),
            kind: "ollama".to_string(),
        }],
        profiles: vec![Profile {
            name: "default".to_string(),
            connection: "local".to_string(),
            model: "qwen".to_string(),
            skills: vec!["review".to_string()],
            plugins: vec![],
            mcp_servers: vec![],
            mcp_allowlists: vec![],
            external_agents: vec![],
            service_routes: vec![],
            egress_policy: None,
            permission_mode: None,
            capabilities: None,
            max_tool_rounds: 8,
            orchestration: OrchestrationLimits {
                max_fan_out: 4,
                max_descendants: 16,
                max_concurrency: 2,
                deadline_seconds: 600,
                max_context_tokens: 32000,
                max_report_bytes: 65536,
                max_artifact_bytes: 1048576,
            },
            archived: false,
        }],
        mcp_servers: vec![],
        egress_policies: vec![],
        web: WebSettings {
            connections: vec![],
            default_connection: None,
            public_web: PublicWebConsent::Ask,
        },
    }
}

fn catalog() -> Vec<CatalogCommand> {
    let command = |id: &str, authority: u8, available: bool| CatalogCommand {
        id: id.to_string(),
        family: "setup".to_string(),
        mode: "local".to_string(),
        authority,
        available,
        availability: "available".to_string(),
        reason: None,
    };
    vec![
        command("setup.run.v1", 1, true),
        command("host.stop.v1", 3, true),
        command("voice.start.v1", 1, false),
    ]
}

fn report_of(registry: Option<&ConnectionRegistry>, catalog_version: u16) -> CapabilityReport {
    build_report(
        registry,
        "workspace",
        "linux",
        "x86_64",
        catalog_version,
        2,
        &catalog(),
        PresentationFacts {
            plain: "{\"color\":false}".to_string(),
            tui_baseline: "{\"color\":true}".to_string(),
            desktop: "{\"windows\":true}".to_string(),
        },
        vec!["working".to_string(), "waiting".to_string()],
    )
}

#[test]
fn missing_setup_is_reported_without_network_or_failure() {
    let report = report_of(None, 1);
    assert_eq!(report.selection.configuration, "missing_or_invalid");
    assert_eq!(report.missing_setup, ["configuration"]);
    assert!(report.commands.iter().any(|command| {
        command.id == "setup.run.v1" && command.available && command.authorized
    }));
}

#[test]
fn configured_report_keeps_selection_and_availability_separate() {
    let registry = configured_registry();
    let report = report_of(Some(&registry), 1);
    assert_eq!(report.selection.connection.as_deref(), Some("local"));
    assert_eq!(report.selection.model.as_deref(), Some("qwen"));
    assert_eq!(report.workspace.permission, Some("ask"));
    assert!(report.commands.iter().all(|command| !command.selected));
    assert!(!report.commands[1].authorized);
    assert_eq!(report.selection.credential_readiness, "not_probed");
}

#[test]
fn report_is_readable() {
    let registry = configured_registry();
    let report = report_of(Some(&registry), 7);
    assert_eq!(report.version, 7);
    let mut text = String::new();
    write_text(&report, &mut text);
    assert!(text.starts_with("Xana capabilities here\n  Platform:     linux / x86_64\n"));
    assert!(text.contains("  Permission:   ask (selected policy; each action is still checked)\n"));
    assert!(text.contains("  Extensions:   1 skill(s), 0 plugin(s), 0 MCP server(s)"));
    assert!(text.contains("configuration is valid"));
    let missing = report_of(None, 1);
    let mut text = String::new();
    write_text(&missing, &mut text);
    assert!(text.contains("  Permission:   not configured"));
    assert!(text.contains("  Readiness:    run `xana setup`\n"));
    assert_eq!(permission_label(PermissionMode::Deny), "deny");
}

#[test]
fn report_carries_presentation_and_conversation_states() {
    let report = report_of(None, 1);
    assert_eq!(report.presentation.plain, "{\"color\":false}");
    assert_eq!(report.presentation.tui_baseline, "{\"color\":true}");
    assert_eq!(report.presentation.desktop, "{\"windows\":true}");
    assert_eq!(report.conversation_states, ["working", "waiting"]);
}
