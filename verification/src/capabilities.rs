//! What can be done here: a report made offline from the configuration.

use crate::config::{
    find_profile, found_profiles_have_the_name, profile_named, ConnectionRegistry,
    PermissionMode, Profile,
};
use crate::text::{
    beginnings_are_held, beginnings_begin_alike, copy_list, decimal, decimal_text, ends_occur,
    occurs, option_view,
};
use vstd::prelude::*;
use vstd::string::*;

verus! {

/// The version of the report's form.
pub const REPORT_VERSION: u16 = 1;

/// A command of the catalog, and whether it is available in this context.
#[derive(Debug, PartialEq, Eq)]
pub struct CatalogCommand {
    pub id: String,
    pub family: String,
    pub mode: String,
    pub authority: u8,
    pub available: bool,
    pub availability: String,
    pub reason: Option<String>,
}

/// What is reported of a command.
#[derive(Debug, PartialEq, Eq)]
pub struct CommandFact {
    pub id: String,
    pub family: String,
    pub mode: String,
    pub available: bool,
    pub availability: String,
    pub reason: Option<String>,
    pub selected: bool,
    pub authorized: bool,
}

/// What is reported of the host, which is always this machine.
#[derive(Debug, PartialEq, Eq)]
pub struct HostFacts {
    pub location: &'static str,
    pub execution: &'static str,
    pub authority: &'static str,
}

/// What is reported of how integrations are contained.
#[derive(Debug, PartialEq, Eq)]
pub struct ContainmentFacts {
    pub skills_and_plugins: &'static str,
    pub supervised_processes: &'static str,
    pub remote_integrations: &'static str,
    pub os_or_remote_isolation: &'static str,
}

/// What is reported of the workspace.
#[derive(Debug, PartialEq, Eq)]
pub struct WorkspaceFacts {
    pub path: String,
    pub permission: Option<&'static str>,
    pub permission_selected: bool,
}

/// What is selected.
#[derive(Debug, PartialEq, Eq)]
pub struct SelectionFacts {
    pub configuration: &'static str,
    pub profile: Option<String>,
    pub connection: Option<String>,
    pub model: Option<String>,
    pub credential_readiness: &'static str,
}

/// What the selected profile integrates.
#[derive(Debug, PartialEq, Eq)]
pub struct IntegrationFacts {
    pub configured_connections: usize,
    pub selected_skills: Vec<String>,
    pub selected_plugins: Vec<String>,
    pub selected_mcp_servers: Vec<String>,
    pub selected_external_agents: Vec<String>,
    pub selected_focused_routes: Vec<String>,
}

/// What each way of presenting can show, as JSON.
#[derive(Debug, PartialEq, Eq)]
pub struct PresentationFacts {
    pub plain: String,
    pub tui_baseline: String,
    pub desktop: String,
}

/// The report.
#[derive(Debug, PartialEq, Eq)]
pub struct CapabilityReport {
    pub version: u16,
    pub os: String,
    pub architecture: String,
    pub host: HostFacts,
    pub workspace: WorkspaceFacts,
    pub selection: SelectionFacts,
    pub integrations: IntegrationFacts,
    pub containment: ContainmentFacts,
    pub presentation: PresentationFacts,
    pub commands: Vec<CommandFact>,
    pub conversation_states: Vec<String>,
    pub missing_setup: Vec<&'static str>,
}

/// The word for a permission.
pub open spec fn permission_word(permission: PermissionMode) -> Seq<char> {
    match permission {
        PermissionMode::Deny => "deny"@,
        PermissionMode::Ask => "ask"@,
        PermissionMode::Allow => "allow"@,
    }
}

/// The word for a permission.
pub fn permission_label(permission: PermissionMode) -> (label: &'static str)
    ensures
        label@ == permission_word(permission),
{
    match permission {
        PermissionMode::Deny => "deny",
        PermissionMode::Ask => "ask",
        PermissionMode::Allow => "allow",
    }
}

/// Whether a fact is that of a command. Nothing is selected by being available,
/// nor authorized by being available.
pub open spec fn states_command(authority: u8, command: CatalogCommand, fact: CommandFact) -> bool {
    &&& fact.id == command.id
    &&& fact.family == command.family
    &&& fact.mode == command.mode
    &&& fact.available == command.available
    &&& fact.availability == command.availability
    &&& fact.reason == command.reason
    &&& fact.selected == false
    &&& fact.authorized == (authority >= command.authority)
}

/// Whether the selection and the integrations are those of a profile.
pub open spec fn states_profile(
    profile: Option<Profile>,
    selection: SelectionFacts,
    integrations: IntegrationFacts,
) -> bool {
    match profile {
        Some(profile) => {
            &&& selection.connection == Some(profile.connection)
            &&& selection.model == Some(profile.model)
            &&& integrations.selected_skills@ == profile.skills@
            &&& integrations.selected_plugins@ == profile.plugins@
            &&& integrations.selected_mcp_servers@ == profile.mcp_servers@
            &&& integrations.selected_external_agents@ == profile.external_agents@
            &&& integrations.selected_focused_routes@ == profile.service_routes@
        },
        None => {
            &&& selection.connection is None
            &&& selection.model is None
            &&& integrations.selected_skills@.len() == 0
            &&& integrations.selected_plugins@.len() == 0
            &&& integrations.selected_mcp_servers@.len() == 0
            &&& integrations.selected_external_agents@.len() == 0
            &&& integrations.selected_focused_routes@.len() == 0
        },
    }
}

/// Whether a report is that of a configuration.
pub open spec fn reports(
    registry: Option<ConnectionRegistry>,
    workspace: Seq<char>,
    authority: u8,
    catalog: Seq<CatalogCommand>,
    presentation: PresentationFacts,
    states: Seq<String>,
    report: CapabilityReport,
) -> bool {
    &&& report.presentation == presentation
    &&& report.conversation_states@ == states
    &&& report.workspace.path@ == workspace
    &&& report.workspace.permission_selected == (registry is Some)
    &&& report.selection.credential_readiness@ == "not_probed"@
    &&& report.commands@.len() == catalog.len()
    &&& forall|i: int|
        0 <= i < catalog.len() ==> states_command(authority, catalog[i], #[trigger] report.commands@[i])
    &&& report.host.location@ == "local_machine"@
    &&& report.host.execution@ == "application_owned"@
    &&& report.host.authority@ == "local_owner"@
    &&& report.containment.skills_and_plugins@ == "cooperative_consent"@
    &&& report.containment.supervised_processes@ == "integration_specific"@
    &&& report.containment.remote_integrations@ == "remote_boundary"@
    &&& report.containment.os_or_remote_isolation@ == "not_inferred"@
    &&& match registry {
        Some(registry) => {
            &&& report.selection.configuration@ == "valid"@
            &&& report.workspace.permission matches Some(label)
            &&& label@ == permission_word(registry.permission_mode)
            &&& report.selection.profile == Some(registry.default_profile)
            &&& report.integrations.configured_connections == registry.connections@.len()
            &&& states_profile(
                profile_named(registry.profiles@, registry.default_profile@),
                report.selection,
                report.integrations,
            )
            &&& report.missing_setup@.len() == 0
        },
        None => {
            &&& report.selection.configuration@ == "missing_or_invalid"@
            &&& report.workspace.permission is None
            &&& report.selection.profile is None
            &&& report.integrations.configured_connections == 0
            &&& states_profile(None, report.selection, report.integrations)
            &&& report.missing_setup@.len() == 1
            &&& report.missing_setup@[0]@ == "configuration"@
        },
    }
}

fn state_commands(authority: u8, catalog: &Vec<CatalogCommand>) -> (facts: Vec<CommandFact>)
    ensures
        facts@.len() == catalog@.len(),
        forall|i: int|
            0 <= i < catalog@.len() ==> states_command(authority, catalog@[i], #[trigger] facts@[i]),
{
    let mut facts: Vec<CommandFact> = Vec::new();
    let mut i: usize = 0;
    while i < catalog.len()
        invariant
            i <= catalog@.len(),
            facts@.len() == i,
            forall|j: int| 0 <= j < i ==> states_command(authority, catalog@[j], #[trigger] facts@[j]),
        decreases catalog@.len() - i,
    {
        let command = &catalog[i];
        facts.push(
            CommandFact {
                id: command.id.clone(),
                family: command.family.clone(),
                mode: command.mode.clone(),
                available: command.available,
                availability: command.availability.clone(),
                reason: crate::text::copy_option(&command.reason),
                selected: false,
                authorized: authority >= command.authority,
            },
        );
        i += 1;
    }
    facts
}

/// Makes the report. Neither the network nor a credential is looked at.
pub fn build_report(
    registry: Option<&ConnectionRegistry>,
    workspace: &str,
    os: &str,
    architecture: &str,
    catalog_version: u16,
    authority: u8,
    catalog: &Vec<CatalogCommand>,
    presentation: PresentationFacts,
    conversation_states: Vec<String>,
) -> (report: CapabilityReport)
    ensures
        report.version == (if catalog_version > REPORT_VERSION {
            catalog_version
        } else {
            REPORT_VERSION
        }),
        report.os@ == os@,
        report.architecture@ == architecture@,
        reports(
            (match registry {
                Some(registry) => Some(*registry),
                None => None,
            }),
            workspace@,
            authority,
            catalog@,
            presentation,
            conversation_states@,
            report,
        ),
{
    let mut selection = SelectionFacts {
        configuration: "missing_or_invalid",
        profile: None,
        connection: None,
        model: None,
        credential_readiness: "not_probed",
    };
    let mut integrations = IntegrationFacts {
        configured_connections: 0,
        selected_skills: Vec::new(),
        selected_plugins: Vec::new(),
        selected_mcp_servers: Vec::new(),
        selected_external_agents: Vec::new(),
        selected_focused_routes: Vec::new(),
    };
    let mut permission: Option<&'static str> = None;
    let mut missing_setup: Vec<&'static str> = Vec::new();
    match registry {
        Some(registry) => {
            selection.configuration = "valid";
            selection.profile = Some(registry.default_profile.clone());
            permission = Some(permission_label(registry.permission_mode));
            integrations.configured_connections = registry.connections.len();
            if let Some(at) = find_profile(&registry.profiles, registry.default_profile.as_str()) {
                let profile = &registry.profiles[at];
                selection.connection = Some(profile.connection.clone());
                selection.model = Some(profile.model.clone());
                integrations.selected_skills = copy_list(&profile.skills);
                integrations.selected_plugins = copy_list(&profile.plugins);
                integrations.selected_mcp_servers = copy_list(&profile.mcp_servers);
                integrations.selected_external_agents = copy_list(&profile.external_agents);
                integrations.selected_focused_routes = copy_list(&profile.service_routes);
            }
        },
        None => {
            missing_setup.push("configuration");
        },
    }
    CapabilityReport {
        version: if catalog_version > REPORT_VERSION {
            catalog_version
        } else {
            REPORT_VERSION
        },
        os: os.to_owned(),
        architecture: architecture.to_owned(),
        host: HostFacts {
            location: "local_machine",
            execution: "application_owned",
            authority: "local_owner",
        },
        workspace: WorkspaceFacts {
            path: workspace.to_owned(),
            permission,
            permission_selected: registry.is_some(),
        },
        selection,
        integrations,
        containment: ContainmentFacts {
            skills_and_plugins: "cooperative_consent",
            supervised_processes: "integration_specific",
            remote_integrations: "remote_boundary",
            os_or_remote_isolation: "not_inferred",
        },
        presentation,
        commands: state_commands(authority, catalog),
        conversation_states,
        missing_setup,
    }
}

/// What is shown of something that may not be selected.
pub open spec fn shown_selection(name: Option<Seq<char>>) -> Seq<char> {
    match name {
        Some(name) => name,
        None => "not selected"@,
    }
}

fn show_selection(name: &Option<String>) -> (shown: &str)
    ensures
        shown@ == shown_selection(option_view(*name)),
{
    match name {
        Some(name) => name.as_str(),
        None => "not selected",
    }
}

/// The report as text.
pub open spec fn report_text(report: CapabilityReport) -> Seq<char> {
    "Xana capabilities here\n  Platform:     "@ + report.os@ + " / "@ + report.architecture@
        + "\n  Host:         "@ + report.host.location@ + " / "@ + report.host.execution@
        + "\n  Workspace:    "@ + report.workspace.path@ + "\n  Permission:   "@ + (
    match report.workspace.permission {
        Some(label) => label@,
        None => "not configured"@,
    }) + " (selected policy; each action is still checked)\n  Profile:      "@ + shown_selection(
        option_view(report.selection.profile),
    ) + "\n  Connection:   "@ + shown_selection(option_view(report.selection.connection))
        + "\n  Model:        "@ + shown_selection(option_view(report.selection.model))
        + "\n  Extensions:   "@ + decimal(report.integrations.selected_skills@.len())
        + " skill(s), "@ + decimal(report.integrations.selected_plugins@.len())
        + " plugin(s), "@ + decimal(report.integrations.selected_mcp_servers@.len())
        + " MCP server(s), "@ + decimal(report.integrations.selected_external_agents@.len())
        + " external agent(s), "@ + decimal(report.integrations.selected_focused_routes@.len())
        + " focused route(s)\n"@ + (if report.missing_setup@.len() == 0 {
        "  Readiness:    configuration is valid; credentials and network were not probed\n"@
    } else {
        "  Readiness:    run `xana setup`\n"@
    })
        + "\nAvailability is not permission or selection. Use `xana capabilities --json` for stable command and presentation facts.\n"@
}

/// Writes the report as text.
pub fn write_text(report: &CapabilityReport, output: &mut String)
    ensures
        final(output)@ == old(output)@ + report_text(*report),
{
    let mut text = "Xana capabilities here\n  Platform:     ".to_owned();
    text.append(report.os.as_str());
    text.append(" / ");
    text.append(report.architecture.as_str());
    text.append("\n  Host:         ");
    text.append(report.host.location);
    text.append(" / ");
    text.append(report.host.execution);
    text.append("\n  Workspace:    ");
    text.append(report.workspace.path.as_str());
    text.append("\n  Permission:   ");
    text.append(
        match report.workspace.permission {
            Some(label) => label,
            None => "not configured",
        },
    );
    text.append(" (selected policy; each action is still checked)\n  Profile:      ");
    text.append(show_selection(&report.selection.profile));
    text.append("\n  Connection:   ");
    text.append(show_selection(&report.selection.connection));
    text.append("\n  Model:        ");
    text.append(show_selection(&report.selection.model));
    text.append("\n  Extensions:   ");
    text.append(decimal_text(report.integrations.selected_skills.len() as u64).as_str());
    text.append(" skill(s), ");
    text.append(decimal_text(report.integrations.selected_plugins.len() as u64).as_str());
    text.append(" plugin(s), ");
    text.append(decimal_text(report.integrations.selected_mcp_servers.len() as u64).as_str());
    text.append(" MCP server(s), ");
    text.append(decimal_text(report.integrations.selected_external_agents.len() as u64).as_str());
    text.append(" external agent(s), ");
    text.append(decimal_text(report.integrations.selected_focused_routes.len() as u64).as_str());
    text.append(" focused route(s)\n");
    text.append(
        if report.missing_setup.len() == 0 {
            "  Readiness:    configuration is valid; credentials and network were not probed\n"
        } else {
            "  Readiness:    run `xana setup`\n"
        },
    );
    text.append(
        "\nAvailability is not permission or selection. Use `xana capabilities --json` for stable command and presentation facts.\n",
    );
    output.append(text.as_str());
}

/// What is available is kept apart from what is selected: no command is
/// reported as selected, and a command's availability says nothing of whether it
/// is authorized.
pub proof fn availability_is_not_selection(
    registry: Option<ConnectionRegistry>,
    workspace: Seq<char>,
    authority: u8,
    catalog: Seq<CatalogCommand>,
    presentation: PresentationFacts,
    states: Seq<String>,
    report: CapabilityReport,
)
    requires
        reports(registry, workspace, authority, catalog, presentation, states, report),
    ensures
        forall|i: int|
            0 <= i < report.commands@.len() ==> !(#[trigger] report.commands@[i]).selected,
        forall|i: int|
            0 <= i < report.commands@.len() ==> (#[trigger] report.commands@[i]).authorized == (
            catalog[i].authority <= authority),
        registry is None ==> report.missing_setup@.len() == 1 && report.missing_setup@[0]@
            == "configuration"@,
{
}

/// A permission is called what it is.
pub proof fn permissions_are_told_apart(one: PermissionMode, two: PermissionMode)
    ensures
        permission_word(one) == permission_word(two) <==> one == two,
        permission_word(PermissionMode::Deny) == "deny"@,
        permission_word(PermissionMode::Ask) == "ask"@,
        permission_word(PermissionMode::Allow) == "allow"@,
{
    reveal_strlit("deny");
    reveal_strlit("ask");
    reveal_strlit("allow");
    assert("deny"@[0] == 'd');
    assert("ask"@[0] == 'a' && "ask"@.len() == 3);
    assert("allow"@[0] == 'a' && "allow"@.len() == 5);
}

/// A report tells of every command of the catalog, once and in its order, as it is: as
/// available where it is available, and as authorized where the authority reaches it.
pub proof fn reports_tell_of_every_command(
    registry: Option<ConnectionRegistry>,
    workspace: Seq<char>,
    authority: u8,
    catalog: Seq<CatalogCommand>,
    presentation: PresentationFacts,
    states: Seq<String>,
    report: CapabilityReport,
    at: int,
)
    requires
        reports(registry, workspace, authority, catalog, presentation, states, report),
        0 <= at < catalog.len(),
    ensures
        report.commands@.len() == catalog.len(),
        report.commands@[at].id == catalog[at].id,
        report.commands@[at].family == catalog[at].family,
        report.commands@[at].available == catalog[at].available,
        report.commands@[at].reason == catalog[at].reason,
        report.commands@[at].authorized <==> catalog[at].authority <= authority,
{
    assert(states_command(authority, catalog[at], report.commands@[at]));
}

/// A report tells what the default profile selects: its connection, its model and its
/// extensions, and none of them where there is no such profile. It tells the permission of
/// the configuration, and that there is none where there is no configuration.
pub proof fn reports_tell_the_selection(
    registry: Option<ConnectionRegistry>,
    workspace: Seq<char>,
    authority: u8,
    catalog: Seq<CatalogCommand>,
    presentation: PresentationFacts,
    states: Seq<String>,
    report: CapabilityReport,
)
    requires
        reports(registry, workspace, authority, catalog, presentation, states, report),
    ensures
        report.workspace.path@ == workspace,
        registry is None ==> report.selection.connection is None && report.selection.model is None
            && report.selection.profile is None && report.workspace.permission is None
            && report.missing_setup@.len() > 0,
        registry matches Some(held) ==> {
            &&& report.selection.profile == Some(held.default_profile)
            &&& report.missing_setup@.len() == 0
            &&& report.workspace.permission matches Some(word) && (word@ == "deny"@
                <==> held.permission_mode == PermissionMode::Deny) && (word@ == "ask"@
                <==> held.permission_mode == PermissionMode::Ask) && (word@ == "allow"@
                <==> held.permission_mode == PermissionMode::Allow)
            &&& report.selection.connection matches Some(connection) ==> exists|i: int|
                0 <= i < held.profiles@.len() && (#[trigger] held.profiles@[i]).name@
                    == held.default_profile@ && held.profiles@[i].connection == connection
                    && report.selection.model == Some(held.profiles@[i].model)
                    && report.integrations.selected_skills@ == held.profiles@[i].skills@
                    && report.integrations.selected_plugins@ == held.profiles@[i].plugins@
                    && report.integrations.selected_mcp_servers@ == held.profiles@[i].mcp_servers@
                    && report.integrations.selected_external_agents@
                    == held.profiles@[i].external_agents@
                    && report.integrations.selected_focused_routes@
                    == held.profiles@[i].service_routes@
            &&& report.selection.connection is None ==> forall|i: int|
                0 <= i < held.profiles@.len() ==> #[trigger] held.profiles@[i].name@
                    != held.default_profile@
        },
{
    permissions_are_told_apart(PermissionMode::Deny, PermissionMode::Ask);
    permissions_are_told_apart(PermissionMode::Deny, PermissionMode::Allow);
    permissions_are_told_apart(PermissionMode::Ask, PermissionMode::Allow);
    if let Some(held) = registry {
        found_profiles_have_the_name(held.profiles@, held.default_profile@);
    }
}

/// The report as text names the host, the workspace, the connection and the model behind
/// their labels, and counts what extends it by its kind.
pub proof fn texts_tell_the_report(report: CapabilityReport)
    ensures
        occurs(report_text(report), "\n  Host:         "@ + report.host.location@),
        occurs(report_text(report), "\n  Workspace:    "@ + report.workspace.path@),
        occurs(
            report_text(report),
            "\n  Connection:   "@ + shown_selection(option_view(report.selection.connection)),
        ),
        occurs(
            report_text(report),
            "\n  Model:        "@ + shown_selection(option_view(report.selection.model)),
        ),
        occurs(
            report_text(report),
            decimal(report.integrations.selected_skills@.len()) + " skill(s), "@,
        ),
        occurs(
            report_text(report),
            decimal(report.integrations.selected_plugins@.len()) + " plugin(s), "@,
        ),
        occurs(
            report_text(report),
            decimal(report.integrations.selected_mcp_servers@.len()) + " MCP server(s), "@,
        ),
        occurs(
            report_text(report),
            decimal(report.integrations.selected_external_agents@.len()) + " external agent(s), "@,
        ),
        occurs(
            report_text(report),
            decimal(report.integrations.selected_focused_routes@.len()) + " focused route(s)\n"@,
        ),
        report.workspace.permission matches Some(label) ==> occurs(
            report_text(report),
            "\n  Permission:   "@ + label@,
        ),
        report.selection.connection matches Some(name) ==> shown_selection(
            option_view(report.selection.connection),
        ) == name@,
        report.selection.model matches Some(name) ==> shown_selection(
            option_view(report.selection.model),
        ) == name@,
        shown_selection(None) == "not selected"@,
{
    let permission = match report.workspace.permission {
        Some(label) => label@,
        None => "not configured"@,
    };
    let readiness = if report.missing_setup@.len() == 0 {
        "  Readiness:    configuration is valid; credentials and network were not probed\n"@
    } else {
        "  Readiness:    run `xana setup`\n"@
    };
    let whole = report_text(report);
    let t1 = "Xana capabilities here\n  Platform:     "@ + report.os@;
    let t2 = t1 + " / "@;
    let t3 = t2 + report.architecture@;
    let t4 = t3 + "\n  Host:         "@;
    let t5 = t4 + report.host.location@;
    let t6 = t5 + " / "@;
    let t7 = t6 + report.host.execution@;
    let t8 = t7 + "\n  Workspace:    "@;
    let t9 = t8 + report.workspace.path@;
    let t10 = t9 + "\n  Permission:   "@;
    let t11 = t10 + permission;
    let t12 = t11 + " (selected policy; each action is still checked)\n  Profile:      "@;
    let t13 = t12 + shown_selection(option_view(report.selection.profile));
    let t14 = t13 + "\n  Connection:   "@;
    let t15 = t14 + shown_selection(option_view(report.selection.connection));
    let t16 = t15 + "\n  Model:        "@;
    let t17 = t16 + shown_selection(option_view(report.selection.model));
    let t18 = t17 + "\n  Extensions:   "@;
    let t19 = t18 + decimal(report.integrations.selected_skills@.len());
    let t20 = t19 + " skill(s), "@;
    let t21 = t20 + decimal(report.integrations.selected_plugins@.len());
    let t22 = t21 + " plugin(s), "@;
    let t23 = t22 + decimal(report.integrations.selected_mcp_servers@.len());
    let t24 = t23 + " MCP server(s), "@;
    let t25 = t24 + decimal(report.integrations.selected_external_agents@.len());
    let t26 = t25 + " external agent(s), "@;
    let t27 = t26 + decimal(report.integrations.selected_focused_routes@.len());
    let t28 = t27 + " focused route(s)\n"@;
    let t29 = t28 + readiness;
    let t30 = t29 + "\nAvailability is not permission or selection. Use `xana capabilities --json` for stable command and presentation facts.\n"@;
    assert(t30.is_prefix_of(whole));
    beginnings_begin_alike(
        t29,
        "\nAvailability is not permission or selection. Use `xana capabilities --json` for stable command and presentation facts.\n"@,
        whole,
    );
    beginnings_begin_alike(t28, readiness, whole);
    beginnings_begin_alike(t27, " focused route(s)\n"@, whole);
    beginnings_begin_alike(t26, decimal(report.integrations.selected_focused_routes@.len()), whole);
    beginnings_begin_alike(t25, " external agent(s), "@, whole);
    beginnings_begin_alike(
        t24,
        decimal(report.integrations.selected_external_agents@.len()),
        whole,
    );
    beginnings_begin_alike(t23, " MCP server(s), "@, whole);
    beginnings_begin_alike(t22, decimal(report.integrations.selected_mcp_servers@.len()), whole);
    beginnings_begin_alike(t21, " plugin(s), "@, whole);
    beginnings_begin_alike(t20, decimal(report.integrations.selected_plugins@.len()), whole);
    beginnings_begin_alike(t19, " skill(s), "@, whole);
    beginnings_begin_alike(t18, decimal(report.integrations.selected_skills@.len()), whole);
    beginnings_begin_alike(t17, "\n  Extensions:   "@, whole);
    beginnings_begin_alike(t16, shown_selection(option_view(report.selection.model)), whole);
    beginnings_begin_alike(t15, "\n  Model:        "@, whole);
    beginnings_begin_alike(t14, shown_selection(option_view(report.selection.connection)), whole);
    beginnings_begin_alike(t13, "\n  Connection:   "@, whole);
    beginnings_begin_alike(t12, shown_selection(option_view(report.selection.profile)), whole);
    beginnings_begin_alike(
        t11,
        " (selected policy; each action is still checked)\n  Profile:      "@,
        whole,
    );
    beginnings_begin_alike(t10, permission, whole);
    beginnings_begin_alike(t9, "\n  Permission:   "@, whole);
    beginnings_begin_alike(t8, report.workspace.path@, whole);
    beginnings_begin_alike(t7, "\n  Workspace:    "@, whole);
    beginnings_begin_alike(t6, report.host.execution@, whole);
    beginnings_begin_alike(t5, " / "@, whole);
    ends_occur(t3, "\n  Host:         "@, report.host.location@);
    beginnings_are_held(t5, whole, "\n  Host:         "@ + report.host.location@);
    ends_occur(t7, "\n  Workspace:    "@, report.workspace.path@);
    beginnings_are_held(t9, whole, "\n  Workspace:    "@ + report.workspace.path@);
    ends_occur(
        t13,
        "\n  Connection:   "@,
        shown_selection(option_view(report.selection.connection)),
    );
    beginnings_are_held(
        t15,
        whole,
        "\n  Connection:   "@ + shown_selection(option_view(report.selection.connection)),
    );
    ends_occur(t15, "\n  Model:        "@, shown_selection(option_view(report.selection.model)));
    beginnings_are_held(
        t17,
        whole,
        "\n  Model:        "@ + shown_selection(option_view(report.selection.model)),
    );
    ends_occur(t18, decimal(report.integrations.selected_skills@.len()), " skill(s), "@);
    beginnings_are_held(
        t20,
        whole,
        decimal(report.integrations.selected_skills@.len()) + " skill(s), "@,
    );
    ends_occur(t20, decimal(report.integrations.selected_plugins@.len()), " plugin(s), "@);
    beginnings_are_held(
        t22,
        whole,
        decimal(report.integrations.selected_plugins@.len()) + " plugin(s), "@,
    );
    ends_occur(t22, decimal(report.integrations.selected_mcp_servers@.len()), " MCP server(s), "@);
    beginnings_are_held(
        t24,
        whole,
        decimal(report.integrations.selected_mcp_servers@.len()) + " MCP server(s), "@,
    );
    ends_occur(
        t24,
        decimal(report.integrations.selected_external_agents@.len()),
        " external agent(s), "@,
    );
    beginnings_are_held(
        t26,
        whole,
        decimal(report.integrations.selected_external_agents@.len()) + " external agent(s), "@,
    );
    ends_occur(
        t26,
        decimal(report.integrations.selected_focused_routes@.len()),
        " focused route(s)\n"@,
    );
    beginnings_are_held(
        t28,
        whole,
        decimal(report.integrations.selected_focused_routes@.len()) + " focused route(s)\n"@,
    );
    ends_occur(t9, "\n  Permission:   "@, permission);
    beginnings_are_held(t11, whole, "\n  Permission:   "@ + permission);
}

}
