//! Reviewing, installing and enabling Agent Plugins.
//!
//! A run of a plugin command says what is to be done next and is told what came
//! of it. The manager that it directs keeps the packages.

use crate::order::{sort_texts, sorted};
use crate::text::{
    beginnings_are_held, chars_of, control, debug_text, decimal, decimal_text, ends_occur,
    is_control, join, joined, list_has, longer_texts_hold_the_same, occurs, parts_occur, quoted,
    views,
};
use vstd::prelude::*;
use vstd::string::*;

verus! {

/// A command on plugins.
#[derive(Debug, PartialEq, Eq)]
pub enum PluginCommand {
    List { json: bool },
    Inspect { name: String, json: bool },
    Review {
        source: String,
        git: bool,
        revision: Option<String>,
        linked: bool,
        json: bool,
    },
    Install {
        source: String,
        git: bool,
        revision: Option<String>,
        linked: bool,
        yes: bool,
        json: bool,
    },
    Enable { name: String, project: Option<String>, profile: Option<String>, json: bool },
    Disable { name: String, project: Option<String>, profile: Option<String>, json: bool },
    UpdateCheck { name: String, revision: Option<String>, json: bool },
    Update { name: String, revision: Option<String>, digest: String, yes: bool, json: bool },
    Rollback { name: String, yes: bool, json: bool },
    Remove { name: String, yes: bool },
    Gc { yes: bool },
}

/// Where a package comes from.
#[derive(Debug, PartialEq, Eq)]
pub enum PackageSource {
    Git { url: String, revision: String },
    Linked { path: String },
    Directory { path: String },
}

/// What a plugin is enabled for.
#[derive(Debug, PartialEq, Eq)]
pub enum PluginScope {
    User,
    Project { project: String },
    Profile { project: Option<String>, profile: String },
}

/// How a requested server is reached.
#[derive(Clone, Copy, PartialEq, Eq, Structural, Debug)]
pub enum McpServerKind {
    Stdio,
    StreamableHttp,
}

/// A server that a package asks for.
#[derive(Debug, PartialEq, Eq)]
pub struct RequestedServer {
    pub name: String,
    pub kind: McpServerKind,
    pub destination: String,
}

/// What a review of a package found.
#[derive(Debug, PartialEq, Eq)]
pub struct PluginReview {
    pub name: String,
    pub version: Option<String>,
    pub digest: String,
    pub mutable: bool,
    pub skills: Vec<String>,
    pub mcp_servers: Vec<RequestedServer>,
    pub diagnostics: Vec<String>,
}

/// An installed plugin.
#[derive(Debug, PartialEq, Eq)]
pub struct InstalledPlugin {
    pub name: String,
    pub active_revision: String,
    pub mutable: bool,
    pub health: String,
    pub source_kind: String,
    pub source_location: String,
    pub enabled_scopes: Vec<String>,
    pub rollback_available: bool,
    pub pending_update: Option<String>,
}

/// What a review of an update found.
#[derive(Debug, PartialEq, Eq)]
pub struct PluginUpdateReview {
    pub name: String,
    pub current_revision: String,
    pub candidate_revision: String,
    pub changed: bool,
    pub added_skills: Vec<String>,
    pub removed_skills: Vec<String>,
    pub added_mcp_servers: Vec<String>,
    pub removed_mcp_servers: Vec<String>,
    pub requires_reapproval: bool,
}

/// A profile or a conversation and the plugins that it uses.
#[derive(Debug, PartialEq, Eq)]
pub struct PluginUser {
    pub name: String,
    pub plugins: Vec<String>,
}

/// A project and the profiles that it carries.
#[derive(Debug, PartialEq, Eq)]
pub struct ProjectProfiles {
    pub project: String,
    pub profiles: Vec<PluginUser>,
}

/// Everything that may refer to a plugin.
#[derive(Debug, PartialEq, Eq)]
pub struct PluginUsers {
    pub profiles: Vec<PluginUser>,
    pub projects: Vec<ProjectProfiles>,
    pub conversations: Vec<PluginUser>,
}

/// What the manager is to do.
#[derive(Debug, PartialEq, Eq)]
pub enum PluginWork {
    List,
    Inspect,
    InspectSource { source: PackageSource },
    Install { source: PackageSource, digest: String },
    Enable { scope: PluginScope },
    Disable { scope: PluginScope },
    SetProfile { project: Option<String>, profile: String, enabled: bool },
    CheckUpdate { revision: Option<String> },
    Update { revision: Option<String>, digest: String },
    Rollback,
    GatherUsers,
    Remove,
    Collect,
    Finish(Option<String>),
    Ignore,
}

/// What came of it. A plugin or a review is given with its JSON text, and with a
/// plugin that was inspected for a scope comes the scope's key.
#[derive(Debug, PartialEq, Eq)]
pub enum PluginEvent {
    Listed { plugins: Vec<InstalledPlugin>, json: String },
    Plugin { plugin: InstalledPlugin, json: String },
    Scoped { plugin: InstalledPlugin, key: String },
    Reviewed { review: PluginReview, json: String },
    UpdateReviewed { review: PluginUpdateReview, json: String },
    Users(PluginUsers),
    Removed(bool),
    Collected(u64),
    Done,
    Failed(String),
}

/// Where a command stands.
#[derive(Debug, PartialEq, Eq)]
pub enum PluginStage {
    List,
    Inspect,
    Review,
    InstallReview { source: PackageSource, yes: bool },
    Install,
    Scope { project: Option<String>, profile: Option<String>, enable: bool },
    Change { project: Option<String>, profile: Option<String>, enable: bool, was_enabled: bool },
    SetProfile {
        scope: PluginScope,
        enable: bool,
        was_enabled: bool,
        plugin: InstalledPlugin,
        text: String,
    },
    Undo { error: String },
    UpdateCheck,
    Update,
    Rollback,
    Users,
    Remove,
    Collect,
    Over,
}

/// A command that is being run.
#[derive(Debug, PartialEq, Eq)]
pub struct PluginRun {
    pub name: String,
    pub json: bool,
    pub stage: PluginStage,
}

/// What a command says and has done next.
#[derive(Debug, PartialEq, Eq)]
pub struct PluginStep {
    pub print: String,
    pub work: PluginWork,
}

pub const SOURCE_FLAGS: &'static str = "Git plugin sources require both --git and --revision; linked sources use only --linked";

pub const UPDATE_CONFIRMATION: &'static str = "plugin update requires --yes after reviewing `xana plugin update-check`";

pub const ROLLBACK_CONFIRMATION: &'static str = "plugin rollback requires --yes";

pub const REMOVAL_CONFIRMATION: &'static str = "plugin removal requires --yes";

pub const COLLECTION_CONFIRMATION: &'static str = "plugin garbage collection requires --yes";

pub const NONE_INSTALLED: &'static str = "No Agent Plugins are installed.\n";

pub const NOTHING_RAN: &'static str = "No package was installed, enabled, activated, or executed.\n";

pub const REVIEW_ONLY: &'static str = "Review only. Re-run with --yes to install this exact source; installation will not enable skills or MCP servers.\n";

pub const LINKED_WARNING: &'static str = "WARNING: linked development mode is visibly mutable; source drift invalidates this review.\n";

pub const NOTHING_STARTED: &'static str = "No skill was activated and no MCP process or network connection was started.\n";

pub const CAPABILITIES_CHANGED: &'static str = "The update changed declared capabilities; review and enable the new revision explicitly.\n";

/// The reviewed form of packages.
pub const AGENT_PLUGIN_FORM: &'static str = "Agent Plugin review (spec ";

/// A character as it is shown.
pub open spec fn shown_char(c: char) -> char {
    if is_control(c) {
        '\u{fffd}'
    } else {
        c
    }
}

/// A text as it is shown: without control characters.
pub open spec fn labeled(text: Seq<char>) -> Seq<char> {
    Seq::new(text.len(), |i: int| shown_char(text[i]))
}

/// A text as it is shown.
pub fn label(value: &str) -> (shown: String)
    ensures
        shown@ == labeled(value@),
{
    let chars = chars_of(value);
    let mut shown = String::new();
    let mut i: usize = 0;
    assert(shown@ =~= labeled(value@).take(0));
    while i < chars.len()
        invariant
            chars@ == value@,
            i <= chars@.len(),
            shown@ == labeled(value@).take(i as int),
        decreases chars@.len() - i,
    {
        assert(labeled(value@).take(i + 1) =~= labeled(value@).take(i as int).push(
            shown_char(value@[i as int]),
        ));
        if control(chars[i]) {
            shown.push('\u{fffd}');
        } else {
            shown.push(chars[i]);
        }
        i += 1;
    }
    assert(labeled(value@).take(i as int) =~= labeled(value@));
    shown
}

/// Shown texts, in their order.
pub open spec fn labeled_all(texts: Seq<String>) -> Seq<Seq<char>> {
    Seq::new(texts.len(), |i: int| labeled(texts[i]@))
}

/// The texts of a list, or that there are none.
pub open spec fn listed(texts: Seq<String>) -> Seq<char> {
    if texts.len() == 0 {
        "none"@
    } else {
        joined(labeled_all(texts), ", "@)
    }
}

/// The texts of a list, or that there are none.
pub fn list_or_none(values: &Vec<String>) -> (text: String)
    ensures
        text@ == listed(values@),
{
    if values.len() == 0 {
        return "none".to_owned();
    }
    let mut labels: Vec<String> = Vec::new();
    let mut i: usize = 0;
    while i < values.len()
        invariant
            i <= values@.len(),
            labels@.len() == i,
            forall|j: int| 0 <= j < i ==> (#[trigger] labels@[j])@ == labeled(values@[j]@),
        decreases values@.len() - i,
    {
        labels.push(label(values[i].as_str()));
        i += 1;
    }
    assert(views(labels@) =~= labeled_all(values@));
    join(&labels, ", ")
}

/// The source that the flags of a command spell, if they spell one.
pub open spec fn source_of(
    source: String,
    git: bool,
    revision: Option<String>,
    linked: bool,
) -> Option<PackageSource> {
    match revision {
        Some(revision) => if git && !linked {
            Some(PackageSource::Git { url: source, revision })
        } else {
            None
        },
        None => if git {
            None
        } else if linked {
            Some(PackageSource::Linked { path: source })
        } else {
            Some(PackageSource::Directory { path: source })
        },
    }
}

/// Reads where a package comes from.
pub fn package_source(source: String, git: bool, revision: Option<String>, linked: bool) -> (read:
    Result<PackageSource, String>)
    ensures
        match source_of(source, git, revision, linked) {
            Some(expected) => read matches Ok(found) && found == expected,
            None => read matches Err(text) && text@ == SOURCE_FLAGS@,
        },
{
    match (git, revision, linked) {
        (true, Some(revision), false) => Ok(PackageSource::Git { url: source, revision }),
        (false, None, true) => Ok(PackageSource::Linked { path: source }),
        (false, None, false) => Ok(PackageSource::Directory { path: source }),
        _ => Err(SOURCE_FLAGS.to_owned()),
    }
}

/// The scope that a project and a profile stand for.
pub open spec fn scope_of(project: Option<String>, profile: Option<String>) -> PluginScope {
    match (project, profile) {
        (None, None) => PluginScope::User,
        (Some(project), None) => PluginScope::Project { project },
        (project, Some(profile)) => PluginScope::Profile { project, profile },
    }
}

/// The scope that a project and a profile stand for.
pub fn plugin_scope(project: &Option<String>, profile: &Option<String>) -> (scope: PluginScope)
    ensures
        scope == scope_of(*project, *profile),
{
    match (project, profile) {
        (None, None) => PluginScope::User,
        (Some(project), None) => PluginScope::Project { project: project.clone() },
        (project, Some(profile)) => PluginScope::Profile {
            project: crate::text::copy_option(project),
            profile: profile.clone(),
        },
    }
}

/// The lines of the servers that a package asks for.
pub open spec fn server_lines(output: Seq<char>, servers: Seq<RequestedServer>) -> Seq<char>
    decreases servers.len(),
{
    if servers.len() == 0 {
        output
    } else {
        let server = servers.last();
        server_lines(output, servers.drop_last()) + "    "@ + labeled(server.name@) + " ["@ + (
        match server.kind {
            McpServerKind::Stdio => "local process"@,
            McpServerKind::StreamableHttp => "network"@,
        }) + "] "@ + labeled(server.destination@) + "\n"@
    }
}

/// The lines of a review's notes.
pub open spec fn note_lines(output: Seq<char>, notes: Seq<String>) -> Seq<char>
    decreases notes.len(),
{
    if notes.len() == 0 {
        output
    } else {
        note_lines(output, notes.drop_last()) + "  Note: "@ + labeled(notes.last()@) + "\n"@
    }
}

/// What is said of a review. `form` names the reviewed version of packages.
pub open spec fn review_text(form: Seq<char>, review: PluginReview) -> Seq<char> {
    let head = AGENT_PLUGIN_FORM@ + form + ")\n  Name:       "@ + labeled(review.name@)
        + "\n  Version:    "@ + (match review.version {
        Some(version) => labeled(version@),
        None => "not declared"@,
    }) + "\n  Digest:     "@ + review.digest@ + "\n  Source:     "@ + (if review.mutable {
        "linked and mutable"@
    } else {
        "immutable on install"@
    }) + "\n  Skills:     "@ + listed(review.skills@) + "\n"@;
    note_lines(
        if review.mcp_servers@.len() == 0 {
            head + "  MCP:        none compatible\n"@
        } else {
            server_lines(head + "  MCP requests:\n"@, review.mcp_servers@)
        },
        review.diagnostics@,
    )
}

/// Says what a review found.
pub fn render_review(form: &str, review: &PluginReview) -> (text: String)
    ensures
        text@ == review_text(form@, *review),
{
    let mut text = AGENT_PLUGIN_FORM.to_owned();
    text.append(form);
    text.append(")\n  Name:       ");
    text.append(label(review.name.as_str()).as_str());
    text.append("\n  Version:    ");
    match &review.version {
        Some(version) => text.append(label(version.as_str()).as_str()),
        None => text.append("not declared"),
    }
    text.append("\n  Digest:     ");
    text.append(review.digest.as_str());
    text.append("\n  Source:     ");
    text.append(
        if review.mutable {
            "linked and mutable"
        } else {
            "immutable on install"
        },
    );
    text.append("\n  Skills:     ");
    text.append(list_or_none(&review.skills).as_str());
    text.append("\n");
    if review.mcp_servers.len() == 0 {
        text.append("  MCP:        none compatible\n");
    } else {
        text.append("  MCP requests:\n");
        let ghost start = text@;
        let mut i: usize = 0;
        assert(review.mcp_servers@.take(0) =~= Seq::<RequestedServer>::empty());
        while i < review.mcp_servers.len()
            invariant
                i <= review.mcp_servers@.len(),
                text@ == server_lines(start, review.mcp_servers@.take(i as int)),
            decreases review.mcp_servers@.len() - i,
        {
            assert(review.mcp_servers@.take(i + 1).drop_last() =~= review.mcp_servers@.take(
                i as int,
            ));
            let server = &review.mcp_servers[i];
            text.append("    ");
            text.append(label(server.name.as_str()).as_str());
            text.append(" [");
            text.append(
                match server.kind {
                    McpServerKind::Stdio => "local process",
                    McpServerKind::StreamableHttp => "network",
                },
            );
            text.append("] ");
            text.append(label(server.destination.as_str()).as_str());
            text.append("\n");
            i += 1;
        }
        assert(review.mcp_servers@.take(i as int) =~= review.mcp_servers@);
    }
    let ghost start = text@;
    let mut i: usize = 0;
    assert(review.diagnostics@.take(0) =~= Seq::<String>::empty());
    while i < review.diagnostics.len()
        invariant
            i <= review.diagnostics@.len(),
            text@ == note_lines(start, review.diagnostics@.take(i as int)),
        decreases review.diagnostics@.len() - i,
    {
        assert(review.diagnostics@.take(i + 1).drop_last() =~= review.diagnostics@.take(i as int));
        text.append("  Note: ");
        text.append(label(review.diagnostics[i].as_str()).as_str());
        text.append("\n");
        i += 1;
    }
    assert(review.diagnostics@.take(i as int) =~= review.diagnostics@);
    text
}

/// What is said of an installed plugin.
pub open spec fn installed_text(output: Seq<char>, plugin: InstalledPlugin) -> Seq<char> {
    let told = output + labeled(plugin.name@) + " ["@ + plugin.active_revision@ + "; "@ + (
    if plugin.mutable {
        "linked mutable"@
    } else {
        "immutable"@
    }) + "; "@ + plugin.health@ + "]\n  Source: "@ + plugin.source_kind@ + " "@ + labeled(
        plugin.source_location@,
    ) + "\n  Enabled scopes: "@ + (if plugin.enabled_scopes@.len() == 0 {
        "none"@
    } else {
        joined(views(plugin.enabled_scopes@), ", "@)
    }) + "\n  Rollback: "@ + (if plugin.rollback_available {
        "available"@
    } else {
        "unavailable"@
    }) + "\n"@;
    match plugin.pending_update {
        Some(revision) => told + "  Pending reviewed update: "@ + revision@ + "\n"@,
        None => told,
    }
}

/// Says what an installed plugin is.
pub fn render_installed(output: &mut String, plugin: &InstalledPlugin)
    ensures
        final(output)@ == installed_text(old(output)@, *plugin),
{
    output.append(label(plugin.name.as_str()).as_str());
    output.append(" [");
    output.append(plugin.active_revision.as_str());
    output.append("; ");
    output.append(
        if plugin.mutable {
            "linked mutable"
        } else {
            "immutable"
        },
    );
    output.append("; ");
    output.append(plugin.health.as_str());
    output.append("]\n  Source: ");
    output.append(plugin.source_kind.as_str());
    output.append(" ");
    output.append(label(plugin.source_location.as_str()).as_str());
    output.append("\n  Enabled scopes: ");
    if plugin.enabled_scopes.len() == 0 {
        output.append("none");
    } else {
        output.append(join(&plugin.enabled_scopes, ", ").as_str());
    }
    output.append("\n  Rollback: ");
    output.append(
        if plugin.rollback_available {
            "available"
        } else {
            "unavailable"
        },
    );
    output.append("\n");
    if let Some(revision) = &plugin.pending_update {
        output.append("  Pending reviewed update: ");
        output.append(revision.as_str());
        output.append("\n");
    }
}

/// What is said of installed plugins.
pub open spec fn installed_texts(plugins: Seq<InstalledPlugin>) -> Seq<char>
    decreases plugins.len(),
{
    if plugins.len() == 0 {
        Seq::empty()
    } else {
        installed_text(installed_texts(plugins.drop_last()), plugins.last())
    }
}

fn render_list(plugins: &Vec<InstalledPlugin>) -> (text: String)
    ensures
        text@ == installed_texts(plugins@),
{
    let mut text = String::new();
    let mut i: usize = 0;
    assert(text@ =~= Seq::<char>::empty());
    assert(plugins@.take(0) =~= Seq::<InstalledPlugin>::empty());
    while i < plugins.len()
        invariant
            i <= plugins@.len(),
            text@ == installed_texts(plugins@.take(i as int)),
        decreases plugins@.len() - i,
    {
        assert(plugins@.take(i + 1).drop_last() =~= plugins@.take(i as int));
        render_installed(&mut text, &plugins[i]);
        i += 1;
    }
    assert(plugins@.take(i as int) =~= plugins@);
    text
}

/// What is said of a change to a plugin.
pub open spec fn lifecycle_text(
    plugin: InstalledPlugin,
    json: Option<Seq<char>>,
    action: Seq<char>,
) -> Seq<char> {
    match json {
        Some(json) => json + "\n"@,
        None => installed_text(
            action + " "@ + labeled(plugin.name@) + " at "@ + plugin.active_revision@ + ".\n"@,
            plugin,
        ),
    }
}

/// Says what was changed about a plugin, as JSON where `json` gives it.
pub fn render_lifecycle(plugin: &InstalledPlugin, json: Option<&str>, action: &str) -> (text: String)
    ensures
        text@ == lifecycle_text(
            *plugin,
            (match json {
                Some(json) => Some(json@),
                None => None,
            }),
            action@,
        ),
{
    match json {
        Some(json) => {
            let mut text = json.to_owned();
            text.append("\n");
            text
        },
        None => {
            let mut text = action.to_owned();
            text.append(" ");
            text.append(label(plugin.name.as_str()).as_str());
            text.append(" at ");
            text.append(plugin.active_revision.as_str());
            text.append(".\n");
            render_installed(&mut text, plugin);
            text
        },
    }
}

/// What is said of an update that was reviewed.
pub open spec fn update_text(review: PluginUpdateReview) -> Seq<char> {
    "Plugin update review: "@ + labeled(review.name@) + "\n  Current:   "@
        + review.current_revision@ + "\n  Candidate: "@ + review.candidate_revision@
        + "\n  Changed:   "@ + (if review.changed {
        "true"@
    } else {
        "false"@
    }) + "\n  Added skills: "@ + listed(review.added_skills@) + "\n  Removed skills: "@ + listed(
        review.removed_skills@,
    ) + "\n  Added MCP: "@ + listed(review.added_mcp_servers@) + "\n  Removed MCP: "@ + listed(
        review.removed_mcp_servers@,
    ) + "\n  Approval:  "@ + (if review.requires_reapproval {
        "required because capabilities changed"@
    } else {
        "existing exact scopes may carry forward"@
    }) + "\n"@
}

/// Says what a review of an update found.
pub fn render_update_review(review: &PluginUpdateReview) -> (text: String)
    ensures
        text@ == update_text(*review),
{
    let mut text = "Plugin update review: ".to_owned();
    text.append(label(review.name.as_str()).as_str());
    text.append("\n  Current:   ");
    text.append(review.current_revision.as_str());
    text.append("\n  Candidate: ");
    text.append(review.candidate_revision.as_str());
    text.append("\n  Changed:   ");
    text.append(
        if review.changed {
            "true"
        } else {
            "false"
        },
    );
    text.append("\n  Added skills: ");
    text.append(list_or_none(&review.added_skills).as_str());
    text.append("\n  Removed skills: ");
    text.append(list_or_none(&review.removed_skills).as_str());
    text.append("\n  Added MCP: ");
    text.append(list_or_none(&review.added_mcp_servers).as_str());
    text.append("\n  Removed MCP: ");
    text.append(list_or_none(&review.removed_mcp_servers).as_str());
    text.append("\n  Approval:  ");
    text.append(
        if review.requires_reapproval {
            "required because capabilities changed"
        } else {
            "existing exact scopes may carry forward"
        },
    );
    text.append("\n");
    text
}

/// The names of those users that use a plugin, each behind a prefix; quoted
/// where `quote` says so.
pub open spec fn users_of(
    users: Seq<PluginUser>,
    plugin: Seq<char>,
    prefix: Seq<char>,
    quote: bool,
) -> Seq<Seq<char>>
    decreases users.len(),
{
    if users.len() == 0 {
        Seq::empty()
    } else {
        let earlier = users_of(users.drop_last(), plugin, prefix, quote);
        let user = users.last();
        if views(user.plugins@).contains(plugin) {
            earlier.push(
                prefix + (if quote {
                    debug_text(user.name@)
                } else {
                    user.name@
                }),
            )
        } else {
            earlier
        }
    }
}

/// What a project's profiles are named by.
pub open spec fn project_prefix(project: Seq<char>) -> Seq<char> {
    "project "@ + project + " profile "@
}

/// The profiles of projects that use a plugin.
pub open spec fn project_users(projects: Seq<ProjectProfiles>, plugin: Seq<char>) -> Seq<Seq<char>>
    decreases projects.len(),
{
    if projects.len() == 0 {
        Seq::empty()
    } else {
        project_users(projects.drop_last(), plugin) + users_of(
            projects.last().profiles@,
            plugin,
            project_prefix(projects.last().project@),
            true,
        )
    }
}

/// Everything that uses a plugin, in the order in which it is found.
pub open spec fn all_users(users: PluginUsers, plugin: Seq<char>) -> Seq<Seq<char>> {
    users_of(users.profiles@, plugin, "global profile "@, true) + project_users(
        users.projects@,
        plugin,
    ) + users_of(users.conversations@, plugin, "frozen conversation "@, false)
}

/// Whether a list is another one put in order.
pub open spec fn put_in_order(found: Seq<Seq<char>>, ordered: Seq<Seq<char>>) -> bool {
    &&& sorted(ordered)
    &&& ordered.to_multiset() == found.to_multiset()
}

fn gather(
    users: &Vec<PluginUser>,
    plugin: &str,
    prefix: &str,
    quote: bool,
    found: &mut Vec<String>,
)
    ensures
        views(final(found)@) == views(old(found)@) + users_of(users@, plugin@, prefix@, quote),
{
    let ghost start = views(found@);
    let mut i: usize = 0;
    assert(users@.take(0) =~= Seq::<PluginUser>::empty());
    assert(start + Seq::<Seq<char>>::empty() =~= start);
    while i < users.len()
        invariant
            i <= users@.len(),
            views(found@) == start + users_of(users@.take(i as int), plugin@, prefix@, quote),
        decreases users@.len() - i,
    {
        assert(users@.take(i + 1).drop_last() =~= users@.take(i as int));
        let user = &users[i];
        if list_has(&user.plugins, plugin) {
            let mut name = prefix.to_owned();
            if quote {
                name.append(quoted(user.name.as_str()).as_str());
            } else {
                name.append(user.name.as_str());
            }
            let ghost before = views(found@);
            let ghost named = name@;
            found.push(name);
            assert(views(found@) =~= before.push(named));
            assert(before.push(named) =~= start + users_of(
                users@.take(i as int),
                plugin@,
                prefix@,
                quote,
            ).push(named));
        }
        i += 1;
    }
    assert(users@.take(i as int) =~= users@);
}

/// Everything that refers to a plugin, in order.
pub fn referencing_profiles(users: &PluginUsers, plugin: &str) -> (references: Vec<String>)
    ensures
        put_in_order(all_users(*users, plugin@), views(references@)),
        references@.len() == all_users(*users, plugin@).len(),
{
    let mut found: Vec<String> = Vec::new();
    gather(&users.profiles, plugin, "global profile ", true, &mut found);
    let ghost first = users_of(users.profiles@, plugin@, "global profile "@, true);
    assert(views(found@) =~= first);
    let mut i: usize = 0;
    assert(users.projects@.take(0) =~= Seq::<ProjectProfiles>::empty());
    assert(first + Seq::<Seq<char>>::empty() =~= first);
    while i < users.projects.len()
        invariant
            i <= users.projects@.len(),
            views(found@) == first + project_users(users.projects@.take(i as int), plugin@),
        decreases users.projects@.len() - i,
    {
        assert(users.projects@.take(i + 1).drop_last() =~= users.projects@.take(i as int));
        let project = &users.projects[i];
        let mut prefix = "project ".to_owned();
        prefix.append(project.project.as_str());
        prefix.append(" profile ");
        let ghost before = views(found@);
        gather(&project.profiles, plugin, prefix.as_str(), true, &mut found);
        assert(views(found@) =~= first + project_users(users.projects@.take(i + 1), plugin@));
        i += 1;
    }
    assert(users.projects@.take(i as int) =~= users.projects@);
    gather(&users.conversations, plugin, "frozen conversation ", false, &mut found);
    assert(views(found@) == all_users(*users, plugin@));
    let references = sort_texts(&found);
    proof {
        vstd::seq_lib::to_multiset_len(views(references@));
        vstd::seq_lib::to_multiset_len(views(found@));
    }
    references
}

/// The run at another stage.
pub open spec fn at_stage(run: PluginRun, stage: PluginStage) -> PluginRun {
    PluginRun { stage, ..run }
}

/// The command ends well, and says something.
pub open spec fn completes(
    before: PluginRun,
    after: PluginRun,
    step: PluginStep,
    text: Seq<char>,
) -> bool {
    &&& after == at_stage(before, PluginStage::Over)
    &&& step.work == PluginWork::Finish(None)
    &&& step.print@ == text
}

/// The command ends with a failure and says nothing else.
pub open spec fn fails(before: PluginRun, after: PluginRun, step: PluginStep, text: Seq<char>) -> bool {
    &&& after == at_stage(before, PluginStage::Over)
    &&& step.work matches PluginWork::Finish(Some(failure))
    &&& failure@ == text
    &&& step.print@.len() == 0
}

/// The command goes on, and says something.
pub open spec fn goes_on(
    before: PluginRun,
    after: PluginRun,
    step: PluginStep,
    stage: PluginStage,
    work: PluginWork,
    text: Seq<char>,
) -> bool {
    &&& after == at_stage(before, stage)
    &&& step.work == work
    &&& step.print@ == text
}

/// Where a command begins and what is done first, or why it is refused.
pub open spec fn beginning(command: PluginCommand) -> Result<(PluginStage, PluginWork), Seq<char>> {
    match command {
        PluginCommand::List { .. } => Ok((PluginStage::List, PluginWork::List)),
        PluginCommand::Inspect { .. } => Ok((PluginStage::Inspect, PluginWork::Inspect)),
        PluginCommand::Review { source, git, revision, linked, .. } => match source_of(
            source,
            git,
            revision,
            linked,
        ) {
            Some(source) => Ok((PluginStage::Review, PluginWork::InspectSource { source })),
            None => Err(SOURCE_FLAGS@),
        },
        PluginCommand::Install { source, git, revision, linked, yes, .. } => match source_of(
            source,
            git,
            revision,
            linked,
        ) {
            Some(source) => Ok(
                (
                    PluginStage::InstallReview { source, yes },
                    PluginWork::InspectSource { source },
                ),
            ),
            None => Err(SOURCE_FLAGS@),
        },
        PluginCommand::Enable { project, profile, .. } => Ok(
            (PluginStage::Scope { project, profile, enable: true }, PluginWork::Inspect),
        ),
        PluginCommand::Disable { project, profile, .. } => Ok(
            (PluginStage::Scope { project, profile, enable: false }, PluginWork::Inspect),
        ),
        PluginCommand::UpdateCheck { revision, .. } => Ok(
            (PluginStage::UpdateCheck, PluginWork::CheckUpdate { revision }),
        ),
        PluginCommand::Update { revision, digest, yes, .. } => if yes {
            Ok((PluginStage::Update, PluginWork::Update { revision, digest }))
        } else {
            Err(UPDATE_CONFIRMATION@)
        },
        PluginCommand::Rollback { yes, .. } => if yes {
            Ok((PluginStage::Rollback, PluginWork::Rollback))
        } else {
            Err(ROLLBACK_CONFIRMATION@)
        },
        PluginCommand::Remove { yes, .. } => if yes {
            Ok((PluginStage::Users, PluginWork::GatherUsers))
        } else {
            Err(REMOVAL_CONFIRMATION@)
        },
        PluginCommand::Gc { yes } => if yes {
            Ok((PluginStage::Collect, PluginWork::Collect))
        } else {
            Err(COLLECTION_CONFIRMATION@)
        },
    }
}

/// The plugin that a command is about.
pub open spec fn subject(command: PluginCommand) -> Seq<char> {
    match command {
        PluginCommand::Inspect { name, .. } => name@,
        PluginCommand::Enable { name, .. } => name@,
        PluginCommand::Disable { name, .. } => name@,
        PluginCommand::UpdateCheck { name, .. } => name@,
        PluginCommand::Update { name, .. } => name@,
        PluginCommand::Rollback { name, .. } => name@,
        PluginCommand::Remove { name, .. } => name@,
        _ => Seq::empty(),
    }
}

/// Whether a command's answer is wanted as JSON.
pub open spec fn wants_json(command: PluginCommand) -> bool {
    match command {
        PluginCommand::List { json }
        | PluginCommand::Inspect { json, .. }
        | PluginCommand::Review { json, .. }
        | PluginCommand::Install { json, .. }
        | PluginCommand::Enable { json, .. }
        | PluginCommand::Disable { json, .. }
        | PluginCommand::UpdateCheck { json, .. }
        | PluginCommand::Update { json, .. }
        | PluginCommand::Rollback { json, .. } => json,
        _ => false,
    }
}

/// A value's JSON text, where JSON is wanted.
pub open spec fn as_json(run: PluginRun, json: String) -> Option<Seq<char>> {
    if run.json {
        Some(json@)
    } else {
        None
    }
}

/// What is said of a review, as JSON where that is wanted.
pub open spec fn told_review(
    run: PluginRun,
    form: Seq<char>,
    review: PluginReview,
    json: Seq<char>,
) -> Seq<char> {
    if run.json {
        json + "\n"@
    } else {
        review_text(form, review)
    }
}

/// What is said of an installation.
pub open spec fn told_installation(run: PluginRun, plugin: InstalledPlugin, json: Seq<char>) -> Seq<
    char,
> {
    if run.json {
        json + "\n"@
    } else {
        "Installed "@ + labeled(plugin.name@) + " at revision "@ + plugin.active_revision@
            + " (disabled).\n"@ + (if plugin.mutable {
            LINKED_WARNING@
        } else {
            Seq::empty()
        }) + NOTHING_STARTED@
    }
}

/// The word for a change of scope.
pub open spec fn changed_word(enable: bool) -> Seq<char> {
    if enable {
        "Enabled"@
    } else {
        "Disabled"@
    }
}

/// The work that changes a scope.
pub open spec fn change_work(enable: bool, scope: PluginScope) -> PluginWork {
    if enable {
        PluginWork::Enable { scope }
    } else {
        PluginWork::Disable { scope }
    }
}

/// The project and the profile of a scope, where it is that of a profile.
pub open spec fn set_profile_work(
    project: Option<String>,
    profile: String,
    enable: bool,
) -> PluginWork {
    PluginWork::SetProfile { project, profile, enabled: enable }
}

/// What is said of a removal.
pub open spec fn told_removal(name: Seq<char>, removed: bool) -> Seq<char> {
    if removed {
        "Removed "@ + labeled(name) + ". Workspace content was not changed.\n"@
    } else {
        "Plugin "@ + labeled(name) + " was not installed.\n"@
    }
}

/// Why a plugin that is referred to is not removed.
pub open spec fn still_used(name: Seq<char>, references: Seq<Seq<char>>) -> Seq<char> {
    "plugin "@ + debug_text(name) + " is still referenced by "@ + joined(references, ", "@)
        + "; disable those profile scopes before removal"@
}

/// How a command moves on what came of its work.
pub open spec fn plugin_moves(
    form: Seq<char>,
    before: PluginRun,
    event: PluginEvent,
    after: PluginRun,
    step: PluginStep,
) -> bool {
    match (before.stage, event) {
        (PluginStage::Over, _) => ignores(before, after, step),
        (
            PluginStage::SetProfile { scope, enable, was_enabled, .. },
            PluginEvent::Failed(error),
        ) => if enable == was_enabled {
            fails(before, after, step, error@)
        } else {
            goes_on(
                before,
                after,
                step,
                PluginStage::Undo { error },
                change_work(!enable, scope),
                Seq::empty(),
            )
        },
        (PluginStage::Undo { error }, _) => fails(before, after, step, error@),
        (_, PluginEvent::Failed(error)) => fails(before, after, step, error@),
        (PluginStage::List, PluginEvent::Listed { plugins, json }) => completes(
            before,
            after,
            step,
            if before.json {
                json@ + "\n"@
            } else if plugins@.len() == 0 {
                NONE_INSTALLED@
            } else {
                installed_texts(plugins@)
            },
        ),
        (PluginStage::Inspect, PluginEvent::Plugin { plugin, json }) => completes(
            before,
            after,
            step,
            if before.json {
                json@ + "\n"@
            } else {
                installed_text(Seq::empty(), plugin)
            },
        ),
        (PluginStage::Review, PluginEvent::Reviewed { review, json }) => completes(
            before,
            after,
            step,
            told_review(before, form, review, json@) + NOTHING_RAN@,
        ),
        (
            PluginStage::InstallReview { source, yes },
            PluginEvent::Reviewed { review, json },
        ) => if yes {
            goes_on(
                before,
                after,
                step,
                PluginStage::Install,
                PluginWork::Install { source, digest: review.digest },
                told_review(before, form, review, json@),
            )
        } else {
            completes(
                before,
                after,
                step,
                told_review(before, form, review, json@) + REVIEW_ONLY@,
            )
        },
        (PluginStage::Install, PluginEvent::Plugin { plugin, json }) => completes(
            before,
            after,
            step,
            told_installation(before, plugin, json@),
        ),
        (
            PluginStage::Scope { project, profile, enable },
            PluginEvent::Scoped { plugin, key },
        ) => goes_on(
            before,
            after,
            step,
            PluginStage::Change {
                project,
                profile,
                enable,
                was_enabled: views(plugin.enabled_scopes@).contains(key@),
            },
            change_work(enable, scope_of(project, profile)),
            Seq::empty(),
        ),
        (
            PluginStage::Change { project, profile, enable, was_enabled },
            PluginEvent::Plugin { plugin, json },
        ) => match profile {
            Some(name) => goes_on(
                before,
                after,
                step,
                PluginStage::SetProfile {
                    scope: scope_of(project, profile),
                    enable,
                    was_enabled,
                    plugin,
                    text: json,
                },
                set_profile_work(project, name, enable),
                Seq::empty(),
            ),
            None => completes(
                before,
                after,
                step,
                lifecycle_text(plugin, as_json(before, json), changed_word(enable)),
            ),
        },
        (PluginStage::SetProfile { enable, plugin, text, .. }, PluginEvent::Done) => completes(
            before,
            after,
            step,
            lifecycle_text(plugin, as_json(before, text), changed_word(enable)),
        ),
        (PluginStage::UpdateCheck, PluginEvent::UpdateReviewed { review, json }) => completes(
            before,
            after,
            step,
            if before.json {
                json@ + "\n"@
            } else {
                update_text(review)
            },
        ),
        (PluginStage::Update, PluginEvent::Plugin { plugin, json }) => completes(
            before,
            after,
            step,
            lifecycle_text(plugin, as_json(before, json), "Updated"@) + (
            if plugin.enabled_scopes@.len() == 0 {
                CAPABILITIES_CHANGED@
            } else {
                Seq::empty()
            }),
        ),
        (PluginStage::Rollback, PluginEvent::Plugin { plugin, json }) => completes(
            before,
            after,
            step,
            lifecycle_text(plugin, as_json(before, json), "Rolled back"@),
        ),
        (PluginStage::Users, PluginEvent::Users(users)) => {
            if all_users(users, before.name@).len() == 0 {
                goes_on(before, after, step, PluginStage::Remove, PluginWork::Remove, Seq::empty())
            } else {
                exists|references: Seq<Seq<char>>|
                    #[trigger] put_in_order(all_users(users, before.name@), references) && fails(
                        before,
                        after,
                        step,
                        still_used(before.name@, references),
                    )
            }
        },
        (PluginStage::Remove, PluginEvent::Removed(removed)) => completes(
            before,
            after,
            step,
            told_removal(before.name@, removed),
        ),
        (PluginStage::Collect, PluginEvent::Collected(count)) => completes(
            before,
            after,
            step,
            "Removed "@ + decimal(count as nat) + " unreferenced plugin version tree(s).\n"@,
        ),
        _ => ignores(before, after, step),
    }
}

/// Nothing changed.
pub open spec fn ignores(before: PluginRun, after: PluginRun, step: PluginStep) -> bool {
    &&& after == before
    &&& step.work == PluginWork::Ignore
    &&& step.print@.len() == 0
}

fn with_line_end(text: String) -> (line: String)
    ensures
        line@ == text@ + "\n"@,
{
    let mut line = text;
    line.append("\n");
    line
}

fn silence() -> (text: String)
    ensures
        text@ == Seq::<char>::empty(),
{
    let text = String::new();
    assert(text@ =~= Seq::<char>::empty());
    text
}

impl PluginRun {
    fn begun(name: String, json: bool, stage: PluginStage, work: PluginWork) -> (begun: (
        PluginRun,
        PluginStep,
    ))
        ensures
            begun.0 == (PluginRun { name, json, stage }),
            begun.1.work == work,
            begun.1.print@.len() == 0,
    {
        (PluginRun { name, json, stage }, PluginStep { print: silence(), work })
    }

    fn refused(name: String, json: bool, text: &str) -> (begun: (PluginRun, PluginStep))
        ensures
            begun.0 == (PluginRun { name, json, stage: PluginStage::Over }),
            begun.1.work matches PluginWork::Finish(Some(failure)) && failure@ == text@,
            begun.1.print@.len() == 0,
    {
        Self::begun(name, json, PluginStage::Over, PluginWork::Finish(Some(text.to_owned())))
    }

    /// Begins a command.
    pub fn start(command: PluginCommand) -> (begun: (PluginRun, PluginStep))
        ensures
            begun.0.name@ == subject(command),
            begun.0.json == wants_json(command),
            begun.1.print@.len() == 0,
            match beginning(command) {
                Ok((stage, work)) => begun.0.stage == stage && begun.1.work == work,
                Err(text) => begun.0.stage is Over && (begun.1.work matches PluginWork::Finish(
                    Some(failure),
                ) && failure@ == text),
            },
    {
        match command {
            PluginCommand::List { json } => Self::begun(
                silence(),
                json,
                PluginStage::List,
                PluginWork::List,
            ),
            PluginCommand::Inspect { name, json } => Self::begun(
                name,
                json,
                PluginStage::Inspect,
                PluginWork::Inspect,
            ),
            PluginCommand::Review { source, git, revision, linked, json } => match package_source(
                source,
                git,
                revision,
                linked,
            ) {
                Ok(source) => Self::begun(
                    silence(),
                    json,
                    PluginStage::Review,
                    PluginWork::InspectSource { source },
                ),
                Err(text) => Self::refused(silence(), json, text.as_str()),
            },
            PluginCommand::Install { source, git, revision, linked, yes, json } => {
                match package_source(source, git, revision, linked) {
                    Ok(source) => {
                        let copy = source.copy();
                        Self::begun(
                            silence(),
                            json,
                            PluginStage::InstallReview { source: copy, yes },
                            PluginWork::InspectSource { source },
                        )
                    },
                    Err(text) => Self::refused(silence(), json, text.as_str()),
                }
            },
            PluginCommand::Enable { name, project, profile, json } => Self::begun(
                name,
                json,
                PluginStage::Scope { project, profile, enable: true },
                PluginWork::Inspect,
            ),
            PluginCommand::Disable { name, project, profile, json } => Self::begun(
                name,
                json,
                PluginStage::Scope { project, profile, enable: false },
                PluginWork::Inspect,
            ),
            PluginCommand::UpdateCheck { name, revision, json } => Self::begun(
                name,
                json,
                PluginStage::UpdateCheck,
                PluginWork::CheckUpdate { revision },
            ),
            PluginCommand::Update { name, revision, digest, yes, json } => if yes {
                Self::begun(
                    name,
                    json,
                    PluginStage::Update,
                    PluginWork::Update { revision, digest },
                )
            } else {
                Self::refused(name, json, UPDATE_CONFIRMATION)
            },
            PluginCommand::Rollback { name, yes, json } => if yes {
                Self::begun(name, json, PluginStage::Rollback, PluginWork::Rollback)
            } else {
                Self::refused(name, json, ROLLBACK_CONFIRMATION)
            },
            PluginCommand::Remove { name, yes } => if yes {
                Self::begun(name, false, PluginStage::Users, PluginWork::GatherUsers)
            } else {
                Self::refused(name, false, REMOVAL_CONFIRMATION)
            },
            PluginCommand::Gc { yes } => if yes {
                Self::begun(silence(), false, PluginStage::Collect, PluginWork::Collect)
            } else {
                Self::refused(silence(), false, COLLECTION_CONFIRMATION)
            },
        }
    }

    fn complete(&mut self, text: String) -> (step: PluginStep)
        ensures
            completes(*old(self), *final(self), step, text@),
    {
        self.stage = PluginStage::Over;
        PluginStep { print: text, work: PluginWork::Finish(None) }
    }

    fn fail(&mut self, text: String) -> (step: PluginStep)
        ensures
            fails(*old(self), *final(self), step, text@),
    {
        self.stage = PluginStage::Over;
        PluginStep { print: silence(), work: PluginWork::Finish(Some(text)) }
    }

    fn go_on(&mut self, stage: PluginStage, work: PluginWork, text: String) -> (step: PluginStep)
        ensures
            goes_on(*old(self), *final(self), step, stage, work, text@),
    {
        self.stage = stage;
        PluginStep { print: text, work }
    }

    fn told(&self, form: &str, review: &PluginReview, json: String) -> (text: String)
        ensures
            text@ == told_review(*self, form@, *review, json@),
    {
        if self.json {
            with_line_end(json)
        } else {
            render_review(form, review)
        }
    }

    fn tell_change(&self, plugin: &InstalledPlugin, json: String, action: &str) -> (text: String)
        ensures
            text@ == lifecycle_text(*plugin, as_json(*self, json), action@),
    {
        if self.json {
            render_lifecycle(plugin, Some(json.as_str()), action)
        } else {
            render_lifecycle(plugin, None, action)
        }
    }

    fn tell_installation(&self, plugin: &InstalledPlugin, json: String) -> (text: String)
        ensures
            text@ == told_installation(*self, *plugin, json@),
    {
        if self.json {
            return with_line_end(json);
        }
        let mut text = "Installed ".to_owned();
        text.append(label(plugin.name.as_str()).as_str());
        text.append(" at revision ");
        text.append(plugin.active_revision.as_str());
        text.append(" (disabled).\n");
        if plugin.mutable {
            text.append(LINKED_WARNING);
        } else {
            assert(text@ + Seq::<char>::empty() =~= text@);
        }
        text.append(NOTHING_STARTED);
        text
    }

    fn changed(&mut self, enable: bool, plugin: InstalledPlugin, json: String) -> (step: PluginStep)
        ensures
            completes(
                *old(self),
                *final(self),
                step,
                lifecycle_text(plugin, as_json(*old(self), json), changed_word(enable)),
            ),
    {
        let text = self.tell_change(
            &plugin,
            json,
            if enable {
                "Enabled"
            } else {
                "Disabled"
            },
        );
        self.complete(text)
    }

    fn check_users(&mut self, users: &PluginUsers) -> (step: PluginStep)
        ensures
            plugin_moves(
                Seq::empty(),
                at_stage(*old(self), PluginStage::Users),
                PluginEvent::Users(*users),
                *final(self),
                step,
            ),
    {
        let references = referencing_profiles(users, self.name.as_str());
        if references.len() == 0 {
            return self.go_on(PluginStage::Remove, PluginWork::Remove, silence());
        }
        let mut text = "plugin ".to_owned();
        text.append(quoted(self.name.as_str()).as_str());
        text.append(" is still referenced by ");
        text.append(join(&references, ", ").as_str());
        text.append("; disable those profile scopes before removal");
        assert(put_in_order(all_users(*users, self.name@), views(references@)));
        self.fail(text)
    }

    fn step_scope(&mut self, stage: PluginStage, event: PluginEvent) -> (step: PluginStep)
        requires
            stage is Scope || stage is Change || stage is SetProfile,
            !(event is Failed) || stage is SetProfile,
        ensures
            forall|form: Seq<char>| #[trigger]
                plugin_moves(form, at_stage(*old(self), stage), event, *final(self), step),
    {
        match (stage, event) {
            (
                PluginStage::SetProfile { scope, enable, was_enabled, .. },
                PluginEvent::Failed(error),
            ) => if enable == was_enabled {
                self.fail(error)
            } else if enable {
                self.go_on(
                    PluginStage::Undo { error },
                    PluginWork::Disable { scope },
                    silence(),
                )
            } else {
                self.go_on(PluginStage::Undo { error }, PluginWork::Enable { scope }, silence())
            },
            (
                PluginStage::Scope { project, profile, enable },
                PluginEvent::Scoped { plugin, key },
            ) => {
                let scope = plugin_scope(&project, &profile);
                let was_enabled = list_has(&plugin.enabled_scopes, key.as_str());
                let work = if enable {
                    PluginWork::Enable { scope }
                } else {
                    PluginWork::Disable { scope }
                };
                self.go_on(
                    PluginStage::Change { project, profile, enable, was_enabled },
                    work,
                    silence(),
                )
            },
            (
                PluginStage::Change { project, profile, enable, was_enabled },
                PluginEvent::Plugin { plugin, json },
            ) => {
                let scope = plugin_scope(&project, &profile);
                match profile {
                    Some(name) => self.go_on(
                        PluginStage::SetProfile {
                            scope,
                            enable,
                            was_enabled,
                            plugin,
                            text: json,
                        },
                        PluginWork::SetProfile { project, profile: name, enabled: enable },
                        silence(),
                    ),
                    None => self.changed(enable, plugin, json),
                }
            },
            (PluginStage::SetProfile { enable, plugin, text, .. }, PluginEvent::Done) => {
                self.changed(enable, plugin, text)
            },
            (stage, _) => {
                self.stage = stage;
                PluginStep { print: silence(), work: PluginWork::Ignore }
            },
        }
    }

    fn step_review(&mut self, form: &str, stage: PluginStage, event: PluginEvent) -> (step:
        PluginStep)
        requires
            stage is Review || stage is InstallReview || stage is UpdateCheck,
            !(event is Failed),
        ensures
            plugin_moves(form@, at_stage(*old(self), stage), event, *final(self), step),
    {
        match (stage, event) {
            (PluginStage::Review, PluginEvent::Reviewed { review, json }) => {
                let mut text = self.told(form, &review, json);
                text.append(NOTHING_RAN);
                self.complete(text)
            },
            (
                PluginStage::InstallReview { source, yes },
                PluginEvent::Reviewed { review, json },
            ) => {
                let mut text = self.told(form, &review, json);
                if yes {
                    self.go_on(
                        PluginStage::Install,
                        PluginWork::Install { source, digest: review.digest },
                        text,
                    )
                } else {
                    text.append(REVIEW_ONLY);
                    self.complete(text)
                }
            },
            (PluginStage::UpdateCheck, PluginEvent::UpdateReviewed { review, json }) => {
                let text = if self.json {
                    with_line_end(json)
                } else {
                    render_update_review(&review)
                };
                self.complete(text)
            },
            (stage, _) => {
                self.stage = stage;
                PluginStep { print: silence(), work: PluginWork::Ignore }
            },
        }
    }

    fn step_other(&mut self, stage: PluginStage, event: PluginEvent) -> (step: PluginStep)
        requires
            !(stage is Scope || stage is Change || stage is SetProfile || stage is Review || stage
                is InstallReview || stage is UpdateCheck || stage is Undo || stage is Over),
            !(event is Failed),
        ensures
            forall|form: Seq<char>| #[trigger]
                plugin_moves(form, at_stage(*old(self), stage), event, *final(self), step),
    {
        match (stage, event) {
            (PluginStage::List, PluginEvent::Listed { plugins, json }) => {
                let text = if self.json {
                    with_line_end(json)
                } else if plugins.len() == 0 {
                    NONE_INSTALLED.to_owned()
                } else {
                    render_list(&plugins)
                };
                self.complete(text)
            },
            (PluginStage::Inspect, PluginEvent::Plugin { plugin, json }) => {
                let text = if self.json {
                    with_line_end(json)
                } else {
                    let mut text = silence();
                    render_installed(&mut text, &plugin);
                    text
                };
                self.complete(text)
            },
            (PluginStage::Install, PluginEvent::Plugin { plugin, json }) => {
                let text = self.tell_installation(&plugin, json);
                self.complete(text)
            },
            (PluginStage::Update, PluginEvent::Plugin { plugin, json }) => {
                let mut text = self.tell_change(&plugin, json, "Updated");
                if plugin.enabled_scopes.len() == 0 {
                    text.append(CAPABILITIES_CHANGED);
                } else {
                    assert(text@ + Seq::<char>::empty() =~= text@);
                }
                self.complete(text)
            },
            (PluginStage::Rollback, PluginEvent::Plugin { plugin, json }) => {
                let text = self.tell_change(&plugin, json, "Rolled back");
                self.complete(text)
            },
            (PluginStage::Users, PluginEvent::Users(users)) => self.check_users(&users),
            (PluginStage::Remove, PluginEvent::Removed(removed)) => {
                let mut text = if removed {
                    "Removed ".to_owned()
                } else {
                    "Plugin ".to_owned()
                };
                text.append(label(self.name.as_str()).as_str());
                text.append(
                    if removed {
                        ". Workspace content was not changed.\n"
                    } else {
                        " was not installed.\n"
                    },
                );
                self.complete(text)
            },
            (PluginStage::Collect, PluginEvent::Collected(count)) => {
                let mut text = "Removed ".to_owned();
                text.append(decimal_text(count).as_str());
                text.append(" unreferenced plugin version tree(s).\n");
                self.complete(text)
            },
            (stage, _) => {
                self.stage = stage;
                PluginStep { print: silence(), work: PluginWork::Ignore }
            },
        }
    }

    /// Moves a command on what came of its work. `form` names the reviewed
    /// version of packages.
    pub fn step(&mut self, form: &str, event: PluginEvent) -> (step: PluginStep)
        ensures
            plugin_moves(form@, *old(self), event, *final(self), step),
    {
        let mut stage = PluginStage::Over;
        core::mem::swap(&mut self.stage, &mut stage);
        match (stage, event) {
            (PluginStage::Over, _) => PluginStep { print: silence(), work: PluginWork::Ignore },
            (PluginStage::Undo { error }, _) => self.fail(error),
            (stage, event) => match stage {
                PluginStage::Scope { .. } | PluginStage::Change { .. } => match event {
                    PluginEvent::Failed(error) => self.fail(error),
                    event => self.step_scope(stage, event),
                },
                PluginStage::SetProfile { .. } => self.step_scope(stage, event),
                _ => match event {
                    PluginEvent::Failed(error) => self.fail(error),
                    event => match stage {
                        PluginStage::Review
                        | PluginStage::InstallReview { .. }
                        | PluginStage::UpdateCheck => self.step_review(form, stage, event),
                        _ => self.step_other(stage, event),
                    },
                },
            },
        }
    }
}

impl PackageSource {
    fn copy(&self) -> (copy: PackageSource)
        ensures
            copy == *self,
    {
        match self {
            PackageSource::Git { url, revision } => PackageSource::Git {
                url: url.clone(),
                revision: revision.clone(),
            },
            PackageSource::Linked { path } => PackageSource::Linked { path: path.clone() },
            PackageSource::Directory { path } => PackageSource::Directory { path: path.clone() },
        }
    }
}

/// Only the reviewed source, by the reviewed digest, is installed, and only by a
/// command that was confirmed. A review alone installs nothing.
pub proof fn only_reviewed_sources_are_installed(
    form: Seq<char>,
    before: PluginRun,
    event: PluginEvent,
    after: PluginRun,
    step: PluginStep,
)
    requires
        plugin_moves(form, before, event, after, step),
    ensures
        step.work matches PluginWork::Install { source, digest } ==> {
            &&& before.stage == (PluginStage::InstallReview { source, yes: true })
            &&& event matches PluginEvent::Reviewed { review, .. }
            &&& digest == review.digest
        },
{
}

/// When a plugin's scope was changed and the profile could not be, the scope is
/// put back as it was found, and the failure is reported either way.
pub proof fn failed_profile_changes_are_undone(
    form: Seq<char>,
    before: PluginRun,
    error: String,
    after: PluginRun,
    step: PluginStep,
    event: PluginEvent,
    last: PluginRun,
    last_step: PluginStep,
)
    requires
        before.stage is SetProfile,
        plugin_moves(form, before, PluginEvent::Failed(error), after, step),
        plugin_moves(form, after, event, last, last_step),
    ensures
        before.stage matches PluginStage::SetProfile { scope, enable, was_enabled, .. } ==> {
            &&& enable == was_enabled ==> (step.work matches PluginWork::Finish(Some(text))
                && text@ == error@)
            &&& enable && !was_enabled ==> step.work == (PluginWork::Disable { scope })
            &&& !enable && was_enabled ==> step.work == (PluginWork::Enable { scope })
            &&& enable != was_enabled ==> (last_step.work matches PluginWork::Finish(Some(text))
                && text@ == error@)
        },
{
}

/// A plugin that anything refers to is not removed.
pub proof fn used_plugins_are_kept(
    form: Seq<char>,
    before: PluginRun,
    event: PluginEvent,
    after: PluginRun,
    step: PluginStep,
)
    requires
        plugin_moves(form, before, event, after, step),
    ensures
        step.work is Remove ==> before.stage is Users && (event matches PluginEvent::Users(users)
            && all_users(users, before.name@).len() == 0),
{
}

/// Nothing that a plugin's text brings along reaches the terminal as a control
/// character, and a shown text keeps its length.
pub proof fn labels_show_no_control(text: Seq<char>)
    ensures
        labeled(text).len() == text.len(),
        forall|i: int| 0 <= i < text.len() ==> !is_control(#[trigger] labeled(text)[i]),
{
}

/// A package is taken from where its flags say: from a repository with a revision, from a
/// linked directory or from a directory, at the place that was written. Flags that say two
/// of these, or half of one, are refused.
pub proof fn sources_are_as_flagged(
    source: String,
    git: bool,
    revision: Option<String>,
    linked: bool,
    read: Result<PackageSource, String>,
)
    requires
        call_ensures(package_source, (source, git, revision, linked), read),
    ensures
        read is Ok <==> git == (revision is Some) && !(git && linked),
        read matches Ok(PackageSource::Git { url, revision: at }) ==> git && !linked && url
            == source && revision == Some(at),
        read matches Ok(PackageSource::Linked { path }) ==> linked && !git && path == source,
        read matches Ok(PackageSource::Directory { path }) ==> !linked && !git && path == source,
{
}

/// A plugin is enabled for what was named: for the user where nothing was, for a project,
/// or for a profile, of a project where one was named with it.
pub proof fn scopes_are_as_named(project: Option<String>, profile: Option<String>)
    ensures
        scope_of(project, profile) == PluginScope::User <==> project is None && profile is None,
        scope_of(project, profile) matches PluginScope::Project { project: held } ==> project
            == Some(held) && profile is None,
        scope_of(project, profile) matches PluginScope::Profile { project: of, profile: held }
            ==> of == project && profile == Some(held),
        profile is Some ==> scope_of(project, profile) is Profile,
{
}

/// A command begins with the work of its name on what it names: a review and an
/// installation look at the source first, an update is to the revision and the digest that
/// were given, and nothing is updated, put back, removed or collected unconfirmed.
pub proof fn plugin_commands_begin_with_their_work(command: PluginCommand)
    ensures
        beginning(command) matches Ok((stage, work)) ==> {
            &&& work is List <==> command is List
            &&& work is Inspect <==> command is Inspect || command is Enable || command is Disable
            &&& work is InspectSource <==> command is Review || command is Install
            &&& work is GatherUsers <==> command is Remove
            &&& work is Collect <==> command is Gc
            &&& work is Rollback <==> command is Rollback
            &&& work is CheckUpdate <==> command is UpdateCheck
            &&& work matches PluginWork::CheckUpdate { revision } ==> (command
                matches PluginCommand::UpdateCheck { revision: asked, .. } && asked == revision)
            &&& work matches PluginWork::Update { revision, digest } ==> (command
                matches PluginCommand::Update { revision: asked, digest: reviewed, yes, .. }
                && asked == revision && reviewed == digest && yes)
            &&& stage matches PluginStage::InstallReview { source, yes } ==> (command
                matches PluginCommand::Install { yes: confirmed, .. } && confirmed == yes) && work
                == (PluginWork::InspectSource { source })
            &&& stage is Review ==> command is Review
            &&& stage matches PluginStage::Scope { project, profile, enable } ==> {
                ||| command matches PluginCommand::Enable { project: p, profile: q, .. } && enable
                    && p == project && q == profile
                ||| command matches PluginCommand::Disable { project: p, profile: q, .. } && !enable
                    && p == project && q == profile
            }
            &&& work !is Remove && work !is Install && work !is Enable && work !is Disable && work
                !is SetProfile && work !is Finish
        },
        (match command {
            PluginCommand::Update { yes, .. }
            | PluginCommand::Rollback { yes, .. }
            | PluginCommand::Remove { yes, .. }
            | PluginCommand::Gc { yes } => beginning(command) is Ok <==> yes,
            PluginCommand::Review { .. } | PluginCommand::Install { .. } => true,
            _ => beginning(command) is Ok,
        }),
{
}

proof fn users_are_gathered(
    users: Seq<PluginUser>,
    plugin: Seq<char>,
    prefix: Seq<char>,
    quote: bool,
)
    ensures
        users_of(users, plugin, prefix, quote).len() > 0 <==> exists|i: int|
            0 <= i < users.len() && views((#[trigger] users[i]).plugins@).contains(plugin),
    decreases users.len(),
{
    if users.len() > 0 {
        let rest = users.drop_last();
        users_are_gathered(rest, plugin, prefix, quote);
        assert(users.last() == users[users.len() - 1]);
        if users_of(rest, plugin, prefix, quote).len() > 0 {
            let at = choose|i: int|
                0 <= i < rest.len() && views((#[trigger] rest[i]).plugins@).contains(plugin);
            assert(users[at] == rest[at]);
        }
        if exists|i: int|
            0 <= i < users.len() && views((#[trigger] users[i]).plugins@).contains(plugin) {
            let at = choose|i: int|
                0 <= i < users.len() && views((#[trigger] users[i]).plugins@).contains(plugin);
            if at < users.len() - 1 {
                assert(rest[at] == users[at]);
            }
        }
    }
}

/// Whether something of a project uses a plugin.
pub open spec fn used_by_project(project: ProjectProfiles, plugin: Seq<char>) -> bool {
    exists|i: int|
        0 <= i < project.profiles@.len() && views(
            (#[trigger] project.profiles@[i]).plugins@,
        ).contains(plugin)
}

proof fn project_users_are_gathered(projects: Seq<ProjectProfiles>, plugin: Seq<char>)
    ensures
        project_users(projects, plugin).len() > 0 <==> exists|i: int|
            0 <= i < projects.len() && used_by_project(#[trigger] projects[i], plugin),
    decreases projects.len(),
{
    if projects.len() > 0 {
        let rest = projects.drop_last();
        let last = projects.last();
        project_users_are_gathered(rest, plugin);
        users_are_gathered(last.profiles@, plugin, project_prefix(last.project@), true);
        assert(last == projects[projects.len() - 1]);
        if project_users(rest, plugin).len() > 0 {
            let at = choose|i: int|
                0 <= i < rest.len() && used_by_project(#[trigger] rest[i], plugin);
            assert(projects[at] == rest[at]);
        }
        if exists|i: int| 0 <= i < projects.len() && used_by_project(
            #[trigger] projects[i],
            plugin,
        ) {
            let at = choose|i: int|
                0 <= i < projects.len() && used_by_project(#[trigger] projects[i], plugin);
            if at < projects.len() - 1 {
                assert(rest[at] == projects[at]);
            }
        }
    }
}

/// Everything that uses a plugin is found: a profile, a profile of a project, or a
/// conversation. Where nothing uses it, nothing is found.
pub proof fn every_user_is_found(users: PluginUsers, plugin: Seq<char>)
    ensures
        all_users(users, plugin).len() > 0 <==> {
            ||| exists|i: int|
                0 <= i < users.profiles@.len() && views(
                    (#[trigger] users.profiles@[i]).plugins@,
                ).contains(plugin)
            ||| exists|i: int|
                0 <= i < users.projects@.len() && used_by_project(
                    #[trigger] users.projects@[i],
                    plugin,
                )
            ||| exists|i: int|
                0 <= i < users.conversations@.len() && views(
                    (#[trigger] users.conversations@[i]).plugins@,
                ).contains(plugin)
        },
{
    users_are_gathered(users.profiles@, plugin, "global profile "@, true);
    project_users_are_gathered(users.projects@, plugin);
    users_are_gathered(users.conversations@, plugin, "frozen conversation "@, false);
}

/// A plugin that nothing uses is removed once that was looked at; one that something uses
/// is kept, and the removal fails.
pub proof fn unused_plugins_are_removed(
    form: Seq<char>,
    before: PluginRun,
    users: PluginUsers,
    after: PluginRun,
    step: PluginStep,
)
    requires
        plugin_moves(form, before, PluginEvent::Users(users), after, step),
        before.stage is Users,
    ensures
        step.work is Remove <==> all_users(users, before.name@).len() == 0,
        step.work !is Remove ==> (step.work matches PluginWork::Finish(Some(_))),
{
}

/// Enabling enables and disabling disables, for the scope that was named: first the
/// plugin and then, where a profile was named, that profile, and to the same end.
pub proof fn plugins_are_switched_as_asked(
    form: Seq<char>,
    before: PluginRun,
    event: PluginEvent,
    after: PluginRun,
    step: PluginStep,
)
    requires
        plugin_moves(form, before, event, after, step),
    ensures
        before.stage matches PluginStage::Scope { project, profile, enable } ==> (event
            matches PluginEvent::Scoped { plugin, key } ==> {
            &&& enable ==> step.work == (PluginWork::Enable { scope: scope_of(project, profile) })
            &&& !enable ==> step.work == (PluginWork::Disable { scope: scope_of(project, profile) })
            &&& after.stage matches PluginStage::Change { was_enabled, enable: e, .. } && e
                == enable && (was_enabled <==> views(plugin.enabled_scopes@).contains(key@))
        }),
        before.stage matches PluginStage::Change { project, profile, enable, .. } ==> (event
            is Plugin ==> {
            &&& profile matches Some(named) ==> step.work == (PluginWork::SetProfile {
                project,
                profile: named,
                enabled: enable,
            })
            &&& profile is None ==> step.work == PluginWork::Finish(None)
        }),
        step.work is Enable || step.work is Disable ==> before.stage is Scope || before.stage
            is SetProfile,
        step.work is SetProfile ==> before.stage is Change,
{
}

/// A command on plugins ends once, well where its work came back and in a failure, which
/// is told as it came, where it did not; and it writes the JSON that came back where JSON
/// is wanted.
pub proof fn plugin_commands_end_as_they_came_out(
    form: Seq<char>,
    before: PluginRun,
    event: PluginEvent,
    after: PluginRun,
    step: PluginStep,
)
    requires
        plugin_moves(form, before, event, after, step),
    ensures
        after.name == before.name,
        after.json == before.json,
        before.stage is Over ==> after.stage is Over && step.work is Ignore && step.print@.len()
            == 0,
        step.work is Finish <==> after.stage is Over && before.stage !is Over,
        before.stage !is Over && before.stage !is Undo && before.stage !is SetProfile ==> (event
            matches PluginEvent::Failed(cause) ==> (step.work matches PluginWork::Finish(Some(told))
            && told@ == cause@)),
        step.work matches PluginWork::Finish(Some(_)) ==> step.print@.len() == 0,
        before.stage is List && event is Listed || before.stage is Inspect && event is Plugin
            || before.stage is Review && event is Reviewed || before.stage is Install && event
            is Plugin || before.stage is UpdateCheck && event is UpdateReviewed || before.stage
            is Update && event is Plugin || before.stage is Rollback && event is Plugin
            || before.stage is Remove && event is Removed || before.stage is Collect && event
            is Collected || before.stage is SetProfile && event is Done ==> step.work
            == PluginWork::Finish(None),
        before.json && (before.stage is List || before.stage is Inspect || before.stage is Review
            || before.stage is Install || before.stage is UpdateCheck || before.stage is Update
            || before.stage is Rollback) ==> match event {
            PluginEvent::Listed { json, .. }
            | PluginEvent::Plugin { json, .. }
            | PluginEvent::Reviewed { json, .. }
            | PluginEvent::UpdateReviewed { json, .. } => step.work == PluginWork::Finish(None)
                ==> json@.is_prefix_of(step.print@),
            _ => true,
        },
{
    let text = step.print@;
    match event {
        PluginEvent::Listed { json, .. }
        | PluginEvent::Plugin { json, .. }
        | PluginEvent::Reviewed { json, .. }
        | PluginEvent::UpdateReviewed { json, .. } => {
            if before.json && step.work == PluginWork::Finish(None) && json@.len() <= text.len() {
                assert(text.take(json@.len() as int) =~= json@ || !(before.stage is List
                    || before.stage is Inspect || before.stage is Review || before.stage is Install
                    || before.stage is UpdateCheck || before.stage is Update || before.stage
                    is Rollback));
            }
        },
        _ => {},
    }
}

/// A removal says that the plugin was removed where it was, and that it was not installed
/// where it was not.
pub proof fn removals_say_what_was_removed(name: Seq<char>)
    ensures
        "Removed "@.is_prefix_of(told_removal(name, true)),
        !"Removed "@.is_prefix_of(told_removal(name, false)),
        occurs(told_removal(name, true), labeled(name)),
        occurs(told_removal(name, false), labeled(name)),
{
    reveal_strlit("Removed ");
    reveal_strlit("Plugin ");
    let done = told_removal(name, true);
    let absent = told_removal(name, false);
    parts_occur("Removed "@, labeled(name), ". Workspace content was not changed.\n"@);
    parts_occur("Plugin "@, labeled(name), " was not installed.\n"@);
    assert("Removed "@ =~= done.take("Removed "@.len() as int));
    assert(absent[0] == "Plugin "@[0]);
    assert("Removed "@[0] != "Plugin "@[0]);
}

/// A review tells the digest, and whether the source can still change.
pub proof fn reviews_tell_the_source(form: Seq<char>, review: PluginReview)
    ensures
        occurs(
            review_text(form, review),
            "\n  Digest:     "@ + review.digest@ + "\n  Source:     "@ + (if review.mutable {
                "linked and mutable"@
            } else {
                "immutable on install"@
            }),
        ),
{
    let front = AGENT_PLUGIN_FORM@ + form + ")\n  Name:       "@ + labeled(review.name@)
        + "\n  Version:    "@ + (match review.version {
        Some(version) => labeled(version@),
        None => "not declared"@,
    });
    let part = "\n  Digest:     "@ + review.digest@ + "\n  Source:     "@ + (if review.mutable {
        "linked and mutable"@
    } else {
        "immutable on install"@
    });
    let end = "\n  Skills:     "@ + listed(review.skills@) + "\n"@;
    let head = front + part + end;
    let listing = if review.mcp_servers@.len() == 0 {
        head + "  MCP:        none compatible\n"@
    } else {
        server_lines(head + "  MCP requests:\n"@, review.mcp_servers@)
    };
    assert(head =~= AGENT_PLUGIN_FORM@ + form + ")\n  Name:       "@ + labeled(review.name@)
        + "\n  Version:    "@ + (match review.version {
        Some(version) => labeled(version@),
        None => "not declared"@,
    }) + "\n  Digest:     "@ + review.digest@ + "\n  Source:     "@ + (if review.mutable {
        "linked and mutable"@
    } else {
        "immutable on install"@
    }) + "\n  Skills:     "@ + listed(review.skills@) + "\n"@);
    parts_occur(front, part, end);
    if review.mcp_servers@.len() == 0 {
        assert(head =~= listing.take(head.len() as int));
    } else {
        servers_are_appended(head + "  MCP requests:\n"@, review.mcp_servers@);
        assert(head =~= (head + "  MCP requests:\n"@).take(head.len() as int));
        assert(head =~= listing.take(head.len() as int));
    }
    beginnings_are_held(head, listing, part);
    notes_are_appended(listing, review.diagnostics@);
    beginnings_are_held(listing, review_text(form, review), part);
}

proof fn servers_are_appended(output: Seq<char>, servers: Seq<RequestedServer>)
    ensures
        output.is_prefix_of(server_lines(output, servers)),
    decreases servers.len(),
{
    if servers.len() > 0 {
        servers_are_appended(output, servers.drop_last());
        let earlier = server_lines(output, servers.drop_last());
        let whole = server_lines(output, servers);
        assert(earlier =~= whole.take(earlier.len() as int));
        assert(output =~= whole.take(output.len() as int));
    } else {
        assert(output =~= output.take(output.len() as int));
    }
}

proof fn notes_are_appended(output: Seq<char>, notes: Seq<String>)
    ensures
        output.is_prefix_of(note_lines(output, notes)),
    decreases notes.len(),
{
    if notes.len() > 0 {
        notes_are_appended(output, notes.drop_last());
        let earlier = note_lines(output, notes.drop_last());
        let whole = note_lines(output, notes);
        assert(earlier =~= whole.take(earlier.len() as int));
        assert(output =~= whole.take(output.len() as int));
    } else {
        assert(output =~= output.take(output.len() as int));
    }
}

/// Every server that a package asks for is told of in its review as what it is: a local
/// process as a process, and one on the network as one.
pub proof fn requested_servers_are_told(
    output: Seq<char>,
    servers: Seq<RequestedServer>,
    at: int,
)
    requires
        0 <= at < servers.len(),
    ensures
        occurs(
            server_lines(output, servers),
            "    "@ + labeled(servers[at].name@) + " ["@ + (match servers[at].kind {
                McpServerKind::Stdio => "local process"@,
                McpServerKind::StreamableHttp => "network"@,
            }) + "] "@ + labeled(servers[at].destination@) + "\n"@,
        ),
    decreases servers.len(),
{
    let earlier = server_lines(output, servers.drop_last());
    let whole = server_lines(output, servers);
    let part = "    "@ + labeled(servers[at].name@) + " ["@ + (match servers[at].kind {
        McpServerKind::Stdio => "local process"@,
        McpServerKind::StreamableHttp => "network"@,
    }) + "] "@ + labeled(servers[at].destination@) + "\n"@;
    if at == servers.len() - 1 {
        assert(whole =~= earlier + part + Seq::<char>::empty());
        parts_occur(earlier, part, Seq::empty());
    } else {
        requested_servers_are_told(output, servers.drop_last(), at);
        assert(earlier =~= whole.take(earlier.len() as int));
        beginnings_are_held(earlier, whole, part);
    }
}

/// What a reviewed update changes is told: from which revision to which, and whether it
/// has to be approved again.
pub proof fn updates_tell_what_changes(review: PluginUpdateReview)
    ensures
        occurs(update_text(review), "\n  Current:   "@ + review.current_revision@),
        occurs(update_text(review), "\n  Candidate: "@ + review.candidate_revision@),
        occurs(
            update_text(review),
            "\n  Changed:   "@ + (if review.changed {
                "true"@
            } else {
                "false"@
            }),
        ),
        occurs(
            update_text(review),
            "\n  Approval:  "@ + (if review.requires_reapproval {
                "required because capabilities changed"@
            } else {
                "existing exact scopes may carry forward"@
            }),
        ),
{
    let current = "\n  Current:   "@ + review.current_revision@;
    let candidate = "\n  Candidate: "@ + review.candidate_revision@;
    let changed = "\n  Changed:   "@ + (if review.changed {
        "true"@
    } else {
        "false"@
    });
    let approval = "\n  Approval:  "@ + (if review.requires_reapproval {
        "required because capabilities changed"@
    } else {
        "existing exact scopes may carry forward"@
    });
    let front = "Plugin update review: "@ + labeled(review.name@);
    let one = front + "\n  Current:   "@ + review.current_revision@;
    let two = one + "\n  Candidate: "@ + review.candidate_revision@;
    let three = two + "\n  Changed:   "@ + (if review.changed {
        "true"@
    } else {
        "false"@
    });
    let four = three + "\n  Added skills: "@ + listed(review.added_skills@);
    let five = four + "\n  Removed skills: "@ + listed(review.removed_skills@);
    let six = five + "\n  Added MCP: "@ + listed(review.added_mcp_servers@);
    let seven = six + "\n  Removed MCP: "@ + listed(review.removed_mcp_servers@);
    let eight = seven + "\n  Approval:  "@ + (if review.requires_reapproval {
        "required because capabilities changed"@
    } else {
        "existing exact scopes may carry forward"@
    });
    let text = update_text(review);
    assert(text == eight + "\n"@);
    ends_occur(front, "\n  Current:   "@, review.current_revision@);
    ends_occur(one, "\n  Candidate: "@, review.candidate_revision@);
    ends_occur(
        two,
        "\n  Changed:   "@,
        if review.changed {
            "true"@
        } else {
            "false"@
        },
    );
    ends_occur(
        seven,
        "\n  Approval:  "@,
        if review.requires_reapproval {
            "required because capabilities changed"@
        } else {
            "existing exact scopes may carry forward"@
        },
    );
    longer_texts_hold_the_same(eight, "\n"@, approval);
    longer_by_two(one, "\n  Candidate: "@, review.candidate_revision@, current);
    longer_by_two(
        two,
        "\n  Changed:   "@,
        if review.changed {
            "true"@
        } else {
            "false"@
        },
        current,
    );
    longer_by_two(
        two,
        "\n  Changed:   "@,
        if review.changed {
            "true"@
        } else {
            "false"@
        },
        candidate,
    );
    assert forall|part: Seq<char>| occurs(three, part) implies #[trigger] occurs(text, part) by {
        longer_by_two(three, "\n  Added skills: "@, listed(review.added_skills@), part);
        longer_by_two(four, "\n  Removed skills: "@, listed(review.removed_skills@), part);
        longer_by_two(five, "\n  Added MCP: "@, listed(review.added_mcp_servers@), part);
        longer_by_two(six, "\n  Removed MCP: "@, listed(review.removed_mcp_servers@), part);
        longer_by_two(
            seven,
            "\n  Approval:  "@,
            if review.requires_reapproval {
                "required because capabilities changed"@
            } else {
                "existing exact scopes may carry forward"@
            },
            part,
        );
        longer_texts_hold_the_same(eight, "\n"@, part);
    }
}

proof fn longer_by_two(text: Seq<char>, one: Seq<char>, two: Seq<char>, part: Seq<char>)
    requires
        occurs(text, part),
    ensures
        occurs(text + one + two, part),
{
    longer_texts_hold_the_same(text, one, part);
    longer_texts_hold_the_same(text + one, two, part);
}

/// What is said of a plugin before its source.
pub open spec fn plugin_head(plugin: InstalledPlugin) -> Seq<char> {
    labeled(plugin.name@) + " ["@ + plugin.active_revision@ + "; "@ + (if plugin.mutable {
        "linked mutable"@
    } else {
        "immutable"@
    }) + "; "@ + plugin.health@
}

proof fn heads_come_first(output: Seq<char>, plugin: InstalledPlugin)
    ensures
        output + labeled(plugin.name@) + " ["@ + plugin.active_revision@ + "; "@ + (
        if plugin.mutable {
            "linked mutable"@
        } else {
            "immutable"@
        }) + "; "@ + plugin.health@ == output + plugin_head(plugin),
{
}

/// An installed plugin is told of under its name, as changeable where it is, and with the
/// way back where there is one.
pub proof fn installed_plugins_are_told(output: Seq<char>, plugin: InstalledPlugin)
    ensures
        output.is_prefix_of(installed_text(output, plugin)),
        occurs(installed_text(output, plugin), plugin_head(plugin)),
        occurs(
            installed_text(output, plugin),
            "\n  Rollback: "@ + (if plugin.rollback_available {
                "available"@
            } else {
                "unavailable"@
            }),
        ),
        plugin.pending_update matches Some(revision) ==> occurs(
            installed_text(output, plugin),
            "  Pending reviewed update: "@ + revision@,
        ),
{
    let text = installed_text(output, plugin);
    let nothing = Seq::<char>::empty();
    let head = output + plugin_head(plugin);
    heads_come_first(output, plugin);
    let one = head + "]\n  Source: "@ + plugin.source_kind@;
    let two = one + " "@ + labeled(plugin.source_location@);
    let scopes = if plugin.enabled_scopes@.len() == 0 {
        "none"@
    } else {
        joined(views(plugin.enabled_scopes@), ", "@)
    };
    let three = two + "\n  Enabled scopes: "@ + scopes;
    let word = if plugin.rollback_available {
        "available"@
    } else {
        "unavailable"@
    };
    let four = three + "\n  Rollback: "@ + word;
    let five = four + "\n"@;
    assert(head + nothing =~= head);
    parts_occur(output, plugin_head(plugin), nothing);
    longer_by_two(head, "]\n  Source: "@, plugin.source_kind@, plugin_head(plugin));
    longer_by_two(one, " "@, labeled(plugin.source_location@), plugin_head(plugin));
    longer_by_two(two, "\n  Enabled scopes: "@, scopes, plugin_head(plugin));
    longer_by_two(three, "\n  Rollback: "@, word, plugin_head(plugin));
    longer_texts_hold_the_same(four, "\n"@, plugin_head(plugin));
    ends_occur(three, "\n  Rollback: "@, word);
    longer_texts_hold_the_same(four, "\n"@, "\n  Rollback: "@ + word);
    fronts_are_kept(output, plugin_head(plugin), nothing);
    fronts_are_kept(head, "]\n  Source: "@, plugin.source_kind@);
    fronts_are_kept(one, " "@, labeled(plugin.source_location@));
    fronts_are_kept(two, "\n  Enabled scopes: "@, scopes);
    fronts_are_kept(three, "\n  Rollback: "@, word);
    fronts_are_kept(four, "\n"@, nothing);
    assert(five + nothing =~= five);
    fronts_go_on(output, head, one);
    fronts_go_on(output, one, two);
    fronts_go_on(output, two, three);
    fronts_go_on(output, three, four);
    fronts_go_on(output, four, five);
    if let Some(revision) = plugin.pending_update {
        assert(text == five + "  Pending reviewed update: "@ + revision@ + "\n"@);
        let six = five + "  Pending reviewed update: "@ + revision@;
        longer_by_two(five, "  Pending reviewed update: "@, revision@, plugin_head(plugin));
        longer_texts_hold_the_same(six, "\n"@, plugin_head(plugin));
        longer_by_two(
            five,
            "  Pending reviewed update: "@,
            revision@,
            "\n  Rollback: "@ + word,
        );
        longer_texts_hold_the_same(six, "\n"@, "\n  Rollback: "@ + word);
        ends_occur(five, "  Pending reviewed update: "@, revision@);
        longer_texts_hold_the_same(six, "\n"@, "  Pending reviewed update: "@ + revision@);
        fronts_are_kept(five, "  Pending reviewed update: "@, revision@);
        fronts_are_kept(six, "\n"@, nothing);
        assert(text + nothing =~= text);
        fronts_go_on(output, five, six);
        fronts_go_on(output, six, text);
    } else {
        assert(text == five);
    }
}

proof fn fronts_are_kept(front: Seq<char>, one: Seq<char>, two: Seq<char>)
    ensures
        front.is_prefix_of(front + one + two),
{
    assert(front =~= (front + one + two).take(front.len() as int));
}

proof fn fronts_go_on(front: Seq<char>, middle: Seq<char>, whole: Seq<char>)
    requires
        front.is_prefix_of(middle),
        middle.is_prefix_of(whole),
    ensures
        front.is_prefix_of(whole),
{
    assert(front =~= whole.take(front.len() as int));
}

/// Every installed plugin is in the list.
pub proof fn plugins_are_listed(plugins: Seq<InstalledPlugin>, at: int)
    requires
        0 <= at < plugins.len(),
    ensures
        occurs(installed_texts(plugins), plugin_head(plugins[at])),
    decreases plugins.len(),
{
    let earlier = installed_texts(plugins.drop_last());
    let whole = installed_texts(plugins);
    installed_plugins_are_told(earlier, plugins.last());
    if at < plugins.len() - 1 {
        plugins_are_listed(plugins.drop_last(), at);
        beginnings_are_held(earlier, whole, plugin_head(plugins[at]));
    }
}

/// A shown text is the text itself wherever it has no control character.
pub proof fn labels_keep_what_can_be_shown(text: Seq<char>, at: int)
    requires
        0 <= at < text.len(),
    ensures
        !is_control(text[at]) ==> labeled(text)[at] == text[at],
        is_control(text[at]) ==> labeled(text)[at] == '\u{fffd}',
{
}

/// A command on plugins starts quietly and in the form that was asked for; one that takes
/// something away or puts another in its place does nothing where it was not confirmed.
pub proof fn plugin_commands_start_by_consent(
    command: PluginCommand,
    begun: (PluginRun, PluginStep),
)
    requires
        call_ensures(PluginRun::start, (command,), begun),
    ensures
        begun.1.print@.len() == 0,
        begun.0.json == wants_json(command),
        begun.0.name@ == subject(command),
        match command {
            PluginCommand::Update { yes, .. }
            | PluginCommand::Rollback { yes, .. }
            | PluginCommand::Remove { yes, .. }
            | PluginCommand::Gc { yes } => begun.1.work is Finish <==> !yes,
            PluginCommand::Review { .. } | PluginCommand::Install { .. } => true,
            _ => begun.1.work !is Finish,
        },
        begun.1.work matches PluginWork::Finish(end) ==> end is Some,
{
    plugin_commands_begin_with_their_work(command);
}

}
