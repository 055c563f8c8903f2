//! The commands on MCP servers, step by step.

use crate::config::{
    find_profile, found_profiles_have_the_name, profile_index, ConnectionRegistry,
    CredentialReference, McpPrimitiveSelection, McpServerDeclaration,
};
use crate::mcp::{
    list_configured, named_values, named_views, parse_arguments, server_rows, NO_DEFAULT_PROFILE,
    NO_SERVERS,
};
use crate::text::{
    beginnings_are_held, debug_text, occurs, parts_occur, quoted, views,
};
use vstd::prelude::*;
use vstd::string::*;

verus! {

/// How many primitives a list shows.
pub const DISPLAY_LIMIT: usize = 64;

pub const STDIO_CONFIRMATION: &'static str = "MCP configuration requires --yes after reviewing the exact command, arguments, profile, and allowlist";

pub const HTTP_CONFIRMATION: &'static str = "MCP configuration requires --yes after reviewing the exact endpoint, profile, credential reference, and allowlist";

pub const REMOVAL_CONFIRMATION: &'static str = "MCP removal requires --yes and removes only the declaration and profile references";

pub const TOP_LEVEL_ONLY: &'static str = "`mcp serve` must be started from Xana's top-level command";

pub const NO_REVIEW: &'static str = "MCP server has no outbound review contract";

pub const SAVES_GRANT: &'static str = "This explicit refresh saves the exact recipient/workspace_metadata grant; revoke it with `xana outbound revoke`.\n";

/// A command on MCP servers.
#[derive(Debug, PartialEq, Eq)]
pub enum McpCommand {
    List,
    Serve,
    AddStdio {
        server: String,
        command: String,
        arguments: Vec<String>,
        cwd: Option<String>,
        profile: Option<String>,
        tools: Vec<String>,
        resources: Vec<String>,
        prompts: Vec<String>,
        yes: bool,
    },
    AddHttp {
        server: String,
        url: String,
        credential_env: Option<String>,
        profile: Option<String>,
        tools: Vec<String>,
        resources: Vec<String>,
        prompts: Vec<String>,
        yes: bool,
    },
    Remove { server: String, yes: bool },
    Refresh { server: String },
    Tools { server: String, query: String },
    Resources { server: String, query: String },
    Read { server: String, uri: String },
    Prompts { server: String, query: String },
    Prompt { server: String, name: String, arguments: Vec<String> },
}

/// The server that a command uses once it is configured.
pub fn command_server(command: &McpCommand) -> (server: Option<&str>)
    ensures
        match *command {
            McpCommand::Refresh { server: name }
            | McpCommand::Tools { server: name, .. }
            | McpCommand::Resources { server: name, .. }
            | McpCommand::Read { server: name, .. }
            | McpCommand::Prompts { server: name, .. }
            | McpCommand::Prompt { server: name, .. } => server matches Some(text) && text@
                == name@,
            _ => server is None,
        },
{
    match command {
        McpCommand::Refresh { server }
        | McpCommand::Tools { server, .. }
        | McpCommand::Resources { server, .. }
        | McpCommand::Read { server, .. }
        | McpCommand::Prompts { server, .. }
        | McpCommand::Prompt { server, .. } => Some(server.as_str()),
        _ => None,
    }
}

/// A server that is added to the configuration, for a profile.
#[derive(Debug, PartialEq, Eq)]
pub struct NewMcpServer {
    pub server: String,
    pub declaration: McpServerDeclaration,
    pub profile: String,
    pub selection: McpPrimitiveSelection,
}

/// What is done with a server once its catalog is there.
#[derive(Debug, PartialEq, Eq)]
pub enum McpUse {
    Ready,
    Tools { query: String },
    Resources { query: String },
    Read { uri: String },
    Prompts { query: String },
    Prompt { name: String, arguments: Vec<String> },
}

/// What is done next.
#[derive(Debug, PartialEq, Eq)]
pub enum McpWork {
    Add(NewMcpServer),
    Remove { server: String },
    /// What contacting the server would disclose is put together.
    Review { server: String },
    /// The server is contacted and its catalog read. Whether the owner's approval
    /// is kept for later, or holds once.
    Refresh { server: String, save_approval: bool },
    Tools { query: String, limit: usize },
    Resources { query: String, limit: usize },
    Read { server: String, uri: String },
    Prompts { query: String, limit: usize },
    Invoke { server: String, name: String, arguments: Vec<(String, String)> },
    Finish(Option<String>),
    /// The command failed for a cause of its own.
    Fail { text: String, cause: String },
    Ignore,
}

/// What came of it.
#[derive(Debug, PartialEq, Eq)]
pub enum McpEvent {
    Added { backup: String },
    Removed { backup: String },
    Reviewed { text: Option<String> },
    Refreshed,
    /// The server could not be contacted, and why.
    RefreshFailed { cause: String },
    Rows(Vec<(String, String, String)>),
    Document { json: String },
    Failed(String),
}

/// Where a command stands.
#[derive(Debug, PartialEq, Eq)]
pub enum McpStage {
    Add { stdio: bool, profile: String },
    Remove,
    Review { used: McpUse },
    Refresh { used: McpUse },
    Rows,
    Document,
    Over,
}

/// A command that is being run.
#[derive(Debug, PartialEq, Eq)]
pub struct McpRun {
    pub server: String,
    pub stage: McpStage,
}

/// What a command says and has done next.
#[derive(Debug, PartialEq, Eq)]
pub struct McpStep {
    pub print: String,
    pub work: McpWork,
}

/// The profile that a server is added for: the default one, where none is named.
pub open spec fn added_for(profile: Option<String>, registry: ConnectionRegistry) -> String {
    match profile {
        Some(profile) => profile,
        None => registry.default_profile,
    }
}

/// Whether a selection is of tools, resources and prompts, and of no templates.
pub open spec fn selection_is(
    selection: McpPrimitiveSelection,
    tools: Vec<String>,
    resources: Vec<String>,
    prompts: Vec<String>,
) -> bool {
    &&& selection.tools == tools
    &&& selection.resources == resources
    &&& selection.prompts == prompts
    &&& selection.resource_templates@.len() == 0
}

/// What a command does with a server, if it uses one.
pub open spec fn use_of(command: McpCommand) -> Option<(String, McpUse)> {
    match command {
        McpCommand::Refresh { server } => Some((server, McpUse::Ready)),
        McpCommand::Tools { server, query } => Some((server, McpUse::Tools { query })),
        McpCommand::Resources { server, query } => Some((server, McpUse::Resources { query })),
        McpCommand::Read { server, uri } => Some((server, McpUse::Read { uri })),
        McpCommand::Prompts { server, query } => Some((server, McpUse::Prompts { query })),
        McpCommand::Prompt { server, name, arguments } => Some(
            (server, McpUse::Prompt { name, arguments }),
        ),
        _ => None,
    }
}

/// A command that ends as it begins, with a failure.
pub open spec fn refused(run: McpRun, step: McpStep, text: Seq<char>) -> bool {
    &&& run.stage is Over
    &&& step.print@.len() == 0
    &&& step.work matches McpWork::Finish(Some(failure))
    &&& failure@ == text
}

/// How a command begins.
pub open spec fn begins(
    command: McpCommand,
    registry: ConnectionRegistry,
    run: McpRun,
    step: McpStep,
) -> bool {
    let at = profile_index(registry.profiles@, registry.default_profile@);
    let missing = at >= registry.profiles@.len();
    match command {
        McpCommand::List => if missing {
            refused(run, step, NO_DEFAULT_PROFILE@)
        } else {
            &&& run.stage is Over
            &&& step.work == McpWork::Finish(None)
            &&& step.print@ == (if registry.mcp_servers@.len() == 0 {
                NO_SERVERS@
            } else {
                server_rows(Seq::empty(), registry.mcp_servers@, registry.profiles@[at as int])
            })
        },
        McpCommand::Serve => refused(run, step, TOP_LEVEL_ONLY@),
        McpCommand::AddStdio {
            server,
            command: program,
            arguments,
            cwd,
            profile,
            tools,
            resources,
            prompts,
            yes,
        } => if !yes {
            refused(run, step, STDIO_CONFIRMATION@)
        } else {
            &&& run.server == server
            &&& run.stage == (McpStage::Add { stdio: true, profile: added_for(profile, registry) })
            &&& step.print@.len() == 0
            &&& step.work matches McpWork::Add(added)
            &&& added.server == server
            &&& added.profile == added_for(profile, registry)
            &&& selection_is(added.selection, tools, resources, prompts)
            &&& added.declaration matches McpServerDeclaration::Stdio {
                command: c,
                args,
                environment,
                cwd: d,
                enabled,
                egress_policy,
            }
            &&& c == program
            &&& args == arguments
            &&& environment@.len() == 0
            &&& d == cwd
            &&& enabled
            &&& egress_policy is None
        },
        McpCommand::AddHttp {
            server,
            url,
            credential_env,
            profile,
            tools,
            resources,
            prompts,
            yes,
        } => if !yes {
            refused(run, step, HTTP_CONFIRMATION@)
        } else {
            &&& run.server == server
            &&& run.stage == (McpStage::Add { stdio: false, profile: added_for(profile, registry) })
            &&& step.print@.len() == 0
            &&& step.work matches McpWork::Add(added)
            &&& added.server == server
            &&& added.profile == added_for(profile, registry)
            &&& selection_is(added.selection, tools, resources, prompts)
            &&& added.declaration == (McpServerDeclaration::StreamableHttp {
                url,
                credential: match credential_env {
                    Some(variable) => Some(CredentialReference::Environment { variable }),
                    None => None,
                },
                enabled: true,
                egress_policy: None,
            })
        },
        McpCommand::Remove { server, yes } => if !yes {
            refused(run, step, REMOVAL_CONFIRMATION@)
        } else {
            &&& run == (McpRun { server, stage: McpStage::Remove })
            &&& step.print@.len() == 0
            &&& step.work == (McpWork::Remove { server })
        },
        used => if missing {
            refused(run, step, NO_DEFAULT_PROFILE@)
        } else {
            &&& use_of(used) matches Some((server, how))
            &&& run.server == server
            &&& step.print@.len() == 0
            &&& if how is Ready {
                run.stage == (McpStage::Review { used: how }) && step.work == (McpWork::Review {
                    server,
                })
            } else {
                run.stage == (McpStage::Refresh { used: how }) && step.work == (McpWork::Refresh {
                    server,
                    save_approval: false,
                })
            }
        },
    }
}

/// The rows of primitives.
pub open spec fn primitive_rows(rows: Seq<(String, String, String)>) -> Seq<char>
    decreases rows.len(),
{
    if rows.len() == 0 {
        Seq::empty()
    } else {
        primitive_rows(rows.drop_last()) + rows.last().0@ + "\t"@ + rows.last().1@ + "\t"@
            + rows.last().2@ + "\n"@
    }
}

/// The run at another stage.
pub open spec fn at_stage(run: McpRun, stage: McpStage) -> McpRun {
    McpRun { stage, ..run }
}

/// The command ends well, and says something.
pub open spec fn completes(before: McpRun, after: McpRun, step: McpStep, text: Seq<char>) -> bool {
    &&& after == at_stage(before, McpStage::Over)
    &&& step.print@ == text
    &&& step.work == McpWork::Finish(None)
}

/// The command ends with a failure.
pub open spec fn fails(before: McpRun, after: McpRun, step: McpStep, text: Seq<char>) -> bool {
    &&& after == at_stage(before, McpStage::Over)
    &&& refused(after, step, text)
}

/// The command goes on.
pub open spec fn goes_on(
    before: McpRun,
    after: McpRun,
    step: McpStep,
    stage: McpStage,
    work: McpWork,
    text: Seq<char>,
) -> bool {
    &&& after == at_stage(before, stage)
    &&& step.work == work
    &&& step.print@ == text
}

/// How a command goes on when the server's catalog is there.
pub open spec fn uses(before: McpRun, used: McpUse, after: McpRun, step: McpStep) -> bool {
    match used {
        McpUse::Ready => completes(
            before,
            after,
            step,
            "MCP server "@ + debug_text(before.server@)
                + " is ready; bounded catalog refreshed.\n"@,
        ),
        McpUse::Tools { query } => goes_on(
            before,
            after,
            step,
            McpStage::Rows,
            McpWork::Tools { query, limit: DISPLAY_LIMIT },
            Seq::empty(),
        ),
        McpUse::Resources { query } => goes_on(
            before,
            after,
            step,
            McpStage::Rows,
            McpWork::Resources { query, limit: DISPLAY_LIMIT },
            Seq::empty(),
        ),
        McpUse::Prompts { query } => goes_on(
            before,
            after,
            step,
            McpStage::Rows,
            McpWork::Prompts { query, limit: DISPLAY_LIMIT },
            Seq::empty(),
        ),
        McpUse::Read { uri } => goes_on(
            before,
            after,
            step,
            McpStage::Document,
            McpWork::Read { server: before.server, uri },
            Seq::empty(),
        ),
        McpUse::Prompt { name, arguments } => match named_values(views(arguments@)) {
            Err(error) => fails(before, after, step, error),
            Ok(values) => {
                &&& after == at_stage(before, McpStage::Document)
                &&& step.print@.len() == 0
                &&& step.work matches McpWork::Invoke { server, name: asked, arguments: given }
                &&& server == before.server
                &&& asked == name
                &&& named_views(given@) == values
            },
        },
    }
}

/// Nothing changed.
pub open spec fn ignores(before: McpRun, after: McpRun, step: McpStep) -> bool {
    &&& after == before
    &&& step.work == McpWork::Ignore
    &&& step.print@.len() == 0
}

/// How a command moves on what came of its work.
pub open spec fn mcp_moves(before: McpRun, event: McpEvent, after: McpRun, step: McpStep) -> bool {
    match (before.stage, event) {
        (McpStage::Over, _) => ignores(before, after, step),
        (_, McpEvent::Failed(text)) => fails(before, after, step, text@),
        (McpStage::Add { stdio, profile }, McpEvent::Added { backup }) => completes(
            before,
            after,
            step,
            (if stdio {
                "MCP stdio server "@
            } else {
                "MCP HTTP server "@
            }) + debug_text(before.server@) + " added and enabled for profile "@ + debug_text(
                profile@,
            ) + ".\nBackup: "@ + backup@ + "\nNext: xana mcp refresh "@ + before.server@ + "\n"@,
        ),
        (McpStage::Remove, McpEvent::Removed { backup }) => completes(
            before,
            after,
            step,
            "MCP server "@ + debug_text(before.server@)
                + " and its profile references were removed.\nBackup: "@ + backup@ + "\n"@,
        ),
        (McpStage::Review { used }, McpEvent::Reviewed { text }) => match text {
            None => fails(before, after, step, NO_REVIEW@),
            Some(text) => goes_on(
                before,
                after,
                step,
                McpStage::Refresh { used },
                McpWork::Refresh { server: before.server, save_approval: true },
                text@ + "\n"@ + SAVES_GRANT@,
            ),
        },
        (McpStage::Refresh { used }, McpEvent::Refreshed) => uses(before, used, after, step),
        (McpStage::Refresh { .. }, McpEvent::RefreshFailed { cause }) => {
            &&& after == at_stage(before, McpStage::Over)
            &&& step.work matches McpWork::Fail { text, cause: held }
            &&& text@ == "could not refresh MCP server "@ + debug_text(before.server@)
            &&& held == cause
            &&& step.print@.len() == 0
        },
        (McpStage::Rows, McpEvent::Rows(rows)) => completes(
            before,
            after,
            step,
            primitive_rows(rows@),
        ),
        (McpStage::Document, McpEvent::Document { json }) => completes(
            before,
            after,
            step,
            json@ + "\n"@,
        ),
        _ => ignores(before, after, step),
    }
}

fn silence() -> (text: String)
    ensures
        text@ == Seq::<char>::empty(),
{
    let text = String::new();
    assert(text@ =~= Seq::<char>::empty());
    text
}

fn write_rows(rows: &Vec<(String, String, String)>) -> (text: String)
    ensures
        text@ == primitive_rows(rows@),
{
    let mut text = silence();
    let mut i: usize = 0;
    assert(rows@.take(0) =~= Seq::<(String, String, String)>::empty());
    while i < rows.len()
        invariant
            i <= rows@.len(),
            text@ == primitive_rows(rows@.take(i as int)),
        decreases rows@.len() - i,
    {
        assert(rows@.take(i + 1).drop_last() =~= rows@.take(i as int));
        text.append(rows[i].0.as_str());
        text.append("\t");
        text.append(rows[i].1.as_str());
        text.append("\t");
        text.append(rows[i].2.as_str());
        text.append("\n");
        i += 1;
    }
    assert(rows@.take(i as int) =~= rows@);
    text
}

impl McpRun {
    fn refuse(server: String, text: String) -> (begun: (McpRun, McpStep))
        ensures
            refused(begun.0, begun.1, text@),
            begun.0.server == server,
    {
        (
            McpRun { server, stage: McpStage::Over },
            McpStep { print: silence(), work: McpWork::Finish(Some(text)) },
        )
    }

    fn begin(server: String, stage: McpStage, work: McpWork) -> (begun: (McpRun, McpStep))
        ensures
            begun.0 == (McpRun { server, stage }),
            begun.1.work == work,
            begun.1.print@.len() == 0,
    {
        (McpRun { server, stage }, McpStep { print: silence(), work })
    }

    fn add(added: NewMcpServer, stdio: bool) -> (begun: (McpRun, McpStep))
        ensures
            begun.0 == (McpRun {
                server: added.server,
                stage: McpStage::Add { stdio, profile: added.profile },
            }),
            begun.1.work == McpWork::Add(added),
            begun.1.print@.len() == 0,
    {
        let server = added.server.clone();
        let profile = added.profile.clone();
        Self::begin(server, McpStage::Add { stdio, profile }, McpWork::Add(added))
    }

    fn use_server(server: String, used: McpUse, registry: &ConnectionRegistry) -> (begun: (
        McpRun,
        McpStep,
    ))
        ensures
            ({
                let at = profile_index(registry.profiles@, registry.default_profile@);
                if at >= registry.profiles@.len() {
                    refused(begun.0, begun.1, NO_DEFAULT_PROFILE@)
                } else {
                    &&& begun.0.server == server
                    &&& begun.1.print@.len() == 0
                    &&& if used is Ready {
                        begun.0.stage == (McpStage::Review { used }) && begun.1.work == (
                        McpWork::Review { server })
                    } else {
                        begun.0.stage == (McpStage::Refresh { used }) && begun.1.work == (
                        McpWork::Refresh { server, save_approval: false })
                    }
                }
            }),
    {
        if find_profile(&registry.profiles, registry.default_profile.as_str()).is_none() {
            return Self::refuse(server, NO_DEFAULT_PROFILE.to_owned());
        }
        let name = server.clone();
        match used {
            McpUse::Ready => Self::begin(
                name,
                McpStage::Review { used: McpUse::Ready },
                McpWork::Review { server },
            ),
            used => Self::begin(
                name,
                McpStage::Refresh { used },
                McpWork::Refresh { server, save_approval: false },
            ),
        }
    }

    /// Begins a command.
    pub fn start(command: McpCommand, registry: &ConnectionRegistry) -> (begun: (McpRun, McpStep))
        ensures
            begins(command, *registry, begun.0, begun.1),
    {
        match command {
            McpCommand::List => {
                let mut print = silence();
                match list_configured(registry, &mut print) {
                    Ok(_) => {
                        assert(registry.mcp_servers@.len() == 0 ==> print@ =~= NO_SERVERS@);
                        (
                            McpRun { server: silence(), stage: McpStage::Over },
                            McpStep { print, work: McpWork::Finish(None) },
                        )
                    },
                    Err(text) => Self::refuse(silence(), text),
                }
            },
            McpCommand::Serve => Self::refuse(silence(), TOP_LEVEL_ONLY.to_owned()),
            McpCommand::AddStdio {
                server,
                command,
                arguments,
                cwd,
                profile,
                tools,
                resources,
                prompts,
                yes,
            } => {
                if !yes {
                    return Self::refuse(server, STDIO_CONFIRMATION.to_owned());
                }
                let profile = match profile {
                    Some(profile) => profile,
                    None => registry.default_profile.clone(),
                };
                Self::add(
                    NewMcpServer {
                        server,
                        declaration: McpServerDeclaration::Stdio {
                            command,
                            args: arguments,
                            environment: Vec::new(),
                            cwd,
                            enabled: true,
                            egress_policy: None,
                        },
                        profile,
                        selection: McpPrimitiveSelection {
                            tools,
                            resources,
                            resource_templates: Vec::new(),
                            prompts,
                        },
                    },
                    true,
                )
            },
            McpCommand::AddHttp {
                server,
                url,
                credential_env,
                profile,
                tools,
                resources,
                prompts,
                yes,
            } => {
                if !yes {
                    return Self::refuse(server, HTTP_CONFIRMATION.to_owned());
                }
                let profile = match profile {
                    Some(profile) => profile,
                    None => registry.default_profile.clone(),
                };
                let credential = match credential_env {
                    Some(variable) => Some(CredentialReference::Environment { variable }),
                    None => None,
                };
                Self::add(
                    NewMcpServer {
                        server,
                        declaration: McpServerDeclaration::StreamableHttp {
                            url,
                            credential,
                            enabled: true,
                            egress_policy: None,
                        },
                        profile,
                        selection: McpPrimitiveSelection {
                            tools,
                            resources,
                            resource_templates: Vec::new(),
                            prompts,
                        },
                    },
                    false,
                )
            },
            McpCommand::Remove { server, yes } => {
                if !yes {
                    return Self::refuse(server, REMOVAL_CONFIRMATION.to_owned());
                }
                let name = server.clone();
                Self::begin(name, McpStage::Remove, McpWork::Remove { server })
            },
            McpCommand::Refresh { server } => Self::use_server(server, McpUse::Ready, registry),
            McpCommand::Tools { server, query } => Self::use_server(
                server,
                McpUse::Tools { query },
                registry,
            ),
            McpCommand::Resources { server, query } => Self::use_server(
                server,
                McpUse::Resources { query },
                registry,
            ),
            McpCommand::Read { server, uri } => Self::use_server(
                server,
                McpUse::Read { uri },
                registry,
            ),
            McpCommand::Prompts { server, query } => Self::use_server(
                server,
                McpUse::Prompts { query },
                registry,
            ),
            McpCommand::Prompt { server, name, arguments } => Self::use_server(
                server,
                McpUse::Prompt { name, arguments },
                registry,
            ),
        }
    }

    fn complete(&mut self, text: String) -> (step: McpStep)
        ensures
            completes(*old(self), *final(self), step, text@),
    {
        self.stage = McpStage::Over;
        McpStep { print: text, work: McpWork::Finish(None) }
    }

    fn fail(&mut self, text: String) -> (step: McpStep)
        ensures
            fails(*old(self), *final(self), step, text@),
    {
        self.stage = McpStage::Over;
        McpStep { print: silence(), work: McpWork::Finish(Some(text)) }
    }

    fn go(&mut self, stage: McpStage, work: McpWork, text: String) -> (step: McpStep)
        ensures
            goes_on(*old(self), *final(self), step, stage, work, text@),
    {
        self.stage = stage;
        McpStep { print: text, work }
    }

    fn about(&self, head: &str, what: &str) -> (text: String)
        ensures
            text@ == head@ + debug_text(self.server@) + what@,
    {
        let mut text = head.to_owned();
        text.append(quoted(self.server.as_str()).as_str());
        text.append(what);
        text
    }

    fn proceed(&mut self, used: McpUse) -> (step: McpStep)
        ensures
            uses(*old(self), used, *final(self), step),
    {
        match used {
            McpUse::Ready => {
                let text = self.about("MCP server ", " is ready; bounded catalog refreshed.\n");
                self.complete(text)
            },
            McpUse::Tools { query } => self.go(
                McpStage::Rows,
                McpWork::Tools { query, limit: DISPLAY_LIMIT },
                silence(),
            ),
            McpUse::Resources { query } => self.go(
                McpStage::Rows,
                McpWork::Resources { query, limit: DISPLAY_LIMIT },
                silence(),
            ),
            McpUse::Prompts { query } => self.go(
                McpStage::Rows,
                McpWork::Prompts { query, limit: DISPLAY_LIMIT },
                silence(),
            ),
            McpUse::Read { uri } => {
                let server = self.server.clone();
                self.go(McpStage::Document, McpWork::Read { server, uri }, silence())
            },
            McpUse::Prompt { name, arguments } => match parse_arguments(&arguments) {
                Err(text) => self.fail(text),
                Ok(values) => {
                    let server = self.server.clone();
                    self.go(
                        McpStage::Document,
                        McpWork::Invoke { server, name, arguments: values },
                        silence(),
                    )
                },
            },
        }
    }

    /// Moves a command on what came of its work.
    pub fn step(&mut self, event: McpEvent) -> (step: McpStep)
        ensures
            mcp_moves(*old(self), event, *final(self), step),
    {
        let mut stage = McpStage::Over;
        core::mem::swap(&mut self.stage, &mut stage);
        match (stage, event) {
            (McpStage::Over, _) => McpStep { print: silence(), work: McpWork::Ignore },
            (_, McpEvent::Failed(text)) => self.fail(text),
            (McpStage::Add { stdio, profile }, McpEvent::Added { backup }) => {
                let mut text = self.about(
                    if stdio {
                        "MCP stdio server "
                    } else {
                        "MCP HTTP server "
                    },
                    " added and enabled for profile ",
                );
                text.append(quoted(profile.as_str()).as_str());
                text.append(".\nBackup: ");
                text.append(backup.as_str());
                text.append("\nNext: xana mcp refresh ");
                text.append(self.server.as_str());
                text.append("\n");
                self.complete(text)
            },
            (McpStage::Remove, McpEvent::Removed { backup }) => {
                let mut text = self.about(
                    "MCP server ",
                    " and its profile references were removed.\nBackup: ",
                );
                text.append(backup.as_str());
                text.append("\n");
                self.complete(text)
            },
            (McpStage::Review { used }, McpEvent::Reviewed { text }) => match text {
                None => self.fail(NO_REVIEW.to_owned()),
                Some(text) => {
                    let mut print = text;
                    print.append("\n");
                    print.append(SAVES_GRANT);
                    let server = self.server.clone();
                    self.go(
                        McpStage::Refresh { used },
                        McpWork::Refresh { server, save_approval: true },
                        print,
                    )
                },
            },
            (McpStage::Refresh { used }, McpEvent::Refreshed) => self.proceed(used),
            (McpStage::Refresh { .. }, McpEvent::RefreshFailed { cause }) => {
                let text = self.about("could not refresh MCP server ", "");
                proof {
                    reveal_strlit("");
                    assert(text@ =~= "could not refresh MCP server "@ + debug_text(self.server@));
                }
                self.stage = McpStage::Over;
                McpStep { print: String::new(), work: McpWork::Fail { text, cause } }
            },
            (McpStage::Rows, McpEvent::Rows(rows)) => {
                let text = write_rows(&rows);
                self.complete(text)
            },
            (McpStage::Document, McpEvent::Document { json }) => {
                let mut text = json;
                text.append("\n");
                self.complete(text)
            },
            (stage, _) => {
                self.stage = stage;
                McpStep { print: silence(), work: McpWork::Ignore }
            },
        }
    }
}

/// Only an explicit refresh keeps the owner's approval for later, and only after
/// what it discloses was shown; every other use of a server is approved once.
pub proof fn only_refreshes_save_approvals(
    before: McpRun,
    event: McpEvent,
    after: McpRun,
    step: McpStep,
)
    requires
        mcp_moves(before, event, after, step),
    ensures
        step.work matches McpWork::Refresh { save_approval, .. } ==> {
            &&& save_approval
            &&& before.stage is Review
            &&& event matches McpEvent::Reviewed { text }
            &&& text is Some
        },
{
}

/// The configuration is changed only by a command that was confirmed.
pub proof fn changes_are_confirmed(
    command: McpCommand,
    registry: ConnectionRegistry,
    run: McpRun,
    step: McpStep,
)
    requires
        begins(command, registry, run, step),
    ensures
        step.work is Add ==> match command {
            McpCommand::AddStdio { yes, .. } => yes,
            McpCommand::AddHttp { yes, .. } => yes,
            _ => false,
        },
        step.work is Remove ==> (command matches McpCommand::Remove { yes, .. } && yes),
        step.work matches McpWork::Refresh { save_approval, .. } ==> !save_approval,
{
}

/// A server is added as it was described, with no more and no less than the tools, the
/// resources and the prompts that were named, for the profile that was named or the
/// default one, and only where that was confirmed. A new server gets no secret and no
/// policy by itself.
pub proof fn servers_are_added_as_described(
    command: McpCommand,
    registry: ConnectionRegistry,
    run: McpRun,
    step: McpStep,
)
    requires
        begins(command, registry, run, step),
        step.work is Add,
    ensures
        ({
            let added = step.work->Add_0;
            &&& added.selection.resource_templates@.len() == 0
            &&& command matches McpCommand::AddStdio {
                server,
                command: program,
                arguments,
                cwd,
                profile,
                tools,
                resources,
                prompts,
                yes,
            } ==> {
                &&& yes
                &&& added.server == server && run.server == server
                &&& added.selection.tools == tools
                &&& added.selection.resources == resources
                &&& added.selection.prompts == prompts
                &&& profile matches Some(named) ==> added.profile == named
                &&& profile is None ==> added.profile == registry.default_profile
                &&& added.declaration matches McpServerDeclaration::Stdio {
                    command: held,
                    args,
                    environment,
                    cwd: place,
                    enabled,
                    egress_policy,
                }
                &&& held == program && args == arguments && place == cwd && enabled
                &&& environment@.len() == 0 && egress_policy is None
            }
            &&& command matches McpCommand::AddHttp {
                server,
                url,
                credential_env,
                profile,
                tools,
                resources,
                prompts,
                yes,
            } ==> {
                &&& yes
                &&& added.server == server && run.server == server
                &&& added.selection.tools == tools
                &&& added.selection.resources == resources
                &&& added.selection.prompts == prompts
                &&& profile matches Some(named) ==> added.profile == named
                &&& profile is None ==> added.profile == registry.default_profile
                &&& added.declaration matches McpServerDeclaration::StreamableHttp {
                    url: held,
                    credential,
                    enabled,
                    egress_policy,
                }
                &&& held == url && enabled && egress_policy is None
                &&& credential is Some <==> credential_env is Some
                &&& credential matches Some(CredentialReference::Environment { variable })
                    ==> credential_env == Some(variable)
                &&& !(credential matches Some(CredentialReference::Stored { .. }))
            }
            &&& command is AddStdio || command is AddHttp
        }),
{
}

/// What a command does with a server is what its name says, with what it was given: the
/// query, the address or the prompt of the command are those that are asked for, of the
/// server that was named.
pub proof fn servers_are_used_as_asked(
    command: McpCommand,
    registry: ConnectionRegistry,
    begun: McpRun,
    first: McpStep,
    before: McpRun,
    after: McpRun,
    step: McpStep,
)
    requires
        begins(command, registry, begun, first),
        first.work is Refresh,
        before == begun,
        mcp_moves(before, McpEvent::Refreshed, after, step),
    ensures
        first.work == (McpWork::Refresh { server: begun.server, save_approval: false }),
        step.work matches McpWork::Tools { query, limit } ==> command == (McpCommand::Tools {
            server: begun.server,
            query,
        }) && limit == 64,
        step.work matches McpWork::Resources { query, limit } ==> command == (
        McpCommand::Resources { server: begun.server, query }) && limit == 64,
        step.work matches McpWork::Prompts { query, limit } ==> command == (McpCommand::Prompts {
            server: begun.server,
            query,
        }) && limit == 64,
        step.work matches McpWork::Read { server, uri } ==> command == (McpCommand::Read {
            server,
            uri,
        }),
        step.work matches McpWork::Invoke { server, name, arguments } ==> (command
            matches McpCommand::Prompt { server: named, name: asked, arguments: given } && named
            == server && asked == name && named_values(views(given@)) == Ok::<
            Seq<(Seq<char>, Seq<char>)>,
            Seq<char>,
        >(named_views(arguments@))),
        step.work is Tools || step.work is Resources || step.work is Prompts || step.work is Read
            || step.work is Invoke || command is Prompt,
{
}

/// Nothing is removed, added or contacted but by a command that says so: a removal is of
/// the server that was named and was confirmed, and a list or an attempt to serve does
/// nothing.
pub proof fn mcp_commands_begin_with_their_work(
    command: McpCommand,
    registry: ConnectionRegistry,
    run: McpRun,
    step: McpStep,
)
    requires
        begins(command, registry, run, step),
    ensures
        step.work matches McpWork::Remove { server } ==> command == (McpCommand::Remove {
            server,
            yes: true,
        }),
        (command matches McpCommand::Remove { yes, .. } && yes) ==> step.work is Remove,
        (command matches McpCommand::AddStdio { yes, .. } && yes) ==> step.work is Add,
        (command matches McpCommand::AddHttp { yes, .. } && yes) ==> step.work is Add,
        step.work matches McpWork::Review { server } ==> command == (McpCommand::Refresh { server }),
        command is List || command is Serve ==> step.work is Finish,
        command is Serve ==> step.work != McpWork::Finish(None),
        step.work != McpWork::Finish(None) ==> step.print@.len() == 0,
        (exists|i: int|
            0 <= i < registry.profiles@.len() && #[trigger] registry.profiles@[i].name@
                == registry.default_profile@) ==> {
            &&& command is List ==> step.work == McpWork::Finish(None)
            &&& command is Refresh ==> step.work is Review
            &&& command is Tools || command is Resources || command is Prompts || command is Read
                || command is Prompt ==> step.work is Refresh
        },
{
    found_profiles_have_the_name(registry.profiles@, registry.default_profile@);
}

/// A command on servers ends once. It ends well with what came back for it, and a failure
/// is told as it came; a server that could not be reached is told with its cause.
pub proof fn mcp_commands_end_as_they_came_out(
    before: McpRun,
    event: McpEvent,
    after: McpRun,
    step: McpStep,
)
    requires
        mcp_moves(before, event, after, step),
    ensures
        after.server == before.server,
        before.stage is Over ==> after.stage is Over && step.work is Ignore,
        step.work is Finish || step.work is Fail <==> after.stage is Over && before.stage !is Over,
        before.stage !is Over ==> (event matches McpEvent::Failed(cause) ==> (step.work
            matches McpWork::Finish(Some(told)) && told@ == cause@) && step.print@.len() == 0),
        before.stage is Refresh ==> (event matches McpEvent::RefreshFailed { cause } ==> (step.work
            matches McpWork::Fail { cause: told, .. } && told == cause)),
        step.work == McpWork::Finish(None) <==> {
            ||| before.stage is Add && event is Added
            ||| before.stage is Remove && event is Removed
            ||| before.stage == (McpStage::Refresh { used: McpUse::Ready }) && event is Refreshed
            ||| before.stage is Rows && event is Rows
            ||| before.stage is Document && event is Document
        },
        before.stage is Review ==> (event matches McpEvent::Reviewed { text } ==> {
            &&& step.work is Refresh <==> text is Some
            &&& text matches Some(told) ==> told@.is_prefix_of(step.print@)
        }),
        before.stage is Document ==> (event matches McpEvent::Document { json }
            ==> json@.is_prefix_of(step.print@)),
{
    if let McpEvent::Reviewed { text: Some(told) } = event {
        if before.stage is Review {
            assert(told@ =~= step.print@.take(told@.len() as int));
        }
    }
    if let McpEvent::Document { json } = event {
        if before.stage is Document {
            assert(json@ =~= step.print@.take(json@.len() as int));
        }
    }
}

/// Every primitive that came back is listed, with its three columns in their order.
pub proof fn primitives_are_listed(rows: Seq<(String, String, String)>, at: int)
    requires
        0 <= at < rows.len(),
    ensures
        occurs(
            primitive_rows(rows),
            rows[at].0@ + "\t"@ + rows[at].1@ + "\t"@ + rows[at].2@ + "\n"@,
        ),
    decreases rows.len(),
{
    let earlier = primitive_rows(rows.drop_last());
    let whole = primitive_rows(rows);
    let part = rows[at].0@ + "\t"@ + rows[at].1@ + "\t"@ + rows[at].2@ + "\n"@;
    if at == rows.len() - 1 {
        assert(whole =~= earlier + part + Seq::<char>::empty());
        parts_occur(earlier, part, Seq::empty());
    } else {
        primitives_are_listed(rows.drop_last(), at);
        assert(earlier =~= whole.take(earlier.len() as int));
        beginnings_are_held(earlier, whole, part);
    }
}

/// The server that a command concerns is the one that it names; a command that lists or
/// changes the configuration concerns none.
pub proof fn commands_concern_the_server_they_name(command: &McpCommand, server: Option<&str>)
    requires
        call_ensures(command_server, (command,), server),
    ensures
        *command matches McpCommand::Refresh { server: name } ==> (server matches Some(text)
            && text@ == name@),
        *command matches McpCommand::Tools { server: name, .. } ==> (server matches Some(text)
            && text@ == name@),
        *command matches McpCommand::Resources { server: name, .. } ==> (server matches Some(text)
            && text@ == name@),
        *command matches McpCommand::Read { server: name, .. } ==> (server matches Some(text)
            && text@ == name@),
        *command matches McpCommand::Prompts { server: name, .. } ==> (server matches Some(text)
            && text@ == name@),
        *command matches McpCommand::Prompt { server: name, .. } ==> (server matches Some(text)
            && text@ == name@),
        server is Some ==> *command is Refresh || *command is Tools || *command is Resources
            || *command is Read || *command is Prompts || *command is Prompt,
{
}

}
