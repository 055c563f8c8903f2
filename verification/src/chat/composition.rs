//! Composing a native execution: its parts are made one after another, and the
//! first that fails ends the composition.

use crate::chat::launch::ProviderKind;
use crate::text::{copy_option, join, joined, list_has, text_eq, views};
use vstd::prelude::*;
use vstd::string::*;

verus! {

pub const OTHER_OWNER: &'static str = "This native Conversation cannot change to a managed execution owner; select a native model to keep working here. No history was changed.";

/// The name of the tool that brings the web tools along.
pub const WEB_TOOL: &'static str = "web_fetch";

/// The settings that an execution is composed under.
#[derive(Debug, PartialEq, Eq)]
pub struct CompositionSettings {
    /// What keeps the profile from being used.
    pub readiness: Vec<String>,
    pub profile: String,
    pub connection: String,
    pub model: String,
    pub reasoning_effort: Option<String>,
    /// What the settings were resolved from.
    pub inputs_digest: String,
}

/// A part of an execution, or what a part is made from.
#[derive(Clone, Copy, PartialEq, Eq, Structural, Debug)]
pub enum Part {
    Config,
    Registry,
    Models,
    Connection,
    Shell,
    Policy,
    Artifacts,
    PluginSkills,
    SkillCatalog,
    Skills,
    Model,
    Budget,
    Provider,
    Capabilities,
    Tools,
    Web,
    /// What the settings would be resolved from now.
    Inputs,
    Mcp,
    Recall,
    Browser,
    Delegation,
    Images,
    VisionGate,
    VisionAudit,
    /// The root profile under the limits that the execution runs under.
    ChildRoot,
    ChildModels,
    ChildBudget,
    ChildReservations,
    ChildTools,
    Memory,
    MemoryTools,
    Prompt,
    Compaction,
    Usage,
    Over,
}

/// What came of making a part.
#[derive(Debug, PartialEq, Eq)]
pub enum CompositionEvent {
    Done,
    Registry { routes: bool },
    Connection { kind: ProviderKind },
    Artifacts { protected: bool },
    Capabilities { tools: Vec<String> },
    Inputs { digest: String },
    Failed(String),
}

/// What is done next.
#[derive(Debug, PartialEq, Eq)]
pub enum CompositionWork {
    Make(Part),
    Ready,
    Refuse(String),
    Fail { context: Option<&'static str>, cause: String },
    Ignore,
}

/// A composition that is under way.
#[derive(Debug, PartialEq, Eq)]
pub struct Composition {
    pub settings: CompositionSettings,
    /// Whether work of the conversation is unfinished.
    pub unfinished: bool,
    pub browser: bool,
    pub routes: bool,
    pub protected: bool,
    pub web: bool,
    /// The part that is being made.
    pub part: Part,
}

/// The part after the tools of servers.
pub open spec fn after_servers(run: Composition) -> Part {
    if run.protected {
        Part::Recall
    } else {
        after_recall(run)
    }
}

/// The part after recall.
pub open spec fn after_recall(run: Composition) -> Part {
    if run.browser {
        Part::Browser
    } else {
        Part::Delegation
    }
}

/// The part after the web tools: servers are not started before it is known that
/// unfinished work runs under these settings.
pub open spec fn after_web(run: Composition) -> Part {
    if run.unfinished {
        Part::Inputs
    } else {
        Part::Mcp
    }
}

/// The part that follows one that is made.
pub open spec fn following(run: Composition) -> Part {
    match run.part {
        Part::Config => Part::Registry,
        Part::Registry => Part::Models,
        Part::Models => Part::Connection,
        Part::Connection => Part::Shell,
        Part::Shell => Part::Policy,
        Part::Policy => Part::Artifacts,
        Part::Artifacts => Part::PluginSkills,
        Part::PluginSkills => Part::SkillCatalog,
        Part::SkillCatalog => Part::Skills,
        Part::Skills => Part::Model,
        Part::Model => Part::Budget,
        Part::Budget => Part::Provider,
        Part::Provider => Part::Capabilities,
        Part::Capabilities => Part::Tools,
        Part::Tools => if run.web {
            Part::Web
        } else {
            after_web(run)
        },
        Part::Web => after_web(run),
        Part::Inputs => Part::Mcp,
        Part::Mcp => after_servers(run),
        Part::Recall => after_recall(run),
        Part::Browser => Part::Delegation,
        Part::Delegation => Part::Images,
        Part::Images => Part::VisionGate,
        Part::VisionGate => Part::VisionAudit,
        Part::VisionAudit => if run.routes {
            Part::ChildRoot
        } else {
            Part::Memory
        },
        Part::ChildRoot => Part::ChildModels,
        Part::ChildModels => Part::ChildBudget,
        Part::ChildBudget => Part::ChildReservations,
        Part::ChildReservations => Part::ChildTools,
        Part::ChildTools => Part::Memory,
        Part::Memory => Part::MemoryTools,
        Part::MemoryTools => Part::Prompt,
        Part::Prompt => Part::Compaction,
        Part::Compaction => Part::Usage,
        Part::Usage | Part::Over => Part::Over,
    }
}

/// What a failure of a part is said to be.
pub open spec fn context_of(part: Part) -> Option<Seq<char>> {
    match part {
        Part::Model => Some(
            "could not resolve selected model metadata for prompt planning"@,
        ),
        Part::Budget => Some("could not derive a safe native prompt budget"@),
        Part::Tools => Some("could not build tool registry"@),
        Part::Web => Some("could not configure web tools"@),
        Part::Recall => Some("could not register bounded Project recall"@),
        Part::Browser => Some("could not activate the dedicated local browser"@),
        Part::Delegation => Some(
            "could not activate profile external-agent delegation tools"@,
        ),
        Part::Images => Some("could not activate profile image-generation tool"@),
        Part::VisionGate => Some("could not open the outbound policy gate for vision"@),
        Part::ChildTools => Some("could not register child delegation tool"@),
        Part::MemoryTools => Some("could not register personal memory tools"@),
        Part::Prompt => Some("could not assemble Xana base prompt"@),
        _ => None,
    }
}

fn failure_context(part: Part) -> (context: Option<&'static str>)
    ensures
        match context_of(part) {
            Some(text) => context matches Some(held) && held@ == text,
            None => context is None,
        },
{
    match part {
        Part::Model => Some("could not resolve selected model metadata for prompt planning"),
        Part::Budget => Some("could not derive a safe native prompt budget"),
        Part::Tools => Some("could not build tool registry"),
        Part::Web => Some("could not configure web tools"),
        Part::Recall => Some("could not register bounded Project recall"),
        Part::Browser => Some("could not activate the dedicated local browser"),
        Part::Delegation => Some("could not activate profile external-agent delegation tools"),
        Part::Images => Some("could not activate profile image-generation tool"),
        Part::VisionGate => Some("could not open the outbound policy gate for vision"),
        Part::ChildTools => Some("could not register child delegation tool"),
        Part::MemoryTools => Some("could not register personal memory tools"),
        Part::Prompt => Some("could not assemble Xana base prompt"),
        _ => None,
    }
}

/// The composition with another part to make.
pub open spec fn at_part(run: Composition, part: Part) -> Composition {
    Composition { part, ..run }
}

/// The composition goes on with a part.
pub open spec fn makes(
    run: Composition,
    part: Part,
    after: Composition,
    work: CompositionWork,
) -> bool {
    &&& after == at_part(run, part)
    &&& work == CompositionWork::Make(part)
}

/// The composition is refused.
pub open spec fn refuses(
    before: Composition,
    after: Composition,
    work: CompositionWork,
    reason: Seq<char>,
) -> bool {
    &&& after == at_part(before, Part::Over)
    &&& work matches CompositionWork::Refuse(text)
    &&& text@ == reason
}

/// How a composition moves on what came of making a part.
pub open spec fn composition_moves(
    before: Composition,
    event: CompositionEvent,
    after: Composition,
    work: CompositionWork,
) -> bool {
    match (before.part, event) {
        (Part::Over, _) => after == before && work == CompositionWork::Ignore,
        (part, CompositionEvent::Failed(cause)) => {
            &&& after == at_part(before, Part::Over)
            &&& work matches CompositionWork::Fail { context, cause: held }
            &&& held == cause
            &&& match context_of(part) {
                Some(text) => context matches Some(said) && said@ == text,
                None => context is None,
            }
        },
        (Part::Registry, CompositionEvent::Registry { routes }) => makes(
            Composition { routes, ..before },
            Part::Models,
            after,
            work,
        ),
        (Part::Models, CompositionEvent::Done) => if before.settings.readiness@.len() > 0 {
            refuses(
                before,
                after,
                work,
                "Profile is not ready: "@ + joined(views(before.settings.readiness@), "; "@),
            )
        } else {
            makes(before, Part::Connection, after, work)
        },
        (Part::Connection, CompositionEvent::Connection { kind }) => if kind
            == ProviderKind::Codex {
            refuses(before, after, work, OTHER_OWNER@)
        } else {
            makes(before, Part::Shell, after, work)
        },
        (Part::Artifacts, CompositionEvent::Artifacts { protected }) => makes(
            Composition { protected, ..before },
            Part::PluginSkills,
            after,
            work,
        ),
        (Part::Capabilities, CompositionEvent::Capabilities { tools }) => makes(
            Composition { web: views(tools@).contains(WEB_TOOL@), ..before },
            Part::Tools,
            after,
            work,
        ),
        (Part::Inputs, CompositionEvent::Inputs { digest }) => if digest@
            == before.settings.inputs_digest@ {
            makes(before, Part::Mcp, after, work)
        } else {
            makes(before, after_servers(before), after, work)
        },
        (Part::Usage, CompositionEvent::Done) => {
            &&& after == at_part(before, Part::Over)
            &&& work == CompositionWork::Ready
        },
        (
            Part::Registry | Part::Connection | Part::Artifacts | Part::Capabilities | Part::Inputs,
            _,
        ) => after == before && work == CompositionWork::Ignore,
        (_, CompositionEvent::Done) => makes(before, following(before), after, work),
        _ => after == before && work == CompositionWork::Ignore,
    }
}

/// Begins to compose an execution.
pub fn compose(settings: CompositionSettings, unfinished: bool, browser: bool) -> (begun: (
    Composition,
    CompositionWork,
))
    ensures
        begun.0 == (Composition {
            settings,
            unfinished,
            browser,
            routes: false,
            protected: false,
            web: false,
            part: Part::Config,
        }),
        begun.1 == CompositionWork::Make(Part::Config),
{
    (
        Composition {
            settings,
            unfinished,
            browser,
            routes: false,
            protected: false,
            web: false,
            part: Part::Config,
        },
        CompositionWork::Make(Part::Config),
    )
}

/// Whose requests are counted, and how.
#[derive(Debug, PartialEq, Eq)]
pub struct DispatchFacts {
    pub owner: &'static str,
    pub connection: String,
    pub model: String,
    pub profile: String,
    pub reasoning: Option<String>,
}

impl Composition {
    fn make(&mut self, part: Part) -> (work: CompositionWork)
        ensures
            makes(*old(self), part, *final(self), work),
    {
        self.part = part;
        CompositionWork::Make(part)
    }

    fn refuse(&mut self, text: String) -> (work: CompositionWork)
        ensures
            refuses(*old(self), *final(self), work, text@),
    {
        self.part = Part::Over;
        CompositionWork::Refuse(text)
    }

    fn past_servers(&self) -> (part: Part)
        ensures
            part == after_servers(*self),
    {
        if self.protected {
            Part::Recall
        } else {
            self.past_recall()
        }
    }

    fn past_recall(&self) -> (part: Part)
        ensures
            part == after_recall(*self),
    {
        if self.browser {
            Part::Browser
        } else {
            Part::Delegation
        }
    }

    fn past_web(&self) -> (part: Part)
        ensures
            part == after_web(*self),
    {
        if self.unfinished {
            Part::Inputs
        } else {
            Part::Mcp
        }
    }

    fn next(&self) -> (part: Part)
        ensures
            part == following(*self),
    {
        match self.part {
            Part::Config => Part::Registry,
            Part::Registry => Part::Models,
            Part::Models => Part::Connection,
            Part::Connection => Part::Shell,
            Part::Shell => Part::Policy,
            Part::Policy => Part::Artifacts,
            Part::Artifacts => Part::PluginSkills,
            Part::PluginSkills => Part::SkillCatalog,
            Part::SkillCatalog => Part::Skills,
            Part::Skills => Part::Model,
            Part::Model => Part::Budget,
            Part::Budget => Part::Provider,
            Part::Provider => Part::Capabilities,
            Part::Capabilities => Part::Tools,
            Part::Tools => if self.web {
                Part::Web
            } else {
                self.past_web()
            },
            Part::Web => self.past_web(),
            Part::Inputs => Part::Mcp,
            Part::Mcp => self.past_servers(),
            Part::Recall => self.past_recall(),
            Part::Browser => Part::Delegation,
            Part::Delegation => Part::Images,
            Part::Images => Part::VisionGate,
            Part::VisionGate => Part::VisionAudit,
            Part::VisionAudit => if self.routes {
                Part::ChildRoot
            } else {
                Part::Memory
            },
            Part::ChildRoot => Part::ChildModels,
            Part::ChildModels => Part::ChildBudget,
            Part::ChildBudget => Part::ChildReservations,
            Part::ChildReservations => Part::ChildTools,
            Part::ChildTools => Part::Memory,
            Part::Memory => Part::MemoryTools,
            Part::MemoryTools => Part::Prompt,
            Part::Prompt => Part::Compaction,
            Part::Compaction => Part::Usage,
            Part::Usage => Part::Over,
            Part::Over => Part::Over,
        }
    }

    /// Moves a composition on what came of making a part.
    pub fn step(&mut self, event: CompositionEvent) -> (work: CompositionWork)
        ensures
            composition_moves(*old(self), event, *final(self), work),
    {
        match (self.part, event) {
            (Part::Over, _) => CompositionWork::Ignore,
            (part, CompositionEvent::Failed(cause)) => {
                self.part = Part::Over;
                CompositionWork::Fail { context: failure_context(part), cause }
            },
            (Part::Registry, CompositionEvent::Registry { routes }) => {
                self.routes = routes;
                self.make(Part::Models)
            },
            (Part::Models, CompositionEvent::Done) => if self.settings.readiness.len() > 0 {
                let mut text = "Profile is not ready: ".to_owned();
                text.append(join(&self.settings.readiness, "; ").as_str());
                self.refuse(text)
            } else {
                self.make(Part::Connection)
            },
            (Part::Connection, CompositionEvent::Connection { kind }) => match kind {
                ProviderKind::Codex => self.refuse(OTHER_OWNER.to_owned()),
                _ => self.make(Part::Shell),
            },
            (Part::Artifacts, CompositionEvent::Artifacts { protected }) => {
                self.protected = protected;
                self.make(Part::PluginSkills)
            },
            (Part::Capabilities, CompositionEvent::Capabilities { tools }) => {
                self.web = list_has(&tools, WEB_TOOL);
                self.make(Part::Tools)
            },
            (Part::Inputs, CompositionEvent::Inputs { digest }) => if text_eq(
                digest.as_str(),
                self.settings.inputs_digest.as_str(),
            ) {
                self.make(Part::Mcp)
            } else {
                let next = self.past_servers();
                self.make(next)
            },
            (Part::Usage, CompositionEvent::Done) => {
                self.part = Part::Over;
                CompositionWork::Ready
            },
            (
                Part::Registry
                | Part::Connection
                | Part::Artifacts
                | Part::Capabilities
                | Part::Inputs,
                _,
            ) => CompositionWork::Ignore,
            (_, CompositionEvent::Done) => {
                let next = self.next();
                self.make(next)
            },
            _ => CompositionWork::Ignore,
        }
    }

    /// Under whose name the requests of the execution are counted: Xana's own, with
    /// the choices of the profile.
    pub fn dispatch_facts(&self) -> (facts: DispatchFacts)
        ensures
            facts.owner@ == "native"@,
            facts.connection == self.settings.connection,
            facts.model == self.settings.model,
            facts.profile == self.settings.profile,
            facts.reasoning == self.settings.reasoning_effort,
    {
        DispatchFacts {
            owner: "native",
            connection: self.settings.connection.clone(),
            model: self.settings.model.clone(),
            profile: self.settings.profile.clone(),
            reasoning: copy_option(&self.settings.reasoning_effort),
        }
    }
}

/// Settings that unfinished work does not run under start no server.
pub proof fn stale_settings_start_no_server(
    before: Composition,
    event: CompositionEvent,
    after: Composition,
    work: CompositionWork,
)
    requires
        composition_moves(before, event, after, work),
        work == CompositionWork::Make(Part::Mcp),
    ensures
        before.unfinished ==> (event matches CompositionEvent::Inputs { digest } && digest@
            == before.settings.inputs_digest@),
{
}

/// A profile that is not ready gets no further than the configuration: no
/// provider, tool or server is made for it.
pub proof fn unready_profiles_get_nothing(
    before: Composition,
    event: CompositionEvent,
    after: Composition,
    work: CompositionWork,
)
    requires
        composition_moves(before, event, after, work),
        before.settings.readiness@.len() > 0,
        before.part is Config || before.part is Registry || before.part is Models,
    ensures
        after.part is Config || after.part is Registry || after.part is Models || after.part
            is Over,
        work != CompositionWork::Ready,
        after.settings == before.settings,
{
}

/// The place of a part in the order in which parts are made.
pub open spec fn place(part: Part) -> nat {
    match part {
        Part::Config => 0,
        Part::Registry => 1,
        Part::Models => 2,
        Part::Connection => 3,
        Part::Shell => 4,
        Part::Policy => 5,
        Part::Artifacts => 6,
        Part::PluginSkills => 7,
        Part::SkillCatalog => 8,
        Part::Skills => 9,
        Part::Model => 10,
        Part::Budget => 11,
        Part::Provider => 12,
        Part::Capabilities => 13,
        Part::Tools => 14,
        Part::Web => 15,
        Part::Inputs => 16,
        Part::Mcp => 17,
        Part::Recall => 18,
        Part::Browser => 19,
        Part::Delegation => 20,
        Part::Images => 21,
        Part::VisionGate => 22,
        Part::VisionAudit => 23,
        Part::ChildRoot => 24,
        Part::ChildModels => 25,
        Part::ChildBudget => 26,
        Part::ChildReservations => 27,
        Part::ChildTools => 28,
        Part::Memory => 29,
        Part::MemoryTools => 30,
        Part::Prompt => 31,
        Part::Compaction => 32,
        Part::Usage => 33,
        Part::Over => 34,
    }
}

/// Parts are made in one order, and none is made twice.
pub proof fn parts_are_made_once(
    before: Composition,
    event: CompositionEvent,
    after: Composition,
    work: CompositionWork,
)
    requires
        composition_moves(before, event, after, work),
    ensures
        work matches CompositionWork::Make(part) ==> after.part == part && place(before.part)
            < place(part),
        place(before.part) <= place(after.part),
{
}

/// No part is left out without a cause: the web tools where they are not among the tools,
/// the check of the inputs where no work is unfinished, the servers where unfinished work
/// runs under other settings, recall where nothing is protected, the browser where there is
/// none, and what children need where nothing is routed to them. Every other part is made.
pub proof fn parts_are_left_out_for_cause(
    before: Composition,
    event: CompositionEvent,
    after: Composition,
    work: CompositionWork,
    part: Part,
)
    requires
        composition_moves(before, event, after, work),
        work is Make,
        place(before.part) < place(part) < place(after.part),
    ensures
        match part {
            Part::Web => !after.web,
            Part::Inputs => !before.unfinished,
            Part::Mcp => event matches CompositionEvent::Inputs { digest } && digest@
                != before.settings.inputs_digest@,
            Part::Recall => !after.protected,
            Part::Browser => !before.browser,
            Part::ChildRoot
            | Part::ChildModels
            | Part::ChildBudget
            | Part::ChildReservations
            | Part::ChildTools => !after.routes,
            _ => false,
        },
{
}

/// A part that is made for a cause is made only where the cause is there.
pub proof fn parts_are_made_for_cause(
    before: Composition,
    event: CompositionEvent,
    after: Composition,
    work: CompositionWork,
)
    requires
        composition_moves(before, event, after, work),
    ensures
        work == CompositionWork::Make(Part::Web) ==> before.web,
        work == CompositionWork::Make(Part::Inputs) ==> before.unfinished,
        work == CompositionWork::Make(Part::Recall) ==> before.protected,
        work == CompositionWork::Make(Part::Browser) ==> before.browser,
        work == CompositionWork::Make(Part::ChildRoot) ==> before.routes,
        work == CompositionWork::Ready ==> before.part is Usage && event is Done,
        work == CompositionWork::Make(Part::Connection) ==> before.settings.readiness@.len() == 0,
{
}

/// What came of a part is what the composition goes by: routes, protection and the web tool
/// are those that were found, a managed connection and a profile that is not ready are
/// refused, a failure ends the composition with its cause, and nothing else of it changes.
pub proof fn compositions_go_by_what_was_found(
    before: Composition,
    event: CompositionEvent,
    after: Composition,
    work: CompositionWork,
)
    requires
        composition_moves(before, event, after, work),
    ensures
        after.settings == before.settings,
        after.unfinished == before.unfinished,
        after.browser == before.browser,
        before.part is Registry ==> (event matches CompositionEvent::Registry { routes }
            ==> after.routes == routes),
        before.part is Artifacts ==> (event matches CompositionEvent::Artifacts { protected }
            ==> after.protected == protected),
        before.part is Capabilities ==> (event matches CompositionEvent::Capabilities { tools }
            ==> (after.web <==> views(tools@).contains("web_fetch"@))),
        before.part !is Registry ==> after.routes == before.routes,
        before.part !is Artifacts ==> after.protected == before.protected,
        before.part !is Capabilities ==> after.web == before.web,
        before.part is Connection ==> (event matches CompositionEvent::Connection { kind } ==> (
        work is Refuse <==> kind == ProviderKind::Codex)),
        before.part is Models && event is Done ==> (work is Refuse
            <==> before.settings.readiness@.len() > 0),
        work is Refuse ==> before.part is Models || before.part is Connection,
        before.part !is Over ==> (event matches CompositionEvent::Failed(cause) ==> (work
            matches CompositionWork::Fail { cause: told, .. } && told == cause)),
        before.part is Over ==> work is Ignore && after == before,
        before.part is Usage && event is Done ==> work is Ready,
        work is Ready || work is Fail || work is Refuse <==> after.part is Over && before.part
            !is Over,
{
}

/// Requests are counted under the choices that the execution runs under.
pub proof fn requests_are_counted_under_the_settings(run: Composition, facts: DispatchFacts)
    requires
        call_ensures(Composition::dispatch_facts, (&run,), facts),
    ensures
        facts.connection == run.settings.connection,
        facts.model == run.settings.model,
        facts.profile == run.settings.profile,
        facts.reasoning == run.settings.reasoning_effort,
{
}

/// A composition begins with its settings as they were given, and makes its configuration
/// before anything else.
pub proof fn compositions_begin_with_the_configuration(
    settings: CompositionSettings,
    unfinished: bool,
    browser: bool,
    begun: (Composition, CompositionWork),
)
    requires
        call_ensures(compose, (settings, unfinished, browser), begun),
    ensures
        begun.0.settings == settings,
        begun.0.unfinished == unfinished,
        begun.0.browser == browser,
        !begun.0.routes && !begun.0.protected && !begun.0.web,
        begun.1 == CompositionWork::Make(Part::Config),
{
}

}
