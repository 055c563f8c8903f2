//! The commands on external agents, from what is asked for to what is reported.

use crate::config::CredentialReference;
use crate::external_agents::{
    admit_ending, admit_trust, agent_index, agent_rows, check_endpoint, declared_credential,
    find_agent, found_agents_have_the_name, refreshed_text, task_rows, unknown_agent,
    write_agents, write_cancelled, write_declared, write_refreshed, write_removed, write_tasks,
    write_trust, AgentTask, AgentView, DeclaredAgent, RefreshedCard, CANCEL_CONFIRMATION,
    ENDPOINT_CHANGED, NO_AGENTS, REMOVAL_CONFIRMATION,
};
use crate::text::{debug_text, option_view};
use vstd::prelude::*;
use vstd::string::*;

verus! {

/// A command on external agents.
#[derive(Debug, PartialEq, Eq)]
pub enum AgentCommand {
    Add {
        name: String,
        endpoint: String,
        env: Option<String>,
        credential_id: Option<String>,
        egress_policy: Option<String>,
    },
    List,
    Show { name: String },
    Refresh { name: String },
    Trust { name: String, yes: bool },
    Untrust { name: String },
    Tasks { name: String },
    Cancel { name: String, task_id: String, yes: bool },
    Remove { name: String, yes: bool },
}

/// What is done with an agent once it is known to be declared.
#[derive(Debug, PartialEq, Eq)]
pub enum AgentUse {
    Show,
    Refresh,
    Trust,
    Tasks,
    Cancel { task_id: String },
}

/// What is done next.
#[derive(Debug, PartialEq, Eq)]
pub enum AgentWork {
    Declare {
        endpoint: String,
        credential: Option<CredentialReference>,
        egress_policy: Option<String>,
    },
    List,
    LoadRegistry,
    Show,
    Refresh,
    Trust,
    Untrust,
    Tasks,
    Cancel { task_id: String },
    RemoveDeclaration,
    RemoveCache,
    Finish(Option<String>),
    Ignore,
}

/// What came of it.
#[derive(Debug, PartialEq, Eq)]
pub enum AgentEvent {
    Declared,
    Listed(Vec<AgentView>),
    Registry(Vec<DeclaredAgent>),
    /// What is kept of an agent, as JSON, and the card that is kept, if one is: its
    /// identity and the endpoint it was fetched from.
    Shown { json: String, card: Option<(String, String)> },
    Refreshed(RefreshedCard),
    Trusted { identity: String },
    Untrusted,
    Tasks(Vec<AgentTask>),
    Cancelled(AgentTask),
    DeclarationRemoved,
    CacheRemoved,
    Failed(String),
}

/// How far a command is.
#[derive(Debug, PartialEq, Eq)]
pub enum AgentStage {
    Add,
    List,
    Lookup { used: AgentUse },
    Show,
    ShowBefore,
    Refresh { prior: Option<String> },
    Review { endpoint: String },
    Trust,
    Untrust,
    Tasks,
    Cancel { task_id: String },
    RemoveDeclaration,
    RemoveCache,
    Over,
}

/// A command that is carried out.
#[derive(Debug, PartialEq, Eq)]
pub struct AgentRun {
    pub name: String,
    pub stage: AgentStage,
}

/// What is written and done.
#[derive(Debug, PartialEq, Eq)]
pub struct AgentStep {
    pub print: String,
    pub work: AgentWork,
}

/// The command ends with a failure.
pub open spec fn refused(run: AgentRun, step: AgentStep, text: Seq<char>) -> bool {
    &&& run.stage is Over
    &&& step.print@.len() == 0
    &&& step.work matches AgentWork::Finish(Some(failure))
    &&& failure@ == text
}

/// The command is at a stage, with something to do.
pub open spec fn works(run: AgentRun, step: AgentStep, stage: AgentStage, work: AgentWork) -> bool {
    &&& run.stage == stage
    &&& step.print@.len() == 0
    &&& step.work == work
}

/// Why trust is not given without review.
pub open spec fn trust_confirmation(name: Seq<char>) -> Seq<char> {
    "trust requires --yes after `xana external-agent show "@ + name + "`"@
}

/// The agent that a command is about.
pub open spec fn agent_of(command: AgentCommand) -> Seq<char> {
    match command {
        AgentCommand::Add { name, .. }
        | AgentCommand::Show { name }
        | AgentCommand::Refresh { name }
        | AgentCommand::Trust { name, .. }
        | AgentCommand::Untrust { name }
        | AgentCommand::Tasks { name }
        | AgentCommand::Cancel { name, .. }
        | AgentCommand::Remove { name, .. } => name@,
        AgentCommand::List => Seq::empty(),
    }
}

/// How a command begins: what has to be confirmed is, before anything is looked
/// at.
pub open spec fn begins(command: AgentCommand, run: AgentRun, step: AgentStep) -> bool {
    &&& run.name@ == agent_of(command)
    &&& match command {
        AgentCommand::Add { endpoint, env, credential_id, egress_policy, .. } => works(
            run,
            step,
            AgentStage::Add,
            AgentWork::Declare {
                endpoint,
                credential: match (env, credential_id) {
                    (Some(variable), _) => Some(CredentialReference::Environment { variable }),
                    (None, Some(id)) => Some(CredentialReference::Stored { id }),
                    (None, None) => None,
                },
                egress_policy,
            },
        ),
        AgentCommand::List => works(run, step, AgentStage::List, AgentWork::List),
        AgentCommand::Show { .. } => works(
            run,
            step,
            AgentStage::Lookup { used: AgentUse::Show },
            AgentWork::LoadRegistry,
        ),
        AgentCommand::Refresh { .. } => works(
            run,
            step,
            AgentStage::Lookup { used: AgentUse::Refresh },
            AgentWork::LoadRegistry,
        ),
        AgentCommand::Trust { name, yes } => if yes {
            works(
                run,
                step,
                AgentStage::Lookup { used: AgentUse::Trust },
                AgentWork::LoadRegistry,
            )
        } else {
            refused(run, step, trust_confirmation(name@))
        },
        AgentCommand::Untrust { .. } => works(
            run,
            step,
            AgentStage::Untrust,
            AgentWork::Untrust,
        ),
        AgentCommand::Tasks { .. } => works(
            run,
            step,
            AgentStage::Lookup { used: AgentUse::Tasks },
            AgentWork::LoadRegistry,
        ),
        AgentCommand::Cancel { task_id, yes, .. } => if yes {
            works(
                run,
                step,
                AgentStage::Lookup { used: AgentUse::Cancel { task_id } },
                AgentWork::LoadRegistry,
            )
        } else {
            refused(run, step, CANCEL_CONFIRMATION@)
        },
        AgentCommand::Remove { yes, .. } => if yes {
            works(run, step, AgentStage::RemoveDeclaration, AgentWork::RemoveDeclaration)
        } else {
            refused(run, step, REMOVAL_CONFIRMATION@)
        },
    }
}

/// The run at another stage.
pub open spec fn at_stage(run: AgentRun, stage: AgentStage) -> AgentRun {
    AgentRun { stage, ..run }
}

/// The command ends well, and says something.
pub open spec fn completes(before: AgentRun, after: AgentRun, step: AgentStep, text: Seq<char>) -> bool {
    &&& after == at_stage(before, AgentStage::Over)
    &&& step.print@ == text
    &&& step.work == AgentWork::Finish(None)
}

/// The command ends with a failure.
pub open spec fn fails(before: AgentRun, after: AgentRun, step: AgentStep, text: Seq<char>) -> bool {
    &&& after == at_stage(before, AgentStage::Over)
    &&& refused(after, step, text)
}

/// The command goes on.
pub open spec fn goes_on(
    before: AgentRun,
    after: AgentRun,
    step: AgentStep,
    stage: AgentStage,
    work: AgentWork,
) -> bool {
    &&& after == at_stage(before, stage)
    &&& step.print@.len() == 0
    &&& step.work == work
}

/// Nothing changed.
pub open spec fn ignores(before: AgentRun, after: AgentRun, step: AgentStep) -> bool {
    &&& after == before
    &&& step.print@.len() == 0
    &&& step.work == AgentWork::Ignore
}

/// How a command goes on with an agent that is declared.
pub open spec fn uses(
    before: AgentRun,
    used: AgentUse,
    agent: DeclaredAgent,
    after: AgentRun,
    step: AgentStep,
) -> bool {
    match used {
        AgentUse::Show => goes_on(before, after, step, AgentStage::Show, AgentWork::Show),
        AgentUse::Refresh => goes_on(before, after, step, AgentStage::ShowBefore, AgentWork::Show),
        AgentUse::Trust => goes_on(
            before,
            after,
            step,
            AgentStage::Review { endpoint: agent.endpoint },
            AgentWork::Show,
        ),
        AgentUse::Tasks => goes_on(before, after, step, AgentStage::Tasks, AgentWork::Tasks),
        AgentUse::Cancel { task_id } => goes_on(
            before,
            after,
            step,
            AgentStage::Cancel { task_id },
            AgentWork::Cancel { task_id },
        ),
    }
}

/// How a command moves on what came of its work.
pub open spec fn agent_moves(
    before: AgentRun,
    event: AgentEvent,
    after: AgentRun,
    step: AgentStep,
) -> bool {
    let nothing = Seq::<char>::empty();
    let name = before.name@;
    match (before.stage, event) {
        (AgentStage::Over, _) => ignores(before, after, step),
        (_, AgentEvent::Failed(text)) => fails(before, after, step, text@),
        (AgentStage::Add, AgentEvent::Declared) => completes(
            before,
            after,
            step,
            nothing + "External agent "@ + debug_text(name)
                + " declared. No network request was made.\nNext: xana external-agent refresh "@
                + name + "\n"@,
        ),
        (AgentStage::List, AgentEvent::Listed(agents)) => completes(
            before,
            after,
            step,
            if agents@.len() == 0 {
                nothing + NO_AGENTS@
            } else {
                agent_rows(nothing, agents@)
            },
        ),
        (AgentStage::Lookup { used }, AgentEvent::Registry(agents)) => {
            let at = agent_index(agents@, name);
            if at < agents@.len() {
                uses(before, used, agents@[at as int], after, step)
            } else {
                fails(before, after, step, unknown_agent(name))
            }
        },
        (AgentStage::Show, AgentEvent::Shown { json, .. }) => completes(
            before,
            after,
            step,
            json@ + "\n"@,
        ),
        (AgentStage::ShowBefore, AgentEvent::Shown { card, .. }) => goes_on(
            before,
            after,
            step,
            AgentStage::Refresh {
                prior: match card {
                    Some((identity, _)) => Some(identity),
                    None => None,
                },
            },
            AgentWork::Refresh,
        ),
        (AgentStage::Refresh { prior }, AgentEvent::Refreshed(card)) => completes(
            before,
            after,
            step,
            refreshed_text(nothing, name, option_view(prior), card),
        ),
        (AgentStage::Review { endpoint }, AgentEvent::Shown { card, .. }) => {
            if card matches Some((_, fetched)) && fetched@ != endpoint@ {
                fails(before, after, step, ENDPOINT_CHANGED@)
            } else {
                goes_on(before, after, step, AgentStage::Trust, AgentWork::Trust)
            }
        },
        (AgentStage::Trust, AgentEvent::Trusted { identity }) => completes(
            before,
            after,
            step,
            nothing + "Trusted external agent "@ + debug_text(name) + " at identity "@ + identity@
                + ".\n"@,
        ),
        (AgentStage::Untrust, AgentEvent::Untrusted) => completes(
            before,
            after,
            step,
            nothing + "External agent "@ + debug_text(name) + " is no longer trusted.\n"@,
        ),
        (AgentStage::Tasks, AgentEvent::Tasks(tasks)) => completes(
            before,
            after,
            step,
            if tasks@.len() == 0 {
                nothing + "No tracked tasks for external agent "@ + debug_text(name) + ".\n"@
            } else {
                task_rows(nothing, tasks@)
            },
        ),
        (AgentStage::Cancel { task_id }, AgentEvent::Cancelled(task)) => completes(
            before,
            after,
            step,
            nothing + "Remote cancellation for "@ + debug_text(name) + " task "@ + task_id@ + ": "@
                + task.remote_cancel@ + " ("@ + task.state@ + ")\n"@,
        ),
        (AgentStage::RemoveDeclaration, AgentEvent::DeclarationRemoved) => goes_on(
            before,
            after,
            step,
            AgentStage::RemoveCache,
            AgentWork::RemoveCache,
        ),
        (AgentStage::RemoveCache, AgentEvent::CacheRemoved) => completes(
            before,
            after,
            step,
            nothing + "Removed external agent "@ + debug_text(name) + " and its cached Card.\n"@,
        ),
        _ => ignores(before, after, step),
    }
}

fn silence() -> (text: String)
    ensures
        text@ == Seq::<char>::empty(),
{
    let text = String::new();
    assert(text@ =~= Seq::<char>::empty());
    text
}

impl AgentRun {
    fn begun(name: String, stage: AgentStage, work: AgentWork) -> (begun: (AgentRun, AgentStep))
        ensures
            begun.0.name == name,
            works(begun.0, begun.1, stage, work),
    {
        (AgentRun { name, stage }, AgentStep { print: silence(), work })
    }

    fn stopped(name: String, text: String) -> (begun: (AgentRun, AgentStep))
        ensures
            begun.0.name == name,
            refused(begun.0, begun.1, text@),
    {
        Self::begun(name, AgentStage::Over, AgentWork::Finish(Some(text)))
    }

    /// Begins a command.
    pub fn start(command: AgentCommand) -> (begun: (AgentRun, AgentStep))
        ensures
            begins(command, begun.0, begun.1),
    {
        match command {
            AgentCommand::Add { name, endpoint, env, credential_id, egress_policy } => Self::begun(
                name,
                AgentStage::Add,
                AgentWork::Declare {
                    endpoint,
                    credential: declared_credential(env, credential_id),
                    egress_policy,
                },
            ),
            AgentCommand::List => Self::begun(silence(), AgentStage::List, AgentWork::List),
            AgentCommand::Show { name } => Self::begun(
                name,
                AgentStage::Lookup { used: AgentUse::Show },
                AgentWork::LoadRegistry,
            ),
            AgentCommand::Refresh { name } => Self::begun(
                name,
                AgentStage::Lookup { used: AgentUse::Refresh },
                AgentWork::LoadRegistry,
            ),
            AgentCommand::Trust { name, yes } => match admit_trust(name.as_str(), yes) {
                Ok(_) => Self::begun(
                    name,
                    AgentStage::Lookup { used: AgentUse::Trust },
                    AgentWork::LoadRegistry,
                ),
                Err(text) => Self::stopped(name, text),
            },
            AgentCommand::Untrust { name } => Self::begun(
                name,
                AgentStage::Untrust,
                AgentWork::Untrust,
            ),
            AgentCommand::Tasks { name } => Self::begun(
                name,
                AgentStage::Lookup { used: AgentUse::Tasks },
                AgentWork::LoadRegistry,
            ),
            AgentCommand::Cancel { name, task_id, yes } => match admit_ending(false, yes) {
                Ok(_) => Self::begun(
                    name,
                    AgentStage::Lookup { used: AgentUse::Cancel { task_id } },
                    AgentWork::LoadRegistry,
                ),
                Err(text) => Self::stopped(name, text),
            },
            AgentCommand::Remove { name, yes } => match admit_ending(true, yes) {
                Ok(_) => Self::begun(
                    name,
                    AgentStage::RemoveDeclaration,
                    AgentWork::RemoveDeclaration,
                ),
                Err(text) => Self::stopped(name, text),
            },
        }
    }

    fn complete(&mut self, text: String) -> (step: AgentStep)
        ensures
            completes(*old(self), *final(self), step, text@),
    {
        self.stage = AgentStage::Over;
        AgentStep { print: text, work: AgentWork::Finish(None) }
    }

    fn fail(&mut self, text: String) -> (step: AgentStep)
        ensures
            fails(*old(self), *final(self), step, text@),
    {
        self.stage = AgentStage::Over;
        AgentStep { print: silence(), work: AgentWork::Finish(Some(text)) }
    }

    fn go_on(&mut self, stage: AgentStage, work: AgentWork) -> (step: AgentStep)
        ensures
            goes_on(*old(self), *final(self), step, stage, work),
    {
        self.stage = stage;
        AgentStep { print: silence(), work }
    }

    fn use_agent(&mut self, used: AgentUse, agents: Vec<DeclaredAgent>) -> (step: AgentStep)
        ensures
            ({
                let at = agent_index(agents@, old(self).name@);
                if at < agents@.len() {
                    uses(*old(self), used, agents@[at as int], *final(self), step)
                } else {
                    fails(*old(self), *final(self), step, unknown_agent(old(self).name@))
                }
            }),
    {
        let at: usize = match find_agent(&agents, self.name.as_str()) {
            Ok(at) => at,
            Err(text) => {
                return self.fail(text);
            },
        };
        match used {
            AgentUse::Show => self.go_on(AgentStage::Show, AgentWork::Show),
            AgentUse::Refresh => self.go_on(AgentStage::ShowBefore, AgentWork::Show),
            AgentUse::Trust => {
                let endpoint = agents[at].endpoint.clone();
                self.go_on(AgentStage::Review { endpoint }, AgentWork::Show)
            },
            AgentUse::Tasks => self.go_on(AgentStage::Tasks, AgentWork::Tasks),
            AgentUse::Cancel { task_id } => {
                let copy = task_id.clone();
                self.go_on(AgentStage::Cancel { task_id: copy }, AgentWork::Cancel { task_id })
            },
        }
    }

    /// Moves a command on what came of its work.
    pub fn step(&mut self, event: AgentEvent) -> (step: AgentStep)
        ensures
            agent_moves(*old(self), event, *final(self), step),
    {
        let mut stage = AgentStage::Over;
        core::mem::swap(&mut self.stage, &mut stage);
        let name = self.name.clone();
        let mut text = silence();
        match (stage, event) {
            (AgentStage::Over, _) => AgentStep { print: text, work: AgentWork::Ignore },
            (_, AgentEvent::Failed(text)) => self.fail(text),
            (AgentStage::Add, AgentEvent::Declared) => {
                write_declared(name.as_str(), &mut text);
                self.complete(text)
            },
            (AgentStage::List, AgentEvent::Listed(agents)) => {
                write_agents(&agents, &mut text);
                self.complete(text)
            },
            (AgentStage::Lookup { used }, AgentEvent::Registry(agents)) => self.use_agent(
                used,
                agents,
            ),
            (AgentStage::Show, AgentEvent::Shown { json, .. }) => {
                let mut line = json;
                line.append("\n");
                self.complete(line)
            },
            (AgentStage::ShowBefore, AgentEvent::Shown { card, .. }) => {
                let prior = match card {
                    Some((identity, _)) => Some(identity),
                    None => None,
                };
                self.go_on(AgentStage::Refresh { prior }, AgentWork::Refresh)
            },
            (AgentStage::Refresh { prior }, AgentEvent::Refreshed(card)) => {
                let known = match &prior {
                    Some(identity) => Some(identity.as_str()),
                    None => None,
                };
                write_refreshed(name.as_str(), known, &card, &mut text);
                self.complete(text)
            },
            (AgentStage::Review { endpoint }, AgentEvent::Shown { card, .. }) => {
                let fetched = match &card {
                    Some((_, fetched)) => Some(fetched.as_str()),
                    None => None,
                };
                match check_endpoint(fetched, endpoint.as_str()) {
                    Ok(_) => self.go_on(AgentStage::Trust, AgentWork::Trust),
                    Err(text) => self.fail(text),
                }
            },
            (AgentStage::Trust, AgentEvent::Trusted { identity }) => {
                write_trust(name.as_str(), Some(identity.as_str()), &mut text);
                self.complete(text)
            },
            (AgentStage::Untrust, AgentEvent::Untrusted) => {
                write_trust(name.as_str(), None, &mut text);
                self.complete(text)
            },
            (AgentStage::Tasks, AgentEvent::Tasks(tasks)) => {
                write_tasks(name.as_str(), &tasks, &mut text);
                self.complete(text)
            },
            (AgentStage::Cancel { task_id }, AgentEvent::Cancelled(task)) => {
                write_cancelled(name.as_str(), task_id.as_str(), &task, &mut text);
                self.complete(text)
            },
            (AgentStage::RemoveDeclaration, AgentEvent::DeclarationRemoved) => self.go_on(
                AgentStage::RemoveCache,
                AgentWork::RemoveCache,
            ),
            (AgentStage::RemoveCache, AgentEvent::CacheRemoved) => {
                write_removed(name.as_str(), &mut text);
                self.complete(text)
            },
            (stage, _) => {
                self.stage = stage;
                AgentStep { print: text, work: AgentWork::Ignore }
            },
        }
    }
}

/// Trust is given only to an agent whose card, where one is kept, was fetched from
/// the endpoint that is declared.
pub proof fn trust_follows_a_review(
    before: AgentRun,
    event: AgentEvent,
    after: AgentRun,
    step: AgentStep,
)
    requires
        agent_moves(before, event, after, step),
        step.work is Trust,
    ensures
        before.stage is Review,
        event matches AgentEvent::Shown { card, .. } && (card matches Some((_, fetched))
            ==> fetched@ == before.stage->endpoint@),
{
}

/// Without confirmation nothing is looked at, contacted or removed: an unconfirmed
/// trust, cancellation or removal ends as it begins.
pub proof fn endings_are_confirmed(command: AgentCommand, run: AgentRun, step: AgentStep)
    requires
        begins(command, run, step),
        match command {
            AgentCommand::Trust { yes, .. }
            | AgentCommand::Cancel { yes, .. }
            | AgentCommand::Remove { yes, .. } => !yes,
            _ => false,
        },
    ensures
        step.work matches AgentWork::Finish(Some(_)),
        run.stage is Over,
{
}

/// A command begins with the work of its name: what is declared is what was given, and
/// what is looked up, ended or removed is the agent that was named. An agent is contacted
/// only after it was found to be declared.
pub proof fn agent_commands_begin_with_their_work(
    command: AgentCommand,
    run: AgentRun,
    step: AgentStep,
)
    requires
        begins(command, run, step),
    ensures
        step.print@.len() == 0,
        step.work matches AgentWork::Declare { endpoint, credential, egress_policy } ==> {
            &&& command matches AgentCommand::Add {
                name,
                endpoint: given,
                env,
                credential_id,
                egress_policy: policy,
            }
            &&& run.name@ == name@
            &&& endpoint == given
            &&& egress_policy == policy
            &&& credential is None <==> env is None && credential_id is None
            &&& credential matches Some(CredentialReference::Environment { variable }) ==> env
                == Some(variable)
            &&& credential matches Some(CredentialReference::Stored { id }) ==> credential_id
                == Some(id)
        },
        command is Add ==> step.work is Declare,
        command is List <==> step.work is List,
        command matches AgentCommand::Untrust { name } ==> step.work is Untrust && run.name@
            == name@,
        step.work is Untrust ==> command is Untrust,
        step.work is RemoveDeclaration <==> (command matches AgentCommand::Remove { yes, .. }
            && yes),
        command matches AgentCommand::Remove { name, .. } ==> run.name@ == name@,
        step.work is LoadRegistry ==> (run.stage matches AgentStage::Lookup { used } && match used {
            AgentUse::Show => command matches AgentCommand::Show { name } && run.name@ == name@,
            AgentUse::Refresh => command matches AgentCommand::Refresh { name } && run.name@
                == name@,
            AgentUse::Trust => command matches AgentCommand::Trust { name, yes } && run.name@
                == name@ && yes,
            AgentUse::Tasks => command matches AgentCommand::Tasks { name } && run.name@ == name@,
            AgentUse::Cancel { task_id } => command matches AgentCommand::Cancel {
                name,
                task_id: named,
                yes,
            } && run.name@ == name@ && named == task_id && yes,
        }),
        command is Show || command is Refresh || command is Tasks ==> step.work is LoadRegistry,
        (command matches AgentCommand::Trust { yes, .. } && yes) ==> step.work is LoadRegistry,
        (command matches AgentCommand::Cancel { yes, .. } && yes) ==> step.work is LoadRegistry,
{
}

/// An agent is used only where it is declared under the name of the command, and then for
/// what was asked: a refresh compares with the identity that was kept, and a cancellation
/// is of the task that was named.
pub proof fn agents_are_used_as_asked(
    before: AgentRun,
    event: AgentEvent,
    after: AgentRun,
    step: AgentStep,
)
    requires
        agent_moves(before, event, after, step),
    ensures
        after.name == before.name,
        before.stage matches AgentStage::Lookup { used } ==> (event
            matches AgentEvent::Registry(agents) ==> {
            &&& step.work is Finish <==> forall|i: int|
                0 <= i < agents@.len() ==> #[trigger] agents@[i].name@ != before.name@
            &&& step.work is Tasks ==> used is Tasks
            &&& step.work matches AgentWork::Cancel { task_id } ==> used == (AgentUse::Cancel {
                task_id,
            })
            &&& after.stage is Show ==> used is Show
            &&& after.stage is ShowBefore ==> used is Refresh
            &&& after.stage matches AgentStage::Review { endpoint } ==> used is Trust && exists|
                i: int,
            |
                0 <= i < agents@.len() && (#[trigger] agents@[i]).name@ == before.name@
                    && agents@[i].endpoint == endpoint
        }),
        step.work is Cancel || step.work is Tasks ==> before.stage is Lookup && event is Registry,
        step.work is Refresh <==> before.stage is ShowBefore && event is Shown,
        step.work is RemoveCache <==> before.stage is RemoveDeclaration && event
            is DeclarationRemoved,
        before.stage is ShowBefore ==> (event matches AgentEvent::Shown { card, .. } ==> (after.stage
            matches AgentStage::Refresh { prior } && (prior is Some <==> card is Some) && (card
            matches Some((identity, _)) ==> prior == Some(identity)))),
        before.stage matches AgentStage::Review { endpoint } ==> (event
            matches AgentEvent::Shown { card, .. } ==> (step.work is Trust <==> (card
            matches Some((_, fetched)) ==> fetched@ == endpoint@))),
        step.work !is Declare && step.work !is Untrust && step.work !is RemoveDeclaration,
{
    if let AgentEvent::Registry(agents) = event {
        found_agents_have_the_name(agents@, before.name@);
    }
}

/// A command on agents ends once. It ends well with what came back for it, and in a
/// failure with what failed, and then it writes nothing.
pub proof fn agent_commands_end_as_they_came_out(
    before: AgentRun,
    event: AgentEvent,
    after: AgentRun,
    step: AgentStep,
)
    requires
        agent_moves(before, event, after, step),
    ensures
        before.stage is Over ==> after.stage is Over && step.work is Ignore,
        step.work is Finish <==> after.stage is Over && before.stage !is Over,
        step.work != AgentWork::Finish(None) ==> step.print@.len() == 0,
        before.stage !is Over ==> (event matches AgentEvent::Failed(cause) ==> (step.work
            matches AgentWork::Finish(Some(told)) && told@ == cause@)),
        step.work == AgentWork::Finish(None) <==> {
            ||| before.stage is Add && event is Declared
            ||| before.stage is List && event is Listed
            ||| before.stage is Show && event is Shown
            ||| before.stage is Refresh && event is Refreshed
            ||| before.stage is Trust && event is Trusted
            ||| before.stage is Untrust && event is Untrusted
            ||| before.stage is Tasks && event is Tasks
            ||| before.stage is Cancel && event is Cancelled
            ||| before.stage is RemoveCache && event is CacheRemoved
        },
{
}

}
