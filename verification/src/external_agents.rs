//! Commands on external agents: declaring, reviewing and trusting them.

pub mod commands;

use crate::config::CredentialReference;
use crate::text::{
    beginnings_are_held, beginnings_begin_alike, debug_text, decimal, decimal_text, ends_occur,
    occurs, parts_occur, quoted, text_eq,
};
use vstd::prelude::*;
use vstd::string::*;

verus! {

pub const ENDPOINT_CHANGED: &'static str = "endpoint changed; refresh the Agent Card before trusting";

pub const CANCEL_CONFIRMATION: &'static str = "remote cancellation requires --yes";

pub const REMOVAL_CONFIRMATION: &'static str = "removal requires --yes";

pub const NO_AGENTS: &'static str = "No external A2A agents are configured.\n";

/// The credential that a declaration names; a variable comes before a stored one.
pub fn declared_credential(env: Option<String>, credential_id: Option<String>) -> (credential: Option<
    CredentialReference,
>)
    ensures
        credential == (match (env, credential_id) {
            (Some(variable), _) => Some(CredentialReference::Environment { variable }),
            (None, Some(id)) => Some(CredentialReference::Stored { id }),
            (None, None) => None,
        }),
{
    match (env, credential_id) {
        (Some(variable), _) => Some(CredentialReference::Environment { variable }),
        (None, Some(id)) => Some(CredentialReference::Stored { id }),
        (None, None) => None,
    }
}

/// A declared agent.
#[derive(Debug, PartialEq, Eq)]
pub struct DeclaredAgent {
    pub name: String,
    pub endpoint: String,
}

/// Where a declared agent stands, or how many there are.
pub open spec fn agent_index(agents: Seq<DeclaredAgent>, name: Seq<char>) -> nat
    decreases agents.len(),
{
    if agents.len() == 0 || agents[0].name@ == name {
        0
    } else {
        1 + agent_index(agents.drop_first(), name)
    }
}

/// Why an agent is not found.
pub open spec fn unknown_agent(name: Seq<char>) -> Seq<char> {
    "unknown external agent "@ + debug_text(name)
}

/// Finds a declared agent.
pub fn find_agent(agents: &Vec<DeclaredAgent>, name: &str) -> (found: Result<usize, String>)
    ensures
        match found {
            Ok(at) => at < agents@.len() && at == agent_index(agents@, name@),
            Err(text) => agent_index(agents@, name@) >= agents@.len() && text@ == unknown_agent(
                name@,
            ),
        },
{
    let mut i: usize = 0;
    assert(agents@.skip(0) =~= agents@);
    while i < agents.len()
        invariant
            i <= agents@.len(),
            agent_index(agents@, name@) == i + agent_index(agents@.skip(i as int), name@),
        decreases agents@.len() - i,
    {
        assert(agents@.skip(i as int).drop_first() =~= agents@.skip(i + 1));
        if text_eq(agents[i].name.as_str(), name) {
            return Ok(i);
        }
        i += 1;
    }
    let mut text = "unknown external agent ".to_owned();
    text.append(quoted(name).as_str());
    Err(text)
}

/// Reports a declaration, which contacts nobody.
pub fn write_declared(name: &str, output: &mut String)
    ensures
        final(output)@ == old(output)@ + "External agent "@ + debug_text(name@)
            + " declared. No network request was made.\nNext: xana external-agent refresh "@ + name@
            + "\n"@,
{
    output.append("External agent ");
    output.append(quoted(name).as_str());
    output.append(" declared. No network request was made.\nNext: xana external-agent refresh ");
    output.append(name);
    output.append("\n");
}

/// What is shown of an agent.
#[derive(Debug, PartialEq, Eq)]
pub struct AgentView {
    pub name: String,
    pub readiness: String,
    pub endpoint: String,
}

/// The rows of agents.
pub open spec fn agent_rows(output: Seq<char>, agents: Seq<AgentView>) -> Seq<char>
    decreases agents.len(),
{
    if agents.len() == 0 {
        output
    } else {
        agent_rows(output, agents.drop_last()) + agents.last().name@ + "\t"@
            + agents.last().readiness@ + "\t"@ + agents.last().endpoint@ + "\n"@
    }
}

/// Lists the declared agents.
pub fn write_agents(agents: &Vec<AgentView>, output: &mut String)
    ensures
        final(output)@ == (if agents@.len() == 0 {
            old(output)@ + NO_AGENTS@
        } else {
            agent_rows(old(output)@, agents@)
        }),
{
    if agents.len() == 0 {
        output.append(NO_AGENTS);
        return;
    }
    let mut i: usize = 0;
    assert(agents@.take(0) =~= Seq::<AgentView>::empty());
    while i < agents.len()
        invariant
            i <= agents@.len(),
            output@ == agent_rows(old(output)@, agents@.take(i as int)),
        decreases agents@.len() - i,
    {
        assert(agents@.take(i + 1).drop_last() =~= agents@.take(i as int));
        output.append(agents[i].name.as_str());
        output.append("\t");
        output.append(agents[i].readiness.as_str());
        output.append("\t");
        output.append(agents[i].endpoint.as_str());
        output.append("\n");
        i += 1;
    }
    assert(agents@.take(i as int) =~= agents@);
}

/// A card that was fetched.
#[derive(Debug, PartialEq, Eq)]
pub struct RefreshedCard {
    pub agent_name: String,
    pub protocol_binding: String,
    pub protocol_version: String,
    pub identity_digest: String,
}

/// What is said of a refreshed card: whether its identity is the one before.
pub open spec fn refreshed_text(
    output: Seq<char>,
    name: Seq<char>,
    prior: Option<Seq<char>>,
    card: RefreshedCard,
) -> Seq<char> {
    let told = output + "Agent Card refreshed for "@ + debug_text(name) + ": "@ + card.agent_name@
        + " ("@ + card.protocol_binding@ + ", "@ + card.protocol_version@ + ")\n"@;
    match prior {
        Some(digest) => if digest == card.identity_digest@ {
            told + "Identity unchanged: "@ + card.identity_digest@ + "\n"@
        } else {
            told + "Identity changed; trust is blocked pending review.\nPrevious: "@ + digest
                + "\nCurrent:  "@ + card.identity_digest@ + "\n"@
        },
        None => told + "New identity requires review: "@ + card.identity_digest@
            + "\nNext: xana external-agent show "@ + name + "\n"@,
    }
}

/// Reports a refreshed card.
pub fn write_refreshed(name: &str, prior: Option<&str>, card: &RefreshedCard, output: &mut String)
    ensures
        final(output)@ == refreshed_text(
            old(output)@,
            name@,
            (match prior {
                Some(digest) => Some(digest@),
                None => None,
            }),
            *card,
        ),
{
    output.append("Agent Card refreshed for ");
    output.append(quoted(name).as_str());
    output.append(": ");
    output.append(card.agent_name.as_str());
    output.append(" (");
    output.append(card.protocol_binding.as_str());
    output.append(", ");
    output.append(card.protocol_version.as_str());
    output.append(")\n");
    match prior {
        Some(digest) => {
            if text_eq(digest, card.identity_digest.as_str()) {
                output.append("Identity unchanged: ");
                output.append(card.identity_digest.as_str());
                output.append("\n");
            } else {
                output.append("Identity changed; trust is blocked pending review.\nPrevious: ");
                output.append(digest);
                output.append("\nCurrent:  ");
                output.append(card.identity_digest.as_str());
                output.append("\n");
            }
        },
        None => {
            output.append("New identity requires review: ");
            output.append(card.identity_digest.as_str());
            output.append("\nNext: xana external-agent show ");
            output.append(name);
            output.append("\n");
        },
    }
}

/// Whether trust was confirmed.
pub fn admit_trust(name: &str, yes: bool) -> (admitted: Result<(), String>)
    ensures
        yes ==> admitted is Ok,
        !yes ==> (admitted matches Err(text) && text@
            == "trust requires --yes after `xana external-agent show "@ + name@ + "`"@),
{
    if yes {
        return Ok(());
    }
    let mut text = "trust requires --yes after `xana external-agent show ".to_owned();
    text.append(name);
    text.append("`");
    Err(text)
}

/// Whether what was reviewed is what is declared: a card that was fetched from
/// another endpoint cannot be trusted.
pub fn check_endpoint(cached_endpoint: Option<&str>, declared: &str) -> (checked: Result<
    (),
    String,
>)
    ensures
        match cached_endpoint {
            Some(endpoint) => if endpoint@ == declared@ {
                checked is Ok
            } else {
                checked matches Err(text) && text@ == ENDPOINT_CHANGED@
            },
            None => checked is Ok,
        },
{
    match cached_endpoint {
        Some(endpoint) => if text_eq(endpoint, declared) {
            Ok(())
        } else {
            Err(ENDPOINT_CHANGED.to_owned())
        },
        None => Ok(()),
    }
}

/// Reports that an agent is trusted, or no longer.
pub fn write_trust(name: &str, identity: Option<&str>, output: &mut String)
    ensures
        final(output)@ == (match identity {
            Some(digest) => old(output)@ + "Trusted external agent "@ + debug_text(name@)
                + " at identity "@ + digest@ + ".\n"@,
            None => old(output)@ + "External agent "@ + debug_text(name@)
                + " is no longer trusted.\n"@,
        }),
{
    match identity {
        Some(digest) => {
            output.append("Trusted external agent ");
            output.append(quoted(name).as_str());
            output.append(" at identity ");
            output.append(digest);
            output.append(".\n");
        },
        None => {
            output.append("External agent ");
            output.append(quoted(name).as_str());
            output.append(" is no longer trusted.\n");
        },
    }
}

/// A task of an agent.
#[derive(Debug, PartialEq, Eq)]
pub struct AgentTask {
    pub task_id: String,
    pub state: String,
    pub remote_cancel: String,
    pub updated_unix_ms: u64,
}

/// The rows of tasks.
pub open spec fn task_rows(output: Seq<char>, tasks: Seq<AgentTask>) -> Seq<char>
    decreases tasks.len(),
{
    if tasks.len() == 0 {
        output
    } else {
        let task = tasks.last();
        task_rows(output, tasks.drop_last()) + task.task_id@ + "\t"@ + task.state@ + "\tcancel="@
            + task.remote_cancel@ + "\tupdated="@ + decimal(task.updated_unix_ms as nat) + "\n"@
    }
}

/// Lists the tasks of an agent.
pub fn write_tasks(name: &str, tasks: &Vec<AgentTask>, output: &mut String)
    ensures
        final(output)@ == (if tasks@.len() == 0 {
            old(output)@ + "No tracked tasks for external agent "@ + debug_text(name@) + ".\n"@
        } else {
            task_rows(old(output)@, tasks@)
        }),
{
    if tasks.len() == 0 {
        output.append("No tracked tasks for external agent ");
        output.append(quoted(name).as_str());
        output.append(".\n");
        return;
    }
    let mut i: usize = 0;
    assert(tasks@.take(0) =~= Seq::<AgentTask>::empty());
    while i < tasks.len()
        invariant
            i <= tasks@.len(),
            output@ == task_rows(old(output)@, tasks@.take(i as int)),
        decreases tasks@.len() - i,
    {
        assert(tasks@.take(i + 1).drop_last() =~= tasks@.take(i as int));
        let task = &tasks[i];
        output.append(task.task_id.as_str());
        output.append("\t");
        output.append(task.state.as_str());
        output.append("\tcancel=");
        output.append(task.remote_cancel.as_str());
        output.append("\tupdated=");
        output.append(decimal_text(task.updated_unix_ms).as_str());
        output.append("\n");
        i += 1;
    }
    assert(tasks@.take(i as int) =~= tasks@);
}

/// Whether an ending was confirmed: a remote cancellation, or the removal of an
/// agent.
pub fn admit_ending(removal: bool, yes: bool) -> (admitted: Result<(), String>)
    ensures
        yes ==> admitted is Ok,
        !yes ==> (admitted matches Err(text) && text@ == (if removal {
            REMOVAL_CONFIRMATION@
        } else {
            CANCEL_CONFIRMATION@
        })),
{
    if yes {
        Ok(())
    } else if removal {
        Err(REMOVAL_CONFIRMATION.to_owned())
    } else {
        Err(CANCEL_CONFIRMATION.to_owned())
    }
}

/// Reports what came of a remote cancellation.
pub fn write_cancelled(name: &str, task_id: &str, task: &AgentTask, output: &mut String)
    ensures
        final(output)@ == old(output)@ + "Remote cancellation for "@ + debug_text(name@) + " task "@
            + task_id@ + ": "@ + task.remote_cancel@ + " ("@ + task.state@ + ")\n"@,
{
    output.append("Remote cancellation for ");
    output.append(quoted(name).as_str());
    output.append(" task ");
    output.append(task_id);
    output.append(": ");
    output.append(task.remote_cancel.as_str());
    output.append(" (");
    output.append(task.state.as_str());
    output.append(")\n");
}

/// Reports that an agent was removed.
pub fn write_removed(name: &str, output: &mut String)
    ensures
        final(output)@ == old(output)@ + "Removed external agent "@ + debug_text(name@)
            + " and its cached Card.\n"@,
{
    output.append("Removed external agent ");
    output.append(quoted(name).as_str());
    output.append(" and its cached Card.\n");
}

/// The agent that is found has the name that was looked for, and is the first that has;
/// where none is found, none has it.
pub proof fn found_agents_have_the_name(agents: Seq<DeclaredAgent>, name: Seq<char>)
    ensures
        agent_index(agents, name) <= agents.len(),
        agent_index(agents, name) < agents.len() ==> agents[agent_index(agents, name) as int].name@
            == name,
        forall|i: int| 0 <= i < agent_index(agents, name) ==> #[trigger] agents[i].name@ != name,
    decreases agents.len(),
{
    if agents.len() > 0 && agents[0].name@ != name {
        let rest = agents.drop_first();
        found_agents_have_the_name(rest, name);
        assert forall|i: int| 0 <= i < agent_index(agents, name) implies #[trigger] agents[i].name@
            != name by {
            if i > 0 {
                assert(rest[i - 1] == agents[i]);
            }
        }
    }
}

/// A declaration names the credential that was given, and none where none was given; a
/// variable comes before a stored one.
pub proof fn declared_credentials_are_those_given(
    env: Option<String>,
    credential_id: Option<String>,
    credential: Option<CredentialReference>,
)
    requires
        call_ensures(declared_credential, (env, credential_id), credential),
    ensures
        credential is None <==> env is None && credential_id is None,
        credential matches Some(CredentialReference::Environment { variable }) ==> env == Some(
            variable,
        ),
        credential matches Some(CredentialReference::Stored { id }) ==> env is None
            && credential_id == Some(id),
{
}

/// Trust is given, a task ended and an agent removed only where that was confirmed.
pub proof fn agents_are_changed_by_consent(
    name: &str,
    removal: bool,
    yes: bool,
    trusted: Result<(), String>,
    ended: Result<(), String>,
)
    requires
        call_ensures(admit_trust, (name, yes), trusted),
        call_ensures(admit_ending, (removal, yes), ended),
    ensures
        trusted is Ok <==> yes,
        ended is Ok <==> yes,
{
}

/// A card that was fetched from another endpoint than the declared one is not trusted.
pub proof fn cards_belong_to_their_endpoint(
    cached: Option<&str>,
    declared: &str,
    checked: Result<(), String>,
)
    requires
        call_ensures(check_endpoint, (cached, declared), checked),
    ensures
        checked is Err <==> (cached matches Some(endpoint) && endpoint@ != declared@),
{
}

/// A refreshed card is said to be unchanged where its identity is the one before, to be
/// changed where it is another, and to be new where there was none; its identity is told
/// either way.
pub proof fn refreshed_identities_are_compared(
    output: Seq<char>,
    name: Seq<char>,
    prior: Option<Seq<char>>,
    card: RefreshedCard,
)
    ensures
        occurs(refreshed_text(output, name, prior, card), card.identity_digest@),
        prior matches Some(digest) ==> {
            &&& digest == card.identity_digest@ ==> occurs(
                refreshed_text(output, name, prior, card),
                "Identity unchanged: "@ + digest,
            )
            &&& digest != card.identity_digest@ ==> occurs(
                refreshed_text(output, name, prior, card),
                "Identity changed; trust is blocked pending review.\nPrevious: "@ + digest,
            )
        },
        prior is None ==> occurs(
            refreshed_text(output, name, prior, card),
            "New identity requires review: "@ + card.identity_digest@,
        ),
{
    let told = output + "Agent Card refreshed for "@ + debug_text(name) + ": "@ + card.agent_name@
        + " ("@ + card.protocol_binding@ + ", "@ + card.protocol_version@ + ")\n"@;
    let text = refreshed_text(output, name, prior, card);
    let current = card.identity_digest@;
    match prior {
        Some(digest) => if digest == current {
            let said = "Identity unchanged: "@ + digest;
            assert(text =~= told + said + "\n"@);
            parts_occur(told, said, "\n"@);
            assert(text =~= told + "Identity unchanged: "@ + current + "\n"@);
            parts_occur(told + "Identity unchanged: "@, current, "\n"@);
        } else {
            let said = "Identity changed; trust is blocked pending review.\nPrevious: "@ + digest;
            let rest = "\nCurrent:  "@ + current + "\n"@;
            assert(text =~= told + said + rest);
            parts_occur(told, said, rest);
            assert(text =~= told + said + "\nCurrent:  "@ + current + "\n"@);
            parts_occur(told + said + "\nCurrent:  "@, current, "\n"@);
        },
        None => {
            let said = "New identity requires review: "@ + current;
            let rest = "\nNext: xana external-agent show "@ + name + "\n"@;
            assert(text =~= told + said + rest);
            parts_occur(told, said, rest);
            assert(text =~= told + "New identity requires review: "@ + current + rest);
            parts_occur(told + "New identity requires review: "@, current, rest);
        },
    }
}

/// Every agent is listed with its readiness and its endpoint.
pub proof fn agents_are_listed(output: Seq<char>, agents: Seq<AgentView>, at: int)
    requires
        0 <= at < agents.len(),
    ensures
        occurs(
            agent_rows(output, agents),
            agents[at].name@ + "\t"@ + agents[at].readiness@ + "\t"@ + agents[at].endpoint@,
        ),
    decreases agents.len(),
{
    let earlier = agent_rows(output, agents.drop_last());
    let whole = agent_rows(output, agents);
    let part = agents[at].name@ + "\t"@ + agents[at].readiness@ + "\t"@ + agents[at].endpoint@;
    if at == agents.len() - 1 {
        assert(whole =~= earlier + part + "\n"@);
        parts_occur(earlier, part, "\n"@);
    } else {
        agents_are_listed(output, agents.drop_last(), at);
        assert(earlier =~= whole.take(earlier.len() as int));
        beginnings_are_held(earlier, whole, part);
    }
}

/// Every task is listed with its state and what became of its cancellation.
pub proof fn tasks_are_listed(output: Seq<char>, tasks: Seq<AgentTask>, at: int)
    requires
        0 <= at < tasks.len(),
    ensures
        occurs(
            task_rows(output, tasks),
            tasks[at].task_id@ + "\t"@ + tasks[at].state@ + "\tcancel="@ + tasks[at].remote_cancel@,
        ),
    decreases tasks.len(),
{
    let earlier = task_rows(output, tasks.drop_last());
    let whole = task_rows(output, tasks);
    let task = tasks[at];
    let part = task.task_id@ + "\t"@ + task.state@ + "\tcancel="@ + task.remote_cancel@;
    if at == tasks.len() - 1 {
        let end = "\tupdated="@ + decimal(task.updated_unix_ms as nat) + "\n"@;
        assert(whole =~= earlier + part + end);
        parts_occur(earlier, part, end);
    } else {
        tasks_are_listed(output, tasks.drop_last(), at);
        assert(earlier =~= whole.take(earlier.len() as int));
        beginnings_are_held(earlier, whole, part);
    }
}

/// Trust is told with the agent and the identity that it was given to, and its end with the
/// agent; what was written before stays in front.
pub proof fn trust_is_told(name: &str, identity: Option<&str>, output: &mut String)
    requires
        call_ensures(write_trust, (name, identity, output), ()),
    ensures
        old(output)@.is_prefix_of(final(output)@),
        identity is Some ==> occurs(
            final(output)@,
            "Trusted external agent "@ + debug_text(name@),
        ),
        identity matches Some(digest) ==> occurs(final(output)@, " at identity "@ + digest@),
        identity is None ==> occurs(final(output)@, debug_text(name@) + " is no longer trusted.\n"@),
{
    let start = old(output)@;
    let whole = final(output)@;
    match identity {
        Some(digest) => {
            let t1 = start + "Trusted external agent "@;
            let t2 = t1 + debug_text(name@);
            let t3 = t2 + " at identity "@;
            let t4 = t3 + digest@;
            let t5 = t4 + ".\n"@;
            assert(t5.is_prefix_of(whole));
            beginnings_begin_alike(t4, ".\n"@, whole);
            beginnings_begin_alike(t3, digest@, whole);
            beginnings_begin_alike(t2, " at identity "@, whole);
            beginnings_begin_alike(t1, debug_text(name@), whole);
            beginnings_begin_alike(start, "Trusted external agent "@, whole);
            ends_occur(start, "Trusted external agent "@, debug_text(name@));
            beginnings_are_held(t2, whole, "Trusted external agent "@ + debug_text(name@));
            ends_occur(t2, " at identity "@, digest@);
            beginnings_are_held(t4, whole, " at identity "@ + digest@);
        },
        None => {
            let t1 = start + "External agent "@;
            let t2 = t1 + debug_text(name@);
            let t3 = t2 + " is no longer trusted.\n"@;
            assert(t3.is_prefix_of(whole));
            beginnings_begin_alike(t2, " is no longer trusted.\n"@, whole);
            beginnings_begin_alike(t1, debug_text(name@), whole);
            beginnings_begin_alike(start, "External agent "@, whole);
            ends_occur(t1, debug_text(name@), " is no longer trusted.\n"@);
            beginnings_are_held(t3, whole, debug_text(name@) + " is no longer trusted.\n"@);
        },
    }
}

/// A cancellation is told with the task that it was for, what came of the request and the
/// state that the task is in.
pub proof fn cancellations_are_told(
    name: &str,
    task_id: &str,
    task: &AgentTask,
    output: &mut String,
)
    requires
        call_ensures(write_cancelled, (name, task_id, task, output), ()),
    ensures
        old(output)@.is_prefix_of(final(output)@),
        occurs(final(output)@, "Remote cancellation for "@ + debug_text(name@)),
        occurs(final(output)@, " task "@ + task_id@),
        occurs(final(output)@, ": "@ + task.remote_cancel@),
        occurs(final(output)@, " ("@ + task.state@),
{
    let start = old(output)@;
    let whole = final(output)@;
    let t1 = start + "Remote cancellation for "@;
    let t2 = t1 + debug_text(name@);
    let t3 = t2 + " task "@;
    let t4 = t3 + task_id@;
    let t5 = t4 + ": "@;
    let t6 = t5 + task.remote_cancel@;
    let t7 = t6 + " ("@;
    let t8 = t7 + task.state@;
    let t9 = t8 + ")\n"@;
    assert(t9.is_prefix_of(whole));
    beginnings_begin_alike(t8, ")\n"@, whole);
    beginnings_begin_alike(t7, task.state@, whole);
    beginnings_begin_alike(t6, " ("@, whole);
    beginnings_begin_alike(t5, task.remote_cancel@, whole);
    beginnings_begin_alike(t4, ": "@, whole);
    beginnings_begin_alike(t3, task_id@, whole);
    beginnings_begin_alike(t2, " task "@, whole);
    beginnings_begin_alike(t1, debug_text(name@), whole);
    beginnings_begin_alike(start, "Remote cancellation for "@, whole);
    ends_occur(start, "Remote cancellation for "@, debug_text(name@));
    beginnings_are_held(t2, whole, "Remote cancellation for "@ + debug_text(name@));
    ends_occur(t2, " task "@, task_id@);
    beginnings_are_held(t4, whole, " task "@ + task_id@);
    ends_occur(t4, ": "@, task.remote_cancel@);
    beginnings_are_held(t6, whole, ": "@ + task.remote_cancel@);
    ends_occur(t6, " ("@, task.state@);
    beginnings_are_held(t8, whole, " ("@ + task.state@);
}

}
