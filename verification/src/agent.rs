//! What the native agent is set up with, and the answer-only phase after
//! failed memory repair.

pub mod recovery;

use crate::message::{ContentBlock, Message, MessageModel, Role};
use crate::text::{
    blank, copy_option, decimal, decimal_text, is_blank, occurs, option_view, parts_occur,
};
use crate::turn::{AgentTurnResult, Receipt, TurnOutcome, TurnServices};
use crate::usage::{GenerationTiming, ProviderUsage};
use vstd::prelude::*;
use vstd::string::*;

verus! {

/// How the budget of an agent's provider requests is kept.
#[derive(Debug, PartialEq, Eq)]
pub struct UsageBudget {
    pub root: String,
    pub route: String,
    pub output_reserve: u64,
    pub parent: Option<String>,
}

/// What a helper may spend on condensing a conversation.
#[derive(Clone, Copy, Debug, PartialEq, Eq)]
pub struct HelperPolicy {
    pub max_output_tokens: u64,
}

/// The connection and model that a prompt was planned for.
#[derive(Debug, PartialEq, Eq)]
pub struct PlannedRoute {
    pub connection: String,
    pub model: String,
}

/// The native agent's settings.
#[derive(Debug, PartialEq, Eq)]
pub struct Agent {
    max_tool_rounds: usize,
    route: Option<PlannedRoute>,
    usage_budget: Option<UsageBudget>,
    semantic_compaction: Option<HelperPolicy>,
    output_recorder: bool,
}

/// The content of an agent's settings.
pub struct AgentModel {
    pub max_tool_rounds: nat,
    pub route: Option<PlannedRoute>,
    pub usage_budget: Option<UsageBudget>,
    pub semantic_compaction: Option<HelperPolicy>,
    pub output_recorder: bool,
}

impl View for Agent {
    type V = AgentModel;

    closed spec fn view(&self) -> AgentModel {
        AgentModel {
            max_tool_rounds: self.max_tool_rounds as nat,
            route: self.route,
            usage_budget: self.usage_budget,
            semantic_compaction: self.semantic_compaction,
            output_recorder: self.output_recorder,
        }
    }
}

/// A telemetry fact about one operation.
#[derive(Debug, PartialEq, Eq)]
pub struct TelemetryEvent {
    pub operation_id: String,
    pub kind: TelemetryKind,
    pub subject: String,
}

#[derive(Clone, Copy, PartialEq, Eq, Structural, Debug)]
pub enum TelemetryKind {
    ProviderFailed,
    StorageFailed,
}

/// A phase of building context, and how long it took in milliseconds.
#[derive(Debug, PartialEq, Eq)]
pub struct ContextPhaseEvent {
    pub operation_id: String,
    pub phase: String,
    pub elapsed: u64,
}

pub const NO_ACCOUNTING: &'static str = "semantic helper requires durable usage accounting";

impl UsageBudget {
    /// A copy of this budget.
    pub fn copy(&self) -> (copy: UsageBudget)
        ensures
            copy.root == self.root,
            copy.route == self.route,
            copy.output_reserve == self.output_reserve,
            option_view(copy.parent) == option_view(self.parent),
    {
        UsageBudget {
            root: self.root.clone(),
            route: self.route.clone(),
            output_reserve: self.output_reserve,
            parent: copy_option(&self.parent),
        }
    }
}

impl Agent {
    /// An agent without budget, helper or recorder.
    pub fn new(max_tool_rounds: usize, route: Option<PlannedRoute>) -> (agent: Agent)
        ensures
            agent@ == (AgentModel {
                max_tool_rounds: max_tool_rounds as nat,
                route,
                usage_budget: None,
                semantic_compaction: None,
                output_recorder: false,
            }),
    {
        Agent {
            max_tool_rounds,
            route,
            usage_budget: None,
            semantic_compaction: None,
            output_recorder: false,
        }
    }

    /// The agent with or without a helper that condenses conversations.
    pub fn with_semantic_compaction(self, policy: Option<HelperPolicy>) -> (agent: Agent)
        ensures
            agent@ == (AgentModel { semantic_compaction: policy, ..self@ }),
    {
        let mut agent = self;
        agent.semantic_compaction = policy;
        agent
    }

    /// Whether a helper condenses conversations.
    pub fn semantic_compaction_enabled(&self) -> (yes: bool)
        ensures
            yes == (self@.semantic_compaction is Some),
    {
        self.semantic_compaction.is_some()
    }

    /// Whether the helper is to condense a conversation now. It must not spend
    /// anything that is not accounted for.
    pub fn enrich_compaction(&self) -> (helper: Result<Option<HelperPolicy>, String>)
        ensures
            self@.semantic_compaction is None ==> helper == Ok::<Option<HelperPolicy>, String>(
                None,
            ),
            self@.semantic_compaction is Some && self@.usage_budget is None
                ==> (helper matches Err(text) && text@ == NO_ACCOUNTING@),
            self@.semantic_compaction is Some && self@.usage_budget is Some ==> helper == Ok::<
                Option<HelperPolicy>,
                String,
            >(self@.semantic_compaction),
    {
        match self.semantic_compaction {
            None => Ok(None),
            Some(policy) => if self.usage_budget.is_none() {
                Err(NO_ACCOUNTING.to_owned())
            } else {
                Ok(Some(policy))
            },
        }
    }

    /// The agent whose budget, if it has one, is charged to a parent operation:
    /// `inherited` is what came of asking the ledger for that. An agent without a
    /// budget has nothing to inherit.
    pub fn with_parent_usage(self, inherited: Result<UsageBudget, String>) -> (agent: Result<
        Agent,
        String,
    >)
        ensures
            self@.usage_budget is None ==> (agent matches Ok(agent) && agent@ == self@),
            self@.usage_budget is Some ==> match inherited {
                Ok(budget) => agent matches Ok(agent) && agent@ == (AgentModel {
                    usage_budget: Some(budget),
                    ..self@
                }),
                Err(text) => agent matches Err(error) && error == text,
            },
    {
        let mut agent = self;
        if agent.usage_budget.is_some() {
            match inherited {
                Ok(budget) => {
                    agent.usage_budget = Some(budget);
                },
                Err(text) => {
                    return Err(text);
                },
            }
        }
        Ok(agent)
    }

    /// The agent with or without a budget.
    pub fn with_usage_budget(self, budget: Option<UsageBudget>) -> (agent: Agent)
        ensures
            agent@ == (AgentModel { usage_budget: budget, ..self@ }),
    {
        let mut agent = self;
        agent.usage_budget = budget;
        agent
    }

    /// The budget that completion checks are charged to.
    pub fn completion_usage_budget(&self) -> (budget: Option<UsageBudget>)
        ensures
            budget is Some == self@.usage_budget is Some,
            budget matches Some(copy) ==> copy.root == self@.usage_budget->0.root && copy.route
                == self@.usage_budget->0.route && copy.output_reserve
                == self@.usage_budget->0.output_reserve && option_view(copy.parent)
                == option_view(self@.usage_budget->0.parent),
    {
        match &self.usage_budget {
            Some(budget) => Some(budget.copy()),
            None => None,
        }
    }

    /// The agent that retains tool output as evidence, or does not.
    pub fn with_output_recorder(self, recorder: bool) -> (agent: Agent)
        ensures
            agent@ == (AgentModel { output_recorder: recorder, ..self@ }),
    {
        let mut agent = self;
        agent.output_recorder = recorder;
        agent
    }

    /// How many tool rounds a turn may take.
    pub fn max_tool_rounds(&self) -> (rounds: usize)
        ensures
            rounds == self@.max_tool_rounds,
    {
        self.max_tool_rounds
    }

    /// The connection and model that diagnostics name, if the prompt was
    /// planned for one.
    pub fn diagnostic_route(&self) -> (route: (Option<&str>, Option<&str>))
        ensures
            match self@.route {
                Some(planned) => {
                    &&& route.0 matches Some(connection)
                    &&& connection@ == planned.connection@
                    &&& route.1 matches Some(model)
                    &&& model@ == planned.model@
                },
                None => route.0 is None && route.1 is None,
            },
    {
        match &self.route {
            Some(planned) => (Some(planned.connection.as_str()), Some(planned.model.as_str())),
            None => (None, None),
        }
    }

    /// The telemetry fact that something could not be stored.
    pub fn record_storage_failure(&self, operation_id: &str, subject: &str) -> (event: TelemetryEvent)
        ensures
            event.operation_id@ == operation_id@,
            event.kind == TelemetryKind::StorageFailed,
            event.subject@ == subject@,
    {
        TelemetryEvent {
            operation_id: operation_id.to_owned(),
            kind: TelemetryKind::StorageFailed,
            subject: subject.to_owned(),
        }
    }

    /// The telemetry fact that a phase of building context took so long.
    pub fn record_context_phase(&self, operation_id: &str, phase: &str, elapsed: u64) -> (event:
        ContextPhaseEvent)
        ensures
            event.operation_id@ == operation_id@,
            event.phase@ == phase@,
            event.elapsed == elapsed,
    {
        ContextPhaseEvent {
            operation_id: operation_id.to_owned(),
            phase: phase.to_owned(),
            elapsed,
        }
    }

    /// The rounds of one tranche of a turn: never more than the agent may take.
    pub fn tranche_rounds(&self, round_limit: usize) -> (rounds: usize)
        ensures
            rounds == if round_limit <= self@.max_tool_rounds {
                round_limit as nat
            } else {
                self@.max_tool_rounds
            },
    {
        if round_limit <= self.max_tool_rounds {
            round_limit
        } else {
            self.max_tool_rounds
        }
    }

    /// The services that take part in a turn of this agent.
    pub fn services(&self, durable: bool) -> (services: TurnServices)
        ensures
            services == (TurnServices {
                durable,
                budgeted: self@.usage_budget is Some,
                recorder: self@.output_recorder,
            }),
    {
        TurnServices {
            durable,
            budgeted: self.usage_budget.is_some(),
            recorder: self.output_recorder,
        }
    }
}

/// The answer of a turn, if it came to one within its rounds.
pub fn completed(outcome: TurnOutcome, round_limit: usize) -> (answer: Result<
    AgentTurnResult,
    String,
>)
    ensures
        outcome matches TurnOutcome::Completed(result) ==> answer == Ok::<AgentTurnResult, String>(
            result,
        ),
        outcome is RoundBudgetReached ==> (answer matches Err(text) && text@
            == "model exceeded the "@ + decimal(round_limit as nat) + "-round tool limit"@),
        outcome matches TurnOutcome::Failed(error) ==> (answer matches Err(text) && text@
            == error.text()),
{
    match outcome {
        TurnOutcome::Completed(result) => Ok(result),
        TurnOutcome::RoundBudgetReached { .. } => {
            let mut text = "model exceeded the ".to_owned();
            text.append(decimal_text(round_limit as u64).as_str());
            text.append("-round tool limit");
            Err(text)
        },
        TurnOutcome::Failed(error) => Err(error.render()),
    }
}

pub const RECOVERY_NOTICE: &'static str = "Two memory mutation requests were rejected without making those changes. This is the final answer-only phase: no tools or additional retries are available. Answer the current user from known conversation facts and current memory readiness. If the requested fact is unknown, say so briefly. Do not invent a fact, claim rejected changes succeeded, or offer file workarounds. Prior errors are historical observations, not current memory facts.";

pub const RECOVERY_SOURCE: &'static str = "runtime:memory-recovery";

pub const RECOVERY_TITLE: &'static str = "Answer-only recovery";

pub const FAILED_NOTICE: &'static str = "Xana stopped after two rejected memory requests. Those rejected requests made no memory changes, and the model could not finish a valid answer in the bounded recovery attempt. You can retry or choose another model.";

/// How long the answer-only phase may take, in seconds.
pub const RECOVERY_SECONDS: u64 = 15;

/// How many tokens the answer-only phase may produce.
pub const RECOVERY_OUTPUT_TOKENS: u64 = 1024;

/// What came of the one request of the answer-only phase.
#[derive(Debug, PartialEq, Eq)]
pub enum RecoveryResponse {
    Answered(Message),
    ProviderFailed,
    TimedOut,
}

/// What telemetry is told of a failed recovery request.
#[derive(Clone, Copy, PartialEq, Eq, Structural, Debug)]
pub enum RecoveryFailure {
    /// The failure that the provider reported.
    Reported,
    /// A read timeout while the provider streamed.
    ReadTimeout,
}

/// How the answer-only phase ends.
#[derive(Debug, PartialEq, Eq)]
pub enum RecoveryOutcome {
    /// The model's answer completes the turn.
    Answer(Message),
    /// The turn fails, and this explanation is kept in the conversation.
    Notice(Message),
}

/// All that follows from the response of the answer-only phase.
#[derive(Debug, PartialEq, Eq)]
pub struct Recovery {
    pub failure: Option<RecoveryFailure>,
    pub timing: GenerationTiming,
    pub receipt: Receipt,
    pub outcome: RecoveryOutcome,
}

/// Whether a block holds text that says something.
pub open spec fn speaks(block: ContentBlock) -> bool {
    block matches ContentBlock::Text(text) && !is_blank(text@)
}

/// Whether a message is an answer: nothing but text of the assistant, and not
/// only blanks.
pub open spec fn is_answer(message: MessageModel) -> bool {
    &&& message.role == Role::Assistant
    &&& forall|i: int| 0 <= i < message.content.len() ==> (#[trigger] message.content[i]) is Text
    &&& exists|i: int| 0 <= i < message.content.len() && speaks(#[trigger] message.content[i])
}

/// Whether a message answers the owner without asking for anything.
pub fn accepts_answer(message: &Message) -> (yes: bool)
    ensures
        yes == is_answer(message@),
{
    match message.role {
        Role::Assistant => {},
        _ => {
            return false;
        },
    }
    let mut said: bool = false;
    let mut i: usize = 0;
    while i < message.content.len()
        invariant
            i <= message.content@.len(),
            forall|j: int| 0 <= j < i ==> (#[trigger] message.content@[j]) is Text,
            said == (exists|j: int| 0 <= j < i && speaks(#[trigger] message.content@[j])),
        decreases message.content@.len() - i,
    {
        match &message.content[i] {
            ContentBlock::Text(text) => {
                if !blank(text.as_str()) {
                    assert(speaks(message.content@[i as int]));
                    said = true;
                }
            },
            _ => {
                assert(!(message@.content[i as int] is Text));
                return false;
            },
        }
        i += 1;
    }
    assert(message@.content == message.content@);
    said
}

/// Whether a recovery is what follows from the response of the answer-only phase:
/// an answer completes the turn, and anything else fails it with one explanation
/// that is kept.
pub open spec fn recovers(
    response: RecoveryResponse,
    usage: Option<ProviderUsage>,
    first_delta: Option<u64>,
    recovery: Recovery,
) -> bool {
    let ok = response matches RecoveryResponse::Answered(message) && is_answer(message@);
    &&& recovery.failure == (match response {
        RecoveryResponse::Answered(_) => None,
        RecoveryResponse::ProviderFailed => Some(RecoveryFailure::Reported),
        RecoveryResponse::TimedOut => Some(RecoveryFailure::ReadTimeout),
    })
    &&& recovery.timing == GenerationTiming { recovery: true, completed: ok, first_delta }
    &&& recovery.receipt == (Receipt {
        total_tokens: match usage {
            Some(usage) => usage.total_tokens,
            None => None,
        },
        reported_cost_microunits: match usage {
            Some(usage) => usage.cost_microunits,
            None => None,
        },
        completed: ok,
    })
    &&& if ok {
        recovery.outcome == RecoveryOutcome::Answer(response->Answered_0)
    } else {
        recovery.outcome matches RecoveryOutcome::Notice(notice) && is_notice(notice@)
    }
}

/// Whether a message is the explanation of a failed recovery.
pub open spec fn is_notice(message: MessageModel) -> bool {
    &&& message.role == Role::Assistant
    &&& message.content.len() == 1
    &&& message.content[0] matches ContentBlock::Text(text)
    &&& text@ == FAILED_NOTICE@
}

/// Decides what follows from the response of the answer-only phase.
pub fn recover_memory_answer(
    response: RecoveryResponse,
    usage: Option<ProviderUsage>,
    first_delta: Option<u64>,
) -> (recovery: Recovery)
    ensures
        recovers(response, usage, first_delta, recovery),
{
    let failure = match &response {
        RecoveryResponse::Answered(_) => None,
        RecoveryResponse::ProviderFailed => Some(RecoveryFailure::Reported),
        RecoveryResponse::TimedOut => Some(RecoveryFailure::ReadTimeout),
    };
    let ok = match &response {
        RecoveryResponse::Answered(message) => accepts_answer(message),
        _ => false,
    };
    let outcome = match response {
        RecoveryResponse::Answered(message) if ok => RecoveryOutcome::Answer(message),
        _ => RecoveryOutcome::Notice(Message::text(Role::Assistant, FAILED_NOTICE)),
    };
    let (total_tokens, reported_cost_microunits) = match usage {
        Some(usage) => (usage.total_tokens, usage.cost_microunits),
        None => (None, None),
    };
    Recovery {
        failure,
        timing: GenerationTiming { recovery: true, completed: ok, first_delta },
        receipt: Receipt { total_tokens, reported_cost_microunits, completed: ok },
        outcome,
    }
}

/// What the answer-only phase accepts asks for no tool.
pub proof fn answers_ask_for_nothing(message: MessageModel)
    requires
        is_answer(message),
    ensures
        crate::message::calls_in(message.content).len() == 0,
{
    only_text_no_calls(message.content);
}

proof fn only_text_no_calls(content: Seq<ContentBlock>)
    requires
        forall|i: int| 0 <= i < content.len() ==> (#[trigger] content[i]) is Text,
    ensures
        crate::message::calls_in(content).len() == 0,
    decreases content.len(),
{
    if content.len() > 0 {
        assert(content.last() == content[content.len() - 1]);
        let rest = content.drop_last();
        assert forall|i: int| 0 <= i < rest.len() implies (#[trigger] rest[i]) is Text by {
            assert(rest[i] == content[i]);
        }
        only_text_no_calls(rest);
    }
}

/// Setting one thing of an agent sets it as given and leaves everything else.
pub proof fn settings_are_set_alone(
    agent: Agent,
    policy: Option<HelperPolicy>,
    helped: Agent,
    budget: Option<UsageBudget>,
    paid: Agent,
    recorder: bool,
    recorded: Agent,
)
    requires
        call_ensures(Agent::with_semantic_compaction, (agent, policy), helped),
        call_ensures(Agent::with_usage_budget, (agent, budget), paid),
        call_ensures(Agent::with_output_recorder, (agent, recorder), recorded),
    ensures
        helped@.semantic_compaction == policy,
        paid@.usage_budget == budget,
        recorded@.output_recorder == recorder,
        helped@.usage_budget == agent@.usage_budget && recorded@.usage_budget
            == agent@.usage_budget,
        paid@.semantic_compaction == agent@.semantic_compaction && recorded@.semantic_compaction
            == agent@.semantic_compaction,
        helped@.output_recorder == agent@.output_recorder && paid@.output_recorder
            == agent@.output_recorder,
        helped@.route == agent@.route && paid@.route == agent@.route && recorded@.route
            == agent@.route,
        helped@.max_tool_rounds == agent@.max_tool_rounds && paid@.max_tool_rounds
            == agent@.max_tool_rounds && recorded@.max_tool_rounds == agent@.max_tool_rounds,
{
}

/// A tranche takes no more rounds than it is given and no more than the agent may take,
/// and no fewer than one of the two.
pub proof fn tranches_stay_within_their_rounds(agent: Agent, round_limit: usize, rounds: usize)
    requires
        call_ensures(Agent::tranche_rounds, (&agent, round_limit), rounds),
    ensures
        rounds <= round_limit,
        rounds <= agent@.max_tool_rounds,
        rounds == round_limit || rounds == agent@.max_tool_rounds,
{
}

/// A helper spends nothing that is not accounted for: it is used as it was set, and only
/// where the agent has a budget.
pub proof fn helpers_are_accounted_for(agent: Agent, helper: Result<Option<HelperPolicy>, String>)
    requires
        call_ensures(Agent::enrich_compaction, (&agent,), helper),
    ensures
        helper matches Ok(Some(policy)) ==> agent@.usage_budget is Some
            && agent@.semantic_compaction == Some(policy),
        helper matches Ok(None) ==> agent@.semantic_compaction is None,
        helper is Err <==> agent@.semantic_compaction is Some && agent@.usage_budget is None,
{
}

/// An agent with a budget is charged to its parent by the budget that the ledger gave, and
/// is not made where the ledger refused; one without a budget stays as it is.
pub proof fn children_are_charged_to_their_parent(
    agent: Agent,
    inherited: Result<UsageBudget, String>,
    child: Result<Agent, String>,
)
    requires
        call_ensures(Agent::with_parent_usage, (agent, inherited), child),
    ensures
        child is Err <==> agent@.usage_budget is Some && inherited is Err,
        child matches Ok(made) ==> {
            &&& made@.usage_budget is Some <==> agent@.usage_budget is Some
            &&& made@.usage_budget matches Some(budget) ==> inherited == Ok::<UsageBudget, String>(
                budget,
            )
            &&& made@.route == agent@.route
            &&& made@.max_tool_rounds == agent@.max_tool_rounds
            &&& made@.semantic_compaction == agent@.semantic_compaction
            &&& made@.output_recorder == agent@.output_recorder
        },
{
}

/// The services of a turn are those that the agent has: a budget where it has one, and a
/// recorder where it has one.
pub proof fn turns_have_the_agents_services(agent: Agent, durable: bool, services: TurnServices)
    requires
        call_ensures(Agent::services, (&agent, durable), services),
    ensures
        services.durable == durable,
        services.budgeted <==> agent@.usage_budget is Some,
        services.recorder == agent@.output_recorder,
{
}

/// A turn that came to an answer is answered with it, and one that did not is an error.
pub proof fn only_completed_turns_answer(
    outcome: TurnOutcome,
    round_limit: usize,
    answer: Result<AgentTurnResult, String>,
)
    requires
        call_ensures(completed, (outcome, round_limit), answer),
    ensures
        answer is Ok <==> outcome is Completed,
        answer matches Ok(result) ==> outcome == TurnOutcome::Completed(result),
        outcome is RoundBudgetReached ==> (answer matches Err(text) && occurs(
            text@,
            decimal(round_limit as nat),
        )),
{
    if outcome is RoundBudgetReached {
        parts_occur("model exceeded the "@, decimal(round_limit as nat), "-round tool limit"@);
    }
}

/// What the answer-only phase accepts is text of the assistant that says something: no
/// other role, nothing but text, and not only blanks. What it accepts completes the turn as
/// it is; anything else, and a request that failed or took too long, ends in the
/// explanation, and the request is charged either way with what the provider reported.
pub proof fn only_answers_recover(
    response: RecoveryResponse,
    usage: Option<ProviderUsage>,
    first_delta: Option<u64>,
    recovery: Recovery,
)
    requires
        call_ensures(recover_memory_answer, (response, usage, first_delta), recovery),
    ensures
        recovery.outcome matches RecoveryOutcome::Answer(message) ==> {
            &&& response == RecoveryResponse::Answered(message)
            &&& message.role == Role::Assistant
            &&& forall|i: int|
                0 <= i < message.content@.len() ==> (#[trigger] message.content@[i]) is Text
            &&& exists|i: int|
                0 <= i < message.content@.len() && ((#[trigger] message.content@[i])
                    matches ContentBlock::Text(text) && !is_blank(text@))
        },
        recovery.outcome matches RecoveryOutcome::Notice(notice) ==> {
            &&& notice.role == Role::Assistant
            &&& notice.content@.len() == 1
        },
        response !is Answered ==> recovery.outcome is Notice,
        recovery.failure is None <==> response is Answered,
        recovery.failure == Some(RecoveryFailure::ReadTimeout) <==> response is TimedOut,
        recovery.receipt.completed <==> recovery.outcome is Answer,
        recovery.timing.completed <==> recovery.outcome is Answer,
        recovery.timing.recovery,
        recovery.timing.first_delta == first_delta,
        usage matches Some(used) ==> recovery.receipt.total_tokens == used.total_tokens
            && recovery.receipt.reported_cost_microunits == used.cost_microunits,
        usage is None ==> recovery.receipt.total_tokens is None
            && recovery.receipt.reported_cost_microunits is None,
{
    if let RecoveryOutcome::Answer(message) = recovery.outcome {
        assert(message@.content == message.content@);
        let at = choose|i: int|
            0 <= i < message@.content.len() && speaks(#[trigger] message@.content[i]);
        assert(speaks(message.content@[at]));
    }
}

/// Whatever the assistant says in text alone, and not only in blanks, is accepted as an
/// answer.
pub proof fn plain_answers_are_accepted(message: Message, yes: bool, at: int)
    requires
        call_ensures(accepts_answer, (&message,), yes),
        message.role == Role::Assistant,
        forall|i: int|
            0 <= i < message.content@.len() ==> (#[trigger] message.content@[i]) is Text,
        0 <= at < message.content@.len(),
        !is_blank(message.content@[at]->Text_0@),
    ensures
        yes,
{
    assert(message@.content == message.content@);
    assert(speaks(message@.content[at]));
}

/// A child's budget is drawn from the agent's own, under the same route and reserve, and
/// diagnostics name the route that is planned and no other.
pub proof fn budgets_and_routes_are_the_agents_own(
    agent: &Agent,
    budget: Option<UsageBudget>,
    route: (Option<&str>, Option<&str>),
)
    requires
        call_ensures(Agent::completion_usage_budget, (agent,), budget),
        call_ensures(Agent::diagnostic_route, (agent,), route),
    ensures
        budget is Some <==> agent@.usage_budget is Some,
        budget matches Some(held) ==> (agent@.usage_budget matches Some(own) && held.root
            == own.root && held.route == own.route && held.output_reserve == own.output_reserve),
        route.0 is Some <==> agent@.route is Some,
        route.1 is Some <==> agent@.route is Some,
        agent@.route matches Some(planned) ==> route.0->0@ == planned.connection@ && route.1->0@
            == planned.model@,
{
}

}
