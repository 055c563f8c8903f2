//! One bounded turn of the native agent: the decisions between its provider
//! requests, tool invocations and commits.
//!
//! The turn takes what happened outside as an event and answers with the next
//! action. It never performs an action itself.

use crate::message::{
    calls_in, copy_messages, message_views, requested_tools, result_message, Message, MessageModel,
    Role, ToolCall, ToolResult,
};
use crate::progress::{observed, of_history, refusal, Progress, ProgressGuard, STOP_REASON};
use crate::usage::{
    first_output, totals, AgentTurnUsage, DeltaEvent, Deltas, EventDeltaSink, ProviderUsage,
};
use vstd::prelude::*;
use vstd::string::*;

pub mod laws;

verus! {

pub const NO_ROUNDS: &'static str = "native tool-round tranche must contain at least one round";

pub const ASSISTANT_COMMIT: &'static str = "could not commit assistant tool request";

pub const STEP_COMMIT: &'static str = "could not commit operation step";

pub const EVIDENCE_COMMIT: &'static str = "could not retain tool evidence; do not replay the effect";

pub const RESULT_COMMIT: &'static str = "could not commit tool result";

pub const SETTLEMENT: &'static str = "could not settle provider usage; reservation remains charged";

pub const SETTLEMENT_SUBJECT: &'static str = "provider-usage-settlement";

/// A failure that the provider reported.
#[derive(Debug, PartialEq, Eq)]
pub struct ProviderFailure {
    pub kind: String,
    pub text: String,
}

/// Why a turn ended without an answer.
#[derive(Debug, PartialEq, Eq)]
pub enum TurnError {
    NoRounds,
    Stopped,
    Unprepared(String),
    Settlement(String),
    Provider(ProviderFailure),
    AssistantCommit(String),
    StepCommit(String),
    Tool(String),
    Evidence(String),
    ResultCommit(String),
    /// An observer halted the turn at a boundary.
    Halted(String),
}

/// What is settled against the usage budget for one request.
#[derive(Clone, Copy, PartialEq, Eq, Debug)]
pub struct Receipt {
    pub total_tokens: Option<u64>,
    pub reported_cost_microunits: Option<u64>,
    pub completed: bool,
}

/// What happened outside since the latest action.
#[derive(Debug, PartialEq, Eq)]
pub enum TurnEvent {
    /// The request is ready, and the clock reads so.
    Prepared(u64),
    /// The provider answered.
    Answered(Message),
    /// The provider failed.
    ProviderFailed(ProviderFailure),
    /// The tool came back.
    ToolReturned(ToolResult),
    /// The result's evidence was retained.
    Recorded(ToolResult),
    /// The action was done.
    Done,
    /// The action failed.
    Failed(String),
    /// The action was done, and an observer of its boundary halts the turn.
    Halted(String),
}

/// The answer of a turn, with the use of all its requests.
#[derive(Debug, PartialEq, Eq)]
pub struct AgentTurnResult {
    pub message: Message,
    pub usage: AgentTurnUsage,
}

/// How a turn ended.
#[derive(Debug, PartialEq, Eq)]
pub enum TurnOutcome {
    Completed(AgentTurnResult),
    RoundBudgetReached { rounds: usize, usage: AgentTurnUsage },
    Failed(TurnError),
}

/// What is to be done next.
#[derive(Debug, PartialEq, Eq)]
pub enum TurnAction {
    /// Refresh the prompt and build the request.
    Prepare,
    /// Reserve usage and send the request.
    Request,
    /// Settle the reservation of the request.
    Settle(Receipt),
    /// Commit the assistant's message.
    CommitAssistant(Message),
    /// Commit the start of the step.
    StartStep,
    /// Run a tool.
    Invoke(ToolCall),
    /// Run no tool: this result stands.
    Refuse(ToolResult),
    /// Retain the evidence of a result.
    Record(ToolResult),
    /// Commit the message that carries a result.
    CommitResult(ToolResult),
    /// The turn is over.
    Finish(TurnOutcome),
    /// The event does not belong here; nothing changed.
    Ignore,
}

/// What observers are told along with an action.
#[derive(Debug, PartialEq, Eq)]
pub enum TurnNotice {
    /// The provider failed: the terminal diagnostic.
    ProviderDiagnosed,
    /// Settling usage failed.
    SettlementFailed,
    /// The provider failed: the telemetry subject.
    ProviderFailed(String),
    /// A tool finished.
    ToolFinished(ToolResult),
}

/// Which outside services take part in a turn.
#[derive(Clone, Copy, PartialEq, Eq, Debug)]
pub struct TurnServices {
    /// The conversation and its steps are committed durably.
    pub durable: bool,
    /// Usage is reserved before and settled after each request.
    pub budgeted: bool,
    /// Tool output is retained as evidence.
    pub recorder: bool,
}

enum Phase {
    Preparing,
    Requesting,
    Settling(Result<Message, ProviderFailure>),
    CommittingAssistant(Message),
    StartingStep(Vec<ToolCall>),
    Calling(Vec<ToolCall>, usize),
    Refusing(Vec<ToolCall>, usize, ToolResult),
    Recording(Vec<ToolCall>, usize),
    CommittingResult(Vec<ToolCall>, usize, ToolResult),
    Over,
}

/// Where a turn stands.
pub enum Stage {
    Preparing,
    Requesting,
    Settling(Result<MessageModel, ProviderFailure>),
    CommittingAssistant(MessageModel),
    StartingStep(Seq<ToolCall>),
    Calling(Seq<ToolCall>, nat),
    Refusing(Seq<ToolCall>, nat, ToolResult),
    Recording(Seq<ToolCall>, nat),
    CommittingResult(Seq<ToolCall>, nat, ToolResult),
    Over,
}

/// One turn in progress.
pub struct Turn {
    services: TurnServices,
    round_limit: usize,
    rounds: usize,
    messages: Vec<Message>,
    progress: ProgressGuard,
    sink: EventDeltaSink,
    phase: Phase,
}

/// All that a turn knows.
pub struct TurnModel {
    pub services: TurnServices,
    pub round_limit: nat,
    pub rounds: nat,
    pub messages: Seq<MessageModel>,
    pub progress: Progress,
    pub deltas: Deltas,
    pub stage: Stage,
}

impl View for Phase {
    type V = Stage;

    closed spec fn view(&self) -> Stage {
        match self {
            Phase::Preparing => Stage::Preparing,
            Phase::Requesting => Stage::Requesting,
            Phase::Settling(Ok(message)) => Stage::Settling(Ok(message@)),
            Phase::Settling(Err(failure)) => Stage::Settling(Err(*failure)),
            Phase::CommittingAssistant(message) => Stage::CommittingAssistant(message@),
            Phase::StartingStep(calls) => Stage::StartingStep(calls@),
            Phase::Calling(calls, at) => Stage::Calling(calls@, *at as nat),
            Phase::Refusing(calls, at, result) => Stage::Refusing(calls@, *at as nat, *result),
            Phase::Recording(calls, at) => Stage::Recording(calls@, *at as nat),
            Phase::CommittingResult(calls, at, result) => Stage::CommittingResult(
                calls@,
                *at as nat,
                *result,
            ),
            Phase::Over => Stage::Over,
        }
    }
}

impl View for Turn {
    type V = TurnModel;

    closed spec fn view(&self) -> TurnModel {
        TurnModel {
            services: self.services,
            round_limit: self.round_limit as nat,
            rounds: self.rounds as nat,
            messages: message_views(self.messages@),
            progress: self.progress@,
            deltas: self.sink@,
            stage: self.phase@,
        }
    }
}

/// What happened outside, by content.
pub enum Happening {
    Prepared(u64),
    Answered(MessageModel),
    ProviderFailed(ProviderFailure),
    ToolReturned(ToolResult),
    Recorded(ToolResult),
    Done,
    Failed(String),
    Halted(String),
}

impl View for TurnEvent {
    type V = Happening;

    open spec fn view(&self) -> Happening {
        match self {
            TurnEvent::Prepared(now) => Happening::Prepared(*now),
            TurnEvent::Answered(message) => Happening::Answered(message@),
            TurnEvent::ProviderFailed(failure) => Happening::ProviderFailed(*failure),
            TurnEvent::ToolReturned(result) => Happening::ToolReturned(*result),
            TurnEvent::Recorded(result) => Happening::Recorded(*result),
            TurnEvent::Done => Happening::Done,
            TurnEvent::Failed(text) => Happening::Failed(*text),
            TurnEvent::Halted(text) => Happening::Halted(*text),
        }
    }
}

/// What is to be done and what observers are told.
#[derive(Debug, PartialEq, Eq)]
pub struct Step {
    pub notices: Vec<TurnNotice>,
    pub action: TurnAction,
}

/// The receipt of the latest request: what the provider reported of it.
pub open spec fn receipt_of(deltas: Deltas, completed: bool) -> Receipt {
    let usage = if deltas.requests.len() == 0 {
        None
    } else {
        deltas.requests.last()
    };
    match usage {
        Some(usage) => Receipt {
            total_tokens: usage.total_tokens,
            reported_cost_microunits: usage.cost_microunits,
            completed,
        },
        None => Receipt { total_tokens: None, reported_cost_microunits: None, completed },
    }
}

/// Whether a result is what a call is refused with.
pub open spec fn refuses(
    call: ToolCall,
    reason: (Seq<char>, Option<crate::message::ToolFailure>),
    result: ToolResult,
) -> bool {
    &&& result.call_id == call.id
    &&& result.output@ == reason.0
    &&& result.status == crate::message::ToolResultStatus::Error
    &&& result.failure == reason.1
}

/// The turn ends with an error.
pub open spec fn failed(
    before: TurnModel,
    after: TurnModel,
    error: TurnError,
    action: TurnAction,
) -> bool {
    &&& action == TurnAction::Finish(TurnOutcome::Failed(error))
    &&& after == TurnModel { stage: Stage::Over, ..before }
}

/// The turn goes on with a call of the batch, or past its last one with the
/// next round, if there is one to go on with.
#[verifier::opaque]
pub open spec fn entered(
    before: TurnModel,
    calls: Seq<ToolCall>,
    at: nat,
    after: TurnModel,
    action: TurnAction,
) -> bool {
    if at < calls.len() {
        match refusal(before.progress, calls[at as int]) {
            Some(reason) => {
                &&& action matches TurnAction::Refuse(result)
                &&& refuses(calls[at as int], reason, result)
                &&& after.stage matches Stage::Refusing(held, held_at, held_result)
                &&& held_result == result
                &&& after == TurnModel { stage: Stage::Refusing(calls, at, result), ..before }
            },
            None => {
                &&& action == TurnAction::Invoke(calls[at as int])
                &&& after == TurnModel { stage: Stage::Calling(calls, at), ..before }
            },
        }
    } else if before.progress.stopped {
        failed(before, after, TurnError::Stopped, action)
    } else if before.rounds >= before.round_limit {
        &&& action matches TurnAction::Finish(TurnOutcome::RoundBudgetReached { rounds, usage })
        &&& rounds == before.round_limit
        &&& totals(before.deltas.requests, usage)
        &&& after == TurnModel { stage: Stage::Over, ..before }
    } else {
        &&& action == TurnAction::Prepare
        &&& after == TurnModel { stage: Stage::Preparing, ..before }
    }
}

/// The turn with one more message in its history.
pub open spec fn told(before: TurnModel, message: MessageModel) -> TurnModel {
    TurnModel { messages: before.messages.push(message), ..before }
}

/// The result of a call stands: it is committed, or becomes known at once where
/// nothing is durable.
#[verifier::opaque]
pub open spec fn resolved(
    before: TurnModel,
    calls: Seq<ToolCall>,
    at: nat,
    result: ToolResult,
    after: TurnModel,
    notices: Seq<TurnNotice>,
    action: TurnAction,
) -> bool {
    if before.services.durable {
        &&& notices.len() == 0
        &&& action == TurnAction::CommitResult(result)
        &&& after == TurnModel { stage: Stage::CommittingResult(calls, at, result), ..before }
    } else {
        &&& notices == seq![TurnNotice::ToolFinished(result)]
        &&& entered(told(before, result_message(result)), calls, at + 1, after, action)
    }
}

/// A call came back: the guard sees it, and its evidence is retained first
/// where there is a recorder and nothing durable.
#[verifier::opaque]
pub open spec fn returned(
    before: TurnModel,
    calls: Seq<ToolCall>,
    at: nat,
    result: ToolResult,
    after: TurnModel,
    notices: Seq<TurnNotice>,
    action: TurnAction,
) -> bool {
    let seen = TurnModel {
        progress: observed(before.progress, calls[at as int], result),
        ..before
    };
    if before.services.recorder && !before.services.durable {
        &&& notices.len() == 0
        &&& action == TurnAction::Record(result)
        &&& after == TurnModel { stage: Stage::Recording(calls, at), ..seen }
    } else {
        resolved(seen, calls, at, result, after, notices, action)
    }
}

/// The provider answered and its usage is settled: an answer without tool calls
/// completes the turn, any other starts a batch.
#[verifier::opaque]
pub open spec fn answered(
    before: TurnModel,
    message: MessageModel,
    after: TurnModel,
    action: TurnAction,
) -> bool {
    let calls = calls_in(message.content);
    if calls.len() == 0 {
        &&& action matches TurnAction::Finish(TurnOutcome::Completed(result))
        &&& result.message@ == message
        &&& totals(before.deltas.requests, result.usage)
        &&& after == TurnModel { stage: Stage::Over, ..before }
    } else if before.services.durable {
        &&& action matches TurnAction::CommitAssistant(held)
        &&& held@ == message
        &&& after == TurnModel { stage: Stage::CommittingAssistant(message), ..before }
    } else {
        entered(told(before, message), calls, 0, after, action)
    }
}

/// Nothing changed.
pub open spec fn ignored(
    before: TurnModel,
    after: TurnModel,
    notices: Seq<TurnNotice>,
    action: TurnAction,
) -> bool {
    &&& notices.len() == 0
    &&& action == TurnAction::Ignore
    &&& after == before
}

/// The turn between two stages.
pub open spec fn idle(turn: TurnModel) -> TurnModel {
    TurnModel { stage: Stage::Over, ..turn }
}

/// How a turn moves on one event.
pub open spec fn moves(
    before: TurnModel,
    event: Happening,
    after: TurnModel,
    notices: Seq<TurnNotice>,
    action: TurnAction,
) -> bool {
    match (before.stage, event) {
        (Stage::Preparing, Happening::Prepared(now)) => {
            &&& notices.len() == 0
            &&& action == TurnAction::Request
            &&& after == TurnModel {
                rounds: before.rounds + 1,
                deltas: Deltas {
                    requests: before.deltas.requests.push(None),
                    began: now,
                    first_delta: None,
                },
                stage: Stage::Requesting,
                ..before
            }
        },
        (Stage::Preparing, Happening::Failed(text)) => {
            &&& notices.len() == 0
            &&& failed(before, after, TurnError::Unprepared(text), action)
        },
        (Stage::Requesting, Happening::Failed(text)) => {
            &&& notices.len() == 0
            &&& failed(before, after, TurnError::Unprepared(text), action)
        },
        (Stage::Requesting, Happening::Answered(message)) => if before.services.budgeted {
            &&& notices.len() == 0
            &&& action == TurnAction::Settle(receipt_of(before.deltas, true))
            &&& after == TurnModel { stage: Stage::Settling(Ok(message)), ..before }
        } else {
            &&& notices.len() == 0
            &&& answered(idle(before), message, after, action)
        },
        (Stage::Requesting, Happening::ProviderFailed(failure)) => if before.services.budgeted {
            &&& notices == seq![TurnNotice::ProviderDiagnosed]
            &&& action == TurnAction::Settle(receipt_of(before.deltas, false))
            &&& after == TurnModel { stage: Stage::Settling(Err(failure)), ..before }
        } else {
            &&& notices == seq![
                TurnNotice::ProviderDiagnosed,
                TurnNotice::ProviderFailed(failure.kind),
            ]
            &&& failed(before, after, TurnError::Provider(failure), action)
        },
        (Stage::Settling(Ok(message)), Happening::Done) => {
            &&& notices.len() == 0
            &&& answered(idle(before), message, after, action)
        },
        (Stage::Settling(Ok(message)), Happening::Failed(text)) => {
            &&& notices == seq![TurnNotice::SettlementFailed]
            &&& failed(before, after, TurnError::Settlement(text), action)
        },
        (Stage::Settling(Err(failure)), Happening::Done) => {
            &&& notices == seq![TurnNotice::ProviderFailed(failure.kind)]
            &&& failed(before, after, TurnError::Provider(failure), action)
        },
        (Stage::Settling(Err(failure)), Happening::Failed(text)) => {
            &&& notices == seq![
                TurnNotice::SettlementFailed,
                TurnNotice::ProviderFailed(failure.kind),
            ]
            &&& failed(before, after, TurnError::Provider(failure), action)
        },
        (Stage::CommittingAssistant(message), Happening::Done) => {
            &&& notices.len() == 0
            &&& action == TurnAction::StartStep
            &&& after == TurnModel {
                stage: Stage::StartingStep(calls_in(message.content)),
                ..told(before, message)
            }
        },
        (Stage::CommittingAssistant(message), Happening::Failed(text)) => {
            &&& notices.len() == 0
            &&& failed(before, after, TurnError::AssistantCommit(text), action)
        },
        (Stage::StartingStep(calls), Happening::Done) => {
            &&& notices.len() == 0
            &&& entered(idle(before), calls, 0, after, action)
        },
        (Stage::StartingStep(calls), Happening::Failed(text)) => {
            &&& notices.len() == 0
            &&& failed(before, after, TurnError::StepCommit(text), action)
        },
        (Stage::StartingStep(calls), Happening::Halted(text)) => {
            &&& notices.len() == 0
            &&& failed(before, after, TurnError::Halted(text), action)
        },
        (Stage::Calling(calls, at), Happening::ToolReturned(result)) => returned(
            idle(before),
            calls,
            at,
            result,
            after,
            notices,
            action,
        ),
        (Stage::Calling(calls, at), Happening::Failed(text)) => {
            &&& notices.len() == 0
            &&& failed(before, after, TurnError::Tool(text), action)
        },
        (Stage::Refusing(calls, at, result), Happening::Done) => returned(
            idle(before),
            calls,
            at,
            result,
            after,
            notices,
            action,
        ),
        (Stage::Recording(calls, at), Happening::Recorded(result)) => resolved(
            idle(before),
            calls,
            at,
            result,
            after,
            notices,
            action,
        ),
        (Stage::Recording(calls, at), Happening::Failed(text)) => {
            &&& notices.len() == 0
            &&& failed(before, after, TurnError::Evidence(text), action)
        },
        (Stage::CommittingResult(calls, at, result), Happening::Done) => {
            &&& notices.len() == 0
            &&& entered(told(idle(before), result_message(result)), calls, at + 1, after, action)
        },
        (Stage::CommittingResult(calls, at, result), Happening::Failed(text)) => {
            &&& notices.len() == 0
            &&& failed(before, after, TurnError::ResultCommit(text), action)
        },
        (Stage::CommittingResult(calls, at, result), Happening::Halted(text)) => {
            &&& notices.len() == 0
            &&& failed(before, after, TurnError::Halted(text), action)
        },
        _ => ignored(before, after, notices, action),
    }
}

/// What holds of every turn at every time.
pub open spec fn sound(turn: TurnModel) -> bool {
    &&& counted(turn)
    &&& match turn.stage {
        Stage::Preparing => turn.rounds < turn.round_limit && !turn.progress.stopped,
        Stage::Requesting | Stage::Settling(_) => 1 <= turn.rounds,
        Stage::CommittingAssistant(message) => calls_in(message.content).len() > 0,
        Stage::StartingStep(calls) => batch(turn.messages, calls, 0),
        Stage::Calling(calls, at) => at < calls.len() && batch(turn.messages, calls, at)
            && refusal(turn.progress, calls[at as int]) is None,
        Stage::Refusing(calls, at, result) => at < calls.len() && batch(turn.messages, calls, at)
            && result.call_id == calls[at as int].id,
        Stage::Recording(calls, at) => at < calls.len() && batch(turn.messages, calls, at),
        Stage::CommittingResult(calls, at, _) => at < calls.len() && batch(
            turn.messages,
            calls,
            at,
        ),
        Stage::Over => true,
    }
}

/// The history ends with a message that asks for the calls and with one result
/// message for each of the first `done` of them.
#[verifier::opaque]
pub open spec fn batch(messages: Seq<MessageModel>, calls: Seq<ToolCall>, done: nat) -> bool {
    &&& messages.len() >= done + 1
    &&& calls_in(messages[messages.len() - done - 1].content) == calls
    &&& forall|i: int|
        messages.len() - done <= i < messages.len() ==> (#[trigger] messages[i]).role == Role::Tool
}

impl TurnError {
    /// The error as the owner reads it: its outermost sentence.
    pub open spec fn text(self) -> Seq<char> {
        match self {
            TurnError::NoRounds => NO_ROUNDS@,
            TurnError::Stopped => STOP_REASON@,
            TurnError::Unprepared(text) => text@,
            TurnError::Settlement(_) => SETTLEMENT@,
            TurnError::Provider(failure) => "provider "@ + failure.kind@ + ": "@ + failure.text@,
            TurnError::AssistantCommit(_) => ASSISTANT_COMMIT@,
            TurnError::StepCommit(_) => STEP_COMMIT@,
            TurnError::Tool(text) => text@,
            TurnError::Evidence(_) => EVIDENCE_COMMIT@,
            TurnError::ResultCommit(_) => RESULT_COMMIT@,
            TurnError::Halted(text) => text@,
        }
    }

    /// The error as the owner reads it.
    pub fn render(&self) -> (text: String)
        ensures
            text@ == self.text(),
    {
        match self {
            TurnError::NoRounds => NO_ROUNDS.to_owned(),
            TurnError::Stopped => STOP_REASON.to_owned(),
            TurnError::Unprepared(text) => text.clone(),
            TurnError::Settlement(_) => SETTLEMENT.to_owned(),
            TurnError::Provider(failure) => {
                let mut text = "provider ".to_owned();
                text.append(failure.kind.as_str());
                text.append(": ");
                text.append(failure.text.as_str());
                text
            },
            TurnError::AssistantCommit(_) => ASSISTANT_COMMIT.to_owned(),
            TurnError::StepCommit(_) => STEP_COMMIT.to_owned(),
            TurnError::Tool(text) => text.clone(),
            TurnError::Evidence(_) => EVIDENCE_COMMIT.to_owned(),
            TurnError::ResultCommit(_) => RESULT_COMMIT.to_owned(),
            TurnError::Halted(text) => text.clone(),
        }
    }
}

impl Step {
    fn quiet(action: TurnAction) -> (step: Step)
        ensures
            step.notices@.len() == 0,
            step.action == action,
    {
        Step { notices: Vec::new(), action }
    }
}

impl Turn {
    /// Starts a turn on a history. The tranche must hold at least one round,
    /// and a turn that failed too often stays stopped across a restart.
    pub fn start(messages: &Vec<Message>, round_limit: usize, services: TurnServices) -> (turn: Result<
        Turn,
        TurnError,
    >)
        ensures
            round_limit == 0 ==> turn == Err::<Turn, TurnError>(TurnError::NoRounds),
            round_limit > 0 && of_history(message_views(messages@)).stopped ==> turn == Err::<
                Turn,
                TurnError,
            >(TurnError::Stopped),
            round_limit > 0 && !of_history(message_views(messages@)).stopped ==> {
                &&& turn matches Ok(turn)
                &&& turn@ == TurnModel {
                    services,
                    round_limit: round_limit as nat,
                    rounds: 0,
                    messages: message_views(messages@),
                    progress: of_history(message_views(messages@)),
                    deltas: Deltas { requests: Seq::empty(), began: 0, first_delta: None },
                    stage: Stage::Preparing,
                }
                &&& sound(turn@)
            },
    {
        if round_limit == 0 {
            return Err(TurnError::NoRounds);
        }
        let progress = ProgressGuard::from_history(messages);
        if progress.stopped() {
            return Err(TurnError::Stopped);
        }
        Ok(
            Turn {
                services,
                round_limit,
                rounds: 0,
                messages: copy_messages(messages),
                progress,
                sink: EventDeltaSink::new(),
                phase: Phase::Preparing,
            },
        )
    }

    fn push_message(&mut self, message: Message)
        ensures
            final(self)@ == told(old(self)@, message@),
    {
        self.messages.push(message);
        assert(message_views(self.messages@) =~= message_views(old(self).messages@).push(message@));
    }

    fn fail(&mut self, error: TurnError) -> (action: TurnAction)
        ensures
            failed(old(self)@, final(self)@, error, action),
    {
        self.phase = Phase::Over;
        TurnAction::Finish(TurnOutcome::Failed(error))
    }

    fn enter(&mut self, calls: Vec<ToolCall>, at: usize) -> (action: TurnAction)
        requires
            at <= calls@.len(),
        ensures
            entered(old(self)@, calls@, at as nat, final(self)@, action),
    {
        reveal(entered);
        if at < calls.len() {
            match self.progress.blocked_result(&calls[at]) {
                Some(result) => {
                    let action = TurnAction::Refuse(result.copy());
                    self.phase = Phase::Refusing(calls, at, result);
                    action
                },
                None => {
                    let action = TurnAction::Invoke(calls[at].copy());
                    self.phase = Phase::Calling(calls, at);
                    action
                },
            }
        } else if self.progress.stopped() {
            self.fail(TurnError::Stopped)
        } else if self.rounds >= self.round_limit {
            self.phase = Phase::Over;
            TurnAction::Finish(
                TurnOutcome::RoundBudgetReached {
                    rounds: self.round_limit,
                    usage: self.sink.usage(),
                },
            )
        } else {
            self.phase = Phase::Preparing;
            TurnAction::Prepare
        }
    }

    fn resolve(&mut self, calls: Vec<ToolCall>, at: usize, result: ToolResult) -> (step: Step)
        requires
            at < calls@.len(),
        ensures
            resolved(
                old(self)@,
                calls@,
                at as nat,
                result,
                final(self)@,
                step.notices@,
                step.action,
            ),
    {
        reveal(resolved);
        if self.services.durable {
            let action = TurnAction::CommitResult(result.copy());
            self.phase = Phase::CommittingResult(calls, at, result);
            Step::quiet(action)
        } else {
            let end: usize = calls.len();
            assert(at < end);
            let mut notices: Vec<TurnNotice> = Vec::new();
            notices.push(TurnNotice::ToolFinished(result.copy()));
            self.push_message(Message::tool_result(result));
            let action = self.enter(calls, at + 1);
            Step { notices, action }
        }
    }

    fn receive(&mut self, calls: Vec<ToolCall>, at: usize, result: ToolResult) -> (step: Step)
        requires
            at < calls@.len(),
        ensures
            returned(
                old(self)@,
                calls@,
                at as nat,
                result,
                final(self)@,
                step.notices@,
                step.action,
            ),
    {
        reveal(returned);
        self.progress.observe(&calls[at], &result);
        if self.services.recorder && !self.services.durable {
            self.phase = Phase::Recording(calls, at);
            Step::quiet(TurnAction::Record(result))
        } else {
            self.resolve(calls, at, result)
        }
    }

    fn answer(&mut self, message: Message) -> (action: TurnAction)
        ensures
            answered(old(self)@, message@, final(self)@, action),
    {
        reveal(answered);
        let calls = requested_tools(&message);
        if calls.len() == 0 {
            self.phase = Phase::Over;
            let usage = self.sink.usage();
            TurnAction::Finish(TurnOutcome::Completed(AgentTurnResult { message, usage }))
        } else if self.services.durable {
            let action = TurnAction::CommitAssistant(message.copy());
            self.phase = Phase::CommittingAssistant(message);
            action
        } else {
            self.push_message(message);
            self.enter(calls, 0)
        }
    }

    /// The receipt of the latest request.
    pub fn receipt(&self, completed: bool) -> (receipt: Receipt)
        ensures
            receipt == receipt_of(self@.deltas, completed),
    {
        match self.sink.request_usage() {
            Some(usage) => Receipt {
                total_tokens: usage.total_tokens,
                reported_cost_microunits: usage.cost_microunits,
                completed,
            },
            None => Receipt { total_tokens: None, reported_cost_microunits: None, completed },
        }
    }

    /// Passes on a piece of the answer to the running request.
    pub fn text_delta(&mut self, text: &str, now: u64) -> (event: DeltaEvent)
        ensures
            final(self)@ == (TurnModel {
                deltas: Deltas {
                    first_delta: first_output(old(self)@.deltas, text@, now),
                    ..old(self)@.deltas
                },
                ..old(self)@
            }),
            event matches DeltaEvent::Text(held) && held@ == text@,
    {
        self.sink.text_delta(text, now)
    }

    /// Passes on a piece of the reasoning of the running request.
    pub fn reasoning_delta(&mut self, text: &str, now: u64) -> (event: DeltaEvent)
        ensures
            final(self)@ == (TurnModel {
                deltas: Deltas {
                    first_delta: first_output(old(self)@.deltas, text@, now),
                    ..old(self)@.deltas
                },
                ..old(self)@
            }),
            event matches DeltaEvent::Reasoning(held) && held@ == text@,
    {
        self.sink.reasoning_delta(text, now)
    }

    /// Takes the provider's report of the latest request.
    pub fn report(&mut self, usage: ProviderUsage)
        ensures
            final(self)@ == (TurnModel {
                deltas: Deltas {
                    requests: if old(self)@.deltas.requests.len() == 0 {
                        old(self)@.deltas.requests
                    } else {
                        old(self)@.deltas.requests.drop_last().push(Some(usage))
                    },
                    ..old(self)@.deltas
                },
                ..old(self)@
            }),
            sound(old(self)@) ==> sound(final(self)@),
    {
        self.sink.report(usage);
    }

    /// What is known of the requests of this turn.
    pub fn usage(&self) -> (usage: AgentTurnUsage)
        ensures
            totals(self@.deltas.requests, usage),
    {
        self.sink.usage()
    }

    /// What a turn leaves behind: its history, and the reports of its requests.
    pub fn into_parts(self) -> (parts: (Vec<Message>, EventDeltaSink))
        ensures
            message_views(parts.0@) == self@.messages,
            parts.1@ == self@.deltas,
    {
        (self.messages, self.sink)
    }

    /// The history as the turn has it now.
    pub fn messages(&self) -> (messages: &Vec<Message>)
        ensures
            message_views(messages@) == self@.messages,
    {
        &self.messages
    }

    /// Moves the turn on what happened outside.
    pub fn step(&mut self, event: TurnEvent) -> (step: Step)
        requires
            sound(old(self)@),
        ensures
            moves(old(self)@, event@, final(self)@, step.notices@, step.action),
            sound(final(self)@),
    {
        let ghost before = self@;
        let mut phase = Phase::Over;
        core::mem::swap(&mut self.phase, &mut phase);
        let step = match (phase, event) {
            (Phase::Preparing, TurnEvent::Prepared(now)) => {
                self.rounds = self.rounds + 1;
                self.sink.begin_request(now);
                self.phase = Phase::Requesting;
                Step::quiet(TurnAction::Request)
            },
            (Phase::Preparing, TurnEvent::Failed(text)) => Step::quiet(
                self.fail(TurnError::Unprepared(text)),
            ),
            (Phase::Requesting, TurnEvent::Failed(text)) => Step::quiet(
                self.fail(TurnError::Unprepared(text)),
            ),
            (Phase::Requesting, TurnEvent::Answered(message)) => {
                if self.services.budgeted {
                    let receipt = self.receipt(true);
                    self.phase = Phase::Settling(Ok(message));
                    Step::quiet(TurnAction::Settle(receipt))
                } else {
                    Step::quiet(self.answer(message))
                }
            },
            (Phase::Requesting, TurnEvent::ProviderFailed(failure)) => {
                let mut notices: Vec<TurnNotice> = Vec::new();
                notices.push(TurnNotice::ProviderDiagnosed);
                if self.services.budgeted {
                    assert(notices@ =~= seq![TurnNotice::ProviderDiagnosed]);
                    let receipt = self.receipt(false);
                    self.phase = Phase::Settling(Err(failure));
                    Step { notices, action: TurnAction::Settle(receipt) }
                } else {
                    notices.push(TurnNotice::ProviderFailed(failure.kind.clone()));
                    assert(notices@ =~= seq![
                        TurnNotice::ProviderDiagnosed,
                        TurnNotice::ProviderFailed(failure.kind),
                    ]);
                    let action = self.fail(TurnError::Provider(failure));
                    Step { notices, action }
                }
            },
            (Phase::Settling(Ok(message)), TurnEvent::Done) => Step::quiet(self.answer(message)),
            (Phase::Settling(Ok(_)), TurnEvent::Failed(text)) => {
                let mut notices: Vec<TurnNotice> = Vec::new();
                notices.push(TurnNotice::SettlementFailed);
                assert(notices@ =~= seq![TurnNotice::SettlementFailed]);
                let action = self.fail(TurnError::Settlement(text));
                Step { notices, action }
            },
            (Phase::Settling(Err(failure)), TurnEvent::Done) => {
                let mut notices: Vec<TurnNotice> = Vec::new();
                notices.push(TurnNotice::ProviderFailed(failure.kind.clone()));
                assert(notices@ =~= seq![TurnNotice::ProviderFailed(failure.kind)]);
                let action = self.fail(TurnError::Provider(failure));
                Step { notices, action }
            },
            (Phase::Settling(Err(failure)), TurnEvent::Failed(_)) => {
                let mut notices: Vec<TurnNotice> = Vec::new();
                notices.push(TurnNotice::SettlementFailed);
                notices.push(TurnNotice::ProviderFailed(failure.kind.clone()));
                assert(notices@ =~= seq![
                    TurnNotice::SettlementFailed,
                    TurnNotice::ProviderFailed(failure.kind),
                ]);
                let action = self.fail(TurnError::Provider(failure));
                Step { notices, action }
            },
            (Phase::CommittingAssistant(message), TurnEvent::Done) => {
                let calls = requested_tools(&message);
                self.push_message(message);
                self.phase = Phase::StartingStep(calls);
                Step::quiet(TurnAction::StartStep)
            },
            (Phase::CommittingAssistant(_), TurnEvent::Failed(text)) => Step::quiet(
                self.fail(TurnError::AssistantCommit(text)),
            ),
            (Phase::StartingStep(calls), TurnEvent::Done) => Step::quiet(self.enter(calls, 0)),
            (Phase::StartingStep(_), TurnEvent::Failed(text)) => Step::quiet(
                self.fail(TurnError::StepCommit(text)),
            ),
            (Phase::StartingStep(_), TurnEvent::Halted(text)) => Step::quiet(
                self.fail(TurnError::Halted(text)),
            ),
            (Phase::Calling(calls, at), TurnEvent::ToolReturned(result)) => self.receive(
                calls,
                at,
                result,
            ),
            (Phase::Calling(_, _), TurnEvent::Failed(text)) => Step::quiet(
                self.fail(TurnError::Tool(text)),
            ),
            (Phase::Refusing(calls, at, result), TurnEvent::Done) => self.receive(
                calls,
                at,
                result,
            ),
            (Phase::Recording(calls, at), TurnEvent::Recorded(result)) => self.resolve(
                calls,
                at,
                result,
            ),
            (Phase::Recording(_, _), TurnEvent::Failed(text)) => Step::quiet(
                self.fail(TurnError::Evidence(text)),
            ),
            (Phase::CommittingResult(calls, at, result), TurnEvent::Done) => {
                let end: usize = calls.len();
                assert(at < end);
                self.push_message(Message::tool_result(result));
                Step::quiet(self.enter(calls, at + 1))
            },
            (Phase::CommittingResult(_, _, _), TurnEvent::Failed(text)) => Step::quiet(
                self.fail(TurnError::ResultCommit(text)),
            ),
            (Phase::CommittingResult(_, _, _), TurnEvent::Halted(text)) => Step::quiet(
                self.fail(TurnError::Halted(text)),
            ),
            (phase, _) => {
                self.phase = phase;
                Step::quiet(TurnAction::Ignore)
            },
        };
        proof {
            turns_stay_sound(before, event@, self@, step.notices@, step.action);
        }
        step
    }
}

proof fn batches_grow(before: TurnModel, calls: Seq<ToolCall>, at: nat, result: ToolResult)
    requires
        batch(before.messages, calls, at),
    ensures
        batch(told(before, result_message(result)).messages, calls, at + 1),
{
    reveal(batch);
    let after = told(before, result_message(result)).messages;
    assert forall|i: int| after.len() - (at + 1) <= i < after.len() implies (#[trigger] after[i]).role
        == Role::Tool by {
        if i < before.messages.len() {
            assert(after[i] == before.messages[i]);
        }
    }
}

/// What holds of a turn whatever its stage.
pub open spec fn counted(turn: TurnModel) -> bool {
    &&& 1 <= turn.round_limit
    &&& turn.rounds <= turn.round_limit
    &&& turn.rounds == turn.deltas.requests.len()
}

proof fn entering_is_sound(
    before: TurnModel,
    calls: Seq<ToolCall>,
    at: nat,
    after: TurnModel,
    action: TurnAction,
)
    requires
        counted(before),
        at <= calls.len(),
        batch(before.messages, calls, at),
        entered(before, calls, at, after, action),
    ensures
        sound(after),
{
    reveal(entered);
}

proof fn resolving_is_sound(
    before: TurnModel,
    calls: Seq<ToolCall>,
    at: nat,
    result: ToolResult,
    after: TurnModel,
    notices: Seq<TurnNotice>,
    action: TurnAction,
)
    requires
        counted(before),
        at < calls.len(),
        batch(before.messages, calls, at),
        resolved(before, calls, at, result, after, notices, action),
    ensures
        sound(after),
{
    reveal(resolved);
    if !before.services.durable {
        batches_grow(before, calls, at, result);
        entering_is_sound(told(before, result_message(result)), calls, at + 1, after, action);
    }
}

proof fn returning_is_sound(
    before: TurnModel,
    calls: Seq<ToolCall>,
    at: nat,
    result: ToolResult,
    after: TurnModel,
    notices: Seq<TurnNotice>,
    action: TurnAction,
)
    requires
        counted(before),
        at < calls.len(),
        batch(before.messages, calls, at),
        returned(before, calls, at, result, after, notices, action),
    ensures
        sound(after),
{
    reveal(returned);
    if !(before.services.recorder && !before.services.durable) {
        let seen = TurnModel {
            progress: observed(before.progress, calls[at as int], result),
            ..before
        };
        resolving_is_sound(seen, calls, at, result, after, notices, action);
    }
}

proof fn answering_is_sound(
    before: TurnModel,
    message: MessageModel,
    after: TurnModel,
    action: TurnAction,
)
    requires
        counted(before),
        answered(before, message, after, action),
    ensures
        sound(after),
{
    reveal(answered);
    let calls = calls_in(message.content);
    if calls.len() > 0 && !before.services.durable {
        reveal(batch);
        entering_is_sound(told(before, message), calls, 0, after, action);
    }
}

/// Every move keeps a turn sound: it never makes more requests than it has
/// rounds, and its history always ends with the running batch and one result
/// for each call that is done.
pub proof fn turns_stay_sound(
    before: TurnModel,
    event: Happening,
    after: TurnModel,
    notices: Seq<TurnNotice>,
    action: TurnAction,
)
    requires
        sound(before),
        moves(before, event, after, notices, action),
    ensures
        sound(after),
{
    match (before.stage, event) {
        (Stage::Requesting, Happening::Answered(message)) => {
            if !before.services.budgeted {
                answering_is_sound(idle(before), message, after, action);
            }
        },
        (Stage::Settling(Ok(message)), Happening::Done) => {
            answering_is_sound(idle(before), message, after, action);
        },
        (Stage::CommittingAssistant(message), Happening::Done) => {
            reveal(batch);
        },
        (Stage::StartingStep(calls), Happening::Done) => {
            entering_is_sound(idle(before), calls, 0, after, action);
        },
        (Stage::Calling(calls, at), Happening::ToolReturned(result)) => {
            returning_is_sound(idle(before), calls, at, result, after, notices, action);
        },
        (Stage::Refusing(calls, at, result), Happening::Done) => {
            returning_is_sound(idle(before), calls, at, result, after, notices, action);
        },
        (Stage::Recording(calls, at), Happening::Recorded(result)) => {
            resolving_is_sound(idle(before), calls, at, result, after, notices, action);
        },
        (Stage::CommittingResult(calls, at, result), Happening::Done) => {
            batches_grow(idle(before), calls, at, result);
            entering_is_sound(told(idle(before), result_message(result)), calls, at + 1, after, action);
        },
        _ => {},
    }
}

/// A move never takes anything out of the history: it only adds messages at the
/// end, and one at most.
pub proof fn history_only_grows(
    before: TurnModel,
    event: Happening,
    after: TurnModel,
    notices: Seq<TurnNotice>,
    action: TurnAction,
)
    requires
        moves(before, event, after, notices, action),
    ensures
        after.messages == before.messages || (after.messages.len() == before.messages.len() + 1
            && after.messages.drop_last() == before.messages),
{
    reveal(entered);
    reveal(resolved);
    reveal(returned);
    reveal(answered);
    assert forall|message: MessageModel| #[trigger]
        before.messages.push(message).drop_last() == before.messages by {
        assert(before.messages.push(message).drop_last() =~= before.messages);
    }
}

/// No tool runs that the guard refuses, and none runs in a stopped turn.
pub proof fn refused_calls_never_run(
    before: TurnModel,
    event: Happening,
    after: TurnModel,
    notices: Seq<TurnNotice>,
    action: TurnAction,
)
    requires
        moves(before, event, after, notices, action),
    ensures
        action matches TurnAction::Invoke(call) ==> refusal(after.progress, call) is None
            && !after.progress.stopped,
{
    reveal(entered);
    reveal(resolved);
    reveal(returned);
    reveal(answered);
}

/// A turn runs out of rounds only after it used all of them, and never asks the
/// provider again once it did.
pub proof fn rounds_are_bounded(
    before: TurnModel,
    event: Happening,
    after: TurnModel,
    notices: Seq<TurnNotice>,
    action: TurnAction,
)
    requires
        sound(before),
        moves(before, event, after, notices, action),
    ensures
        action matches TurnAction::Finish(TurnOutcome::RoundBudgetReached { rounds, .. })
            ==> after.deltas.requests.len() == after.round_limit && rounds == after.round_limit,
        action == TurnAction::Request ==> after.deltas.requests.len() <= after.round_limit,
{
    turns_stay_sound(before, event, after, notices, action);
    reveal(entered);
    reveal(resolved);
    reveal(returned);
    reveal(answered);
}

/// A turn that is over stays as it is.
pub proof fn finished_turns_stay_finished(
    before: TurnModel,
    event: Happening,
    after: TurnModel,
    notices: Seq<TurnNotice>,
    action: TurnAction,
)
    requires
        before.stage == Stage::Over,
        moves(before, event, after, notices, action),
    ensures
        after == before,
        action == TurnAction::Ignore,
{
}

/// An uncommitted tool request never reaches the history: where the commit of
/// the assistant's message fails, the turn fails and its history is as before.
pub proof fn uncommitted_requests_are_not_kept(
    before: TurnModel,
    text: String,
    after: TurnModel,
    notices: Seq<TurnNotice>,
    action: TurnAction,
)
    requires
        before.stage is CommittingAssistant,
        moves(before, Happening::Failed(text), after, notices, action),
    ensures
        after.messages == before.messages,
        action == TurnAction::Finish(TurnOutcome::Failed(TurnError::AssistantCommit(text))),
{
}

}
