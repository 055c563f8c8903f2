//! The answer-only phase after failed memory repair: one request without tools,
//! and an explanation where it brings no answer.

use crate::agent::{
    is_answer, is_notice, recover_memory_answer, recovers, Recovery, RecoveryFailure,
    RecoveryOutcome, RecoveryResponse, RECOVERY_NOTICE, RECOVERY_OUTPUT_TOKENS, RECOVERY_SECONDS,
    RECOVERY_SOURCE, RECOVERY_TITLE,
};
use crate::message::Message;
use crate::turn::{AgentTurnResult, Receipt};
use crate::usage::{
    totals, DeltaEvent, Deltas, EventDeltaSink, GenerationTiming, ProviderUsage,
};
use vstd::prelude::*;

verus! {

pub const SETTLEMENT: &'static str = "could not settle answer-recovery usage; reservation remains charged";

/// What the phase has at its disposal.
#[derive(Clone, Copy, PartialEq, Eq, Structural, Debug)]
pub struct AnswerServices {
    /// The prompt can be read again.
    pub refresh: bool,
    /// Requests are paid from a budget.
    pub budgeted: bool,
    /// The conversation is kept.
    pub durable: bool,
}

/// How far the phase is.
#[derive(Debug, PartialEq, Eq)]
pub enum AnswerStage {
    Refreshing,
    Preparing,
    Admitting,
    Requesting,
    Settling { outcome: RecoveryOutcome },
    Telling { notice: Message },
    Over,
}

/// How the phase ends.
#[derive(Debug, PartialEq, Eq)]
pub enum AnswerOutcome {
    /// The answer, with the use of all requests of the turn and of this phase.
    Completed(AgentTurnResult),
    /// The operation failed, and the conversation says why.
    Explained,
    Failed { context: Option<&'static str>, cause: String },
}

/// What is done next.
#[derive(Debug, PartialEq, Eq)]
pub enum AnswerWork {
    Refresh,
    /// Put the notice into the prompt, and the messages into a request.
    Prepare { source: &'static str, title: &'static str, notice: &'static str },
    /// Reserve what the request may cost.
    Admit,
    /// Ask for an answer without tools, within these bounds.
    Request { seconds: u64, max_output_tokens: u64 },
    Settle(Receipt),
    Commit(Message),
    Announce(Message),
    Finish(AnswerOutcome),
    Ignore,
}

/// What came of it. Times are readings of one clock.
#[derive(Debug, PartialEq, Eq)]
pub enum AnswerEvent {
    Done,
    Prepared { now: u64 },
    Admitted { now: u64 },
    Responded(RecoveryResponse),
    Failed(String),
}

/// The phase, with the messages of the turn and the reports of its requests.
pub struct AnswerPhase {
    pub services: AnswerServices,
    pub messages: Vec<Message>,
    pub sink: EventDeltaSink,
    pub stage: AnswerStage,
}

/// What telemetry is told, and what is done.
#[derive(Debug, PartialEq, Eq)]
pub struct AnswerStep {
    pub failure: Option<RecoveryFailure>,
    pub timing: Option<GenerationTiming>,
    pub work: AnswerWork,
}

/// The phase at another stage.
pub open spec fn at_stage(phase: AnswerPhase, stage: AnswerStage) -> AnswerPhase {
    AnswerPhase { stage, ..phase }
}

/// Something is done, and telemetry is told nothing.
pub open spec fn quietly(step: AnswerStep, work: AnswerWork) -> bool {
    &&& step.failure is None
    &&& step.timing is None
    &&& step.work == work
}

/// The phase goes on.
pub open spec fn goes_on(
    before: AnswerPhase,
    after: AnswerPhase,
    step: AnswerStep,
    stage: AnswerStage,
    work: AnswerWork,
) -> bool {
    after == at_stage(before, stage) && quietly(step, work)
}

/// The prompt gets the notice that this is the last chance to answer.
pub open spec fn preparing() -> AnswerWork {
    AnswerWork::Prepare {
        source: RECOVERY_SOURCE,
        title: RECOVERY_TITLE,
        notice: RECOVERY_NOTICE,
    }
}

/// The request, within its bounds.
pub open spec fn bounded_request() -> AnswerWork {
    AnswerWork::Request {
        seconds: RECOVERY_SECONDS,
        max_output_tokens: RECOVERY_OUTPUT_TOKENS,
    }
}

/// The one request is made.
pub open spec fn requests(
    before: AnswerPhase,
    now: u64,
    after: AnswerPhase,
    step: AnswerStep,
) -> bool {
    &&& after == (AnswerPhase { stage: AnswerStage::Requesting, sink: after.sink, ..before })
    &&& after.sink@ == (Deltas {
        requests: before.sink@.requests.push(None),
        began: now,
        first_delta: None,
    })
    &&& quietly(step, bounded_request())
}

/// What follows once the outcome is known and paid for: an answer ends the phase,
/// and an explanation is kept, or at least announced.
pub open spec fn concludes(
    before: AnswerPhase,
    outcome: RecoveryOutcome,
    after: AnswerPhase,
    work: AnswerWork,
) -> bool {
    match outcome {
        RecoveryOutcome::Answer(message) => {
            &&& after == at_stage(before, AnswerStage::Over)
            &&& work matches AnswerWork::Finish(AnswerOutcome::Completed(result))
            &&& result.message == message
            &&& totals(before.sink@.requests, result.usage)
        },
        RecoveryOutcome::Notice(notice) => {
            &&& after == at_stage(before, AnswerStage::Telling { notice })
            &&& if before.services.durable {
                work matches AnswerWork::Commit(told) && told@ == notice@
            } else {
                work matches AnswerWork::Announce(told) && told@ == notice@
            }
        },
    }
}

/// What the latest request reported.
pub open spec fn latest(deltas: Deltas) -> Option<ProviderUsage> {
    if deltas.requests.len() == 0 {
        None
    } else {
        deltas.requests.last()
    }
}

/// What follows from the response.
pub open spec fn responded(
    before: AnswerPhase,
    response: RecoveryResponse,
    after: AnswerPhase,
    step: AnswerStep,
) -> bool {
    exists|recovery: Recovery|
        {
            &&& #[trigger] recovers(
                response,
                latest(before.sink@),
                before.sink@.first_delta,
                recovery,
            )
            &&& step.failure == recovery.failure
            &&& step.timing == Some(recovery.timing)
            &&& if before.services.budgeted {
                &&& after == at_stage(
                    before,
                    AnswerStage::Settling { outcome: recovery.outcome },
                )
                &&& step.work == AnswerWork::Settle(recovery.receipt)
            } else {
                concludes(before, recovery.outcome, after, step.work)
            }
        }
}

/// The explanation stands in the conversation.
pub open spec fn explained(
    before: AnswerPhase,
    notice: Message,
    after: AnswerPhase,
    step: AnswerStep,
) -> bool {
    &&& after.services == before.services
    &&& after.sink == before.sink
    &&& after.stage is Over
    &&& after.messages@ == before.messages@.push(notice)
    &&& quietly(step, AnswerWork::Finish(AnswerOutcome::Explained))
}

/// How the phase moves on what came of its work.
pub open spec fn answer_moves(
    before: AnswerPhase,
    event: AnswerEvent,
    after: AnswerPhase,
    step: AnswerStep,
) -> bool {
    match (before.stage, event) {
        (AnswerStage::Refreshing, AnswerEvent::Done) => goes_on(
            before,
            after,
            step,
            AnswerStage::Preparing,
            preparing(),
        ),
        (AnswerStage::Preparing, AnswerEvent::Prepared { now }) => if before.services.budgeted {
            goes_on(before, after, step, AnswerStage::Admitting, AnswerWork::Admit)
        } else {
            requests(before, now, after, step)
        },
        (AnswerStage::Admitting, AnswerEvent::Admitted { now }) => requests(
            before,
            now,
            after,
            step,
        ),
        (AnswerStage::Requesting, AnswerEvent::Responded(response)) => responded(
            before,
            response,
            after,
            step,
        ),
        (AnswerStage::Settling { outcome }, AnswerEvent::Done) => {
            &&& step.failure is None
            &&& step.timing is None
            &&& concludes(before, outcome, after, step.work)
        },
        (AnswerStage::Settling { .. }, AnswerEvent::Failed(cause)) => {
            &&& after == at_stage(before, AnswerStage::Over)
            &&& step.failure is None
            &&& step.timing is None
            &&& step.work matches AnswerWork::Finish(
                AnswerOutcome::Failed { context: Some(context), cause: held },
            )
            &&& context@ == SETTLEMENT@
            &&& held == cause
        },
        (AnswerStage::Telling { notice }, AnswerEvent::Done) => explained(
            before,
            notice,
            after,
            step,
        ),
        (AnswerStage::Telling { notice }, AnswerEvent::Failed(cause)) => {
            if before.services.durable {
                goes_on(
                    before,
                    after,
                    step,
                    AnswerStage::Over,
                    AnswerWork::Finish(AnswerOutcome::Failed { context: None, cause }),
                )
            } else {
                explained(before, notice, after, step)
            }
        },
        (
            AnswerStage::Refreshing | AnswerStage::Preparing | AnswerStage::Admitting,
            AnswerEvent::Failed(cause),
        ) => goes_on(
            before,
            after,
            step,
            AnswerStage::Over,
            AnswerWork::Finish(AnswerOutcome::Failed { context: None, cause }),
        ),
        _ => after == before && quietly(step, AnswerWork::Ignore),
    }
}

fn prepare() -> (work: AnswerWork)
    ensures
        work == preparing(),
{
    AnswerWork::Prepare {
        source: RECOVERY_SOURCE,
        title: RECOVERY_TITLE,
        notice: RECOVERY_NOTICE,
    }
}

fn quiet(work: AnswerWork) -> (step: AnswerStep)
    ensures
        quietly(step, work),
{
    AnswerStep { failure: None, timing: None, work }
}

impl AnswerPhase {
    /// Begins the phase on what a turn left behind, with a prompt that is read again
    /// where it can be.
    pub fn start(services: AnswerServices, messages: Vec<Message>, sink: EventDeltaSink) -> (begun: (
        AnswerPhase,
        AnswerWork,
    ))
        ensures
            begun.0.services == services,
            begun.0.messages == messages,
            begun.0.sink == sink,
            if services.refresh {
                begun.0.stage is Refreshing && begun.1 == AnswerWork::Refresh
            } else {
                begun.0.stage is Preparing && begun.1 == preparing()
            },
    {
        if services.refresh {
            (
                AnswerPhase { services, messages, sink, stage: AnswerStage::Refreshing },
                AnswerWork::Refresh,
            )
        } else {
            (
                AnswerPhase { services, messages, sink, stage: AnswerStage::Preparing },
                prepare(),
            )
        }
    }

    fn go_on(&mut self, stage: AnswerStage, work: AnswerWork) -> (step: AnswerStep)
        ensures
            goes_on(*old(self), *final(self), step, stage, work),
    {
        self.stage = stage;
        quiet(work)
    }

    fn fail(&mut self, cause: String) -> (step: AnswerStep)
        ensures
            goes_on(
                *old(self),
                *final(self),
                step,
                AnswerStage::Over,
                AnswerWork::Finish(AnswerOutcome::Failed { context: None, cause }),
            ),
    {
        self.go_on(
            AnswerStage::Over,
            AnswerWork::Finish(AnswerOutcome::Failed { context: None, cause }),
        )
    }

    fn request(&mut self, now: u64) -> (step: AnswerStep)
        ensures
            requests(*old(self), now, *final(self), step),
    {
        self.sink.begin_request(now);
        self.stage = AnswerStage::Requesting;
        quiet(
            AnswerWork::Request {
                seconds: RECOVERY_SECONDS,
                max_output_tokens: RECOVERY_OUTPUT_TOKENS,
            },
        )
    }

    fn conclude(&mut self, outcome: RecoveryOutcome) -> (work: AnswerWork)
        ensures
            concludes(*old(self), outcome, *final(self), work),
    {
        match outcome {
            RecoveryOutcome::Answer(message) => {
                self.stage = AnswerStage::Over;
                let usage = self.sink.usage();
                AnswerWork::Finish(AnswerOutcome::Completed(AgentTurnResult { message, usage }))
            },
            RecoveryOutcome::Notice(notice) => {
                let told = notice.copy();
                self.stage = AnswerStage::Telling { notice };
                if self.services.durable {
                    AnswerWork::Commit(told)
                } else {
                    AnswerWork::Announce(told)
                }
            },
        }
    }

    fn respond(&mut self, response: RecoveryResponse) -> (step: AnswerStep)
        ensures
            responded(*old(self), response, *final(self), step),
    {
        let first_delta = self.sink.timing(true, false).first_delta;
        let recovery = recover_memory_answer(response, self.sink.request_usage(), first_delta);
        let ghost known = recovery;
        assert(recovers(response, latest(self.sink@), self.sink@.first_delta, known));
        let failure = recovery.failure;
        let timing = Some(recovery.timing);
        if self.services.budgeted {
            self.stage = AnswerStage::Settling { outcome: recovery.outcome };
            AnswerStep { failure, timing, work: AnswerWork::Settle(recovery.receipt) }
        } else {
            let work = self.conclude(recovery.outcome);
            AnswerStep { failure, timing, work }
        }
    }

    fn explain(&mut self, notice: Message) -> (step: AnswerStep)
        ensures
            explained(*old(self), notice, *final(self), step),
    {
        self.messages.push(notice);
        self.stage = AnswerStage::Over;
        quiet(AnswerWork::Finish(AnswerOutcome::Explained))
    }

    /// Moves the phase on what came of its work.
    pub fn step(&mut self, event: AnswerEvent) -> (step: AnswerStep)
        ensures
            answer_moves(*old(self), event, *final(self), step),
    {
        let mut stage = AnswerStage::Over;
        core::mem::swap(&mut self.stage, &mut stage);
        let ghost before = *old(self);
        match (stage, event) {
            (AnswerStage::Refreshing, AnswerEvent::Done) => self.go_on(
                AnswerStage::Preparing,
                prepare(),
            ),
            (AnswerStage::Preparing, AnswerEvent::Prepared { now }) => {
                if self.services.budgeted {
                    self.go_on(AnswerStage::Admitting, AnswerWork::Admit)
                } else {
                    self.request(now)
                }
            },
            (AnswerStage::Admitting, AnswerEvent::Admitted { now }) => self.request(now),
            (AnswerStage::Requesting, AnswerEvent::Responded(response)) => {
                let step = self.respond(response);
                proof {
                    responses_count_alone(
                        before,
                        at_stage(before, AnswerStage::Over),
                        response,
                        *self,
                        step,
                    );
                }
                step
            },
            (AnswerStage::Settling { outcome }, AnswerEvent::Done) => {
                let work = self.conclude(outcome);
                quiet(work)
            },
            (AnswerStage::Settling { .. }, AnswerEvent::Failed(cause)) => quiet(
                AnswerWork::Finish(AnswerOutcome::Failed { context: Some(SETTLEMENT), cause }),
            ),
            (AnswerStage::Telling { notice }, AnswerEvent::Done) => self.explain(notice),
            (AnswerStage::Telling { notice }, AnswerEvent::Failed(cause)) => {
                if self.services.durable {
                    self.fail(cause)
                } else {
                    self.explain(notice)
                }
            },
            (
                AnswerStage::Refreshing | AnswerStage::Preparing | AnswerStage::Admitting,
                AnswerEvent::Failed(cause),
            ) => self.fail(cause),
            (stage, _) => {
                self.stage = stage;
                quiet(AnswerWork::Ignore)
            },
        }
    }

    /// Passes on a piece of the answer.
    pub fn text_delta(&mut self, text: &str, now: u64) -> (event: DeltaEvent)
        ensures
            *final(self) == (AnswerPhase { sink: final(self).sink, ..*old(self) }),
            final(self).sink@ == (Deltas {
                first_delta: crate::usage::first_output(old(self).sink@, text@, now),
                ..old(self).sink@
            }),
            event matches DeltaEvent::Text(held) && held@ == text@,
    {
        self.sink.text_delta(text, now)
    }

    /// Takes the report of the request.
    pub fn report(&mut self, usage: ProviderUsage)
        ensures
            *final(self) == (AnswerPhase { sink: final(self).sink, ..*old(self) }),
            final(self).sink@ == (Deltas {
                requests: if old(self).sink@.requests.len() == 0 {
                    old(self).sink@.requests
                } else {
                    old(self).sink@.requests.drop_last().push(Some(usage))
                },
                ..old(self).sink@
            }),
    {
        self.sink.report(usage);
    }
}

proof fn responses_count_alone(
    before: AnswerPhase,
    idle: AnswerPhase,
    response: RecoveryResponse,
    after: AnswerPhase,
    step: AnswerStep,
)
    requires
        idle == at_stage(before, idle.stage),
        responded(idle, response, after, step),
    ensures
        responded(before, response, after, step),
{
    let recovery = choose|recovery: Recovery|
        {
            &&& #[trigger] recovers(
                response,
                latest(idle.sink@),
                idle.sink@.first_delta,
                recovery,
            )
            &&& step.failure == recovery.failure
            &&& step.timing == Some(recovery.timing)
            &&& if idle.services.budgeted {
                &&& after == at_stage(
                    idle,
                    AnswerStage::Settling { outcome: recovery.outcome },
                )
                &&& step.work == AnswerWork::Settle(recovery.receipt)
            } else {
                concludes(idle, recovery.outcome, after, step.work)
            }
        };
    assert(recovers(response, latest(before.sink@), before.sink@.first_delta, recovery));
}

/// Whether what the phase holds on to is what it may end with: an answer, or the
/// explanation.
pub open spec fn sound(phase: AnswerPhase) -> bool {
    match phase.stage {
        AnswerStage::Settling { outcome: RecoveryOutcome::Answer(message) } => is_answer(message@),
        AnswerStage::Settling { outcome: RecoveryOutcome::Notice(notice) } => is_notice(notice@),
        AnswerStage::Telling { notice } => is_notice(notice@),
        _ => true,
    }
}

/// The phase ends well only with an answer, and otherwise leaves nothing but the
/// explanation in the conversation.
pub proof fn only_answers_complete(
    before: AnswerPhase,
    event: AnswerEvent,
    after: AnswerPhase,
    step: AnswerStep,
)
    requires
        answer_moves(before, event, after, step),
        sound(before),
    ensures
        sound(after),
        step.work matches AnswerWork::Finish(AnswerOutcome::Completed(result)) ==> is_answer(
            result.message@,
        ),
        after.messages != before.messages ==> after.messages@.len() == before.messages@.len() + 1
            && after.messages@.drop_last() == before.messages@ && is_notice(
            after.messages@.last()@,
        ),
{
    if after.messages@.len() == before.messages@.len() + 1 {
        assert(after.messages@.drop_last() =~= before.messages@);
    }
}

/// How often a request can still be made.
pub open spec fn requests_left(stage: AnswerStage) -> nat {
    match stage {
        AnswerStage::Refreshing | AnswerStage::Preparing | AnswerStage::Admitting => 1,
        _ => 0,
    }
}

/// The reports of the turn's requests are kept: a move adds one more request at
/// most, and changes none of the earlier ones. An answer is charged for all of
/// them.
pub proof fn earlier_reports_are_kept(
    before: AnswerPhase,
    event: AnswerEvent,
    after: AnswerPhase,
    step: AnswerStep,
)
    requires
        answer_moves(before, event, after, step),
    ensures
        if step.work is Request {
            after.sink@.requests == before.sink@.requests.push(None)
        } else {
            after.sink == before.sink
        },
        step.work matches AnswerWork::Finish(AnswerOutcome::Completed(result)) ==> totals(
            after.sink@.requests,
            result.usage,
        ),
{
}

/// At most one request is made, however it is answered.
pub proof fn one_request_is_made(
    before: AnswerPhase,
    event: AnswerEvent,
    after: AnswerPhase,
    step: AnswerStep,
)
    requires
        answer_moves(before, event, after, step),
    ensures
        step.work is Request ==> requests_left(before.stage) == 1 && requests_left(after.stage)
            == 0,
        requests_left(after.stage) <= requests_left(before.stage),
{
}

/// The phase asks for its answer within bounds: fifteen seconds and 1024 tokens. The
/// request is paid for before it is made where requests are paid, and it is settled with
/// its receipt before anything follows from it.
pub proof fn answers_are_paid_for(
    before: AnswerPhase,
    event: AnswerEvent,
    after: AnswerPhase,
    step: AnswerStep,
)
    requires
        answer_moves(before, event, after, step),
    ensures
        step.work matches AnswerWork::Request { seconds, max_output_tokens } ==> seconds == 15
            && max_output_tokens == 1024,
        before.stage is Preparing && event is Prepared ==> (step.work is Admit
            <==> before.services.budgeted) && (step.work is Request <==> !before.services.budgeted),
        before.stage is Requesting ==> (event is Responded ==> (step.work is Settle
            <==> before.services.budgeted)),
        before.services.budgeted && step.work is Request ==> before.stage is Admitting && event
            is Admitted,
        step.work is Prepare ==> before.stage is Refreshing && event is Done,
        step.work matches AnswerWork::Finish(AnswerOutcome::Completed(_)) ==> !(event is Failed),
        step.timing is Some <==> before.stage is Requesting && event is Responded,
        step.work is Commit ==> before.services.durable,
        step.work is Announce ==> !before.services.durable,
        after.services == before.services,
{
}

/// Where the phase fails, it says for what cause. A settlement that failed is told as one,
/// and an explanation that could not be kept fails a conversation that is kept.
pub proof fn failures_of_the_phase_are_told(
    before: AnswerPhase,
    cause: String,
    after: AnswerPhase,
    step: AnswerStep,
)
    requires
        answer_moves(before, AnswerEvent::Failed(cause), after, step),
    ensures
        before.stage is Refreshing || before.stage is Preparing || before.stage is Admitting
            || before.stage is Settling || (before.stage is Telling && before.services.durable)
            ==> {
            &&& after.stage is Over
            &&& step.work matches AnswerWork::Finish(AnswerOutcome::Failed { context, cause: told })
            &&& told == cause
            &&& context is Some <==> before.stage is Settling
        },
        before.stage is Telling && !before.services.durable ==> step.work == AnswerWork::Finish(
            AnswerOutcome::Explained,
        ),
        step.work !is Request && step.work !is Commit && step.work !is Announce,
{
}

/// The answer phase begins with what it was given: its routes are refreshed first where
/// that is due, and the answer is prepared at once where it is not.
pub proof fn answers_begin_with_what_is_due(
    services: AnswerServices,
    messages: Vec<Message>,
    sink: EventDeltaSink,
    begun: (AnswerPhase, AnswerWork),
)
    requires
        call_ensures(AnswerPhase::start, (services, messages, sink), begun),
    ensures
        begun.0.messages == messages,
        begun.0.services == services,
        begun.0.sink == sink,
        begun.1 == AnswerWork::Refresh <==> services.refresh,
        begun.0.stage is Refreshing <==> services.refresh,
{
}

/// What the provider says in the answer phase is passed on as it is, and what it reports
/// counts for the request that is under way alone.
pub proof fn answer_deltas_move_nothing(
    saying: &mut AnswerPhase,
    text: &str,
    now: u64,
    event: DeltaEvent,
    reporting: &mut AnswerPhase,
    usage: ProviderUsage,
)
    requires
        call_ensures(AnswerPhase::text_delta, (saying, text, now), event),
        call_ensures(AnswerPhase::report, (reporting, usage), ()),
    ensures
        event matches DeltaEvent::Text(held) && held@ == text@,
        final(saying).stage == old(saying).stage,
        final(saying).messages == old(saying).messages,
        final(saying).sink@.requests == old(saying).sink@.requests,
        final(reporting).stage == old(reporting).stage,
        final(reporting).messages == old(reporting).messages,
        final(reporting).sink@.requests.len() == old(reporting).sink@.requests.len(),
        old(reporting).sink@.requests.len() > 0 ==> final(reporting).sink@.requests.last() == Some(
            usage,
        ),
        forall|i: int|
            0 <= i < old(reporting).sink@.requests.len() - 1
                ==> final(reporting).sink@.requests[i] == #[trigger] old(reporting).sink@.requests[i],
{
}

}
