//! What holds of a whole turn, however many events it takes.

use crate::message::{
    calls_in, message_views, result_message, Message, MessageModel, ToolCall, ToolResult,
    ToolResultStatus,
};
use crate::progress::{observed, of_history, refusal};
use crate::turn::{
    answered, counted, entered, idle, moves, resolved, returned, sound, told, turns_stay_sound,
    Happening, Stage, Step, Turn, TurnAction, TurnError, TurnEvent, TurnModel, TurnNotice,
    TurnOutcome, TurnServices,
};
use crate::usage::{totals, DeltaEvent, ProviderUsage};
use vstd::prelude::*;

verus! {

/// One thing that happens to a turn.
pub enum Occurrence {
    /// The turn moves on an event.
    Step { event: Happening, notices: Seq<TurnNotice>, action: TurnAction },
    /// The running request sends a piece of its output or a report of its use.
    Heard,
}

/// Whether a turn heard from its running request: only what is known of its
/// requests changed, and not how many there are.
pub open spec fn hears(before: TurnModel, after: TurnModel) -> bool {
    &&& after == (TurnModel { deltas: after.deltas, ..before })
    &&& after.deltas.requests.len() == before.deltas.requests.len()
}

/// Whether a turn changes as something that happens says.
pub open spec fn occurs(before: TurnModel, occurrence: Occurrence, after: TurnModel) -> bool {
    match occurrence {
        Occurrence::Step { event, notices, action } => moves(before, event, after, notices, action),
        Occurrence::Heard => hears(before, after),
    }
}

/// Whether a turn goes through states as things happen to it, one after another.
pub open spec fn runs(states: Seq<TurnModel>, happened: Seq<Occurrence>) -> bool {
    &&& states.len() == happened.len() + 1
    &&& forall|i: int|
        0 <= i < happened.len() ==> occurs(states[i], #[trigger] happened[i], states[i + 1])
}

/// Whether a turn is at its start.
pub open spec fn starts(turn: TurnModel) -> bool {
    sound(turn) && turn.stage is Preparing && turn.rounds == 0
}

/// A round in the history: the model's message that asks for tools, and the results
/// that there are, in the order of the calls.
pub struct Round {
    pub request: MessageModel,
    pub results: Seq<ToolResult>,
}

impl Round {
    /// The calls that the model asks for.
    pub open spec fn calls(self) -> Seq<ToolCall> {
        calls_in(self.request.content)
    }

    /// Whether every call has its result.
    pub open spec fn whole(self) -> bool {
        self.results.len() == self.calls().len()
    }
}

/// The messages of results.
pub open spec fn result_messages(results: Seq<ToolResult>) -> Seq<MessageModel> {
    Seq::new(results.len(), |i: int| result_message(results[i]))
}

/// The messages of rounds: each request, and behind it one message for each result.
pub open spec fn told_rounds(rounds: Seq<Round>) -> Seq<MessageModel>
    decreases rounds.len(),
{
    if rounds.len() == 0 {
        Seq::empty()
    } else {
        told_rounds(rounds.drop_last()).push(rounds.last().request) + result_messages(
            rounds.last().results,
        )
    }
}

/// Whether every round asks for something and, but for the last one, has a result
/// for every call; the last one has no more results than calls.
pub open spec fn orderly(rounds: Seq<Round>) -> bool {
    &&& forall|i: int|
        0 <= i < rounds.len() ==> (#[trigger] rounds[i]).calls().len() > 0
    &&& forall|i: int| 0 <= i < rounds.len() - 1 ==> (#[trigger] rounds[i]).whole()
    &&& rounds.len() > 0 ==> rounds.last().results.len() <= rounds.last().calls().len()
}

/// Whether the last round has all its results too.
pub open spec fn all_whole(rounds: Seq<Round>) -> bool {
    forall|i: int| 0 <= i < rounds.len() ==> (#[trigger] rounds[i]).whole()
}

/// Whether the last round asks for calls, of which so many have a result.
pub open spec fn opened(rounds: Seq<Round>, calls: Seq<ToolCall>, done: nat) -> bool {
    &&& rounds.len() > 0
    &&& rounds.last().calls() == calls
    &&& rounds.last().results.len() == done
}

/// Whether a turn told rounds since its start, as far as its stage says: there is
/// one for every request, but for the one that is running.
pub open spec fn tells(start: Seq<MessageModel>, turn: TurnModel, rounds: Seq<Round>) -> bool {
    &&& turn.messages == start + told_rounds(rounds)
    &&& orderly(rounds)
    &&& match turn.stage {
        Stage::Preparing => all_whole(rounds) && rounds.len() == turn.rounds,
        Stage::Requesting | Stage::Settling(_) | Stage::CommittingAssistant(_) => {
            all_whole(rounds) && rounds.len() + 1 == turn.rounds
        },
        Stage::StartingStep(calls) => opened(rounds, calls, 0) && rounds.len() == turn.rounds,
        Stage::Calling(calls, at) => opened(rounds, calls, at) && rounds.len() == turn.rounds,
        Stage::Refusing(calls, at, _) => opened(rounds, calls, at) && rounds.len() == turn.rounds,
        Stage::Recording(calls, at) => opened(rounds, calls, at) && rounds.len() == turn.rounds,
        Stage::CommittingResult(calls, at, _) => {
            opened(rounds, calls, at) && rounds.len() == turn.rounds
        },
        Stage::Over => rounds.len() <= turn.rounds,
    }
}

/// What an end says of the rounds before it. An answer ends whole rounds, with one
/// more request than there are rounds; a round budget is reached after as many whole
/// rounds, and requests, as it has.
pub open spec fn ends(turn: TurnModel, action: TurnAction, rounds: Seq<Round>) -> bool {
    match action {
        TurnAction::Finish(TurnOutcome::Completed(result)) => {
            &&& all_whole(rounds)
            &&& turn.deltas.requests.len() == rounds.len() + 1
            &&& totals(turn.deltas.requests, result.usage)
        },
        TurnAction::Finish(TurnOutcome::RoundBudgetReached { rounds: used, usage }) => {
            &&& all_whole(rounds)
            &&& used == turn.round_limit
            &&& turn.deltas.requests.len() == turn.round_limit
            &&& rounds.len() == turn.round_limit
            &&& totals(turn.deltas.requests, usage)
        },
        _ => true,
    }
}

/// The rounds with one more request.
pub open spec fn asked(rounds: Seq<Round>, request: MessageModel) -> Seq<Round> {
    rounds.push(Round { request, results: Seq::empty() })
}

/// The rounds with one more result in the last one.
pub open spec fn given(rounds: Seq<Round>, result: ToolResult) -> Seq<Round> {
    rounds.drop_last().push(
        Round { request: rounds.last().request, results: rounds.last().results.push(result) },
    )
}

proof fn requests_are_told(start: Seq<MessageModel>, rounds: Seq<Round>, request: MessageModel)
    ensures
        start + told_rounds(asked(rounds, request)) == (start + told_rounds(rounds)).push(request),
{
    let next = asked(rounds, request);
    assert(next.drop_last() =~= rounds);
    assert(result_messages(next.last().results) =~= Seq::<MessageModel>::empty());
    assert(start + told_rounds(next) =~= (start + told_rounds(rounds)).push(request));
}

proof fn results_are_told(start: Seq<MessageModel>, rounds: Seq<Round>, result: ToolResult)
    requires
        rounds.len() > 0,
    ensures
        start + told_rounds(given(rounds, result)) == (start + told_rounds(rounds)).push(
            result_message(result),
        ),
{
    let next = given(rounds, result);
    assert(next.drop_last() =~= rounds.drop_last());
    assert(result_messages(next.last().results) =~= result_messages(rounds.last().results).push(
        result_message(result),
    ));
    assert(start + told_rounds(next) =~= (start + told_rounds(rounds)).push(
        result_message(result),
    ));
}

proof fn asking_is_orderly(rounds: Seq<Round>, request: MessageModel)
    requires
        orderly(rounds),
        all_whole(rounds),
        calls_in(request.content).len() > 0,
    ensures
        orderly(asked(rounds, request)),
        opened(asked(rounds, request), calls_in(request.content), 0),
{
    let next = asked(rounds, request);
    assert forall|i: int| 0 <= i < next.len() - 1 implies (#[trigger] next[i]).whole() by {
        assert(next[i] == rounds[i]);
    }
    assert forall|i: int| 0 <= i < next.len() implies (#[trigger] next[i]).calls().len() > 0 by {
        if i < rounds.len() {
            assert(next[i] == rounds[i]);
        }
    }
}

proof fn giving_is_orderly(rounds: Seq<Round>, calls: Seq<ToolCall>, done: nat, result: ToolResult)
    requires
        orderly(rounds),
        opened(rounds, calls, done),
        done < calls.len(),
    ensures
        orderly(given(rounds, result)),
        opened(given(rounds, result), calls, done + 1),
        given(rounds, result).len() == rounds.len(),
{
    let next = given(rounds, result);
    assert forall|i: int| 0 <= i < next.len() - 1 implies (#[trigger] next[i]).whole() by {
        assert(next[i] == rounds[i]);
    }
    assert forall|i: int| 0 <= i < next.len() implies (#[trigger] next[i]).calls().len() > 0 by {
        if i < next.len() - 1 {
            assert(next[i] == rounds[i]);
        } else {
            assert(rounds[rounds.len() - 1].calls().len() > 0);
        }
    }
}

proof fn entering_tells(
    start: Seq<MessageModel>,
    before: TurnModel,
    calls: Seq<ToolCall>,
    at: nat,
    after: TurnModel,
    action: TurnAction,
    rounds: Seq<Round>,
)
    requires
        counted(before),
        at <= calls.len(),
        before.messages == start + told_rounds(rounds),
        orderly(rounds),
        opened(rounds, calls, at),
        rounds.len() == before.rounds,
        entered(before, calls, at, after, action),
    ensures
        tells(start, after, rounds),
        ends(after, action, rounds),
{
    reveal(entered);
    if at == calls.len() {
        assert forall|i: int| 0 <= i < rounds.len() implies (#[trigger] rounds[i]).whole() by {}
        assert(all_whole(rounds));
    }
}

proof fn resolving_tells(
    start: Seq<MessageModel>,
    before: TurnModel,
    calls: Seq<ToolCall>,
    at: nat,
    result: ToolResult,
    after: TurnModel,
    notices: Seq<TurnNotice>,
    action: TurnAction,
    rounds: Seq<Round>,
) -> (next: Seq<Round>)
    requires
        counted(before),
        at < calls.len(),
        before.messages == start + told_rounds(rounds),
        orderly(rounds),
        opened(rounds, calls, at),
        rounds.len() == before.rounds,
        resolved(before, calls, at, result, after, notices, action),
    ensures
        tells(start, after, next),
        ends(after, action, next),
{
    reveal(resolved);
    if before.services.durable {
        rounds
    } else {
        let next = given(rounds, result);
        results_are_told(start, rounds, result);
        giving_is_orderly(rounds, calls, at, result);
        entering_tells(
            start,
            told(before, result_message(result)),
            calls,
            at + 1,
            after,
            action,
            next,
        );
        next
    }
}

proof fn returning_tells(
    start: Seq<MessageModel>,
    before: TurnModel,
    calls: Seq<ToolCall>,
    at: nat,
    result: ToolResult,
    after: TurnModel,
    notices: Seq<TurnNotice>,
    action: TurnAction,
    rounds: Seq<Round>,
) -> (next: Seq<Round>)
    requires
        counted(before),
        at < calls.len(),
        before.messages == start + told_rounds(rounds),
        orderly(rounds),
        opened(rounds, calls, at),
        rounds.len() == before.rounds,
        returned(before, calls, at, result, after, notices, action),
    ensures
        tells(start, after, next),
        ends(after, action, next),
{
    reveal(returned);
    if before.services.recorder && !before.services.durable {
        rounds
    } else {
        let seen = TurnModel {
            progress: observed(before.progress, calls[at as int], result),
            ..before
        };
        resolving_tells(start, seen, calls, at, result, after, notices, action, rounds)
    }
}

proof fn answering_tells(
    start: Seq<MessageModel>,
    before: TurnModel,
    message: MessageModel,
    after: TurnModel,
    action: TurnAction,
    rounds: Seq<Round>,
) -> (next: Seq<Round>)
    requires
        counted(before),
        before.messages == start + told_rounds(rounds),
        orderly(rounds),
        all_whole(rounds),
        rounds.len() + 1 == before.rounds,
        answered(before, message, after, action),
    ensures
        tells(start, after, next),
        ends(after, action, next),
{
    reveal(answered);
    let calls = calls_in(message.content);
    if calls.len() == 0 || before.services.durable {
        rounds
    } else {
        let next = asked(rounds, message);
        requests_are_told(start, rounds, message);
        asking_is_orderly(rounds, message);
        entering_tells(start, told(before, message), calls, 0, after, action, next);
        next
    }
}

/// Every move goes on telling rounds: it adds a request, a result or nothing.
pub proof fn moves_tell_rounds(
    start: Seq<MessageModel>,
    before: TurnModel,
    event: Happening,
    after: TurnModel,
    notices: Seq<TurnNotice>,
    action: TurnAction,
    rounds: Seq<Round>,
) -> (next: Seq<Round>)
    requires
        sound(before),
        tells(start, before, rounds),
        moves(before, event, after, notices, action),
    ensures
        tells(start, after, next),
        ends(after, action, next),
{
    match (before.stage, event) {
        (Stage::Requesting, Happening::Answered(message)) => if before.services.budgeted {
            rounds
        } else {
            answering_tells(start, idle(before), message, after, action, rounds)
        },
        (Stage::Settling(Ok(message)), Happening::Done) => answering_tells(
            start,
            idle(before),
            message,
            after,
            action,
            rounds,
        ),
        (Stage::CommittingAssistant(message), Happening::Done) => {
            requests_are_told(start, rounds, message);
            asking_is_orderly(rounds, message);
            asked(rounds, message)
        },
        (Stage::StartingStep(calls), Happening::Done) => {
            entering_tells(start, idle(before), calls, 0, after, action, rounds);
            rounds
        },
        (Stage::Calling(calls, at), Happening::ToolReturned(result)) => returning_tells(
            start,
            idle(before),
            calls,
            at,
            result,
            after,
            notices,
            action,
            rounds,
        ),
        (Stage::Refusing(calls, at, result), Happening::Done) => returning_tells(
            start,
            idle(before),
            calls,
            at,
            result,
            after,
            notices,
            action,
            rounds,
        ),
        (Stage::Recording(calls, at), Happening::Recorded(result)) => resolving_tells(
            start,
            idle(before),
            calls,
            at,
            result,
            after,
            notices,
            action,
            rounds,
        ),
        (Stage::CommittingResult(calls, at, result), Happening::Done) => {
            let next = given(rounds, result);
            results_are_told(start, rounds, result);
            giving_is_orderly(rounds, calls, at, result);
            entering_tells(
                start,
                told(idle(before), result_message(result)),
                calls,
                at + 1,
                after,
                action,
                next,
            );
            next
        },
        _ => rounds,
    }
}

/// A whole turn, from its start through everything that happens to it: the history
/// that it began with stays in front, and what it adds is told in rounds. Every
/// message of the model that asks for tools is followed by one result for each call,
/// in order, before the next one comes, and only the last round can be cut short. It
/// makes no more requests than it has rounds. Where it answers, or where it reaches
/// its round budget, all rounds are whole; the budget that it reports is then its
/// limit, and the number of its requests.
pub proof fn turns_are_told_in_rounds(states: Seq<TurnModel>, happened: Seq<Occurrence>) -> (rounds:
    Seq<Round>)
    requires
        runs(states, happened),
        starts(states[0]),
    ensures
        sound(states.last()),
        states.last().round_limit == states[0].round_limit,
        tells(states[0].messages, states.last(), rounds),
        states[0].messages.is_prefix_of(states.last().messages),
        rounds.len() <= states.last().deltas.requests.len() <= states[0].round_limit,
        happened.len() > 0 ==> (happened.last() matches Occurrence::Step { action, .. } ==> ends(
            states.last(),
            action,
            rounds,
        )),
    decreases happened.len(),
{
    let start = states[0].messages;
    if happened.len() == 0 {
        let rounds = Seq::<Round>::empty();
        assert(start + told_rounds(rounds) =~= start);
        rounds
    } else {
        let earlier = states.drop_last();
        let prior = happened.drop_last();
        assert forall|i: int| 0 <= i < prior.len() implies occurs(
            earlier[i],
            #[trigger] prior[i],
            earlier[i + 1],
        ) by {
            assert(occurs(states[i], happened[i], states[i + 1]));
        }
        let rounds = turns_are_told_in_rounds(earlier, prior);
        let before = earlier.last();
        let after = states.last();
        assert(occurs(before, happened.last(), after)) by {
            assert(happened.last() == happened[happened.len() - 1]);
            assert(before == states[happened.len() - 1]);
        }
        let next = match happened.last() {
            Occurrence::Step { event, notices, action } => {
                turns_stay_sound(before, event, after, notices, action);
                limits_stay(before, event, after, notices, action);
                moves_tell_rounds(start, before, event, after, notices, action, rounds)
            },
            Occurrence::Heard => rounds,
        };
        assert(start.is_prefix_of(after.messages)) by {
            assert(after.messages.take(start.len() as int) =~= start);
        }
        next
    }
}

proof fn limits_stay(
    before: TurnModel,
    event: Happening,
    after: TurnModel,
    notices: Seq<TurnNotice>,
    action: TurnAction,
)
    requires
        moves(before, event, after, notices, action),
    ensures
        after.round_limit == before.round_limit,
{
    reveal(entered);
    reveal(resolved);
    reveal(returned);
    reveal(answered);
}

/// Which call of a batch a move brings to its end, if it brings one: its result stands
/// in the history then, and nothing is left to be done about it.
pub open spec fn settles_call(before: TurnModel, event: Happening) -> Option<
    (Seq<ToolCall>, nat),
> {
    let durable = before.services.durable;
    let recorder = before.services.recorder;
    match (before.stage, event) {
        (Stage::CommittingResult(calls, at, _), Happening::Done) => Some((calls, at)),
        (Stage::Recording(calls, at), Happening::Recorded(_)) if !durable => Some((calls, at)),
        (Stage::Calling(calls, at), Happening::ToolReturned(_)) if !durable && !recorder => Some(
            (calls, at),
        ),
        (Stage::Refusing(calls, at, _), Happening::Done) if !durable && !recorder => Some(
            (calls, at),
        ),
        _ => None,
    }
}

/// A turn is stopped for its failures only where the guard reached one of its limits.
pub proof fn turns_stop_for_cause(
    before: TurnModel,
    event: Happening,
    after: TurnModel,
    notices: Seq<TurnNotice>,
    action: TurnAction,
)
    requires
        moves(before, event, after, notices, action),
    ensures
        action == TurnAction::Finish(TurnOutcome::Failed(TurnError::Stopped))
            ==> after.progress.stopped,
{
    reveal(entered);
    reveal(resolved);
    reveal(returned);
    reveal(answered);
}

/// Once the last call of a batch is done, the turn asks the provider again wherever
/// rounds are left and the guard reached no limit. It ends for its rounds where those
/// are used up, and for its failures where the guard says so.
pub proof fn batches_go_on(
    before: TurnModel,
    event: Happening,
    after: TurnModel,
    notices: Seq<TurnNotice>,
    action: TurnAction,
)
    requires
        moves(before, event, after, notices, action),
        sound(before),
        settles_call(before, event) matches Some((calls, at)) && at + 1 == calls.len(),
    ensures
        !after.progress.stopped && before.rounds < before.round_limit ==> action
            == TurnAction::Prepare,
        !after.progress.stopped && before.rounds >= before.round_limit ==> action
            matches TurnAction::Finish(TurnOutcome::RoundBudgetReached { .. }),
        after.progress.stopped ==> action == TurnAction::Finish(
            TurnOutcome::Failed(TurnError::Stopped),
        ),
{
    reveal(entered);
    reveal(resolved);
    reveal(returned);
    reveal(answered);
}

/// The calls of a batch have their turn in order: once one is done, the next one is
/// run, or refused where the guard refuses it.
pub proof fn calls_have_their_turn(
    before: TurnModel,
    event: Happening,
    after: TurnModel,
    notices: Seq<TurnNotice>,
    action: TurnAction,
)
    requires
        moves(before, event, after, notices, action),
        sound(before),
        settles_call(before, event) matches Some((calls, at)) && at + 1 < calls.len(),
    ensures
        ({
            let (calls, at) = settles_call(before, event)->0;
            let next = calls[at as int + 1];
            if refusal(after.progress, next) is None {
                action == TurnAction::Invoke(next)
            } else {
                action matches TurnAction::Refuse(result) && result.call_id == next.id
                    && result.status == ToolResultStatus::Error
            }
        }),
{
    reveal(entered);
    reveal(resolved);
    reveal(returned);
    reveal(answered);
}

/// The guard of a turn knows what came back from its tools and nothing else: every
/// result that comes back, and every refusal, is observed once for its own call.
pub proof fn guards_see_what_came_back(
    before: TurnModel,
    event: Happening,
    after: TurnModel,
    notices: Seq<TurnNotice>,
    action: TurnAction,
)
    requires
        moves(before, event, after, notices, action),
    ensures
        match (before.stage, event) {
            (Stage::Calling(calls, at), Happening::ToolReturned(result)) => after.progress
                == observed(before.progress, calls[at as int], result),
            (Stage::Refusing(calls, at, result), Happening::Done) => after.progress == observed(
                before.progress,
                calls[at as int],
                result,
            ),
            _ => after.progress == before.progress,
        },
{
    reveal(entered);
    reveal(resolved);
    reveal(returned);
    reveal(answered);
}

/// What fails ends the turn, and the error says what it was that failed.
pub proof fn failures_say_what_failed(
    before: TurnModel,
    text: String,
    after: TurnModel,
    notices: Seq<TurnNotice>,
    action: TurnAction,
)
    requires
        moves(before, Happening::Failed(text), after, notices, action),
    ensures
        before.stage is Preparing || before.stage is Requesting ==> action == TurnAction::Finish(
            TurnOutcome::Failed(TurnError::Unprepared(text)),
        ),
        before.stage matches Stage::Settling(Ok(_)) ==> action == TurnAction::Finish(
            TurnOutcome::Failed(TurnError::Settlement(text)),
        ),
        before.stage matches Stage::Settling(Err(failure)) ==> action == TurnAction::Finish(
            TurnOutcome::Failed(TurnError::Provider(failure)),
        ),
        before.stage is CommittingAssistant ==> action == TurnAction::Finish(
            TurnOutcome::Failed(TurnError::AssistantCommit(text)),
        ),
        before.stage is StartingStep ==> action == TurnAction::Finish(
            TurnOutcome::Failed(TurnError::StepCommit(text)),
        ),
        before.stage is Calling ==> action == TurnAction::Finish(
            TurnOutcome::Failed(TurnError::Tool(text)),
        ),
        before.stage is Recording ==> action == TurnAction::Finish(
            TurnOutcome::Failed(TurnError::Evidence(text)),
        ),
        before.stage is CommittingResult ==> action == TurnAction::Finish(
            TurnOutcome::Failed(TurnError::ResultCommit(text)),
        ),
        before.stage is Refusing || before.stage is Over ==> action == TurnAction::Ignore,
        action is Finish ==> after.stage is Over && after.messages == before.messages,
{
}

/// An answer of the provider that asks for no tool completes the turn with that very
/// answer, once its use is settled; one that asks for tools never does. A failure of
/// the provider ends the turn with that failure.
pub proof fn answers_complete_turns(
    before: TurnModel,
    event: Happening,
    after: TurnModel,
    notices: Seq<TurnNotice>,
    action: TurnAction,
)
    requires
        moves(before, event, after, notices, action),
    ensures
        (before.stage, event) matches (Stage::Requesting, Happening::Answered(message)) ==> (
        !before.services.budgeted && calls_in(message.content).len() == 0) ==> (action
            matches TurnAction::Finish(TurnOutcome::Completed(result)) && result.message@
            == message),
        (before.stage, event) matches (Stage::Settling(Ok(message)), Happening::Done) ==> calls_in(
            message.content,
        ).len() == 0 ==> (action matches TurnAction::Finish(TurnOutcome::Completed(result))
            && result.message@ == message),
        action matches TurnAction::Finish(TurnOutcome::Completed(result)) ==> calls_in(
            result.message@.content,
        ).len() == 0 && ((before.stage is Requesting && event == Happening::Answered(
            result.message@,
        )) || before.stage == Stage::Settling(Ok(result.message@))),
        (before.stage, event) matches (Stage::Requesting, Happening::ProviderFailed(failure))
            ==> !before.services.budgeted ==> action == TurnAction::Finish(
            TurnOutcome::Failed(TurnError::Provider(failure)),
        ),
        (before.stage, event) matches (Stage::Settling(Err(failure)), Happening::Done) ==> action
            == TurnAction::Finish(TurnOutcome::Failed(TurnError::Provider(failure))),
{
    reveal(entered);
    reveal(resolved);
    reveal(returned);
    reveal(answered);
}

/// An answer that asks for tools is committed first where the conversation is durable;
/// where it is not, the first call is run or refused at once.
pub proof fn requests_for_tools_are_followed(
    before: TurnModel,
    event: Happening,
    after: TurnModel,
    notices: Seq<TurnNotice>,
    action: TurnAction,
)
    requires
        moves(before, event, after, notices, action),
        sound(before),
        ({
            ||| (before.stage, event) matches (Stage::Requesting, Happening::Answered(message))
                && !before.services.budgeted && calls_in(message.content).len() > 0
            ||| (before.stage, event) matches (Stage::Settling(Ok(message)), Happening::Done)
                && calls_in(message.content).len() > 0
        }),
    ensures
        ({
            let message = match (before.stage, event) {
                (Stage::Settling(Ok(message)), _) => message,
                (_, Happening::Answered(message)) => message,
                _ => arbitrary(),
            };
            let first = calls_in(message.content)[0];
            if before.services.durable {
                &&& action matches TurnAction::CommitAssistant(held)
                &&& held@ == message
                &&& after.messages == before.messages
            } else {
                &&& after.messages == before.messages.push(message)
                &&& action == TurnAction::Invoke(first) || (action matches TurnAction::Refuse(
                    result,
                ) && result.call_id == first.id)
            }
        }),
{
    reveal(entered);
    reveal(resolved);
    reveal(returned);
    reveal(answered);
}

/// Only the services that take part are asked for anything, and each is asked where it
/// is due: usage is settled once for every request that came to an end, evidence is
/// retained of every result, and what is durable is committed.
pub proof fn services_are_asked_where_due(
    before: TurnModel,
    event: Happening,
    after: TurnModel,
    notices: Seq<TurnNotice>,
    action: TurnAction,
)
    requires
        moves(before, event, after, notices, action),
    ensures
        action is Settle ==> before.services.budgeted && before.stage is Requesting,
        before.stage is Requesting && (event is Answered || event is ProviderFailed)
            && before.services.budgeted ==> action is Settle,
        action is Record ==> before.services.recorder && !before.services.durable,
        before.stage is Calling && before.services.durable ==> (event
            matches Happening::ToolReturned(result) ==> action == TurnAction::CommitResult(result)),
        before.stage is Calling && before.services.recorder && !before.services.durable ==> (event
            matches Happening::ToolReturned(result) ==> action == TurnAction::Record(result)),
        before.stage is CommittingAssistant && event == Happening::Done ==> action
            == TurnAction::StartStep,
        before.stage is Preparing && event is Prepared ==> action == TurnAction::Request
            && after.rounds == before.rounds + 1,
        action == TurnAction::Request ==> before.stage is Preparing && event is Prepared,
        after.rounds == before.rounds || action == TurnAction::Request,
        after.services == before.services,
{
    reveal(entered);
    reveal(resolved);
    reveal(returned);
    reveal(answered);
}

/// What is settled for a request says whether the provider answered, and what it
/// reported of its use last; nothing is made up where it reported nothing.
pub proof fn settlements_tell_the_use(
    before: TurnModel,
    event: Happening,
    after: TurnModel,
    notices: Seq<TurnNotice>,
    action: TurnAction,
)
    requires
        moves(before, event, after, notices, action),
        sound(before),
    ensures
        action matches TurnAction::Settle(receipt) ==> {
            let reported = before.deltas.requests.last();
            &&& receipt.completed <==> event is Answered
            &&& reported is None ==> receipt.total_tokens is None
                && receipt.reported_cost_microunits is None
            &&& reported matches Some(usage) ==> receipt.total_tokens == usage.total_tokens
                && receipt.reported_cost_microunits == usage.cost_microunits
        },
{
    reveal(entered);
    reveal(resolved);
    reveal(returned);
    reveal(answered);
}

/// What comes back of a call is what the history tells of it: a result is passed on
/// unchanged to where it is kept, and told to the observers as it is.
pub proof fn results_are_passed_on(
    before: TurnModel,
    event: Happening,
    after: TurnModel,
    notices: Seq<TurnNotice>,
    action: TurnAction,
)
    requires
        moves(before, event, after, notices, action),
        sound(before),
    ensures
        settles_call(before, event) is Some ==> ({
            let result = match (before.stage, event) {
                (Stage::CommittingResult(_, _, result), _) => result,
                (Stage::Recording(..), Happening::Recorded(result)) => result,
                (Stage::Calling(..), Happening::ToolReturned(result)) => result,
                (Stage::Refusing(_, _, result), _) => result,
                _ => arbitrary(),
            };
            after.messages == before.messages.push(result_message(result))
        }),
        before.stage is Requesting && event is ProviderFailed ==> after.messages
            == before.messages,
        settles_call(before, event) is None && !(before.stage is Requesting) && !(
        before.stage is Settling) && !(before.stage is CommittingAssistant) ==> after.messages
            == before.messages,
        before.stage matches Stage::CommittingAssistant(message) ==> event == Happening::Done
            ==> after.messages == before.messages.push(message),
{
    reveal(entered);
    reveal(resolved);
    reveal(returned);
    reveal(answered);
}

/// What the owner reads of an error is what was wrong: the words of the provider with their
/// kind, and those of a tool or of a halt as they came; and what could not be kept is told by
/// what it is.
pub proof fn errors_say_what_was_wrong(error: TurnError, text: String)
    requires
        call_ensures(TurnError::render, (&error,), text),
    ensures
        error matches TurnError::Provider(failure) ==> crate::text::occurs(text@, failure.kind@)
            && crate::text::occurs(text@, failure.text@),
        error matches TurnError::Tool(told) ==> text@ == told@,
        error matches TurnError::Halted(told) ==> text@ == told@,
        error matches TurnError::Unprepared(told) ==> text@ == told@,
        error is Evidence ==> text@
            == "could not retain tool evidence; do not replay the effect"@,
        error is Settlement ==> text@
            == "could not settle provider usage; reservation remains charged"@,
        error is ResultCommit ==> text@ == "could not commit tool result"@,
        error is AssistantCommit ==> text@ == "could not commit assistant tool request"@,
        error is StepCommit ==> text@ == "could not commit operation step"@,
{
    if let TurnError::Provider(failure) = error {
        let nothing = Seq::<char>::empty();
        let front = "provider "@ + failure.kind@ + ": "@;
        crate::text::parts_occur("provider "@, failure.kind@, ": "@);
        crate::text::longer_texts_hold_the_same(front, failure.text@, failure.kind@);
        assert(text@ =~= front + failure.text@ + nothing);
        crate::text::parts_occur(front, failure.text@, nothing);
    }
}

/// A step ends the turn for its failures only where the guard reached one of its limits.
/// After the last call of a batch it asks the provider again wherever rounds are left and
/// no limit was reached.
pub proof fn steps_stop_for_cause(turn: &mut Turn, event: TurnEvent, step: Step)
    requires
        sound(old(turn)@),
        call_ensures(Turn::step, (turn, event), step),
    ensures
        step.action == TurnAction::Finish(TurnOutcome::Failed(TurnError::Stopped))
            ==> final(turn)@.progress.stopped,
        settles_call(old(turn)@, event@) matches Some((calls, at)) ==> at + 1 == calls.len() ==> {
            &&& !final(turn)@.progress.stopped && old(turn)@.rounds < old(turn)@.round_limit
                ==> step.action == TurnAction::Prepare
            &&& final(turn)@.progress.stopped ==> step.action == TurnAction::Finish(
                TurnOutcome::Failed(TurnError::Stopped),
            )
        },
{
    turns_stop_for_cause(old(turn)@, event@, final(turn)@, step.notices@, step.action);
    if let Some((calls, at)) = settles_call(old(turn)@, event@) {
        if at + 1 == calls.len() {
            batches_go_on(old(turn)@, event@, final(turn)@, step.notices@, step.action);
        }
    }
}

/// A turn begins with the conversation as it is and nothing spent. It does not begin
/// without rounds, nor where the conversation's own results already stop it.
pub proof fn turns_begin_with_the_conversation(
    messages: &Vec<Message>,
    round_limit: usize,
    services: TurnServices,
    turn: Result<Turn, TurnError>,
)
    requires
        call_ensures(Turn::start, (messages, round_limit, services), turn),
    ensures
        turn is Ok <==> round_limit > 0 && !of_history(message_views(messages@)).stopped,
        turn matches Ok(begun) ==> {
            &&& begun@.messages == message_views(messages@)
            &&& begun@.rounds == 0
            &&& begun@.round_limit == round_limit
            &&& begun@.services == services
            &&& begun@.stage == Stage::Preparing
            &&& begun@.deltas.requests.len() == 0
        },
        round_limit == 0 ==> turn == Err::<Turn, TurnError>(TurnError::NoRounds),
{
}

/// What a provider says meanwhile is passed on as it is, and what it reports counts for the
/// request that is under way and for no earlier one. Neither moves the turn.
pub proof fn deltas_move_nothing(
    saying: &mut Turn,
    text: &str,
    now: u64,
    event: DeltaEvent,
    reporting: &mut Turn,
    usage: ProviderUsage,
)
    requires
        call_ensures(Turn::text_delta, (saying, text, now), event),
        call_ensures(Turn::report, (reporting, usage), ()),
    ensures
        event matches DeltaEvent::Text(held) && held@ == text@,
        final(saying)@.stage == old(saying)@.stage,
        final(saying)@.messages == old(saying)@.messages,
        final(saying)@.rounds == old(saying)@.rounds,
        final(saying)@.progress == old(saying)@.progress,
        final(saying)@.deltas.requests == old(saying)@.deltas.requests,
        old(saying)@.deltas.first_delta is Some ==> final(saying)@.deltas.first_delta == old(saying)@.deltas.first_delta,
        final(reporting)@.stage == old(reporting)@.stage,
        final(reporting)@.messages == old(reporting)@.messages,
        final(reporting)@.progress == old(reporting)@.progress,
        final(reporting)@.deltas.requests.len() == old(reporting)@.deltas.requests.len(),
        old(reporting)@.deltas.requests.len() > 0 ==> final(reporting)@.deltas.requests.last()
            == Some(usage),
        forall|i: int|
            0 <= i < old(reporting)@.deltas.requests.len() - 1
                ==> final(reporting)@.deltas.requests[i]
                == #[trigger] old(reporting)@.deltas.requests[i],
{
}

}
