//! Cancelling remote tasks that nobody waits for any more.

use crate::a2a::validation::{states_are_told_apart, A2aWireError, TaskState};
use crate::text::{copy_option, debug_text, option_view, quoted, text_eq};
use vstd::prelude::*;
use vstd::string::*;

verus! {

/// What is kept of a cancellation: the state of the task and of the request.
pub open spec fn status_of(outcome: Result<bool, A2aWireError>) -> (Seq<char>, Seq<char>) {
    match outcome {
        Ok(true) => ("canceled"@, "confirmed"@),
        Ok(false) => ("detached_unknown"@, "failed"@),
        Err(A2aWireError::TimedOut) => ("detached_unknown"@, "timed_out"@),
        Err(A2aWireError::Cancelled) => ("detached_unknown"@, "unknown"@),
        Err(_) => ("detached_unknown"@, "failed"@),
    }
}

/// What is kept of a cancellation: the state of the task and of the request.
pub fn cancellation_status(outcome: &Result<bool, A2aWireError>) -> (status: (
    &'static str,
    &'static str,
))
    ensures
        (status.0@, status.1@) == status_of(*outcome),
{
    match outcome {
        Ok(true) => ("canceled", "confirmed"),
        Ok(false) => ("detached_unknown", "failed"),
        Err(A2aWireError::TimedOut) => ("detached_unknown", "timed_out"),
        Err(A2aWireError::Cancelled) => ("detached_unknown", "unknown"),
        Err(_) => ("detached_unknown", "failed"),
    }
}

/// What is to be done next for a dropped task.
#[derive(Clone, Copy, PartialEq, Eq, Debug)]
pub enum CleanupAction {
    /// Keep this state of the task and of the request, then say whether that
    /// worked.
    Record { state: &'static str, remote_cancel: &'static str },
    /// Find room for the request, then say whether there is any.
    Schedule,
    /// Ask the agent to cancel, then say what came of it.
    Cancel,
    /// Nothing is left to do.
    Finish,
}

/// What observers are told of a dropped task.
#[derive(Clone, Copy, PartialEq, Eq, Structural, Debug)]
pub enum CleanupNotice {
    CancellationRequested,
    Detached,
}

/// What happened since the latest action.
#[derive(Clone, Copy, PartialEq, Eq, Debug)]
pub enum CleanupEvent {
    Recorded(bool),
    Scheduled(bool),
    Replied(Result<bool, A2aWireError>),
}

/// Where the cleanup of a dropped task stands.
#[derive(Clone, Copy, PartialEq, Eq, Structural, Debug)]
pub enum CleanupStage {
    /// The intent is being kept.
    Intending,
    /// Room for the request is being looked for.
    Scheduling,
    /// The request is under way.
    Cancelling,
    /// The outcome is being kept; whether it is confirmed.
    Settling(bool),
    /// That there was no room is being kept.
    Abandoning,
    Over,
}

/// The cleanup of one dropped task.
#[derive(Clone, Copy, PartialEq, Eq, Debug)]
pub struct RemoteCancellation {
    pub stage: CleanupStage,
}

/// How a cleanup moves on one event.
pub open spec fn cleanup_moves(
    before: CleanupStage,
    event: CleanupEvent,
    after: CleanupStage,
    notice: Option<CleanupNotice>,
    action: CleanupAction,
) -> bool {
    match (before, event) {
        (CleanupStage::Intending, CleanupEvent::Recorded(true)) => {
            &&& after == CleanupStage::Scheduling
            &&& notice == Some(CleanupNotice::CancellationRequested)
            &&& action == CleanupAction::Schedule
        },
        (CleanupStage::Intending, CleanupEvent::Recorded(false)) => {
            &&& after == CleanupStage::Over
            &&& notice == Some(CleanupNotice::Detached)
            &&& action == CleanupAction::Finish
        },
        (CleanupStage::Scheduling, CleanupEvent::Scheduled(true)) => {
            &&& after == CleanupStage::Cancelling
            &&& notice is None
            &&& action == CleanupAction::Cancel
        },
        (CleanupStage::Scheduling, CleanupEvent::Scheduled(false)) => {
            &&& after == CleanupStage::Abandoning
            &&& notice is None
            &&& action matches CleanupAction::Record { state, remote_cancel }
            &&& state@ == "detached_unknown"@
            &&& remote_cancel@ == "not_scheduled"@
        },
        (CleanupStage::Abandoning, CleanupEvent::Recorded(_)) => {
            &&& after == CleanupStage::Over
            &&& notice == Some(CleanupNotice::Detached)
            &&& action == CleanupAction::Finish
        },
        (CleanupStage::Cancelling, CleanupEvent::Replied(outcome)) => {
            &&& after == CleanupStage::Settling(outcome == Ok::<bool, A2aWireError>(true))
            &&& notice is None
            &&& action matches CleanupAction::Record { state, remote_cancel }
            &&& (state@, remote_cancel@) == status_of(outcome)
        },
        (CleanupStage::Settling(confirmed), CleanupEvent::Recorded(kept)) => {
            &&& after == CleanupStage::Over
            &&& notice == (if confirmed && kept {
                None
            } else {
                Some(CleanupNotice::Detached)
            })
            &&& action == CleanupAction::Finish
        },
        _ => {
            &&& after == before
            &&& notice is None
            &&& action == CleanupAction::Finish
        },
    }
}

impl RemoteCancellation {
    /// Starts the cleanup of a task: the intent to cancel is kept first.
    pub fn new() -> (started: (RemoteCancellation, CleanupAction))
        ensures
            started.0.stage == CleanupStage::Intending,
            started.1 matches CleanupAction::Record { state, remote_cancel } && state@
                == "detached_unknown"@ && remote_cancel@ == "requested_unconfirmed"@,
    {
        (
            RemoteCancellation { stage: CleanupStage::Intending },
            CleanupAction::Record {
                state: "detached_unknown",
                remote_cancel: "requested_unconfirmed",
            },
        )
    }

    /// Moves the cleanup on what happened outside.
    pub fn step(&mut self, event: CleanupEvent) -> (next: (Option<CleanupNotice>, CleanupAction))
        ensures
            cleanup_moves(old(self).stage, event, final(self).stage, next.0, next.1),
    {
        match (self.stage, event) {
            (CleanupStage::Intending, CleanupEvent::Recorded(true)) => {
                self.stage = CleanupStage::Scheduling;
                (Some(CleanupNotice::CancellationRequested), CleanupAction::Schedule)
            },
            (CleanupStage::Intending, CleanupEvent::Recorded(false)) => {
                self.stage = CleanupStage::Over;
                (Some(CleanupNotice::Detached), CleanupAction::Finish)
            },
            (CleanupStage::Scheduling, CleanupEvent::Scheduled(true)) => {
                self.stage = CleanupStage::Cancelling;
                (None, CleanupAction::Cancel)
            },
            (CleanupStage::Scheduling, CleanupEvent::Scheduled(false)) => {
                self.stage = CleanupStage::Abandoning;
                (
                    None,
                    CleanupAction::Record {
                        state: "detached_unknown",
                        remote_cancel: "not_scheduled",
                    },
                )
            },
            (CleanupStage::Abandoning, CleanupEvent::Recorded(_)) => {
                self.stage = CleanupStage::Over;
                (Some(CleanupNotice::Detached), CleanupAction::Finish)
            },
            (CleanupStage::Cancelling, CleanupEvent::Replied(outcome)) => {
                let confirmed = match outcome {
                    Ok(confirmed) => confirmed,
                    Err(_) => false,
                };
                let (state, remote_cancel) = cancellation_status(&outcome);
                self.stage = CleanupStage::Settling(confirmed);
                (None, CleanupAction::Record { state, remote_cancel })
            },
            (CleanupStage::Settling(confirmed), CleanupEvent::Recorded(kept)) => {
                self.stage = CleanupStage::Over;
                if confirmed && kept {
                    (None, CleanupAction::Finish)
                } else {
                    (Some(CleanupNotice::Detached), CleanupAction::Finish)
                }
            },
            _ => (None, CleanupAction::Finish),
        }
    }
}

/// No agent is asked to cancel unless the intent to do so was kept first: the
/// request only ever follows a kept intent and found room.
pub proof fn intent_comes_before_the_request(
    before: CleanupStage,
    event: CleanupEvent,
    after: CleanupStage,
    notice: Option<CleanupNotice>,
    action: CleanupAction,
)
    requires
        cleanup_moves(before, event, after, notice, action),
    ensures
        action == CleanupAction::Cancel ==> before == CleanupStage::Scheduling,
        after == CleanupStage::Scheduling && before != after ==> before == CleanupStage::Intending
            && event == CleanupEvent::Recorded(true),
{
}

/// The task that a running exchange is responsible for.
#[derive(Debug, PartialEq, Eq)]
pub struct RemoteTaskLease {
    task_id: Option<String>,
}

impl RemoteTaskLease {
    /// The task that is to be canceled if the exchange is dropped now.
    pub closed spec fn held(&self) -> Option<Seq<char>> {
        option_view(self.task_id)
    }

    /// A lease on no task.
    pub fn new() -> (lease: RemoteTaskLease)
        ensures
            lease.held() is None,
    {
        RemoteTaskLease { task_id: None }
    }

    /// Takes responsibility for a task; the first one stays.
    pub fn arm(&mut self, task_id: String)
        ensures
            final(self).held() == (match old(self).held() {
                Some(held) => Some(held),
                None => Some(task_id@),
            }),
    {
        if self.task_id.is_none() {
            self.task_id = Some(task_id);
        }
    }

    /// Gives the responsibility up.
    pub fn disarm(&mut self)
        ensures
            final(self).held() is None,
    {
        self.task_id = None;
    }

    /// The task to cancel when the exchange is dropped; nothing is left after.
    pub fn release(&mut self) -> (task: Option<String>)
        ensures
            option_view(task) == old(self).held(),
            final(self).held() is None,
    {
        let task = copy_option(&self.task_id);
        self.task_id = None;
        task
    }
}

/// A task that is kept track of.
#[derive(Debug, PartialEq, Eq)]
pub struct TrackedTask {
    pub agent_identity_digest: String,
    pub state: String,
    pub context_id: Option<String>,
}

/// A record of a task to be kept.
#[derive(Debug, PartialEq, Eq)]
pub struct TaskRecord {
    pub context_id: Option<String>,
    pub state: String,
    pub remote_cancel: &'static str,
}

pub const OBSOLETE_IDENTITY: &'static str = "external task belongs to an obsolete agent identity and cannot be contacted";

pub const UNCONFIRMED: &'static str = "remote cancellation could not be confirmed";

/// Whether the agent is done with a task in this state.
pub open spec fn terminal(state: Seq<char>) -> bool {
    state == "completed"@ || state == "failed"@ || state == "canceled"@ || state == "rejected"@
}

/// Decides whether a known task can be canceled, and what is kept before the
/// agent is asked.
pub fn cancel_tracked_task(known: &Option<TrackedTask>, trusted_digest: &str, task_id: &str) -> (
    intent: Result<TaskRecord, String>)
    ensures
        match *known {
            None => intent matches Err(text) && text@ == "external task "@ + debug_text(task_id@)
                + " is not tracked by Xana"@,
            Some(task) => if task.agent_identity_digest@ != trusted_digest@ {
                intent matches Err(text) && text@ == OBSOLETE_IDENTITY@
            } else if terminal(task.state@) {
                intent matches Err(text) && text@ == "external task is already terminal ("@
                    + task.state@ + ")"@
            } else {
                intent matches Ok(record) && option_view(record.context_id) == option_view(
                    task.context_id,
                ) && record.state@ == "detached_unknown"@ && record.remote_cancel@
                    == "requested_unconfirmed"@
            },
        },
{
    let task = match known {
        Some(task) => task,
        None => {
            let mut text = "external task ".to_owned();
            text.append(quoted(task_id).as_str());
            text.append(" is not tracked by Xana");
            return Err(text);
        },
    };
    if !text_eq(task.agent_identity_digest.as_str(), trusted_digest) {
        return Err(OBSOLETE_IDENTITY.to_owned());
    }
    let state = task.state.as_str();
    if text_eq(state, "completed") || text_eq(state, "failed") || text_eq(state, "canceled")
        || text_eq(state, "rejected") {
        let mut text = "external task is already terminal (".to_owned();
        text.append(state);
        text.append(")");
        return Err(text);
    }
    Ok(
        TaskRecord {
            context_id: copy_option(&task.context_id),
            state: "detached_unknown".to_owned(),
            remote_cancel: "requested_unconfirmed",
        },
    )
}

/// What is kept once the agent was asked to cancel a known task.
pub fn settle_tracked_task(task: &TrackedTask, outcome: &Result<bool, A2aWireError>) -> (record:
    Result<TaskRecord, String>)
    ensures
        match *outcome {
            Ok(true) => record matches Ok(record) && option_view(record.context_id) == option_view(
                task.context_id,
            ) && record.state@ == "canceled"@ && record.remote_cancel@ == "confirmed"@,
            Ok(false) => record matches Ok(record) && option_view(record.context_id)
                == option_view(task.context_id) && record.state@ == task.state@
                && record.remote_cancel@ == "failed"@,
            Err(_) => record matches Err(text) && text@ == UNCONFIRMED@,
        },
{
    match outcome {
        Ok(true) => Ok(
            TaskRecord {
                context_id: copy_option(&task.context_id),
                state: "canceled".to_owned(),
                remote_cancel: "confirmed",
            },
        ),
        Ok(false) => Ok(
            TaskRecord {
                context_id: copy_option(&task.context_id),
                state: task.state.clone(),
                remote_cancel: "failed",
            },
        ),
        Err(_) => Err(UNCONFIRMED.to_owned()),
    }
}

/// A task is kept as canceled, and the request as confirmed, only where the agent
/// confirmed it; in every other case nothing is known of the task.
pub proof fn only_confirmed_tasks_are_canceled(outcome: Result<bool, A2aWireError>)
    ensures
        outcome == Ok::<bool, A2aWireError>(true) <==> status_of(outcome).0 == "canceled"@,
        outcome == Ok::<bool, A2aWireError>(true) <==> status_of(outcome).1 == "confirmed"@,
        outcome != Ok::<bool, A2aWireError>(true) ==> status_of(outcome).0 == "detached_unknown"@,
        outcome == Err::<bool, A2aWireError>(A2aWireError::TimedOut) <==> status_of(outcome).1
            == "timed_out"@,
{
    reveal_strlit("canceled");
    reveal_strlit("confirmed");
    reveal_strlit("detached_unknown");
    reveal_strlit("timed_out");
    reveal_strlit("failed");
    reveal_strlit("unknown");
    assert("detached_unknown"@[0] != "canceled"@[0]);
    assert("failed"@[0] != "confirmed"@[0]);
    assert("timed_out"@[0] != "confirmed"@[0]);
    assert("unknown"@[0] != "confirmed"@[0]);
    assert("failed"@[0] != "timed_out"@[0]);
    assert("unknown"@[0] != "timed_out"@[0]);
}

/// The states in which nothing is left to cancel are those that an agent is done in.
pub proof fn finished_tasks_are_terminal(state: TaskState)
    ensures
        terminal(state.name()) <==> {
            ||| state == TaskState::Completed
            ||| state == TaskState::Failed
            ||| state == TaskState::Canceled
            ||| state == TaskState::Rejected
        },
{
    names_stand_for_states(state);
}

proof fn names_stand_for_states(state: TaskState)
    ensures
        state.name() == "completed"@ ==> state == TaskState::Completed,
        state.name() == "failed"@ ==> state == TaskState::Failed,
        state.name() == "canceled"@ ==> state == TaskState::Canceled,
        state.name() == "rejected"@ ==> state == TaskState::Rejected,
{
    states_are_told_apart(
        Seq::empty(),
        Seq::empty(),
        state,
        TaskState::Completed,
    );
    states_are_told_apart(
        Seq::empty(),
        Seq::empty(),
        state,
        TaskState::Failed,
    );
    states_are_told_apart(
        Seq::empty(),
        Seq::empty(),
        state,
        TaskState::Canceled,
    );
    states_are_told_apart(
        Seq::empty(),
        Seq::empty(),
        state,
        TaskState::Rejected,
    );
}

/// A task is canceled only where it is tracked, was made under the identity that is still
/// trusted, and is not over. What is kept before the agent is asked claims nothing of the
/// task, and keeps its context.
pub proof fn tracked_tasks_are_canceled_for_cause(
    known: &Option<TrackedTask>,
    trusted_digest: &str,
    task_id: &str,
    intent: Result<TaskRecord, String>,
)
    requires
        call_ensures(cancel_tracked_task, (known, trusted_digest, task_id), intent),
    ensures
        intent is Ok <==> (*known is Some && (*known)->0.agent_identity_digest@ == trusted_digest@
            && !terminal((*known)->0.state@)),
        intent matches Ok(record) ==> {
            &&& option_view(record.context_id) == option_view((*known)->0.context_id)
            &&& record.state@ != "canceled"@
            &&& record.remote_cancel@ != "confirmed"@
        },
        *known is None ==> intent is Err,
{
    reveal_strlit("canceled");
    reveal_strlit("confirmed");
    reveal_strlit("detached_unknown");
    reveal_strlit("requested_unconfirmed");
    assert("detached_unknown"@[0] != "canceled"@[0]);
    assert("requested_unconfirmed"@[0] != "confirmed"@[0]);
}

/// A task is kept as canceled where the agent confirmed it. An agent that did not leaves
/// the task in its state, and one that could not be asked leaves the record as it is.
pub proof fn answers_settle_tracked_tasks(
    task: &TrackedTask,
    outcome: &Result<bool, A2aWireError>,
    record: Result<TaskRecord, String>,
)
    requires
        call_ensures(settle_tracked_task, (task, outcome), record),
    ensures
        *outcome is Err <==> record is Err,
        record matches Ok(kept) ==> {
            &&& option_view(kept.context_id) == option_view(task.context_id)
            &&& kept.remote_cancel@ == "confirmed"@ <==> *outcome == Ok::<bool, A2aWireError>(true)
            &&& *outcome == Ok::<bool, A2aWireError>(true) ==> kept.state@ == "canceled"@
            &&& *outcome == Ok::<bool, A2aWireError>(false) ==> kept.state@ == task.state@
        },
{
    reveal_strlit("failed");
    reveal_strlit("confirmed");
    assert("failed"@[0] != "confirmed"@[0]);
}

/// A lease holds the first task that it was armed with until it is given up, and hands it
/// out once.
pub proof fn leases_hold_the_first_task(
    arming: &mut RemoteTaskLease,
    task_id: String,
    disarming: &mut RemoteTaskLease,
    releasing: &mut RemoteTaskLease,
    task: Option<String>,
)
    requires
        call_ensures(RemoteTaskLease::arm, (arming, task_id), ()),
        call_ensures(RemoteTaskLease::disarm, (disarming,), ()),
        call_ensures(RemoteTaskLease::release, (releasing,), task),
    ensures
        final(arming).held() is Some,
        old(arming).held() is Some ==> final(arming).held() == old(arming).held(),
        old(arming).held() is None ==> final(arming).held() == Some(task_id@),
        final(disarming).held() is None,
        final(releasing).held() is None,
        task is Some <==> old(releasing).held() is Some,
        task matches Some(handed) ==> old(releasing).held() == Some(handed@),
{
}

}
