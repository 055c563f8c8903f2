//! Preparing a task: everything about it is resolved and checked before it is
//! kept.

use crate::autonomy::{
    admit_authority, admit_first, admit_route, asks_action, asks_schedule, asks_trigger,
    authorizes, choose_action, choose_schedule, choose_trigger, Schedule, TaskAction, TaskError,
    TriggerKind, TriggerRequest, LATE_FIRST, ROUTE_CHANGED,
};
use crate::text::copy_option;
use vstd::prelude::*;

verus! {

/// A task that is asked for.
#[derive(Debug, PartialEq, Eq)]
pub struct TaskRequest {
    pub name: String,
    pub authorize: bool,
    pub expires: String,
    pub reviewed_route: Option<String>,
    pub reminder: Option<String>,
    pub prompt: Option<String>,
    pub workspace_reads: bool,
    pub watch_root: Option<String>,
    pub run: Option<String>,
    pub credential: Option<String>,
    pub at: Option<String>,
    pub daily: Option<String>,
    pub timezone: Option<String>,
}

/// A task that can be kept.
#[derive(Debug, PartialEq, Eq)]
pub struct PreparedTask {
    pub name: String,
    pub revision: u64,
    pub authorized: bool,
    pub action: TaskAction,
    pub trigger: Option<TriggerKind>,
    pub schedule: Schedule,
    pub expires_at: i64,
    /// When it first runs.
    pub next: i64,
    /// Before when it does not run.
    pub not_before: i64,
    pub pause_after_run: bool,
}

/// Why a task is not prepared.
#[derive(Debug, PartialEq, Eq)]
pub enum PreparationError {
    Task(TaskError),
    /// Something outside refused it.
    Outside(String),
}

/// What is done next.
#[derive(Debug, PartialEq, Eq)]
pub enum PreparationWork {
    /// Resolve what the task may touch.
    ResolveScope,
    /// Take a first look at what starts the task.
    MakeTrigger(TriggerRequest),
    /// Find the first instant of a schedule, from now.
    FindFirst(Schedule),
    Ready(PreparedTask),
    Fail(PreparationError),
    Ignore,
}

/// What came of it.
#[derive(Debug, PartialEq, Eq)]
pub enum PreparationEvent {
    /// The scope is resolved; this is the digest of its configuration.
    Scope { digest: String },
    TriggerMade,
    First { at: i64 },
    Failed(String),
}

/// What is known of the task so far.
#[derive(Debug, PartialEq, Eq)]
pub enum PreparationStage {
    Scoping { expires_at: i64 },
    Triggering { expires_at: i64, action: TaskAction, kind: TriggerKind },
    Scheduling {
        expires_at: i64,
        action: TaskAction,
        trigger: Option<TriggerKind>,
        schedule: Schedule,
    },
    Over,
}

/// The parts of a request that say when it runs.
#[derive(Debug, PartialEq, Eq)]
pub struct Timing {
    pub at: Option<String>,
    pub daily: Option<String>,
    pub timezone: Option<String>,
}

/// The parts of a request that are read once its scope is known.
#[derive(Debug, PartialEq, Eq)]
pub struct Wishes {
    pub reviewed_route: Option<String>,
    pub reminder: Option<String>,
    pub prompt: Option<String>,
    pub workspace_reads: bool,
    pub watch_root: Option<String>,
    pub run: Option<String>,
    pub credential: Option<String>,
}

/// A task that is being prepared.
#[derive(Debug, PartialEq, Eq)]
pub struct Preparation {
    pub name: String,
    pub wishes: Wishes,
    pub timing: Timing,
    pub stage: PreparationStage,
}

/// Whether work is a failure for what is wrong with the task.
pub open spec fn task_failed(work: PreparationWork, error: TaskError) -> bool {
    work == PreparationWork::Fail(PreparationError::Task(error))
}

/// How a preparation begins: nothing is resolved without authority.
pub open spec fn begins(
    request: TaskRequest,
    now: i64,
    preparation: Preparation,
    work: PreparationWork,
) -> bool {
    &&& preparation.name == request.name
    &&& preparation.wishes == (Wishes {
        reviewed_route: request.reviewed_route,
        reminder: request.reminder,
        prompt: request.prompt,
        workspace_reads: request.workspace_reads,
        watch_root: request.watch_root,
        run: request.run,
        credential: request.credential,
    })
    &&& preparation.timing == (Timing {
        at: request.at,
        daily: request.daily,
        timezone: request.timezone,
    })
    &&& exists|expires_at: Result<i64, TaskError>|
        {
            &&& #[trigger] authorizes(request.authorize, request.expires@, now, expires_at)
            &&& match expires_at {
                Ok(expires_at) => {
                    &&& preparation.stage == (PreparationStage::Scoping { expires_at })
                    &&& work == PreparationWork::ResolveScope
                },
                Err(error) => preparation.stage is Over && task_failed(work, error),
            }
        }
}

/// The kind of a trigger.
pub open spec fn kind_of(request: TriggerRequest) -> TriggerKind {
    match request {
        TriggerRequest::Files { .. } => TriggerKind::Files,
        TriggerRequest::Run { .. } => TriggerKind::Run,
    }
}

/// The preparation at another stage.
pub open spec fn at_stage(before: Preparation, stage: PreparationStage) -> Preparation {
    Preparation { stage, ..before }
}

/// How a preparation schedules its action.
pub open spec fn schedules(
    before: Preparation,
    expires_at: i64,
    action: TaskAction,
    trigger: Option<TriggerKind>,
    after: Preparation,
    work: PreparationWork,
) -> bool {
    exists|schedule: Result<Schedule, TaskError>|
        {
            &&& #[trigger] asks_schedule(
                before.timing.at,
                before.timing.daily,
                before.timing.timezone,
                trigger,
                schedule,
            )
            &&& match schedule {
                Ok(schedule) => {
                    &&& after == at_stage(
                        before,
                        PreparationStage::Scheduling { expires_at, action, trigger, schedule },
                    )
                    &&& work == PreparationWork::FindFirst(schedule)
                },
                Err(error) => after == at_stage(before, PreparationStage::Over) && task_failed(
                    work,
                    error,
                ),
            }
        }
}

/// How a preparation goes on with its action: with its trigger, or with its
/// schedule.
pub open spec fn starts(
    before: Preparation,
    expires_at: i64,
    action: TaskAction,
    trigger: Result<Option<TriggerRequest>, TaskError>,
    after: Preparation,
    work: PreparationWork,
) -> bool {
    match trigger {
        Err(error) => after == at_stage(before, PreparationStage::Over) && task_failed(work, error),
        Ok(Some(request)) => {
            &&& after == at_stage(
                before,
                PreparationStage::Triggering { expires_at, action, kind: kind_of(request) },
            )
            &&& work == PreparationWork::MakeTrigger(request)
        },
        Ok(None) => schedules(before, expires_at, action, None, after, work),
    }
}

/// How a preparation goes on in a known scope.
pub open spec fn scoped(
    before: Preparation,
    expires_at: i64,
    digest: Seq<char>,
    after: Preparation,
    work: PreparationWork,
) -> bool {
    let wishes = before.wishes;
    if wishes.reviewed_route matches Some(reviewed) && reviewed@ != digest {
        &&& after == at_stage(before, PreparationStage::Over)
        &&& work matches PreparationWork::Fail(PreparationError::Task(TaskError::Refused(text)))
        &&& text@ == ROUTE_CHANGED@
    } else {
        exists|action: Result<TaskAction, TaskError>|
            {
                &&& #[trigger] asks_action(
                    wishes.reminder,
                    wishes.prompt,
                    wishes.workspace_reads,
                    action,
                )
                &&& match action {
                    Err(error) => after == at_stage(before, PreparationStage::Over)
                        && task_failed(work, error),
                    Ok(action) => exists|trigger: Result<Option<TriggerRequest>, TaskError>|
                        {
                            &&& #[trigger] asks_trigger(
                                wishes.watch_root,
                                wishes.run,
                                wishes.credential,
                                trigger,
                            )
                            &&& starts(before, expires_at, action, trigger, after, work)
                        },
                }
            }
    }
}

/// The first revision of an authorized task, which runs no earlier than it first
/// does and does not pause after it ran.
pub open spec fn prepared(
    name: String,
    action: TaskAction,
    trigger: Option<TriggerKind>,
    schedule: Schedule,
    expires_at: i64,
    next: i64,
) -> PreparedTask {
    PreparedTask {
        name,
        revision: 1,
        authorized: true,
        action,
        trigger,
        schedule,
        expires_at,
        next,
        not_before: next,
        pause_after_run: false,
    }
}

/// How a preparation moves on what came of its work.
pub open spec fn preparation_moves(
    before: Preparation,
    event: PreparationEvent,
    after: Preparation,
    work: PreparationWork,
) -> bool {
    match (before.stage, event) {
        (PreparationStage::Over, _) => after == before && work == PreparationWork::Ignore,
        (_, PreparationEvent::Failed(text)) => {
            &&& after == at_stage(before, PreparationStage::Over)
            &&& work == PreparationWork::Fail(PreparationError::Outside(text))
        },
        (PreparationStage::Scoping { expires_at }, PreparationEvent::Scope { digest }) => scoped(
            before,
            expires_at,
            digest@,
            after,
            work,
        ),
        (
            PreparationStage::Triggering { expires_at, action, kind },
            PreparationEvent::TriggerMade,
        ) => schedules(before, expires_at, action, Some(kind), after, work),
        (
            PreparationStage::Scheduling { expires_at, action, trigger, schedule },
            PreparationEvent::First { at },
        ) => {
            &&& after == at_stage(before, PreparationStage::Over)
            &&& if at < expires_at {
                work == PreparationWork::Ready(
                    prepared(before.name, action, trigger, schedule, expires_at, at),
                )
            } else {
                &&& work matches PreparationWork::Fail(
                    PreparationError::Task(TaskError::Refused(text)),
                )
                &&& text@ == LATE_FIRST@
            }
        },
        _ => after == before && work == PreparationWork::Ignore,
    }
}

impl Preparation {
    /// Begins to prepare a task.
    pub fn start(request: TaskRequest, now: i64) -> (begun: (Preparation, PreparationWork))
        ensures
            begins(request, now, begun.0, begun.1),
    {
        let admitted = admit_authority(request.authorize, request.expires.as_str(), now);
        let ghost made = admitted;
        assert(authorizes(request.authorize, request.expires@, now, made));
        let (stage, work) = match admitted {
            Ok(expires_at) => (
                PreparationStage::Scoping { expires_at },
                PreparationWork::ResolveScope,
            ),
            Err(error) => (
                PreparationStage::Over,
                PreparationWork::Fail(PreparationError::Task(error)),
            ),
        };
        (
            Preparation {
                name: request.name,
                wishes: Wishes {
                    reviewed_route: request.reviewed_route,
                    reminder: request.reminder,
                    prompt: request.prompt,
                    workspace_reads: request.workspace_reads,
                    watch_root: request.watch_root,
                    run: request.run,
                    credential: request.credential,
                },
                timing: Timing {
                    at: request.at,
                    daily: request.daily,
                    timezone: request.timezone,
                },
                stage,
            },
            work,
        )
    }

    fn fail(&mut self, error: TaskError) -> (work: PreparationWork)
        ensures
            *final(self) == at_stage(*old(self), PreparationStage::Over),
            task_failed(work, error),
    {
        self.stage = PreparationStage::Over;
        PreparationWork::Fail(PreparationError::Task(error))
    }

    fn schedule(&mut self, expires_at: i64, action: TaskAction, trigger: Option<TriggerKind>) -> (work:
        PreparationWork)
        ensures
            schedules(*old(self), expires_at, action, trigger, *final(self), work),
    {
        let chosen = choose_schedule(
            copy_option(&self.timing.at),
            copy_option(&self.timing.daily),
            copy_option(&self.timing.timezone),
            trigger,
        );
        let ghost made = chosen;
        assert(asks_schedule(
            self.timing.at,
            self.timing.daily,
            self.timing.timezone,
            trigger,
            made,
        ));
        match chosen {
            Ok(schedule) => {
                let copy = schedule.copy();
                self.stage = PreparationStage::Scheduling { expires_at, action, trigger, schedule };
                PreparationWork::FindFirst(copy)
            },
            Err(error) => self.fail(error),
        }
    }

    fn scope(&mut self, expires_at: i64, digest: &str) -> (work: PreparationWork)
        ensures
            scoped(*old(self), expires_at, digest@, *final(self), work),
    {
        match admit_route(&self.wishes.reviewed_route, digest) {
            Ok(_) => {},
            Err(error) => {
                return self.fail(error);
            },
        }
        let chosen = choose_action(
            copy_option(&self.wishes.reminder),
            copy_option(&self.wishes.prompt),
            self.wishes.workspace_reads,
        );
        let ghost made = chosen;
        assert(asks_action(
            self.wishes.reminder,
            self.wishes.prompt,
            self.wishes.workspace_reads,
            made,
        ));
        let action = match chosen {
            Ok(action) => action,
            Err(error) => {
                return self.fail(error);
            },
        };
        let started = choose_trigger(
            copy_option(&self.wishes.watch_root),
            copy_option(&self.wishes.run),
            copy_option(&self.wishes.credential),
        );
        let ghost begun = started;
        assert(asks_trigger(
            self.wishes.watch_root,
            self.wishes.run,
            self.wishes.credential,
            begun,
        ));
        match started {
            Err(error) => self.fail(error),
            Ok(Some(request)) => {
                let kind = match &request {
                    TriggerRequest::Files { .. } => TriggerKind::Files,
                    TriggerRequest::Run { .. } => TriggerKind::Run,
                };
                self.stage = PreparationStage::Triggering { expires_at, action, kind };
                PreparationWork::MakeTrigger(request)
            },
            Ok(None) => self.schedule(expires_at, action, None),
        }
    }

    /// Moves a preparation on what came of its work.
    pub fn step(&mut self, event: PreparationEvent) -> (work: PreparationWork)
        ensures
            preparation_moves(*old(self), event, *final(self), work),
    {
        let mut stage = PreparationStage::Over;
        core::mem::swap(&mut self.stage, &mut stage);
        let ghost before = *old(self);
        match (stage, event) {
            (PreparationStage::Over, _) => PreparationWork::Ignore,
            (_, PreparationEvent::Failed(text)) => PreparationWork::Fail(
                PreparationError::Outside(text),
            ),
            (PreparationStage::Scoping { expires_at }, PreparationEvent::Scope { digest }) => {
                let ghost idle = *self;
                let work = self.scope(expires_at, digest.as_str());
                proof {
                    scoping_starts_anywhere(before, idle, expires_at, digest@, *self, work);
                }
                work
            },
            (
                PreparationStage::Triggering { expires_at, action, kind },
                PreparationEvent::TriggerMade,
            ) => {
                let ghost idle = *self;
                let work = self.schedule(expires_at, action, Some(kind));
                proof {
                    scheduling_starts_anywhere(
                        before,
                        idle,
                        expires_at,
                        action,
                        Some(kind),
                        *self,
                        work,
                    );
                }
                work
            },
            (
                PreparationStage::Scheduling { expires_at, action, trigger, schedule },
                PreparationEvent::First { at },
            ) => match admit_first(at, expires_at) {
                Ok(_) => PreparationWork::Ready(
                    PreparedTask {
                        name: self.name.clone(),
                        revision: 1,
                        authorized: true,
                        action,
                        trigger,
                        schedule,
                        expires_at,
                        next: at,
                        not_before: at,
                        pause_after_run: false,
                    },
                ),
                Err(error) => self.fail(error),
            },
            (stage, _) => {
                self.stage = stage;
                PreparationWork::Ignore
            },
        }
    }
}

proof fn scheduling_starts_anywhere(
    before: Preparation,
    idle: Preparation,
    expires_at: i64,
    action: TaskAction,
    trigger: Option<TriggerKind>,
    after: Preparation,
    work: PreparationWork,
)
    requires
        idle == at_stage(before, idle.stage),
        schedules(idle, expires_at, action, trigger, after, work),
    ensures
        schedules(before, expires_at, action, trigger, after, work),
{
}

proof fn scoping_starts_anywhere(
    before: Preparation,
    idle: Preparation,
    expires_at: i64,
    digest: Seq<char>,
    after: Preparation,
    work: PreparationWork,
)
    requires
        idle == at_stage(before, idle.stage),
        scoped(idle, expires_at, digest, after, work),
    ensures
        scoped(before, expires_at, digest, after, work),
{
}

/// A task that is ready first runs before its authority ends, and its scope was
/// resolved: a preparation that just began is never ready.
pub proof fn ready_tasks_run_under_their_authority(
    before: Preparation,
    event: PreparationEvent,
    after: Preparation,
    work: PreparationWork,
)
    requires
        preparation_moves(before, event, after, work),
    ensures
        work matches PreparationWork::Ready(task) ==> task.next < task.expires_at && before.stage
            is Scheduling,
{
}

/// Nothing is resolved, looked at or scheduled for a task that was not authorized.
pub proof fn unauthorized_tasks_stop_at_once(
    request: TaskRequest,
    now: i64,
    preparation: Preparation,
    work: PreparationWork,
)
    requires
        !request.authorize,
        begins(request, now, preparation, work),
    ensures
        preparation.stage is Over,
        work is Fail,
{
}

/// A task that is ready is the one that was prepared, under the name that it was asked for
/// by: it does what was settled on, when that was settled on, until its authority ends, and
/// it starts as the first revision of an authorized task that goes on after it ran.
pub proof fn ready_tasks_are_those_prepared(
    before: Preparation,
    event: PreparationEvent,
    after: Preparation,
    work: PreparationWork,
)
    requires
        preparation_moves(before, event, after, work),
    ensures
        work matches PreparationWork::Ready(task) ==> {
            &&& task.name == before.name
            &&& task.revision == 1
            &&& task.authorized
            &&& !task.pause_after_run
            &&& event == (PreparationEvent::First { at: task.next })
            &&& task.not_before == task.next
            &&& before.stage == (PreparationStage::Scheduling {
                expires_at: task.expires_at,
                action: task.action,
                trigger: task.trigger,
                schedule: task.schedule,
            })
        },
        before.stage matches PreparationStage::Scheduling { expires_at, .. } ==> (event
            matches PreparationEvent::First { at } ==> (work is Ready <==> at < expires_at)),
        before.stage is Over ==> after == before && work is Ignore,
        work is Ready || work is Fail <==> after.stage is Over && before.stage !is Over,
        before.stage !is Over ==> (event matches PreparationEvent::Failed(text) ==> work
            == PreparationWork::Fail(PreparationError::Outside(text))),
        after.name == before.name && after.wishes == before.wishes && after.timing == before.timing,
{
}

/// A known scope leads to the action and the trigger that were asked for, and nowhere where
/// the reviewed route changed: a reminder says what was written, a native task asks what was
/// written and reads the workspace only where it was told to.
pub proof fn known_scopes_lead_to_what_was_asked(
    before: Preparation,
    digest: String,
    after: Preparation,
    work: PreparationWork,
)
    requires
        preparation_moves(before, PreparationEvent::Scope { digest }, after, work),
        before.stage is Scoping,
    ensures
        (before.wishes.reviewed_route matches Some(reviewed) && reviewed@ != digest@) ==> work
            is Fail,
        before.wishes.reminder is Some && before.wishes.prompt is Some ==> work is Fail,
        before.wishes.reminder is None && before.wishes.prompt is None ==> work is Fail,
        work matches PreparationWork::MakeTrigger(request) ==> {
            &&& request matches TriggerRequest::Files { root } ==> before.wishes.watch_root == Some(
                root,
            )
            &&& request matches TriggerRequest::Run { run, .. } ==> before.wishes.run == Some(run)
        },
        after.stage matches PreparationStage::Triggering { expires_at, action, kind } ==> {
            &&& before.stage == (PreparationStage::Scoping { expires_at })
            &&& action matches TaskAction::Reminder { text } ==> before.wishes.reminder == Some(
                text,
            )
            &&& action matches TaskAction::NativeTask { prompt, workspace_reads }
                ==> before.wishes.prompt == Some(prompt) && workspace_reads
                == before.wishes.workspace_reads
            &&& kind == TriggerKind::Files <==> before.wishes.watch_root is Some
        },
        after.stage matches PreparationStage::Scheduling { expires_at, action, trigger, schedule }
            ==> {
            &&& before.stage == (PreparationStage::Scoping { expires_at })
            &&& work == PreparationWork::FindFirst(schedule)
            &&& trigger is None
            &&& before.wishes.watch_root is None && before.wishes.run is None
            &&& action matches TaskAction::Reminder { text } ==> before.wishes.reminder == Some(
                text,
            )
            &&& action matches TaskAction::NativeTask { prompt, workspace_reads }
                ==> before.wishes.prompt == Some(prompt) && workspace_reads
                == before.wishes.workspace_reads
            &&& schedule !is Triggered
        },
{
}

/// A trigger that was made leads to the schedule of its kind, with the action that was
/// settled on before.
pub proof fn triggers_lead_to_their_schedule(
    before: Preparation,
    after: Preparation,
    work: PreparationWork,
)
    requires
        preparation_moves(before, PreparationEvent::TriggerMade, after, work),
        before.stage is Triggering,
    ensures
        after.stage matches PreparationStage::Scheduling { expires_at, action, trigger, schedule }
            ==> {
            &&& before.stage == (PreparationStage::Triggering {
                expires_at,
                action,
                kind: trigger->0,
            })
            &&& trigger is Some
            &&& work == PreparationWork::FindFirst(schedule)
            &&& schedule is Triggered
        },
        before.timing.at is Some || before.timing.daily is Some ==> work is Fail,
        before.timing.at is None && before.timing.daily is None && before.timing.timezone is None
            ==> work is FindFirst,
{
}

/// A request keeps everything that it asks for while it is prepared, and it is resolved
/// only where it was authorized until a later instant than now.
pub proof fn requests_are_kept(
    request: TaskRequest,
    now: i64,
    preparation: Preparation,
    work: PreparationWork,
)
    requires
        begins(request, now, preparation, work),
    ensures
        preparation.name == request.name,
        preparation.wishes.reminder == request.reminder,
        preparation.wishes.prompt == request.prompt,
        preparation.wishes.workspace_reads == request.workspace_reads,
        preparation.wishes.watch_root == request.watch_root,
        preparation.wishes.run == request.run,
        preparation.wishes.credential == request.credential,
        preparation.wishes.reviewed_route == request.reviewed_route,
        preparation.timing.at == request.at,
        preparation.timing.daily == request.daily,
        preparation.timing.timezone == request.timezone,
        work is ResolveScope <==> request.authorize && (crate::autonomy::instant_second(
            request.expires@,
        ) matches Some(second) && now < second),
        work !is ResolveScope ==> work is Fail,
        preparation.stage matches PreparationStage::Scoping { expires_at }
            ==> crate::autonomy::instant_second(request.expires@) == Some(expires_at),
{
}

}
