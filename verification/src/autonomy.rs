//! Durable work: what a task that is asked for amounts to, and whether it may be
//! scheduled.

pub mod preparation;

use crate::config::CredentialReference;
use crate::text::{
    first_index, first_marks_are_first, number_of, parse_number, split_once, text_eq,
};
use vstd::prelude::*;

verus! {

pub const NEEDS_AUTHORIZATION: &'static str = "schedule creation requires explicit --authorize after reviewing exact task scope";

pub const FUTURE_EXPIRY: &'static str = "authority expiry must be in the future";

pub const ROUTE_CHANGED: &'static str = "reviewed route changed; inspect the new Profile and recipient before creating work";

pub const ONE_ACTION: &'static str = "select exactly one reminder or native task";

pub const ONE_TRIGGER: &'static str = "select exactly one selected-file or named-CI trigger";

pub const CREDENTIAL_FORM: &'static str = "credential reference must be env:NAME or stored:ID";

pub const ONE_SCHEDULE: &'static str = "select one at instant or daily time and IANA timezone";

pub const DAILY_FORM: &'static str = "daily time must be HH:MM";

pub const LATE_FIRST: &'static str = "first occurrence must precede authority expiry";

pub const UNLOCKED_STORAGE: &'static str = "durable schedules require unlocked protected storage; no plaintext state was created";

pub const DEDICATED_PROCESS: &'static str = "run/observe require their dedicated CLI process; status/start/stop remain available here";

/// How often a watched selection of files is looked at, in seconds.
pub const FILE_POLL_SECONDS: u64 = 5;

/// How often a named run is looked at, in seconds.
pub const RUN_POLL_SECONDS: u64 = 60;

/// The second of the instant that a text gives, if it gives one.
pub uninterp spec fn instant_second(text: Seq<char>) -> Option<i64>;

/// `jiff::Timestamp`'s `FromStr` and `as_second`: the text is read as an instant
/// with an offset, and the result is its Unix second without the fraction. What
/// the text has to look like is left to the name; the failure's text is the
/// parser's own and nothing is said of it.
#[verifier::external_body]
pub(crate) fn parse_instant(text: &str) -> (second: Result<i64, String>)
    ensures
        match second {
            Ok(value) => instant_second(text@) == Some(value),
            Err(_) => instant_second(text@) is None,
        },
{
    match text.parse::<jiff::Timestamp>() {
        Ok(instant) => Ok(instant.as_second()),
        Err(error) => Err(error.to_string()),
    }
}

/// Why a task is not created.
#[derive(Debug, PartialEq, Eq)]
pub enum TaskError {
    /// The request is refused for a stated reason.
    Refused(&'static str),
    /// An instant cannot be read.
    Instant(String),
    /// A part of a daily time is no number.
    Number,
}

/// Whether a result is a refusal for a reason.
pub open spec fn refuses<T>(result: Result<T, TaskError>, reason: Seq<char>) -> bool {
    result matches Err(TaskError::Refused(text)) && text@ == reason
}

/// Whether a result says if authority that ends at an instant may be given out
/// now: only where it was authorized and ends later.
pub open spec fn authorizes(
    authorize: bool,
    expires: Seq<char>,
    now: i64,
    expires_at: Result<i64, TaskError>,
) -> bool {
    if !authorize {
        refuses(expires_at, NEEDS_AUTHORIZATION@)
    } else {
        match instant_second(expires) {
            None => expires_at matches Err(TaskError::Instant(_)),
            Some(second) => if second <= now {
                refuses(expires_at, FUTURE_EXPIRY@)
            } else {
                expires_at == Ok::<i64, TaskError>(second)
            },
        }
    }
}

/// Decides whether authority that ends at an instant may be given out now.
pub fn admit_authority(authorize: bool, expires: &str, now: i64) -> (expires_at: Result<
    i64,
    TaskError,
>)
    ensures
        authorizes(authorize, expires@, now, expires_at),
{
    if !authorize {
        return Err(TaskError::Refused(NEEDS_AUTHORIZATION));
    }
    match parse_instant(expires) {
        Ok(second) => admit_expiry(second, now),
        Err(text) => Err(TaskError::Instant(text)),
    }
}

/// Whether an expiry lies ahead.
pub fn admit_expiry(second: i64, now: i64) -> (expires_at: Result<i64, TaskError>)
    ensures
        if second <= now {
            refuses(expires_at, FUTURE_EXPIRY@)
        } else {
            expires_at == Ok::<i64, TaskError>(second)
        },
{
    if second <= now {
        Err(TaskError::Refused(FUTURE_EXPIRY))
    } else {
        Ok(second)
    }
}

/// Whether the route that was reviewed is still the one that would be used.
pub fn admit_route(reviewed: &Option<String>, current: &str) -> (admitted: Result<(), TaskError>)
    ensures
        match *reviewed {
            Some(digest) => if digest@ == current@ {
                admitted is Ok
            } else {
                refuses(admitted, ROUTE_CHANGED@)
            },
            None => admitted is Ok,
        },
{
    match reviewed {
        Some(digest) => if text_eq(digest.as_str(), current) {
            Ok(())
        } else {
            Err(TaskError::Refused(ROUTE_CHANGED))
        },
        None => Ok(()),
    }
}

/// What a task does.
#[derive(Debug, PartialEq, Eq)]
pub enum TaskAction {
    Reminder { text: String },
    NativeTask { prompt: String, workspace_reads: bool },
}

/// Whether an action is what a request asks for: exactly one.
pub open spec fn asks_action(
    reminder: Option<String>,
    prompt: Option<String>,
    workspace_reads: bool,
    action: Result<TaskAction, TaskError>,
) -> bool {
    match (reminder, prompt) {
        (Some(text), None) => action == Ok::<TaskAction, TaskError>(TaskAction::Reminder { text }),
        (None, Some(prompt)) => action == Ok::<TaskAction, TaskError>(
            TaskAction::NativeTask { prompt, workspace_reads },
        ),
        _ => refuses(action, ONE_ACTION@),
    }
}

/// The action that a request asks for.
pub fn choose_action(reminder: Option<String>, prompt: Option<String>, workspace_reads: bool) -> (
    action: Result<TaskAction, TaskError>)
    ensures
        asks_action(reminder, prompt, workspace_reads, action),
{
    match (reminder, prompt) {
        (Some(text), None) => Ok(TaskAction::Reminder { text }),
        (None, Some(prompt)) => Ok(TaskAction::NativeTask { prompt, workspace_reads }),
        _ => Err(TaskError::Refused(ONE_ACTION)),
    }
}

/// What starts a task, besides a schedule.
#[derive(Debug, PartialEq, Eq)]
pub enum TriggerRequest {
    Files { root: String },
    Run { run: String, credential: CredentialReference },
}

/// Whether a reference to a credential is read from a text.
pub open spec fn reads_credential(
    text: Seq<char>,
    credential: Result<CredentialReference, TaskError>,
) -> bool {
    let at = first_index(text, ':') as int;
    if at >= text.len() {
        refuses(credential, CREDENTIAL_FORM@)
    } else {
        let kind = text.take(at);
        let name = text.skip(at + 1);
        if kind == "env"@ {
            credential matches Ok(CredentialReference::Environment { variable }) && variable@
                == name
        } else if kind == "stored"@ {
            credential matches Ok(CredentialReference::Stored { id }) && id@ == name
        } else {
            refuses(credential, CREDENTIAL_FORM@)
        }
    }
}

/// Reads a reference to a credential.
pub fn read_credential(text: &str) -> (credential: Result<CredentialReference, TaskError>)
    ensures
        reads_credential(text@, credential),
{
    match split_once(text, ':') {
        None => Err(TaskError::Refused(CREDENTIAL_FORM)),
        Some((kind, name)) => {
            if text_eq(kind.as_str(), "env") {
                Ok(CredentialReference::Environment { variable: name })
            } else if text_eq(kind.as_str(), "stored") {
                Ok(CredentialReference::Stored { id: name })
            } else {
                Err(TaskError::Refused(CREDENTIAL_FORM))
            }
        },
    }
}

/// Whether a trigger is what a request asks for: one at most.
pub open spec fn asks_trigger(
    watch_root: Option<String>,
    run: Option<String>,
    credential: Option<String>,
    trigger: Result<Option<TriggerRequest>, TaskError>,
) -> bool {
    match (watch_root, run, credential) {
        (Some(root), None, None) => trigger == Ok::<Option<TriggerRequest>, TaskError>(
            Some(TriggerRequest::Files { root }),
        ),
        (None, Some(name), Some(reference)) => match trigger {
            Ok(Some(TriggerRequest::Run { run: asked, credential: read })) => asked == name
                && reads_credential(reference@, Ok::<CredentialReference, TaskError>(read)),
            Err(error) => reads_credential(
                reference@,
                Err::<CredentialReference, TaskError>(error),
            ),
            _ => false,
        },
        (None, None, None) => trigger == Ok::<Option<TriggerRequest>, TaskError>(None),
        _ => refuses(trigger, ONE_TRIGGER@),
    }
}

/// The trigger that a request asks for, if it asks for one.
pub fn choose_trigger(
    watch_root: Option<String>,
    run: Option<String>,
    credential: Option<String>,
) -> (trigger: Result<Option<TriggerRequest>, TaskError>)
    ensures
        asks_trigger(watch_root, run, credential, trigger),
{
    match (watch_root, run, credential) {
        (Some(root), None, None) => Ok(Some(TriggerRequest::Files { root })),
        (None, Some(run), Some(reference)) => match read_credential(reference.as_str()) {
            Ok(credential) => Ok(Some(TriggerRequest::Run { run, credential })),
            Err(error) => Err(error),
        },
        (None, None, None) => Ok(None),
        _ => Err(TaskError::Refused(ONE_TRIGGER)),
    }
}

/// When a task runs.
#[derive(Debug, PartialEq, Eq)]
pub enum Schedule {
    Triggered { poll_seconds: u64 },
    Once { at: i64 },
    Daily { timezone: String, hour: u16, minute: u16 },
}

impl Schedule {
    /// The same schedule.
    pub fn copy(&self) -> (copy: Schedule)
        ensures
            copy == *self,
    {
        match self {
            Schedule::Triggered { poll_seconds } => Schedule::Triggered {
                poll_seconds: *poll_seconds,
            },
            Schedule::Once { at } => Schedule::Once { at: *at },
            Schedule::Daily { timezone, hour, minute } => Schedule::Daily {
                timezone: timezone.clone(),
                hour: *hour,
                minute: *minute,
            },
        }
    }
}

/// The kind of a trigger.
#[derive(Clone, Copy, PartialEq, Eq, Structural, Debug)]
pub enum TriggerKind {
    Files,
    Run,
}

/// Whether a schedule is read from a daily time. Hours and minutes are numbers of
/// two characters; that they are those of a clock is checked where the schedule
/// is first used.
pub open spec fn reads_daily(
    time: Seq<char>,
    timezone: String,
    schedule: Result<Schedule, TaskError>,
) -> bool {
    let at = first_index(time, ':') as int;
    if at >= time.len() {
        refuses(schedule, DAILY_FORM@)
    } else {
        let hour = time.take(at);
        let minute = time.skip(at + 1);
        if crate::text::byte_count(hour) != 2 || crate::text::byte_count(minute) != 2 {
            refuses(schedule, DAILY_FORM@)
        } else {
            match (number_of(hour, 255), number_of(minute, 255)) {
                (Some(hour), Some(minute)) => schedule == Ok::<Schedule, TaskError>(
                    Schedule::Daily { timezone, hour: hour as u16, minute: minute as u16 },
                ),
                _ => schedule == Err::<Schedule, TaskError>(TaskError::Number),
            }
        }
    }
}

/// Reads a daily schedule.
pub fn read_daily(time: &str, timezone: String) -> (schedule: Result<Schedule, TaskError>)
    ensures
        reads_daily(time@, timezone, schedule),
{
    match split_once(time, ':') {
        None => Err(TaskError::Refused(DAILY_FORM)),
        Some((hour, minute)) => {
            if crate::text::byte_len(hour.as_str()) != 2 || crate::text::byte_len(minute.as_str())
                != 2 {
                return Err(TaskError::Refused(DAILY_FORM));
            }
            match (parse_number(hour.as_str(), 255), parse_number(minute.as_str(), 255)) {
                (Some(hour), Some(minute)) => Ok(Schedule::Daily { timezone, hour, minute }),
                _ => Err(TaskError::Number),
            }
        },
    }
}

/// Whether a schedule is what a request asks for: by its trigger, once, or daily.
pub open spec fn asks_schedule(
    at: Option<String>,
    daily: Option<String>,
    timezone: Option<String>,
    trigger: Option<TriggerKind>,
    schedule: Result<Schedule, TaskError>,
) -> bool {
    match (at, daily, timezone, trigger) {
        (None, None, None, Some(kind)) => schedule == Ok::<Schedule, TaskError>(
            Schedule::Triggered {
                poll_seconds: match kind {
                    TriggerKind::Files => FILE_POLL_SECONDS,
                    TriggerKind::Run => RUN_POLL_SECONDS,
                },
            },
        ),
        (Some(instant), None, None, None) => match instant_second(instant@) {
            Some(second) => schedule == Ok::<Schedule, TaskError>(Schedule::Once { at: second }),
            None => schedule matches Err(TaskError::Instant(_)),
        },
        (None, Some(time), Some(zone), None) => reads_daily(time@, zone, schedule),
        _ => refuses(schedule, ONE_SCHEDULE@),
    }
}

/// The schedule that a request asks for.
pub fn choose_schedule(
    at: Option<String>,
    daily: Option<String>,
    timezone: Option<String>,
    trigger: Option<TriggerKind>,
) -> (schedule: Result<Schedule, TaskError>)
    ensures
        asks_schedule(at, daily, timezone, trigger, schedule),
{
    match (at, daily, timezone, trigger) {
        (None, None, None, Some(TriggerKind::Files)) => Ok(
            Schedule::Triggered { poll_seconds: FILE_POLL_SECONDS },
        ),
        (None, None, None, Some(TriggerKind::Run)) => Ok(
            Schedule::Triggered { poll_seconds: RUN_POLL_SECONDS },
        ),
        (Some(instant), None, None, None) => match parse_instant(instant.as_str()) {
            Ok(second) => Ok(Schedule::Once { at: second }),
            Err(text) => Err(TaskError::Instant(text)),
        },
        (None, Some(time), Some(zone), None) => read_daily(time.as_str(), zone),
        _ => Err(TaskError::Refused(ONE_SCHEDULE)),
    }
}

/// Whether a task runs at least once under its authority.
pub fn admit_first(next: i64, expires_at: i64) -> (admitted: Result<(), TaskError>)
    ensures
        next < expires_at ==> admitted is Ok,
        next >= expires_at ==> refuses(admitted, LATE_FIRST@),
{
    if next < expires_at {
        Ok(())
    } else {
        Err(TaskError::Refused(LATE_FIRST))
    }
}

/// Schedules are kept only in protected storage.
pub fn admit_storage(protected: bool) -> (admitted: Result<(), TaskError>)
    ensures
        protected ==> admitted is Ok,
        !protected ==> refuses(admitted, UNLOCKED_STORAGE@),
{
    if protected {
        Ok(())
    } else {
        Err(TaskError::Refused(UNLOCKED_STORAGE))
    }
}

/// What is asked of the host that runs durable work.
#[derive(Clone, Copy, PartialEq, Eq, Structural, Debug)]
pub enum HostCommand {
    Status,
    Start { revision: u64 },
    Stop { revision: u64, lock: bool },
    Disable { revision: u64 },
    Startup { revision: u64, enable: bool },
    Run,
    Observe,
}

/// A change of the host's policy, at a revision that was read.
#[derive(Clone, Copy, PartialEq, Eq, Structural, Debug)]
pub struct PolicyEdit {
    pub revision: u64,
    pub enabled: Option<bool>,
    pub stop: bool,
    pub lock: bool,
}

/// What a command on the host does.
#[derive(Clone, Copy, PartialEq, Eq, Structural, Debug)]
pub enum HostWork {
    Report,
    Edit { edit: PolicyEdit, detach: bool },
    ChangeStartup { revision: u64, enable: bool },
}

/// What a command on the host does; running and observing take a process of
/// their own.
pub open spec fn hosts(command: HostCommand) -> Option<HostWork> {
    match command {
        HostCommand::Status => Some(HostWork::Report),
        HostCommand::Start { revision } => Some(
            HostWork::Edit {
                edit: PolicyEdit { revision, enabled: Some(true), stop: false, lock: false },
                detach: true,
            },
        ),
        HostCommand::Stop { revision, lock } => Some(
            HostWork::Edit {
                edit: PolicyEdit { revision, enabled: None, stop: true, lock },
                detach: false,
            },
        ),
        HostCommand::Disable { revision } => Some(
            HostWork::Edit {
                edit: PolicyEdit { revision, enabled: Some(false), stop: true, lock: false },
                detach: false,
            },
        ),
        HostCommand::Startup { revision, enable } => Some(
            HostWork::ChangeStartup { revision, enable },
        ),
        HostCommand::Run | HostCommand::Observe => None,
    }
}

/// Decides what a command on the host does.
pub fn host_work(command: HostCommand) -> (work: Result<HostWork, TaskError>)
    ensures
        match hosts(command) {
            Some(done) => work == Ok::<HostWork, TaskError>(done),
            None => refuses(work, DEDICATED_PROCESS@),
        },
{
    match command {
        HostCommand::Status => Ok(HostWork::Report),
        HostCommand::Start { revision } => Ok(
            HostWork::Edit {
                edit: PolicyEdit { revision, enabled: Some(true), stop: false, lock: false },
                detach: true,
            },
        ),
        HostCommand::Stop { revision, lock } => Ok(
            HostWork::Edit {
                edit: PolicyEdit { revision, enabled: None, stop: true, lock },
                detach: false,
            },
        ),
        HostCommand::Disable { revision } => Ok(
            HostWork::Edit {
                edit: PolicyEdit { revision, enabled: Some(false), stop: true, lock: false },
                detach: false,
            },
        ),
        HostCommand::Startup { revision, enable } => Ok(
            HostWork::ChangeStartup { revision, enable },
        ),
        HostCommand::Run | HostCommand::Observe => Err(TaskError::Refused(DEDICATED_PROCESS)),
    }
}

/// What is asked for of durable work.
#[derive(Debug, PartialEq, Eq)]
pub enum TaskCommand {
    Overview { after: Option<String> },
    Review { id: String },
    List { after: Option<String> },
    Show { id: String },
    Receipts { id: String, after: Option<String> },
    Pause { id: String, revision: u64 },
    Resume { id: String, revision: u64, review_unknown: bool },
    Cancel { id: String, revision: u64 },
    Host(HostCommand),
}

/// A change of a task.
#[derive(Clone, Copy, PartialEq, Eq, Structural, Debug)]
pub enum TaskEdit {
    Pause,
    Resume { review_unknown: bool },
    Cancel,
}

/// What is done for a command on durable work.
#[derive(Debug, PartialEq, Eq)]
pub enum TaskWork {
    Overview { after: Option<String> },
    Review { id: String },
    List { after: Option<String> },
    Show { id: String },
    Receipts { id: String, after: Option<String> },
    /// Change a task at the revision that was read.
    Edit { id: String, revision: u64, edit: TaskEdit },
    Host(HostWork),
}

/// What is done for a command, once its storage is found protected.
pub fn task_work(command: TaskCommand, protected: bool) -> (work: Result<TaskWork, TaskError>)
    ensures
        !protected ==> refuses(work, UNLOCKED_STORAGE@),
        protected ==> match command {
            TaskCommand::Overview { after } => work == Ok::<TaskWork, TaskError>(
                TaskWork::Overview { after },
            ),
            TaskCommand::Review { id } => work == Ok::<TaskWork, TaskError>(
                TaskWork::Review { id },
            ),
            TaskCommand::List { after } => work == Ok::<TaskWork, TaskError>(
                TaskWork::List { after },
            ),
            TaskCommand::Show { id } => work == Ok::<TaskWork, TaskError>(TaskWork::Show { id }),
            TaskCommand::Receipts { id, after } => work == Ok::<TaskWork, TaskError>(
                TaskWork::Receipts { id, after },
            ),
            TaskCommand::Pause { id, revision } => work == Ok::<TaskWork, TaskError>(
                TaskWork::Edit { id, revision, edit: TaskEdit::Pause },
            ),
            TaskCommand::Resume { id, revision, review_unknown } => work == Ok::<
                TaskWork,
                TaskError,
            >(TaskWork::Edit { id, revision, edit: TaskEdit::Resume { review_unknown } }),
            TaskCommand::Cancel { id, revision } => work == Ok::<TaskWork, TaskError>(
                TaskWork::Edit { id, revision, edit: TaskEdit::Cancel },
            ),
            TaskCommand::Host(command) => match hosts(command) {
                Some(done) => work == Ok::<TaskWork, TaskError>(TaskWork::Host(done)),
                None => refuses(work, DEDICATED_PROCESS@),
            },
        },
{
    match admit_storage(protected) {
        Ok(_) => {},
        Err(error) => {
            return Err(error);
        },
    }
    match command {
        TaskCommand::Overview { after } => Ok(TaskWork::Overview { after }),
        TaskCommand::Review { id } => Ok(TaskWork::Review { id }),
        TaskCommand::List { after } => Ok(TaskWork::List { after }),
        TaskCommand::Show { id } => Ok(TaskWork::Show { id }),
        TaskCommand::Receipts { id, after } => Ok(TaskWork::Receipts { id, after }),
        TaskCommand::Pause { id, revision } => Ok(
            TaskWork::Edit { id, revision, edit: TaskEdit::Pause },
        ),
        TaskCommand::Resume { id, revision, review_unknown } => Ok(
            TaskWork::Edit { id, revision, edit: TaskEdit::Resume { review_unknown } },
        ),
        TaskCommand::Cancel { id, revision } => Ok(
            TaskWork::Edit { id, revision, edit: TaskEdit::Cancel },
        ),
        TaskCommand::Host(command) => match host_work(command) {
            Ok(work) => Ok(TaskWork::Host(work)),
            Err(error) => Err(error),
        },
    }
}

pub const STOP_RECEIPT: &'static str = "Shutdown requested for the named active job. The owning host records attached client identities when it observes this revision; absent clients means unacknowledged, not zero. All queued schedules stop admitting. Inspect host status and terminal receipts; effects remain uncertain until then";

pub const STARTUP_ENABLED: &'static str = "Per-user login registration installed and startup authorized. No host was launched now";

pub const STARTUP_REVOKED: &'static str = "Startup authority revoked and the matching per-user registration removed";

/// What is said once a command on the host is carried out, beside what the host
/// itself says.
pub fn host_receipt(command: HostCommand) -> (text: Option<&'static str>)
    ensures
        match command {
            HostCommand::Stop { .. } => text matches Some(said) && said@ == STOP_RECEIPT@,
            HostCommand::Startup { enable, .. } => text matches Some(said) && said@ == (if enable {
                STARTUP_ENABLED@
            } else {
                STARTUP_REVOKED@
            }),
            _ => text is None,
        },
{
    match command {
        HostCommand::Stop { .. } => Some(STOP_RECEIPT),
        HostCommand::Startup { enable, .. } => if enable {
            Some(STARTUP_ENABLED)
        } else {
            Some(STARTUP_REVOKED)
        },
        _ => None,
    }
}

/// Authority is given out where it was authorized and ends at a later instant than now,
/// and then until the instant that was asked for. Without authorization none is given,
/// whatever the instant is.
pub proof fn authority_is_asked_for(
    authorize: bool,
    expires: &str,
    now: i64,
    expires_at: Result<i64, TaskError>,
)
    requires
        call_ensures(admit_authority, (authorize, expires, now), expires_at),
    ensures
        expires_at is Ok <==> authorize && (instant_second(expires@) matches Some(second) && now
            < second),
        expires_at matches Ok(second) ==> Some(second) == instant_second(expires@),
{
}

/// A route that was reviewed is used only while it is the same; one that was not
/// reviewed is not compared.
pub proof fn reviewed_routes_do_not_change(
    reviewed: Option<String>,
    current: &str,
    admitted: Result<(), TaskError>,
)
    requires
        call_ensures(admit_route, (&reviewed, current), admitted),
    ensures
        admitted is Err <==> (reviewed matches Some(digest) && digest@ != current@),
{
}

/// A task does exactly one thing, and it is the one that was asked for, with the text
/// that was given: a reminder reads nothing, and a native task reads the workspace only
/// where it was told to.
pub proof fn tasks_do_one_thing(
    reminder: Option<String>,
    prompt: Option<String>,
    workspace_reads: bool,
    action: Result<TaskAction, TaskError>,
)
    requires
        call_ensures(choose_action, (reminder, prompt, workspace_reads), action),
    ensures
        action is Ok <==> (reminder is Some) != (prompt is Some),
        action matches Ok(TaskAction::Reminder { text }) ==> reminder == Some(text),
        action matches Ok(TaskAction::NativeTask { prompt: asked, workspace_reads: reads })
            ==> prompt == Some(asked) && reads == workspace_reads,
{
}

/// A reference to a credential is read as written: its kind before the first colon, and
/// all behind it the name. Nothing else is taken for a credential.
pub proof fn credentials_are_read_as_written(
    text: &str,
    credential: Result<CredentialReference, TaskError>,
)
    requires
        call_ensures(read_credential, (text,), credential),
    ensures
        credential matches Ok(CredentialReference::Environment { variable }) ==> "env:"@
            + variable@ == text@,
        credential matches Ok(CredentialReference::Stored { id }) ==> "stored:"@ + id@ == text@,
        "env:"@.is_prefix_of(text@) ==> (credential matches Ok(
            CredentialReference::Environment { .. },
        )),
        "stored:"@.is_prefix_of(text@) ==> (credential matches Ok(
            CredentialReference::Stored { .. },
        )),
{
    reveal_strlit("env:");
    reveal_strlit("env");
    reveal_strlit("stored:");
    reveal_strlit("stored");
    assert("env"@[0] != "stored"@[0]);
    let at = first_index(text@, ':') as int;
    first_marks_are_first(text@, ':');
    if at < text@.len() {
        if text@.take(at) == "env"@ {
            assert("env:"@ + text@.skip(at + 1) =~= text@) by {
                assert(text@ =~= text@.take(at) + seq![':'] + text@.skip(at + 1));
                assert("env:"@ =~= "env"@ + seq![':']);
            }
        }
        if text@.take(at) == "stored"@ {
            assert("stored:"@ + text@.skip(at + 1) =~= text@) by {
                assert(text@ =~= text@.take(at) + seq![':'] + text@.skip(at + 1));
                assert("stored:"@ =~= "stored"@ + seq![':']);
            }
        }
    }
    if "env:"@.is_prefix_of(text@) {
        assert(text@[3] == "env:"@[3]);
        assert(text@[0] == "env:"@[0] && text@[1] == "env:"@[1] && text@[2] == "env:"@[2]);
        assert(at == 3);
        assert(text@.take(at) =~= "env"@);
    }
    if "stored:"@.is_prefix_of(text@) {
        let word = "stored:"@;
        assert(text@[6] == word[6]);
        assert(text@[0] == word[0] && text@[1] == word[1] && text@[2] == word[2]);
        assert(text@[3] == word[3] && text@[4] == word[4] && text@[5] == word[5]);
        assert(at == 6);
        assert(text@.take(at) =~= "stored"@);
    }
}

/// A task is started by the files or by the run that were named, and by one of them at
/// most; a run is looked at with the credential that was named. Where nothing is named,
/// nothing starts it.
pub proof fn triggers_are_those_asked_for(
    watch_root: Option<String>,
    run: Option<String>,
    credential: Option<String>,
    trigger: Result<Option<TriggerRequest>, TaskError>,
)
    requires
        call_ensures(choose_trigger, (watch_root, run, credential), trigger),
    ensures
        trigger == Ok::<Option<TriggerRequest>, TaskError>(None) <==> watch_root is None && run
            is None && credential is None,
        trigger matches Ok(Some(TriggerRequest::Files { root })) ==> watch_root == Some(root)
            && run is None && credential is None,
        trigger matches Ok(Some(TriggerRequest::Run { run: named, .. })) ==> watch_root is None
            && run == Some(named) && credential is Some,
        watch_root is Some && run is None && credential is None ==> trigger is Ok,
        watch_root is Some && run is Some ==> trigger is Err,
        run is None && credential is Some ==> trigger is Err,
{
}

/// A task runs when it was asked to: once at the instant that was given, every day at
/// the hour and the minute in the zone that were given, or by its trigger, which is
/// looked at every five seconds where it is files and every minute where it is a run.
pub proof fn schedules_are_those_asked_for(
    at: Option<String>,
    daily: Option<String>,
    timezone: Option<String>,
    trigger: Option<TriggerKind>,
    schedule: Result<Schedule, TaskError>,
)
    requires
        call_ensures(choose_schedule, (at, daily, timezone, trigger), schedule),
    ensures
        schedule matches Ok(Schedule::Once { at: second }) ==> (at matches Some(text)
            && instant_second(text@) == Some(second)) && daily is None && timezone is None
            && trigger is None,
        schedule matches Ok(Schedule::Triggered { poll_seconds }) ==> {
            &&& at is None && daily is None && timezone is None
            &&& trigger == Some(TriggerKind::Files) && poll_seconds == 5 || trigger == Some(
                TriggerKind::Run,
            ) && poll_seconds == 60
        },
        schedule matches Ok(Schedule::Daily { timezone: zone, hour, minute }) ==> {
            &&& timezone == Some(zone)
            &&& at is None && trigger is None
            &&& daily matches Some(time) && exists|hours: Seq<char>, minutes: Seq<char>|
                time@ == hours + seq![':'] + minutes && #[trigger] number_of(hours, 255) == Some(
                    hour as nat,
                ) && #[trigger] number_of(minutes, 255) == Some(minute as nat)
        },
        at is Some && daily is Some ==> schedule is Err,
        trigger is Some && (at is Some || daily is Some) ==> schedule is Err,
        at is None && daily is None && trigger is None ==> schedule is Err,
        trigger is Some && at is None && daily is None && timezone is None ==> schedule is Ok,
{
    if let (None, Some(time), Some(zone), None) = (at, daily, timezone, trigger) {
        let split = first_index(time@, ':') as int;
        first_marks_are_first(time@, ':');
        if schedule is Ok {
            assert(time@ =~= time@.take(split) + seq![':'] + time@.skip(split + 1));
            assert(number_of(time@.take(split), 255) is Some);
            assert(number_of(time@.skip(split + 1), 255) is Some);
        }
    }
}

/// A task that would run for the first time at the end of its authority or later is
/// refused, and every other is not.
pub proof fn first_runs_are_authorized(
    next: i64,
    expires_at: i64,
    admitted: Result<(), TaskError>,
)
    requires
        call_ensures(admit_first, (next, expires_at), admitted),
    ensures
        admitted is Ok <==> next < expires_at,
{
}

/// What is done to the host is what its command says, at the revision that was read:
/// starting enables it and stops nothing, stopping leaves the policy and locks only where
/// it was told to, disabling stops it too, and asking for its state changes nothing.
pub proof fn hosts_do_as_told(command: HostCommand, work: Result<HostWork, TaskError>)
    requires
        call_ensures(host_work, (command,), work),
    ensures
        work is Err <==> command == HostCommand::Run || command == HostCommand::Observe,
        work == Ok::<HostWork, TaskError>(HostWork::Report) <==> command == HostCommand::Status,
        command matches HostCommand::Start { revision } ==> (work matches Ok(
            HostWork::Edit { edit, detach },
        ) && edit.revision == revision && edit.enabled == Some(true) && !edit.stop && !edit.lock
            && detach),
        command matches HostCommand::Stop { revision, lock } ==> (work matches Ok(
            HostWork::Edit { edit, detach },
        ) && edit.revision == revision && edit.enabled is None && edit.stop && edit.lock == lock
            && !detach),
        command matches HostCommand::Disable { revision } ==> (work matches Ok(
            HostWork::Edit { edit, detach },
        ) && edit.revision == revision && edit.enabled == Some(false) && edit.stop && !edit.lock
            && !detach),
        command matches HostCommand::Startup { revision, enable } ==> work == Ok::<
            HostWork,
            TaskError,
        >(HostWork::ChangeStartup { revision, enable }),
{
}

/// Nothing is done without protected storage. With it, what is done has the name of what
/// was asked for and concerns what that names: a task is paused, resumed or cancelled
/// under its own identity, at the revision that was read, and in no other way.
pub proof fn task_commands_do_what_they_say(
    command: TaskCommand,
    protected: bool,
    work: Result<TaskWork, TaskError>,
)
    requires
        call_ensures(task_work, (command, protected), work),
    ensures
        !protected ==> work is Err,
        protected && command !is Host ==> work is Ok,
        work matches Ok(TaskWork::Edit { id, revision, edit }) ==> match edit {
            TaskEdit::Pause => command == (TaskCommand::Pause { id, revision }),
            TaskEdit::Resume { review_unknown } => command == (TaskCommand::Resume {
                id,
                revision,
                review_unknown,
            }),
            TaskEdit::Cancel => command == (TaskCommand::Cancel { id, revision }),
        },
        work matches Ok(TaskWork::Overview { after }) ==> command == (TaskCommand::Overview {
            after,
        }),
        work matches Ok(TaskWork::Review { id }) ==> command == (TaskCommand::Review { id }),
        work matches Ok(TaskWork::List { after }) ==> command == (TaskCommand::List { after }),
        work matches Ok(TaskWork::Show { id }) ==> command == (TaskCommand::Show { id }),
        work matches Ok(TaskWork::Receipts { id, after }) ==> command == (TaskCommand::Receipts {
            id,
            after,
        }),
        work matches Ok(TaskWork::Host(done)) ==> (command matches TaskCommand::Host(asked)
            && hosts(asked) == Some(done)),
{
}

/// Stopping the host and changing its startup are told, and enabling is not told as
/// revoking.
pub proof fn host_changes_are_told(command: HostCommand, text: Option<&'static str>)
    requires
        call_ensures(host_receipt, (command,), text),
    ensures
        text is Some <==> command is Stop || command is Startup,
        command matches HostCommand::Startup { enable, .. } ==> (text matches Some(said) && said@
            == (if enable { STARTUP_ENABLED@ } else { STARTUP_REVOKED@ })),
{
}

}
