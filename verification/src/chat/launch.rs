//! Launching a conversation.
//!
//! A launch decides which conversation is opened, under which settings and by
//! which execution owner. It asks for one piece of outside work at a time.

use crate::text::{join, joined, joined_parts_occur, occurs, option_view, text_eq, views};
use vstd::prelude::*;
use vstd::string::*;

verus! {

/// The kind of a connection, as far as it decides who executes.
#[derive(Clone, Copy, PartialEq, Eq, Structural, Debug)]
pub enum ProviderKind {
    Codex,
    Ollama,
    Other,
}

/// A conversation. A new one has no history yet.
#[derive(Debug, PartialEq, Eq)]
pub enum ConversationRef {
    Native { session: String },
    Managed { conversation: String, connection: String, thread: String },
    NewNative,
    NewManaged { conversation: String, connection: String },
}

impl ConversationRef {
    /// The identity of a conversation, which all but a new native one have.
    pub open spec fn identity(self) -> Option<Seq<char>> {
        match self {
            ConversationRef::Native { session } => Some(session@),
            ConversationRef::Managed { conversation, .. } => Some(conversation@),
            ConversationRef::NewNative => None,
            ConversationRef::NewManaged { conversation, .. } => Some(conversation@),
        }
    }

    /// The identity of a conversation.
    pub fn conversation_id(&self) -> (id: Option<String>)
        ensures
            option_view(id) == self.identity(),
    {
        match self {
            ConversationRef::Native { session } => Some(session.clone()),
            ConversationRef::Managed { conversation, .. } => Some(conversation.clone()),
            ConversationRef::NewNative => None,
            ConversationRef::NewManaged { conversation, .. } => Some(conversation.clone()),
        }
    }

    /// The same conversation.
    pub fn copy(&self) -> (copy: ConversationRef)
        ensures
            copy == *self,
    {
        match self {
            ConversationRef::Native { session } => ConversationRef::Native {
                session: session.clone(),
            },
            ConversationRef::Managed { conversation, connection, thread } => {
                ConversationRef::Managed {
                    conversation: conversation.clone(),
                    connection: connection.clone(),
                    thread: thread.clone(),
                }
            },
            ConversationRef::NewNative => ConversationRef::NewNative,
            ConversationRef::NewManaged { conversation, connection } => {
                ConversationRef::NewManaged {
                    conversation: conversation.clone(),
                    connection: connection.clone(),
                }
            },
        }
    }

    /// Whether two conversations are the same by content.
    pub open spec fn same_as(self, other: ConversationRef) -> bool {
        match (self, other) {
            (
                ConversationRef::Native { session: a },
                ConversationRef::Native { session: b },
            ) => a@ == b@,
            (
                ConversationRef::Managed { conversation: a, connection: c, thread: e },
                ConversationRef::Managed { conversation: b, connection: d, thread: f },
            ) => a@ == b@ && c@ == d@ && e@ == f@,
            (ConversationRef::NewNative, ConversationRef::NewNative) => true,
            (
                ConversationRef::NewManaged { conversation: a, connection: c },
                ConversationRef::NewManaged { conversation: b, connection: d },
            ) => a@ == b@ && c@ == d@,
            _ => false,
        }
    }

    /// Whether two conversations are the same.
    pub fn same(&self, other: &ConversationRef) -> (same: bool)
        ensures
            same == self.same_as(*other),
    {
        match (self, other) {
            (
                ConversationRef::Native { session: a },
                ConversationRef::Native { session: b },
            ) => text_eq(a.as_str(), b.as_str()),
            (
                ConversationRef::Managed { conversation: a, connection: c, thread: e },
                ConversationRef::Managed { conversation: b, connection: d, thread: f },
            ) => text_eq(a.as_str(), b.as_str()) && text_eq(c.as_str(), d.as_str()) && text_eq(
                e.as_str(),
                f.as_str(),
            ),
            (ConversationRef::NewNative, ConversationRef::NewNative) => true,
            (
                ConversationRef::NewManaged { conversation: a, connection: c },
                ConversationRef::NewManaged { conversation: b, connection: d },
            ) => text_eq(a.as_str(), b.as_str()) && text_eq(c.as_str(), d.as_str()),
            _ => false,
        }
    }
}

/// The state of a retained conversation. One that is not inactive is shown by
/// what it is.
#[derive(Debug, PartialEq, Eq)]
pub enum ConversationState {
    Inactive,
    Occupied { shown: String },
}

/// A retained conversation of a workspace.
#[derive(Debug, PartialEq, Eq)]
pub struct ConversationRow {
    pub conversation: ConversationRef,
    pub selected: bool,
    pub state: ConversationState,
}

/// What a workspace holds: its conversations, the latest first, and who is at
/// work in it.
#[derive(Debug, PartialEq, Eq)]
pub struct WorkspaceSnapshot {
    pub active: Option<String>,
    pub conversations: Vec<ConversationRow>,
}

/// Why a conversation is not launched.
#[derive(Debug, PartialEq, Eq)]
pub enum LaunchError {
    /// Somebody is at work in the workspace.
    Busy(Option<String>),
    Refused(String),
}

/// Whether an error is a refusal with a text.
pub open spec fn refusal(error: LaunchError, text: Seq<char>) -> bool {
    error matches LaunchError::Refused(held) && held@ == text
}

pub const NOTHING_TO_CONTINUE: &'static str = "--continue found no inactive native conversation for this workspace";

pub const NO_SAVED_PROFILE: &'static str = "Unfinished Conversation has no saved Profile; use operation recovery";

pub const UNSAFE_ATTACH: &'static str = "the selected managed Conversation has no frozen Profile and cannot be attached safely";

pub const CONNECTION_UNAVAILABLE: &'static str = "Conversation connection is unavailable; run `xana doctor` and restore a compatible connection without changing saved history";

pub const BAD_SUMMARY: &'static str = "frozen Profile reasoning summary is invalid";

pub const PRIVATE_STATE: &'static str = "could not prepare Xana's private state; run `xana config migrate --apply` and retry";

pub const MANAGED_CHECKS: &'static str = "declared completion checks are unavailable for managed Codex; no vendor turn was started";

pub const OTHER_WORKSPACE: &'static str = "Conversation workspace differs; no history was changed";

pub const PROFILE_NOT_RECORDED: &'static str = "could not record initial Conversation Profile";

pub const SETTINGS_MOVED: &'static str = "Settings changed during preparation; retry startup. Conversation history is retained.";

pub const CANNOT_RECONSTRUCT: &'static str = "This interrupted operation's execution settings cannot be reconstructed after configuration changes. Choose Stop (not Continue), then send a new turn in this same Conversation. No effects were replayed.";

pub const RETAINED_SETTINGS: &'static str = "\nUnfinished work retains its execution settings. Stop or reconcile it before applying newer settings.\n";

/// Whether a row is the managed conversation that is selected on a connection.
pub open spec fn selected_on(row: ConversationRow, connection: Seq<char>) -> bool {
    row.selected && (row.conversation matches ConversationRef::Managed { connection: name, .. }
        && name@ == connection)
}

/// The first managed conversation that is selected on a connection.
pub open spec fn managed_choice(rows: Seq<ConversationRow>, connection: Seq<char>) -> Option<
    ConversationRef,
>
    decreases rows.len(),
{
    if rows.len() == 0 {
        None
    } else if selected_on(rows[0], connection) {
        Some(rows[0].conversation)
    } else {
        managed_choice(rows.drop_first(), connection)
    }
}

/// The first native conversation.
pub open spec fn native_choice(rows: Seq<ConversationRow>) -> Option<ConversationRef>
    decreases rows.len(),
{
    if rows.len() == 0 {
        None
    } else if rows[0].conversation is Native {
        Some(rows[0].conversation)
    } else {
        native_choice(rows.drop_first())
    }
}

/// Whether a result is the conversation that is taken up where none was named.
pub open spec fn takes_up(
    snapshot: WorkspaceSnapshot,
    connection: Seq<char>,
    kind: ProviderKind,
    require_existing: bool,
    result: Result<Option<ConversationRef>, LaunchError>,
) -> bool {
    if kind == ProviderKind::Codex {
        result == Ok::<Option<ConversationRef>, LaunchError>(
            managed_choice(snapshot.conversations@, connection),
        )
    } else if snapshot.active is Some {
        if require_existing {
            result == Err::<Option<ConversationRef>, LaunchError>(
                LaunchError::Busy(snapshot.active),
            )
        } else {
            result == Ok::<Option<ConversationRef>, LaunchError>(None)
        }
    } else if require_existing && native_choice(snapshot.conversations@) is None {
        result matches Err(error) && refusal(error, NOTHING_TO_CONTINUE@)
    } else {
        result == Ok::<Option<ConversationRef>, LaunchError>(
            native_choice(snapshot.conversations@),
        )
    }
}

fn choose_managed(rows: &Vec<ConversationRow>, connection: &str) -> (choice: Option<ConversationRef>)
    ensures
        choice == managed_choice(rows@, connection@),
{
    let mut i: usize = 0;
    assert(rows@.skip(0) =~= rows@);
    while i < rows.len()
        invariant
            i <= rows@.len(),
            managed_choice(rows@, connection@) == managed_choice(
                rows@.skip(i as int),
                connection@,
            ),
        decreases rows@.len() - i,
    {
        assert(rows@.skip(i as int).drop_first() =~= rows@.skip(i + 1));
        if rows[i].selected {
            match &rows[i].conversation {
                ConversationRef::Managed { connection: name, .. } => {
                    if text_eq(name.as_str(), connection) {
                        return Some(rows[i].conversation.copy());
                    }
                },
                _ => {},
            }
        }
        i += 1;
    }
    None
}

fn choose_native(rows: &Vec<ConversationRow>) -> (choice: Option<ConversationRef>)
    ensures
        choice == native_choice(rows@),
{
    let mut i: usize = 0;
    assert(rows@.skip(0) =~= rows@);
    while i < rows.len()
        invariant
            i <= rows@.len(),
            native_choice(rows@) == native_choice(rows@.skip(i as int)),
        decreases rows@.len() - i,
    {
        assert(rows@.skip(i as int).drop_first() =~= rows@.skip(i + 1));
        match &rows[i].conversation {
            ConversationRef::Native { .. } => {
                return Some(rows[i].conversation.copy());
            },
            _ => {},
        }
        i += 1;
    }
    None
}

/// The conversation that is taken up where none was named: on a managed
/// connection the one that is selected there, and otherwise the latest native
/// one, unless somebody is at work.
pub fn automatic_conversation(
    snapshot: &WorkspaceSnapshot,
    connection: &str,
    kind: ProviderKind,
    require_existing: bool,
) -> (choice: Result<Option<ConversationRef>, LaunchError>)
    ensures
        takes_up(*snapshot, connection@, kind, require_existing, choice),
{
    match kind {
        ProviderKind::Codex => {
            return Ok(choose_managed(&snapshot.conversations, connection));
        },
        _ => {},
    }
    match &snapshot.active {
        Some(_) => if require_existing {
            Err(LaunchError::Busy(crate::text::copy_option(&snapshot.active)))
        } else {
            Ok(None)
        },
        None => {
            let retained = choose_native(&snapshot.conversations);
            if require_existing && retained.is_none() {
                return Err(LaunchError::Refused(NOTHING_TO_CONTINUE.to_owned()));
            }
            Ok(retained)
        },
    }
}

/// What is asked for.
#[derive(Debug, PartialEq, Eq)]
pub struct ChatIntent {
    pub resume: Option<String>,
    pub target: Option<ConversationRef>,
    pub continue_chat: bool,
    pub force_new: bool,
    pub one_shot: bool,
    pub conditions: bool,
}

/// A choice of model.
#[derive(Debug, PartialEq, Eq)]
pub struct Selection {
    pub connection: String,
    pub model: String,
    pub reasoning_effort: Option<String>,
    pub reasoning_summary: Option<String>,
}

/// What was decided about the conversation from what the workspace holds.
#[derive(Debug, PartialEq, Eq)]
pub struct Chosen {
    pub selected: Selection,
    pub snapshot: WorkspaceSnapshot,
    pub exact: bool,
    pub implicit_managed: bool,
    pub target: Option<ConversationRef>,
}

/// A session that was taken up again.
#[derive(Clone, Copy, PartialEq, Eq, Structural, Debug)]
pub struct RetainedSession {
    pub unfinished: bool,
    pub configured: bool,
    pub same_workspace: bool,
}

/// What is retained of the conversation.
#[derive(Clone, Copy, PartialEq, Eq, Structural, Debug)]
pub struct Retained {
    pub saved_profile: bool,
    pub session: Option<RetainedSession>,
}

impl Retained {
    /// Whether the conversation has unfinished work.
    pub open spec fn is_pending(self) -> bool {
        self.session matches Some(session) && session.unfinished
    }

    /// Whether the conversation has unfinished work.
    pub fn pending(self) -> (yes: bool)
        ensures
            yes == self.is_pending(),
    {
        match self.session {
            Some(session) => session.unfinished,
            None => false,
        }
    }
}

/// Where the settings of a conversation come from.
#[derive(Clone, Copy, PartialEq, Eq, Structural, Debug)]
pub enum ConfigSource {
    /// From the session itself.
    Session,
    /// From the saved profile, under the inputs of now.
    SavedProfile,
    /// From what is configured now.
    Resolve,
}

/// The profile under which a conversation runs.
#[derive(Debug, PartialEq, Eq)]
pub struct FrozenProfile {
    pub name: String,
    pub connection: String,
    pub model: String,
    pub reasoning_effort: Option<String>,
    pub reasoning_summary: Option<String>,
    pub summary_valid: bool,
}

/// A conversation that is ready to be opened.
#[derive(Debug, PartialEq, Eq)]
pub struct Opening {
    pub conversation: ConversationRef,
    pub selection: Selection,
    pub profile_name: String,
    /// Whether the profile is recorded as that of the conversation.
    pub freeze: bool,
    pub retained: Retained,
}

/// A conversation that is run.
#[derive(Debug, PartialEq, Eq)]
pub struct LaunchedRun {
    pub opening: Opening,
    pub managed: bool,
    pub one_shot: bool,
    /// Whether the settings are recorded with the session.
    pub configure: bool,
    /// Whether the unfinished work can only be stopped.
    pub cannot_resume: bool,
}

impl LaunchedRun {
    /// What is said where the unfinished work is to be continued and cannot be.
    pub fn resume_refusal(&self) -> (text: Option<&'static str>)
        ensures
            text is Some == self.cannot_resume,
            text matches Some(text) ==> text@ == CANNOT_RECONSTRUCT@,
    {
        if self.cannot_resume {
            Some(CANNOT_RECONSTRUCT)
        } else {
            None
        }
    }
}

/// What is done next.
#[derive(Debug, PartialEq, Eq)]
pub enum LaunchWork {
    LoadConfig,
    PrepareRecords,
    ReadWorkspace,
    Retrieve { profile_key: Option<String>, session: Option<String> },
    Configure { source: ConfigSource },
    FindConnection { connection: String },
    PrepareManaged,
    OpenNative { create: bool },
    Discard,
    Compose,
    Run(LaunchedRun),
    Fail(LaunchError),
    Ignore,
}

/// What came of it.
#[derive(Debug, PartialEq, Eq)]
pub enum LaunchEvent {
    Loaded,
    NoConfig,
    BadConfig,
    RecordsReady,
    RecordsFailed,
    Workspace {
        selected: Selection,
        kind: Result<ProviderKind, String>,
        snapshot: WorkspaceSnapshot,
    },
    Retained(Retained),
    Configured(FrozenProfile),
    Connection { kind: ProviderKind, fresh: String, shown: String },
    NoConnection,
    ManagedReady,
    NativeOpened { session: String },
    FreezeFailed,
    Discarded,
    Composed { inputs_match: bool, reconstructs: bool },
    Failed(String),
}

/// Where a launch stands.
#[derive(Debug, PartialEq, Eq)]
pub enum LaunchStage {
    Loading,
    Preparing,
    Reading,
    Retrieving { chosen: Chosen },
    Configuring { chosen: Chosen, retained: Retained },
    Connecting { chosen: Chosen, retained: Retained, profile: FrozenProfile },
    Managed { opening: Opening },
    Native { opening: Opening },
    Discarding,
    Composing { opening: Opening },
    Over,
}

/// A launch.
#[derive(Debug, PartialEq, Eq)]
pub struct Launch {
    pub intent: ChatIntent,
    pub config_path: String,
    pub stage: LaunchStage,
}

/// The launch at another stage.
pub open spec fn at_stage(launch: Launch, stage: LaunchStage) -> Launch {
    Launch { stage, ..launch }
}

/// The launch goes on.
pub open spec fn goes_on(
    before: Launch,
    after: Launch,
    work: LaunchWork,
    stage: LaunchStage,
    expected: LaunchWork,
) -> bool {
    &&& after == at_stage(before, stage)
    &&& work == expected
}

/// The launch fails.
pub open spec fn fails(before: Launch, after: Launch, work: LaunchWork, text: Seq<char>) -> bool {
    &&& after == at_stage(before, LaunchStage::Over)
    &&& work matches LaunchWork::Fail(error)
    &&& refusal(error, text)
}

/// Nothing changed.
pub open spec fn ignores(before: Launch, after: Launch, work: LaunchWork) -> bool {
    &&& after == before
    &&& work == LaunchWork::Ignore
}

/// Whether a conversation is looked for where none was named: not where a new
/// one is wanted, and for a one-shot run only where it continues.
pub open spec fn looks_for_one(intent: ChatIntent) -> bool {
    intent.target is None && intent.resume is None && !intent.force_new && (intent.continue_chat
        || !intent.one_shot)
}

/// Whether a decision about the conversation follows from what was asked for and
/// from what the workspace holds.
pub open spec fn chooses(
    intent: ChatIntent,
    selected: Selection,
    snapshot: WorkspaceSnapshot,
    found: Option<ConversationRef>,
    chosen: Chosen,
) -> bool {
    &&& chosen.selected == selected
    &&& chosen.snapshot == snapshot
    &&& chosen.exact == (intent.target is Some)
    &&& chosen.implicit_managed == (found matches Some(conversation) && conversation is Managed)
    &&& chosen.target == (if intent.target is Some {
        intent.target
    } else {
        found
    })
}

/// The key under which a conversation's profile is saved.
pub open spec fn profile_key(intent: ChatIntent, target: Option<ConversationRef>) -> Option<
    Seq<char>,
> {
    let named = match target {
        Some(conversation) => conversation.identity(),
        None => None,
    };
    if named is Some {
        named
    } else {
        option_view(intent.resume)
    }
}

/// The session that is taken up again, if one is.
pub open spec fn taken_session(intent: ChatIntent, target: Option<ConversationRef>) -> Option<
    String,
> {
    match target {
        Some(ConversationRef::Native { session }) => Some(session),
        _ => intent.resume,
    }
}

/// The launch looks up what is retained of the chosen conversation.
pub open spec fn retrieves(
    before: Launch,
    selected: Selection,
    snapshot: WorkspaceSnapshot,
    found: Option<ConversationRef>,
    after: Launch,
    work: LaunchWork,
) -> bool {
    &&& after.intent == before.intent
    &&& after.config_path == before.config_path
    &&& after.stage matches LaunchStage::Retrieving { chosen }
    &&& chooses(before.intent, selected, snapshot, found, chosen)
    &&& work matches LaunchWork::Retrieve { profile_key: key, session }
    &&& option_view(key) == profile_key(before.intent, chosen.target)
    &&& session == taken_session(before.intent, chosen.target)
}

/// Where the settings of a conversation come from, if there are any. Unfinished
/// work keeps those it has.
pub open spec fn source_of(retained: Retained) -> Option<ConfigSource> {
    match retained.session {
        Some(session) => if session.unfinished {
            if session.configured {
                Some(ConfigSource::Session)
            } else if retained.saved_profile {
                Some(ConfigSource::SavedProfile)
            } else {
                None
            }
        } else {
            Some(ConfigSource::Resolve)
        },
        None => Some(ConfigSource::Resolve),
    }
}

/// Whether a choice of model is that of a conversation: its profile's, but for a
/// managed conversation that was taken up without being named, whose model
/// follows the current selection.
pub open spec fn selects(chosen: Chosen, profile: FrozenProfile, selection: Selection) -> bool {
    &&& selection.connection == profile.connection
    &&& if chosen.implicit_managed {
        &&& selection.model == chosen.selected.model
        &&& selection.reasoning_effort == chosen.selected.reasoning_effort
        &&& selection.reasoning_summary == chosen.selected.reasoning_summary
    } else {
        &&& selection.model == profile.model
        &&& selection.reasoning_effort == profile.reasoning_effort
        &&& selection.reasoning_summary == profile.reasoning_summary
    }
}

/// Whether a conversation may be executed by an owner of a kind.
pub open spec fn owned_by(target: ConversationRef, kind: ProviderKind, connection: Seq<char>) -> bool {
    match target {
        ConversationRef::Native { .. } => kind != ProviderKind::Codex,
        ConversationRef::Managed { connection: name, .. } => kind == ProviderKind::Codex && name@
            == connection,
        _ => false,
    }
}

/// The state of a retained conversation.
pub open spec fn state_of(rows: Seq<ConversationRow>, target: ConversationRef) -> Option<
    ConversationState,
>
    decreases rows.len(),
{
    if rows.len() == 0 {
        None
    } else if rows[0].conversation.same_as(target) {
        Some(rows[0].state)
    } else {
        state_of(rows.drop_first(), target)
    }
}

/// Why a chosen conversation cannot be opened, if it cannot.
pub open spec fn target_refusal(
    chosen: Chosen,
    kind: ProviderKind,
    connection: Seq<char>,
    shown: Seq<char>,
) -> Option<Seq<char>> {
    match chosen.target {
        None => None,
        Some(target) => if !owned_by(target, kind, connection) {
            Some(
                "Conversation "@ + shown
                    + " requires its original execution owner; select a compatible model to continue here. History was not changed"@,
            )
        } else if chosen.exact {
            match state_of(chosen.snapshot.conversations@, target) {
                Some(ConversationState::Inactive) => None,
                Some(ConversationState::Occupied { shown: state }) => Some(
                    "Conversation "@ + shown + " became "@ + state@
                        + " before control could be acquired; preview it or retry after its active Run stops"@,
                ),
                None => Some(
                    "Conversation "@ + shown + " is no longer retained in this workspace"@,
                ),
            }
        } else {
            None
        },
    }
}

/// Whether a conversation is the one that is opened.
pub open spec fn opens(
    intent: ChatIntent,
    chosen: Chosen,
    kind: ProviderKind,
    connection: Seq<char>,
    fresh: Seq<char>,
    conversation: ConversationRef,
) -> bool {
    match chosen.target {
        Some(target) => conversation == target,
        None => if kind == ProviderKind::Codex {
            &&& conversation matches ConversationRef::NewManaged {
                conversation: id,
                connection: name,
            }
            &&& name@ == connection
            &&& id@ == (match intent.resume {
                Some(session) => session@,
                None => fresh,
            })
        } else {
            match intent.resume {
                Some(session) => conversation == (ConversationRef::Native { session }),
                None => conversation == ConversationRef::NewNative,
            }
        },
    }
}

/// Whether an opening is that of the chosen conversation.
pub open spec fn prepares(
    intent: ChatIntent,
    chosen: Chosen,
    retained: Retained,
    profile: FrozenProfile,
    kind: ProviderKind,
    fresh: Seq<char>,
    opening: Opening,
) -> bool {
    &&& opens(intent, chosen, kind, profile.connection@, fresh, opening.conversation)
    &&& selects(chosen, profile, opening.selection)
    &&& opening.profile_name == profile.name
    &&& opening.freeze == !retained.saved_profile
    &&& opening.retained == retained
}

/// How a launch moves when the connection of the conversation is known.
pub open spec fn connects(
    before: Launch,
    chosen: Chosen,
    retained: Retained,
    profile: FrozenProfile,
    kind: ProviderKind,
    fresh: Seq<char>,
    shown: Seq<char>,
    after: Launch,
    work: LaunchWork,
) -> bool {
    let session = taken_session(before.intent, chosen.target);
    if !chosen.implicit_managed && !profile.summary_valid {
        fails(before, after, work, BAD_SUMMARY@)
    } else if target_refusal(chosen, kind, profile.connection@, shown) is Some {
        fails(
            before,
            after,
            work,
            target_refusal(chosen, kind, profile.connection@, shown)->0,
        )
    } else if kind != ProviderKind::Codex && (session is Some || before.intent.continue_chat)
        && chosen.snapshot.active is Some {
        &&& after == at_stage(before, LaunchStage::Over)
        &&& work == LaunchWork::Fail(LaunchError::Busy(chosen.snapshot.active))
    } else if kind == ProviderKind::Codex {
        &&& after.intent == before.intent
        &&& after.config_path == before.config_path
        &&& after.stage matches LaunchStage::Managed { opening }
        &&& prepares(before.intent, chosen, retained, profile, kind, fresh, opening)
        &&& work == LaunchWork::PrepareManaged
    } else if retained.session matches Some(held) && !held.same_workspace {
        fails(before, after, work, OTHER_WORKSPACE@)
    } else {
        &&& after.intent == before.intent
        &&& after.config_path == before.config_path
        &&& after.stage matches LaunchStage::Native { opening }
        &&& prepares(before.intent, chosen, retained, profile, kind, fresh, opening)
        &&& work == (LaunchWork::OpenNative { create: retained.session is None })
    }
}

/// A new native conversation under the session that was made for it.
pub open spec fn named(conversation: ConversationRef, session: String) -> ConversationRef {
    match conversation {
        ConversationRef::NewNative => ConversationRef::Native { session },
        _ => conversation,
    }
}

/// How a launch moves on what came of its work.
pub open spec fn launch_moves(
    before: Launch,
    event: LaunchEvent,
    after: Launch,
    work: LaunchWork,
) -> bool {
    match (before.stage, event) {
        (LaunchStage::Over, _) => ignores(before, after, work),
        (_, LaunchEvent::Failed(text)) => fails(before, after, work, text@),
        (LaunchStage::Discarding, LaunchEvent::Discarded) => fails(
            before,
            after,
            work,
            PROFILE_NOT_RECORDED@,
        ),
        (LaunchStage::Loading, LaunchEvent::Loaded) => goes_on(
            before,
            after,
            work,
            LaunchStage::Preparing,
            LaunchWork::PrepareRecords,
        ),
        (LaunchStage::Loading, LaunchEvent::NoConfig) => fails(
            before,
            after,
            work,
            "Xana is not initialized at "@ + before.config_path@
                + "\nrun `xana setup` to create it"@,
        ),
        (LaunchStage::Loading, LaunchEvent::BadConfig) => fails(
            before,
            after,
            work,
            "failed to load config from "@ + before.config_path@,
        ),
        (LaunchStage::Preparing, LaunchEvent::RecordsReady) => goes_on(
            before,
            after,
            work,
            LaunchStage::Reading,
            LaunchWork::ReadWorkspace,
        ),
        (LaunchStage::Preparing, LaunchEvent::RecordsFailed) => fails(
            before,
            after,
            work,
            PRIVATE_STATE@,
        ),
        (LaunchStage::Reading, LaunchEvent::Workspace { selected, kind, snapshot }) => {
            if !looks_for_one(before.intent) {
                retrieves(before, selected, snapshot, None, after, work)
            } else {
                match kind {
                    Err(text) => fails(before, after, work, text@),
                    Ok(kind) => exists|choice: Result<Option<ConversationRef>, LaunchError>|
                        {
                            &&& #[trigger] takes_up(
                                snapshot,
                                selected.connection@,
                                kind,
                                before.intent.continue_chat,
                                choice,
                            )
                            &&& match choice {
                                Ok(found) => retrieves(
                                    before,
                                    selected,
                                    snapshot,
                                    found,
                                    after,
                                    work,
                                ),
                                Err(error) => after == at_stage(before, LaunchStage::Over) && work
                                    == LaunchWork::Fail(error),
                            }
                        },
                }
            }
        },
        (LaunchStage::Retrieving { chosen }, LaunchEvent::Retained(retained)) => match source_of(
            retained,
        ) {
            Some(source) => goes_on(
                before,
                after,
                work,
                LaunchStage::Configuring { chosen, retained },
                LaunchWork::Configure { source },
            ),
            None => fails(before, after, work, NO_SAVED_PROFILE@),
        },
        (
            LaunchStage::Configuring { chosen, retained },
            LaunchEvent::Configured(profile),
        ) => if chosen.exact && (chosen.target matches Some(target) && target is Managed)
            && !retained.saved_profile {
            fails(before, after, work, UNSAFE_ATTACH@)
        } else {
            goes_on(
                before,
                after,
                work,
                LaunchStage::Connecting { chosen, retained, profile },
                LaunchWork::FindConnection { connection: profile.connection },
            )
        },
        (LaunchStage::Connecting { .. }, LaunchEvent::NoConnection) => fails(
            before,
            after,
            work,
            CONNECTION_UNAVAILABLE@,
        ),
        (
            LaunchStage::Connecting { chosen, retained, profile },
            LaunchEvent::Connection { kind, fresh, shown },
        ) => connects(
            before,
            chosen,
            retained,
            profile,
            kind,
            fresh@,
            shown@,
            after,
            work,
        ),
        (LaunchStage::Managed { opening }, LaunchEvent::ManagedReady) => if before.intent.one_shot
            && before.intent.conditions {
            fails(before, after, work, MANAGED_CHECKS@)
        } else {
            goes_on(
                before,
                after,
                work,
                LaunchStage::Over,
                LaunchWork::Run(
                    LaunchedRun {
                        opening,
                        managed: true,
                        one_shot: before.intent.one_shot,
                        configure: false,
                        cannot_resume: false,
                    },
                ),
            )
        },
        (LaunchStage::Native { opening }, LaunchEvent::NativeOpened { session }) => goes_on(
            before,
            after,
            work,
            LaunchStage::Composing {
                opening: Opening {
                    conversation: named(opening.conversation, session),
                    ..opening
                },
            },
            LaunchWork::Compose,
        ),
        (
            LaunchStage::Native { opening },
            LaunchEvent::FreezeFailed,
        ) => if opening.retained.session is Some {
            fails(before, after, work, PROFILE_NOT_RECORDED@)
        } else {
            goes_on(before, after, work, LaunchStage::Discarding, LaunchWork::Discard)
        },
        (
            LaunchStage::Composing { opening },
            LaunchEvent::Composed { inputs_match, reconstructs },
        ) => {
            let pending = opening.retained.is_pending();
            if !pending && !inputs_match {
                fails(before, after, work, SETTINGS_MOVED@)
            } else {
                goes_on(
                    before,
                    after,
                    work,
                    LaunchStage::Over,
                    LaunchWork::Run(
                        LaunchedRun {
                            opening,
                            managed: false,
                            one_shot: before.intent.one_shot,
                            configure: !pending,
                            cannot_resume: pending && !(reconstructs
                                && opening.retained.session->0.configured),
                        },
                    ),
                )
            }
        },
        _ => ignores(before, after, work),
    }
}

fn find_state<'a>(rows: &'a Vec<ConversationRow>, target: &ConversationRef) -> (state: Option<
    &'a ConversationState,
>)
    ensures
        match state {
            Some(held) => state_of(rows@, *target) == Some(*held),
            None => state_of(rows@, *target) is None,
        },
{
    let mut i: usize = 0;
    assert(rows@.skip(0) =~= rows@);
    while i < rows.len()
        invariant
            i <= rows@.len(),
            state_of(rows@, *target) == state_of(rows@.skip(i as int), *target),
        decreases rows@.len() - i,
    {
        assert(rows@.skip(i as int).drop_first() =~= rows@.skip(i + 1));
        if rows[i].conversation.same(target) {
            return Some(&rows[i].state);
        }
        i += 1;
    }
    None
}

fn refuse_target(chosen: &Chosen, kind: ProviderKind, connection: &str, shown: &str) -> (refused:
    Option<String>)
    ensures
        option_view(refused) == target_refusal(*chosen, kind, connection@, shown@),
{
    match &chosen.target {
        None => None,
        Some(target) => {
            let codex = matches!(kind, ProviderKind::Codex);
            let owned = match target {
                ConversationRef::Native { .. } => !codex,
                ConversationRef::Managed { connection: name, .. } => codex && text_eq(
                    name.as_str(),
                    connection,
                ),
                _ => false,
            };
            let mut text = "Conversation ".to_owned();
            text.append(shown);
            if !owned {
                text.append(
                    " requires its original execution owner; select a compatible model to continue here. History was not changed",
                );
                Some(text)
            } else if chosen.exact {
                match find_state(&chosen.snapshot.conversations, target) {
                    Some(ConversationState::Inactive) => None,
                    Some(ConversationState::Occupied { shown: state }) => {
                        text.append(" became ");
                        text.append(state.as_str());
                        text.append(
                            " before control could be acquired; preview it or retry after its active Run stops",
                        );
                        Some(text)
                    },
                    None => {
                        text.append(" is no longer retained in this workspace");
                        Some(text)
                    },
                }
            } else {
                None
            }
        },
    }
}

impl Launch {
    /// Begins a launch.
    pub fn start(intent: ChatIntent, config_path: String) -> (begun: (Launch, LaunchWork))
        ensures
            begun.0 == (Launch { intent, config_path, stage: LaunchStage::Loading }),
            begun.1 == LaunchWork::LoadConfig,
    {
        (Launch { intent, config_path, stage: LaunchStage::Loading }, LaunchWork::LoadConfig)
    }

    fn go(&mut self, stage: LaunchStage, work: LaunchWork) -> (next: LaunchWork)
        ensures
            goes_on(*old(self), *final(self), next, stage, work),
    {
        self.stage = stage;
        work
    }

    fn fail(&mut self, text: String) -> (next: LaunchWork)
        ensures
            fails(*old(self), *final(self), next, text@),
    {
        self.stage = LaunchStage::Over;
        LaunchWork::Fail(LaunchError::Refused(text))
    }

    fn retrieve(
        &mut self,
        selected: Selection,
        snapshot: WorkspaceSnapshot,
        found: Option<ConversationRef>,
    ) -> (next: LaunchWork)
        ensures
            retrieves(*old(self), selected, snapshot, found, *final(self), next),
    {
        let exact = self.intent.target.is_some();
        let implicit_managed = match &found {
            Some(ConversationRef::Managed { .. }) => true,
            _ => false,
        };
        let target = match &self.intent.target {
            Some(target) => Some(target.copy()),
            None => found,
        };
        let identity = match &target {
            Some(target) => target.conversation_id(),
            None => None,
        };
        let profile_key = match identity {
            Some(id) => Some(id),
            None => crate::text::copy_option(&self.intent.resume),
        };
        let session = match &target {
            Some(ConversationRef::Native { session }) => Some(session.clone()),
            _ => crate::text::copy_option(&self.intent.resume),
        };
        self.stage = LaunchStage::Retrieving {
            chosen: Chosen { selected, snapshot, exact, implicit_managed, target },
        };
        LaunchWork::Retrieve { profile_key, session }
    }

    fn read(
        &mut self,
        selected: Selection,
        kind: Result<ProviderKind, String>,
        snapshot: WorkspaceSnapshot,
    ) -> (next: LaunchWork)
        ensures
            launch_moves(
                at_stage(*old(self), LaunchStage::Reading),
                LaunchEvent::Workspace { selected, kind, snapshot },
                *final(self),
                next,
            ),
    {
        let looks = self.intent.target.is_none() && self.intent.resume.is_none()
            && !self.intent.force_new && (self.intent.continue_chat || !self.intent.one_shot);
        if !looks {
            return self.retrieve(selected, snapshot, None);
        }
        match kind {
            Err(text) => self.fail(text),
            Ok(kind) => {
                let choice = automatic_conversation(
                    &snapshot,
                    selected.connection.as_str(),
                    kind,
                    self.intent.continue_chat,
                );
                let ghost made = choice;
                assert(takes_up(
                    snapshot,
                    selected.connection@,
                    kind,
                    self.intent.continue_chat,
                    made,
                ));
                match choice {
                    Ok(found) => self.retrieve(selected, snapshot, found),
                    Err(error) => {
                        self.stage = LaunchStage::Over;
                        LaunchWork::Fail(error)
                    },
                }
            },
        }
    }

    fn connect(
        &mut self,
        chosen: Chosen,
        retained: Retained,
        profile: FrozenProfile,
        kind: ProviderKind,
        fresh: String,
        shown: String,
    ) -> (next: LaunchWork)
        ensures
            connects(
                at_stage(*old(self), LaunchStage::Connecting { chosen, retained, profile }),
                chosen,
                retained,
                profile,
                kind,
                fresh@,
                shown@,
                *final(self),
                next,
            ),
    {
        if !chosen.implicit_managed && !profile.summary_valid {
            return self.fail(BAD_SUMMARY.to_owned());
        }
        if let Some(text) = refuse_target(
            &chosen,
            kind,
            profile.connection.as_str(),
            shown.as_str(),
        ) {
            return self.fail(text);
        }
        let codex = matches!(kind, ProviderKind::Codex);
        let takes_session = match &chosen.target {
            Some(ConversationRef::Native { .. }) => true,
            _ => self.intent.resume.is_some(),
        };
        if !codex && (takes_session || self.intent.continue_chat)
            && chosen.snapshot.active.is_some() {
            self.stage = LaunchStage::Over;
            return LaunchWork::Fail(LaunchError::Busy(chosen.snapshot.active));
        }
        let selection = if chosen.implicit_managed {
            Selection {
                connection: profile.connection.clone(),
                model: chosen.selected.model,
                reasoning_effort: chosen.selected.reasoning_effort,
                reasoning_summary: chosen.selected.reasoning_summary,
            }
        } else {
            Selection {
                connection: profile.connection.clone(),
                model: profile.model,
                reasoning_effort: profile.reasoning_effort,
                reasoning_summary: profile.reasoning_summary,
            }
        };
        let conversation = match chosen.target {
            Some(target) => target,
            None => {
                let resume = crate::text::copy_option(&self.intent.resume);
                if codex {
                    ConversationRef::NewManaged {
                        conversation: match resume {
                            Some(session) => session,
                            None => fresh,
                        },
                        connection: profile.connection,
                    }
                } else {
                    match resume {
                        Some(session) => ConversationRef::Native { session },
                        None => ConversationRef::NewNative,
                    }
                }
            },
        };
        let opening = Opening {
            conversation,
            selection,
            profile_name: profile.name,
            freeze: !retained.saved_profile,
            retained,
        };
        if codex {
            return self.go(LaunchStage::Managed { opening }, LaunchWork::PrepareManaged);
        }
        match retained.session {
            Some(session) => {
                if !session.same_workspace {
                    return self.fail(OTHER_WORKSPACE.to_owned());
                }
            },
            None => {},
        }
        self.go(
            LaunchStage::Native { opening },
            LaunchWork::OpenNative { create: retained.session.is_none() },
        )
    }

    fn compose(&mut self, opening: Opening, inputs_match: bool, reconstructs: bool) -> (next:
        LaunchWork)
        ensures
            launch_moves(
                at_stage(*old(self), LaunchStage::Composing { opening }),
                LaunchEvent::Composed { inputs_match, reconstructs },
                *final(self),
                next,
            ),
    {
        let pending = opening.retained.pending();
        if !pending && !inputs_match {
            return self.fail(SETTINGS_MOVED.to_owned());
        }
        let configured = match opening.retained.session {
            Some(session) => session.configured,
            None => false,
        };
        let one_shot = self.intent.one_shot;
        self.go(
            LaunchStage::Over,
            LaunchWork::Run(
                LaunchedRun {
                    opening,
                    managed: false,
                    one_shot,
                    configure: !pending,
                    cannot_resume: pending && !(reconstructs && configured),
                },
            ),
        )
    }

    fn step_early(&mut self, stage: LaunchStage, event: LaunchEvent) -> (next: LaunchWork)
        requires
            stage is Loading || stage is Preparing || stage is Reading,
            !(event is Failed),
        ensures
            launch_moves(at_stage(*old(self), stage), event, *final(self), next),
    {
        match (stage, event) {
            (LaunchStage::Loading, LaunchEvent::Loaded) => self.go(
                LaunchStage::Preparing,
                LaunchWork::PrepareRecords,
            ),
            (LaunchStage::Loading, LaunchEvent::NoConfig) => {
                let mut text = "Xana is not initialized at ".to_owned();
                text.append(self.config_path.as_str());
                text.append("\nrun `xana setup` to create it");
                self.fail(text)
            },
            (LaunchStage::Loading, LaunchEvent::BadConfig) => {
                let mut text = "failed to load config from ".to_owned();
                text.append(self.config_path.as_str());
                self.fail(text)
            },
            (LaunchStage::Preparing, LaunchEvent::RecordsReady) => self.go(
                LaunchStage::Reading,
                LaunchWork::ReadWorkspace,
            ),
            (LaunchStage::Preparing, LaunchEvent::RecordsFailed) => self.fail(
                PRIVATE_STATE.to_owned(),
            ),
            (
                LaunchStage::Reading,
                LaunchEvent::Workspace { selected, kind, snapshot },
            ) => self.read(selected, kind, snapshot),
            (stage, _) => {
                self.stage = stage;
                LaunchWork::Ignore
            },
        }
    }

    fn step_middle(&mut self, stage: LaunchStage, event: LaunchEvent) -> (next: LaunchWork)
        requires
            stage is Retrieving || stage is Configuring || stage is Connecting,
            !(event is Failed),
        ensures
            launch_moves(at_stage(*old(self), stage), event, *final(self), next),
    {
        match (stage, event) {
            (LaunchStage::Retrieving { chosen }, LaunchEvent::Retained(retained)) => {
                let source = match retained.session {
                    Some(session) => if session.unfinished {
                        if session.configured {
                            ConfigSource::Session
                        } else if retained.saved_profile {
                            ConfigSource::SavedProfile
                        } else {
                            return self.fail(NO_SAVED_PROFILE.to_owned());
                        }
                    } else {
                        ConfigSource::Resolve
                    },
                    None => ConfigSource::Resolve,
                };
                self.go(
                    LaunchStage::Configuring { chosen, retained },
                    LaunchWork::Configure { source },
                )
            },
            (
                LaunchStage::Configuring { chosen, retained },
                LaunchEvent::Configured(profile),
            ) => {
                let managed = match &chosen.target {
                    Some(ConversationRef::Managed { .. }) => true,
                    _ => false,
                };
                if chosen.exact && managed && !retained.saved_profile {
                    return self.fail(UNSAFE_ATTACH.to_owned());
                }
                let connection = profile.connection.clone();
                self.go(
                    LaunchStage::Connecting { chosen, retained, profile },
                    LaunchWork::FindConnection { connection },
                )
            },
            (LaunchStage::Connecting { .. }, LaunchEvent::NoConnection) => self.fail(
                CONNECTION_UNAVAILABLE.to_owned(),
            ),
            (
                LaunchStage::Connecting { chosen, retained, profile },
                LaunchEvent::Connection { kind, fresh, shown },
            ) => self.connect(chosen, retained, profile, kind, fresh, shown),
            (stage, _) => {
                self.stage = stage;
                LaunchWork::Ignore
            },
        }
    }

    fn step_late(&mut self, stage: LaunchStage, event: LaunchEvent) -> (next: LaunchWork)
        requires
            stage is Managed || stage is Native || stage is Composing,
            !(event is Failed),
        ensures
            launch_moves(at_stage(*old(self), stage), event, *final(self), next),
    {
        match (stage, event) {
            (LaunchStage::Managed { opening }, LaunchEvent::ManagedReady) => {
                if self.intent.one_shot && self.intent.conditions {
                    return self.fail(MANAGED_CHECKS.to_owned());
                }
                let one_shot = self.intent.one_shot;
                self.go(
                    LaunchStage::Over,
                    LaunchWork::Run(
                        LaunchedRun {
                            opening,
                            managed: true,
                            one_shot,
                            configure: false,
                            cannot_resume: false,
                        },
                    ),
                )
            },
            (LaunchStage::Native { opening }, LaunchEvent::NativeOpened { session }) => {
                let conversation = match opening.conversation {
                    ConversationRef::NewNative => ConversationRef::Native { session },
                    conversation => conversation,
                };
                self.go(
                    LaunchStage::Composing {
                        opening: Opening {
                            conversation,
                            selection: opening.selection,
                            profile_name: opening.profile_name,
                            freeze: opening.freeze,
                            retained: opening.retained,
                        },
                    },
                    LaunchWork::Compose,
                )
            },
            (LaunchStage::Native { opening }, LaunchEvent::FreezeFailed) => {
                if opening.retained.session.is_some() {
                    self.fail(PROFILE_NOT_RECORDED.to_owned())
                } else {
                    self.go(LaunchStage::Discarding, LaunchWork::Discard)
                }
            },
            (
                LaunchStage::Composing { opening },
                LaunchEvent::Composed { inputs_match, reconstructs },
            ) => self.compose(opening, inputs_match, reconstructs),
            (stage, _) => {
                self.stage = stage;
                LaunchWork::Ignore
            },
        }
    }

    /// Moves a launch on what came of its work.
    pub fn step(&mut self, event: LaunchEvent) -> (next: LaunchWork)
        ensures
            launch_moves(*old(self), event, *final(self), next),
    {
        let mut stage = LaunchStage::Over;
        core::mem::swap(&mut self.stage, &mut stage);
        match (stage, event) {
            (LaunchStage::Over, _) => LaunchWork::Ignore,
            (LaunchStage::Discarding, LaunchEvent::Discarded) => self.fail(
                PROFILE_NOT_RECORDED.to_owned(),
            ),
            (_, LaunchEvent::Failed(text)) => self.fail(text),
            (LaunchStage::Discarding, _) => self.go(LaunchStage::Discarding, LaunchWork::Ignore),
            (stage, event) => match stage {
                LaunchStage::Loading | LaunchStage::Preparing | LaunchStage::Reading => {
                    self.step_early(stage, event)
                },
                LaunchStage::Retrieving { .. }
                | LaunchStage::Configuring { .. }
                | LaunchStage::Connecting { .. } => self.step_middle(stage, event),
                stage => self.step_late(stage, event),
            },
        }
    }
}

/// Unfinished work keeps the settings it runs under: they are taken from the
/// session or from the profile saved with it, never from what is configured now,
/// and nothing newer is recorded with the session.
pub proof fn unfinished_work_keeps_its_settings(
    before: Launch,
    event: LaunchEvent,
    after: Launch,
    work: LaunchWork,
)
    requires
        launch_moves(before, event, after, work),
    ensures
        event matches LaunchEvent::Retained(retained) ==> retained.is_pending() ==> work != (
        LaunchWork::Configure { source: ConfigSource::Resolve }),
        work matches LaunchWork::Run(run) ==> run.opening.retained.is_pending() ==> !run.configure,
{
}

/// A conversation that was asked for by name is opened only by the owner it has,
/// and only while nobody else is at work on it.
pub proof fn named_conversations_are_opened_by_their_owner(
    before: Launch,
    kind: ProviderKind,
    fresh: String,
    shown: String,
    after: Launch,
    work: LaunchWork,
)
    requires
        launch_moves(before, LaunchEvent::Connection { kind, fresh, shown }, after, work),
        work is PrepareManaged || work is OpenNative,
    ensures
        before.stage matches LaunchStage::Connecting { chosen, profile, .. } && (chosen.target
            matches Some(target) ==> {
            &&& owned_by(target, kind, profile.connection@)
            &&& chosen.exact ==> state_of(chosen.snapshot.conversations@, target) == Some(
                ConversationState::Inactive,
            )
        }),
        work is OpenNative ==> kind != ProviderKind::Codex,
        work is PrepareManaged ==> kind == ProviderKind::Codex,
{
}

/// A conversation whose profile is saved is never given another one.
pub proof fn saved_profiles_are_not_frozen_again(
    before: Launch,
    kind: ProviderKind,
    fresh: String,
    shown: String,
    after: Launch,
    work: LaunchWork,
)
    requires
        launch_moves(before, LaunchEvent::Connection { kind, fresh, shown }, after, work),
        before.stage is Connecting,
    ensures
        after.stage matches LaunchStage::Native { opening } ==> opening.freeze
            == !opening.retained.saved_profile,
        after.stage matches LaunchStage::Managed { opening } ==> opening.freeze
            == !opening.retained.saved_profile,
{
}

/// A native conversation is not taken up again while somebody is at work in the
/// workspace.
pub proof fn busy_workspaces_are_not_continued(
    before: Launch,
    kind: ProviderKind,
    fresh: String,
    shown: String,
    after: Launch,
    work: LaunchWork,
)
    requires
        launch_moves(before, LaunchEvent::Connection { kind, fresh, shown }, after, work),
        before.stage matches LaunchStage::Connecting { chosen, .. } && chosen.snapshot.active is Some
            && taken_session(before.intent, chosen.target) is Some,
        kind != ProviderKind::Codex,
    ensures
        work is Fail,
{
}

/// What is written when a launch begins.
#[derive(Clone, Copy, PartialEq, Eq, Structural, Debug)]
pub enum LaunchOpening {
    /// The banner and the place of the configuration, on the output.
    Banner,
    /// The place of the configuration, beside the output.
    Notice,
    /// Nothing: a full screen is drawn by its surface alone.
    Silent,
}

/// The kind of surface that a conversation is held on.
#[derive(Clone, Copy, PartialEq, Eq, Structural, Debug)]
pub enum SurfaceKind {
    Plain,
    Tui,
    Hosted,
    Desktop,
}

/// What is written when a launch begins.
pub fn launch_opening(surface: SurfaceKind, one_shot: bool) -> (opening: LaunchOpening)
    ensures
        opening == (match surface {
            SurfaceKind::Plain => if one_shot {
                LaunchOpening::Notice
            } else {
                LaunchOpening::Banner
            },
            SurfaceKind::Tui | SurfaceKind::Desktop => LaunchOpening::Silent,
            SurfaceKind::Hosted => LaunchOpening::Notice,
        }),
{
    match surface {
        SurfaceKind::Plain => if one_shot {
            LaunchOpening::Notice
        } else {
            LaunchOpening::Banner
        },
        SurfaceKind::Tui | SurfaceKind::Desktop => LaunchOpening::Silent,
        SurfaceKind::Hosted => LaunchOpening::Notice,
    }
}

/// The instructions that a managed runtime is given.
pub open spec fn instructions(identity: Seq<char>, skills: Seq<Seq<char>>) -> Seq<char> {
    let told = joined(skills, "\n\n"@);
    if told.len() == 0 {
        identity
    } else {
        identity + "\n\n<activated_agent_skills>\n"@ + told + "\n</activated_agent_skills>"@
    }
}

/// The instructions that a managed runtime is given: who it is, and the skills
/// that are activated.
pub fn developer_instructions(identity: &str, skills: &Vec<String>) -> (text: String)
    ensures
        text@ == instructions(identity@, views(skills@)),
{
    let told = join(skills, "\n\n");
    let mut text = identity.to_owned();
    if !told.as_str().is_empty() {
        text.append("\n\n<activated_agent_skills>\n");
        text.append(told.as_str());
        text.append("\n</activated_agent_skills>");
    }
    text
}

proof fn managed_choices_are_selected(rows: Seq<ConversationRow>, connection: Seq<char>)
    ensures
        managed_choice(rows, connection) matches Some(found) ==> exists|i: int|
            0 <= i < rows.len() && (#[trigger] rows[i]).conversation == found && selected_on(
                rows[i],
                connection,
            ) && forall|j: int| 0 <= j < i ==> !selected_on(#[trigger] rows[j], connection),
        managed_choice(rows, connection) is None ==> forall|i: int|
            0 <= i < rows.len() ==> !selected_on(#[trigger] rows[i], connection),
    decreases rows.len(),
{
    if rows.len() > 0 && !selected_on(rows[0], connection) {
        let rest = rows.drop_first();
        managed_choices_are_selected(rest, connection);
        if let Some(found) = managed_choice(rows, connection) {
            let at = choose|i: int|
                0 <= i < rest.len() && (#[trigger] rest[i]).conversation == found && selected_on(
                    rest[i],
                    connection,
                ) && forall|j: int| 0 <= j < i ==> !selected_on(#[trigger] rest[j], connection);
            assert(rows[at + 1] == rest[at]);
            assert forall|j: int| 0 <= j < at + 1 implies !selected_on(
                #[trigger] rows[j],
                connection,
            ) by {
                if j > 0 {
                    assert(rest[j - 1] == rows[j]);
                }
            }
        } else {
            assert forall|i: int| 0 <= i < rows.len() implies !selected_on(
                #[trigger] rows[i],
                connection,
            ) by {
                if i > 0 {
                    assert(rest[i - 1] == rows[i]);
                }
            }
        }
    }
}

proof fn native_choices_are_the_latest(rows: Seq<ConversationRow>)
    ensures
        native_choice(rows) matches Some(found) ==> exists|i: int|
            0 <= i < rows.len() && (#[trigger] rows[i]).conversation == found && found is Native
                && forall|j: int| 0 <= j < i ==> (#[trigger] rows[j]).conversation !is Native,
        native_choice(rows) is None ==> forall|i: int|
            0 <= i < rows.len() ==> (#[trigger] rows[i]).conversation !is Native,
    decreases rows.len(),
{
    if rows.len() > 0 && rows[0].conversation !is Native {
        let rest = rows.drop_first();
        native_choices_are_the_latest(rest);
        if let Some(found) = native_choice(rows) {
            let at = choose|i: int|
                0 <= i < rest.len() && (#[trigger] rest[i]).conversation == found && found is Native
                    && forall|j: int| 0 <= j < i ==> (#[trigger] rest[j]).conversation !is Native;
            assert(rows[at + 1] == rest[at]);
            assert forall|j: int| 0 <= j < at + 1 implies (#[trigger] rows[j]).conversation
                !is Native by {
                if j > 0 {
                    assert(rest[j - 1] == rows[j]);
                }
            }
        } else {
            assert forall|i: int| 0 <= i < rows.len() implies (#[trigger] rows[i]).conversation
                !is Native by {
                if i > 0 {
                    assert(rest[i - 1] == rows[i]);
                }
            }
        }
    }
}

/// Where no conversation is named, the one that is taken up is one that the workspace holds:
/// on a managed connection the first that is selected on it, and otherwise the first native
/// one, and none while somebody is at work. Where one has to be there and is not, that is an
/// error.
pub proof fn taken_up_conversations_are_retained(
    snapshot: WorkspaceSnapshot,
    connection: &str,
    kind: ProviderKind,
    require_existing: bool,
    choice: Result<Option<ConversationRef>, LaunchError>,
)
    requires
        call_ensures(
            automatic_conversation,
            (&snapshot, connection, kind, require_existing),
            choice,
        ),
    ensures
        kind == ProviderKind::Codex ==> {
            &&& choice is Ok
            &&& choice matches Ok(Some(found)) ==> exists|i: int|
                0 <= i < snapshot.conversations@.len() && (#[trigger] snapshot.conversations@[i]
                ).conversation == found && snapshot.conversations@[i].selected && (found
                    matches ConversationRef::Managed { connection: name, .. } && name@
                    == connection@)
            &&& choice matches Ok(None) ==> forall|i: int|
                0 <= i < snapshot.conversations@.len() ==> !selected_on(
                    #[trigger] snapshot.conversations@[i],
                    connection@,
                )
        },
        kind != ProviderKind::Codex ==> {
            &&& choice matches Ok(Some(found)) ==> snapshot.active is None && found is Native
                && exists|i: int|
                0 <= i < snapshot.conversations@.len() && (#[trigger] snapshot.conversations@[i]
                ).conversation == found && forall|j: int|
                    0 <= j < i ==> (#[trigger] snapshot.conversations@[j]).conversation !is Native
            &&& choice is Err ==> require_existing
            &&& require_existing ==> !(choice matches Ok(None))
            &&& require_existing && snapshot.active is Some ==> (choice matches Err(
                LaunchError::Busy(who),
            ) && who == snapshot.active)
            &&& snapshot.active is None && (exists|i: int|
                0 <= i < snapshot.conversations@.len() && (#[trigger] snapshot.conversations@[i]
                ).conversation is Native) ==> (choice matches Ok(Some(_)))
        },
{
    managed_choices_are_selected(snapshot.conversations@, connection@);
    native_choices_are_the_latest(snapshot.conversations@);
    if let Some(found) = managed_choice(snapshot.conversations@, connection@) {
        let at = choose|i: int|
            0 <= i < snapshot.conversations@.len() && (#[trigger] snapshot.conversations@[i]
            ).conversation == found && selected_on(snapshot.conversations@[i], connection@)
                && forall|j: int|
                0 <= j < i ==> !selected_on(#[trigger] snapshot.conversations@[j], connection@);
        assert(selected_on(snapshot.conversations@[at], connection@));
    }
}

/// The conversation that was named is the one that is looked up, and where a new one is
/// wanted none is; a session that is to be resumed is looked up under its own name.
pub proof fn named_conversations_are_looked_up(
    before: Launch,
    event: LaunchEvent,
    after: Launch,
    work: LaunchWork,
)
    requires
        launch_moves(before, event, after, work),
        before.stage is Reading,
        event is Workspace,
        work is Retrieve,
    ensures
        after.stage matches LaunchStage::Retrieving { chosen } && {
            &&& before.intent.target is Some ==> chosen.target == before.intent.target
                && chosen.exact
            &&& before.intent.target is None ==> !chosen.exact
            &&& before.intent.force_new && before.intent.target is None ==> chosen.target is None
            &&& before.intent.resume is Some && before.intent.target is None ==> chosen.target
                is None
            &&& before.intent.one_shot && !before.intent.continue_chat && before.intent.target
                is None ==> chosen.target is None
            &&& work matches LaunchWork::Retrieve { session, .. } && (match chosen.target {
                Some(ConversationRef::Native { session: held }) => session == Some(held),
                _ => session == before.intent.resume,
            })
        },
{
}

/// A conversation with unfinished work runs under what it was begun with; every other runs
/// under what is configured now; and unfinished work of which nothing was saved is not run.
pub proof fn settings_come_from_where_they_should(
    before: Launch,
    retained: Retained,
    after: Launch,
    work: LaunchWork,
)
    requires
        launch_moves(before, LaunchEvent::Retained(retained), after, work),
        before.stage is Retrieving,
    ensures
        work == (LaunchWork::Configure { source: ConfigSource::Resolve }) <==> !(retained.session
            matches Some(session) && session.unfinished),
        work == (LaunchWork::Configure { source: ConfigSource::Session }) <==> (retained.session
            matches Some(session) && session.unfinished && session.configured),
        work == (LaunchWork::Configure { source: ConfigSource::SavedProfile })
            <==> retained.saved_profile && (retained.session matches Some(session)
            && session.unfinished && !session.configured),
        work is Fail <==> !retained.saved_profile && (retained.session matches Some(session)
            && session.unfinished && !session.configured),
{
}

/// What is opened is the chosen conversation, or a new one of the connection's kind where
/// none was chosen, under the name, the connection and the model of its profile; only a
/// managed conversation that was taken up unnamed follows the current model.
pub proof fn chosen_conversations_are_opened(
    before: Launch,
    kind: ProviderKind,
    fresh: String,
    shown: String,
    after: Launch,
    work: LaunchWork,
)
    requires
        launch_moves(before, LaunchEvent::Connection { kind, fresh, shown }, after, work),
        before.stage is Connecting,
        work !is Fail,
    ensures
        before.stage matches LaunchStage::Connecting { chosen, retained, profile } && ({
            let opening = if kind == ProviderKind::Codex {
                after.stage->Managed_opening
            } else {
                after.stage->Native_opening
            };
            &&& work is PrepareManaged <==> kind == ProviderKind::Codex
            &&& chosen.target matches Some(target) ==> opening.conversation == target
            &&& chosen.target is None ==> {
                &&& kind == ProviderKind::Codex ==> opening.conversation is NewManaged
                &&& kind != ProviderKind::Codex && before.intent.resume is None
                    ==> opening.conversation is NewNative
                &&& kind != ProviderKind::Codex ==> (before.intent.resume matches Some(session)
                    ==> opening.conversation == (ConversationRef::Native { session }))
            }
            &&& opening.profile_name == profile.name
            &&& opening.selection.connection == profile.connection
            &&& opening.selection.model == (if chosen.implicit_managed {
                chosen.selected.model
            } else {
                profile.model
            })
            &&& opening.selection.reasoning_effort == (if chosen.implicit_managed {
                chosen.selected.reasoning_effort
            } else {
                profile.reasoning_effort
            })
            &&& opening.retained == retained
            &&& work matches LaunchWork::OpenNative { create } ==> (create <==> retained.session
                is None)
            &&& kind != ProviderKind::Codex ==> (retained.session matches Some(session)
                ==> session.same_workspace)
        }),
{
}

/// A launch that runs, runs what it opened, in one shot where that was asked for. Declared
/// checks never run on a managed connection; settings that moved do not start new work; and
/// unfinished work that cannot be reconstructed cannot be continued.
pub proof fn launches_run_what_they_opened(
    before: Launch,
    event: LaunchEvent,
    after: Launch,
    work: LaunchWork,
)
    requires
        launch_moves(before, event, after, work),
    ensures
        after.intent == before.intent,
        after.config_path == before.config_path,
        work matches LaunchWork::Run(run) ==> {
            &&& run.one_shot == before.intent.one_shot
            &&& run.managed <==> before.stage is Managed
            &&& run.managed ==> before.stage == (LaunchStage::Managed { opening: run.opening })
                && !(before.intent.one_shot && before.intent.conditions) && !run.cannot_resume
            &&& !run.managed ==> before.stage == (LaunchStage::Composing { opening: run.opening })
            &&& event matches LaunchEvent::Composed { inputs_match, reconstructs } ==> {
                &&& run.opening.retained.is_pending() || inputs_match
                &&& run.cannot_resume <==> run.opening.retained.is_pending() && !(reconstructs
                    && run.opening.retained.session->0.configured)
                &&& run.configure <==> !run.opening.retained.is_pending()
            }
        },
        before.stage is Managed && event is ManagedReady ==> (work is Fail
            <==> before.intent.one_shot && before.intent.conditions),
        before.stage matches LaunchStage::Composing { opening } ==> (event
            matches LaunchEvent::Composed { inputs_match, .. } ==> (work is Fail
            <==> !opening.retained.is_pending() && !inputs_match)),
        before.stage matches LaunchStage::Native { opening } ==> {
            &&& event is FreezeFailed ==> (work is Discard <==> opening.retained.session is None)
            &&& event matches LaunchEvent::NativeOpened { session } ==> (after.stage
                matches LaunchStage::Composing { opening: next } && next.selection
                == opening.selection && next.retained == opening.retained && (
            opening.conversation is NewNative ==> next.conversation == (ConversationRef::Native {
                session,
            })) && (opening.conversation !is NewNative ==> next.conversation
                == opening.conversation))
        },
        before.stage is Over ==> work is Ignore && after == before,
        before.stage !is Over ==> (event matches LaunchEvent::Failed(cause) ==> (work
            matches LaunchWork::Fail(LaunchError::Refused(told)) && told@ == cause@)),
        work is Fail || work is Run <==> after.stage is Over && before.stage !is Over,
{
}

/// The place of the configuration is told where a terminal can be written to, and a full
/// screen is left to itself.
pub proof fn launches_open_quietly(surface: SurfaceKind, one_shot: bool, opening: LaunchOpening)
    requires
        call_ensures(launch_opening, (surface, one_shot), opening),
    ensures
        opening == LaunchOpening::Banner <==> surface == SurfaceKind::Plain && !one_shot,
        opening == LaunchOpening::Silent <==> surface == SurfaceKind::Tui || surface
            == SurfaceKind::Desktop,
{
}

/// A managed runtime is told who it is, first of all, and every skill that is activated.
pub proof fn skills_are_told(identity: Seq<char>, skills: Seq<Seq<char>>, at: int)
    requires
        0 <= at < skills.len(),
    ensures
        identity.is_prefix_of(instructions(identity, skills)),
        occurs(instructions(identity, skills), skills[at]),
        instructions(identity, Seq::empty()) == identity,
{
    let told = joined(skills, "\n\n"@);
    let text = instructions(identity, skills);
    joined_parts_occur(skills, "\n\n"@, at);
    assert(identity =~= text.take(identity.len() as int));
    if told.len() == 0 {
        let place = choose|i: int|
            0 <= i <= told.len() - skills[at].len() && #[trigger] told.subrange(
                i,
                i + skills[at].len(),
            ) == skills[at];
        assert(skills[at] =~= Seq::<char>::empty());
        assert(text.subrange(0, 0) =~= skills[at]);
    } else {
        let front = identity + "\n\n<activated_agent_skills>\n"@;
        let end = "\n</activated_agent_skills>"@;
        let place = choose|i: int|
            0 <= i <= told.len() - skills[at].len() && #[trigger] told.subrange(
                i,
                i + skills[at].len(),
            ) == skills[at];
        assert(text.subrange(front.len() + place, front.len() + place + skills[at].len())
            =~= told.subrange(place, place + skills[at].len()));
    }
}

/// A conversation's identity is its session or its conversation, and two references are the
/// same only where they name the same.
pub proof fn references_name_their_conversation(one: ConversationRef, two: ConversationRef)
    requires
        one.same_as(two),
    ensures
        one is Native <==> two is Native,
        one is Managed <==> two is Managed,
        one is NewNative <==> two is NewNative,
        one is NewManaged <==> two is NewManaged,
        one.identity() == two.identity(),
{
}

/// A conversation that is opened is free to be run: its owner runs it, and one that was
/// named is retained here and inactive. A new managed one belongs to the profile's
/// connection and is known by the session that was asked for, else by a fresh one. What was
/// not saved of the profile before is saved now.
pub proof fn opened_conversations_are_free(
    before: Launch,
    kind: ProviderKind,
    fresh: String,
    shown: String,
    after: Launch,
    work: LaunchWork,
)
    requires
        launch_moves(before, LaunchEvent::Connection { kind, fresh, shown }, after, work),
        before.stage is Connecting,
        work !is Fail,
    ensures
        before.stage matches LaunchStage::Connecting { chosen, retained, profile } && ({
            let opening = if kind == ProviderKind::Codex {
                after.stage->Managed_opening
            } else {
                after.stage->Native_opening
            };
            &&& opening.freeze <==> !retained.saved_profile
            &&& opening.selection.reasoning_summary == (if chosen.implicit_managed {
                chosen.selected.reasoning_summary
            } else {
                profile.reasoning_summary
            })
            &&& chosen.target matches Some(target) ==> match target {
                ConversationRef::Native { .. } => kind != ProviderKind::Codex,
                ConversationRef::Managed { connection, .. } => kind == ProviderKind::Codex
                    && connection@ == profile.connection@,
                _ => false,
            }
            &&& chosen.target matches Some(target) ==> chosen.exact ==> state_of(
                chosen.snapshot.conversations@,
                target,
            ) == Some(ConversationState::Inactive)
            &&& opening.conversation matches ConversationRef::NewManaged { conversation, connection }
                ==> chosen.target is None ==> {
                &&& connection@ == profile.connection@
                &&& before.intent.resume matches Some(session) ==> conversation@ == session@
                &&& before.intent.resume is None ==> conversation@ == fresh@
            }
            &&& after.intent == before.intent
        }),
{
}

/// What is retained is looked up under the name of the chosen conversation, and under the
/// session that was asked for where none is chosen.
pub proof fn profiles_are_looked_up_by_name(
    before: Launch,
    event: LaunchEvent,
    after: Launch,
    work: LaunchWork,
)
    requires
        launch_moves(before, event, after, work),
        before.stage is Reading,
        event is Workspace,
        work is Retrieve,
    ensures
        after.stage matches LaunchStage::Retrieving { chosen } && (work
            matches LaunchWork::Retrieve { profile_key: key, .. } && {
            &&& chosen.target is None ==> option_view(key) == option_view(before.intent.resume)
            &&& chosen.target matches Some(target) ==> (target.identity() matches Some(name)
                ==> option_view(key) == Some(name))
        }),
        after.intent == before.intent,
{
}

}
