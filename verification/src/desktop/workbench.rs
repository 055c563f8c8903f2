//! The workbench itself: what it does with what the runtime tells it and with
//! what its user does.

use crate::desktop::navigation::{
    conversation_of, conversation_title, espejo_destination, holder_of, intended, name_of,
    navigation_for_intent, overview_destination, project_for_conversation, project_of,
    project_title, selected_item, selects, title_of, LaunchIntent, NavigationDialog,
    NavigationSnapshot, NavigationTarget, SidebarSelection,
};
use crate::desktop::retained::{
    distinct_runs, run_index, runs_are_taken_out, settles, turns_to, with_run, without_run,
    Activation, PendingCommands, PendingSubmission, Recoverable, Recoverables, RetainedUis, Settled, Submission,
};
use crate::text::{copy_option, option_view, text_eq};
use vstd::prelude::*;
use vstd::string::*;

verus! {

/// A run that used up its rounds: by what the runtime knows it, and whether it can
/// go on.
#[derive(Debug, PartialEq, Eq)]
pub struct Suspension {
    pub id: String,
    pub can_continue: bool,
}

impl Suspension {
    /// The same suspension.
    pub fn copy(&self) -> (copy: Suspension)
        ensures
            copy == *self,
    {
        Suspension { id: self.id.clone(), can_continue: self.can_continue }
    }
}

/// What is asked of the runtime.
#[derive(Debug, PartialEq, Eq)]
pub enum Request {
    Interrupt { operation: String },
    SelectManagedModel { model: String },
    SetReasoning { effort: Option<String> },
    SelectModel { connection: String, model: String },
    NewConversation { project: Option<String> },
    Switch { conversation: String },
    Rename { project: String, name: String },
    SetArchived { project: String, archived: bool },
    Ungroup { conversation: String },
    Move { conversation: String, project: String, crosses: bool },
    Branch { conversation: String, point: String },
    BeginSettings,
    ReloadSettings,
    ValidateSettings { draft: u64 },
    CommitSettings { draft: u64 },
    DiscardSettings { draft: u64 },
    SetSetting { draft: u64, key: String, value: String },
    ResetSetting { draft: u64, key: String },
    RevertSetting { draft: u64, key: String },
    Clear,
    Shutdown,
    DecidePermission { id: String, allow: bool },
    DecideRounds { suspension: Suspension, resume: bool },
    SetSidebar { mini: bool },
}

impl Request {
    /// Whether the settings wait for the answer.
    pub open spec fn about_settings(self) -> bool {
        match self {
            Request::BeginSettings => true,
            Request::ReloadSettings => true,
            Request::ValidateSettings { .. } => true,
            Request::CommitSettings { .. } => true,
            Request::DiscardSettings { .. } => true,
            Request::SetSetting { .. } => true,
            Request::ResetSetting { .. } => true,
            Request::RevertSetting { .. } => true,
            _ => false,
        }
    }

    fn is_about_settings(&self) -> (yes: bool)
        ensures
            yes == self.about_settings(),
    {
        match self {
            Request::BeginSettings => true,
            Request::ReloadSettings => true,
            Request::ValidateSettings { .. } => true,
            Request::CommitSettings { .. } => true,
            Request::DiscardSettings { .. } => true,
            Request::SetSetting { .. } => true,
            Request::ResetSetting { .. } => true,
            Request::RevertSetting { .. } => true,
            _ => false,
        }
    }
}

/// What the workbench does about something its user did.
#[derive(Debug, PartialEq, Eq)]
pub enum Response {
    Nothing,
    /// Something is wrong, and why.
    Fail(String),
    /// Something is said.
    Say(String),
    /// Something is asked of the runtime, and said where the runtime takes it.
    Ask { request: Request, said: String },
    /// Something is asked of the runtime, and nothing is said of it.
    AskQuietly { request: Request },
    /// A message is sent again. What is said is said whatever the runtime answers.
    Resend { submission: Submission, said: String },
    /// Something is asked of the user first.
    Confirm { title: String, detail: String, request: Request, said: String },
}

/// The workbench says that something is wrong.
pub open spec fn fails(response: Response, text: Seq<char>) -> bool {
    response matches Response::Fail(held) && held@ == text
}

/// The workbench says something.
pub open spec fn says(response: Response, text: Seq<char>) -> bool {
    response matches Response::Say(held) && held@ == text
}

/// The workbench asks for something.
pub open spec fn asks(response: Response, request: Request, text: Seq<char>) -> bool {
    response matches Response::Ask { request: held, said } && held == request && said@ == text
}

/// The workbench asks for something and says nothing of it.
pub open spec fn asks_quietly(response: Response, request: Request) -> bool {
    response == (Response::AskQuietly { request })
}

/// The workbench asks for something once its user agrees.
pub open spec fn confirms(
    response: Response,
    title: Seq<char>,
    detail: Seq<char>,
    request: Request,
    text: Seq<char>,
) -> bool {
    &&& response matches Response::Confirm { title: t, detail: d, request: held, said }
    &&& t@ == title
    &&& d@ == detail
    &&& held == request
    &&& said@ == text
}

/// What the settings show of a request that they made.
#[derive(Clone, Copy, PartialEq, Eq, Structural, Debug)]
pub enum SettingsSignal {
    Nothing,
    /// They are busy with what is said.
    Busy,
    /// They show the failure.
    Failed,
}

/// What is made of the runtime's immediate answer.
#[derive(Debug, PartialEq, Eq)]
pub struct Answer {
    pub response: Response,
    pub settings: SettingsSignal,
}

/// What became of a message that was handed to the runtime.
#[derive(Debug, PartialEq, Eq)]
pub enum Sent {
    /// It stands in the conversation as the message of a run.
    Shown { operation: String, text: String },
    /// It was taken without a run.
    Taken,
    /// It goes back to the composer, and why.
    Restored { submission: Submission, message: String },
}

/// What is made of a user's answer: only agreement leads on.
pub fn confirmed(response: Response, agreed: bool) -> (next: Response)
    ensures
        match response {
            Response::Confirm { request, said, .. } => if agreed {
                asks(next, request, said@)
            } else {
                next is Nothing
            },
            other => next == other,
        },
{
    match response {
        Response::Confirm { request, said, .. } => if agreed {
            Response::Ask { request, said }
        } else {
            Response::Nothing
        },
        other => other,
    }
}

fn fail(text: &str) -> (response: Response)
    ensures
        fails(response, text@),
{
    Response::Fail(text.to_owned())
}

fn ask(request: Request, said: &str) -> (response: Response)
    ensures
        asks(response, request, said@),
{
    Response::Ask { request, said: said.to_owned() }
}

/// What the workbench keeps.
#[derive(Debug, PartialEq, Eq)]
pub struct Workbench {
    pub snapshot: NavigationSnapshot,
    pub navigation: NavigationTarget,
    pub selected_project: Option<String>,
    pub selection: Option<SidebarSelection>,
    pub dialog: Option<NavigationDialog>,
    pub active: String,
    pub uis: RetainedUis,
    pub pending: PendingCommands,
    pub recoverable: Recoverables,
    pub settings_receipt: Option<String>,
    pub palette_open: bool,
    pub shutdown_pending: bool,
    pub close_prompt_open: bool,
    pub layout_generation: u64,
}

/// The conversation that a snapshot is about: the one that is attached, else the
/// one that is selected, else the session itself.
pub open spec fn shown_conversation(
    attached: Option<Seq<char>>,
    selected: Option<Seq<char>>,
    session: Seq<char>,
) -> Seq<char> {
    match attached {
        Some(id) => id,
        None => match selected {
            Some(id) => id,
            None => session,
        },
    }
}

fn pick_conversation(attached: Option<String>, selected: &Option<String>, session: String) -> (id:
    String)
    ensures
        id@ == shown_conversation(option_view(attached), option_view(*selected), session@),
{
    match attached {
        Some(id) => id,
        None => match selected {
            Some(id) => id.clone(),
            None => session,
        },
    }
}

/// The project of the conversation that is selected.
pub open spec fn project_of_selected(snapshot: NavigationSnapshot) -> Option<String> {
    match snapshot.selected_conversation {
        Some(id) => holder_of(snapshot, id@),
        None => None,
    }
}

/// The selection of the conversation that is selected.
pub open spec fn selection_of(snapshot: NavigationSnapshot) -> Option<SidebarSelection> {
    match snapshot.selected_conversation {
        Some(id) => Some(SidebarSelection::Conversation(id)),
        None => None,
    }
}

fn selected_project_of(snapshot: &NavigationSnapshot) -> (project: Option<String>)
    ensures
        project == project_of_selected(*snapshot),
{
    match &snapshot.selected_conversation {
        Some(id) => project_for_conversation(snapshot, id.as_str()),
        None => None,
    }
}

fn sidebar_selection_of(snapshot: &NavigationSnapshot) -> (selection: Option<SidebarSelection>)
    ensures
        selection == selection_of(*snapshot),
{
    match copy_option(&snapshot.selected_conversation) {
        Some(id) => Some(SidebarSelection::Conversation(id)),
        None => None,
    }
}

/// What the runtime tells. Whether an observation fits what is shown is found
/// where it is shown.
#[derive(Debug, PartialEq, Eq)]
pub enum Update {
    Snapshot { navigation: NavigationSnapshot, attached: Option<String>, session: String },
    Navigation(NavigationSnapshot),
    Layout { warning: Option<String> },
    Settings,
    SettingsDraft { present: bool },
    SettingsReceipt { receipt: String },
    AttachmentStaged { command: u64 },
    OperationState { operation: String, completed: bool, applied: bool },
    ConversationCleared { applied: bool },
    Observation { applied: bool },
    HostObservation,
    CommandResult { command: u64, accepted: bool, error: Option<String> },
    ResyncRequired,
    BackendStopped { expected: bool, error: Option<String> },
    /// Nothing more can be read from the runtime.
    Broken { error: String },
}

/// What is done about what the runtime tells.
#[derive(Debug, PartialEq, Eq)]
pub enum UpdateWork {
    Nothing,
    /// Everything is shown anew, for a conversation.
    Replace { conversation: String, activation: Activation },
    /// The appearance is that of the draft.
    PreviewDraft,
    /// The appearance is that of the settings.
    ApplySettings,
    SettingsIdle,
    SettingsError,
    /// An attachment is staged for a conversation.
    Stage { conversation: String },
    RequestSnapshot,
    ObserveHost,
    /// A message that was not taken is put back.
    Restore(PendingSubmission),
    CloseWindow,
}

/// What comes of what the runtime tells.
#[derive(Debug, PartialEq, Eq)]
pub struct Outcome {
    pub say: Option<String>,
    pub fail: Option<String>,
    pub work: UpdateWork,
    pub keep_running: bool,
}

/// An outcome with nothing said.
pub open spec fn quietly(outcome: Outcome, work: UpdateWork) -> bool {
    &&& outcome.say is None
    &&& outcome.fail is None
    &&& outcome.work == work
    &&& outcome.keep_running
}

/// An outcome with a failure.
pub open spec fn failing(outcome: Outcome, work: UpdateWork, text: Seq<char>) -> bool {
    &&& outcome.say is None
    &&& option_view(outcome.fail) == Some(text)
    &&& outcome.work == work
    &&& outcome.keep_running
}

/// The text of an error, or what is said without one.
pub open spec fn error_or(error: Option<String>, otherwise: Seq<char>) -> Seq<char> {
    match error {
        Some(text) => text@,
        None => otherwise,
    }
}

fn take_error(error: Option<String>, otherwise: &str) -> (text: String)
    ensures
        text@ == error_or(error, otherwise@),
{
    match error {
        Some(text) => text,
        None => otherwise.to_owned(),
    }
}

/// Work about an observation: where it does not fit, all is asked for again.
pub open spec fn observed(applied: bool) -> UpdateWork {
    if applied {
        UpdateWork::Nothing
    } else {
        UpdateWork::RequestSnapshot
    }
}

/// Whether a workbench is another one that shows a conversation, by a snapshot.
pub open spec fn replaced(
    before: Workbench,
    navigation: NavigationSnapshot,
    conversation: Seq<char>,
    after: Workbench,
    outcome: Outcome,
) -> bool {
    &&& after.snapshot == navigation
    &&& after.selected_project == project_of_selected(navigation)
    &&& after.selection == selection_of(navigation)
    &&& after.active@ == conversation
    &&& after == (Workbench {
        snapshot: after.snapshot,
        selected_project: after.selected_project,
        selection: after.selection,
        active: after.active,
        uis: after.uis,
        ..before
    })
    &&& outcome.say is None
    &&& outcome.fail is None
    &&& outcome.keep_running
    &&& outcome.work matches UpdateWork::Replace { conversation: shown, activation }
    &&& shown@ == conversation
    &&& turns_to(before.uis.order@, conversation, after.uis.order@, activation)
}

/// How an answer to a command is taken.
pub open spec fn settled_by(
    before: Workbench,
    command: u64,
    accepted: bool,
    error: Option<String>,
    after: Workbench,
    outcome: Outcome,
) -> bool {
    &&& after == (Workbench { pending: after.pending, recoverable: after.recoverable, ..before })
    &&& exists|settled: Settled|
        {
            &&& #[trigger] settles(before.pending, command, after.pending, settled)
            &&& match settled {
                Settled::Settings => {
                    &&& after.recoverable == before.recoverable
                    &&& if accepted {
                        quietly(outcome, UpdateWork::SettingsIdle)
                    } else {
                        failing(
                            outcome,
                            UpdateWork::SettingsError,
                            error_or(error, "Runtime rejected the settings command"@),
                        )
                    }
                },
                Settled::Attachment { .. } => {
                    &&& after.recoverable == before.recoverable
                    &&& if accepted {
                        quietly(outcome, UpdateWork::Nothing)
                    } else {
                        failing(
                            outcome,
                            UpdateWork::Nothing,
                            error_or(error, "Runtime rejected the attachment"@),
                        )
                    }
                },
                Settled::Submission(held) => if accepted {
                    &&& after.recoverable == before.recoverable
                    &&& quietly(outcome, UpdateWork::Nothing)
                } else {
                    &&& after.recoverable.runs@ == (match held.operation {
                        Some(operation) => without_run(before.recoverable.runs@, operation@),
                        None => before.recoverable.runs@,
                    })
                    &&& failing(
                        outcome,
                        UpdateWork::Restore(held),
                        error_or(error, "Runtime rejected the submitted message"@),
                    )
                },
                Settled::Other => {
                    &&& after.recoverable == before.recoverable
                    &&& if accepted {
                        quietly(outcome, UpdateWork::Nothing)
                    } else {
                        failing(
                            outcome,
                            UpdateWork::Nothing,
                            error_or(error, "Runtime rejected the Desktop command"@),
                        )
                    }
                },
            }
        }
}

/// How the workbench takes what the runtime tells.
pub open spec fn workbench_moves(
    before: Workbench,
    update: Update,
    after: Workbench,
    outcome: Outcome,
) -> bool {
    match update {
        Update::Snapshot { navigation, attached, session } => replaced(
            before,
            navigation,
            shown_conversation(
                option_view(attached),
                option_view(navigation.selected_conversation),
                session@,
            ),
            after,
            outcome,
        ),
        Update::Navigation(navigation) => {
            &&& after == (Workbench { snapshot: navigation, ..before })
            &&& quietly(outcome, UpdateWork::Nothing)
        },
        Update::Layout { warning } => {
            &&& after == before
            &&& outcome.say == warning
            &&& outcome.fail is None
            &&& outcome.work is Nothing
            &&& outcome.keep_running
        },
        Update::Settings => after == before && quietly(outcome, UpdateWork::ApplySettings),
        Update::SettingsDraft { present } => {
            &&& after == (Workbench {
                settings_receipt: if present {
                    None
                } else {
                    before.settings_receipt
                },
                ..before
            })
            &&& quietly(
                outcome,
                if present {
                    UpdateWork::PreviewDraft
                } else {
                    UpdateWork::ApplySettings
                },
            )
        },
        Update::SettingsReceipt { receipt } => {
            &&& after == (Workbench { settings_receipt: Some(receipt), ..before })
            &&& quietly(outcome, UpdateWork::SettingsIdle)
        },
        Update::AttachmentStaged { command } => {
            &&& after == before
            &&& if before.pending.attachments@.contains_key(command) {
                quietly(
                    outcome,
                    UpdateWork::Stage { conversation: before.pending.attachments@[command] },
                )
            } else {
                quietly(outcome, UpdateWork::Nothing)
            }
        },
        Update::OperationState { operation, completed, applied } => {
            &&& after == (Workbench { recoverable: after.recoverable, ..before })
            &&& after.recoverable.runs@ == (if completed {
                without_run(before.recoverable.runs@, operation@)
            } else {
                before.recoverable.runs@
            })
            &&& quietly(outcome, observed(applied))
        },
        Update::ConversationCleared { applied } => {
            &&& after == (Workbench { recoverable: after.recoverable, ..before })
            &&& after.recoverable.runs@.len() == 0
            &&& quietly(outcome, observed(applied))
        },
        Update::Observation { applied } => after == before && quietly(outcome, observed(applied)),
        Update::HostObservation => after == before && quietly(outcome, UpdateWork::ObserveHost),
        Update::CommandResult { command, accepted, error } => settled_by(
            before,
            command,
            accepted,
            error,
            after,
            outcome,
        ),
        Update::ResyncRequired => after == before && quietly(outcome, UpdateWork::RequestSnapshot),
        Update::BackendStopped { expected, error } => {
            &&& after == before
            &&& outcome.say is None
            &&& option_view(outcome.fail) == (if expected {
                None
            } else {
                Some(error_or(error, "Desktop runtime stopped"@))
            })
            &&& outcome.work == (if before.shutdown_pending && expected {
                UpdateWork::CloseWindow
            } else {
                UpdateWork::Nothing
            })
            &&& !outcome.keep_running
        },
        Update::Broken { error } => {
            &&& after == before
            &&& outcome.say is None
            &&& option_view(outcome.fail) == Some(error@)
            &&& outcome.work is Nothing
            &&& !outcome.keep_running
        },
    }
}

fn quiet(work: UpdateWork) -> (outcome: Outcome)
    ensures
        quietly(outcome, work),
{
    Outcome { say: None, fail: None, work, keep_running: true }
}

fn failed(work: UpdateWork, text: String) -> (outcome: Outcome)
    ensures
        failing(outcome, work, text@),
{
    Outcome { say: None, fail: Some(text), work, keep_running: true }
}

fn observe(applied: bool) -> (work: UpdateWork)
    ensures
        work == observed(applied),
{
    if applied {
        UpdateWork::Nothing
    } else {
        UpdateWork::RequestSnapshot
    }
}

impl Workbench {
    /// Whether what is kept is within its bounds.
    pub open spec fn sound(self) -> bool {
        self.uis.sound() && self.recoverable.sound()
    }

    /// The workbench as it begins, and whether a draft of the settings is begun.
    pub fn new(
        snapshot: NavigationSnapshot,
        attached: Option<String>,
        session: String,
        intent: LaunchIntent,
    ) -> (begun: (Workbench, bool))
        ensures
            begun.0.sound(),
            begun.0.snapshot == snapshot,
            begun.0.navigation == intended(intent),
            begun.0.selected_project == project_of_selected(snapshot),
            begun.0.selection == selection_of(snapshot),
            begun.0.dialog is None,
            begun.0.active@ == shown_conversation(
                option_view(attached),
                option_view(snapshot.selected_conversation),
                session@,
            ),
            begun.0.uis.order@ == seq![begun.0.active],
            begun.0.pending.settings@ == Set::<u64>::empty(),
            begun.0.pending.attachments@ == Map::<u64, String>::empty(),
            begun.0.pending.submissions@ == Map::<u64, PendingSubmission>::empty(),
            begun.0.recoverable.runs@.len() == 0,
            begun.0.settings_receipt is None,
            !begun.0.palette_open,
            !begun.0.shutdown_pending,
            !begun.0.close_prompt_open,
            begun.0.layout_generation == 0,
            begun.1 == intended(intent).among_settings(),
    {
        let navigation = navigation_for_intent(intent);
        let selected_project = selected_project_of(&snapshot);
        let selection = sidebar_selection_of(&snapshot);
        let active = pick_conversation(attached, &snapshot.selected_conversation, session);
        let uis = RetainedUis::new(active.clone());
        (
            Workbench {
                snapshot,
                navigation,
                selected_project,
                selection,
                dialog: None,
                active,
                uis,
                pending: PendingCommands::new(),
                recoverable: Recoverables::new(),
                settings_receipt: None,
                palette_open: false,
                shutdown_pending: false,
                close_prompt_open: false,
                layout_generation: 0,
            },
            navigation.in_settings(),
        )
    }

    fn settle(&mut self, command: u64, accepted: bool, error: Option<String>) -> (outcome: Outcome)
        requires
            old(self).sound(),
        ensures
            final(self).sound(),
            settled_by(*old(self), command, accepted, error, *final(self), outcome),
    {
        let ghost before = self.pending;
        let settled = self.pending.settle(command);
        let ghost made = settled;
        assert(settles(before, command, self.pending, made));
        match settled {
            Settled::Settings => if accepted {
                quiet(UpdateWork::SettingsIdle)
            } else {
                failed(
                    UpdateWork::SettingsError,
                    take_error(error, "Runtime rejected the settings command"),
                )
            },
            Settled::Attachment { .. } => if accepted {
                quiet(UpdateWork::Nothing)
            } else {
                failed(UpdateWork::Nothing, take_error(error, "Runtime rejected the attachment"))
            },
            Settled::Submission(held) => {
                if accepted {
                    quiet(UpdateWork::Nothing)
                } else {
                    match &held.operation {
                        Some(operation) => self.recoverable.forget(operation.as_str()),
                        None => {},
                    }
                    failed(
                        UpdateWork::Restore(held),
                        take_error(error, "Runtime rejected the submitted message"),
                    )
                }
            },
            Settled::Other => if accepted {
                quiet(UpdateWork::Nothing)
            } else {
                failed(
                    UpdateWork::Nothing,
                    take_error(error, "Runtime rejected the Desktop command"),
                )
            },
        }
    }

    fn replace(
        &mut self,
        navigation: NavigationSnapshot,
        attached: Option<String>,
        session: String,
    ) -> (outcome: Outcome)
        requires
            old(self).sound(),
        ensures
            final(self).sound(),
            replaced(
                *old(self),
                navigation,
                shown_conversation(
                    option_view(attached),
                    option_view(navigation.selected_conversation),
                    session@,
                ),
                *final(self),
                outcome,
            ),
    {
        self.selected_project = selected_project_of(&navigation);
        self.selection = sidebar_selection_of(&navigation);
        let conversation = pick_conversation(
            attached,
            &navigation.selected_conversation,
            session,
        );
        self.snapshot = navigation;
        self.active = conversation.clone();
        let activation = self.uis.activate(conversation.as_str());
        quiet(UpdateWork::Replace { conversation, activation })
    }

    /// Takes what the runtime tells.
    pub fn apply(&mut self, update: Update) -> (outcome: Outcome)
        requires
            old(self).sound(),
        ensures
            final(self).sound(),
            workbench_moves(*old(self), update, *final(self), outcome),
    {
        match update {
            Update::Snapshot { navigation, attached, session } => self.replace(
                navigation,
                attached,
                session,
            ),
            Update::Navigation(navigation) => {
                self.snapshot = navigation;
                quiet(UpdateWork::Nothing)
            },
            Update::Layout { warning } => Outcome {
                say: warning,
                fail: None,
                work: UpdateWork::Nothing,
                keep_running: true,
            },
            Update::Settings => quiet(UpdateWork::ApplySettings),
            Update::SettingsDraft { present } => if present {
                self.settings_receipt = None;
                quiet(UpdateWork::PreviewDraft)
            } else {
                quiet(UpdateWork::ApplySettings)
            },
            Update::SettingsReceipt { receipt } => {
                self.settings_receipt = Some(receipt);
                quiet(UpdateWork::SettingsIdle)
            },
            Update::AttachmentStaged { command } => {
                match self.pending.attachment_conversation(command) {
                    Some(conversation) => quiet(
                        UpdateWork::Stage { conversation: conversation.clone() },
                    ),
                    None => quiet(UpdateWork::Nothing),
                }
            },
            Update::OperationState { operation, completed, applied } => {
                if completed {
                    self.recoverable.forget(operation.as_str());
                }
                quiet(observe(applied))
            },
            Update::ConversationCleared { applied } => {
                self.recoverable.clear();
                quiet(observe(applied))
            },
            Update::Observation { applied } => quiet(observe(applied)),
            Update::HostObservation => quiet(UpdateWork::ObserveHost),
            Update::CommandResult { command, accepted, error } => self.settle(
                command,
                accepted,
                error,
            ),
            Update::ResyncRequired => quiet(UpdateWork::RequestSnapshot),
            Update::BackendStopped { expected, error } => Outcome {
                say: None,
                fail: if expected {
                    None
                } else {
                    Some(take_error(error, "Desktop runtime stopped"))
                },
                work: if self.shutdown_pending && expected {
                    UpdateWork::CloseWindow
                } else {
                    UpdateWork::Nothing
                },
                keep_running: false,
            },
            Update::Broken { error } => Outcome {
                say: None,
                fail: Some(error),
                work: UpdateWork::Nothing,
                keep_running: false,
            },
        }
    }

    /// Whether the next message that waits is sent: nothing runs, nothing is
    /// unanswered, and the runtime is there.
    pub fn sends_next(&self, keep_running: bool, running: bool) -> (yes: bool)
        ensures
            yes == (keep_running && !running && self.pending.submissions@.is_empty()),
    {
        keep_running && !running && self.pending.submissions.is_empty()
    }

    /// Notes a submission that the runtime took, by the command and the run it
    /// made of it.
    pub fn submitted(&mut self, submission: Submission, command: u64, operation: Option<String>)
        requires
            old(self).sound(),
        ensures
            final(self).sound(),
            took_submission(*old(self), submission, command, operation, *final(self)),
    {
        let ghost before = self.recoverable.runs@;
        match &operation {
            Some(id) => {
                let run = Recoverable {
                    operation: id.clone(),
                    conversation: self.active.clone(),
                    submission: submission.copy(),
                };
                let ghost kept = run;
                self.recoverable.remember(run);
                assert(self.recoverable.runs@ == with_run(before, kept));
            },
            None => {},
        }
        let conversation = self.active.clone();
        self.pending.await_submission(
            command,
            PendingSubmission { conversation, submission, operation },
        );
    }

    /// Whether a run can be sent again, and with what.
    pub fn retry(&self, operation: Option<&str>, running: bool) -> (response: Response)
        ensures
            match operation {
                None => fails(response, NO_RUN@),
                Some(id) => {
                    let at = run_index(self.recoverable.runs@, id@);
                    if at >= self.recoverable.runs@.len() {
                        fails(response, NO_RECORD@)
                    } else if self.recoverable.runs@[at as int].conversation@ != self.active@ {
                        fails(response, OTHER_OWNER@)
                    } else if running {
                        fails(response, RETRY_WAITS@)
                    } else {
                        &&& response matches Response::Resend { submission: sent, said }
                        &&& sent.same_as(self.recoverable.runs@[at as int].submission)
                        &&& said@ == RETRYING@
                    }
                },
            },
    {
        match operation {
            None => fail(NO_RUN),
            Some(id) => match self.recoverable.find(id) {
                None => fail(NO_RECORD),
                Some(run) => {
                    if !text_eq(run.conversation.as_str(), self.active.as_str()) {
                        fail(OTHER_OWNER)
                    } else if running {
                        fail(RETRY_WAITS)
                    } else {
                        Response::Resend {
                            submission: run.submission.copy(),
                            said: RETRYING.to_owned(),
                        }
                    }
                },
            },
        }
    }

    /// Notes a settings command that the runtime took.
    pub fn await_settings(&mut self, command: u64)
        ensures
            final(self).pending.settings@ == old(self).pending.settings@.insert(command),
            *final(self) == (Workbench {
                pending: PendingCommands {
                    settings: final(self).pending.settings,
                    ..old(self).pending
                },
                ..*old(self)
            }),
    {
        self.pending.await_settings(command);
    }

    /// Notes an attachment that the runtime checks for a conversation.
    pub fn await_attachment(&mut self, command: u64, conversation: String)
        ensures
            final(self).pending.attachments@ == old(self).pending.attachments@.insert(
                command,
                conversation,
            ),
            *final(self) == (Workbench {
                pending: PendingCommands {
                    attachments: final(self).pending.attachments,
                    ..old(self).pending
                },
                ..*old(self)
            }),
    {
        self.pending.await_attachment(command, conversation);
    }

    /// Takes the runtime's immediate answer to a request. A settings request that it
    /// took is awaited by its number, and the settings are busy with it. The dialog
    /// of a rename closes only when the runtime took it.
    pub fn taken(&mut self, request: &Request, said: Option<String>, result: Result<u64, String>) -> (
        answer: Answer)
        ensures
            match result {
                Ok(command) => {
                    &&& final(self).pending.settings@ == (if request.about_settings() {
                        old(self).pending.settings@.insert(command)
                    } else {
                        old(self).pending.settings@
                    })
                    &&& *final(self) == (Workbench {
                        pending: PendingCommands {
                            settings: final(self).pending.settings,
                            ..old(self).pending
                        },
                        dialog: if request is Rename {
                            None
                        } else {
                            old(self).dialog
                        },
                        ..*old(self)
                    })
                    &&& match said {
                        Some(text) => says(answer.response, text@),
                        None => answer.response is Nothing,
                    }
                    &&& answer.settings == (if request.about_settings() {
                        SettingsSignal::Busy
                    } else {
                        SettingsSignal::Nothing
                    })
                },
                Err(message) => {
                    &&& *final(self) == *old(self)
                    &&& fails(answer.response, message@)
                    &&& answer.settings == (if request.about_settings() {
                        SettingsSignal::Failed
                    } else {
                        SettingsSignal::Nothing
                    })
                },
            },
    {
        let about_settings = request.is_about_settings();
        match result {
            Ok(command) => {
                if about_settings {
                    self.await_settings(command);
                }
                if let Request::Rename { .. } = request {
                    self.dialog = None;
                }
                Answer {
                    response: match said {
                        Some(text) => Response::Say(text),
                        None => Response::Nothing,
                    },
                    settings: if about_settings {
                        SettingsSignal::Busy
                    } else {
                        SettingsSignal::Nothing
                    },
                }
            },
            Err(message) => Answer {
                response: Response::Fail(message),
                settings: if about_settings {
                    SettingsSignal::Failed
                } else {
                    SettingsSignal::Nothing
                },
            },
        }
    }

    /// Takes the runtime's immediate answer to a message: one that it took is
    /// pending by its number, and one that it did not goes back to the composer.
    pub fn sent(&mut self, submission: Submission, result: Result<(u64, Option<String>), String>) -> (
        sent: Sent)
        requires
            old(self).sound(),
        ensures
            final(self).sound(),
            match result {
                Ok((command, operation)) => {
                    &&& took_submission(*old(self), submission, command, operation, *final(self))
                    &&& match operation {
                        Some(id) => sent == (Sent::Shown { operation: id, text: submission.text }),
                        None => sent is Taken,
                    }
                },
                Err(message) => {
                    &&& *final(self) == *old(self)
                    &&& sent == (Sent::Restored { submission, message })
                },
            },
    {
        match result {
            Ok((command, operation)) => {
                let shown = match &operation {
                    Some(id) => Sent::Shown {
                        operation: id.clone(),
                        text: submission.text.clone(),
                    },
                    None => Sent::Taken,
                };
                self.submitted(submission, command, operation);
                shown
            },
            Err(message) => Sent::Restored { submission, message },
        }
    }

    /// Opens the palette of commands.
    pub fn show_palette(&mut self)
        ensures
            *final(self) == (Workbench { palette_open: true, ..*old(self) }),
    {
        self.palette_open = true;
    }

    /// Closes the palette of commands, and says whether the composer is turned to:
    /// where the palette is closed nothing happens.
    pub fn dismiss_palette(&mut self) -> (focus: bool)
        ensures
            focus == old(self).palette_open,
            *final(self) == (Workbench { palette_open: false, ..*old(self) }),
    {
        let focus = self.palette_open;
        self.palette_open = false;
        focus
    }

    /// Takes the sidebar's new width, and asks the runtime to keep it.
    pub fn collapse_sidebar(&mut self, collapsed: bool) -> (response: Response)
        ensures
            *final(self) == (Workbench {
                snapshot: NavigationSnapshot {
                    mini_sidebar: collapsed,
                    ..old(self).snapshot
                },
                ..*old(self)
            }),
            asks_quietly(response, Request::SetSidebar { mini: collapsed }),
    {
        self.snapshot.mini_sidebar = collapsed;
        Response::AskQuietly { request: Request::SetSidebar { mini: collapsed } }
    }

    /// Turns to a place that another launch asked for, and says whether a draft of
    /// the settings has to be begun.
    pub fn turn_to(&mut self, intent: LaunchIntent, has_draft: bool) -> (begin_draft: bool)
        ensures
            *final(self) == (Workbench { navigation: intended(intent), ..*old(self) }),
            begin_draft == (intended(intent).among_settings() && !has_draft),
    {
        self.navigation = navigation_for_intent(intent);
        self.navigation.in_settings() && !has_draft
    }

    /// Chooses an item of the sidebar.
    pub fn choose_item(&mut self, item: &str) -> (response: Response)
        ensures
            exists|picked: Option<SidebarSelection>|
                #[trigger] selects(item@, picked) && chosen(
                    *old(self),
                    picked,
                    *final(self),
                    response,
                ),
    {
        let picked = selected_item(item);
        let ghost made = picked;
        assert(selects(item@, made));
        match picked {
            Some(SidebarSelection::Conversation(id)) => {
                self.selection = Some(SidebarSelection::Conversation(id.clone()));
                let current = match &self.snapshot.selected_conversation {
                    Some(selected) => text_eq(selected.as_str(), id.as_str()),
                    None => false,
                };
                if current {
                    Response::Nothing
                } else {
                    self.selected_project = project_for_conversation(
                        &self.snapshot,
                        id.as_str(),
                    );
                    self.open(id)
                }
            },
            Some(SidebarSelection::Project(id)) => {
                self.selection = Some(SidebarSelection::Project(id.clone()));
                self.selected_project = Some(id.clone());
                let mut text = "Project ".to_owned();
                text.append(project_title(&self.snapshot, id.as_str()).as_str());
                text.append(" selected for the next Conversation");
                Response::Say(text)
            },
            None => Response::Nothing,
        }
    }

    fn open(&self, id: String) -> (response: Response)
        ensures
            asks(
                response,
                Request::Switch { conversation: id },
                "Opening "@ + title_of(self.snapshot, id@),
            ),
    {
        let mut text = "Opening ".to_owned();
        text.append(conversation_title(&self.snapshot, id.as_str()).as_str());
        Response::Ask { request: Request::Switch { conversation: id }, said: text }
    }

    /// Opens a conversation of the overview: at once where it is the one that is
    /// shown, and otherwise when the runtime has turned to it.
    pub fn open_from_overview(&mut self, id: String, needs_attention: bool) -> (response: Response)
        ensures
            final(self).selection == Some(SidebarSelection::Conversation(id)),
            final(self).selected_project == holder_of(old(self).snapshot, id@),
            ({
                let shown = old(self).snapshot.selected_conversation matches Some(held) && held@
                    == id@;
                &&& *final(self) == (Workbench {
                    selection: final(self).selection,
                    selected_project: final(self).selected_project,
                    navigation: if shown {
                        overview_destination(needs_attention)
                    } else {
                        old(self).navigation
                    },
                    ..*old(self)
                })
                &&& if shown {
                    response is Nothing
                } else {
                    asks(
                        response,
                        Request::Switch { conversation: id },
                        "Opening "@ + title_of(old(self).snapshot, id@),
                    )
                }
            }),
    {
        self.selection = Some(SidebarSelection::Conversation(id.clone()));
        self.selected_project = project_for_conversation(&self.snapshot, id.as_str());
        let shown = match &self.snapshot.selected_conversation {
            Some(selected) => text_eq(selected.as_str(), id.as_str()),
            None => false,
        };
        if shown {
            self.navigation = espejo_destination(needs_attention);
            Response::Nothing
        } else {
            self.open(id)
        }
    }

    /// Turns to what was opened from the overview, once the runtime took the
    /// request.
    pub fn arrive(&mut self, needs_attention: bool)
        ensures
            *final(self) == (Workbench {
                navigation: overview_destination(needs_attention),
                ..*old(self)
            }),
    {
        self.navigation = espejo_destination(needs_attention);
    }

    /// Puts the dialog away.
    pub fn dismiss_dialog(&mut self)
        ensures
            *final(self) == (Workbench { dialog: None, ..*old(self) }),
    {
        self.dialog = None;
    }

    /// Asks for a new conversation in the selected project.
    pub fn new_conversation(&self) -> (response: Response)
        ensures
            asks(
                response,
                Request::NewConversation { project: self.selected_project },
                CREATING@,
            ),
    {
        ask(Request::NewConversation { project: copy_option(&self.selected_project) }, CREATING)
    }

    /// Begins to rename the selected project, with its name to start from.
    pub fn begin_rename(&mut self) -> (name: Result<String, Response>)
        ensures
            match old(self).selection {
                Some(SidebarSelection::Project(id)) => {
                    &&& name matches Ok(text)
                    &&& text@ == name_of(old(self).snapshot, id@)
                    &&& *final(self) == (Workbench {
                        dialog: Some(NavigationDialog::RenameProject { project: id }),
                        ..*old(self)
                    })
                },
                _ => {
                    &&& name matches Err(response)
                    &&& fails(response, SELECT_TO_RENAME@)
                    &&& *final(self) == *old(self)
                },
            },
    {
        let project = match &self.selection {
            Some(SidebarSelection::Project(id)) => id.clone(),
            _ => {
                return Err(fail(SELECT_TO_RENAME));
            },
        };
        let name = project_title(&self.snapshot, project.as_str());
        self.dialog = Some(NavigationDialog::RenameProject { project });
        Ok(name)
    }

    /// Renames the project of the dialog.
    pub fn commit_rename(&self, name: String) -> (response: Response)
        ensures
            match self.dialog {
                Some(NavigationDialog::RenameProject { project }) => asks(
                    response,
                    Request::Rename { project, name },
                    "Renaming Project…"@,
                ),
                _ => response is Nothing,
            },
    {
        match &self.dialog {
            Some(NavigationDialog::RenameProject { project }) => ask(
                Request::Rename { project: project.clone(), name },
                "Renaming Project…",
            ),
            _ => Response::Nothing,
        }
    }

    /// Archives or restores the selected project, once the user agrees.
    pub fn set_archived(&self, archived: bool) -> (response: Response)
        ensures
            match self.selection {
                Some(SidebarSelection::Project(id)) => if archived {
                    confirms(
                        response,
                        "Archive this Project?"@,
                        "Archive "@ + name_of(self.snapshot, id@)
                            + ". Its workspace, Conversations, history, and artifacts will be preserved."@,
                        Request::SetArchived { project: id, archived },
                        "Archiving Project; workspace and Conversations remain preserved…"@,
                    )
                } else {
                    confirms(
                        response,
                        "Restore this Project?"@,
                        "Restore "@ + name_of(self.snapshot, id@)
                            + " to the active Project list."@,
                        Request::SetArchived { project: id, archived },
                        "Restoring Project…"@,
                    )
                },
                _ => fails(response, SELECT_TO_ARCHIVE@),
            },
    {
        let project = match &self.selection {
            Some(SidebarSelection::Project(id)) => id.clone(),
            _ => {
                return fail(SELECT_TO_ARCHIVE);
            },
        };
        let name = project_title(&self.snapshot, project.as_str());
        let request = Request::SetArchived { project, archived };
        if archived {
            let mut detail = "Archive ".to_owned();
            detail.append(name.as_str());
            detail.append(
                ". Its workspace, Conversations, history, and artifacts will be preserved.",
            );
            Response::Confirm {
                title: "Archive this Project?".to_owned(),
                detail,
                request,
                said: "Archiving Project; workspace and Conversations remain preserved…".to_owned(),
            }
        } else {
            let mut detail = "Restore ".to_owned();
            detail.append(name.as_str());
            detail.append(" to the active Project list.");
            Response::Confirm {
                title: "Restore this Project?".to_owned(),
                detail,
                request,
                said: "Restoring Project…".to_owned(),
            }
        }
    }

    /// Takes the selected conversation out of its project.
    pub fn ungroup(&self) -> (response: Response)
        ensures
            match self.selection {
                Some(SidebarSelection::Conversation(id)) => asks(
                    response,
                    Request::Ungroup { conversation: id },
                    "Moving Conversation to Ungrouped…"@,
                ),
                _ => fails(response, SELECT_TO_UNGROUP@),
            },
    {
        match &self.selection {
            Some(SidebarSelection::Conversation(id)) => ask(
                Request::Ungroup { conversation: id.clone() },
                "Moving Conversation to Ungrouped…",
            ),
            _ => fail(SELECT_TO_UNGROUP),
        }
    }

    /// Begins to move the selected conversation.
    pub fn begin_move(&mut self) -> (response: Response)
        ensures
            match old(self).selection {
                Some(SidebarSelection::Conversation(id)) => {
                    &&& response is Nothing
                    &&& *final(self) == (Workbench {
                        dialog: Some(NavigationDialog::MoveConversation { conversation: id }),
                        ..*old(self)
                    })
                },
                _ => fails(response, SELECT_TO_MOVE@) && *final(self) == *old(self),
            },
    {
        let conversation = match &self.selection {
            Some(SidebarSelection::Conversation(id)) => id.clone(),
            _ => {
                return fail(SELECT_TO_MOVE);
            },
        };
        self.dialog = Some(NavigationDialog::MoveConversation { conversation });
        Response::Nothing
    }

    /// Moves the conversation of the dialog into a project. Into another workspace
    /// it is only continued, once the user agrees.
    pub fn move_to(&mut self, project: String) -> (response: Response)
        ensures
            match old(self).dialog {
                Some(NavigationDialog::MoveConversation { conversation }) => {
                    &&& *final(self) == (Workbench { dialog: None, ..*old(self) })
                    &&& moves_to(old(self).snapshot, conversation, project, response)
                },
                _ => response is Nothing && *final(self) == *old(self),
            },
    {
        let conversation = match &self.dialog {
            Some(NavigationDialog::MoveConversation { conversation }) => conversation.clone(),
            _ => {
                return Response::Nothing;
            },
        };
        self.dialog = None;
        let node = match self.snapshot.conversation(conversation.as_str()) {
            Some(node) => node,
            None => {
                return fail(CONVERSATION_GONE);
            },
        };
        let target = match self.snapshot.project(project.as_str()) {
            Some(target) => target,
            None => {
                return fail(PROJECT_GONE);
            },
        };
        let stays = match &target.workspace_id {
            Some(id) => text_eq(id.as_str(), node.workspace_id.as_str()),
            None => false,
        };
        if stays {
            return ask(
                Request::Move { conversation, project, crosses: false },
                "Assigning Conversation to Project…",
            );
        }
        let mut detail = node.title.clone();
        detail.append(" belongs to ");
        detail.append(node.workspace_label.as_str());
        detail.append(". Continuing in ");
        detail.append(target.name.as_str());
        detail.append(
            " creates a fresh linked Conversation, preserves the source, and copies no transcript text automatically.",
        );
        Response::Confirm {
            title: "Continue in another workspace?".to_owned(),
            detail,
            request: Request::Move { conversation, project, crosses: true },
            said: "Creating source-preserving Project continuation…".to_owned(),
        }
    }

    /// Branches the selected conversation at its latest committed point, once the
    /// user agrees.
    pub fn branch(&self) -> (response: Response)
        ensures
            branches(self.snapshot, self.selection, response),
    {
        let conversation = match &self.selection {
            Some(SidebarSelection::Conversation(id)) => id.clone(),
            _ => {
                return fail(SELECT_TO_BRANCH);
            },
        };
        let node = match self.snapshot.conversation(conversation.as_str()) {
            Some(node) => node,
            None => {
                return fail(CONVERSATION_GONE);
            },
        };
        let point = match &node.branch_point {
            Some(point) => point.clone(),
            None => {
                return fail(NO_BRANCH_POINT);
            },
        };
        let mut detail = "Create a new Conversation at exact committed point ".to_owned();
        detail.append(point.as_str());
        detail.append(". The source remains unchanged.");
        Response::Confirm {
            title: "Branch this Conversation?".to_owned(),
            detail,
            request: Request::Branch { conversation, point },
            said: "Creating source-preserving Conversation branch…".to_owned(),
        }
    }

    /// Begins to close the window: at once where nothing runs, and otherwise after
    /// a question that is asked once.
    pub fn request_close(&mut self, running: bool) -> (step: CloseStep)
        ensures
            if old(self).shutdown_pending || old(self).close_prompt_open {
                step is Ignore && *final(self) == *old(self)
            } else if !running {
                step is Shutdown && *final(self) == *old(self)
            } else {
                step is Question && *final(self) == (Workbench {
                    close_prompt_open: true,
                    ..*old(self)
                })
            },
    {
        if self.shutdown_pending || self.close_prompt_open {
            return CloseStep::Ignore;
        }
        if !running {
            return CloseStep::Shutdown;
        }
        self.close_prompt_open = true;
        CloseStep::Question
    }

    /// Takes the answer to the question before closing.
    pub fn answer_close(&mut self, choice: CloseChoice) -> (step: CloseStep)
        ensures
            *final(self) == (Workbench { close_prompt_open: false, ..*old(self) }),
            step == (match choice {
                CloseChoice::CancelAndQuit => if old(self).shutdown_pending {
                    CloseStep::Ignore
                } else {
                    CloseStep::Shutdown
                },
                CloseChoice::KeepOpen => CloseStep::StayOpen,
                CloseChoice::Return => CloseStep::Ignore,
            }),
    {
        self.close_prompt_open = false;
        match choice {
            CloseChoice::CancelAndQuit => if self.shutdown_pending {
                CloseStep::Ignore
            } else {
                CloseStep::Shutdown
            },
            CloseChoice::KeepOpen => CloseStep::StayOpen,
            CloseChoice::Return => CloseStep::Ignore,
        }
    }

    /// Notes what came of asking the runtime to stop.
    pub fn shutdown_asked(&mut self, result: Result<(), String>) -> (response: Response)
        ensures
            *final(self) == (Workbench {
                shutdown_pending: old(self).shutdown_pending || result is Ok,
                ..*old(self)
            }),
            match result {
                Ok(_) => says(response, "Closing Xana safely…"@),
                Err(message) => fails(response, message@),
            },
    {
        match result {
            Ok(_) => {
                self.shutdown_pending = true;
                Response::Say("Closing Xana safely…".to_owned())
            },
            Err(message) => Response::Fail(message),
        }
    }

    /// Plans to save the layout, and says by what the plan is known.
    pub fn plan_layout_save(&mut self) -> (generation: u64)
        ensures
            generation == crate::desktop::history::next_generation(old(self).layout_generation),
            *final(self) == (Workbench { layout_generation: generation, ..*old(self) }),
    {
        self.layout_generation = if self.layout_generation == u64::MAX {
            0
        } else {
            self.layout_generation + 1
        };
        self.layout_generation
    }

    /// Whether a planned save is still the latest one.
    pub fn saves_layout(&self, generation: u64) -> (yes: bool)
        ensures
            yes == (self.layout_generation == generation),
    {
        self.layout_generation == generation
    }
}

pub const NO_RUN: &'static str = "This response has no recoverable Xana Run identity.";

pub const NO_RECORD: &'static str = "The bounded retry record for this Run is no longer retained; copy the request instead.";

pub const OTHER_OWNER: &'static str = "Retry is available only in the Conversation that owns this Run.";

pub const RETRY_WAITS: &'static str = "Wait for or interrupt the active Run before retrying.";

pub const RETRYING: &'static str = "Retrying the same bounded request as a new Turn…";

pub const CREATING: &'static str = "Creating a new Conversation…";

pub const SELECT_TO_RENAME: &'static str = "Select a Project before choosing Rename.";

pub const SELECT_TO_ARCHIVE: &'static str = "Select a Project before changing its lifecycle.";

pub const SELECT_TO_UNGROUP: &'static str = "Select a Conversation before choosing Ungroup.";

pub const SELECT_TO_MOVE: &'static str = "Select a Conversation before choosing Move.";

pub const SELECT_TO_BRANCH: &'static str = "Select a Conversation before choosing Branch.";

pub const CONVERSATION_GONE: &'static str = "The selected Conversation is no longer available.";

pub const PROJECT_GONE: &'static str = "The selected Project is no longer available.";

pub const NO_BRANCH_POINT: &'static str = "This Conversation has no committed point that can be branched.";

/// Whether a workbench is another one after the runtime took a submission: it is
/// pending under the command's number, in place of any other under that number, and
/// its run can be sent again.
pub open spec fn took_submission(
    before: Workbench,
    submission: Submission,
    command: u64,
    operation: Option<String>,
    after: Workbench,
) -> bool {
    &&& after == (Workbench { pending: after.pending, recoverable: after.recoverable, ..before })
    &&& after.pending.settings@ == before.pending.settings@
    &&& after.pending.attachments@ == before.pending.attachments@
    &&& after.pending.submissions@ == before.pending.submissions@.insert(
        command,
        PendingSubmission { conversation: before.active, submission, operation },
    )
    &&& match operation {
        Some(id) => exists|run: Recoverable|
            {
                &&& after.recoverable.runs@ == #[trigger] with_run(before.recoverable.runs@, run)
                &&& run.operation == id
                &&& run.conversation == before.active
                &&& run.submission.same_as(submission)
            },
        None => after.recoverable == before.recoverable,
    }
}

/// How an item of the sidebar is chosen.
pub open spec fn chosen(
    before: Workbench,
    picked: Option<SidebarSelection>,
    after: Workbench,
    response: Response,
) -> bool {
    match picked {
        Some(SidebarSelection::Conversation(id)) => {
            let current = before.snapshot.selected_conversation matches Some(held) && held@ == id@;
            &&& after == (Workbench {
                selection: Some(SidebarSelection::Conversation(id)),
                selected_project: if current {
                    before.selected_project
                } else {
                    holder_of(before.snapshot, id@)
                },
                ..before
            })
            &&& if current {
                response is Nothing
            } else {
                asks(
                    response,
                    Request::Switch { conversation: id },
                    "Opening "@ + title_of(before.snapshot, id@),
                )
            }
        },
        Some(SidebarSelection::Project(id)) => {
            &&& after == (Workbench {
                selection: Some(SidebarSelection::Project(id)),
                selected_project: Some(id),
                ..before
            })
            &&& says(
                response,
                "Project "@ + name_of(before.snapshot, id@)
                    + " selected for the next Conversation"@,
            )
        },
        None => after == before && response is Nothing,
    }
}

/// How a conversation is moved into a project.
pub open spec fn moves_to(
    snapshot: NavigationSnapshot,
    conversation: String,
    project: String,
    response: Response,
) -> bool {
    match conversation_of(snapshot, conversation@) {
        None => fails(response, CONVERSATION_GONE@),
        Some(node) => match project_of(snapshot, project@) {
            None => fails(response, PROJECT_GONE@),
            Some(target) => if option_view(target.workspace_id) == Some(node.workspace_id@) {
                asks(
                    response,
                    Request::Move { conversation, project, crosses: false },
                    "Assigning Conversation to Project…"@,
                )
            } else {
                confirms(
                    response,
                    "Continue in another workspace?"@,
                    node.title@ + " belongs to "@ + node.workspace_label@ + ". Continuing in "@
                        + target.name@
                        + " creates a fresh linked Conversation, preserves the source, and copies no transcript text automatically."@,
                    Request::Move { conversation, project, crosses: true },
                    "Creating source-preserving Project continuation…"@,
                )
            },
        },
    }
}

/// How the selected conversation is branched.
pub open spec fn branches(
    snapshot: NavigationSnapshot,
    selection: Option<SidebarSelection>,
    response: Response,
) -> bool {
    match selection {
        Some(SidebarSelection::Conversation(conversation)) => match conversation_of(
            snapshot,
            conversation@,
        ) {
            None => fails(response, CONVERSATION_GONE@),
            Some(node) => match node.branch_point {
                None => fails(response, NO_BRANCH_POINT@),
                Some(point) => confirms(
                    response,
                    "Branch this Conversation?"@,
                    "Create a new Conversation at exact committed point "@ + point@
                        + ". The source remains unchanged."@,
                    Request::Branch { conversation, point },
                    "Creating source-preserving Conversation branch…"@,
                ),
            },
        },
        _ => fails(response, SELECT_TO_BRANCH@),
    }
}

/// What closing the window comes to.
#[derive(Clone, Copy, PartialEq, Eq, Structural, Debug)]
pub enum CloseStep {
    Ignore,
    Shutdown,
    Question,
    StayOpen,
}

/// The answer to the question before closing.
#[derive(Clone, Copy, PartialEq, Eq, Structural, Debug)]
pub enum CloseChoice {
    KeepOpen,
    CancelAndQuit,
    Return,
}

/// The answer that the position of a button stands for; a question that was put
/// away changes nothing.
pub fn close_choice(button: Option<usize>) -> (choice: CloseChoice)
    ensures
        choice == (if button == Some(0usize) {
            CloseChoice::KeepOpen
        } else if button == Some(1usize) {
            CloseChoice::CancelAndQuit
        } else {
            CloseChoice::Return
        }),
{
    match button {
        Some(0) => CloseChoice::KeepOpen,
        Some(1) => CloseChoice::CancelAndQuit,
        _ => CloseChoice::Return,
    }
}

/// A message that the runtime refuses goes back to the conversation it was
/// written in, and cannot be sent again by retrying.
pub proof fn refused_messages_go_back(
    before: Workbench,
    command: u64,
    error: Option<String>,
    after: Workbench,
    outcome: Outcome,
    held: PendingSubmission,
)
    requires
        settled_by(before, command, false, error, after, outcome),
        outcome.work == UpdateWork::Restore(held),
    ensures
        before.pending.submissions@.contains_pair(command, held),
        after.pending.submissions@ == before.pending.submissions@.remove(command),
        outcome.fail is Some,
        held.operation matches Some(operation) ==> after.recoverable.runs@ == without_run(
            before.recoverable.runs@,
            operation@,
        ),
{
    let settled = choose|settled: Settled|
        #[trigger] settles(before.pending, command, after.pending, settled) && (match settled {
            Settled::Settings => outcome.work is SettingsError,
            Settled::Attachment { .. } => outcome.work is Nothing,
            Settled::Submission(found) => outcome.work == UpdateWork::Restore(found)
                && after.recoverable.runs@ == (match found.operation {
                Some(operation) => without_run(before.recoverable.runs@, operation@),
                None => before.recoverable.runs@,
            }),
            Settled::Other => outcome.work is Nothing,
        });
}

/// The runtime is polled no more once it has stopped, and never stops being
/// polled before.
pub proof fn polling_ends_with_the_runtime(
    before: Workbench,
    update: Update,
    after: Workbench,
    outcome: Outcome,
)
    requires
        workbench_moves(before, update, after, outcome),
    ensures
        !outcome.keep_running <==> (update is BackendStopped || update is Broken),
        outcome.work is CloseWindow ==> before.shutdown_pending,
{
}

/// A change of the layout that is overtaken by a later one is not saved.
pub proof fn overtaken_layouts_are_not_saved(workbench: Workbench, generation: u64)
    requires
        workbench.layout_generation == crate::desktop::history::next_generation(generation),
    ensures
        workbench.layout_generation != generation,
{
}

/// What a failure of the runtime leads to is told, and a success says nothing of one:
/// a command that was refused fails with the runtime's own reason where it has one.
pub proof fn refusals_are_told(
    before: Workbench,
    command: u64,
    accepted: bool,
    error: Option<String>,
    after: Workbench,
    outcome: Outcome,
)
    requires
        workbench_moves(
            before,
            Update::CommandResult { command, accepted, error },
            after,
            outcome,
        ),
    ensures
        accepted ==> outcome.fail is None && !(outcome.work is Restore) && !(outcome.work
            is SettingsError),
        !accepted ==> outcome.fail is Some && (error matches Some(text) ==> option_view(
            outcome.fail,
        ) == Some(text@)),
        outcome.keep_running,
        accepted ==> after.recoverable == before.recoverable,
        after.snapshot == before.snapshot && after.active == before.active,
{
}

/// A snapshot shows the conversation that is attached, else the one that is selected,
/// else the session itself.
pub proof fn snapshots_show_their_conversation(
    before: Workbench,
    navigation: NavigationSnapshot,
    attached: Option<String>,
    session: String,
    after: Workbench,
    outcome: Outcome,
)
    requires
        workbench_moves(
            before,
            Update::Snapshot { navigation, attached, session },
            after,
            outcome,
        ),
    ensures
        after.snapshot == navigation,
        attached matches Some(id) ==> after.active@ == id@,
        attached is None ==> (navigation.selected_conversation matches Some(id) ==> after.active@
            == id@),
        attached is None && navigation.selected_conversation is None ==> after.active@ == session@,
        outcome.work matches UpdateWork::Replace { conversation, .. } && conversation@
            == after.active@,
        after.pending == before.pending,
        after.recoverable == before.recoverable,
        after.navigation == before.navigation,
{
}

/// A run that was completed cannot be sent again; one that goes on can, as before.
pub proof fn completed_runs_are_not_retried(
    before: Workbench,
    operation: String,
    completed: bool,
    applied: bool,
    after: Workbench,
    outcome: Outcome,
)
    requires
        distinct_runs(before.recoverable.runs@),
        workbench_moves(
            before,
            Update::OperationState { operation, completed, applied },
            after,
            outcome,
        ),
    ensures
        !completed ==> after.recoverable.runs@ == before.recoverable.runs@,
        completed ==> forall|i: int|
            0 <= i < after.recoverable.runs@.len() ==> (
            #[trigger] after.recoverable.runs@[i]).operation@ != operation@,
        forall|i: int|
            0 <= i < before.recoverable.runs@.len() && (
            #[trigger] before.recoverable.runs@[i]).operation@ != operation@
                ==> after.recoverable.runs@.contains(before.recoverable.runs@[i]),
        outcome.work == (if applied {
            UpdateWork::Nothing
        } else {
            UpdateWork::RequestSnapshot
        }),
{
    runs_are_taken_out(before.recoverable.runs@, operation@);
    if !completed {
        assert forall|i: int| 0 <= i < before.recoverable.runs@.len() && (
        #[trigger] before.recoverable.runs@[i]).operation@
            != operation@ implies after.recoverable.runs@.contains(
            before.recoverable.runs@[i],
        ) by {
            assert(after.recoverable.runs@[i] == before.recoverable.runs@[i]);
        }
    }
}

/// The window closes by itself only when the runtime stopped as it was asked to; a
/// runtime that stops by itself is a failure.
pub proof fn windows_close_when_asked(
    before: Workbench,
    update: Update,
    after: Workbench,
    outcome: Outcome,
)
    requires
        workbench_moves(before, update, after, outcome),
    ensures
        outcome.work is CloseWindow <==> before.shutdown_pending && (update
            matches Update::BackendStopped { expected: true, .. }),
        update matches Update::BackendStopped { expected: false, .. } ==> outcome.fail is Some,
        update is Broken ==> outcome.fail is Some,
        outcome.work is Stage ==> update is AttachmentStaged,
        update matches Update::AttachmentStaged { command } ==> match outcome.work {
            UpdateWork::Stage { conversation } => before.pending.attachments@.contains_key(command)
                && before.pending.attachments@[command] == conversation,
            UpdateWork::Nothing => !before.pending.attachments@.contains_key(command),
            _ => false,
        },
        update matches Update::Observation { applied } ==> (outcome.work is RequestSnapshot
            <==> !applied),
        update is ResyncRequired ==> outcome.work is RequestSnapshot,
        update is HostObservation <==> outcome.work is ObserveHost,
{
}

/// A question that the user does not agree to leads to nothing, and one that they agree
/// to leads to what it asked for.
pub proof fn consent_leads_on(
    title: String,
    detail: String,
    request: Request,
    said: String,
    agreed: bool,
    next: Response,
)
    requires
        call_ensures(
            confirmed,
            (Response::Confirm { title, detail, request, said }, agreed),
            next,
        ),
    ensures
        !agreed ==> next is Nothing,
        agreed ==> (next matches Response::Ask { request: asked, .. } && asked == request),
{
}

/// The answer to the question before closing is taken by its button: the first keeps
/// the window open, the second cancels the work and quits, and anything else returns.
pub proof fn closing_follows_the_button(button: Option<usize>, choice: CloseChoice)
    requires
        call_ensures(close_choice, (button,), choice),
    ensures
        choice is KeepOpen <==> button == Some(0usize),
        choice is CancelAndQuit <==> button == Some(1usize),
        choice is Return <==> button != Some(0usize) && button != Some(1usize),
{
}

/// What the sidebar's menu asks for is about what is selected in it: a project is archived
/// or restored by consent and as chosen, a conversation is ungrouped, and a new one is made
/// in the selected project. Where the wrong thing is selected nothing is asked.
pub proof fn menus_act_on_the_selection(
    workbench: &Workbench,
    archived: bool,
    archiving: Response,
    ungrouping: Response,
    creating: Response,
)
    requires
        call_ensures(Workbench::set_archived, (workbench, archived), archiving),
        call_ensures(Workbench::ungroup, (workbench,), ungrouping),
        call_ensures(Workbench::new_conversation, (workbench,), creating),
    ensures
        match workbench.selection {
            Some(SidebarSelection::Project(id)) => {
                &&& archiving matches Response::Confirm {
                    request: Request::SetArchived { project, archived: wanted },
                    ..
                }
                &&& project == id
                &&& wanted == archived
                &&& ungrouping is Fail
            },
            Some(SidebarSelection::Conversation(id)) => {
                &&& archiving is Fail
                &&& ungrouping matches Response::Ask { request: Request::Ungroup { conversation }, .. }
                &&& conversation == id
            },
            None => archiving is Fail && ungrouping is Fail,
        },
        creating matches Response::Ask { request: Request::NewConversation { project }, .. }
            && project == workbench.selected_project,
{
}

/// A project is renamed to what was written, and the one whose dialog is open; its dialog
/// opens for the selected project, showing its present name.
pub proof fn renames_concern_the_selected_project(
    beginning: &mut Workbench,
    shown: Result<String, Response>,
    ending: &Workbench,
    name: String,
    response: Response,
)
    requires
        call_ensures(Workbench::begin_rename, (beginning,), shown),
        call_ensures(Workbench::commit_rename, (ending, name), response),
    ensures
        shown matches Ok(text) ==> {
            &&& old(beginning).selection matches Some(SidebarSelection::Project(id))
            &&& final(beginning).dialog == Some(NavigationDialog::RenameProject { project: id })
            &&& text@ == name_of(old(beginning).snapshot, id@)
        },
        shown is Err ==> *final(beginning) == *old(beginning),
        (old(beginning).selection matches Some(SidebarSelection::Project(_))) ==> shown is Ok,
        match ending.dialog {
            Some(NavigationDialog::RenameProject { project }) => {
                &&& response matches Response::Ask { request, .. }
                &&& request == (Request::Rename { project, name })
            },
            _ => response is Nothing,
        },
{
}

/// A conversation is moved to the project that was picked, and the one whose dialog is
/// open: at once where they share a workspace, and by consent where they do not. The
/// dialog is closed whatever comes of it.
pub proof fn conversations_move_where_they_are_sent(
    beginning: &mut Workbench,
    begun: Response,
    moving: &mut Workbench,
    target: String,
    response: Response,
)
    requires
        call_ensures(Workbench::begin_move, (beginning,), begun),
        call_ensures(Workbench::move_to, (moving, target), response),
    ensures
        match old(beginning).selection {
            Some(SidebarSelection::Conversation(id)) => final(beginning).dialog == Some(
                NavigationDialog::MoveConversation { conversation: id },
            ) && begun is Nothing,
            _ => *final(beginning) == *old(beginning) && begun is Fail,
        },
        match response {
            Response::Ask { request, .. } => {
                &&& request matches Request::Move { conversation, project, crosses: false }
                &&& project == target
                &&& old(moving).dialog == Some(NavigationDialog::MoveConversation { conversation })
            },
            Response::Confirm { request, .. } => {
                &&& request matches Request::Move { conversation, project, crosses: true }
                &&& project == target
                &&& old(moving).dialog == Some(NavigationDialog::MoveConversation { conversation })
            },
            Response::Fail(_) => true,
            Response::Nothing => *final(moving) == *old(moving),
            _ => false,
        },
        !(response is Nothing) ==> final(moving).dialog is None,
{
}

/// A branch is made of the selected conversation, at its committed point, and only by
/// consent.
pub proof fn branches_are_of_the_selection(workbench: &Workbench, response: Response)
    requires
        call_ensures(Workbench::branch, (workbench,), response),
    ensures
        match response {
            Response::Confirm { request, .. } => {
                &&& request matches Request::Branch { conversation, point }
                &&& workbench.selection == Some(SidebarSelection::Conversation(conversation))
                &&& conversation_of(workbench.snapshot, conversation@) matches Some(node)
                &&& node.branch_point == Some(point)
            },
            Response::Fail(_) => true,
            _ => false,
        },
{
}

/// The window is not closed over a running turn without a question, and no question is
/// asked twice. Who cancels and quits shuts down, who keeps it open stays, and the question
/// is put away by any answer.
pub proof fn closing_asks_first(
    closing: &mut Workbench,
    running: bool,
    step: CloseStep,
    answering: &mut Workbench,
    choice: CloseChoice,
    next: CloseStep,
    ending: &mut Workbench,
    result: Result<(), String>,
    told: Response,
)
    requires
        call_ensures(Workbench::request_close, (closing, running), step),
        call_ensures(Workbench::answer_close, (answering, choice), next),
        call_ensures(Workbench::shutdown_asked, (ending, result), told),
    ensures
        step is Shutdown ==> !running && !old(closing).shutdown_pending && !old(closing).close_prompt_open,
        step is Question <==> running && !old(closing).shutdown_pending && !old(closing).close_prompt_open,
        step is Question ==> final(closing).close_prompt_open,
        !(step is Question) ==> *final(closing) == *old(closing),
        !(step is StayOpen),
        !running && !old(closing).shutdown_pending && !old(closing).close_prompt_open
            ==> step is Shutdown,
        !final(answering).close_prompt_open,
        next is Shutdown <==> choice is CancelAndQuit && !old(answering).shutdown_pending,
        next is StayOpen <==> choice is KeepOpen,
        !(next is Question),
        result is Ok ==> final(ending).shutdown_pending && told is Say,
        result matches Err(message) ==> {
            &&& final(ending).shutdown_pending == old(ending).shutdown_pending
            &&& told matches Response::Fail(text) && text@ == message@
        },
{
}

/// A request that the runtime took is awaited where it is about the settings, and one that
/// it refused is told and changes nothing: the dialog of a refused rename stays open.
pub proof fn answers_to_requests_are_taken(
    workbench: &mut Workbench,
    request: &Request,
    said: Option<String>,
    result: Result<u64, String>,
    answer: Answer,
)
    requires
        call_ensures(Workbench::taken, (workbench, request, said, result), answer),
    ensures
        result matches Err(message) ==> *final(workbench) == *old(workbench) && (answer.response
            matches Response::Fail(text) && text@ == message@),
        result matches Ok(command) ==> {
            &&& !(answer.response is Fail)
            &&& request.about_settings() <==> answer.settings == SettingsSignal::Busy
            &&& request.about_settings() ==> final(workbench).pending.settings@.contains(command)
            &&& !request.about_settings() ==> final(workbench).pending.settings@ == old(workbench).pending.settings@
            &&& request is Rename ==> final(workbench).dialog is None
            &&& !(request is Rename) ==> final(workbench).dialog == old(workbench).dialog
        },
        answer.settings == SettingsSignal::Failed <==> result is Err && request.about_settings(),
        final(workbench).active == old(workbench).active,
{
}

/// A message that the runtime took is pending by its number, in the conversation that it
/// was written in; one that it refused goes back to the composer as it was.
pub proof fn sent_messages_are_not_lost(
    workbench: &mut Workbench,
    submission: Submission,
    result: Result<(u64, Option<String>), String>,
    sent: Sent,
)
    requires
        old(workbench).sound(),
        call_ensures(Workbench::sent, (workbench, submission, result), sent),
    ensures
        result matches Ok((command, operation)) ==> {
            &&& final(workbench).pending.submissions@.contains_key(command)
            &&& final(workbench).pending.submissions@[command].submission == submission
            &&& final(workbench).pending.submissions@[command].conversation == old(workbench).active
            &&& !(sent is Restored)
            &&& operation matches Some(id) ==> sent == (Sent::Shown {
                operation: id,
                text: submission.text,
            })
        },
        result matches Err(message) ==> sent == (Sent::Restored { submission, message })
            && *final(workbench) == *old(workbench),
{
}

/// A run is sent again only where it is known, belongs to the conversation that is shown
/// and nothing runs there; what is sent is what was sent before.
pub proof fn only_own_runs_are_retried(
    workbench: &Workbench,
    operation: Option<&str>,
    running: bool,
    response: Response,
)
    requires
        call_ensures(Workbench::retry, (workbench, operation, running), response),
    ensures
        response matches Response::Resend { submission, .. } ==> {
            &&& !running
            &&& operation matches Some(id)
            &&& run_index(workbench.recoverable.runs@, id@) < workbench.recoverable.runs@.len()
            &&& workbench.recoverable.runs@[run_index(
                workbench.recoverable.runs@,
                id@,
            ) as int].conversation@ == workbench.active@
            &&& submission.same_as(
                workbench.recoverable.runs@[run_index(
                    workbench.recoverable.runs@,
                    id@,
                ) as int].submission,
            )
        },
        response is Resend || response is Fail,
        operation is None ==> response is Fail,
        running ==> response is Fail,
{
}

/// The palette opens and closes, the sidebar folds as asked, and a place is turned to: each
/// of them changes itself alone.
pub proof fn small_changes_stay_small(
    opening: &mut Workbench,
    dismissing: &mut Workbench,
    focus: bool,
    folding: &mut Workbench,
    collapsed: bool,
    response: Response,
)
    requires
        call_ensures(Workbench::show_palette, (opening,), ()),
        call_ensures(Workbench::dismiss_palette, (dismissing,), focus),
        call_ensures(Workbench::collapse_sidebar, (folding, collapsed), response),
    ensures
        final(opening).palette_open,
        !final(dismissing).palette_open,
        focus <==> old(dismissing).palette_open,
        final(folding).snapshot.mini_sidebar == collapsed,
        final(folding).snapshot.projects == old(folding).snapshot.projects,
        final(folding).selection == old(folding).selection,
        response == (Response::AskQuietly { request: Request::SetSidebar { mini: collapsed } }),
{
}

/// A conversation that the overview opens is selected, with its project; the one that is
/// shown already is turned to, and any other is asked for.
pub proof fn overviews_open_what_was_picked(
    workbench: &mut Workbench,
    id: String,
    needs_attention: bool,
    response: Response,
)
    requires
        call_ensures(Workbench::open_from_overview, (workbench, id, needs_attention), response),
    ensures
        final(workbench).selection == Some(SidebarSelection::Conversation(id)),
        final(workbench).selected_project == holder_of(old(workbench).snapshot, id@),
        response is Nothing <==> option_view(old(workbench).snapshot.selected_conversation)
            == Some(id@),
        !(response is Nothing) ==> (response matches Response::Ask {
            request: Request::Switch { conversation },
            ..
        } && conversation == id),
        !(response is Nothing) ==> final(workbench).navigation == old(workbench).navigation,
{
}

/// A new workbench shows what it was launched for, with nothing pending, nothing to retry
/// and nothing open.
pub proof fn workbenches_begin_empty(
    snapshot: NavigationSnapshot,
    attached: Option<String>,
    session: String,
    intent: LaunchIntent,
    begun: (Workbench, bool),
)
    requires
        call_ensures(Workbench::new, (snapshot, attached, session, intent), begun),
    ensures
        begun.0.snapshot == snapshot,
        attached matches Some(id) ==> begun.0.active@ == id@,
        attached is None ==> (snapshot.selected_conversation matches Some(id) ==> begun.0.active@
            == id@),
        attached is None && snapshot.selected_conversation is None ==> begun.0.active@ == session@,
        begun.0.pending.submissions@.dom() =~= Set::<u64>::empty(),
        begun.0.pending.attachments@.dom() =~= Set::<u64>::empty(),
        begun.0.pending.settings@ =~= Set::<u64>::empty(),
        begun.0.recoverable.runs@.len() == 0,
        begun.0.dialog is None && !begun.0.palette_open && !begun.0.shutdown_pending
            && !begun.0.close_prompt_open,
        begun.0.navigation == intended(intent),
{
}

/// What is chosen in the sidebar is what the item stands for: a conversation is selected and
/// asked for unless it is shown already, a project is selected for the next conversation,
/// and anything else changes nothing.
pub proof fn chosen_items_are_selected(workbench: &mut Workbench, item: &str, response: Response)
    requires
        call_ensures(Workbench::choose_item, (workbench, item), response),
    ensures
        response is Fail ==> false,
        response matches Response::Ask { request, .. } ==> {
            &&& request matches Request::Switch { conversation }
            &&& final(workbench).selection == Some(SidebarSelection::Conversation(conversation))
            &&& selects(item@, Some(SidebarSelection::Conversation(conversation)))
        },
        response is Say ==> (final(workbench).selection
            matches Some(SidebarSelection::Project(id)) && final(workbench).selected_project
            == Some(id)),
        final(workbench).pending == old(workbench).pending,
        final(workbench).navigation == old(workbench).navigation,
        final(workbench).active == old(workbench).active,
{
}

}
