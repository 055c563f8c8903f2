//! What the workbench does about what its user does: writing, sending, choosing
//! models and changing settings.

use crate::desktop::navigation::{
    documentation_url_is_safe, NavigationTarget, PathKind, DOCUMENTATION_PREFIX, DOCUMENTATION_URL,
};
use crate::desktop::retained::Submission;
use crate::desktop::workbench::{
    asks, asks_quietly, confirms, fails, says, Request, Response, Workbench,
};
use crate::text::{copy_option, text_eq};
use vstd::prelude::*;
use vstd::string::*;

verus! {

pub const COPIED: &'static str = "Prior request copied to the composer; review it, then send or branch explicitly.";

pub const EDITED: &'static str = "Edited text moved to the composer; immutable history is unchanged.";

pub const QUEUED: &'static str = "Follow-up queued for this Conversation";

pub const MUST_FINISH: &'static str = "The active Run must finish or be cancelled before this follow-up can send";

pub const MODEL_WAITS: &'static str = "Wait for or interrupt the active Run before changing models.";

pub const REASONING_WAITS: &'static str = "Wait for or interrupt the active Run before changing reasoning.";

pub const MODEL_TITLE: &'static str = "Start a new Conversation with this model?";

pub const MODEL_DETAIL: &'static str = "Native model changes do not rewrite this Conversation. Xana will update the default selection and open a fresh Conversation in the same workspace.";

pub const MODEL_UNEXPECTED: &'static str = "The model selection did not require the expected new Conversation.";

pub const NOTHING_STAGED: &'static str = "No settings changes are staged.";

/// The owner of a conversation that a managed runtime keeps.
pub const MANAGED_OWNER: &'static str = "managed_codex";

/// The suggestion that a new conversation is offered.
pub const CAPABILITIES_SUGGESTION: &'static str = "capabilities";

/// What a suggestion puts into the composer.
pub fn suggested_draft(suggestion: &str) -> (draft: Option<&'static str>)
    ensures
        match draft {
            Some(text) => suggestion@ == CAPABILITIES_SUGGESTION@ && text@ == "What can Xana do?"@,
            None => suggestion@ != CAPABILITIES_SUGGESTION@,
        },
{
    if text_eq(suggestion, CAPABILITIES_SUGGESTION) {
        Some("What can Xana do?")
    } else {
        None
    }
}

/// What is said of a text that was put into the composer: nothing that was said
/// before is changed by it.
pub fn draft_taken(edited: bool, result: Result<(), String>) -> (response: Response)
    ensures
        match result {
            Ok(_) => says(
                response,
                if edited {
                    EDITED@
                } else {
                    COPIED@
                },
            ),
            Err(reason) => fails(response, reason@),
        },
{
    match result {
        Ok(_) => Response::Say(
            if edited {
                EDITED.to_owned()
            } else {
                COPIED.to_owned()
            },
        ),
        Err(reason) => Response::Fail(reason),
    }
}

/// What is done with a message that is written.
#[derive(Debug, PartialEq, Eq)]
pub enum Sending {
    Queue(Submission),
    Submit(Submission),
}

/// What is done with a message that is written: it waits while a run is active.
pub fn send(submission: Submission, running: bool) -> (sending: Sending)
    ensures
        sending == (if running {
            Sending::Queue(submission)
        } else {
            Sending::Submit(submission)
        }),
{
    if running {
        Sending::Queue(submission)
    } else {
        Sending::Submit(submission)
    }
}

/// What is said of a message that was to wait.
pub fn queue_taken(result: Result<(), String>) -> (response: Response)
    ensures
        match result {
            Ok(_) => says(response, QUEUED@),
            Err(reason) => fails(response, reason@),
        },
{
    match result {
        Ok(_) => Response::Say(QUEUED.to_owned()),
        Err(reason) => Response::Fail(reason),
    }
}

/// Interrupts the run that is active, if one is.
pub fn interrupt(active: &Option<String>) -> (response: Response)
    ensures
        match *active {
            Some(operation) => asks_quietly(response, Request::Interrupt { operation }),
            None => response is Nothing,
        },
{
    match copy_option(active) {
        Some(operation) => Response::AskQuietly { request: Request::Interrupt { operation } },
        None => Response::Nothing,
    }
}

/// How a model is changed.
pub open spec fn changes_model(
    running: bool,
    managed: bool,
    connection: String,
    model: String,
    current: Seq<char>,
    response: Response,
) -> bool {
    if model@ == current {
        response is Nothing
    } else if running {
        fails(response, MODEL_WAITS@)
    } else if managed {
        asks(
            response,
            Request::SelectManagedModel { model },
            "Changing later managed turns to "@ + model@ + "; the Codex thread is retained…"@,
        )
    } else {
        confirms(
            response,
            MODEL_TITLE@,
            MODEL_DETAIL@,
            Request::SelectModel { connection, model },
            "Opening a new native Conversation with "@ + model@
                + "; prior history is unchanged…"@,
        )
    }
}

/// Changes the model: of a managed conversation for its later turns, and otherwise
/// by a new conversation, once the user agrees. What was said is not rewritten.
pub fn request_model_change(
    running: bool,
    owner: &str,
    connection: String,
    model: String,
    current: &str,
) -> (response: Response)
    ensures
        changes_model(running, owner@ == MANAGED_OWNER@, connection, model, current@, response),
{
    if text_eq(model.as_str(), current) {
        return Response::Nothing;
    }
    if running {
        return Response::Fail(MODEL_WAITS.to_owned());
    }
    if text_eq(owner, MANAGED_OWNER) {
        let mut said = "Changing later managed turns to ".to_owned();
        said.append(model.as_str());
        said.append("; the Codex thread is retained…");
        return Response::Ask { request: Request::SelectManagedModel { model }, said };
    }
    let mut said = "Opening a new native Conversation with ".to_owned();
    said.append(model.as_str());
    said.append("; prior history is unchanged…");
    Response::Confirm {
        title: MODEL_TITLE.to_owned(),
        detail: MODEL_DETAIL.to_owned(),
        request: Request::SelectModel { connection, model },
        said,
    }
}

/// What follows a model that was selected: a new conversation, or what is wrong.
pub fn model_selected(
    result: Result<bool, String>,
    project: Option<String>,
    said: String,
) -> (response: Response)
    ensures
        match result {
            Ok(true) => asks(response, Request::NewConversation { project }, said@),
            Ok(false) => fails(response, MODEL_UNEXPECTED@),
            Err(message) => fails(response, message@),
        },
{
    match result {
        Ok(needs_new) => if needs_new {
            Response::Ask { request: Request::NewConversation { project }, said }
        } else {
            Response::Fail(MODEL_UNEXPECTED.to_owned())
        },
        Err(message) => Response::Fail(message),
    }
}

/// What is said where the model was saved and its conversation could not be had.
pub fn model_without_conversation(message: &str) -> (response: Response)
    ensures
        fails(
            response,
            "Model selection was saved, but the new Conversation could not open: "@ + message@,
        ),
{
    let mut text = "Model selection was saved, but the new Conversation could not open: ".to_owned();
    text.append(message);
    Response::Fail(text)
}

/// Changes how much a managed conversation reasons in its later turns.
pub fn set_managed_reasoning(running: bool, effort: Option<String>) -> (response: Response)
    ensures
        if running {
            fails(response, REASONING_WAITS@)
        } else {
            asks(
                response,
                Request::SetReasoning { effort },
                "Changing later managed turns to "@ + (match effort {
                    Some(effort) => effort@,
                    None => "auto"@,
                }) + " reasoning; the Codex thread is retained…"@,
            )
        },
{
    if running {
        return Response::Fail(REASONING_WAITS.to_owned());
    }
    let mut said = "Changing later managed turns to ".to_owned();
    match &effort {
        Some(effort) => said.append(effort.as_str()),
        None => said.append("auto"),
    }
    said.append(" reasoning; the Codex thread is retained…");
    Response::Ask { request: Request::SetReasoning { effort }, said }
}

/// What the settings ask for.
#[derive(Debug, PartialEq, Eq)]
pub enum SettingsEvent {
    StartNewConversation,
    Reload,
    Review,
    Apply,
    Stage { draft: u64, key: String, value: String },
    Reset { draft: u64, key: String },
    Revert { draft: u64, key: String },
}

/// A word before a key and an ellipsis behind it.
pub open spec fn about_key(word: Seq<char>, key: Seq<char>) -> Seq<char> {
    word + key + "…"@
}

fn tell_key(word: &str, key: &str) -> (text: String)
    ensures
        text@ == about_key(word@, key@),
{
    let mut text = word.to_owned();
    text.append(key);
    text.append("…");
    text
}

/// How the settings are served.
pub open spec fn serves_settings(
    event: SettingsEvent,
    draft: Option<u64>,
    project: Option<String>,
    response: Response,
) -> bool {
    match event {
        SettingsEvent::StartNewConversation => asks(
            response,
            Request::NewConversation { project },
            "Opening a new Conversation with the applied model/Profile…"@,
        ),
        SettingsEvent::Reload => asks(
            response,
            Request::ReloadSettings,
            "Refreshing authoritative settings…"@,
        ),
        SettingsEvent::Review => match draft {
            Some(draft) => asks(
                response,
                Request::ValidateSettings { draft },
                "Validating staged settings…"@,
            ),
            None => fails(response, NOTHING_STAGED@),
        },
        SettingsEvent::Apply => match draft {
            Some(draft) => asks(
                response,
                Request::CommitSettings { draft },
                "Applying settings transaction…"@,
            ),
            None => fails(response, NOTHING_STAGED@),
        },
        SettingsEvent::Stage { draft, key, value } => asks(
            response,
            Request::SetSetting { draft, key, value },
            about_key("Staging "@, key@),
        ),
        SettingsEvent::Reset { draft, key } => asks(
            response,
            Request::ResetSetting { draft, key },
            about_key("Resetting "@, key@),
        ),
        SettingsEvent::Revert { draft, key } => asks(
            response,
            Request::RevertSetting { draft, key },
            about_key("Reverting staged "@, key@),
        ),
    }
}

/// Whether what the settings ask for makes the receipt of an earlier change out of
/// date.
pub open spec fn outdates_receipt(event: SettingsEvent) -> bool {
    event is Stage || event is Reset || event is Revert
}

fn request_of_settings(event: SettingsEvent, draft: Option<u64>, project: Option<String>) -> (
    response: Response)
    ensures
        serves_settings(event, draft, project, response),
{
    match event {
        SettingsEvent::StartNewConversation => Response::Ask {
            request: Request::NewConversation { project },
            said: "Opening a new Conversation with the applied model/Profile…".to_owned(),
        },
        SettingsEvent::Reload => Response::Ask {
            request: Request::ReloadSettings,
            said: "Refreshing authoritative settings…".to_owned(),
        },
        SettingsEvent::Review => match draft {
            Some(draft) => Response::Ask {
                request: Request::ValidateSettings { draft },
                said: "Validating staged settings…".to_owned(),
            },
            None => Response::Fail(NOTHING_STAGED.to_owned()),
        },
        SettingsEvent::Apply => match draft {
            Some(draft) => Response::Ask {
                request: Request::CommitSettings { draft },
                said: "Applying settings transaction…".to_owned(),
            },
            None => Response::Fail(NOTHING_STAGED.to_owned()),
        },
        SettingsEvent::Stage { draft, key, value } => {
            let said = tell_key("Staging ", key.as_str());
            Response::Ask { request: Request::SetSetting { draft, key, value }, said }
        },
        SettingsEvent::Reset { draft, key } => {
            let said = tell_key("Resetting ", key.as_str());
            Response::Ask { request: Request::ResetSetting { draft, key }, said }
        },
        SettingsEvent::Revert { draft, key } => {
            let said = tell_key("Reverting staged ", key.as_str());
            Response::Ask { request: Request::RevertSetting { draft, key }, said }
        },
    }
}

impl Workbench {
    /// Serves the settings. Only a draft is reviewed or applied, and a change that
    /// is staged, reset or reverted forgets the receipt of an earlier one.
    pub fn handle_settings_event(&mut self, event: SettingsEvent, draft: Option<u64>) -> (response:
        Response)
        ensures
            serves_settings(event, draft, old(self).selected_project, response),
            *final(self) == (Workbench {
                settings_receipt: if outdates_receipt(event) {
                    None
                } else {
                    old(self).settings_receipt
                },
                ..*old(self)
            }),
    {
        match &event {
            SettingsEvent::Stage { .. } | SettingsEvent::Reset { .. } | SettingsEvent::Revert { .. } => {
                self.settings_receipt = None;
            },
            _ => {},
        }
        request_of_settings(event, draft, copy_option(&self.selected_project))
    }
}

pub const DISCARD_TITLE: &'static str = "Discard staged settings?";

pub const DISCARD_DETAIL: &'static str = "This removes only the process-local draft. Durable settings remain unchanged and the appearance preview is reverted.";

/// Discards the draft, once the user agrees.
pub fn discard_settings(draft: Option<u64>) -> (response: Response)
    ensures
        match draft {
            Some(draft) => confirms(
                response,
                DISCARD_TITLE@,
                DISCARD_DETAIL@,
                Request::DiscardSettings { draft },
                "Discarding staged settings…"@,
            ),
            None => response is Nothing,
        },
{
    match draft {
        Some(draft) => Response::Confirm {
            title: DISCARD_TITLE.to_owned(),
            detail: DISCARD_DETAIL.to_owned(),
            request: Request::DiscardSettings { draft },
            said: "Discarding staged settings…".to_owned(),
        },
        None => Response::Nothing,
    }
}

/// Decides about a permission that is asked for, once.
pub fn decide_permission(id: String, allow: bool) -> (response: Response)
    ensures
        asks(
            response,
            Request::DecidePermission { id, allow },
            if allow {
                "Sending one-time approval…"@
            } else {
                "Sending denial…"@
            },
        ),
{
    Response::Ask {
        request: Request::DecidePermission { id, allow },
        said: if allow {
            "Sending one-time approval…".to_owned()
        } else {
            "Sending denial…".to_owned()
        },
    }
}

/// What becomes of a message that is taken from those that wait.
#[derive(Debug, PartialEq, Eq)]
pub enum Taken {
    /// It is sent.
    Submit(Submission),
    /// It goes on waiting, and why.
    Wait { submission: Submission, said: String },
    /// It is written anew.
    Edit(Submission),
}

/// What becomes of a message that is taken from those that wait, to be sent now or
/// to be written anew.
pub fn take_queued(submission: Submission, edit: bool, running: bool) -> (taken: Taken)
    ensures
        if edit {
            taken == Taken::Edit(submission)
        } else if running {
            taken matches Taken::Wait { submission: held, said } && held == submission && said@
                == MUST_FINISH@
        } else {
            taken == Taken::Submit(submission)
        },
{
    if edit {
        Taken::Edit(submission)
    } else if running {
        Taken::Wait { submission, said: MUST_FINISH.to_owned() }
    } else {
        Taken::Submit(submission)
    }
}

/// A command of the window.
#[derive(Clone, Copy, PartialEq, Eq, Structural, Debug)]
pub enum WindowCommand {
    ShowPalette,
    Quit,
    Minimize,
    OpenDocumentation,
    OpenConfiguration,
    RevealLogs,
    ClearConversation,
    InterruptRun,
    ShowActivity,
    ShowEspejo,
    ShowSettings,
}

/// What the window does about a command.
#[derive(Debug, PartialEq, Eq)]
pub enum WindowWork {
    Nothing,
    Palette,
    Close,
    Minimize,
    OpenUrl { url: &'static str },
    OpenConfiguration,
    RevealLogs,
    Turn { target: NavigationTarget },
    Fail(&'static str),
    Ask(Request),
}

pub const NO_CONFIGURATION: &'static str = "Xana's configuration file is unavailable; run setup or Diagnostics.";

pub const NO_LOGS: &'static str = "Xana's logs directory is unavailable; run Diagnostics.";

/// Whether work is what the window does about a command.
pub open spec fn dispatches(
    command: WindowCommand,
    configuration: PathKind,
    logs: PathKind,
    active: Option<String>,
    work: WindowWork,
) -> bool {
    match command {
        WindowCommand::ShowPalette => work is Palette,
        WindowCommand::Quit => work is Close,
        WindowCommand::Minimize => work is Minimize,
        WindowCommand::OpenDocumentation => work matches WindowWork::OpenUrl { url } && url@
            == DOCUMENTATION_URL@,
        WindowCommand::OpenConfiguration => if configuration is File {
            work is OpenConfiguration
        } else {
            work matches WindowWork::Fail(text) && text@ == NO_CONFIGURATION@
        },
        WindowCommand::RevealLogs => if logs is Directory {
            work is RevealLogs
        } else {
            work matches WindowWork::Fail(text) && text@ == NO_LOGS@
        },
        WindowCommand::ClearConversation => work == WindowWork::Ask(Request::Clear),
        WindowCommand::InterruptRun => match active {
            Some(operation) => work == WindowWork::Ask(Request::Interrupt { operation }),
            None => work is Nothing,
        },
        WindowCommand::ShowActivity => work == (WindowWork::Turn {
            target: NavigationTarget::Activity,
        }),
        WindowCommand::ShowEspejo => work == (WindowWork::Turn {
            target: NavigationTarget::Espejo,
        }),
        WindowCommand::ShowSettings => work == (WindowWork::Turn {
            target: NavigationTarget::Settings,
        }),
    }
}

/// What the window does about a command: a file is opened, and a directory shown,
/// only where it is what it should be and no link.
pub fn dispatch(
    command: WindowCommand,
    configuration: PathKind,
    logs: PathKind,
    active: &Option<String>,
) -> (work: WindowWork)
    ensures
        dispatches(command, configuration, logs, *active, work),
{
    match command {
        WindowCommand::ShowPalette => WindowWork::Palette,
        WindowCommand::Quit => WindowWork::Close,
        WindowCommand::Minimize => WindowWork::Minimize,
        WindowCommand::OpenDocumentation => {
            let safe = documentation_url_is_safe(DOCUMENTATION_URL);
            proof {
                reveal_strlit("https://github.com/labcoder/xana#readme");
                reveal_strlit("https://github.com/labcoder/xana");
                assert(DOCUMENTATION_URL@.take(DOCUMENTATION_PREFIX@.len() as int)
                    =~= DOCUMENTATION_PREFIX@);
            }
            if safe {
                WindowWork::OpenUrl { url: DOCUMENTATION_URL }
            } else {
                WindowWork::Nothing
            }
        },
        WindowCommand::OpenConfiguration => if matches!(configuration, PathKind::File) {
            WindowWork::OpenConfiguration
        } else {
            WindowWork::Fail(NO_CONFIGURATION)
        },
        WindowCommand::RevealLogs => if matches!(logs, PathKind::Directory) {
            WindowWork::RevealLogs
        } else {
            WindowWork::Fail(NO_LOGS)
        },
        WindowCommand::ClearConversation => WindowWork::Ask(Request::Clear),
        WindowCommand::InterruptRun => match copy_option(active) {
            Some(operation) => WindowWork::Ask(Request::Interrupt { operation }),
            None => WindowWork::Nothing,
        },
        WindowCommand::ShowActivity => WindowWork::Turn { target: NavigationTarget::Activity },
        WindowCommand::ShowEspejo => WindowWork::Turn { target: NavigationTarget::Espejo },
        WindowCommand::ShowSettings => WindowWork::Turn { target: NavigationTarget::Settings },
    }
}

impl Workbench {
    /// Does what a command asks for. The one that shows the palette opens it.
    pub fn run_command(
        &mut self,
        command: WindowCommand,
        configuration: PathKind,
        logs: PathKind,
        active: &Option<String>,
    ) -> (work: WindowWork)
        ensures
            dispatches(command, configuration, logs, *active, work),
            *final(self) == (Workbench {
                palette_open: old(self).palette_open || command is ShowPalette,
                ..*old(self)
            }),
    {
        if let WindowCommand::ShowPalette = command {
            self.show_palette();
        }
        dispatch(command, configuration, logs, active)
    }

    /// Takes what was picked from the palette: the palette is dismissed first, and
    /// then the command is run, where the entry is that of one.
    pub fn pick_command(
        &mut self,
        picked: Option<WindowCommand>,
        configuration: PathKind,
        logs: PathKind,
        active: &Option<String>,
    ) -> (work: WindowWork)
        ensures
            match picked {
                Some(command) => {
                    &&& dispatches(command, configuration, logs, *active, work)
                    &&& *final(self) == (Workbench {
                        palette_open: command is ShowPalette,
                        ..*old(self)
                    })
                },
                None => {
                    &&& work is Nothing
                    &&& *final(self) == (Workbench { palette_open: false, ..*old(self) })
                },
            },
    {
        let _ = self.dismiss_palette();
        match picked {
            Some(command) => self.run_command(command, configuration, logs, active),
            None => WindowWork::Nothing,
        }
    }
}

/// A decision about a permission is the user's: what is asked of the runtime allows it
/// exactly where the user did, and is about the permission that was shown.
pub proof fn permissions_are_decided_as_chosen(id: String, allow: bool, response: Response)
    requires
        call_ensures(decide_permission, (id, allow), response),
    ensures
        response matches Response::Ask { request: Request::DecidePermission {
            id: about,
            allow: allowed,
        }, .. } && about == id && allowed == allow,
{
}

/// A message is never lost on its way: it waits while a run is at work and is sent
/// where none is, as it was written.
pub proof fn messages_wait_or_go(submission: Submission, running: bool, sending: Sending)
    requires
        call_ensures(send, (submission, running), sending),
    ensures
        running ==> sending == Sending::Queue(submission),
        !running ==> sending == Sending::Submit(submission),
{
}

/// A message that waited is written anew where the user asks for that; else it is sent
/// where nothing runs, and goes on waiting where something does.
pub proof fn waiting_messages_are_kept(
    submission: Submission,
    edit: bool,
    running: bool,
    taken: Taken,
)
    requires
        call_ensures(take_queued, (submission, edit, running), taken),
    ensures
        edit ==> taken == Taken::Edit(submission),
        !edit && !running ==> taken == Taken::Submit(submission),
        !edit && running ==> (taken matches Taken::Wait { submission: held, .. } && held
            == submission),
{
}

/// An interruption is of the run that is at work, and of none where none is.
pub proof fn only_the_active_run_is_interrupted(active: Option<String>, response: Response)
    requires
        call_ensures(interrupt, (&active,), response),
    ensures
        active is None ==> response is Nothing,
        active matches Some(id) ==> (response matches Response::AskQuietly {
            request: Request::Interrupt { operation },
        } && operation == id),
{
}

/// A draft is discarded only after a question, and it is the one that is open.
pub proof fn drafts_are_discarded_by_consent(draft: Option<u64>, response: Response)
    requires
        call_ensures(discard_settings, (draft,), response),
    ensures
        draft is None <==> response is Nothing,
        draft matches Some(open) ==> (response matches Response::Confirm {
            request: Request::DiscardSettings { draft: discarded },
            ..
        } && discarded == open),
{
}

/// A model is changed to the one that was chosen, never while a run is at work, and in
/// a conversation that is kept here only once the user agrees; a model that is in use
/// already changes nothing.
pub proof fn models_change_as_chosen(
    running: bool,
    managed: bool,
    connection: String,
    model: String,
    current: Seq<char>,
    response: Response,
)
    requires
        changes_model(running, managed, connection, model, current, response),
    ensures
        model@ == current ==> response is Nothing,
        running ==> !(response is Ask) && !(response is Confirm),
        response is Ask ==> managed && (response matches Response::Ask {
            request: Request::SelectManagedModel { model: chosen },
            ..
        } && chosen == model),
        response is Confirm ==> !managed && (response matches Response::Confirm {
            request: Request::SelectModel { connection: at, model: chosen },
            ..
        } && chosen == model && at == connection),
        !running && model@ != current ==> response is Ask || response is Confirm,
        running && model@ != current ==> response is Fail,
{
}

/// How much a managed conversation reasons is changed to what was chosen, and not while
/// a run is at work.
pub proof fn reasoning_changes_as_chosen(running: bool, effort: Option<String>, response: Response)
    requires
        call_ensures(set_managed_reasoning, (running, effort), response),
    ensures
        running ==> response is Fail,
        !running ==> (response matches Response::Ask { request: Request::SetReasoning {
            effort: chosen,
        }, .. } && chosen == effort),
{
}

/// What the settings ask for is what was done in them: a change, a reset and a revert
/// are of the key and the draft that they were made in, and only an open draft is
/// reviewed or applied.
pub proof fn settings_ask_for_what_was_done(
    event: SettingsEvent,
    draft: Option<u64>,
    project: Option<String>,
    response: Response,
)
    requires
        serves_settings(event, draft, project, response),
    ensures
        match event {
            SettingsEvent::Stage { draft: at, key, value } => response matches Response::Ask {
                request: Request::SetSetting { draft: held, key: named, value: chosen },
                ..
            } && held == at && named == key && chosen == value,
            SettingsEvent::Reset { draft: at, key } => response matches Response::Ask {
                request: Request::ResetSetting { draft: held, key: named },
                ..
            } && held == at && named == key,
            SettingsEvent::Revert { draft: at, key } => response matches Response::Ask {
                request: Request::RevertSetting { draft: held, key: named },
                ..
            } && held == at && named == key,
            SettingsEvent::Review => match draft {
                Some(open) => response matches Response::Ask {
                    request: Request::ValidateSettings { draft: held },
                    ..
                } && held == open,
                None => response is Fail,
            },
            SettingsEvent::Apply => match draft {
                Some(open) => response matches Response::Ask {
                    request: Request::CommitSettings { draft: held },
                    ..
                } && held == open,
                None => response is Fail,
            },
            SettingsEvent::Reload => response matches Response::Ask {
                request: Request::ReloadSettings,
                ..
            },
            SettingsEvent::StartNewConversation => response matches Response::Ask {
                request: Request::NewConversation { project: held },
                ..
            } && held == project,
        },
{
}

/// Every command of the window leads to what it is called: nothing else quits, clears,
/// interrupts or opens anything.
pub proof fn commands_do_what_they_are_called(
    command: WindowCommand,
    configuration: PathKind,
    logs: PathKind,
    active: Option<String>,
    work: WindowWork,
)
    requires
        dispatches(command, configuration, logs, active, work),
    ensures
        work is Palette <==> command == WindowCommand::ShowPalette,
        work is Close <==> command == WindowCommand::Quit,
        work is Minimize <==> command == WindowCommand::Minimize,
        work is OpenUrl <==> command == WindowCommand::OpenDocumentation,
        work is OpenConfiguration <==> command == WindowCommand::OpenConfiguration && configuration
            is File,
        work is RevealLogs <==> command == WindowCommand::RevealLogs && logs is Directory,
        work == WindowWork::Ask(Request::Clear) <==> command == WindowCommand::ClearConversation,
        command == WindowCommand::InterruptRun ==> match active {
            Some(operation) => work == WindowWork::Ask(Request::Interrupt { operation }),
            None => work is Nothing,
        },
        work == (WindowWork::Turn { target: NavigationTarget::Activity }) <==> command
            == WindowCommand::ShowActivity,
        work == (WindowWork::Turn { target: NavigationTarget::Espejo }) <==> command
            == WindowCommand::ShowEspejo,
        work == (WindowWork::Turn { target: NavigationTarget::Settings }) <==> command
            == WindowCommand::ShowSettings,
{
}

/// The settings are served without a change to the workbench, but that a staged, reset or
/// reverted setting forgets the receipt of an earlier change.
pub proof fn served_settings_change_the_receipt_alone(
    workbench: &mut Workbench,
    event: SettingsEvent,
    draft: Option<u64>,
    response: Response,
)
    requires
        call_ensures(Workbench::handle_settings_event, (workbench, event, draft), response),
    ensures
        serves_settings(event, draft, old(workbench).selected_project, response),
        final(workbench).settings_receipt is None || final(workbench).settings_receipt == old(workbench).settings_receipt,
        event is Stage || event is Reset || event is Revert ==> final(workbench).settings_receipt is None,
        !(event is Stage || event is Reset || event is Revert) ==> *final(workbench) == *old(workbench),
        final(workbench).pending == old(workbench).pending,
        final(workbench).navigation == old(workbench).navigation,
{
}

/// What is picked from the palette is run once the palette is gone; one that was put away
/// runs nothing. A command opens the palette only where it is the one that shows it.
pub proof fn picked_commands_are_run(
    picking: &mut Workbench,
    picked: Option<WindowCommand>,
    running: &mut Workbench,
    command: WindowCommand,
    configuration: PathKind,
    logs: PathKind,
    active: &Option<String>,
    work: WindowWork,
    done: WindowWork,
)
    requires
        call_ensures(
            Workbench::pick_command,
            (picking, picked, configuration, logs, active),
            work,
        ),
        call_ensures(
            Workbench::run_command,
            (running, command, configuration, logs, active),
            done,
        ),
    ensures
        picked is None ==> work is Nothing && !final(picking).palette_open,
        picked matches Some(chosen) ==> dispatches(chosen, configuration, logs, *active, work),
        final(picking).palette_open <==> picked == Some(WindowCommand::ShowPalette),
        dispatches(command, configuration, logs, *active, done),
        command == WindowCommand::ShowPalette ==> final(running).palette_open,
        command != WindowCommand::ShowPalette ==> *final(running) == *old(running),
{
}

/// A model that was selected leads to a new conversation in the selected project; one that
/// was not is told.
pub proof fn selected_models_begin_anew(
    result: Result<bool, String>,
    project: Option<String>,
    said: String,
    response: Response,
    edited: bool,
    drafted: Result<(), String>,
    told: Response,
)
    requires
        call_ensures(model_selected, (result, project, said), response),
        call_ensures(draft_taken, (edited, drafted), told),
    ensures
        response matches Response::Ask { request, .. } ==> request
            == (Request::NewConversation { project }),
        response is Ask <==> result == Ok::<bool, String>(true),
        response is Fail <==> result != Ok::<bool, String>(true),
        result matches Err(message) ==> (response matches Response::Fail(text) && text@ == message@),
        told is Say <==> drafted is Ok,
        drafted matches Err(message) ==> (told matches Response::Fail(text) && text@ == message@),
{
}

}
