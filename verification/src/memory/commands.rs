//! The owner's commands on memory, from what is asked for to what is reported.

use crate::memory::{
    admit_memory, corrected_expiry, expiry_of, spoken_answer, EXPORT_NOTICE,
    PROTECTED_STORAGE, UNKNOWN_CONTROL,
};
use vstd::prelude::*;
use vstd::string::*;

verus! {

/// A command on memory.
#[derive(Debug, PartialEq, Eq)]
pub enum MemoryCommand {
    List { scope: Option<String>, after: Option<String> },
    Show { id: String },
    Remember { scope: String, text: String, expires_at: Option<i64> },
    Correct {
        id: String,
        revision: u64,
        text: String,
        expires_at: Option<i64>,
        clear_expiry: bool,
    },
    Scope { id: String, revision: u64, to: String, confirm: bool },
    Disable { id: String, revision: u64 },
    Controls { scope: String, edit: ControlEdit },
    Export { scope: Option<String>, output: String },
    Say { context: SpokenContext, request: String },
}

/// A change of what memory is used for, at a revision that was read.
#[derive(Clone, Copy, PartialEq, Eq, Structural, Debug)]
pub struct ControlEdit {
    pub expected_revision: u64,
    pub use_enabled: Option<bool>,
    pub learning_enabled: Option<bool>,
    pub no_memory: Option<bool>,
}

/// What a spoken control is about.
#[derive(Debug, PartialEq, Eq)]
pub struct SpokenContext {
    pub conversation: Option<String>,
    pub profile: Option<String>,
    pub project: Option<String>,
}

/// A change of something that is remembered.
#[derive(Debug, PartialEq, Eq)]
pub enum MemoryEdit {
    Correct { statement: String, valid_until: Option<i64> },
    Scope { target: String, confirm: bool },
    Disable,
}

/// What is done next.
#[derive(Debug, PartialEq, Eq)]
pub enum MemoryWork {
    /// Look for protected storage.
    Open,
    List { scope: Option<String>, after: Option<String> },
    Show { id: String },
    Remember { scope: String, text: String, expires_at: Option<i64> },
    /// Read what is remembered, for when it expires.
    Record { id: String },
    Revise { id: String, revision: u64, edit: MemoryEdit },
    Controls { scope: String, edit: ControlEdit },
    /// Write everything out, and answer with a notice.
    Export { scope: Option<String>, output: String, notice: &'static str },
    Say { context: SpokenContext, request: String },
    Finish(Option<String>),
    Ignore,
}

/// What came of it.
#[derive(Debug, PartialEq, Eq)]
pub enum MemoryEvent {
    Opened { protected: bool },
    /// The answer, as JSON.
    Answered { json: String },
    Record { valid_until: Option<i64> },
    /// What a spoken control answered, where there is such a control.
    Said(Option<Result<String, String>>),
    Failed(String),
}

/// How far a command is.
#[derive(Debug, PartialEq, Eq)]
pub enum MemoryStage {
    Opening { command: MemoryCommand },
    Correcting { id: String, revision: u64, text: String, expires_at: Option<i64> },
    Answering,
    Speaking,
    Over,
}

/// A command that is carried out.
#[derive(Debug, PartialEq, Eq)]
pub struct MemoryRun {
    pub stage: MemoryStage,
}

/// What is written and done.
#[derive(Debug, PartialEq, Eq)]
pub struct MemoryStep {
    pub print: String,
    pub work: MemoryWork,
}

/// The command goes on, and nothing is written.
pub open spec fn goes_on(
    after: MemoryRun,
    step: MemoryStep,
    stage: MemoryStage,
    work: MemoryWork,
) -> bool {
    &&& after.stage == stage
    &&& step.print@.len() == 0
    &&& step.work == work
}

/// The command ends with a failure.
pub open spec fn fails(after: MemoryRun, step: MemoryStep, text: Seq<char>) -> bool {
    &&& after.stage is Over
    &&& step.print@.len() == 0
    &&& step.work matches MemoryWork::Finish(Some(failure))
    &&& failure@ == text
}

/// The command ends well, with a line.
pub open spec fn completes(after: MemoryRun, step: MemoryStep, text: Seq<char>) -> bool {
    &&& after.stage is Over
    &&& step.print@ == text + "\n"@
    &&& step.work == MemoryWork::Finish(None)
}

/// How a command goes on in protected storage. What a correction does not say of
/// the expiry is read first, unless the expiry is cleared.
pub open spec fn opened(command: MemoryCommand, after: MemoryRun, step: MemoryStep) -> bool {
    let answering = MemoryStage::Answering;
    match command {
        MemoryCommand::List { scope, after: from } => goes_on(
            after,
            step,
            answering,
            MemoryWork::List { scope, after: from },
        ),
        MemoryCommand::Show { id } => goes_on(after, step, answering, MemoryWork::Show { id }),
        MemoryCommand::Remember { scope, text, expires_at } => goes_on(
            after,
            step,
            answering,
            MemoryWork::Remember { scope, text, expires_at },
        ),
        MemoryCommand::Correct { id, revision, text, expires_at, clear_expiry } => if clear_expiry {
            goes_on(
                after,
                step,
                answering,
                MemoryWork::Revise {
                    id,
                    revision,
                    edit: MemoryEdit::Correct { statement: text, valid_until: None },
                },
            )
        } else {
            goes_on(
                after,
                step,
                MemoryStage::Correcting { id, revision, text, expires_at },
                MemoryWork::Record { id },
            )
        },
        MemoryCommand::Scope { id, revision, to, confirm } => goes_on(
            after,
            step,
            answering,
            MemoryWork::Revise { id, revision, edit: MemoryEdit::Scope { target: to, confirm } },
        ),
        MemoryCommand::Disable { id, revision } => goes_on(
            after,
            step,
            answering,
            MemoryWork::Revise { id, revision, edit: MemoryEdit::Disable },
        ),
        MemoryCommand::Controls { scope, edit } => goes_on(
            after,
            step,
            answering,
            MemoryWork::Controls { scope, edit },
        ),
        MemoryCommand::Export { scope, output } => goes_on(
            after,
            step,
            answering,
            MemoryWork::Export { scope, output, notice: EXPORT_NOTICE },
        ),
        MemoryCommand::Say { context, request } => goes_on(
            after,
            step,
            MemoryStage::Speaking,
            MemoryWork::Say { context, request },
        ),
    }
}

/// How a command moves on what came of its work.
pub open spec fn memory_moves(
    before: MemoryRun,
    event: MemoryEvent,
    after: MemoryRun,
    step: MemoryStep,
) -> bool {
    match (before.stage, event) {
        (MemoryStage::Over, _) => goes_on(after, step, before.stage, MemoryWork::Ignore),
        (_, MemoryEvent::Failed(text)) => fails(after, step, text@),
        (MemoryStage::Opening { command }, MemoryEvent::Opened { protected }) => if protected {
            opened(command, after, step)
        } else {
            fails(after, step, PROTECTED_STORAGE@)
        },
        (
            MemoryStage::Correcting { id, revision, text, expires_at },
            MemoryEvent::Record { valid_until },
        ) => goes_on(
            after,
            step,
            MemoryStage::Answering,
            MemoryWork::Revise {
                id,
                revision,
                edit: MemoryEdit::Correct {
                    statement: text,
                    valid_until: expiry_of(false, expires_at, valid_until),
                },
            },
        ),
        (MemoryStage::Answering, MemoryEvent::Answered { json }) => completes(
            after,
            step,
            json@,
        ),
        (MemoryStage::Speaking, MemoryEvent::Said(answer)) => match answer {
            Some(Ok(text)) => completes(after, step, text@),
            Some(Err(text)) => fails(after, step, text@),
            None => fails(after, step, UNKNOWN_CONTROL@),
        },
        _ => goes_on(after, step, before.stage, MemoryWork::Ignore),
    }
}

fn silence() -> (text: String)
    ensures
        text@ == Seq::<char>::empty(),
{
    let text = String::new();
    assert(text@ =~= Seq::<char>::empty());
    text
}

impl MemoryRun {
    /// Begins a command: nothing is done before protected storage is found.
    pub fn start(command: MemoryCommand) -> (begun: (MemoryRun, MemoryWork))
        ensures
            begun.0.stage == (MemoryStage::Opening { command }),
            begun.1 == MemoryWork::Open,
    {
        (MemoryRun { stage: MemoryStage::Opening { command } }, MemoryWork::Open)
    }

    fn go_on(&mut self, stage: MemoryStage, work: MemoryWork) -> (step: MemoryStep)
        ensures
            goes_on(*final(self), step, stage, work),
    {
        self.stage = stage;
        MemoryStep { print: silence(), work }
    }

    fn fail(&mut self, text: String) -> (step: MemoryStep)
        ensures
            fails(*final(self), step, text@),
    {
        self.stage = MemoryStage::Over;
        MemoryStep { print: silence(), work: MemoryWork::Finish(Some(text)) }
    }

    fn complete(&mut self, text: String) -> (step: MemoryStep)
        ensures
            completes(*final(self), step, text@),
    {
        self.stage = MemoryStage::Over;
        let mut line = text;
        line.append("\n");
        MemoryStep { print: line, work: MemoryWork::Finish(None) }
    }

    fn open(&mut self, command: MemoryCommand) -> (step: MemoryStep)
        ensures
            opened(command, *final(self), step),
    {
        match command {
            MemoryCommand::List { scope, after } => self.go_on(
                MemoryStage::Answering,
                MemoryWork::List { scope, after },
            ),
            MemoryCommand::Show { id } => self.go_on(
                MemoryStage::Answering,
                MemoryWork::Show { id },
            ),
            MemoryCommand::Remember { scope, text, expires_at } => self.go_on(
                MemoryStage::Answering,
                MemoryWork::Remember { scope, text, expires_at },
            ),
            MemoryCommand::Correct { id, revision, text, expires_at, clear_expiry } => {
                if clear_expiry {
                    self.go_on(
                        MemoryStage::Answering,
                        MemoryWork::Revise {
                            id,
                            revision,
                            edit: MemoryEdit::Correct { statement: text, valid_until: None },
                        },
                    )
                } else {
                    let read = id.clone();
                    self.go_on(
                        MemoryStage::Correcting { id, revision, text, expires_at },
                        MemoryWork::Record { id: read },
                    )
                }
            },
            MemoryCommand::Scope { id, revision, to, confirm } => self.go_on(
                MemoryStage::Answering,
                MemoryWork::Revise {
                    id,
                    revision,
                    edit: MemoryEdit::Scope { target: to, confirm },
                },
            ),
            MemoryCommand::Disable { id, revision } => self.go_on(
                MemoryStage::Answering,
                MemoryWork::Revise { id, revision, edit: MemoryEdit::Disable },
            ),
            MemoryCommand::Controls { scope, edit } => self.go_on(
                MemoryStage::Answering,
                MemoryWork::Controls { scope, edit },
            ),
            MemoryCommand::Export { scope, output } => self.go_on(
                MemoryStage::Answering,
                MemoryWork::Export { scope, output, notice: EXPORT_NOTICE },
            ),
            MemoryCommand::Say { context, request } => self.go_on(
                MemoryStage::Speaking,
                MemoryWork::Say { context, request },
            ),
        }
    }

    /// Moves a command on what came of its work.
    pub fn step(&mut self, event: MemoryEvent) -> (step: MemoryStep)
        ensures
            memory_moves(*old(self), event, *final(self), step),
    {
        let mut stage = MemoryStage::Over;
        core::mem::swap(&mut self.stage, &mut stage);
        match (stage, event) {
            (MemoryStage::Over, _) => self.go_on(MemoryStage::Over, MemoryWork::Ignore),
            (_, MemoryEvent::Failed(text)) => self.fail(text),
            (MemoryStage::Opening { command }, MemoryEvent::Opened { protected }) => {
                match admit_memory(protected) {
                    Ok(_) => self.open(command),
                    Err(text) => self.fail(text),
                }
            },
            (
                MemoryStage::Correcting { id, revision, text, expires_at },
                MemoryEvent::Record { valid_until },
            ) => {
                let until = corrected_expiry(false, expires_at, valid_until);
                self.go_on(
                    MemoryStage::Answering,
                    MemoryWork::Revise {
                        id,
                        revision,
                        edit: MemoryEdit::Correct { statement: text, valid_until: until },
                    },
                )
            },
            (MemoryStage::Answering, MemoryEvent::Answered { json }) => self.complete(json),
            (MemoryStage::Speaking, MemoryEvent::Said(answer)) => match spoken_answer(answer) {
                Ok(text) => self.complete(text),
                Err(text) => self.fail(text),
            },
            (stage, _) => self.go_on(stage, MemoryWork::Ignore),
        }
    }
}

/// Nothing is remembered, read or changed before protected storage is found.
pub proof fn memory_needs_protected_storage(
    before: MemoryRun,
    event: MemoryEvent,
    after: MemoryRun,
    step: MemoryStep,
)
    requires
        memory_moves(before, event, after, step),
        before.stage is Opening,
        event != (MemoryEvent::Opened { protected: true }),
    ensures
        step.work is Finish || step.work is Ignore,
        after.stage is Over || after.stage == before.stage,
{
}

/// A change of what is remembered carries the revision that was read.
pub proof fn corrections_keep_their_revision(
    before: MemoryRun,
    event: MemoryEvent,
    after: MemoryRun,
    step: MemoryStep,
)
    requires
        memory_moves(before, event, after, step),
        before.stage is Correcting,
        step.work is Revise,
    ensures
        step.work->Revise_revision == before.stage->revision,
        step.work->Revise_id == before.stage->id,
{
}

/// A command leads to the work of its name, on what it names and with what it gives:
/// what is remembered, looked up, listed, written out or said is what was asked for,
/// and a revision is of the memory and at the revision that were named.
pub proof fn memory_commands_do_what_they_say(
    before: MemoryRun,
    command: MemoryCommand,
    after: MemoryRun,
    step: MemoryStep,
)
    requires
        memory_moves(before, MemoryEvent::Opened { protected: true }, after, step),
        before.stage == (MemoryStage::Opening { command }),
    ensures
        step.work matches MemoryWork::List { scope, after } ==> command == (MemoryCommand::List {
            scope,
            after,
        }),
        step.work matches MemoryWork::Show { id } ==> command == (MemoryCommand::Show { id }),
        step.work matches MemoryWork::Remember { scope, text, expires_at } ==> command == (
        MemoryCommand::Remember { scope, text, expires_at }),
        step.work matches MemoryWork::Controls { scope, edit } ==> command == (
        MemoryCommand::Controls { scope, edit }),
        step.work matches MemoryWork::Export { scope, output, .. } ==> command == (
        MemoryCommand::Export { scope, output }),
        step.work matches MemoryWork::Say { context, request } ==> command == (
        MemoryCommand::Say { context, request }),
        step.work matches MemoryWork::Revise { id, revision, edit } ==> match edit {
            MemoryEdit::Disable => command == (MemoryCommand::Disable { id, revision }),
            MemoryEdit::Scope { target, confirm } => command == (MemoryCommand::Scope {
                id,
                revision,
                to: target,
                confirm,
            }),
            MemoryEdit::Correct { statement, valid_until } => {
                &&& command matches MemoryCommand::Correct {
                    id: named,
                    revision: at,
                    text,
                    clear_expiry,
                    ..
                }
                &&& named == id && at == revision && text == statement
                &&& clear_expiry && valid_until is None
            },
        },
        step.work matches MemoryWork::Record { id } ==> (command matches MemoryCommand::Correct {
            id: named,
            clear_expiry,
            ..
        } && named == id && !clear_expiry),
        step.work !is Finish && step.work !is Ignore && step.work !is Open,
        step.print@.len() == 0,
{
}

/// A correction that clears nothing writes what was said, and keeps the expiry that was
/// read unless another was asked for.
pub proof fn corrections_write_what_was_said(
    before: MemoryRun,
    held: Option<i64>,
    after: MemoryRun,
    step: MemoryStep,
)
    requires
        memory_moves(before, MemoryEvent::Record { valid_until: held }, after, step),
        before.stage is Correcting,
    ensures
        step.work matches MemoryWork::Revise {
            edit: MemoryEdit::Correct { statement, valid_until },
            ..
        } && statement == before.stage->text && valid_until == (match before.stage->expires_at {
            Some(asked) => Some(asked),
            None => held,
        }),
{
}

/// What came back is written and ends the command well; a failure, and a control that
/// is not known, end it in a failure and write nothing. A command ends once.
pub proof fn memory_commands_end_as_they_came_out(
    before: MemoryRun,
    event: MemoryEvent,
    after: MemoryRun,
    step: MemoryStep,
)
    requires
        memory_moves(before, event, after, step),
    ensures
        before.stage is Over ==> after.stage is Over && step.work is Ignore,
        step.work is Finish <==> after.stage is Over && before.stage !is Over,
        step.work != MemoryWork::Finish(None) ==> step.print@.len() == 0,
        step.work == MemoryWork::Finish(None) ==> {
            ||| event matches MemoryEvent::Answered { json } && json@.is_prefix_of(step.print@)
            ||| event matches MemoryEvent::Said(Some(Ok(text))) && text@.is_prefix_of(step.print@)
        },
        before.stage !is Over ==> (event matches MemoryEvent::Failed(cause) ==> (step.work
            matches MemoryWork::Finish(Some(told)) && told@ == cause@)),
        before.stage is Answering && event is Answered ==> step.work == MemoryWork::Finish(None),
        before.stage is Speaking ==> (event matches MemoryEvent::Said(answer) ==> (step.work
            == MemoryWork::Finish(None) <==> (answer matches Some(Ok(_))))),
{
    if let MemoryEvent::Answered { json } = event {
        if step.work == MemoryWork::Finish(None) {
            assert(json@ =~= step.print@.take(json@.len() as int));
        }
    }
    if let MemoryEvent::Said(Some(Ok(text))) = event {
        if step.work == MemoryWork::Finish(None) {
            assert(text@ =~= step.print@.take(text@.len() as int));
        }
    }
}

}
