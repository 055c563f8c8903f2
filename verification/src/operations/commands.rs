//! Recovering interrupted operations, step by step.

use crate::operations::{
    find_operation, found_operations_have_the_identity, operation_index, recovery_text,
    unknown_operation, write_recovery_plan, RecoveryAction, RestoredOperation,
};
use vstd::prelude::*;

verus! {

pub const SHELL_FAILED: &'static str = "could not resolve configured shell";

pub const TOOLS_FAILED: &'static str = "could not build tool registry";

pub const POLICY_FAILED: &'static str = "could not resolve current recovery permission policy";

/// What is asked for: to see how an operation would be recovered, or to recover
/// it.
#[derive(Clone, Copy, PartialEq, Eq, Structural, Debug)]
pub enum RecoveryWish {
    Plan,
    Resume,
}

/// What is done next.
#[derive(Debug, PartialEq, Eq)]
pub enum RecoveryWork {
    LoadConfig,
    ResolveShell,
    BuildTools,
    /// Read a session without taking hold of it.
    Inspect { session: String },
    /// Take hold of a session.
    Resume { session: String },
    Plan { operation: String },
    ResolvePolicy,
    /// Recover an operation, under the permissions of now.
    Execute { operation: String },
    Finish(Option<String>),
    Ignore,
}

/// What came of it.
#[derive(Debug, PartialEq, Eq)]
pub enum RecoveryEvent {
    Done,
    Restored(Vec<RestoredOperation>),
    Recovered(Vec<RecoveryAction>),
    Failed(String),
}

/// How far a recovery is.
#[derive(Debug, PartialEq, Eq)]
pub enum RecoveryStage {
    Config,
    Shell,
    Tools,
    Session,
    Planning { operation: RestoredOperation },
    Policy { operation: RestoredOperation },
    Executing { operation: RestoredOperation },
    Over,
}

/// A recovery that is carried out.
#[derive(Debug, PartialEq, Eq)]
pub struct RecoveryRun {
    pub wish: RecoveryWish,
    pub session: String,
    pub operation: String,
    pub stage: RecoveryStage,
}

/// What is written and done.
#[derive(Debug, PartialEq, Eq)]
pub struct RecoveryStep {
    pub print: String,
    pub work: RecoveryWork,
}

/// The recovery at another stage.
pub open spec fn at_stage(run: RecoveryRun, stage: RecoveryStage) -> RecoveryRun {
    RecoveryRun { stage, ..run }
}

/// The recovery goes on, and nothing is written.
pub open spec fn goes_on(
    before: RecoveryRun,
    after: RecoveryRun,
    step: RecoveryStep,
    stage: RecoveryStage,
    work: RecoveryWork,
) -> bool {
    &&& after == at_stage(before, stage)
    &&& step.print@.len() == 0
    &&& step.work == work
}

/// The recovery ends with a failure.
pub open spec fn fails(
    before: RecoveryRun,
    after: RecoveryRun,
    step: RecoveryStep,
    text: Seq<char>,
) -> bool {
    &&& after == at_stage(before, RecoveryStage::Over)
    &&& step.print@.len() == 0
    &&& step.work matches RecoveryWork::Finish(Some(failure))
    &&& failure@ == text
}

/// What a failure is said to be.
pub open spec fn failure_at(stage: RecoveryStage, cause: Seq<char>) -> Seq<char> {
    match stage {
        RecoveryStage::Shell => SHELL_FAILED@,
        RecoveryStage::Tools => TOOLS_FAILED@,
        RecoveryStage::Policy { .. } => POLICY_FAILED@,
        _ => cause,
    }
}

/// How a recovery moves on what came of its work.
pub open spec fn recovery_moves(
    before: RecoveryRun,
    event: RecoveryEvent,
    after: RecoveryRun,
    step: RecoveryStep,
) -> bool {
    match (before.stage, event) {
        (RecoveryStage::Over, _) => goes_on(
            before,
            after,
            step,
            RecoveryStage::Over,
            RecoveryWork::Ignore,
        ),
        (stage, RecoveryEvent::Failed(cause)) => fails(
            before,
            after,
            step,
            failure_at(stage, cause@),
        ),
        (RecoveryStage::Config, RecoveryEvent::Done) => goes_on(
            before,
            after,
            step,
            RecoveryStage::Shell,
            RecoveryWork::ResolveShell,
        ),
        (RecoveryStage::Shell, RecoveryEvent::Done) => goes_on(
            before,
            after,
            step,
            RecoveryStage::Tools,
            RecoveryWork::BuildTools,
        ),
        (RecoveryStage::Tools, RecoveryEvent::Done) => goes_on(
            before,
            after,
            step,
            RecoveryStage::Session,
            match before.wish {
                RecoveryWish::Plan => RecoveryWork::Inspect { session: before.session },
                RecoveryWish::Resume => RecoveryWork::Resume { session: before.session },
            },
        ),
        (RecoveryStage::Session, RecoveryEvent::Restored(operations)) => {
            let at = operation_index(operations@, before.operation@);
            if at >= operations@.len() {
                fails(
                    before,
                    after,
                    step,
                    unknown_operation(before.operation@, before.session@),
                )
            } else {
                let operation = operations@[at as int];
                match before.wish {
                    RecoveryWish::Plan => goes_on(
                        before,
                        after,
                        step,
                        RecoveryStage::Planning { operation },
                        RecoveryWork::Plan { operation: before.operation },
                    ),
                    RecoveryWish::Resume => goes_on(
                        before,
                        after,
                        step,
                        RecoveryStage::Policy { operation },
                        RecoveryWork::ResolvePolicy,
                    ),
                }
            }
        },
        (RecoveryStage::Policy { operation }, RecoveryEvent::Done) => goes_on(
            before,
            after,
            step,
            RecoveryStage::Executing { operation },
            RecoveryWork::Execute { operation: before.operation },
        ),
        (
            RecoveryStage::Planning { operation } | RecoveryStage::Executing { operation },
            RecoveryEvent::Recovered(actions),
        ) => {
            &&& after == at_stage(before, RecoveryStage::Over)
            &&& step.print@ == recovery_text(Seq::empty(), before.session@, operation, actions@)
            &&& step.work == RecoveryWork::Finish(None)
        },
        (stage, _) => goes_on(before, after, step, stage, RecoveryWork::Ignore),
    }
}

fn silence() -> (text: String)
    ensures
        text@ == Seq::<char>::empty(),
{
    let text = String::new();
    assert(text@ =~= Seq::<char>::empty());
    text
}

impl RecoveryRun {
    /// Begins to recover an operation, or to show how it would be.
    pub fn start(wish: RecoveryWish, session: String, operation: String) -> (begun: (
        RecoveryRun,
        RecoveryWork,
    ))
        ensures
            begun.0 == (RecoveryRun { wish, session, operation, stage: RecoveryStage::Config }),
            begun.1 == RecoveryWork::LoadConfig,
    {
        (
            RecoveryRun { wish, session, operation, stage: RecoveryStage::Config },
            RecoveryWork::LoadConfig,
        )
    }

    fn go_on(&mut self, stage: RecoveryStage, work: RecoveryWork) -> (step: RecoveryStep)
        ensures
            goes_on(*old(self), *final(self), step, stage, work),
    {
        self.stage = stage;
        RecoveryStep { print: silence(), work }
    }

    fn fail(&mut self, text: String) -> (step: RecoveryStep)
        ensures
            fails(*old(self), *final(self), step, text@),
    {
        self.stage = RecoveryStage::Over;
        RecoveryStep { print: silence(), work: RecoveryWork::Finish(Some(text)) }
    }

    fn report(&mut self, operation: RestoredOperation, actions: Vec<RecoveryAction>) -> (step:
        RecoveryStep)
        ensures
            *final(self) == at_stage(*old(self), RecoveryStage::Over),
            step.print@ == recovery_text(Seq::empty(), old(self).session@, operation, actions@),
            step.work == RecoveryWork::Finish(None),
    {
        self.stage = RecoveryStage::Over;
        let mut print = silence();
        write_recovery_plan(&mut print, self.session.as_str(), &operation, &actions);
        RecoveryStep { print, work: RecoveryWork::Finish(None) }
    }

    /// Moves a recovery on what came of its work.
    pub fn step(&mut self, event: RecoveryEvent) -> (step: RecoveryStep)
        ensures
            recovery_moves(*old(self), event, *final(self), step),
    {
        let mut stage = RecoveryStage::Over;
        core::mem::swap(&mut self.stage, &mut stage);
        match (stage, event) {
            (RecoveryStage::Over, _) => self.go_on(RecoveryStage::Over, RecoveryWork::Ignore),
            (RecoveryStage::Shell, RecoveryEvent::Failed(_)) => self.fail(SHELL_FAILED.to_owned()),
            (RecoveryStage::Tools, RecoveryEvent::Failed(_)) => self.fail(TOOLS_FAILED.to_owned()),
            (RecoveryStage::Policy { .. }, RecoveryEvent::Failed(_)) => self.fail(
                POLICY_FAILED.to_owned(),
            ),
            (_, RecoveryEvent::Failed(cause)) => self.fail(cause),
            (RecoveryStage::Config, RecoveryEvent::Done) => self.go_on(
                RecoveryStage::Shell,
                RecoveryWork::ResolveShell,
            ),
            (RecoveryStage::Shell, RecoveryEvent::Done) => self.go_on(
                RecoveryStage::Tools,
                RecoveryWork::BuildTools,
            ),
            (RecoveryStage::Tools, RecoveryEvent::Done) => {
                let session = self.session.clone();
                let work = match self.wish {
                    RecoveryWish::Plan => RecoveryWork::Inspect { session },
                    RecoveryWish::Resume => RecoveryWork::Resume { session },
                };
                self.go_on(RecoveryStage::Session, work)
            },
            (RecoveryStage::Session, RecoveryEvent::Restored(operations)) => {
                let mut operations = operations;
                let at = match find_operation(
                    &operations,
                    self.operation.as_str(),
                    self.session.as_str(),
                ) {
                    Ok(at) => at,
                    Err(text) => {
                        return self.fail(text);
                    },
                };
                let operation = operations.remove(at);
                match self.wish {
                    RecoveryWish::Plan => {
                        let id = self.operation.clone();
                        self.go_on(
                            RecoveryStage::Planning { operation },
                            RecoveryWork::Plan { operation: id },
                        )
                    },
                    RecoveryWish::Resume => self.go_on(
                        RecoveryStage::Policy { operation },
                        RecoveryWork::ResolvePolicy,
                    ),
                }
            },
            (RecoveryStage::Policy { operation }, RecoveryEvent::Done) => {
                let id = self.operation.clone();
                self.go_on(
                    RecoveryStage::Executing { operation },
                    RecoveryWork::Execute { operation: id },
                )
            },
            (RecoveryStage::Planning { operation }, RecoveryEvent::Recovered(actions)) => {
                self.report(operation, actions)
            },
            (RecoveryStage::Executing { operation }, RecoveryEvent::Recovered(actions)) => {
                self.report(operation, actions)
            },
            (stage, _) => self.go_on(stage, RecoveryWork::Ignore),
        }
    }
}

/// A plan takes hold of nothing and executes nothing, and a recovery is executed
/// only once the permissions of now are known.
pub proof fn plans_change_nothing(
    before: RecoveryRun,
    event: RecoveryEvent,
    after: RecoveryRun,
    step: RecoveryStep,
)
    requires
        recovery_moves(before, event, after, step),
    ensures
        after.wish == before.wish,
        before.wish == RecoveryWish::Plan && !(before.stage is Policy) ==> !(step.work is Resume)
            && !(step.work is ResolvePolicy) && !(step.work is Execute) && !(after.stage is Policy),
        step.work is Execute ==> before.stage is Policy && event == RecoveryEvent::Done,
{
}

/// A recovery goes on only when what it waited for is done, in one order: the
/// configuration, the shell, the tools and the session. It looks at the session that was
/// named, takes hold of it only to resume, and recovers the operation that was named,
/// which the session holds.
pub proof fn recoveries_concern_what_was_named(
    before: RecoveryRun,
    event: RecoveryEvent,
    after: RecoveryRun,
    step: RecoveryStep,
)
    requires
        recovery_moves(before, event, after, step),
    ensures
        after.session == before.session,
        after.operation == before.operation,
        step.work matches RecoveryWork::Inspect { session } ==> session == before.session
            && before.wish == RecoveryWish::Plan,
        step.work matches RecoveryWork::Resume { session } ==> session == before.session
            && before.wish == RecoveryWish::Resume,
        before.stage is Tools && event is Done ==> step.work is Inspect || step.work is Resume,
        step.work matches RecoveryWork::Plan { operation } ==> operation == before.operation,
        step.work matches RecoveryWork::Execute { operation } ==> operation == before.operation,
        step.work is ResolveShell <==> before.stage is Config && event is Done,
        step.work is BuildTools <==> before.stage is Shell && event is Done,
        before.stage is Session ==> (event matches RecoveryEvent::Restored(operations) ==> {
            &&& step.work is Finish <==> forall|i: int|
                0 <= i < operations@.len() ==> #[trigger] operations@[i].operation_id@
                    != before.operation@
            &&& after.stage matches RecoveryStage::Planning { operation }
                ==> operations@.contains(operation) && operation.operation_id@
                == before.operation@
            &&& after.stage matches RecoveryStage::Policy { operation } ==> operations@.contains(
                operation,
            ) && operation.operation_id@ == before.operation@
        }),
{
    if let RecoveryEvent::Restored(operations) = event {
        found_operations_have_the_identity(operations@, before.operation@);
    }
}

/// A recovery ends once: well when its steps came back, and otherwise in a failure, which
/// is told as it came where it comes of the configuration, the session or the recovery
/// itself.
pub proof fn recoveries_end_once(
    before: RecoveryRun,
    event: RecoveryEvent,
    after: RecoveryRun,
    step: RecoveryStep,
)
    requires
        recovery_moves(before, event, after, step),
    ensures
        before.stage is Over ==> after.stage is Over && step.work is Ignore,
        step.work is Finish <==> after.stage is Over && before.stage !is Over,
        step.work == RecoveryWork::Finish(None) <==> event is Recovered && (before.stage
            is Planning || before.stage is Executing),
        step.work != RecoveryWork::Finish(None) ==> step.print@.len() == 0,
        event is Failed && before.stage !is Over ==> step.work is Finish,
        before.stage is Config || before.stage is Session || before.stage is Planning
            || before.stage is Executing ==> (event matches RecoveryEvent::Failed(cause) ==> (
        step.work matches RecoveryWork::Finish(Some(told)) && told@ == cause@)),
{
}

}
