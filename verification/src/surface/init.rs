//! Initialization: from finding no configuration to having written one.

use crate::surface::{
    already_initialized, created_text, start_init, write_init_outcome, write_preview, FoundConfig,
    InitStart, PlannedConfig, INIT_DEPRECATED, NO_CHANGES,
};
use crate::text::{occurs, parts_occur};
use vstd::prelude::*;

verus! {

pub const BANNER_FAILED: &'static str = "could not write Xana banner";

pub const PLAN_FAILED: &'static str = "could not plan Xana initialization";

pub const RENDER_FAILED: &'static str = "could not render initial configuration";

pub const WRITE_FAILED: &'static str = "could not create Xana configuration";

pub const RECORDS_FAILED: &'static str = "configuration created, but private interoperable records need recovery; run `xana config migrate --apply`";

/// What is asked for.
#[derive(Clone, Copy, PartialEq, Eq, Structural, Debug)]
pub struct InitArgs {
    pub dry_run: bool,
    pub non_interactive: bool,
}

/// What is done next.
#[derive(Debug, PartialEq, Eq)]
pub enum InitWork {
    LoadConfig,
    WriteBanner,
    Plan,
    Render,
    /// Write the configuration, unless one is there by now.
    Write { rendered: String },
    PrepareRecords,
    Finish(Option<String>),
    Ignore,
}

/// What came of it.
#[derive(Debug, PartialEq, Eq)]
pub enum InitEvent {
    Found(FoundConfig),
    Done,
    Planned(PlannedConfig),
    Cancelled,
    Rendered { text: String },
    Written { created: bool },
    Failed,
}

/// How far initialization is.
#[derive(Debug, PartialEq, Eq)]
pub enum InitStage {
    Loading,
    Banner,
    Planning,
    Rendering { planned: PlannedConfig },
    Writing { planned: PlannedConfig },
    Recording { planned: PlannedConfig, created: bool },
    Over,
}

/// Initialization that is carried out.
#[derive(Debug, PartialEq, Eq)]
pub struct InitRun {
    pub args: InitArgs,
    pub path: String,
    pub stage: InitStage,
}

/// What is written and done.
#[derive(Debug, PartialEq, Eq)]
pub struct InitStep {
    pub print: String,
    pub work: InitWork,
}

/// The run at another stage.
pub open spec fn at_stage(run: InitRun, stage: InitStage) -> InitRun {
    InitRun { stage, ..run }
}

/// Initialization goes on.
pub open spec fn goes_on(
    before: InitRun,
    after: InitRun,
    step: InitStep,
    stage: InitStage,
    work: InitWork,
    text: Seq<char>,
) -> bool {
    &&& after == at_stage(before, stage)
    &&& step.print@ == text
    &&& step.work == work
}

/// Initialization ends with a failure, after something was written.
pub open spec fn fails(
    before: InitRun,
    after: InitRun,
    step: InitStep,
    reason: Seq<char>,
    text: Seq<char>,
) -> bool {
    &&& after == at_stage(before, InitStage::Over)
    &&& step.print@ == text
    &&& step.work matches InitWork::Finish(Some(failure))
    &&& failure@ == reason
}

/// What is said where a stage fails.
pub open spec fn failure_at(stage: InitStage, path: Seq<char>) -> Seq<char> {
    match stage {
        InitStage::Loading => "cannot initialize over the configuration at "@ + path,
        InitStage::Banner => BANNER_FAILED@,
        InitStage::Planning => PLAN_FAILED@,
        InitStage::Rendering { .. } => RENDER_FAILED@,
        InitStage::Writing { .. } => WRITE_FAILED@,
        InitStage::Recording { .. } => RECORDS_FAILED@,
        InitStage::Over => Seq::empty(),
    }
}

/// How initialization moves on what came of its work.
pub open spec fn init_moves(before: InitRun, event: InitEvent, after: InitRun, step: InitStep) -> bool {
    let nothing = Seq::<char>::empty();
    match (before.stage, event) {
        (InitStage::Over, _) => goes_on(
            before,
            after,
            step,
            InitStage::Over,
            InitWork::Ignore,
            nothing,
        ),
        (InitStage::Loading, InitEvent::Found(found)) => match found {
            FoundConfig::Valid => goes_on(
                before,
                after,
                step,
                InitStage::Over,
                InitWork::Finish(None),
                already_initialized(nothing + INIT_DEPRECATED@, before.path@),
            ),
            FoundConfig::Missing => goes_on(
                before,
                after,
                step,
                InitStage::Banner,
                InitWork::WriteBanner,
                nothing + INIT_DEPRECATED@,
            ),
            FoundConfig::Invalid => fails(
                before,
                after,
                step,
                failure_at(before.stage, before.path@),
                nothing + INIT_DEPRECATED@,
            ),
        },
        (InitStage::Loading, _) => goes_on(
            before,
            after,
            step,
            InitStage::Loading,
            InitWork::Ignore,
            nothing,
        ),
        (stage, InitEvent::Failed) => fails(
            before,
            after,
            step,
            failure_at(stage, before.path@),
            nothing,
        ),
        (InitStage::Banner, InitEvent::Done) => goes_on(
            before,
            after,
            step,
            InitStage::Planning,
            InitWork::Plan,
            nothing,
        ),
        (InitStage::Planning, InitEvent::Planned(planned)) => goes_on(
            before,
            after,
            step,
            InitStage::Rendering { planned },
            InitWork::Render,
            nothing,
        ),
        (InitStage::Planning, InitEvent::Cancelled) => goes_on(
            before,
            after,
            step,
            InitStage::Over,
            InitWork::Finish(None),
            NO_CHANGES@,
        ),
        (InitStage::Rendering { planned }, InitEvent::Rendered { text }) => {
            if before.args.dry_run {
                goes_on(
                    before,
                    after,
                    step,
                    InitStage::Over,
                    InitWork::Finish(None),
                    nothing + "Configuration preview (not written): "@ + before.path@ + "\n\n"@
                        + text@,
                )
            } else {
                goes_on(
                    before,
                    after,
                    step,
                    InitStage::Writing { planned },
                    InitWork::Write { rendered: text },
                    nothing,
                )
            }
        },
        (InitStage::Writing { planned }, InitEvent::Written { created }) => goes_on(
            before,
            after,
            step,
            InitStage::Recording { planned, created },
            InitWork::PrepareRecords,
            nothing,
        ),
        (InitStage::Recording { planned, created }, InitEvent::Done) => goes_on(
            before,
            after,
            step,
            InitStage::Over,
            InitWork::Finish(None),
            if created {
                created_text(nothing, before.path@, before.args.non_interactive, planned)
            } else {
                already_initialized(nothing, before.path@)
            },
        ),
        (stage, _) => goes_on(before, after, step, stage, InitWork::Ignore, nothing),
    }
}

fn silence() -> (text: String)
    ensures
        text@ == Seq::<char>::empty(),
{
    let text = String::new();
    assert(text@ =~= Seq::<char>::empty());
    text
}

impl InitRun {
    /// Begins initialization.
    pub fn start(args: InitArgs, path: String) -> (begun: (InitRun, InitWork))
        ensures
            begun.0 == (InitRun { args, path, stage: InitStage::Loading }),
            begun.1 == InitWork::LoadConfig,
    {
        (InitRun { args, path, stage: InitStage::Loading }, InitWork::LoadConfig)
    }

    fn go_on(&mut self, stage: InitStage, work: InitWork, print: String) -> (step: InitStep)
        ensures
            goes_on(*old(self), *final(self), step, stage, work, print@),
    {
        self.stage = stage;
        InitStep { print, work }
    }

    fn fail(&mut self, reason: &str) -> (step: InitStep)
        ensures
            fails(*old(self), *final(self), step, reason@, Seq::empty()),
    {
        self.stage = InitStage::Over;
        InitStep { print: silence(), work: InitWork::Finish(Some(reason.to_owned())) }
    }

    /// Moves initialization on what came of its work.
    pub fn step(&mut self, event: InitEvent) -> (step: InitStep)
        ensures
            init_moves(*old(self), event, *final(self), step),
    {
        let mut stage = InitStage::Over;
        core::mem::swap(&mut self.stage, &mut stage);
        let path = self.path.clone();
        let mut text = silence();
        match (stage, event) {
            (InitStage::Over, _) => self.go_on(InitStage::Over, InitWork::Ignore, text),
            (InitStage::Loading, InitEvent::Found(found)) => {
                match start_init(found, path.as_str(), &mut text) {
                    InitStart::Done => self.go_on(InitStage::Over, InitWork::Finish(None), text),
                    InitStart::Plan => self.go_on(InitStage::Banner, InitWork::WriteBanner, text),
                    InitStart::Refuse { reason } => self.go_on(
                        InitStage::Over,
                        InitWork::Finish(Some(reason)),
                        text,
                    ),
                }
            },
            (InitStage::Loading, _) => self.go_on(InitStage::Loading, InitWork::Ignore, text),
            (InitStage::Banner, InitEvent::Failed) => self.fail(BANNER_FAILED),
            (InitStage::Planning, InitEvent::Failed) => self.fail(PLAN_FAILED),
            (InitStage::Rendering { .. }, InitEvent::Failed) => self.fail(RENDER_FAILED),
            (InitStage::Writing { .. }, InitEvent::Failed) => self.fail(WRITE_FAILED),
            (InitStage::Recording { .. }, InitEvent::Failed) => self.fail(RECORDS_FAILED),
            (InitStage::Banner, InitEvent::Done) => self.go_on(
                InitStage::Planning,
                InitWork::Plan,
                text,
            ),
            (InitStage::Planning, InitEvent::Planned(planned)) => self.go_on(
                InitStage::Rendering { planned },
                InitWork::Render,
                text,
            ),
            (InitStage::Planning, InitEvent::Cancelled) => self.go_on(
                InitStage::Over,
                InitWork::Finish(None),
                NO_CHANGES.to_owned(),
            ),
            (InitStage::Rendering { planned }, InitEvent::Rendered { text: rendered }) => {
                if self.args.dry_run {
                    write_preview(path.as_str(), rendered.as_str(), &mut text);
                    self.go_on(InitStage::Over, InitWork::Finish(None), text)
                } else {
                    self.go_on(InitStage::Writing { planned }, InitWork::Write { rendered }, text)
                }
            },
            (InitStage::Writing { planned }, InitEvent::Written { created }) => self.go_on(
                InitStage::Recording { planned, created },
                InitWork::PrepareRecords,
                text,
            ),
            (InitStage::Recording { planned, created }, InitEvent::Done) => {
                write_init_outcome(
                    created,
                    path.as_str(),
                    self.args.non_interactive,
                    &planned,
                    &mut text,
                );
                self.go_on(InitStage::Over, InitWork::Finish(None), text)
            },
            (stage, _) => self.go_on(stage, InitWork::Ignore, text),
        }
    }
}

/// A configuration is written only where none was found, a plan was made and
/// rendered, and more than a preview was asked for.
pub proof fn configurations_are_not_overwritten(
    before: InitRun,
    event: InitEvent,
    after: InitRun,
    step: InitStep,
)
    requires
        init_moves(before, event, after, step),
    ensures
        step.work is Write ==> before.stage is Rendering && !before.args.dry_run && (event matches
            InitEvent::Rendered { text } && step.work->rendered == text),
        after.stage is Banner && !(before.stage is Banner) ==> before.stage is Loading && event
            == InitEvent::Found(FoundConfig::Missing),
{
}

/// Initialization goes on where no configuration was found and nowhere else: a valid one is
/// left and an invalid one is an error. A preview is shown and not written, a plan that was
/// given up changes nothing, and what is written is what was rendered.
pub proof fn initialization_follows_what_was_found(
    before: InitRun,
    event: InitEvent,
    after: InitRun,
    step: InitStep,
)
    requires
        init_moves(before, event, after, step),
    ensures
        after.args == before.args,
        after.path == before.path,
        before.stage is Loading ==> (event matches InitEvent::Found(found) ==> {
            &&& step.work is WriteBanner <==> found == FoundConfig::Missing
            &&& step.work == InitWork::Finish(None) <==> found == FoundConfig::Valid
            &&& found == FoundConfig::Invalid ==> (step.work matches InitWork::Finish(Some(_)))
        }),
        before.stage is Rendering ==> (event matches InitEvent::Rendered { text } ==> {
            &&& step.work is Write <==> !before.args.dry_run
            &&& before.args.dry_run ==> step.work == InitWork::Finish(None) && occurs(
                step.print@,
                text@,
            )
        }),
        before.stage is Planning && event is Cancelled ==> step.work == InitWork::Finish(None),
        step.work is Plan <==> before.stage is Banner && event is Done,
        step.work is Render <==> before.stage is Planning && event is Planned,
        step.work is PrepareRecords <==> before.stage is Writing && event is Written,
        before.stage is Over ==> after.stage is Over && step.work is Ignore,
        step.work is Finish <==> after.stage is Over && before.stage !is Over,
        event is Failed && before.stage !is Over && before.stage !is Loading ==> (step.work
            matches InitWork::Finish(Some(_))),
        before.stage is Recording && event is Done ==> step.work == InitWork::Finish(None),
{
    if let (InitStage::Rendering { .. }, InitEvent::Rendered { text }) = (before.stage, event) {
        if before.args.dry_run {
            let front = Seq::<char>::empty() + "Configuration preview (not written): "@
                + before.path@ + "\n\n"@;
            assert(front + text@ + Seq::<char>::empty() =~= step.print@);
            parts_occur(front, text@, Seq::empty());
        }
    }
}

}
