//! The image commands, from what is asked for to what is reported.

use crate::config::{
    allowed_by, found_profiles_have_the_name, profile_index, ConnectionRegistry, PermissionMode,
};
use crate::images::{
    admit_generation, admit_plan, approval_refusal, default_profile, generation_notice,
    read_prompt, reason_or, result_text, status_rows, write_result, write_route, write_routes,
    ImageProfile, ImageResult, PlannedRoute, RouteStatus, DENIED, MAX_STDIN_PROMPT_BYTES, NO_IMAGE_ROUTES,
    PROMPT_LIMIT, PROMPT_UTF8,
};
use crate::mcp::{effective_permission, NO_DEFAULT_PROFILE};
use crate::text::{copy_list, option_view, utf8_of};
use vstd::prelude::*;
use vstd::string::*;

verus! {

/// A command on images.
#[derive(Debug, PartialEq, Eq)]
pub enum ImageCommand {
    List { json: bool },
    Inspect { route: String, json: bool },
    Generate { prompt: Option<String>, route: Option<String>, yes: bool, json: bool },
}

/// What is done next.
#[derive(Debug, PartialEq, Eq)]
pub enum ImageWork {
    InspectAll { routes: Vec<String> },
    Inspect { route: String },
    /// Read the prompt that is piped in.
    ReadInput,
    Plan { prompt: String, route: Option<String> },
    Generate,
    Finish(Option<String>),
    Ignore,
}

/// What came of it. What can be written as JSON comes with its text.
#[derive(Debug, PartialEq, Eq)]
pub enum ImageEvent {
    Statuses { statuses: Vec<RouteStatus>, json: String },
    Status { status: RouteStatus, json: String },
    Input(Vec<u8>),
    Planned(PlannedRoute),
    Generated { result: ImageResult, json: String },
    Failed(String),
}

/// How far a command is.
#[derive(Debug, PartialEq, Eq)]
pub enum ImageStage {
    List,
    Inspect,
    Reading { route: Option<String>, yes: bool },
    Planning { yes: bool },
    Generating,
    Over,
}

/// A command that is carried out.
#[derive(Debug, PartialEq, Eq)]
pub struct ImageRun {
    /// What the default profile exposes: a plan is made for its routes, and under
    /// its policy.
    pub profile: ImageProfile,
    pub json: bool,
    pub stage: ImageStage,
}

/// What is said aside, written and done.
#[derive(Debug, PartialEq, Eq)]
pub struct ImageStep {
    pub notice: String,
    pub print: String,
    pub work: ImageWork,
}

/// Nothing is said or written, and something is done.
pub open spec fn quietly(step: ImageStep, work: ImageWork) -> bool {
    &&& step.notice@.len() == 0
    &&& step.print@.len() == 0
    &&& step.work == work
}

/// The command ends with a failure.
pub open spec fn refused(run: ImageRun, step: ImageStep, text: Seq<char>) -> bool {
    &&& run.stage is Over
    &&& step.notice@.len() == 0
    &&& step.print@.len() == 0
    &&& step.work matches ImageWork::Finish(Some(failure))
    &&& failure@ == text
}

/// A prompt is known: it is planned for, unless generation is denied.
pub open spec fn prompted(
    permission: PermissionMode,
    prompt: Seq<char>,
    route: Option<String>,
    yes: bool,
    run: ImageRun,
    step: ImageStep,
) -> bool {
    if permission == PermissionMode::Deny {
        refused(run, step, DENIED@)
    } else {
        &&& run.stage == (ImageStage::Planning { yes })
        &&& step.notice@.len() == 0
        &&& step.print@.len() == 0
        &&& step.work matches ImageWork::Plan { prompt: asked, route: through }
        &&& asked@ == prompt
        &&& through == route
    }
}

/// How a command begins.
pub open spec fn begins(
    command: ImageCommand,
    registry: ConnectionRegistry,
    run: ImageRun,
    step: ImageStep,
) -> bool {
    let at = profile_index(registry.profiles@, registry.default_profile@);
    if at >= registry.profiles@.len() {
        refused(run, step, NO_DEFAULT_PROFILE@)
    } else {
        let profile = registry.profiles@[at as int];
        &&& run.profile.permission == effective_permission(registry, profile)
        &&& run.profile.routes@ == profile.service_routes@
        &&& run.profile.egress@ == allowed_by(
            registry.egress_policies@,
            option_view(profile.egress_policy),
        )
        &&& match command {
            ImageCommand::List { json } => {
                &&& run.json == json
                &&& run.stage is List
                &&& step.notice@.len() == 0
                &&& step.print@.len() == 0
                &&& step.work matches ImageWork::InspectAll { routes }
                &&& routes@ == profile.service_routes@
            },
            ImageCommand::Inspect { route, json } => {
                &&& run.json == json
                &&& run.stage is Inspect
                &&& quietly(step, ImageWork::Inspect { route })
            },
            ImageCommand::Generate { prompt, route, yes, json } => {
                &&& run.json == json
                &&& match prompt {
                    Some(prompt) => prompted(run.profile.permission, prompt@, route, yes, run, step),
                    None => {
                        &&& run.stage == (ImageStage::Reading { route, yes })
                        &&& quietly(step, ImageWork::ReadInput)
                    },
                }
            },
        }
    }
}

/// The run at another stage.
pub open spec fn at_stage(run: ImageRun, stage: ImageStage) -> ImageRun {
    ImageRun { stage, ..run }
}

/// The command ends well, and writes something: its JSON where that was asked for.
pub open spec fn completes(
    before: ImageRun,
    after: ImageRun,
    step: ImageStep,
    json: Seq<char>,
    text: Seq<char>,
) -> bool {
    &&& after == at_stage(before, ImageStage::Over)
    &&& step.notice@.len() == 0
    &&& step.work == ImageWork::Finish(None)
    &&& step.print@ == (if before.json {
        json + "\n"@
    } else {
        text
    })
}

/// The command ends with a failure.
pub open spec fn fails(before: ImageRun, after: ImageRun, step: ImageStep, text: Seq<char>) -> bool {
    &&& after == at_stage(before, ImageStage::Over)
    &&& refused(after, step, text)
}

/// How a command moves on what came of its work.
pub open spec fn image_moves(
    before: ImageRun,
    event: ImageEvent,
    after: ImageRun,
    step: ImageStep,
) -> bool {
    let nothing = Seq::<char>::empty();
    match (before.stage, event) {
        (ImageStage::Over, _) => after == before && quietly(step, ImageWork::Ignore),
        (_, ImageEvent::Failed(text)) => fails(before, after, step, text@),
        (ImageStage::List, ImageEvent::Statuses { statuses, json }) => completes(
            before,
            after,
            step,
            json@,
            if statuses@.len() == 0 {
                nothing + NO_IMAGE_ROUTES@
            } else {
                status_rows(nothing, statuses@)
            },
        ),
        (ImageStage::Inspect, ImageEvent::Status { status, json }) => completes(
            before,
            after,
            step,
            json@,
            nothing + "Route: "@ + status.route@ + "\nReady: "@ + (if status.ready {
                "true"@
            } else {
                "false"@
            }) + "\nReason: "@ + reason_or(status.reason, "configured and exposed"@) + "\n"@,
        ),
        (ImageStage::Reading { route, yes }, ImageEvent::Input(bytes)) => {
            if bytes@.len() > MAX_STDIN_PROMPT_BYTES {
                fails(before, after, step, PROMPT_LIMIT@)
            } else {
                match utf8_of(bytes@) {
                    None => fails(before, after, step, PROMPT_UTF8@),
                    Some(prompt) => {
                        &&& prompted(before.profile.permission, prompt, route, yes, after, step)
                        &&& after == at_stage(before, after.stage)
                    },
                }
            }
        },
        (ImageStage::Planning { yes }, ImageEvent::Planned(route)) => if yes {
            &&& after == at_stage(before, ImageStage::Generating)
            &&& step.notice@ == generation_notice(route)
            &&& step.print@.len() == 0
            &&& step.work == ImageWork::Generate
        } else {
            fails(before, after, step, approval_refusal(route))
        },
        (ImageStage::Generating, ImageEvent::Generated { result, json }) => completes(
            before,
            after,
            step,
            json@,
            result_text(nothing, result),
        ),
        _ => after == before && quietly(step, ImageWork::Ignore),
    }
}

fn silence() -> (text: String)
    ensures
        text@ == Seq::<char>::empty(),
{
    let text = String::new();
    assert(text@ =~= Seq::<char>::empty());
    text
}

fn quiet(work: ImageWork) -> (step: ImageStep)
    ensures
        quietly(step, work),
{
    ImageStep { notice: silence(), print: silence(), work }
}

impl ImageRun {
    /// Begins a command.
    pub fn start(command: ImageCommand, registry: &ConnectionRegistry) -> (begun: (
        ImageRun,
        ImageStep,
    ))
        ensures
            begins(command, *registry, begun.0, begun.1),
    {
        let profile = match default_profile(registry) {
            Ok(profile) => profile,
            Err(text) => {
                let nothing = ImageProfile {
                    routes: Vec::new(),
                    egress: Vec::new(),
                    permission: PermissionMode::Deny,
                };
                let mut run = ImageRun { profile: nothing, json: false, stage: ImageStage::Over };
                let step = run.fail(text);
                return (run, step);
            },
        };
        let mut run = ImageRun { profile, json: false, stage: ImageStage::Over };
        match command {
            ImageCommand::List { json } => {
                run.json = json;
                run.stage = ImageStage::List;
                let routes = copy_list(&run.profile.routes);
                (run, quiet(ImageWork::InspectAll { routes }))
            },
            ImageCommand::Inspect { route, json } => {
                run.json = json;
                run.stage = ImageStage::Inspect;
                (run, quiet(ImageWork::Inspect { route }))
            },
            ImageCommand::Generate { prompt, route, yes, json } => {
                run.json = json;
                match prompt {
                    Some(prompt) => {
                        let step = run.prompt(prompt, route, yes);
                        (run, step)
                    },
                    None => {
                        run.stage = ImageStage::Reading { route, yes };
                        (run, quiet(ImageWork::ReadInput))
                    },
                }
            },
        }
    }

    fn prompt(&mut self, prompt: String, route: Option<String>, yes: bool) -> (step: ImageStep)
        ensures
            prompted(old(self).profile.permission, prompt@, route, yes, *final(self), step),
            *final(self) == at_stage(*old(self), final(self).stage),
    {
        match admit_generation(self.profile.permission) {
            Err(text) => self.fail(text),
            Ok(_) => {
                self.stage = ImageStage::Planning { yes };
                quiet(ImageWork::Plan { prompt, route })
            },
        }
    }

    fn complete(&mut self, json: String, text: String) -> (step: ImageStep)
        ensures
            completes(*old(self), *final(self), step, json@, text@),
    {
        self.stage = ImageStage::Over;
        let print = if self.json {
            let mut line = json;
            line.append("\n");
            line
        } else {
            text
        };
        ImageStep { notice: silence(), print, work: ImageWork::Finish(None) }
    }

    fn fail(&mut self, text: String) -> (step: ImageStep)
        ensures
            fails(*old(self), *final(self), step, text@),
    {
        self.stage = ImageStage::Over;
        quiet(ImageWork::Finish(Some(text)))
    }

    /// Moves a command on what came of its work.
    pub fn step(&mut self, event: ImageEvent) -> (step: ImageStep)
        ensures
            image_moves(*old(self), event, *final(self), step),
    {
        let mut stage = ImageStage::Over;
        core::mem::swap(&mut self.stage, &mut stage);
        let mut text = silence();
        match (stage, event) {
            (ImageStage::Over, _) => quiet(ImageWork::Ignore),
            (_, ImageEvent::Failed(text)) => self.fail(text),
            (ImageStage::List, ImageEvent::Statuses { statuses, json }) => {
                write_routes(&statuses, &mut text);
                self.complete(json, text)
            },
            (ImageStage::Inspect, ImageEvent::Status { status, json }) => {
                write_route(&status, &mut text);
                self.complete(json, text)
            },
            (ImageStage::Reading { route, yes }, ImageEvent::Input(bytes)) => {
                match read_prompt(&bytes) {
                    Ok(prompt) => self.prompt(prompt, route, yes),
                    Err(text) => self.fail(text),
                }
            },
            (ImageStage::Planning { yes }, ImageEvent::Planned(route)) => {
                match admit_plan(&route, yes) {
                    Ok(notice) => {
                        self.stage = ImageStage::Generating;
                        ImageStep { notice, print: text, work: ImageWork::Generate }
                    },
                    Err(text) => self.fail(text),
                }
            },
            (ImageStage::Generating, ImageEvent::Generated { result, json }) => {
                write_result(&result, &mut text);
                self.complete(json, text)
            },
            (stage, _) => {
                self.stage = stage;
                quiet(ImageWork::Ignore)
            },
        }
    }
}

/// An image is generated only from a plan that was approved, and a plan is made
/// only where the profile does not deny it.
pub proof fn generations_are_approved(
    before: ImageRun,
    event: ImageEvent,
    after: ImageRun,
    step: ImageStep,
)
    requires
        image_moves(before, event, after, step),
    ensures
        step.work is Generate ==> before.stage == (ImageStage::Planning { yes: true }) && event
            is Planned,
        step.work is Plan ==> before.profile.permission != PermissionMode::Deny,
{
}

/// A command on images ends once, and it ends well with what came back and in a failure
/// with what failed. It says what came back in the form that was asked for.
pub proof fn image_commands_end_as_they_came_out(
    before: ImageRun,
    event: ImageEvent,
    after: ImageRun,
    step: ImageStep,
)
    requires
        image_moves(before, event, after, step),
    ensures
        after.profile == before.profile,
        after.json == before.json,
        before.stage is Over ==> after.stage is Over && step.work is Ignore,
        step.work is Finish <==> after.stage is Over && before.stage !is Over,
        step.work != ImageWork::Finish(None) ==> step.print@.len() == 0,
        step.notice@.len() > 0 ==> step.work is Generate,
        before.stage !is Over ==> (event matches ImageEvent::Failed(cause) ==> (step.work
            matches ImageWork::Finish(Some(told)) && told@ == cause@)),
        step.work == ImageWork::Finish(None) ==> {
            &&& event is Statuses && before.stage is List || event is Status && before.stage
                is Inspect || event is Generated && before.stage is Generating
            &&& before.json ==> {
                ||| event matches ImageEvent::Statuses { json, .. } && json@.is_prefix_of(
                    step.print@,
                )
                ||| event matches ImageEvent::Status { json, .. } && json@.is_prefix_of(
                    step.print@,
                )
                ||| event matches ImageEvent::Generated { json, .. } && json@.is_prefix_of(
                    step.print@,
                )
            }
        },
        before.stage is List && event is Statuses ==> step.work == ImageWork::Finish(None),
        before.stage is Inspect && event is Status ==> step.work == ImageWork::Finish(None),
        before.stage is Generating && event is Generated ==> step.work == ImageWork::Finish(None),
{
    if before.json && step.work == ImageWork::Finish(None) {
        match event {
            ImageEvent::Statuses { json, .. } => {
                assert(json@ =~= step.print@.take(json@.len() as int));
            },
            ImageEvent::Status { json, .. } => {
                assert(json@ =~= step.print@.take(json@.len() as int));
            },
            ImageEvent::Generated { json, .. } => {
                assert(json@ =~= step.print@.take(json@.len() as int));
            },
            _ => {},
        }
    }
}

/// What is planned for is the prompt that was piped in, through the route that was asked
/// for; a plan that is approved is generated from, and one that is not is refused.
pub proof fn images_follow_the_prompt(
    before: ImageRun,
    event: ImageEvent,
    after: ImageRun,
    step: ImageStep,
)
    requires
        image_moves(before, event, after, step),
    ensures
        step.work matches ImageWork::Plan { prompt, route } ==> {
            &&& before.stage matches ImageStage::Reading { route: asked, yes }
            &&& asked == route
            &&& after.stage == (ImageStage::Planning { yes })
            &&& event matches ImageEvent::Input(bytes)
            &&& utf8_of(bytes@) == Some(prompt@)
        },
        before.stage is Reading ==> (event matches ImageEvent::Input(bytes) ==> (step.work is Plan
            <==> before.profile.permission != PermissionMode::Deny && bytes@.len() <= 65536
            && utf8_of(bytes@) is Some)),
        before.stage matches ImageStage::Planning { yes } ==> (event is Planned ==> (step.work
            is Generate <==> yes)),
{
}

/// A command begins on what it names: a list looks at the routes of the default profile,
/// an inspection at the route that was named, and a prompt that was given is planned for
/// as it is.
pub proof fn image_commands_begin_with_their_work(
    command: ImageCommand,
    registry: ConnectionRegistry,
    run: ImageRun,
    step: ImageStep,
)
    requires
        begins(command, registry, run, step),
    ensures
        step.work is Generate ==> false,
        step.print@.len() == 0 && step.notice@.len() == 0,
        step.work is InspectAll ==> command is List,
        step.work matches ImageWork::Inspect { route } ==> (command matches ImageCommand::Inspect {
            route: named,
            ..
        } && named == route),
        step.work is ReadInput ==> (command matches ImageCommand::Generate { prompt: None, .. }),
        step.work matches ImageWork::Plan { prompt, route } ==> {
            &&& command matches ImageCommand::Generate { prompt: Some(given), route: through, yes, .. }
            &&& given@ == prompt@
            &&& through == route
            &&& run.stage == (ImageStage::Planning { yes })
        },
        (exists|i: int|
            0 <= i < registry.profiles@.len() && #[trigger] registry.profiles@[i].name@
                == registry.default_profile@) ==> {
            &&& command is List ==> step.work is InspectAll
            &&& command is Inspect ==> step.work is Inspect
            &&& command is Generate ==> step.work is ReadInput || step.work is Plan
                || run.profile.permission == PermissionMode::Deny
        },
{
    found_profiles_have_the_name(registry.profiles@, registry.default_profile@);
}

}
