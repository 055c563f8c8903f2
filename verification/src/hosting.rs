//! Attaching to a hosted conversation: what a client asks of the host, and what
//! it makes of the answers.

use vstd::prelude::*;
use vstd::string::*;

verus! {

pub const LOOPBACK_ONLY: &'static str = "Course 1 `xana serve` accepts only loopback bind addresses";

pub const NO_CONVERSATION: &'static str = "foreground host has no controllable conversation";

pub const ACQUIRED: &'static str = "xana attach: controller authority acquired\n";

pub const GAP: &'static str = "xana attach: observation gap; reconnecting for a fresh snapshot\n";

pub const DISCONNECTED: &'static str = "xana attach: controller disconnected; reconnecting within grace\n";

pub const CLOSED: &'static str = "xana attach: foreground host closed\n";

/// Whether a host may listen at an address: only at one that no other machine
/// reaches.
pub fn admit_bind(loopback: bool) -> (admitted: Result<(), String>)
    ensures
        loopback ==> admitted is Ok,
        !loopback ==> (admitted matches Err(text) && text@ == LOOPBACK_ONLY@),
{
    if loopback {
        Ok(())
    } else {
        Err(LOOPBACK_ONLY.to_owned())
    }
}

/// What a client was asked to do.
#[derive(Debug, PartialEq, Eq)]
pub struct AttachArgs {
    pub control: bool,
    pub takeover: bool,
    pub prompt: Option<String>,
    pub artifact: Option<String>,
}

/// What the client does next. `Watch` waits for the next observation or for the
/// user to interrupt.
#[derive(Debug, PartialEq, Eq)]
pub enum AttachWork {
    Connect,
    Reconnect,
    Acquire { conversation: String, takeover: bool },
    Submit { input: String },
    Fetch { artifact: String },
    Watch,
    Release,
    Finish(Option<String>),
    Ignore,
}

/// What came of it.
#[derive(Debug, PartialEq, Eq)]
pub enum AttachEvent {
    Connected { controller: bool, conversation: Option<String> },
    Acquired,
    Submitted { accepted: bool, reason: Option<String> },
    Fetched { accepted: bool, reason: Option<String> },
    Observed,
    Interrupted,
    Gap { capability: bool },
    Closed { capability: bool },
    Released,
    Failed(String),
}

/// What is written to the output.
#[derive(Clone, Copy, PartialEq, Eq, Structural, Debug)]
pub enum AttachOutput {
    Nothing,
    Snapshot,
    Answer,
    Observation,
}

/// Where the client stands.
#[derive(Clone, Copy, PartialEq, Eq, Structural, Debug)]
pub enum AttachStage {
    Connecting,
    Acquiring,
    Submitting,
    Fetching,
    Watching,
    Releasing,
    Over,
}

/// A client that attaches to a host.
#[derive(Debug, PartialEq, Eq)]
pub struct AttachRun {
    pub args: AttachArgs,
    pub stage: AttachStage,
}

/// What the client says, writes and does.
#[derive(Debug, PartialEq, Eq)]
pub struct AttachStep {
    pub notice: String,
    pub output: AttachOutput,
    pub work: AttachWork,
}

/// A step with everything that it holds.
pub open spec fn steps(
    before: AttachRun,
    after: AttachRun,
    step: AttachStep,
    stage: AttachStage,
    notice: Seq<char>,
    output: AttachOutput,
    work: AttachWork,
) -> bool {
    &&& after == (AttachRun { stage, ..before })
    &&& step.notice@ == notice
    &&& step.output == output
    &&& step.work == work
}

/// The client stops with a failure.
pub open spec fn stops(
    before: AttachRun,
    after: AttachRun,
    step: AttachStep,
    output: AttachOutput,
    reason: Seq<char>,
) -> bool {
    &&& after == (AttachRun { stage: AttachStage::Over, ..before })
    &&& step.notice@.len() == 0
    &&& step.output == output
    &&& step.work matches AttachWork::Finish(Some(text))
    &&& text@ == reason
}

/// The client is attached: it shows the snapshot and fetches what was asked for,
/// or watches.
pub open spec fn attaches(
    before: AttachRun,
    after: AttachRun,
    step: AttachStep,
    notice: Seq<char>,
) -> bool {
    match before.args.artifact {
        Some(artifact) => steps(
            before,
            after,
            step,
            AttachStage::Fetching,
            notice,
            AttachOutput::Snapshot,
            AttachWork::Fetch { artifact },
        ),
        None => steps(
            before,
            after,
            step,
            AttachStage::Watching,
            notice,
            AttachOutput::Snapshot,
            AttachWork::Watch,
        ),
    }
}

/// A reason, or that there is none.
pub open spec fn told_reason(reason: Option<String>) -> Seq<char> {
    match reason {
        Some(reason) => reason@,
        None => "no reason provided"@,
    }
}

/// How a connection is taken up again: with the authority there was, where it is
/// still held.
pub open spec fn takes_up(capability: bool) -> AttachWork {
    if capability {
        AttachWork::Reconnect
    } else {
        AttachWork::Connect
    }
}

/// How a client moves.
pub open spec fn attach_moves(
    before: AttachRun,
    event: AttachEvent,
    after: AttachRun,
    step: AttachStep,
) -> bool {
    let nothing = Seq::<char>::empty();
    match (before.stage, event) {
        (AttachStage::Over, _) => steps(
            before,
            after,
            step,
            before.stage,
            nothing,
            AttachOutput::Nothing,
            AttachWork::Ignore,
        ),
        (_, AttachEvent::Failed(reason)) => stops(
            before,
            after,
            step,
            AttachOutput::Nothing,
            reason@,
        ),
        (
            AttachStage::Connecting,
            AttachEvent::Connected { controller, conversation },
        ) => if before.args.control && !controller {
            match conversation {
                Some(conversation) => steps(
                    before,
                    after,
                    step,
                    AttachStage::Acquiring,
                    nothing,
                    AttachOutput::Nothing,
                    AttachWork::Acquire { conversation, takeover: before.args.takeover },
                ),
                None => stops(before, after, step, AttachOutput::Nothing, NO_CONVERSATION@),
            }
        } else {
            attaches(before, after, step, nothing)
        },
        (AttachStage::Acquiring, AttachEvent::Acquired) => match before.args.prompt {
            Some(input) => steps(
                before,
                after,
                step,
                AttachStage::Submitting,
                ACQUIRED@,
                AttachOutput::Nothing,
                AttachWork::Submit { input },
            ),
            None => attaches(before, after, step, ACQUIRED@),
        },
        (AttachStage::Submitting, AttachEvent::Submitted { accepted, reason }) => if accepted {
            attaches(before, after, step, nothing)
        } else {
            stops(
                before,
                after,
                step,
                AttachOutput::Nothing,
                "hosted prompt was rejected: "@ + told_reason(reason),
            )
        },
        (AttachStage::Fetching, AttachEvent::Fetched { accepted, reason }) => if accepted {
            steps(
                before,
                after,
                step,
                AttachStage::Over,
                nothing,
                AttachOutput::Answer,
                AttachWork::Finish(None),
            )
        } else {
            stops(
                before,
                after,
                step,
                AttachOutput::Answer,
                "artifact retrieval was rejected: "@ + told_reason(reason),
            )
        },
        (AttachStage::Watching, AttachEvent::Observed) => steps(
            before,
            after,
            step,
            AttachStage::Watching,
            nothing,
            AttachOutput::Observation,
            AttachWork::Watch,
        ),
        (AttachStage::Watching, AttachEvent::Interrupted) => if before.args.control {
            steps(
                before,
                after,
                step,
                AttachStage::Releasing,
                nothing,
                AttachOutput::Nothing,
                AttachWork::Release,
            )
        } else {
            steps(
                before,
                after,
                step,
                AttachStage::Over,
                nothing,
                AttachOutput::Nothing,
                AttachWork::Finish(None),
            )
        },
        (AttachStage::Watching, AttachEvent::Gap { capability }) => steps(
            before,
            after,
            step,
            AttachStage::Connecting,
            GAP@,
            AttachOutput::Nothing,
            takes_up(capability),
        ),
        (AttachStage::Watching, AttachEvent::Closed { capability }) => if capability {
            steps(
                before,
                after,
                step,
                AttachStage::Connecting,
                DISCONNECTED@,
                AttachOutput::Nothing,
                AttachWork::Reconnect,
            )
        } else {
            steps(
                before,
                after,
                step,
                AttachStage::Over,
                CLOSED@,
                AttachOutput::Nothing,
                AttachWork::Finish(None),
            )
        },
        (AttachStage::Releasing, AttachEvent::Released) => steps(
            before,
            after,
            step,
            AttachStage::Over,
            nothing,
            AttachOutput::Nothing,
            AttachWork::Finish(None),
        ),
        _ => steps(
            before,
            after,
            step,
            before.stage,
            nothing,
            AttachOutput::Nothing,
            AttachWork::Ignore,
        ),
    }
}

fn silence() -> (text: String)
    ensures
        text@ == Seq::<char>::empty(),
{
    let text = String::new();
    assert(text@ =~= Seq::<char>::empty());
    text
}

fn rejected(head: &str, reason: &Option<String>) -> (text: String)
    ensures
        text@ == head@ + told_reason(*reason),
{
    let mut text = head.to_owned();
    match reason {
        Some(reason) => text.append(reason.as_str()),
        None => text.append("no reason provided"),
    }
    text
}

impl AttachRun {
    /// Begins to attach.
    pub fn start(args: AttachArgs) -> (begun: (AttachRun, AttachWork))
        ensures
            begun.0 == (AttachRun { args, stage: AttachStage::Connecting }),
            begun.1 == AttachWork::Connect,
    {
        (AttachRun { args, stage: AttachStage::Connecting }, AttachWork::Connect)
    }

    fn go(&mut self, stage: AttachStage, notice: String, output: AttachOutput, work: AttachWork) -> (step:
        AttachStep)
        ensures
            steps(*old(self), *final(self), step, stage, notice@, output, work),
    {
        self.stage = stage;
        AttachStep { notice, output, work }
    }

    fn stop(&mut self, output: AttachOutput, reason: String) -> (step: AttachStep)
        ensures
            stops(*old(self), *final(self), step, output, reason@),
    {
        self.stage = AttachStage::Over;
        AttachStep { notice: silence(), output, work: AttachWork::Finish(Some(reason)) }
    }

    fn attach(&mut self, notice: String) -> (step: AttachStep)
        ensures
            attaches(*old(self), *final(self), step, notice@),
    {
        let artifact = crate::text::copy_option(&self.args.artifact);
        match artifact {
            Some(artifact) => self.go(
                AttachStage::Fetching,
                notice,
                AttachOutput::Snapshot,
                AttachWork::Fetch { artifact },
            ),
            None => self.go(
                AttachStage::Watching,
                notice,
                AttachOutput::Snapshot,
                AttachWork::Watch,
            ),
        }
    }

    fn watch(&mut self, event: AttachEvent) -> (step: AttachStep)
        requires
            old(self).stage is Watching,
            !(event is Failed),
        ensures
            attach_moves(*old(self), event, *final(self), step),
    {
        match event {
            AttachEvent::Observed => self.go(
                AttachStage::Watching,
                silence(),
                AttachOutput::Observation,
                AttachWork::Watch,
            ),
            AttachEvent::Interrupted => if self.args.control {
                self.go(
                    AttachStage::Releasing,
                    silence(),
                    AttachOutput::Nothing,
                    AttachWork::Release,
                )
            } else {
                self.go(
                    AttachStage::Over,
                    silence(),
                    AttachOutput::Nothing,
                    AttachWork::Finish(None),
                )
            },
            AttachEvent::Gap { capability } => {
                let work = if capability {
                    AttachWork::Reconnect
                } else {
                    AttachWork::Connect
                };
                self.go(AttachStage::Connecting, GAP.to_owned(), AttachOutput::Nothing, work)
            },
            AttachEvent::Closed { capability } => if capability {
                self.go(
                    AttachStage::Connecting,
                    DISCONNECTED.to_owned(),
                    AttachOutput::Nothing,
                    AttachWork::Reconnect,
                )
            } else {
                self.go(
                    AttachStage::Over,
                    CLOSED.to_owned(),
                    AttachOutput::Nothing,
                    AttachWork::Finish(None),
                )
            },
            _ => self.go(
                AttachStage::Watching,
                silence(),
                AttachOutput::Nothing,
                AttachWork::Ignore,
            ),
        }
    }

    /// Moves the client on what came of its work.
    pub fn step(&mut self, event: AttachEvent) -> (step: AttachStep)
        ensures
            attach_moves(*old(self), event, *final(self), step),
    {
        match self.stage {
            AttachStage::Over => {
                return self.go(
                    AttachStage::Over,
                    silence(),
                    AttachOutput::Nothing,
                    AttachWork::Ignore,
                );
            },
            _ => {},
        }
        match event {
            AttachEvent::Failed(reason) => self.stop(AttachOutput::Nothing, reason),
            event => match (self.stage, event) {
                (AttachStage::Watching, event) => self.watch(event),
                (
                    AttachStage::Connecting,
                    AttachEvent::Connected { controller, conversation },
                ) => if self.args.control && !controller {
                    match conversation {
                        Some(conversation) => {
                            let takeover = self.args.takeover;
                            self.go(
                                AttachStage::Acquiring,
                                silence(),
                                AttachOutput::Nothing,
                                AttachWork::Acquire { conversation, takeover },
                            )
                        },
                        None => self.stop(AttachOutput::Nothing, NO_CONVERSATION.to_owned()),
                    }
                } else {
                    self.attach(silence())
                },
                (AttachStage::Acquiring, AttachEvent::Acquired) => {
                    let prompt = crate::text::copy_option(&self.args.prompt);
                    match prompt {
                        Some(input) => self.go(
                            AttachStage::Submitting,
                            ACQUIRED.to_owned(),
                            AttachOutput::Nothing,
                            AttachWork::Submit { input },
                        ),
                        None => self.attach(ACQUIRED.to_owned()),
                    }
                },
                (
                    AttachStage::Submitting,
                    AttachEvent::Submitted { accepted, reason },
                ) => if accepted {
                    self.attach(silence())
                } else {
                    self.stop(
                        AttachOutput::Nothing,
                        rejected("hosted prompt was rejected: ", &reason),
                    )
                },
                (AttachStage::Fetching, AttachEvent::Fetched { accepted, reason }) => if accepted {
                    self.go(
                        AttachStage::Over,
                        silence(),
                        AttachOutput::Answer,
                        AttachWork::Finish(None),
                    )
                } else {
                    self.stop(
                        AttachOutput::Answer,
                        rejected("artifact retrieval was rejected: ", &reason),
                    )
                },
                (AttachStage::Releasing, AttachEvent::Released) => self.go(
                    AttachStage::Over,
                    silence(),
                    AttachOutput::Nothing,
                    AttachWork::Finish(None),
                ),
                (stage, _) => self.go(
                    stage,
                    silence(),
                    AttachOutput::Nothing,
                    AttachWork::Ignore,
                ),
            },
        }
    }
}

/// An observer stays one: a client that was not asked to control acquires
/// nothing, submits nothing and releases nothing.
pub proof fn observers_only_observe(
    before: AttachRun,
    event: AttachEvent,
    after: AttachRun,
    step: AttachStep,
)
    requires
        attach_moves(before, event, after, step),
        !before.args.control,
        !(before.stage is Acquiring || before.stage is Submitting || before.stage is Releasing),
    ensures
        after.args == before.args,
        !(after.stage is Acquiring || after.stage is Submitting || after.stage is Releasing),
        !(step.work is Acquire || step.work is Submit || step.work is Release),
{
}

/// A controller that takes its connection up again with the authority it held
/// does not submit its prompt a second time.
pub proof fn reconnected_controllers_do_not_repeat(
    before: AttachRun,
    conversation: Option<String>,
    after: AttachRun,
    step: AttachStep,
)
    requires
        before.stage is Connecting,
        attach_moves(
            before,
            AttachEvent::Connected { controller: true, conversation },
            after,
            step,
        ),
    ensures
        step.work is Watch || step.work is Fetch,
        after.stage is Watching || after.stage is Fetching,
{
}

/// A host listens only where no other machine reaches it.
pub proof fn hosts_stay_local(loopback: bool, admitted: Result<(), String>)
    requires
        call_ensures(admit_bind, (loopback,), admitted),
    ensures
        admitted is Ok <==> loopback,
{
}

/// Control is asked for only where it was wanted and is not held, of the conversation of
/// the host, and taken from another only where that was wanted. What is submitted and
/// what is fetched is what the client was asked for, and only who acquired control submits.
pub proof fn clients_ask_for_what_was_wanted(
    before: AttachRun,
    event: AttachEvent,
    after: AttachRun,
    step: AttachStep,
)
    requires
        attach_moves(before, event, after, step),
    ensures
        after.args == before.args,
        step.work matches AttachWork::Acquire { conversation, takeover } ==> before.args.control
            && takeover == before.args.takeover && event == (AttachEvent::Connected {
            controller: false,
            conversation: Some(conversation),
        }),
        step.work matches AttachWork::Submit { input } ==> before.args.prompt == Some(input)
            && before.stage == AttachStage::Acquiring && event is Acquired,
        step.work matches AttachWork::Fetch { artifact } ==> before.args.artifact == Some(artifact),
        before.stage is Connecting ==> (event matches AttachEvent::Connected {
            controller,
            conversation,
        } ==> {
            &&& step.work is Acquire <==> before.args.control && !controller && conversation is Some
            &&& step.work is Finish <==> before.args.control && !controller && conversation is None
        }),
        before.stage is Acquiring && event is Acquired ==> (step.work is Submit
            <==> before.args.prompt is Some),
        step.work is Release ==> before.args.control,
        before.stage is Watching && event is Interrupted ==> (step.work is Release
            <==> before.args.control) && (step.work is Finish <==> !before.args.control),
{
}

/// What the host refuses ends the client with the host's reason, and what it accepts goes
/// on. What comes in is shown as what it is: a snapshot when attached, an observation when
/// one is made, and an answer when something was fetched.
pub proof fn answers_of_the_host_are_followed(
    before: AttachRun,
    event: AttachEvent,
    after: AttachRun,
    step: AttachStep,
)
    requires
        attach_moves(before, event, after, step),
    ensures
        before.stage is Submitting ==> (event matches AttachEvent::Submitted { accepted, reason }
            ==> {
            &&& accepted <==> step.work !is Finish
            &&& !accepted ==> (step.work matches AttachWork::Finish(Some(text)) && (reason
                matches Some(told) ==> exists|head: Seq<char>| text@ == #[trigger] (head + told@)))
        }),
        before.stage is Fetching ==> (event matches AttachEvent::Fetched { accepted, .. } ==> {
            &&& step.work is Finish
            &&& accepted <==> step.work == AttachWork::Finish(None)
            &&& step.output == AttachOutput::Answer
        }),
        step.output == AttachOutput::Observation <==> before.stage is Watching && event is Observed,
        step.output == AttachOutput::Answer ==> event is Fetched,
        step.output == AttachOutput::Snapshot ==> after.stage is Watching || after.stage
            is Fetching,
        before.stage is Over ==> after.stage is Over && step.work is Ignore,
        step.work is Finish <==> after.stage is Over && before.stage !is Over,
        before.stage !is Over ==> (event matches AttachEvent::Failed(cause) ==> (step.work
            matches AttachWork::Finish(Some(told)) && told@ == cause@)),
        step.work is Reconnect ==> event == (AttachEvent::Gap { capability: true }) || event == (
        AttachEvent::Closed { capability: true }),
        before.stage is Watching ==> (event matches AttachEvent::Closed { capability } ==> (
        step.work == AttachWork::Finish(None) <==> !capability)),
        before.stage is Watching ==> (event matches AttachEvent::Gap { capability } ==> (step.work
            is Reconnect <==> capability) && (step.work is Connect <==> !capability)),
{
}

}
