//! Activating the tools of a profile's servers. A server is contacted only where its
//! owner approved it before.

use crate::mcp::{activates_server, Disposition};
use crate::text::{debug_text, quoted};
use vstd::prelude::*;
use vstd::string::*;

verus! {

pub const NOT_ACTIVATED: &'static str = "could not activate profile MCP tools";

/// Why a server that was approved stops the activation.
pub open spec fn not_ready(server: Seq<char>) -> Seq<char> {
    "profile MCP server "@ + debug_text(server) + " is not ready"@
}

/// What is done next. Asking what was decided about a server contacts nobody.
#[derive(Debug, PartialEq, Eq)]
pub enum ActivationWork {
    Ask { server: String },
    Refresh { server: String },
    Activate,
    Finish { tools: usize },
    /// The activation failed, and for what cause where it has one of its own.
    Fail { text: String, cause: Option<String> },
    Ignore,
}

/// What came of it.
#[derive(Debug, PartialEq, Eq)]
pub enum ActivationEvent {
    Decided(Option<Disposition>),
    Refreshed,
    NotRefreshed { cause: String },
    Activated { tools: usize },
    NotActivated { cause: String },
    Failed(String),
}

/// Where an activation stands.
#[derive(Clone, Copy, PartialEq, Eq, Structural, Debug)]
pub enum ActivationStage {
    Asking,
    Refreshing,
    Activating,
    Over,
}

/// An activation of the servers of a profile, at one of them.
#[derive(Debug, PartialEq, Eq)]
pub struct Activation {
    pub servers: Vec<String>,
    pub at: usize,
    pub stage: ActivationStage,
}

impl Activation {
    /// Whether there is a server to be asked about.
    pub open spec fn sound(self) -> bool {
        self.stage is Asking || self.stage is Refreshing ==> self.at < self.servers@.len()
    }
}

/// Whether the next server is asked about, or the tools of those that were
/// contacted are activated.
pub open spec fn goes_on(before: Activation, after: Activation, work: ActivationWork) -> bool {
    &&& after.servers == before.servers
    &&& after.at == before.at + 1
    &&& if after.at < before.servers@.len() {
        &&& after.stage is Asking
        &&& work == (ActivationWork::Ask { server: before.servers@[after.at as int] })
    } else {
        after.stage is Activating && work is Activate
    }
}

/// The activation ends with a failure.
pub open spec fn fails(
    before: Activation,
    after: Activation,
    work: ActivationWork,
    text: Seq<char>,
    cause: Option<String>,
) -> bool {
    &&& after == (Activation { stage: ActivationStage::Over, ..before })
    &&& work matches ActivationWork::Fail { text: failure, cause: held }
    &&& failure@ == text
    &&& held == cause
}

/// How an activation moves.
pub open spec fn activation_moves(
    before: Activation,
    event: ActivationEvent,
    after: Activation,
    work: ActivationWork,
) -> bool {
    match (before.stage, event) {
        (ActivationStage::Over, _) => after == before && work is Ignore,
        (_, ActivationEvent::Failed(text)) => fails(before, after, work, text@, None),
        (ActivationStage::Asking, ActivationEvent::Decided(disposition)) => if disposition == Some(
            Disposition::SavedAllow,
        ) {
            &&& after == (Activation { stage: ActivationStage::Refreshing, ..before })
            &&& work == (ActivationWork::Refresh { server: before.servers@[before.at as int] })
        } else {
            goes_on(before, after, work)
        },
        (ActivationStage::Refreshing, ActivationEvent::Refreshed) => goes_on(before, after, work),
        (ActivationStage::Refreshing, ActivationEvent::NotRefreshed { cause }) => fails(
            before,
            after,
            work,
            not_ready(before.servers@[before.at as int]@),
            Some(cause),
        ),
        (ActivationStage::Activating, ActivationEvent::Activated { tools }) => {
            &&& after == (Activation { stage: ActivationStage::Over, ..before })
            &&& work == (ActivationWork::Finish { tools })
        },
        (ActivationStage::Activating, ActivationEvent::NotActivated { cause }) => fails(
            before,
            after,
            work,
            NOT_ACTIVATED@,
            Some(cause),
        ),
        _ => after == before && work is Ignore,
    }
}

/// Begins to activate the tools of a profile's servers: without a server nothing is
/// done.
pub fn activate_profile_tools(servers: Vec<String>) -> (begun: (Activation, ActivationWork))
    ensures
        begun.0.sound(),
        begun.0.servers == servers,
        begun.0.at == 0,
        if servers@.len() == 0 {
            begun.0.stage is Over && begun.1 == (ActivationWork::Finish { tools: 0 })
        } else {
            begun.0.stage is Asking && begun.1 == (ActivationWork::Ask { server: servers@[0] })
        },
{
    if servers.len() == 0 {
        return (
            Activation { servers, at: 0, stage: ActivationStage::Over },
            ActivationWork::Finish { tools: 0 },
        );
    }
    let server = servers[0].clone();
    (
        Activation { servers, at: 0, stage: ActivationStage::Asking },
        ActivationWork::Ask { server },
    )
}

impl Activation {
    fn go_on(&mut self) -> (work: ActivationWork)
        requires
            old(self).at < old(self).servers@.len(),
        ensures
            final(self).sound(),
            goes_on(*old(self), *final(self), work),
    {
        let count: usize = self.servers.len();
        self.at += 1;
        if self.at < count {
            self.stage = ActivationStage::Asking;
            ActivationWork::Ask { server: self.servers[self.at].clone() }
        } else {
            self.stage = ActivationStage::Activating;
            ActivationWork::Activate
        }
    }

    fn fail(&mut self, text: String, cause: Option<String>) -> (work: ActivationWork)
        ensures
            final(self).sound(),
            fails(*old(self), *final(self), work, text@, cause),
    {
        self.stage = ActivationStage::Over;
        ActivationWork::Fail { text, cause }
    }

    /// Moves on what came of the work.
    pub fn step(&mut self, event: ActivationEvent) -> (work: ActivationWork)
        requires
            old(self).sound(),
        ensures
            final(self).sound(),
            activation_moves(*old(self), event, *final(self), work),
    {
        match (self.stage, event) {
            (ActivationStage::Over, _) => ActivationWork::Ignore,
            (_, ActivationEvent::Failed(text)) => self.fail(text, None),
            (ActivationStage::Asking, ActivationEvent::Decided(disposition)) => {
                if activates_server(disposition) {
                    self.stage = ActivationStage::Refreshing;
                    ActivationWork::Refresh { server: self.servers[self.at].clone() }
                } else {
                    self.go_on()
                }
            },
            (ActivationStage::Refreshing, ActivationEvent::Refreshed) => self.go_on(),
            (ActivationStage::Refreshing, ActivationEvent::NotRefreshed { cause }) => {
                let mut text = "profile MCP server ".to_owned();
                text.append(quoted(self.servers[self.at].as_str()).as_str());
                text.append(" is not ready");
                self.fail(text, Some(cause))
            },
            (ActivationStage::Activating, ActivationEvent::Activated { tools }) => {
                self.stage = ActivationStage::Over;
                ActivationWork::Finish { tools }
            },
            (ActivationStage::Activating, ActivationEvent::NotActivated { cause }) => {
                self.fail(NOT_ACTIVATED.to_owned(), Some(cause))
            },
            _ => ActivationWork::Ignore,
        }
    }
}

/// A server is contacted only where its owner approved it before, and it is the one
/// that was asked about.
pub proof fn unapproved_servers_are_not_contacted(
    before: Activation,
    event: ActivationEvent,
    after: Activation,
    work: ActivationWork,
)
    requires
        before.sound(),
        activation_moves(before, event, after, work),
        work is Refresh,
    ensures
        event == ActivationEvent::Decided(Some(Disposition::SavedAllow)),
        work == (ActivationWork::Refresh { server: before.servers@[before.at as int] }),
{
}

/// An activation asks about each server once, in order, and then ends.
pub proof fn activations_come_to_an_end(
    before: Activation,
    event: ActivationEvent,
    after: Activation,
    work: ActivationWork,
)
    requires
        before.sound(),
        activation_moves(before, event, after, work),
        !(work is Ignore),
    ensures
        after.servers == before.servers,
        after.stage is Over || after.at > before.at || (before.stage is Asking && after.stage
            is Refreshing),
{
}

/// An activation ends well with the number of tools that were activated, and only once it
/// has asked about every server. A server that was approved and is not ready ends it in a
/// failure that carries the cause; one that was not approved is passed over.
pub proof fn activations_end_as_they_came_out(
    before: Activation,
    event: ActivationEvent,
    after: Activation,
    work: ActivationWork,
)
    requires
        before.sound(),
        activation_moves(before, event, after, work),
    ensures
        work matches ActivationWork::Finish { tools } ==> event == (ActivationEvent::Activated {
            tools,
        }),
        work is Activate ==> before.at + 1 == before.servers@.len() && event !is NotRefreshed,
        before.stage is Refreshing ==> (event matches ActivationEvent::NotRefreshed { cause } ==> (
        work matches ActivationWork::Fail { cause: told, .. } && told == Some(cause))),
        before.stage is Activating ==> (event matches ActivationEvent::NotActivated { cause } ==> (
        work matches ActivationWork::Fail { cause: told, .. } && told == Some(cause))),
        before.stage is Asking ==> (event matches ActivationEvent::Decided(disposition) ==> (work
            is Refresh <==> disposition == Some(Disposition::SavedAllow))),
        work matches ActivationWork::Ask { server } ==> before.at + 1 < before.servers@.len()
            && server == before.servers@[before.at + 1],
        before.stage is Activating && event is Activated ==> work is Finish,
        before.stage is Over ==> work is Ignore && after == before,
        before.stage !is Over ==> (event matches ActivationEvent::Failed(cause) ==> (work
            matches ActivationWork::Fail { text, .. } && text@ == cause@)),
{
}

/// The servers of a profile are asked one after another, from the first; where there are
/// none it ends at once with no tools.
pub proof fn activations_begin_with_the_first_server(
    servers: Vec<String>,
    begun: (Activation, ActivationWork),
)
    requires
        call_ensures(activate_profile_tools, (servers,), begun),
    ensures
        begun.0.servers == servers,
        begun.0.at == 0,
        servers@.len() == 0 ==> begun.1 == (ActivationWork::Finish { tools: 0 }),
        servers@.len() > 0 ==> begun.1 == (ActivationWork::Ask { server: servers@[0] }),
        begun.0.stage is Over <==> servers@.len() == 0,
{
}

}
