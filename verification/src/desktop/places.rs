//! Turning to the places of the workbench, and what is said on the way.

use crate::desktop::navigation::NavigationTarget;
use crate::desktop::workbench::{
    asks_quietly, fails, says, Request, Response, Suspension, Workbench,
};
use crate::text::{occurs, parts_occur};
use vstd::prelude::*;
use vstd::string::*;

verus! {

pub const KEEP_TITLE: &'static str = "Keep staged settings?";

pub const KEEP_DETAIL: &'static str = "Return to the Conversation without applying. Your staged settings stay available until Xana exits or you discard them.";

pub const DRAFT_KEPT: &'static str = "Conversation opened; settings draft retained";

pub const CHECKING_IMAGE: &'static str = "Validating image attachment…";

pub const CHECKING_CLIPBOARD: &'static str = "Validating clipboard image…";

pub const IMAGE_READY: &'static str = "Image attachment is ready";

pub const IMAGE_KNOWN: &'static str = "Image attachment was already staged";

pub const CLOSE_TITLE: &'static str = "Xana is still working";

pub const CLOSE_DETAIL: &'static str = "Keep Xana open, cancel the active work and quit, or return to the Conversation.";

pub const STAYS_OPEN: &'static str = "Xana remains open while work continues";

/// What is said when a place is opened.
pub open spec fn opened(target: NavigationTarget) -> Seq<char> {
    match target {
        NavigationTarget::Conversation => "Conversation opened"@,
        NavigationTarget::Activity => "Activity opened"@,
        NavigationTarget::Espejo => "Espejo opened"@,
        NavigationTarget::Settings => "Settings opened"@,
        NavigationTarget::Diagnostics => "Diagnostics opened"@,
    }
}

/// What is said while a draft of the settings is begun for a place, where the place
/// needs one and there is none.
pub open spec fn prepared(target: NavigationTarget, has_draft: bool) -> Option<Seq<char>> {
    if has_draft {
        None
    } else {
        match target {
            NavigationTarget::Settings => Some("Preparing a settings draft…"@),
            NavigationTarget::Diagnostics => Some("Preparing Diagnostics…"@),
            _ => None,
        }
    }
}

/// What the settings turn to.
#[derive(Clone, Copy, PartialEq, Eq, Structural, Debug)]
pub enum Focus {
    Nothing,
    Search,
    Diagnostics,
}

/// What the settings turn to when a place is opened.
pub open spec fn focused(target: NavigationTarget) -> Focus {
    match target {
        NavigationTarget::Settings => Focus::Search,
        NavigationTarget::Diagnostics => Focus::Diagnostics,
        _ => Focus::Nothing,
    }
}

/// What comes of opening a place: a draft of the settings is begun where `begin`
/// says so, with what is said meanwhile.
#[derive(Debug, PartialEq, Eq)]
pub struct Turned {
    pub begin: Option<&'static str>,
    pub said: &'static str,
    pub focus: Focus,
}

/// What leaving the settings comes to.
#[derive(Debug, PartialEq, Eq)]
pub enum Leaving {
    Left { said: &'static str },
    /// The user is asked whether the draft is kept.
    Question { title: &'static str, detail: &'static str },
}

impl Workbench {
    /// Opens a place.
    pub fn open_place(&mut self, target: NavigationTarget, has_draft: bool) -> (turned: Turned)
        ensures
            *final(self) == (Workbench { navigation: target, ..*old(self) }),
            turned.said@ == opened(target),
            turned.focus == focused(target),
            match prepared(target, has_draft) {
                Some(text) => turned.begin matches Some(begin) && begin@ == text,
                None => turned.begin is None,
            },
    {
        self.navigation = target;
        let said = match target {
            NavigationTarget::Conversation => "Conversation opened",
            NavigationTarget::Activity => "Activity opened",
            NavigationTarget::Espejo => "Espejo opened",
            NavigationTarget::Settings => "Settings opened",
            NavigationTarget::Diagnostics => "Diagnostics opened",
        };
        let begin = if has_draft {
            None
        } else {
            match target {
                NavigationTarget::Settings => Some("Preparing a settings draft…"),
                NavigationTarget::Diagnostics => Some("Preparing Diagnostics…"),
                _ => None,
            }
        };
        let focus = match target {
            NavigationTarget::Settings => Focus::Search,
            NavigationTarget::Diagnostics => Focus::Diagnostics,
            _ => Focus::Nothing,
        };
        Turned { begin, said, focus }
    }

    /// Leaves the settings: at once where nothing is staged.
    pub fn leave_settings(&mut self, staged: Option<usize>) -> (leaving: Leaving)
        ensures
            if staged matches Some(count) && count > 0 {
                &&& *final(self) == *old(self)
                &&& leaving matches Leaving::Question { title, detail }
                &&& title@ == KEEP_TITLE@
                &&& detail@ == KEEP_DETAIL@
            } else {
                &&& *final(self) == (Workbench {
                    navigation: NavigationTarget::Conversation,
                    ..*old(self)
                })
                &&& leaving matches Leaving::Left { said }
                &&& said@ == opened(NavigationTarget::Conversation)
            },
    {
        match staged {
            Some(count) => {
                if count > 0 {
                    return Leaving::Question { title: KEEP_TITLE, detail: KEEP_DETAIL };
                }
            },
            None => {},
        }
        self.navigation = NavigationTarget::Conversation;
        Leaving::Left { said: "Conversation opened" }
    }

    /// Takes the answer to the question before the settings are left.
    pub fn answer_leaving(&mut self, agreed: bool) -> (said: Option<&'static str>)
        ensures
            if agreed {
                &&& *final(self) == (Workbench {
                    navigation: NavigationTarget::Conversation,
                    ..*old(self)
                })
                &&& said matches Some(text)
                &&& text@ == DRAFT_KEPT@
            } else {
                *final(self) == *old(self) && said is None
            },
    {
        if !agreed {
            return None;
        }
        self.navigation = NavigationTarget::Conversation;
        Some(DRAFT_KEPT)
    }

    /// Notes what came of asking the runtime for a settings command.
    pub fn track_settings(&mut self, result: Result<u64, String>, activity: String) -> (response:
        Response)
        ensures
            match result {
                Ok(command) => {
                    &&& final(self).pending.settings@ == old(self).pending.settings@.insert(command)
                    &&& says(response, activity@)
                },
                Err(message) => {
                    &&& final(self).pending.settings == old(self).pending.settings
                    &&& fails(response, message@)
                },
            },
            *final(self) == (Workbench {
                pending: crate::desktop::retained::PendingCommands {
                    settings: final(self).pending.settings,
                    ..old(self).pending
                },
                ..*old(self)
            }),
    {
        match result {
            Ok(command) => {
                self.await_settings(command);
                Response::Say(activity)
            },
            Err(message) => Response::Fail(message),
        }
    }

    /// Notes what came of handing the runtime an image for a conversation, from a
    /// file or from the clipboard.
    pub fn track_attachment(
        &mut self,
        conversation: String,
        clipboard: bool,
        result: Result<u64, String>,
    ) -> (response: Response)
        ensures
            match result {
                Ok(command) => {
                    &&& final(self).pending.attachments@ == old(self).pending.attachments@.insert(
                        command,
                        conversation,
                    )
                    &&& says(
                        response,
                        if clipboard {
                            CHECKING_CLIPBOARD@
                        } else {
                            CHECKING_IMAGE@
                        },
                    )
                },
                Err(message) => {
                    &&& final(self).pending.attachments == old(self).pending.attachments
                    &&& fails(response, message@)
                },
            },
            *final(self) == (Workbench {
                pending: crate::desktop::retained::PendingCommands {
                    attachments: final(self).pending.attachments,
                    ..old(self).pending
                },
                ..*old(self)
            }),
    {
        match result {
            Ok(command) => {
                self.await_attachment(command, conversation);
                Response::Say(
                    if clipboard {
                        CHECKING_CLIPBOARD.to_owned()
                    } else {
                        CHECKING_IMAGE.to_owned()
                    },
                )
            },
            Err(message) => Response::Fail(message),
        }
    }
}

/// What is said of an image that was staged, or that had been before.
pub fn attachment_staged(new: bool) -> (said: &'static str)
    ensures
        said@ == (if new {
            IMAGE_READY@
        } else {
            IMAGE_KNOWN@
        }),
{
    if new {
        IMAGE_READY
    } else {
        IMAGE_KNOWN
    }
}

/// What is said when another launch turned the workbench to a place.
pub fn opened_elsewhere(place: &str) -> (said: String)
    ensures
        said@ == "Opened "@ + place@ + " from another Xana launch"@,
{
    let mut said = "Opened ".to_owned();
    said.append(place);
    said.append(" from another Xana launch");
    said
}

/// Goes on with a run that used up its rounds, or stops it.
pub fn decide_round_budget(suspension: Suspension, resume: bool) -> (response: Response)
    ensures
        asks_quietly(response, Request::DecideRounds { suspension, resume }),
{
    Response::AskQuietly { request: Request::DecideRounds { suspension, resume } }
}

/// What is done about an answer to a request of which nothing is said.
pub fn quietly_answered(result: Result<(), String>) -> (response: Response)
    ensures
        match result {
            Ok(_) => response is Nothing,
            Err(message) => fails(response, message@),
        },
{
    match result {
        Ok(_) => Response::Nothing,
        Err(message) => Response::Fail(message),
    }
}

/// A place that is opened is announced as itself, and the settings turn to what belongs to
/// it. A draft is begun for the two places that need one, where there is none.
pub proof fn places_are_announced_as_themselves(one: NavigationTarget, two: NavigationTarget)
    ensures
        opened(one) == opened(two) <==> one == two,
        focused(one) == Focus::Search <==> one == NavigationTarget::Settings,
        focused(one) == Focus::Diagnostics <==> one == NavigationTarget::Diagnostics,
        prepared(one, true) is None,
        prepared(one, false) is Some <==> one == NavigationTarget::Settings || one
            == NavigationTarget::Diagnostics,
{
    reveal_strlit("Conversation opened");
    reveal_strlit("Activity opened");
    reveal_strlit("Espejo opened");
    reveal_strlit("Settings opened");
    reveal_strlit("Diagnostics opened");
    assert("Conversation opened"@[0] == 'C');
    assert("Activity opened"@[0] == 'A');
    assert("Espejo opened"@[0] == 'E');
    assert("Settings opened"@[0] == 'S');
    assert("Diagnostics opened"@[0] == 'D');
}

/// A run that used up its rounds is decided about as it was chosen, and it is that run.
pub proof fn used_up_rounds_are_decided_as_chosen(
    suspension: Suspension,
    resume: bool,
    response: Response,
)
    requires
        call_ensures(decide_round_budget, (suspension, resume), response),
    ensures
        response matches Response::AskQuietly { request: Request::DecideRounds {
            suspension: held,
            resume: chosen,
        } } && held == suspension && chosen == resume,
{
}

/// An answer of which nothing is said is silent where it is well, and told where it is not.
pub proof fn failed_answers_are_told(result: Result<(), String>, response: Response)
    requires
        call_ensures(quietly_answered, (result,), response),
    ensures
        response is Nothing <==> result is Ok,
        result matches Err(message) ==> (response matches Response::Fail(text) && text@
            == message@),
{
}

/// An image that was staged is told apart from one that had been before, and a place that
/// another launch turned to is named.
pub proof fn staged_images_are_told_apart(
    new: &'static str,
    known: &'static str,
    place: &str,
    said: String,
)
    requires
        call_ensures(attachment_staged, (true,), new),
        call_ensures(attachment_staged, (false,), known),
        call_ensures(opened_elsewhere, (place,), said),
    ensures
        new@ != known@,
        occurs(said@, place@),
{
    reveal_strlit("Image attachment is ready");
    reveal_strlit("Image attachment was already staged");
    assert("Image attachment is ready"@.len() != "Image attachment was already staged"@.len());
    parts_occur("Opened "@, place@, " from another Xana launch"@);
}

/// Opening a place shows that place and nothing else changes; the settings and the
/// diagnostics begin a draft where none is there, and only they do.
pub proof fn opened_places_are_shown(
    workbench: &mut Workbench,
    target: NavigationTarget,
    has_draft: bool,
    turned: Turned,
)
    requires
        call_ensures(Workbench::open_place, (workbench, target, has_draft), turned),
    ensures
        final(workbench).navigation == target,
        *final(workbench) == (Workbench { navigation: target, ..*old(workbench) }),
        turned.begin is Some <==> !has_draft && (target == NavigationTarget::Settings || target
            == NavigationTarget::Diagnostics),
        turned.focus == Focus::Search <==> target == NavigationTarget::Settings,
        turned.focus == Focus::Diagnostics <==> target == NavigationTarget::Diagnostics,
{
}

/// The settings are left at once where nothing is staged. Where something is, the user is
/// asked first, and only who agrees leaves; nothing but the place changes.
pub proof fn staged_settings_are_not_left_unasked(
    leaving: &mut Workbench,
    staged: Option<usize>,
    left: Leaving,
    answering: &mut Workbench,
    agreed: bool,
    said: Option<&'static str>,
)
    requires
        call_ensures(Workbench::leave_settings, (leaving, staged), left),
        call_ensures(Workbench::answer_leaving, (answering, agreed), said),
    ensures
        left is Question <==> staged is Some && staged->0 > 0,
        left is Question ==> *final(leaving) == *old(leaving),
        left is Left ==> *final(leaving) == (Workbench {
            navigation: NavigationTarget::Conversation,
            ..*old(leaving)
        }),
        said is Some <==> agreed,
        !agreed ==> *final(answering) == *old(answering),
        agreed ==> *final(answering) == (Workbench {
            navigation: NavigationTarget::Conversation,
            ..*old(answering)
        }),
{
}

/// A command that the runtime took is awaited by its number, and one that it refused is
/// not: its reason is told. An image is awaited for the conversation that it is meant for.
pub proof fn taken_commands_are_awaited(
    workbench: &mut Workbench,
    result: Result<u64, String>,
    activity: String,
    response: Response,
    attaching: &mut Workbench,
    conversation: String,
    clipboard: bool,
    attached: Result<u64, String>,
    told: Response,
)
    requires
        call_ensures(Workbench::track_settings, (workbench, result, activity), response),
        call_ensures(
            Workbench::track_attachment,
            (attaching, conversation, clipboard, attached),
            told,
        ),
    ensures
        result matches Ok(command) ==> final(workbench).pending.settings@.contains(command) && (
        response matches Response::Say(text) && text@ == activity@),
        result matches Err(message) ==> {
            &&& final(workbench).pending.settings@ == old(workbench).pending.settings@
            &&& response matches Response::Fail(text) && text@ == message@
        },
        attached matches Ok(command) ==> final(attaching).pending.attachments@.contains_pair(
            command,
            conversation,
        ) && told is Say,
        attached matches Err(message) ==> {
            &&& final(attaching).pending.attachments@ == old(attaching).pending.attachments@
            &&& told matches Response::Fail(text) && text@ == message@
        },
        final(attaching).active == old(attaching).active,
        final(workbench).active == old(workbench).active,
{
}

}
