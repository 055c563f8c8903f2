//! Leaving a conversation, and what comes after.

use crate::chat::launch::{ChatIntent, ConversationRef};
use crate::text::{
    chars_of, is_whitespace, occurs, parts_occur, starts_with, text_eq, text_of, trim, trimmed,
    trimmed_start, whitespace,
};
use vstd::prelude::*;
use vstd::string::*;

verus! {

/// How a conversation was left.
#[derive(Debug, PartialEq, Eq)]
pub enum ChatExit {
    Quit,
    Restart,
    NewConversation,
    SwitchConversation(ConversationRef),
    DesktopNewConversation { workspace: String },
    DesktopSwitchConversation { workspace: String, conversation: ConversationRef },
    Doctor(Option<String>),
    Reset,
    Setup(String),
    Settings(String),
    ControlCommand { family: String, arguments: String },
}

/// What is done before the conversation goes on.
#[derive(Debug, PartialEq, Eq)]
pub enum ExitWork {
    Nothing,
    ResolveAttach { selector: String },
    Control { family: String, arguments: String },
    Setup { request: String, plain: bool },
    Settings { request: Option<String> },
    Doctor { session: Option<String> },
    Reset,
}

/// How the conversation goes on.
#[derive(Debug, PartialEq, Eq)]
pub struct RestartPlan {
    pub resume: Option<String>,
    pub target: Option<ConversationRef>,
    pub continue_chat: bool,
    pub force_new: bool,
    /// The workspace that a desktop surface moves to.
    pub workspace: Option<String>,
}

/// What an exit leads to.
#[derive(Debug, PartialEq, Eq)]
pub enum ExitPlan {
    Quit,
    /// Retained drafts are dropped and the storage is locked.
    Lock,
    Go { plan: RestartPlan, work: ExitWork },
}

/// Whether a family of commands is about conversations.
pub open spec fn about_conversations(family: Seq<char>) -> bool {
    family == "conversation"@ || family == "session"@ || family == "sessions"@
}

/// The word before a conversation that is to be attached.
pub open spec fn attach_word() -> Seq<char> {
    "attach "@
}

/// The conversation that an argument asks to attach, if it asks for one.
pub open spec fn attach_selector(arguments: Seq<char>) -> Option<Seq<char>> {
    let rest = trimmed_start(arguments);
    if rest.len() >= attach_word().len() && rest.take(attach_word().len() as int) == attach_word() {
        Some(trimmed(rest.skip(attach_word().len() as int)))
    } else {
        None
    }
}

/// Whether an exit locks the storage.
pub open spec fn locks(exit: ChatExit) -> bool {
    exit matches ChatExit::ControlCommand { family, arguments } && family@ == "storage"@ && trimmed(
        arguments@,
    ) == "lock"@
}

/// Whether an exit starts a new conversation.
pub open spec fn starts_new(exit: ChatExit) -> bool {
    match exit {
        ChatExit::NewConversation => true,
        ChatExit::DesktopNewConversation { .. } => true,
        ChatExit::ControlCommand { family, arguments } => about_conversations(family@) && trimmed(
            arguments@,
        ) == "new"@,
        _ => false,
    }
}

/// Whether an exit continues the latest conversation.
pub open spec fn continues(exit: ChatExit) -> bool {
    exit matches ChatExit::ControlCommand { family, arguments } && about_conversations(family@)
        && trimmed(arguments@) == "continue"@
}

/// The conversation that an exit leads to, where nothing else is asked for.
pub open spec fn leads_to(exit: ChatExit, current: ConversationRef) -> Option<ConversationRef> {
    if starts_new(exit) {
        None
    } else {
        match exit {
            ChatExit::SwitchConversation(conversation) => Some(conversation),
            ChatExit::DesktopSwitchConversation { conversation, .. } => Some(conversation),
            _ => Some(current),
        }
    }
}

/// Whether work is what an exit asks for.
pub open spec fn asks_for(exit: ChatExit, full_screen: bool, work: ExitWork) -> bool {
    match exit {
        ChatExit::ControlCommand { family, arguments } => {
            if starts_new(exit) || continues(exit) {
                work is Nothing
            } else if about_conversations(family@) && attach_selector(arguments@) is Some {
                work matches ExitWork::ResolveAttach { selector } && Some(selector@)
                    == attach_selector(arguments@)
            } else {
                work == (ExitWork::Control { family, arguments })
            }
        },
        ChatExit::Setup(request) => work == (ExitWork::Setup { request, plain: !full_screen }),
        ChatExit::Settings(request) => if request@.len() == 0 {
            work == (ExitWork::Settings { request: None })
        } else {
            work == (ExitWork::Settings { request: Some(request) })
        },
        ChatExit::Doctor(session) => work == (ExitWork::Doctor { session }),
        ChatExit::Reset => work is Reset,
        _ => work is Nothing,
    }
}

/// The session that is resumed after an exit.
pub open spec fn resumed_after(exit: ChatExit) -> Option<String> {
    match exit {
        ChatExit::Doctor(session) => session,
        _ => None,
    }
}

/// The workspace that a desktop surface moves to.
pub open spec fn moved_to(exit: ChatExit) -> Option<String> {
    match exit {
        ChatExit::DesktopNewConversation { workspace } => Some(workspace),
        ChatExit::DesktopSwitchConversation { workspace, .. } => Some(workspace),
        _ => None,
    }
}

/// Whether a plan is what an exit leads to.
pub open spec fn plans(
    exit: ChatExit,
    current: ConversationRef,
    full_screen: bool,
    plan: ExitPlan,
) -> bool {
    if exit is Quit {
        plan is Quit
    } else if locks(exit) {
        plan is Lock
    } else {
        &&& plan matches ExitPlan::Go { plan: restart, work }
        &&& restart.resume == resumed_after(exit)
        &&& restart.target == leads_to(exit, current)
        &&& restart.continue_chat == continues(exit)
        &&& restart.force_new == starts_new(exit)
        &&& restart.workspace == moved_to(exit)
        &&& asks_for(exit, full_screen, work)
    }
}

proof fn skipping_trims(text: Seq<char>, at: int)
    requires
        0 <= at <= text.len(),
        forall|j: int| 0 <= j < at ==> is_whitespace(#[trigger] text[j]),
        at < text.len() ==> !is_whitespace(text[at]),
    ensures
        trimmed_start(text) == text.skip(at),
    decreases at,
{
    if at == 0 {
        assert(text.skip(0) =~= text);
    } else {
        let rest = text.drop_first();
        assert forall|j: int| 0 <= j < at - 1 implies is_whitespace(#[trigger] rest[j]) by {
            assert(rest[j] == text[j + 1]);
        }
        skipping_trims(rest, at - 1);
        assert(rest.skip(at - 1) =~= text.skip(at));
    }
}

fn trim_start(text: &str) -> (rest: String)
    ensures
        rest@ == trimmed_start(text@),
{
    let chars = chars_of(text);
    let mut at: usize = 0;
    while at < chars.len() && whitespace(chars[at])
        invariant
            chars@ == text@,
            at <= chars@.len(),
            forall|j: int| 0 <= j < at ==> is_whitespace(#[trigger] text@[j]),
        decreases chars@.len() - at,
    {
        at += 1;
    }
    proof {
        skipping_trims(text@, at as int);
        assert(text@.subrange(at as int, text@.len() as int) =~= text@.skip(at as int));
    }
    text_of(&chars, at, chars.len())
}

fn find_selector(arguments: &str) -> (selector: Option<String>)
    ensures
        crate::text::option_view(selector) == attach_selector(arguments@),
{
    let rest = trim_start(arguments);
    if !starts_with(rest.as_str(), "attach ") {
        return None;
    }
    let chars = chars_of(rest.as_str());
    proof {
        reveal_strlit("attach ");
        assert(attach_word().len() == 7);
        assert(rest@.subrange(7, rest@.len() as int) =~= rest@.skip(7));
    }
    let named = text_of(&chars, 7, chars.len());
    Some(trim(named.as_str()))
}

fn is_about_conversations(family: &str) -> (yes: bool)
    ensures
        yes == about_conversations(family@),
{
    text_eq(family, "conversation") || text_eq(family, "session") || text_eq(family, "sessions")
}

fn go(
    target: Option<ConversationRef>,
    force_new: bool,
    continue_chat: bool,
    workspace: Option<String>,
    work: ExitWork,
) -> (plan: ExitPlan)
    ensures
        plan matches ExitPlan::Go { plan: restart, work: done } && restart.resume is None
            && restart.target == target && restart.continue_chat == continue_chat
            && restart.force_new == force_new && restart.workspace == workspace && done == work,
{
    ExitPlan::Go {
        plan: RestartPlan { resume: None, target, continue_chat, force_new, workspace },
        work,
    }
}

/// Decides what an exit leads to.
pub fn continue_after_chat_exit(exit: ChatExit, current: ConversationRef, full_screen: bool) -> (plan:
    ExitPlan)
    ensures
        plans(exit, current, full_screen, plan),
{
    match exit {
        ChatExit::Quit => ExitPlan::Quit,
        ChatExit::Restart => go(Some(current), false, false, None, ExitWork::Nothing),
        ChatExit::NewConversation => go(None, true, false, None, ExitWork::Nothing),
        ChatExit::SwitchConversation(conversation) => go(
            Some(conversation),
            false,
            false,
            None,
            ExitWork::Nothing,
        ),
        ChatExit::DesktopNewConversation { workspace } => go(
            None,
            true,
            false,
            Some(workspace),
            ExitWork::Nothing,
        ),
        ChatExit::DesktopSwitchConversation { workspace, conversation } => go(
            Some(conversation),
            false,
            false,
            Some(workspace),
            ExitWork::Nothing,
        ),
        ChatExit::Doctor(session) => {
            let resume = crate::text::copy_option(&session);
            ExitPlan::Go {
                plan: RestartPlan {
                    resume,
                    target: Some(current),
                    continue_chat: false,
                    force_new: false,
                    workspace: None,
                },
                work: ExitWork::Doctor { session },
            }
        },
        ChatExit::Reset => go(Some(current), false, false, None, ExitWork::Reset),
        ChatExit::Setup(request) => go(
            Some(current),
            false,
            false,
            None,
            ExitWork::Setup { request, plain: !full_screen },
        ),
        ChatExit::Settings(request) => {
            let request = if request.as_str().is_empty() {
                None
            } else {
                Some(request)
            };
            go(Some(current), false, false, None, ExitWork::Settings { request })
        },
        ChatExit::ControlCommand { family, arguments } => {
            let word = trim(arguments.as_str());
            if text_eq(family.as_str(), "storage") && text_eq(word.as_str(), "lock") {
                return ExitPlan::Lock;
            }
            proof {
                reveal_strlit("new");
                reveal_strlit("continue");
                assert("new"@.len() != "continue"@.len());
            }
            if is_about_conversations(family.as_str()) {
                if text_eq(word.as_str(), "new") {
                    return go(None, true, false, None, ExitWork::Nothing);
                }
                if text_eq(word.as_str(), "continue") {
                    return go(Some(current), false, true, None, ExitWork::Nothing);
                }
                if let Some(selector) = find_selector(arguments.as_str()) {
                    return go(
                        Some(current),
                        false,
                        false,
                        None,
                        ExitWork::ResolveAttach { selector },
                    );
                }
            }
            go(Some(current), false, false, None, ExitWork::Control { family, arguments })
        },
    }
}

/// What came of the work between two conversations.
#[derive(Debug, PartialEq, Eq)]
pub enum ExitEvent {
    Done,
    Attached(ConversationRef),
    Failed(String),
    /// Everything was reset, and whether a configuration is left.
    Reset { configured: bool },
}

impl ExitWork {
    /// Whether the conversation goes on where the work fails: only where a command or
    /// a conversation to attach was asked for.
    pub open spec fn may_fail(self) -> bool {
        self is ResolveAttach || self is Control
    }

    /// Whether the conversation goes on where the work fails.
    pub fn tolerated(&self) -> (yes: bool)
        ensures
            yes == self.may_fail(),
    {
        matches!(self, ExitWork::ResolveAttach { .. } | ExitWork::Control { .. })
    }
}

/// What comes after the work between two conversations.
#[derive(Debug, PartialEq, Eq)]
pub enum AfterExit {
    Go { plan: RestartPlan, notice: String },
    Quit,
    Fail(String),
}

/// How a conversation goes on after the work between, and what is said of it.
pub open spec fn resumes(
    plan: RestartPlan,
    tolerated: bool,
    event: ExitEvent,
    after: AfterExit,
) -> bool {
    match event {
        ExitEvent::Done => after matches AfterExit::Go { plan: next, notice } && next == plan
            && notice@.len() == 0,
        ExitEvent::Attached(conversation) => {
            &&& after matches AfterExit::Go { plan: next, notice }
            &&& next == (RestartPlan { target: Some(conversation), ..plan })
            &&& notice@.len() == 0
        },
        ExitEvent::Failed(text) => if tolerated {
            &&& after matches AfterExit::Go { plan: next, notice }
            &&& next == plan
            &&& notice@ == "xana: "@ + text@ + "\n"@
        } else {
            after == AfterExit::Fail(text)
        },
        ExitEvent::Reset { configured } => if configured {
            after matches AfterExit::Go { plan: next, notice } && next == plan && notice@.len()
                == 0
        } else {
            after is Quit
        },
    }
}

/// Takes the conversation up again after the work between. A command or a target
/// that failed is reported and changes nothing, and anything else that failed ends
/// it; without a configuration nothing goes on.
pub fn after_exit_work(plan: RestartPlan, tolerated: bool, event: ExitEvent) -> (after: AfterExit)
    ensures
        resumes(plan, tolerated, event, after),
{
    let notice = String::new();
    assert(notice@ =~= Seq::<char>::empty());
    match event {
        ExitEvent::Done => AfterExit::Go { plan, notice },
        ExitEvent::Attached(conversation) => AfterExit::Go {
            plan: RestartPlan {
                resume: plan.resume,
                target: Some(conversation),
                continue_chat: plan.continue_chat,
                force_new: plan.force_new,
                workspace: plan.workspace,
            },
            notice,
        },
        ExitEvent::Failed(text) => if tolerated {
            let mut notice = "xana: ".to_owned();
            notice.append(text.as_str());
            notice.append("\n");
            AfterExit::Go { plan, notice }
        } else {
            AfterExit::Fail(text)
        },
        ExitEvent::Reset { configured } => if configured {
            AfterExit::Go { plan, notice }
        } else {
            AfterExit::Quit
        },
    }
}

/// The surface that a conversation goes on with.
#[derive(Clone, Copy, PartialEq, Eq, Structural, Debug)]
pub enum RestartSurface {
    Desktop,
    Tui,
    Plain,
}

/// The surface that a conversation goes on with: the one it had.
pub fn restart_surface(desktop: bool, full_screen: bool) -> (surface: RestartSurface)
    ensures
        surface == (if desktop {
            RestartSurface::Desktop
        } else if full_screen {
            RestartSurface::Tui
        } else {
            RestartSurface::Plain
        }),
{
    if desktop {
        RestartSurface::Desktop
    } else if full_screen {
        RestartSurface::Tui
    } else {
        RestartSurface::Plain
    }
}

pub const TUI_RESTART: &'static str = "could not restart the required Xana TUI";

/// What a full screen that could not be restarted leads to.
pub fn without_restart(required: bool, error: &str) -> (notice: Result<String, String>)
    ensures
        if required {
            notice matches Err(text) && text@ == TUI_RESTART@
        } else {
            notice matches Ok(text) && text@
                == "xana: could not restart the full-screen terminal ("@ + error@
                + "); falling back to --plain\n"@
        },
{
    if required {
        return Err(TUI_RESTART.to_owned());
    }
    let mut text = "xana: could not restart the full-screen terminal (".to_owned();
    text.append(error);
    text.append("); falling back to --plain\n");
    Ok(text)
}

/// A conversation is kept over every exit that does not ask for another one: the
/// plan leads back to it.
pub proof fn conversations_are_kept(
    exit: ChatExit,
    current: ConversationRef,
    full_screen: bool,
    plan: ExitPlan,
)
    requires
        plans(exit, current, full_screen, plan),
        !starts_new(exit),
        !(exit is SwitchConversation || exit is DesktopSwitchConversation),
    ensures
        plan matches ExitPlan::Go { plan: restart, .. } ==> restart.target == Some(current)
            && !restart.force_new,
{
}

/// How the conversation is launched again: what was asked for in one shot is not
/// asked for a second time.
pub fn relaunch(plan: RestartPlan) -> (intent: ChatIntent)
    ensures
        intent == (ChatIntent {
            resume: plan.resume,
            target: plan.target,
            continue_chat: plan.continue_chat,
            force_new: plan.force_new,
            one_shot: false,
            conditions: false,
        }),
{
    ChatIntent {
        resume: plan.resume,
        target: plan.target,
        continue_chat: plan.continue_chat,
        force_new: plan.force_new,
        one_shot: false,
        conditions: false,
    }
}

/// A command that fails leaves everything about the conversation as it was planned.
pub proof fn failed_commands_change_nothing(
    exit: ChatExit,
    current: ConversationRef,
    full_screen: bool,
    plan: RestartPlan,
    work: ExitWork,
    text: String,
    after: AfterExit,
)
    requires
        plans(exit, current, full_screen, ExitPlan::Go { plan, work }),
        exit is ControlCommand,
        !(work is Nothing),
        resumes(plan, work.may_fail(), ExitEvent::Failed(text), after),
    ensures
        after matches AfterExit::Go { plan: next, .. } && next == plan,
{
}

/// A new conversation has no target, so that no history is taken up by mistake.
pub proof fn new_conversations_have_no_target(
    exit: ChatExit,
    current: ConversationRef,
    full_screen: bool,
    plan: ExitPlan,
)
    requires
        plans(exit, current, full_screen, plan),
    ensures
        plan matches ExitPlan::Go { plan: restart, .. } ==> (restart.force_new ==> restart.target
            is None),
{
}

/// Each way to leave a conversation leads where it says: quitting quits, switching leads to
/// the conversation that was chosen, in the workspace that was chosen with it, a new one is
/// begun where that was asked for, and everything else comes back to where it was.
pub proof fn exits_lead_where_they_say(
    exit: ChatExit,
    current: ConversationRef,
    full_screen: bool,
    plan: ExitPlan,
)
    requires
        call_ensures(continue_after_chat_exit, (exit, current, full_screen), plan),
    ensures
        plan is Quit <==> exit is Quit,
        exit !is ControlCommand ==> plan !is Lock,
        exit matches ChatExit::SwitchConversation(conversation) ==> (plan matches ExitPlan::Go {
            plan: restart,
            work,
        } && restart.target == Some(conversation) && !restart.force_new && work is Nothing
            && restart.workspace is None),
        exit matches ChatExit::DesktopSwitchConversation { workspace, conversation } ==> (plan
            matches ExitPlan::Go { plan: restart, work } && restart.target == Some(conversation)
            && !restart.force_new && work is Nothing && restart.workspace == Some(workspace)),
        exit matches ChatExit::DesktopNewConversation { workspace } ==> (plan
            matches ExitPlan::Go { plan: restart, work } && restart.target is None
            && restart.force_new && restart.workspace == Some(workspace) && work is Nothing),
        exit is NewConversation ==> (plan matches ExitPlan::Go { plan: restart, work }
            && restart.target is None && restart.force_new && work is Nothing),
        exit is Restart ==> (plan matches ExitPlan::Go { plan: restart, work } && restart.target
            == Some(current) && !restart.force_new && !restart.continue_chat && work is Nothing),
        exit is Reset ==> (plan matches ExitPlan::Go { work, .. } && work is Reset),
        exit matches ChatExit::Doctor(session) ==> (plan matches ExitPlan::Go { plan: restart, work }
            && work == (ExitWork::Doctor { session }) && restart.resume == session),
        exit matches ChatExit::Setup(request) ==> (plan matches ExitPlan::Go { work, .. } && work
            == (ExitWork::Setup { request, plain: !full_screen })),
        exit matches ChatExit::Settings(request) ==> (plan matches ExitPlan::Go { work, .. } && (
        work matches ExitWork::Settings { request: asked } && (asked is None <==> request@.len()
            == 0) && (asked matches Some(text) ==> text == request))),
        plan matches ExitPlan::Go { work, .. } ==> {
            &&& work is Reset ==> exit is Reset
            &&& work is Doctor ==> exit is Doctor
            &&& work is Setup ==> exit is Setup
            &&& work is Settings ==> exit is Settings
            &&& work is Control || work is ResolveAttach ==> exit is ControlCommand
            &&& work matches ExitWork::Control { family, arguments } ==> exit == (
            ChatExit::ControlCommand { family, arguments })
        },
{
}

/// A command locks, begins or continues only where it is exactly that: of the storage to
/// lock it, and of conversations to begin a new one or to continue.
pub proof fn commands_move_conversations_by_their_word(
    family: String,
    arguments: String,
    current: ConversationRef,
    full_screen: bool,
    plan: ExitPlan,
)
    requires
        call_ensures(
            continue_after_chat_exit,
            (ChatExit::ControlCommand { family, arguments }, current, full_screen),
            plan,
        ),
    ensures
        plan is Lock <==> family@ == "storage"@ && trimmed(arguments@) == "lock"@,
        plan matches ExitPlan::Go { plan: restart, work } ==> {
            &&& restart.force_new ==> trimmed(arguments@) == "new"@
            &&& restart.continue_chat ==> trimmed(arguments@) == "continue"@
            &&& restart.force_new || restart.continue_chat || work is ResolveAttach ==> family@
                == "conversation"@ || family@ == "session"@ || family@ == "sessions"@
            &&& family@ == "conversation"@ && trimmed(arguments@) == "new"@ ==> restart.force_new
            &&& family@ == "conversation"@ && trimmed(arguments@) == "continue"@
                ==> restart.continue_chat
        },
{
    reveal_strlit("storage");
    reveal_strlit("conversation");
    assert("storage"@[0] != "conversation"@[0]);
}

/// What came of the work between two conversations decides how it goes on: a conversation
/// that was attached is the next one, a failure that is tolerated is told and changes
/// nothing, one that is not ends it with the failure, and after a reset it goes on only
/// where a configuration is left.
pub proof fn conversations_go_on_by_what_came_back(
    plan: RestartPlan,
    tolerated: bool,
    event: ExitEvent,
    after: AfterExit,
)
    requires
        call_ensures(after_exit_work, (plan, tolerated, event), after),
    ensures
        event matches ExitEvent::Attached(conversation) ==> (after matches AfterExit::Go {
            plan: next,
            ..
        } && next.target == Some(conversation) && next.force_new == plan.force_new && next.resume
            == plan.resume && next.workspace == plan.workspace),
        event matches ExitEvent::Failed(text) ==> {
            &&& tolerated <==> after is Go
            &&& !tolerated ==> after == AfterExit::Fail(text)
            &&& after matches AfterExit::Go { plan: next, notice } ==> next == plan && occurs(
                notice@,
                text@,
            )
        },
        event matches ExitEvent::Reset { configured } ==> (after is Quit <==> !configured),
        after is Quit ==> event is Reset,
        after is Fail ==> event is Failed,
        event is Done ==> (after matches AfterExit::Go { plan: next, notice } && next == plan
            && notice@.len() == 0),
{
    if let ExitEvent::Failed(text) = event {
        parts_occur("xana: "@, text@, "\n"@);
    }
}

/// A conversation goes on with the surface that it had, and what was asked for in one shot
/// is not asked for again.
pub proof fn conversations_go_on_as_they_were(
    desktop: bool,
    full_screen: bool,
    surface: RestartSurface,
    plan: RestartPlan,
    intent: ChatIntent,
)
    requires
        call_ensures(restart_surface, (desktop, full_screen), surface),
        call_ensures(relaunch, (plan,), intent),
    ensures
        surface == RestartSurface::Desktop <==> desktop,
        surface == RestartSurface::Tui <==> full_screen && !desktop,
        intent.target == plan.target,
        intent.resume == plan.resume,
        intent.continue_chat == plan.continue_chat,
        intent.force_new == plan.force_new,
        !intent.one_shot && !intent.conditions,
{
}

/// A full screen that could not be restarted gives way to a plain surface, with a notice of
/// why, unless it was required.
pub proof fn lost_screens_give_way(required: bool, error: &str, notice: Result<String, String>)
    requires
        call_ensures(without_restart, (required, error), notice),
    ensures
        notice is Err <==> required,
        notice matches Ok(text) ==> occurs(text@, error@),
{
    parts_occur(
        "xana: could not restart the full-screen terminal ("@,
        error@,
        "); falling back to --plain\n"@,
    );
}

/// A conversation is attached by the words behind `attach`, without the white space around
/// them, and only where conversations are spoken of.
pub proof fn attached_conversations_are_those_named(
    family: String,
    arguments: String,
    current: ConversationRef,
    full_screen: bool,
    plan: ExitPlan,
    rest: Seq<char>,
)
    requires
        call_ensures(
            continue_after_chat_exit,
            (ChatExit::ControlCommand { family, arguments }, current, full_screen),
            plan,
        ),
    ensures
        plan matches ExitPlan::Go { work: ExitWork::ResolveAttach { selector }, .. } ==> (
        trimmed_start(arguments@) == "attach "@ + rest ==> selector@ == trimmed(rest)),
        plan matches ExitPlan::Go { work: ExitWork::Control { family: asked, arguments: said }, .. }
            ==> asked == family && said == arguments,
{
    if trimmed_start(arguments@) == "attach "@ + rest {
        let given = trimmed_start(arguments@);
        assert(given.skip("attach "@.len() as int) =~= rest);
    }
}

}
