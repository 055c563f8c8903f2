//! When somebody is told of something, and by whom the browser is controlled.

use crate::desktop::workbench::{fails, says, Response};
use crate::text::{
    copy_option, occurs, option_view, starts_with, text_eq, texts_hold_their_beginning,
};
use vstd::prelude::*;
use vstd::string::*;

verus! {

/// Why somebody is told.
#[derive(Clone, Copy, PartialEq, Eq, Structural, Debug)]
pub enum AttentionKind {
    Approval,
    Completed,
    Failed,
    ControllerLost,
    HostFailure,
}

/// What happened.
#[derive(Debug, PartialEq, Eq)]
pub enum Occurrence {
    PermissionRequired,
    RunCompleted,
    RunFailed,
    Error,
    ControllerChanged { change: String },
    GlobalNotice { kind: String },
    HostRunFailed,
    BackendStopped { expected: bool },
    Other,
}

/// Whether control of a conversation was lost.
pub open spec fn control_lost(change: Seq<char>) -> bool {
    change == "released"@ || change == "expired"@ || (change.len() >= "disconnected:"@.len()
        && change.take("disconnected:"@.len() as int) == "disconnected:"@)
}

/// Why somebody is told of something, if they are.
pub open spec fn attention_for(occurrence: Occurrence) -> Option<AttentionKind> {
    match occurrence {
        Occurrence::PermissionRequired => Some(AttentionKind::Approval),
        Occurrence::RunCompleted => Some(AttentionKind::Completed),
        Occurrence::RunFailed | Occurrence::Error | Occurrence::HostRunFailed => Some(
            AttentionKind::Failed,
        ),
        Occurrence::ControllerChanged { change } => if control_lost(change@) {
            Some(AttentionKind::ControllerLost)
        } else {
            None
        },
        Occurrence::GlobalNotice { kind } => if kind@ == "hostfailure"@ {
            Some(AttentionKind::HostFailure)
        } else {
            None
        },
        Occurrence::BackendStopped { expected } => if expected {
            None
        } else {
            Some(AttentionKind::HostFailure)
        },
        Occurrence::Other => None,
    }
}

/// Why somebody is told of something, if they are.
pub fn notify_for_update(occurrence: &Occurrence) -> (kind: Option<AttentionKind>)
    ensures
        kind == attention_for(*occurrence),
{
    match occurrence {
        Occurrence::PermissionRequired => Some(AttentionKind::Approval),
        Occurrence::RunCompleted => Some(AttentionKind::Completed),
        Occurrence::RunFailed | Occurrence::Error | Occurrence::HostRunFailed => Some(
            AttentionKind::Failed,
        ),
        Occurrence::ControllerChanged { change } => if text_eq(change.as_str(), "released")
            || text_eq(change.as_str(), "expired") || starts_with(change.as_str(), "disconnected:") {
            Some(AttentionKind::ControllerLost)
        } else {
            None
        },
        Occurrence::GlobalNotice { kind } => if text_eq(kind.as_str(), "hostfailure") {
            Some(AttentionKind::HostFailure)
        } else {
            None
        },
        Occurrence::BackendStopped { expected } => if *expected {
            None
        } else {
            Some(AttentionKind::HostFailure)
        },
        Occurrence::Other => None,
    }
}

/// Where a notification leads.
#[derive(Clone, Copy, PartialEq, Eq, Structural, Debug)]
pub enum NotificationDestination {
    Conversation,
    Activity,
    Diagnostics,
}

/// The name of where a notification leads.
pub fn notification_destination(destination: NotificationDestination) -> (name: &'static str)
    ensures
        name@ == (match destination {
            NotificationDestination::Conversation => "conversation"@,
            NotificationDestination::Activity => "activity"@,
            NotificationDestination::Diagnostics => "diagnostics"@,
        }),
{
    match destination {
        NotificationDestination::Conversation => "conversation",
        NotificationDestination::Activity => "activity",
        NotificationDestination::Diagnostics => "diagnostics",
    }
}

/// What somebody wants to be told of.
#[derive(Clone, Copy, PartialEq, Eq, Structural, Debug)]
pub struct NotificationPolicy {
    pub enabled: bool,
    pub completions: bool,
    pub approvals: bool,
    pub failures: bool,
}

/// Whether what was observed in the background may still be told: not to somebody
/// who is looking, nor by preferences that have changed.
pub fn notification_context_unchanged(
    observed: &NotificationPolicy,
    current: &NotificationPolicy,
    focused: bool,
) -> (unchanged: bool)
    ensures
        unchanged == (!focused && *observed == *current),
{
    !focused && *observed == *current
}

/// How many seconds pass between two looks at work in the background.
pub fn background_interval(failed: bool) -> (seconds: u64)
    ensures
        seconds == (if failed {
            30u64
        } else {
            2u64
        }),
{
    if failed {
        30
    } else {
        2
    }
}

/// What a client may do.
#[derive(Clone, Copy, PartialEq, Eq, Structural, Debug)]
pub enum Authority {
    Owner,
    Controller,
    Observer,
}

/// Whether the browser can be controlled: only by an owner or a controller, and
/// only in a conversation that is kept here.
pub open spec fn controls_browser(authority: Authority, owner: Seq<char>) -> bool {
    !(authority is Observer) && owner == "native"@
}

/// Whether the browser can be controlled.
pub fn browser_controls_enabled(authority: Authority, owner: &str) -> (enabled: bool)
    ensures
        enabled == controls_browser(authority, owner@),
{
    let may = match authority {
        Authority::Owner | Authority::Controller => true,
        Authority::Observer => false,
    };
    may && text_eq(owner, "native")
}

/// What is said beside the browser's controls.
pub fn browser_note(enabled: bool) -> (text: &'static str)
    ensures
        text@ == (if enabled {
            "Controls the current Xana-owned browser. Resume requires a new reviewed browser action."@
        } else {
            "Browser control requires a native Xana conversation and controller authority."@
        }),
{
    if enabled {
        "Controls the current Xana-owned browser. Resume requires a new reviewed browser action."
    } else {
        "Browser control requires a native Xana conversation and controller authority."
    }
}

/// What was found about an action whose effect was uncertain.
#[derive(Clone, Copy, PartialEq, Eq, Structural, Debug)]
pub enum BrowserResolution {
    Applied,
    NotApplied,
}

/// What is done with a finding.
#[derive(Clone, Copy, PartialEq, Eq, Debug)]
pub enum BrowserFinding {
    /// The action stays unresolved.
    Keep,
    Record(BrowserResolution),
    /// Control was lost in the meantime, and nothing is recorded.
    Refuse(&'static str),
}

pub const AUTHORITY_CHANGED: &'static str = "Browser controller authority changed; outcome was not recorded.";

/// What is done with a finding, by the button that was pressed: only one that was
/// verified is recorded, and only by somebody who still controls the browser.
pub fn browser_finding(button: Option<usize>, authority: Authority, owner: &str) -> (finding:
    BrowserFinding)
    ensures
        if button != Some(1usize) && button != Some(2usize) {
            finding == BrowserFinding::Keep
        } else if !controls_browser(authority, owner@) {
            finding matches BrowserFinding::Refuse(text) && text@ == AUTHORITY_CHANGED@
        } else if button == Some(1usize) {
            finding == BrowserFinding::Record(BrowserResolution::Applied)
        } else {
            finding == BrowserFinding::Record(BrowserResolution::NotApplied)
        },
{
    let resolution = match button {
        Some(1) => BrowserResolution::Applied,
        Some(2) => BrowserResolution::NotApplied,
        _ => {
            return BrowserFinding::Keep;
        },
    };
    if browser_controls_enabled(authority, owner) {
        BrowserFinding::Record(resolution)
    } else {
        BrowserFinding::Refuse(AUTHORITY_CHANGED)
    }
}

/// A fact about what goes on, as far as the browser's state is read from it.
#[derive(Debug, PartialEq, Eq)]
pub struct BrowserFact {
    pub id: String,
    pub from_runtime: bool,
    pub text: Option<String>,
}

pub const BROWSER_STATUS: &'static str = "browser:status";

pub const REQUEST_STATUS_FIRST: &'static str = "Request browser Status first. If no pending review appears, there is no uncertain effect to resolve.";

pub const REVIEW_TITLE: &'static str = "What happened to this exact browser action?";

pub const REVIEW_ADVICE: &'static str = "\n\nInspect the recipient and evidence before choosing. Record Applied only if you verified the effect occurred, or Not applied only if you verified it did not. If still uncertain, keep it unresolved. This records your finding; it never retries the action.";

pub const REQUESTING_CONTROL: &'static str = "Requesting browser control…";

pub const RECORDING_OUTCOME: &'static str = "Recording the exact reviewed browser outcome…";

/// Whether a fact is the browser's state as the runtime told it.
pub open spec fn tells_browser(fact: BrowserFact) -> bool {
    fact.id@ == BROWSER_STATUS@ && fact.from_runtime
}

/// What the first fact about the browser's state that the runtime told discloses.
pub open spec fn browser_status(facts: Seq<BrowserFact>) -> Option<Seq<char>>
    decreases facts.len(),
{
    if facts.len() == 0 {
        None
    } else if tells_browser(facts[0]) {
        option_view(facts[0].text)
    } else {
        browser_status(facts.drop_first())
    }
}

/// What is disclosed of the browser's state.
pub fn browser_status_detail(facts: &Vec<BrowserFact>) -> (text: Option<String>)
    ensures
        option_view(text) == browser_status(facts@),
{
    let mut i: usize = 0;
    assert(facts@.skip(0) =~= facts@);
    while i < facts.len()
        invariant
            i <= facts@.len(),
            browser_status(facts@) == browser_status(facts@.skip(i as int)),
        decreases facts@.len() - i,
    {
        assert(facts@.skip(i as int).drop_first() =~= facts@.skip(i + 1));
        if text_eq(facts[i].id.as_str(), BROWSER_STATUS) && facts[i].from_runtime {
            return copy_option(&facts[i].text);
        }
        i += 1;
    }
    None
}

/// What is asked about an action whose effect is uncertain, by its summary; without
/// one there is nothing to resolve.
pub fn review_browser_outcome(summary: Option<&str>) -> (question: Result<
    (&'static str, String),
    &'static str,
>)
    ensures
        match summary {
            Some(summary) => question matches Ok((title, detail)) && title@ == REVIEW_TITLE@
                && detail@ == summary@ + REVIEW_ADVICE@,
            None => question matches Err(text) && text@ == REQUEST_STATUS_FIRST@,
        },
{
    match summary {
        Some(summary) => {
            let mut detail = summary.to_owned();
            detail.append(REVIEW_ADVICE);
            Ok((REVIEW_TITLE, detail))
        },
        None => Err(REQUEST_STATUS_FIRST),
    }
}

/// What is said of a request to the browser's owner: that control was asked for, or
/// that a finding is recorded.
pub fn browser_requested(recording: bool, result: Result<(), String>) -> (response: Response)
    ensures
        match result {
            Ok(_) => says(
                response,
                if recording {
                    RECORDING_OUTCOME@
                } else {
                    REQUESTING_CONTROL@
                },
            ),
            Err(message) => fails(response, message@),
        },
{
    match result {
        Ok(_) => Response::Say(
            if recording {
                RECORDING_OUTCOME.to_owned()
            } else {
                REQUESTING_CONTROL.to_owned()
            },
        ),
        Err(message) => Response::Fail(message),
    }
}

/// Nothing is recorded of an uncertain action by an observer, nor in a
/// conversation that another runtime keeps.
pub proof fn findings_need_control(authority: Authority, owner: Seq<char>)
    requires
        authority is Observer || owner != "native"@,
    ensures
        !controls_browser(authority, owner),
{
}

/// Somebody is told of what needs them, for what it is: an approval for a permission,
/// a completion for a run that was completed, a failure for what failed, and nothing
/// of what is expected.
pub proof fn attention_is_asked_for_what_happened(occurrence: Occurrence)
    ensures
        attention_for(occurrence) == Some(AttentionKind::Approval) <==> occurrence
            is PermissionRequired,
        attention_for(occurrence) == Some(AttentionKind::Completed) <==> occurrence is RunCompleted,
        attention_for(occurrence) == Some(AttentionKind::Failed) <==> (occurrence is RunFailed
            || occurrence is Error || occurrence is HostRunFailed),
        attention_for(occurrence) == Some(AttentionKind::ControllerLost) ==> occurrence
            is ControllerChanged,
        attention_for(occurrence) == Some(AttentionKind::HostFailure) ==> occurrence
            is GlobalNotice || occurrence == (Occurrence::BackendStopped { expected: false }),
        occurrence == (Occurrence::BackendStopped { expected: false }) ==> attention_for(occurrence)
            == Some(AttentionKind::HostFailure),
        occurrence == (Occurrence::BackendStopped { expected: true }) ==> attention_for(occurrence)
            is None,
        occurrence matches Occurrence::ControllerChanged { change } ==> (change@ == "released"@
            || change@ == "expired"@) ==> attention_for(occurrence) == Some(
            AttentionKind::ControllerLost,
        ),
{
}

/// Only who owns or controls a conversation that is kept here controls its browser.
pub proof fn observers_control_no_browser(authority: Authority, owner: Seq<char>)
    ensures
        controls_browser(authority, owner) <==> (authority == Authority::Owner || authority
            == Authority::Controller) && owner == "native"@,
{
}

/// What is said of the browser's state was told by the runtime itself.
pub proof fn the_browser_is_told_by_the_runtime(facts: Seq<BrowserFact>)
    ensures
        browser_status(facts) matches Some(text) ==> exists|i: int|
            0 <= i < facts.len() && (#[trigger] facts[i]).from_runtime && facts[i].id@
                == BROWSER_STATUS@ && option_view(facts[i].text) == Some(text),
    decreases facts.len(),
{
    if facts.len() > 0 && !tells_browser(facts[0]) {
        let rest = facts.drop_first();
        the_browser_is_told_by_the_runtime(rest);
        if let Some(text) = browser_status(rest) {
            let i = choose|i: int|
                0 <= i < rest.len() && (#[trigger] rest[i]).from_runtime && rest[i].id@
                    == BROWSER_STATUS@ && option_view(rest[i].text) == Some(text);
            assert(facts[i + 1] == rest[i]);
        }
    }
}

/// What a browser did is recorded as the owner found it, and only by who may still control
/// it: the first choice keeps it open, the second says that it was applied, the third that
/// it was not.
pub proof fn findings_are_recorded_as_made(
    button: Option<usize>,
    authority: Authority,
    owner: &str,
    finding: BrowserFinding,
)
    requires
        call_ensures(browser_finding, (button, authority, owner), finding),
    ensures
        finding is Record ==> controls_browser(authority, owner@),
        finding == BrowserFinding::Record(BrowserResolution::Applied) <==> button == Some(1usize)
            && controls_browser(authority, owner@),
        finding == BrowserFinding::Record(BrowserResolution::NotApplied) <==> button == Some(2usize)
            && controls_browser(authority, owner@),
        finding == BrowserFinding::Keep <==> button != Some(1usize) && button != Some(2usize),
{
}

/// The outcome of a browser's action is reviewed against what is known of it, and not at
/// all where nothing is; a request that failed is told with its reason.
pub proof fn outcomes_are_reviewed_as_known(
    summary: Option<&str>,
    question: Result<(&'static str, String), &'static str>,
    recording: bool,
    result: Result<(), String>,
    response: Response,
)
    requires
        call_ensures(review_browser_outcome, (summary,), question),
        call_ensures(browser_requested, (recording, result), response),
    ensures
        question is Ok <==> summary is Some,
        summary matches Some(known) ==> (question matches Ok((title, detail)) && occurs(
            detail@,
            known@,
        )),
        response is Say <==> result is Ok,
        result matches Err(message) ==> (response matches Response::Fail(text) && text@ == message@),
{
    if let Some(known) = summary {
        texts_hold_their_beginning(known@, REVIEW_ADVICE@);
    }
}

}
