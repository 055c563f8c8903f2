//! Retained workers, and the preferences of the workbench.

use crate::text::{
    beginnings_are_held, beginnings_begin_alike, copy_option, decimal, decimal_text, ends_occur,
    join, joined, occurs, option_view, spaced_words, split_spaces, text_eq, trim, trimmed,
    views,
};
use vstd::prelude::*;
use vstd::string::*;

verus! {

/// A retained worker.
#[derive(Debug, PartialEq, Eq)]
pub struct WorkerSummary {
    pub id: String,
    pub goal: String,
    pub state: String,
    pub route: String,
    pub queued: u64,
    pub revision: u64,
}

impl WorkerSummary {
    /// The same worker.
    pub fn copy(&self) -> (copy: WorkerSummary)
        ensures
            copy == *self,
    {
        WorkerSummary {
            id: self.id.clone(),
            goal: self.goal.clone(),
            state: self.state.clone(),
            route: self.route.clone(),
            queued: self.queued,
            revision: self.revision,
        }
    }
}

/// What can be done with a worker.
#[derive(Clone, Copy, PartialEq, Eq, Structural, Debug)]
pub enum WorkerAction {
    Inspect,
    FollowUp,
    Run,
    Drain,
    Stop,
    Recover,
    Context,
}

/// What is asked about workers. Every change carries the revision that was
/// looked at.
#[derive(Debug, PartialEq, Eq)]
pub enum WorkerRequest {
    Page { after: Option<String> },
    Inspect { id: String },
    Run { id: String, revision: u64 },
    FollowUp { id: String, revision: u64, request_id: String, text: String },
    Drain { id: String, revision: u64 },
    Stop { id: String, revision: u64 },
    Recover { id: String, revision: u64, review_unknown: bool },
    Context { id: String, revision: u64, operation: String },
    Retain { session: String, agent: String, goal: String, expires: String, evidence: Vec<String> },
}

/// What came of it.
#[derive(Debug, PartialEq, Eq)]
pub enum WorkerResult {
    Page(Vec<WorkerSummary>),
    Detail(String),
    Changed(String),
    Failed(String),
}

/// What is shown of workers.
#[derive(Debug, PartialEq, Eq)]
pub struct WorkerView {
    pub rows: Vec<WorkerSummary>,
    pub selected: Option<WorkerSummary>,
    pub authorize: bool,
    pub review_unknown: bool,
    pub busy: bool,
    pub status: String,
    pub detail: String,
}

pub const WORKERS_INTRO: &'static str = "Refresh to inspect retained workers. Retaining a child does not start it.";

pub const WORKING: &'static str = "Working within the retained scope and cumulative budget…";

pub const PAGE_SHOWN: &'static str = "Current protected page. Inspect a worker before using its exact revision.";

pub const INSPECTED: &'static str = "Read-only inspection; no authority changed.";

pub const RECORDED: &'static str = "Receipt recorded. Refresh before the next revision-bound operation.";

pub const CANCELLING: &'static str = "Cancellation requested; waiting for the durable outcome.";

/// The worker of an id among rows.
pub open spec fn worker_of(rows: Seq<WorkerSummary>, id: Seq<char>) -> Option<WorkerSummary>
    decreases rows.len(),
{
    if rows.len() == 0 {
        None
    } else if rows[0].id@ == id {
        Some(rows[0])
    } else {
        worker_of(rows.drop_first(), id)
    }
}

fn find_worker(rows: &Vec<WorkerSummary>, id: &str) -> (found: Option<WorkerSummary>)
    ensures
        found == worker_of(rows@, id@),
{
    let mut i: usize = 0;
    assert(rows@.skip(0) =~= rows@);
    while i < rows.len()
        invariant
            i <= rows@.len(),
            worker_of(rows@, id@) == worker_of(rows@.skip(i as int), id@),
        decreases rows@.len() - i,
    {
        assert(rows@.skip(i as int).drop_first() =~= rows@.skip(i + 1));
        if text_eq(rows[i].id.as_str(), id) {
            return Some(rows[i].copy());
        }
        i += 1;
    }
    None
}

/// The request that an action on the selected worker makes.
pub open spec fn request_of(
    action: WorkerAction,
    worker: WorkerSummary,
    request_id: String,
    text: String,
    operation: String,
    review_unknown: bool,
) -> WorkerRequest {
    let id = worker.id;
    let revision = worker.revision;
    match action {
        WorkerAction::Inspect => WorkerRequest::Inspect { id },
        WorkerAction::Run => WorkerRequest::Run { id, revision },
        WorkerAction::FollowUp => WorkerRequest::FollowUp { id, revision, request_id, text },
        WorkerAction::Drain => WorkerRequest::Drain { id, revision },
        WorkerAction::Stop => WorkerRequest::Stop { id, revision },
        WorkerAction::Recover => WorkerRequest::Recover { id, revision, review_unknown },
        WorkerAction::Context => WorkerRequest::Context { id, revision, operation },
    }
}

/// How what came of a request is taken.
pub open spec fn takes_result(before: WorkerView, result: WorkerResult, after: WorkerView) -> bool {
    &&& !after.busy
    &&& match result {
        WorkerResult::Page(rows) => {
            &&& after.rows == rows
            &&& after.selected == (match before.selected {
                Some(chosen) => worker_of(rows@, chosen.id@),
                None => None,
            })
            &&& after.authorize == before.authorize
            &&& after.review_unknown == before.review_unknown
            &&& after.detail == before.detail
            &&& after.status@ == PAGE_SHOWN@
        },
        WorkerResult::Detail(detail) => {
            &&& after.rows == before.rows
            &&& after.selected == before.selected
            &&& after.authorize == before.authorize
            &&& after.review_unknown == before.review_unknown
            &&& after.detail == detail
            &&& after.status@ == INSPECTED@
        },
        WorkerResult::Changed(receipt) => {
            &&& after.rows@.len() == 0
            &&& after.selected is None
            &&& !after.authorize
            &&& !after.review_unknown
            &&& after.detail == receipt
            &&& after.status@ == RECORDED@
        },
        WorkerResult::Failed(message) => {
            &&& after.rows == before.rows
            &&& after.selected == before.selected
            &&& after.authorize == before.authorize
            &&& after.review_unknown == before.review_unknown
            &&& after.detail == before.detail
            &&& after.status == message
        },
    }
}

/// Whether a view is another one at work.
pub open spec fn set_to_work(before: WorkerView, after: WorkerView) -> bool {
    &&& after == (WorkerView { busy: true, status: after.status, ..before })
    &&& after.status@ == WORKING@
}

impl WorkerView {
    /// Nothing shown yet.
    pub fn new() -> (view: WorkerView)
        ensures
            view.rows@.len() == 0,
            view.selected is None,
            !view.authorize,
            !view.review_unknown,
            !view.busy,
            view.status@ == WORKERS_INTRO@,
            view.detail@.len() == 0,
    {
        let detail = String::new();
        assert(detail@ =~= Seq::<char>::empty());
        WorkerView {
            rows: Vec::new(),
            selected: None,
            authorize: false,
            review_unknown: false,
            busy: false,
            status: WORKERS_INTRO.to_owned(),
            detail,
        }
    }

    fn start(&mut self)
        ensures
            set_to_work(*old(self), *final(self)),
    {
        self.busy = true;
        self.status = WORKING.to_owned();
    }

    /// Asks for the first page, or for the one behind the last row. One request is
    /// made at a time.
    pub fn refresh(&mut self, next: bool) -> (request: Option<WorkerRequest>)
        ensures
            if old(self).busy {
                request is None && *final(self) == *old(self)
            } else {
                &&& set_to_work(*old(self), *final(self))
                &&& request == Some(
                    WorkerRequest::Page {
                        after: if next && old(self).rows@.len() > 0 {
                            Some(old(self).rows@.last().id)
                        } else {
                            None
                        },
                    },
                )
            },
    {
        if self.busy {
            return None;
        }
        let after = if next && self.rows.len() > 0 {
            Some(self.rows[self.rows.len() - 1].id.clone())
        } else {
            None
        };
        self.start();
        Some(WorkerRequest::Page { after })
    }

    /// Acts on the selected worker, at the revision that was looked at.
    pub fn act(
        &mut self,
        action: WorkerAction,
        request_id: &str,
        text: String,
        operation: String,
    ) -> (request: Option<WorkerRequest>)
        ensures
            match old(self).selected {
                Some(worker) => if old(self).busy {
                    request is None && *final(self) == *old(self)
                } else {
                    &&& set_to_work(*old(self), *final(self))
                    &&& exists|id: String|
                        id@ == trimmed(request_id@) && request == Some(
                            #[trigger] request_of(
                                action,
                                worker,
                                id,
                                text,
                                operation,
                                old(self).review_unknown,
                            ),
                        )
                },
                None => request is None && *final(self) == *old(self),
            },
    {
        let worker = match &self.selected {
            Some(worker) => worker.copy(),
            None => {
                return None;
            },
        };
        if self.busy {
            return None;
        }
        let review_unknown = self.review_unknown;
        self.start();
        let named = trim(request_id);
        let ghost asked = request_of(action, worker, named, text, operation, review_unknown);
        let id = worker.id;
        let revision = worker.revision;
        let request = match action {
            WorkerAction::Inspect => WorkerRequest::Inspect { id },
            WorkerAction::Run => WorkerRequest::Run { id, revision },
            WorkerAction::FollowUp => WorkerRequest::FollowUp {
                id,
                revision,
                request_id: named,
                text,
            },
            WorkerAction::Drain => WorkerRequest::Drain { id, revision },
            WorkerAction::Stop => WorkerRequest::Stop { id, revision },
            WorkerAction::Recover => WorkerRequest::Recover { id, revision, review_unknown },
            WorkerAction::Context => WorkerRequest::Context { id, revision, operation },
        };
        assert(request == asked);
        Some(request)
    }

    /// Retains a child, where that was authorized. The evidence is what is named
    /// between white space.
    pub fn retain(
        &mut self,
        session: &str,
        agent: &str,
        goal: String,
        expires: &str,
        evidence: &str,
    ) -> (request: Option<WorkerRequest>)
        ensures
            if !old(self).authorize || old(self).busy {
                request is None && *final(self) == *old(self)
            } else {
                &&& set_to_work(*old(self), *final(self))
                &&& request matches Some(
                    WorkerRequest::Retain {
                        session: s,
                        agent: a,
                        goal: g,
                        expires: e,
                        evidence: v,
                    },
                )
                &&& s@ == trimmed(session@)
                &&& a@ == trimmed(agent@)
                &&& g == goal
                &&& e@ == trimmed(expires@)
                &&& views(v@) == spaced_words(evidence@)
            },
    {
        if !self.authorize || self.busy {
            return None;
        }
        self.start();
        Some(
            WorkerRequest::Retain {
                session: trim(session),
                agent: trim(agent),
                goal,
                expires: trim(expires),
                evidence: split_spaces(evidence),
            },
        )
    }

    /// Takes what came of a request.
    pub fn finish(&mut self, result: WorkerResult)
        ensures
            takes_result(*old(self), result, *final(self)),
    {
        self.busy = false;
        match result {
            WorkerResult::Page(rows) => {
                let selected = match &self.selected {
                    Some(chosen) => find_worker(&rows, chosen.id.as_str()),
                    None => None,
                };
                self.selected = selected;
                self.rows = rows;
                self.status = PAGE_SHOWN.to_owned();
            },
            WorkerResult::Detail(detail) => {
                self.detail = detail;
                self.status = INSPECTED.to_owned();
            },
            WorkerResult::Changed(receipt) => {
                self.detail = receipt;
                self.selected = None;
                self.rows = Vec::new();
                self.authorize = false;
                self.review_unknown = false;
                self.status = RECORDED.to_owned();
            },
            WorkerResult::Failed(message) => {
                self.status = message;
            },
        }
    }

    /// Asks for an end of what is being done, and says whether there was anything:
    /// the outcome is still waited for.
    pub fn interrupt(&mut self) -> (asked: bool)
        ensures
            asked == old(self).busy,
            if old(self).busy {
                &&& *final(self) == (WorkerView { status: final(self).status, ..*old(self) })
                &&& final(self).status@ == CANCELLING@
            } else {
                *final(self) == *old(self)
            },
    {
        if self.busy {
            self.status = CANCELLING.to_owned();
        }
        self.busy
    }

    /// Selects a worker. What was reviewed of another one does not count for it.
    pub fn select(&mut self, worker: WorkerSummary)
        ensures
            *final(self) == (WorkerView {
                selected: Some(worker),
                review_unknown: false,
                ..*old(self)
            }),
    {
        self.selected = Some(worker);
        self.review_unknown = false;
    }
}

/// What can be used of the view of workers.
#[derive(Clone, Copy, PartialEq, Eq, Structural, Debug)]
pub struct WorkerControls {
    pub refresh: bool,
    pub next_page: bool,
    pub interrupt: bool,
    /// The rows, the fields and the boxes to tick.
    pub fields: bool,
    /// What acts on the selected worker.
    pub actions: bool,
    pub retain: bool,
}

/// What can be used of the view of workers: nothing but the interruption while
/// something is done, a next page only behind rows, an action only on a selected
/// worker, and a child is retained only where that is authorized.
pub open spec fn controls_of(view: WorkerView) -> WorkerControls {
    WorkerControls {
        refresh: !view.busy,
        next_page: !view.busy && view.rows@.len() > 0,
        interrupt: view.busy,
        fields: !view.busy,
        actions: !view.busy && view.selected is Some,
        retain: !view.busy && view.authorize,
    }
}

impl WorkerView {
    /// What can be used.
    pub fn controls(&self) -> (controls: WorkerControls)
        ensures
            controls == controls_of(*self),
    {
        WorkerControls {
            refresh: !self.busy,
            next_page: !self.busy && self.rows.len() > 0,
            interrupt: self.busy,
            fields: !self.busy,
            actions: !self.busy && self.selected.is_some(),
            retain: !self.busy && self.authorize,
        }
    }

    /// Whether a row is the selected one.
    pub fn shows_selected(&self, row: &WorkerSummary) -> (yes: bool)
        ensures
            yes == (self.selected matches Some(worker) && worker.id@ == row.id@),
    {
        match &self.selected {
            Some(worker) => text_eq(worker.id.as_str(), row.id.as_str()),
            None => false,
        }
    }
}

/// What is said of a worker.
pub open spec fn worker_text(worker: WorkerSummary) -> Seq<char> {
    worker.goal@ + " · "@ + worker.state@ + " · "@ + worker.route@ + " · "@ + decimal(
        worker.queued as nat,
    ) + " queued · revision "@ + decimal(worker.revision as nat)
}

/// What is said of a worker.
pub fn worker_label(worker: &WorkerSummary) -> (text: String)
    ensures
        text@ == worker_text(*worker),
{
    let mut text = worker.goal.clone();
    text.append(" · ");
    text.append(worker.state.as_str());
    text.append(" · ");
    text.append(worker.route.as_str());
    text.append(" · ");
    text.append(decimal_text(worker.queued).as_str());
    text.append(" queued · revision ");
    text.append(decimal_text(worker.revision).as_str());
    text
}

/// After a change nothing can be done by the revision that was looked at before:
/// nothing is selected, and neither an authorization nor a review is left over.
pub proof fn changes_use_up_their_revision(before: WorkerView, receipt: String, after: WorkerView)
    requires
        takes_result(before, WorkerResult::Changed(receipt), after),
    ensures
        after.selected is None,
        !after.authorize,
        !after.review_unknown,
{
}

/// Every change is made at the revision of the worker that is selected.
pub proof fn changes_carry_their_revision(
    action: WorkerAction,
    worker: WorkerSummary,
    request_id: String,
    text: String,
    operation: String,
    review_unknown: bool,
)
    ensures
        match request_of(action, worker, request_id, text, operation, review_unknown) {
            WorkerRequest::Run { id, revision }
            | WorkerRequest::FollowUp { id, revision, .. }
            | WorkerRequest::Drain { id, revision }
            | WorkerRequest::Stop { id, revision }
            | WorkerRequest::Recover { id, revision, .. }
            | WorkerRequest::Context { id, revision, .. } => id == worker.id && revision
                == worker.revision,
            WorkerRequest::Inspect { id } => id == worker.id,
            _ => false,
        },
{
}

/// The receipt of a restored default.
#[derive(Debug, PartialEq, Eq)]
pub struct PreferencesReceipt {
    pub code: String,
    pub detail: String,
}

/// What is shown of the workbench's preferences while its default is restored.
#[derive(Debug, PartialEq, Eq)]
pub struct PreferencesView {
    pub built_in: bool,
    pub confirm_reset: bool,
    pub busy: bool,
    pub error: Option<String>,
    pub receipt: Option<PreferencesReceipt>,
}

impl PreferencesView {
    /// Asks before the default is restored, where it can be.
    pub fn ask_reset(&mut self)
        ensures
            *final(self) == (PreferencesView {
                confirm_reset: old(self).confirm_reset || !(old(self).busy || old(self).built_in),
                ..*old(self)
            }),
    {
        if self.can_reset() {
            self.confirm_reset = true;
        }
    }

    /// Puts the question away.
    pub fn cancel_reset(&mut self)
        ensures
            *final(self) == (PreferencesView { confirm_reset: false, ..*old(self) }),
    {
        self.confirm_reset = false;
    }

    /// Whether the default can be restored.
    pub fn can_reset(&self) -> (yes: bool)
        ensures
            yes == !(self.busy || self.built_in),
    {
        !(self.busy || self.built_in)
    }

    /// Begins to restore the default, unless that is under way.
    pub fn reset(&mut self) -> (started: bool)
        ensures
            started == !old(self).busy,
            !started ==> *final(self) == *old(self),
            started ==> *final(self) == (PreferencesView {
                busy: true,
                confirm_reset: false,
                error: None,
                ..*old(self)
            }),
    {
        if self.busy {
            return false;
        }
        self.busy = true;
        self.confirm_reset = false;
        self.error = None;
        true
    }

    /// Takes what came of it: the receipt and whether the default is the built-in
    /// one now, or the failure.
    pub fn finish(&mut self, result: Result<(PreferencesReceipt, bool), String>)
        ensures
            match result {
                Ok((receipt, built_in)) => *final(self) == (PreferencesView {
                    busy: false,
                    receipt: Some(receipt),
                    built_in,
                    ..*old(self)
                }),
                Err(message) => *final(self) == (PreferencesView {
                    busy: false,
                    error: Some(message),
                    ..*old(self)
                }),
            },
    {
        self.busy = false;
        match result {
            Ok((receipt, built_in)) => {
                self.receipt = Some(receipt);
                self.built_in = built_in;
            },
            Err(message) => {
                self.error = Some(message);
            },
        }
    }
}

/// The texts of the workbench's default.
#[derive(Debug, PartialEq, Eq)]
pub struct PreferencesCard {
    pub source: String,
    pub panels: String,
    /// Which of the defaults comes before which.
    pub precedence: String,
    pub warning: Option<String>,
    /// How a default is saved, and what a reset leaves alone.
    pub note: &'static str,
    /// Whether a reset can be asked for.
    pub can_reset: bool,
    /// The question before a reset.
    pub question: Option<&'static str>,
    /// What is said below, of a reset that is under way.
    pub busy: Option<&'static str>,
    pub error: Option<String>,
    pub receipt: Option<String>,
}

pub const PREFERENCES_NOTE: &'static str = "Use Save as user default in an open Workbench to capture its current arrangement. Reset here never deletes Conversation layouts.";

pub const RESET_QUESTION: &'static str = "Remove the user-wide default? Per-Conversation layouts remain unchanged.";

pub const RESETTING: &'static str = "Restoring built-in layout…";

impl PreferencesView {
    /// Draws where the workbench's default comes from and what it holds, and what came
    /// of restoring the built-in one.
    pub fn render(
        &self,
        source: &str,
        panels: &Vec<String>,
        precedence: &str,
        warning: &Option<String>,
    ) -> (card: PreferencesCard)
        ensures
            card.precedence@ == precedence@,
            card.note@ == PREFERENCES_NOTE@,
            card.can_reset == !(self.busy || self.built_in),
            card.error == self.error,
            option_view(card.receipt) == (match self.receipt {
                Some(receipt) => Some(receipt.code@ + " · "@ + receipt.detail@),
                None => None,
            }),
            card.source@ == "User-wide source: "@ + source@,
            card.panels@ == "Panels: "@ + joined(views(panels@), ", "@),
            option_view(card.warning) == (match *warning {
                Some(text) => Some("Recovered safely: "@ + text@),
                None => None,
            }),
            if self.busy {
                card.busy matches Some(text) && text@ == RESETTING@
            } else {
                card.busy is None
            },
            if self.confirm_reset {
                card.question matches Some(text) && text@ == RESET_QUESTION@
            } else {
                card.question is None
            },
    {
        let mut told = "User-wide source: ".to_owned();
        told.append(source);
        let mut listed = "Panels: ".to_owned();
        listed.append(join(panels, ", ").as_str());
        let warned = match warning {
            Some(text) => {
                let mut warned = "Recovered safely: ".to_owned();
                warned.append(text.as_str());
                Some(warned)
            },
            None => None,
        };
        let receipt = match &self.receipt {
            Some(receipt) => {
                let mut line = receipt.code.clone();
                line.append(" · ");
                line.append(receipt.detail.as_str());
                Some(line)
            },
            None => None,
        };
        PreferencesCard {
            source: told,
            panels: listed,
            precedence: precedence.to_owned(),
            warning: warned,
            note: PREFERENCES_NOTE,
            can_reset: self.can_reset(),
            question: if self.confirm_reset {
                Some(RESET_QUESTION)
            } else {
                None
            },
            busy: if self.busy {
                Some(RESETTING)
            } else {
                None
            },
            error: copy_option(&self.error),
            receipt,
        }
    }
}

/// What is asked of the runtime is what the user chose, and nothing else: each action
/// makes the request of its own kind.
pub proof fn actions_make_their_own_request(
    action: WorkerAction,
    worker: WorkerSummary,
    request_id: String,
    text: String,
    operation: String,
    review_unknown: bool,
)
    ensures
        ({
            let request = request_of(action, worker, request_id, text, operation, review_unknown);
            &&& request is Inspect <==> action == WorkerAction::Inspect
            &&& request is Run <==> action == WorkerAction::Run
            &&& request is FollowUp <==> action == WorkerAction::FollowUp
            &&& request is Drain <==> action == WorkerAction::Drain
            &&& request is Stop <==> action == WorkerAction::Stop
            &&& request is Recover <==> action == WorkerAction::Recover
            &&& request is Context <==> action == WorkerAction::Context
            &&& !(request is Page)
            &&& !(request is Retain)
        }),
{
}

/// Different actions on one worker never make the same request, whatever is written in
/// the fields.
pub proof fn actions_are_told_apart(
    one: WorkerAction,
    other: WorkerAction,
    worker: WorkerSummary,
    request_id: String,
    text: String,
    operation: String,
    review_unknown: bool,
)
    requires
        request_of(one, worker, request_id, text, operation, review_unknown) == request_of(
            other,
            worker,
            request_id,
            text,
            operation,
            review_unknown,
        ),
    ensures
        one == other,
{
}

/// What the user wrote goes with the action that it is for: a follow-up carries its
/// text and its id, a context its operation, and a recovery whether the unknown was
/// reviewed.
pub proof fn actions_carry_what_was_written(
    action: WorkerAction,
    worker: WorkerSummary,
    request_id: String,
    text: String,
    operation: String,
    review_unknown: bool,
)
    ensures
        match request_of(action, worker, request_id, text, operation, review_unknown) {
            WorkerRequest::FollowUp { request_id: named, text: said, .. } => named == request_id
                && said == text,
            WorkerRequest::Context { operation: asked, .. } => asked == operation,
            WorkerRequest::Recover { review_unknown: reviewed, .. } => reviewed == review_unknown,
            _ => true,
        },
{
}

/// A page that comes in keeps the selected worker selected where it is still there,
/// at the revision that the page shows, and selects none where it is gone.
pub proof fn pages_keep_the_selection(before: WorkerView, rows: Vec<WorkerSummary>, after: WorkerView)
    requires
        takes_result(before, WorkerResult::Page(rows), after),
    ensures
        after.rows == rows,
        before.selected is None ==> after.selected is None,
        before.selected matches Some(chosen) ==> match after.selected {
            Some(worker) => worker.id@ == chosen.id@ && rows@.contains(worker),
            None => forall|i: int| 0 <= i < rows@.len() ==> (#[trigger] rows@[i]).id@ != chosen.id@,
        },
{
    if let Some(chosen) = before.selected {
        workers_are_found_by_id(rows@, chosen.id@);
    }
}

proof fn workers_are_found_by_id(rows: Seq<WorkerSummary>, id: Seq<char>)
    ensures
        match worker_of(rows, id) {
            Some(worker) => worker.id@ == id && rows.contains(worker),
            None => forall|i: int| 0 <= i < rows.len() ==> (#[trigger] rows[i]).id@ != id,
        },
    decreases rows.len(),
{
    if rows.len() > 0 {
        if rows[0].id@ == id {
            assert(rows.contains(rows[0]));
        } else {
            let rest = rows.drop_first();
            workers_are_found_by_id(rest, id);
            match worker_of(rest, id) {
                Some(worker) => {
                    let at = rest.index_of(worker);
                    assert(rows[at + 1] == worker);
                },
                None => {
                    assert forall|i: int| 0 <= i < rows.len() implies (#[trigger] rows[i]).id@
                        != id by {
                        if i > 0 {
                            assert(rest[i - 1] == rows[i]);
                        }
                    }
                },
            }
        }
    }
}

/// A failure or a detail that comes in loses nothing: the rows and the selected worker
/// stay, so that it can be tried again.
pub proof fn failures_lose_nothing(before: WorkerView, result: WorkerResult, after: WorkerView)
    requires
        takes_result(before, result, after),
        result is Failed || result is Detail,
    ensures
        after.rows == before.rows,
        after.selected == before.selected,
        after.authorize == before.authorize,
        after.review_unknown == before.review_unknown,
        !after.busy,
        result matches WorkerResult::Failed(message) ==> after.status == message && after.detail
            == before.detail,
        result matches WorkerResult::Detail(detail) ==> after.detail == detail,
{
}

/// While something is done nothing else can be begun, and once nothing is done it can
/// be refreshed.
pub proof fn controls_wait_for_the_work(view: WorkerView)
    ensures
        view.busy <==> controls_of(view).interrupt,
        view.busy ==> {
            &&& !controls_of(view).refresh
            &&& !controls_of(view).next_page
            &&& !controls_of(view).fields
            &&& !controls_of(view).actions
            &&& !controls_of(view).retain
        },
        !view.busy ==> controls_of(view).refresh && controls_of(view).fields,
        controls_of(view).actions <==> !view.busy && view.selected is Some,
        controls_of(view).retain <==> !view.busy && view.authorize,
        controls_of(view).next_page ==> view.rows@.len() > 0,
{
}

/// Acting on a worker asks for what the action says, of the worker that is selected and at
/// the revision that was looked at, with what was written for it. Nothing is asked where
/// none is selected or where something is under way, and nothing changes then.
pub proof fn acting_requests_the_action(
    view: &mut WorkerView,
    action: WorkerAction,
    request_id: &str,
    text: String,
    operation: String,
    request: Option<WorkerRequest>,
)
    requires
        call_ensures(WorkerView::act, (view, action, request_id, text, operation), request),
    ensures
        request is Some <==> old(view).selected is Some && !old(view).busy,
        request is None ==> *final(view) == *old(view),
        request is Some ==> final(view).busy && final(view).selected == old(view).selected
            && final(view).rows == old(view).rows,
        request matches Some(made) ==> {
            let chosen = old(view).selected->0;
            match made {
                WorkerRequest::Inspect { id } => action == WorkerAction::Inspect && id == chosen.id,
                WorkerRequest::Run { id, revision } => action == WorkerAction::Run && id == chosen.id
                    && revision == chosen.revision,
                WorkerRequest::FollowUp { id, revision, request_id: named, text: said } => {
                    &&& action == WorkerAction::FollowUp
                    &&& id == chosen.id
                    &&& revision == chosen.revision
                    &&& named@ == trimmed(request_id@)
                    &&& said == text
                },
                WorkerRequest::Drain { id, revision } => action == WorkerAction::Drain && id
                    == chosen.id && revision == chosen.revision,
                WorkerRequest::Stop { id, revision } => action == WorkerAction::Stop && id
                    == chosen.id && revision == chosen.revision,
                WorkerRequest::Recover { id, revision, review_unknown } => {
                    &&& action == WorkerAction::Recover
                    &&& id == chosen.id
                    &&& revision == chosen.revision
                    &&& review_unknown == old(view).review_unknown
                },
                WorkerRequest::Context { id, revision, operation: asked } => {
                    &&& action == WorkerAction::Context
                    &&& id == chosen.id
                    &&& revision == chosen.revision
                    &&& asked == operation
                },
                WorkerRequest::Page { .. } => false,
                WorkerRequest::Retain { .. } => false,
            }
        },
{
}

/// The next page goes on behind the last worker that is shown, and the first page behind
/// none. Only one request is under way at a time.
pub proof fn pages_are_asked_for_in_turn(
    view: &mut WorkerView,
    next: bool,
    request: Option<WorkerRequest>,
)
    requires
        call_ensures(WorkerView::refresh, (view, next), request),
    ensures
        request is Some <==> !old(view).busy,
        request is None ==> *final(view) == *old(view),
        request is Some ==> final(view).busy && final(view).rows == old(view).rows,
        request matches Some(made) ==> {
            &&& made matches WorkerRequest::Page { after }
            &&& !next ==> after is None
            &&& next && old(view).rows@.len() == 0 ==> after is None
            &&& next && old(view).rows@.len() > 0 ==> after == Some(
                old(view).rows@[old(view).rows@.len() - 1].id,
            )
        },
{
}

/// A child is retained only where that was authorized and nothing is under way, and as it
/// was written down: its goal letter for letter, and its names without the white space
/// around them.
pub proof fn children_are_retained_as_written(
    view: &mut WorkerView,
    session: &str,
    agent: &str,
    goal: String,
    expires: &str,
    evidence: &str,
    request: Option<WorkerRequest>,
)
    requires
        call_ensures(
            WorkerView::retain,
            (view, session, agent, goal, expires, evidence),
            request,
        ),
    ensures
        request is Some <==> old(view).authorize && !old(view).busy,
        request is None ==> *final(view) == *old(view),
        request matches Some(made) ==> {
            &&& made matches WorkerRequest::Retain {
                session: into,
                agent: who,
                goal: what,
                expires: until,
                evidence: named,
            }
            &&& into@ == trimmed(session@)
            &&& who@ == trimmed(agent@)
            &&& what == goal
            &&& until@ == trimmed(expires@)
            &&& views(named@) == spaced_words(evidence@)
            &&& final(view).busy
        },
{
}

/// The default is restored only after it was asked for, and the question can be put away:
/// asking and putting away change nothing else, and a failure leaves what is shown of the
/// default as it was.
pub proof fn defaults_are_restored_when_asked(
    asking: &mut PreferencesView,
    resetting: &mut PreferencesView,
    started: bool,
    ending: &mut PreferencesView,
    result: Result<(PreferencesReceipt, bool), String>,
)
    requires
        call_ensures(PreferencesView::ask_reset, (asking,), ()),
        call_ensures(PreferencesView::reset, (resetting,), started),
        call_ensures(PreferencesView::finish, (ending, result), ()),
    ensures
        !old(asking).busy && !old(asking).built_in ==> final(asking).confirm_reset,
        old(asking).busy || old(asking).built_in ==> *final(asking) == *old(asking),
        final(asking).busy == old(asking).busy,
        started <==> !old(resetting).busy,
        started ==> final(resetting).busy && !final(resetting).confirm_reset,
        started ==> final(resetting).error is None,
        final(resetting).built_in == old(resetting).built_in,
        !final(ending).busy,
        result matches Ok((receipt, built_in)) ==> final(ending).receipt == Some(receipt) && final(ending).built_in == built_in,
        result matches Err(message) ==> {
            &&& final(ending).error == Some(message)
            &&& final(ending).built_in == old(ending).built_in
            &&& final(ending).receipt == old(ending).receipt
        },
{
}

/// What is said of a worker begins with its goal and names its state, its route, how much
/// waits for it and its revision.
pub proof fn workers_are_told(worker: WorkerSummary)
    ensures
        occurs(worker_text(worker), " · "@ + worker.state@),
        occurs(worker_text(worker), " · "@ + worker.route@),
        occurs(worker_text(worker), " · "@ + decimal(worker.queued as nat)),
        occurs(worker_text(worker), " queued · revision "@ + decimal(worker.revision as nat)),
        worker.goal@.is_prefix_of(worker_text(worker)),
{
    let whole = worker_text(worker);
    let t1 = worker.goal@ + " · "@;
    let t2 = t1 + worker.state@;
    let t3 = t2 + " · "@;
    let t4 = t3 + worker.route@;
    let t5 = t4 + " · "@;
    let t6 = t5 + decimal(worker.queued as nat);
    let t7 = t6 + " queued · revision "@;
    let t8 = t7 + decimal(worker.revision as nat);
    assert(t8.is_prefix_of(whole));
    beginnings_begin_alike(t7, decimal(worker.revision as nat), whole);
    beginnings_begin_alike(t6, " queued · revision "@, whole);
    beginnings_begin_alike(t5, decimal(worker.queued as nat), whole);
    beginnings_begin_alike(t4, " · "@, whole);
    beginnings_begin_alike(t3, worker.route@, whole);
    beginnings_begin_alike(t2, " · "@, whole);
    beginnings_begin_alike(t1, worker.state@, whole);
    beginnings_begin_alike(worker.goal@, " · "@, whole);
    ends_occur(worker.goal@, " · "@, worker.state@);
    beginnings_are_held(t2, whole, " · "@ + worker.state@);
    ends_occur(t2, " · "@, worker.route@);
    beginnings_are_held(t4, whole, " · "@ + worker.route@);
    ends_occur(t4, " · "@, decimal(worker.queued as nat));
    beginnings_are_held(t6, whole, " · "@ + decimal(worker.queued as nat));
    ends_occur(t6, " queued · revision "@, decimal(worker.revision as nat));
    beginnings_are_held(t8, whole, " queued · revision "@ + decimal(worker.revision as nat));
}

}
