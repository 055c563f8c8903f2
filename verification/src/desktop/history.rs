//! Reading saved pages of a conversation, beside the live one.

use crate::text::{copy_option, decimal, decimal_text, text_eq};
use vstd::prelude::*;
use vstd::string::*;

verus! {

/// A message of a saved page.
#[derive(Debug, PartialEq, Eq)]
pub struct SavedMessage {
    pub id: String,
    pub text: String,
}

/// What can be done with a shown message.
#[derive(Clone, Copy, PartialEq, Eq, Structural, Debug)]
pub struct RowActions {
    pub copy: bool,
    pub edit: bool,
    pub retry: bool,
    pub regenerate: bool,
}

/// A message as it is shown.
#[derive(Debug, PartialEq, Eq)]
pub struct HistoryRow {
    pub id: String,
    pub text: String,
    pub actions: RowActions,
}

/// A saved page, with the places from which its neighbours are read.
#[derive(Debug, PartialEq, Eq)]
pub struct HistoryPage {
    pub session_id: String,
    pub messages: Vec<SavedMessage>,
    pub start: usize,
    pub end: usize,
    pub total: usize,
    pub older: Option<String>,
    pub newer: Option<String>,
}

/// A page that is asked for.
#[derive(Debug, PartialEq, Eq)]
pub enum HistoryRequest {
    Latest { before: Option<usize> },
    Older(String),
    Newer(String),
}

/// A page that was read, as it is shown.
#[derive(Debug, PartialEq, Eq)]
pub struct SavedPage {
    pub page: HistoryPage,
    pub rows: Vec<HistoryRow>,
}

/// What is looked at.
#[derive(Debug, PartialEq, Eq)]
pub enum HistoryMode {
    Live,
    Browsing { saved: Option<SavedPage>, loading: bool, error: Option<String> },
}

/// What is looked at of a conversation.
#[derive(Debug, PartialEq, Eq)]
pub struct HistoryView {
    pub session: String,
    pub start: usize,
    pub total: usize,
    pub generation: u64,
    pub mode: HistoryMode,
}

/// A saved message can be copied, and nothing else is done with it.
pub open spec fn copy_only() -> RowActions {
    RowActions { copy: true, edit: false, retry: false, regenerate: false }
}

/// Whether rows show the messages of a page.
pub open spec fn shows(messages: Seq<SavedMessage>, rows: Seq<HistoryRow>) -> bool {
    &&& rows.len() == messages.len()
    &&& forall|i: int|
        0 <= i < messages.len() ==> (#[trigger] rows[i]).id == messages[i].id && rows[i].text
            == messages[i].text && rows[i].actions == copy_only()
}

/// The rows of a page's messages.
pub fn saved_rows(messages: &Vec<SavedMessage>) -> (rows: Vec<HistoryRow>)
    ensures
        shows(messages@, rows@),
{
    let mut rows: Vec<HistoryRow> = Vec::new();
    let mut i: usize = 0;
    while i < messages.len()
        invariant
            i <= messages@.len(),
            shows(messages@.take(i as int), rows@),
        decreases messages@.len() - i,
    {
        rows.push(
            HistoryRow {
                id: messages[i].id.clone(),
                text: messages[i].text.clone(),
                actions: RowActions { copy: true, edit: false, retry: false, regenerate: false },
            },
        );
        i += 1;
    }
    assert(messages@.take(i as int) =~= messages@);
    rows
}

/// The number after a generation, which starts over at the largest one.
pub open spec fn next_generation(generation: u64) -> u64 {
    if generation == u64::MAX {
        0
    } else {
        (generation + 1) as u64
    }
}

fn after(generation: u64) -> (next: u64)
    ensures
        next == next_generation(generation),
{
    if generation == u64::MAX {
        0
    } else {
        generation + 1
    }
}

pub const OTHER_CONVERSATION: &'static str = "History response belongs to another Conversation. Return to Live and retry.";

pub const LOADING: &'static str = "Loading saved history… Sending returns to Live.";

pub const MANAGED_HISTORY: &'static str = "Managed history stays vendor-owned; Xana saved paging is unavailable.";

/// The page that is held, if one is.
pub open spec fn held_page(mode: HistoryMode) -> Option<SavedPage> {
    match mode {
        HistoryMode::Live => None,
        HistoryMode::Browsing { saved, .. } => saved,
    }
}

/// Whether a page is being read.
pub open spec fn is_loading(mode: HistoryMode) -> bool {
    mode matches HistoryMode::Browsing { loading, .. } && loading
}

/// The older page that can be asked for.
pub open spec fn older_of(view: HistoryView, desktop_omitted: bool) -> Option<HistoryRequest> {
    if is_loading(view.mode) {
        None
    } else {
        match held_page(view.mode) {
            Some(saved) => match saved.page.older {
                Some(cursor) => Some(HistoryRequest::Older(cursor)),
                None => None,
            },
            None => if view.start > 0 {
                Some(HistoryRequest::Latest { before: Some(view.start) })
            } else if desktop_omitted {
                Some(HistoryRequest::Latest { before: None })
            } else {
                None
            },
        }
    }
}

/// The newer page that can be asked for.
pub open spec fn newer_of(view: HistoryView) -> Option<HistoryRequest> {
    if is_loading(view.mode) {
        None
    } else {
        match held_page(view.mode) {
            Some(saved) => match saved.page.newer {
                Some(cursor) => Some(HistoryRequest::Newer(cursor)),
                None => None,
            },
            None => None,
        }
    }
}

/// Whether a page that arrives is the one that is waited for.
pub open spec fn awaited(view: HistoryView, session: Seq<char>, generation: u64) -> bool {
    view.session@ == session && view.generation == generation && is_loading(view.mode)
}

/// Whether a mode is what an awaited page leads to. A page that fails leaves the
/// one that was there.
pub open spec fn receives(
    before: HistoryMode,
    session: Seq<char>,
    result: Result<HistoryPage, String>,
    after: HistoryMode,
) -> bool {
    &&& after matches HistoryMode::Browsing { saved, loading, error }
    &&& !loading
    &&& match result {
        Ok(page) => if page.session_id@ == session {
            &&& saved matches Some(held)
            &&& held.page == page
            &&& shows(page.messages@, held.rows@)
            &&& error is None
        } else {
            &&& saved == held_page(before)
            &&& error matches Some(text)
            &&& text@ == OTHER_CONVERSATION@
        },
        Err(reason) => {
            &&& saved == held_page(before)
            &&& error matches Some(text)
            &&& text@ == "Could not read saved history: "@ + reason@
                + ". Return to Live and retry."@
        },
    }
}

/// The first of two numbers, where it is no larger.
pub open spec fn lesser(one: int, two: int) -> int {
    if one <= two {
        one
    } else {
        two
    }
}

/// What is said of what is looked at.
pub open spec fn label_of(view: HistoryView) -> Seq<char> {
    if is_loading(view.mode) {
        LOADING@
    } else {
        match view.mode {
            HistoryMode::Browsing { error: Some(reason), .. } => reason@,
            mode => match held_page(mode) {
                Some(saved) => "Saved entries "@ + decimal(
                    lesser(
                        if saved.page.start == usize::MAX {
                            usize::MAX as int
                        } else {
                            saved.page.start + 1
                        },
                        saved.page.end as int,
                    ) as nat,
                ) + "–"@ + decimal(saved.page.end as nat) + " of "@ + decimal(
                    saved.page.total as nat,
                ) + " · read-only · live total "@ + decimal(view.total as nat),
                None => "Live · "@ + decimal(view.total as nat) + " saved entries"@,
            },
        }
    }
}

impl HistoryView {
    /// A live view.
    pub fn new(session: String, start: usize, total: usize) -> (view: HistoryView)
        ensures
            view == (HistoryView { session, start, total, generation: 0, mode: HistoryMode::Live }),
    {
        HistoryView { session, start, total, generation: 0, mode: HistoryMode::Live }
    }

    /// Turns to the live end of another conversation.
    pub fn reset(&mut self, session: String, start: usize, total: usize)
        ensures
            *final(self) == (HistoryView {
                session,
                start,
                total,
                generation: next_generation(old(self).generation),
                mode: HistoryMode::Live,
            }),
    {
        self.live();
        self.session = session;
        self.observe(start, total);
    }

    /// Notes how much is saved, and where the live part begins.
    pub fn observe(&mut self, start: usize, total: usize)
        ensures
            *final(self) == (HistoryView { start, total, ..*old(self) }),
    {
        self.start = start;
        self.total = total;
    }

    /// Turns to the live end of a conversation that was cleared.
    pub fn clear(&mut self, start: usize, total: usize)
        ensures
            *final(self) == (HistoryView {
                start,
                total,
                generation: next_generation(old(self).generation),
                mode: HistoryMode::Live,
                ..*old(self)
            }),
    {
        self.live();
        self.observe(start, total);
    }

    /// Whether saved pages are looked at.
    pub fn is_browsing(&self) -> (yes: bool)
        ensures
            yes == !(self.mode is Live),
    {
        match &self.mode {
            HistoryMode::Live => false,
            _ => true,
        }
    }

    /// Turns to the live end.
    pub fn live(&mut self)
        ensures
            *final(self) == (HistoryView {
                generation: next_generation(old(self).generation),
                mode: HistoryMode::Live,
                ..*old(self)
            }),
    {
        self.generation = after(self.generation);
        self.mode = HistoryMode::Live;
    }

    /// Whether a page is being read.
    pub fn loading(&self) -> (yes: bool)
        ensures
            yes == is_loading(self.mode),
    {
        match &self.mode {
            HistoryMode::Browsing { loading, .. } => *loading,
            HistoryMode::Live => false,
        }
    }

    /// The page that is held.
    pub fn saved(&self) -> (page: Option<&SavedPage>)
        ensures
            match page {
                Some(saved) => held_page(self.mode) == Some(*saved),
                None => held_page(self.mode) is None,
            },
    {
        match &self.mode {
            HistoryMode::Browsing { saved, .. } => match saved {
                Some(page) => Some(page),
                None => None,
            },
            HistoryMode::Live => None,
        }
    }

    /// The rows of the page that is held.
    pub fn messages(&self) -> (rows: Option<&Vec<HistoryRow>>)
        ensures
            match rows {
                Some(rows) => held_page(self.mode) matches Some(saved) && saved.rows == *rows,
                None => held_page(self.mode) is None,
            },
    {
        match self.saved() {
            Some(saved) => Some(&saved.rows),
            None => None,
        }
    }

    /// The older page that can be asked for. On a saved page only its own place
    /// decides; rows that the window alone has dropped open the saved end.
    pub fn older(&self, desktop_omitted: bool) -> (request: Option<HistoryRequest>)
        ensures
            request == older_of(*self, desktop_omitted),
    {
        if self.loading() {
            return None;
        }
        match self.saved() {
            Some(saved) => match copy_option(&saved.page.older) {
                Some(cursor) => Some(HistoryRequest::Older(cursor)),
                None => None,
            },
            None => if self.start > 0 {
                Some(HistoryRequest::Latest { before: Some(self.start) })
            } else if desktop_omitted {
                Some(HistoryRequest::Latest { before: None })
            } else {
                None
            },
        }
    }

    /// The newer page that can be asked for.
    pub fn newer(&self) -> (request: Option<HistoryRequest>)
        ensures
            request == newer_of(*self),
    {
        if self.loading() {
            return None;
        }
        match self.saved() {
            Some(saved) => match copy_option(&saved.page.newer) {
                Some(cursor) => Some(HistoryRequest::Newer(cursor)),
                None => None,
            },
            None => None,
        }
    }

    /// Begins to read a page, and says by what it will be known when it arrives.
    pub fn begin(&mut self) -> (token: (String, u64))
        ensures
            token.0 == old(self).session,
            token.1 == next_generation(old(self).generation),
            *final(self) == (HistoryView {
                generation: token.1,
                mode: HistoryMode::Browsing {
                    saved: held_page(old(self).mode),
                    loading: true,
                    error: None,
                },
                ..*old(self)
            }),
    {
        self.generation = after(self.generation);
        let mut prior = HistoryMode::Live;
        core::mem::swap(&mut self.mode, &mut prior);
        let saved = match prior {
            HistoryMode::Browsing { saved, .. } => saved,
            HistoryMode::Live => None,
        };
        self.mode = HistoryMode::Browsing { saved, loading: true, error: None };
        (self.session.clone(), self.generation)
    }

    /// Takes a page that arrives, where it is the one that is waited for.
    pub fn finish(
        &mut self,
        session: &str,
        generation: u64,
        result: Result<HistoryPage, String>,
    ) -> (taken: bool)
        ensures
            taken == awaited(*old(self), session@, generation),
            !taken ==> *final(self) == *old(self),
            taken ==> {
                &&& *final(self) == (HistoryView { mode: final(self).mode, ..*old(self) })
                &&& receives(old(self).mode, session@, result, final(self).mode)
            },
    {
        if !text_eq(self.session.as_str(), session) || self.generation != generation
            || !self.loading() {
            return false;
        }
        let mut prior = HistoryMode::Live;
        core::mem::swap(&mut self.mode, &mut prior);
        let saved = match prior {
            HistoryMode::Browsing { saved, .. } => saved,
            HistoryMode::Live => None,
        };
        match result {
            Ok(page) => {
                if text_eq(page.session_id.as_str(), session) {
                    let rows = saved_rows(&page.messages);
                    self.mode = HistoryMode::Browsing {
                        saved: Some(SavedPage { page, rows }),
                        loading: false,
                        error: None,
                    };
                } else {
                    self.mode = HistoryMode::Browsing {
                        saved,
                        loading: false,
                        error: Some(OTHER_CONVERSATION.to_owned()),
                    };
                }
            },
            Err(reason) => {
                let mut text = "Could not read saved history: ".to_owned();
                text.append(reason.as_str());
                text.append(". Return to Live and retry.");
                self.mode = HistoryMode::Browsing { saved, loading: false, error: Some(text) };
            },
        }
        true
    }

    /// What is said of what is looked at.
    pub fn label(&self) -> (text: String)
        ensures
            text@ == label_of(*self),
    {
        if self.loading() {
            return LOADING.to_owned();
        }
        match &self.mode {
            HistoryMode::Browsing { error: Some(reason), .. } => {
                return reason.clone();
            },
            _ => {},
        }
        match self.saved() {
            Some(saved) => {
                let first: usize = saved.page.start.saturating_add(1);
                let shown: usize = if first <= saved.page.end {
                    first
                } else {
                    saved.page.end
                };
                let mut text = "Saved entries ".to_owned();
                text.append(decimal_text(shown as u64).as_str());
                text.append("–");
                text.append(decimal_text(saved.page.end as u64).as_str());
                text.append(" of ");
                text.append(decimal_text(saved.page.total as u64).as_str());
                text.append(" · read-only · live total ");
                text.append(decimal_text(self.total as u64).as_str());
                text
            },
            None => {
                let mut text = "Live · ".to_owned();
                text.append(decimal_text(self.total as u64).as_str());
                text.append(" saved entries");
                text
            },
        }
    }
}

/// What the controls of a conversation's history offer.
#[derive(Debug, PartialEq, Eq)]
pub struct HistoryControls {
    pub older: bool,
    pub newer: bool,
    pub live: bool,
    pub label: String,
}

/// What the controls of a conversation's history offer: nothing is paged of a
/// conversation that another runtime keeps.
pub fn history_controls(view: &HistoryView, native: bool, desktop_omitted: bool) -> (controls:
    HistoryControls)
    ensures
        controls.older == (native && older_of(*view, desktop_omitted) is Some),
        controls.newer == (native && newer_of(*view) is Some),
        controls.live == !(view.mode is Live),
        controls.label@ == (if native {
            label_of(*view)
        } else {
            MANAGED_HISTORY@
        }),
{
    HistoryControls {
        older: native && view.older(desktop_omitted).is_some(),
        newer: native && view.newer().is_some(),
        live: view.is_browsing(),
        label: if native {
            view.label()
        } else {
            MANAGED_HISTORY.to_owned()
        },
    }
}

/// A page that was asked for before the view turned away is not taken: turning
/// to the live end, to another conversation, clearing, or asking again makes it
/// late.
pub proof fn late_pages_are_not_taken(view: HistoryView, next: HistoryView, session: Seq<char>)
    requires
        next.generation == next_generation(view.generation),
    ensures
        !awaited(next, session, view.generation),
{
}

/// What is saved while a page is looked at does not disturb it: only the live
/// end moves.
pub proof fn pages_survive_appends(view: HistoryView, start: usize, total: usize)
    ensures
        held_page((HistoryView { start, total, ..view }).mode) == held_page(view.mode),
        !(view.mode is Live) && held_page(view.mode) is Some ==> older_of(
            (HistoryView { start, total, ..view }),
            true,
        ) == older_of(view, false),
{
}

/// A saved message is shown as it was said, and can be copied only: what was said is
/// not changed, sent again or asked for again from a saved page.
pub proof fn saved_messages_are_read_only(messages: Seq<SavedMessage>, rows: Seq<HistoryRow>)
    requires
        shows(messages, rows),
    ensures
        rows.len() == messages.len(),
        forall|i: int|
            0 <= i < rows.len() ==> {
                &&& (#[trigger] rows[i]).text == messages[i].text
                &&& rows[i].id == messages[i].id
                &&& rows[i].actions.copy
                &&& !rows[i].actions.edit
                &&& !rows[i].actions.retry
                &&& !rows[i].actions.regenerate
            },
{
}

/// Pages are read in the direction that is asked for: an older page from where the held
/// page says that older ones are, or from where the live part begins; a newer page from
/// where the held page says that newer ones are. Nothing is asked for while a page is
/// being read.
pub proof fn pages_are_read_in_their_direction(view: HistoryView, omitted: bool)
    ensures
        view.mode matches HistoryMode::Browsing { loading: true, .. } ==> older_of(view, omitted)
            is None && newer_of(view) is None,
        older_of(view, omitted) matches Some(request) ==> match request {
            HistoryRequest::Older(cursor) => view.mode matches HistoryMode::Browsing {
                saved: Some(held),
                ..
            } && held.page.older == Some(cursor),
            HistoryRequest::Latest { before: Some(at) } => at == view.start && at > 0,
            HistoryRequest::Latest { before: None } => view.start == 0 && omitted,
            HistoryRequest::Newer(_) => false,
        },
        newer_of(view) matches Some(request) ==> (request matches HistoryRequest::Newer(cursor)
            && view.mode matches HistoryMode::Browsing { saved: Some(held), .. }
            && held.page.newer == Some(cursor)),
        view.mode is Live && view.start > 0 ==> older_of(view, omitted) == Some(
            HistoryRequest::Latest { before: Some(view.start) },
        ),
        view.mode is Live ==> newer_of(view) is None,
{
}

/// A page that is read is shown whole where it belongs to the conversation; another
/// one's, or a failure, leaves what was shown and says so.
pub proof fn pages_belong_to_their_conversation(
    before: HistoryMode,
    session: Seq<char>,
    result: Result<HistoryPage, String>,
    after: HistoryMode,
)
    requires
        receives(before, session, result, after),
    ensures
        after matches HistoryMode::Browsing { saved, loading, error } && !loading && match result {
            Ok(page) => if page.session_id@ == session {
                error is None && (saved matches Some(held) && held.page == page)
            } else {
                error is Some && saved == held_page(before)
            },
            Err(_) => error is Some && saved == held_page(before),
        },
{
}

/// A page is asked for under a number of its own, keeping the page that is shown meanwhile;
/// what arrives under that number, for the same conversation, is taken, and nothing else.
pub proof fn asked_pages_are_taken(
    beginning: &mut HistoryView,
    token: (String, u64),
    ending: &mut HistoryView,
    session: &str,
    generation: u64,
    result: Result<HistoryPage, String>,
    taken: bool,
)
    requires
        call_ensures(HistoryView::begin, (beginning,), token),
        call_ensures(HistoryView::finish, (ending, session, generation, result), taken),
    ensures
        token.0@ == old(beginning).session@,
        token.1 == final(beginning).generation,
        token.1 != old(beginning).generation,
        held_page(final(beginning).mode) == held_page(old(beginning).mode),
        awaited(*final(beginning), token.0@, token.1),
        taken <==> awaited(*old(ending), session@, generation),
        !taken ==> *final(ending) == *old(ending),
        final(ending).session == old(ending).session,
        final(ending).generation == old(ending).generation,
{
}

/// A history is paged only where it is kept here: nothing older or newer is offered of a
/// conversation that another runtime keeps, and the live end is offered to who left it.
pub proof fn controls_offer_what_is_there(
    view: &HistoryView,
    native: bool,
    omitted: bool,
    controls: HistoryControls,
)
    requires
        call_ensures(history_controls, (view, native, omitted), controls),
    ensures
        !native ==> !controls.older && !controls.newer,
        native ==> (controls.older <==> older_of(*view, omitted) is Some),
        native ==> (controls.newer <==> newer_of(*view) is Some),
        controls.live <==> !(view.mode is Live),
{
}

}
