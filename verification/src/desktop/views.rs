//! What the window draws: the panels, the dialogs and the frame around them, as
//! texts, colors and what can be pressed.

use crate::desktop::activity::{
    approval_question, asks_once, attachment_detail, attachment_text, canvas_of, completion_summary,
    execution_summary, execution_text, humanize_semantic_code, humanized, ledger_text, left_status,
    owner_label, owner_text, prompt_summary, queue_note, queue_text, receipt_text, receipt_tone,
    right_status, runtime_status, shown_canvas, shown_panel, state_label, state_name, state_tone,
    status_bar, ActivityOwner, ActivityState, ApprovalQuestion, Canvas, CompletionReceipt,
    ExecutionFacts, Panel, RuntimeStatus, Tone,
};
use crate::desktop::models::{
    efforts_of, offers_models, prompt_models, reasoning_choices, ModelOption, PromptModel,
};
use crate::desktop::navigation::{
    conversation_item_id, holder_of, menu_entries, menu_label, move_targets, name_of,
    navigation_menu, positions, project_title, shows_snapshot, sidebar_sections, targets_of,
    NavigationDialog, NavigationMenu, NavigationSnapshot, ProjectNode, SidebarSections,
    CONVERSATION_PREFIX,
};
use crate::desktop::retained::Submission;
use crate::desktop::workbench::{Suspension, Workbench};
use crate::text::{copy_option, decimal, occurs, option_view, parts_occur, text_eq};
use vstd::prelude::*;
use vstd::string::*;

verus! {

/// A piece of work.
#[derive(Debug, PartialEq, Eq)]
pub struct ActivityItem {
    pub owner: ActivityOwner,
    pub state: ActivityState,
    pub code: String,
    /// Whether it is part of another one.
    pub child: bool,
    pub detail: Option<String>,
}

/// A piece of work as it is drawn.
#[derive(Debug, PartialEq, Eq)]
pub struct ItemCard {
    pub title: String,
    pub owner: String,
    pub state: &'static str,
    pub tone: Tone,
    pub indented: bool,
    pub detail: Option<String>,
}

/// Whether a card is that of a piece of work.
pub open spec fn draws_item(item: ActivityItem, card: ItemCard) -> bool {
    &&& card.title@ == humanized(item.code@)
    &&& card.owner@ == owner_text(item.owner)
    &&& card.state@ == state_name(item.state)
    &&& card.tone == state_tone(item.state)
    &&& card.indented == item.child
    &&& card.detail == item.detail
}

/// Draws a piece of work.
pub fn render_activity_item(item: &ActivityItem) -> (card: ItemCard)
    ensures
        draws_item(*item, card),
{
    let (state, tone) = state_label(item.state);
    ItemCard {
        title: humanize_semantic_code(item.code.as_str()),
        owner: owner_label(&item.owner),
        state,
        tone,
        indented: item.child,
        detail: copy_option(&item.detail),
    }
}

/// A permission that is asked for.
#[derive(Debug, PartialEq, Eq)]
pub struct Approval {
    pub tool: String,
    pub effect: String,
    pub scope: String,
}

/// What is known of what goes on in a conversation. `rounds` is there where a run
/// used up its rounds.
#[derive(Debug, PartialEq, Eq)]
pub struct ActivityFacts {
    pub failed: bool,
    pub running: bool,
    pub latest: String,
    pub rounds: Option<Suspension>,
    pub profile: Option<String>,
    pub connection: String,
    pub executions: Vec<ExecutionFacts>,
    pub used: Option<u64>,
    pub budget: Option<u64>,
    pub unavailable: Option<String>,
    pub completions: Vec<CompletionReceipt>,
    pub approvals: Vec<Approval>,
    pub items: Vec<ActivityItem>,
}

/// The state of the runtime as it is drawn.
#[derive(Debug, PartialEq, Eq)]
pub enum StatusLine {
    Badge { label: &'static str, tone: Tone },
    Loading { label: String },
}

/// The latest run that came to an end, as it is drawn.
#[derive(Debug, PartialEq, Eq)]
pub struct ReceiptCard {
    pub status: String,
    pub tone: Tone,
    pub summary: String,
}

/// What goes on in a conversation, as it is drawn. `rounds` is there where going on
/// and stopping are offered for a run, and says whether going on can be pressed.
#[derive(Debug, PartialEq, Eq)]
pub struct ActivityPanel {
    pub status: StatusLine,
    pub latest: String,
    pub rounds: Option<Suspension>,
    pub profile: String,
    pub execution: String,
    pub prompt: String,
    pub receipt: Option<ReceiptCard>,
    pub approvals: Vec<ApprovalQuestion>,
    pub items: Vec<ItemCard>,
    pub note: Option<&'static str>,
}

pub const NO_ACTIVITY: &'static str = "No detailed Activity has been recorded for this Conversation yet.";

/// Whether a line is that of the runtime's state: a failure comes before work.
pub open spec fn draws_status(facts: ActivityFacts, status: StatusLine) -> bool {
    if facts.failed {
        status matches StatusLine::Badge { label, tone } && label@ == "Needs attention"@ && tone
            == Tone::Danger
    } else if facts.running {
        status == (StatusLine::Loading { label: facts.latest })
    } else {
        status matches StatusLine::Badge { label, tone } && label@ == "Ready"@ && tone
            == Tone::Success
    }
}

/// Whether a card is that of the latest run that came to an end, if one did.
pub open spec fn draws_receipt(
    completions: Seq<CompletionReceipt>,
    receipt: Option<ReceiptCard>,
) -> bool {
    if completions.len() == 0 {
        receipt is None
    } else {
        &&& receipt matches Some(card)
        &&& card.status == completions.last().status
        &&& card.tone == receipt_tone(completions.last())
        &&& card.summary@ == receipt_text(completions.last())
    }
}

/// The latest execution, if there was one.
pub open spec fn latest_execution(executions: Seq<ExecutionFacts>) -> Option<ExecutionFacts> {
    if executions.len() == 0 {
        None
    } else {
        Some(executions.last())
    }
}

/// Whether questions are those of permissions, one for one.
pub open spec fn draws_approvals(
    approvals: Seq<Approval>,
    questions: Seq<ApprovalQuestion>,
) -> bool {
    &&& questions.len() == approvals.len()
    &&& forall|i: int|
        0 <= i < approvals.len() ==> asks_once(
            (#[trigger] approvals[i]).tool@,
            approvals[i].effect@,
            approvals[i].scope@,
            questions[i],
        )
}

/// Whether cards are those of pieces of work, one for one.
pub open spec fn draws_items(items: Seq<ActivityItem>, cards: Seq<ItemCard>) -> bool {
    &&& cards.len() == items.len()
    &&& forall|i: int| 0 <= i < items.len() ==> draws_item(#[trigger] items[i], cards[i])
}

/// Whether a panel is that of what goes on in a conversation.
pub open spec fn draws_activity(facts: ActivityFacts, panel: ActivityPanel) -> bool {
    &&& draws_status(facts, panel.status)
    &&& panel.latest == facts.latest
    &&& panel.rounds == facts.rounds
    &&& panel.profile@ == "Profile: "@ + (match facts.profile {
        Some(profile) => profile@,
        None => "Unspecified"@,
    })
    &&& panel.execution@ == execution_text(
        latest_execution(facts.executions@),
        facts.connection@,
    )
    &&& panel.prompt@ == ledger_text(facts.used, facts.budget, option_view(facts.unavailable))
    &&& draws_receipt(facts.completions@, panel.receipt)
    &&& draws_approvals(facts.approvals@, panel.approvals@)
    &&& draws_items(facts.items@, panel.items@)
    &&& if facts.approvals@.len() == 0 && facts.items@.len() == 0 {
        panel.note matches Some(note) && note@ == NO_ACTIVITY@
    } else {
        panel.note is None
    }
}

fn render_items(items: &Vec<ActivityItem>) -> (cards: Vec<ItemCard>)
    ensures
        draws_items(items@, cards@),
{
    let mut cards: Vec<ItemCard> = Vec::new();
    let mut i: usize = 0;
    while i < items.len()
        invariant
            i <= items@.len(),
            cards@.len() == i,
            forall|j: int| 0 <= j < i ==> draws_item(#[trigger] items@[j], cards@[j]),
        decreases items@.len() - i,
    {
        cards.push(render_activity_item(&items[i]));
        i += 1;
    }
    cards
}

fn render_approvals(approvals: &Vec<Approval>) -> (questions: Vec<ApprovalQuestion>)
    ensures
        draws_approvals(approvals@, questions@),
{
    let mut questions: Vec<ApprovalQuestion> = Vec::new();
    let mut i: usize = 0;
    while i < approvals.len()
        invariant
            i <= approvals@.len(),
            questions@.len() == i,
            forall|j: int|
                0 <= j < i ==> asks_once(
                    (#[trigger] approvals@[j]).tool@,
                    approvals@[j].effect@,
                    approvals@[j].scope@,
                    questions@[j],
                ),
        decreases approvals@.len() - i,
    {
        let approval = &approvals[i];
        questions.push(
            approval_question(
                approval.tool.as_str(),
                approval.effect.as_str(),
                approval.scope.as_str(),
            ),
        );
        i += 1;
    }
    questions
}

fn render_receipt(completions: &Vec<CompletionReceipt>) -> (receipt: Option<ReceiptCard>)
    ensures
        draws_receipt(completions@, receipt),
{
    if completions.len() == 0 {
        return None;
    }
    let latest = &completions[completions.len() - 1];
    let (summary, tone) = completion_summary(latest);
    Some(ReceiptCard { status: latest.status.clone(), tone, summary })
}

/// Draws what goes on in a conversation.
pub fn render_activity_panel(facts: &ActivityFacts) -> (panel: ActivityPanel)
    ensures
        draws_activity(*facts, panel),
{
    let status = match runtime_status(facts.failed, facts.running) {
        RuntimeStatus::NeedsAttention => StatusLine::Badge {
            label: "Needs attention",
            tone: Tone::Danger,
        },
        RuntimeStatus::Working => StatusLine::Loading { label: facts.latest.clone() },
        RuntimeStatus::Ready => StatusLine::Badge { label: "Ready", tone: Tone::Success },
    };
    let mut profile = "Profile: ".to_owned();
    match &facts.profile {
        Some(name) => profile.append(name.as_str()),
        None => profile.append("Unspecified"),
    }
    let execution = if facts.executions.len() == 0 {
        None
    } else {
        Some(&facts.executions[facts.executions.len() - 1])
    };
    let note = if facts.approvals.len() == 0 && facts.items.len() == 0 {
        Some(NO_ACTIVITY)
    } else {
        None
    };
    ActivityPanel {
        status,
        latest: facts.latest.clone(),
        rounds: match &facts.rounds {
            Some(suspension) => Some(suspension.copy()),
            None => None,
        },
        profile,
        execution: execution_summary(execution, facts.connection.as_str()),
        prompt: prompt_summary(facts.used, facts.budget, &facts.unavailable),
        receipt: render_receipt(&facts.completions),
        approvals: render_approvals(&facts.approvals),
        items: render_items(&facts.items),
        note,
    }
}

/// A tab of a stack of panels.
#[derive(Clone, Copy, PartialEq, Eq, Structural, Debug)]
pub struct Tab {
    pub panel: Panel,
    pub active: bool,
}

/// A stack of panels as it is drawn.
#[derive(Debug, PartialEq, Eq)]
pub struct PanelStack {
    pub shown: Panel,
    pub tabs: Vec<Tab>,
    pub maximize: &'static str,
    pub can_close: bool,
}

/// The panel that a stack shows.
pub open spec fn front(panels: Seq<Panel>, active: nat) -> Panel {
    if active < panels.len() {
        panels[active as int]
    } else {
        Panel::Unavailable
    }
}

/// Draws a stack of panels: each has its tab, that of the one that is shown stands
/// out, and only the panel to write in cannot be closed.
pub fn render_panel_stack(panels: &Vec<Panel>, active: usize, maximized: bool) -> (stack: PanelStack)
    ensures
        stack.shown == front(panels@, active as nat),
        stack.tabs@.len() == panels@.len(),
        forall|i: int|
            0 <= i < panels@.len() ==> #[trigger] stack.tabs@[i] == (Tab {
                panel: panels@[i],
                active: panels@[i] == stack.shown,
            }),
        stack.maximize@ == (if maximized {
            "Restore"@
        } else {
            "Maximize"@
        }),
        stack.can_close == !(stack.shown is Message),
{
    let shown = shown_panel(panels, active);
    let mut tabs: Vec<Tab> = Vec::new();
    let mut i: usize = 0;
    while i < panels.len()
        invariant
            i <= panels@.len(),
            tabs@.len() == i,
            forall|j: int|
                0 <= j < i ==> #[trigger] tabs@[j] == (Tab {
                    panel: panels@[j],
                    active: panels@[j] == shown,
                }),
        decreases panels@.len() - i,
    {
        tabs.push(Tab { panel: panels[i], active: panels[i] == shown });
        i += 1;
    }
    PanelStack {
        shown,
        tabs,
        maximize: if maximized {
            "Restore"
        } else {
            "Maximize"
        },
        can_close: crate::desktop::activity::can_close(shown),
    }
}

/// A message that waits, as it is drawn.
#[derive(Debug, PartialEq, Eq)]
pub struct QueuedRow {
    pub id: String,
    pub text: String,
    pub note: String,
}

/// An effort that can be chosen. None stands for leaving it open.
#[derive(Debug, PartialEq, Eq)]
pub struct EffortButton {
    pub effort: Option<String>,
    pub label: String,
    pub selected: bool,
}

/// The panel to write in, as it is drawn.
#[derive(Debug, PartialEq, Eq)]
pub struct MessagePanel {
    pub queue: Vec<QueuedRow>,
    pub efforts: Option<Vec<EffortButton>>,
}

/// Whether a row is that of a message that waits.
pub open spec fn draws_queued(submission: Submission, row: QueuedRow) -> bool {
    &&& row.id == submission.id
    &&& row.text == submission.text
    &&& row.note@ == queue_text(submission.attachments@.len())
}

/// Whether a button is that of an effort.
pub open spec fn draws_effort(
    effort: Option<Seq<char>>,
    current: Option<Seq<char>>,
    button: EffortButton,
) -> bool {
    &&& option_view(button.effort) == effort
    &&& button.label@ == (match effort {
        Some(text) => text,
        None => "auto"@,
    })
    &&& button.selected == (effort == current)
}

/// Whether buttons are those of efforts, after the one that leaves it open.
pub open spec fn draws_efforts(
    efforts: Seq<String>,
    current: Option<Seq<char>>,
    buttons: Seq<EffortButton>,
) -> bool {
    &&& buttons.len() == efforts.len() + 1
    &&& draws_effort(None, current, buttons[0])
    &&& forall|i: int|
        0 <= i < efforts.len() ==> draws_effort(
            Some((#[trigger] efforts[i])@),
            current,
            buttons[i + 1],
        )
}

fn effort_buttons(efforts: &Vec<String>, current: &Option<String>) -> (buttons: Vec<EffortButton>)
    ensures
        draws_efforts(efforts@, option_view(*current), buttons@),
{
    let mut buttons: Vec<EffortButton> = Vec::new();
    buttons.push(
        EffortButton { effort: None, label: "auto".to_owned(), selected: current.is_none() },
    );
    let mut i: usize = 0;
    while i < efforts.len()
        invariant
            i <= efforts@.len(),
            buttons@.len() == i + 1,
            draws_effort(None, option_view(*current), buttons@[0]),
            forall|j: int|
                0 <= j < i ==> draws_effort(
                    Some((#[trigger] efforts@[j])@),
                    option_view(*current),
                    buttons@[j + 1],
                ),
        decreases efforts@.len() - i,
    {
        let selected = match current {
            Some(chosen) => text_eq(chosen.as_str(), efforts[i].as_str()),
            None => false,
        };
        buttons.push(
            EffortButton { effort: Some(efforts[i].clone()), label: efforts[i].clone(), selected },
        );
        i += 1;
    }
    buttons
}

/// Draws the panel to write in: the messages that wait, and for a managed
/// conversation the efforts that its model reasons with.
pub fn render_message_panel(
    queue: &Vec<Submission>,
    options: &Vec<ModelOption>,
    owner: &str,
    model: &str,
    effort: &Option<String>,
) -> (panel: MessagePanel)
    ensures
        panel.queue@.len() == queue@.len(),
        forall|i: int|
            0 <= i < queue@.len() ==> draws_queued(#[trigger] queue@[i], panel.queue@[i]),
        match panel.efforts {
            Some(buttons) => owner@ == "managed_codex"@ && draws_efforts(
                efforts_of(options@, model@),
                option_view(*effort),
                buttons@,
            ),
            None => owner@ != "managed_codex"@,
        },
{
    let mut rows: Vec<QueuedRow> = Vec::new();
    let mut i: usize = 0;
    while i < queue.len()
        invariant
            i <= queue@.len(),
            rows@.len() == i,
            forall|j: int| 0 <= j < i ==> draws_queued(#[trigger] queue@[j], rows@[j]),
        decreases queue@.len() - i,
    {
        let waiting = &queue[i];
        rows.push(
            QueuedRow {
                id: waiting.id.clone(),
                text: waiting.text.clone(),
                note: queue_note(waiting.attachments.len()),
            },
        );
        i += 1;
    }
    let efforts = match reasoning_choices(options, model, text_eq(owner, "managed_codex")) {
        Some(efforts) => Some(effort_buttons(&efforts, effort)),
        None => None,
    };
    MessagePanel { queue: rows, efforts }
}

/// A project that a conversation can be moved into, as it is drawn.
#[derive(Debug, PartialEq, Eq)]
pub struct MoveTarget {
    pub project: String,
    pub label: String,
}

/// A dialog as it is drawn.
#[derive(Debug, PartialEq, Eq)]
pub enum DialogView {
    Rename { title: &'static str, detail: String },
    Move {
        title: &'static str,
        detail: &'static str,
        targets: Vec<MoveTarget>,
        note: Option<&'static str>,
    },
}

pub const RENAME_TITLE: &'static str = "Rename Project";

pub const MOVE_TITLE: &'static str = "Move or continue in Project";

pub const MOVE_DETAIL: &'static str = "Same-workspace moves preserve this Conversation. Cross-workspace choices require a second confirmation and create a linked continuation.";

pub const NO_TARGET: &'static str = "No other active, available Project is configured.";

/// Whether a target is a project.
pub open spec fn draws_target(project: ProjectNode, target: MoveTarget) -> bool {
    &&& target.project == project.id
    &&& target.label@ == project.name@ + " — "@ + project.workspace_label@
}

/// Whether targets are the projects at some positions, one for one.
pub open spec fn draws_targets(
    projects: Seq<ProjectNode>,
    at: Seq<int>,
    targets: Seq<MoveTarget>,
) -> bool {
    &&& targets.len() == at.len()
    &&& forall|i: int|
        0 <= i < at.len() ==> 0 <= #[trigger] at[i] < projects.len() && draws_target(
            projects[at[i]],
            targets[i],
        )
}

/// Whether a dialog is drawn, if one is open.
pub open spec fn draws_dialog(
    snapshot: NavigationSnapshot,
    dialog: Option<NavigationDialog>,
    view: Option<DialogView>,
) -> bool {
    match dialog {
        None => view is None,
        Some(NavigationDialog::RenameProject { project }) => {
            &&& view matches Some(DialogView::Rename { title, detail })
            &&& title@ == RENAME_TITLE@
            &&& detail@ == "Change only Xana's local Project label for "@ + name_of(
                snapshot,
                project@,
            ) + ". The workspace and Conversations are unchanged."@
        },
        Some(NavigationDialog::MoveConversation { conversation }) => {
            let at = targets_of(snapshot.projects@, holder_of(snapshot, conversation@));
            &&& view matches Some(DialogView::Move { title, detail, targets, note })
            &&& title@ == MOVE_TITLE@
            &&& detail@ == MOVE_DETAIL@
            &&& draws_targets(snapshot.projects@, at, targets@)
            &&& if at.len() == 0 {
                note matches Some(text) && text@ == NO_TARGET@
            } else {
                note is None
            }
        },
    }
}

/// The window's own facts.
#[derive(Debug, PartialEq, Eq)]
pub struct WindowFacts {
    pub maximized: bool,
    pub lifecycle: String,
    pub place: String,
    pub running: bool,
    pub approvals: usize,
    pub notices: usize,
    pub latest: String,
}

/// The window as it is drawn, but for what its panels hold.
#[derive(Debug, PartialEq, Eq)]
pub struct WindowView {
    pub canvas: Canvas,
    /// Whether the library of panels stands below.
    pub library: bool,
    pub new_label: &'static str,
    pub actions_label: &'static str,
    pub actions_enabled: bool,
    pub espejo_label: &'static str,
    pub settings_label: &'static str,
    pub menu: NavigationMenu,
    pub left: String,
    pub right: String,
    pub dialog: Option<DialogView>,
    /// Whether the palette of commands is drawn above all else.
    pub palette: bool,
    /// Whether a run can be interrupted.
    pub interrupts: bool,
}

/// The text of a button of the sidebar, by how wide the sidebar is.
pub open spec fn sidebar_label(mini: bool, long: Seq<char>, short: Seq<char>) -> Seq<char> {
    if mini {
        short
    } else {
        long
    }
}

/// Whether a view is that of a window.
pub open spec fn draws_window(workbench: Workbench, facts: WindowFacts, view: WindowView) -> bool {
    let mini = workbench.snapshot.mini_sidebar;
    &&& view.canvas == canvas_of(workbench.navigation, facts.maximized)
    &&& view.library == (view.canvas is Maximized || view.canvas is Layout)
    &&& view.new_label@ == sidebar_label(mini, "New"@, "+"@)
    &&& view.actions_label@ == sidebar_label(mini, "Actions…"@, "…"@)
    &&& view.actions_enabled == (workbench.selection is Some)
    &&& view.espejo_label@ == sidebar_label(mini, "Espejo"@, "E"@)
    &&& view.settings_label@ == sidebar_label(mini, "Settings"@, "S"@)
    &&& view.menu.label@ == menu_label(workbench.snapshot, workbench.selection)
    &&& view.menu.entries@ == menu_entries(workbench.snapshot, workbench.selection)
    &&& view.left@ == left_status(
        facts.lifecycle@,
        facts.place@,
        facts.running,
        facts.approvals as nat,
    )
    &&& view.right@ == right_status(facts.notices as nat, facts.latest@)
    &&& draws_dialog(workbench.snapshot, workbench.dialog, view.dialog)
    &&& view.palette == workbench.palette_open
    &&& view.interrupts == facts.running
}

fn by_width(mini: bool, long: &'static str, short: &'static str) -> (label: &'static str)
    ensures
        label@ == sidebar_label(mini, long@, short@),
{
    if mini {
        short
    } else {
        long
    }
}

impl Workbench {
    fn move_buttons(&self, conversation: &str) -> (targets: Vec<MoveTarget>)
        ensures
            draws_targets(
                self.snapshot.projects@,
                targets_of(self.snapshot.projects@, holder_of(self.snapshot, conversation@)),
                targets@,
            ),
    {
        let found = move_targets(&self.snapshot, conversation);
        let ghost at = targets_of(
            self.snapshot.projects@,
            holder_of(self.snapshot, conversation@),
        );
        proof {
            offered_projects_take_conversations(
                self.snapshot.projects@,
                holder_of(self.snapshot, conversation@),
            );
        }
        let mut targets: Vec<MoveTarget> = Vec::new();
        let mut i: usize = 0;
        while i < found.len()
            invariant
                i <= found@.len(),
                at == positions(found@),
                targets@.len() == i,
                forall|j: int|
                    0 <= j < at.len() ==> 0 <= #[trigger] at[j] < self.snapshot.projects@.len(),
                forall|j: int|
                    #![trigger at[j]]
                    0 <= j < i ==> draws_target(self.snapshot.projects@[at[j]], targets@[j]),
            decreases found@.len() - i,
        {
            assert(at[i as int] == found@[i as int]);
            let project = &self.snapshot.projects[found[i]];
            let mut label = project.name.clone();
            label.append(" — ");
            label.append(project.workspace_label.as_str());
            targets.push(MoveTarget { project: project.id.clone(), label });
            i += 1;
        }
        targets
    }

    /// Draws the dialog that is open, if one is.
    pub fn render_navigation_dialog(&self) -> (view: Option<DialogView>)
        ensures
            draws_dialog(self.snapshot, self.dialog, view),
    {
        match &self.dialog {
            None => None,
            Some(NavigationDialog::RenameProject { project }) => {
                let mut detail = "Change only Xana's local Project label for ".to_owned();
                detail.append(project_title(&self.snapshot, project.as_str()).as_str());
                detail.append(". The workspace and Conversations are unchanged.");
                Some(DialogView::Rename { title: RENAME_TITLE, detail })
            },
            Some(NavigationDialog::MoveConversation { conversation }) => {
                let targets = self.move_buttons(conversation.as_str());
                let note = if targets.len() == 0 {
                    Some(NO_TARGET)
                } else {
                    None
                };
                Some(
                    DialogView::Move { title: MOVE_TITLE, detail: MOVE_DETAIL, targets, note },
                )
            },
        }
    }

    /// Draws the window.
    pub fn render(&self, facts: &WindowFacts) -> (view: WindowView)
        ensures
            draws_window(*self, *facts, view),
    {
        let mini = self.snapshot.mini_sidebar;
        let (canvas, library) = shown_canvas(self.navigation, facts.maximized);
        let (left, right) = status_bar(
            facts.lifecycle.as_str(),
            facts.place.as_str(),
            facts.running,
            facts.approvals,
            facts.notices,
            facts.latest.as_str(),
        );
        WindowView {
            canvas,
            library,
            new_label: by_width(mini, "New", "+"),
            actions_label: by_width(mini, "Actions…", "…"),
            actions_enabled: self.selection.is_some(),
            espejo_label: by_width(mini, "Espejo", "E"),
            settings_label: by_width(mini, "Settings", "S"),
            menu: navigation_menu(&self.selection, &self.snapshot),
            left,
            right,
            dialog: self.render_navigation_dialog(),
            palette: self.palette_open,
            interrupts: facts.running,
        }
    }
}

/// How far the work on a message is.
#[derive(Debug, PartialEq, Eq)]
pub enum Progress {
    Failed(String),
    Running,
    Complete,
}

/// Something that is attached to a draft.
#[derive(Debug, PartialEq, Eq)]
pub struct Attached {
    pub id: String,
    pub name: String,
    pub bytes: u64,
    pub width: Option<u32>,
    pub height: Option<u32>,
    pub media_type: String,
}

/// Something that is attached to a draft, as it is drawn.
#[derive(Debug, PartialEq, Eq)]
pub struct AttachmentChip {
    pub id: String,
    pub name: String,
    pub bytes: u64,
    pub detail: String,
}

/// Whether a chip is that of an attachment.
pub open spec fn draws_attachment(attached: Attached, chip: AttachmentChip) -> bool {
    &&& chip.id == attached.id
    &&& chip.name == attached.name
    &&& chip.bytes == attached.bytes
    &&& chip.detail@ == attachment_text(
        (match (attached.width, attached.height) {
            (Some(width), Some(height)) => Some((width, height)),
            _ => None,
        }),
        attached.media_type@,
    )
}

/// Draws an attachment.
pub fn prompt_attachment(attached: &Attached) -> (chip: AttachmentChip)
    ensures
        draws_attachment(*attached, chip),
{
    AttachmentChip {
        id: attached.id.clone(),
        name: attached.name.clone(),
        bytes: attached.bytes,
        detail: attachment_detail(attached.width, attached.height, attached.media_type.as_str()),
    }
}

/// What the parts of the window are told.
#[derive(Debug, PartialEq, Eq)]
pub struct Components {
    pub progress: Progress,
    pub attachments: Vec<AttachmentChip>,
    pub models: Vec<PromptModel>,
    pub sections: SidebarSections,
    pub active_item: Option<String>,
    pub collapsed: bool,
}

/// Whether the parts of the window are told what there is.
pub open spec fn tells_components(
    workbench: Workbench,
    failure: Option<String>,
    running: bool,
    attached: Seq<Attached>,
    options: Seq<ModelOption>,
    connection: Seq<char>,
    model: Seq<char>,
    components: Components,
) -> bool {
    &&& components.progress == (match failure {
        Some(text) => Progress::Failed(text),
        None => if running {
            Progress::Running
        } else {
            Progress::Complete
        },
    })
    &&& components.attachments@.len() == attached.len()
    &&& forall|i: int|
        0 <= i < attached.len() ==> draws_attachment(
            #[trigger] attached[i],
            components.attachments@[i],
        )
    &&& offers_models(options, connection, model, components.models@)
    &&& shows_snapshot(workbench.snapshot, components.sections)
    &&& option_view(components.active_item) == (match workbench.snapshot.selected_conversation {
        Some(id) => Some(CONVERSATION_PREFIX@ + id@),
        None => None,
    })
    &&& components.collapsed == workbench.snapshot.mini_sidebar
}

impl Workbench {
    /// Tells the parts of the window what there is: a failure comes before work.
    pub fn sync_components(
        &self,
        failure: &Option<String>,
        running: bool,
        attached: &Vec<Attached>,
        options: &Vec<ModelOption>,
        connection: &str,
        model: &str,
    ) -> (components: Components)
        ensures
            tells_components(
                *self,
                *failure,
                running,
                attached@,
                options@,
                connection@,
                model@,
                components,
            ),
    {
        let progress = match copy_option(failure) {
            Some(text) => Progress::Failed(text),
            None => if running {
                Progress::Running
            } else {
                Progress::Complete
            },
        };
        let mut attachments: Vec<AttachmentChip> = Vec::new();
        let mut i: usize = 0;
        while i < attached.len()
            invariant
                i <= attached@.len(),
                attachments@.len() == i,
                forall|j: int|
                    0 <= j < i ==> draws_attachment(#[trigger] attached@[j], attachments@[j]),
            decreases attached@.len() - i,
        {
            attachments.push(prompt_attachment(&attached[i]));
            i += 1;
        }
        let active_item = match &self.snapshot.selected_conversation {
            Some(id) => Some(conversation_item_id(id.as_str())),
            None => None,
        };
        Components {
            progress,
            attachments,
            models: prompt_models(options, connection, model),
            sections: sidebar_sections(&self.snapshot),
            active_item,
            collapsed: self.snapshot.mini_sidebar,
        }
    }
}

/// No project is offered twice to move a conversation into, nor the one that it is
/// in, nor one that is archived or without its workspace.
pub proof fn offered_projects_take_conversations(projects: Seq<ProjectNode>, current: Option<String>)
    ensures
        forall|i: int|
            #![trigger targets_of(projects, current)[i]]
            0 <= i < targets_of(projects, current).len() ==> {
                &&& 0 <= targets_of(projects, current)[i] < projects.len()
                &&& crate::desktop::navigation::takes(
                    projects[targets_of(projects, current)[i]],
                    current,
                )
            },
        forall|i: int, j: int|
            #![trigger targets_of(projects, current)[i], targets_of(projects, current)[j]]
            0 <= i < j < targets_of(projects, current).len() ==> targets_of(projects, current)[i]
                < targets_of(projects, current)[j],
    decreases projects.len(),
{
    if projects.len() > 0 {
        offered_projects_take_conversations(projects.drop_last(), current);
        let earlier = targets_of(projects.drop_last(), current);
        assert forall|i: int|
            #![trigger targets_of(projects, current)[i]]
            0 <= i < targets_of(projects, current).len() implies {
            &&& 0 <= targets_of(projects, current)[i] < projects.len()
            &&& crate::desktop::navigation::takes(
                projects[targets_of(projects, current)[i]],
                current,
            )
        } by {
            if i < earlier.len() {
                assert(targets_of(projects, current)[i] == earlier[i]);
            }
        }
        assert forall|i: int, j: int|
            #![trigger targets_of(projects, current)[i], targets_of(projects, current)[j]]
            0 <= i < j < targets_of(projects, current).len() implies targets_of(
            projects,
            current,
        )[i] < targets_of(projects, current)[j] by {
            assert(targets_of(projects, current)[i] == earlier[i]);
            if j < earlier.len() {
                assert(targets_of(projects, current)[j] == earlier[j]);
            }
        }
    }
}

/// The state of the runtime is drawn as it is: a failure as one, whatever else goes on, work
/// as work, and otherwise readiness.
pub proof fn states_are_drawn_as_they_are(facts: ActivityFacts, panel: ActivityPanel)
    requires
        call_ensures(render_activity_panel, (&facts,), panel),
    ensures
        panel.status is Loading <==> facts.running && !facts.failed,
        panel.status matches StatusLine::Loading { label } ==> label == facts.latest,
        panel.status matches StatusLine::Badge { tone, .. } ==> (tone == Tone::Danger
            <==> facts.failed) && (tone == Tone::Success <==> !facts.failed),
        panel.latest == facts.latest,
        panel.rounds == facts.rounds,
        facts.profile matches Some(profile) ==> occurs(panel.profile@, profile@),
        panel.receipt is Some <==> facts.completions@.len() > 0,
        panel.receipt matches Some(card) ==> card.status == facts.completions@.last().status && (
        card.tone == Tone::Success <==> facts.completions@.last().status@ == "completed"@),
        panel.approvals@.len() == facts.approvals@.len(),
        panel.items@.len() == facts.items@.len(),
        panel.note is Some <==> facts.approvals@.len() == 0 && facts.items@.len() == 0,
{
    if let Some(profile) = facts.profile {
        let nothing = Seq::<char>::empty();
        assert("Profile: "@ + profile@ + nothing =~= panel.profile@);
        parts_occur("Profile: "@, profile@, nothing);
    }
}

/// Every permission that is waited for is asked about by its own tool, with its effect and
/// its scope, and every piece of work is drawn in its place, under its own heading where it
/// is part of another.
pub proof fn pieces_are_drawn_in_their_place(
    facts: ActivityFacts,
    panel: ActivityPanel,
    approval: int,
    item: int,
)
    requires
        call_ensures(render_activity_panel, (&facts,), panel),
        0 <= approval < facts.approvals@.len(),
        0 <= item < facts.items@.len(),
    ensures
        occurs(panel.approvals@[approval].title@, facts.approvals@[approval].tool@),
        occurs(panel.approvals@[approval].description@, facts.approvals@[approval].effect@),
        occurs(panel.approvals@[approval].description@, facts.approvals@[approval].scope@),
        panel.items@[item].indented == facts.items@[item].child,
        panel.items@[item].detail == facts.items@[item].detail,
{
    let asked = facts.approvals@[approval];
    let question = panel.approvals@[approval];
    let nothing = Seq::<char>::empty();
    let end = "\nThis decision applies once to the current Run."@;
    assert(asks_once(asked.tool@, asked.effect@, asked.scope@, question));
    parts_occur("Allow "@, asked.tool@, "?"@);
    parts_occur(asked.effect@ + "\nScope: "@, asked.scope@, end);
    assert(question.description@ =~= nothing + asked.effect@ + ("\nScope: "@ + asked.scope@
        + end));
    parts_occur(nothing, asked.effect@, "\nScope: "@ + asked.scope@ + end);
    assert(draws_item(facts.items@[item], panel.items@[item]));
}

/// A stack shows the panel that is in front, with a tab for every panel in its order, of
/// which that of the shown one stands out; the panel to write in is never closed.
pub proof fn stacks_show_their_front(
    panels: Vec<Panel>,
    active: usize,
    maximized: bool,
    stack: PanelStack,
)
    requires
        call_ensures(render_panel_stack, (&panels, active, maximized), stack),
    ensures
        active < panels@.len() ==> stack.shown == panels@[active as int],
        stack.tabs@.len() == panels@.len(),
        forall|i: int| 0 <= i < panels@.len() ==> (#[trigger] stack.tabs@[i]).panel == panels@[i],
        active < panels@.len() ==> stack.tabs@[active as int].active,
        forall|i: int|
            0 <= i < panels@.len() ==> ((#[trigger] stack.tabs@[i]).active <==> panels@[i]
                == stack.shown),
        stack.can_close <==> stack.shown != Panel::Message,
        maximized ==> stack.maximize@ == "Restore"@,
        !maximized ==> stack.maximize@ == "Maximize"@,
{
}

/// Every message that waits is shown as it was written, in its order, and every effort has
/// one button, of which the chosen one and no other stands out.
pub proof fn waiting_messages_are_shown(
    queue: Vec<Submission>,
    options: Vec<ModelOption>,
    owner: &str,
    model: &str,
    effort: Option<String>,
    panel: MessagePanel,
)
    requires
        call_ensures(render_message_panel, (&queue, &options, owner, model, &effort), panel),
    ensures
        panel.queue@.len() == queue@.len(),
        forall|i: int|
            0 <= i < queue@.len() ==> (#[trigger] panel.queue@[i]).id == queue@[i].id
                && panel.queue@[i].text == queue@[i].text,
        panel.efforts is Some <==> owner@ == "managed_codex"@,
        panel.efforts matches Some(buttons) ==> {
            &&& buttons@.len() > 0
            &&& buttons@[0].effort is None
            &&& buttons@[0].selected <==> effort is None
            &&& forall|i: int|
                0 <= i < buttons@.len() ==> ((#[trigger] buttons@[i]).selected <==> option_view(
                    buttons@[i].effort,
                ) == option_view(effort))
            &&& forall|i: int|
                1 <= i < buttons@.len() ==> ((#[trigger] buttons@[i]).effort matches Some(held)
                    && held@ == buttons@[i].label@)
        },
{
    assert forall|i: int| 0 <= i < queue@.len() implies (#[trigger] panel.queue@[i]).id
        == queue@[i].id && panel.queue@[i].text == queue@[i].text by {
        assert(draws_queued(queue@[i], panel.queue@[i]));
    }
    if let Some(buttons) = panel.efforts {
        let efforts = efforts_of(options@, model@);
        assert forall|i: int| 1 <= i < buttons@.len() implies ((#[trigger] buttons@[i]).effort
            matches Some(held) && held@ == buttons@[i].label@) && (buttons@[i].selected
            <==> option_view(buttons@[i].effort) == option_view(effort)) by {
            assert(draws_effort(
                Some(efforts[i - 1]@),
                option_view(effort),
                buttons@[i - 1 + 1],
            ));
        }
    }
}

/// A window says what goes on: that a run can be interrupted while one goes on, what its
/// lifecycle, its place and its latest word are, and how many permissions and notices wait;
/// its dialog and its palette are drawn where they are open.
pub proof fn windows_say_what_goes_on(
    workbench: Workbench,
    facts: WindowFacts,
    view: WindowView,
)
    requires
        call_ensures(Workbench::render, (&workbench, &facts), view),
    ensures
        view.interrupts == facts.running,
        view.palette == workbench.palette_open,
        view.dialog is Some <==> workbench.dialog is Some,
        view.actions_enabled <==> workbench.selection is Some,
        facts.lifecycle@.is_prefix_of(view.left@),
        occurs(view.right@, facts.latest@),
        decimal(facts.notices as nat).is_prefix_of(view.right@),
        view.dialog matches Some(DialogView::Move { note, targets, .. }) ==> (note is Some
            <==> targets@.len() == 0) && (workbench.dialog matches Some(
            NavigationDialog::MoveConversation { .. },
        )),
        view.dialog matches Some(DialogView::Rename { .. }) ==> (workbench.dialog matches Some(
            NavigationDialog::RenameProject { .. },
        )),
{
    let nothing = Seq::<char>::empty();
    let count = decimal(facts.notices as nat);
    assert(facts.lifecycle@ =~= view.left@.take(facts.lifecycle@.len() as int));
    assert(view.right@ =~= count + " notice(s) · "@ + facts.latest@ + nothing);
    parts_occur(count + " notice(s) · "@, facts.latest@, nothing);
    assert(count =~= view.right@.take(count.len() as int));
}

/// The parts of the window are told of work as it stands: a failure first, then work, and
/// otherwise that it is done; and of every attachment under its own name.
pub proof fn components_are_told_as_it_stands(
    workbench: Workbench,
    failure: Option<String>,
    running: bool,
    attached: Seq<Attached>,
    options: Seq<ModelOption>,
    connection: Seq<char>,
    model: Seq<char>,
    components: Components,
)
    requires
        tells_components(
            workbench,
            failure,
            running,
            attached,
            options,
            connection,
            model,
            components,
        ),
    ensures
        components.progress matches Progress::Failed(text) ==> failure == Some(text),
        components.progress is Failed <==> failure is Some,
        components.progress is Running <==> failure is None && running,
        components.attachments@.len() == attached.len(),
        forall|i: int|
            0 <= i < attached.len() ==> (#[trigger] components.attachments@[i]).id
                == attached[i].id && components.attachments@[i].name == attached[i].name
                && components.attachments@[i].bytes == attached[i].bytes,
        components.active_item is Some <==> workbench.snapshot.selected_conversation is Some,
{
    assert forall|i: int| 0 <= i < attached.len() implies (#[trigger] components.attachments@[i]).id
        == attached[i].id && components.attachments@[i].name == attached[i].name
        && components.attachments@[i].bytes == attached[i].bytes by {
        assert(draws_attachment(attached[i], components.attachments@[i]));
    }
}

/// A piece of work is drawn with the state, the owner and the detail that it has, and set
/// in where another piece brought it about.
pub proof fn work_is_drawn_as_it_is(item: &ActivityItem, card: ItemCard)
    requires
        call_ensures(render_activity_item, (item,), card),
    ensures
        card.indented <==> item.child,
        option_view(card.detail) == option_view(item.detail),
        card.state@ == state_name(item.state),
        card.tone == state_tone(item.state),
        card.owner@ == owner_text(item.owner),
{
}

}
