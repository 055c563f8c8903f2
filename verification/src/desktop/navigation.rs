//! Projects and conversations: how they are shown in the sidebar, and what can be
//! done with the one that is selected.

use crate::text::{chars_of, option_view, starts_with, text_eq, text_of};
use vstd::prelude::*;
use vstd::string::*;

verus! {

/// Where the workbench can be.
#[derive(Clone, Copy, PartialEq, Eq, Structural, Debug)]
pub enum NavigationTarget {
    Conversation,
    Activity,
    Espejo,
    Settings,
    Diagnostics,
}

impl NavigationTarget {
    /// Whether a place is one of the settings.
    pub open spec fn among_settings(self) -> bool {
        self is Settings || self is Diagnostics
    }

    /// Whether a place is one of the settings.
    pub fn in_settings(self) -> (yes: bool)
        ensures
            yes == self.among_settings(),
    {
        matches!(self, NavigationTarget::Settings | NavigationTarget::Diagnostics)
    }
}

/// What another launch of the program asked for.
#[derive(Clone, Copy, PartialEq, Eq, Structural, Debug)]
pub enum LaunchIntent {
    Focus,
    Navigate(NavigationTarget),
}

/// The place that a launch asks for.
pub open spec fn intended(intent: LaunchIntent) -> NavigationTarget {
    match intent {
        LaunchIntent::Focus => NavigationTarget::Conversation,
        LaunchIntent::Navigate(target) => target,
    }
}

/// The place that a launch asks for.
pub fn navigation_for_intent(intent: LaunchIntent) -> (target: NavigationTarget)
    ensures
        target == intended(intent),
{
    match intent {
        LaunchIntent::Focus => NavigationTarget::Conversation,
        LaunchIntent::Navigate(target) => target,
    }
}

/// Where a conversation of the overview is opened: where somebody is waited for,
/// at what needs them.
pub open spec fn overview_destination(needs_attention: bool) -> NavigationTarget {
    if needs_attention {
        NavigationTarget::Activity
    } else {
        NavigationTarget::Conversation
    }
}

/// Where a conversation of the overview is opened.
pub fn espejo_destination(needs_attention: bool) -> (target: NavigationTarget)
    ensures
        target == overview_destination(needs_attention),
{
    if needs_attention {
        NavigationTarget::Activity
    } else {
        NavigationTarget::Conversation
    }
}

/// The state of a project's workspace.
#[derive(Clone, Copy, PartialEq, Eq, Structural, Debug)]
pub enum WorkspaceStatus {
    Available,
    Missing,
    ChangedIdentity,
}

/// A conversation.
#[derive(Debug, PartialEq, Eq)]
pub struct ConversationNode {
    pub id: String,
    pub title: String,
    pub state: String,
    pub needs_attention: bool,
    pub branch_point: Option<String>,
    pub workspace_id: String,
    pub workspace_label: String,
}

/// A project with its conversations.
#[derive(Debug, PartialEq, Eq)]
pub struct ProjectNode {
    pub id: String,
    pub name: String,
    pub archived: bool,
    pub workspace_status: WorkspaceStatus,
    pub workspace_id: Option<String>,
    pub workspace_label: String,
    pub conversations: Vec<ConversationNode>,
}

/// Everything that can be navigated to.
#[derive(Debug, PartialEq, Eq)]
pub struct NavigationSnapshot {
    pub projects: Vec<ProjectNode>,
    pub ungrouped: Vec<ConversationNode>,
    pub selected_conversation: Option<String>,
    pub mini_sidebar: bool,
}

/// Where a conversation stands in a list, or how many there are.
pub open spec fn conversation_index(nodes: Seq<ConversationNode>, id: Seq<char>) -> nat
    decreases nodes.len(),
{
    if nodes.len() == 0 || nodes[0].id@ == id {
        0
    } else {
        1 + conversation_index(nodes.drop_first(), id)
    }
}

fn find_conversation(nodes: &Vec<ConversationNode>, id: &str) -> (found: Option<usize>)
    ensures
        match found {
            Some(at) => at < nodes@.len() && at == conversation_index(nodes@, id@),
            None => conversation_index(nodes@, id@) >= nodes@.len(),
        },
{
    let mut i: usize = 0;
    assert(nodes@.skip(0) =~= nodes@);
    while i < nodes.len()
        invariant
            i <= nodes@.len(),
            conversation_index(nodes@, id@) == i + conversation_index(nodes@.skip(i as int), id@),
        decreases nodes@.len() - i,
    {
        assert(nodes@.skip(i as int).drop_first() =~= nodes@.skip(i + 1));
        if text_eq(nodes[i].id.as_str(), id) {
            return Some(i);
        }
        i += 1;
    }
    None
}

/// Where a project stands, or how many there are.
pub open spec fn project_index(projects: Seq<ProjectNode>, id: Seq<char>) -> nat
    decreases projects.len(),
{
    if projects.len() == 0 || projects[0].id@ == id {
        0
    } else {
        1 + project_index(projects.drop_first(), id)
    }
}

fn find_project(projects: &Vec<ProjectNode>, id: &str) -> (found: Option<usize>)
    ensures
        match found {
            Some(at) => at < projects@.len() && at == project_index(projects@, id@),
            None => project_index(projects@, id@) >= projects@.len(),
        },
{
    let mut i: usize = 0;
    assert(projects@.skip(0) =~= projects@);
    while i < projects.len()
        invariant
            i <= projects@.len(),
            project_index(projects@, id@) == i + project_index(projects@.skip(i as int), id@),
        decreases projects@.len() - i,
    {
        assert(projects@.skip(i as int).drop_first() =~= projects@.skip(i + 1));
        if text_eq(projects[i].id.as_str(), id) {
            return Some(i);
        }
        i += 1;
    }
    None
}

/// Where the project stands that holds a conversation, or how many there are.
pub open spec fn holder_index(projects: Seq<ProjectNode>, id: Seq<char>) -> nat
    decreases projects.len(),
{
    if projects.len() == 0 || conversation_index(projects[0].conversations@, id)
        < projects[0].conversations@.len() {
        0
    } else {
        1 + holder_index(projects.drop_first(), id)
    }
}

fn find_holder(projects: &Vec<ProjectNode>, id: &str) -> (found: Option<usize>)
    ensures
        match found {
            Some(at) => {
                &&& at < projects@.len()
                &&& at == holder_index(projects@, id@)
                &&& conversation_index(projects@[at as int].conversations@, id@)
                    < projects@[at as int].conversations@.len()
            },
            None => holder_index(projects@, id@) >= projects@.len(),
        },
{
    let mut i: usize = 0;
    assert(projects@.skip(0) =~= projects@);
    while i < projects.len()
        invariant
            i <= projects@.len(),
            holder_index(projects@, id@) == i + holder_index(projects@.skip(i as int), id@),
        decreases projects@.len() - i,
    {
        assert(projects@.skip(i as int).drop_first() =~= projects@.skip(i + 1));
        if find_conversation(&projects[i].conversations, id).is_some() {
            return Some(i);
        }
        i += 1;
    }
    None
}

/// The conversation of an id: first among those of projects.
pub open spec fn conversation_of(snapshot: NavigationSnapshot, id: Seq<char>) -> Option<
    ConversationNode,
> {
    let at = holder_index(snapshot.projects@, id);
    if at < snapshot.projects@.len() {
        let nodes = snapshot.projects@[at as int].conversations@;
        Some(nodes[conversation_index(nodes, id) as int])
    } else {
        let free = conversation_index(snapshot.ungrouped@, id);
        if free < snapshot.ungrouped@.len() {
            Some(snapshot.ungrouped@[free as int])
        } else {
            None
        }
    }
}

/// The project of an id.
pub open spec fn project_of(snapshot: NavigationSnapshot, id: Seq<char>) -> Option<ProjectNode> {
    let at = project_index(snapshot.projects@, id);
    if at < snapshot.projects@.len() {
        Some(snapshot.projects@[at as int])
    } else {
        None
    }
}

/// The project that holds a conversation.
pub open spec fn holder_of(snapshot: NavigationSnapshot, id: Seq<char>) -> Option<String> {
    let at = holder_index(snapshot.projects@, id);
    if at < snapshot.projects@.len() {
        Some(snapshot.projects@[at as int].id)
    } else {
        None
    }
}

impl NavigationSnapshot {
    /// The conversation of an id.
    pub fn conversation(&self, id: &str) -> (node: Option<&ConversationNode>)
        ensures
            match node {
                Some(node) => conversation_of(*self, id@) == Some(*node),
                None => conversation_of(*self, id@) is None,
            },
    {
        match find_holder(&self.projects, id) {
            Some(at) => match find_conversation(&self.projects[at].conversations, id) {
                Some(inner) => Some(&self.projects[at].conversations[inner]),
                None => None,
            },
            None => match find_conversation(&self.ungrouped, id) {
                Some(at) => Some(&self.ungrouped[at]),
                None => None,
            },
        }
    }

    /// The project of an id.
    pub fn project(&self, id: &str) -> (node: Option<&ProjectNode>)
        ensures
            match node {
                Some(node) => project_of(*self, id@) == Some(*node),
                None => project_of(*self, id@) is None,
            },
    {
        match find_project(&self.projects, id) {
            Some(at) => Some(&self.projects[at]),
            None => None,
        }
    }
}

/// The project that holds a conversation.
pub fn project_for_conversation(snapshot: &NavigationSnapshot, id: &str) -> (project: Option<String>)
    ensures
        project == holder_of(*snapshot, id@),
{
    match find_holder(&snapshot.projects, id) {
        Some(at) => Some(snapshot.projects[at].id.clone()),
        None => None,
    }
}

/// The title of a conversation.
pub open spec fn title_of(snapshot: NavigationSnapshot, id: Seq<char>) -> Seq<char> {
    match conversation_of(snapshot, id) {
        Some(node) => node.title@,
        None => "Conversation"@,
    }
}

/// The title of a conversation.
pub fn conversation_title(snapshot: &NavigationSnapshot, id: &str) -> (title: String)
    ensures
        title@ == title_of(*snapshot, id@),
{
    match snapshot.conversation(id) {
        Some(node) => node.title.clone(),
        None => "Conversation".to_owned(),
    }
}

/// The name of a project.
pub open spec fn name_of(snapshot: NavigationSnapshot, id: Seq<char>) -> Seq<char> {
    match project_of(snapshot, id) {
        Some(node) => node.name@,
        None => "Project"@,
    }
}

/// The name of a project.
pub fn project_title(snapshot: &NavigationSnapshot, id: &str) -> (title: String)
    ensures
        title@ == name_of(*snapshot, id@),
{
    match snapshot.project(id) {
        Some(node) => node.name.clone(),
        None => "Project".to_owned(),
    }
}

pub const CONVERSATION_PREFIX: &'static str = "conversation:";

pub const PROJECT_PREFIX: &'static str = "project:";

/// The id of a conversation's item in the sidebar.
pub fn conversation_item_id(id: &str) -> (item: String)
    ensures
        item@ == CONVERSATION_PREFIX@ + id@,
{
    let mut item = CONVERSATION_PREFIX.to_owned();
    item.append(id);
    item
}

/// The id of a project's item in the sidebar.
pub fn project_item_id(id: &str) -> (item: String)
    ensures
        item@ == PROJECT_PREFIX@ + id@,
{
    let mut item = PROJECT_PREFIX.to_owned();
    item.append(id);
    item
}

/// What is selected in the sidebar.
#[derive(Debug, PartialEq, Eq)]
pub enum SidebarSelection {
    Project(String),
    Conversation(String),
}

/// What stands behind a prefix, where a text begins with it.
pub open spec fn behind(text: Seq<char>, prefix: Seq<char>) -> Option<Seq<char>> {
    if text.len() >= prefix.len() && text.take(prefix.len() as int) == prefix {
        Some(text.skip(prefix.len() as int))
    } else {
        None
    }
}

fn strip(text: &str, prefix: &str) -> (rest: Option<String>)
    ensures
        option_view(rest) == behind(text@, prefix@),
{
    if !starts_with(text, prefix) {
        return None;
    }
    let chars = chars_of(text);
    let from: usize = chars_of(prefix).len();
    assert(text@.subrange(from as int, text@.len() as int) =~= text@.skip(from as int));
    Some(text_of(&chars, from, chars.len()))
}

/// Whether a selection is what an item stands for.
pub open spec fn selects(item: Seq<char>, selection: Option<SidebarSelection>) -> bool {
    match behind(item, CONVERSATION_PREFIX@) {
        Some(id) => selection matches Some(SidebarSelection::Conversation(held)) && held@ == id,
        None => match behind(item, PROJECT_PREFIX@) {
            Some(id) => selection matches Some(SidebarSelection::Project(held)) && held@ == id,
            None => selection is None,
        },
    }
}

/// What an item of the sidebar stands for.
pub fn selected_item(item: &str) -> (selection: Option<SidebarSelection>)
    ensures
        selects(item@, selection),
{
    match strip(item, CONVERSATION_PREFIX) {
        Some(id) => Some(SidebarSelection::Conversation(id)),
        None => match strip(item, PROJECT_PREFIX) {
            Some(id) => Some(SidebarSelection::Project(id)),
            None => None,
        },
    }
}

/// An item of the sidebar leads back to what it was made for.
pub proof fn items_lead_back(id: Seq<char>, selection: Option<SidebarSelection>)
    ensures
        selects(CONVERSATION_PREFIX@ + id, selection) ==> (selection matches Some(
            SidebarSelection::Conversation(held),
        ) && held@ == id),
        selects(PROJECT_PREFIX@ + id, selection) ==> (selection matches Some(
            SidebarSelection::Project(held),
        ) && held@ == id),
{
    let conversation = CONVERSATION_PREFIX@ + id;
    assert(conversation.take(CONVERSATION_PREFIX@.len() as int) =~= CONVERSATION_PREFIX@);
    assert(conversation.skip(CONVERSATION_PREFIX@.len() as int) =~= id);
    let project = PROJECT_PREFIX@ + id;
    assert(project.take(PROJECT_PREFIX@.len() as int) =~= PROJECT_PREFIX@);
    assert(project.skip(PROJECT_PREFIX@.len() as int) =~= id);
    reveal_strlit("conversation:");
    reveal_strlit("project:");
    if project.len() >= CONVERSATION_PREFIX@.len() && project.take(
        CONVERSATION_PREFIX@.len() as int,
    ) == CONVERSATION_PREFIX@ {
        assert(project.take(CONVERSATION_PREFIX@.len() as int)[0] == 'p');
        assert(CONVERSATION_PREFIX@[0] == 'c');
    }
}

/// A conversation as the sidebar shows it.
#[derive(Debug, PartialEq, Eq)]
pub struct ConversationItem {
    pub id: String,
    pub label: String,
    pub badge: String,
}

/// A project as the sidebar shows it.
#[derive(Debug, PartialEq, Eq)]
pub struct ProjectItem {
    pub id: String,
    pub label: String,
    pub badge: Option<&'static str>,
    pub children: Vec<ConversationItem>,
}

/// The sidebar's two sections.
#[derive(Debug, PartialEq, Eq)]
pub struct SidebarSections {
    pub projects: Vec<ProjectItem>,
    pub conversations: Vec<ConversationItem>,
}

/// Whether an item shows a conversation.
pub open spec fn shows_conversation(node: ConversationNode, item: ConversationItem) -> bool {
    &&& item.id@ == CONVERSATION_PREFIX@ + node.id@
    &&& item.label == node.title
    &&& item.badge@ == (if node.needs_attention {
        "Needs you"@
    } else {
        node.state@
    })
}

/// Whether items show conversations.
pub open spec fn shows_conversations(
    nodes: Seq<ConversationNode>,
    items: Seq<ConversationItem>,
) -> bool {
    &&& items.len() == nodes.len()
    &&& forall|i: int|
        0 <= i < nodes.len() ==> shows_conversation(nodes[i], #[trigger] items[i])
}

/// The badge of a project.
pub open spec fn project_badge(node: ProjectNode) -> Option<Seq<char>> {
    match node.workspace_status {
        WorkspaceStatus::Available => if node.archived {
            Some("Archived"@)
        } else {
            None
        },
        WorkspaceStatus::Missing => Some("Missing"@),
        WorkspaceStatus::ChangedIdentity => Some("Changed"@),
    }
}

/// Whether an item shows a project.
pub open spec fn shows_project(node: ProjectNode, item: ProjectItem) -> bool {
    &&& item.id@ == PROJECT_PREFIX@ + node.id@
    &&& item.label == node.name
    &&& match item.badge {
        Some(badge) => project_badge(node) == Some(badge@),
        None => project_badge(node) is None,
    }
    &&& shows_conversations(node.conversations@, item.children@)
}

fn conversation_items(nodes: &Vec<ConversationNode>) -> (items: Vec<ConversationItem>)
    ensures
        shows_conversations(nodes@, items@),
{
    let mut items: Vec<ConversationItem> = Vec::new();
    let mut i: usize = 0;
    while i < nodes.len()
        invariant
            i <= nodes@.len(),
            shows_conversations(nodes@.take(i as int), items@),
        decreases nodes@.len() - i,
    {
        let node = &nodes[i];
        items.push(
            ConversationItem {
                id: conversation_item_id(node.id.as_str()),
                label: node.title.clone(),
                badge: if node.needs_attention {
                    "Needs you".to_owned()
                } else {
                    node.state.clone()
                },
            },
        );
        i += 1;
    }
    assert(nodes@.take(i as int) =~= nodes@);
    items
}

/// Whether sections show everything that can be navigated to.
pub open spec fn shows_snapshot(snapshot: NavigationSnapshot, sections: SidebarSections) -> bool {
    &&& sections.projects@.len() == snapshot.projects@.len()
    &&& forall|i: int|
        0 <= i < snapshot.projects@.len() ==> shows_project(
            snapshot.projects@[i],
            #[trigger] sections.projects@[i],
        )
    &&& shows_conversations(snapshot.ungrouped@, sections.conversations@)
}

/// The sidebar's sections.
pub fn sidebar_sections(snapshot: &NavigationSnapshot) -> (sections: SidebarSections)
    ensures
        shows_snapshot(*snapshot, sections),
{
    let mut projects: Vec<ProjectItem> = Vec::new();
    let mut i: usize = 0;
    while i < snapshot.projects.len()
        invariant
            i <= snapshot.projects@.len(),
            projects@.len() == i,
            forall|j: int|
                0 <= j < i ==> shows_project(snapshot.projects@[j], #[trigger] projects@[j]),
        decreases snapshot.projects@.len() - i,
    {
        let node = &snapshot.projects[i];
        let badge = match node.workspace_status {
            WorkspaceStatus::Available => if node.archived {
                Some("Archived")
            } else {
                None
            },
            WorkspaceStatus::Missing => Some("Missing"),
            WorkspaceStatus::ChangedIdentity => Some("Changed"),
        };
        projects.push(
            ProjectItem {
                id: project_item_id(node.id.as_str()),
                label: node.name.clone(),
                badge,
                children: conversation_items(&node.conversations),
            },
        );
        i += 1;
    }
    SidebarSections { projects, conversations: conversation_items(&snapshot.ungrouped) }
}

/// What a menu can do with the selection.
#[derive(Clone, Copy, PartialEq, Eq, Structural, Debug)]
pub enum MenuAction {
    Rename,
    Archive,
    Restore,
    Move,
    Ungroup,
    Branch,
}

/// An entry of a menu.
#[derive(Clone, Copy, PartialEq, Eq, Structural, Debug)]
pub struct MenuEntry {
    pub action: MenuAction,
    pub enabled: bool,
}

impl MenuAction {
    /// The text of an entry.
    pub fn label(self) -> (text: &'static str)
        ensures
            text@ == (match self {
                MenuAction::Rename => "Rename…"@,
                MenuAction::Archive => "Archive…"@,
                MenuAction::Restore => "Restore…"@,
                MenuAction::Move => "Move or continue in Project…"@,
                MenuAction::Ungroup => "Move to Ungrouped"@,
                MenuAction::Branch => "Branch at latest committed point…"@,
            }),
    {
        match self {
            MenuAction::Rename => "Rename…",
            MenuAction::Archive => "Archive…",
            MenuAction::Restore => "Restore…",
            MenuAction::Move => "Move or continue in Project…",
            MenuAction::Ungroup => "Move to Ungrouped",
            MenuAction::Branch => "Branch at latest committed point…",
        }
    }
}

/// The menu of a selection.
#[derive(Debug, PartialEq, Eq)]
pub struct NavigationMenu {
    pub label: String,
    pub entries: Vec<MenuEntry>,
}

/// What a menu is headed by.
pub open spec fn menu_label(
    snapshot: NavigationSnapshot,
    selection: Option<SidebarSelection>,
) -> Seq<char> {
    match selection {
        Some(SidebarSelection::Project(id)) => match project_of(snapshot, id@) {
            Some(node) => node.name@,
            None => "Selected Project"@,
        },
        Some(SidebarSelection::Conversation(id)) => match conversation_of(snapshot, id@) {
            Some(node) => node.title@,
            None => "Selected Conversation"@,
        },
        None => "Select a Project or Conversation"@,
    }
}

/// What a menu offers: only what can be done with the selection.
pub open spec fn menu_entries(
    snapshot: NavigationSnapshot,
    selection: Option<SidebarSelection>,
) -> Seq<MenuEntry> {
    match selection {
        Some(SidebarSelection::Project(id)) => {
            let archived = project_of(snapshot, id@) matches Some(node) && node.archived;
            seq![
                MenuEntry { action: MenuAction::Rename, enabled: true },
                MenuEntry { action: MenuAction::Archive, enabled: !archived },
                MenuEntry { action: MenuAction::Restore, enabled: archived },
            ]
        },
        Some(SidebarSelection::Conversation(id)) => seq![
            MenuEntry { action: MenuAction::Move, enabled: true },
            MenuEntry { action: MenuAction::Ungroup, enabled: holder_of(snapshot, id@) is Some },
            MenuEntry {
                action: MenuAction::Branch,
                enabled: conversation_of(snapshot, id@) matches Some(node) && node.branch_point
                    is Some,
            },
        ],
        None => Seq::empty(),
    }
}

/// The menu of a selection.
pub fn navigation_menu(selection: &Option<SidebarSelection>, snapshot: &NavigationSnapshot) -> (menu:
    NavigationMenu)
    ensures
        menu.label@ == menu_label(*snapshot, *selection),
        menu.entries@ == menu_entries(*snapshot, *selection),
{
    let mut entries: Vec<MenuEntry> = Vec::new();
    match selection {
        Some(SidebarSelection::Project(id)) => {
            let project = snapshot.project(id.as_str());
            let archived = match project {
                Some(node) => node.archived,
                None => false,
            };
            entries.push(MenuEntry { action: MenuAction::Rename, enabled: true });
            entries.push(MenuEntry { action: MenuAction::Archive, enabled: !archived });
            entries.push(MenuEntry { action: MenuAction::Restore, enabled: archived });
            assert(entries@ =~= menu_entries(*snapshot, *selection));
            let label = match project {
                Some(node) => node.name.clone(),
                None => "Selected Project".to_owned(),
            };
            NavigationMenu { label, entries }
        },
        Some(SidebarSelection::Conversation(id)) => {
            let conversation = snapshot.conversation(id.as_str());
            let grouped = project_for_conversation(snapshot, id.as_str()).is_some();
            let branchable = match conversation {
                Some(node) => node.branch_point.is_some(),
                None => false,
            };
            entries.push(MenuEntry { action: MenuAction::Move, enabled: true });
            entries.push(MenuEntry { action: MenuAction::Ungroup, enabled: grouped });
            entries.push(MenuEntry { action: MenuAction::Branch, enabled: branchable });
            assert(entries@ =~= menu_entries(*snapshot, *selection));
            let label = match conversation {
                Some(node) => node.title.clone(),
                None => "Selected Conversation".to_owned(),
            };
            NavigationMenu { label, entries }
        },
        None => {
            assert(entries@ =~= menu_entries(*snapshot, *selection));
            NavigationMenu { label: "Select a Project or Conversation".to_owned(), entries }
        },
    }
}

/// Whether a conversation can be moved into a project.
pub open spec fn takes(project: ProjectNode, current: Option<String>) -> bool {
    &&& !project.archived
    &&& project.workspace_status == WorkspaceStatus::Available
    &&& !(current matches Some(held) && held@ == project.id@)
}

/// The projects that a conversation can be moved into, by where they stand.
pub open spec fn targets_of(projects: Seq<ProjectNode>, current: Option<String>) -> Seq<int>
    decreases projects.len(),
{
    if projects.len() == 0 {
        Seq::empty()
    } else {
        let earlier = targets_of(projects.drop_last(), current);
        if takes(projects.last(), current) {
            earlier.push(projects.len() - 1)
        } else {
            earlier
        }
    }
}

/// Positions as numbers.
pub open spec fn positions(found: Seq<usize>) -> Seq<int> {
    Seq::new(found.len(), |i: int| found[i] as int)
}

/// The projects that a conversation can be moved into: those in use, with their
/// workspace, but for the one it is in.
pub fn move_targets(snapshot: &NavigationSnapshot, conversation: &str) -> (targets: Vec<usize>)
    ensures
        positions(targets@) == targets_of(
            snapshot.projects@,
            holder_of(*snapshot, conversation@),
        ),
{
    let current = project_for_conversation(snapshot, conversation);
    let mut targets: Vec<usize> = Vec::new();
    let mut i: usize = 0;
    assert(snapshot.projects@.take(0) =~= Seq::<ProjectNode>::empty());
    assert(positions(targets@) =~= Seq::<int>::empty());
    while i < snapshot.projects.len()
        invariant
            i <= snapshot.projects@.len(),
            current == holder_of(*snapshot, conversation@),
            positions(targets@) == targets_of(snapshot.projects@.take(i as int), current),
        decreases snapshot.projects@.len() - i,
    {
        assert(snapshot.projects@.take(i + 1).drop_last() =~= snapshot.projects@.take(i as int));
        let project = &snapshot.projects[i];
        let same = match &current {
            Some(held) => text_eq(held.as_str(), project.id.as_str()),
            None => false,
        };
        let available = matches!(project.workspace_status, WorkspaceStatus::Available);
        if !project.archived && available && !same {
            let ghost before = positions(targets@);
            targets.push(i);
            assert(positions(targets@) =~= before.push(i as int));
        }
        i += 1;
    }
    assert(snapshot.projects@.take(i as int) =~= snapshot.projects@);
    targets
}

/// What a dialog asks for.
#[derive(Debug, PartialEq, Eq)]
pub enum NavigationDialog {
    RenameProject { project: String },
    MoveConversation { conversation: String },
}

pub const DOCUMENTATION_URL: &'static str = "https://github.com/labcoder/xana#readme";

pub const DOCUMENTATION_PREFIX: &'static str = "https://github.com/labcoder/xana";

/// Whether an address is one of the documentation.
pub fn documentation_url_is_safe(url: &str) -> (safe: bool)
    ensures
        safe == (behind(url@, DOCUMENTATION_PREFIX@) is Some),
{
    starts_with(url, DOCUMENTATION_PREFIX)
}

/// What was found at a path, without following a link.
#[derive(Clone, Copy, PartialEq, Eq, Structural, Debug)]
pub enum PathKind {
    File,
    Directory,
    Link,
    Other,
    Missing,
}

/// Whether a path may be opened as a file: only where it is one itself.
pub fn trusted_regular_file(kind: PathKind) -> (trusted: bool)
    ensures
        trusted == (kind is File),
{
    matches!(kind, PathKind::File)
}

/// Whether a path may be shown as a directory: only where it is one itself.
pub fn trusted_directory(kind: PathKind) -> (trusted: bool)
    ensures
        trusted == (kind is Directory),
{
    matches!(kind, PathKind::Directory)
}

/// A conversation has one project at most to be grouped under, and that one is
/// never offered as a place to move it to.
pub proof fn own_project_is_no_target(snapshot: NavigationSnapshot, conversation: Seq<char>, at: int)
    requires
        0 <= at < snapshot.projects@.len(),
        targets_of(snapshot.projects@, holder_of(snapshot, conversation)).contains(at),
    ensures
        !snapshot.projects@[at].archived,
        snapshot.projects@[at].workspace_status == WorkspaceStatus::Available,
        holder_of(snapshot, conversation) matches Some(held) ==> held@
            != snapshot.projects@[at].id@,
{
    targets_are_open(snapshot.projects@, holder_of(snapshot, conversation), at);
}

proof fn targets_are_open(projects: Seq<ProjectNode>, current: Option<String>, at: int)
    requires
        targets_of(projects, current).contains(at),
    ensures
        0 <= at < projects.len(),
        takes(projects[at], current),
    decreases projects.len(),
{
    if projects.len() > 0 {
        let earlier = targets_of(projects.drop_last(), current);
        let all = targets_of(projects, current);
        let k = all.index_of(at);
        assert(all[k] == at);
        if takes(projects.last(), current) {
            if k < earlier.len() {
                assert(earlier[k] == at);
                targets_are_open(projects.drop_last(), current, at);
            }
        } else {
            targets_are_open(projects.drop_last(), current, at);
        }
    }
}

/// A launch leads to the place that it names, and to the conversation where it names
/// none.
pub proof fn launches_lead_to_their_place(intent: LaunchIntent, needs_attention: bool)
    ensures
        intent matches LaunchIntent::Navigate(target) ==> intended(intent) == target,
        intent is Focus ==> intended(intent) is Conversation,
        overview_destination(needs_attention) is Activity <==> needs_attention,
        overview_destination(needs_attention) is Conversation <==> !needs_attention,
{
}

proof fn conversations_stand_at_their_index(nodes: Seq<ConversationNode>, id: Seq<char>)
    ensures
        conversation_index(nodes, id) <= nodes.len(),
        conversation_index(nodes, id) < nodes.len() ==> nodes[conversation_index(
            nodes,
            id,
        ) as int].id@ == id,
        conversation_index(nodes, id) == nodes.len() ==> forall|i: int|
            0 <= i < nodes.len() ==> (#[trigger] nodes[i]).id@ != id,
    decreases nodes.len(),
{
    if nodes.len() > 0 && nodes[0].id@ != id {
        let rest = nodes.drop_first();
        conversations_stand_at_their_index(rest, id);
        if conversation_index(rest, id) == rest.len() {
            assert forall|i: int| 0 <= i < nodes.len() implies (#[trigger] nodes[i]).id@ != id by {
                if i > 0 {
                    assert(rest[i - 1] == nodes[i]);
                }
            }
        }
    }
}

proof fn projects_stand_at_their_index(projects: Seq<ProjectNode>, id: Seq<char>)
    ensures
        project_index(projects, id) <= projects.len(),
        project_index(projects, id) < projects.len() ==> projects[project_index(
            projects,
            id,
        ) as int].id@ == id,
        project_index(projects, id) == projects.len() ==> forall|i: int|
            0 <= i < projects.len() ==> (#[trigger] projects[i]).id@ != id,
    decreases projects.len(),
{
    if projects.len() > 0 && projects[0].id@ != id {
        let rest = projects.drop_first();
        projects_stand_at_their_index(rest, id);
        if project_index(rest, id) == rest.len() {
            assert forall|i: int| 0 <= i < projects.len() implies (#[trigger] projects[i]).id@
                != id by {
                if i > 0 {
                    assert(rest[i - 1] == projects[i]);
                }
            }
        }
    }
}

proof fn holders_hold(projects: Seq<ProjectNode>, id: Seq<char>)
    ensures
        holder_index(projects, id) <= projects.len(),
        holder_index(projects, id) < projects.len() ==> {
            let nodes = projects[holder_index(projects, id) as int].conversations@;
            conversation_index(nodes, id) < nodes.len()
        },
        holder_index(projects, id) == projects.len() ==> forall|i: int|
            0 <= i < projects.len() ==> conversation_index(
                (#[trigger] projects[i]).conversations@,
                id,
            ) >= projects[i].conversations@.len(),
    decreases projects.len(),
{
    if projects.len() > 0 && !(conversation_index(projects[0].conversations@, id)
        < projects[0].conversations@.len()) {
        let rest = projects.drop_first();
        holders_hold(rest, id);
        if holder_index(rest, id) == rest.len() {
            assert forall|i: int| 0 <= i < projects.len() implies conversation_index(
                (#[trigger] projects[i]).conversations@,
                id,
            ) >= projects[i].conversations@.len() by {
                if i > 0 {
                    assert(rest[i - 1] == projects[i]);
                }
            }
        }
    }
}

/// What is looked up by an id has that id: a conversation, a project, and the project
/// that holds a conversation. What is not found is nowhere.
pub proof fn lookups_find_what_they_name(snapshot: NavigationSnapshot, id: Seq<char>)
    ensures
        conversation_of(snapshot, id) matches Some(node) ==> node.id@ == id,
        project_of(snapshot, id) matches Some(node) ==> node.id@ == id && snapshot.projects@.contains(
            node,
        ),
        holder_of(snapshot, id) matches Some(project) ==> exists|i: int|
            0 <= i < snapshot.projects@.len() && (#[trigger] snapshot.projects@[i]).id == project
                && exists|j: int|
                0 <= j < snapshot.projects@[i].conversations@.len() && (
                #[trigger] snapshot.projects@[i].conversations@[j]).id@ == id,
        conversation_of(snapshot, id) is None ==> forall|i: int|
            0 <= i < snapshot.ungrouped@.len() ==> (#[trigger] snapshot.ungrouped@[i]).id@ != id,
        project_of(snapshot, id) is None ==> forall|i: int|
            0 <= i < snapshot.projects@.len() ==> (#[trigger] snapshot.projects@[i]).id@ != id,
{
    conversations_stand_at_their_index(snapshot.ungrouped@, id);
    projects_stand_at_their_index(snapshot.projects@, id);
    holders_hold(snapshot.projects@, id);
    let at = holder_index(snapshot.projects@, id) as int;
    if at < snapshot.projects@.len() {
        let nodes = snapshot.projects@[at].conversations@;
        conversations_stand_at_their_index(nodes, id);
        assert(nodes[conversation_index(nodes, id) as int].id@ == id);
        assert(snapshot.projects@[at].id == snapshot.projects@[at].id);
    }
}

/// A menu offers what can be done with what is selected: a project is archived or
/// restored, whichever it is not; a conversation is taken out of a project only where
/// it is in one, and branched only where it has a point to branch at.
pub proof fn menus_offer_what_can_be_done(
    snapshot: NavigationSnapshot,
    selection: Option<SidebarSelection>,
    entry: MenuEntry,
)
    requires
        menu_entries(snapshot, selection).contains(entry),
    ensures
        selection is Some,
        entry.action == MenuAction::Rename || entry.action == MenuAction::Archive || entry.action
            == MenuAction::Restore ==> selection matches Some(SidebarSelection::Project(_)),
        entry.action == MenuAction::Move || entry.action == MenuAction::Ungroup || entry.action
            == MenuAction::Branch ==> selection matches Some(SidebarSelection::Conversation(_)),
        entry.action == MenuAction::Ungroup ==> (selection matches Some(
            SidebarSelection::Conversation(id),
        ) && entry.enabled == (holder_of(snapshot, id@) is Some)),
        entry.action == MenuAction::Archive ==> (selection matches Some(
            SidebarSelection::Project(id),
        ) && (project_of(snapshot, id@) matches Some(node) ==> entry.enabled == !node.archived)),
        entry.action == MenuAction::Restore ==> (selection matches Some(
            SidebarSelection::Project(id),
        ) && (project_of(snapshot, id@) matches Some(node) ==> entry.enabled == node.archived)),
        entry.action == MenuAction::Branch && entry.enabled ==> (selection matches Some(
            SidebarSelection::Conversation(id),
        ) && conversation_of(snapshot, id@) matches Some(node) && node.branch_point is Some),
{
}

/// The sidebar shows every project and every conversation, in their order and by their own
/// names, each under an item that leads back to it. A conversation that needs its user says
/// so, and any other shows its state; a project without a badge is open and in its place.
pub proof fn sidebars_show_everything(snapshot: &NavigationSnapshot, sections: SidebarSections)
    requires
        call_ensures(sidebar_sections, (snapshot,), sections),
    ensures
        sections.projects@.len() == snapshot.projects@.len(),
        sections.conversations@.len() == snapshot.ungrouped@.len(),
        forall|i: int|
            0 <= i < snapshot.projects@.len() ==> {
                let node = snapshot.projects@[i];
                let item = #[trigger] sections.projects@[i];
                &&& item.label@ == node.name@
                &&& item.id@ == PROJECT_PREFIX@ + node.id@
                &&& item.badge is None <==> node.workspace_status == WorkspaceStatus::Available
                    && !node.archived
                &&& item.children@.len() == node.conversations@.len()
            },
        forall|i: int|
            0 <= i < snapshot.ungrouped@.len() ==> {
                let node = snapshot.ungrouped@[i];
                let item = #[trigger] sections.conversations@[i];
                &&& item.label@ == node.title@
                &&& item.id@ == CONVERSATION_PREFIX@ + node.id@
                &&& node.needs_attention ==> item.badge@ == "Needs you"@
                &&& !node.needs_attention ==> item.badge@ == node.state@
            },
        forall|i: int, j: int|
            0 <= i < snapshot.projects@.len() && 0 <= j < snapshot.projects@[i].conversations@.len()
                ==> {
                let node = snapshot.projects@[i].conversations@[j];
                let item = #[trigger] sections.projects@[i].children@[j];
                &&& item.label@ == node.title@
                &&& item.id@ == CONVERSATION_PREFIX@ + node.id@
                &&& !node.needs_attention ==> item.badge@ == node.state@
            },
{
    assert forall|i: int| 0 <= i < snapshot.projects@.len() implies shows_project(
        snapshot.projects@[i],
        #[trigger] sections.projects@[i],
    ) by {}
    assert forall|i: int, j: int|
        0 <= i < snapshot.projects@.len() && 0 <= j
            < snapshot.projects@[i].conversations@.len() implies shows_conversation(
        snapshot.projects@[i].conversations@[j],
        #[trigger] sections.projects@[i].children@[j],
    ) by {
        assert(shows_project(snapshot.projects@[i], sections.projects@[i]));
    }
}

/// What a menu offers is told apart by its label.
pub proof fn menu_labels_differ(
    one: MenuAction,
    other: MenuAction,
    first: &'static str,
    second: &'static str,
)
    requires
        call_ensures(MenuAction::label, (one,), first),
        call_ensures(MenuAction::label, (other,), second),
        first@ == second@,
    ensures
        one == other,
{
    reveal_strlit("Rename…");
    reveal_strlit("Archive…");
    reveal_strlit("Restore…");
    reveal_strlit("Move or continue in Project…");
    reveal_strlit("Move to Ungrouped");
    reveal_strlit("Branch at latest committed point…");
    assert("Rename…"@[2] == 'n');
    assert("Restore…"@[2] == 's');
    assert("Archive…"@[0] == 'A');
    assert("Rename…"@[0] == 'R');
    assert("Restore…"@[0] == 'R');
    assert("Move to Ungrouped"@[0] == 'M');
    assert("Move or continue in Project…"@[0] == 'M');
    assert("Branch at latest committed point…"@[0] == 'B');
    assert("Move to Ungrouped"@.len() != "Move or continue in Project…"@.len());
}

}
