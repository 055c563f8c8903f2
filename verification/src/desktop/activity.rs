//! What the workbench says of what is going on.

use crate::text::{
    chars_of, decimal, decimal_text, joined, longer_texts_hold_the_same, occurs, option_view,
    parts_occur, text_eq, text_of, texts_hold_their_beginning, width,
};
use vstd::prelude::*;
use vstd::string::*;

verus! {

/// Who does a piece of work.
#[derive(Debug, PartialEq, Eq)]
pub enum ActivityOwner {
    XanaRoot,
    NativeChild { agent_id: String },
    Managed { runtime: String },
    Mcp { server: String },
    A2a { agent: String },
}

/// How far a piece of work is.
#[derive(Clone, Copy, PartialEq, Eq, Structural, Debug)]
pub enum ActivityState {
    Queued,
    Working,
    Waiting,
    Completed,
    Failed,
    Cancelled,
}

/// How something is colored.
#[derive(Clone, Copy, PartialEq, Eq, Structural, Debug)]
pub enum Tone {
    Neutral,
    Info,
    Warning,
    Success,
    Danger,
}

/// How many characters of a text make up exactly so many bytes, if some do.
pub open spec fn prefix_of_bytes(text: Seq<char>, bytes: nat) -> Option<nat>
    decreases text.len(),
{
    if bytes == 0 {
        Some(0)
    } else if text.len() == 0 {
        None
    } else {
        let first = crate::text::char_width(text[0]);
        if first > bytes {
            None
        } else {
            match prefix_of_bytes(text.drop_first(), (bytes - first) as nat) {
                Some(count) => Some(count + 1),
                None => None,
            }
        }
    }
}

/// How many bytes of an identity are shown.
pub const SHORT_IDENTITY_BYTES: usize = 8;

/// The first bytes of an identity, or all of it where they end within a
/// character or there are fewer.
pub open spec fn shortened(identity: Seq<char>) -> Seq<char> {
    match prefix_of_bytes(identity, SHORT_IDENTITY_BYTES as nat) {
        Some(count) => identity.take(count as int),
        None => identity,
    }
}

/// An identity, shortened.
pub fn short_identity(identity: &str) -> (short: String)
    ensures
        short@ == shortened(identity@),
{
    let chars = chars_of(identity);
    let ghost text = identity@;
    let mut left: usize = SHORT_IDENTITY_BYTES;
    let mut i: usize = 0;
    assert(text.skip(0) =~= text);
    while left > 0 && i < chars.len()
        invariant
            text == identity@,
            chars@ == text,
            i <= chars@.len(),
            left <= SHORT_IDENTITY_BYTES,
            match prefix_of_bytes(text.skip(i as int), left as nat) {
                Some(count) => prefix_of_bytes(text, SHORT_IDENTITY_BYTES as nat) == Some(
                    (count + i) as nat,
                ),
                None => prefix_of_bytes(text, SHORT_IDENTITY_BYTES as nat) is None,
            },
        decreases chars@.len() - i,
    {
        let first: usize = width(chars[i]);
        assert(text.skip(i as int)[0] == chars@[i as int]);
        assert(text.skip(i as int).drop_first() =~= text.skip(i + 1));
        if first > left {
            return identity.to_owned();
        }
        left = left - first;
        i += 1;
    }
    if left > 0 {
        return identity.to_owned();
    }
    assert(text.subrange(0, i as int) =~= text.take(i as int));
    text_of(&chars, 0, i)
}

/// The name of an owner.
pub open spec fn owner_text(owner: ActivityOwner) -> Seq<char> {
    match owner {
        ActivityOwner::XanaRoot => "Xana root"@,
        ActivityOwner::NativeChild { agent_id } => "Native child "@ + shortened(agent_id@),
        ActivityOwner::Managed { runtime } => "Managed "@ + runtime@,
        ActivityOwner::Mcp { server } => "MCP "@ + server@,
        ActivityOwner::A2a { agent } => "A2A "@ + agent@,
    }
}

/// The name of an owner.
pub fn owner_label(owner: &ActivityOwner) -> (text: String)
    ensures
        text@ == owner_text(*owner),
{
    match owner {
        ActivityOwner::XanaRoot => "Xana root".to_owned(),
        ActivityOwner::NativeChild { agent_id } => {
            let mut text = "Native child ".to_owned();
            text.append(short_identity(agent_id.as_str()).as_str());
            text
        },
        ActivityOwner::Managed { runtime } => {
            let mut text = "Managed ".to_owned();
            text.append(runtime.as_str());
            text
        },
        ActivityOwner::Mcp { server } => {
            let mut text = "MCP ".to_owned();
            text.append(server.as_str());
            text
        },
        ActivityOwner::A2a { agent } => {
            let mut text = "A2A ".to_owned();
            text.append(agent.as_str());
            text
        },
    }
}

/// The name of a state.
pub open spec fn state_name(state: ActivityState) -> Seq<char> {
    match state {
        ActivityState::Queued => "Queued"@,
        ActivityState::Working => "Working"@,
        ActivityState::Waiting => "Needs you"@,
        ActivityState::Completed => "Completed"@,
        ActivityState::Failed => "Failed"@,
        ActivityState::Cancelled => "Cancelled"@,
    }
}

/// The color of a state.
pub open spec fn state_tone(state: ActivityState) -> Tone {
    match state {
        ActivityState::Queued => Tone::Neutral,
        ActivityState::Working => Tone::Info,
        ActivityState::Waiting => Tone::Warning,
        ActivityState::Completed => Tone::Success,
        ActivityState::Failed => Tone::Danger,
        ActivityState::Cancelled => Tone::Neutral,
    }
}

/// The name and the color of a state.
pub fn state_label(state: ActivityState) -> (shown: (&'static str, Tone))
    ensures
        shown.0@ == state_name(state),
        shown.1 == state_tone(state),
{
    match state {
        ActivityState::Queued => ("Queued", Tone::Neutral),
        ActivityState::Working => ("Working", Tone::Info),
        ActivityState::Waiting => ("Needs you", Tone::Warning),
        ActivityState::Completed => ("Completed", Tone::Success),
        ActivityState::Failed => ("Failed", Tone::Danger),
        ActivityState::Cancelled => ("Cancelled", Tone::Neutral),
    }
}

/// The upper case of a character, which can be several characters.
pub uninterp spec fn upper_case(c: char) -> Seq<char>;

/// `char::to_uppercase` and the text of what it yields: the upper case of the
/// character by Unicode. What that is of each character is left to the name.
#[verifier::external_body]
pub(crate) fn uppercase(c: char) -> (text: String)
    ensures
        text@ == upper_case(c),
{
    c.to_uppercase().to_string()
}

/// Whether a character parts the words of a code.
pub open spec fn parts_words(c: char) -> bool {
    c == '.' || c == '_'
}

/// The words of a code, without the empty ones.
pub open spec fn words_of(code: Seq<char>) -> Seq<Seq<char>>
    decreases code.len(),
{
    if code.len() == 0 {
        Seq::empty()
    } else if parts_words(code.last()) {
        words_of(code.drop_last())
    } else {
        let earlier = code.drop_last();
        let words = words_of(earlier);
        if earlier.len() == 0 || parts_words(earlier.last()) {
            words.push(seq![code.last()])
        } else {
            words.drop_last().push(words.last().push(code.last()))
        }
    }
}

/// A code in words: the first letter large, and a space between words.
pub open spec fn humanized(code: Seq<char>) -> Seq<char> {
    let label = joined(words_of(code), " "@);
    if label.len() == 0 {
        "Activity"@
    } else {
        upper_case(label[0]) + label.skip(1)
    }
}

/// The words of a code with a space between them.
pub open spec fn spaced(code: Seq<char>) -> Seq<char>
    decreases code.len(),
{
    if code.len() == 0 {
        Seq::empty()
    } else if parts_words(code.last()) {
        spaced(code.drop_last())
    } else {
        let earlier = code.drop_last();
        if spaced(earlier).len() > 0 && parts_words(earlier.last()) {
            spaced(earlier).push(' ').push(code.last())
        } else {
            spaced(earlier).push(code.last())
        }
    }
}

proof fn words_are_there(code: Seq<char>)
    ensures
        words_of(code).len() == 0 ==> spaced(code).len() == 0,
        spaced(code).len() == 0 ==> words_of(code).len() == 0,
        code.len() > 0 && !parts_words(code.last()) ==> words_of(code).len() > 0,
        forall|i: int| 0 <= i < words_of(code).len() ==> (#[trigger] words_of(code)[i]).len() > 0,
    decreases code.len(),
{
    if code.len() > 0 {
        words_are_there(code.drop_last());
    }
}

proof fn joined_words_are_spaced(code: Seq<char>)
    ensures
        joined(words_of(code), " "@) == spaced(code),
    decreases code.len(),
{
    reveal_strlit(" ");
    if code.len() > 0 {
        let earlier = code.drop_last();
        joined_words_are_spaced(earlier);
        words_are_there(earlier);
        words_are_there(code);
        if !parts_words(code.last()) {
            let words = words_of(earlier);
            let all = words_of(code);
            if earlier.len() == 0 || parts_words(earlier.last()) {
                assert(all.drop_last() =~= words);
                assert(all.last() =~= seq![code.last()]);
                if words.len() == 0 {
                    assert(joined(all, " "@) =~= seq![code.last()]);
                    assert(spaced(earlier) =~= Seq::<char>::empty());
                    assert(spaced(code) =~= seq![code.last()]);
                } else {
                    assert(" "@ =~= seq![' ']);
                    assert(joined(all, " "@) =~= spaced(earlier).push(' ').push(code.last()));
                }
            } else {
                let front = words.drop_last();
                assert(all.drop_last() =~= front);
                assert(all.last() == words.last().push(code.last()));
                if words.len() == 1 {
                    assert(joined(words, " "@) == words[0]);
                    assert(joined(all, " "@) =~= words[0].push(code.last()));
                } else {
                    assert(joined(words, " "@) == joined(front, " "@) + " "@ + words.last());
                    assert(joined(all, " "@) =~= (joined(front, " "@) + " "@ + words.last()).push(
                        code.last(),
                    ));
                }
            }
        }
    }
}

/// A code in words.
pub fn humanize_semantic_code(code: &str) -> (label: String)
    ensures
        label@ == humanized(code@),
{
    let chars = chars_of(code);
    let ghost text = code@;
    let mut spelled: Vec<char> = Vec::new();
    let mut i: usize = 0;
    assert(text.take(0) =~= Seq::<char>::empty());
    while i < chars.len()
        invariant
            chars@ == text,
            i <= chars@.len(),
            spelled@ == spaced(text.take(i as int)),
        decreases chars@.len() - i,
    {
        let c = chars[i];
        assert(text.take(i + 1).drop_last() =~= text.take(i as int));
        assert(text.take(i + 1).last() == c);
        if c != '.' && c != '_' {
            if spelled.len() > 0 && (chars[i - 1] == '.' || chars[i - 1] == '_') {
                assert(i > 0 ==> text.take(i as int).last() == chars@[i - 1]);
                spelled.push(' ');
            } else {
                assert(i > 0 ==> text.take(i as int).last() == chars@[i - 1]);
            }
            spelled.push(c);
        }
        i += 1;
    }
    proof {
        assert(text.take(i as int) =~= text);
        joined_words_are_spaced(text);
    }
    if spelled.len() == 0 {
        return "Activity".to_owned();
    }
    let mut label = uppercase(spelled[0]);
    let rest = text_of(&spelled, 1, spelled.len());
    assert(rest@ =~= spelled@.skip(1));
    label.append(rest.as_str());
    label
}

/// Where an execution runs and under what.
#[derive(Debug, PartialEq, Eq)]
pub struct ExecutionFacts {
    pub owner: String,
    pub host_location: String,
    pub workspace_authority: String,
    pub approval_policy: String,
}

/// What is said of the latest execution.
pub open spec fn execution_text(execution: Option<ExecutionFacts>, connection: Seq<char>) -> Seq<char> {
    match execution {
        None => connection + " · embedded · authority unavailable"@,
        Some(facts) => facts.owner@ + " · "@ + facts.host_location@ + " · "@
            + facts.workspace_authority@ + " · approvals "@ + facts.approval_policy@,
    }
}

/// What is said of the latest execution.
pub fn execution_summary(execution: Option<&ExecutionFacts>, connection: &str) -> (text: String)
    ensures
        text@ == execution_text(
            (match execution {
                Some(facts) => Some(*facts),
                None => None,
            }),
            connection@,
        ),
{
    match execution {
        None => {
            let mut text = connection.to_owned();
            text.append(" · embedded · authority unavailable");
            text
        },
        Some(facts) => {
            let mut text = facts.owner.clone();
            text.append(" · ");
            text.append(facts.host_location.as_str());
            text.append(" · ");
            text.append(facts.workspace_authority.as_str());
            text.append(" · approvals ");
            text.append(facts.approval_policy.as_str());
            text
        },
    }
}

/// What is said of the size of the prompt.
pub open spec fn ledger_text(used: Option<u64>, budget: Option<u64>, reason: Option<Seq<char>>) -> Seq<
    char,
> {
    match (used, budget) {
        (Some(used), Some(budget)) => "Prompt estimate "@ + decimal(used as nat) + " / "@ + decimal(
            budget as nat,
        ) + " input tokens"@,
        _ => match reason {
            Some(reason) => reason,
            None => "Prompt ledger unavailable"@,
        },
    }
}

/// What is said of the size of the prompt.
pub fn prompt_summary(used: Option<u64>, budget: Option<u64>, reason: &Option<String>) -> (text: String)
    ensures
        text@ == ledger_text(used, budget, option_view(*reason)),
{
    match (used, budget) {
        (Some(used), Some(budget)) => {
            let mut text = "Prompt estimate ".to_owned();
            text.append(decimal_text(used).as_str());
            text.append(" / ");
            text.append(decimal_text(budget).as_str());
            text.append(" input tokens");
            text
        },
        _ => match reason {
            Some(reason) => reason.clone(),
            None => "Prompt ledger unavailable".to_owned(),
        },
    }
}

/// A run that came to an end.
#[derive(Debug, PartialEq, Eq)]
pub struct CompletionReceipt {
    pub operation: String,
    pub status: String,
    pub checks: Vec<bool>,
    pub artifacts: usize,
}

/// How many checks were passed.
pub open spec fn passed(checks: Seq<bool>) -> nat
    decreases checks.len(),
{
    if checks.len() == 0 {
        0
    } else {
        passed(checks.drop_last()) + (if checks.last() {
            1nat
        } else {
            0
        })
    }
}

fn count_passed(checks: &Vec<bool>) -> (count: usize)
    ensures
        count == passed(checks@),
        count <= checks@.len(),
{
    let mut count: usize = 0;
    let mut i: usize = 0;
    assert(checks@.take(0) =~= Seq::<bool>::empty());
    while i < checks.len()
        invariant
            i <= checks@.len(),
            count <= i,
            count == passed(checks@.take(i as int)),
        decreases checks@.len() - i,
    {
        assert(checks@.take(i + 1).drop_last() =~= checks@.take(i as int));
        if checks[i] {
            count += 1;
        }
        i += 1;
    }
    assert(checks@.take(i as int) =~= checks@);
    count
}

/// What is said of a run that came to an end.
pub open spec fn receipt_text(receipt: CompletionReceipt) -> Seq<char> {
    "Run "@ + receipt.operation@ + " · "@ + decimal(passed(receipt.checks@)) + "/"@ + decimal(
        receipt.checks@.len(),
    ) + " checks · "@ + decimal(receipt.artifacts as nat) + " artifact(s)"@
}

/// How a run that came to an end is colored.
pub open spec fn receipt_tone(receipt: CompletionReceipt) -> Tone {
    if receipt.status@ == "completed"@ {
        Tone::Success
    } else {
        Tone::Danger
    }
}

/// What is said of a run that came to an end, and how it is colored.
pub fn completion_summary(receipt: &CompletionReceipt) -> (shown: (String, Tone))
    ensures
        shown.0@ == receipt_text(*receipt),
        shown.1 == receipt_tone(*receipt),
{
    let mut text = "Run ".to_owned();
    text.append(receipt.operation.as_str());
    text.append(" · ");
    text.append(decimal_text(count_passed(&receipt.checks) as u64).as_str());
    text.append("/");
    text.append(decimal_text(receipt.checks.len() as u64).as_str());
    text.append(" checks · ");
    text.append(decimal_text(receipt.artifacts as u64).as_str());
    text.append(" artifact(s)");
    let tone = if text_eq(receipt.status.as_str(), "completed") {
        Tone::Success
    } else {
        Tone::Danger
    };
    (text, tone)
}

/// What is asked before a tool is used once.
#[derive(Debug, PartialEq, Eq)]
pub struct ApprovalQuestion {
    pub title: String,
    pub description: String,
}

/// Whether a question is the one that is asked before a tool is used once.
pub open spec fn asks_once(
    tool: Seq<char>,
    effect: Seq<char>,
    scope: Seq<char>,
    question: ApprovalQuestion,
) -> bool {
    &&& question.title@ == "Allow "@ + tool + "?"@
    &&& question.description@ == effect + "\nScope: "@ + scope
        + "\nThis decision applies once to the current Run."@
}

/// What is asked before a tool is used once.
pub fn approval_question(tool: &str, effect: &str, scope: &str) -> (question: ApprovalQuestion)
    ensures
        asks_once(tool@, effect@, scope@, question),
{
    let mut title = "Allow ".to_owned();
    title.append(tool);
    title.append("?");
    let mut description = effect.to_owned();
    description.append("\nScope: ");
    description.append(scope);
    description.append("\nThis decision applies once to the current Run.");
    ApprovalQuestion { title, description }
}

/// The state of the runtime as it is shown.
#[derive(Clone, Copy, PartialEq, Eq, Structural, Debug)]
pub enum RuntimeStatus {
    NeedsAttention,
    Working,
    Ready,
}

/// The state of the runtime: a failure comes before work.
pub fn runtime_status(failed: bool, running: bool) -> (status: RuntimeStatus)
    ensures
        status == (if failed {
            RuntimeStatus::NeedsAttention
        } else if running {
            RuntimeStatus::Working
        } else {
            RuntimeStatus::Ready
        }),
{
    if failed {
        RuntimeStatus::NeedsAttention
    } else if running {
        RuntimeStatus::Working
    } else {
        RuntimeStatus::Ready
    }
}

/// The first text at the foot of the window.
pub open spec fn left_status(
    lifecycle: Seq<char>,
    place: Seq<char>,
    running: bool,
    approvals: nat,
) -> Seq<char> {
    lifecycle + " · "@ + place + " · "@ + (if running {
        "1"@
    } else {
        "0"@
    }) + " active Run · "@ + decimal(approvals) + " approval(s)"@
}

/// The second text at the foot of the window.
pub open spec fn right_status(notices: nat, latest: Seq<char>) -> Seq<char> {
    decimal(notices) + " notice(s) · "@ + latest
}

/// The two texts at the foot of the window.
pub fn status_bar(
    lifecycle: &str,
    place: &str,
    running: bool,
    approvals: usize,
    notices: usize,
    latest: &str,
) -> (texts: (String, String))
    ensures
        texts.0@ == left_status(lifecycle@, place@, running, approvals as nat),
        texts.1@ == right_status(notices as nat, latest@),
{
    let mut left = lifecycle.to_owned();
    left.append(" · ");
    left.append(place);
    left.append(" · ");
    left.append(
        if running {
            "1"
        } else {
            "0"
        },
    );
    left.append(" active Run · ");
    left.append(decimal_text(approvals as u64).as_str());
    left.append(" approval(s)");
    let mut right = decimal_text(notices as u64);
    right.append(" notice(s) · ");
    right.append(latest);
    (left, right)
}

/// What is said of a message that waits its turn.
pub open spec fn queue_text(attachments: nat) -> Seq<char> {
    if attachments == 0 {
        "after the active Run"@
    } else {
        "after the active Run · "@ + decimal(attachments) + " attachment"@ + (if attachments == 1 {
            ""@
        } else {
            "s"@
        })
    }
}

/// What is said of a message that waits its turn.
pub fn queue_note(attachments: usize) -> (text: String)
    ensures
        text@ == queue_text(attachments as nat),
{
    if attachments == 0 {
        return "after the active Run".to_owned();
    }
    let mut text = "after the active Run · ".to_owned();
    text.append(decimal_text(attachments as u64).as_str());
    text.append(" attachment");
    text.append(
        if attachments == 1 {
            ""
        } else {
            "s"
        },
    );
    text
}

/// What is said of an attachment.
pub open spec fn attachment_text(size: Option<(u32, u32)>, media_type: Seq<char>) -> Seq<char> {
    match size {
        Some((width, height)) => decimal(width as nat) + "×"@ + decimal(height as nat),
        None => media_type,
    }
}

/// What is said of an attachment: its size where both sides are known, and
/// otherwise its type.
pub fn attachment_detail(width: Option<u32>, height: Option<u32>, media_type: &str) -> (text: String)
    ensures
        text@ == attachment_text(
            (match (width, height) {
                (Some(width), Some(height)) => Some((width, height)),
                _ => None,
            }),
            media_type@,
        ),
{
    match (width, height) {
        (Some(width), Some(height)) => {
            let mut text = decimal_text(width as u64);
            text.append("×");
            text.append(decimal_text(height as u64).as_str());
            text
        },
        _ => media_type.to_owned(),
    }
}

/// A panel of the workbench.
#[derive(Clone, Copy, PartialEq, Eq, Structural, Debug)]
pub enum Panel {
    Conversation,
    Activity,
    Message,
    Summary,
    Artifacts,
    Usage,
    WorkingSet,
    Unavailable,
}

/// What a panel holds: a live view, or only a text.
pub open spec fn panel_body(
    panel: Panel,
    connection: Seq<char>,
    model: Seq<char>,
    lifecycle: Seq<char>,
    artifacts: nat,
) -> Option<(Seq<char>, Seq<char>)> {
    match panel {
        Panel::Conversation | Panel::Activity | Panel::Message => None,
        Panel::Summary => Some(
            ("Summary"@, connection + " · "@ + model + " · "@ + lifecycle),
        ),
        Panel::Artifacts => Some(("Artifacts"@, decimal(artifacts) + " retained artifact(s)"@)),
        Panel::Usage => Some(
            ("Usage"@, "Usage observations remain source-qualified in Activity."@),
        ),
        Panel::WorkingSet => Some(
            ("Working Set"@, "Pin trusted items here without changing their lifecycle."@),
        ),
        Panel::Unavailable => Some(
            (
                "Unavailable panel"@,
                "This imported panel is not part of Xana's trusted catalog."@,
            ),
        ),
    }
}

/// The title and the text of a panel that has no live view.
pub fn panel_text(panel: Panel, connection: &str, model: &str, lifecycle: &str, artifacts: usize) -> (
    body: Option<(&'static str, String)>)
    ensures
        match body {
            Some((title, text)) => panel_body(
                panel,
                connection@,
                model@,
                lifecycle@,
                artifacts as nat,
            ) == Some((title@, text@)),
            None => panel_body(panel, connection@, model@, lifecycle@, artifacts as nat) is None,
        },
{
    match panel {
        Panel::Conversation | Panel::Activity | Panel::Message => None,
        Panel::Summary => {
            let mut text = connection.to_owned();
            text.append(" · ");
            text.append(model);
            text.append(" · ");
            text.append(lifecycle);
            Some(("Summary", text))
        },
        Panel::Artifacts => {
            let mut text = decimal_text(artifacts as u64);
            text.append(" retained artifact(s)");
            Some(("Artifacts", text))
        },
        Panel::Usage => Some(
            ("Usage", "Usage observations remain source-qualified in Activity.".to_owned()),
        ),
        Panel::WorkingSet => Some(
            ("Working Set", "Pin trusted items here without changing their lifecycle.".to_owned()),
        ),
        Panel::Unavailable => Some(
            (
                "Unavailable panel",
                "This imported panel is not part of Xana's trusted catalog.".to_owned(),
            ),
        ),
    }
}

/// The panel that a stack of tabs shows.
pub fn shown_panel(panels: &Vec<Panel>, active: usize) -> (panel: Panel)
    ensures
        panel == (if active < panels@.len() {
            panels@[active as int]
        } else {
            Panel::Unavailable
        }),
{
    if active < panels.len() {
        panels[active]
    } else {
        Panel::Unavailable
    }
}

/// Whether a panel can be closed: the one to write in stays.
pub fn can_close(panel: Panel) -> (yes: bool)
    ensures
        yes == !(panel is Message),
{
    !matches!(panel, Panel::Message)
}

/// The optional panels that are not open, in their order.
pub open spec fn closed_panels(open: Seq<Panel>) -> Seq<Panel> {
    let optional = seq![Panel::Summary, Panel::Artifacts, Panel::Usage, Panel::WorkingSet];
    optional.filter(|panel: Panel| !open.contains(panel))
}

fn is_open(panels: &Vec<Panel>, panel: Panel) -> (yes: bool)
    ensures
        yes == panels@.contains(panel),
{
    let mut i: usize = 0;
    while i < panels.len()
        invariant
            i <= panels@.len(),
            forall|j: int| 0 <= j < i ==> panels@[j] != panel,
        decreases panels@.len() - i,
    {
        if panels[i] == panel {
            return true;
        }
        i += 1;
    }
    false
}

/// The optional panels that can be opened again.
pub fn reopenable(panels: &Vec<Panel>) -> (closed: Vec<Panel>)
    ensures
        closed@ == closed_panels(panels@),
{
    let mut optional: Vec<Panel> = Vec::new();
    optional.push(Panel::Summary);
    optional.push(Panel::Artifacts);
    optional.push(Panel::Usage);
    optional.push(Panel::WorkingSet);
    let ghost all = seq![Panel::Summary, Panel::Artifacts, Panel::Usage, Panel::WorkingSet];
    let ghost absent = |panel: Panel| !panels@.contains(panel);
    assert(optional@ =~= all);
    let mut closed: Vec<Panel> = Vec::new();
    let mut i: usize = 0;
    proof {
        reveal(Seq::filter);
        assert(all.take(0) =~= Seq::<Panel>::empty());
    }
    while i < optional.len()
        invariant
            optional@ == all,
            absent == (|panel: Panel| !panels@.contains(panel)),
            i <= optional@.len(),
            closed@ == all.take(i as int).filter(absent),
        decreases optional@.len() - i,
    {
        proof {
            reveal(Seq::filter);
            assert(all.take(i + 1).drop_last() =~= all.take(i as int));
            assert(all.take(i + 1).last() == all[i as int]);
        }
        if !is_open(panels, optional[i]) {
            closed.push(optional[i]);
        }
        i += 1;
    }
    assert(all.take(i as int) =~= all);
    closed
}

/// What the window shows in its middle.
#[derive(Clone, Copy, PartialEq, Eq, Structural, Debug)]
pub enum Canvas {
    Settings,
    Espejo,
    Maximized,
    Layout,
}

/// What the window shows in its middle.
pub open spec fn canvas_of(
    target: crate::desktop::navigation::NavigationTarget,
    maximized: bool,
) -> Canvas {
    if target.among_settings() {
        Canvas::Settings
    } else if target is Espejo {
        Canvas::Espejo
    } else if maximized {
        Canvas::Maximized
    } else {
        Canvas::Layout
    }
}

/// What the window shows in its middle, and whether the library of panels stands
/// below it.
pub fn shown_canvas(
    target: crate::desktop::navigation::NavigationTarget,
    maximized: bool,
) -> (shown: (Canvas, bool))
    ensures
        shown.0 == canvas_of(target, maximized),
        shown.1 == !(target.among_settings() || target is Espejo),
{
    if target.in_settings() {
        (Canvas::Settings, false)
    } else if matches!(target, crate::desktop::navigation::NavigationTarget::Espejo) {
        (Canvas::Espejo, false)
    } else if maximized {
        (Canvas::Maximized, true)
    } else {
        (Canvas::Layout, true)
    }
}

/// States are told apart by their names, and their color says the same: only what was
/// completed is shown as a success, only what failed as a danger, and only what waits
/// for somebody as a warning.
pub proof fn states_are_shown_apart(one: ActivityState, other: ActivityState)
    ensures
        state_name(one) == state_name(other) ==> one == other,
        state_tone(one) == Tone::Success <==> one == ActivityState::Completed,
        state_tone(one) == Tone::Danger <==> one == ActivityState::Failed,
        state_tone(one) == Tone::Warning <==> one == ActivityState::Waiting,
        state_tone(one) == Tone::Info <==> one == ActivityState::Working,
{
    reveal_strlit("Queued");
    reveal_strlit("Working");
    reveal_strlit("Needs you");
    reveal_strlit("Completed");
    reveal_strlit("Failed");
    reveal_strlit("Cancelled");
    if state_name(one) == state_name(other) {
        assert(state_name(one)[0] == state_name(other)[0]);
        assert(state_name(one)[1] == state_name(other)[1]);
    }
}

proof fn prefixes_are_inside(text: Seq<char>, bytes: nat)
    ensures
        prefix_of_bytes(text, bytes) matches Some(count) ==> count <= text.len(),
    decreases text.len(),
{
    if bytes > 0 && text.len() > 0 {
        let first = crate::text::char_width(text[0]);
        if first <= bytes {
            prefixes_are_inside(text.drop_first(), (bytes - first) as nat);
        }
    }
}

/// A shortened identity is the beginning of the identity, and an owner is shown with
/// what it is known by.
pub proof fn identities_are_shown_by_their_beginning(identity: Seq<char>)
    ensures
        shortened(identity).is_prefix_of(identity),
        identity.len() > 0 ==> shortened(identity).len() > 0,
{
    prefixes_are_inside(identity, 8);
    match prefix_of_bytes(identity, 8) {
        Some(count) => {
            assert(identity.take(count as int) =~= identity.subrange(0, count as int));
        },
        None => {
            assert(identity =~= identity.subrange(0, identity.len() as int));
        },
    }
}

/// The owner of a piece of work is named: a server, a runtime or an agent by its own
/// name, which ends what is shown.
pub proof fn owners_are_named(owner: ActivityOwner)
    ensures
        match owner {
            ActivityOwner::XanaRoot => owner_text(owner) == "Xana root"@,
            ActivityOwner::NativeChild { agent_id } => shortened(agent_id@).is_suffix_of(
                owner_text(owner),
            ),
            ActivityOwner::Managed { runtime } => runtime@.is_suffix_of(owner_text(owner)),
            ActivityOwner::Mcp { server } => server@.is_suffix_of(owner_text(owner)),
            ActivityOwner::A2a { agent } => agent@.is_suffix_of(owner_text(owner)),
        },
{
    let text = owner_text(owner);
    match owner {
        ActivityOwner::XanaRoot => {},
        ActivityOwner::NativeChild { agent_id } => {
            let name = shortened(agent_id@);
            assert(text.subrange(text.len() - name.len(), text.len() as int) =~= name);
        },
        ActivityOwner::Managed { runtime } => {
            assert(text.subrange(text.len() - runtime@.len(), text.len() as int) =~= runtime@);
        },
        ActivityOwner::Mcp { server } => {
            assert(text.subrange(text.len() - server@.len(), text.len() as int) =~= server@);
        },
        ActivityOwner::A2a { agent } => {
            assert(text.subrange(text.len() - agent@.len(), text.len() as int) =~= agent@);
        },
    }
}

/// Every check that was passed counts once and no other does.
pub proof fn passed_checks_are_counted(checks: Seq<bool>, check: bool)
    ensures
        passed(checks.push(check)) == passed(checks) + if check {
            1nat
        } else {
            0nat
        },
        passed(Seq::<bool>::empty()) == 0,
{
    assert(checks.push(check).drop_last() =~= checks);
}

/// Only a run that was completed is shown as a success.
pub proof fn only_completed_runs_succeed(receipt: CompletionReceipt)
    ensures
        receipt_tone(receipt) == Tone::Success <==> receipt.status@ == "completed"@,
        receipt_tone(receipt) != Tone::Success ==> receipt_tone(receipt) == Tone::Danger,
{
}

/// The panels that can be opened again are the optional ones that are not open, and
/// all of them.
pub proof fn closed_panels_can_be_opened(open: Seq<Panel>, panel: Panel)
    ensures
        closed_panels(open).contains(panel) <==> !open.contains(panel) && (panel == Panel::Summary
            || panel == Panel::Artifacts || panel == Panel::Usage || panel == Panel::WorkingSet),
{
    let optional = seq![Panel::Summary, Panel::Artifacts, Panel::Usage, Panel::WorkingSet];
    let absent = |panel: Panel| !open.contains(panel);
    assert(closed_panels(open) == optional.filter(absent));
    assert(optional[0] == Panel::Summary && optional[1] == Panel::Artifacts && optional[2]
        == Panel::Usage && optional[3] == Panel::WorkingSet);
    filters_choose(optional, absent, panel);
}

proof fn filters_choose(panels: Seq<Panel>, keep: spec_fn(Panel) -> bool, panel: Panel)
    ensures
        panels.filter(keep).contains(panel) <==> panels.contains(panel) && keep(panel),
    decreases panels.len(),
{
    reveal(Seq::filter);
    if panels.len() > 0 {
        let rest = panels.drop_last();
        filters_choose(rest, keep, panel);
        let kept = rest.filter(keep);
        if panels.contains(panel) && panel != panels.last() {
            let at = panels.index_of(panel);
            assert(rest[at] == panel);
        }
        if rest.contains(panel) {
            let at = rest.index_of(panel);
            assert(panels[at] == panel);
        }
        assert(panels[panels.len() - 1] == panels.last());
        if kept.contains(panel) {
            let at = kept.index_of(panel);
            assert(kept.push(panels.last())[at] == panel);
        }
        assert(kept.push(panels.last())[kept.len() as int] == panels.last());
        if keep(panels.last()) && kept.push(panels.last()).contains(panel) && panel
            != panels.last() {
            let at = kept.push(panels.last()).index_of(panel);
            assert(kept[at] == panel);
        }
    }
}

/// The window shows the place that it is turned to: the settings for their places, the
/// overview for its own, and the panels else, one alone where it is made large.
pub proof fn the_canvas_is_the_place(
    target: crate::desktop::navigation::NavigationTarget,
    maximized: bool,
)
    ensures
        canvas_of(target, maximized) == Canvas::Settings <==> (target is Settings || target
            is Diagnostics),
        canvas_of(target, maximized) == Canvas::Espejo <==> target is Espejo,
        canvas_of(target, maximized) == Canvas::Maximized ==> maximized,
        (target is Conversation || target is Activity) && maximized ==> canvas_of(target, maximized)
            == Canvas::Maximized,
        (target is Conversation || target is Activity) && !maximized ==> canvas_of(
            target,
            maximized,
        ) == Canvas::Layout,
{
}

/// The foot of the window tells the number of permissions that wait and whether a run goes
/// on.
pub proof fn the_foot_tells_what_waits(
    lifecycle: Seq<char>,
    place: Seq<char>,
    running: bool,
    approvals: nat,
)
    ensures
        occurs(left_status(lifecycle, place, running, approvals), decimal(approvals)),
        occurs(left_status(lifecycle, place, running, approvals), place),
        running ==> occurs(left_status(lifecycle, place, running, approvals), "1 active Run"@),
        !running ==> occurs(left_status(lifecycle, place, running, approvals), "0 active Run"@),
{
    let word = if running {
        "1"@
    } else {
        "0"@
    };
    let front = lifecycle + " · "@;
    let one = front + place + " · "@;
    let two = one + word + " active Run · "@;
    let text = two + decimal(approvals) + " approval(s)"@;
    parts_occur(two, decimal(approvals), " approval(s)"@);
    parts_occur(front, place, " · "@);
    longer_texts_hold_the_same(one, word, place);
    longer_texts_hold_the_same(one + word, " active Run · "@, place);
    longer_texts_hold_the_same(two, decimal(approvals), place);
    longer_texts_hold_the_same(two + decimal(approvals), " approval(s)"@, place);
    reveal_strlit("1");
    reveal_strlit("0");
    reveal_strlit("1 active Run");
    reveal_strlit("0 active Run");
    reveal_strlit(" active Run · ");
    let said = if running {
        "1 active Run"@
    } else {
        "0 active Run"@
    };
    let at = one.len() as int;
    assert(two.subrange(at, at + said.len()) =~= said);
    longer_texts_hold_the_same(two, decimal(approvals), said);
    longer_texts_hold_the_same(two + decimal(approvals), " approval(s)"@, said);
}

/// What is said of a prompt tells the two counts where both are known, and the reason where
/// they are not and there is one.
pub proof fn prompts_are_told_by_their_counts(
    used: Option<u64>,
    budget: Option<u64>,
    reason: Option<Seq<char>>,
)
    ensures
        used is Some && budget is Some ==> occurs(
            ledger_text(used, budget, reason),
            decimal(used->0 as nat) + " / "@ + decimal(budget->0 as nat),
        ),
        (used is None || budget is None) && reason is Some ==> ledger_text(used, budget, reason)
            == reason->0,
{
    if used is Some && budget is Some {
        let front = "Prompt estimate "@;
        let one = decimal(used->0 as nat);
        let two = decimal(budget->0 as nat);
        let part = one + " / "@ + two;
        assert(front + part + " input tokens"@ =~= front + one + " / "@ + two + " input tokens"@);
        parts_occur(front, part, " input tokens"@);
    }
}

/// What is said of a run that came to an end names it, and tells how many of its checks
/// passed.
pub proof fn ended_runs_are_told(receipt: CompletionReceipt)
    ensures
        occurs(receipt_text(receipt), receipt.operation@),
        occurs(
            receipt_text(receipt),
            decimal(passed(receipt.checks@)) + "/"@ + decimal(receipt.checks@.len()),
        ),
        occurs(receipt_text(receipt), decimal(receipt.artifacts as nat)),
{
    let one = decimal(passed(receipt.checks@));
    let two = decimal(receipt.checks@.len());
    let three = decimal(receipt.artifacts as nat);
    let head = "Run "@ + receipt.operation@ + " · "@;
    let counted = head + one + "/"@ + two;
    let middle = counted + " checks · "@;
    parts_occur("Run "@, receipt.operation@, " · "@);
    longer_texts_hold_the_same(head, one, receipt.operation@);
    longer_texts_hold_the_same(head + one, "/"@, receipt.operation@);
    longer_texts_hold_the_same(head + one + "/"@, two, receipt.operation@);
    longer_texts_hold_the_same(counted, " checks · "@, receipt.operation@);
    longer_texts_hold_the_same(middle, three, receipt.operation@);
    longer_texts_hold_the_same(middle + three, " artifact(s)"@, receipt.operation@);
    let part = one + "/"@ + two;
    let nothing = Seq::<char>::empty();
    assert(counted =~= head + part + nothing);
    parts_occur(head, part, nothing);
    longer_texts_hold_the_same(counted, " checks · "@, part);
    longer_texts_hold_the_same(middle, three, part);
    longer_texts_hold_the_same(middle + three, " artifact(s)"@, part);
    parts_occur(middle, three, " artifact(s)"@);
}

/// What is asked before a tool is used once names the tool, what it does and how far it
/// reaches.
pub proof fn questions_name_what_they_allow(
    tool: &str,
    effect: &str,
    scope: &str,
    question: ApprovalQuestion,
)
    requires
        call_ensures(approval_question, (tool, effect, scope), question),
    ensures
        occurs(question.title@, tool@),
        occurs(question.description@, effect@),
        occurs(question.description@, scope@),
{
    parts_occur("Allow "@, tool@, "?"@);
    let told = effect@ + "\nScope: "@ + scope@;
    texts_hold_their_beginning(effect@, "\nScope: "@);
    longer_texts_hold_the_same(effect@ + "\nScope: "@, scope@, effect@);
    longer_texts_hold_the_same(
        told,
        "\nThis decision applies once to the current Run."@,
        effect@,
    );
    parts_occur(
        effect@ + "\nScope: "@,
        scope@,
        "\nThis decision applies once to the current Run."@,
    );
}

/// An attachment is told by its size where both sides are known, and else by its type as it
/// is.
pub proof fn attachments_are_told(
    width: Option<u32>,
    height: Option<u32>,
    media_type: &str,
    text: String,
)
    requires
        call_ensures(attachment_detail, (width, height, media_type), text),
    ensures
        width is None || height is None ==> text@ == media_type@,
        width matches Some(wide) ==> height is Some ==> decimal(wide as nat).is_prefix_of(text@),
        height matches Some(high) ==> width is Some ==> decimal(high as nat).is_suffix_of(text@),
{
    if let (Some(wide), Some(high)) = (width, height) {
        assert(text@.subrange(0, decimal(wide as nat).len() as int) =~= decimal(wide as nat));
        assert(text@.subrange(
            text@.len() - decimal(high as nat).len(),
            text@.len() as int,
        ) =~= decimal(high as nat));
    }
}

/// A panel with a live view has no text in its place. The summary names the connection, the
/// model and the state of the run, and the artifacts are counted.
pub proof fn panels_tell_what_they_hold(
    panel: Panel,
    connection: &str,
    model: &str,
    lifecycle: &str,
    artifacts: usize,
    body: Option<(&'static str, String)>,
)
    requires
        call_ensures(panel_text, (panel, connection, model, lifecycle, artifacts), body),
    ensures
        body is None <==> panel == Panel::Conversation || panel == Panel::Activity || panel
            == Panel::Message,
        panel == Panel::Summary ==> (body matches Some((title, text)) && occurs(text@, connection@)
            && occurs(text@, model@) && occurs(text@, lifecycle@)),
        panel == Panel::Artifacts ==> (body matches Some((title, text)) && occurs(
            text@,
            decimal(artifacts as nat),
        )),
{
    let head = connection@ + " · "@;
    let named = head + model@ + " · "@;
    texts_hold_their_beginning(connection@, " · "@);
    longer_texts_hold_the_same(head, model@, connection@);
    longer_texts_hold_the_same(head + model@, " · "@, connection@);
    longer_texts_hold_the_same(named, lifecycle@, connection@);
    parts_occur(head, model@, " · "@);
    longer_texts_hold_the_same(named, lifecycle@, model@);
    parts_occur(named, lifecycle@, Seq::empty());
    assert(named + lifecycle@ + Seq::empty() =~= named + lifecycle@);
    texts_hold_their_beginning(decimal(artifacts as nat), " retained artifact(s)"@);
}

/// The words of a code hold nothing that parts words, and none of them is empty; a code of
/// one word is that word with its first letter raised.
pub proof fn codes_are_told_in_words(code: Seq<char>)
    ensures
        forall|i: int, j: int|
            0 <= i < words_of(code).len() && 0 <= j < words_of(code)[i].len() ==> !parts_words(
                #[trigger] words_of(code)[i][j],
            ),
        forall|i: int| 0 <= i < words_of(code).len() ==> (#[trigger] words_of(code)[i]).len() > 0,
        code.len() > 0 && (forall|i: int| 0 <= i < code.len() ==> !parts_words(#[trigger] code[i]))
            ==> words_of(code) == seq![code],
    decreases code.len(),
{
    words_are_there(code);
    if code.len() > 0 {
        let earlier = code.drop_last();
        codes_are_told_in_words(earlier);
        words_are_there(earlier);
        if !parts_words(code.last()) {
            let words = words_of(earlier);
            assert forall|i: int, j: int|
                0 <= i < words_of(code).len() && 0 <= j
                    < words_of(code)[i].len() implies !parts_words(
                #[trigger] words_of(code)[i][j],
            ) by {
                if earlier.len() == 0 || parts_words(earlier.last()) {
                    if i < words.len() {
                        assert(words_of(code)[i] == words[i]);
                    }
                } else if i < words.len() - 1 {
                    assert(words_of(code)[i] == words[i]);
                } else if j < words.last().len() {
                    assert(words_of(code)[i][j] == words.last()[j]);
                }
            }
            if forall|i: int| 0 <= i < code.len() ==> !parts_words(#[trigger] code[i]) {
                assert forall|i: int| 0 <= i < earlier.len() implies !parts_words(
                    #[trigger] earlier[i],
                ) by {
                    assert(earlier[i] == code[i]);
                }
                if earlier.len() > 0 {
                    assert(!parts_words(earlier.last()));
                    assert(words.last() == earlier);
                    assert(earlier.push(code.last()) =~= code);
                    assert(words_of(code) =~= seq![code]);
                } else {
                    assert(seq![code.last()] =~= code);
                    assert(words_of(code) =~= seq![code]);
                }
            }
        }
    }
}

}
