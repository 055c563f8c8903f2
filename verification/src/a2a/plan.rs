//! What one delegation sends, decided before anything is sent.

use crate::a2a::validation::{
    filename, message_text, task_text, validate_filename, validate_message_text,
    validate_task_text, A2aWireError, FILENAME, MAX_SELECTED_ARTIFACTS, MAX_SELECTED_FILES,
    MAX_SELECTED_MESSAGES, MESSAGE_TEXT, TASK_TEXT,
};
use crate::config::{allowed_by, as_name, policy_classes, EgressPolicy};
use crate::json::{json_document, read_json};
use crate::outbound::{
    all_classes, copy_classes, every_class, OutboundDataClass, OutboundItem, RecipientIdentity,
    RecipientKind,
};
use crate::text::{
    blank, chars_of, copy_option, debug_text, decimal, decimal_text, is_blank, join, joined,
    option_view, quoted, text_eq, utf8_of, utf8_text, views,
};
use vstd::prelude::*;
use vstd::string::*;
use vstd::utf8::encode_utf8;

verus! {

/// What is known of an external agent that the owner trusts.
#[derive(Debug, PartialEq, Eq)]
pub struct TrustedAgent {
    pub agent_name: String,
    pub interface_url: String,
    pub identity_digest: String,
    pub streaming: bool,
    pub skills: Vec<String>,
}

/// The tool that delegates tasks to one external agent.
#[derive(Debug, PartialEq, Eq)]
pub struct A2aDelegationTool {
    pub connection: String,
    pub trusted: TrustedAgent,
    pub workspace: String,
    pub artifact_limit: usize,
    pub allow_loopback_http: bool,
    pub connection_allowed: Vec<OutboundDataClass>,
    pub profile_allowed: Vec<OutboundDataClass>,
}

/// What came of reading a selected file.
#[derive(Debug, PartialEq, Eq)]
pub enum FileRead {
    WorkspaceUnavailable,
    Unavailable,
    NotRegular,
    Outside,
    Unopenable,
    Unreadable,
    Read { canonical: String, bytes: Vec<u8> },
}

/// A selected file and what came of reading it.
#[derive(Debug, PartialEq, Eq)]
pub struct FileSelection {
    pub source: String,
    pub read: FileRead,
}

/// A selected artifact and what came of reading it.
#[derive(Debug, PartialEq, Eq)]
pub struct ArtifactSelection {
    pub filename: String,
    pub media_type: String,
    pub content_hash: String,
    pub read: Result<Vec<u8>, String>,
}

/// What the model asks to delegate, with what was read for it.
#[derive(Debug, PartialEq, Eq)]
pub struct DelegateArguments {
    pub task: String,
    pub selected_messages: Vec<String>,
    pub selected_files: Vec<FileSelection>,
    pub selected_artifacts: Vec<ArtifactSelection>,
    pub workspace_metadata: Option<Vec<u8>>,
}

/// One piece of outbound data, by content.
pub struct ItemModel {
    pub class: OutboundDataClass,
    pub label: Seq<char>,
    pub reference: Option<Seq<char>>,
    pub source: Seq<char>,
    pub bytes: Seq<u8>,
}

impl View for OutboundItem {
    type V = ItemModel;

    open spec fn view(&self) -> ItemModel {
        ItemModel {
            class: self.class,
            label: self.label@,
            reference: option_view(self.reference),
            source: self.source@,
            bytes: self.bytes@,
        }
    }
}

/// The contents of a list of items.
pub open spec fn item_views(items: Seq<OutboundItem>) -> Seq<ItemModel> {
    items.map_values(|item: OutboundItem| item@)
}

pub const SCHEMA: &'static str = "A2A delegation arguments do not match the declared schema";

pub const WORKSPACE: &'static str = "A2A delegation workspace does not match the frozen profile";

pub const ITEM_BOUND: &'static str = "A2A delegation selection exceeds its item bound";

pub const EMPTY_PATH: &'static str = "selected file path must be non-empty";

pub const NO_WORKSPACE: &'static str = "delegation workspace is unavailable";

/// Whether a path leaves its directory upward: one of its components is `..`.
pub open spec fn goes_up(path: Seq<char>) -> bool {
    exists|i: int| #[trigger] up_at(path, i)
}

/// Whether the component that begins at a position is `..`.
pub open spec fn up_at(path: Seq<char>, i: int) -> bool {
    &&& 0 <= i
    &&& i + 2 <= path.len()
    &&& path[i] == '.'
    &&& path[i + 1] == '.'
    &&& i == 0 || path[i - 1] == '/'
    &&& i + 2 == path.len() || path[i + 2] == '/'
}

/// Whether a path stays in the workspace by its text alone.
pub open spec fn relative_path(path: Seq<char>) -> bool {
    !(path.len() > 0 && path[0] == '/') && !goes_up(path)
}

/// A sentence about a selected file.
pub open spec fn about_file(source: Seq<char>, what: Seq<char>) -> Seq<char> {
    "selected file "@ + debug_text(source) + what
}

/// What a selected file contributes: its resolved path and bytes, or why it does
/// not.
pub open spec fn file_content(selection: FileSelection, limit: nat) -> Result<
    (Seq<char>, Seq<u8>),
    Seq<char>,
> {
    let source = selection.source@;
    if is_blank(source) {
        Err(EMPTY_PATH@)
    } else if !relative_path(source) {
        Err(about_file(source, " must be workspace-relative"@))
    } else {
        match selection.read {
            FileRead::WorkspaceUnavailable => Err(NO_WORKSPACE@),
            FileRead::Unavailable => Err(about_file(source, " is unavailable"@)),
            FileRead::NotRegular => Err(about_file(source, " is not a regular file"@)),
            FileRead::Outside => Err(about_file(source, " resolves outside the workspace"@)),
            FileRead::Unopenable => Err(about_file(source, " cannot be opened"@)),
            FileRead::Unreadable => Err(about_file(source, " cannot be read"@)),
            FileRead::Read { canonical, bytes } => if bytes@.len() > limit {
                Err(about_file(source, " exceeds "@ + decimal(limit) + " bytes"@))
            } else {
                Ok((canonical@, bytes@))
            },
        }
    }
}

fn goes_up_at(path: &Vec<char>, i: usize) -> (yes: bool)
    requires
        i < path@.len(),
    ensures
        yes == up_at(path@, i as int),
{
    let end: usize = path.len();
    end - i >= 2 && path[i] == '.' && path[i + 1] == '.' && (i == 0 || path[i - 1] == '/') && (end
        - i == 2 || path[i + 2] == '/')
}

/// Whether a path stays in the workspace by its text alone: it is relative and
/// never goes up. Components are parted by `/`.
pub fn stays_relative(path: &str) -> (yes: bool)
    ensures
        yes == relative_path(path@),
{
    let chars = chars_of(path);
    if chars.len() > 0 && chars[0] == '/' {
        return false;
    }
    let mut i: usize = 0;
    while i < chars.len()
        invariant
            chars@ == path@,
            i <= chars@.len(),
            forall|j: int| 0 <= j < i ==> !up_at(path@, j),
        decreases chars@.len() - i,
    {
        if goes_up_at(&chars, i) {
            return false;
        }
        i += 1;
    }
    assert forall|j: int| !up_at(path@, j) by {
        if 0 <= j < i {
        }
    }
    true
}

fn say_file(source: &str, what: &str) -> (text: String)
    ensures
        text@ == about_file(source@, what@),
{
    let mut text = "selected file ".to_owned();
    text.append(quoted(source).as_str());
    text.append(what);
    text
}

/// Decides on a selected file after it was read.
pub fn admit_file(selection: FileSelection, limit: usize) -> (content: Result<
    (String, Vec<u8>),
    String,
>)
    ensures
        match content {
            Ok((canonical, bytes)) => file_content(selection, limit as nat) == Ok::<
                (Seq<char>, Seq<u8>),
                Seq<char>,
            >((canonical@, bytes@)),
            Err(text) => file_content(selection, limit as nat) == Err::<
                (Seq<char>, Seq<u8>),
                Seq<char>,
            >(text@),
        },
{
    let source = selection.source;
    if blank(source.as_str()) {
        return Err(EMPTY_PATH.to_owned());
    }
    if !stays_relative(source.as_str()) {
        return Err(say_file(source.as_str(), " must be workspace-relative"));
    }
    match selection.read {
        FileRead::WorkspaceUnavailable => Err(NO_WORKSPACE.to_owned()),
        FileRead::Unavailable => Err(say_file(source.as_str(), " is unavailable")),
        FileRead::NotRegular => Err(say_file(source.as_str(), " is not a regular file")),
        FileRead::Outside => Err(say_file(source.as_str(), " resolves outside the workspace")),
        FileRead::Unopenable => Err(say_file(source.as_str(), " cannot be opened")),
        FileRead::Unreadable => Err(say_file(source.as_str(), " cannot be read")),
        FileRead::Read { canonical, bytes } => {
            if bytes.len() > limit {
                let mut what = " exceeds ".to_owned();
                what.append(decimal_text(limit as u64).as_str());
                what.append(" bytes");
                Err(say_file(source.as_str(), what.as_str()))
            } else {
                Ok((canonical, bytes))
            }
        },
    }
}

/// The item that the task itself becomes.
pub open spec fn task_item(task: Seq<char>) -> ItemModel {
    ItemModel {
        class: OutboundDataClass::PromptText,
        label: "delegated task"@,
        reference: None,
        source: "current agent tool request"@,
        bytes: encode_utf8(task),
    }
}

/// The item that a selected message becomes.
pub open spec fn message_item(index: nat, message: Seq<char>) -> ItemModel {
    ItemModel {
        class: OutboundDataClass::SelectedMessages,
        label: "selected message "@ + decimal(index + 1),
        reference: None,
        source: "explicit delegation selection"@,
        bytes: encode_utf8(message),
    }
}

/// The item that a selected file becomes.
pub open spec fn file_item(source: Seq<char>, canonical: Seq<char>, bytes: Seq<u8>) -> ItemModel {
    ItemModel {
        class: OutboundDataClass::SelectedFileContents,
        label: "selected file "@ + source,
        reference: Some(source),
        source: canonical,
        bytes,
    }
}

/// The item that a selected artifact becomes.
pub open spec fn artifact_item(selection: ArtifactSelection, bytes: Seq<u8>) -> ItemModel {
    ItemModel {
        class: OutboundDataClass::SelectedArtifacts,
        label: "selected artifact "@ + selection.filename@ + " ("@ + selection.media_type@ + ")"@,
        reference: Some(selection.filename@),
        source: "Xana artifact "@ + selection.content_hash@,
        bytes,
    }
}

/// The item that the workspace's description becomes.
pub open spec fn metadata_item(bytes: Seq<u8>) -> ItemModel {
    ItemModel {
        class: OutboundDataClass::WorkspaceMetadata,
        label: "bounded workspace metadata"@,
        reference: None,
        source: "frozen conversation workspace"@,
        bytes,
    }
}

/// The items, or the reason why nothing is sent.
pub type Planned = Result<Seq<ItemModel>, Seq<char>>;

/// The items with those of the selected messages.
pub open spec fn with_messages(items: Seq<ItemModel>, messages: Seq<Seq<char>>) -> Planned
    decreases messages.len(),
{
    if messages.len() == 0 {
        Ok(items)
    } else {
        match with_messages(items, messages.drop_last()) {
            Err(error) => Err(error),
            Ok(earlier) => if message_text(messages.last()) {
                Ok(earlier.push(message_item((messages.len() - 1) as nat, messages.last())))
            } else {
                Err(MESSAGE_TEXT@)
            },
        }
    }
}

/// The items with those of the selected files.
pub open spec fn with_files(
    items: Seq<ItemModel>,
    files: Seq<FileSelection>,
    limit: nat,
) -> Planned
    decreases files.len(),
{
    if files.len() == 0 {
        Ok(items)
    } else {
        match with_files(items, files.drop_last(), limit) {
            Err(error) => Err(error),
            Ok(earlier) => match file_content(files.last(), limit) {
                Err(error) => Err(error),
                Ok((canonical, bytes)) => Ok(
                    earlier.push(file_item(files.last().source@, canonical, bytes)),
                ),
            },
        }
    }
}

/// The items with those of the selected artifacts.
pub open spec fn with_artifacts(items: Seq<ItemModel>, artifacts: Seq<ArtifactSelection>) -> Planned
    decreases artifacts.len(),
{
    if artifacts.len() == 0 {
        Ok(items)
    } else {
        match with_artifacts(items, artifacts.drop_last()) {
            Err(error) => Err(error),
            Ok(earlier) => if !filename(artifacts.last().filename@) {
                Err(FILENAME@)
            } else {
                match artifacts.last().read {
                    Err(error) => Err("selected artifact is unavailable: "@ + error@),
                    Ok(bytes) => Ok(earlier.push(artifact_item(artifacts.last(), bytes@))),
                }
            },
        }
    }
}

/// The items of a delegation before anything is read for it, or the first reason why
/// nothing is.
pub open spec fn begun(
    workspace: Seq<char>,
    task: Seq<char>,
    messages: Seq<Seq<char>>,
    files: nat,
    artifacts: nat,
    workspace_root: Seq<char>,
) -> Planned {
    if workspace_root != workspace {
        Err(WORKSPACE@)
    } else if !task_text(task) {
        Err(TASK_TEXT@)
    } else if messages.len() > MAX_SELECTED_MESSAGES || files > MAX_SELECTED_FILES || artifacts
        > MAX_SELECTED_ARTIFACTS {
        Err(ITEM_BOUND@)
    } else {
        with_messages(seq![task_item(task)], messages)
    }
}

/// All items of a delegation, or the first reason why nothing is sent.
pub open spec fn planned(
    workspace: Seq<char>,
    limit: nat,
    arguments: DelegateArguments,
    workspace_root: Seq<char>,
) -> Planned {
    match begun(
        workspace,
        arguments.task@,
        views(arguments.selected_messages@),
        arguments.selected_files@.len(),
        arguments.selected_artifacts@.len(),
        workspace_root,
    ) {
        Err(error) => Err(error),
        Ok(told) => match with_files(told, arguments.selected_files@, limit) {
            Err(error) => Err(error),
            Ok(filed) => match with_artifacts(filed, arguments.selected_artifacts@) {
                Err(error) => Err(error),
                Ok(items) => match arguments.workspace_metadata {
                    Some(bytes) => Ok(items.push(metadata_item(bytes@))),
                    None => Ok(items),
                },
            },
        },
    }
}

/// The bytes of all items together, as far as the machine counts.
pub open spec fn total_bytes(items: Seq<ItemModel>) -> nat
    decreases items.len(),
{
    if items.len() == 0 {
        0
    } else {
        let total = total_bytes(items.drop_last()) + items.last().bytes.len();
        if total > usize::MAX {
            usize::MAX as nat
        } else {
            total
        }
    }
}

/// A delegation that is ready for review.
#[derive(Debug, PartialEq, Eq)]
pub struct DelegationPlan {
    pub items: Vec<OutboundItem>,
    pub recipient: RecipientIdentity,
    pub purpose: String,
    pub operation: String,
    pub total_bytes: usize,
}

proof fn messages_refused(items: Seq<ItemModel>, messages: Seq<Seq<char>>, upto: int)
    requires
        0 <= upto <= messages.len(),
        with_messages(items, messages.take(upto)) is Err,
    ensures
        with_messages(items, messages) == with_messages(items, messages.take(upto)),
    decreases messages.len() - upto,
{
    if upto < messages.len() {
        assert(messages.take(upto + 1).drop_last() =~= messages.take(upto));
        messages_refused(items, messages, upto + 1);
    } else {
        assert(messages.take(upto) =~= messages);
    }
}

proof fn files_refused(items: Seq<ItemModel>, files: Seq<FileSelection>, limit: nat, upto: int)
    requires
        0 <= upto <= files.len(),
        with_files(items, files.take(upto), limit) is Err,
    ensures
        with_files(items, files, limit) == with_files(items, files.take(upto), limit),
    decreases files.len() - upto,
{
    if upto < files.len() {
        assert(files.take(upto + 1).drop_last() =~= files.take(upto));
        files_refused(items, files, limit, upto + 1);
    } else {
        assert(files.take(upto) =~= files);
    }
}

proof fn artifacts_refused(items: Seq<ItemModel>, artifacts: Seq<ArtifactSelection>, upto: int)
    requires
        0 <= upto <= artifacts.len(),
        with_artifacts(items, artifacts.take(upto)) is Err,
    ensures
        with_artifacts(items, artifacts) == with_artifacts(items, artifacts.take(upto)),
    decreases artifacts.len() - upto,
{
    if upto < artifacts.len() {
        assert(artifacts.take(upto + 1).drop_last() =~= artifacts.take(upto));
        artifacts_refused(items, artifacts, upto + 1);
    } else {
        assert(artifacts.take(upto) =~= artifacts);
    }
}

fn push_item(items: &mut Vec<OutboundItem>, item: OutboundItem)
    ensures
        item_views(final(items)@) == item_views(old(items)@).push(item@),
{
    items.push(item);
    assert(item_views(items@) =~= item_views(old(items)@).push(item@));
}

fn push_messages(items: &mut Vec<OutboundItem>, messages: &Vec<String>) -> (pushed: Result<
    (),
    String,
>)
    ensures
        match pushed {
            Ok(_) => with_messages(item_views(old(items)@), views(messages@)) == Ok::<
                Seq<ItemModel>,
                Seq<char>,
            >(item_views(final(items)@)),
            Err(text) => with_messages(item_views(old(items)@), views(messages@)) == Err::<
                Seq<ItemModel>,
                Seq<char>,
            >(text@),
        },
{
    let ghost start = item_views(items@);
    let ghost texts = views(messages@);
    let mut i: usize = 0;
    while i < messages.len()
        invariant
            start == item_views(old(items)@),
            texts == views(messages@),
            i <= messages@.len(),
            with_messages(start, texts.take(i as int)) == Ok::<Seq<ItemModel>, Seq<char>>(
                item_views(items@),
            ),
        decreases messages@.len() - i,
    {
        assert(texts.take(i + 1).drop_last() =~= texts.take(i as int));
        assert(texts.take(i + 1).last() == messages@[i as int]@);
        if let Err(text) = validate_message_text(messages[i].as_str()) {
            proof {
                messages_refused(start, texts, i + 1);
            }
            return Err(text);
        }
        let mut label = "selected message ".to_owned();
        label.append(decimal_text(i as u64 + 1).as_str());
        push_item(
            items,
            OutboundItem {
                class: OutboundDataClass::SelectedMessages,
                label,
                reference: None,
                source: "explicit delegation selection".to_owned(),
                bytes: messages[i].as_str().as_bytes_vec(),
            },
        );
        i += 1;
    }
    assert(texts.take(i as int) =~= texts);
    Ok(())
}

pub(crate) fn copy_bytes(bytes: &Vec<u8>) -> (copy: Vec<u8>)
    ensures
        copy@ == bytes@,
{
    let mut copy: Vec<u8> = Vec::new();
    let mut i: usize = 0;
    while i < bytes.len()
        invariant
            i <= bytes@.len(),
            copy@ == bytes@.take(i as int),
        decreases bytes@.len() - i,
    {
        copy.push(bytes[i]);
        i += 1;
        assert(bytes@.take(i as int) =~= bytes@.take(i - 1).push(bytes@[i - 1]));
    }
    assert(bytes@.take(i as int) =~= bytes@);
    copy
}

fn copy_read(read: &FileRead) -> (copy: FileRead)
    ensures
        match *read {
            FileRead::Read { canonical, bytes } => copy matches FileRead::Read {
                canonical: path,
                bytes: content,
            } && path == canonical && content@ == bytes@,
            _ => copy == *read,
        },
{
    match read {
        FileRead::WorkspaceUnavailable => FileRead::WorkspaceUnavailable,
        FileRead::Unavailable => FileRead::Unavailable,
        FileRead::NotRegular => FileRead::NotRegular,
        FileRead::Outside => FileRead::Outside,
        FileRead::Unopenable => FileRead::Unopenable,
        FileRead::Unreadable => FileRead::Unreadable,
        FileRead::Read { canonical, bytes } => FileRead::Read {
            canonical: canonical.clone(),
            bytes: copy_bytes(bytes),
        },
    }
}

fn push_files(items: &mut Vec<OutboundItem>, files: &Vec<FileSelection>, limit: usize) -> (pushed:
    Result<(), String>)
    ensures
        match pushed {
            Ok(_) => with_files(item_views(old(items)@), files@, limit as nat) == Ok::<
                Seq<ItemModel>,
                Seq<char>,
            >(item_views(final(items)@)),
            Err(text) => with_files(item_views(old(items)@), files@, limit as nat) == Err::<
                Seq<ItemModel>,
                Seq<char>,
            >(text@),
        },
{
    let ghost start = item_views(items@);
    let mut i: usize = 0;
    while i < files.len()
        invariant
            start == item_views(old(items)@),
            i <= files@.len(),
            with_files(start, files@.take(i as int), limit as nat) == Ok::<
                Seq<ItemModel>,
                Seq<char>,
            >(item_views(items@)),
        decreases files@.len() - i,
    {
        assert(files@.take(i + 1).drop_last() =~= files@.take(i as int));
        assert(files@.take(i + 1).last() == files@[i as int]);
        let source = files[i].source.clone();
        let selection = FileSelection { source: source.clone(), read: copy_read(&files[i].read) };
        assert(file_content(selection, limit as nat) == file_content(
            files@[i as int],
            limit as nat,
        ));
        match admit_file(selection, limit) {
            Err(text) => {
                proof {
                    files_refused(start, files@, limit as nat, i + 1);
                }
                return Err(text);
            },
            Ok((canonical, bytes)) => {
                let mut label = "selected file ".to_owned();
                label.append(source.as_str());
                push_item(
                    items,
                    OutboundItem {
                        class: OutboundDataClass::SelectedFileContents,
                        label,
                        reference: Some(source),
                        source: canonical,
                        bytes,
                    },
                );
            },
        }
        i += 1;
    }
    assert(files@.take(i as int) =~= files@);
    Ok(())
}

fn push_artifacts(items: &mut Vec<OutboundItem>, artifacts: &Vec<ArtifactSelection>) -> (pushed:
    Result<(), String>)
    ensures
        match pushed {
            Ok(_) => with_artifacts(item_views(old(items)@), artifacts@) == Ok::<
                Seq<ItemModel>,
                Seq<char>,
            >(item_views(final(items)@)),
            Err(text) => with_artifacts(item_views(old(items)@), artifacts@) == Err::<
                Seq<ItemModel>,
                Seq<char>,
            >(text@),
        },
{
    let ghost start = item_views(items@);
    let mut i: usize = 0;
    while i < artifacts.len()
        invariant
            start == item_views(old(items)@),
            i <= artifacts@.len(),
            with_artifacts(start, artifacts@.take(i as int)) == Ok::<Seq<ItemModel>, Seq<char>>(
                item_views(items@),
            ),
        decreases artifacts@.len() - i,
    {
        assert(artifacts@.take(i + 1).drop_last() =~= artifacts@.take(i as int));
        assert(artifacts@.take(i + 1).last() == artifacts@[i as int]);
        let selection = &artifacts[i];
        if let Err(text) = validate_filename(selection.filename.as_str()) {
            proof {
                artifacts_refused(start, artifacts@, i + 1);
            }
            return Err(text);
        }
        match &selection.read {
            Err(error) => {
                let mut text = "selected artifact is unavailable: ".to_owned();
                text.append(error.as_str());
                proof {
                    artifacts_refused(start, artifacts@, i + 1);
                }
                return Err(text);
            },
            Ok(bytes) => {
                let mut label = "selected artifact ".to_owned();
                label.append(selection.filename.as_str());
                label.append(" (");
                label.append(selection.media_type.as_str());
                label.append(")");
                let mut source = "Xana artifact ".to_owned();
                source.append(selection.content_hash.as_str());
                push_item(
                    items,
                    OutboundItem {
                        class: OutboundDataClass::SelectedArtifacts,
                        label,
                        reference: Some(selection.filename.clone()),
                        source,
                        bytes: copy_bytes(bytes),
                    },
                );
            },
        }
        i += 1;
    }
    assert(artifacts@.take(i as int) =~= artifacts@);
    Ok(())
}

/// The bytes of all items together.
pub fn count_bytes(items: &Vec<OutboundItem>) -> (total: usize)
    ensures
        total == total_bytes(item_views(items@)),
{
    let ghost models = item_views(items@);
    let mut total: usize = 0;
    let mut i: usize = 0;
    while i < items.len()
        invariant
            models == item_views(items@),
            i <= items@.len(),
            total == total_bytes(models.take(i as int)),
        decreases items@.len() - i,
    {
        assert(models.take(i + 1).drop_last() =~= models.take(i as int));
        assert(models.take(i + 1).last() == items@[i as int]@);
        total = total.saturating_add(items[i].bytes.len());
        i += 1;
    }
    assert(models.take(i as int) =~= models);
    total
}

/// Whether some item is of a class.
pub open spec fn sends(items: Seq<ItemModel>, class: OutboundDataClass) -> bool {
    exists|i: int| 0 <= i < items.len() && (#[trigger] items[i]).class == class
}

/// The classes that the items are of, each once, in their order.
pub open spec fn sent_classes(items: Seq<ItemModel>) -> Seq<OutboundDataClass> {
    all_classes().filter(|class: OutboundDataClass| sends(items, class))
}

fn sends_class(items: &Vec<OutboundItem>, class: OutboundDataClass) -> (found: bool)
    ensures
        found == sends(item_views(items@), class),
{
    let ghost models = item_views(items@);
    let mut i: usize = 0;
    while i < items.len()
        invariant
            models == item_views(items@),
            i <= items@.len(),
            forall|j: int| 0 <= j < i ==> (#[trigger] models[j]).class != class,
        decreases items@.len() - i,
    {
        if items[i].class == class {
            assert(models[i as int].class == class);
            return true;
        }
        i += 1;
    }
    false
}

/// The classes that a delegation sends, each once.
pub fn classes_of(items: &Vec<OutboundItem>) -> (classes: Vec<OutboundDataClass>)
    ensures
        classes@ == sent_classes(item_views(items@)),
{
    let ghost models = item_views(items@);
    let ghost keep = |class: OutboundDataClass| sends(models, class);
    let every = every_class();
    let mut classes: Vec<OutboundDataClass> = Vec::new();
    let mut i: usize = 0;
    reveal(Seq::filter);
    assert(classes@ =~= every@.take(0).filter(keep));
    while i < every.len()
        invariant
            models == item_views(items@),
            keep == (|class: OutboundDataClass| sends(models, class)),
            i <= every@.len(),
            classes@ == every@.take(i as int).filter(keep),
        decreases every@.len() - i,
    {
        reveal(Seq::filter);
        if sends_class(items, every[i]) {
            classes.push(every[i]);
        }
        i += 1;
        assert(every@.take(i as int).drop_last() =~= every@.take(i - 1));
    }
    assert(every@.take(i as int) =~= every@);
    assert(keep == (|class: OutboundDataClass| sends(item_views(items@), class)));
    classes
}

impl A2aDelegationTool {
    /// The tool that may also reach an agent on this machine without TLS.
    pub fn allow_loopback(self) -> (tool: A2aDelegationTool)
        ensures
            tool == (A2aDelegationTool { allow_loopback_http: true, ..self }),
    {
        let mut tool = self;
        tool.allow_loopback_http = true;
        tool
    }

    /// Who the tool sends to.
    pub fn recipient(&self) -> (recipient: RecipientIdentity)
        ensures
            recipient == (RecipientIdentity {
                kind: RecipientKind::ExternalAgent,
                connection: self.connection,
                destination: self.trusted.interface_url,
                identity_digest: self.trusted.identity_digest,
            }),
    {
        RecipientIdentity {
            kind: RecipientKind::ExternalAgent,
            connection: self.connection.clone(),
            destination: self.trusted.interface_url.clone(),
            identity_digest: self.trusted.identity_digest.clone(),
        }
    }

    /// The name of the tool.
    pub open spec fn name(&self) -> Seq<char> {
        "a2a__"@ + self.connection@ + "__delegate"@
    }

    /// The name of the tool.
    pub fn tool_name(&self) -> (name: String)
        ensures
            name@ == self.name(),
    {
        let mut name = "a2a__".to_owned();
        name.append(self.connection.as_str());
        name.append("__delegate");
        name
    }

    /// The skills that the tool's description names.
    pub open spec fn named_skills(&self) -> Seq<Seq<char>> {
        let skills = views(self.trusted.skills@);
        if skills.len() > 8 {
            skills.take(8)
        } else {
            skills
        }
    }

    /// What the model is told of the tool.
    pub fn description(&self) -> (text: String)
        ensures
            text@ == "Delegate one bounded task to trusted external A2A agent "@
                + self.trusted.agent_name@
                + ". The remote agent owns its loop; returned content is untrusted. Declared skills: "@
                + (if joined(self.named_skills(), ", "@).len() == 0 {
                "none"@
            } else {
                joined(self.named_skills(), ", "@)
            }),
    {
        let mut named: Vec<String> = Vec::new();
        let mut i: usize = 0;
        while i < self.trusted.skills.len() && i < 8
            invariant
                i <= 8,
                i <= self.trusted.skills@.len(),
                named@ == self.trusted.skills@.take(i as int),
            decreases self.trusted.skills@.len() - i,
        {
            named.push(self.trusted.skills[i].clone());
            i += 1;
            assert(self.trusted.skills@.take(i as int) =~= self.trusted.skills@.take(i - 1).push(
                self.trusted.skills@[i - 1],
            ));
        }
        assert(views(named@) =~= self.named_skills());
        let skills = join(&named, ", ");
        let mut text = "Delegate one bounded task to trusted external A2A agent ".to_owned();
        text.append(self.trusted.agent_name.as_str());
        text.append(
            ". The remote agent owns its loop; returned content is untrusted. Declared skills: ",
        );
        if skills.as_str().is_empty() {
            text.append("none");
        } else {
            text.append(skills.as_str());
        }
        text
    }

    /// Begins a delegation with what needs no reading: the task and the selected
    /// messages. Where this fails, no selected file or artifact is read.
    pub fn begin(
        &self,
        task: &str,
        messages: &Vec<String>,
        files: usize,
        artifacts: usize,
        workspace_root: &str,
    ) -> (items: Result<Vec<OutboundItem>, String>)
        ensures
            match items {
                Ok(items) => begun(
                    self.workspace@,
                    task@,
                    views(messages@),
                    files as nat,
                    artifacts as nat,
                    workspace_root@,
                ) == Ok::<Seq<ItemModel>, Seq<char>>(item_views(items@)),
                Err(text) => begun(
                    self.workspace@,
                    task@,
                    views(messages@),
                    files as nat,
                    artifacts as nat,
                    workspace_root@,
                ) == Err::<Seq<ItemModel>, Seq<char>>(text@),
            },
    {
        if !text_eq(workspace_root, self.workspace.as_str()) {
            return Err(WORKSPACE.to_owned());
        }
        if let Err(text) = validate_task_text(task) {
            return Err(text);
        }
        if messages.len() > MAX_SELECTED_MESSAGES || files > MAX_SELECTED_FILES || artifacts
            > MAX_SELECTED_ARTIFACTS {
            return Err(ITEM_BOUND.to_owned());
        }
        let mut items: Vec<OutboundItem> = Vec::new();
        push_item(
            &mut items,
            OutboundItem {
                class: OutboundDataClass::PromptText,
                label: "delegated task".to_owned(),
                reference: None,
                source: "current agent tool request".to_owned(),
                bytes: task.as_bytes_vec(),
            },
        );
        assert(item_views(items@) =~= seq![task_item(task@)]);
        match push_messages(&mut items, messages) {
            Ok(_) => Ok(items),
            Err(text) => Err(text),
        }
    }

    /// Plans a delegation: what is sent, or the first reason why nothing is.
    pub fn plan(&self, arguments: DelegateArguments, workspace_root: &str) -> (plan: Result<
        DelegationPlan,
        String,
    >)
        ensures
            match plan {
                Ok(plan) => {
                    &&& planned(
                        self.workspace@,
                        self.artifact_limit as nat,
                        arguments,
                        workspace_root@,
                    ) == Ok::<Seq<ItemModel>, Seq<char>>(item_views(plan.items@))
                    &&& plan.recipient == (RecipientIdentity {
                        kind: RecipientKind::ExternalAgent,
                        connection: self.connection,
                        destination: self.trusted.interface_url,
                        identity_digest: self.trusted.identity_digest,
                    })
                    &&& plan.purpose@ == "delegate task to "@ + self.trusted.agent_name@
                    &&& plan.operation@ == self.name()
                    &&& plan.total_bytes == total_bytes(item_views(plan.items@))
                },
                Err(text) => planned(
                    self.workspace@,
                    self.artifact_limit as nat,
                    arguments,
                    workspace_root@,
                ) == Err::<Seq<ItemModel>, Seq<char>>(text@),
            },
    {
        let mut items = match self.begin(
            arguments.task.as_str(),
            &arguments.selected_messages,
            arguments.selected_files.len(),
            arguments.selected_artifacts.len(),
            workspace_root,
        ) {
            Ok(items) => items,
            Err(text) => {
                return Err(text);
            },
        };
        if let Err(text) = push_files(&mut items, &arguments.selected_files, self.artifact_limit) {
            return Err(text);
        }
        if let Err(text) = push_artifacts(&mut items, &arguments.selected_artifacts) {
            return Err(text);
        }
        if let Some(bytes) = arguments.workspace_metadata {
            push_item(
                &mut items,
                OutboundItem {
                    class: OutboundDataClass::WorkspaceMetadata,
                    label: "bounded workspace metadata".to_owned(),
                    reference: None,
                    source: "frozen conversation workspace".to_owned(),
                    bytes,
                },
            );
        }
        let mut purpose = "delegate task to ".to_owned();
        purpose.append(self.trusted.agent_name.as_str());
        let total_bytes = count_bytes(&items);
        Ok(
            DelegationPlan {
                items,
                recipient: self.recipient(),
                purpose,
                operation: self.tool_name(),
                total_bytes,
            },
        )
    }
}

/// One part of the message that goes to the external agent. The data of a data
/// part is JSON text.
#[derive(Debug, PartialEq, Eq)]
pub enum OutboundPart {
    Text(String),
    Data(String),
    Raw { raw: String, filename: String },
}

/// A part, by content.
pub enum PartModel {
    Text(Seq<char>),
    Data(Seq<char>),
    Raw { raw: Seq<char>, filename: Seq<char> },
}

impl View for OutboundPart {
    type V = PartModel;

    open spec fn view(&self) -> PartModel {
        match self {
            OutboundPart::Text(text) => PartModel::Text(text@),
            OutboundPart::Data(text) => PartModel::Data(text@),
            OutboundPart::Raw { raw, filename } => PartModel::Raw {
                raw: raw@,
                filename: filename@,
            },
        }
    }
}

/// The base64 text of a byte string.
pub uninterp spec fn base64_text(bytes: Seq<u8>) -> Seq<char>;

/// `base64::Engine::encode` of the standard engine: a function of the bytes
/// alone.
#[verifier::external_body]
fn encode_base64(bytes: &Vec<u8>) -> (text: String)
    ensures
        text@ == base64_text(bytes@),
{
    base64::Engine::encode(&base64::engine::general_purpose::STANDARD, bytes)
}

/// The part that an item is sent as.
pub open spec fn part_of(item: ItemModel) -> Result<PartModel, A2aWireError> {
    match item.class {
        OutboundDataClass::PromptText
        | OutboundDataClass::XanaSummary
        | OutboundDataClass::SelectedMessages => match utf8_of(item.bytes) {
            Some(text) => Ok(PartModel::Text(text)),
            None => Err(A2aWireError::Protocol),
        },
        OutboundDataClass::WorkspaceMetadata => match json_document(item.bytes) {
            Some(data) => Ok(PartModel::Data(data.text@)),
            None => Err(A2aWireError::Protocol),
        },
        _ => Ok(
            PartModel::Raw {
                raw: base64_text(item.bytes),
                filename: match item.reference {
                    Some(reference) => reference,
                    None => item.label,
                },
            },
        ),
    }
}

/// The parts that the items are sent as, or the first error.
pub open spec fn parts_of(items: Seq<ItemModel>) -> Result<Seq<PartModel>, A2aWireError>
    decreases items.len(),
{
    if items.len() == 0 {
        Ok(Seq::empty())
    } else {
        match parts_of(items.drop_last()) {
            Err(error) => Err(error),
            Ok(earlier) => match part_of(items.last()) {
                Err(error) => Err(error),
                Ok(part) => Ok(earlier.push(part)),
            },
        }
    }
}

fn outbound_part(item: &OutboundItem) -> (part: Result<OutboundPart, A2aWireError>)
    ensures
        match part {
            Ok(held) => part_of(item@) == Ok::<PartModel, A2aWireError>(held@),
            Err(error) => part_of(item@) == Err::<PartModel, A2aWireError>(error),
        },
{
    match item.class {
        OutboundDataClass::PromptText
        | OutboundDataClass::XanaSummary
        | OutboundDataClass::SelectedMessages => match utf8_text(&item.bytes) {
            Some(text) => Ok(OutboundPart::Text(text)),
            None => Err(A2aWireError::Protocol),
        },
        OutboundDataClass::WorkspaceMetadata => match read_json(item.bytes.as_slice()) {
            Some(data) => Ok(OutboundPart::Data(data.text)),
            None => Err(A2aWireError::Protocol),
        },
        _ => {
            let filename = match copy_option(&item.reference) {
                Some(reference) => reference,
                None => item.label.clone(),
            };
            Ok(OutboundPart::Raw { raw: encode_base64(&item.bytes), filename })
        },
    }
}

proof fn parts_refused(items: Seq<ItemModel>, upto: int)
    requires
        0 <= upto <= items.len(),
        parts_of(items.take(upto)) is Err,
    ensures
        parts_of(items) == parts_of(items.take(upto)),
    decreases items.len() - upto,
{
    if upto < items.len() {
        assert(items.take(upto + 1).drop_last() =~= items.take(upto));
        parts_refused(items, upto + 1);
    } else {
        assert(items.take(upto) =~= items);
    }
}

/// The parts of the message that carries the items.
pub fn outbound_parts(items: &Vec<OutboundItem>) -> (parts: Result<
    Vec<OutboundPart>,
    A2aWireError,
>)
    ensures
        match parts {
            Ok(held) => parts_of(item_views(items@)) == Ok::<Seq<PartModel>, A2aWireError>(
                held@.map_values(|part: OutboundPart| part@),
            ),
            Err(error) => parts_of(item_views(items@)) == Err::<Seq<PartModel>, A2aWireError>(
                error,
            ),
        },
{
    let ghost models = item_views(items@);
    let mut parts: Vec<OutboundPart> = Vec::new();
    let mut i: usize = 0;
    assert(parts@.map_values(|part: OutboundPart| part@) =~= Seq::<PartModel>::empty());
    while i < items.len()
        invariant
            models == item_views(items@),
            i <= items@.len(),
            parts_of(models.take(i as int)) == Ok::<Seq<PartModel>, A2aWireError>(
                parts@.map_values(|part: OutboundPart| part@),
            ),
        decreases items@.len() - i,
    {
        assert(models.take(i + 1).drop_last() =~= models.take(i as int));
        assert(models.take(i + 1).last() == items@[i as int]@);
        match outbound_part(&items[i]) {
            Err(error) => {
                proof {
                    parts_refused(models, i + 1);
                }
                return Err(error);
            },
            Ok(part) => {
                let ghost earlier = parts@.map_values(|part: OutboundPart| part@);
                parts.push(part);
                assert(parts@.map_values(|part: OutboundPart| part@) =~= earlier.push(part@));
            },
        }
        i += 1;
    }
    assert(models.take(i as int) =~= models);
    Ok(parts)
}

/// A declared external agent: the policy it is held to, and what is known of it
/// if it is trusted.
#[derive(Debug, PartialEq, Eq)]
pub struct AgentDeclaration {
    pub name: String,
    pub egress_policy: Option<String>,
    pub trusted: Result<TrustedAgent, String>,
}

/// The first declaration of a name.
pub open spec fn declared(declarations: Seq<AgentDeclaration>, name: Seq<char>) -> Option<
    AgentDeclaration,
>
    decreases declarations.len(),
{
    if declarations.len() == 0 {
        None
    } else if declarations[0].name@ == name {
        Some(declarations[0])
    } else {
        declared(declarations.drop_first(), name)
    }
}

/// What one selected agent contributes to a profile: its tool, or why the
/// profile cannot be activated.
pub open spec fn activates(
    declarations: Seq<AgentDeclaration>,
    policies: Seq<EgressPolicy>,
    name: Seq<char>,
    tool: A2aDelegationTool,
) -> bool {
    &&& declared(declarations, name) matches Some(declaration)
    &&& declaration.trusted matches Ok(trusted)
    &&& tool.connection@ == name
    &&& tool.trusted.agent_name == trusted.agent_name
    &&& tool.trusted.interface_url == trusted.interface_url
    &&& tool.trusted.identity_digest == trusted.identity_digest
    &&& tool.trusted.streaming == trusted.streaming
    &&& tool.trusted.skills@ == trusted.skills@
    &&& tool.connection_allowed@ == allowed_by(policies, option_view(declaration.egress_policy))
    &&& !tool.allow_loopback_http
}

/// Why an agent cannot be activated.
pub open spec fn activation_error(declarations: Seq<AgentDeclaration>, name: Seq<char>) -> Option<
    Seq<char>,
> {
    match declared(declarations, name) {
        None => Some("profile references missing external agent "@ + debug_text(name)),
        Some(declaration) => match declaration.trusted {
            Err(error) => Some(error@),
            Ok(_) => None,
        },
    }
}

fn find_declaration<'a>(declarations: &'a Vec<AgentDeclaration>, name: &str) -> (found: Option<
    &'a AgentDeclaration,
>)
    ensures
        match found {
            Some(declaration) => declared(declarations@, name@) == Some(*declaration),
            None => declared(declarations@, name@) is None,
        },
{
    let mut i: usize = 0;
    assert(declarations@.skip(0) =~= declarations@);
    while i < declarations.len()
        invariant
            i <= declarations@.len(),
            declared(declarations@, name@) == declared(declarations@.skip(i as int), name@),
        decreases declarations@.len() - i,
    {
        assert(declarations@.skip(i as int).drop_first() =~= declarations@.skip(i + 1));
        if text_eq(declarations[i].name.as_str(), name) {
            return Some(&declarations[i]);
        }
        i += 1;
    }
    None
}

/// The delegation tools of a profile, one for each selected agent in the order
/// of selection, or the first reason why one of them cannot be had. Without a
/// selected agent nothing is looked up.
pub fn activate_profile_delegation_tools(
    declarations: &Vec<AgentDeclaration>,
    policies: &Vec<EgressPolicy>,
    selected: &Vec<String>,
    profile_egress: &Vec<OutboundDataClass>,
    workspace: &str,
    artifact_limit: usize,
) -> (tools: Result<Vec<A2aDelegationTool>, String>)
    ensures
        match tools {
            Ok(tools) => {
                &&& tools@.len() == selected@.len()
                &&& forall|i: int|
                    0 <= i < selected@.len() ==> activates(
                        declarations@,
                        policies@,
                        selected@[i]@,
                        #[trigger] tools@[i],
                    ) && tools@[i].workspace@ == workspace@ && tools@[i].artifact_limit
                        == artifact_limit && tools@[i].profile_allowed@ == profile_egress@
            },
            Err(text) => exists|i: int|
                0 <= i < selected@.len() && activation_error(
                    declarations@,
                    #[trigger] selected@[i]@,
                ) == Some(text@) && forall|j: int|
                    0 <= j < i ==> activation_error(declarations@, #[trigger] selected@[j]@) is None,
        },
{
    let mut tools: Vec<A2aDelegationTool> = Vec::new();
    let mut i: usize = 0;
    while i < selected.len()
        invariant
            i <= selected@.len(),
            tools@.len() == i,
            forall|j: int|
                0 <= j < i ==> activates(
                    declarations@,
                    policies@,
                    selected@[j]@,
                    #[trigger] tools@[j],
                ) && tools@[j].workspace@ == workspace@ && tools@[j].artifact_limit
                    == artifact_limit && tools@[j].profile_allowed@ == profile_egress@,
            forall|j: int|
                0 <= j < i ==> activation_error(declarations@, #[trigger] selected@[j]@) is None,
        decreases selected@.len() - i,
    {
        let name = selected[i].as_str();
        let declaration = match find_declaration(declarations, name) {
            Some(declaration) => declaration,
            None => {
                let mut text = "profile references missing external agent ".to_owned();
                text.append(quoted(name).as_str());
                assert(activation_error(declarations@, selected@[i as int]@) == Some(text@));
                return Err(text);
            },
        };
        let trusted = match &declaration.trusted {
            Ok(trusted) => trusted,
            Err(error) => {
                let text = error.clone();
                assert(activation_error(declarations@, selected@[i as int]@) == Some(text@));
                return Err(text);
            },
        };
        tools.push(
            A2aDelegationTool {
                connection: name.to_owned(),
                trusted: TrustedAgent {
                    agent_name: trusted.agent_name.clone(),
                    interface_url: trusted.interface_url.clone(),
                    identity_digest: trusted.identity_digest.clone(),
                    streaming: trusted.streaming,
                    skills: crate::text::copy_list(&trusted.skills),
                },
                workspace: workspace.to_owned(),
                artifact_limit,
                allow_loopback_http: false,
                connection_allowed: policy_classes(
                    policies,
                    as_name(&declaration.egress_policy),
                ),
                profile_allowed: copy_classes(profile_egress),
            },
        );
        i += 1;
    }
    Ok(tools)
}

/// Only what was selected is sent: a plan without selected files, artifacts or
/// workspace description sends text of the task and the selected messages, and
/// nothing else.
pub proof fn only_selected_classes_are_sent(
    workspace: Seq<char>,
    limit: nat,
    arguments: DelegateArguments,
    workspace_root: Seq<char>,
)
    requires
        arguments.selected_files@.len() == 0,
        arguments.selected_artifacts@.len() == 0,
        arguments.workspace_metadata is None,
    ensures
        planned(workspace, limit, arguments, workspace_root) matches Ok(items) ==> {
            &&& items.len() == 1 + arguments.selected_messages@.len()
            &&& items[0] == task_item(arguments.task@)
            &&& forall|i: int|
                0 < i < items.len() ==> (#[trigger] items[i]).class
                    == OutboundDataClass::SelectedMessages
        },
{
    let start = seq![task_item(arguments.task@)];
    messages_only(start, views(arguments.selected_messages@));
    if let Ok(all) = with_messages(start, views(arguments.selected_messages@)) {
        assert(all.subrange(0, 1)[0] == start[0]);
    }
}

proof fn messages_only(items: Seq<ItemModel>, messages: Seq<Seq<char>>)
    ensures
        with_messages(items, messages) matches Ok(all) ==> {
            &&& all.len() == items.len() + messages.len()
            &&& items.is_prefix_of(all)
            &&& forall|i: int|
                items.len() <= i < all.len() ==> (#[trigger] all[i]).class
                    == OutboundDataClass::SelectedMessages
        },
    decreases messages.len(),
{
    if messages.len() > 0 {
        messages_only(items, messages.drop_last());
    }
}

/// No plan reaches outside the workspace: a selected file that is absolute or
/// goes up is refused before it matters what reading it gave.
pub proof fn escaping_files_are_refused(selection: FileSelection, limit: nat)
    requires
        !relative_path(selection.source@),
    ensures
        file_content(selection, limit) is Err,
{
}

proof fn messages_are_added(items: Seq<ItemModel>, messages: Seq<Seq<char>>)
    ensures
        with_messages(items, messages) matches Ok(all) ==> {
            &&& all.len() == items.len() + messages.len()
            &&& items.is_prefix_of(all)
            &&& forall|i: int|
                0 <= i < messages.len() ==> {
                    let item = #[trigger] all[items.len() + i];
                    &&& item.class == OutboundDataClass::SelectedMessages
                    &&& item.bytes == encode_utf8(messages[i])
                }
        },
    decreases messages.len(),
{
    if messages.len() > 0 {
        messages_are_added(items, messages.drop_last());
        if let Ok(all) = with_messages(items, messages) {
            let earlier = with_messages(items, messages.drop_last())->Ok_0;
            assert(all.drop_last() =~= earlier);
            assert forall|i: int| 0 <= i < messages.len() implies {
                let item = #[trigger] all[items.len() + i];
                &&& item.class == OutboundDataClass::SelectedMessages
                &&& item.bytes == encode_utf8(messages[i])
            } by {
                if i < messages.len() - 1 {
                    assert(all[items.len() + i] == earlier[items.len() + i]);
                    assert(messages.drop_last()[i] == messages[i]);
                }
            }
        }
    }
}

proof fn files_are_added(items: Seq<ItemModel>, files: Seq<FileSelection>, limit: nat)
    ensures
        with_files(items, files, limit) matches Ok(all) ==> {
            &&& all.len() == items.len() + files.len()
            &&& items.is_prefix_of(all)
            &&& forall|i: int|
                0 <= i < files.len() ==> {
                    let item = #[trigger] all[items.len() + i];
                    &&& item.class == OutboundDataClass::SelectedFileContents
                    &&& item.reference == Some(files[i].source@)
                    &&& files[i].read matches FileRead::Read { bytes, .. } && item.bytes == bytes@
                }
        },
    decreases files.len(),
{
    if files.len() > 0 {
        files_are_added(items, files.drop_last(), limit);
        if let Ok(all) = with_files(items, files, limit) {
            let earlier = with_files(items, files.drop_last(), limit)->Ok_0;
            assert(all.drop_last() =~= earlier);
            assert forall|i: int| 0 <= i < files.len() implies {
                let item = #[trigger] all[items.len() + i];
                &&& item.class == OutboundDataClass::SelectedFileContents
                &&& item.reference == Some(files[i].source@)
                &&& files[i].read matches FileRead::Read { bytes, .. } && item.bytes == bytes@
            } by {
                if i < files.len() - 1 {
                    assert(all[items.len() + i] == earlier[items.len() + i]);
                    assert(files.drop_last()[i] == files[i]);
                }
            }
        }
    }
}

proof fn artifacts_are_added(items: Seq<ItemModel>, artifacts: Seq<ArtifactSelection>)
    ensures
        with_artifacts(items, artifacts) matches Ok(all) ==> {
            &&& all.len() == items.len() + artifacts.len()
            &&& items.is_prefix_of(all)
            &&& forall|i: int|
                0 <= i < artifacts.len() ==> {
                    let item = #[trigger] all[items.len() + i];
                    &&& item.class == OutboundDataClass::SelectedArtifacts
                    &&& item.reference == Some(artifacts[i].filename@)
                    &&& artifacts[i].read matches Ok(bytes) && item.bytes == bytes@
                }
        },
    decreases artifacts.len(),
{
    if artifacts.len() > 0 {
        artifacts_are_added(items, artifacts.drop_last());
        if let Ok(all) = with_artifacts(items, artifacts) {
            let earlier = with_artifacts(items, artifacts.drop_last())->Ok_0;
            assert(all.drop_last() =~= earlier);
            assert forall|i: int| 0 <= i < artifacts.len() implies {
                let item = #[trigger] all[items.len() + i];
                &&& item.class == OutboundDataClass::SelectedArtifacts
                &&& item.reference == Some(artifacts[i].filename@)
                &&& artifacts[i].read matches Ok(bytes) && item.bytes == bytes@
            } by {
                if i < artifacts.len() - 1 {
                    assert(all[items.len() + i] == earlier[items.len() + i]);
                    assert(artifacts.drop_last()[i] == artifacts[i]);
                }
            }
        }
    }
}

/// A delegation sends what was selected, all of it and nothing else, in order: the task,
/// each message, the bytes that were read of each file and of each artifact, and the
/// description of the workspace where that was asked for.
pub proof fn plans_carry_the_selection(
    workspace: Seq<char>,
    limit: nat,
    arguments: DelegateArguments,
    workspace_root: Seq<char>,
)
    ensures
        planned(workspace, limit, arguments, workspace_root) matches Ok(items) ==> {
            let messages = arguments.selected_messages@;
            let files = arguments.selected_files@;
            let artifacts = arguments.selected_artifacts@;
            let count = 1 + messages.len() + files.len() + artifacts.len();
            &&& items.len() == count + if arguments.workspace_metadata is Some {
                1int
            } else {
                0
            }
            &&& items[0].class == OutboundDataClass::PromptText
            &&& items[0].bytes == encode_utf8(arguments.task@)
            &&& forall|i: int|
                0 <= i < messages.len() ==> {
                    let item = #[trigger] items[1 + i];
                    &&& item.class == OutboundDataClass::SelectedMessages
                    &&& item.bytes == encode_utf8(messages[i]@)
                }
            &&& forall|i: int|
                0 <= i < files.len() ==> {
                    let item = #[trigger] items[1 + messages.len() + i];
                    &&& item.class == OutboundDataClass::SelectedFileContents
                    &&& item.reference == Some(files[i].source@)
                    &&& files[i].read matches FileRead::Read { bytes, .. } && item.bytes == bytes@
                }
            &&& forall|i: int|
                0 <= i < artifacts.len() ==> {
                    let item = #[trigger] items[1 + messages.len() + files.len() + i];
                    &&& item.class == OutboundDataClass::SelectedArtifacts
                    &&& item.reference == Some(artifacts[i].filename@)
                    &&& artifacts[i].read matches Ok(bytes) && item.bytes == bytes@
                }
            &&& arguments.workspace_metadata matches Some(bytes) ==> items.last().class
                == OutboundDataClass::WorkspaceMetadata && items.last().bytes == bytes@
        },
{
    let start = seq![task_item(arguments.task@)];
    let messages = views(arguments.selected_messages@);
    let files = arguments.selected_files@;
    let artifacts = arguments.selected_artifacts@;
    if let Ok(items) = planned(workspace, limit, arguments, workspace_root) {
        messages_are_added(start, messages);
        let told = with_messages(start, messages)->Ok_0;
        files_are_added(told, files, limit);
        let filed = with_files(told, files, limit)->Ok_0;
        artifacts_are_added(filed, artifacts);
        let all = with_artifacts(filed, artifacts)->Ok_0;
        assert(all.subrange(0, filed.len() as int) =~= filed);
        assert(filed.subrange(0, told.len() as int) =~= told);
        assert(told.subrange(0, 1) =~= start);
        assert forall|i: int| 0 <= i < filed.len() implies items[i] == #[trigger] filed[i] by {
            assert(all.subrange(0, filed.len() as int)[i] == all[i]);
        }
        assert forall|i: int| 0 <= i < told.len() implies items[i] == #[trigger] told[i] by {
            assert(filed.subrange(0, told.len() as int)[i] == filed[i]);
        }
        assert(told.subrange(0, 1)[0] == told[0]);
        assert(items[0] == start[0]);
        assert forall|i: int| 0 <= i < arguments.selected_messages@.len() implies {
            let item = #[trigger] items[1 + i];
            &&& item.class == OutboundDataClass::SelectedMessages
            &&& item.bytes == encode_utf8(arguments.selected_messages@[i]@)
        } by {
            assert(items[1 + i] == told[start.len() + i]);
            assert(messages[i] == arguments.selected_messages@[i]@);
        }
        assert forall|i: int| 0 <= i < files.len() implies {
            let item = #[trigger] items[1 + messages.len() + i];
            &&& item.class == OutboundDataClass::SelectedFileContents
            &&& item.reference == Some(files[i].source@)
            &&& files[i].read matches FileRead::Read { bytes, .. } && item.bytes == bytes@
        } by {
            assert(items[1 + messages.len() + i] == filed[told.len() + i]);
        }
        assert forall|i: int| 0 <= i < artifacts.len() implies {
            let item = #[trigger] items[1 + messages.len() + files.len() + i];
            &&& item.class == OutboundDataClass::SelectedArtifacts
            &&& item.reference == Some(artifacts[i].filename@)
            &&& artifacts[i].read matches Ok(bytes) && item.bytes == bytes@
        } by {
            assert(items[1 + messages.len() + files.len() + i] == all[filed.len() + i]);
        }
    }
}

/// Nothing is planned in another workspace, for a task that must not be sent, for more
/// than sixteen selections of a kind, or for a file that leaves the workspace or is
/// larger than was agreed to.
pub proof fn plans_respect_their_bounds(
    workspace: Seq<char>,
    limit: nat,
    arguments: DelegateArguments,
    workspace_root: Seq<char>,
)
    ensures
        planned(workspace, limit, arguments, workspace_root) is Ok ==> {
            &&& workspace_root == workspace
            &&& !is_blank(arguments.task@)
            &&& arguments.selected_messages@.len() <= 16
            &&& arguments.selected_files@.len() <= 16
            &&& arguments.selected_artifacts@.len() <= 16
        },
{
}

/// What is sent of an item is its content: text as text, a description as JSON, and
/// files and artifacts as the base64 of their bytes under the name that they were
/// selected by.
pub proof fn parts_carry_their_item(item: ItemModel)
    ensures
        part_of(item) matches Ok(PartModel::Text(text)) ==> utf8_of(item.bytes) == Some(text),
        part_of(item) matches Ok(PartModel::Raw { raw, filename }) ==> raw == base64_text(
            item.bytes,
        ) && (item.reference matches Some(reference) ==> filename == reference),
        item.class == OutboundDataClass::SelectedFileContents || item.class
            == OutboundDataClass::SelectedArtifacts ==> part_of(item) matches Ok(
            PartModel::Raw { .. },
        ),
        item.class == OutboundDataClass::PromptText || item.class
            == OutboundDataClass::SelectedMessages ==> !(part_of(item) matches Ok(
            PartModel::Raw { .. },
        )) && !(part_of(item) matches Ok(PartModel::Data(_))),
        item.class == OutboundDataClass::WorkspaceMetadata ==> !(part_of(item) matches Ok(
            PartModel::Raw { .. },
        )) && !(part_of(item) matches Ok(PartModel::Text(_))),
{
}

/// Every item is sent as one part, in order, or nothing is.
pub proof fn items_are_sent_in_order(items: Seq<ItemModel>)
    ensures
        parts_of(items) matches Ok(parts) ==> {
            &&& parts.len() == items.len()
            &&& forall|i: int|
                0 <= i < items.len() ==> part_of(#[trigger] items[i]) == Ok::<
                    PartModel,
                    A2aWireError,
                >(parts[i])
        },
        parts_of(items) is Err ==> exists|i: int|
            0 <= i < items.len() && part_of(#[trigger] items[i]) is Err,
    decreases items.len(),
{
    if items.len() > 0 {
        let earlier = items.drop_last();
        items_are_sent_in_order(earlier);
        match parts_of(earlier) {
            Ok(parts) => {
                assert(items[items.len() - 1] == items.last());
                assert forall|i: int| 0 <= i < items.len() && parts_of(items) is Ok implies part_of(
                    #[trigger] items[i],
                ) == Ok::<PartModel, A2aWireError>(parts_of(items)->Ok_0[i]) by {
                    if i < earlier.len() {
                        assert(earlier[i] == items[i]);
                    }
                }
            },
            Err(_) => {
                let i = choose|i: int|
                    0 <= i < earlier.len() && part_of(#[trigger] earlier[i]) is Err;
                assert(earlier[i] == items[i]);
            },
        }
    }
}

/// A tool is activated for an agent that is declared and trusted, and for that one: it
/// delivers where the declaration was reviewed, and never to a loopback address that
/// was not asked for.
pub proof fn activated_tools_are_declared(
    declarations: Seq<AgentDeclaration>,
    policies: Seq<EgressPolicy>,
    name: Seq<char>,
    tool: A2aDelegationTool,
)
    requires
        activates(declarations, policies, name, tool),
    ensures
        !tool.allow_loopback_http,
        tool.connection@ == name,
        exists|i: int|
            0 <= i < declarations.len() && (#[trigger] declarations[i]).name@ == name && (
            declarations[i].trusted matches Ok(trusted) && tool.trusted.interface_url
                == trusted.interface_url && tool.trusted.identity_digest
                == trusted.identity_digest),
{
    declarations_are_found(declarations, name);
}

proof fn declarations_are_found(declarations: Seq<AgentDeclaration>, name: Seq<char>)
    ensures
        match declared(declarations, name) {
            Some(found) => exists|i: int|
                0 <= i < declarations.len() && #[trigger] declarations[i] == found && found.name@
                    == name,
            None => forall|i: int|
                0 <= i < declarations.len() ==> (#[trigger] declarations[i]).name@ != name,
        },
    decreases declarations.len(),
{
    if declarations.len() > 0 {
        if declarations[0].name@ != name {
            let rest = declarations.drop_first();
            declarations_are_found(rest, name);
            match declared(rest, name) {
                Some(found) => {
                    let i = choose|i: int|
                        0 <= i < rest.len() && #[trigger] rest[i] == found && found.name@ == name;
                    assert(declarations[i + 1] == found);
                },
                None => {
                    assert forall|i: int| 0 <= i < declarations.len() implies (
                    #[trigger] declarations[i]).name@ != name by {
                        if i > 0 {
                            assert(rest[i - 1] == declarations[i]);
                        }
                    }
                },
            }
        }
    }
}

/// A tool delegates to the agent that its owner trusts, and to no other: to the address and
/// the identity that were trusted, under the name of the connection.
pub proof fn tools_reach_the_trusted_agent(
    tool: &A2aDelegationTool,
    recipient: RecipientIdentity,
    arguments: DelegateArguments,
    workspace_root: &str,
    plan: Result<DelegationPlan, String>,
)
    requires
        call_ensures(A2aDelegationTool::recipient, (tool,), recipient),
        call_ensures(A2aDelegationTool::plan, (tool, arguments, workspace_root), plan),
    ensures
        recipient.destination == tool.trusted.interface_url,
        recipient.identity_digest == tool.trusted.identity_digest,
        recipient.connection == tool.connection,
        recipient.kind == RecipientKind::ExternalAgent,
        plan matches Ok(made) ==> {
            &&& made.recipient == recipient
            &&& made.total_bytes == total_bytes(item_views(made.items@))
            &&& workspace_root@ == tool.workspace@
        },
        workspace_root@ != tool.workspace@ ==> plan is Err,
{
}

/// A profile's agents are activated all or not at all: not where one of them is missing or
/// is not trusted, and each only under the workspace, the limit and the classes that the
/// profile allows.
pub proof fn profiles_activate_trusted_agents(
    declarations: &Vec<AgentDeclaration>,
    policies: &Vec<EgressPolicy>,
    selected: &Vec<String>,
    profile_egress: &Vec<OutboundDataClass>,
    workspace: &str,
    artifact_limit: usize,
    tools: Result<Vec<A2aDelegationTool>, String>,
)
    requires
        call_ensures(
            activate_profile_delegation_tools,
            (declarations, policies, selected, profile_egress, workspace, artifact_limit),
            tools,
        ),
    ensures
        tools matches Ok(made) ==> {
            &&& made@.len() == selected@.len()
            &&& forall|i: int|
                0 <= i < made@.len() ==> {
                    let tool = #[trigger] made@[i];
                    &&& tool.workspace@ == workspace@
                    &&& tool.artifact_limit == artifact_limit
                    &&& tool.profile_allowed@ == profile_egress@
                    &&& !tool.allow_loopback_http
                    &&& activates(declarations@, policies@, selected@[i]@, tool)
                }
        },
        selected@.len() == 0 ==> tools is Ok,
        (forall|i: int|
            0 <= i < selected@.len() ==> activation_error(
                declarations@,
                #[trigger] selected@[i]@,
            ) is None) ==> tools is Ok,
{
}

}
