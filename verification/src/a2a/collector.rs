//! What is kept of the replies of an external agent to one delegated task.
//!
//! The collector reads one reply after another. What is to be done outside
//! because of a reply is queued in order, also where the reply is refused
//! half-way: the effects of what came before the refusal come first.

use crate::a2a::validation::{
    id_of, needed_id, normalize_task_state, optional_id, optional_text, reference_of, remote_text,
    required_id, safe_reference, text_or, validate_remote_text, wire_state, A2aWireError, TaskState,
    MAX_FILENAME_BYTES, MAX_MEDIA_TYPE_BYTES, MAX_REMOTE_ARTIFACTS, MAX_RESPONSE_BYTES,
    MAX_RETAINED_MESSAGE_BYTES, MAX_SAFE_REFERENCES,
};
use crate::json::Json;
use crate::text::{
    before, byte_count, byte_len, copy_list, copy_option, decimal, decimal_text, option_view, preview,
    previewed, text_before, text_eq, views,
};
use vstd::prelude::*;
use vstd::string::*;
use vstd::utf8::encode_utf8;

verus! {

/// How much of a message is shown as activity, in bytes.
pub const MAX_ACTIVITY_BYTES: usize = 8192;

pub const OWNERSHIP: &'static str = "external_a2a_agent";

pub const NOT_REQUESTED: &'static str = "not_requested";

/// Something to be done outside because of a reply.
#[derive(Debug, PartialEq, Eq)]
pub enum Effect {
    /// Tell observers that the task has an identity.
    Identified { task_id: String, context_id: Option<String> },
    /// Tell observers where the task stands.
    Status { state: TaskState, message: Option<String> },
    /// Tell observers what the agent said.
    Message { text: String },
    /// Keep the state of the task.
    Record {
        task_id: String,
        context_id: Option<String>,
        state: TaskState,
        remote_cancel: &'static str,
    },
    /// Store an artifact, and tell observers of it once it is stored.
    Store { name: String, media_type: String, bytes: Vec<u8> },
}

/// An effect, by content.
pub enum EffectModel {
    Identified { task_id: Seq<char>, context_id: Option<Seq<char>> },
    Status { state: TaskState, message: Option<Seq<char>> },
    Message { text: Seq<char> },
    Record {
        task_id: Seq<char>,
        context_id: Option<Seq<char>>,
        state: TaskState,
        remote_cancel: Seq<char>,
    },
    Store { name: Seq<char>, media_type: Seq<char>, bytes: Seq<u8> },
}

impl View for Effect {
    type V = EffectModel;

    open spec fn view(&self) -> EffectModel {
        match self {
            Effect::Identified { task_id, context_id } => EffectModel::Identified {
                task_id: task_id@,
                context_id: option_view(*context_id),
            },
            Effect::Status { state, message } => EffectModel::Status {
                state: *state,
                message: option_view(*message),
            },
            Effect::Message { text } => EffectModel::Message { text: text@ },
            Effect::Record { task_id, context_id, state, remote_cancel } => EffectModel::Record {
                task_id: task_id@,
                context_id: option_view(*context_id),
                state: *state,
                remote_cancel: remote_cancel@,
            },
            Effect::Store { name, media_type, bytes } => EffectModel::Store {
                name: name@,
                media_type: media_type@,
                bytes: bytes@,
            },
        }
    }
}

struct TakenArtifact {
    remote_artifact_id: String,
    name: String,
    source_task_id: Option<String>,
}

/// An artifact of the external agent that goes to the store.
pub struct IngestedModel {
    pub remote_artifact_id: Seq<char>,
    pub name: Seq<char>,
    pub source_task_id: Option<Seq<char>>,
}

impl View for TakenArtifact {
    type V = IngestedModel;

    closed spec fn view(&self) -> IngestedModel {
        IngestedModel {
            remote_artifact_id: self.remote_artifact_id@,
            name: self.name@,
            source_task_id: option_view(self.source_task_id),
        }
    }
}

/// What the store says of an artifact that it keeps.
#[derive(Debug, PartialEq, Eq)]
pub struct ArtifactRecord {
    pub id: String,
    pub media_type: String,
    pub content_hash: String,
    pub byte_len: u64,
}

impl ArtifactRecord {
    /// The same record.
    pub fn copy(&self) -> (copy: ArtifactRecord)
        ensures
            copy == *self,
    {
        ArtifactRecord {
            id: self.id.clone(),
            media_type: self.media_type.clone(),
            content_hash: self.content_hash.clone(),
            byte_len: self.byte_len,
        }
    }
}

/// An artifact of the external agent that the store keeps.
#[derive(Debug, PartialEq, Eq)]
pub struct IngestedArtifact {
    pub remote_artifact_id: String,
    pub name: String,
    pub source_task_id: Option<String>,
    pub record: ArtifactRecord,
}

/// Whether a reported artifact is an ingested one with its record.
pub open spec fn reports_artifact(
    artifact: IngestedModel,
    record: ArtifactRecord,
    reported: IngestedArtifact,
) -> bool {
    &&& reported.remote_artifact_id@ == artifact.remote_artifact_id
    &&& reported.name@ == artifact.name
    &&& option_view(reported.source_task_id) == artifact.source_task_id
    &&& reported.record == record
}

/// Whether the reported artifacts are the ingested ones that have a record, in
/// order, each with its own.
pub open spec fn reports_artifacts(
    ingested: Seq<IngestedModel>,
    records: Seq<ArtifactRecord>,
    reported: Seq<IngestedArtifact>,
) -> bool {
    &&& reported.len() == (if records.len() < ingested.len() {
        records.len()
    } else {
        ingested.len()
    })
    &&& forall|i: int|
        0 <= i < reported.len() ==> reports_artifact(ingested[i], records[i], #[trigger] reported[i])
}

/// Something that the external agent refers to by its address alone.
#[derive(Debug, PartialEq, Eq)]
pub struct SafeExternalReference {
    pub remote_artifact_id: String,
    pub name: String,
    pub url: String,
    pub media_type: String,
    pub source_task_id: Option<String>,
}

/// A reference, by content.
pub struct ReferenceModel {
    pub remote_artifact_id: Seq<char>,
    pub name: Seq<char>,
    pub url: Seq<char>,
    pub media_type: Seq<char>,
    pub source_task_id: Option<Seq<char>>,
}

impl View for SafeExternalReference {
    type V = ReferenceModel;

    open spec fn view(&self) -> ReferenceModel {
        ReferenceModel {
            remote_artifact_id: self.remote_artifact_id@,
            name: self.name@,
            url: self.url@,
            media_type: self.media_type@,
            source_task_id: option_view(self.source_task_id),
        }
    }
}

struct PendingArtifact {
    key: String,
    remote_id: String,
    name: String,
    media_type: String,
    bytes: Vec<u8>,
}

/// An artifact of which more may come.
pub struct PendingModel {
    pub key: Seq<char>,
    pub remote_id: Seq<char>,
    pub name: Seq<char>,
    pub media_type: Seq<char>,
    pub bytes: Seq<u8>,
}

impl View for PendingArtifact {
    type V = PendingModel;

    closed spec fn view(&self) -> PendingModel {
        PendingModel {
            key: self.key@,
            remote_id: self.remote_id@,
            name: self.name@,
            media_type: self.media_type@,
            bytes: self.bytes@,
        }
    }
}

/// Reads the replies to one delegated task.
pub struct DelegationCollector {
    artifact_limit: usize,
    task_id: Option<String>,
    context_id: Option<String>,
    state: TaskState,
    messages: Vec<String>,
    message_bytes: usize,
    ingested: Vec<TakenArtifact>,
    references: Vec<SafeExternalReference>,
    pending: Vec<PendingArtifact>,
    artifact_bytes: usize,
    direct_message: bool,
    effects: Vec<Effect>,
}

/// All that a collector knows. The pending artifacts stand in the order of their
/// keys.
#[verifier::ext_equal]
pub struct Collection {
    pub artifact_limit: nat,
    pub task_id: Option<Seq<char>>,
    pub context_id: Option<Seq<char>>,
    pub state: TaskState,
    pub messages: Seq<Seq<char>>,
    pub message_bytes: nat,
    pub ingested: Seq<IngestedModel>,
    pub references: Seq<ReferenceModel>,
    pub pending: Seq<PendingModel>,
    pub artifact_bytes: nat,
    pub direct_message: bool,
    pub effects: Seq<EffectModel>,
}

impl View for DelegationCollector {
    type V = Collection;

    closed spec fn view(&self) -> Collection {
        Collection {
            artifact_limit: self.artifact_limit as nat,
            task_id: option_view(self.task_id),
            context_id: option_view(self.context_id),
            state: self.state,
            messages: views(self.messages@),
            message_bytes: self.message_bytes as nat,
            ingested: self.ingested@.map_values(|artifact: TakenArtifact| artifact@),
            references: self.references@.map_values(|reference: SafeExternalReference| reference@),
            pending: self.pending@.map_values(|artifact: PendingArtifact| artifact@),
            artifact_bytes: self.artifact_bytes as nat,
            direct_message: self.direct_message,
            effects: self.effects@.map_values(|effect: Effect| effect@),
        }
    }
}

/// The collection and what came of a reply.
pub type Taken = (Collection, Result<(), A2aWireError>);

/// One more effect.
pub open spec fn with_effect(collection: Collection, effect: EffectModel) -> Collection {
    Collection { effects: collection.effects.push(effect), ..collection }
}

/// The state of an identified task is kept.
pub open spec fn recorded(
    collection: Collection,
    state: TaskState,
    remote_cancel: Seq<char>,
) -> Collection {
    match collection.task_id {
        Some(task_id) => with_effect(
            collection,
            EffectModel::Record {
                task_id,
                context_id: collection.context_id,
                state,
                remote_cancel,
            },
        ),
        None => collection,
    }
}

/// The task gets its identity, or keeps the one it has.
pub open spec fn identified(
    collection: Collection,
    task_id: Seq<char>,
    context_id: Option<Seq<char>>,
) -> Taken {
    let other_task = collection.task_id matches Some(current) && current != task_id;
    let other_context = match (collection.context_id, context_id) {
        (Some(current), Some(incoming)) => current != incoming,
        _ => false,
    };
    if other_task || other_context {
        (collection, Err(A2aWireError::Protocol))
    } else {
        let named = Collection {
            task_id: Some(task_id),
            context_id: if context_id is Some {
                context_id
            } else {
                collection.context_id
            },
            ..collection
        };
        if collection.task_id is None {
            (
                recorded(
                    with_effect(named, EffectModel::Identified { task_id, context_id }),
                    TaskState::Submitted,
                    NOT_REQUESTED@,
                ),
                Ok(()),
            )
        } else {
            (named, Ok(()))
        }
    }
}

/// The text of the parts of a message, one part per line, or an error if one of
/// them must not be taken.
pub open spec fn combined(parts: Seq<Json>) -> Result<Seq<char>, A2aWireError>
    decreases parts.len(),
{
    if parts.len() == 0 {
        Ok(Seq::empty())
    } else {
        match combined(parts.drop_last()) {
            Err(error) => Err(error),
            Ok(earlier) => match parts.last().member_string("text"@) {
                None => Ok(earlier),
                Some(text) => if !remote_text(text) {
                    Err(A2aWireError::Protocol)
                } else if earlier.len() == 0 {
                    Ok(text)
                } else {
                    Ok(earlier.push('\n') + text)
                },
            },
        }
    }
}

/// A count of bytes that stays at the largest machine value.
pub open spec fn bytes_capped(count: nat) -> nat {
    if count > usize::MAX {
        usize::MAX as nat
    } else {
        count
    }
}

/// A message of the agent is kept; one without text says nothing.
pub open spec fn message_taken(collection: Collection, value: Json) -> (
    Collection,
    Result<Option<Seq<char>>, A2aWireError>,
) {
    match value.member_items("parts"@) {
        Some(parts) if value.member_string("role"@) == Some("ROLE_AGENT"@) => match combined(parts) {
            Err(error) => (collection, Err(error)),
            Ok(text) => if text.len() == 0 {
                (collection, Ok(None))
            } else {
                let bytes = bytes_capped(collection.message_bytes + byte_count(text));
                let counted = Collection { message_bytes: bytes, ..collection };
                if bytes > MAX_RETAINED_MESSAGE_BYTES {
                    (counted, Err(A2aWireError::TooLarge))
                } else {
                    (
                        with_effect(
                            Collection { messages: counted.messages.push(text), ..counted },
                            EffectModel::Message {
                                text: previewed(text, MAX_ACTIVITY_BYTES as nat),
                            },
                        ),
                        Ok(Some(text)),
                    )
                }
            },
        },
        _ => (collection, Err(A2aWireError::Protocol)),
    }
}

/// The task takes a state, with what the agent says about it.
pub open spec fn status_taken(collection: Collection, value: Json) -> Taken {
    let state = match value.member_string("state"@) {
        Some(name) => wire_state(name),
        None => None,
    };
    match state {
        None => (collection, Err(A2aWireError::Protocol)),
        Some(state) => {
            let moved = Collection { state, ..collection };
            let (told, said) = match value.member("message"@) {
                Some(message) => message_taken(moved, message),
                None => (moved, Ok(None)),
            };
            match said {
                Err(error) => (told, Err(error)),
                Ok(text) => (
                    recorded(
                        with_effect(
                            told,
                            EffectModel::Status {
                                state,
                                message: match text {
                                    Some(text) => Some(previewed(text, MAX_ACTIVITY_BYTES as nat)),
                                    None => None,
                                },
                            },
                        ),
                        state,
                        NOT_REQUESTED@,
                    ),
                    Ok(()),
                ),
            }
        },
    }
}

/// Where a key stands among the pending artifacts, or would stand.
pub open spec fn slot(pending: Seq<PendingModel>, key: Seq<char>) -> nat
    decreases pending.len(),
{
    if pending.len() > 0 && before(pending[0].key, key) {
        1 + slot(pending.drop_first(), key)
    } else {
        0
    }
}

/// The pending artifact at a slot is complete: it goes to the store.
pub open spec fn finalized(collection: Collection, at: nat) -> Taken {
    if collection.ingested.len() >= MAX_REMOTE_ARTIFACTS {
        (collection, Err(A2aWireError::TooManyArtifacts))
    } else if at >= collection.pending.len() {
        (collection, Err(A2aWireError::Protocol))
    } else {
        let artifact = collection.pending[at as int];
        (
            with_effect(
                Collection {
                    pending: collection.pending.remove(at as int),
                    ingested: collection.ingested.push(
                        IngestedModel {
                            remote_artifact_id: artifact.remote_id,
                            name: artifact.name,
                            source_task_id: collection.task_id,
                        },
                    ),
                    ..collection
                },
                EffectModel::Store {
                    name: artifact.name,
                    media_type: artifact.media_type,
                    bytes: artifact.bytes,
                },
            ),
            Ok(()),
        )
    }
}

/// What one part of an artifact holds.
pub struct PartContent {
    pub bytes: Seq<u8>,
    pub media_type: Seq<char>,
    pub name: Seq<char>,
}

/// The bytes that a text stands for in base64.
pub uninterp spec fn base64_bytes(text: Seq<char>) -> Option<Seq<u8>>;

/// What a part of an artifact holds that is not a reference.
pub open spec fn part_content(part: Json, name: Seq<char>, artifact_limit: nat) -> Result<
    PartContent,
    A2aWireError,
> {
    match part.member_string("raw"@) {
        Some(raw) => if byte_count(raw) > bytes_capped(artifact_limit * 2) {
            Err(A2aWireError::TooLarge)
        } else {
            match (
                base64_bytes(raw),
                text_or(
                    part.member("mediaType"@),
                    "application/octet-stream"@,
                    MAX_MEDIA_TYPE_BYTES as nat,
                ),
                text_or(part.member("filename"@), name, MAX_FILENAME_BYTES as nat),
            ) {
                (Some(bytes), Ok(media_type), Ok(name)) => Ok(
                    PartContent { bytes, media_type, name },
                ),
                _ => Err(A2aWireError::Protocol),
            }
        },
        None => match part.member_string("text"@) {
            Some(text) => if remote_text(text) {
                Ok(PartContent { bytes: encode_utf8(text), media_type: "text/plain"@, name })
            } else {
                Err(A2aWireError::Protocol)
            },
            None => match part.member("data"@) {
                Some(data) => Ok(
                    PartContent {
                        bytes: encode_utf8(data.text@),
                        media_type: "application/json"@,
                        name,
                    },
                ),
                None => Err(A2aWireError::Protocol),
            },
        },
    }
}

/// The key of one part of an artifact.
pub open spec fn part_key(remote_id: Seq<char>, index: nat) -> Seq<char> {
    remote_id + ":"@ + decimal(index)
}

/// A reference is kept by its address.
pub open spec fn reference_taken(
    collection: Collection,
    remote_id: Seq<char>,
    name: Seq<char>,
    part: Json,
    url: Seq<char>,
) -> Taken {
    if collection.references.len() >= MAX_SAFE_REFERENCES {
        (collection, Err(A2aWireError::TooManyArtifacts))
    } else {
        match (
            reference_of(url),
            text_or(
                part.member("mediaType"@),
                "application/octet-stream"@,
                MAX_MEDIA_TYPE_BYTES as nat,
            ),
            text_or(part.member("filename"@), name, MAX_FILENAME_BYTES as nat),
        ) {
            (Ok(url), Ok(media_type), Ok(name)) => (
                Collection {
                    references: collection.references.push(
                        ReferenceModel {
                            remote_artifact_id: remote_id,
                            name,
                            url,
                            media_type,
                            source_task_id: collection.task_id,
                        },
                    ),
                    ..collection
                },
                Ok(()),
            ),
            _ => (collection, Err(A2aWireError::Protocol)),
        }
    }
}

/// The content of a part joins its pending artifact: it replaces what was there
/// or is added to it.
pub open spec fn content_taken(
    collection: Collection,
    remote_id: Seq<char>,
    key: Seq<char>,
    content: PartContent,
    append: bool,
    finalize: bool,
) -> Taken {
    let total = bytes_capped(collection.artifact_bytes + content.bytes.len());
    let counted = Collection { artifact_bytes: total, ..collection };
    if content.bytes.len() > collection.artifact_limit || total > MAX_RESPONSE_BYTES {
        (counted, Err(A2aWireError::TooLarge))
    } else {
        let at = slot(counted.pending, key);
        let known = at < counted.pending.len() && counted.pending[at as int].key == key;
        let fresh = PendingModel {
            key,
            remote_id,
            name: content.name,
            media_type: content.media_type,
            bytes: Seq::empty(),
        };
        let opened = if known {
            counted.pending
        } else {
            counted.pending.insert(at as int, fresh)
        };
        let current = opened[at as int];
        let base = if append {
            current
        } else {
            PendingModel {
                name: content.name,
                media_type: content.media_type,
                bytes: Seq::empty(),
                ..current
            }
        };
        let kept = Collection { pending: opened.update(at as int, base), ..counted };
        if base.media_type != content.media_type {
            (kept, Err(A2aWireError::Protocol))
        } else if base.bytes.len() + content.bytes.len() > collection.artifact_limit {
            (kept, Err(A2aWireError::TooLarge))
        } else {
            let grown = PendingModel { bytes: base.bytes + content.bytes, ..base };
            let joined = Collection { pending: opened.update(at as int, grown), ..counted };
            if finalize {
                finalized(joined, at)
            } else {
                (joined, Ok(()))
            }
        }
    }
}

/// One part of an artifact is taken.
pub open spec fn part_taken(
    collection: Collection,
    remote_id: Seq<char>,
    name: Seq<char>,
    part: Json,
    index: nat,
    append: bool,
    finalize: bool,
) -> Taken {
    match part.member_string("url"@) {
        Some(url) => reference_taken(collection, remote_id, name, part, url),
        None => match part_content(part, name, collection.artifact_limit) {
            Err(error) => (collection, Err(error)),
            Ok(content) => content_taken(
                collection,
                remote_id,
                part_key(remote_id, index),
                content,
                append,
                finalize,
            ),
        },
    }
}

/// The first parts of an artifact are taken, up to the first that is refused.
pub open spec fn parts_taken(
    collection: Collection,
    remote_id: Seq<char>,
    name: Seq<char>,
    parts: Seq<Json>,
    append: bool,
    finalize: bool,
) -> Taken
    decreases parts.len(),
{
    if parts.len() == 0 {
        (collection, Ok(()))
    } else {
        let (earlier, taken) = parts_taken(
            collection,
            remote_id,
            name,
            parts.drop_last(),
            append,
            finalize,
        );
        if taken is Err {
            (earlier, taken)
        } else {
            part_taken(
                earlier,
                remote_id,
                name,
                parts.last(),
                (parts.len() - 1) as nat,
                append,
                finalize,
            )
        }
    }
}

/// An artifact is taken, part by part.
pub open spec fn artifact_taken(
    collection: Collection,
    value: Json,
    append: bool,
    finalize: bool,
) -> Taken {
    match (
        needed_id(value.member("artifactId"@)),
        text_or(value.member("name"@), "artifact"@, MAX_FILENAME_BYTES as nat),
        value.member_items("parts"@),
    ) {
        (Ok(remote_id), Ok(name), Some(parts)) => if parts.len() > MAX_REMOTE_ARTIFACTS {
            (collection, Err(A2aWireError::TooManyArtifacts))
        } else {
            parts_taken(collection, remote_id, name, parts, append, finalize)
        },
        _ => (collection, Err(A2aWireError::Protocol)),
    }
}

/// The first artifacts of a task are taken, up to the first that is refused.
pub open spec fn artifacts_taken(collection: Collection, artifacts: Seq<Json>) -> Taken
    decreases artifacts.len(),
{
    if artifacts.len() == 0 {
        (collection, Ok(()))
    } else {
        let (earlier, taken) = artifacts_taken(collection, artifacts.drop_last());
        if taken is Err {
            (earlier, taken)
        } else {
            artifact_taken(earlier, artifacts.last(), false, true)
        }
    }
}

/// The identity that a reply gives, under the member that names the task.
pub open spec fn identity_taken(collection: Collection, value: Json, key: Seq<char>) -> Taken {
    match (needed_id(value.member(key)), id_of(value.member("contextId"@))) {
        (Ok(task_id), Ok(context_id)) => identified(collection, task_id, context_id),
        _ => (collection, Err(A2aWireError::Protocol)),
    }
}

/// The identity and then the status that a reply gives.
pub open spec fn standing_taken(collection: Collection, value: Json, key: Seq<char>) -> Taken {
    let (named, taken) = identity_taken(collection, value, key);
    if taken is Err {
        (named, taken)
    } else {
        match value.member("status"@) {
            Some(status) => status_taken(named, status),
            None => (named, Err(A2aWireError::Protocol)),
        }
    }
}

/// A whole task is taken: its identity, status and artifacts.
pub open spec fn task_taken(collection: Collection, value: Json) -> Taken {
    let (standing, taken) = standing_taken(collection, value, "id"@);
    if taken is Err {
        (standing, taken)
    } else {
        match value.member("artifacts"@) {
            None => (standing, Ok(())),
            Some(artifacts) => match artifacts.items() {
                None => (standing, Err(A2aWireError::Protocol)),
                Some(items) => artifacts_taken(standing, items),
            },
        }
    }
}

/// Whether an update adds to an artifact.
pub open spec fn appends(value: Json) -> bool {
    value.member("append"@) matches Some(flag) && flag.shape == crate::json::Shape::Bool(true)
}

/// Whether an update is the last of its artifact: where it does not say so, one
/// that does not append is.
pub open spec fn finalizes(value: Json) -> Option<bool> {
    match value.member("lastChunk"@) {
        None => Some(!appends(value)),
        Some(flag) => match flag.shape {
            crate::json::Shape::Bool(last) => Some(last),
            _ => None,
        },
    }
}

/// A piece of an artifact is taken.
pub open spec fn artifact_update_taken(collection: Collection, value: Json) -> Taken {
    let (named, taken) = identity_taken(collection, value, "taskId"@);
    if taken is Err {
        (named, taken)
    } else {
        match (finalizes(value), value.member("artifact"@)) {
            (Some(finalize), Some(artifact)) => artifact_taken(
                named,
                artifact,
                appends(value),
                finalize,
            ),
            _ => (named, Err(A2aWireError::Protocol)),
        }
    }
}

/// How many of the four kinds of reply an object holds.
pub open spec fn variants(result: Json) -> nat {
    held(result, "task"@) + held(result, "message"@) + held(result, "statusUpdate"@) + held(
        result,
        "artifactUpdate"@,
    )
}

/// Whether an object holds a member, as a count.
pub open spec fn held(value: Json, key: Seq<char>) -> nat {
    if value.member(key) is Some {
        1
    } else {
        0
    }
}

/// One reply is taken: the answer to the request, with exactly one kind of
/// result.
pub open spec fn envelope_taken(
    collection: Collection,
    envelope: Json,
    expected_id: Seq<char>,
) -> Taken {
    if envelope.member_string("jsonrpc"@) != Some("2.0"@) || envelope.member_string("id"@) != Some(
        expected_id,
    ) {
        (collection, Err(A2aWireError::Protocol))
    } else if envelope.member("error"@) is Some {
        (collection, Err(A2aWireError::Remote))
    } else {
        match envelope.member("result"@) {
            Some(result) if result.shape is Object && variants(result) == 1 => {
                if let Some(task) = result.member("task"@) {
                    task_taken(collection, task)
                } else if let Some(message) = result.member("message"@) {
                    let direct = Collection {
                        direct_message: true,
                        state: TaskState::Completed,
                        ..collection
                    };
                    let (told, said) = message_taken(direct, message);
                    match said {
                        Ok(_) => (told, Ok(())),
                        Err(error) => (told, Err(error)),
                    }
                } else if let Some(update) = result.member("statusUpdate"@) {
                    standing_taken(collection, update, "taskId"@)
                } else if let Some(update) = result.member("artifactUpdate"@) {
                    artifact_update_taken(collection, update)
                } else {
                    (collection, Err(A2aWireError::Protocol))
                }
            },
            _ => (collection, Err(A2aWireError::Protocol)),
        }
    }
}

/// All pending artifacts go to the store, in the order of their keys.
pub open spec fn drained(collection: Collection) -> Taken
    decreases collection.pending.len(),
{
    if collection.pending.len() == 0 {
        (collection, Ok(()))
    } else {
        let (next, taken) = finalized(collection, 0);
        if taken is Err || next.pending.len() >= collection.pending.len() {
            (next, taken)
        } else {
            drained(next)
        }
    }
}

/// The replies are over: a task that the agent is not done with is detached.
pub open spec fn finished(collection: Collection) -> Taken {
    let (stored, taken) = drained(collection);
    if taken is Err {
        (stored, taken)
    } else if !stored.direct_message && stored.task_id is None {
        (stored, Err(A2aWireError::Protocol))
    } else if !stored.direct_message && !stored.state.settled() {
        (
            recorded(
                Collection { state: TaskState::DetachedUnknown, ..stored },
                TaskState::DetachedUnknown,
                "unknown"@,
            ),
            Ok(()),
        )
    } else {
        (stored, Ok(()))
    }
}

/// What a collector knows before any reply.
pub open spec fn untouched(artifact_limit: nat) -> Collection {
    Collection {
        artifact_limit,
        task_id: None,
        context_id: None,
        state: TaskState::Submitted,
        messages: Seq::empty(),
        message_bytes: 0,
        ingested: Seq::empty(),
        references: Seq::empty(),
        pending: Seq::empty(),
        artifact_bytes: 0,
        direct_message: false,
        effects: Seq::empty(),
    }
}

/// `base64::Engine::decode` of the standard engine: a function of the text
/// alone, `None` where the text is no base64.
#[verifier::external_body]
fn decode_base64(text: &str) -> (bytes: Option<Vec<u8>>)
    ensures
        match bytes {
            Some(bytes) => base64_bytes(text@) == Some(bytes@),
            None => base64_bytes(text@) is None,
        },
{
    base64::Engine::decode(&base64::engine::general_purpose::STANDARD, text).ok()
}

struct Content {
    bytes: Vec<u8>,
    media_type: String,
    name: String,
}

impl View for Content {
    type V = PartContent;

    closed spec fn view(&self) -> PartContent {
        PartContent { bytes: self.bytes@, media_type: self.media_type@, name: self.name@ }
    }
}

fn bytes_of(text: &str) -> (bytes: Vec<u8>)
    ensures
        bytes@ == encode_utf8(text@),
{
    text.as_bytes_vec()
}

fn content_of(part: &Json, name: &str, artifact_limit: usize) -> (content: Result<
    Content,
    A2aWireError,
>)
    ensures
        match content {
            Ok(held) => part_content(*part, name@, artifact_limit as nat) == Ok::<
                PartContent,
                A2aWireError,
            >(held@),
            Err(error) => part_content(*part, name@, artifact_limit as nat) == Err::<
                PartContent,
                A2aWireError,
            >(error),
        },
{
    if let Some(raw) = part.get_str("raw") {
        let most: usize = artifact_limit.saturating_add(artifact_limit);
        if byte_len(raw) > most {
            return Err(A2aWireError::TooLarge);
        }
        let bytes = decode_base64(raw);
        let media_type = optional_text(
            part.get("mediaType"),
            "application/octet-stream",
            MAX_MEDIA_TYPE_BYTES,
        );
        let name = optional_text(part.get("filename"), name, MAX_FILENAME_BYTES);
        match (bytes, media_type, name) {
            (Some(bytes), Ok(media_type), Ok(name)) => Ok(Content { bytes, media_type, name }),
            _ => Err(A2aWireError::Protocol),
        }
    } else if let Some(text) = part.get_str("text") {
        match validate_remote_text(text) {
            Ok(_) => Ok(
                Content {
                    bytes: bytes_of(text),
                    media_type: "text/plain".to_owned(),
                    name: name.to_owned(),
                },
            ),
            Err(error) => Err(error),
        }
    } else if let Some(data) = part.get("data") {
        Ok(
            Content {
                bytes: bytes_of(data.text.as_str()),
                media_type: "application/json".to_owned(),
                name: name.to_owned(),
            },
        )
    } else {
        Err(A2aWireError::Protocol)
    }
}

fn combine(parts: &Vec<Json>) -> (text: Result<String, A2aWireError>)
    ensures
        match text {
            Ok(held) => combined(parts@) == Ok::<Seq<char>, A2aWireError>(held@),
            Err(error) => combined(parts@) == Err::<Seq<char>, A2aWireError>(error),
        },
{
    let mut text = String::new();
    let mut i: usize = 0;
    while i < parts.len()
        invariant
            i <= parts@.len(),
            combined(parts@.take(i as int)) == Ok::<Seq<char>, A2aWireError>(text@),
        decreases parts@.len() - i,
    {
        assert(parts@.take(i + 1).drop_last() =~= parts@.take(i as int));
        assert(parts@.take(i + 1).last() == parts@[i as int]);
        match parts[i].get_str("text") {
            Some(held) => match validate_remote_text(held) {
                Err(error) => {
                    proof {
                        refusals_last(parts@, i + 1);
                    }
                    return Err(error);
                },
                Ok(_) => {
                    if !text.as_str().is_empty() {
                        text.push('\n');
                    }
                    let ghost earlier = text@;
                    text.append(held);
                    assert(earlier.len() == 0 ==> text@ =~= held@);
                },
            },
            None => {},
        }
        i += 1;
    }
    assert(parts@.take(i as int) =~= parts@);
    Ok(text)
}

proof fn refusals_last(parts: Seq<Json>, upto: int)
    requires
        0 <= upto <= parts.len(),
        combined(parts.take(upto)) is Err,
    ensures
        combined(parts) == combined(parts.take(upto)),
    decreases parts.len() - upto,
{
    if upto < parts.len() {
        assert(parts.take(upto + 1).drop_last() =~= parts.take(upto));
        refusals_last(parts, upto + 1);
    } else {
        assert(parts.take(upto) =~= parts);
    }
}

proof fn parts_refused(
    collection: Collection,
    remote_id: Seq<char>,
    name: Seq<char>,
    parts: Seq<Json>,
    append: bool,
    finalize: bool,
    upto: int,
)
    requires
        0 <= upto <= parts.len(),
        parts_taken(collection, remote_id, name, parts.take(upto), append, finalize).1 is Err,
    ensures
        parts_taken(collection, remote_id, name, parts, append, finalize) == parts_taken(
            collection,
            remote_id,
            name,
            parts.take(upto),
            append,
            finalize,
        ),
    decreases parts.len() - upto,
{
    if upto < parts.len() {
        assert(parts.take(upto + 1).drop_last() =~= parts.take(upto));
        parts_refused(collection, remote_id, name, parts, append, finalize, upto + 1);
    } else {
        assert(parts.take(upto) =~= parts);
    }
}

proof fn artifacts_refused(collection: Collection, artifacts: Seq<Json>, upto: int)
    requires
        0 <= upto <= artifacts.len(),
        artifacts_taken(collection, artifacts.take(upto)).1 is Err,
    ensures
        artifacts_taken(collection, artifacts) == artifacts_taken(collection, artifacts.take(upto)),
    decreases artifacts.len() - upto,
{
    if upto < artifacts.len() {
        assert(artifacts.take(upto + 1).drop_last() =~= artifacts.take(upto));
        artifacts_refused(collection, artifacts, upto + 1);
    } else {
        assert(artifacts.take(upto) =~= artifacts);
    }
}

fn preview_option(text: &Option<String>) -> (shown: Option<String>)
    ensures
        option_view(shown) == (match *text {
            Some(text) => Some(previewed(text@, MAX_ACTIVITY_BYTES as nat)),
            None => None,
        }),
{
    match text {
        Some(text) => Some(preview(text.as_str(), MAX_ACTIVITY_BYTES)),
        None => None,
    }
}

impl DelegationCollector {
    /// A collector for the replies to one task. No artifact may be larger than
    /// `artifact_limit` bytes.
    pub fn new(artifact_limit: usize) -> (collector: DelegationCollector)
        ensures
            collector@ == untouched(artifact_limit as nat),
    {
        let collector = DelegationCollector {
            artifact_limit,
            task_id: None,
            context_id: None,
            state: TaskState::Submitted,
            messages: Vec::new(),
            message_bytes: 0,
            ingested: Vec::new(),
            references: Vec::new(),
            pending: Vec::new(),
            artifact_bytes: 0,
            direct_message: false,
            effects: Vec::new(),
        };
        assert(collector@ =~= untouched(artifact_limit as nat));
        collector
    }

    /// The identity of the task, once it has one.
    pub fn task_id(&self) -> (id: Option<String>)
        ensures
            option_view(id) == self@.task_id,
    {
        copy_option(&self.task_id)
    }

    /// Takes out what is to be done outside next.
    pub fn next_effect(&mut self) -> (effect: Option<Effect>)
        ensures
            match effect {
                Some(effect) => {
                    &&& old(self)@.effects.len() > 0
                    &&& effect@ == old(self)@.effects[0]
                    &&& final(self)@ == (Collection {
                        effects: old(self)@.effects.drop_first(),
                        ..old(self)@
                    })
                },
                None => old(self)@.effects.len() == 0 && final(self)@ == old(self)@,
            },
    {
        if self.effects.len() == 0 {
            return None;
        }
        let effect = self.effects.remove(0);
        assert(self@.effects =~= old(self)@.effects.drop_first());
        Some(effect)
    }

    fn push_effect(&mut self, effect: Effect)
        ensures
            final(self)@ == with_effect(old(self)@, effect@),
    {
        self.effects.push(effect);
        assert(self@ =~= with_effect(old(self)@, effect@));
    }

    fn record_state(&mut self, state: TaskState, remote_cancel: &'static str)
        ensures
            final(self)@ == recorded(old(self)@, state, remote_cancel@),
    {
        match copy_option(&self.task_id) {
            Some(task_id) => {
                let context_id = copy_option(&self.context_id);
                self.push_effect(Effect::Record { task_id, context_id, state, remote_cancel });
            },
            None => {},
        }
    }

    /// Gives the task its identity. A task keeps the identity it has: a reply
    /// about another task or another context is refused.
    pub fn set_task_identity(&mut self, task_id: String, context_id: Option<String>) -> (taken:
        Result<(), A2aWireError>)
        ensures
            (final(self)@, taken) == identified(old(self)@, task_id@, option_view(context_id)),
    {
        if let Some(current) = &self.task_id {
            if !text_eq(current.as_str(), task_id.as_str()) {
                return Err(A2aWireError::Protocol);
            }
        }
        if let Some(current) = &self.context_id {
            if let Some(incoming) = &context_id {
                if !text_eq(current.as_str(), incoming.as_str()) {
                    return Err(A2aWireError::Protocol);
                }
            }
        }
        let is_new = self.task_id.is_none();
        self.task_id = Some(task_id.clone());
        if context_id.is_some() {
            self.context_id = copy_option(&context_id);
        }
        if is_new {
            self.push_effect(Effect::Identified { task_id, context_id });
            self.record_state(TaskState::Submitted, NOT_REQUESTED);
        }
        Ok(())
    }

    fn consume_message(&mut self, value: &Json) -> (said: Result<Option<String>, A2aWireError>)
        ensures
            final(self)@ == message_taken(old(self)@, *value).0,
            match said {
                Ok(text) => message_taken(old(self)@, *value).1 == Ok::<
                    Option<Seq<char>>,
                    A2aWireError,
                >(option_view(text)),
                Err(error) => message_taken(old(self)@, *value).1 == Err::<
                    Option<Seq<char>>,
                    A2aWireError,
                >(error),
            },
    {
        let agent = match value.get_str("role") {
            Some(role) => text_eq(role, "ROLE_AGENT"),
            None => false,
        };
        if !agent {
            return Err(A2aWireError::Protocol);
        }
        let parts = match value.get_items("parts") {
            Some(parts) => parts,
            None => {
                return Err(A2aWireError::Protocol);
            },
        };
        let text = match combine(parts) {
            Ok(text) => text,
            Err(error) => {
                return Err(error);
            },
        };
        if text.as_str().is_empty() {
            return Ok(None);
        }
        self.message_bytes = self.message_bytes.saturating_add(byte_len(text.as_str()));
        if self.message_bytes > MAX_RETAINED_MESSAGE_BYTES {
            return Err(A2aWireError::TooLarge);
        }
        let shown = preview(text.as_str(), MAX_ACTIVITY_BYTES);
        let ghost counted = self@;
        self.messages.push(text.clone());
        assert(views(self.messages@) =~= counted.messages.push(text@));
        self.push_effect(Effect::Message { text: shown });
        Ok(Some(text))
    }

    fn consume_status(&mut self, value: &Json) -> (taken: Result<(), A2aWireError>)
        ensures
            (final(self)@, taken) == status_taken(old(self)@, *value),
    {
        let state = match value.get_str("state") {
            Some(name) => match normalize_task_state(name) {
                Ok(state) => state,
                Err(error) => {
                    return Err(error);
                },
            },
            None => {
                return Err(A2aWireError::Protocol);
            },
        };
        self.state = state;
        let said = match value.get("message") {
            Some(message) => match self.consume_message(message) {
                Ok(said) => said,
                Err(error) => {
                    return Err(error);
                },
            },
            None => None,
        };
        self.push_effect(Effect::Status { state, message: preview_option(&said) });
        self.record_state(state, NOT_REQUESTED);
        Ok(())
    }

    fn slot_of(&self, key: &str) -> (at: usize)
        ensures
            at == slot(self@.pending, key@),
            at <= self@.pending.len(),
    {
        let ghost pending = self@.pending;
        let mut at: usize = 0;
        assert(pending.skip(0) =~= pending);
        while at < self.pending.len() && text_before(self.pending[at].key.as_str(), key)
            invariant
                pending == self@.pending,
                at <= self.pending@.len(),
                slot(pending, key@) == at + slot(pending.skip(at as int), key@),
            decreases self.pending@.len() - at,
        {
            assert(pending.skip(at as int).drop_first() =~= pending.skip(at + 1));
            assert(pending.skip(at as int)[0] == self.pending@[at as int]@);
            at += 1;
        }
        assert(at < pending.len() ==> pending.skip(at as int)[0] == self.pending@[at as int]@);
        at
    }

    fn finalize_pending(&mut self, at: usize) -> (taken: Result<(), A2aWireError>)
        ensures
            (final(self)@, taken) == finalized(old(self)@, at as nat),
    {
        if self.ingested.len() >= MAX_REMOTE_ARTIFACTS {
            return Err(A2aWireError::TooManyArtifacts);
        }
        if at >= self.pending.len() {
            return Err(A2aWireError::Protocol);
        }
        let ghost whole = self@;
        let artifact = self.pending.remove(at);
        assert(artifact@ == whole.pending[at as int]);
        self.ingested.push(
            TakenArtifact {
                remote_artifact_id: artifact.remote_id,
                name: artifact.name.clone(),
                source_task_id: copy_option(&self.task_id),
            },
        );
        proof {
            assert(self@.pending =~= whole.pending.remove(at as int));
            assert(self@.ingested =~= whole.ingested.push(
                IngestedModel {
                    remote_artifact_id: artifact.remote_id@,
                    name: artifact.name@,
                    source_task_id: whole.task_id,
                },
            ));
        }
        self.push_effect(
            Effect::Store {
                name: artifact.name,
                media_type: artifact.media_type,
                bytes: artifact.bytes,
            },
        );
        Ok(())
    }

    fn consume_reference(&mut self, remote_id: &str, name: &str, part: &Json, url: &str) -> (taken:
        Result<(), A2aWireError>)
        ensures
            (final(self)@, taken) == reference_taken(old(self)@, remote_id@, name@, *part, url@),
    {
        if self.references.len() >= MAX_SAFE_REFERENCES {
            return Err(A2aWireError::TooManyArtifacts);
        }
        let url = safe_reference(url);
        let media_type = optional_text(
            part.get("mediaType"),
            "application/octet-stream",
            MAX_MEDIA_TYPE_BYTES,
        );
        let name = optional_text(part.get("filename"), name, MAX_FILENAME_BYTES);
        match (url, media_type, name) {
            (Ok(url), Ok(media_type), Ok(name)) => {
                self.references.push(
                    SafeExternalReference {
                        remote_artifact_id: remote_id.to_owned(),
                        name,
                        url,
                        media_type,
                        source_task_id: copy_option(&self.task_id),
                    },
                );
                assert(self@.references =~= old(self)@.references.push(
                    ReferenceModel {
                        remote_artifact_id: remote_id@,
                        name: name@,
                        url: url@,
                        media_type: media_type@,
                        source_task_id: old(self)@.task_id,
                    },
                ));
                Ok(())
            },
            _ => Err(A2aWireError::Protocol),
        }
    }

    fn join_content(
        &mut self,
        remote_id: &str,
        key: String,
        content: Content,
        append: bool,
        finalize: bool,
    ) -> (taken: Result<(), A2aWireError>)
        ensures
            (final(self)@, taken) == content_taken(
                old(self)@,
                remote_id@,
                key@,
                content@,
                append,
                finalize,
            ),
    {
        self.artifact_bytes = self.artifact_bytes.saturating_add(content.bytes.len());
        if content.bytes.len() > self.artifact_limit || self.artifact_bytes > MAX_RESPONSE_BYTES {
            return Err(A2aWireError::TooLarge);
        }
        let ghost counted = self@;
        let at = self.slot_of(key.as_str());
        let known = at < self.pending.len() && text_eq(
            self.pending[at].key.as_str(),
            key.as_str(),
        );
        if !known {
            self.pending.insert(
                at,
                PendingArtifact {
                    key: key.clone(),
                    remote_id: remote_id.to_owned(),
                    name: content.name.clone(),
                    media_type: content.media_type.clone(),
                    bytes: Vec::new(),
                },
            );
            assert(self@.pending =~= counted.pending.insert(
                at as int,
                PendingModel {
                    key: key@,
                    remote_id: remote_id@,
                    name: content@.name,
                    media_type: content@.media_type,
                    bytes: Seq::empty(),
                },
            ));
        }
        let ghost opened = self@.pending;
        let mut current = self.pending.remove(at);
        assert(current@ == opened[at as int]);
        if !append {
            current.bytes = Vec::new();
            current.name = content.name;
            current.media_type = content.media_type.clone();
        }
        let ghost base = current@;
        let same = text_eq(current.media_type.as_str(), content.media_type.as_str());
        let held: usize = current.bytes.len();
        let fits = held <= self.artifact_limit && content.bytes.len() <= self.artifact_limit - held;
        if same && fits {
            let mut bytes = content.bytes;
            current.bytes.append(&mut bytes);
        }
        let ghost grown = current@;
        self.pending.insert(at, current);
        assert(self@.pending =~= opened.update(at as int, grown));
        if !same {
            return Err(A2aWireError::Protocol);
        }
        if !fits {
            return Err(A2aWireError::TooLarge);
        }
        if finalize {
            self.finalize_pending(at)
        } else {
            Ok(())
        }
    }

    fn consume_part(
        &mut self,
        remote_id: &str,
        name: &str,
        part: &Json,
        index: usize,
        append: bool,
        finalize: bool,
    ) -> (taken: Result<(), A2aWireError>)
        ensures
            (final(self)@, taken) == part_taken(
                old(self)@,
                remote_id@,
                name@,
                *part,
                index as nat,
                append,
                finalize,
            ),
    {
        if let Some(url) = part.get_str("url") {
            return self.consume_reference(remote_id, name, part, url);
        }
        let content = match content_of(part, name, self.artifact_limit) {
            Ok(content) => content,
            Err(error) => {
                return Err(error);
            },
        };
        let mut key = remote_id.to_owned();
        key.append(":");
        key.append(decimal_text(index as u64).as_str());
        self.join_content(remote_id, key, content, append, finalize)
    }

    fn consume_artifact(&mut self, value: &Json, append: bool, finalize: bool) -> (taken: Result<
        (),
        A2aWireError,
    >)
        ensures
            (final(self)@, taken) == artifact_taken(old(self)@, *value, append, finalize),
    {
        let remote_id = match required_id(value.get("artifactId")) {
            Ok(id) => id,
            Err(_) => {
                return Err(A2aWireError::Protocol);
            },
        };
        let name = match optional_text(value.get("name"), "artifact", MAX_FILENAME_BYTES) {
            Ok(name) => name,
            Err(_) => {
                return Err(A2aWireError::Protocol);
            },
        };
        let parts = match value.get_items("parts") {
            Some(parts) => parts,
            None => {
                return Err(A2aWireError::Protocol);
            },
        };
        if parts.len() > MAX_REMOTE_ARTIFACTS {
            return Err(A2aWireError::TooManyArtifacts);
        }
        let mut i: usize = 0;
        while i < parts.len()
            invariant
                i <= parts@.len(),
                artifact_taken(old(self)@, *value, append, finalize) == parts_taken(
                    old(self)@,
                    remote_id@,
                    name@,
                    parts@,
                    append,
                    finalize,
                ),
                parts_taken(
                    old(self)@,
                    remote_id@,
                    name@,
                    parts@.take(i as int),
                    append,
                    finalize,
                ) == (self@, Ok::<(), A2aWireError>(())),
            decreases parts@.len() - i,
        {
            assert(parts@.take(i + 1).drop_last() =~= parts@.take(i as int));
            assert(parts@.take(i + 1).last() == parts@[i as int]);
            let taken = self.consume_part(
                remote_id.as_str(),
                name.as_str(),
                &parts[i],
                i,
                append,
                finalize,
            );
            if taken.is_err() {
                proof {
                    parts_refused(
                        old(self)@,
                        remote_id@,
                        name@,
                        parts@,
                        append,
                        finalize,
                        i + 1,
                    );
                }
                return taken;
            }
            i += 1;
        }
        assert(parts@.take(i as int) =~= parts@);
        Ok(())
    }

    fn consume_identity(&mut self, value: &Json, key: &str) -> (taken: Result<(), A2aWireError>)
        ensures
            (final(self)@, taken) == identity_taken(old(self)@, *value, key@),
    {
        let task_id = required_id(value.get(key));
        let context_id = optional_id(value.get("contextId"));
        match (task_id, context_id) {
            (Ok(task_id), Ok(context_id)) => self.set_task_identity(task_id, context_id),
            _ => Err(A2aWireError::Protocol),
        }
    }

    fn consume_standing(&mut self, value: &Json, key: &str) -> (taken: Result<(), A2aWireError>)
        ensures
            (final(self)@, taken) == standing_taken(old(self)@, *value, key@),
    {
        let taken = self.consume_identity(value, key);
        if taken.is_err() {
            return taken;
        }
        match value.get("status") {
            Some(status) => self.consume_status(status),
            None => Err(A2aWireError::Protocol),
        }
    }

    fn consume_task(&mut self, value: &Json) -> (taken: Result<(), A2aWireError>)
        ensures
            (final(self)@, taken) == task_taken(old(self)@, *value),
    {
        let taken = self.consume_standing(value, "id");
        if taken.is_err() {
            return taken;
        }
        let artifacts = match value.get("artifacts") {
            Some(artifacts) => artifacts,
            None => {
                return Ok(());
            },
        };
        let items = match artifacts.as_items() {
            Some(items) => items,
            None => {
                return Err(A2aWireError::Protocol);
            },
        };
        let ghost standing = self@;
        let mut i: usize = 0;
        while i < items.len()
            invariant
                i <= items@.len(),
                task_taken(old(self)@, *value) == artifacts_taken(standing, items@),
                artifacts_taken(standing, items@.take(i as int)) == (
                    self@,
                    Ok::<(), A2aWireError>(()),
                ),
            decreases items@.len() - i,
        {
            assert(items@.take(i + 1).drop_last() =~= items@.take(i as int));
            assert(items@.take(i + 1).last() == items@[i as int]);
            let taken = self.consume_artifact(&items[i], false, true);
            if taken.is_err() {
                proof {
                    artifacts_refused(standing, items@, i + 1);
                }
                return taken;
            }
            i += 1;
        }
        assert(items@.take(i as int) =~= items@);
        Ok(())
    }

    fn consume_artifact_update(&mut self, value: &Json) -> (taken: Result<(), A2aWireError>)
        ensures
            (final(self)@, taken) == artifact_update_taken(old(self)@, *value),
    {
        let taken = self.consume_identity(value, "taskId");
        if taken.is_err() {
            return taken;
        }
        let append = match value.get("append") {
            Some(flag) => match flag.as_bool() {
                Some(append) => append,
                None => false,
            },
            None => false,
        };
        let finalize = match value.get("lastChunk") {
            Some(flag) => match flag.as_bool() {
                Some(last) => last,
                None => {
                    return Err(A2aWireError::Protocol);
                },
            },
            None => !append,
        };
        match value.get("artifact") {
            Some(artifact) => self.consume_artifact(artifact, append, finalize),
            None => Err(A2aWireError::Protocol),
        }
    }

    /// Takes one reply to the request with the given identity.
    pub fn consume_envelope(&mut self, envelope: &Json, expected_id: &str) -> (taken: Result<
        (),
        A2aWireError,
    >)
        ensures
            (final(self)@, taken) == envelope_taken(old(self)@, *envelope, expected_id@),
    {
        let version = match envelope.get_str("jsonrpc") {
            Some(version) => text_eq(version, "2.0"),
            None => false,
        };
        let ours = match envelope.get_str("id") {
            Some(id) => text_eq(id, expected_id),
            None => false,
        };
        if !version || !ours {
            return Err(A2aWireError::Protocol);
        }
        if envelope.get("error").is_some() {
            return Err(A2aWireError::Remote);
        }
        let result = match envelope.get("result") {
            Some(result) => result,
            None => {
                return Err(A2aWireError::Protocol);
            },
        };
        if !result.is_object() {
            return Err(A2aWireError::Protocol);
        }
        match (
            result.get("task"),
            result.get("message"),
            result.get("statusUpdate"),
            result.get("artifactUpdate"),
        ) {
            (Some(task), None, None, None) => self.consume_task(task),
            (None, Some(message), None, None) => {
                self.direct_message = true;
                self.state = TaskState::Completed;
                match self.consume_message(message) {
                    Ok(_) => Ok(()),
                    Err(error) => Err(error),
                }
            },
            (None, None, Some(update), None) => self.consume_standing(update, "taskId"),
            (None, None, None, Some(update)) => self.consume_artifact_update(update),
            _ => Err(A2aWireError::Protocol),
        }
    }

    /// Ends the collection: what is pending goes to the store, and a task that
    /// the agent is not done with is detached.
    pub fn finish(&mut self) -> (taken: Result<(), A2aWireError>)
        ensures
            (final(self)@, taken) == finished(old(self)@),
    {
        while self.pending.len() > 0
            invariant
                drained(self@) == drained(old(self)@),
            decreases self.pending@.len(),
        {
            let ghost whole = self@;
            let taken = self.finalize_pending(0);
            if taken.is_err() {
                return taken;
            }
            assert(self@.pending.len() < whole.pending.len());
        }
        if !self.direct_message && self.task_id.is_none() {
            return Err(A2aWireError::Protocol);
        }
        let settled = match self.state {
            TaskState::Submitted => false,
            TaskState::Working => false,
            TaskState::DetachedUnknown => false,
            _ => true,
        };
        if !self.direct_message && !settled {
            self.state = TaskState::DetachedUnknown;
            self.record_state(TaskState::DetachedUnknown, "unknown");
        }
        Ok(())
    }

    /// What is reported of the delegated task once it is over, with what the store
    /// said of the artifacts, in order.
    pub fn receipt(&self, records: &Vec<ArtifactRecord>) -> (receipt: A2aDelegationReceipt)
        ensures
            option_view(receipt.task_id) == self@.task_id,
            option_view(receipt.context_id) == self@.context_id,
            receipt.terminal_state == self@.state,
            receipt.remote_cancel@ == NOT_REQUESTED@,
            views(receipt.messages@) == self@.messages,
            reports_artifacts(self@.ingested, records@, receipt.artifacts@),
            receipt.safe_references@.map_values(|reference: SafeExternalReference| reference@)
                == self@.references,
    {
        let mut artifacts: Vec<IngestedArtifact> = Vec::new();
        let mut i: usize = 0;
        while i < self.ingested.len() && i < records.len()
            invariant
                i <= self.ingested@.len(),
                i <= records@.len(),
                artifacts@.len() == i,
                forall|j: int|
                    0 <= j < i ==> reports_artifact(
                        self.ingested@[j]@,
                        records@[j],
                        #[trigger] artifacts@[j],
                    ),
            decreases self.ingested@.len() - i,
        {
            let artifact = &self.ingested[i];
            artifacts.push(
                IngestedArtifact {
                    remote_artifact_id: artifact.remote_artifact_id.clone(),
                    name: artifact.name.clone(),
                    source_task_id: copy_option(&artifact.source_task_id),
                    record: records[i].copy(),
                },
            );
            i += 1;
        }
        let mut safe_references: Vec<SafeExternalReference> = Vec::new();
        let mut k: usize = 0;
        while k < self.references.len()
            invariant
                k <= self.references@.len(),
                safe_references@.len() == k,
                forall|j: int|
                    0 <= j < k ==> (#[trigger] safe_references@[j])@ == self.references@[j]@,
            decreases self.references@.len() - k,
        {
            let reference = &self.references[k];
            safe_references.push(
                SafeExternalReference {
                    remote_artifact_id: reference.remote_artifact_id.clone(),
                    name: reference.name.clone(),
                    url: reference.url.clone(),
                    media_type: reference.media_type.clone(),
                    source_task_id: copy_option(&reference.source_task_id),
                },
            );
            k += 1;
        }
        assert(reports_artifacts(self@.ingested, records@, artifacts@)) by {
            assert forall|j: int| 0 <= j < artifacts@.len() implies reports_artifact(
                self@.ingested[j],
                records@[j],
                #[trigger] artifacts@[j],
            ) by {
                assert(self@.ingested[j] == self.ingested@[j]@);
            }
        }
        assert(safe_references@.map_values(|reference: SafeExternalReference| reference@)
            =~= self@.references);
        A2aDelegationReceipt {
            task_id: copy_option(&self.task_id),
            context_id: copy_option(&self.context_id),
            terminal_state: self.state,
            remote_cancel: NOT_REQUESTED,
            messages: copy_list(&self.messages),
            artifacts,
            safe_references,
        }
    }
}

/// What is reported of a delegated task. All of it is the external agent's word.
#[derive(Debug, PartialEq, Eq)]
pub struct A2aDelegationReceipt {
    pub task_id: Option<String>,
    pub context_id: Option<String>,
    pub terminal_state: TaskState,
    pub remote_cancel: &'static str,
    pub messages: Vec<String>,
    pub artifacts: Vec<IngestedArtifact>,
    pub safe_references: Vec<SafeExternalReference>,
}

}
