//! What a collector keeps to, whatever an external agent replies.

use crate::a2a::collector::{
    appends, artifact_taken, artifact_update_taken, artifacts_taken, base64_bytes, combined,
    content_taken, drained, envelope_taken, finalized, finalizes, finished, identified,
    identity_taken, message_taken, part_content, part_taken, parts_taken, reference_taken,
    standing_taken, status_taken, task_taken, untouched, Collection, EffectModel, PartContent,
};
use crate::a2a::validation::{
    has_unsafe, reference_of, wire_names_are_read_faithfully, wire_state, A2aWireError,
    TaskState, MAX_REMOTE_ARTIFACTS, MAX_RETAINED_MESSAGE_BYTES, MAX_SAFE_REFERENCES,
};
use crate::json::{Json, Shape};
use crate::text::{byte_count, lowered};
use vstd::prelude::*;
use vstd::utf8::encode_utf8;

verus! {

/// The bytes of all messages together.
pub open spec fn retained(messages: Seq<Seq<char>>) -> nat
    decreases messages.len(),
{
    if messages.len() == 0 {
        0
    } else {
        retained(messages.drop_last()) + byte_count(messages.last())
    }
}

/// Whether what is kept of the replies is within its bounds.
pub open spec fn within(collection: Collection) -> bool {
    &&& collection.ingested.len() <= MAX_REMOTE_ARTIFACTS
    &&& collection.references.len() <= MAX_SAFE_REFERENCES
    &&& retained(collection.messages) <= collection.message_bytes
    &&& retained(collection.messages) <= MAX_RETAINED_MESSAGE_BYTES
    &&& forall|i: int|
        0 <= i < collection.pending.len() ==> (#[trigger] collection.pending[i]).bytes.len()
            <= collection.artifact_limit
}

/// Whether a collection can come of another by taking replies: it stays within
/// bounds, keeps its task, takes back no effect, and stores each artifact that it
/// takes in.
pub open spec fn follows(before: Collection, after: Collection) -> bool {
    &&& within(before) ==> within(after)
    &&& before.task_id is Some ==> after.task_id == before.task_id
    &&& before.effects.is_prefix_of(after.effects)
    &&& after.artifact_limit == before.artifact_limit
    &&& after.ingested.len() - before.ingested.len() == stores(after.effects) - stores(
        before.effects,
    )
}

/// How many effects store something.
pub open spec fn stores(effects: Seq<EffectModel>) -> nat
    decreases effects.len(),
{
    if effects.len() == 0 {
        0
    } else {
        stores(effects.drop_last()) + (if effects.last() is Store {
            1nat
        } else {
            0nat
        })
    }
}

proof fn pushed_stores_count()
    ensures
        forall|effects: Seq<EffectModel>, effect: EffectModel| #[trigger]
            stores(effects.push(effect)) == stores(effects) + (if effect is Store {
                1nat
            } else {
                0nat
            }),
{
    assert forall|effects: Seq<EffectModel>, effect: EffectModel| #[trigger]
        stores(effects.push(effect)) == stores(effects) + (if effect is Store {
            1nat
        } else {
            0nat
        }) by {
        assert(effects.push(effect).drop_last() =~= effects);
    }
}

/// The first effect counts like any other.
pub proof fn first_store_counts(effects: Seq<EffectModel>)
    requires
        effects.len() > 0,
    ensures
        stores(effects) == stores(effects.drop_first()) + (if effects[0] is Store {
            1nat
        } else {
            0nat
        }),
    decreases effects.len(),
{
    if effects.len() == 1 {
        assert(effects.drop_last() =~= Seq::<EffectModel>::empty());
        assert(effects.drop_first() =~= Seq::<EffectModel>::empty());
    } else {
        first_store_counts(effects.drop_last());
        assert(effects.drop_last().drop_first() =~= effects.drop_first().drop_last());
    }
}

proof fn retained_push(messages: Seq<Seq<char>>, text: Seq<char>)
    ensures
        retained(messages.push(text)) == retained(messages) + byte_count(text),
{
    assert(messages.push(text).drop_last() =~= messages);
}

proof fn identity_follows(collection: Collection, task_id: Seq<char>, context_id: Option<Seq<char>>)
    ensures
        follows(collection, identified(collection, task_id, context_id).0),
{
    pushed_stores_count();
}

proof fn message_follows(collection: Collection, value: Json)
    ensures
        follows(collection, message_taken(collection, value).0),
{
    pushed_stores_count();
    let after = message_taken(collection, value).0;
    if after.messages.len() > collection.messages.len() {
        retained_push(collection.messages, after.messages.last());
    }
}

proof fn status_follows(collection: Collection, value: Json)
    ensures
        follows(collection, status_taken(collection, value).0),
{
    pushed_stores_count();
    if let Some(message) = value.member("message"@) {
        if let Some(name) = value.member_string("state"@) {
            if let Some(state) = crate::a2a::validation::wire_state(name) {
                message_follows(Collection { state, ..collection }, message);
            }
        }
    }
}

proof fn finalizing_follows(collection: Collection, at: nat)
    ensures
        follows(collection, finalized(collection, at).0),
{
    if collection.ingested.len() < MAX_REMOTE_ARTIFACTS && at < collection.pending.len() {
        let after = finalized(collection, at).0;
        assert forall|i: int| 0 <= i < after.pending.len() && within(collection) implies (
        #[trigger] after.pending[i]).bytes.len() <= collection.artifact_limit by {
            if i < at {
                assert(after.pending[i] == collection.pending[i]);
            } else {
                assert(after.pending[i] == collection.pending[i + 1]);
            }
        }
    }
}

proof fn reference_follows(
    collection: Collection,
    remote_id: Seq<char>,
    name: Seq<char>,
    part: Json,
    url: Seq<char>,
)
    ensures
        follows(collection, reference_taken(collection, remote_id, name, part, url).0),
{
}

proof fn slot_is_inside(pending: Seq<crate::a2a::collector::PendingModel>, key: Seq<char>)
    ensures
        crate::a2a::collector::slot(pending, key) <= pending.len(),
    decreases pending.len(),
{
    if pending.len() > 0 {
        slot_is_inside(pending.drop_first(), key);
    }
}

proof fn content_follows(
    collection: Collection,
    remote_id: Seq<char>,
    key: Seq<char>,
    content: PartContent,
    append: bool,
    finalize: bool,
)
    ensures
        follows(
            collection,
            content_taken(collection, remote_id, key, content, append, finalize).0,
        ),
{
    let total = crate::a2a::collector::bytes_capped(
        collection.artifact_bytes + content.bytes.len(),
    );
    let counted = Collection { artifact_bytes: total, ..collection };
    if !(content.bytes.len() > collection.artifact_limit || total
        > crate::a2a::validation::MAX_RESPONSE_BYTES) {
        slot_is_inside(counted.pending, key);
        let at = crate::a2a::collector::slot(counted.pending, key);
        let (joined, taken) = content_taken(
            collection,
            remote_id,
            key,
            content,
            append,
            false,
        );
        if within(collection) {
            assert forall|i: int| 0 <= i < joined.pending.len() implies (
            #[trigger] joined.pending[i]).bytes.len() <= collection.artifact_limit by {
                if i < at {
                    assert(joined.pending[i] == collection.pending[i]);
                } else if i > at {
                    if joined.pending.len() == collection.pending.len() {
                        assert(joined.pending[i] == collection.pending[i]);
                    } else {
                        assert(joined.pending[i] == collection.pending[i - 1]);
                    }
                } else if joined.pending.len() == collection.pending.len() {
                    assert(collection.pending[i].bytes.len() <= collection.artifact_limit);
                }
            }
        }
        if taken is Ok && finalize {
            finalizing_follows(joined, at);
        }
    }
}

proof fn part_follows(
    collection: Collection,
    remote_id: Seq<char>,
    name: Seq<char>,
    part: Json,
    index: nat,
    append: bool,
    finalize: bool,
)
    ensures
        follows(
            collection,
            part_taken(collection, remote_id, name, part, index, append, finalize).0,
        ),
{
    if let Ok(content) = crate::a2a::collector::part_content(part, name, collection.artifact_limit) {
        content_follows(
            collection,
            remote_id,
            crate::a2a::collector::part_key(remote_id, index),
            content,
            append,
            finalize,
        );
    }
    if let Some(url) = part.member_string("url"@) {
        reference_follows(collection, remote_id, name, part, url);
    }
}

proof fn parts_follow(
    collection: Collection,
    remote_id: Seq<char>,
    name: Seq<char>,
    parts: Seq<Json>,
    append: bool,
    finalize: bool,
)
    ensures
        follows(
            collection,
            parts_taken(collection, remote_id, name, parts, append, finalize).0,
        ),
    decreases parts.len(),
{
    if parts.len() > 0 {
        parts_follow(collection, remote_id, name, parts.drop_last(), append, finalize);
        let earlier = parts_taken(
            collection,
            remote_id,
            name,
            parts.drop_last(),
            append,
            finalize,
        ).0;
        part_follows(
            earlier,
            remote_id,
            name,
            parts.last(),
            (parts.len() - 1) as nat,
            append,
            finalize,
        );
    }
}

proof fn artifact_follows(collection: Collection, value: Json, append: bool, finalize: bool)
    ensures
        follows(collection, artifact_taken(collection, value, append, finalize).0),
{
    let id = crate::a2a::validation::needed_id(value.member("artifactId"@));
    let name = crate::a2a::validation::text_or(
        value.member("name"@),
        "artifact"@,
        crate::a2a::validation::MAX_FILENAME_BYTES as nat,
    );
    if let (Ok(remote_id), Ok(name), Some(parts)) = (id, name, value.member_items("parts"@)) {
        parts_follow(collection, remote_id, name, parts, append, finalize);
    }
}

proof fn artifacts_follow(collection: Collection, artifacts: Seq<Json>)
    ensures
        follows(collection, artifacts_taken(collection, artifacts).0),
    decreases artifacts.len(),
{
    if artifacts.len() > 0 {
        artifacts_follow(collection, artifacts.drop_last());
        let earlier = artifacts_taken(collection, artifacts.drop_last()).0;
        artifact_follows(earlier, artifacts.last(), false, true);
    }
}

proof fn identity_reply_follows(collection: Collection, value: Json, key: Seq<char>)
    ensures
        follows(collection, identity_taken(collection, value, key).0),
{
    let id = crate::a2a::validation::needed_id(value.member(key));
    let context = crate::a2a::validation::id_of(value.member("contextId"@));
    if let (Ok(task_id), Ok(context_id)) = (id, context) {
        identity_follows(collection, task_id, context_id);
    }
}

proof fn standing_follows(collection: Collection, value: Json, key: Seq<char>)
    ensures
        follows(collection, standing_taken(collection, value, key).0),
{
    identity_reply_follows(collection, value, key);
    let named = identity_taken(collection, value, key).0;
    if let Some(status) = value.member("status"@) {
        status_follows(named, status);
    }
}

proof fn task_follows(collection: Collection, value: Json)
    ensures
        follows(collection, task_taken(collection, value).0),
{
    standing_follows(collection, value, "id"@);
    let standing = standing_taken(collection, value, "id"@).0;
    if let Some(artifacts) = value.member("artifacts"@) {
        if let Some(items) = artifacts.items() {
            artifacts_follow(standing, items);
        }
    }
}

proof fn artifact_update_follows(collection: Collection, value: Json)
    ensures
        follows(collection, artifact_update_taken(collection, value).0),
{
    identity_reply_follows(collection, value, "taskId"@);
    let named = identity_taken(collection, value, "taskId"@).0;
    if let (Some(finalize), Some(artifact)) = (
        crate::a2a::collector::finalizes(value),
        value.member("artifact"@),
    ) {
        artifact_follows(named, artifact, crate::a2a::collector::appends(value), finalize);
    }
}

/// Whatever an external agent replies, what is kept of it stays within its
/// bounds, a task never changes its identity, and no effect is taken back.
pub proof fn replies_stay_within_bounds(
    collection: Collection,
    envelope: Json,
    expected_id: Seq<char>,
)
    ensures
        follows(collection, envelope_taken(collection, envelope, expected_id).0),
{
    if let Some(result) = envelope.member("result"@) {
        if let Some(task) = result.member("task"@) {
            task_follows(collection, task);
        } else if let Some(message) = result.member("message"@) {
            let direct = Collection {
                direct_message: true,
                state: TaskState::Completed,
                ..collection
            };
            message_follows(direct, message);
        } else if let Some(update) = result.member("statusUpdate"@) {
            standing_follows(collection, update, "taskId"@);
        } else if let Some(update) = result.member("artifactUpdate"@) {
            artifact_update_follows(collection, update);
        }
    }
}

/// A new collector is within its bounds.
pub proof fn collectors_start_within_bounds(artifact_limit: nat)
    ensures
        within(untouched(artifact_limit)),
{
}

proof fn draining_follows(collection: Collection)
    ensures
        follows(collection, drained(collection).0),
    decreases collection.pending.len(),
{
    if collection.pending.len() > 0 {
        finalizing_follows(collection, 0);
        let (next, taken) = finalized(collection, 0);
        if !(taken is Err || next.pending.len() >= collection.pending.len()) {
            draining_follows(next);
        }
    }
}

/// Once the replies are over, a task is either as its agent left it, or known to
/// be detached; it is never reported as still running.
pub proof fn finished_tasks_are_settled(collection: Collection)
    ensures
        follows(collection, finished(collection).0),
        finished(collection).1 is Ok ==> {
            let after = finished(collection).0;
            after.direct_message || after.state.settled() || after.state
                == TaskState::DetachedUnknown
        },
        finished(collection).1 is Ok ==> finished(collection).0.pending.len() == 0,
{
    pushed_stores_count();
    draining_follows(collection);
    draining_leaves_nothing(collection);
}

proof fn draining_leaves_nothing(collection: Collection)
    ensures
        drained(collection).1 is Ok ==> drained(collection).0.pending.len() == 0,
    decreases collection.pending.len(),
{
    if collection.pending.len() > 0 {
        let (next, taken) = finalized(collection, 0);
        if !(taken is Err || next.pending.len() >= collection.pending.len()) {
            draining_leaves_nothing(next);
        }
    }
}

/// A reply to some other request is refused and leaves no trace.
pub proof fn foreign_replies_leave_no_trace(
    collection: Collection,
    envelope: Json,
    expected_id: Seq<char>,
)
    requires
        envelope.member_string("id"@) != Some(expected_id),
    ensures
        envelope_taken(collection, envelope, expected_id) == (
            collection,
            Err::<(), A2aWireError>(A2aWireError::Protocol),
        ),
{
}

/// A reply about another task than the one that the collector follows is
/// refused, and nothing of it is kept.
pub proof fn other_tasks_are_refused(
    collection: Collection,
    task_id: Seq<char>,
    context_id: Option<Seq<char>>,
)
    requires
        collection.task_id is Some,
        collection.task_id != Some(task_id),
    ensures
        identified(collection, task_id, context_id) == (
            collection,
            Err::<(), A2aWireError>(A2aWireError::Protocol),
        ),
{
}

/// Whether a collection leaves the task of another as it stands: its identity, its
/// state and what the agent said.
pub open spec fn leaves_standing(before: Collection, after: Collection) -> bool {
    &&& after.task_id == before.task_id
    &&& after.context_id == before.context_id
    &&& after.state == before.state
    &&& after.messages == before.messages
    &&& after.direct_message == before.direct_message
}

proof fn parts_leave_standing(
    collection: Collection,
    remote_id: Seq<char>,
    name: Seq<char>,
    parts: Seq<Json>,
    append: bool,
    finalize: bool,
)
    ensures
        leaves_standing(
            collection,
            parts_taken(collection, remote_id, name, parts, append, finalize).0,
        ),
    decreases parts.len(),
{
    if parts.len() > 0 {
        parts_leave_standing(collection, remote_id, name, parts.drop_last(), append, finalize);
    }
}

proof fn artifacts_leave_standing(collection: Collection, artifacts: Seq<Json>)
    ensures
        leaves_standing(collection, artifacts_taken(collection, artifacts).0),
    decreases artifacts.len(),
{
    if artifacts.len() > 0 {
        artifacts_leave_standing(collection, artifacts.drop_last());
        let earlier = artifacts_taken(collection, artifacts.drop_last()).0;
        artifact_leaves_standing(earlier, artifacts.last(), false, true);
    }
}

proof fn artifact_leaves_standing(collection: Collection, value: Json, append: bool, finalize: bool)
    ensures
        leaves_standing(collection, artifact_taken(collection, value, append, finalize).0),
{
    assert forall|remote_id: Seq<char>, name: Seq<char>, parts: Seq<Json>| leaves_standing(
        collection,
        (#[trigger] parts_taken(collection, remote_id, name, parts, append, finalize)).0,
    ) by {
        parts_leave_standing(collection, remote_id, name, parts, append, finalize);
    }
}

proof fn draining_leaves_standing(collection: Collection)
    ensures
        leaves_standing(collection, drained(collection).0),
    decreases collection.pending.len(),
{
    if collection.pending.len() > 0 {
        let (next, taken) = finalized(collection, 0);
        if !(taken is Err || next.pending.len() >= collection.pending.len()) {
            draining_leaves_standing(next);
        }
    }
}

/// Whether a status names a state, as it is kept, in capitals behind the prefix of the
/// wire.
pub open spec fn names_state(status: Json, state: TaskState) -> bool {
    &&& status.member_string("state"@) matches Some(name)
    &&& lowered(name) == "task_state_"@ + state.name()
}

/// A status that is taken is the agent's own word: the task stands where the agent says
/// that it stands, and that is what observers are told and what is kept.
pub proof fn a_status_is_the_agents_word(collection: Collection, status: Json)
    ensures
        status_taken(collection, status).1 is Ok ==> ({
            let after = status_taken(collection, status).0;
            &&& names_state(status, after.state)
            &&& after.task_id == collection.task_id
            &&& collection.task_id is None ==> (after.effects.last()
                matches EffectModel::Status { state, .. } && state == after.state)
            &&& collection.task_id matches Some(id) ==> {
                &&& after.effects.last() matches EffectModel::Record {
                    task_id,
                    context_id,
                    state,
                    ..
                }
                &&& task_id == id
                &&& context_id == collection.context_id
                &&& state == after.state
                &&& after.effects[after.effects.len() - 2] matches EffectModel::Status {
                    state: told,
                    ..
                }
                &&& told == after.state
            }
        }),
        status_taken(collection, status).1 is Err ==> (status_taken(collection, status).0.state
            == collection.state || names_state(status, status_taken(collection, status).0.state)),
{
    if let Some(name) = status.member_string("state"@) {
        if let Some(state) = wire_state(name) {
            wire_names_are_read_faithfully(name, state);
        }
    }
}

/// A task changes its state only by what a reply says: a status of the task or of an
/// update that names the new state, or a message in place of a task, which completes
/// it. Artifacts never do.
pub proof fn states_change_by_a_reply(collection: Collection, envelope: Json, expected_id: Seq<char>)
    ensures
        ({
            let after = envelope_taken(collection, envelope, expected_id).0;
            after.state != collection.state ==> {
                &&& envelope.member("result"@) matches Some(result)
                &&& {
                    ||| result.member("task"@) matches Some(task) && task.member("status"@)
                        matches Some(status) && names_state(status, after.state)
                    ||| result.member("statusUpdate"@) matches Some(update) && update.member(
                        "status"@,
                    ) matches Some(status) && names_state(status, after.state)
                    ||| result.member("message"@) is Some && after.state == TaskState::Completed
                }
            }
        }),
{
    if let Some(result) = envelope.member("result"@) {
        if let Some(task) = result.member("task"@) {
            standing_is_said(collection, task, "id"@);
            let standing = standing_taken(collection, task, "id"@).0;
            if let Some(artifacts) = task.member("artifacts"@) {
                if let Some(items) = artifacts.items() {
                    artifacts_leave_standing(standing, items);
                }
            }
        } else if let Some(update) = result.member("statusUpdate"@) {
            standing_is_said(collection, update, "taskId"@);
        } else if let Some(update) = result.member("artifactUpdate"@) {
            let named = identity_taken(collection, update, "taskId"@).0;
            if let (Some(finalize), Some(artifact)) = (
                crate::a2a::collector::finalizes(update),
                update.member("artifact"@),
            ) {
                artifact_leaves_standing(
                    named,
                    artifact,
                    crate::a2a::collector::appends(update),
                    finalize,
                );
            }
        }
    }
}

proof fn standing_is_said(collection: Collection, value: Json, key: Seq<char>)
    ensures
        ({
            let after = standing_taken(collection, value, key).0;
            after.state != collection.state ==> (value.member("status"@) matches Some(status)
                && names_state(status, after.state))
        }),
{
    let named = identity_taken(collection, value, key).0;
    if let Some(status) = value.member("status"@) {
        a_status_is_the_agents_word(named, status);
    }
}

/// When the replies are over, a state that the agent is done in, or in which it waits
/// for something, stands as the agent left it; one in which it still worked is not
/// known any more.
pub proof fn the_last_word_stands(collection: Collection)
    ensures
        finished(collection).1 is Ok ==> ({
            let after = finished(collection).0;
            &&& after.task_id == collection.task_id
            &&& after.messages == collection.messages
            &&& match collection.state {
                TaskState::Completed
                | TaskState::Failed
                | TaskState::Canceled
                | TaskState::Rejected
                | TaskState::InputRequired
                | TaskState::AuthRequired => after.state == collection.state,
                TaskState::Submitted | TaskState::Working => collection.direct_message
                    || after.state == TaskState::DetachedUnknown,
                TaskState::DetachedUnknown => after.state == TaskState::DetachedUnknown,
            }
        }),
{
    draining_leaves_standing(collection);
}

/// What an agent says is kept as it says it, part by part on lines of their own; what
/// must not be shown is refused, and nothing is kept of it.
pub proof fn messages_are_kept_as_said(parts: Seq<Json>, part: Json)
    ensures
        combined(Seq::<Json>::empty()) == Ok::<Seq<char>, A2aWireError>(Seq::empty()),
        combined(parts) matches Ok(earlier) ==> match part.member_string("text"@) {
            None => combined(parts.push(part)) == Ok::<Seq<char>, A2aWireError>(earlier),
            Some(text) => if has_unsafe(text) || byte_count(text) > 64 * 1024 {
                combined(parts.push(part)) is Err
            } else {
                &&& combined(parts.push(part)) matches Ok(whole)
                &&& text.is_suffix_of(whole)
                &&& earlier.is_prefix_of(whole)
                &&& whole.len() == (if earlier.len() == 0 {
                    text.len()
                } else {
                    earlier.len() + 1 + text.len()
                })
                &&& earlier.len() > 0 ==> whole[earlier.len() as int] == '\n'
            },
        },
        combined(parts) is Err ==> combined(parts.push(part)) is Err,
{
    assert(parts.push(part).drop_last() =~= parts);
    if let Ok(earlier) = combined(parts) {
        if let Some(text) = part.member_string("text"@) {
            let whole = earlier.push('\n') + text;
            assert(whole.subrange(whole.len() - text.len(), whole.len() as int) =~= text);
            assert(whole.subrange(0, earlier.len() as int) =~= earlier);
            assert(text.subrange(0, text.len() as int) =~= text);
        }
    }
}

/// A message that is kept is the last of those that are kept, whole, and observers are
/// told its beginning.
pub proof fn kept_messages_are_whole(collection: Collection, value: Json)
    ensures
        message_taken(collection, value).1 matches Ok(Some(text)) ==> {
            let after = message_taken(collection, value).0;
            &&& after.messages == collection.messages.push(text)
            &&& value.member_items("parts"@) matches Some(parts)
            &&& combined(parts) == Ok::<Seq<char>, A2aWireError>(text)
            &&& text.len() > 0
            &&& after.effects.last() is Message
            &&& after.state == collection.state
        },
        !(message_taken(collection, value).1 matches Ok(Some(_))) ==> message_taken(
            collection,
            value,
        ).0.messages == collection.messages,
        value.member_string("role"@) != Some("ROLE_AGENT"@) ==> message_taken(collection, value).1
            is Err,
{
}

/// A piece of an artifact that is the last one is stored with what came before it where
/// it is added, and alone where it is not; what is stored is what the agent sent.
pub proof fn stored_artifacts_are_what_was_sent(
    collection: Collection,
    remote_id: Seq<char>,
    key: Seq<char>,
    content: PartContent,
    append: bool,
)
    ensures
        content_taken(collection, remote_id, key, content, append, true).1 is Ok ==> {
            let after = content_taken(collection, remote_id, key, content, append, true).0;
            &&& after.effects.last() matches EffectModel::Store { name, media_type, bytes }
            &&& content.bytes.is_suffix_of(bytes)
            &&& media_type == content.media_type
            &&& !append ==> bytes == content.bytes && name == content.name
            &&& bytes.len() <= collection.artifact_limit
            &&& after.ingested.len() == collection.ingested.len() + 1
            &&& after.ingested.last().source_task_id == collection.task_id
            &&& after.ingested.last().name == name
        },
{
    slot_is_inside(collection.pending, key);
    if content_taken(collection, remote_id, key, content, append, true).1 is Ok {
        let after = content_taken(collection, remote_id, key, content, append, true).0;
        if let EffectModel::Store { bytes, .. } = after.effects.last() {
            let base = bytes.take(bytes.len() - content.bytes.len());
            assert(bytes.subrange(bytes.len() - content.bytes.len(), bytes.len() as int)
                =~= content.bytes);
            if !append {
                assert(bytes =~= content.bytes);
            }
        }
    }
}

/// What is stored of a part is its own content: a text is stored as UTF-8 under its
/// plain media type, data as its JSON, and raw content as the bytes that its base64
/// stands for, never more of it than was agreed to.
pub proof fn parts_hold_their_content(part: Json, name: Seq<char>, limit: nat)
    ensures
        part_content(part, name, limit) matches Ok(content) ==> {
            &&& part.member_string("raw"@) matches Some(raw) ==> base64_bytes(raw) == Some(
                content.bytes,
            )
            &&& part.member_string("raw"@) is None ==> (part.member_string("text"@) matches Some(
                text,
            ) ==> content.bytes == encode_utf8(text) && content.media_type == "text/plain"@
                && content.name == name)
            &&& part.member_string("raw"@) is None && part.member_string("text"@) is None ==> (
            part.member("data"@) matches Some(data) && content.bytes == encode_utf8(data.text@)
                && content.media_type == "application/json"@)
        },
        part.member_string("raw"@) is None ==> (part.member_string("text"@) matches Some(text)
            ==> has_unsafe(text) ==> part_content(part, name, limit) is Err),
        part.member_string("raw"@) is None && part.member_string("text"@) is None && part.member(
            "data"@,
        ) is None ==> part_content(part, name, limit) is Err,
{
}

/// A task that is heard of for the first time is announced under its id and kept as
/// submitted; one that is known already is neither announced nor kept again.
pub proof fn tasks_are_announced_once(
    collection: Collection,
    task: Seq<char>,
    context: Option<Seq<char>>,
)
    requires
        identified(collection, task, context).1 is Ok,
    ensures
        ({
            let after = identified(collection, task, context).0;
            &&& after.task_id == Some(task)
            &&& context is Some ==> after.context_id == context
            &&& context is None ==> after.context_id == collection.context_id
            &&& after.state == collection.state
            &&& collection.task_id is Some ==> after.effects == collection.effects
            &&& collection.task_id is None ==> {
                &&& after.effects.len() == collection.effects.len() + 2
                &&& after.effects[after.effects.len() - 2] matches EffectModel::Identified {
                    task_id,
                    ..
                }
                &&& task_id == task
                &&& after.effects.last() matches EffectModel::Record { task_id: kept, state, .. }
                &&& kept == task
                &&& state == TaskState::Submitted
            }
        }),
{
}

/// An answer to the request that is an error is reported as the agent's error, and nothing
/// else is made of it. An answer without exactly one kind of result says nothing, and is
/// refused.
pub proof fn errors_of_the_agent_are_reported(
    collection: Collection,
    envelope: Json,
    expected_id: Seq<char>,
)
    ensures
        envelope.member_string("jsonrpc"@) == Some("2.0"@) && envelope.member_string("id"@) == Some(
            expected_id,
        ) && envelope.member("error"@) is Some ==> envelope_taken(
            collection,
            envelope,
            expected_id,
        ) == (collection, Err::<(), A2aWireError>(A2aWireError::Remote)),
        envelope_taken(collection, envelope, expected_id).1 is Ok ==> {
            &&& envelope.member_string("id"@) == Some(expected_id)
            &&& envelope.member("error"@) is None
            &&& envelope.member("result"@) matches Some(result) && {
                ||| result.member("task"@) is Some
                ||| result.member("message"@) is Some
                ||| result.member("statusUpdate"@) is Some
                ||| result.member("artifactUpdate"@) is Some
            }
        },
        (envelope.member("result"@) matches Some(result) && result.member("task"@) is Some
            && result.member("message"@) is Some) ==> envelope_taken(
            collection,
            envelope,
            expected_id,
        ).1 is Err,
        (envelope.member("result"@) matches Some(result) && result.member("statusUpdate"@) is Some
            && result.member("artifactUpdate"@) is Some) ==> envelope_taken(
            collection,
            envelope,
            expected_id,
        ).1 is Err,
{
}

/// An update adds to its artifact only where it says so in a truth value. It is the last one
/// where it says so; where it says nothing of that, one that adds goes on and one that does
/// not is the last.
pub proof fn updates_say_how_they_join(value: Json)
    ensures
        appends(value) <==> (value.member("append"@) matches Some(flag) && flag.shape
            == Shape::Bool(true)),
        value.member("lastChunk"@) is None ==> finalizes(value) == Some(!appends(value)),
        (value.member("lastChunk"@) matches Some(flag) && flag.shape == Shape::Bool(true))
            ==> finalizes(value) == Some(true),
        (value.member("lastChunk"@) matches Some(flag) && flag.shape == Shape::Bool(false))
            ==> finalizes(value) == Some(false),
        (value.member("lastChunk"@) matches Some(flag) && flag.shape !is Bool) ==> finalizes(value)
            is None,
{
}

/// A reference is kept by its safe address, under its artifact and its task, after those
/// that are kept already; one that has no safe address is refused, and so is one too many.
pub proof fn references_are_kept_by_their_address(
    collection: Collection,
    remote_id: Seq<char>,
    name: Seq<char>,
    part: Json,
    url: Seq<char>,
)
    ensures
        ({
            let (after, taken) = reference_taken(collection, remote_id, name, part, url);
            &&& taken is Ok ==> {
                &&& collection.references.len() < 64
                &&& after.references.len() == collection.references.len() + 1
                &&& after.references.drop_last() == collection.references
                &&& after.references.last().remote_artifact_id == remote_id
                &&& after.references.last().source_task_id == collection.task_id
                &&& reference_of(url) == Ok::<Seq<char>, A2aWireError>(after.references.last().url)
                &&& after.effects == collection.effects
                &&& after.pending == collection.pending
            }
            &&& taken is Err ==> after == collection
            &&& reference_of(url) is Err ==> taken is Err
        }),
{
    let (after, taken) = reference_taken(collection, remote_id, name, part, url);
    if taken is Ok {
        assert(after.references.drop_last() =~= collection.references);
    }
}

/// When the replies are over, every artifact that was still open goes to the store: none is
/// left open, and each is counted once.
pub proof fn open_artifacts_are_stored_at_last(collection: Collection)
    ensures
        drained(collection).1 is Ok ==> {
            &&& drained(collection).0.pending.len() == 0
            &&& drained(collection).0.ingested.len() == collection.ingested.len()
                + collection.pending.len()
            &&& drained(collection).0.effects.len() == collection.effects.len()
                + collection.pending.len()
            &&& drained(collection).0.state == collection.state
            &&& drained(collection).0.task_id == collection.task_id
            &&& drained(collection).0.messages == collection.messages
        },
    decreases collection.pending.len(),
{
    if collection.pending.len() > 0 {
        let (next, taken) = finalized(collection, 0);
        if taken is Ok {
            assert(next.pending.len() < collection.pending.len());
            open_artifacts_are_stored_at_last(next);
        }
    }
}

/// The artifact that is stored is the one that was open: its own name, type and bytes, and it
/// is reported under its own identity and that of the task.
pub proof fn stored_artifacts_are_the_open_ones(collection: Collection, at: nat)
    requires
        at < collection.pending.len(),
        collection.ingested.len() < 64,
    ensures
        ({
            let (after, taken) = finalized(collection, at);
            let artifact = collection.pending[at as int];
            &&& taken is Ok
            &&& after.effects.last() == (EffectModel::Store {
                name: artifact.name,
                media_type: artifact.media_type,
                bytes: artifact.bytes,
            })
            &&& after.ingested.last().remote_artifact_id == artifact.remote_id
            &&& after.ingested.last().name == artifact.name
            &&& after.ingested.last().source_task_id == collection.task_id
            &&& after.pending == collection.pending.remove(at as int)
        }),
{
}

/// A task is followed under the identity that it was first heard of by, and its context once
/// it is known; a reply under another is refused and changes nothing.
pub proof fn tasks_keep_their_identity(
    collection: Collection,
    task_id: Seq<char>,
    context_id: Option<Seq<char>>,
)
    ensures
        ({
            let (after, taken) = identified(collection, task_id, context_id);
            &&& taken is Ok ==> after.task_id == Some(task_id)
            &&& taken is Ok && context_id is Some ==> after.context_id == context_id
            &&& taken is Ok && context_id is None ==> after.context_id == collection.context_id
            &&& taken is Err ==> after == collection
            &&& taken is Err <==> (collection.task_id matches Some(held) && held != task_id) || (
            collection.context_id is Some && context_id is Some && collection.context_id
                != context_id)
        }),
{
}

/// The task that a reply speaks of is the one that it names, in so many words: a reply
/// without a name for it, or with one that is none, is refused.
pub proof fn replies_name_their_task(collection: Collection, value: Json, key: Seq<char>)
    ensures
        ({
            let (after, taken) = identity_taken(collection, value, key);
            &&& taken is Ok ==> after.task_id is Some && value.member_string(key) == after.task_id
            &&& taken is Err ==> after == collection
            &&& value.member(key) is None ==> taken is Err
        }),
{
}

/// A part that is referred to by its address is not stored, and one that is carried along
/// is not referred to.
pub proof fn parts_are_stored_or_referred_to(
    collection: Collection,
    remote_id: Seq<char>,
    name: Seq<char>,
    part: Json,
    index: nat,
    append: bool,
    finalize: bool,
)
    ensures
        ({
            let (after, taken) = part_taken(
                collection,
                remote_id,
                name,
                part,
                index,
                append,
                finalize,
            );
            &&& part.member_string("url"@) is Some ==> after.effects == collection.effects
            &&& part.member_string("url"@) is None ==> after.references == collection.references
            &&& after.task_id == collection.task_id
            &&& after.state == collection.state
            &&& after.messages == collection.messages
        }),
{
}

}
