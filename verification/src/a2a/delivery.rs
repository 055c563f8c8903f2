//! One delivery to an external agent: what is made of its answer, from the status
//! to the receipt.
//!
//! What a reply leads to is done before anything else: one effect at a time, and
//! the first that cannot be done ends the delivery.

use crate::a2a::cancellation::RemoteTaskLease;
use crate::a2a::collector::{
    envelope_taken, finished, reports_artifacts, untouched, A2aDelegationReceipt, ArtifactRecord,
    Collection, DelegationCollector, Effect, EffectModel, SafeExternalReference, NOT_REQUESTED,
};
use crate::a2a::laws::{finished_tasks_are_settled, replies_stay_within_bounds, stores};
use crate::a2a::transport::{
    check_length, check_status, form_of, reply_form, status_failure, ReplyForm, ReplyMeter,
};
use crate::a2a::validation::{A2aWireError, MAX_RESPONSE_BYTES, MAX_STREAM_EVENTS};
use crate::json::{json_document, read_json};
use crate::text::{option_view, views};
use vstd::prelude::*;

verus! {

/// How far a delivery is.
#[derive(Clone, Copy, PartialEq, Eq, Structural, Debug)]
pub enum DeliveryStage {
    /// The request was sent.
    Waiting,
    /// Events come in.
    Streaming,
    /// A document comes in.
    Reading,
    /// The task was delivered, and its receipt can be had.
    Delivered,
    /// The delivery failed.
    Failed,
}

/// What comes in.
#[derive(Debug, PartialEq, Eq)]
pub enum DeliveryEvent {
    Answered { status: u16, content_type: Option<String>, length: Option<u64> },
    /// A part of an event stream, with the data of the events that it completes;
    /// nothing where it is no event stream.
    Chunk { len: usize, envelopes: Option<Vec<Vec<u8>>> },
    StreamEnded { well_formed: bool },
    /// A part of a document.
    Part { bytes: Vec<u8> },
    DocumentEnded,
    Cancelled,
    Fault(A2aWireError),
    /// What was to be done is done.
    Done,
    /// What was to be stored is stored.
    Stored(ArtifactRecord),
    /// What was to be done cannot be done.
    Undone,
}

/// What is done next.
#[derive(Debug, PartialEq, Eq)]
pub enum DeliveryWork {
    Wait,
    /// Something is done outside, and what came of it is told.
    Perform(Effect),
    Finish(Result<(), A2aWireError>),
    Ignore,
}

/// What is done next, by content.
pub enum WorkModel {
    Wait,
    Perform(EffectModel),
    Finish(Result<(), A2aWireError>),
    Ignore,
}

impl View for DeliveryWork {
    type V = WorkModel;

    open spec fn view(&self) -> WorkModel {
        match self {
            DeliveryWork::Wait => WorkModel::Wait,
            DeliveryWork::Perform(effect) => WorkModel::Perform(effect@),
            DeliveryWork::Finish(outcome) => WorkModel::Finish(*outcome),
            DeliveryWork::Ignore => WorkModel::Ignore,
        }
    }
}

/// The kinds of what is done outside: observers are told, a state is kept, or an
/// artifact is stored.
#[derive(Clone, Copy, PartialEq, Eq, Structural, Debug)]
pub enum EffectKind {
    Tell,
    Record,
    Store,
}

/// The kind of an effect.
pub open spec fn kind_of(effect: EffectModel) -> EffectKind {
    match effect {
        EffectModel::Record { .. } => EffectKind::Record,
        EffectModel::Store { .. } => EffectKind::Store,
        _ => EffectKind::Tell,
    }
}

fn effect_kind(effect: &Effect) -> (kind: EffectKind)
    ensures
        kind == kind_of(effect@),
{
    match effect {
        Effect::Record { .. } => EffectKind::Record,
        Effect::Store { .. } => EffectKind::Store,
        _ => EffectKind::Tell,
    }
}

/// What was made of the latest reply. It counts once all that the reply led to is
/// done.
#[derive(Clone, Copy, PartialEq, Eq, Debug)]
pub enum ReplyOutcome {
    Nothing,
    Taken(Result<(), A2aWireError>),
    /// The replies are over.
    Ended(Result<(), A2aWireError>),
}

/// A delivery that is under way.
pub struct Delivery {
    streaming: bool,
    request_id: String,
    collector: DelegationCollector,
    meter: ReplyMeter,
    body: Vec<u8>,
    queue: Vec<Vec<u8>>,
    outcome: ReplyOutcome,
    doing: Option<EffectKind>,
    records: Vec<ArtifactRecord>,
    lease: RemoteTaskLease,
    stage: DeliveryStage,
}

/// A delivery, by content. The queue holds the events of a stream that are not
/// taken yet.
#[verifier::ext_equal]
pub struct DeliveryModel {
    pub streaming: bool,
    pub request_id: Seq<char>,
    pub collection: Collection,
    pub bytes: nat,
    pub events: nat,
    pub body: Seq<u8>,
    pub queue: Seq<Seq<u8>>,
    pub outcome: ReplyOutcome,
    pub doing: Option<EffectKind>,
    pub records: Seq<ArtifactRecord>,
    pub held: Option<Seq<char>>,
    pub stage: DeliveryStage,
}

/// The contents of byte lists.
pub open spec fn byte_views(lists: Seq<Vec<u8>>) -> Seq<Seq<u8>> {
    Seq::new(lists.len(), |i: int| lists[i]@)
}

impl View for Delivery {
    type V = DeliveryModel;

    closed spec fn view(&self) -> DeliveryModel {
        DeliveryModel {
            streaming: self.streaming,
            request_id: self.request_id@,
            collection: self.collector@,
            bytes: self.meter.bytes(),
            events: self.meter.events(),
            body: self.body@,
            queue: byte_views(self.queue@),
            outcome: self.outcome,
            doing: self.doing,
            records: self.records@,
            held: self.lease.held(),
            stage: self.stage,
        }
    }
}

/// The task that a delivery is responsible for: the first one it hears of.
pub open spec fn armed(held: Option<Seq<char>>, task: Option<Seq<char>>) -> Option<Seq<char>> {
    if held is Some {
        held
    } else {
        task
    }
}

/// The delivery after it read one reply more.
pub open spec fn reply_taken(model: DeliveryModel, document: Seq<u8>) -> DeliveryModel {
    match json_document(document) {
        None => DeliveryModel {
            outcome: ReplyOutcome::Taken(Err(A2aWireError::Protocol)),
            ..model
        },
        Some(envelope) => {
            let (collection, taken) = envelope_taken(model.collection, envelope, model.request_id);
            DeliveryModel { collection, outcome: ReplyOutcome::Taken(taken), ..model }
        },
    }
}

/// The delivery after it read the next event of a stream.
pub open spec fn event_taken(model: DeliveryModel) -> DeliveryModel {
    let rest = DeliveryModel { queue: model.queue.drop_first(), ..model };
    if model.events + 1 > MAX_STREAM_EVENTS {
        DeliveryModel { outcome: ReplyOutcome::Taken(Err(A2aWireError::TooManyEvents)), ..rest }
    } else {
        reply_taken(DeliveryModel { events: model.events + 1, ..rest }, model.queue[0])
    }
}

/// The delivery after its last reply: what is pending is settled.
pub open spec fn ended(model: DeliveryModel) -> DeliveryModel {
    let (collection, taken) = finished(model.collection);
    DeliveryModel { collection, outcome: ReplyOutcome::Ended(taken), ..model }
}

/// The delivery ended with an error.
pub open spec fn failed(model: DeliveryModel, error: A2aWireError) -> (DeliveryModel, WorkModel) {
    (
        DeliveryModel { stage: DeliveryStage::Failed, doing: None, ..model },
        WorkModel::Finish(Err(error)),
    )
}

/// How a delivery goes on by itself. First comes what the latest reply led to, one
/// effect at a time. Then the reply counts: a refused one ends the delivery, and of
/// a taken one the task is held. Then the next event is read. Where all went well at
/// the end, the task is given up.
pub open spec fn advanced(model: DeliveryModel) -> (DeliveryModel, WorkModel)
    decreases
            model.queue.len(),
            (if model.outcome is Ended {
                0nat
            } else {
                1nat
            }),
{
    if model.collection.effects.len() > 0 {
        let effect = model.collection.effects[0];
        (
            DeliveryModel {
                collection: Collection {
                    effects: model.collection.effects.drop_first(),
                    ..model.collection
                },
                doing: Some(kind_of(effect)),
                ..model
            },
            WorkModel::Perform(effect),
        )
    } else {
        match model.outcome {
            ReplyOutcome::Ended(Ok(_)) => (
                DeliveryModel { held: None, stage: DeliveryStage::Delivered, doing: None, ..model },
                WorkModel::Finish(Ok(())),
            ),
            ReplyOutcome::Ended(Err(error)) => failed(model, error),
            ReplyOutcome::Taken(Err(error)) => failed(model, error),
            ReplyOutcome::Taken(Ok(_)) => {
                let counted = DeliveryModel {
                    held: armed(model.held, model.collection.task_id),
                    outcome: ReplyOutcome::Nothing,
                    doing: None,
                    ..model
                };
                if counted.queue.len() > 0 {
                    advanced(event_taken(counted))
                } else if counted.stage == DeliveryStage::Reading {
                    advanced(ended(counted))
                } else {
                    (counted, WorkModel::Wait)
                }
            },
            ReplyOutcome::Nothing => if model.queue.len() > 0 {
                advanced(event_taken(model))
            } else {
                (DeliveryModel { doing: None, ..model }, WorkModel::Wait)
            },
        }
    }
}

/// How a delivery moves on what came of an effect. One that cannot be done ends it
/// there: nothing that follows it is read, done or held.
pub open spec fn performed(model: DeliveryModel, kind: EffectKind, event: DeliveryEvent) -> (
    DeliveryModel,
    WorkModel,
) {
    match (kind, event) {
        (EffectKind::Tell, DeliveryEvent::Done) => advanced(model),
        (EffectKind::Record, DeliveryEvent::Done) => advanced(model),
        (EffectKind::Record, DeliveryEvent::Undone) => failed(model, A2aWireError::State),
        (EffectKind::Store, DeliveryEvent::Stored(record)) => advanced(
            DeliveryModel { records: model.records.push(record), doing: None, ..model },
        ),
        (EffectKind::Store, DeliveryEvent::Undone) => failed(model, A2aWireError::Artifact),
        _ => (model, WorkModel::Ignore),
    }
}

/// How a delivery moves on what comes in.
pub open spec fn delivered(model: DeliveryModel, event: DeliveryEvent) -> (
    DeliveryModel,
    WorkModel,
) {
    match (model.stage, model.doing, event) {
        (DeliveryStage::Delivered, _, _) => (model, WorkModel::Ignore),
        (DeliveryStage::Failed, _, _) => (model, WorkModel::Ignore),
        (_, Some(kind), event) => performed(model, kind, event),
        (_, None, DeliveryEvent::Fault(error)) => failed(model, error),
        (DeliveryStage::Streaming, None, DeliveryEvent::Cancelled) => failed(
            DeliveryModel { held: armed(model.held, model.collection.task_id), ..model },
            A2aWireError::Cancelled,
        ),
        (_, None, DeliveryEvent::Cancelled) => failed(model, A2aWireError::Cancelled),
        (
            DeliveryStage::Waiting,
            None,
            DeliveryEvent::Answered { status, content_type, length },
        ) => match status_failure(status) {
            Some(error) => failed(model, error),
            None => match form_of(option_view(content_type), model.streaming) {
                None => failed(model, A2aWireError::MediaType),
                Some(ReplyForm::EventStream) => (
                    DeliveryModel { stage: DeliveryStage::Streaming, ..model },
                    WorkModel::Wait,
                ),
                Some(ReplyForm::Document) => if length matches Some(length) && length
                    > MAX_RESPONSE_BYTES {
                    failed(model, A2aWireError::TooLarge)
                } else {
                    (
                        DeliveryModel { stage: DeliveryStage::Reading, ..model },
                        WorkModel::Wait,
                    )
                },
            },
        },
        (DeliveryStage::Streaming, None, DeliveryEvent::Chunk { len, envelopes }) => {
            if model.bytes + len > MAX_RESPONSE_BYTES {
                failed(model, A2aWireError::TooLarge)
            } else {
                let more = DeliveryModel { bytes: model.bytes + len as nat, ..model };
                match envelopes {
                    None => failed(more, A2aWireError::Protocol),
                    Some(envelopes) => advanced(
                        DeliveryModel { queue: byte_views(envelopes@), ..more },
                    ),
                }
            }
        },
        (DeliveryStage::Streaming, None, DeliveryEvent::StreamEnded { well_formed }) => if
        well_formed {
            advanced(ended(model))
        } else {
            failed(model, A2aWireError::Protocol)
        },
        (DeliveryStage::Reading, None, DeliveryEvent::Part { bytes }) => if model.bytes
            + bytes@.len() > MAX_RESPONSE_BYTES {
            failed(model, A2aWireError::TooLarge)
        } else {
            (
                DeliveryModel {
                    bytes: model.bytes + bytes@.len(),
                    body: model.body + bytes@,
                    ..model
                },
                WorkModel::Wait,
            )
        },
        (DeliveryStage::Reading, None, DeliveryEvent::DocumentEnded) => advanced(
            reply_taken(DeliveryModel { body: Seq::empty(), ..model }, model.body),
        ),
        _ => (model, WorkModel::Ignore),
    }
}

impl Delivery {
    /// A delivery whose request was sent. No artifact may be larger than
    /// `artifact_limit` bytes.
    pub fn new(streaming: bool, request_id: String, artifact_limit: usize) -> (delivery: Delivery)
        ensures
            delivery@ == sent(streaming, request_id@, artifact_limit as nat),
    {
        let delivery = Delivery {
            streaming,
            request_id,
            collector: DelegationCollector::new(artifact_limit),
            meter: ReplyMeter::new(),
            body: Vec::new(),
            queue: Vec::new(),
            outcome: ReplyOutcome::Nothing,
            doing: None,
            records: Vec::new(),
            lease: RemoteTaskLease::new(),
            stage: DeliveryStage::Waiting,
        };
        assert(delivery@ =~= sent(streaming, request_id@, artifact_limit as nat));
        delivery
    }

    fn fail(&mut self, error: A2aWireError) -> (work: DeliveryWork)
        ensures
            (final(self)@, work@) == failed(old(self)@, error),
    {
        self.stage = DeliveryStage::Failed;
        self.doing = None;
        DeliveryWork::Finish(Err(error))
    }

    fn arm(&mut self)
        ensures
            final(self)@ == (DeliveryModel {
                held: armed(old(self)@.held, old(self)@.collection.task_id),
                ..old(self)@
            }),
    {
        match self.collector.task_id() {
            Some(task) => self.lease.arm(task),
            None => {},
        }
    }

    fn take_reply(&mut self, document: &[u8])
        ensures
            final(self)@ == reply_taken(old(self)@, document@),
    {
        match read_json(document) {
            None => {
                self.outcome = ReplyOutcome::Taken(Err(A2aWireError::Protocol));
            },
            Some(envelope) => {
                let taken = self.collector.consume_envelope(&envelope, self.request_id.as_str());
                self.outcome = ReplyOutcome::Taken(taken);
            },
        }
    }

    fn take_event(&mut self)
        requires
            old(self)@.queue.len() > 0,
        ensures
            final(self)@ == event_taken(old(self)@),
    {
        let ghost before = self@;
        let document = self.queue.remove(0);
        assert(byte_views(self.queue@) =~= before.queue.drop_first());
        assert(document@ == before.queue[0]);
        match self.meter.event() {
            Err(error) => {
                self.outcome = ReplyOutcome::Taken(Err(error));
            },
            Ok(_) => self.take_reply(document.as_slice()),
        }
    }

    fn end(&mut self)
        ensures
            final(self)@ == ended(old(self)@),
    {
        let taken = self.collector.finish();
        self.outcome = ReplyOutcome::Ended(taken);
    }

    fn advance(&mut self) -> (work: DeliveryWork)
        ensures
            (final(self)@, work@) == advanced(old(self)@),
    {
        loop
            invariant
                advanced(self@) == advanced(old(self)@),
            decreases
                    self@.queue.len(),
                    (if self@.outcome is Ended {
                        0nat
                    } else {
                        1nat
                    }),
        {
            let ghost before = self@;
            match self.collector.next_effect() {
                Some(effect) => {
                    self.doing = Some(effect_kind(&effect));
                    return DeliveryWork::Perform(effect);
                },
                None => {},
            }
            assert(self@ == before);
            match self.outcome {
                ReplyOutcome::Ended(Ok(_)) => {
                    self.lease.disarm();
                    self.stage = DeliveryStage::Delivered;
                    self.doing = None;
                    return DeliveryWork::Finish(Ok(()));
                },
                ReplyOutcome::Ended(Err(error)) => {
                    return self.fail(error);
                },
                ReplyOutcome::Taken(Err(error)) => {
                    return self.fail(error);
                },
                ReplyOutcome::Taken(Ok(_)) => {
                    self.arm();
                    self.outcome = ReplyOutcome::Nothing;
                    self.doing = None;
                    if self.queue.len() > 0 {
                        self.take_event();
                    } else if matches!(self.stage, DeliveryStage::Reading) {
                        self.end();
                    } else {
                        return DeliveryWork::Wait;
                    }
                },
                ReplyOutcome::Nothing => {
                    if self.queue.len() > 0 {
                        self.take_event();
                    } else {
                        self.doing = None;
                        return DeliveryWork::Wait;
                    }
                },
            }
        }
    }

    fn perform(&mut self, kind: EffectKind, event: DeliveryEvent) -> (work: DeliveryWork)
        ensures
            (final(self)@, work@) == performed(old(self)@, kind, event),
    {
        match (kind, event) {
            (EffectKind::Tell, DeliveryEvent::Done) => self.advance(),
            (EffectKind::Record, DeliveryEvent::Done) => self.advance(),
            (EffectKind::Record, DeliveryEvent::Undone) => self.fail(A2aWireError::State),
            (EffectKind::Store, DeliveryEvent::Stored(record)) => {
                self.records.push(record);
                self.doing = None;
                self.advance()
            },
            (EffectKind::Store, DeliveryEvent::Undone) => self.fail(A2aWireError::Artifact),
            _ => DeliveryWork::Ignore,
        }
    }

    fn take_chunk(&mut self, len: usize, envelopes: Option<Vec<Vec<u8>>>) -> (work: DeliveryWork)
        requires
            old(self)@.stage == DeliveryStage::Streaming,
            old(self)@.doing is None,
        ensures
            (final(self)@, work@) == delivered(
                old(self)@,
                DeliveryEvent::Chunk { len, envelopes },
            ),
    {
        let ghost before = self@;
        match self.meter.chunk(len) {
            Err(error) => {
                assert(self@ == before);
                return self.fail(error);
            },
            Ok(_) => {},
        }
        assert(self@ == (DeliveryModel { bytes: before.bytes + len as nat, ..before }));
        match envelopes {
            None => self.fail(A2aWireError::Protocol),
            Some(envelopes) => {
                self.queue = envelopes;
                self.advance()
            },
        }
    }

    fn answer(&mut self, status: u16, content_type: Option<String>, length: Option<u64>) -> (work:
        DeliveryWork)
        requires
            old(self)@.stage == DeliveryStage::Waiting,
            old(self)@.doing is None,
        ensures
            (final(self)@, work@) == delivered(
                old(self)@,
                DeliveryEvent::Answered { status, content_type, length },
            ),
    {
        match check_status(status) {
            Err(error) => {
                return self.fail(error);
            },
            Ok(_) => {},
        }
        let header = match &content_type {
            Some(text) => Some(text.as_str()),
            None => None,
        };
        match reply_form(header, self.streaming) {
            Err(error) => self.fail(error),
            Ok(ReplyForm::EventStream) => {
                self.stage = DeliveryStage::Streaming;
                DeliveryWork::Wait
            },
            Ok(ReplyForm::Document) => match check_length(length) {
                Err(error) => self.fail(error),
                Ok(_) => {
                    self.stage = DeliveryStage::Reading;
                    DeliveryWork::Wait
                },
            },
        }
    }

    /// Moves a delivery on what comes in.
    pub fn step(&mut self, event: DeliveryEvent) -> (work: DeliveryWork)
        ensures
            (final(self)@, work@) == delivered(old(self)@, event),
    {
        match self.stage {
            DeliveryStage::Delivered | DeliveryStage::Failed => {
                return DeliveryWork::Ignore;
            },
            _ => {},
        }
        match self.doing {
            Some(kind) => {
                return self.perform(kind, event);
            },
            None => {},
        }
        match (self.stage, event) {
            (_, DeliveryEvent::Fault(error)) => self.fail(error),
            (DeliveryStage::Streaming, DeliveryEvent::Cancelled) => {
                self.arm();
                self.fail(A2aWireError::Cancelled)
            },
            (_, DeliveryEvent::Cancelled) => self.fail(A2aWireError::Cancelled),
            (
                DeliveryStage::Waiting,
                DeliveryEvent::Answered { status, content_type, length },
            ) => self.answer(status, content_type, length),
            (DeliveryStage::Streaming, DeliveryEvent::Chunk { len, envelopes }) => self.take_chunk(
                len,
                envelopes,
            ),
            (
                DeliveryStage::Streaming,
                DeliveryEvent::StreamEnded { well_formed },
            ) => if well_formed {
                self.end();
                self.advance()
            } else {
                self.fail(A2aWireError::Protocol)
            },
            (DeliveryStage::Reading, DeliveryEvent::Part { bytes }) => {
                let ghost before = self@;
                let mut more = bytes;
                match self.meter.chunk(more.len()) {
                    Err(error) => {
                        assert(self@ == before);
                        self.fail(error)
                    },
                    Ok(_) => {
                        self.body.append(&mut more);
                        assert(self@ == (DeliveryModel {
                            bytes: before.bytes + bytes@.len(),
                            body: before.body + bytes@,
                            ..before
                        }));
                        DeliveryWork::Wait
                    },
                }
            },
            (DeliveryStage::Reading, DeliveryEvent::DocumentEnded) => {
                let mut document: Vec<u8> = Vec::new();
                core::mem::swap(&mut document, &mut self.body);
                assert(self.body@ =~= Seq::<u8>::empty());
                self.take_reply(document.as_slice());
                self.advance()
            },
            _ => DeliveryWork::Ignore,
        }
    }

    /// What is reported of the task, once it was delivered.
    pub fn receipt(&self) -> (receipt: Option<A2aDelegationReceipt>)
        ensures
            match receipt {
                Some(receipt) => {
                    &&& self@.stage == DeliveryStage::Delivered
                    &&& option_view(receipt.task_id) == self@.collection.task_id
                    &&& option_view(receipt.context_id) == self@.collection.context_id
                    &&& receipt.terminal_state == self@.collection.state
                    &&& receipt.remote_cancel@ == NOT_REQUESTED@
                    &&& views(receipt.messages@) == self@.collection.messages
                    &&& reports_artifacts(
                        self@.collection.ingested,
                        self@.records,
                        receipt.artifacts@,
                    )
                    &&& receipt.safe_references@.map_values(
                        |reference: SafeExternalReference| reference@,
                    ) == self@.collection.references
                },
                None => self@.stage != DeliveryStage::Delivered,
            },
    {
        match self.stage {
            DeliveryStage::Delivered => Some(self.collector.receipt(&self.records)),
            _ => None,
        }
    }

    /// The task that is to be canceled because the delivery is dropped.
    pub fn release(&mut self) -> (task: Option<String>)
        ensures
            option_view(task) == old(self)@.held,
            final(self)@ == (DeliveryModel { held: None, ..old(self)@ }),
    {
        self.lease.release()
    }
}

/// A delivery whose request was sent.
pub open spec fn sent(streaming: bool, request_id: Seq<char>, artifact_limit: nat) -> DeliveryModel {
    DeliveryModel {
        streaming,
        request_id,
        collection: untouched(artifact_limit),
        bytes: 0,
        events: 0,
        body: Seq::empty(),
        queue: Seq::empty(),
        outcome: ReplyOutcome::Nothing,
        doing: None,
        records: Seq::empty(),
        held: None,
        stage: DeliveryStage::Waiting,
    }
}

/// What a delivery keeps to whatever comes in: it takes no more than may come in,
/// neither bytes nor events, and each artifact is stored, being stored, or still to
/// be stored. One that was delivered has nothing left to do.
pub open spec fn orderly(model: DeliveryModel) -> bool {
    &&& model.bytes <= MAX_RESPONSE_BYTES
    &&& model.events <= MAX_STREAM_EVENTS
    &&& model.stage != DeliveryStage::Failed ==> model.collection.ingested.len()
        == model.records.len() + stores(model.collection.effects) + (if model.doing == Some(
        EffectKind::Store,
    ) {
        1int
    } else {
        0
    })
    &&& model.stage == DeliveryStage::Delivered ==> model.collection.effects.len() == 0
        && model.doing is None
}

proof fn advancing_is_orderly(model: DeliveryModel)
    requires
        orderly(DeliveryModel { doing: None, ..model }),
        model.doing != Some(EffectKind::Store),
        model.stage != DeliveryStage::Delivered,
        model.stage != DeliveryStage::Failed,
    ensures
        orderly(advanced(model).0),
        model.held is Some && advanced(model).1 != WorkModel::Finish(Ok(())) ==> advanced(
            model,
        ).0.held == model.held,
    decreases
            model.queue.len(),
            (if model.outcome is Ended {
                0nat
            } else {
                1nat
            }),
{
    let effects = model.collection.effects;
    if effects.len() > 0 {
        crate::a2a::laws::first_store_counts(effects);
    } else if !(model.outcome is Ended) && !(model.outcome matches ReplyOutcome::Taken(Err(_))) {
        let counted = if model.outcome is Taken {
            DeliveryModel {
                held: armed(model.held, model.collection.task_id),
                outcome: ReplyOutcome::Nothing,
                doing: None,
                ..model
            }
        } else {
            model
        };
        if counted.queue.len() > 0 {
            let next = event_taken(counted);
            if let Some(envelope) = json_document(counted.queue[0]) {
                replies_stay_within_bounds(counted.collection, envelope, counted.request_id);
            }
            advancing_is_orderly(next);
        } else if counted.stage == DeliveryStage::Reading && model.outcome is Taken {
            finished_tasks_are_settled(counted.collection);
            advancing_is_orderly(ended(counted));
        }
    }
}

/// However an answer comes in, a delivery keeps to its order: no more of it is taken
/// than may come in, and each of its artifacts is stored, being stored, or still to
/// be stored.
pub proof fn deliveries_stay_orderly(model: DeliveryModel, event: DeliveryEvent)
    requires
        orderly(model),
    ensures
        orderly(delivered(model, event).0),
{
    if model.stage != DeliveryStage::Delivered && model.stage != DeliveryStage::Failed {
        match (model.doing, event) {
            (Some(EffectKind::Tell), DeliveryEvent::Done) => advancing_is_orderly(model),
            (Some(EffectKind::Record), DeliveryEvent::Done) => advancing_is_orderly(model),
            (Some(EffectKind::Store), DeliveryEvent::Stored(record)) => advancing_is_orderly(
                DeliveryModel { records: model.records.push(record), doing: None, ..model },
            ),
            (None, DeliveryEvent::Chunk { len, envelopes: Some(envelopes) }) => {
                if model.stage == DeliveryStage::Streaming && model.bytes + len
                    <= MAX_RESPONSE_BYTES {
                    advancing_is_orderly(
                        DeliveryModel {
                            bytes: model.bytes + len as nat,
                            queue: byte_views(envelopes@),
                            ..model
                        },
                    );
                }
            },
            (None, DeliveryEvent::StreamEnded { well_formed: true }) => {
                finished_tasks_are_settled(model.collection);
                advancing_is_orderly(ended(model));
            },
            (None, DeliveryEvent::DocumentEnded) => {
                if let Some(envelope) = json_document(model.body) {
                    replies_stay_within_bounds(model.collection, envelope, model.request_id);
                }
                advancing_is_orderly(
                    reply_taken(DeliveryModel { body: Seq::empty(), ..model }, model.body),
                );
            },
            _ => {},
        }
    }
}

/// A delivery begins in order.
pub proof fn deliveries_begin_orderly(streaming: bool, request_id: Seq<char>, artifact_limit: nat)
    ensures
        orderly(sent(streaming, request_id, artifact_limit)),
{
}

/// Every artifact of a delivered task has the record of the store.
pub proof fn receipts_have_every_record(model: DeliveryModel)
    requires
        orderly(model),
        model.stage == DeliveryStage::Delivered,
    ensures
        model.records.len() == model.collection.ingested.len(),
{
}

/// A task that the delivery has heard of is given up only when it has ended well;
/// otherwise it is left to be canceled.
pub proof fn tasks_are_not_abandoned(model: DeliveryModel, event: DeliveryEvent)
    requires
        orderly(model),
        model.held is Some,
    ensures
        delivered(model, event).1 != WorkModel::Finish(Ok(())) ==> delivered(model, event).0.held
            == model.held,
{
    if model.stage != DeliveryStage::Delivered && model.stage != DeliveryStage::Failed {
        match (model.doing, event) {
            (Some(EffectKind::Tell), DeliveryEvent::Done) => advancing_is_orderly(model),
            (Some(EffectKind::Record), DeliveryEvent::Done) => advancing_is_orderly(model),
            (Some(EffectKind::Store), DeliveryEvent::Stored(record)) => advancing_is_orderly(
                DeliveryModel { records: model.records.push(record), doing: None, ..model },
            ),
            (None, DeliveryEvent::Chunk { len, envelopes: Some(envelopes) }) => {
                if model.stage == DeliveryStage::Streaming && model.bytes + len
                    <= MAX_RESPONSE_BYTES {
                    advancing_is_orderly(
                        DeliveryModel {
                            bytes: model.bytes + len as nat,
                            queue: byte_views(envelopes@),
                            ..model
                        },
                    );
                }
            },
            (None, DeliveryEvent::StreamEnded { well_formed: true }) => {
                finished_tasks_are_settled(model.collection);
                advancing_is_orderly(ended(model));
            },
            (None, DeliveryEvent::DocumentEnded) => {
                if let Some(envelope) = json_document(model.body) {
                    replies_stay_within_bounds(model.collection, envelope, model.request_id);
                }
                advancing_is_orderly(
                    reply_taken(DeliveryModel { body: Seq::empty(), ..model }, model.body),
                );
            },
            _ => {},
        }
    }
}

/// An effect that cannot be done ends the delivery with its own error, whatever the
/// reply that led to it came to, and the task of that reply is not held.
pub proof fn undone_effects_end_the_delivery(model: DeliveryModel)
    requires
        model.stage != DeliveryStage::Delivered,
        model.stage != DeliveryStage::Failed,
        model.doing == Some(EffectKind::Record) || model.doing == Some(EffectKind::Store),
    ensures
        delivered(model, DeliveryEvent::Undone).1 == WorkModel::Finish(
            Err(
                if model.doing == Some(EffectKind::Record) {
                    A2aWireError::State
                } else {
                    A2aWireError::Artifact
                },
            ),
        ),
        delivered(model, DeliveryEvent::Undone).0.held == model.held,
        delivered(model, DeliveryEvent::Undone).0.stage == DeliveryStage::Failed,
{
}

proof fn advancing_does_what_is_next(model: DeliveryModel)
    ensures
        model.collection.effects.len() > 0 ==> advanced(model).1 == WorkModel::Perform(
            model.collection.effects[0],
        ) && advanced(model).0.collection.effects == model.collection.effects.drop_first()
            && advanced(model).0.doing == Some(kind_of(model.collection.effects[0])),
        advanced(model).1 matches WorkModel::Perform(effect) ==> advanced(model).0.doing == Some(
            kind_of(effect),
        ),
        advanced(model).1 == WorkModel::Finish(Ok(())) ==> advanced(model).0.stage
            == DeliveryStage::Delivered && advanced(model).0.held is None
            && advanced(model).0.collection.effects.len() == 0,
        (advanced(model).1 matches WorkModel::Finish(Err(_))) ==> advanced(model).0.stage
            == DeliveryStage::Failed,
        advanced(model).1 is Wait ==> advanced(model).0.doing is None
            && advanced(model).0.collection.effects.len() == 0,
        advanced(model).1 !is Ignore,
        advanced(model).0.records == model.records,
    decreases
            model.queue.len(),
            (if model.outcome is Ended {
                0nat
            } else {
                1nat
            }),
{
    if model.collection.effects.len() == 0 {
        match model.outcome {
            ReplyOutcome::Taken(Ok(_)) => {
                let counted = DeliveryModel {
                    held: armed(model.held, model.collection.task_id),
                    outcome: ReplyOutcome::Nothing,
                    doing: None,
                    ..model
                };
                if counted.queue.len() > 0 {
                    advancing_does_what_is_next(event_taken(counted));
                } else if counted.stage == DeliveryStage::Reading {
                    advancing_does_what_is_next(ended(counted));
                }
            },
            ReplyOutcome::Nothing => {
                if model.queue.len() > 0 {
                    advancing_does_what_is_next(event_taken(model));
                }
            },
            _ => {},
        }
    }
}

/// What a reply calls for is done in its order and one at a time: the next is done once the
/// one before is, and a record of the store is kept for every artifact that was stored.
pub proof fn effects_are_done_in_order(model: DeliveryModel, record: ArtifactRecord)
    requires
        model.stage != DeliveryStage::Delivered,
        model.stage != DeliveryStage::Failed,
    ensures
        model.doing == Some(EffectKind::Tell) || model.doing == Some(EffectKind::Record) ==> (
        model.collection.effects.len() > 0 ==> delivered(model, DeliveryEvent::Done).1
            == WorkModel::Perform(model.collection.effects[0])),
        model.doing == Some(EffectKind::Store) ==> {
            &&& model.collection.effects.len() > 0 ==> delivered(
                model,
                DeliveryEvent::Stored(record),
            ).1 == WorkModel::Perform(model.collection.effects[0])
            &&& delivered(model, DeliveryEvent::Stored(record)).0.records == model.records.push(
                record,
            )
            &&& delivered(model, DeliveryEvent::Done).1 is Ignore
        },
{
    advancing_does_what_is_next(model);
    advancing_does_what_is_next(
        DeliveryModel { records: model.records.push(record), doing: None, ..model },
    );
}

/// A delivery that ended well has done everything that its replies called for and leaves
/// nothing to be cancelled; one that failed stays failed, and nothing is done after either.
pub proof fn deliveries_end_once(model: DeliveryModel, event: DeliveryEvent)
    ensures
        delivered(model, event).1 == WorkModel::Finish(Ok(())) ==> delivered(model, event).0.stage
            == DeliveryStage::Delivered && delivered(model, event).0.held is None && delivered(
            model,
            event,
        ).0.collection.effects.len() == 0,
        (delivered(model, event).1 matches WorkModel::Finish(Err(_))) ==> delivered(
            model,
            event,
        ).0.stage == DeliveryStage::Failed,
        model.stage == DeliveryStage::Delivered || model.stage == DeliveryStage::Failed
            ==> delivered(model, event) == (model, WorkModel::Ignore),
{
    if model.stage != DeliveryStage::Delivered && model.stage != DeliveryStage::Failed {
        match (model.doing, event) {
            (Some(EffectKind::Tell), DeliveryEvent::Done) => advancing_does_what_is_next(model),
            (Some(EffectKind::Record), DeliveryEvent::Done) => advancing_does_what_is_next(model),
            (Some(EffectKind::Store), DeliveryEvent::Stored(record)) => {
                advancing_does_what_is_next(
                    DeliveryModel { records: model.records.push(record), doing: None, ..model },
                );
            },
            (None, DeliveryEvent::Chunk { len, envelopes: Some(envelopes) }) => {
                advancing_does_what_is_next(
                    DeliveryModel {
                        bytes: model.bytes + len as nat,
                        queue: byte_views(envelopes@),
                        ..model
                    },
                );
            },
            (None, DeliveryEvent::StreamEnded { well_formed: true }) => {
                advancing_does_what_is_next(ended(model));
            },
            (None, DeliveryEvent::DocumentEnded) => {
                advancing_does_what_is_next(
                    reply_taken(DeliveryModel { body: Seq::empty(), ..model }, model.body),
                );
            },
            _ => {},
        }
    }
}

/// What goes wrong ends a waiting delivery with its own error: a fault with that fault, a
/// cancellation as one, a refused status by its failure, a reply of another form by its form,
/// and one that is too large or malformed as that. A cancelled stream leaves its task to be
/// cancelled.
pub proof fn deliveries_fail_for_cause(model: DeliveryModel)
    requires
        model.doing is None,
        model.stage != DeliveryStage::Delivered,
        model.stage != DeliveryStage::Failed,
    ensures
        forall|error: A2aWireError| #[trigger]
            delivered(model, DeliveryEvent::Fault(error)).1 == WorkModel::Finish(Err(error)),
        delivered(model, DeliveryEvent::Cancelled).1 == WorkModel::Finish(
            Err(A2aWireError::Cancelled),
        ),
        model.stage == DeliveryStage::Streaming && model.held is None ==> delivered(
            model,
            DeliveryEvent::Cancelled,
        ).0.held == model.collection.task_id,
        model.stage == DeliveryStage::Streaming ==> delivered(
            model,
            DeliveryEvent::StreamEnded { well_formed: false },
        ).1 == WorkModel::Finish(Err(A2aWireError::Protocol)),
        forall|status: u16, content_type: Option<String>, length: Option<u64>|
            model.stage == DeliveryStage::Waiting && status_failure(status) is Some ==> (
            #[trigger] delivered(
                model,
                DeliveryEvent::Answered { status, content_type, length },
            )).1 == WorkModel::Finish(Err(status_failure(status)->0)),
{
}

/// A document is read as the bytes that came, in their order, and no more than 16 MiB of it.
pub proof fn documents_are_read_whole(model: DeliveryModel, bytes: Vec<u8>)
    requires
        model.doing is None,
        model.stage == DeliveryStage::Reading,
    ensures
        model.bytes + bytes@.len() <= 16777216 ==> {
            &&& delivered(model, DeliveryEvent::Part { bytes }).1 is Wait
            &&& delivered(model, DeliveryEvent::Part { bytes }).0.body == model.body + bytes@
            &&& delivered(model, DeliveryEvent::Part { bytes }).0.bytes == model.bytes
                + bytes@.len()
            &&& delivered(model, DeliveryEvent::Part { bytes }).0.stage == DeliveryStage::Reading
        },
        model.bytes + bytes@.len() > 16777216 ==> delivered(
            model,
            DeliveryEvent::Part { bytes },
        ).1 == WorkModel::Finish(Err(A2aWireError::TooLarge)),
        json_document(model.body) is None && model.collection.effects.len() == 0 ==> delivered(
            model,
            DeliveryEvent::DocumentEnded,
        ).1 == WorkModel::Finish(Err(A2aWireError::Protocol)),
{
}

/// A receipt is given for a delivery that was made, and for no other; it tells the state
/// that the agent reported, its messages in their order and one artifact for each that was
/// kept, and claims no cancellation.
pub proof fn receipts_tell_the_delivery(
    delivery: &Delivery,
    receipt: Option<A2aDelegationReceipt>,
)
    requires
        call_ensures(Delivery::receipt, (delivery,), receipt),
    ensures
        receipt is Some <==> delivery@.stage == DeliveryStage::Delivered,
        receipt matches Some(told) ==> {
            &&& told.terminal_state == delivery@.collection.state
            &&& told.messages@.len() == delivery@.collection.messages.len()
            &&& forall|i: int|
                0 <= i < told.messages@.len() ==> (#[trigger] told.messages@[i])@
                    == delivery@.collection.messages[i]
            &&& told.artifacts@.len() <= delivery@.records.len()
            &&& told.artifacts@.len() <= delivery@.collection.ingested.len()
            &&& told.safe_references@.len() == delivery@.collection.references.len()
            &&& option_view(told.task_id) == delivery@.collection.task_id
            &&& told.remote_cancel@ == NOT_REQUESTED@
        },
{
    if let Some(told) = receipt {
        assert(views(told.messages@).len() == told.messages@.len());
        assert forall|i: int| 0 <= i < told.messages@.len() implies (
        #[trigger] told.messages@[i])@ == delivery@.collection.messages[i] by {
            assert(views(told.messages@)[i] == told.messages@[i]@);
        }
        assert(told.safe_references@.map_values(
            |reference: SafeExternalReference| reference@,
        ).len() == told.safe_references@.len());
    }
}

}
