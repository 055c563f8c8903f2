//! The decisions around one exchange with an external agent.

use crate::a2a::validation::{A2aWireError, MAX_RESPONSE_BYTES, MAX_STREAM_EVENTS};
use crate::json::{json_document, read_json, Json};
use crate::outbound::{RecipientIdentity, RecipientKind};
use crate::text::{first_index, split_once, text_eq, trim, trimmed};
use vstd::prelude::*;

verus! {

/// The protocol version that both sides must speak.
pub const A2A_PROTOCOL_VERSION: &'static str = "1.0";

/// How long one exchange may take, in seconds.
pub const REQUEST_SECONDS: u64 = 120;

/// How long a cancellation may take, in seconds.
pub const CANCEL_SECONDS: u64 = 5;

/// The method that sends a message.
pub fn send_method(streaming: bool) -> (method: &'static str)
    ensures
        method@ == if streaming {
            "SendStreamingMessage"@
        } else {
            "SendMessage"@
        },
{
    if streaming {
        "SendStreamingMessage"
    } else {
        "SendMessage"
    }
}

/// The media type that a reply is asked for in.
pub fn accepted_type(streaming: bool) -> (media_type: &'static str)
    ensures
        media_type@ == if streaming {
            "text/event-stream"@
        } else {
            "application/json"@
        },
{
    if streaming {
        "text/event-stream"
    } else {
        "application/json"
    }
}

/// Whether a delivery may go to a recipient: to the very agent that was
/// reviewed, and not empty.
pub fn admits_delivery(recipient: &RecipientIdentity, reviewed_digest: &str, items: usize) -> (yes:
    bool)
    ensures
        yes == (recipient.kind == RecipientKind::ExternalAgent && recipient.identity_digest@
            == reviewed_digest@ && items > 0),
{
    let external = match recipient.kind {
        RecipientKind::ExternalAgent => true,
        RecipientKind::McpServer => false,
    };
    external && text_eq(recipient.identity_digest.as_str(), reviewed_digest) && items > 0
}

/// What the status of a reply means, if it is no success.
pub open spec fn status_failure(status: u16) -> Option<A2aWireError> {
    if status == 401 || status == 403 {
        Some(A2aWireError::Unauthorized)
    } else if status == 429 {
        Some(A2aWireError::RateLimited)
    } else if 300 <= status < 400 {
        Some(A2aWireError::Protocol)
    } else if 200 <= status < 300 {
        None
    } else {
        Some(A2aWireError::Http)
    }
}

/// Decides on the status of a reply.
pub fn check_status(status: u16) -> (checked: Result<(), A2aWireError>)
    ensures
        checked == (match status_failure(status) {
            Some(error) => Err::<(), A2aWireError>(error),
            None => Ok::<(), A2aWireError>(()),
        }),
{
    if status == 401 || status == 403 {
        Err(A2aWireError::Unauthorized)
    } else if status == 429 {
        Err(A2aWireError::RateLimited)
    } else if 300 <= status && status < 400 {
        Err(A2aWireError::Protocol)
    } else if 200 <= status && status < 300 {
        Ok(())
    } else {
        Err(A2aWireError::Http)
    }
}

/// In which form a reply comes.
#[derive(Clone, Copy, PartialEq, Eq, Structural, Debug)]
pub enum ReplyForm {
    EventStream,
    Document,
}

/// The media type without its parameters.
pub open spec fn bare_type(header: Seq<char>) -> Seq<char> {
    trimmed(header.take(first_index(header, ';') as int))
}

/// The form of a reply by its content type: the one that was asked for, or
/// none.
pub open spec fn form_of(header: Option<Seq<char>>, streaming: bool) -> Option<ReplyForm> {
    match header {
        Some(header) => if streaming && bare_type(header) == "text/event-stream"@ {
            Some(ReplyForm::EventStream)
        } else if !streaming && (bare_type(header) == "application/json"@ || bare_type(header)
            == "application/a2a+json"@) {
            Some(ReplyForm::Document)
        } else {
            None
        },
        None => None,
    }
}

fn media_type(header: &str) -> (bare: String)
    ensures
        bare@ == bare_type(header@),
{
    match split_once(header, ';') {
        Some((first, _)) => trim(first.as_str()),
        None => {
            assert(header@.take(header@.len() as int) =~= header@);
            trim(header)
        },
    }
}

/// Decides on the content type of a reply.
pub fn reply_form(header: Option<&str>, streaming: bool) -> (form: Result<ReplyForm, A2aWireError>)
    ensures
        form == (match form_of(
            (match header {
                Some(text) => Some(text@),
                None => None,
            }),
            streaming,
        ) {
            Some(form) => Ok::<ReplyForm, A2aWireError>(form),
            None => Err::<ReplyForm, A2aWireError>(A2aWireError::MediaType),
        }),
{
    let bare = match header {
        Some(header) => media_type(header),
        None => {
            return Err(A2aWireError::MediaType);
        },
    };
    if streaming {
        if text_eq(bare.as_str(), "text/event-stream") {
            Ok(ReplyForm::EventStream)
        } else {
            Err(A2aWireError::MediaType)
        }
    } else if text_eq(bare.as_str(), "application/json") || text_eq(
        bare.as_str(),
        "application/a2a+json",
    ) {
        Ok(ReplyForm::Document)
    } else {
        Err(A2aWireError::MediaType)
    }
}

/// How much of a reply has come in.
#[derive(Clone, Copy, PartialEq, Eq, Debug)]
pub struct ReplyMeter {
    bytes: usize,
    events: usize,
}

impl ReplyMeter {
    /// The bytes so far.
    pub closed spec fn bytes(self) -> nat {
        self.bytes as nat
    }

    /// The events so far.
    pub closed spec fn events(self) -> nat {
        self.events as nat
    }

    /// A meter before anything came in.
    pub fn new() -> (meter: ReplyMeter)
        ensures
            meter.bytes() == 0,
            meter.events() == 0,
    {
        ReplyMeter { bytes: 0, events: 0 }
    }

    /// Counts a chunk of a reply; one that makes the reply too large is refused.
    pub fn chunk(&mut self, len: usize) -> (taken: Result<(), A2aWireError>)
        ensures
            taken == (if old(self).bytes() + len > MAX_RESPONSE_BYTES {
                Err::<(), A2aWireError>(A2aWireError::TooLarge)
            } else {
                Ok::<(), A2aWireError>(())
            }),
            taken is Ok ==> final(self).bytes() == old(self).bytes() + len,
            taken is Err ==> final(self).bytes() == old(self).bytes(),
            final(self).events() == old(self).events(),
    {
        if self.bytes > MAX_RESPONSE_BYTES || len > MAX_RESPONSE_BYTES - self.bytes {
            return Err(A2aWireError::TooLarge);
        }
        self.bytes = self.bytes + len;
        Ok(())
    }

    /// Counts an event of a reply; one too many is refused.
    pub fn event(&mut self) -> (taken: Result<(), A2aWireError>)
        ensures
            taken == (if old(self).events() + 1 > MAX_STREAM_EVENTS {
                Err::<(), A2aWireError>(A2aWireError::TooManyEvents)
            } else {
                Ok::<(), A2aWireError>(())
            }),
            taken is Ok ==> final(self).events() == old(self).events() + 1,
            taken is Err ==> final(self).events() == old(self).events(),
            final(self).bytes() == old(self).bytes(),
    {
        if self.events >= MAX_STREAM_EVENTS {
            return Err(A2aWireError::TooManyEvents);
        }
        self.events = self.events + 1;
        Ok(())
    }
}

/// Whether a reply of an announced length may be read at all.
pub fn check_length(length: Option<u64>) -> (checked: Result<(), A2aWireError>)
    ensures
        checked == (if length matches Some(length) && length > MAX_RESPONSE_BYTES {
            Err::<(), A2aWireError>(A2aWireError::TooLarge)
        } else {
            Ok::<(), A2aWireError>(())
        }),
{
    match length {
        Some(length) => if length > MAX_RESPONSE_BYTES as u64 {
            Err(A2aWireError::TooLarge)
        } else {
            Ok(())
        },
        None => Ok(()),
    }
}

/// How an exchange failed below the protocol.
#[derive(Clone, Copy, PartialEq, Eq, Debug)]
pub struct RequestFault {
    pub timeout: bool,
    pub connect: bool,
}

/// Classifies a failed exchange.
pub fn classify_request(fault: RequestFault) -> (error: A2aWireError)
    ensures
        error == (if fault.timeout {
            A2aWireError::TimedOut
        } else if fault.connect {
            A2aWireError::Unavailable
        } else {
            A2aWireError::Protocol
        }),
{
    if fault.timeout {
        A2aWireError::TimedOut
    } else if fault.connect {
        A2aWireError::Unavailable
    } else {
        A2aWireError::Protocol
    }
}

/// What stands under `result`, `task`, `status` and `state`, or without the
/// task where there is none.
pub open spec fn reported_state(reply: Json) -> Option<Json> {
    let nested = path3(reply, "task"@);
    if nested is Some {
        nested
    } else {
        match reply.member("result"@) {
            Some(result) => match result.member("status"@) {
                Some(status) => status.member("state"@),
                None => None,
            },
            None => None,
        }
    }
}

/// What stands under `result`, a key, `status` and `state`.
pub open spec fn path3(reply: Json, key: Seq<char>) -> Option<Json> {
    match reply.member("result"@) {
        Some(result) => match result.member(key) {
            Some(task) => match task.member("status"@) {
                Some(status) => status.member("state"@),
                None => None,
            },
            None => None,
        },
        None => None,
    }
}

/// Whether a reply confirms that the task was canceled.
pub open spec fn confirms(reply: Json) -> bool {
    match reported_state(reply) {
        Some(state) => state.string() == Some("TASK_STATE_CANCELED"@),
        None => false,
    }
}

fn is_canceled(state: &Json) -> (yes: bool)
    ensures
        yes == (state.string() == Some("TASK_STATE_CANCELED"@)),
{
    match state.as_str() {
        Some(name) => text_eq(name, "TASK_STATE_CANCELED"),
        None => false,
    }
}

/// Whether a reply that was read confirms that the task was canceled.
pub fn cancel_confirmed(reply: &Json) -> (yes: bool)
    ensures
        yes == confirms(*reply),
{
    let result = match reply.get("result") {
        Some(result) => result,
        None => {
            return false;
        },
    };
    if let Some(task) = result.get("task") {
        if let Some(status) = task.get("status") {
            if let Some(state) = status.get("state") {
                return is_canceled(state);
            }
        }
    }
    match result.get("status") {
        Some(status) => match status.get("state") {
            Some(state) => is_canceled(state),
            None => false,
        },
        None => false,
    }
}

/// Reads the answer to a cancellation: an answer that is no success confirms
/// nothing, and one that is no JSON is no answer.
pub fn read_cancellation(success: bool, document: &[u8]) -> (confirmed: Result<bool, A2aWireError>)
    ensures
        confirmed == (if !success {
            Ok::<bool, A2aWireError>(false)
        } else {
            match json_document(document@) {
                None => Err(A2aWireError::Protocol),
                Some(reply) => Ok(confirms(reply)),
            }
        }),
{
    if !success {
        return Ok(false);
    }
    match read_json(document) {
        None => Err(A2aWireError::Protocol),
        Some(reply) => Ok(cancel_confirmed(&reply)),
    }
}

/// A reply counts as an answer exactly where its status is one of success; a refused
/// identity, a limit that was hit and a redirection are told apart from other failures.
pub proof fn only_success_is_read(status: u16)
    ensures
        status_failure(status) is None <==> status / 100 == 2,
        status_failure(status) == Some(A2aWireError::Unauthorized) <==> (status == 401 || status
            == 403),
        status_failure(status) == Some(A2aWireError::RateLimited) <==> status == 429,
        status_failure(status) == Some(A2aWireError::Protocol) <==> status / 100 == 3,
{
}

/// A reply is read in the form that was asked for and in no other, whatever parameters
/// stand behind its media type.
pub proof fn replies_come_as_asked(header: Seq<char>, streaming: bool)
    ensures
        form_of(Some(header), streaming) == Some(ReplyForm::EventStream) ==> streaming && bare_type(
            header,
        ) == "text/event-stream"@,
        form_of(Some(header), streaming) == Some(ReplyForm::Document) ==> !streaming && (bare_type(
            header,
        ) == "application/json"@ || bare_type(header) == "application/a2a+json"@),
        streaming && bare_type(header) == "text/event-stream"@ ==> form_of(Some(header), streaming)
            is Some,
        !streaming && bare_type(header) == "application/json"@ ==> form_of(Some(header), streaming)
            is Some,
        form_of(None, streaming) is None,
{
}

/// A cancellation is confirmed only by an agent that says the task is canceled.
pub proof fn cancellations_are_confirmed_in_words(reply: Json)
    ensures
        confirms(reply) ==> (reported_state(reply) matches Some(state) && state.string() == Some(
            "TASK_STATE_CANCELED"@,
        )),
        confirms(reply) ==> reply.member("result"@) is Some,
        reply.member("result"@) matches Some(result) ==> (result.member("task"@) is None ==> (
        result.member("status"@) matches Some(status) ==> (status.member_string("state"@) == Some(
            "TASK_STATE_CANCELED"@,
        ) ==> confirms(reply)))),
{
}

/// A reply is read up to 16 MiB and 256 events: each is counted once, and what goes beyond
/// is refused and not counted. A length that is announced is held to the same limit.
pub proof fn replies_are_bounded(
    counting: &mut ReplyMeter,
    len: usize,
    chunk: Result<(), A2aWireError>,
    following: &mut ReplyMeter,
    event: Result<(), A2aWireError>,
    length: Option<u64>,
    announced: Result<(), A2aWireError>,
)
    requires
        call_ensures(ReplyMeter::chunk, (counting, len), chunk),
        call_ensures(ReplyMeter::event, (following,), event),
        call_ensures(check_length, (length,), announced),
    ensures
        chunk is Ok <==> old(counting).bytes() + len <= 16 * 1024 * 1024,
        chunk is Ok ==> final(counting).bytes() == old(counting).bytes() + len,
        chunk is Err ==> final(counting).bytes() == old(counting).bytes(),
        final(counting).events() == old(counting).events(),
        event is Ok <==> old(following).events() < 256,
        event is Ok ==> final(following).events() == old(following).events() + 1,
        final(following).bytes() == old(following).bytes(),
        announced is Err <==> length is Some && length->0 > 16 * 1024 * 1024,
        chunk matches Err(error) ==> error == A2aWireError::TooLarge,
        event matches Err(error) ==> error == A2aWireError::TooManyEvents,
{
}

/// A request that took too long is told apart from one that reached nobody, and both from
/// one that went wrong otherwise.
pub proof fn faults_are_told_apart(fault: RequestFault, error: A2aWireError)
    requires
        call_ensures(classify_request, (fault,), error),
    ensures
        error == A2aWireError::TimedOut <==> fault.timeout,
        error == A2aWireError::Unavailable <==> fault.connect && !fault.timeout,
        error == A2aWireError::Protocol <==> !fault.connect && !fault.timeout,
{
}

/// A cancellation counts as confirmed only where the request succeeded and the agent's
/// answer says so; an answer that cannot be read confirms nothing.
pub proof fn unread_answers_confirm_nothing(
    success: bool,
    document: &[u8],
    confirmed: Result<bool, A2aWireError>,
)
    requires
        call_ensures(read_cancellation, (success, document), confirmed),
    ensures
        confirmed == Ok::<bool, A2aWireError>(true) ==> success && (json_document(document@)
            matches Some(reply) && confirms(reply)),
        !success ==> confirmed == Ok::<bool, A2aWireError>(false),
        success && json_document(document@) is None ==> confirmed is Err,
        success ==> (json_document(document@) matches Some(reply) ==> confirmed == Ok::<
            bool,
            A2aWireError,
        >(confirms(reply))),
{
}

}
