//! What may be sent to an external agent and what is taken from one.

use crate::json::Json;
use crate::text::{
    blank, byte_count, byte_len, contains_control, control, has_control, is_blank, is_control,
    lower_char, lowered, option_view, text_eq,
};
use vstd::prelude::*;

verus! {

pub const MAX_TASK_BYTES: usize = 65536;

pub const MAX_SELECTED_MESSAGES: usize = 16;

pub const MAX_SELECTED_FILES: usize = 16;

pub const MAX_SELECTED_ARTIFACTS: usize = 16;

pub const MAX_MESSAGE_BYTES: usize = 65536;

pub const MAX_RETAINED_MESSAGE_BYTES: usize = 1048576;

pub const MAX_RESPONSE_BYTES: usize = 16777216;

pub const MAX_STREAM_EVENTS: usize = 256;

pub const MAX_REMOTE_ARTIFACTS: usize = 64;

pub const MAX_SAFE_REFERENCES: usize = 64;

pub const MAX_ID_BYTES: usize = 512;

pub const MAX_FILENAME_BYTES: usize = 256;

pub const MAX_MEDIA_TYPE_BYTES: usize = 128;

pub const MAX_URL_BYTES: usize = 2048;

/// What went wrong between the two agents.
#[derive(Clone, Copy, PartialEq, Eq, Structural, Debug)]
pub enum A2aWireError {
    Unavailable,
    TimedOut,
    Cancelled,
    Unauthorized,
    RateLimited,
    Http,
    MediaType,
    Protocol,
    Remote,
    TooLarge,
    TooManyEvents,
    TooManyArtifacts,
    Artifact,
    State,
}

/// How a failed delivery is reported to the outbound gate.
#[derive(Clone, Copy, PartialEq, Eq, Structural, Debug)]
pub enum OutboundTransportFailure {
    Unavailable,
    TimedOut,
    Cancelled,
    Rejected,
    Protocol,
}

impl A2aWireError {
    /// The class of a failure.
    pub open spec fn class(self) -> OutboundTransportFailure {
        match self {
            A2aWireError::Unavailable => OutboundTransportFailure::Unavailable,
            A2aWireError::TimedOut => OutboundTransportFailure::TimedOut,
            A2aWireError::Cancelled => OutboundTransportFailure::Cancelled,
            A2aWireError::Unauthorized
            | A2aWireError::RateLimited
            | A2aWireError::Http
            | A2aWireError::Remote => OutboundTransportFailure::Rejected,
            _ => OutboundTransportFailure::Protocol,
        }
    }

    /// Classifies a failure for the outbound gate.
    pub fn classify(self) -> (failure: OutboundTransportFailure)
        ensures
            failure == self.class(),
    {
        match self {
            A2aWireError::Unavailable => OutboundTransportFailure::Unavailable,
            A2aWireError::TimedOut => OutboundTransportFailure::TimedOut,
            A2aWireError::Cancelled => OutboundTransportFailure::Cancelled,
            A2aWireError::Unauthorized => OutboundTransportFailure::Rejected,
            A2aWireError::RateLimited => OutboundTransportFailure::Rejected,
            A2aWireError::Http => OutboundTransportFailure::Rejected,
            A2aWireError::Remote => OutboundTransportFailure::Rejected,
            A2aWireError::MediaType => OutboundTransportFailure::Protocol,
            A2aWireError::Protocol => OutboundTransportFailure::Protocol,
            A2aWireError::TooLarge => OutboundTransportFailure::Protocol,
            A2aWireError::TooManyEvents => OutboundTransportFailure::Protocol,
            A2aWireError::TooManyArtifacts => OutboundTransportFailure::Protocol,
            A2aWireError::Artifact => OutboundTransportFailure::Protocol,
            A2aWireError::State => OutboundTransportFailure::Protocol,
        }
    }
}

/// Whether a character could mislead a reader: a control other than line breaks
/// and tabs, or a mark that changes the direction of text.
pub open spec fn is_unsafe(c: char) -> bool {
    ||| is_control(c) && c != '\n' && c != '\r' && c != '\t'
    ||| c == '\u{061c}'
    ||| c == '\u{200e}'
    ||| c == '\u{200f}'
    ||| '\u{202a}' <= c <= '\u{202e}'
    ||| '\u{2066}' <= c <= '\u{2069}'
}

/// Whether a text holds a misleading character.
pub open spec fn has_unsafe(text: Seq<char>) -> bool {
    exists|i: int| 0 <= i < text.len() && is_unsafe(#[trigger] text[i])
}

/// Whether a text holds a misleading character.
pub fn contains_unsafe_controls(value: &str) -> (found: bool)
    ensures
        found == has_unsafe(value@),
{
    for c in iter: value.chars()
        invariant
            iter.seq() == value@,
            forall|j: int| 0 <= j < iter.index() ==> !is_unsafe(#[trigger] value@[j]),
    {
        assert(c == value@[iter.index() as int]);
        if (control(c) && c != '\n' && c != '\r' && c != '\t') || c == '\u{061c}' || c == '\u{200e}'
            || c == '\u{200f}' || ('\u{202a}' <= c && c <= '\u{202e}') || ('\u{2066}' <= c && c
            <= '\u{2069}') {
            assert(is_unsafe(value@[iter.index() as int]));
            return true;
        }
    }
    false
}

/// Whether a text may be delegated as a task.
pub open spec fn task_text(text: Seq<char>) -> bool {
    !is_blank(text) && byte_count(text) <= MAX_TASK_BYTES && !has_unsafe(text)
}

/// Whether a text may be sent along as a message.
pub open spec fn message_text(text: Seq<char>) -> bool {
    text.len() > 0 && byte_count(text) <= MAX_MESSAGE_BYTES && !has_unsafe(text)
}

/// Whether a text may be taken from an external agent.
pub open spec fn remote_text(text: Seq<char>) -> bool {
    byte_count(text) <= MAX_MESSAGE_BYTES && !has_unsafe(text)
}

pub const TASK_TEXT: &'static str = "delegated task must be non-blank, safe text at most 65536 bytes";

pub const MESSAGE_TEXT: &'static str = "selected messages must be safe text at most 65536 bytes";

pub const FILENAME: &'static str = "artifact filename must be one safe path component at most 256 bytes";

/// Checks the text of a task before it is sent.
pub fn validate_task_text(value: &str) -> (checked: Result<(), String>)
    ensures
        checked is Ok == task_text(value@),
        checked matches Err(text) ==> text@ == TASK_TEXT@,
{
    if blank(value) || byte_len(value) > MAX_TASK_BYTES || contains_unsafe_controls(value) {
        Err(TASK_TEXT.to_owned())
    } else {
        Ok(())
    }
}

/// Checks the text of a selected message before it is sent.
pub fn validate_message_text(value: &str) -> (checked: Result<(), String>)
    ensures
        checked is Ok == message_text(value@),
        checked matches Err(text) ==> text@ == MESSAGE_TEXT@,
{
    if value.is_empty() || byte_len(value) > MAX_MESSAGE_BYTES || contains_unsafe_controls(value) {
        Err(MESSAGE_TEXT.to_owned())
    } else {
        Ok(())
    }
}

/// Checks a text that an external agent sent.
pub fn validate_remote_text(value: &str) -> (checked: Result<(), A2aWireError>)
    ensures
        checked == (if remote_text(value@) {
            Ok::<(), A2aWireError>(())
        } else {
            Err::<(), A2aWireError>(A2aWireError::Protocol)
        }),
{
    if byte_len(value) > MAX_MESSAGE_BYTES || contains_unsafe_controls(value) {
        Err(A2aWireError::Protocol)
    } else {
        Ok(())
    }
}

/// Whether a text names exactly one component of a path.
pub open spec fn one_component(text: Seq<char>) -> bool {
    !text.contains('/') && text != "."@ && text != ".."@
}

/// Whether a text may name an artifact's file.
pub open spec fn filename(text: Seq<char>) -> bool {
    text.len() > 0 && byte_count(text) <= MAX_FILENAME_BYTES && !has_control(text) && one_component(
        text,
    )
}

fn has_slash(value: &str) -> (found: bool)
    ensures
        found == value@.contains('/'),
{
    for c in iter: value.chars()
        invariant
            iter.seq() == value@,
            forall|j: int| 0 <= j < iter.index() ==> (#[trigger] value@[j]) != '/',
    {
        assert(c == value@[iter.index() as int]);
        if c == '/' {
            return true;
        }
    }
    false
}

/// Checks the file name of an artifact: one component of a path whose
/// components are parted by `/`.
pub fn validate_filename(value: &str) -> (checked: Result<(), String>)
    ensures
        checked is Ok == filename(value@),
        checked matches Err(text) ==> text@ == FILENAME@,
{
    if value.is_empty() || byte_len(value) > MAX_FILENAME_BYTES || contains_control(value)
        || has_slash(value) || text_eq(value, ".") || text_eq(value, "..") {
        Err(FILENAME.to_owned())
    } else {
        Ok(())
    }
}

/// Whether a text may identify a task, a context or an artifact.
pub open spec fn identifier(text: Seq<char>) -> bool {
    0 < text.len() && byte_count(text) <= MAX_ID_BYTES && !has_control(text)
}

/// The identifier that an optional member holds.
pub open spec fn id_of(value: Option<Json>) -> Result<Option<Seq<char>>, A2aWireError> {
    match value {
        None => Ok(None),
        Some(json) => match json.string() {
            Some(text) if identifier(text) => Ok(Some(text)),
            _ => Err(A2aWireError::Protocol),
        },
    }
}

/// The identifier that a member must hold.
pub open spec fn needed_id(value: Option<Json>) -> Result<Seq<char>, A2aWireError> {
    match id_of(value) {
        Ok(Some(text)) => Ok(text),
        _ => Err(A2aWireError::Protocol),
    }
}

/// Reads an identifier that may be missing.
pub fn optional_id(value: Option<&Json>) -> (id: Result<Option<String>, A2aWireError>)
    ensures
        match id {
            Ok(Some(text)) => id_of(unref(value)) == Ok::<Option<Seq<char>>, A2aWireError>(
                Some(text@),
            ),
            Ok(None) => id_of(unref(value)) == Ok::<Option<Seq<char>>, A2aWireError>(None),
            Err(error) => id_of(unref(value)) == Err::<Option<Seq<char>>, A2aWireError>(error),
        },
{
    match value {
        None => Ok(None),
        Some(json) => match json.as_str() {
            Some(text) => if !text.is_empty() && byte_len(text) <= MAX_ID_BYTES
                && !contains_control(text) {
                Ok(Some(text.to_owned()))
            } else {
                Err(A2aWireError::Protocol)
            },
            None => Err(A2aWireError::Protocol),
        },
    }
}

/// The value behind an optional reference.
pub open spec fn unref(value: Option<&Json>) -> Option<Json> {
    match value {
        Some(json) => Some(*json),
        None => None,
    }
}

/// Reads an identifier that must be there.
pub fn required_id(value: Option<&Json>) -> (id: Result<String, A2aWireError>)
    ensures
        match id {
            Ok(text) => needed_id(unref(value)) == Ok::<Seq<char>, A2aWireError>(text@),
            Err(error) => needed_id(unref(value)) == Err::<Seq<char>, A2aWireError>(error),
        },
{
    match optional_id(value) {
        Ok(Some(text)) => Ok(text),
        _ => Err(A2aWireError::Protocol),
    }
}

/// The short text that an optional member holds, or a default.
pub open spec fn text_or(value: Option<Json>, default: Seq<char>, limit: nat) -> Result<
    Seq<char>,
    A2aWireError,
> {
    let text = match value {
        Some(json) => json.string(),
        None => Some(default),
    };
    match text {
        Some(text) if 0 < text.len() && byte_count(text) <= limit && !has_control(text) => Ok(text),
        _ => Err(A2aWireError::Protocol),
    }
}

/// Reads a short text that may be missing.
pub fn optional_text(value: Option<&Json>, default: &str, limit: usize) -> (text: Result<
    String,
    A2aWireError,
>)
    ensures
        match text {
            Ok(held) => text_or(unref(value), default@, limit as nat) == Ok::<
                Seq<char>,
                A2aWireError,
            >(held@),
            Err(error) => text_or(unref(value), default@, limit as nat) == Err::<
                Seq<char>,
                A2aWireError,
            >(error),
        },
{
    let text = match value {
        Some(json) => json.as_str(),
        None => Some(default),
    };
    match text {
        Some(text) => if text.is_empty() || byte_len(text) > limit || contains_control(text) {
            Err(A2aWireError::Protocol)
        } else {
            Ok(text.to_owned())
        },
        None => Err(A2aWireError::Protocol),
    }
}

/// What is read off a URL.
#[derive(Debug, PartialEq, Eq)]
pub struct UrlParts {
    pub scheme: String,
    pub username: String,
    pub password: Option<String>,
    pub host: Option<String>,
    pub query: Option<String>,
    pub fragment: Option<String>,
    pub text: String,
}

/// What is read off a URL, by content.
pub struct UrlModel {
    pub scheme: Seq<char>,
    pub username: Seq<char>,
    pub password: Option<Seq<char>>,
    pub host: Option<Seq<char>>,
    pub query: Option<Seq<char>>,
    pub fragment: Option<Seq<char>>,
    pub text: Seq<char>,
}

/// What a text reads as when it is taken for a URL.
pub uninterp spec fn url_model(text: Seq<char>) -> Option<UrlModel>;

impl View for UrlParts {
    type V = UrlModel;

    open spec fn view(&self) -> UrlModel {
        UrlModel {
            scheme: self.scheme@,
            username: self.username@,
            password: option_view(self.password),
            host: option_view(self.host),
            query: option_view(self.query),
            fragment: option_view(self.fragment),
            text: self.text@,
        }
    }
}

/// `reqwest::Url::parse` and the accessors of the URL it gives: a function of
/// the text alone, `None` where the text is no URL.
#[verifier::external_body]
fn parse_url(text: &str) -> (parts: Option<UrlParts>)
    ensures
        match parts {
            Some(parts) => url_model(text@) == Some(parts@),
            None => url_model(text@) is None,
        },
{
    let url = reqwest::Url::parse(text).ok()?;
    Some(UrlParts {
        scheme: url.scheme().to_owned(),
        username: url.username().to_owned(),
        password: url.password().map(str::to_owned),
        host: url.host_str().map(str::to_owned),
        query: url.query().map(str::to_owned),
        fragment: url.fragment().map(str::to_owned),
        text: url.to_string(),
    })
}

/// Whether a URL may be shown as a reference: it is served over TLS and carries
/// no credentials, query or fragment.
pub open spec fn referable(url: UrlModel) -> bool {
    &&& url.scheme == "https"@
    &&& url.username.len() == 0
    &&& url.password is None
    &&& url.host is Some
    &&& url.query is None
    &&& url.fragment is None
}

/// The reference that a text is kept as.
pub open spec fn reference_of(text: Seq<char>) -> Result<Seq<char>, A2aWireError> {
    match url_model(text) {
        Some(url) if referable(url) && byte_count(text) <= MAX_URL_BYTES => Ok(url.text),
        _ => Err(A2aWireError::Protocol),
    }
}

/// Whether the parts of a URL allow it to be shown as a reference.
pub fn referable_parts(parts: &UrlParts) -> (yes: bool)
    ensures
        yes == referable(parts@),
{
    text_eq(parts.scheme.as_str(), "https") && parts.username.as_str().is_empty()
        && parts.password.is_none() && parts.host.is_some() && parts.query.is_none()
        && parts.fragment.is_none()
}

/// Reads a URL that an external agent refers to.
pub fn safe_reference(value: &str) -> (url: Result<String, A2aWireError>)
    ensures
        match url {
            Ok(text) => reference_of(value@) == Ok::<Seq<char>, A2aWireError>(text@),
            Err(error) => reference_of(value@) == Err::<Seq<char>, A2aWireError>(error),
        },
{
    match parse_url(value) {
        Some(parts) => if referable_parts(&parts) && byte_len(value) <= MAX_URL_BYTES {
            Ok(parts.text)
        } else {
            Err(A2aWireError::Protocol)
        },
        None => Err(A2aWireError::Protocol),
    }
}

/// Where a remote task stands.
#[derive(Clone, Copy, PartialEq, Eq, Structural, Debug)]
pub enum TaskState {
    Submitted,
    Working,
    Completed,
    Failed,
    Canceled,
    Rejected,
    InputRequired,
    AuthRequired,
    DetachedUnknown,
}

impl TaskState {
    /// The name under which a state is kept.
    pub open spec fn name(self) -> Seq<char> {
        match self {
            TaskState::Submitted => "submitted"@,
            TaskState::Working => "working"@,
            TaskState::Completed => "completed"@,
            TaskState::Failed => "failed"@,
            TaskState::Canceled => "canceled"@,
            TaskState::Rejected => "rejected"@,
            TaskState::InputRequired => "input_required"@,
            TaskState::AuthRequired => "auth_required"@,
            TaskState::DetachedUnknown => "detached_unknown"@,
        }
    }

    /// The name under which a state is kept.
    pub fn as_str(self) -> (name: &'static str)
        ensures
            name@ == self.name(),
    {
        match self {
            TaskState::Submitted => "submitted",
            TaskState::Working => "working",
            TaskState::Completed => "completed",
            TaskState::Failed => "failed",
            TaskState::Canceled => "canceled",
            TaskState::Rejected => "rejected",
            TaskState::InputRequired => "input_required",
            TaskState::AuthRequired => "auth_required",
            TaskState::DetachedUnknown => "detached_unknown",
        }
    }

    /// Whether a remote agent is done with a task in this state, or waits for
    /// something before it goes on.
    pub open spec fn settled(self) -> bool {
        self != TaskState::Submitted && self != TaskState::Working && self
            != TaskState::DetachedUnknown
    }
}

/// The state that a wire name stands for.
pub open spec fn wire_state(name: Seq<char>) -> Option<TaskState> {
    if name == "TASK_STATE_SUBMITTED"@ {
        Some(TaskState::Submitted)
    } else if name == "TASK_STATE_WORKING"@ {
        Some(TaskState::Working)
    } else if name == "TASK_STATE_COMPLETED"@ {
        Some(TaskState::Completed)
    } else if name == "TASK_STATE_FAILED"@ {
        Some(TaskState::Failed)
    } else if name == "TASK_STATE_CANCELED"@ {
        Some(TaskState::Canceled)
    } else if name == "TASK_STATE_REJECTED"@ {
        Some(TaskState::Rejected)
    } else if name == "TASK_STATE_INPUT_REQUIRED"@ {
        Some(TaskState::InputRequired)
    } else if name == "TASK_STATE_AUTH_REQUIRED"@ {
        Some(TaskState::AuthRequired)
    } else {
        None
    }
}

/// Reads the wire name of a task's state.
pub fn normalize_task_state(value: &str) -> (state: Result<TaskState, A2aWireError>)
    ensures
        state == (match wire_state(value@) {
            Some(state) => Ok::<TaskState, A2aWireError>(state),
            None => Err::<TaskState, A2aWireError>(A2aWireError::Protocol),
        }),
{
    if text_eq(value, "TASK_STATE_SUBMITTED") {
        Ok(TaskState::Submitted)
    } else if text_eq(value, "TASK_STATE_WORKING") {
        Ok(TaskState::Working)
    } else if text_eq(value, "TASK_STATE_COMPLETED") {
        Ok(TaskState::Completed)
    } else if text_eq(value, "TASK_STATE_FAILED") {
        Ok(TaskState::Failed)
    } else if text_eq(value, "TASK_STATE_CANCELED") {
        Ok(TaskState::Canceled)
    } else if text_eq(value, "TASK_STATE_REJECTED") {
        Ok(TaskState::Rejected)
    } else if text_eq(value, "TASK_STATE_INPUT_REQUIRED") {
        Ok(TaskState::InputRequired)
    } else if text_eq(value, "TASK_STATE_AUTH_REQUIRED") {
        Ok(TaskState::AuthRequired)
    } else {
        Err(A2aWireError::Protocol)
    }
}

/// Whatever may be delegated as a task may also be sent along as a message, and
/// taken from an external agent.
pub proof fn task_texts_are_messages(text: Seq<char>)
    requires
        task_text(text),
    ensures
        message_text(text),
        remote_text(text),
{
}

/// Whether a text holds no small ASCII letter.
pub open spec fn capital(text: Seq<char>) -> bool {
    forall|i: int| 0 <= i < text.len() ==> !('a' <= #[trigger] text[i] <= 'z')
}

proof fn a_capital_is_read_once(one: char, other: char)
    requires
        !('a' <= one <= 'z'),
        !('a' <= other <= 'z'),
        lower_char(one) == lower_char(other),
    ensures
        one == other,
{
}

proof fn capitals_are_read_once(one: Seq<char>, other: Seq<char>)
    requires
        capital(one),
        capital(other),
        lowered(one) == lowered(other),
    ensures
        one == other,
{
    assert(one.len() == lowered(one).len());
    assert(other.len() == lowered(other).len());
    assert forall|i: int| 0 <= i < one.len() implies one[i] == other[i] by {
        assert(lowered(one)[i] == lower_char(one[i]));
        assert(lowered(other)[i] == lower_char(other[i]));
        a_capital_is_read_once(one[i], other[i]);
    }
    assert(one =~= other);
}

spec fn wire_name(state: TaskState) -> Seq<char> {
    match state {
        TaskState::Submitted => "TASK_STATE_SUBMITTED"@,
        TaskState::Working => "TASK_STATE_WORKING"@,
        TaskState::Completed => "TASK_STATE_COMPLETED"@,
        TaskState::Failed => "TASK_STATE_FAILED"@,
        TaskState::Canceled => "TASK_STATE_CANCELED"@,
        TaskState::Rejected => "TASK_STATE_REJECTED"@,
        TaskState::InputRequired => "TASK_STATE_INPUT_REQUIRED"@,
        TaskState::AuthRequired => "TASK_STATE_AUTH_REQUIRED"@,
        TaskState::DetachedUnknown => Seq::empty(),
    }
}

proof fn wire_names_fit(state: TaskState)
    requires
        state != TaskState::DetachedUnknown,
    ensures
        capital(wire_name(state)),
        lowered(wire_name(state)) == "task_state_"@ + state.name(),
{
    reveal_strlit("task_state_");
    match state {
        TaskState::Submitted => {
            reveal_strlit("TASK_STATE_SUBMITTED");
            reveal_strlit("submitted");
        },
        TaskState::Working => {
            reveal_strlit("TASK_STATE_WORKING");
            reveal_strlit("working");
        },
        TaskState::Completed => {
            reveal_strlit("TASK_STATE_COMPLETED");
            reveal_strlit("completed");
        },
        TaskState::Failed => {
            reveal_strlit("TASK_STATE_FAILED");
            reveal_strlit("failed");
        },
        TaskState::Canceled => {
            reveal_strlit("TASK_STATE_CANCELED");
            reveal_strlit("canceled");
        },
        TaskState::Rejected => {
            reveal_strlit("TASK_STATE_REJECTED");
            reveal_strlit("rejected");
        },
        TaskState::InputRequired => {
            reveal_strlit("TASK_STATE_INPUT_REQUIRED");
            reveal_strlit("input_required");
        },
        TaskState::AuthRequired => {
            reveal_strlit("TASK_STATE_AUTH_REQUIRED");
            reveal_strlit("auth_required");
        },
        TaskState::DetachedUnknown => {},
    }
    assert(lowered(wire_name(state)) =~= "task_state_"@ + state.name());
}

proof fn wire_names_are_read(name: Seq<char>, state: TaskState)
    ensures
        wire_state(name) == Some(state) <==> name == wire_name(state) && state
            != TaskState::DetachedUnknown,
{
    reveal_strlit("TASK_STATE_SUBMITTED");
    reveal_strlit("TASK_STATE_WORKING");
    reveal_strlit("TASK_STATE_COMPLETED");
    reveal_strlit("TASK_STATE_FAILED");
    reveal_strlit("TASK_STATE_CANCELED");
    reveal_strlit("TASK_STATE_REJECTED");
    reveal_strlit("TASK_STATE_INPUT_REQUIRED");
    reveal_strlit("TASK_STATE_AUTH_REQUIRED");
    if name == wire_name(state) && state != TaskState::DetachedUnknown {
        assert(name.len() == wire_name(state).len());
        assert(name[11] == wire_name(state)[11]);
        assert(name[12] == wire_name(state)[12]);
        assert(name[13] == wire_name(state)[13]);
    }
}

/// What an agent calls a state is the name that the state is kept under, in capitals
/// and behind a prefix: it is read as that state, and nothing else is. A state of which
/// nothing is known is none that an agent can tell.
pub proof fn wire_names_are_read_faithfully(name: Seq<char>, state: TaskState)
    ensures
        wire_state(name) == Some(state) <==> {
            &&& capital(name)
            &&& lowered(name) == "task_state_"@ + state.name()
            &&& state != TaskState::DetachedUnknown
        },
{
    wire_names_are_read(name, state);
    if state != TaskState::DetachedUnknown {
        wire_names_fit(state);
        if capital(name) && lowered(name) == "task_state_"@ + state.name() {
            capitals_are_read_once(name, wire_name(state));
        }
    }
}

/// No two names are read as the same state, and no two states are kept under the same
/// name.
pub proof fn states_are_told_apart(one: Seq<char>, other: Seq<char>, state: TaskState, next: TaskState)
    ensures
        wire_state(one) == Some(state) && wire_state(other) == Some(state) ==> one == other,
        state.name() == next.name() ==> state == next,
        wire_state(one) == Some(TaskState::Completed) ==> one == "TASK_STATE_COMPLETED"@,
{
    reveal_strlit("submitted");
    reveal_strlit("working");
    reveal_strlit("completed");
    reveal_strlit("failed");
    reveal_strlit("canceled");
    reveal_strlit("rejected");
    reveal_strlit("input_required");
    reveal_strlit("auth_required");
    reveal_strlit("detached_unknown");
    if wire_state(one) == Some(state) && wire_state(other) == Some(state) {
        wire_names_are_read_faithfully(one, state);
        wire_names_are_read_faithfully(other, state);
        capitals_are_read_once(one, other);
    }
    names_differ(state, next);
}

proof fn names_differ(state: TaskState, next: TaskState)
    ensures
        state.name() == next.name() ==> state == next,
{
    reveal_strlit("submitted");
    reveal_strlit("working");
    reveal_strlit("completed");
    reveal_strlit("failed");
    reveal_strlit("canceled");
    reveal_strlit("rejected");
    reveal_strlit("input_required");
    reveal_strlit("auth_required");
    reveal_strlit("detached_unknown");
    if state.name() == next.name() {
        assert(state.name().len() == next.name().len());
        assert(state.name()[0] == next.name()[0]);
        assert(state.name()[1] == next.name()[1]);
        assert(state.name()[2] == next.name()[2]);
    }
}

/// A failure keeps its class: one that never reached the agent, one that took too long
/// and one that was cancelled are told apart from a refusal of the agent, and every
/// other one is a breach of the protocol.
pub proof fn failures_keep_their_class(error: A2aWireError)
    ensures
        error.class() == OutboundTransportFailure::Unavailable <==> error
            == A2aWireError::Unavailable,
        error.class() == OutboundTransportFailure::TimedOut <==> error == A2aWireError::TimedOut,
        error.class() == OutboundTransportFailure::Cancelled <==> error == A2aWireError::Cancelled,
        error.class() == OutboundTransportFailure::Rejected <==> (error
            == A2aWireError::Unauthorized || error == A2aWireError::RateLimited || error
            == A2aWireError::Http || error == A2aWireError::Remote),
{
}

/// A text that is taken cannot drive a terminal or turn the direction of what is read:
/// of the characters below the space it holds line breaks and tabs only, and neither a
/// delete, a further control nor a mark of direction.
pub proof fn safe_texts_show_what_they_say(text: Seq<char>)
    requires
        !has_unsafe(text),
    ensures
        forall|i: int| 0 <= i < text.len() ==> shows_itself(#[trigger] text[i]),
{
    assert forall|i: int| 0 <= i < text.len() implies shows_itself(#[trigger] text[i]) by {
        assert(!is_unsafe(text[i]));
        safe_characters_show_themselves(text[i]);
    }
}

/// Whether a character stands for itself where it is shown, or breaks a line.
pub open spec fn shows_itself(c: char) -> bool {
    let code = c as u32;
    &&& code >= 0x20 || code == 0x09 || code == 0x0a || code == 0x0d
    &&& !(0x7f <= code <= 0x9f)
    &&& code != 0x61c && code != 0x200e && code != 0x200f
    &&& !(0x202a <= code <= 0x202e)
    &&& !(0x2066 <= code <= 0x2069)
}

proof fn safe_characters_show_themselves(c: char)
    requires
        !is_unsafe(c),
    ensures
        shows_itself(c),
{
}

/// A state is read off its wire name: what comes out is the state that is kept under that
/// name, and a name that is none of them is an error of the protocol.
pub proof fn states_are_read_off_their_names(value: &str, state: Result<TaskState, A2aWireError>)
    requires
        call_ensures(normalize_task_state, (value,), state),
    ensures
        state matches Ok(read) ==> {
            &&& capital(value@)
            &&& lowered(value@) == "task_state_"@ + read.name()
            &&& read != TaskState::DetachedUnknown
        },
        state matches Err(error) ==> error == A2aWireError::Protocol,
        forall|known: TaskState|
            capital(value@) && known != TaskState::DetachedUnknown && lowered(value@)
                == "task_state_"@ + #[trigger] known.name() ==> state
                == Ok::<TaskState, A2aWireError>(known),
{
    if let Ok(read) = state {
        wire_names_are_read_faithfully(value@, read);
    }
    assert forall|known: TaskState|
        capital(value@) && known != TaskState::DetachedUnknown && lowered(value@)
            == "task_state_"@ + #[trigger] known.name() implies state
        == Ok::<TaskState, A2aWireError>(known) by {
        wire_names_are_read_faithfully(value@, known);
    }
}

/// What is sent to an agent, or taken from one, says nothing unseen and is not too long: a
/// task is no more than 64 KiB and not blank, a message no more and not empty.
pub proof fn checked_texts_are_short_and_safe(
    value: &str,
    task: Result<(), String>,
    message: Result<(), String>,
    remote: Result<(), A2aWireError>,
)
    requires
        call_ensures(validate_task_text, (value,), task),
        call_ensures(validate_message_text, (value,), message),
        call_ensures(validate_remote_text, (value,), remote),
    ensures
        task is Ok ==> message is Ok,
        message is Ok ==> remote is Ok,
        remote is Ok <==> byte_count(value@) <= 64 * 1024 && forall|i: int|
            0 <= i < value@.len() ==> !is_unsafe(#[trigger] value@[i]),
        message is Ok <==> remote is Ok && value@.len() > 0,
        task is Ok <==> remote is Ok && !is_blank(value@),
{
}

/// A file name that passes leads nowhere else: it is one component, with nothing in it that
/// parts a path, and neither the directory itself nor the one above.
pub proof fn checked_filenames_lead_nowhere_else(value: &str, checked: Result<(), String>)
    requires
        call_ensures(validate_filename, (value,), checked),
    ensures
        checked is Ok ==> {
            &&& 0 < value@.len()
            &&& byte_count(value@) <= 256
            &&& forall|i: int| 0 <= i < value@.len() ==> #[trigger] value@[i] != '/'
            &&& value@ != "."@
            &&& value@ != ".."@
            &&& !has_control(value@)
        },
        checked is Err ==> {
            ||| value@.len() == 0
            ||| byte_count(value@) > 256
            ||| value@.contains('/')
            ||| value@ == "."@
            ||| value@ == ".."@
            ||| has_control(value@)
        },
{
}

/// An identifier is taken as the agent wrote it: it is a text of no more than 512 bytes
/// without controls, and anything else is an error. One that may be missing is missing
/// only where nothing was written; one that must be there is not made up.
pub proof fn identifiers_are_taken_as_written(
    value: Option<&Json>,
    id: Result<Option<String>, A2aWireError>,
    needed: Result<String, A2aWireError>,
)
    requires
        call_ensures(optional_id, (value,), id),
        call_ensures(required_id, (value,), needed),
    ensures
        id matches Ok(Some(text)) ==> {
            &&& value matches Some(json)
            &&& json.string() == Some(text@)
            &&& 0 < text@.len()
            &&& byte_count(text@) <= 512
            &&& !has_control(text@)
        },
        id matches Ok(None) ==> value is None,
        value is None ==> id matches Ok(None),
        needed matches Ok(text) ==> (value matches Some(json) && json.string() == Some(text@)),
        needed is Ok <==> (id is Ok && value is Some),
        value matches Some(json) ==> (json.string() matches Some(text) ==> identifier(text)
            ==> needed is Ok),
{
}

/// A short text is what the agent wrote, or the default where nothing was written; it is
/// never empty, never longer than its limit and holds no controls.
pub proof fn short_texts_are_taken_as_written(
    value: Option<&Json>,
    default: &str,
    limit: usize,
    text: Result<String, A2aWireError>,
)
    requires
        call_ensures(optional_text, (value, default, limit), text),
    ensures
        text matches Ok(held) ==> {
            &&& 0 < held@.len()
            &&& byte_count(held@) <= limit
            &&& !has_control(held@)
            &&& value is None ==> held@ == default@
            &&& value matches Some(json) ==> json.string() == Some(held@)
        },
        value matches Some(json) ==> json.string() is None ==> text is Err,
{
}

/// A reference that is kept is a plain secure address: nothing in it names a user, asks for
/// something or points into the page.
pub proof fn kept_references_are_plain(value: &str, url: Result<String, A2aWireError>)
    requires
        call_ensures(safe_reference, (value,), url),
    ensures
        url matches Ok(text) ==> {
            &&& url_model(value@) matches Some(parts)
            &&& text@ == parts.text
            &&& parts.scheme == "https"@
            &&& parts.username.len() == 0
            &&& parts.password is None
            &&& parts.host is Some
            &&& parts.query is None
            &&& parts.fragment is None
            &&& byte_count(value@) <= 2048
        },
        url matches Err(error) ==> error == A2aWireError::Protocol,
        url_model(value@) is None ==> url is Err,
{
}

}
