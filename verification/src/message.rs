//! Conversation messages, tool calls and tool results.

use crate::digest::{digest, digest_of};
use crate::json::{json_document, read_json};
use vstd::prelude::*;
use vstd::utf8::encode_utf8;

verus! {

/// Who a message comes from.
#[derive(Clone, Copy, PartialEq, Eq, Structural, Debug)]
pub enum Role {
    System,
    User,
    Assistant,
    Tool,
}

/// Whether a tool did what it was asked to do.
#[derive(Clone, Copy, PartialEq, Eq, Structural, Debug)]
pub enum ToolResultStatus {
    Success,
    Error,
}

/// Why a tool did not run, where that is known apart from the result's prose.
#[derive(Clone, Copy, PartialEq, Eq, Structural, Debug)]
pub enum ToolFailure {
    Unavailable,
    PermissionDenied,
    InvalidMemorySource,
}

/// One request of the model for a tool. The arguments are JSON text.
#[derive(Debug, PartialEq, Eq)]
pub struct ToolCall {
    pub id: String,
    pub name: String,
    pub arguments: String,
}

/// What came back for one tool call.
#[derive(Debug, PartialEq, Eq)]
pub struct ToolResult {
    pub call_id: String,
    pub output: String,
    pub status: ToolResultStatus,
    pub failure: Option<ToolFailure>,
}

/// One part of a message. An image is named by its artifact.
#[derive(Debug, PartialEq, Eq)]
pub enum ContentBlock {
    Text(String),
    Image(String),
    ToolCall(ToolCall),
    ToolResult(ToolResult),
}

/// One message of a conversation.
#[derive(Debug, PartialEq, Eq)]
pub struct Message {
    pub role: Role,
    pub content: Vec<ContentBlock>,
}

/// The content of a message.
#[verifier::ext_equal]
pub struct MessageModel {
    pub role: Role,
    pub content: Seq<ContentBlock>,
}

impl View for Message {
    type V = MessageModel;

    open spec fn view(&self) -> MessageModel {
        MessageModel { role: self.role, content: self.content@ }
    }
}

/// The contents of a run of messages.
pub open spec fn message_views(messages: Seq<Message>) -> Seq<MessageModel> {
    messages.map_values(|message: Message| message@)
}

/// The content of a message that carries one tool result.
pub open spec fn result_message(result: ToolResult) -> MessageModel {
    MessageModel { role: Role::Tool, content: seq![ContentBlock::ToolResult(result)] }
}

/// The text that stands for given arguments: the one that their JSON value is
/// written back as, or the arguments themselves where they are not JSON.
pub open spec fn settled_arguments(arguments: Seq<char>) -> Seq<char> {
    match json_document(encode_utf8(arguments)) {
        Some(value) => value.text@,
        None => arguments,
    }
}

/// The digest that two calls share when they ask the same tool for the same
/// thing.
pub open spec fn call_pattern(name: Seq<char>, arguments: Seq<char>) -> [u8; 32] {
    digest_of(encode_utf8(name) + seq![0u8] + encode_utf8(settled_arguments(arguments)))
}

fn push_bytes(bytes: &mut Vec<u8>, text: &str)
    ensures
        final(bytes)@ == old(bytes)@ + encode_utf8(text@),
{
    let source = text.as_bytes();
    let ghost whole = encode_utf8(text@);
    let mut i: usize = 0;
    while i < source.len()
        invariant
            source@ == whole,
            i <= source@.len(),
            bytes@ == old(bytes)@ + whole.take(i as int),
        decreases source@.len() - i,
    {
        bytes.push(source[i]);
        i += 1;
        assert(whole.take(i as int) =~= whole.take(i - 1).push(whole[i - 1]));
    }
    assert(whole.take(i as int) =~= whole);
}

impl ToolCall {
    /// A copy of this call.
    pub fn copy(&self) -> (copy: ToolCall)
        ensures
            copy == *self,
    {
        ToolCall {
            id: self.id.clone(),
            name: self.name.clone(),
            arguments: self.arguments.clone(),
        }
    }

    /// Identifies the request by its tool and arguments, not by its call id. JSON
    /// arguments count as the reader writes them back, which puts their keys in
    /// order; of that order nothing is stated.
    pub fn pattern_fingerprint(&self) -> (fingerprint: [u8; 32])
        ensures
            fingerprint == call_pattern(self.name@, self.arguments@),
    {
        let mut bytes: Vec<u8> = Vec::new();
        push_bytes(&mut bytes, self.name.as_str());
        bytes.push(0);
        match read_json(self.arguments.as_str().as_bytes()) {
            Some(value) => push_bytes(&mut bytes, value.text.as_str()),
            None => push_bytes(&mut bytes, self.arguments.as_str()),
        }
        assert(bytes@ =~= encode_utf8(self.name@) + seq![0u8] + encode_utf8(
            settled_arguments(self.arguments@),
        ));
        digest(bytes.as_slice())
    }
}

impl ToolResult {
    /// The result of a tool that did its work.
    pub fn success(call_id: String, output: &str) -> (result: ToolResult)
        ensures
            result.call_id == call_id,
            result.output@ == output@,
            result.status == ToolResultStatus::Success,
            result.failure == None::<ToolFailure>,
    {
        ToolResult {
            call_id,
            output: output.to_owned(),
            status: ToolResultStatus::Success,
            failure: None,
        }
    }

    /// The result of a tool that failed for no known class of reason.
    pub fn error(call_id: String, output: &str) -> (result: ToolResult)
        ensures
            result.call_id == call_id,
            result.output@ == output@,
            result.status == ToolResultStatus::Error,
            result.failure == None::<ToolFailure>,
    {
        ToolResult {
            call_id,
            output: output.to_owned(),
            status: ToolResultStatus::Error,
            failure: None,
        }
    }

    /// The result of a tool that permission was refused for.
    pub fn denied(call_id: String, output: &str) -> (result: ToolResult)
        ensures
            result.call_id == call_id,
            result.output@ == output@,
            result.status == ToolResultStatus::Error,
            result.failure == Some(ToolFailure::PermissionDenied),
    {
        ToolResult {
            call_id,
            output: output.to_owned(),
            status: ToolResultStatus::Error,
            failure: Some(ToolFailure::PermissionDenied),
        }
    }

    /// The result of a tool that cannot run here at all.
    pub fn unavailable(call_id: String, output: &str) -> (result: ToolResult)
        ensures
            result.call_id == call_id,
            result.output@ == output@,
            result.status == ToolResultStatus::Error,
            result.failure == Some(ToolFailure::Unavailable),
    {
        ToolResult {
            call_id,
            output: output.to_owned(),
            status: ToolResultStatus::Error,
            failure: Some(ToolFailure::Unavailable),
        }
    }

    /// A copy of this result.
    pub fn copy(&self) -> (copy: ToolResult)
        ensures
            copy == *self,
    {
        ToolResult {
            call_id: self.call_id.clone(),
            output: self.output.clone(),
            status: self.status,
            failure: self.failure,
        }
    }
}

impl ContentBlock {
    /// A copy of this block.
    pub fn copy(&self) -> (copy: ContentBlock)
        ensures
            copy == *self,
    {
        match self {
            ContentBlock::Text(text) => ContentBlock::Text(text.clone()),
            ContentBlock::Image(artifact) => ContentBlock::Image(artifact.clone()),
            ContentBlock::ToolCall(call) => ContentBlock::ToolCall(call.copy()),
            ContentBlock::ToolResult(result) => ContentBlock::ToolResult(result.copy()),
        }
    }
}

impl Message {
    /// A message of one text block.
    pub fn text(role: Role, text: &str) -> (message: Message)
        ensures
            message.role == role,
            message.content@.len() == 1,
            message.content@[0] matches ContentBlock::Text(held) && held@ == text@,
    {
        let mut content: Vec<ContentBlock> = Vec::new();
        content.push(ContentBlock::Text(text.to_owned()));
        Message { role, content }
    }

    /// The message that carries one tool result.
    pub fn tool_result(result: ToolResult) -> (message: Message)
        ensures
            message@ == result_message(result),
    {
        let mut content: Vec<ContentBlock> = Vec::new();
        content.push(ContentBlock::ToolResult(result));
        Message { role: Role::Tool, content }
    }

    /// A copy of this message.
    pub fn copy(&self) -> (copy: Message)
        ensures
            copy@ == self@,
    {
        let mut content: Vec<ContentBlock> = Vec::new();
        let mut i: usize = 0;
        while i < self.content.len()
            invariant
                i <= self.content@.len(),
                content@ == self.content@.take(i as int),
            decreases self.content@.len() - i,
        {
            content.push(self.content[i].copy());
            i += 1;
            assert(self.content@.take(i as int) =~= self.content@.take(i - 1).push(
                self.content@[i - 1],
            ));
        }
        assert(self.content@.take(i as int) =~= self.content@);
        Message { role: self.role, content }
    }
}

/// A copy of a run of messages.
pub fn copy_messages(messages: &Vec<Message>) -> (copy: Vec<Message>)
    ensures
        message_views(copy@) == message_views(messages@),
{
    let mut copy: Vec<Message> = Vec::new();
    let mut i: usize = 0;
    while i < messages.len()
        invariant
            i <= messages@.len(),
            copy@.len() == i,
            forall|j: int| 0 <= j < i ==> (#[trigger] copy@[j])@ == messages@[j]@,
        decreases messages@.len() - i,
    {
        copy.push(messages[i].copy());
        i += 1;
    }
    assert(message_views(copy@) =~= message_views(messages@));
    copy
}

/// The tool calls among the blocks of a message, in their order.
pub open spec fn calls_in(content: Seq<ContentBlock>) -> Seq<ToolCall>
    decreases content.len(),
{
    if content.len() == 0 {
        Seq::empty()
    } else {
        match content.last() {
            ContentBlock::ToolCall(call) => calls_in(content.drop_last()).push(call),
            _ => calls_in(content.drop_last()),
        }
    }
}

/// The tools that a message of the model asks for, in the order it asks.
pub fn requested_tools(message: &Message) -> (calls: Vec<ToolCall>)
    ensures
        calls@ == calls_in(message.content@),
{
    let mut calls: Vec<ToolCall> = Vec::new();
    let mut i: usize = 0;
    while i < message.content.len()
        invariant
            i <= message.content@.len(),
            calls@ == calls_in(message.content@.take(i as int)),
        decreases message.content@.len() - i,
    {
        match &message.content[i] {
            ContentBlock::ToolCall(call) => calls.push(call.copy()),
            _ => {},
        }
        i += 1;
        assert(message.content@.take(i as int).drop_last() =~= message.content@.take(i - 1));
    }
    assert(message.content@.take(i as int) =~= message.content@);
    calls
}

/// A made result answers the call that it is made for, says what it was given, and says
/// whether the tool did its work; a refusal and an absence are told apart from each other
/// and from a failure.
pub proof fn results_say_what_happened(
    call_id: String,
    output: &str,
    success: ToolResult,
    error: ToolResult,
    denied: ToolResult,
    unavailable: ToolResult,
)
    requires
        call_ensures(ToolResult::success, (call_id, output), success),
        call_ensures(ToolResult::error, (call_id, output), error),
        call_ensures(ToolResult::denied, (call_id, output), denied),
        call_ensures(ToolResult::unavailable, (call_id, output), unavailable),
    ensures
        success.call_id == call_id && error.call_id == call_id && denied.call_id == call_id
            && unavailable.call_id == call_id,
        success.output@ == output@ && error.output@ == output@ && denied.output@ == output@
            && unavailable.output@ == output@,
        success.status == ToolResultStatus::Success && success.failure is None,
        error.status == ToolResultStatus::Error && error.failure is None,
        denied.status == ToolResultStatus::Error && denied.failure == Some(
            ToolFailure::PermissionDenied,
        ),
        unavailable.status == ToolResultStatus::Error && unavailable.failure == Some(
            ToolFailure::Unavailable,
        ),
{
}

/// A message that carries a result is the tool's and carries that result alone.
pub proof fn result_messages_carry_the_result(result: ToolResult, message: Message)
    requires
        call_ensures(Message::tool_result, (result,), message),
    ensures
        message.role == Role::Tool,
        message.content@.len() == 1,
        message.content@[0] == ContentBlock::ToolResult(result),
{
    assert(message@.content[0] == ContentBlock::ToolResult(result));
}

/// Every tool call of a message is asked for, and nothing else is.
pub proof fn calls_are_those_of_the_message(content: Seq<ContentBlock>, call: ToolCall)
    ensures
        calls_in(content).contains(call) <==> content.contains(ContentBlock::ToolCall(call)),
        calls_in(content).len() <= content.len(),
    decreases content.len(),
{
    if content.len() > 0 {
        let rest = content.drop_last();
        let last = content.last();
        calls_are_those_of_the_message(rest, call);
        let wanted = ContentBlock::ToolCall(call);
        let earlier = calls_in(rest);
        if content.contains(wanted) {
            let at = choose|i: int| 0 <= i < content.len() && content[i] == wanted;
            if at < content.len() - 1 {
                assert(rest[at] == wanted);
                assert(rest.contains(wanted));
                let held = choose|i: int| 0 <= i < earlier.len() && earlier[i] == call;
                assert(calls_in(content)[held] == call);
            } else {
                assert(calls_in(content)[earlier.len() as int] == call);
            }
        }
        if calls_in(content).contains(call) {
            let at = choose|i: int| 0 <= i < calls_in(content).len() && calls_in(content)[i] == call;
            if at < earlier.len() {
                assert(earlier[at] == call);
                assert(earlier.contains(call));
                let held = choose|i: int| 0 <= i < rest.len() && rest[i] == wanted;
                assert(content[held] == wanted);
            } else {
                assert(content[content.len() - 1] == wanted);
            }
        }
    }
}

/// The calls of two runs of blocks are asked for in the order of the runs.
pub proof fn calls_keep_their_order(front: Seq<ContentBlock>, back: Seq<ContentBlock>)
    ensures
        calls_in(front + back) == calls_in(front) + calls_in(back),
    decreases back.len(),
{
    if back.len() == 0 {
        assert(front + back =~= front);
        assert(calls_in(front) + calls_in(back) =~= calls_in(front));
    } else {
        calls_keep_their_order(front, back.drop_last());
        assert((front + back).drop_last() =~= front + back.drop_last());
        assert((front + back).last() == back.last());
        assert(calls_in(front + back) =~= calls_in(front) + calls_in(back));
    }
}

/// Two calls of one tool with the same arguments have one pattern, whatever their
/// identities are.
pub proof fn patterns_leave_out_the_identity(
    one: ToolCall,
    two: ToolCall,
    first: [u8; 32],
    second: [u8; 32],
)
    requires
        call_ensures(ToolCall::pattern_fingerprint, (&one,), first),
        call_ensures(ToolCall::pattern_fingerprint, (&two,), second),
        one.name@ == two.name@,
        one.arguments@ == two.arguments@,
    ensures
        first == second,
{
}

/// A message of text says what it was made of, in the role that it was made for.
pub proof fn texts_are_said_in_their_role(role: Role, text: &str, message: Message)
    requires
        call_ensures(Message::text, (role, text), message),
    ensures
        message.role == role,
        message.content@.len() == 1,
        message.content@[0] matches ContentBlock::Text(held) && held@ == text@,
{
}

}
