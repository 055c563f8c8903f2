//! Bounds on repeated failed tool calls within one owner turn.
//!
//! Only digests of a small recent window are kept, and successful polling is
//! not failure.

use crate::digest::{digest, digest_of, same_digest};
use crate::message::{
    call_pattern, message_views, ContentBlock, Message, MessageModel, Role, ToolCall, ToolFailure,
    ToolResult, ToolResultStatus,
};
use crate::text::{starts_with, text_eq};
use std::collections::VecDeque;
use vstd::prelude::*;
use vstd::utf8::encode_utf8;

verus! {

/// How many failures, denials and unavailable capabilities are remembered.
pub const WINDOW: usize = 32;

/// How often one request may fail.
pub const REPEAT_LIMIT: usize = 3;

/// How many tool errors may follow one another without a success.
pub const CONSECUTIVE_ERROR_LIMIT: usize = 6;

/// How many memory changes may be rejected for their source.
pub const MEMORY_REPAIR_LIMIT: usize = 2;

pub const STOP_REASON: &'static str = "Stopped after repeated tool failures without progress. Remaining tools in this batch were not executed. Review the tool errors and correct the request before retrying; repeating failed calls will not fix them.";

pub const UNAVAILABLE_REASON: &'static str = "This capability is unavailable for this turn. Retrying cannot enable it; no tool was executed.";

pub const DENIED_REASON: &'static str = "This exact tool request was already denied in this turn. Do not request it again; choose another approach or ask the user for direction.";

pub const MEMORY_REPAIR_REASON: &'static str = "Memory changes were already rejected in this turn. No further memory change is attempted; no tool was executed.";

/// The name prefix that all memory tools share.
pub const MEMORY_PREFIX: &'static str = "memory_";

/// The memory tool that changes nothing.
pub const MEMORY_LOOKUP: &'static str = "memory_lookup";

/// What the guard of one owner turn knows.
#[verifier::ext_equal]
pub struct Progress {
    pub failed: Seq<[u8; 32]>,
    pub denied: Seq<[u8; 32]>,
    pub unavailable: Seq<[u8; 32]>,
    pub consecutive_errors: nat,
    pub memory_rejections: nat,
    pub stopped: bool,
}

/// Whether a text begins with another.
pub open spec fn begins(text: Seq<char>, prefix: Seq<char>) -> bool {
    prefix.is_prefix_of(text)
}

/// Whether a tool belongs to the memory family.
pub open spec fn memory_tool(name: Seq<char>) -> bool {
    begins(name, MEMORY_PREFIX@)
}

/// Whether a tool changes memory.
pub open spec fn memory_change(name: Seq<char>) -> bool {
    memory_tool(name) && name != MEMORY_LOOKUP@
}

/// The capability that a tool stands on: the memory tools share one.
pub open spec fn capability_of(name: Seq<char>) -> [u8; 32] {
    if memory_tool(name) {
        digest_of(encode_utf8(MEMORY_PREFIX@))
    } else {
        digest_of(encode_utf8(name))
    }
}

/// The guard at the start of an owner turn.
pub open spec fn fresh() -> Progress {
    Progress {
        failed: Seq::empty(),
        denied: Seq::empty(),
        unavailable: Seq::empty(),
        consecutive_errors: 0,
        memory_rejections: 0,
        stopped: false,
    }
}

/// A window after one more entry: the oldest leaves a full one.
pub open spec fn remembered(window: Seq<[u8; 32]>, entry: [u8; 32]) -> Seq<[u8; 32]> {
    if window.len() == WINDOW {
        window.drop_first().push(entry)
    } else {
        window.push(entry)
    }
}

/// Whether a held entry is a given one.
pub open spec fn equal_to(entry: [u8; 32]) -> spec_fn([u8; 32]) -> bool {
    |held: [u8; 32]| held == entry
}

/// How often an entry stands in a window.
pub open spec fn occurrences(window: Seq<[u8; 32]>, entry: [u8; 32]) -> nat {
    window.filter(equal_to(entry)).len()
}

/// The guard after one result of one call.
pub open spec fn observed(before: Progress, call: ToolCall, result: ToolResult) -> Progress {
    let pattern = call_pattern(call.name@, call.arguments@);
    if result.status == ToolResultStatus::Success {
        Progress {
            consecutive_errors: 0,
            failed: before.failed.filter(|held: [u8; 32]| held != pattern),
            ..before
        }
    } else {
        let capability = capability_of(call.name@);
        let unavailable = result.failure == Some(ToolFailure::Unavailable);
        let denied = result.failure == Some(ToolFailure::PermissionDenied);
        let rejected = result.failure == Some(ToolFailure::InvalidMemorySource);
        let known = before.unavailable.contains(capability);
        let failed = remembered(before.failed, pattern);
        let errors = saturated(before.consecutive_errors + 1);
        Progress {
            failed,
            denied: if denied && !before.denied.contains(pattern) {
                remembered(before.denied, pattern)
            } else {
                before.denied
            },
            unavailable: if unavailable && !known {
                remembered(before.unavailable, capability)
            } else {
                before.unavailable
            },
            consecutive_errors: errors,
            memory_rejections: if rejected {
                saturated(before.memory_rejections + 1)
            } else {
                before.memory_rejections
            },
            stopped: before.stopped || (unavailable && known) || occurrences(failed, pattern)
                >= REPEAT_LIMIT || errors >= CONSECUTIVE_ERROR_LIMIT,
        }
    }
}

/// A count that stays at the largest machine value.
pub open spec fn saturated(count: nat) -> nat {
    if count > usize::MAX {
        usize::MAX as nat
    } else {
        count
    }
}

/// What a call is refused with, if it is: the text and the class of failure.
pub open spec fn refusal(progress: Progress, call: ToolCall) -> Option<
    (Seq<char>, Option<ToolFailure>),
> {
    if progress.stopped {
        Some((STOP_REASON@, None))
    } else if progress.unavailable.contains(capability_of(call.name@)) {
        Some((UNAVAILABLE_REASON@, Some(ToolFailure::Unavailable)))
    } else if progress.memory_rejections >= MEMORY_REPAIR_LIMIT && memory_change(call.name@) {
        Some((MEMORY_REPAIR_REASON@, Some(ToolFailure::InvalidMemorySource)))
    } else if progress.denied.contains(call_pattern(call.name@, call.arguments@)) {
        Some((DENIED_REASON@, Some(ToolFailure::PermissionDenied)))
    } else {
        None
    }
}

/// The first call among the blocks that has a given id.
pub open spec fn call_for(blocks: Seq<ContentBlock>, id: Seq<char>) -> Option<ToolCall>
    decreases blocks.len(),
{
    if blocks.len() == 0 {
        None
    } else {
        match blocks[0] {
            ContentBlock::ToolCall(call) if call.id@ == id => Some(call),
            _ => call_for(blocks.drop_first(), id),
        }
    }
}

/// The guard after the results in a tool message, each paired with its call.
pub open spec fn after_results(
    before: Progress,
    calls: Seq<ContentBlock>,
    blocks: Seq<ContentBlock>,
) -> Progress
    decreases blocks.len(),
{
    if blocks.len() == 0 {
        before
    } else {
        let earlier = after_results(before, calls, blocks.drop_last());
        match blocks.last() {
            ContentBlock::ToolResult(result) => match call_for(calls, result.call_id@) {
                Some(call) => observed(earlier, call, result),
                None => earlier,
            },
            _ => earlier,
        }
    }
}

/// The guard after a run of messages, and the blocks of the latest assistant
/// message among them.
pub open spec fn replayed(messages: Seq<MessageModel>) -> (Progress, Seq<ContentBlock>)
    decreases messages.len(),
{
    if messages.len() == 0 {
        (fresh(), Seq::empty())
    } else {
        let (progress, calls) = replayed(messages.drop_last());
        let message = messages.last();
        if message.role == Role::Assistant {
            (progress, message.content)
        } else if message.role == Role::Tool {
            (after_results(progress, calls, message.content), calls)
        } else {
            (progress, calls)
        }
    }
}

/// Where the messages after the latest owner message begin.
pub open spec fn turn_start(messages: Seq<MessageModel>) -> nat
    decreases messages.len(),
{
    if messages.len() == 0 {
        0
    } else if messages.last().role == Role::User {
        messages.len()
    } else {
        turn_start(messages.drop_last())
    }
}

/// The guard that belongs to the current owner turn of a history.
pub open spec fn of_history(messages: Seq<MessageModel>) -> Progress {
    replayed(messages.skip(turn_start(messages) as int)).0
}

/// Remembers failed requests of one owner turn and refuses hopeless ones.
pub struct ProgressGuard {
    failed: VecDeque<[u8; 32]>,
    denied: VecDeque<[u8; 32]>,
    unavailable: VecDeque<[u8; 32]>,
    consecutive_errors: usize,
    memory_rejections: usize,
    stopped: bool,
}

impl View for ProgressGuard {
    type V = Progress;

    closed spec fn view(&self) -> Progress {
        Progress {
            failed: self.failed@,
            denied: self.denied@,
            unavailable: self.unavailable@,
            consecutive_errors: self.consecutive_errors as nat,
            memory_rejections: self.memory_rejections as nat,
            stopped: self.stopped,
        }
    }
}

fn holds(window: &VecDeque<[u8; 32]>, entry: &[u8; 32]) -> (found: bool)
    ensures
        found == window@.contains(*entry),
{
    let mut i: usize = 0;
    while i < window.len()
        invariant
            i <= window@.len(),
            forall|j: int| 0 <= j < i ==> window@[j] != *entry,
        decreases window@.len() - i,
    {
        if same_digest(&window[i], entry) {
            return true;
        }
        i += 1;
    }
    false
}

fn remember(window: &mut VecDeque<[u8; 32]>, entry: [u8; 32])
    ensures
        final(window)@ == remembered(old(window)@, entry),
{
    if window.len() == WINDOW {
        let _oldest = window.pop_front();
    }
    window.push_back(entry);
    assert(window@ =~= remembered(old(window)@, entry));
}

fn without(window: &VecDeque<[u8; 32]>, entry: &[u8; 32]) -> (kept: VecDeque<[u8; 32]>)
    ensures
        kept@ == window@.filter(|held: [u8; 32]| held != *entry),
{
    let ghost other = |held: [u8; 32]| held != *entry;
    let mut kept: VecDeque<[u8; 32]> = VecDeque::new();
    let mut i: usize = 0;
    reveal(Seq::filter);
    assert(kept@ =~= window@.take(0).filter(other));
    while i < window.len()
        invariant
            i <= window@.len(),
            other == (|held: [u8; 32]| held != *entry),
            kept@ == window@.take(i as int).filter(other),
        decreases window@.len() - i,
    {
        reveal(Seq::filter);
        if !same_digest(&window[i], entry) {
            kept.push_back(window[i]);
        }
        i += 1;
        assert(window@.take(i as int).drop_last() =~= window@.take(i - 1));
    }
    assert(window@.take(i as int) =~= window@);
    kept
}

fn count(window: &VecDeque<[u8; 32]>, entry: &[u8; 32]) -> (times: usize)
    ensures
        times == occurrences(window@, *entry),
{
    let ghost same = equal_to(*entry);
    let mut times: usize = 0;
    let mut i: usize = 0;
    reveal(Seq::filter);
    while i < window.len()
        invariant
            i <= window@.len(),
            same == equal_to(*entry),
            times == window@.take(i as int).filter(same).len(),
            times <= i,
        decreases window@.len() - i,
    {
        reveal(Seq::filter);
        if same_digest(&window[i], entry) {
            times += 1;
        }
        i += 1;
        assert(window@.take(i as int).drop_last() =~= window@.take(i - 1));
    }
    assert(window@.take(i as int) =~= window@);
    times
}

fn capability(name: &str) -> (key: [u8; 32])
    ensures
        key == capability_of(name@),
{
    if starts_with(name, MEMORY_PREFIX) {
        digest(MEMORY_PREFIX.as_bytes())
    } else {
        digest(name.as_bytes())
    }
}

fn find_call<'a>(blocks: &'a Vec<ContentBlock>, id: &str) -> (call: Option<&'a ToolCall>)
    ensures
        match call {
            Some(found) => call_for(blocks@, id@) == Some(*found),
            None => call_for(blocks@, id@) == None::<ToolCall>,
        },
{
    let mut i: usize = 0;
    assert(blocks@.skip(0) =~= blocks@);
    while i < blocks.len()
        invariant
            i <= blocks@.len(),
            call_for(blocks@, id@) == call_for(blocks@.skip(i as int), id@),
        decreases blocks@.len() - i,
    {
        assert(blocks@.skip(i as int).drop_first() =~= blocks@.skip(i + 1));
        match &blocks[i] {
            ContentBlock::ToolCall(call) => {
                if text_eq(call.id.as_str(), id) {
                    return Some(call);
                }
            },
            _ => {},
        }
        i += 1;
    }
    None
}

impl ProgressGuard {
    /// The guard at the start of an owner turn.
    pub fn new() -> (guard: ProgressGuard)
        ensures
            guard@ == fresh(),
    {
        ProgressGuard {
            failed: VecDeque::new(),
            denied: VecDeque::new(),
            unavailable: VecDeque::new(),
            consecutive_errors: 0,
            memory_rejections: 0,
            stopped: false,
        }
    }

    /// A restart within a turn is not a new owner turn: the guard is rebuilt
    /// from the current owner turn's committed call and result pairs, not from
    /// older turns or from what results say in prose.
    pub fn from_history(messages: &Vec<Message>) -> (guard: ProgressGuard)
        ensures
            guard@ == of_history(message_views(messages@)),
    {
        let ghost history = message_views(messages@);
        let mut start: usize = messages.len();
        assert(history.take(start as int) =~= history);
        while start > 0 && messages[start - 1].role != Role::User
            invariant
                start <= messages@.len(),
                history == message_views(messages@),
                turn_start(history.take(start as int)) == turn_start(history),
            decreases start,
        {
            assert(history.take(start as int).drop_last() =~= history.take(start - 1));
            start -= 1;
        }
        let ghost turn = history.skip(start as int);
        let mut guard = ProgressGuard::new();
        let nothing: Vec<ContentBlock> = Vec::new();
        let mut calls: &Vec<ContentBlock> = &nothing;
        let mut at: usize = start;
        assert(turn.take(0) =~= Seq::<MessageModel>::empty());
        while at < messages.len()
            invariant
                start <= at <= messages@.len(),
                history == message_views(messages@),
                turn == history.skip(start as int),
                replayed(turn.take(at - start)) == (guard@, calls@),
            decreases messages@.len() - at,
        {
            let message = &messages[at];
            assert(turn.take(at - start + 1).drop_last() =~= turn.take(at - start));
            assert(turn.take(at - start + 1).last() == message@);
            match message.role {
                Role::Assistant => {
                    calls = &message.content;
                },
                Role::Tool => {
                    guard.observe_results(calls, &message.content);
                },
                _ => {},
            }
            at += 1;
        }
        assert(turn.take(at - start) =~= turn);
        guard
    }

    fn observe_results(&mut self, calls: &Vec<ContentBlock>, blocks: &Vec<ContentBlock>)
        ensures
            final(self)@ == after_results(old(self)@, calls@, blocks@),
    {
        let mut i: usize = 0;
        while i < blocks.len()
            invariant
                i <= blocks@.len(),
                self@ == after_results(old(self)@, calls@, blocks@.take(i as int)),
            decreases blocks@.len() - i,
        {
            assert(blocks@.take(i + 1).drop_last() =~= blocks@.take(i as int));
            assert(blocks@.take(i + 1).last() == blocks@[i as int]);
            match &blocks[i] {
                ContentBlock::ToolResult(result) => {
                    match find_call(calls, result.call_id.as_str()) {
                        Some(call) => self.observe(call, result),
                        None => {},
                    }
                },
                _ => {},
            }
            i += 1;
        }
        assert(blocks@.take(i as int) =~= blocks@);
    }

    /// The result that stands in for a call that must not run, if it must not.
    pub fn blocked_result(&self, call: &ToolCall) -> (blocked: Option<ToolResult>)
        ensures
            match refusal(self@, *call) {
                Some((output, failure)) => blocked matches Some(result) && result.call_id
                    == call.id && result.output@ == output && result.status
                    == ToolResultStatus::Error && result.failure == failure,
                None => blocked is None,
            },
    {
        if self.stopped {
            Some(ToolResult::error(call.id.clone(), STOP_REASON))
        } else if holds(&self.unavailable, &capability(call.name.as_str())) {
            Some(ToolResult::unavailable(call.id.clone(), UNAVAILABLE_REASON))
        } else if self.memory_recovery_needed() && starts_with(call.name.as_str(), MEMORY_PREFIX)
            && !text_eq(call.name.as_str(), MEMORY_LOOKUP) {
            let mut result = ToolResult::error(call.id.clone(), MEMORY_REPAIR_REASON);
            result.failure = Some(ToolFailure::InvalidMemorySource);
            Some(result)
        } else if holds(&self.denied, &call.pattern_fingerprint()) {
            Some(ToolResult::denied(call.id.clone(), DENIED_REASON))
        } else {
            None
        }
    }

    /// Whether the turn is over for its failures.
    pub fn stopped(&self) -> (yes: bool)
        ensures
            yes == self@.stopped,
    {
        self.stopped
    }

    /// Whether no memory change will be attempted any more in this turn.
    pub fn memory_recovery_needed(&self) -> (yes: bool)
        ensures
            yes == (self@.memory_rejections >= MEMORY_REPAIR_LIMIT),
    {
        self.memory_rejections >= MEMORY_REPAIR_LIMIT
    }

    /// How many failed requests are remembered.
    pub fn failed_count(&self) -> (count: usize)
        ensures
            count == self@.failed.len(),
    {
        self.failed.len()
    }

    /// Takes one result of one call into account.
    pub fn observe(&mut self, call: &ToolCall, result: &ToolResult)
        ensures
            final(self)@ == observed(old(self)@, *call, *result),
    {
        let pattern = call.pattern_fingerprint();
        match result.status {
            ToolResultStatus::Success => {
                self.consecutive_errors = 0;
                self.failed = without(&self.failed, &pattern);
                return ;
            },
            ToolResultStatus::Error => {},
        }
        match result.failure {
            Some(ToolFailure::Unavailable) => {
                let key = capability(call.name.as_str());
                if holds(&self.unavailable, &key) {
                    self.stopped = true;
                } else {
                    remember(&mut self.unavailable, key);
                }
            },
            Some(ToolFailure::PermissionDenied) => {
                if !holds(&self.denied, &pattern) {
                    remember(&mut self.denied, pattern);
                }
            },
            Some(ToolFailure::InvalidMemorySource) => {
                self.memory_rejections = self.memory_rejections.saturating_add(1);
            },
            None => {},
        }
        self.consecutive_errors = self.consecutive_errors.saturating_add(1);
        remember(&mut self.failed, pattern);
        if count(&self.failed, &pattern) >= REPEAT_LIMIT || self.consecutive_errors
            >= CONSECUTIVE_ERROR_LIMIT {
            self.stopped = true;
        }
    }
}

/// What the guard keeps whatever it observes: its windows stay small and its
/// counts fit the machine.
pub open spec fn bounded(progress: Progress) -> bool {
    &&& progress.consecutive_errors <= usize::MAX
    &&& progress.memory_rejections <= usize::MAX
    &&& progress.failed.len() <= WINDOW
    &&& progress.denied.len() <= WINDOW
    &&& progress.unavailable.len() <= WINDOW
}

proof fn filter_is_no_longer(window: Seq<[u8; 32]>, keep: spec_fn([u8; 32]) -> bool)
    ensures
        window.filter(keep).len() <= window.len(),
    decreases window.len(),
{
    reveal(Seq::filter);
    if window.len() > 0 {
        filter_is_no_longer(window.drop_last(), keep);
    }
}

proof fn push_counts(window: Seq<[u8; 32]>, pushed: [u8; 32], entry: [u8; 32])
    ensures
        occurrences(window.push(pushed), entry) == occurrences(window, entry) + if pushed
            == entry {
            1nat
        } else {
            0nat
        },
{
    reveal(Seq::filter);
    assert(window.push(pushed).drop_last() =~= window);
}

/// No observation lets a window grow past its bound.
pub proof fn windows_stay_bounded(before: Progress, call: ToolCall, result: ToolResult)
    requires
        bounded(before),
    ensures
        bounded(observed(before, call, result)),
{
    let pattern = call_pattern(call.name@, call.arguments@);
    filter_is_no_longer(before.failed, |held: [u8; 32]| held != pattern);
}

proof fn results_stay_bounded(before: Progress, calls: Seq<ContentBlock>, blocks: Seq<ContentBlock>)
    requires
        bounded(before),
    ensures
        bounded(after_results(before, calls, blocks)),
    decreases blocks.len(),
{
    if blocks.len() > 0 {
        results_stay_bounded(before, calls, blocks.drop_last());
        let earlier = after_results(before, calls, blocks.drop_last());
        if let ContentBlock::ToolResult(result) = blocks.last() {
            if let Some(call) = call_for(calls, result.call_id@) {
                windows_stay_bounded(earlier, call, result);
            }
        }
    }
}

proof fn replay_is_bounded(messages: Seq<MessageModel>)
    ensures
        bounded(replayed(messages).0),
    decreases messages.len(),
{
    if messages.len() > 0 {
        replay_is_bounded(messages.drop_last());
        let (progress, calls) = replayed(messages.drop_last());
        results_stay_bounded(progress, calls, messages.last().content);
    }
}

/// However long a history is, the guard rebuilt from it is small.
pub proof fn history_guard_is_bounded(messages: Seq<MessageModel>)
    ensures
        bounded(of_history(messages)),
{
    replay_is_bounded(messages.skip(turn_start(messages) as int));
}

/// A stopped turn stays stopped, and every call of it is refused with the
/// reason.
pub proof fn stopping_is_final(before: Progress, call: ToolCall, result: ToolResult, next: ToolCall)
    requires
        before.stopped,
    ensures
        observed(before, call, result).stopped,
        refusal(observed(before, call, result), next) == Some(
            (STOP_REASON@, None::<ToolFailure>),
        ),
{
}

/// Success is never counted against the turn: it ends the streak of errors and
/// forgets the failures of the same request.
pub proof fn success_is_not_failure(before: Progress, call: ToolCall, result: ToolResult)
    requires
        result.status == ToolResultStatus::Success,
    ensures
        observed(before, call, result).stopped == before.stopped,
        observed(before, call, result).consecutive_errors == 0,
        !observed(before, call, result).failed.contains(call_pattern(call.name@, call.arguments@)),
{
    let pattern = call_pattern(call.name@, call.arguments@);
    let other = |held: [u8; 32]| held != pattern;
    let kept = before.failed.filter(other);
    if kept.contains(pattern) {
        let at = kept.index_of(pattern);
        filter_keeps_only(before.failed, other, at);
    }
}

proof fn filter_keeps_only(window: Seq<[u8; 32]>, keep: spec_fn([u8; 32]) -> bool, at: int)
    requires
        0 <= at < window.filter(keep).len(),
    ensures
        keep(window.filter(keep)[at]),
    decreases window.len(),
{
    reveal(Seq::filter);
    if window.len() > 0 {
        let rest = window.drop_last().filter(keep);
        if at < rest.len() {
            filter_keeps_only(window.drop_last(), keep, at);
        }
    }
}

/// The third failure of the same request, whatever its call ids, ends a turn.
pub proof fn third_repeat_stops(
    before: Progress,
    first: ToolCall,
    second: ToolCall,
    third: ToolCall,
    failure: ToolResult,
)
    requires
        bounded(before),
        failure.status == ToolResultStatus::Error,
        call_pattern(first.name@, first.arguments@) == call_pattern(
            second.name@,
            second.arguments@,
        ),
        call_pattern(second.name@, second.arguments@) == call_pattern(
            third.name@,
            third.arguments@,
        ),
    ensures
        observed(
            observed(observed(before, first, failure), second, failure),
            third,
            failure,
        ).stopped,
{
    let pattern = call_pattern(first.name@, first.arguments@);
    let one = observed(before, first, failure);
    let two = observed(one, second, failure);
    let three = remembered(two.failed, pattern);
    let rest = three.drop_last().drop_last().drop_last();
    assert(three =~= rest.push(pattern).push(pattern).push(pattern));
    push_counts(rest, pattern, pattern);
    push_counts(rest.push(pattern), pattern, pattern);
    push_counts(rest.push(pattern).push(pattern), pattern, pattern);
}

/// A run of observed results, one after another.
pub open spec fn observed_all(
    before: Progress,
    calls: Seq<ToolCall>,
    results: Seq<ToolResult>,
) -> Progress
    decreases calls.len(),
{
    if calls.len() == 0 || calls.len() != results.len() {
        before
    } else {
        observed(
            observed_all(before, calls.drop_last(), results.drop_last()),
            calls.last(),
            results.last(),
        )
    }
}

/// Errors one after another end a turn once there are enough of them, whatever
/// tools and arguments they were for.
pub proof fn error_streak_stops(before: Progress, calls: Seq<ToolCall>, results: Seq<ToolResult>)
    requires
        bounded(before),
        calls.len() == results.len(),
        forall|i: int|
            0 <= i < results.len() ==> (#[trigger] results[i]).status == ToolResultStatus::Error,
    ensures
        observed_all(before, calls, results).consecutive_errors == saturated(
            before.consecutive_errors + calls.len(),
        ),
        calls.len() >= CONSECUTIVE_ERROR_LIMIT ==> observed_all(before, calls, results).stopped,
    decreases calls.len(),
{
    if calls.len() > 0 {
        let shorter = results.drop_last();
        assert forall|i: int| 0 <= i < shorter.len() implies (#[trigger] shorter[i]).status
            == ToolResultStatus::Error by {
            assert(shorter[i] == results[i]);
        }
        assert(results.last() == results[results.len() - 1]);
        error_streak_stops(before, calls.drop_last(), shorter);
    }
}

/// Once a request was denied, asking again for the same thing is refused as
/// denied, unless the whole tool or the whole turn is closed already.
pub proof fn denial_covers_the_request(
    before: Progress,
    call: ToolCall,
    result: ToolResult,
    again: ToolCall,
)
    requires
        result.status == ToolResultStatus::Error,
        result.failure == Some(ToolFailure::PermissionDenied),
        call_pattern(call.name@, call.arguments@) == call_pattern(again.name@, again.arguments@),
    ensures
        observed(before, call, result).denied.contains(
            call_pattern(call.name@, call.arguments@),
        ),
        refusal(observed(before, call, result), again) is Some,
{
    let pattern = call_pattern(call.name@, call.arguments@);
    let after = observed(before, call, result).denied;
    if !before.denied.contains(pattern) {
        assert(after.last() == pattern);
        assert(after[after.len() - 1] == pattern);
    }
}

/// Once a capability was unavailable, every call that stands on it is refused,
/// whatever its arguments; asking again all the same ends the turn.
pub proof fn unavailability_covers_the_capability(
    before: Progress,
    call: ToolCall,
    result: ToolResult,
    again: ToolCall,
)
    requires
        result.status == ToolResultStatus::Error,
        result.failure == Some(ToolFailure::Unavailable),
        capability_of(call.name@) == capability_of(again.name@),
    ensures
        refusal(observed(before, call, result), again) is Some,
        observed(observed(before, call, result), again, result).stopped,
{
    let capability = capability_of(call.name@);
    let after = observed(before, call, result).unavailable;
    if !before.unavailable.contains(capability) {
        assert(after.last() == capability);
        assert(after[after.len() - 1] == capability);
    }
}

/// The memory tools stand or fall together.
pub proof fn memory_tools_share_a_capability(one: Seq<char>, other: Seq<char>)
    requires
        memory_tool(one),
        memory_tool(other),
    ensures
        capability_of(one) == capability_of(other),
{
}

/// After two rejected memory changes, whatever else was observed in between,
/// every further memory change is refused.
pub proof fn rejected_memory_changes_close_memory(progress: Progress, call: ToolCall)
    requires
        progress.memory_rejections >= MEMORY_REPAIR_LIMIT,
        memory_change(call.name@),
    ensures
        refusal(progress, call) is Some,
{
}

/// Rejections of memory changes are never forgotten within a turn.
pub proof fn memory_rejections_only_grow(before: Progress, call: ToolCall, result: ToolResult)
    requires
        bounded(before),
    ensures
        before.memory_rejections <= observed(before, call, result).memory_rejections,
{
}

/// Only what followed the latest owner message counts: new owner input starts
/// afresh, whatever failed before it.
pub proof fn owner_input_starts_afresh(messages: Seq<MessageModel>, input: MessageModel)
    requires
        input.role == Role::User,
    ensures
        of_history(messages.push(input)) == fresh(),
        !fresh().stopped,
        forall|call: ToolCall| (#[trigger] refusal(fresh(), call)) is None,
{
    let history = messages.push(input);
    assert(history.last() == input);
    assert(history.skip(history.len() as int) =~= Seq::<MessageModel>::empty());
}

proof fn turn_start_is_inside(messages: Seq<MessageModel>)
    ensures
        turn_start(messages) <= messages.len(),
    decreases messages.len(),
{
    if messages.len() > 0 && messages.last().role != Role::User {
        turn_start_is_inside(messages.drop_last());
    }
}

/// A restart within a turn loses nothing: the guard rebuilt from a history that
/// one more tool result was committed to is the guard of the history before it
/// after that result was observed.
pub proof fn restart_keeps_the_turn(messages: Seq<MessageModel>, tool: MessageModel)
    requires
        tool.role == Role::Tool,
    ensures
        of_history(messages.push(tool)) == after_results(
            of_history(messages),
            replayed(messages.skip(turn_start(messages) as int)).1,
            tool.content,
        ),
{
    turn_start_is_inside(messages);
    let history = messages.push(tool);
    assert(history.drop_last() =~= messages);
    let start = turn_start(messages) as int;
    assert(history.skip(start).drop_last() =~= messages.skip(start));
    assert(history.skip(start).last() == tool);
}

/// A round of a turn that ended in a failure: the assistant asked for a request,
/// and the tool message holds the one error that came of it.
pub struct FailedRound {
    pub asked: MessageModel,
    pub answered: MessageModel,
}

/// Whether a round failed on a request. An unavailable capability is not such a
/// failure: it closes at once.
pub open spec fn fails_on(round: FailedRound, pattern: [u8; 32]) -> bool {
    &&& round.asked.role == Role::Assistant
    &&& round.answered.role == Role::Tool
    &&& round.answered.content.len() == 1
    &&& round.answered.content[0] matches ContentBlock::ToolResult(result)
    &&& result.status == ToolResultStatus::Error
    &&& result.failure != Some(ToolFailure::Unavailable)
    &&& call_for(round.asked.content, result.call_id@) matches Some(call)
    &&& call_pattern(call.name@, call.arguments@) == pattern
}

/// The messages of rounds, one after another.
pub open spec fn told(rounds: Seq<FailedRound>) -> Seq<MessageModel>
    decreases rounds.len(),
{
    if rounds.len() == 0 {
        Seq::empty()
    } else {
        told(rounds.drop_last()).push(rounds.last().asked).push(rounds.last().answered)
    }
}

proof fn repeats_count(rounds: Seq<FailedRound>, pattern: [u8; 32])
    requires
        forall|i: int| 0 <= i < rounds.len() ==> fails_on(#[trigger] rounds[i], pattern),
    ensures
        replayed(told(rounds)).0.stopped == (rounds.len() >= REPEAT_LIMIT),
        rounds.len() < REPEAT_LIMIT ==> {
            let progress = replayed(told(rounds)).0;
            &&& progress.failed.len() == rounds.len()
            &&& occurrences(progress.failed, pattern) == rounds.len()
            &&& progress.consecutive_errors == rounds.len()
        },
    decreases rounds.len(),
{
    if rounds.len() == 0 {
        reveal(Seq::filter);
    } else {
        let earlier = rounds.drop_last();
        assert forall|i: int| 0 <= i < earlier.len() implies fails_on(
            #[trigger] earlier[i],
            pattern,
        ) by {
            assert(earlier[i] == rounds[i]);
        }
        repeats_count(earlier, pattern);
        let round = rounds[rounds.len() - 1];
        assert(fails_on(round, pattern));
        let before = replayed(told(earlier)).0;
        let asked = told(earlier).push(round.asked);
        let answered = asked.push(round.answered);
        assert(asked.drop_last() =~= told(earlier));
        assert(answered.drop_last() =~= asked);
        assert(replayed(asked) == (before, round.asked.content));
        let blocks = round.answered.content;
        assert(blocks.drop_last() =~= Seq::<ContentBlock>::empty());
        reveal_with_fuel(after_results, 2);
        push_counts(before.failed, pattern, pattern);
    }
}

proof fn turn_starts_after(messages: Seq<MessageModel>, input: MessageModel, rest: Seq<MessageModel>)
    requires
        input.role == Role::User,
    ensures
        turn_start(messages.push(input) + rest) == messages.len() + 1 + turn_start(rest),
    decreases rest.len(),
{
    let history = messages.push(input) + rest;
    if rest.len() == 0 {
        assert(history =~= messages.push(input));
        assert(history.last() == input);
    } else {
        assert(history.drop_last() =~= messages.push(input) + rest.drop_last());
        assert(history.last() == rest.last());
        turn_starts_after(messages, input, rest.drop_last());
    }
}

/// What came before an owner message never matters to what follows it.
pub proof fn earlier_turns_never_matter(
    messages: Seq<MessageModel>,
    input: MessageModel,
    rest: Seq<MessageModel>,
)
    requires
        input.role == Role::User,
    ensures
        of_history(messages.push(input) + rest) == of_history(rest),
{
    turn_starts_after(messages, input, rest);
    turn_start_is_inside(rest);
    let history = messages.push(input) + rest;
    assert(history.skip(turn_start(history) as int) =~= rest.skip(turn_start(rest) as int));
}

proof fn rounds_have_no_owner_message(rounds: Seq<FailedRound>, pattern: [u8; 32])
    requires
        forall|i: int| 0 <= i < rounds.len() ==> fails_on(#[trigger] rounds[i], pattern),
    ensures
        turn_start(told(rounds)) == 0,
    decreases rounds.len(),
{
    if rounds.len() > 0 {
        let earlier = rounds.drop_last();
        assert forall|i: int| 0 <= i < earlier.len() implies fails_on(
            #[trigger] earlier[i],
            pattern,
        ) by {
            assert(earlier[i] == rounds[i]);
        }
        rounds_have_no_owner_message(earlier, pattern);
        let round = rounds[rounds.len() - 1];
        assert(fails_on(round, pattern));
        let asked = told(earlier).push(round.asked);
        assert(asked.drop_last() =~= told(earlier));
        assert(asked.push(round.answered).drop_last() =~= asked);
        reveal_with_fuel(turn_start, 3);
    }
}

/// However often one request failed since the latest owner message, and whatever
/// came before that message, the guard that is rebuilt from the history is
/// stopped exactly from the third failure on: a restart keeps the count.
pub proof fn restart_counts_repeats(
    messages: Seq<MessageModel>,
    input: MessageModel,
    rounds: Seq<FailedRound>,
    pattern: [u8; 32],
)
    requires
        input.role == Role::User,
        forall|i: int| 0 <= i < rounds.len() ==> fails_on(#[trigger] rounds[i], pattern),
    ensures
        of_history(messages.push(input) + told(rounds)).stopped == (rounds.len() >= REPEAT_LIMIT),
{
    earlier_turns_never_matter(messages, input, told(rounds));
    rounds_have_no_owner_message(rounds, pattern);
    assert(told(rounds).skip(0) =~= told(rounds));
    repeats_count(rounds, pattern);
}

/// How often a request came back as an error among results.
pub open spec fn failures(calls: Seq<ToolCall>, results: Seq<ToolResult>, pattern: [u8; 32]) -> nat
    decreases calls.len(),
{
    if calls.len() == 0 || calls.len() != results.len() {
        0
    } else {
        failures(calls.drop_last(), results.drop_last(), pattern) + if results.last().status
            == ToolResultStatus::Error && call_pattern(calls.last().name@, calls.last().arguments@)
            == pattern {
            1nat
        } else {
            0nat
        }
    }
}

/// How many errors stand at the end of results, without a success among them.
pub open spec fn streak(results: Seq<ToolResult>) -> nat
    decreases results.len(),
{
    if results.len() == 0 || results.last().status != ToolResultStatus::Error {
        0
    } else {
        streak(results.drop_last()) + 1
    }
}

/// Whether a result says that the capability of its call is unavailable.
pub open spec fn misses(call: ToolCall, result: ToolResult, capability: [u8; 32]) -> bool {
    &&& result.status == ToolResultStatus::Error
    &&& result.failure == Some(ToolFailure::Unavailable)
    &&& capability_of(call.name@) == capability
}

/// Whether results give a cause to stop: one request failed three times, six errors
/// followed one another, or an unavailable capability was asked for again.
pub open spec fn cause_to_stop(calls: Seq<ToolCall>, results: Seq<ToolResult>) -> bool {
    ||| exists|pattern: [u8; 32]| #[trigger] failures(calls, results, pattern) >= 3
    ||| exists|n: int| 0 <= n <= results.len() && streak(#[trigger] results.take(n)) >= 6
    ||| exists|i: int, j: int, capability: [u8; 32]|
        0 <= i < j < results.len() && #[trigger] misses(calls[i], results[i], capability)
            && #[trigger] misses(calls[j], results[j], capability)
}

proof fn causes_stay(calls: Seq<ToolCall>, results: Seq<ToolResult>)
    requires
        calls.len() == results.len(),
        calls.len() > 0,
        cause_to_stop(calls.drop_last(), results.drop_last()),
    ensures
        cause_to_stop(calls, results),
{
    let earlier = calls.drop_last();
    let before = results.drop_last();
    if exists|pattern: [u8; 32]| #[trigger] failures(earlier, before, pattern) >= 3 {
        let pattern = choose|pattern: [u8; 32]| #[trigger] failures(earlier, before, pattern) >= 3;
        assert(failures(calls, results, pattern) >= 3);
    } else if exists|n: int| 0 <= n <= before.len() && streak(#[trigger] before.take(n)) >= 6 {
        let n = choose|n: int| 0 <= n <= before.len() && streak(#[trigger] before.take(n)) >= 6;
        assert(results.take(n) =~= before.take(n));
    } else {
        let (i, j, capability) = choose|i: int, j: int, capability: [u8; 32]|
            0 <= i < j < before.len() && #[trigger] misses(earlier[i], before[i], capability)
                && #[trigger] misses(earlier[j], before[j], capability);
        assert(misses(calls[i], results[i], capability));
        assert(misses(calls[j], results[j], capability));
    }
}

proof fn filtering_counts(window: Seq<[u8; 32]>, keep: spec_fn([u8; 32]) -> bool, entry: [u8; 32])
    ensures
        occurrences(window.filter(keep), entry) <= occurrences(window, entry),
    decreases window.len(),
{
    reveal(Seq::filter);
    if window.len() > 0 {
        let rest = window.drop_last();
        filtering_counts(rest, keep, entry);
        if keep(window.last()) {
            push_counts(rest.filter(keep), window.last(), entry);
        }
        assert(window =~= rest.push(window.last()));
        push_counts(rest, window.last(), entry);
    }
}

proof fn dropping_counts(window: Seq<[u8; 32]>, entry: [u8; 32])
    requires
        window.len() > 0,
    ensures
        occurrences(window.drop_first(), entry) <= occurrences(window, entry),
    decreases window.len(),
{
    reveal(Seq::filter);
    if window.len() == 1 {
        assert(window.drop_first() =~= Seq::<[u8; 32]>::empty());
    } else {
        let rest = window.drop_last();
        dropping_counts(rest, entry);
        assert(window =~= rest.push(window.last()));
        push_counts(rest, window.last(), entry);
        assert(window.drop_first() =~= rest.drop_first().push(window.last()));
        push_counts(rest.drop_first(), window.last(), entry);
    }
}

proof fn remembering_counts(window: Seq<[u8; 32]>, pushed: [u8; 32], entry: [u8; 32])
    ensures
        occurrences(remembered(window, pushed), entry) <= occurrences(window, entry) + if pushed
            == entry {
            1nat
        } else {
            0nat
        },
{
    if window.len() == WINDOW {
        dropping_counts(window, entry);
        push_counts(window.drop_first(), pushed, entry);
    } else {
        push_counts(window, pushed, entry);
    }
}

proof fn guards_know_what_happened(calls: Seq<ToolCall>, results: Seq<ToolResult>)
    requires
        calls.len() == results.len(),
    ensures
        ({
            let guard = observed_all(fresh(), calls, results);
            &&& bounded(guard)
            &&& forall|pattern: [u8; 32]| #[trigger]
                occurrences(guard.failed, pattern) <= failures(calls, results, pattern)
            &&& guard.consecutive_errors <= streak(results)
            &&& forall|capability: [u8; 32]| #[trigger]
                guard.unavailable.contains(capability) ==> exists|i: int|
                    0 <= i < results.len() && #[trigger] misses(calls[i], results[i], capability)
            &&& guard.stopped ==> cause_to_stop(calls, results)
        }),
    decreases calls.len(),
{
    if calls.len() == 0 {
        reveal(Seq::filter);
        assert forall|pattern: [u8; 32]| #[trigger] occurrences(fresh().failed, pattern)
            <= failures(calls, results, pattern) by {}
    } else {
        let earlier = calls.drop_last();
        let before_results = results.drop_last();
        guards_know_what_happened(earlier, before_results);
        let before = observed_all(fresh(), earlier, before_results);
        let call = calls.last();
        let result = results.last();
        let after = observed_all(fresh(), calls, results);
        let pattern = call_pattern(call.name@, call.arguments@);
        let capability = capability_of(call.name@);
        windows_stay_bounded(before, call, result);
        assert forall|entry: [u8; 32]| #[trigger] occurrences(after.failed, entry) <= failures(
            calls,
            results,
            entry,
        ) by {
            assert(occurrences(before.failed, entry) <= failures(earlier, before_results, entry));
            if result.status == ToolResultStatus::Success {
                filtering_counts(before.failed, |held: [u8; 32]| held != pattern, entry);
            } else {
                remembering_counts(before.failed, pattern, entry);
            }
        }
        assert forall|key: [u8; 32]| #[trigger] after.unavailable.contains(key) implies exists|
            i: int,
        |
            0 <= i < results.len() && #[trigger] misses(calls[i], results[i], key) by {
            if before.unavailable.contains(key) {
                let i = choose|i: int|
                    0 <= i < before_results.len() && #[trigger] misses(
                        earlier[i],
                        before_results[i],
                        key,
                    );
                assert(misses(calls[i], results[i], key));
            } else {
                let at = after.unavailable.index_of(key);
                assert(after.unavailable[at] == key);
                if after.unavailable != before.unavailable {
                    if key != capability {
                        if before.unavailable.len() == WINDOW {
                            assert(before.unavailable[at + 1] == key);
                        } else {
                            assert(before.unavailable[at] == key);
                        }
                    }
                }
                assert(misses(calls[calls.len() - 1], results[results.len() - 1], key));
            }
        }
        if after.stopped {
            if before.stopped {
                causes_stay(calls, results);
            } else if occurrences(after.failed, pattern) >= 3 {
                assert(failures(calls, results, pattern) >= 3);
            } else if after.consecutive_errors >= 6 {
                assert(results.take(results.len() as int) =~= results);
            } else {
                let i = choose|i: int|
                    0 <= i < before_results.len() && #[trigger] misses(
                        earlier[i],
                        before_results[i],
                        capability,
                    );
                assert(before.unavailable.contains(capability));
                assert(misses(calls[i], results[i], capability));
                assert(misses(calls[calls.len() - 1], results[results.len() - 1], capability));
            }
        }
    }
}

/// A guard stops a turn only for a cause that lies in what was observed: one request
/// failed three times, six errors followed one another, or a capability that was
/// unavailable was asked for again. Failures of different requests, with successes
/// between them, are none.
pub proof fn guards_stop_for_cause(calls: Seq<ToolCall>, results: Seq<ToolResult>)
    requires
        calls.len() == results.len(),
        observed_all(fresh(), calls, results).stopped,
    ensures
        cause_to_stop(calls, results),
{
    guards_know_what_happened(calls, results);
}

proof fn results_are_observed(
    before: Progress,
    calls: Seq<ContentBlock>,
    blocks: Seq<ContentBlock>,
    earlier: Seq<ToolCall>,
    told: Seq<ToolResult>,
) -> (seen: (Seq<ToolCall>, Seq<ToolResult>))
    requires
        earlier.len() == told.len(),
        before == observed_all(fresh(), earlier, told),
    ensures
        seen.0.len() == seen.1.len(),
        after_results(before, calls, blocks) == observed_all(fresh(), seen.0, seen.1),
    decreases blocks.len(),
{
    if blocks.len() == 0 {
        (earlier, told)
    } else {
        let seen = results_are_observed(before, calls, blocks.drop_last(), earlier, told);
        match blocks.last() {
            ContentBlock::ToolResult(result) => match call_for(calls, result.call_id@) {
                Some(call) => {
                    assert(seen.0.push(call).drop_last() =~= seen.0);
                    assert(seen.1.push(result).drop_last() =~= seen.1);
                    (seen.0.push(call), seen.1.push(result))
                },
                None => seen,
            },
            _ => seen,
        }
    }
}

proof fn replays_are_observed(messages: Seq<MessageModel>) -> (seen: (
    Seq<ToolCall>,
    Seq<ToolResult>,
))
    ensures
        seen.0.len() == seen.1.len(),
        replayed(messages).0 == observed_all(fresh(), seen.0, seen.1),
    decreases messages.len(),
{
    if messages.len() == 0 {
        (Seq::empty(), Seq::empty())
    } else {
        let seen = replays_are_observed(messages.drop_last());
        let (progress, calls) = replayed(messages.drop_last());
        if messages.last().role == Role::Tool {
            results_are_observed(progress, calls, messages.last().content, seen.0, seen.1)
        } else {
            seen
        }
    }
}

/// A guard that is rebuilt from a history has seen results one after another like any
/// other, and is stopped for a cause among them only.
pub proof fn rebuilt_guards_stop_for_cause(messages: Seq<MessageModel>) -> (seen: (
    Seq<ToolCall>,
    Seq<ToolResult>,
))
    ensures
        seen.0.len() == seen.1.len(),
        of_history(messages) == observed_all(fresh(), seen.0, seen.1),
        of_history(messages).stopped ==> cause_to_stop(seen.0, seen.1),
{
    let seen = replays_are_observed(messages.skip(turn_start(messages) as int));
    if of_history(messages).stopped {
        guards_stop_for_cause(seen.0, seen.1);
    }
    seen
}

/// A call is refused only for what the guard knows of it: the turn is stopped, its
/// capability was unavailable, the same request was denied, or memory changes were
/// rejected twice and it is another one. A call of which nothing is known is let
/// through.
pub proof fn refusals_have_a_reason(progress: Progress, call: ToolCall)
    ensures
        refusal(progress, call) is Some <==> {
            ||| progress.stopped
            ||| progress.unavailable.contains(capability_of(call.name@))
            ||| progress.denied.contains(call_pattern(call.name@, call.arguments@))
            ||| progress.memory_rejections >= 2 && MEMORY_PREFIX@.is_prefix_of(call.name@)
                && call.name@ != MEMORY_LOOKUP@
        },
        refusal(progress, call) matches Some((_, failure)) ==> match failure {
            None => progress.stopped,
            Some(ToolFailure::Unavailable) => progress.unavailable.contains(
                capability_of(call.name@),
            ),
            Some(ToolFailure::PermissionDenied) => progress.denied.contains(
                call_pattern(call.name@, call.arguments@),
            ),
            Some(ToolFailure::InvalidMemorySource) => progress.memory_rejections >= 2,
        },
{
}

/// What is remembered of a result is what it says: a denial closes the request, an
/// unavailable capability closes the capability, a rejected memory change is counted,
/// and any other failure closes nothing.
pub proof fn only_what_was_said_is_remembered(before: Progress, call: ToolCall, result: ToolResult)
    ensures
        ({
            let after = observed(before, call, result);
            let failed = result.status == ToolResultStatus::Error;
            &&& !(failed && result.failure == Some(ToolFailure::PermissionDenied)) ==> after.denied
                == before.denied
            &&& !(failed && result.failure == Some(ToolFailure::Unavailable))
                ==> after.unavailable == before.unavailable
            &&& !(failed && result.failure == Some(ToolFailure::InvalidMemorySource))
                ==> after.memory_rejections == before.memory_rejections
            &&& failed && result.failure == Some(ToolFailure::InvalidMemorySource)
                && before.memory_rejections < 2 ==> after.memory_rejections
                == before.memory_rejections + 1
            &&& failed ==> after.failed.contains(call_pattern(call.name@, call.arguments@))
        }),
{
    let pattern = call_pattern(call.name@, call.arguments@);
    let failed = remembered(before.failed, pattern);
    assert(failed.last() == pattern);
    assert(failed[failed.len() - 1] == pattern);
}

/// A call that is blocked is answered as an error, for that very call; one that is let
/// through is not answered at all.
pub proof fn blocked_calls_are_answered(
    guard: &ProgressGuard,
    call: &ToolCall,
    blocked: Option<ToolResult>,
)
    requires
        call_ensures(ProgressGuard::blocked_result, (guard, call), blocked),
    ensures
        blocked is Some <==> refusal(guard@, *call) is Some,
        blocked matches Some(result) ==> result.call_id@ == call.id@ && result.status
            == ToolResultStatus::Error,
        blocked matches Some(result) ==> (refusal(guard@, *call) matches Some((said, failure))
            && result.output@ == said && result.failure == failure),
{
}

}
