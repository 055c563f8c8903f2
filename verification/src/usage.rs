//! What model providers report of their use, and what is shown of it.

use crate::text::{
    decimal, decimal_text, ends_occur, longer_texts_hold_the_same, occurs, parts_occur,
};
use vstd::prelude::*;
use vstd::string::*;

verus! {

/// How many request affinities a turn remembers.
pub const AFFINITY_LIMIT: usize = 64;

/// What a provider reported of one request. What it did not report is unknown.
#[derive(Clone, Copy, Debug, PartialEq, Eq)]
pub struct ProviderUsage {
    pub input_tokens: Option<u64>,
    pub cached_input_tokens: Option<u64>,
    pub cache_write_input_tokens: Option<u64>,
    pub output_tokens: Option<u64>,
    pub reasoning_tokens: Option<u64>,
    pub tool_tokens: Option<u64>,
    pub total_tokens: Option<u64>,
    pub cost_microunits: Option<u64>,
    pub prompt_bytes: Option<u64>,
    pub tool_schema_bytes: Option<u64>,
    pub request_affinity: Option<[u8; 16]>,
}

/// The counts that a provider may report.
#[derive(Clone, Copy, PartialEq, Eq, Structural, Debug)]
pub enum UsageField {
    Input,
    CachedInput,
    CacheWriteInput,
    Output,
    Reasoning,
    Tool,
    Total,
    Cost,
    PromptBytes,
    ToolSchemaBytes,
}

/// What is known of the provider requests of one turn.
#[derive(Debug, PartialEq, Eq)]
pub struct AgentTurnUsage {
    pub input_tokens: Option<u64>,
    pub cached_input_tokens: Option<u64>,
    pub cache_write_input_tokens: Option<u64>,
    pub output_tokens: Option<u64>,
    pub reasoning_tokens: Option<u64>,
    pub tool_tokens: Option<u64>,
    pub total_tokens: Option<u64>,
    pub cost_microunits: Option<u64>,
    pub prompt_bytes: Option<u64>,
    pub tool_schema_bytes: Option<u64>,
    pub requests: u64,
    pub request_affinities: Vec<[u8; 16]>,
}

impl ProviderUsage {
    /// The reported count of one kind.
    pub open spec fn field(self, field: UsageField) -> Option<u64> {
        match field {
            UsageField::Input => self.input_tokens,
            UsageField::CachedInput => self.cached_input_tokens,
            UsageField::CacheWriteInput => self.cache_write_input_tokens,
            UsageField::Output => self.output_tokens,
            UsageField::Reasoning => self.reasoning_tokens,
            UsageField::Tool => self.tool_tokens,
            UsageField::Total => self.total_tokens,
            UsageField::Cost => self.cost_microunits,
            UsageField::PromptBytes => self.prompt_bytes,
            UsageField::ToolSchemaBytes => self.tool_schema_bytes,
        }
    }

    /// A report that says nothing.
    pub fn unknown() -> (usage: ProviderUsage)
        ensures
            forall|field: UsageField| (#[trigger] usage.field(field)) is None,
            usage.request_affinity is None,
    {
        ProviderUsage {
            input_tokens: None,
            cached_input_tokens: None,
            cache_write_input_tokens: None,
            output_tokens: None,
            reasoning_tokens: None,
            tool_tokens: None,
            total_tokens: None,
            cost_microunits: None,
            prompt_bytes: None,
            tool_schema_bytes: None,
            request_affinity: None,
        }
    }

    fn get(&self, field: UsageField) -> (count: Option<u64>)
        ensures
            count == self.field(field),
    {
        match field {
            UsageField::Input => self.input_tokens,
            UsageField::CachedInput => self.cached_input_tokens,
            UsageField::CacheWriteInput => self.cache_write_input_tokens,
            UsageField::Output => self.output_tokens,
            UsageField::Reasoning => self.reasoning_tokens,
            UsageField::Tool => self.tool_tokens,
            UsageField::Total => self.total_tokens,
            UsageField::Cost => self.cost_microunits,
            UsageField::PromptBytes => self.prompt_bytes,
            UsageField::ToolSchemaBytes => self.tool_schema_bytes,
        }
    }
}

/// Two counts together: known only where both are and their sum fits.
pub open spec fn merged_count(left: Option<u64>, right: Option<u64>) -> Option<u64> {
    match (left, right) {
        (Some(left), Some(right)) if left + right <= u64::MAX => Some((left + right) as u64),
        _ => None,
    }
}

/// The sum of two counts, if both are known and it fits.
pub fn merge_count(left: Option<u64>, right: Option<u64>) -> (sum: Option<u64>)
    ensures
        sum == merged_count(left, right),
{
    match (left, right) {
        (Some(left), Some(right)) => left.checked_add(right),
        _ => None,
    }
}

/// A number that stays at the largest machine value.
pub open spec fn capped(count: nat) -> u64 {
    if count > u64::MAX {
        u64::MAX
    } else {
        count as u64
    }
}

/// The affinities of two turns together: those of the second that are new, in
/// their order, as far as there is room.
pub open spec fn merged_affinities(left: Seq<[u8; 16]>, right: Seq<[u8; 16]>) -> Seq<[u8; 16]>
    decreases right.len(),
{
    if right.len() == 0 {
        left
    } else {
        let earlier = merged_affinities(left, right.drop_last());
        if earlier.len() >= AFFINITY_LIMIT || earlier.contains(right.last()) {
            earlier
        } else {
            earlier.push(right.last())
        }
    }
}

fn same_affinity(left: &[u8; 16], right: &[u8; 16]) -> (same: bool)
    ensures
        same == (*left == *right),
{
    let mut i: usize = 0;
    while i < 16
        invariant
            i <= 16,
            left@.take(i as int) == right@.take(i as int),
        decreases 16 - i,
    {
        if left[i] != right[i] {
            return false;
        }
        i += 1;
        assert(left@.take(i as int) =~= left@.take(i - 1).push(left@[i - 1]));
        assert(right@.take(i as int) =~= right@.take(i - 1).push(right@[i - 1]));
    }
    assert(left@.take(16) =~= left@);
    assert(right@.take(16) =~= right@);
    assert(left@ =~= right@);
    assert(*left =~= *right);
    true
}

fn has_affinity(affinities: &Vec<[u8; 16]>, wanted: &[u8; 16]) -> (found: bool)
    ensures
        found == affinities@.contains(*wanted),
{
    let mut i: usize = 0;
    while i < affinities.len()
        invariant
            i <= affinities@.len(),
            forall|j: int| 0 <= j < i ==> affinities@[j] != *wanted,
        decreases affinities@.len() - i,
    {
        if same_affinity(&affinities[i], wanted) {
            return true;
        }
        i += 1;
    }
    false
}

proof fn no_room_no_change(left: Seq<[u8; 16]>, right: Seq<[u8; 16]>, upto: int)
    requires
        0 <= upto <= right.len(),
        merged_affinities(left, right.take(upto)).len() >= AFFINITY_LIMIT,
    ensures
        merged_affinities(left, right) == merged_affinities(left, right.take(upto)),
    decreases right.len() - upto,
{
    if upto < right.len() {
        assert(right.take(upto + 1).drop_last() =~= right.take(upto));
        no_room_no_change(left, right, upto + 1);
    } else {
        assert(right.take(upto) =~= right);
    }
}

/// The affinities of two turns, without repeats of what is there already and
/// no more of them than are remembered.
pub fn merge_affinities(left: Vec<[u8; 16]>, right: Vec<[u8; 16]>) -> (merged: Vec<[u8; 16]>)
    ensures
        merged@ == merged_affinities(left@, right@),
{
    let mut merged = left;
    let mut i: usize = 0;
    while i < right.len()
        invariant
            i <= right@.len(),
            merged@ == merged_affinities(left@, right@.take(i as int)),
        decreases right@.len() - i,
    {
        if merged.len() >= AFFINITY_LIMIT {
            proof {
                no_room_no_change(left@, right@, i as int);
            }
            return merged;
        }
        let affinity = right[i];
        if !has_affinity(&merged, &affinity) {
            merged.push(affinity);
        }
        i += 1;
        assert(right@.take(i as int).drop_last() =~= right@.take(i - 1));
    }
    assert(right@.take(i as int) =~= right@);
    merged
}

impl AgentTurnUsage {
    /// The count of one kind.
    pub open spec fn field(self, field: UsageField) -> Option<u64> {
        match field {
            UsageField::Input => self.input_tokens,
            UsageField::CachedInput => self.cached_input_tokens,
            UsageField::CacheWriteInput => self.cache_write_input_tokens,
            UsageField::Output => self.output_tokens,
            UsageField::Reasoning => self.reasoning_tokens,
            UsageField::Tool => self.tool_tokens,
            UsageField::Total => self.total_tokens,
            UsageField::Cost => self.cost_microunits,
            UsageField::PromptBytes => self.prompt_bytes,
            UsageField::ToolSchemaBytes => self.tool_schema_bytes,
        }
    }

    /// Usage of which nothing is known.
    pub fn default() -> (usage: AgentTurnUsage)
        ensures
            usage.input_tokens is None,
            usage.cached_input_tokens is None,
            usage.cache_write_input_tokens is None,
            usage.output_tokens is None,
            usage.reasoning_tokens is None,
            usage.tool_tokens is None,
            usage.total_tokens is None,
            usage.cost_microunits is None,
            usage.prompt_bytes is None,
            usage.tool_schema_bytes is None,
            usage.requests == 0,
            usage.request_affinities@ == Seq::<[u8; 16]>::empty(),
    {
        AgentTurnUsage {
            input_tokens: None,
            cached_input_tokens: None,
            cache_write_input_tokens: None,
            output_tokens: None,
            reasoning_tokens: None,
            tool_tokens: None,
            total_tokens: None,
            cost_microunits: None,
            prompt_bytes: None,
            tool_schema_bytes: None,
            requests: 0,
            request_affinities: Vec::new(),
        }
    }

    /// Usage of no requests at all, all of it known.
    pub fn empty() -> (usage: AgentTurnUsage)
        ensures
            usage.input_tokens == Some(0u64),
            usage.cached_input_tokens == Some(0u64),
            usage.cache_write_input_tokens == Some(0u64),
            usage.output_tokens == Some(0u64),
            usage.reasoning_tokens == Some(0u64),
            usage.tool_tokens == Some(0u64),
            usage.total_tokens == Some(0u64),
            usage.cost_microunits == Some(0u64),
            usage.prompt_bytes == Some(0u64),
            usage.tool_schema_bytes == Some(0u64),
            usage.requests == 0,
            usage.request_affinities@ == Seq::<[u8; 16]>::empty(),
    {
        AgentTurnUsage {
            input_tokens: Some(0),
            cached_input_tokens: Some(0),
            cache_write_input_tokens: Some(0),
            output_tokens: Some(0),
            reasoning_tokens: Some(0),
            tool_tokens: Some(0),
            total_tokens: Some(0),
            cost_microunits: Some(0),
            prompt_bytes: Some(0),
            tool_schema_bytes: Some(0),
            requests: 0,
            request_affinities: Vec::new(),
        }
    }

    /// The usage of two parts of a turn together.
    pub fn merge(self, next: Self) -> (merged: Self)
        ensures
            merged.input_tokens == merged_count(self.input_tokens, next.input_tokens),
            merged.cached_input_tokens == merged_count(
                self.cached_input_tokens,
                next.cached_input_tokens,
            ),
            merged.cache_write_input_tokens == merged_count(
                self.cache_write_input_tokens,
                next.cache_write_input_tokens,
            ),
            merged.output_tokens == merged_count(self.output_tokens, next.output_tokens),
            merged.reasoning_tokens == merged_count(self.reasoning_tokens, next.reasoning_tokens),
            merged.tool_tokens == merged_count(self.tool_tokens, next.tool_tokens),
            merged.total_tokens == merged_count(self.total_tokens, next.total_tokens),
            merged.cost_microunits == merged_count(self.cost_microunits, next.cost_microunits),
            merged.prompt_bytes == merged_count(self.prompt_bytes, next.prompt_bytes),
            merged.tool_schema_bytes == merged_count(self.tool_schema_bytes, next.tool_schema_bytes),
            merged.requests == capped((self.requests + next.requests) as nat),
            merged.request_affinities@ == merged_affinities(
                self.request_affinities@,
                next.request_affinities@,
            ),
    {
        AgentTurnUsage {
            input_tokens: merge_count(self.input_tokens, next.input_tokens),
            cached_input_tokens: merge_count(self.cached_input_tokens, next.cached_input_tokens),
            cache_write_input_tokens: merge_count(
                self.cache_write_input_tokens,
                next.cache_write_input_tokens,
            ),
            output_tokens: merge_count(self.output_tokens, next.output_tokens),
            reasoning_tokens: merge_count(self.reasoning_tokens, next.reasoning_tokens),
            tool_tokens: merge_count(self.tool_tokens, next.tool_tokens),
            total_tokens: merge_count(self.total_tokens, next.total_tokens),
            cost_microunits: merge_count(self.cost_microunits, next.cost_microunits),
            prompt_bytes: merge_count(self.prompt_bytes, next.prompt_bytes),
            tool_schema_bytes: merge_count(self.tool_schema_bytes, next.tool_schema_bytes),
            requests: self.requests.saturating_add(next.requests),
            request_affinities: merge_affinities(self.request_affinities, next.request_affinities),
        }
    }
}

/// A running count, and whether every turn reported its part.
#[derive(Clone, Copy, Debug, PartialEq, Eq)]
pub struct UsageCounter {
    pub value: u64,
    pub complete: bool,
}

impl UsageCounter {
    /// The counter after one observation.
    pub open spec fn observed(self, count: Option<u64>) -> UsageCounter {
        match count {
            Some(value) => UsageCounter {
                value: capped((self.value + value) as nat),
                complete: self.complete,
            },
            None => UsageCounter { value: self.value, complete: false },
        }
    }

    /// A counter that saw nothing.
    pub fn default() -> (counter: UsageCounter)
        ensures
            counter == (UsageCounter { value: 0, complete: true }),
    {
        UsageCounter { value: 0, complete: true }
    }

    /// Takes one turn's count into account.
    pub fn observe(&mut self, observed: Option<u64>)
        ensures
            *final(self) == old(self).observed(observed),
    {
        match observed {
            Some(value) => {
                self.value = self.value.saturating_add(value);
            },
            None => {
                self.complete = false;
            },
        }
    }

    /// What is shown of a counter whose value is written as `value`.
    pub open spec fn shown(self, value: Seq<char>) -> Seq<char> {
        if self.complete {
            value
        } else if self.value == 0 {
            "unknown"@
        } else {
            "at least "@ + value + " (partial)"@
        }
    }

    /// The counter as a number of units.
    pub fn render(&self) -> (text: String)
        ensures
            text@ == self.shown(decimal(self.value as nat)),
    {
        if self.complete {
            decimal_text(self.value)
        } else if self.value == 0 {
            "unknown".to_owned()
        } else {
            let mut text = "at least ".to_owned();
            text.append(decimal_text(self.value).as_str());
            text.append(" (partial)");
            text
        }
    }

    /// The counter as an amount of money; `dollars` is the value in dollars.
    pub fn render_microunits(&self, dollars: &str) -> (text: String)
        ensures
            text@ == self.shown("$"@ + dollars@),
    {
        let mut amount = "$".to_owned();
        amount.append(dollars);
        if self.complete {
            amount
        } else if self.value == 0 {
            "unknown".to_owned()
        } else {
            let mut text = "at least ".to_owned();
            text.append(amount.as_str());
            text.append(" (partial)");
            text
        }
    }

    /// Whether there is anything to show beyond a complete zero.
    pub open spec fn notable(self) -> bool {
        self.value > 0 || !self.complete
    }
}

/// What the current process has used of its providers.
#[derive(Clone, Copy, Debug, PartialEq, Eq)]
pub struct SessionUsage {
    pub turns: u64,
    pub requests: u64,
    pub input_tokens: UsageCounter,
    pub cached_input_tokens: UsageCounter,
    pub cache_write_input_tokens: UsageCounter,
    pub output_tokens: UsageCounter,
    pub reasoning_tokens: UsageCounter,
    pub tool_tokens: UsageCounter,
    pub total_tokens: UsageCounter,
    pub cost_microunits: UsageCounter,
}

/// An optional detail of the usage line.
pub open spec fn with_detail(
    line: Seq<char>,
    label: Seq<char>,
    counter: UsageCounter,
    value: Seq<char>,
) -> Seq<char> {
    if counter.notable() {
        line + " · "@ + label + " "@ + counter.shown(value)
    } else {
        line
    }
}

fn push_detail(
    line: &mut String,
    label: &str,
    counter: &UsageCounter,
    shown: String,
    Ghost(value): Ghost<Seq<char>>,
)
    requires
        shown@ == counter.shown(value),
    ensures
        final(line)@ == with_detail(old(line)@, label@, *counter, value),
{
    if counter.value > 0 || !counter.complete {
        line.append(" · ");
        line.append(label);
        line.append(" ");
        line.append(shown.as_str());
    }
}

impl SessionUsage {
    /// The start of the usage line: what is always shown.
    pub open spec fn summary(self) -> Seq<char> {
        "Current process: "@ + decimal(self.turns as nat) + " turn(s), "@ + decimal(
            self.requests as nat,
        ) + " provider request(s) · input "@ + self.input_tokens.shown(
            decimal(self.input_tokens.value as nat),
        ) + " · output "@ + self.output_tokens.shown(decimal(self.output_tokens.value as nat))
            + " · total "@ + self.total_tokens.shown(decimal(self.total_tokens.value as nat))
    }

    /// The usage line with every detail that says something.
    pub open spec fn line(self, dollars: Seq<char>) -> Seq<char> {
        let with_reads = with_detail(
            self.summary(),
            "cache read"@,
            self.cached_input_tokens,
            decimal(self.cached_input_tokens.value as nat),
        );
        let with_writes = with_detail(
            with_reads,
            "cache write"@,
            self.cache_write_input_tokens,
            decimal(self.cache_write_input_tokens.value as nat),
        );
        let with_reasoning = with_detail(
            with_writes,
            "reasoning"@,
            self.reasoning_tokens,
            decimal(self.reasoning_tokens.value as nat),
        );
        let with_tools = with_detail(
            with_reasoning,
            "tool"@,
            self.tool_tokens,
            decimal(self.tool_tokens.value as nat),
        );
        with_detail(
            with_tools,
            "provider-reported cost"@,
            self.cost_microunits,
            "$"@ + dollars,
        )
    }

    /// The usage of a process that completed no turn.
    pub open spec fn nothing() -> SessionUsage {
        let zero = UsageCounter { value: 0, complete: true };
        SessionUsage {
            turns: 0,
            requests: 0,
            input_tokens: zero,
            cached_input_tokens: zero,
            cache_write_input_tokens: zero,
            output_tokens: zero,
            reasoning_tokens: zero,
            tool_tokens: zero,
            total_tokens: zero,
            cost_microunits: zero,
        }
    }

    /// The usage after one more turn.
    pub open spec fn observed(self, usage: AgentTurnUsage) -> SessionUsage {
        SessionUsage {
            turns: capped((self.turns + 1) as nat),
            requests: capped((self.requests + usage.requests) as nat),
            input_tokens: self.input_tokens.observed(usage.input_tokens),
            cached_input_tokens: self.cached_input_tokens.observed(usage.cached_input_tokens),
            cache_write_input_tokens: self.cache_write_input_tokens.observed(
                usage.cache_write_input_tokens,
            ),
            output_tokens: self.output_tokens.observed(usage.output_tokens),
            reasoning_tokens: self.reasoning_tokens.observed(usage.reasoning_tokens),
            tool_tokens: self.tool_tokens.observed(usage.tool_tokens),
            total_tokens: self.total_tokens.observed(usage.total_tokens),
            cost_microunits: self.cost_microunits.observed(usage.cost_microunits),
        }
    }

    /// The usage after a run of turns.
    pub open spec fn observed_all(self, turns: Seq<AgentTurnUsage>) -> SessionUsage {
        turns.fold_left(self, |session: SessionUsage, turn: AgentTurnUsage| session.observed(turn))
    }

    /// The counter of one kind of count. The sizes of prompts and of tool schemas
    /// are not counted.
    pub open spec fn counter(self, field: UsageField) -> Option<UsageCounter> {
        match field {
            UsageField::Input => Some(self.input_tokens),
            UsageField::CachedInput => Some(self.cached_input_tokens),
            UsageField::CacheWriteInput => Some(self.cache_write_input_tokens),
            UsageField::Output => Some(self.output_tokens),
            UsageField::Reasoning => Some(self.reasoning_tokens),
            UsageField::Tool => Some(self.tool_tokens),
            UsageField::Total => Some(self.total_tokens),
            UsageField::Cost => Some(self.cost_microunits),
            UsageField::PromptBytes => None,
            UsageField::ToolSchemaBytes => None,
        }
    }

    /// A process that completed no turn.
    pub fn default() -> (usage: SessionUsage)
        ensures
            usage == SessionUsage::nothing(),
    {
        SessionUsage {
            turns: 0,
            requests: 0,
            input_tokens: UsageCounter::default(),
            cached_input_tokens: UsageCounter::default(),
            cache_write_input_tokens: UsageCounter::default(),
            output_tokens: UsageCounter::default(),
            reasoning_tokens: UsageCounter::default(),
            tool_tokens: UsageCounter::default(),
            total_tokens: UsageCounter::default(),
            cost_microunits: UsageCounter::default(),
        }
    }

    /// Takes one turn into account.
    pub fn observe(&mut self, usage: AgentTurnUsage)
        ensures
            *final(self) == old(self).observed(usage),
    {
        self.turns = self.turns.saturating_add(1);
        self.requests = self.requests.saturating_add(usage.requests);
        self.input_tokens.observe(usage.input_tokens);
        self.cached_input_tokens.observe(usage.cached_input_tokens);
        self.cache_write_input_tokens.observe(usage.cache_write_input_tokens);
        self.output_tokens.observe(usage.output_tokens);
        self.reasoning_tokens.observe(usage.reasoning_tokens);
        self.tool_tokens.observe(usage.tool_tokens);
        self.total_tokens.observe(usage.total_tokens);
        self.cost_microunits.observe(usage.cost_microunits);
    }

    /// The usage in one sentence for the owner; `dollars` is the reported cost
    /// in dollars.
    pub fn render(&self, dollars: &str) -> (text: String)
        ensures
            self.turns == 0 ==> text@
                == "Current process: no completed turns yet; token usage is unknown until a provider reports it. Provider quota, rate-limit reset, and wallet balance are not exposed by this connection."@,
            self.turns > 0 ==> text@ == self.line(dollars@)
                + ". Account quota, rate-limit reset, and credit balance are separate observations and may be unavailable."@,
    {
        if self.turns == 0 {
            return "Current process: no completed turns yet; token usage is unknown until a provider reports it. Provider quota, rate-limit reset, and wallet balance are not exposed by this connection.".to_owned();
        }
        let mut line = "Current process: ".to_owned();
        line.append(decimal_text(self.turns).as_str());
        line.append(" turn(s), ");
        line.append(decimal_text(self.requests).as_str());
        line.append(" provider request(s) · input ");
        line.append(self.input_tokens.render().as_str());
        line.append(" · output ");
        line.append(self.output_tokens.render().as_str());
        line.append(" · total ");
        line.append(self.total_tokens.render().as_str());
        push_detail(
            &mut line,
            "cache read",
            &self.cached_input_tokens,
            self.cached_input_tokens.render(),
            Ghost(decimal(self.cached_input_tokens.value as nat)),
        );
        push_detail(
            &mut line,
            "cache write",
            &self.cache_write_input_tokens,
            self.cache_write_input_tokens.render(),
            Ghost(decimal(self.cache_write_input_tokens.value as nat)),
        );
        push_detail(
            &mut line,
            "reasoning",
            &self.reasoning_tokens,
            self.reasoning_tokens.render(),
            Ghost(decimal(self.reasoning_tokens.value as nat)),
        );
        push_detail(
            &mut line,
            "tool",
            &self.tool_tokens,
            self.tool_tokens.render(),
            Ghost(decimal(self.tool_tokens.value as nat)),
        );
        push_detail(
            &mut line,
            "provider-reported cost",
            &self.cost_microunits,
            self.cost_microunits.render_microunits(dollars),
            Ghost("$"@ + dollars@),
        );
        line.append(
            ". Account quota, rate-limit reset, and credit balance are separate observations and may be unavailable.",
        );
        line
    }
}

/// Whether every request reported a count.
pub open spec fn all_reported(requests: Seq<Option<ProviderUsage>>, field: UsageField) -> bool {
    forall|i: int|
        0 <= i < requests.len() ==> ((#[trigger] requests[i]) matches Some(usage) && usage.field(
            field,
        ) is Some)
}

/// The sum of what the requests reported.
pub open spec fn reported_total(requests: Seq<Option<ProviderUsage>>, field: UsageField) -> nat
    decreases requests.len(),
{
    if requests.len() == 0 {
        0
    } else {
        reported_total(requests.drop_last(), field) + match requests.last() {
            Some(usage) => match usage.field(field) {
                Some(count) => count as nat,
                None => 0,
            },
            None => 0,
        }
    }
}

/// A sum over all requests: unknown as soon as one did not report, or where it
/// does not fit.
pub open spec fn complete_total(requests: Seq<Option<ProviderUsage>>, field: UsageField) -> Option<
    u64,
> {
    if all_reported(requests, field) && reported_total(requests, field) <= u64::MAX {
        Some(reported_total(requests, field) as u64)
    } else {
        None
    }
}

proof fn total_grows(requests: Seq<Option<ProviderUsage>>, field: UsageField, upto: int)
    requires
        0 <= upto <= requests.len(),
    ensures
        reported_total(requests.take(upto), field) <= reported_total(requests, field),
    decreases requests.len() - upto,
{
    if upto < requests.len() {
        assert(requests.take(upto + 1).drop_last() =~= requests.take(upto));
        total_grows(requests, field, upto + 1);
    } else {
        assert(requests.take(upto) =~= requests);
    }
}

/// The sum of one count over all requests, if all of it is known and it fits.
pub fn complete_sum(requests: &Vec<Option<ProviderUsage>>, field: UsageField) -> (sum: Option<u64>)
    ensures
        sum == complete_total(requests@, field),
{
    let mut total: u64 = 0;
    let mut i: usize = 0;
    while i < requests.len()
        invariant
            i <= requests@.len(),
            all_reported(requests@.take(i as int), field),
            total == reported_total(requests@.take(i as int), field),
        decreases requests@.len() - i,
    {
        assert(requests@.take(i + 1).drop_last() =~= requests@.take(i as int));
        assert(requests@.take(i + 1).last() == requests@[i as int]);
        let count = match &requests[i] {
            Some(usage) => usage.get(field),
            None => None,
        };
        match count {
            Some(count) => {
                proof {
                    total_grows(requests@, field, i + 1);
                }
                match total.checked_add(count) {
                    Some(sum) => {
                        total = sum;
                    },
                    None => {
                        return None;
                    },
                }
            },
            None => {
                assert(!all_reported(requests@, field));
                return None;
            },
        }
        proof {
            let before = requests@.take(i as int);
            let after = requests@.take(i + 1);
            assert forall|j: int| 0 <= j < after.len() implies ((#[trigger] after[j]) matches Some(
                usage,
            ) && usage.field(field) is Some) by {
                if j < i {
                    assert(before[j] == after[j]);
                }
            }
        }
        i += 1;
    }
    assert(requests@.take(i as int) =~= requests@);
    Some(total)
}

/// The affinities among the reports, oldest first, as many as are remembered.
pub open spec fn reported_affinities(requests: Seq<Option<ProviderUsage>>) -> Seq<[u8; 16]>
    decreases requests.len(),
{
    if requests.len() == 0 {
        Seq::empty()
    } else {
        let earlier = reported_affinities(requests.drop_last());
        match requests.last() {
            Some(usage) => match usage.request_affinity {
                Some(affinity) if earlier.len() < AFFINITY_LIMIT => earlier.push(affinity),
                _ => earlier,
            },
            None => earlier,
        }
    }
}

/// How long a request took to its first piece of output, for which phase.
#[derive(Clone, Copy, PartialEq, Eq, Debug)]
pub struct GenerationTiming {
    pub recovery: bool,
    pub completed: bool,
    pub first_delta: Option<u64>,
}

/// A piece of provider output on its way to the owner.
#[derive(PartialEq, Eq, Debug)]
pub enum DeltaEvent {
    Text(String),
    Reasoning(String),
}

/// Collects what the provider requests of one turn report. Times are readings
/// of one clock, in milliseconds.
pub struct EventDeltaSink {
    requests: Vec<Option<ProviderUsage>>,
    began: u64,
    first_delta: Option<u64>,
}

/// The reports of a turn's requests and the timing of the latest one.
pub struct Deltas {
    pub requests: Seq<Option<ProviderUsage>>,
    pub began: u64,
    pub first_delta: Option<u64>,
}

impl View for EventDeltaSink {
    type V = Deltas;

    closed spec fn view(&self) -> Deltas {
        Deltas { requests: self.requests@, began: self.began, first_delta: self.first_delta }
    }
}

/// The first-output time after one more delta: the first one that is not empty
/// sets it.
pub open spec fn first_output(before: Deltas, text: Seq<char>, now: u64) -> Option<u64> {
    if before.first_delta is None && text.len() > 0 {
        Some(if now >= before.began {
            (now - before.began) as u64
        } else {
            0
        })
    } else {
        before.first_delta
    }
}

impl Deltas {
    /// Before any request.
    pub open spec fn nothing() -> Deltas {
        Deltas { requests: Seq::empty(), began: 0, first_delta: None }
    }

    /// After one more request began.
    pub open spec fn begun(self, now: u64) -> Deltas {
        Deltas { requests: self.requests.push(None), began: now, first_delta: None }
    }

    /// After one more report: it takes the place of the latest request's earlier
    /// one, and is ignored where there is no request.
    pub open spec fn reported(self, usage: ProviderUsage) -> Deltas {
        Deltas {
            requests: if self.requests.len() == 0 {
                self.requests
            } else {
                self.requests.drop_last().push(Some(usage))
            },
            ..self
        }
    }

    /// After one more piece of output.
    pub open spec fn streamed(self, text: Seq<char>, now: u64) -> Deltas {
        Deltas { first_delta: first_output(self, text, now), ..self }
    }

    /// What the latest request reported.
    pub open spec fn latest(self) -> Option<ProviderUsage> {
        if self.requests.len() == 0 {
            None
        } else {
            self.requests.last()
        }
    }
}

/// What happens to a sink.
pub enum SinkCall {
    Begin(u64),
    Report(ProviderUsage),
    Output(Seq<char>, u64),
}

/// What a fresh sink knows after a run of calls.
pub open spec fn after_calls(calls: Seq<SinkCall>) -> Deltas
    decreases calls.len(),
{
    if calls.len() == 0 {
        Deltas::nothing()
    } else {
        let earlier = after_calls(calls.drop_last());
        match calls.last() {
            SinkCall::Begin(now) => earlier.begun(now),
            SinkCall::Report(usage) => earlier.reported(usage),
            SinkCall::Output(text, now) => earlier.streamed(text, now),
        }
    }
}

/// Where the latest request of a run begins, or -1.
pub open spec fn latest_begin(calls: Seq<SinkCall>) -> int
    decreases calls.len(),
{
    if calls.len() == 0 {
        -1
    } else if calls.last() is Begin {
        calls.len() - 1
    } else {
        latest_begin(calls.drop_last())
    }
}

/// Where the latest report of a run stands, or -1.
pub open spec fn latest_report(calls: Seq<SinkCall>) -> int
    decreases calls.len(),
{
    if calls.len() == 0 {
        -1
    } else if calls.last() is Report {
        calls.len() - 1
    } else {
        latest_report(calls.drop_last())
    }
}

/// Whether a usage is what is known of all requests together: the sums that are
/// complete, the number of requests and their affinities.
pub open spec fn totals(requests: Seq<Option<ProviderUsage>>, usage: AgentTurnUsage) -> bool {
    &&& usage.input_tokens == complete_total(requests, UsageField::Input)
    &&& usage.cached_input_tokens == complete_total(requests, UsageField::CachedInput)
    &&& usage.cache_write_input_tokens == complete_total(requests, UsageField::CacheWriteInput)
    &&& usage.output_tokens == complete_total(requests, UsageField::Output)
    &&& usage.reasoning_tokens == complete_total(requests, UsageField::Reasoning)
    &&& usage.tool_tokens == complete_total(requests, UsageField::Tool)
    &&& usage.total_tokens == complete_total(requests, UsageField::Total)
    &&& usage.cost_microunits == complete_total(requests, UsageField::Cost)
    &&& usage.prompt_bytes == complete_total(requests, UsageField::PromptBytes)
    &&& usage.tool_schema_bytes == complete_total(requests, UsageField::ToolSchemaBytes)
    &&& usage.requests == requests.len()
    &&& usage.request_affinities@ == reported_affinities(requests)
}

impl EventDeltaSink {
    /// A sink before any request.
    pub fn new() -> (sink: EventDeltaSink)
        ensures
            sink@ == Deltas::nothing(),
    {
        EventDeltaSink { requests: Vec::new(), began: 0, first_delta: None }
    }

    /// What the latest request reported.
    pub fn request_usage(&self) -> (usage: Option<ProviderUsage>)
        ensures
            usage == self@.latest(),
    {
        if self.requests.len() == 0 {
            None
        } else {
            self.requests[self.requests.len() - 1]
        }
    }

    /// Starts one more request, of which nothing is known yet.
    pub fn begin_request(&mut self, now: u64)
        ensures
            final(self)@ == old(self)@.begun(now),
    {
        self.requests.push(None);
        self.began = now;
        self.first_delta = None;
    }

    /// Takes the report of the latest request; the last one counts. Without a
    /// request it is ignored.
    pub fn report(&mut self, usage: ProviderUsage)
        ensures
            final(self)@ == old(self)@.reported(usage),
    {
        let count = self.requests.len();
        if count > 0 {
            self.requests.set(count - 1, Some(usage));
            assert(self.requests@ =~= old(self).requests@.drop_last().push(Some(usage)));
        }
    }

    fn note_output(&mut self, text: &str, now: u64)
        ensures
            final(self)@ == old(self)@.streamed(text@, now),
    {
        if self.first_delta.is_none() && !crate::text::text_eq(text, "") {
            proof {
                reveal_strlit("");
                assert(text@.len() == 0 ==> text@ =~= ""@);
            }
            self.first_delta = Some(self.elapsed(now));
        }
        proof {
            reveal_strlit("");
            assert(text@.len() == 0 ==> text@ =~= ""@);
        }
    }

    fn elapsed(&self, now: u64) -> (time: u64)
        ensures
            time == if now >= self@.began {
                now - self@.began
            } else {
                0
            },
    {
        if now >= self.began {
            now - self.began
        } else {
            0
        }
    }

    /// Passes on a piece of the answer.
    pub fn text_delta(&mut self, text: &str, now: u64) -> (event: DeltaEvent)
        ensures
            final(self)@ == old(self)@.streamed(text@, now),
            event matches DeltaEvent::Text(held) && held@ == text@,
    {
        self.note_output(text, now);
        DeltaEvent::Text(text.to_owned())
    }

    /// Passes on a piece of the reasoning.
    pub fn reasoning_delta(&mut self, text: &str, now: u64) -> (event: DeltaEvent)
        ensures
            final(self)@ == old(self)@.streamed(text@, now),
            event matches DeltaEvent::Reasoning(held) && held@ == text@,
    {
        self.note_output(text, now);
        DeltaEvent::Reasoning(text.to_owned())
    }

    /// The timing of the latest request.
    pub fn timing(&self, recovery: bool, completed: bool) -> (timing: GenerationTiming)
        ensures
            timing == (GenerationTiming { recovery, completed, first_delta: self@.first_delta }),
    {
        GenerationTiming { recovery, completed, first_delta: self.first_delta }
    }

    /// What is known of all requests together.
    pub fn usage(&self) -> (usage: AgentTurnUsage)
        ensures
            totals(self@.requests, usage),
    {
        let mut request_affinities: Vec<[u8; 16]> = Vec::new();
        let mut i: usize = 0;
        while i < self.requests.len()
            invariant
                i <= self.requests@.len(),
                request_affinities@ == reported_affinities(self.requests@.take(i as int)),
            decreases self.requests@.len() - i,
        {
            assert(self.requests@.take(i + 1).drop_last() =~= self.requests@.take(i as int));
            match &self.requests[i] {
                Some(usage) => match usage.request_affinity {
                    Some(affinity) => {
                        if request_affinities.len() < AFFINITY_LIMIT {
                            request_affinities.push(affinity);
                        }
                    },
                    None => {},
                },
                None => {},
            }
            i += 1;
        }
        assert(self.requests@.take(i as int) =~= self.requests@);
        AgentTurnUsage {
            input_tokens: complete_sum(&self.requests, UsageField::Input),
            cached_input_tokens: complete_sum(&self.requests, UsageField::CachedInput),
            cache_write_input_tokens: complete_sum(&self.requests, UsageField::CacheWriteInput),
            output_tokens: complete_sum(&self.requests, UsageField::Output),
            reasoning_tokens: complete_sum(&self.requests, UsageField::Reasoning),
            tool_tokens: complete_sum(&self.requests, UsageField::Tool),
            total_tokens: complete_sum(&self.requests, UsageField::Total),
            cost_microunits: complete_sum(&self.requests, UsageField::Cost),
            prompt_bytes: complete_sum(&self.requests, UsageField::PromptBytes),
            tool_schema_bytes: complete_sum(&self.requests, UsageField::ToolSchemaBytes),
            requests: self.requests.len() as u64,
            request_affinities,
        }
    }
}

/// Merging counts does not depend on how the parts are grouped.
pub proof fn merging_counts_associates(one: Option<u64>, two: Option<u64>, three: Option<u64>)
    ensures
        merged_count(merged_count(one, two), three) == merged_count(one, merged_count(two, three)),
{
}

/// Merging counts does not depend on their order.
pub proof fn merging_counts_commutes(one: Option<u64>, two: Option<u64>)
    ensures
        merged_count(one, two) == merged_count(two, one),
{
}

/// A part of which nothing is known is never taken for zero.
pub proof fn unknown_is_not_zero(known: Option<u64>)
    ensures
        merged_count(known, None) is None,
        merged_count(None, known) is None,
        merged_count(known, Some(0)) == known,
{
}

/// Merging keeps all affinities of the first part in front. What follows comes
/// from the second part, is new each time, and stays within the limit.
pub proof fn merged_affinities_are_bounded(left: Seq<[u8; 16]>, right: Seq<[u8; 16]>)
    ensures
        left.is_prefix_of(merged_affinities(left, right)),
        merged_affinities(left, right).len() <= AFFINITY_LIMIT || merged_affinities(left, right)
            == left,
        left.no_duplicates() ==> merged_affinities(left, right).no_duplicates(),
        forall|i: int|
            left.len() <= i < merged_affinities(left, right).len() ==> right.contains(
                #[trigger] merged_affinities(left, right)[i],
            ) && !merged_affinities(left, right).take(i).contains(
                merged_affinities(left, right)[i],
            ),
    decreases right.len(),
{
    let merged = merged_affinities(left, right);
    if right.len() > 0 {
        let earlier = merged_affinities(left, right.drop_last());
        merged_affinities_are_bounded(left, right.drop_last());
        assert forall|i: int| left.len() <= i < merged.len() implies right.contains(
            #[trigger] merged[i],
        ) && !merged.take(i).contains(merged[i]) by {
            if i < earlier.len() {
                assert(merged[i] == earlier[i]);
                assert(merged.take(i) =~= earlier.take(i));
                let k = right.drop_last().index_of(earlier[i]);
                assert(right[k] == merged[i]);
            } else {
                assert(merged.take(i) =~= earlier);
                assert(right[right.len() - 1] == merged[i]);
            }
        }
    }
}

/// One request that did not report leaves the sum unknown, however many others
/// did.
pub proof fn missing_reports_are_not_filled(
    requests: Seq<Option<ProviderUsage>>,
    field: UsageField,
    at: int,
)
    requires
        0 <= at < requests.len(),
        requests[at] matches Some(usage) ==> usage.field(field) is None,
    ensures
        complete_total(requests, field) is None,
{
    assert(requests[at] is None || requests[at]->0.field(field) is None);
}

/// A counter that once missed a report never claims to be complete again.
pub proof fn counters_stay_partial(counter: UsageCounter, count: Option<u64>)
    requires
        !counter.complete,
    ensures
        !counter.observed(count).complete,
        counter.observed(count).value >= counter.value,
{
}

/// The sum of what turns reported of one count.
pub open spec fn turns_total(turns: Seq<AgentTurnUsage>, field: UsageField) -> nat
    decreases turns.len(),
{
    if turns.len() == 0 {
        0
    } else {
        turns_total(turns.drop_last(), field) + match turns.last().field(field) {
            Some(count) => count as nat,
            None => 0,
        }
    }
}

/// Whether every turn reported a count.
pub open spec fn turns_reported(turns: Seq<AgentTurnUsage>, field: UsageField) -> bool {
    forall|i: int| 0 <= i < turns.len() ==> (#[trigger] turns[i]).field(field) is Some
}

/// The number of requests of all turns.
pub open spec fn turns_requests(turns: Seq<AgentTurnUsage>) -> nat
    decreases turns.len(),
{
    if turns.len() == 0 {
        0
    } else {
        turns_requests(turns.drop_last()) + turns.last().requests as nat
    }
}

/// The usage of a process counts its turns and their requests, and each of its
/// counters is the sum of what was reported, complete exactly where every turn
/// reported. Sums stay at the largest machine value.
pub proof fn session_usage_is_the_sum(turns: Seq<AgentTurnUsage>, field: UsageField)
    ensures
        SessionUsage::nothing().observed_all(turns).turns == capped(turns.len()),
        SessionUsage::nothing().observed_all(turns).requests == capped(turns_requests(turns)),
        SessionUsage::nothing().observed_all(turns).counter(field) matches Some(counter)
            ==> counter.value == capped(turns_total(turns, field)) && counter.complete
            == turns_reported(turns, field),
    decreases turns.len(),
{
    reveal(Seq::fold_left);
    if turns.len() > 0 {
        let earlier = turns.drop_last();
        session_usage_is_the_sum(earlier, field);
        if turns_reported(turns, field) {
            assert forall|i: int| 0 <= i < earlier.len() implies (#[trigger] earlier[i]).field(
                field,
            ) is Some by {
                assert(earlier[i] == turns[i]);
            }
            assert(turns[turns.len() - 1].field(field) is Some);
        } else if turns_reported(earlier, field) {
            assert forall|i: int|
                0 <= i < turns.len() && turns.last().field(field) is Some implies (
            #[trigger] turns[i]).field(field) is Some by {
                if i < earlier.len() {
                    assert(earlier[i] == turns[i]);
                }
            }
        }
    }
}

/// The order in which turns are observed does not matter.
pub proof fn session_usage_ignores_order(
    before: SessionUsage,
    one: Seq<AgentTurnUsage>,
    two: Seq<AgentTurnUsage>,
)
    requires
        one.to_multiset() == two.to_multiset(),
    ensures
        before.observed_all(one) == before.observed_all(two),
{
    let step = |session: SessionUsage, turn: AgentTurnUsage| session.observed(turn);
    assert forall|x: AgentTurnUsage, y: AgentTurnUsage, v: SessionUsage| #[trigger] step(
        step(v, x),
        y,
    ) == step(step(v, y), x) by {
        assert(v.observed(x).observed(y) == v.observed(y).observed(x));
    }
    vstd::seq_lib::lemma_fold_left_permutation(one, two, step, before);
}

/// After any run of calls on a fresh sink, the usage of the request is the latest
/// report since the latest request began. A report before the first request is
/// dropped, and that of an earlier request is never given.
pub proof fn request_usage_is_the_latest_report(calls: Seq<SinkCall>)
    ensures
        after_calls(calls).latest() == (if 0 <= latest_begin(calls) < latest_report(calls) {
            Some(calls[latest_report(calls)]->Report_0)
        } else {
            None
        }),
{
    latest_places(calls);
}

proof fn latest_places(calls: Seq<SinkCall>)
    ensures
        -1 <= latest_begin(calls) < calls.len(),
        -1 <= latest_report(calls) < calls.len(),
        (after_calls(calls).requests.len() > 0) == (latest_begin(calls) >= 0),
        after_calls(calls).latest() == (if 0 <= latest_begin(calls) < latest_report(calls) {
            Some(calls[latest_report(calls)]->Report_0)
        } else {
            None
        }),
    decreases calls.len(),
{
    if calls.len() > 0 {
        latest_places(calls.drop_last());
    }
}

/// Two counts that are known and fit together are added; nothing else is known of two.
pub proof fn counts_are_added(left: Option<u64>, right: Option<u64>)
    ensures
        merged_count(left, right) matches Some(sum) ==> left is Some && right is Some && sum
            == left->0 + right->0,
        left is Some && right is Some && left->0 + right->0 <= u64::MAX ==> merged_count(
            left,
            right,
        ) is Some,
{
}

/// A number that fits is kept, and one that does not becomes the largest that does.
pub proof fn capped_counts_are_kept(count: nat)
    ensures
        count <= u64::MAX ==> capped(count) == count,
        count > u64::MAX ==> capped(count) == u64::MAX,
{
}

/// Two parts of a turn are merged count by count: every count of the whole is that of the
/// same count of the parts, and their requests are added.
pub proof fn parts_are_merged_count_by_count(
    one: AgentTurnUsage,
    two: AgentTurnUsage,
    merged: AgentTurnUsage,
)
    requires
        call_ensures(AgentTurnUsage::merge, (one, two), merged),
    ensures
        one.input_tokens == Some(0u64) ==> merged.input_tokens == two.input_tokens,
        one.cached_input_tokens == Some(0u64) ==> merged.cached_input_tokens
            == two.cached_input_tokens,
        one.cache_write_input_tokens == Some(0u64) ==> merged.cache_write_input_tokens
            == two.cache_write_input_tokens,
        one.output_tokens == Some(0u64) ==> merged.output_tokens == two.output_tokens,
        one.reasoning_tokens == Some(0u64) ==> merged.reasoning_tokens == two.reasoning_tokens,
        one.tool_tokens == Some(0u64) ==> merged.tool_tokens == two.tool_tokens,
        one.total_tokens == Some(0u64) ==> merged.total_tokens == two.total_tokens,
        one.cost_microunits == Some(0u64) ==> merged.cost_microunits == two.cost_microunits,
        one.prompt_bytes == Some(0u64) ==> merged.prompt_bytes == two.prompt_bytes,
        one.tool_schema_bytes == Some(0u64) ==> merged.tool_schema_bytes == two.tool_schema_bytes,
        merged.input_tokens matches Some(sum) ==> sum == one.input_tokens->0 + two.input_tokens->0
            && one.input_tokens is Some && two.input_tokens is Some,
        merged.output_tokens matches Some(sum) ==> sum == one.output_tokens->0
            + two.output_tokens->0 && one.output_tokens is Some && two.output_tokens is Some,
        merged.total_tokens matches Some(sum) ==> sum == one.total_tokens->0 + two.total_tokens->0
            && one.total_tokens is Some && two.total_tokens is Some,
        merged.cost_microunits matches Some(sum) ==> sum == one.cost_microunits->0
            + two.cost_microunits->0 && one.cost_microunits is Some && two.cost_microunits is Some,
        one.requests + two.requests <= u64::MAX ==> merged.requests == one.requests + two.requests,
{
}

proof fn one_report_is_its_total(report: ProviderUsage, field: UsageField)
    ensures
        complete_total(seq![Some(report)], field) == report.field(field),
{
    let requests = seq![Some(report)];
    assert(requests.drop_last() =~= Seq::<Option<ProviderUsage>>::empty());
    assert(requests.last() == Some(report));
    reveal_with_fuel(reported_total, 2);
    assert(requests[0] == Some(report));
    if report.field(field) is Some {
        assert forall|i: int| 0 <= i < requests.len() implies ((#[trigger] requests[i])
            matches Some(usage) && usage.field(field) is Some) by {}
    }
}

/// A turn of one request has used what that request reported, count for count; and a turn
/// of none has used nothing, which is known.
pub proof fn single_requests_are_what_they_report(
    report: ProviderUsage,
    usage: AgentTurnUsage,
    none: AgentTurnUsage,
)
    requires
        totals(seq![Some(report)], usage),
        totals(Seq::empty(), none),
    ensures
        usage.input_tokens == report.input_tokens,
        usage.cached_input_tokens == report.cached_input_tokens,
        usage.cache_write_input_tokens == report.cache_write_input_tokens,
        usage.output_tokens == report.output_tokens,
        usage.reasoning_tokens == report.reasoning_tokens,
        usage.tool_tokens == report.tool_tokens,
        usage.total_tokens == report.total_tokens,
        usage.cost_microunits == report.cost_microunits,
        usage.prompt_bytes == report.prompt_bytes,
        usage.tool_schema_bytes == report.tool_schema_bytes,
        usage.requests == 1,
        none.requests == 0,
        none.total_tokens == Some(0u64),
        none.cost_microunits == Some(0u64),
{
    one_report_is_its_total(report, UsageField::Input);
    one_report_is_its_total(report, UsageField::CachedInput);
    one_report_is_its_total(report, UsageField::CacheWriteInput);
    one_report_is_its_total(report, UsageField::Output);
    one_report_is_its_total(report, UsageField::Reasoning);
    one_report_is_its_total(report, UsageField::Tool);
    one_report_is_its_total(report, UsageField::Total);
    one_report_is_its_total(report, UsageField::Cost);
    one_report_is_its_total(report, UsageField::PromptBytes);
    one_report_is_its_total(report, UsageField::ToolSchemaBytes);
}

/// One more request adds what it reported to what the others did, and leaves the sum
/// unknown where it did not report.
pub proof fn requests_add_what_they_report(
    requests: Seq<Option<ProviderUsage>>,
    report: ProviderUsage,
    field: UsageField,
)
    ensures
        complete_total(requests.push(Some(report)), field) == merged_count(
            complete_total(requests, field),
            report.field(field),
        ),
        complete_total(requests.push(None), field) is None,
{
    let all = requests.push(Some(report));
    assert(all.drop_last() =~= requests);
    assert(all.last() == Some(report));
    if all_reported(all, field) {
        assert(all[requests.len() as int] == Some(report));
        assert forall|i: int| 0 <= i < requests.len() implies ((#[trigger] requests[i])
            matches Some(usage) && usage.field(field) is Some) by {
            assert(all[i] == requests[i]);
        }
    } else if all_reported(requests, field) && report.field(field) is Some {
        assert forall|i: int| 0 <= i < all.len() implies ((#[trigger] all[i])
            matches Some(usage) && usage.field(field) is Some) by {
            if i < requests.len() {
                assert(all[i] == requests[i]);
            }
        }
    }
    let missing = requests.push(None);
    assert(missing[requests.len() as int] is None);
}

/// A process takes each count of a turn into the count of the same name, and counts the turn
/// and its requests.
pub proof fn turns_are_taken_count_by_count(session: SessionUsage, usage: AgentTurnUsage)
    ensures
        session.observed(usage).input_tokens == session.input_tokens.observed(usage.input_tokens),
        session.observed(usage).cached_input_tokens == session.cached_input_tokens.observed(
            usage.cached_input_tokens,
        ),
        session.observed(usage).cache_write_input_tokens
            == session.cache_write_input_tokens.observed(usage.cache_write_input_tokens),
        session.observed(usage).output_tokens == session.output_tokens.observed(
            usage.output_tokens,
        ),
        session.observed(usage).reasoning_tokens == session.reasoning_tokens.observed(
            usage.reasoning_tokens,
        ),
        session.observed(usage).tool_tokens == session.tool_tokens.observed(usage.tool_tokens),
        session.observed(usage).total_tokens == session.total_tokens.observed(usage.total_tokens),
        session.observed(usage).cost_microunits == session.cost_microunits.observed(
            usage.cost_microunits,
        ),
        session.turns < u64::MAX ==> session.observed(usage).turns == session.turns + 1,
        session.requests + usage.requests <= u64::MAX ==> session.observed(usage).requests
            == session.requests + usage.requests,
{
}

/// A counter grows by what is reported and stays complete while everything is; a missing
/// report adds nothing and is remembered.
pub proof fn counters_grow_by_what_is_reported(counter: UsageCounter, count: u64)
    ensures
        counter.value + count <= u64::MAX ==> counter.observed(Some(count)).value == counter.value
            + count,
        counter.observed(Some(count)).complete == counter.complete,
        counter.observed(None).value == counter.value,
        !counter.observed(None).complete,
        SessionUsage::nothing().turns == 0 && SessionUsage::nothing().total_tokens.value == 0
            && SessionUsage::nothing().total_tokens.complete,
{
}

/// A complete count is shown as it is, one of which nothing was reported as unknown, and one
/// that is only partly known as a lower bound.
pub proof fn counters_show_what_they_know(counter: UsageCounter, value: Seq<char>)
    ensures
        counter.complete ==> counter.shown(value) == value,
        !counter.complete && counter.value == 0 ==> counter.shown(value) == "unknown"@,
        !counter.complete && counter.value > 0 ==> "at least "@.is_prefix_of(counter.shown(value))
            && occurs(counter.shown(value), value),
        counter.notable() <==> counter.value > 0 || !counter.complete,
{
    if !counter.complete && counter.value > 0 {
        let text = counter.shown(value);
        assert("at least "@ =~= text.take("at least "@.len() as int));
        parts_occur("at least "@, value, " (partial)"@);
    }
}

/// The usage of a process tells its turns, its requests and the three counts that are always
/// shown, each under its own name.
pub proof fn usage_tells_the_counts(session: SessionUsage)
    ensures
        occurs(session.summary(), decimal(session.turns as nat)),
        occurs(session.summary(), decimal(session.requests as nat)),
        occurs(
            session.summary(),
            " · output "@ + session.output_tokens.shown(
                decimal(session.output_tokens.value as nat),
            ),
        ),
        occurs(
            session.summary(),
            " · total "@ + session.total_tokens.shown(decimal(session.total_tokens.value as nat)),
        ),
        occurs(
            session.summary(),
            " provider request(s) · input "@ + session.input_tokens.shown(
                decimal(session.input_tokens.value as nat),
            ),
        ),
{
    let turns = decimal(session.turns as nat);
    let requests = decimal(session.requests as nat);
    let taken = session.input_tokens.shown(decimal(session.input_tokens.value as nat));
    let given = session.output_tokens.shown(decimal(session.output_tokens.value as nat));
    let total = session.total_tokens.shown(decimal(session.total_tokens.value as nat));
    let one = "Current process: "@ + turns + " turn(s), "@;
    let two = one + requests;
    let three = two + " provider request(s) · input "@ + taken;
    let four = three + " · output "@ + given;
    let five = four + " · total "@ + total;
    assert(session.summary() == five);
    parts_occur("Current process: "@, turns, " turn(s), "@);
    longer_texts_hold_the_same(one, requests, turns);
    let nothing = Seq::<char>::empty();
    assert(two =~= one + requests + nothing);
    parts_occur(one, requests, nothing);
    ends_occur(two, " provider request(s) · input "@, taken);
    ends_occur(three, " · output "@, given);
    ends_occur(four, " · total "@, total);
    assert forall|part: Seq<char>| occurs(two, part) implies #[trigger] occurs(three, part) by {
        longer_texts_hold_the_same(two, " provider request(s) · input "@, part);
        longer_texts_hold_the_same(two + " provider request(s) · input "@, taken, part);
    }
    assert forall|part: Seq<char>| occurs(three, part) implies #[trigger] occurs(four, part) by {
        longer_texts_hold_the_same(three, " · output "@, part);
        longer_texts_hold_the_same(three + " · output "@, given, part);
    }
    assert forall|part: Seq<char>| occurs(four, part) implies #[trigger] occurs(five, part) by {
        longer_texts_hold_the_same(four, " · total "@, part);
        longer_texts_hold_the_same(four + " · total "@, total, part);
    }
    assert(occurs(three, turns));
    assert(occurs(four, turns));
    assert(occurs(three, requests));
    assert(occurs(four, requests));
    assert(occurs(four, " provider request(s) · input "@ + taken));
}

/// The time to the first output is taken once, by the first output that is not empty, from
/// when its request began; every request begins without it.
pub proof fn first_outputs_are_timed_once(before: Deltas, text: Seq<char>, now: u64)
    ensures
        before.first_delta is Some ==> before.streamed(text, now).first_delta
            == before.first_delta,
        text.len() == 0 ==> before.streamed(text, now).first_delta == before.first_delta,
        before.first_delta is None && text.len() > 0 && before.began <= now ==> before.streamed(
            text,
            now,
        ).first_delta == Some((now - before.began) as u64),
        before.streamed(text, now).requests == before.requests,
        before.begun(now).first_delta is None,
        before.begun(now).began == now,
        before.begun(now).requests == before.requests.push(None),
{
}

/// The affinities of a turn are those that its requests reported, and no more than
/// sixty-four of them.
pub proof fn affinities_are_those_reported(requests: Seq<Option<ProviderUsage>>, at: int)
    requires
        0 <= at < reported_affinities(requests).len(),
    ensures
        reported_affinities(requests).len() <= 64,
        exists|i: int|
            0 <= i < requests.len() && ((#[trigger] requests[i]) matches Some(usage)
                && usage.request_affinity == Some(reported_affinities(requests)[at])),
    decreases requests.len(),
{
    let earlier = requests.drop_last();
    let held = reported_affinities(earlier);
    affinities_are_bounded(requests);
    if at < held.len() {
        affinities_are_those_reported(earlier, at);
        let place = choose|i: int|
            0 <= i < earlier.len() && ((#[trigger] earlier[i]) matches Some(usage)
                && usage.request_affinity == Some(held[at]));
        assert(requests[place] == earlier[place]);
        assert(reported_affinities(requests)[at] == held[at]);
    } else {
        assert(requests[requests.len() - 1] == requests.last());
    }
}

proof fn affinities_are_bounded(requests: Seq<Option<ProviderUsage>>)
    ensures
        reported_affinities(requests).len() <= AFFINITY_LIMIT,
    decreases requests.len(),
{
    if requests.len() > 0 {
        affinities_are_bounded(requests.drop_last());
    }
}

/// Usage of which nothing is known claims no count at all, not even none; usage before any
/// request counts none of everything. Neither made a request.
pub proof fn nothing_known_is_not_nothing(unknown: AgentTurnUsage, nothing: AgentTurnUsage)
    requires
        call_ensures(AgentTurnUsage::default, (), unknown),
        call_ensures(AgentTurnUsage::empty, (), nothing),
    ensures
        unknown.requests == 0,
        nothing.requests == 0,
        unknown.total_tokens is None,
        nothing.total_tokens == Some(0u64),
        unknown.input_tokens is None && unknown.output_tokens is None && unknown.cost_microunits
            is None,
        nothing.input_tokens == Some(0u64) && nothing.output_tokens == Some(0u64)
            && nothing.cost_microunits == Some(0u64),
        unknown.request_affinities@.len() == 0,
        nothing.request_affinities@.len() == 0,
{
}

}
