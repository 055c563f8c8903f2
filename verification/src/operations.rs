//! Inspecting routes, recovering interrupted operations and reading local logs.

pub mod commands;

use crate::config::OrchestrationLimits;
use crate::order::{ascending, in_key_order, keys, Keyed};
use crate::text::{
    beginnings_are_held, beginnings_begin_alike, decimal, decimal_text, ends_occur, join,
    joined, occurs, option_view, parts_occur, text_eq, views,
};
use vstd::prelude::*;
use vstd::string::*;

verus! {

/// Who runs the tasks of a route.
#[derive(Clone, Copy, PartialEq, Eq, Structural, Debug)]
pub enum ExecutionOwner {
    Xana,
    Codex,
}

/// A route with everything that it stands for.
#[derive(Debug, PartialEq, Eq)]
pub struct ResolvedAgentConfig {
    pub route: String,
    pub profile: String,
    pub owner: ExecutionOwner,
    pub owner_name: String,
    pub connection: String,
    pub provider_kind: String,
    pub model: String,
    pub reasoning_effort: Option<String>,
    pub reasoning_summary: Option<String>,
    pub capabilities: Vec<String>,
    pub permission_mode: String,
    pub max_tool_rounds: u64,
    pub orchestration: OrchestrationLimits,
}

/// A configured route and what came of resolving it.
#[derive(Debug, PartialEq, Eq)]
pub struct RouteEntry {
    pub route: String,
    pub resolved: Result<ResolvedAgentConfig, String>,
}

impl Keyed for RouteEntry {
    open spec fn key(&self) -> Seq<char> {
        self.route@
    }

    fn key_text(&self) -> (text: &str) {
        self.route.as_str()
    }
}

pub const NO_ROUTES: &'static str = "no child task routes configured\n";

/// The row of a route.
pub open spec fn route_row(output: Seq<char>, entry: RouteEntry, default: Option<Seq<char>>) -> Seq<
    char,
> {
    let marked = output + (if default == Some(entry.route@) {
        "* "@
    } else {
        "  "@
    }) + entry.route@;
    match entry.resolved {
        Ok(resolved) => marked + "\t"@ + resolved.owner_name@ + "\t"@ + resolved.connection@ + "/"@
            + resolved.model@ + "\tprofile "@ + resolved.profile@ + "\n"@,
        Err(error) => marked + "\tunavailable\t"@ + error@ + "\n"@,
    }
}

/// The rows of routes.
pub open spec fn route_rows(
    output: Seq<char>,
    entries: Seq<RouteEntry>,
    default: Option<Seq<char>>,
) -> Seq<char>
    decreases entries.len(),
{
    if entries.len() == 0 {
        output
    } else {
        route_row(route_rows(output, entries.drop_last(), default), entries.last(), default)
    }
}

/// Lists the configured routes. One that cannot be resolved is shown as
/// unavailable.
pub fn list_routes(entries: &Vec<RouteEntry>, default: &Option<String>, output: &mut String)
    ensures
        final(output)@ == (if entries@.len() == 0 {
            old(output)@ + NO_ROUTES@
        } else {
            route_rows(old(output)@, entries@, option_view(*default))
        }),
{
    if entries.len() == 0 {
        output.append(NO_ROUTES);
        return;
    }
    let mut i: usize = 0;
    assert(entries@.take(0) =~= Seq::<RouteEntry>::empty());
    while i < entries.len()
        invariant
            i <= entries@.len(),
            output@ == route_rows(old(output)@, entries@.take(i as int), option_view(*default)),
        decreases entries@.len() - i,
    {
        assert(entries@.take(i + 1).drop_last() =~= entries@.take(i as int));
        let entry = &entries[i];
        let is_default = match default {
            Some(name) => text_eq(name.as_str(), entry.route.as_str()),
            None => false,
        };
        output.append(
            if is_default {
                "* "
            } else {
                "  "
            },
        );
        output.append(entry.route.as_str());
        match &entry.resolved {
            Ok(resolved) => {
                output.append("\t");
                output.append(resolved.owner_name.as_str());
                output.append("\t");
                output.append(resolved.connection.as_str());
                output.append("/");
                output.append(resolved.model.as_str());
                output.append("\tprofile ");
                output.append(resolved.profile.as_str());
                output.append("\n");
            },
            Err(error) => {
                output.append("\tunavailable\t");
                output.append(error.as_str());
                output.append("\n");
            },
        }
        i += 1;
    }
    assert(entries@.take(i as int) =~= entries@);
}

/// What is said of a route.
pub open spec fn route_text(output: Seq<char>, route: ResolvedAgentConfig) -> Seq<char> {
    let told = output + "route: "@ + route.route@ + "\nprofile: "@ + route.profile@
        + "\nexecution: "@ + route.owner_name@ + "\nconnection: "@ + route.connection@ + "\nkind: "@
        + route.provider_kind@ + "\nmodel: "@ + route.model@ + "\n"@;
    let reasoned = match route.owner {
        ExecutionOwner::Codex => told + "reasoning effort: "@ + (match route.reasoning_effort {
            Some(effort) => effort@,
            None => "model default"@,
        }) + "\nreasoning summary: "@ + (match route.reasoning_summary {
            Some(summary) => summary@,
            None => "provider default"@,
        }) + "\n"@,
        ExecutionOwner::Xana => told,
    };
    let limits = route.orchestration;
    reasoned + "capabilities: "@ + (if route.capabilities@.len() == 0 {
        "none"@
    } else {
        joined(views(route.capabilities@), ","@)
    }) + "\npermission ceiling: "@ + route.permission_mode@ + "\nmaximum tool rounds: "@ + decimal(
        route.max_tool_rounds as nat,
    ) + "\norchestration: fan-out "@ + decimal(limits.max_fan_out as nat) + ", descendants "@
        + decimal(limits.max_descendants as nat) + ", concurrency "@ + decimal(
        limits.max_concurrency as nat,
    ) + ", deadline "@ + decimal(limits.deadline_seconds as nat) + "s, context "@ + decimal(
        limits.max_context_tokens as nat,
    ) + " tokens, report "@ + decimal(limits.max_report_bytes as nat) + " bytes, artifacts "@
        + decimal(limits.max_artifact_bytes as nat) + " bytes\n"@
}

/// Says what a route stands for.
pub fn write_resolved_route(output: &mut String, route: &ResolvedAgentConfig)
    ensures
        final(output)@ == route_text(old(output)@, *route),
{
    output.append("route: ");
    output.append(route.route.as_str());
    output.append("\nprofile: ");
    output.append(route.profile.as_str());
    output.append("\nexecution: ");
    output.append(route.owner_name.as_str());
    output.append("\nconnection: ");
    output.append(route.connection.as_str());
    output.append("\nkind: ");
    output.append(route.provider_kind.as_str());
    output.append("\nmodel: ");
    output.append(route.model.as_str());
    output.append("\n");
    match route.owner {
        ExecutionOwner::Codex => {
            output.append("reasoning effort: ");
            match &route.reasoning_effort {
                Some(effort) => output.append(effort.as_str()),
                None => output.append("model default"),
            }
            output.append("\nreasoning summary: ");
            match &route.reasoning_summary {
                Some(summary) => output.append(summary.as_str()),
                None => output.append("provider default"),
            }
            output.append("\n");
        },
        ExecutionOwner::Xana => {},
    }
    output.append("capabilities: ");
    if route.capabilities.len() == 0 {
        output.append("none");
    } else {
        output.append(join(&route.capabilities, ",").as_str());
    }
    output.append("\npermission ceiling: ");
    output.append(route.permission_mode.as_str());
    output.append("\nmaximum tool rounds: ");
    output.append(decimal_text(route.max_tool_rounds).as_str());
    let limits = route.orchestration;
    output.append("\norchestration: fan-out ");
    output.append(decimal_text(limits.max_fan_out).as_str());
    output.append(", descendants ");
    output.append(decimal_text(limits.max_descendants).as_str());
    output.append(", concurrency ");
    output.append(decimal_text(limits.max_concurrency).as_str());
    output.append(", deadline ");
    output.append(decimal_text(limits.deadline_seconds).as_str());
    output.append("s, context ");
    output.append(decimal_text(limits.max_context_tokens).as_str());
    output.append(" tokens, report ");
    output.append(decimal_text(limits.max_report_bytes).as_str());
    output.append(" bytes, artifacts ");
    output.append(decimal_text(limits.max_artifact_bytes).as_str());
    output.append(" bytes\n");
}

/// An operation that was restored from a session.
#[derive(Debug, PartialEq, Eq)]
pub struct RestoredOperation {
    pub operation_id: String,
    pub thread_id: String,
    pub input_entry_id: String,
    pub step_order: Vec<String>,
}

/// A step of a recovery.
#[derive(Debug, PartialEq, Eq)]
pub enum RecoveryAction {
    AlreadyCompleted { result_id: String },
    ReplayExactInvocation { invocation_id: String },
    /// The reason is the text that it is shown as.
    RecordInterruption { invocation_id: String, result_id: String, reason: String },
    ContinueWithNextInvocation,
    FinishOperation,
}

/// The line of a recovery's step.
pub open spec fn action_line(output: Seq<char>, action: RecoveryAction) -> Seq<char> {
    match action {
        RecoveryAction::AlreadyCompleted { result_id } => output + "already completed: result "@
            + result_id@ + "\n"@,
        RecoveryAction::ReplayExactInvocation { invocation_id } => output
            + "replay after current permission: "@ + invocation_id@ + "\n"@,
        RecoveryAction::RecordInterruption { invocation_id, result_id, reason } => output
            + "record interruption: invocation "@ + invocation_id@ + ", result "@ + result_id@
            + ", reason "@ + reason@ + "\n"@,
        RecoveryAction::ContinueWithNextInvocation => output
            + "continue in original call order\n"@,
        RecoveryAction::FinishOperation => output + "finish operation\n"@,
    }
}

/// The lines of a recovery's steps.
pub open spec fn action_lines(output: Seq<char>, actions: Seq<RecoveryAction>) -> Seq<char>
    decreases actions.len(),
{
    if actions.len() == 0 {
        output
    } else {
        action_line(action_lines(output, actions.drop_last()), actions.last())
    }
}

/// What is said of a recovery.
pub open spec fn recovery_text(
    output: Seq<char>,
    session: Seq<char>,
    operation: RestoredOperation,
    actions: Seq<RecoveryAction>,
) -> Seq<char> {
    let head = output + "session: "@ + session + "\noperation: "@ + operation.operation_id@
        + "\nthread: "@ + operation.thread_id@ + "\ninput entry: "@ + operation.input_entry_id@
        + "\n"@;
    action_lines(
        if operation.step_order@.len() == 0 {
            head + "steps: none committed\n"@
        } else {
            head + "steps: "@ + joined(views(operation.step_order@), ", "@) + "\n"@
        },
        actions,
    )
}

fn write_action(output: &mut String, action: &RecoveryAction)
    ensures
        final(output)@ == action_line(old(output)@, *action),
{
    match action {
        RecoveryAction::AlreadyCompleted { result_id } => {
            output.append("already completed: result ");
            output.append(result_id.as_str());
            output.append("\n");
        },
        RecoveryAction::ReplayExactInvocation { invocation_id } => {
            output.append("replay after current permission: ");
            output.append(invocation_id.as_str());
            output.append("\n");
        },
        RecoveryAction::RecordInterruption { invocation_id, result_id, reason } => {
            output.append("record interruption: invocation ");
            output.append(invocation_id.as_str());
            output.append(", result ");
            output.append(result_id.as_str());
            output.append(", reason ");
            output.append(reason.as_str());
            output.append("\n");
        },
        RecoveryAction::ContinueWithNextInvocation => {
            output.append("continue in original call order\n");
        },
        RecoveryAction::FinishOperation => {
            output.append("finish operation\n");
        },
    }
}

/// Says how an operation is recovered, or was.
pub fn write_recovery_plan(
    output: &mut String,
    session: &str,
    operation: &RestoredOperation,
    actions: &Vec<RecoveryAction>,
)
    ensures
        final(output)@ == recovery_text(old(output)@, session@, *operation, actions@),
{
    output.append("session: ");
    output.append(session);
    output.append("\noperation: ");
    output.append(operation.operation_id.as_str());
    output.append("\nthread: ");
    output.append(operation.thread_id.as_str());
    output.append("\ninput entry: ");
    output.append(operation.input_entry_id.as_str());
    output.append("\n");
    if operation.step_order.len() == 0 {
        output.append("steps: none committed\n");
    } else {
        output.append("steps: ");
        output.append(join(&operation.step_order, ", ").as_str());
        output.append("\n");
    }
    let ghost start = output@;
    let mut i: usize = 0;
    assert(actions@.take(0) =~= Seq::<RecoveryAction>::empty());
    while i < actions.len()
        invariant
            i <= actions@.len(),
            output@ == action_lines(start, actions@.take(i as int)),
        decreases actions@.len() - i,
    {
        assert(actions@.take(i + 1).drop_last() =~= actions@.take(i as int));
        write_action(output, &actions[i]);
        i += 1;
    }
    assert(actions@.take(i as int) =~= actions@);
}

/// Where an operation stands among those of a session, or how many there are.
pub open spec fn operation_index(operations: Seq<RestoredOperation>, id: Seq<char>) -> nat
    decreases operations.len(),
{
    if operations.len() == 0 || operations[0].operation_id@ == id {
        0
    } else {
        1 + operation_index(operations.drop_first(), id)
    }
}

/// Why an operation is not found.
pub open spec fn unknown_operation(id: Seq<char>, session: Seq<char>) -> Seq<char> {
    "operation "@ + id + " is not in session "@ + session
}

/// Finds an operation of a session.
pub fn find_operation(operations: &Vec<RestoredOperation>, id: &str, session: &str) -> (found:
    Result<usize, String>)
    ensures
        match found {
            Ok(at) => at < operations@.len() && at == operation_index(operations@, id@),
            Err(text) => operation_index(operations@, id@) >= operations@.len() && text@
                == unknown_operation(id@, session@),
        },
{
    let mut i: usize = 0;
    assert(operations@.skip(0) =~= operations@);
    while i < operations.len()
        invariant
            i <= operations@.len(),
            operation_index(operations@, id@) == i + operation_index(
                operations@.skip(i as int),
                id@,
            ),
        decreases operations@.len() - i,
    {
        assert(operations@.skip(i as int).drop_first() =~= operations@.skip(i + 1));
        if text_eq(operations[i].operation_id.as_str(), id) {
            return Ok(i);
        }
        i += 1;
    }
    let mut text = "operation ".to_owned();
    text.append(id);
    text.append(" is not in session ");
    text.append(session);
    Err(text)
}

/// A command to a running conversation.
#[derive(Debug, PartialEq, Eq)]
pub enum RuntimeCommand {
    ResumeOperation { session: String, operation: String },
    SubmitTurn,
    SubmitTurnWithImages,
    InterruptOperation,
    SteerOperation,
    ClearConversation,
    DecidePermission,
    DecideChildPermission,
    ListChildren,
    InspectChild,
    CancelChild,
    Shutdown,
}

pub const ONLY_RESUME: &'static str = "the explicit recovery controller accepts only ResumeOperation";

/// The session and the operation that a recovery resumes. Nothing else is
/// recovered by it.
pub fn recovered_operation(command: RuntimeCommand) -> (target: Result<(String, String), String>)
    ensures
        match command {
            RuntimeCommand::ResumeOperation { session, operation } => target == Ok::<
                (String, String),
                String,
            >((session, operation)),
            _ => target matches Err(text) && text@ == ONLY_RESUME@,
        },
{
    match command {
        RuntimeCommand::ResumeOperation { session, operation } => Ok((session, operation)),
        _ => Err(ONLY_RESUME.to_owned()),
    }
}

/// A log or a crash record.
#[derive(Debug, PartialEq, Eq)]
pub struct LogEntry {
    pub kind: String,
    pub name: String,
    pub bytes: u64,
}

pub const NO_LOGS: &'static str = "No Xana log or crash entries are present.\n";

/// Says where logs are kept.
pub fn write_log_paths(logs: &str, crashes: &str, retention_days: u64, level: &str, output: &mut String)
    ensures
        final(output)@ == old(output)@ + "Logs:    "@ + logs@ + "\nCrashes: "@ + crashes@
            + "\nRetention: "@ + decimal(retention_days as nat) + " day(s)\nLevel: "@ + level@
            + "\n"@,
{
    output.append("Logs:    ");
    output.append(logs);
    output.append("\nCrashes: ");
    output.append(crashes);
    output.append("\nRetention: ");
    output.append(decimal_text(retention_days).as_str());
    output.append(" day(s)\nLevel: ");
    output.append(level);
    output.append("\n");
}

/// The rows of log entries.
pub open spec fn log_rows(output: Seq<char>, entries: Seq<LogEntry>) -> Seq<char>
    decreases entries.len(),
{
    if entries.len() == 0 {
        output
    } else {
        log_rows(output, entries.drop_last()) + entries.last().kind@ + "\t"@ + entries.last().name@
            + "\t"@ + decimal(entries.last().bytes as nat) + " bytes\n"@
    }
}

/// Lists log entries.
pub fn write_log_list(entries: &Vec<LogEntry>, output: &mut String)
    ensures
        final(output)@ == (if entries@.len() == 0 {
            old(output)@ + NO_LOGS@
        } else {
            log_rows(old(output)@, entries@)
        }),
{
    if entries.len() == 0 {
        output.append(NO_LOGS);
        return;
    }
    let mut i: usize = 0;
    assert(entries@.take(0) =~= Seq::<LogEntry>::empty());
    while i < entries.len()
        invariant
            i <= entries@.len(),
            output@ == log_rows(old(output)@, entries@.take(i as int)),
        decreases entries@.len() - i,
    {
        assert(entries@.take(i + 1).drop_last() =~= entries@.take(i as int));
        output.append(entries[i].kind.as_str());
        output.append("\t");
        output.append(entries[i].name.as_str());
        output.append("\t");
        output.append(decimal_text(entries[i].bytes).as_str());
        output.append(" bytes\n");
        i += 1;
    }
    assert(entries@.take(i as int) =~= entries@);
}

/// Reports that a support bundle was made.
pub fn write_exported(path: &str, output: &mut String)
    ensures
        final(output)@ == old(output)@ + "Support bundle created: "@ + path@
            + "\nReview it locally before sharing; Xana uploads nothing.\n"@,
{
    output.append("Support bundle created: ");
    output.append(path);
    output.append("\nReview it locally before sharing; Xana uploads nothing.\n");
}

/// The rows of routes, one by one.
pub open spec fn route_lines(entries: Seq<RouteEntry>, default: Option<Seq<char>>) -> Seq<
    Seq<char>,
> {
    Seq::new(entries.len(), |i: int| route_row(Seq::empty(), entries[i], default))
}

proof fn rows_are_lines(output: Seq<char>, entries: Seq<RouteEntry>, default: Option<Seq<char>>)
    ensures
        route_rows(output, entries, default) == output + route_lines(
            entries,
            default,
        ).flatten_alt(),
    decreases entries.len(),
{
    let lines = route_lines(entries, default);
    if entries.len() == 0 {
        assert(output + Seq::<char>::empty() =~= output);
    } else {
        let earlier = entries.drop_last();
        rows_are_lines(output, earlier, default);
        assert(lines.drop_last() =~= route_lines(earlier, default));
        let start = route_rows(output, earlier, default);
        let entry = entries.last();
        assert(route_row(start, entry, default) =~= start + route_row(
            Seq::empty(),
            entry,
            default,
        ));
        assert(start + lines.last() =~= output + (lines.drop_last().flatten_alt() + lines.last()));
    }
}

/// Routes that are held in the order of their names are listed in it: one row
/// for each, with the name behind the two characters that mark the default.
pub proof fn routes_are_listed_by_name(
    output: Seq<char>,
    entries: Seq<RouteEntry>,
    default: Option<Seq<char>>,
)
    requires
        in_key_order(entries),
    ensures
        ascending(keys(entries)),
        route_rows(output, entries, default) == output + route_lines(entries, default).flatten_alt(),
        forall|i: int|
            0 <= i < entries.len() ==> ((if default == Some(keys(entries)[i]) {
                "* "@
            } else {
                "  "@
            }) + keys(entries)[i] + "\t"@).is_prefix_of(#[trigger] route_lines(entries, default)[i]),
{
    rows_are_lines(output, entries, default);
    assert forall|i: int| 0 <= i < entries.len() implies ((if default == Some(keys(entries)[i]) {
        "* "@
    } else {
        "  "@
    }) + keys(entries)[i] + "\t"@).is_prefix_of(#[trigger] route_lines(entries, default)[i]) by {
        let line = route_lines(entries, default)[i];
        let start = (if default == Some(entries[i].route@) {
            "* "@
        } else {
            "  "@
        }) + entries[i].route@ + "\t"@;
        reveal_strlit("\t");
        reveal_strlit("\tunavailable\t");
        assert(line.subrange(0, start.len() as int) =~= start);
    }
}

/// The operation that is found has the identity that was looked for, and is the first
/// that has; where none is found, none has it.
pub proof fn found_operations_have_the_identity(
    operations: Seq<RestoredOperation>,
    id: Seq<char>,
)
    ensures
        operation_index(operations, id) <= operations.len(),
        operation_index(operations, id) < operations.len() ==> operations[operation_index(
            operations,
            id,
        ) as int].operation_id@ == id,
        forall|i: int|
            0 <= i < operation_index(operations, id) ==> #[trigger] operations[i].operation_id@
                != id,
    decreases operations.len(),
{
    if operations.len() > 0 && operations[0].operation_id@ != id {
        let rest = operations.drop_first();
        found_operations_have_the_identity(rest, id);
        assert forall|i: int| 0 <= i < operation_index(operations, id) implies
            #[trigger] operations[i].operation_id@ != id by {
            if i > 0 {
                assert(rest[i - 1] == operations[i]);
            }
        }
    }
}

/// Only a command to resume is recovered, and what is recovered is the operation of the
/// session that it names.
pub proof fn only_resumptions_are_recovered(
    command: RuntimeCommand,
    target: Result<(String, String), String>,
)
    requires
        call_ensures(recovered_operation, (command,), target),
    ensures
        target is Ok <==> command is ResumeOperation,
        target matches Ok((session, operation)) ==> command == (RuntimeCommand::ResumeOperation {
            session,
            operation,
        }),
{
}

/// What a step of a recovery names is told: the result or the invocation that it
/// concerns, and why it was interrupted.
pub open spec fn told_by(text: Seq<char>, action: RecoveryAction) -> bool {
    match action {
        RecoveryAction::AlreadyCompleted { result_id } => occurs(
            text,
            "already completed: result "@ + result_id@ + "\n"@,
        ),
        RecoveryAction::ReplayExactInvocation { invocation_id } => occurs(
            text,
            "replay after current permission: "@ + invocation_id@ + "\n"@,
        ),
        RecoveryAction::RecordInterruption { invocation_id, result_id, reason } => occurs(
            text,
            "record interruption: invocation "@ + invocation_id@ + ", result "@ + result_id@
                + ", reason "@ + reason@ + "\n"@,
        ),
        RecoveryAction::ContinueWithNextInvocation => occurs(
            text,
            "continue in original call order\n"@,
        ),
        RecoveryAction::FinishOperation => occurs(text, "finish operation\n"@),
    }
}

proof fn steps_are_told(output: Seq<char>, actions: Seq<RecoveryAction>, at: int)
    requires
        0 <= at < actions.len(),
    ensures
        told_by(action_lines(output, actions), actions[at]),
    decreases actions.len(),
{
    let earlier = action_lines(output, actions.drop_last());
    let whole = action_lines(output, actions);
    let nothing = Seq::<char>::empty();
    let part = action_line(nothing, actions[at]);
    assert(part =~= match actions[at] {
        RecoveryAction::AlreadyCompleted { result_id } => "already completed: result "@
            + result_id@ + "\n"@,
        RecoveryAction::ReplayExactInvocation { invocation_id } =>
            "replay after current permission: "@ + invocation_id@ + "\n"@,
        RecoveryAction::RecordInterruption { invocation_id, result_id, reason } =>
            "record interruption: invocation "@ + invocation_id@ + ", result "@ + result_id@
                + ", reason "@ + reason@ + "\n"@,
        RecoveryAction::ContinueWithNextInvocation => "continue in original call order\n"@,
        RecoveryAction::FinishOperation => "finish operation\n"@,
    });
    if at == actions.len() - 1 {
        assert(whole =~= earlier + part + nothing);
        parts_occur(earlier, part, nothing);
    } else {
        steps_are_told(output, actions.drop_last(), at);
        assert(actions.drop_last()[at] == actions[at]);
        assert(earlier =~= whole.take(earlier.len() as int));
        beginnings_are_held(earlier, whole, part);
    }
}

/// What is said of a recovery holds every step of it, in words of its own.
pub proof fn recoveries_tell_every_step(
    output: Seq<char>,
    session: Seq<char>,
    operation: RestoredOperation,
    actions: Seq<RecoveryAction>,
    at: int,
)
    requires
        0 <= at < actions.len(),
    ensures
        told_by(recovery_text(output, session, operation, actions), actions[at]),
{
    let head = output + "session: "@ + session + "\noperation: "@ + operation.operation_id@
        + "\nthread: "@ + operation.thread_id@ + "\ninput entry: "@ + operation.input_entry_id@
        + "\n"@;
    steps_are_told(
        if operation.step_order@.len() == 0 {
            head + "steps: none committed\n"@
        } else {
            head + "steps: "@ + joined(views(operation.step_order@), ", "@) + "\n"@
        },
        actions,
        at,
    );
}

/// Every log entry is listed under its kind and name, with its size.
pub proof fn logs_are_listed(output: Seq<char>, entries: Seq<LogEntry>, at: int)
    requires
        0 <= at < entries.len(),
    ensures
        occurs(
            log_rows(output, entries),
            entries[at].kind@ + "\t"@ + entries[at].name@ + "\t"@ + decimal(
                entries[at].bytes as nat,
            ),
        ),
    decreases entries.len(),
{
    let earlier = log_rows(output, entries.drop_last());
    let whole = log_rows(output, entries);
    let part = entries[at].kind@ + "\t"@ + entries[at].name@ + "\t"@ + decimal(
        entries[at].bytes as nat,
    );
    if at == entries.len() - 1 {
        assert(whole =~= earlier + part + " bytes\n"@);
        parts_occur(earlier, part, " bytes\n"@);
    } else {
        logs_are_listed(output, entries.drop_last(), at);
        assert(earlier =~= whole.take(earlier.len() as int));
        beginnings_are_held(earlier, whole, part);
    }
}

/// What is said of a route names its profile, who runs it, its connection and its model,
/// each behind its own label.
pub proof fn routes_are_told(output: Seq<char>, route: ResolvedAgentConfig)
    ensures
        occurs(route_text(output, route), "route: "@ + route.route@),
        occurs(route_text(output, route), "\nprofile: "@ + route.profile@),
        occurs(route_text(output, route), "\nexecution: "@ + route.owner_name@),
        occurs(route_text(output, route), "\nconnection: "@ + route.connection@),
        occurs(route_text(output, route), "\nkind: "@ + route.provider_kind@),
        occurs(route_text(output, route), "\nmodel: "@ + route.model@),
{
    let whole = route_text(output, route);
    heads_begin_routes(output, route);
    let t1 = output + "route: "@;
    let t2 = t1 + route.route@;
    let t3 = t2 + "\nprofile: "@;
    let t4 = t3 + route.profile@;
    let t5 = t4 + "\nexecution: "@;
    let t6 = t5 + route.owner_name@;
    let t7 = t6 + "\nconnection: "@;
    let t8 = t7 + route.connection@;
    let t9 = t8 + "\nkind: "@;
    let t10 = t9 + route.provider_kind@;
    let t11 = t10 + "\nmodel: "@;
    let t12 = t11 + route.model@;
    let t13 = t12 + "\n"@;
    assert(t13.is_prefix_of(whole));
    beginnings_begin_alike(t12, "\n"@, whole);
    beginnings_begin_alike(t11, route.model@, whole);
    beginnings_begin_alike(t10, "\nmodel: "@, whole);
    beginnings_begin_alike(t9, route.provider_kind@, whole);
    beginnings_begin_alike(t8, "\nkind: "@, whole);
    beginnings_begin_alike(t7, route.connection@, whole);
    beginnings_begin_alike(t6, "\nconnection: "@, whole);
    beginnings_begin_alike(t5, route.owner_name@, whole);
    beginnings_begin_alike(t4, "\nexecution: "@, whole);
    beginnings_begin_alike(t3, route.profile@, whole);
    beginnings_begin_alike(t2, "\nprofile: "@, whole);
    ends_occur(output, "route: "@, route.route@);
    beginnings_are_held(t2, whole, "route: "@ + route.route@);
    ends_occur(t2, "\nprofile: "@, route.profile@);
    beginnings_are_held(t4, whole, "\nprofile: "@ + route.profile@);
    ends_occur(t4, "\nexecution: "@, route.owner_name@);
    beginnings_are_held(t6, whole, "\nexecution: "@ + route.owner_name@);
    ends_occur(t6, "\nconnection: "@, route.connection@);
    beginnings_are_held(t8, whole, "\nconnection: "@ + route.connection@);
    ends_occur(t8, "\nkind: "@, route.provider_kind@);
    beginnings_are_held(t10, whole, "\nkind: "@ + route.provider_kind@);
    ends_occur(t10, "\nmodel: "@, route.model@);
    beginnings_are_held(t12, whole, "\nmodel: "@ + route.model@);
}

/// What is said of a route names its permission, its rounds and each of its limits behind
/// its own label.
pub proof fn limits_of_routes_are_told(output: Seq<char>, route: ResolvedAgentConfig)
    ensures
        occurs(route_text(output, route), "\npermission ceiling: "@ + route.permission_mode@),
        occurs(
            route_text(output, route),
            "\nmaximum tool rounds: "@ + decimal(route.max_tool_rounds as nat),
        ),
        occurs(
            route_text(output, route),
            "\norchestration: fan-out "@ + decimal(route.orchestration.max_fan_out as nat),
        ),
        occurs(
            route_text(output, route),
            ", descendants "@ + decimal(route.orchestration.max_descendants as nat),
        ),
        occurs(
            route_text(output, route),
            ", concurrency "@ + decimal(route.orchestration.max_concurrency as nat),
        ),
        occurs(
            route_text(output, route),
            ", deadline "@ + decimal(route.orchestration.deadline_seconds as nat),
        ),
        occurs(
            route_text(output, route),
            "s, context "@ + decimal(route.orchestration.max_context_tokens as nat),
        ),
        occurs(
            route_text(output, route),
            " tokens, report "@ + decimal(route.orchestration.max_report_bytes as nat),
        ),
        occurs(
            route_text(output, route),
            " bytes, artifacts "@ + decimal(route.orchestration.max_artifact_bytes as nat),
        ),
{
    let limits = route.orchestration;
    let told = route_head(output, route) + reasoning_told(route);
    let capabilities = if route.capabilities@.len() == 0 {
        "none"@
    } else {
        joined(views(route.capabilities@), ","@)
    };
    let whole = route_text(output, route);
    reasoning_follows(output, route);
    let t1 = told + "capabilities: "@;
    let t2 = t1 + capabilities;
    let t3 = t2 + "\npermission ceiling: "@;
    let t4 = t3 + route.permission_mode@;
    let t5 = t4 + "\nmaximum tool rounds: "@;
    let t6 = t5 + decimal(route.max_tool_rounds as nat);
    let t7 = t6 + "\norchestration: fan-out "@;
    let t8 = t7 + decimal(limits.max_fan_out as nat);
    let t9 = t8 + ", descendants "@;
    let t10 = t9 + decimal(limits.max_descendants as nat);
    let t11 = t10 + ", concurrency "@;
    let t12 = t11 + decimal(limits.max_concurrency as nat);
    let t13 = t12 + ", deadline "@;
    let t14 = t13 + decimal(limits.deadline_seconds as nat);
    let t15 = t14 + "s, context "@;
    let t16 = t15 + decimal(limits.max_context_tokens as nat);
    let t17 = t16 + " tokens, report "@;
    let t18 = t17 + decimal(limits.max_report_bytes as nat);
    let t19 = t18 + " bytes, artifacts "@;
    let t20 = t19 + decimal(limits.max_artifact_bytes as nat);
    let t21 = t20 + " bytes\n"@;
    assert(t21.is_prefix_of(whole));
    beginnings_begin_alike(t20, " bytes\n"@, whole);
    beginnings_begin_alike(t19, decimal(limits.max_artifact_bytes as nat), whole);
    beginnings_begin_alike(t18, " bytes, artifacts "@, whole);
    beginnings_begin_alike(t17, decimal(limits.max_report_bytes as nat), whole);
    beginnings_begin_alike(t16, " tokens, report "@, whole);
    beginnings_begin_alike(t15, decimal(limits.max_context_tokens as nat), whole);
    beginnings_begin_alike(t14, "s, context "@, whole);
    beginnings_begin_alike(t13, decimal(limits.deadline_seconds as nat), whole);
    beginnings_begin_alike(t12, ", deadline "@, whole);
    beginnings_begin_alike(t11, decimal(limits.max_concurrency as nat), whole);
    beginnings_begin_alike(t10, ", concurrency "@, whole);
    beginnings_begin_alike(t9, decimal(limits.max_descendants as nat), whole);
    beginnings_begin_alike(t8, ", descendants "@, whole);
    beginnings_begin_alike(t7, decimal(limits.max_fan_out as nat), whole);
    beginnings_begin_alike(t6, "\norchestration: fan-out "@, whole);
    beginnings_begin_alike(t5, decimal(route.max_tool_rounds as nat), whole);
    beginnings_begin_alike(t4, "\nmaximum tool rounds: "@, whole);
    ends_occur(t2, "\npermission ceiling: "@, route.permission_mode@);
    beginnings_are_held(t4, whole, "\npermission ceiling: "@ + route.permission_mode@);
    ends_occur(t4, "\nmaximum tool rounds: "@, decimal(route.max_tool_rounds as nat));
    beginnings_are_held(
        t6,
        whole,
        "\nmaximum tool rounds: "@ + decimal(route.max_tool_rounds as nat),
    );
    ends_occur(t6, "\norchestration: fan-out "@, decimal(limits.max_fan_out as nat));
    beginnings_are_held(
        t8,
        whole,
        "\norchestration: fan-out "@ + decimal(limits.max_fan_out as nat),
    );
    ends_occur(t8, ", descendants "@, decimal(limits.max_descendants as nat));
    beginnings_are_held(t10, whole, ", descendants "@ + decimal(limits.max_descendants as nat));
    ends_occur(t10, ", concurrency "@, decimal(limits.max_concurrency as nat));
    beginnings_are_held(t12, whole, ", concurrency "@ + decimal(limits.max_concurrency as nat));
    ends_occur(t12, ", deadline "@, decimal(limits.deadline_seconds as nat));
    beginnings_are_held(t14, whole, ", deadline "@ + decimal(limits.deadline_seconds as nat));
    ends_occur(t14, "s, context "@, decimal(limits.max_context_tokens as nat));
    beginnings_are_held(t16, whole, "s, context "@ + decimal(limits.max_context_tokens as nat));
    ends_occur(t16, " tokens, report "@, decimal(limits.max_report_bytes as nat));
    beginnings_are_held(t18, whole, " tokens, report "@ + decimal(limits.max_report_bytes as nat));
    ends_occur(t18, " bytes, artifacts "@, decimal(limits.max_artifact_bytes as nat));
    beginnings_are_held(
        t20,
        whole,
        " bytes, artifacts "@ + decimal(limits.max_artifact_bytes as nat),
    );
}

spec fn route_head(output: Seq<char>, route: ResolvedAgentConfig) -> Seq<char> {
    output + "route: "@ + route.route@ + "\nprofile: "@ + route.profile@ + "\nexecution: "@
        + route.owner_name@ + "\nconnection: "@ + route.connection@ + "\nkind: "@
        + route.provider_kind@ + "\nmodel: "@ + route.model@ + "\n"@
}

spec fn reasoning_told(route: ResolvedAgentConfig) -> Seq<char> {
    match route.owner {
        ExecutionOwner::Codex => "reasoning effort: "@ + (match route.reasoning_effort {
            Some(effort) => effort@,
            None => "model default"@,
        }) + "\nreasoning summary: "@ + (match route.reasoning_summary {
            Some(summary) => summary@,
            None => "provider default"@,
        }) + "\n"@,
        ExecutionOwner::Xana => Seq::empty(),
    }
}

proof fn reasoning_follows(output: Seq<char>, route: ResolvedAgentConfig)
    ensures
        route_text(output, route) == ({
            let limits = route.orchestration;
            route_head(output, route) + reasoning_told(route) + "capabilities: "@ + (
            if route.capabilities@.len() == 0 {
                "none"@
            } else {
                joined(views(route.capabilities@), ","@)
            }) + "\npermission ceiling: "@ + route.permission_mode@ + "\nmaximum tool rounds: "@
                + decimal(route.max_tool_rounds as nat) + "\norchestration: fan-out "@ + decimal(
                limits.max_fan_out as nat,
            ) + ", descendants "@ + decimal(limits.max_descendants as nat) + ", concurrency "@
                + decimal(limits.max_concurrency as nat) + ", deadline "@ + decimal(
                limits.deadline_seconds as nat,
            ) + "s, context "@ + decimal(limits.max_context_tokens as nat) + " tokens, report "@
                + decimal(limits.max_report_bytes as nat) + " bytes, artifacts "@ + decimal(
                limits.max_artifact_bytes as nat,
            ) + " bytes\n"@
        }),
{
    let head = route_head(output, route);
    match route.owner {
        ExecutionOwner::Codex => {
            let effort = match route.reasoning_effort {
                Some(effort) => effort@,
                None => "model default"@,
            };
            let summary = match route.reasoning_summary {
                Some(summary) => summary@,
                None => "provider default"@,
            };
            assert(head + reasoning_told(route) =~= head + "reasoning effort: "@ + effort
                + "\nreasoning summary: "@ + summary + "\n"@);
        },
        ExecutionOwner::Xana => {
            assert(head + reasoning_told(route) =~= head);
        },
    }
}

proof fn heads_begin_routes(output: Seq<char>, route: ResolvedAgentConfig)
    ensures
        route_head(output, route).is_prefix_of(route_text(output, route)),
{
    let limits = route.orchestration;
    let told = route_head(output, route) + reasoning_told(route);
    let capabilities = if route.capabilities@.len() == 0 {
        "none"@
    } else {
        joined(views(route.capabilities@), ","@)
    };
    let whole = route_text(output, route);
    reasoning_follows(output, route);
    let t1 = told + "capabilities: "@;
    let t2 = t1 + capabilities;
    let t3 = t2 + "\npermission ceiling: "@;
    let t4 = t3 + route.permission_mode@;
    let t5 = t4 + "\nmaximum tool rounds: "@;
    let t6 = t5 + decimal(route.max_tool_rounds as nat);
    let t7 = t6 + "\norchestration: fan-out "@;
    let t8 = t7 + decimal(limits.max_fan_out as nat);
    let t9 = t8 + ", descendants "@;
    let t10 = t9 + decimal(limits.max_descendants as nat);
    let t11 = t10 + ", concurrency "@;
    let t12 = t11 + decimal(limits.max_concurrency as nat);
    let t13 = t12 + ", deadline "@;
    let t14 = t13 + decimal(limits.deadline_seconds as nat);
    let t15 = t14 + "s, context "@;
    let t16 = t15 + decimal(limits.max_context_tokens as nat);
    let t17 = t16 + " tokens, report "@;
    let t18 = t17 + decimal(limits.max_report_bytes as nat);
    let t19 = t18 + " bytes, artifacts "@;
    let t20 = t19 + decimal(limits.max_artifact_bytes as nat);
    let t21 = t20 + " bytes\n"@;
    assert(t21.is_prefix_of(whole));
    beginnings_begin_alike(t20, " bytes\n"@, whole);
    beginnings_begin_alike(t19, decimal(limits.max_artifact_bytes as nat), whole);
    beginnings_begin_alike(t18, " bytes, artifacts "@, whole);
    beginnings_begin_alike(t17, decimal(limits.max_report_bytes as nat), whole);
    beginnings_begin_alike(t16, " tokens, report "@, whole);
    beginnings_begin_alike(t15, decimal(limits.max_context_tokens as nat), whole);
    beginnings_begin_alike(t14, "s, context "@, whole);
    beginnings_begin_alike(t13, decimal(limits.deadline_seconds as nat), whole);
    beginnings_begin_alike(t12, ", deadline "@, whole);
    beginnings_begin_alike(t11, decimal(limits.max_concurrency as nat), whole);
    beginnings_begin_alike(t10, ", concurrency "@, whole);
    beginnings_begin_alike(t9, decimal(limits.max_descendants as nat), whole);
    beginnings_begin_alike(t8, ", descendants "@, whole);
    beginnings_begin_alike(t7, decimal(limits.max_fan_out as nat), whole);
    beginnings_begin_alike(t6, "\norchestration: fan-out "@, whole);
    beginnings_begin_alike(t5, decimal(route.max_tool_rounds as nat), whole);
    beginnings_begin_alike(t4, "\nmaximum tool rounds: "@, whole);
    beginnings_begin_alike(t3, route.permission_mode@, whole);
    beginnings_begin_alike(t2, "\npermission ceiling: "@, whole);
    beginnings_begin_alike(t1, capabilities, whole);
    beginnings_begin_alike(told, "capabilities: "@, whole);
    beginnings_begin_alike(route_head(output, route), reasoning_told(route), whole);
}

/// Where the logs and the crashes are, how long they are kept and how much is logged is told
/// as it is, each behind its own label.
pub proof fn logs_are_told_of(
    logs: &str,
    crashes: &str,
    retention_days: u64,
    level: &str,
    output: &mut String,
)
    requires
        call_ensures(write_log_paths, (logs, crashes, retention_days, level, output), ()),
    ensures
        old(output)@.is_prefix_of(final(output)@),
        occurs(final(output)@, "Logs:    "@ + logs@),
        occurs(final(output)@, "\nCrashes: "@ + crashes@),
        occurs(final(output)@, "\nRetention: "@ + decimal(retention_days as nat)),
        occurs(final(output)@, " day(s)\nLevel: "@ + level@),
{
    let start = old(output)@;
    let whole = final(output)@;
    let t1 = start + "Logs:    "@;
    let t2 = t1 + logs@;
    let t3 = t2 + "\nCrashes: "@;
    let t4 = t3 + crashes@;
    let t5 = t4 + "\nRetention: "@;
    let t6 = t5 + decimal(retention_days as nat);
    let t7 = t6 + " day(s)\nLevel: "@;
    let t8 = t7 + level@;
    let t9 = t8 + "\n"@;
    assert(t9.is_prefix_of(whole));
    beginnings_begin_alike(t8, "\n"@, whole);
    beginnings_begin_alike(t7, level@, whole);
    beginnings_begin_alike(t6, " day(s)\nLevel: "@, whole);
    beginnings_begin_alike(t5, decimal(retention_days as nat), whole);
    beginnings_begin_alike(t4, "\nRetention: "@, whole);
    beginnings_begin_alike(t3, crashes@, whole);
    beginnings_begin_alike(t2, "\nCrashes: "@, whole);
    beginnings_begin_alike(t1, logs@, whole);
    beginnings_begin_alike(start, "Logs:    "@, whole);
    ends_occur(start, "Logs:    "@, logs@);
    beginnings_are_held(t2, whole, "Logs:    "@ + logs@);
    ends_occur(t2, "\nCrashes: "@, crashes@);
    beginnings_are_held(t4, whole, "\nCrashes: "@ + crashes@);
    ends_occur(t4, "\nRetention: "@, decimal(retention_days as nat));
    beginnings_are_held(t6, whole, "\nRetention: "@ + decimal(retention_days as nat));
    ends_occur(t6, " day(s)\nLevel: "@, level@);
    beginnings_are_held(t8, whole, " day(s)\nLevel: "@ + level@);
}

}
