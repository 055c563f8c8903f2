//! The connection commands: what each of them does, step by step, and what it
//! reports.
//!
//! A command asks for one piece of outside work at a time and is told what came
//! of it. It never stores, deletes or contacts anything itself.

use crate::config::{CredentialReference, PermissionMode};
use crate::connections::{
    account_kind, action_receipt, detail_text, managed_account_state, row_text, test_text,
    write_account_status, write_connection_detail, write_connection_row, write_connection_test,
    AccountStatus, ConnectionEffect, ConnectionReceipt, ConnectionSummaryView,
    ConnectionTestReceipt, ManagedAccountState, RecoveryAction, CONNECTION_STATE_VERSION,
};
use crate::text::{
    byte_count, byte_len, debug_text, decimal, decimal_text, join, joined,
    line_ends_are_left_out, longer_texts_hold_the_same, occurs, parts_occur, quoted,
    trim_line_end, views, without_line_end,
};
use vstd::prelude::*;
use vstd::string::*;

verus! {

/// How long a credential may be, in bytes.
pub const MAX_CREDENTIAL_BYTES: usize = 65536;

/// What a new connection is to be.
#[derive(Debug, PartialEq, Eq)]
pub struct AddArguments {
    pub id: String,
    pub kind: String,
    pub base_url: Option<String>,
    pub env: Option<String>,
    pub credential_id: Option<String>,
    pub key_from_stdin: bool,
    pub model: String,
    pub codex_program: Option<String>,
    pub codex_home: Option<String>,
    pub yes: bool,
    pub dry_run: bool,
}

/// What the setup is run with.
#[derive(Debug, PartialEq, Eq)]
pub struct SetupArguments {
    pub non_interactive: bool,
    pub quick: bool,
    pub kind: String,
    pub connection: String,
    pub base_url: Option<String>,
    pub codex_program: Option<String>,
    pub codex_home: Option<String>,
    pub credential_env: Option<String>,
    pub credential_id: Option<String>,
    pub key_from_stdin: bool,
    pub model: String,
    pub permission_mode: PermissionMode,
    pub yes: bool,
    pub dry_run: bool,
}

/// What the setup is run with for a new connection: it asks nothing, and keeps the
/// permission that is configured.
pub open spec fn setup_of(
    arguments: AddArguments,
    configured: Option<PermissionMode>,
) -> SetupArguments {
    SetupArguments {
        non_interactive: true,
        quick: true,
        kind: arguments.kind,
        connection: arguments.id,
        base_url: arguments.base_url,
        codex_program: arguments.codex_program,
        codex_home: arguments.codex_home,
        credential_env: arguments.env,
        credential_id: arguments.credential_id,
        key_from_stdin: arguments.key_from_stdin,
        model: arguments.model,
        permission_mode: match configured {
            Some(mode) => mode,
            None => PermissionMode::Ask,
        },
        yes: arguments.yes,
        dry_run: arguments.dry_run,
    }
}

/// A command on connections.
#[derive(Debug, PartialEq, Eq)]
pub enum ConnectionCommand {
    /// Adds a connection; `configured` is the permission of the configuration, where
    /// that can be read.
    Add { arguments: AddArguments, configured: Option<PermissionMode> },
    Test { id: String },
    Repair { id: String },
    List,
    Status { id: String },
    SetKey { id: String, from_stdin: bool },
    DeleteKey { id: String, yes: bool },
    Login { id: String, device_code: bool },
    Logout { id: String, yes: bool },
    Refresh { id: String },
    Remove { id: String, yes: bool },
}

/// What a command must know of its connection.
#[derive(Debug, PartialEq, Eq)]
pub struct ConnectionFacts {
    pub codex: bool,
    pub credential: Option<CredentialReference>,
}

/// What a running managed runtime tells.
#[derive(Debug, PartialEq, Eq)]
pub struct RuntimeFacts {
    pub account: AccountStatus,
    pub version: String,
    pub home: String,
}

/// The outside work that a command asks for.
#[derive(Debug, PartialEq, Eq)]
pub enum ConnectionWork {
    /// Run the setup.
    Setup(SetupArguments),
    /// Test a connection.
    Test,
    /// Look up what is known of all connections.
    Snapshot,
    /// Start the managed runtime of a connection and ask for its account.
    InspectRuntime,
    /// Take the state of the account into what is known of the connection.
    ObserveAccount { known: ConnectionSummaryView, state: ManagedAccountState },
    /// Ask the managed runtime for its rate limits.
    AskLimits,
    /// Look up how the connection is declared.
    Connection,
    /// Read a credential from piped input, or hidden from the terminal.
    ReadSecret { from_stdin: bool },
    /// Ask for the models with this secret.
    Probe { secret: String },
    /// Store this secret under this name.
    StoreSecret { credential_id: String, secret: String },
    /// Delete the secret of this name.
    DeleteSecret { credential_id: String },
    /// Keep the models that were discovered.
    WriteCache,
    /// Start the managed runtime and ask for its account.
    StartRuntime,
    /// Begin a managed login.
    BeginLogin { device_code: bool },
    /// Wait until the login is done or interrupted.
    WaitLogin,
    /// Cancel the login.
    CancelLogin,
    /// Log the managed account out.
    LogOut,
    /// Stop the managed runtime.
    StopRuntime,
    /// Discover the models anew.
    Refresh,
    /// Remove the connection.
    Remove,
    /// The command is over, with its failure if it failed.
    Finish(Option<String>),
    /// The event does not belong here; nothing changed.
    Ignore,
}

/// What came of the latest outside work.
#[derive(Debug, PartialEq, Eq)]
pub enum ConnectionEvent {
    SetUp { transcript: String },
    /// The test's receipt, and how many models it discovered.
    Tested(ConnectionTestReceipt, usize),
    Snapshot(Vec<ConnectionSummaryView>),
    /// What is known of the connection, if it exists, and whether its runtime is
    /// managed.
    Known(Option<ConnectionSummaryView>, bool),
    Runtime(RuntimeFacts),
    /// What is known of the connection now.
    Observed(ConnectionSummaryView),
    /// The used percentages of the two rate limits, as text, where they are told.
    Limits { primary: Option<String>, secondary: Option<String> },
    Connection(ConnectionFacts),
    Secret(String),
    NoTerminal,
    Models(usize),
    Deleted(bool),
    Cached(Result<(), String>),
    Account(AccountStatus),
    Instructions { url: String, code: Option<String> },
    LoggedIn(AccountStatus),
    Interrupted,
    Cancelled { found: bool },
    Refreshed(usize),
    Removed { backup: String, retained_authority: Vec<String> },
    Done,
    Failed(String),
}

/// What is written as JSON in place of text.
#[derive(Debug, PartialEq, Eq)]
pub enum JsonReport {
    Receipt(ConnectionReceipt),
    Test(ConnectionTestReceipt),
    Snapshot,
    Detail(ConnectionSummaryView),
    Removal,
}

/// Where a command stands.
#[derive(Debug, PartialEq, Eq)]
pub enum CommandStage {
    Setup { dry_run: bool },
    Test,
    RepairTest,
    RepairCache { models: usize },
    Snapshot,
    Lookup,
    Inspect { known: ConnectionSummaryView },
    Observe { facts: RuntimeFacts },
    Limits { told: ConnectionSummaryView, facts: RuntimeFacts },
    StatusStop {
        told: ConnectionSummaryView,
        facts: RuntimeFacts,
        limits: Vec<(&'static str, String)>,
    },
    KeyConnection { from_stdin: bool },
    KeySecret { credential_id: String, from_stdin: bool },
    KeyProbe { credential_id: String, secret: String },
    KeyStore { models: usize },
    KeyCache { models: usize },
    DeleteConnection,
    DeleteSecret,
    LoginConnection { device_code: bool },
    LoginAccount { device_code: bool },
    LoginBegin,
    LoginWait,
    LoginCancel,
    Stopping,
    LogoutConnection,
    LogoutAccount,
    LogoutRun,
    LogoutStop,
    Refresh,
    Remove,
    Over,
}

/// A command that is being run.
#[derive(Debug, PartialEq, Eq)]
pub struct ConnectionRun {
    pub id: String,
    pub json: bool,
    pub stage: CommandStage,
}

/// What a command says and does next.
#[derive(Debug, PartialEq, Eq)]
pub struct CommandStep {
    pub print: String,
    pub report: Option<JsonReport>,
    pub work: ConnectionWork,
}

pub const DELETE_CONFIRMATION: &'static str = "credential deletion is separate from connection removal and requires --yes";

pub const LOGOUT_CONFIRMATION: &'static str = "logout changes the shared Codex account for this CODEX_HOME and may affect other Codex clients; rerun with --yes";

pub const REMOVE_CONFIRMATION: &'static str = "connection removal requires --yes";

pub const NO_STORED_CREDENTIAL: &'static str = "connection does not declare a stored credential";

pub const CREDENTIAL_LIMIT: &'static str = "credential exceeds the 65536-byte limit";

pub const HIDDEN_ENTRY: &'static str = "hidden key entry requires a terminal; use --from-stdin";

/// Whether a receipt is that of an action on a connection.
pub open spec fn is_receipt(
    receipt: ConnectionReceipt,
    id: Seq<char>,
    code: Seq<char>,
    effect: ConnectionEffect,
) -> bool {
    &&& receipt.version == CONNECTION_STATE_VERSION
    &&& receipt.semantic_code@ == code
    &&& receipt.connection@ == id
    &&& receipt.effect == effect
    &&& receipt.backup is None
    &&& receipt.retained_authority@.len() == 0
}

/// A text, or nothing where JSON is written in its place.
pub open spec fn unless_json(run: ConnectionRun, text: Seq<char>) -> Seq<char> {
    if run.json {
        Seq::empty()
    } else {
        text
    }
}

/// Whether a step reports an action: as JSON by its receipt, and otherwise only
/// in its text.
pub open spec fn reports(
    run: ConnectionRun,
    step: CommandStep,
    code: Seq<char>,
    effect: ConnectionEffect,
) -> bool {
    if run.json {
        &&& step.report matches Some(JsonReport::Receipt(receipt))
        &&& is_receipt(receipt, run.id@, code, effect)
        &&& receipt.warnings@.len() == 0
    } else {
        step.report is None
    }
}

/// The run at another stage.
pub open spec fn at_stage(run: ConnectionRun, stage: CommandStage) -> ConnectionRun {
    ConnectionRun { stage, ..run }
}

/// The command ends well.
pub open spec fn completes(before: ConnectionRun, after: ConnectionRun, step: CommandStep) -> bool {
    &&& after == at_stage(before, CommandStage::Over)
    &&& step.work == ConnectionWork::Finish(None)
}

/// The command ends with a failure and says nothing else.
pub open spec fn fails(
    before: ConnectionRun,
    after: ConnectionRun,
    step: CommandStep,
    text: Seq<char>,
) -> bool {
    &&& after == at_stage(before, CommandStage::Over)
    &&& step.work matches ConnectionWork::Finish(Some(failure))
    &&& failure@ == text
    &&& step.print@.len() == 0
    &&& step.report is None
}

/// The command goes on quietly.
pub open spec fn goes_on(
    before: ConnectionRun,
    after: ConnectionRun,
    step: CommandStep,
    stage: CommandStage,
    work: ConnectionWork,
) -> bool {
    &&& after == at_stage(before, stage)
    &&& step.work == work
    &&& step.print@.len() == 0
    &&& step.report is None
}

/// What is said of a connection that did not pass its test.
pub open spec fn unusable(id: Seq<char>, what: Seq<char>, recovery: RecoveryAction) -> Seq<char> {
    "connection "@ + debug_text(id) + what + recovery.text()
}

/// The rows of a list of connections.
pub open spec fn rows_text(connections: Seq<ConnectionSummaryView>) -> Seq<char>
    decreases connections.len(),
{
    if connections.len() == 0 {
        Seq::empty()
    } else {
        row_text(rows_text(connections.drop_last()), connections.last())
    }
}

/// The lines of named limits.
pub open spec fn limits_text(output: Seq<char>, limits: Seq<(&'static str, String)>) -> Seq<char>
    decreases limits.len(),
{
    if limits.len() == 0 {
        output
    } else {
        limits_text(output, limits.drop_last()) + limits.last().0@ + " usage: "@
            + limits.last().1@ + "%\n"@
    }
}

/// Whether limits are those that are told, under their names.
pub open spec fn names_limits(
    primary: Option<String>,
    secondary: Option<String>,
    limits: Seq<(&'static str, String)>,
) -> bool {
    let first = if primary is Some {
        1int
    } else {
        0
    };
    let both = first + if secondary is Some {
        1int
    } else {
        0
    };
    &&& limits.len() == both
    &&& primary matches Some(percent) ==> limits[0].0@ == "primary"@ && limits[0].1 == percent
    &&& secondary matches Some(percent) ==> limits[first].0@ == "secondary"@ && limits[first].1
        == percent
}

fn name_limits(primary: Option<String>, secondary: Option<String>) -> (limits: Vec<
    (&'static str, String),
>)
    ensures
        names_limits(primary, secondary, limits@),
{
    let mut limits: Vec<(&'static str, String)> = Vec::new();
    match primary {
        Some(percent) => limits.push(("primary", percent)),
        None => {},
    }
    match secondary {
        Some(percent) => limits.push(("secondary", percent)),
        None => {},
    }
    limits
}

/// Rate limits are asked for of ChatGPT accounts only.
pub open spec fn has_limits(account: AccountStatus) -> bool {
    account is ChatGpt
}

/// Whether rate limits are asked for: of ChatGPT accounts only.
pub fn asks_limits(account: &AccountStatus) -> (yes: bool)
    ensures
        yes == has_limits(*account),
{
    matches!(account, AccountStatus::ChatGpt { .. })
}

/// What is said of a stored credential whose cache could not be updated.
pub open spec fn cache_warning(error: Seq<char>, id: Seq<char>) -> Seq<char> {
    "credential was stored, but the catalog cache was not updated: "@ + error
        + "; run `xana model refresh "@ + id + "`"@
}

/// How the look-up of a connection's declaration leads on to its stored
/// credential, or why it does not.
pub open spec fn credential_found(
    before: ConnectionRun,
    facts: ConnectionFacts,
    after: ConnectionRun,
    step: CommandStep,
    environment: Seq<char>,
) -> bool {
    match facts.credential {
        None => fails(before, after, step, NO_STORED_CREDENTIAL@),
        Some(CredentialReference::Environment { .. }) => fails(
            before,
            after,
            step,
            "connection "@ + debug_text(before.id@) + environment,
        ),
        Some(CredentialReference::Stored { id }) => match before.stage {
            CommandStage::KeyConnection { from_stdin } => goes_on(
                before,
                after,
                step,
                CommandStage::KeySecret { credential_id: id, from_stdin },
                ConnectionWork::ReadSecret { from_stdin },
            ),
            _ => goes_on(
                before,
                after,
                step,
                CommandStage::DeleteSecret,
                ConnectionWork::DeleteSecret { credential_id: id },
            ),
        },
    }
}

/// How a read secret leads on to the probe with it.
pub open spec fn secret_read(
    before: ConnectionRun,
    credential_id: String,
    from_stdin: bool,
    text: String,
    after: ConnectionRun,
    step: CommandStep,
) -> bool {
    if from_stdin && byte_count(text@) > MAX_CREDENTIAL_BYTES {
        fails(before, after, step, CREDENTIAL_LIMIT@)
    } else {
        &&& after.stage matches CommandStage::KeyProbe { credential_id: held, secret }
        &&& held == credential_id
        &&& secret@ == (if from_stdin {
            without_line_end(text@)
        } else {
            text@
        })
        &&& goes_on(
            before,
            after,
            step,
            after.stage,
            ConnectionWork::Probe { secret },
        )
    }
}

/// The runtime of an inspected connection is stopped, with the limits that it told.
pub open spec fn stops_status(
    before: ConnectionRun,
    after: ConnectionRun,
    step: CommandStep,
    told: ConnectionSummaryView,
    facts: RuntimeFacts,
    primary: Option<String>,
    secondary: Option<String>,
) -> bool {
    &&& after.stage matches CommandStage::StatusStop { told: t, facts: f, limits }
    &&& t == told
    &&& f == facts
    &&& names_limits(primary, secondary, limits@)
    &&& goes_on(before, after, step, after.stage, ConnectionWork::StopRuntime)
}

/// How a command moves on one event.
pub open spec fn command_moves(
    before: ConnectionRun,
    event: ConnectionEvent,
    after: ConnectionRun,
    step: CommandStep,
) -> bool {
    match (before.stage, event) {
        (CommandStage::Over, _) => ignores(before, after, step),
        (_, ConnectionEvent::Failed(text)) => fails(before, after, step, text@),
        (CommandStage::Setup { dry_run }, ConnectionEvent::SetUp { transcript }) => {
            let code = if dry_run {
                "connection.add.validated.v1"@
            } else {
                "connection.add.completed.v1"@
            };
            &&& completes(before, after, step)
            &&& reports(
                before,
                step,
                code,
                if dry_run {
                    ConnectionEffect::Validated
                } else {
                    ConnectionEffect::Added
                },
            )
            &&& step.print@ == unless_json(before, transcript@ + "receipt: "@ + code + "\n"@)
        },
        (CommandStage::Test, ConnectionEvent::Tested(receipt, _)) => tested(
            before,
            receipt,
            " is not usable; recovery="@,
            after,
            step,
        ),
        (CommandStage::RepairTest, ConnectionEvent::Tested(receipt, models)) => if receipt.usable {
            goes_on(
                before,
                after,
                step,
                CommandStage::RepairCache { models },
                ConnectionWork::WriteCache,
            )
        } else {
            tested(before, receipt, " could not be repaired; recovery="@, after, step)
        },
        (CommandStage::RepairCache { models }, ConnectionEvent::Cached(Ok(_))) => {
            &&& completes(before, after, step)
            &&& reports(
                before,
                step,
                "connection.repair.completed.v1"@,
                ConnectionEffect::Repaired,
            )
            &&& step.print@ == unless_json(
                before,
                "connection repaired: "@ + before.id@ + "\ncached models: "@ + decimal(
                    models as nat,
                ) + "\nreceipt: connection.repair.completed.v1\n"@,
            )
        },
        (CommandStage::RepairCache { .. }, ConnectionEvent::Cached(Err(text))) => fails(
            before,
            after,
            step,
            text@,
        ),
        (CommandStage::Snapshot, ConnectionEvent::Snapshot(connections)) => {
            &&& completes(before, after, step)
            &&& step.report == (if before.json {
                Some(JsonReport::Snapshot)
            } else {
                None
            })
            &&& step.print@ == unless_json(before, rows_text(connections@))
        },
        (CommandStage::Lookup, ConnectionEvent::Known(None, _)) => fails(
            before,
            after,
            step,
            "unknown connection "@ + debug_text(before.id@),
        ),
        (CommandStage::Lookup, ConnectionEvent::Known(Some(known), managed)) => if managed {
            goes_on(
                before,
                after,
                step,
                CommandStage::Inspect { known },
                ConnectionWork::InspectRuntime,
            )
        } else {
            &&& completes(before, after, step)
            &&& step.report == (if before.json {
                Some(JsonReport::Detail(known))
            } else {
                None
            })
            &&& step.print@ == unless_json(before, detail_text(Seq::empty(), known))
        },
        (CommandStage::Inspect { known }, ConnectionEvent::Runtime(facts)) => {
            &&& after == at_stage(before, CommandStage::Observe { facts })
            &&& step.work matches ConnectionWork::ObserveAccount { known: held, state }
            &&& held == known
            &&& match account_kind(facts.account) {
                None => state is LoggedOut,
                Some(text) => state matches ManagedAccountState::LoggedIn { kind } && kind@
                    == text,
            }
            &&& step.print@.len() == 0
            &&& step.report is None
        },
        (CommandStage::Observe { facts }, ConnectionEvent::Observed(told)) => {
            if has_limits(facts.account) {
                goes_on(
                    before,
                    after,
                    step,
                    CommandStage::Limits { told, facts },
                    ConnectionWork::AskLimits,
                )
            } else {
                stops_status(before, after, step, told, facts, None, None)
            }
        },
        (
            CommandStage::Limits { told, facts },
            ConnectionEvent::Limits { primary, secondary },
        ) => stops_status(before, after, step, told, facts, primary, secondary),
        (CommandStage::StatusStop { told, facts, limits }, ConnectionEvent::Done) => {
            &&& completes(before, after, step)
            &&& step.report == (if before.json {
                Some(JsonReport::Detail(told))
            } else {
                None
            })
            &&& step.print@ == unless_json(before, inspected_text(told, facts, limits@))
        },
        (CommandStage::KeyConnection { .. }, ConnectionEvent::Connection(facts)) => credential_found(
            before,
            facts,
            after,
            step,
            " uses an environment credential; set that variable instead"@,
        ),
        (
            CommandStage::KeySecret { credential_id, from_stdin },
            ConnectionEvent::Secret(text),
        ) => secret_read(before, credential_id, from_stdin, text, after, step),
        (CommandStage::KeySecret { .. }, ConnectionEvent::NoTerminal) => fails(
            before,
            after,
            step,
            HIDDEN_ENTRY@,
        ),
        (CommandStage::KeyProbe { credential_id, secret }, ConnectionEvent::Models(models)) => if models
            == 0 {
            fails(
                before,
                after,
                step,
                "connection "@ + debug_text(before.id@)
                    + " returned an empty model catalog; the prior credential was preserved"@,
            )
        } else {
            goes_on(
                before,
                after,
                step,
                CommandStage::KeyStore { models },
                ConnectionWork::StoreSecret { credential_id, secret },
            )
        },
        (CommandStage::KeyStore { models }, ConnectionEvent::Done) => goes_on(
            before,
            after,
            step,
            CommandStage::KeyCache { models },
            ConnectionWork::WriteCache,
        ),
        (CommandStage::KeyCache { models }, ConnectionEvent::Cached(cached)) => {
            let stored = "credential validated against "@ + decimal(models as nat)
                + " model(s) and stored in the operating-system credential store for "@
                + before.id@ + "\n"@;
            &&& completes(before, after, step)
            &&& if before.json {
                &&& step.report matches Some(JsonReport::Receipt(receipt))
                &&& is_receipt(
                    receipt,
                    before.id@,
                    "connection.credential_replace.completed.v1"@,
                    ConnectionEffect::CredentialReplaced,
                )
                &&& match cached {
                    Ok(_) => receipt.warnings@.len() == 0,
                    Err(error) => receipt.warnings@.len() == 1 && receipt.warnings@[0]@
                        == cache_warning(error@, before.id@),
                }
                &&& step.print@.len() == 0
            } else {
                &&& step.report is None
                &&& step.print@ == (match cached {
                    Ok(_) => stored,
                    Err(error) => stored + "warning: "@ + cache_warning(error@, before.id@)
                        + "\n"@,
                })
            }
        },
        (CommandStage::DeleteConnection, ConnectionEvent::Connection(facts)) => credential_found(
            before,
            facts,
            after,
            step,
            " uses an environment credential"@,
        ),
        (CommandStage::DeleteSecret, ConnectionEvent::Deleted(deleted)) => {
            &&& completes(before, after, step)
            &&& reports(
                before,
                step,
                "connection.credential_delete.completed.v1"@,
                ConnectionEffect::CredentialDeleted,
            )
            &&& step.print@ == unless_json(
                before,
                "credential "@ + (if deleted {
                    "deleted"@
                } else {
                    "was already absent"@
                }) + " for "@ + before.id@ + "\n"@,
            )
        },
        (
            CommandStage::LoginConnection { device_code },
            ConnectionEvent::Connection(facts),
        ) => if facts.codex {
            goes_on(
                before,
                after,
                step,
                CommandStage::LoginAccount { device_code },
                ConnectionWork::StartRuntime,
            )
        } else {
            fails(
                before,
                after,
                step,
                "connection "@ + debug_text(before.id@) + " uses an API key, not managed login"@,
            )
        },
        (CommandStage::LoginAccount { device_code }, ConnectionEvent::Account(status)) => if status
            is LoggedOut {
            goes_on(
                before,
                after,
                step,
                CommandStage::LoginBegin,
                ConnectionWork::BeginLogin { device_code },
            )
        } else {
            &&& after == at_stage(before, CommandStage::Stopping)
            &&& step.work == ConnectionWork::StopRuntime
            &&& reports(
                before,
                step,
                "connection.managed_login.already_complete.v1"@,
                ConnectionEffect::ManagedLoginCompleted,
            )
            &&& step.print@ == unless_json(before, "Codex is already logged in.\n"@)
        },
        (CommandStage::LoginBegin, ConnectionEvent::Instructions { url, code }) => {
            &&& after == at_stage(before, CommandStage::LoginWait)
            &&& step.work == ConnectionWork::WaitLogin
            &&& step.report is None
            &&& step.print@ == (match code {
                Some(code) => "Open this URL to authorize Codex:\n"@ + url@ + "\nCode: "@ + code@
                    + "\nWaiting for authorization...\n"@,
                None => "Open this URL to authorize Codex:\n"@ + url@
                    + "\nWaiting for authorization...\n"@,
            })
        },
        (CommandStage::LoginWait, ConnectionEvent::LoggedIn(status)) => {
            &&& after == at_stage(before, CommandStage::Stopping)
            &&& step.work == ConnectionWork::StopRuntime
            &&& reports(
                before,
                step,
                "connection.managed_login.completed.v1"@,
                ConnectionEffect::ManagedLoginCompleted,
            )
            &&& step.print@ == unless_json(
                before,
                "account: "@ + (match account_kind(status) {
                    None => "logged out"@,
                    Some(kind) => kind,
                }) + "\n"@,
            )
        },
        (CommandStage::LoginWait, ConnectionEvent::Interrupted) => goes_on(
            before,
            after,
            step,
            CommandStage::LoginCancel,
            ConnectionWork::CancelLogin,
        ),
        (CommandStage::LoginCancel, ConnectionEvent::Cancelled { found }) => {
            &&& after == at_stage(before, CommandStage::Stopping)
            &&& step.work == ConnectionWork::StopRuntime
            &&& reports(
                before,
                step,
                "connection.managed_login.cancelled.v1"@,
                ConnectionEffect::ManagedLoginCancelled,
            )
            &&& step.print@ == unless_json(
                before,
                "Managed login "@ + (if found {
                    "cancelled"@
                } else {
                    "was already complete or absent"@
                })
                    + ". No Xana configuration changed.\nreceipt: connection.managed_login.cancelled.v1\n"@,
            )
        },
        (CommandStage::Stopping, ConnectionEvent::Done) => {
            &&& completes(before, after, step)
            &&& step.print@.len() == 0
            &&& step.report is None
        },
        (CommandStage::LogoutConnection, ConnectionEvent::Connection(facts)) => if facts.codex {
            goes_on(
                before,
                after,
                step,
                CommandStage::LogoutAccount,
                ConnectionWork::StartRuntime,
            )
        } else {
            fails(
                before,
                after,
                step,
                "use `xana connection delete-key "@ + before.id@ + "` for API-key connections"@,
            )
        },
        (CommandStage::LogoutAccount, ConnectionEvent::Account(status)) => if status is LoggedOut {
            &&& after == at_stage(before, CommandStage::LogoutStop)
            &&& step.work == ConnectionWork::StopRuntime
            &&& step.report is None
            &&& step.print@ == unless_json(before, "Codex was already logged out.\n"@)
        } else {
            goes_on(before, after, step, CommandStage::LogoutRun, ConnectionWork::LogOut)
        },
        (CommandStage::LogoutRun, ConnectionEvent::Done) => {
            &&& after == at_stage(before, CommandStage::LogoutStop)
            &&& step.work == ConnectionWork::StopRuntime
            &&& step.report is None
            &&& step.print@ == unless_json(
                before,
                "Codex account logged out for this CODEX_HOME.\n"@,
            )
        },
        (CommandStage::LogoutStop, ConnectionEvent::Done) => {
            &&& completes(before, after, step)
            &&& reports(
                before,
                step,
                "connection.managed_logout.completed.v1"@,
                ConnectionEffect::ManagedLogoutCompleted,
            )
            &&& step.print@.len() == 0
        },
        (CommandStage::Refresh, ConnectionEvent::Refreshed(models)) => {
            &&& completes(before, after, step)
            &&& reports(
                before,
                step,
                "connection.catalog_refresh.completed.v1"@,
                ConnectionEffect::CatalogRefreshed,
            )
            &&& step.print@ == unless_json(
                before,
                "cached "@ + decimal(models as nat) + " model(s) for "@ + before.id@ + "\n"@,
            )
        },
        (CommandStage::Remove, ConnectionEvent::Removed { backup, retained_authority }) => {
            let removed = "connection removed: "@ + before.id@ + "\nbackup: "@ + backup@ + "\n"@;
            &&& completes(before, after, step)
            &&& step.report == (if before.json {
                Some(JsonReport::Removal)
            } else {
                None
            })
            &&& step.print@ == unless_json(
                before,
                if retained_authority@.len() == 0 {
                    removed
                } else {
                    removed + "retained authority: "@ + joined(views(retained_authority@), ", "@)
                        + "\n"@
                },
            )
        },
        _ => ignores(before, after, step),
    }
}

/// Nothing changed.
pub open spec fn ignores(before: ConnectionRun, after: ConnectionRun, step: CommandStep) -> bool {
    &&& after == before
    &&& step.work == ConnectionWork::Ignore
    &&& step.print@.len() == 0
    &&& step.report is None
}

/// The details of a connection with a running runtime.
pub open spec fn inspected_text(
    told: ConnectionSummaryView,
    facts: RuntimeFacts,
    limits: Seq<(&'static str, String)>,
) -> Seq<char> {
    limits_text(
        detail_text(Seq::empty(), told) + "runtime: "@ + facts.version@
            + "\nmanaged account home: "@ + facts.home@ + "\n"@,
        limits,
    )
}

/// The report of a test that ends a command.
pub open spec fn tested(
    before: ConnectionRun,
    receipt: ConnectionTestReceipt,
    what: Seq<char>,
    after: ConnectionRun,
    step: CommandStep,
) -> bool {
    &&& after == at_stage(before, CommandStage::Over)
    &&& step.report == (if before.json {
        Some(JsonReport::Test(receipt))
    } else {
        None
    })
    &&& step.print@ == unless_json(before, test_text(Seq::empty(), receipt))
    &&& if receipt.usable {
        step.work == ConnectionWork::Finish(None)
    } else {
        &&& step.work matches ConnectionWork::Finish(Some(failure))
        &&& failure@ == unusable(before.id@, what, receipt.recovery)
    }
}

impl CommandStep {
    fn quiet(work: ConnectionWork) -> (step: CommandStep)
        ensures
            step.work == work,
            step.print@.len() == 0,
            step.report is None,
    {
        CommandStep { print: String::new(), report: None, work }
    }
}

fn about(id: &str, what: &str) -> (text: String)
    ensures
        text@ == "connection "@ + debug_text(id@) + what@,
{
    let mut text = "connection ".to_owned();
    text.append(quoted(id).as_str());
    text.append(what);
    text
}

fn write_rows(connections: &Vec<ConnectionSummaryView>) -> (text: String)
    ensures
        text@ == rows_text(connections@),
{
    let mut text = String::new();
    let mut i: usize = 0;
    while i < connections.len()
        invariant
            i <= connections@.len(),
            text@ == rows_text(connections@.take(i as int)),
        decreases connections@.len() - i,
    {
        assert(connections@.take(i + 1).drop_last() =~= connections@.take(i as int));
        write_connection_row(&mut text, &connections[i]);
        i += 1;
    }
    assert(connections@.take(i as int) =~= connections@);
    text
}

fn write_limits(output: &mut String, limits: &Vec<(&'static str, String)>)
    ensures
        final(output)@ == limits_text(old(output)@, limits@),
{
    let mut i: usize = 0;
    while i < limits.len()
        invariant
            i <= limits@.len(),
            output@ == limits_text(old(output)@, limits@.take(i as int)),
        decreases limits@.len() - i,
    {
        assert(limits@.take(i + 1).drop_last() =~= limits@.take(i as int));
        output.append(limits[i].0);
        output.append(" usage: ");
        output.append(limits[i].1.as_str());
        output.append("%\n");
        i += 1;
    }
    assert(limits@.take(i as int) =~= limits@);
}

/// The permission that a new connection's setup asks for: the configured one,
/// and asking where none is configured.
pub fn permission_choice(configured: Option<PermissionMode>) -> (choice:
    PermissionMode)
    ensures
        choice == (match configured {
            Some(mode) => mode,
            None => PermissionMode::Ask,
        }),
{
    match configured {
        Some(mode) => mode,
        None => PermissionMode::Ask,
    }
}

/// How the managed runtime of a connection is started.
#[derive(Debug, PartialEq, Eq)]
pub struct CodexLaunch {
    pub program: String,
    pub home: Option<String>,
}

/// How the managed runtime of a connection is started: by its own name unless
/// another program is configured.
pub fn codex_launch(program: &Option<String>, home: &Option<String>) -> (launch: CodexLaunch)
    ensures
        launch.program@ == (match *program {
            Some(program) => program@,
            None => "codex"@,
        }),
        launch.home == *home,
{
    CodexLaunch {
        program: match program {
            Some(program) => program.clone(),
            None => "codex".to_owned(),
        },
        home: crate::text::copy_option(home),
    }
}

/// The stage at which a command begins, and the work it asks for first; `None`
/// where it must be confirmed and is not.
pub open spec fn beginning(command: ConnectionCommand) -> Option<(CommandStage, ConnectionWork)> {
    match command {
        ConnectionCommand::Add { arguments, configured } => Some(
            (
                CommandStage::Setup { dry_run: arguments.dry_run },
                ConnectionWork::Setup(setup_of(arguments, configured)),
            ),
        ),
        ConnectionCommand::Test { .. } => Some((CommandStage::Test, ConnectionWork::Test)),
        ConnectionCommand::Repair { .. } => Some((CommandStage::RepairTest, ConnectionWork::Test)),
        ConnectionCommand::List => Some((CommandStage::Snapshot, ConnectionWork::Snapshot)),
        ConnectionCommand::Status { .. } => Some((CommandStage::Lookup, ConnectionWork::Snapshot)),
        ConnectionCommand::SetKey { from_stdin, .. } => Some(
            (CommandStage::KeyConnection { from_stdin }, ConnectionWork::Connection),
        ),
        ConnectionCommand::DeleteKey { yes, .. } => if yes {
            Some((CommandStage::DeleteConnection, ConnectionWork::Connection))
        } else {
            None
        },
        ConnectionCommand::Login { device_code, .. } => Some(
            (CommandStage::LoginConnection { device_code }, ConnectionWork::Connection),
        ),
        ConnectionCommand::Logout { yes, .. } => if yes {
            Some((CommandStage::LogoutConnection, ConnectionWork::Connection))
        } else {
            None
        },
        ConnectionCommand::Refresh { .. } => Some((CommandStage::Refresh, ConnectionWork::Refresh)),
        ConnectionCommand::Remove { yes, .. } => if yes {
            Some((CommandStage::Remove, ConnectionWork::Remove))
        } else {
            None
        },
    }
}

/// The connection that a command is about.
pub open spec fn command_id(command: ConnectionCommand) -> Seq<char> {
    match command {
        ConnectionCommand::Add { arguments, .. } => arguments.id@,
        ConnectionCommand::Test { id } => id@,
        ConnectionCommand::Repair { id } => id@,
        ConnectionCommand::List => Seq::empty(),
        ConnectionCommand::Status { id } => id@,
        ConnectionCommand::SetKey { id, .. } => id@,
        ConnectionCommand::DeleteKey { id, .. } => id@,
        ConnectionCommand::Login { id, .. } => id@,
        ConnectionCommand::Logout { id, .. } => id@,
        ConnectionCommand::Refresh { id } => id@,
        ConnectionCommand::Remove { id, .. } => id@,
    }
}

impl ConnectionRun {
    fn at(id: String, json: bool, stage: CommandStage, work: ConnectionWork) -> (started: (
        ConnectionRun,
        CommandStep,
    ))
        ensures
            started.0 == (ConnectionRun { id, json, stage }),
            started.1.work == work,
            started.1.print@.len() == 0,
            started.1.report is None,
    {
        (ConnectionRun { id, json, stage }, CommandStep::quiet(work))
    }

    fn refused(id: String, json: bool, text: &str) -> (started: (ConnectionRun, CommandStep))
        ensures
            started.0 == (ConnectionRun { id, json, stage: CommandStage::Over }),
            started.1.work matches ConnectionWork::Finish(Some(failure)) && failure@ == text@,
            started.1.print@.len() == 0,
            started.1.report is None,
    {
        (
            ConnectionRun { id, json, stage: CommandStage::Over },
            CommandStep::quiet(ConnectionWork::Finish(Some(text.to_owned()))),
        )
    }

    /// Begins a command. What would take something away is refused unless it was
    /// confirmed.
    pub fn start(command: ConnectionCommand, json: bool) -> (started: (ConnectionRun, CommandStep))
        ensures
            started.0.id@ == command_id(command),
            started.0.json == json,
            started.1.print@.len() == 0,
            started.1.report is None,
            match beginning(command) {
                Some((stage, work)) => started.0.stage == stage && started.1.work == work,
                None => {
                    &&& started.0.stage == CommandStage::Over
                    &&& started.1.work matches ConnectionWork::Finish(Some(failure))
                    &&& failure@ == (match command {
                        ConnectionCommand::DeleteKey { .. } => DELETE_CONFIRMATION@,
                        ConnectionCommand::Logout { .. } => LOGOUT_CONFIRMATION@,
                        _ => REMOVE_CONFIRMATION@,
                    })
                },
            },
    {
        match command {
            ConnectionCommand::Add { arguments, configured } => {
                let dry_run = arguments.dry_run;
                let setup = SetupArguments {
                    non_interactive: true,
                    quick: true,
                    kind: arguments.kind,
                    connection: arguments.id.clone(),
                    base_url: arguments.base_url,
                    codex_program: arguments.codex_program,
                    codex_home: arguments.codex_home,
                    credential_env: arguments.env,
                    credential_id: arguments.credential_id,
                    key_from_stdin: arguments.key_from_stdin,
                    model: arguments.model,
                    permission_mode: permission_choice(configured),
                    yes: arguments.yes,
                    dry_run,
                };
                Self::at(
                    arguments.id,
                    json,
                    CommandStage::Setup { dry_run },
                    ConnectionWork::Setup(setup),
                )
            },
            ConnectionCommand::Test { id } => Self::at(
                id,
                json,
                CommandStage::Test,
                ConnectionWork::Test,
            ),
            ConnectionCommand::Repair { id } => Self::at(
                id,
                json,
                CommandStage::RepairTest,
                ConnectionWork::Test,
            ),
            ConnectionCommand::List => {
                let id = String::new();
                assert(id@ =~= Seq::<char>::empty());
                Self::at(id, json, CommandStage::Snapshot, ConnectionWork::Snapshot)
            },
            ConnectionCommand::Status { id } => Self::at(
                id,
                json,
                CommandStage::Lookup,
                ConnectionWork::Snapshot,
            ),
            ConnectionCommand::SetKey { id, from_stdin } => Self::at(
                id,
                json,
                CommandStage::KeyConnection { from_stdin },
                ConnectionWork::Connection,
            ),
            ConnectionCommand::DeleteKey { id, yes } => if yes {
                Self::at(id, json, CommandStage::DeleteConnection, ConnectionWork::Connection)
            } else {
                Self::refused(id, json, DELETE_CONFIRMATION)
            },
            ConnectionCommand::Login { id, device_code } => Self::at(
                id,
                json,
                CommandStage::LoginConnection { device_code },
                ConnectionWork::Connection,
            ),
            ConnectionCommand::Logout { id, yes } => if yes {
                Self::at(id, json, CommandStage::LogoutConnection, ConnectionWork::Connection)
            } else {
                Self::refused(id, json, LOGOUT_CONFIRMATION)
            },
            ConnectionCommand::Refresh { id } => Self::at(
                id,
                json,
                CommandStage::Refresh,
                ConnectionWork::Refresh,
            ),
            ConnectionCommand::Remove { id, yes } => if yes {
                Self::at(id, json, CommandStage::Remove, ConnectionWork::Remove)
            } else {
                Self::refused(id, json, REMOVE_CONFIRMATION)
            },
        }
    }

    fn fail(&mut self, text: String) -> (step: CommandStep)
        ensures
            fails(*old(self), *final(self), step, text@),
    {
        self.stage = CommandStage::Over;
        CommandStep::quiet(ConnectionWork::Finish(Some(text)))
    }

    fn go_on(&mut self, stage: CommandStage, work: ConnectionWork) -> (step: CommandStep)
        ensures
            goes_on(*old(self), *final(self), step, stage, work),
    {
        self.stage = stage;
        CommandStep::quiet(work)
    }

    fn report(
        &mut self,
        stage: CommandStage,
        work: ConnectionWork,
        code: &'static str,
        effect: ConnectionEffect,
        text: String,
    ) -> (step: CommandStep)
        ensures
            *final(self) == at_stage(*old(self), stage),
            step.work == work,
            reports(*old(self), step, code@, effect),
            step.print@ == unless_json(*old(self), text@),
    {
        self.stage = stage;
        if self.json {
            let receipt = action_receipt(self.id.as_str(), code, effect);
            let print = String::new();
            assert(print@ =~= Seq::<char>::empty());
            CommandStep { print, report: Some(JsonReport::Receipt(receipt)), work }
        } else {
            CommandStep { print: text, report: None, work }
        }
    }

    fn report_test(&mut self, receipt: ConnectionTestReceipt, what: &str) -> (step: CommandStep)
        ensures
            tested(*old(self), receipt, what@, *final(self), step),
    {
        self.stage = CommandStage::Over;
        let work = if receipt.usable {
            ConnectionWork::Finish(None)
        } else {
            let mut failure = about(self.id.as_str(), what);
            failure.append(receipt.recovery.name());
            ConnectionWork::Finish(Some(failure))
        };
        let mut print = String::new();
        assert(print@ =~= Seq::<char>::empty());
        if self.json {
            CommandStep { print, report: Some(JsonReport::Test(receipt)), work }
        } else {
            write_connection_test(&mut print, &receipt);
            CommandStep { print, report: None, work }
        }
    }

    fn find_credential(&mut self, stage: CommandStage, facts: ConnectionFacts, environment: &str) -> (step:
        CommandStep)
        requires
            stage is KeyConnection || stage is DeleteConnection,
        ensures
            credential_found(
                at_stage(*old(self), stage),
                facts,
                *final(self),
                step,
                environment@,
            ),
    {
        match facts.credential {
            None => self.fail(NO_STORED_CREDENTIAL.to_owned()),
            Some(CredentialReference::Environment { .. }) => {
                let text = about(self.id.as_str(), environment);
                self.fail(text)
            },
            Some(CredentialReference::Stored { id }) => match stage {
                CommandStage::KeyConnection { from_stdin } => self.go_on(
                    CommandStage::KeySecret { credential_id: id, from_stdin },
                    ConnectionWork::ReadSecret { from_stdin },
                ),
                _ => self.go_on(
                    CommandStage::DeleteSecret,
                    ConnectionWork::DeleteSecret { credential_id: id },
                ),
            },
        }
    }

    fn read_secret(&mut self, credential_id: String, from_stdin: bool, text: String) -> (step:
        CommandStep)
        ensures
            secret_read(*old(self), credential_id, from_stdin, text, *final(self), step),
    {
        if from_stdin && byte_len(text.as_str()) > MAX_CREDENTIAL_BYTES {
            return self.fail(CREDENTIAL_LIMIT.to_owned());
        }
        let secret = if from_stdin {
            trim_line_end(text.as_str())
        } else {
            text
        };
        let work = ConnectionWork::Probe { secret: secret.clone() };
        self.go_on(CommandStage::KeyProbe { credential_id, secret }, work)
    }

    fn report_detail(&mut self, known: ConnectionSummaryView) -> (step: CommandStep)
        ensures
            completes(*old(self), *final(self), step),
            step.report == (if old(self).json {
                Some(JsonReport::Detail(known))
            } else {
                None
            }),
            step.print@ == unless_json(*old(self), detail_text(Seq::empty(), known)),
    {
        self.stage = CommandStage::Over;
        let mut print = String::new();
        assert(print@ =~= Seq::<char>::empty());
        if self.json {
            CommandStep {
                print,
                report: Some(JsonReport::Detail(known)),
                work: ConnectionWork::Finish(None),
            }
        } else {
            write_connection_detail(&mut print, &known);
            CommandStep { print, report: None, work: ConnectionWork::Finish(None) }
        }
    }

    fn stop_status(
        &mut self,
        told: ConnectionSummaryView,
        facts: RuntimeFacts,
        primary: Option<String>,
        secondary: Option<String>,
    ) -> (step: CommandStep)
        ensures
            stops_status(*old(self), *final(self), step, told, facts, primary, secondary),
    {
        let limits = name_limits(primary, secondary);
        self.go_on(
            CommandStage::StatusStop { told, facts, limits },
            ConnectionWork::StopRuntime,
        )
    }

    fn report_runtime(
        &mut self,
        told: ConnectionSummaryView,
        facts: RuntimeFacts,
        limits: Vec<(&'static str, String)>,
    ) -> (step: CommandStep)
        ensures
            completes(*old(self), *final(self), step),
            step.report == (if old(self).json {
                Some(JsonReport::Detail(told))
            } else {
                None
            }),
            step.print@ == unless_json(*old(self), inspected_text(told, facts, limits@)),
    {
        self.stage = CommandStage::Over;
        let mut print = String::new();
        assert(print@ =~= Seq::<char>::empty());
        if self.json {
            CommandStep {
                print,
                report: Some(JsonReport::Detail(told)),
                work: ConnectionWork::Finish(None),
            }
        } else {
            write_connection_detail(&mut print, &told);
            print.append("runtime: ");
            print.append(facts.version.as_str());
            print.append("\nmanaged account home: ");
            print.append(facts.home.as_str());
            print.append("\n");
            write_limits(&mut print, &limits);
            CommandStep { print, report: None, work: ConnectionWork::Finish(None) }
        }
    }

    fn step_status(&mut self, stage: CommandStage, event: ConnectionEvent) -> (step: CommandStep)
        requires
            !(event is Failed),
            stage is Inspect || stage is Observe || stage is Limits || stage is StatusStop,
        ensures
            command_moves(at_stage(*old(self), stage), event, *final(self), step),
    {
        match (stage, event) {
            (CommandStage::Inspect { known }, ConnectionEvent::Runtime(facts)) => {
                let state = managed_account_state(&facts.account);
                self.go_on(
                    CommandStage::Observe { facts },
                    ConnectionWork::ObserveAccount { known, state },
                )
            },
            (CommandStage::Observe { facts }, ConnectionEvent::Observed(told)) => {
                if asks_limits(&facts.account) {
                    self.go_on(CommandStage::Limits { told, facts }, ConnectionWork::AskLimits)
                } else {
                    self.stop_status(told, facts, None, None)
                }
            },
            (
                CommandStage::Limits { told, facts },
                ConnectionEvent::Limits { primary, secondary },
            ) => self.stop_status(told, facts, primary, secondary),
            (CommandStage::StatusStop { told, facts, limits }, ConnectionEvent::Done) => {
                self.report_runtime(told, facts, limits)
            },
            (stage, _) => {
                self.stage = stage;
                CommandStep::quiet(ConnectionWork::Ignore)
            },
        }
    }

    fn report_stored(&mut self, models: usize, cached: Result<(), String>) -> (step: CommandStep)
        ensures
            command_moves(
                at_stage(*old(self), CommandStage::KeyCache { models }),
                ConnectionEvent::Cached(cached),
                *final(self),
                step,
            ),
    {
        self.stage = CommandStage::Over;
        let mut warnings: Vec<String> = Vec::new();
        let mut print = "credential validated against ".to_owned();
        print.append(decimal_text(models as u64).as_str());
        print.append(" model(s) and stored in the operating-system credential store for ");
        print.append(self.id.as_str());
        print.append("\n");
        match cached {
            Ok(_) => {},
            Err(error) => {
                let mut warning =
                    "credential was stored, but the catalog cache was not updated: ".to_owned();
                warning.append(error.as_str());
                warning.append("; run `xana model refresh ");
                warning.append(self.id.as_str());
                warning.append("`");
                print.append("warning: ");
                print.append(warning.as_str());
                print.append("\n");
                warnings.push(warning);
            },
        }
        if self.json {
            let mut receipt = action_receipt(
                self.id.as_str(),
                "connection.credential_replace.completed.v1",
                ConnectionEffect::CredentialReplaced,
            );
            receipt.warnings = warnings;
            let none = String::new();
            assert(none@ =~= Seq::<char>::empty());
            CommandStep {
                print: none,
                report: Some(JsonReport::Receipt(receipt)),
                work: ConnectionWork::Finish(None),
            }
        } else {
            CommandStep { print, report: None, work: ConnectionWork::Finish(None) }
        }
    }

    fn report_removed(&mut self, backup: String, retained_authority: Vec<String>) -> (step:
        CommandStep)
        ensures
            command_moves(
                at_stage(*old(self), CommandStage::Remove),
                ConnectionEvent::Removed { backup, retained_authority },
                *final(self),
                step,
            ),
    {
        self.stage = CommandStage::Over;
        if self.json {
            let none = String::new();
            assert(none@ =~= Seq::<char>::empty());
            return CommandStep {
                print: none,
                report: Some(JsonReport::Removal),
                work: ConnectionWork::Finish(None),
            };
        }
        let mut print = "connection removed: ".to_owned();
        print.append(self.id.as_str());
        print.append("\nbackup: ");
        print.append(backup.as_str());
        print.append("\n");
        if retained_authority.len() > 0 {
            print.append("retained authority: ");
            print.append(join(&retained_authority, ", ").as_str());
            print.append("\n");
        }
        CommandStep { print, report: None, work: ConnectionWork::Finish(None) }
    }

    fn step_login(&mut self, stage: CommandStage, event: ConnectionEvent) -> (step: CommandStep)
        requires
            !(stage is Over),
            !(event is Failed),
            stage is LoginConnection || stage is LoginAccount || stage is LoginBegin
                || stage is LoginWait || stage is LoginCancel || stage is Stopping
                || stage is LogoutConnection || stage is LogoutAccount || stage is LogoutRun
                || stage is LogoutStop,
        ensures
            command_moves(at_stage(*old(self), stage), event, *final(self), step),
    {
        match (stage, event) {
            (CommandStage::LoginConnection { device_code }, ConnectionEvent::Connection(facts)) => {
                if facts.codex {
                    self.go_on(
                        CommandStage::LoginAccount { device_code },
                        ConnectionWork::StartRuntime,
                    )
                } else {
                    let text = about(self.id.as_str(), " uses an API key, not managed login");
                    self.fail(text)
                }
            },
            (CommandStage::LoginAccount { device_code }, ConnectionEvent::Account(status)) => {
                match status {
                    AccountStatus::LoggedOut => self.go_on(
                        CommandStage::LoginBegin,
                        ConnectionWork::BeginLogin { device_code },
                    ),
                    _ => self.report(
                        CommandStage::Stopping,
                        ConnectionWork::StopRuntime,
                        "connection.managed_login.already_complete.v1",
                        ConnectionEffect::ManagedLoginCompleted,
                        "Codex is already logged in.\n".to_owned(),
                    ),
                }
            },
            (CommandStage::LoginBegin, ConnectionEvent::Instructions { url, code }) => {
                let mut print = "Open this URL to authorize Codex:\n".to_owned();
                print.append(url.as_str());
                match code {
                    Some(code) => {
                        print.append("\nCode: ");
                        print.append(code.as_str());
                    },
                    None => {},
                }
                print.append("\nWaiting for authorization...\n");
                self.stage = CommandStage::LoginWait;
                CommandStep { print, report: None, work: ConnectionWork::WaitLogin }
            },
            (CommandStage::LoginWait, ConnectionEvent::LoggedIn(status)) => {
                let mut print = String::new();
                assert(print@ =~= Seq::<char>::empty());
                write_account_status(&mut print, &status);
                proof {
                    let kind = match account_kind(status) {
                        None => "logged out"@,
                        Some(kind) => kind,
                    };
                    assert(print@ =~= "account: "@ + kind + "\n"@);
                }
                self.report(
                    CommandStage::Stopping,
                    ConnectionWork::StopRuntime,
                    "connection.managed_login.completed.v1",
                    ConnectionEffect::ManagedLoginCompleted,
                    print,
                )
            },
            (CommandStage::LoginWait, ConnectionEvent::Interrupted) => self.go_on(
                CommandStage::LoginCancel,
                ConnectionWork::CancelLogin,
            ),
            (CommandStage::LoginCancel, ConnectionEvent::Cancelled { found }) => {
                let mut print = "Managed login ".to_owned();
                print.append(
                    if found {
                        "cancelled"
                    } else {
                        "was already complete or absent"
                    },
                );
                print.append(
                    ". No Xana configuration changed.\nreceipt: connection.managed_login.cancelled.v1\n",
                );
                self.report(
                    CommandStage::Stopping,
                    ConnectionWork::StopRuntime,
                    "connection.managed_login.cancelled.v1",
                    ConnectionEffect::ManagedLoginCancelled,
                    print,
                )
            },
            (CommandStage::Stopping, ConnectionEvent::Done) => {
                self.go_on(CommandStage::Over, ConnectionWork::Finish(None))
            },
            (CommandStage::LogoutConnection, ConnectionEvent::Connection(facts)) => {
                if facts.codex {
                    self.go_on(CommandStage::LogoutAccount, ConnectionWork::StartRuntime)
                } else {
                    let mut text = "use `xana connection delete-key ".to_owned();
                    text.append(self.id.as_str());
                    text.append("` for API-key connections");
                    self.fail(text)
                }
            },
            (CommandStage::LogoutAccount, ConnectionEvent::Account(status)) => {
                match status {
                    AccountStatus::LoggedOut => self.tell_logout("Codex was already logged out.\n"),
                    _ => self.go_on(CommandStage::LogoutRun, ConnectionWork::LogOut),
                }
            },
            (CommandStage::LogoutRun, ConnectionEvent::Done) => self.tell_logout(
                "Codex account logged out for this CODEX_HOME.\n",
            ),
            (CommandStage::LogoutStop, ConnectionEvent::Done) => {
                let none = String::new();
                assert(none@ =~= Seq::<char>::empty());
                self.report(
                    CommandStage::Over,
                    ConnectionWork::Finish(None),
                    "connection.managed_logout.completed.v1",
                    ConnectionEffect::ManagedLogoutCompleted,
                    none,
                )
            },
            (stage, _) => {
                self.stage = stage;
                CommandStep::quiet(ConnectionWork::Ignore)
            },
        }
    }

    fn tell_logout(&mut self, text: &str) -> (step: CommandStep)
        ensures
            *final(self) == at_stage(*old(self), CommandStage::LogoutStop),
            step.work == ConnectionWork::StopRuntime,
            step.report is None,
            step.print@ == unless_json(*old(self), text@),
    {
        self.stage = CommandStage::LogoutStop;
        let none = String::new();
        assert(none@ =~= Seq::<char>::empty());
        CommandStep {
            print: if self.json {
                none
            } else {
                text.to_owned()
            },
            report: None,
            work: ConnectionWork::StopRuntime,
        }
    }

    fn step_key(&mut self, stage: CommandStage, event: ConnectionEvent) -> (step: CommandStep)
        requires
            !(event is Failed),
            stage is KeyConnection || stage is KeySecret || stage is KeyProbe || stage is KeyStore
                || stage is KeyCache || stage is DeleteConnection || stage is DeleteSecret,
        ensures
            command_moves(at_stage(*old(self), stage), event, *final(self), step),
    {
        match (stage, event) {
            (CommandStage::KeyConnection { from_stdin }, ConnectionEvent::Connection(facts)) => {
                self.find_credential(
                    CommandStage::KeyConnection { from_stdin },
                    facts,
                    " uses an environment credential; set that variable instead",
                )
            },
            (
                CommandStage::KeySecret { credential_id, from_stdin },
                ConnectionEvent::Secret(text),
            ) => self.read_secret(credential_id, from_stdin, text),
            (CommandStage::KeySecret { .. }, ConnectionEvent::NoTerminal) => self.fail(
                HIDDEN_ENTRY.to_owned(),
            ),
            (CommandStage::KeyProbe { credential_id, secret }, ConnectionEvent::Models(models)) => {
                if models == 0 {
                    let text = about(
                        self.id.as_str(),
                        " returned an empty model catalog; the prior credential was preserved",
                    );
                    self.fail(text)
                } else {
                    self.go_on(
                        CommandStage::KeyStore { models },
                        ConnectionWork::StoreSecret { credential_id, secret },
                    )
                }
            },
            (CommandStage::KeyStore { models }, ConnectionEvent::Done) => self.go_on(
                CommandStage::KeyCache { models },
                ConnectionWork::WriteCache,
            ),
            (CommandStage::KeyCache { models }, ConnectionEvent::Cached(cached)) => {
                self.report_stored(models, cached)
            },
            (CommandStage::DeleteConnection, ConnectionEvent::Connection(facts)) => {
                self.find_credential(
                    CommandStage::DeleteConnection,
                    facts,
                    " uses an environment credential",
                )
            },
            (CommandStage::DeleteSecret, ConnectionEvent::Deleted(deleted)) => {
                let mut text = "credential ".to_owned();
                text.append(
                    if deleted {
                        "deleted"
                    } else {
                        "was already absent"
                    },
                );
                text.append(" for ");
                text.append(self.id.as_str());
                text.append("\n");
                self.report(
                    CommandStage::Over,
                    ConnectionWork::Finish(None),
                    "connection.credential_delete.completed.v1",
                    ConnectionEffect::CredentialDeleted,
                    text,
                )
            },
            (stage, _) => {
                self.stage = stage;
                CommandStep::quiet(ConnectionWork::Ignore)
            },
        }
    }

    fn step_other(&mut self, stage: CommandStage, event: ConnectionEvent) -> (step: CommandStep)
        requires
            !(event is Failed),
            stage is Setup || stage is Test || stage is RepairTest || stage is RepairCache
                || stage is Snapshot || stage is Lookup || stage is Refresh
                || stage is Remove,
        ensures
            command_moves(at_stage(*old(self), stage), event, *final(self), step),
    {
        match (stage, event) {
            (CommandStage::Setup { dry_run }, ConnectionEvent::SetUp { transcript }) => {
                let code = if dry_run {
                    "connection.add.validated.v1"
                } else {
                    "connection.add.completed.v1"
                };
                let mut text = transcript;
                text.append("receipt: ");
                text.append(code);
                text.append("\n");
                self.report(
                    CommandStage::Over,
                    ConnectionWork::Finish(None),
                    code,
                    if dry_run {
                        ConnectionEffect::Validated
                    } else {
                        ConnectionEffect::Added
                    },
                    text,
                )
            },
            (CommandStage::Test, ConnectionEvent::Tested(receipt, _)) => self.report_test(
                receipt,
                " is not usable; recovery=",
            ),
            (CommandStage::RepairTest, ConnectionEvent::Tested(receipt, models)) => {
                if receipt.usable {
                    self.go_on(CommandStage::RepairCache { models }, ConnectionWork::WriteCache)
                } else {
                    self.report_test(receipt, " could not be repaired; recovery=")
                }
            },
            (CommandStage::RepairCache { models }, ConnectionEvent::Cached(cached)) => {
                match cached {
                    Ok(_) => {
                        let mut text = "connection repaired: ".to_owned();
                        text.append(self.id.as_str());
                        text.append("\ncached models: ");
                        text.append(decimal_text(models as u64).as_str());
                        text.append("\nreceipt: connection.repair.completed.v1\n");
                        self.report(
                            CommandStage::Over,
                            ConnectionWork::Finish(None),
                            "connection.repair.completed.v1",
                            ConnectionEffect::Repaired,
                            text,
                        )
                    },
                    Err(text) => self.fail(text),
                }
            },
            (CommandStage::Snapshot, ConnectionEvent::Snapshot(connections)) => {
                self.stage = CommandStage::Over;
                if self.json {
                    let none = String::new();
                    assert(none@ =~= Seq::<char>::empty());
                    CommandStep {
                        print: none,
                        report: Some(JsonReport::Snapshot),
                        work: ConnectionWork::Finish(None),
                    }
                } else {
                    CommandStep {
                        print: write_rows(&connections),
                        report: None,
                        work: ConnectionWork::Finish(None),
                    }
                }
            },
            (CommandStage::Lookup, ConnectionEvent::Known(None, _)) => {
                let mut text = "unknown connection ".to_owned();
                text.append(quoted(self.id.as_str()).as_str());
                self.fail(text)
            },
            (CommandStage::Lookup, ConnectionEvent::Known(Some(known), managed)) => {
                if managed {
                    self.go_on(CommandStage::Inspect { known }, ConnectionWork::InspectRuntime)
                } else {
                    self.report_detail(known)
                }
            },
            (CommandStage::Refresh, ConnectionEvent::Refreshed(models)) => {
                let mut text = "cached ".to_owned();
                text.append(decimal_text(models as u64).as_str());
                text.append(" model(s) for ");
                text.append(self.id.as_str());
                text.append("\n");
                self.report(
                    CommandStage::Over,
                    ConnectionWork::Finish(None),
                    "connection.catalog_refresh.completed.v1",
                    ConnectionEffect::CatalogRefreshed,
                    text,
                )
            },
            (
                CommandStage::Remove,
                ConnectionEvent::Removed { backup, retained_authority },
            ) => self.report_removed(backup, retained_authority),
            (stage, _) => {
                self.stage = stage;
                CommandStep::quiet(ConnectionWork::Ignore)
            },
        }
    }

    /// Moves a command on what came of its outside work.
    pub fn step(&mut self, event: ConnectionEvent) -> (step: CommandStep)
        ensures
            command_moves(*old(self), event, *final(self), step),
    {
        let mut stage = CommandStage::Over;
        core::mem::swap(&mut self.stage, &mut stage);
        match (stage, event) {
            (CommandStage::Over, _) => CommandStep::quiet(ConnectionWork::Ignore),
            (_, ConnectionEvent::Failed(text)) => self.fail(text),
            (stage, event) => match stage {
                CommandStage::KeyConnection { .. }
                | CommandStage::KeySecret { .. }
                | CommandStage::KeyProbe { .. }
                | CommandStage::KeyStore { .. }
                | CommandStage::KeyCache { .. }
                | CommandStage::DeleteConnection
                | CommandStage::DeleteSecret => self.step_key(stage, event),
                CommandStage::LoginConnection { .. }
                | CommandStage::LoginAccount { .. }
                | CommandStage::LoginBegin
                | CommandStage::LoginWait
                | CommandStage::LoginCancel
                | CommandStage::Stopping
                | CommandStage::LogoutConnection
                | CommandStage::LogoutAccount
                | CommandStage::LogoutRun
                | CommandStage::LogoutStop => self.step_login(stage, event),
                CommandStage::Inspect { .. }
                | CommandStage::Observe { .. }
                | CommandStage::Limits { .. }
                | CommandStage::StatusStop { .. } => self.step_status(stage, event),
                _ => self.step_other(stage, event),
            },
        }
    }
}

/// A credential is stored only after the same secret was accepted by the
/// connection and brought at least one model: a refused one never replaces the
/// credential there was.
pub proof fn only_probed_secrets_are_stored(
    before: ConnectionRun,
    event: ConnectionEvent,
    after: ConnectionRun,
    step: CommandStep,
)
    requires
        command_moves(before, event, after, step),
    ensures
        step.work matches ConnectionWork::StoreSecret { credential_id, secret } ==> before.stage
            == (CommandStage::KeyProbe { credential_id, secret }) && (event
            matches ConnectionEvent::Models(models) && models > 0),
        before.stage != after.stage ==> (after.stage matches CommandStage::KeyProbe { secret, .. }
            ==> step.work == (ConnectionWork::Probe { secret })),
{
}

/// A secret is deleted, an account logged out and a connection removed only by a
/// command that was confirmed.
pub proof fn destructive_work_is_confirmed(command: ConnectionCommand)
    ensures
        beginning(command) matches Some((stage, work)) ==> {
            &&& stage is DeleteConnection ==> (command matches ConnectionCommand::DeleteKey {
                yes,
                ..
            } && yes)
            &&& stage is LogoutConnection ==> (command matches ConnectionCommand::Logout { yes, .. }
                && yes)
            &&& stage is Remove ==> (command matches ConnectionCommand::Remove { yes, .. } && yes)
            &&& work !is DeleteSecret
            &&& work !is LogOut
            &&& work is Remove ==> stage is Remove
        },
{
}

/// Only the delete command deletes a secret, and only the logout command logs an
/// account out.
pub proof fn destructive_work_stays_in_its_command(
    before: ConnectionRun,
    event: ConnectionEvent,
    after: ConnectionRun,
    step: CommandStep,
)
    requires
        command_moves(before, event, after, step),
    ensures
        step.work is DeleteSecret ==> before.stage is DeleteConnection,
        after.stage is DeleteConnection ==> before.stage is DeleteConnection,
        step.work is LogOut ==> before.stage is LogoutAccount,
        after.stage is LogoutAccount ==> before.stage is LogoutAccount || before.stage
            is LogoutConnection,
        after.stage is LogoutConnection ==> before.stage is LogoutConnection,
        step.work !is Remove,
{
}

/// A command of the older authentication family.
#[derive(Debug, PartialEq, Eq)]
pub enum AuthCommand {
    Login { provider: String },
    Status { provider: String },
    Logout { provider: String },
}

pub const AUTH_DEPRECATED: &'static str = "`xana auth` is deprecated; use `xana connection`.\n";

/// The connection command that an older authentication command stands for. It
/// confirms nothing.
pub fn translate_auth(command: AuthCommand) -> (translated: ConnectionCommand)
    ensures
        translated == (match command {
            AuthCommand::Login { provider } => ConnectionCommand::Login {
                id: provider,
                device_code: false,
            },
            AuthCommand::Status { provider } => ConnectionCommand::Status { id: provider },
            AuthCommand::Logout { provider } => ConnectionCommand::Logout {
                id: provider,
                yes: false,
            },
        }),
{
    match command {
        AuthCommand::Login { provider } => ConnectionCommand::Login {
            id: provider,
            device_code: false,
        },
        AuthCommand::Status { provider } => ConnectionCommand::Status { id: provider },
        AuthCommand::Logout { provider } => ConnectionCommand::Logout { id: provider, yes: false },
    }
}

/// A command keeps its connection and its form to the end. It ends once, when it says
/// that it is over, and nothing happens after that. A failure of its work ends it with
/// the failure as it was told, and nothing else is said.
pub proof fn commands_end_once(
    before: ConnectionRun,
    event: ConnectionEvent,
    after: ConnectionRun,
    step: CommandStep,
)
    requires
        command_moves(before, event, after, step),
    ensures
        after.id == before.id,
        after.json == before.json,
        before.stage is Over ==> after.stage is Over && step.work is Ignore && step.print@.len()
            == 0 && step.report is None,
        step.work is Finish <==> after.stage is Over && before.stage !is Over,
        before.stage !is Over ==> (event matches ConnectionEvent::Failed(cause) ==> {
            &&& step.work matches ConnectionWork::Finish(Some(told))
            &&& told@ == cause@
            &&& step.print@.len() == 0
            &&& step.report is None
        }),
        step.work is Ignore ==> after == before && step.print@.len() == 0 && step.report is None,
{
}

/// A command reports in one form: as JSON and in no text, but for how a login is gone
/// on with, or in text and not as JSON. A failure is told by the failure alone, unless
/// it is that of a test, whose receipt is shown.
pub proof fn commands_report_in_one_form(
    before: ConnectionRun,
    event: ConnectionEvent,
    after: ConnectionRun,
    step: CommandStep,
)
    requires
        command_moves(before, event, after, step),
    ensures
        !before.json ==> step.report is None,
        before.json && event !is Instructions ==> step.print@.len() == 0,
        step.work matches ConnectionWork::Finish(Some(_)) ==> event is Tested || (step.print@.len()
            == 0 && step.report is None),
        before.json && step.work == ConnectionWork::Finish(None) ==> step.report is Some
            || before.stage is Stopping,
{
}

/// What a receipt says was done is what was done, to the connection that the command
/// names: something is said to be added, repaired, stored, deleted, refreshed, logged
/// in or out only where that came back from outside.
pub proof fn receipts_name_what_was_done(
    before: ConnectionRun,
    event: ConnectionEvent,
    after: ConnectionRun,
    step: CommandStep,
)
    requires
        command_moves(before, event, after, step),
        step.report is Some,
        step.report->0 is Receipt,
    ensures
        ({
            let receipt = step.report->0->Receipt_0;
            &&& receipt.connection@ == before.id@
            &&& event is SetUp <==> receipt.effect == ConnectionEffect::Validated || receipt.effect
                == ConnectionEffect::Added
            &&& event is SetUp ==> (receipt.effect == ConnectionEffect::Validated <==> before.stage
                == CommandStage::Setup { dry_run: true })
            &&& receipt.effect == ConnectionEffect::Repaired ==> before.stage is RepairCache
                && (event matches ConnectionEvent::Cached(Ok(_)))
            &&& receipt.effect == ConnectionEffect::CredentialReplaced ==> before.stage is KeyCache
            &&& event is Deleted <==> receipt.effect == ConnectionEffect::CredentialDeleted
            &&& event is Refreshed <==> receipt.effect == ConnectionEffect::CatalogRefreshed
            &&& event is Cancelled <==> receipt.effect == ConnectionEffect::ManagedLoginCancelled
            &&& receipt.effect == ConnectionEffect::ManagedLoginCompleted <==> event is LoggedIn
                || event is Account
            &&& event is Account ==> event->Account_0 !is LoggedOut
            &&& receipt.effect == ConnectionEffect::ManagedLogoutCompleted <==> before.stage
                is LogoutStop
        }),
{
}

/// A login is begun where nobody is logged in, an account is logged out where somebody
/// is, and a runtime is started for managed connections only. The secret that is asked
/// for is read as the command said, and belongs to the credential that the connection
/// declares; so does the one that is deleted.
pub proof fn accounts_are_changed_where_due(
    before: ConnectionRun,
    event: ConnectionEvent,
    after: ConnectionRun,
    step: CommandStep,
)
    requires
        command_moves(before, event, after, step),
    ensures
        step.work matches ConnectionWork::BeginLogin { device_code } ==> event
            == ConnectionEvent::Account(AccountStatus::LoggedOut) && before.stage == (
        CommandStage::LoginAccount { device_code }),
        step.work is LogOut ==> (event matches ConnectionEvent::Account(account) && account
            !is LoggedOut),
        before.stage is LogoutAccount ==> (event matches ConnectionEvent::Account(account) ==> (
        step.work is LogOut <==> account !is LoggedOut)),
        before.stage is LoginAccount ==> (event matches ConnectionEvent::Account(account) ==> (
        step.work is BeginLogin <==> account is LoggedOut)),
        step.work is StartRuntime ==> (event matches ConnectionEvent::Connection(facts)
            && facts.codex),
        before.stage is LoginConnection || before.stage is LogoutConnection ==> (event
            matches ConnectionEvent::Connection(facts) ==> (step.work is StartRuntime
            <==> facts.codex)),
        step.work matches ConnectionWork::ReadSecret { from_stdin } ==> before.stage == (
        CommandStage::KeyConnection { from_stdin }),
        step.work matches ConnectionWork::DeleteSecret { credential_id } ==> (event
            matches ConnectionEvent::Connection(facts) && facts.credential == Some(
            CredentialReference::Stored { id: credential_id },
        )),
        after.stage matches CommandStage::KeySecret { credential_id, .. } ==> before.stage
            is KeyConnection ==> (event matches ConnectionEvent::Connection(facts)
            && facts.credential == Some(CredentialReference::Stored { id: credential_id })),
        step.work is AskLimits ==> (before.stage matches CommandStage::Observe { facts }
            && facts.account is ChatGpt),
        step.work is CancelLogin <==> before.stage is LoginWait && event is Interrupted,
{
}

/// The secret that is tried and then stored is the one that was read: hidden from a
/// terminal in every character, and from piped input but for the ends of its last line.
/// One that is too long is not tried.
pub proof fn secrets_are_tried_as_read(
    before: ConnectionRun,
    text: String,
    after: ConnectionRun,
    step: CommandStep,
)
    requires
        command_moves(before, ConnectionEvent::Secret(text), after, step),
        before.stage is KeySecret,
    ensures
        step.work is Probe <==> !(before.stage->KeySecret_from_stdin && byte_count(text@) > 65536),
        step.work matches ConnectionWork::Probe { secret } ==> {
            &&& secret@.is_prefix_of(text@)
            &&& forall|i: int|
                secret@.len() <= i < text@.len() ==> #[trigger] text@[i] == '\r' || text@[i]
                    == '\n'
            &&& before.stage->KeySecret_from_stdin && secret@.len() > 0 ==> secret@.last() != '\n'
                && secret@.last() != '\r'
            &&& !before.stage->KeySecret_from_stdin ==> secret@ == text@
            &&& after.stage == (CommandStage::KeyProbe {
                credential_id: before.stage->KeySecret_credential_id,
                secret,
            })
        },
        step.work !is Probe ==> step.work is Finish,
{
    line_ends_are_left_out(text@);
    assert(text@ =~= text@.take(text@.len() as int));
}

/// A test ends well where the connection is usable and in a failure where it is not,
/// and its receipt is shown either way. A repair goes on to keep the models of a usable
/// connection only.
pub proof fn tests_end_as_they_came_out(
    before: ConnectionRun,
    receipt: ConnectionTestReceipt,
    models: usize,
    after: ConnectionRun,
    step: CommandStep,
)
    requires
        command_moves(before, ConnectionEvent::Tested(receipt, models), after, step),
    ensures
        before.stage is Test ==> {
            &&& step.work == ConnectionWork::Finish(None) <==> receipt.usable
            &&& step.work is Finish
            &&& before.json ==> step.report == Some(JsonReport::Test(receipt))
        },
        before.stage is RepairTest ==> {
            &&& step.work is WriteCache <==> receipt.usable
            &&& receipt.usable ==> after.stage == (CommandStage::RepairCache { models })
            &&& !receipt.usable ==> (step.work matches ConnectionWork::Finish(Some(_)))
        },
{
}

/// A command begins with the work that its name says: a new connection is set up with
/// every argument that was given, without asking, and with the configured permission,
/// and every other command looks at the connection first. A command that takes
/// something away begins where it was confirmed.
pub proof fn commands_begin_with_their_work(command: ConnectionCommand)
    ensures
        command matches ConnectionCommand::Add { arguments, configured } ==> (beginning(command)
            matches Some((_, ConnectionWork::Setup(setup))) && {
            &&& setup.non_interactive
            &&& setup.quick
            &&& setup.kind == arguments.kind
            &&& setup.connection == arguments.id
            &&& setup.base_url == arguments.base_url
            &&& setup.codex_program == arguments.codex_program
            &&& setup.codex_home == arguments.codex_home
            &&& setup.credential_env == arguments.env
            &&& setup.credential_id == arguments.credential_id
            &&& setup.key_from_stdin == arguments.key_from_stdin
            &&& setup.model == arguments.model
            &&& setup.yes == arguments.yes
            &&& setup.dry_run == arguments.dry_run
            &&& configured matches Some(mode) ==> setup.permission_mode == mode
            &&& configured is None ==> setup.permission_mode == PermissionMode::Ask
        }),
        beginning(command) is None <==> {
            ||| command matches ConnectionCommand::DeleteKey { yes, .. } && !yes
            ||| command matches ConnectionCommand::Logout { yes, .. } && !yes
            ||| command matches ConnectionCommand::Remove { yes, .. } && !yes
        },
        beginning(command) matches Some((_, work)) ==> {
            &&& work is Setup <==> command is Add
            &&& work is Test <==> command is Test || command is Repair
            &&& work is Snapshot <==> command is List || command is Status
            &&& work is Refresh <==> command is Refresh
            &&& work is Remove <==> command is Remove
            &&& work is Connection <==> command is SetKey || command is DeleteKey || command
                is Login || command is Logout
        },
        command matches ConnectionCommand::Login { device_code, .. } ==> beginning(command)
            == Some((CommandStage::LoginConnection { device_code }, ConnectionWork::Connection)),
        command matches ConnectionCommand::SetKey { from_stdin, .. } ==> beginning(command)
            == Some((CommandStage::KeyConnection { from_stdin }, ConnectionWork::Connection)),
{
}

/// An older command stands for the one of the same name on the connection that it
/// names, and so it never takes anything away unconfirmed.
pub proof fn older_commands_confirm_nothing(command: AuthCommand, translated: ConnectionCommand)
    requires
        call_ensures(translate_auth, (command,), translated),
    ensures
        command matches AuthCommand::Login { provider } ==> translated is Login && command_id(
            translated,
        ) == provider@,
        command matches AuthCommand::Status { provider } ==> translated is Status && command_id(
            translated,
        ) == provider@,
        command matches AuthCommand::Logout { provider } ==> translated is Logout && command_id(
            translated,
        ) == provider@ && beginning(translated) is None,
        translated !is Remove && translated !is DeleteKey,
{
}

/// What a command writes names its connection, and it tells the number of models that
/// came back.
pub proof fn texts_tell_what_came_back(
    before: ConnectionRun,
    event: ConnectionEvent,
    after: ConnectionRun,
    step: CommandStep,
)
    requires
        command_moves(before, event, after, step),
        !before.json,
    ensures
        before.stage is Refresh ==> (event matches ConnectionEvent::Refreshed(models) ==> occurs(
            step.print@,
            decimal(models as nat),
        ) && occurs(step.print@, before.id@)),
        before.stage matches CommandStage::KeyCache { models } ==> (event is Cached ==> occurs(
            step.print@,
            decimal(models as nat),
        ) && occurs(step.print@, before.id@)),
        before.stage matches CommandStage::RepairCache { models } ==> (event
            matches ConnectionEvent::Cached(Ok(_)) ==> occurs(step.print@, decimal(models as nat))
            && occurs(step.print@, before.id@)),
        before.stage is Remove ==> (event matches ConnectionEvent::Removed { backup, .. } ==> occurs(
            step.print@,
            backup@,
        ) && occurs(step.print@, before.id@)),
        before.stage is LoginBegin ==> (event matches ConnectionEvent::Instructions { url, code }
            ==> occurs(step.print@, url@) && (code matches Some(code) ==> occurs(
            step.print@,
            code@,
        ))),
        before.stage is Setup ==> (event matches ConnectionEvent::SetUp { transcript } ==> occurs(
            step.print@,
            transcript@,
        )),
{
    let text = step.print@;
    let id = before.id@;
    match (before.stage, event) {
        (CommandStage::Refresh, ConnectionEvent::Refreshed(models)) => {
            let count = decimal(models as nat);
            let rest = " model(s) for "@ + id + "\n"@;
            assert(text =~= "cached "@ + count + rest);
            parts_occur("cached "@, count, rest);
            parts_occur("cached "@ + count + " model(s) for "@, id, "\n"@);
        },
        (CommandStage::KeyCache { models }, ConnectionEvent::Cached(cached)) => {
            let count = decimal(models as nat);
            let middle =
                " model(s) and stored in the operating-system credential store for "@;
            let front = "credential validated against "@ + count + middle + id + "\n"@;
            assert(front.is_prefix_of(text)) by {
                assert(front =~= text.take(front.len() as int));
            }
            assert(front =~= "credential validated against "@ + count + (middle + id + "\n"@));
            parts_occur("credential validated against "@, count, middle + id + "\n"@);
            parts_occur("credential validated against "@ + count + middle, id, "\n"@);
            assert(front + text.skip(front.len() as int) =~= text);
            longer_texts_hold_the_same(front, text.skip(front.len() as int), count);
            longer_texts_hold_the_same(front, text.skip(front.len() as int), id);
        },
        (CommandStage::RepairCache { models }, ConnectionEvent::Cached(Ok(_))) => {
            let count = decimal(models as nat);
            let front = "connection repaired: "@;
            let end = "\nreceipt: connection.repair.completed.v1\n"@;
            assert(text =~= front + id + ("\ncached models: "@ + count + end));
            parts_occur(front, id, "\ncached models: "@ + count + end);
            parts_occur(front + id + "\ncached models: "@, count, end);
        },
        (CommandStage::Remove, ConnectionEvent::Removed { backup, retained_authority }) => {
            let front = "connection removed: "@;
            let head = front + id + "\nbackup: "@ + backup@ + "\n"@;
            assert(head =~= text.take(head.len() as int));
            assert(head + text.skip(head.len() as int) =~= text);
            assert(head =~= front + id + ("\nbackup: "@ + backup@ + "\n"@));
            parts_occur(front, id, "\nbackup: "@ + backup@ + "\n"@);
            parts_occur(front + id + "\nbackup: "@, backup@, "\n"@);
            longer_texts_hold_the_same(head, text.skip(head.len() as int), id);
            longer_texts_hold_the_same(head, text.skip(head.len() as int), backup@);
        },
        (CommandStage::LoginBegin, ConnectionEvent::Instructions { url, code }) => {
            let front = "Open this URL to authorize Codex:\n"@;
            let end = "\nWaiting for authorization...\n"@;
            match code {
                Some(code) => {
                    assert(text =~= front + url@ + ("\nCode: "@ + code@ + end));
                    parts_occur(front, url@, "\nCode: "@ + code@ + end);
                    parts_occur(front + url@ + "\nCode: "@, code@, end);
                },
                None => {
                    parts_occur(front, url@, end);
                },
            }
        },
        (CommandStage::Setup { dry_run }, ConnectionEvent::SetUp { transcript }) => {
            let nothing = Seq::<char>::empty();
            assert(text =~= nothing + transcript@ + text.skip(transcript@.len() as int));
            parts_occur(nothing, transcript@, text.skip(transcript@.len() as int));
        },
        _ => {},
    }
}

/// A command starts on the connection that it names, quietly, and in the form that was asked
/// for. One that takes something away ends at once where it was not confirmed, and no other
/// does.
pub proof fn commands_start_on_their_connection(
    command: ConnectionCommand,
    json: bool,
    started: (ConnectionRun, CommandStep),
)
    requires
        call_ensures(ConnectionRun::start, (command, json), started),
    ensures
        started.0.json == json,
        started.1.print@.len() == 0,
        started.1.report is None,
        match command {
            ConnectionCommand::Add { arguments, .. } => started.0.id@ == arguments.id@,
            ConnectionCommand::Test { id }
            | ConnectionCommand::Repair { id }
            | ConnectionCommand::Status { id }
            | ConnectionCommand::SetKey { id, .. }
            | ConnectionCommand::DeleteKey { id, .. }
            | ConnectionCommand::Login { id, .. }
            | ConnectionCommand::Logout { id, .. }
            | ConnectionCommand::Refresh { id }
            | ConnectionCommand::Remove { id, .. } => started.0.id@ == id@,
            ConnectionCommand::List => true,
        },
        started.1.work is Finish <==> {
            ||| command matches ConnectionCommand::DeleteKey { yes, .. } && !yes
            ||| command matches ConnectionCommand::Logout { yes, .. } && !yes
            ||| command matches ConnectionCommand::Remove { yes, .. } && !yes
        },
        started.1.work is Remove ==> (command matches ConnectionCommand::Remove { yes, .. } && yes),
{
}

}
