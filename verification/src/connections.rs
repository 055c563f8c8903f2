//! What is shown of connections, their tests and their models.

use crate::json::{Json, Shape};
use crate::text::{
    beginnings_are_held, beginnings_begin_alike, chars_of, decimal, decimal_text, ends_occur,
    join, joined, longer_texts_hold_the_same, occurs, option_view, text_of, views,
};
use vstd::prelude::*;
use vstd::string::*;

verus! {

/// The version of what is reported of connections.
pub const CONNECTION_STATE_VERSION: u64 = 1;

/// How many characters of a failure are kept.
pub const MAX_FAILURE_CHARS: usize = 1024;

/// The name that a wire value goes by: a string is its own name, and an object
/// goes by its state or its source.
pub open spec fn wire_text(value: Json) -> Seq<char> {
    match value.shape {
        Shape::Text(text) => text@,
        Shape::Object(_) => {
            let named = if value.member("state"@) is Some {
                value.member("state"@)
            } else {
                value.member("source"@)
            };
            match named {
                Some(name) => match name.string() {
                    Some(text) => text,
                    None => "structured"@,
                },
                None => "structured"@,
            }
        },
        _ => "unknown"@,
    }
}

/// The name that a wire value goes by.
pub fn wire_name(value: &Json) -> (name: String)
    ensures
        name@ == wire_text(*value),
{
    match &value.shape {
        Shape::Text(text) => text.clone(),
        Shape::Object(_) => {
            let named = match value.get("state") {
                Some(state) => Some(state),
                None => value.get("source"),
            };
            match named {
                Some(name) => match name.as_str() {
                    Some(text) => text.to_owned(),
                    None => "structured".to_owned(),
                },
                None => "structured".to_owned(),
            }
        },
        _ => "unknown".to_owned(),
    }
}

/// Whether a connection could be reached.
#[derive(Clone, Copy, PartialEq, Eq, Structural, Debug)]
pub enum ReachabilityState {
    NotTested,
    Reachable,
    Unreachable,
}

/// What is known of a connection's credential. Of the states that do not stop a
/// test only the name matters.
#[derive(Debug, PartialEq, Eq)]
pub enum CredentialState {
    Missing,
    Inaccessible,
    Other(String),
}

/// What is known of a managed account.
#[derive(Debug, PartialEq, Eq)]
pub enum ManagedAccountState {
    LoggedOut,
    LoggedIn { kind: String },
    Other(String),
}

/// What the owner can do about a connection.
#[derive(Debug, PartialEq, Eq)]
pub enum RecoveryAction {
    Nothing,
    Inspect,
    Login,
    RefreshCatalog,
    Other(String),
}

impl ReachabilityState {
    /// The wire name of a state.
    pub open spec fn text(self) -> Seq<char> {
        match self {
            ReachabilityState::NotTested => "not_tested"@,
            ReachabilityState::Reachable => "reachable"@,
            ReachabilityState::Unreachable => "unreachable"@,
        }
    }

    /// The wire name of a state.
    pub fn name(self) -> (name: &'static str)
        ensures
            name@ == self.text(),
    {
        match self {
            ReachabilityState::NotTested => "not_tested",
            ReachabilityState::Reachable => "reachable",
            ReachabilityState::Unreachable => "unreachable",
        }
    }
}

impl CredentialState {
    /// The wire name of a state.
    pub open spec fn text(self) -> Seq<char> {
        match self {
            CredentialState::Missing => "missing"@,
            CredentialState::Inaccessible => "inaccessible"@,
            CredentialState::Other(name) => name@,
        }
    }

    /// The wire name of a state.
    pub fn name(&self) -> (name: &str)
        ensures
            name@ == self.text(),
    {
        match self {
            CredentialState::Missing => "missing",
            CredentialState::Inaccessible => "inaccessible",
            CredentialState::Other(name) => name.as_str(),
        }
    }

    /// A copy of this state.
    pub fn copy(&self) -> (copy: CredentialState)
        ensures
            copy == *self,
    {
        match self {
            CredentialState::Missing => CredentialState::Missing,
            CredentialState::Inaccessible => CredentialState::Inaccessible,
            CredentialState::Other(name) => CredentialState::Other(name.clone()),
        }
    }
}

impl ManagedAccountState {
    /// The wire name of a state.
    pub open spec fn text(self) -> Seq<char> {
        match self {
            ManagedAccountState::LoggedOut => "logged_out"@,
            ManagedAccountState::LoggedIn { .. } => "logged_in"@,
            ManagedAccountState::Other(name) => name@,
        }
    }

    /// The wire name of a state.
    pub fn name(&self) -> (name: &str)
        ensures
            name@ == self.text(),
    {
        match self {
            ManagedAccountState::LoggedOut => "logged_out",
            ManagedAccountState::LoggedIn { .. } => "logged_in",
            ManagedAccountState::Other(name) => name.as_str(),
        }
    }

    /// A copy of this state.
    pub fn copy(&self) -> (copy: ManagedAccountState)
        ensures
            copy == *self,
    {
        match self {
            ManagedAccountState::LoggedOut => ManagedAccountState::LoggedOut,
            ManagedAccountState::LoggedIn { kind } => ManagedAccountState::LoggedIn {
                kind: kind.clone(),
            },
            ManagedAccountState::Other(name) => ManagedAccountState::Other(name.clone()),
        }
    }
}

impl RecoveryAction {
    /// The wire name of an action.
    pub open spec fn text(self) -> Seq<char> {
        match self {
            RecoveryAction::Nothing => "none"@,
            RecoveryAction::Inspect => "inspect"@,
            RecoveryAction::Login => "login"@,
            RecoveryAction::RefreshCatalog => "refresh_catalog"@,
            RecoveryAction::Other(name) => name@,
        }
    }

    /// The wire name of an action.
    pub fn name(&self) -> (name: &str)
        ensures
            name@ == self.text(),
    {
        match self {
            RecoveryAction::Nothing => "none",
            RecoveryAction::Inspect => "inspect",
            RecoveryAction::Login => "login",
            RecoveryAction::RefreshCatalog => "refresh_catalog",
            RecoveryAction::Other(name) => name.as_str(),
        }
    }

    /// A copy of this action.
    pub fn copy(&self) -> (copy: RecoveryAction)
        ensures
            copy == *self,
    {
        match self {
            RecoveryAction::Nothing => RecoveryAction::Nothing,
            RecoveryAction::Inspect => RecoveryAction::Inspect,
            RecoveryAction::Login => RecoveryAction::Login,
            RecoveryAction::RefreshCatalog => RecoveryAction::RefreshCatalog,
            RecoveryAction::Other(name) => RecoveryAction::Other(name.clone()),
        }
    }
}

/// The account that a managed runtime is logged in with.
#[derive(Debug, PartialEq, Eq)]
pub enum AccountStatus {
    LoggedOut,
    ApiKey,
    ChatGpt { plan: String },
    Other { kind: String },
}

/// What an account is called once it is logged in.
pub open spec fn account_kind(status: AccountStatus) -> Option<Seq<char>> {
    match status {
        AccountStatus::LoggedOut => None,
        AccountStatus::ApiKey => Some("Codex-managed API key"@),
        AccountStatus::ChatGpt { plan } => Some("ChatGPT ("@ + plan@ + ")"@),
        AccountStatus::Other { kind } => Some(kind@),
    }
}

fn kind_of(status: &AccountStatus) -> (kind: Option<String>)
    ensures
        option_view(kind) == account_kind(*status),
{
    match status {
        AccountStatus::LoggedOut => None,
        AccountStatus::ApiKey => Some("Codex-managed API key".to_owned()),
        AccountStatus::ChatGpt { plan } => {
            let mut kind = "ChatGPT (".to_owned();
            kind.append(plan.as_str());
            kind.append(")");
            Some(kind)
        },
        AccountStatus::Other { kind } => Some(kind.clone()),
    }
}

/// The account state that a status stands for.
pub fn managed_account_state(status: &AccountStatus) -> (state: ManagedAccountState)
    ensures
        match account_kind(*status) {
            None => state is LoggedOut,
            Some(text) => state matches ManagedAccountState::LoggedIn { kind } && kind@ == text,
        },
{
    match kind_of(status) {
        None => ManagedAccountState::LoggedOut,
        Some(kind) => ManagedAccountState::LoggedIn { kind },
    }
}

/// Writes the account that a managed runtime is logged in with.
pub fn write_account_status(output: &mut String, status: &AccountStatus)
    ensures
        final(output)@ == old(output)@ + "account: "@ + (match account_kind(*status) {
            None => "logged out"@,
            Some(kind) => kind,
        }) + "\n"@,
{
    output.append("account: ");
    match kind_of(status) {
        None => output.append("logged out"),
        Some(kind) => output.append(kind.as_str()),
    }
    output.append("\n");
}

/// A failure cut to what is kept of it.
pub open spec fn bounded_text(message: Seq<char>) -> Seq<char> {
    if message.len() <= MAX_FAILURE_CHARS {
        message
    } else {
        message.take(MAX_FAILURE_CHARS as int).push('…')
    }
}

/// Cuts a failure to what is kept of it.
pub fn bounded_failure(message: String) -> (kept: String)
    ensures
        kept@ == bounded_text(message@),
{
    let chars = chars_of(message.as_str());
    if chars.len() <= MAX_FAILURE_CHARS {
        return message;
    }
    let mut kept = text_of(&chars, 0, MAX_FAILURE_CHARS);
    assert(chars@.subrange(0, MAX_FAILURE_CHARS as int) =~= message@.take(
        MAX_FAILURE_CHARS as int,
    ));
    kept.push('…');
    kept
}

/// What a command did to a connection.
#[derive(Clone, Copy, PartialEq, Eq, Structural, Debug)]
pub enum ConnectionEffect {
    Validated,
    Added,
    Tested,
    Repaired,
    CredentialReplaced,
    CredentialDeleted,
    ManagedLoginCompleted,
    ManagedLoginCancelled,
    ManagedLogoutCompleted,
    CatalogRefreshed,
}

/// The receipt of a command on a connection.
#[derive(Debug, PartialEq, Eq)]
pub struct ConnectionReceipt {
    pub version: u64,
    pub semantic_code: &'static str,
    pub connection: String,
    pub effect: ConnectionEffect,
    pub backup: Option<String>,
    pub retained_authority: Vec<String>,
    pub warnings: Vec<String>,
}

/// The receipt of a command that kept no backup and retained nothing.
pub fn action_receipt(id: &str, semantic_code: &'static str, effect: ConnectionEffect) -> (receipt:
    ConnectionReceipt)
    ensures
        receipt.version == CONNECTION_STATE_VERSION,
        receipt.semantic_code == semantic_code,
        receipt.connection@ == id@,
        receipt.effect == effect,
        receipt.backup is None,
        receipt.retained_authority@.len() == 0,
        receipt.warnings@.len() == 0,
{
    ConnectionReceipt {
        version: CONNECTION_STATE_VERSION,
        semantic_code,
        connection: id.to_owned(),
        effect,
        backup: None,
        retained_authority: Vec::new(),
        warnings: Vec::new(),
    }
}

/// What is known of a connection before it is tested.
#[derive(Debug, PartialEq, Eq)]
pub struct TestSubject {
    pub id: String,
    pub execution: String,
    pub managed: bool,
    pub credential: CredentialState,
    pub account: ManagedAccountState,
    pub recovery: RecoveryAction,
}

/// What testing a connection found out. Of discovered models only their number
/// matters.
#[derive(Debug, PartialEq, Eq)]
pub enum ProbeOutcome {
    /// The managed runtime could not be started.
    RuntimeFailed(String),
    /// It runs, but does not tell its account.
    AccountFailed(String),
    /// It runs and tells its account; its models were asked for if it is logged
    /// in.
    Account { status: AccountStatus, models: Result<usize, String> },
    /// A native connection answered with its models, or did not answer.
    Native(Result<usize, String>),
}

/// A step of a connection test.
#[derive(Clone, Copy, PartialEq, Eq, Structural, Debug)]
pub enum ProgressStage {
    Validating,
    CheckingAuthority,
    DiscoveringCatalog,
    Complete,
}

impl ProgressStage {
    /// The code of a step.
    pub fn semantic_code(self) -> (code: &'static str)
        ensures
            code@ == (match self {
                ProgressStage::Validating => "connection.test.validating.v1"@,
                ProgressStage::CheckingAuthority => "connection.test.authority.v1"@,
                ProgressStage::DiscoveringCatalog => "connection.test.catalog.v1"@,
                ProgressStage::Complete => TEST_CODE@,
            }),
    {
        match self {
            ProgressStage::Validating => "connection.test.validating.v1",
            ProgressStage::CheckingAuthority => "connection.test.authority.v1",
            ProgressStage::DiscoveringCatalog => "connection.test.catalog.v1",
            ProgressStage::Complete => TEST_CODE,
        }
    }
}

/// The receipt of a connection test.
#[derive(Debug, PartialEq, Eq)]
pub struct ConnectionTestReceipt {
    pub connection: String,
    pub execution: String,
    pub reachability: ReachabilityState,
    pub credential: CredentialState,
    pub account: ManagedAccountState,
    pub discovered_model_count: usize,
    pub usable: bool,
    pub recovery: RecoveryAction,
    pub failure: Option<String>,
    pub progress: Vec<ProgressStage>,
}

pub const TEST_CODE: &'static str = "connection.test.completed.v1";

/// Whether a credential stops a test before anything is contacted.
pub open spec fn stops_test(credential: CredentialState) -> bool {
    credential is Missing || credential is Inaccessible
}

/// Whether a connection is to be contacted for a test.
pub fn needs_probe(subject: &TestSubject) -> (yes: bool)
    ensures
        yes == !stops_test(subject.credential),
{
    match subject.credential {
        CredentialState::Missing => false,
        CredentialState::Inaccessible => false,
        CredentialState::Other(_) => true,
    }
}

/// How far a probe reached.
pub open spec fn reached(probe: ProbeOutcome) -> ReachabilityState {
    match probe {
        ProbeOutcome::RuntimeFailed(_) => ReachabilityState::Unreachable,
        ProbeOutcome::AccountFailed(_) => ReachabilityState::Reachable,
        ProbeOutcome::Account { .. } => ReachabilityState::Reachable,
        ProbeOutcome::Native(Ok(_)) => ReachabilityState::Reachable,
        ProbeOutcome::Native(Err(_)) => ReachabilityState::Unreachable,
    }
}

/// How many models a probe discovered: none of a runtime that is logged out.
pub open spec fn discovered(probe: ProbeOutcome) -> nat {
    match probe {
        ProbeOutcome::Account { status, models } => match models {
            Ok(count) => if status is LoggedOut {
                0
            } else {
                count as nat
            },
            Err(_) => 0,
        },
        ProbeOutcome::Native(Ok(count)) => count as nat,
        _ => 0,
    }
}

/// What a probe failed with.
pub open spec fn probe_failure(probe: ProbeOutcome) -> Option<Seq<char>> {
    match probe {
        ProbeOutcome::RuntimeFailed(text) => Some(bounded_text(text@)),
        ProbeOutcome::AccountFailed(text) => Some(bounded_text(text@)),
        ProbeOutcome::Account { status, models } => match models {
            Err(text) => if status is LoggedOut {
                None
            } else {
                Some(bounded_text(text@))
            },
            Ok(_) => None,
        },
        ProbeOutcome::Native(Err(text)) => Some(bounded_text(text@)),
        ProbeOutcome::Native(Ok(_)) => None,
    }
}

/// Whether a probed connection can be used.
pub open spec fn usable(probe: ProbeOutcome, prior: ManagedAccountState) -> bool {
    &&& reached(probe) == ReachabilityState::Reachable
    &&& discovered(probe) > 0
    &&& match probe {
        ProbeOutcome::Account { status, .. } => !(status is LoggedOut),
        _ => !(prior is LoggedOut),
    }
}

/// What the owner can do after a probe.
pub open spec fn recovery_after(
    probe: ProbeOutcome,
    prior: ManagedAccountState,
    prior_recovery: RecoveryAction,
) -> RecoveryAction {
    if usable(probe, prior) {
        RecoveryAction::Nothing
    } else if reached(probe) == ReachabilityState::Unreachable {
        RecoveryAction::Inspect
    } else {
        match probe {
            ProbeOutcome::Account { status, .. } if status is LoggedOut => RecoveryAction::Login,
            ProbeOutcome::Native(_) if prior_recovery is Login => RecoveryAction::Login,
            ProbeOutcome::Account { models, .. } if models is Ok && prior_recovery is Login => {
                RecoveryAction::Login
            },
            _ => RecoveryAction::RefreshCatalog,
        }
    }
}

/// Judges a connection by its test. One whose credential is missing is judged
/// without a probe.
pub fn test_connection(subject: &TestSubject, probe: Option<ProbeOutcome>) -> (receipt:
    ConnectionTestReceipt)
    requires
        stops_test(subject.credential) || probe is Some,
    ensures
        receipt.connection@ == subject.id@,
        receipt.execution@ == subject.execution@,
        receipt.credential == subject.credential,
        stops_test(subject.credential) ==> {
            &&& receipt.reachability == ReachabilityState::NotTested
            &&& receipt.account == subject.account
            &&& receipt.discovered_model_count == 0
            &&& !receipt.usable
            &&& receipt.recovery == subject.recovery
            &&& receipt.failure is None
            &&& receipt.progress@ == seq![
                ProgressStage::Validating,
                ProgressStage::CheckingAuthority,
                ProgressStage::Complete,
            ]
        },
        !stops_test(subject.credential) ==> {
            let found = probe->0;
            &&& receipt.reachability == reached(found)
            &&& receipt.discovered_model_count == discovered(found)
            &&& receipt.usable == usable(found, subject.account)
            &&& receipt.recovery == recovery_after(found, subject.account, subject.recovery)
            &&& option_view(receipt.failure) == probe_failure(found)
            &&& receipt.progress@ == seq![
                ProgressStage::Validating,
                ProgressStage::CheckingAuthority,
                ProgressStage::DiscoveringCatalog,
                ProgressStage::Complete,
            ]
            &&& match found {
                ProbeOutcome::Account { status, .. } => match account_kind(status) {
                    None => receipt.account is LoggedOut,
                    Some(text) => receipt.account matches ManagedAccountState::LoggedIn { kind }
                        && kind@ == text,
                },
                _ => receipt.account == subject.account,
            }
        },
{
    let mut progress: Vec<ProgressStage> = Vec::new();
    progress.push(ProgressStage::Validating);
    progress.push(ProgressStage::CheckingAuthority);
    let mut receipt = ConnectionTestReceipt {
        connection: subject.id.clone(),
        execution: subject.execution.clone(),
        reachability: ReachabilityState::NotTested,
        credential: subject.credential.copy(),
        account: subject.account.copy(),
        discovered_model_count: 0,
        usable: false,
        recovery: subject.recovery.copy(),
        failure: None,
        progress: Vec::new(),
    };
    let probe = match probe {
        Some(probe) if needs_probe(subject) => probe,
        _ => {
            progress.push(ProgressStage::Complete);
            assert(progress@ =~= seq![
                ProgressStage::Validating,
                ProgressStage::CheckingAuthority,
                ProgressStage::Complete,
            ]);
            receipt.progress = progress;
            return receipt;
        },
    };
    progress.push(ProgressStage::DiscoveringCatalog);
    match probe {
        ProbeOutcome::RuntimeFailed(error) => {
            receipt.reachability = ReachabilityState::Unreachable;
            receipt.recovery = RecoveryAction::Inspect;
            receipt.failure = Some(bounded_failure(error));
        },
        ProbeOutcome::AccountFailed(error) => {
            receipt.reachability = ReachabilityState::Reachable;
            receipt.recovery = RecoveryAction::Inspect;
            receipt.failure = Some(bounded_failure(error));
        },
        ProbeOutcome::Account { status, models } => {
            receipt.reachability = ReachabilityState::Reachable;
            receipt.account = managed_account_state(&status);
            match status {
                AccountStatus::LoggedOut => {
                    receipt.recovery = RecoveryAction::Login;
                },
                _ => {
                    match models {
                        Ok(count) => {
                            receipt.discovered_model_count = count;
                        },
                        Err(error) => {
                            receipt.recovery = RecoveryAction::RefreshCatalog;
                            receipt.failure = Some(bounded_failure(error));
                        },
                    }
                },
            }
        },
        ProbeOutcome::Native(Ok(count)) => {
            receipt.reachability = ReachabilityState::Reachable;
            receipt.discovered_model_count = count;
        },
        ProbeOutcome::Native(Err(error)) => {
            receipt.reachability = ReachabilityState::Unreachable;
            receipt.recovery = RecoveryAction::Inspect;
            receipt.failure = Some(bounded_failure(error));
        },
    }
    let reachable = match receipt.reachability {
        ReachabilityState::Reachable => true,
        _ => false,
    };
    let logged_out = match receipt.account {
        ManagedAccountState::LoggedOut => true,
        _ => false,
    };
    let login = match receipt.recovery {
        RecoveryAction::Login => true,
        _ => false,
    };
    receipt.usable = reachable && receipt.discovered_model_count > 0 && !logged_out;
    if receipt.usable {
        receipt.recovery = RecoveryAction::Nothing;
    } else if reachable && !login {
        receipt.recovery = RecoveryAction::RefreshCatalog;
    }
    progress.push(ProgressStage::Complete);
    assert(progress@ =~= seq![
        ProgressStage::Validating,
        ProgressStage::CheckingAuthority,
        ProgressStage::DiscoveringCatalog,
        ProgressStage::Complete,
    ]);
    receipt.progress = progress;
    receipt
}

/// The text of a truth value.
pub open spec fn truth(value: bool) -> Seq<char> {
    if value {
        "true"@
    } else {
        "false"@
    }
}

fn truth_text(value: bool) -> (text: &'static str)
    ensures
        text@ == truth(value),
{
    if value {
        "true"
    } else {
        "false"
    }
}

/// What is shown of a connection test.
pub open spec fn test_text(output: Seq<char>, receipt: ConnectionTestReceipt) -> Seq<char> {
    let told = output + "connection: "@ + receipt.connection@ + "\nexecution: "@
        + receipt.execution@ + "\nreachability: "@ + receipt.reachability.text()
        + "\ncredential: "@ + receipt.credential.text() + "\naccount: "@ + receipt.account.text()
        + "\ndiscovered models: "@ + decimal(receipt.discovered_model_count as nat)
        + "\nusable: "@ + truth(receipt.usable) + "\nrecovery: "@ + receipt.recovery.text()
        + "\n"@;
    let failed = match receipt.failure {
        Some(failure) => told + "failure: "@ + failure@ + "\n"@,
        None => told,
    };
    failed + "receipt: "@ + TEST_CODE@ + "\n"@
}

/// Writes a connection test.
pub fn write_connection_test(output: &mut String, receipt: &ConnectionTestReceipt)
    ensures
        final(output)@ == test_text(old(output)@, *receipt),
{
    output.append("connection: ");
    output.append(receipt.connection.as_str());
    output.append("\nexecution: ");
    output.append(receipt.execution.as_str());
    output.append("\nreachability: ");
    output.append(receipt.reachability.name());
    output.append("\ncredential: ");
    output.append(receipt.credential.name());
    output.append("\naccount: ");
    output.append(receipt.account.name());
    output.append("\ndiscovered models: ");
    output.append(decimal_text(receipt.discovered_model_count as u64).as_str());
    output.append("\nusable: ");
    output.append(truth_text(receipt.usable));
    output.append("\nrecovery: ");
    output.append(receipt.recovery.name());
    output.append("\n");
    match &receipt.failure {
        Some(failure) => {
            output.append("failure: ");
            output.append(failure.as_str());
            output.append("\n");
        },
        None => {},
    }
    output.append("receipt: ");
    output.append(TEST_CODE);
    output.append("\n");
}

/// What is known of one connection, with its states by their wire names.
#[derive(Debug, PartialEq, Eq)]
pub struct ConnectionSummaryView {
    pub id: String,
    pub provider: String,
    pub execution: String,
    pub health: String,
    pub selected_for_new_conversations: bool,
    pub selected_model: Option<String>,
    pub selected_model_state: String,
    pub credential_source: String,
    pub credential: String,
    pub account: String,
    pub reachability: String,
    pub catalog_freshness: String,
    pub cached_model_count: u64,
    pub available_model_count: u64,
    pub fetched_at_unix_seconds: Option<u64>,
    pub model_count: u64,
    pub profile_references: Vec<String>,
    pub recovery: String,
}

/// The row of a connection.
pub open spec fn row_text(output: Seq<char>, connection: ConnectionSummaryView) -> Seq<char> {
    output + (if connection.selected_for_new_conversations {
        "*"@
    } else {
        " "@
    }) + " "@ + connection.id@ + "\t"@ + connection.provider@ + "\t"@ + connection.health@ + "\t"@
        + decimal(connection.model_count as nat) + " model(s)\trecovery="@ + connection.recovery@
        + "\n"@
}

/// Writes the row of a connection.
pub fn write_connection_row(output: &mut String, connection: &ConnectionSummaryView)
    ensures
        final(output)@ == row_text(old(output)@, *connection),
{
    output.append(
        if connection.selected_for_new_conversations {
            "*"
        } else {
            " "
        },
    );
    output.append(" ");
    output.append(connection.id.as_str());
    output.append("\t");
    output.append(connection.provider.as_str());
    output.append("\t");
    output.append(connection.health.as_str());
    output.append("\t");
    output.append(decimal_text(connection.model_count).as_str());
    output.append(" model(s)\trecovery=");
    output.append(connection.recovery.as_str());
    output.append("\n");
}

/// The details of a connection.
pub open spec fn detail_text(output: Seq<char>, connection: ConnectionSummaryView) -> Seq<char> {
    let head = output + "connection: "@ + connection.id@ + "\nprovider: "@ + connection.provider@
        + "\nexecution: "@ + connection.execution@ + "\nhealth: "@ + connection.health@
        + "\nselected for new conversations: "@ + truth(connection.selected_for_new_conversations)
        + "\nselected model: "@ + (match connection.selected_model {
        Some(model) => model@,
        None => "not selected"@,
    }) + " ("@ + connection.selected_model_state@ + ")\ncredential: "@
        + connection.credential_source@ + " ("@ + connection.credential@ + ")\naccount: "@
        + connection.account@ + "\nreachability: "@ + connection.reachability@ + "\ncatalog: "@
        + connection.catalog_freshness@ + " ("@ + decimal(connection.cached_model_count as nat)
        + " cached, "@ + decimal(connection.available_model_count as nat) + " available)\n"@;
    let fetched = match connection.fetched_at_unix_seconds {
        Some(time) => head + "catalog fetched at: "@ + decimal(time as nat) + " unix seconds\n"@,
        None => head,
    };
    fetched + "profiles: "@ + (if connection.profile_references@.len() == 0 {
        "none"@
    } else {
        joined(views(connection.profile_references@), ", "@)
    }) + "\nrecovery: "@ + connection.recovery@ + "\n"@
}

/// Writes the details of a connection.
pub fn write_connection_detail(output: &mut String, connection: &ConnectionSummaryView)
    ensures
        final(output)@ == detail_text(old(output)@, *connection),
{
    output.append("connection: ");
    output.append(connection.id.as_str());
    output.append("\nprovider: ");
    output.append(connection.provider.as_str());
    output.append("\nexecution: ");
    output.append(connection.execution.as_str());
    output.append("\nhealth: ");
    output.append(connection.health.as_str());
    output.append("\nselected for new conversations: ");
    output.append(truth_text(connection.selected_for_new_conversations));
    output.append("\nselected model: ");
    match &connection.selected_model {
        Some(model) => output.append(model.as_str()),
        None => output.append("not selected"),
    }
    output.append(" (");
    output.append(connection.selected_model_state.as_str());
    output.append(")\ncredential: ");
    output.append(connection.credential_source.as_str());
    output.append(" (");
    output.append(connection.credential.as_str());
    output.append(")\naccount: ");
    output.append(connection.account.as_str());
    output.append("\nreachability: ");
    output.append(connection.reachability.as_str());
    output.append("\ncatalog: ");
    output.append(connection.catalog_freshness.as_str());
    output.append(" (");
    output.append(decimal_text(connection.cached_model_count).as_str());
    output.append(" cached, ");
    output.append(decimal_text(connection.available_model_count).as_str());
    output.append(" available)\n");
    match connection.fetched_at_unix_seconds {
        Some(time) => {
            output.append("catalog fetched at: ");
            output.append(decimal_text(time).as_str());
            output.append(" unix seconds\n");
        },
        None => {},
    }
    output.append("profiles: ");
    if connection.profile_references.len() == 0 {
        output.append("none");
    } else {
        output.append(join(&connection.profile_references, ", ").as_str());
    }
    output.append("\nrecovery: ");
    output.append(connection.recovery.as_str());
    output.append("\n");
}

/// A connection is called usable only if it was reached, has a model, and is
/// not known to be logged out; and then there is nothing to recover.
pub proof fn usable_connections_need_no_recovery(
    probe: ProbeOutcome,
    prior: ManagedAccountState,
    prior_recovery: RecoveryAction,
)
    ensures
        usable(probe, prior) ==> reached(probe) == ReachabilityState::Reachable && discovered(probe)
            > 0 && recovery_after(probe, prior, prior_recovery) is Nothing,
        !usable(probe, prior) ==> !(recovery_after(probe, prior, prior_recovery) is Nothing),
{
}

/// A failure that is kept is never longer than its bound and the mark that it
/// was cut.
pub proof fn failures_are_bounded(message: Seq<char>)
    ensures
        bounded_text(message).len() <= MAX_FAILURE_CHARS + 1,
{
}

/// A probe that listed models reports exactly as many, of a managed account as of a
/// native provider; one whose account is logged out, or that listed none, reports none.
pub proof fn listed_models_are_counted(probe: ProbeOutcome)
    ensures
        probe matches ProbeOutcome::Native(Ok(count)) ==> discovered(probe) == count,
        probe matches ProbeOutcome::Account { status, models: Ok(count) } ==> !(status
            is LoggedOut) ==> discovered(probe) == count,
        probe matches ProbeOutcome::Account { status, .. } ==> status is LoggedOut
            ==> discovered(probe) == 0,
        probe is RuntimeFailed ==> discovered(probe) == 0,
        probe is AccountFailed ==> discovered(probe) == 0,
        probe matches ProbeOutcome::Native(Err(_)) ==> discovered(probe) == 0,
        probe matches ProbeOutcome::Account { models: Err(_), .. } ==> discovered(probe) == 0,
{
}

/// A connection that listed models under an account that is not logged out is usable
/// and needs nothing; one that listed none, or whose account is logged out, is not
/// usable.
pub proof fn working_connections_are_usable(
    probe: ProbeOutcome,
    prior: ManagedAccountState,
    prior_recovery: RecoveryAction,
)
    ensures
        probe matches ProbeOutcome::Account { status, models: Ok(count) } ==> !(status
            is LoggedOut) && count > 0 ==> usable(probe, prior) && recovery_after(
            probe,
            prior,
            prior_recovery,
        ) == RecoveryAction::Nothing && reached(probe) == ReachabilityState::Reachable
            && probe_failure(probe) is None,
        probe matches ProbeOutcome::Native(Ok(count)) ==> count > 0 && !(prior is LoggedOut)
            ==> usable(probe, prior) && recovery_after(probe, prior, prior_recovery)
            == RecoveryAction::Nothing && reached(probe) == ReachabilityState::Reachable
            && probe_failure(probe) is None,
        usable(probe, prior) ==> {
            ||| probe matches ProbeOutcome::Account { status, models: Ok(count) } && count > 0
                && !(status is LoggedOut)
            ||| probe matches ProbeOutcome::Native(Ok(count)) && count > 0 && !(prior is LoggedOut)
        },
{
}

/// What the owner is told to do fits what went wrong: an account that is logged out is
/// logged in, what cannot be reached is inspected, and what is reached but lists no
/// models is asked for them again, unless a login was due anyway.
pub proof fn recoveries_fit_the_failure(
    probe: ProbeOutcome,
    prior: ManagedAccountState,
    prior_recovery: RecoveryAction,
)
    ensures
        probe is RuntimeFailed ==> recovery_after(probe, prior, prior_recovery)
            == RecoveryAction::Inspect && reached(probe) == ReachabilityState::Unreachable,
        probe matches ProbeOutcome::Native(Err(_)) ==> recovery_after(probe, prior, prior_recovery)
            == RecoveryAction::Inspect && reached(probe) == ReachabilityState::Unreachable,
        probe matches ProbeOutcome::Account { status, .. } ==> status is LoggedOut
            ==> recovery_after(probe, prior, prior_recovery) == RecoveryAction::Login,
        probe is AccountFailed ==> recovery_after(probe, prior, prior_recovery)
            == RecoveryAction::RefreshCatalog && reached(probe) == ReachabilityState::Reachable,
        probe matches ProbeOutcome::Account { status, models: Err(_) } ==> !(status is LoggedOut)
            ==> recovery_after(probe, prior, prior_recovery) == RecoveryAction::RefreshCatalog,
        probe matches ProbeOutcome::Account { status, models: Ok(0) } ==> !(status is LoggedOut)
            ==> recovery_after(probe, prior, prior_recovery) == (if prior_recovery is Login {
            RecoveryAction::Login
        } else {
            RecoveryAction::RefreshCatalog
        }),
        recovery_after(probe, prior, prior_recovery) == RecoveryAction::Nothing ==> usable(
            probe,
            prior,
        ),
{
}

/// Whether a failure is told: in full where it is short, and else by its beginning.
pub open spec fn told_of(told: Option<Seq<char>>, text: Seq<char>) -> bool {
    &&& told matches Some(said)
    &&& if text.len() <= MAX_FAILURE_CHARS {
        said == text
    } else {
        said.len() > 1 && said.drop_last().is_prefix_of(text)
    }
}

/// A failed probe says why, and one that succeeded says nothing.
pub proof fn probe_failures_are_told(probe: ProbeOutcome)
    ensures
        probe matches ProbeOutcome::RuntimeFailed(text) ==> told_of(probe_failure(probe), text@),
        probe matches ProbeOutcome::AccountFailed(text) ==> told_of(probe_failure(probe), text@),
        probe matches ProbeOutcome::Native(Err(text)) ==> told_of(probe_failure(probe), text@),
        probe matches ProbeOutcome::Account { status, models: Err(text) } ==> !(status
            is LoggedOut) ==> told_of(probe_failure(probe), text@),
        probe matches ProbeOutcome::Native(Ok(_)) ==> probe_failure(probe) is None,
        probe matches ProbeOutcome::Account { models: Ok(_), .. } ==> probe_failure(probe) is None,
{
    assert forall|text: Seq<char>| text.len() > MAX_FAILURE_CHARS implies (#[trigger] bounded_text(
        text,
    )).drop_last().is_prefix_of(text) by {
        assert(bounded_text(text).drop_last() =~= text.take(MAX_FAILURE_CHARS as int));
    }
}

/// An account is called what it is: only one that is logged out has no kind, and a plan
/// or a kind that is told is part of what it is called.
pub proof fn accounts_are_called_what_they_are(status: AccountStatus)
    ensures
        account_kind(status) is None <==> status is LoggedOut,
        status matches AccountStatus::ChatGpt { plan } ==> (account_kind(status) matches Some(kind)
            && crate::text::occurs(kind, plan@)),
        status matches AccountStatus::Other { kind } ==> account_kind(status) == Some(kind@),
{
    if let AccountStatus::ChatGpt { plan } = status {
        let kind = "ChatGPT ("@ + plan@ + ")"@;
        let at = "ChatGPT ("@.len() as int;
        assert(kind.subrange(at, at + plan@.len()) =~= plan@);
    }
}

/// A test counts the models that were listed, of a managed account as of a native
/// provider, and says what it found: a connection is usable exactly where models were
/// listed under an account that is not logged out. One whose credential stops the test is
/// not contacted, and nothing is claimed of it.
pub proof fn tests_report_what_was_found(
    subject: &TestSubject,
    probe: Option<ProbeOutcome>,
    receipt: ConnectionTestReceipt,
)
    requires
        stops_test(subject.credential) || probe is Some,
        call_ensures(test_connection, (subject, probe), receipt),
    ensures
        receipt.connection@ == subject.id@,
        receipt.execution@ == subject.execution@,
        receipt.credential == subject.credential,
        subject.credential is Missing || subject.credential is Inaccessible ==> {
            &&& receipt.reachability == ReachabilityState::NotTested
            &&& receipt.discovered_model_count == 0
            &&& !receipt.usable
            &&& receipt.account == subject.account
            &&& receipt.recovery == subject.recovery
            &&& receipt.failure is None
            &&& !receipt.progress@.contains(ProgressStage::DiscoveringCatalog)
        },
        !(subject.credential is Missing || subject.credential is Inaccessible) ==> {
            &&& receipt.progress@.contains(ProgressStage::DiscoveringCatalog)
            &&& match probe->0 {
                ProbeOutcome::Account { status, models: Ok(count) } => {
                    &&& receipt.reachability == ReachabilityState::Reachable
                    &&& status is LoggedOut ==> receipt.discovered_model_count == 0
                        && receipt.account is LoggedOut && receipt.recovery == RecoveryAction::Login
                    &&& !(status is LoggedOut) ==> receipt.discovered_model_count == count
                        && receipt.account is LoggedIn
                    &&& receipt.usable <==> !(status is LoggedOut) && count > 0
                    &&& receipt.failure is None
                },
                ProbeOutcome::Account { status, models: Err(error) } => {
                    &&& receipt.reachability == ReachabilityState::Reachable
                    &&& receipt.discovered_model_count == 0
                    &&& !receipt.usable
                    &&& receipt.account is LoggedOut <==> status is LoggedOut
                    &&& receipt.failure is Some <==> !(status is LoggedOut)
                },
                ProbeOutcome::Native(Ok(count)) => {
                    &&& receipt.reachability == ReachabilityState::Reachable
                    &&& receipt.discovered_model_count == count
                    &&& receipt.usable <==> count > 0 && !(subject.account is LoggedOut)
                    &&& receipt.account == subject.account
                    &&& receipt.failure is None
                },
                ProbeOutcome::Native(Err(error)) => {
                    &&& receipt.reachability == ReachabilityState::Unreachable
                    &&& receipt.discovered_model_count == 0
                    &&& !receipt.usable
                    &&& receipt.recovery == RecoveryAction::Inspect
                    &&& receipt.failure is Some
                    &&& receipt.account == subject.account
                },
                ProbeOutcome::RuntimeFailed(error) => {
                    &&& receipt.reachability == ReachabilityState::Unreachable
                    &&& receipt.discovered_model_count == 0
                    &&& !receipt.usable
                    &&& receipt.recovery == RecoveryAction::Inspect
                    &&& receipt.failure is Some
                    &&& receipt.account == subject.account
                },
                ProbeOutcome::AccountFailed(error) => {
                    &&& receipt.reachability == ReachabilityState::Reachable
                    &&& receipt.discovered_model_count == 0
                    &&& !receipt.usable
                    &&& receipt.failure is Some
                    &&& receipt.account == subject.account
                },
            }
        },
        receipt.usable ==> receipt.recovery == RecoveryAction::Nothing,
{
    if stops_test(subject.credential) {
    } else {
        assert(receipt.progress@[2] == ProgressStage::DiscoveringCatalog);
    }
}

/// An account is called what it is, and is logged out only where its status says so; the
/// stages of a test are told apart by their codes.
pub proof fn accounts_are_logged_in_as_they_say(
    status: &AccountStatus,
    state: ManagedAccountState,
    one: ProgressStage,
    other: ProgressStage,
    first: &'static str,
    second: &'static str,
)
    requires
        call_ensures(managed_account_state, (status,), state),
        call_ensures(ProgressStage::semantic_code, (one,), first),
        call_ensures(ProgressStage::semantic_code, (other,), second),
    ensures
        state is LoggedOut <==> *status is LoggedOut,
        *status matches AccountStatus::Other { kind: named } ==> (state
            matches ManagedAccountState::LoggedIn { kind } && kind@ == named@),
        first@ == second@ ==> one == other,
{
    reveal_strlit("connection.test.validating.v1");
    reveal_strlit("connection.test.authority.v1");
    reveal_strlit("connection.test.catalog.v1");
    reveal_strlit("connection.test.completed.v1");
    assert("connection.test.validating.v1"@[16] == 'v');
    assert("connection.test.authority.v1"@[16] == 'a');
    assert("connection.test.catalog.v1"@[17] == 'a');
    assert("connection.test.completed.v1"@[17] == 'o');
    assert("connection.test.catalog.v1"@[16] == 'c');
    assert("connection.test.completed.v1"@[16] == 'c');
}

/// A receipt is for the connection and the effect that it was made for, and promises no
/// backup and nothing retained.
pub proof fn receipts_are_for_their_effect(
    id: &str,
    semantic_code: &'static str,
    effect: ConnectionEffect,
    receipt: ConnectionReceipt,
)
    requires
        call_ensures(action_receipt, (id, semantic_code, effect), receipt),
    ensures
        receipt.connection@ == id@,
        receipt.effect == effect,
        receipt.semantic_code@ == semantic_code@,
        receipt.backup is None,
        receipt.retained_authority@.len() == 0,
{
}

/// What is shown of a test names each thing that was found behind its own label, the
/// failure included where there is one.
pub proof fn shown_tests_tell_what_was_found(output: Seq<char>, receipt: ConnectionTestReceipt)
    ensures
        occurs(test_text(output, receipt), "connection: "@ + receipt.connection@),
        occurs(test_text(output, receipt), "\nexecution: "@ + receipt.execution@),
        occurs(test_text(output, receipt), "\nreachability: "@ + receipt.reachability.text()),
        occurs(test_text(output, receipt), "\ncredential: "@ + receipt.credential.text()),
        occurs(test_text(output, receipt), "\naccount: "@ + receipt.account.text()),
        occurs(
            test_text(output, receipt),
            "\ndiscovered models: "@ + decimal(receipt.discovered_model_count as nat),
        ),
        occurs(test_text(output, receipt), "\nusable: "@ + truth(receipt.usable)),
        occurs(test_text(output, receipt), "\nrecovery: "@ + receipt.recovery.text()),
        receipt.failure matches Some(failure) ==> occurs(
            test_text(output, receipt),
            "failure: "@ + failure@,
        ),
{
    let whole = test_text(output, receipt);
    match receipt.failure {
        Some(failure) => {
            let head = whole_head(output, receipt);
            ends_occur(head, "failure: "@, failure@);
            let named = head + "failure: "@ + failure@;
            longer_texts_hold_the_same(named, "\n"@, "failure: "@ + failure@);
            longer_texts_hold_the_same(named + "\n"@, "receipt: "@, "failure: "@ + failure@);
            longer_texts_hold_the_same(
                named + "\n"@ + "receipt: "@,
                TEST_CODE@,
                "failure: "@ + failure@,
            );
            longer_texts_hold_the_same(
                named + "\n"@ + "receipt: "@ + TEST_CODE@,
                "\n"@,
                "failure: "@ + failure@,
            );
        },
        None => {},
    }
    heads_begin(output, receipt);
    let t1 = output + "connection: "@;
    let t2 = t1 + receipt.connection@;
    let t3 = t2 + "\nexecution: "@;
    let t4 = t3 + receipt.execution@;
    let t5 = t4 + "\nreachability: "@;
    let t6 = t5 + receipt.reachability.text();
    let t7 = t6 + "\ncredential: "@;
    let t8 = t7 + receipt.credential.text();
    let t9 = t8 + "\naccount: "@;
    let t10 = t9 + receipt.account.text();
    let t11 = t10 + "\ndiscovered models: "@;
    let t12 = t11 + decimal(receipt.discovered_model_count as nat);
    let t13 = t12 + "\nusable: "@;
    let t14 = t13 + truth(receipt.usable);
    let t15 = t14 + "\nrecovery: "@;
    let t16 = t15 + receipt.recovery.text();
    let t17 = t16 + "\n"@;
    assert(t17.is_prefix_of(whole));
    beginnings_begin_alike(t16, "\n"@, whole);
    beginnings_begin_alike(t15, receipt.recovery.text(), whole);
    beginnings_begin_alike(t14, "\nrecovery: "@, whole);
    beginnings_begin_alike(t13, truth(receipt.usable), whole);
    beginnings_begin_alike(t12, "\nusable: "@, whole);
    beginnings_begin_alike(t11, decimal(receipt.discovered_model_count as nat), whole);
    beginnings_begin_alike(t10, "\ndiscovered models: "@, whole);
    beginnings_begin_alike(t9, receipt.account.text(), whole);
    beginnings_begin_alike(t8, "\naccount: "@, whole);
    beginnings_begin_alike(t7, receipt.credential.text(), whole);
    beginnings_begin_alike(t6, "\ncredential: "@, whole);
    beginnings_begin_alike(t5, receipt.reachability.text(), whole);
    beginnings_begin_alike(t4, "\nreachability: "@, whole);
    beginnings_begin_alike(t3, receipt.execution@, whole);
    beginnings_begin_alike(t2, "\nexecution: "@, whole);
    ends_occur(output, "connection: "@, receipt.connection@);
    beginnings_are_held(t2, whole, "connection: "@ + receipt.connection@);
    ends_occur(t2, "\nexecution: "@, receipt.execution@);
    beginnings_are_held(t4, whole, "\nexecution: "@ + receipt.execution@);
    ends_occur(t4, "\nreachability: "@, receipt.reachability.text());
    beginnings_are_held(t6, whole, "\nreachability: "@ + receipt.reachability.text());
    ends_occur(t6, "\ncredential: "@, receipt.credential.text());
    beginnings_are_held(t8, whole, "\ncredential: "@ + receipt.credential.text());
    ends_occur(t8, "\naccount: "@, receipt.account.text());
    beginnings_are_held(t10, whole, "\naccount: "@ + receipt.account.text());
    ends_occur(t10, "\ndiscovered models: "@, decimal(receipt.discovered_model_count as nat));
    beginnings_are_held(
        t12,
        whole,
        "\ndiscovered models: "@ + decimal(receipt.discovered_model_count as nat),
    );
    ends_occur(t12, "\nusable: "@, truth(receipt.usable));
    beginnings_are_held(t14, whole, "\nusable: "@ + truth(receipt.usable));
    ends_occur(t14, "\nrecovery: "@, receipt.recovery.text());
    beginnings_are_held(t16, whole, "\nrecovery: "@ + receipt.recovery.text());
}

spec fn whole_head(output: Seq<char>, receipt: ConnectionTestReceipt) -> Seq<char> {
    output + "connection: "@ + receipt.connection@ + "\nexecution: "@ + receipt.execution@
        + "\nreachability: "@ + receipt.reachability.text() + "\ncredential: "@
        + receipt.credential.text() + "\naccount: "@ + receipt.account.text()
        + "\ndiscovered models: "@ + decimal(receipt.discovered_model_count as nat)
        + "\nusable: "@ + truth(receipt.usable) + "\nrecovery: "@ + receipt.recovery.text()
        + "\n"@
}

proof fn heads_begin(output: Seq<char>, receipt: ConnectionTestReceipt)
    ensures
        whole_head(output, receipt).is_prefix_of(test_text(output, receipt)),
{
    let head = whole_head(output, receipt);
    let whole = test_text(output, receipt);
    let told = match receipt.failure {
        Some(failure) => head + "failure: "@ + failure@ + "\n"@,
        None => head,
    };
    let named = told + "receipt: "@;
    let coded = named + TEST_CODE@;
    assert((coded + "\n"@).is_prefix_of(whole));
    beginnings_begin_alike(coded, "\n"@, whole);
    beginnings_begin_alike(named, TEST_CODE@, whole);
    beginnings_begin_alike(told, "receipt: "@, whole);
    if let Some(failure) = receipt.failure {
        beginnings_begin_alike(head + "failure: "@ + failure@, "\n"@, whole);
        beginnings_begin_alike(head + "failure: "@, failure@, whole);
        beginnings_begin_alike(head, "failure: "@, whole);
    }
}

/// The row of a connection names it, its provider, its health, how many models it has and
/// its recovery; the one that new conversations use is marked, and no other is.
pub proof fn rows_tell_the_connection(output: Seq<char>, connection: ConnectionSummaryView)
    ensures
        occurs(row_text(output, connection), " "@ + connection.id@),
        occurs(row_text(output, connection), "\t"@ + connection.provider@),
        occurs(row_text(output, connection), "\t"@ + connection.health@),
        occurs(row_text(output, connection), "\t"@ + decimal(connection.model_count as nat)),
        occurs(row_text(output, connection), " model(s)\trecovery="@ + connection.recovery@),
        row_text(output, connection).len() > output.len(),
        row_text(output, connection)[output.len() as int] == '*'
            <==> connection.selected_for_new_conversations,
{
    reveal_strlit("*");
    reveal_strlit(" ");
    let mark = if connection.selected_for_new_conversations {
        "*"@
    } else {
        " "@
    };
    let whole = row_text(output, connection);
    let t1 = output + mark + " "@;
    let t2 = t1 + connection.id@;
    let t3 = t2 + "\t"@;
    let t4 = t3 + connection.provider@;
    let t5 = t4 + "\t"@;
    let t6 = t5 + connection.health@;
    let t7 = t6 + "\t"@;
    let t8 = t7 + decimal(connection.model_count as nat);
    let t9 = t8 + " model(s)\trecovery="@;
    let t10 = t9 + connection.recovery@;
    let t11 = t10 + "\n"@;
    assert(t11.is_prefix_of(whole));
    beginnings_begin_alike(t10, "\n"@, whole);
    beginnings_begin_alike(t9, connection.recovery@, whole);
    beginnings_begin_alike(t8, " model(s)\trecovery="@, whole);
    beginnings_begin_alike(t7, decimal(connection.model_count as nat), whole);
    beginnings_begin_alike(t6, "\t"@, whole);
    beginnings_begin_alike(t5, connection.health@, whole);
    beginnings_begin_alike(t4, "\t"@, whole);
    beginnings_begin_alike(t3, connection.provider@, whole);
    beginnings_begin_alike(t2, "\t"@, whole);
    ends_occur(output + mark, " "@, connection.id@);
    beginnings_are_held(t2, whole, " "@ + connection.id@);
    ends_occur(t2, "\t"@, connection.provider@);
    beginnings_are_held(t4, whole, "\t"@ + connection.provider@);
    ends_occur(t4, "\t"@, connection.health@);
    beginnings_are_held(t6, whole, "\t"@ + connection.health@);
    ends_occur(t6, "\t"@, decimal(connection.model_count as nat));
    beginnings_are_held(t8, whole, "\t"@ + decimal(connection.model_count as nat));
    ends_occur(t8, " model(s)\trecovery="@, connection.recovery@);
    beginnings_are_held(t10, whole, " model(s)\trecovery="@ + connection.recovery@);
    assert(whole[output.len() as int] == (output + mark)[output.len() as int]) by {
        beginnings_begin_alike(output + mark, " "@, whole);
        assert(whole.subrange(0, (output + mark).len() as int)[output.len() as int]
            == whole[output.len() as int]);
    }
}

/// A value of the wire goes by its own words: a text is itself, an object goes by its state
/// or else by its source, and a truth or a number has no name.
pub proof fn wire_values_go_by_their_words(value: &Json, name: String)
    requires
        call_ensures(wire_name, (value,), name),
    ensures
        value.shape matches Shape::Text(text) ==> name@ == text@,
        value.shape is Object ==> (value.member_string("state"@) matches Some(text) ==> name@
            == text),
        value.shape is Object && value.member("state"@) is None ==> (value.member_string("source"@)
            matches Some(text) ==> name@ == text),
{
}

/// What is said of a state is said of no other: each is read off its name again.
pub proof fn states_go_by_their_own_names(
    reached: ReachabilityState,
    other: ReachabilityState,
    account: ManagedAccountState,
    recovery: RecoveryAction,
    credential: CredentialState,
)
    ensures
        reached.text() == other.text() ==> reached == other,
        account is LoggedOut ==> account.text() != "logged_in"@,
        account is LoggedIn ==> account.text() == "logged_in"@,
        recovery is Nothing ==> recovery.text() == "none"@,
        recovery is Login ==> recovery.text() == "login"@,
        recovery is Inspect ==> recovery.text() == "inspect"@,
        recovery is RefreshCatalog ==> recovery.text() == "refresh_catalog"@,
        recovery matches RecoveryAction::Other(name) ==> recovery.text() == name@,
        account matches ManagedAccountState::Other(name) ==> account.text() == name@,
        credential matches CredentialState::Other(name) ==> credential.text() == name@,
        credential is Missing ==> credential.text() == "missing"@,
        credential is Inaccessible ==> credential.text() == "inaccessible"@,
        truth(true) != truth(false),
{
    reveal_strlit("not_tested");
    reveal_strlit("reachable");
    reveal_strlit("unreachable");
    reveal_strlit("logged_in");
    reveal_strlit("logged_out");
    reveal_strlit("true");
    reveal_strlit("false");
    assert("not_tested"@[0] != "reachable"@[0]);
    assert("unreachable"@[0] != "reachable"@[0]);
    assert("unreachable"@[0] != "not_tested"@[0]);
    assert("logged_in"@.len() != "logged_out"@.len());
    assert("true"@.len() != "false"@.len());
}

/// The status of an account is told behind what was written before: a plan is named, and
/// an account that is logged out is told as such.
pub proof fn account_statuses_are_told(output: &mut String, status: &AccountStatus)
    requires
        call_ensures(write_account_status, (output, status), ()),
    ensures
        occurs(final(output)@, "account: "@ + (match *status {
            AccountStatus::LoggedOut => "logged out"@,
            AccountStatus::ApiKey => "Codex-managed API key"@,
            AccountStatus::ChatGpt { plan } => "ChatGPT ("@ + plan@ + ")"@,
            AccountStatus::Other { kind } => kind@,
        })),
{
    let told = match account_kind(*status) {
        None => "logged out"@,
        Some(kind) => kind,
    };
    ends_occur(old(output)@, "account: "@, told);
    longer_texts_hold_the_same(
        old(output)@ + "account: "@ + told,
        "\n"@,
        "account: "@ + told,
    );
}

}
