use xana::config::{CredentialReference, PermissionMode};
use xana::connection_commands::{
    asks_limits, codex_launch, permission_choice, translate_auth, AddArguments, AuthCommand,
    CommandStep, ConnectionCommand, ConnectionEvent, ConnectionFacts, ConnectionRun,
    ConnectionWork, JsonReport, RuntimeFacts, SetupArguments, CREDENTIAL_LIMIT,
    DELETE_CONFIRMATION, HIDDEN_ENTRY, LOGOUT_CONFIRMATION, MAX_CREDENTIAL_BYTES,
    REMOVE_CONFIRMATION,
};
use xana::connections::{
    action_receipt, bounded_failure, managed_account_state, needs_probe, test_connection,
    wire_name, write_account_status, write_connection_test, AccountStatus, ConnectionEffect,
    ConnectionSummaryView, CredentialState, ManagedAccountState, ProbeOutcome, ReachabilityState, RecoveryAction,
    TestSubject, CONNECTION_STATE_VERSION, MAX_FAILURE_CHARS,
};
use xana::json::{Json, Shape};

fn failure(step: CommandStep) -> String {
    match step.work {
        ConnectionWork::Finish(Some(text)) => text,
        other => panic!("unexpected work: {other:?}"),
    }
}

fn stored() -> ConnectionEvent {
    ConnectionEvent::Connection(ConnectionFacts {
        codex: false,
        credential: Some(CredentialReference::Stored { id: "key".to_string() }),
    })
}

fn set_key(from_stdin: bool, json: bool) -> ConnectionRun {
    let (run, step) = ConnectionRun::start(
        ConnectionCommand::SetKey { id: "cloud".to_string(), from_stdin },
        json,
    );
    assert_eq!(step.work, ConnectionWork::Connection);
    run
}

#[test]
fn keys_are_validated_before_they_replace_the_stored_one() {
    let mut run = set_key(true, false);
    assert_eq!(run.step(stored()).work, ConnectionWork::ReadSecret { from_stdin: true });
    assert_eq!(
        run.step(ConnectionEvent::Secret("secret\n".to_string())).work,
        ConnectionWork::Probe { secret: "secret".to_string() }
    );
    assert_eq!(
        run.step(ConnectionEvent::Models(2)).work,
        ConnectionWork::StoreSecret {
            credential_id: "key".to_string(),
            secret: "secret".to_string(),
        }
    );
    assert_eq!(run.step(ConnectionEvent::Done).work, ConnectionWork::WriteCache);
    let step = run.step(ConnectionEvent::Cached(Ok(())));
    assert_eq!(step.work, ConnectionWork::Finish(None));
    assert_eq!(
        step.print,
        "credential validated against 2 model(s) and stored in the operating-system credential store for cloud\n"
    );
    let mut run = set_key(true, false);
    run.step(stored());
    run.step(ConnectionEvent::Secret("secret".to_string()));
    assert!(failure(run.step(ConnectionEvent::Models(0)))
        .ends_with("returned an empty model catalog; the prior credential was preserved"));
    let mut run = set_key(false, false);
    run.step(stored());
    assert_eq!(failure(run.step(ConnectionEvent::NoTerminal)), HIDDEN_ENTRY);
    let mut run = set_key(true, false);
    run.step(stored());
    let long = "x".repeat(MAX_CREDENTIAL_BYTES + 1);
    assert_eq!(failure(run.step(ConnectionEvent::Secret(long))), CREDENTIAL_LIMIT);
    let mut run = set_key(true, false);
    let environment = ConnectionEvent::Connection(ConnectionFacts {
        codex: false,
        credential: Some(CredentialReference::Environment { variable: "KEY".to_string() }),
    });
    assert!(failure(run.step(environment)).contains("uses an environment credential"));
}

#[test]
fn cached_catalog_failures_are_warnings() {
    let mut run = set_key(true, true);
    run.step(stored());
    run.step(ConnectionEvent::Secret("secret".to_string()));
    run.step(ConnectionEvent::Models(1));
    run.step(ConnectionEvent::Done);
    let step = run.step(ConnectionEvent::Cached(Err("disk full".to_string())));
    match step.report {
        Some(JsonReport::Receipt(receipt)) => {
            assert_eq!(receipt.effect, ConnectionEffect::CredentialReplaced);
            assert_eq!(receipt.warnings.len(), 1);
            assert!(receipt.warnings[0].contains("disk full"));
        }
        other => panic!("unexpected report: {other:?}"),
    }
    assert_eq!(step.print, "");
}

#[test]
fn destructive_commands_are_confirmed() {
    let start = |command: ConnectionCommand| ConnectionRun::start(command, false).1;
    let id = || "cloud".to_string();
    assert_eq!(
        failure(start(ConnectionCommand::DeleteKey { id: id(), yes: false })),
        DELETE_CONFIRMATION
    );
    assert_eq!(
        failure(start(ConnectionCommand::Logout { id: id(), yes: false })),
        LOGOUT_CONFIRMATION
    );
    assert_eq!(
        failure(start(ConnectionCommand::Remove { id: id(), yes: false })),
        REMOVE_CONFIRMATION
    );
    let (mut run, _) =
        ConnectionRun::start(ConnectionCommand::DeleteKey { id: id(), yes: true }, false);
    assert_eq!(
        run.step(stored()).work,
        ConnectionWork::DeleteSecret { credential_id: "key".to_string() }
    );
    assert_eq!(
        run.step(ConnectionEvent::Deleted(false)).print,
        "credential was already absent for cloud\n"
    );
    assert_eq!(run.step(ConnectionEvent::Done).work, ConnectionWork::Ignore);
}

fn codex() -> ConnectionEvent {
    ConnectionEvent::Connection(ConnectionFacts { codex: true, credential: None })
}

#[test]
fn managed_logins_can_be_interrupted() {
    let login = || {
        ConnectionRun::start(
            ConnectionCommand::Login { id: "codex".to_string(), device_code: true },
            false,
        )
        .0
    };
    let mut run = login();
    assert_eq!(run.step(codex()).work, ConnectionWork::StartRuntime);
    assert_eq!(
        run.step(ConnectionEvent::Account(AccountStatus::LoggedOut)).work,
        ConnectionWork::BeginLogin { device_code: true }
    );
    let step = run.step(ConnectionEvent::Instructions {
        url: "https://auth.example".to_string(),
        code: Some("ABCD".to_string()),
    });
    assert_eq!(
        step.print,
        "Open this URL to authorize Codex:\nhttps://auth.example\nCode: ABCD\nWaiting for authorization...\n"
    );
    assert_eq!(run.step(ConnectionEvent::Interrupted).work, ConnectionWork::CancelLogin);
    let step = run.step(ConnectionEvent::Cancelled { found: true });
    assert_eq!(step.work, ConnectionWork::StopRuntime);
    assert!(step.print.starts_with("Managed login cancelled. No Xana configuration changed."));
    assert_eq!(run.step(ConnectionEvent::Done).work, ConnectionWork::Finish(None));
    let mut run = login();
    run.step(codex());
    let step = run.step(ConnectionEvent::Account(AccountStatus::ApiKey));
    assert_eq!(step.print, "Codex is already logged in.\n");
    let mut run = login();
    assert!(failure(run.step(stored())).ends_with("uses an API key, not managed login"));
}

fn subject(managed: bool, credential: CredentialState) -> TestSubject {
    TestSubject {
        id: "cloud".to_string(),
        execution: "native".to_string(),
        managed,
        credential,
        account: ManagedAccountState::Other("not_applicable".to_string()),
        recovery: RecoveryAction::Nothing,
    }
}

#[test]
fn connections_are_tested_without_a_missing_credential() {
    let missing = subject(false, CredentialState::Missing);
    assert!(!needs_probe(&missing));
    let receipt = test_connection(&missing, None);
    assert!(!receipt.usable);
    assert_eq!(receipt.reachability, ReachabilityState::NotTested);
    let codes: Vec<&str> =
        receipt.progress.iter().map(|stage| stage.semantic_code()).collect();
    assert_eq!(
        codes,
        [
            "connection.test.validating.v1",
            "connection.test.authority.v1",
            "connection.test.completed.v1",
        ]
    );
    let ready = subject(false, CredentialState::Other("present".to_string()));
    assert!(needs_probe(&ready));
    let receipt = test_connection(&ready, Some(ProbeOutcome::Native(Ok(3))));
    assert!(receipt.usable);
    assert_eq!(receipt.discovered_model_count, 3);
    assert_eq!(receipt.reachability, ReachabilityState::Reachable);
    let receipt =
        test_connection(&ready, Some(ProbeOutcome::Native(Err("refused".to_string()))));
    assert!(!receipt.usable);
    assert_eq!(receipt.failure.as_deref(), Some("refused"));
    let mut output = String::new();
    write_connection_test(&mut output, &receipt);
    assert!(output.contains("cloud") && output.contains("refused"));
    let managed = subject(true, CredentialState::Other("managed".to_string()));
    let receipt = test_connection(
        &managed,
        Some(ProbeOutcome::Account { status: AccountStatus::LoggedOut, models: Ok(0) }),
    );
    assert!(!receipt.usable);
    assert_eq!(receipt.recovery, RecoveryAction::Login);
}

#[test]
fn states_have_wire_names() {
    let text = |text: &str| Json {
        text: format!("\"{text}\""),
        shape: Shape::Text(text.to_string()),
    };
    assert_eq!(wire_name(&text("logged_out")), "logged_out");
    assert_eq!(ReachabilityState::NotTested.name(), "not_tested");
    assert_eq!(CredentialState::Missing.name(), "missing");
    assert_eq!(
        managed_account_state(&AccountStatus::ChatGpt { plan: "plus".to_string() }).name(),
        "logged_in"
    );
    let mut output = String::new();
    write_account_status(&mut output, &AccountStatus::LoggedOut);
    assert_eq!(output, "account: logged out\n");
    assert_eq!(
        bounded_failure("x".repeat(2 * MAX_FAILURE_CHARS)),
        "x".repeat(MAX_FAILURE_CHARS) + "…"
    );
    let receipt = action_receipt("cloud", "code", ConnectionEffect::Tested);
    assert_eq!(receipt.version, CONNECTION_STATE_VERSION);
    assert_eq!(receipt.connection, "cloud");
}

#[test]
fn older_commands_mean_connection_commands() {
    assert_eq!(
        translate_auth(AuthCommand::Login { provider: "codex".to_string() }),
        ConnectionCommand::Login { id: "codex".to_string(), device_code: false }
    );
    assert_eq!(
        translate_auth(AuthCommand::Status { provider: "codex".to_string() }),
        ConnectionCommand::Status { id: "codex".to_string() }
    );
    assert_eq!(permission_choice(Some(PermissionMode::Deny)), PermissionMode::Deny);
    assert_eq!(permission_choice(None), PermissionMode::Ask);
    let launch = codex_launch(&None, &Some("/home".to_string()));
    assert_eq!(launch.program, "codex");
    assert_eq!(launch.home.as_deref(), Some("/home"));
}

fn added(configured: Option<PermissionMode>) -> SetupArguments {
    let arguments = AddArguments {
        id: "cloud".to_string(),
        kind: "openai".to_string(),
        base_url: Some("https://api.example".to_string()),
        env: Some("KEY_NAME".to_string()),
        credential_id: Some("key".to_string()),
        key_from_stdin: false,
        model: "m".to_string(),
        codex_program: Some("codex".to_string()),
        codex_home: Some("/home".to_string()),
        yes: true,
        dry_run: false,
    };
    let command = ConnectionCommand::Add { arguments, configured };
    match ConnectionRun::start(command, false).1.work {
        ConnectionWork::Setup(arguments) => arguments,
        other => panic!("unexpected work: {other:?}"),
    }
}

#[test]
fn connections_are_added_by_a_setup_that_asks_nothing() {
    let setup = |permission_mode: PermissionMode| SetupArguments {
        non_interactive: true,
        quick: true,
        kind: "openai".to_string(),
        connection: "cloud".to_string(),
        base_url: Some("https://api.example".to_string()),
        codex_program: Some("codex".to_string()),
        codex_home: Some("/home".to_string()),
        credential_env: Some("KEY_NAME".to_string()),
        credential_id: Some("key".to_string()),
        key_from_stdin: false,
        model: "m".to_string(),
        permission_mode,
        yes: true,
        dry_run: false,
    };
    assert_eq!(added(None), setup(PermissionMode::Ask));
    assert_eq!(added(Some(PermissionMode::Deny)), setup(PermissionMode::Deny));
}

fn known(account: &str) -> ConnectionSummaryView {
    ConnectionSummaryView {
        id: "codex".to_string(),
        provider: "codex".to_string(),
        execution: "managed".to_string(),
        health: "ready".to_string(),
        selected_for_new_conversations: true,
        selected_model: None,
        selected_model_state: "none".to_string(),
        credential_source: "managed".to_string(),
        credential: "not_required".to_string(),
        account: account.to_string(),
        reachability: "reachable".to_string(),
        catalog_freshness: "fresh".to_string(),
        cached_model_count: 1,
        available_model_count: 1,
        fetched_at_unix_seconds: None,
        model_count: 1,
        profile_references: vec![],
        recovery: "none".to_string(),
    }
}

fn observed(account: AccountStatus, json: bool) -> (ConnectionRun, CommandStep) {
    let state = managed_account_state(&account);
    let (mut run, _) =
        ConnectionRun::start(ConnectionCommand::Status { id: "codex".to_string() }, json);
    assert_eq!(
        run.step(ConnectionEvent::Known(Some(known("unknown")), true)).work,
        ConnectionWork::InspectRuntime
    );
    let facts = RuntimeFacts {
        account,
        version: "1.2".to_string(),
        home: "/home/codex".to_string(),
    };
    assert_eq!(
        run.step(ConnectionEvent::Runtime(facts)).work,
        ConnectionWork::ObserveAccount { known: known("unknown"), state }
    );
    let step = run.step(ConnectionEvent::Observed(known("observed")));
    (run, step)
}

#[test]
fn rate_limits_are_asked_of_chatgpt_accounts_only() {
    let chatgpt = || AccountStatus::ChatGpt { plan: "plus".to_string() };
    assert!(asks_limits(&chatgpt()));
    assert!(!asks_limits(&AccountStatus::ApiKey));
    assert!(!asks_limits(&AccountStatus::LoggedOut));

    let (mut run, step) = observed(chatgpt(), false);
    assert_eq!(step.work, ConnectionWork::AskLimits);
    let limits = ConnectionEvent::Limits {
        primary: Some("12.5".to_string()),
        secondary: Some("3".to_string()),
    };
    assert_eq!(run.step(limits).work, ConnectionWork::StopRuntime);
    let step = run.step(ConnectionEvent::Done);
    assert_eq!(step.work, ConnectionWork::Finish(None));
    assert!(step.print.contains("\naccount: observed\n"));
    assert!(step.print.ends_with(
        "runtime: 1.2\nmanaged account home: /home/codex\nprimary usage: 12.5%\nsecondary usage: 3%\n"
    ));

    let (mut run, step) = observed(AccountStatus::ApiKey, false);
    assert_eq!(step.work, ConnectionWork::StopRuntime);
    let step = run.step(ConnectionEvent::Done);
    assert!(step.print.ends_with("runtime: 1.2\nmanaged account home: /home/codex\n"));

    let (mut run, step) = observed(AccountStatus::LoggedOut, true);
    assert_eq!(step.work, ConnectionWork::StopRuntime);
    let step = run.step(ConnectionEvent::Done);
    assert_eq!(step.print, "");
    assert_eq!(step.report, Some(JsonReport::Detail(known("observed"))));
}
