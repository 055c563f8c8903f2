use xana::plugins::{
    label, list_or_none, package_source, plugin_scope, referencing_profiles, render_review,
    InstalledPlugin, McpServerKind, PackageSource, PluginCommand, PluginEvent, PluginReview,
    PluginRun, PluginScope, PluginUpdateReview, PluginUser, PluginUsers, PluginWork,
    ProjectProfiles, RequestedServer, AGENT_PLUGIN_FORM, NONE_INSTALLED, NOTHING_RAN, REVIEW_ONLY,
    REMOVAL_CONFIRMATION, SOURCE_FLAGS,
};

fn installed(scopes: Vec<&str>) -> InstalledPlugin {
    InstalledPlugin {
        name: "tools".to_string(),
        active_revision: "abc".to_string(),
        mutable: false,
        health: "healthy".to_string(),
        source_kind: "git".to_string(),
        source_location: "https://example.org/tools".to_string(),
        enabled_scopes: scopes.into_iter().map(str::to_string).collect(),
        rollback_available: true,
        pending_update: None,
    }
}

fn review() -> PluginReview {
    PluginReview {
        name: "tools".to_string(),
        version: Some("1.0".to_string()),
        digest: "digest".to_string(),
        mutable: true,
        skills: vec!["review".to_string()],
        mcp_servers: vec![RequestedServer {
            name: "docs".to_string(),
            kind: McpServerKind::Stdio,
            destination: "serve\u{1b}[2J".to_string(),
        }],
        diagnostics: vec![],
    }
}

fn failure(work: PluginWork) -> String {
    match work {
        PluginWork::Finish(Some(text)) => text,
        other => panic!("unexpected work: {other:?}"),
    }
}

#[test]
fn sources_are_named_by_their_flags() {
    let source = |git: bool, revision: Option<&str>, linked: bool| {
        package_source("here".to_string(), git, revision.map(str::to_string), linked)
    };
    assert_eq!(
        source(true, Some("abc"), false),
        Ok(PackageSource::Git { url: "here".to_string(), revision: "abc".to_string() })
    );
    assert_eq!(
        source(false, None, true),
        Ok(PackageSource::Linked { path: "here".to_string() })
    );
    assert_eq!(
        source(false, None, false),
        Ok(PackageSource::Directory { path: "here".to_string() })
    );
    for (git, revision, linked) in [(true, None, false), (false, Some("a"), false), (true, Some("a"), true)] {
        assert_eq!(source(git, revision, linked), Err(SOURCE_FLAGS.to_string()));
    }
    assert_eq!(plugin_scope(&None, &None), PluginScope::User);
    assert_eq!(
        plugin_scope(&Some("p".to_string()), &None),
        PluginScope::Project { project: "p".to_string() }
    );
    assert_eq!(
        plugin_scope(&None, &Some("q".to_string())),
        PluginScope::Profile { project: None, profile: "q".to_string() }
    );
}

#[test]
fn shown_labels_hold_no_control_characters() {
    assert!(!label("a\u{1b}b\nc").chars().any(char::is_control));
    assert_eq!(label("plain"), "plain");
    assert_eq!(list_or_none(&vec![]), "none");
    let text = render_review(AGENT_PLUGIN_FORM, &review());
    assert!(text.contains("tools") && text.contains("digest"));
    assert!(!text.contains('\u{1b}'));
}

#[test]
fn plugins_are_installed_only_after_review() {
    let install = |yes: bool| PluginCommand::Install {
        source: "here".to_string(),
        git: false,
        revision: None,
        linked: false,
        yes,
        json: false,
    };
    let (mut run, step) = PluginRun::start(install(false));
    assert_eq!(
        step.work,
        PluginWork::InspectSource {
            source: PackageSource::Directory { path: "here".to_string() }
        }
    );
    let step = run.step(
        AGENT_PLUGIN_FORM,
        PluginEvent::Reviewed { review: review(), json: String::new() },
    );
    assert_eq!(step.work, PluginWork::Finish(None));
    assert!(step.print.ends_with(REVIEW_ONLY));
    let (mut run, _) = PluginRun::start(install(true));
    let step = run.step(
        AGENT_PLUGIN_FORM,
        PluginEvent::Reviewed { review: review(), json: String::new() },
    );
    assert_eq!(
        step.work,
        PluginWork::Install {
            source: PackageSource::Directory { path: "here".to_string() },
            digest: "digest".to_string(),
        }
    );
    let (mut run, _) = PluginRun::start(PluginCommand::Review {
        source: "here".to_string(),
        git: false,
        revision: None,
        linked: false,
        json: false,
    });
    let step = run.step(
        AGENT_PLUGIN_FORM,
        PluginEvent::Reviewed { review: review(), json: String::new() },
    );
    assert!(step.print.ends_with(NOTHING_RAN));
}

#[test]
fn failed_profile_changes_are_taken_back() {
    let (mut run, step) = PluginRun::start(PluginCommand::Enable {
        name: "tools".to_string(),
        project: None,
        profile: Some("default".to_string()),
        json: false,
    });
    assert_eq!(step.work, PluginWork::Inspect);
    let scope = || PluginScope::Profile { project: None, profile: "default".to_string() };
    let step = run.step(
        AGENT_PLUGIN_FORM,
        PluginEvent::Scoped { plugin: installed(vec![]), key: "profile:default".to_string() },
    );
    assert_eq!(step.work, PluginWork::Enable { scope: scope() });
    let step = run.step(
        AGENT_PLUGIN_FORM,
        PluginEvent::Plugin {
            plugin: installed(vec!["profile:default"]),
            json: String::new(),
        },
    );
    assert_eq!(
        step.work,
        PluginWork::SetProfile {
            project: None,
            profile: "default".to_string(),
            enabled: true,
        }
    );
    let step = run.step(AGENT_PLUGIN_FORM, PluginEvent::Failed("not written".to_string()));
    assert_eq!(step.work, PluginWork::Disable { scope: scope() });
    let step = run.step(AGENT_PLUGIN_FORM, PluginEvent::Done);
    assert_eq!(failure(step.work), "not written");
}

fn user(name: &str) -> PluginUser {
    PluginUser { name: name.to_string(), plugins: vec!["tools".to_string()] }
}

#[test]
fn plugins_in_use_are_kept() {
    let (_, step) =
        PluginRun::start(PluginCommand::Remove { name: "tools".to_string(), yes: false });
    assert_eq!(failure(step.work), REMOVAL_CONFIRMATION);
    let remove = || PluginRun::start(PluginCommand::Remove { name: "tools".to_string(), yes: true });
    let users = || PluginUsers {
        profiles: vec![user("default")],
        projects: vec![ProjectProfiles {
            project: "site".to_string(),
            profiles: vec![user("build")],
        }],
        conversations: vec![],
    };
    assert_eq!(referencing_profiles(&users(), "tools").len(), 2);
    assert_eq!(referencing_profiles(&users(), "other").len(), 0);
    let (mut run, step) = remove();
    assert_eq!(step.work, PluginWork::GatherUsers);
    let step = run.step(AGENT_PLUGIN_FORM, PluginEvent::Users(users()));
    assert!(failure(step.work).contains("default"));
    let (mut run, _) = remove();
    let nobody = PluginUsers { profiles: vec![], projects: vec![], conversations: vec![] };
    assert_eq!(
        run.step(AGENT_PLUGIN_FORM, PluginEvent::Users(nobody)).work,
        PluginWork::Remove
    );
    assert_eq!(
        run.step(AGENT_PLUGIN_FORM, PluginEvent::Removed(true)).work,
        PluginWork::Finish(None)
    );
}

#[test]
fn plugins_are_listed_updated_and_collected() {
    let (mut run, _) = PluginRun::start(PluginCommand::List { json: false });
    let step = run.step(
        AGENT_PLUGIN_FORM,
        PluginEvent::Listed { plugins: vec![], json: "[]".to_string() },
    );
    assert_eq!(step.print, NONE_INSTALLED);
    let (mut run, _) = PluginRun::start(PluginCommand::List { json: true });
    let step = run.step(
        AGENT_PLUGIN_FORM,
        PluginEvent::Listed { plugins: vec![], json: "[]".to_string() },
    );
    assert_eq!(step.print, "[]\n");
    let (mut run, _) = PluginRun::start(PluginCommand::UpdateCheck {
        name: "tools".to_string(),
        revision: None,
        json: false,
    });
    let step = run.step(
        AGENT_PLUGIN_FORM,
        PluginEvent::UpdateReviewed {
            review: PluginUpdateReview {
                name: "tools".to_string(),
                current_revision: "abc".to_string(),
                candidate_revision: "def".to_string(),
                changed: true,
                added_skills: vec!["search".to_string()],
                removed_skills: vec![],
                added_mcp_servers: vec![],
                removed_mcp_servers: vec![],
                requires_reapproval: true,
            },
            json: String::new(),
        },
    );
    assert!(step.print.contains("def") && step.print.contains("search"));
    let (mut run, _) = PluginRun::start(PluginCommand::Gc { yes: true });
    let step = run.step(AGENT_PLUGIN_FORM, PluginEvent::Collected(3));
    assert_eq!(step.print, "Removed 3 unreferenced plugin version tree(s).\n");
    assert_eq!(run.step(AGENT_PLUGIN_FORM, PluginEvent::Done).work, PluginWork::Ignore);
}
