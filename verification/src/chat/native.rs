//! What a native execution runs under: the limits it hands on, and whether its
//! settings still hold.

use crate::chat::launch::RETAINED_SETTINGS;
use crate::config::{OrchestrationLimits, PermissionMode, Profile};
use crate::text::{occurs, parts_occur, text_eq};
use vstd::prelude::*;
use vstd::string::*;

verus! {

pub const CHILDREN_AT_WORK: &'static str = "Settings are pending until retained child work is stopped or finished";

pub const SETTINGS_MOVED: &'static str = "Settings changed during preparation; retry this turn";

pub const DEFAULT_PROFILE_GONE: &'static str = "default Profile is unavailable";

/// The limits that the execution itself runs under.
#[derive(Debug, PartialEq, Eq)]
pub struct RootRevision {
    pub connection: String,
    pub model: String,
    pub permission_mode: PermissionMode,
    pub capabilities: Option<Vec<String>>,
    pub max_tool_rounds: u64,
    pub orchestration: OrchestrationLimits,
}

/// Whether capabilities are the same.
pub open spec fn same_capabilities(one: Option<Vec<String>>, two: Option<Vec<String>>) -> bool {
    match (one, two) {
        (Some(one), Some(two)) => one@ == two@,
        (None, None) => true,
        _ => false,
    }
}

/// Whether a profile is another one under the limits of an execution.
pub open spec fn revised(before: Profile, root: RootRevision, after: Profile) -> bool {
    &&& after == (Profile {
        connection: after.connection,
        model: after.model,
        permission_mode: after.permission_mode,
        capabilities: after.capabilities,
        max_tool_rounds: root.max_tool_rounds,
        orchestration: root.orchestration,
        ..before
    })
    &&& after.connection == root.connection
    &&& after.model == root.model
    &&& after.permission_mode == Some(root.permission_mode)
    &&& same_capabilities(after.capabilities, root.capabilities)
}

/// Puts the root profile under the limits that the execution itself runs under,
/// so that what is handed on to children is bounded by them and not by what is
/// configured now.
pub fn revise_root(profiles: &mut Vec<Profile>, default_profile: &str, root: RootRevision) -> (done:
    Result<(), String>)
    ensures
        ({
            let at = crate::config::profile_index(old(profiles)@, default_profile@);
            if at < old(profiles)@.len() {
                &&& done is Ok
                &&& final(profiles)@.len() == old(profiles)@.len()
                &&& revised(old(profiles)@[at as int], root, final(profiles)@[at as int])
                &&& forall|i: int|
                    0 <= i < old(profiles)@.len() && i != at ==> final(profiles)@[i] == old(
                        profiles,
                    )@[i]
            } else {
                &&& done matches Err(text)
                &&& text@ == DEFAULT_PROFILE_GONE@
                &&& final(profiles)@ == old(profiles)@
            }
        }),
{
    match crate::config::find_profile(profiles, default_profile) {
        None => Err(DEFAULT_PROFILE_GONE.to_owned()),
        Some(at) => {
            let held = profiles.remove(at);
            let next = Profile {
                name: held.name,
                connection: root.connection,
                model: root.model,
                skills: held.skills,
                plugins: held.plugins,
                mcp_servers: held.mcp_servers,
                mcp_allowlists: held.mcp_allowlists,
                external_agents: held.external_agents,
                service_routes: held.service_routes,
                egress_policy: held.egress_policy,
                permission_mode: Some(root.permission_mode),
                capabilities: root.capabilities,
                max_tool_rounds: root.max_tool_rounds,
                orchestration: root.orchestration,
                archived: held.archived,
            };
            profiles.insert(at, next);
            Ok(())
        },
    }
}

/// What a refresh of the settings between two turns does.
#[derive(Clone, Copy, PartialEq, Eq, Structural, Debug)]
pub enum RefreshDecision {
    Keep,
    Compose,
}

/// Decides what is done about settings that were read again: nothing where they
/// are the same, and nothing while children are at work under them.
pub fn prepare_refresh(unchanged: bool, live_children: bool) -> (decision: Result<
    RefreshDecision,
    String,
>)
    ensures
        if unchanged {
            decision == Ok::<RefreshDecision, String>(RefreshDecision::Keep)
        } else if live_children {
            decision matches Err(text) && text@ == CHILDREN_AT_WORK@
        } else {
            decision == Ok::<RefreshDecision, String>(RefreshDecision::Compose)
        },
{
    if unchanged {
        Ok(RefreshDecision::Keep)
    } else if live_children {
        Err(CHILDREN_AT_WORK.to_owned())
    } else {
        Ok(RefreshDecision::Compose)
    }
}

/// Whether what was prepared is still what the settings say: they may have moved
/// in the meantime.
pub fn confirm_inputs(prepared: &str, current: &str) -> (confirmed: Result<(), String>)
    ensures
        prepared@ == current@ ==> confirmed is Ok,
        prepared@ != current@ ==> (confirmed matches Err(text) && text@ == SETTINGS_MOVED@),
{
    if text_eq(prepared, current) {
        Ok(())
    } else {
        Err(SETTINGS_MOVED.to_owned())
    }
}

/// The report on what is in the context.
pub open spec fn report_of(plan: Seq<char>, pending: bool, notice: Seq<char>) -> Seq<char> {
    if pending {
        plan + "\n"@ + RETAINED_SETTINGS@ + notice
    } else {
        plan + "\n"@ + notice
    }
}

/// The report on what is in the context: the plan, that unfinished work keeps its
/// settings, and the notice on memory.
pub fn context_report(plan: &str, pending: bool, memory_notice: &str) -> (report: String)
    ensures
        report@ == report_of(plan@, pending, memory_notice@),
{
    let mut report = plan.to_owned();
    report.append("\n");
    if pending {
        report.append(RETAINED_SETTINGS);
    }
    report.append(memory_notice);
    report
}

/// A revised profile runs under the limits of the execution and is otherwise the profile
/// that it was: its name and what it selects are kept.
pub proof fn revised_profiles_run_under_the_execution(
    before: Profile,
    root: RootRevision,
    after: Profile,
)
    requires
        revised(before, root, after),
    ensures
        after.connection == root.connection,
        after.model == root.model,
        after.permission_mode == Some(root.permission_mode),
        after.max_tool_rounds == root.max_tool_rounds,
        after.orchestration == root.orchestration,
        after.capabilities is Some <==> root.capabilities is Some,
        after.capabilities matches Some(held) ==> held@ == root.capabilities->0@,
        after.name == before.name,
        after.skills == before.skills,
        after.plugins == before.plugins,
        after.mcp_servers == before.mcp_servers,
        after.mcp_allowlists == before.mcp_allowlists,
        after.external_agents == before.external_agents,
        after.service_routes == before.service_routes,
        after.egress_policy == before.egress_policy,
        after.archived == before.archived,
{
}

/// Settings that did not change are kept; those that changed are taken on, but not while
/// children are at work. What was prepared is used only where the settings are still the
/// same.
pub proof fn settings_change_between_turns(
    unchanged: bool,
    live_children: bool,
    decision: Result<RefreshDecision, String>,
    prepared: &str,
    current: &str,
    confirmed: Result<(), String>,
)
    requires
        call_ensures(prepare_refresh, (unchanged, live_children), decision),
        call_ensures(confirm_inputs, (prepared, current), confirmed),
    ensures
        decision is Err <==> !unchanged && live_children,
        decision == Ok::<RefreshDecision, String>(RefreshDecision::Keep) <==> unchanged,
        confirmed is Ok <==> prepared@ == current@,
{
}

/// A report on the context holds the plan and the notice on memory, and what is said of
/// unfinished work where there is some.
pub proof fn context_reports_hold_their_parts(
    plan: &str,
    pending: bool,
    notice: &str,
    report: String,
)
    requires
        call_ensures(context_report, (plan, pending, notice), report),
    ensures
        plan@.is_prefix_of(report@),
        occurs(report@, notice@),
        pending ==> occurs(report@, RETAINED_SETTINGS@),
        !pending ==> report@.len() == plan@.len() + 1 + notice@.len(),
{
    reveal_strlit("\n");
    let nothing = Seq::<char>::empty();
    assert(plan@ =~= report@.take(plan@.len() as int));
    if pending {
        let front = plan@ + "\n"@ + RETAINED_SETTINGS@;
        assert(report@ =~= front + notice@ + nothing);
        parts_occur(front, notice@, nothing);
        parts_occur(plan@ + "\n"@, RETAINED_SETTINGS@, notice@);
    } else {
        assert(report@ =~= plan@ + "\n"@ + notice@ + nothing);
        parts_occur(plan@ + "\n"@, notice@, nothing);
    }
}

/// The default profile is revised in its place, and every other stays as it was; where it
/// is gone nothing is revised.
pub proof fn only_the_default_profile_is_revised(
    profiles: &mut Vec<Profile>,
    default_profile: &str,
    root: RootRevision,
    done: Result<(), String>,
)
    requires
        call_ensures(revise_root, (profiles, default_profile, root), done),
    ensures
        final(profiles)@.len() == old(profiles)@.len(),
        done is Err ==> final(profiles)@ == old(profiles)@,
        done is Ok <==> crate::config::profile_index(old(profiles)@, default_profile@) < old(profiles)@.len(),
        forall|i: int|
            0 <= i < old(profiles)@.len() && i != crate::config::profile_index(
                old(profiles)@,
                default_profile@,
            ) ==> final(profiles)@[i] == #[trigger] old(profiles)@[i],
{
}

}
