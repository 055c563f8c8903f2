//! The configured connections, profiles, servers and policies that commands
//! read.

use crate::order::{a_key_has_one_place, has_key_order, in_key_order, keys, Keyed};
use crate::outbound::{copy_classes, OutboundDataClass};
use crate::text::{before, option_view, text_eq};
use vstd::prelude::*;

verus! {

/// How a connection is authorized.
#[derive(Debug, Clone, PartialEq, Eq)]
pub enum CredentialReference {
    Environment { variable: String },
    Stored { id: String },
}

/// How tool permissions are decided.
#[derive(Clone, Copy, PartialEq, Eq, Structural, Debug)]
pub enum PermissionMode {
    Deny,
    Ask,
    Allow,
}

/// A named list of classes that may be sent.
#[derive(Debug, Clone, PartialEq, Eq)]
pub struct EgressPolicy {
    pub name: String,
    pub allowed: Vec<OutboundDataClass>,
}

/// The primitives of an MCP server that a profile exposes.
#[derive(Debug, Clone, PartialEq, Eq)]
pub struct McpPrimitiveSelection {
    pub tools: Vec<String>,
    pub resources: Vec<String>,
    pub resource_templates: Vec<String>,
    pub prompts: Vec<String>,
}

/// A configured MCP server.
#[derive(Debug, Clone, PartialEq, Eq)]
pub enum McpServerDeclaration {
    Stdio {
        command: String,
        args: Vec<String>,
        environment: Vec<(String, String)>,
        cwd: Option<String>,
        enabled: bool,
        egress_policy: Option<String>,
    },
    StreamableHttp {
        url: String,
        credential: Option<CredentialReference>,
        enabled: bool,
        egress_policy: Option<String>,
    },
}

/// A configured MCP server under its name.
#[derive(Debug, Clone, PartialEq, Eq)]
pub struct McpServer {
    pub name: String,
    pub declaration: McpServerDeclaration,
}

/// The allowlist of one MCP server in a profile.
#[derive(Debug, Clone, PartialEq, Eq)]
pub struct McpAllowlist {
    pub server: String,
    pub selection: McpPrimitiveSelection,
}

/// The bounds on the work that a route may hand on.
#[derive(Clone, Copy, PartialEq, Eq, Structural, Debug)]
pub struct OrchestrationLimits {
    pub max_fan_out: u64,
    pub max_descendants: u64,
    pub max_concurrency: u64,
    pub deadline_seconds: u64,
    pub max_context_tokens: u64,
    pub max_report_bytes: u64,
    pub max_artifact_bytes: u64,
}

/// What a conversation is set up with.
#[derive(Debug, Clone, PartialEq, Eq)]
pub struct Profile {
    pub name: String,
    pub connection: String,
    pub model: String,
    pub skills: Vec<String>,
    pub plugins: Vec<String>,
    pub mcp_servers: Vec<String>,
    pub mcp_allowlists: Vec<McpAllowlist>,
    pub external_agents: Vec<String>,
    pub service_routes: Vec<String>,
    pub egress_policy: Option<String>,
    pub permission_mode: Option<PermissionMode>,
    pub capabilities: Option<Vec<String>>,
    pub max_tool_rounds: u64,
    pub orchestration: OrchestrationLimits,
    pub archived: bool,
}

/// A configured model connection.
#[derive(Debug, Clone, PartialEq, Eq)]
pub struct NamedConnection {
    pub name: String,
    pub kind: String,
}

/// Who answers web searches.
#[derive(Clone, Copy, PartialEq, Eq, Structural, Debug)]
pub enum WebProvider {
    ExaMcp,
    Brave,
}

/// A configured web search connection.
#[derive(Debug, Clone, PartialEq, Eq)]
pub struct WebConnection {
    pub name: String,
    pub provider: WebProvider,
    pub credential_env: Option<String>,
}

/// Whether public pages may be read without asking.
#[derive(Clone, Copy, PartialEq, Eq, Structural, Debug)]
pub enum PublicWebConsent {
    Ask,
    Allow,
}

/// The settings of web access.
#[derive(Debug, Clone, PartialEq, Eq)]
pub struct WebSettings {
    pub connections: Vec<WebConnection>,
    pub default_connection: Option<String>,
    pub public_web: PublicWebConsent,
}

impl Keyed for EgressPolicy {
    open spec fn key(&self) -> Seq<char> {
        self.name@
    }

    fn key_text(&self) -> (text: &str) {
        self.name.as_str()
    }
}

impl Keyed for McpServer {
    open spec fn key(&self) -> Seq<char> {
        self.name@
    }

    fn key_text(&self) -> (text: &str) {
        self.name.as_str()
    }
}

impl Keyed for McpAllowlist {
    open spec fn key(&self) -> Seq<char> {
        self.server@
    }

    fn key_text(&self) -> (text: &str) {
        self.server.as_str()
    }
}

impl Keyed for Profile {
    open spec fn key(&self) -> Seq<char> {
        self.name@
    }

    fn key_text(&self) -> (text: &str) {
        self.name.as_str()
    }
}

impl Keyed for NamedConnection {
    open spec fn key(&self) -> Seq<char> {
        self.name@
    }

    fn key_text(&self) -> (text: &str) {
        self.name.as_str()
    }
}

impl Keyed for WebConnection {
    open spec fn key(&self) -> Seq<char> {
        self.name@
    }

    fn key_text(&self) -> (text: &str) {
        self.name.as_str()
    }
}

/// All that is configured. Every list has each name once, in the order of the
/// names.
#[derive(Debug, Clone, PartialEq, Eq)]
pub struct ConnectionRegistry {
    pub default_profile: String,
    pub permission_mode: PermissionMode,
    pub connections: Vec<NamedConnection>,
    pub profiles: Vec<Profile>,
    pub mcp_servers: Vec<McpServer>,
    pub egress_policies: Vec<EgressPolicy>,
    pub web: WebSettings,
}

/// Whether the environment of a server names every variable once, in order.
pub open spec fn environment_in_order(declaration: McpServerDeclaration) -> bool {
    declaration matches McpServerDeclaration::Stdio { environment, .. } ==> in_key_order(
        environment@,
    )
}

fn has_environment_order(declaration: &McpServerDeclaration) -> (yes: bool)
    ensures
        yes == environment_in_order(*declaration),
{
    match declaration {
        McpServerDeclaration::Stdio { environment, .. } => has_key_order(environment),
        McpServerDeclaration::StreamableHttp { .. } => true,
    }
}

impl ConnectionRegistry {
    /// Whether every list has each name once, in the order of the names.
    pub open spec fn keyed(self) -> bool {
        &&& in_key_order(self.connections@)
        &&& in_key_order(self.profiles@)
        &&& in_key_order(self.mcp_servers@)
        &&& in_key_order(self.egress_policies@)
        &&& in_key_order(self.web.connections@)
        &&& forall|i: int|
            0 <= i < self.profiles@.len() ==> in_key_order(
                (#[trigger] self.profiles@[i]).mcp_allowlists@,
            )
        &&& forall|i: int|
            0 <= i < self.mcp_servers@.len() ==> environment_in_order(
                (#[trigger] self.mcp_servers@[i]).declaration,
            )
    }

    /// Tells whether every list has each name once, in the order of the names.
    pub fn is_keyed(&self) -> (yes: bool)
        ensures
            yes == self.keyed(),
    {
        if !has_key_order(&self.connections) || !has_key_order(&self.profiles) || !has_key_order(
            &self.mcp_servers,
        ) || !has_key_order(&self.egress_policies) || !has_key_order(&self.web.connections) {
            return false;
        }
        let mut i: usize = 0;
        while i < self.profiles.len()
            invariant
                i <= self.profiles@.len(),
                forall|j: int|
                    0 <= j < i ==> in_key_order((#[trigger] self.profiles@[j]).mcp_allowlists@),
            decreases self.profiles@.len() - i,
        {
            if !has_key_order(&self.profiles[i].mcp_allowlists) {
                return false;
            }
            i += 1;
        }
        let mut i: usize = 0;
        while i < self.mcp_servers.len()
            invariant
                i <= self.mcp_servers@.len(),
                forall|j: int|
                    0 <= j < i ==> environment_in_order((#[trigger] self.mcp_servers@[j]).declaration),
            decreases self.mcp_servers@.len() - i,
        {
            if !has_environment_order(&self.mcp_servers[i].declaration) {
                return false;
            }
            i += 1;
        }
        true
    }
}

/// Where a named profile stands, or the number of profiles.
pub open spec fn profile_index(profiles: Seq<Profile>, name: Seq<char>) -> nat
    decreases profiles.len(),
{
    if profiles.len() == 0 || profiles[0].name@ == name {
        0
    } else {
        1 + profile_index(profiles.drop_first(), name)
    }
}

/// The profile of a name.
pub open spec fn profile_named(profiles: Seq<Profile>, name: Seq<char>) -> Option<Profile> {
    if profile_index(profiles, name) < profiles.len() {
        Some(profiles[profile_index(profiles, name) as int])
    } else {
        None
    }
}

/// Finds where a named profile stands.
pub fn find_profile(profiles: &Vec<Profile>, name: &str) -> (found: Option<usize>)
    ensures
        match found {
            Some(at) => at < profiles@.len() && at == profile_index(profiles@, name@),
            None => profile_index(profiles@, name@) >= profiles@.len(),
        },
{
    let mut i: usize = 0;
    assert(profiles@.skip(0) =~= profiles@);
    while i < profiles.len()
        invariant
            i <= profiles@.len(),
            profile_index(profiles@, name@) == i + profile_index(profiles@.skip(i as int), name@),
        decreases profiles@.len() - i,
    {
        assert(profiles@.skip(i as int).drop_first() =~= profiles@.skip(i + 1));
        if text_eq(profiles[i].name.as_str(), name) {
            return Some(i);
        }
        i += 1;
    }
    None
}

/// The classes that a named policy allows: none where there is no such policy.
pub open spec fn allowed_by(policies: Seq<EgressPolicy>, name: Option<Seq<char>>) -> Seq<
    OutboundDataClass,
>
    decreases policies.len(),
{
    if policies.len() == 0 {
        Seq::empty()
    } else if name == Some(policies[0].name@) {
        policies[0].allowed@
    } else {
        allowed_by(policies.drop_first(), name)
    }
}

/// The classes that a named policy allows.
pub fn policy_classes(policies: &Vec<EgressPolicy>, name: Option<&str>) -> (classes: Vec<
    OutboundDataClass,
>)
    ensures
        classes@ == allowed_by(
            policies@,
            (match name {
                Some(name) => Some(name@),
                None => None,
            }),
        ),
{
    match name {
        None => {
            proof {
                unnamed_allows_nothing(policies@);
            }
            Vec::new()
        },
        Some(wanted) => {
            let mut i: usize = 0;
            assert(policies@.skip(0) =~= policies@);
            while i < policies.len()
                invariant
                    i <= policies@.len(),
                    name == Some(wanted),
                    allowed_by(policies@, Some(wanted@)) == allowed_by(
                        policies@.skip(i as int),
                        Some(wanted@),
                    ),
                decreases policies@.len() - i,
            {
                assert(policies@.skip(i as int).drop_first() =~= policies@.skip(i + 1));
                if text_eq(policies[i].name.as_str(), wanted) {
                    return copy_classes(&policies[i].allowed);
                }
                i += 1;
            }
            Vec::new()
        },
    }
}

proof fn unnamed_allows_nothing(policies: Seq<EgressPolicy>)
    ensures
        allowed_by(policies, None) == Seq::<OutboundDataClass>::empty(),
    decreases policies.len(),
{
    if policies.len() > 0 {
        unnamed_allows_nothing(policies.drop_first());
    }
}

/// The optional name as a reference.
pub fn as_name(name: &Option<String>) -> (held: Option<&str>)
    ensures
        match held {
            Some(text) => option_view(*name) == Some(text@),
            None => *name is None,
        },
{
    match name {
        Some(text) => Some(text.as_str()),
        None => None,
    }
}

proof fn profile_index_finds(profiles: Seq<Profile>, at: int)
    requires
        0 <= at < profiles.len(),
    ensures
        profile_index(profiles, profiles[at].name@) <= at,
        profiles[profile_index(profiles, profiles[at].name@) as int].name@ == profiles[at].name@,
    decreases profiles.len(),
{
    if profiles[0].name@ != profiles[at].name@ {
        let rest = profiles.drop_first();
        assert(rest[at - 1] == profiles[at]);
        profile_index_finds(rest, at - 1);
        let found = profile_index(rest, profiles[at].name@) as int;
        assert(rest[found] == profiles[found + 1]);
    }
}

/// Where a registry has every name once, each profile is the one that is found
/// under its name.
pub proof fn profiles_are_found_by_name(registry: ConnectionRegistry, at: int)
    requires
        registry.keyed(),
        0 <= at < registry.profiles@.len(),
    ensures
        profile_named(registry.profiles@, registry.profiles@[at].name@) == Some(
            registry.profiles@[at],
        ),
{
    profile_index_finds(registry.profiles@, at);
    a_key_has_one_place(
        registry.profiles@,
        profile_index(registry.profiles@, registry.profiles@[at].name@) as int,
        at,
    );
}

proof fn allowed_by_finds(policies: Seq<EgressPolicy>, at: int)
    requires
        in_key_order(policies),
        0 <= at < policies.len(),
    ensures
        allowed_by(policies, Some(policies[at].name@)) == policies[at].allowed@,
    decreases policies.len(),
{
    if policies[0].name@ == policies[at].name@ {
        a_key_has_one_place(policies, 0, at);
    } else {
        let rest = policies.drop_first();
        assert(rest[at - 1] == policies[at]);
        assert forall|i: int, j: int| 0 <= i < j < rest.len() implies before(
            #[trigger] keys(rest)[i],
            #[trigger] keys(rest)[j],
        ) by {
            assert(keys(rest)[i] == keys(policies)[i + 1]);
            assert(keys(rest)[j] == keys(policies)[j + 1]);
        }
        allowed_by_finds(rest, at - 1);
    }
}

/// Where a registry has every name once, a policy's name allows what that policy
/// allows.
pub proof fn policies_are_found_by_name(registry: ConnectionRegistry, at: int)
    requires
        registry.keyed(),
        0 <= at < registry.egress_policies@.len(),
    ensures
        allowed_by(registry.egress_policies@, Some(registry.egress_policies@[at].name@))
            == registry.egress_policies@[at].allowed@,
{
    allowed_by_finds(registry.egress_policies@, at);
}

/// The profile that is found has the name that was looked for, and none before it has;
/// where none is found, no profile has that name.
pub proof fn found_profiles_have_the_name(profiles: Seq<Profile>, name: Seq<char>)
    ensures
        profile_index(profiles, name) <= profiles.len(),
        profile_index(profiles, name) < profiles.len() ==> profiles[profile_index(
            profiles,
            name,
        ) as int].name@ == name,
        forall|i: int|
            0 <= i < profile_index(profiles, name) ==> #[trigger] profiles[i].name@ != name,
    decreases profiles.len(),
{
    if profiles.len() > 0 && profiles[0].name@ != name {
        let rest = profiles.drop_first();
        found_profiles_have_the_name(rest, name);
        assert forall|i: int| 0 <= i < profile_index(profiles, name) implies
            #[trigger] profiles[i].name@ != name by {
            if i > 0 {
                assert(rest[i - 1] == profiles[i]);
            }
        }
    }
}

/// Nothing is allowed to leave without a policy of the name that is asked for, and with
/// one only what a policy of that name allows.
pub proof fn only_a_policy_allows(policies: Seq<EgressPolicy>, name: Option<Seq<char>>)
    ensures
        allowed_by(policies, name).len() > 0 ==> exists|i: int|
            0 <= i < policies.len() && name == Some((#[trigger] policies[i]).name@) && allowed_by(
                policies,
                name,
            ) == policies[i].allowed@,
    decreases policies.len(),
{
    if policies.len() > 0 && name != Some(policies[0].name@) {
        let rest = policies.drop_first();
        only_a_policy_allows(rest, name);
        if allowed_by(policies, name).len() > 0 {
            let at = choose|i: int|
                0 <= i < rest.len() && name == Some((#[trigger] rest[i]).name@) && allowed_by(
                    rest,
                    name,
                ) == rest[i].allowed@;
            assert(rest[at] == policies[at + 1]);
        }
    }
}

}
