//! Configured MCP servers: what is exposed of them and what commands on them
//! decide.

use crate::a2a::plan::copy_bytes;
use crate::config::{
    allowed_by, as_name, find_profile, found_profiles_have_the_name, policy_classes,
    profile_index, ConnectionRegistry, CredentialReference, McpAllowlist, McpPrimitiveSelection,
    McpServer, McpServerDeclaration, PermissionMode, Profile,
};
use crate::digest::{digest, digest_of};
use crate::order::{a_key_has_one_place, ascending, in_key_order, keys, ordered_set};
use crate::outbound::{all_classes, copy_classes, every_class, OutboundDataClass};
use crate::text::{
    before, copy_list, debug_text, decimal, decimal_text, first_index, first_marks_are_first,
    list_has, option_view, quoted, split_once, text_before, text_eq, views,
};
use vstd::prelude::*;
use vstd::string::*;

pub mod activation;
pub mod commands;

verus! {

pub const NO_DEFAULT_PROFILE: &'static str = "default profile is missing";

pub const NO_SERVERS: &'static str = "No MCP servers are configured.\n";

/// Whether a server is enabled.
pub open spec fn is_enabled(declaration: McpServerDeclaration) -> bool {
    match declaration {
        McpServerDeclaration::Stdio { enabled, .. } => enabled,
        McpServerDeclaration::StreamableHttp { enabled, .. } => enabled,
    }
}

/// Whether a server is enabled.
pub fn declaration_enabled(declaration: &McpServerDeclaration) -> (enabled: bool)
    ensures
        enabled == is_enabled(*declaration),
{
    match declaration {
        McpServerDeclaration::Stdio { enabled, .. } => *enabled,
        McpServerDeclaration::StreamableHttp { enabled, .. } => *enabled,
    }
}

/// The policy that a server is held to.
pub open spec fn policy_of(declaration: McpServerDeclaration) -> Option<Seq<char>> {
    match declaration {
        McpServerDeclaration::Stdio { egress_policy, .. } => option_view(egress_policy),
        McpServerDeclaration::StreamableHttp { egress_policy, .. } => option_view(egress_policy),
    }
}

/// The classes that a profile's policy allows.
pub fn resolve_profile_egress(registry: &ConnectionRegistry, policy: Option<&str>) -> (classes: Vec<
    OutboundDataClass,
>)
    ensures
        classes@ == allowed_by(
            registry.egress_policies@,
            (match policy {
                Some(name) => Some(name@),
                None => None,
            }),
        ),
{
    policy_classes(&registry.egress_policies, policy)
}

/// The classes that a server's policy allows.
pub fn resolve_server_egress(registry: &ConnectionRegistry, declaration: &McpServerDeclaration) -> (
    classes: Vec<OutboundDataClass>)
    ensures
        classes@ == allowed_by(registry.egress_policies@, policy_of(*declaration)),
{
    match declaration {
        McpServerDeclaration::Stdio { egress_policy, .. } => policy_classes(
            &registry.egress_policies,
            as_name(egress_policy),
        ),
        McpServerDeclaration::StreamableHttp { egress_policy, .. } => policy_classes(
            &registry.egress_policies,
            as_name(egress_policy),
        ),
    }
}

/// The primitives of a server that may be used, each once and in order.
#[derive(Debug, PartialEq, Eq)]
pub struct McpPrimitiveAllowlist {
    pub tools: Vec<String>,
    pub resources: Vec<String>,
    pub resource_templates: Vec<String>,
    pub prompts: Vec<String>,
}

/// Whether a list holds the texts of another, each once and in order.
pub open spec fn set_of(list: Seq<String>, set: Seq<String>) -> bool {
    &&& ascending(views(set))
    &&& forall|t: Seq<char>| views(set).contains(t) <==> views(list).contains(t)
}

/// Whether an allowlist is that of a selection.
pub open spec fn allows(selection: McpPrimitiveSelection, list: McpPrimitiveAllowlist) -> bool {
    &&& set_of(selection.tools@, list.tools@)
    &&& set_of(selection.resources@, list.resources@)
    &&& set_of(selection.resource_templates@, list.resource_templates@)
    &&& set_of(selection.prompts@, list.prompts@)
}

/// The allowlist of a selection.
pub fn allowlist(selection: &McpPrimitiveSelection) -> (list: McpPrimitiveAllowlist)
    ensures
        allows(*selection, list),
{
    McpPrimitiveAllowlist {
        tools: ordered_set(&selection.tools),
        resources: ordered_set(&selection.resources),
        resource_templates: ordered_set(&selection.resource_templates),
        prompts: ordered_set(&selection.prompts),
    }
}

/// The selection that a profile has of a server, if it has one.
pub open spec fn selection_of(allowlists: Seq<McpAllowlist>, server: Seq<char>) -> Option<
    McpPrimitiveSelection,
>
    decreases allowlists.len(),
{
    if allowlists.len() == 0 {
        None
    } else if allowlists[0].server@ == server {
        Some(allowlists[0].selection)
    } else {
        selection_of(allowlists.drop_first(), server)
    }
}

fn find_selection<'a>(allowlists: &'a Vec<McpAllowlist>, server: &str) -> (found: Option<
    &'a McpPrimitiveSelection,
>)
    ensures
        match found {
            Some(selection) => selection_of(allowlists@, server@) == Some(*selection),
            None => selection_of(allowlists@, server@) is None,
        },
{
    let mut i: usize = 0;
    assert(allowlists@.skip(0) =~= allowlists@);
    while i < allowlists.len()
        invariant
            i <= allowlists@.len(),
            selection_of(allowlists@, server@) == selection_of(allowlists@.skip(i as int), server@),
        decreases allowlists@.len() - i,
    {
        assert(allowlists@.skip(i as int).drop_first() =~= allowlists@.skip(i + 1));
        if text_eq(allowlists[i].server.as_str(), server) {
            return Some(&allowlists[i].selection);
        }
        i += 1;
    }
    None
}

/// How many primitives a selection names, as far as they are counted.
pub open spec fn primitives(selection: Option<McpPrimitiveSelection>) -> u64 {
    match selection {
        None => 0,
        Some(selection) => crate::usage::capped(
            (selection.tools@.len() + selection.resources@.len()
                + selection.resource_templates@.len() + selection.prompts@.len()) as nat,
        ),
    }
}

fn count_primitives(selection: Option<&McpPrimitiveSelection>) -> (count: u64)
    ensures
        count == primitives(
            (match selection {
                Some(selection) => Some(*selection),
                None => None,
            }),
        ),
{
    match selection {
        None => 0,
        Some(selection) => (selection.tools.len() as u64).saturating_add(
            selection.resources.len() as u64,
        ).saturating_add(selection.resource_templates.len() as u64).saturating_add(
            selection.prompts.len() as u64,
        ),
    }
}

/// The row of a configured server.
pub open spec fn server_row(output: Seq<char>, server: McpServer, profile: Profile) -> Seq<char> {
    output + server.name@ + "\t"@ + (match server.declaration {
        McpServerDeclaration::Stdio { .. } => "stdio"@,
        McpServerDeclaration::StreamableHttp { .. } => "streamable_http"@,
    }) + "\t"@ + (if is_enabled(server.declaration) {
        "enabled"@
    } else {
        "disabled"@
    }) + "\t"@ + (if views(profile.mcp_servers@).contains(server.name@) {
        "selected"@
    } else {
        "not selected"@
    }) + "\t"@ + decimal(
        primitives(selection_of(profile.mcp_allowlists@, server.name@)) as nat,
    ) + " primitive(s)\n"@
}

/// The rows of configured servers.
pub open spec fn server_rows(output: Seq<char>, servers: Seq<McpServer>, profile: Profile) -> Seq<
    char,
>
    decreases servers.len(),
{
    if servers.len() == 0 {
        output
    } else {
        server_row(server_rows(output, servers.drop_last(), profile), servers.last(), profile)
    }
}

/// Lists the configured servers, and what the default profile exposes of each.
pub fn list_configured(registry: &ConnectionRegistry, output: &mut String) -> (listed: Result<
    (),
    String,
>)
    ensures
        ({
            let at = profile_index(registry.profiles@, registry.default_profile@);
            if at >= registry.profiles@.len() {
                &&& listed matches Err(text)
                &&& text@ == NO_DEFAULT_PROFILE@
                &&& final(output)@ == old(output)@
            } else if registry.mcp_servers@.len() == 0 {
                &&& listed is Ok
                &&& final(output)@ == old(output)@ + NO_SERVERS@
            } else {
                &&& listed is Ok
                &&& final(output)@ == server_rows(
                    old(output)@,
                    registry.mcp_servers@,
                    registry.profiles@[at as int],
                )
            }
        }),
{
    let at = match find_profile(&registry.profiles, registry.default_profile.as_str()) {
        Some(at) => at,
        None => {
            return Err(NO_DEFAULT_PROFILE.to_owned());
        },
    };
    let profile = &registry.profiles[at];
    if registry.mcp_servers.len() == 0 {
        output.append(NO_SERVERS);
        return Ok(());
    }
    let mut i: usize = 0;
    while i < registry.mcp_servers.len()
        invariant
            i <= registry.mcp_servers@.len(),
            output@ == server_rows(old(output)@, registry.mcp_servers@.take(i as int), *profile),
        decreases registry.mcp_servers@.len() - i,
    {
        assert(registry.mcp_servers@.take(i + 1).drop_last() =~= registry.mcp_servers@.take(
            i as int,
        ));
        let server = &registry.mcp_servers[i];
        output.append(server.name.as_str());
        output.append("\t");
        output.append(
            match &server.declaration {
                McpServerDeclaration::Stdio { .. } => "stdio",
                McpServerDeclaration::StreamableHttp { .. } => "streamable_http",
            },
        );
        output.append("\t");
        output.append(
            if declaration_enabled(&server.declaration) {
                "enabled"
            } else {
                "disabled"
            },
        );
        output.append("\t");
        output.append(
            if list_has(&profile.mcp_servers, server.name.as_str()) {
                "selected"
            } else {
                "not selected"
            },
        );
        output.append("\t");
        output.append(
            decimal_text(
                count_primitives(find_selection(&profile.mcp_allowlists, server.name.as_str())),
            ).as_str(),
        );
        output.append(" primitive(s)\n");
        i += 1;
    }
    assert(registry.mcp_servers@.take(i as int) =~= registry.mcp_servers@);
    Ok(())
}

/// A digit of a hexadecimal number.
pub open spec fn hex_digit(value: nat) -> char {
    if value < 10 {
        crate::text::digit(value)
    } else if value == 10 {
        'a'
    } else if value == 11 {
        'b'
    } else if value == 12 {
        'c'
    } else if value == 13 {
        'd'
    } else if value == 14 {
        'e'
    } else {
        'f'
    }
}

/// The hexadecimal text of bytes, two digits each.
pub open spec fn hex_of(bytes: Seq<u8>) -> Seq<char>
    decreases bytes.len(),
{
    if bytes.len() == 0 {
        Seq::empty()
    } else {
        hex_of(bytes.drop_last()).push(hex_digit((bytes.last() / 16) as nat)).push(
            hex_digit((bytes.last() % 16) as nat),
        )
    }
}

fn hex_char(value: u8) -> (c: char)
    requires
        value < 16,
    ensures
        c == hex_digit(value as nat),
{
    match value {
        0 => '0',
        1 => '1',
        2 => '2',
        3 => '3',
        4 => '4',
        5 => '5',
        6 => '6',
        7 => '7',
        8 => '8',
        9 => '9',
        10 => 'a',
        11 => 'b',
        12 => 'c',
        13 => 'd',
        14 => 'e',
        _ => 'f',
    }
}

/// The digest that identifies a configured server: that of its encoded
/// declaration, as hexadecimal text.
pub fn configured_identity_digest(encoded: &Vec<u8>) -> (text: String)
    ensures
        text@ == hex_of(digest_of(encoded@)@),
{
    let hash = digest(encoded.as_slice());
    let mut text = String::new();
    let mut i: usize = 0;
    assert(text@ =~= hex_of(hash@.take(0)));
    while i < 32
        invariant
            i <= 32,
            text@ == hex_of(hash@.take(i as int)),
        decreases 32 - i,
    {
        assert(hash@.take(i + 1).drop_last() =~= hash@.take(i as int));
        assert(hash@.take(i + 1).last() == hash[i as int]);
        text.push(hex_char(hash[i] / 16));
        text.push(hex_char(hash[i] % 16));
        i += 1;
    }
    assert(hash@.take(32) =~= hash@);
    text
}

pub const KEY_VALUE: &'static str = "MCP prompt arguments must use KEY=VALUE";

pub const UNIQUE_NAMES: &'static str = "MCP prompt argument names must be non-empty and unique";

/// A named value, by content.
pub type Named = (Seq<char>, Seq<char>);

/// Where a name stands among named values in order, or would stand.
pub open spec fn name_slot(values: Seq<Named>, name: Seq<char>) -> nat
    decreases values.len(),
{
    if values.len() > 0 && before(values[0].0, name) {
        1 + name_slot(values.drop_first(), name)
    } else {
        0
    }
}

/// The named values that arguments spell, in the order of their names, or why
/// they spell none.
pub open spec fn named_values(arguments: Seq<Seq<char>>) -> Result<Seq<Named>, Seq<char>>
    decreases arguments.len(),
{
    if arguments.len() == 0 {
        Ok(Seq::empty())
    } else {
        match named_values(arguments.drop_last()) {
            Err(error) => Err(error),
            Ok(earlier) => {
                let argument = arguments.last();
                let at = first_index(argument, '=') as int;
                if at >= argument.len() {
                    Err(KEY_VALUE@)
                } else {
                    let name = argument.take(at);
                    let slot = name_slot(earlier, name) as int;
                    if name.len() == 0 || (slot < earlier.len() && earlier[slot].0 == name) {
                        Err(UNIQUE_NAMES@)
                    } else {
                        Ok(earlier.insert(slot, (name, argument.skip(at + 1))))
                    }
                }
            },
        }
    }
}

/// The contents of named values.
pub open spec fn named_views(values: Seq<(String, String)>) -> Seq<Named> {
    values.map_values(|value: (String, String)| (value.0@, value.1@))
}

fn find_name(values: &Vec<(String, String)>, name: &str) -> (at: usize)
    ensures
        at == name_slot(named_views(values@), name@),
        at <= values@.len(),
{
    let ghost named = named_views(values@);
    let mut at: usize = 0;
    assert(named.skip(0) =~= named);
    while at < values.len() && text_before(values[at].0.as_str(), name)
        invariant
            named == named_views(values@),
            at <= values@.len(),
            name_slot(named, name@) == at + name_slot(named.skip(at as int), name@),
        decreases values@.len() - at,
    {
        assert(named.skip(at as int).drop_first() =~= named.skip(at + 1));
        assert(named.skip(at as int)[0] == (values@[at as int].0@, values@[at as int].1@));
        at += 1;
    }
    assert(at < named.len() ==> named.skip(at as int)[0] == (
        values@[at as int].0@,
        values@[at as int].1@,
    ));
    at
}

proof fn spelling_fails_for_good(arguments: Seq<Seq<char>>, upto: int)
    requires
        0 <= upto <= arguments.len(),
        named_values(arguments.take(upto)) is Err,
    ensures
        named_values(arguments) == named_values(arguments.take(upto)),
    decreases arguments.len() - upto,
{
    if upto < arguments.len() {
        assert(arguments.take(upto + 1).drop_last() =~= arguments.take(upto));
        spelling_fails_for_good(arguments, upto + 1);
    } else {
        assert(arguments.take(upto) =~= arguments);
    }
}

/// Reads the arguments of a prompt.
pub fn parse_arguments(arguments: &Vec<String>) -> (parsed: Result<Vec<(String, String)>, String>)
    ensures
        match parsed {
            Ok(values) => named_values(views(arguments@)) == Ok::<Seq<Named>, Seq<char>>(
                named_views(values@),
            ),
            Err(text) => named_values(views(arguments@)) == Err::<Seq<Named>, Seq<char>>(text@),
        },
{
    let ghost texts = views(arguments@);
    let mut values: Vec<(String, String)> = Vec::new();
    let mut i: usize = 0;
    assert(named_views(values@) =~= Seq::<Named>::empty());
    assert(texts.take(0) =~= Seq::<Seq<char>>::empty());
    while i < arguments.len()
        invariant
            texts == views(arguments@),
            i <= arguments@.len(),
            named_values(texts.take(i as int)) == Ok::<Seq<Named>, Seq<char>>(
                named_views(values@),
            ),
        decreases arguments@.len() - i,
    {
        assert(texts.take(i + 1).drop_last() =~= texts.take(i as int));
        assert(texts.take(i + 1).last() == arguments@[i as int]@);
        let (name, value) = match split_once(arguments[i].as_str(), '=') {
            Some(pair) => pair,
            None => {
                proof {
                    spelling_fails_for_good(texts, i + 1);
                }
                return Err(KEY_VALUE.to_owned());
            },
        };
        let at = find_name(&values, name.as_str());
        if name.as_str().is_empty() || (at < values.len() && text_eq(
            values[at].0.as_str(),
            name.as_str(),
        )) {
            proof {
                spelling_fails_for_good(texts, i + 1);
            }
            return Err(UNIQUE_NAMES.to_owned());
        }
        let ghost earlier = named_views(values@);
        let ghost entry = (name@, value@);
        values.insert(at, (name, value));
        assert(named_views(values@) =~= earlier.insert(at as int, entry));
        i += 1;
    }
    assert(texts.take(i as int) =~= texts);
    Ok(values)
}

/// Where a configured server stands, or the number of servers.
pub open spec fn server_index(servers: Seq<McpServer>, name: Seq<char>) -> nat
    decreases servers.len(),
{
    if servers.len() == 0 || servers[0].name@ == name {
        0
    } else {
        1 + server_index(servers.drop_first(), name)
    }
}

fn find_server(servers: &Vec<McpServer>, name: &str) -> (found: Option<usize>)
    ensures
        match found {
            Some(at) => at < servers@.len() && at == server_index(servers@, name@),
            None => server_index(servers@, name@) >= servers@.len(),
        },
{
    let mut i: usize = 0;
    assert(servers@.skip(0) =~= servers@);
    while i < servers.len()
        invariant
            i <= servers@.len(),
            server_index(servers@, name@) == i + server_index(servers@.skip(i as int), name@),
        decreases servers@.len() - i,
    {
        assert(servers@.skip(i as int).drop_first() =~= servers@.skip(i + 1));
        if text_eq(servers[i].name.as_str(), name) {
            return Some(i);
        }
        i += 1;
    }
    None
}

/// How a server is reached once it is used. A process is started in its own
/// directory, or in the workspace where it has none.
#[derive(Debug, PartialEq, Eq)]
pub enum TransportSpec {
    Stdio {
        command: String,
        arguments: Vec<String>,
        environment: Vec<(String, String)>,
        directory: String,
    },
    Http { url: String, credential: Option<CredentialReference> },
}

/// Whether a server is reached as it is declared.
pub open spec fn reaches(
    declaration: McpServerDeclaration,
    workspace: Seq<char>,
    transport: TransportSpec,
) -> bool {
    match declaration {
        McpServerDeclaration::Stdio { command, args, environment, cwd, .. } => {
            &&& transport matches TransportSpec::Stdio {
                command: c,
                arguments,
                environment: e,
                directory,
            }
            &&& c == command
            &&& arguments@ == args@
            &&& e@ == environment@
            &&& directory@ == (match cwd {
                Some(cwd) => cwd@,
                None => workspace,
            })
        },
        McpServerDeclaration::StreamableHttp { url, credential, .. } => transport
            == (TransportSpec::Http { url, credential }),
    }
}

fn copy_pairs(pairs: &Vec<(String, String)>) -> (copy: Vec<(String, String)>)
    ensures
        copy@ == pairs@,
{
    let mut copy: Vec<(String, String)> = Vec::new();
    let mut i: usize = 0;
    assert(copy@ =~= pairs@.take(0));
    while i < pairs.len()
        invariant
            i <= pairs@.len(),
            copy@ == pairs@.take(i as int),
        decreases pairs@.len() - i,
    {
        copy.push((pairs[i].0.clone(), pairs[i].1.clone()));
        assert(copy@ =~= pairs@.take(i + 1));
        i += 1;
    }
    assert(pairs@.take(i as int) =~= pairs@);
    copy
}

fn copy_credential(credential: &Option<CredentialReference>) -> (copy: Option<CredentialReference>)
    ensures
        copy == *credential,
{
    match credential {
        Some(CredentialReference::Environment { variable }) => Some(
            CredentialReference::Environment { variable: variable.clone() },
        ),
        Some(CredentialReference::Stored { id }) => Some(
            CredentialReference::Stored { id: id.clone() },
        ),
        None => None,
    }
}

fn transport_of(declaration: &McpServerDeclaration, workspace: &str) -> (transport: TransportSpec)
    ensures
        reaches(*declaration, workspace@, transport),
{
    match declaration {
        McpServerDeclaration::Stdio { command, args, environment, cwd, .. } => {
            TransportSpec::Stdio {
                command: command.clone(),
                arguments: copy_list(args),
                environment: copy_pairs(environment),
                directory: match cwd {
                    Some(cwd) => cwd.clone(),
                    None => workspace.to_owned(),
                },
            }
        },
        McpServerDeclaration::StreamableHttp { url, credential, .. } => TransportSpec::Http {
            url: url.clone(),
            credential: copy_credential(credential),
        },
    }
}

/// A server that is started when it is first used, and then kept.
#[derive(Clone, Copy, PartialEq, Eq, Structural, Debug)]
pub struct DeferredTransport {
    pub started: bool,
}

impl DeferredTransport {
    /// A server that is not started.
    pub fn new() -> (transport: DeferredTransport)
        ensures
            !transport.started,
    {
        DeferredTransport { started: false }
    }

    /// Whether the server has to be started before it is used.
    pub fn must_start(&self) -> (yes: bool)
        ensures
            yes == !self.started,
    {
        !self.started
    }

    /// Notes what came of starting it: a start that failed is tried again.
    pub fn note_start(&mut self, succeeded: bool)
        ensures
            final(self).started == (old(self).started || succeeded),
    {
        if succeeded {
            self.started = true;
        }
    }
}

/// Whom a server's traffic is for, as it is shown and approved: a process by its
/// command and by what is configured of it, and an endpoint by its address. A plain
/// connection is admitted to this machine only.
#[derive(Debug, PartialEq, Eq)]
pub enum RecipientSource {
    Process { connection: String, command: String, declaration: Vec<u8> },
    Endpoint { connection: String, url: String, allow_loopback_http: bool },
}

/// Whether a recipient is that of a server.
pub open spec fn receives(
    server: Seq<char>,
    declaration: McpServerDeclaration,
    encoded: Seq<u8>,
    recipient: RecipientSource,
) -> bool {
    match declaration {
        McpServerDeclaration::Stdio { command, .. } => {
            &&& recipient matches RecipientSource::Process {
                connection,
                command: c,
                declaration: bytes,
            }
            &&& connection@ == server
            &&& c == command
            &&& bytes@ == encoded
        },
        McpServerDeclaration::StreamableHttp { url, .. } => {
            &&& recipient matches RecipientSource::Endpoint {
                connection,
                url: u,
                allow_loopback_http,
            }
            &&& connection@ == server
            &&& u == url
            &&& allow_loopback_http
        },
    }
}

fn recipient_of(server: &str, declaration: &McpServerDeclaration, encoded: &Vec<u8>) -> (recipient:
    RecipientSource)
    ensures
        receives(server@, *declaration, encoded@, recipient),
{
    match declaration {
        McpServerDeclaration::Stdio { command, .. } => RecipientSource::Process {
            connection: server.to_owned(),
            command: command.clone(),
            declaration: copy_bytes(encoded),
        },
        McpServerDeclaration::StreamableHttp { url, .. } => RecipientSource::Endpoint {
            connection: server.to_owned(),
            url: url.clone(),
            allow_loopback_http: true,
        },
    }
}

/// What a profile exposes of one selected server.
#[derive(Debug, PartialEq, Eq)]
pub struct McpServerExposure {
    pub server: String,
    pub configured_identity_digest: String,
    pub enabled: bool,
    pub allowlist: McpPrimitiveAllowlist,
    pub transport: TransportSpec,
    pub recipient: RecipientSource,
    pub connection_allowed: Vec<OutboundDataClass>,
    pub user_ceiling: Vec<OutboundDataClass>,
    pub profile_allowed: Vec<OutboundDataClass>,
}

/// Whether an exposure is what a profile exposes of a server: by the selection it
/// has of it, which is empty where it has none.
pub open spec fn exposes(
    registry: ConnectionRegistry,
    encoded: Seq<Vec<u8>>,
    workspace: Seq<char>,
    allowlists: Seq<McpAllowlist>,
    profile_egress: Seq<OutboundDataClass>,
    server: Seq<char>,
    exposure: McpServerExposure,
) -> bool {
    let at = server_index(registry.mcp_servers@, server);
    &&& exposure.server@ == server
    &&& at < registry.mcp_servers@.len()
    &&& exposure.configured_identity_digest@ == hex_of(digest_of(encoded[at as int]@)@)
    &&& reaches(registry.mcp_servers@[at as int].declaration, workspace, exposure.transport)
    &&& exposure.enabled == is_enabled(registry.mcp_servers@[at as int].declaration)
    &&& exposure.connection_allowed@ == allowed_by(
        registry.egress_policies@,
        policy_of(registry.mcp_servers@[at as int].declaration),
    )
    &&& receives(
        server,
        registry.mcp_servers@[at as int].declaration,
        encoded[at as int]@,
        exposure.recipient,
    )
    &&& exposure.user_ceiling@ == all_classes()
    &&& exposure.profile_allowed@ == profile_egress
    &&& match selection_of(allowlists, server) {
        Some(selection) => allows(selection, exposure.allowlist),
        None => exposure.allowlist.tools@.len() == 0 && exposure.allowlist.resources@.len() == 0
            && exposure.allowlist.resource_templates@.len() == 0
            && exposure.allowlist.prompts@.len() == 0,
    }
}

/// Decides what is exposed of each selected server, by the encoded declarations of
/// the servers. Nothing is started by it.
pub fn build_application(
    registry: &ConnectionRegistry,
    encoded: &Vec<Vec<u8>>,
    workspace: &str,
    selected: &Vec<String>,
    allowlists: &Vec<McpAllowlist>,
    profile_egress: &Vec<OutboundDataClass>,
) -> (application: Result<Vec<McpServerExposure>, String>)
    requires
        encoded@.len() == registry.mcp_servers@.len(),
    ensures
        match application {
            Ok(exposures) => {
                &&& exposures@.len() == selected@.len()
                &&& forall|i: int|
                    0 <= i < selected@.len() ==> exposes(
                        *registry,
                        encoded@,
                        workspace@,
                        allowlists@,
                        profile_egress@,
                        selected@[i]@,
                        #[trigger] exposures@[i],
                    )
            },
            Err(text) => exists|i: int|
                0 <= i < selected@.len() && #[trigger] missing(*registry, selected@[i]@)
                    && text@ == "profile references missing MCP server "@ + debug_text(
                    selected@[i]@,
                ) && forall|j: int|
                    0 <= j < i ==> !#[trigger] missing(*registry, selected@[j]@),
        },
{
    let mut exposures: Vec<McpServerExposure> = Vec::new();
    let mut i: usize = 0;
    while i < selected.len()
        invariant
            encoded@.len() == registry.mcp_servers@.len(),
            i <= selected@.len(),
            exposures@.len() == i,
            forall|j: int|
                0 <= j < i ==> exposes(
                    *registry,
                    encoded@,
                    workspace@,
                    allowlists@,
                    profile_egress@,
                    selected@[j]@,
                    #[trigger] exposures@[j],
                ),
            forall|j: int| 0 <= j < i ==> !#[trigger] missing(*registry, selected@[j]@),
        decreases selected@.len() - i,
    {
        let name = selected[i].as_str();
        let at = match find_server(&registry.mcp_servers, name) {
            Some(at) => at,
            None => {
                assert(missing(*registry, selected@[i as int]@));
                let mut text = "profile references missing MCP server ".to_owned();
                text.append(quoted(name).as_str());
                return Err(text);
            },
        };
        let declaration = &registry.mcp_servers[at].declaration;
        let list = match find_selection(allowlists, name) {
            Some(selection) => allowlist(selection),
            None => McpPrimitiveAllowlist {
                tools: Vec::new(),
                resources: Vec::new(),
                resource_templates: Vec::new(),
                prompts: Vec::new(),
            },
        };
        exposures.push(
            McpServerExposure {
                server: name.to_owned(),
                configured_identity_digest: configured_identity_digest(&encoded[at]),
                enabled: declaration_enabled(declaration),
                allowlist: list,
                transport: transport_of(declaration, workspace),
                recipient: recipient_of(name, declaration, &encoded[at]),
                connection_allowed: resolve_server_egress(registry, declaration),
                user_ceiling: every_class(),
                profile_allowed: copy_classes(profile_egress),
            },
        );
        i += 1;
    }
    Ok(exposures)
}

/// Whether a selected server is not configured.
pub open spec fn missing(registry: ConnectionRegistry, server: Seq<char>) -> bool {
    server_index(registry.mcp_servers@, server) >= registry.mcp_servers@.len()
}

/// What was decided about contacting a server.
#[derive(Clone, Copy, PartialEq, Eq, Structural, Debug)]
pub enum Disposition {
    SavedAllow,
    SavedDeny,
    Undecided,
}

/// Whether a profile contacts a server when it is activated: only one that the
/// owner allowed for good.
pub fn activates_server(disposition: Option<Disposition>) -> (yes: bool)
    ensures
        yes == (disposition == Some(Disposition::SavedAllow)),
{
    match disposition {
        Some(Disposition::SavedAllow) => true,
        _ => false,
    }
}

pub const SERVE_WORKSPACE: &'static str = "MCP workspace must be an existing directory";

pub const SERVE_ALLOWLIST: &'static str = "the bounded local server currently supports only exact `--allow xana_docs`";

pub const DOCS_TOOL: &'static str = "xana_docs";

pub const DOCS_CAPABILITY: &'static str = "xana.docs.read";

/// The permission that a profile's calls are decided by.
pub open spec fn effective_permission(registry: ConnectionRegistry, profile: Profile) -> PermissionMode {
    match profile.permission_mode {
        Some(mode) => mode,
        None => registry.permission_mode,
    }
}

/// A sentence about a profile.
pub open spec fn about_profile(head: Seq<char>, profile: Seq<char>, what: Seq<char>) -> Seq<char> {
    head + debug_text(profile) + what
}

/// Why a profile cannot be served from a workspace, if it cannot.
pub open spec fn serving_refusal(
    directory: bool,
    registry: ConnectionRegistry,
    profile_name: Seq<char>,
    allow: Seq<Seq<char>>,
) -> Option<Seq<char>> {
    let at = profile_index(registry.profiles@, profile_name);
    if !directory {
        Some(SERVE_WORKSPACE@)
    } else if at >= registry.profiles@.len() {
        Some(about_profile("unknown MCP server profile "@, profile_name, ""@))
    } else {
        let profile = registry.profiles@[at as int];
        if profile.archived {
            Some(about_profile("MCP server profile "@, profile_name, " is archived"@))
        } else if effective_permission(registry, profile) != PermissionMode::Allow {
            Some(
                about_profile(
                    "MCP server profile "@,
                    profile_name,
                    " must use permission_mode = \"allow\"; noninteractive ask/deny policy cannot authorize calls"@,
                ),
            )
        } else if !only_docs(allow) {
            Some(SERVE_ALLOWLIST@)
        } else if profile.capabilities matches Some(capabilities) && !views(capabilities@).contains(
            DOCS_CAPABILITY@,
        ) {
            Some(
                about_profile(
                    "profile "@,
                    profile_name,
                    " does not select the xana.docs.read capability required by xana_docs"@,
                ),
            )
        } else {
            None
        }
    }
}

/// Whether the documentation tool, and nothing else, is asked for.
pub open spec fn only_docs(allow: Seq<Seq<char>>) -> bool {
    allow.len() > 0 && forall|i: int| 0 <= i < allow.len() ==> #[trigger] allow[i] == DOCS_TOOL@
}

fn asks_only_docs(allow: &Vec<String>) -> (yes: bool)
    ensures
        yes == only_docs(views(allow@)),
{
    if allow.len() == 0 {
        return false;
    }
    let mut i: usize = 0;
    while i < allow.len()
        invariant
            i <= allow@.len(),
            forall|j: int| 0 <= j < i ==> #[trigger] views(allow@)[j] == DOCS_TOOL@,
        decreases allow@.len() - i,
    {
        if !text_eq(allow[i].as_str(), DOCS_TOOL) {
            assert(views(allow@)[i as int] != DOCS_TOOL@);
            return false;
        }
        i += 1;
    }
    true
}

fn say_profile(head: &str, profile: &str, what: &str) -> (text: String)
    ensures
        text@ == about_profile(head@, profile@, what@),
{
    let mut text = head.to_owned();
    text.append(quoted(profile).as_str());
    text.append(what);
    text
}

/// Decides whether a profile may be served to local clients from a workspace,
/// which has to be a directory.
pub fn admit_serving(
    directory: bool,
    registry: &ConnectionRegistry,
    profile_name: &str,
    allow: &Vec<String>,
) -> (admitted: Result<(), String>)
    ensures
        match serving_refusal(directory, *registry, profile_name@, views(allow@)) {
            None => admitted is Ok,
            Some(reason) => admitted matches Err(text) && text@ == reason,
        },
{
    if !directory {
        return Err(SERVE_WORKSPACE.to_owned());
    }
    let at = match find_profile(&registry.profiles, profile_name) {
        Some(at) => at,
        None => {
            return Err(say_profile("unknown MCP server profile ", profile_name, ""));
        },
    };
    let profile = &registry.profiles[at];
    if profile.archived {
        return Err(say_profile("MCP server profile ", profile_name, " is archived"));
    }
    let permission = match profile.permission_mode {
        Some(mode) => mode,
        None => registry.permission_mode,
    };
    match permission {
        PermissionMode::Allow => {},
        _ => {
            return Err(
                say_profile(
                    "MCP server profile ",
                    profile_name,
                    " must use permission_mode = \"allow\"; noninteractive ask/deny policy cannot authorize calls",
                ),
            );
        },
    }
    if !asks_only_docs(allow) {
        return Err(SERVE_ALLOWLIST.to_owned());
    }
    match &profile.capabilities {
        Some(capabilities) => {
            if !list_has(capabilities, DOCS_CAPABILITY) {
                return Err(
                    say_profile(
                        "profile ",
                        profile_name,
                        " does not select the xana.docs.read capability required by xana_docs",
                    ),
                );
            }
        },
        None => {},
    }
    Ok(())
}

/// What is read off the arguments of a prompt has every name once, in order.
pub proof fn prompt_names_are_unique(arguments: Seq<Seq<char>>)
    ensures
        named_values(arguments) matches Ok(values) ==> values.len() == arguments.len() && forall|
            i: int,
            j: int,
        |
            0 <= i < j < values.len() ==> before((#[trigger] values[i]).0, (#[trigger] values[j]).0),
    decreases arguments.len(),
{
    if arguments.len() > 0 {
        prompt_names_are_unique(arguments.drop_last());
        if let Ok(earlier) = named_values(arguments.drop_last()) {
            if let Ok(values) = named_values(arguments) {
                let argument = arguments.last();
                let at = first_index(argument, '=') as int;
                let name = argument.take(at);
                let slot = name_slot(earlier, name) as int;
                slot_parts(earlier, name);
                assert forall|i: int, j: int| 0 <= i < j < values.len() implies before(
                    (#[trigger] values[i]).0,
                    (#[trigger] values[j]).0,
                ) by {
                    let left = if i < slot {
                        i
                    } else {
                        i - 1
                    };
                    let right = if j < slot {
                        j
                    } else {
                        j - 1
                    };
                    if i != slot {
                        assert(values[i] == earlier[left]);
                    }
                    if j != slot {
                        assert(values[j] == earlier[right]);
                    }
                }
            }
        }
    }
}

proof fn slot_parts(values: Seq<Named>, name: Seq<char>)
    requires
        forall|i: int, j: int|
            0 <= i < j < values.len() ==> before((#[trigger] values[i]).0, (#[trigger] values[j]).0),
    ensures
        name_slot(values, name) <= values.len(),
        forall|i: int| 0 <= i < name_slot(values, name) ==> before((#[trigger] values[i]).0, name),
        (name_slot(values, name) < values.len() && values[name_slot(values, name) as int].0 == name)
            || forall|i: int|
            name_slot(values, name) <= i < values.len() ==> before(name, (#[trigger] values[i]).0),
    decreases values.len(),
{
    if values.len() > 0 && before(values[0].0, name) {
        let rest = values.drop_first();
        assert forall|i: int, j: int| 0 <= i < j < rest.len() implies before(
            (#[trigger] rest[i]).0,
            (#[trigger] rest[j]).0,
        ) by {
            assert(rest[i] == values[i + 1]);
            assert(rest[j] == values[j + 1]);
        }
        slot_parts(rest, name);
        let inner = name_slot(rest, name);
        assert forall|i: int| 0 <= i < inner + 1 implies before((#[trigger] values[i]).0, name) by {
            if i > 0 {
                assert(values[i] == rest[i - 1]);
            }
        }
        if !(inner < rest.len() && rest[inner as int].0 == name) {
            assert forall|i: int| inner + 1 <= i < values.len() implies before(
                name,
                (#[trigger] values[i]).0,
            ) by {
                assert(values[i] == rest[i - 1]);
            }
        }
    } else if values.len() > 0 {
        crate::order::before_is_total(values[0].0, name);
        if values[0].0 != name {
            assert forall|i: int| 0 <= i < values.len() implies before(
                name,
                (#[trigger] values[i]).0,
            ) by {
                if i > 0 {
                    crate::order::before_is_transitive(name, values[0].0, values[i].0);
                }
            }
        }
    }
}

/// The rows of configured servers, one by one.
pub open spec fn server_lines(servers: Seq<McpServer>, profile: Profile) -> Seq<Seq<char>> {
    Seq::new(servers.len(), |i: int| server_row(Seq::empty(), servers[i], profile))
}

proof fn a_row_follows(output: Seq<char>, server: McpServer, profile: Profile)
    ensures
        server_row(output, server, profile) == output + server_row(Seq::empty(), server, profile),
{
    let none = Seq::<char>::empty();
    let kind = match server.declaration {
        McpServerDeclaration::Stdio { .. } => "stdio"@,
        McpServerDeclaration::StreamableHttp { .. } => "streamable_http"@,
    };
    let state = if is_enabled(server.declaration) {
        "enabled"@
    } else {
        "disabled"@
    };
    let choice = if views(profile.mcp_servers@).contains(server.name@) {
        "selected"@
    } else {
        "not selected"@
    };
    let count = decimal(primitives(selection_of(profile.mcp_allowlists@, server.name@)) as nat);
    let tab = "\t"@;
    let a = none + server.name@ + tab + kind + tab;
    let b = a + state + tab + choice + tab;
    assert(output + server.name@ + tab + kind + tab =~= output + a);
    assert(output + a + state + tab + choice + tab =~= output + b);
    assert(output + b + count + " primitive(s)\n"@ =~= output + (b + count + " primitive(s)\n"@));
}

proof fn rows_are_lines(output: Seq<char>, servers: Seq<McpServer>, profile: Profile)
    ensures
        server_rows(output, servers, profile) == output + server_lines(
            servers,
            profile,
        ).flatten_alt(),
    decreases servers.len(),
{
    let lines = server_lines(servers, profile);
    if servers.len() == 0 {
        assert(output + Seq::<char>::empty() =~= output);
    } else {
        let earlier = servers.drop_last();
        rows_are_lines(output, earlier, profile);
        assert(lines.drop_last() =~= server_lines(earlier, profile));
        let start = server_rows(output, earlier, profile);
        let server = servers.last();
        a_row_follows(start, server, profile);
        assert(start + lines.last() =~= output + (lines.drop_last().flatten_alt() + lines.last()));
    }
}

/// The configured servers are listed in the order of their names: one row for
/// each, which begins with the name.
pub proof fn servers_are_listed_by_name(
    output: Seq<char>,
    registry: ConnectionRegistry,
    profile: Profile,
)
    requires
        registry.keyed(),
    ensures
        ascending(keys(registry.mcp_servers@)),
        server_rows(output, registry.mcp_servers@, profile) == output + server_lines(
            registry.mcp_servers@,
            profile,
        ).flatten_alt(),
        forall|i: int|
            0 <= i < registry.mcp_servers@.len() ==> (keys(registry.mcp_servers@)[i]
                + "\t"@).is_prefix_of(#[trigger] server_lines(registry.mcp_servers@, profile)[i]),
{
    let servers = registry.mcp_servers@;
    rows_are_lines(output, servers, profile);
    assert forall|i: int| 0 <= i < servers.len() implies (keys(servers)[i] + "\t"@).is_prefix_of(
        #[trigger] server_lines(servers, profile)[i],
    ) by {
        let line = server_lines(servers, profile)[i];
        let start = servers[i].name@ + "\t"@;
        assert(line.subrange(0, start.len() as int) =~= start);
    }
}

proof fn selection_of_finds(allowlists: Seq<McpAllowlist>, at: int)
    requires
        in_key_order(allowlists),
        0 <= at < allowlists.len(),
    ensures
        selection_of(allowlists, allowlists[at].server@) == Some(allowlists[at].selection),
    decreases allowlists.len(),
{
    if allowlists[0].server@ == allowlists[at].server@ {
        a_key_has_one_place(allowlists, 0, at);
    } else {
        let rest = allowlists.drop_first();
        assert(rest[at - 1] == allowlists[at]);
        assert forall|i: int, j: int| 0 <= i < j < rest.len() implies before(
            #[trigger] keys(rest)[i],
            #[trigger] keys(rest)[j],
        ) by {
            assert(keys(rest)[i] == keys(allowlists)[i + 1]);
            assert(keys(rest)[j] == keys(allowlists)[j + 1]);
        }
        selection_of_finds(rest, at - 1);
    }
}

/// Each allowlist of a profile is the one that is found under its server.
pub proof fn selections_are_found_by_server(registry: ConnectionRegistry, profile: int, at: int)
    requires
        registry.keyed(),
        0 <= profile < registry.profiles@.len(),
        0 <= at < registry.profiles@[profile].mcp_allowlists@.len(),
    ensures
        selection_of(
            registry.profiles@[profile].mcp_allowlists@,
            registry.profiles@[profile].mcp_allowlists@[at].server@,
        ) == Some(registry.profiles@[profile].mcp_allowlists@[at].selection),
{
    selection_of_finds(registry.profiles@[profile].mcp_allowlists@, at);
}

/// The server that is found has the name that was looked for, and is the first that has;
/// where none is found, none has it.
pub proof fn found_servers_have_the_name(servers: Seq<McpServer>, name: Seq<char>)
    ensures
        server_index(servers, name) <= servers.len(),
        server_index(servers, name) < servers.len() ==> servers[server_index(
            servers,
            name,
        ) as int].name@ == name,
        forall|i: int| 0 <= i < server_index(servers, name) ==> #[trigger] servers[i].name@ != name,
    decreases servers.len(),
{
    if servers.len() > 0 && servers[0].name@ != name {
        let rest = servers.drop_first();
        found_servers_have_the_name(rest, name);
        assert forall|i: int| 0 <= i < server_index(servers, name) implies
            #[trigger] servers[i].name@ != name by {
            if i > 0 {
                assert(rest[i - 1] == servers[i]);
            }
        }
    }
}

/// A profile is served only from a directory, where it exists, is not archived, allows
/// calls without asking and has the documentation's capability, and only for exactly the
/// documentation tool.
pub proof fn served_profiles_are_safe(
    directory: bool,
    registry: ConnectionRegistry,
    profile_name: &str,
    allow: Vec<String>,
    admitted: Result<(), String>,
)
    requires
        call_ensures(admit_serving, (directory, &registry, profile_name, &allow), admitted),
    ensures
        !directory ==> admitted is Err,
        allow@.len() == 0 ==> admitted is Err,
        (exists|i: int| 0 <= i < allow@.len() && (#[trigger] allow@[i])@ != "xana_docs"@)
            ==> admitted is Err,
        admitted is Ok ==> exists|i: int|
            0 <= i < registry.profiles@.len() && (#[trigger] registry.profiles@[i]).name@
                == profile_name@ && may_be_served(registry, registry.profiles@[i]),
        forall|i: int|
            directory && 0 <= i < registry.profiles@.len() && #[trigger] registry.profiles@[i].name@
                == profile_name@ && (forall|j: int|
                0 <= j < i ==> #[trigger] registry.profiles@[j].name@ != profile_name@)
                && may_be_served(registry, registry.profiles@[i]) && only_docs(views(allow@))
                ==> admitted is Ok,
{
    found_profiles_have_the_name(registry.profiles@, profile_name@);
    let at = profile_index(registry.profiles@, profile_name@) as int;
    if exists|i: int| 0 <= i < allow@.len() && (#[trigger] allow@[i])@ != "xana_docs"@ {
        let bad = choose|i: int| 0 <= i < allow@.len() && (#[trigger] allow@[i])@ != "xana_docs"@;
        assert(views(allow@)[bad] != DOCS_TOOL@);
    }
    assert forall|i: int|
        directory && 0 <= i < registry.profiles@.len() && #[trigger] registry.profiles@[i].name@
            == profile_name@ && (forall|j: int|
            0 <= j < i ==> #[trigger] registry.profiles@[j].name@ != profile_name@)
            && may_be_served(registry, registry.profiles@[i]) && only_docs(
            views(allow@),
        ) implies admitted is Ok by {
        if at < i {
            assert(registry.profiles@[at].name@ == profile_name@);
        }
        assert(at == i);
    }
}

/// Whether a profile can be served to local clients.
pub open spec fn may_be_served(registry: ConnectionRegistry, profile: Profile) -> bool {
    &&& !profile.archived
    &&& profile.permission_mode == Some(PermissionMode::Allow) || (profile.permission_mode is None
        && registry.permission_mode == PermissionMode::Allow)
    &&& profile.capabilities matches Some(capabilities) ==> views(capabilities@).contains(
        "xana.docs.read"@,
    )
}

/// What is exposed of a selected server is what is declared of it and selected from it:
/// it is reached by its own command or address, enabled only where it is, and it offers
/// nothing that the profile does not select.
pub proof fn exposed_servers_are_as_declared(
    registry: ConnectionRegistry,
    encoded: Seq<Vec<u8>>,
    workspace: Seq<char>,
    allowlists: Seq<McpAllowlist>,
    profile_egress: Seq<OutboundDataClass>,
    server: Seq<char>,
    exposure: McpServerExposure,
)
    requires
        exposes(
            registry,
            encoded,
            workspace,
            allowlists,
            profile_egress,
            server,
            exposure,
        ),
    ensures
        exposure.server@ == server,
        exposure.profile_allowed@ == profile_egress,
        exists|i: int|
            0 <= i < registry.mcp_servers@.len() && (#[trigger] registry.mcp_servers@[i]).name@
                == server && match registry.mcp_servers@[i].declaration {
                McpServerDeclaration::Stdio { command, args, environment, cwd, enabled, .. } => {
                    &&& exposure.enabled == enabled
                    &&& exposure.transport matches TransportSpec::Stdio {
                        command: c,
                        arguments,
                        environment: e,
                        directory,
                    }
                    &&& c == command
                    &&& arguments@ == args@
                    &&& e@ == environment@
                    &&& cwd matches Some(cwd) ==> directory@ == cwd@
                    &&& cwd is None ==> directory@ == workspace
                },
                McpServerDeclaration::StreamableHttp { url, credential, enabled, .. } => {
                    &&& exposure.enabled == enabled
                    &&& exposure.transport == (TransportSpec::Http { url, credential })
                },
            },
        forall|t: Seq<char>| #[trigger]
            views(exposure.allowlist.tools@).contains(t) ==> exists|i: int|
                0 <= i < allowlists.len() && (#[trigger] allowlists[i]).server@ == server && views(
                    allowlists[i].selection.tools@,
                ).contains(t),
        forall|t: Seq<char>| #[trigger]
            views(exposure.allowlist.prompts@).contains(t) ==> exists|i: int|
                0 <= i < allowlists.len() && (#[trigger] allowlists[i]).server@ == server && views(
                    allowlists[i].selection.prompts@,
                ).contains(t),
        forall|t: Seq<char>| #[trigger]
            views(exposure.allowlist.resources@).contains(t) ==> exists|i: int|
                0 <= i < allowlists.len() && (#[trigger] allowlists[i]).server@ == server && views(
                    allowlists[i].selection.resources@,
                ).contains(t),
        forall|t: Seq<char>| #[trigger]
            views(exposure.allowlist.resource_templates@).contains(t) ==> exists|i: int|
                0 <= i < allowlists.len() && (#[trigger] allowlists[i]).server@ == server && views(
                    allowlists[i].selection.resource_templates@,
                ).contains(t),
{
    found_servers_have_the_name(registry.mcp_servers@, server);
    selections_are_of_their_server(allowlists, server);
}

proof fn selections_are_of_their_server(allowlists: Seq<McpAllowlist>, server: Seq<char>)
    ensures
        selection_of(allowlists, server) matches Some(selection) ==> exists|i: int|
            0 <= i < allowlists.len() && (#[trigger] allowlists[i]).server@ == server
                && allowlists[i].selection == selection,
        selection_of(allowlists, server) is None ==> forall|i: int|
            0 <= i < allowlists.len() ==> #[trigger] allowlists[i].server@ != server,
    decreases allowlists.len(),
{
    if allowlists.len() > 0 && allowlists[0].server@ != server {
        let rest = allowlists.drop_first();
        selections_are_of_their_server(rest, server);
        if let Some(selection) = selection_of(allowlists, server) {
            let at = choose|i: int|
                0 <= i < rest.len() && (#[trigger] rest[i]).server@ == server && rest[i].selection
                    == selection;
            assert(rest[at] == allowlists[at + 1]);
        } else {
            assert forall|i: int| 0 <= i < allowlists.len() implies
                #[trigger] allowlists[i].server@ != server by {
                if i > 0 {
                    assert(rest[i - 1] == allowlists[i]);
                }
            }
        }
    }
}

/// An allowlist holds what is selected and nothing else.
pub proof fn allowlists_hold_the_selection(
    selection: McpPrimitiveSelection,
    list: McpPrimitiveAllowlist,
    name: Seq<char>,
)
    requires
        call_ensures(allowlist, (&selection,), list),
    ensures
        views(list.tools@).contains(name) <==> views(selection.tools@).contains(name),
        views(list.resources@).contains(name) <==> views(selection.resources@).contains(name),
        views(list.resource_templates@).contains(name) <==> views(
            selection.resource_templates@,
        ).contains(name),
        views(list.prompts@).contains(name) <==> views(selection.prompts@).contains(name),
{
}

/// The value of a hexadecimal digit.
pub open spec fn hex_value(c: char) -> int {
    if '0' <= c && c <= '9' {
        c as int - '0' as int
    } else {
        c as int - 'a' as int + 10
    }
}

/// Hexadecimal text spells its bytes: two digits for each, the higher one first.
pub proof fn hexadecimals_spell_their_bytes(bytes: Seq<u8>, at: int)
    requires
        0 <= at < bytes.len(),
    ensures
        hex_of(bytes).len() == 2 * bytes.len(),
        hex_value(hex_of(bytes)[2 * at]) * 16 + hex_value(hex_of(bytes)[2 * at + 1])
            == bytes[at],
    decreases bytes.len(),
{
    let earlier = bytes.drop_last();
    hexadecimals_are_two_digits(earlier);
    if at == bytes.len() - 1 {
        let high = (bytes.last() / 16) as nat;
        let low = (bytes.last() % 16) as nat;
        assert(hex_value(hex_digit(high)) == high);
        assert(hex_value(hex_digit(low)) == low);
        assert(hex_of(bytes)[2 * at] == hex_digit(high));
        assert(hex_of(bytes)[2 * at + 1] == hex_digit(low));
        assert(high * 16 + low == bytes.last());
    } else {
        hexadecimals_spell_their_bytes(earlier, at);
        assert(hex_of(bytes)[2 * at] == hex_of(earlier)[2 * at]);
        assert(hex_of(bytes)[2 * at + 1] == hex_of(earlier)[2 * at + 1]);
    }
}

proof fn hexadecimals_are_two_digits(bytes: Seq<u8>)
    ensures
        hex_of(bytes).len() == 2 * bytes.len(),
    decreases bytes.len(),
{
    if bytes.len() > 0 {
        hexadecimals_are_two_digits(bytes.drop_last());
    }
}

/// Every argument of a prompt is read as what it is written with: there is a value under
/// the name before its first equals sign, and it is all that stands behind it.
pub proof fn arguments_are_read_as_written(arguments: Seq<Seq<char>>, at: int)
    requires
        0 <= at < arguments.len(),
        named_values(arguments) is Ok,
    ensures
        exists|i: int|
            0 <= i < named_values(arguments)->Ok_0.len() && {
                let named = #[trigger] named_values(arguments)->Ok_0[i];
                &&& named.0 + seq!['='] + named.1 == arguments[at]
                &&& !named.0.contains('=')
                &&& named.0.len() > 0
            },
    decreases arguments.len(),
{
    let earlier = named_values(arguments.drop_last())->Ok_0;
    let argument = arguments.last();
    let split = first_index(argument, '=') as int;
    first_marks_are_first(argument, '=');
    let name = argument.take(split);
    slot_bounds(earlier, name);
    let slot = name_slot(earlier, name) as int;
    let all = named_values(arguments)->Ok_0;
    let added = (name, argument.skip(split + 1));
    assert(all == earlier.insert(slot, added));
    if at == arguments.len() - 1 {
        assert(all[slot] == added);
        assert(added.0 + seq!['='] + added.1 =~= argument);
        assert forall|k: int| 0 <= k < name.len() implies #[trigger] name[k] != '=' by {
            assert(argument[k] != '=');
        }
    } else {
        arguments_are_read_as_written(arguments.drop_last(), at);
        let held = choose|i: int|
            0 <= i < earlier.len() && {
                let named = #[trigger] earlier[i];
                &&& named.0 + seq!['='] + named.1 == arguments.drop_last()[at]
                &&& !named.0.contains('=')
                &&& named.0.len() > 0
            };
        let place = if held < slot {
            held
        } else {
            held + 1
        };
        assert(all[place] == earlier[held]);
    }
}

proof fn slot_bounds(values: Seq<Named>, name: Seq<char>)
    ensures
        name_slot(values, name) <= values.len(),
    decreases values.len(),
{
    if values.len() > 0 && before(values[0].0, name) {
        slot_bounds(values.drop_first(), name);
    }
}

/// A server that names nothing offers nothing, and otherwise as much as is named of each
/// kind together.
pub proof fn named_primitives_are_counted(selection: McpPrimitiveSelection)
    requires
        selection.tools@.len() + selection.resources@.len() + selection.resource_templates@.len()
            + selection.prompts@.len() <= u64::MAX,
    ensures
        primitives(None) == 0,
        primitives(Some(selection)) == selection.tools@.len() + selection.resources@.len()
            + selection.resource_templates@.len() + selection.prompts@.len(),
{
}

}
