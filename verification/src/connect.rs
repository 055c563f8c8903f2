//! The integration hub and the reviewed setup of focused services and of web
//! access.

use crate::config::{ConnectionRegistry, Profile};
use crate::dialogue::{
    agrees, confirm, confirmed, line_read, read_line, said, Dialogue, Stop, StopModel, Talk,
};
use crate::text::{
    beginnings_are_held, beginnings_begin_alike, byte_count, byte_len, chars_of,
    contains_control, copy_option, debug_text, decimal, decimal_text, ends_occur, has_control,
    longer_texts_hold_the_same, lower, lowered, occurs, option_view, quoted, text_eq, trim,
    trimmed,
};
use vstd::prelude::*;
use vstd::string::*;

verus! {

/// How often an invalid choice may be made.
pub const MAX_ATTEMPTS: usize = 4;

/// Which focused service is set up.
#[derive(Clone, Copy, PartialEq, Eq, Structural, Debug)]
pub enum FocusedServiceKind {
    Image,
    Vision,
}

/// Who provides a focused service.
#[derive(Clone, Copy, PartialEq, Eq, Structural, Debug)]
pub enum FocusedServiceProviderChoice {
    OpenAi,
    OpenRouter,
}

/// What the owner wants to integrate.
#[derive(Clone, Copy, PartialEq, Eq, Structural, Debug)]
pub enum ConnectIntegration {
    Provider,
    Profile,
    Plugin,
    Mcp,
    ExternalAgent,
    Image,
    Vision,
    Web,
}

/// A choice of web search.
#[derive(Clone, Copy, PartialEq, Eq, Structural, Debug)]
pub enum WebProviderChoice {
    ExaMcp,
    Brave,
    PagesOnly,
    Disabled,
}

/// A choice of consent to read public pages.
#[derive(Clone, Copy, PartialEq, Eq, Structural, Debug)]
pub enum PublicWebChoice {
    Ask,
    Allow,
}

/// The arguments of the connect command.
#[derive(Debug, PartialEq, Eq)]
pub struct ConnectArgs {
    pub integration: Option<ConnectIntegration>,
    pub web_provider: Option<WebProviderChoice>,
    pub public_web: Option<PublicWebChoice>,
    pub route: Option<String>,
    pub service_connection: Option<String>,
    pub service_provider: Option<FocusedServiceProviderChoice>,
    pub model: Option<String>,
    pub credential_env: Option<String>,
    pub base_url: Option<String>,
    pub profile: Option<String>,
    pub make_default: bool,
    pub remove: bool,
    pub yes: bool,
}

impl FocusedServiceKind {
    /// The word for a service.
    pub open spec fn word(self) -> Seq<char> {
        match self {
            FocusedServiceKind::Image => "image"@,
            FocusedServiceKind::Vision => "vision"@,
        }
    }

    /// The operation of a service.
    pub open spec fn operation_name(self) -> Seq<char> {
        match self {
            FocusedServiceKind::Image => "image.generate"@,
            FocusedServiceKind::Vision => "vision.analyze"@,
        }
    }

    /// The route that a service has unless another is named.
    pub open spec fn usual_route(self) -> Seq<char> {
        match self {
            FocusedServiceKind::Image => "illustrate"@,
            FocusedServiceKind::Vision => "describe"@,
        }
    }

    /// The adapter of a service.
    pub open spec fn adapter_name(self, provider: FocusedServiceProviderChoice) -> Seq<char> {
        match (self, provider) {
            (FocusedServiceKind::Image, FocusedServiceProviderChoice::OpenAi) => "openai.images"@,
            (FocusedServiceKind::Image, FocusedServiceProviderChoice::OpenRouter) => "openrouter.images"@,
            (FocusedServiceKind::Vision, FocusedServiceProviderChoice::OpenAi) => "openai.vision"@,
            (FocusedServiceKind::Vision, FocusedServiceProviderChoice::OpenRouter) => "openrouter.vision"@,
        }
    }

    /// The word for a service.
    pub fn label(self) -> (label: &'static str)
        ensures
            label@ == self.word(),
    {
        match self {
            FocusedServiceKind::Image => "image",
            FocusedServiceKind::Vision => "vision",
        }
    }

    /// The operation of a service.
    pub fn operation(self) -> (operation: &'static str)
        ensures
            operation@ == self.operation_name(),
    {
        match self {
            FocusedServiceKind::Image => "image.generate",
            FocusedServiceKind::Vision => "vision.analyze",
        }
    }

    /// The route that a service has unless another is named.
    pub fn default_route(self) -> (route: &'static str)
        ensures
            route@ == self.usual_route(),
    {
        match self {
            FocusedServiceKind::Image => "illustrate",
            FocusedServiceKind::Vision => "describe",
        }
    }

    /// The adapter of a service.
    pub fn adapter(self, provider: FocusedServiceProviderChoice) -> (adapter: &'static str)
        ensures
            adapter@ == self.adapter_name(provider),
    {
        match (self, provider) {
            (FocusedServiceKind::Image, FocusedServiceProviderChoice::OpenAi) => "openai.images",
            (FocusedServiceKind::Image, FocusedServiceProviderChoice::OpenRouter) => "openrouter.images",
            (FocusedServiceKind::Vision, FocusedServiceProviderChoice::OpenAi) => "openai.vision",
            (FocusedServiceKind::Vision, FocusedServiceProviderChoice::OpenRouter) => "openrouter.vision",
        }
    }
}

/// The short name of a provider.
pub open spec fn provider_word(provider: FocusedServiceProviderChoice) -> Seq<char> {
    match provider {
        FocusedServiceProviderChoice::OpenAi => "openai"@,
        FocusedServiceProviderChoice::OpenRouter => "openrouter"@,
    }
}

/// The short name of a provider.
pub fn provider_name(provider: FocusedServiceProviderChoice) -> (name: &'static str)
    ensures
        name@ == provider_word(provider),
{
    match provider {
        FocusedServiceProviderChoice::OpenAi => "openai",
        FocusedServiceProviderChoice::OpenRouter => "openrouter",
    }
}

/// The variable that a provider's key usually stands in.
pub open spec fn usual_credential(provider: FocusedServiceProviderChoice) -> Seq<char> {
    match provider {
        FocusedServiceProviderChoice::OpenAi => "OPENAI_API_KEY"@,
        FocusedServiceProviderChoice::OpenRouter => "OPENROUTER_API_KEY"@,
    }
}

/// The variable that a provider's key usually stands in.
pub fn credential_default(provider: FocusedServiceProviderChoice) -> (name: &'static str)
    ensures
        name@ == usual_credential(provider),
{
    match provider {
        FocusedServiceProviderChoice::OpenAi => "OPENAI_API_KEY",
        FocusedServiceProviderChoice::OpenRouter => "OPENROUTER_API_KEY",
    }
}

/// Whether any option of a focused-service setup was given.
pub open spec fn focused_options(args: ConnectArgs) -> bool {
    ||| args.route is Some
    ||| args.service_connection is Some
    ||| args.service_provider is Some
    ||| args.model is Some
    ||| args.credential_env is Some
    ||| args.base_url is Some
    ||| args.profile is Some
    ||| args.make_default
    ||| args.remove
    ||| args.yes
}

/// Whether any option of a focused-service setup was given.
pub fn has_focused_options(args: &ConnectArgs) -> (any: bool)
    ensures
        any == focused_options(*args),
{
    args.route.is_some() || args.service_connection.is_some() || args.service_provider.is_some()
        || args.model.is_some() || args.credential_env.is_some() || args.base_url.is_some()
        || args.profile.is_some() || args.make_default || args.remove || args.yes
}

pub const HUB_OPTIONS: &'static str = "focused-service setup options require `xana connect image` or `xana connect vision`";

pub const HUB_HEAD: &'static str = "Xana integration hub (read-only until you choose an exact command)\n  provider        xana connect provider\n  profile         xana connect profile\n  plugin          xana plugin list | review | install | enable\n  MCP             xana mcp list | add-stdio | add-http | remove\n  external agent  xana external-agent list | add | refresh | trust\n  image route     xana connect image\n  vision route    xana connect vision\n";

pub const PLUGIN_DETAIL: &'static str = "  Start with `xana plugin review SOURCE`; install and enable remain separate reviewed steps.\n";

pub const MCP_DETAIL: &'static str = "  Use `xana mcp add-stdio` or `xana mcp add-http` to review and enable an exact declaration for one profile.\n  1. xana mcp add-stdio or xana mcp add-http\n  2. xana mcp refresh <SERVER>\n  Transport, profile exposure, egress, and primitive allowlists are separate reviewed decisions.\n";

pub const AGENT_DETAIL: &'static str = "  Use `xana external-agent add`, then refresh and trust the exact cached identity separately.\n";

pub const OTHER_DETAIL: &'static str = "  Use the exact command shown above.\n";

/// What the hub says about one integration.
pub open spec fn hub_detail(integration: Option<ConnectIntegration>) -> Seq<char> {
    match integration {
        None => Seq::empty(),
        Some(ConnectIntegration::Plugin) => PLUGIN_DETAIL@,
        Some(ConnectIntegration::Mcp) => MCP_DETAIL@,
        Some(ConnectIntegration::ExternalAgent) => AGENT_DETAIL@,
        Some(_) => OTHER_DETAIL@,
    }
}

/// What is known of the integrations without contacting any of them. Private
/// state that cannot be read is not known, rather than empty.
#[derive(Clone, Copy, PartialEq, Eq, Debug)]
pub struct HubReadiness {
    /// Installed plugins, and how many of them are healthy.
    pub plugins: Option<(u64, u64)>,
    /// Configured MCP servers.
    pub mcp_configured: u64,
    /// How often a profile exposes an MCP server.
    pub mcp_exposed: u64,
    /// Configured external agents, and how many of them are trusted.
    pub external_agents: Option<(u64, u64)>,
}

/// A line of two counts, or that they are not known.
pub open spec fn counts_line(
    output: Seq<char>,
    head: Seq<char>,
    first: Seq<char>,
    second: Seq<char>,
    counts: Option<(u64, u64)>,
) -> Seq<char> {
    match counts {
        Some((a, b)) => output + head + first + decimal(a as nat) + second + decimal(b as nat)
            + "\n"@,
        None => output + head + "unavailable (run `xana doctor`)\n"@,
    }
}

fn write_counts(
    output: &mut String,
    head: &str,
    first: &str,
    second: &str,
    counts: Option<(u64, u64)>,
)
    ensures
        final(output)@ == counts_line(old(output)@, head@, first@, second@, counts),
{
    output.append(head);
    match counts {
        Some((a, b)) => {
            output.append(first);
            output.append(decimal_text(a).as_str());
            output.append(second);
            output.append(decimal_text(b).as_str());
            output.append("\n");
        },
        None => output.append("unavailable (run `xana doctor`)\n"),
    }
}

/// The readiness section of the hub.
pub open spec fn readiness_text(output: Seq<char>, readiness: HubReadiness) -> Seq<char> {
    counts_line(
        counts_line(
            counts_line(
                output + "Current readiness\n"@,
                "  plugins         "@,
                "installed="@,
                " healthy="@,
                readiness.plugins,
            ),
            "  MCP clients     "@,
            "configured="@,
            " exposed_by_profiles="@,
            Some((readiness.mcp_configured, readiness.mcp_exposed)),
        ),
        "  external agents "@,
        "configured="@,
        " trusted="@,
        readiness.external_agents,
    )
}

/// Writes the hub: what can be integrated, what is ready, and the next steps for
/// one integration. It changes nothing.
pub fn write_hub(
    args: &ConnectArgs,
    integration: Option<ConnectIntegration>,
    readiness: &HubReadiness,
    output: &mut String,
) -> (written: Result<(), String>)
    ensures
        focused_options(*args) ==> (written matches Err(text) && text@ == HUB_OPTIONS@)
            && final(output)@ == old(output)@,
        !focused_options(*args) ==> written is Ok && final(output)@ == readiness_text(
            old(output)@ + HUB_HEAD@,
            *readiness,
        ) + hub_detail(integration),
{
    if has_focused_options(args) {
        return Err(HUB_OPTIONS.to_owned());
    }
    output.append(HUB_HEAD);
    output.append("Current readiness\n");
    write_counts(output, "  plugins         ", "installed=", " healthy=", readiness.plugins);
    write_counts(
        output,
        "  MCP clients     ",
        "configured=",
        " exposed_by_profiles=",
        Some((readiness.mcp_configured, readiness.mcp_exposed)),
    );
    write_counts(
        output,
        "  external agents ",
        "configured=",
        " trusted=",
        readiness.external_agents,
    );
    match integration {
        None => {
            assert(output@ + Seq::<char>::empty() =~= output@);
        },
        Some(ConnectIntegration::Plugin) => output.append(PLUGIN_DETAIL),
        Some(ConnectIntegration::Mcp) => output.append(MCP_DETAIL),
        Some(ConnectIntegration::ExternalAgent) => output.append(AGENT_DETAIL),
        Some(_) => output.append(OTHER_DETAIL),
    }
    Ok(())
}

/// How often the first profiles expose an MCP server, as far as it is counted.
pub open spec fn exposures(profiles: Seq<Profile>) -> u64
    decreases profiles.len(),
{
    if profiles.len() == 0 {
        0
    } else {
        crate::usage::capped(
            (exposures(profiles.drop_last()) + profiles.last().mcp_servers@.len()) as nat,
        )
    }
}

/// What the configuration alone tells of MCP servers.
pub fn mcp_readiness(registry: &ConnectionRegistry) -> (counts: (u64, u64))
    ensures
        counts.0 == registry.mcp_servers@.len(),
        counts.1 == exposures(registry.profiles@),
{
    let mut exposed: u64 = 0;
    let mut i: usize = 0;
    while i < registry.profiles.len()
        invariant
            i <= registry.profiles@.len(),
            exposed == exposures(registry.profiles@.take(i as int)),
        decreases registry.profiles@.len() - i,
    {
        assert(registry.profiles@.take(i + 1).drop_last() =~= registry.profiles@.take(i as int));
        exposed = exposed.saturating_add(registry.profiles[i].mcp_servers.len() as u64);
        i += 1;
    }
    assert(registry.profiles@.take(i as int) =~= registry.profiles@);
    (registry.mcp_servers.len() as u64, exposed)
}

pub const PROVIDER_MENU: &'static str = "Choose a focused-service provider:\n  1. OpenAI API key\n  2. OpenRouter API key\nChoice [1-2]: ";

pub const END_OF_INPUT: &'static str = "focused-service setup cancelled at end of input; no changes made";

pub const TOO_MANY_CHOICES: &'static str = "too many invalid focused-service provider selections";

/// The provider that the owner chooses within the attempts that are left.
pub open spec fn provider_chosen(talk: Talk, attempts: nat) -> (
    Talk,
    Result<FocusedServiceProviderChoice, StopModel>,
)
    decreases attempts,
{
    if attempts == 0 {
        (talk, Err(StopModel::Failed(TOO_MANY_CHOICES@)))
    } else {
        let (after, line) = line_read(said(talk, PROVIDER_MENU@));
        match line {
            Err(stop) => (after, Err(stop)),
            Ok(None) => (after, Err(StopModel::Failed(END_OF_INPUT@))),
            Ok(Some(line)) => if trimmed(line) == "1"@ {
                (after, Ok(FocusedServiceProviderChoice::OpenAi))
            } else if trimmed(line) == "2"@ {
                (after, Ok(FocusedServiceProviderChoice::OpenRouter))
            } else {
                provider_chosen(said(after, "Choose 1 or 2.\n"@), (attempts - 1) as nat)
            },
        }
    }
}

/// Lets the owner choose a provider.
pub fn choose_provider(dialogue: &mut Dialogue) -> (choice: Result<
    FocusedServiceProviderChoice,
    Stop,
>)
    ensures
        final(dialogue)@ == provider_chosen(old(dialogue)@, MAX_ATTEMPTS as nat).0,
        match choice {
            Ok(provider) => provider_chosen(old(dialogue)@, MAX_ATTEMPTS as nat).1 == Ok::<
                FocusedServiceProviderChoice,
                StopModel,
            >(provider),
            Err(stop) => provider_chosen(old(dialogue)@, MAX_ATTEMPTS as nat).1 == Err::<
                FocusedServiceProviderChoice,
                StopModel,
            >(stop@),
        },
{
    let mut left: usize = MAX_ATTEMPTS;
    while left > 0
        invariant
            provider_chosen(dialogue@, left as nat) == provider_chosen(
                old(dialogue)@,
                MAX_ATTEMPTS as nat,
            ),
        decreases left,
    {
        dialogue.say(PROVIDER_MENU);
        let value = match read_line(dialogue) {
            Err(stop) => {
                return Err(stop);
            },
            Ok(None) => {
                return Err(Stop::Failed(END_OF_INPUT.to_owned()));
            },
            Ok(Some(value)) => trim(value.as_str()),
        };
        if text_eq(value.as_str(), "1") {
            return Ok(FocusedServiceProviderChoice::OpenAi);
        }
        if text_eq(value.as_str(), "2") {
            return Ok(FocusedServiceProviderChoice::OpenRouter);
        }
        dialogue.say("Choose 1 or 2.\n");
        left -= 1;
    }
    Err(Stop::Failed(TOO_MANY_CHOICES.to_owned()))
}

/// Whether a trimmed value can be kept.
pub open spec fn keepable(value: Seq<char>) -> bool {
    0 < value.len() && byte_count(value) <= 512 && !has_control(value)
}

/// The value that is kept, or why it cannot be.
pub open spec fn kept_value(value: Seq<char>, label: Seq<char>) -> Result<Seq<char>, Seq<char>> {
    if keepable(trimmed(value)) {
        Ok(trimmed(value))
    } else {
        Err(label + " must be 1..=512 bytes without control characters"@)
    }
}

/// Checks a value and trims it.
pub fn nonblank(value: &str, label: &str) -> (kept: Result<String, String>)
    ensures
        match kept {
            Ok(text) => kept_value(value@, label@) == Ok::<Seq<char>, Seq<char>>(text@),
            Err(text) => kept_value(value@, label@) == Err::<Seq<char>, Seq<char>>(text@),
        },
{
    let value = trim(value);
    if value.as_str().is_empty() || byte_len(value.as_str()) > 512 || contains_control(
        value.as_str(),
    ) {
        let mut text = label.to_owned();
        text.append(" must be 1..=512 bytes without control characters");
        Err(text)
    } else {
        Ok(value)
    }
}

/// A label as an option is spelled: small, with dashes for blanks.
pub open spec fn option_name(label: Seq<char>) -> Seq<char> {
    lowered(label).map_values(
        |c: char|
            if c == ' ' {
                '-'
            } else {
                c
            },
    )
}

fn spell_option(label: &str) -> (name: String)
    ensures
        name@ == option_name(label@),
{
    let small = lower(label);
    let chars = chars_of(small.as_str());
    let mut name = String::new();
    let mut i: usize = 0;
    while i < chars.len()
        invariant
            chars@ == lowered(label@),
            i <= chars@.len(),
            name@ == option_name(label@).take(i as int),
        decreases chars@.len() - i,
    {
        let c = chars[i];
        name.push(
            if c == ' ' {
                '-'
            } else {
                c
            },
        );
        i += 1;
        assert(option_name(label@).take(i as int) =~= option_name(label@).take(i - 1).push(
            option_name(label@)[i - 1],
        ));
    }
    assert(option_name(label@).take(i as int) =~= option_name(label@));
    name
}

/// The prompt for a value.
pub open spec fn value_prompt(label: Seq<char>, default: Option<Seq<char>>) -> Seq<char> {
    match default {
        Some(default) => label + " ["@ + default + "]: "@,
        None => label + ": "@,
    }
}

/// A kept value as the end of a question.
pub open spec fn answered(value: Seq<char>, label: Seq<char>) -> Result<Seq<char>, StopModel> {
    match kept_value(value, label) {
        Ok(text) => Ok(text),
        Err(text) => Err(StopModel::Failed(text)),
    }
}

/// A value: the one that was provided, or what the owner answers.
pub open spec fn value_asked(
    talk: Talk,
    provided: Option<Seq<char>>,
    interactive: bool,
    label: Seq<char>,
    default: Option<Seq<char>>,
) -> (Talk, Result<Seq<char>, StopModel>) {
    match provided {
        Some(value) => (talk, answered(value, label)),
        None => if !interactive {
            (
                talk,
                Err(
                    StopModel::Failed(
                        "noninteractive focused-service setup requires --"@ + option_name(label),
                    ),
                ),
            )
        } else {
            let (after, line) = line_read(said(talk, value_prompt(label, default)));
            match line {
                Err(stop) => (after, Err(stop)),
                Ok(None) => (after, Err(StopModel::Failed(END_OF_INPUT@))),
                Ok(Some(line)) => {
                    let selected = if trimmed(line).len() == 0 {
                        match default {
                            Some(default) => default,
                            None => Seq::empty(),
                        }
                    } else {
                        trimmed(line)
                    };
                    (after, answered(selected, label))
                },
            }
        },
    }
}

/// The characters of an optional text.
pub open spec fn str_view(text: Option<&str>) -> Option<Seq<char>> {
    match text {
        Some(text) => Some(text@),
        None => None,
    }
}

fn keep_answer(value: &str, label: &str) -> (kept: Result<String, Stop>)
    ensures
        match kept {
            Ok(text) => answered(value@, label@) == Ok::<Seq<char>, StopModel>(text@),
            Err(stop) => answered(value@, label@) == Err::<Seq<char>, StopModel>(stop@),
        },
{
    match nonblank(value, label) {
        Ok(text) => Ok(text),
        Err(text) => Err(Stop::Failed(text)),
    }
}

/// Takes a value that was provided, or asks the owner for it.
pub fn value_or_prompt(
    provided: Option<&str>,
    interactive: bool,
    dialogue: &mut Dialogue,
    label: &str,
    default: Option<&str>,
) -> (value: Result<String, Stop>)
    ensures
        final(dialogue)@ == value_asked(
            old(dialogue)@,
            str_view(provided),
            interactive,
            label@,
            str_view(default),
        ).0,
        match value {
            Ok(text) => value_asked(
                old(dialogue)@,
                str_view(provided),
                interactive,
                label@,
                str_view(default),
            ).1 == Ok::<Seq<char>, StopModel>(text@),
            Err(stop) => value_asked(
                old(dialogue)@,
                str_view(provided),
                interactive,
                label@,
                str_view(default),
            ).1 == Err::<Seq<char>, StopModel>(stop@),
        },
{
    if let Some(value) = provided {
        return keep_answer(value, label);
    }
    if !interactive {
        let mut text = "noninteractive focused-service setup requires --".to_owned();
        text.append(spell_option(label).as_str());
        return Err(Stop::Failed(text));
    }
    let mut prompt = label.to_owned();
    match default {
        Some(default) => {
            prompt.append(" [");
            prompt.append(default);
            prompt.append("]: ");
        },
        None => prompt.append(": "),
    }
    dialogue.say(prompt.as_str());
    let line = match read_line(dialogue) {
        Err(stop) => {
            return Err(stop);
        },
        Ok(None) => {
            return Err(Stop::Failed(END_OF_INPUT.to_owned()));
        },
        Ok(Some(line)) => trim(line.as_str()),
    };
    if line.as_str().is_empty() {
        match default {
            Some(default) => keep_answer(default, label),
            None => {
                proof {
                    reveal_strlit("");
                    assert(""@ =~= Seq::<char>::empty());
                }
                keep_answer("", label)
            },
        }
    } else {
        keep_answer(line.as_str(), label)
    }
}

/// A focused-service route that is to be installed.
#[derive(Debug, PartialEq, Eq)]
pub struct NewServiceRoute {
    pub route: String,
    pub connection: String,
    pub adapter: &'static str,
    pub base_url: Option<String>,
    pub credential_env: String,
    pub operation: &'static str,
    pub description: String,
    pub model: String,
    pub profile: String,
    pub make_default: bool,
}

/// A route, by content.
pub struct RouteModel {
    pub route: Seq<char>,
    pub connection: Seq<char>,
    pub adapter: Seq<char>,
    pub base_url: Option<Seq<char>>,
    pub credential_env: Seq<char>,
    pub operation: Seq<char>,
    pub description: Seq<char>,
    pub model: Seq<char>,
    pub profile: Seq<char>,
    pub make_default: bool,
}

impl View for NewServiceRoute {
    type V = RouteModel;

    open spec fn view(&self) -> RouteModel {
        RouteModel {
            route: self.route@,
            connection: self.connection@,
            adapter: self.adapter@,
            base_url: option_view(self.base_url),
            credential_env: self.credential_env@,
            operation: self.operation@,
            description: self.description@,
            model: self.model@,
            profile: self.profile@,
            make_default: self.make_default,
        }
    }
}

/// What a focused-service setup comes to.
#[derive(Debug, PartialEq, Eq)]
pub enum FocusedChange {
    Unchanged,
    Remove(String),
    Install(NewServiceRoute),
}

/// What a focused-service setup comes to, by content.
pub enum ChangeModel {
    Unchanged,
    Remove(Seq<char>),
    Install(RouteModel),
}

impl View for FocusedChange {
    type V = ChangeModel;

    open spec fn view(&self) -> ChangeModel {
        match self {
            FocusedChange::Unchanged => ChangeModel::Unchanged,
            FocusedChange::Remove(route) => ChangeModel::Remove(route@),
            FocusedChange::Install(route) => ChangeModel::Install(route@),
        }
    }
}

/// A step of a setup: the dialogue after it, and what it gives.
pub type Asked<T> = (Talk, Result<T, StopModel>);

pub const REMOVAL_ROUTE: &'static str = "focused-service removal requires --route ROUTE";

pub const PROVIDER_REQUIRED: &'static str = "noninteractive focused-service setup requires --service-provider";

pub const INSTALL_PROMPT: &'static str = "Install this focused-service route? [y/N]: ";

pub const UNCHANGED: &'static str = "No changes made.\n";

/// The question before a route is removed.
pub open spec fn removal_prompt(route: Seq<char>) -> Seq<char> {
    "Remove route "@ + debug_text(route) + " from every profile? [y/N]: "@
}

/// A change that happens only if it is agreed to beforehand or now.
pub open spec fn agreed(
    talk: Talk,
    yes: bool,
    terminal: bool,
    prompt: Seq<char>,
    change: ChangeModel,
) -> Asked<ChangeModel> {
    if yes {
        (talk, Ok(change))
    } else {
        let (after, answer) = confirmed(talk, terminal, prompt);
        match answer {
            Err(stop) => (after, Err(stop)),
            Ok(true) => (after, Ok(change)),
            Ok(false) => (said(after, UNCHANGED@), Ok(ChangeModel::Unchanged)),
        }
    }
}

/// The provider of a setup.
pub open spec fn provider_asked(talk: Talk, args: ConnectArgs, interactive: bool) -> Asked<
    FocusedServiceProviderChoice,
> {
    match args.service_provider {
        Some(provider) => (talk, Ok(provider)),
        None => if interactive {
            provider_chosen(talk, MAX_ATTEMPTS as nat)
        } else {
            (talk, Err(StopModel::Failed(PROVIDER_REQUIRED@)))
        },
    }
}

/// What a new route is described as.
pub open spec fn described_route(kind: FocusedServiceKind) -> Seq<char> {
    "Xana "@ + kind.operation_name() + " route"@
}

/// The route of a setup, asked for value by value.
pub open spec fn route_asked(
    talk: Talk,
    args: ConnectArgs,
    kind: FocusedServiceKind,
    default_profile: Seq<char>,
    interactive: bool,
    provider: FocusedServiceProviderChoice,
) -> Asked<RouteModel> {
    let (t1, route) = value_asked(
        talk,
        option_view(args.route),
        interactive,
        "Route name"@,
        Some(kind.usual_route()),
    );
    match route {
        Err(stop) => (t1, Err(stop)),
        Ok(route) => {
            let (t2, connection) = value_asked(
                t1,
                option_view(args.service_connection),
                interactive,
                "Service connection name"@,
                Some(provider_word(provider) + "-"@ + kind.word()),
            );
            match connection {
                Err(stop) => (t2, Err(stop)),
                Ok(connection) => {
                    let (t3, model) = value_asked(
                        t2,
                        option_view(args.model),
                        interactive,
                        "Exact model id"@,
                        None,
                    );
                    match model {
                        Err(stop) => (t3, Err(stop)),
                        Ok(model) => {
                            let (t4, credential_env) = value_asked(
                                t3,
                                option_view(args.credential_env),
                                interactive,
                                "API-key environment variable"@,
                                Some(usual_credential(provider)),
                            );
                            match credential_env {
                                Err(stop) => (t4, Err(stop)),
                                Ok(credential_env) => {
                                    let (t5, profile) = value_asked(
                                        t4,
                                        option_view(args.profile),
                                        interactive,
                                        "Profile to expose this route"@,
                                        Some(default_profile),
                                    );
                                    match profile {
                                        Err(stop) => (t5, Err(stop)),
                                        Ok(profile) => (
                                            t5,
                                            Ok(
                                                RouteModel {
                                                    route,
                                                    connection,
                                                    adapter: kind.adapter_name(provider),
                                                    base_url: option_view(args.base_url),
                                                    credential_env,
                                                    operation: kind.operation_name(),
                                                    description: described_route(kind),
                                                    model,
                                                    profile,
                                                    make_default: interactive || args.make_default,
                                                },
                                            ),
                                        ),
                                    }
                                },
                            }
                        },
                    }
                },
            }
        },
    }
}

/// The review of a route before it is installed.
pub open spec fn route_review(route: RouteModel) -> Seq<char> {
    "\nReview focused-service setup\n  Operation:   "@ + route.operation + "\n  Route:       "@
        + route.route + "\n  Connection:  "@ + route.connection + "\n  Adapter:     "@
        + route.adapter + "\n  Model:       "@ + route.model + "\n  Credential:  environment "@
        + route.credential_env + " (value not read now)\n  Profile:     "@ + route.profile
        + "\n  Outbound:    prompt_text + selected_artifacts\n  Default:     "@ + (
    if route.make_default {
        "true"@
    } else {
        "false"@
    }) + "\n  Applies:     new conversation\n"@
}

/// A whole focused-service setup.
pub open spec fn service_set_up(
    talk: Talk,
    args: ConnectArgs,
    kind: FocusedServiceKind,
    default_profile: Seq<char>,
    terminal: bool,
) -> Asked<ChangeModel> {
    if args.remove {
        match args.route {
            None => (talk, Err(StopModel::Failed(REMOVAL_ROUTE@))),
            Some(route) => agreed(
                talk,
                args.yes,
                terminal,
                removal_prompt(route@),
                ChangeModel::Remove(route@),
            ),
        }
    } else {
        let interactive = terminal && !focused_options(args);
        let (t1, provider) = provider_asked(talk, args, interactive);
        match provider {
            Err(stop) => (t1, Err(stop)),
            Ok(provider) => {
                let (t2, route) = route_asked(t1, args, kind, default_profile, interactive, provider);
                match route {
                    Err(stop) => (t2, Err(stop)),
                    Ok(route) => agreed(
                        said(t2, route_review(route)),
                        args.yes,
                        terminal,
                        INSTALL_PROMPT@,
                        ChangeModel::Install(route),
                    ),
                }
            },
        }
    }
}

fn review_route(route: &NewServiceRoute) -> (text: String)
    ensures
        text@ == route_review(route@),
{
    let mut text = "\nReview focused-service setup\n  Operation:   ".to_owned();
    text.append(route.operation);
    text.append("\n  Route:       ");
    text.append(route.route.as_str());
    text.append("\n  Connection:  ");
    text.append(route.connection.as_str());
    text.append("\n  Adapter:     ");
    text.append(route.adapter);
    text.append("\n  Model:       ");
    text.append(route.model.as_str());
    text.append("\n  Credential:  environment ");
    text.append(route.credential_env.as_str());
    text.append(" (value not read now)\n  Profile:     ");
    text.append(route.profile.as_str());
    text.append("\n  Outbound:    prompt_text + selected_artifacts\n  Default:     ");
    text.append(
        if route.make_default {
            "true"
        } else {
            "false"
        },
    );
    text.append("\n  Applies:     new conversation\n");
    text
}

fn agree(
    yes: bool,
    terminal: bool,
    dialogue: &mut Dialogue,
    prompt: &str,
    change: FocusedChange,
) -> (result: Result<FocusedChange, Stop>)
    ensures
        final(dialogue)@ == agreed(old(dialogue)@, yes, terminal, prompt@, change@).0,
        match result {
            Ok(made) => agreed(old(dialogue)@, yes, terminal, prompt@, change@).1 == Ok::<
                ChangeModel,
                StopModel,
            >(made@),
            Err(stop) => agreed(old(dialogue)@, yes, terminal, prompt@, change@).1 == Err::<
                ChangeModel,
                StopModel,
            >(stop@),
        },
{
    if yes {
        return Ok(change);
    }
    match confirm(terminal, dialogue, prompt) {
        Err(stop) => Err(stop),
        Ok(true) => Ok(change),
        Ok(false) => {
            dialogue.say(UNCHANGED);
            Ok(FocusedChange::Unchanged)
        },
    }
}

fn as_ref(text: &Option<String>) -> (held: Option<&str>)
    ensures
        str_view(held) == option_view(*text),
{
    match text {
        Some(text) => Some(text.as_str()),
        None => None,
    }
}

fn ask_route(
    args: &ConnectArgs,
    kind: FocusedServiceKind,
    default_profile: &str,
    interactive: bool,
    provider: FocusedServiceProviderChoice,
    dialogue: &mut Dialogue,
) -> (route: Result<NewServiceRoute, Stop>)
    ensures
        final(dialogue)@ == route_asked(
            old(dialogue)@,
            *args,
            kind,
            default_profile@,
            interactive,
            provider,
        ).0,
        match route {
            Ok(route) => route_asked(
                old(dialogue)@,
                *args,
                kind,
                default_profile@,
                interactive,
                provider,
            ).1 == Ok::<RouteModel, StopModel>(route@),
            Err(stop) => route_asked(
                old(dialogue)@,
                *args,
                kind,
                default_profile@,
                interactive,
                provider,
            ).1 == Err::<RouteModel, StopModel>(stop@),
        },
{
    let route = match value_or_prompt(
        as_ref(&args.route),
        interactive,
        dialogue,
        "Route name",
        Some(kind.default_route()),
    ) {
        Ok(route) => route,
        Err(stop) => {
            return Err(stop);
        },
    };
    let mut connection_default = provider_name(provider).to_owned();
    connection_default.append("-");
    connection_default.append(kind.label());
    let connection = match value_or_prompt(
        as_ref(&args.service_connection),
        interactive,
        dialogue,
        "Service connection name",
        Some(connection_default.as_str()),
    ) {
        Ok(connection) => connection,
        Err(stop) => {
            return Err(stop);
        },
    };
    let model = match value_or_prompt(
        as_ref(&args.model),
        interactive,
        dialogue,
        "Exact model id",
        None,
    ) {
        Ok(model) => model,
        Err(stop) => {
            return Err(stop);
        },
    };
    let credential_env = match value_or_prompt(
        as_ref(&args.credential_env),
        interactive,
        dialogue,
        "API-key environment variable",
        Some(credential_default(provider)),
    ) {
        Ok(credential_env) => credential_env,
        Err(stop) => {
            return Err(stop);
        },
    };
    let profile = match value_or_prompt(
        as_ref(&args.profile),
        interactive,
        dialogue,
        "Profile to expose this route",
        Some(default_profile),
    ) {
        Ok(profile) => profile,
        Err(stop) => {
            return Err(stop);
        },
    };
    let mut description = "Xana ".to_owned();
    description.append(kind.operation());
    description.append(" route");
    Ok(
        NewServiceRoute {
            route,
            connection,
            adapter: kind.adapter(provider),
            base_url: copy_option(&args.base_url),
            credential_env,
            operation: kind.operation(),
            description,
            model,
            profile,
            make_default: interactive || args.make_default,
        },
    )
}

/// Sets a focused service up, or removes its route. Nothing changes unless the
/// owner agreed to the reviewed change.
pub fn run_focused_service(
    args: &ConnectArgs,
    kind: FocusedServiceKind,
    default_profile: &str,
    terminal: bool,
    dialogue: &mut Dialogue,
) -> (change: Result<FocusedChange, Stop>)
    ensures
        final(dialogue)@ == service_set_up(
            old(dialogue)@,
            *args,
            kind,
            default_profile@,
            terminal,
        ).0,
        match change {
            Ok(change) => service_set_up(
                old(dialogue)@,
                *args,
                kind,
                default_profile@,
                terminal,
            ).1 == Ok::<ChangeModel, StopModel>(change@),
            Err(stop) => service_set_up(
                old(dialogue)@,
                *args,
                kind,
                default_profile@,
                terminal,
            ).1 == Err::<ChangeModel, StopModel>(stop@),
        },
{
    if args.remove {
        return match &args.route {
            None => Err(Stop::Failed(REMOVAL_ROUTE.to_owned())),
            Some(route) => {
                let mut prompt = "Remove route ".to_owned();
                prompt.append(quoted(route.as_str()).as_str());
                prompt.append(" from every profile? [y/N]: ");
                agree(
                    args.yes,
                    terminal,
                    dialogue,
                    prompt.as_str(),
                    FocusedChange::Remove(route.clone()),
                )
            },
        };
    }
    let interactive = terminal && !has_focused_options(args);
    let provider = match args.service_provider {
        Some(provider) => provider,
        None => {
            if !interactive {
                return Err(Stop::Failed(PROVIDER_REQUIRED.to_owned()));
            }
            match choose_provider(dialogue) {
                Ok(provider) => provider,
                Err(stop) => {
                    return Err(stop);
                },
            }
        },
    };
    let route = match ask_route(args, kind, default_profile, interactive, provider, dialogue) {
        Ok(route) => route,
        Err(stop) => {
            return Err(stop);
        },
    };
    dialogue.say(review_route(&route).as_str());
    agree(args.yes, terminal, dialogue, INSTALL_PROMPT, FocusedChange::Install(route))
}

/// Reports that a route was removed.
pub fn write_removed_route(route: &str, backup: &str, output: &mut String)
    ensures
        final(output)@ == old(output)@ + "Removed focused-service route "@ + debug_text(route@)
            + " atomically.\nBackup: "@ + backup@ + "\n"@,
{
    output.append("Removed focused-service route ");
    output.append(quoted(route).as_str());
    output.append(" atomically.\nBackup: ");
    output.append(backup);
    output.append("\n");
}

/// Reports that a route was installed.
pub fn write_installed_route(
    kind: FocusedServiceKind,
    route: &str,
    backup: &str,
    output: &mut String,
)
    ensures
        final(output)@ == old(output)@ + "Focused-service route "@ + debug_text(route@)
            + " installed atomically.\nBackup: "@ + backup@ + "\nInspect: xana "@ + kind.word()
            + " inspect "@ + route@
            + "\nStart a new conversation for the frozen profile change to apply.\n"@,
{
    output.append("Focused-service route ");
    output.append(quoted(route).as_str());
    output.append(" installed atomically.\nBackup: ");
    output.append(backup);
    output.append("\nInspect: xana ");
    output.append(kind.label());
    output.append(" inspect ");
    output.append(route);
    output.append("\nStart a new conversation for the frozen profile change to apply.\n");
}

/// A focused service is never changed without consent: either `--yes` was given,
/// or the owner agreed at a terminal in the line that was read last.
pub proof fn services_change_by_consent(
    talk: Talk,
    args: ConnectArgs,
    kind: FocusedServiceKind,
    default_profile: Seq<char>,
    terminal: bool,
)
    ensures
        ({
            let (after, change) = service_set_up(talk, args, kind, default_profile, terminal);
            change matches Ok(change) && !(change is Unchanged) && !args.yes ==> {
                &&& terminal
                &&& 0 < after.next <= after.lines.len()
                &&& agrees(after.lines[after.next - 1])
            }
        }),
        !args.yes && !terminal ==> service_set_up(
            talk,
            args,
            kind,
            default_profile,
            terminal,
        ).1 is Err,
{
}

/// What is given is kept: a route that is to be installed has each value that was given
/// on the command line, without the space around it, and serves the kind of service and
/// the provider that were asked for.
pub proof fn installed_routes_are_what_was_asked_for(
    talk: Talk,
    args: ConnectArgs,
    kind: FocusedServiceKind,
    default_profile: Seq<char>,
    terminal: bool,
)
    ensures
        service_set_up(talk, args, kind, default_profile, terminal).1 matches Ok(
            ChangeModel::Install(route),
        ) ==> {
            &&& !args.remove
            &&& args.route matches Some(text) ==> route.route == trimmed(text@)
            &&& args.service_connection matches Some(text) ==> route.connection == trimmed(text@)
            &&& args.model matches Some(text) ==> route.model == trimmed(text@)
            &&& args.credential_env matches Some(text) ==> route.credential_env == trimmed(text@)
            &&& args.profile matches Some(text) ==> route.profile == trimmed(text@)
            &&& args.base_url matches Some(text) ==> route.base_url == Some(text@)
            &&& args.base_url is None ==> route.base_url is None
            &&& route.operation == (if kind == FocusedServiceKind::Image {
                "image.generate"@
            } else {
                "vision.analyze"@
            })
            &&& args.make_default ==> route.make_default
            &&& args.service_provider matches Some(provider) ==> route.adapter
                == kind.adapter_name(provider)
        },
{
}

/// A removal removes the route that is named, and only a removal was asked for removes
/// anything.
pub proof fn removals_remove_what_is_named(
    talk: Talk,
    args: ConnectArgs,
    kind: FocusedServiceKind,
    default_profile: Seq<char>,
    terminal: bool,
)
    ensures
        service_set_up(talk, args, kind, default_profile, terminal).1 matches Ok(
            ChangeModel::Remove(route),
        ) ==> args.remove && (args.route matches Some(text) && text@ == route),
        args.remove && args.yes ==> (args.route matches Some(text) ==> service_set_up(
            talk,
            args,
            kind,
            default_profile,
            terminal,
        ).1 == Ok::<ChangeModel, StopModel>(ChangeModel::Remove(text@))),
        args.remove && args.route is None ==> service_set_up(
            talk,
            args,
            kind,
            default_profile,
            terminal,
        ).1 is Err,
{
}

/// A value is kept without the space around it, and only where something is left of it
/// that is short enough and shows no control.
pub proof fn kept_values_are_trimmed(value: Seq<char>, label: Seq<char>)
    ensures
        kept_value(value, label) matches Ok(kept) ==> {
            &&& kept == trimmed(value)
            &&& kept.len() > 0
            &&& byte_count(kept) <= 512
            &&& !has_control(kept)
        },
        trimmed(value).len() > 0 && byte_count(trimmed(value)) <= 512 && !has_control(
            trimmed(value),
        ) ==> kept_value(value, label) is Ok,
{
}

/// A value that is provided is never asked for, and one that is not provided is asked
/// for only where somebody can answer.
pub proof fn provided_values_are_not_asked_for(
    talk: Talk,
    provided: Option<Seq<char>>,
    interactive: bool,
    label: Seq<char>,
    default: Option<Seq<char>>,
)
    ensures
        provided is Some ==> value_asked(talk, provided, interactive, label, default).0 == talk,
        provided is None && !interactive ==> value_asked(
            talk,
            provided,
            interactive,
            label,
            default,
        ).1 is Err,
        value_asked(talk, provided, interactive, label, default).1 matches Ok(value) ==> {
            &&& provided matches Some(given) ==> value == trimmed(given)
            &&& value.len() > 0
        },
{
}

/// The provider that is chosen is the one of the number that was entered: the first is
/// OpenAI and the second is OpenRouter, and no other number chooses any.
pub proof fn providers_are_chosen_by_number(talk: Talk, attempts: nat)
    ensures
        provider_chosen(talk, attempts).1 matches Ok(provider) ==> {
            let after = provider_chosen(talk, attempts).0;
            &&& 0 < after.next <= after.lines.len()
            &&& trimmed(after.lines[after.next - 1]) == (if provider
                == FocusedServiceProviderChoice::OpenAi {
                "1"@
            } else {
                "2"@
            })
        },
    decreases attempts,
{
    if attempts > 0 {
        let (after, line) = line_read(said(talk, PROVIDER_MENU@));
        if let Ok(Some(text)) = line {
            if trimmed(text) != "1"@ && trimmed(text) != "2"@ {
                providers_are_chosen_by_number(
                    said(after, "Choose 1 or 2.\n"@),
                    (attempts - 1) as nat,
                );
            }
        }
    }
}

/// What a service is called tells it apart: its word, its operation, its route, and its
/// adapter for every provider.
pub proof fn services_are_told_apart(
    one: FocusedServiceKind,
    other: FocusedServiceKind,
    provider: FocusedServiceProviderChoice,
    next: FocusedServiceProviderChoice,
)
    ensures
        one.word() == other.word() ==> one == other,
        one.operation_name() == other.operation_name() ==> one == other,
        one.usual_route() == other.usual_route() ==> one == other,
        one.adapter_name(provider) == other.adapter_name(next) ==> one == other && provider == next,
        one.adapter_name(provider) == provider_word(provider) + "."@ + one.word() + if one
            == FocusedServiceKind::Image {
            "s"@
        } else {
            ""@
        },
        provider_word(provider) == provider_word(next) ==> provider == next,
        usual_credential(provider) == usual_credential(next) ==> provider == next,
{
    reveal_strlit("image");
    reveal_strlit("vision");
    reveal_strlit("image.generate");
    reveal_strlit("vision.analyze");
    reveal_strlit("illustrate");
    reveal_strlit("describe");
    reveal_strlit("openai.images");
    reveal_strlit("openrouter.images");
    reveal_strlit("openai.vision");
    reveal_strlit("openrouter.vision");
    reveal_strlit("openai");
    reveal_strlit("openrouter");
    reveal_strlit("OPENAI_API_KEY");
    reveal_strlit("OPENROUTER_API_KEY");
    reveal_strlit(".");
    reveal_strlit("s");
    reveal_strlit("");
    assert(one.adapter_name(provider) =~= provider_word(provider) + "."@ + one.word() + if one
        == FocusedServiceKind::Image {
        "s"@
    } else {
        ""@
    });
    assert(one.word()[0] == other.word()[0] ==> one == other);
    assert(one.operation_name()[0] == other.operation_name()[0] ==> one == other);
    assert(one.usual_route()[0] == other.usual_route()[0] ==> one == other);
    assert(provider_word(provider)[4] == provider_word(next)[4] ==> provider == next);
    assert(usual_credential(provider)[4] == usual_credential(next)[4] ==> provider == next);
    if one.adapter_name(provider) == other.adapter_name(next) {
        assert(one.adapter_name(provider)[4] == other.adapter_name(next)[4]);
        assert(one.adapter_name(provider).last() == other.adapter_name(next).last());
    }
}

/// Every profile counts as often as it exposes a server, up to the largest number.
pub proof fn exposures_are_added_up(profiles: Seq<Profile>, profile: Profile)
    ensures
        exposures(Seq::<Profile>::empty()) == 0,
        exposures(profiles) + profile.mcp_servers@.len() <= u64::MAX ==> exposures(
            profiles.push(profile),
        ) == exposures(profiles) + profile.mcp_servers@.len(),
{
    assert(profiles.push(profile).drop_last() =~= profiles);
}

/// A service is changed only where its owner agreed, on the command line or at a terminal.
pub proof fn services_are_set_up_by_consent(
    args: &ConnectArgs,
    kind: FocusedServiceKind,
    default_profile: &str,
    terminal: bool,
    dialogue: &mut Dialogue,
    change: Result<FocusedChange, Stop>,
)
    requires
        call_ensures(
            run_focused_service,
            (args, kind, default_profile, terminal, dialogue),
            change,
        ),
    ensures
        change matches Ok(made) ==> !(made@ is Unchanged) && !args.yes ==> {
            &&& terminal
            &&& 0 < final(dialogue)@.next <= final(dialogue)@.lines.len()
            &&& agrees(final(dialogue)@.lines[final(dialogue)@.next - 1])
        },
        !args.yes && !terminal ==> change is Err,
{
    services_change_by_consent(old(dialogue)@, *args, kind, default_profile@, terminal);
}

/// A line of counts tells both of them behind their own words, and what is not known is
/// told as such.
pub proof fn counts_are_told(
    output: Seq<char>,
    head: Seq<char>,
    first: Seq<char>,
    second: Seq<char>,
    counts: Option<(u64, u64)>,
)
    ensures
        output.is_prefix_of(counts_line(output, head, first, second, counts)),
        counts matches Some((one, two)) ==> {
            &&& occurs(
                counts_line(output, head, first, second, counts),
                first + decimal(one as nat),
            )
            &&& occurs(
                counts_line(output, head, first, second, counts),
                second + decimal(two as nat),
            )
        },
        counts is None ==> counts_line(output, head, first, second, counts) == output + head
            + "unavailable (run `xana doctor`)\n"@,
{
    let whole = counts_line(output, head, first, second, counts);
    match counts {
        Some((one, two)) => {
            let t1 = output + head;
            let t2 = t1 + first;
            let t3 = t2 + decimal(one as nat);
            let t4 = t3 + second;
            let t5 = t4 + decimal(two as nat);
            assert((t5 + "\n"@).is_prefix_of(whole));
            beginnings_begin_alike(t5, "\n"@, whole);
            beginnings_begin_alike(t4, decimal(two as nat), whole);
            beginnings_begin_alike(t3, second, whole);
            beginnings_begin_alike(t2, decimal(one as nat), whole);
            beginnings_begin_alike(t1, first, whole);
            beginnings_begin_alike(output, head, whole);
            ends_occur(t1, first, decimal(one as nat));
            beginnings_are_held(t3, whole, first + decimal(one as nat));
            ends_occur(t3, second, decimal(two as nat));
            beginnings_are_held(t5, whole, second + decimal(two as nat));
        },
        None => {
            assert((output + head + "unavailable (run `xana doctor`)\n"@).is_prefix_of(whole));
            beginnings_begin_alike(
                output + head,
                "unavailable (run `xana doctor`)\n"@,
                whole,
            );
            beginnings_begin_alike(output, head, whole);
        },
    }
}

/// The hub tells how many plugins, servers and agents there are, each count behind its own
/// word, and changes nothing; it takes no option of a focused service.
pub proof fn hubs_tell_what_is_ready(
    args: &ConnectArgs,
    integration: Option<ConnectIntegration>,
    readiness: &HubReadiness,
    output: &mut String,
    written: Result<(), String>,
)
    requires
        call_ensures(write_hub, (args, integration, readiness, output), written),
    ensures
        written is Ok <==> !focused_options(*args),
        written is Err ==> final(output)@ == old(output)@,
        written is Ok ==> {
            &&& occurs(final(output)@, "configured="@ + decimal(readiness.mcp_configured as nat))
            &&& occurs(
                final(output)@,
                " exposed_by_profiles="@ + decimal(readiness.mcp_exposed as nat),
            )
            &&& readiness.plugins matches Some((installed, healthy)) ==> {
                &&& occurs(final(output)@, "installed="@ + decimal(installed as nat))
                &&& occurs(final(output)@, " healthy="@ + decimal(healthy as nat))
            }
            &&& readiness.external_agents matches Some((known, trusted)) ==> {
                &&& occurs(final(output)@, "configured="@ + decimal(known as nat))
                &&& occurs(final(output)@, " trusted="@ + decimal(trusted as nat))
            }
        },
{
    if written is Ok {
        let whole = final(output)@;
        let start = old(output)@ + HUB_HEAD@ + "Current readiness\n"@;
        let plugins = counts_line(
            start,
            "  plugins         "@,
            "installed="@,
            " healthy="@,
            readiness.plugins,
        );
        let servers = counts_line(
            plugins,
            "  MCP clients     "@,
            "configured="@,
            " exposed_by_profiles="@,
            Some((readiness.mcp_configured, readiness.mcp_exposed)),
        );
        let agents = counts_line(
            servers,
            "  external agents "@,
            "configured="@,
            " trusted="@,
            readiness.external_agents,
        );
        counts_are_told(
            start,
            "  plugins         "@,
            "installed="@,
            " healthy="@,
            readiness.plugins,
        );
        counts_are_told(
            plugins,
            "  MCP clients     "@,
            "configured="@,
            " exposed_by_profiles="@,
            Some((readiness.mcp_configured, readiness.mcp_exposed)),
        );
        counts_are_told(
            servers,
            "  external agents "@,
            "configured="@,
            " trusted="@,
            readiness.external_agents,
        );
        assert(whole == agents + hub_detail(integration));
        let mcp = decimal(readiness.mcp_configured as nat);
        let exposed = decimal(readiness.mcp_exposed as nat);
        beginnings_are_held(servers, agents, "configured="@ + mcp);
        beginnings_are_held(servers, agents, " exposed_by_profiles="@ + exposed);
        longer_texts_hold_the_same(agents, hub_detail(integration), "configured="@ + mcp);
        longer_texts_hold_the_same(
            agents,
            hub_detail(integration),
            " exposed_by_profiles="@ + exposed,
        );
        if let Some((installed, healthy)) = readiness.plugins {
            let some = "installed="@ + decimal(installed as nat);
            let well = " healthy="@ + decimal(healthy as nat);
            beginnings_are_held(plugins, servers, some);
            beginnings_are_held(plugins, servers, well);
            beginnings_are_held(servers, agents, some);
            beginnings_are_held(servers, agents, well);
            longer_texts_hold_the_same(agents, hub_detail(integration), some);
            longer_texts_hold_the_same(agents, hub_detail(integration), well);
        }
        if let Some((known, trusted)) = readiness.external_agents {
            longer_texts_hold_the_same(
                agents,
                hub_detail(integration),
                "configured="@ + decimal(known as nat),
            );
            longer_texts_hold_the_same(
                agents,
                hub_detail(integration),
                " trusted="@ + decimal(trusted as nat),
            );
        }
    }
}

/// An installed route is told with its name, its backup and the kind of service that it is
/// inspected under.
pub proof fn installed_routes_are_told(
    kind: FocusedServiceKind,
    route: &str,
    backup: &str,
    output: &mut String,
)
    requires
        call_ensures(write_installed_route, (kind, route, backup, output), ()),
    ensures
        old(output)@.is_prefix_of(final(output)@),
        occurs(final(output)@, "Focused-service route "@ + debug_text(route@)),
        occurs(final(output)@, " installed atomically.\nBackup: "@ + backup@),
        occurs(final(output)@, "\nInspect: xana "@ + kind.word()),
        occurs(final(output)@, " inspect "@ + route@),
{
    let start = old(output)@;
    let whole = final(output)@;
    let t1 = start + "Focused-service route "@;
    let t2 = t1 + debug_text(route@);
    let t3 = t2 + " installed atomically.\nBackup: "@;
    let t4 = t3 + backup@;
    let t5 = t4 + "\nInspect: xana "@;
    let t6 = t5 + kind.word();
    let t7 = t6 + " inspect "@;
    let t8 = t7 + route@;
    let t9 = t8 + "\nStart a new conversation for the frozen profile change to apply.\n"@;
    assert(t9.is_prefix_of(whole));
    beginnings_begin_alike(
        t8,
        "\nStart a new conversation for the frozen profile change to apply.\n"@,
        whole,
    );
    beginnings_begin_alike(t7, route@, whole);
    beginnings_begin_alike(t6, " inspect "@, whole);
    beginnings_begin_alike(t5, kind.word(), whole);
    beginnings_begin_alike(t4, "\nInspect: xana "@, whole);
    beginnings_begin_alike(t3, backup@, whole);
    beginnings_begin_alike(t2, " installed atomically.\nBackup: "@, whole);
    beginnings_begin_alike(t1, debug_text(route@), whole);
    beginnings_begin_alike(start, "Focused-service route "@, whole);
    ends_occur(start, "Focused-service route "@, debug_text(route@));
    beginnings_are_held(t2, whole, "Focused-service route "@ + debug_text(route@));
    ends_occur(t2, " installed atomically.\nBackup: "@, backup@);
    beginnings_are_held(t4, whole, " installed atomically.\nBackup: "@ + backup@);
    ends_occur(t4, "\nInspect: xana "@, kind.word());
    beginnings_are_held(t6, whole, "\nInspect: xana "@ + kind.word());
    ends_occur(t6, " inspect "@, route@);
    beginnings_are_held(t8, whole, " inspect "@ + route@);
}

}
