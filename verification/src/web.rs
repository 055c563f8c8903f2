//! The reviewed setup of web search and of consent to read public pages.

use crate::config::{
    allowed_by, as_name, find_profile, policy_classes, profile_index, ConnectionRegistry,
    EgressPolicy, Profile, PublicWebConsent, WebConnection, WebProvider, WebSettings,
};
use crate::connect::{ConnectArgs, PublicWebChoice, WebProviderChoice, UNCHANGED};
use crate::dialogue::{confirm, confirmed, said, Dialogue, Stop, StopModel, Talk};
use crate::order::{
    ascending, find_slot, in_key_order, insertion_keeps_order, keys, slot, slot_divides,
};
use crate::outbound::{has_class, OutboundDataClass};
use crate::text::{copy_option, debug_text, option_view, quoted, text_eq};
use vstd::prelude::*;
use vstd::string::*;

verus! {

pub const NOTHING_CHOSEN: &'static str = "web setup requires --web-provider or --public-web";

pub const NO_PROFILE: &'static str = "default profile is missing";

pub const WEB_PROMPT: &'static str = "Save these web settings? [y/N]: ";

pub const EXA: &'static str = "exa";

pub const BRAVE: &'static str = "brave";

pub const BRAVE_KEY: &'static str = "BRAVE_API_KEY";

/// Whether a choice lets more leave the machine than before.
pub open spec fn widens(args: ConnectArgs) -> bool {
    ||| args.web_provider == Some(WebProviderChoice::ExaMcp)
    ||| args.web_provider == Some(WebProviderChoice::Brave)
    ||| args.web_provider == Some(WebProviderChoice::PagesOnly)
    ||| args.public_web == Some(PublicWebChoice::Allow)
}

/// A search connection, by content.
pub struct SearchModel {
    pub name: Seq<char>,
    pub provider: WebProvider,
    pub credential_env: Option<Seq<char>>,
}

impl View for WebConnection {
    type V = SearchModel;

    open spec fn view(&self) -> SearchModel {
        SearchModel {
            name: self.name@,
            provider: self.provider,
            credential_env: option_view(self.credential_env),
        }
    }
}

/// Web settings, by content.
#[verifier::ext_equal]
pub struct WebModel {
    pub connections: Seq<SearchModel>,
    pub default_connection: Option<Seq<char>>,
    pub public_web: PublicWebConsent,
}

impl View for WebSettings {
    type V = WebModel;

    open spec fn view(&self) -> WebModel {
        WebModel {
            connections: self.connections@.map_values(|connection: WebConnection| connection@),
            default_connection: option_view(self.default_connection),
            public_web: self.public_web,
        }
    }
}

/// Where a named search connection stands, or the number of them.
pub open spec fn search_index(connections: Seq<SearchModel>, name: Seq<char>) -> nat
    decreases connections.len(),
{
    if connections.len() == 0 || connections[0].name == name {
        0
    } else {
        1 + search_index(connections.drop_first(), name)
    }
}

/// The names of search connections.
pub open spec fn search_names(connections: Seq<SearchModel>) -> Seq<Seq<char>> {
    Seq::new(connections.len(), |i: int| connections[i].name)
}

/// The connections with one of that name: it takes the place of the one there
/// was, or joins where its name belongs.
pub open spec fn with_search(connections: Seq<SearchModel>, connection: SearchModel) -> Seq<
    SearchModel,
> {
    let at = search_index(connections, connection.name);
    if at < connections.len() {
        connections.update(at as int, connection)
    } else {
        connections.insert(slot(search_names(connections), connection.name) as int, connection)
    }
}

/// The search connection that a choice brings.
pub open spec fn chosen_search(args: ConnectArgs) -> Option<SearchModel> {
    match args.web_provider {
        Some(WebProviderChoice::ExaMcp) => Some(
            SearchModel { name: EXA@, provider: WebProvider::ExaMcp, credential_env: None },
        ),
        Some(WebProviderChoice::Brave) => Some(
            SearchModel {
                name: BRAVE@,
                provider: WebProvider::Brave,
                credential_env: Some(
                    match args.credential_env {
                        Some(variable) => variable@,
                        None => BRAVE_KEY@,
                    },
                ),
            },
        ),
        _ => None,
    }
}

/// The settings after a choice. Search connections are kept even where none is
/// selected any more.
pub open spec fn web_after(web: WebModel, args: ConnectArgs) -> WebModel {
    let connections = match chosen_search(args) {
        Some(search) => with_search(web.connections, search),
        None => web.connections,
    };
    WebModel {
        connections,
        default_connection: match args.web_provider {
            None => web.default_connection,
            Some(_) => match chosen_search(args) {
                Some(search) => Some(search.name),
                None => None,
            },
        },
        public_web: match args.public_web {
            None => web.public_web,
            Some(PublicWebChoice::Ask) => PublicWebConsent::Ask,
            Some(PublicWebChoice::Allow) => PublicWebConsent::Allow,
        },
    }
}

/// The search connection that is used, if one is.
pub open spec fn selected_search(web: WebModel) -> Option<SearchModel> {
    match web.default_connection {
        None => None,
        Some(name) => if search_index(web.connections, name) < web.connections.len() {
            Some(web.connections[search_index(web.connections, name) as int])
        } else {
            None
        },
    }
}

fn find_search(connections: &Vec<WebConnection>, name: &str) -> (at: usize)
    ensures
        at == search_index(
            connections@.map_values(|connection: WebConnection| connection@),
            name@,
        ),
        at <= connections@.len(),
{
    let ghost models = connections@.map_values(|connection: WebConnection| connection@);
    let mut i: usize = 0;
    assert(models.skip(0) =~= models);
    while i < connections.len()
        invariant
            models == connections@.map_values(|connection: WebConnection| connection@),
            i <= connections@.len(),
            search_index(models, name@) == i + search_index(models.skip(i as int), name@),
        decreases connections@.len() - i,
    {
        assert(models.skip(i as int).drop_first() =~= models.skip(i + 1));
        assert(models.skip(i as int)[0] == connections@[i as int]@);
        if text_eq(connections[i].name.as_str(), name) {
            return i;
        }
        i += 1;
    }
    i
}

impl WebSettings {
    /// The search connection that is used, if one is.
    pub fn selected(&self) -> (selected: Option<&WebConnection>)
        ensures
            match selected {
                Some(connection) => selected_search(self@) == Some(connection@),
                None => selected_search(self@) is None,
            },
    {
        match &self.default_connection {
            None => None,
            Some(name) => {
                let at = find_search(&self.connections, name.as_str());
                if at < self.connections.len() {
                    Some(&self.connections[at])
                } else {
                    None
                }
            },
        }
    }

    fn apply(&mut self, args: &ConnectArgs)
        ensures
            final(self)@ == web_after(old(self)@, *args),
    {
        let search = match args.web_provider {
            Some(WebProviderChoice::ExaMcp) => Some(
                WebConnection {
                    name: EXA.to_owned(),
                    provider: WebProvider::ExaMcp,
                    credential_env: None,
                },
            ),
            Some(WebProviderChoice::Brave) => {
                let variable = match copy_option(&args.credential_env) {
                    Some(variable) => variable,
                    None => BRAVE_KEY.to_owned(),
                };
                Some(
                    WebConnection {
                        name: BRAVE.to_owned(),
                        provider: WebProvider::Brave,
                        credential_env: Some(variable),
                    },
                )
            },
            _ => None,
        };
        if args.web_provider.is_some() {
            self.default_connection = match &search {
                Some(search) => Some(search.name.clone()),
                None => None,
            };
        }
        match search {
            Some(search) => {
                let at = find_search(&self.connections, search.name.as_str());
                let ghost held = search@;
                let ghost before = old(self)@.connections;
                if at < self.connections.len() {
                    self.connections.set(at, search);
                    assert(self@.connections =~= before.update(at as int, held));
                } else {
                    let place = find_slot(&self.connections, search.name.as_str());
                    assert(keys(self.connections@) =~= search_names(before));
                    self.connections.insert(place, search);
                    assert(self@.connections =~= before.insert(place as int, held));
                }
            },
            None => {},
        }
        match args.public_web {
            None => {},
            Some(PublicWebChoice::Ask) => {
                self.public_web = PublicWebConsent::Ask;
            },
            Some(PublicWebChoice::Allow) => {
                self.public_web = PublicWebConsent::Allow;
            },
        }
    }
}

/// What a setup does to what a profile may disclose.
#[derive(Clone, Copy, PartialEq, Eq, Structural, Debug)]
pub enum Disclosure {
    /// Nothing: the choice lets no more leave the machine.
    Kept,
    /// Nothing: the profile may send prompt text already.
    Allowed,
    /// The profile gets a policy of its own that adds prompt text.
    Added,
}

/// What a setup does to what a profile may disclose.
pub open spec fn disclosure(
    policies: Seq<EgressPolicy>,
    profile: Profile,
    args: ConnectArgs,
) -> Disclosure {
    if !widens(args) {
        Disclosure::Kept
    } else if allowed_by(policies, option_view(profile.egress_policy)).contains(
        OutboundDataClass::PromptText,
    ) {
        Disclosure::Allowed
    } else {
        Disclosure::Added
    }
}

/// The name of the policy that a profile gets of its own.
pub open spec fn own_policy(profile: Seq<char>) -> Seq<char> {
    profile + "-web"@
}

/// Whether a policy has a name.
pub open spec fn has_policy(policies: Seq<EgressPolicy>, name: Seq<char>) -> bool {
    exists|i: int| 0 <= i < policies.len() && (#[trigger] policies[i]).name@ == name
}

/// The review of a choice.
pub open spec fn web_review(args: ConnectArgs, profile: Seq<char>, disclosed: Disclosure) -> Seq<
    char,
> {
    "Review web setup\n  Search:      "@ + (match args.web_provider {
        None => "unchanged"@,
        Some(WebProviderChoice::ExaMcp) => "Exa (hosted MCP)"@,
        Some(WebProviderChoice::Brave) => "Brave Search API"@,
        Some(WebProviderChoice::PagesOnly) => "public pages only"@,
        Some(WebProviderChoice::Disabled) => "disabled; configured connections are kept"@,
    }) + "\n  Public web:  "@ + (match args.public_web {
        None => "unchanged"@,
        Some(PublicWebChoice::Ask) => "ask"@,
        Some(PublicWebChoice::Allow) => "allow"@,
    }) + "\n"@ + (match disclosed {
        Disclosure::Kept => Seq::empty(),
        Disclosure::Allowed => "  Profile "@ + profile + ": prompt_text is already allowed\n"@,
        Disclosure::Added => "  Profile "@ + profile
            + ": add prompt_text to what it may disclose\n"@,
    })
}

/// What a setup comes to before anything is changed: whether it is agreed to.
pub open spec fn web_agreed(
    talk: Talk,
    registry: ConnectionRegistry,
    args: ConnectArgs,
    terminal: bool,
) -> (Talk, Result<bool, StopModel>) {
    let at = profile_index(registry.profiles@, registry.default_profile@);
    if args.web_provider is None && args.public_web is None {
        (talk, Err(StopModel::Failed(NOTHING_CHOSEN@)))
    } else if at >= registry.profiles@.len() {
        (talk, Err(StopModel::Failed(NO_PROFILE@)))
    } else {
        let profile = registry.profiles@[at as int];
        let disclosed = disclosure(registry.egress_policies@, profile, args);
        if disclosed == Disclosure::Added && has_policy(
            registry.egress_policies@,
            own_policy(profile.name@),
        ) {
            (
                talk,
                Err(
                    StopModel::Failed(
                        "egress policy "@ + debug_text(own_policy(profile.name@))
                            + " exists already; review it before web setup"@,
                    ),
                ),
            )
        } else {
            let reviewed = said(talk, web_review(args, profile.name@, disclosed));
            if args.yes {
                (said(reviewed, "Web settings saved.\n"@), Ok(true))
            } else {
                let (after, answer) = confirmed(reviewed, terminal, WEB_PROMPT@);
                match answer {
                    Err(stop) => (after, Err(stop)),
                    Ok(true) => (said(after, "Web settings saved.\n"@), Ok(true)),
                    Ok(false) => (said(after, UNCHANGED@), Ok(false)),
                }
            }
        }
    }
}

/// Whether a registry is what an agreed setup makes of another: the web settings
/// change as chosen, and no profile or policy changes but that the default
/// profile gets a policy of its own where prompt text is added.
pub open spec fn web_changed(
    before: ConnectionRegistry,
    args: ConnectArgs,
    after: ConnectionRegistry,
) -> bool {
    let at = profile_index(before.profiles@, before.default_profile@) as int;
    let profile = before.profiles@[at];
    &&& after.default_profile == before.default_profile
    &&& after.permission_mode == before.permission_mode
    &&& after.connections == before.connections
    &&& after.mcp_servers == before.mcp_servers
    &&& after.web@ == web_after(before.web@, args)
    &&& if disclosure(before.egress_policies@, profile, args) == Disclosure::Added {
        let granted = after.profiles@[at];
        let place = slot(keys(before.egress_policies@), own_policy(profile.name@)) as int;
        let policy = after.egress_policies@[place];
        &&& after.profiles@ == before.profiles@.update(at, granted)
        &&& granted == (Profile { egress_policy: granted.egress_policy, ..profile })
        &&& option_view(granted.egress_policy) == Some(own_policy(profile.name@))
        &&& after.egress_policies@ == before.egress_policies@.insert(place, policy)
        &&& policy.name@ == own_policy(profile.name@)
        &&& policy.allowed@ == allowed_by(
            before.egress_policies@,
            option_view(profile.egress_policy),
        ).push(OutboundDataClass::PromptText)
    } else {
        &&& after.profiles@ == before.profiles@
        &&& after.egress_policies@ == before.egress_policies@
    }
}

fn policy_exists(policies: &Vec<EgressPolicy>, name: &str) -> (found: bool)
    ensures
        found == has_policy(policies@, name@),
{
    let mut i: usize = 0;
    while i < policies.len()
        invariant
            i <= policies@.len(),
            forall|j: int| 0 <= j < i ==> (#[trigger] policies@[j]).name@ != name@,
        decreases policies@.len() - i,
    {
        if text_eq(policies[i].name.as_str(), name) {
            return true;
        }
        i += 1;
    }
    false
}

fn is_widening(args: &ConnectArgs) -> (yes: bool)
    ensures
        yes == widens(*args),
{
    let search = match args.web_provider {
        Some(WebProviderChoice::Disabled) => false,
        Some(_) => true,
        None => false,
    };
    let pages = match args.public_web {
        Some(PublicWebChoice::Allow) => true,
        _ => false,
    };
    search || pages
}

fn review_web(args: &ConnectArgs, profile: &str, disclosed: Disclosure) -> (text: String)
    ensures
        text@ == web_review(*args, profile@, disclosed),
{
    let mut text = "Review web setup\n  Search:      ".to_owned();
    match args.web_provider {
        None => text.append("unchanged"),
        Some(WebProviderChoice::ExaMcp) => text.append("Exa (hosted MCP)"),
        Some(WebProviderChoice::Brave) => text.append("Brave Search API"),
        Some(WebProviderChoice::PagesOnly) => text.append("public pages only"),
        Some(WebProviderChoice::Disabled) => text.append(
            "disabled; configured connections are kept",
        ),
    }
    text.append("\n  Public web:  ");
    match args.public_web {
        None => text.append("unchanged"),
        Some(PublicWebChoice::Ask) => text.append("ask"),
        Some(PublicWebChoice::Allow) => text.append("allow"),
    }
    text.append("\n");
    let mut last = String::new();
    match disclosed {
        Disclosure::Kept => {},
        Disclosure::Allowed => {
            last.append("  Profile ");
            last.append(profile);
            last.append(": prompt_text is already allowed\n");
        },
        Disclosure::Added => {
            last.append("  Profile ");
            last.append(profile);
            last.append(": add prompt_text to what it may disclose\n");
        },
    }
    proof {
        let empty = Seq::<char>::empty();
        assert(empty + "  Profile "@ =~= "  Profile "@);
    }
    text.append(last.as_str());
    text
}

/// Sets web access up. Choices that let more leave the machine add prompt text
/// to what the default profile may disclose; others leave profiles and policies
/// as they are. Nothing changes unless the owner agreed.
pub fn run_web(
    args: &ConnectArgs,
    registry: &mut ConnectionRegistry,
    terminal: bool,
    dialogue: &mut Dialogue,
) -> (changed: Result<bool, Stop>)
    ensures
        final(dialogue)@ == web_agreed(old(dialogue)@, *old(registry), *args, terminal).0,
        match changed {
            Ok(yes) => web_agreed(old(dialogue)@, *old(registry), *args, terminal).1 == Ok::<
                bool,
                StopModel,
            >(yes),
            Err(stop) => web_agreed(old(dialogue)@, *old(registry), *args, terminal).1 == Err::<
                bool,
                StopModel,
            >(stop@),
        },
        changed == Ok::<bool, Stop>(true) ==> web_changed(*old(registry), *args, *final(registry)),
        changed != Ok::<bool, Stop>(true) ==> *final(registry) == *old(registry),
        old(registry).keyed() ==> final(registry).keyed(),
{
    if args.web_provider.is_none() && args.public_web.is_none() {
        return Err(Stop::Failed(NOTHING_CHOSEN.to_owned()));
    }
    let at = match find_profile(&registry.profiles, registry.default_profile.as_str()) {
        Some(at) => at,
        None => {
            return Err(Stop::Failed(NO_PROFILE.to_owned()));
        },
    };
    let name = registry.profiles[at].name.clone();
    let mut allowed = policy_classes(
        &registry.egress_policies,
        as_name(&registry.profiles[at].egress_policy),
    );
    let disclosed = if !is_widening(args) {
        Disclosure::Kept
    } else if has_class(&allowed, OutboundDataClass::PromptText) {
        Disclosure::Allowed
    } else {
        Disclosure::Added
    };
    let mut policy = name.clone();
    policy.append("-web");
    if disclosed == Disclosure::Added && policy_exists(&registry.egress_policies, policy.as_str()) {
        let mut text = "egress policy ".to_owned();
        text.append(quoted(policy.as_str()).as_str());
        text.append(" exists already; review it before web setup");
        return Err(Stop::Failed(text));
    }
    dialogue.say(review_web(args, name.as_str(), disclosed).as_str());
    if !args.yes {
        match confirm(terminal, dialogue, WEB_PROMPT) {
            Err(stop) => {
                return Err(stop);
            },
            Ok(true) => {},
            Ok(false) => {
                dialogue.say(UNCHANGED);
                return Ok(false);
            },
        }
    }
    dialogue.say("Web settings saved.\n");
    registry.web.apply(args);
    if disclosed == Disclosure::Added {
        let mut profile = registry.profiles.remove(at);
        profile.egress_policy = Some(policy.clone());
        registry.profiles.insert(at, profile);
        allowed.push(OutboundDataClass::PromptText);
        let place = find_slot(&registry.egress_policies, policy.as_str());
        registry.egress_policies.insert(place, EgressPolicy { name: policy, allowed });
        assert(registry.profiles@ =~= old(registry).profiles@.update(
            at as int,
            registry.profiles@[at as int],
        ));
    }
    proof {
        if old(registry).keyed() {
            web_setup_keeps_order(old(dialogue)@, terminal, *old(registry), *args, *registry);
        }
    }
    Ok(true)
}

/// A choice that narrows what may leave the machine leaves every profile and
/// every policy as it was.
pub proof fn narrowing_keeps_profiles(
    before: ConnectionRegistry,
    args: ConnectArgs,
    after: ConnectionRegistry,
)
    requires
        !widens(args),
        web_changed(before, args, after),
    ensures
        after.profiles@ == before.profiles@,
        after.egress_policies@ == before.egress_policies@,
{
}

/// No setup takes anything from what is configured: chat connections stay as
/// they are, existing policies keep what they allow, and search connections are
/// only added or replaced by their name.
pub proof fn web_setup_retains(
    before: ConnectionRegistry,
    args: ConnectArgs,
    after: ConnectionRegistry,
)
    requires
        web_changed(before, args, after),
    ensures
        after.connections == before.connections,
        forall|i: int|
            0 <= i < before.egress_policies@.len() ==> after.egress_policies@.contains(
                #[trigger] before.egress_policies@[i],
            ),
        forall|i: int|
            0 <= i < before.web@.connections.len() && (chosen_search(args) matches Some(search)
                ==> search.name != before.web@.connections[i].name)
                ==> after.web@.connections.contains(#[trigger] before.web@.connections[i]),
{
    let at = profile_index(before.profiles@, before.default_profile@) as int;
    let profile = before.profiles@[at];
    let policies = before.egress_policies@;
    if disclosure(policies, profile, args) == Disclosure::Added {
        let own = own_policy(profile.name@);
        slot_divides(keys(policies), own);
        let place = slot(keys(policies), own) as int;
        policies.insert_ensures(place, after.egress_policies@[place]);
        assert forall|i: int| 0 <= i < policies.len() implies after.egress_policies@.contains(
            #[trigger] policies[i],
        ) by {
            if i < place {
                assert(after.egress_policies@[i] == policies[i]);
            } else {
                assert(after.egress_policies@[i + 1] == policies[i]);
            }
        }
    } else {
        assert forall|i: int| 0 <= i < policies.len() implies after.egress_policies@.contains(
            #[trigger] policies[i],
        ) by {
            assert(after.egress_policies@[i] == policies[i]);
        }
    }
    let searches = before.web@.connections;
    let grown = after.web@.connections;
    match chosen_search(args) {
        None => {
            assert forall|i: int| 0 <= i < searches.len() implies grown.contains(
                #[trigger] searches[i],
            ) by {
                assert(grown[i] == searches[i]);
            }
        },
        Some(search) => {
            search_index_finds(searches, search.name);
            let found = search_index(searches, search.name) as int;
            slot_divides(search_names(searches), search.name);
            let place = slot(search_names(searches), search.name) as int;
            searches.insert_ensures(place, search);
            assert forall|i: int|
                0 <= i < searches.len() && search.name != searches[i].name implies grown.contains(
                #[trigger] searches[i],
            ) by {
                if found < searches.len() {
                    assert(grown[i] == searches[i]);
                } else if i < place {
                    assert(grown[i] == searches[i]);
                } else {
                    assert(grown[i + 1] == searches[i]);
                }
            }
        },
    }
}

proof fn search_index_finds(connections: Seq<SearchModel>, name: Seq<char>)
    ensures
        ({
            let at = search_index(connections, name);
            if at < connections.len() {
                connections[at as int].name == name
            } else {
                at == connections.len() && !search_names(connections).contains(name)
            }
        }),
    decreases connections.len(),
{
    if connections.len() > 0 && connections[0].name != name {
        let rest = connections.drop_first();
        search_index_finds(rest, name);
        let at = search_index(connections, name) as int;
        if at < connections.len() {
            assert(rest[at - 1] == connections[at]);
        } else if search_names(connections).contains(name) {
            let k = search_names(connections).index_of(name);
            assert(connections[k].name == name);
            assert(search_names(rest)[k - 1] == name);
        }
    }
}

proof fn searches_stay_in_order(connections: Seq<SearchModel>, connection: SearchModel)
    requires
        ascending(search_names(connections)),
    ensures
        ascending(search_names(with_search(connections, connection))),
{
    let names = search_names(connections);
    search_index_finds(connections, connection.name);
    let at = search_index(connections, connection.name) as int;
    if at < connections.len() {
        assert(search_names(connections.update(at, connection)) =~= names);
    } else {
        insertion_keeps_order(names, connection.name);
        let place = slot(names, connection.name) as int;
        connections.insert_ensures(place, connection);
        names.insert_ensures(place, connection.name);
        assert(search_names(connections.insert(place, connection)) =~= names.insert(
            place,
            connection.name,
        ));
    }
}

/// An agreed setup keeps every list of the registry in the order of its names,
/// with each name once.
pub proof fn web_setup_keeps_order(
    talk: Talk,
    terminal: bool,
    before: ConnectionRegistry,
    args: ConnectArgs,
    after: ConnectionRegistry,
)
    requires
        before.keyed(),
        web_agreed(talk, before, args, terminal).1 == Ok::<bool, StopModel>(true),
        web_changed(before, args, after),
    ensures
        after.keyed(),
{
    let at = profile_index(before.profiles@, before.default_profile@) as int;
    let profile = before.profiles@[at];
    let policies = before.egress_policies@;
    if disclosure(policies, profile, args) == Disclosure::Added {
        let own = own_policy(profile.name@);
        let names = keys(policies);
        if names.contains(own) {
            let k = names.index_of(own);
            assert(policies[k].name@ == own);
        }
        insertion_keeps_order(names, own);
        let place = slot(names, own) as int;
        policies.insert_ensures(place, after.egress_policies@[place]);
        names.insert_ensures(place, own);
        assert(keys(after.egress_policies@) =~= names.insert(place, own));
        assert(keys(after.profiles@) =~= keys(before.profiles@));
        assert forall|i: int| 0 <= i < after.profiles@.len() implies in_key_order(
            (#[trigger] after.profiles@[i]).mcp_allowlists@,
        ) by {
            assert(in_key_order(before.profiles@[i].mcp_allowlists@));
        }
    }
    assert(search_names(before.web@.connections) =~= keys(before.web.connections@));
    assert(search_names(after.web@.connections) =~= keys(after.web.connections@));
    if let Some(search) = chosen_search(args) {
        searches_stay_in_order(before.web@.connections, search);
    }
}

/// Turning search off, or choosing pages only, selects no search connection, and
/// keeps those that are configured.
pub proof fn unselected_search_is_kept(web: WebModel, args: ConnectArgs)
    requires
        args.web_provider == Some(WebProviderChoice::Disabled) || args.web_provider == Some(
            WebProviderChoice::PagesOnly,
        ),
    ensures
        selected_search(web_after(web, args)) is None,
        web_after(web, args).connections == web.connections,
{
}

/// Consent to read public pages selects no search.
pub proof fn consent_selects_nothing(web: WebModel, args: ConnectArgs)
    requires
        args.web_provider is None,
    ensures
        selected_search(web_after(web, args)) == selected_search(web),
{
}

/// A search that is chosen is the one that is used, with the provider that was chosen;
/// where no search is chosen none is used, and where nothing is said of it all stays.
pub proof fn the_chosen_search_is_used(web: WebModel, args: ConnectArgs)
    ensures
        ({
            let after = web_after(web, args);
            &&& args.web_provider == Some(WebProviderChoice::ExaMcp) ==> (selected_search(after)
                matches Some(search) && search.provider == WebProvider::ExaMcp
                && search.credential_env is None)
            &&& args.web_provider == Some(WebProviderChoice::Brave) ==> (selected_search(after)
                matches Some(search) && search.provider == WebProvider::Brave && (
            args.credential_env matches Some(variable) ==> search.credential_env == Some(
                variable@,
            )))
            &&& args.web_provider == Some(WebProviderChoice::PagesOnly) || args.web_provider
                == Some(WebProviderChoice::Disabled) ==> selected_search(after) is None
            &&& args.web_provider is None ==> after.default_connection == web.default_connection
                && after.connections == web.connections
            &&& args.public_web == Some(PublicWebChoice::Allow) ==> after.public_web
                == PublicWebConsent::Allow
            &&& args.public_web == Some(PublicWebChoice::Ask) ==> after.public_web
                == PublicWebConsent::Ask
            &&& args.public_web is None ==> after.public_web == web.public_web
        }),
{
    if let Some(search) = chosen_search(args) {
        searches_are_found_again(web.connections, search);
    }
}

proof fn searches_stand_at_their_index(connections: Seq<SearchModel>, name: Seq<char>)
    ensures
        search_index(connections, name) <= connections.len(),
        search_index(connections, name) < connections.len() ==> connections[search_index(
            connections,
            name,
        ) as int].name == name,
        forall|i: int|
            0 <= i < search_index(connections, name) ==> (#[trigger] connections[i]).name != name,
    decreases connections.len(),
{
    if connections.len() > 0 && connections[0].name != name {
        let rest = connections.drop_first();
        searches_stand_at_their_index(rest, name);
        assert forall|i: int| 0 <= i < search_index(connections, name) implies (
        #[trigger] connections[i]).name != name by {
            if i > 0 {
                assert(rest[i - 1] == connections[i]);
            }
        }
    }
}

proof fn searches_are_found_again(connections: Seq<SearchModel>, search: SearchModel)
    ensures
        ({
            let all = with_search(connections, search);
            let at = search_index(all, search.name);
            at < all.len() && all[at as int] == search
        }),
{
    searches_stand_at_their_index(connections, search.name);
    let all = with_search(connections, search);
    searches_stand_at_their_index(all, search.name);
    let at = search_index(connections, search.name) as int;
    let found = search_index(all, search.name) as int;
    if at < connections.len() {
        assert(all[at] == search);
        if found < at {
            assert(all[found] == connections[found]);
        } else if found > at {
            assert(all[at].name != search.name);
        }
    } else {
        let names = search_names(connections);
        crate::order::slot_divides(names, search.name);
        let place = slot(names, search.name) as int;
        assert(place <= connections.len());
        assert(all[place] == search);
        assert forall|i: int| 0 <= i < connections.len() implies (#[trigger] connections[i]).name
            != search.name by {}
        if found < place {
            assert(all[found] == connections[found]);
        } else if found > place {
            assert(all[place].name != search.name);
        }
    }
}

/// Only a choice that sends more than before widens what is sent: a search, pages, or
/// the consent to read them without asking.
pub proof fn asking_first_widens_nothing(args: ConnectArgs)
    ensures
        widens(args) ==> args.web_provider is Some || args.public_web == Some(
            PublicWebChoice::Allow,
        ),
        args.web_provider == Some(WebProviderChoice::Disabled) && args.public_web != Some(
            PublicWebChoice::Allow,
        ) ==> !widens(args),
        args.web_provider is None && args.public_web != Some(PublicWebChoice::Allow) ==> !widens(
            args,
        ),
        args.web_provider == Some(WebProviderChoice::Brave) ==> widens(args),
        args.web_provider == Some(WebProviderChoice::ExaMcp) ==> widens(args),
        args.web_provider == Some(WebProviderChoice::PagesOnly) ==> widens(args),
{
}

/// The web settings change only where their owner agreed, on the command line or at a
/// terminal; otherwise everything stays as it was.
pub proof fn web_settings_change_by_consent(
    args: &ConnectArgs,
    registry: &mut ConnectionRegistry,
    terminal: bool,
    dialogue: &mut Dialogue,
    changed: Result<bool, Stop>,
)
    requires
        call_ensures(run_web, (args, registry, terminal, dialogue), changed),
    ensures
        changed != Ok::<bool, Stop>(true) ==> *final(registry) == *old(registry),
        changed == Ok::<bool, Stop>(true) ==> args.yes || terminal,
        changed == Ok::<bool, Stop>(true) ==> args.web_provider is Some || args.public_web is Some,
        args.web_provider is None && args.public_web is None ==> changed is Err,
{
}

}
