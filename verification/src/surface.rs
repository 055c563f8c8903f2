//! The edge of the program: which surface a conversation gets, what the terminal
//! can show, and first-time initialization.

pub mod init;

use crate::connect::ConnectIntegration;
use crate::text::{
    chars_of, contains, eq_ignoring_case, first_index, lower, lowered, number_of, occurs,
    parse_number, parts_occur, text_eq, text_of,
};
use vstd::prelude::*;
use vstd::string::*;

verus! {

pub const COMBINED_OPTIONS: &'static str = "chat surface, continuation, and one-shot options cannot be combined with a subcommand";

pub const COMBINED_IF_NEEDED: &'static str = "--if-needed cannot be combined with other setup options";

pub const TUI_NEEDS_TERMINAL: &'static str = "--tui requires interactive stdin and stdout; use `xana --plain`";

pub const TUI_FAILED: &'static str = "could not initialize the required Xana TUI";

/// The options that choose how a conversation is held.
#[derive(Clone, Copy, PartialEq, Eq, Structural, Debug)]
pub struct ChatOptions {
    pub resume: bool,
    pub continue_chat: bool,
    pub plain: bool,
    pub tui: bool,
    pub print: bool,
}

/// Whether the options of a conversation stand with a subcommand.
pub fn admit_options(options: ChatOptions, subcommand: bool) -> (admitted: Result<(), String>)
    ensures
        ({
            let chat = options.resume || options.continue_chat || options.plain || options.tui
                || options.print;
            if chat && subcommand {
                admitted matches Err(text) && text@ == COMBINED_OPTIONS@
            } else {
                admitted is Ok
            }
        }),
{
    if (options.resume || options.continue_chat || options.plain || options.tui || options.print)
        && subcommand {
        return Err(COMBINED_OPTIONS.to_owned());
    }
    Ok(())
}

/// Whether setup may be asked for only where it is needed: alone.
pub fn admit_if_needed(if_needed: bool, other_options: bool) -> (admitted: Result<bool, String>)
    ensures
        match admitted {
            Ok(only_if_needed) => only_if_needed == if_needed && !(if_needed && other_options),
            Err(text) => if_needed && other_options && text@ == COMBINED_IF_NEEDED@,
        },
{
    if if_needed && other_options {
        return Err(COMBINED_IF_NEEDED.to_owned());
    }
    Ok(if_needed)
}

/// What is to be done about a configuration before a conversation.
#[derive(Debug, PartialEq, Eq)]
pub enum SetupNeed {
    Ready,
    Guide { notice: String },
    Refuse { reason: String },
}

/// What is said where nobody can be guided.
pub open spec fn setup_refusal(path: Seq<char>, error: Seq<char>) -> Seq<char> {
    "Xana configuration is absent or invalid at "@ + path + ": "@ + error
        + "\nrun `xana setup --non-interactive --kind KIND --connection NAME --model MODEL --permission-mode MODE --yes`"@
}

/// What is said before guided setup.
pub open spec fn setup_notice(error: Seq<char>) -> Seq<char> {
    "xana: configuration is absent or invalid: "@ + error
        + "\nxana: starting provider-neutral guided setup\n"@
}

/// Decides what a configuration that could not be loaded calls for: guidance in a
/// terminal, and a refusal elsewhere.
pub fn ensure_setup(load_error: Option<&str>, terminal: bool, path: &str) -> (need: SetupNeed)
    ensures
        match load_error {
            None => need is Ready,
            Some(error) => if terminal {
                need matches SetupNeed::Guide { notice } && notice@ == setup_notice(error@)
            } else {
                need matches SetupNeed::Refuse { reason } && reason@ == setup_refusal(
                    path@,
                    error@,
                )
            },
        },
{
    match load_error {
        None => SetupNeed::Ready,
        Some(error) => {
            if terminal {
                let mut notice = "xana: configuration is absent or invalid: ".to_owned();
                notice.append(error);
                notice.append("\nxana: starting provider-neutral guided setup\n");
                SetupNeed::Guide { notice }
            } else {
                let mut reason = "Xana configuration is absent or invalid at ".to_owned();
                reason.append(path);
                reason.append(": ");
                reason.append(error);
                reason.append(
                    "\nrun `xana setup --non-interactive --kind KIND --connection NAME --model MODEL --permission-mode MODE --yes`",
                );
                SetupNeed::Refuse { reason }
            }
        },
    }
}

/// The surface that a conversation is held on.
#[derive(Clone, Copy, PartialEq, Eq, Structural, Debug)]
pub enum SurfaceChoice {
    Plain,
    TryTui { required: bool },
}

/// Chooses the surface of a conversation.
pub fn choose_surface(plain: bool, require_tui: bool, input_terminal: bool, output_terminal: bool) -> (
    choice: Result<SurfaceChoice, String>)
    ensures
        ({
            let interactive = input_terminal && output_terminal;
            if require_tui && !interactive {
                choice matches Err(text) && text@ == TUI_NEEDS_TERMINAL@
            } else if plain || !interactive {
                choice == Ok::<SurfaceChoice, String>(SurfaceChoice::Plain)
            } else {
                choice == Ok::<SurfaceChoice, String>(
                    SurfaceChoice::TryTui { required: require_tui },
                )
            }
        }),
{
    let interactive = input_terminal && output_terminal;
    if require_tui && !interactive {
        return Err(TUI_NEEDS_TERMINAL.to_owned());
    }
    if plain || !interactive {
        return Ok(SurfaceChoice::Plain);
    }
    Ok(SurfaceChoice::TryTui { required: require_tui })
}

/// What a full screen that could not be had leads to: a plain surface with a
/// notice, unless the full screen was required.
pub fn without_tui(required: bool, error: &str) -> (notice: Result<String, String>)
    ensures
        if required {
            notice matches Err(text) && text@ == TUI_FAILED@
        } else {
            notice matches Ok(text) && text@
                == "xana: could not initialize the full-screen terminal ("@ + error@
                + "); falling back to --plain\n"@
        },
{
    if required {
        return Err(TUI_FAILED.to_owned());
    }
    let mut text = "xana: could not initialize the full-screen terminal (".to_owned();
    text.append(error);
    text.append("); falling back to --plain\n");
    Ok(text)
}

/// How many colors a terminal shows.
#[derive(Clone, Copy, PartialEq, Eq, Structural, Debug)]
pub enum ColorDepth {
    Absent,
    Ansi16,
    Ansi256,
    TrueColor,
}

/// What a terminal's background is.
#[derive(Clone, Copy, PartialEq, Eq, Structural, Debug)]
pub enum Background {
    Dark,
    Light,
}

/// The environment, as far as it tells of the terminal.
#[derive(Debug, PartialEq, Eq)]
pub struct TerminalEnvironment {
    pub no_color: bool,
    pub term: Option<String>,
    pub colorterm: Option<String>,
    pub colorfgbg: Option<String>,
    pub columns: Option<String>,
    pub lc_all: Option<String>,
    pub lang: Option<String>,
    pub reduced_motion: Option<String>,
    pub windows: bool,
}

/// What is known of a terminal.
#[derive(Clone, Copy, PartialEq, Eq, Structural, Debug)]
pub struct TerminalFacts {
    pub input_is_terminal: bool,
    pub output_is_terminal: bool,
    pub color_depth: ColorDepth,
    pub background: Option<Background>,
    pub unicode: bool,
    pub width: u16,
    pub reduced_motion: bool,
    pub dumb: bool,
}

/// Whether a value is there and mentions a word in any case.
pub open spec fn mentions(value: Option<String>, word: Seq<char>) -> bool {
    value matches Some(text) && occurs(lowered(text@), word)
}

fn value_mentions(value: &Option<String>, word: &str) -> (yes: bool)
    ensures
        yes == mentions(*value, word@),
{
    match value {
        Some(text) => contains(lower(text.as_str()).as_str(), word),
        None => false,
    }
}

/// Whether the terminal can do nothing.
pub open spec fn is_dumb(environment: TerminalEnvironment) -> bool {
    environment.term matches Some(term) && lowered(term@) == lowered("dumb"@)
}

/// The colors that the terminal shows.
pub open spec fn depth_of(environment: TerminalEnvironment, output_terminal: bool) -> ColorDepth {
    if environment.no_color || !output_terminal || is_dumb(environment) {
        ColorDepth::Absent
    } else if mentions(environment.colorterm, "truecolor"@) {
        ColorDepth::TrueColor
    } else if mentions(environment.term, "256color"@) {
        ColorDepth::Ansi256
    } else {
        ColorDepth::Ansi16
    }
}

/// What stands behind the last `mark`, or all where there is none.
pub open spec fn behind_last(text: Seq<char>, mark: char) -> Seq<char>
    decreases text.len(),
{
    let at = first_index(text, mark);
    if at < text.len() {
        behind_last(text.skip(at as int + 1), mark)
    } else {
        text
    }
}

fn last_part(text: &str, mark: char) -> (part: String)
    ensures
        part@ == behind_last(text@, mark),
{
    let chars = chars_of(text);
    let ghost whole = text@;
    let mut start: usize = 0;
    let mut i: usize = 0;
    assert(whole.skip(0) =~= whole);
    assert(whole.subrange(0, 0) =~= Seq::<char>::empty());
    while i < chars.len()
        invariant
            chars@ == whole,
            start <= i <= chars@.len(),
            behind_last(whole, mark) == behind_last(whole.skip(start as int), mark),
            forall|j: int| start <= j < i ==> chars@[j] != mark,
        decreases chars@.len() - i,
    {
        if chars[i] == mark {
            proof {
                let rest = whole.skip(start as int);
                assert forall|j: int| 0 <= j < i - start implies rest[j] != mark by {
                    assert(rest[j] == chars@[start + j]);
                }
                first_mark_is_first(rest, mark, i - start);
                assert(rest.skip(i - start + 1) =~= whole.skip(i + 1));
            }
            start = i + 1;
        }
        i += 1;
    }
    proof {
        let rest = whole.skip(start as int);
        assert forall|j: int| 0 <= j < rest.len() implies rest[j] != mark by {
            assert(rest[j] == chars@[start + j]);
        }
        no_mark_is_found(rest, mark);
        assert(whole.subrange(start as int, whole.len() as int) =~= rest);
    }
    text_of(&chars, start, chars.len())
}

proof fn first_mark_is_first(text: Seq<char>, mark: char, at: int)
    requires
        0 <= at < text.len(),
        text[at] == mark,
        forall|j: int| 0 <= j < at ==> text[j] != mark,
    ensures
        first_index(text, mark) == at,
    decreases text.len(),
{
    if at > 0 {
        let rest = text.drop_first();
        assert forall|j: int| 0 <= j < at - 1 implies rest[j] != mark by {
            assert(rest[j] == text[j + 1]);
        }
        first_mark_is_first(rest, mark, at - 1);
    }
}

proof fn no_mark_is_found(text: Seq<char>, mark: char)
    requires
        forall|j: int| 0 <= j < text.len() ==> text[j] != mark,
    ensures
        first_index(text, mark) == text.len(),
    decreases text.len(),
{
    if text.len() > 0 {
        let rest = text.drop_first();
        assert forall|j: int| 0 <= j < rest.len() implies rest[j] != mark by {
            assert(rest[j] == text[j + 1]);
        }
        no_mark_is_found(rest, mark);
    }
}

/// The background that a pair of color numbers tells of.
pub open spec fn background_of(colors: Option<String>) -> Option<Background> {
    match colors {
        None => None,
        Some(colors) => match number_of(behind_last(colors@, ';'), 255) {
            None => None,
            Some(number) => if number <= 6 {
                Some(Background::Dark)
            } else {
                Some(Background::Light)
            },
        },
    }
}

/// The width that a terminal is taken to have.
pub open spec fn width_of(columns: Option<String>) -> nat {
    match columns {
        None => 80,
        Some(columns) => match number_of(columns@, 65535) {
            Some(width) => if 20 <= width <= 500 {
                width
            } else {
                80
            },
            None => 80,
        },
    }
}

/// Whether the terminal shows text beyond ASCII.
pub open spec fn shows_unicode(environment: TerminalEnvironment) -> bool {
    let locale = if environment.lc_all is Some {
        environment.lc_all
    } else {
        environment.lang
    };
    mentions(locale, "utf-8"@) || mentions(locale, "utf8"@) || environment.windows
}

/// Whether less motion is asked for.
pub open spec fn less_motion(value: Option<String>) -> bool {
    value matches Some(text) && text@ != "0"@ && text@ != "false"@ && text@ != "no"@
}

/// What the environment tells of the terminal.
pub open spec fn facts_of(
    environment: TerminalEnvironment,
    input_terminal: bool,
    output_terminal: bool,
) -> TerminalFacts {
    TerminalFacts {
        input_is_terminal: input_terminal,
        output_is_terminal: output_terminal,
        color_depth: depth_of(environment, output_terminal),
        background: background_of(environment.colorfgbg),
        unicode: shows_unicode(environment),
        width: width_of(environment.columns) as u16,
        reduced_motion: less_motion(environment.reduced_motion),
        dumb: is_dumb(environment),
    }
}

/// Reads off the environment what the terminal is.
pub fn terminal_facts(
    environment: &TerminalEnvironment,
    input_terminal: bool,
    output_terminal: bool,
) -> (facts: TerminalFacts)
    ensures
        facts == facts_of(*environment, input_terminal, output_terminal),
        facts.width == width_of(environment.columns),
{
    let dumb = match &environment.term {
        Some(term) => eq_ignoring_case(term.as_str(), "dumb"),
        None => false,
    };
    let color_depth = if environment.no_color || !output_terminal || dumb {
        ColorDepth::Absent
    } else if value_mentions(&environment.colorterm, "truecolor") {
        ColorDepth::TrueColor
    } else if value_mentions(&environment.term, "256color") {
        ColorDepth::Ansi256
    } else {
        ColorDepth::Ansi16
    };
    let background = match &environment.colorfgbg {
        None => None,
        Some(colors) => match parse_number(last_part(colors.as_str(), ';').as_str(), 255) {
            None => None,
            Some(number) => if number <= 6 {
                Some(Background::Dark)
            } else {
                Some(Background::Light)
            },
        },
    };
    let width: u16 = match &environment.columns {
        None => 80,
        Some(columns) => match parse_number(columns.as_str(), 65535) {
            Some(width) => if 20 <= width && width <= 500 {
                width
            } else {
                80
            },
            None => 80,
        },
    };
    let locale = if environment.lc_all.is_some() {
        &environment.lc_all
    } else {
        &environment.lang
    };
    let unicode = value_mentions(locale, "utf-8") || value_mentions(locale, "utf8")
        || environment.windows;
    let reduced_motion = match &environment.reduced_motion {
        Some(value) => !text_eq(value.as_str(), "0") && !text_eq(value.as_str(), "false")
            && !text_eq(value.as_str(), "no"),
        None => false,
    };
    TerminalFacts {
        input_is_terminal: input_terminal,
        output_is_terminal: output_terminal,
        color_depth,
        background,
        unicode,
        width,
        reduced_motion,
        dumb,
    }
}

/// Whether a banner belongs on a surface.
pub fn shows_banner(selected_surface: bool, facts: TerminalFacts) -> (yes: bool)
    ensures
        yes == (selected_surface && facts.input_is_terminal && facts.output_is_terminal
            && !facts.dumb),
{
    selected_surface && facts.input_is_terminal && facts.output_is_terminal && !facts.dumb
}

/// A terminal that is not one shows no color, whatever the environment says; and
/// the width that is used is always a usable one.
pub proof fn terminals_are_taken_carefully(
    environment: TerminalEnvironment,
    input_terminal: bool,
    output_terminal: bool,
)
    ensures
        !output_terminal || environment.no_color ==> facts_of(
            environment,
            input_terminal,
            output_terminal,
        ).color_depth == ColorDepth::Absent,
        20 <= facts_of(environment, input_terminal, output_terminal).width <= 500,
{
}

pub const INIT_DEPRECATED: &'static str = "`xana init` is deprecated through v0.5.0; use provider-neutral `xana setup`.\n";

/// What was found at the place of the configuration.
#[derive(Debug, PartialEq, Eq)]
pub enum FoundConfig {
    Valid,
    Missing,
    Invalid,
}

/// How initialization begins.
#[derive(Debug, PartialEq, Eq)]
pub enum InitStart {
    Plan,
    Done,
    Refuse { reason: String },
}

/// What is said of a configuration that is there already.
pub open spec fn already_initialized(output: Seq<char>, path: Seq<char>) -> Seq<char> {
    output + "Xana is already initialized.\n  Config: "@ + path + "\n"@
}

fn write_already(path: &str, output: &mut String)
    ensures
        final(output)@ == already_initialized(old(output)@, path@),
{
    output.append("Xana is already initialized.\n  Config: ");
    output.append(path);
    output.append("\n");
}

/// Begins initialization. A configuration that is there is left alone, a broken
/// one too.
pub fn start_init(found: FoundConfig, path: &str, output: &mut String) -> (start: InitStart)
    ensures
        match found {
            FoundConfig::Valid => start is Done && final(output)@ == already_initialized(
                old(output)@ + INIT_DEPRECATED@,
                path@,
            ),
            FoundConfig::Missing => start is Plan && final(output)@ == old(output)@
                + INIT_DEPRECATED@,
            FoundConfig::Invalid => (start matches InitStart::Refuse { reason } && reason@
                == "cannot initialize over the configuration at "@ + path@) && final(output)@
                == old(output)@ + INIT_DEPRECATED@,
        },
{
    output.append(INIT_DEPRECATED);
    match found {
        FoundConfig::Valid => {
            write_already(path, output);
            InitStart::Done
        },
        FoundConfig::Missing => InitStart::Plan,
        FoundConfig::Invalid => {
            let mut reason = "cannot initialize over the configuration at ".to_owned();
            reason.append(path);
            InitStart::Refuse { reason }
        },
    }
}

/// A planned configuration.
#[derive(Debug, PartialEq, Eq)]
pub struct PlannedConfig {
    pub connection: String,
    pub codex: bool,
    pub model: String,
}

pub const NO_CHANGES: &'static str = "No changes made.\n";

/// Shows a configuration that is not written.
pub fn write_preview(path: &str, rendered: &str, output: &mut String)
    ensures
        final(output)@ == old(output)@ + "Configuration preview (not written): "@ + path@ + "\n\n"@
            + rendered@,
{
    output.append("Configuration preview (not written): ");
    output.append(path);
    output.append("\n\n");
    output.append(rendered);
}

/// What is said of a configuration that was created.
pub open spec fn created_text(
    output: Seq<char>,
    path: Seq<char>,
    quiet: bool,
    planned: PlannedConfig,
) -> Seq<char> {
    if quiet {
        output + "configuration created: "@ + path + "\n"@
    } else {
        let told = output + "Configuration created.\n  Config:   "@ + path + "\n  Connection: "@
            + planned.connection@ + "\n  Model:    "@ + planned.model@ + "\n\n"@;
        if planned.codex {
            told + "Next:\n  1. xana connection status "@ + planned.connection@
                + "\n  2. xana connection login "@ + planned.connection@
                + "\n  3. xana model refresh "@ + planned.connection@
                + "\n  4. xana model list --connection "@ + planned.connection@
                + "\n  5. xana model use "@ + planned.connection@
                + "/MODEL\n  6. xana\n\nRunning from this source checkout? Replace `xana` with `cargo run --`,\nfor example: cargo run -- connection status "@
                + planned.connection@ + "\n"@
        } else {
            told + "Next: xana\n"@
        }
    }
}

/// Reports what came of writing a configuration, and what is to be done next.
pub fn write_init_outcome(
    created: bool,
    path: &str,
    non_interactive: bool,
    planned: &PlannedConfig,
    output: &mut String,
)
    ensures
        final(output)@ == (if created {
            created_text(old(output)@, path@, non_interactive, *planned)
        } else {
            already_initialized(old(output)@, path@)
        }),
{
    if !created {
        write_already(path, output);
        return;
    }
    if non_interactive {
        output.append("configuration created: ");
        output.append(path);
        output.append("\n");
        return;
    }
    output.append("Configuration created.\n  Config:   ");
    output.append(path);
    output.append("\n  Connection: ");
    output.append(planned.connection.as_str());
    output.append("\n  Model:    ");
    output.append(planned.model.as_str());
    output.append("\n\n");
    if planned.codex {
        output.append("Next:\n  1. xana connection status ");
        output.append(planned.connection.as_str());
        output.append("\n  2. xana connection login ");
        output.append(planned.connection.as_str());
        output.append("\n  3. xana model refresh ");
        output.append(planned.connection.as_str());
        output.append("\n  4. xana model list --connection ");
        output.append(planned.connection.as_str());
        output.append("\n  5. xana model use ");
        output.append(planned.connection.as_str());
        output.append(
            "/MODEL\n  6. xana\n\nRunning from this source checkout? Replace `xana` with `cargo run --`,\nfor example: cargo run -- connection status ",
        );
        output.append(planned.connection.as_str());
        output.append("\n");
    } else {
        output.append("Next: xana\n");
    }
}

/// The integrations and the commands that set them up.
pub const INTEGRATIONS: &'static str = "Xana integration hub (read-only until you choose an exact command)\n  provider        xana connect provider\n  profile         xana connect profile\n  plugin          xana plugin list\n  MCP             xana mcp list\n  external agent  xana external-agent list\n  image routes    xana image list\n";

/// The name of an integration.
pub open spec fn integration_name(integration: ConnectIntegration) -> Seq<char> {
    match integration {
        ConnectIntegration::Provider => "Provider"@,
        ConnectIntegration::Profile => "Profile"@,
        ConnectIntegration::Plugin => "Plugin"@,
        ConnectIntegration::Mcp => "Mcp"@,
        ConnectIntegration::ExternalAgent => "ExternalAgent"@,
        ConnectIntegration::Image => "Image"@,
        ConnectIntegration::Vision => "Vision"@,
        ConnectIntegration::Web => "Web"@,
    }
}

fn name_of_integration(integration: ConnectIntegration) -> (name: &'static str)
    ensures
        name@ == integration_name(integration),
{
    match integration {
        ConnectIntegration::Provider => "Provider",
        ConnectIntegration::Profile => "Profile",
        ConnectIntegration::Plugin => "Plugin",
        ConnectIntegration::Mcp => "Mcp",
        ConnectIntegration::ExternalAgent => "ExternalAgent",
        ConnectIntegration::Image => "Image",
        ConnectIntegration::Vision => "Vision",
        ConnectIntegration::Web => "Web",
    }
}

/// Lists the integrations, and points out the one that was chosen.
pub fn write_integrations(selected: Option<ConnectIntegration>, output: &mut String)
    ensures
        final(output)@ == (match selected {
            Some(integration) => old(output)@ + INTEGRATIONS@ + "Selected "@ + integration_name(
                integration,
            )
                + "; use the exact command shown above so review, cancellation, and failures remain explicit.\n"@,
            None => old(output)@ + INTEGRATIONS@,
        }),
{
    output.append(INTEGRATIONS);
    if let Some(integration) = selected {
        output.append("Selected ");
        output.append(name_of_integration(integration));
        output.append(
            "; use the exact command shown above so review, cancellation, and failures remain explicit.\n",
        );
    }
}

/// The options of a conversation stand alone or with each other, and not with a
/// subcommand.
pub proof fn conversations_take_no_subcommand(
    options: ChatOptions,
    subcommand: bool,
    admitted: Result<(), String>,
)
    requires
        call_ensures(admit_options, (options, subcommand), admitted),
    ensures
        admitted is Err <==> subcommand && (options.resume || options.continue_chat || options.plain
            || options.tui || options.print),
{
}

/// Setup that is asked for only where it is needed is asked for alone.
pub proof fn needed_setup_stands_alone(
    if_needed: bool,
    other_options: bool,
    admitted: Result<bool, String>,
)
    requires
        call_ensures(admit_if_needed, (if_needed, other_options), admitted),
    ensures
        admitted is Err <==> if_needed && other_options,
        admitted matches Ok(only) ==> only == if_needed,
{
}

/// A configuration that was loaded needs nothing. One that was not leads to guidance at a
/// terminal and to a refusal elsewhere, and either tells what was wrong.
pub proof fn setups_are_guided_at_a_terminal(
    load_error: Option<&str>,
    terminal: bool,
    path: &str,
    need: SetupNeed,
)
    requires
        call_ensures(ensure_setup, (load_error, terminal, path), need),
    ensures
        need is Ready <==> load_error is None,
        need is Guide <==> load_error is Some && terminal,
        need matches SetupNeed::Guide { notice } ==> occurs(notice@, load_error->0@),
        need matches SetupNeed::Refuse { reason } ==> occurs(reason@, load_error->0@) && occurs(
            reason@,
            path@,
        ),
{
    if let Some(error) = load_error {
        let end =
            "\nrun `xana setup --non-interactive --kind KIND --connection NAME --model MODEL --permission-mode MODE --yes`"@;
        let front = "Xana configuration is absent or invalid at "@;
        parts_occur(
            "xana: configuration is absent or invalid: "@,
            error@,
            "\nxana: starting provider-neutral guided setup\n"@,
        );
        parts_occur(front + path@ + ": "@, error@, end);
        parts_occur(front, path@, ": "@ + error@ + end);
        assert(front + path@ + (": "@ + error@ + end) =~= setup_refusal(path@, error@));
    }
}

/// A full screen is tried only at a terminal on both sides and where no plain surface was
/// asked for, unless it is required; where it is required and cannot be had, nothing else is
/// taken in its stead.
pub proof fn surfaces_fit_the_terminal(
    plain: bool,
    require_tui: bool,
    input_terminal: bool,
    output_terminal: bool,
    choice: Result<SurfaceChoice, String>,
)
    requires
        call_ensures(choose_surface, (plain, require_tui, input_terminal, output_terminal), choice),
    ensures
        choice is Err <==> require_tui && !(input_terminal && output_terminal),
        choice matches Ok(SurfaceChoice::TryTui { required }) ==> input_terminal && output_terminal
            && !plain && required == require_tui,
        choice == Ok::<SurfaceChoice, String>(SurfaceChoice::Plain) ==> plain || !input_terminal
            || !output_terminal,
{
}

/// A full screen that failed gives way to a plain surface, with a notice of why, unless it
/// was required.
pub proof fn failed_screens_give_way(required: bool, error: &str, notice: Result<String, String>)
    requires
        call_ensures(without_tui, (required, error), notice),
    ensures
        notice is Err <==> required,
        notice matches Ok(text) ==> occurs(text@, error@),
{
    parts_occur(
        "xana: could not initialize the full-screen terminal ("@,
        error@,
        "); falling back to --plain\n"@,
    );
}

/// A banner is shown on a chosen surface at a terminal that is one on both sides and can
/// show it, and nowhere else.
pub proof fn banners_need_a_terminal(selected: bool, facts: TerminalFacts, yes: bool)
    requires
        call_ensures(shows_banner, (selected, facts), yes),
    ensures
        yes <==> selected && facts.input_is_terminal && facts.output_is_terminal && !facts.dumb,
{
}

/// What is said of the terminal is what the environment says of it: colors only where it is
/// a terminal that shows them, as many as it names; a width that was given and is usable as
/// it was given; text beyond ASCII where the locale says so; and less motion where it was
/// asked for.
pub proof fn terminals_are_as_the_environment_says(
    environment: TerminalEnvironment,
    input_terminal: bool,
    output_terminal: bool,
    facts: TerminalFacts,
)
    requires
        call_ensures(terminal_facts, (&environment, input_terminal, output_terminal), facts),
    ensures
        facts.input_is_terminal == input_terminal,
        facts.output_is_terminal == output_terminal,
        facts.dumb <==> (environment.term matches Some(term) && lowered(term@) == "dumb"@),
        facts.color_depth == ColorDepth::Absent <==> environment.no_color || !output_terminal
            || facts.dumb,
        facts.color_depth == ColorDepth::TrueColor ==> (environment.colorterm matches Some(text)
            && occurs(lowered(text@), "truecolor"@)),
        facts.color_depth == ColorDepth::Ansi256 ==> (environment.term matches Some(text)
            && occurs(lowered(text@), "256color"@)),
        facts.color_depth == ColorDepth::Ansi16 ==> !(environment.colorterm matches Some(text)
            && occurs(lowered(text@), "truecolor"@)) && !(environment.term matches Some(text)
            && occurs(lowered(text@), "256color"@)),
        environment.columns matches Some(text) ==> (number_of(text@, 65535) matches Some(width)
            ==> 20 <= width <= 500 ==> facts.width == width),
        facts.width != 80 ==> (environment.columns matches Some(text) && number_of(text@, 65535)
            == Some(facts.width as nat)),
        environment.windows ==> facts.unicode,
        facts.unicode && !environment.windows ==> environment.lc_all is Some || environment.lang
            is Some,
        environment.reduced_motion is None ==> !facts.reduced_motion,
        environment.reduced_motion matches Some(text) ==> (facts.reduced_motion <==> text@ != "0"@
            && text@ != "false"@ && text@ != "no"@),
        environment.colorfgbg is None ==> facts.background is None,
{
    reveal_strlit("dumb");
    assert(lowered("dumb"@) =~= "dumb"@);
}

/// Two integrations have two names.
pub proof fn integrations_are_told_apart(one: ConnectIntegration, two: ConnectIntegration)
    ensures
        integration_name(one) == integration_name(two) <==> one == two,
{
    reveal_strlit("Provider");
    reveal_strlit("Profile");
    reveal_strlit("Plugin");
    reveal_strlit("Mcp");
    reveal_strlit("ExternalAgent");
    reveal_strlit("Image");
    reveal_strlit("Vision");
    reveal_strlit("Web");
    assert("Provider"@.len() == 8);
    assert("Profile"@.len() == 7);
    assert("Plugin"@.len() == 6 && "Plugin"@[0] == 'P');
    assert("Mcp"@.len() == 3 && "Mcp"@[0] == 'M');
    assert("ExternalAgent"@.len() == 13);
    assert("Image"@.len() == 5);
    assert("Vision"@.len() == 6 && "Vision"@[0] == 'V');
    assert("Web"@.len() == 3 && "Web"@[0] == 'W');
}

/// Initialization goes on only where no configuration is: one that is valid is left as it
/// is, and one that cannot be read is refused, by its path.
pub proof fn initialization_overwrites_nothing(
    found: FoundConfig,
    path: &str,
    output: &mut String,
    start: InitStart,
)
    requires
        call_ensures(start_init, (found, path, output), start),
    ensures
        start is Plan <==> found is Missing,
        start is Done <==> found is Valid,
        start is Refuse <==> found is Invalid,
        start matches InitStart::Refuse { reason } ==> path@.is_suffix_of(reason@),
{
    if let InitStart::Refuse { reason } = start {
        assert(reason@.subrange(reason@.len() - path@.len(), reason@.len() as int) =~= path@);
    }
}

}
