//! Input, acceptance and failure classes of one-shot runs.

use crate::text::{
    blank, byte_count, byte_len, chars_of, contains, is_blank, is_whitespace,
    line_ends_are_left_out, lower, lowered, occurs, trim_line_end, without_line_end,
};
use vstd::prelude::*;
use vstd::string::*;

verus! {

pub const MAX_ONE_SHOT_INPUT_BYTES: usize = 1048576;

pub const STDIN_LIMIT: &'static str = "one-shot stdin exceeds the 1048576-byte limit";

pub const BOTH_SOURCES: &'static str = "provide the one-shot prompt either as `-p PROMPT` or through stdin, not both";

pub const BLANK_PROMPT: &'static str = "one-shot prompt must not be blank";

pub const NO_PROMPT: &'static str = "one-shot mode requires `xana -p PROMPT` or a prompt on stdin";

pub const BAD_ACCEPTANCE: &'static str = "acceptance command and directory must be non-blank text without NUL characters";

/// Why a one-shot run failed, as far as its exit status tells.
#[derive(Clone, Copy, PartialEq, Eq, Structural, Debug)]
pub enum ExitCategory {
    InvalidInput,
    Configuration,
    Connection,
    Interrupted,
    Runtime,
}

/// A failed one-shot run.
#[derive(Debug, PartialEq, Eq)]
pub struct OneShotFailure {
    pub category: ExitCategory,
    pub message: String,
}

impl OneShotFailure {
    /// A failure of a category.
    pub fn new(category: ExitCategory, message: &str) -> (failure: OneShotFailure)
        ensures
            failure.category == category,
            failure.message@ == message@,
    {
        OneShotFailure { category, message: message.to_owned() }
    }
}

/// What must hold once the work is done.
#[derive(Debug, PartialEq, Eq)]
pub enum AcceptanceCondition {
    CommandSucceeded { command: String, cwd: String },
}

/// All that must hold once the work is done.
#[derive(Debug, PartialEq, Eq)]
pub struct CompletionContract {
    pub conditions: Vec<AcceptanceCondition>,
}

/// Whether a text can be part of a command: not blank, and without NUL.
pub open spec fn usable(text: Seq<char>) -> bool {
    !is_blank(text) && !text.contains('\0')
}

fn is_usable(text: &str) -> (yes: bool)
    ensures
        yes == usable(text@),
{
    if blank(text) {
        return false;
    }
    let chars = chars_of(text);
    let mut i: usize = 0;
    while i < chars.len()
        invariant
            chars@ == text@,
            i <= chars@.len(),
            forall|j: int| 0 <= j < i ==> text@[j] != '\0',
        decreases chars@.len() - i,
    {
        if chars[i] == '\0' {
            return false;
        }
        i += 1;
    }
    true
}

/// The directory that a command runs in.
pub open spec fn directory(cwd: Option<String>) -> Seq<char> {
    match cwd {
        Some(cwd) => cwd@,
        None => "."@,
    }
}

/// The contract of a one-shot run: none unless a command was given, and a
/// command must be one that can be run.
pub fn acceptance_contract(command: Option<String>, cwd: Option<String>) -> (contract: Result<
    CompletionContract,
    String,
>)
    ensures
        match command {
            None => contract matches Ok(contract) && contract.conditions@.len() == 0,
            Some(command) => if usable(command@) && usable(directory(cwd)) {
                &&& contract matches Ok(contract)
                &&& contract.conditions@.len() == 1
                &&& contract.conditions@[0] matches AcceptanceCondition::CommandSucceeded {
                    command: held,
                    cwd: held_cwd,
                }
                &&& held == command
                &&& held_cwd@ == directory(cwd)
            } else {
                contract matches Err(text) && text@ == BAD_ACCEPTANCE@
            },
        },
{
    let mut conditions: Vec<AcceptanceCondition> = Vec::new();
    if let Some(command) = command {
        let cwd = match cwd {
            Some(cwd) => cwd,
            None => ".".to_owned(),
        };
        if !is_usable(command.as_str()) || !is_usable(cwd.as_str()) {
            return Err(BAD_ACCEPTANCE.to_owned());
        }
        conditions.push(AcceptanceCondition::CommandSucceeded { command, cwd });
    }
    Ok(CompletionContract { conditions })
}

/// Whether piped input is small enough to be read.
pub fn bounded_stdin(text: &str) -> (checked: Result<(), OneShotFailure>)
    ensures
        byte_count(text@) <= MAX_ONE_SHOT_INPUT_BYTES ==> checked is Ok,
        byte_count(text@) > MAX_ONE_SHOT_INPUT_BYTES ==> (checked matches Err(failure)
            && failure.category == ExitCategory::InvalidInput && failure.message@
            == STDIN_LIMIT@),
{
    if byte_len(text) > MAX_ONE_SHOT_INPUT_BYTES {
        Err(OneShotFailure::new(ExitCategory::InvalidInput, STDIN_LIMIT))
    } else {
        Ok(())
    }
}

/// The prompt that two possible sources give, or why they give none.
pub open spec fn prompt_of(argument: Option<Seq<char>>, stdin_text: Seq<char>) -> Result<
    Seq<char>,
    Seq<char>,
> {
    match argument {
        Some(argument) => if !is_blank(stdin_text) {
            Err(BOTH_SOURCES@)
        } else if is_blank(argument) {
            Err(BLANK_PROMPT@)
        } else {
            Ok(argument)
        },
        None => if !is_blank(stdin_text) {
            Ok(without_line_end(stdin_text))
        } else {
            Err(NO_PROMPT@)
        },
    }
}

/// Takes the prompt from exactly one of its two sources.
pub fn resolve_sources(argument: Option<String>, stdin_text: Option<String>) -> (prompt: Result<
    String,
    OneShotFailure,
>)
    ensures
        ({
            let piped = match stdin_text {
                Some(text) => text@,
                None => Seq::empty(),
            };
            match prompt_of(crate::text::option_view(argument), piped) {
                Ok(text) => prompt matches Ok(held) && held@ == text,
                Err(message) => prompt matches Err(failure) && failure.category
                    == ExitCategory::InvalidInput && failure.message@ == message,
            }
        }),
{
    let stdin_text = match stdin_text {
        Some(text) => text,
        None => String::new(),
    };
    let stdin_has_input = !blank(stdin_text.as_str());
    match argument {
        Some(argument) => if stdin_has_input {
            Err(OneShotFailure::new(ExitCategory::InvalidInput, BOTH_SOURCES))
        } else if blank(argument.as_str()) {
            Err(OneShotFailure::new(ExitCategory::InvalidInput, BLANK_PROMPT))
        } else {
            Ok(argument)
        },
        None => if stdin_has_input {
            Ok(trim_line_end(stdin_text.as_str()))
        } else {
            Err(OneShotFailure::new(ExitCategory::InvalidInput, NO_PROMPT))
        },
    }
}

/// What standard input gave: nothing at a terminal, a text, or why it could not
/// be read.
pub type PipedInput = Option<Result<String, String>>;

pub const UNREADABLE_STDIN: &'static str = "could not read stdin: ";

/// The prompt of a one-shot run, or why there is none: input that cannot be read
/// or is too large fails before the sources are weighed.
pub open spec fn input_of(argument: Option<Seq<char>>, piped: PipedInput) -> Result<
    Seq<char>,
    Seq<char>,
> {
    match piped {
        None => prompt_of(argument, Seq::empty()),
        Some(Err(error)) => Err(UNREADABLE_STDIN@ + error@),
        Some(Ok(text)) => if byte_count(text@) > MAX_ONE_SHOT_INPUT_BYTES {
            Err(STDIN_LIMIT@)
        } else {
            prompt_of(argument, text@)
        },
    }
}

/// Takes the prompt of a one-shot run from its argument or from standard input.
pub fn resolve_one_shot_input(argument: Option<String>, piped: PipedInput) -> (prompt: Result<
    String,
    OneShotFailure,
>)
    ensures
        match input_of(crate::text::option_view(argument), piped) {
            Ok(text) => prompt matches Ok(held) && held@ == text,
            Err(message) => prompt matches Err(failure) && failure.category
                == ExitCategory::InvalidInput && failure.message@ == message,
        },
{
    match piped {
        None => resolve_sources(argument, None),
        Some(Err(error)) => {
            let mut message = UNREADABLE_STDIN.to_owned();
            message.append(error.as_str());
            Err(OneShotFailure { category: ExitCategory::InvalidInput, message })
        },
        Some(Ok(text)) => match bounded_stdin(text.as_str()) {
            Err(failure) => Err(failure),
            Ok(_) => resolve_sources(argument, Some(text)),
        },
    }
}

/// Whether the command that accepts a one-shot run can be run at all, before its
/// input is read.
pub fn admit_acceptance(command: Option<String>, cwd: Option<String>) -> (admitted: Result<
    (),
    OneShotFailure,
>)
    ensures
        (command matches Some(command) && !(usable(command@) && usable(directory(cwd)))) ==> (
        admitted matches Err(failure) && failure.category == ExitCategory::InvalidInput
            && failure.message@ == BAD_ACCEPTANCE@),
        (command matches Some(command) ==> usable(command@) && usable(directory(cwd)))
            ==> admitted is Ok,
{
    match acceptance_contract(command, cwd) {
        Ok(_) => Ok(()),
        Err(message) => Err(OneShotFailure { category: ExitCategory::InvalidInput, message }),
    }
}

/// The category that a message belongs to by its words.
pub open spec fn category_of(message: Seq<char>) -> ExitCategory {
    let lower = lowered(message);
    if occurs(lower, "config"@) || occurs(lower, "not initialized"@) || occurs(lower, "xana_home"@) {
        ExitCategory::Configuration
    } else if occurs(lower, "connection"@) || occurs(lower, "credential"@) || occurs(
        lower,
        "logged out"@,
    ) || occurs(lower, "model"@) || occurs(lower, "codex"@) || occurs(lower, "provider"@) {
        ExitCategory::Connection
    } else if occurs(lower, "interrupt"@) || occurs(lower, "cancelled"@) {
        ExitCategory::Interrupted
    } else {
        ExitCategory::Runtime
    }
}

/// An error on its way out of a one-shot run.
#[derive(Debug, PartialEq, Eq)]
pub enum OneShotError {
    /// One that has its category already.
    Classified(OneShotFailure),
    /// Any other, with its whole message.
    Message(String),
}

/// Gives an error its category: the one it has, or the one its words show.
pub fn classify_one_shot_error(error: OneShotError) -> (failure: OneShotFailure)
    ensures
        match error {
            OneShotError::Classified(held) => failure == held,
            OneShotError::Message(message) => failure.message == message && failure.category
                == category_of(message@),
        },
{
    let message = match error {
        OneShotError::Classified(failure) => {
            return failure;
        },
        OneShotError::Message(message) => message,
    };
    let lower = lower(message.as_str());
    let words = lower.as_str();
    let category = if contains(words, "config") || contains(words, "not initialized") || contains(
        words,
        "xana_home",
    ) {
        ExitCategory::Configuration
    } else if contains(words, "connection") || contains(words, "credential") || contains(
        words,
        "logged out",
    ) || contains(words, "model") || contains(words, "codex") || contains(words, "provider") {
        ExitCategory::Connection
    } else if contains(words, "interrupt") || contains(words, "cancelled") {
        ExitCategory::Interrupted
    } else {
        ExitCategory::Runtime
    };
    OneShotFailure { category, message }
}

/// How the outcome of a one-shot run is written.
#[derive(Clone, Copy, PartialEq, Eq, Structural, Debug)]
pub enum OneShotOutput {
    Text,
    Json,
    StreamJson,
}

/// The form of the outcome: `--json` wins over an explicit choice, and text is
/// the default.
pub fn chosen_output(json: bool, choice: Option<OneShotOutput>) -> (output: OneShotOutput)
    ensures
        output == (if json {
            OneShotOutput::Json
        } else {
            match choice {
                Some(choice) => choice,
                None => OneShotOutput::Text,
            }
        }),
{
    if json {
        OneShotOutput::Json
    } else {
        match choice {
            Some(choice) => choice,
            None => OneShotOutput::Text,
        }
    }
}

/// A prompt is taken from exactly one source, and is never blank.
pub proof fn prompts_have_one_source(argument: Option<Seq<char>>, stdin_text: Seq<char>)
    ensures
        prompt_of(argument, stdin_text) is Ok <==> (argument matches Some(text) && !is_blank(text)
            && is_blank(stdin_text)) || (argument is None && !is_blank(stdin_text)),
{
}

/// A prompt is its source, letter for letter: an argument is taken as it is, and of
/// piped text only the line ends behind it are left out.
pub proof fn prompts_are_their_source(argument: Option<Seq<char>>, stdin_text: Seq<char>)
    ensures
        prompt_of(argument, stdin_text) matches Ok(prompt) ==> match argument {
            Some(text) => prompt == text,
            None => {
                &&& prompt.len() > 0
                &&& prompt.is_prefix_of(stdin_text)
                &&& forall|i: int|
                    prompt.len() <= i < stdin_text.len() ==> (#[trigger] stdin_text[i] == '\r'
                        || stdin_text[i] == '\n')
                &&& prompt.last() != '\r'
                &&& prompt.last() != '\n'
            },
        },
{
    if argument is None && !is_blank(stdin_text) {
        line_ends_are_left_out(stdin_text);
        let prompt = without_line_end(stdin_text);
        if prompt.len() == 0 {
            assert forall|i: int| 0 <= i < stdin_text.len() implies is_whitespace(
                #[trigger] stdin_text[i],
            ) by {}
        }
    }
}

/// A prompt that cannot be taken fails for what is wrong with its sources: two that
/// say something, a blank argument, or none at all.
pub proof fn prompts_fail_for_their_sources(argument: Option<Seq<char>>, stdin_text: Seq<char>)
    ensures
        prompt_of(argument, stdin_text) matches Err(text) ==> {
            ||| argument is Some && !is_blank(stdin_text) && text == BOTH_SOURCES@
            ||| (argument matches Some(given) && is_blank(given)) && is_blank(stdin_text) && text
                == BLANK_PROMPT@
            ||| argument is None && is_blank(stdin_text) && text == NO_PROMPT@
        },
{
}

/// Input that can be read and is small enough decides nothing by itself: it is then
/// the sources that count. Input that cannot be read, or is larger than a mebibyte,
/// gives no prompt, whatever the argument is.
pub proof fn unusable_input_gives_no_prompt(argument: Option<Seq<char>>, piped: PipedInput)
    ensures
        piped matches Some(Err(_)) ==> input_of(argument, piped) is Err,
        piped matches Some(Ok(text)) ==> byte_count(text@) > 1024 * 1024 ==> input_of(
            argument,
            piped,
        ) is Err,
        piped matches Some(Ok(text)) ==> byte_count(text@) <= 1024 * 1024 ==> input_of(
            argument,
            piped,
        ) == prompt_of(argument, text@),
        piped is None ==> input_of(argument, piped) == prompt_of(argument, ""@),
        piped matches Some(Err(error)) ==> (input_of(argument, piped) matches Err(text)
            && error@.is_suffix_of(text)),
{
    reveal_strlit("");
    assert(""@ =~= Seq::<char>::empty());
    if let Some(Err(error)) = piped {
        let text = UNREADABLE_STDIN@ + error@;
        assert(text.subrange(text.len() - error@.len(), text.len() as int) =~= error@);
    }
}

/// How a message is written in capitals or small letters does not matter to its
/// category.
pub proof fn categories_ignore_case(message: Seq<char>, other: Seq<char>)
    requires
        lowered(message) == lowered(other),
    ensures
        category_of(message) == category_of(other),
{
}

/// What a message speaks of decides its category: its configuration first, then what
/// the run is connected to, then an interruption; a message that speaks of none of
/// them is a failure of the run.
pub proof fn categories_follow_the_words(message: Seq<char>)
    ensures
        occurs(lowered(message), "config"@) ==> category_of(message)
            == ExitCategory::Configuration,
        category_of(message) == ExitCategory::Configuration <==> (occurs(
            lowered(message),
            "config"@,
        ) || occurs(lowered(message), "not initialized"@) || occurs(
            lowered(message),
            "xana_home"@,
        )),
        category_of(message) == ExitCategory::Runtime ==> !occurs(lowered(message), "model"@)
            && !occurs(lowered(message), "provider"@) && !occurs(lowered(message), "connection"@)
            && !occurs(lowered(message), "credential"@) && !occurs(lowered(message), "codex"@)
            && !occurs(lowered(message), "logged out"@) && !occurs(
            lowered(message),
            "interrupt"@,
        ) && !occurs(lowered(message), "cancelled"@),
        category_of(message) == ExitCategory::Connection ==> (occurs(lowered(message), "model"@)
            || occurs(lowered(message), "provider"@) || occurs(lowered(message), "connection"@)
            || occurs(lowered(message), "credential"@) || occurs(lowered(message), "codex"@)
            || occurs(lowered(message), "logged out"@)),
        category_of(message) == ExitCategory::Interrupted ==> (occurs(
            lowered(message),
            "interrupt"@,
        ) || occurs(lowered(message), "cancelled"@)) && !occurs(lowered(message), "model"@)
            && !occurs(lowered(message), "provider"@) && !occurs(lowered(message), "connection"@)
            && !occurs(lowered(message), "credential"@) && !occurs(lowered(message), "codex"@)
            && !occurs(lowered(message), "logged out"@),
        category_of(message) != ExitCategory::InvalidInput,
{
}

/// Whether a text is another with nothing but line ends left out behind it.
pub open spec fn all_but_line_ends(text: Seq<char>, whole: Seq<char>) -> bool {
    &&& text.is_prefix_of(whole)
    &&& forall|i: int|
        text.len() <= i < whole.len() ==> (#[trigger] whole[i] == '\r' || whole[i] == '\n')
}

/// A prompt that was taken is its one source, letter for letter: the argument as it was
/// given, or the piped text but for the line ends behind it. None is taken where both
/// say something, or neither does.
pub proof fn sources_are_taken_as_given(
    argument: Option<String>,
    stdin_text: Option<String>,
    prompt: Result<String, OneShotFailure>,
)
    requires
        call_ensures(resolve_sources, (argument, stdin_text), prompt),
    ensures
        prompt matches Ok(taken) ==> match argument {
            Some(given) => taken@ == given@ && (stdin_text matches Some(piped) ==> is_blank(piped@)),
            None => stdin_text matches Some(piped) && all_but_line_ends(taken@, piped@),
        },
        prompt is Ok <==> (argument is Some && !is_blank(argument->0@) && (stdin_text is None
            || is_blank(stdin_text->0@))) || (argument is None && stdin_text is Some && !is_blank(
            stdin_text->0@,
        )),
        prompt matches Ok(taken) ==> !is_blank(taken@),
        prompt matches Err(failure) ==> failure.category == ExitCategory::InvalidInput,
{
    let piped = match stdin_text {
        Some(text) => text@,
        None => Seq::empty(),
    };
    let given = crate::text::option_view(argument);
    prompts_have_one_source(given, piped);
    prompts_are_their_source(given, piped);
    if let Ok(taken) = prompt {
        if argument is None && is_blank(taken@) {
            assert forall|i: int| 0 <= i < piped.len() implies is_whitespace(
                #[trigger] piped[i],
            ) by {
                if i < taken@.len() {
                    assert(taken@[i] == piped[i]);
                }
            }
        }
    }
}

/// A one-shot run is asked what it was given: an argument is the prompt as it was written,
/// and piped text but for the line ends behind it. Input that cannot be read, or is larger
/// than a mebibyte, is refused whatever the argument is.
pub proof fn runs_are_asked_as_given(
    argument: Option<String>,
    piped: PipedInput,
    prompt: Result<String, OneShotFailure>,
)
    requires
        call_ensures(resolve_one_shot_input, (argument, piped), prompt),
    ensures
        prompt matches Ok(taken) ==> match argument {
            Some(given) => taken@ == given@,
            None => piped matches Some(Ok(text)) && all_but_line_ends(taken@, text@),
        },
        piped matches Some(Err(_)) ==> prompt is Err,
        piped matches Some(Ok(text)) ==> byte_count(text@) > 1024 * 1024 ==> prompt is Err,
        piped matches Some(Ok(text)) ==> byte_count(text@) <= 1024 * 1024 ==> argument is None
            ==> !is_blank(text@) ==> prompt is Ok,
        argument matches Some(given) ==> piped is None ==> !is_blank(given@) ==> prompt is Ok,
        prompt matches Err(failure) ==> failure.category == ExitCategory::InvalidInput,
{
    let given = crate::text::option_view(argument);
    prompts_have_one_source(given, Seq::empty());
    if let Some(Ok(text)) = piped {
        prompts_have_one_source(given, text@);
        prompts_are_their_source(given, text@);
    }
}

/// A run is accepted by the command that was given, in the directory that was given, and
/// by no condition where none was. A command that cannot be run is refused before
/// anything else.
pub proof fn acceptance_is_what_was_asked(
    command: Option<String>,
    cwd: Option<String>,
    contract: Result<CompletionContract, String>,
    admitted: Result<(), OneShotFailure>,
)
    requires
        call_ensures(acceptance_contract, (command, cwd), contract),
        call_ensures(admit_acceptance, (command, cwd), admitted),
    ensures
        contract is Ok <==> admitted is Ok,
        command is None ==> contract is Ok,
        contract matches Ok(held) ==> (held.conditions@.len() == 0 <==> command is None),
        contract matches Ok(held) ==> command matches Some(asked) ==> {
            &&& held.conditions@.len() == 1
            &&& held.conditions@[0] matches AcceptanceCondition::CommandSucceeded {
                command: run,
                cwd: place,
            }
            &&& run == asked
            &&& cwd matches Some(given) ==> place@ == given@
            &&& cwd is None ==> place@ == "."@
        },
        command matches Some(asked) ==> is_blank(asked@) ==> contract is Err,
        command matches Some(asked) ==> asked@.contains('\0') ==> contract is Err,
        admitted matches Err(failure) ==> failure.category == ExitCategory::InvalidInput,
{
}

/// An error that has its category keeps it, and no message is lost or changed.
pub proof fn errors_keep_their_words(error: OneShotError, failure: OneShotFailure)
    requires
        call_ensures(classify_one_shot_error, (error,), failure),
    ensures
        match error {
            OneShotError::Classified(held) => failure == held,
            OneShotError::Message(message) => failure.message@ == message@ && failure.category
                == category_of(message@) && failure.category != ExitCategory::InvalidInput,
        },
{
}

}
