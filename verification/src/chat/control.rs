//! Commands that are given from within a conversation.

use crate::text::{byte_count, byte_len, views};
use vstd::prelude::*;

verus! {

/// The most bytes that a command's arguments may have.
pub const MAX_CONTROL_BYTES: usize = 16384;

/// The most arguments that a command may have.
pub const MAX_CONTROL_WORDS: usize = 128;

pub const CONTROL_BYTES: &'static str = "control command exceeds the 16 KiB input limit";

pub const CONTROL_QUOTE: &'static str = "control command contains an unterminated quote";

pub const CONTROL_WORDS: &'static str = "control command exceeds the 128-argument limit";

pub const NOT_AVAILABLE: &'static str = "this command is not available from the interactive management path";

/// The words that a text is split into as a POSIX shell would split it, if it is
/// well formed.
pub uninterp spec fn shell_words(text: Seq<char>) -> Option<Seq<Seq<char>>>;

/// The contents of words.
pub open spec fn word_views(words: Option<Vec<String>>) -> Option<Seq<Seq<char>>> {
    match words {
        Some(words) => Some(views(words@)),
        None => None,
    }
}

/// `shlex::split`: the words of the text in the syntax of a POSIX shell, or
/// nothing where the text is malformed. What the words are is left to the name.
#[verifier::external_body]
pub(crate) fn split_words(text: &str) -> (words: Option<Vec<String>>)
    ensures
        word_views(words) == shell_words(text@),
{
    shlex::split(text)
}

/// The arguments that words make with a family, or why they make none.
pub open spec fn arguments_of(family: Seq<char>, words: Option<Seq<Seq<char>>>) -> Result<
    Seq<Seq<char>>,
    Seq<char>,
> {
    match words {
        None => Err(CONTROL_QUOTE@),
        Some(words) => if words.len() > MAX_CONTROL_WORDS {
            Err(CONTROL_WORDS@)
        } else {
            Ok(seq!["xana"@, family] + words)
        },
    }
}

/// The arguments that split words make with a family.
pub fn bounded_words(family: &str, words: Option<Vec<String>>) -> (arguments: Result<
    Vec<String>,
    String,
>)
    ensures
        match arguments {
            Ok(made) => arguments_of(family@, word_views(words)) == Ok::<
                Seq<Seq<char>>,
                Seq<char>,
            >(views(made@)),
            Err(text) => arguments_of(family@, word_views(words)) == Err::<
                Seq<Seq<char>>,
                Seq<char>,
            >(text@),
        },
{
    match words {
        None => Err(CONTROL_QUOTE.to_owned()),
        Some(words) => {
            if words.len() > MAX_CONTROL_WORDS {
                return Err(CONTROL_WORDS.to_owned());
            }
            let ghost given = views(words@);
            let mut made: Vec<String> = Vec::new();
            made.push("xana".to_owned());
            made.push(family.to_owned());
            let mut i: usize = 0;
            assert(views(made@) =~= seq!["xana"@, family@] + given.take(0));
            while i < words.len()
                invariant
                    given == views(words@),
                    i <= words@.len(),
                    views(made@) == seq!["xana"@, family@] + given.take(i as int),
                decreases words@.len() - i,
            {
                let ghost before = views(made@);
                made.push(words[i].clone());
                assert(views(made@) =~= before.push(given[i as int]));
                assert(before.push(given[i as int]) =~= seq!["xana"@, family@] + given.take(i + 1));
                i += 1;
            }
            assert(given.take(i as int) =~= given);
            Ok(made)
        },
    }
}

/// The arguments of a command that is given from within a conversation.
pub fn control_arguments(family: &str, arguments: &str) -> (made: Result<Vec<String>, String>)
    ensures
        if byte_count(arguments@) > MAX_CONTROL_BYTES {
            made matches Err(text) && text@ == CONTROL_BYTES@
        } else {
            match made {
                Ok(words) => arguments_of(family@, shell_words(arguments@)) == Ok::<
                    Seq<Seq<char>>,
                    Seq<char>,
                >(views(words@)),
                Err(text) => arguments_of(family@, shell_words(arguments@)) == Err::<
                    Seq<Seq<char>>,
                    Seq<char>,
                >(text@),
            }
        },
{
    if byte_len(arguments) > MAX_CONTROL_BYTES {
        return Err(CONTROL_BYTES.to_owned());
    }
    bounded_words(family, split_words(arguments))
}

/// The commands of the program, as far as they decide whether one can be given
/// from within a conversation.
#[derive(Clone, Copy, PartialEq, Eq, Structural, Debug)]
pub enum CommandFamily {
    Budget,
    Memory,
    Worker,
    Autonomy,
    Usage,
    Storage,
    Project,
    Profile,
    Skill,
    Plugin,
    Mcp,
    ExternalAgent,
    Image,
    Connection,
    Logs,
    Outbound,
    Operation,
    Route,
    Connect,
    Session { starts_conversation: bool },
    Capabilities,
    Model,
    Auth,
    Init,
    Setup,
    Serve,
    Attach,
    Doctor,
    Reset,
    Config,
    Absent,
}

/// Whether a command can be given from within a conversation: those that start,
/// continue or attach one cannot, nor those that own the terminal.
pub open spec fn manageable(family: CommandFamily) -> bool {
    match family {
        CommandFamily::Session { starts_conversation } => !starts_conversation,
        CommandFamily::Model
        | CommandFamily::Auth
        | CommandFamily::Init
        | CommandFamily::Setup
        | CommandFamily::Serve
        | CommandFamily::Attach
        | CommandFamily::Doctor
        | CommandFamily::Reset
        | CommandFamily::Config
        | CommandFamily::Absent => false,
        _ => true,
    }
}

/// Whether a command can be given from within a conversation.
pub fn admit_control(family: CommandFamily) -> (admitted: Result<(), String>)
    ensures
        manageable(family) ==> admitted is Ok,
        !manageable(family) ==> (admitted matches Err(text) && text@ == NOT_AVAILABLE@),
{
    let yes = match family {
        CommandFamily::Session { starts_conversation } => !starts_conversation,
        CommandFamily::Model
        | CommandFamily::Auth
        | CommandFamily::Init
        | CommandFamily::Setup
        | CommandFamily::Serve
        | CommandFamily::Attach
        | CommandFamily::Doctor
        | CommandFamily::Reset
        | CommandFamily::Config
        | CommandFamily::Absent => false,
        _ => true,
    };
    if yes {
        Ok(())
    } else {
        Err(NOT_AVAILABLE.to_owned())
    }
}

/// The arguments of a command are the name of the program, the family and the words that
/// were split, each as it is and in its order; a hundred and twenty-eight words are taken
/// and one more is not.
pub proof fn words_become_arguments(
    family: &str,
    words: Option<Vec<String>>,
    arguments: Result<Vec<String>, String>,
)
    requires
        call_ensures(bounded_words, (family, words), arguments),
    ensures
        arguments is Ok <==> (words matches Some(given) && given@.len() <= 128),
        arguments matches Ok(made) ==> {
            &&& made@.len() == words->0@.len() + 2
            &&& made@[0]@ == "xana"@
            &&& made@[1]@ == family@
            &&& forall|i: int|
                0 <= i < words->0@.len() ==> made@[i + 2]@ == #[trigger] words->0@[i]@
        },
{
    if let Ok(made) = arguments {
        let given = words->0;
        let all = seq!["xana"@, family@] + views(given@);
        assert(views(made@) == all);
        assert(made@.len() == views(made@).len());
        assert(views(made@)[0] == all[0]);
        assert(views(made@)[1] == all[1]);
        assert forall|i: int| 0 <= i < given@.len() implies made@[i + 2]@
            == #[trigger] given@[i]@ by {
            assert(views(made@)[i + 2] == all[i + 2]);
            assert(all[i + 2] == views(given@)[i]);
        }
    }
}

/// A command of more than 16 KiB is refused before it is split.
pub proof fn long_commands_are_refused(
    family: &str,
    arguments: &str,
    made: Result<Vec<String>, String>,
)
    requires
        call_ensures(control_arguments, (family, arguments), made),
    ensures
        byte_count(arguments@) > 16384 ==> made is Err,
        byte_count(arguments@) <= 16384 ==> (made is Ok <==> (shell_words(arguments@)
            matches Some(words) && words.len() <= 128)),
        made matches Ok(words) ==> words@.len() >= 2 && words@[1]@ == family@,
{
    if let Ok(words) = made {
        let all = seq!["xana"@, family@] + shell_words(arguments@)->0;
        assert(views(words@) == all);
        assert(views(words@)[1] == all[1]);
    }
}

/// What manages something is given from within a conversation; what starts a conversation,
/// owns the terminal or takes the configuration away is not.
pub proof fn conversations_manage_only(family: CommandFamily, admitted: Result<(), String>)
    requires
        call_ensures(admit_control, (family,), admitted),
    ensures
        family == CommandFamily::Reset || family == CommandFamily::Setup || family
            == CommandFamily::Init || family == CommandFamily::Serve || family
            == CommandFamily::Attach || family == CommandFamily::Doctor || family
            == CommandFamily::Config || family == CommandFamily::Model || family
            == CommandFamily::Auth || family == CommandFamily::Absent ==> admitted is Err,
        family matches CommandFamily::Session { starts_conversation } ==> (admitted is Ok
            <==> !starts_conversation),
        family == CommandFamily::Memory || family == CommandFamily::Budget || family
            == CommandFamily::Worker || family == CommandFamily::Autonomy || family
            == CommandFamily::Usage || family == CommandFamily::Storage || family
            == CommandFamily::Project || family == CommandFamily::Profile || family
            == CommandFamily::Skill || family == CommandFamily::Plugin || family
            == CommandFamily::Mcp || family == CommandFamily::ExternalAgent || family
            == CommandFamily::Image || family == CommandFamily::Connection || family
            == CommandFamily::Logs || family == CommandFamily::Outbound || family
            == CommandFamily::Operation || family == CommandFamily::Route || family
            == CommandFamily::Connect || family == CommandFamily::Capabilities ==> admitted is Ok,
{
}

}
