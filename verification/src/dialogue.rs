//! A dialogue with the owner at a terminal, replayed from the lines that were
//! entered so far.
//!
//! A step that needs a line that was not entered yet stops as waiting. The
//! caller reads one more line and runs the dialogue again: the same lines give
//! the same output, so only what is new of it is shown.

use crate::text::{byte_count, byte_len, lowered, text_eq, trim, trimmed, views};
use vstd::prelude::*;
use vstd::string::*;

verus! {

/// How long one entered line may be, in bytes.
pub const MAX_LINE_BYTES: usize = 2048;

pub const LINE_LIMIT: &'static str = "focused-service setup input exceeds the 2 KiB field limit";

/// Why a dialogue cannot go on.
#[derive(Debug, PartialEq, Eq)]
pub enum Stop {
    Failed(String),
    Waiting,
}

/// Why a dialogue cannot go on, by content.
pub enum StopModel {
    Failed(Seq<char>),
    Waiting,
}

impl View for Stop {
    type V = StopModel;

    open spec fn view(&self) -> StopModel {
        match self {
            Stop::Failed(text) => StopModel::Failed(text@),
            Stop::Waiting => StopModel::Waiting,
        }
    }
}

/// The dialogue so far.
#[derive(Debug, PartialEq, Eq)]
pub struct Dialogue {
    lines: Vec<String>,
    ended: bool,
    next: usize,
    output: String,
}

/// A dialogue, by content: the entered lines, whether no more will come, how
/// many of them were read, and what was said.
pub struct Talk {
    pub lines: Seq<Seq<char>>,
    pub ended: bool,
    pub next: nat,
    pub output: Seq<char>,
}

impl View for Dialogue {
    type V = Talk;

    closed spec fn view(&self) -> Talk {
        Talk {
            lines: views(self.lines@),
            ended: self.ended,
            next: self.next as nat,
            output: self.output@,
        }
    }
}

/// The dialogue after something was said.
pub open spec fn said(talk: Talk, text: Seq<char>) -> Talk {
    Talk { output: talk.output + text, ..talk }
}

/// The next line, none at the end of input.
pub open spec fn line_read(talk: Talk) -> (Talk, Result<Option<Seq<char>>, StopModel>) {
    if talk.next < talk.lines.len() {
        let line = talk.lines[talk.next as int];
        let after = Talk { next: talk.next + 1, ..talk };
        if byte_count(line) > MAX_LINE_BYTES {
            (after, Err(StopModel::Failed(LINE_LIMIT@)))
        } else {
            (after, Ok(Some(line)))
        }
    } else if talk.ended {
        (talk, Ok(None))
    } else {
        (talk, Err(StopModel::Waiting))
    }
}

impl Dialogue {
    /// A dialogue over the lines entered so far; `ended` says that no more come.
    pub fn new(lines: Vec<String>, ended: bool) -> (dialogue: Dialogue)
        ensures
            dialogue@ == (Talk { lines: views(lines@), ended, next: 0, output: Seq::empty() }),
    {
        let dialogue = Dialogue { lines, ended, next: 0, output: String::new() };
        assert(dialogue@.output =~= Seq::<char>::empty());
        dialogue
    }

    /// What was said so far.
    pub fn output(&self) -> (text: &str)
        ensures
            text@ == self@.output,
    {
        self.output.as_str()
    }

    /// Says something.
    pub fn say(&mut self, text: &str)
        ensures
            final(self)@ == said(old(self)@, text@),
    {
        self.output.append(text);
    }
}

/// Reads the next line, none at the end of input.
pub fn read_line(dialogue: &mut Dialogue) -> (line: Result<Option<String>, Stop>)
    ensures
        final(dialogue)@ == line_read(old(dialogue)@).0,
        match line {
            Ok(Some(text)) => line_read(old(dialogue)@).1 == Ok::<Option<Seq<char>>, StopModel>(
                Some(text@),
            ),
            Ok(None) => line_read(old(dialogue)@).1 == Ok::<Option<Seq<char>>, StopModel>(None),
            Err(stop) => line_read(old(dialogue)@).1 == Err::<Option<Seq<char>>, StopModel>(stop@),
        },
{
    if dialogue.next < dialogue.lines.len() {
        let line = dialogue.lines[dialogue.next].clone();
        dialogue.next = dialogue.next + 1;
        if byte_len(line.as_str()) > MAX_LINE_BYTES {
            Err(Stop::Failed(LINE_LIMIT.to_owned()))
        } else {
            Ok(Some(line))
        }
    } else if dialogue.ended {
        Ok(None)
    } else {
        Err(Stop::Waiting)
    }
}

/// Whether a line says yes.
pub open spec fn agrees(line: Seq<char>) -> bool {
    lowered(trimmed(line)) == "y"@ || lowered(trimmed(line)) == "yes"@
}

pub const CONFIRMATION: &'static str = "noninteractive focused-service changes require --yes";

/// Whether the owner confirms: only at a terminal, and the end of input is a no.
pub open spec fn confirmed(talk: Talk, terminal: bool, prompt: Seq<char>) -> (
    Talk,
    Result<bool, StopModel>,
) {
    if !terminal {
        (talk, Err(StopModel::Failed(CONFIRMATION@)))
    } else {
        let (after, line) = line_read(said(talk, prompt));
        match line {
            Ok(Some(line)) => (after, Ok(agrees(line))),
            Ok(None) => (after, Ok(false)),
            Err(stop) => (after, Err(stop)),
        }
    }
}

/// Asks the owner to confirm.
pub fn confirm(terminal: bool, dialogue: &mut Dialogue, prompt: &str) -> (yes: Result<bool, Stop>)
    ensures
        final(dialogue)@ == confirmed(old(dialogue)@, terminal, prompt@).0,
        match yes {
            Ok(yes) => confirmed(old(dialogue)@, terminal, prompt@).1 == Ok::<bool, StopModel>(yes),
            Err(stop) => confirmed(old(dialogue)@, terminal, prompt@).1 == Err::<bool, StopModel>(
                stop@,
            ),
        },
{
    if !terminal {
        return Err(Stop::Failed(CONFIRMATION.to_owned()));
    }
    dialogue.say(prompt);
    match read_line(dialogue) {
        Ok(Some(line)) => {
            let answer = crate::text::lower(trim(line.as_str()).as_str());
            Ok(text_eq(answer.as_str(), "y") || text_eq(answer.as_str(), "yes"))
        },
        Ok(None) => Ok(false),
        Err(stop) => Err(stop),
    }
}

/// Nobody is taken to agree who did not say so: without a terminal, and at the
/// end of input, there is no yes.
pub proof fn silence_is_not_consent(talk: Talk, terminal: bool, prompt: Seq<char>)
    ensures
        confirmed(talk, terminal, prompt).1 == Ok::<bool, StopModel>(true) ==> terminal && talk.next
            < talk.lines.len() && agrees(talk.lines[talk.next as int]),
{
}

/// Running a dialogue again with more lines repeats what it said: a line that
/// was there is read the same.
pub proof fn replay_repeats(talk: Talk, more: Seq<Seq<char>>)
    requires
        talk.next < talk.lines.len(),
    ensures
        line_read(Talk { lines: talk.lines + more, ..talk }).1 == line_read(talk).1,
        line_read(Talk { lines: talk.lines + more, ..talk }).0.next == line_read(talk).0.next,
        line_read(Talk { lines: talk.lines + more, ..talk }).0.output == line_read(talk).0.output,
{
}

/// Only a yes agrees: the word or its first letter, however it is written and whatever
/// space is around it. An empty line and anything else does not.
pub proof fn only_yes_agrees(line: Seq<char>)
    ensures
        agrees(line) ==> trimmed(line).len() == 1 || trimmed(line).len() == 3,
        agrees(line) <==> (lowered(trimmed(line)) =~= seq!['y'] || lowered(trimmed(line)) =~= seq![
            'y',
            'e',
            's',
        ]),
{
    reveal_strlit("y");
    reveal_strlit("yes");
    assert("y"@ =~= seq!['y']);
    assert("yes"@ =~= seq!['y', 'e', 's']);
    assert(lowered(trimmed(line)).len() == trimmed(line).len());
}

/// Lines are read in order, each once and as it was written; what is said is added to
/// what was said before and reads nothing.
pub proof fn lines_are_read_in_order(talk: Talk, text: Seq<char>)
    ensures
        line_read(talk).1 matches Ok(Some(line)) ==> talk.next < talk.lines.len() && line
            == talk.lines[talk.next as int] && line_read(talk).0.next == talk.next + 1,
        line_read(talk).1 matches Ok(None) ==> talk.ended && talk.next >= talk.lines.len(),
        line_read(talk).0.lines == talk.lines,
        line_read(talk).0.output == talk.output,
        said(talk, text).next == talk.next,
        said(talk, text).lines == talk.lines,
        said(talk, text).output == talk.output + text,
{
}

/// Somebody confirms only where they are asked at a terminal and their own line agrees.
pub proof fn confirmations_are_given_at_a_terminal(talk: Talk, terminal: bool, prompt: Seq<char>)
    ensures
        confirmed(talk, terminal, prompt).1 == Ok::<bool, StopModel>(true) ==> {
            &&& terminal
            &&& talk.next < talk.lines.len()
            &&& agrees(talk.lines[talk.next as int])
        },
        terminal && talk.next < talk.lines.len() && byte_count(talk.lines[talk.next as int])
            <= MAX_LINE_BYTES ==> confirmed(talk, terminal, prompt).1 == Ok::<bool, StopModel>(
            agrees(talk.lines[talk.next as int]),
        ),
        !terminal ==> confirmed(talk, terminal, prompt).1 is Err,
{
}

/// Somebody is taken to agree only who is asked at a terminal and whose own line says so;
/// a line is read once, in order and as it was written.
pub proof fn agreement_is_read_from_its_line(
    terminal: bool,
    asking: &mut Dialogue,
    prompt: &str,
    yes: Result<bool, Stop>,
    reading: &mut Dialogue,
    line: Result<Option<String>, Stop>,
)
    requires
        call_ensures(confirm, (terminal, asking, prompt), yes),
        call_ensures(read_line, (reading,), line),
    ensures
        yes matches Ok(agreed) ==> terminal && (agreed ==> {
            &&& old(asking)@.next < old(asking)@.lines.len()
            &&& agrees(old(asking)@.lines[old(asking)@.next as int])
        }),
        yes matches Ok(agreed) ==> old(asking)@.next < old(asking)@.lines.len() ==> (agreed
            <==> agrees(old(asking)@.lines[old(asking)@.next as int])),
        !terminal ==> yes is Err,
        final(asking)@.lines == old(asking)@.lines,
        line matches Ok(Some(text)) ==> {
            &&& old(reading)@.next < old(reading)@.lines.len()
            &&& text@ == old(reading)@.lines[old(reading)@.next as int]
            &&& final(reading)@.next == old(reading)@.next + 1
        },
        line matches Ok(None) ==> old(reading)@.ended && final(reading)@ == old(reading)@,
        final(reading)@.lines == old(reading)@.lines,
        final(reading)@.output == old(reading)@.output,
{
}

}
