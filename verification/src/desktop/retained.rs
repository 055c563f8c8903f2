//! What the workbench keeps: the views of recent conversations, commands that are
//! not answered yet, and submissions that can be sent again.

use crate::text::{copy_list, text_eq};
use std::collections::{HashMap, HashSet};
use vstd::prelude::*;

verus! {

/// The most conversations whose views are kept.
pub const MAX_RETAINED_CONVERSATION_UIS: usize = 128;

/// The most submissions that can be sent again.
pub const MAX_RECOVERABLE_SUBMISSIONS: usize = 64;

/// Where a name stands in a list, or how many there are.
pub open spec fn name_index(names: Seq<String>, name: Seq<char>) -> nat
    decreases names.len(),
{
    if names.len() == 0 || names[0]@ == name {
        0
    } else {
        1 + name_index(names.drop_first(), name)
    }
}

fn find_name(names: &Vec<String>, name: &str) -> (found: Option<usize>)
    ensures
        match found {
            Some(at) => at < names@.len() && at == name_index(names@, name@),
            None => name_index(names@, name@) >= names@.len(),
        },
{
    let mut i: usize = 0;
    assert(names@.skip(0) =~= names@);
    while i < names.len()
        invariant
            i <= names@.len(),
            name_index(names@, name@) == i + name_index(names@.skip(i as int), name@),
        decreases names@.len() - i,
    {
        assert(names@.skip(i as int).drop_first() =~= names@.skip(i + 1));
        if text_eq(names[i].as_str(), name) {
            return Some(i);
        }
        i += 1;
    }
    None
}

/// The list without a name.
pub open spec fn without_name(names: Seq<String>, name: Seq<char>) -> Seq<String> {
    let at = name_index(names, name);
    if at < names.len() {
        names.remove(at as int)
    } else {
        names
    }
}

/// Whether every name is there once.
pub open spec fn distinct(names: Seq<String>) -> bool {
    forall|i: int, j: int|
        0 <= i < j < names.len() ==> (#[trigger] names[i])@ != (#[trigger] names[j])@
}

proof fn name_is_at_its_index(names: Seq<String>, name: Seq<char>)
    ensures
        name_index(names, name) <= names.len(),
        name_index(names, name) < names.len() ==> names[name_index(names, name) as int]@ == name,
        forall|i: int| 0 <= i < name_index(names, name) ==> (#[trigger] names[i])@ != name,
    decreases names.len(),
{
    if names.len() > 0 && names[0]@ != name {
        let rest = names.drop_first();
        name_is_at_its_index(rest, name);
        assert forall|i: int| 0 <= i < name_index(names, name) implies (#[trigger] names[i])@
            != name by {
            if i > 0 {
                assert(names[i] == rest[i - 1]);
            }
        }
    }
}

/// The conversations whose views are kept, the one used longest ago first.
#[derive(Debug, PartialEq, Eq)]
pub struct RetainedUis {
    pub order: Vec<String>,
}

/// What turning to a conversation does to the views.
#[derive(Debug, PartialEq, Eq)]
pub struct Activation {
    /// Whether views are made for it.
    pub created: bool,
    /// The conversation whose views are dropped.
    pub dropped: Option<String>,
}

/// Whether turning to a conversation leaves an order: the conversation becomes
/// the latest, and where more are kept than may be, the one used longest ago is
/// dropped.
pub open spec fn turns_to(
    before: Seq<String>,
    conversation: Seq<char>,
    after: Seq<String>,
    activation: Activation,
) -> bool {
    let kept = without_name(before, conversation);
    &&& after.len() > 0
    &&& after.last()@ == conversation
    &&& activation.created == (name_index(before, conversation) >= before.len())
    &&& if kept.len() < MAX_RETAINED_CONVERSATION_UIS {
        &&& activation.dropped is None
        &&& after.drop_last() == kept
    } else {
        &&& activation.dropped == Some(kept[0])
        &&& after.drop_last() == kept.drop_first()
    }
}

impl RetainedUis {
    /// Whether every conversation is there once, and no more than are kept.
    pub open spec fn sound(self) -> bool {
        distinct(self.order@) && self.order@.len() <= MAX_RETAINED_CONVERSATION_UIS
    }

    /// The views of the first conversation.
    pub fn new(conversation: String) -> (uis: RetainedUis)
        ensures
            uis.sound(),
            uis.order@ == seq![conversation],
    {
        let mut order: Vec<String> = Vec::new();
        order.push(conversation);
        assert(order@ =~= seq![conversation]);
        RetainedUis { order }
    }

    /// Turns to a conversation: it becomes the latest, and where more are kept
    /// than may be, the one used longest ago is dropped.
    pub fn activate(&mut self, conversation: &str) -> (activation: Activation)
        requires
            old(self).sound(),
        ensures
            final(self).sound(),
            turns_to(old(self).order@, conversation@, final(self).order@, activation),
    {
        let ghost before = self.order@;
        let found = find_name(&self.order, conversation);
        proof {
            name_is_at_its_index(before, conversation@);
        }
        let created = found.is_none();
        match found {
            Some(at) => {
                let _ = self.order.remove(at);
            },
            None => {},
        }
        let ghost kept = without_name(before, conversation@);
        assert(self.order@ =~= kept);
        assert forall|i: int| 0 <= i < kept.len() implies (#[trigger] kept[i])@ != conversation@ by {
            let at = name_index(before, conversation@) as int;
            if at < before.len() {
                let from = if i < at {
                    i
                } else {
                    i + 1
                };
                assert(kept[i] == before[from]);
                assert(before[at]@ == conversation@);
            } else {
                assert(kept[i] == before[i]);
            }
        }
        assert(distinct(kept)) by {
            assert forall|i: int, j: int| 0 <= i < j < kept.len() implies (#[trigger] kept[i])@ != (
            #[trigger] kept[j])@ by {
                let at = name_index(before, conversation@) as int;
                if at < before.len() {
                    let one = if i < at {
                        i
                    } else {
                        i + 1
                    };
                    let two = if j < at {
                        j
                    } else {
                        j + 1
                    };
                    assert(kept[i] == before[one]);
                    assert(kept[j] == before[two]);
                } else {
                    assert(kept[i] == before[i]);
                    assert(kept[j] == before[j]);
                }
            }
        }
        let dropped = if self.order.len() >= MAX_RETAINED_CONVERSATION_UIS {
            let oldest = self.order.remove(0);
            assert(self.order@ =~= kept.drop_first());
            Some(oldest)
        } else {
            None
        };
        self.order.push(conversation.to_owned());
        assert(self.order@.drop_last() =~= (if dropped is Some {
            kept.drop_first()
        } else {
            kept
        }));
        Activation { created, dropped }
    }
}

/// The conversation that is turned to keeps its views: it is never the one that
/// is dropped.
pub proof fn the_active_conversation_is_kept(
    order: Seq<String>,
    conversation: Seq<char>,
    dropped: String,
)
    requires
        distinct(order),
        without_name(order, conversation).len() > 0,
        dropped == without_name(order, conversation)[0],
    ensures
        dropped@ != conversation,
{
    name_is_at_its_index(order, conversation);
    let at = name_index(order, conversation) as int;
    if at < order.len() {
        let from: int = if at == 0 {
            1
        } else {
            0
        };
        assert(dropped == order[from]);
        if at == 0 {
            assert(order[0]@ != order[1]@);
        }
    }
}

/// A message that was written, with what is attached to it.
#[derive(Debug, PartialEq, Eq)]
pub struct Submission {
    pub id: String,
    pub text: String,
    pub attachments: Vec<String>,
}

impl Submission {
    /// Whether two messages are the same.
    pub open spec fn same_as(self, other: Submission) -> bool {
        &&& self.id == other.id
        &&& self.text == other.text
        &&& self.attachments@ == other.attachments@
    }

    /// The same message.
    pub fn copy(&self) -> (copy: Submission)
        ensures
            copy.same_as(*self),
    {
        Submission {
            id: self.id.clone(),
            text: self.text.clone(),
            attachments: copy_list(&self.attachments),
        }
    }
}

/// A submission that can be sent again.
#[derive(Debug, PartialEq, Eq)]
pub struct Recoverable {
    pub operation: String,
    pub conversation: String,
    pub submission: Submission,
}

/// Where a run stands among those that can be sent again, or how many there are.
pub open spec fn run_index(runs: Seq<Recoverable>, operation: Seq<char>) -> nat
    decreases runs.len(),
{
    if runs.len() == 0 || runs[0].operation@ == operation {
        0
    } else {
        1 + run_index(runs.drop_first(), operation)
    }
}

fn find_run(runs: &Vec<Recoverable>, operation: &str) -> (found: Option<usize>)
    ensures
        match found {
            Some(at) => at < runs@.len() && at == run_index(runs@, operation@),
            None => run_index(runs@, operation@) >= runs@.len(),
        },
{
    let mut i: usize = 0;
    assert(runs@.skip(0) =~= runs@);
    while i < runs.len()
        invariant
            i <= runs@.len(),
            run_index(runs@, operation@) == i + run_index(runs@.skip(i as int), operation@),
        decreases runs@.len() - i,
    {
        assert(runs@.skip(i as int).drop_first() =~= runs@.skip(i + 1));
        if text_eq(runs[i].operation.as_str(), operation) {
            return Some(i);
        }
        i += 1;
    }
    None
}

/// The runs without one.
pub open spec fn without_run(runs: Seq<Recoverable>, operation: Seq<char>) -> Seq<Recoverable> {
    let at = run_index(runs, operation);
    if at < runs.len() {
        runs.remove(at as int)
    } else {
        runs
    }
}

/// The runs with one more, which is the latest; where there are more than can be
/// kept, the oldest is dropped.
pub open spec fn with_run(runs: Seq<Recoverable>, run: Recoverable) -> Seq<Recoverable> {
    let all = without_run(runs, run.operation@).push(run);
    if all.len() > MAX_RECOVERABLE_SUBMISSIONS {
        all.drop_first()
    } else {
        all
    }
}

/// The submissions that can be sent again, the oldest first.
#[derive(Debug, PartialEq, Eq)]
pub struct Recoverables {
    pub runs: Vec<Recoverable>,
}

impl Recoverables {
    /// Whether no more are kept than may be.
    pub open spec fn sound(self) -> bool {
        self.runs@.len() <= MAX_RECOVERABLE_SUBMISSIONS
    }

    /// None.
    pub fn new() -> (recoverables: Recoverables)
        ensures
            recoverables.sound(),
            recoverables.runs@.len() == 0,
    {
        Recoverables { runs: Vec::new() }
    }

    /// Keeps a submission.
    pub fn remember(&mut self, run: Recoverable)
        requires
            old(self).sound(),
        ensures
            final(self).sound(),
            final(self).runs@ == with_run(old(self).runs@, run),
    {
        let ghost before = self.runs@;
        match find_run(&self.runs, run.operation.as_str()) {
            Some(at) => {
                let _ = self.runs.remove(at);
            },
            None => {},
        }
        assert(self.runs@ =~= without_run(before, run.operation@));
        self.runs.push(run);
        let ghost all = self.runs@;
        if self.runs.len() > MAX_RECOVERABLE_SUBMISSIONS {
            let _ = self.runs.remove(0);
            assert(self.runs@ =~= all.drop_first());
        }
    }

    /// Forgets a submission.
    pub fn forget(&mut self, operation: &str)
        ensures
            final(self).runs@ == without_run(old(self).runs@, operation@),
            old(self).sound() ==> final(self).sound(),
    {
        match find_run(&self.runs, operation) {
            Some(at) => {
                let _ = self.runs.remove(at);
            },
            None => {},
        }
    }

    /// Forgets all.
    pub fn clear(&mut self)
        ensures
            final(self).runs@.len() == 0,
            final(self).sound(),
    {
        self.runs = Vec::new();
    }

    /// The submission of a run.
    pub fn find(&self, operation: &str) -> (run: Option<&Recoverable>)
        ensures
            match run {
                Some(run) => {
                    &&& run_index(self.runs@, operation@) < self.runs@.len()
                    &&& *run == self.runs@[run_index(self.runs@, operation@) as int]
                },
                None => run_index(self.runs@, operation@) >= self.runs@.len(),
            },
    {
        match find_run(&self.runs, operation) {
            Some(at) => Some(&self.runs[at]),
            None => None,
        }
    }
}

proof fn latest_run_is_found(runs: Seq<Recoverable>, run: Recoverable)
    requires
        run_index(runs, run.operation@) >= runs.len(),
    ensures
        run_index(runs.push(run), run.operation@) == runs.len(),
    decreases runs.len(),
{
    if runs.len() > 0 {
        assert(runs.push(run).drop_first() =~= runs.drop_first().push(run));
        latest_run_is_found(runs.drop_first(), run);
    }
}

/// Whether no two runs are the same.
pub open spec fn distinct_runs(runs: Seq<Recoverable>) -> bool {
    forall|i: int, j: int|
        0 <= i < j < runs.len() ==> (#[trigger] runs[i]).operation@ != (
        #[trigger] runs[j]).operation@
}

proof fn run_is_at_its_index(runs: Seq<Recoverable>, operation: Seq<char>)
    ensures
        run_index(runs, operation) <= runs.len(),
        run_index(runs, operation) < runs.len() ==> runs[run_index(
            runs,
            operation,
        ) as int].operation@ == operation,
        forall|i: int|
            0 <= i < run_index(runs, operation) ==> (#[trigger] runs[i]).operation@ != operation,
    decreases runs.len(),
{
    if runs.len() > 0 && runs[0].operation@ != operation {
        let rest = runs.drop_first();
        run_is_at_its_index(rest, operation);
        assert forall|i: int| 0 <= i < run_index(runs, operation) implies (
        #[trigger] runs[i]).operation@ != operation by {
            if i > 0 {
                assert(runs[i] == rest[i - 1]);
            }
        }
    }
}

proof fn absent_run_has_no_index(runs: Seq<Recoverable>, operation: Seq<char>)
    requires
        forall|i: int| 0 <= i < runs.len() ==> (#[trigger] runs[i]).operation@ != operation,
    ensures
        run_index(runs, operation) == runs.len(),
    decreases runs.len(),
{
    if runs.len() > 0 {
        let rest = runs.drop_first();
        assert forall|i: int| 0 <= i < rest.len() implies (#[trigger] rest[i]).operation@
            != operation by {
            assert(rest[i] == runs[i + 1]);
        }
        assert(runs[0].operation@ != operation);
        absent_run_has_no_index(rest, operation);
    }
}

/// A submission that was just sent can be sent again: it is kept, with the
/// conversation it belongs to, and the runs stay distinct.
pub proof fn latest_submission_is_recoverable(runs: Seq<Recoverable>, run: Recoverable)
    requires
        distinct_runs(runs),
        runs.len() <= MAX_RECOVERABLE_SUBMISSIONS,
    ensures
        ({
            let after = with_run(runs, run);
            &&& distinct_runs(after)
            &&& run_index(after, run.operation@) == after.len() - 1
            &&& after.last() == run
        }),
{
    let kept = without_run(runs, run.operation@);
    let at = run_index(runs, run.operation@) as int;
    run_is_at_its_index(runs, run.operation@);
    assert forall|i: int| 0 <= i < kept.len() implies (#[trigger] kept[i]).operation@
        != run.operation@ by {
        if at < runs.len() {
            let from = if i < at {
                i
            } else {
                i + 1
            };
            assert(kept[i] == runs[from]);
            assert(runs[at].operation@ == run.operation@);
        } else {
            assert(kept[i] == runs[i]);
        }
    }
    assert(distinct_runs(kept)) by {
        assert forall|i: int, j: int| 0 <= i < j < kept.len() implies (
        #[trigger] kept[i]).operation@ != (#[trigger] kept[j]).operation@ by {
            if at < runs.len() {
                let one = if i < at {
                    i
                } else {
                    i + 1
                };
                let two = if j < at {
                    j
                } else {
                    j + 1
                };
                assert(kept[i] == runs[one]);
                assert(kept[j] == runs[two]);
            } else {
                assert(kept[i] == runs[i]);
                assert(kept[j] == runs[j]);
            }
        }
    }
    absent_run_has_no_index(kept, run.operation@);
    let all = kept.push(run);
    if all.len() > MAX_RECOVERABLE_SUBMISSIONS {
        let rest = kept.drop_first();
        assert(all.drop_first() =~= rest.push(run));
        assert forall|i: int| 0 <= i < rest.len() implies (#[trigger] rest[i]).operation@
            != run.operation@ by {
            assert(rest[i] == kept[i + 1]);
        }
        absent_run_has_no_index(rest, run.operation@);
        latest_run_is_found(rest, run);
    } else {
        latest_run_is_found(kept, run);
    }
}

/// A submission that the runtime has not answered yet.
#[derive(Debug, PartialEq, Eq)]
pub struct PendingSubmission {
    pub conversation: String,
    pub submission: Submission,
    pub operation: Option<String>,
}

/// The commands that the runtime has not answered yet, by their numbers.
#[derive(Debug, PartialEq, Eq)]
pub struct PendingCommands {
    pub settings: HashSet<u64>,
    pub attachments: HashMap<u64, String>,
    pub submissions: HashMap<u64, PendingSubmission>,
}

/// What an answer settles.
#[derive(Debug, PartialEq, Eq)]
pub enum Settled {
    Settings,
    Attachment { conversation: String },
    Submission(PendingSubmission),
    Other,
}

/// How an answer settles what is pending: a settings command, an attachment or a
/// submission, and nothing else is touched.
pub open spec fn settles(
    before: PendingCommands,
    command: u64,
    after: PendingCommands,
    settled: Settled,
) -> bool {
    if before.settings@.contains(command) {
        &&& settled is Settings
        &&& after.settings@ == before.settings@.remove(command)
        &&& after.attachments@ == before.attachments@
        &&& after.submissions@ == before.submissions@
    } else if before.attachments@.contains_key(command) {
        &&& settled == (Settled::Attachment { conversation: before.attachments@[command] })
        &&& after.settings@ == before.settings@
        &&& after.attachments@ == before.attachments@.remove(command)
        &&& after.submissions@ == before.submissions@
    } else if before.submissions@.contains_key(command) {
        &&& settled == Settled::Submission(before.submissions@[command])
        &&& after.settings@ == before.settings@
        &&& after.attachments@ == before.attachments@
        &&& after.submissions@ == before.submissions@.remove(command)
    } else {
        &&& settled is Other
        &&& after.settings@ == before.settings@
        &&& after.attachments@ == before.attachments@
        &&& after.submissions@ == before.submissions@
    }
}

impl PendingCommands {
    /// None.
    pub fn new() -> (pending: PendingCommands)
        ensures
            pending.settings@ == Set::<u64>::empty(),
            pending.attachments@ == Map::<u64, String>::empty(),
            pending.submissions@ == Map::<u64, PendingSubmission>::empty(),
    {
        PendingCommands {
            settings: HashSet::new(),
            attachments: HashMap::new(),
            submissions: HashMap::new(),
        }
    }

    /// Takes what an answer settles.
    pub fn settle(&mut self, command: u64) -> (settled: Settled)
        ensures
            settles(*old(self), command, *final(self), settled),
    {
        broadcast use vstd::std_specs::hash::group_hash_axioms;

        if self.settings.remove(&command) {
            assert(self.settings@ =~= old(self).settings@.remove(command));
            return Settled::Settings;
        }
        assert(self.settings@ =~= old(self).settings@);
        match self.attachments.remove(&command) {
            Some(conversation) => {
                assert(self.attachments@ =~= old(self).attachments@.remove(command));
                return Settled::Attachment { conversation };
            },
            None => {},
        }
        assert(self.attachments@ =~= old(self).attachments@);
        match self.submissions.remove(&command) {
            Some(held) => {
                assert(self.submissions@ =~= old(self).submissions@.remove(command));
                Settled::Submission(held)
            },
            None => {
                assert(self.submissions@ =~= old(self).submissions@);
                Settled::Other
            },
        }
    }

    /// The conversation that an attachment is staged for.
    pub fn attachment_conversation(&self, command: u64) -> (conversation: Option<&String>)
        ensures
            match conversation {
                Some(name) => self.attachments@.contains_pair(command, *name),
                None => !self.attachments@.contains_key(command),
            },
    {
        broadcast use vstd::std_specs::hash::group_hash_axioms;

        self.attachments.get(&command)
    }

    /// Notes a settings command.
    pub fn await_settings(&mut self, command: u64)
        ensures
            final(self).settings@ == old(self).settings@.insert(command),
            *final(self) == (PendingCommands { settings: final(self).settings, ..*old(self) }),
    {
        broadcast use vstd::std_specs::hash::group_hash_axioms;

        let _ = self.settings.insert(command);
    }

    /// Notes an attachment for a conversation. The latest under a number counts.
    pub fn await_attachment(&mut self, command: u64, conversation: String)
        ensures
            final(self).attachments@ == old(self).attachments@.insert(command, conversation),
            *final(self) == (PendingCommands { attachments: final(self).attachments, ..*old(self) }),
    {
        broadcast use vstd::std_specs::hash::group_hash_axioms;

        let _ = self.attachments.insert(command, conversation);
    }

    /// Notes a submission. The latest under a number counts.
    pub fn await_submission(&mut self, command: u64, submission: PendingSubmission)
        ensures
            final(self).submissions@ == old(self).submissions@.insert(command, submission),
            *final(self) == (PendingCommands { submissions: final(self).submissions, ..*old(self) }),
    {
        broadcast use vstd::std_specs::hash::group_hash_axioms;

        let _ = self.submissions.insert(command, submission);
    }
}

/// An answer leaves nothing pending under its number that it settled: the same
/// number answered again settles something else, or nothing.
pub proof fn an_answer_settles_once(
    before: PendingCommands,
    command: u64,
    after: PendingCommands,
    settled: Settled,
)
    requires
        settles(before, command, after, settled),
    ensures
        settled is Settings ==> !after.settings@.contains(command),
        settled is Attachment ==> !after.attachments@.contains_key(command),
        settled is Submission ==> !after.submissions@.contains_key(command),
{
}

/// A run that is taken out is gone, and every other one stays.
pub proof fn runs_are_taken_out(runs: Seq<Recoverable>, operation: Seq<char>)
    requires
        distinct_runs(runs),
    ensures
        forall|i: int|
            0 <= i < without_run(runs, operation).len() ==> (
            #[trigger] without_run(runs, operation)[i]).operation@ != operation,
        forall|i: int|
            0 <= i < runs.len() && (#[trigger] runs[i]).operation@ != operation ==> without_run(
                runs,
                operation,
            ).contains(runs[i]),
{
    run_is_at_its_index(runs, operation);
    let at = run_index(runs, operation) as int;
    let left = without_run(runs, operation);
    assert forall|i: int| 0 <= i < left.len() implies (#[trigger] left[i]).operation@ != operation by {
        if at < runs.len() {
            if i < at {
                assert(left[i] == runs[i]);
            } else {
                assert(left[i] == runs[i + 1]);
                assert(runs[at].operation@ != runs[i + 1].operation@);
            }
        } else {
            assert(left[i] == runs[i]);
        }
    }
    assert forall|i: int| 0 <= i < runs.len() && (#[trigger] runs[i]).operation@
        != operation implies left.contains(runs[i]) by {
        if at < runs.len() && i > at {
            assert(left[i - 1] == runs[i]);
        } else {
            assert(left[i] == runs[i]);
        }
    }
}

/// An answer settles what waits under its number and nothing else: settings before
/// attachments, and those before messages.
pub proof fn answers_settle_what_waits(
    before: PendingCommands,
    command: u64,
    after: PendingCommands,
    settled: Settled,
)
    requires
        settles(before, command, after, settled),
    ensures
        settled is Settings <==> before.settings@.contains(command),
        settled is Attachment ==> before.attachments@.contains_key(command),
        settled matches Settled::Submission(held) ==> before.submissions@.contains_key(command)
            && before.submissions@[command] == held,
        settled is Other ==> !before.settings@.contains(command)
            && !before.attachments@.contains_key(command) && !before.submissions@.contains_key(
            command,
        ),
        forall|other: u64|
            other != command ==> {
                &&& after.settings@.contains(other) == before.settings@.contains(other)
                &&& #[trigger] after.submissions@.contains_key(other)
                    == before.submissions@.contains_key(other)
                &&& after.attachments@.contains_key(other) == before.attachments@.contains_key(
                    other,
                )
            },
{
}

/// The conversation that is turned to becomes the latest, and every other keeps its views
/// but one: where as many are kept as may be, the one that was used longest ago goes.
pub proof fn views_are_kept_by_their_use(
    uis: &mut RetainedUis,
    conversation: &str,
    activation: Activation,
)
    requires
        old(uis).sound(),
        call_ensures(RetainedUis::activate, (uis, conversation), activation),
    ensures
        final(uis).order@.len() > 0,
        final(uis).order@.last()@ == conversation@,
        final(uis).order@.len() <= MAX_RETAINED_CONVERSATION_UIS,
        activation.created <==> forall|i: int|
            0 <= i < old(uis).order@.len() ==> (#[trigger] old(uis).order@[i])@ != conversation@,
        activation.dropped matches Some(name) ==> {
            &&& name@ != conversation@
            &&& old(uis).order@.contains(name)
            &&& old(uis).order@.len() >= MAX_RETAINED_CONVERSATION_UIS
        },
        activation.dropped is None ==> final(uis).order@.len() >= old(uis).order@.len(),
        activation.dropped is Some ==> final(uis).order@.len() == MAX_RETAINED_CONVERSATION_UIS,
{
    let before = old(uis).order@;
    let after = final(uis).order@;
    name_is_at_its_index(before, conversation@);
    let at = name_index(before, conversation@) as int;
    let kept = without_name(before, conversation@);
    if at < before.len() {
        assert(before[at]@ == conversation@);
        assert(kept.len() == before.len() - 1);
    } else {
        assert(kept.len() == before.len());
    }
    assert(after.len() == after.drop_last().len() + 1);
    if let Some(name) = activation.dropped {
        the_active_conversation_is_kept(before, conversation@, name);
        let from: int = if at == 0 {
            1
        } else {
            0
        };
        assert(name == before[from]);
    }
}

/// A run is found by its own operation, and nothing is found of one that is not kept.
pub proof fn runs_are_found_by_their_operation(
    kept: &Recoverables,
    operation: &str,
    run: Option<&Recoverable>,
)
    requires
        call_ensures(Recoverables::find, (kept, operation), run),
    ensures
        run matches Some(found) ==> found.operation@ == operation@ && kept.runs@.contains(*found),
        run is None ==> forall|i: int|
            0 <= i < kept.runs@.len() ==> (#[trigger] kept.runs@[i]).operation@ != operation@,
{
    run_is_at_its_index(kept.runs@, operation@);
}

}
