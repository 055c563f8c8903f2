//! Layouts of the workbench: changing them, and carrying them over by files.

use crate::text::{join, joined, joined_parts_occur, occurs, parts_occur, views};
use vstd::prelude::*;
use vstd::string::*;

verus! {

/// What is chosen with a file dialog.
#[derive(Clone, Copy, PartialEq, Eq, Structural, Debug)]
pub enum Choice {
    Attachments,
    LayoutFile,
    LayoutDestination,
}

/// What a file dialog gave.
#[derive(Debug, PartialEq, Eq)]
pub enum Picked {
    Paths(Vec<String>),
    Nothing,
    /// The dialog could not be shown.
    Refused(String),
    /// The dialog went away.
    Stopped(String),
}

/// What is said before the reason for which a dialog could not be shown.
pub open spec fn refusal_of(choice: Choice) -> Seq<char> {
    match choice {
        Choice::Attachments => "Could not choose an attachment: "@,
        Choice::LayoutFile => "Could not choose a layout file: "@,
        Choice::LayoutDestination => "Could not choose a layout destination: "@,
    }
}

/// What is said before the reason for which a dialog went away.
pub open spec fn stop_of(choice: Choice) -> Seq<char> {
    match choice {
        Choice::Attachments => "Attachment picker stopped: "@,
        Choice::LayoutFile => "Layout file picker stopped: "@,
        Choice::LayoutDestination => "Layout destination picker stopped: "@,
    }
}

/// The paths that a dialog gave, or what is said of its failure.
pub open spec fn paths_of(choice: Choice, picked: Picked) -> Result<Seq<String>, Seq<char>> {
    match picked {
        Picked::Paths(paths) => Ok(paths@),
        Picked::Nothing => Ok(Seq::empty()),
        Picked::Refused(reason) => Err(refusal_of(choice) + reason@),
        Picked::Stopped(reason) => Err(stop_of(choice) + reason@),
    }
}

/// Takes what a dialog gave.
pub fn take_picked(choice: Choice, picked: Picked) -> (taken: Result<Vec<String>, String>)
    ensures
        match paths_of(choice, picked) {
            Ok(paths) => taken matches Ok(held) && held@ == paths,
            Err(text) => taken matches Err(said) && said@ == text,
        },
{
    match picked {
        Picked::Paths(paths) => Ok(paths),
        Picked::Nothing => Ok(Vec::new()),
        Picked::Refused(reason) => {
            let mut text = (match choice {
                Choice::Attachments => "Could not choose an attachment: ",
                Choice::LayoutFile => "Could not choose a layout file: ",
                Choice::LayoutDestination => "Could not choose a layout destination: ",
            }).to_owned();
            text.append(reason.as_str());
            Err(text)
        },
        Picked::Stopped(reason) => {
            let mut text = (match choice {
                Choice::Attachments => "Attachment picker stopped: ",
                Choice::LayoutFile => "Layout file picker stopped: ",
                Choice::LayoutDestination => "Layout destination picker stopped: ",
            }).to_owned();
            text.append(reason.as_str());
            Err(text)
        },
    }
}

/// The first of the paths that a dialog gave, or what is said of its failure.
pub open spec fn first_path(choice: Choice, picked: Picked) -> Result<
    Option<String>,
    Seq<char>,
> {
    match paths_of(choice, picked) {
        Ok(paths) => if paths.len() > 0 {
            Ok(Some(paths[0]))
        } else {
            Ok(None)
        },
        Err(text) => Err(text),
    }
}

fn take_first(choice: Choice, picked: Picked) -> (taken: Result<Option<String>, String>)
    ensures
        match first_path(choice, picked) {
            Ok(path) => taken == Ok::<Option<String>, String>(path),
            Err(text) => taken matches Err(said) && said@ == text,
        },
{
    match take_picked(choice, picked) {
        Ok(paths) => if paths.len() > 0 {
            Ok(Some(paths[0].clone()))
        } else {
            Ok(None)
        },
        Err(text) => Err(text),
    }
}

/// The question before a layout is taken from a file.
pub const IMPORT_QUESTION: &'static str = "Import this Workbench layout?";

pub const IMPORTING: &'static str = "Importing validated Workbench layout…";

/// What is done next with a file.
#[derive(Debug, PartialEq, Eq)]
pub enum FileWork {
    ReadLayout { path: String },
    /// Ask whether the layout is taken, with what would change.
    Confirm { question: &'static str, detail: String },
    SaveLayout,
    WriteLayout { path: String },
    Say(String),
    Fail(String),
    Nothing,
}

/// What came of it.
#[derive(Debug, PartialEq, Eq)]
pub enum FileEvent {
    Picked(Picked),
    /// A layout was read, with the names of its panels.
    Read { panels: Vec<String> },
    /// The question was answered, with the first answer or otherwise.
    Answered { first: bool },
    Saved,
    Written,
    Failed(String),
}

/// How far a layout has been carried over.
#[derive(Debug, PartialEq, Eq)]
pub enum FileStage {
    Picking,
    Reading,
    Confirming,
    Saving,
    Writing { path: String },
    Over,
}

/// A layout that is carried over by a file.
#[derive(Debug, PartialEq, Eq)]
pub struct LayoutFile {
    pub choice: Choice,
    pub stage: FileStage,
}

/// What would change, by the names of the panels.
pub open spec fn import_detail(panels: Seq<Seq<char>>) -> Seq<char> {
    "Panels: "@ + joined(panels, ", "@)
        + ". Only bounded panel IDs, splits, sizes, and visibility will be applied."@
}

/// Whether work says or does something with a text.
pub open spec fn fails_with(work: FileWork, text: Seq<char>) -> bool {
    work matches FileWork::Fail(said) && said@ == text
}

/// How a layout that is carried over moves on what came of its work. A failure
/// ends it, and so does giving nothing or not agreeing.
pub open spec fn file_moves(
    before: LayoutFile,
    event: FileEvent,
    after: LayoutFile,
    work: FileWork,
) -> bool {
    &&& after.choice == before.choice
    &&& match (before.stage, event) {
        (FileStage::Picking, FileEvent::Picked(picked)) => match first_path(
            before.choice,
            picked,
        ) {
            Err(text) => after.stage is Over && fails_with(work, text),
            Ok(None) => after.stage is Over && work is Nothing,
            Ok(Some(path)) => if before.choice == Choice::LayoutDestination {
                &&& after.stage == (FileStage::Writing { path })
                &&& work == (FileWork::WriteLayout { path })
            } else {
                &&& after.stage is Reading
                &&& work == (FileWork::ReadLayout { path })
            },
        },
        (FileStage::Reading, FileEvent::Read { panels }) => {
            &&& after.stage is Confirming
            &&& work matches FileWork::Confirm { question, detail }
            &&& question@ == IMPORT_QUESTION@
            &&& detail@ == import_detail(views(panels@))
        },
        (FileStage::Confirming, FileEvent::Answered { first }) => if first {
            after.stage is Saving && work is SaveLayout
        } else {
            after.stage is Over && work is Nothing
        },
        (FileStage::Saving, FileEvent::Saved) => {
            &&& after.stage is Over
            &&& work matches FileWork::Say(text)
            &&& text@ == IMPORTING@
        },
        (FileStage::Writing { path }, FileEvent::Written) => {
            &&& after.stage is Over
            &&& work matches FileWork::Say(text)
            &&& text@ == "Exported inert layout to "@ + path@
        },
        (
            FileStage::Reading | FileStage::Saving | FileStage::Writing { .. },
            FileEvent::Failed(text),
        ) => after.stage is Over && work == FileWork::Fail(text),
        _ => after == before && work is Nothing,
    }
}

impl LayoutFile {
    /// Begins to take a layout from a file.
    pub fn import() -> (file: LayoutFile)
        ensures
            file == (LayoutFile { choice: Choice::LayoutFile, stage: FileStage::Picking }),
    {
        LayoutFile { choice: Choice::LayoutFile, stage: FileStage::Picking }
    }

    /// Begins to write a layout to a file.
    pub fn export() -> (file: LayoutFile)
        ensures
            file == (LayoutFile { choice: Choice::LayoutDestination, stage: FileStage::Picking }),
    {
        LayoutFile { choice: Choice::LayoutDestination, stage: FileStage::Picking }
    }

    /// Moves on what came of the work.
    pub fn step(&mut self, event: FileEvent) -> (work: FileWork)
        ensures
            file_moves(*old(self), event, *final(self), work),
    {
        let mut stage = FileStage::Over;
        core::mem::swap(&mut self.stage, &mut stage);
        match (stage, event) {
            (FileStage::Picking, FileEvent::Picked(picked)) => match take_first(
                self.choice,
                picked,
            ) {
                Err(text) => FileWork::Fail(text),
                Ok(None) => FileWork::Nothing,
                Ok(Some(path)) => if self.choice == Choice::LayoutDestination {
                    self.stage = FileStage::Writing { path: path.clone() };
                    FileWork::WriteLayout { path }
                } else {
                    self.stage = FileStage::Reading;
                    FileWork::ReadLayout { path }
                },
            },
            (FileStage::Reading, FileEvent::Read { panels }) => {
                self.stage = FileStage::Confirming;
                let mut detail = "Panels: ".to_owned();
                detail.append(join(&panels, ", ").as_str());
                detail.append(
                    ". Only bounded panel IDs, splits, sizes, and visibility will be applied.",
                );
                FileWork::Confirm { question: IMPORT_QUESTION, detail }
            },
            (FileStage::Confirming, FileEvent::Answered { first }) => if first {
                self.stage = FileStage::Saving;
                FileWork::SaveLayout
            } else {
                FileWork::Nothing
            },
            (FileStage::Saving, FileEvent::Saved) => FileWork::Say(IMPORTING.to_owned()),
            (FileStage::Writing { path }, FileEvent::Written) => {
                let mut text = "Exported inert layout to ".to_owned();
                text.append(path.as_str());
                FileWork::Say(text)
            },
            (FileStage::Reading, FileEvent::Failed(text)) => FileWork::Fail(text),
            (FileStage::Saving, FileEvent::Failed(text)) => FileWork::Fail(text),
            (FileStage::Writing { .. }, FileEvent::Failed(text)) => FileWork::Fail(text),
            (stage, _) => {
                self.stage = stage;
                FileWork::Nothing
            },
        }
    }
}

/// What is asked for of the layout as a whole.
#[derive(Clone, Copy, PartialEq, Eq, Structural, Debug)]
pub enum LayoutRequest {
    Reset,
    SaveAsDefault,
    ClearDefault,
}

/// What is said once the runtime has taken a request.
pub fn layout_requested(request: LayoutRequest) -> (text: &'static str)
    ensures
        text@ == (match request {
            LayoutRequest::Reset => "Restoring this Conversation's Workbench layout…"@,
            LayoutRequest::SaveAsDefault => "Saved this Workbench layout as the default"@,
            LayoutRequest::ClearDefault => "Removed the saved default Workbench layout"@,
        }),
{
    match request {
        LayoutRequest::Reset => "Restoring this Conversation's Workbench layout…",
        LayoutRequest::SaveAsDefault => "Saved this Workbench layout as the default",
        LayoutRequest::ClearDefault => "Removed the saved default Workbench layout",
    }
}

/// What maximizing a panel does: a maximized layout is restored instead,
/// whichever panel was meant.
#[derive(Clone, Copy, PartialEq, Eq, Structural, Debug)]
pub enum Maximizing {
    Restore,
    Maximize,
}

/// Decides between maximizing and restoring.
pub fn toggle_maximize(maximized: bool) -> (work: Maximizing)
    ensures
        work == (if maximized {
            Maximizing::Restore
        } else {
            Maximizing::Maximize
        }),
{
    if maximized {
        Maximizing::Restore
    } else {
        Maximizing::Maximize
    }
}

/// A layout from a file is applied only after it was read and its panels were
/// agreed to.
pub proof fn imports_are_agreed_to(
    before: LayoutFile,
    event: FileEvent,
    after: LayoutFile,
    work: FileWork,
)
    requires
        file_moves(before, event, after, work),
    ensures
        work is SaveLayout ==> before.stage is Confirming && event == (FileEvent::Answered {
            first: true,
        }),
        after.stage is Confirming && before.stage !is Confirming ==> event is Read,
{
}

/// A file is read or written as it was chosen: the first path that the dialog gave, to write
/// where a destination was asked for and to read otherwise. Where nothing was chosen nothing
/// happens, and a dialog that failed is told with its reason.
pub proof fn layouts_go_where_they_were_sent(
    before: LayoutFile,
    picked: Picked,
    after: LayoutFile,
    work: FileWork,
)
    requires
        file_moves(before, FileEvent::Picked(picked), after, work),
        before.stage is Picking,
    ensures
        picked matches Picked::Paths(paths) ==> {
            &&& paths@.len() == 0 ==> work is Nothing
            &&& paths@.len() > 0 && before.choice == Choice::LayoutDestination ==> work == (
            FileWork::WriteLayout { path: paths@[0] })
            &&& paths@.len() > 0 && before.choice != Choice::LayoutDestination ==> work == (
            FileWork::ReadLayout { path: paths@[0] })
        },
        picked is Nothing ==> work is Nothing && after.stage is Over,
        picked matches Picked::Refused(reason) ==> (work matches FileWork::Fail(text) && occurs(
            text@,
            reason@,
        )),
        picked matches Picked::Stopped(reason) ==> (work matches FileWork::Fail(text) && occurs(
            text@,
            reason@,
        )),
{
    let nothing = Seq::<char>::empty();
    match picked {
        Picked::Refused(reason) => {
            let text = refusal_of(before.choice) + reason@;
            assert(text + nothing =~= text);
            parts_occur(refusal_of(before.choice), reason@, nothing);
        },
        Picked::Stopped(reason) => {
            let text = stop_of(before.choice) + reason@;
            assert(text + nothing =~= text);
            parts_occur(stop_of(before.choice), reason@, nothing);
        },
        _ => {},
    }
}

/// What would change is told before it changes: every panel of the layout is named. Only
/// the first answer agrees.
pub proof fn imports_name_their_panels(
    before: LayoutFile,
    panels: Vec<String>,
    after: LayoutFile,
    work: FileWork,
    at: int,
)
    requires
        file_moves(before, FileEvent::Read { panels }, after, work),
        before.stage is Reading,
        0 <= at < panels@.len(),
    ensures
        work matches FileWork::Confirm { detail, .. } && occurs(detail@, panels@[at]@),
{
    let names = joined(views(panels@), ", "@);
    let end = ". Only bounded panel IDs, splits, sizes, and visibility will be applied."@;
    joined_parts_occur(views(panels@), ", "@, at);
    assert(views(panels@)[at] == panels@[at]@);
    let place = choose|i: int|
        0 <= i <= names.len() - panels@[at]@.len() && #[trigger] names.subrange(
            i,
            i + panels@[at]@.len(),
        ) == panels@[at]@;
    let front = "Panels: "@;
    let text = front + names + end;
    assert(text.subrange(front.len() + place, front.len() + place + panels@[at]@.len())
        =~= names.subrange(place, place + panels@[at]@.len()));
}

/// A layout that is carried over ends once, and a failure is told as it came.
pub proof fn layouts_end_as_they_came_out(
    before: LayoutFile,
    event: FileEvent,
    after: LayoutFile,
    work: FileWork,
)
    requires
        file_moves(before, event, after, work),
    ensures
        after.choice == before.choice,
        before.stage is Over ==> after.stage is Over && work is Nothing,
        before.stage is Confirming ==> (event matches FileEvent::Answered { first } ==> (work
            is SaveLayout <==> first)),
        work is SaveLayout ==> before.stage is Confirming,
        work is Say ==> after.stage is Over && (event is Saved || event is Written),
        before.stage is Reading || before.stage is Saving || before.stage is Writing ==> (event
            matches FileEvent::Failed(cause) ==> work == FileWork::Fail(cause) && after.stage
            is Over),
        work is Fail ==> after.stage is Over && (event is Failed || event is Picked),
{
}

/// A maximized layout is restored, and one that is not is maximized.
pub proof fn maximizing_toggles(maximized: bool, work: Maximizing)
    requires
        call_ensures(toggle_maximize, (maximized,), work),
    ensures
        work == Maximizing::Restore <==> maximized,
{
}

/// What a file dialog gave is taken as it is: the paths in their order, nothing where it
/// was put away, and its own reason where it failed.
pub proof fn picked_paths_are_taken(
    choice: Choice,
    picked: Picked,
    taken: Result<Vec<String>, String>,
)
    requires
        call_ensures(take_picked, (choice, picked), taken),
    ensures
        picked matches Picked::Paths(paths) ==> (taken matches Ok(held) && held@ == paths@),
        picked is Nothing ==> (taken matches Ok(held) && held@.len() == 0),
        picked matches Picked::Refused(reason) ==> (taken matches Err(text) && reason@.is_suffix_of(
            text@,
        )),
        picked matches Picked::Stopped(reason) ==> (taken matches Err(text) && reason@.is_suffix_of(
            text@,
        )),
{
    match picked {
        Picked::Refused(reason) => {
            let text = refusal_of(choice) + reason@;
            assert(text.subrange(text.len() - reason@.len(), text.len() as int) =~= reason@);
        },
        Picked::Stopped(reason) => {
            let text = stop_of(choice) + reason@;
            assert(text.subrange(text.len() - reason@.len(), text.len() as int) =~= reason@);
        },
        _ => {},
    }
}

}
