//! How many updates the workbench takes before it is drawn again.

use crate::desktop::navigation::{intended, LaunchIntent, NavigationTarget};
use crate::desktop::places::{focused, Focus};
use crate::desktop::workbench::{workbench_moves, Outcome, Update, Workbench};
use vstd::prelude::*;

verus! {

/// How many updates are taken before the workbench is drawn again.
pub const UPDATES_PER_FRAME: usize = 64;

/// The updates that are taken before the workbench is drawn again: how many were
/// taken, whether anything has to be shown anew, whether more can ever come, and
/// whether no more are taken now.
#[derive(Clone, Copy, PartialEq, Eq, Structural, Debug)]
pub struct Frame {
    pub taken: usize,
    pub changed: bool,
    pub keep_running: bool,
    pub over: bool,
}

impl Frame {
    /// Whether a frame is within its bound.
    pub open spec fn sound(self) -> bool {
        self.taken <= UPDATES_PER_FRAME
    }

    /// Whether another update is taken.
    pub open spec fn more(self) -> bool {
        !self.over && self.taken < UPDATES_PER_FRAME
    }

    /// Begins a frame, after other launches turned the workbench or did not.
    pub fn new(turned: bool) -> (frame: Frame)
        ensures
            frame == (Frame { taken: 0, changed: turned, keep_running: true, over: false }),
            frame.sound(),
    {
        Frame { taken: 0, changed: turned, keep_running: true, over: false }
    }

    /// Whether another update is taken.
    pub fn wants_more(&self) -> (yes: bool)
        ensures
            yes == self.more(),
    {
        !self.over && self.taken < UPDATES_PER_FRAME
    }

    /// Notes that a waiting message was sent.
    pub fn sent(&mut self)
        ensures
            *final(self) == (Frame { changed: true, ..*old(self) }),
    {
        self.changed = true;
    }
}

/// How a frame moves on what was read from the runtime. One that can not be read
/// ends it, and a runtime that stopped is never taken to run again.
pub open spec fn frame_moves(
    before: Frame,
    update: Option<Update>,
    outcome: Option<Outcome>,
    after: Frame,
) -> bool {
    match (update, outcome) {
        (Some(update), Some(outcome)) => after == (Frame {
            taken: (before.taken + 1) as usize,
            changed: true,
            keep_running: before.keep_running && outcome.keep_running,
            over: update is Broken,
        }),
        (None, None) => after == (Frame { over: true, ..before }),
        _ => false,
    }
}

impl Workbench {
    /// Takes what was read from the runtime, if anything was.
    pub fn take(&mut self, frame: &mut Frame, update: Option<Update>) -> (outcome: Option<Outcome>)
        requires
            old(self).sound(),
            old(frame).more(),
        ensures
            final(self).sound(),
            final(frame).sound(),
            frame_moves(*old(frame), update, outcome, *final(frame)),
            match (update, outcome) {
                (Some(update), Some(outcome)) => workbench_moves(
                    *old(self),
                    update,
                    *final(self),
                    outcome,
                ),
                _ => *final(self) == *old(self),
            },
    {
        match update {
            Some(update) => {
                let broken = matches!(update, Update::Broken { .. });
                let outcome = self.apply(update);
                frame.taken += 1;
                frame.changed = true;
                frame.keep_running = frame.keep_running && outcome.keep_running;
                frame.over = broken;
                Some(outcome)
            },
            None => {
                frame.over = true;
                None
            },
        }
    }
}

/// Once the runtime stopped, no later update of a frame starts it again.
pub proof fn stopped_runtimes_stay_stopped(
    before: Frame,
    update: Option<Update>,
    outcome: Option<Outcome>,
    after: Frame,
)
    requires
        frame_moves(before, update, outcome, after),
        !before.keep_running,
    ensures
        !after.keep_running,
{
}

/// Each update that is taken brings a frame nearer to its end.
pub proof fn frames_come_to_an_end(
    before: Frame,
    update: Option<Update>,
    outcome: Option<Outcome>,
    after: Frame,
)
    requires
        before.more(),
        frame_moves(before, update, outcome, after),
    ensures
        after.over || UPDATES_PER_FRAME - after.taken < UPDATES_PER_FRAME - before.taken,
{
}

/// The launches that are taken before the workbench is drawn again: how many were
/// taken, and whether no more are taken now.
#[derive(Clone, Copy, PartialEq, Eq, Structural, Debug)]
pub struct Launches {
    pub taken: usize,
    pub over: bool,
}

impl Launches {
    /// Whether no more launches were taken than may be.
    pub open spec fn sound(self) -> bool {
        self.taken <= UPDATES_PER_FRAME
    }

    /// Whether another launch is taken.
    pub open spec fn more(self) -> bool {
        !self.over && self.taken < UPDATES_PER_FRAME
    }

    /// Begins to take launches.
    pub fn new() -> (launches: Launches)
        ensures
            launches == (Launches { taken: 0, over: false }),
            launches.sound(),
    {
        Launches { taken: 0, over: false }
    }

    /// Whether another launch is taken.
    pub fn wants_more(&self) -> (yes: bool)
        ensures
            yes == self.more(),
    {
        !self.over && self.taken < UPDATES_PER_FRAME
    }

    /// Whether any launch turned the workbench.
    pub fn turned(&self) -> (yes: bool)
        ensures
            yes == (self.taken > 0),
    {
        self.taken > 0
    }
}

/// What another launch comes to: the window comes forward, a draft of the settings
/// is begun where `begin` says so, and it is told what was opened.
#[derive(Clone, Copy, PartialEq, Eq, Structural, Debug)]
pub struct Launched {
    pub begin: bool,
    pub focus: Focus,
}

/// Whether another launch turned the workbench to a place.
pub open spec fn launched(
    before: Workbench,
    intent: LaunchIntent,
    has_draft: bool,
    after: Workbench,
    told: Launched,
) -> bool {
    &&& after == (Workbench { navigation: intended(intent), ..before })
    &&& told.begin == (intended(intent).among_settings() && !has_draft)
    &&& told.focus == focused(intended(intent))
}

fn focus_of(target: NavigationTarget) -> (focus: Focus)
    ensures
        focus == focused(target),
{
    match target {
        NavigationTarget::Settings => Focus::Search,
        NavigationTarget::Diagnostics => Focus::Diagnostics,
        _ => Focus::Nothing,
    }
}

impl Workbench {
    /// Takes what another launch asked for, if one did.
    pub fn take_launch(
        &mut self,
        launches: &mut Launches,
        intent: Option<LaunchIntent>,
        has_draft: bool,
    ) -> (told: Option<Launched>)
        requires
            old(launches).more(),
        ensures
            final(launches).sound(),
            match intent {
                Some(intent) => {
                    &&& *final(launches) == (Launches {
                        taken: (old(launches).taken + 1) as usize,
                        over: false,
                    })
                    &&& told matches Some(told)
                    &&& launched(*old(self), intent, has_draft, *final(self), told)
                },
                None => {
                    &&& *final(launches) == (Launches { over: true, ..*old(launches) })
                    &&& told is None
                    &&& *final(self) == *old(self)
                },
            },
    {
        match intent {
            Some(intent) => {
                launches.taken += 1;
                let begin = self.turn_to(intent, has_draft);
                let focus = focus_of(self.navigation);
                Some(Launched { begin, focus })
            },
            None => {
                launches.over = true;
                None
            },
        }
    }
}

/// A frame takes what is read until it is full or nothing is left: each update counts once
/// and has to be shown, and a frame into which nothing came is shown only where something
/// was to be shown before.
pub proof fn frames_count_their_updates(
    before: Frame,
    update: Option<Update>,
    outcome: Option<Outcome>,
    after: Frame,
)
    requires
        before.more(),
        frame_moves(before, update, outcome, after),
    ensures
        update is Some ==> after.taken == before.taken + 1 && after.changed,
        update is None ==> after.over && after.taken == before.taken && after.changed
            == before.changed && after.keep_running == before.keep_running,
        update is Some ==> (after.keep_running <==> before.keep_running
            && outcome->0.keep_running),
        update is Some ==> (after.over <==> update->0 is Broken),
        after.taken <= 64,
        !after.more() ==> after.over || after.taken == 64,
{
}

/// What another launch asked for is turned to, one at a time; where none asked, nothing
/// changes and no more are looked for.
pub proof fn launches_are_followed(
    workbench: &mut Workbench,
    launches: &mut Launches,
    intent: Option<LaunchIntent>,
    has_draft: bool,
    told: Option<Launched>,
)
    requires
        old(launches).more(),
        call_ensures(Workbench::take_launch, (workbench, launches, intent, has_draft), told),
    ensures
        told is Some <==> intent is Some,
        intent matches Some(asked) ==> {
            &&& final(workbench).navigation == crate::desktop::navigation::intended(asked)
            &&& final(launches).taken == old(launches).taken + 1
        },
        intent is None ==> *final(workbench) == *old(workbench) && final(launches).over,
        final(workbench).active == old(workbench).active,
        final(workbench).pending == old(workbench).pending,
{
}

}
