//! The decisions of the application controller: which pane has the focus, what a key
//! that no pane claimed stands for, what an event of the loop calls for, and which answer
//! of a background request is still wanted.
//!
//! The loop itself, with its waiting and drawing, is the caller's: it hands each event to
//! `dispatch`, performs what comes back, and reports completions to `PrListFetch`.

use vstd::prelude::*;
use crate::event::{AppEvent, Key};
use crate::git::TimelinePosition;
use crate::github::PrSummary;
use crate::ui::widgets::pr_list::{PrListModel, PrListState};
use crate::ui::widgets::{Action, ReviewActionType};

verus! {

/// The pane that receives the keys.
#[derive(Debug, Clone, Copy, PartialEq, Eq, Structural)]
pub enum Focus {
    Files,
    Preview,
    PrList,
}

impl Focus {
    /// The order in which `Tab` visits the panes: files, preview, pull requests, and round.
    pub open spec fn spec_next(self) -> Focus {
        match self {
            Focus::Files => Focus::Preview,
            Focus::Preview => Focus::PrList,
            Focus::PrList => Focus::Files,
        }
    }

    pub fn next(self) -> (f: Focus)
        ensures
            f == self.spec_next(),
    {
        match self {
            Focus::Files => Focus::Preview,
            Focus::Preview => Focus::PrList,
            Focus::PrList => Focus::Files,
        }
    }
}

/// Three steps of `Tab` lead back to the pane they started from, and fewer do not.
pub proof fn lemma_focus_cycle(f: Focus)
    ensures
        f.spec_next() != f,
        f.spec_next().spec_next() != f,
        f.spec_next().spec_next().spec_next() == f,
{
}

/// What a key stands for when no pane claims it.
#[derive(Debug, Clone, Copy, PartialEq, Eq, Structural)]
pub enum Command {
    Quit,
    ToggleHelp,
    Refresh,
    CycleFocus,
    /// One step towards older history.
    TimelineOlder,
    /// One step towards newer history.
    TimelineNewer,
}

/// The pane-agnostic bindings: `q` quits, `?` toggles the help, `r` refreshes, `Tab`
/// moves the focus, `,` steps to older and `.` to newer history.
pub open spec fn spec_global_binding(key: Key) -> Option<Command> {
    match key {
        Key::Char(c) => if c == 'q' {
            Some(Command::Quit)
        } else if c == '?' {
            Some(Command::ToggleHelp)
        } else if c == 'r' {
            Some(Command::Refresh)
        } else if c == ',' {
            Some(Command::TimelineOlder)
        } else if c == '.' {
            Some(Command::TimelineNewer)
        } else {
            None
        },
        Key::Tab => Some(Command::CycleFocus),
        _ => None,
    }
}

pub fn global_binding(key: &Key) -> (c: Option<Command>)
    ensures
        c == spec_global_binding(*key),
{
    match key {
        Key::Char(c) => {
            if *c == 'q' {
                Some(Command::Quit)
            } else if *c == '?' {
                Some(Command::ToggleHelp)
            } else if *c == 'r' {
                Some(Command::Refresh)
            } else if *c == ',' {
                Some(Command::TimelineOlder)
            } else if *c == '.' {
                Some(Command::TimelineNewer)
            } else {
                None
            }
        },
        Key::Tab => Some(Command::CycleFocus),
        _ => None,
    }
}

/// The command for a key after the focused pane has answered: the pane-agnostic bindings
/// are tried only if the pane ignored the key.
pub fn resolve(action: &Action, key: &Key) -> (c: Option<Command>)
    ensures
        c == if *action is Ignored {
            spec_global_binding(*key)
        } else {
            None
        },
{
    if action.is_ignored() {
        global_binding(key)
    } else {
        None
    }
}

/// The line of a file that a comment is meant for.
#[derive(Debug, Clone)]
pub struct LineTarget {
    pub path: String,
    pub line: u32,
}

/// The review that a key opens on a pull request: `a` approves, `x` requests changes,
/// and `c` comments, on the line that is handed in, or on the pull request if none is.
/// No other key opens a review.
pub fn review_binding(key: &Key, pr_number: u64, target: Option<LineTarget>) -> (r: Option<
    ReviewActionType,
>)
    ensures
        *key == Key::Char('a') ==> r == Some(ReviewActionType::Approve { pr_number }),
        *key == Key::Char('x') ==> r == Some(ReviewActionType::RequestChanges { pr_number }),
        *key == Key::Char('c') && target is None ==> r == Some(
            ReviewActionType::Comment { pr_number },
        ),
        *key == Key::Char('c') && target is Some ==> r == Some(
            ReviewActionType::LineComment {
                pr_number,
                path: target->0.path,
                line: target->0.line,
            },
        ),
        *key != Key::Char('a') && *key != Key::Char('x') && *key != Key::Char('c') ==> r is None,
{
    match key {
        Key::Char(c) => {
            if *c == 'a' {
                Some(ReviewActionType::Approve { pr_number })
            } else if *c == 'x' {
                Some(ReviewActionType::RequestChanges { pr_number })
            } else if *c == 'c' {
                match target {
                    Some(t) => Some(
                        ReviewActionType::LineComment { pr_number, path: t.path, line: t.line },
                    ),
                    None => Some(ReviewActionType::Comment { pr_number }),
                }
            } else {
                None
            }
        },
        _ => None,
    }
}

/// What the loop has to do for an event.
#[derive(Debug, Clone, Copy, PartialEq, Eq, Structural)]
pub enum Effect {
    /// Only draw again.
    Redraw,
    /// Hand the key to the panes and bindings.
    HandleKey(Key),
    /// Read the file status and the preview again.
    Refresh,
}

/// A key goes to the panes, a change on disk asks for a refresh, and every other event
/// only leads to the next drawing.
pub open spec fn spec_dispatch(event: AppEvent) -> Effect {
    match event {
        AppEvent::Key(key) => Effect::HandleKey(key),
        AppEvent::FileChanged => Effect::Refresh,
        _ => Effect::Redraw,
    }
}

pub fn dispatch(event: AppEvent) -> (e: Effect)
    ensures
        e == spec_dispatch(event),
{
    match event {
        AppEvent::Key(key) => Effect::HandleKey(key),
        AppEvent::Resize(_, _) => Effect::Redraw,
        AppEvent::Tick => Effect::Redraw,
        AppEvent::FileChanged => Effect::Refresh,
        AppEvent::PrLoaded => Effect::Redraw,
    }
}

/// What the controller asks of its caller after a command.
#[derive(Debug, Clone, Copy, PartialEq, Eq, Structural)]
pub enum Followup {
    Nothing,
    /// The preview shows a range that is no longer selected: fetch it for the new position.
    ReloadPreview,
    /// Read the file status and the preview again.
    Refresh,
}

/// The state that the controller owns beside the panes.
#[derive(Debug, Clone, Copy, PartialEq, Eq, Structural)]
pub struct Controller {
    pub running: bool,
    pub focus: Focus,
    pub timeline: TimelinePosition,
    pub help_open: bool,
}

impl Controller {
    /// The controller after a command. Only `Quit` stops the loop, only the timeline
    /// commands move the position, and each command changes nothing else.
    pub open spec fn spec_apply(self, command: Command, max_commits: usize) -> Controller {
        match command {
            Command::Quit => Controller { running: false, ..self },
            Command::ToggleHelp => Controller { help_open: !self.help_open, ..self },
            Command::Refresh => self,
            Command::CycleFocus => Controller { focus: self.focus.spec_next(), ..self },
            Command::TimelineOlder => Controller {
                timeline: self.timeline.spec_next(max_commits),
                ..self
            },
            Command::TimelineNewer => Controller { timeline: self.timeline.spec_prev(), ..self },
        }
    }

    /// What a command asks of the caller: a timeline step invalidates the preview.
    pub open spec fn spec_followup(command: Command) -> Followup {
        match command {
            Command::Refresh => Followup::Refresh,
            Command::TimelineOlder => Followup::ReloadPreview,
            Command::TimelineNewer => Followup::ReloadPreview,
            _ => Followup::Nothing,
        }
    }

    /// A running controller with the focus on the files and the whole diff selected.
    pub fn new() -> (c: Self)
        ensures
            c == (Controller {
                running: true,
                focus: Focus::Files,
                timeline: TimelinePosition::FullDiff,
                help_open: false,
            }),
    {
        Controller {
            running: true,
            focus: Focus::Files,
            timeline: TimelinePosition::FullDiff,
            help_open: false,
        }
    }

    pub fn apply(&mut self, command: Command, max_commits: usize) -> (f: Followup)
        requires
            command == Command::TimelineNewer ==> old(self).timeline.in_domain(),
        ensures
            *final(self) == old(self).spec_apply(command, max_commits),
            f == Self::spec_followup(command),
            old(self).timeline.in_domain() ==> final(self).timeline.in_domain(),
            old(self).timeline.within(max_commits) ==> final(self).timeline.within(max_commits),
    {
        match command {
            Command::Quit => {
                self.running = false;
                Followup::Nothing
            },
            Command::ToggleHelp => {
                self.help_open = !self.help_open;
                Followup::Nothing
            },
            Command::Refresh => Followup::Refresh,
            Command::CycleFocus => {
                self.focus = self.focus.next();
                Followup::Nothing
            },
            Command::TimelineOlder => {
                self.timeline = self.timeline.next(max_commits);
                Followup::ReloadPreview
            },
            Command::TimelineNewer => {
                self.timeline = self.timeline.prev();
                Followup::ReloadPreview
            },
        }
    }
}

/// The identifiers of the requests for one resource. Each request gets the next
/// identifier, and only the one issued last is current.
#[derive(Debug, Clone, Copy, PartialEq, Eq, Structural)]
pub struct RequestTracker {
    /// The identifier issued last; zero before the first request.
    pub latest: u64,
}

impl RequestTracker {
    /// The identifier is the one of the request issued last.
    pub open spec fn spec_is_current(self, id: u64) -> bool {
        self.latest > 0 && id == self.latest
    }

    pub fn new() -> (t: Self)
        ensures
            t.latest == 0,
    {
        RequestTracker { latest: 0 }
    }

    /// Issues a request: its identifier is the next one, and it supersedes all before it.
    pub fn issue(&mut self) -> (id: u64)
        requires
            old(self).latest < u64::MAX,
        ensures
            id == old(self).latest + 1,
            final(self).latest == id,
            final(self).spec_is_current(id),
            forall|earlier: u64| earlier <= old(self).latest ==> !final(self).spec_is_current(earlier),
    {
        self.latest = self.latest + 1;
        self.latest
    }

    pub fn is_current(&self, id: u64) -> (b: bool)
        ensures
            b == self.spec_is_current(id),
    {
        self.latest > 0 && id == self.latest
    }
}

/// What a worker reports when a fetch of the list of pull requests ends.
#[derive(Debug)]
pub struct PrListCompletion {
    /// The identifier that the request was issued with.
    pub id: u64,
    /// The pull requests, or the message of the failure.
    pub result: Result<Vec<PrSummary>, String>,
}

/// The list as it is after a completion is taken: an answer shows its pull requests from
/// the first one, a failure shows its message; either ends the loading.
pub open spec fn spec_taken(model: PrListModel, result: Result<Vec<PrSummary>, String>)
    -> PrListModel {
    match result {
        Ok(prs) => PrListModel {
            prs: prs@.map_values(|p: PrSummary| p@),
            cursor: 0,
            loading: false,
            ..model
        },
        Err(message) => PrListModel { error: Some(message@), loading: false, ..model },
    }
}

/// The list as it is after a completion arrives: taken if its request is the current
/// one, else left as it was.
pub open spec fn spec_completed(
    model: PrListModel,
    tracker: RequestTracker,
    id: u64,
    result: Result<Vec<PrSummary>, String>,
) -> PrListModel {
    if tracker.spec_is_current(id) {
        spec_taken(model, result)
    } else {
        model
    }
}

/// The fetches of the list of pull requests and the list that shows their answers.
#[derive(Debug)]
pub struct PrListFetch {
    pub requests: RequestTracker,
    pub list: PrListState,
}

impl PrListFetch {
    pub fn new() -> (f: Self)
        ensures
            f.requests.latest == 0,
            f.list@ == (PrListModel { prs: Seq::empty(), cursor: 0, loading: true, error: None }),
    {
        PrListFetch { requests: RequestTracker::new(), list: PrListState::new() }
    }

    /// Issues a fetch and returns its identifier. The list is left as it is.
    pub fn begin(&mut self) -> (id: u64)
        requires
            old(self).requests.latest < u64::MAX,
        ensures
            id == old(self).requests.latest + 1,
            final(self).requests.latest == id,
            final(self).list@ == old(self).list@,
    {
        self.requests.issue()
    }

    /// Takes a completion if its request is the current one, and discards it otherwise.
    /// Returns whether it was taken.
    pub fn complete(&mut self, completion: PrListCompletion) -> (taken: bool)
        ensures
            taken == old(self).requests.spec_is_current(completion.id),
            final(self).requests == old(self).requests,
            final(self).list@ == spec_completed(
                old(self).list@,
                old(self).requests,
                completion.id,
                completion.result,
            ),
    {
        if !self.requests.is_current(completion.id) {
            return false;
        }
        match completion.result {
            Ok(prs) => {
                self.list.set_prs(prs);
            },
            Err(message) => {
                self.list.set_error(message);
            },
        }
        true
    }
}

/// Of two completions of which one belongs to the current request and the other to a
/// superseded one, the list shows only the current one's result, in whichever order the
/// two arrive.
pub proof fn lemma_last_request_wins(
    model: PrListModel,
    tracker: RequestTracker,
    stale_id: u64,
    stale: Result<Vec<PrSummary>, String>,
    current_id: u64,
    current: Result<Vec<PrSummary>, String>,
)
    requires
        tracker.spec_is_current(current_id),
        stale_id != current_id,
    ensures
        spec_completed(
            spec_completed(model, tracker, stale_id, stale),
            tracker,
            current_id,
            current,
        ) == spec_taken(model, current),
        spec_completed(
            spec_completed(model, tracker, current_id, current),
            tracker,
            stale_id,
            stale,
        ) == spec_taken(model, current),
{
}

/// Every identifier issued before the latest one is superseded.
pub proof fn lemma_earlier_requests_are_stale(tracker: RequestTracker, id: u64)
    requires
        id < tracker.latest,
    ensures
        !tracker.spec_is_current(id),
{
}

} // verus!
