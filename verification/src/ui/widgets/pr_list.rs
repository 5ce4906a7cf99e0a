//! The list of open pull requests.

use vstd::prelude::*;
use crate::event::{Key, KeyInput};
use crate::github::{PrSummary, PrSummaryView};
use crate::text::{decimal, pad_right, push_decimal, spec_decimal, spec_pad_right, spec_truncate};

pub use crate::text::truncate;
use crate::ui::layout::{bordered_inner, spec_bordered_inner, Area};
use super::action::Action;
use super::viewport::{spec_step_down, spec_step_up, step_down, step_up};

verus! {

/// PR list modal state
#[derive(Debug)]
pub struct PrListState {
    pub prs: Vec<PrSummary>,
    pub cursor: usize,
    pub loading: bool,
    pub error: Option<String>,
}

/// The state of the list as mathematical values.
pub struct PrListModel {
    pub prs: Seq<PrSummaryView>,
    pub cursor: nat,
    pub loading: bool,
    pub error: Option<Seq<char>>,
}

impl View for PrListState {
    type V = PrListModel;

    open spec fn view(&self) -> PrListModel {
        PrListModel {
            prs: self.prs@.map_values(|p: PrSummary| p@),
            cursor: self.cursor as nat,
            loading: self.loading,
            error: match self.error {
                Some(e) => Some(e@),
                None => None,
            },
        }
    }
}

impl Default for PrListState {
    fn default() -> (s: Self)
        ensures
            s@ == (PrListModel { prs: Seq::empty(), cursor: 0, loading: false, error: None }),
    {
        let s = PrListState { prs: Vec::new(), cursor: 0, loading: false, error: None };
        assert(s@.prs =~= Seq::<PrSummaryView>::empty());
        s
    }
}

impl PrListState {
    /// A list that waits for its first answer.
    pub fn new() -> (s: Self)
        ensures
            s@ == (PrListModel { prs: Seq::empty(), cursor: 0, loading: true, error: None }),
    {
        let s = PrListState { prs: Vec::new(), cursor: 0, loading: true, error: None };
        assert(s@.prs =~= Seq::<PrSummaryView>::empty());
        s
    }

    /// Takes the answer: the pull requests are shown from the first one.
    pub fn set_prs(&mut self, prs: Vec<PrSummary>)
        ensures
            final(self)@ == (PrListModel {
                prs: prs@.map_values(|p: PrSummary| p@),
                cursor: 0,
                loading: false,
                ..old(self)@
            }),
    {
        self.prs = prs;
        self.loading = false;
        self.cursor = 0;
    }

    /// Takes a failure: the message is shown in place of the list.
    pub fn set_error(&mut self, err: String)
        ensures
            final(self)@ == (PrListModel { error: Some(err@), loading: false, ..old(self)@ }),
    {
        self.error = Some(err);
        self.loading = false;
    }

    pub fn move_down(&mut self)
        ensures
            final(self)@ == (PrListModel {
                cursor: spec_step_down(old(self)@.cursor, 1, old(self)@.prs.len()),
                ..old(self)@
            }),
    {
        self.cursor = step_down(self.cursor, 1, self.prs.len());
    }

    pub fn move_up(&mut self)
        ensures
            final(self)@ == (PrListModel {
                cursor: spec_step_up(old(self)@.cursor, 1),
                ..old(self)@
            }),
    {
        self.cursor = step_up(self.cursor, 1);
    }

    /// The list after a key: `j` and `k` move the cursor by one; no other key changes it.
    pub open spec fn spec_after_key(model: PrListModel, key: Key) -> PrListModel {
        if key == Key::Char('j') {
            PrListModel { cursor: spec_step_down(model.cursor, 1, model.prs.len()), ..model }
        } else if key == Key::Char('k') {
            PrListModel { cursor: spec_step_up(model.cursor, 1), ..model }
        } else {
            model
        }
    }

    /// What the list reports for a key: `j` and `k` are handled here, `Enter` on a pull
    /// request asks to check it out, and any other key is left to the application.
    pub open spec fn spec_action(model: PrListModel, key: Key) -> Action {
        if key == Key::Char('j') || key == Key::Char('k') {
            Action::Handled
        } else if key == Key::Enter && model.cursor < model.prs.len() {
            Action::CheckoutPr(model.prs[model.cursor as int].number)
        } else {
            Action::Ignored
        }
    }

    pub fn handle_key(&mut self, key: &Key) -> (action: Action)
        ensures
            final(self)@ == Self::spec_after_key(old(self)@, *key),
            action == Self::spec_action(old(self)@, *key),
    {
        if KeyInput::is_down(key) {
            self.move_down();
            Action::Handled
        } else if KeyInput::is_up(key) {
            self.move_up();
            Action::Handled
        } else {
            match key {
                Key::Enter => match self.selected() {
                    Some(pr) => Action::CheckoutPr(pr.number),
                    None => Action::Ignored,
                },
                _ => Action::Ignored,
            }
        }
    }

    /// The pull request under the cursor.
    pub fn selected(&self) -> (p: Option<&PrSummary>)
        ensures
            self.cursor < self.prs@.len() ==> p == Some(&self.prs@[self.cursor as int]),
            self.cursor >= self.prs@.len() ==> p is None,
    {
        if self.cursor < self.prs.len() {
            Some(&self.prs[self.cursor])
        } else {
            None
        }
    }
}

/// Width of the field that holds the number of a pull request.
pub const NUMBER_WIDTH: usize = 5;

/// Width of the field that holds the author, and the longest author shown in full.
pub const AUTHOR_WIDTH: usize = 12;

/// Columns of a row that are not left to the title.
pub const ROW_CHROME: usize = 30;

/// Rows inside the border that do not show pull requests.
pub const LIST_CHROME: usize = 2;

/// What the list shows in place of its rows.
#[derive(Debug, Clone, Copy, PartialEq, Eq, Structural)]
pub enum NoticeKind {
    Loading,
    Error,
    Empty,
}

/// A one-line message with its place on the screen.
#[derive(Debug, Clone)]
pub struct Notice {
    pub kind: NoticeKind,
    pub text: String,
    pub x: u16,
    pub y: u16,
    pub width: u16,
}

/// A message with its text as a sequence of characters.
pub struct NoticeView {
    pub kind: NoticeKind,
    pub text: Seq<char>,
    pub x: u16,
    pub y: u16,
    pub width: u16,
}

impl View for Notice {
    type V = NoticeView;

    open spec fn view(&self) -> NoticeView {
        NoticeView { kind: self.kind, text: self.text@, x: self.x, y: self.y, width: self.width }
    }
}

/// One drawn pull request.
#[derive(Debug, Clone)]
pub struct PrRow {
    /// The screen row.
    pub y: u16,
    pub number: String,
    pub author: String,
    pub title: String,
    pub date: String,
    /// Whether the row is the one under the cursor.
    pub selected: bool,
}

/// A drawn pull request with its texts as sequences of characters.
pub struct PrRowView {
    pub y: u16,
    pub number: Seq<char>,
    pub author: Seq<char>,
    pub title: Seq<char>,
    pub date: Seq<char>,
    pub selected: bool,
}

impl View for PrRow {
    type V = PrRowView;

    open spec fn view(&self) -> PrRowView {
        PrRowView {
            y: self.y,
            number: self.number@,
            author: self.author@,
            title: self.title@,
            date: self.date@,
            selected: self.selected,
        }
    }
}

/// What the list draws into an area.
#[derive(Debug, Clone)]
pub struct PrListFrame {
    pub title: String,
    /// The area inside the border.
    pub inner: Area,
    /// The message shown while loading, after a failure, or when there is nothing to list.
    pub notice: Option<Notice>,
    pub rows: Vec<PrRow>,
    /// The screen row of the key hints, drawn only under a list.
    pub footer_y: Option<u16>,
}

/// A frame with its texts as sequences of characters.
pub struct PrListFrameView {
    pub title: Seq<char>,
    pub inner: Area,
    pub notice: Option<NoticeView>,
    pub rows: Seq<PrRowView>,
    pub footer_y: Option<u16>,
}

impl View for PrListFrame {
    type V = PrListFrameView;

    open spec fn view(&self) -> PrListFrameView {
        PrListFrameView {
            title: self.title@,
            inner: self.inner,
            notice: match self.notice {
                Some(n) => Some(n@),
                None => None,
            },
            rows: self.rows@.map_values(|r: PrRow| r@),
            footer_y: self.footer_y,
        }
    }
}

/// The title of the list: it counts the pull requests.
pub open spec fn spec_list_title(count: nat) -> Seq<char> {
    " Open Pull Requests ("@ + spec_decimal(count) + ") "@
}

/// Whether a message stands in place of the rows.
pub open spec fn spec_shows_notice(model: PrListModel) -> bool {
    model.loading || model.error is Some || model.prs.len() == 0
}

/// The message in place of the rows: loading comes before a failure, a failure before
/// the empty list.
pub open spec fn spec_notice(model: PrListModel, inner: Area) -> NoticeView {
    NoticeView {
        kind: if model.loading {
            NoticeKind::Loading
        } else if model.error is Some {
            NoticeKind::Error
        } else {
            NoticeKind::Empty
        },
        text: if model.loading {
            "Loading..."@
        } else if model.error is Some {
            "Error: "@ + model.error->0
        } else {
            "No open PRs"@
        },
        x: (inner.x + 2) as u16,
        y: (inner.y + 1) as u16,
        width: (inner.width - 4) as u16,
    }
}

/// Rows left for pull requests inside an inner area.
pub open spec fn spec_list_rows(inner: Area) -> nat {
    if inner.height > LIST_CHROME {
        (inner.height - LIST_CHROME) as nat
    } else {
        0
    }
}

/// The first pull request drawn: the window ends at the cursor once the cursor has
/// left the first page.
pub open spec fn spec_window_start(cursor: nat, rows: nat) -> nat {
    if cursor >= rows {
        (cursor - rows + 1) as nat
    } else {
        0
    }
}

/// How many pull requests are drawn from `start` on.
pub open spec fn spec_window_len(count: nat, start: nat, rows: nat) -> nat {
    if start >= count {
        0
    } else if count - start < rows {
        (count - start) as nat
    } else {
        rows
    }
}

/// The row drawn for a pull request.
pub open spec fn spec_pr_row(pr: PrSummaryView, y: u16, title_width: nat, selected: bool)
    -> PrRowView {
    PrRowView {
        y,
        number: "#"@ + spec_pad_right(spec_decimal(pr.number as nat), NUMBER_WIDTH as nat),
        author: spec_pad_right(
            spec_truncate(pr.author, AUTHOR_WIDTH as nat),
            AUTHOR_WIDTH as nat,
        ),
        title: spec_truncate(pr.title, title_width),
        date: pr.updated_at,
        selected,
    }
}

/// The rows drawn for a list: row `i` shows pull request `start + i`, one screen row
/// below the last.
pub open spec fn spec_pr_rows(model: PrListModel, inner: Area) -> Seq<PrRowView> {
    let rows = spec_list_rows(inner);
    let start = spec_window_start(model.cursor, rows);
    Seq::new(
        spec_window_len(model.prs.len(), start, rows),
        |i: int|
            spec_pr_row(
                model.prs[start + i],
                (inner.y + 1 + i) as u16,
                (inner.width - ROW_CHROME) as nat,
                start + i == model.cursor,
            ),
    )
}

/// The frame drawn for a list into an area.
pub open spec fn spec_render_list(model: PrListModel, area: Area) -> PrListFrameView {
    let inner = spec_bordered_inner(area);
    PrListFrameView {
        title: spec_list_title(model.prs.len()),
        inner,
        notice: if spec_shows_notice(model) {
            Some(spec_notice(model, inner))
        } else {
            None
        },
        rows: if spec_shows_notice(model) {
            Seq::empty()
        } else {
            spec_pr_rows(model, inner)
        },
        footer_y: if spec_shows_notice(model) {
            None
        } else {
            Some((inner.y + inner.height - 1) as u16)
        },
    }
}

/// The area is wide and high enough for what the list has to draw in it.
pub open spec fn spec_drawable(model: PrListModel, area: Area) -> bool {
    let inner = spec_bordered_inner(area);
    &&& area.on_screen()
    &&& if spec_shows_notice(model) {
        inner.width >= 4 && inner.y < u16::MAX
    } else {
        &&& inner.width >= ROW_CHROME
        &&& area.height >= 1
        &&& (inner.height > LIST_CHROME || model.cursor < usize::MAX)
    }
}

/// PR list modal widget
#[derive(Debug, Clone, Copy)]
pub struct PrListModal;

fn list_title(count: usize) -> (s: String)
    ensures
        s@ == spec_list_title(count as nat),
{
    let mut s = String::from_str(" Open Pull Requests (");
    push_decimal(&mut s, count as u128);
    s.append(") ");
    s
}

fn pr_row(pr: &PrSummary, y: u16, title_width: usize, selected: bool) -> (row: PrRow)
    ensures
        row@ == spec_pr_row(pr@, y, title_width as nat, selected),
{
    let digits = decimal(pr.number as u128);
    let mut number = String::from_str("#");
    number.append(pad_right(digits.as_str(), NUMBER_WIDTH).as_str());
    let short = truncate(pr.author.as_str(), AUTHOR_WIDTH);
    PrRow {
        y,
        number,
        author: pad_right(short.as_str(), AUTHOR_WIDTH),
        title: truncate(pr.title.as_str(), title_width),
        date: pr.updated_at.clone(),
        selected,
    }
}

impl PrListModal {
    pub fn new() -> (m: Self) {
        PrListModal
    }

    /// Whether the area is wide and high enough for what the list has to draw in it.
    pub fn drawable(state: &PrListState, area: Area) -> (b: bool)
        ensures
            b == spec_drawable(state@, area),
    {
        if !area.fits_screen() {
            return false;
        }
        let inner = bordered_inner(area);
        if state.loading || state.error.is_some() || state.prs.len() == 0 {
            inner.width >= 4 && inner.y < u16::MAX
        } else {
            inner.width as usize >= ROW_CHROME && area.height >= 1 && (inner.height as usize
                > LIST_CHROME || state.cursor < usize::MAX)
        }
    }

    /// Lays out the list in an area.
    pub fn render(&self, area: Area, state: &PrListState) -> (frame: PrListFrame)
        requires
            spec_drawable(state@, area),
        ensures
            frame@ == spec_render_list(state@, area),
    {
        let title = list_title(state.prs.len());
        let inner = bordered_inner(area);
        if state.loading || state.error.is_some() || state.prs.len() == 0 {
            let (kind, text) = if state.loading {
                (NoticeKind::Loading, String::from_str("Loading..."))
            } else {
                match &state.error {
                    Some(err) => {
                        let mut text = String::from_str("Error: ");
                        text.append(err.as_str());
                        (NoticeKind::Error, text)
                    },
                    None => (NoticeKind::Empty, String::from_str("No open PRs")),
                }
            };
            let notice = Notice {
                kind,
                text,
                x: inner.x + 2,
                y: inner.y + 1,
                width: inner.width - 4,
            };
            let frame = PrListFrame {
                title,
                inner,
                notice: Some(notice),
                rows: Vec::new(),
                footer_y: None,
            };
            assert(frame@.rows =~= Seq::<PrRowView>::empty());
            return frame;
        }
        let visible: usize = (inner.height as usize).saturating_sub(LIST_CHROME);
        let start: usize = if state.cursor >= visible {
            state.cursor - visible + 1
        } else {
            0
        };
        let total = state.prs.len();
        let count: usize = if start >= total {
            0
        } else if total - start < visible {
            total - start
        } else {
            visible
        };
        let title_width: usize = inner.width as usize - ROW_CHROME;
        let ghost model = state@;
        let mut rows: Vec<PrRow> = Vec::new();
        let mut i: usize = 0;
        while i < count
            invariant
                i <= count <= visible,
                visible == spec_list_rows(inner),
                start == spec_window_start(model.cursor, visible as nat),
                count == spec_window_len(model.prs.len(), start as nat, visible as nat),
                total == state.prs@.len(),
                count > 0 ==> start + count <= total,
                model == state@,
                title_width == inner.width - ROW_CHROME,
                inner.y + inner.height <= u16::MAX,
                rows@.len() == i,
                forall|k: int|
                    0 <= k < i ==> (#[trigger] rows@[k])@ == spec_pr_row(
                        model.prs[start + k],
                        (inner.y + 1 + k) as u16,
                        title_width as nat,
                        start + k == model.cursor,
                    ),
            decreases count - i,
        {
            let idx = start + i;
            let row = pr_row(&state.prs[idx], inner.y + 1 + i as u16, title_width, idx == state.cursor);
            rows.push(row);
            i += 1;
        }
        let frame = PrListFrame {
            title,
            inner,
            notice: None,
            rows,
            footer_y: Some(inner.y + inner.height - 1),
        };
        assert(frame@.rows =~= spec_pr_rows(model, inner));
        frame
    }
}

} // verus!
