//! The preview pane: what it shows, the line model and its scrolling state.

use vstd::prelude::*;

pub mod parse;
pub mod render;
pub mod summary;

use crate::event::{Key, KeyInput, FAST_STEP};
use crate::git::{Commit, CommitView};
use crate::github::{PrInfo, PrInfoView};
use super::action::Action;
use super::viewport::{
    last_index, scroll_label, scroll_to, spec_scroll_label, spec_scroll_to, spec_step_down,
    spec_step_up, step_down, step_up, visible_rows, RESERVED_ROWS,
};
use parse::{
    binary_notice, plain_line, spec_is_binary, spec_parse_diff, spec_parse_file_content, views,
};
use summary::spec_commit_summary;

pub use parse::{is_binary, parse_diff, parse_file_content, parse_hunk_header};
pub use render::{render_diff_line, DiffFrame, DiffRow};
pub use summary::parse_commit_summary;

verus! {

/// What to show in the diff view
#[derive(Debug, Clone)]
pub enum PreviewContent {
    Empty,
    FileDiff { path: String, content: String },
    FolderDiff { path: String, content: String },
    FileContent { path: String, content: String },
    CommitSummary { commit: Commit, pr: Option<PrInfo> },
}

/// What to show, with every text as a sequence of characters.
pub enum PreviewContentView {
    Empty,
    FileDiff { path: Seq<char>, content: Seq<char> },
    FolderDiff { path: Seq<char>, content: Seq<char> },
    FileContent { path: Seq<char>, content: Seq<char> },
    CommitSummary { commit: CommitView, pr: Option<PrInfoView> },
}

impl View for PreviewContent {
    type V = PreviewContentView;

    open spec fn view(&self) -> PreviewContentView {
        match self {
            PreviewContent::Empty => PreviewContentView::Empty,
            PreviewContent::FileDiff { path, content } => PreviewContentView::FileDiff {
                path: path@,
                content: content@,
            },
            PreviewContent::FolderDiff { path, content } => PreviewContentView::FolderDiff {
                path: path@,
                content: content@,
            },
            PreviewContent::FileContent { path, content } => PreviewContentView::FileContent {
                path: path@,
                content: content@,
            },
            PreviewContent::CommitSummary { commit, pr } => PreviewContentView::CommitSummary {
                commit: commit@,
                pr: match pr {
                    Some(p) => Some(p@),
                    None => None,
                },
            },
        }
    }
}

impl Default for PreviewContent {
    fn default() -> (c: Self)
        ensures
            c@ == PreviewContentView::Empty,
    {
        PreviewContent::Empty
    }
}

/// How a line of the preview is classified.
#[derive(Debug, Clone, Copy, PartialEq, Eq, Structural)]
pub enum LineType {
    Context,
    Added,
    Removed,
    Header,
    Info,
}

/// One line of the preview with its gutter numbers.
#[derive(Debug, Clone)]
pub struct DiffLine {
    pub text: String,
    pub line_type: LineType,
    pub left_num: Option<usize>,
    pub right_num: Option<usize>,
}

/// A line of the preview with its text as a sequence of characters.
pub struct DiffLineView {
    pub text: Seq<char>,
    pub line_type: LineType,
    pub left_num: Option<usize>,
    pub right_num: Option<usize>,
}

impl View for DiffLine {
    type V = DiffLineView;

    open spec fn view(&self) -> DiffLineView {
        DiffLineView {
            text: self.text@,
            line_type: self.line_type,
            left_num: self.left_num,
            right_num: self.right_num,
        }
    }
}

/// The lines of a diff, or the binary notice in their place.
pub open spec fn spec_diff_or_notice(content: Seq<char>) -> Seq<DiffLineView> {
    if spec_is_binary(content) {
        seq![binary_notice()]
    } else {
        spec_parse_diff(content)
    }
}

/// The lines of a file, or the binary notice in their place.
pub open spec fn spec_file_or_notice(content: Seq<char>) -> Seq<DiffLineView> {
    if spec_is_binary(content) {
        seq![binary_notice()]
    } else {
        spec_parse_file_content(content)
    }
}

/// The lines that a content is shown as.
pub open spec fn spec_parse_content(content: PreviewContentView) -> Seq<DiffLineView> {
    match content {
        PreviewContentView::Empty => Seq::empty(),
        PreviewContentView::FileDiff { content, .. } => spec_diff_or_notice(content),
        PreviewContentView::FolderDiff { content, .. } => spec_diff_or_notice(content),
        PreviewContentView::FileContent { content, .. } => spec_file_or_notice(content),
        PreviewContentView::CommitSummary { commit, pr } => spec_commit_summary(commit, pr),
    }
}

/// The title of the pane for a content.
pub open spec fn spec_title(content: PreviewContentView) -> Seq<char> {
    match content {
        PreviewContentView::Empty => "Preview"@,
        PreviewContentView::FileDiff { path, .. } => path,
        PreviewContentView::FolderDiff { path, .. } => path + "/"@,
        PreviewContentView::FileContent { path, .. } => path,
        PreviewContentView::CommitSummary { .. } => "Commit & PR Summary"@,
    }
}

/// The keys that move the cursor of a pane.
pub open spec fn spec_is_navigation(key: Key) -> bool {
    ||| key == Key::Char('j')
    ||| key == Key::Char('k')
    ||| key == Key::Char('J')
    ||| key == Key::Char('K')
    ||| key == Key::Char('g')
    ||| key == Key::Char('G')
}

/// The gutter number of a line: the right one, or else the left one.
pub open spec fn spec_line_number(line: DiffLineView) -> Option<usize> {
    match line.right_num {
        Some(n) => Some(n),
        None => line.left_num,
    }
}

fn binary_lines() -> (out: Vec<DiffLine>)
    ensures
        views(out@) == seq![binary_notice()],
{
    let mut out: Vec<DiffLine> = Vec::new();
    out.push(plain_line(String::from_str("Binary file"), LineType::Info));
    out
}

/// Turns a content into the lines it is shown as.
pub fn content_lines(content: &PreviewContent) -> (out: Vec<DiffLine>)
    ensures
        views(out@) == spec_parse_content(content@),
{
    match content {
        PreviewContent::Empty => {
            let out: Vec<DiffLine> = Vec::new();
            out
        },
        PreviewContent::FileDiff { content, .. } | PreviewContent::FolderDiff { content, .. } => {
            if is_binary(content.as_str()) {
                binary_lines()
            } else {
                parse_diff(content.as_str())
            }
        },
        PreviewContent::FileContent { content, .. } => {
            if is_binary(content.as_str()) {
                binary_lines()
            } else {
                parse_file_content(content.as_str())
            }
        },
        PreviewContent::CommitSummary { commit, pr } => parse_commit_summary(commit, pr.as_ref()),
    }
}

/// Diff view widget state
#[derive(Debug)]
pub struct DiffViewState {
    pub content: PreviewContent,
    pub lines: Vec<DiffLine>,
    pub cursor: usize,
    pub offset: usize,
}

/// The state of the preview pane as mathematical values.
pub struct DiffViewModel {
    pub content: PreviewContentView,
    pub lines: Seq<DiffLineView>,
    pub cursor: nat,
    pub offset: nat,
}

impl View for DiffViewState {
    type V = DiffViewModel;

    open spec fn view(&self) -> DiffViewModel {
        DiffViewModel {
            content: self.content@,
            lines: views(self.lines@),
            cursor: self.cursor as nat,
            offset: self.offset as nat,
        }
    }
}

impl DiffViewModel {
    /// The lines are those of the content, and the cursor is on one of them, or at zero.
    pub open spec fn wf(self) -> bool {
        &&& self.lines == spec_parse_content(self.content)
        &&& self.cursor <= last_index(self.lines.len())
    }

    /// The cursor moved to `cursor`, all else unchanged.
    pub open spec fn with_cursor(self, cursor: nat) -> DiffViewModel {
        DiffViewModel { cursor, ..self }
    }

    /// The offset moved to `offset`, all else unchanged.
    pub open spec fn with_offset(self, offset: nat) -> DiffViewModel {
        DiffViewModel { offset, ..self }
    }

    /// The model after a key: `j`/`k` move the cursor by one line, `J`/`K` by five, `g`
    /// goes to the top and `G` to the last line; any other key changes nothing.
    pub open spec fn after_key(self, key: Key) -> DiffViewModel {
        if key == Key::Char('j') {
            self.with_cursor(spec_step_down(self.cursor, 1, self.lines.len()))
        } else if key == Key::Char('k') {
            self.with_cursor(spec_step_up(self.cursor, 1))
        } else if key == Key::Char('J') {
            self.with_cursor(spec_step_down(self.cursor, FAST_STEP as nat, self.lines.len()))
        } else if key == Key::Char('K') {
            self.with_cursor(spec_step_up(self.cursor, FAST_STEP as nat))
        } else if key == Key::Char('g') {
            self.with_cursor(0).with_offset(0)
        } else if key == Key::Char('G') {
            self.with_cursor(last_index(self.lines.len()))
        } else {
            self
        }
    }

    /// The model that shows `content` from its first line.
    pub open spec fn showing(content: PreviewContentView) -> DiffViewModel {
        DiffViewModel { content, lines: spec_parse_content(content), cursor: 0, offset: 0 }
    }
}

impl Default for DiffViewState {
    fn default() -> (s: Self)
        ensures
            s@ == DiffViewModel::showing(PreviewContentView::Empty),
    {
        DiffViewState::new()
    }
}

impl DiffViewState {
    pub open spec fn wf(&self) -> bool {
        self@.wf()
    }

    pub fn new() -> (s: Self)
        ensures
            s@ == DiffViewModel::showing(PreviewContentView::Empty),
            s.wf(),
    {
        let s = DiffViewState {
            content: PreviewContent::Empty,
            lines: Vec::new(),
            cursor: 0,
            offset: 0,
        };
        assert(views(s.lines@) =~= Seq::<DiffLineView>::empty());
        s
    }

    /// Replaces what is shown, and goes back to its first line.
    pub fn set_content(&mut self, content: PreviewContent)
        ensures
            final(self)@ == DiffViewModel::showing(content@),
            final(self).wf(),
            content@ matches PreviewContentView::FileDiff { content: raw, .. } && spec_is_binary(raw)
                ==> final(self)@.lines == seq![binary_notice()],
            content@ matches PreviewContentView::FolderDiff { content: raw, .. } && spec_is_binary(
                raw,
            ) ==> final(self)@.lines == seq![binary_notice()],
            content@ matches PreviewContentView::FileContent { content: raw, .. } && spec_is_binary(
                raw,
            ) ==> final(self)@.lines == seq![binary_notice()],
    {
        self.content = content;
        self.cursor = 0;
        self.offset = 0;
        self.parse_content();
    }

    /// Rebuilds the lines from the content.
    pub fn parse_content(&mut self)
        ensures
            final(self)@ == (DiffViewModel {
                lines: spec_parse_content(old(self)@.content),
                ..old(self)@
            }),
    {
        self.lines = content_lines(&self.content);
    }

    pub fn title(&self) -> (t: String)
        ensures
            t@ == spec_title(self@.content),
    {
        match &self.content {
            PreviewContent::Empty => String::from_str("Preview"),
            PreviewContent::FileDiff { path, .. } => path.clone(),
            PreviewContent::FolderDiff { path, .. } => {
                let mut t = path.clone();
                t.append("/");
                t
            },
            PreviewContent::FileContent { path, .. } => path.clone(),
            PreviewContent::CommitSummary { .. } => String::from_str("Commit & PR Summary"),
        }
    }

    pub fn move_down(&mut self)
        ensures
            final(self)@ == old(self)@.with_cursor(
                spec_step_down(old(self)@.cursor, 1, old(self)@.lines.len()),
            ),
            old(self).wf() ==> final(self).wf(),
    {
        self.move_down_n(1);
    }

    pub fn move_up(&mut self)
        ensures
            final(self)@ == old(self)@.with_cursor(spec_step_up(old(self)@.cursor, 1)),
            old(self).wf() ==> final(self).wf(),
    {
        self.move_up_n(1);
    }

    pub fn move_down_n(&mut self, n: usize)
        ensures
            final(self)@ == old(self)@.with_cursor(
                spec_step_down(old(self)@.cursor, n as nat, old(self)@.lines.len()),
            ),
            old(self).wf() ==> final(self).wf(),
    {
        self.cursor = step_down(self.cursor, n, self.lines.len());
    }

    pub fn move_up_n(&mut self, n: usize)
        ensures
            final(self)@ == old(self)@.with_cursor(spec_step_up(old(self)@.cursor, n as nat)),
            old(self).wf() ==> final(self).wf(),
    {
        self.cursor = step_up(self.cursor, n);
    }

    /// Half a page down.
    pub fn page_down(&mut self, height: usize)
        ensures
            final(self)@ == old(self)@.with_cursor(
                spec_step_down(old(self)@.cursor, (height / 2) as nat, old(self)@.lines.len()),
            ),
            old(self).wf() ==> final(self).wf(),
    {
        self.move_down_n(height / 2);
    }

    /// Half a page up.
    pub fn page_up(&mut self, height: usize)
        ensures
            final(self)@ == old(self)@.with_cursor(
                spec_step_up(old(self)@.cursor, (height / 2) as nat),
            ),
            old(self).wf() ==> final(self).wf(),
    {
        self.move_up_n(height / 2);
    }

    pub fn go_top(&mut self)
        ensures
            final(self)@ == old(self)@.with_cursor(0).with_offset(0),
            old(self).wf() ==> final(self).wf(),
    {
        self.cursor = 0;
        self.offset = 0;
    }

    pub fn go_bottom(&mut self)
        ensures
            final(self)@ == old(self)@.with_cursor(last_index(old(self)@.lines.len())),
            old(self).wf() ==> final(self).wf(),
    {
        self.cursor = if self.lines.len() == 0 {
            0
        } else {
            self.lines.len() - 1
        };
    }

    /// Scrolls by the least amount that brings the cursor into a pane of the given height.
    pub fn ensure_visible(&mut self, height: usize)
        requires
            old(self).cursor < usize::MAX || height > RESERVED_ROWS,
        ensures
            final(self)@ == old(self)@.with_offset(
                spec_scroll_to(old(self)@.cursor, old(self)@.offset, visible_rows(height)),
            ),
            old(self).wf() ==> final(self).wf(),
            height > RESERVED_ROWS ==> final(self).offset <= final(self).cursor < final(self).offset
                + visible_rows(height),
            height > RESERVED_ROWS ==> spec_scroll_to(
                final(self)@.cursor,
                final(self)@.offset,
                visible_rows(height),
            ) == final(self)@.offset,
            old(self).offset == 0 && old(self).cursor < visible_rows(height) ==> final(self).offset
                == 0,
    {
        self.offset = scroll_to(self.cursor, self.offset, height);
    }

    /// The scroll indicator for a pane of the given height; empty when every line fits.
    pub fn scroll_percent(&self, height: usize) -> (s: String)
        ensures
            s@ == spec_scroll_label(self@.offset, self@.lines.len(), visible_rows(height)),
            self@.lines.len() <= visible_rows(height) ==> s@.len() == 0,
    {
        scroll_label(self.offset, self.lines.len(), height)
    }

    /// Moves the cursor for a navigation key and reports the key as handled; leaves any
    /// other key to the application.
    pub fn handle_key(&mut self, key: &Key) -> (action: Action)
        ensures
            final(self)@ == old(self)@.after_key(*key),
            old(self).wf() ==> final(self).wf(),
            action is Handled <==> spec_is_navigation(*key),
            action is Ignored <==> !spec_is_navigation(*key),
    {
        if KeyInput::is_down(key) {
            self.move_down();
        } else if KeyInput::is_up(key) {
            self.move_up();
        } else if KeyInput::is_fast_down(key) {
            self.move_down_n(FAST_STEP);
        } else if KeyInput::is_fast_up(key) {
            self.move_up_n(FAST_STEP);
        } else if KeyInput::is_top(key) {
            self.go_top();
        } else if KeyInput::is_bottom(key) {
            self.go_bottom();
        } else {
            return Action::Ignored;
        }
        Action::Handled
    }

    /// The gutter number of the line under the cursor.
    pub fn get_current_line_number(&self) -> (n: Option<usize>)
        ensures
            n == if self@.cursor < self@.lines.len() {
                spec_line_number(self@.lines[self@.cursor as int])
            } else {
                None
            },
    {
        if self.cursor < self.lines.len() {
            let line = &self.lines[self.cursor];
            match line.right_num {
                Some(n) => Some(n),
                None => line.left_num,
            }
        } else {
            None
        }
    }
}

/// Diff view widget
#[derive(Debug, Clone, Copy)]
pub struct DiffView {
    pub focused: bool,
}

impl DiffView {
    pub fn new() -> (v: Self)
        ensures
            !v.focused,
    {
        DiffView { focused: false }
    }

    pub fn focused(self, focused: bool) -> (v: Self)
        ensures
            v.focused == focused,
    {
        DiffView { focused }
    }
}

} // verus!
