//! What the preview pane draws, as plain values: the frame with its title, and either a
//! message or the rows of the window that starts at the offset.

use vstd::prelude::*;
use crate::text::{
    decimal, expand_tabs, pad_left, spec_decimal, spec_expand_tabs, spec_pad_left,
};
use crate::ui::layout::{bordered_inner, spec_bordered_inner, Area};
use crate::ui::widgets::viewport::{spec_scroll_label, spec_scroll_to, visible_rows};
use super::{
    spec_line_number, spec_title, DiffLine, DiffLineView, DiffView, DiffViewModel, DiffViewState,
    LineType, PreviewContent, PreviewContentView,
};

verus! {

/// Width of the field that holds the line number.
pub const GUTTER_WIDTH: usize = 4;

/// One drawn row: a gutter, then the text of the line.
#[derive(Debug, Clone)]
pub struct DiffRow {
    /// The screen row.
    pub y: u16,
    pub gutter: String,
    pub text: String,
    pub line_type: LineType,
    /// Whether the row is drawn in reverse, as the line under the cursor of a focused pane.
    pub highlighted: bool,
}

/// A drawn row with its texts as sequences of characters.
pub struct DiffRowView {
    pub y: u16,
    pub gutter: Seq<char>,
    pub text: Seq<char>,
    pub line_type: LineType,
    pub highlighted: bool,
}

impl View for DiffRow {
    type V = DiffRowView;

    open spec fn view(&self) -> DiffRowView {
        DiffRowView {
            y: self.y,
            gutter: self.gutter@,
            text: self.text@,
            line_type: self.line_type,
            highlighted: self.highlighted,
        }
    }
}

/// What the preview pane draws into an area.
#[derive(Debug, Clone)]
pub struct DiffFrame {
    /// Whether the border is drawn as that of the focused pane.
    pub focused: bool,
    pub title: String,
    /// The area inside the border.
    pub inner: Area,
    /// Shown on the first inner row when there are no lines.
    pub message: Option<String>,
    pub rows: Vec<DiffRow>,
}

/// A frame with its texts as sequences of characters.
pub struct DiffFrameView {
    pub focused: bool,
    pub title: Seq<char>,
    pub inner: Area,
    pub message: Option<Seq<char>>,
    pub rows: Seq<DiffRowView>,
}

impl View for DiffFrame {
    type V = DiffFrameView;

    open spec fn view(&self) -> DiffFrameView {
        DiffFrameView {
            focused: self.focused,
            title: self.title@,
            inner: self.inner,
            message: match self.message {
                Some(m) => Some(m@),
                None => None,
            },
            rows: self.rows@.map_values(|r: DiffRow| r@),
        }
    }
}

/// The gutter of a row: the line number right-aligned, or spaces, then a bar.
pub open spec fn spec_gutter(number: Option<usize>) -> Seq<char> {
    spec_pad_left(
        match number {
            Some(n) => spec_decimal(n as nat),
            None => Seq::empty(),
        },
        GUTTER_WIDTH as nat,
    ) + " \u{2502} "@
}

/// The row drawn for a line.
pub open spec fn spec_row(line: DiffLineView, y: u16, highlighted: bool) -> DiffRowView {
    DiffRowView {
        y,
        gutter: spec_gutter(spec_line_number(line)),
        text: spec_expand_tabs(line.text),
        line_type: line.line_type,
        highlighted,
    }
}

/// The title of the frame: that of the content, followed by the scroll indicator if the
/// lines do not fit a pane of the given height.
pub open spec fn spec_frame_title(model: DiffViewModel, height: usize) -> Seq<char> {
    let label = spec_scroll_label(model.offset, model.lines.len(), visible_rows(height));
    if label.len() == 0 {
        spec_title(model.content)
    } else {
        spec_title(model.content) + " \u{2500}\u{2500}\u{2500} "@ + label
    }
}

/// What is shown in place of the lines when there are none.
pub open spec fn spec_empty_message(content: PreviewContentView) -> Seq<char> {
    if content is Empty {
        "Select a file to view"@
    } else {
        "No content"@
    }
}

/// How many lines are drawn: those from the offset on, as far as the rows reach.
pub open spec fn spec_row_count(model: DiffViewModel, rows: u16) -> nat {
    if model.offset >= model.lines.len() {
        0
    } else if model.lines.len() - model.offset < rows {
        (model.lines.len() - model.offset) as nat
    } else {
        rows as nat
    }
}

/// The rows drawn for a model into the inner area: row `i` shows line `offset + i`.
pub open spec fn spec_rows(model: DiffViewModel, inner: Area, focused: bool) -> Seq<DiffRowView> {
    Seq::new(
        spec_row_count(model, inner.height),
        |i: int|
            spec_row(
                model.lines[model.offset + i],
                (inner.y + i) as u16,
                focused && model.offset + i == model.cursor,
            ),
    )
}

/// The model after drawing into an area: with lines to show, the offset follows the cursor
/// within the inner height; without, nothing changes.
pub open spec fn spec_after_render(model: DiffViewModel, area: Area) -> DiffViewModel {
    if model.lines.len() == 0 {
        model
    } else {
        model.with_offset(
            spec_scroll_to(
                model.cursor,
                model.offset,
                visible_rows(spec_bordered_inner(area).height as usize),
            ),
        )
    }
}

/// The frame drawn for a model into an area.
pub open spec fn spec_render(model: DiffViewModel, area: Area, focused: bool) -> DiffFrameView {
    let inner = spec_bordered_inner(area);
    DiffFrameView {
        focused,
        title: spec_frame_title(model, area.height as usize),
        inner,
        message: if model.lines.len() == 0 {
            Some(spec_empty_message(model.content))
        } else {
            None
        },
        rows: if model.lines.len() == 0 {
            Seq::empty()
        } else {
            spec_rows(spec_after_render(model, area), inner, focused)
        },
    }
}

fn gutter(number: Option<usize>) -> (s: String)
    ensures
        s@ == spec_gutter(number),
{
    let digits = match number {
        Some(n) => decimal(n as u128),
        None => String::new(),
    };
    let mut s = pad_left(digits.as_str(), GUTTER_WIDTH);
    s.append(" \u{2502} ");
    s
}

/// Lays out one line as a row.
pub fn render_diff_line(line: &DiffLine, y: u16, highlighted: bool) -> (row: DiffRow)
    ensures
        row@ == spec_row(line@, y, highlighted),
{
    let number = match line.right_num {
        Some(n) => Some(n),
        None => line.left_num,
    };
    DiffRow {
        y,
        gutter: gutter(number),
        text: expand_tabs(line.text.as_str()),
        line_type: line.line_type,
        highlighted,
    }
}

impl DiffView {
    /// Lays out the pane in an area, scrolling the state so that the cursor is drawn.
    pub fn render(&self, area: Area, state: &mut DiffViewState) -> (frame: DiffFrame)
        requires
            area.on_screen(),
            old(state).cursor < usize::MAX,
        ensures
            frame@ == spec_render(old(state)@, area, self.focused),
            final(state)@ == spec_after_render(old(state)@, area),
            old(state).wf() ==> final(state).wf(),
    {
        let label = state.scroll_percent(area.height as usize);
        let mut title = state.title();
        if !label.as_str().is_empty() {
            title.append(" \u{2500}\u{2500}\u{2500} ");
            title.append(label.as_str());
        }
        let inner = bordered_inner(area);
        if state.lines.len() == 0 {
            let message = match &state.content {
                PreviewContent::Empty => String::from_str("Select a file to view"),
                _ => String::from_str("No content"),
            };
            let frame = DiffFrame {
                focused: self.focused,
                title,
                inner,
                message: Some(message),
                rows: Vec::new(),
            };
            assert(frame@.rows =~= Seq::<DiffRowView>::empty());
            return frame;
        }
        state.ensure_visible(inner.height as usize);
        let ghost model = state@;
        let count: usize = if state.offset >= state.lines.len() {
            0
        } else if state.lines.len() - state.offset < inner.height as usize {
            state.lines.len() - state.offset
        } else {
            inner.height as usize
        };
        let total = state.lines.len();
        let mut rows: Vec<DiffRow> = Vec::new();
        let mut i: usize = 0;
        while i < count
            invariant
                i <= count <= inner.height,
                count == spec_row_count(model, inner.height),
                model == state@,
                total == state.lines@.len(),
                count > 0 ==> state.offset + count <= total,
                inner.y + inner.height <= u16::MAX,
                rows@.len() == i,
                forall|k: int|
                    0 <= k < i ==> (#[trigger] rows@[k])@ == spec_row(
                        model.lines[model.offset + k],
                        (inner.y + k) as u16,
                        self.focused && model.offset + k == model.cursor,
                    ),
            decreases count - i,
        {
            let idx = state.offset + i;
            let highlighted = self.focused && idx == state.cursor;
            let row = render_diff_line(&state.lines[idx], inner.y + i as u16, highlighted);
            rows.push(row);
            i += 1;
        }
        let frame = DiffFrame { focused: self.focused, title, inner, message: None, rows };
        assert(frame@.rows =~= spec_rows(model, inner, self.focused));
        frame
    }
}

} // verus!
