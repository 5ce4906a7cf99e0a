//! The help overlay: a scrollable page of key bindings.

use vstd::prelude::*;
use crate::event::{Key, KeyInput, FAST_STEP};
use crate::ui::layout::{bordered_inner, spec_bordered_inner, Area};

verus! {

/// Help modal state
#[derive(Debug)]
pub struct HelpModalState {
    pub scroll: usize,
    /// How many lines the help page has, as last told by `set_content_height`.
    pub content_height: usize,
}

impl Default for HelpModalState {
    fn default() -> (s: Self)
        ensures
            s.scroll == 0,
            s.content_height == 0,
    {
        HelpModalState::new()
    }
}

/// `a + b`, stopping at the largest machine word.
pub open spec fn spec_saturating_add(a: usize, b: usize) -> usize {
    if a + b > usize::MAX {
        usize::MAX
    } else {
        (a + b) as usize
    }
}

/// `a - b`, stopping at zero.
pub open spec fn spec_saturating_sub(a: usize, b: usize) -> usize {
    if a >= b {
        (a - b) as usize
    } else {
        0
    }
}

impl HelpModalState {
    /// The scroll position after a key: `j`/`k` move by one line, `J`/`K` by five, `g`
    /// goes to the first line and `G` to the last; any other key changes nothing.
    pub open spec fn spec_scroll_after(scroll: usize, content_height: usize, key: Key) -> usize {
        if key == Key::Char('j') {
            spec_saturating_add(scroll, 1)
        } else if key == Key::Char('k') {
            spec_saturating_sub(scroll, 1)
        } else if key == Key::Char('J') {
            spec_saturating_add(scroll, FAST_STEP)
        } else if key == Key::Char('K') {
            spec_saturating_sub(scroll, FAST_STEP)
        } else if key == Key::Char('g') {
            0
        } else if key == Key::Char('G') {
            spec_saturating_sub(content_height, 1)
        } else {
            scroll
        }
    }

    pub fn new() -> (s: Self)
        ensures
            s.scroll == 0,
            s.content_height == 0,
    {
        HelpModalState { scroll: 0, content_height: 0 }
    }

    pub fn handle_key(&mut self, key: &Key)
        ensures
            final(self).scroll == Self::spec_scroll_after(
                old(self).scroll,
                old(self).content_height,
                *key,
            ),
            final(self).content_height == old(self).content_height,
    {
        if KeyInput::is_down(key) {
            self.scroll_down(1);
        } else if KeyInput::is_up(key) {
            self.scroll_up(1);
        } else if KeyInput::is_fast_down(key) {
            self.scroll_down(FAST_STEP);
        } else if KeyInput::is_fast_up(key) {
            self.scroll_up(FAST_STEP);
        } else if KeyInput::is_top(key) {
            self.scroll = 0;
        } else if KeyInput::is_bottom(key) {
            self.scroll = self.content_height.saturating_sub(1);
        }
    }

    pub fn scroll_down(&mut self, n: usize)
        ensures
            final(self).scroll == spec_saturating_add(old(self).scroll, n),
            final(self).content_height == old(self).content_height,
    {
        self.scroll = self.scroll.saturating_add(n);
    }

    pub fn scroll_up(&mut self, n: usize)
        ensures
            final(self).scroll == spec_saturating_sub(old(self).scroll, n),
            final(self).content_height == old(self).content_height,
    {
        self.scroll = self.scroll.saturating_sub(n);
    }

    pub fn set_content_height(&mut self, height: usize)
        ensures
            final(self).content_height == height,
            final(self).scroll == old(self).scroll,
    {
        self.content_height = height;
    }
}

/// Help modal widget
#[derive(Debug, Clone, Copy)]
pub struct HelpModal;

/// Where the help page is drawn and from which line on.
#[derive(Debug, Clone, Copy, PartialEq, Eq, Structural)]
pub struct HelpFrame {
    /// The area inside the border.
    pub inner: Area,
    /// The first line of the page that is drawn.
    pub scroll: usize,
}

impl HelpModal {
    pub fn new() -> (m: Self) {
        HelpModal
    }

    /// The scroll position that keeps a page of `content_height` lines from scrolling
    /// past its end in a window of `rows` rows.
    pub open spec fn spec_clamped(scroll: usize, content_height: usize, rows: u16) -> usize {
        if scroll > spec_saturating_sub(content_height, rows as usize) {
            spec_saturating_sub(content_height, rows as usize)
        } else {
            scroll
        }
    }

    /// Lays out the help page of `content_height` lines in an area: records the height
    /// and pulls the scroll position back so that the page does not scroll past its end.
    pub fn render(&self, area: Area, state: &mut HelpModalState, content_height: usize) -> (frame:
        HelpFrame)
        ensures
            frame.inner == spec_bordered_inner(area),
            frame.scroll == Self::spec_clamped(old(state).scroll, content_height, frame.inner.height),
            final(state).scroll == frame.scroll,
            final(state).content_height == content_height,
            frame.scroll + frame.inner.height <= content_height || frame.scroll == 0,
    {
        let inner = bordered_inner(area);
        state.set_content_height(content_height);
        let max_scroll = content_height.saturating_sub(inner.height as usize);
        if state.scroll > max_scroll {
            state.scroll = max_scroll;
        }
        HelpFrame { inner, scroll: state.scroll }
    }
}

} // verus!
