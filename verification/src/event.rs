//! Keys and the events that the application loop hands on.

use vstd::prelude::*;

verus! {

/// A key press, reduced to what the bindings tell apart.
#[derive(Debug, Clone, Copy, PartialEq, Eq, Structural)]
pub enum Key {
    Char(char),
    Enter,
    Esc,
    Tab,
    Other,
}

/// How many rows a fast move covers.
pub const FAST_STEP: usize = 5;

/// The navigation bindings shared by all panes.
pub struct KeyInput;

impl KeyInput {
    pub open spec fn spec_is_char(key: Key, c: char) -> bool {
        key == Key::Char(c)
    }

    fn is_char(key: &Key, c: char) -> (b: bool)
        ensures
            b == Self::spec_is_char(*key, c),
    {
        match key {
            Key::Char(k) => *k == c,
            _ => false,
        }
    }

    /// `j` moves down.
    pub fn is_down(key: &Key) -> (b: bool)
        ensures
            b == (*key == Key::Char('j')),
    {
        Self::is_char(key, 'j')
    }

    /// `k` moves up.
    pub fn is_up(key: &Key) -> (b: bool)
        ensures
            b == (*key == Key::Char('k')),
    {
        Self::is_char(key, 'k')
    }

    /// `J` moves down fast.
    pub fn is_fast_down(key: &Key) -> (b: bool)
        ensures
            b == (*key == Key::Char('J')),
    {
        Self::is_char(key, 'J')
    }

    /// `K` moves up fast.
    pub fn is_fast_up(key: &Key) -> (b: bool)
        ensures
            b == (*key == Key::Char('K')),
    {
        Self::is_char(key, 'K')
    }

    /// `g` jumps to the top.
    pub fn is_top(key: &Key) -> (b: bool)
        ensures
            b == (*key == Key::Char('g')),
    {
        Self::is_char(key, 'g')
    }

    /// `G` jumps to the bottom.
    pub fn is_bottom(key: &Key) -> (b: bool)
        ensures
            b == (*key == Key::Char('G')),
    {
        Self::is_char(key, 'G')
    }
}

/// What the merged event stream delivers.
#[derive(Debug, Clone, Copy, PartialEq, Eq, Structural)]
pub enum AppEvent {
    Key(Key),
    Resize(u16, u16),
    Tick,
    FileChanged,
    PrLoaded,
}

} // verus!
