//! The events the application reacts to: keys, terminal resizes, and what
//! background work sends back.
use vstd::prelude::*;

use crate::state::{BackgroundEvent, BackgroundView};

verus! {

/// A key, as far as the screens tell keys apart.
#[derive(Debug, Clone, Copy, PartialEq, Eq)]
pub enum KeyCode {
    Char(char),
    Esc,
    BackTab,
    Backspace,
    Enter,
    Up,
    Down,
    /// Any other key.
    Other,
}

/// Whether a key went down, repeats, or came up.
#[derive(Debug, Clone, Copy, PartialEq, Eq)]
pub enum KeyKind {
    Press,
    Repeat,
    Release,
}

/// A key event.
#[derive(Debug, Clone, Copy, PartialEq, Eq)]
pub struct Key {
    pub code: KeyCode,
    /// Whether Control was held.
    pub ctrl: bool,
    pub kind: KeyKind,
}

impl Key {
    /// A press of `code` without modifiers.
    pub fn new(code: KeyCode) -> (r: Key)
        ensures
            r == (Key { code, ctrl: false, kind: KeyKind::Press }),
    {
        Key { code, ctrl: false, kind: KeyKind::Press }
    }

    /// A press of `code` with Control held.
    pub fn with_ctrl(code: KeyCode) -> (r: Key)
        ensures
            r == (Key { code, ctrl: true, kind: KeyKind::Press }),
    {
        Key { code, ctrl: true, kind: KeyKind::Press }
    }
}

/// An event of the application.
#[derive(Debug)]
pub enum Event {
    Key(Key),
    Resize(u16, u16),
    Background(BackgroundEvent),
}

/// An event as the screens read it.
pub enum EventView {
    Key(Key),
    Resize(u16, u16),
    Background(BackgroundView),
}

impl View for Event {
    type V = EventView;

    open spec fn view(&self) -> EventView {
        match self {
            Event::Key(k) => EventView::Key(*k),
            Event::Resize(w, h) => EventView::Resize(*w, *h),
            Event::Background(b) => EventView::Background(b@),
        }
    }
}

} // verus!
