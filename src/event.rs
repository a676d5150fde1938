use vstd::prelude::*;

verus! {

/// The logical identity of a key, as far as the editor cares.
#[derive(Clone, Copy, Debug, PartialEq, Eq, Structural)]
pub enum Key {
    Backspace,
    Enter,
    ArrowLeft,
    ArrowRight,
    Other,
}

/// One input event: a piece of text to insert, or a key transition.
#[derive(Debug)]
pub enum Event {
    InsertText(String),
    Key { key: Key, pressed: bool },
}

impl Event {
    /// A text-insertion event carrying `s`.
    pub fn text(s: &str) -> (e: Event)
        ensures
            e is InsertText,
            e->InsertText_0@ == s@,
    {
        Event::InsertText(s.to_owned())
    }

    /// A key-press event.
    pub fn press(key: Key) -> (e: Event)
        ensures
            e == (Event::Key { key, pressed: true }),
    {
        Event::Key { key, pressed: true }
    }

    /// A key-release event.
    pub fn release(key: Key) -> (e: Event)
        ensures
            e == (Event::Key { key, pressed: false }),
    {
        Event::Key { key, pressed: false }
    }
}

} // verus!
