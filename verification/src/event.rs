//! Window and input events, as far as the frame loop reads them.

use vstd::prelude::*;

verus! {

/// A key of the keyboard.
#[derive(Clone, Copy, Debug, PartialEq, Eq, Structural)]
pub enum Key {
    /// The space bar.
    Space,
    /// The escape key.
    Escape,
    /// Any other key, with the key code the windowing system gives it. The
    /// controller never reads the code.
    Other(i32),
}

/// What happened to a key.
#[derive(Clone, Copy, Debug, PartialEq, Eq, Structural)]
pub enum Action {
    /// The key was released.
    Release,
    /// The key was pressed.
    Press,
    /// The key was held down until it repeated.
    Repeat,
}

/// One event drained from the window's queue.
#[derive(Clone, Copy, Debug, PartialEq, Eq, Structural)]
pub enum Event {
    /// The user asked to close the window.
    Close,
    /// A key changed state. `modifiers` is the bit set of modifier keys held
    /// at that moment; the controller never reads it.
    Key { key: Key, action: Action, modifiers: i32 },
    /// Anything else: resizing, focus, mouse and text input.
    Other,
}

impl Event {
    /// The event asks the loop to end: a close request, or the escape key
    /// released, whatever the modifiers.
    pub open spec fn is_quit(self) -> bool {
        self is Close || (self matches Event::Key { key, action, .. } && key == Key::Escape
            && action == Action::Release)
    }

    /// The event asks for the other demo mode: the space bar released,
    /// whatever the modifiers.
    pub open spec fn is_toggle(self) -> bool {
        self matches Event::Key { key, action, .. } && key == Key::Space && action
            == Action::Release
    }
}

/// No event asks for both the end of the loop and a toggle.
pub proof fn lemma_quit_excludes_toggle(event: Event)
    ensures
        !(event.is_quit() && event.is_toggle()),
{
}

} // verus!
