//! The event model: the tagged union that flows from the producers through
//! the bounded channel into the runtime, and the key presses it carries.

use vstd::prelude::*;

verus! {

/// A decoded key press. Only the keys the views react to are distinguished;
/// every other terminal input decodes to `Other`.
#[derive(Clone, Copy, PartialEq, Eq, Structural, Debug)]
pub enum Key {
    Up,
    Down,
    Char(char),
    Esc,
    Other,
}

/// One element of the merged event stream: a decoded input event, a periodic
/// timer tick, or the sentinel that says the stream is permanently closed.
#[derive(Clone, Copy, PartialEq, Eq, Structural, Debug)]
pub enum Event {
    Input(Key),
    Tick,
    Exit,
}

/// The key that confirms (opens a detail view, or closes a dialog).
pub open spec fn is_confirm_key(k: Key) -> bool {
    k == Key::Char('\n')
}

/// A key that asks the current view to complete.
pub open spec fn is_quit_key(k: Key) -> bool {
    k == Key::Esc || k == Key::Char('q')
}

/// An event that carries the confirm key.
pub open spec fn is_confirm_event(e: Event) -> bool {
    e matches Event::Input(k) && is_confirm_key(k)
}

/// An event that carries a quit key.
pub open spec fn is_quit_event(e: Event) -> bool {
    e matches Event::Input(k) && is_quit_key(k)
}

} // verus!
