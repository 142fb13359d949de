//! The alert dialog view: a text shown modally with a vertical scroll
//! offset. Up scrolls toward the top with a floor of zero; Down scrolls
//! away with no logical ceiling (the offset saturates only at the width of
//! its field); a quit or confirm key completes the dialog.

use vstd::prelude::*;
use crate::event::{Event, Key, is_confirm_key, is_quit_key};

verus! {

/// Mathematical model of an alert dialog: its text and scroll offset.
#[verifier::ext_equal]
pub struct AlertModel {
    pub text: Seq<char>,
    pub offset: int,
}

/// A modal dialog that shows a text and lets the user scroll it.
pub struct AlertDialog {
    pub text: String,
    pub offset: u16,
}

impl View for AlertDialog {
    type V = AlertModel;

    open spec fn view(&self) -> AlertModel {
        AlertModel { text: self.text@, offset: self.offset as int }
    }
}

/// The scroll offset after one key press: Up moves toward the top, clamped
/// at zero; Down moves away, saturating at the width of the field; every
/// other key leaves the offset unchanged.
pub open spec fn offset_after_key(off: int, k: Key) -> int {
    match k {
        Key::Up => if off > 0 { off - 1 } else { off },
        Key::Down => if off < u16::MAX { off + 1 } else { off },
        _ => off,
    }
}

/// The scroll offset after one event: only key input moves it.
pub open spec fn offset_after_event(off: int, e: Event) -> int {
    match e {
        Event::Input(k) => offset_after_key(off, k),
        _ => off,
    }
}

/// The alert model after one event: the text never changes.
pub open spec fn alert_after_event(a: AlertModel, e: Event) -> AlertModel {
    AlertModel { text: a.text, offset: offset_after_event(a.offset, e) }
}

/// An event that completes the dialog: a quit key or the confirm key.
pub open spec fn completes_alert(e: Event) -> bool {
    e matches Event::Input(k) && (is_quit_key(k) || is_confirm_key(k))
}

/// What an alert draw hands to the terminal: the text and the scroll offset.
pub struct AlertContent {
    pub text: String,
    pub scroll: u16,
}

impl View for AlertContent {
    type V = AlertModel;

    open spec fn view(&self) -> AlertModel {
        AlertModel { text: self.text@, offset: self.scroll as int }
    }
}

impl AlertDialog {
    /// A fresh dialog showing `text`, scrolled to the top.
    pub fn new(text: String) -> (a: Self)
        ensures
            a@ == (AlertModel { text: text@, offset: 0 }),
    {
        Self { text, offset: 0 }
    }

    /// Consume one event: a quit or confirm key completes the dialog, Up and
    /// Down move the scroll offset as `offset_after_event` says, and nothing
    /// else (the text in particular) changes.
    pub fn update(&mut self, event: Event) -> (done: bool)
        ensures
            final(self)@ == alert_after_event(old(self)@, event),
            done == completes_alert(event),
    {
        match event {
            Event::Input(key) => match key {
                Key::Esc => true,
                Key::Char(c) => {
                    if c == 'q' || c == '\n' {
                        true
                    } else {
                        false
                    }
                },
                Key::Up => {
                    if self.offset > 0 {
                        self.offset = self.offset - 1;
                    }
                    false
                },
                Key::Down => {
                    if self.offset < u16::MAX {
                        self.offset = self.offset + 1;
                    }
                    false
                },
                Key::Other => false,
            },
            _ => false,
        }
    }

    /// Describe what a draw of this dialog shows. Rendering reads the state
    /// and changes nothing.
    pub fn render(&self) -> (c: AlertContent)
        ensures
            c@ == self@,
    {
        AlertContent { text: self.text.clone(), scroll: self.offset }
    }
}

} // verus!
