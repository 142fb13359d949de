//! The list selector view: an ordered list of entries with one selected
//! index. Up and Down move the selection by one, clamped at the ends (no
//! wraparound); the confirm key opens an alert dialog for the selected
//! entry; a quit key completes the view.

use vstd::prelude::*;
use vstd::string::StringExecFns;
use crate::alert::AlertDialog;
use crate::event::{Event, Key, is_confirm_event, is_quit_event};

verus! {

/// Mathematical model of a selector: the entries, the selected index and
/// the number of frames drawn so far.
#[verifier::ext_equal]
pub struct ListModel {
    pub groups: Seq<Seq<char>>,
    pub selected: int,
    pub frame: int,
}

/// A selector over a list of named groups.
pub struct GroupList {
    pub groups: Vec<String>,
    pub selected: usize,
    pub frame_count: u64,
}

impl View for GroupList {
    type V = ListModel;

    open spec fn view(&self) -> ListModel {
        ListModel {
            groups: self.groups@.map_values(|s: String| s@),
            selected: self.selected as int,
            frame: self.frame_count as int,
        }
    }
}

/// A selection is in bounds when it is non-negative, below the length when
/// the list is non-empty, and zero when the list is empty.
pub open spec fn sel_in_bounds(sel: int, len: int) -> bool {
    &&& 0 <= sel
    &&& len == 0 ==> sel == 0
    &&& len > 0 ==> sel < len
}

/// The selected index after one key press on a list of length `len`:
/// Up moves toward zero with a floor of zero, Down moves toward the end
/// with a ceiling of `len - 1` (a no-op on an empty list), and every other
/// key leaves the selection unchanged.
pub open spec fn sel_after_key(sel: int, len: int, k: Key) -> int {
    match k {
        Key::Up => if sel > 0 { sel - 1 } else { sel },
        Key::Down => if len > 0 {
            if sel + 1 < len { sel + 1 } else { len - 1 }
        } else {
            sel
        },
        _ => sel,
    }
}

/// The selected index after one event: only key input moves it.
pub open spec fn sel_after_event(sel: int, len: int, e: Event) -> int {
    match e {
        Event::Input(k) => sel_after_key(sel, len, k),
        _ => sel,
    }
}

/// The selected index after a whole sequence of events, applied in order.
pub open spec fn sel_after_events(sel: int, len: int, evs: Seq<Event>) -> int
    decreases evs.len(),
{
    if evs.len() == 0 {
        sel
    } else {
        sel_after_event(sel_after_events(sel, len, evs.drop_last()), len, evs.last())
    }
}

/// Along any sequence of events, the selection of a list of length `len`
/// stays in bounds: it never goes below zero, it never exceeds `len - 1`,
/// and on an empty list it stays at zero, so navigation there is a no-op.
pub proof fn lemma_selection_stays_in_bounds(sel: int, len: int, evs: Seq<Event>)
    requires
        sel_in_bounds(sel, len),
    ensures
        sel_in_bounds(sel_after_events(sel, len, evs), len),
    decreases evs.len(),
{
    if evs.len() > 0 {
        lemma_selection_stays_in_bounds(sel, len, evs.drop_last());
    }
}

/// The text of the alert opened for a selected entry.
pub open spec fn alert_text_model(item: Seq<char>) -> Seq<char> {
    "You selected:\n'"@ + item + "'"@
}

/// What the selector's update asks of the runtime: keep going, complete the
/// view, or open an alert dialog as a nested run.
pub enum ListUpdate {
    Continue,
    Done,
    Open(AlertDialog),
}

/// What a selector draw hands to the terminal: the frame counter shown in
/// the title, the entries, and the highlighted index.
pub struct ListContent {
    pub frame: u64,
    pub items: Vec<String>,
    pub selected: usize,
}

/// Model of a selector draw.
#[verifier::ext_equal]
pub struct ListContentModel {
    pub frame: int,
    pub items: Seq<Seq<char>>,
    pub selected: int,
}

impl View for ListContent {
    type V = ListContentModel;

    open spec fn view(&self) -> ListContentModel {
        ListContentModel {
            frame: self.frame as int,
            items: self.items@.map_values(|s: String| s@),
            selected: self.selected as int,
        }
    }
}

/// The frame counter after one draw: it advances by one until it saturates
/// at the width of its field.
pub open spec fn next_frame(n: int) -> int {
    if n < u64::MAX { n + 1 } else { n }
}

impl GroupList {
    /// The selection is within the entries (and zero when there are none).
    pub open spec fn wf(self) -> bool {
        sel_in_bounds(self.selected as int, self.groups@.len() as int)
    }

    /// The default selector: eight numbered entries, the first selected.
    pub fn new() -> (s: Self)
        ensures
            s.wf(),
            s@.selected == 0,
            s@.frame == 0,
            s@.groups.len() == 8,
            s@.groups[0] == "Entry 1"@,
            s@.groups[1] == "Entry 2"@,
            s@.groups[2] == "Entry 3"@,
            s@.groups[3] == "Entry 4"@,
            s@.groups[4] == "Entry 5"@,
            s@.groups[5] == "Entry 6"@,
            s@.groups[6] == "Entry 7"@,
            s@.groups[7] == "Entry 8"@,
    {
        let mut groups: Vec<String> = Vec::new();
        groups.push(String::from_str("Entry 1"));
        groups.push(String::from_str("Entry 2"));
        groups.push(String::from_str("Entry 3"));
        groups.push(String::from_str("Entry 4"));
        groups.push(String::from_str("Entry 5"));
        groups.push(String::from_str("Entry 6"));
        groups.push(String::from_str("Entry 7"));
        groups.push(String::from_str("Entry 8"));
        Self::with_groups(groups)
    }

    /// A selector over the given entries, the first selected (index zero,
    /// which is in bounds even for an empty list), no frame drawn yet.
    pub fn with_groups(groups: Vec<String>) -> (s: Self)
        ensures
            s.wf(),
            s.groups == groups,
            s@.selected == 0,
            s@.frame == 0,
    {
        Self { groups, selected: 0, frame_count: 0 }
    }

    /// Consume one event. The selection moves as `sel_after_event` says and
    /// the entries never change. The result says `Done` exactly on a quit
    /// key; it opens an alert exactly on the confirm key over a non-empty
    /// list, and that alert shows the selected entry, scrolled to the top.
    pub fn update(&mut self, event: Event) -> (r: ListUpdate)
        requires
            old(self).wf(),
        ensures
            final(self).wf(),
            final(self)@.groups == old(self)@.groups,
            final(self)@.frame == old(self)@.frame,
            final(self)@.selected == sel_after_event(
                old(self)@.selected,
                old(self)@.groups.len() as int,
                event,
            ),
            (r is Done) == is_quit_event(event),
            (r is Open) == (is_confirm_event(event) && old(self)@.groups.len() > 0),
            r matches ListUpdate::Open(a) ==> a@.text == alert_text_model(
                old(self)@.groups[old(self)@.selected],
            ) && a@.offset == 0,
    {
        match event {
            Event::Input(key) => match key {
                Key::Up => {
                    if self.selected > 0 {
                        self.selected = self.selected - 1;
                    }
                    ListUpdate::Continue
                },
                Key::Down => {
                    if self.groups.len() > 0 {
                        if self.selected + 1 < self.groups.len() {
                            self.selected = self.selected + 1;
                        } else {
                            self.selected = self.groups.len() - 1;
                        }
                    }
                    ListUpdate::Continue
                },
                Key::Esc => ListUpdate::Done,
                Key::Char(c) => {
                    if c == '\n' {
                        if self.selected < self.groups.len() {
                            let item = &self.groups[self.selected];
                            let mut text = String::from_str("You selected:\n'");
                            text.append(item.as_str());
                            text.append("'");
                            ListUpdate::Open(AlertDialog::new(text))
                        } else {
                            ListUpdate::Continue
                        }
                    } else if c == 'q' {
                        ListUpdate::Done
                    } else {
                        ListUpdate::Continue
                    }
                },
                Key::Other => ListUpdate::Continue,
            },
            _ => ListUpdate::Continue,
        }
    }

    /// Describe what a draw of this selector shows: the current frame
    /// counter in the title, every entry, and the highlighted index. The
    /// draw advances the frame counter and changes nothing else.
    pub fn render(&mut self) -> (c: ListContent)
        ensures
            c@.frame == old(self)@.frame,
            c@.items == old(self)@.groups,
            c@.selected == old(self)@.selected,
            final(self).groups == old(self).groups,
            final(self).selected == old(self).selected,
            final(self)@.frame == next_frame(old(self)@.frame),
    {
        let mut items: Vec<String> = Vec::new();
        let n = self.groups.len();
        let mut i: usize = 0;
        while i < n
            invariant
                n == self.groups@.len(),
                i <= n,
                items@.len() == i as int,
                forall|j: int| 0 <= j < i as int ==> items@[j] == self.groups@[j],
            decreases n - i,
        {
            items.push(self.groups[i].clone());
            i = i + 1;
        }
        proof {
            assert(items@ =~= self.groups@);
        }
        let content = ListContent { frame: self.frame_count, items, selected: self.selected };
        self.frame_count = self.frame_count.saturating_add(1);
        content
    }
}

} // verus!
