//! The view driver: a state machine over the selector and an optional modal
//! alert. One event is consumed per step, in arrival order, with no
//! coalescing. The `Exit` sentinel short-circuits every step, because it
//! says the event pipeline is permanently closed; while the alert is open
//! the selector is suspended (neither updated nor drawn) until the alert
//! completes: that synchronous detour is the nested run.

use vstd::prelude::*;
use crate::alert::{AlertContent, AlertDialog, AlertModel, alert_after_event, completes_alert};
use crate::event::{Event, is_confirm_event, is_quit_event};
use crate::selector::{
    GroupList, ListContent, ListContentModel, ListModel, ListUpdate, alert_text_model, next_frame,
    sel_after_event,
};

verus! {

/// Which view is active: the selector, or a modal alert over it.
pub enum Focus {
    List,
    Alert(AlertDialog),
}

/// Model of the focus.
pub enum FocusModel {
    List,
    Alert(AlertModel),
}

impl View for Focus {
    type V = FocusModel;

    open spec fn view(&self) -> FocusModel {
        match self {
            Focus::List => FocusModel::List,
            Focus::Alert(a) => FocusModel::Alert(a@),
        }
    }
}

/// The runtime state: the selector and the current focus.
pub struct Runtime {
    pub list: GroupList,
    pub focus: Focus,
}

/// Model of the runtime state.
#[verifier::ext_equal]
pub struct RuntimeModel {
    pub list: ListModel,
    pub focus: FocusModel,
}

impl View for Runtime {
    type V = RuntimeModel;

    open spec fn view(&self) -> RuntimeModel {
        RuntimeModel { list: self.list@, focus: self.focus@ }
    }
}

/// What one step of the driver asks of its caller: draw the active view and
/// keep looping, return to the caller because the view completed, or shut
/// the whole session down because the event pipeline is closed.
#[derive(Clone, Copy, PartialEq, Eq, Structural, Debug)]
pub enum Step {
    Redraw,
    Done,
    Exit,
}

/// What one draw of the runtime shows: the selector page or the alert page.
pub enum Content {
    List(ListContent),
    Alert(AlertContent),
}

/// Model of one draw.
#[verifier::ext_equal]
pub enum ContentModel {
    List(ListContentModel),
    Alert(AlertModel),
}

impl View for Content {
    type V = ContentModel;

    open spec fn view(&self) -> ContentModel {
        match self {
            Content::List(c) => ContentModel::List(c@),
            Content::Alert(c) => ContentModel::Alert(c@),
        }
    }
}

/// The selector model after one event: only the selection can move.
pub open spec fn list_after_event(m: ListModel, e: Event) -> ListModel {
    ListModel {
        groups: m.groups,
        selected: sel_after_event(m.selected, m.groups.len() as int, e),
        frame: m.frame,
    }
}

/// An event that opens the alert: the confirm key over a non-empty list.
pub open spec fn opens_alert(m: ListModel, e: Event) -> bool {
    is_confirm_event(e) && m.groups.len() > 0
}

/// The alert opened for the current selection: its text names the selected
/// entry, and it starts scrolled to the top.
pub open spec fn opened_alert(m: ListModel) -> AlertModel {
    AlertModel { text: alert_text_model(m.groups[m.selected]), offset: 0 }
}

/// The runtime state after one step. `Exit` changes nothing; otherwise the
/// event goes to the active view alone: the selector may move its selection
/// and open the alert, the alert may scroll or complete (which returns the
/// focus to the selector with the selector untouched).
pub open spec fn step_state(m: RuntimeModel, e: Event) -> RuntimeModel {
    if e is Exit {
        m
    } else {
        match m.focus {
            FocusModel::List => {
                let moved = list_after_event(m.list, e);
                if opens_alert(m.list, e) {
                    RuntimeModel { list: moved, focus: FocusModel::Alert(opened_alert(m.list)) }
                } else {
                    RuntimeModel { list: moved, focus: FocusModel::List }
                }
            },
            FocusModel::Alert(a) => {
                if completes_alert(e) {
                    RuntimeModel { list: m.list, focus: FocusModel::List }
                } else {
                    RuntimeModel { list: m.list, focus: FocusModel::Alert(alert_after_event(a, e)) }
                }
            },
        }
    }
}

/// What one step asks of the caller: `Exit` on the exit sentinel, `Done`
/// when the selector itself completes on a quit key, `Redraw` otherwise.
pub open spec fn step_outcome(m: RuntimeModel, e: Event) -> Step {
    if e is Exit {
        Step::Exit
    } else if m.focus is List && is_quit_event(e) {
        Step::Done
    } else {
        Step::Redraw
    }
}

/// What a draw shows: the active view's content, the selector suspended
/// behind an open alert.
pub open spec fn rendered_content(m: RuntimeModel) -> ContentModel {
    match m.focus {
        FocusModel::List => ContentModel::List(
            ListContentModel { frame: m.list.frame, items: m.list.groups, selected: m.list.selected },
        ),
        FocusModel::Alert(a) => ContentModel::Alert(a),
    }
}

/// The state after a draw: a selector draw advances its frame counter; an
/// alert draw changes nothing.
pub open spec fn after_render(m: RuntimeModel) -> RuntimeModel {
    match m.focus {
        FocusModel::List => RuntimeModel {
            list: ListModel {
                groups: m.list.groups,
                selected: m.list.selected,
                frame: next_frame(m.list.frame),
            },
            focus: m.focus,
        },
        FocusModel::Alert(_) => m,
    }
}

impl Runtime {
    /// The selection of the suspended or active selector is in bounds.
    pub open spec fn wf(self) -> bool {
        self.list.wf()
    }

    /// A driver over the given selector, with the selector in focus.
    pub fn new(list: GroupList) -> (rt: Self)
        ensures
            rt@ == (RuntimeModel { list: list@, focus: FocusModel::List }),
            list.wf() ==> rt.wf(),
    {
        Self { list, focus: Focus::List }
    }

    /// Decide at run time whether the selection invariant holds, for a
    /// caller outside the proof that must test it before stepping.
    pub fn selection_in_bounds(&self) -> (b: bool)
        ensures
            b == self.wf(),
    {
        let len = self.list.groups.len();
        if len == 0 {
            self.list.selected == 0
        } else {
            self.list.selected < len
        }
    }

    /// Drive the runtime by one event: the state moves as `step_state`
    /// says, and the caller is told what to do next by `step_outcome`.
    pub fn step(&mut self, event: Event) -> (r: Step)
        requires
            old(self).wf(),
        ensures
            final(self).wf(),
            final(self)@ == step_state(old(self)@, event),
            r == step_outcome(old(self)@, event),
    {
        match event {
            Event::Exit => Step::Exit,
            _ => match &mut self.focus {
                Focus::Alert(alert) => {
                    let done = alert.update(event);
                    if done {
                        self.focus = Focus::List;
                    }
                    Step::Redraw
                },
                Focus::List => {
                    let cmd = self.list.update(event);
                    match cmd {
                        ListUpdate::Done => Step::Done,
                        ListUpdate::Open(a) => {
                            self.focus = Focus::Alert(a);
                            Step::Redraw
                        },
                        ListUpdate::Continue => Step::Redraw,
                    }
                },
            },
        }
    }

    /// Draw the active view: the content is `rendered_content` of the state
    /// before the call, and only a selector draw moves the state (its frame
    /// counter), as `after_render` says.
    pub fn render(&mut self) -> (c: Content)
        ensures
            final(self).wf() == old(self).wf(),
            c@ == rendered_content(old(self)@),
            final(self)@ == after_render(old(self)@),
    {
        match &self.focus {
            Focus::Alert(a) => Content::Alert(a.render()),
            Focus::List => Content::List(self.list.render()),
        }
    }
}

/// The content a draw shows with the frame counter masked out, for saying
/// that redrawing is pure apart from that counter.
pub open spec fn content_frame_aside(c: ContentModel) -> ContentModel {
    match c {
        ContentModel::List(lc) => ContentModel::List(
            ListContentModel { frame: 0, items: lc.items, selected: lc.selected },
        ),
        ContentModel::Alert(a) => ContentModel::Alert(a),
    }
}

/// Rendering is a pure function of the view state: a redraw with no
/// intervening update shows identical content, the frame counter aside.
pub proof fn lemma_redraw_identical(m: RuntimeModel)
    ensures
        content_frame_aside(rendered_content(after_render(m))) == content_frame_aside(
            rendered_content(m),
        ),
{
}

/// Opening the alert as a nested run and completing it at once returns the
/// focus to the selector with the selector's state unchanged: the nested
/// run suspends the parent and gives it back exactly as it was.
pub proof fn lemma_nested_run_preserves_parent(m: RuntimeModel, open_e: Event, close_e: Event)
    requires
        m.focus is List,
        opens_alert(m.list, open_e),
        completes_alert(close_e),
    ensures
        step_state(m, open_e).focus == FocusModel::Alert(opened_alert(m.list)),
        step_state(step_state(m, open_e), close_e) == m,
{
    assert(list_after_event(m.list, open_e) =~= m.list);
    assert(step_state(step_state(m, open_e), close_e) =~= m);
}

} // verus!
