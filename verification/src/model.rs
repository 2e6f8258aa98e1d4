//! The registry as a mathematical state machine.
//!
//! [`RegistryView`] is the state; its spec functions say what each report
//! does to it and which line, if any, the report owes the output stream.
//! The proof functions at the end state what holds of every step.

use vstd::prelude::*;
use crate::event::{reports_activated, EventView, WindowId};
use crate::handle::WindowView;
use crate::output::OutputView;

verus! {

/// The mathematical content of a window registry.
#[verifier::ext_equal]
pub struct RegistryView {
    /// The live windows, keyed by identity.
    pub windows: Map<WindowId, WindowView>,
    /// The window that holds the focus, if any.
    pub active_identity: Option<WindowId>,
    /// The focus as the transition detector last saw it.
    pub last_emitted_active: Option<WindowId>,
}

impl RegistryView {
    /// The registry before any report: no window, no focus.
    pub open spec fn empty() -> RegistryView {
        RegistryView { windows: Map::empty(), active_identity: None, last_emitted_active: None }
    }

    /// Whether a window with this identity is live.
    pub open spec fn is_live(self, identity: WindowId) -> bool {
        self.windows.contains_key(identity)
    }

    /// The number of live windows.
    pub open spec fn count(self) -> nat {
        self.windows.len()
    }

    /// The focus, when there is one, names a live window whose last state
    /// report carried the activated flag.
    pub open spec fn active_is_live_and_activated(self) -> bool {
        match self.active_identity {
            Some(identity) => self.is_live(identity) && self.windows[identity].is_activated,
            None => true,
        }
    }

    /// The invariant of the registry: finitely many windows, each stored
    /// under its own identity, and a focus that never dangles.
    pub open spec fn wf(self) -> bool {
        &&& self.windows.dom().finite()
        &&& forall|identity: WindowId| #[trigger]
            self.windows.contains_key(identity) ==> self.windows[identity].identity == identity
        &&& self.active_is_live_and_activated()
    }

    /// Whether the transition detector has seen the present focus.
    pub open spec fn settled(self) -> bool {
        self.last_emitted_active == self.active_identity
    }

    /// A window appears. A live identity reported again is left as it is.
    pub open spec fn create(self, identity: WindowId) -> RegistryView {
        if self.is_live(identity) {
            self
        } else {
            RegistryView {
                windows: self.windows.insert(identity, WindowView::fresh(identity)),
                ..self
            }
        }
    }

    /// A window disappears, and with it the focus if it held it.
    pub open spec fn destroy(self, identity: WindowId) -> RegistryView {
        RegistryView {
            windows: self.windows.remove(identity),
            active_identity: if self.active_identity == Some(identity) {
                None
            } else {
                self.active_identity
            },
            ..self
        }
    }

    /// The session ends: no window is left, and no focus.
    pub open spec fn reset(self) -> RegistryView {
        RegistryView { windows: Map::empty(), active_identity: None, ..self }
    }

    /// A live window takes a new title; an unknown identity changes nothing.
    pub open spec fn set_title(self, identity: WindowId, title: Seq<char>) -> RegistryView {
        if self.is_live(identity) {
            RegistryView {
                windows: self.windows.insert(
                    identity,
                    WindowView { title, ..self.windows[identity] },
                ),
                ..self
            }
        } else {
            self
        }
    }

    /// A live window reports its state set. An activated window takes the
    /// focus, whoever held it; a window that is no longer activated gives the
    /// focus up if it held it. An unknown identity changes nothing.
    pub open spec fn report_state(self, identity: WindowId, states: Seq<u8>) -> RegistryView {
        if self.is_live(identity) {
            let activated = reports_activated(states);
            RegistryView {
                windows: self.windows.insert(
                    identity,
                    WindowView { is_activated: activated, ..self.windows[identity] },
                ),
                active_identity: if activated {
                    Some(identity)
                } else if self.active_identity == Some(identity) {
                    None
                } else {
                    self.active_identity
                },
                ..self
            }
        } else {
            self
        }
    }

    /// The title owed when a burst of changes to `identity` ends: that of the
    /// window itself if it holds the focus, none otherwise.
    pub open spec fn title_owed(self, identity: WindowId) -> Option<Seq<char>> {
        if self.active_identity == Some(identity) && self.is_live(identity) {
            Some(self.windows[identity].title)
        } else {
            None
        }
    }

    /// The effect of one report on the windows and the focus, and the title
    /// it owes the output stream.
    pub open spec fn reduce(self, event: EventView) -> (RegistryView, Option<Seq<char>>) {
        match event {
            EventView::WindowCreated(identity) => (self.create(identity), None),
            EventView::ManagerFinished => (self.reset(), None),
            EventView::TitleChanged(identity, title) => (self.set_title(identity, title), None),
            EventView::StateChanged(identity, states) => (
                self.report_state(identity, states),
                None,
            ),
            EventView::BatchDone(identity) => (self, self.title_owed(identity)),
            EventView::WindowClosed(identity) => (self.destroy(identity), None),
        }
    }

    /// Whether an empty line is owed: the focus was on a window when the
    /// transition detector last looked, and is on none now.
    pub open spec fn blank_owed(self) -> bool {
        self.last_emitted_active is Some && self.active_identity is None
    }

    /// The registry once the transition detector has looked at the focus.
    pub open spec fn settle(self) -> RegistryView {
        RegistryView { last_emitted_active: self.active_identity, ..self }
    }

    /// One full step: the report is reduced, then the transition detector runs.
    /// The step owes at most one line.
    pub open spec fn step(self, event: EventView) -> (RegistryView, Option<OutputView>) {
        let (reduced, title) = self.reduce(event);
        let output = match title {
            Some(text) => Some(OutputView::Title(text)),
            None => if reduced.blank_owed() {
                Some(OutputView::Blank)
            } else {
                None
            },
        };
        (reduced.settle(), output)
    }
}

/// The registry before any report satisfies the invariant, holds no window
/// and owes nothing.
pub proof fn empty_is_wf()
    ensures
        RegistryView::empty().wf(),
        RegistryView::empty().settled(),
        RegistryView::empty().count() == 0,
{
}

/// Reducing a report keeps the invariant: afterwards the focus is on no
/// window or on a live window that is activated.
pub proof fn reduce_preserves_wf(state: RegistryView, event: EventView)
    requires
        state.wf(),
    ensures
        state.reduce(event).0.wf(),
        state.reduce(event).0.active_is_live_and_activated(),
{
}

/// A full step keeps the invariant and leaves the transition detector
/// settled.
pub proof fn step_preserves_wf(state: RegistryView, event: EventView)
    requires
        state.wf(),
    ensures
        state.step(event).0.wf(),
        state.step(event).0.active_is_live_and_activated(),
        state.step(event).0.settled(),
{
    reduce_preserves_wf(state, event);
}

/// Creating a window that is not live adds one to the count; the new window
/// has no title and is not activated, and the focus stays where it was.
pub proof fn create_adds_one(state: RegistryView, identity: WindowId)
    requires
        state.wf(),
        !state.is_live(identity),
    ensures
        state.create(identity).count() == state.count() + 1,
        state.create(identity).is_live(identity),
        state.create(identity).windows[identity] == WindowView::fresh(identity),
        state.create(identity).active_identity == state.active_identity,
{
}

/// Destroying a live window takes one from the count; destroying an unknown
/// identity changes nothing. Either way the identity is not live afterwards.
pub proof fn destroy_takes_one(state: RegistryView, identity: WindowId)
    requires
        state.wf(),
    ensures
        state.is_live(identity) ==> state.destroy(identity).count() == state.count() - 1,
        !state.is_live(identity) ==> state.destroy(identity) == state,
        !state.destroy(identity).is_live(identity),
{
    if !state.is_live(identity) {
        assert(state.windows.remove(identity) =~= state.windows);
    }
}

/// A report about an identity that is not live, other than its creation,
/// changes nothing and owes no title.
pub proof fn unknown_identity_is_ignored(state: RegistryView, event: EventView)
    requires
        state.wf(),
        match event {
            EventView::TitleChanged(identity, _) => !state.is_live(identity),
            EventView::StateChanged(identity, _) => !state.is_live(identity),
            EventView::BatchDone(identity) => !state.is_live(identity),
            EventView::WindowClosed(identity) => !state.is_live(identity),
            _ => false,
        },
    ensures
        state.reduce(event) == (state, None::<Seq<char>>),
{
    if let EventView::WindowClosed(identity) = event {
        destroy_takes_one(state, identity);
    }
}

/// A report about one window leaves every other window as it was, so the
/// bursts of different windows may interleave freely.
pub proof fn report_touches_only_its_window(
    state: RegistryView,
    event: EventView,
    bystander: WindowId,
)
    requires
        match event {
            EventView::WindowCreated(identity) => identity != bystander,
            EventView::ManagerFinished => false,
            EventView::TitleChanged(identity, _) => identity != bystander,
            EventView::StateChanged(identity, _) => identity != bystander,
            EventView::BatchDone(identity) => identity != bystander,
            EventView::WindowClosed(identity) => identity != bystander,
        },
    ensures
        state.reduce(event).0.is_live(bystander) == state.is_live(bystander),
        state.is_live(bystander) ==> state.reduce(event).0.windows[bystander]
            == state.windows[bystander],
{
}

/// A title is owed only by the report that ends a burst of changes: neither
/// the reducer nor a full step owes one for any other report.
pub proof fn title_only_follows_batch_done(state: RegistryView, event: EventView)
    ensures
        state.reduce(event).1 is Some ==> event is BatchDone,
        state.step(event).1 matches Some(OutputView::Title(_)) ==> event is BatchDone,
{
}

/// A title change prints nothing: it owes no title, leaves the focus where
/// it was, and its step owes no line unless an empty line was owed already.
pub proof fn title_change_is_silent(state: RegistryView, identity: WindowId, title: Seq<char>)
    ensures
        state.reduce(EventView::TitleChanged(identity, title)).1 is None,
        state.reduce(EventView::TitleChanged(identity, title)).0.active_identity
            == state.active_identity,
        !state.blank_owed() ==> state.step(EventView::TitleChanged(identity, title)).1 is None,
{
}

/// A state change prints no title: the reducer owes nothing for it, and the
/// only line its step can owe is the empty line for a loss of focus.
pub proof fn state_change_prints_no_title(
    state: RegistryView,
    identity: WindowId,
    states: Seq<u8>,
)
    ensures
        state.reduce(EventView::StateChanged(identity, states)).1 is None,
        state.step(EventView::StateChanged(identity, states)).1 is None || state.step(
            EventView::StateChanged(identity, states),
        ).1 == Some(OutputView::Blank),
{
}

/// The end of a burst changes nothing; it owes the focused window's title
/// when the burst was the focused window's, and nothing otherwise.
pub proof fn batch_done_prints_focused_title(state: RegistryView, identity: WindowId)
    requires
        state.wf(),
    ensures
        state.reduce(EventView::BatchDone(identity)).0 == state,
        state.active_identity == Some(identity) ==> state.reduce(
            EventView::BatchDone(identity),
        ).1 == Some(state.windows[identity].title),
        state.active_identity != Some(identity) ==> state.reduce(
            EventView::BatchDone(identity),
        ).1 is None,
{
}

/// The title printed at the end of a burst is the one most recently set: a
/// title change to the focused window followed by the end of its burst owes
/// exactly the new title.
pub proof fn latest_title_is_printed(state: RegistryView, identity: WindowId, title: Seq<char>)
    requires
        state.wf(),
        state.active_identity == Some(identity),
    ensures
        state.step(EventView::TitleChanged(identity, title)).0.step(
            EventView::BatchDone(identity),
        ).1 == Some(OutputView::Title(title)),
{
}

/// When two windows report the activated flag one after the other, the later
/// report wins the focus; the earlier window keeps its flag but not the focus.
pub proof fn later_activation_wins(
    state: RegistryView,
    earlier: WindowId,
    later: WindowId,
    earlier_states: Seq<u8>,
    later_states: Seq<u8>,
)
    requires
        state.wf(),
        state.is_live(earlier),
        state.is_live(later),
        earlier != later,
        reports_activated(earlier_states),
        reports_activated(later_states),
    ensures
        ({
            let both = state.report_state(earlier, earlier_states).report_state(
                later,
                later_states,
            );
            &&& both.active_identity == Some(later)
            &&& both.windows[earlier].is_activated
            &&& both.windows[later].is_activated
        }),
{
}

/// A report that owes a title owes no empty line: the window whose title is
/// owed holds the focus.
pub proof fn title_excludes_blank(state: RegistryView, event: EventView)
    requires
        state.reduce(event).1 is Some,
    ensures
        !state.reduce(event).0.blank_owed(),
        state.reduce(event).0.active_identity is Some,
{
}

/// A settled registry owes no empty line.
pub proof fn settled_owes_no_blank(state: RegistryView)
    requires
        state.settled(),
    ensures
        !state.blank_owed(),
{
}

/// A step owes an empty line exactly when the focus was on a window when the
/// transition detector last looked and is on none after the report. The
/// detector then records that no window is focused. From a settled registry
/// this is exactly a passage of the focus from some window to none.
pub proof fn blank_marks_loss_of_focus(state: RegistryView, event: EventView)
    ensures
        state.step(event).1 == Some(OutputView::Blank) <==> state.last_emitted_active is Some
            && state.reduce(event).0.active_identity is None,
        state.step(event).1 == Some(OutputView::Blank) ==> state.step(event).0.active_identity
            is None && state.step(event).0.last_emitted_active is None,
        state.settled() ==> (state.step(event).1 == Some(OutputView::Blank)
            <==> state.active_identity is Some && state.step(event).0.active_identity is None),
{
}

/// A step that leaves the focus on a window owes no empty line: the focus
/// may pass from one window to another without one.
pub proof fn focus_change_owes_no_blank(state: RegistryView, event: EventView)
    requires
        state.step(event).0.active_identity is Some,
    ensures
        state.step(event).1 != Some(OutputView::Blank),
{
}

/// Once a step has left the focus on no window, the next step owes no empty
/// line, whatever it reports: a loss of focus is announced once, and not
/// again before a window has taken the focus anew.
pub proof fn no_second_blank_without_focus(
    state: RegistryView,
    first: EventView,
    second: EventView,
)
    requires
        state.step(first).0.active_identity is None,
    ensures
        state.step(first).0.step(second).1 != Some(OutputView::Blank),
{
}

/// The end of the session leaves no window and no focus, whatever came
/// before. Its step owes an empty line if a window was focused when the
/// transition detector last looked, and nothing otherwise.
pub proof fn finished_clears_everything(state: RegistryView)
    ensures
        state.step(EventView::ManagerFinished).0.count() == 0,
        state.step(EventView::ManagerFinished).0.windows == Map::<WindowId, WindowView>::empty(),
        state.step(EventView::ManagerFinished).0.active_identity is None,
        state.step(EventView::ManagerFinished).0.wf(),
        state.step(EventView::ManagerFinished).1 == if state.last_emitted_active is Some {
            Some(OutputView::Blank)
        } else {
            None
        },
{
}

/// Closing the focused window clears the focus and owes exactly one empty
/// line: the step that closes it owes the line, and the step after it owes
/// none, whatever it reports.
pub proof fn closing_active_emits_one_blank(
    state: RegistryView,
    identity: WindowId,
    next: EventView,
)
    requires
        state.wf(),
        state.settled(),
        state.active_identity == Some(identity),
    ensures
        state.step(EventView::WindowClosed(identity)).0.active_identity is None,
        !state.step(EventView::WindowClosed(identity)).0.is_live(identity),
        state.step(EventView::WindowClosed(identity)).0.count() == state.count() - 1,
        state.step(EventView::WindowClosed(identity)).1 == Some(OutputView::Blank),
        state.step(EventView::WindowClosed(identity)).0.step(next).1 != Some(OutputView::Blank),
{
    destroy_takes_one(state, identity);
}

/// Closing a window that does not hold the focus leaves the focus alone and
/// owes no line.
pub proof fn closing_other_keeps_focus(state: RegistryView, identity: WindowId)
    requires
        state.settled(),
        state.active_identity != Some(identity),
    ensures
        state.step(EventView::WindowClosed(identity)).0.active_identity == state.active_identity,
        state.step(EventView::WindowClosed(identity)).1 is None,
{
}

} // verus!
