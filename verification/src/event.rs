//! The reports that drive the registry.

use vstd::prelude::*;

verus! {

/// The token by which the compositor names one window while it exists.
pub type WindowId = u32;

/// Code of the state flag carried by the window that holds the input focus.
pub const ACTIVATED: u8 = 2;

/// One report from the compositor's window listing.
#[derive(Clone, Debug, PartialEq, Eq)]
pub enum Event {
    /// A top-level window has appeared under this identity.
    WindowCreated(WindowId),
    /// The listing session has ended; every window reported so far is gone.
    ManagerFinished,
    /// The window's title is now this text.
    TitleChanged(WindowId, String),
    /// The window's complete set of state flags, one code per element.
    StateChanged(WindowId, Vec<u8>),
    /// The current burst of changes to this window has been delivered in full.
    BatchDone(WindowId),
    /// The window has been destroyed.
    WindowClosed(WindowId),
}

/// The mathematical content of an [`Event`].
pub enum EventView {
    WindowCreated(WindowId),
    ManagerFinished,
    TitleChanged(WindowId, Seq<char>),
    StateChanged(WindowId, Seq<u8>),
    BatchDone(WindowId),
    WindowClosed(WindowId),
}

impl View for Event {
    type V = EventView;

    open spec fn view(&self) -> EventView {
        match *self {
            Event::WindowCreated(identity) => EventView::WindowCreated(identity),
            Event::ManagerFinished => EventView::ManagerFinished,
            Event::TitleChanged(identity, title) => EventView::TitleChanged(identity, title@),
            Event::StateChanged(identity, states) => EventView::StateChanged(identity, states@),
            Event::BatchDone(identity) => EventView::BatchDone(identity),
            Event::WindowClosed(identity) => EventView::WindowClosed(identity),
        }
    }
}

/// Whether a reported state set marks its window as focused: it does when the
/// [`ACTIVATED`] code occurs among its flags.
pub open spec fn reports_activated(states: Seq<u8>) -> bool {
    states.contains(ACTIVATED)
}

/// Scans a reported state set for the [`ACTIVATED`] flag.
pub fn has_activated_flag(states: &Vec<u8>) -> (found: bool)
    ensures
        found == reports_activated(states@),
{
    let mut i: usize = 0;
    while i < states.len()
        invariant
            i <= states.len(),
            forall|j: int| 0 <= j < i ==> states@[j] != ACTIVATED,
        decreases states.len() - i,
    {
        if states[i] == ACTIVATED {
            return true;
        }
        i += 1;
    }
    false
}

} // verus!
