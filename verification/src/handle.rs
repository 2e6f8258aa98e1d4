//! What is known of one top-level window.

use vstd::prelude::*;
use crate::event::WindowId;

verus! {

/// The observable state of one window, as last reported.
#[derive(Clone, Debug, PartialEq, Eq)]
pub struct WindowHandle {
    /// The token the compositor uses for this window while it exists.
    pub identity: WindowId,
    /// The title most recently reported; empty until the first report.
    pub title: String,
    /// Whether the most recent state report carried the activated flag.
    pub is_activated: bool,
}

/// The mathematical content of a [`WindowHandle`].
#[verifier::ext_equal]
pub struct WindowView {
    pub identity: WindowId,
    pub title: Seq<char>,
    pub is_activated: bool,
}

impl WindowView {
    /// A window of which nothing but its identity has been reported yet.
    pub open spec fn fresh(identity: WindowId) -> WindowView {
        WindowView { identity, title: Seq::empty(), is_activated: false }
    }
}

impl View for WindowHandle {
    type V = WindowView;

    open spec fn view(&self) -> WindowView {
        WindowView {
            identity: self.identity,
            title: self.title@,
            is_activated: self.is_activated,
        }
    }
}

impl WindowHandle {
    /// A handle for a window that has just been created: no title, not activated.
    pub fn new(identity: WindowId) -> (handle: WindowHandle)
        ensures
            handle@ == WindowView::fresh(identity),
    {
        WindowHandle { identity, title: String::new(), is_activated: false }
    }
}

} // verus!
