//! The executable registry of live windows and of the focus among them.

use std::collections::HashMap;
use vstd::prelude::*;
use crate::event::{has_activated_flag, Event, WindowId};
use crate::handle::{WindowHandle, WindowView};
use crate::model::RegistryView;
use crate::output::{output_view, text_view, Output};
use crate::trace::{event_views, output_views, outputs_of, state_after};

verus! {

broadcast use vstd::std_specs::hash::group_hash_axioms;

/// The live windows, the window that holds the focus, and the focus as the
/// transition detector last saw it.
///
/// Every registry satisfies [`RegistryView::wf`] at all times: the fields are
/// private, and each operation restores the invariant before it returns.
pub struct WindowRegistry {
    entries: HashMap<WindowId, WindowHandle>,
    active_identity: Option<WindowId>,
    last_emitted_active: Option<WindowId>,
}

/// The contents of the stored handles, key by key.
spec fn windows_of(entries: Map<WindowId, WindowHandle>) -> Map<WindowId, WindowView> {
    entries.map_values(|handle: WindowHandle| handle@)
}

impl View for WindowRegistry {
    type V = RegistryView;

    closed spec fn view(&self) -> RegistryView {
        RegistryView {
            windows: windows_of(self.entries@),
            active_identity: self.active_identity,
            last_emitted_active: self.last_emitted_active,
        }
    }
}

impl WindowRegistry {
    #[verifier::type_invariant]
    spec fn inv(self) -> bool {
        self@.wf()
    }

    /// A registry with no window and no focus.
    pub fn new() -> (registry: WindowRegistry)
        ensures
            registry@ == RegistryView::empty(),
            registry@.wf(),
    {
        let entries: HashMap<WindowId, WindowHandle> = HashMap::new();
        assert(windows_of(entries@) =~= Map::empty());
        WindowRegistry { entries, active_identity: None, last_emitted_active: None }
    }

    /// Moves the windows and the focus out, leaving an empty registry behind,
    /// so that they can be changed together before [`Self::put`] stores them.
    fn take(&mut self) -> (parts: (HashMap<WindowId, WindowHandle>, Option<WindowId>))
        ensures
            old(self)@.wf(),
            windows_of(parts.0@) == old(self)@.windows,
            parts.1 == old(self)@.active_identity,
            final(self)@ == old(self)@.reset(),
    {
        proof {
            use_type_invariant(&*self);
        }
        let active = self.active_identity;
        self.active_identity = None;
        let mut entries: HashMap<WindowId, WindowHandle> = HashMap::new();
        assert(windows_of(entries@) =~= Map::empty());
        std::mem::swap(&mut self.entries, &mut entries);
        (entries, active)
    }

    /// Stores windows and focus that satisfy the invariant together.
    fn put(&mut self, entries: HashMap<WindowId, WindowHandle>, active: Option<WindowId>)
        requires
            old(self)@.active_identity is None,
            (RegistryView {
                windows: windows_of(entries@),
                active_identity: active,
                last_emitted_active: old(self)@.last_emitted_active,
            }).wf(),
        ensures
            final(self)@ == (RegistryView {
                windows: windows_of(entries@),
                active_identity: active,
                last_emitted_active: old(self)@.last_emitted_active,
            }),
    {
        self.entries = entries;
        self.active_identity = active;
    }

    /// The number of live windows.
    pub fn count(&self) -> (n: usize)
        ensures
            n == self@.count(),
    {
        assert(self@.windows.dom() =~= self.entries@.dom());
        self.entries.len()
    }

    /// The window that holds the focus, if any. It is live, and its last
    /// state report carried the activated flag.
    pub fn active_identity(&self) -> (active: Option<WindowId>)
        ensures
            active == self@.active_identity,
            active matches Some(identity) ==> self@.is_live(identity)
                && self@.windows[identity].is_activated,
            self@.wf(),
    {
        proof {
            use_type_invariant(self);
        }
        self.active_identity
    }

    /// The focus as the transition detector last saw it.
    pub fn last_emitted_active(&self) -> (last: Option<WindowId>)
        ensures
            last == self@.last_emitted_active,
    {
        self.last_emitted_active
    }

    /// Whether a window with this identity is live.
    pub fn contains(&self, identity: WindowId) -> (live: bool)
        ensures
            live == self@.is_live(identity),
    {
        self.entries.contains_key(&identity)
    }

    /// The live window with this identity, if there is one.
    pub fn get(&self, identity: WindowId) -> (found: Option<&WindowHandle>)
        ensures
            match found {
                Some(handle) => self@.is_live(identity) && handle@ == self@.windows[identity]
                    && handle.identity == identity,
                None => !self@.is_live(identity),
            },
    {
        proof {
            use_type_invariant(self);
        }
        self.entries.get(&identity)
    }

    /// Enters a new window: no title, not activated. A live identity that is
    /// reported again is left as it is.
    pub fn create(&mut self, identity: WindowId)
        ensures
            final(self)@ == old(self)@.create(identity),
            final(self)@.wf(),
    {
        let (mut entries, active) = self.take();
        if !entries.contains_key(&identity) {
            entries.insert(identity, WindowHandle::new(identity));
        }
        assert(windows_of(entries@) =~= old(self)@.create(identity).windows);
        self.put(entries, active);
    }

    /// Removes a window, and the focus with it if it held it. An identity
    /// that is not live changes nothing.
    pub fn destroy(&mut self, identity: WindowId)
        ensures
            final(self)@ == old(self)@.destroy(identity),
            final(self)@.wf(),
    {
        let (mut entries, active) = self.take();
        entries.remove(&identity);
        let active = if active == Some(identity) {
            None
        } else {
            active
        };
        assert(windows_of(entries@) =~= old(self)@.destroy(identity).windows);
        self.put(entries, active);
    }

    /// Forgets every window and the focus.
    pub fn reset(&mut self)
        ensures
            final(self)@ == old(self)@.reset(),
            final(self)@.wf(),
    {
        let _ = self.take();
    }

    /// Replaces the title of a live window; an unknown identity changes nothing.
    pub fn set_title(&mut self, identity: WindowId, title: String)
        ensures
            final(self)@ == old(self)@.set_title(identity, title@),
            final(self)@.wf(),
    {
        let (mut entries, active) = self.take();
        match entries.remove(&identity) {
            Some(mut handle) => {
                handle.title = title;
                entries.insert(identity, handle);
            },
            None => {},
        }
        assert(windows_of(entries@) =~= old(self)@.set_title(identity, title@).windows);
        self.put(entries, active);
    }

    /// Records the state set of a live window and moves the focus: to this
    /// window if the set carries the activated flag, away from it if it held
    /// the focus and the flag is gone. An unknown identity changes nothing.
    pub fn report_state(&mut self, identity: WindowId, states: &Vec<u8>)
        ensures
            final(self)@ == old(self)@.report_state(identity, states@),
            final(self)@.wf(),
    {
        let (mut entries, active) = self.take();
        let mut focus = active;
        match entries.remove(&identity) {
            Some(mut handle) => {
                let is_now_active = has_activated_flag(states);
                handle.is_activated = is_now_active;
                entries.insert(identity, handle);
                if is_now_active {
                    focus = Some(identity);
                } else if active == Some(identity) {
                    focus = None;
                }
            },
            None => {},
        }
        assert(windows_of(entries@) =~= old(self)@.report_state(identity, states@).windows);
        self.put(entries, focus);
    }

    /// The title owed at the end of a burst of changes to `identity`: that of
    /// the window itself if it holds the focus, none otherwise.
    pub fn title_owed(&self, identity: WindowId) -> (title: Option<String>)
        ensures
            text_view(title) == self@.title_owed(identity),
    {
        if self.active_identity == Some(identity) {
            match self.entries.get(&identity) {
                Some(handle) => Some(handle.title.clone()),
                None => None,
            }
        } else {
            None
        }
    }

    /// Applies one report to the windows and the focus, and returns the title
    /// it owes the output stream. Only the end of a burst owes one.
    pub fn reduce(&mut self, event: &Event) -> (title: Option<String>)
        ensures
            (final(self)@, text_view(title)) == old(self)@.reduce(event@),
            final(self)@.wf(),
    {
        match event {
            Event::WindowCreated(identity) => {
                self.create(*identity);
                None
            },
            Event::ManagerFinished => {
                self.reset();
                None
            },
            Event::TitleChanged(identity, title) => {
                self.set_title(*identity, title.clone());
                None
            },
            Event::StateChanged(identity, states) => {
                self.report_state(*identity, states);
                None
            },
            Event::BatchDone(identity) => {
                proof {
                    use_type_invariant(&*self);
                }
                self.title_owed(*identity)
            },
            Event::WindowClosed(identity) => {
                self.destroy(*identity);
                None
            },
        }
    }

    /// Looks at the focus and says whether an empty line is owed: it is when
    /// the focus was on a window at the last look and is on none now.
    pub fn detect_transition(&mut self) -> (blank: bool)
        ensures
            blank == old(self)@.blank_owed(),
            final(self)@ == old(self)@.settle(),
            final(self)@.wf(),
    {
        proof {
            use_type_invariant(&*self);
        }
        let blank = self.last_emitted_active.is_some() && self.active_identity.is_none();
        self.last_emitted_active = self.active_identity;
        blank
    }

    /// One full step: reduces the report, runs the transition detector, and
    /// returns the line owed to the output stream, if any.
    pub fn apply(&mut self, event: &Event) -> (output: Option<Output>)
        ensures
            (final(self)@, output_view(output)) == old(self)@.step(event@),
            final(self)@.wf(),
            final(self)@.settled(),
    {
        let title = self.reduce(event);
        let blank = self.detect_transition();
        match title {
            Some(text) => Some(Output::Title(text)),
            None => if blank {
                Some(Output::Blank)
            } else {
                None
            },
        }
    }

    /// Steps through a batch of reports, first to last, and returns the lines
    /// they owe the output stream, in order.
    pub fn apply_all(&mut self, events: &Vec<Event>) -> (outputs: Vec<Output>)
        ensures
            final(self)@ == state_after(old(self)@, event_views(events@)),
            output_views(outputs@) == outputs_of(old(self)@, event_views(events@)),
            final(self)@.wf(),
    {
        let ghost start = self@;
        let ghost all = event_views(events@);
        let mut outputs: Vec<Output> = Vec::new();
        let mut i: usize = 0;
        assert(all.take(0) =~= Seq::empty());
        assert(output_views(outputs@) =~= Seq::empty());
        while i < events.len()
            invariant
                i <= events.len(),
                all == event_views(events@),
                self@ == state_after(start, all.take(i as int)),
                output_views(outputs@) == outputs_of(start, all.take(i as int)),
            decreases events.len() - i,
        {
            let ghost before = outputs@;
            let output = self.apply(&events[i]);
            proof {
                let upto = all.take(i + 1);
                assert(upto.drop_last() =~= all.take(i as int));
                assert(upto.last() == events@[i as int]@);
            }
            match output {
                Some(line) => {
                    outputs.push(line);
                    assert(output_views(outputs@) =~= output_views(before).push(line@));
                },
                None => {},
            }
            i += 1;
        }
        assert(all.take(i as int) =~= all);
        proof {
            use_type_invariant(&*self);
        }
        outputs
    }
}

} // verus!
