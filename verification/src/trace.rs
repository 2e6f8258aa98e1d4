//! Runs of reports: the registry after a whole sequence of them, the lines
//! the sequence owes, and what holds of every run.

use vstd::prelude::*;
use crate::event::{Event, EventView, WindowId};
use crate::model::RegistryView;
use crate::output::{Output, OutputView};

verus! {

/// The contents of a sequence of reports.
pub open spec fn event_views(events: Seq<Event>) -> Seq<EventView> {
    events.map_values(|event: Event| event@)
}

/// The contents of a sequence of lines.
pub open spec fn output_views(outputs: Seq<Output>) -> Seq<OutputView> {
    outputs.map_values(|output: Output| output@)
}

/// The registry after every report of `events` has been stepped through,
/// first to last, starting from `start`.
pub open spec fn state_after(start: RegistryView, events: Seq<EventView>) -> RegistryView
    decreases events.len(),
{
    if events.len() == 0 {
        start
    } else {
        state_after(start, events.drop_last()).step(events.last()).0
    }
}

/// The line owed by the report at position `i` of `events`, if any.
pub open spec fn output_at(start: RegistryView, events: Seq<EventView>, i: int) -> Option<
    OutputView,
>
    recommends
        0 <= i < events.len(),
{
    state_after(start, events.take(i)).step(events[i]).1
}

/// The lines owed by `events`, in the order in which they are owed.
pub open spec fn outputs_of(start: RegistryView, events: Seq<EventView>) -> Seq<OutputView>
    decreases events.len(),
{
    if events.len() == 0 {
        Seq::empty()
    } else {
        let earlier = outputs_of(start, events.drop_last());
        match output_at(start, events, events.len() - 1) {
            Some(output) => earlier.push(output),
            None => earlier,
        }
    }
}

/// The registry after a run that starts from a well-formed registry is
/// well-formed: its focus is on no window or on a live, activated one.
pub proof fn run_preserves_wf(start: RegistryView, events: Seq<EventView>)
    requires
        start.wf(),
    ensures
        state_after(start, events).wf(),
        state_after(start, events).active_is_live_and_activated(),
    decreases events.len(),
{
    if events.len() > 0 {
        run_preserves_wf(start, events.drop_last());
        crate::model::step_preserves_wf(state_after(start, events.drop_last()), events.last());
    }
}

/// For any finite sequence of reports, after each report is applied the
/// focus is on no window or on a live window whose last state report carried
/// the activated flag.
pub proof fn focus_never_dangles(start: RegistryView, events: Seq<EventView>)
    requires
        start.wf(),
    ensures
        forall|n: int|
            0 <= n <= events.len() ==> (#[trigger] state_after(
                start,
                events.take(n),
            )).active_is_live_and_activated(),
{
    assert forall|n: int| 0 <= n <= events.len() implies (#[trigger] state_after(
        start,
        events.take(n),
    )).active_is_live_and_activated() by {
        run_preserves_wf(start, events.take(n));
    }
}

/// The registry after the first `n + 1` reports is the registry after the
/// first `n`, stepped by report `n`.
pub proof fn state_after_unfolds(start: RegistryView, events: Seq<EventView>, n: int)
    requires
        0 <= n < events.len(),
    ensures
        state_after(start, events.take(n + 1)) == state_after(start, events.take(n)).step(
            events[n],
        ).0,
{
    let upto = events.take(n + 1);
    assert(upto.drop_last() =~= events.take(n));
    assert(upto.last() == events[n]);
}

/// A title is owed only by a report that ends a burst of changes; title and
/// state changes never owe one, however many of them arrive.
pub proof fn titles_only_at_batch_done(start: RegistryView, events: Seq<EventView>, i: int)
    requires
        0 <= i < events.len(),
        output_at(start, events, i) matches Some(OutputView::Title(_)),
    ensures
        events[i] is BatchDone,
{
    crate::model::title_only_follows_batch_done(state_after(start, events.take(i)), events[i]);
}

/// A run that starts from a settled registry ends in a settled registry.
pub proof fn run_stays_settled(start: RegistryView, events: Seq<EventView>)
    requires
        start.settled(),
    ensures
        state_after(start, events).settled(),
{
}

/// In a run from a settled registry a title change owes no line at all.
pub proof fn title_changes_are_silent(start: RegistryView, events: Seq<EventView>, i: int)
    requires
        start.settled(),
        0 <= i < events.len(),
        events[i] is TitleChanged,
    ensures
        output_at(start, events, i) is None,
{
    run_stays_settled(start, events.take(i));
}

/// In a run from a settled registry, closing the window that holds the focus
/// clears the focus and owes an empty line, and the report after it owes no
/// empty line.
pub proof fn closing_the_focused_window_owes_one_blank(
    start: RegistryView,
    events: Seq<EventView>,
    i: int,
    identity: WindowId,
)
    requires
        start.wf(),
        start.settled(),
        0 <= i < events.len(),
        events[i] == EventView::WindowClosed(identity),
        state_after(start, events.take(i)).active_identity == Some(identity),
    ensures
        output_at(start, events, i) == Some(OutputView::Blank),
        state_after(start, events.take(i + 1)).active_identity is None,
        !state_after(start, events.take(i + 1)).is_live(identity),
        i + 1 < events.len() ==> output_at(start, events, i + 1) != Some(OutputView::Blank),
{
    let before = state_after(start, events.take(i));
    run_stays_settled(start, events.take(i));
    run_preserves_wf(start, events.take(i));
    state_after_unfolds(start, events, i);
    crate::model::closing_active_emits_one_blank(before, identity, events[i + 1]);
}

/// Between two reports that each owe an empty line there is a report after
/// which a window holds the focus: the loss of focus is announced once, and
/// not again before some window has been focused anew.
pub proof fn blanks_are_separated_by_focus(
    start: RegistryView,
    events: Seq<EventView>,
    i: int,
    j: int,
)
    requires
        0 <= i < j < events.len(),
        output_at(start, events, i) == Some(OutputView::Blank),
        output_at(start, events, j) == Some(OutputView::Blank),
    ensures
        i < j - 1,
        state_after(start, events.take(j)).active_identity is Some,
        exists|k: int|
            i < k < j && (#[trigger] state_after(start, events.take(k + 1))).active_identity
                is Some,
{
    state_after_unfolds(start, events, i);
    state_after_unfolds(start, events, j - 1);
    let before_j = state_after(start, events.take(j));
    assert(before_j == state_after(start, events.take((j - 1) + 1)));
    assert(before_j.settled());
    assert(before_j.active_identity is Some);
    assert(state_after(start, events.take(i + 1)).active_identity is None);
    assert(i != j - 1);
}

} // verus!
