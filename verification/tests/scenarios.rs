//! Whole sessions, report by report, with the lines they owe.

use focus_tracker::{Event, Output, WindowRegistry, ACTIVATED};

const W1: u32 = 11;
const W2: u32 = 12;

fn activated() -> Vec<u8> {
    vec![ACTIVATED, 0, 0, 0]
}

fn lines(outputs: &[Output]) -> Vec<String> {
    outputs.iter().map(|output| output.line()).collect()
}

fn editor_session() -> Vec<Event> {
    vec![
        Event::WindowCreated(W1),
        Event::StateChanged(W1, activated()),
        Event::TitleChanged(W1, String::from("Editor")),
        Event::BatchDone(W1),
    ]
}

fn browser_session() -> Vec<Event> {
    vec![
        Event::WindowCreated(W2),
        Event::StateChanged(W2, activated()),
        Event::StateChanged(W1, Vec::new()),
        Event::TitleChanged(W2, String::from("Browser")),
        Event::BatchDone(W2),
    ]
}

#[test]
fn focused_window_prints_its_title_when_the_burst_ends() {
    let mut registry = WindowRegistry::new();
    let outputs = registry.apply_all(&editor_session());
    assert_eq!(outputs, vec![Output::Title(String::from("Editor"))]);
    assert_eq!(lines(&outputs), vec![String::from("Editor")]);
    assert_eq!(registry.count(), 1);
    assert_eq!(registry.active_identity(), Some(W1));
}

#[test]
fn focused_window_prints_step_by_step() {
    let mut registry = WindowRegistry::new();
    assert_eq!(registry.apply(&Event::WindowCreated(W1)), None);
    assert_eq!(registry.apply(&Event::StateChanged(W1, activated())), None);
    assert_eq!(registry.apply(&Event::TitleChanged(W1, String::from("Editor"))), None);
    assert_eq!(
        registry.apply(&Event::BatchDone(W1)),
        Some(Output::Title(String::from("Editor")))
    );
}

#[test]
fn focus_moving_to_another_window_prints_no_blank_line() {
    let mut registry = WindowRegistry::new();
    registry.apply_all(&editor_session());
    let outputs = registry.apply_all(&browser_session());
    assert_eq!(outputs, vec![Output::Title(String::from("Browser"))]);
    assert_eq!(lines(&outputs), vec![String::from("Browser")]);
    assert_eq!(registry.count(), 2);
    assert_eq!(registry.active_identity(), Some(W2));
    assert_eq!(registry.get(W1).map(|handle| handle.is_activated), Some(false));
}

#[test]
fn closing_the_focused_window_prints_one_blank_line() {
    let mut registry = WindowRegistry::new();
    registry.apply_all(&editor_session());
    registry.apply_all(&browser_session());
    let outputs = registry.apply_all(&vec![Event::WindowClosed(W2)]);
    assert_eq!(outputs, vec![Output::Blank]);
    assert_eq!(lines(&outputs), vec![String::new()]);
    assert_eq!(registry.count(), 1);
    assert_eq!(registry.active_identity(), None);
    assert!(!registry.contains(W2));
    assert!(registry.contains(W1));
}

#[test]
fn whole_session_in_one_batch() {
    let mut events = editor_session();
    events.extend(browser_session());
    events.push(Event::WindowClosed(W2));
    let mut registry = WindowRegistry::new();
    let outputs = registry.apply_all(&events);
    assert_eq!(
        lines(&outputs),
        vec![String::from("Editor"), String::from("Browser"), String::new()]
    );
    assert_eq!(
        outputs,
        vec![
            Output::Title(String::from("Editor")),
            Output::Title(String::from("Browser")),
            Output::Blank,
        ]
    );
}

#[test]
fn finished_on_a_fresh_registry_prints_nothing() {
    let mut registry = WindowRegistry::new();
    let outputs = registry.apply_all(&vec![Event::ManagerFinished]);
    assert!(outputs.is_empty());
    assert_eq!(registry.count(), 0);
    assert_eq!(registry.active_identity(), None);
    assert_eq!(registry.last_emitted_active(), None);
}

#[test]
fn finished_with_a_focused_window_clears_everything_and_prints_a_blank_line() {
    let mut registry = WindowRegistry::new();
    registry.apply_all(&editor_session());
    registry.apply_all(&browser_session());
    assert_eq!(registry.apply(&Event::ManagerFinished), Some(Output::Blank));
    assert_eq!(registry.count(), 0);
    assert_eq!(registry.active_identity(), None);
    assert!(!registry.contains(W1));
    assert!(!registry.contains(W2));
    assert_eq!(registry.apply(&Event::ManagerFinished), None);
}

#[test]
fn reports_for_windows_of_an_ended_session_are_ignored() {
    let mut registry = WindowRegistry::new();
    registry.apply_all(&editor_session());
    registry.apply(&Event::ManagerFinished);
    let outputs = registry.apply_all(&vec![
        Event::StateChanged(W1, activated()),
        Event::TitleChanged(W1, String::from("Ghost")),
        Event::BatchDone(W1),
        Event::WindowClosed(W1),
    ]);
    assert!(outputs.is_empty());
    assert_eq!(registry.count(), 0);
    assert_eq!(registry.active_identity(), None);
}

#[test]
fn empty_batch_changes_nothing() {
    let mut registry = WindowRegistry::new();
    registry.apply_all(&editor_session());
    let outputs = registry.apply_all(&Vec::new());
    assert!(outputs.is_empty());
    assert_eq!(registry.count(), 1);
    assert_eq!(registry.active_identity(), Some(W1));
}
