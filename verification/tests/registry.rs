//! Entry management: creation, destruction, reset, lookups.

use focus_tracker::{WindowHandle, WindowRegistry, ACTIVATED};

#[test]
fn new_registry_is_empty() {
    let registry = WindowRegistry::new();
    assert_eq!(registry.count(), 0);
    assert_eq!(registry.active_identity(), None);
    assert_eq!(registry.last_emitted_active(), None);
    assert!(!registry.contains(0));
    assert_eq!(registry.get(0), None);
}

#[test]
fn new_handle_has_no_title_and_is_not_activated() {
    let handle = WindowHandle::new(7);
    assert_eq!(handle.identity, 7);
    assert_eq!(handle.title, "");
    assert!(!handle.is_activated);
}

#[test]
fn create_inserts_a_fresh_handle_and_counts_it() {
    let mut registry = WindowRegistry::new();
    registry.create(5);
    assert_eq!(registry.count(), 1);
    assert!(registry.contains(5));
    assert_eq!(registry.get(5), Some(&WindowHandle::new(5)));
    registry.create(6);
    registry.create(u32::MAX);
    registry.create(0);
    assert_eq!(registry.count(), 4);
    assert_eq!(registry.get(u32::MAX).map(|handle| handle.identity), Some(u32::MAX));
    assert_eq!(registry.active_identity(), None);
}

#[test]
fn create_of_a_live_identity_keeps_the_window_as_it_is() {
    let mut registry = WindowRegistry::new();
    registry.create(5);
    registry.set_title(5, String::from("Terminal"));
    registry.report_state(5, &vec![ACTIVATED]);
    registry.create(5);
    assert_eq!(registry.count(), 1);
    assert_eq!(
        registry.get(5),
        Some(&WindowHandle { identity: 5, title: String::from("Terminal"), is_activated: true })
    );
    assert_eq!(registry.active_identity(), Some(5));
}

#[test]
fn destroy_removes_the_entry_and_counts_down_once() {
    let mut registry = WindowRegistry::new();
    registry.create(1);
    registry.create(2);
    registry.create(3);
    registry.destroy(2);
    assert_eq!(registry.count(), 2);
    assert!(!registry.contains(2));
    assert!(registry.contains(1));
    assert!(registry.contains(3));
    registry.destroy(2);
    assert_eq!(registry.count(), 2);
}

#[test]
fn destroy_of_an_unknown_identity_is_a_no_op() {
    let mut registry = WindowRegistry::new();
    registry.destroy(9);
    assert_eq!(registry.count(), 0);
    registry.create(1);
    registry.report_state(1, &vec![ACTIVATED]);
    registry.destroy(9);
    assert_eq!(registry.count(), 1);
    assert_eq!(registry.active_identity(), Some(1));
}

#[test]
fn destroy_of_the_focused_window_clears_the_focus() {
    let mut registry = WindowRegistry::new();
    registry.create(1);
    registry.create(2);
    registry.report_state(1, &vec![ACTIVATED]);
    registry.destroy(1);
    assert_eq!(registry.active_identity(), None);
    assert_eq!(registry.count(), 1);
}

#[test]
fn destroy_of_another_window_keeps_the_focus() {
    let mut registry = WindowRegistry::new();
    registry.create(1);
    registry.create(2);
    registry.report_state(1, &vec![ACTIVATED]);
    registry.destroy(2);
    assert_eq!(registry.active_identity(), Some(1));
    assert_eq!(registry.count(), 1);
}

#[test]
fn reset_clears_windows_and_focus() {
    let mut registry = WindowRegistry::new();
    registry.create(1);
    registry.create(2);
    registry.report_state(2, &vec![ACTIVATED]);
    registry.reset();
    assert_eq!(registry.count(), 0);
    assert_eq!(registry.active_identity(), None);
    assert!(!registry.contains(1));
    assert!(!registry.contains(2));
    registry.reset();
    assert_eq!(registry.count(), 0);
}

#[test]
fn identity_reused_after_destruction_names_a_fresh_window() {
    let mut registry = WindowRegistry::new();
    registry.create(4);
    registry.set_title(4, String::from("Old"));
    registry.report_state(4, &vec![ACTIVATED]);
    registry.destroy(4);
    registry.create(4);
    assert_eq!(registry.get(4), Some(&WindowHandle::new(4)));
    assert_eq!(registry.active_identity(), None);
    assert_eq!(registry.title_owed(4), None);
}

#[test]
fn set_title_replaces_the_title_wholesale() {
    let mut registry = WindowRegistry::new();
    registry.create(1);
    registry.set_title(1, String::from("first title"));
    registry.set_title(1, String::from("second"));
    assert_eq!(registry.get(1).map(|handle| handle.title.clone()), Some(String::from("second")));
    registry.set_title(1, String::new());
    assert_eq!(registry.get(1).map(|handle| handle.title.clone()), Some(String::new()));
    assert_eq!(registry.get(1).map(|handle| handle.is_activated), Some(false));
}

#[test]
fn set_title_of_an_unknown_identity_is_a_no_op() {
    let mut registry = WindowRegistry::new();
    registry.create(1);
    registry.set_title(2, String::from("nobody"));
    assert_eq!(registry.count(), 1);
    assert!(!registry.contains(2));
    assert_eq!(registry.get(1), Some(&WindowHandle::new(1)));
}

#[test]
fn title_text_is_kept_as_it_came() {
    let mut registry = WindowRegistry::new();
    registry.create(1);
    registry.report_state(1, &vec![ACTIVATED]);
    let title = String::from("  naïve — 日本語\ttab \"quoted\"  ");
    registry.set_title(1, title.clone());
    assert_eq!(registry.title_owed(1), Some(title));
}
