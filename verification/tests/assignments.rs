use unnamed::assignments::{LayoutAssignments, WindowLayoutAssignment};
use unnamed::layout::LayoutPreset;
use unnamed::wrappers::WindowMagicId;

const SAFARI: &str = "com.apple.Safari";
const MAIL: &str = "com.apple.mail";

fn assignment(preset: LayoutPreset, enabled: bool) -> WindowLayoutAssignment {
    WindowLayoutAssignment { preset, enabled }
}

#[test]
fn default_assignment_is_full_and_disabled() {
    assert_eq!(WindowLayoutAssignment::default(), assignment(LayoutPreset::Full, false));
}

#[test]
fn a_new_store_has_no_bundle() {
    let store = LayoutAssignments::new();
    assert!(!store.contains_bundle(SAFARI));
    assert!(!store.contains_bundle(""));
}

#[test]
fn unassigned_windows_are_governed_by_the_default() {
    let mut store = LayoutAssignments::new();
    assert_eq!(store.assignment(SAFARI, WindowMagicId(1)), assignment(LayoutPreset::Full, false));
    store.register(SAFARI);
    assert_eq!(store.assignment(SAFARI, WindowMagicId(1)), assignment(LayoutPreset::Full, false));
    store.assign(SAFARI, WindowMagicId(2), LayoutPreset::Left);
    let _ = store.toggle(MAIL, WindowMagicId(1));
    let _ = store.observe(SAFARI, WindowMagicId(3));
    assert_eq!(store.assignment(SAFARI, WindowMagicId(1)), assignment(LayoutPreset::Full, false));
    assert_eq!(store.assignment(SAFARI, WindowMagicId(3)), assignment(LayoutPreset::Full, false));
    assert_eq!(store.assignment(MAIL, WindowMagicId(2)), assignment(LayoutPreset::Full, false));
}

#[test]
fn registering_gives_the_bundle_an_empty_table() {
    let mut store = LayoutAssignments::new();
    store.register(SAFARI);
    assert!(store.contains_bundle(SAFARI));
    assert!(!store.contains_bundle(MAIL));
    store.assign(SAFARI, WindowMagicId(7), LayoutPreset::Right);
    store.register(SAFARI);
    assert!(store.contains_bundle(SAFARI));
    assert_eq!(store.assignment(SAFARI, WindowMagicId(7)), assignment(LayoutPreset::Full, false));
}

#[test]
fn ensuring_a_bundle_keeps_its_table() {
    let mut store = LayoutAssignments::new();
    store.ensure_bundle(SAFARI);
    assert!(store.contains_bundle(SAFARI));
    store.assign(SAFARI, WindowMagicId(7), LayoutPreset::Right);
    store.ensure_bundle(SAFARI);
    assert_eq!(store.assignment(SAFARI, WindowMagicId(7)), assignment(LayoutPreset::Right, true));
}

#[test]
fn assigning_sets_the_preset_and_enables() {
    let mut store = LayoutAssignments::new();
    store.assign(SAFARI, WindowMagicId(1), LayoutPreset::Left);
    assert!(store.contains_bundle(SAFARI));
    assert_eq!(store.assignment(SAFARI, WindowMagicId(1)), assignment(LayoutPreset::Left, true));
    store.assign(SAFARI, WindowMagicId(1), LayoutPreset::Right);
    assert_eq!(store.assignment(SAFARI, WindowMagicId(1)), assignment(LayoutPreset::Right, true));
    assert_eq!(store.assignment(SAFARI, WindowMagicId(2)), assignment(LayoutPreset::Full, false));
    assert_eq!(store.assignment(MAIL, WindowMagicId(1)), assignment(LayoutPreset::Full, false));
}

#[test]
fn toggling_flips_enabled_and_keeps_the_preset() {
    let mut store = LayoutAssignments::new();
    store.assign(SAFARI, WindowMagicId(1), LayoutPreset::Left);
    assert_eq!(store.toggle(SAFARI, WindowMagicId(1)), assignment(LayoutPreset::Left, false));
    assert_eq!(store.assignment(SAFARI, WindowMagicId(1)), assignment(LayoutPreset::Left, false));
}

#[test]
fn toggling_twice_restores_the_assignment() {
    let mut store = LayoutAssignments::new();
    store.assign(SAFARI, WindowMagicId(1), LayoutPreset::Right);
    store.assign(SAFARI, WindowMagicId(2), LayoutPreset::Left);
    let before = store.assignment(SAFARI, WindowMagicId(1));
    let _ = store.toggle(SAFARI, WindowMagicId(1));
    assert_ne!(store.assignment(SAFARI, WindowMagicId(1)), before);
    let _ = store.toggle(SAFARI, WindowMagicId(1));
    assert_eq!(store.assignment(SAFARI, WindowMagicId(1)), before);
    assert_eq!(store.assignment(SAFARI, WindowMagicId(2)), assignment(LayoutPreset::Left, true));
}

#[test]
fn first_toggle_of_an_unseen_window_enables_the_full_screen() {
    let mut store = LayoutAssignments::new();
    assert_eq!(store.toggle(SAFARI, WindowMagicId(9)), assignment(LayoutPreset::Full, true));
    assert!(store.contains_bundle(SAFARI));
    assert_eq!(store.toggle(SAFARI, WindowMagicId(9)), assignment(LayoutPreset::Full, false));
}

#[test]
fn observing_returns_the_assignment_and_changes_none() {
    let mut store = LayoutAssignments::new();
    assert_eq!(store.observe(SAFARI, WindowMagicId(1)), assignment(LayoutPreset::Full, false));
    assert!(store.contains_bundle(SAFARI));
    store.assign(SAFARI, WindowMagicId(1), LayoutPreset::Left);
    assert_eq!(store.observe(SAFARI, WindowMagicId(1)), assignment(LayoutPreset::Left, true));
    assert_eq!(store.assignment(SAFARI, WindowMagicId(1)), assignment(LayoutPreset::Left, true));
}

#[test]
fn bundles_are_told_apart_by_their_text() {
    let mut store = LayoutAssignments::new();
    store.assign(SAFARI, WindowMagicId(1), LayoutPreset::Left);
    store.assign(MAIL, WindowMagicId(1), LayoutPreset::Right);
    let owned = String::from("com.apple.") + "Safari";
    assert_eq!(store.assignment(&owned, WindowMagicId(1)), assignment(LayoutPreset::Left, true));
    assert_eq!(store.assignment(MAIL, WindowMagicId(1)), assignment(LayoutPreset::Right, true));
    assert_eq!(
        store.assignment("com.apple.safari", WindowMagicId(1)),
        assignment(LayoutPreset::Full, false)
    );
}

#[test]
fn window_identifiers_cover_the_whole_range() {
    let mut store = LayoutAssignments::new();
    store.assign(SAFARI, WindowMagicId(0), LayoutPreset::Left);
    store.assign(SAFARI, WindowMagicId(u32::MAX), LayoutPreset::Right);
    assert_eq!(store.assignment(SAFARI, WindowMagicId(0)), assignment(LayoutPreset::Left, true));
    assert_eq!(
        store.assignment(SAFARI, WindowMagicId(u32::MAX)),
        assignment(LayoutPreset::Right, true)
    );
    assert_eq!(WindowMagicId(17).get(), 17);
}
