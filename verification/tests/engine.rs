use std::collections::HashMap;

use unnamed::assignments::{LayoutAssignments, WindowLayoutAssignment};
use unnamed::engine::{
    observer_callback, update_layout_for_focused_window, LayoutUpdate, Notification, Notified,
};
use unnamed::error::Context;
use unnamed::foreign::{ForeignCall, ForeignReply, Procedure, Progress, ScreenFrame};
use unnamed::keys::{Command, Key, KeyEvent, KeyState};
use unnamed::layout::{AXRect, LayoutPreset, LayoutPresets};
use unnamed::memory::Unique;
use unnamed::wrappers::WindowMagicId;
use unnamed::UnnamedError;

/// A runtime made of tables, which answers every call from them and keeps a
/// log of the calls.
#[derive(Default)]
struct World {
    log: Vec<ForeignCall>,
    made: usize,
    counts: HashMap<usize, isize>,
    strings: HashMap<usize, String>,
    refused_strings: Vec<&'static str>,
    values: HashMap<(usize, &'static str), (i32, usize)>,
    write_status: HashMap<(usize, &'static str), i32>,
    placed: HashMap<(usize, String), usize>,
    arrays: HashMap<usize, Vec<usize>>,
    element_pids: HashMap<usize, (i32, i32)>,
    window_ids: HashMap<usize, (i32, u32)>,
    applications: HashMap<i32, usize>,
    application_pids: HashMap<usize, i32>,
    refused_elements: Vec<i32>,
    bundle_ids: HashMap<usize, &'static str>,
    running: HashMap<String, usize>,
    workspace: usize,
    frontmost: usize,
    observer_status: HashMap<i32, i32>,
    notify_status: HashMap<(usize, &'static str), i32>,
    subscribed: Vec<(usize, usize, String)>,
    sources: HashMap<usize, usize>,
    run_loop: Vec<usize>,
    trusted: bool,
    refuse_trust_options: bool,
    reports: Vec<String>,
}

impl World {
    fn fresh(&mut self) -> usize {
        self.made += 1;
        let handle = 0x10000 + 0x10 * self.made;
        self.counts.insert(handle, 1);
        handle
    }

    fn count(&self, handle: usize) -> isize {
        self.counts.get(&handle).copied().unwrap_or(0)
    }

    /// The handles that the procedures made and have not released.
    fn live(&self) -> Vec<usize> {
        let mut live: Vec<usize> =
            self.counts.iter().filter(|(_, count)| **count != 0).map(|(handle, _)| *handle).collect();
        live.sort();
        live
    }

    fn name_of(&self, string: usize) -> String {
        self.strings.get(&string).cloned().unwrap_or_default()
    }

    fn answer(&mut self, call: &ForeignCall) -> ForeignReply {
        match call {
            ForeignCall::Retain { handle } => {
                *self.counts.entry(*handle).or_insert(0) += 1;
                ForeignReply::nothing()
            }
            ForeignCall::Release { handle } => {
                *self.counts.entry(*handle).or_insert(0) -= 1;
                ForeignReply::nothing()
            }
            ForeignCall::RetainCount { handle } => ForeignReply::with_count(self.count(*handle)),
            ForeignCall::CreateString { literal } => {
                if self.refused_strings.contains(literal) {
                    ForeignReply::with_handle(0)
                } else {
                    let handle = self.fresh();
                    self.strings.insert(handle, literal.to_string());
                    ForeignReply::with_handle(handle)
                }
            }
            ForeignCall::CreateText { contents } => {
                let handle = self.fresh();
                self.strings.insert(handle, contents.clone());
                ForeignReply::with_handle(handle)
            }
            ForeignCall::CreatePoint { .. } | ForeignCall::CreateSize { .. } => {
                let handle = self.fresh();
                ForeignReply::with_handle(handle)
            }
            ForeignCall::CopyAttributeValue { element, attribute } => {
                let name = self.name_of(*attribute);
                let found = self
                    .values
                    .iter()
                    .find(|((owner, key), _)| owner == element && *key == name)
                    .map(|(_, value)| *value);
                match found {
                    Some((status, value)) => {
                        if status == 0 && value != 0 {
                            *self.counts.entry(value).or_insert(0) += 1;
                        }
                        ForeignReply::with_value(status, value)
                    }
                    None => ForeignReply::with_value(-25205, 0),
                }
            }
            ForeignCall::SetAttributeValue { element, attribute, value } => {
                let name = self.name_of(*attribute);
                let status = self
                    .write_status
                    .iter()
                    .find(|((owner, key), _)| owner == element && *key == name)
                    .map(|(_, status)| *status)
                    .unwrap_or(0);
                if status == 0 {
                    self.placed.insert((*element, name), *value);
                }
                ForeignReply::with_status(status)
            }
            ForeignCall::ElementPid { element } => match self.element_pids.get(element) {
                Some((status, pid)) => ForeignReply::with_pid(*status, *pid),
                None => ForeignReply::with_pid(-25202, 0),
            },
            ForeignCall::ElementWindow { element } => match self.window_ids.get(element) {
                Some((status, window)) => ForeignReply::with_window(*status, *window),
                None => ForeignReply::with_window(-25202, 0),
            },
            ForeignCall::CreateApplicationElement { pid } => {
                if self.refused_elements.contains(pid) {
                    ForeignReply::with_handle(0)
                } else {
                    let handle = 0x5000 + *pid as usize;
                    *self.counts.entry(handle).or_insert(0) += 1;
                    ForeignReply::with_handle(handle)
                }
            }
            ForeignCall::ProcessIdentifier { application } => ForeignReply::with_pid(
                0,
                self.application_pids.get(application).copied().unwrap_or(-1),
            ),
            ForeignCall::BundleIdentifier { application } => {
                match self.bundle_ids.get(application).copied() {
                    Some(text) => {
                        self.made += 1;
                        let handle = 0x20000 + 0x10 * self.made;
                        self.strings.insert(handle, text.to_string());
                        ForeignReply::with_handle(handle)
                    }
                    None => ForeignReply::with_handle(0),
                }
            }
            ForeignCall::TextContents { string } => ForeignReply::with_text(self.name_of(*string)),
            ForeignCall::RunningApplication { pid } => {
                ForeignReply::with_handle(self.applications.get(pid).copied().unwrap_or(0))
            }
            ForeignCall::RunningApplications { bundle_id } => {
                let name = self.name_of(*bundle_id);
                let array = self.running.get(&name).copied().unwrap_or(0);
                if array != 0 {
                    *self.counts.entry(array).or_insert(0) += 1;
                }
                ForeignReply::with_handle(array)
            }
            ForeignCall::ArrayElements { array } => {
                ForeignReply::with_handles(self.arrays.get(array).cloned().unwrap_or_default())
            }
            ForeignCall::SharedWorkspace => ForeignReply::with_handle(self.workspace),
            ForeignCall::FrontmostApplication { .. } => ForeignReply::with_handle(self.frontmost),
            ForeignCall::CreateObserver { pid } => {
                let status = self.observer_status.get(pid).copied().unwrap_or(0);
                if status == 0 {
                    let handle = 0x7000 + *pid as usize;
                    *self.counts.entry(handle).or_insert(0) += 1;
                    ForeignReply::with_value(0, handle)
                } else {
                    ForeignReply::with_value(status, 0)
                }
            }
            ForeignCall::AddNotification { observer, element, notification } => {
                let name = self.name_of(*notification);
                let status = self
                    .notify_status
                    .iter()
                    .find(|((owner, key), _)| owner == element && *key == name)
                    .map(|(_, status)| *status)
                    .unwrap_or(0);
                if status == 0 {
                    self.subscribed.push((*observer, *element, name));
                }
                ForeignReply::with_status(status)
            }
            ForeignCall::RunLoopSource { observer } => {
                ForeignReply::with_handle(self.sources.get(observer).copied().unwrap_or(0))
            }
            ForeignCall::AddRunLoopSource { source } => {
                self.run_loop.push(*source);
                ForeignReply::nothing()
            }
            ForeignCall::MainScreenFrame => {
                ForeignReply::with_frame(ScreenFrame { x: 0, y: 0, width: 1440, height: 900 })
            }
            ForeignCall::CreateTrustOptions => {
                if self.refuse_trust_options {
                    ForeignReply::with_handle(0)
                } else {
                    let handle = self.fresh();
                    ForeignReply::with_handle(handle)
                }
            }
            ForeignCall::IsProcessTrusted { .. } => ForeignReply::with_flag(self.trusted),
            ForeignCall::Report { diagnostic } => {
                self.reports.push(diagnostic.message());
                ForeignReply::nothing()
            }
        }
    }

    fn serve(&mut self, call: ForeignCall) -> ForeignReply {
        let reply = self.answer(&call);
        self.log.push(call);
        reply
    }

    fn run<P: Procedure>(&mut self, mut progress: Progress<P, P::Output>) -> P::Output {
        loop {
            match progress {
                Progress::Finished(output) => return output,
                Progress::Pending(state, call) => {
                    let reply = self.serve(call);
                    progress = state.resume(reply);
                }
            }
        }
    }

    /// The literals of the strings that were made, in order.
    fn strings_made(&self) -> Vec<&'static str> {
        self.log
            .iter()
            .filter_map(|call| match call {
                ForeignCall::CreateString { literal } => Some(*literal),
                _ => None,
            })
            .collect()
    }

    /// The writes that were tried, in order, by attribute name and value.
    fn writes(&self) -> Vec<(usize, String, usize)> {
        self.log
            .iter()
            .filter_map(|call| match call {
                ForeignCall::SetAttributeValue { element, attribute, value } => {
                    Some((*element, self.name_of(*attribute), *value))
                }
                _ => None,
            })
            .collect()
    }
}

const SAFARI: &str = "com.apple.Safari";
const PID: i32 = 0x77;
const WORKSPACE: usize = 0x2000;
const RUNNING: usize = 0x3000;
const ELEMENT: usize = 0x5077;
const OBSERVER: usize = 0x7077;
const SOURCE: usize = 0xd00;
const WINDOWS: usize = 0xb00;
const FIRST: usize = 0x900;
const SECOND: usize = 0x910;
const THIRD: usize = 0x920;

fn presets() -> LayoutPresets {
    let rect = |origin: usize, size: usize| AXRect {
        origin: Unique::new_mut(origin).unwrap(),
        size: Unique::new_mut(size).unwrap(),
    };
    LayoutPresets { rects: [rect(0xf10, 0xf20), rect(0xf30, 0xf40), rect(0xf50, 0xf60)] }
}

/// Safari runs with three windows, identified 11, 12 and 13; the first is
/// focused.
fn desktop() -> World {
    let mut world = World::default();
    world.workspace = WORKSPACE;
    world.frontmost = RUNNING;
    world.application_pids.insert(RUNNING, PID);
    world.applications.insert(PID, RUNNING);
    world.bundle_ids.insert(RUNNING, SAFARI);
    world.values.insert((ELEMENT, "AXWindows"), (0, WINDOWS));
    world.values.insert((ELEMENT, "AXFocusedWindow"), (0, FIRST));
    world.arrays.insert(WINDOWS, vec![FIRST, SECOND, THIRD]);
    for (window, id) in [(FIRST, 11), (SECOND, 12), (THIRD, 13)] {
        world.counts.insert(window, 1);
        world.element_pids.insert(window, (0, PID));
        world.window_ids.insert(window, (0, id));
    }
    world.sources.insert(OBSERVER, SOURCE);
    world
}

fn assignment(preset: LayoutPreset, enabled: bool) -> WindowLayoutAssignment {
    WindowLayoutAssignment { preset, enabled }
}

fn moved_to(window: usize, origin: usize, size: usize) -> Vec<(usize, String, usize)> {
    vec![(window, "AXPosition".to_string(), origin), (window, "AXSize".to_string(), size)]
}

fn notify(world: &mut World, store: &mut LayoutAssignments, element: usize) -> Notified {
    let presets = presets();
    let mut progress = observer_callback(element);
    loop {
        match progress {
            Progress::Finished(outcome) => return outcome,
            Progress::Pending(state, call) => {
                let reply = world.serve(call);
                progress = state.resume(store, &presets, reply);
            }
        }
    }
}

fn play(
    world: &mut World,
    store: &mut LayoutAssignments,
    command: Command,
) -> Result<(), UnnamedError> {
    let presets = presets();
    let mut progress = update_layout_for_focused_window(command);
    loop {
        match progress {
            Progress::Finished(result) => return result,
            Progress::Pending(state, call) => {
                let reply = world.serve(call);
                progress = state.resume(store, &presets, reply);
            }
        }
    }
}

/// The counts of the windows and the application's element are back where
/// they were, and nothing that the procedure made is left.
fn nothing_leaked(world: &World) {
    assert_eq!(world.live(), vec![FIRST, SECOND, THIRD]);
    for window in [FIRST, SECOND, THIRD] {
        assert_eq!(world.count(window), 1);
    }
    assert_eq!(world.count(ELEMENT), 0);
}

#[test]
fn a_notification_for_a_disabled_window_moves_nothing() {
    let mut world = desktop();
    let mut store = LayoutAssignments::new();
    store.register(SAFARI);
    store.assign(SAFARI, WindowMagicId(11), LayoutPreset::Left);
    let _ = store.toggle(SAFARI, WindowMagicId(11));
    assert_eq!(store.assignment(SAFARI, WindowMagicId(11)), assignment(LayoutPreset::Left, false));

    let outcome = notify(&mut world, &mut store, FIRST);

    assert_eq!(outcome, Notified::Idle { assignment: assignment(LayoutPreset::Left, false) });
    assert_eq!(world.writes(), vec![]);
    assert_eq!(world.strings_made(), Vec::<&str>::new());
    assert!(world.reports.is_empty());
    assert_eq!(store.assignment(SAFARI, WindowMagicId(11)), assignment(LayoutPreset::Left, false));
}

#[test]
fn a_notification_for_an_enabled_window_moves_it_back() {
    let mut world = desktop();
    let mut store = LayoutAssignments::new();
    store.assign(SAFARI, WindowMagicId(12), LayoutPreset::Right);

    let outcome = notify(&mut world, &mut store, SECOND);

    assert_eq!(outcome, Notified::Relaid { preset: LayoutPreset::Right });
    assert_eq!(world.writes(), moved_to(SECOND, 0xf50, 0xf60));
    assert_eq!(world.count(SECOND), 1);
    assert!(!world.log.contains(&ForeignCall::Release { handle: SECOND }));
    assert!(!world.log.contains(&ForeignCall::Retain { handle: SECOND }));
}

#[test]
fn a_notification_for_an_unseen_window_gives_it_the_default() {
    let mut world = desktop();
    let mut store = LayoutAssignments::new();

    let outcome = notify(&mut world, &mut store, THIRD);

    assert_eq!(outcome, Notified::Idle { assignment: assignment(LayoutPreset::Full, false) });
    assert!(store.contains_bundle(SAFARI));
    assert_eq!(store.assignment(SAFARI, WindowMagicId(13)), assignment(LayoutPreset::Full, false));
    assert_eq!(world.writes(), vec![]);
}

#[test]
fn a_notification_with_a_null_element_is_reported() {
    let mut world = desktop();
    let mut store = LayoutAssignments::new();

    let outcome = notify(&mut world, &mut store, 0);

    assert_eq!(outcome, Notified::NotAWindow);
    assert_eq!(
        world.reports,
        vec!["Window observer should be passed valid window: Apple API object was unexpectedly null"]
    );
    assert_eq!(world.log.len(), 1);
    assert!(!store.contains_bundle(SAFARI));
}

#[test]
fn a_notification_for_a_window_without_identifier_is_reported() {
    let mut world = desktop();
    world.window_ids.insert(FIRST, (-25202, 0));
    let mut store = LayoutAssignments::new();
    store.assign(SAFARI, WindowMagicId(11), LayoutPreset::Left);

    let outcome = notify(&mut world, &mut store, FIRST);

    assert_eq!(outcome, Notified::Unidentified);
    assert_eq!(world.reports, vec!["Failed to get window magic ID: Failed to get magic window ID"]);
    assert_eq!(world.writes(), vec![]);
}

#[test]
fn a_failed_relayout_in_a_notification_is_reported_and_nothing_more() {
    let mut world = desktop();
    world.write_status.insert((FIRST, "AXPosition"), -25204);
    let mut store = LayoutAssignments::new();
    store.assign(SAFARI, WindowMagicId(11), LayoutPreset::Left);

    let outcome = notify(&mut world, &mut store, FIRST);

    assert_eq!(outcome, Notified::RelayoutFailed { preset: LayoutPreset::Left });
    assert_eq!(
        world.reports,
        vec!["Failed to relayout window: Failed to set com.apple.Safari position"]
    );
    assert_eq!(world.writes().len(), 1);
    assert_eq!(store.assignment(SAFARI, WindowMagicId(11)), assignment(LayoutPreset::Left, true));
}

#[test]
fn a_notification_begins_with_the_process_of_the_element() {
    assert_eq!(
        observer_callback(FIRST),
        Progress::Pending(
            Notification::Borrowing { borrow: unnamed::wrappers::WindowBorrow::Pid { element: FIRST } },
            ForeignCall::ElementPid { element: FIRST }
        )
    );
}

#[test]
fn chord_h_assigns_left_to_the_focused_window_and_moves_it() {
    let mut world = desktop();
    let mut store = LayoutAssignments::new();
    store.register(SAFARI);
    store.assign(SAFARI, WindowMagicId(12), LayoutPreset::Right);
    store.assign(SAFARI, WindowMagicId(13), LayoutPreset::Full);
    let _ = store.toggle(SAFARI, WindowMagicId(13));

    let mut keys = KeyState::new();
    for key in [Key::MetaLeft, Key::ControlLeft, Key::Alt, Key::ShiftLeft] {
        assert_eq!(keys.on_event(KeyEvent::KeyPress(key)), None);
    }
    let command = keys.on_event(KeyEvent::KeyPress(Key::KeyH)).unwrap();
    assert_eq!(play(&mut world, &mut store, command), Ok(()));

    assert_eq!(store.assignment(SAFARI, WindowMagicId(11)), assignment(LayoutPreset::Left, true));
    assert_eq!(store.assignment(SAFARI, WindowMagicId(12)), assignment(LayoutPreset::Right, true));
    assert_eq!(store.assignment(SAFARI, WindowMagicId(13)), assignment(LayoutPreset::Full, false));
    let mut writes = moved_to(FIRST, 0xf30, 0xf40);
    writes.extend(moved_to(SECOND, 0xf50, 0xf60));
    assert_eq!(world.writes(), writes);
    assert!(world.reports.is_empty());
    nothing_leaked(&world);
}

#[test]
fn chord_space_flips_enabled_and_keeps_the_preset() {
    let mut world = desktop();
    let mut store = LayoutAssignments::new();
    store.assign(SAFARI, WindowMagicId(11), LayoutPreset::Right);
    store.assign(SAFARI, WindowMagicId(12), LayoutPreset::Left);

    let mut keys = KeyState::new();
    for key in [Key::MetaRight, Key::ControlRight, Key::AltGr, Key::ShiftRight] {
        keys.press(key);
    }
    let command = keys.on_event(KeyEvent::KeyPress(Key::Space)).unwrap();
    assert_eq!(command, Command::Toggle);
    assert_eq!(play(&mut world, &mut store, command), Ok(()));

    assert_eq!(store.assignment(SAFARI, WindowMagicId(11)), assignment(LayoutPreset::Right, false));
    assert_eq!(store.assignment(SAFARI, WindowMagicId(12)), assignment(LayoutPreset::Left, true));
    assert_eq!(world.writes(), moved_to(SECOND, 0xf30, 0xf40));

    let mut world = desktop();
    assert_eq!(play(&mut world, &mut store, Command::Toggle), Ok(()));
    assert_eq!(store.assignment(SAFARI, WindowMagicId(11)), assignment(LayoutPreset::Right, true));
    let mut writes = moved_to(FIRST, 0xf50, 0xf60);
    writes.extend(moved_to(SECOND, 0xf30, 0xf40));
    assert_eq!(world.writes(), writes);
    nothing_leaked(&world);
}

#[test]
fn first_toggle_of_an_unseen_focused_window_enables_the_full_screen() {
    let mut world = desktop();
    let mut store = LayoutAssignments::new();

    assert_eq!(play(&mut world, &mut store, Command::Toggle), Ok(()));

    assert!(store.contains_bundle(SAFARI));
    assert_eq!(store.assignment(SAFARI, WindowMagicId(11)), assignment(LayoutPreset::Full, true));
    assert_eq!(world.writes(), moved_to(FIRST, 0xf10, 0xf20));
}

#[test]
fn chord_c_assigns_the_full_screen() {
    let mut world = desktop();
    let mut store = LayoutAssignments::new();
    store.assign(SAFARI, WindowMagicId(11), LayoutPreset::Left);

    assert_eq!(play(&mut world, &mut store, Command::Assign(LayoutPreset::Full)), Ok(()));

    assert_eq!(store.assignment(SAFARI, WindowMagicId(11)), assignment(LayoutPreset::Full, true));
    assert_eq!(world.writes(), moved_to(FIRST, 0xf10, 0xf20));
}

#[test]
fn a_command_makes_the_calls_in_order() {
    let mut world = desktop();
    world.arrays.insert(WINDOWS, vec![FIRST]);
    let mut store = LayoutAssignments::new();

    assert_eq!(play(&mut world, &mut store, Command::Assign(LayoutPreset::Left)), Ok(()));

    let focus_name = 0x10010 + 0x10;
    let windows_name = focus_name + 0x10;
    let position_name = windows_name + 0x10;
    let size_name = position_name + 0x10;
    assert_eq!(
        world.log,
        vec![
            ForeignCall::SharedWorkspace,
            ForeignCall::FrontmostApplication { workspace: WORKSPACE },
            ForeignCall::ProcessIdentifier { application: RUNNING },
            ForeignCall::CreateApplicationElement { pid: PID },
            ForeignCall::BundleIdentifier { application: RUNNING },
            ForeignCall::TextContents { string: 0x20010 },
            ForeignCall::CreateString { literal: "AXFocusedWindow" },
            ForeignCall::CopyAttributeValue { element: ELEMENT, attribute: focus_name },
            ForeignCall::Release { handle: focus_name },
            ForeignCall::ElementWindow { element: FIRST },
            ForeignCall::CreateString { literal: "AXWindows" },
            ForeignCall::CopyAttributeValue { element: ELEMENT, attribute: windows_name },
            ForeignCall::Release { handle: windows_name },
            ForeignCall::ArrayElements { array: WINDOWS },
            ForeignCall::Retain { handle: FIRST },
            ForeignCall::Release { handle: WINDOWS },
            ForeignCall::ElementWindow { element: FIRST },
            ForeignCall::CreateString { literal: "AXPosition" },
            ForeignCall::SetAttributeValue { element: FIRST, attribute: position_name, value: 0xf30 },
            ForeignCall::Release { handle: position_name },
            ForeignCall::CreateString { literal: "AXSize" },
            ForeignCall::SetAttributeValue { element: FIRST, attribute: size_name, value: 0xf40 },
            ForeignCall::Release { handle: size_name },
            ForeignCall::Release { handle: FIRST },
            ForeignCall::Release { handle: FIRST },
            ForeignCall::Release { handle: ELEMENT },
        ]
    );
}

#[test]
fn a_command_without_a_focused_window_changes_nothing() {
    let mut world = desktop();
    world.values.insert((ELEMENT, "AXFocusedWindow"), (0, 0));
    let mut store = LayoutAssignments::new();
    store.assign(SAFARI, WindowMagicId(12), LayoutPreset::Right);

    assert_eq!(play(&mut world, &mut store, Command::Assign(LayoutPreset::Left)), Ok(()));

    assert_eq!(world.reports, vec!["Focused app without focused window, so Finder??"]);
    assert_eq!(world.writes(), vec![]);
    assert_eq!(store.assignment(SAFARI, WindowMagicId(11)), assignment(LayoutPreset::Full, false));
    assert_eq!(store.assignment(SAFARI, WindowMagicId(12)), assignment(LayoutPreset::Right, true));
    nothing_leaked(&world);
}

#[test]
fn a_command_registers_the_bundle_of_the_frontmost_application() {
    let mut world = desktop();
    world.values.insert((ELEMENT, "AXFocusedWindow"), (0, 0));
    let mut store = LayoutAssignments::new();
    assert!(!store.contains_bundle(SAFARI));

    assert_eq!(play(&mut world, &mut store, Command::Toggle), Ok(()));

    assert!(store.contains_bundle(SAFARI));
}

#[test]
fn a_command_without_a_workspace_or_an_application_fails() {
    let mut world = desktop();
    world.workspace = 0;
    let mut store = LayoutAssignments::new();
    assert_eq!(play(&mut world, &mut store, Command::Toggle), Err(UnnamedError::UnexpectedNull));
    assert_eq!(world.log, vec![ForeignCall::SharedWorkspace]);

    let mut world = desktop();
    world.frontmost = 0;
    assert_eq!(play(&mut world, &mut store, Command::Toggle), Err(UnnamedError::UnexpectedNull));
    assert_eq!(world.log.len(), 2);
    assert!(!store.contains_bundle(SAFARI));
}

#[test]
fn a_command_whose_application_cannot_be_made_fails() {
    let mut world = desktop();
    world.refused_elements.push(PID);
    let mut store = LayoutAssignments::new();
    assert_eq!(
        play(&mut world, &mut store, Command::Toggle),
        Err(UnnamedError::CouldNotCreateCFObject)
    );
    assert!(!store.contains_bundle(SAFARI));
}

#[test]
fn a_focused_window_that_cannot_be_read_fails_the_command() {
    let mut world = desktop();
    world.values.insert((ELEMENT, "AXFocusedWindow"), (-25204, 0));
    let mut store = LayoutAssignments::new();
    assert_eq!(
        play(&mut world, &mut store, Command::Toggle),
        Err(UnnamedError::Whatever {
            context: Context::FocusedWindowOfApp,
            source: Some(Box::new(UnnamedError::Whatever {
                context: Context::OptionalFocusedWindow,
                source: Some(Box::new(UnnamedError::AXError { code: -25204 })),
            })),
        })
    );
    nothing_leaked(&world);
}

#[test]
fn a_focused_window_without_identifier_fails_the_command() {
    let mut world = desktop();
    world.window_ids.insert(FIRST, (-25200, 0));
    let mut store = LayoutAssignments::new();
    assert_eq!(
        play(&mut world, &mut store, Command::Assign(LayoutPreset::Left)),
        Err(UnnamedError::Whatever {
            context: Context::FocusedMagicId,
            source: Some(Box::new(UnnamedError::Whatever {
                context: Context::MagicWindowId,
                source: Some(Box::new(UnnamedError::AXError { code: -25200 })),
            })),
        })
    );
    assert_eq!(store.assignment(SAFARI, WindowMagicId(11)), assignment(LayoutPreset::Full, false));
    assert_eq!(world.writes(), vec![]);
    nothing_leaked(&world);
}

#[test]
fn a_sibling_without_identifier_fails_the_command_after_the_change() {
    let mut world = desktop();
    world.window_ids.insert(SECOND, (-25202, 0));
    let mut store = LayoutAssignments::new();
    assert_eq!(
        play(&mut world, &mut store, Command::Assign(LayoutPreset::Left)),
        Err(UnnamedError::Whatever {
            context: Context::WindowMagicId,
            source: Some(Box::new(UnnamedError::Whatever {
                context: Context::MagicWindowId,
                source: Some(Box::new(UnnamedError::AXError { code: -25202 })),
            })),
        })
    );
    assert_eq!(store.assignment(SAFARI, WindowMagicId(11)), assignment(LayoutPreset::Left, true));
    assert_eq!(world.writes(), moved_to(FIRST, 0xf30, 0xf40));
    nothing_leaked(&world);
}

#[test]
fn a_window_that_cannot_be_moved_does_not_stop_its_siblings() {
    let mut world = desktop();
    world.write_status.insert((FIRST, "AXSize"), -25204);
    let mut store = LayoutAssignments::new();
    store.assign(SAFARI, WindowMagicId(12), LayoutPreset::Right);
    store.assign(SAFARI, WindowMagicId(13), LayoutPreset::Left);

    assert_eq!(play(&mut world, &mut store, Command::Assign(LayoutPreset::Full)), Ok(()));

    assert_eq!(world.reports, vec!["error: Failed to set com.apple.Safari size"]);
    let mut writes = moved_to(FIRST, 0xf10, 0xf20);
    writes.extend(moved_to(SECOND, 0xf50, 0xf60));
    writes.extend(moved_to(THIRD, 0xf30, 0xf40));
    assert_eq!(world.writes(), writes);
    nothing_leaked(&world);
}

#[test]
fn windows_that_cannot_be_listed_fail_the_command_after_the_change() {
    let mut world = desktop();
    world.values.insert((ELEMENT, "AXWindows"), (-25204, 0));
    let mut store = LayoutAssignments::new();
    assert_eq!(
        play(&mut world, &mut store, Command::Assign(LayoutPreset::Right)),
        Err(UnnamedError::Whatever {
            context: Context::AppWindows,
            source: Some(Box::new(UnnamedError::AXError { code: -25204 })),
        })
    );
    assert_eq!(store.assignment(SAFARI, WindowMagicId(11)), assignment(LayoutPreset::Right, true));
    nothing_leaked(&world);
}

#[test]
fn a_command_begins_with_the_workspace() {
    assert_eq!(
        update_layout_for_focused_window(Command::Toggle),
        Progress::Pending(
            LayoutUpdate::Workspace { command: Command::Toggle },
            ForeignCall::SharedWorkspace
        )
    );
}
