use std::collections::HashMap;

use unnamed::error::Context;
use unnamed::foreign::{ForeignCall, ForeignReply, Procedure, Progress, ScreenFrame};
use unnamed::layout::AXRect;
use unnamed::memory::{AXUIElement, CopyOnWrite, Rc, Unique};
use unnamed::wrappers::{
    create_cfstring_from_static_str, with_context, AccessibilityElement, AccessibilityElementKey,
    App, Window, WindowMagicId, Windows,
};
use unnamed::UnnamedError;

/// A runtime made of tables, which answers every call from them and keeps a
/// log of the calls.
#[derive(Default)]
struct World {
    log: Vec<ForeignCall>,
    made: usize,
    counts: HashMap<usize, isize>,
    strings: HashMap<usize, String>,
    refused_strings: Vec<&'static str>,
    values: HashMap<(usize, &'static str), (i32, usize)>,
    write_status: HashMap<(usize, &'static str), i32>,
    placed: HashMap<(usize, String), usize>,
    arrays: HashMap<usize, Vec<usize>>,
    element_pids: HashMap<usize, (i32, i32)>,
    window_ids: HashMap<usize, (i32, u32)>,
    applications: HashMap<i32, usize>,
    application_pids: HashMap<usize, i32>,
    refused_elements: Vec<i32>,
    bundle_ids: HashMap<usize, &'static str>,
    running: HashMap<String, usize>,
    workspace: usize,
    frontmost: usize,
    observer_status: HashMap<i32, i32>,
    notify_status: HashMap<(usize, &'static str), i32>,
    subscribed: Vec<(usize, usize, String)>,
    sources: HashMap<usize, usize>,
    run_loop: Vec<usize>,
    trusted: bool,
    reports: Vec<String>,
}

impl World {
    fn fresh(&mut self) -> usize {
        self.made += 1;
        let handle = 0x10000 + 0x10 * self.made;
        self.counts.insert(handle, 1);
        handle
    }

    fn count(&self, handle: usize) -> isize {
        self.counts.get(&handle).copied().unwrap_or(0)
    }

    /// The handles that the procedures made and have not released.
    fn live(&self) -> Vec<usize> {
        let mut live: Vec<usize> =
            self.counts.iter().filter(|(_, count)| **count != 0).map(|(handle, _)| *handle).collect();
        live.sort();
        live
    }

    fn name_of(&self, string: usize) -> String {
        self.strings.get(&string).cloned().unwrap_or_default()
    }

    fn answer(&mut self, call: &ForeignCall) -> ForeignReply {
        match call {
            ForeignCall::Retain { handle } => {
                *self.counts.entry(*handle).or_insert(0) += 1;
                ForeignReply::nothing()
            }
            ForeignCall::Release { handle } => {
                *self.counts.entry(*handle).or_insert(0) -= 1;
                ForeignReply::nothing()
            }
            ForeignCall::RetainCount { handle } => ForeignReply::with_count(self.count(*handle)),
            ForeignCall::CreateString { literal } => {
                if self.refused_strings.contains(literal) {
                    ForeignReply::with_handle(0)
                } else {
                    let handle = self.fresh();
                    self.strings.insert(handle, literal.to_string());
                    ForeignReply::with_handle(handle)
                }
            }
            ForeignCall::CreateText { contents } => {
                let handle = self.fresh();
                self.strings.insert(handle, contents.clone());
                ForeignReply::with_handle(handle)
            }
            ForeignCall::CreatePoint { .. } | ForeignCall::CreateSize { .. } => {
                let handle = self.fresh();
                ForeignReply::with_handle(handle)
            }
            ForeignCall::CopyAttributeValue { element, attribute } => {
                let name = self.name_of(*attribute);
                let found = self
                    .values
                    .iter()
                    .find(|((owner, key), _)| owner == element && *key == name)
                    .map(|(_, value)| *value);
                match found {
                    Some((status, value)) => {
                        if status == 0 && value != 0 {
                            *self.counts.entry(value).or_insert(0) += 1;
                        }
                        ForeignReply::with_value(status, value)
                    }
                    None => ForeignReply::with_value(-25205, 0),
                }
            }
            ForeignCall::SetAttributeValue { element, attribute, value } => {
                let name = self.name_of(*attribute);
                let status = self
                    .write_status
                    .iter()
                    .find(|((owner, key), _)| owner == element && *key == name)
                    .map(|(_, status)| *status)
                    .unwrap_or(0);
                if status == 0 {
                    self.placed.insert((*element, name), *value);
                }
                ForeignReply::with_status(status)
            }
            ForeignCall::ElementPid { element } => match self.element_pids.get(element) {
                Some((status, pid)) => ForeignReply::with_pid(*status, *pid),
                None => ForeignReply::with_pid(-25202, 0),
            },
            ForeignCall::ElementWindow { element } => match self.window_ids.get(element) {
                Some((status, window)) => ForeignReply::with_window(*status, *window),
                None => ForeignReply::with_window(-25202, 0),
            },
            ForeignCall::CreateApplicationElement { pid } => {
                if self.refused_elements.contains(pid) {
                    ForeignReply::with_handle(0)
                } else {
                    let handle = 0x5000 + *pid as usize;
                    *self.counts.entry(handle).or_insert(0) += 1;
                    ForeignReply::with_handle(handle)
                }
            }
            ForeignCall::ProcessIdentifier { application } => ForeignReply::with_pid(
                0,
                self.application_pids.get(application).copied().unwrap_or(-1),
            ),
            ForeignCall::BundleIdentifier { application } => {
                match self.bundle_ids.get(application).copied() {
                    Some(text) => {
                        self.made += 1;
                        let handle = 0x20000 + 0x10 * self.made;
                        self.strings.insert(handle, text.to_string());
                        ForeignReply::with_handle(handle)
                    }
                    None => ForeignReply::with_handle(0),
                }
            }
            ForeignCall::TextContents { string } => ForeignReply::with_text(self.name_of(*string)),
            ForeignCall::RunningApplication { pid } => {
                ForeignReply::with_handle(self.applications.get(pid).copied().unwrap_or(0))
            }
            ForeignCall::RunningApplications { bundle_id } => {
                let name = self.name_of(*bundle_id);
                let array = self.running.get(&name).copied().unwrap_or(0);
                if array != 0 {
                    *self.counts.entry(array).or_insert(0) += 1;
                }
                ForeignReply::with_handle(array)
            }
            ForeignCall::ArrayElements { array } => {
                ForeignReply::with_handles(self.arrays.get(array).cloned().unwrap_or_default())
            }
            ForeignCall::SharedWorkspace => ForeignReply::with_handle(self.workspace),
            ForeignCall::FrontmostApplication { .. } => ForeignReply::with_handle(self.frontmost),
            ForeignCall::CreateObserver { pid } => {
                let status = self.observer_status.get(pid).copied().unwrap_or(0);
                if status == 0 {
                    let handle = 0x7000 + *pid as usize;
                    *self.counts.entry(handle).or_insert(0) += 1;
                    ForeignReply::with_value(0, handle)
                } else {
                    ForeignReply::with_value(status, 0)
                }
            }
            ForeignCall::AddNotification { observer, element, notification } => {
                let name = self.name_of(*notification);
                let status = self
                    .notify_status
                    .iter()
                    .find(|((owner, key), _)| owner == element && *key == name)
                    .map(|(_, status)| *status)
                    .unwrap_or(0);
                if status == 0 {
                    self.subscribed.push((*observer, *element, name));
                }
                ForeignReply::with_status(status)
            }
            ForeignCall::RunLoopSource { observer } => {
                ForeignReply::with_handle(self.sources.get(observer).copied().unwrap_or(0))
            }
            ForeignCall::AddRunLoopSource { source } => {
                self.run_loop.push(*source);
                ForeignReply::nothing()
            }
            ForeignCall::MainScreenFrame => {
                ForeignReply::with_frame(ScreenFrame { x: 0, y: 0, width: 1440, height: 900 })
            }
            ForeignCall::CreateTrustOptions => {
                let handle = self.fresh();
                ForeignReply::with_handle(handle)
            }
            ForeignCall::IsProcessTrusted { .. } => ForeignReply::with_flag(self.trusted),
            ForeignCall::Report { diagnostic } => {
                self.reports.push(diagnostic.message());
                ForeignReply::nothing()
            }
        }
    }

    fn serve(&mut self, call: ForeignCall) -> ForeignReply {
        let reply = self.answer(&call);
        self.log.push(call);
        reply
    }

    fn run<P: Procedure>(&mut self, mut progress: Progress<P, P::Output>) -> P::Output {
        loop {
            match progress {
                Progress::Finished(output) => return output,
                Progress::Pending(state, call) => {
                    let reply = self.serve(call);
                    progress = state.resume(reply);
                }
            }
        }
    }

    /// The literals of the strings that were made, in order.
    fn strings_made(&self) -> Vec<&'static str> {
        self.log
            .iter()
            .filter_map(|call| match call {
                ForeignCall::CreateString { literal } => Some(*literal),
                _ => None,
            })
            .collect()
    }

    /// The writes that were tried, in order, by attribute name and value.
    fn writes(&self) -> Vec<(usize, String, usize)> {
        self.log
            .iter()
            .filter_map(|call| match call {
                ForeignCall::SetAttributeValue { element, attribute, value } => {
                    Some((*element, self.name_of(*attribute), *value))
                }
                _ => None,
            })
            .collect()
    }
}

const SAFARI: &str = "com.apple.Safari";
const WINDOW: usize = 0x900;
const ORIGIN: usize = 0xa10;
const SIZE: usize = 0xa20;

fn borrowed_window() -> Window {
    Window { inner: CopyOnWrite::Borrowed(WINDOW), bundle_id: SAFARI.to_string() }
}

fn frame() -> AXRect {
    AXRect { origin: Unique::new_mut(ORIGIN).unwrap(), size: Unique::new_mut(SIZE).unwrap() }
}

fn safari(element: usize) -> App {
    App { inner: Rc::new_mut(element).unwrap(), pid: 0x77, bundle_id: SAFARI.to_string() }
}

fn constructing_key(error: UnnamedError) -> UnnamedError {
    UnnamedError::Whatever { context: Context::ConstructKey, source: Some(Box::new(error)) }
}

#[test]
fn attributes_have_the_names_of_the_interface() {
    assert_eq!(AccessibilityElementKey::Position.attribute_name(), "AXPosition");
    assert_eq!(AccessibilityElementKey::Size.attribute_name(), "AXSize");
    assert_eq!(AccessibilityElementKey::Windows.attribute_name(), "AXWindows");
    assert_eq!(AccessibilityElementKey::FocusedWindow.attribute_name(), "AXFocusedWindow");
}

#[test]
fn a_string_is_made_and_owned() {
    let mut world = World::default();
    let string = world.run(create_cfstring_from_static_str("AXWindowMoved")).unwrap();
    assert_eq!(world.log, vec![ForeignCall::CreateString { literal: "AXWindowMoved" }]);
    assert_eq!(world.name_of(string.get()), "AXWindowMoved");
    let string = world.run(AccessibilityElementKey::Size.as_cfstring()).unwrap();
    assert_eq!(world.name_of(string.get()), "AXSize");
}

#[test]
fn a_string_that_cannot_be_made_is_an_error() {
    let mut world = World::default();
    world.refused_strings.push("AXWindowMoved");
    assert_eq!(
        world.run(create_cfstring_from_static_str("AXWindowMoved")),
        Err(UnnamedError::CouldNotCreateCFObject)
    );
}

#[test]
fn writing_makes_the_name_writes_and_releases_the_name() {
    let mut world = World::default();
    let window = borrowed_window();
    assert_eq!(world.run(window.set(AccessibilityElementKey::Position, ORIGIN)), Ok(()));
    let name = 0x10010;
    assert_eq!(
        world.log,
        vec![
            ForeignCall::CreateString { literal: "AXPosition" },
            ForeignCall::SetAttributeValue { element: WINDOW, attribute: name, value: ORIGIN },
            ForeignCall::Release { handle: name },
        ]
    );
    assert_eq!(world.live(), Vec::<usize>::new());
}

#[test]
fn writing_without_a_name_is_not_tried() {
    let mut world = World::default();
    world.refused_strings.push("AXSize");
    let window = borrowed_window();
    assert_eq!(
        world.run(window.set(AccessibilityElementKey::Size, SIZE)),
        Err(constructing_key(UnnamedError::CouldNotCreateCFObject))
    );
    assert_eq!(world.log, vec![ForeignCall::CreateString { literal: "AXSize" }]);
}

#[test]
fn a_failed_write_still_releases_the_name() {
    let mut world = World::default();
    world.write_status.insert((WINDOW, "AXPosition"), -25204);
    let window = borrowed_window();
    assert_eq!(
        world.run(window.set(AccessibilityElementKey::Position, ORIGIN)),
        Err(UnnamedError::AXError { code: -25204 })
    );
    assert_eq!(world.log.len(), 3);
    assert_eq!(world.live(), Vec::<usize>::new());
}

#[test]
fn reading_gives_the_owner_of_the_value() {
    let mut world = World::default();
    world.values.insert((0x5077, "AXWindows"), (0, 0xb00));
    let app = safari(0x5077);
    let value = world.run(app.get(AccessibilityElementKey::Windows)).unwrap();
    assert_eq!(value.get(), 0xb00);
    let name = 0x10010;
    assert_eq!(
        world.log,
        vec![
            ForeignCall::CreateString { literal: "AXWindows" },
            ForeignCall::CopyAttributeValue { element: 0x5077, attribute: name },
            ForeignCall::Release { handle: name },
        ]
    );
    assert_eq!(world.live(), vec![0xb00]);
}

#[test]
fn reading_null_where_a_value_is_required_is_an_error() {
    let mut world = World::default();
    world.values.insert((0x5077, "AXWindows"), (0, 0));
    let app = safari(0x5077);
    assert_eq!(
        world.run(app.get(AccessibilityElementKey::Windows)),
        Err(UnnamedError::UnexpectedNull)
    );
}

#[test]
fn a_failed_read_is_the_status_whatever_came_with_it() {
    let mut world = World::default();
    world.values.insert((0x5077, "AXWindows"), (-25212, 0xb00));
    let app = safari(0x5077);
    assert_eq!(
        world.run(app.get(AccessibilityElementKey::Windows)),
        Err(UnnamedError::AXError { code: -25212 })
    );
    assert_eq!(
        world.run(app.get_raw(AccessibilityElementKey::Windows)),
        Err(UnnamedError::AXError { code: -25212 })
    );
    assert_eq!(world.live(), Vec::<usize>::new());
}

#[test]
fn reading_without_a_name_is_not_tried() {
    let mut world = World::default();
    world.refused_strings.push("AXWindows");
    let app = safari(0x5077);
    assert_eq!(
        world.run(app.get(AccessibilityElementKey::Windows)),
        Err(constructing_key(UnnamedError::CouldNotCreateCFObject))
    );
    assert_eq!(
        world.run(app.get_raw(AccessibilityElementKey::Windows)),
        Err(constructing_key(UnnamedError::CouldNotCreateCFObject))
    );
    assert_eq!(world.log.len(), 2);
}

#[test]
fn probing_tells_absence_from_failure() {
    let mut world = World::default();
    world.values.insert((0x5077, "AXFocusedWindow"), (0, 0));
    let app = safari(0x5077);
    assert_eq!(world.run(app.get_raw(AccessibilityElementKey::FocusedWindow)), Ok(None));
    world.values.insert((0x5077, "AXFocusedWindow"), (0, 0xc00));
    assert_eq!(world.run(app.get_raw(AccessibilityElementKey::FocusedWindow)), Ok(Some(0xc00)));
    world.values.insert((0x5077, "AXFocusedWindow"), (-25204, 0));
    assert_eq!(
        world.run(app.get_raw(AccessibilityElementKey::FocusedWindow)),
        Err(UnnamedError::AXError { code: -25204 })
    );
}

#[test]
fn relayout_sets_position_then_size() {
    let mut world = World::default();
    let window = borrowed_window();
    assert_eq!(world.run(window.relayout(&frame())), Ok(()));
    assert_eq!(
        world.writes(),
        vec![(WINDOW, "AXPosition".to_string(), ORIGIN), (WINDOW, "AXSize".to_string(), SIZE)]
    );
    assert_eq!(world.log.len(), 6);
    assert_eq!(world.live(), Vec::<usize>::new());
}

#[test]
fn relayout_twice_leaves_the_window_where_once_put_it() {
    let mut world = World::default();
    let window = borrowed_window();
    assert_eq!(world.run(window.relayout(&frame())), Ok(()));
    let once = world.placed.clone();
    assert_eq!(world.run(window.relayout(&frame())), Ok(()));
    assert_eq!(world.placed, once);
    assert_eq!(world.placed.get(&(WINDOW, "AXPosition".to_string())), Some(&ORIGIN));
    assert_eq!(world.placed.get(&(WINDOW, "AXSize".to_string())), Some(&SIZE));
    world.write_status.insert((WINDOW, "AXSize"), -25204);
    assert!(world.run(window.relayout(&frame())).is_err());
    assert_eq!(world.placed, once);
}

#[test]
fn size_is_not_tried_after_position_failed() {
    let mut world = World::default();
    world.write_status.insert((WINDOW, "AXPosition"), -25202);
    let window = borrowed_window();
    assert_eq!(
        world.run(window.relayout(&frame())),
        Err(UnnamedError::Whatever {
            context: Context::SetPosition { bundle_id: SAFARI.to_string() },
            source: Some(Box::new(UnnamedError::AXError { code: -25202 })),
        })
    );
    assert_eq!(world.strings_made(), vec!["AXPosition"]);
    assert_eq!(world.writes().len(), 1);
    assert!(world.placed.is_empty());
}

#[test]
fn a_failed_size_leaves_the_position_set() {
    let mut world = World::default();
    world.write_status.insert((WINDOW, "AXSize"), -25201);
    let window = borrowed_window();
    let error = world.run(window.relayout(&frame())).unwrap_err();
    assert_eq!(
        error,
        with_context(
            Context::SetSize { bundle_id: SAFARI.to_string() },
            UnnamedError::AXError { code: -25201 }
        )
    );
    assert_eq!(error.message(), "Failed to set com.apple.Safari size");
    assert_eq!(world.placed.get(&(WINDOW, "AXPosition".to_string())), Some(&ORIGIN));
    assert_eq!(world.placed.get(&(WINDOW, "AXSize".to_string())), None);
}

#[test]
fn relayout_without_a_name_fails_in_the_context_of_the_write() {
    let mut world = World::default();
    world.refused_strings.push("AXPosition");
    let window = borrowed_window();
    assert_eq!(
        world.run(window.relayout(&frame())),
        Err(UnnamedError::Whatever {
            context: Context::SetPosition { bundle_id: SAFARI.to_string() },
            source: Some(Box::new(constructing_key(UnnamedError::CouldNotCreateCFObject))),
        })
    );
    assert_eq!(world.log.len(), 1);
}

#[test]
fn magic_id_is_the_number_that_the_interface_gives() {
    let mut world = World::default();
    world.window_ids.insert(WINDOW, (0, 4242));
    let window = borrowed_window();
    assert_eq!(world.run(window.magic_id()), Ok(WindowMagicId(4242)));
    assert_eq!(world.log, vec![ForeignCall::ElementWindow { element: WINDOW }]);
}

#[test]
fn magic_id_failure_carries_the_status() {
    let mut world = World::default();
    world.window_ids.insert(WINDOW, (-25200, 4242));
    let window = borrowed_window();
    assert_eq!(
        world.run(window.magic_id()),
        Err(UnnamedError::Whatever {
            context: Context::MagicWindowId,
            source: Some(Box::new(UnnamedError::AXError { code: -25200 })),
        })
    );
}

#[test]
fn window_accessors() {
    let window = borrowed_window();
    assert_eq!(window.bundle_id().as_ref(), SAFARI);
    assert_eq!(window.inner(), WINDOW);
    let app = safari(0x5077);
    assert_eq!(app.pid(), 0x77);
    assert_eq!(app.bundle_id(), SAFARI);
    assert_eq!(app.inner(), 0x5077);
    assert_eq!(app.release(), ForeignCall::Release { handle: 0x5077 });
}

#[test]
fn borrowing_a_null_element_fails_without_a_call() {
    let mut world = World::default();
    assert_eq!(world.run(Window::borrow_inner(0)), Err(UnnamedError::UnexpectedNull));
    assert!(world.log.is_empty());
}

#[test]
fn a_borrowed_window_knows_its_bundle_and_releases_nothing() {
    let mut world = World::default();
    world.element_pids.insert(WINDOW, (0, 0x77));
    world.applications.insert(0x77, 0x3000);
    world.bundle_ids.insert(0x3000, SAFARI);
    let window = world.run(Window::borrow_inner(WINDOW)).unwrap();
    assert_eq!(window.inner, CopyOnWrite::Borrowed(WINDOW));
    assert_eq!(window.bundle_id, SAFARI);
    assert_eq!(
        world.log[..3],
        [
            ForeignCall::ElementPid { element: WINDOW },
            ForeignCall::RunningApplication { pid: 0x77 },
            ForeignCall::BundleIdentifier { application: 0x3000 },
        ]
    );
    assert_eq!(world.log.len(), 4);
    assert_eq!(window.release(), None);
}

#[test]
fn borrowing_fails_at_the_stage_that_gives_null() {
    let mut world = World::default();
    world.element_pids.insert(WINDOW, (-25202, 0));
    assert_eq!(
        world.run(Window::borrow_inner(WINDOW)),
        Err(UnnamedError::Whatever {
            context: Context::WindowPid,
            source: Some(Box::new(UnnamedError::AXError { code: -25202 })),
        })
    );
    assert_eq!(world.log.len(), 1);

    let mut world = World::default();
    world.element_pids.insert(WINDOW, (0, 0x77));
    assert_eq!(world.run(Window::borrow_inner(WINDOW)), Err(UnnamedError::UnexpectedNull));
    assert_eq!(world.log.len(), 2);

    let mut world = World::default();
    world.element_pids.insert(WINDOW, (0, 0x77));
    world.applications.insert(0x77, 0x3000);
    assert_eq!(world.run(Window::borrow_inner(WINDOW)), Err(UnnamedError::UnexpectedNull));
    assert_eq!(world.log.len(), 3);
}

#[test]
fn an_app_with_a_given_bundle_is_not_asked_for_it() {
    let mut world = World::default();
    world.application_pids.insert(0x3000, 0x77);
    let app = world
        .run(App::from_nsapp(CopyOnWrite::Borrowed(0x3000), Some(SAFARI.to_string())))
        .unwrap();
    assert_eq!(app, safari(0x5077));
    assert_eq!(
        world.log,
        vec![
            ForeignCall::ProcessIdentifier { application: 0x3000 },
            ForeignCall::CreateApplicationElement { pid: 0x77 },
        ]
    );
}

#[test]
fn an_owned_running_application_is_released_once_the_app_is_made() {
    let mut world = World::default();
    world.application_pids.insert(0x3000, 0x77);
    world.counts.insert(0x3000, 1);
    let owned = CopyOnWrite::Owned(Rc::new_mut(0x3000).unwrap());
    let app = world.run(App::from_nsapp(owned, Some(SAFARI.to_string()))).unwrap();
    assert_eq!(app.pid(), 0x77);
    assert_eq!(world.log.last(), Some(&ForeignCall::Release { handle: 0x3000 }));
    assert_eq!(world.count(0x3000), 0);
    assert_eq!(world.live(), vec![0x5077]);
}

#[test]
fn an_app_without_a_given_bundle_reports_its_own() {
    let mut world = World::default();
    world.application_pids.insert(0x3000, 0x77);
    world.bundle_ids.insert(0x3000, "com.apple.finder");
    let app = world.run(App::from_nsapp(CopyOnWrite::Borrowed(0x3000), None)).unwrap();
    assert_eq!(app.bundle_id(), "com.apple.finder");
    assert_eq!(app.inner(), 0x5077);
    assert_eq!(world.log.len(), 4);
}

#[test]
fn an_app_without_an_element_cannot_be_made() {
    let mut world = World::default();
    world.application_pids.insert(0x3000, 0x77);
    world.refused_elements.push(0x77);
    assert_eq!(
        world.run(App::from_nsapp(CopyOnWrite::Borrowed(0x3000), None)),
        Err(UnnamedError::CouldNotCreateCFObject)
    );
    assert_eq!(world.log.len(), 2);
}

#[test]
fn an_app_without_a_bundle_identifier_releases_its_element() {
    let mut world = World::default();
    world.application_pids.insert(0x3000, 0x77);
    world.counts.insert(0x3000, 1);
    let owned = CopyOnWrite::Owned(Rc::new_mut(0x3000).unwrap());
    assert_eq!(world.run(App::from_nsapp(owned, None)), Err(UnnamedError::UnexpectedNull));
    assert_eq!(
        world.log[3..],
        [ForeignCall::Release { handle: 0x5077 }, ForeignCall::Release { handle: 0x3000 }]
    );
    assert_eq!(world.live(), Vec::<usize>::new());
}

#[test]
fn windows_are_retained_and_the_array_is_released() {
    let mut world = World::default();
    world.values.insert((0x5077, "AXWindows"), (0, 0xb00));
    world.arrays.insert(0xb00, vec![0x900, 0x910]);
    world.counts.insert(0x900, 1);
    world.counts.insert(0x910, 1);
    let app = safari(0x5077);
    let windows = world.run(app.get_windows()).unwrap();
    assert_eq!(windows, Windows { handles: vec![0x900, 0x910], bundle_id: SAFARI.to_string() });
    assert_eq!(windows.len(), 2);
    let first = windows.get(0).unwrap();
    assert_eq!(first.inner, CopyOnWrite::Owned(Rc::<AXUIElement>::new_mut(0x900).unwrap()));
    assert_eq!(first.bundle_id, SAFARI);
    assert_eq!(windows.get(1).unwrap().inner(), 0x910);
    assert_eq!(windows.get(2), None);
    assert_eq!(
        world.log[3..],
        [
            ForeignCall::ArrayElements { array: 0xb00 },
            ForeignCall::Retain { handle: 0x900 },
            ForeignCall::Retain { handle: 0x910 },
            ForeignCall::Release { handle: 0xb00 },
        ]
    );
    assert_eq!(world.count(0x900), 2);
    assert_eq!(world.count(0x910), 2);
    assert_eq!(world.count(0xb00), 0);
    assert_eq!(first.release(), Some(ForeignCall::Release { handle: 0x900 }));
}

#[test]
fn an_app_without_windows_has_an_empty_list() {
    let mut world = World::default();
    world.values.insert((0x5077, "AXWindows"), (0, 0xb00));
    world.arrays.insert(0xb00, vec![]);
    let app = safari(0x5077);
    let windows = world.run(app.get_windows()).unwrap();
    assert_eq!(windows.len(), 0);
    assert_eq!(windows.get(0), None);
    assert_eq!(world.live(), Vec::<usize>::new());
}

#[test]
fn a_null_window_fails_the_listing_and_releases_the_others() {
    let mut world = World::default();
    world.values.insert((0x5077, "AXWindows"), (0, 0xb00));
    world.arrays.insert(0xb00, vec![0x900, 0x910, 0, 0x930]);
    world.counts.insert(0x900, 1);
    world.counts.insert(0x910, 1);
    world.counts.insert(0x930, 1);
    let app = safari(0x5077);
    assert_eq!(world.run(app.get_windows()), Err(UnnamedError::UnexpectedNull));
    assert_eq!(
        world.log[4..],
        [
            ForeignCall::Retain { handle: 0x900 },
            ForeignCall::Retain { handle: 0x910 },
            ForeignCall::Release { handle: 0x900 },
            ForeignCall::Release { handle: 0x910 },
            ForeignCall::Release { handle: 0xb00 },
        ]
    );
    assert_eq!(world.count(0x900), 1);
    assert_eq!(world.count(0x910), 1);
    assert_eq!(world.count(0x930), 1);
}

#[test]
fn windows_that_cannot_be_read_fail_in_context() {
    let mut world = World::default();
    world.values.insert((0x5077, "AXWindows"), (-25204, 0));
    let app = safari(0x5077);
    assert_eq!(
        world.run(app.get_windows()),
        Err(UnnamedError::Whatever {
            context: Context::AppWindows,
            source: Some(Box::new(UnnamedError::AXError { code: -25204 })),
        })
    );
}

#[test]
fn an_app_without_a_focused_window_has_none() {
    let mut world = World::default();
    world.values.insert((0x5077, "AXFocusedWindow"), (0, 0));
    let app = safari(0x5077);
    assert_eq!(world.run(app.focused_window()), Ok(None));
}

#[test]
fn the_focused_window_is_owned() {
    let mut world = World::default();
    world.values.insert((0x5077, "AXFocusedWindow"), (0, 0x900));
    let app = safari(0x5077);
    let window = world.run(app.focused_window()).unwrap().unwrap();
    assert_eq!(window.inner, CopyOnWrite::Owned(Rc::new_mut(0x900).unwrap()));
    assert_eq!(window.bundle_id, SAFARI);
    assert_eq!(world.count(0x900), 1);
    assert_eq!(window.release(), Some(ForeignCall::Release { handle: 0x900 }));
}

#[test]
fn a_focused_window_that_cannot_be_read_fails_in_context() {
    let mut world = World::default();
    world.values.insert((0x5077, "AXFocusedWindow"), (-25211, 0));
    let app = safari(0x5077);
    assert_eq!(
        world.run(app.focused_window()),
        Err(UnnamedError::Whatever {
            context: Context::OptionalFocusedWindow,
            source: Some(Box::new(UnnamedError::AXError { code: -25211 })),
        })
    );
}
