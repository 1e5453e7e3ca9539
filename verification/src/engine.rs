//! What happens when a window moves and when a chord is played.
//!
//! Both procedures read and change the store of layout assignments and move
//! windows through the accessibility interface. A failure while a window is
//! moved is reported and never ends the procedure that met it.

use vstd::prelude::*;

use crate::assignments::{
    changed, effective, table_of, Assignments, LayoutAssignments, StoreChange,
    WindowLayoutAssignment,
};
use crate::error::{Context, UnnamedError};
use crate::foreign::{Diagnostic, ForeignCall, ForeignReply, Procedure, Progress};
use crate::keys::Command;
use crate::layout::{LayoutPreset, LayoutPresets};
use crate::memory::CopyOnWrite;
use crate::wrappers::{
    in_context, magic_id_of, with_context, AccessibilityElement, App, AppCreation,
    FocusedWindow, MagicIdQuery, Relayout, Window, WindowBorrow, WindowListing, WindowMagicId,
    Windows,
};

verus! {

/// How a notification was dealt with.
#[derive(Clone, Copy, Debug, PartialEq, Eq, Structural)]
pub enum Notified {
    /// The element was no usable window; this was reported.
    NotAWindow,
    /// The window could not be identified; this was reported.
    Unidentified,
    /// The window is not kept in its preset and was left where it is.
    Idle { assignment: WindowLayoutAssignment },
    /// The window was moved back to its preset.
    Relaid { preset: LayoutPreset },
    /// The window could not be moved back to its preset; this was reported.
    RelayoutFailed { preset: LayoutPreset },
}

/// Dealing with the notification that a window was moved or resized.
#[allow(inconsistent_fields)]
#[derive(Debug, PartialEq, Eq)]
pub enum Notification {
    /// The element is being made a window.
    Borrowing { borrow: WindowBorrow },
    /// Waits for the identifier of the window.
    Identifying { window: Window },
    /// The window is being moved to its preset.
    Moving { window: Window, preset: LayoutPreset, relayout: Relayout },
    /// Waits for a report to be printed.
    Reporting { window: Option<Window>, outcome: Notified },
    /// Waits for the release of the window's element.
    Closing { outcome: Notified },
}

impl Notification {
    /// The end: the window is given up, and the outcome follows.
    pub open spec fn finish(window: Window, outcome: Notified) -> Progress<Notification, Notified> {
        match window.inner.release_owed() {
            Some(call) => Progress::Pending(Notification::Closing { outcome }, call),
            None => Progress::Finished(outcome),
        }
    }

    /// Goes on after a step of making the window.
    pub open spec fn after_borrow(step: Progress<WindowBorrow, Result<Window, UnnamedError>>)
        -> Progress<Notification, Notified> {
        match step {
            Progress::Pending(borrow, call) => Progress::Pending(
                Notification::Borrowing { borrow },
                call,
            ),
            Progress::Finished(Err(error)) => Progress::Pending(
                Notification::Reporting { window: None, outcome: Notified::NotAWindow },
                ForeignCall::Report { diagnostic: Diagnostic::ObservedWindow { error } },
            ),
            Progress::Finished(Ok(window)) => Progress::Pending(
                Notification::Identifying { window },
                ForeignCall::ElementWindow { element: window.element() },
            ),
        }
    }

    /// Goes on after a step of moving the window.
    pub open spec fn after_move(
        window: Window,
        preset: LayoutPreset,
        step: Progress<Relayout, Result<(), UnnamedError>>,
    ) -> Progress<Notification, Notified> {
        match step {
            Progress::Pending(relayout, call) => Progress::Pending(
                Notification::Moving { window, preset, relayout },
                call,
            ),
            Progress::Finished(Err(error)) => Progress::Pending(
                Notification::Reporting {
                    window: Some(window),
                    outcome: Notified::RelayoutFailed { preset },
                },
                ForeignCall::Report { diagnostic: Diagnostic::ObservedRelayout { error } },
            ),
            Progress::Finished(Ok(())) => Self::finish(window, Notified::Relaid { preset }),
        }
    }

    /// The first step: that of making a window of the element.
    pub open spec fn first_step(element: usize) -> Progress<Notification, Notified> {
        Self::after_borrow(WindowBorrow::first_step(element))
    }

    /// The step after a reply, and the store after it.
    ///
    /// Once the window is identified it is governed by its entry in the
    /// store or, if it has none, by the default assignment, which it then
    /// gets as its entry. A window that is kept in its preset is moved
    /// there; any other is left alone. Whatever fails is reported, and the
    /// procedure ends without an error.
    pub open spec fn next_step(self, store: Assignments, presets: &LayoutPresets, reply: ForeignReply)
        -> (Progress<Notification, Notified>, Assignments) {
        match self {
            Notification::Borrowing { borrow } => (
                Self::after_borrow(borrow.next_step(reply)),
                store,
            ),
            Notification::Identifying { window } => match magic_id_of(reply.status, reply.window) {
                Err(error) => (
                    Progress::Pending(
                        Notification::Reporting {
                            window: Some(window),
                            outcome: Notified::Unidentified,
                        },
                        ForeignCall::Report { diagnostic: Diagnostic::WindowMagicId { error } },
                    ),
                    store,
                ),
                Ok(id) => {
                    let assignment = effective(store, window.bundle_id@, id@);
                    let seen = changed(
                        store,
                        StoreChange::Observe { bundle_id: window.bundle_id@, window: id@ },
                    );
                    if assignment.enabled {
                        (
                            Self::after_move(
                                window,
                                assignment.preset,
                                Relayout::first_step(
                                    window.element(),
                                    window.bundle_id,
                                    presets.origin_of(assignment.preset),
                                    presets.size_of(assignment.preset),
                                ),
                            ),
                            seen,
                        )
                    } else {
                        (Self::finish(window, Notified::Idle { assignment }), seen)
                    }
                },
            },
            Notification::Moving { window, preset, relayout } => (
                Self::after_move(window, preset, relayout.next_step(reply)),
                store,
            ),
            Notification::Reporting { window, outcome } => (
                match window {
                    Some(window) => Self::finish(window, outcome),
                    None => Progress::Finished(outcome),
                },
                store,
            ),
            Notification::Closing { outcome } => (Progress::Finished(outcome), store),
        }
    }

    fn end(window: Window, outcome: Notified) -> (progress: Progress<Notification, Notified>)
        ensures
            progress == Self::finish(window, outcome),
    {
        match window.release() {
            Some(call) => Progress::Pending(Notification::Closing { outcome }, call),
            None => Progress::Finished(outcome),
        }
    }

    fn borrowed(step: Progress<WindowBorrow, Result<Window, UnnamedError>>) -> (progress: Progress<
        Notification,
        Notified,
    >)
        ensures
            progress == Self::after_borrow(step),
    {
        match step {
            Progress::Pending(borrow, call) => Progress::Pending(
                Notification::Borrowing { borrow },
                call,
            ),
            Progress::Finished(Err(error)) => Progress::Pending(
                Notification::Reporting { window: None, outcome: Notified::NotAWindow },
                ForeignCall::Report { diagnostic: Diagnostic::ObservedWindow { error } },
            ),
            Progress::Finished(Ok(window)) => {
                let element = window.inner();
                Progress::Pending(
                    Notification::Identifying { window },
                    ForeignCall::ElementWindow { element },
                )
            },
        }
    }

    fn moved(
        window: Window,
        preset: LayoutPreset,
        step: Progress<Relayout, Result<(), UnnamedError>>,
    ) -> (progress: Progress<Notification, Notified>)
        ensures
            progress == Self::after_move(window, preset, step),
    {
        match step {
            Progress::Pending(relayout, call) => Progress::Pending(
                Notification::Moving { window, preset, relayout },
                call,
            ),
            Progress::Finished(Err(error)) => Progress::Pending(
                Notification::Reporting {
                    window: Some(window),
                    outcome: Notified::RelayoutFailed { preset },
                },
                ForeignCall::Report { diagnostic: Diagnostic::ObservedRelayout { error } },
            ),
            Progress::Finished(Ok(())) => Self::end(window, Notified::Relaid { preset }),
        }
    }

    /// Takes the reply to the pending call and makes the next step.
    pub fn resume(
        self,
        store: &mut LayoutAssignments,
        presets: &LayoutPresets,
        reply: ForeignReply,
    ) -> (progress: Progress<Notification, Notified>)
        ensures
            (progress, final(store)@) == self.next_step(old(store)@, presets, reply),
    {
        match self {
            Notification::Borrowing { borrow } => Self::borrowed(borrow.resume(reply)),
            Notification::Identifying { window } => match MagicIdQuery.resume(reply) {
                Progress::Finished(Err(error)) => Progress::Pending(
                    Notification::Reporting {
                        window: Some(window),
                        outcome: Notified::Unidentified,
                    },
                    ForeignCall::Report { diagnostic: Diagnostic::WindowMagicId { error } },
                ),
                Progress::Finished(Ok(id)) => {
                    let assignment = store.observe(window.bundle_id.as_str(), id);
                    if assignment.enabled {
                        let step = window.relayout(presets.rect(assignment.preset));
                        Self::moved(window, assignment.preset, step)
                    } else {
                        Self::end(window, Notified::Idle { assignment })
                    }
                },
                Progress::Pending(_, _) => Self::end(window, Notified::Unidentified),
            },
            Notification::Moving { window, preset, relayout } => Self::moved(
                window,
                preset,
                relayout.resume(reply),
            ),
            Notification::Reporting { window, outcome } => match window {
                Some(window) => Self::end(window, outcome),
                None => Progress::Finished(outcome),
            },
            Notification::Closing { outcome } => Progress::Finished(outcome),
        }
    }
}

/// Begins dealing with the notification that the window at `element` was
/// moved or resized.
pub fn observer_callback(element: usize) -> (progress: Progress<Notification, Notified>)
    ensures
        progress == Notification::first_step(element),
{
    Notification::borrowed(Window::borrow_inner(element))
}

/// Carrying out a command on the focused window of the frontmost
/// application.
#[derive(Debug, PartialEq, Eq)]
pub enum LayoutUpdate {
    /// Waits for the shared workspace.
    Workspace { command: Command },
    /// Waits for the frontmost application.
    Frontmost { command: Command },
    /// The application is being made.
    Creating { command: Command, creation: AppCreation },
    /// The focused window is being asked for.
    Focusing { command: Command, app: App, focus: FocusedWindow },
    /// Waits for the report that there is no focused window.
    NoWindow { app: App },
    /// Waits for the identifier of the focused window.
    IdentifyingFocused { command: Command, app: App, focused: Window },
    /// The windows of the application are being listed.
    Listing { app: App, focused: Window, listing: WindowListing },
    /// Waits for the identifier of the window at `index`.
    Identifying { app: App, focused: Window, windows: Windows, index: usize },
    /// The window at `index` is being moved to its preset.
    Moving { app: App, focused: Window, windows: Windows, index: usize, relayout: Relayout },
    /// Waits for the report that the window at `index` could not be moved.
    Reporting { app: App, focused: Window, windows: Windows, index: usize },
    /// Waits for the release of the window before `next`.
    Dropping { app: App, focused: Window, windows: Windows, next: usize },
    /// After a failure: waits for the release of the window before `next`.
    Failing { app: App, focused: Window, windows: Windows, next: usize, error: UnnamedError },
    /// Waits for the release of the focused window.
    ReleasingFocused { app: App, result: Result<(), UnnamedError> },
    /// Waits for the release of the application.
    ReleasingApp { result: Result<(), UnnamedError> },
}

/// The change that a command makes to the store for the focused window.
pub open spec fn change_of(command: Command, bundle_id: Seq<char>, window: u32) -> StoreChange {
    match command {
        Command::Assign(preset) => StoreChange::Assign { bundle_id, window, preset },
        Command::Toggle => StoreChange::Toggle { bundle_id, window },
    }
}

impl LayoutUpdate {
    /// The end: the application is released, and the result follows.
    pub open spec fn close_app(app: App, result: Result<(), UnnamedError>) -> Progress<
        LayoutUpdate,
        Result<(), UnnamedError>,
    > {
        Progress::Pending(
            LayoutUpdate::ReleasingApp { result },
            ForeignCall::Release { handle: app.element() },
        )
    }

    /// The end: the focused window is released, then the application, and
    /// the result follows.
    pub open spec fn close(app: App, focused: Window, result: Result<(), UnnamedError>)
        -> Progress<LayoutUpdate, Result<(), UnnamedError>> {
        match focused.inner.release_owed() {
            Some(call) => Progress::Pending(LayoutUpdate::ReleasingFocused { app, result }, call),
            None => Self::close_app(app, result),
        }
    }

    /// Goes on with the window at `index`: it is asked for its identifier.
    /// Past the last window the procedure succeeds.
    pub open spec fn visit(app: App, focused: Window, windows: Windows, index: usize) -> Progress<
        LayoutUpdate,
        Result<(), UnnamedError>,
    > {
        match windows.window_at(index as int) {
            Some(window) => Progress::Pending(
                LayoutUpdate::Identifying { app, focused, windows, index },
                ForeignCall::ElementWindow { element: window.element() },
            ),
            None => Self::close(app, focused, Ok(())),
        }
    }

    /// Gives up the window at `index` and goes on with the next.
    pub open spec fn drop_window(app: App, focused: Window, windows: Windows, index: usize)
        -> Progress<LayoutUpdate, Result<(), UnnamedError>> {
        match windows.window_at(index as int) {
            Some(window) => Progress::Pending(
                LayoutUpdate::Dropping { app, focused, windows, next: (index + 1) as usize },
                ForeignCall::Release { handle: window.element() },
            ),
            None => Self::close(app, focused, Ok(())),
        }
    }

    /// After a failure: gives up the windows from `index` on, one by one,
    /// then the focused window and the application, and fails.
    pub open spec fn fail_from(
        app: App,
        focused: Window,
        windows: Windows,
        index: usize,
        error: UnnamedError,
    ) -> Progress<LayoutUpdate, Result<(), UnnamedError>> {
        match windows.window_at(index as int) {
            Some(window) => Progress::Pending(
                LayoutUpdate::Failing {
                    app,
                    focused,
                    windows,
                    next: (index + 1) as usize,
                    error,
                },
                ForeignCall::Release { handle: window.element() },
            ),
            None => Self::close(app, focused, Err(error)),
        }
    }

    /// Goes on after a step of moving the window at `index`. A failure is
    /// reported, and the procedure goes on with the next window either way.
    pub open spec fn after_move(
        app: App,
        focused: Window,
        windows: Windows,
        index: usize,
        step: Progress<Relayout, Result<(), UnnamedError>>,
    ) -> Progress<LayoutUpdate, Result<(), UnnamedError>> {
        match step {
            Progress::Pending(relayout, call) => Progress::Pending(
                LayoutUpdate::Moving { app, focused, windows, index, relayout },
                call,
            ),
            Progress::Finished(Err(error)) => Progress::Pending(
                LayoutUpdate::Reporting { app, focused, windows, index },
                ForeignCall::Report { diagnostic: Diagnostic::Relayout { error } },
            ),
            Progress::Finished(Ok(())) => Self::drop_window(app, focused, windows, index),
        }
    }

    /// Goes on after a step of listing the windows.
    pub open spec fn after_listing(
        app: App,
        focused: Window,
        step: Progress<WindowListing, Result<Windows, UnnamedError>>,
    ) -> Progress<LayoutUpdate, Result<(), UnnamedError>> {
        match step {
            Progress::Pending(listing, call) => Progress::Pending(
                LayoutUpdate::Listing { app, focused, listing },
                call,
            ),
            Progress::Finished(Err(error)) => Self::close(app, focused, Err(error)),
            Progress::Finished(Ok(windows)) => Self::visit(app, focused, windows, 0),
        }
    }

    /// Goes on after a step of asking for the focused window.
    pub open spec fn after_focus(
        command: Command,
        app: App,
        step: Progress<FocusedWindow, Result<Option<Window>, UnnamedError>>,
    ) -> Progress<LayoutUpdate, Result<(), UnnamedError>> {
        match step {
            Progress::Pending(focus, call) => Progress::Pending(
                LayoutUpdate::Focusing { command, app, focus },
                call,
            ),
            Progress::Finished(Err(error)) => Self::close_app(
                app,
                Err(in_context(Context::FocusedWindowOfApp, error)),
            ),
            Progress::Finished(Ok(None)) => Progress::Pending(
                LayoutUpdate::NoWindow { app },
                ForeignCall::Report { diagnostic: Diagnostic::NoFocusedWindow },
            ),
            Progress::Finished(Ok(Some(focused))) => Progress::Pending(
                LayoutUpdate::IdentifyingFocused { command, app, focused },
                ForeignCall::ElementWindow { element: focused.element() },
            ),
        }
    }

    /// Goes on after a step of making the application, and the store after
    /// it: once the application is made, its bundle has a table.
    pub open spec fn after_creation(
        command: Command,
        store: Assignments,
        step: Progress<AppCreation, Result<App, UnnamedError>>,
    ) -> (Progress<LayoutUpdate, Result<(), UnnamedError>>, Assignments) {
        match step {
            Progress::Pending(creation, call) => (
                Progress::Pending(LayoutUpdate::Creating { command, creation }, call),
                store,
            ),
            Progress::Finished(Err(error)) => (Progress::Finished(Err(error)), store),
            Progress::Finished(Ok(app)) => (
                Self::after_focus(
                    command,
                    app,
                    FocusedWindow::first_step(app.element(), app.bundle_id),
                ),
                store.insert(app.bundle_id@, table_of(store, app.bundle_id@)),
            ),
        }
    }

    /// The first step: the call that asks for the shared workspace.
    pub open spec fn first_step(command: Command) -> Progress<
        LayoutUpdate,
        Result<(), UnnamedError>,
    > {
        Progress::Pending(LayoutUpdate::Workspace { command }, ForeignCall::SharedWorkspace)
    }

    /// The step after a reply, and the store after it.
    ///
    /// The command changes the entry of the focused window of the frontmost
    /// application as [`change_of`] says. Then every window of that
    /// application is seen in turn: it is governed by its own entry, or by
    /// the default assignment if it has none, and is moved to its own
    /// preset if it is kept there. A window that cannot be moved is
    /// reported and the next one is seen. An application without a focused
    /// window is reported and nothing changes. Everything that the
    /// procedure came to own is released before it ends.
    pub open spec fn next_step(self, store: Assignments, presets: &LayoutPresets, reply: ForeignReply)
        -> (Progress<LayoutUpdate, Result<(), UnnamedError>>, Assignments) {
        match self {
            LayoutUpdate::Workspace { command } => (
                if reply.handle == 0 {
                    Progress::Finished(Err(UnnamedError::UnexpectedNull))
                } else {
                    Progress::Pending(
                        LayoutUpdate::Frontmost { command },
                        ForeignCall::FrontmostApplication { workspace: reply.handle },
                    )
                },
                store,
            ),
            LayoutUpdate::Frontmost { command } => if reply.handle == 0 {
                (Progress::Finished(Err(UnnamedError::UnexpectedNull)), store)
            } else {
                Self::after_creation(
                    command,
                    store,
                    AppCreation::first_step(CopyOnWrite::Borrowed(reply.handle), None),
                )
            },
            LayoutUpdate::Creating { command, creation } => Self::after_creation(
                command,
                store,
                creation.next_step(reply),
            ),
            LayoutUpdate::Focusing { command, app, focus } => (
                Self::after_focus(command, app, focus.next_step(reply)),
                store,
            ),
            LayoutUpdate::NoWindow { app } => (Self::close_app(app, Ok(())), store),
            LayoutUpdate::IdentifyingFocused { command, app, focused } => match magic_id_of(
                reply.status,
                reply.window,
            ) {
                Err(error) => (
                    Self::close(app, focused, Err(in_context(Context::FocusedMagicId, error))),
                    store,
                ),
                Ok(id) => (
                    Self::after_listing(
                        app,
                        focused,
                        WindowListing::first_step(app.element(), app.bundle_id),
                    ),
                    changed(store, change_of(command, app.bundle_id@, id@)),
                ),
            },
            LayoutUpdate::Listing { app, focused, listing } => (
                Self::after_listing(app, focused, listing.next_step(reply)),
                store,
            ),
            LayoutUpdate::Identifying { app, focused, windows, index } => match windows.window_at(
                index as int,
            ) {
                None => (Self::close(app, focused, Ok(())), store),
                Some(window) => match magic_id_of(reply.status, reply.window) {
                    Err(error) => (
                        Self::fail_from(
                            app,
                            focused,
                            windows,
                            index,
                            in_context(Context::WindowMagicId, error),
                        ),
                        store,
                    ),
                    Ok(id) => {
                        let assignment = effective(store, window.bundle_id@, id@);
                        let seen = changed(
                            store,
                            StoreChange::Observe { bundle_id: window.bundle_id@, window: id@ },
                        );
                        if assignment.enabled {
                            (
                                Self::after_move(
                                    app,
                                    focused,
                                    windows,
                                    index,
                                    Relayout::first_step(
                                        window.element(),
                                        window.bundle_id,
                                        presets.origin_of(assignment.preset),
                                        presets.size_of(assignment.preset),
                                    ),
                                ),
                                seen,
                            )
                        } else {
                            (Self::drop_window(app, focused, windows, index), seen)
                        }
                    },
                },
            },
            LayoutUpdate::Moving { app, focused, windows, index, relayout } => (
                Self::after_move(app, focused, windows, index, relayout.next_step(reply)),
                store,
            ),
            LayoutUpdate::Reporting { app, focused, windows, index } => (
                Self::drop_window(app, focused, windows, index),
                store,
            ),
            LayoutUpdate::Dropping { app, focused, windows, next } => (
                Self::visit(app, focused, windows, next),
                store,
            ),
            LayoutUpdate::Failing { app, focused, windows, next, error } => (
                Self::fail_from(app, focused, windows, next, error),
                store,
            ),
            LayoutUpdate::ReleasingFocused { app, result } => (Self::close_app(app, result), store),
            LayoutUpdate::ReleasingApp { result } => (Progress::Finished(result), store),
        }
    }

    fn end_app(app: App, result: Result<(), UnnamedError>) -> (progress: Progress<
        LayoutUpdate,
        Result<(), UnnamedError>,
    >)
        ensures
            progress == Self::close_app(app, result),
    {
        Progress::Pending(LayoutUpdate::ReleasingApp { result }, app.release())
    }

    fn end(app: App, focused: Window, result: Result<(), UnnamedError>) -> (progress: Progress<
        LayoutUpdate,
        Result<(), UnnamedError>,
    >)
        ensures
            progress == Self::close(app, focused, result),
    {
        match focused.release() {
            Some(call) => Progress::Pending(LayoutUpdate::ReleasingFocused { app, result }, call),
            None => Self::end_app(app, result),
        }
    }

    fn see(app: App, focused: Window, windows: Windows, index: usize) -> (progress: Progress<
        LayoutUpdate,
        Result<(), UnnamedError>,
    >)
        ensures
            progress == Self::visit(app, focused, windows, index),
    {
        match windows.get(index) {
            Some(window) => {
                let element = window.inner();
                Progress::Pending(
                    LayoutUpdate::Identifying { app, focused, windows, index },
                    ForeignCall::ElementWindow { element },
                )
            },
            None => Self::end(app, focused, Ok(())),
        }
    }

    fn give_up(app: App, focused: Window, windows: Windows, index: usize) -> (progress: Progress<
        LayoutUpdate,
        Result<(), UnnamedError>,
    >)
        ensures
            progress == Self::drop_window(app, focused, windows, index),
    {
        match windows.get(index) {
            Some(window) => {
                let handle = window.inner();
                Progress::Pending(
                    LayoutUpdate::Dropping { app, focused, windows, next: index + 1 },
                    ForeignCall::Release { handle },
                )
            },
            None => Self::end(app, focused, Ok(())),
        }
    }

    fn fail(app: App, focused: Window, windows: Windows, index: usize, error: UnnamedError) -> (progress:
        Progress<LayoutUpdate, Result<(), UnnamedError>>)
        ensures
            progress == Self::fail_from(app, focused, windows, index, error),
    {
        match windows.get(index) {
            Some(window) => {
                let handle = window.inner();
                Progress::Pending(
                    LayoutUpdate::Failing { app, focused, windows, next: index + 1, error },
                    ForeignCall::Release { handle },
                )
            },
            None => Self::end(app, focused, Err(error)),
        }
    }

    fn moved(
        app: App,
        focused: Window,
        windows: Windows,
        index: usize,
        step: Progress<Relayout, Result<(), UnnamedError>>,
    ) -> (progress: Progress<LayoutUpdate, Result<(), UnnamedError>>)
        ensures
            progress == Self::after_move(app, focused, windows, index, step),
    {
        match step {
            Progress::Pending(relayout, call) => Progress::Pending(
                LayoutUpdate::Moving { app, focused, windows, index, relayout },
                call,
            ),
            Progress::Finished(Err(error)) => Progress::Pending(
                LayoutUpdate::Reporting { app, focused, windows, index },
                ForeignCall::Report { diagnostic: Diagnostic::Relayout { error } },
            ),
            Progress::Finished(Ok(())) => Self::give_up(app, focused, windows, index),
        }
    }

    fn listed(
        app: App,
        focused: Window,
        step: Progress<WindowListing, Result<Windows, UnnamedError>>,
    ) -> (progress: Progress<LayoutUpdate, Result<(), UnnamedError>>)
        ensures
            progress == Self::after_listing(app, focused, step),
    {
        match step {
            Progress::Pending(listing, call) => Progress::Pending(
                LayoutUpdate::Listing { app, focused, listing },
                call,
            ),
            Progress::Finished(Err(error)) => Self::end(app, focused, Err(error)),
            Progress::Finished(Ok(windows)) => Self::see(app, focused, windows, 0),
        }
    }

    fn focused(
        command: Command,
        app: App,
        step: Progress<FocusedWindow, Result<Option<Window>, UnnamedError>>,
    ) -> (progress: Progress<LayoutUpdate, Result<(), UnnamedError>>)
        ensures
            progress == Self::after_focus(command, app, step),
    {
        match step {
            Progress::Pending(focus, call) => Progress::Pending(
                LayoutUpdate::Focusing { command, app, focus },
                call,
            ),
            Progress::Finished(Err(error)) => Self::end_app(
                app,
                Err(with_context(Context::FocusedWindowOfApp, error)),
            ),
            Progress::Finished(Ok(None)) => Progress::Pending(
                LayoutUpdate::NoWindow { app },
                ForeignCall::Report { diagnostic: Diagnostic::NoFocusedWindow },
            ),
            Progress::Finished(Ok(Some(focused))) => {
                let element = focused.inner();
                Progress::Pending(
                    LayoutUpdate::IdentifyingFocused { command, app, focused },
                    ForeignCall::ElementWindow { element },
                )
            },
        }
    }

    fn created(
        command: Command,
        store: &mut LayoutAssignments,
        step: Progress<AppCreation, Result<App, UnnamedError>>,
    ) -> (progress: Progress<LayoutUpdate, Result<(), UnnamedError>>)
        ensures
            (progress, final(store)@) == Self::after_creation(command, old(store)@, step),
    {
        match step {
            Progress::Pending(creation, call) => Progress::Pending(
                LayoutUpdate::Creating { command, creation },
                call,
            ),
            Progress::Finished(Err(error)) => Progress::Finished(Err(error)),
            Progress::Finished(Ok(app)) => {
                store.ensure_bundle(app.bundle_id.as_str());
                let step = app.focused_window();
                Self::focused(command, app, step)
            },
        }
    }

    /// Takes the reply to the pending call and makes the next step.
    pub fn resume(
        self,
        store: &mut LayoutAssignments,
        presets: &LayoutPresets,
        reply: ForeignReply,
    ) -> (progress: Progress<LayoutUpdate, Result<(), UnnamedError>>)
        ensures
            (progress, final(store)@) == self.next_step(old(store)@, presets, reply),
    {
        match self {
            LayoutUpdate::Workspace { command } => if reply.handle == 0 {
                Progress::Finished(Err(UnnamedError::UnexpectedNull))
            } else {
                Progress::Pending(
                    LayoutUpdate::Frontmost { command },
                    ForeignCall::FrontmostApplication { workspace: reply.handle },
                )
            },
            LayoutUpdate::Frontmost { command } => if reply.handle == 0 {
                Progress::Finished(Err(UnnamedError::UnexpectedNull))
            } else {
                let step = App::from_nsapp(CopyOnWrite::Borrowed(reply.handle), None);
                Self::created(command, store, step)
            },
            LayoutUpdate::Creating { command, creation } => Self::created(
                command,
                store,
                creation.resume(reply),
            ),
            LayoutUpdate::Focusing { command, app, focus } => Self::focused(
                command,
                app,
                focus.resume(reply),
            ),
            LayoutUpdate::NoWindow { app } => Self::end_app(app, Ok(())),
            LayoutUpdate::IdentifyingFocused { command, app, focused } => match MagicIdQuery.resume(
                reply,
            ) {
                Progress::Finished(Ok(id)) => {
                    match command {
                        Command::Assign(preset) => {
                            store.assign(app.bundle_id.as_str(), id, preset);
                        },
                        Command::Toggle => {
                            let _ = store.toggle(app.bundle_id.as_str(), id);
                        },
                    }
                    let step = app.get_windows();
                    Self::listed(app, focused, step)
                },
                Progress::Finished(Err(error)) => Self::end(
                    app,
                    focused,
                    Err(with_context(Context::FocusedMagicId, error)),
                ),
                Progress::Pending(_, _) => Self::end(app, focused, Ok(())),
            },
            LayoutUpdate::Listing { app, focused, listing } => Self::listed(
                app,
                focused,
                listing.resume(reply),
            ),
            LayoutUpdate::Identifying { app, focused, windows, index } => match windows.get(index) {
                None => Self::end(app, focused, Ok(())),
                Some(window) => match MagicIdQuery.resume(reply) {
                    Progress::Finished(Ok(id)) => {
                        let assignment = store.observe(window.bundle_id.as_str(), id);
                        if assignment.enabled {
                            let step = window.relayout(presets.rect(assignment.preset));
                            Self::moved(app, focused, windows, index, step)
                        } else {
                            Self::give_up(app, focused, windows, index)
                        }
                    },
                    Progress::Finished(Err(error)) => Self::fail(
                        app,
                        focused,
                        windows,
                        index,
                        with_context(Context::WindowMagicId, error),
                    ),
                    Progress::Pending(_, _) => Self::end(app, focused, Ok(())),
                },
            },
            LayoutUpdate::Moving { app, focused, windows, index, relayout } => Self::moved(
                app,
                focused,
                windows,
                index,
                relayout.resume(reply),
            ),
            LayoutUpdate::Reporting { app, focused, windows, index } => Self::give_up(
                app,
                focused,
                windows,
                index,
            ),
            LayoutUpdate::Dropping { app, focused, windows, next } => Self::see(
                app,
                focused,
                windows,
                next,
            ),
            LayoutUpdate::Failing { app, focused, windows, next, error } => Self::fail(
                app,
                focused,
                windows,
                next,
                error,
            ),
            LayoutUpdate::ReleasingFocused { app, result } => Self::end_app(app, result),
            LayoutUpdate::ReleasingApp { result } => Progress::Finished(result),
        }
    }
}

/// Begins carrying out a command on the focused window of the frontmost
/// application.
pub fn update_layout_for_focused_window(command: Command) -> (progress: Progress<
    LayoutUpdate,
    Result<(), UnnamedError>,
>)
    ensures
        progress == LayoutUpdate::first_step(command),
{
    Progress::Pending(LayoutUpdate::Workspace { command }, ForeignCall::SharedWorkspace)
}

/// A notification changes the assignment that governs no window: whatever
/// step it makes, every window is governed afterwards by what governed it
/// before.
pub proof fn lemma_notification_keeps_assignments(
    state: Notification,
    store: Assignments,
    presets: &LayoutPresets,
    reply: ForeignReply,
    bundle_id: Seq<char>,
    window: u32,
)
    ensures
        effective(state.next_step(store, presets, reply).1, bundle_id, window) == effective(
            store,
            bundle_id,
            window,
        ),
{
}

/// A notification for a window that is not kept in its preset moves
/// nothing: once the window is identified, the procedure ends or gives the
/// window up, and asks the runtime for nothing else.
pub proof fn lemma_disabled_window_is_left_alone(
    window: Window,
    store: Assignments,
    presets: &LayoutPresets,
    reply: ForeignReply,
)
    requires
        magic_id_of(reply.status, reply.window) matches Ok(id) && !effective(
            store,
            window.bundle_id@,
            id@,
        ).enabled,
    ensures
        (Notification::Identifying { window }).next_step(store, presets, reply).0
            == Notification::finish(
            window,
            Notified::Idle {
                assignment: effective(
                    store,
                    window.bundle_id@,
                    magic_id_of(reply.status, reply.window)->Ok_0@,
                ),
            },
        ),
{
}

/// Whether a step of a command is the one that changes the entry of the
/// given window: the step that identifies the focused window as that one.
pub open spec fn changes_entry_of(
    state: LayoutUpdate,
    reply: ForeignReply,
    bundle_id: Seq<char>,
    window: u32,
) -> bool {
    state matches LayoutUpdate::IdentifyingFocused { app, .. } && app.bundle_id@ == bundle_id
        && magic_id_of(reply.status, reply.window) == Ok::<WindowMagicId, UnnamedError>(
        WindowMagicId(window),
    )
}

/// A command changes the assignment of the focused window and of no other:
/// a step that does not identify the given window as the focused one leaves
/// it governed by what governed it before. So the siblings of the focused
/// window keep their own presets.
pub proof fn lemma_command_keeps_other_assignments(
    state: LayoutUpdate,
    store: Assignments,
    presets: &LayoutPresets,
    reply: ForeignReply,
    bundle_id: Seq<char>,
    window: u32,
)
    requires
        !changes_entry_of(state, reply, bundle_id, window),
    ensures
        effective(state.next_step(store, presets, reply).1, bundle_id, window) == effective(
            store,
            bundle_id,
            window,
        ),
{
}

/// The step that identifies the focused window makes the command's change
/// to its entry: an assigned preset governs it and is kept, and a toggle
/// flips keeping it and leaves its preset.
pub proof fn lemma_command_changes_the_focused_window(
    command: Command,
    app: App,
    focused: Window,
    store: Assignments,
    presets: &LayoutPresets,
    reply: ForeignReply,
)
    requires
        magic_id_of(reply.status, reply.window) is Ok,
    ensures
        ({
            let id = magic_id_of(reply.status, reply.window)->Ok_0;
            let before = effective(store, app.bundle_id@, id@);
            let after = effective(
                (LayoutUpdate::IdentifyingFocused { command, app, focused }).next_step(
                    store,
                    presets,
                    reply,
                ).1,
                app.bundle_id@,
                id@,
            );
            match command {
                Command::Assign(preset) => after == (WindowLayoutAssignment {
                    preset,
                    enabled: true,
                }),
                Command::Toggle => after.preset == before.preset && after.enabled
                    != before.enabled,
            }
        }),
{
}

} // verus!
