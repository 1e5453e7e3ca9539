//! What is done once, before the first notification: the permission check,
//! finding the running applications of a bundle, and putting each of their
//! windows under observation.

use vstd::prelude::*;

use crate::assignments::{changed, Assignments, LayoutAssignments, StoreChange};
use crate::error::{Context, ListenError, UnnamedError};
use crate::foreign::{ForeignCall, ForeignReply, Procedure, Progress};
use crate::layout::{LayoutPreset, LayoutPresets};
use crate::bundle::BundleID;
use crate::memory::{AXObserver, CFDictionary, CFString, CFType, CopyOnWrite, Rc, Unique};
use crate::wrappers::{
    in_context, magic_id_of, with_context, AccessibilityElement, App, AppCreation,
    MagicIdQuery, Relayout, WindowListing, Windows,
};

verus! {

/// The notification that a window was resized.
pub const WINDOW_RESIZED: &'static str = "AXWindowResized";

/// The notification that a window was moved.
pub const WINDOW_MOVED: &'static str = "AXWindowMoved";

/// Asking whether this process may use the accessibility interface.
#[derive(Debug, PartialEq, Eq)]
pub enum PermissionCheck {
    /// Waits for the options of the check.
    Options,
    /// Waits for the answer.
    Answer { options: Rc<CFDictionary> },
    /// Waits for the release of the options.
    Releasing { trusted: bool },
}

impl PermissionCheck {
    /// The first step: the call that makes the options of the check.
    pub open spec fn first_step() -> Progress<PermissionCheck, Result<bool, UnnamedError>> {
        Progress::Pending(PermissionCheck::Options, ForeignCall::CreateTrustOptions)
    }

    /// The step after a reply. Without options the check fails; otherwise
    /// the system is asked, the options are released, and the procedure
    /// ends with the system's answer.
    pub open spec fn next_step(self, reply: ForeignReply) -> Progress<
        PermissionCheck,
        Result<bool, UnnamedError>,
    > {
        match self {
            PermissionCheck::Options => if reply.handle == 0 {
                Progress::Finished(Err(UnnamedError::CouldNotCreateCFObject))
            } else {
                Progress::Pending(
                    PermissionCheck::Answer { options: Rc::adopted(reply.handle) },
                    ForeignCall::IsProcessTrusted { options: reply.handle },
                )
            },
            PermissionCheck::Answer { options } => Progress::Pending(
                PermissionCheck::Releasing { trusted: reply.flag },
                ForeignCall::Release { handle: options@ },
            ),
            PermissionCheck::Releasing { trusted } => Progress::Finished(Ok(trusted)),
        }
    }
}

impl Procedure for PermissionCheck {
    type Output = Result<bool, UnnamedError>;

    open spec fn steps_to(self, reply: ForeignReply, progress: Progress<Self, Self::Output>)
        -> bool {
        progress == self.next_step(reply)
    }

    fn resume(self, reply: ForeignReply) -> (progress: Progress<Self, Self::Output>) {
        match self {
            PermissionCheck::Options => match Rc::new_const(reply.handle) {
                None => Progress::Finished(Err(UnnamedError::CouldNotCreateCFObject)),
                Some(options) => {
                    let handle = options.get();
                    Progress::Pending(
                        PermissionCheck::Answer { options },
                        ForeignCall::IsProcessTrusted { options: handle },
                    )
                },
            },
            PermissionCheck::Answer { options } => Progress::Pending(
                PermissionCheck::Releasing { trusted: reply.flag },
                options.release(),
            ),
            PermissionCheck::Releasing { trusted } => Progress::Finished(Ok(trusted)),
        }
    }
}

/// Begins asking whether this process may use the accessibility interface.
pub fn has_accessibility_permissions() -> (progress: Progress<
    PermissionCheck,
    Result<bool, UnnamedError>,
>)
    ensures
        progress == PermissionCheck::first_step(),
{
    Progress::Pending(PermissionCheck::Options, ForeignCall::CreateTrustOptions)
}

/// Whether startup may go on: only with the permission.
pub fn require_permission(trusted: bool) -> (result: Result<(), UnnamedError>)
    ensures
        result == (if trusted {
            Ok(())
        } else {
            Err(UnnamedError::Whatever { context: Context::MissingPermissions, source: None })
        }),
{
    if trusted {
        Ok(())
    } else {
        Err(UnnamedError::Whatever { context: Context::MissingPermissions, source: None })
    }
}

/// The presets that startup goes on with: those that were encoded, or the
/// failure to encode them as the failure to compute the layout presets.
pub fn presets_for_startup(encoded: Result<LayoutPresets, UnnamedError>) -> (result: Result<
    LayoutPresets,
    UnnamedError,
>)
    ensures
        result == (match encoded {
            Ok(presets) => Ok(presets),
            Err(error) => Err(in_context(Context::ComputePresets, error)),
        }),
{
    match encoded {
        Ok(presets) => Ok(presets),
        Err(error) => Err(with_context(Context::ComputePresets, error)),
    }
}

/// The error that ends the program when the key listener fails.
pub fn listener_failure(inner: ListenError) -> (error: UnnamedError)
    ensures
        error == in_context(Context::RunLoop, UnnamedError::RDevError { inner }),
{
    with_context(Context::RunLoop, UnnamedError::RDevError { inner })
}

/// Finding the running applications of a bundle.
#[derive(Debug, PartialEq, Eq)]
pub enum AppListing {
    /// Waits for the runtime string of the bundle identifier.
    Name { bundle_id: String },
    /// Waits for the array of running applications.
    Array { name: Rc<CFString>, bundle_id: String },
    /// Waits for the elements of the array.
    Elements { name: Rc<CFString>, array: Rc<CFType>, bundle_id: String },
    /// Waits for the retain of the running application at `handle`, the
    /// element before `next`.
    Retaining {
        name: Rc<CFString>,
        array: Rc<CFType>,
        handles: Vec<usize>,
        handle: usize,
        next: usize,
        apps: Vec<App>,
        bundle_id: String,
    },
    /// The element before `next` is being made an [`App`].
    Creating {
        name: Rc<CFString>,
        array: Rc<CFType>,
        handles: Vec<usize>,
        next: usize,
        apps: Vec<App>,
        bundle_id: String,
        creation: AppCreation,
    },
    /// After a failure: waits for the release of the application before
    /// `next`.
    Unwinding {
        name: Rc<CFString>,
        array: Rc<CFType>,
        apps: Vec<App>,
        next: usize,
        error: UnnamedError,
    },
    /// Waits for the release of the array.
    ReleasingArray { name: Rc<CFString>, result: Result<Vec<App>, UnnamedError> },
    /// Waits for the release of the runtime string.
    ReleasingName { result: Result<Vec<App>, UnnamedError> },
}

impl AppListing {
    /// After a failure: the applications made so far are released from
    /// `index` on, one by one, then the array and the runtime string.
    pub open spec fn unwind_from(
        name: Rc<CFString>,
        array: Rc<CFType>,
        apps: Vec<App>,
        index: usize,
        error: UnnamedError,
    ) -> Progress<AppListing, Result<Vec<App>, UnnamedError>> {
        if index < apps@.len() {
            Progress::Pending(
                AppListing::Unwinding { name, array, apps, next: (index + 1) as usize, error },
                ForeignCall::Release { handle: apps@[index as int].element() },
            )
        } else {
            Progress::Pending(
                AppListing::ReleasingArray { name, result: Err(error) },
                ForeignCall::Release { handle: array@ },
            )
        }
    }

    /// Goes on with the running application at `index`: a null element
    /// fails the listing and any other is retained. Past the last element
    /// the array is released.
    pub open spec fn visit(
        name: Rc<CFString>,
        array: Rc<CFType>,
        handles: Vec<usize>,
        index: usize,
        apps: Vec<App>,
        bundle_id: String,
    ) -> Progress<AppListing, Result<Vec<App>, UnnamedError>> {
        if index < handles@.len() {
            if handles@[index as int] == 0 {
                Self::unwind_from(name, array, apps, 0, UnnamedError::UnexpectedNull)
            } else {
                Progress::Pending(
                    AppListing::Retaining {
                        name,
                        array,
                        handles,
                        handle: handles@[index as int],
                        next: (index + 1) as usize,
                        apps,
                        bundle_id,
                    },
                    ForeignCall::Retain { handle: handles@[index as int] },
                )
            }
        } else {
            Progress::Pending(
                AppListing::ReleasingArray { name, result: Ok(apps) },
                ForeignCall::Release { handle: array@ },
            )
        }
    }

    /// Goes on after a step of making an application. Once it is made, the
    /// applications are `grown` and the element at `next` is seen.
    pub open spec fn after_creation(
        name: Rc<CFString>,
        array: Rc<CFType>,
        handles: Vec<usize>,
        next: usize,
        apps: Vec<App>,
        bundle_id: String,
        step: Progress<AppCreation, Result<App, UnnamedError>>,
        grown: Vec<App>,
    ) -> Progress<AppListing, Result<Vec<App>, UnnamedError>> {
        match step {
            Progress::Pending(creation, call) => Progress::Pending(
                AppListing::Creating { name, array, handles, next, apps, bundle_id, creation },
                call,
            ),
            Progress::Finished(Err(error)) => Self::unwind_from(name, array, apps, 0, error),
            Progress::Finished(Ok(app)) => Self::visit(
                name,
                array,
                handles,
                next,
                grown,
                bundle_id,
            ),
        }
    }

    /// The application that a step adds to the applications made so far, if
    /// it adds one.
    pub open spec fn added(step: Progress<AppCreation, Result<App, UnnamedError>>) -> Option<App> {
        match step {
            Progress::Finished(Ok(app)) => Some(app),
            _ => None,
        }
    }

    /// The step of making an application that a reply leads to, if the
    /// procedure is at such a step.
    pub open spec fn creation_step(self, reply: ForeignReply) -> Option<
        Progress<AppCreation, Result<App, UnnamedError>>,
    > {
        match self {
            AppListing::Retaining { handle, bundle_id, .. } => if handle != 0 {
                Some(
                    AppCreation::first_step(
                        CopyOnWrite::Owned(Rc::adopted(handle)),
                        Some(bundle_id),
                    ),
                )
            } else {
                None
            },
            AppListing::Creating { creation, .. } => Some(creation.next_step(reply)),
            _ => None,
        }
    }

    /// The applications made so far.
    pub open spec fn made(self) -> Seq<App> {
        match self {
            AppListing::Retaining { apps, .. } => apps@,
            AppListing::Creating { apps, .. } => apps@,
            AppListing::Unwinding { apps, .. } => apps@,
            _ => Seq::empty(),
        }
    }

    /// The first step: the call that makes the runtime string of the bundle
    /// identifier.
    pub open spec fn first_step(bundle_id: String) -> Progress<
        AppListing,
        Result<Vec<App>, UnnamedError>,
    > {
        Progress::Pending(
            AppListing::Name { bundle_id },
            ForeignCall::CreateText { contents: bundle_id },
        )
    }

    /// The step after a reply, where `grown` stands for the applications
    /// after one is added.
    ///
    /// The workspace gives an array of running applications. Each is
    /// retained and made an [`App`] with the bundle identifier asked for,
    /// in order. A null anywhere, or an application that cannot be made,
    /// fails the listing; then the applications made so far are released.
    /// The array and the runtime string are released either way.
    pub open spec fn next_step(self, reply: ForeignReply, grown: Vec<App>) -> Progress<
        AppListing,
        Result<Vec<App>, UnnamedError>,
    > {
        match self {
            AppListing::Name { bundle_id } => if reply.handle == 0 {
                Progress::Finished(Err(UnnamedError::CouldNotCreateCFObject))
            } else {
                Progress::Pending(
                    AppListing::Array { name: Rc::adopted(reply.handle), bundle_id },
                    ForeignCall::RunningApplications { bundle_id: reply.handle },
                )
            },
            AppListing::Array { name, bundle_id } => if reply.handle == 0 {
                Progress::Pending(
                    AppListing::ReleasingName { result: Err(UnnamedError::UnexpectedNull) },
                    ForeignCall::Release { handle: name@ },
                )
            } else {
                Progress::Pending(
                    AppListing::Elements { name, array: Rc::adopted(reply.handle), bundle_id },
                    ForeignCall::ArrayElements { array: reply.handle },
                )
            },
            AppListing::Elements { name, array, bundle_id } => Self::visit(
                name,
                array,
                reply.handles,
                0,
                grown,
                bundle_id,
            ),
            AppListing::Retaining { name, array, handles, handle, next, apps, bundle_id } => {
                if handle == 0 {
                    Self::unwind_from(name, array, apps, 0, UnnamedError::UnexpectedNull)
                } else {
                    Self::after_creation(
                        name,
                        array,
                        handles,
                        next,
                        apps,
                        bundle_id,
                        AppCreation::first_step(
                            CopyOnWrite::Owned(Rc::adopted(handle)),
                            Some(bundle_id),
                        ),
                        grown,
                    )
                }
            },
            AppListing::Creating { name, array, handles, next, apps, bundle_id, creation } => {
                Self::after_creation(
                    name,
                    array,
                    handles,
                    next,
                    apps,
                    bundle_id,
                    creation.next_step(reply),
                    grown,
                )
            },
            AppListing::Unwinding { name, array, apps, next, error } => Self::unwind_from(
                name,
                array,
                apps,
                next,
                error,
            ),
            AppListing::ReleasingArray { name, result } => Progress::Pending(
                AppListing::ReleasingName { result },
                ForeignCall::Release { handle: name@ },
            ),
            AppListing::ReleasingName { result } => Progress::Finished(result),
        }
    }

    /// What `grown` holds in [`AppListing::next_step`]: at the start no
    /// application, and after a step that made one, the applications made
    /// before it and then that one.
    pub open spec fn grown_to(self, reply: ForeignReply) -> Option<Seq<App>> {
        match self {
            AppListing::Elements { .. } => Some(Seq::empty()),
            _ => match self.creation_step(reply) {
                Some(Progress::Finished(Ok(app))) => Some(self.made().push(app)),
                _ => None,
            },
        }
    }

    fn unwind(
        name: Rc<CFString>,
        array: Rc<CFType>,
        apps: Vec<App>,
        index: usize,
        error: UnnamedError,
    ) -> (progress: Progress<AppListing, Result<Vec<App>, UnnamedError>>)
        ensures
            progress == Self::unwind_from(name, array, apps, index, error),
    {
        if index < apps.len() {
            let handle = apps[index].inner();
            Progress::Pending(
                AppListing::Unwinding { name, array, apps, next: index + 1, error },
                ForeignCall::Release { handle },
            )
        } else {
            let handle = array.get();
            Progress::Pending(
                AppListing::ReleasingArray { name, result: Err(error) },
                ForeignCall::Release { handle },
            )
        }
    }

    fn see(
        name: Rc<CFString>,
        array: Rc<CFType>,
        handles: Vec<usize>,
        index: usize,
        apps: Vec<App>,
        bundle_id: String,
    ) -> (progress: Progress<AppListing, Result<Vec<App>, UnnamedError>>)
        ensures
            progress == Self::visit(name, array, handles, index, apps, bundle_id),
    {
        if index < handles.len() {
            let handle = handles[index];
            if handle == 0 {
                Self::unwind(name, array, apps, 0, UnnamedError::UnexpectedNull)
            } else {
                Progress::Pending(
                    AppListing::Retaining {
                        name,
                        array,
                        handles,
                        handle,
                        next: index + 1,
                        apps,
                        bundle_id,
                    },
                    ForeignCall::Retain { handle },
                )
            }
        } else {
            let handle = array.get();
            Progress::Pending(
                AppListing::ReleasingArray { name, result: Ok(apps) },
                ForeignCall::Release { handle },
            )
        }
    }

    fn created(
        name: Rc<CFString>,
        array: Rc<CFType>,
        handles: Vec<usize>,
        next: usize,
        apps: Vec<App>,
        bundle_id: String,
        step: Progress<AppCreation, Result<App, UnnamedError>>,
    ) -> (progress: (Progress<AppListing, Result<Vec<App>, UnnamedError>>, Ghost<Vec<App>>))
        ensures
            progress.0 == Self::after_creation(
                name,
                array,
                handles,
                next,
                apps,
                bundle_id,
                step,
                progress.1@,
            ),
            Self::added(step) matches Some(app) ==> progress.1@@ == apps@.push(app),
    {
        match step {
            Progress::Pending(creation, call) => (
                Progress::Pending(
                    AppListing::Creating { name, array, handles, next, apps, bundle_id, creation },
                    call,
                ),
                Ghost(apps),
            ),
            Progress::Finished(Err(error)) => (
                Self::unwind(name, array, apps, 0, error),
                Ghost(apps),
            ),
            Progress::Finished(Ok(app)) => {
                let mut grown = apps;
                grown.push(app);
                let ghost all = grown;
                (Self::see(name, array, handles, next, grown, bundle_id), Ghost(all))
            },
        }
    }
}

impl Procedure for AppListing {
    type Output = Result<Vec<App>, UnnamedError>;

    open spec fn steps_to(self, reply: ForeignReply, progress: Progress<Self, Self::Output>)
        -> bool {
        exists|grown: Vec<App>|
            {
                &&& progress == #[trigger] self.next_step(reply, grown)
                &&& self.grown_to(reply) matches Some(apps) ==> grown@ == apps
            }
    }

    fn resume(self, reply: ForeignReply) -> (progress: Progress<Self, Self::Output>) {
        match self {
            AppListing::Name { bundle_id } => {
                let progress = match Rc::new_mut(reply.handle) {
                    None => Progress::Finished(Err(UnnamedError::CouldNotCreateCFObject)),
                    Some(name) => Progress::Pending(
                        AppListing::Array { name, bundle_id },
                        ForeignCall::RunningApplications { bundle_id: reply.handle },
                    ),
                };
                assert(progress == self.next_step(reply, arbitrary::<Vec<App>>()));
                progress
            },
            AppListing::Array { name, bundle_id } => {
                let progress = match Rc::new_mut(reply.handle) {
                    None => Progress::Pending(
                        AppListing::ReleasingName { result: Err(UnnamedError::UnexpectedNull) },
                        name.release(),
                    ),
                    Some(array) => Progress::Pending(
                        AppListing::Elements { name, array, bundle_id },
                        ForeignCall::ArrayElements { array: reply.handle },
                    ),
                };
                assert(progress == self.next_step(reply, arbitrary::<Vec<App>>()));
                progress
            },
            AppListing::Elements { name, array, bundle_id } => {
                let apps: Vec<App> = Vec::new();
                let progress = Self::see(name, array, reply.handles, 0, apps, bundle_id);
                assert(progress == self.next_step(reply, apps));
                progress
            },
            AppListing::Retaining { name, array, handles, handle, next, apps, bundle_id } => {
                match Rc::new_mut(handle) {
                    Some(owner) => {
                        let step = App::from_nsapp(
                            CopyOnWrite::Owned(owner),
                            Some(bundle_id.clone()),
                        );
                        let (progress, Ghost(grown)) = Self::created(
                            name,
                            array,
                            handles,
                            next,
                            apps,
                            bundle_id,
                            step,
                        );
                        assert(progress == self.next_step(reply, grown));
                        progress
                    },
                    None => {
                        let progress = Self::unwind(
                            name,
                            array,
                            apps,
                            0,
                            UnnamedError::UnexpectedNull,
                        );
                        assert(progress == self.next_step(reply, apps));
                        progress
                    },
                }
            },
            AppListing::Creating { name, array, handles, next, apps, bundle_id, creation } => {
                let step = creation.resume(reply);
                let (progress, Ghost(grown)) = Self::created(
                    name,
                    array,
                    handles,
                    next,
                    apps,
                    bundle_id,
                    step,
                );
                assert(progress == self.next_step(reply, grown));
                progress
            },
            AppListing::Unwinding { name, array, apps, next, error } => {
                let progress = Self::unwind(name, array, apps, next, error);
                assert(progress == self.next_step(reply, apps));
                progress
            },
            AppListing::ReleasingArray { name, result } => {
                let progress = Progress::Pending(
                    AppListing::ReleasingName { result },
                    name.release(),
                );
                assert(progress == self.next_step(reply, arbitrary::<Vec<App>>()));
                progress
            },
            AppListing::ReleasingName { result } => {
                let progress = Progress::Finished(result);
                assert(progress == self.next_step(reply, arbitrary::<Vec<App>>()));
                progress
            },
        }
    }
}

/// Begins finding the running applications of a bundle.
pub fn running_apps_with_bundle_id(bundle_id: BundleID<'_>) -> (progress: Progress<
    AppListing,
    Result<Vec<App>, UnnamedError>,
>)
    ensures
        match progress {
            Progress::Pending(AppListing::Name { bundle_id: text }, call) => text@ == bundle_id@
                && call == (ForeignCall::CreateText { contents: text }),
            _ => false,
        },
{
    let text = bundle_id.to_string();
    let contents = text.clone();
    Progress::Pending(AppListing::Name { bundle_id: text }, ForeignCall::CreateText { contents })
}

/// Putting the windows of one application under observation.
#[derive(Debug, PartialEq, Eq)]
#[allow(inconsistent_fields)]
pub enum Subscription {
    /// Waits for the observer of the application's process.
    Observer { app: App },
    /// The windows of the application are being listed.
    Listing { app: App, observer: Unique<AXObserver>, listing: WindowListing },
    /// Waits for the identifier of the window at `index`.
    Identifying { app: App, observer: Unique<AXObserver>, windows: Windows, index: usize },
    /// The window at `index` is being moved to the whole screen.
    Moving {
        app: App,
        observer: Unique<AXObserver>,
        windows: Windows,
        index: usize,
        relayout: Relayout,
    },
    /// Waits for the name of the resize notification.
    ResizedName { app: App, observer: Unique<AXObserver>, windows: Windows, index: usize },
    /// Waits for the status of subscribing to resizes.
    Resized {
        app: App,
        observer: Unique<AXObserver>,
        windows: Windows,
        index: usize,
        resized: Unique<CFString>,
    },
    /// Waits for the name of the move notification.
    MovedName {
        app: App,
        observer: Unique<AXObserver>,
        windows: Windows,
        index: usize,
        resized: Unique<CFString>,
    },
    /// Waits for the status of subscribing to moves.
    Moved {
        app: App,
        observer: Unique<AXObserver>,
        windows: Windows,
        index: usize,
        resized: Unique<CFString>,
        moved: Unique<CFString>,
    },
    /// Waits for the release of a notification's name. With an error the
    /// subscription fails once the names are released.
    ReleasingNames {
        app: App,
        observer: Unique<AXObserver>,
        windows: Windows,
        index: usize,
        resized: Option<Unique<CFString>>,
        error: Option<UnnamedError>,
    },
    /// Waits for the release of the window before `next`.
    Dropping { app: App, observer: Unique<AXObserver>, windows: Windows, next: usize },
    /// After a failure: waits for the release of the window before `next`.
    Failing {
        app: App,
        observer: Unique<AXObserver>,
        windows: Windows,
        next: usize,
        error: UnnamedError,
    },
    /// Waits for the run loop source of the observer.
    Source { app: App, observer: Unique<AXObserver> },
    /// Waits for the source to be added to the run loop.
    Adding { app: App, observer: Unique<AXObserver> },
    /// After a failure: waits for the release of the observer.
    ReleasingObserver { app: App, error: UnnamedError },
    /// Waits for the release of the application.
    ReleasingApp { result: Result<Unique<AXObserver>, UnnamedError> },
}

impl Subscription {
    /// The end: the application is released, and the result follows.
    pub open spec fn close_app(app: App, result: Result<Unique<AXObserver>, UnnamedError>)
        -> Progress<Subscription, Result<Unique<AXObserver>, UnnamedError>> {
        Progress::Pending(
            Subscription::ReleasingApp { result },
            ForeignCall::Release { handle: app.element() },
        )
    }

    /// After a failure: the observer is released, then the application.
    pub open spec fn fail(app: App, observer: Unique<AXObserver>, error: UnnamedError) -> Progress<
        Subscription,
        Result<Unique<AXObserver>, UnnamedError>,
    > {
        Progress::Pending(
            Subscription::ReleasingObserver { app, error },
            ForeignCall::Release { handle: observer@ },
        )
    }

    /// After a failure: the windows from `index` on are released, one by
    /// one, then the observer and the application.
    pub open spec fn fail_from(
        app: App,
        observer: Unique<AXObserver>,
        windows: Windows,
        index: usize,
        error: UnnamedError,
    ) -> Progress<Subscription, Result<Unique<AXObserver>, UnnamedError>> {
        match windows.window_at(index as int) {
            Some(window) => Progress::Pending(
                Subscription::Failing {
                    app,
                    observer,
                    windows,
                    next: (index + 1) as usize,
                    error,
                },
                ForeignCall::Release { handle: window.element() },
            ),
            None => Self::fail(app, observer, error),
        }
    }

    /// Goes on with the window at `index`: it is asked for its identifier.
    /// Past the last window the observer is asked for its run loop source.
    pub open spec fn visit(app: App, observer: Unique<AXObserver>, windows: Windows, index: usize)
        -> Progress<Subscription, Result<Unique<AXObserver>, UnnamedError>> {
        match windows.window_at(index as int) {
            Some(window) => Progress::Pending(
                Subscription::Identifying { app, observer, windows, index },
                ForeignCall::ElementWindow { element: window.element() },
            ),
            None => Progress::Pending(
                Subscription::Source { app, observer },
                ForeignCall::RunLoopSource { observer: observer@ },
            ),
        }
    }

    /// Gives up the window at `index` and goes on with the next.
    pub open spec fn drop_window(
        app: App,
        observer: Unique<AXObserver>,
        windows: Windows,
        index: usize,
    ) -> Progress<Subscription, Result<Unique<AXObserver>, UnnamedError>> {
        match windows.window_at(index as int) {
            Some(window) => Progress::Pending(
                Subscription::Dropping { app, observer, windows, next: (index + 1) as usize },
                ForeignCall::Release { handle: window.element() },
            ),
            None => Self::visit(app, observer, windows, index),
        }
    }

    /// Releases the names of the notifications, the newer first, and then
    /// fails with the error or, without one, goes on with the next window.
    pub open spec fn release_names(
        app: App,
        observer: Unique<AXObserver>,
        windows: Windows,
        index: usize,
        moved: Option<Unique<CFString>>,
        resized: Option<Unique<CFString>>,
        error: Option<UnnamedError>,
    ) -> Progress<Subscription, Result<Unique<AXObserver>, UnnamedError>> {
        match moved {
            Some(moved) => Progress::Pending(
                Subscription::ReleasingNames { app, observer, windows, index, resized, error },
                ForeignCall::Release { handle: moved@ },
            ),
            None => match resized {
                Some(resized) => Progress::Pending(
                    Subscription::ReleasingNames {
                        app,
                        observer,
                        windows,
                        index,
                        resized: None,
                        error,
                    },
                    ForeignCall::Release { handle: resized@ },
                ),
                None => match error {
                    Some(error) => Self::fail_from(app, observer, windows, index, error),
                    None => Self::drop_window(app, observer, windows, index),
                },
            },
        }
    }

    /// Goes on after a step of moving the window at `index`: once it is
    /// moved, the name of the resize notification is made.
    pub open spec fn after_move(
        app: App,
        observer: Unique<AXObserver>,
        windows: Windows,
        index: usize,
        step: Progress<Relayout, Result<(), UnnamedError>>,
    ) -> Progress<Subscription, Result<Unique<AXObserver>, UnnamedError>> {
        match step {
            Progress::Pending(relayout, call) => Progress::Pending(
                Subscription::Moving { app, observer, windows, index, relayout },
                call,
            ),
            Progress::Finished(Err(error)) => Self::fail_from(
                app,
                observer,
                windows,
                index,
                error,
            ),
            Progress::Finished(Ok(())) => Progress::Pending(
                Subscription::ResizedName { app, observer, windows, index },
                ForeignCall::CreateString { literal: WINDOW_RESIZED },
            ),
        }
    }

    /// Goes on after a step of listing the windows.
    pub open spec fn after_listing(
        app: App,
        observer: Unique<AXObserver>,
        step: Progress<WindowListing, Result<Windows, UnnamedError>>,
    ) -> Progress<Subscription, Result<Unique<AXObserver>, UnnamedError>> {
        match step {
            Progress::Pending(listing, call) => Progress::Pending(
                Subscription::Listing { app, observer, listing },
                call,
            ),
            Progress::Finished(Err(error)) => Self::fail(app, observer, error),
            Progress::Finished(Ok(windows)) => Self::visit(app, observer, windows, 0),
        }
    }

    /// The first step: the call that makes the observer of the
    /// application's process.
    pub open spec fn first_step(app: App) -> Progress<
        Subscription,
        Result<Unique<AXObserver>, UnnamedError>,
    > {
        Progress::Pending(
            Subscription::Observer { app },
            ForeignCall::CreateObserver { pid: app.pid },
        )
    }

    /// The step after a reply, and the store after it.
    ///
    /// Every window of the application is, in turn, assigned the whole
    /// screen and kept there, moved there, and subscribed for resizes and
    /// for moves with the application's observer. Then the observer's
    /// source is added to the run loop and the procedure ends with the
    /// observer. Whatever fails ends the procedure with the error, after
    /// everything that it came to own is released.
    pub open spec fn next_step(self, store: Assignments, presets: &LayoutPresets, reply: ForeignReply)
        -> (Progress<Subscription, Result<Unique<AXObserver>, UnnamedError>>, Assignments) {
        match self {
            Subscription::Observer { app } => (
                if reply.status != 0 {
                    Self::close_app(app, Err(UnnamedError::AXError { code: reply.status }))
                } else if reply.handle == 0 {
                    Self::close_app(app, Err(UnnamedError::UnexpectedNull))
                } else {
                    Self::after_listing(
                        app,
                        Unique::adopted(reply.handle),
                        WindowListing::first_step(app.element(), app.bundle_id),
                    )
                },
                store,
            ),
            Subscription::Listing { app, observer, listing } => (
                Self::after_listing(app, observer, listing.next_step(reply)),
                store,
            ),
            Subscription::Identifying { app, observer, windows, index } => match windows.window_at(
                index as int,
            ) {
                None => (Self::visit(app, observer, windows, index), store),
                Some(window) => match magic_id_of(reply.status, reply.window) {
                    Err(error) => (Self::fail_from(app, observer, windows, index, error), store),
                    Ok(id) => (
                        Self::after_move(
                            app,
                            observer,
                            windows,
                            index,
                            Relayout::first_step(
                                window.element(),
                                window.bundle_id,
                                presets.origin_of(LayoutPreset::Full),
                                presets.size_of(LayoutPreset::Full),
                            ),
                        ),
                        changed(
                            store,
                            StoreChange::Assign {
                                bundle_id: window.bundle_id@,
                                window: id@,
                                preset: LayoutPreset::Full,
                            },
                        ),
                    ),
                },
            },
            Subscription::Moving { app, observer, windows, index, relayout } => (
                Self::after_move(app, observer, windows, index, relayout.next_step(reply)),
                store,
            ),
            Subscription::ResizedName { app, observer, windows, index } => (
                match windows.window_at(index as int) {
                    None => Self::visit(app, observer, windows, index),
                    Some(window) => if reply.handle == 0 {
                        Self::fail_from(
                            app,
                            observer,
                            windows,
                            index,
                            UnnamedError::CouldNotCreateCFObject,
                        )
                    } else {
                        Progress::Pending(
                            Subscription::Resized {
                                app,
                                observer,
                                windows,
                                index,
                                resized: Unique::adopted(reply.handle),
                            },
                            ForeignCall::AddNotification {
                                observer: observer@,
                                element: window.element(),
                                notification: reply.handle,
                            },
                        )
                    },
                },
                store,
            ),
            Subscription::Resized { app, observer, windows, index, resized } => (
                if reply.status != 0 {
                    Self::release_names(
                        app,
                        observer,
                        windows,
                        index,
                        None,
                        Some(resized),
                        Some(
                            in_context(
                                Context::ObserveResizes { bundle_id: app.bundle_id },
                                UnnamedError::AXError { code: reply.status },
                            ),
                        ),
                    )
                } else {
                    Progress::Pending(
                        Subscription::MovedName { app, observer, windows, index, resized },
                        ForeignCall::CreateString { literal: WINDOW_MOVED },
                    )
                },
                store,
            ),
            Subscription::MovedName { app, observer, windows, index, resized } => (
                match windows.window_at(index as int) {
                    None => Self::release_names(
                        app,
                        observer,
                        windows,
                        index,
                        None,
                        Some(resized),
                        None,
                    ),
                    Some(window) => if reply.handle == 0 {
                        Self::release_names(
                            app,
                            observer,
                            windows,
                            index,
                            None,
                            Some(resized),
                            Some(UnnamedError::CouldNotCreateCFObject),
                        )
                    } else {
                        Progress::Pending(
                            Subscription::Moved {
                                app,
                                observer,
                                windows,
                                index,
                                resized,
                                moved: Unique::adopted(reply.handle),
                            },
                            ForeignCall::AddNotification {
                                observer: observer@,
                                element: window.element(),
                                notification: reply.handle,
                            },
                        )
                    },
                },
                store,
            ),
            Subscription::Moved { app, observer, windows, index, resized, moved } => (
                Self::release_names(
                    app,
                    observer,
                    windows,
                    index,
                    Some(moved),
                    Some(resized),
                    if reply.status != 0 {
                        Some(
                            in_context(
                                Context::ObserveMoves { bundle_id: app.bundle_id },
                                UnnamedError::AXError { code: reply.status },
                            ),
                        )
                    } else {
                        None
                    },
                ),
                store,
            ),
            Subscription::ReleasingNames { app, observer, windows, index, resized, error } => (
                Self::release_names(app, observer, windows, index, None, resized, error),
                store,
            ),
            Subscription::Dropping { app, observer, windows, next } => (
                Self::visit(app, observer, windows, next),
                store,
            ),
            Subscription::Failing { app, observer, windows, next, error } => (
                Self::fail_from(app, observer, windows, next, error),
                store,
            ),
            Subscription::Source { app, observer } => (
                if reply.handle == 0 {
                    Self::fail(app, observer, UnnamedError::UnexpectedNull)
                } else {
                    Progress::Pending(
                        Subscription::Adding { app, observer },
                        ForeignCall::AddRunLoopSource { source: reply.handle },
                    )
                },
                store,
            ),
            Subscription::Adding { app, observer } => (Self::close_app(app, Ok(observer)), store),
            Subscription::ReleasingObserver { app, error } => (
                Self::close_app(app, Err(error)),
                store,
            ),
            Subscription::ReleasingApp { result } => (Progress::Finished(result), store),
        }
    }

    fn end_app(app: App, result: Result<Unique<AXObserver>, UnnamedError>) -> (progress: Progress<
        Subscription,
        Result<Unique<AXObserver>, UnnamedError>,
    >)
        ensures
            progress == Self::close_app(app, result),
    {
        Progress::Pending(Subscription::ReleasingApp { result }, app.release())
    }

    fn abandon(app: App, observer: Unique<AXObserver>, error: UnnamedError) -> (progress: Progress<
        Subscription,
        Result<Unique<AXObserver>, UnnamedError>,
    >)
        ensures
            progress == Self::fail(app, observer, error),
    {
        Progress::Pending(Subscription::ReleasingObserver { app, error }, observer.release())
    }

    fn abandon_from(
        app: App,
        observer: Unique<AXObserver>,
        windows: Windows,
        index: usize,
        error: UnnamedError,
    ) -> (progress: Progress<Subscription, Result<Unique<AXObserver>, UnnamedError>>)
        ensures
            progress == Self::fail_from(app, observer, windows, index, error),
    {
        match windows.get(index) {
            Some(window) => {
                let handle = window.inner();
                Progress::Pending(
                    Subscription::Failing { app, observer, windows, next: index + 1, error },
                    ForeignCall::Release { handle },
                )
            },
            None => Self::abandon(app, observer, error),
        }
    }

    fn see(app: App, observer: Unique<AXObserver>, windows: Windows, index: usize) -> (progress:
        Progress<Subscription, Result<Unique<AXObserver>, UnnamedError>>)
        ensures
            progress == Self::visit(app, observer, windows, index),
    {
        match windows.get(index) {
            Some(window) => {
                let element = window.inner();
                Progress::Pending(
                    Subscription::Identifying { app, observer, windows, index },
                    ForeignCall::ElementWindow { element },
                )
            },
            None => {
                let handle = observer.get();
                Progress::Pending(
                    Subscription::Source { app, observer },
                    ForeignCall::RunLoopSource { observer: handle },
                )
            },
        }
    }

    fn give_up(app: App, observer: Unique<AXObserver>, windows: Windows, index: usize) -> (progress:
        Progress<Subscription, Result<Unique<AXObserver>, UnnamedError>>)
        ensures
            progress == Self::drop_window(app, observer, windows, index),
    {
        match windows.get(index) {
            Some(window) => {
                let handle = window.inner();
                Progress::Pending(
                    Subscription::Dropping { app, observer, windows, next: index + 1 },
                    ForeignCall::Release { handle },
                )
            },
            None => Self::see(app, observer, windows, index),
        }
    }

    fn names_released(
        app: App,
        observer: Unique<AXObserver>,
        windows: Windows,
        index: usize,
        moved: Option<Unique<CFString>>,
        resized: Option<Unique<CFString>>,
        error: Option<UnnamedError>,
    ) -> (progress: Progress<Subscription, Result<Unique<AXObserver>, UnnamedError>>)
        ensures
            progress == Self::release_names(app, observer, windows, index, moved, resized, error),
    {
        match moved {
            Some(moved) => Progress::Pending(
                Subscription::ReleasingNames { app, observer, windows, index, resized, error },
                moved.release(),
            ),
            None => match resized {
                Some(resized) => Progress::Pending(
                    Subscription::ReleasingNames {
                        app,
                        observer,
                        windows,
                        index,
                        resized: None,
                        error,
                    },
                    resized.release(),
                ),
                None => match error {
                    Some(error) => Self::abandon_from(app, observer, windows, index, error),
                    None => Self::give_up(app, observer, windows, index),
                },
            },
        }
    }

    fn moved(
        app: App,
        observer: Unique<AXObserver>,
        windows: Windows,
        index: usize,
        step: Progress<Relayout, Result<(), UnnamedError>>,
    ) -> (progress: Progress<Subscription, Result<Unique<AXObserver>, UnnamedError>>)
        ensures
            progress == Self::after_move(app, observer, windows, index, step),
    {
        match step {
            Progress::Pending(relayout, call) => Progress::Pending(
                Subscription::Moving { app, observer, windows, index, relayout },
                call,
            ),
            Progress::Finished(Err(error)) => Self::abandon_from(
                app,
                observer,
                windows,
                index,
                error,
            ),
            Progress::Finished(Ok(())) => Progress::Pending(
                Subscription::ResizedName { app, observer, windows, index },
                ForeignCall::CreateString { literal: WINDOW_RESIZED },
            ),
        }
    }

    fn listed(
        app: App,
        observer: Unique<AXObserver>,
        step: Progress<WindowListing, Result<Windows, UnnamedError>>,
    ) -> (progress: Progress<Subscription, Result<Unique<AXObserver>, UnnamedError>>)
        ensures
            progress == Self::after_listing(app, observer, step),
    {
        match step {
            Progress::Pending(listing, call) => Progress::Pending(
                Subscription::Listing { app, observer, listing },
                call,
            ),
            Progress::Finished(Err(error)) => Self::abandon(app, observer, error),
            Progress::Finished(Ok(windows)) => Self::see(app, observer, windows, 0),
        }
    }

    /// Begins putting the windows of an application under observation.
    pub fn begin(app: App) -> (progress: Progress<
        Subscription,
        Result<Unique<AXObserver>, UnnamedError>,
    >)
        ensures
            progress == Self::first_step(app),
    {
        let pid = app.pid();
        Progress::Pending(Subscription::Observer { app }, ForeignCall::CreateObserver { pid })
    }

    /// Takes the reply to the pending call and makes the next step.
    pub fn resume(
        self,
        store: &mut LayoutAssignments,
        presets: &LayoutPresets,
        reply: ForeignReply,
    ) -> (progress: Progress<Subscription, Result<Unique<AXObserver>, UnnamedError>>)
        ensures
            (progress, final(store)@) == self.next_step(old(store)@, presets, reply),
    {
        match self {
            Subscription::Observer { app } => if reply.status != 0 {
                Self::end_app(app, Err(UnnamedError::AXError { code: reply.status }))
            } else {
                match Unique::new_mut(reply.handle) {
                    None => Self::end_app(app, Err(UnnamedError::UnexpectedNull)),
                    Some(observer) => {
                        let step = app.get_windows();
                        Self::listed(app, observer, step)
                    },
                }
            },
            Subscription::Listing { app, observer, listing } => Self::listed(
                app,
                observer,
                listing.resume(reply),
            ),
            Subscription::Identifying { app, observer, windows, index } => match windows.get(
                index,
            ) {
                None => Self::see(app, observer, windows, index),
                Some(window) => match MagicIdQuery.resume(reply) {
                    Progress::Finished(Ok(id)) => {
                        store.assign(window.bundle_id.as_str(), id, LayoutPreset::Full);
                        let step = window.relayout(presets.rect(LayoutPreset::Full));
                        Self::moved(app, observer, windows, index, step)
                    },
                    Progress::Finished(Err(error)) => Self::abandon_from(
                        app,
                        observer,
                        windows,
                        index,
                        error,
                    ),
                    Progress::Pending(_, _) => Self::see(app, observer, windows, index),
                },
            },
            Subscription::Moving { app, observer, windows, index, relayout } => Self::moved(
                app,
                observer,
                windows,
                index,
                relayout.resume(reply),
            ),
            Subscription::ResizedName { app, observer, windows, index } => match windows.get(
                index,
            ) {
                None => Self::see(app, observer, windows, index),
                Some(window) => match Unique::new_const(reply.handle) {
                    None => Self::abandon_from(
                        app,
                        observer,
                        windows,
                        index,
                        UnnamedError::CouldNotCreateCFObject,
                    ),
                    Some(resized) => {
                        let call = ForeignCall::AddNotification {
                            observer: observer.get(),
                            element: window.inner(),
                            notification: resized.get(),
                        };
                        Progress::Pending(
                            Subscription::Resized { app, observer, windows, index, resized },
                            call,
                        )
                    },
                },
            },
            Subscription::Resized { app, observer, windows, index, resized } => if reply.status
                != 0 {
                let error = with_context(
                    Context::ObserveResizes { bundle_id: app.bundle_id.clone() },
                    UnnamedError::AXError { code: reply.status },
                );
                Self::names_released(
                    app,
                    observer,
                    windows,
                    index,
                    None,
                    Some(resized),
                    Some(error),
                )
            } else {
                Progress::Pending(
                    Subscription::MovedName { app, observer, windows, index, resized },
                    ForeignCall::CreateString { literal: WINDOW_MOVED },
                )
            },
            Subscription::MovedName { app, observer, windows, index, resized } => match windows.get(
                index,
            ) {
                None => Self::names_released(
                    app,
                    observer,
                    windows,
                    index,
                    None,
                    Some(resized),
                    None,
                ),
                Some(window) => match Unique::new_const(reply.handle) {
                    None => Self::names_released(
                        app,
                        observer,
                        windows,
                        index,
                        None,
                        Some(resized),
                        Some(UnnamedError::CouldNotCreateCFObject),
                    ),
                    Some(moved) => {
                        let call = ForeignCall::AddNotification {
                            observer: observer.get(),
                            element: window.inner(),
                            notification: moved.get(),
                        };
                        Progress::Pending(
                            Subscription::Moved { app, observer, windows, index, resized, moved },
                            call,
                        )
                    },
                },
            },
            Subscription::Moved { app, observer, windows, index, resized, moved } => {
                let error = if reply.status != 0 {
                    Some(
                        with_context(
                            Context::ObserveMoves { bundle_id: app.bundle_id.clone() },
                            UnnamedError::AXError { code: reply.status },
                        ),
                    )
                } else {
                    None
                };
                Self::names_released(
                    app,
                    observer,
                    windows,
                    index,
                    Some(moved),
                    Some(resized),
                    error,
                )
            },
            Subscription::ReleasingNames { app, observer, windows, index, resized, error } => {
                Self::names_released(app, observer, windows, index, None, resized, error)
            },
            Subscription::Dropping { app, observer, windows, next } => Self::see(
                app,
                observer,
                windows,
                next,
            ),
            Subscription::Failing { app, observer, windows, next, error } => Self::abandon_from(
                app,
                observer,
                windows,
                next,
                error,
            ),
            Subscription::Source { app, observer } => if reply.handle == 0 {
                Self::abandon(app, observer, UnnamedError::UnexpectedNull)
            } else {
                Progress::Pending(
                    Subscription::Adding { app, observer },
                    ForeignCall::AddRunLoopSource { source: reply.handle },
                )
            },
            Subscription::Adding { app, observer } => Self::end_app(app, Ok(observer)),
            Subscription::ReleasingObserver { app, error } => Self::end_app(app, Err(error)),
            Subscription::ReleasingApp { result } => Progress::Finished(result),
        }
    }
}

} // verus!
