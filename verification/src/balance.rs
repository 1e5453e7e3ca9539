//! The books of references.
//!
//! The runtime hands a reference over with the reply to some calls, gives
//! one more with every retain and takes one back with every release. A
//! procedure answers for the references that the owners in its state hold.
//! The laws of this module say that the two agree after every step: what a
//! procedure holds is what it was given, so nothing leaks and nothing is
//! released twice.

use vstd::prelude::*;

use crate::assignments::Assignments;
use crate::engine::{LayoutUpdate, Notification, Notified};
use crate::error::UnnamedError;
use crate::foreign::{ForeignCall, ForeignReply, Progress};
use crate::keys::Command;
use crate::layout::{AXRect, LayoutPresets, Made, PresetEncoding};
use crate::memory::{
    AXObserver, AXUIElement, AXValue, CFString, CFType, CopyOnWrite, NSRunningApplication, Rc,
    Unique,
};
use crate::startup::{AppListing, PermissionCheck, Subscription};
use crate::wrappers::{
    AccessibilityElement, AccessibilityElementKey, App, AppCreation, AttributeCopy, AttributeProbe, AttributeRead,
    AttributeWrite, FocusedWindow, MagicIdQuery, Placement, Relayout, StringCreation, Window,
    WindowBorrow, WindowListing, WindowMagicId, Windows,
};

verus! {

/// One if the two handles are the same, and zero if not.
pub open spec fn one(held: usize, handle: usize) -> int {
    if held == handle {
        1
    } else {
        0
    }
}

/// How many references to `handle` the runtime hands over by serving a
/// call with a reply: one for an object that it made or copied, one for a
/// retain, and one less for a release.
pub open spec fn granted(call: ForeignCall, reply: ForeignReply, handle: usize) -> int {
    match call {
        ForeignCall::Retain { handle: retained } => one(retained, handle),
        ForeignCall::Release { handle: released } => -one(released, handle),
        ForeignCall::CreateString { .. }
        | ForeignCall::CreateText { .. }
        | ForeignCall::CreatePoint { .. }
        | ForeignCall::CreateSize { .. }
        | ForeignCall::CreateApplicationElement { .. }
        | ForeignCall::CreateTrustOptions
        | ForeignCall::RunningApplications { .. } => if reply.handle != 0 {
            one(reply.handle, handle)
        } else {
            0
        },
        ForeignCall::CopyAttributeValue { .. } | ForeignCall::CreateObserver { .. } => if reply.status
            == 0 && reply.handle != 0 {
            one(reply.handle, handle)
        } else {
            0
        },
        _ => 0,
    }
}

/// How many references to `handle` serving a call will hand over whatever
/// the reply is: one for a retain, one less for a release.
pub open spec fn pending(call: ForeignCall, handle: usize) -> int {
    match call {
        ForeignCall::Retain { handle: retained } => one(retained, handle),
        ForeignCall::Release { handle: released } => -one(released, handle),
        _ => 0,
    }
}

/// Something that may answer for references to foreign objects.
pub trait Holding {
    /// How many references to `handle` the value answers for.
    spec fn holds(&self, handle: usize) -> int;
}

impl<T> Holding for Rc<T> {
    open spec fn holds(&self, handle: usize) -> int {
        one(self@, handle)
    }
}

impl<T> Holding for Unique<T> {
    open spec fn holds(&self, handle: usize) -> int {
        one(self@, handle)
    }
}

impl<T> Holding for CopyOnWrite<T> {
    open spec fn holds(&self, handle: usize) -> int {
        match self {
            CopyOnWrite::Owned(owner) => one(owner@, handle),
            CopyOnWrite::Borrowed(_) => 0,
        }
    }
}

impl Holding for () {
    open spec fn holds(&self, handle: usize) -> int {
        0
    }
}

impl Holding for bool {
    open spec fn holds(&self, handle: usize) -> int {
        0
    }
}

impl<T: Holding> Holding for Option<T> {
    open spec fn holds(&self, handle: usize) -> int {
        match self {
            Some(value) => value.holds(handle),
            None => 0,
        }
    }
}

impl<T: Holding> Holding for Result<T, UnnamedError> {
    open spec fn holds(&self, handle: usize) -> int {
        match self {
            Ok(value) => value.holds(handle),
            Err(_) => 0,
        }
    }
}

/// What a procedure answers for at a point of its run. A pending retain
/// is not yet held, and what a pending release gives up still is.
pub open spec fn balance<M: Holding, R: Holding>(progress: Progress<M, R>, handle: usize) -> int {
    match progress {
        Progress::Pending(state, call) => state.holds(handle) - pending(call, handle),
        Progress::Finished(result) => result.holds(handle),
    }
}

/// How many of the handles from `next` up to, but not including, `upto`
/// are `handle`.
pub open spec fn among(handles: Seq<usize>, next: int, upto: int, handle: usize) -> int
    decreases upto - next,
{
    if 0 <= next < upto && next < handles.len() {
        one(handles[next], handle) + among(handles, next + 1, upto, handle)
    } else {
        0
    }
}

/// Counting one handle more counts that handle.
pub proof fn lemma_among_one_more(handles: Seq<usize>, next: int, upto: int, handle: usize)
    requires
        0 <= next <= upto < handles.len(),
    ensures
        among(handles, next, upto + 1, handle) == among(handles, next, upto, handle) + one(
            handles[upto],
            handle,
        ),
    decreases upto - next,
{
    if next < upto {
        lemma_among_one_more(handles, next + 1, upto, handle);
    } else {
        assert(among(handles, next + 1, upto + 1, handle) == 0);
    }
}

impl Holding for WindowMagicId {
    open spec fn holds(&self, handle: usize) -> int {
        0
    }
}

impl Holding for (i32, usize) {
    /// The value of a read that succeeded is a reference.
    open spec fn holds(&self, handle: usize) -> int {
        if self.0 == 0 && self.1 != 0 {
            one(self.1, handle)
        } else {
            0
        }
    }
}

impl Holding for usize {
    /// A bare handle that owes the runtime a release.
    open spec fn holds(&self, handle: usize) -> int {
        one(*self, handle)
    }
}

impl Holding for Window {
    open spec fn holds(&self, handle: usize) -> int {
        self.inner.holds(handle)
    }
}

impl Holding for App {
    open spec fn holds(&self, handle: usize) -> int {
        self.inner.holds(handle)
    }
}

impl Holding for Windows {
    open spec fn holds(&self, handle: usize) -> int {
        among(self.handles@, 0, self.handles@.len() as int, handle)
    }
}

impl Holding for AXRect {
    open spec fn holds(&self, handle: usize) -> int {
        self.origin.holds(handle) + self.size.holds(handle)
    }
}

impl Holding for LayoutPresets {
    open spec fn holds(&self, handle: usize) -> int {
        self.rects[0].holds(handle) + self.rects[1].holds(handle) + self.rects[2].holds(handle)
    }
}

impl Holding for StringCreation {
    open spec fn holds(&self, handle: usize) -> int {
        0
    }
}

impl Holding for AttributeWrite {
    open spec fn holds(&self, handle: usize) -> int {
        match self {
            AttributeWrite::Status { key } => key.holds(handle),
            _ => 0,
        }
    }
}

impl Holding for AttributeCopy {
    open spec fn holds(&self, handle: usize) -> int {
        match self {
            AttributeCopy::Key { .. } => 0,
            AttributeCopy::Value { key } => key.holds(handle),
            AttributeCopy::Release { status, value } => (*status, *value).holds(handle),
        }
    }
}

impl Holding for AttributeRead {
    open spec fn holds(&self, handle: usize) -> int {
        self.copy.holds(handle)
    }
}

impl Holding for AttributeProbe {
    open spec fn holds(&self, handle: usize) -> int {
        self.copy.holds(handle)
    }
}

impl Holding for MagicIdQuery {
    open spec fn holds(&self, handle: usize) -> int {
        0
    }
}

impl Holding for Relayout {
    open spec fn holds(&self, handle: usize) -> int {
        match self {
            Relayout::Position { write, .. } => write.holds(handle),
            Relayout::Size { write, .. } => write.holds(handle),
        }
    }
}

impl Holding for WindowBorrow {
    open spec fn holds(&self, handle: usize) -> int {
        0
    }
}

impl Holding for AppCreation {
    open spec fn holds(&self, handle: usize) -> int {
        match self {
            AppCreation::Pid { app, .. } => app.holds(handle),
            AppCreation::Element { app, .. } => app.holds(handle),
            AppCreation::BundleId { app, inner, .. } => app.holds(handle) + inner.holds(handle),
            AppCreation::Text { app, inner, .. } => app.holds(handle) + inner.holds(handle),
            AppCreation::Unwinding { app, .. } => app.holds(handle),
            AppCreation::Ending { result } => result.holds(handle),
        }
    }
}

impl Holding for WindowListing {
    open spec fn holds(&self, handle: usize) -> int {
        match self {
            WindowListing::Reading { read, .. } => read.holds(handle),
            WindowListing::Elements { array, .. } => array.holds(handle),
            WindowListing::Retaining { array, handles, next, .. } => array.holds(handle) + among(
                handles@,
                0,
                *next as int,
                handle,
            ),
            WindowListing::Unwinding { array, handles, upto, next } => array.holds(handle) + among(
                handles@,
                *next as int,
                *upto as int,
                handle,
            ),
            WindowListing::Closing { result } => result.holds(handle),
        }
    }
}

impl Holding for FocusedWindow {
    open spec fn holds(&self, handle: usize) -> int {
        self.probe.holds(handle)
    }
}

impl Holding for PermissionCheck {
    open spec fn holds(&self, handle: usize) -> int {
        match self {
            PermissionCheck::Answer { options } => options.holds(handle),
            _ => 0,
        }
    }
}

impl Holding for Made {
    open spec fn holds(&self, handle: usize) -> int {
        self.origin.holds(handle) + self.left_size.holds(handle) + self.left_origin.holds(handle)
            + self.full_size.holds(handle) + self.full_origin.holds(handle)
    }
}

impl Holding for PresetEncoding {
    open spec fn holds(&self, handle: usize) -> int {
        match self {
            PresetEncoding::Screen => 0,
            PresetEncoding::Origin { full, left, .. } => full.holds(handle) + left.holds(handle),
            PresetEncoding::Size { full, left, origin, .. } => full.holds(handle) + left.holds(
                handle,
            ) + origin.holds(handle),
            PresetEncoding::Unwinding { made } => made.holds(handle),
        }
    }
}

/// Making a string keeps the books: it begins with nothing and ends with
/// the string that it was given.
pub proof fn lemma_string_keeps_books(
    string: &'static str,
    reply: ForeignReply,
    handle: usize,
)
    ensures
        balance(StringCreation::first_step(string), handle) == 0,
        StringCreation::first_step(string) matches Progress::Pending(state, call) ==> balance(
            state.next_step(reply),
            handle,
        ) == granted(call, reply, handle),
{
    Unique::<CFString>::lemma_adopted(reply.handle);
}

/// Writing an attribute keeps the books. It begins with nothing; after
/// every step it holds what it held and what the step's call was answered
/// with; and it ends with nothing, so the name that it made is released.
pub proof fn lemma_write_keeps_books(
    element: usize,
    key: AccessibilityElementKey,
    value: usize,
    before: AttributeWrite,
    earlier: ForeignReply,
    reply: ForeignReply,
    handle: usize,
)
    ensures
        balance(AttributeWrite::first_step(element, key, value), handle) == 0,
        AttributeWrite::first_step(element, key, value) matches Progress::Pending(state, call)
            ==> balance(state.next_step(reply), handle) == granted(call, reply, handle),
        before.next_step(earlier) matches Progress::Pending(state, call) ==> balance(
            state.next_step(reply),
            handle,
        ) == balance(before.next_step(earlier), handle) + granted(call, reply, handle),
{
    Unique::<CFString>::lemma_adopted(reply.handle);
    Unique::<CFString>::lemma_adopted(earlier.handle);
}

/// Reading a required value keeps the books. It ends with the value, if it
/// got one, and with nothing else.
pub proof fn lemma_read_keeps_books(
    element: usize,
    key: AccessibilityElementKey,
    before: AttributeRead,
    earlier: ForeignReply,
    reply: ForeignReply,
    handle: usize,
)
    ensures
        balance(AttributeRead::first_step(element, key), handle) == 0,
        AttributeRead::first_step(element, key) matches Progress::Pending(state, call) ==> balance(
            state.next_step(reply),
            handle,
        ) == granted(call, reply, handle),
        before.next_step(earlier) matches Progress::Pending(state, call) ==> balance(
            state.next_step(reply),
            handle,
        ) == balance(before.next_step(earlier), handle) + granted(call, reply, handle),
{
    Unique::<CFString>::lemma_adopted(reply.handle);
    Unique::<CFString>::lemma_adopted(earlier.handle);
    match before.copy {
        AttributeCopy::Release { status, value } => {
            Rc::<CFType>::lemma_adopted(value);
        },
        _ => {},
    }
    match before.next_step(earlier) {
        Progress::Pending(AttributeRead { copy: AttributeCopy::Release { status, value } }, _) => {
            Rc::<CFType>::lemma_adopted(value);
        },
        _ => {},
    }
}

/// Reading an optional value keeps the books. It ends with the value, if
/// it got one, as a bare handle.
pub proof fn lemma_probe_keeps_books(
    element: usize,
    key: AccessibilityElementKey,
    before: AttributeProbe,
    earlier: ForeignReply,
    reply: ForeignReply,
    handle: usize,
)
    ensures
        balance(AttributeProbe::first_step(element, key), handle) == 0,
        AttributeProbe::first_step(element, key) matches Progress::Pending(state, call)
            ==> balance(state.next_step(reply), handle) == granted(call, reply, handle),
        before.next_step(earlier) matches Progress::Pending(state, call) ==> balance(
            state.next_step(reply),
            handle,
        ) == balance(before.next_step(earlier), handle) + granted(call, reply, handle),
{
    Unique::<CFString>::lemma_adopted(reply.handle);
    Unique::<CFString>::lemma_adopted(earlier.handle);
}

/// A relayout keeps the books. It begins with nothing; after every step it
/// holds what it held and what the step's call was answered with; and it
/// ends with nothing, so every name that it made is released.
pub proof fn lemma_relayout_keeps_books(
    element: usize,
    bundle_id: String,
    origin: usize,
    size: usize,
    before: Relayout,
    earlier: ForeignReply,
    reply: ForeignReply,
    handle: usize,
)
    ensures
        balance(Relayout::first_step(element, bundle_id, origin, size), handle) == 0,
        Relayout::first_step(element, bundle_id, origin, size) matches Progress::Pending(
            state,
            call,
        ) ==> balance(state.next_step(reply), handle) == granted(call, reply, handle),
        before.next_step(earlier) matches Progress::Pending(state, call) ==> balance(
            state.next_step(reply),
            handle,
        ) == balance(before.next_step(earlier), handle) + granted(call, reply, handle),
{
    Unique::<CFString>::lemma_adopted(reply.handle);
    Unique::<CFString>::lemma_adopted(earlier.handle);
}

/// Making a window of a notification's element keeps the books, which stay
/// empty: no call of it hands a reference over, and the window at its end
/// holds none.
pub proof fn lemma_borrow_keeps_books(
    element: usize,
    before: WindowBorrow,
    earlier: ForeignReply,
    reply: ForeignReply,
    handle: usize,
)
    ensures
        balance(WindowBorrow::first_step(element), handle) == 0,
        WindowBorrow::first_step(element) matches Progress::Pending(state, call) ==> balance(
            state.next_step(reply),
            handle,
        ) == granted(call, reply, handle),
        before.next_step(earlier) matches Progress::Pending(state, call) ==> balance(
            state.next_step(reply),
            handle,
        ) == balance(before.next_step(earlier), handle) + granted(call, reply, handle),
{
}

/// Making an application keeps the books. It begins with the running
/// application that it was given, if that is owned, and ends with the
/// element of the application that it made, or with nothing.
pub proof fn lemma_creation_keeps_books(
    app: CopyOnWrite<NSRunningApplication>,
    bundle_id: Option<String>,
    before: AppCreation,
    earlier: ForeignReply,
    reply: ForeignReply,
    handle: usize,
)
    ensures
        balance(AppCreation::first_step(app, bundle_id), handle) == app.holds(handle),
        AppCreation::first_step(app, bundle_id) matches Progress::Pending(state, call) ==> balance(
            state.next_step(reply),
            handle,
        ) == app.holds(handle) + granted(call, reply, handle),
        before.next_step(earlier) matches Progress::Pending(state, call) ==> balance(
            state.next_step(reply),
            handle,
        ) == balance(before.next_step(earlier), handle) + granted(call, reply, handle),
{
    Rc::<AXUIElement>::lemma_adopted(reply.handle);
    Rc::<AXUIElement>::lemma_adopted(earlier.handle);
}

/// Asking for the focused window keeps the books. It ends with the window,
/// if there is one, and with nothing else.
pub proof fn lemma_focus_keeps_books(
    element: usize,
    bundle_id: String,
    before: FocusedWindow,
    earlier: ForeignReply,
    reply: ForeignReply,
    handle: usize,
)
    ensures
        balance(FocusedWindow::first_step(element, bundle_id), handle) == 0,
        FocusedWindow::first_step(element, bundle_id) matches Progress::Pending(state, call)
            ==> balance(state.next_step(reply), handle) == granted(call, reply, handle),
        before.next_step(earlier) matches Progress::Pending(state, call) ==> balance(
            state.next_step(reply),
            handle,
        ) == balance(before.next_step(earlier), handle) + granted(call, reply, handle),
{
    Unique::<CFString>::lemma_adopted(reply.handle);
    Unique::<CFString>::lemma_adopted(earlier.handle);
    match before.probe.copy {
        AttributeCopy::Release { status, value } => {
            Rc::<AXUIElement>::lemma_adopted(value);
        },
        _ => {},
    }
    match before.next_step(earlier) {
        Progress::Pending(
            FocusedWindow { probe: AttributeProbe { copy: AttributeCopy::Release { status, value } }, .. },
            _,
        ) => {
            Rc::<AXUIElement>::lemma_adopted(value);
        },
        _ => {},
    }
}

/// The permission check keeps the books and ends with nothing.
pub proof fn lemma_permission_keeps_books(
    before: PermissionCheck,
    earlier: ForeignReply,
    reply: ForeignReply,
    handle: usize,
)
    ensures
        balance(PermissionCheck::first_step(), handle) == 0,
        PermissionCheck::first_step() matches Progress::Pending(state, call) ==> balance(
            state.next_step(reply),
            handle,
        ) == granted(call, reply, handle),
        before.next_step(earlier) matches Progress::Pending(state, call) ==> balance(
            state.next_step(reply),
            handle,
        ) == balance(before.next_step(earlier), handle) + granted(call, reply, handle),
{
    Rc::<crate::memory::CFDictionary>::lemma_adopted(reply.handle);
    Rc::<crate::memory::CFDictionary>::lemma_adopted(earlier.handle);
}

/// Listing the windows of an application keeps the books for every
/// object. It begins with nothing; it ends with one reference to every
/// window that it lists, or, if it fails, with nothing.
pub proof fn lemma_listing_keeps_books(
    element: usize,
    bundle_id: String,
    before: WindowListing,
    earlier: ForeignReply,
    reply: ForeignReply,
    handle: usize,
)
    requires
        handle != 0,
    ensures
        balance(WindowListing::first_step(element, bundle_id), handle) == 0,
        WindowListing::first_step(element, bundle_id) matches Progress::Pending(state, call)
            ==> balance(state.next_step(reply), handle) == granted(call, reply, handle),
        before.next_step(earlier) matches Progress::Pending(state, call) ==> balance(
            state.next_step(reply),
            handle,
        ) == balance(before.next_step(earlier), handle) + granted(call, reply, handle),
{
    broadcast use vstd::std_specs::vec::axiom_spec_len;

    Unique::<CFString>::lemma_adopted(reply.handle);
    Unique::<CFString>::lemma_adopted(earlier.handle);
    Rc::<CFType>::lemma_adopted(earlier.handle);
    assert(earlier.handles.len() == earlier.handles@.len());
    match before {
        WindowListing::Reading { read, .. } => {
            match read.copy {
                AttributeCopy::Release { status, value } => {
                    Rc::<CFType>::lemma_adopted(value);
                },
                _ => {},
            }
        },
        WindowListing::Retaining { handles, .. } => {
            assert(handles.len() == handles@.len());
        },
        WindowListing::Unwinding { handles, .. } => {
            assert(handles.len() == handles@.len());
        },
        _ => {},
    }
    match before.next_step(earlier) {
        Progress::Pending(state, call) => {
            lemma_listing_step(state, call, reply, handle);
        },
        _ => {},
    }
}

/// Whether a listing at rest can be waiting for the reply to the call.
pub open spec fn listing_awaits(state: WindowListing, call: ForeignCall) -> bool {
    match state {
        WindowListing::Reading { read: AttributeRead { copy: AttributeCopy::Key { .. } }, .. } => {
            call is CreateString
        },
        WindowListing::Reading {
            read: AttributeRead { copy: AttributeCopy::Value { .. } },
            ..
        } => call is CopyAttributeValue,
        WindowListing::Reading {
            read: AttributeRead { copy: AttributeCopy::Release { .. } },
            ..
        } => call is Release,
        WindowListing::Elements { .. } => call is ArrayElements,
        WindowListing::Retaining { handles, next, .. } => 0 < next <= handles@.len() && call == (
        ForeignCall::Retain { handle: handles@[next - 1] }),
        WindowListing::Unwinding { handles, upto, next, .. } => 0 < next <= upto && next
            <= handles@.len() && call == (ForeignCall::Release { handle: handles@[next - 1] }),
        WindowListing::Closing { .. } => call is Release,
    }
}

proof fn lemma_listing_step(state: WindowListing, call: ForeignCall, reply: ForeignReply, handle: usize)
    requires
        handle != 0,
        listing_awaits(state, call),
    ensures
        balance(state.next_step(reply), handle) == balance(
            Progress::<WindowListing, Result<Windows, UnnamedError>>::Pending(state, call),
            handle,
        ) + granted(call, reply, handle),
{
    broadcast use vstd::std_specs::vec::axiom_spec_len;

    Unique::<CFString>::lemma_adopted(reply.handle);
    match state {
        WindowListing::Reading { read, .. } => {
            match read.copy {
                AttributeCopy::Release { status, value } => {
                    Rc::<CFType>::lemma_adopted(value);
                },
                _ => {},
            }
        },
        WindowListing::Elements { array, .. } => {
            let handles = reply.handles@;
            assert(reply.handles.len() == handles.len());
            if handles.len() > 0 {
                lemma_among_one_more(handles, 0, 0, handle);
            }
        },
        WindowListing::Retaining { handles, next, .. } => {
            assert(handles.len() == handles@.len());
            let handles = handles@;
            lemma_among_one_more(handles, 0, next - 1, handle);
            if next < handles.len() {
                lemma_among_one_more(handles, 0, next as int, handle);
            }
        },
        WindowListing::Unwinding { handles, upto, next, .. } => {
            assert(handles.len() == handles@.len());
        },
        WindowListing::Closing { .. } => {},
    }
}

/// Encoding the presets keeps the books. It begins with nothing; it ends
/// with the six values of the presets, or, if it fails, with nothing:
/// every value that it made is released.
pub proof fn lemma_encoding_keeps_books(
    before: PresetEncoding,
    earlier: ForeignReply,
    reply: ForeignReply,
    handle: usize,
)
    ensures
        balance(PresetEncoding::first_step(), handle) == 0,
        PresetEncoding::first_step() matches Progress::Pending(state, call) ==> balance(
            state.next_step(reply),
            handle,
        ) == granted(call, reply, handle),
        before.next_step(earlier) matches Progress::Pending(state, call) ==> balance(
            state.next_step(reply),
            handle,
        ) == balance(before.next_step(earlier), handle) + granted(call, reply, handle),
{
    Unique::<AXValue>::lemma_adopted(reply.handle);
    Unique::<AXValue>::lemma_adopted(earlier.handle);
}

impl Holding for Notified {
    open spec fn holds(&self, handle: usize) -> int {
        0
    }
}

impl Holding for Notification {
    open spec fn holds(&self, handle: usize) -> int {
        match self {
            Notification::Borrowing { borrow } => borrow.holds(handle),
            Notification::Identifying { window } => window.holds(handle),
            Notification::Moving { window, relayout, .. } => window.holds(handle) + relayout.holds(
                handle,
            ),
            Notification::Reporting { window, .. } => window.holds(handle),
            Notification::Closing { .. } => 0,
        }
    }
}

/// Dealing with a notification keeps the books, and they begin and end
/// empty: the element that the notification brought is never retained and
/// never released, and every name that a relayout made is released.
pub proof fn lemma_notification_keeps_books(
    element: usize,
    before: Notification,
    store: Assignments,
    presets: &LayoutPresets,
    earlier: ForeignReply,
    reply: ForeignReply,
    handle: usize,
)
    ensures
        balance(Notification::first_step(element), handle) == 0,
        Notification::first_step(element) matches Progress::Pending(state, call) ==> balance(
            state.next_step(store, presets, reply).0,
            handle,
        ) == granted(call, reply, handle),
        before.next_step(store, presets, earlier).0 matches Progress::Pending(state, call)
            ==> balance(state.next_step(store, presets, reply).0, handle) == balance(
            before.next_step(store, presets, earlier).0,
            handle,
        ) + granted(call, reply, handle),
{
    Unique::<CFString>::lemma_adopted(reply.handle);
    Unique::<CFString>::lemma_adopted(earlier.handle);
}

/// Whether no window of the list is null.
pub open spec fn all_live(windows: Windows) -> bool {
    forall|i: int| 0 <= i < windows.handles@.len() ==> #[trigger] windows.handles@[i] != 0
}

/// Whether a listing is in order: the elements that it has retained are
/// not null.
pub open spec fn listing_in_order(state: WindowListing) -> bool {
    match state {
        WindowListing::Retaining { handles, next, .. } => forall|i: int|
            0 <= i < next && i < handles@.len() ==> #[trigger] handles@[i] != 0,
        WindowListing::Closing { result: Ok(windows) } => all_live(windows),
        _ => true,
    }
}

/// A listing stays in order, and the windows that it ends with are not
/// null.
pub proof fn lemma_listing_stays_in_order(
    element: usize,
    bundle_id: String,
    before: WindowListing,
    reply: ForeignReply,
)
    ensures
        WindowListing::first_step(element, bundle_id) matches Progress::Pending(state, _)
            && listing_in_order(state),
        listing_in_order(before) ==> match before.next_step(reply) {
            Progress::Pending(state, _) => listing_in_order(state),
            Progress::Finished(Ok(windows)) => all_live(windows),
            Progress::Finished(Err(_)) => true,
        },
{
    broadcast use vstd::std_specs::vec::axiom_spec_len;

    match before {
        WindowListing::Retaining { handles, .. } => {
            assert(handles.len() == handles@.len());
        },
        WindowListing::Elements { .. } => {
            assert(reply.handles.len() == reply.handles@.len());
        },
        _ => {},
    }
}

impl Holding for LayoutUpdate {
    open spec fn holds(&self, handle: usize) -> int {
        match self {
            LayoutUpdate::Workspace { .. } => 0,
            LayoutUpdate::Frontmost { .. } => 0,
            LayoutUpdate::Creating { creation, .. } => creation.holds(handle),
            LayoutUpdate::Focusing { app, focus, .. } => app.holds(handle) + focus.holds(handle),
            LayoutUpdate::NoWindow { app } => app.holds(handle),
            LayoutUpdate::IdentifyingFocused { app, focused, .. } => app.holds(handle)
                + focused.holds(handle),
            LayoutUpdate::Listing { app, focused, listing } => app.holds(handle) + focused.holds(
                handle,
            ) + listing.holds(handle),
            LayoutUpdate::Identifying { app, focused, windows, index } => app.holds(handle)
                + focused.holds(handle) + among(
                windows.handles@,
                *index as int,
                windows.handles@.len() as int,
                handle,
            ),
            LayoutUpdate::Moving { app, focused, windows, index, relayout } => app.holds(handle)
                + focused.holds(handle) + among(
                windows.handles@,
                *index as int,
                windows.handles@.len() as int,
                handle,
            ) + relayout.holds(handle),
            LayoutUpdate::Reporting { app, focused, windows, index } => app.holds(handle)
                + focused.holds(handle) + among(
                windows.handles@,
                *index as int,
                windows.handles@.len() as int,
                handle,
            ),
            LayoutUpdate::Dropping { app, focused, windows, next } => app.holds(handle)
                + focused.holds(handle) + among(
                windows.handles@,
                *next as int,
                windows.handles@.len() as int,
                handle,
            ),
            LayoutUpdate::Failing { app, focused, windows, next, .. } => app.holds(handle)
                + focused.holds(handle) + among(
                windows.handles@,
                *next as int,
                windows.handles@.len() as int,
                handle,
            ),
            LayoutUpdate::ReleasingFocused { app, .. } => app.holds(handle),
            LayoutUpdate::ReleasingApp { .. } => 0,
        }
    }
}

/// Whether a command at rest is in order: the windows that it goes through
/// are not null, and the window that it is busy with is one of them.
pub open spec fn update_in_order(state: LayoutUpdate) -> bool {
    match state {
        LayoutUpdate::Listing { listing, .. } => listing_in_order(listing),
        LayoutUpdate::Identifying { windows, .. } => all_live(windows),
        LayoutUpdate::Moving { windows, index, .. } => all_live(windows) && index
            < windows.handles@.len(),
        LayoutUpdate::Reporting { windows, index, .. } => all_live(windows) && index
            < windows.handles@.len(),
        LayoutUpdate::Dropping { windows, .. } => all_live(windows),
        LayoutUpdate::Failing { windows, .. } => all_live(windows),
        _ => true,
    }
}

/// A command stays in order from its first step on.
pub proof fn lemma_update_stays_in_order(
    command: Command,
    before: LayoutUpdate,
    store: Assignments,
    presets: &LayoutPresets,
    reply: ForeignReply,
)
    ensures
        LayoutUpdate::first_step(command) matches Progress::Pending(state, _) && update_in_order(
            state,
        ),
        update_in_order(before) ==> (before.next_step(store, presets, reply).0 matches Progress::Pending(
            state,
            _,
        ) ==> update_in_order(state)),
{
    match before {
        LayoutUpdate::Listing { app, focused, listing } => {
            lemma_listing_stays_in_order(0, app.bundle_id, listing, reply);
        },
        LayoutUpdate::IdentifyingFocused { app, .. } => {
            lemma_listing_stays_in_order(app.element(), app.bundle_id, arbitrary(), reply);
        },
        _ => {},
    }
}

/// Carrying out a command keeps the books for every object. They begin
/// empty and end empty, whether the command succeeds or fails: the
/// application's element, the focused window and every window of the list
/// are released, each once, and so is every name that was made on the way.
pub proof fn lemma_update_keeps_books(
    command: Command,
    before: LayoutUpdate,
    store: Assignments,
    later: Assignments,
    presets: &LayoutPresets,
    earlier: ForeignReply,
    reply: ForeignReply,
    handle: usize,
)
    requires
        handle != 0,
        update_in_order(before),
    ensures
        balance(LayoutUpdate::first_step(command), handle) == 0,
        LayoutUpdate::first_step(command) matches Progress::Pending(state, call) ==> balance(
            state.next_step(store, presets, reply).0,
            handle,
        ) == granted(call, reply, handle),
        before.next_step(store, presets, earlier).0 matches Progress::Pending(state, call)
            ==> balance(state.next_step(later, presets, reply).0, handle) == balance(
            before.next_step(store, presets, earlier).0,
            handle,
        ) + granted(call, reply, handle),
{
    broadcast use vstd::std_specs::vec::axiom_spec_len;

    lemma_update_stays_in_order(command, before, store, presets, earlier);
    match before.next_step(store, presets, earlier).0 {
        Progress::Pending(state, call) => {
            lemma_update_awaits(before, store, presets, earlier);
            lemma_update_step(state, call, later, presets, reply, handle);
        },
        _ => {},
    }
}

/// Whether a command at rest can be waiting for the reply to the call.
pub open spec fn update_awaits(state: LayoutUpdate, call: ForeignCall) -> bool {
    match state {
        LayoutUpdate::Workspace { .. } => call is SharedWorkspace,
        LayoutUpdate::Frontmost { .. } => call is FrontmostApplication,
        LayoutUpdate::Creating { creation, .. } => creation_awaits(creation, call),
        LayoutUpdate::Focusing { focus, .. } => copy_awaits(focus.probe.copy, call),
        LayoutUpdate::NoWindow { .. } => call is Report,
        LayoutUpdate::IdentifyingFocused { .. } => call is ElementWindow,
        LayoutUpdate::Listing { listing, .. } => listing_awaits(listing, call),
        LayoutUpdate::Identifying { windows, index, .. } => call is ElementWindow && index
            < windows.handles@.len(),
        LayoutUpdate::Moving { relayout, windows, index, .. } => relayout_awaits(relayout, call)
            && index < windows.handles@.len(),
        LayoutUpdate::Reporting { windows, index, .. } => call is Report && index
            < windows.handles@.len(),
        LayoutUpdate::Dropping { windows, next, .. } => 0 < next <= windows.handles@.len() && call
            == (ForeignCall::Release { handle: windows.handles@[next - 1] }),
        LayoutUpdate::Failing { windows, next, .. } => 0 < next <= windows.handles@.len() && call
            == (ForeignCall::Release { handle: windows.handles@[next - 1] }),
        LayoutUpdate::ReleasingFocused { .. } => call is Release,
        LayoutUpdate::ReleasingApp { .. } => call is Release,
    }
}

/// Whether the making of an application can be waiting for the reply to
/// the call.
pub open spec fn creation_awaits(state: AppCreation, call: ForeignCall) -> bool {
    match state {
        AppCreation::Pid { .. } => call is ProcessIdentifier,
        AppCreation::Element { .. } => call is CreateApplicationElement,
        AppCreation::BundleId { .. } => call is BundleIdentifier,
        AppCreation::Text { .. } => call is TextContents,
        AppCreation::Unwinding { .. } => call is Release,
        AppCreation::Ending { .. } => call is Release,
    }
}

/// Whether the reading of an attribute can be waiting for the reply to the
/// call.
pub open spec fn copy_awaits(state: AttributeCopy, call: ForeignCall) -> bool {
    match state {
        AttributeCopy::Key { .. } => call is CreateString,
        AttributeCopy::Value { .. } => call is CopyAttributeValue,
        AttributeCopy::Release { .. } => call is Release,
    }
}

/// Whether a relayout can be waiting for the reply to the call.
pub open spec fn relayout_awaits(state: Relayout, call: ForeignCall) -> bool {
    let write = match state {
        Relayout::Position { write, .. } => write,
        Relayout::Size { write, .. } => write,
    };
    match write {
        AttributeWrite::Key { .. } => call is CreateString,
        AttributeWrite::Status { .. } => call is SetAttributeValue,
        AttributeWrite::Release { .. } => call is Release,
    }
}

proof fn lemma_update_awaits(
    before: LayoutUpdate,
    store: Assignments,
    presets: &LayoutPresets,
    reply: ForeignReply,
)
    requires
        update_in_order(before),
    ensures
        before.next_step(store, presets, reply).0 matches Progress::Pending(state, call)
            ==> update_awaits(state, call),
{
    broadcast use vstd::std_specs::vec::axiom_spec_len;

    match before {
        LayoutUpdate::Listing { app, listing, .. } => {
            lemma_listing_stays_in_order(0, app.bundle_id, listing, reply);
            match listing {
                WindowListing::Retaining { handles, .. } => {
                    assert(handles.len() == handles@.len());
                },
                WindowListing::Unwinding { handles, .. } => {
                    assert(handles.len() == handles@.len());
                },
                WindowListing::Elements { .. } => {
                    assert(reply.handles.len() == reply.handles@.len());
                },
                _ => {},
            }
            match listing.next_step(reply) {
                Progress::Finished(Ok(windows)) => {
                    lemma_windows_from(windows, 0, 0);
                },
                _ => {},
            }
        },
        LayoutUpdate::Identifying { windows, index, .. } => {
            lemma_windows_from(windows, index as int, 0);
        },
        LayoutUpdate::Moving { windows, index, .. } => {
            lemma_windows_from(windows, index as int, 0);
        },
        LayoutUpdate::Reporting { windows, index, .. } => {
            lemma_windows_from(windows, index as int, 0);
        },
        LayoutUpdate::Dropping { windows, next, .. } => {
            lemma_windows_from(windows, next as int, 0);
        },
        LayoutUpdate::Failing { windows, next, .. } => {
            lemma_windows_from(windows, next as int, 0);
        },
        _ => {},
    }
}

proof fn lemma_update_step(
    state: LayoutUpdate,
    call: ForeignCall,
    store: Assignments,
    presets: &LayoutPresets,
    reply: ForeignReply,
    handle: usize,
)
    requires
        handle != 0,
        update_in_order(state),
        update_awaits(state, call),
    ensures
        balance(state.next_step(store, presets, reply).0, handle) == balance(
            Progress::<LayoutUpdate, Result<(), UnnamedError>>::Pending(state, call),
            handle,
        ) + granted(call, reply, handle),
{
    match state {
        LayoutUpdate::Workspace { .. }
        | LayoutUpdate::Frontmost { .. }
        | LayoutUpdate::Creating { .. }
        | LayoutUpdate::Focusing { .. }
        | LayoutUpdate::NoWindow { .. }
        | LayoutUpdate::IdentifyingFocused { .. }
        | LayoutUpdate::ReleasingFocused { .. }
        | LayoutUpdate::ReleasingApp { .. } => {
            lemma_update_step_before_the_windows(state, call, store, presets, reply, handle);
        },
        LayoutUpdate::Listing { .. } => {
            lemma_update_step_listing(state, call, store, presets, reply, handle);
        },
        LayoutUpdate::Identifying { .. }
        | LayoutUpdate::Moving { .. }
        | LayoutUpdate::Reporting { .. } => {
            lemma_update_step_at_a_window(state, call, store, presets, reply, handle);
        },
        LayoutUpdate::Dropping { .. } | LayoutUpdate::Failing { .. } => {
            lemma_update_step_between_windows(state, call, store, presets, reply, handle);
        },
    }
}

proof fn lemma_update_step_before_the_windows(
    state: LayoutUpdate,
    call: ForeignCall,
    store: Assignments,
    presets: &LayoutPresets,
    reply: ForeignReply,
    handle: usize,
)
    requires
        handle != 0,
        update_awaits(state, call),
        state is Workspace || state is Frontmost || state is Creating || state is Focusing
            || state is NoWindow || state is IdentifyingFocused || state is ReleasingFocused
            || state is ReleasingApp,
    ensures
        balance(state.next_step(store, presets, reply).0, handle) == balance(
            Progress::<LayoutUpdate, Result<(), UnnamedError>>::Pending(state, call),
            handle,
        ) + granted(call, reply, handle),
{
    Unique::<CFString>::lemma_adopted(reply.handle);
    Rc::<AXUIElement>::lemma_adopted(reply.handle);
    match state {
        LayoutUpdate::Focusing { focus, .. } => {
            match focus.probe.copy {
                AttributeCopy::Release { status, value } => {
                    Rc::<AXUIElement>::lemma_adopted(value);
                },
                _ => {},
            }
        },
        _ => {},
    }
}

proof fn lemma_update_step_listing(
    state: LayoutUpdate,
    call: ForeignCall,
    store: Assignments,
    presets: &LayoutPresets,
    reply: ForeignReply,
    handle: usize,
)
    requires
        handle != 0,
        update_in_order(state),
        update_awaits(state, call),
        state is Listing,
    ensures
        balance(state.next_step(store, presets, reply).0, handle) == balance(
            Progress::<LayoutUpdate, Result<(), UnnamedError>>::Pending(state, call),
            handle,
        ) + granted(call, reply, handle),
{
    match state {
        LayoutUpdate::Listing { app, focused, listing } => {
            lemma_listing_step(listing, call, reply, handle);
            lemma_listing_stays_in_order(0, app.bundle_id, listing, reply);
            match listing.next_step(reply) {
                Progress::Finished(Ok(windows)) => {
                    lemma_windows_from(windows, 0, handle);
                },
                _ => {},
            }
        },
        _ => {},
    }
}

proof fn lemma_update_step_at_a_window(
    state: LayoutUpdate,
    call: ForeignCall,
    store: Assignments,
    presets: &LayoutPresets,
    reply: ForeignReply,
    handle: usize,
)
    requires
        handle != 0,
        update_in_order(state),
        update_awaits(state, call),
        state is Identifying || state is Moving || state is Reporting,
    ensures
        balance(state.next_step(store, presets, reply).0, handle) == balance(
            Progress::<LayoutUpdate, Result<(), UnnamedError>>::Pending(state, call),
            handle,
        ) + granted(call, reply, handle),
{
    Unique::<CFString>::lemma_adopted(reply.handle);
    match state {
        LayoutUpdate::Identifying { windows, index, .. } => {
            lemma_windows_from(windows, index as int, handle);
        },
        LayoutUpdate::Moving { windows, index, .. } => {
            lemma_windows_from(windows, index as int, handle);
        },
        LayoutUpdate::Reporting { windows, index, .. } => {
            lemma_windows_from(windows, index as int, handle);
        },
        _ => {},
    }
}

proof fn lemma_update_step_between_windows(
    state: LayoutUpdate,
    call: ForeignCall,
    store: Assignments,
    presets: &LayoutPresets,
    reply: ForeignReply,
    handle: usize,
)
    requires
        handle != 0,
        update_in_order(state),
        update_awaits(state, call),
        state is Dropping || state is Failing,
    ensures
        balance(state.next_step(store, presets, reply).0, handle) == balance(
            Progress::<LayoutUpdate, Result<(), UnnamedError>>::Pending(state, call),
            handle,
        ) + granted(call, reply, handle),
{
    match state {
        LayoutUpdate::Dropping { windows, next, .. } => {
            lemma_windows_from(windows, next as int, handle);
        },
        LayoutUpdate::Failing { windows, next, .. } => {
            lemma_windows_from(windows, next as int, handle);
        },
        _ => {},
    }
}

/// Of windows that are not null, the one at `index` is there if the list
/// reaches that far, and the windows from it on are it and those after it.
proof fn lemma_windows_from(windows: Windows, index: int, handle: usize)
    requires
        all_live(windows),
        0 <= index,
    ensures
        windows.handles@.len() <= usize::MAX,
        index < windows.handles@.len() ==> windows.window_at(index) is Some
            && windows.window_at(index)->Some_0.holds(handle) == one(
            windows.handles@[index],
            handle,
        ) && windows.window_at(index)->Some_0.inner.handle() == windows.handles@[index] && among(
            windows.handles@,
            index,
            windows.handles@.len() as int,
            handle,
        ) == one(windows.handles@[index], handle) + among(
            windows.handles@,
            index + 1,
            windows.handles@.len() as int,
            handle,
        ),
        index >= windows.handles@.len() ==> windows.window_at(index) is None && among(
            windows.handles@,
            index,
            windows.handles@.len() as int,
            handle,
        ) == 0,
{
    broadcast use vstd::std_specs::vec::axiom_spec_len;

    assert(windows.handles.len() == windows.handles@.len());
    if index < windows.handles@.len() {
        assert(windows.handles@[index] != 0);
        Rc::<AXUIElement>::lemma_adopted(windows.handles@[index]);
    }
}

impl Holding for Subscription {
    open spec fn holds(&self, handle: usize) -> int {
        match self {
            Subscription::Observer { app } => app.holds(handle),
            Subscription::Listing { app, observer, listing } => app.holds(handle) + observer.holds(
                handle,
            ) + listing.holds(handle),
            Subscription::Identifying { app, observer, windows, index } => app.holds(handle)
                + observer.holds(handle) + among(
                windows.handles@,
                *index as int,
                windows.handles@.len() as int,
                handle,
            ),
            Subscription::Moving { app, observer, windows, index, relayout } => app.holds(handle)
                + observer.holds(handle) + among(
                windows.handles@,
                *index as int,
                windows.handles@.len() as int,
                handle,
            ) + relayout.holds(handle),
            Subscription::ResizedName { app, observer, windows, index } => app.holds(handle)
                + observer.holds(handle) + among(
                windows.handles@,
                *index as int,
                windows.handles@.len() as int,
                handle,
            ),
            Subscription::Resized { app, observer, windows, index, resized } => app.holds(handle)
                + observer.holds(handle) + among(
                windows.handles@,
                *index as int,
                windows.handles@.len() as int,
                handle,
            ) + resized.holds(handle),
            Subscription::MovedName { app, observer, windows, index, resized } => app.holds(handle)
                + observer.holds(handle) + among(
                windows.handles@,
                *index as int,
                windows.handles@.len() as int,
                handle,
            ) + resized.holds(handle),
            Subscription::Moved { app, observer, windows, index, resized, moved } => app.holds(
                handle,
            ) + observer.holds(handle) + among(
                windows.handles@,
                *index as int,
                windows.handles@.len() as int,
                handle,
            ) + resized.holds(handle) + moved.holds(handle),
            Subscription::ReleasingNames { app, observer, windows, index, resized, .. } => {
                app.holds(handle) + observer.holds(handle) + among(
                    windows.handles@,
                    *index as int,
                    windows.handles@.len() as int,
                    handle,
                ) + resized.holds(handle)
            },
            Subscription::Dropping { app, observer, windows, next } => app.holds(handle)
                + observer.holds(handle) + among(
                windows.handles@,
                *next as int,
                windows.handles@.len() as int,
                handle,
            ),
            Subscription::Failing { app, observer, windows, next, .. } => app.holds(handle)
                + observer.holds(handle) + among(
                windows.handles@,
                *next as int,
                windows.handles@.len() as int,
                handle,
            ),
            Subscription::Source { app, observer } => app.holds(handle) + observer.holds(handle),
            Subscription::Adding { app, observer } => app.holds(handle) + observer.holds(handle),
            Subscription::ReleasingObserver { app, .. } => app.holds(handle),
            Subscription::ReleasingApp { result } => result.holds(handle),
        }
    }
}

/// Whether a subscription at rest is in order: the windows that it goes
/// through are not null, and the window that it is busy with is one of
/// them.
pub open spec fn subscription_in_order(state: Subscription) -> bool {
    match state {
        Subscription::Listing { listing, .. } => listing_in_order(listing),
        Subscription::Identifying { windows, .. } => all_live(windows),
        Subscription::Moving { windows, index, .. } => all_live(windows) && index
            < windows.handles@.len(),
        Subscription::ResizedName { windows, index, .. } => all_live(windows) && index
            < windows.handles@.len(),
        Subscription::Resized { windows, index, .. } => all_live(windows) && index
            < windows.handles@.len(),
        Subscription::MovedName { windows, index, .. } => all_live(windows) && index
            < windows.handles@.len(),
        Subscription::Moved { windows, index, .. } => all_live(windows) && index
            < windows.handles@.len(),
        Subscription::ReleasingNames { windows, index, .. } => all_live(windows) && index
            < windows.handles@.len(),
        Subscription::Dropping { windows, .. } => all_live(windows),
        Subscription::Failing { windows, .. } => all_live(windows),
        _ => true,
    }
}

/// Whether a subscription at rest can be waiting for the reply to the call.
pub open spec fn subscription_awaits(state: Subscription, call: ForeignCall) -> bool {
    match state {
        Subscription::Observer { .. } => call is CreateObserver,
        Subscription::Listing { listing, .. } => listing_awaits(listing, call),
        Subscription::Identifying { .. } => call is ElementWindow,
        Subscription::Moving { relayout, .. } => relayout_awaits(relayout, call),
        Subscription::ResizedName { .. } => call is CreateString,
        Subscription::Resized { .. } => call is AddNotification,
        Subscription::MovedName { .. } => call is CreateString,
        Subscription::Moved { .. } => call is AddNotification,
        Subscription::ReleasingNames { .. } => call is Release,
        Subscription::Dropping { .. } => call is Release,
        Subscription::Failing { .. } => call is Release,
        Subscription::Source { .. } => call is RunLoopSource,
        Subscription::Adding { .. } => call is AddRunLoopSource,
        Subscription::ReleasingObserver { .. } => call is Release,
        Subscription::ReleasingApp { .. } => call is Release,
    }
}

/// A subscription stays in order from its first step on.
pub proof fn lemma_subscription_stays_in_order(
    app: App,
    before: Subscription,
    store: Assignments,
    presets: &LayoutPresets,
    reply: ForeignReply,
)
    ensures
        Subscription::first_step(app) matches Progress::Pending(state, _)
            && subscription_in_order(state),
        subscription_in_order(before) ==> (before.next_step(store, presets, reply).0 matches Progress::Pending(
            state,
            _,
        ) ==> subscription_in_order(state)),
{
    if subscription_in_order(before) {
        match before {
            Subscription::Listing { app, listing, .. } => {
                lemma_listing_stays_in_order(0, app.bundle_id, listing, reply);
                match listing.next_step(reply) {
                    Progress::Finished(Ok(windows)) => {
                        lemma_windows_from(windows, 0, 0);
                    },
                    _ => {},
                }
            },
            Subscription::Identifying { windows, index, .. } => {
                lemma_windows_from(windows, index as int, 0);
            },
            Subscription::Dropping { windows, next, .. } => {
                lemma_windows_from(windows, next as int, 0);
            },
            _ => {},
        }
    }
    match before {
        Subscription::Observer { app } => {
            lemma_listing_stays_in_order(app.element(), app.bundle_id, arbitrary(), reply);
        },
        _ => {},
    }
}

/// Putting the windows of an application under observation keeps the books
/// for every object. It begins with the application's element; it ends
/// with the observer or, if it fails, with nothing. Either way the
/// application's element, every window and every name that was made on the
/// way are released, each once.
pub proof fn lemma_subscription_keeps_books(
    app: App,
    before: Subscription,
    store: Assignments,
    later: Assignments,
    presets: &LayoutPresets,
    earlier: ForeignReply,
    reply: ForeignReply,
    handle: usize,
)
    requires
        handle != 0,
        subscription_in_order(before),
    ensures
        balance(Subscription::first_step(app), handle) == app.holds(handle),
        Subscription::first_step(app) matches Progress::Pending(state, call) ==> balance(
            state.next_step(store, presets, reply).0,
            handle,
        ) == app.holds(handle) + granted(call, reply, handle),
        before.next_step(store, presets, earlier).0 matches Progress::Pending(state, call)
            ==> balance(state.next_step(later, presets, reply).0, handle) == balance(
            before.next_step(store, presets, earlier).0,
            handle,
        ) + granted(call, reply, handle),
{
    lemma_subscription_stays_in_order(app, before, store, presets, earlier);
    Unique::<AXObserver>::lemma_adopted(reply.handle);
    match before.next_step(store, presets, earlier).0 {
        Progress::Pending(state, call) => {
            lemma_subscription_awaits(before, store, presets, earlier);
            lemma_subscription_step(state, call, later, presets, reply, handle);
        },
        _ => {},
    }
}

proof fn lemma_subscription_awaits(
    before: Subscription,
    store: Assignments,
    presets: &LayoutPresets,
    reply: ForeignReply,
)
    requires
        subscription_in_order(before),
    ensures
        before.next_step(store, presets, reply).0 matches Progress::Pending(state, call)
            ==> subscription_awaits(state, call),
{
    broadcast use vstd::std_specs::vec::axiom_spec_len;

    match before {
        Subscription::Listing { app, listing, .. } => {
            lemma_listing_stays_in_order(0, app.bundle_id, listing, reply);
            match listing {
                WindowListing::Retaining { handles, .. } => {
                    assert(handles.len() == handles@.len());
                },
                WindowListing::Unwinding { handles, .. } => {
                    assert(handles.len() == handles@.len());
                },
                WindowListing::Elements { .. } => {
                    assert(reply.handles.len() == reply.handles@.len());
                },
                _ => {},
            }
            match listing.next_step(reply) {
                Progress::Finished(Ok(windows)) => {
                    lemma_windows_from(windows, 0, 0);
                },
                _ => {},
            }
        },
        _ => {},
    }
}

proof fn lemma_subscription_step(
    state: Subscription,
    call: ForeignCall,
    store: Assignments,
    presets: &LayoutPresets,
    reply: ForeignReply,
    handle: usize,
)
    requires
        handle != 0,
        subscription_in_order(state),
        subscription_awaits(state, call),
    ensures
        balance(state.next_step(store, presets, reply).0, handle) == balance(
            Progress::<Subscription, Result<Unique<AXObserver>, UnnamedError>>::Pending(
                state,
                call,
            ),
            handle,
        ) + granted(call, reply, handle),
{
    match state {
        Subscription::Observer { .. }
        | Subscription::Source { .. }
        | Subscription::Adding { .. }
        | Subscription::ReleasingObserver { .. }
        | Subscription::ReleasingApp { .. } => {
            Unique::<AXObserver>::lemma_adopted(reply.handle);
        },
        Subscription::Listing { app, listing, .. } => {
            lemma_listing_step(listing, call, reply, handle);
            lemma_listing_stays_in_order(0, app.bundle_id, listing, reply);
            match listing.next_step(reply) {
                Progress::Finished(Ok(windows)) => {
                    lemma_windows_from(windows, 0, handle);
                },
                _ => {},
            }
        },
        Subscription::Identifying { windows, index, .. } => {
            lemma_windows_from(windows, index as int, handle);
        },
        Subscription::Moving { windows, index, .. } => {
            Unique::<CFString>::lemma_adopted(reply.handle);
            lemma_windows_from(windows, index as int, handle);
        },
        Subscription::ResizedName { windows, index, .. } => {
            Unique::<CFString>::lemma_adopted(reply.handle);
            lemma_windows_from(windows, index as int, handle);
        },
        Subscription::Resized { windows, index, .. } => {
            lemma_windows_from(windows, index as int, handle);
        },
        Subscription::MovedName { windows, index, .. } => {
            Unique::<CFString>::lemma_adopted(reply.handle);
            lemma_windows_from(windows, index as int, handle);
        },
        Subscription::Moved { windows, index, .. } => {
            lemma_windows_from(windows, index as int, handle);
        },
        Subscription::ReleasingNames { windows, index, .. } => {
            lemma_windows_from(windows, index as int, handle);
        },
        Subscription::Dropping { windows, next, .. } => {
            lemma_windows_from(windows, next as int, handle);
        },
        Subscription::Failing { windows, next, .. } => {
            lemma_windows_from(windows, next as int, handle);
        },
    }
}

/// The handles of the elements of applications, in order.
pub open spec fn elements_of(apps: Seq<App>) -> Seq<usize> {
    Seq::new(apps.len(), |i: int| apps[i].inner@)
}

impl Holding for Vec<App> {
    open spec fn holds(&self, handle: usize) -> int {
        among(elements_of(self@), 0, self@.len() as int, handle)
    }
}

impl Holding for AppListing {
    open spec fn holds(&self, handle: usize) -> int {
        match self {
            AppListing::Name { .. } => 0,
            AppListing::Array { name, .. } => name.holds(handle),
            AppListing::Elements { name, array, .. } => name.holds(handle) + array.holds(handle),
            AppListing::Retaining { name, array, handle: retained, apps, .. } => name.holds(handle)
                + array.holds(handle) + apps.holds(handle) + one(*retained, handle),
            AppListing::Creating { name, array, apps, creation, .. } => name.holds(handle)
                + array.holds(handle) + apps.holds(handle) + creation.holds(handle),
            AppListing::Unwinding { name, array, apps, next, .. } => name.holds(handle)
                + array.holds(handle) + among(
                elements_of(apps@),
                *next as int,
                apps@.len() as int,
                handle,
            ),
            AppListing::ReleasingArray { name, result } => name.holds(handle) + result.holds(
                handle,
            ),
            AppListing::ReleasingName { result } => result.holds(handle),
        }
    }
}

/// Whether a listing of applications at rest can be waiting for the reply
/// to the call.
pub open spec fn app_listing_awaits(state: AppListing, call: ForeignCall) -> bool {
    match state {
        AppListing::Name { .. } => call is CreateText,
        AppListing::Array { .. } => call is RunningApplications,
        AppListing::Elements { .. } => call is ArrayElements,
        AppListing::Retaining { handle, .. } => call == (ForeignCall::Retain { handle }),
        AppListing::Creating { creation, .. } => creation_awaits(creation, call),
        AppListing::Unwinding { .. } => call is Release,
        AppListing::ReleasingArray { .. } => call is Release,
        AppListing::ReleasingName { .. } => call is Release,
    }
}

/// Counting depends on the handles that are counted only.
proof fn lemma_among_same(first: Seq<usize>, second: Seq<usize>, next: int, upto: int, handle: usize)
    requires
        0 <= next,
        upto <= first.len(),
        upto <= second.len(),
        forall|i: int| next <= i < upto ==> first[i] == second[i],
    ensures
        among(first, next, upto, handle) == among(second, next, upto, handle),
    decreases upto - next,
{
    if next < upto {
        lemma_among_same(first, second, next + 1, upto, handle);
    }
}

/// Applications with one more hold what they held and the element of the
/// one more.
proof fn lemma_one_more_app(apps: Seq<App>, grown: Seq<App>, app: App, handle: usize)
    requires
        grown == apps.push(app),
    ensures
        among(elements_of(grown), 0, grown.len() as int, handle) == among(
            elements_of(apps),
            0,
            apps.len() as int,
            handle,
        ) + one(app.inner@, handle),
{
    lemma_among_one_more(elements_of(grown), 0, apps.len() as int, handle);
    lemma_among_same(elements_of(grown), elements_of(apps), 0, apps.len() as int, handle);
}

proof fn lemma_creation_step(
    state: AppCreation,
    call: ForeignCall,
    reply: ForeignReply,
    handle: usize,
)
    requires
        creation_awaits(state, call),
    ensures
        balance(state.next_step(reply), handle) == balance(
            Progress::<AppCreation, Result<App, UnnamedError>>::Pending(state, call),
            handle,
        ) + granted(call, reply, handle),
{
    Rc::<AXUIElement>::lemma_adopted(reply.handle);
}

/// Finding the running applications of a bundle keeps the books for every
/// object. It begins with nothing; it ends with the element of every
/// application that it made or, if it fails, with nothing. The runtime
/// string, the array and every running application that it retained are
/// released either way.
pub proof fn lemma_app_listing_keeps_books(
    bundle_id: String,
    before: AppListing,
    earlier: ForeignReply,
    grown_earlier: Vec<App>,
    reply: ForeignReply,
    grown: Vec<App>,
    handle: usize,
)
    requires
        handle != 0,
        before.grown_to(earlier) matches Some(apps) ==> grown_earlier@ == apps,
    ensures
        balance(AppListing::first_step(bundle_id), handle) == 0,
        AppListing::first_step(bundle_id) matches Progress::Pending(state, call) ==> balance(
            state.next_step(reply, grown),
            handle,
        ) == granted(call, reply, handle),
        before.next_step(earlier, grown_earlier) matches Progress::Pending(state, call) ==> ((
        state.grown_to(reply) matches Some(apps) ==> grown@ == apps) ==> balance(
            state.next_step(reply, grown),
            handle,
        ) == balance(before.next_step(earlier, grown_earlier), handle) + granted(
            call,
            reply,
            handle,
        )),
{
    broadcast use vstd::std_specs::vec::axiom_spec_len;

    Rc::<CFString>::lemma_adopted(reply.handle);
    Rc::<CFString>::lemma_adopted(earlier.handle);
    Rc::<CFType>::lemma_adopted(earlier.handle);
    match before.next_step(earlier, grown_earlier) {
        Progress::Pending(state, call) => {
            lemma_app_listing_awaits(before, earlier, grown_earlier);
            if state.grown_to(reply) matches Some(apps) ==> grown@ == apps {
                lemma_app_listing_step(state, call, reply, grown, handle);
            }
        },
        _ => {},
    }
}

proof fn lemma_app_listing_awaits(before: AppListing, reply: ForeignReply, grown: Vec<App>)
    ensures
        before.next_step(reply, grown) matches Progress::Pending(state, call)
            ==> app_listing_awaits(state, call),
{
    broadcast use vstd::std_specs::vec::axiom_spec_len;

    match before {
        AppListing::Unwinding { apps, .. } => {
            assert(apps.len() == apps@.len());
        },
        AppListing::Retaining { apps, handles, .. } => {
            assert(apps.len() == apps@.len());
            assert(handles.len() == handles@.len());
        },
        AppListing::Creating { apps, handles, .. } => {
            assert(apps.len() == apps@.len());
            assert(handles.len() == handles@.len());
        },
        AppListing::Elements { .. } => {
            assert(reply.handles.len() == reply.handles@.len());
        },
        _ => {},
    }
}

proof fn lemma_app_listing_step(
    state: AppListing,
    call: ForeignCall,
    reply: ForeignReply,
    grown: Vec<App>,
    handle: usize,
)
    requires
        handle != 0,
        app_listing_awaits(state, call),
        state.grown_to(reply) matches Some(apps) ==> grown@ == apps,
    ensures
        balance(state.next_step(reply, grown), handle) == balance(
            Progress::<AppListing, Result<Vec<App>, UnnamedError>>::Pending(state, call),
            handle,
        ) + granted(call, reply, handle),
{
    broadcast use vstd::std_specs::vec::axiom_spec_len;

    Rc::<CFString>::lemma_adopted(reply.handle);
    Rc::<CFType>::lemma_adopted(reply.handle);
    match state {
        AppListing::Elements { .. } => {
            assert(grown@ =~= Seq::<App>::empty());
        },
        AppListing::Retaining { handle: retained, apps, bundle_id, .. } => {
            if retained != 0 {
                Rc::<NSRunningApplication>::lemma_adopted(retained);
                let step = AppCreation::first_step(
                    CopyOnWrite::Owned(Rc::adopted(retained)),
                    Some(bundle_id),
                );
                match step {
                    Progress::Finished(Ok(app)) => {
                        lemma_one_more_app(apps@, grown@, app, handle);
                    },
                    _ => {},
                }
            }
            lemma_apps_from(apps, 0, handle);
        },
        AppListing::Creating { apps, creation, .. } => {
            lemma_creation_step(creation, call, reply, handle);
            match creation.next_step(reply) {
                Progress::Finished(Ok(app)) => {
                    lemma_one_more_app(apps@, grown@, app, handle);
                },
                _ => {},
            }
            lemma_apps_from(apps, 0, handle);
        },
        AppListing::Unwinding { apps, next, .. } => {
            lemma_apps_from(apps, next as int, handle);
        },
        _ => {},
    }
}

/// The applications from `index` on are the one at `index` and those
/// after it.
proof fn lemma_apps_from(apps: Vec<App>, index: int, handle: usize)
    requires
        0 <= index,
    ensures
        apps@.len() <= usize::MAX,
        index < apps@.len() ==> among(elements_of(apps@), index, apps@.len() as int, handle)
            == one(apps@[index].inner@, handle) + among(
            elements_of(apps@),
            index + 1,
            apps@.len() as int,
            handle,
        ),
        index >= apps@.len() ==> among(elements_of(apps@), index, apps@.len() as int, handle)
            == 0,
{
    broadcast use vstd::std_specs::vec::axiom_spec_len;

    assert(apps.len() == apps@.len());
}

/// How many references to `handle` the runtime hands over in the course
/// of a relayout, as the replies come in order.
pub open spec fn granted_in_relayout(
    progress: Progress<Relayout, Result<(), UnnamedError>>,
    replies: Seq<ForeignReply>,
    handle: usize,
) -> int
    decreases replies.len(),
{
    if replies.len() == 0 {
        0
    } else {
        match progress {
            Progress::Pending(state, call) => granted(call, replies[0], handle)
                + granted_in_relayout(state.next_step(replies[0]), replies.drop_first(), handle),
            Progress::Finished(_) => 0,
        }
    }
}

proof fn lemma_relayout_step(state: Relayout, call: ForeignCall, reply: ForeignReply, handle: usize)
    requires
        relayout_awaits(state, call),
    ensures
        balance(state.next_step(reply), handle) == balance(
            Progress::<Relayout, Result<(), UnnamedError>>::Pending(state, call),
            handle,
        ) + granted(call, reply, handle),
        state.next_step(reply) matches Progress::Pending(next, later) ==> relayout_awaits(
            next,
            later,
        ),
{
    Unique::<CFString>::lemma_adopted(reply.handle);
}

proof fn lemma_relayout_run(
    progress: Progress<Relayout, Result<(), UnnamedError>>,
    placement: Placement,
    replies: Seq<ForeignReply>,
    handle: usize,
)
    requires
        progress matches Progress::Pending(state, call) ==> relayout_awaits(state, call),
    ensures
        granted_in_relayout(progress, replies, handle) == balance(
            Relayout::run(progress, placement, replies).0,
            handle,
        ) - balance(progress, handle),
    decreases replies.len(),
{
    if replies.len() > 0 {
        match progress {
            Progress::Pending(state, call) => {
                lemma_relayout_step(state, call, replies[0], handle);
                lemma_relayout_run(
                    state.next_step(replies[0]),
                    state.placed(placement, call, replies[0]),
                    replies.drop_first(),
                    handle,
                );
            },
            Progress::Finished(_) => {},
        }
    }
}

/// A relayout that has come to its end, well or not, leaves no reference
/// behind and releases none that it was not given: over the whole run the
/// runtime hands over as many references to every object as it takes
/// back.
pub proof fn lemma_relayout_leaves_nothing(
    element: usize,
    bundle_id: String,
    origin: usize,
    size: usize,
    placement: Placement,
    replies: Seq<ForeignReply>,
    handle: usize,
)
    requires
        Relayout::run(Relayout::first_step(element, bundle_id, origin, size), placement, replies).0
            is Finished,
    ensures
        granted_in_relayout(
            Relayout::first_step(element, bundle_id, origin, size),
            replies,
            handle,
        ) == 0,
{
    lemma_relayout_run(
        Relayout::first_step(element, bundle_id, origin, size),
        placement,
        replies,
        handle,
    );
}

} // verus!
