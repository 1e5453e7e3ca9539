//! The boundary to the system's object runtime.
//!
//! Nothing in this crate touches a foreign object. A procedure that needs the
//! runtime is a value that says which [`ForeignCall`] it waits for; whoever
//! drives it performs the call and hands back a [`ForeignReply`]. A handle is
//! the address of a foreign object as a plain number, zero for null.

use vstd::prelude::*;

use crate::error::UnnamedError;

verus! {

/// The frame of a screen as the runtime reports it, in whole points.
#[derive(Clone, Copy, Debug, PartialEq, Eq, Structural)]
pub struct ScreenFrame {
    pub x: i32,
    pub y: i32,
    pub width: i32,
    pub height: i32,
}

/// One request to the runtime.
#[derive(Debug, PartialEq, Eq)]
pub enum ForeignCall {
    /// Adds one to the retain count of `handle`.
    Retain { handle: usize },
    /// Takes one from the retain count of `handle`.
    Release { handle: usize },
    /// Asks for the retain count of `handle`; the reply carries it in `count`.
    RetainCount { handle: usize },
    /// Makes a runtime string over the bytes of a literal; replies its handle.
    CreateString { literal: &'static str },
    /// Makes a runtime string with a copy of `contents`; replies its handle.
    CreateText { contents: String },
    /// Encodes a point, given in half points; replies the value's handle.
    CreatePoint { x: i64, y: i64 },
    /// Encodes a size, given in half points; replies the value's handle.
    CreateSize { width: i64, height: i64 },
    /// Reads an attribute of an element; replies a status and a handle.
    CopyAttributeValue { element: usize, attribute: usize },
    /// Writes an attribute of an element; replies a status.
    SetAttributeValue { element: usize, attribute: usize, value: usize },
    /// Asks which process an element belongs to; replies a status and a pid.
    ElementPid { element: usize },
    /// Asks for the window identifier of an element; replies a status and a
    /// window number.
    ElementWindow { element: usize },
    /// Makes the accessibility element of a process; replies its handle.
    CreateApplicationElement { pid: i32 },
    /// Asks for the process of a running application; replies a pid.
    ProcessIdentifier { application: usize },
    /// Asks for the bundle identifier of a running application; replies the
    /// handle of a runtime string.
    BundleIdentifier { application: usize },
    /// Reads a runtime string; replies its text.
    TextContents { string: usize },
    /// Looks up the running application of a process; replies its handle.
    RunningApplication { pid: i32 },
    /// Looks up the running applications with a bundle identifier, given as a
    /// runtime string; replies the handle of an array.
    RunningApplications { bundle_id: usize },
    /// Reads a runtime array; replies the handles of its elements in order.
    ArrayElements { array: usize },
    /// Asks for the shared workspace; replies its handle.
    SharedWorkspace,
    /// Asks a workspace for the frontmost application; replies its handle.
    FrontmostApplication { workspace: usize },
    /// Makes a notification observer for a process; replies a status and a
    /// handle.
    CreateObserver { pid: i32 },
    /// Subscribes an observer to a notification of an element; replies a
    /// status.
    AddNotification { observer: usize, element: usize, notification: usize },
    /// Asks for the run loop source of an observer; replies its handle.
    RunLoopSource { observer: usize },
    /// Adds a source to the current run loop.
    AddRunLoopSource { source: usize },
    /// Asks for the frame of the main screen; replies it in `frame`.
    MainScreenFrame,
    /// Makes the options of a permission check that prompts the user;
    /// replies the handle of a dictionary.
    CreateTrustOptions,
    /// Asks whether this process may use the accessibility interface;
    /// replies in `flag`.
    IsProcessTrusted { options: usize },
    /// Prints one line of diagnostics.
    Report { diagnostic: Diagnostic },
}

/// A line of diagnostics that a procedure prints without failing.
#[derive(Debug, PartialEq, Eq)]
pub enum Diagnostic {
    /// A window of the observed application could not be identified.
    WindowMagicId { error: UnnamedError },
    /// A notification brought an element that is no usable window.
    ObservedWindow { error: UnnamedError },
    /// The window of a notification could not be moved to its preset.
    ObservedRelayout { error: UnnamedError },
    /// A window of the focused application could not be moved to its preset.
    Relayout { error: UnnamedError },
    /// The frontmost application has no focused window.
    NoFocusedWindow,
}

/// What the runtime answered. A call fills the fields that its description
/// names; the others keep the values of [`ForeignReply::nothing`].
#[derive(Debug, PartialEq, Eq)]
pub struct ForeignReply {
    pub status: i32,
    pub handle: usize,
    pub pid: i32,
    pub window: u32,
    pub count: isize,
    pub flag: bool,
    pub text: String,
    pub handles: Vec<usize>,
    pub frame: ScreenFrame,
}

/// Where a procedure stands after a step.
#[derive(Debug, PartialEq, Eq)]
pub enum Progress<M, R> {
    /// It waits for the reply to the call and goes on from the state.
    Pending(M, ForeignCall),
    /// It has ended with this result and makes no further call.
    Finished(R),
}

/// A procedure that is carried out call by call.
///
/// A value of the type is the procedure at rest, waiting for the reply to
/// the call that the last step asked for.
pub trait Procedure: Sized {
    /// What the procedure ends with.
    type Output;

    /// Whether the procedure, given this reply, goes on as `progress` says.
    spec fn steps_to(self, reply: ForeignReply, progress: Progress<Self, Self::Output>) -> bool;

    /// Takes the reply to the pending call and makes the next step.
    fn resume(self, reply: ForeignReply) -> (progress: Progress<Self, Self::Output>)
        ensures
            self.steps_to(reply, progress),
    ;
}

impl Diagnostic {
    /// The line to print.
    pub open spec fn text(self) -> Seq<char> {
        match self {
            Diagnostic::WindowMagicId { error } => "Failed to get window magic ID: "@
                + error.text(),
            Diagnostic::ObservedWindow { error } =>
                "Window observer should be passed valid window: "@ + error.text(),
            Diagnostic::ObservedRelayout { error } => "Failed to relayout window: "@
                + error.text(),
            Diagnostic::Relayout { error } => "error: "@ + error.text(),
            Diagnostic::NoFocusedWindow => "Focused app without focused window, so Finder??"@,
        }
    }

    /// The line to print.
    pub fn message(&self) -> (text: String)
        ensures
            text@ == self.text(),
    {
        match self {
            Diagnostic::WindowMagicId { error } => {
                let mut text = String::from_str("Failed to get window magic ID: ");
                text.append(error.message().as_str());
                text
            },
            Diagnostic::ObservedWindow { error } => {
                let mut text = String::from_str(
                    "Window observer should be passed valid window: ",
                );
                text.append(error.message().as_str());
                text
            },
            Diagnostic::ObservedRelayout { error } => {
                let mut text = String::from_str("Failed to relayout window: ");
                text.append(error.message().as_str());
                text
            },
            Diagnostic::Relayout { error } => {
                let mut text = String::from_str("error: ");
                text.append(error.message().as_str());
                text
            },
            Diagnostic::NoFocusedWindow => String::from_str(
                "Focused app without focused window, so Finder??",
            ),
        }
    }
}

impl ScreenFrame {
    /// The frame of no screen: all zero.
    pub open spec fn zero() -> ScreenFrame {
        ScreenFrame { x: 0, y: 0, width: 0, height: 0 }
    }
}

impl ForeignReply {
    /// Whether every field of the reply holds its empty value.
    pub open spec fn is_nothing(self) -> bool {
        &&& self.status == 0
        &&& self.handle == 0
        &&& self.pid == 0
        &&& self.window == 0
        &&& self.count == 0
        &&& !self.flag
        &&& self.text@ == Seq::<char>::empty()
        &&& self.handles@ == Seq::<usize>::empty()
        &&& self.frame == ScreenFrame::zero()
    }

    /// The reply to a call that answers nothing.
    pub fn nothing() -> (reply: ForeignReply)
        ensures
            reply.is_nothing(),
    {
        ForeignReply {
            status: 0,
            handle: 0,
            pid: 0,
            window: 0,
            count: 0,
            flag: false,
            text: String::new(),
            handles: Vec::new(),
            frame: ScreenFrame { x: 0, y: 0, width: 0, height: 0 },
        }
    }

    /// A reply that carries a handle and nothing else.
    pub fn with_handle(handle: usize) -> (reply: ForeignReply)
        ensures
            reply.handle == handle,
            (ForeignReply { handle: 0, ..reply }).is_nothing(),
    {
        let mut reply = ForeignReply::nothing();
        reply.handle = handle;
        reply
    }

    /// A reply that carries a status and nothing else.
    pub fn with_status(status: i32) -> (reply: ForeignReply)
        ensures
            reply.status == status,
            (ForeignReply { status: 0, ..reply }).is_nothing(),
    {
        let mut reply = ForeignReply::nothing();
        reply.status = status;
        reply
    }

    /// A reply that carries a status and a handle and nothing else.
    pub fn with_value(status: i32, handle: usize) -> (reply: ForeignReply)
        ensures
            reply.status == status,
            reply.handle == handle,
            (ForeignReply { status: 0, handle: 0, ..reply }).is_nothing(),
    {
        let mut reply = ForeignReply::nothing();
        reply.status = status;
        reply.handle = handle;
        reply
    }

    /// A reply that carries a status and a process identifier and nothing
    /// else.
    pub fn with_pid(status: i32, pid: i32) -> (reply: ForeignReply)
        ensures
            reply.status == status,
            reply.pid == pid,
            (ForeignReply { status: 0, pid: 0, ..reply }).is_nothing(),
    {
        let mut reply = ForeignReply::nothing();
        reply.status = status;
        reply.pid = pid;
        reply
    }

    /// A reply that carries a status and a window number and nothing else.
    pub fn with_window(status: i32, window: u32) -> (reply: ForeignReply)
        ensures
            reply.status == status,
            reply.window == window,
            (ForeignReply { status: 0, window: 0, ..reply }).is_nothing(),
    {
        let mut reply = ForeignReply::nothing();
        reply.status = status;
        reply.window = window;
        reply
    }

    /// A reply that carries a text and nothing else.
    pub fn with_text(text: String) -> (reply: ForeignReply)
        ensures
            reply.text == text,
            reply.status == 0 && reply.handle == 0 && reply.pid == 0 && reply.window == 0
                && reply.count == 0 && !reply.flag && reply.handles@ == Seq::<usize>::empty()
                && reply.frame == ScreenFrame::zero(),
    {
        let mut reply = ForeignReply::nothing();
        reply.text = text;
        reply
    }

    /// A reply that carries the handles of an array's elements and nothing
    /// else.
    pub fn with_handles(handles: Vec<usize>) -> (reply: ForeignReply)
        ensures
            reply.handles == handles,
            reply.status == 0 && reply.handle == 0 && reply.pid == 0 && reply.window == 0
                && reply.count == 0 && !reply.flag && reply.text@ == Seq::<char>::empty()
                && reply.frame == ScreenFrame::zero(),
    {
        let mut reply = ForeignReply::nothing();
        reply.handles = handles;
        reply
    }

    /// A reply that carries a screen frame and nothing else.
    pub fn with_frame(frame: ScreenFrame) -> (reply: ForeignReply)
        ensures
            reply.frame == frame,
            (ForeignReply { frame: ScreenFrame::zero(), ..reply }).is_nothing(),
    {
        let mut reply = ForeignReply::nothing();
        reply.frame = frame;
        reply
    }

    /// A reply that carries a flag and nothing else.
    pub fn with_flag(flag: bool) -> (reply: ForeignReply)
        ensures
            reply.flag == flag,
            (ForeignReply { flag: false, ..reply }).is_nothing(),
    {
        let mut reply = ForeignReply::nothing();
        reply.flag = flag;
        reply
    }

    /// A reply that carries a count and nothing else.
    pub fn with_count(count: isize) -> (reply: ForeignReply)
        ensures
            reply.count == count,
            (ForeignReply { count: 0, ..reply }).is_nothing(),
    {
        let mut reply = ForeignReply::nothing();
        reply.count = count;
        reply
    }
}

} // verus!
