//! Applications and windows as the accessibility interface shows them.

use vstd::prelude::*;

use crate::bundle::BundleID;
use crate::error::{result_of, AXErrorExt, Context, UnnamedError};
use crate::foreign::{ForeignCall, ForeignReply, Procedure, Progress};
use crate::layout::AXRect;
use crate::memory::{
    AXUIElement, CFString, CFType, CopyOnWrite, NSRunningApplication, Rc, Unique,
};

verus! {

/// An attribute of an element that this library reads or writes.
#[derive(Clone, Copy, Debug, PartialEq, Eq, Structural)]
pub enum AccessibilityElementKey {
    Position,
    Size,
    Windows,
    FocusedWindow,
}

/// The number by which a process tells its windows apart for as long as it
/// runs.
#[derive(Clone, Copy, Debug, PartialEq, Eq, Hash, Structural)]
pub struct WindowMagicId(pub u32);

impl WindowMagicId {
    /// The number.
    pub open spec fn view(&self) -> u32 {
        self.0
    }

    /// The number.
    pub fn get(&self) -> (number: u32)
        ensures
            number == self@,
    {
        self.0
    }
}

/// Writing an attribute of an element: the attribute's name is made into a
/// runtime string, the value is written, and the string is released.
#[derive(Debug, PartialEq, Eq)]
pub enum AttributeWrite {
    /// Waits for the string that names the attribute.
    Key { element: usize, value: usize },
    /// Waits for the status of the write.
    Status { key: Unique<CFString> },
    /// Waits for the release of the string.
    Release { status: i32 },
}

/// Reading an attribute of an element: the attribute's name is made into a
/// runtime string, the value is copied, and the string is released.
#[derive(Debug, PartialEq, Eq)]
pub enum AttributeCopy {
    /// Waits for the string that names the attribute.
    Key { element: usize },
    /// Waits for the status of the read and the value.
    Value { key: Unique<CFString> },
    /// Waits for the release of the string.
    Release { status: i32, value: usize },
}

/// Reading an attribute whose value is required.
#[derive(Debug, PartialEq, Eq)]
pub struct AttributeRead {
    pub copy: AttributeCopy,
}

/// Reading an attribute that may have no value.
#[derive(Debug, PartialEq, Eq)]
pub struct AttributeProbe {
    pub copy: AttributeCopy,
}

/// Making a runtime string from a literal.
#[derive(Debug, PartialEq, Eq)]
pub struct StringCreation;

/// The error of an attribute whose name could not be made into a string.
pub open spec fn key_failure() -> UnnamedError {
    UnnamedError::Whatever {
        context: Context::ConstructKey,
        source: Some(Box::new(UnnamedError::CouldNotCreateCFObject)),
    }
}

/// What making a string ends with: the owner of the string, or an error if
/// the runtime made none.
pub open spec fn created_string(handle: usize) -> Result<Unique<CFString>, UnnamedError> {
    if handle == 0 {
        Err(UnnamedError::CouldNotCreateCFObject)
    } else {
        Ok(Unique::adopted(handle))
    }
}

/// What reading a required value ends with, given the status of the read and
/// the handle it brought: the status as an error unless it is success, a
/// null error for a null handle, and the owner of the value otherwise.
pub open spec fn required_value(status: i32, value: usize) -> Result<Rc<CFType>, UnnamedError> {
    if status != 0 {
        Err(UnnamedError::AXError { code: status })
    } else if value == 0 {
        Err(UnnamedError::UnexpectedNull)
    } else {
        Ok(Rc::adopted(value))
    }
}

/// What reading an optional value ends with, given the status of the read
/// and the handle it brought: the status as an error unless it is success,
/// absence for a null handle, and the bare handle otherwise.
pub open spec fn optional_value(status: i32, value: usize) -> Result<Option<usize>, UnnamedError> {
    if status != 0 {
        Err(UnnamedError::AXError { code: status })
    } else if value == 0 {
        Ok(None)
    } else {
        Ok(Some(value))
    }
}

impl AccessibilityElementKey {
    /// The name of the attribute in the accessibility interface.
    pub open spec fn name(self) -> &'static str {
        match self {
            AccessibilityElementKey::Position => "AXPosition",
            AccessibilityElementKey::Size => "AXSize",
            AccessibilityElementKey::Windows => "AXWindows",
            AccessibilityElementKey::FocusedWindow => "AXFocusedWindow",
        }
    }

    /// The name of the attribute in the accessibility interface.
    pub fn attribute_name(&self) -> (name: &'static str)
        ensures
            name == self.name(),
    {
        match self {
            AccessibilityElementKey::Position => "AXPosition",
            AccessibilityElementKey::Size => "AXSize",
            AccessibilityElementKey::Windows => "AXWindows",
            AccessibilityElementKey::FocusedWindow => "AXFocusedWindow",
        }
    }

    /// Begins making the attribute's name into a runtime string.
    pub fn as_cfstring(&self) -> (progress: Progress<
        StringCreation,
        Result<Unique<CFString>, UnnamedError>,
    >)
        ensures
            progress == StringCreation::first_step(self.name()),
    {
        create_cfstring_from_static_str(self.attribute_name())
    }
}

/// Begins making a runtime string over the bytes of a literal.
pub fn create_cfstring_from_static_str(string: &'static str) -> (progress: Progress<
    StringCreation,
    Result<Unique<CFString>, UnnamedError>,
>)
    ensures
        progress == StringCreation::first_step(string),
{
    Progress::Pending(StringCreation, ForeignCall::CreateString { literal: string })
}

impl StringCreation {
    /// The first step: the call that makes the string.
    pub open spec fn first_step(string: &'static str) -> Progress<
        StringCreation,
        Result<Unique<CFString>, UnnamedError>,
    > {
        Progress::Pending(StringCreation, ForeignCall::CreateString { literal: string })
    }

    /// The step after the reply: the end, with [`created_string`] of the
    /// handle that came.
    pub open spec fn next_step(self, reply: ForeignReply) -> Progress<
        StringCreation,
        Result<Unique<CFString>, UnnamedError>,
    > {
        Progress::Finished(created_string(reply.handle))
    }
}

impl Procedure for StringCreation {
    type Output = Result<Unique<CFString>, UnnamedError>;

    open spec fn steps_to(self, reply: ForeignReply, progress: Progress<Self, Self::Output>)
        -> bool {
        progress == self.next_step(reply)
    }

    fn resume(self, reply: ForeignReply) -> (progress: Progress<Self, Self::Output>) {
        match Unique::new_const(reply.handle) {
            Some(string) => Progress::Finished(Ok(string)),
            None => Progress::Finished(Err(UnnamedError::CouldNotCreateCFObject)),
        }
    }
}

impl AttributeWrite {
    /// The first step: the call that makes the attribute's name.
    pub open spec fn first_step(element: usize, key: AccessibilityElementKey, value: usize)
        -> Progress<AttributeWrite, Result<(), UnnamedError>> {
        Progress::Pending(
            AttributeWrite::Key { element, value },
            ForeignCall::CreateString { literal: key.name() },
        )
    }

    /// The step after a reply. Without a name the write is not tried; the
    /// name is released whether the write succeeded or not; and the end is
    /// [`result_of`] the write's status.
    pub open spec fn next_step(self, reply: ForeignReply) -> Progress<
        AttributeWrite,
        Result<(), UnnamedError>,
    > {
        match self {
            AttributeWrite::Key { element, value } => if reply.handle == 0 {
                Progress::Finished(Err(key_failure()))
            } else {
                Progress::Pending(
                    AttributeWrite::Status { key: Unique::adopted(reply.handle) },
                    ForeignCall::SetAttributeValue { element, attribute: reply.handle, value },
                )
            },
            AttributeWrite::Status { key } => Progress::Pending(
                AttributeWrite::Release { status: reply.status },
                ForeignCall::Release { handle: key@ },
            ),
            AttributeWrite::Release { status } => Progress::Finished(result_of(status)),
        }
    }

    /// Begins writing an attribute of an element.
    pub fn begin(element: usize, key: AccessibilityElementKey, value: usize) -> (progress:
        Progress<AttributeWrite, Result<(), UnnamedError>>)
        ensures
            progress == AttributeWrite::first_step(element, key, value),
    {
        Progress::Pending(
            AttributeWrite::Key { element, value },
            ForeignCall::CreateString { literal: key.attribute_name() },
        )
    }
}

impl Procedure for AttributeWrite {
    type Output = Result<(), UnnamedError>;

    open spec fn steps_to(self, reply: ForeignReply, progress: Progress<Self, Self::Output>)
        -> bool {
        progress == self.next_step(reply)
    }

    fn resume(self, reply: ForeignReply) -> (progress: Progress<Self, Self::Output>) {
        match self {
            AttributeWrite::Key { element, value } => match Unique::new_const(reply.handle) {
                None => Progress::Finished(
                    Err(
                        UnnamedError::Whatever {
                            context: Context::ConstructKey,
                            source: Some(Box::new(UnnamedError::CouldNotCreateCFObject)),
                        },
                    ),
                ),
                Some(key) => {
                    let attribute = key.get();
                    Progress::Pending(
                        AttributeWrite::Status { key },
                        ForeignCall::SetAttributeValue { element, attribute, value },
                    )
                },
            },
            AttributeWrite::Status { key } => Progress::Pending(
                AttributeWrite::Release { status: reply.status },
                key.release(),
            ),
            AttributeWrite::Release { status } => Progress::Finished(status.into_result()),
        }
    }
}

impl AttributeCopy {
    /// The first step: the call that makes the attribute's name.
    pub open spec fn first_step(element: usize, key: AccessibilityElementKey) -> Progress<
        AttributeCopy,
        Result<(i32, usize), UnnamedError>,
    > {
        Progress::Pending(
            AttributeCopy::Key { element },
            ForeignCall::CreateString { literal: key.name() },
        )
    }

    /// The step after a reply. Without a name the read is not tried; the
    /// name is released whether the read succeeded or not; and the end is
    /// the status of the read with the handle that it brought.
    pub open spec fn next_step(self, reply: ForeignReply) -> Progress<
        AttributeCopy,
        Result<(i32, usize), UnnamedError>,
    > {
        match self {
            AttributeCopy::Key { element } => if reply.handle == 0 {
                Progress::Finished(Err(key_failure()))
            } else {
                Progress::Pending(
                    AttributeCopy::Value { key: Unique::adopted(reply.handle) },
                    ForeignCall::CopyAttributeValue { element, attribute: reply.handle },
                )
            },
            AttributeCopy::Value { key } => Progress::Pending(
                AttributeCopy::Release { status: reply.status, value: reply.handle },
                ForeignCall::Release { handle: key@ },
            ),
            AttributeCopy::Release { status, value } => Progress::Finished(Ok((status, value))),
        }
    }

    /// Begins reading an attribute of an element.
    pub fn begin(element: usize, key: AccessibilityElementKey) -> (progress: Progress<
        AttributeCopy,
        Result<(i32, usize), UnnamedError>,
    >)
        ensures
            progress == AttributeCopy::first_step(element, key),
    {
        Progress::Pending(
            AttributeCopy::Key { element },
            ForeignCall::CreateString { literal: key.attribute_name() },
        )
    }
}

impl Procedure for AttributeCopy {
    type Output = Result<(i32, usize), UnnamedError>;

    open spec fn steps_to(self, reply: ForeignReply, progress: Progress<Self, Self::Output>)
        -> bool {
        progress == self.next_step(reply)
    }

    fn resume(self, reply: ForeignReply) -> (progress: Progress<Self, Self::Output>) {
        match self {
            AttributeCopy::Key { element } => match Unique::new_const(reply.handle) {
                None => Progress::Finished(
                    Err(
                        UnnamedError::Whatever {
                            context: Context::ConstructKey,
                            source: Some(Box::new(UnnamedError::CouldNotCreateCFObject)),
                        },
                    ),
                ),
                Some(key) => {
                    let attribute = key.get();
                    Progress::Pending(
                        AttributeCopy::Value { key },
                        ForeignCall::CopyAttributeValue { element, attribute },
                    )
                },
            },
            AttributeCopy::Value { key } => Progress::Pending(
                AttributeCopy::Release { status: reply.status, value: reply.handle },
                key.release(),
            ),
            AttributeCopy::Release { status, value } => Progress::Finished(Ok((status, value))),
        }
    }
}

impl AttributeRead {
    /// The first step of reading a required value.
    pub open spec fn first_step(element: usize, key: AccessibilityElementKey) -> Progress<
        AttributeRead,
        Result<Rc<CFType>, UnnamedError>,
    > {
        Progress::Pending(
            AttributeRead { copy: AttributeCopy::Key { element } },
            ForeignCall::CreateString { literal: key.name() },
        )
    }

    /// The step after a reply: that of [`AttributeCopy`], and at its end
    /// [`required_value`] of what it brought.
    pub open spec fn next_step(self, reply: ForeignReply) -> Progress<
        AttributeRead,
        Result<Rc<CFType>, UnnamedError>,
    > {
        match self.copy.next_step(reply) {
            Progress::Pending(copy, call) => Progress::Pending(AttributeRead { copy }, call),
            Progress::Finished(Err(error)) => Progress::Finished(Err(error)),
            Progress::Finished(Ok((status, value))) => Progress::Finished(
                required_value(status, value),
            ),
        }
    }

    /// Begins reading a required value.
    pub fn begin(element: usize, key: AccessibilityElementKey) -> (progress: Progress<
        AttributeRead,
        Result<Rc<CFType>, UnnamedError>,
    >)
        ensures
            progress == AttributeRead::first_step(element, key),
    {
        Progress::Pending(
            AttributeRead { copy: AttributeCopy::Key { element } },
            ForeignCall::CreateString { literal: key.attribute_name() },
        )
    }
}

impl Procedure for AttributeRead {
    type Output = Result<Rc<CFType>, UnnamedError>;

    open spec fn steps_to(self, reply: ForeignReply, progress: Progress<Self, Self::Output>)
        -> bool {
        progress == self.next_step(reply)
    }

    fn resume(self, reply: ForeignReply) -> (progress: Progress<Self, Self::Output>) {
        match self.copy.resume(reply) {
            Progress::Pending(copy, call) => Progress::Pending(AttributeRead { copy }, call),
            Progress::Finished(Err(error)) => Progress::Finished(Err(error)),
            Progress::Finished(Ok((status, value))) => {
                if status != 0 {
                    Progress::Finished(Err(UnnamedError::AXError { code: status }))
                } else {
                    match Rc::new_const(value) {
                        None => Progress::Finished(Err(UnnamedError::UnexpectedNull)),
                        Some(owner) => Progress::Finished(Ok(owner)),
                    }
                }
            },
        }
    }
}

impl AttributeProbe {
    /// The first step of reading an optional value.
    pub open spec fn first_step(element: usize, key: AccessibilityElementKey) -> Progress<
        AttributeProbe,
        Result<Option<usize>, UnnamedError>,
    > {
        Progress::Pending(
            AttributeProbe { copy: AttributeCopy::Key { element } },
            ForeignCall::CreateString { literal: key.name() },
        )
    }

    /// The step after a reply: that of [`AttributeCopy`], and at its end
    /// [`optional_value`] of what it brought.
    pub open spec fn next_step(self, reply: ForeignReply) -> Progress<
        AttributeProbe,
        Result<Option<usize>, UnnamedError>,
    > {
        match self.copy.next_step(reply) {
            Progress::Pending(copy, call) => Progress::Pending(AttributeProbe { copy }, call),
            Progress::Finished(Err(error)) => Progress::Finished(Err(error)),
            Progress::Finished(Ok((status, value))) => Progress::Finished(
                optional_value(status, value),
            ),
        }
    }

    /// Begins reading an optional value.
    pub fn begin(element: usize, key: AccessibilityElementKey) -> (progress: Progress<
        AttributeProbe,
        Result<Option<usize>, UnnamedError>,
    >)
        ensures
            progress == AttributeProbe::first_step(element, key),
    {
        Progress::Pending(
            AttributeProbe { copy: AttributeCopy::Key { element } },
            ForeignCall::CreateString { literal: key.attribute_name() },
        )
    }
}

impl Procedure for AttributeProbe {
    type Output = Result<Option<usize>, UnnamedError>;

    open spec fn steps_to(self, reply: ForeignReply, progress: Progress<Self, Self::Output>)
        -> bool {
        progress == self.next_step(reply)
    }

    fn resume(self, reply: ForeignReply) -> (progress: Progress<Self, Self::Output>) {
        match self.copy.resume(reply) {
            Progress::Pending(copy, call) => Progress::Pending(AttributeProbe { copy }, call),
            Progress::Finished(Err(error)) => Progress::Finished(Err(error)),
            Progress::Finished(Ok((status, value))) => {
                if status != 0 {
                    Progress::Finished(Err(UnnamedError::AXError { code: status }))
                } else if value == 0 {
                    Progress::Finished(Ok(None))
                } else {
                    Progress::Finished(Ok(Some(value)))
                }
            },
        }
    }
}

/// Something that stands for an element of the accessibility interface and
/// so has attributes.
pub trait AccessibilityElement {
    /// The handle of the element.
    spec fn element(&self) -> usize;

    /// The handle of the element, for the length of one call.
    fn inner(&self) -> (handle: usize)
        ensures
            handle == self.element(),
    ;

    /// Begins writing an attribute.
    fn set(&self, key: AccessibilityElementKey, value: usize) -> (progress: Progress<
        AttributeWrite,
        Result<(), UnnamedError>,
    >)
        ensures
            progress == AttributeWrite::first_step(self.element(), key, value),
    {
        AttributeWrite::begin(self.inner(), key, value)
    }

    /// Begins reading an attribute whose value is required.
    fn get(&self, key: AccessibilityElementKey) -> (progress: Progress<
        AttributeRead,
        Result<Rc<CFType>, UnnamedError>,
    >)
        ensures
            progress == AttributeRead::first_step(self.element(), key),
    {
        AttributeRead::begin(self.inner(), key)
    }

    /// Begins reading an attribute that may have no value. The value comes
    /// as a bare handle that owes the runtime one release.
    fn get_raw(&self, key: AccessibilityElementKey) -> (progress: Progress<
        AttributeProbe,
        Result<Option<usize>, UnnamedError>,
    >)
        ensures
            progress == AttributeProbe::first_step(self.element(), key),
    {
        AttributeProbe::begin(self.inner(), key)
    }
}

/// A running application: its accessibility element, its process and its
/// bundle identifier.
#[derive(Debug, PartialEq, Eq)]
pub struct App {
    pub inner: Rc<AXUIElement>,
    pub pid: i32,
    pub bundle_id: String,
}

/// A window of an application.
#[derive(Debug, PartialEq, Eq)]
pub struct Window {
    pub inner: CopyOnWrite<AXUIElement>,
    pub bundle_id: String,
}

/// The windows of one application, each owned. A window is kept as its
/// handle; [`Windows::get`] gives it its owner.
#[derive(Debug, PartialEq, Eq)]
pub struct Windows {
    pub handles: Vec<usize>,
    pub bundle_id: String,
}

/// Asking for the identifier of a window.
#[derive(Debug, PartialEq, Eq)]
pub struct MagicIdQuery;

/// Moving a window to a rectangle: first the position, then the size.
#[derive(Debug, PartialEq, Eq)]
pub enum Relayout {
    /// The position is being written.
    Position { write: AttributeWrite, element: usize, size: usize, bundle_id: String },
    /// The size is being written.
    Size { write: AttributeWrite, bundle_id: String },
}

/// Making a window of an element that a notification brought.
#[derive(Debug, PartialEq, Eq)]
pub enum WindowBorrow {
    /// Waits for the process of the element.
    Pid { element: usize },
    /// Waits for the running application of the process.
    Application { element: usize },
    /// Waits for the bundle identifier of the application.
    BundleId { element: usize },
    /// Waits for the text of the bundle identifier.
    Text { element: usize },
}

/// Making an [`App`] of a running application.
#[derive(Debug, PartialEq, Eq)]
pub enum AppCreation {
    /// Waits for the process of the application.
    Pid { app: CopyOnWrite<NSRunningApplication>, bundle_id: Option<String> },
    /// Waits for the accessibility element of the process.
    Element { app: CopyOnWrite<NSRunningApplication>, bundle_id: Option<String>, pid: i32 },
    /// Waits for the bundle identifier of the application.
    BundleId { app: CopyOnWrite<NSRunningApplication>, inner: Rc<AXUIElement>, pid: i32 },
    /// Waits for the text of the bundle identifier.
    Text { app: CopyOnWrite<NSRunningApplication>, inner: Rc<AXUIElement>, pid: i32 },
    /// Waits for the release of the element after a failure.
    Unwinding { app: CopyOnWrite<NSRunningApplication>, error: UnnamedError },
    /// Waits for the release of the running application.
    Ending { result: Result<App, UnnamedError> },
}

/// Listing the windows of an application.
#[derive(Debug, PartialEq, Eq)]
pub enum WindowListing {
    /// The windows attribute is being read.
    Reading { read: AttributeRead, bundle_id: String },
    /// Waits for the elements of the array.
    Elements { array: Rc<CFType>, bundle_id: String },
    /// Waits for the retain of the element before `next`.
    Retaining { array: Rc<CFType>, handles: Vec<usize>, next: usize, bundle_id: String },
    /// A null element was met at `upto`: waits for the release of the
    /// element before `next`.
    Unwinding { array: Rc<CFType>, handles: Vec<usize>, upto: usize, next: usize },
    /// Waits for the release of the array.
    Closing { result: Result<Windows, UnnamedError> },
}

/// Asking for the focused window of an application.
#[derive(Debug, PartialEq, Eq)]
pub struct FocusedWindow {
    pub probe: AttributeProbe,
    pub bundle_id: String,
}

/// What asking for a window's identifier ends with, given the status and
/// the number that came.
pub open spec fn magic_id_of(status: i32, window: u32) -> Result<WindowMagicId, UnnamedError> {
    if status != 0 {
        Err(
            UnnamedError::Whatever {
                context: Context::MagicWindowId,
                source: Some(Box::new(UnnamedError::AXError { code: status })),
            },
        )
    } else {
        Ok(WindowMagicId(window))
    }
}

/// An error with the operation that met it.
pub open spec fn in_context(context: Context, error: UnnamedError) -> UnnamedError {
    UnnamedError::Whatever { context, source: Some(Box::new(error)) }
}

/// An error with the operation that met it.
pub fn with_context(context: Context, error: UnnamedError) -> (wrapped: UnnamedError)
    ensures
        wrapped == in_context(context, error),
{
    UnnamedError::Whatever { context, source: Some(Box::new(error)) }
}

impl MagicIdQuery {
    /// The first step: the call that asks for the identifier.
    pub open spec fn first_step(element: usize) -> Progress<
        MagicIdQuery,
        Result<WindowMagicId, UnnamedError>,
    > {
        Progress::Pending(MagicIdQuery, ForeignCall::ElementWindow { element })
    }

    /// The step after the reply: the end, with [`magic_id_of`] what came.
    pub open spec fn next_step(self, reply: ForeignReply) -> Progress<
        MagicIdQuery,
        Result<WindowMagicId, UnnamedError>,
    > {
        Progress::Finished(magic_id_of(reply.status, reply.window))
    }
}

impl Procedure for MagicIdQuery {
    type Output = Result<WindowMagicId, UnnamedError>;

    open spec fn steps_to(self, reply: ForeignReply, progress: Progress<Self, Self::Output>)
        -> bool {
        progress == self.next_step(reply)
    }

    fn resume(self, reply: ForeignReply) -> (progress: Progress<Self, Self::Output>) {
        if reply.status != 0 {
            Progress::Finished(
                Err(
                    with_context(
                        Context::MagicWindowId,
                        UnnamedError::AXError { code: reply.status },
                    ),
                ),
            )
        } else {
            Progress::Finished(Ok(WindowMagicId(reply.window)))
        }
    }
}

impl Relayout {
    /// The first step: that of writing the position.
    pub open spec fn first_step(element: usize, bundle_id: String, origin: usize, size: usize)
        -> Progress<Relayout, Result<(), UnnamedError>> {
        Progress::Pending(
            Relayout::Position {
                write: AttributeWrite::Key { element, value: origin },
                element,
                size,
                bundle_id,
            },
            ForeignCall::CreateString { literal: AccessibilityElementKey::Position.name() },
        )
    }

    /// The step after a reply. The size is written only once the position
    /// has been; a failure of either write ends the procedure with the
    /// error and the bundle whose window it was.
    pub open spec fn next_step(self, reply: ForeignReply) -> Progress<
        Relayout,
        Result<(), UnnamedError>,
    > {
        match self {
            Relayout::Position { write, element, size, bundle_id } => match write.next_step(
                reply,
            ) {
                Progress::Pending(write, call) => Progress::Pending(
                    Relayout::Position { write, element, size, bundle_id },
                    call,
                ),
                Progress::Finished(Err(error)) => Progress::Finished(
                    Err(in_context(Context::SetPosition { bundle_id }, error)),
                ),
                Progress::Finished(Ok(())) => Progress::Pending(
                    Relayout::Size {
                        write: AttributeWrite::Key { element, value: size },
                        bundle_id,
                    },
                    ForeignCall::CreateString { literal: AccessibilityElementKey::Size.name() },
                ),
            },
            Relayout::Size { write, bundle_id } => match write.next_step(reply) {
                Progress::Pending(write, call) => Progress::Pending(
                    Relayout::Size { write, bundle_id },
                    call,
                ),
                Progress::Finished(Err(error)) => Progress::Finished(
                    Err(in_context(Context::SetSize { bundle_id }, error)),
                ),
                Progress::Finished(Ok(())) => Progress::Finished(Ok(())),
            },
        }
    }
}

impl Procedure for Relayout {
    type Output = Result<(), UnnamedError>;

    open spec fn steps_to(self, reply: ForeignReply, progress: Progress<Self, Self::Output>)
        -> bool {
        progress == self.next_step(reply)
    }

    fn resume(self, reply: ForeignReply) -> (progress: Progress<Self, Self::Output>) {
        match self {
            Relayout::Position { write, element, size, bundle_id } => match write.resume(reply) {
                Progress::Pending(write, call) => Progress::Pending(
                    Relayout::Position { write, element, size, bundle_id },
                    call,
                ),
                Progress::Finished(Err(error)) => Progress::Finished(
                    Err(with_context(Context::SetPosition { bundle_id }, error)),
                ),
                Progress::Finished(Ok(())) => match AttributeWrite::begin(
                    element,
                    AccessibilityElementKey::Size,
                    size,
                ) {
                    Progress::Pending(write, call) => Progress::Pending(
                        Relayout::Size { write, bundle_id },
                        call,
                    ),
                    Progress::Finished(result) => Progress::Finished(result),
                },
            },
            Relayout::Size { write, bundle_id } => match write.resume(reply) {
                Progress::Pending(write, call) => Progress::Pending(
                    Relayout::Size { write, bundle_id },
                    call,
                ),
                Progress::Finished(Err(error)) => Progress::Finished(
                    Err(with_context(Context::SetSize { bundle_id }, error)),
                ),
                Progress::Finished(Ok(())) => Progress::Finished(Ok(())),
            },
        }
    }
}

impl WindowBorrow {
    /// The first step: a null element ends the procedure at once, and any
    /// other is asked for its process.
    pub open spec fn first_step(element: usize) -> Progress<
        WindowBorrow,
        Result<Window, UnnamedError>,
    > {
        if element == 0 {
            Progress::Finished(Err(UnnamedError::UnexpectedNull))
        } else {
            Progress::Pending(WindowBorrow::Pid { element }, ForeignCall::ElementPid { element })
        }
    }

    /// The step after a reply. The process leads to its running
    /// application, that to its bundle identifier, and that to the
    /// identifier's text; a null at any stage ends the procedure. The window
    /// at the end borrows the element.
    pub open spec fn next_step(self, reply: ForeignReply) -> Progress<
        WindowBorrow,
        Result<Window, UnnamedError>,
    > {
        match self {
            WindowBorrow::Pid { element } => if reply.status != 0 {
                Progress::Finished(
                    Err(
                        in_context(
                            Context::WindowPid,
                            UnnamedError::AXError { code: reply.status },
                        ),
                    ),
                )
            } else {
                Progress::Pending(
                    WindowBorrow::Application { element },
                    ForeignCall::RunningApplication { pid: reply.pid },
                )
            },
            WindowBorrow::Application { element } => if reply.handle == 0 {
                Progress::Finished(Err(UnnamedError::UnexpectedNull))
            } else {
                Progress::Pending(
                    WindowBorrow::BundleId { element },
                    ForeignCall::BundleIdentifier { application: reply.handle },
                )
            },
            WindowBorrow::BundleId { element } => if reply.handle == 0 {
                Progress::Finished(Err(UnnamedError::UnexpectedNull))
            } else {
                Progress::Pending(
                    WindowBorrow::Text { element },
                    ForeignCall::TextContents { string: reply.handle },
                )
            },
            WindowBorrow::Text { element } => Progress::Finished(
                Ok(Window { inner: CopyOnWrite::Borrowed(element), bundle_id: reply.text }),
            ),
        }
    }
}

impl Procedure for WindowBorrow {
    type Output = Result<Window, UnnamedError>;

    open spec fn steps_to(self, reply: ForeignReply, progress: Progress<Self, Self::Output>)
        -> bool {
        progress == self.next_step(reply)
    }

    fn resume(self, reply: ForeignReply) -> (progress: Progress<Self, Self::Output>) {
        match self {
            WindowBorrow::Pid { element } => if reply.status != 0 {
                Progress::Finished(
                    Err(
                        with_context(
                            Context::WindowPid,
                            UnnamedError::AXError { code: reply.status },
                        ),
                    ),
                )
            } else {
                Progress::Pending(
                    WindowBorrow::Application { element },
                    ForeignCall::RunningApplication { pid: reply.pid },
                )
            },
            WindowBorrow::Application { element } => if reply.handle == 0 {
                Progress::Finished(Err(UnnamedError::UnexpectedNull))
            } else {
                Progress::Pending(
                    WindowBorrow::BundleId { element },
                    ForeignCall::BundleIdentifier { application: reply.handle },
                )
            },
            WindowBorrow::BundleId { element } => if reply.handle == 0 {
                Progress::Finished(Err(UnnamedError::UnexpectedNull))
            } else {
                Progress::Pending(
                    WindowBorrow::Text { element },
                    ForeignCall::TextContents { string: reply.handle },
                )
            },
            WindowBorrow::Text { element } => Progress::Finished(
                Ok(Window { inner: CopyOnWrite::Borrowed(element), bundle_id: reply.text }),
            ),
        }
    }
}

impl AccessibilityElement for Window {
    open spec fn element(&self) -> usize {
        self.inner.handle()
    }

    fn inner(&self) -> (handle: usize) {
        self.inner.get()
    }
}

impl Window {
    /// Begins making a window of an element that a notification brought.
    /// The window borrows the element: giving the window up releases
    /// nothing.
    pub fn borrow_inner(element: usize) -> (progress: Progress<
        WindowBorrow,
        Result<Window, UnnamedError>,
    >)
        ensures
            progress == WindowBorrow::first_step(element),
    {
        if element == 0 {
            Progress::Finished(Err(UnnamedError::UnexpectedNull))
        } else {
            Progress::Pending(WindowBorrow::Pid { element }, ForeignCall::ElementPid { element })
        }
    }

    /// Begins moving the window to a rectangle.
    pub fn relayout(&self, frame: &AXRect) -> (progress: Progress<
        Relayout,
        Result<(), UnnamedError>,
    >)
        ensures
            progress == Relayout::first_step(
                self.element(),
                self.bundle_id,
                frame.origin@,
                frame.size@,
            ),
    {
        let element = self.inner();
        Progress::Pending(
            Relayout::Position {
                write: AttributeWrite::Key { element, value: frame.origin.get() },
                element,
                size: frame.size.get(),
                bundle_id: self.bundle_id.clone(),
            },
            ForeignCall::CreateString {
                literal: AccessibilityElementKey::Position.attribute_name(),
            },
        )
    }

    /// The bundle identifier of the application that the window belongs to.
    pub fn bundle_id(&self) -> (id: BundleID<'_>)
        ensures
            id@ == self.bundle_id@,
    {
        BundleID::of_running(self.bundle_id.as_str())
    }

    /// Begins asking for the window's identifier.
    pub fn magic_id(&self) -> (progress: Progress<
        MagicIdQuery,
        Result<WindowMagicId, UnnamedError>,
    >)
        ensures
            progress == MagicIdQuery::first_step(self.element()),
    {
        Progress::Pending(MagicIdQuery, ForeignCall::ElementWindow { element: self.inner() })
    }

    /// Gives the window up: the release that is owed for an owned element,
    /// and none for a borrowed one.
    pub fn release(self) -> (call: Option<ForeignCall>)
        ensures
            call == self.inner.release_owed(),
    {
        self.inner.release()
    }
}

impl AppCreation {
    /// The end of the procedure: the running application is released if it
    /// is owned, and the result follows.
    pub open spec fn finish(app: CopyOnWrite<NSRunningApplication>, result: Result<App, UnnamedError>)
        -> Progress<AppCreation, Result<App, UnnamedError>> {
        match app.release_owed() {
            Some(call) => Progress::Pending(AppCreation::Ending { result }, call),
            None => Progress::Finished(result),
        }
    }

    /// The first step: the call that asks for the application's process.
    pub open spec fn first_step(app: CopyOnWrite<NSRunningApplication>, bundle_id: Option<String>)
        -> Progress<AppCreation, Result<App, UnnamedError>> {
        Progress::Pending(
            AppCreation::Pid { app, bundle_id },
            ForeignCall::ProcessIdentifier { application: app.handle() },
        )
    }

    /// The step after a reply. The process gets an accessibility element;
    /// the bundle identifier is the one given or, if none was given, the one
    /// that the application reports. Without an element, or without a
    /// reported identifier, the procedure fails and releases what it made.
    pub open spec fn next_step(self, reply: ForeignReply) -> Progress<
        AppCreation,
        Result<App, UnnamedError>,
    > {
        match self {
            AppCreation::Pid { app, bundle_id } => Progress::Pending(
                AppCreation::Element { app, bundle_id, pid: reply.pid },
                ForeignCall::CreateApplicationElement { pid: reply.pid },
            ),
            AppCreation::Element { app, bundle_id, pid } => if reply.handle == 0 {
                Self::finish(app, Err(UnnamedError::CouldNotCreateCFObject))
            } else {
                match bundle_id {
                    Some(text) => Self::finish(
                        app,
                        Ok(App { inner: Rc::adopted(reply.handle), pid, bundle_id: text }),
                    ),
                    None => Progress::Pending(
                        AppCreation::BundleId { app, inner: Rc::adopted(reply.handle), pid },
                        ForeignCall::BundleIdentifier { application: app.handle() },
                    ),
                }
            },
            AppCreation::BundleId { app, inner, pid } => if reply.handle == 0 {
                Progress::Pending(
                    AppCreation::Unwinding { app, error: UnnamedError::UnexpectedNull },
                    ForeignCall::Release { handle: inner@ },
                )
            } else {
                Progress::Pending(
                    AppCreation::Text { app, inner, pid },
                    ForeignCall::TextContents { string: reply.handle },
                )
            },
            AppCreation::Text { app, inner, pid } => Self::finish(
                app,
                Ok(App { inner, pid, bundle_id: reply.text }),
            ),
            AppCreation::Unwinding { app, error } => Self::finish(app, Err(error)),
            AppCreation::Ending { result } => Progress::Finished(result),
        }
    }

    fn end(app: CopyOnWrite<NSRunningApplication>, result: Result<App, UnnamedError>) -> (progress:
        Progress<AppCreation, Result<App, UnnamedError>>)
        ensures
            progress == Self::finish(app, result),
    {
        match app.release() {
            Some(call) => Progress::Pending(AppCreation::Ending { result }, call),
            None => Progress::Finished(result),
        }
    }
}

impl Procedure for AppCreation {
    type Output = Result<App, UnnamedError>;

    open spec fn steps_to(self, reply: ForeignReply, progress: Progress<Self, Self::Output>)
        -> bool {
        progress == self.next_step(reply)
    }

    fn resume(self, reply: ForeignReply) -> (progress: Progress<Self, Self::Output>) {
        match self {
            AppCreation::Pid { app, bundle_id } => Progress::Pending(
                AppCreation::Element { app, bundle_id, pid: reply.pid },
                ForeignCall::CreateApplicationElement { pid: reply.pid },
            ),
            AppCreation::Element { app, bundle_id, pid } => match Rc::new_mut(reply.handle) {
                None => Self::end(app, Err(UnnamedError::CouldNotCreateCFObject)),
                Some(inner) => match bundle_id {
                    Some(text) => Self::end(app, Ok(App { inner, pid, bundle_id: text })),
                    None => {
                        let application = app.get();
                        Progress::Pending(
                            AppCreation::BundleId { app, inner, pid },
                            ForeignCall::BundleIdentifier { application },
                        )
                    },
                },
            },
            AppCreation::BundleId { app, inner, pid } => if reply.handle == 0 {
                Progress::Pending(
                    AppCreation::Unwinding { app, error: UnnamedError::UnexpectedNull },
                    inner.release(),
                )
            } else {
                Progress::Pending(
                    AppCreation::Text { app, inner, pid },
                    ForeignCall::TextContents { string: reply.handle },
                )
            },
            AppCreation::Text { app, inner, pid } => Self::end(
                app,
                Ok(App { inner, pid, bundle_id: reply.text }),
            ),
            AppCreation::Unwinding { app, error } => Self::end(app, Err(error)),
            AppCreation::Ending { result } => Progress::Finished(result),
        }
    }
}

impl Windows {
    /// How many windows there are.
    pub open spec fn count(&self) -> nat {
        self.handles@.len()
    }

    /// The window at a place: it owns its element and carries the bundle
    /// identifier of the application. There is none past the end.
    pub open spec fn window_at(&self, index: int) -> Option<Window> {
        if 0 <= index < self.handles@.len() && self.handles@[index] != 0 {
            Some(
                Window {
                    inner: CopyOnWrite::Owned(Rc::adopted(self.handles@[index])),
                    bundle_id: self.bundle_id,
                },
            )
        } else {
            None
        }
    }

    /// How many windows there are.
    pub fn len(&self) -> (count: usize)
        ensures
            count == self.count(),
    {
        self.handles.len()
    }

    /// The window at a place.
    pub fn get(&self, index: usize) -> (window: Option<Window>)
        ensures
            window == self.window_at(index as int),
            window is Some ==> index < usize::MAX,
    {
        if index < self.handles.len() {
            match Rc::new_mut(self.handles[index]) {
                Some(inner) => Some(
                    Window { inner: CopyOnWrite::Owned(inner), bundle_id: self.bundle_id.clone() },
                ),
                None => None,
            }
        } else {
            None
        }
    }
}

impl WindowListing {
    /// Goes on with the element at `index`: a null element begins the
    /// unwinding, any other is retained, and past the last element the
    /// array is released.
    pub open spec fn retain_from(array: Rc<CFType>, handles: Vec<usize>, index: usize, bundle_id: String)
        -> Progress<WindowListing, Result<Windows, UnnamedError>> {
        if index < handles@.len() {
            if handles@[index as int] == 0 {
                Self::unwind_from(array, handles, index, 0)
            } else {
                Progress::Pending(
                    WindowListing::Retaining {
                        array,
                        handles,
                        next: (index + 1) as usize,
                        bundle_id,
                    },
                    ForeignCall::Retain { handle: handles@[index as int] },
                )
            }
        } else {
            Progress::Pending(
                WindowListing::Closing { result: Ok(Windows { handles, bundle_id }) },
                ForeignCall::Release { handle: array@ },
            )
        }
    }

    /// Goes on unwinding with the element at `index`: the elements before
    /// `upto` were retained and are released in order, then the array is.
    pub open spec fn unwind_from(array: Rc<CFType>, handles: Vec<usize>, upto: usize, index: usize)
        -> Progress<WindowListing, Result<Windows, UnnamedError>> {
        if index < upto && index < handles@.len() {
            Progress::Pending(
                WindowListing::Unwinding { array, handles, upto, next: (index + 1) as usize },
                ForeignCall::Release { handle: handles@[index as int] },
            )
        } else {
            Progress::Pending(
                WindowListing::Closing { result: Err(UnnamedError::UnexpectedNull) },
                ForeignCall::Release { handle: array@ },
            )
        }
    }

    /// The first step: that of reading the windows attribute.
    pub open spec fn first_step(element: usize, bundle_id: String) -> Progress<
        WindowListing,
        Result<Windows, UnnamedError>,
    > {
        Progress::Pending(
            WindowListing::Reading {
                read: AttributeRead { copy: AttributeCopy::Key { element } },
                bundle_id,
            },
            ForeignCall::CreateString { literal: AccessibilityElementKey::Windows.name() },
        )
    }

    /// The step after a reply. The attribute gives an array; every element
    /// of the array is retained, in order, and becomes a window; then the
    /// array is released. A null element fails the listing: the elements
    /// retained so far are released again, and the array.
    pub open spec fn next_step(self, reply: ForeignReply) -> Progress<
        WindowListing,
        Result<Windows, UnnamedError>,
    > {
        match self {
            WindowListing::Reading { read, bundle_id } => match read.next_step(reply) {
                Progress::Pending(read, call) => Progress::Pending(
                    WindowListing::Reading { read, bundle_id },
                    call,
                ),
                Progress::Finished(Err(error)) => Progress::Finished(
                    Err(in_context(Context::AppWindows, error)),
                ),
                Progress::Finished(Ok(array)) => Progress::Pending(
                    WindowListing::Elements { array, bundle_id },
                    ForeignCall::ArrayElements { array: array@ },
                ),
            },
            WindowListing::Elements { array, bundle_id } => Self::retain_from(
                array,
                reply.handles,
                0,
                bundle_id,
            ),
            WindowListing::Retaining { array, handles, next, bundle_id } => Self::retain_from(
                array,
                handles,
                next,
                bundle_id,
            ),
            WindowListing::Unwinding { array, handles, upto, next } => Self::unwind_from(
                array,
                handles,
                upto,
                next,
            ),
            WindowListing::Closing { result } => Progress::Finished(result),
        }
    }

    fn retain(array: Rc<CFType>, handles: Vec<usize>, index: usize, bundle_id: String) -> (progress:
        Progress<WindowListing, Result<Windows, UnnamedError>>)
        ensures
            progress == Self::retain_from(array, handles, index, bundle_id),
    {
        if index < handles.len() {
            let handle = handles[index];
            if handle == 0 {
                Self::unwind(array, handles, index, 0)
            } else {
                Progress::Pending(
                    WindowListing::Retaining { array, handles, next: index + 1, bundle_id },
                    ForeignCall::Retain { handle },
                )
            }
        } else {
            let call = array.release();
            Progress::Pending(
                WindowListing::Closing { result: Ok(Windows { handles, bundle_id }) },
                call,
            )
        }
    }

    fn unwind(array: Rc<CFType>, handles: Vec<usize>, upto: usize, index: usize) -> (progress:
        Progress<WindowListing, Result<Windows, UnnamedError>>)
        ensures
            progress == Self::unwind_from(array, handles, upto, index),
    {
        if index < upto && index < handles.len() {
            let handle = handles[index];
            Progress::Pending(
                WindowListing::Unwinding { array, handles, upto, next: index + 1 },
                ForeignCall::Release { handle },
            )
        } else {
            let call = array.release();
            Progress::Pending(
                WindowListing::Closing { result: Err(UnnamedError::UnexpectedNull) },
                call,
            )
        }
    }
}

impl Procedure for WindowListing {
    type Output = Result<Windows, UnnamedError>;

    open spec fn steps_to(self, reply: ForeignReply, progress: Progress<Self, Self::Output>)
        -> bool {
        progress == self.next_step(reply)
    }

    fn resume(self, reply: ForeignReply) -> (progress: Progress<Self, Self::Output>) {
        match self {
            WindowListing::Reading { read, bundle_id } => match read.resume(reply) {
                Progress::Pending(read, call) => Progress::Pending(
                    WindowListing::Reading { read, bundle_id },
                    call,
                ),
                Progress::Finished(Err(error)) => Progress::Finished(
                    Err(with_context(Context::AppWindows, error)),
                ),
                Progress::Finished(Ok(array)) => {
                    let handle = array.get();
                    Progress::Pending(
                        WindowListing::Elements { array, bundle_id },
                        ForeignCall::ArrayElements { array: handle },
                    )
                },
            },
            WindowListing::Elements { array, bundle_id } => Self::retain(
                array,
                reply.handles,
                0,
                bundle_id,
            ),
            WindowListing::Retaining { array, handles, next, bundle_id } => Self::retain(
                array,
                handles,
                next,
                bundle_id,
            ),
            WindowListing::Unwinding { array, handles, upto, next } => Self::unwind(
                array,
                handles,
                upto,
                next,
            ),
            WindowListing::Closing { result } => Progress::Finished(result),
        }
    }
}

impl FocusedWindow {
    /// The window that owns the element at a handle; none for null.
    pub open spec fn adopted(handle: usize, bundle_id: String) -> Option<Window> {
        if handle == 0 {
            None
        } else {
            Some(Window { inner: CopyOnWrite::Owned(Rc::adopted(handle)), bundle_id })
        }
    }

    /// The first step: that of reading the focused window attribute.
    pub open spec fn first_step(element: usize, bundle_id: String) -> Progress<
        FocusedWindow,
        Result<Option<Window>, UnnamedError>,
    > {
        Progress::Pending(
            FocusedWindow { probe: AttributeProbe { copy: AttributeCopy::Key { element } }, bundle_id },
            ForeignCall::CreateString { literal: AccessibilityElementKey::FocusedWindow.name() },
        )
    }

    /// The step after a reply: that of [`AttributeProbe`]. At its end an
    /// absent value means that the application has no focused window, and a
    /// value becomes the window that owns it.
    pub open spec fn next_step(self, reply: ForeignReply) -> Progress<
        FocusedWindow,
        Result<Option<Window>, UnnamedError>,
    > {
        match self.probe.next_step(reply) {
            Progress::Pending(probe, call) => Progress::Pending(
                FocusedWindow { probe, bundle_id: self.bundle_id },
                call,
            ),
            Progress::Finished(Err(error)) => Progress::Finished(
                Err(in_context(Context::OptionalFocusedWindow, error)),
            ),
            Progress::Finished(Ok(None)) => Progress::Finished(Ok(None)),
            Progress::Finished(Ok(Some(handle))) => Progress::Finished(
                Ok(Self::adopted(handle, self.bundle_id)),
            ),
        }
    }
}

impl Procedure for FocusedWindow {
    type Output = Result<Option<Window>, UnnamedError>;

    open spec fn steps_to(self, reply: ForeignReply, progress: Progress<Self, Self::Output>)
        -> bool {
        progress == self.next_step(reply)
    }

    fn resume(self, reply: ForeignReply) -> (progress: Progress<Self, Self::Output>) {
        let FocusedWindow { probe, bundle_id } = self;
        match probe.resume(reply) {
            Progress::Pending(probe, call) => Progress::Pending(
                FocusedWindow { probe, bundle_id },
                call,
            ),
            Progress::Finished(Err(error)) => Progress::Finished(
                Err(with_context(Context::OptionalFocusedWindow, error)),
            ),
            Progress::Finished(Ok(None)) => Progress::Finished(Ok(None)),
            Progress::Finished(Ok(Some(handle))) => match Rc::new_mut(handle) {
                Some(inner) => Progress::Finished(
                    Ok(Some(Window { inner: CopyOnWrite::Owned(inner), bundle_id })),
                ),
                None => Progress::Finished(Ok(None)),
            },
        }
    }
}

impl AccessibilityElement for App {
    open spec fn element(&self) -> usize {
        self.inner@
    }

    fn inner(&self) -> (handle: usize) {
        self.inner.get()
    }
}

impl App {
    /// Begins making an [`App`] of a running application. With a bundle
    /// identifier given, the application is not asked for its own.
    pub fn from_nsapp(app: CopyOnWrite<NSRunningApplication>, bundle_id: Option<String>) -> (progress:
        Progress<AppCreation, Result<App, UnnamedError>>)
        ensures
            progress == AppCreation::first_step(app, bundle_id),
    {
        let application = app.get();
        Progress::Pending(
            AppCreation::Pid { app, bundle_id },
            ForeignCall::ProcessIdentifier { application },
        )
    }

    /// The process of the application.
    pub fn pid(&self) -> (pid: i32)
        ensures
            pid == self.pid,
    {
        self.pid
    }

    /// The bundle identifier of the application.
    pub fn bundle_id(&self) -> (id: &String)
        ensures
            *id == self.bundle_id,
    {
        &self.bundle_id
    }

    /// Begins listing the windows of the application.
    pub fn get_windows(&self) -> (progress: Progress<WindowListing, Result<Windows, UnnamedError>>)
        ensures
            progress == WindowListing::first_step(self.element(), self.bundle_id),
    {
        Progress::Pending(
            WindowListing::Reading {
                read: AttributeRead { copy: AttributeCopy::Key { element: self.inner() } },
                bundle_id: self.bundle_id.clone(),
            },
            ForeignCall::CreateString {
                literal: AccessibilityElementKey::Windows.attribute_name(),
            },
        )
    }

    /// Begins asking for the focused window of the application.
    pub fn focused_window(&self) -> (progress: Progress<
        FocusedWindow,
        Result<Option<Window>, UnnamedError>,
    >)
        ensures
            progress == FocusedWindow::first_step(self.element(), self.bundle_id),
    {
        Progress::Pending(
            FocusedWindow {
                probe: AttributeProbe { copy: AttributeCopy::Key { element: self.inner() } },
                bundle_id: self.bundle_id.clone(),
            },
            ForeignCall::CreateString {
                literal: AccessibilityElementKey::FocusedWindow.attribute_name(),
            },
        )
    }

    /// Gives the application up: the release of its element.
    pub fn release(self) -> (call: ForeignCall)
        ensures
            call == (ForeignCall::Release { handle: self.inner@ }),
    {
        self.inner.release()
    }
}

/// A window made of an element that a notification brought borrows the
/// element: giving the window up owes the runtime no release.
pub proof fn lemma_borrowed_window_owes_nothing(element: usize, state: WindowBorrow, reply: ForeignReply)
    ensures
        WindowBorrow::first_step(element) matches Progress::Finished(Ok(window))
            ==> window.inner.release_owed() is None,
        state.next_step(reply) matches Progress::Finished(Ok(window))
            ==> window.inner.release_owed() is None,
{
}

/// Where a window is, as far as its writes tell: the encoded position and
/// the encoded size that were last written with success.
pub struct Placement {
    pub position: Option<usize>,
    pub size: Option<usize>,
}

impl Relayout {
    /// The attribute whose write waits for its status, if one does.
    pub open spec fn writing(self) -> Option<AccessibilityElementKey> {
        match self {
            Relayout::Position { write: AttributeWrite::Status { .. }, .. } => Some(
                AccessibilityElementKey::Position,
            ),
            Relayout::Size { write: AttributeWrite::Status { .. }, .. } => Some(
                AccessibilityElementKey::Size,
            ),
            _ => None,
        }
    }

    /// The placement after the runtime has answered the pending call: a
    /// write that succeeds puts its value in place, and nothing else moves
    /// the window.
    pub open spec fn placed(self, placement: Placement, call: ForeignCall, reply: ForeignReply)
        -> Placement {
        match (self.writing(), call) {
            (
                Some(AccessibilityElementKey::Position),
                ForeignCall::SetAttributeValue { value, .. },
            ) => if reply.status == 0 {
                Placement { position: Some(value), size: placement.size }
            } else {
                placement
            },
            (
                Some(AccessibilityElementKey::Size),
                ForeignCall::SetAttributeValue { value, .. },
            ) => if reply.status == 0 {
                Placement { position: placement.position, size: Some(value) }
            } else {
                placement
            },
            _ => placement,
        }
    }

    /// Where a relayout stands, and where the window is, after the replies
    /// have come in order. Replies past the end of the procedure are not
    /// read.
    pub open spec fn run(
        progress: Progress<Relayout, Result<(), UnnamedError>>,
        placement: Placement,
        replies: Seq<ForeignReply>,
    ) -> (Progress<Relayout, Result<(), UnnamedError>>, Placement)
        decreases replies.len(),
    {
        if replies.len() == 0 {
            (progress, placement)
        } else {
            match progress {
                Progress::Pending(state, call) => Self::run(
                    state.next_step(replies[0]),
                    state.placed(placement, call, replies[0]),
                    replies.drop_first(),
                ),
                Progress::Finished(_) => (progress, placement),
            }
        }
    }

    /// Whether a relayout to the rectangle with the given origin and size
    /// is on its way: whatever it still writes is that origin or that size,
    /// and what it has written is in place.
    pub open spec fn on_course(
        progress: Progress<Relayout, Result<(), UnnamedError>>,
        placement: Placement,
        origin: usize,
        size: usize,
    ) -> bool {
        match progress {
            Progress::Pending(Relayout::Position { write, size: later, .. }, call) => {
                &&& later == size
                &&& match write {
                    AttributeWrite::Key { value, .. } => value == origin,
                    AttributeWrite::Status { .. } => call matches ForeignCall::SetAttributeValue {
                        value,
                        ..
                    } && value == origin,
                    AttributeWrite::Release { status } => status == 0 ==> placement.position
                        == Some(origin),
                }
            },
            Progress::Pending(Relayout::Size { write, .. }, call) => {
                &&& placement.position == Some(origin)
                &&& match write {
                    AttributeWrite::Key { value, .. } => value == size,
                    AttributeWrite::Status { .. } => call matches ForeignCall::SetAttributeValue {
                        value,
                        ..
                    } && value == size,
                    AttributeWrite::Release { status } => status == 0 ==> placement.size == Some(
                        size,
                    ),
                }
            },
            Progress::Finished(Ok(())) => placement == (Placement {
                position: Some(origin),
                size: Some(size),
            }),
            Progress::Finished(Err(_)) => true,
        }
    }

    /// Whether whatever a relayout still writes is the given origin or the
    /// given size.
    pub open spec fn aims_at(
        progress: Progress<Relayout, Result<(), UnnamedError>>,
        origin: usize,
        size: usize,
    ) -> bool {
        match progress {
            Progress::Pending(Relayout::Position { write, size: later, .. }, call) => {
                &&& later == size
                &&& match write {
                    AttributeWrite::Key { value, .. } => value == origin,
                    AttributeWrite::Status { .. } => call matches ForeignCall::SetAttributeValue {
                        value,
                        ..
                    } && value == origin,
                    AttributeWrite::Release { .. } => true,
                }
            },
            Progress::Pending(Relayout::Size { write, .. }, call) => match write {
                AttributeWrite::Key { value, .. } => value == size,
                AttributeWrite::Status { .. } => call matches ForeignCall::SetAttributeValue {
                    value,
                    ..
                } && value == size,
                AttributeWrite::Release { .. } => true,
            },
            Progress::Finished(_) => true,
        }
    }

    proof fn lemma_stays_on_course(
        progress: Progress<Relayout, Result<(), UnnamedError>>,
        placement: Placement,
        origin: usize,
        size: usize,
        replies: Seq<ForeignReply>,
    )
        requires
            Self::on_course(progress, placement, origin, size),
        ensures
            Self::on_course(
                Self::run(progress, placement, replies).0,
                Self::run(progress, placement, replies).1,
                origin,
                size,
            ),
        decreases replies.len(),
    {
        if replies.len() > 0 {
            match progress {
                Progress::Pending(state, call) => {
                    Self::lemma_stays_on_course(
                        state.next_step(replies[0]),
                        state.placed(placement, call, replies[0]),
                        origin,
                        size,
                        replies.drop_first(),
                    );
                },
                Progress::Finished(_) => {},
            }
        }
    }

    proof fn lemma_stays_in_place(
        progress: Progress<Relayout, Result<(), UnnamedError>>,
        placement: Placement,
        origin: usize,
        size: usize,
        replies: Seq<ForeignReply>,
    )
        requires
            Self::aims_at(progress, origin, size),
            placement == (Placement { position: Some(origin), size: Some(size) }),
        ensures
            Self::run(progress, placement, replies).1 == placement,
        decreases replies.len(),
    {
        if replies.len() > 0 {
            match progress {
                Progress::Pending(state, call) => {
                    Self::lemma_stays_in_place(
                        state.next_step(replies[0]),
                        state.placed(placement, call, replies[0]),
                        origin,
                        size,
                        replies.drop_first(),
                    );
                },
                Progress::Finished(_) => {},
            }
        }
    }

    /// A relayout that ends well leaves the window at the rectangle,
    /// wherever the window was before and whatever the runtime answered on
    /// the way.
    pub proof fn lemma_relayout_places(
        element: usize,
        bundle_id: String,
        origin: usize,
        size: usize,
        before: Placement,
        replies: Seq<ForeignReply>,
    )
        ensures
            Self::run(Self::first_step(element, bundle_id, origin, size), before, replies).0
                == Progress::<Relayout, Result<(), UnnamedError>>::Finished(Ok(())) ==> Self::run(
                Self::first_step(element, bundle_id, origin, size),
                before,
                replies,
            ).1 == (Placement { position: Some(origin), size: Some(size) }),
    {
        Self::lemma_stays_on_course(
            Self::first_step(element, bundle_id, origin, size),
            before,
            origin,
            size,
            replies,
        );
    }

    /// Relayout is idempotent. Once a relayout to a rectangle has ended
    /// well, another relayout of the same window to the same rectangle
    /// leaves the window where the first one put it, whatever the runtime
    /// answers the second time and however far the second one gets.
    pub proof fn lemma_relayout_idempotent(
        element: usize,
        bundle_id: String,
        origin: usize,
        size: usize,
        before: Placement,
        first: Seq<ForeignReply>,
        second: Seq<ForeignReply>,
    )
        requires
            Self::run(Self::first_step(element, bundle_id, origin, size), before, first).0
                == Progress::<Relayout, Result<(), UnnamedError>>::Finished(Ok(())),
        ensures
            ({
                let once = Self::run(
                    Self::first_step(element, bundle_id, origin, size),
                    before,
                    first,
                ).1;
                let twice = Self::run(
                    Self::first_step(element, bundle_id, origin, size),
                    once,
                    second,
                ).1;
                twice == once
            }),
    {
        Self::lemma_relayout_places(element, bundle_id, origin, size, before, first);
        let once = Self::run(Self::first_step(element, bundle_id, origin, size), before, first).1;
        Self::lemma_stays_in_place(
            Self::first_step(element, bundle_id, origin, size),
            once,
            origin,
            size,
            second,
        );
    }
}

} // verus!
