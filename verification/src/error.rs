//! What can go wrong, and how a status of the accessibility interface is read.

use vstd::prelude::*;

verus! {

/// The call succeeded.
pub const AX_ERROR_SUCCESS: i32 = 0;
/// A system error occurred.
pub const AX_ERROR_FAILURE: i32 = -25200;
/// An argument was not legal.
pub const AX_ERROR_ILLEGAL_ARGUMENT: i32 = -25201;
/// The element is not valid.
pub const AX_ERROR_INVALID_UI_ELEMENT: i32 = -25202;
/// The observer is not valid.
pub const AX_ERROR_INVALID_UI_ELEMENT_OBSERVER: i32 = -25203;
/// The call could not complete.
pub const AX_ERROR_CANNOT_COMPLETE: i32 = -25204;
/// The element does not have the attribute.
pub const AX_ERROR_ATTRIBUTE_UNSUPPORTED: i32 = -25205;
/// The element does not have the action.
pub const AX_ERROR_ACTION_UNSUPPORTED: i32 = -25206;
/// The element does not send the notification.
pub const AX_ERROR_NOTIFICATION_UNSUPPORTED: i32 = -25207;
/// The process does not implement the interface.
pub const AX_ERROR_NOT_IMPLEMENTED: i32 = -25208;
/// The notification is registered already.
pub const AX_ERROR_NOTIFICATION_ALREADY_REGISTERED: i32 = -25209;
/// The notification is not registered.
pub const AX_ERROR_NOTIFICATION_NOT_REGISTERED: i32 = -25210;
/// The interface is switched off.
pub const AX_ERROR_API_DISABLED: i32 = -25211;
/// The attribute has no value.
pub const AX_ERROR_NO_VALUE: i32 = -25212;
/// The element does not have the parameterized attribute.
pub const AX_ERROR_PARAMETERIZED_ATTRIBUTE_UNSUPPORTED: i32 = -25213;
/// The value lost precision.
pub const AX_ERROR_NOT_ENOUGH_PRECISION: i32 = -25214;

/// Why the global key listener could not start.
#[derive(Clone, Copy, Debug, PartialEq, Eq, Structural)]
pub enum ListenError {
    EventTapError,
    LoopSourceError,
    MissingDisplayError,
    KeyboardError,
    RecordContextEnablingError,
    RecordContextError,
    XRecordExtensionError,
    KeyHookError(u32),
    MouseHookError(u32),
    /// A failure that the listener has no older name for.
    Other,
}

/// The operation during which an error came up.
#[derive(Debug, PartialEq, Eq)]
pub enum Context {
    /// The name of an attribute could not be made into a runtime string.
    ConstructKey,
    /// The windows of an application could not be read.
    AppWindows,
    /// The focused window of an application could not be read.
    OptionalFocusedWindow,
    /// The process of a window could not be found.
    WindowPid,
    /// The position of a window of this bundle could not be set.
    SetPosition { bundle_id: String },
    /// The size of a window of this bundle could not be set.
    SetSize { bundle_id: String },
    /// The window identifier could not be read.
    MagicWindowId,
    /// The frontmost application's focused window could not be read.
    FocusedWindowOfApp,
    /// The focused window could not be identified.
    FocusedMagicId,
    /// A window of the focused application could not be identified.
    WindowMagicId,
    /// Resizes of a window of this bundle could not be observed.
    ObserveResizes { bundle_id: String },
    /// Moves of a window of this bundle could not be observed.
    ObserveMoves { bundle_id: String },
    /// The layout presets could not be computed.
    ComputePresets,
    /// The process lacks the permission to use the accessibility interface.
    MissingPermissions,
    /// The key listener's run loop failed.
    RunLoop,
    /// An operation outside this library, in its caller's words.
    Other { message: String },
}

/// An error of this library.
#[derive(Debug, PartialEq, Eq)]
pub enum UnnamedError {
    /// The runtime returned null where it should have made an object.
    CouldNotCreateCFObject,
    /// The runtime returned null where a value was required.
    UnexpectedNull,
    /// A call of the accessibility interface returned this status.
    AXError { code: i32 },
    /// The key listener failed.
    RDevError { inner: ListenError },
    /// Another error, or none, with the operation that met it.
    Whatever { context: Context, source: Option<Box<UnnamedError>> },
}

/// Reading a status of the accessibility interface.
pub trait AXErrorExt: Sized {
    /// The status as a number.
    spec fn code(self) -> i32;

    /// What the interface's documentation says of the status.
    fn discussion(&self) -> (text: Option<&'static str>)
        ensures
            text == discussion_of(self.code()),
    ;

    /// `Ok` for success, the status as an error otherwise.
    fn into_result(self) -> (result: Result<(), UnnamedError>)
        ensures
            result == result_of(self.code()),
    ;
}

/// The documented meaning of each status that has one.
pub open spec fn discussion_of(code: i32) -> Option<&'static str> {
    if code == AX_ERROR_API_DISABLED {
        Some("Assistive applications are not enabled in System Preferences.")
    } else if code == AX_ERROR_ACTION_UNSUPPORTED {
        Some(
            "The referenced action is not supported. Alternatively, you can return the eventNotHandledErr error.",
        )
    } else if code == AX_ERROR_ATTRIBUTE_UNSUPPORTED {
        Some(
            "The referenced attribute is not supported. Alternatively, you can return the eventNotHandledErr error.",
        )
    } else if code == AX_ERROR_CANNOT_COMPLETE {
        Some(
            "A fundamental error has occurred, such as a failure to allocate memory during processing.",
        )
    } else if code == AX_ERROR_ILLEGAL_ARGUMENT {
        Some(
            "The value received in this event is an invalid value for this attribute. This also applies for invalid parameters in parameterized attributes.",
        )
    } else if code == AX_ERROR_INVALID_UI_ELEMENT {
        Some("The accessibility object received in this event is invalid.")
    } else if code == AX_ERROR_INVALID_UI_ELEMENT_OBSERVER {
        Some("The observer for the accessibility object received in this event is invalid.")
    } else if code == AX_ERROR_PARAMETERIZED_ATTRIBUTE_UNSUPPORTED {
        Some(
            "The parameterized attribute is not supported. Alternatively, you can return the eventNotHandledErr error.",
        )
    } else if code == AX_ERROR_FAILURE {
        Some("A system error occurred, such as the failure to allocate an object.")
    } else if code == AX_ERROR_NO_VALUE {
        Some("The requested value or AXUIElementRef does not exist.")
    } else if code == AX_ERROR_NOT_ENOUGH_PRECISION {
        Some("Not enough precision")
    } else if code == AX_ERROR_NOT_IMPLEMENTED {
        Some(
            "Indicates that the function or method is not implemented (this can be returned if a process does not support the accessibility API).",
        )
    } else if code == AX_ERROR_NOTIFICATION_ALREADY_REGISTERED {
        Some("This notification has already been registered for.")
    } else if code == AX_ERROR_NOTIFICATION_NOT_REGISTERED {
        Some("Indicates that a notification is not registered yet.")
    } else if code == AX_ERROR_NOTIFICATION_UNSUPPORTED {
        Some("The notification is not supported by the AXUIElementRef.")
    } else {
        None
    }
}

/// Success for the status zero, and for every other status the error that
/// carries it.
pub open spec fn result_of(code: i32) -> Result<(), UnnamedError> {
    if code == AX_ERROR_SUCCESS {
        Ok(())
    } else {
        Err(UnnamedError::AXError { code })
    }
}

impl AXErrorExt for i32 {
    open spec fn code(self) -> i32 {
        self
    }

    fn discussion(&self) -> (text: Option<&'static str>) {
        let code = *self;
        if code == AX_ERROR_API_DISABLED {
            Some("Assistive applications are not enabled in System Preferences.")
        } else if code == AX_ERROR_ACTION_UNSUPPORTED {
            Some(
                "The referenced action is not supported. Alternatively, you can return the eventNotHandledErr error.",
            )
        } else if code == AX_ERROR_ATTRIBUTE_UNSUPPORTED {
            Some(
                "The referenced attribute is not supported. Alternatively, you can return the eventNotHandledErr error.",
            )
        } else if code == AX_ERROR_CANNOT_COMPLETE {
            Some(
                "A fundamental error has occurred, such as a failure to allocate memory during processing.",
            )
        } else if code == AX_ERROR_ILLEGAL_ARGUMENT {
            Some(
                "The value received in this event is an invalid value for this attribute. This also applies for invalid parameters in parameterized attributes.",
            )
        } else if code == AX_ERROR_INVALID_UI_ELEMENT {
            Some("The accessibility object received in this event is invalid.")
        } else if code == AX_ERROR_INVALID_UI_ELEMENT_OBSERVER {
            Some("The observer for the accessibility object received in this event is invalid.")
        } else if code == AX_ERROR_PARAMETERIZED_ATTRIBUTE_UNSUPPORTED {
            Some(
                "The parameterized attribute is not supported. Alternatively, you can return the eventNotHandledErr error.",
            )
        } else if code == AX_ERROR_FAILURE {
            Some("A system error occurred, such as the failure to allocate an object.")
        } else if code == AX_ERROR_NO_VALUE {
            Some("The requested value or AXUIElementRef does not exist.")
        } else if code == AX_ERROR_NOT_ENOUGH_PRECISION {
            Some("Not enough precision")
        } else if code == AX_ERROR_NOT_IMPLEMENTED {
            Some(
                "Indicates that the function or method is not implemented (this can be returned if a process does not support the accessibility API).",
            )
        } else if code == AX_ERROR_NOTIFICATION_ALREADY_REGISTERED {
            Some("This notification has already been registered for.")
        } else if code == AX_ERROR_NOTIFICATION_NOT_REGISTERED {
            Some("Indicates that a notification is not registered yet.")
        } else if code == AX_ERROR_NOTIFICATION_UNSUPPORTED {
            Some("The notification is not supported by the AXUIElementRef.")
        } else {
            None
        }
    }

    fn into_result(self) -> (result: Result<(), UnnamedError>) {
        if self == AX_ERROR_SUCCESS {
            Ok(())
        } else {
            Err(UnnamedError::AXError { code: self })
        }
    }
}

/// The character of a decimal digit.
pub open spec fn digit_char(digit: nat) -> char {
    if digit == 0 {
        '0'
    } else if digit == 1 {
        '1'
    } else if digit == 2 {
        '2'
    } else if digit == 3 {
        '3'
    } else if digit == 4 {
        '4'
    } else if digit == 5 {
        '5'
    } else if digit == 6 {
        '6'
    } else if digit == 7 {
        '7'
    } else if digit == 8 {
        '8'
    } else {
        '9'
    }
}

/// A natural number in decimal digits, without leading zeros.
pub open spec fn decimal_of(value: nat) -> Seq<char>
    decreases value,
{
    if value < 10 {
        seq![digit_char(value)]
    } else {
        decimal_of(value / 10).push(digit_char(value % 10))
    }
}

/// An integer in decimal digits, with a minus sign if it is negative.
pub open spec fn signed_decimal_of(value: int) -> Seq<char> {
    if value < 0 {
        seq!['-'] + decimal_of((-value) as nat)
    } else {
        decimal_of(value as nat)
    }
}

fn digit(value: u64) -> (text: &'static str)
    requires
        value < 10,
    ensures
        text@ == seq![digit_char(value as nat)],
{
    proof {
        reveal_strlit("0");
        reveal_strlit("1");
        reveal_strlit("2");
        reveal_strlit("3");
        reveal_strlit("4");
        reveal_strlit("5");
        reveal_strlit("6");
        reveal_strlit("7");
        reveal_strlit("8");
        reveal_strlit("9");
    }
    let text = if value == 0 {
        "0"
    } else if value == 1 {
        "1"
    } else if value == 2 {
        "2"
    } else if value == 3 {
        "3"
    } else if value == 4 {
        "4"
    } else if value == 5 {
        "5"
    } else if value == 6 {
        "6"
    } else if value == 7 {
        "7"
    } else if value == 8 {
        "8"
    } else {
        "9"
    };
    assert(text@ =~= seq![digit_char(value as nat)]);
    text
}

/// A number in decimal digits.
pub fn decimal(value: u64) -> (text: String)
    ensures
        text@ == decimal_of(value as nat),
    decreases value,
{
    if value < 10 {
        String::from_str(digit(value))
    } else {
        let mut text = decimal(value / 10);
        text.append(digit(value % 10));
        assert(text@ =~= decimal_of(value as nat));
        text
    }
}

/// A status in decimal digits, with a minus sign if it is negative.
pub fn signed_decimal(value: i32) -> (text: String)
    ensures
        text@ == signed_decimal_of(value as int),
{
    if value < 0 {
        let magnitude: u64 = (-(value as i64)) as u64;
        let mut text = String::from_str("-");
        let digits = decimal(magnitude);
        text.append(digits.as_str());
        proof {
            reveal_strlit("-");
            assert(text@ =~= signed_decimal_of(value as int));
        }
        text
    } else {
        decimal(value as u64)
    }
}

impl ListenError {
    /// The name of the failure and, where it has one, its code in
    /// brackets.
    pub open spec fn text(self) -> Seq<char> {
        match self {
            ListenError::EventTapError => "EventTapError"@,
            ListenError::LoopSourceError => "LoopSourceError"@,
            ListenError::MissingDisplayError => "MissingDisplayError"@,
            ListenError::KeyboardError => "KeyboardError"@,
            ListenError::RecordContextEnablingError => "RecordContextEnablingError"@,
            ListenError::RecordContextError => "RecordContextError"@,
            ListenError::XRecordExtensionError => "XRecordExtensionError"@,
            ListenError::KeyHookError(code) => "KeyHookError("@ + decimal_of(code as nat) + ")"@,
            ListenError::MouseHookError(code) => "MouseHookError("@ + decimal_of(code as nat)
                + ")"@,
            ListenError::Other => "Other"@,
        }
    }

    /// The failure in words.
    pub fn message(&self) -> (text: String)
        ensures
            text@ == self.text(),
    {
        match self {
            ListenError::EventTapError => String::from_str("EventTapError"),
            ListenError::LoopSourceError => String::from_str("LoopSourceError"),
            ListenError::MissingDisplayError => String::from_str("MissingDisplayError"),
            ListenError::KeyboardError => String::from_str("KeyboardError"),
            ListenError::RecordContextEnablingError => String::from_str(
                "RecordContextEnablingError",
            ),
            ListenError::RecordContextError => String::from_str("RecordContextError"),
            ListenError::XRecordExtensionError => String::from_str("XRecordExtensionError"),
            ListenError::KeyHookError(code) => {
                let mut text = String::from_str("KeyHookError(");
                text.append(decimal(*code as u64).as_str());
                text.append(")");
                text
            },
            ListenError::MouseHookError(code) => {
                let mut text = String::from_str("MouseHookError(");
                text.append(decimal(*code as u64).as_str());
                text.append(")");
                text
            },
            ListenError::Other => String::from_str("Other"),
        }
    }
}

impl Context {
    /// The operation in words.
    pub open spec fn text(self) -> Seq<char> {
        match self {
            Context::ConstructKey => "Failed to construct CFString from accessibility key"@,
            Context::AppWindows => "Failed to get accessibility elements for app windows"@,
            Context::OptionalFocusedWindow => "Failed to get optional focused window for the app"@,
            Context::WindowPid => "Could not get window PID"@,
            Context::SetPosition { bundle_id } => "Failed to set "@ + bundle_id@ + " position"@,
            Context::SetSize { bundle_id } => "Failed to set "@ + bundle_id@ + " size"@,
            Context::MagicWindowId => "Failed to get magic window ID"@,
            Context::FocusedWindowOfApp => "Failed to get optionally focused window for app"@,
            Context::FocusedMagicId => "Failed to get magic ID of focused window"@,
            Context::WindowMagicId => "Failed to get window magic ID"@,
            Context::ObserveResizes { bundle_id } => "Failed to observe window resizes in "@
                + bundle_id@,
            Context::ObserveMoves { bundle_id } => "Failed to observe window moves in "@
                + bundle_id@,
            Context::ComputePresets => "Failed to compute layout presets"@,
            Context::MissingPermissions => "This program needs accessibility permissions to work"@,
            Context::RunLoop => "CGRunLoop failed"@,
            Context::Other { message } => message@,
        }
    }

    /// The operation in words.
    pub fn message(&self) -> (text: String)
        ensures
            text@ == self.text(),
    {
        match self {
            Context::ConstructKey => String::from_str(
                "Failed to construct CFString from accessibility key",
            ),
            Context::AppWindows => String::from_str(
                "Failed to get accessibility elements for app windows",
            ),
            Context::OptionalFocusedWindow => String::from_str(
                "Failed to get optional focused window for the app",
            ),
            Context::WindowPid => String::from_str("Could not get window PID"),
            Context::SetPosition { bundle_id } => {
                let mut text = String::from_str("Failed to set ");
                text.append(bundle_id.as_str());
                text.append(" position");
                text
            },
            Context::SetSize { bundle_id } => {
                let mut text = String::from_str("Failed to set ");
                text.append(bundle_id.as_str());
                text.append(" size");
                text
            },
            Context::MagicWindowId => String::from_str("Failed to get magic window ID"),
            Context::FocusedWindowOfApp => String::from_str(
                "Failed to get optionally focused window for app",
            ),
            Context::FocusedMagicId => String::from_str(
                "Failed to get magic ID of focused window",
            ),
            Context::WindowMagicId => String::from_str("Failed to get window magic ID"),
            Context::ObserveResizes { bundle_id } => {
                let mut text = String::from_str("Failed to observe window resizes in ");
                text.append(bundle_id.as_str());
                text
            },
            Context::ObserveMoves { bundle_id } => {
                let mut text = String::from_str("Failed to observe window moves in ");
                text.append(bundle_id.as_str());
                text
            },
            Context::ComputePresets => String::from_str("Failed to compute layout presets"),
            Context::MissingPermissions => String::from_str(
                "This program needs accessibility permissions to work",
            ),
            Context::RunLoop => String::from_str("CGRunLoop failed"),
            Context::Other { message } => message.clone(),
        }
    }
}

/// The discussion of a status as it is printed: the text in quotes inside
/// `Some(..)`, or `None`.
pub open spec fn discussion_text(code: i32) -> Seq<char> {
    match discussion_of(code) {
        Some(text) => "Some(\""@ + text@ + "\")"@,
        None => "None"@,
    }
}

impl UnnamedError {
    /// The error in words. An error that another operation met reads as
    /// that operation; its source is not part of the text.
    pub open spec fn text(self) -> Seq<char> {
        match self {
            UnnamedError::CouldNotCreateCFObject =>
                "Failed to create or copy object allocated with CoreFoundation"@,
            UnnamedError::UnexpectedNull => "Apple API object was unexpectedly null"@,
            UnnamedError::AXError { code } => "Accessibility API error: "@ + discussion_text(code)
                + " ("@ + signed_decimal_of(code as int) + ")"@,
            UnnamedError::RDevError { inner } => "rdev error: "@ + inner.text(),
            UnnamedError::Whatever { context, .. } => context.text(),
        }
    }

    /// The error in words.
    pub fn message(&self) -> (text: String)
        ensures
            text@ == self.text(),
    {
        match self {
            UnnamedError::CouldNotCreateCFObject => String::from_str(
                "Failed to create or copy object allocated with CoreFoundation",
            ),
            UnnamedError::UnexpectedNull => String::from_str(
                "Apple API object was unexpectedly null",
            ),
            UnnamedError::AXError { code } => {
                let mut text = String::from_str("Accessibility API error: ");
                match code.discussion() {
                    Some(discussion) => {
                        text.append("Some(\"");
                        text.append(discussion);
                        text.append("\")");
                    },
                    None => {
                        text.append("None");
                    },
                }
                text.append(" (");
                text.append(signed_decimal(*code).as_str());
                text.append(")");
                text
            },
            UnnamedError::RDevError { inner } => {
                let mut text = String::from_str("rdev error: ");
                text.append(inner.message().as_str());
                text
            },
            UnnamedError::Whatever { context, .. } => context.message(),
        }
    }

    /// The error that this one wraps, if it wraps one.
    pub fn source(&self) -> (source: Option<&UnnamedError>)
        ensures
            source == (match *self {
                UnnamedError::Whatever { source: Some(inner), .. } => Some(&*inner),
                _ => None,
            }),
    {
        match self {
            UnnamedError::Whatever { source: Some(inner), .. } => Some(&**inner),
            _ => None,
        }
    }
}

} // verus!
