//! Errors of the control layer.

use vstd::prelude::*;
use crate::text::{decimal, numeral};

verus! {

/// Utf-8 decoding failure of `std`, carried through unchanged.
#[verifier::external_type_specification]
#[verifier::external_body]
pub struct ExUtf8Error(std::str::Utf8Error);

/// Failure of x11rb to establish a connection, carried through unchanged.
#[verifier::external_type_specification]
#[verifier::external_body]
pub struct ExConnectError(x11rb::errors::ConnectError);

/// Failure of an established x11rb connection, carried through unchanged.
#[verifier::external_type_specification]
#[verifier::external_body]
pub struct ExConnectionError(x11rb::errors::ConnectionError);

/// Failure of a request as x11rb reports it, carried through unchanged.
#[verifier::external_type_specification]
#[verifier::external_body]
pub struct ExReplyError(x11rb::errors::ReplyError);

/// Every failure that the control layer itself detects.
#[derive(Clone, Debug, PartialEq, Eq, PartialOrd, Ord, Hash)]
pub enum WindowManagerError {
    DesktopWinNotFound,
    InvalidAtom(String),
    InvalidWinGravity(u32),
    InvalidWinPosition(String),
    InvalidWinShape(String),
    InvalidWinClass(u32),
    InvalidWinMap(u32),
    InvalidWinState(u32),
    InvalidWinType(u32),
    PropertyNotFound(String),
    TaskbarNotFound,
    TaskbarReservationNotFound,
}

/// A failure of the control layer or of one of the layers below it.
#[derive(Debug)]
pub enum ErrorWrapper {
    WindowManager(WindowManagerError),
    Utf8(std::str::Utf8Error),
    Connect(x11rb::errors::ConnectError),
    Connection(x11rb::errors::ConnectionError),
    Reply(x11rb::errors::ReplyError),
}

pub type WindowManagerResult<T> = Result<T, ErrorWrapper>;

/// Whether `result` is the failure to find the property called `name`.
pub open spec fn is_not_found<T>(result: WindowManagerResult<T>, name: Seq<char>) -> bool {
    result matches Err(ErrorWrapper::WindowManager(WindowManagerError::PropertyNotFound(n)))
        && n@ == name
}

/// Whether `result` is what a lookup returns whose outcome is `value`: the
/// value itself, or the failure to find the property called `name`.
pub open spec fn answers<T>(result: WindowManagerResult<T>, value: Option<T>, name: Seq<char>)
    -> bool {
    match value {
        Some(v) => result == Ok::<T, ErrorWrapper>(v),
        None => is_not_found(result, name),
    }
}

/// The failure to find the property called `name`.
pub fn not_found(name: &str) -> (r: ErrorWrapper)
    ensures
        r matches ErrorWrapper::WindowManager(WindowManagerError::PropertyNotFound(n)) && n@
            == name@,
{
    ErrorWrapper::WindowManager(WindowManagerError::PropertyNotFound(name.to_owned()))
}

impl WindowManagerError {
    /// What the error says.
    pub open spec fn message(self) -> Seq<char> {
        match self {
            WindowManagerError::DesktopWinNotFound => "desktop window was not found"@,
            WindowManagerError::InvalidAtom(given) => "invalid atom was given: "@ + given@,
            WindowManagerError::InvalidWinPosition(given) => "invalid position was given: "@ + given@,
            WindowManagerError::InvalidWinShape(given) => "invalid shape was given: "@ + given@,
            WindowManagerError::InvalidWinGravity(given) => "invalid gravity was given: "@ + numeral(given as nat),
            WindowManagerError::InvalidWinClass(given) => "invalid class was given: "@ + numeral(given as nat),
            WindowManagerError::InvalidWinMap(given) => "invalid map was given: "@ + numeral(given as nat),
            WindowManagerError::InvalidWinState(given) => "invalid state was given: "@ + numeral(given as nat),
            WindowManagerError::InvalidWinType(given) => "invalid type was given: "@ + numeral(given as nat),
            WindowManagerError::PropertyNotFound(name) => "property "@ + name@
                + " was not found"@,
            WindowManagerError::TaskbarNotFound => "taskbar not found"@,
            WindowManagerError::TaskbarReservationNotFound => "taskbar reservation not found"@,
        }
    }

    /// What the error says.
    pub fn to_string(&self) -> (r: String)
        ensures
            r@ == self.message(),
    {
        match self {
            WindowManagerError::DesktopWinNotFound => "desktop window was not found".to_owned(),
            WindowManagerError::InvalidAtom(given) => {
                let mut r = "invalid atom was given: ".to_owned();
                r.append(given.as_str());
                r
            },
            WindowManagerError::InvalidWinPosition(given) => {
                let mut r = "invalid position was given: ".to_owned();
                r.append(given.as_str());
                r
            },
            WindowManagerError::InvalidWinShape(given) => {
                let mut r = "invalid shape was given: ".to_owned();
                r.append(given.as_str());
                r
            },
            WindowManagerError::InvalidWinGravity(given) => {
                let mut r = "invalid gravity was given: ".to_owned();
                r.append(decimal(*given as u64).as_str());
                r
            },
            WindowManagerError::InvalidWinClass(given) => {
                let mut r = "invalid class was given: ".to_owned();
                r.append(decimal(*given as u64).as_str());
                r
            },
            WindowManagerError::InvalidWinMap(given) => {
                let mut r = "invalid map was given: ".to_owned();
                r.append(decimal(*given as u64).as_str());
                r
            },
            WindowManagerError::InvalidWinState(given) => {
                let mut r = "invalid state was given: ".to_owned();
                r.append(decimal(*given as u64).as_str());
                r
            },
            WindowManagerError::InvalidWinType(given) => {
                let mut r = "invalid type was given: ".to_owned();
                r.append(decimal(*given as u64).as_str());
                r
            },
            WindowManagerError::PropertyNotFound(name) => {
                let mut r = "property ".to_owned();
                r.append(name.as_str());
                r.append(" was not found");
                r
            },
            WindowManagerError::TaskbarNotFound => "taskbar not found".to_owned(),
            WindowManagerError::TaskbarReservationNotFound => "taskbar reservation not found".to_owned(),
        }
    }
}

/// What `Display` of std writes for a UTF-8 error.
#[verifier::external_body]
fn utf8_error_text(e: &std::str::Utf8Error) -> String {
    format!("{}", e)
}

/// What `Display` of x11rb writes for a `ConnectError`.
#[verifier::external_body]
fn connect_error_text(e: &x11rb::errors::ConnectError) -> String {
    format!("{}", e)
}

/// What `Display` of x11rb writes for a `ConnectionError`.
#[verifier::external_body]
fn connection_error_text(e: &x11rb::errors::ConnectionError) -> String {
    format!("{}", e)
}

/// What `Display` of x11rb writes for a `ReplyError`.
#[verifier::external_body]
fn reply_error_text(e: &x11rb::errors::ReplyError) -> String {
    format!("{}", e)
}

impl ErrorWrapper {
    /// What the error says: the message of an error of the control layer, and
    /// for an error of a layer below what that layer writes for it.
    pub fn to_string(&self) -> (r: String)
        ensures
            self matches ErrorWrapper::WindowManager(e) ==> r@ == e.message(),
    {
        match self {
            ErrorWrapper::WindowManager(e) => e.to_string(),
            ErrorWrapper::Utf8(e) => utf8_error_text(e),
            ErrorWrapper::Connect(e) => connect_error_text(e),
            ErrorWrapper::Connection(e) => connection_error_text(e),
            ErrorWrapper::Reply(e) => reply_error_text(e),
        }
    }
}

impl From<WindowManagerError> for ErrorWrapper {
    fn from(err: WindowManagerError) -> (r: ErrorWrapper) {
        ErrorWrapper::WindowManager(err)
    }
}

impl vstd::std_specs::convert::FromSpecImpl<WindowManagerError> for ErrorWrapper {
    open spec fn obeys_from_spec() -> bool {
        true
    }

    open spec fn from_spec(err: WindowManagerError) -> ErrorWrapper {
        ErrorWrapper::WindowManager(err)
    }
}

impl From<std::str::Utf8Error> for ErrorWrapper {
    fn from(err: std::str::Utf8Error) -> (r: ErrorWrapper) {
        ErrorWrapper::Utf8(err)
    }
}

impl vstd::std_specs::convert::FromSpecImpl<std::str::Utf8Error> for ErrorWrapper {
    open spec fn obeys_from_spec() -> bool {
        true
    }

    open spec fn from_spec(err: std::str::Utf8Error) -> ErrorWrapper {
        ErrorWrapper::Utf8(err)
    }
}

impl From<x11rb::errors::ConnectError> for ErrorWrapper {
    fn from(err: x11rb::errors::ConnectError) -> (r: ErrorWrapper) {
        ErrorWrapper::Connect(err)
    }
}

impl vstd::std_specs::convert::FromSpecImpl<x11rb::errors::ConnectError> for ErrorWrapper {
    open spec fn obeys_from_spec() -> bool {
        true
    }

    open spec fn from_spec(err: x11rb::errors::ConnectError) -> ErrorWrapper {
        ErrorWrapper::Connect(err)
    }
}

impl From<x11rb::errors::ConnectionError> for ErrorWrapper {
    fn from(err: x11rb::errors::ConnectionError) -> (r: ErrorWrapper) {
        ErrorWrapper::Connection(err)
    }
}

impl vstd::std_specs::convert::FromSpecImpl<x11rb::errors::ConnectionError> for ErrorWrapper {
    open spec fn obeys_from_spec() -> bool {
        true
    }

    open spec fn from_spec(err: x11rb::errors::ConnectionError) -> ErrorWrapper {
        ErrorWrapper::Connection(err)
    }
}

impl From<x11rb::errors::ReplyError> for ErrorWrapper {
    fn from(err: x11rb::errors::ReplyError) -> (r: ErrorWrapper) {
        ErrorWrapper::Reply(err)
    }
}

impl vstd::std_specs::convert::FromSpecImpl<x11rb::errors::ReplyError> for ErrorWrapper {
    open spec fn obeys_from_spec() -> bool {
        true
    }

    open spec fn from_spec(err: x11rb::errors::ReplyError) -> ErrorWrapper {
        ErrorWrapper::Reply(err)
    }
}

} // verus!
