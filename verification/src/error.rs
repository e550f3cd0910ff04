//! The error of a login.
use vstd::prelude::*;

verus! {

/// The kind of a login error.
#[derive(Debug, Clone, Copy, PartialEq, Eq, Structural)]
pub enum ErrorKind {
    AddrInUse,
    Interrupted,
    PermissionDenied,
    InvalidInput,
    Other,
}

/// An error of a login: its kind and its message.
#[derive(Debug, Clone, PartialEq, Eq)]
pub struct LoginError {
    pub kind: ErrorKind,
    pub message: String,
}

/// What a login error says.
pub struct LoginErrorView {
    pub kind: ErrorKind,
    pub message: Seq<char>,
}

impl View for LoginError {
    type V = LoginErrorView;

    open spec fn view(&self) -> LoginErrorView {
        LoginErrorView { kind: self.kind, message: self.message@ }
    }
}

impl LoginError {
    /// An error of the given kind.
    pub fn new(kind: ErrorKind, message: &str) -> (error: Self)
        ensures
            error@ == (LoginErrorView { kind, message: message@ }),
            error.kind == kind,
            error.message@ == message@,
    {
        LoginError { kind, message: message.to_owned() }
    }

    /// An error of no particular kind.
    pub fn other(message: &str) -> (error: Self)
        ensures
            error@ == (LoginErrorView { kind: ErrorKind::Other, message: message@ }),
            error.kind == ErrorKind::Other,
            error.message@ == message@,
    {
        LoginError::new(ErrorKind::Other, message)
    }
}

} // verus!
