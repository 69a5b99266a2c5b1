//! The kinds of failure, and the error that a caller receives.

use vstd::prelude::*;
use vstd::string::*;
use crate::command::{Field, Shape};

verus! {

/// The kinds of failure that a caller can tell apart.
#[derive(Clone, Copy, Debug, PartialEq, Eq, Structural)]
pub enum ErrorKind {
    UnknownCommand,
    InvalidArguments,
    NetworkError,
    AuthenticationFailed,
    RemoteRejected,
    NotFound,
    PermissionDenied,
    InvalidEncoding,
    LocalFileError,
}

impl ErrorKind {
    /// Whether the kind is found by looking at the request alone, before any
    /// handler runs.
    pub open spec fn is_validation_spec(self) -> bool {
        self == ErrorKind::UnknownCommand || self == ErrorKind::InvalidArguments
    }

    /// The name of the kind.
    pub open spec fn name_spec(self) -> Seq<char> {
        match self {
            ErrorKind::UnknownCommand => "UnknownCommand"@,
            ErrorKind::InvalidArguments => "InvalidArguments"@,
            ErrorKind::NetworkError => "NetworkError"@,
            ErrorKind::AuthenticationFailed => "AuthenticationFailed"@,
            ErrorKind::RemoteRejected => "RemoteRejected"@,
            ErrorKind::NotFound => "NotFound"@,
            ErrorKind::PermissionDenied => "PermissionDenied"@,
            ErrorKind::InvalidEncoding => "InvalidEncoding"@,
            ErrorKind::LocalFileError => "LocalFileError"@,
        }
    }

    /// Whether the kind is found by looking at the request alone, before any
    /// handler runs.
    pub fn is_validation(self) -> (local: bool)
        ensures
            local == self.is_validation_spec(),
    {
        matches!(self, ErrorKind::UnknownCommand | ErrorKind::InvalidArguments)
    }

    /// The name of the kind.
    pub fn name(self) -> (name: &'static str)
        ensures
            name@ == self.name_spec(),
    {
        match self {
            ErrorKind::UnknownCommand => "UnknownCommand",
            ErrorKind::InvalidArguments => "InvalidArguments",
            ErrorKind::NetworkError => "NetworkError",
            ErrorKind::AuthenticationFailed => "AuthenticationFailed",
            ErrorKind::RemoteRejected => "RemoteRejected",
            ErrorKind::NotFound => "NotFound",
            ErrorKind::PermissionDenied => "PermissionDenied",
            ErrorKind::InvalidEncoding => "InvalidEncoding",
            ErrorKind::LocalFileError => "LocalFileError",
        }
    }
}

/// What a handler reports when it fails: the kind, and words for a person.
#[derive(Clone, Debug, PartialEq, Eq)]
pub struct HandlerFailure {
    pub kind: ErrorKind,
    pub message: String,
}

/// The mathematical value of a [`HandlerFailure`].
pub struct FailureView {
    pub kind: ErrorKind,
    pub message: Seq<char>,
}

impl View for HandlerFailure {
    type V = FailureView;

    open spec fn view(&self) -> FailureView {
        FailureView { kind: self.kind, message: self.message@ }
    }
}

/// The error that a caller receives.
#[derive(Clone, Debug, PartialEq, Eq)]
pub enum CommandError {
    /// The name stands for no command. Carries the name as it was given.
    UnknownCommand { name: String },
    /// A field of the payload is missing or has the wrong shape.
    InvalidArguments { field: Field, expected: Shape },
    /// The handler failed. Carries what it reported, as it reported it.
    Handler { kind: ErrorKind, message: String },
}

/// The mathematical value of a [`CommandError`].
pub enum ErrorView {
    UnknownCommand { name: Seq<char> },
    InvalidArguments { field: Field, expected: Shape },
    Handler { kind: ErrorKind, message: Seq<char> },
}

impl ErrorView {
    /// The kind under which a caller files the error.
    pub open spec fn kind(self) -> ErrorKind {
        match self {
            ErrorView::UnknownCommand { .. } => ErrorKind::UnknownCommand,
            ErrorView::InvalidArguments { .. } => ErrorKind::InvalidArguments,
            ErrorView::Handler { kind, .. } => kind,
        }
    }

    /// The words that tell a person what went wrong.
    pub open spec fn message(self) -> Seq<char> {
        match self {
            ErrorView::UnknownCommand { name } => "unknown command: "@ + name,
            ErrorView::InvalidArguments { field, expected } => "invalid argument "@
                + field.name_spec() + ": expected "@ + expected.describe_spec(),
            ErrorView::Handler { message, .. } => message,
        }
    }
}

impl View for CommandError {
    type V = ErrorView;

    open spec fn view(&self) -> ErrorView {
        match self {
            CommandError::UnknownCommand { name } => ErrorView::UnknownCommand { name: name@ },
            CommandError::InvalidArguments { field, expected } => ErrorView::InvalidArguments {
                field: *field,
                expected: *expected,
            },
            CommandError::Handler { kind, message } => ErrorView::Handler {
                kind: *kind,
                message: message@,
            },
        }
    }
}

impl CommandError {
    /// The kind under which a caller files the error.
    pub fn kind(&self) -> (kind: ErrorKind)
        ensures
            kind == self@.kind(),
    {
        match self {
            CommandError::UnknownCommand { .. } => ErrorKind::UnknownCommand,
            CommandError::InvalidArguments { .. } => ErrorKind::InvalidArguments,
            CommandError::Handler { kind, .. } => *kind,
        }
    }

    /// The words that tell a person what went wrong.
    pub fn message(&self) -> (message: String)
        ensures
            message@ == self@.message(),
    {
        match self {
            CommandError::UnknownCommand { name } => {
                String::from_str("unknown command: ").concat(name.as_str())
            },
            CommandError::InvalidArguments { field, expected } => {
                String::from_str("invalid argument ").concat(field.name()).concat(
                    ": expected ",
                ).concat(expected.describe())
            },
            CommandError::Handler { message, .. } => message.clone(),
        }
    }
}

} // verus!
