//! The ways in which an operation of this library fails.

use vstd::prelude::*;

verus! {

/// Why an operation failed.
#[derive(Debug, PartialEq, Eq)]
pub enum AppError {
    /// No configuration directory is known: none was given and the platform
    /// names none.
    MissingConfigDir,
    /// The file system refused an operation. Holds the underlying message.
    Io(String),
    /// A stored configuration or a locale file is malformed. Holds the whole
    /// message.
    Parse(String),
    /// No locale file exists for any candidate, in either location.
    LocaleNotFound,
    /// The clipboard could not be opened. Holds the underlying message.
    ClipboardAccess(String),
}

/// What an `AppError` holds, as text.
pub ghost enum AppErrorView {
    MissingConfigDir,
    Io(Seq<char>),
    Parse(Seq<char>),
    LocaleNotFound,
    ClipboardAccess(Seq<char>),
}

impl AppErrorView {
    /// The message under which the error is reported to the host.
    pub open spec fn message(self) -> Seq<char> {
        match self {
            AppErrorView::MissingConfigDir => "unable to determine config directory"@,
            AppErrorView::Io(detail) => detail,
            AppErrorView::Parse(message) => message,
            AppErrorView::LocaleNotFound => "no locale resources found"@,
            AppErrorView::ClipboardAccess(detail) => detail,
        }
    }
}

impl View for AppError {
    type V = AppErrorView;

    open spec fn view(&self) -> AppErrorView {
        match self {
            AppError::MissingConfigDir => AppErrorView::MissingConfigDir,
            AppError::Io(detail) => AppErrorView::Io(detail@),
            AppError::Parse(message) => AppErrorView::Parse(message@),
            AppError::LocaleNotFound => AppErrorView::LocaleNotFound,
            AppError::ClipboardAccess(detail) => AppErrorView::ClipboardAccess(detail@),
        }
    }
}

impl AppError {
    /// The message under which the error is reported to the host.
    pub fn message(&self) -> (text: String)
        ensures
            text@ == self@.message(),
    {
        match self {
            AppError::MissingConfigDir => String::from_str("unable to determine config directory"),
            AppError::Io(detail) => detail.clone(),
            AppError::Parse(message) => message.clone(),
            AppError::LocaleNotFound => String::from_str("no locale resources found"),
            AppError::ClipboardAccess(detail) => detail.clone(),
        }
    }
}

} // verus!
