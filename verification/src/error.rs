//! Failures of a transfer, and failures that the operating system reports.
use vstd::prelude::*;

verus! {

broadcast use vstd::string::group_string_axioms;

/// The kinds of operating-system failure that decisions depend on.
#[derive(Clone, Copy, Debug, PartialEq, Eq, Structural)]
pub enum IoKind {
    NotFound,
    AlreadyExists,
    InvalidInput,
    Unsupported,
    /// `std::io::ErrorKind::Other`.
    Other,
    /// Any further kind.
    Unclassified,
}

/// A failure reported by the operating system.
#[derive(Debug)]
pub struct IoFailure {
    pub kind: IoKind,
    /// The raw error number, where the system gave one.
    pub code: Option<i32>,
    pub message: String,
}

/// What an [`IoFailure`] says.
pub struct IoFailureView {
    pub kind: IoKind,
    pub code: Option<i32>,
    pub message: Seq<char>,
}

impl View for IoFailure {
    type V = IoFailureView;

    open spec fn view(&self) -> IoFailureView {
        IoFailureView { kind: self.kind, code: self.code, message: self.message@ }
    }
}

impl IoFailure {
    /// A failure that carries no error number.
    pub fn new(kind: IoKind, message: String) -> (failure: Self)
        ensures
            failure@ == io_failure(kind, message@),
    {
        IoFailure { kind, code: None, message }
    }
}

impl Clone for IoFailure {
    fn clone(&self) -> (copy: Self)
        ensures
            copy == *self,
    {
        IoFailure { kind: self.kind, code: self.code, message: self.message.clone() }
    }
}

/// A failure of kind `kind` that carries no error number.
pub open spec fn io_failure(kind: IoKind, message: Seq<char>) -> IoFailureView {
    IoFailureView { kind, code: None, message }
}

/// Why a transfer request could not be served.
#[derive(Debug)]
pub enum AppError {
    /// The request breaks a rule and must not be repeated as it is.
    Validation(String),
    /// The request contradicts the state of the transfer.
    Conflict(String),
    /// The outcome is not settled yet; the request may be repeated.
    Unavailable(String),
    /// What the request names does not exist.
    NotFound(String),
    Generic(String),
    Io(IoFailure),
}

/// What an [`AppError`] says.
pub enum AppErrorView {
    Validation(Seq<char>),
    Conflict(Seq<char>),
    Unavailable(Seq<char>),
    NotFound(Seq<char>),
    Generic(Seq<char>),
    Io(IoFailureView),
}

impl AppErrorView {
    /// The text shown for the error.
    pub open spec fn message(self) -> Seq<char> {
        match self {
            AppErrorView::Validation(m) => m,
            AppErrorView::Conflict(m) => m,
            AppErrorView::Unavailable(m) => m,
            AppErrorView::NotFound(m) => m,
            AppErrorView::Generic(m) => m,
            AppErrorView::Io(f) => f.message,
        }
    }
}

impl View for AppError {
    type V = AppErrorView;

    open spec fn view(&self) -> AppErrorView {
        match self {
            AppError::Validation(m) => AppErrorView::Validation(m@),
            AppError::Conflict(m) => AppErrorView::Conflict(m@),
            AppError::Unavailable(m) => AppErrorView::Unavailable(m@),
            AppError::NotFound(m) => AppErrorView::NotFound(m@),
            AppError::Generic(m) => AppErrorView::Generic(m@),
            AppError::Io(f) => AppErrorView::Io(f@),
        }
    }
}

impl AppError {
    /// A broken rule.
    pub fn validation(message: String) -> (e: Self)
        ensures
            e@ == AppErrorView::Validation(message@),
    {
        AppError::Validation(message)
    }

    /// A contradiction with the state of the transfer.
    pub fn conflict(message: String) -> (e: Self)
        ensures
            e@ == AppErrorView::Conflict(message@),
    {
        AppError::Conflict(message)
    }

    /// An outcome that is not settled yet.
    pub fn unavailable(message: String) -> (e: Self)
        ensures
            e@ == AppErrorView::Unavailable(message@),
    {
        AppError::Unavailable(message)
    }

    /// Something named that does not exist.
    pub fn not_found(message: String) -> (e: Self)
        ensures
            e@ == AppErrorView::NotFound(message@),
    {
        AppError::NotFound(message)
    }

    /// Anything else.
    pub fn generic(message: String) -> (e: Self)
        ensures
            e@ == AppErrorView::Generic(message@),
    {
        AppError::Generic(message)
    }

    /// The text shown for the error.
    pub fn message(&self) -> (text: String)
        ensures
            text@ == self@.message(),
    {
        match self {
            AppError::Validation(m) => m.clone(),
            AppError::Conflict(m) => m.clone(),
            AppError::Unavailable(m) => m.clone(),
            AppError::NotFound(m) => m.clone(),
            AppError::Generic(m) => m.clone(),
            AppError::Io(f) => f.message.clone(),
        }
    }
}

impl Clone for AppError {
    fn clone(&self) -> (copy: Self)
        ensures
            copy == *self,
    {
        match self {
            AppError::Validation(m) => AppError::Validation(m.clone()),
            AppError::Conflict(m) => AppError::Conflict(m.clone()),
            AppError::Unavailable(m) => AppError::Unavailable(m.clone()),
            AppError::NotFound(m) => AppError::NotFound(m.clone()),
            AppError::Generic(m) => AppError::Generic(m.clone()),
            AppError::Io(f) => AppError::Io(f.clone()),
        }
    }
}

/// An error says the text that it was made with.
pub proof fn an_error_says_its_text(text: Seq<char>, kind: IoKind)
    ensures
        AppErrorView::Validation(text).message() == text,
        AppErrorView::Conflict(text).message() == text,
        AppErrorView::Unavailable(text).message() == text,
        AppErrorView::NotFound(text).message() == text,
        AppErrorView::Generic(text).message() == text,
        AppErrorView::Io(io_failure(kind, text)).message() == text,
        io_failure(kind, text).kind == kind,
        io_failure(kind, text).code is None,
{
}

} // verus!
