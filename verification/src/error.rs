use vstd::prelude::*;

verus! {

/// The category of an error, which callers map onto their own status codes.
#[derive(Debug, Clone, Copy, PartialEq, Eq, Structural)]
pub enum ErrorKind {
    Validation,
    Unauthorized,
    Internal,
    NotFound,
    Conflict,
    ServiceUnavailable,
}

/// An error of the adapters: its category, a machine-readable code and a
/// human-readable message.
#[derive(Debug, Clone)]
pub struct AppError {
    pub kind: ErrorKind,
    pub code: String,
    pub message: String,
}

impl AppError {
    pub fn new(kind: ErrorKind, code: &str, message: String) -> (e: AppError)
        ensures
            e.kind == kind,
            e.code@ == code@,
            e.message@ == message@,
    {
        AppError { kind, code: code.to_owned(), message }
    }

    /// Whether this error has the given kind, code and message.
    pub open spec fn is(self, kind: ErrorKind, code: Seq<char>, message: Seq<char>) -> bool {
        self.kind == kind && self.code@ == code && self.message@ == message
    }
}

} // verus!
